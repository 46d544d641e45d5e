use rapidl::auth::{
    is_timestamp_close_to_expire_or_expired, is_timestamp_expired, AccessTokenDescription,
    RecaptchaResponse, RequestDescription, TokenData,
};
use rapidl::content::{
    check_id, delete_request, get_batch_request, get_request, is_valid_page_size, post_request,
    post_retry_request, rename_result, total_pages, DeleteOutcome, DeleteStep, Deleted,
    GenerationBatchQuery, GenerationNameChangeQuery, GenerationQuery, GenerationSelectable,
    Pagination, RetryOutcome, RetryStep, ShowOutcome, ShowStep, Shown,
};
use rapidl::credits::{Balance, IncrementTotalCreditsError};
use rapidl::response::{internal_server_error, status_response, Rejection};
use rapidl::status::GenerationStatus;
use rapidl::status::GenerationStatus::{Deleting, Failed, Success, Waiting, Working};

const JOB: &str = "550e8400-e29b-41d4-a716-446655440000";
const OTHER: &str = "650e8400-e29b-41d4-a716-446655440000";

fn query(id: &str) -> GenerationQuery {
    GenerationQuery { id: id.to_string() }
}

#[test]
fn an_id_has_to_be_an_ascii_uuid() {
    assert_eq!(check_id(JOB), Ok(0x550e8400_e29b_41d4_a716_446655440000));
    assert_eq!(check_id("job"), Err(Rejection::InvalidId));
    assert_eq!(check_id("jöb"), Err(Rejection::NotAscii));
    assert_eq!(get_request(&query("jöb")), ShowStep::Finish(Err(Rejection::NotAscii)));
    assert_eq!(get_request(&query("job")), ShowStep::Finish(Err(Rejection::InvalidId)));
    assert_eq!(delete_request(&query("job")), DeleteStep::Finish(Err(Rejection::InvalidId)));
    assert_eq!(post_retry_request(&query("job")).step, RetryStep::Finish(Err(Rejection::InvalidId)));
}

#[test]
fn the_cache_answers_for_every_state_but_success() {
    let at_cache = get_request(&query(JOB)).advance(ShowOutcome::Done);
    assert_eq!(at_cache, ShowStep::ReadStatusCache);
    for status in [Working, Failed, Deleting, Waiting] {
        assert_eq!(
            at_cache.advance(ShowOutcome::Cached(Some(status))),
            ShowStep::Finish(Ok(Shown::State(status)))
        );
    }
    assert_eq!(at_cache.advance(ShowOutcome::Cached(Some(Success))), ShowStep::OpenPostgres);
    assert_eq!(at_cache.advance(ShowOutcome::Cached(None)), ShowStep::OpenPostgres);
}

#[test]
fn a_success_is_shown_with_its_artifact() {
    let at_row = ShowStep::OpenPostgres.advance(ShowOutcome::Done);
    assert_eq!(at_row, ShowStep::ReadJob);
    for status in [Working, Failed, Deleting, Waiting] {
        assert_eq!(
            at_row.advance(ShowOutcome::Job { status, finished: false }),
            ShowStep::Finish(Ok(Shown::State(status)))
        );
    }
    assert_eq!(
        at_row.advance(ShowOutcome::Job { status: Success, finished: false }),
        ShowStep::Finish(Err(Rejection::UnexpectedError))
    );
    let fetch = at_row.advance(ShowOutcome::Job { status: Success, finished: true });
    assert_eq!(fetch, ShowStep::FetchObject);
    let encode = fetch.advance(ShowOutcome::Done);
    assert_eq!(encode, ShowStep::EncodeBlob);
    assert_eq!(encode.advance(ShowOutcome::Done), ShowStep::Finish(Ok(Shown::Content)));
}

#[test]
fn each_failure_of_showing_has_its_answer() {
    let end = |r| ShowStep::Finish(Err(r));
    let failed = ShowOutcome::Failed;
    assert_eq!(ShowStep::OpenRedis.advance(failed), end(Rejection::InternalServiceError));
    assert_eq!(ShowStep::ReadStatusCache.advance(failed), end(Rejection::InternalServiceError));
    assert_eq!(ShowStep::OpenPostgres.advance(failed), end(Rejection::InternalServiceError));
    assert_eq!(ShowStep::ReadJob.advance(failed), end(Rejection::InternalServiceError));
    assert_eq!(ShowStep::FetchObject.advance(ShowOutcome::NoSuchKey), end(Rejection::UnexpectedError));
    assert_eq!(
        ShowStep::FetchObject.advance(ShowOutcome::InvalidObjectState),
        end(Rejection::ObjectInvalidState)
    );
    assert_eq!(
        ShowStep::FetchObject.advance(ShowOutcome::UnreadableBody),
        end(Rejection::FailedToReadObject)
    );
    assert_eq!(ShowStep::FetchObject.advance(failed), end(Rejection::BadError));
    assert_eq!(ShowStep::EncodeBlob.advance(failed), end(Rejection::FailedToReadObject));
}

#[test]
fn a_waiting_job_is_marked_and_a_success_goes_with_its_artifact() {
    let read = delete_request(&query(JOB)).advance(DeleteOutcome::Done);
    assert_eq!(read, DeleteStep::ReadJobForUpdate);
    let mark = read.advance(DeleteOutcome::Job { status: Waiting });
    assert_eq!(mark, DeleteStep::MarkDeleting);
    let drop = mark.advance(DeleteOutcome::Done);
    assert_eq!(drop, DeleteStep::DropCacheEntry { answer: Deleted::Deleting });
    assert_eq!(drop.advance(DeleteOutcome::Failed), DeleteStep::Finish(Ok(Deleted::Deleting)));

    let object = read.advance(DeleteOutcome::Job { status: Success });
    assert_eq!(object, DeleteStep::DeleteObject);
    let row = object.advance(DeleteOutcome::Done);
    assert_eq!(row, DeleteStep::DeleteRow);
    let drop = row.advance(DeleteOutcome::Done);
    assert_eq!(drop, DeleteStep::DropCacheEntry { answer: Deleted::Success });
    assert_eq!(drop.advance(DeleteOutcome::Done), DeleteStep::Finish(Ok(Deleted::Success)));
    assert_eq!(Deleted::Deleting.label(), "Deleting");
    assert_eq!(Deleted::Success.label(), "Success");
}

#[test]
fn what_cannot_be_deleted() {
    let end = |r| DeleteStep::Finish(Err(r));
    let read = DeleteStep::ReadJobForUpdate;
    for status in [Working, Failed, Deleting] {
        assert_eq!(read.advance(DeleteOutcome::Job { status }), end(Rejection::CannotCancel));
    }
    assert_eq!(read.advance(DeleteOutcome::Missing), end(Rejection::ContentNotFound));
    assert_eq!(read.advance(DeleteOutcome::Failed), end(Rejection::InternalServiceError));
    assert_eq!(DeleteStep::OpenPostgres.advance(DeleteOutcome::Failed), end(Rejection::InternalServiceError));
    // The row stays where the artifact could not be deleted.
    assert_eq!(DeleteStep::DeleteObject.advance(DeleteOutcome::Failed), end(Rejection::InternalServiceError));
    assert_eq!(DeleteStep::DeleteRow.advance(DeleteOutcome::NoRows), end(Rejection::InternalServiceError));
    assert_eq!(DeleteStep::MarkDeleting.advance(DeleteOutcome::NoRows), end(Rejection::InternalServiceError));
}

#[test]
fn a_retry_pays_again() {
    let run = post_retry_request(&query(JOB));
    assert_eq!((run.step, run.amount), (RetryStep::OpenPostgres, 0));
    let run = run.advance(RetryOutcome::Done);
    assert_eq!(run.step, RetryStep::ReadJobForUpdate);
    let run = run.advance(RetryOutcome::Job { status: Failed, cost: Some(3) });
    assert_eq!(run.step, RetryStep::Decrement { amount: 3 });
    let run = run.advance(RetryOutcome::Spent(Ok(Balance { total: 2, earliest_expiry: 9 })));
    assert_eq!((run.step, run.amount), (RetryStep::MarkWaiting, 3));
    let run = run.advance(RetryOutcome::Done);
    assert_eq!(run.step, RetryStep::Publish);
    let run = run.advance(RetryOutcome::Done);
    assert_eq!(run.step, RetryStep::SeedCache { status: Working, ttl: 1_800 });
    assert_eq!(run.advance(RetryOutcome::Failed).step, RetryStep::Finish(Ok(())));
}

#[test]
fn what_cannot_be_retried() {
    let end = |r| RetryStep::Finish(Err(r));
    let read = post_retry_request(&query(JOB)).advance(RetryOutcome::Done);
    for status in [Waiting, Working, Success, Deleting] {
        assert_eq!(
            read.advance(RetryOutcome::Job { status, cost: Some(1) }).step,
            end(Rejection::NotFailed)
        );
    }
    assert_eq!(
        read.advance(RetryOutcome::Job { status: Failed, cost: None }).step,
        end(Rejection::BadRecordData)
    );
    assert_eq!(read.advance(RetryOutcome::Failed).step, end(Rejection::InternalServiceError));
    let spend = read.advance(RetryOutcome::Job { status: Failed, cost: Some(2) });
    assert_eq!(
        spend.advance(RetryOutcome::Spent(Err(IncrementTotalCreditsError::NotEnoughCredits))).step,
        end(Rejection::InsufficientCredits)
    );
    assert_eq!(
        spend.advance(RetryOutcome::Spent(Err(IncrementTotalCreditsError::BadData))).step,
        end(Rejection::UnknownError)
    );
}

#[test]
fn a_retry_that_fails_after_the_spend_gives_back() {
    let read = post_retry_request(&query(JOB)).advance(RetryOutcome::Done);
    let mark = read
        .advance(RetryOutcome::Job { status: Failed, cost: Some(2) })
        .advance(RetryOutcome::Spent(Ok(Balance { total: 0, earliest_expiry: 1 })));
    let none = mark.advance(RetryOutcome::NoRows);
    assert_eq!(none.step, RetryStep::Refund { amount: 2, verdict: Rejection::UpdatedNoRows });
    assert_eq!(
        none.advance(RetryOutcome::Failed).step,
        RetryStep::Finish(Err(Rejection::UpdatedNoRows))
    );
    let lost = mark.advance(RetryOutcome::Done).advance(RetryOutcome::Failed);
    assert_eq!(lost.step, RetryStep::Refund { amount: 2, verdict: Rejection::InternalServiceError });
    assert_eq!(
        lost.advance(RetryOutcome::Done).step,
        RetryStep::Finish(Err(Rejection::InternalServiceError))
    );
}

#[test]
fn renaming() {
    let rename = |id: &str, name: &str| {
        post_request(&GenerationNameChangeQuery { id: id.to_string(), displayname: name.to_string() })
    };
    assert_eq!(rename(JOB, "a paper"), Ok(0x550e8400_e29b_41d4_a716_446655440000));
    assert_eq!(rename(JOB, ""), Ok(0x550e8400_e29b_41d4_a716_446655440000));
    assert_eq!(rename(JOB, "twenty characters ok"), Ok(0x550e8400_e29b_41d4_a716_446655440000));
    assert_eq!(rename(JOB, "twenty-one characters"), Err(Rejection::DisplayNameTooLong));
    assert_eq!(rename(JOB, "naïve"), Err(Rejection::NotAscii));
    assert_eq!(rename("jöb", "name"), Err(Rejection::NotAscii));
    assert_eq!(rename("job", "name"), Err(Rejection::InvalidId));
    assert_eq!(rename_result(0), Err(Rejection::NoRecordsChanged));
    assert_eq!(rename_result(1), Ok(()));
}

#[test]
fn batches() {
    let batch = |ids: &[&str]| {
        get_batch_request(&GenerationBatchQuery { ids: ids.iter().map(|s| s.to_string()).collect() })
    };
    assert_eq!(batch(&[]), Ok(vec![]));
    assert_eq!(
        batch(&[JOB, OTHER]),
        Ok(vec![0x550e8400_e29b_41d4_a716_446655440000, 0x650e8400_e29b_41d4_a716_446655440000])
    );
    assert_eq!(batch(&[JOB; 11]), Err(Rejection::TooManyIds));
    assert_eq!(batch(&[JOB, "jöb", "job"]), Err(Rejection::NotAscii));
    assert_eq!(batch(&[JOB, "job", JOB]), Err(Rejection::InvalidId));
    assert_eq!(batch(&[JOB, OTHER, JOB]), Err(Rejection::DuplicateIds));
    // The same job written in two ways is named twice.
    assert_eq!(batch(&[JOB, "550E8400E29B41D4A716446655440000"]), Err(Rejection::DuplicateIds));
    assert_eq!(batch(&[""]), Err(Rejection::InvalidId));
}

#[test]
fn pages() {
    assert_eq!(is_valid_page_size(5), Ok(()));
    assert_eq!(is_valid_page_size(10), Ok(()));
    assert_eq!(is_valid_page_size(0), Err(Rejection::InvalidPageSize));
    assert_eq!(is_valid_page_size(7), Err(Rejection::InvalidPageSize));
    assert_eq!(total_pages(0, 5), 0);
    assert_eq!(total_pages(1, 5), 1);
    assert_eq!(total_pages(5, 5), 1);
    assert_eq!(total_pages(6, 5), 2);
    assert_eq!(total_pages(100, 10), 10);
    assert_eq!(total_pages(101, 10), 11);
    assert_eq!(total_pages(usize::MAX, 1), usize::MAX);
    assert_eq!(total_pages(usize::MAX, 10), usize::MAX / 10 + 1);
    let page = Pagination { page: 2, page_size: 10, get_total_pages: true };
    assert_eq!(is_valid_page_size(page.page_size), Ok(()));
    assert!(page.get_total_pages && page.page == 2);
}

#[test]
fn answers() {
    let cases = [
        (Rejection::InvalidOptions, 400, "invalid options"),
        (Rejection::NoChoices, 400, "Cannot generate with no choices"),
        (Rejection::ChoicesTooLong, 400, "Choices too long"),
        (Rejection::DuplicateChoices, 400, "Cannot have duplicate choices"),
        (Rejection::InsufficientCredits, 400, "Insuffecient credits"),
        (Rejection::NotAscii, 400, "not ascii"),
        (Rejection::InvalidId, 400, "Invalid ID"),
        (Rejection::TooManyIds, 400, "Too many ids"),
        (Rejection::DuplicateIds, 400, "Cannot have duplicate ids"),
        (Rejection::DisplayNameTooLong, 400, "length is greater than 20"),
        (Rejection::InvalidPageSize, 400, "can only be 5 or 10"),
        (Rejection::ContentNotFound, 404, "Content not found"),
        (Rejection::NotFailed, 409, "You cannot retry a generation that has not failed"),
        (Rejection::CannotCancel, 423, "Cannot cancel a generation"),
        (Rejection::FailedToQuery, 500, "Failed to query"),
        (Rejection::UnknownError, 500, "Unknown Error"),
        (Rejection::InternalServiceError, 500, "Internal Service Error"),
        (Rejection::FailedToAddTaskToQueue, 500, "Failed to add task to queue"),
        (Rejection::BadRecordData, 500, "Bad record data"),
        (Rejection::UpdatedNoRows, 500, "Updated 0 rows"),
        (Rejection::NoRecordsChanged, 500, "No records changed"),
        (Rejection::UnexpectedError, 500, "Unexpected error"),
        (Rejection::ObjectInvalidState, 500, "Object has invalid state"),
        (Rejection::BadError, 500, "Bad error"),
        (Rejection::FailedToReadObject, 500, "Failed to read object"),
    ];
    for (rejection, status, message) in cases {
        assert_eq!(rejection.status(), status);
        assert_eq!(rejection.message(), message);
        let response = rejection.response();
        assert_eq!((response.status, response.message.as_str()), (status, message));
    }
    let plain = status_response(418, "teapot");
    assert_eq!((plain.status, plain.message.as_str()), (418, "teapot"));
    let inner = internal_server_error("Bad record data");
    assert_eq!((inner.status, inner.message.as_str()), (500, "Bad record data"));
}

#[test]
fn tokens_that_are_about_to_expire() {
    assert!(is_timestamp_close_to_expire_or_expired(100, 100, 20));
    assert!(is_timestamp_close_to_expire_or_expired(101, 100, 20));
    assert!(is_timestamp_close_to_expire_or_expired(81, 100, 20));
    assert!(!is_timestamp_close_to_expire_or_expired(80, 100, 20));
    assert!(!is_timestamp_close_to_expire_or_expired(0, 100, 20));
    assert!(!is_timestamp_close_to_expire_or_expired(i64::MIN, i64::MAX, i64::MAX));
    assert!(is_timestamp_expired(101, 100));
    assert!(!is_timestamp_expired(100, 100));
    let token = AccessTokenDescription { user_id: 7, has_support_privilege: false };
    let data = TokenData { userid: token.user_id, has_support_privilege: true };
    assert_eq!(data.userid, 7);
    let from = RequestDescription { ip: "::1".to_string() };
    assert_eq!(from.clone().ip, "::1");
    let captcha = RecaptchaResponse { success: false, error_codes: Some(vec!["bad".to_string()]) };
    assert!(!captcha.success && captcha.error_codes.unwrap().len() == 1);
    let row = GenerationSelectable {
        status: GenerationStatus::Success,
        createdat: 1,
        finishedon: Some(2),
        displayname: String::new(),
        options: "SUVAT".to_string(),
        category: "MathsMechanics".to_string(),
        creditsused: 1,
    };
    assert_eq!(row.finishedon.is_some(), row.status == GenerationStatus::Success);
}
