use rapidl::credits::{Balance, FetchError, IncrementTotalCreditsError};
use rapidl::options::{GenerateId, GenerateOption};
use rapidl::response::Rejection;
use rapidl::status::GenerationStatus;
use rapidl::submit::{
    contains_duplicates, request, required_credits, Accepted, RequestPayload, SubmitOutcome,
    SubmitStep, MAX_CHOICES,
};

fn payload(choices: Vec<GenerateOption>) -> RequestPayload {
    RequestPayload { choices, payload_id: GenerateId::MathsMechanics }
}

fn two() -> RequestPayload {
    payload(vec![GenerateOption::SUVAT, GenerateOption::Vectors])
}

#[test]
fn what_a_choice_costs() {
    assert_eq!(MAX_CHOICES, 4);
    assert_eq!(required_credits(&two()), Ok(2));
    assert_eq!(required_credits(&payload(vec![GenerateOption::Graphs])), Ok(1));
    assert_eq!(
        required_credits(&payload(vec![
            GenerateOption::SUVAT,
            GenerateOption::Vectors,
            GenerateOption::Graphs,
            GenerateOption::Moments
        ])),
        Ok(4)
    );
}

#[test]
fn choices_that_are_turned_down() {
    assert_eq!(required_credits(&payload(vec![])), Err(Rejection::NoChoices));
    assert_eq!(
        required_credits(&payload(vec![GenerateOption::SUVAT, GenerateOption::Algebra])),
        Err(Rejection::InvalidOptions)
    );
    assert_eq!(
        required_credits(&payload(vec![
            GenerateOption::SUVAT,
            GenerateOption::Vectors,
            GenerateOption::Graphs,
            GenerateOption::Moments,
            GenerateOption::Pullies
        ])),
        Err(Rejection::ChoicesTooLong)
    );
    assert_eq!(
        required_credits(&payload(vec![GenerateOption::SUVAT, GenerateOption::SUVAT])),
        Err(Rejection::DuplicateChoices)
    );
    // Too many comes before twice, and what does not belong before both.
    assert_eq!(
        required_credits(&payload(vec![GenerateOption::SUVAT; 5])),
        Err(Rejection::ChoicesTooLong)
    );
    assert_eq!(
        required_credits(&payload(vec![GenerateOption::Algebra; 5])),
        Err(Rejection::InvalidOptions)
    );
    assert_eq!(request(&payload(vec![])).step, SubmitStep::Finish(Err(Rejection::NoChoices)));
}

#[test]
fn duplicates() {
    assert!(!contains_duplicates(&vec![]));
    assert!(!contains_duplicates(&vec![GenerateOption::SUVAT, GenerateOption::Vectors]));
    assert!(contains_duplicates(&vec![
        GenerateOption::SUVAT,
        GenerateOption::Vectors,
        GenerateOption::SUVAT
    ]));
    assert!(contains_duplicates(&vec![GenerateOption::Graphs, GenerateOption::Graphs]));
    assert!(!contains_duplicates(&vec![
        GenerateOption::SequencesAndSeries,
        GenerateOption::CoordinateGeometry,
        GenerateOption::SUVAT,
        GenerateOption::Momentum,
        GenerateOption::Algebra
    ]));
}

#[test]
fn a_submission_walks_all_its_steps() {
    let run = request(&two());
    assert_eq!((run.step, run.amount, run.credits_used), (SubmitStep::ReadBalance, 2, 2));
    let run = run.advance(SubmitOutcome::Balance(Ok(Balance { total: 5, earliest_expiry: 900 })));
    assert_eq!(run.step, SubmitStep::Decrement { amount: 2 });
    let run = run.advance(SubmitOutcome::Spent(Ok(Balance { total: 3, earliest_expiry: 900 })));
    assert_eq!(run.step, SubmitStep::OpenPostgres);
    let run = run.advance(SubmitOutcome::Done);
    assert_eq!(
        run.step,
        SubmitStep::InsertJob { credits_used: 2, status: GenerationStatus::Waiting }
    );
    let run = run.advance(SubmitOutcome::Done);
    assert_eq!(run.step, SubmitStep::OpenRedis);
    let run = run.advance(SubmitOutcome::Done);
    assert_eq!(run.step, SubmitStep::SeedCache { status: GenerationStatus::Working, ttl: 1_800 });
    let run = run.advance(SubmitOutcome::Done);
    assert_eq!(run.step, SubmitStep::Publish);
    let run = run.advance(SubmitOutcome::Done);
    assert_eq!(run.step, SubmitStep::Finish(Ok(Accepted { credits_left: 3, next_fetch: 900 })));
}

#[test]
fn too_few_credits() {
    let end = SubmitStep::Finish(Err(Rejection::InsufficientCredits));
    let run = request(&two());
    assert_eq!(
        run.advance(SubmitOutcome::Balance(Ok(Balance { total: 1, earliest_expiry: 900 }))).step,
        end
    );
    assert_eq!(
        run.advance(SubmitOutcome::Balance(Ok(Balance { total: 0, earliest_expiry: 0 }))).step,
        end
    );
    // The balance that was read sufficed, the spend found less.
    let spend = run.advance(SubmitOutcome::Balance(Ok(Balance { total: 2, earliest_expiry: 900 })));
    assert_eq!(
        spend.advance(SubmitOutcome::Spent(Err(IncrementTotalCreditsError::NotEnoughCredits))).step,
        end
    );
}

#[test]
fn failures_before_the_spend_give_nothing_back() {
    let run = request(&two());
    assert_eq!(
        run.advance(SubmitOutcome::Balance(Err(FetchError::FailedToQueryRedis))).step,
        SubmitStep::Finish(Err(Rejection::FailedToQuery))
    );
    let spend = run.advance(SubmitOutcome::Balance(Ok(Balance { total: 2, earliest_expiry: 900 })));
    assert_eq!(
        spend.advance(SubmitOutcome::Spent(Err(IncrementTotalCreditsError::BadData))).step,
        SubmitStep::Finish(Err(Rejection::UnknownError))
    );
}

#[test]
fn failures_after_the_spend_give_the_credits_back() {
    let spent = request(&two())
        .advance(SubmitOutcome::Balance(Ok(Balance { total: 5, earliest_expiry: 900 })))
        .advance(SubmitOutcome::Spent(Ok(Balance { total: 3, earliest_expiry: 900 })));
    let mut run = spent;
    // Connection, row, connection, cache entry: each may fail.
    for _ in 0..4 {
        let refund = run.advance(SubmitOutcome::Failed);
        assert_eq!(refund.step, SubmitStep::Refund { amount: 2 });
        // How the refund goes changes nothing of what the caller is told.
        for outcome in [SubmitOutcome::Done, SubmitOutcome::Failed] {
            assert_eq!(
                refund.advance(outcome).step,
                SubmitStep::Finish(Err(Rejection::InternalServiceError))
            );
        }
        run = run.advance(SubmitOutcome::Done);
    }
    assert_eq!(run.step, SubmitStep::Publish);
    let refund = run.advance(SubmitOutcome::Failed);
    assert_eq!(refund.step, SubmitStep::Refund { amount: 2 });
    let unseed = refund.advance(SubmitOutcome::Failed);
    assert_eq!(unseed.step, SubmitStep::Unseed);
    assert_eq!(
        unseed.advance(SubmitOutcome::Failed).step,
        SubmitStep::Finish(Err(Rejection::FailedToAddTaskToQueue))
    );
}
