use rapidl::engine::{
    generate_from_options, get_generator_from_option, GenerateFailure, Generator,
    GENERATE_QUESTIONS_PER_TOPIC,
};
use rapidl::options::{GenerateId, GenerateOption};
use rapidl::status::GenerationStatus;
use rapidl::worker::{
    claim, classify, flag_as_failure, generate, handler, Disposition, FlagOutcome, FlagStep,
    GenerateOutcome, GenerateStep, GenerationError, HandlerOutcome, HandlerStep, SQSBody,
    FAILED_TTL, SUCCESS_TTL,
};

use rapidl::engine::Generator::{Suvat, Vectors};
use rapidl::options::GenerateId::{MathsCore, MathsMechanics, MathsStatistics};
use rapidl::status::GenerationStatus::{Deleting, Failed, Success, Waiting, Working};
use rapidl::worker::GenerationError::{
    CompressionError, DeleteImmediately, InternalGenerationFailure, PostgresCommandFailure,
    PostgresConnectionFailure, RedisCommandFailure, RedisConnectionFailure, S3PutError,
    SerializeError, UUIDParseFailure,
};

fn body(job_id: &str) -> SQSBody {
    SQSBody {
        user_id: 7,
        job_id: job_id.to_string(),
        gen_id: GenerateId::MathsMechanics,
        opts: vec![GenerateOption::SUVAT],
        created_at: 1_000,
    }
}

const JOB: &str = "550e8400-e29b-41d4-a716-446655440000";

#[test]
fn a_job_id_that_is_no_uuid_ends_the_work_at_once() {
    assert_eq!(generate(&body("job-1")), GenerateStep::Finish(Err(UUIDParseFailure)));
    assert_eq!(generate(&body(JOB)), GenerateStep::OpenPostgres);
    assert_eq!(flag_as_failure("job-1"), FlagStep::Finish(false));
    assert_eq!(flag_as_failure(JOB), FlagStep::OpenPostgres);
}

#[test]
fn the_worker_stores_the_artifact_before_it_tells_of_success() {
    let steps = [
        (GenerateOutcome::Done, GenerateStep::ReadJobForUpdate),
        (
            GenerateOutcome::Job { status: Waiting, credits_used: 1 },
            GenerateStep::MarkWorking,
        ),
        (GenerateOutcome::Done, GenerateStep::RunGenerator),
        (GenerateOutcome::Generated(Ok(())), GenerateStep::Pack),
        (GenerateOutcome::Done, GenerateStep::Upload),
        (GenerateOutcome::Done, GenerateStep::OpenPostgresForResult),
        (GenerateOutcome::Done, GenerateStep::MarkSuccess),
        (GenerateOutcome::Done, GenerateStep::OpenRedis),
        (
            GenerateOutcome::Done,
            GenerateStep::CacheSuccess { status: Success, ttl: 240 },
        ),
        (GenerateOutcome::Done, GenerateStep::Finish(Ok(()))),
    ];
    let mut step = generate(&body(JOB));
    for (outcome, next) in steps {
        step = step.advance(outcome);
        assert_eq!(step, next);
    }
}

#[test]
fn what_a_claim_meets() {
    assert_eq!(claim(Waiting, 3), GenerateStep::MarkWorking);
    assert_eq!(claim(Working, 3), GenerateStep::Finish(Ok(())));
    assert_eq!(claim(Deleting, 3), GenerateStep::RefundAndRemove { credits: 3 });
    // A job that used no credits has none to get back.
    assert_eq!(claim(Deleting, 0), GenerateStep::RemoveJob);
    assert_eq!(claim(Deleting, -2), GenerateStep::RemoveJob);
    assert_eq!(
        GenerateStep::RemoveJob.advance(GenerateOutcome::Done),
        GenerateStep::Finish(Err(DeleteImmediately))
    );
    assert_eq!(
        GenerateStep::RemoveJob.advance(GenerateOutcome::Failed),
        GenerateStep::Finish(Err(PostgresCommandFailure))
    );
    assert_eq!(claim(Success, 3), GenerateStep::Finish(Err(DeleteImmediately)));
    assert_eq!(claim(Failed, 3), GenerateStep::Finish(Err(DeleteImmediately)));
    let read = GenerateStep::ReadJobForUpdate;
    let refund = read.advance(GenerateOutcome::Job { status: Deleting, credits_used: 2 });
    assert_eq!(refund, GenerateStep::RefundAndRemove { credits: 2 });
    let after = refund.advance(GenerateOutcome::Done);
    assert_eq!(after, GenerateStep::InvalidateBalance);
    for outcome in [GenerateOutcome::Done, GenerateOutcome::Failed] {
        assert_eq!(
            after.advance(outcome),
            GenerateStep::Finish(Err(DeleteImmediately))
        );
    }
}

#[test]
fn each_failure_of_the_work_has_its_error() {
    let end = |e| GenerateStep::Finish(Err(e));
    let failed = GenerateOutcome::Failed;
    assert_eq!(GenerateStep::OpenPostgres.advance(failed), end(PostgresConnectionFailure));
    assert_eq!(GenerateStep::ReadJobForUpdate.advance(failed), end(PostgresCommandFailure));
    assert_eq!(GenerateStep::MarkWorking.advance(failed), end(PostgresCommandFailure));
    assert_eq!(GenerateStep::RefundAndRemove { credits: 1 }.advance(failed), end(PostgresCommandFailure));
    let unsupported = GenerateFailure::InvalidOption(GenerateOption::Graphs);
    assert_eq!(
        GenerateStep::RunGenerator.advance(GenerateOutcome::Generated(Err(unsupported))),
        end(InternalGenerationFailure(unsupported))
    );
    assert_eq!(GenerateStep::Pack.advance(GenerateOutcome::SerializeFailed), end(SerializeError));
    assert_eq!(GenerateStep::Pack.advance(GenerateOutcome::CompressFailed), end(CompressionError));
    assert_eq!(GenerateStep::Upload.advance(failed), end(S3PutError));
    assert_eq!(GenerateStep::OpenPostgresForResult.advance(failed), end(PostgresConnectionFailure));
    assert_eq!(GenerateStep::MarkSuccess.advance(failed), end(PostgresCommandFailure));
    assert_eq!(GenerateStep::OpenRedis.advance(failed), end(RedisConnectionFailure));
    assert_eq!(
        GenerateStep::CacheSuccess { status: Success, ttl: SUCCESS_TTL }.advance(failed),
        end(RedisCommandFailure)
    );
}

#[test]
fn what_becomes_of_the_message() {
    assert_eq!(classify(Ok(())), Disposition::Acknowledge);
    assert_eq!(classify(Err(DeleteImmediately)), Disposition::Acknowledge);
    // A store that could not be reached will be there again.
    for e in [
        RedisConnectionFailure,
        PostgresConnectionFailure,
        RedisCommandFailure,
        PostgresCommandFailure,
        S3PutError,
    ] {
        assert_eq!(classify(Err(e)), Disposition::Leave);
        assert_eq!(
            HandlerStep::Generate.advance(HandlerOutcome::Generated(Err(e))),
            HandlerStep::Finish
        );
    }
    // What would come again is written to the job.
    let unsupported = GenerateFailure::InvalidOption(GenerateOption::Graphs);
    for e in [
        InternalGenerationFailure(unsupported),
        SerializeError,
        UUIDParseFailure,
        CompressionError,
    ] {
        assert_eq!(classify(Err(e)), Disposition::Flag);
    }
}

#[test]
fn poison_messages_go_at_once() {
    assert_eq!(handler(true, true, true), HandlerStep::Generate);
    for (has_body, parsed, receipt) in
        [(false, false, true), (true, false, true), (true, true, false), (false, false, false)]
    {
        let step = handler(has_body, parsed, receipt);
        assert_eq!(step, HandlerStep::DeleteMessage);
        assert_eq!(step.advance(HandlerOutcome::Deleted), HandlerStep::Finish);
    }
}

#[test]
fn the_message_stays_only_where_a_retry_may_help() {
    let generate = HandlerStep::Generate;
    assert_eq!(generate.advance(HandlerOutcome::Generated(Ok(()))), HandlerStep::DeleteMessage);
    assert_eq!(
        generate.advance(HandlerOutcome::Generated(Err(PostgresConnectionFailure))),
        HandlerStep::Finish
    );
    let flag = generate.advance(HandlerOutcome::Generated(Err(SerializeError)));
    assert_eq!(flag, HandlerStep::FlagAsFailure);
    assert_eq!(flag.advance(HandlerOutcome::Flagged(false)), HandlerStep::DeleteMessage);
    assert_eq!(flag.advance(HandlerOutcome::Flagged(true)), HandlerStep::Finish);
}

#[test]
fn a_failure_is_written_only_to_a_working_job() {
    let read = flag_as_failure(JOB).advance(FlagOutcome::Done);
    assert_eq!(read, FlagStep::ReadJobForUpdate);
    let write = read.advance(FlagOutcome::Job { status: Working, credits_used: 3 });
    assert_eq!(write, FlagStep::RefundAndMarkFailed { credits: 3 });
    let cache = FlagStep::CacheFailed { status: Failed, ttl: FAILED_TTL };
    let steps = [FlagStep::InvalidateBalance, cache, FlagStep::Finish(false)];
    let mut step = write;
    for next in steps {
        step = step.advance(FlagOutcome::Done);
        assert_eq!(step, next);
    }
    for status in [Waiting, Success, Failed, Deleting] {
        assert_eq!(
            read.advance(FlagOutcome::Job { status, credits_used: 3 }),
            FlagStep::Finish(false)
        );
    }
    assert_eq!(read.advance(FlagOutcome::Missing), FlagStep::Finish(false));
    // What the store could not do is tried again.
    assert_eq!(FlagStep::OpenPostgres.advance(FlagOutcome::Failed), FlagStep::Finish(true));
    assert_eq!(read.advance(FlagOutcome::Failed), FlagStep::Finish(true));
    assert_eq!(write.advance(FlagOutcome::Failed), FlagStep::Finish(true));
    // What the caches could not do is not.
    assert_eq!(FlagStep::InvalidateBalance.advance(FlagOutcome::Failed), cache);
    assert_eq!(cache.advance(FlagOutcome::Failed), FlagStep::Finish(false));
    // A job that used no credits is made `Failed` with nothing given back.
    let bare = read.advance(FlagOutcome::Job { status: Working, credits_used: 0 });
    assert_eq!(bare, FlagStep::MarkFailed);
    assert_eq!(bare.advance(FlagOutcome::Done), cache);
    assert_eq!(bare.advance(FlagOutcome::Failed), FlagStep::Finish(true));
    assert_eq!((FAILED_TTL, SUCCESS_TTL), (120, 240));
}

#[test]
fn generators_of_the_categories() {
    assert_eq!(get_generator_from_option(MathsMechanics, &GenerateOption::SUVAT), Some(Generator::Suvat));
    assert_eq!(get_generator_from_option(MathsMechanics, &GenerateOption::Vectors), Some(Generator::Vectors));
    assert_eq!(get_generator_from_option(MathsMechanics, &GenerateOption::Graphs), None);
    assert_eq!(get_generator_from_option(MathsCore, &GenerateOption::Algebra), None);
    assert_eq!(get_generator_from_option(MathsStatistics, &GenerateOption::SUVAT), None);
}

#[test]
fn a_paper_calls_each_generator_three_times() {
    assert_eq!(GENERATE_QUESTIONS_PER_TOPIC, 3);
    assert_eq!(
        generate_from_options(
            GenerateId::MathsMechanics,
            GENERATE_QUESTIONS_PER_TOPIC,
            &vec![GenerateOption::Vectors, GenerateOption::SUVAT]
        ),
        Ok(vec![Vectors, Vectors, Vectors, Suvat, Suvat, Suvat])
    );
    assert_eq!(generate_from_options(GenerateId::MathsCore, 3, &vec![]), Ok(vec![]));
    assert_eq!(
        generate_from_options(GenerateId::MathsMechanics, 0, &vec![GenerateOption::SUVAT]),
        Ok(vec![])
    );
    assert_eq!(
        generate_from_options(
            GenerateId::MathsMechanics,
            2,
            &vec![GenerateOption::SUVAT, GenerateOption::Moments, GenerateOption::Graphs]
        ),
        Err(GenerateFailure::InvalidOption(GenerateOption::Moments))
    );
}
