//! The job worker: what it does with one queue message, step by step.
//!
//! The worker claims the job under its row's lock, has the paper generated,
//! packs and stores the artifact, and only then marks the job a success,
//! first in the store and after that in the status cache. A failure that a
//! retry could mend leaves the message in the queue; any other failure is
//! written to the job, with the credits given back, and the message goes.

use vstd::prelude::*;
use crate::artifact::{parse_job_id, uuid_value};
use crate::engine::GenerateFailure;
use crate::jobs::{decide, verdict, JobRequest, Verdict};
use crate::options::{GenerateId, GenerateOption};
use crate::status::GenerationStatus;

verus! {

/// The body of a queue message: one job to run.
#[derive(Clone, Debug, PartialEq, Eq)]
pub struct SQSBody {
    pub user_id: i64,
    pub job_id: String,
    pub gen_id: GenerateId,
    pub opts: Vec<GenerateOption>,
    /// When the job was created, in seconds.
    pub created_at: i64,
}

/// Why the worker did not bring a job to success.
#[derive(Clone, Copy, Debug, PartialEq, Eq, Structural)]
pub enum GenerationError {
    RedisConnectionFailure,
    PostgresConnectionFailure,
    RedisCommandFailure,
    PostgresCommandFailure,
    InternalGenerationFailure(GenerateFailure),
    SerializeError,
    UUIDParseFailure,
    S3PutError,
    CompressionError,
    /// The job needs no work: the message can go.
    DeleteImmediately,
}

/// The seconds for which the status cache holds a success.
pub const SUCCESS_TTL: i64 = 240;

/// The seconds for which the status cache holds a failure.
pub const FAILED_TTL: i64 = 120;

/// The seconds for which the status cache holds a job that was just queued.
pub const WORKING_TTL: i64 = 1800;

/// What the worker has to do next for a job.
#[derive(Clone, Copy, Debug, PartialEq, Eq)]
pub enum GenerateStep {
    /// Take a store connection.
    OpenPostgres,
    /// Open a serializable read-write transaction and read the job's state
    /// and the credits it used, locked for update. A job that is not there
    /// is a read that failed. The transaction stays open for `MarkWorking`,
    /// `RefundAndRemove` or `RemoveJob`; any other step after this one ends
    /// it without a write.
    ReadJobForUpdate,
    /// Set the job's state to `Working` and commit.
    MarkWorking,
    /// Insert a grant of `credits`, which is positive, for the owner, with
    /// the standard lifetime; delete the job's row; and commit.
    RefundAndRemove { credits: i16 },
    /// Delete the job's row and commit: the job has used no credits, so none
    /// go back.
    RemoveJob,
    /// Delete the owner's balance from the cache; a failure is ignored.
    InvalidateBalance,
    /// Have the paper generated from the job's category and options.
    RunGenerator,
    /// Serialize the paper and pack the bytes.
    Pack,
    /// Store the packed bytes under the job's object key, marked as gzip.
    Upload,
    /// Take a store connection for the result.
    OpenPostgresForResult,
    /// Set the job's state to `Success` and its completion moment, where the
    /// job is `Working`.
    MarkSuccess,
    /// Take a cache connection.
    OpenRedis,
    /// Write the label of `status` to the job's entry in the status cache,
    /// to live for `ttl` seconds.
    CacheSuccess { status: GenerationStatus, ttl: i64 },
    /// The work on this job is over.
    Finish(Result<(), GenerationError>),
}

/// How the worker's last step went.
#[derive(Clone, Copy, Debug, PartialEq, Eq)]
pub enum GenerateOutcome {
    /// The step could not be done.
    Failed,
    /// The step was done.
    Done,
    /// The job's row, as read under the lock.
    Job { status: GenerationStatus, credits_used: i16 },
    /// What the generator said.
    Generated(Result<(), GenerateFailure>),
    /// The paper could not be serialized.
    SerializeFailed,
    /// The bytes could not be packed.
    CompressFailed,
}

/// The step that follows the reading of the job's row.
pub open spec fn after_claim(status: GenerationStatus, credits_used: i16) -> GenerateStep {
    match verdict(status, JobRequest::Claim) {
        Verdict::Move(_) => GenerateStep::MarkWorking,
        Verdict::RefundAndRemove => if credits_used > 0 {
            GenerateStep::RefundAndRemove { credits: credits_used }
        } else {
            GenerateStep::RemoveJob
        },
        _ => if status == GenerationStatus::Working {
            GenerateStep::Finish(Ok(()))
        } else {
            GenerateStep::Finish(Err(GenerationError::DeleteImmediately))
        },
    }
}

/// The step that follows `step` when it went as `outcome` says.
pub open spec fn generate_next(step: GenerateStep, outcome: GenerateOutcome) -> GenerateStep {
    match step {
        GenerateStep::OpenPostgres => match outcome {
            GenerateOutcome::Done => GenerateStep::ReadJobForUpdate,
            _ => GenerateStep::Finish(Err(GenerationError::PostgresConnectionFailure)),
        },
        GenerateStep::ReadJobForUpdate => match outcome {
            GenerateOutcome::Job { status, credits_used } => after_claim(status, credits_used),
            _ => GenerateStep::Finish(Err(GenerationError::PostgresCommandFailure)),
        },
        GenerateStep::MarkWorking => match outcome {
            GenerateOutcome::Done => GenerateStep::RunGenerator,
            _ => GenerateStep::Finish(Err(GenerationError::PostgresCommandFailure)),
        },
        GenerateStep::RefundAndRemove { .. } => match outcome {
            GenerateOutcome::Done => GenerateStep::InvalidateBalance,
            _ => GenerateStep::Finish(Err(GenerationError::PostgresCommandFailure)),
        },
        GenerateStep::RemoveJob => match outcome {
            GenerateOutcome::Done => GenerateStep::Finish(Err(GenerationError::DeleteImmediately)),
            _ => GenerateStep::Finish(Err(GenerationError::PostgresCommandFailure)),
        },
        GenerateStep::InvalidateBalance => GenerateStep::Finish(
            Err(GenerationError::DeleteImmediately),
        ),
        GenerateStep::RunGenerator => match outcome {
            GenerateOutcome::Generated(Ok(())) => GenerateStep::Pack,
            GenerateOutcome::Generated(Err(failure)) => GenerateStep::Finish(
                Err(GenerationError::InternalGenerationFailure(failure)),
            ),
            _ => GenerateStep::Finish(Err(GenerationError::SerializeError)),
        },
        GenerateStep::Pack => match outcome {
            GenerateOutcome::Done => GenerateStep::Upload,
            GenerateOutcome::CompressFailed => GenerateStep::Finish(
                Err(GenerationError::CompressionError),
            ),
            _ => GenerateStep::Finish(Err(GenerationError::SerializeError)),
        },
        GenerateStep::Upload => match outcome {
            GenerateOutcome::Done => GenerateStep::OpenPostgresForResult,
            _ => GenerateStep::Finish(Err(GenerationError::S3PutError)),
        },
        GenerateStep::OpenPostgresForResult => match outcome {
            GenerateOutcome::Done => GenerateStep::MarkSuccess,
            _ => GenerateStep::Finish(Err(GenerationError::PostgresConnectionFailure)),
        },
        GenerateStep::MarkSuccess => match outcome {
            GenerateOutcome::Done => GenerateStep::OpenRedis,
            _ => GenerateStep::Finish(Err(GenerationError::PostgresCommandFailure)),
        },
        GenerateStep::OpenRedis => match outcome {
            GenerateOutcome::Done => GenerateStep::CacheSuccess {
                status: GenerationStatus::Success,
                ttl: SUCCESS_TTL,
            },
            _ => GenerateStep::Finish(Err(GenerationError::RedisConnectionFailure)),
        },
        GenerateStep::CacheSuccess { .. } => match outcome {
            GenerateOutcome::Done => GenerateStep::Finish(Ok(())),
            _ => GenerateStep::Finish(Err(GenerationError::RedisCommandFailure)),
        },
        GenerateStep::Finish(result) => GenerateStep::Finish(result),
    }
}

/// The first step for a message: none but the end where its job id is no
/// UUID.
pub open spec fn generate_first_step(job_id: Seq<char>) -> GenerateStep {
    if uuid_value(job_id) is Some {
        GenerateStep::OpenPostgres
    } else {
        GenerateStep::Finish(Err(GenerationError::UUIDParseFailure))
    }
}

/// Starts the work on the job of a message.
pub fn generate(generate_options: &SQSBody) -> (r: GenerateStep)
    ensures
        r == generate_first_step(generate_options.job_id@),
{
    match parse_job_id(generate_options.job_id.as_str()) {
        Some(_) => GenerateStep::OpenPostgres,
        None => GenerateStep::Finish(Err(GenerationError::UUIDParseFailure)),
    }
}

/// The worker's next step after a claim met the job in `status`.
pub fn claim(status: GenerationStatus, credits_used: i16) -> (r: GenerateStep)
    ensures
        r == after_claim(status, credits_used),
{
    match decide(status, JobRequest::Claim) {
        Verdict::Move(_) => GenerateStep::MarkWorking,
        Verdict::RefundAndRemove => if credits_used > 0 {
            GenerateStep::RefundAndRemove { credits: credits_used }
        } else {
            GenerateStep::RemoveJob
        },
        _ => match status {
            GenerationStatus::Working => GenerateStep::Finish(Ok(())),
            _ => GenerateStep::Finish(Err(GenerationError::DeleteImmediately)),
        },
    }
}

impl GenerateStep {
    /// The step after this one went as `outcome` says. An outcome that does
    /// not belong to the step counts as its failure.
    pub fn advance(self, outcome: GenerateOutcome) -> (r: GenerateStep)
        ensures
            r == generate_next(self, outcome),
    {
        match self {
            GenerateStep::OpenPostgres => match outcome {
                GenerateOutcome::Done => GenerateStep::ReadJobForUpdate,
                _ => GenerateStep::Finish(Err(GenerationError::PostgresConnectionFailure)),
            },
            GenerateStep::ReadJobForUpdate => match outcome {
                GenerateOutcome::Job { status, credits_used } => claim(status, credits_used),
                _ => GenerateStep::Finish(Err(GenerationError::PostgresCommandFailure)),
            },
            GenerateStep::MarkWorking => match outcome {
                GenerateOutcome::Done => GenerateStep::RunGenerator,
                _ => GenerateStep::Finish(Err(GenerationError::PostgresCommandFailure)),
            },
            GenerateStep::RefundAndRemove { .. } => match outcome {
                GenerateOutcome::Done => GenerateStep::InvalidateBalance,
                _ => GenerateStep::Finish(Err(GenerationError::PostgresCommandFailure)),
            },
            GenerateStep::RemoveJob => match outcome {
                GenerateOutcome::Done => GenerateStep::Finish(
                    Err(GenerationError::DeleteImmediately),
                ),
                _ => GenerateStep::Finish(Err(GenerationError::PostgresCommandFailure)),
            },
            GenerateStep::InvalidateBalance => GenerateStep::Finish(
                Err(GenerationError::DeleteImmediately),
            ),
            GenerateStep::RunGenerator => match outcome {
                GenerateOutcome::Generated(Ok(())) => GenerateStep::Pack,
                GenerateOutcome::Generated(Err(failure)) => GenerateStep::Finish(
                    Err(GenerationError::InternalGenerationFailure(failure)),
                ),
                _ => GenerateStep::Finish(Err(GenerationError::SerializeError)),
            },
            GenerateStep::Pack => match outcome {
                GenerateOutcome::Done => GenerateStep::Upload,
                GenerateOutcome::CompressFailed => GenerateStep::Finish(
                    Err(GenerationError::CompressionError),
                ),
                _ => GenerateStep::Finish(Err(GenerationError::SerializeError)),
            },
            GenerateStep::Upload => match outcome {
                GenerateOutcome::Done => GenerateStep::OpenPostgresForResult,
                _ => GenerateStep::Finish(Err(GenerationError::S3PutError)),
            },
            GenerateStep::OpenPostgresForResult => match outcome {
                GenerateOutcome::Done => GenerateStep::MarkSuccess,
                _ => GenerateStep::Finish(Err(GenerationError::PostgresConnectionFailure)),
            },
            GenerateStep::MarkSuccess => match outcome {
                GenerateOutcome::Done => GenerateStep::OpenRedis,
                _ => GenerateStep::Finish(Err(GenerationError::PostgresCommandFailure)),
            },
            GenerateStep::OpenRedis => match outcome {
                GenerateOutcome::Done => GenerateStep::CacheSuccess {
                    status: GenerationStatus::Success,
                    ttl: SUCCESS_TTL,
                },
                _ => GenerateStep::Finish(Err(GenerationError::RedisConnectionFailure)),
            },
            GenerateStep::CacheSuccess { .. } => match outcome {
                GenerateOutcome::Done => GenerateStep::Finish(Ok(())),
                _ => GenerateStep::Finish(Err(GenerationError::RedisCommandFailure)),
            },
            GenerateStep::Finish(result) => GenerateStep::Finish(result),
        }
    }
}

// ---------------------------------------------------------------------------
// Writing a failure to the job
// ---------------------------------------------------------------------------
/// What has to be done next to write a failure to a job.
#[derive(Clone, Copy, Debug, PartialEq, Eq)]
pub enum FlagStep {
    /// Take a store connection.
    OpenPostgres,
    /// Open a serializable read-write transaction and read the job's state
    /// and the credits it used, locked for update.
    ReadJobForUpdate,
    /// Insert a grant of `credits`, which is positive, for the owner, with
    /// the standard lifetime; then set the job's state to `Failed`; and
    /// commit.
    RefundAndMarkFailed { credits: i16 },
    /// Set the job's state to `Failed` and commit: the job has used no
    /// credits, so none go back.
    MarkFailed,
    /// Delete the owner's balance from the cache; a failure is ignored.
    InvalidateBalance,
    /// Write the label of `status` to the job's entry in the status cache,
    /// to live for `ttl` seconds; a failure is ignored.
    CacheFailed { status: GenerationStatus, ttl: i64 },
    /// Over. `true` asks for the message to stay in the queue.
    Finish(bool),
}

/// How the last step of writing a failure went.
#[derive(Clone, Copy, Debug, PartialEq, Eq, Structural)]
pub enum FlagOutcome {
    /// The step could not be done.
    Failed,
    /// The step was done.
    Done,
    /// The job's row, as read under the lock.
    Job { status: GenerationStatus, credits_used: i16 },
    /// The store holds no such job.
    Missing,
}

/// The step that follows the reading of the row of a job that is to fail.
pub open spec fn after_fail_read(status: GenerationStatus, credits_used: i16) -> FlagStep {
    match verdict(status, JobRequest::Fail) {
        Verdict::RefundAndMove(_) => if credits_used > 0 {
            FlagStep::RefundAndMarkFailed { credits: credits_used }
        } else {
            FlagStep::MarkFailed
        },
        _ => FlagStep::Finish(false),
    }
}

/// The step that writes the failure to the status cache.
pub open spec fn cache_failed_step() -> FlagStep {
    FlagStep::CacheFailed { status: GenerationStatus::Failed, ttl: FAILED_TTL }
}

/// The step that follows `step` when it went as `outcome` says.
pub open spec fn flag_next(step: FlagStep, outcome: FlagOutcome) -> FlagStep {
    match step {
        FlagStep::OpenPostgres => match outcome {
            FlagOutcome::Done => FlagStep::ReadJobForUpdate,
            _ => FlagStep::Finish(true),
        },
        FlagStep::ReadJobForUpdate => match outcome {
            FlagOutcome::Job { status, credits_used } => after_fail_read(status, credits_used),
            FlagOutcome::Missing => FlagStep::Finish(false),
            _ => FlagStep::Finish(true),
        },
        FlagStep::RefundAndMarkFailed { .. } => match outcome {
            FlagOutcome::Done => FlagStep::InvalidateBalance,
            _ => FlagStep::Finish(true),
        },
        FlagStep::MarkFailed => match outcome {
            FlagOutcome::Done => cache_failed_step(),
            _ => FlagStep::Finish(true),
        },
        FlagStep::InvalidateBalance => cache_failed_step(),
        FlagStep::CacheFailed { .. } => FlagStep::Finish(false),
        FlagStep::Finish(retry) => FlagStep::Finish(retry),
    }
}

/// The first step of writing a failure: with a job id that is no UUID there
/// is nothing to write and nothing to try again.
pub open spec fn flag_first_step(job_id: Seq<char>) -> FlagStep {
    if uuid_value(job_id) is Some {
        FlagStep::OpenPostgres
    } else {
        FlagStep::Finish(false)
    }
}

/// Starts writing a failure to a job.
pub fn flag_as_failure(jobid: &str) -> (r: FlagStep)
    ensures
        r == flag_first_step(jobid@),
{
    match parse_job_id(jobid) {
        Some(_) => FlagStep::OpenPostgres,
        None => FlagStep::Finish(false),
    }
}

impl FlagStep {
    /// The step after this one went as `outcome` says.
    pub fn advance(self, outcome: FlagOutcome) -> (r: FlagStep)
        ensures
            r == flag_next(self, outcome),
    {
        match self {
            FlagStep::OpenPostgres => match outcome {
                FlagOutcome::Done => FlagStep::ReadJobForUpdate,
                _ => FlagStep::Finish(true),
            },
            FlagStep::ReadJobForUpdate => match outcome {
                FlagOutcome::Job { status, credits_used } => match decide(
                    status,
                    JobRequest::Fail,
                ) {
                    Verdict::RefundAndMove(_) => if credits_used > 0 {
                        FlagStep::RefundAndMarkFailed { credits: credits_used }
                    } else {
                        FlagStep::MarkFailed
                    },
                    _ => FlagStep::Finish(false),
                },
                FlagOutcome::Missing => FlagStep::Finish(false),
                _ => FlagStep::Finish(true),
            },
            FlagStep::RefundAndMarkFailed { .. } => match outcome {
                FlagOutcome::Done => FlagStep::InvalidateBalance,
                _ => FlagStep::Finish(true),
            },
            FlagStep::MarkFailed => match outcome {
                FlagOutcome::Done => FlagStep::CacheFailed {
                    status: GenerationStatus::Failed,
                    ttl: FAILED_TTL,
                },
                _ => FlagStep::Finish(true),
            },
            FlagStep::InvalidateBalance => FlagStep::CacheFailed {
                status: GenerationStatus::Failed,
                ttl: FAILED_TTL,
            },
            FlagStep::CacheFailed { .. } => FlagStep::Finish(false),
            FlagStep::Finish(retry) => FlagStep::Finish(retry),
        }
    }
}

// ---------------------------------------------------------------------------
// One queue message
// ---------------------------------------------------------------------------
/// What becomes of a message once the work on its job is over.
#[derive(Clone, Copy, Debug, PartialEq, Eq, Structural)]
pub enum Disposition {
    /// Delete the message: the job is done, or needs no work.
    Acknowledge,
    /// Leave the message for the queue to deliver again.
    Leave,
    /// Write the failure to the job; the message goes unless that asks for
    /// another try.
    Flag,
}

/// Whether an error says that a store could not be reached or used: the
/// relational store, the cache, or the object store. Such a failure will
/// pass.
pub open spec fn store_failure(e: GenerationError) -> bool {
    matches!(
        e,
        GenerationError::RedisConnectionFailure | GenerationError::PostgresConnectionFailure
            | GenerationError::RedisCommandFailure | GenerationError::PostgresCommandFailure
            | GenerationError::S3PutError
    )
}

/// What becomes of a message, by the result of the work: a store that could
/// not be reached will be there again, so the message stays and the job is
/// left as it is; any other failure would come again, so it is written to
/// the job.
pub open spec fn disposition(result: Result<(), GenerationError>) -> Disposition {
    match result {
        Ok(()) => Disposition::Acknowledge,
        Err(GenerationError::DeleteImmediately) => Disposition::Acknowledge,
        Err(e) => if store_failure(e) {
            Disposition::Leave
        } else {
            Disposition::Flag
        },
    }
}

/// Sorts the result of the work on a job into what becomes of its message.
pub fn classify(result: Result<(), GenerationError>) -> (r: Disposition)
    ensures
        r == disposition(result),
{
    match result {
        Ok(()) => Disposition::Acknowledge,
        Err(GenerationError::DeleteImmediately) => Disposition::Acknowledge,
        Err(GenerationError::RedisConnectionFailure) => Disposition::Leave,
        Err(GenerationError::PostgresConnectionFailure) => Disposition::Leave,
        Err(GenerationError::RedisCommandFailure) => Disposition::Leave,
        Err(GenerationError::PostgresCommandFailure) => Disposition::Leave,
        Err(GenerationError::S3PutError) => Disposition::Leave,
        Err(_) => Disposition::Flag,
    }
}

/// What the worker does next with a message.
#[derive(Clone, Copy, Debug, PartialEq, Eq, Structural)]
pub enum HandlerStep {
    /// Run the job of the message.
    Generate,
    /// Write the failure to the job.
    FlagAsFailure,
    /// Delete the message from the queue, if it has a receipt.
    DeleteMessage,
    /// The message is dealt with.
    Finish,
}

/// How the worker's last step on a message went.
#[derive(Clone, Copy, Debug, PartialEq, Eq)]
pub enum HandlerOutcome {
    /// The result of the work on the job.
    Generated(Result<(), GenerationError>),
    /// Whether writing the failure asks for another try.
    Flagged(bool),
    /// The message was deleted, or could not be.
    Deleted,
}

/// The first step for a message: one without a body, with a body that
/// cannot be read, or without a receipt is poison and goes at once.
pub open spec fn handler_first_step(has_body: bool, body_parsed: bool, has_receipt: bool)
    -> HandlerStep {
    if has_body && body_parsed && has_receipt {
        HandlerStep::Generate
    } else {
        HandlerStep::DeleteMessage
    }
}

/// The step that follows `step` when it went as `outcome` says.
pub open spec fn handler_next(step: HandlerStep, outcome: HandlerOutcome) -> HandlerStep {
    match step {
        HandlerStep::Generate => match outcome {
            HandlerOutcome::Generated(result) => match disposition(result) {
                Disposition::Acknowledge => HandlerStep::DeleteMessage,
                Disposition::Leave => HandlerStep::Finish,
                Disposition::Flag => HandlerStep::FlagAsFailure,
            },
            _ => HandlerStep::Finish,
        },
        HandlerStep::FlagAsFailure => match outcome {
            HandlerOutcome::Flagged(false) => HandlerStep::DeleteMessage,
            _ => HandlerStep::Finish,
        },
        HandlerStep::DeleteMessage => HandlerStep::Finish,
        HandlerStep::Finish => HandlerStep::Finish,
    }
}

/// Starts on a queue message.
pub fn handler(has_body: bool, body_parsed: bool, has_receipt: bool) -> (r: HandlerStep)
    ensures
        r == handler_first_step(has_body, body_parsed, has_receipt),
{
    if has_body && body_parsed && has_receipt {
        HandlerStep::Generate
    } else {
        HandlerStep::DeleteMessage
    }
}

impl HandlerStep {
    /// The step after this one went as `outcome` says.
    pub fn advance(self, outcome: HandlerOutcome) -> (r: HandlerStep)
        ensures
            r == handler_next(self, outcome),
    {
        match self {
            HandlerStep::Generate => match outcome {
                HandlerOutcome::Generated(result) => match classify(result) {
                    Disposition::Acknowledge => HandlerStep::DeleteMessage,
                    Disposition::Leave => HandlerStep::Finish,
                    Disposition::Flag => HandlerStep::FlagAsFailure,
                },
                _ => HandlerStep::Finish,
            },
            HandlerStep::FlagAsFailure => match outcome {
                HandlerOutcome::Flagged(false) => HandlerStep::DeleteMessage,
                _ => HandlerStep::Finish,
            },
            HandlerStep::DeleteMessage => HandlerStep::Finish,
            HandlerStep::Finish => HandlerStep::Finish,
        }
    }
}

// ---------------------------------------------------------------------------
// What holds of every run
// ---------------------------------------------------------------------------
/// The worker reports success only from the write to the status cache, the
/// cache is written only after the store has the success, the store only
/// after the artifact is stored, and the artifact only after it was
/// generated and packed: nobody is told of a success whose artifact is not
/// there yet. A claim that meets `Working` is the one other way to the end
/// without an error, and it does nothing.
pub proof fn lemma_success_comes_last(step: GenerateStep, outcome: GenerateOutcome)
    ensures
        generate_next(step, outcome) matches GenerateStep::CacheSuccess { status, ttl } ==> step
            == GenerateStep::OpenRedis && status == GenerationStatus::Success && ttl
            == SUCCESS_TTL,
        generate_next(step, outcome) == GenerateStep::OpenRedis ==> step
            == GenerateStep::MarkSuccess && outcome == GenerateOutcome::Done,
        generate_next(step, outcome) == GenerateStep::MarkSuccess ==> step
            == GenerateStep::OpenPostgresForResult,
        generate_next(step, outcome) == GenerateStep::OpenPostgresForResult ==> step
            == GenerateStep::Upload && outcome == GenerateOutcome::Done,
        generate_next(step, outcome) == GenerateStep::Upload ==> step == GenerateStep::Pack
            && outcome == GenerateOutcome::Done,
        generate_next(step, outcome) == GenerateStep::Pack ==> step == GenerateStep::RunGenerator
            && outcome matches GenerateOutcome::Generated(Ok(_)),
        generate_next(step, outcome) == GenerateStep::RunGenerator ==> step
            == GenerateStep::MarkWorking && outcome == GenerateOutcome::Done,
        generate_next(step, outcome) == GenerateStep::MarkWorking ==> step
            == GenerateStep::ReadJobForUpdate && outcome matches GenerateOutcome::Job {
            status: GenerationStatus::Waiting,
            ..
        },
        generate_next(step, outcome) matches GenerateStep::Finish(Ok(_)) && !(
        step matches GenerateStep::Finish(_)) ==> (step matches GenerateStep::CacheSuccess { .. }
            && outcome == GenerateOutcome::Done) || (step == GenerateStep::ReadJobForUpdate
            && outcome matches GenerateOutcome::Job { status: GenerationStatus::Working, .. }),
{
}

/// Credits go back only where the job's state allows it: from a claim that
/// meets `Deleting`, and from a failure that meets `Working`; both inside the
/// transaction that read the state. What goes back is what the job used, and
/// never a grant of nothing or of less.
pub proof fn lemma_refund_is_guarded(
    claim_step: GenerateStep,
    claim_outcome: GenerateOutcome,
    flag_step: FlagStep,
    flag_outcome: FlagOutcome,
)
    ensures
        generate_next(claim_step, claim_outcome) matches GenerateStep::RefundAndRemove { credits }
            ==> credits > 0 && claim_step == GenerateStep::ReadJobForUpdate && claim_outcome
            == (GenerateOutcome::Job { status: GenerationStatus::Deleting, credits_used: credits }),
        flag_next(flag_step, flag_outcome) matches FlagStep::RefundAndMarkFailed { credits }
            ==> credits > 0 && flag_step == FlagStep::ReadJobForUpdate && flag_outcome
            == (FlagOutcome::Job { status: GenerationStatus::Working, credits_used: credits }),
        flag_next(flag_step, flag_outcome) matches FlagStep::CacheFailed { status, ttl } ==> status
            == GenerationStatus::Failed && ttl == FAILED_TTL && (flag_step
            == FlagStep::InvalidateBalance || (flag_step == FlagStep::MarkFailed && flag_outcome
            == FlagOutcome::Done)),
        flag_next(flag_step, flag_outcome) == FlagStep::MarkFailed ==> flag_step
            == FlagStep::ReadJobForUpdate && (flag_outcome matches FlagOutcome::Job {
            status: GenerationStatus::Working,
            credits_used,
        } && credits_used <= 0),
{
}

/// A store that could not be reached leaves the message in the queue: the
/// message is not deleted, the failure is not written to the job, and no
/// credits go back. So a job that has succeeded and whose cache entry could
/// not be written stays a success.
pub proof fn lemma_store_failure_leaves_the_message(e: GenerationError)
    requires
        store_failure(e),
    ensures
        disposition(Err(e)) == Disposition::Leave,
        handler_next(HandlerStep::Generate, HandlerOutcome::Generated(Err(e)))
            == HandlerStep::Finish,
{
}

/// A failure is written to a job only where the work ended in an error that
/// is none of a store, and only a job that is `Working` is made `Failed`.
pub proof fn lemma_flag_is_for_what_would_come_again(
    step: HandlerStep,
    outcome: HandlerOutcome,
    status: GenerationStatus,
    credits_used: i16,
)
    ensures
        handler_next(step, outcome) == HandlerStep::FlagAsFailure ==> step == HandlerStep::Generate
            && (outcome matches HandlerOutcome::Generated(Err(e)) && !store_failure(e) && e
            != GenerationError::DeleteImmediately),
        status != GenerationStatus::Working ==> after_fail_read(status, credits_used)
            == FlagStep::Finish(false),
{
}

/// A failure of the generator is final: the message does not stay, the
/// failure is written to the job.
pub proof fn lemma_generator_failure_is_terminal(failure: GenerateFailure)
    ensures
        generate_next(GenerateStep::RunGenerator, GenerateOutcome::Generated(Err(failure)))
            == GenerateStep::Finish(Err(GenerationError::InternalGenerationFailure(failure))),
        handler_next(
            HandlerStep::Generate,
            HandlerOutcome::Generated(Err(GenerationError::InternalGenerationFailure(failure))),
        ) == HandlerStep::FlagAsFailure,
{
}

} // verus!
