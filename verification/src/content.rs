//! What the owner of a job may ask of it afterwards: to see it, to delete
//! it, to have a failed one run again, to rename it, and to see several at
//! once.

use std::collections::HashSet;
use vstd::prelude::*;
use vstd::string::*;
use crate::artifact::{parse_job_id, uuid_value};
use crate::credits::{Balance, IncrementTotalCreditsError};
use crate::jobs::{decide, verdict, JobRequest, Verdict};
use crate::response::Rejection;
use crate::status::GenerationStatus;
use crate::worker::WORKING_TTL;

verus! {

broadcast use vstd::std_specs::hash::group_hash_axioms;

/// A request that names one job.
#[derive(Debug)]
pub struct GenerationQuery {
    pub id: String,
}

/// A request to rename one job.
#[derive(Debug)]
pub struct GenerationNameChangeQuery {
    pub id: String,
    pub displayname: String,
}

/// A request that names several jobs.
#[derive(Debug)]
pub struct GenerationBatchQuery {
    pub ids: Vec<String>,
}

/// A job's row as its owner sees it. Moments are seconds since the epoch.
#[derive(Debug)]
pub struct GenerationSelectable {
    pub status: GenerationStatus,
    pub createdat: i64,
    pub finishedon: Option<i64>,
    pub displayname: String,
    pub options: String,
    pub category: String,
    pub creditsused: i16,
}

/// A job's row with its id, as a batch shows it.
#[derive(Debug)]
pub struct GenerationSelectableWithJobId {
    pub jobid: u128,
    pub status: GenerationStatus,
    pub createdat: i64,
    pub finishedon: Option<i64>,
    pub displayname: String,
    pub options: String,
    pub category: String,
    pub creditsused: i16,
}

/// What the owner is sent of a job: its state, and its content where it
/// has succeeded.
#[derive(Debug)]
pub struct GenerationContent {
    pub status: GenerationStatus,
    pub content: Option<GenerationBlob>,
}

/// The content of a job that has succeeded: its artifact as base64 text,
/// and what its row says.
#[derive(Debug)]
pub struct GenerationBlob {
    pub blob: String,
    pub createdat: i64,
    pub finishedon: i64,
    pub displayname: String,
    pub options: String,
    pub category: String,
    pub creditsused: i16,
}

/// What the owner is sent of a job in a batch: its row, without content.
#[derive(Debug)]
pub struct GenerationNoContent {
    pub status: GenerationStatus,
    pub createdat: i64,
    pub finishedon: Option<i64>,
    pub displayname: String,
    pub options: String,
    pub category: String,
    pub creditsused: i16,
    pub jobid: u128,
}

impl GenerationSelectable {
    /// The moment of completion is set exactly on a job that has succeeded.
    pub open spec fn wf(&self) -> bool {
        self.finishedon is Some <==> self.status == GenerationStatus::Success
    }

    /// Whether the row says when the job was finished exactly if it says
    /// that the job has succeeded.
    pub fn is_consistent(&self) -> (r: bool)
        ensures
            r == self.wf(),
    {
        let succeeded = match self.status {
            GenerationStatus::Success => true,
            _ => false,
        };
        self.finishedon.is_some() == succeeded
    }
}

impl GenerationContent {
    /// What is sent of a job that has nothing to show but its state.
    pub fn of_state(status: GenerationStatus) -> (r: Self)
        ensures
            r.status == status,
            r.content is None,
    {
        Self { status, content: None }
    }

    /// What is sent of a job that has succeeded: the text of its artifact
    /// with what its row says. A row that does not say when the job was
    /// finished has nothing to send.
    pub fn of_success(row: GenerationSelectable, blob: String) -> (r: Option<Self>)
        ensures
            match r {
                Some(sent) => sent.status == GenerationStatus::Success && (
                sent.content matches Some(content) && row.finishedon == Some(content.finishedon)
                    && content.blob == blob && content.createdat == row.createdat
                    && content.displayname == row.displayname && content.options == row.options
                    && content.category == row.category && content.creditsused
                    == row.creditsused),
                None => row.finishedon is None,
            },
    {
        match row.finishedon {
            None => None,
            Some(finishedon) => Some(
                Self {
                    status: GenerationStatus::Success,
                    content: Some(
                        GenerationBlob {
                            blob,
                            createdat: row.createdat,
                            finishedon,
                            displayname: row.displayname,
                            options: row.options,
                            category: row.category,
                            creditsused: row.creditsused,
                        },
                    ),
                },
            ),
        }
    }
}

impl GenerationNoContent {
    /// What is sent of a row in a batch.
    pub fn of_row(row: GenerationSelectableWithJobId) -> (r: Self)
        ensures
            r.status == row.status,
            r.createdat == row.createdat,
            r.finishedon == row.finishedon,
            r.displayname == row.displayname,
            r.options == row.options,
            r.category == row.category,
            r.creditsused == row.creditsused,
            r.jobid == row.jobid,
    {
        Self {
            status: row.status,
            createdat: row.createdat,
            finishedon: row.finishedon,
            displayname: row.displayname,
            options: row.options,
            category: row.category,
            creditsused: row.creditsused,
            jobid: row.jobid,
        }
    }
}

/// The longest name that a job may be given, in characters.
pub const MAX_DISPLAY_NAME: usize = 20;

/// The most jobs that one request may name.
pub const MAX_BATCH: usize = 10;

/// Every character is an ASCII character.
pub open spec fn ascii(text: Seq<char>) -> bool {
    vstd::utf8::is_ascii_chars(text)
}

/// The job that an id names, or why the id is turned down: it has to be
/// ASCII, and it has to be a UUID.
pub open spec fn id_verdict(id: Seq<char>) -> Result<u128, Rejection> {
    if !ascii(id) {
        Err(Rejection::NotAscii)
    } else {
        match uuid_value(id) {
            Some(value) => Ok(value),
            None => Err(Rejection::InvalidId),
        }
    }
}

/// Checks the id of a request.
pub fn check_id(id: &str) -> (r: Result<u128, Rejection>)
    ensures
        r == id_verdict(id@),
{
    if !id.is_ascii() {
        Err(Rejection::NotAscii)
    } else {
        match parse_job_id(id) {
            Some(value) => Ok(value),
            None => Err(Rejection::InvalidId),
        }
    }
}

// ---------------------------------------------------------------------------
// Seeing a job
// ---------------------------------------------------------------------------
/// What the owner is shown of a job.
#[derive(Clone, Copy, Debug, PartialEq, Eq, Structural)]
pub enum Shown {
    /// The job's state, and nothing else: it has no artifact to show.
    State(GenerationStatus),
    /// The job has succeeded: its row and its artifact, as base64 text.
    Content,
}

/// What the showing of a job asks for next.
#[derive(Clone, Copy, Debug, PartialEq, Eq)]
pub enum ShowStep {
    /// Take a cache connection.
    OpenRedis,
    /// Read the job's entry in the status cache.
    ReadStatusCache,
    /// Take a store connection.
    OpenPostgres,
    /// Read the job's row.
    ReadJob,
    /// Fetch the job's artifact from the object store.
    FetchObject,
    /// Turn the artifact's bytes into base64 text.
    EncodeBlob,
    /// The showing is over.
    Finish(Result<Shown, Rejection>),
}

/// How the last step of showing a job went.
#[derive(Clone, Copy, Debug, PartialEq, Eq, Structural)]
pub enum ShowOutcome {
    /// The step could not be done.
    Failed,
    /// The step was done.
    Done,
    /// The state that the cache entry names; `None` where there is no entry
    /// or it names no state.
    Cached(Option<GenerationStatus>),
    /// The job's row: its state, and whether its completion moment is set.
    Job { status: GenerationStatus, finished: bool },
    /// The object store has no such key.
    NoSuchKey,
    /// The object is in a state in which it cannot be read.
    InvalidObjectState,
    /// The object's bytes could not be read to the end.
    UnreadableBody,
}

/// The step that follows `step` when it went as `outcome` says. The cache
/// answers for every state but success; a success is always read from the
/// store, and shown only with its artifact.
pub open spec fn show_next(step: ShowStep, outcome: ShowOutcome) -> ShowStep {
    match step {
        ShowStep::OpenRedis => match outcome {
            ShowOutcome::Done => ShowStep::ReadStatusCache,
            _ => ShowStep::Finish(Err(Rejection::InternalServiceError)),
        },
        ShowStep::ReadStatusCache => match outcome {
            ShowOutcome::Cached(Some(status)) => if status == GenerationStatus::Success {
                ShowStep::OpenPostgres
            } else {
                ShowStep::Finish(Ok(Shown::State(status)))
            },
            ShowOutcome::Cached(None) => ShowStep::OpenPostgres,
            _ => ShowStep::Finish(Err(Rejection::InternalServiceError)),
        },
        ShowStep::OpenPostgres => match outcome {
            ShowOutcome::Done => ShowStep::ReadJob,
            _ => ShowStep::Finish(Err(Rejection::InternalServiceError)),
        },
        ShowStep::ReadJob => match outcome {
            ShowOutcome::Job { status, finished } => if status != GenerationStatus::Success {
                ShowStep::Finish(Ok(Shown::State(status)))
            } else if !finished {
                ShowStep::Finish(Err(Rejection::UnexpectedError))
            } else {
                ShowStep::FetchObject
            },
            _ => ShowStep::Finish(Err(Rejection::InternalServiceError)),
        },
        ShowStep::FetchObject => match outcome {
            ShowOutcome::Done => ShowStep::EncodeBlob,
            ShowOutcome::NoSuchKey => ShowStep::Finish(Err(Rejection::UnexpectedError)),
            ShowOutcome::InvalidObjectState => ShowStep::Finish(
                Err(Rejection::ObjectInvalidState),
            ),
            ShowOutcome::UnreadableBody => ShowStep::Finish(Err(Rejection::FailedToReadObject)),
            _ => ShowStep::Finish(Err(Rejection::BadError)),
        },
        ShowStep::EncodeBlob => match outcome {
            ShowOutcome::Done => ShowStep::Finish(Ok(Shown::Content)),
            _ => ShowStep::Finish(Err(Rejection::FailedToReadObject)),
        },
        ShowStep::Finish(result) => ShowStep::Finish(result),
    }
}

/// The first step of showing the job that the request names.
pub open spec fn show_first_step(id: Seq<char>) -> ShowStep {
    match id_verdict(id) {
        Ok(_) => ShowStep::OpenRedis,
        Err(rejection) => ShowStep::Finish(Err(rejection)),
    }
}

/// Starts showing a job to its owner.
pub fn get_request(query: &GenerationQuery) -> (r: ShowStep)
    ensures
        r == show_first_step(query.id@),
{
    match check_id(query.id.as_str()) {
        Ok(_) => ShowStep::OpenRedis,
        Err(rejection) => ShowStep::Finish(Err(rejection)),
    }
}

impl ShowStep {
    /// The step after this one went as `outcome` says. An outcome that does
    /// not belong to the step counts as its failure.
    pub fn advance(self, outcome: ShowOutcome) -> (r: ShowStep)
        ensures
            r == show_next(self, outcome),
    {
        match self {
            ShowStep::OpenRedis => match outcome {
                ShowOutcome::Done => ShowStep::ReadStatusCache,
                _ => ShowStep::Finish(Err(Rejection::InternalServiceError)),
            },
            ShowStep::ReadStatusCache => match outcome {
                ShowOutcome::Cached(Some(status)) => match status {
                    GenerationStatus::Success => ShowStep::OpenPostgres,
                    _ => ShowStep::Finish(Ok(Shown::State(status))),
                },
                ShowOutcome::Cached(None) => ShowStep::OpenPostgres,
                _ => ShowStep::Finish(Err(Rejection::InternalServiceError)),
            },
            ShowStep::OpenPostgres => match outcome {
                ShowOutcome::Done => ShowStep::ReadJob,
                _ => ShowStep::Finish(Err(Rejection::InternalServiceError)),
            },
            ShowStep::ReadJob => match outcome {
                ShowOutcome::Job { status, finished } => match status {
                    GenerationStatus::Success => if finished {
                        ShowStep::FetchObject
                    } else {
                        ShowStep::Finish(Err(Rejection::UnexpectedError))
                    },
                    _ => ShowStep::Finish(Ok(Shown::State(status))),
                },
                _ => ShowStep::Finish(Err(Rejection::InternalServiceError)),
            },
            ShowStep::FetchObject => match outcome {
                ShowOutcome::Done => ShowStep::EncodeBlob,
                ShowOutcome::NoSuchKey => ShowStep::Finish(Err(Rejection::UnexpectedError)),
                ShowOutcome::InvalidObjectState => ShowStep::Finish(
                    Err(Rejection::ObjectInvalidState),
                ),
                ShowOutcome::UnreadableBody => ShowStep::Finish(
                    Err(Rejection::FailedToReadObject),
                ),
                _ => ShowStep::Finish(Err(Rejection::BadError)),
            },
            ShowStep::EncodeBlob => match outcome {
                ShowOutcome::Done => ShowStep::Finish(Ok(Shown::Content)),
                _ => ShowStep::Finish(Err(Rejection::FailedToReadObject)),
            },
            ShowStep::Finish(result) => ShowStep::Finish(result),
        }
    }
}

/// A success is shown only after the store said so and the artifact was
/// fetched: the cache alone never shows one.
pub proof fn lemma_success_is_read_from_store(step: ShowStep, outcome: ShowOutcome)
    ensures
        show_next(step, outcome) matches ShowStep::Finish(Ok(Shown::Content)) ==> (
        step matches ShowStep::Finish(_)) || (step == ShowStep::EncodeBlob && outcome
            == ShowOutcome::Done),
        show_next(step, outcome) == ShowStep::EncodeBlob ==> step == ShowStep::FetchObject
            && outcome == ShowOutcome::Done,
        show_next(step, outcome) == ShowStep::FetchObject ==> step == ShowStep::ReadJob && outcome
            == (ShowOutcome::Job { status: GenerationStatus::Success, finished: true }),
        show_next(step, outcome) matches ShowStep::Finish(Ok(Shown::State(status))) ==> status
            != GenerationStatus::Success || step matches ShowStep::Finish(_),
{
}

// ---------------------------------------------------------------------------
// Deleting a job
// ---------------------------------------------------------------------------
/// What the owner is told of a deletion.
#[derive(Clone, Copy, Debug, PartialEq, Eq, Structural)]
pub enum Deleted {
    /// The job had not started: it is marked, and the worker will drop it.
    Deleting,
    /// The job and its artifact are gone.
    Success,
}

impl Deleted {
    /// The word that the owner is sent.
    pub fn label(&self) -> (r: &'static str)
        ensures
            r@ == (match *self {
                Deleted::Deleting => "Deleting"@,
                Deleted::Success => "Success"@,
            }),
    {
        match self {
            Deleted::Deleting => "Deleting",
            Deleted::Success => "Success",
        }
    }
}

/// What a deletion asks for next.
#[derive(Clone, Copy, Debug, PartialEq, Eq)]
pub enum DeleteStep {
    /// Take a store connection.
    OpenPostgres,
    /// Open a serializable transaction and read the job's state, locked for
    /// update. The transaction stays open for the writes that follow; a step
    /// that is none of them rolls it back.
    ReadJobForUpdate,
    /// Set the job's state to `Deleting` and commit.
    MarkDeleting,
    /// Delete the job's artifact from the object store.
    DeleteObject,
    /// Delete the job's row and commit.
    DeleteRow,
    /// Delete the job's entry from the status cache, if that can be done.
    DropCacheEntry { answer: Deleted },
    /// The deletion is over.
    Finish(Result<Deleted, Rejection>),
}

/// How the last step of a deletion went.
#[derive(Clone, Copy, Debug, PartialEq, Eq, Structural)]
pub enum DeleteOutcome {
    /// The step could not be done.
    Failed,
    /// The step was done.
    Done,
    /// The job's state, as read under the lock.
    Job { status: GenerationStatus },
    /// The store holds no such job of this user.
    Missing,
    /// The write met no row.
    NoRows,
}

/// The step that follows the reading of the state of a job that is to go.
pub open spec fn after_delete_read(status: GenerationStatus) -> DeleteStep {
    match verdict(status, JobRequest::Delete) {
        Verdict::Move(_) => DeleteStep::MarkDeleting,
        Verdict::RemoveWithArtifact => DeleteStep::DeleteObject,
        _ => DeleteStep::Finish(Err(Rejection::CannotCancel)),
    }
}

/// The step that follows `step` when it went as `outcome` says.
pub open spec fn delete_next(step: DeleteStep, outcome: DeleteOutcome) -> DeleteStep {
    match step {
        DeleteStep::OpenPostgres => match outcome {
            DeleteOutcome::Done => DeleteStep::ReadJobForUpdate,
            _ => DeleteStep::Finish(Err(Rejection::InternalServiceError)),
        },
        DeleteStep::ReadJobForUpdate => match outcome {
            DeleteOutcome::Job { status } => after_delete_read(status),
            DeleteOutcome::Missing => DeleteStep::Finish(Err(Rejection::ContentNotFound)),
            _ => DeleteStep::Finish(Err(Rejection::InternalServiceError)),
        },
        DeleteStep::MarkDeleting => match outcome {
            DeleteOutcome::Done => DeleteStep::DropCacheEntry { answer: Deleted::Deleting },
            _ => DeleteStep::Finish(Err(Rejection::InternalServiceError)),
        },
        DeleteStep::DeleteObject => match outcome {
            DeleteOutcome::Done => DeleteStep::DeleteRow,
            _ => DeleteStep::Finish(Err(Rejection::InternalServiceError)),
        },
        DeleteStep::DeleteRow => match outcome {
            DeleteOutcome::Done => DeleteStep::DropCacheEntry { answer: Deleted::Success },
            _ => DeleteStep::Finish(Err(Rejection::InternalServiceError)),
        },
        DeleteStep::DropCacheEntry { answer } => DeleteStep::Finish(Ok(answer)),
        DeleteStep::Finish(result) => DeleteStep::Finish(result),
    }
}

/// The first step of deleting the job that the request names.
pub open spec fn delete_first_step(id: Seq<char>) -> DeleteStep {
    match id_verdict(id) {
        Ok(_) => DeleteStep::OpenPostgres,
        Err(rejection) => DeleteStep::Finish(Err(rejection)),
    }
}

/// Starts the deletion of a job by its owner.
pub fn delete_request(query: &GenerationQuery) -> (r: DeleteStep)
    ensures
        r == delete_first_step(query.id@),
{
    match check_id(query.id.as_str()) {
        Ok(_) => DeleteStep::OpenPostgres,
        Err(rejection) => DeleteStep::Finish(Err(rejection)),
    }
}

impl DeleteStep {
    /// The step after this one went as `outcome` says.
    pub fn advance(self, outcome: DeleteOutcome) -> (r: DeleteStep)
        ensures
            r == delete_next(self, outcome),
    {
        match self {
            DeleteStep::OpenPostgres => match outcome {
                DeleteOutcome::Done => DeleteStep::ReadJobForUpdate,
                _ => DeleteStep::Finish(Err(Rejection::InternalServiceError)),
            },
            DeleteStep::ReadJobForUpdate => match outcome {
                DeleteOutcome::Job { status } => match decide(status, JobRequest::Delete) {
                    Verdict::Move(_) => DeleteStep::MarkDeleting,
                    Verdict::RemoveWithArtifact => DeleteStep::DeleteObject,
                    _ => DeleteStep::Finish(Err(Rejection::CannotCancel)),
                },
                DeleteOutcome::Missing => DeleteStep::Finish(Err(Rejection::ContentNotFound)),
                _ => DeleteStep::Finish(Err(Rejection::InternalServiceError)),
            },
            DeleteStep::MarkDeleting => match outcome {
                DeleteOutcome::Done => DeleteStep::DropCacheEntry { answer: Deleted::Deleting },
                _ => DeleteStep::Finish(Err(Rejection::InternalServiceError)),
            },
            DeleteStep::DeleteObject => match outcome {
                DeleteOutcome::Done => DeleteStep::DeleteRow,
                _ => DeleteStep::Finish(Err(Rejection::InternalServiceError)),
            },
            DeleteStep::DeleteRow => match outcome {
                DeleteOutcome::Done => DeleteStep::DropCacheEntry { answer: Deleted::Success },
                _ => DeleteStep::Finish(Err(Rejection::InternalServiceError)),
            },
            DeleteStep::DropCacheEntry { answer } => DeleteStep::Finish(Ok(answer)),
            DeleteStep::Finish(result) => DeleteStep::Finish(result),
        }
    }
}

/// A job that is being worked on cannot be deleted, nor can one that failed
/// or is already marked; the artifact of a success goes before its row, and
/// the row stays where the artifact could not be deleted.
pub proof fn lemma_delete_is_guarded(step: DeleteStep, outcome: DeleteOutcome)
    ensures
        delete_next(step, outcome) == DeleteStep::MarkDeleting ==> step
            == DeleteStep::ReadJobForUpdate && outcome == (DeleteOutcome::Job {
            status: GenerationStatus::Waiting,
        }),
        delete_next(step, outcome) == DeleteStep::DeleteObject ==> step
            == DeleteStep::ReadJobForUpdate && outcome == (DeleteOutcome::Job {
            status: GenerationStatus::Success,
        }),
        delete_next(step, outcome) == DeleteStep::DeleteRow ==> step == DeleteStep::DeleteObject
            && outcome == DeleteOutcome::Done,
        delete_next(
            DeleteStep::ReadJobForUpdate,
            DeleteOutcome::Job { status: GenerationStatus::Working },
        ) == DeleteStep::Finish(Err(Rejection::CannotCancel)),
{
}

// ---------------------------------------------------------------------------
// Running a failed job again
// ---------------------------------------------------------------------------
/// What a retry asks for next.
#[derive(Clone, Copy, Debug, PartialEq, Eq)]
pub enum RetryStep {
    /// Take a store connection.
    OpenPostgres,
    /// Open a transaction and read the job's row, locked for update.
    ReadJobForUpdate,
    /// Spend this many credits of the owner, as a new submission would.
    Decrement { amount: i32 },
    /// Set the job's state to `Waiting`.
    MarkWaiting,
    /// Publish the job's message to the queue, then commit.
    Publish,
    /// Write the label of `status` to the job's entry in the status cache,
    /// to live for `ttl` seconds, if that can be done.
    SeedCache { status: GenerationStatus, ttl: i64 },
    /// Roll the transaction back and grant the owner this many credits with
    /// the standard lifetime; how the grant goes changes nothing.
    Refund { amount: i32, verdict: Rejection },
    /// The retry is over.
    Finish(Result<(), Rejection>),
}

/// How the last step of a retry went.
#[derive(Clone, Copy, Debug, PartialEq, Eq)]
pub enum RetryOutcome {
    /// The step could not be done.
    Failed,
    /// The step was done.
    Done,
    /// The job's row: its state, and what its stored category and options
    /// cost, where both can still be read.
    Job { status: GenerationStatus, cost: Option<i32> },
    /// The write met no row.
    NoRows,
    /// How the spend went.
    Spent(Result<Balance, IncrementTotalCreditsError>),
}

/// The retry after its pending step went as `outcome` says; `amount` is what
/// the retry has spent so far.
pub open spec fn retry_next(step: RetryStep, amount: i32, outcome: RetryOutcome) -> (RetryStep, i32) {
    match step {
        RetryStep::OpenPostgres => match outcome {
            RetryOutcome::Done => (RetryStep::ReadJobForUpdate, amount),
            _ => (RetryStep::Finish(Err(Rejection::InternalServiceError)), amount),
        },
        RetryStep::ReadJobForUpdate => match outcome {
            RetryOutcome::Job { status, cost } => match verdict(status, JobRequest::Retry) {
                Verdict::DebitAndMove(_) => match cost {
                    Some(credits) => (RetryStep::Decrement { amount: credits }, amount),
                    None => (RetryStep::Finish(Err(Rejection::BadRecordData)), amount),
                },
                _ => (RetryStep::Finish(Err(Rejection::NotFailed)), amount),
            },
            _ => (RetryStep::Finish(Err(Rejection::InternalServiceError)), amount),
        },
        RetryStep::Decrement { amount: credits } => match outcome {
            RetryOutcome::Spent(Ok(_)) => (RetryStep::MarkWaiting, credits),
            RetryOutcome::Spent(Err(IncrementTotalCreditsError::NotEnoughCredits)) => (
                RetryStep::Finish(Err(Rejection::InsufficientCredits)),
                amount,
            ),
            _ => (RetryStep::Finish(Err(Rejection::UnknownError)), amount),
        },
        RetryStep::MarkWaiting => match outcome {
            RetryOutcome::Done => (RetryStep::Publish, amount),
            RetryOutcome::NoRows => (
                RetryStep::Refund { amount, verdict: Rejection::UpdatedNoRows },
                amount,
            ),
            _ => (RetryStep::Refund { amount, verdict: Rejection::InternalServiceError }, amount),
        },
        RetryStep::Publish => match outcome {
            RetryOutcome::Done => (
                RetryStep::SeedCache { status: GenerationStatus::Working, ttl: WORKING_TTL },
                amount,
            ),
            _ => (RetryStep::Refund { amount, verdict: Rejection::InternalServiceError }, amount),
        },
        RetryStep::SeedCache { .. } => (RetryStep::Finish(Ok(())), amount),
        RetryStep::Refund { verdict, .. } => (RetryStep::Finish(Err(verdict)), amount),
        RetryStep::Finish(result) => (RetryStep::Finish(result), amount),
    }
}

/// A retry under way.
#[derive(Clone, Copy, Debug, PartialEq, Eq)]
pub struct Retry {
    /// The credits that the retry has spent.
    pub amount: i32,
    /// What has to be done next.
    pub step: RetryStep,
}

/// The first step of running again the job that the request names.
pub open spec fn retry_first_step(id: Seq<char>) -> RetryStep {
    match id_verdict(id) {
        Ok(_) => RetryStep::OpenPostgres,
        Err(rejection) => RetryStep::Finish(Err(rejection)),
    }
}

/// Starts the retry of a failed job by its owner.
pub fn post_retry_request(query: &GenerationQuery) -> (r: Retry)
    ensures
        r.amount == 0,
        r.step == retry_first_step(query.id@),
{
    match check_id(query.id.as_str()) {
        Ok(_) => Retry { amount: 0, step: RetryStep::OpenPostgres },
        Err(rejection) => Retry { amount: 0, step: RetryStep::Finish(Err(rejection)) },
    }
}

impl Retry {
    /// The retry after its pending step went as `outcome` says.
    pub fn advance(self, outcome: RetryOutcome) -> (r: Retry)
        ensures
            (r.step, r.amount) == retry_next(self.step, self.amount, outcome),
    {
        let amount = self.amount;
        match self.step {
            RetryStep::OpenPostgres => match outcome {
                RetryOutcome::Done => Retry { amount, step: RetryStep::ReadJobForUpdate },
                _ => Retry { amount, step: RetryStep::Finish(Err(Rejection::InternalServiceError)) },
            },
            RetryStep::ReadJobForUpdate => match outcome {
                RetryOutcome::Job { status, cost } => match decide(status, JobRequest::Retry) {
                    Verdict::DebitAndMove(_) => match cost {
                        Some(credits) => Retry {
                            amount,
                            step: RetryStep::Decrement { amount: credits },
                        },
                        None => Retry {
                            amount,
                            step: RetryStep::Finish(Err(Rejection::BadRecordData)),
                        },
                    },
                    _ => Retry { amount, step: RetryStep::Finish(Err(Rejection::NotFailed)) },
                },
                _ => Retry { amount, step: RetryStep::Finish(Err(Rejection::InternalServiceError)) },
            },
            RetryStep::Decrement { amount: credits } => match outcome {
                RetryOutcome::Spent(Ok(_)) => Retry { amount: credits, step: RetryStep::MarkWaiting },
                RetryOutcome::Spent(Err(IncrementTotalCreditsError::NotEnoughCredits)) => Retry {
                    amount,
                    step: RetryStep::Finish(Err(Rejection::InsufficientCredits)),
                },
                _ => Retry { amount, step: RetryStep::Finish(Err(Rejection::UnknownError)) },
            },
            RetryStep::MarkWaiting => match outcome {
                RetryOutcome::Done => Retry { amount, step: RetryStep::Publish },
                RetryOutcome::NoRows => Retry {
                    amount,
                    step: RetryStep::Refund { amount, verdict: Rejection::UpdatedNoRows },
                },
                _ => Retry {
                    amount,
                    step: RetryStep::Refund { amount, verdict: Rejection::InternalServiceError },
                },
            },
            RetryStep::Publish => match outcome {
                RetryOutcome::Done => Retry {
                    amount,
                    step: RetryStep::SeedCache {
                        status: GenerationStatus::Working,
                        ttl: WORKING_TTL,
                    },
                },
                _ => Retry {
                    amount,
                    step: RetryStep::Refund { amount, verdict: Rejection::InternalServiceError },
                },
            },
            RetryStep::SeedCache { .. } => Retry { amount, step: RetryStep::Finish(Ok(())) },
            RetryStep::Refund { verdict, .. } => Retry {
                amount,
                step: RetryStep::Finish(Err(verdict)),
            },
            RetryStep::Finish(result) => Retry { amount, step: RetryStep::Finish(result) },
        }
    }
}

/// Only a failed job is run again, and not before its credits were spent
/// anew; what fails after that spend gives the credits back, and only a
/// job that was queued is shown as `Working`, for as long as a job may wait.
pub proof fn lemma_retry_pays_again(step: RetryStep, amount: i32, outcome: RetryOutcome)
    ensures
        retry_next(step, amount, outcome).0 matches RetryStep::Decrement { .. } ==> step
            == RetryStep::ReadJobForUpdate && outcome matches RetryOutcome::Job {
            status: GenerationStatus::Failed,
            cost: Some(_),
        },
        retry_next(step, amount, outcome).0 == RetryStep::MarkWaiting ==> (
        step matches RetryStep::Decrement { amount: credits } && retry_next(
            step,
            amount,
            outcome,
        ).1 == credits) && (outcome matches RetryOutcome::Spent(Ok(_))),
        retry_next(step, amount, outcome).0 matches RetryStep::Refund { amount: back, .. }
            ==> back == amount && (step == RetryStep::MarkWaiting || step == RetryStep::Publish),
        retry_next(step, amount, outcome).0 matches RetryStep::SeedCache { status, ttl } ==> step
            == RetryStep::Publish && outcome == RetryOutcome::Done && status
            == GenerationStatus::Working && ttl == WORKING_TTL,
{
}

// ---------------------------------------------------------------------------
// Renaming a job
// ---------------------------------------------------------------------------
/// The job that a renaming names, or why it is turned down: id and name
/// have to be ASCII, the name no longer than `MAX_DISPLAY_NAME`, the id a
/// UUID.
pub open spec fn rename_verdict(id: Seq<char>, displayname: Seq<char>) -> Result<u128, Rejection> {
    if !ascii(id) || !ascii(displayname) {
        Err(Rejection::NotAscii)
    } else if displayname.len() > MAX_DISPLAY_NAME {
        Err(Rejection::DisplayNameTooLong)
    } else {
        match uuid_value(id) {
            Some(value) => Ok(value),
            None => Err(Rejection::InvalidId),
        }
    }
}

/// Checks a request to rename a job.
pub fn post_request(query: &GenerationNameChangeQuery) -> (r: Result<u128, Rejection>)
    ensures
        r == rename_verdict(query.id@, query.displayname@),
{
    if !query.id.as_str().is_ascii() || !query.displayname.as_str().is_ascii() {
        Err(Rejection::NotAscii)
    } else if query.displayname.as_str().unicode_len() > MAX_DISPLAY_NAME {
        Err(Rejection::DisplayNameTooLong)
    } else {
        match parse_job_id(query.id.as_str()) {
            Some(value) => Ok(value),
            None => Err(Rejection::InvalidId),
        }
    }
}

/// What the owner is told of a renaming that changed `updated` rows.
pub fn rename_result(updated: usize) -> (r: Result<(), Rejection>)
    ensures
        r == (if updated == 0 {
            Err::<(), Rejection>(Rejection::NoRecordsChanged)
        } else {
            Ok::<(), Rejection>(())
        }),
{
    if updated == 0 {
        Err(Rejection::NoRecordsChanged)
    } else {
        Ok(())
    }
}

// ---------------------------------------------------------------------------
// Seeing several jobs
// ---------------------------------------------------------------------------
/// Every id is ASCII.
pub open spec fn all_ascii(ids: Seq<String>) -> bool {
    forall|i: int| 0 <= i < ids.len() ==> ascii(#[trigger] ids[i]@)
}

/// Every id is a UUID.
pub open spec fn all_uuids(ids: Seq<String>) -> bool {
    forall|i: int| 0 <= i < ids.len() ==> uuid_value(#[trigger] ids[i]@) is Some
}

/// Two of the ids name the same job.
pub open spec fn names_twice(ids: Seq<String>) -> bool {
    exists|i: int, j: int| 0 <= i < j < ids.len() && uuid_value(ids[i]@) == uuid_value(ids[j]@)
}

/// The jobs that a batch names, or why it is turned down: more than
/// `MAX_BATCH` ids, an id that is not ASCII, one that is no UUID, and one
/// job named twice are rejected, in this order. An empty batch names no job.
pub open spec fn batch_verdict(ids: Seq<String>) -> Result<Seq<u128>, Rejection> {
    if ids.len() == 0 {
        Ok(Seq::empty())
    } else if ids.len() > MAX_BATCH {
        Err(Rejection::TooManyIds)
    } else if !all_ascii(ids) {
        Err(Rejection::NotAscii)
    } else if !all_uuids(ids) {
        Err(Rejection::InvalidId)
    } else if names_twice(ids) {
        Err(Rejection::DuplicateIds)
    } else {
        Ok(Seq::new(ids.len(), |i: int| uuid_value(ids[i]@)->0))
    }
}

/// Checks a request that names several jobs, and reads their ids.
pub fn get_batch_request(query: &GenerationBatchQuery) -> (r: Result<Vec<u128>, Rejection>)
    ensures
        match r {
            Ok(values) => batch_verdict(query.ids@) == Ok::<Seq<u128>, Rejection>(values@),
            Err(rejection) => batch_verdict(query.ids@) == Err::<Seq<u128>, Rejection>(rejection),
        },
{
    let ids = &query.ids;
    if ids.len() == 0 {
        return Ok(Vec::new());
    }
    if ids.len() > MAX_BATCH {
        return Err(Rejection::TooManyIds);
    }
    let mut k: usize = 0;
    while k < ids.len()
        invariant
            k <= ids.len(),
            0 < ids.len() <= MAX_BATCH,
            ids@ == query.ids@,
            forall|i: int| 0 <= i < k ==> ascii(#[trigger] ids@[i]@),
        decreases ids.len() - k,
    {
        if !ids[k].as_str().is_ascii() {
            assert(!ascii(ids@[k as int]@));
            return Err(Rejection::NotAscii);
        }
        k += 1;
    }
    let mut values: Vec<u128> = Vec::new();
    let mut n: usize = 0;
    while n < ids.len()
        invariant
            n <= ids.len(),
            0 < ids.len() <= MAX_BATCH,
            ids@ == query.ids@,
            all_ascii(ids@),
            values@.len() == n,
            forall|i: int| 0 <= i < n ==> uuid_value(#[trigger] ids@[i]@) == Some(values@[i]),
        decreases ids.len() - n,
    {
        match parse_job_id(ids[n].as_str()) {
            Some(value) => {
                values.push(value);
            },
            None => {
                assert(!(uuid_value(ids@[n as int]@) is Some));
                return Err(Rejection::InvalidId);
            },
        }
        n += 1;
    }
    assert(all_uuids(ids@));
    let mut set: HashSet<u128> = HashSet::new();
    let mut j: usize = 0;
    while j < values.len()
        invariant
            j <= values.len(),
            0 < ids.len() <= MAX_BATCH,
            ids@ == query.ids@,
            all_ascii(ids@),
            all_uuids(ids@),
            values@.len() == ids@.len(),
            forall|i: int| 0 <= i < ids@.len() ==> uuid_value(#[trigger] ids@[i]@) == Some(values@[i]),
            forall|value: u128|
                set@.contains(value) <==> exists|i: int| 0 <= i < j && values@[i] == value,
            forall|a: int, b: int| 0 <= a < b < j ==> values@[a] != values@[b],
        decreases values.len() - j,
    {
        let value: u128 = values[j];
        if !set.insert(value) {
            proof {
                let i = choose|i: int| 0 <= i < j && values@[i] == value;
                assert(0 <= i < j < ids@.len() && uuid_value(ids@[i]@) == uuid_value(
                    ids@[j as int]@,
                ));
            }
            return Err(Rejection::DuplicateIds);
        }
        j += 1;
    }
    assert(!names_twice(ids@)) by {
        if names_twice(ids@) {
            let (a, b) = choose|a: int, b: int|
                0 <= a < b < ids@.len() && uuid_value(ids@[a]@) == uuid_value(ids@[b]@);
            assert(values@[a] != values@[b]);
        }
    }
    assert(values@ =~= Seq::new(ids@.len(), |i: int| uuid_value(ids@[i]@)->0));
    Ok(values)
}

// ---------------------------------------------------------------------------
// Listing jobs
// ---------------------------------------------------------------------------
/// A request for one page of a user's jobs.
#[derive(Clone, Copy, Debug, PartialEq, Eq, Structural)]
pub struct Pagination {
    pub page: usize,
    pub page_size: usize,
    pub get_total_pages: bool,
}

/// A page holds five jobs or ten.
pub fn is_valid_page_size(value: usize) -> (r: Result<(), Rejection>)
    ensures
        r == (if value == 5 || value == 10 {
            Ok::<(), Rejection>(())
        } else {
            Err::<(), Rejection>(Rejection::InvalidPageSize)
        }),
{
    if value != 5 && value != 10 {
        Err(Rejection::InvalidPageSize)
    } else {
        Ok(())
    }
}

/// The number of pages that `total` jobs fill: `total / page_size`, rounded
/// up.
pub fn total_pages(total: usize, page_size: usize) -> (r: usize)
    requires
        page_size > 0,
    ensures
        r == (total + page_size - 1) / (page_size as int),
{
    let whole = total / page_size;
    let rest = total % page_size;
    proof {
        assert(total == whole * page_size + rest) by (nonlinear_arith)
            requires
                whole == total / page_size,
                rest == total % page_size,
                page_size > 0,
        ;
        if rest == 0 {
            assert((whole * page_size + page_size - 1) / (page_size as int) == whole)
                by (nonlinear_arith)
                requires
                    page_size > 0,
            ;
        } else {
            assert((whole * page_size + rest + page_size - 1) / (page_size as int) == whole + 1)
                by (nonlinear_arith)
                requires
                    page_size > 0,
                    0 < rest < page_size,
            ;
        }
    }
    if rest == 0 {
        whole
    } else {
        assert(whole < usize::MAX) by (nonlinear_arith)
            requires
                total == whole * page_size + rest,
                0 < rest < page_size,
                total <= usize::MAX,
                whole >= 0,
        ;
        whole + 1
    }
}

} // verus!
