//! The life of a generation job: which change of state each request may
//! make, and what it owes the user's ledger.
//!
//! Every request is decided on the state read under the row's lock, inside
//! one transaction with the writes that it leads to. So requests on one job
//! take effect one after another, in some order, and a request that comes
//! twice meets the state that its first coming left.

use vstd::prelude::*;
use crate::status::GenerationStatus;

verus! {

/// What is asked of a job.
#[derive(Clone, Copy, Debug, PartialEq, Eq, Structural)]
pub enum JobRequest {
    /// A worker wants to start on the job.
    Claim,
    /// A worker has stored the artifact and reports success.
    Complete,
    /// A worker reports a failure that no retry would mend.
    Fail,
    /// The owner wants the job gone.
    Delete,
    /// The owner wants a failed job run again.
    Retry,
}

/// What a request does to a job.
#[derive(Clone, Copy, Debug, PartialEq, Eq, Structural)]
pub enum Verdict {
    /// The job takes the new state.
    Move(GenerationStatus),
    /// The job takes the new state, and the credits it used go back to the
    /// owner in the same transaction, before the state is written.
    RefundAndMove(GenerationStatus),
    /// The job's row goes, and the credits it used go back to the owner in
    /// the same transaction.
    RefundAndRemove,
    /// The job's artifact goes, then its row.
    RemoveWithArtifact,
    /// The credits the job used are taken again, and the job waits anew.
    DebitAndMove(GenerationStatus),
    /// Nothing changes: the request came twice, or too late.
    Ignore,
    /// Nothing changes, and the owner is told that the state forbids it.
    Refuse,
}

/// The verdict on a request, by the state of the job.
pub open spec fn verdict(status: GenerationStatus, request: JobRequest) -> Verdict {
    match request {
        JobRequest::Claim => match status {
            GenerationStatus::Waiting => Verdict::Move(GenerationStatus::Working),
            GenerationStatus::Deleting => Verdict::RefundAndRemove,
            _ => Verdict::Ignore,
        },
        JobRequest::Complete => match status {
            GenerationStatus::Working => Verdict::Move(GenerationStatus::Success),
            _ => Verdict::Ignore,
        },
        JobRequest::Fail => match status {
            GenerationStatus::Working => Verdict::RefundAndMove(GenerationStatus::Failed),
            _ => Verdict::Ignore,
        },
        JobRequest::Delete => match status {
            GenerationStatus::Waiting => Verdict::Move(GenerationStatus::Deleting),
            GenerationStatus::Success => Verdict::RemoveWithArtifact,
            _ => Verdict::Refuse,
        },
        JobRequest::Retry => match status {
            GenerationStatus::Failed => Verdict::DebitAndMove(GenerationStatus::Waiting),
            _ => Verdict::Refuse,
        },
    }
}

/// Decides a request on the state that was read under the row's lock.
pub fn decide(status: GenerationStatus, request: JobRequest) -> (r: Verdict)
    ensures
        r == verdict(status, request),
{
    match request {
        JobRequest::Claim => match status {
            GenerationStatus::Waiting => Verdict::Move(GenerationStatus::Working),
            GenerationStatus::Deleting => Verdict::RefundAndRemove,
            _ => Verdict::Ignore,
        },
        JobRequest::Complete => match status {
            GenerationStatus::Working => Verdict::Move(GenerationStatus::Success),
            _ => Verdict::Ignore,
        },
        JobRequest::Fail => match status {
            GenerationStatus::Working => Verdict::RefundAndMove(GenerationStatus::Failed),
            _ => Verdict::Ignore,
        },
        JobRequest::Delete => match status {
            GenerationStatus::Waiting => Verdict::Move(GenerationStatus::Deleting),
            GenerationStatus::Success => Verdict::RemoveWithArtifact,
            _ => Verdict::Refuse,
        },
        JobRequest::Retry => match status {
            GenerationStatus::Failed => Verdict::DebitAndMove(GenerationStatus::Waiting),
            _ => Verdict::Refuse,
        },
    }
}

/// A job's row as far as its life goes: its state and whether the moment of
/// its completion is set. `None` stands for a row that is gone.
pub struct JobRow {
    pub status: GenerationStatus,
    pub finished: bool,
}

/// The completion moment is set exactly on a job that succeeded.
pub open spec fn row_wf(row: Option<JobRow>) -> bool {
    match row {
        Some(r) => r.finished <==> r.status == GenerationStatus::Success,
        None => true,
    }
}

/// The row after a request took effect.
pub open spec fn row_after(row: Option<JobRow>, request: JobRequest) -> Option<JobRow> {
    match row {
        None => None,
        Some(r) => match verdict(r.status, request) {
            Verdict::Move(next) => Some(
                JobRow { status: next, finished: next == GenerationStatus::Success },
            ),
            Verdict::RefundAndMove(next) => Some(JobRow { status: next, finished: false }),
            Verdict::DebitAndMove(next) => Some(JobRow { status: next, finished: false }),
            Verdict::RefundAndRemove => None,
            Verdict::RemoveWithArtifact => None,
            Verdict::Ignore => row,
            Verdict::Refuse => row,
        },
    }
}

/// Whether the request, met by this row, gives credits back.
pub open spec fn refunds(row: Option<JobRow>, request: JobRequest) -> bool {
    match row {
        None => false,
        Some(r) => matches!(
            verdict(r.status, request),
            Verdict::RefundAndMove(_) | Verdict::RefundAndRemove
        ),
    }
}

/// Whether the request, met by this row, ends the job's run: moves it from
/// `Working` to `Success` or to `Failed`.
pub open spec fn finishes(row: Option<JobRow>, request: JobRequest) -> bool {
    match row {
        None => false,
        Some(r) => r.status == GenerationStatus::Working && matches!(
            verdict(r.status, request),
            Verdict::Move(GenerationStatus::Success) | Verdict::RefundAndMove(
                GenerationStatus::Failed
            )
        ),
    }
}

/// The row after a run of requests, taken in order.
pub open spec fn row_after_all(row: Option<JobRow>, requests: Seq<JobRequest>) -> Option<JobRow>
    decreases requests.len(),
{
    if requests.len() == 0 {
        row
    } else {
        row_after_all(row_after(row, requests[0]), requests.drop_first())
    }
}

/// How many requests of a run give credits back.
pub open spec fn refund_count(row: Option<JobRow>, requests: Seq<JobRequest>) -> nat
    decreases requests.len(),
{
    if requests.len() == 0 {
        0
    } else {
        (if refunds(row, requests[0]) {
            1nat
        } else {
            0nat
        }) + refund_count(row_after(row, requests[0]), requests.drop_first())
    }
}

/// How many requests of a run end the job's run.
pub open spec fn finish_count(row: Option<JobRow>, requests: Seq<JobRequest>) -> nat
    decreases requests.len(),
{
    if requests.len() == 0 {
        0
    } else {
        (if finishes(row, requests[0]) {
            1nat
        } else {
            0nat
        }) + finish_count(row_after(row, requests[0]), requests.drop_first())
    }
}

/// No request of the run asks for a retry.
pub open spec fn no_retry(requests: Seq<JobRequest>) -> bool {
    forall|i: int| 0 <= i < requests.len() ==> #[trigger] requests[i] != JobRequest::Retry
}

/// How far a job is through its life, counted down: a request never moves a
/// job back unless it is a retry.
pub open spec fn stage(row: Option<JobRow>) -> nat {
    match row {
        None => 0,
        Some(r) => match r.status {
            GenerationStatus::Waiting => 3,
            GenerationStatus::Deleting => 2,
            GenerationStatus::Working => 2,
            GenerationStatus::Success => 1,
            GenerationStatus::Failed => 1,
        },
    }
}

/// The job is there and has succeeded.
pub open spec fn succeeded(row: Option<JobRow>) -> bool {
    row matches Some(r) && r.status == GenerationStatus::Success
}

/// The job is there and has failed.
pub open spec fn failed(row: Option<JobRow>) -> bool {
    row matches Some(r) && r.status == GenerationStatus::Failed
}

/// Every request keeps the row well formed: the moment of completion is set
/// exactly when the job has succeeded.
pub proof fn lemma_request_keeps_row(row: Option<JobRow>, request: JobRequest)
    requires
        row_wf(row),
    ensures
        row_wf(row_after(row, request)),
{
}

/// A job changes state only along
/// `Waiting → Working → Success | Failed`, `Waiting → Deleting`,
/// `Failed → Waiting` on retry, or its row goes: from `Deleting` when a
/// worker claims it, from `Success` when its owner deletes it.
pub proof fn lemma_only_drawn_moves(row: JobRow, request: JobRequest)
    ensures
        match row_after(Some(row), request) {
            Some(next) => next.status == row.status || match (row.status, next.status) {
                (GenerationStatus::Waiting, GenerationStatus::Working) => request
                    == JobRequest::Claim,
                (GenerationStatus::Working, GenerationStatus::Success) => request
                    == JobRequest::Complete,
                (GenerationStatus::Working, GenerationStatus::Failed) => request
                    == JobRequest::Fail,
                (GenerationStatus::Waiting, GenerationStatus::Deleting) => request
                    == JobRequest::Delete,
                (GenerationStatus::Failed, GenerationStatus::Waiting) => request
                    == JobRequest::Retry,
                _ => false,
            },
            None => (row.status == GenerationStatus::Deleting && request == JobRequest::Claim) || (
            row.status == GenerationStatus::Success && request == JobRequest::Delete),
        },
{
}

/// Delivered twice, counted once: in any run of claims, completions,
/// failures and deletions on one job, in any order and however often each
/// comes, at most one request ends the job's run and at most one gives
/// credits back; a job that has ended or is gone sees neither again; a job
/// never moves back; and a job that ends in success was never refunded.
pub proof fn lemma_idempotent_delivery(row: Option<JobRow>, requests: Seq<JobRequest>)
    requires
        no_retry(requests),
    ensures
        refund_count(row, requests) <= 1,
        finish_count(row, requests) <= 1,
        stage(row) <= 1 ==> refund_count(row, requests) == 0 && finish_count(row, requests) == 0,
        stage(row_after_all(row, requests)) <= stage(row),
        succeeded(row_after_all(row, requests)) ==> refund_count(row, requests) == 0,
        succeeded(row_after_all(row, requests)) ==> !(row is None) && !failed(row),
    decreases requests.len(),
{
    if requests.len() > 0 {
        let rest = requests.drop_first();
        assert(requests[0] != JobRequest::Retry);
        assert forall|i: int| 0 <= i < rest.len() implies #[trigger] rest[i]
            != JobRequest::Retry by {
            assert(rest[i] == requests[i + 1]);
        }
        lemma_idempotent_delivery(row_after(row, requests[0]), rest);
    }
}

/// The same claim delivered twice starts the job once: the second claim
/// meets `Working` and changes nothing.
pub proof fn lemma_second_claim_is_void(row: JobRow)
    requires
        row.status == GenerationStatus::Waiting,
    ensures
        row_after(Some(row), JobRequest::Claim) matches Some(claimed) && claimed.status
            == GenerationStatus::Working && verdict(claimed.status, JobRequest::Claim)
            == Verdict::Ignore,
{
}

} // verus!
