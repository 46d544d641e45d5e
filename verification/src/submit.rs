//! Submitting a job: the choice of options is checked, the credits are
//! spent, the job's row is inserted, the status cache is seeded, and the
//! message is published. Whatever fails after the spend gives the credits
//! back before the caller hears of it, and the error the caller hears is the
//! first one, never that of the giving back.

use std::collections::HashSet;
use vstd::prelude::*;
use crate::credits::{Balance, FetchError, IncrementTotalCreditsError};
use crate::options::{
    all_compatible, check_generate_options, lemma_option_number_tells_apart, option_number,
    GenerateId, GenerateOption,
};
use crate::response::Rejection;
use crate::status::GenerationStatus;
use crate::worker::WORKING_TTL;

verus! {

broadcast use vstd::std_specs::hash::group_hash_axioms;

/// A request for a paper: the options chosen and the category.
#[derive(Debug)]
pub struct RequestPayload {
    pub choices: Vec<GenerateOption>,
    pub payload_id: GenerateId,
}

/// The most options that one job may ask for.
pub const MAX_CHOICES: usize = 4;

/// Some option occurs twice.
pub open spec fn has_duplicates(choices: Seq<GenerateOption>) -> bool {
    exists|i: int, j: int| 0 <= i < j < choices.len() && choices[i] == choices[j]
}

/// What a choice of options costs, or why it is turned down: an option
/// outside the category, no option at all, more than `MAX_CHOICES`, or one
/// option twice are rejected, in this order; any other choice costs one
/// credit for each option.
pub open spec fn choice_cost(id: GenerateId, choices: Seq<GenerateOption>) -> Result<
    i32,
    Rejection,
> {
    if !all_compatible(id, choices) {
        Err(Rejection::InvalidOptions)
    } else if choices.len() == 0 {
        Err(Rejection::NoChoices)
    } else if choices.len() > MAX_CHOICES {
        Err(Rejection::ChoicesTooLong)
    } else if has_duplicates(choices) {
        Err(Rejection::DuplicateChoices)
    } else {
        Ok(choices.len() as i32)
    }
}

/// Whether some option occurs twice among the choices: each is put into a
/// set of those met so far, and the first that is there already is the
/// answer.
pub fn contains_duplicates(choices: &Vec<GenerateOption>) -> (r: bool)
    ensures
        r == has_duplicates(choices@),
{
    let mut encountered: HashSet<u8> = HashSet::new();
    let mut n: usize = 0;
    while n < choices.len()
        invariant
            n <= choices.len(),
            forall|number: u8|
                encountered@.contains(number) <==> exists|i: int|
                    0 <= i < n && option_number(choices@[i]) == number,
            forall|a: int, b: int| 0 <= a < b < n ==> choices@[a] != choices@[b],
        decreases choices.len() - n,
    {
        let number: u8 = choices[n].number();
        if !encountered.insert(number) {
            proof {
                let i = choose|i: int| 0 <= i < n && option_number(choices@[i]) == number;
                lemma_option_number_tells_apart(choices@[i], choices@[n as int]);
                assert(0 <= i < n < choices.len() && choices@[i] == choices@[n as int]);
            }
            return true;
        }
        proof {
            assert forall|a: int| 0 <= a < n implies choices@[a] != choices@[n as int] by {
                lemma_option_number_tells_apart(choices@[a], choices@[n as int]);
            }
        }
        n += 1;
    }
    false
}

/// Checks a request and says what it costs.
pub fn required_credits(payload: &RequestPayload) -> (r: Result<i32, Rejection>)
    ensures
        r == choice_cost(payload.payload_id, payload.choices@),
{
    if !check_generate_options(&payload.choices, payload.payload_id) {
        Err(Rejection::InvalidOptions)
    } else if payload.choices.len() == 0 {
        Err(Rejection::NoChoices)
    } else if payload.choices.len() > MAX_CHOICES {
        Err(Rejection::ChoicesTooLong)
    } else if contains_duplicates(&payload.choices) {
        Err(Rejection::DuplicateChoices)
    } else {
        Ok(payload.choices.len() as i32)
    }
}

/// What the caller is told of a job that was queued: the credits left and
/// the moment at which to ask for the balance again.
#[derive(Clone, Copy, Debug, PartialEq, Eq, Structural)]
pub struct Accepted {
    pub credits_left: i64,
    pub next_fetch: i64,
}

/// What a submission asks for next.
#[derive(Clone, Copy, Debug, PartialEq, Eq)]
pub enum SubmitStep {
    /// Read the user's balance.
    ReadBalance,
    /// Spend this many credits of the user.
    Decrement { amount: i32 },
    /// Take a store connection.
    OpenPostgres,
    /// Insert the job's row in state `status`, with the credits it used.
    InsertJob { credits_used: i16, status: GenerationStatus },
    /// Take a cache connection.
    OpenRedis,
    /// Write the label of `status` to the job's entry in the status cache,
    /// to live for `ttl` seconds.
    SeedCache { status: GenerationStatus, ttl: i64 },
    /// Publish the job's message to the queue.
    Publish,
    /// Grant the user this many credits with the standard lifetime. How the
    /// grant goes is logged and changes nothing.
    Refund { amount: i32 },
    /// Delete the job's entry from the status cache, if that can be done.
    Unseed,
    /// The submission is over.
    Finish(Result<Accepted, Rejection>),
}

/// How the last step of a submission went.
#[derive(Clone, Copy, Debug, PartialEq, Eq)]
pub enum SubmitOutcome {
    /// The step could not be done.
    Failed,
    /// The step was done.
    Done,
    /// The balance that was read.
    Balance(Result<Balance, FetchError>),
    /// How the spend went.
    Spent(Result<Balance, IncrementTotalCreditsError>),
}

/// A submission under way.
#[derive(Clone, Copy, Debug, PartialEq, Eq)]
pub struct Submission {
    /// The credits that the job costs.
    pub amount: i32,
    /// The same, as the job's row holds it.
    pub credits_used: i16,
    /// What the spend left, once it is made.
    pub left: Accepted,
    /// What the caller will be told once the credits are given back.
    pub verdict: Rejection,
    /// Whether the status cache holds an entry of the job.
    pub seeded: bool,
    /// What has to be done next.
    pub step: SubmitStep,
}

/// The step that inserts a job's row: a new job waits.
pub open spec fn insert_job_step(credits_used: i16) -> SubmitStep {
    SubmitStep::InsertJob { credits_used, status: GenerationStatus::Waiting }
}

/// The step that seeds the status cache: until the worker has said more, a
/// new job is shown as being worked on, for as long as the work may take.
pub open spec fn seed_cache_step() -> SubmitStep {
    SubmitStep::SeedCache { status: GenerationStatus::Working, ttl: WORKING_TTL }
}

/// The submission that turns to giving the credits back, to tell the caller
/// of `verdict` afterwards.
pub open spec fn compensate(run: Submission, verdict: Rejection) -> Submission {
    Submission { verdict, step: SubmitStep::Refund { amount: run.amount }, ..run }
}

/// The submission at another step.
pub open spec fn at(run: Submission, step: SubmitStep) -> Submission {
    Submission { step, ..run }
}

/// The submission after its pending step went as `outcome` says.
pub open spec fn submit_next(run: Submission, outcome: SubmitOutcome) -> Submission {
    match run.step {
        SubmitStep::ReadBalance => match outcome {
            SubmitOutcome::Balance(Ok(balance)) => if run.amount as i64 > balance.total {
                at(run, SubmitStep::Finish(Err(Rejection::InsufficientCredits)))
            } else {
                at(run, SubmitStep::Decrement { amount: run.amount })
            },
            _ => at(run, SubmitStep::Finish(Err(Rejection::FailedToQuery))),
        },
        SubmitStep::Decrement { .. } => match outcome {
            SubmitOutcome::Spent(Ok(balance)) => Submission {
                left: Accepted { credits_left: balance.total, next_fetch: balance.earliest_expiry },
                step: SubmitStep::OpenPostgres,
                ..run
            },
            SubmitOutcome::Spent(Err(IncrementTotalCreditsError::NotEnoughCredits)) => at(
                run,
                SubmitStep::Finish(Err(Rejection::InsufficientCredits)),
            ),
            _ => at(run, SubmitStep::Finish(Err(Rejection::UnknownError))),
        },
        SubmitStep::OpenPostgres => match outcome {
            SubmitOutcome::Done => at(run, insert_job_step(run.credits_used)),
            _ => compensate(run, Rejection::InternalServiceError),
        },
        SubmitStep::InsertJob { .. } => match outcome {
            SubmitOutcome::Done => at(run, SubmitStep::OpenRedis),
            _ => compensate(run, Rejection::InternalServiceError),
        },
        SubmitStep::OpenRedis => match outcome {
            SubmitOutcome::Done => at(run, seed_cache_step()),
            _ => compensate(run, Rejection::InternalServiceError),
        },
        SubmitStep::SeedCache { .. } => match outcome {
            SubmitOutcome::Done => Submission { seeded: true, step: SubmitStep::Publish, ..run },
            _ => compensate(run, Rejection::InternalServiceError),
        },
        SubmitStep::Publish => match outcome {
            SubmitOutcome::Done => at(run, SubmitStep::Finish(Ok(run.left))),
            _ => compensate(run, Rejection::FailedToAddTaskToQueue),
        },
        SubmitStep::Refund { .. } => if run.seeded {
            at(run, SubmitStep::Unseed)
        } else {
            at(run, SubmitStep::Finish(Err(run.verdict)))
        },
        SubmitStep::Unseed => at(run, SubmitStep::Finish(Err(run.verdict))),
        SubmitStep::Finish(_) => run,
    }
}

/// The submission as it starts: over at once where the choice is turned
/// down, else about to read the balance.
pub open spec fn submit_start(id: GenerateId, choices: Seq<GenerateOption>) -> Submission {
    match choice_cost(id, choices) {
        Ok(amount) => Submission {
            amount,
            credits_used: amount as i16,
            left: Accepted { credits_left: 0, next_fetch: 0 },
            verdict: Rejection::InternalServiceError,
            seeded: false,
            step: SubmitStep::ReadBalance,
        },
        Err(rejection) => Submission {
            amount: 0,
            credits_used: 0,
            left: Accepted { credits_left: 0, next_fetch: 0 },
            verdict: rejection,
            seeded: false,
            step: SubmitStep::Finish(Err(rejection)),
        },
    }
}

/// Starts the submission of a job.
pub fn request(user_request: &RequestPayload) -> (r: Submission)
    ensures
        r == submit_start(user_request.payload_id, user_request.choices@),
        0 <= r.amount <= MAX_CHOICES,
        r.credits_used == r.amount,
{
    let left = Accepted { credits_left: 0, next_fetch: 0 };
    match required_credits(user_request) {
        Ok(amount) => Submission {
            amount,
            credits_used: amount as i16,
            left,
            verdict: Rejection::InternalServiceError,
            seeded: false,
            step: SubmitStep::ReadBalance,
        },
        Err(rejection) => Submission {
            amount: 0,
            credits_used: 0,
            left,
            verdict: rejection,
            seeded: false,
            step: SubmitStep::Finish(Err(rejection)),
        },
    }
}

impl Submission {
    /// The submission after its pending step went as `outcome` says. An
    /// outcome that does not belong to the step counts as its failure.
    pub fn advance(self, outcome: SubmitOutcome) -> (r: Submission)
        ensures
            r == submit_next(self, outcome),
    {
        let mut next = self;
        match self.step {
            SubmitStep::ReadBalance => match outcome {
                SubmitOutcome::Balance(Ok(balance)) => {
                    if self.amount as i64 > balance.total {
                        next.step = SubmitStep::Finish(Err(Rejection::InsufficientCredits));
                    } else {
                        next.step = SubmitStep::Decrement { amount: self.amount };
                    }
                },
                _ => {
                    next.step = SubmitStep::Finish(Err(Rejection::FailedToQuery));
                },
            },
            SubmitStep::Decrement { .. } => match outcome {
                SubmitOutcome::Spent(Ok(balance)) => {
                    next.left =
                    Accepted { credits_left: balance.total, next_fetch: balance.earliest_expiry };
                    next.step = SubmitStep::OpenPostgres;
                },
                SubmitOutcome::Spent(Err(IncrementTotalCreditsError::NotEnoughCredits)) => {
                    next.step = SubmitStep::Finish(Err(Rejection::InsufficientCredits));
                },
                _ => {
                    next.step = SubmitStep::Finish(Err(Rejection::UnknownError));
                },
            },
            SubmitStep::OpenPostgres => match outcome {
                SubmitOutcome::Done => {
                    next.step =
                    SubmitStep::InsertJob {
                        credits_used: self.credits_used,
                        status: GenerationStatus::Waiting,
                    };
                },
                _ => {
                    next.verdict = Rejection::InternalServiceError;
                    next.step = SubmitStep::Refund { amount: self.amount };
                },
            },
            SubmitStep::InsertJob { .. } => match outcome {
                SubmitOutcome::Done => {
                    next.step = SubmitStep::OpenRedis;
                },
                _ => {
                    next.verdict = Rejection::InternalServiceError;
                    next.step = SubmitStep::Refund { amount: self.amount };
                },
            },
            SubmitStep::OpenRedis => match outcome {
                SubmitOutcome::Done => {
                    next.step =
                    SubmitStep::SeedCache { status: GenerationStatus::Working, ttl: WORKING_TTL };
                },
                _ => {
                    next.verdict = Rejection::InternalServiceError;
                    next.step = SubmitStep::Refund { amount: self.amount };
                },
            },
            SubmitStep::SeedCache { .. } => match outcome {
                SubmitOutcome::Done => {
                    next.seeded = true;
                    next.step = SubmitStep::Publish;
                },
                _ => {
                    next.verdict = Rejection::InternalServiceError;
                    next.step = SubmitStep::Refund { amount: self.amount };
                },
            },
            SubmitStep::Publish => match outcome {
                SubmitOutcome::Done => {
                    next.step = SubmitStep::Finish(Ok(self.left));
                },
                _ => {
                    next.verdict = Rejection::FailedToAddTaskToQueue;
                    next.step = SubmitStep::Refund { amount: self.amount };
                },
            },
            SubmitStep::Refund { .. } => {
                if self.seeded {
                    next.step = SubmitStep::Unseed;
                } else {
                    next.step = SubmitStep::Finish(Err(self.verdict));
                }
            },
            SubmitStep::Unseed => {
                next.step = SubmitStep::Finish(Err(self.verdict));
            },
            SubmitStep::Finish(_) => {},
        }
        next
    }
}

/// A request that is turned down for its options, or for want of credits,
/// is turned down before anything was written: no credits spent, no row, no
/// message.
pub proof fn lemma_rejected_before_any_write(
    id: GenerateId,
    choices: Seq<GenerateOption>,
    balance: Balance,
)
    ensures
        choice_cost(id, choices) is Err ==> submit_start(id, choices).step == SubmitStep::Finish(
            Err::<Accepted, Rejection>(choice_cost(id, choices)->Err_0),
        ),
        choice_cost(id, choices) matches Ok(amount) ==> submit_start(id, choices).step
            == SubmitStep::ReadBalance && (balance.total < amount ==> submit_next(
            submit_start(id, choices),
            SubmitOutcome::Balance(Ok(balance)),
        ).step == SubmitStep::Finish(Err::<Accepted, Rejection>(Rejection::InsufficientCredits))),
{
}

/// After the spend, a submission ends in an error only by way of giving the
/// credits back, and the credits given back are those that were spent; it
/// ends well only from a message that was published, with the balance that
/// the spend left.
pub proof fn lemma_failure_is_compensated(run: Submission, outcome: SubmitOutcome)
    ensures
        submit_next(run, outcome).step matches SubmitStep::Finish(Err(_)) ==> matches!(
            run.step,
            SubmitStep::ReadBalance | SubmitStep::Decrement { .. } | SubmitStep::Refund { .. }
                | SubmitStep::Unseed | SubmitStep::Finish(_)
        ),
        submit_next(run, outcome).step matches SubmitStep::Refund { amount } ==> amount
            == run.amount && matches!(
            run.step,
            SubmitStep::OpenPostgres | SubmitStep::InsertJob { .. } | SubmitStep::OpenRedis
                | SubmitStep::SeedCache { .. } | SubmitStep::Publish
        ),
        submit_next(run, outcome).step matches SubmitStep::Finish(Ok(accepted)) ==> (
        run.step matches SubmitStep::Finish(_)) || (run.step == SubmitStep::Publish && outcome
            == SubmitOutcome::Done && accepted == run.left),
        submit_next(run, outcome).step == SubmitStep::Unseed ==> run.seeded,
        run.step matches SubmitStep::Refund { .. } ==> submit_next(run, outcome).verdict
            == run.verdict,
{
}

/// The steps of a submission come in one order: the credits are spent
/// after the balance was read and found to suffice, the row is inserted
/// after the spend succeeded, the cache is seeded after the row is there,
/// and the message is published last.
pub proof fn lemma_submission_order(run: Submission, outcome: SubmitOutcome)
    ensures
        submit_next(run, outcome).step matches SubmitStep::Decrement { amount } ==> amount
            == run.amount && run.step == SubmitStep::ReadBalance && (
        outcome matches SubmitOutcome::Balance(Ok(balance)) && balance.total >= run.amount),
        submit_next(run, outcome).step == SubmitStep::OpenPostgres ==> (
        run.step matches SubmitStep::Decrement { .. }) && (
        outcome matches SubmitOutcome::Spent(Ok(_))),
        submit_next(run, outcome).step matches SubmitStep::InsertJob { credits_used, status }
            ==> credits_used == run.credits_used && status == GenerationStatus::Waiting
            && run.step == SubmitStep::OpenPostgres,
        submit_next(run, outcome).step == SubmitStep::OpenRedis ==> (
        run.step matches SubmitStep::InsertJob { .. }) && outcome == SubmitOutcome::Done,
        submit_next(run, outcome).step matches SubmitStep::SeedCache { status, ttl } ==> status
            == GenerationStatus::Working && ttl == WORKING_TTL && run.step
            == SubmitStep::OpenRedis,
        submit_next(run, outcome).step == SubmitStep::Publish ==> (
        run.step matches SubmitStep::SeedCache { .. }) && outcome == SubmitOutcome::Done && submit_next(
            run,
            outcome,
        ).seeded,
{
}

} // verus!
