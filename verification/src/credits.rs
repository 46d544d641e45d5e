//! The credit ledger service: reading a balance through the cache, granting
//! credits and spending them.
//!
//! Each operation is a small machine. It names the next thing to do against
//! the cache or the store; the caller does it and reports how it went; the
//! machine then names the next thing, until it finishes with the operation's
//! result. The machine decides, the caller only performs.

use vstd::prelude::*;
use vstd::string::*;
use crate::ledger::{
    is_sorted_by_expiry, plan_decrement, plan_of, sorted_by_expiry, Control, CreditGrant,
    DecrementPlan,
};
use crate::text::{decimal, push_decimal};

verus! {

/// Why a balance could not be read.
#[derive(Clone, Copy, Debug, PartialEq, Eq, Structural)]
pub enum FetchError {
    FailedToObtainRedisConnection,
    FailedToObtainDatabaseConnection,
    FailedToQueryRedis,
    DatabaseQueryFailure,
    FailedToSetPipeline,
}

/// Why a grant or a spend failed.
#[derive(Clone, Copy, Debug, PartialEq, Eq, Structural)]
pub enum IncrementTotalCreditsError {
    RedisConnectionOpenFailure,
    PostgresConnectionOpenFailure,
    NotEnoughCredits,
    PostgresOperationFailure,
    RedisOperationFailure,
    PostgresTransactionFailure,
    BadData,
}

/// The sentence that describes an error.
pub open spec fn error_text(e: IncrementTotalCreditsError) -> Seq<char> {
    match e {
        IncrementTotalCreditsError::RedisConnectionOpenFailure => "Failed to open Redis connection"@,
        IncrementTotalCreditsError::PostgresConnectionOpenFailure =>
            "Failed to open Postgres connection"@,
        IncrementTotalCreditsError::NotEnoughCredits => "Not enough credits"@,
        IncrementTotalCreditsError::PostgresOperationFailure => "Postgres operation failed"@,
        IncrementTotalCreditsError::RedisOperationFailure => "Redis operation failed"@,
        IncrementTotalCreditsError::PostgresTransactionFailure => "Postgres transaction failed"@,
        IncrementTotalCreditsError::BadData => "Bad data"@,
    }
}

impl IncrementTotalCreditsError {
    /// The sentence that describes this error.
    pub fn to_string(&self) -> (r: String)
        ensures
            r@ == error_text(*self),
    {
        let text = match self {
            IncrementTotalCreditsError::RedisConnectionOpenFailure => "Failed to open Redis connection",
            IncrementTotalCreditsError::PostgresConnectionOpenFailure =>
                "Failed to open Postgres connection",
            IncrementTotalCreditsError::NotEnoughCredits => "Not enough credits",
            IncrementTotalCreditsError::PostgresOperationFailure => "Postgres operation failed",
            IncrementTotalCreditsError::RedisOperationFailure => "Redis operation failed",
            IncrementTotalCreditsError::PostgresTransactionFailure => "Postgres transaction failed",
            IncrementTotalCreditsError::BadData => "Bad data",
        };
        String::from_str(text)
    }
}

/// A user's credits and the moment at which the first of them expire.
#[derive(Clone, Copy, Debug, PartialEq, Eq, Structural)]
pub struct Balance {
    pub total: i64,
    pub earliest_expiry: i64,
}

/// The expiry that is reported with a balance of no grants.
pub const NO_GRANTS_EXPIRY: i64 = 0;

/// The expiry that a spend reports when it has left no grant: the user has
/// no credits left.
pub const SPENT_OUT_EXPIRY: i64 = 1;

/// The cache key of a user's total.
pub open spec fn credits_key_text(user_id: i64) -> Seq<char> {
    "user:"@ + decimal(user_id as int) + ":cred:t"@
}

/// The cache key of a user's earliest expiry.
pub open spec fn expire_key_text(user_id: i64) -> Seq<char> {
    "user:"@ + decimal(user_id as int) + ":cred:e"@
}

/// The cache key under which a user's total is kept.
pub fn credits_key(user_id: i64) -> (r: String)
    ensures
        r@ == credits_key_text(user_id),
{
    let mut out = String::from_str("user:");
    push_decimal(&mut out, user_id);
    out.append(":cred:t");
    out
}

/// The cache key under which a user's earliest expiry is kept.
pub fn expire_key(user_id: i64) -> (r: String)
    ensures
        r@ == expire_key_text(user_id),
{
    let mut out = String::from_str("user:");
    push_decimal(&mut out, user_id);
    out.append(":cred:e");
    out
}

/// What the cache says of a balance: both entries present, and the expiry
/// still ahead.
pub open spec fn cache_hit(expire: Option<i64>, credits: Option<i64>, now: i64) -> Option<Balance> {
    match (expire, credits) {
        (Some(e), Some(c)) => if e > now {
            Some(Balance { total: c, earliest_expiry: e })
        } else {
            None
        },
        _ => None,
    }
}

/// Reads a balance from the two cache entries. It is a hit only when both
/// are there and the cached expiry lies after `now`.
pub fn cached_balance(expire: Option<i64>, credits: Option<i64>, now: i64) -> (r: Option<Balance>)
    ensures
        r == cache_hit(expire, credits, now),
{
    match (expire, credits) {
        (Some(e), Some(c)) => {
            if e > now {
                Some(Balance { total: c, earliest_expiry: e })
            } else {
                None
            }
        },
        _ => None,
    }
}

/// The seconds for which a snapshot may stay in the cache: the time left
/// until the earliest expiry, and no less than one second.
pub open spec fn snapshot_ttl(expiry: i64, now: i64) -> int {
    if expiry - now < 1 {
        1
    } else if expiry - now > i64::MAX {
        i64::MAX as int
    } else {
        expiry - now
    }
}

/// The time to live of a snapshot written at `now`.
pub fn cache_ttl(expiry: i64, now: i64) -> (r: i64)
    ensures
        r == snapshot_ttl(expiry, now),
        r >= 1,
{
    match expiry.checked_sub(now) {
        Some(left) => if left < 1 {
            1
        } else {
            left
        },
        None => if expiry < now {
            1
        } else {
            i64::MAX
        },
    }
}

// ---------------------------------------------------------------------------
// Reading a balance
// ---------------------------------------------------------------------------
/// What a balance read asks for next.
#[derive(Clone, Copy, Debug, PartialEq, Eq)]
pub enum BalanceStep {
    /// Take a cache connection.
    OpenRedis,
    /// Read the two cache entries of the user.
    ReadCache,
    /// Take a store connection.
    OpenPostgres,
    /// Ask the store for the sum and the earliest expiry of the user's grants
    /// that expire after `now`.
    QueryLedger,
    /// Write the snapshot to the cache, both entries with this time to live.
    WriteCache { total: i64, expiry: i64, ttl: i64 },
    /// The read is over.
    Finish(Result<Balance, FetchError>),
}

/// How the last step of a balance read went.
#[derive(Clone, Copy, Debug, PartialEq, Eq)]
pub enum BalanceOutcome {
    /// The step could not be done.
    Failed,
    /// The connection is there.
    Opened,
    /// What the cache holds: the expiry entry and the total entry.
    Cached { expire: Option<i64>, credits: Option<i64> },
    /// What the store found: the sum and the earliest expiry, both absent
    /// where the user has no unexpired grant.
    Aggregated { sum: Option<i64>, earliest: Option<i64> },
    /// The snapshot is in the cache.
    Written,
}

/// A balance read under way.
#[derive(Clone, Copy, Debug, PartialEq, Eq)]
pub struct BalanceRead {
    /// The moment of the read, in seconds.
    pub now: i64,
    /// Whether the caller brought its connections along.
    pub with_conn: bool,
    /// What has to be done next.
    pub step: BalanceStep,
}

/// The step that follows a cache miss.
pub open spec fn after_miss(with_conn: bool) -> BalanceStep {
    if with_conn {
        BalanceStep::QueryLedger
    } else {
        BalanceStep::OpenPostgres
    }
}

/// The step that follows `step` when it went as `outcome` says.
pub open spec fn balance_next(
    now: i64,
    with_conn: bool,
    step: BalanceStep,
    outcome: BalanceOutcome,
) -> BalanceStep {
    match step {
        BalanceStep::OpenRedis => match outcome {
            BalanceOutcome::Opened => BalanceStep::ReadCache,
            _ => BalanceStep::Finish(Err(FetchError::FailedToObtainRedisConnection)),
        },
        BalanceStep::ReadCache => match outcome {
            BalanceOutcome::Cached { expire, credits } => match cache_hit(expire, credits, now) {
                Some(balance) => BalanceStep::Finish(Ok(balance)),
                None => after_miss(with_conn),
            },
            _ => BalanceStep::Finish(Err(FetchError::FailedToQueryRedis)),
        },
        BalanceStep::OpenPostgres => match outcome {
            BalanceOutcome::Opened => BalanceStep::QueryLedger,
            _ => BalanceStep::Finish(Err(FetchError::FailedToObtainDatabaseConnection)),
        },
        BalanceStep::QueryLedger => match outcome {
            BalanceOutcome::Aggregated { sum: Some(total), earliest: Some(expiry) } =>
                BalanceStep::WriteCache { total, expiry, ttl: snapshot_ttl(expiry, now) as i64 },
            BalanceOutcome::Aggregated { .. } => BalanceStep::Finish(
                Ok(Balance { total: 0, earliest_expiry: NO_GRANTS_EXPIRY }),
            ),
            _ => BalanceStep::Finish(Err(FetchError::DatabaseQueryFailure)),
        },
        BalanceStep::WriteCache { total, expiry, ttl } => match outcome {
            BalanceOutcome::Written => BalanceStep::Finish(
                Ok(Balance { total, earliest_expiry: expiry }),
            ),
            _ => BalanceStep::Finish(Err(FetchError::FailedToSetPipeline)),
        },
        BalanceStep::Finish(result) => BalanceStep::Finish(result),
    }
}

/// Starts a balance read at `now` that takes its own connections.
pub fn get_total_credits(now: i64) -> (r: BalanceRead)
    ensures
        r == (BalanceRead { now, with_conn: false, step: BalanceStep::OpenRedis }),
{
    BalanceRead { now, with_conn: false, step: BalanceStep::OpenRedis }
}

/// Starts a balance read at `now` on connections that the caller holds.
pub fn get_total_credits_with_conn(now: i64) -> (r: BalanceRead)
    ensures
        r == (BalanceRead { now, with_conn: true, step: BalanceStep::ReadCache }),
{
    BalanceRead { now, with_conn: true, step: BalanceStep::ReadCache }
}

/// What the store's answer to the ledger query leads to: nothing found is a
/// balance of zero, which is not cached; a sum and an expiry are written to
/// the cache before they are returned.
pub fn query_credits_result_with_conn(now: i64, sum: Option<i64>, earliest: Option<i64>) -> (r:
    BalanceStep)
    ensures
        r == balance_next(
            now,
            true,
            BalanceStep::QueryLedger,
            BalanceOutcome::Aggregated { sum, earliest },
        ),
{
    match (sum, earliest) {
        (Some(total), Some(expiry)) => BalanceStep::WriteCache {
            total,
            expiry,
            ttl: cache_ttl(expiry, now),
        },
        _ => BalanceStep::Finish(Ok(Balance { total: 0, earliest_expiry: NO_GRANTS_EXPIRY })),
    }
}

impl BalanceRead {
    /// The read after its pending step went as `outcome` says. An outcome
    /// that does not belong to the step counts as its failure.
    pub fn advance(self, outcome: BalanceOutcome) -> (r: BalanceRead)
        ensures
            r.now == self.now,
            r.with_conn == self.with_conn,
            r.step == balance_next(self.now, self.with_conn, self.step, outcome),
    {
        let step = match self.step {
            BalanceStep::OpenRedis => match outcome {
                BalanceOutcome::Opened => BalanceStep::ReadCache,
                _ => BalanceStep::Finish(Err(FetchError::FailedToObtainRedisConnection)),
            },
            BalanceStep::ReadCache => match outcome {
                BalanceOutcome::Cached { expire, credits } => match cached_balance(
                    expire,
                    credits,
                    self.now,
                ) {
                    Some(balance) => BalanceStep::Finish(Ok(balance)),
                    None => if self.with_conn {
                        BalanceStep::QueryLedger
                    } else {
                        BalanceStep::OpenPostgres
                    },
                },
                _ => BalanceStep::Finish(Err(FetchError::FailedToQueryRedis)),
            },
            BalanceStep::OpenPostgres => match outcome {
                BalanceOutcome::Opened => BalanceStep::QueryLedger,
                _ => BalanceStep::Finish(Err(FetchError::FailedToObtainDatabaseConnection)),
            },
            BalanceStep::QueryLedger => match outcome {
                BalanceOutcome::Aggregated { sum, earliest } => query_credits_result_with_conn(
                    self.now,
                    sum,
                    earliest,
                ),
                _ => BalanceStep::Finish(Err(FetchError::DatabaseQueryFailure)),
            },
            BalanceStep::WriteCache { total, expiry, ttl } => match outcome {
                BalanceOutcome::Written => BalanceStep::Finish(
                    Ok(Balance { total, earliest_expiry: expiry }),
                ),
                _ => BalanceStep::Finish(Err(FetchError::FailedToSetPipeline)),
            },
            BalanceStep::Finish(result) => BalanceStep::Finish(result),
        };
        BalanceRead { now: self.now, with_conn: self.with_conn, step }
    }
}

// ---------------------------------------------------------------------------
// Granting credits
// ---------------------------------------------------------------------------
/// What a grant asks for next.
#[derive(Clone, Copy, Debug, PartialEq, Eq)]
pub enum IncrementStep {
    /// Take a cache connection.
    OpenRedis,
    /// Take a store connection.
    OpenPostgres,
    /// Insert a grant of `amount` credits for the user that expires at
    /// `expires_at`.
    InsertGrant { user_id: i64, amount: i32, expires_at: i64 },
    /// Delete the user's two cache entries.
    InvalidateCache { user_id: i64 },
    /// The grant is over.
    Finish(Result<(), IncrementTotalCreditsError>),
}

/// How the last step of a grant or of a spend went, where the step hands
/// nothing back.
#[derive(Clone, Copy, Debug, PartialEq, Eq, Structural)]
pub enum StepOutcome {
    /// The step could not be done.
    Failed,
    /// The step was done.
    Done,
}

/// A grant under way.
#[derive(Clone, Copy, Debug, PartialEq, Eq)]
pub struct Increment {
    pub user_id: i64,
    pub amount: i32,
    pub expires_at: i64,
    /// Whether the caller brought a store connection along.
    pub have_postgres: bool,
    /// What has to be done next.
    pub step: IncrementStep,
}

/// The step that inserts the grant. A grant holds a positive amount: one of
/// nothing, or of less, is bad data and is never inserted.
pub open spec fn increment_insert_step(run: Increment) -> IncrementStep {
    if run.amount > 0 {
        IncrementStep::InsertGrant {
            user_id: run.user_id,
            amount: run.amount,
            expires_at: run.expires_at,
        }
    } else {
        IncrementStep::Finish(Err(IncrementTotalCreditsError::BadData))
    }
}

/// The first store step of a grant.
pub open spec fn increment_store_step(run: Increment) -> IncrementStep {
    if run.have_postgres {
        increment_insert_step(run)
    } else {
        IncrementStep::OpenPostgres
    }
}

/// The step that follows the pending one of a grant.
pub open spec fn increment_next(run: Increment, outcome: StepOutcome) -> IncrementStep {
    match run.step {
        IncrementStep::OpenRedis => match outcome {
            StepOutcome::Done => increment_store_step(run),
            StepOutcome::Failed => IncrementStep::Finish(
                Err(IncrementTotalCreditsError::RedisConnectionOpenFailure),
            ),
        },
        IncrementStep::OpenPostgres => match outcome {
            StepOutcome::Done => increment_insert_step(run),
            StepOutcome::Failed => IncrementStep::Finish(
                Err(IncrementTotalCreditsError::PostgresConnectionOpenFailure),
            ),
        },
        IncrementStep::InsertGrant { .. } => match outcome {
            StepOutcome::Done => IncrementStep::InvalidateCache { user_id: run.user_id },
            StepOutcome::Failed => IncrementStep::Finish(
                Err(IncrementTotalCreditsError::PostgresOperationFailure),
            ),
        },
        IncrementStep::InvalidateCache { .. } => match outcome {
            StepOutcome::Done => IncrementStep::Finish(Ok(())),
            StepOutcome::Failed => IncrementStep::Finish(
                Err(IncrementTotalCreditsError::RedisOperationFailure),
            ),
        },
        IncrementStep::Finish(result) => IncrementStep::Finish(result),
    }
}

/// The first step of a grant: a grant of no positive amount is over at once,
/// as bad data, before any connection is taken.
pub open spec fn increment_first_step(
    user_id: i64,
    amount: i32,
    expires_at: i64,
    have_redis: bool,
    have_postgres: bool,
) -> IncrementStep {
    if amount <= 0 {
        IncrementStep::Finish(Err(IncrementTotalCreditsError::BadData))
    } else if !have_redis {
        IncrementStep::OpenRedis
    } else if !have_postgres {
        IncrementStep::OpenPostgres
    } else {
        IncrementStep::InsertGrant { user_id, amount, expires_at }
    }
}

/// Starts a grant of `amount` credits that live for `duration` seconds from
/// `now`. The amount has to be positive: any other ends the grant with
/// `BadData` and nothing done. The grant is inserted first; the cache
/// entries are deleted after it, never rewritten.
pub fn increment_total_credits(
    user_id: i64,
    amount: i32,
    duration: i64,
    now: i64,
    have_redis: bool,
    have_postgres: bool,
) -> (r: Increment)
    requires
        i64::MIN <= now + duration <= i64::MAX,
    ensures
        r.user_id == user_id,
        r.amount == amount,
        r.expires_at == now + duration,
        r.have_postgres == have_postgres,
        r.step == increment_first_step(user_id, amount, r.expires_at, have_redis, have_postgres),
{
    let expires_at = now + duration;
    let step = if amount <= 0 {
        IncrementStep::Finish(Err(IncrementTotalCreditsError::BadData))
    } else if !have_redis {
        IncrementStep::OpenRedis
    } else if !have_postgres {
        IncrementStep::OpenPostgres
    } else {
        IncrementStep::InsertGrant { user_id, amount, expires_at }
    };
    Increment { user_id, amount, expires_at, have_postgres, step }
}

impl Increment {
    /// The grant after its pending step went as `outcome` says.
    pub fn advance(self, outcome: StepOutcome) -> (r: Increment)
        ensures
            r.user_id == self.user_id,
            r.amount == self.amount,
            r.expires_at == self.expires_at,
            r.have_postgres == self.have_postgres,
            r.step == increment_next(self, outcome),
    {
        let insert = if self.amount > 0 {
            IncrementStep::InsertGrant {
                user_id: self.user_id,
                amount: self.amount,
                expires_at: self.expires_at,
            }
        } else {
            IncrementStep::Finish(Err(IncrementTotalCreditsError::BadData))
        };
        let step = match self.step {
            IncrementStep::OpenRedis => match outcome {
                StepOutcome::Done => if self.have_postgres {
                    insert
                } else {
                    IncrementStep::OpenPostgres
                },
                StepOutcome::Failed => IncrementStep::Finish(
                    Err(IncrementTotalCreditsError::RedisConnectionOpenFailure),
                ),
            },
            IncrementStep::OpenPostgres => match outcome {
                StepOutcome::Done => insert,
                StepOutcome::Failed => IncrementStep::Finish(
                    Err(IncrementTotalCreditsError::PostgresConnectionOpenFailure),
                ),
            },
            IncrementStep::InsertGrant { .. } => match outcome {
                StepOutcome::Done => IncrementStep::InvalidateCache { user_id: self.user_id },
                StepOutcome::Failed => IncrementStep::Finish(
                    Err(IncrementTotalCreditsError::PostgresOperationFailure),
                ),
            },
            IncrementStep::InvalidateCache { .. } => match outcome {
                StepOutcome::Done => IncrementStep::Finish(Ok(())),
                StepOutcome::Failed => IncrementStep::Finish(
                    Err(IncrementTotalCreditsError::RedisOperationFailure),
                ),
            },
            IncrementStep::Finish(result) => IncrementStep::Finish(result),
        };
        Increment {
            user_id: self.user_id,
            amount: self.amount,
            expires_at: self.expires_at,
            have_postgres: self.have_postgres,
            step,
        }
    }
}

// ---------------------------------------------------------------------------
// Spending credits
// ---------------------------------------------------------------------------
/// What a spend asks for next.
#[derive(Clone, Copy, Debug, PartialEq, Eq)]
pub enum DecrementStep {
    /// Take a cache connection.
    OpenRedis,
    /// Take a store connection.
    OpenPostgres,
    /// Read the user's balance on the connections that are held.
    ReadBalance,
    /// Open a serializable read-write transaction and load the user's
    /// unexpired grants, locked for update, in ascending order of expiry.
    LoadGrants { new_total: i64 },
    /// Make the writes of the plan, in order, and commit.
    ApplyControls { new_total: i64, expiry: i64 },
    /// Leave the transaction without a write.
    Rollback,
    /// Delete the user's two cache entries.
    InvalidateCache { new_total: i64, expiry: i64 },
    /// The spend is over: the new total and the new earliest expiry, or the
    /// error.
    Finish(Result<Balance, IncrementTotalCreditsError>),
}

/// How the last step of a spend went.
#[derive(Debug)]
pub enum DecrementOutcome {
    /// The step could not be done.
    Failed,
    /// The step was done.
    Done,
    /// The balance that was read.
    Balance(Result<Balance, FetchError>),
    /// The grants that were loaded.
    Grants(Vec<CreditGrant>),
}

/// A spend under way.
#[derive(Debug)]
pub struct Decrement {
    pub user_id: i64,
    pub amount: i32,
    /// Whether the caller brought a store connection along.
    pub have_postgres: bool,
    /// The writes that the pending `ApplyControls` asks for.
    pub controls: Vec<Control>,
    /// What has to be done next.
    pub step: DecrementStep,
}

/// The error of a spend whose balance could not be read.
pub open spec fn fetch_error_as_spend_error(e: FetchError) -> IncrementTotalCreditsError {
    match e {
        FetchError::FailedToObtainRedisConnection =>
            IncrementTotalCreditsError::RedisConnectionOpenFailure,
        FetchError::FailedToObtainDatabaseConnection =>
            IncrementTotalCreditsError::PostgresConnectionOpenFailure,
        FetchError::FailedToQueryRedis => IncrementTotalCreditsError::RedisOperationFailure,
        FetchError::FailedToSetPipeline => IncrementTotalCreditsError::RedisOperationFailure,
        FetchError::DatabaseQueryFailure => IncrementTotalCreditsError::PostgresOperationFailure,
    }
}

/// The quick check in front of the transaction: a spend of a negative amount
/// is bad data, one of more than the balance read has not enough credits;
/// any other goes on to load the grants, with the total that it will leave.
pub open spec fn precheck(total: i64, amount: i32) -> DecrementStep {
    if amount < 0 {
        DecrementStep::Finish(Err(IncrementTotalCreditsError::BadData))
    } else if total < amount {
        DecrementStep::Finish(Err(IncrementTotalCreditsError::NotEnoughCredits))
    } else {
        DecrementStep::LoadGrants { new_total: (total - amount) as i64 }
    }
}

/// The expiry that a spend reports: that of the first grant it has left, and
/// `SPENT_OUT_EXPIRY` where it has left none.
pub open spec fn reported_expiry(expiry: Option<i64>) -> i64 {
    match expiry {
        Some(e) => e,
        None => SPENT_OUT_EXPIRY,
    }
}

/// The plan of a spend on the grants that the store has loaded. Grants that
/// do not come soonest to expire first are not what was asked for: there is
/// no plan for them.
pub open spec fn spend_plan(grants: Seq<CreditGrant>, amount: i32) -> Option<
    (Seq<Control>, Option<i64>),
> {
    if sorted_by_expiry(grants) {
        plan_of(grants, amount as int)
    } else {
        None
    }
}

/// The step that follows the loading of the grants: the writes of the plan,
/// or the way out of the transaction where there is no plan.
pub open spec fn after_load(amount: i32, new_total: i64, grants: Seq<CreditGrant>) -> DecrementStep {
    match spend_plan(grants, amount) {
        Some((_, expiry)) => DecrementStep::ApplyControls {
            new_total,
            expiry: reported_expiry(expiry),
        },
        None => DecrementStep::Rollback,
    }
}

/// What a spend's outcome holds, as a value of the model.
pub enum DecrementEvent {
    Failed,
    Done,
    Balance(Result<Balance, FetchError>),
    Grants(Seq<CreditGrant>),
}

impl DecrementOutcome {
    /// The outcome as a value of the model.
    pub open spec fn view(&self) -> DecrementEvent {
        match *self {
            DecrementOutcome::Failed => DecrementEvent::Failed,
            DecrementOutcome::Done => DecrementEvent::Done,
            DecrementOutcome::Balance(b) => DecrementEvent::Balance(b),
            DecrementOutcome::Grants(g) => DecrementEvent::Grants(g@),
        }
    }
}

/// The step that follows the pending one of a spend.
pub open spec fn decrement_next(
    amount: i32,
    have_postgres: bool,
    step: DecrementStep,
    event: DecrementEvent,
) -> DecrementStep {
    match step {
        DecrementStep::OpenRedis => match event {
            DecrementEvent::Done => if have_postgres {
                DecrementStep::ReadBalance
            } else {
                DecrementStep::OpenPostgres
            },
            _ => DecrementStep::Finish(Err(IncrementTotalCreditsError::RedisConnectionOpenFailure)),
        },
        DecrementStep::OpenPostgres => match event {
            DecrementEvent::Done => DecrementStep::ReadBalance,
            _ => DecrementStep::Finish(
                Err(IncrementTotalCreditsError::PostgresConnectionOpenFailure),
            ),
        },
        DecrementStep::ReadBalance => match event {
            DecrementEvent::Balance(Ok(balance)) => precheck(balance.total, amount),
            DecrementEvent::Balance(Err(e)) => DecrementStep::Finish(
                Err(fetch_error_as_spend_error(e)),
            ),
            _ => DecrementStep::Finish(Err(IncrementTotalCreditsError::RedisOperationFailure)),
        },
        DecrementStep::LoadGrants { new_total } => match event {
            DecrementEvent::Grants(grants) => after_load(amount, new_total, grants),
            _ => DecrementStep::Finish(Err(IncrementTotalCreditsError::PostgresTransactionFailure)),
        },
        DecrementStep::ApplyControls { new_total, expiry } => match event {
            DecrementEvent::Done => DecrementStep::InvalidateCache { new_total, expiry },
            _ => DecrementStep::Finish(Err(IncrementTotalCreditsError::PostgresTransactionFailure)),
        },
        DecrementStep::Rollback => DecrementStep::Finish(Err(IncrementTotalCreditsError::BadData)),
        DecrementStep::InvalidateCache { new_total, expiry } => match event {
            DecrementEvent::Done => DecrementStep::Finish(
                Ok(Balance { total: new_total, earliest_expiry: expiry }),
            ),
            _ => DecrementStep::Finish(Err(IncrementTotalCreditsError::RedisOperationFailure)),
        },
        DecrementStep::Finish(result) => DecrementStep::Finish(result),
    }
}

/// The writes that a spend holds after a step: those of the plan once the
/// grants are loaded, none before.
pub open spec fn decrement_controls(
    amount: i32,
    step: DecrementStep,
    event: DecrementEvent,
    held: Seq<Control>,
) -> Seq<Control> {
    match (step, event) {
        (DecrementStep::LoadGrants { .. }, DecrementEvent::Grants(grants)) => match spend_plan(
            grants,
            amount,
        ) {
            Some((controls, _)) => controls,
            None => Seq::empty(),
        },
        _ => held,
    }
}

/// The first step of a spend.
pub open spec fn decrement_first_step(have_redis: bool, have_postgres: bool) -> DecrementStep {
    if !have_redis {
        DecrementStep::OpenRedis
    } else if !have_postgres {
        DecrementStep::OpenPostgres
    } else {
        DecrementStep::ReadBalance
    }
}

/// Starts a spend of `amount` credits of one user.
pub fn decrement_total_credits(user_id: i64, amount: i32, have_redis: bool, have_postgres: bool) -> (r:
    Decrement)
    ensures
        r.user_id == user_id,
        r.amount == amount,
        r.have_postgres == have_postgres,
        r.controls@ == Seq::<Control>::empty(),
        r.step == decrement_first_step(have_redis, have_postgres),
{
    let step = if !have_redis {
        DecrementStep::OpenRedis
    } else if !have_postgres {
        DecrementStep::OpenPostgres
    } else {
        DecrementStep::ReadBalance
    };
    Decrement { user_id, amount, have_postgres, controls: Vec::new(), step }
}

/// The quick check of a spend against the balance that was read.
pub fn check_balance(total: i64, amount: i32) -> (r: DecrementStep)
    ensures
        r == precheck(total, amount),
{
    if amount < 0 {
        DecrementStep::Finish(Err(IncrementTotalCreditsError::BadData))
    } else if total < amount as i64 {
        DecrementStep::Finish(Err(IncrementTotalCreditsError::NotEnoughCredits))
    } else {
        DecrementStep::LoadGrants { new_total: total - amount as i64 }
    }
}

impl Decrement {
    /// The spend after its pending step went as `outcome` says. An outcome
    /// that does not belong to the step counts as its failure.
    pub fn advance(self, outcome: DecrementOutcome) -> (r: Decrement)
        ensures
            r.user_id == self.user_id,
            r.amount == self.amount,
            r.have_postgres == self.have_postgres,
            r.step == decrement_next(self.amount, self.have_postgres, self.step, outcome@),
            r.controls@ == decrement_controls(self.amount, self.step, outcome@, self.controls@),
    {
        let user_id = self.user_id;
        let amount = self.amount;
        let have_postgres = self.have_postgres;
        let mut controls = self.controls;
        let step = match self.step {
            DecrementStep::OpenRedis => match outcome {
                DecrementOutcome::Done => if have_postgres {
                    DecrementStep::ReadBalance
                } else {
                    DecrementStep::OpenPostgres
                },
                _ => DecrementStep::Finish(
                    Err(IncrementTotalCreditsError::RedisConnectionOpenFailure),
                ),
            },
            DecrementStep::OpenPostgres => match outcome {
                DecrementOutcome::Done => DecrementStep::ReadBalance,
                _ => DecrementStep::Finish(
                    Err(IncrementTotalCreditsError::PostgresConnectionOpenFailure),
                ),
            },
            DecrementStep::ReadBalance => match outcome {
                DecrementOutcome::Balance(Ok(balance)) => check_balance(balance.total, amount),
                DecrementOutcome::Balance(Err(e)) => DecrementStep::Finish(
                    Err(
                        match e {
                            FetchError::FailedToObtainRedisConnection =>
                                IncrementTotalCreditsError::RedisConnectionOpenFailure,
                            FetchError::FailedToObtainDatabaseConnection =>
                                IncrementTotalCreditsError::PostgresConnectionOpenFailure,
                            FetchError::FailedToQueryRedis =>
                                IncrementTotalCreditsError::RedisOperationFailure,
                            FetchError::FailedToSetPipeline =>
                                IncrementTotalCreditsError::RedisOperationFailure,
                            FetchError::DatabaseQueryFailure =>
                                IncrementTotalCreditsError::PostgresOperationFailure,
                        },
                    ),
                ),
                _ => DecrementStep::Finish(Err(IncrementTotalCreditsError::RedisOperationFailure)),
            },
            DecrementStep::LoadGrants { new_total } => match outcome {
                DecrementOutcome::Grants(grants) => match if is_sorted_by_expiry(&grants) {
                    plan_decrement(&grants, amount)
                } else {
                    None
                } {
                    Some(plan) => {
                        let DecrementPlan { controls: planned, next_expire_at } = plan;
                        controls = planned;
                        DecrementStep::ApplyControls {
                            new_total,
                            expiry: match next_expire_at {
                                Some(e) => e,
                                None => SPENT_OUT_EXPIRY,
                            },
                        }
                    },
                    None => {
                        controls = Vec::new();
                        DecrementStep::Rollback
                    },
                },
                _ => DecrementStep::Finish(
                    Err(IncrementTotalCreditsError::PostgresTransactionFailure),
                ),
            },
            DecrementStep::ApplyControls { new_total, expiry } => match outcome {
                DecrementOutcome::Done => DecrementStep::InvalidateCache { new_total, expiry },
                _ => DecrementStep::Finish(
                    Err(IncrementTotalCreditsError::PostgresTransactionFailure),
                ),
            },
            DecrementStep::Rollback => DecrementStep::Finish(
                Err(IncrementTotalCreditsError::BadData),
            ),
            DecrementStep::InvalidateCache { new_total, expiry } => match outcome {
                DecrementOutcome::Done => DecrementStep::Finish(
                    Ok(Balance { total: new_total, earliest_expiry: expiry }),
                ),
                _ => DecrementStep::Finish(Err(IncrementTotalCreditsError::RedisOperationFailure)),
            },
            DecrementStep::Finish(result) => DecrementStep::Finish(result),
        };
        Decrement { user_id, amount, have_postgres, controls, step }
    }
}

} // verus!
