//! What holds of the ledger service: a grant or a spend reports success only
//! after the cached balance is gone, and a read that finds no cached balance
//! answers from the ledger itself.

use vstd::prelude::*;
use crate::credits::{
    balance_next, decrement_next, increment_first_step, increment_next, snapshot_ttl, Balance,
    BalanceOutcome, BalanceStep, DecrementEvent, DecrementStep, FetchError, Increment,
    IncrementStep, IncrementTotalCreditsError, StepOutcome, NO_GRANTS_EXPIRY, SPENT_OUT_EXPIRY,
};
use crate::ledger::{amounts_positive, consume, sorted_by_expiry, total, CreditGrant};
use crate::ledger_laws::{
    granted, lemma_consume_keeps_books, lemma_plan_exists_iff_covered, lemma_reported_expiry,
    lemma_slot, slot,
};

verus! {

/// The grants that have not expired at `now`, in their order.
pub open spec fn live(grants: Seq<CreditGrant>, now: i64) -> Seq<CreditGrant>
    decreases grants.len(),
{
    if grants.len() == 0 {
        grants
    } else if grants[0].expires_at > now {
        seq![grants[0]] + live(grants.drop_first(), now)
    } else {
        live(grants.drop_first(), now)
    }
}

/// The earliest expiry among the grants; that of no grants is `i64::MAX`.
pub open spec fn earliest(grants: Seq<CreditGrant>) -> i64
    decreases grants.len(),
{
    if grants.len() == 0 {
        i64::MAX
    } else if grants[0].expires_at <= earliest(grants.drop_first()) {
        grants[0].expires_at
    } else {
        earliest(grants.drop_first())
    }
}

/// What the store answers to the ledger query at `now`: the sum and the
/// earliest expiry of the unexpired grants, both absent where there is none.
pub open spec fn aggregate(grants: Seq<CreditGrant>, now: i64) -> BalanceOutcome {
    if live(grants, now).len() == 0 {
        BalanceOutcome::Aggregated { sum: None, earliest: None }
    } else {
        BalanceOutcome::Aggregated {
            sum: Some(total(live(grants, now)) as i64),
            earliest: Some(earliest(live(grants, now))),
        }
    }
}

/// The end of a balance read at `now` in which no step fails, against a
/// cache that holds `cached` and a ledger that holds `grants`.
pub open spec fn healthy_read(
    now: i64,
    cached_expire: Option<i64>,
    cached_credits: Option<i64>,
    grants: Seq<CreditGrant>,
) -> BalanceStep {
    let opened = balance_next(now, false, BalanceStep::OpenRedis, BalanceOutcome::Opened);
    let looked = balance_next(
        now,
        false,
        opened,
        BalanceOutcome::Cached { expire: cached_expire, credits: cached_credits },
    );
    if looked matches BalanceStep::Finish(_) {
        looked
    } else {
        let connected = balance_next(now, false, looked, BalanceOutcome::Opened);
        let asked = balance_next(now, false, connected, aggregate(grants, now));
        if asked matches BalanceStep::Finish(_) {
            asked
        } else {
            balance_next(now, false, asked, BalanceOutcome::Written)
        }
    }
}

/// The balance of a ledger at `now`.
pub open spec fn true_balance(grants: Seq<CreditGrant>, now: i64) -> Balance {
    if live(grants, now).len() == 0 {
        Balance { total: 0, earliest_expiry: NO_GRANTS_EXPIRY }
    } else {
        Balance {
            total: total(live(grants, now)) as i64,
            earliest_expiry: earliest(live(grants, now)),
        }
    }
}

/// What is written to the cache is what the store has just answered, for
/// the time that is left until the earliest expiry, and never for less than
/// a second; and a balance is returned from the store only after it was
/// written to the cache, unless it is the balance of no grants.
pub proof fn lemma_snapshot_is_what_was_read(
    now: i64,
    with_conn: bool,
    step: BalanceStep,
    outcome: BalanceOutcome,
)
    ensures
        balance_next(now, with_conn, step, outcome) matches BalanceStep::WriteCache {
            total,
            expiry,
            ttl,
        } ==> step == BalanceStep::QueryLedger && outcome == (BalanceOutcome::Aggregated {
            sum: Some(total),
            earliest: Some(expiry),
        }) && ttl == snapshot_ttl(expiry, now) && ttl >= 1 && (1 <= expiry - now <= i64::MAX
            ==> ttl == expiry - now),
        balance_next(now, with_conn, step, outcome) matches BalanceStep::Finish(Ok(balance))
            ==> (step matches BalanceStep::Finish(_)) || (step == BalanceStep::ReadCache
            && balance.earliest_expiry > now) || (step == (BalanceStep::WriteCache {
            total: balance.total,
            expiry: balance.earliest_expiry,
            ttl: step->ttl,
        }) && outcome == BalanceOutcome::Written) || (step == BalanceStep::QueryLedger && balance
            == (Balance { total: 0, earliest_expiry: NO_GRANTS_EXPIRY })),
{
}

/// A grant reports success only from the deletion of the cached balance, and
/// that deletion follows the insertion of the grant: once a grant has
/// succeeded, the cache holds no balance older than it.
pub proof fn lemma_grant_invalidates(run: Increment, outcome: StepOutcome)
    ensures
        increment_next(run, outcome) matches IncrementStep::Finish(Ok(_)) ==> (
        run.step matches IncrementStep::Finish(_)) || (
        run.step matches IncrementStep::InvalidateCache { .. } && outcome == StepOutcome::Done),
        increment_next(run, outcome) matches IncrementStep::InvalidateCache { user_id }
            ==> user_id == run.user_id && (run.step matches IncrementStep::InsertGrant { .. })
            && outcome == StepOutcome::Done,
        increment_next(run, outcome) matches IncrementStep::InsertGrant {
            user_id,
            amount,
            expires_at,
        } ==> user_id == run.user_id && amount == run.amount && expires_at == run.expires_at
            && amount > 0,
{
}

/// No grant of a non-positive amount is ever asked for: such a grant is over
/// with `BadData` before its first step, whatever connections are held.
pub proof fn lemma_grant_is_positive(
    user_id: i64,
    amount: i32,
    expires_at: i64,
    have_redis: bool,
    have_postgres: bool,
)
    ensures
        amount <= 0 ==> increment_first_step(user_id, amount, expires_at, have_redis, have_postgres)
            == IncrementStep::Finish(Err(IncrementTotalCreditsError::BadData)),
        increment_first_step(
            user_id,
            amount,
            expires_at,
            have_redis,
            have_postgres,
        ) matches IncrementStep::InsertGrant { amount: asked, .. } ==> asked == amount && amount > 0,
{
}

/// A spend reports success only from the deletion of the cached balance,
/// that deletion follows the commit of the writes, and the writes follow the
/// loading of the grants under lock; the total it reports is the one that
/// the check in front of the transaction worked out.
pub proof fn lemma_spend_invalidates(
    amount: i32,
    have_postgres: bool,
    step: DecrementStep,
    event: DecrementEvent,
)
    ensures
        decrement_next(amount, have_postgres, step, event) matches DecrementStep::Finish(
            Ok(balance),
        ) ==> (step matches DecrementStep::Finish(_)) || (
        step matches DecrementStep::InvalidateCache { new_total, expiry } && event
            == DecrementEvent::Done && balance == (Balance {
            total: new_total,
            earliest_expiry: expiry,
        })),
        decrement_next(amount, have_postgres, step, event) matches DecrementStep::InvalidateCache {
            new_total,
            expiry,
        } ==> step == (DecrementStep::ApplyControls { new_total, expiry }) && event
            == DecrementEvent::Done,
        decrement_next(amount, have_postgres, step, event) matches DecrementStep::ApplyControls {
            new_total,
            ..
        } ==> step == (DecrementStep::LoadGrants { new_total }) && (
        event matches DecrementEvent::Grants(_)),
        decrement_next(amount, have_postgres, step, event) matches DecrementStep::LoadGrants {
            new_total,
        } ==> step == DecrementStep::ReadBalance && (event matches DecrementEvent::Balance(
            Ok(balance),
        ) && 0 <= amount <= balance.total && new_total == balance.total - amount),
{
}

/// A read that finds no cached balance, or one whose expiry has passed,
/// returns the balance of the ledger; a cached balance that has not expired
/// is returned as it is.
pub proof fn lemma_read_answers(
    now: i64,
    cached_expire: Option<i64>,
    cached_credits: Option<i64>,
    grants: Seq<CreditGrant>,
)
    requires
        i64::MIN <= total(live(grants, now)) <= i64::MAX,
    ensures
        match (cached_expire, cached_credits) {
            (Some(e), Some(c)) if e > now => healthy_read(now, cached_expire, cached_credits, grants)
                == BalanceStep::Finish(Ok(Balance { total: c, earliest_expiry: e })),
            _ => healthy_read(now, cached_expire, cached_credits, grants) == BalanceStep::Finish(
                Ok(true_balance(grants, now)),
            ),
        },
{
}

/// The unexpired part of a ledger with one grant more holds that grant's
/// amount more, if the grant has not expired, and the same otherwise.
pub proof fn lemma_live_total_insert(grants: Seq<CreditGrant>, at: int, g: CreditGrant, now: i64)
    requires
        0 <= at <= grants.len(),
    ensures
        total(live(grants.insert(at, g), now)) == total(live(grants, now)) + (if g.expires_at
            > now {
            g.amount as int
        } else {
            0
        }),
        live(grants.insert(at, g), now).len() == live(grants, now).len() + (if g.expires_at
            > now {
            1int
        } else {
            0
        }),
    decreases at,
{
    let out = grants.insert(at, g);
    if at == 0 {
        assert(out.drop_first() =~= grants);
        assert(out[0] == g);
        if g.expires_at > now {
            let kept = seq![g] + live(grants, now);
            assert(kept.drop_first() =~= live(grants, now));
            assert(kept[0] == g);
        }
    } else {
        let rest = grants.drop_first();
        assert(out.drop_first() =~= rest.insert(at - 1, g));
        assert(out[0] == grants[0]);
        lemma_live_total_insert(rest, at - 1, g, now);
        if grants[0].expires_at > now {
            let a = seq![grants[0]] + live(rest.insert(at - 1, g), now);
            let b = seq![grants[0]] + live(rest, now);
            assert(a.drop_first() =~= live(rest.insert(at - 1, g), now));
            assert(b.drop_first() =~= live(rest, now));
            assert(a[0] == grants[0]);
            assert(b[0] == grants[0]);
        }
    }
}

/// After a grant has succeeded, the next read shows it, whatever the cache
/// held before: the cached balance is gone, so the read answers from the
/// ledger, and the ledger holds the new grant.
pub proof fn lemma_read_reflects_grant(grants: Seq<CreditGrant>, g: CreditGrant, now: i64)
    requires
        g.expires_at > now,
        i64::MIN <= total(live(grants, now)) + g.amount <= i64::MAX,
    ensures
        healthy_read(now, None, None, granted(grants, g)) matches BalanceStep::Finish(Ok(balance))
            && balance.total == total(live(grants, now)) + g.amount,
{
    lemma_slot(grants, g);
    lemma_live_total_insert(grants, slot(grants, g), g, now);
    lemma_read_answers(now, None, None, granted(grants, g));
}

/// After a spend has succeeded, the next read shows it, whatever the cache
/// held before: it answers from the ledger, which holds the amount less.
/// The grants are those that the spend loaded: unexpired, amounts positive.
pub proof fn lemma_read_reflects_spend(grants: Seq<CreditGrant>, amount: int, now: i64)
    requires
        amounts_positive(grants),
        live(grants, now) == grants,
        0 <= amount <= total(grants),
        total(grants) <= i64::MAX,
    ensures
        healthy_read(now, None, None, consume(grants, amount)) matches BalanceStep::Finish(
            Ok(balance),
        ) && balance.total == total(grants) - amount,
{
    lemma_consume_keeps_books(grants, amount);
    lemma_consume_stays_live(grants, amount, now);
    lemma_read_answers(now, None, None, consume(grants, amount));
    let left = consume(grants, amount);
    if left.len() == 0 {
        assert(total(left) == 0);
    }
}

/// Spending from unexpired grants leaves unexpired grants.
pub proof fn lemma_consume_stays_live(grants: Seq<CreditGrant>, amount: int, now: i64)
    requires
        live(grants, now) == grants,
    ensures
        live(consume(grants, amount), now) == consume(grants, amount),
    decreases grants.len(),
{
    if grants.len() > 0 {
        let rest = grants.drop_first();
        lemma_live_is_shorter(rest, now);
        if grants[0].expires_at > now {
            let kept = seq![grants[0]] + live(rest, now);
            assert(kept.drop_first() =~= live(rest, now));
            assert(live(rest, now) == rest);
        } else {
            assert(live(rest, now).len() == grants.len());
        }
        if grants[0].amount < amount {
            lemma_consume_stays_live(rest, amount - grants[0].amount, now);
        } else if grants[0].amount == amount {
        } else {
            let left = consume(grants, amount);
            assert(left.drop_first() =~= rest);
            assert(left[0].expires_at > now);
            assert(seq![left[0]] + rest =~= left);
        }
    }
}

/// The unexpired part of a ledger is no longer than the ledger.
pub proof fn lemma_live_is_shorter(grants: Seq<CreditGrant>, now: i64)
    ensures
        live(grants, now).len() <= grants.len(),
    decreases grants.len(),
{
    if grants.len() > 0 {
        lemma_live_is_shorter(grants.drop_first(), now);
    }
}

/// The end of a spend of `amount` on held connections in which no step
/// fails: the balance read is `read`, the grants loaded are `grants`.
pub open spec fn healthy_spend(amount: i32, read: Balance, grants: Seq<CreditGrant>)
    -> DecrementStep {
    let checked = decrement_next(
        amount,
        true,
        DecrementStep::ReadBalance,
        DecrementEvent::Balance(Ok::<Balance, FetchError>(read)),
    );
    if checked matches DecrementStep::Finish(_) {
        checked
    } else {
        let planned = decrement_next(amount, true, checked, DecrementEvent::Grants(grants));
        let written = decrement_next(amount, true, planned, DecrementEvent::Done);
        if written matches DecrementStep::Finish(_) {
            written
        } else {
            decrement_next(amount, true, written, DecrementEvent::Done)
        }
    }
}

/// The expiry that a spend of `amount` from the grants reports: that of the
/// first grant left, and `SPENT_OUT_EXPIRY` where the spend takes all.
pub open spec fn expiry_after(grants: Seq<CreditGrant>, amount: int) -> i64 {
    if consume(grants, amount).len() == 0 {
        SPENT_OUT_EXPIRY
    } else {
        consume(grants, amount)[0].expires_at
    }
}

/// A spend in which no step fails ends in one of four ways. A negative
/// amount is bad data. More than the balance read is not enough credits.
/// Grants that do not come soonest to expire first, or that hold less than
/// the amount, which another spend may have caused since the balance was
/// read, are bad data, with nothing written. Anything else succeeds, and
/// reports the balance read less the amount, with the expiry of the first
/// grant left, which is the earliest of those left; the expiry that stands
/// for no credits is reported only where the spend took all that there was.
pub proof fn lemma_spend_answers(amount: i32, read: Balance, grants: Seq<CreditGrant>)
    requires
        amounts_positive(grants),
    ensures
        healthy_spend(amount, read, grants) == (if amount < 0 {
            DecrementStep::Finish(Err(IncrementTotalCreditsError::BadData))
        } else if read.total < amount {
            DecrementStep::Finish(Err(IncrementTotalCreditsError::NotEnoughCredits))
        } else if !sorted_by_expiry(grants) || total(grants) < amount {
            DecrementStep::Finish(Err(IncrementTotalCreditsError::BadData))
        } else {
            DecrementStep::Finish(
                Ok(
                    Balance {
                        total: (read.total - amount) as i64,
                        earliest_expiry: expiry_after(grants, amount as int),
                    },
                ),
            )
        }),
        sorted_by_expiry(grants) && 0 <= amount <= total(grants) ==> (consume(
            grants,
            amount as int,
        ).len() == 0 <==> total(grants) == amount) && forall|i: int|
            0 <= i < consume(grants, amount as int).len() ==> expiry_after(grants, amount as int)
                <= (#[trigger] consume(grants, amount as int)[i]).expires_at,
{
    lemma_plan_exists_iff_covered(grants, amount as int);
    if 0 <= amount <= total(grants) {
        lemma_reported_expiry(grants, amount as int);
    }
}

} // verus!
