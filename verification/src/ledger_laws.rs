//! What holds of every ledger: spending keeps the books, takes the grants
//! that expire soonest, and never takes more than there is.

use vstd::prelude::*;
use crate::ledger::{
    amounts_positive, apply_controls, consume, first_expiry, ids_distinct, ledger_wf, plan_controls,
    plan_expiry, plan_of, remove_id, set_amount, sorted_by_expiry, total, with_amount, Control,
    CreditGrant,
};

verus! {

/// A grant or a spend on one user's ledger.
pub enum LedgerOp {
    /// Add this grant.
    Increment(CreditGrant),
    /// Spend this many credits.
    Decrement(i32),
}

/// The place of a new grant: behind the leading grants that expire no later.
pub open spec fn slot(grants: Seq<CreditGrant>, g: CreditGrant) -> int
    decreases grants.len(),
{
    if grants.len() == 0 {
        0
    } else if grants[0].expires_at <= g.expires_at {
        1 + slot(grants.drop_first(), g)
    } else {
        0
    }
}

/// The ledger with a grant put behind the grants that expire no later.
pub open spec fn granted(grants: Seq<CreditGrant>, g: CreditGrant) -> Seq<CreditGrant> {
    grants.insert(slot(grants, g), g)
}

/// The ledger after a spend, where the spend is owed: the amount is not
/// negative and the ledger holds at least as much.
pub open spec fn spend(grants: Seq<CreditGrant>, amount: int) -> Option<Seq<CreditGrant>> {
    if 0 <= amount <= total(grants) {
        Some(consume(grants, amount))
    } else {
        None
    }
}

/// The ledger after one operation; a spend that is not owed leaves it as it
/// was.
pub open spec fn after_op(grants: Seq<CreditGrant>, op: LedgerOp) -> Seq<CreditGrant> {
    match op {
        LedgerOp::Increment(g) => granted(grants, g),
        LedgerOp::Decrement(amount) => match spend(grants, amount as int) {
            Some(rest) => rest,
            None => grants,
        },
    }
}

/// What one operation adds to the total: the amount of a grant, minus the
/// amount of a spend that succeeds, nothing for a spend that fails.
pub open spec fn effect(grants: Seq<CreditGrant>, op: LedgerOp) -> int {
    match op {
        LedgerOp::Increment(g) => g.amount as int,
        LedgerOp::Decrement(amount) => if spend(grants, amount as int) is Some {
            -(amount as int)
        } else {
            0
        },
    }
}

/// The ledger after a run of operations, made in order.
pub open spec fn after_ops(grants: Seq<CreditGrant>, ops: Seq<LedgerOp>) -> Seq<CreditGrant>
    decreases ops.len(),
{
    if ops.len() == 0 {
        grants
    } else {
        after_ops(after_op(grants, ops[0]), ops.drop_first())
    }
}

/// The sum of what the operations of a run add to the total.
pub open spec fn effects(grants: Seq<CreditGrant>, ops: Seq<LedgerOp>) -> int
    decreases ops.len(),
{
    if ops.len() == 0 {
        0
    } else {
        effect(grants, ops[0]) + effects(after_op(grants, ops[0]), ops.drop_first())
    }
}

/// Every grant that the run adds holds a positive amount.
pub open spec fn increments_positive(ops: Seq<LedgerOp>) -> bool {
    forall|i: int|
        0 <= i < ops.len() ==> match #[trigger] ops[i] {
            LedgerOp::Increment(g) => g.amount > 0,
            LedgerOp::Decrement(_) => true,
        }
}

/// The total of a ledger of positive amounts is not negative.
pub proof fn lemma_total_nonnegative(grants: Seq<CreditGrant>)
    requires
        amounts_positive(grants),
    ensures
        total(grants) >= 0,
        grants.len() > 0 ==> total(grants) > 0,
    decreases grants.len(),
{
    if grants.len() > 0 {
        assert(grants[0].amount > 0);
        assert forall|i: int| 0 <= i < grants.drop_first().len() implies (
        #[trigger] grants.drop_first()[i]).amount > 0 by {
            assert(grants.drop_first()[i] == grants[i + 1]);
        }
        lemma_total_nonnegative(grants.drop_first());
    }
}

/// A spend has a plan exactly when the ledger holds what it asks for.
pub proof fn lemma_plan_exists_iff_covered(grants: Seq<CreditGrant>, need: int)
    requires
        amounts_positive(grants),
    ensures
        plan_of(grants, need) is Some <==> 0 <= need <= total(grants),
    decreases grants.len(),
{
    if need >= 0 && grants.len() > 0 {
        let rest = grants.drop_first();
        assert(grants[0].amount > 0);
        assert forall|i: int| 0 <= i < rest.len() implies (#[trigger] rest[i]).amount > 0 by {
            assert(rest[i] == grants[i + 1]);
        }
        lemma_total_nonnegative(rest);
        if grants[0].amount < need {
            lemma_plan_exists_iff_covered(rest, need - grants[0].amount);
        }
    }
}

/// Taking a grant's id out of a ledger that does not hold it changes nothing.
pub proof fn lemma_remove_absent(grants: Seq<CreditGrant>, id: i32)
    requires
        forall|i: int| 0 <= i < grants.len() ==> (#[trigger] grants[i]).grant_id != id,
    ensures
        remove_id(grants, id) == grants,
    decreases grants.len(),
{
    if grants.len() > 0 {
        let rest = grants.drop_first();
        assert(grants[0].grant_id != id);
        assert forall|i: int| 0 <= i < rest.len() implies (#[trigger] rest[i]).grant_id != id by {
            assert(rest[i] == grants[i + 1]);
        }
        lemma_remove_absent(rest, id);
        assert(seq![grants[0]] + rest =~= grants);
    }
}

/// The writes of a plan, made against a well-formed ledger, leave exactly the
/// ledger that the walk describes.
pub proof fn lemma_plan_applies(grants: Seq<CreditGrant>, need: int)
    requires
        ledger_wf(grants),
        plan_of(grants, need) is Some,
    ensures
        apply_controls(grants, plan_controls(grants, need)) == consume(grants, need),
    decreases grants.len(),
{
    let controls = plan_controls(grants, need);
    if grants.len() == 0 {
        assert(controls =~= Seq::<Control>::empty());
    } else {
        let g = grants[0];
        let rest = grants.drop_first();
        assert forall|i: int| 0 <= i < rest.len() implies (#[trigger] rest[i]).grant_id
            != g.grant_id by {
            assert(rest[i] == grants[i + 1]);
        }
        lemma_remove_absent(rest, g.grant_id);
        assert(remove_id(grants, g.grant_id) == rest);
        if g.amount < need {
            let tail = plan_controls(rest, need - g.amount);
            assert(controls == seq![Control::Delete(g.grant_id)] + tail);
            assert(controls[0] == Control::Delete(g.grant_id));
            assert(controls.drop_first() =~= tail);
            assert(ledger_wf(rest)) by {
                assert forall|i: int| 0 <= i < rest.len() implies (#[trigger] rest[i]).amount
                    > 0 by {
                    assert(rest[i] == grants[i + 1]);
                }
                assert forall|i: int, j: int| 0 <= i < j < rest.len() implies (
                #[trigger] rest[i]).grant_id != (#[trigger] rest[j]).grant_id by {
                    assert(rest[i] == grants[i + 1]);
                    assert(rest[j] == grants[j + 1]);
                }
            }
            lemma_plan_applies(rest, need - g.amount);
        } else if g.amount == need {
            assert(controls == seq![Control::Delete(g.grant_id)]);
            assert(controls.drop_first() =~= Seq::<Control>::empty());
            assert(apply_controls(rest, controls.drop_first()) == rest);
        } else {
            let kept = (g.amount - need) as i32;
            assert(controls == seq![Control::Update(g.grant_id, kept)]);
            assert(controls.drop_first() =~= Seq::<Control>::empty());
            let updated = set_amount(grants, g.grant_id, kept);
            assert(updated =~= grants.update(0, with_amount(g, g.amount - need))) by {
                assert forall|i: int| 0 <= i < grants.len() implies updated[i] == grants.update(
                    0,
                    with_amount(g, g.amount - need),
                )[i] by {
                    if i > 0 {
                        assert(grants[0].grant_id != grants[i].grant_id);
                    }
                }
            }
            assert(apply_controls(updated, controls.drop_first()) == updated);
        }
    }
}

/// A spend that is owed takes exactly its amount off the total and leaves a
/// well-formed ledger in the same order.
pub proof fn lemma_consume_keeps_books(grants: Seq<CreditGrant>, need: int)
    requires
        amounts_positive(grants),
        0 <= need <= total(grants),
    ensures
        total(consume(grants, need)) == total(grants) - need,
        amounts_positive(consume(grants, need)),
        ids_distinct(grants) ==> ids_distinct(consume(grants, need)),
        sorted_by_expiry(grants) ==> sorted_by_expiry(consume(grants, need)),
    decreases grants.len(),
{
    if grants.len() > 0 {
        let g = grants[0];
        let rest = grants.drop_first();
        assert(g.amount > 0);
        assert forall|i: int| 0 <= i < rest.len() implies (#[trigger] rest[i]).amount > 0 by {
            assert(rest[i] == grants[i + 1]);
        }
        assert(ids_distinct(grants) ==> ids_distinct(rest)) by {
            if ids_distinct(grants) {
                assert forall|i: int, j: int| 0 <= i < j < rest.len() implies (
                #[trigger] rest[i]).grant_id != (#[trigger] rest[j]).grant_id by {
                    assert(rest[i] == grants[i + 1]);
                    assert(rest[j] == grants[j + 1]);
                }
            }
        }
        assert(sorted_by_expiry(grants) ==> sorted_by_expiry(rest)) by {
            if sorted_by_expiry(grants) {
                assert forall|i: int, j: int| 0 <= i <= j < rest.len() implies (
                #[trigger] rest[i]).expires_at <= (#[trigger] rest[j]).expires_at by {
                    assert(rest[i] == grants[i + 1]);
                    assert(rest[j] == grants[j + 1]);
                }
            }
        }
        if g.amount < need {
            lemma_consume_keeps_books(rest, need - g.amount);
        } else if g.amount == need {
        } else {
            let kept = grants.update(0, with_amount(g, g.amount - need));
            assert(kept.drop_first() =~= rest);
            assert(kept[0].amount == g.amount - need);
            assert forall|i: int| 0 <= i < kept.len() implies (#[trigger] kept[i]).amount > 0 by {
                if i > 0 {
                    assert(kept[i] == grants[i]);
                }
            }
            if ids_distinct(grants) {
                assert forall|i: int, j: int| 0 <= i < j < kept.len() implies (
                #[trigger] kept[i]).grant_id != (#[trigger] kept[j]).grant_id by {
                    assert(kept[i].grant_id == grants[i].grant_id);
                    assert(kept[j].grant_id == grants[j].grant_id);
                }
            }
            if sorted_by_expiry(grants) {
                assert forall|i: int, j: int| 0 <= i <= j < kept.len() implies (
                #[trigger] kept[i]).expires_at <= (#[trigger] kept[j]).expires_at by {
                    assert(kept[i].expires_at == grants[i].expires_at);
                    assert(kept[j].expires_at == grants[j].expires_at);
                }
            }
        }
    } else {
        assert(need == 0);
    }
}

/// Soonest to expire goes first: what a spend leaves is a tail of the ledger,
/// with at most its first grant made smaller; every grant in front of that
/// tail was used up whole. The expiry that the plan reports is that of the
/// first grant left, and there is none exactly where no grant is left; in a
/// ledger sorted by expiry no grant left expires sooner.
pub proof fn lemma_fifo_by_expiry(grants: Seq<CreditGrant>, need: int) -> (used: int)
    requires
        amounts_positive(grants),
        0 <= need <= total(grants),
    ensures
        0 <= used <= grants.len(),
        total(grants.take(used)) <= need,
        consume(grants, need).len() == grants.len() - used,
        forall|i: int|
            1 <= i < grants.len() - used ==> #[trigger] consume(grants, need)[i] == grants[used
                + i],
        used < grants.len() ==> consume(grants, need)[0] == with_amount(
            grants[used],
            grants[used].amount - (need - total(grants.take(used))),
        ),
        used < grants.len() ==> need - total(grants.take(used)) < grants[used].amount,
        plan_of(grants, need) is Some,
        plan_expiry(grants, need) == first_expiry(consume(grants, need)),
        plan_expiry(grants, need) == first_expiry(grants.skip(used)),
        need - total(grants.take(used)) >= 0,
        sorted_by_expiry(grants) ==> forall|i: int|
            0 <= i < consume(grants, need).len() ==> grants[used].expires_at <= (
            #[trigger] consume(grants, need)[i]).expires_at,
    decreases grants.len(),
{
    lemma_plan_exists_iff_covered(grants, need);
    if grants.len() == 0 {
        assert(grants.take(0) =~= Seq::<CreditGrant>::empty());
        assert(grants.skip(0) =~= grants);
        0
    } else {
        let g = grants[0];
        let rest = grants.drop_first();
        assert(g.amount > 0);
        assert forall|i: int| 0 <= i < rest.len() implies (#[trigger] rest[i]).amount > 0 by {
            assert(rest[i] == grants[i + 1]);
        }
        if g.amount < need {
            let inner = lemma_fifo_by_expiry(rest, need - g.amount);
            let used = inner + 1;
            assert(grants.take(used).drop_first() =~= rest.take(inner));
            assert(grants.take(used)[0] == g);
            assert(total(grants.take(used)) == g.amount + total(rest.take(inner)));
            let left = consume(grants, need);
            assert(left == consume(rest, need - g.amount));
            assert forall|i: int| 1 <= i < grants.len() - used implies #[trigger] left[i]
                == grants[used + i] by {
                assert(rest[inner + i] == grants[used + i]);
            }
            if used < grants.len() {
                assert(rest[inner] == grants[used]);
            }
            assert(rest.skip(inner) =~= grants.skip(used));
            if sorted_by_expiry(grants) {
                assert forall|i: int, j: int| 0 <= i <= j < rest.len() implies (
                #[trigger] rest[i]).expires_at <= (#[trigger] rest[j]).expires_at by {
                    assert(rest[i] == grants[i + 1]);
                    assert(rest[j] == grants[j + 1]);
                }
            }
            used
        } else if g.amount == need {
            assert(grants.take(1).drop_first() =~= Seq::<CreditGrant>::empty());
            assert(grants.take(1)[0] == g);
            assert(total(grants.take(1).drop_first()) == 0);
            assert(total(grants.take(1)) == g.amount);
            let left = consume(grants, need);
            assert forall|i: int| 1 <= i < grants.len() - 1 implies #[trigger] left[i] == grants[1
                + i] by {}
            if 1 < grants.len() {
                assert(left[0] == grants[1]);
                assert(with_amount(grants[1], grants[1].amount - 0) == grants[1]);
                assert(grants[1].amount > 0);
            }
            assert(grants.skip(1) =~= rest);
            if sorted_by_expiry(grants) && 1 < grants.len() {
                assert forall|i: int| 0 <= i < left.len() implies grants[1].expires_at <= (
                #[trigger] left[i]).expires_at by {
                    assert(left[i] == grants[i + 1]);
                    assert(grants[1].expires_at <= grants[i + 1].expires_at);
                }
            }
            1
        } else {
            assert(grants.take(0) =~= Seq::<CreditGrant>::empty());
            assert(grants.skip(0) =~= grants);
            let left = consume(grants, need);
            if sorted_by_expiry(grants) {
                assert forall|i: int| 0 <= i < left.len() implies g.expires_at <= (
                #[trigger] left[i]).expires_at by {
                    assert(left[i].expires_at == grants[i].expires_at);
                    assert(grants[0].expires_at <= grants[i].expires_at);
                }
            }
            0
        }
    }
}

/// The expiry that a spend reports is that of the first grant it leaves, and
/// it reports none exactly when it leaves no credits: when the spend took all
/// that the ledger held. In a ledger sorted by expiry the expiry reported is
/// the earliest among the grants left.
pub proof fn lemma_reported_expiry(grants: Seq<CreditGrant>, need: int)
    requires
        amounts_positive(grants),
        0 <= need <= total(grants),
    ensures
        plan_expiry(grants, need) == first_expiry(consume(grants, need)),
        plan_expiry(grants, need) is None <==> total(grants) - need == 0,
        plan_expiry(grants, need) is None <==> consume(grants, need).len() == 0,
        sorted_by_expiry(grants) ==> forall|i: int|
            0 <= i < consume(grants, need).len() ==> plan_expiry(grants, need)->0 <= (
            #[trigger] consume(grants, need)[i]).expires_at,
{
    let used = lemma_fifo_by_expiry(grants, need);
    lemma_consume_keeps_books(grants, need);
    lemma_total_nonnegative(consume(grants, need));
    if used < grants.len() {
        assert(grants.skip(used)[0] == grants[used]);
    }
}

/// The place of a new grant lies within the ledger, behind grants that expire
/// no later and in front of one that expires later.
pub proof fn lemma_slot(grants: Seq<CreditGrant>, g: CreditGrant)
    ensures
        0 <= slot(grants, g) <= grants.len(),
        forall|i: int|
            0 <= i < slot(grants, g) ==> (#[trigger] grants[i]).expires_at <= g.expires_at,
        slot(grants, g) < grants.len() ==> grants[slot(grants, g)].expires_at > g.expires_at,
    decreases grants.len(),
{
    if grants.len() > 0 && grants[0].expires_at <= g.expires_at {
        let rest = grants.drop_first();
        lemma_slot(rest, g);
        assert forall|i: int| 0 <= i < slot(grants, g) implies (#[trigger] grants[i]).expires_at
            <= g.expires_at by {
            if i > 0 {
                assert(rest[i - 1] == grants[i]);
            }
        }
        if slot(grants, g) < grants.len() {
            assert(rest[slot(rest, g)] == grants[slot(grants, g)]);
        }
    }
}

/// Putting a grant anywhere into a ledger adds its amount to the total.
pub proof fn lemma_total_insert(grants: Seq<CreditGrant>, at: int, g: CreditGrant)
    requires
        0 <= at <= grants.len(),
    ensures
        total(grants.insert(at, g)) == total(grants) + g.amount,
    decreases at,
{
    let out = grants.insert(at, g);
    if at == 0 {
        assert(out.drop_first() =~= grants);
        assert(out[0] == g);
    } else {
        let rest = grants.drop_first();
        assert(out.drop_first() =~= rest.insert(at - 1, g));
        assert(out[0] == grants[0]);
        lemma_total_insert(rest, at - 1, g);
    }
}

/// A grant adds its amount to the total and keeps the ledger's order.
pub proof fn lemma_granted_keeps_books(grants: Seq<CreditGrant>, g: CreditGrant)
    ensures
        total(granted(grants, g)) == total(grants) + g.amount,
        granted(grants, g).len() == grants.len() + 1,
        amounts_positive(grants) && g.amount > 0 ==> amounts_positive(granted(grants, g)),
        sorted_by_expiry(grants) ==> sorted_by_expiry(granted(grants, g)),
{
    let at = slot(grants, g);
    let out = granted(grants, g);
    lemma_slot(grants, g);
    lemma_total_insert(grants, at, g);
    if amounts_positive(grants) && g.amount > 0 {
        assert forall|i: int| 0 <= i < out.len() implies (#[trigger] out[i]).amount > 0 by {
            if i < at {
                assert(out[i] == grants[i]);
            } else if i > at {
                assert(out[i] == grants[i - 1]);
            }
        }
    }
    if sorted_by_expiry(grants) {
        assert forall|i: int, j: int| 0 <= i <= j < out.len() implies (
        #[trigger] out[i]).expires_at <= (#[trigger] out[j]).expires_at by {
            let a = if i < at { grants[i] } else if i == at { g } else { grants[i - 1] };
            let b = if j < at { grants[j] } else if j == at { g } else { grants[j - 1] };
            assert(out[i] == a);
            assert(out[j] == b);
            if i < at && j > at {
                assert(grants[i].expires_at <= grants[j - 1].expires_at);
            } else if i == at && j > at {
                assert(grants[at].expires_at <= grants[j - 1].expires_at);
            } else if i > at {
                assert(grants[i - 1].expires_at <= grants[j - 1].expires_at);
            } else if j < at {
                assert(grants[i].expires_at <= grants[j].expires_at);
            }
        }
    }
}

/// One operation changes the total by its effect and leaves positive amounts.
pub proof fn lemma_op_keeps_books(grants: Seq<CreditGrant>, op: LedgerOp)
    requires
        amounts_positive(grants),
        op matches LedgerOp::Increment(g) ==> g.amount > 0,
    ensures
        total(after_op(grants, op)) == total(grants) + effect(grants, op),
        amounts_positive(after_op(grants, op)),
        total(after_op(grants, op)) >= 0,
{
    match op {
        LedgerOp::Increment(g) => {
            lemma_granted_keeps_books(grants, g);
        },
        LedgerOp::Decrement(amount) => {
            if spend(grants, amount as int) is Some {
                lemma_consume_keeps_books(grants, amount as int);
            }
        },
    }
    lemma_total_nonnegative(after_op(grants, op));
}

/// After any run of grants and spends on one user's ledger, with no expiry
/// in between, the ledger's total is what it was, plus every grant, minus
/// every spend that succeeded; and it is never negative.
pub proof fn lemma_run_keeps_books(grants: Seq<CreditGrant>, ops: Seq<LedgerOp>)
    requires
        amounts_positive(grants),
        increments_positive(ops),
    ensures
        total(after_ops(grants, ops)) == total(grants) + effects(grants, ops),
        amounts_positive(after_ops(grants, ops)),
        total(after_ops(grants, ops)) >= 0,
    decreases ops.len(),
{
    if ops.len() == 0 {
        lemma_total_nonnegative(grants);
    } else {
        assert(ops[0] matches LedgerOp::Increment(g) ==> g.amount > 0);
        lemma_op_keeps_books(grants, ops[0]);
        let rest = ops.drop_first();
        assert forall|i: int| 0 <= i < rest.len() implies match #[trigger] rest[i] {
            LedgerOp::Increment(g) => g.amount > 0,
            LedgerOp::Decrement(_) => true,
        } by {
            assert(rest[i] == ops[i + 1]);
        }
        lemma_run_keeps_books(after_op(grants, ops[0]), rest);
    }
}

/// The credits that a run of spends took: the amounts of those that
/// succeeded, each tried against what the spends before it left.
pub open spec fn spent(grants: Seq<CreditGrant>, amounts: Seq<i32>) -> int
    decreases amounts.len(),
{
    if amounts.len() == 0 {
        0
    } else {
        -effect(grants, LedgerOp::Decrement(amounts[0])) + spent(
            after_op(grants, LedgerOp::Decrement(amounts[0])),
            amounts.drop_first(),
        )
    }
}

/// The ledger after a run of spends, made one after another.
pub open spec fn after_spends(grants: Seq<CreditGrant>, amounts: Seq<i32>) -> Seq<CreditGrant>
    decreases amounts.len(),
{
    if amounts.len() == 0 {
        grants
    } else {
        after_spends(after_op(grants, LedgerOp::Decrement(amounts[0])), amounts.drop_first())
    }
}

/// No double spend: in whatever order the store serialises a set of spends,
/// each succeeds exactly when what is left covers it, together they take no
/// more than the ledger held, and what is left is the difference.
pub proof fn lemma_no_double_spend(grants: Seq<CreditGrant>, amounts: Seq<i32>)
    requires
        amounts_positive(grants),
    ensures
        0 <= spent(grants, amounts) <= total(grants),
        total(after_spends(grants, amounts)) == total(grants) - spent(grants, amounts),
        amounts_positive(after_spends(grants, amounts)),
    decreases amounts.len(),
{
    if amounts.len() == 0 {
        lemma_total_nonnegative(grants);
    } else {
        let op = LedgerOp::Decrement(amounts[0]);
        lemma_op_keeps_books(grants, op);
        lemma_no_double_spend(after_op(grants, op), amounts.drop_first());
    }
}

/// A spend is what its plan writes: on a well-formed ledger the spend is
/// owed exactly when there is a plan, and the ledger after the spend is the
/// ledger after the plan's writes.
pub proof fn lemma_spend_is_the_plan(grants: Seq<CreditGrant>, amount: int)
    requires
        ledger_wf(grants),
    ensures
        spend(grants, amount) is Some <==> plan_of(grants, amount) is Some,
        spend(grants, amount) matches Some(left) ==> left == apply_controls(
            grants,
            plan_controls(grants, amount),
        ) && total(left) == total(grants) - amount && ledger_wf(left),
{
    lemma_plan_exists_iff_covered(grants, amount);
    if plan_of(grants, amount) is Some {
        lemma_plan_applies(grants, amount);
        lemma_consume_keeps_books(grants, amount);
    }
}

} // verus!
