//! The credit ledger as a value: grants, the plan that spends from them
//! soonest-to-expire first, and what the ledger holds afterwards.
//!
//! A ledger is the sequence of one user's unexpired grants in the order in
//! which the store hands them out for spending: ascending by expiry.

use vstd::prelude::*;

verus! {

/// One addition of credits with its own expiry (seconds since the epoch).
#[derive(Clone, Copy, Debug, PartialEq, Eq, Structural)]
pub struct CreditGrant {
    pub grant_id: i32,
    pub user_id: i64,
    pub amount: i32,
    pub expires_at: i64,
}

/// One write to the store that a spend asks for.
#[derive(Clone, Copy, Debug, PartialEq, Eq, Structural)]
pub enum Control {
    /// Remove the grant with this id.
    Delete(i32),
    /// Set the amount of the grant with this id.
    Update(i32, i32),
}

/// The writes of one spend, in the order in which they are made, and the
/// expiry of the first grant that the spend leaves, if it leaves one.
#[derive(Debug)]
pub struct DecrementPlan {
    pub controls: Vec<Control>,
    pub next_expire_at: Option<i64>,
}

/// The sum of the amounts of all grants.
pub open spec fn total(grants: Seq<CreditGrant>) -> int
    decreases grants.len(),
{
    if grants.len() == 0 {
        0
    } else {
        grants[0].amount + total(grants.drop_first())
    }
}

/// Every grant holds a positive amount.
pub open spec fn amounts_positive(grants: Seq<CreditGrant>) -> bool {
    forall|i: int| 0 <= i < grants.len() ==> (#[trigger] grants[i]).amount > 0
}

/// No two grants share an id.
pub open spec fn ids_distinct(grants: Seq<CreditGrant>) -> bool {
    forall|i: int, j: int|
        0 <= i < j < grants.len() ==> (#[trigger] grants[i]).grant_id != (
        #[trigger] grants[j]).grant_id
}

/// The grants come in ascending order of expiry.
pub open spec fn sorted_by_expiry(grants: Seq<CreditGrant>) -> bool {
    forall|i: int, j: int|
        0 <= i <= j < grants.len() ==> (#[trigger] grants[i]).expires_at <= (
        #[trigger] grants[j]).expires_at
}

/// A ledger as the store keeps it: positive amounts, ids that are keys.
pub open spec fn ledger_wf(grants: Seq<CreditGrant>) -> bool {
    amounts_positive(grants) && ids_distinct(grants)
}

/// The grant with another amount.
pub open spec fn with_amount(g: CreditGrant, amount: int) -> CreditGrant {
    CreditGrant { grant_id: g.grant_id, user_id: g.user_id, amount: amount as i32, expires_at: g.expires_at }
}

/// The ledger after `need` credits were taken from its front: a grant smaller
/// than what is still needed goes and the walk moves on, one that is equal
/// goes and the walk ends, a larger one keeps the difference.
pub open spec fn consume(grants: Seq<CreditGrant>, need: int) -> Seq<CreditGrant>
    decreases grants.len(),
{
    if grants.len() == 0 {
        grants
    } else if grants[0].amount < need {
        consume(grants.drop_first(), need - grants[0].amount)
    } else if grants[0].amount == need {
        grants.drop_first()
    } else {
        grants.update(0, with_amount(grants[0], grants[0].amount - need))
    }
}

/// The expiry of the first grant of a ledger; none for a ledger without a
/// grant.
pub open spec fn first_expiry(grants: Seq<CreditGrant>) -> Option<i64> {
    if grants.len() == 0 {
        None
    } else {
        Some(grants[0].expires_at)
    }
}

/// The writes that take `need` credits from the front of the ledger, and the
/// expiry that is reported with them: that of the first grant that the spend
/// leaves, be it spent from in part or not at all, and none where the spend
/// leaves no grant. There is no plan when the need is negative, when a grant
/// that the walk reaches holds no positive amount, or when the grants run
/// out before the need is met.
pub open spec fn plan_of(grants: Seq<CreditGrant>, need: int) -> Option<(Seq<Control>, Option<i64>)>
    decreases grants.len(),
{
    if need < 0 {
        None
    } else if grants.len() == 0 {
        if need > 0 {
            None
        } else {
            Some((Seq::empty(), None))
        }
    } else if grants[0].amount <= 0 {
        None
    } else if grants[0].amount < need {
        match plan_of(grants.drop_first(), need - grants[0].amount) {
            None => None,
            Some((rest, expiry)) => Some((seq![Control::Delete(grants[0].grant_id)] + rest, expiry)),
        }
    } else if grants[0].amount == need {
        Some((seq![Control::Delete(grants[0].grant_id)], first_expiry(grants.drop_first())))
    } else {
        Some(
            (
                seq![Control::Update(grants[0].grant_id, (grants[0].amount - need) as i32)],
                Some(grants[0].expires_at),
            ),
        )
    }
}

/// The writes of the plan; none where there is no plan.
pub open spec fn plan_controls(grants: Seq<CreditGrant>, need: int) -> Seq<Control> {
    match plan_of(grants, need) {
        Some((controls, _)) => controls,
        None => Seq::empty(),
    }
}

/// The expiry that the plan reports; none where there is no plan.
pub open spec fn plan_expiry(grants: Seq<CreditGrant>, need: int) -> Option<i64> {
    match plan_of(grants, need) {
        Some((_, expiry)) => expiry,
        None => None,
    }
}

/// A plan with writes put in front of it.
pub open spec fn after_prefix(
    prefix: Seq<Control>,
    plan: Option<(Seq<Control>, Option<i64>)>,
) -> Option<(Seq<Control>, Option<i64>)> {
    match plan {
        None => None,
        Some((rest, expiry)) => Some((prefix + rest, expiry)),
    }
}

/// The ledger without the grants of one id.
pub open spec fn remove_id(grants: Seq<CreditGrant>, id: i32) -> Seq<CreditGrant>
    decreases grants.len(),
{
    if grants.len() == 0 {
        grants
    } else if grants[0].grant_id == id {
        remove_id(grants.drop_first(), id)
    } else {
        seq![grants[0]] + remove_id(grants.drop_first(), id)
    }
}

/// The ledger with a new amount in the grants of one id.
pub open spec fn set_amount(grants: Seq<CreditGrant>, id: i32, amount: i32) -> Seq<CreditGrant> {
    Seq::new(
        grants.len(),
        |i: int|
            if grants[i].grant_id == id {
                with_amount(grants[i], amount as int)
            } else {
                grants[i]
            },
    )
}

/// What one write does to the ledger.
pub open spec fn apply_control(grants: Seq<CreditGrant>, control: Control) -> Seq<CreditGrant> {
    match control {
        Control::Delete(id) => remove_id(grants, id),
        Control::Update(id, amount) => set_amount(grants, id, amount),
    }
}

/// What a row of writes does to the ledger, made in order.
pub open spec fn apply_controls(grants: Seq<CreditGrant>, controls: Seq<Control>) -> Seq<CreditGrant>
    decreases controls.len(),
{
    if controls.len() == 0 {
        grants
    } else {
        apply_controls(apply_control(grants, controls[0]), controls.drop_first())
    }
}

/// Plans a spend of `amount` credits from grants given soonest-to-expire
/// first. The plan is the one that `plan_of` describes; there is none exactly
/// when `plan_of` has none.
pub fn plan_decrement(grants: &Vec<CreditGrant>, amount: i32) -> (r: Option<DecrementPlan>)
    ensures
        match r {
            Some(p) => plan_of(grants@, amount as int) == Some((p.controls@, p.next_expire_at)),
            None => plan_of(grants@, amount as int) is None,
        },
{
    if amount < 0 {
        return None;
    }
    let mut drain: i32 = amount;
    let mut controls: Vec<Control> = Vec::new();
    let mut i: usize = 0;
    assert(grants@.skip(0) =~= grants@);
    while i < grants.len()
        invariant
            i <= grants.len(),
            0 <= drain,
            plan_of(grants@, amount as int) == after_prefix(
                controls@,
                plan_of(grants@.skip(i as int), drain as int),
            ),
        decreases grants.len() - i,
    {
        let g = grants[i];
        proof {
            let rest = grants@.skip(i as int);
            assert(rest[0] == g);
            assert(rest.drop_first() =~= grants@.skip(i + 1));
        }
        if g.amount <= 0 {
            return None;
        } else if g.amount < drain {
            let ghost before = controls@;
            controls.push(Control::Delete(g.grant_id));
            proof {
                let tail = plan_of(grants@.skip(i + 1), drain - g.amount);
                match tail {
                    Some((rest_controls, _)) => {
                        assert(before + (seq![Control::Delete(g.grant_id)] + rest_controls)
                            =~= controls@ + rest_controls);
                    },
                    None => {},
                }
            }
            drain = drain - g.amount;
        } else if g.amount == drain {
            let ghost before = controls@;
            controls.push(Control::Delete(g.grant_id));
            assert(before + seq![Control::Delete(g.grant_id)] =~= controls@);
            // The grant behind this one is the first that is left.
            let next_expire_at = if i + 1 < grants.len() {
                proof {
                    assert(grants@.skip(i + 1)[0] == grants@[i + 1]);
                }
                Some(grants[i + 1].expires_at)
            } else {
                None
            };
            return Some(DecrementPlan { controls, next_expire_at });
        } else {
            let ghost before = controls@;
            controls.push(Control::Update(g.grant_id, g.amount - drain));
            assert(before + seq![Control::Update(g.grant_id, (g.amount - drain) as i32)]
                =~= controls@);
            return Some(DecrementPlan { controls, next_expire_at: Some(g.expires_at) });
        }
        i += 1;
    }
    if drain > 0 {
        None
    } else {
        assert(controls@ + Seq::<Control>::empty() =~= controls@);
        Some(DecrementPlan { controls, next_expire_at: None })
    }
}

/// Whether the grants come in ascending order of expiry.
pub fn is_sorted_by_expiry(grants: &Vec<CreditGrant>) -> (r: bool)
    ensures
        r == sorted_by_expiry(grants@),
{
    let mut i: usize = 1;
    while i < grants.len()
        invariant
            1 <= i,
            forall|a: int, b: int|
                0 <= a <= b < i && b < grants@.len() ==> (#[trigger] grants@[a]).expires_at <= (
                #[trigger] grants@[b]).expires_at,
        decreases grants.len() - i,
    {
        if grants[i - 1].expires_at > grants[i].expires_at {
            assert(!(grants@[i - 1].expires_at <= grants@[i as int].expires_at));
            return false;
        }
        proof {
            assert forall|a: int, b: int| 0 <= a <= b < i + 1 && b < grants@.len() implies (
            #[trigger] grants@[a]).expires_at <= (#[trigger] grants@[b]).expires_at by {
                if b == i && a < i {
                    assert(grants@[a].expires_at <= grants@[i - 1].expires_at);
                }
            }
        }
        i += 1;
    }
    true
}

/// The sum of the amounts held by the grants.
pub fn total_credits(grants: &Vec<CreditGrant>) -> (r: Option<i64>)
    ensures
        match r {
            Some(t) => t == total(grants@),
            None => total(grants@) < i64::MIN || total(grants@) > i64::MAX,
        },
{
    let mut sum: i128 = 0;
    let mut i: usize = grants.len();
    assert(grants@.skip(i as int) =~= Seq::<CreditGrant>::empty());
    while i > 0
        invariant
            i <= grants.len(),
            sum == total(grants@.skip(i as int)),
            -2147483648 * (grants.len() - i) <= sum <= 2147483647 * (grants.len() - i),
        decreases i,
    {
        i -= 1;
        proof {
            let rest = grants@.skip(i as int);
            assert(rest.drop_first() =~= grants@.skip(i + 1));
            assert(rest[0] == grants@[i as int]);
        }
        sum = sum + grants[i].amount as i128;
    }
    assert(grants@.skip(0) =~= grants@);
    if sum < i64::MIN as i128 || sum > i64::MAX as i128 {
        None
    } else {
        Some(sum as i64)
    }
}

} // verus!
