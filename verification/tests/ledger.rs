use rapidl::ledger::{is_sorted_by_expiry, plan_decrement, total_credits, Control, CreditGrant};

fn grant(grant_id: i32, amount: i32, expires_at: i64) -> CreditGrant {
    CreditGrant { grant_id, user_id: 7, amount, expires_at }
}

const HOUR: i64 = 3600;

#[test]
fn spend_takes_soonest_to_expire_first() {
    let t = 1_000;
    let grants = vec![grant(1, 10, t + HOUR), grant(2, 5, t + 2 * HOUR)];
    let plan = plan_decrement(&grants, 12).expect("covered");
    assert_eq!(plan.controls, vec![Control::Delete(1), Control::Update(2, 3)]);
    assert_eq!(plan.next_expire_at, Some(t + 2 * HOUR));
    assert_eq!(total_credits(&grants), Some(15));
}

#[test]
fn spend_of_a_whole_grant_reports_the_expiry_of_the_next() {
    let grants = vec![grant(1, 10, 50), grant(2, 5, 60), grant(3, 7, 90)];
    let plan = plan_decrement(&grants, 10).expect("covered");
    assert_eq!(plan.controls, vec![Control::Delete(1)]);
    assert_eq!(plan.next_expire_at, Some(60));
    let two = plan_decrement(&grants, 15).expect("covered");
    assert_eq!(two.controls, vec![Control::Delete(1), Control::Delete(2)]);
    assert_eq!(two.next_expire_at, Some(90));
}

#[test]
fn spend_of_everything_reports_no_expiry() {
    let grants = vec![grant(1, 10, 50), grant(2, 5, 60)];
    let all = plan_decrement(&grants, 15).expect("covered");
    assert_eq!(all.controls, vec![Control::Delete(1), Control::Delete(2)]);
    assert_eq!(all.next_expire_at, None);
    let one = plan_decrement(&vec![grant(4, 3, 50)], 3).expect("covered");
    assert_eq!(one.controls, vec![Control::Delete(4)]);
    assert_eq!(one.next_expire_at, None);
}

#[test]
fn order_by_expiry() {
    assert!(is_sorted_by_expiry(&vec![]));
    assert!(is_sorted_by_expiry(&vec![grant(1, 1, 50)]));
    assert!(is_sorted_by_expiry(&vec![grant(1, 1, 50), grant(2, 1, 50), grant(3, 1, 51)]));
    assert!(!is_sorted_by_expiry(&vec![grant(1, 1, 50), grant(2, 1, 49)]));
    assert!(!is_sorted_by_expiry(&vec![grant(1, 1, 50), grant(2, 1, 60), grant(3, 1, 55)]));
}

#[test]
fn spend_from_the_first_grant_only() {
    let grants = vec![grant(4, 10, 50), grant(9, 5, 60)];
    let plan = plan_decrement(&grants, 3).expect("covered");
    assert_eq!(plan.controls, vec![Control::Update(4, 7)]);
    assert_eq!(plan.next_expire_at, Some(50));
}

#[test]
fn spend_of_nothing_writes_the_first_grant_back() {
    let grants = vec![grant(4, 10, 50)];
    let plan = plan_decrement(&grants, 0).expect("covered");
    assert_eq!(plan.controls, vec![Control::Update(4, 10)]);
    assert_eq!(plan.next_expire_at, Some(50));
    let none = plan_decrement(&vec![], 0).expect("nothing to do");
    assert!(none.controls.is_empty());
    assert_eq!(none.next_expire_at, None);
}

#[test]
fn no_plan_for_more_than_there_is() {
    let grants = vec![grant(1, 10, 50), grant(2, 5, 60)];
    assert!(plan_decrement(&grants, 16).is_none());
    assert!(plan_decrement(&vec![], 1).is_none());
}

#[test]
fn no_plan_for_a_negative_amount_or_a_corrupt_row() {
    let grants = vec![grant(1, 10, 50)];
    assert!(plan_decrement(&grants, -1).is_none());
    let corrupt = vec![grant(1, 0, 50), grant(2, 5, 60)];
    assert!(plan_decrement(&corrupt, 3).is_none());
    let negative = vec![grant(1, 2, 50), grant(2, -5, 60), grant(3, 9, 70)];
    assert!(plan_decrement(&negative, 3).is_none());
    // A corrupt row behind the last grant that the walk reaches is not seen.
    assert!(plan_decrement(&negative, 2).is_some());
}

#[test]
fn totals() {
    assert_eq!(total_credits(&vec![]), Some(0));
    assert_eq!(total_credits(&vec![grant(1, i32::MAX, 1), grant(2, i32::MAX, 2)]), Some(2 * (i32::MAX as i64)));
    assert_eq!(total_credits(&vec![grant(1, -3, 1), grant(2, 2, 2)]), Some(-1));
}
