use rapidl::jobs::{decide, JobRequest, Verdict};
use rapidl::status::{GenerationStatus, SupportTicketState, SupportWhoAreYou};

use GenerationStatus::{Deleting, Failed, Success, Waiting, Working};

#[test]
fn a_claim() {
    assert_eq!(decide(Waiting, JobRequest::Claim), Verdict::Move(Working));
    assert_eq!(decide(Working, JobRequest::Claim), Verdict::Ignore);
    assert_eq!(decide(Deleting, JobRequest::Claim), Verdict::RefundAndRemove);
    assert_eq!(decide(Success, JobRequest::Claim), Verdict::Ignore);
    assert_eq!(decide(Failed, JobRequest::Claim), Verdict::Ignore);
}

#[test]
fn an_end_of_the_work() {
    assert_eq!(decide(Working, JobRequest::Complete), Verdict::Move(Success));
    assert_eq!(decide(Working, JobRequest::Fail), Verdict::RefundAndMove(Failed));
    for status in [Waiting, Deleting, Success, Failed] {
        assert_eq!(decide(status, JobRequest::Complete), Verdict::Ignore);
        assert_eq!(decide(status, JobRequest::Fail), Verdict::Ignore);
    }
}

#[test]
fn what_the_owner_may_ask() {
    assert_eq!(decide(Waiting, JobRequest::Delete), Verdict::Move(Deleting));
    assert_eq!(decide(Success, JobRequest::Delete), Verdict::RemoveWithArtifact);
    for status in [Working, Failed, Deleting] {
        assert_eq!(decide(status, JobRequest::Delete), Verdict::Refuse);
    }
    assert_eq!(decide(Failed, JobRequest::Retry), Verdict::DebitAndMove(Waiting));
    for status in [Waiting, Working, Success, Deleting] {
        assert_eq!(decide(status, JobRequest::Retry), Verdict::Refuse);
    }
}

fn after(status: Option<GenerationStatus>, request: JobRequest) -> (Option<GenerationStatus>, bool) {
    match status {
        None => (None, false),
        Some(s) => match decide(s, request) {
            Verdict::Move(next) | Verdict::DebitAndMove(next) => (Some(next), false),
            Verdict::RefundAndMove(next) => (Some(next), true),
            Verdict::RefundAndRemove => (None, true),
            Verdict::RemoveWithArtifact => (None, false),
            Verdict::Ignore | Verdict::Refuse => (status, false),
        },
    }
}

#[test]
fn every_run_of_four_requests_refunds_and_finishes_at_most_once() {
    let requests = [JobRequest::Claim, JobRequest::Complete, JobRequest::Fail, JobRequest::Delete];
    for start in [Waiting, Working, Deleting, Success, Failed] {
        for code in 0..(4usize.pow(6)) {
            let mut status = Some(start);
            let mut refunds = 0;
            let mut finishes = 0;
            let mut c = code;
            for _ in 0..6 {
                let request = requests[c % 4];
                c /= 4;
                let (next, refund) = after(status, request);
                if refund {
                    refunds += 1;
                }
                if status == Some(Working) && matches!(next, Some(Success) | Some(Failed)) {
                    finishes += 1;
                }
                status = next;
            }
            assert!(refunds <= 1 && finishes <= 1);
            if status == Some(Success) {
                assert_eq!(refunds, 0);
            }
        }
    }
}

#[test]
fn labels_of_states() {
    for status in [Working, Success, Failed, Deleting, Waiting] {
        assert_eq!(status.label(), format!("{:?}", status));
        assert_eq!(GenerationStatus::from_label(status.label()), Some(status));
    }
    assert_eq!(GenerationStatus::from_label("working"), None);
    assert_eq!(GenerationStatus::from_label(""), None);
    assert_ne!(SupportTicketState::Unclaimed, SupportTicketState::Claimed);
    assert_ne!(SupportTicketState::Claimed, SupportTicketState::Closed);
    assert_ne!(SupportWhoAreYou::Student, SupportWhoAreYou::Unknown);
}
