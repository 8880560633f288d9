use quantpilot::ai_proposal::RuntimeApprovalReviewState;
use quantpilot::listing::{keeps_review_state, keeps_source, keeps_status, newest_first_order};
use quantpilot::mutation::RuntimeEvidenceSourceKind;
use quantpilot::proposal::RuntimeAiProposalStatus;

fn keys(items: &[(u64, &str)]) -> Vec<(u64, String)> {
    items.iter().map(|(t, id)| (*t, id.to_string())).collect()
}

#[test]
fn records_are_listed_newest_first() {
    assert_eq!(newest_first_order(&keys(&[(1, ""), (3, ""), (2, "")])), vec![1, 2, 0]);
    assert_eq!(newest_first_order(&keys(&[])), Vec::<usize>::new());
}

#[test]
fn ties_go_to_the_larger_id_then_to_the_first_read() {
    assert_eq!(newest_first_order(&keys(&[(5, "pm_a"), (5, "pm_c"), (5, "pm_b"), (7, "pm_a")])), vec![3, 1, 2, 0]);
    assert_eq!(newest_first_order(&keys(&[(5, "x"), (5, "x"), (4, "z"), (5, "x")])), vec![0, 1, 3, 2]);
}

#[test]
fn list_filters_keep_what_they_name() {
    assert!(keeps_source(RuntimeEvidenceSourceKind::Run, "run_1", None, None));
    assert!(keeps_source(RuntimeEvidenceSourceKind::Run, "run_1", Some(RuntimeEvidenceSourceKind::Run), Some("run_1")));
    assert!(!keeps_source(RuntimeEvidenceSourceKind::Run, "run_1", Some(RuntimeEvidenceSourceKind::Backtest), None));
    assert!(!keeps_source(RuntimeEvidenceSourceKind::Backtest, "bt_1", None, Some("bt_2")));
    assert!(keeps_status(RuntimeAiProposalStatus::Approved, None));
    assert!(keeps_status(RuntimeAiProposalStatus::Approved, Some(RuntimeAiProposalStatus::Approved)));
    assert!(!keeps_status(RuntimeAiProposalStatus::Denied, Some(RuntimeAiProposalStatus::Approved)));
    assert!(keeps_review_state(RuntimeApprovalReviewState::UnderReview, "UnderReview"));
    assert!(keeps_review_state(RuntimeApprovalReviewState::Pending, "PENDING"));
    assert!(!keeps_review_state(RuntimeApprovalReviewState::Pending, "under_review"));
}
