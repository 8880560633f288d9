use quantpilot::ai_proposal::{
    ai_proposal_approval_gate, approve_runtime_approval, build_runtime_ai_proposal_event,
    claim_runtime_approval, new_runtime_approval, plan_runtime_ai_proposal, record_sandbox_outcome,
    reject_runtime_approval, sandbox_retry_step, update_ai_proposal_status, validate_runtime_ai_proposal_request,
    RuntimeAiProposalSourceContext, RuntimeApprovalReviewState, SandboxRetryStep,
};
use quantpilot::events::{ActorIdentity, RuntimeGovernanceSnapshot, RuntimePermissionBoundary};
use quantpilot::json::JsonValue;
use quantpilot::mutation::{RuntimeEvidenceSourceKind, RuntimeParameterMutationTarget};
use quantpilot::proposal::{
    CreateRuntimeAiProposalRequest, RuntimeAiModelIdentity, RuntimeAiProposalConfigDomainBinding,
    RuntimeAiProposalStatus, StrategyConfigProposalDomain,
};

fn hash(ch: char) -> String {
    format!("sha256:{}", ch.to_string().repeat(64))
}

fn governance() -> RuntimeGovernanceSnapshot {
    RuntimeGovernanceSnapshot {
        capability_hash: hash('e'),
        strategy_version: "v1".to_string(),
        parameter_version: hash('b'),
        deployment_revision: hash('f'),
        governance_source: "deployment".to_string(),
        permission_boundary: RuntimePermissionBoundary {
            model_version: "quantpilot/permission-boundary/v1".to_string(),
            ai_write_policy: "proposal_only".to_string(),
        },
    }
}

fn request(source_kind: RuntimeEvidenceSourceKind, binding: bool) -> CreateRuntimeAiProposalRequest {
    CreateRuntimeAiProposalRequest {
        source_kind,
        source_id: "run-1".to_string(),
        target: RuntimeParameterMutationTarget {
            node_id: "risk".to_string(),
            module_key: "builtin.risk.global".to_string(),
            parameter_path: "max_position".to_string(),
        },
        old_value: JsonValue::Number("1".to_string()),
        new_value: JsonValue::Number("2".to_string()),
        model: RuntimeAiModelIdentity {
            provider: "test".to_string(),
            model: "local".to_string(),
            model_version: "v1".to_string(),
        },
        prompt_hash: hash('d'),
        evidence_hash: hash('a'),
        actor: Some(ActorIdentity { actor_id: "ai".to_string(), display_name: "AI".to_string() }),
        reason: " tighten ".to_string(),
        config_domain_binding: if binding {
            Some(RuntimeAiProposalConfigDomainBinding {
                target_domain: StrategyConfigProposalDomain::Risk,
                before_digest: hash('b'),
                after_digest: hash('c'),
                evidence_anchor_ids: vec!["run:run-1".to_string()],
            })
        } else {
            None
        },
    }
}

fn source() -> RuntimeAiProposalSourceContext {
    RuntimeAiProposalSourceContext {
        graph_id: "graph-1".to_string(),
        event_count: 3,
        current_sequence_no: 3,
        governance: governance(),
    }
}

fn supported() -> Vec<String> {
    vec!["builtin.risk.global".to_string()]
}

#[test]
fn requests_are_checked_in_order() {
    let req = request(RuntimeEvidenceSourceKind::Run, true);
    assert!(validate_runtime_ai_proposal_request(&req, " proposal_only ", &supported()).is_ok());
    let e = validate_runtime_ai_proposal_request(&req, "direct_write", &supported()).unwrap_err();
    assert_eq!((e.code.as_str(), e.message.as_str()), ("ai_proposal_denied", "AI 写入策略必须为 proposal_only 才能创建提案"));
    let mut req2 = request(RuntimeEvidenceSourceKind::Run, true);
    req2.old_value = JsonValue::Null;
    assert_eq!(validate_runtime_ai_proposal_request(&req2, "proposal_only", &supported()).unwrap_err().message, "AI 提案候选需要旧值");
    let mut req3 = request(RuntimeEvidenceSourceKind::Run, true);
    req3.prompt_hash = "sha256:nope".to_string();
    assert_eq!(
        validate_runtime_ai_proposal_request(&req3, "proposal_only", &supported()).unwrap_err().message,
        "prompt_hash 必须为 sha256:<64位小写十六进制> 格式 (AI proposal candidates)"
    );
    let mut req4 = request(RuntimeEvidenceSourceKind::Run, true);
    req4.actor = None;
    assert_eq!(validate_runtime_ai_proposal_request(&req4, "proposal_only", &supported()).unwrap_err().message, "AI 提案候选需要指定操作者");
}

#[test]
fn passing_candidate_gets_events_and_an_approval() {
    let plan = plan_runtime_ai_proposal(
        request(RuntimeEvidenceSourceKind::Run, true),
        "proposal_only",
        &supported(),
        &source(),
        hash('b'),
        hash('c'),
        "ai_proposal_7_abc".to_string(),
        false,
        4,
        7,
    )
    .unwrap();
    assert_eq!(plan.record.status, RuntimeAiProposalStatus::StaticCheckPassed);
    assert_eq!(plan.record.reason, "tighten");
    assert!(plan.append_to_run);
    assert_eq!(plan.events.len(), 2);
    assert_eq!(plan.events[0].0.event_type, "AIProposalCreated");
    assert_eq!(plan.events[0].0.event_id, "event_ai_proposal_7_abc_AI_PROPOSAL_CREATED_7");
    assert_eq!(plan.events[1].0.event_type, "AIProposalStaticCheckPassed");
    assert_eq!(plan.events[1].0.event_time_ms, 8);
    assert_eq!(plan.record.lifecycle[0].sequence_no, 4);
    assert_eq!(plan.record.lifecycle[1].sequence_no, 5);
    assert_eq!(plan.record.lifecycle[1].message, "AI 提案候选通过静态校验");
    let approval = plan.approval.unwrap();
    assert_eq!(approval.approval_id, "apr-7-4");
    assert_eq!(approval.review_state, RuntimeApprovalReviewState::Pending);
    assert_eq!(approval.expires_at_ms, 7 + 86_400_000);
    assert_eq!(approval.reviewers_assigned, vec!["pm-strategy-btc".to_string()]);
}

#[test]
fn failing_candidate_gets_no_approval() {
    let plan = plan_runtime_ai_proposal(
        request(RuntimeEvidenceSourceKind::Backtest, false),
        "proposal_only",
        &supported(),
        &source(),
        hash('b'),
        hash('c'),
        "ai_proposal_7_abc".to_string(),
        false,
        0,
        7,
    )
    .unwrap();
    assert_eq!(plan.record.status, RuntimeAiProposalStatus::StaticCheckFailed);
    assert!(!plan.append_to_run);
    assert!(plan.approval.is_none());
    assert_eq!(plan.events[1].0.severity, "Warn");
    assert_eq!(plan.events[1].0.summary, "AI proposal static check failed for risk.max_position");
}

#[test]
fn approval_gate_needs_binding_check_and_sandbox() {
    let plan = plan_runtime_ai_proposal(
        request(RuntimeEvidenceSourceKind::Run, true),
        "proposal_only",
        &supported(),
        &source(),
        hash('b'),
        hash('c'),
        "p".to_string(),
        false,
        0,
        7,
    )
    .unwrap();
    let mut record = plan.record;
    assert_eq!(ai_proposal_approval_gate(&record, None).unwrap_err().code, "ai_proposal_sandbox_required");
    assert_eq!(ai_proposal_approval_gate(&record, Some(true)).unwrap_err().code, "ai_proposal_sandbox_failed");
    assert_eq!(ai_proposal_approval_gate(&record, Some(false)), Ok(()));
    assert_eq!(ai_proposal_approval_gate(&record, Some(false)).is_ok(), true);
    record.config_domain_binding = None;
    let e = ai_proposal_approval_gate(&record, Some(false)).unwrap_err();
    assert_eq!((e.status, e.code.as_str()), (423, "strategy_config_ai_binding_required"));

    assert!(update_ai_proposal_status(&mut record, RuntimeAiProposalStatus::Approved, 9));
    assert_eq!(record.updated_at_ms, 9);
    assert!(!update_ai_proposal_status(&mut record, RuntimeAiProposalStatus::Denied, 10));
    assert_eq!(record.status, RuntimeAiProposalStatus::Approved);
    let event = build_runtime_ai_proposal_event(&record, RuntimeAiProposalStatus::Approved, 11);
    assert_eq!(event.event_type, "AIProposalApproved");
}

#[test]
fn approval_state_machine() {
    let approval = new_runtime_approval("p1", 0, 100);
    let claimed = claim_runtime_approval(approval.clone(), "bob".to_string(), 101).unwrap();
    assert_eq!(claimed.review_state, RuntimeApprovalReviewState::UnderReview);
    assert_eq!(claimed.reviewers_assigned, vec!["pm-strategy-btc".to_string(), "bob".to_string()]);
    assert_eq!(claimed.lifecycle[1].sequence_no, 2);
    assert_eq!(claimed.lifecycle[1].message, "审批人 bob 认领审批单");
    assert_eq!(
        claim_runtime_approval(claimed.clone(), "eve".to_string(), 102).unwrap_err().code,
        "invalid_approval_state"
    );

    let mut two = claimed.clone();
    two.reviewers_required = 2;
    let (partial, granted) = approve_runtime_approval(two, "bob".to_string(), 103).unwrap();
    assert!(!granted);
    assert_eq!(partial.review_state, RuntimeApprovalReviewState::UnderReview);
    assert_eq!(partial.lifecycle[2].message, "部分通过: 1/2 审批人同意");
    assert_eq!(partial.lifecycle[2].event_id, "event_approval_review_103");
    let (again, granted) = approve_runtime_approval(partial, "bob".to_string(), 104).unwrap();
    assert!(!granted);
    assert_eq!(again.reviewers_approved.len(), 1);
    let (done, granted) = approve_runtime_approval(again, "carol".to_string(), 105).unwrap();
    assert!(granted);
    assert_eq!(done.review_state, RuntimeApprovalReviewState::Approved);
    assert_eq!(done.lifecycle[4].message, "审批通过: 2/2 审批人同意");
    assert_eq!(done.lifecycle[4].sequence_no, 5);
    let e = reject_runtime_approval(done, "dave".to_string(), None, 106).unwrap_err();
    assert_eq!((e.code.as_str(), e.message.as_str()), ("INVALID_APPROVAL_STATE", "审批单不在可审查状态"));

    let rejected = reject_runtime_approval(claimed, "bob".to_string(), None, 107).unwrap();
    assert_eq!(rejected.review_state, RuntimeApprovalReviewState::Rejected);
    assert_eq!(rejected.lifecycle[2].message, "审批拒绝");
    assert_eq!(rejected.reviewers_rejected, vec!["bob".to_string()]);
    assert!(approve_runtime_approval(rejected, "bob".to_string(), 108).is_err());
}

#[test]
fn sandbox_outcome_is_recorded() {
    let mut approval = new_runtime_approval("p1", 0, 100);
    record_sandbox_outcome(&mut approval, true, 200);
    assert_eq!(approval.sandbox_report_url.as_deref(), Some("/api/v1/ai/proposals/p1/sandbox-report"));
    assert_eq!(approval.lifecycle.len(), 1);
    record_sandbox_outcome(&mut approval, false, 300);
    assert_eq!(approval.lifecycle.len(), 2);
    assert_eq!(approval.lifecycle[1].reason_code, "SANDBOX_VERIFICATION_FAILED");
    assert_eq!(approval.lifecycle[1].review_state, RuntimeApprovalReviewState::Pending);
}

#[test]
fn sandbox_verification_is_tried_three_times_with_growing_pauses() {
    assert_eq!(sandbox_retry_step(0, true), SandboxRetryStep::Finished(true));
    assert_eq!(sandbox_retry_step(0, false), SandboxRetryStep::RetryAfterMs(500));
    assert_eq!(sandbox_retry_step(1, false), SandboxRetryStep::RetryAfterMs(1000));
    assert_eq!(sandbox_retry_step(2, false), SandboxRetryStep::Finished(false));
    assert_eq!(sandbox_retry_step(2, true), SandboxRetryStep::Finished(true));
}

#[test]
fn approved_proposals_take_the_approved_status() {
    assert_eq!(quantpilot::proposal::ai_proposal_approved_status(), RuntimeAiProposalStatus::Approved);
}

#[test]
fn weekly_audit_counts_approvals_by_review_state() {
    let mut approvals = Vec::new();
    for (i, state) in [
        RuntimeApprovalReviewState::Approved,
        RuntimeApprovalReviewState::Pending,
        RuntimeApprovalReviewState::Approved,
        RuntimeApprovalReviewState::Expired,
        RuntimeApprovalReviewState::Rejected,
        RuntimeApprovalReviewState::UnderReview,
    ]
    .into_iter()
    .enumerate()
    {
        let mut a = new_runtime_approval(&format!("p{}", i), i as u64, 10);
        a.review_state = state;
        approvals.push(a);
    }
    assert_eq!(quantpilot::report_ops::approval_review_counts(&approvals), (2, 1, 1));
    assert_eq!(quantpilot::report_ops::approval_review_counts(&vec![]), (0, 0, 0));
}
