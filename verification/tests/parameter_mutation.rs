use quantpilot::events::{ActorIdentity, FrontendRuntimeEvent, RuntimeGovernanceSnapshot, RuntimePermissionBoundary};
use quantpilot::json::JsonValue;
use quantpilot::mutation::{
    append_parameter_mutation_events, build_runtime_parameter_mutation_event, check_activation_status,
    check_rollback_status, current_sequence_no, evaluate_runtime_parameter_mutation_safe_window,
    ledger_value_at_version, mutation_event_contract, plan_runtime_parameter_mutation_activation,
    plan_runtime_parameter_mutation_rollback, resolve_runtime_parameter_mutation_boundary,
    runtime_mode_from_events, runtime_parameter_mutation_proposal, sequence_cursor_value,
    status_contract_value, validate_runtime_parameter_mutation_boundary,
    validate_runtime_parameter_mutation_target, ActivateRuntimeParameterMutationRequest,
    CreateRuntimeParameterMutationRequest, RollbackRuntimeParameterMutationRequest,
    RuntimeEvidenceSourceKind, RuntimeParameterMutationBoundary, RuntimeParameterMutationRecord,
    RuntimeParameterMutationSafeWindowSnapshot, RuntimeParameterMutationStatus,
    RuntimeParameterMutationTarget,
};

fn boundary(requested: &str, seq: Option<u64>) -> RuntimeParameterMutationBoundary {
    RuntimeParameterMutationBoundary { requested: requested.to_string(), resolved_sequence_no: seq }
}

fn governance(version: &str) -> RuntimeGovernanceSnapshot {
    RuntimeGovernanceSnapshot {
        capability_hash: "sha256:cap".to_string(),
        strategy_version: "strategy-1".to_string(),
        parameter_version: version.to_string(),
        deployment_revision: "rev-1".to_string(),
        governance_source: "deployment".to_string(),
        permission_boundary: RuntimePermissionBoundary {
            model_version: "pb-1".to_string(),
            ai_write_policy: "proposal_only".to_string(),
        },
    }
}

fn target() -> RuntimeParameterMutationTarget {
    RuntimeParameterMutationTarget {
        node_id: "risk".to_string(),
        module_key: "builtin.risk.global".to_string(),
        parameter_path: "max_position".to_string(),
    }
}

fn actor(id: &str) -> ActorIdentity {
    ActorIdentity { actor_id: id.to_string(), display_name: id.to_uppercase() }
}

fn open_window() -> RuntimeParameterMutationSafeWindowSnapshot {
    RuntimeParameterMutationSafeWindowSnapshot {
        policy_version: "sw-1".to_string(),
        runtime_status: "paused".to_string(),
        open_order_count: 0,
        outstanding_risk_violation: false,
        data_freshness_ms: 1_000,
        portfolio_exposure_bps: -500,
        cooldown_remaining_ms: 0,
    }
}

fn supported() -> Vec<String> {
    vec!["builtin.risk.global".to_string(), "builtin.data.kline".to_string()]
}

fn proposal(old: &str, new: &str) -> RuntimeParameterMutationRecord {
    let request = CreateRuntimeParameterMutationRequest {
        source_kind: RuntimeEvidenceSourceKind::Run,
        source_id: "run-1".to_string(),
        target: target(),
        old_value: JsonValue::Number("1".to_string()),
        new_value: JsonValue::Number("2".to_string()),
        activation_boundary: boundary("next_cycle_start", None),
        actor: Some(actor("alice")),
        reason: "  tighten risk  ".to_string(),
    };
    let (record, event, gov) = runtime_parameter_mutation_proposal(
        request,
        &supported(),
        &governance(old),
        "graph-1".to_string(),
        old.to_string(),
        new.to_string(),
        "parameter_mutation_100_abc".to_string(),
        100,
    )
    .unwrap();
    assert_eq!(event.event_time_ms, 100);
    assert_eq!(gov.parameter_version, old);
    record
}

#[test]
fn boundaries_are_validated_and_resolved() {
    assert!(validate_runtime_parameter_mutation_boundary(&boundary("next_cycle_start", None)).is_ok());
    assert!(validate_runtime_parameter_mutation_boundary(&boundary(" manual_pause ", None)).is_ok());
    assert!(validate_runtime_parameter_mutation_boundary(&boundary("sequence_cursor", Some(4))).is_ok());
    assert!(validate_runtime_parameter_mutation_boundary(&boundary("sequence_cursor:12", None)).is_ok());
    let e = validate_runtime_parameter_mutation_boundary(&boundary("  ", None)).unwrap_err();
    assert_eq!((e.status, e.code.as_str()), (400, "bad_request"));
    let e = validate_runtime_parameter_mutation_boundary(&boundary("immediate", None)).unwrap_err();
    assert_eq!(e.code, "parameter_mutation_boundary_violation");
    assert!(e.message.contains("不支持立即激活"));
    let e = validate_runtime_parameter_mutation_boundary(&boundary("sequence_cursor", None)).unwrap_err();
    assert!(e.message.starts_with("不支持的激活边界"));
    assert!(validate_runtime_parameter_mutation_boundary(&boundary("sequence_cursor:x", None)).is_err());

    let r = resolve_runtime_parameter_mutation_boundary(&boundary("next_cycle_start", Some(1)), 7).unwrap();
    assert_eq!((r.requested.as_str(), r.resolved_sequence_no), ("next_cycle_start", Some(9)));
    let r = resolve_runtime_parameter_mutation_boundary(&boundary("manual_pause", Some(1)), 7).unwrap();
    assert_eq!((r.requested.as_str(), r.resolved_sequence_no), ("manual_pause", None));
    let r = resolve_runtime_parameter_mutation_boundary(&boundary("sequence_cursor:12", None), 7).unwrap();
    assert_eq!((r.requested.as_str(), r.resolved_sequence_no), ("sequence_cursor", Some(12)));
    let r = resolve_runtime_parameter_mutation_boundary(&boundary("sequence_cursor:12", Some(3)), 7).unwrap();
    assert_eq!(r.resolved_sequence_no, Some(3));
    assert_eq!(sequence_cursor_value("sequence_cursor:+5"), Some(5));
    assert_eq!(sequence_cursor_value("sequence_cursor:"), None);
}

#[test]
fn safe_window_reasons_in_order() {
    let w = evaluate_runtime_parameter_mutation_safe_window(Some(open_window()));
    assert!(w.allowed && !w.retryable);
    assert_eq!((w.status.as_str(), w.reason_code.as_str()), ("allowed", "SAFE_WINDOW_OPEN"));

    let w = evaluate_runtime_parameter_mutation_safe_window(None);
    assert!(!w.allowed && w.retryable);
    assert_eq!(w.reason_code, "SAFE_WINDOW_RUNTIME_ACTIVE");
    assert_eq!(w.message, "运行时状态 `` 不符合参数变更条件");

    let mut s = open_window();
    s.open_order_count = 3;
    s.cooldown_remaining_ms = 10;
    let w = evaluate_runtime_parameter_mutation_safe_window(Some(s));
    assert_eq!(w.reason_code, "SAFE_WINDOW_OPEN_ORDERS");
    assert_eq!(w.message, "3 笔未结订单必须结算后才可变更参数");
    assert_eq!(w.retry_after_ms, None);

    let mut s = open_window();
    s.portfolio_exposure_bps = -10_001;
    let w = evaluate_runtime_parameter_mutation_safe_window(Some(s));
    assert_eq!(w.message, "组合敞口 -10001bps 超出安全窗口限制");

    let mut s = open_window();
    s.data_freshness_ms = 60_001;
    assert_eq!(
        evaluate_runtime_parameter_mutation_safe_window(Some(s)).reason_code,
        "SAFE_WINDOW_STALE_DATA"
    );

    let mut s = open_window();
    s.cooldown_remaining_ms = 250;
    let w = evaluate_runtime_parameter_mutation_safe_window(Some(s));
    assert_eq!(w.reason_code, "SAFE_WINDOW_COOLDOWN");
    assert_eq!(w.retry_after_ms, Some(250));
    assert_eq!(w.message, "变更冷却还剩 250ms");
    assert_eq!(w.status, "denied");
}

#[test]
fn targets_need_fields_and_a_supported_module() {
    assert!(validate_runtime_parameter_mutation_target(&target(), &supported()).is_ok());
    let mut t = target();
    t.module_key = "builtin.custom".to_string();
    let e = validate_runtime_parameter_mutation_target(&t, &supported()).unwrap_err();
    assert_eq!(e.code, "capability_gated");
    assert_eq!(e.message, "模块 `builtin.custom` 未启用以支持运行时参数变更提案");
    t.node_id = " ".to_string();
    let e = validate_runtime_parameter_mutation_target(&t, &supported()).unwrap_err();
    assert_eq!(e.message, "target.node_id 是运行时参数变更提案的必填字段");
}

#[test]
fn proposals_are_rejected_when_versions_match() {
    let record = proposal("sha256:v1", "sha256:v2");
    assert_eq!(record.status, RuntimeParameterMutationStatus::Proposed);
    assert_eq!(record.reason, "tighten risk");
    assert_eq!(record.rejection_reason, None);
    let noop = proposal("sha256:v1", "sha256:v1");
    assert_eq!(noop.status, RuntimeParameterMutationStatus::Rejected);
    assert_eq!(noop.rejection_reason.as_deref(), Some("旧值和新值解析为相同的规范参数版本"));

    let request = CreateRuntimeParameterMutationRequest {
        source_kind: RuntimeEvidenceSourceKind::Backtest,
        source_id: "bt".to_string(),
        target: target(),
        old_value: JsonValue::Null,
        new_value: JsonValue::Null,
        activation_boundary: boundary("next_cycle_start", None),
        actor: None,
        reason: String::new(),
    };
    let e = runtime_parameter_mutation_proposal(
        request,
        &supported(),
        &governance("v"),
        String::new(),
        "a".to_string(),
        "b".to_string(),
        "id".to_string(),
        1,
    )
    .unwrap_err();
    assert_eq!(e.message, "参数变更提案目前需要 source_kind 为 `run`");
}

#[test]
fn mutation_event_shape() {
    let record = proposal("sha256:v1", "sha256:v2");
    let event = build_runtime_parameter_mutation_event(&record, RuntimeParameterMutationStatus::SafeWindowDenied, 42);
    assert_eq!(event.event_id, "event_parameter_mutation_100_abc_safe_window_denied_42");
    assert_eq!(event.event_type, "ParameterMutationSafeWindowDenied");
    assert_eq!(event.severity, "Warn");
    assert_eq!(event.summary, "Parameter mutation safe window denied for risk.max_position");
    assert_eq!(event.source_id, "builtin.risk.global");
    match &event.payload {
        JsonValue::Object(entries) => {
            let status = entries.iter().find(|(k, _)| k == "status").unwrap();
            assert!(matches!(&status.1, JsonValue::Str(s) if s == "safe_window_denied"));
            let code = entries.iter().find(|(k, _)| k == "reason_code").unwrap();
            assert!(matches!(&code.1, JsonValue::Str(s) if s == "PARAMETER_MUTATION_SAFE_WINDOW_DENIED"));
        }
        _ => panic!("payload should be an object"),
    }
    assert_eq!(status_contract_value(RuntimeParameterMutationStatus::RolledBack), "rolled_back");
    assert_eq!(
        mutation_event_contract(RuntimeParameterMutationStatus::ActivationScheduled),
        ("ParameterMutationActivationScheduled", "PARAMETER_MUTATION_ACTIVATION_SCHEDULED")
    );
}

#[test]
fn activation_at_next_cycle_start_completes_at_once() {
    let record = proposal("sha256:v1", "sha256:v2");
    let request = ActivateRuntimeParameterMutationRequest {
        activation_boundary: None,
        actor: Some(actor("bob")),
        safe_window_context: Some(open_window()),
    };
    let t = plan_runtime_parameter_mutation_activation(record, 5, &governance("sha256:v1"), request, 1_000).unwrap();
    assert!(t.refusal.is_none());
    assert_eq!(t.record.status, RuntimeParameterMutationStatus::Activated);
    assert_eq!(t.record.actor.actor_id, "bob");
    assert_eq!(t.record.updated_at_ms, 1_001);
    assert_eq!(t.active_parameter_version.as_deref(), Some("sha256:v2"));
    let state = t.record.activation_state.as_ref().unwrap();
    assert_eq!(state.resolved_sequence_no, Some(7));
    assert_eq!(state.activated_at_ms, Some(1_001));
    assert_eq!(state.observation_deadline_ms, Some(61_000));
    assert_eq!(t.events.len(), 2);
    assert_eq!(t.events[0].1.parameter_version, "sha256:v1");
    assert_eq!(t.events[1].1.parameter_version, "sha256:v2");
    let seqs: Vec<u64> = t.record.lifecycle.iter().map(|e| e.sequence_no).collect();
    assert_eq!(seqs, vec![6, 7]);
    assert_eq!(t.record.lifecycle[1].reason_code, "PARAMETER_MUTATION_ACTIVATED");
}

#[test]
fn activation_behind_the_cursor_fails_and_manual_pause_waits() {
    let record = proposal("sha256:v1", "sha256:v2");
    let request = ActivateRuntimeParameterMutationRequest {
        activation_boundary: Some(boundary("sequence_cursor:6", None)),
        actor: None,
        safe_window_context: Some(open_window()),
    };
    let t = plan_runtime_parameter_mutation_activation(record, 5, &governance("sha256:v1"), request, 10).unwrap();
    assert_eq!(t.record.status, RuntimeParameterMutationStatus::ActivationFailed);
    assert_eq!(
        t.record.activation_state.as_ref().unwrap().failure_reason.as_deref(),
        Some("resolved boundary is not after the scheduling event")
    );
    assert_eq!(t.events[1].1.parameter_version, "sha256:v1");
    assert!(t.active_parameter_version.is_none());

    let record = proposal("sha256:v1", "sha256:v2");
    let request = ActivateRuntimeParameterMutationRequest {
        activation_boundary: Some(boundary("manual_pause", None)),
        actor: None,
        safe_window_context: Some(open_window()),
    };
    let t = plan_runtime_parameter_mutation_activation(record, 5, &governance("sha256:v1"), request, 10).unwrap();
    assert_eq!(t.record.status, RuntimeParameterMutationStatus::ActivationScheduled);
    assert_eq!(t.events.len(), 1);
    assert_eq!(t.record.updated_at_ms, 10);
}

#[test]
fn activation_refusals() {
    let record = proposal("sha256:v1", "sha256:v2");
    let request = ActivateRuntimeParameterMutationRequest {
        activation_boundary: None,
        actor: None,
        safe_window_context: None,
    };
    let t = plan_runtime_parameter_mutation_activation(record, 5, &governance("sha256:v1"), request, 10).unwrap();
    assert_eq!(t.record.status, RuntimeParameterMutationStatus::SafeWindowDenied);
    let refusal = t.refusal.unwrap();
    assert_eq!(refusal.code, "parameter_mutation_safe_window_denied");
    assert_eq!(t.record.lifecycle[0].sequence_no, 6);
    assert_eq!(t.events.len(), 1);

    let noop = proposal("sha256:v1", "sha256:v1");
    assert!(check_activation_status(&noop).is_err());
    let request = ActivateRuntimeParameterMutationRequest {
        activation_boundary: None,
        actor: None,
        safe_window_context: Some(open_window()),
    };
    let e = plan_runtime_parameter_mutation_activation(noop, 5, &governance("sha256:v1"), request, 10).unwrap_err();
    assert_eq!(e.message, "仅 proposed 或 safe_window_denied 状态的参数变更可以激活");
}

#[test]
fn rollback_returns_to_the_previous_version() {
    let record = proposal("sha256:v1", "sha256:v2");
    let activation = ActivateRuntimeParameterMutationRequest {
        activation_boundary: None,
        actor: None,
        safe_window_context: Some(open_window()),
    };
    let activated = plan_runtime_parameter_mutation_activation(record, 5, &governance("sha256:v1"), activation, 10)
        .unwrap()
        .record;
    assert!(check_rollback_status(&activated).is_ok());
    let ledger = vec![activated.clone()];
    assert!(matches!(
        ledger_value_at_version(&ledger, "run-1", &target(), "sha256:v1"),
        Some(JsonValue::Number(n)) if n == "1"
    ));
    assert!(ledger_value_at_version(&ledger, "run-2", &target(), "sha256:v1").is_none());

    let request = RollbackRuntimeParameterMutationRequest {
        target_parameter_version: None,
        activation_boundary: Some(boundary("next_cycle_start", None)),
        actor: None,
        reason: None,
        safe_window_context: Some(open_window()),
    };
    let t = plan_runtime_parameter_mutation_rollback(
        &activated,
        &ledger,
        7,
        &governance("sha256:v2"),
        request,
        "parameter_rollback_20_x".to_string(),
        20,
    )
    .unwrap();
    assert_eq!(t.record.status, RuntimeParameterMutationStatus::RolledBack);
    assert_eq!(t.record.reason, "Rollback parameter_mutation_100_abc");
    assert_eq!(t.record.rollback_of.as_deref(), Some("parameter_mutation_100_abc"));
    assert_eq!(t.record.old_parameter_version, "sha256:v2");
    assert_eq!(t.active_parameter_version.as_deref(), Some("sha256:v1"));
    assert!(matches!(&t.record.new_value, JsonValue::Number(n) if n == "1"));
    assert_eq!(t.record.activation_state.as_ref().unwrap().observation_deadline_ms, None);
    let seqs: Vec<u64> = t.record.lifecycle.iter().map(|e| e.sequence_no).collect();
    assert_eq!(seqs, vec![8, 9]);
}

#[test]
fn rollback_refusals() {
    let record = proposal("sha256:v1", "sha256:v2");
    let ledger = vec![record.clone()];
    let req = |version: Option<&str>, b: Option<RuntimeParameterMutationBoundary>| RollbackRuntimeParameterMutationRequest {
        target_parameter_version: version.map(|v| v.to_string()),
        activation_boundary: b,
        actor: None,
        reason: Some("undo".to_string()),
        safe_window_context: Some(open_window()),
    };
    let e = plan_runtime_parameter_mutation_rollback(&record, &ledger, 1, &governance("sha256:v2"), req(None, None), "id".to_string(), 1)
        .unwrap_err();
    assert_eq!(e.message, "仅已激活的参数变更可以回滚");

    let activation = ActivateRuntimeParameterMutationRequest {
        activation_boundary: None,
        actor: None,
        safe_window_context: Some(open_window()),
    };
    let activated = plan_runtime_parameter_mutation_activation(record, 5, &governance("sha256:v1"), activation, 10)
        .unwrap()
        .record;
    let e = plan_runtime_parameter_mutation_rollback(&activated, &ledger, 7, &governance("sha256:v2"), req(Some("sha256:v9"), None), "id".to_string(), 1)
        .unwrap_err();
    assert_eq!(e.code, "parameter_mutation_rollback_unknown_version");
    let e = plan_runtime_parameter_mutation_rollback(&activated, &ledger, 7, &governance("sha256:v2"), req(Some("sha256:v2"), None), "id".to_string(), 1)
        .unwrap_err();
    assert_eq!(e.code, "parameter_mutation_rollback_noop");
    let e = plan_runtime_parameter_mutation_rollback(&activated, &ledger, 7, &governance("sha256:v2"), req(None, None), "id".to_string(), 1)
        .unwrap_err();
    assert_eq!(e.message, "activation_boundary.requested 是必填字段");
    let t = plan_runtime_parameter_mutation_rollback(
        &activated,
        &ledger,
        7,
        &governance("sha256:v2"),
        req(None, Some(boundary("sequence_cursor", Some(3)))),
        "id".to_string(),
        1,
    )
    .unwrap();
    assert_eq!(t.record.status, RuntimeParameterMutationStatus::RollbackFailed);
    assert_eq!(t.record.reason, "undo");
}

#[test]
fn appended_events_continue_the_run() {
    let record = proposal("sha256:v1", "sha256:v2");
    let activation = ActivateRuntimeParameterMutationRequest {
        activation_boundary: None,
        actor: None,
        safe_window_context: Some(open_window()),
    };
    let t = plan_runtime_parameter_mutation_activation(record, 0, &governance("sha256:v1"), activation, 10).unwrap();
    let mut run_events: Vec<FrontendRuntimeEvent> = Vec::new();
    let mut run_governance = governance("sha256:v1");
    assert_eq!(runtime_mode_from_events(&run_events), "paper");
    let result = append_parameter_mutation_events(
        &mut run_events,
        &mut run_governance,
        "run-1",
        t.events,
        t.active_parameter_version,
    );
    assert_eq!(result, Ok(()));
    assert_eq!(run_events.len(), 2);
    assert_eq!(run_events[0].envelope.sequence_no, 1);
    assert_eq!(run_events[1].envelope.sequence_no, 2);
    assert_eq!(run_events[1].envelope.parameter_version, "sha256:v2");
    assert_eq!(run_events[0].envelope.mode, "paper");
    assert_eq!(run_governance.parameter_version, "sha256:v2");
    assert_eq!(current_sequence_no(&run_events), 2);
    assert_eq!(t.record.lifecycle[1].event_id, run_events[1].event_id);
}
