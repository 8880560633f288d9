use quantpilot::events::{
    attach_runtime_event_envelopes, retention_class_for_frontend_event,
    security_violation_detected_event, stage_for_frontend_event, validate_runtime_event_envelopes,
    ActorIdentity, FrontendRuntimeEvent, RuntimeEventEnvelope, RuntimeEventRetentionClass,
    RuntimeEventStage, RuntimeGovernanceSnapshot,
};
use quantpilot::json::JsonValue;

fn obj(entries: Vec<(&str, JsonValue)>) -> JsonValue {
    JsonValue::Object(
        entries
            .into_iter()
            .map(|(k, v)| (k.to_string(), v))
            .collect(),
    )
}

fn text(s: &str) -> JsonValue {
    JsonValue::Str(s.to_string())
}

fn field<'a>(v: &'a JsonValue, key: &str) -> &'a JsonValue {
    match v {
        JsonValue::Object(entries) => {
            &entries
                .iter()
                .find(|(k, _)| k == key)
                .expect("key should exist")
                .1
        }
        _ => panic!("not an object"),
    }
}

fn as_text(v: &JsonValue) -> &str {
    match v {
        JsonValue::Str(s) => s.as_str(),
        _ => panic!("not a string"),
    }
}

#[test]
fn event_stage_mapping_uses_typed_known_stages() {
    assert_eq!(stage_for_frontend_event("DataUpdated"), RuntimeEventStage::Data);
    assert_eq!(stage_for_frontend_event("RiskDecisionProduced"), RuntimeEventStage::Risk);
    assert_eq!(stage_for_frontend_event("PortfolioUpdated"), RuntimeEventStage::Fill);
    assert_eq!(stage_for_frontend_event("CapabilitySnapshotTaken"), RuntimeEventStage::System);
    assert_eq!(stage_for_frontend_event("SecurityViolationDetected"), RuntimeEventStage::System);
    assert_eq!(stage_for_frontend_event("ParameterMutationProposed"), RuntimeEventStage::System);
    assert_eq!(stage_for_frontend_event("ParameterMutationActivated"), RuntimeEventStage::System);
    assert_eq!(stage_for_frontend_event("UnexpectedEvent"), RuntimeEventStage::System);
}

#[test]
fn event_retention_mapping_uses_typed_known_classes() {
    assert_eq!(retention_class_for_frontend_event("ExecutionFilled"), RuntimeEventRetentionClass::Key);
    assert_eq!(retention_class_for_frontend_event("CapabilitySnapshotTaken"), RuntimeEventRetentionClass::Key);
    assert_eq!(retention_class_for_frontend_event("SecurityViolationDetected"), RuntimeEventRetentionClass::Key);
    assert_eq!(retention_class_for_frontend_event("ParameterMutationRejected"), RuntimeEventRetentionClass::Key);
    assert_eq!(
        retention_class_for_frontend_event("ParameterMutationActivationScheduled"),
        RuntimeEventRetentionClass::Key
    );
    assert_eq!(retention_class_for_frontend_event("RuntimeWarning"), RuntimeEventRetentionClass::Summary);
    assert_eq!(retention_class_for_frontend_event("IntentEvaluated"), RuntimeEventRetentionClass::Debug);
}

fn sample_governance() -> RuntimeGovernanceSnapshot {
    RuntimeGovernanceSnapshot {
        capability_hash: "sha256:test-capability".to_string(),
        strategy_version: "strategy:v1".to_string(),
        parameter_version: "config:test".to_string(),
        deployment_revision: "sha256:test-deployment".to_string(),
        ..RuntimeGovernanceSnapshot::default()
    }
}

fn sample_event(event_id: &str, event_type: &str, event_time_ms: u64) -> FrontendRuntimeEvent {
    FrontendRuntimeEvent {
        event_id: event_id.to_string(),
        event_type: event_type.to_string(),
        source_id: "source.test".to_string(),
        node_id: "node.test".to_string(),
        event_time_ms,
        severity: "Info".to_string(),
        summary: "sample".to_string(),
        payload: obj(vec![("trace_id", text(&format!("{event_id}_trace")))]),
        envelope: RuntimeEventEnvelope::default(),
    }
}

#[test]
fn runtime_event_envelope_validation_accepts_complete_events() {
    let governance = sample_governance();
    let mut events = vec![
        sample_event("event-1", "CapabilitySnapshotTaken", 100),
        sample_event("event-2", "ExecutionFilled", 101),
    ];
    attach_runtime_event_envelopes(&mut events, "run-test", "paper", &governance);

    validate_runtime_event_envelopes(&events, "run-test", &governance)
        .expect("complete envelopes should validate");
}

#[test]
fn runtime_event_envelope_validation_rejects_duplicate_sequence() {
    let governance = sample_governance();
    let mut events = vec![
        sample_event("event-1", "CapabilitySnapshotTaken", 100),
        sample_event("event-2", "ExecutionFilled", 101),
    ];
    attach_runtime_event_envelopes(&mut events, "run-test", "paper", &governance);
    events[1].envelope.sequence_no = 1;

    let error = validate_runtime_event_envelopes(&events, "run-test", &governance)
        .expect_err("duplicate sequence should be rejected");
    assert!(error.contains("sequence_no"));
}

#[test]
fn runtime_event_envelope_validation_rejects_missing_envelope_identity() {
    let governance = sample_governance();
    let mut events = vec![sample_event("event-1", "CapabilitySnapshotTaken", 100)];
    attach_runtime_event_envelopes(&mut events, "run-test", "paper", &governance);
    events[0].envelope.event_id.clear();

    let error = validate_runtime_event_envelopes(&events, "run-test", &governance)
        .expect_err("missing envelope id should be rejected");
    assert!(error.contains("event_id mismatch"));
}

#[test]
fn runtime_event_envelope_validation_rejects_unknown_event_type() {
    let governance = sample_governance();
    let mut events = vec![sample_event("event-1", "UnexpectedEvent", 100)];
    attach_runtime_event_envelopes(&mut events, "run-test", "paper", &governance);

    let error = validate_runtime_event_envelopes(&events, "run-test", &governance)
        .expect_err("unknown event type should be rejected");
    assert!(error.contains("unknown event_type"));
}

#[test]
fn runtime_event_envelope_validation_rejects_mismatched_stage_or_retention() {
    let governance = sample_governance();
    let mut events = vec![sample_event("event-1", "ExecutionFilled", 100)];
    attach_runtime_event_envelopes(&mut events, "run-test", "paper", &governance);
    events[0].envelope.stage = RuntimeEventStage::System;

    let error = validate_runtime_event_envelopes(&events, "run-test", &governance)
        .expect_err("stage mismatch should be rejected");
    assert!(error.contains("stage"));

    attach_runtime_event_envelopes(&mut events, "run-test", "paper", &governance);
    events[0].envelope.retention_class = RuntimeEventRetentionClass::Debug;
    let error = validate_runtime_event_envelopes(&events, "run-test", &governance)
        .expect_err("key retention mismatch should be rejected");
    assert!(error.contains("retention_class"));
}

#[test]
fn security_violation_event_shape_has_key_system_envelope() {
    let governance = sample_governance();
    let actor = ActorIdentity {
        actor_id: "actor_test".to_string(),
        display_name: "Test Actor".to_string(),
    };
    let event = security_violation_detected_event(
        "run-test",
        123,
        Some(&actor),
        "runtime.start_live",
        "live_execution_allowed",
        "builtin.execution.paper",
        "LIVE_EXECUTION_DENIED",
        &governance,
    );

    assert_eq!(event.event_type, "SecurityViolationDetected");
    assert_eq!(event.severity, "Error");
    assert_eq!(as_text(field(field(&event.payload, "actor"), "actor_id")), "actor_test");
    assert_eq!(as_text(field(&event.payload, "attempted_action")), "runtime.start_live");
    assert_eq!(as_text(field(&event.payload, "denied_policy")), "live_execution_allowed");
    assert_eq!(as_text(field(&event.payload, "module_key")), "builtin.execution.paper");
    assert_eq!(as_text(field(&event.payload, "reason_code")), "LIVE_EXECUTION_DENIED");
    assert_eq!(event.envelope.stage, RuntimeEventStage::System);
    assert_eq!(event.envelope.retention_class, RuntimeEventRetentionClass::Key);
    assert_eq!(event.envelope.severity, "Error");
    assert_eq!(event.envelope.reason_code.as_deref(), Some("LIVE_EXECUTION_DENIED"));
    validate_runtime_event_envelopes(&vec![event], "run-test", &governance)
        .expect("security violation event envelope should validate");
}

#[test]
fn security_violation_event_ids_derive_from_record_and_time() {
    let governance = sample_governance();
    let event = security_violation_detected_event(
        "run-x", 7, None, "a", "b", "m", "R", &governance,
    );
    assert_eq!(event.event_id, "run-x_security_violation_7");
    assert_eq!(event.envelope.trace_id.as_deref(), Some("run-x_security_violation_7_trace"));
    assert_eq!(event.envelope.sequence_no, 1);
    assert_eq!(event.envelope.run_id, "run-x");
    assert_eq!(event.envelope.mode, "paper");
    assert!(matches!(field(&event.payload, "actor"), JsonValue::Null));
    assert_eq!(event.summary, "Security policy denied `a`");
}

#[test]
fn envelope_validation_reports_first_failing_event_and_check() {
    let governance = sample_governance();
    let mut events = vec![
        sample_event("event-1", "DataUpdated", 100),
        sample_event("event-2", "ExecutionFilled", 101),
        sample_event(" ", "ExecutionFilled", 102),
    ];
    attach_runtime_event_envelopes(&mut events, "run-test", "paper", &governance);
    let error = validate_runtime_event_envelopes(&events, "run-test", &governance).unwrap_err();
    assert_eq!(error, "索引 2 处的事件 event_id 为空");

    let mut events = vec![sample_event("event-1", "DataUpdated", 100)];
    attach_runtime_event_envelopes(&mut events, "run-test", "paper", &governance);
    events[0].envelope.sequence_no = 5;
    let error = validate_runtime_event_envelopes(&events, "run-test", &governance).unwrap_err();
    assert_eq!(error, "事件 `event-1` 的信封 sequence_no 为 5，期望 1");
}

#[test]
fn envelope_validation_rejects_unknown_governance_and_other_runs() {
    let mut governance = sample_governance();
    governance.capability_hash = "unknown".to_string();
    let mut events = vec![sample_event("event-1", "DataUpdated", 100)];
    attach_runtime_event_envelopes(&mut events, "run-test", "paper", &governance);
    let error = validate_runtime_event_envelopes(&events, "run-test", &governance).unwrap_err();
    assert_eq!(error, "事件 `event-1` 的信封治理身份不完整");

    let governance = sample_governance();
    attach_runtime_event_envelopes(&mut events, "run-test", "paper", &governance);
    let error = validate_runtime_event_envelopes(&events, "run-other", &governance).unwrap_err();
    assert_eq!(error, "事件 `event-1` 的信封 run_id `run-test` 不匹配");

    let mut other = sample_governance();
    other.deployment_revision = "sha256:other".to_string();
    let error = validate_runtime_event_envelopes(&events, "run-test", &other).unwrap_err();
    assert_eq!(error, "事件 `event-1` 的信封 deployment_revision 与治理不匹配");
}

#[test]
fn attached_envelope_reads_trace_and_reason_from_payload() {
    let governance = sample_governance();
    let mut event = sample_event("event-1", "RiskDecisionProduced", 100);
    event.payload = obj(vec![("status", text("CLAMPED")), ("trace_id", text("t-1"))]);
    let mut events = vec![event];
    attach_runtime_event_envelopes(&mut events, "run-test", "live", &governance);
    let env = &events[0].envelope;
    assert_eq!(env.reason_code.as_deref(), Some("CLAMPED"));
    assert_eq!(env.trace_id.as_deref(), Some("t-1"));
    assert_eq!(env.stage, RuntimeEventStage::Risk);
    assert_eq!(env.retention_class, RuntimeEventRetentionClass::Key);
    assert_eq!(env.mode, "live");
    assert_eq!(env.payload_version, 1);
    assert_eq!(env.module_key, "source.test");

    let mut event = sample_event("event-2", "RiskDecisionProduced", 100);
    event.payload = obj(vec![
        ("reason_code", JsonValue::Number("3".to_string())),
        ("status", text("CLAMPED")),
    ]);
    let mut events = vec![event];
    attach_runtime_event_envelopes(&mut events, "run-test", "live", &governance);
    assert_eq!(events[0].envelope.reason_code, None);
}

#[test]
fn envelope_validation_names_time_and_capability_mismatches() {
    let governance = sample_governance();
    let mut events = vec![sample_event("event-1", "DataUpdated", 100)];
    attach_runtime_event_envelopes(&mut events, "run-test", "paper", &governance);
    events[0].envelope.occurred_at_ms = 99;
    let error = validate_runtime_event_envelopes(&events, "run-test", &governance).unwrap_err();
    assert_eq!(error, "事件 `event-1` 的信封 occurred_at_ms 与 event_time_ms 不匹配");

    let mut events = vec![sample_event("event-1", "DataUpdated", 100)];
    attach_runtime_event_envelopes(&mut events, "run-test", "paper", &governance);
    let mut other = sample_governance();
    other.capability_hash = "sha256:other".to_string();
    let error = validate_runtime_event_envelopes(&events, "run-test", &other).unwrap_err();
    assert_eq!(error, "事件 `event-1` 的信封 capability_hash 与治理不匹配");
}
