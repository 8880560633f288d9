use quantpilot::events::{
    FrontendRuntimeEvent, RuntimeEventEnvelope, RuntimeEventRetentionClass, RuntimeEventStage,
};
use quantpilot::json::JsonValue;
use quantpilot::timeline::{
    compact_evidence_projection_from_timeline, retained_key_event_index_from_timeline,
    timeline_item_from_event, timeline_items_from_events, RuntimeTimelineCompactability,
};

fn sample_timeline_event() -> FrontendRuntimeEvent {
    FrontendRuntimeEvent {
        event_id: "evt_timeline_001".to_string(),
        event_type: "RiskDecisionProduced".to_string(),
        source_id: "builtin.risk.global".to_string(),
        node_id: "risk_node".to_string(),
        event_time_ms: 1_710_000_000_000,
        severity: "Warn".to_string(),
        summary: "Risk limit clamped the target.".to_string(),
        payload: JsonValue::Object(vec![(
            "reason_code".to_string(),
            JsonValue::Str("MAX_WEIGHT_CLAMPED".to_string()),
        )]),
        envelope: RuntimeEventEnvelope {
            event_id: "evt_timeline_001".to_string(),
            event_type: "RiskDecisionProduced".to_string(),
            stage: RuntimeEventStage::Risk,
            run_id: "run_timeline_001".to_string(),
            sequence_no: 42,
            occurred_at_ms: 1_710_000_000_010,
            ingested_at_ms: 1_710_000_000_020,
            trace_id: Some("trace_timeline_001".to_string()),
            module_key: "builtin.risk.global".to_string(),
            strategy_version: "strategy:v1".to_string(),
            parameter_version: "config:abc".to_string(),
            deployment_revision: "sha256:deployment".to_string(),
            capability_hash: "sha256:capability".to_string(),
            mode: "paper".to_string(),
            severity: "Warn".to_string(),
            retention_class: RuntimeEventRetentionClass::Key,
            reason_code: Some("MAX_WEIGHT_CLAMPED".to_string()),
            payload_version: 1,
        },
    }
}

#[test]
fn timeline_item_contract_derives_required_governed_fields_from_event_envelope() {
    let item = timeline_item_from_event(&sample_timeline_event());

    assert_eq!(item.timeline_item_version, 1);
    assert_eq!(item.event_id, "evt_timeline_001");
    assert_eq!(item.event_type, "RiskDecisionProduced");
    assert_eq!(item.sequence_no, 42);
    assert_eq!(item.stage, RuntimeEventStage::Risk);
    assert_eq!(item.retention_class, RuntimeEventRetentionClass::Key);
    assert_eq!(item.severity, "Warn");
    assert_eq!(item.module_key, "builtin.risk.global");
    assert_eq!(item.node_id, "risk_node");
    assert_eq!(item.summary, "Risk limit clamped the target.");
    assert_eq!(item.reason_code.as_deref(), Some("MAX_WEIGHT_CLAMPED"));
    assert_eq!(item.governance.capability_hash, "sha256:capability");
    assert_eq!(item.governance.deployment_revision, "sha256:deployment");
    assert_eq!(item.governance.strategy_version, "strategy:v1");
    assert_eq!(item.governance.parameter_version, "config:abc");
    assert_eq!(item.payload_version, 1);
    assert_eq!(item.compactability, RuntimeTimelineCompactability::Retain);
}

#[test]
fn retained_key_event_index_keeps_key_and_system_governance_events() {
    let key_event = sample_timeline_event();
    let mut debug_event = sample_timeline_event();
    debug_event.event_id = "evt_debug".to_string();
    debug_event.event_type = "AgentDecisionProduced".to_string();
    debug_event.envelope.event_id = debug_event.event_id.clone();
    debug_event.envelope.event_type = debug_event.event_type.clone();
    debug_event.envelope.sequence_no = 43;
    debug_event.envelope.stage = RuntimeEventStage::Agent;
    debug_event.envelope.retention_class = RuntimeEventRetentionClass::Debug;

    let mut system_event = sample_timeline_event();
    system_event.event_id = "evt_security".to_string();
    system_event.event_type = "SecurityViolationDetected".to_string();
    system_event.envelope.event_id = system_event.event_id.clone();
    system_event.envelope.event_type = system_event.event_type.clone();
    system_event.envelope.sequence_no = 44;
    system_event.envelope.stage = RuntimeEventStage::System;
    system_event.envelope.retention_class = RuntimeEventRetentionClass::Summary;

    let timeline = timeline_items_from_events(&vec![key_event, debug_event, system_event]);
    let index = retained_key_event_index_from_timeline(&timeline, 3);

    assert_eq!(index.index_version, 1);
    assert_eq!(index.policy_version, "quantpilot/key-event-index/v1");
    assert_eq!(index.source_event_count, 3);
    assert_eq!(index.retained_event_count, 2);
    assert_eq!(index.key_event_count, 1);
    assert_eq!(index.system_event_count, 1);
    assert_eq!(
        index
            .entries
            .iter()
            .map(|item| item.event_type.as_str())
            .collect::<Vec<_>>(),
        vec!["RiskDecisionProduced", "SecurityViolationDetected"]
    );
}

#[test]
fn compact_evidence_projection_records_drop_counts_and_keeps_key_entries() {
    let key_event = sample_timeline_event();
    let mut summary_event = sample_timeline_event();
    summary_event.event_id = "evt_summary".to_string();
    summary_event.event_type = "RuntimeWarning".to_string();
    summary_event.envelope.event_id = summary_event.event_id.clone();
    summary_event.envelope.event_type = summary_event.event_type.clone();
    summary_event.envelope.sequence_no = 43;
    summary_event.envelope.stage = RuntimeEventStage::System;
    summary_event.envelope.retention_class = RuntimeEventRetentionClass::Summary;

    let mut debug_event = sample_timeline_event();
    debug_event.event_id = "evt_debug".to_string();
    debug_event.event_type = "AgentDecisionProduced".to_string();
    debug_event.envelope.event_id = debug_event.event_id.clone();
    debug_event.envelope.event_type = debug_event.event_type.clone();
    debug_event.envelope.sequence_no = 44;
    debug_event.envelope.stage = RuntimeEventStage::Agent;
    debug_event.envelope.retention_class = RuntimeEventRetentionClass::Debug;

    let timeline = timeline_items_from_events(&vec![key_event, summary_event, debug_event]);
    let index = retained_key_event_index_from_timeline(&timeline, 3);
    let compact = compact_evidence_projection_from_timeline(&timeline, &index);

    assert_eq!(compact.projection_version, 1);
    assert_eq!(compact.policy_version, "quantpilot/evidence-compaction/v1");
    assert_eq!(compact.source_event_count, 3);
    assert_eq!(compact.retained_event_count, 1);
    assert_eq!(compact.dropped_event_count, 2);
    assert_eq!(compact.dropped_by_retention.get("summary"), Some(&1));
    assert_eq!(compact.dropped_by_retention.get("debug"), Some(&1));
    assert_eq!(compact.dropped_by_stage.get("system"), Some(&1));
    assert_eq!(compact.dropped_by_stage.get("agent"), Some(&1));
    assert_eq!(compact.entries[0].event_type, "RiskDecisionProduced");
    assert_eq!(compact.governance.capability_hash, "sha256:capability");
}

#[test]
fn timeline_item_falls_back_to_event_fields_when_envelope_is_unset() {
    let mut event = sample_timeline_event();
    event.envelope = RuntimeEventEnvelope::default();
    let item = timeline_item_from_event(&event);
    assert_eq!(item.occurred_at_ms, 1_710_000_000_000);
    assert_eq!(item.ingested_at_ms, 1_710_000_000_000);
    assert_eq!(item.module_key, "builtin.risk.global");
    assert_eq!(item.severity, "Warn");
    assert_eq!(item.compactability, RuntimeTimelineCompactability::DropCandidate);
}

#[test]
fn compact_projection_of_empty_timeline_uses_unknown_governance() {
    let timeline = timeline_items_from_events(&vec![]);
    let index = retained_key_event_index_from_timeline(&timeline, 0);
    let compact = compact_evidence_projection_from_timeline(&timeline, &index);
    assert_eq!(compact.dropped_event_count, 0);
    assert_eq!(compact.governance.capability_hash, "unknown");
    assert_eq!(compact.dropped_by_retention.get("debug"), None);
}
