use quantpilot::events::{FrontendRuntimeEvent, RuntimeEventEnvelope, RuntimeEventRetentionClass};
use quantpilot::json::JsonValue;
use quantpilot::record_views::{backtest_evidence_views, record_evidence_views};

fn event(id: &str, node: &str, retention: RuntimeEventRetentionClass) -> FrontendRuntimeEvent {
    let mut envelope = RuntimeEventEnvelope::empty();
    envelope.retention_class = retention;
    FrontendRuntimeEvent {
        event_id: id.to_string(),
        event_type: "RiskDecisionProduced".to_string(),
        source_id: "risk".to_string(),
        node_id: node.to_string(),
        event_time_ms: 10,
        severity: "Info".to_string(),
        summary: "s".to_string(),
        payload: JsonValue::Object(vec![]),
        envelope,
    }
}

#[test]
fn run_views_cover_every_runtime_event() {
    let events = vec![
        event("e1", "n1", RuntimeEventRetentionClass::Key),
        event("e2", "n2", RuntimeEventRetentionClass::Debug),
    ];
    let views = record_evidence_views(events, "runtime_events");
    assert_eq!(views.timeline.len(), 2);
    assert_eq!(views.timeline[1].event_id, "e2");
    assert_eq!(views.retained_key_event_index.source_event_count, 2);
    assert_eq!(views.retained_key_event_index.retained_event_count, 1);
    assert_eq!(views.compact_evidence.dropped_event_count, 1);
    assert_eq!(views.runtime_diagnostics.source, "runtime_events");
    assert_eq!(views.runtime_diagnostics.active_nodes.len(), 2);
}

#[test]
fn backtest_views_prefer_the_artifact_event_log() {
    let events = vec![event("e1", "n1", RuntimeEventRetentionClass::Key)];
    let artifacts = vec![
        event("a1", "n1", RuntimeEventRetentionClass::Key),
        event("a2", "n1", RuntimeEventRetentionClass::Key),
        event("a3", "n3", RuntimeEventRetentionClass::Summary),
    ];
    let views = backtest_evidence_views(events, Some(artifacts));
    assert_eq!(views.runtime_diagnostics.source, "backtest_event_log");
    assert_eq!(views.timeline.len(), 3);
    assert_eq!(views.compact_evidence.source_event_count, 3);

    let views = backtest_evidence_views(vec![event("e1", "n1", RuntimeEventRetentionClass::Key)], None);
    assert_eq!(views.runtime_diagnostics.source, "runtime_events");
    assert_eq!(views.timeline.len(), 1);
}
