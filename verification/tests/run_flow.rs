use quantpilot::events::{FrontendRuntimeEvent, RuntimeEventEnvelope, RuntimeGovernanceSnapshot, RuntimePermissionBoundary};
use quantpilot::json::JsonValue;
use quantpilot::run_flow::{backtest_id_for, finalize_record_events, run_id_for};

fn governance(cap: &str) -> RuntimeGovernanceSnapshot {
    RuntimeGovernanceSnapshot {
        capability_hash: cap.to_string(),
        strategy_version: "strategy:v1".to_string(),
        parameter_version: "config:v1".to_string(),
        deployment_revision: "sha256:dep".to_string(),
        governance_source: "current_runtime".to_string(),
        permission_boundary: RuntimePermissionBoundary { model_version: "m".to_string(), ai_write_policy: "p".to_string() },
    }
}

fn event(id: &str, t: &str, ts: u64) -> FrontendRuntimeEvent {
    FrontendRuntimeEvent {
        event_id: id.to_string(),
        event_type: t.to_string(),
        source_id: "feed".to_string(),
        node_id: "node".to_string(),
        event_time_ms: ts,
        severity: "Info".to_string(),
        summary: String::new(),
        payload: JsonValue::Object(vec![("trace_id".to_string(), JsonValue::Str(format!("{id}_trace")))]),
        envelope: RuntimeEventEnvelope::empty(),
    }
}

#[test]
fn record_ids() {
    assert_eq!(run_id_for(1700000000000), "run_1700000000000");
    assert_eq!(backtest_id_for(5, Some("experiment_1_v2"), 9, false), "backtest_5_experiment_1_v2");
    assert_eq!(backtest_id_for(5, None, 9, false), "backtest_5_9");
    assert_eq!(backtest_id_for(5, None, 9, true), "backtest_5_v4_9");
}

#[test]
fn finalized_events_start_with_the_snapshot_and_carry_envelopes() {
    let events = vec![event("e1", "DataUpdated", 5), event("e2", "ExecutionFilled", 6)];
    let stored = finalize_record_events(
        events,
        "run_1",
        "paper",
        4,
        &governance("sha256:cap"),
        &JsonValue::Number("1".to_string()),
        &vec!["data".to_string()],
    )
    .unwrap();
    assert_eq!(stored.len(), 3);
    assert_eq!(stored[0].event_type, "CapabilitySnapshotTaken");
    let seqs: Vec<u64> = stored.iter().map(|e| e.envelope.sequence_no).collect();
    assert_eq!(seqs, vec![1, 2, 3]);
    assert_eq!(stored[2].envelope.trace_id.as_deref(), Some("e2_trace"));
    assert_eq!(stored[1].envelope.mode, "paper");
}

#[test]
fn incomplete_governance_fails_validation() {
    let err = finalize_record_events(
        vec![event("e1", "DataUpdated", 5)],
        "run_1",
        "paper",
        4,
        &governance("unknown"),
        &JsonValue::Null,
        &vec![],
    )
    .unwrap_err();
    assert!(err.contains("run_1_capability_snapshot"));
}

#[test]
fn run_streams_open_and_close_with_status_frames() {
    let started = quantpilot::run_stream::run_started_frame("run_1", "g", "c");
    assert_eq!(
        quantpilot::json_text::json_to_text(&started),
        "{\"compile_id\":\"c\",\"graph_id\":\"g\",\"run_id\":\"run_1\",\"status\":\"started\"}"
    );
    let completed = quantpilot::run_stream::run_completed_frame("run_1", 12);
    assert_eq!(
        quantpilot::json_text::json_to_text(&completed),
        "{\"event_count\":12,\"run_id\":\"run_1\",\"status\":\"completed\"}"
    );
}
