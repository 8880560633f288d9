use quantpilot::events::{FrontendRuntimeEvent, RuntimeEventEnvelope, RuntimePermissionBoundary, RuntimeGovernanceSnapshot};
use quantpilot::json::JsonValue;
use quantpilot::projection::{
    annotate_frontend_event_payload, build_frontend_event, build_frontend_events, collect_frontend_events,
    collect_frontend_events_for_backtest, prepend_capability_snapshot_event, resolve_event_node_id,
    runtime_event_name, severity_for_event, sort_events_by_time, summarize_event,
    BacktestEventProjectionContext, BacktestSessionEvents, CompileRuntimeTargets, RuntimeEvent, RuntimeEventType,
};

fn obj(entries: Vec<(&str, JsonValue)>) -> JsonValue {
    JsonValue::Object(entries.into_iter().map(|(k, v)| (k.to_string(), v)).collect())
}

fn text(s: &str) -> JsonValue {
    JsonValue::Str(s.to_string())
}

fn num(s: &str) -> JsonValue {
    JsonValue::Number(s.to_string())
}

fn keys(v: &JsonValue) -> Vec<String> {
    match v {
        JsonValue::Object(entries) => entries.iter().map(|(k, _)| k.clone()).collect(),
        _ => panic!("not an object"),
    }
}

fn field<'a>(v: &'a JsonValue, key: &str) -> &'a JsonValue {
    match v {
        JsonValue::Object(entries) => &entries.iter().find(|(k, _)| k == key).expect("key should exist").1,
        _ => panic!("not an object"),
    }
}

fn as_text(v: &JsonValue) -> &str {
    match v {
        JsonValue::Str(s) => s.as_str(),
        JsonValue::Number(s) => s.as_str(),
        _ => panic!("not a string"),
    }
}

fn engine_event(id: &str, t: RuntimeEventType, source: &str, ts: u64, payload: JsonValue) -> RuntimeEvent {
    RuntimeEvent {
        event_id: id.to_string(),
        event_type: t,
        source_id: source.to_string(),
        ts_ms: ts,
        trace_id: format!("{id}_trace"),
        payload,
        numeric_summary: format!("{id} numeric"),
    }
}

fn targets() -> CompileRuntimeTargets {
    CompileRuntimeTargets {
        source_to_node: vec![("source.data".to_string(), "node.data".to_string())],
        runtime_node_id: Some("node.runtime".to_string()),
        execution_node_id: Some("node.exec".to_string()),
    }
}

fn governance() -> RuntimeGovernanceSnapshot {
    RuntimeGovernanceSnapshot {
        capability_hash: "sha256:cap".to_string(),
        strategy_version: "strategy:v1".to_string(),
        parameter_version: "config:v1".to_string(),
        deployment_revision: "sha256:dep".to_string(),
        governance_source: "current_runtime".to_string(),
        permission_boundary: RuntimePermissionBoundary {
            model_version: "boundary:v2".to_string(),
            ai_write_policy: "proposal_only".to_string(),
        },
    }
}

fn frontend(id: &str, ts: u64) -> FrontendRuntimeEvent {
    FrontendRuntimeEvent {
        event_id: id.to_string(),
        event_type: "DataUpdated".to_string(),
        source_id: "s".to_string(),
        node_id: "n".to_string(),
        event_time_ms: ts,
        severity: "Info".to_string(),
        summary: String::new(),
        payload: obj(vec![]),
        envelope: RuntimeEventEnvelope::empty(),
    }
}

#[test]
fn event_type_names_and_severities() {
    assert_eq!(runtime_event_name(&RuntimeEventType::AgentDecisionProduced), "AgentDecisionProduced");
    assert_eq!(runtime_event_name(&RuntimeEventType::RuntimeError), "RuntimeError");
    assert_eq!(severity_for_event(&RuntimeEventType::RuntimeError), "Error");
    assert_eq!(severity_for_event(&RuntimeEventType::RuntimeWarning), "Warn");
    assert_eq!(severity_for_event(&RuntimeEventType::DataUpdated), "Info");
}

#[test]
fn node_comes_from_source_then_execution_or_runtime_node() {
    let t = targets();
    let mapped = engine_event("e1", RuntimeEventType::DataUpdated, "source.data", 1, obj(vec![]));
    assert_eq!(resolve_event_node_id(&mapped, &t), "node.data");
    let exec = engine_event("e2", RuntimeEventType::ExecutionFilled, "other", 1, obj(vec![]));
    assert_eq!(resolve_event_node_id(&exec, &t), "node.exec");
    let other = engine_event("e3", RuntimeEventType::IntentEvaluated, "other", 1, obj(vec![]));
    assert_eq!(resolve_event_node_id(&other, &t), "node.runtime");
    let bare = CompileRuntimeTargets { source_to_node: vec![], runtime_node_id: None, execution_node_id: None };
    assert_eq!(resolve_event_node_id(&other, &bare), "");
}

#[test]
fn payload_annotation_sets_trace_id_and_projection() {
    let payload = obj(vec![("b", num("1")), ("trace_id", text("old"))]);
    let annotated = annotate_frontend_event_payload(&payload, "trace-1", None);
    assert_eq!(keys(&annotated), vec!["b".to_string(), "trace_id".to_string()]);
    assert_eq!(as_text(field(&annotated, "trace_id")), "trace-1");

    let ctx = BacktestEventProjectionContext { session_index: 3, cycle_name: "fast".to_string(), session_started_at_ms: 77 };
    let annotated = annotate_frontend_event_payload(&obj(vec![("a", num("2"))]), "t", Some(&ctx));
    let projection = field(&annotated, "artifact_projection");
    assert_eq!(as_text(field(projection, "cycle_name")), "fast");
    assert_eq!(as_text(field(projection, "session_index")), "3");
    assert_eq!(as_text(field(projection, "session_started_at_ms")), "77");
    assert_eq!(as_text(field(&annotated, "a")), "2");

    let scalar = annotate_frontend_event_payload(&text("plain"), "t", Some(&ctx));
    assert!(matches!(scalar, JsonValue::Str(ref s) if s == "plain"));
}

#[test]
fn summaries_follow_the_event_type() {
    let explained = engine_event(
        "e",
        RuntimeEventType::RiskDecisionProduced,
        "risk.1",
        1,
        obj(vec![("explanation_summary", text("risk cut size")), ("status", text("APPROVED"))]),
    );
    assert_eq!(summarize_event(&explained), "risk cut size");
    let blank = engine_event(
        "e",
        RuntimeEventType::RiskDecisionProduced,
        "risk.1",
        1,
        obj(vec![("explanation_summary", text("   ")), ("status", text("APPROVED"))]),
    );
    assert_eq!(summarize_event(&blank), "risk.1 risk APPROVED");
    let triggered = engine_event("e", RuntimeEventType::IntentTriggered, "intent.1", 1, obj(vec![]));
    assert_eq!(summarize_event(&triggered), "intent.1 triggered side=UNKNOWN");
    let planned = engine_event("e", RuntimeEventType::ExecutionPlanned, "exec", 1, obj(vec![("orders", num("3"))]));
    assert_eq!(summarize_event(&planned), "execution planned with 3 orders");
    let planned_none = engine_event("e", RuntimeEventType::ExecutionPlanned, "exec", 1, obj(vec![("orders", num("1.5"))]));
    assert_eq!(summarize_event(&planned_none), "execution planned with 0 orders");
    let data = engine_event("e", RuntimeEventType::DataUpdated, "feed", 1, obj(vec![]));
    assert_eq!(summarize_event(&data), "feed data updated");
    let warning = engine_event("e", RuntimeEventType::RuntimeWarning, "feed", 1, obj(vec![]));
    assert_eq!(summarize_event(&warning), "warning from feed");
    let error = engine_event("e", RuntimeEventType::RuntimeError, "feed", 1, obj(vec![]));
    assert_eq!(summarize_event(&error), "error from feed");
    let evaluated = engine_event("e", RuntimeEventType::IntentEvaluated, "intent", 1, obj(vec![]));
    assert_eq!(summarize_event(&evaluated), "intent evaluated");
    let filled = engine_event("fill", RuntimeEventType::ExecutionFilled, "exec", 1, obj(vec![]));
    assert_eq!(summarize_event(&filled), "fill numeric");
}

#[test]
fn frontend_event_carries_the_engine_event() {
    let e = engine_event("e9", RuntimeEventType::RuntimeWarning, "source.data", 42, obj(vec![]));
    let f = build_frontend_event(&e, &targets(), None);
    assert_eq!(f.event_id, "e9");
    assert_eq!(f.event_type, "RuntimeWarning");
    assert_eq!(f.node_id, "node.data");
    assert_eq!(f.event_time_ms, 42);
    assert_eq!(f.severity, "Warn");
    assert_eq!(f.summary, "warning from source.data");
    assert_eq!(as_text(field(&f.payload, "trace_id")), "e9_trace");
    assert_eq!(f.envelope.sequence_no, 0);
    let many = build_frontend_events(&vec![e, engine_event("e10", RuntimeEventType::DataUpdated, "x", 1, obj(vec![]))], &targets(), None);
    assert_eq!(many.len(), 2);
    assert_eq!(many[1].event_id, "e10");
}

#[test]
fn live_events_are_ordered_by_time_keeping_ties_in_order() {
    let slow = vec![
        engine_event("slow-1", RuntimeEventType::DataUpdated, "s", 20, obj(vec![])),
        engine_event("slow-2", RuntimeEventType::DataUpdated, "s", 10, obj(vec![])),
    ];
    let fast = vec![
        engine_event("fast-1", RuntimeEventType::DataUpdated, "s", 10, obj(vec![])),
        engine_event("fast-2", RuntimeEventType::DataUpdated, "s", 5, obj(vec![])),
    ];
    let events = collect_frontend_events(&slow, &fast, &targets());
    let ids: Vec<&str> = events.iter().map(|e| e.event_id.as_str()).collect();
    assert_eq!(ids, vec!["fast-2", "slow-2", "fast-1", "slow-1"]);
}

#[test]
fn sorting_by_time_is_stable() {
    let sorted = sort_events_by_time(vec![frontend("a", 3), frontend("b", 1), frontend("c", 3), frontend("d", 1)]);
    let ids: Vec<&str> = sorted.iter().map(|e| e.event_id.as_str()).collect();
    assert_eq!(ids, vec!["b", "d", "a", "c"]);
}

#[test]
fn backtest_events_carry_their_session_and_cycle() {
    let sessions = vec![
        BacktestSessionEvents {
            slow_cycle_events: vec![engine_event("s0", RuntimeEventType::DataUpdated, "x", 100, obj(vec![]))],
            fast_cycle_events: vec![engine_event("f0", RuntimeEventType::DataUpdated, "x", 50, obj(vec![]))],
            final_portfolio_updated_at_ms: 999,
        },
        BacktestSessionEvents {
            slow_cycle_events: vec![],
            fast_cycle_events: vec![engine_event("f1", RuntimeEventType::DataUpdated, "x", 75, obj(vec![]))],
            final_portfolio_updated_at_ms: 888,
        },
    ];
    let events = collect_frontend_events_for_backtest(&sessions, &vec![7], &targets());
    let ids: Vec<&str> = events.iter().map(|e| e.event_id.as_str()).collect();
    assert_eq!(ids, vec!["f0", "f1", "s0"]);
    let f0 = field(&events[0].payload, "artifact_projection");
    assert_eq!(as_text(field(f0, "cycle_name")), "fast");
    assert_eq!(as_text(field(f0, "session_started_at_ms")), "7");
    let f1 = field(&events[1].payload, "artifact_projection");
    assert_eq!(as_text(field(f1, "session_index")), "1");
    assert_eq!(as_text(field(f1, "session_started_at_ms")), "888");
    let s0 = field(&events[2].payload, "artifact_projection");
    assert_eq!(as_text(field(s0, "cycle_name")), "slow");
}

#[test]
fn capability_snapshot_is_put_first() {
    let mut events = vec![frontend("x", 5)];
    prepend_capability_snapshot_event(
        &mut events,
        "run_1",
        "paper",
        4,
        &governance(),
        &num("2"),
        &vec!["data".to_string(), "intent".to_string()],
    );
    assert_eq!(events.len(), 2);
    let snap = &events[0];
    assert_eq!(snap.event_id, "run_1_capability_snapshot");
    assert_eq!(snap.event_type, "CapabilitySnapshotTaken");
    assert_eq!(snap.source_id, "runtime_governance");
    assert_eq!(snap.summary, "Capability snapshot taken");
    assert_eq!(
        keys(&snap.payload),
        vec![
            "capability_hash",
            "chain_stages",
            "permission_boundary_model_version",
            "runtime_mode",
            "schema_version",
            "trace_id"
        ]
    );
    assert_eq!(as_text(field(&snap.payload, "trace_id")), "run_1_capability_snapshot_trace");
    assert_eq!(as_text(field(&snap.payload, "permission_boundary_model_version")), "boundary:v2");
    assert_eq!(events[1].event_id, "x");
}
