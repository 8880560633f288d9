use quantpilot::backtest::{MachineCatalogEvent, MachineEventPayloadField};
use quantpilot::json_text::json_to_text;
use quantpilot::v4_handoff::{
    check_v4_handoff, default_v4_payload_value, handoff_initial_event, join_texts, static_validation_error, v4_run_id,
    v4_run_source, V4HandoffTarget,
};
use quantpilot::backtest::{v4_backtest_graph_source, V4GraphSource};
use quantpilot::json::JsonValue;

fn field(name: &str, declared: &str, nullable: bool) -> MachineEventPayloadField {
    MachineEventPayloadField { name: name.to_string(), declared_type: declared.to_string(), nullable }
}

fn catalog_event(t: &str, runtime: bool, fields: Vec<MachineEventPayloadField>) -> MachineCatalogEvent {
    MachineCatalogEvent { event_type: t.to_string(), is_market_data: !runtime, is_runtime: runtime, payload_fields: fields }
}

#[test]
fn payload_defaults_follow_the_declared_type() {
    let text = |f: MachineEventPayloadField| json_to_text(&default_v4_payload_value(&f, "graph_7"));
    assert_eq!(text(field("strategy_id", "String", false)), "\"graph_7\"");
    assert_eq!(text(field("symbol", " Symbol ", false)), "\"symbol\"");
    assert_eq!(text(field("enabled", "BOOLEAN", false)), "true");
    assert_eq!(text(field("count", "u64", false)), "0");
    assert_eq!(text(field("price", "Price", false)), "0.0");
    assert_eq!(text(field("meta", "map", false)), "{}");
    assert_eq!(text(field("legs", "list", false)), "[]");
    assert_eq!(text(field("note", "custom", true)), "null");
    assert_eq!(text(field("note", "custom", false)), "\"note\"");
}

#[test]
fn the_run_starts_with_the_first_runtime_event() {
    let events = vec![
        catalog_event("bar_closed", false, vec![field("price", "price", false)]),
        catalog_event(
            "tick",
            true,
            vec![field("z", "int", false), field("strategy_id", "string", false), field("a", "bool", false), field("z", "string", false)],
        ),
    ];
    let event = handoff_initial_event(Some(&events), "g1", 99).unwrap();
    assert_eq!(event.event_type, "tick");
    assert_eq!(event.source, "runtime");
    assert_eq!(event.ts_ms, 99);
    assert_eq!(json_to_text(&event.payload), "{\"a\":true,\"strategy_id\":\"g1\",\"z\":\"z\"}");
}

#[test]
fn without_a_runtime_event_the_first_event_starts_the_run() {
    let events = vec![catalog_event("bar_closed", false, vec![]), catalog_event("quote", false, vec![])];
    let event = handoff_initial_event(Some(&events), "g1", 1).unwrap();
    assert_eq!(event.event_type, "bar_closed");
    assert_eq!(json_to_text(&event.payload), "{}");
}

#[test]
fn a_run_without_declared_events_is_refused() {
    let err = handoff_initial_event(Some(&vec![]), "g1", 1).unwrap_err();
    assert_eq!(err.status, 400);
    assert_eq!(err.code, "v4_event_catalog_missing");
    assert!(handoff_initial_event(None, "g1", 1).is_err());
}

fn strings(items: &[&str]) -> Vec<String> {
    items.iter().map(|s| s.to_string()).collect()
}

#[test]
fn diagnostics_are_joined_with_semicolons() {
    assert_eq!(join_texts(&strings(&["a", "b", "c"]), "; "), "a; b; c");
    assert_eq!(join_texts(&strings(&["only"]), "; "), "only");
    assert_eq!(join_texts(&vec![], "; "), "");
    let err = static_validation_error(&strings(&["missing state", "bad edge"]));
    assert_eq!(err.code, "v4_graph_invalid");
    assert_eq!(err.message, "v4 machine graph failed static validation: missing state; bad edge");
}

#[test]
fn rejected_handoffs_name_their_target() {
    assert!(check_v4_handoff(V4HandoffTarget::Runtime, true, &strings(&["ignored"])).is_ok());
    let err = check_v4_handoff(V4HandoffTarget::Backtest, false, &strings(&["no venue", "no lowering"])).unwrap_err();
    assert_eq!(err.code, "v4_runtime_handoff_rejected");
    assert_eq!(err.message, "v4 QS backtest handoff rejected: no venue; no lowering");
    let err = check_v4_handoff(V4HandoffTarget::Runtime, false, &vec![]).unwrap_err();
    assert_eq!(err.message, "v4 QS runtime handoff rejected: ");
}

#[test]
fn runtime_runs_need_a_source_and_are_named_by_time() {
    assert_eq!(v4_run_source(Some("  v4_strategy x  ".to_string())).unwrap(), "v4_strategy x");
    assert_eq!(v4_run_source(Some("   ".to_string())).unwrap_err().code, "v4_source_missing");
    assert!(v4_run_source(None).is_err());
    assert_eq!(v4_run_id(1700), "v4_run_1700");
}

fn obj(entries: Vec<(&str, JsonValue)>) -> JsonValue {
    JsonValue::Object(entries.into_iter().map(|(k, v)| (k.to_string(), v)).collect())
}

#[test]
fn the_graph_source_prefers_an_embedded_graph() {
    let embedded = obj(vec![("metadata", obj(vec![("v4_machine_graph", obj(vec![("graph_id", JsonValue::Str("g".to_string()))]))]))]);
    match v4_backtest_graph_source(&embedded) {
        V4GraphSource::Embedded(v) => assert_eq!(json_to_text(&v), "{\"graph_id\":\"g\"}"),
        other => panic!("unexpected source {:?}", other),
    }
    let formal = obj(vec![(
        "metadata",
        obj(vec![("artifacts", obj(vec![("quantscript", obj(vec![("formal_source", JsonValue::Str("  v4_strategy s ".to_string()))]))]))]),
    )]);
    match v4_backtest_graph_source(&formal) {
        V4GraphSource::FormalSource(s) => assert_eq!(s, "v4_strategy s"),
        other => panic!("unexpected source {:?}", other),
    }
    let artifacts = obj(vec![("artifacts", obj(vec![("v4_machine_graph", JsonValue::Null)]))]);
    assert!(matches!(v4_backtest_graph_source(&artifacts), V4GraphSource::Embedded(JsonValue::Null)));
    assert!(matches!(v4_backtest_graph_source(&obj(vec![])), V4GraphSource::CoreIrBridge));
}
