use quantpilot::diagnostics::{
    build_explanation_rows, build_order_detail_rows, build_payload_rows, build_risk_detail_rows,
    build_runtime_diagnostics_from_events, diagnostics_node_key, diagnostics_row, event_label,
    event_summary_from_event, field_label, format_value, input_fields, nested_diagnostics_row,
    severity_tone, RuntimeDiagnosticsFieldRow,
};
use quantpilot::events::{FrontendRuntimeEvent, RuntimeEventEnvelope};
use quantpilot::json::JsonValue;

fn obj(entries: Vec<(&str, JsonValue)>) -> JsonValue {
    JsonValue::Object(entries.into_iter().map(|(k, v)| (k.to_string(), v)).collect())
}

fn text(s: &str) -> JsonValue {
    JsonValue::Str(s.to_string())
}

fn num(s: &str) -> JsonValue {
    JsonValue::Number(s.to_string())
}

fn row(r: &RuntimeDiagnosticsFieldRow) -> (&str, &str, &str) {
    (r.key.as_str(), r.label.as_str(), r.value.as_str())
}

fn event(id: &str, t: &str, node: &str, source: &str, ts: u64, severity: &str, payload: JsonValue) -> FrontendRuntimeEvent {
    FrontendRuntimeEvent {
        event_id: id.to_string(),
        event_type: t.to_string(),
        source_id: source.to_string(),
        node_id: node.to_string(),
        event_time_ms: ts,
        severity: severity.to_string(),
        summary: format!("{id} summary"),
        payload,
        envelope: RuntimeEventEnvelope::empty(),
    }
}

#[test]
fn labels_tones_and_fields() {
    assert_eq!(event_label("RiskDecisionProduced"), "风控决策");
    assert_eq!(event_label("Other"), "运行事件");
    assert_eq!(field_label("qty"), "数量");
    assert_eq!(field_label("custom_field"), "custom_field");
    assert_eq!(severity_tone("Error"), "danger");
    assert_eq!(severity_tone("warning"), "warning");
    assert_eq!(severity_tone("Info"), "info");
    assert_eq!(input_fields("RiskDecisionProduced"), vec!["status", "risk_score"]);
    assert!(input_fields("Unknown").is_empty());
}

#[test]
fn values_are_shown_as_the_console_writes_them() {
    assert_eq!(format_value(&JsonValue::Null), "-");
    assert_eq!(format_value(&JsonValue::Bool(true)), "是");
    assert_eq!(format_value(&JsonValue::Bool(false)), "否");
    assert_eq!(format_value(&num("1.5")), "1.5");
    assert_eq!(format_value(&text("")), "-");
    assert_eq!(format_value(&text("ok")), "ok");
    assert_eq!(
        format_value(&JsonValue::Array(vec![num("1"), text(""), JsonValue::Array(vec![text("a"), text("b")])])),
        "1, -, a, b"
    );
    assert_eq!(format_value(&obj(vec![("k", text("v\"x")), ("n", num("2"))])), "{\"k\":\"v\\\"x\",\"n\":2}");
}

#[test]
fn rows_skip_null_and_empty_values() {
    assert!(diagnostics_row("status", &JsonValue::Null).is_none());
    assert!(diagnostics_row("status", &text("")).is_none());
    let r = diagnostics_row("status", &text("APPROVED")).unwrap();
    assert_eq!(row(&r), ("status", "状态", "APPROVED"));
    let payload = obj(vec![("pre_risk", obj(vec![("turnover_ratio", num("0.2"))]))]);
    let nested = nested_diagnostics_row("pre_risk", "turnover_ratio", "风控前换手比", &payload).unwrap();
    assert_eq!(row(&nested), ("pre_risk.turnover_ratio", "风控前换手比", "0.2"));
    assert!(nested_diagnostics_row("post_risk", "turnover_ratio", "x", &payload).is_none());
}

#[test]
fn payload_rows_prefer_known_fields_and_fall_back_to_four_entries() {
    let payload = obj(vec![("status", text("OK")), ("risk_score", JsonValue::Null), ("other", num("1"))]);
    let rows = build_payload_rows(&payload, &vec!["status", "risk_score"]);
    assert_eq!(rows.len(), 1);
    assert_eq!(row(&rows[0]), ("status", "状态", "OK"));

    let payload = obj(vec![
        ("a", num("1")),
        ("b", JsonValue::Null),
        ("c", num("3")),
        ("d", num("4")),
        ("e", num("5")),
        ("f", num("6")),
    ]);
    let rows = build_payload_rows(&payload, &vec!["missing"]);
    let keys: Vec<&str> = rows.iter().map(|r| r.key.as_str()).collect();
    assert_eq!(keys, vec!["a", "c", "d", "e"]);
    assert!(build_payload_rows(&text("x"), &vec!["a"]).is_empty());
}

#[test]
fn explanation_and_detail_rows() {
    let payload = obj(vec![
        ("explanation_summary", text("cut")),
        ("reason_text", text("limit")),
        ("sizing_mode", text("fixed")),
        ("status", text("REJECTED")),
        ("post_risk", obj(vec![("action_count", num("2"))])),
    ]);
    let rows = build_explanation_rows("RiskDecisionProduced", &payload);
    let got: Vec<(&str, &str, &str)> = rows.iter().map(row).collect();
    assert_eq!(
        got,
        vec![("explanation_summary", "解释摘要", "cut"), ("reason_text", "原因", "limit"), ("sizing_mode", "定量模式", "fixed")]
    );
    let risk = build_risk_detail_rows(&payload);
    let keys: Vec<&str> = risk.iter().map(|r| r.key.as_str()).collect();
    assert_eq!(keys, vec!["status", "sizing_mode", "reason_text", "post_risk.action_count"]);

    let plan = obj(vec![
        ("side", text("BUY")),
        ("order_previews", JsonValue::Array(vec![obj(vec![("side", text("BUY")), ("qty", num("0.5"))]), obj(vec![])])),
    ]);
    let orders = build_order_detail_rows("ExecutionPlanned", &plan);
    let got: Vec<(&str, &str, &str)> = orders.iter().map(row).collect();
    assert_eq!(
        got,
        vec![
            ("side", "方向", "BUY"),
            ("order_count", "订单数量", "2"),
            ("preview_side", "首个订单方向", "BUY"),
            ("preview_qty", "首个订单数量", "0.5"),
        ]
    );
    assert_eq!(build_order_detail_rows("ExecutionFilled", &plan).len(), 1);
}

#[test]
fn node_keys_and_event_summaries() {
    let with_node = event("e", "IntentEvaluated", "node.a", "src", 1, "Info", obj(vec![]));
    assert_eq!(diagnostics_node_key(&with_node), Some("node.a".to_string()));
    let data = event("e", "DataUpdated", "", "feed", 1, "Info", obj(vec![]));
    assert_eq!(diagnostics_node_key(&data), Some("feed".to_string()));
    let loose = event("e", "IntentEvaluated", "", "src", 1, "Info", obj(vec![]));
    assert_eq!(diagnostics_node_key(&loose), None);
    let mut quiet = event("q", "RuntimeError", "n", "s", 9, "Error", obj(vec![]));
    quiet.summary = String::new();
    let s = event_summary_from_event(&quiet);
    assert_eq!(s.summary, "运行事件");
    assert_eq!(s.label, "运行错误");
    assert_eq!(s.tone, "danger");
    assert_eq!(s.event_time_ms, Some(9));
}

#[test]
fn diagnostics_group_events_by_node_newest_first() {
    let events = vec![
        event("a1", "DataUpdated", "node.a", "feed", 10, "Info", obj(vec![("source_health", text("ok"))])),
        event("b1", "RiskDecisionProduced", "node.b", "risk", 30, "Info", obj(vec![("status", text("OK"))])),
        event("a2", "RuntimeWarning", "node.a", "feed", 20, "Warn", obj(vec![("freshness_ms", num("900"))])),
        event("x", "IntentEvaluated", "", "src", 40, "Info", obj(vec![])),
        event("a3", "DataUpdated", "node.a", "feed", 20, "Info", obj(vec![])),
    ];
    let d = build_runtime_diagnostics_from_events(events, "run");
    assert_eq!(d.source, "run");
    let ids: Vec<&str> = d.active_nodes.iter().map(|n| n.node_id.as_str()).collect();
    assert_eq!(ids, vec!["node.b", "node.a"]);
    assert_eq!(d.default_selected_node_id, Some("node.b".to_string()));
    let a = &d.active_nodes[1];
    assert_eq!(a.event_count, 3);
    assert_eq!(a.latest_event_type.as_deref(), Some("RuntimeWarning"));
    let detail = &d.node_details[1];
    let recent: Vec<&str> = detail.recent_events.iter().map(|e| e.event_id.as_str()).collect();
    assert_eq!(recent, vec!["a2", "a3", "a1"]);
    assert_eq!(detail.latest_notice.as_ref().map(|e| e.event_id.as_str()), Some("a2"));
    assert_eq!(detail.data_quality_rows.len(), 1);
    assert_eq!(detail.data_quality_rows[0].key, "source_health");
    assert!(detail.risk_detail_rows.is_empty());
    let b = &d.node_details[0];
    assert_eq!(b.risk_detail_rows.len(), 1);
    assert!(b.latest_notice.is_none());
    let empty = build_runtime_diagnostics_from_events(vec![], "none");
    assert!(empty.active_nodes.is_empty());
    assert_eq!(empty.default_selected_node_id, None);
}

#[test]
fn diagnostics_counts_add_up_and_recent_events_stop_at_five() {
    let mut events = Vec::new();
    for i in 0..7u64 {
        events.push(event(&format!("a{i}"), "NodeOutput", "node-a", "", 100 + i, "info", JsonValue::Null));
    }
    events.push(event("b0", "DataUpdated", "", "feed-b", 500, "info", JsonValue::Null));
    events.push(event("c0", "NodeOutput", "", "", 900, "info", JsonValue::Null));
    let diag = build_runtime_diagnostics_from_events(events, "memory");
    let ids: Vec<&str> = diag.active_nodes.iter().map(|n| n.node_id.as_str()).collect();
    assert_eq!(ids, vec!["feed-b", "node-a"]);
    assert_eq!(diag.default_selected_node_id.as_deref(), Some("feed-b"));
    let total: usize = diag.active_nodes.iter().map(|n| n.event_count).sum();
    assert_eq!(total, 8);
    assert_eq!(diag.node_details[1].recent_events.len(), 5);
    assert_eq!(diag.node_details[1].event_count, 7);
    assert_eq!(diag.node_details[0].recent_events.len(), 1);
}
