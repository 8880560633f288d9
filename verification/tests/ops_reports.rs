use quantpilot::activation::{
    auto_snapshot_id, config_generations_document, observation_deadline_ms, record_config_generation, snapshot_signature_document,
    ConfigGenerationEntry,
};
use quantpilot::events::{FrontendRuntimeEvent, RuntimeEventEnvelope};
use quantpilot::json::JsonValue;
use quantpilot::json_text::json_to_text;
use quantpilot::migration::{
    deploy_compile_id, deploy_response, deploy_strategy_identity, executor_deploy_outcome, migration_signature_payload,
    migration_strategy_id,
};
use quantpilot::report_ops::{
    merge_record_totals, month_of_epoch_ms, ops_alerts_summary, push_merge_records, AlertFiringSummary, AlertSeverity,
};

fn obj(entries: Vec<(&str, JsonValue)>) -> JsonValue {
    JsonValue::Object(entries.into_iter().map(|(k, v)| (k.to_string(), v)).collect())
}

fn text(s: &str) -> JsonValue {
    JsonValue::Str(s.to_string())
}

fn event(source: &str, payload: JsonValue) -> FrontendRuntimeEvent {
    FrontendRuntimeEvent {
        event_id: "e".to_string(),
        event_type: "IntentEvaluated".to_string(),
        source_id: source.to_string(),
        node_id: String::new(),
        event_time_ms: 1,
        severity: "Info".to_string(),
        summary: String::new(),
        payload,
        envelope: RuntimeEventEnvelope::empty(),
    }
}

#[test]
fn merge_records_read_the_merge_engine_events() {
    let events = vec![
        event("merge_engine", obj(vec![("input_count", JsonValue::Number("4".to_string())), ("conflicts", JsonValue::Number("2".to_string())), ("merge_policy", text("Priority"))])),
        event("other", obj(vec![])),
        event("merge_engine", text("not an object")),
        event("merge_engine", obj(vec![("suppressed", JsonValue::Number("3".to_string()))])),
    ];
    let mut entries = Vec::new();
    push_merge_records(&mut entries, "run_1", &events);
    assert_eq!(entries.len(), 2);
    assert_eq!(entries[0].cycle_name, "run_1");
    assert_eq!(entries[0].input_count, 4);
    assert_eq!(entries[0].output_count, 1);
    assert_eq!(entries[0].merge_policy, "Priority");
    assert_eq!(entries[1].merge_policy, "WeightedMerge");
    assert_eq!(merge_record_totals(&entries), (2, 3));
}

#[test]
fn alert_counts() {
    let alerts = vec![
        AlertFiringSummary { severity: AlertSeverity::P1, acknowledged: true, resolved: false },
        AlertFiringSummary { severity: AlertSeverity::P3, acknowledged: true, resolved: true },
        AlertFiringSummary { severity: AlertSeverity::P1, acknowledged: false, resolved: false },
    ];
    let s = ops_alerts_summary(&alerts);
    assert_eq!((s.total_fired, s.p1_fired, s.p2_fired, s.p3_fired, s.acknowledged, s.resolved), (3, 2, 0, 1, 2, 1));
}

#[test]
fn month_of_epoch_time() {
    assert_eq!(month_of_epoch_ms(0), "1970-01");
    assert_eq!(month_of_epoch_ms(1_700_000_000_000), "2023-11");
    assert_eq!(month_of_epoch_ms(951_782_400_000), "2000-02");
    assert_eq!(month_of_epoch_ms(951_868_800_000), "2000-03");
}

#[test]
fn deployment_identity_and_ids() {
    let graph = obj(vec![("metadata", obj(vec![("name", text("Momentum")), ("graph_id", text("graph_7"))]))]);
    assert_eq!(deploy_strategy_identity(&graph), ("Momentum".to_string(), "graph_7".to_string()));
    assert_eq!(deploy_strategy_identity(&obj(vec![])), ("未命名策略".to_string(), "unknown".to_string()));
    assert_eq!(deploy_compile_id("graph_7", "abcdef0123456789"), "graph_7_abcdef01");
    assert_eq!(deploy_compile_id("graph_7", "abc"), "graph_7_abc");
    assert_eq!(migration_strategy_id("graph_7_abcdef01"), "exec-graph_7_abcd");
    let payload = migration_signature_payload("s", "n", "c", 9, "core", "qs", "graph", "params");
    assert_eq!(
        json_to_text(&payload),
        "{\"compile_id\":\"c\",\"core_ir_hash\":\"core\",\"graph_json_hash\":\"graph\",\"migrated_at_ms\":9,\"name\":\"n\",\"params_snapshot_hash\":\"params\",\"qs_source_hash\":\"qs\",\"strategy_id\":\"s\"}"
    );
    assert_eq!(executor_deploy_outcome(500, "boom", None).unwrap_err(), "执行端返回错误 (500): boom");
    let body = obj(vec![("strategy_id", text("exec-1"))]);
    assert_eq!(executor_deploy_outcome(200, "", Some(&body)).unwrap(), "exec-1");
    assert_eq!(executor_deploy_outcome(200, "", None).unwrap(), "?");
    assert_eq!(
        json_to_text(&deploy_response("exec-1")),
        "{\"message\":\"策略已部署到实时执行端\",\"status\":\"deployed\",\"strategy_id\":\"exec-1\"}"
    );
}

#[test]
fn generation_history_keeps_the_newest_hundred() {
    let mut history = Vec::new();
    for g in 0..105u64 {
        record_config_generation(
            &mut history,
            ConfigGenerationEntry { generation: g, activated_at_ms: g, deployment_revision: String::new(), parameter_version: String::new() },
        );
    }
    assert_eq!(history.len(), 100);
    assert_eq!(history[0].generation, 5);
    assert_eq!(history[99].generation, 104);
    assert_eq!(auto_snapshot_id(12), "snap-auto-12");
    assert_eq!(observation_deadline_ms(10), 60_010);
    assert_eq!(observation_deadline_ms(u64::MAX - 5), u64::MAX);
    assert_eq!(
        json_to_text(&snapshot_signature_document("cap", "sv", "pv", 7)),
        "{\"capability_hash\":\"cap\",\"created_at_ms\":7,\"parameter_version\":\"pv\",\"strategy_version\":\"sv\"}"
    );
}

#[test]
fn config_generations_list_the_history_oldest_first() {
    let history = vec![
        ConfigGenerationEntry { generation: 3, activated_at_ms: 30, deployment_revision: "d3".to_string(), parameter_version: "p3".to_string() },
        ConfigGenerationEntry { generation: 4, activated_at_ms: 40, deployment_revision: "d4".to_string(), parameter_version: "p4".to_string() },
    ];
    assert_eq!(
        json_to_text(&config_generations_document(4, &history)),
        "{\"current_generation\":4,\"history\":[{\"activated_at_ms\":30,\"deployment_revision\":\"d3\",\"generation\":3,\"parameter_version\":\"p3\"},{\"activated_at_ms\":40,\"deployment_revision\":\"d4\",\"generation\":4,\"parameter_version\":\"p4\"}]}"
    );
    assert_eq!(json_to_text(&config_generations_document(0, &vec![])), "{\"current_generation\":0,\"history\":[]}");
}
