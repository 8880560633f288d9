use quantpilot::backtest::{
    experiment_id_for, experiment_variant_ids, is_v4_backtest_request, normalize_experiment_latency_axis,
    normalize_experiment_name, plan_experiment_variants, resolve_v4_backtest_market_event_type,
    resolve_v4_backtest_symbols, MachineCatalogEvent,
};
use quantpilot::json::JsonValue;

fn obj(entries: Vec<(&str, JsonValue)>) -> JsonValue {
    JsonValue::Object(entries.into_iter().map(|(k, v)| (k.to_string(), v)).collect())
}

fn text(s: &str) -> JsonValue {
    JsonValue::Str(s.to_string())
}

fn strings(v: &[&str]) -> Vec<String> {
    v.iter().map(|s| s.to_string()).collect()
}

#[test]
fn v4_requests_are_recognised() {
    let plain = obj(vec![("metadata", obj(vec![]))]);
    assert!(is_v4_backtest_request(Some("V4"), &plain));
    assert!(!is_v4_backtest_request(Some("legacy"), &plain));
    assert!(!is_v4_backtest_request(None, &plain));
    let artifact = obj(vec![("metadata", obj(vec![("artifacts", obj(vec![("v4_machine_graph", obj(vec![]))]))]))]);
    assert!(is_v4_backtest_request(None, &artifact));
    let meta = obj(vec![("metadata", obj(vec![("v4_machine_graph", JsonValue::Null)]))]);
    assert!(is_v4_backtest_request(None, &meta));
    let source = |s: &str| {
        obj(vec![(
            "metadata",
            obj(vec![("artifacts", obj(vec![("quantscript", obj(vec![("formal_source", text(s))]))]))]),
        )])
    };
    assert!(is_v4_backtest_request(None, &source("  \n v4_strategy demo {}")));
    assert!(!is_v4_backtest_request(None, &source("strategy v4_strategy")));
}

#[test]
fn v4_symbols_come_from_the_request_then_the_graph() {
    let graph = obj(vec![(
        "metadata",
        obj(vec![("artifacts", obj(vec![("v4_symbols", JsonValue::Array(vec![text("ETHUSDT"), JsonValue::Null, text("BTCUSDT")]))]))]),
    )]);
    assert_eq!(resolve_v4_backtest_symbols(&strings(&["SOLUSDT"]), &graph, None), strings(&["SOLUSDT"]));
    assert_eq!(resolve_v4_backtest_symbols(&vec![], &graph, None), strings(&["ETHUSDT", "BTCUSDT"]));
    let empty_graph = obj(vec![]);
    let meta = JsonValue::Array(vec![text("XRPUSDT")]);
    assert_eq!(resolve_v4_backtest_symbols(&vec![], &empty_graph, Some(&meta)), strings(&["XRPUSDT"]));
    assert!(resolve_v4_backtest_symbols(&vec![], &empty_graph, None).is_empty());
}

fn catalog_event(t: &str, market: bool) -> MachineCatalogEvent {
    MachineCatalogEvent { event_type: t.to_string(), is_market_data: market, is_runtime: !market, payload_fields: vec![] }
}

#[test]
fn the_replayed_market_event_prefers_bars_and_prices() {
    let catalog = vec![catalog_event("order.fill", false), catalog_event("market.tick", true), catalog_event("market.bar.1m", true)];
    assert_eq!(resolve_v4_backtest_market_event_type(Some(&catalog)).unwrap(), "market.bar.1m");
    let catalog = vec![catalog_event("order.fill", false), catalog_event("market.tick", true)];
    assert_eq!(resolve_v4_backtest_market_event_type(Some(&catalog)).unwrap(), "market.tick");
    let catalog = vec![catalog_event("order.fill", false)];
    assert_eq!(resolve_v4_backtest_market_event_type(Some(&catalog)).unwrap(), "order.fill");
    let missing = resolve_v4_backtest_market_event_type(None).unwrap_err();
    assert_eq!(missing.status, 400);
    assert_eq!(missing.code, "v4_event_catalog_missing");
    assert_eq!(missing.message, "v4 backtest requires MachineEventCatalog");
    let empty = resolve_v4_backtest_market_event_type(Some(&vec![])).unwrap_err();
    assert_eq!(empty.message, "v4 backtest requires at least one replayable event");
}

#[test]
fn latency_axis_keeps_first_occurrences() {
    assert_eq!(normalize_experiment_latency_axis(&vec![], 25), vec![25]);
    assert_eq!(normalize_experiment_latency_axis(&vec![10, 5, 10, 0, 5], 25), vec![10, 5, 0]);
}

#[test]
fn sweep_variants_vary_fees_slowest() {
    let variants = plan_experiment_variants(3, 2, 1, 2, 10).unwrap();
    assert_eq!(variants, vec![(0, 0, 0), (0, 0, 1), (1, 0, 0), (1, 0, 1)]);
    let none = plan_experiment_variants(0, 1, 1, 1, 10).unwrap_err();
    assert_eq!(none.code, "bad_request");
    assert_eq!(none.message, "参数网格必须至少包含一个执行假设值");
    let too_many = plan_experiment_variants(9, 3, 3, 3, 20).unwrap_err();
    assert_eq!(too_many.message, "参数扫描展开为 27 个变体，超出当前限制 20");
    assert_eq!(plan_experiment_variants(1, 2, 3, 4, 24).unwrap().len(), 24);
}

#[test]
fn experiment_ids_and_names() {
    assert_eq!(experiment_id_for(1700), "experiment_1700");
    let (suffix, variant) = experiment_variant_ids("experiment_1700", 0);
    assert_eq!(suffix, "experiment_1700_v1");
    assert_eq!(variant, "variant_1");
    assert_eq!(normalize_experiment_name(Some("  sweep  ")), Some("sweep".to_string()));
    assert_eq!(normalize_experiment_name(Some("   ")), None);
    assert_eq!(normalize_experiment_name(None), None);
}
