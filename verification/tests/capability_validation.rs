use quantpilot::capabilities::{
    config_csv_items, config_csv_values, is_float_literal, resolved_execution_assumption_sources,
    validate_backtest_execution_assumption_overrides, validate_graph_id, validate_runtime_config_capabilities,
    ApiErrorDetail, CapabilityCatalog, CapabilityCheckNode, ExecutionAssumptionOverrideReadings,
    ExecutionAssumptionValueSource, RuntimeConfigCapabilityInput, UnitIntervalReading,
};
use quantpilot::backtest_admission::{admit_backtest_request, admit_experiment_request, check_v4_execution_data, tick_replay_requested, BacktestPath};
use quantpilot::json::JsonValue;

fn obj(entries: Vec<(&str, JsonValue)>) -> JsonValue {
    JsonValue::Object(entries.into_iter().map(|(k, v)| (k.to_string(), v)).collect())
}

fn text(s: &str) -> JsonValue {
    JsonValue::Str(s.to_string())
}

fn strings(v: &[&str]) -> Vec<String> {
    v.iter().map(|s| s.to_string()).collect()
}

fn catalog() -> CapabilityCatalog {
    CapabilityCatalog {
        runtime_mode_keys: strings(&["paper"]),
        frontend_module_keys: strings(&[
            "builtin.data.binance",
            "builtin.agent.weighted",
            "builtin.risk.basic",
            "builtin.execution.paper",
            "builtin.execution.live",
        ]),
        exchanges: strings(&["binance"]),
        symbols: strings(&["BTCUSDT", "ETHUSDT"]),
        execution_module_keys: strings(&["builtin.execution.paper"]),
        unsupported_module_reasons: vec![("builtin.intent.ml".to_string(), "model runtime is not shipped".to_string())],
    }
}

fn node(id: &str, module_key: &str, config: JsonValue) -> CapabilityCheckNode {
    CapabilityCheckNode { id: id.to_string(), module_key: module_key.to_string(), config, limit_readings: vec![] }
}

fn input() -> RuntimeConfigCapabilityInput {
    RuntimeConfigCapabilityInput {
        mode: "paper".to_string(),
        runtime_control: None,
        data_sources: vec![],
        intent_generators: vec![],
        agents: vec![],
        risk_controls: vec![],
        executions: vec![],
    }
}

fn codes(details: &[ApiErrorDetail]) -> Vec<&str> {
    details.iter().map(|d| d.code.as_str()).collect()
}

#[test]
fn validate_runtime_config_capabilities_rejects_invalid_multi_symbol_agent_config() {
    let mut config = input();
    config.agents.push(node(
        "agent_agent_1",
        "builtin.agent.weighted",
        obj(vec![
            ("decision_threshold", JsonValue::Number("0.05".to_string())),
            ("max_quantity_ratio", JsonValue::Number("0.4".to_string())),
            ("rebalance_symbols", text("BTCUSDT, XRPUSDT")),
            ("rebalance_schedule", text("weekly")),
            ("rebalance_target_weights", text("0.7, bad")),
        ]),
    ));
    let error = validate_runtime_config_capabilities(&config, &catalog()).expect_err("invalid rebalance config should be rejected");
    assert!(error.iter().any(|detail| detail.code == "unsupported_symbol"));
    assert!(error.iter().any(|detail| detail.code == "invalid_rebalance_target_weights"));
}

#[test]
fn a_supported_configuration_passes() {
    let mut config = input();
    config.data_sources.push(node("data_1", "builtin.data.binance", obj(vec![("exchange", text("binance")), ("instrument", text("BTCUSDT"))])));
    config.agents.push(node(
        "agent_1",
        "builtin.agent.weighted",
        obj(vec![("rebalance_schedule", text("")), ("rebalance_target_weights", text("0.5, .5, 1e-3, inf"))]),
    ));
    config.executions.push(node("exec_1", "builtin.execution.paper", obj(vec![])));
    assert!(validate_runtime_config_capabilities(&config, &catalog()).is_ok());
}

#[test]
fn every_problem_is_reported_in_configuration_order() {
    let mut config = input();
    config.mode = "live".to_string();
    config.runtime_control = Some(node("control", "builtin.intent.ml", obj(vec![])));
    config.data_sources.push(node("data_1", "builtin.data.binance", obj(vec![("exchange", text("okx")), ("instrument", text("DOGEUSDT"))])));
    config.agents.push(node("agent_1", "builtin.agent.weighted", obj(vec![("rebalance_schedule", text("hourly"))])));
    let mut risk = node("risk_1", "builtin.risk.basic", obj(vec![]));
    risk.limit_readings = vec![
        ("max_position".to_string(), UnitIntervalReading::AboveOne),
        ("max_turnover".to_string(), UnitIntervalReading::BelowZero),
        ("min_trade_weight".to_string(), UnitIntervalReading::AboveOne),
    ];
    config.risk_controls.push(risk);
    config.executions.push(node("exec_1", "builtin.execution.live", obj(vec![])));
    let details = validate_runtime_config_capabilities(&config, &catalog()).unwrap_err();
    assert_eq!(
        codes(&details),
        vec![
            "unsupported_runtime_mode",
            "unsupported_module",
            "unsupported_exchange",
            "unsupported_symbol",
            "invalid_rebalance_schedule",
            "invalid_risk_limit",
            "invalid_risk_limit",
            "unsupported_execution_module",
        ]
    );
    assert_eq!(details[0].target.as_deref(), Some("metadata.mode"));
    assert_eq!(details[0].message, "runtime mode `live` is not supported in the current beta");
    assert_eq!(details[1].target.as_deref(), Some("control"));
    assert_eq!(details[1].message, "module `builtin.intent.ml` is not enabled for compile in the current beta");
    assert_eq!(details[1].reason.as_deref(), Some("model runtime is not shipped"));
    assert_eq!(details[2].message, "exchange `okx` is not supported in the current beta");
    assert_eq!(details[3].message, "symbol `DOGEUSDT` is not supported in the current beta");
    assert_eq!(details[4].target.as_deref(), Some("agent_1.config.rebalance_schedule"));
    assert_eq!(details[4].message, "rebalance schedule `hourly` is not supported");
    assert_eq!(details[5].target.as_deref(), Some("risk_1.config.max_position"));
    assert_eq!(details[5].message, "risk field `max_position` must be between 0 and 1");
    assert_eq!(details[6].target.as_deref(), Some("risk_1.config.max_turnover"));
    assert_eq!(details[6].message, "risk field `max_turnover` must be >= 0");
    assert_eq!(details[7].message, "execution module `builtin.execution.live` is not supported in the current beta");
    assert!(details.iter().all(|d| d.span_label.is_none()));
}

#[test]
fn comma_separated_values_are_trimmed_and_empty_items_dropped() {
    assert_eq!(config_csv_items(" a, b ,,c ,"), strings(&["a", "b", "c"]));
    assert!(config_csv_items("").is_empty());
    assert!(config_csv_items(" , ").is_empty());
    let config = obj(vec![("rebalance_symbols", text("BTCUSDT,ETHUSDT"))]);
    assert_eq!(config_csv_values(&config, "rebalance_symbols"), strings(&["BTCUSDT", "ETHUSDT"]));
    assert!(config_csv_values(&config, "missing").is_empty());
}

#[test]
fn float_literals_follow_the_parser_grammar() {
    for ok in ["0.7", "1", "-2.5", "+3.", ".5", "1e10", "1E-3", "2.5e+4", "inf", "-Infinity", "NaN"] {
        assert!(is_float_literal(ok), "{ok} should parse");
        assert!(ok.parse::<f64>().is_ok());
    }
    for bad in ["bad", "", ".", "e5", "1e", "1.2.3", "1_000", "+-1", "0x10", "1 ", "infinit"] {
        assert!(!is_float_literal(bad), "{bad} should not parse");
        assert!(bad.parse::<f64>().is_err());
    }
}

#[test]
fn graph_ids_use_ascii_letters_digits_underscore_and_dash() {
    assert!(validate_graph_id("graph_quality-1").is_ok());
    assert_eq!(validate_graph_id("").unwrap_err(), "graph_id must use only ASCII letters, numbers, '_' or '-'");
    assert!(validate_graph_id("graph/1").is_err());
    assert!(validate_graph_id("图").is_err());
}

#[test]
fn execution_assumption_overrides() {
    assert!(validate_backtest_execution_assumption_overrides(None).is_ok());
    let neg_fee = ExecutionAssumptionOverrideReadings { fee_bps_negative: Some(true), slippage_bps_negative: Some(true), latency_ms: None };
    assert_eq!(
        validate_backtest_execution_assumption_overrides(Some(neg_fee)).unwrap_err(),
        "backtest_options.execution_assumptions.fee_bps must be >= 0"
    );
    let neg_slip = ExecutionAssumptionOverrideReadings { fee_bps_negative: Some(false), slippage_bps_negative: Some(true), latency_ms: None };
    assert_eq!(
        validate_backtest_execution_assumption_overrides(Some(neg_slip)).unwrap_err(),
        "backtest_options.execution_assumptions.slippage_bps must be >= 0"
    );
    let fine = ExecutionAssumptionOverrideReadings { fee_bps_negative: Some(false), slippage_bps_negative: None, latency_ms: Some(5) };
    assert!(validate_backtest_execution_assumption_overrides(Some(fine)).is_ok());

    let profile = obj(vec![("slippage_bps", JsonValue::Number("2".to_string()))]);
    let sources = resolved_execution_assumption_sources(Some(fine), Some(&profile));
    assert_eq!(sources.fee_bps, ExecutionAssumptionValueSource::RequestOverride);
    assert_eq!(sources.slippage_bps, ExecutionAssumptionValueSource::ProfileDefault);
    assert_eq!(sources.latency_ms, ExecutionAssumptionValueSource::RequestOverride);
    let fallback = resolved_execution_assumption_sources(None, None);
    assert_eq!(fallback.fee_bps, ExecutionAssumptionValueSource::BackendFallback);
    assert_eq!(fallback.latency_ms, ExecutionAssumptionValueSource::BackendFallback);
}

fn guard_problem() -> ApiErrorDetail {
    ApiErrorDetail {
        code: "capability_hash_missing".to_string(),
        target: None,
        message: "m".to_string(),
        span_label: None,
        reason: None,
    }
}

#[test]
fn backtest_requests_are_checked_in_order() {
    let graph = obj(vec![("nodes", JsonValue::Array(vec![]))]);
    let refused = admit_backtest_request(Err(vec![guard_problem()]), &input(), &catalog(), None, Some(&graph), None).unwrap_err();
    assert_eq!(refused.error.code, "capability_boundary_violation");
    assert_eq!(refused.details.len(), 1);

    let mut gated = input();
    gated.mode = "live".to_string();
    let refused = admit_backtest_request(Ok(()), &gated, &catalog(), None, Some(&graph), None).unwrap_err();
    assert_eq!(refused.error.code, "capability_gated");
    assert_eq!(codes(&refused.details), vec!["unsupported_runtime_mode"]);

    let negative_fee = ExecutionAssumptionOverrideReadings { fee_bps_negative: Some(true), slippage_bps_negative: None, latency_ms: None };
    let refused = admit_backtest_request(Ok(()), &input(), &catalog(), Some(negative_fee), Some(&graph), None).unwrap_err();
    assert_eq!(refused.error.code, "bad_request");
    assert_eq!(refused.error.message, "backtest_options.execution_assumptions.fee_bps must be >= 0");

    let refused = admit_backtest_request(Ok(()), &input(), &catalog(), None, None, None).unwrap_err();
    assert_eq!(refused.error.message, "回测请求必须包含 graph_json，请从图编辑器发起");

    assert_eq!(admit_backtest_request(Ok(()), &input(), &catalog(), None, Some(&graph), None).unwrap(), BacktestPath::Compiled);
    assert_eq!(admit_backtest_request(Ok(()), &input(), &catalog(), None, Some(&graph), Some("V4")).unwrap(), BacktestPath::V4);
}

#[test]
fn v4_backtests_decide_replay_mode_and_require_execution_data() {
    assert!(tick_replay_requested(Some("TICK_REPLAY")));
    assert!(!tick_replay_requested(Some("bar_replay")));
    assert!(!tick_replay_requested(None));
    assert!(check_v4_execution_data(3).is_ok());
    assert_eq!(check_v4_execution_data(0).unwrap_err().code, "v4_backtest_no_execution_data");
}

#[test]
fn experiment_requests_need_a_graph_after_the_same_checks() {
    let graph = obj(vec![("nodes", JsonValue::Array(vec![]))]);
    let refused = admit_experiment_request(Ok(()), &input(), &catalog(), None, None).unwrap_err();
    assert_eq!(refused.error.code, "bad_request");
    assert_eq!(refused.error.message, "实验请求必须包含 graph_json，请从图编辑器发起");
    let refused = admit_experiment_request(Err(vec![guard_problem()]), &input(), &catalog(), None, None).unwrap_err();
    assert_eq!(refused.error.code, "capability_boundary_violation");
    assert!(admit_experiment_request(Ok(()), &input(), &catalog(), None, Some(&graph)).is_ok());
}
