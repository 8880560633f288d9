use quantpilot::backtest_admission::{check_v4_execution_data, v4_equity_curve_from_snapshot};
use quantpilot::json::JsonValue;
use quantpilot::v4_events::{
    frontend_events_from_v4_backtest_artifact, V4ExecutionCapabilitySource, V4PortfolioPoint, V4RiskDecision,
    V4TrajectoryPoint,
};

fn num(s: &str) -> JsonValue {
    JsonValue::Number(s.to_string())
}

fn keys(v: &JsonValue) -> Vec<String> {
    match v {
        JsonValue::Object(entries) => entries.iter().map(|(k, _)| k.clone()).collect(),
        _ => panic!("not an object"),
    }
}

fn field<'a>(v: &'a JsonValue, key: &str) -> &'a JsonValue {
    match v {
        JsonValue::Object(entries) => &entries.iter().find(|(k, _)| k == key).expect("key should exist").1,
        _ => panic!("not an object"),
    }
}

fn as_text(v: &JsonValue) -> &str {
    match v {
        JsonValue::Str(s) => s.as_str(),
        JsonValue::Number(s) => s.as_str(),
        _ => panic!("not text"),
    }
}

#[test]
fn v4_artifact_events_are_ordered_by_time_then_id() {
    let points = vec![
        V4PortfolioPoint {
            ts_ms: 20,
            cash_balance: num("100.0"),
            net_notional: num("-5.0"),
            gross_notional: num("5.0"),
            equity: num("95.0"),
            equity_text: "95.00".to_string(),
        },
        V4PortfolioPoint {
            ts_ms: 10,
            cash_balance: num("100.0"),
            net_notional: num("0.0"),
            gross_notional: num("0.0"),
            equity: num("100.0"),
            equity_text: "100.00".to_string(),
        },
    ];
    let risks = vec![V4RiskDecision {
        ts_ms: 20,
        target_machine_id: "machine.a".to_string(),
        approved: false,
        reason: "too large".to_string(),
        decision: JsonValue::Object(vec![]),
    }];
    let sources = vec![V4ExecutionCapabilitySource {
        ts_ms: 15,
        target_machine_id: "machine.a".to_string(),
        accepted: true,
        reason: "accepted".to_string(),
        source: JsonValue::Null,
    }];
    let trajectory = vec![V4TrajectoryPoint {
        ts_ms: 10,
        machine_id: "machine.a".to_string(),
        state_id: "armed".to_string(),
        point: JsonValue::Null,
    }];
    let events = frontend_events_from_v4_backtest_artifact("bt", &points, &risks, &sources, &trajectory);
    let ids: Vec<&str> = events.iter().map(|e| e.event_id.as_str()).collect();
    assert_eq!(
        ids,
        vec!["bt_v4_machine_0", "bt_v4_portfolio_1", "bt_v4_execution_capability_0", "bt_v4_portfolio_0", "bt_v4_risk_0"]
    );
    let machine = &events[0];
    assert_eq!(machine.event_type, "V4MachineTrajectoryObserved");
    assert_eq!(machine.summary, "machine.a reached armed");
    assert_eq!(keys(&machine.payload), vec!["artifact_projection", "trace_id", "trajectory"]);
    let portfolio = &events[1];
    assert_eq!(portfolio.summary, "v4 portfolio updated equity 100.00");
    assert_eq!(portfolio.node_id, "v4.execution");
    assert_eq!(as_text(field(&portfolio.payload, "frozen_cash_balance")), "0.0");
    assert_eq!(as_text(field(&portfolio.payload, "trace_id")), "bt_v4_portfolio_trace_1");
    let projection = field(&portfolio.payload, "artifact_projection");
    assert_eq!(as_text(field(projection, "cycle_name")), "v4");
    assert_eq!(as_text(field(projection, "session_index")), "1");
    let execution = &events[2];
    assert_eq!(execution.severity, "Info");
    assert_eq!(as_text(field(&execution.payload, "orders")), "1");
    let risk = &events[4];
    assert_eq!(risk.severity, "Warn");
    assert_eq!(as_text(field(&risk.payload, "status")), "REJECTED");
    assert_eq!(as_text(field(&risk.payload, "reason_code")), "V4_RISK_REJECTED");
    assert_eq!(risk.summary, "too large");
    assert!(events.iter().all(|e| e.envelope.sequence_no == 0));
    assert!(events.iter().all(|e| e.event_id.starts_with("bt") && e.envelope.event_id.is_empty() && e.envelope.run_id.is_empty()));
    for (i, a) in events.iter().enumerate() {
        for b in &events[i + 1..] {
            assert_ne!(a.event_id, b.event_id);
        }
    }
}

fn obj(entries: Vec<(&str, JsonValue)>) -> JsonValue {
    JsonValue::Object(entries.into_iter().map(|(k, v)| (k.to_string(), v)).collect())
}

#[test]
fn equity_curve_keeps_complete_points_of_the_asset_curve() {
    let point = |ts: JsonValue| {
        obj(vec![
            ("ts_ms", ts),
            ("portfolio_value", num("1000.5")),
            ("cash_balance", num("400")),
            ("position_market_value", num("600.5")),
        ])
    };
    let incomplete = obj(vec![("ts_ms", num("3")), ("portfolio_value", num("1.0"))]);
    let curve = JsonValue::Array(vec![point(num("1")), point(num("-2")), point(num("2.5")), incomplete, point(num("4"))]);
    let snapshot = obj(vec![("simulated_execution", obj(vec![("asset_curve", curve)]))]);
    let points = v4_equity_curve_from_snapshot(Some(&snapshot));
    let times: Vec<u64> = points.iter().map(|p| p.ts_ms).collect();
    assert_eq!(times, vec![1, 4]);
    assert_eq!(points[0].equity, "1000.5");
    assert_eq!(points[0].cash_balance, "400");
    assert_eq!(points[0].net_notional, "600.5");
    assert!(check_v4_execution_data(points.len()).is_ok());

    let empty = v4_equity_curve_from_snapshot(Some(&obj(vec![("simulated_execution", obj(vec![]))])));
    assert!(empty.is_empty());
    assert!(v4_equity_curve_from_snapshot(None).is_empty());
    assert_eq!(check_v4_execution_data(empty.len()).unwrap_err().code, "v4_backtest_no_execution_data");
}
