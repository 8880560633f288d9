//! Whether a backtest request is admitted, and on which runtime it runs: the checks a
//! request passes before any backtest work starts, in the order they are made, and the
//! decisions a v4 backtest makes around its run.
use vstd::prelude::*;
use crate::backtest::{is_v4_backtest_request, v4_backtest};
use crate::capabilities::{
    config_problems, details_are, validate_backtest_execution_assumption_overrides,
    validate_runtime_config_capabilities, ApiErrorDetail, CapabilityCatalog, ExecutionAssumptionOverrideReadings,
    RuntimeConfigCapabilityInput,
};
use crate::error::{bad_request, is_bad_request, ApiError};
use crate::json::{items_model, json_get, json_get_exec, json_model, lemma_items_model, Json, JsonValue};
use crate::text::{ascii_lower_seq, eq_ignore_ascii_case, owned, parse_u64, parse_u64_str};

verus! {

/// The runtime a backtest runs on.
#[derive(Clone, Copy, PartialEq, Eq, Debug, Structural)]
pub enum BacktestPath {
    /// The v4 machine runtime.
    V4,
    /// The compiled runtime protocol.
    Compiled,
}

/// A refused backtest request: the refusal and the problems it lists.
#[derive(Debug)]
pub struct BacktestRefusal {
    pub error: ApiError,
    pub details: Vec<ApiErrorDetail>,
}

pub open spec fn boundary_violation_message() -> Seq<char> {
    "运行时写入需要当前的能力哈希和权限边界"@
}

pub open spec fn capability_gated_message() -> Seq<char> {
    "运行时配置使用了当前 Beta 版本未启用的能力"@
}

pub open spec fn graph_missing_message() -> Seq<char> {
    "回测请求必须包含 graph_json，请从图编辑器发起"@
}

/// The problem of a backtest's execution assumption overrides: fees first, then
/// slippage, each must not be negative.
pub open spec fn override_problem(overrides: Option<ExecutionAssumptionOverrideReadings>) -> Option<Seq<char>> {
    match overrides {
        None => None,
        Some(o) => if o.fee_bps_negative == Some(true) {
            Some("backtest_options.execution_assumptions.fee_bps must be >= 0"@)
        } else if o.slippage_bps_negative == Some(true) {
            Some("backtest_options.execution_assumptions.slippage_bps must be >= 0"@)
        } else {
            None
        },
    }
}

pub open spec fn experiment_graph_missing_message() -> Seq<char> {
    "实验请求必须包含 graph_json，请从图编辑器发起"@
}

/// What the checks before the graph decide: `r` is the refusal of the first check that
/// fails, in the order the capability guard, the runtime configuration's capabilities,
/// the execution assumption overrides.
pub open spec fn early_refusal_is(
    r: Option<BacktestRefusal>,
    guard: Result<(), Vec<ApiErrorDetail>>,
    input: RuntimeConfigCapabilityInput,
    catalog: CapabilityCatalog,
    overrides: Option<ExecutionAssumptionOverrideReadings>,
) -> bool {
    match guard {
        Err(d) => r matches Some(e) && is_bad_request(e.error, "capability_boundary_violation"@, boundary_violation_message())
            && e.details@ == d@,
        Ok(_) => if config_problems(input, catalog).len() > 0 {
            r matches Some(e) && is_bad_request(e.error, "capability_gated"@, capability_gated_message()) && details_are(
                e.details@,
                config_problems(input, catalog),
            )
        } else if override_problem(overrides) is Some {
            r matches Some(e) && is_bad_request(e.error, "bad_request"@, override_problem(overrides).unwrap())
                && e.details@.len() == 0
        } else {
            r is None
        },
    }
}

fn early_refusal(
    guard: Result<(), Vec<ApiErrorDetail>>,
    input: &RuntimeConfigCapabilityInput,
    catalog: &CapabilityCatalog,
    overrides: Option<ExecutionAssumptionOverrideReadings>,
) -> (r: Option<BacktestRefusal>)
    ensures
        early_refusal_is(r, guard, *input, *catalog, overrides),
{
    match guard {
        Err(d) => {
            return Some(
                BacktestRefusal {
                    error: bad_request("capability_boundary_violation", owned("运行时写入需要当前的能力哈希和权限边界")),
                    details: d,
                },
            );
        },
        Ok(_) => {},
    }
    match validate_runtime_config_capabilities(input, catalog) {
        Err(d) => {
            return Some(
                BacktestRefusal {
                    error: bad_request("capability_gated", owned("运行时配置使用了当前 Beta 版本未启用的能力")),
                    details: d,
                },
            );
        },
        Ok(()) => {},
    }
    match validate_backtest_execution_assumption_overrides(overrides) {
        Err(m) => Some(BacktestRefusal { error: bad_request("bad_request", m), details: Vec::new() }),
        Ok(()) => None,
    }
}

/// Admits a backtest request or refuses it, checking in this order: the capability
/// guard (`capability_boundary_violation` with the guard's problems), the runtime
/// configuration's capabilities (`capability_gated` with its problems), the execution
/// assumption overrides (`bad_request`), and the graph (`bad_request` when it is
/// missing). An admitted request runs on the v4 runtime when it asks for it or its graph
/// carries a v4 machine graph or source, else on the compiled protocol.
pub fn admit_backtest_request(
    guard: Result<(), Vec<ApiErrorDetail>>,
    input: &RuntimeConfigCapabilityInput,
    catalog: &CapabilityCatalog,
    overrides: Option<ExecutionAssumptionOverrideReadings>,
    graph_json: Option<&JsonValue>,
    runtime_kind: Option<&str>,
) -> (r: Result<BacktestPath, BacktestRefusal>)
    ensures
        match guard {
            Err(d) => r matches Err(e) && is_bad_request(e.error, "capability_boundary_violation"@, boundary_violation_message())
                && e.details@ == d@,
            Ok(_) => if config_problems(*input, *catalog).len() > 0 {
                r matches Err(e) && is_bad_request(e.error, "capability_gated"@, capability_gated_message()) && details_are(
                    e.details@,
                    config_problems(*input, *catalog),
                )
            } else if override_problem(overrides) is Some {
                r matches Err(e) && is_bad_request(e.error, "bad_request"@, override_problem(overrides).unwrap())
                    && e.details@.len() == 0
            } else {
                match graph_json {
                    None => r matches Err(e) && is_bad_request(e.error, "bad_request"@, graph_missing_message())
                        && e.details@.len() == 0,
                    Some(g) => r == Ok::<BacktestPath, BacktestRefusal>(
                        if v4_backtest(
                            match runtime_kind {
                                Some(k) => Some(k@),
                                None => None,
                            },
                            g@,
                        ) {
                            BacktestPath::V4
                        } else {
                            BacktestPath::Compiled
                        },
                    ),
                }
            },
        },
{
    if let Some(e) = early_refusal(guard, input, catalog, overrides) {
        return Err(e);
    }
    match graph_json {
        None => Err(
            BacktestRefusal {
                error: bad_request("bad_request", owned("回测请求必须包含 graph_json，请从图编辑器发起")),
                details: Vec::new(),
            },
        ),
        Some(g) => {
            if is_v4_backtest_request(runtime_kind, g) {
                Ok(BacktestPath::V4)
            } else {
                Ok(BacktestPath::Compiled)
            }
        },
    }
}

/// Admits an experiment request or refuses it, with the checks of a backtest request in
/// the same order; a missing graph is refused with the experiment's own message.
pub fn admit_experiment_request(
    guard: Result<(), Vec<ApiErrorDetail>>,
    input: &RuntimeConfigCapabilityInput,
    catalog: &CapabilityCatalog,
    overrides: Option<ExecutionAssumptionOverrideReadings>,
    graph_json: Option<&JsonValue>,
) -> (r: Result<(), BacktestRefusal>)
    ensures
        match r {
            Ok(()) => early_refusal_is(None, guard, *input, *catalog, overrides) && graph_json is Some,
            Err(e) => early_refusal_is(Some(e), guard, *input, *catalog, overrides) || (early_refusal_is(
                None,
                guard,
                *input,
                *catalog,
                overrides,
            ) && graph_json is None && is_bad_request(e.error, "bad_request"@, experiment_graph_missing_message())
                && e.details@.len() == 0),
        },
{
    if let Some(e) = early_refusal(guard, input, catalog, overrides) {
        return Err(e);
    }
    match graph_json {
        None => Err(
            BacktestRefusal {
                error: bad_request("bad_request", owned("实验请求必须包含 graph_json，请从图编辑器发起")),
                details: Vec::new(),
            },
        ),
        Some(_) => Ok(()),
    }
}

/// A v4 backtest replays tick by tick when its replay mode is `tick_replay`, in any case.
pub fn tick_replay_requested(replay_mode: Option<&str>) -> (r: bool)
    ensures
        r == match replay_mode {
            Some(m) => ascii_lower_seq(m@) == ascii_lower_seq("tick_replay"@),
            None => false,
        },
{
    match replay_mode {
        Some(m) => eq_ignore_ascii_case(m, "tick_replay"),
        None => false,
    }
}

pub open spec fn no_execution_data_message() -> Seq<char> {
    "v4 回测没有执行数据：最终快照缺少 simulated_execution.asset_curve"@
}

/// A v4 backtest whose final snapshot has no asset curve produced no execution data and
/// is refused.
pub fn check_v4_execution_data(equity_point_count: usize) -> (r: Result<(), ApiError>)
    ensures
        equity_point_count > 0 ==> r is Ok,
        equity_point_count == 0 ==> (r matches Err(e) && is_bad_request(
            e,
            "v4_backtest_no_execution_data"@,
            no_execution_data_message(),
        )),
{
    if equity_point_count == 0 {
        Err(bad_request("v4_backtest_no_execution_data", owned("v4 回测没有执行数据：最终快照缺少 simulated_execution.asset_curve")))
    } else {
        Ok(())
    }
}

/// `Value::as_u64` on a number's text: a non-negative integer that fits in 64 bits.
pub open spec fn json_as_u64(v: Json) -> Option<u64> {
    match v {
        Json::Number(t) => if t.len() > 0 && t[0] == '+' {
            None
        } else {
            parse_u64(t)
        },
        _ => None,
    }
}

/// A point of an asset curve as plain values: its time, and the text of its portfolio
/// value, cash balance and position market value.
pub type EquityPointModel = (u64, Seq<char>, Seq<char>, Seq<char>);

/// The point an asset-curve entry gives: it needs a `ts_ms` that is a non-negative
/// integer and the three amounts as numbers; other entries give none.
pub open spec fn equity_point_of(p: Json) -> Option<EquityPointModel> {
    match (json_get(p, "portfolio_value"@), json_get(p, "cash_balance"@), json_get(p, "position_market_value"@)) {
        (Some(Json::Number(a)), Some(Json::Number(b)), Some(Json::Number(c))) => match json_get(p, "ts_ms"@) {
            Some(t) => match json_as_u64(t) {
                Some(ts) => Some((ts, a, b, c)),
                None => None,
            },
            None => None,
        },
        _ => None,
    }
}

/// The points of the entries that give one, in order.
pub open spec fn equity_points(items: Seq<Json>) -> Seq<EquityPointModel>
    decreases items.len(),
{
    if items.len() == 0 {
        seq![]
    } else {
        let p = equity_points(items.drop_last());
        match equity_point_of(items.last()) {
            Some(x) => p.push(x),
            None => p,
        }
    }
}

/// The entries of a final snapshot's `simulated_execution.asset_curve` array; none when
/// there is no snapshot or no such array.
pub open spec fn asset_curve_items(snapshot: Option<Json>) -> Seq<Json> {
    match snapshot {
        Some(s) => match json_get(s, "simulated_execution"@) {
            Some(sim) => match json_get(sim, "asset_curve"@) {
                Some(Json::Array(items)) => items,
                _ => seq![],
            },
            None => seq![],
        },
        None => seq![],
    }
}

/// A point of a v4 backtest's equity curve: its time, and its amounts as the numbers'
/// text.
#[derive(Clone, Debug)]
pub struct V4EquityPointReading {
    pub ts_ms: u64,
    pub equity: String,
    pub cash_balance: String,
    pub net_notional: String,
}

pub open spec fn equity_reading_model(r: V4EquityPointReading) -> EquityPointModel {
    (r.ts_ms, r.equity@, r.cash_balance@, r.net_notional@)
}

fn json_as_u64_exec(v: &JsonValue) -> (r: Option<u64>)
    ensures
        r == json_as_u64(v@),
{
    match v {
        JsonValue::Number(t) => {
            let n = t.as_str().unicode_len();
            if n > 0 && t.as_str().get_char(0) == '+' {
                None
            } else {
                parse_u64_str(t.as_str())
            }
        },
        _ => None,
    }
}

fn number_text(v: Option<&JsonValue>) -> (r: Option<String>)
    ensures
        match r {
            Some(t) => v matches Some(x) && x@ == Json::Number(t@),
            None => !(v matches Some(x) && x@ is Number),
        },
{
    match v {
        Some(JsonValue::Number(t)) => Some(t.clone()),
        _ => None,
    }
}

fn equity_point_exec(p: &JsonValue) -> (r: Option<V4EquityPointReading>)
    ensures
        match r {
            Some(x) => equity_point_of(p@) == Some(equity_reading_model(x)),
            None => equity_point_of(p@).is_none(),
        },
{
    let a = number_text(json_get_exec(p, "portfolio_value"));
    let b = number_text(json_get_exec(p, "cash_balance"));
    let c = number_text(json_get_exec(p, "position_market_value"));
    match (a, b, c) {
        (Some(a), Some(b), Some(c)) => match json_get_exec(p, "ts_ms") {
            Some(t) => match json_as_u64_exec(t) {
                Some(ts) => Some(V4EquityPointReading { ts_ms: ts, equity: a, cash_balance: b, net_notional: c }),
                None => None,
            },
            None => None,
        },
        _ => None,
    }
}

/// The equity curve of a v4 backtest, read from its final snapshot's
/// `simulated_execution.asset_curve`: one point per entry that has a `ts_ms` that is a
/// non-negative integer and numbers for `portfolio_value`, `cash_balance` and
/// `position_market_value`, in order; empty without a snapshot or such an array.
pub fn v4_equity_curve_from_snapshot(final_snapshot: Option<&JsonValue>) -> (r: Vec<V4EquityPointReading>)
    ensures
        r@.map_values(|x: V4EquityPointReading| equity_reading_model(x)) == equity_points(
            asset_curve_items(
                match final_snapshot {
                    Some(s) => Some(s@),
                    None => None,
                },
            ),
        ),
{
    let mut out: Vec<V4EquityPointReading> = Vec::new();
    let items: &Vec<JsonValue> = match final_snapshot {
        Some(s) => match json_get_exec(s, "simulated_execution") {
            Some(sim) => match json_get_exec(sim, "asset_curve") {
                Some(JsonValue::Array(items)) => items,
                _ => {
                    assert(out@.map_values(|x: V4EquityPointReading| equity_reading_model(x)) =~= Seq::<EquityPointModel>::empty());
                    return out;
                },
            },
            None => {
                assert(out@.map_values(|x: V4EquityPointReading| equity_reading_model(x)) =~= Seq::<EquityPointModel>::empty());
                return out;
            },
        },
        None => {
            assert(out@.map_values(|x: V4EquityPointReading| equity_reading_model(x)) =~= Seq::<EquityPointModel>::empty());
            return out;
        },
    };
    let ghost model = items_model(items@);
    proof {
        lemma_items_model(items@);
    }
    let mut i: usize = 0;
    while i < items.len()
        invariant
            i <= items@.len(),
            model == items_model(items@),
            model.len() == items@.len(),
            forall|j: int| 0 <= j < items@.len() ==> #[trigger] model[j] == json_model(items@[j]),
            out@.map_values(|x: V4EquityPointReading| equity_reading_model(x)) == equity_points(model.subrange(0, i as int)),
        decreases items@.len() - i,
    {
        let ghost before = out@;
        assert(model.subrange(0, i + 1).drop_last() =~= model.subrange(0, i as int));
        assert(model.subrange(0, i + 1).last() == items@[i as int]@);
        match equity_point_exec(&items[i]) {
            Some(x) => {
                out.push(x);
                assert(out@.map_values(|x: V4EquityPointReading| equity_reading_model(x)) =~= before.map_values(
                    |x: V4EquityPointReading| equity_reading_model(x),
                ).push(equity_reading_model(x)));
            },
            None => {},
        }
        i += 1;
    }
    assert(model.subrange(0, items@.len() as int) =~= model);
    out
}

} // verus!
