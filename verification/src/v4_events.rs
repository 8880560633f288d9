//! The frontend events of a v4 machine backtest, projected from its artifact: portfolio
//! points, risk-plane decisions, execution capability sources and machine trajectory
//! points, ordered by time and then by event id.
use vstd::prelude::*;
use crate::events::{envelope_unset, push_entry, FrontendRuntimeEvent, RuntimeEventEnvelope};
use crate::json::{entries_model, json_clone, json_str, json_u64, Json, JsonValue};
use crate::projection::{projection_json, projection_json_exec, BacktestEventProjectionContext};
use crate::text::{cat, cat3, dec, lemma_dec_injective, lemma_text_le_order, owned, text_le, text_le_exec, u64_text};

verus! {

broadcast use vstd::std_specs::vec::group_vec_axioms;

/// A point of a v4 backtest's asset curve. Its decimal fields are JSON numbers, and the
/// equity is also given as the frontend shows it, with two decimals.
#[derive(Debug)]
pub struct V4PortfolioPoint {
    pub ts_ms: u64,
    pub cash_balance: JsonValue,
    pub net_notional: JsonValue,
    pub gross_notional: JsonValue,
    pub equity: JsonValue,
    pub equity_text: String,
}

/// A decision of the v4 risk plane, with its JSON form.
#[derive(Debug)]
pub struct V4RiskDecision {
    pub ts_ms: u64,
    pub target_machine_id: String,
    pub approved: bool,
    pub reason: String,
    pub decision: JsonValue,
}

/// A source of execution capability in a v4 backtest, with its JSON form.
#[derive(Debug)]
pub struct V4ExecutionCapabilitySource {
    pub ts_ms: u64,
    pub target_machine_id: String,
    pub accepted: bool,
    pub reason: String,
    pub source: JsonValue,
}

/// A point of a v4 machine's trajectory, with its JSON form.
#[derive(Debug)]
pub struct V4TrajectoryPoint {
    pub ts_ms: u64,
    pub machine_id: String,
    pub state_id: String,
    pub point: JsonValue,
}

/// The projection of event `i` of a v4 backtest at time `ts`.
pub open spec fn v4_projection(i: nat, ts: u64) -> Json {
    projection_json((i, "v4"@, ts))
}

/// The common frame of a v4 event: id, type, source, node, time, severity, summary, no
/// envelope.
pub open spec fn v4_frame(
    e: FrontendRuntimeEvent,
    id: Seq<char>,
    event_type: Seq<char>,
    source: Seq<char>,
    node: Seq<char>,
    ts: u64,
    severity: Seq<char>,
    summary: Seq<char>,
) -> bool {
    &&& e.event_id@ == id
    &&& e.event_type@ == event_type
    &&& e.source_id@ == source
    &&& e.node_id@ == node
    &&& e.event_time_ms == ts
    &&& e.severity@ == severity
    &&& e.summary@ == summary
    &&& envelope_unset(e.envelope)
}

/// `e` is the portfolio event of point `i`.
pub open spec fn v4_portfolio_event(e: FrontendRuntimeEvent, bid: Seq<char>, i: nat, p: V4PortfolioPoint) -> bool {
    &&& v4_frame(
        e,
        bid + "_v4_portfolio_"@ + dec(i),
        "PortfolioUpdated"@,
        "v4.runtime"@,
        "v4.execution"@,
        p.ts_ms,
        "Info"@,
        "v4 portfolio updated equity "@ + p.equity_text@,
    )
    &&& e.payload@ == Json::Object(seq![
        ("artifact_projection"@, v4_projection(i, p.ts_ms)),
        ("available_cash_balance"@, p.cash_balance@),
        ("cash_balance"@, p.cash_balance@),
        ("equity_estimate"@, p.equity@),
        ("frozen_cash_balance"@, Json::Number("0.0"@)),
        ("open_orders"@, Json::Array(seq![])),
        ("positions"@, Json::Number(dec(0))),
        ("total_gross_notional"@, p.gross_notional@),
        ("total_leverage"@, Json::Number("0.0"@)),
        ("total_net_notional"@, p.net_notional@),
        ("trace_id"@, Json::Str(bid + "_v4_portfolio_trace_"@ + dec(i))),
    ])
}

/// `e` is the event of risk decision `i`: a warning when the decision rejects.
pub open spec fn v4_risk_event(e: FrontendRuntimeEvent, bid: Seq<char>, i: nat, d: V4RiskDecision) -> bool {
    &&& v4_frame(
        e,
        bid + "_v4_risk_"@ + dec(i),
        "RiskDecisionProduced"@,
        "v4.risk_plane"@,
        d.target_machine_id@,
        d.ts_ms,
        if d.approved {
            "Info"@
        } else {
            "Warn"@
        },
        d.reason@,
    )
    &&& e.payload@ == Json::Object(seq![
        ("artifact_projection"@, v4_projection(i, d.ts_ms)),
        ("decision"@, d.decision@),
        ("reason_code"@, Json::Str(if d.approved { "V4_RISK_APPROVED"@ } else { "V4_RISK_REJECTED"@ })),
        ("status"@, Json::Str(if d.approved { "APPROVED"@ } else { "REJECTED"@ })),
        ("trace_id"@, Json::Str(bid + "_v4_risk_trace_"@ + dec(i))),
    ])
}

/// `e` is the event of execution capability source `i`: one planned order when the
/// source is accepted, none and a warning when it is not.
pub open spec fn v4_execution_event(e: FrontendRuntimeEvent, bid: Seq<char>, i: nat, s: V4ExecutionCapabilitySource) -> bool {
    &&& v4_frame(
        e,
        bid + "_v4_execution_capability_"@ + dec(i),
        "ExecutionPlanned"@,
        "v4.execution_capability"@,
        s.target_machine_id@,
        s.ts_ms,
        if s.accepted {
            "Info"@
        } else {
            "Warn"@
        },
        s.reason@,
    )
    &&& e.payload@ == Json::Object(seq![
        ("artifact_projection"@, v4_projection(i, s.ts_ms)),
        ("capability_source"@, s.source@),
        ("orders"@, Json::Number(dec(if s.accepted { 1 } else { 0 }))),
        ("trace_id"@, Json::Str(bid + "_v4_execution_trace_"@ + dec(i))),
    ])
}

/// `e` is the event of trajectory point `i`.
pub open spec fn v4_trajectory_event(e: FrontendRuntimeEvent, bid: Seq<char>, i: nat, p: V4TrajectoryPoint) -> bool {
    &&& v4_frame(
        e,
        bid + "_v4_machine_"@ + dec(i),
        "V4MachineTrajectoryObserved"@,
        "v4.machine_graph"@,
        p.machine_id@,
        p.ts_ms,
        "Info"@,
        p.machine_id@ + " reached "@ + p.state_id@,
    )
    &&& e.payload@ == Json::Object(seq![
        ("artifact_projection"@, v4_projection(i, p.ts_ms)),
        ("trace_id"@, Json::Str(bid + "_v4_machine_trace_"@ + dec(i))),
        ("trajectory"@, p.point@),
    ])
}

fn v4_context(i: usize, ts: u64) -> (r: JsonValue)
    ensures
        r@ == v4_projection(i as nat, ts),
{
    projection_json_exec(&BacktestEventProjectionContext { session_index: i, cycle_name: owned("v4"), session_started_at_ms: ts })
}

fn indexed(bid: &str, middle: &str, i: usize) -> (r: String)
    ensures
        r@ == bid@ + middle@ + dec(i as nat),
{
    cat3(bid, middle, u64_text(i as u64).as_str())
}

fn frame(
    id: String,
    event_type: &str,
    source: &str,
    node: &str,
    ts: u64,
    severity: &str,
    summary: String,
    payload: JsonValue,
) -> (r: FrontendRuntimeEvent)
    ensures
        v4_frame(r, id@, event_type@, source@, node@, ts, severity@, summary@),
        r.payload@ == payload@,
{
    FrontendRuntimeEvent {
        event_id: id,
        event_type: owned(event_type),
        source_id: owned(source),
        node_id: owned(node),
        event_time_ms: ts,
        severity: owned(severity),
        summary,
        payload,
        envelope: RuntimeEventEnvelope::empty(),
    }
}

fn zero_point_zero() -> (r: JsonValue)
    ensures
        r@ == Json::Number("0.0"@),
{
    JsonValue::Number(owned("0.0"))
}

/// The portfolio event of point `i`.
pub fn v4_portfolio_event_exec(bid: &str, i: usize, p: &V4PortfolioPoint) -> (r: FrontendRuntimeEvent)
    ensures
        v4_portfolio_event(r, bid@, i as nat, *p),
{
    let mut e: Vec<(String, JsonValue)> = Vec::new();
    push_entry(&mut e, "artifact_projection", v4_context(i, p.ts_ms));
    push_entry(&mut e, "available_cash_balance", json_clone(&p.cash_balance));
    push_entry(&mut e, "cash_balance", json_clone(&p.cash_balance));
    push_entry(&mut e, "equity_estimate", json_clone(&p.equity));
    push_entry(&mut e, "frozen_cash_balance", zero_point_zero());
    let no_orders: Vec<JsonValue> = Vec::new();
    assert(crate::json::items_model(no_orders@) =~= Seq::<Json>::empty());
    push_entry(&mut e, "open_orders", JsonValue::Array(no_orders));
    push_entry(&mut e, "positions", json_u64(0));
    push_entry(&mut e, "total_gross_notional", json_clone(&p.gross_notional));
    push_entry(&mut e, "total_leverage", zero_point_zero());
    push_entry(&mut e, "total_net_notional", json_clone(&p.net_notional));
    push_entry(&mut e, "trace_id", JsonValue::Str(indexed(bid, "_v4_portfolio_trace_", i)));
    assert(entries_model(e@) =~= seq![
        ("artifact_projection"@, v4_projection(i as nat, p.ts_ms)),
        ("available_cash_balance"@, p.cash_balance@),
        ("cash_balance"@, p.cash_balance@),
        ("equity_estimate"@, p.equity@),
        ("frozen_cash_balance"@, Json::Number("0.0"@)),
        ("open_orders"@, Json::Array(seq![])),
        ("positions"@, Json::Number(dec(0))),
        ("total_gross_notional"@, p.gross_notional@),
        ("total_leverage"@, Json::Number("0.0"@)),
        ("total_net_notional"@, p.net_notional@),
        ("trace_id"@, Json::Str(bid@ + "_v4_portfolio_trace_"@ + dec(i as nat))),
    ]);
    frame(
        indexed(bid, "_v4_portfolio_", i),
        "PortfolioUpdated",
        "v4.runtime",
        "v4.execution",
        p.ts_ms,
        "Info",
        cat("v4 portfolio updated equity ", p.equity_text.as_str()),
        JsonValue::Object(e),
    )
}

/// The event of risk decision `i`.
pub fn v4_risk_event_exec(bid: &str, i: usize, d: &V4RiskDecision) -> (r: FrontendRuntimeEvent)
    ensures
        v4_risk_event(r, bid@, i as nat, *d),
{
    let mut e: Vec<(String, JsonValue)> = Vec::new();
    push_entry(&mut e, "artifact_projection", v4_context(i, d.ts_ms));
    push_entry(&mut e, "decision", json_clone(&d.decision));
    push_entry(&mut e, "reason_code", json_str(if d.approved { "V4_RISK_APPROVED" } else { "V4_RISK_REJECTED" }));
    push_entry(&mut e, "status", json_str(if d.approved { "APPROVED" } else { "REJECTED" }));
    push_entry(&mut e, "trace_id", JsonValue::Str(indexed(bid, "_v4_risk_trace_", i)));
    assert(entries_model(e@) =~= seq![
        ("artifact_projection"@, v4_projection(i as nat, d.ts_ms)),
        ("decision"@, d.decision@),
        ("reason_code"@, Json::Str(if d.approved { "V4_RISK_APPROVED"@ } else { "V4_RISK_REJECTED"@ })),
        ("status"@, Json::Str(if d.approved { "APPROVED"@ } else { "REJECTED"@ })),
        ("trace_id"@, Json::Str(bid@ + "_v4_risk_trace_"@ + dec(i as nat))),
    ]);
    frame(
        indexed(bid, "_v4_risk_", i),
        "RiskDecisionProduced",
        "v4.risk_plane",
        d.target_machine_id.as_str(),
        d.ts_ms,
        if d.approved {
            "Info"
        } else {
            "Warn"
        },
        owned(d.reason.as_str()),
        JsonValue::Object(e),
    )
}

/// The event of execution capability source `i`.
pub fn v4_execution_event_exec(bid: &str, i: usize, s: &V4ExecutionCapabilitySource) -> (r: FrontendRuntimeEvent)
    ensures
        v4_execution_event(r, bid@, i as nat, *s),
{
    let mut e: Vec<(String, JsonValue)> = Vec::new();
    push_entry(&mut e, "artifact_projection", v4_context(i, s.ts_ms));
    push_entry(&mut e, "capability_source", json_clone(&s.source));
    push_entry(&mut e, "orders", json_u64(if s.accepted { 1 } else { 0 }));
    push_entry(&mut e, "trace_id", JsonValue::Str(indexed(bid, "_v4_execution_trace_", i)));
    assert(entries_model(e@) =~= seq![
        ("artifact_projection"@, v4_projection(i as nat, s.ts_ms)),
        ("capability_source"@, s.source@),
        ("orders"@, Json::Number(dec(if s.accepted { 1 } else { 0 }))),
        ("trace_id"@, Json::Str(bid@ + "_v4_execution_trace_"@ + dec(i as nat))),
    ]);
    frame(
        indexed(bid, "_v4_execution_capability_", i),
        "ExecutionPlanned",
        "v4.execution_capability",
        s.target_machine_id.as_str(),
        s.ts_ms,
        if s.accepted {
            "Info"
        } else {
            "Warn"
        },
        owned(s.reason.as_str()),
        JsonValue::Object(e),
    )
}

/// The event of trajectory point `i`.
pub fn v4_trajectory_event_exec(bid: &str, i: usize, p: &V4TrajectoryPoint) -> (r: FrontendRuntimeEvent)
    ensures
        v4_trajectory_event(r, bid@, i as nat, *p),
{
    let mut e: Vec<(String, JsonValue)> = Vec::new();
    push_entry(&mut e, "artifact_projection", v4_context(i, p.ts_ms));
    push_entry(&mut e, "trace_id", JsonValue::Str(indexed(bid, "_v4_machine_trace_", i)));
    push_entry(&mut e, "trajectory", json_clone(&p.point));
    assert(entries_model(e@) =~= seq![
        ("artifact_projection"@, v4_projection(i as nat, p.ts_ms)),
        ("trace_id"@, Json::Str(bid@ + "_v4_machine_trace_"@ + dec(i as nat))),
        ("trajectory"@, p.point@),
    ]);
    frame(
        indexed(bid, "_v4_machine_", i),
        "V4MachineTrajectoryObserved",
        "v4.machine_graph",
        p.machine_id.as_str(),
        p.ts_ms,
        "Info",
        cat3(p.machine_id.as_str(), " reached ", p.state_id.as_str()),
        JsonValue::Object(e),
    )
}

/// Event `a` comes no later than `b`: earlier, or at the same time with an id that
/// sorts no later.
pub open spec fn key_le(a: FrontendRuntimeEvent, b: FrontendRuntimeEvent) -> bool {
    a.event_time_ms < b.event_time_ms || (a.event_time_ms == b.event_time_ms && text_le(a.event_id@, b.event_id@))
}

/// Where event `x` goes in `s`: before the first event, from `j` on, that comes after it.
pub open spec fn key_insert_pos(s: Seq<FrontendRuntimeEvent>, x: FrontendRuntimeEvent, j: int) -> int
    decreases s.len() - j,
{
    if j < 0 || j >= s.len() {
        s.len() as int
    } else if !key_le(s[j], x) {
        j
    } else {
        key_insert_pos(s, x, j + 1)
    }
}

/// `s` ordered by time and then by event id, equal events keeping their order.
pub open spec fn sort_by_time_and_id(s: Seq<FrontendRuntimeEvent>) -> Seq<FrontendRuntimeEvent>
    decreases s.len(),
{
    if s.len() == 0 {
        seq![]
    } else {
        let p = sort_by_time_and_id(s.drop_last());
        p.insert(key_insert_pos(p, s.last(), 0), s.last())
    }
}

/// The events of `s` are ordered by time and then by event id.
pub open spec fn ordered_by_time_and_id(s: Seq<FrontendRuntimeEvent>) -> bool {
    forall|i: int, j: int| 0 <= i < j < s.len() ==> key_le(#[trigger] s[i], #[trigger] s[j])
}

proof fn lemma_key_insert_pos(s: Seq<FrontendRuntimeEvent>, x: FrontendRuntimeEvent, j: int)
    requires
        0 <= j <= s.len(),
    ensures
        forall|i: int| j <= i < key_insert_pos(s, x, j) ==> key_le(#[trigger] s[i], x),
        key_insert_pos(s, x, j) < s.len() ==> !key_le(s[key_insert_pos(s, x, j)], x),
        j <= key_insert_pos(s, x, j) <= s.len(),
    decreases s.len() - j,
{
    if j < s.len() && key_le(s[j], x) {
        lemma_key_insert_pos(s, x, j + 1);
    }
}

proof fn lemma_key_le_order(a: FrontendRuntimeEvent, b: FrontendRuntimeEvent, c: FrontendRuntimeEvent)
    ensures
        key_le(a, b) || key_le(b, a),
        key_le(a, b) && key_le(b, c) ==> key_le(a, c),
{
    lemma_text_le_order(a.event_id@, b.event_id@, c.event_id@);
}

/// Sorting by time and id orders the events and keeps every one of them.
pub proof fn lemma_sort_by_time_and_id(s: Seq<FrontendRuntimeEvent>)
    ensures
        ordered_by_time_and_id(sort_by_time_and_id(s)),
        sort_by_time_and_id(s).to_multiset() == s.to_multiset(),
        sort_by_time_and_id(s).len() == s.len(),
    decreases s.len(),
{
    broadcast use vstd::seq_lib::to_multiset_insert, vstd::seq_lib::to_multiset_build;

    if s.len() == 0 {
        assert(s =~= Seq::<FrontendRuntimeEvent>::empty());
    } else {
        let init = s.drop_last();
        lemma_sort_by_time_and_id(init);
        let q = sort_by_time_and_id(init);
        let x = s.last();
        lemma_key_insert_pos(q, x, 0);
        let pos = key_insert_pos(q, x, 0);
        let r = q.insert(pos, x);
        assert(r == sort_by_time_and_id(s));
        assert(init.push(x) =~= s);
        assert forall|i: int, j: int| 0 <= i < j < r.len() implies key_le(#[trigger] r[i], #[trigger] r[j]) by {
            if i < pos && j < pos {
                assert(r[i] == q[i] && r[j] == q[j]);
            } else if i < pos && j == pos {
                assert(r[i] == q[i]);
            } else if i < pos && j > pos {
                assert(r[i] == q[i] && r[j] == q[j - 1]);
                lemma_key_le_order(q[i], x, q[j - 1]);
            } else if i == pos {
                assert(r[j] == q[j - 1]);
                lemma_key_le_order(q[pos], x, q[pos]);
                if j - 1 > pos {
                    assert(key_le(q[pos], q[j - 1]));
                    lemma_key_le_order(x, q[pos], q[j - 1]);
                }
            } else {
                assert(r[i] == q[i - 1] && r[j] == q[j - 1]);
            }
        }
    }
}

/// Orders events by time and then by event id, keeping the order of equal events.
pub fn sort_events_by_time_and_id(events: Vec<FrontendRuntimeEvent>) -> (r: Vec<FrontendRuntimeEvent>)
    ensures
        r@ == sort_by_time_and_id(events@),
{
    let ghost orig = events@;
    let n = events.len();
    let mut rest = events;
    let mut sorted: Vec<FrontendRuntimeEvent> = Vec::new();
    let mut i: usize = 0;
    while i < n
        invariant
            n == orig.len(),
            i <= n,
            rest@ == orig.subrange(i as int, n as int),
            sorted@ == sort_by_time_and_id(orig.subrange(0, i as int)),
        decreases n - i,
    {
        assert(rest@[0] == orig[i as int]);
        let e = rest.remove(0);
        let ghost prefix = orig.subrange(0, i + 1);
        assert(prefix.drop_last() =~= orig.subrange(0, i as int));
        let ghost before = sorted@;
        let mut j: usize = 0;
        while j < sorted.len() && (sorted[j].event_time_ms < e.event_time_ms || (sorted[j].event_time_ms
            == e.event_time_ms && text_le_exec(sorted[j].event_id.as_str(), e.event_id.as_str())))
            invariant
                j <= sorted@.len(),
                sorted@ == before,
                key_insert_pos(sorted@, e, 0) == key_insert_pos(sorted@, e, j as int),
            decreases sorted@.len() - j,
        {
            j += 1;
        }
        sorted.insert(j, e);
        assert(rest@ =~= orig.subrange(i + 1, n as int));
        i += 1;
    }
    assert(orig.subrange(0, n as int) =~= orig);
    sorted
}

/// `pre` holds the portfolio, risk, execution and trajectory events of a v4 backtest, in
/// that order, each list in its own order.
pub open spec fn v4_events_of(
    pre: Seq<FrontendRuntimeEvent>,
    bid: Seq<char>,
    points: Seq<V4PortfolioPoint>,
    risks: Seq<V4RiskDecision>,
    sources: Seq<V4ExecutionCapabilitySource>,
    trajectory: Seq<V4TrajectoryPoint>,
) -> bool {
    let a = points.len() as int;
    let b = risks.len() as int;
    let c = sources.len() as int;
    let d = trajectory.len() as int;
    &&& pre.len() == a + b + c + d
    &&& forall|i: int| 0 <= i < a ==> v4_portfolio_event(#[trigger] pre[i], bid, i as nat, points[i])
    &&& forall|i: int| 0 <= i < b ==> v4_risk_event(#[trigger] pre[a + i], bid, i as nat, risks[i])
    &&& forall|i: int| 0 <= i < c ==> v4_execution_event(#[trigger] pre[a + b + i], bid, i as nat, sources[i])
    &&& forall|i: int| 0 <= i < d ==> v4_trajectory_event(#[trigger] pre[a + b + c + i], bid, i as nat, trajectory[i])
}

/// The text between the backtest id and the index in the id of a v4 event of each kind:
/// portfolio, risk, execution capability, machine trajectory.
pub open spec fn v4_id_middle(kind: int) -> Seq<char> {
    if kind == 0 {
        "_v4_portfolio_"@
    } else if kind == 1 {
        "_v4_risk_"@
    } else if kind == 2 {
        "_v4_execution_capability_"@
    } else {
        "_v4_machine_"@
    }
}

proof fn lemma_v4_ids_differ(bid: Seq<char>, k1: int, i1: nat, k2: int, i2: nat)
    requires
        0 <= k1 < 4,
        0 <= k2 < 4,
        k1 != k2 || i1 != i2,
    ensures
        bid + v4_id_middle(k1) + dec(i1) != bid + v4_id_middle(k2) + dec(i2),
{
    reveal_strlit("_v4_portfolio_");
    reveal_strlit("_v4_risk_");
    reveal_strlit("_v4_execution_capability_");
    reveal_strlit("_v4_machine_");
    let m1 = v4_id_middle(k1);
    let m2 = v4_id_middle(k2);
    let x = bid + m1 + dec(i1);
    let y = bid + m2 + dec(i2);
    if x == y {
        if k1 != k2 {
            assert(x[bid.len() as int + 4] == m1[4]);
            assert(y[bid.len() as int + 4] == m2[4]);
        } else {
            assert(dec(i1) =~= x.subrange(bid.len() + m1.len() as int, x.len() as int));
            assert(dec(i2) =~= y.subrange(bid.len() + m2.len() as int, y.len() as int));
            lemma_dec_injective(i1, i2);
        }
    }
}

/// Where event `p` of the unsorted v4 events comes from: its kind and its index there.
pub open spec fn v4_slot(p: int, a: int, b: int, c: int) -> (int, int) {
    if p < a {
        (0, p)
    } else if p < a + b {
        (1, p - a)
    } else if p < a + b + c {
        (2, p - a - b)
    } else {
        (3, p - a - b - c)
    }
}

proof fn lemma_v4_pre_event(
    pre: Seq<FrontendRuntimeEvent>,
    bid: Seq<char>,
    points: Seq<V4PortfolioPoint>,
    risks: Seq<V4RiskDecision>,
    sources: Seq<V4ExecutionCapabilitySource>,
    trajectory: Seq<V4TrajectoryPoint>,
    p: int,
)
    requires
        v4_events_of(pre, bid, points, risks, sources, trajectory),
        0 <= p < pre.len(),
    ensures
        ({
            let slot = v4_slot(p, points.len() as int, risks.len() as int, sources.len() as int);
            &&& 0 <= slot.0 < 4
            &&& slot.1 >= 0
            &&& pre[p].event_id@ == bid + v4_id_middle(slot.0) + dec(slot.1 as nat)
            &&& envelope_unset(pre[p].envelope)
        }),
{
    let a = points.len() as int;
    let b = risks.len() as int;
    let c = sources.len() as int;
    if p < a {
        assert(v4_portfolio_event(pre[p], bid, p as nat, points[p]));
    } else if p < a + b {
        let i = p - a;
        assert(v4_risk_event(pre[a + i], bid, i as nat, risks[i]));
    } else if p < a + b + c {
        let i = p - a - b;
        assert(v4_execution_event(pre[a + b + i], bid, i as nat, sources[i]));
    } else {
        let i = p - a - b - c;
        assert(v4_trajectory_event(pre[a + b + c + i], bid, i as nat, trajectory[i]));
    }
}

/// The ids of the events sorted are those of events of `s`, and stay pairwise distinct
/// when they were.
proof fn lemma_sort_keeps_distinct_ids(s: Seq<FrontendRuntimeEvent>)
    requires
        forall|p: int, q: int| 0 <= p < q < s.len() ==> #[trigger] s[p].event_id@ != #[trigger] s[q].event_id@,
    ensures
        sort_by_time_and_id(s).len() == s.len(),
        forall|i: int| 0 <= i < s.len() ==> s.contains(#[trigger] sort_by_time_and_id(s)[i]),
        forall|i: int, j: int|
            0 <= i < j < s.len() ==> #[trigger] sort_by_time_and_id(s)[i].event_id@ != #[trigger] sort_by_time_and_id(
                s,
            )[j].event_id@,
    decreases s.len(),
{
    if s.len() > 0 {
        let init = s.drop_last();
        let x = s.last();
        assert forall|p: int, q: int| 0 <= p < q < init.len() implies #[trigger] init[p].event_id@
            != #[trigger] init[q].event_id@ by {
            assert(init[p] == s[p] && init[q] == s[q]);
        }
        lemma_sort_keeps_distinct_ids(init);
        let q = sort_by_time_and_id(init);
        lemma_key_insert_pos(q, x, 0);
        let pos = key_insert_pos(q, x, 0);
        let r = q.insert(pos, x);
        assert(r == sort_by_time_and_id(s));
        assert forall|k: int| 0 <= k < q.len() implies #[trigger] q[k].event_id@ != x.event_id@ by {
            let w = choose|w: int| 0 <= w < init.len() && init[w] == q[k];
            assert(s[w] == init[w]);
            assert(s[s.len() - 1] == x);
        }
        assert forall|i: int| 0 <= i < s.len() implies s.contains(#[trigger] r[i]) by {
            if i < pos {
                assert(r[i] == q[i]);
                let w = choose|w: int| 0 <= w < init.len() && init[w] == q[i];
                assert(s[w] == init[w]);
            } else if i == pos {
                assert(s[s.len() - 1] == x);
            } else {
                assert(r[i] == q[i - 1]);
                let w = choose|w: int| 0 <= w < init.len() && init[w] == q[i - 1];
                assert(s[w] == init[w]);
            }
        }
        assert forall|i: int, j: int| 0 <= i < j < s.len() implies #[trigger] r[i].event_id@ != #[trigger] r[j].event_id@ by {
            if i < pos && j < pos {
                assert(r[i] == q[i] && r[j] == q[j]);
            } else if i < pos && j == pos {
                assert(r[i] == q[i]);
            } else if i < pos {
                assert(r[i] == q[i] && r[j] == q[j - 1]);
            } else if i == pos {
                assert(r[j] == q[j - 1]);
            } else {
                assert(r[i] == q[i - 1] && r[j] == q[j - 1]);
            }
        }
    }
}

/// The events of a v4 backtest, as sorted, are as many as the points, decisions, sources
/// and trajectory points together; their ids are pairwise distinct and start with the
/// backtest id; and each carries the empty envelope.
pub proof fn lemma_v4_event_ids(
    pre: Seq<FrontendRuntimeEvent>,
    bid: Seq<char>,
    points: Seq<V4PortfolioPoint>,
    risks: Seq<V4RiskDecision>,
    sources: Seq<V4ExecutionCapabilitySource>,
    trajectory: Seq<V4TrajectoryPoint>,
)
    requires
        v4_events_of(pre, bid, points, risks, sources, trajectory),
    ensures
        ({
            let r = sort_by_time_and_id(pre);
            &&& r.len() == points.len() + risks.len() + sources.len() + trajectory.len()
            &&& forall|i: int| 0 <= i < r.len() ==> bid.is_prefix_of(#[trigger] r[i].event_id@)
            &&& forall|i: int| 0 <= i < r.len() ==> envelope_unset(#[trigger] r[i].envelope)
            &&& forall|i: int, j: int| 0 <= i < j < r.len() ==> #[trigger] r[i].event_id@ != #[trigger] r[j].event_id@
        }),
{
    let a = points.len() as int;
    let b = risks.len() as int;
    let c = sources.len() as int;
    assert forall|p: int, q: int| 0 <= p < q < pre.len() implies #[trigger] pre[p].event_id@
        != #[trigger] pre[q].event_id@ by {
        lemma_v4_pre_event(pre, bid, points, risks, sources, trajectory, p);
        lemma_v4_pre_event(pre, bid, points, risks, sources, trajectory, q);
        let sp = v4_slot(p, a, b, c);
        let sq = v4_slot(q, a, b, c);
        lemma_v4_ids_differ(bid, sp.0, sp.1 as nat, sq.0, sq.1 as nat);
    }
    lemma_sort_keeps_distinct_ids(pre);
    let r = sort_by_time_and_id(pre);
    assert forall|i: int| 0 <= i < r.len() implies bid.is_prefix_of(#[trigger] r[i].event_id@)
        && envelope_unset(r[i].envelope) by {
        assert(pre.contains(r[i]));
        let w = choose|w: int| 0 <= w < pre.len() && pre[w] == r[i];
        lemma_v4_pre_event(pre, bid, points, risks, sources, trajectory, w);
        let sw = v4_slot(w, a, b, c);
        assert((bid + v4_id_middle(sw.0) + dec(sw.1 as nat)).subrange(0, bid.len() as int) =~= bid);
    }
    assert forall|i: int| 0 <= i < r.len() implies envelope_unset(#[trigger] r[i].envelope) by {
        assert(bid.is_prefix_of(r[i].event_id@) && envelope_unset(r[i].envelope));
    }
    assert forall|i: int, j: int| 0 <= i < j < r.len() implies #[trigger] r[i].event_id@ != #[trigger] r[j].event_id@ by {
        assert(sort_by_time_and_id(pre)[i].event_id@ != sort_by_time_and_id(pre)[j].event_id@);
    }
}

/// The frontend events of a v4 backtest artifact, ordered by time and then by id.
pub fn frontend_events_from_v4_backtest_artifact(
    backtest_id: &str,
    equity_curve: &Vec<V4PortfolioPoint>,
    risk_plane_decisions: &Vec<V4RiskDecision>,
    execution_capability_sources: &Vec<V4ExecutionCapabilitySource>,
    machine_trajectory: &Vec<V4TrajectoryPoint>,
) -> (r: Vec<FrontendRuntimeEvent>)
    ensures
        exists|pre: Seq<FrontendRuntimeEvent>|
            #[trigger] v4_events_of(
                pre,
                backtest_id@,
                equity_curve@,
                risk_plane_decisions@,
                execution_capability_sources@,
                machine_trajectory@,
            ) && r@ == sort_by_time_and_id(pre),
        r@.len() == equity_curve@.len() + risk_plane_decisions@.len() + execution_capability_sources@.len()
            + machine_trajectory@.len(),
        forall|i: int| 0 <= i < r@.len() ==> backtest_id@.is_prefix_of(#[trigger] r@[i].event_id@),
        forall|i: int| 0 <= i < r@.len() ==> envelope_unset(#[trigger] r@[i].envelope),
        forall|i: int, j: int| 0 <= i < j < r@.len() ==> #[trigger] r@[i].event_id@ != #[trigger] r@[j].event_id@,
{
    let bid = backtest_id;
    let mut events: Vec<FrontendRuntimeEvent> = Vec::new();
    let a = equity_curve.len();
    let mut i: usize = 0;
    while i < a
        invariant
            a == equity_curve@.len(),
            i <= a,
            events@.len() == i,
            forall|k: int| 0 <= k < i ==> v4_portfolio_event(#[trigger] events@[k], bid@, k as nat, equity_curve@[k]),
        decreases a - i,
    {
        events.push(v4_portfolio_event_exec(bid, i, &equity_curve[i]));
        i += 1;
    }
    let b = risk_plane_decisions.len();
    i = 0;
    while i < b
        invariant
            a == equity_curve@.len(),
            b == risk_plane_decisions@.len(),
            i <= b,
            events@.len() == a + i,
            forall|k: int| 0 <= k < a ==> v4_portfolio_event(#[trigger] events@[k], bid@, k as nat, equity_curve@[k]),
            forall|k: int| 0 <= k < i ==> v4_risk_event(#[trigger] events@[a + k], bid@, k as nat, risk_plane_decisions@[k]),
        decreases b - i,
    {
        events.push(v4_risk_event_exec(bid, i, &risk_plane_decisions[i]));
        i += 1;
    }
    let c = execution_capability_sources.len();
    i = 0;
    while i < c
        invariant
            a == equity_curve@.len(),
            b == risk_plane_decisions@.len(),
            c == execution_capability_sources@.len(),
            i <= c,
            events@.len() == a + b + i,
            forall|k: int| 0 <= k < a ==> v4_portfolio_event(#[trigger] events@[k], bid@, k as nat, equity_curve@[k]),
            forall|k: int| 0 <= k < b ==> v4_risk_event(#[trigger] events@[a + k], bid@, k as nat, risk_plane_decisions@[k]),
            forall|k: int|
                0 <= k < i ==> v4_execution_event(
                    #[trigger] events@[a + b + k],
                    bid@,
                    k as nat,
                    execution_capability_sources@[k],
                ),
        decreases c - i,
    {
        events.push(v4_execution_event_exec(bid, i, &execution_capability_sources[i]));
        i += 1;
    }
    let d = machine_trajectory.len();
    i = 0;
    while i < d
        invariant
            a == equity_curve@.len(),
            b == risk_plane_decisions@.len(),
            c == execution_capability_sources@.len(),
            d == machine_trajectory@.len(),
            i <= d,
            events@.len() == a + b + c + i,
            forall|k: int| 0 <= k < a ==> v4_portfolio_event(#[trigger] events@[k], bid@, k as nat, equity_curve@[k]),
            forall|k: int| 0 <= k < b ==> v4_risk_event(#[trigger] events@[a + k], bid@, k as nat, risk_plane_decisions@[k]),
            forall|k: int|
                0 <= k < c ==> v4_execution_event(
                    #[trigger] events@[a + b + k],
                    bid@,
                    k as nat,
                    execution_capability_sources@[k],
                ),
            forall|k: int|
                0 <= k < i ==> v4_trajectory_event(#[trigger] events@[a + b + c + k], bid@, k as nat, machine_trajectory@[k]),
        decreases d - i,
    {
        events.push(v4_trajectory_event_exec(bid, i, &machine_trajectory[i]));
        i += 1;
    }
    let ghost pre = events@;
    assert(v4_events_of(pre, bid@, equity_curve@, risk_plane_decisions@, execution_capability_sources@, machine_trajectory@));
    proof {
        lemma_v4_event_ids(pre, bid@, equity_curve@, risk_plane_decisions@, execution_capability_sources@, machine_trajectory@);
    }
    sort_events_by_time_and_id(events)
}

} // verus!
