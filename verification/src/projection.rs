//! Projection of the engine's runtime events into the frontend event stream.
//!
//! Each engine event becomes a `FrontendRuntimeEvent`: its type is named, its node is
//! resolved from the compiled runtime targets, a summary is written, and its payload is
//! annotated with the trace id (and, for backtests, with where the event came from).
use vstd::prelude::*;
use crate::events::{envelope_unset, FrontendRuntimeEvent, RuntimeEventEnvelope};
use crate::json::{
    entries_model, json_clone, json_get, json_get_str, json_model, lookup, Json, JsonValue,
};
use crate::text::{cat, cat3, dec, is_blank, is_blank_str, owned, parse_u64, parse_u64_str, str_eq, u64_text};

verus! {

broadcast use vstd::std_specs::vec::group_vec_axioms;

/// The kinds of event that the strategy engine emits.
#[derive(Clone, Copy, PartialEq, Eq, Debug, Structural)]
pub enum RuntimeEventType {
    DataUpdated,
    IntentEvaluated,
    IntentTriggered,
    AgentDecisionProduced,
    RiskDecisionProduced,
    ExecutionPlanned,
    ExecutionFilled,
    PortfolioUpdated,
    RuntimeWarning,
    RuntimeError,
}

/// An event as the engine emits it.
#[derive(Debug)]
pub struct RuntimeEvent {
    pub event_id: String,
    pub event_type: RuntimeEventType,
    pub source_id: String,
    pub ts_ms: u64,
    pub trace_id: String,
    pub payload: JsonValue,
    /// The summary that the event's decimal payload fields give (the decision strength,
    /// the fill quantity and price, the portfolio equity), written with the precision the
    /// frontend shows when the engine's event is read.
    pub numeric_summary: String,
}

/// Where a backtest event came from: its session and cycle.
#[derive(Clone, Debug)]
pub struct BacktestEventProjectionContext {
    pub session_index: usize,
    pub cycle_name: String,
    pub session_started_at_ms: u64,
}

/// What the compiler resolved for a runtime: which node each source belongs to, and the
/// runtime and execution nodes.
#[derive(Clone, Debug)]
pub struct CompileRuntimeTargets {
    pub source_to_node: Vec<(String, String)>,
    pub runtime_node_id: Option<String>,
    pub execution_node_id: Option<String>,
}

/// The frontend name of an event type.
pub open spec fn event_type_name(t: RuntimeEventType) -> Seq<char> {
    match t {
        RuntimeEventType::DataUpdated => "DataUpdated"@,
        RuntimeEventType::IntentEvaluated => "IntentEvaluated"@,
        RuntimeEventType::IntentTriggered => "IntentTriggered"@,
        RuntimeEventType::AgentDecisionProduced => "AgentDecisionProduced"@,
        RuntimeEventType::RiskDecisionProduced => "RiskDecisionProduced"@,
        RuntimeEventType::ExecutionPlanned => "ExecutionPlanned"@,
        RuntimeEventType::ExecutionFilled => "ExecutionFilled"@,
        RuntimeEventType::PortfolioUpdated => "PortfolioUpdated"@,
        RuntimeEventType::RuntimeWarning => "RuntimeWarning"@,
        RuntimeEventType::RuntimeError => "RuntimeError"@,
    }
}

/// The frontend name of an event type.
pub fn runtime_event_name(t: &RuntimeEventType) -> (r: &'static str)
    ensures
        r@ == event_type_name(*t),
{
    match t {
        RuntimeEventType::DataUpdated => "DataUpdated",
        RuntimeEventType::IntentEvaluated => "IntentEvaluated",
        RuntimeEventType::IntentTriggered => "IntentTriggered",
        RuntimeEventType::AgentDecisionProduced => "AgentDecisionProduced",
        RuntimeEventType::RiskDecisionProduced => "RiskDecisionProduced",
        RuntimeEventType::ExecutionPlanned => "ExecutionPlanned",
        RuntimeEventType::ExecutionFilled => "ExecutionFilled",
        RuntimeEventType::PortfolioUpdated => "PortfolioUpdated",
        RuntimeEventType::RuntimeWarning => "RuntimeWarning",
        RuntimeEventType::RuntimeError => "RuntimeError",
    }
}

/// The severity of an event type: errors and warnings as such, everything else `Info`.
pub open spec fn event_severity(t: RuntimeEventType) -> Seq<char> {
    match t {
        RuntimeEventType::RuntimeError => "Error"@,
        RuntimeEventType::RuntimeWarning => "Warn"@,
        _ => "Info"@,
    }
}

/// The severity of an event type.
pub fn severity_for_event(t: &RuntimeEventType) -> (r: &'static str)
    ensures
        r@ == event_severity(*t),
{
    match t {
        RuntimeEventType::RuntimeError => "Error",
        RuntimeEventType::RuntimeWarning => "Warn",
        _ => "Info",
    }
}

/// The node that the first pair with this source names.
pub open spec fn node_of_source(pairs: Seq<(String, String)>, source: Seq<char>) -> Option<Seq<char>>
    decreases pairs.len(),
{
    if pairs.len() == 0 {
        None
    } else if pairs[0].0@ == source {
        Some(pairs[0].1@)
    } else {
        node_of_source(pairs.drop_first(), source)
    }
}

/// An optional text, empty when absent (`as_deref().unwrap_or_default()`).
pub open spec fn text_or_empty(o: Option<String>) -> Seq<char> {
    match o {
        Some(s) => s@,
        None => Seq::empty(),
    }
}

/// The node an event belongs to: the node of its source, else the execution node for
/// execution events and the runtime node for the others.
pub open spec fn event_node(event: RuntimeEvent, targets: CompileRuntimeTargets) -> Seq<char> {
    match node_of_source(targets.source_to_node@, event.source_id@) {
        Some(n) => n,
        None => match event.event_type {
            RuntimeEventType::ExecutionPlanned | RuntimeEventType::ExecutionFilled => text_or_empty(
                targets.execution_node_id,
            ),
            _ => text_or_empty(targets.runtime_node_id),
        },
    }
}

fn text_or_empty_exec(o: &Option<String>) -> (r: String)
    ensures
        r@ == text_or_empty(*o),
{
    match o {
        Some(s) => owned(s.as_str()),
        None => String::new(),
    }
}

/// The node of the first pair naming this source.
pub fn lookup_source_node(pairs: &Vec<(String, String)>, source: &str) -> (r: Option<String>)
    ensures
        match r {
            Some(n) => node_of_source(pairs@, source@) == Some(n@),
            None => node_of_source(pairs@, source@).is_none(),
        },
{
    let mut i: usize = 0;
    assert(pairs@.subrange(0, pairs@.len() as int) =~= pairs@);
    while i < pairs.len()
        invariant
            i <= pairs@.len(),
            node_of_source(pairs@, source@) == node_of_source(
                pairs@.subrange(i as int, pairs@.len() as int),
                source@,
            ),
        decreases pairs@.len() - i,
    {
        let ghost rest = pairs@.subrange(i as int, pairs@.len() as int);
        assert(rest[0] == pairs@[i as int]);
        if str_eq(pairs[i].0.as_str(), source) {
            return Some(owned(pairs[i].1.as_str()));
        }
        assert(rest.drop_first() =~= pairs@.subrange(i + 1, pairs@.len() as int));
        i += 1;
    }
    None
}

/// The node an event belongs to.
pub fn resolve_event_node_id(event: &RuntimeEvent, targets: &CompileRuntimeTargets) -> (r: String)
    ensures
        r@ == event_node(*event, *targets),
{
    match lookup_source_node(&targets.source_to_node, event.source_id.as_str()) {
        Some(n) => n,
        None => match event.event_type {
            RuntimeEventType::ExecutionPlanned | RuntimeEventType::ExecutionFilled => text_or_empty_exec(
                &targets.execution_node_id,
            ),
            _ => text_or_empty_exec(&targets.runtime_node_id),
        },
    }
}

/// The entries without any entry under `key`.
pub open spec fn without_key(entries: Seq<(Seq<char>, Json)>, key: Seq<char>) -> Seq<(Seq<char>, Json)>
    decreases entries.len(),
{
    if entries.len() == 0 {
        Seq::empty()
    } else if entries.last().0 == key {
        without_key(entries.drop_last(), key)
    } else {
        without_key(entries.drop_last(), key).push(entries.last())
    }
}

/// The entries with `key` set to `value` (`Map::insert` on a JSON object).
pub open spec fn object_set(entries: Seq<(Seq<char>, Json)>, key: Seq<char>, value: Json) -> Seq<(Seq<char>, Json)> {
    without_key(entries, key).push((key, value))
}

/// Looking a key up after an entry is pushed: the old entry wins, the pushed one counts
/// only where there was none.
pub proof fn lemma_lookup_push(s: Seq<(Seq<char>, Json)>, x: (Seq<char>, Json), k: Seq<char>)
    ensures
        lookup(s.push(x), k) == (match lookup(s, k) {
            Some(v) => Some(v),
            None => if x.0 == k {
                Some(x.1)
            } else {
                None
            },
        }),
    decreases s.len(),
{
    if s.len() > 0 {
        assert(s.push(x)[0] == s[0]);
        assert(s.push(x).drop_first() =~= s.drop_first().push(x));
        lemma_lookup_push(s.drop_first(), x, k);
    } else {
        assert(s.push(x)[0] == x);
        assert(s.push(x).drop_first() =~= Seq::<(Seq<char>, Json)>::empty());
        assert(lookup(s.push(x).drop_first(), k) == None::<Json>);
    }
}

proof fn lemma_without_key_lookup(s: Seq<(Seq<char>, Json)>, key: Seq<char>, k: Seq<char>)
    ensures
        lookup(without_key(s, key), k) == (if k == key {
            None
        } else {
            lookup(s, k)
        }),
    decreases s.len(),
{
    if s.len() > 0 {
        lemma_without_key_lookup(s.drop_last(), key, k);
        lemma_lookup_push(s.drop_last(), s.last(), k);
        assert(s.drop_last().push(s.last()) =~= s);
        if s.last().0 != key {
            lemma_lookup_push(without_key(s.drop_last(), key), s.last(), k);
        }
    }
}

/// Setting a key of an object makes it hold the new value and leaves every other key as
/// it was.
pub proof fn lemma_object_set_lookup(s: Seq<(Seq<char>, Json)>, key: Seq<char>, value: Json, k: Seq<char>)
    ensures
        lookup(object_set(s, key, value), k) == (if k == key {
            Some(value)
        } else {
            lookup(s, k)
        }),
{
    lemma_without_key_lookup(s, key, k);
    lemma_lookup_push(without_key(s, key), (key, value), k);
}

/// Sets `key` of an object's entry list to `value`.
pub fn object_entries_set(entries: &Vec<(String, JsonValue)>, key: &str, value: JsonValue) -> (r: Vec<(String, JsonValue)>)
    ensures
        entries_model(r@) == object_set(entries_model(entries@), key@, value@),
{
    let mut out: Vec<(String, JsonValue)> = Vec::new();
    let mut i: usize = 0;
    while i < entries.len()
        invariant
            i <= entries@.len(),
            entries_model(out@) == without_key(entries_model(entries@.subrange(0, i as int)), key@),
        decreases entries@.len() - i,
    {
        let ghost pre = entries@.subrange(0, i as int);
        let ghost next = entries@.subrange(0, i + 1);
        assert(next.drop_last() =~= pre);
        assert(entries_model(next) == entries_model(pre).push((entries@[i as int].0@, json_model(entries@[i as int].1))));
        assert(entries_model(next).drop_last() =~= entries_model(pre));
        if !str_eq(entries[i].0.as_str(), key) {
            let ghost before = out@;
            out.push((owned(entries[i].0.as_str()), json_clone(&entries[i].1)));
            assert(out@.drop_last() =~= before);
        }
        i += 1;
    }
    assert(entries@.subrange(0, entries@.len() as int) =~= entries@);
    let ghost before = out@;
    out.push((owned(key), value));
    assert(out@.drop_last() =~= before);
    out
}

/// A projection context as plain values: session index, cycle name, session start.
pub type ProjectionContextModel = (nat, Seq<char>, u64);

/// The JSON form of a backtest projection context.
pub open spec fn projection_json(c: ProjectionContextModel) -> Json {
    Json::Object(seq![
        ("cycle_name"@, Json::Str(c.1)),
        ("session_index"@, Json::Number(dec(c.0))),
        ("session_started_at_ms"@, Json::Number(dec(c.2 as nat))),
    ])
}

pub open spec fn context_model(c: &BacktestEventProjectionContext) -> ProjectionContextModel {
    (c.session_index as nat, c.cycle_name@, c.session_started_at_ms)
}

pub open spec fn opt_ctx(c: Option<&BacktestEventProjectionContext>) -> Option<ProjectionContextModel> {
    match c {
        Some(x) => Some(context_model(x)),
        None => None,
    }
}

/// The payload as the frontend receives it: an object payload gets the trace id, and, for
/// a backtest, where the event came from; any other payload is passed on as it is.
pub open spec fn annotated_payload(p: Json, trace_id: Seq<char>, ctx: Option<ProjectionContextModel>) -> Json {
    match p {
        Json::Object(entries) => {
            let traced = object_set(entries, "trace_id"@, Json::Str(trace_id));
            match ctx {
                Some(c) => Json::Object(object_set(traced, "artifact_projection"@, projection_json(c))),
                None => Json::Object(traced),
            }
        },
        _ => p,
    }
}

/// The JSON form of a backtest projection context.
pub fn projection_json_exec(c: &BacktestEventProjectionContext) -> (r: JsonValue)
    ensures
        r@ == projection_json(context_model(c)),
{
    let mut e: Vec<(String, JsonValue)> = Vec::new();
    crate::events::push_entry(&mut e, "cycle_name", crate::json::json_str(c.cycle_name.as_str()));
    crate::events::push_entry(&mut e, "session_index", crate::json::json_u64(c.session_index as u64));
    crate::events::push_entry(&mut e, "session_started_at_ms", crate::json::json_u64(c.session_started_at_ms));
    assert(entries_model(e@) =~= seq![
        ("cycle_name"@, Json::Str(c.cycle_name@)),
        ("session_index"@, Json::Number(dec(c.session_index as nat))),
        ("session_started_at_ms"@, Json::Number(dec(c.session_started_at_ms as nat))),
    ]);
    JsonValue::Object(e)
}

/// Annotates an event payload with its trace id and, for a backtest, its projection.
pub fn annotate_frontend_event_payload(
    payload: &JsonValue,
    trace_id: &str,
    projection_context: Option<&BacktestEventProjectionContext>,
) -> (r: JsonValue)
    ensures
        r@ == annotated_payload(payload@, trace_id@, opt_ctx(projection_context)),
{
    match payload {
        JsonValue::Object(entries) => {
            let traced = object_entries_set(entries, "trace_id", crate::json::json_str(trace_id));
            match projection_context {
                Some(c) => JsonValue::Object(object_entries_set(&traced, "artifact_projection", projection_json_exec(c))),
                None => JsonValue::Object(traced),
            }
        },
        _ => json_clone(payload),
    }
}

/// `Value::as_u64`: a number written as plain decimal digits that fits in 64 bits.
pub open spec fn json_as_u64(v: Json) -> Option<u64> {
    match v {
        Json::Number(t) => if t.len() > 0 && t[0] != '+' {
            parse_u64(t)
        } else {
            None
        },
        _ => None,
    }
}

/// The text under `key`, or `UNKNOWN`.
pub open spec fn text_or_unknown(p: Json, key: Seq<char>) -> Seq<char> {
    match json_get_str(p, key) {
        Some(s) => s,
        None => "UNKNOWN"@,
    }
}

/// The payload's explanation summary, when it is a string that is not blank.
pub open spec fn explanation_summary(p: Json) -> Option<Seq<char>> {
    match json_get_str(p, "explanation_summary"@) {
        Some(s) => if is_blank(s) {
            None
        } else {
            Some(s)
        },
        None => None,
    }
}

/// The number of orders an execution plan reports, zero when it reports none.
pub open spec fn planned_orders(p: Json) -> u64 {
    match json_get(p, "orders"@) {
        Some(v) => match json_as_u64(v) {
            Some(n) => n,
            None => 0,
        },
        None => 0,
    }
}

/// The summary of an event: its explanation summary when it has one, else a line made
/// from its source and payload; events whose line shows decimal fields use the numeric
/// summary.
pub open spec fn event_summary(e: RuntimeEvent) -> Seq<char> {
    let p = e.payload@;
    let src = e.source_id@;
    match explanation_summary(p) {
        Some(s) => s,
        None => match e.event_type {
            RuntimeEventType::DataUpdated => src + " data updated"@,
            RuntimeEventType::IntentTriggered => src + " triggered side="@ + text_or_unknown(p, "side"@),
            RuntimeEventType::RiskDecisionProduced => src + " risk "@ + text_or_unknown(p, "status"@),
            RuntimeEventType::ExecutionPlanned => "execution planned with "@ + dec(planned_orders(p) as nat)
                + " orders"@,
            RuntimeEventType::IntentEvaluated => src + " evaluated"@,
            RuntimeEventType::RuntimeWarning => "warning from "@ + src,
            RuntimeEventType::RuntimeError => "error from "@ + src,
            _ => e.numeric_summary@,
        },
    }
}

fn text_or_unknown_exec(p: &JsonValue, key: &str) -> (r: String)
    ensures
        r@ == text_or_unknown(p@, key@),
{
    match crate::json::json_get_str_exec(p, key) {
        Some(s) => s,
        None => owned("UNKNOWN"),
    }
}

fn planned_orders_exec(p: &JsonValue) -> (r: u64)
    ensures
        r == planned_orders(p@),
{
    match crate::json::json_get_exec(p, "orders") {
        Some(JsonValue::Number(t)) => {
            let s = t.as_str();
            if s.unicode_len() > 0 && s.get_char(0) != '+' {
                match parse_u64_str(s) {
                    Some(n) => n,
                    None => 0,
                }
            } else {
                0
            }
        },
        _ => 0,
    }
}

/// The summary line of an event.
pub fn summarize_event(event: &RuntimeEvent) -> (r: String)
    ensures
        r@ == event_summary(*event),
{
    match crate::json::json_get_str_exec(&event.payload, "explanation_summary") {
        Some(s) => {
            if !is_blank_str(s.as_str()) {
                return s;
            }
        },
        None => {},
    }
    let src = event.source_id.as_str();
    match event.event_type {
        RuntimeEventType::DataUpdated => cat(src, " data updated"),
        RuntimeEventType::IntentTriggered => cat3(src, " triggered side=", text_or_unknown_exec(&event.payload, "side").as_str()),
        RuntimeEventType::RiskDecisionProduced => cat3(src, " risk ", text_or_unknown_exec(&event.payload, "status").as_str()),
        RuntimeEventType::ExecutionPlanned => cat3(
            "execution planned with ",
            u64_text(planned_orders_exec(&event.payload)).as_str(),
            " orders",
        ),
        RuntimeEventType::IntentEvaluated => cat(src, " evaluated"),
        RuntimeEventType::RuntimeWarning => cat("warning from ", src),
        RuntimeEventType::RuntimeError => cat("error from ", src),
        _ => owned(event.numeric_summary.as_str()),
    }
}

/// `r` is the frontend form of the engine event `e`, with no envelope yet.
pub open spec fn frontend_event_of(
    r: FrontendRuntimeEvent,
    e: RuntimeEvent,
    t: CompileRuntimeTargets,
    ctx: Option<ProjectionContextModel>,
) -> bool {
    &&& r.event_id@ == e.event_id@
    &&& r.event_type@ == event_type_name(e.event_type)
    &&& r.source_id@ == e.source_id@
    &&& r.node_id@ == event_node(e, t)
    &&& r.event_time_ms == e.ts_ms
    &&& r.severity@ == event_severity(e.event_type)
    &&& r.summary@ == event_summary(e)
    &&& r.payload@ == annotated_payload(e.payload@, e.trace_id@, ctx)
    &&& envelope_unset(r.envelope)
}


/// The frontend form of one engine event.
pub fn build_frontend_event(
    event: &RuntimeEvent,
    targets: &CompileRuntimeTargets,
    projection_context: Option<&BacktestEventProjectionContext>,
) -> (r: FrontendRuntimeEvent)
    ensures
        frontend_event_of(r, *event, *targets, opt_ctx(projection_context)),
{
    FrontendRuntimeEvent {
        event_id: owned(event.event_id.as_str()),
        event_type: owned(runtime_event_name(&event.event_type)),
        source_id: owned(event.source_id.as_str()),
        node_id: resolve_event_node_id(event, targets),
        event_time_ms: event.ts_ms,
        severity: owned(severity_for_event(&event.event_type)),
        summary: summarize_event(event),
        payload: annotate_frontend_event_payload(&event.payload, event.trace_id.as_str(), projection_context),
        envelope: RuntimeEventEnvelope::empty(),
    }
}

/// `r` is the frontend form of the engine events `es`, one for one.
pub open spec fn projected(
    r: Seq<FrontendRuntimeEvent>,
    es: Seq<RuntimeEvent>,
    t: CompileRuntimeTargets,
    ctx: Option<ProjectionContextModel>,
) -> bool {
    &&& r.len() == es.len()
    &&& forall|i: int| 0 <= i < r.len() ==> frontend_event_of(#[trigger] r[i], es[i], t, ctx)
}

/// Appends the frontend form of each engine event, in order.
pub fn push_frontend_events(
    out: &mut Vec<FrontendRuntimeEvent>,
    events: &Vec<RuntimeEvent>,
    targets: &CompileRuntimeTargets,
    projection_context: Option<&BacktestEventProjectionContext>,
)
    ensures
        final(out)@.len() == old(out)@.len() + events@.len(),
        final(out)@.subrange(0, old(out)@.len() as int) == old(out)@,
        projected(
            final(out)@.subrange(old(out)@.len() as int, final(out)@.len() as int),
            events@,
            *targets,
            opt_ctx(projection_context),
        ),
{
    let ghost start = out@;
    let mut i: usize = 0;
    while i < events.len()
        invariant
            i <= events@.len(),
            out@.len() == start.len() + i,
            out@.subrange(0, start.len() as int) == start,
            forall|k: int| 0 <= k < i ==> frontend_event_of(
                #[trigger] out@[start.len() + k],
                events@[k],
                *targets,
                opt_ctx(projection_context),
            ),
        decreases events@.len() - i,
    {
        let ev = build_frontend_event(&events[i], targets, projection_context);
        let ghost before = out@;
        out.push(ev);
        assert(out@.subrange(0, start.len() as int) =~= before.subrange(0, start.len() as int));
        assert forall|k: int| 0 <= k < i + 1 implies frontend_event_of(
            #[trigger] out@[start.len() + k],
            events@[k],
            *targets,
            opt_ctx(projection_context),
        ) by {
            if k < i {
                assert(out@[start.len() + k] == before[start.len() + k]);
            }
        }
        i += 1;
    }
    let ghost tail = out@.subrange(start.len() as int, out@.len() as int);
    assert forall|k: int| 0 <= k < tail.len() implies frontend_event_of(
        #[trigger] tail[k],
        events@[k],
        *targets,
        opt_ctx(projection_context),
    ) by {
        assert(tail[k] == out@[start.len() + k]);
    }
}

/// The frontend form of a list of engine events.
pub fn build_frontend_events(
    events: &Vec<RuntimeEvent>,
    targets: &CompileRuntimeTargets,
    projection_context: Option<&BacktestEventProjectionContext>,
) -> (r: Vec<FrontendRuntimeEvent>)
    ensures
        projected(r@, events@, *targets, opt_ctx(projection_context)),
{
    let mut out: Vec<FrontendRuntimeEvent> = Vec::new();
    push_frontend_events(&mut out, events, targets, projection_context);
    assert(out@.subrange(0, out@.len() as int) =~= out@);
    out
}

/// Where an event at time `k` goes in `s`: before the first event, from `j` on, that is
/// later.
pub open spec fn time_insert_pos(s: Seq<FrontendRuntimeEvent>, k: u64, j: int) -> int
    decreases s.len() - j,
{
    if j < 0 || j >= s.len() {
        s.len() as int
    } else if s[j].event_time_ms > k {
        j
    } else {
        time_insert_pos(s, k, j + 1)
    }
}

/// `s` ordered by event time, events at equal times keeping their order
/// (`sort_by_key(event_time_ms)`).
pub open spec fn sort_by_time(s: Seq<FrontendRuntimeEvent>) -> Seq<FrontendRuntimeEvent>
    decreases s.len(),
{
    if s.len() == 0 {
        seq![]
    } else {
        let p = sort_by_time(s.drop_last());
        p.insert(time_insert_pos(p, s.last().event_time_ms, 0), s.last())
    }
}

/// The events of `s` are in order of event time.
pub open spec fn ordered_by_time(s: Seq<FrontendRuntimeEvent>) -> bool {
    forall|i: int, j: int| 0 <= i < j < s.len() ==> (#[trigger] s[i]).event_time_ms <= (#[trigger] s[j]).event_time_ms
}

proof fn lemma_time_insert_pos(s: Seq<FrontendRuntimeEvent>, k: u64, j: int)
    requires
        0 <= j <= s.len(),
    ensures
        forall|i: int| j <= i < time_insert_pos(s, k, j) ==> (#[trigger] s[i]).event_time_ms <= k,
        time_insert_pos(s, k, j) < s.len() ==> s[time_insert_pos(s, k, j)].event_time_ms > k,
        j <= time_insert_pos(s, k, j) <= s.len(),
    decreases s.len() - j,
{
    if j < s.len() && s[j].event_time_ms <= k {
        lemma_time_insert_pos(s, k, j + 1);
    }
}

/// Sorting by time orders the events and keeps every one of them.
pub proof fn lemma_sort_by_time(s: Seq<FrontendRuntimeEvent>)
    ensures
        ordered_by_time(sort_by_time(s)),
        sort_by_time(s).to_multiset() == s.to_multiset(),
        sort_by_time(s).len() == s.len(),
    decreases s.len(),
{
    broadcast use vstd::seq_lib::to_multiset_insert, vstd::seq_lib::to_multiset_build;

    if s.len() == 0 {
        assert(s =~= Seq::<FrontendRuntimeEvent>::empty());
    } else {
        let init = s.drop_last();
        lemma_sort_by_time(init);
        let q = sort_by_time(init);
        let x = s.last();
        let k = x.event_time_ms;
        lemma_time_insert_pos(q, k, 0);
        let pos = time_insert_pos(q, k, 0);
        let r = q.insert(pos, x);
        assert(r == sort_by_time(s));
        assert(init.push(x) =~= s);
        assert forall|i: int, j: int| 0 <= i < j < r.len() implies (#[trigger] r[i]).event_time_ms <= (
        #[trigger] r[j]).event_time_ms by {
            if i < pos && j < pos {
                assert(r[i] == q[i] && r[j] == q[j]);
            } else if i < pos && j == pos {
                assert(r[i] == q[i]);
            } else if i < pos && j > pos {
                assert(r[i] == q[i] && r[j] == q[j - 1]);
            } else if i == pos {
                assert(r[j] == q[j - 1]);
                if j - 1 > pos {
                    assert(q[pos].event_time_ms <= q[j - 1].event_time_ms);
                }
            } else {
                assert(r[i] == q[i - 1] && r[j] == q[j - 1]);
            }
        }
    }
}

/// Orders events by event time, keeping the order of events at equal times.
pub fn sort_events_by_time(events: Vec<FrontendRuntimeEvent>) -> (r: Vec<FrontendRuntimeEvent>)
    ensures
        r@ == sort_by_time(events@),
{
    let ghost orig = events@;
    let n = events.len();
    let mut rest = events;
    let mut sorted: Vec<FrontendRuntimeEvent> = Vec::new();
    let mut i: usize = 0;
    while i < n
        invariant
            n == orig.len(),
            i <= n,
            rest@ == orig.subrange(i as int, n as int),
            sorted@ == sort_by_time(orig.subrange(0, i as int)),
        decreases n - i,
    {
        assert(rest@[0] == orig[i as int]);
        let e = rest.remove(0);
        let ghost prefix = orig.subrange(0, i + 1);
        assert(prefix.drop_last() =~= orig.subrange(0, i as int));
        let k = e.event_time_ms;
        let ghost before = sorted@;
        let mut j: usize = 0;
        while j < sorted.len() && sorted[j].event_time_ms <= k
            invariant
                j <= sorted@.len(),
                sorted@ == before,
                time_insert_pos(sorted@, k, 0) == time_insert_pos(sorted@, k, j as int),
            decreases sorted@.len() - j,
        {
            j += 1;
        }
        sorted.insert(j, e);
        assert(rest@ =~= orig.subrange(i + 1, n as int));
        i += 1;
    }
    assert(orig.subrange(0, n as int) =~= orig);
    sorted
}

/// `pre` is a cycle's slow events followed by its fast events, each in frontend form.
pub open spec fn cycle_projection(
    pre: Seq<FrontendRuntimeEvent>,
    slow: Seq<RuntimeEvent>,
    fast: Seq<RuntimeEvent>,
    t: CompileRuntimeTargets,
    slow_ctx: Option<ProjectionContextModel>,
    fast_ctx: Option<ProjectionContextModel>,
) -> bool {
    &&& pre.len() == slow.len() + fast.len()
    &&& projected(pre.subrange(0, slow.len() as int), slow, t, slow_ctx)
    &&& projected(pre.subrange(slow.len() as int, pre.len() as int), fast, t, fast_ctx)
}

/// The frontend events of a live session: the slow and the fast cycle's events, ordered
/// by event time.
pub fn collect_frontend_events(
    slow_cycle_events: &Vec<RuntimeEvent>,
    fast_cycle_events: &Vec<RuntimeEvent>,
    targets: &CompileRuntimeTargets,
) -> (r: Vec<FrontendRuntimeEvent>)
    ensures
        exists|pre: Seq<FrontendRuntimeEvent>|
            #[trigger] cycle_projection(pre, slow_cycle_events@, fast_cycle_events@, *targets, None, None)
                && r@ == sort_by_time(pre),
{
    let mut out: Vec<FrontendRuntimeEvent> = Vec::new();
    push_frontend_events(&mut out, slow_cycle_events, targets, None);
    let ghost mid = out@;
    assert(mid.subrange(0, mid.len() as int) =~= mid);
    push_frontend_events(&mut out, fast_cycle_events, targets, None);
    let ghost pre = out@;
    assert(pre.subrange(0, slow_cycle_events@.len() as int) =~= mid.subrange(0, mid.len() as int));
    assert(cycle_projection(pre, slow_cycle_events@, fast_cycle_events@, *targets, None, None));
    sort_events_by_time(out)
}

/// The engine events of one backtest session.
#[derive(Debug)]
pub struct BacktestSessionEvents {
    pub slow_cycle_events: Vec<RuntimeEvent>,
    pub fast_cycle_events: Vec<RuntimeEvent>,
    pub final_portfolio_updated_at_ms: u64,
}

/// When session `i` started: its point on the equity curve, else when its portfolio was
/// last updated.
pub open spec fn session_start(sessions: Seq<BacktestSessionEvents>, curve: Seq<u64>, i: int) -> u64 {
    if 0 <= i < curve.len() {
        curve[i]
    } else {
        sessions[i].final_portfolio_updated_at_ms
    }
}

/// `pre` is every session's cycle events in frontend form, session after session, each
/// annotated with its session, cycle and start.
pub open spec fn backtest_projection(
    pre: Seq<FrontendRuntimeEvent>,
    sessions: Seq<BacktestSessionEvents>,
    curve: Seq<u64>,
    t: CompileRuntimeTargets,
) -> bool
    decreases sessions.len(),
{
    if sessions.len() == 0 {
        pre.len() == 0
    } else {
        let i = sessions.len() - 1;
        let s = sessions[i];
        let start = session_start(sessions, curve, i);
        let n = s.slow_cycle_events@.len() + s.fast_cycle_events@.len();
        &&& pre.len() >= n
        &&& cycle_projection(
            pre.subrange(pre.len() - n, pre.len() as int),
            s.slow_cycle_events@,
            s.fast_cycle_events@,
            t,
            Some((i as nat, "slow"@, start)),
            Some((i as nat, "fast"@, start)),
        )
        &&& backtest_projection(pre.subrange(0, pre.len() - n), sessions.drop_last(), curve, t)
    }
}

/// The frontend events of a backtest: every session's slow and fast cycle events, each
/// annotated with where it came from, ordered by event time.
pub fn collect_frontend_events_for_backtest(
    sessions: &Vec<BacktestSessionEvents>,
    equity_curve_ts_ms: &Vec<u64>,
    targets: &CompileRuntimeTargets,
) -> (r: Vec<FrontendRuntimeEvent>)
    ensures
        exists|pre: Seq<FrontendRuntimeEvent>|
            #[trigger] backtest_projection(pre, sessions@, equity_curve_ts_ms@, *targets)
                && r@ == sort_by_time(pre),
{
    let mut out: Vec<FrontendRuntimeEvent> = Vec::new();
    let mut i: usize = 0;
    while i < sessions.len()
        invariant
            i <= sessions@.len(),
            backtest_projection(out@, sessions@.subrange(0, i as int), equity_curve_ts_ms@, *targets),
        decreases sessions@.len() - i,
    {
        let session = &sessions[i];
        let started = if i < equity_curve_ts_ms.len() {
            equity_curve_ts_ms[i]
        } else {
            session.final_portfolio_updated_at_ms
        };
        let slow_ctx = BacktestEventProjectionContext {
            session_index: i,
            cycle_name: owned("slow"),
            session_started_at_ms: started,
        };
        let fast_ctx = BacktestEventProjectionContext {
            session_index: i,
            cycle_name: owned("fast"),
            session_started_at_ms: started,
        };
        let ghost out0 = out@;
        push_frontend_events(&mut out, &session.slow_cycle_events, targets, Some(&slow_ctx));
        let ghost out1 = out@;
        push_frontend_events(&mut out, &session.fast_cycle_events, targets, Some(&fast_ctx));
        let ghost out2 = out@;
        proof {
            let ss = sessions@.subrange(0, i + 1);
            assert(ss.drop_last() =~= sessions@.subrange(0, i as int));
            assert(ss[i as int] == *session);
            assert(session_start(ss, equity_curve_ts_ms@, i as int) == started);
            let n = session.slow_cycle_events@.len() + session.fast_cycle_events@.len();
            let tail = out2.subrange(out2.len() - n, out2.len() as int);
            assert(out2.subrange(0, out2.len() - n) =~= out0) by {
                assert(out2.subrange(0, out1.len() as int) == out1);
                assert(out1.subrange(0, out0.len() as int) == out0);
            }
            assert(tail.subrange(0, session.slow_cycle_events@.len() as int) =~= out1.subrange(
                out0.len() as int,
                out1.len() as int,
            )) by {
                assert(out2.subrange(0, out1.len() as int) == out1);
            }
            assert(tail.subrange(session.slow_cycle_events@.len() as int, tail.len() as int) =~= out2.subrange(
                out1.len() as int,
                out2.len() as int,
            ));
            assert(cycle_projection(
                tail,
                session.slow_cycle_events@,
                session.fast_cycle_events@,
                *targets,
                Some((i as nat, "slow"@, started)),
                Some((i as nat, "fast"@, started)),
            ));
        }
        i += 1;
    }
    assert(sessions@.subrange(0, sessions@.len() as int) =~= sessions@);
    let ghost pre = out@;
    assert(backtest_projection(pre, sessions@, equity_curve_ts_ms@, *targets));
    sort_events_by_time(out)
}

/// The JSON strings of a list of texts.
pub open spec fn text_items(v: Seq<String>) -> Seq<Json>
    decreases v.len(),
{
    if v.len() == 0 {
        Seq::empty()
    } else {
        text_items(v.drop_last()).push(Json::Str(v.last()@))
    }
}

/// A JSON array of strings.
pub fn json_text_array(v: &Vec<String>) -> (r: JsonValue)
    ensures
        r@ == Json::Array(text_items(v@)),
{
    let mut out: Vec<JsonValue> = Vec::new();
    let mut i: usize = 0;
    while i < v.len()
        invariant
            i <= v@.len(),
            crate::json::items_model(out@) == text_items(v@.subrange(0, i as int)),
        decreases v@.len() - i,
    {
        let ghost before = out@;
        out.push(crate::json::json_str(v[i].as_str()));
        assert(out@.drop_last() =~= before);
        assert(v@.subrange(0, i + 1).drop_last() =~= v@.subrange(0, i as int));
        i += 1;
    }
    assert(v@.subrange(0, v@.len() as int) =~= v@);
    JsonValue::Array(out)
}

/// `e` is the capability snapshot event of a record: a system event, without envelope,
/// whose payload records the capability hash, the runtime chain's stages, the permission
/// boundary model, the runtime mode, the capability schema version and a trace id.
pub open spec fn capability_snapshot_event(
    e: FrontendRuntimeEvent,
    record_id: Seq<char>,
    runtime_mode: Seq<char>,
    occurred_at_ms: u64,
    gov: crate::events::RuntimeGovernanceSnapshot,
    schema_version: Json,
    chain_stages: Seq<String>,
) -> bool {
    &&& e.event_id@ == record_id + "_capability_snapshot"@
    &&& e.event_type@ == "CapabilitySnapshotTaken"@
    &&& e.source_id@ == "runtime_governance"@
    &&& e.node_id@ == "runtime"@
    &&& e.event_time_ms == occurred_at_ms
    &&& e.severity@ == "Info"@
    &&& e.summary@ == "Capability snapshot taken"@
    &&& e.payload@ == Json::Object(seq![
        ("capability_hash"@, Json::Str(gov.capability_hash@)),
        ("chain_stages"@, Json::Array(text_items(chain_stages))),
        ("permission_boundary_model_version"@, Json::Str(gov.permission_boundary.model_version@)),
        ("runtime_mode"@, Json::Str(runtime_mode)),
        ("schema_version"@, schema_version),
        ("trace_id"@, Json::Str(e.event_id@ + "_trace"@)),
    ])
    &&& envelope_unset(e.envelope)
}

/// Puts the capability snapshot event in front of a record's events.
pub fn prepend_capability_snapshot_event(
    events: &mut Vec<FrontendRuntimeEvent>,
    record_id: &str,
    runtime_mode: &str,
    occurred_at_ms: u64,
    governance: &crate::events::RuntimeGovernanceSnapshot,
    schema_version: &JsonValue,
    chain_stages: &Vec<String>,
)
    ensures
        final(events)@.len() == old(events)@.len() + 1,
        final(events)@.subrange(1, final(events)@.len() as int) == old(events)@,
        capability_snapshot_event(
            final(events)@[0],
            record_id@,
            runtime_mode@,
            occurred_at_ms,
            *governance,
            schema_version@,
            chain_stages@,
        ),
{
    let event_id = cat(record_id, "_capability_snapshot");
    let trace = cat(event_id.as_str(), "_trace");
    let mut e: Vec<(String, JsonValue)> = Vec::new();
    crate::events::push_entry(&mut e, "capability_hash", crate::json::json_str(governance.capability_hash.as_str()));
    crate::events::push_entry(&mut e, "chain_stages", json_text_array(chain_stages));
    crate::events::push_entry(
        &mut e,
        "permission_boundary_model_version",
        crate::json::json_str(governance.permission_boundary.model_version.as_str()),
    );
    crate::events::push_entry(&mut e, "runtime_mode", crate::json::json_str(runtime_mode));
    crate::events::push_entry(&mut e, "schema_version", json_clone(schema_version));
    crate::events::push_entry(&mut e, "trace_id", JsonValue::Str(trace));
    assert(entries_model(e@) =~= seq![
        ("capability_hash"@, Json::Str(governance.capability_hash@)),
        ("chain_stages"@, Json::Array(text_items(chain_stages@))),
        ("permission_boundary_model_version"@, Json::Str(governance.permission_boundary.model_version@)),
        ("runtime_mode"@, Json::Str(runtime_mode@)),
        ("schema_version"@, schema_version@),
        ("trace_id"@, Json::Str(event_id@ + "_trace"@)),
    ]);
    let event = FrontendRuntimeEvent {
        event_id,
        event_type: owned("CapabilitySnapshotTaken"),
        source_id: owned("runtime_governance"),
        node_id: owned("runtime"),
        event_time_ms: occurred_at_ms,
        severity: owned("Info"),
        summary: owned("Capability snapshot taken"),
        payload: JsonValue::Object(e),
        envelope: RuntimeEventEnvelope::empty(),
    };
    let ghost before = events@;
    events.insert(0, event);
    assert(events@.subrange(1, events@.len() as int) =~= before);
}

} // verus!
