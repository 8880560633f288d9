//! Backtest request resolution: whether a request runs on the v4 machine runtime, which
//! symbols and market event it replays, and the variants of a parameter sweep.
use vstd::prelude::*;
use crate::error::{bad_request, is_bad_request, ApiError};
use crate::json::{json_clone, json_get, json_get_str, Json, JsonValue};
use crate::text::{ascii_lower_seq, contains_seq, dec, is_blank, owned, str_eq, trim, trim_start, u64_text};

verus! {

broadcast use vstd::std_specs::vec::group_vec_axioms;

/// The value at a path of object keys (`Value::pointer` with plain keys).
pub open spec fn json_at(v: Json, path: Seq<Seq<char>>) -> Option<Json>
    decreases path.len(),
{
    if path.len() == 0 {
        Some(v)
    } else {
        match json_get(v, path[0]) {
            Some(x) => json_at(x, path.drop_first()),
            None => None,
        }
    }
}

/// The value at a path of object keys.
pub fn json_pointer<'a>(v: &'a JsonValue, path: &Vec<&str>) -> (r: Option<&'a JsonValue>)
    ensures
        match r {
            Some(x) => json_at(v@, path@.map_values(|s: &str| s@)) == Some(x@),
            None => json_at(v@, path@.map_values(|s: &str| s@)).is_none(),
        },
{
    let ghost keys = path@.map_values(|s: &str| s@);
    let mut cur: &'a JsonValue = v;
    let mut i: usize = 0;
    assert(keys.subrange(0, keys.len() as int) =~= keys);
    while i < path.len()
        invariant
            i <= path@.len(),
            keys == path@.map_values(|s: &str| s@),
            json_at(v@, keys) == json_at(cur@, keys.subrange(i as int, keys.len() as int)),
        decreases path@.len() - i,
    {
        let ghost rest = keys.subrange(i as int, keys.len() as int);
        assert(rest[0] == path@[i as int]@);
        assert(rest.drop_first() =~= keys.subrange(i + 1, keys.len() as int));
        match crate::json::json_get_exec(cur, path[i]) {
            Some(x) => {
                cur = x;
            },
            None => {
                return None;
            },
        }
        i += 1;
    }
    assert(keys.subrange(i as int, keys.len() as int) =~= Seq::<Seq<char>>::empty());
    Some(cur)
}

pub open spec fn v4_graph_path() -> Seq<Seq<char>> {
    seq!["metadata"@, "artifacts"@, "v4_machine_graph"@]
}

pub open spec fn v4_graph_metadata_path() -> Seq<Seq<char>> {
    seq!["metadata"@, "v4_machine_graph"@]
}

pub open spec fn formal_source_path() -> Seq<Seq<char>> {
    seq!["metadata"@, "artifacts"@, "quantscript"@, "formal_source"@]
}

pub open spec fn v4_symbols_path() -> Seq<Seq<char>> {
    seq!["metadata"@, "artifacts"@, "v4_symbols"@]
}

/// A backtest runs on the v4 machine runtime when its request asks for `v4` (in any
/// case), when its graph carries a v4 machine graph, or when the graph's formal QuantScript
/// source is a `v4_strategy`.
pub open spec fn v4_backtest(runtime_kind: Option<Seq<char>>, graph: Json) -> bool {
    ||| match runtime_kind {
        Some(k) => ascii_lower_seq(k) == ascii_lower_seq("v4"@),
        None => false,
    }
    ||| json_at(graph, v4_graph_path()).is_some()
    ||| json_at(graph, v4_graph_metadata_path()).is_some()
    ||| match json_at(graph, formal_source_path()) {
        Some(Json::Str(source)) => "v4_strategy"@.is_prefix_of(trim_start(source)),
        _ => false,
    }
}

/// Whether a backtest runs on the v4 machine runtime.
pub fn is_v4_backtest_request(runtime_kind: Option<&str>, graph_json: &JsonValue) -> (r: bool)
    ensures
        r == v4_backtest(
            match runtime_kind {
                Some(k) => Some(k@),
                None => None,
            },
            graph_json@,
        ),
{
    let asks = match runtime_kind {
        Some(k) => crate::text::eq_ignore_ascii_case(k, "v4"),
        None => false,
    };
    if asks {
        return true;
    }
    let p1 = vec!["metadata", "artifacts", "v4_machine_graph"];
    assert(p1@.map_values(|s: &str| s@) =~= v4_graph_path());
    if json_pointer(graph_json, &p1).is_some() {
        return true;
    }
    let p2 = vec!["metadata", "v4_machine_graph"];
    assert(p2@.map_values(|s: &str| s@) =~= v4_graph_metadata_path());
    if json_pointer(graph_json, &p2).is_some() {
        return true;
    }
    let p3 = vec!["metadata", "artifacts", "quantscript", "formal_source"];
    assert(p3@.map_values(|s: &str| s@) =~= formal_source_path());
    match json_pointer(graph_json, &p3) {
        Some(JsonValue::Str(source)) => crate::text::starts_with_str(
            crate::text::trim_start_str(source.as_str()),
            "v4_strategy",
        ),
        _ => false,
    }
}

pub open spec fn texts_model(v: Seq<String>) -> Seq<Seq<char>> {
    v.map_values(|s: String| s@)
}

/// The strings of an array, in order, skipping items that are not strings.
pub open spec fn array_strings(items: Seq<Json>) -> Seq<Seq<char>>
    decreases items.len(),
{
    if items.len() == 0 {
        seq![]
    } else {
        let p = array_strings(items.drop_last());
        match items.last() {
            Json::Str(s) => p.push(s),
            _ => p,
        }
    }
}

/// The strings of a value, when it is an array.
pub open spec fn listed_strings(v: Option<Json>) -> Seq<Seq<char>> {
    match v {
        Some(Json::Array(items)) => array_strings(items),
        _ => seq![],
    }
}

/// The symbols a v4 backtest replays, before the runtime normalises them: those the
/// request names; else the graph's `v4_symbols` artifact, when it lists any; else the
/// symbols of the machine graph's metadata, when it lists any; else none.
pub open spec fn v4_symbol_choice(request: Seq<String>, graph: Json, graph_symbols: Option<Json>) -> Seq<Seq<char>> {
    if request.len() > 0 {
        texts_model(request)
    } else if listed_strings(json_at(graph, v4_symbols_path())).len() > 0 {
        listed_strings(json_at(graph, v4_symbols_path()))
    } else {
        listed_strings(graph_symbols)
    }
}

fn string_items(v: Option<&JsonValue>) -> (r: Vec<String>)
    ensures
        texts_model(r@) == listed_strings(
            match v {
                Some(x) => Some(x@),
                None => None,
            },
        ),
{
    let mut out: Vec<String> = Vec::new();
    match v {
        Some(JsonValue::Array(items)) => {
            let mut i: usize = 0;
            while i < items.len()
                invariant
                    i <= items@.len(),
                    texts_model(out@) == array_strings(crate::json::items_model(items@.subrange(0, i as int))),
                decreases items@.len() - i,
            {
                let ghost pre = crate::json::items_model(items@.subrange(0, i as int));
                let ghost next = items@.subrange(0, i + 1);
                assert(next.drop_last() =~= items@.subrange(0, i as int));
                assert(next.last() == items@[i as int]);
                assert(crate::json::items_model(next) == pre.push(crate::json::json_model(items@[i as int])));
                assert(pre.push(crate::json::json_model(items@[i as int])).drop_last() =~= pre);
                match &items[i] {
                    JsonValue::Str(s) => {
                        let ghost before = out@;
                        out.push(owned(s.as_str()));
                        assert(texts_model(out@) =~= texts_model(before).push(s@));
                    },
                    _ => {},
                }
                i += 1;
            }
            assert(items@.subrange(0, items@.len() as int) =~= items@);
        },
        _ => {
            assert(texts_model(out@) =~= Seq::<Seq<char>>::empty());
        },
    }
    out
}

/// The symbols a v4 backtest replays, before the runtime normalises them.
pub fn resolve_v4_backtest_symbols(
    request_symbols: &Vec<String>,
    graph_json: &JsonValue,
    graph_metadata_symbols: Option<&JsonValue>,
) -> (r: Vec<String>)
    ensures
        texts_model(r@) == v4_symbol_choice(
            request_symbols@,
            graph_json@,
            match graph_metadata_symbols {
                Some(x) => Some(x@),
                None => None,
            },
        ),
{
    if request_symbols.len() > 0 {
        let mut out: Vec<String> = Vec::new();
        let mut i: usize = 0;
        while i < request_symbols.len()
            invariant
                i <= request_symbols@.len(),
                texts_model(out@) == texts_model(request_symbols@.subrange(0, i as int)),
            decreases request_symbols@.len() - i,
        {
            let ghost before = out@;
            out.push(owned(request_symbols[i].as_str()));
            assert(texts_model(out@) =~= texts_model(before).push(request_symbols@[i as int]@));
            assert(texts_model(request_symbols@.subrange(0, i + 1)) =~= texts_model(request_symbols@.subrange(0, i as int)).push(
                request_symbols@[i as int]@,
            ));
            i += 1;
        }
        assert(request_symbols@.subrange(0, request_symbols@.len() as int) =~= request_symbols@);
        return out;
    }
    let p = vec!["metadata", "artifacts", "v4_symbols"];
    assert(p@.map_values(|s: &str| s@) =~= v4_symbols_path());
    let artifact = string_items(json_pointer(graph_json, &p));
    if artifact.len() > 0 {
        return artifact;
    }
    string_items(graph_metadata_symbols)
}

/// A payload field that a catalog event declares.
#[derive(Clone, Debug)]
pub struct MachineEventPayloadField {
    pub name: String,
    pub declared_type: String,
    pub nullable: bool,
}

/// An event of a v4 machine's event catalog: its type, whether its source is market data
/// or the runtime itself, and the payload fields it declares.
#[derive(Clone, Debug)]
pub struct MachineCatalogEvent {
    pub event_type: String,
    pub is_market_data: bool,
    pub is_runtime: bool,
    pub payload_fields: Vec<MachineEventPayloadField>,
}

pub open spec fn bar_or_price(e: MachineCatalogEvent) -> bool {
    e.is_market_data && (contains_seq(e.event_type@, "bar"@) || contains_seq(e.event_type@, "price"@))
}

/// The first event of `s` that passes `p`.
pub open spec fn first_event(s: Seq<MachineCatalogEvent>, p: spec_fn(MachineCatalogEvent) -> bool) -> Option<MachineCatalogEvent>
    decreases s.len(),
{
    if s.len() == 0 {
        None
    } else if p(s[0]) {
        Some(s[0])
    } else {
        first_event(s.drop_first(), p)
    }
}

/// The event a v4 backtest replays: the first market-data event about bars or prices,
/// else the first market-data event, else the first event.
pub open spec fn market_event_choice(s: Seq<MachineCatalogEvent>) -> Option<MachineCatalogEvent> {
    match first_event(s, |e: MachineCatalogEvent| bar_or_price(e)) {
        Some(e) => Some(e),
        None => match first_event(s, |e: MachineCatalogEvent| e.is_market_data) {
            Some(e) => Some(e),
            None => if s.len() > 0 {
                Some(s[0])
            } else {
                None
            },
        },
    }
}

fn first_event_exec(s: &Vec<MachineCatalogEvent>, bars_only: bool) -> (r: Option<usize>)
    ensures
        match r {
            Some(i) => i < s@.len() && (if bars_only {
                first_event(s@, |e: MachineCatalogEvent| bar_or_price(e))
            } else {
                first_event(s@, |e: MachineCatalogEvent| e.is_market_data)
            }) == Some(s@[i as int]),
            None => (if bars_only {
                first_event(s@, |e: MachineCatalogEvent| bar_or_price(e))
            } else {
                first_event(s@, |e: MachineCatalogEvent| e.is_market_data)
            }).is_none(),
        },
{
    let ghost p = if bars_only {
        |e: MachineCatalogEvent| bar_or_price(e)
    } else {
        |e: MachineCatalogEvent| e.is_market_data
    };
    let mut i: usize = 0;
    assert(s@.subrange(0, s@.len() as int) =~= s@);
    while i < s.len()
        invariant
            i <= s@.len(),
            p == (if bars_only {
                |e: MachineCatalogEvent| bar_or_price(e)
            } else {
                |e: MachineCatalogEvent| e.is_market_data
            }),
            first_event(s@, p) == first_event(s@.subrange(i as int, s@.len() as int), p),
        decreases s@.len() - i,
    {
        let ghost rest = s@.subrange(i as int, s@.len() as int);
        assert(rest[0] == s@[i as int]);
        let e = &s[i];
        let hit = e.is_market_data && (!bars_only || crate::text::contains_str(e.event_type.as_str(), "bar")
            || crate::text::contains_str(e.event_type.as_str(), "price"));
        if hit {
            return Some(i);
        }
        assert(rest.drop_first() =~= s@.subrange(i + 1, s@.len() as int));
        i += 1;
    }
    None
}

/// The market event a v4 backtest replays; refused when the graph has no event catalog
/// or the catalog has no event.
pub fn resolve_v4_backtest_market_event_type(catalog: Option<&Vec<MachineCatalogEvent>>) -> (r: Result<String, ApiError>)
    ensures
        match catalog {
            None => r is Err && is_bad_request(r->Err_0, "v4_event_catalog_missing"@, "v4 backtest requires MachineEventCatalog"@),
            Some(c) => match market_event_choice(c@) {
                Some(e) => r is Ok && r->Ok_0@ == e.event_type@,
                None => r is Err && is_bad_request(
                    r->Err_0,
                    "v4_event_catalog_missing"@,
                    "v4 backtest requires at least one replayable event"@,
                ),
            },
        },
{
    let c = match catalog {
        Some(c) => c,
        None => {
            return Err(bad_request("v4_event_catalog_missing", owned("v4 backtest requires MachineEventCatalog")));
        },
    };
    match first_event_exec(c, true) {
        Some(i) => {
            return Ok(owned(c[i].event_type.as_str()));
        },
        None => {},
    }
    match first_event_exec(c, false) {
        Some(i) => {
            return Ok(owned(c[i].event_type.as_str()));
        },
        None => {},
    }
    if c.len() > 0 {
        Ok(owned(c[0].event_type.as_str()))
    } else {
        Err(bad_request("v4_event_catalog_missing", owned("v4 backtest requires at least one replayable event")))
    }
}

/// The values of an axis of a parameter sweep: the values given, each once, in the order
/// they first appear, or the base value when none is given.
pub open spec fn distinct_in_order(values: Seq<u64>) -> Seq<u64>
    decreases values.len(),
{
    if values.len() == 0 {
        seq![]
    } else {
        let p = distinct_in_order(values.drop_last());
        if p.contains(values.last()) {
            p
        } else {
            p.push(values.last())
        }
    }
}

/// The latency values of a parameter sweep.
pub open spec fn latency_axis(values: Seq<u64>, base: u64) -> Seq<u64> {
    if values.len() == 0 {
        seq![base]
    } else {
        distinct_in_order(values)
    }
}

/// The latency values of a parameter sweep.
pub fn normalize_experiment_latency_axis(values: &Vec<u64>, base: u64) -> (r: Vec<u64>)
    ensures
        r@ == latency_axis(values@, base),
{
    let mut out: Vec<u64> = Vec::new();
    if values.len() == 0 {
        out.push(base);
        assert(out@ =~= seq![base]);
        return out;
    }
    let mut i: usize = 0;
    while i < values.len()
        invariant
            i <= values@.len(),
            out@ == distinct_in_order(values@.subrange(0, i as int)),
        decreases values@.len() - i,
    {
        let ghost next = values@.subrange(0, i + 1);
        assert(next.drop_last() =~= values@.subrange(0, i as int));
        assert(next.last() == values@[i as int]);
        let v = values[i];
        let mut j: usize = 0;
        let mut seen = false;
        while j < out.len()
            invariant
                j <= out@.len(),
                seen == (exists|k: int| 0 <= k < j && out@[k] == v),
            decreases out@.len() - j,
        {
            if out[j] == v {
                seen = true;
            }
            j += 1;
        }
        if !seen {
            out.push(v);
        }
        i += 1;
    }
    assert(values@.subrange(0, values@.len() as int) =~= values@);
    out
}

/// The sweep axes never list a value twice, and list every value given.
pub proof fn lemma_distinct_in_order(values: Seq<u64>)
    ensures
        distinct_in_order(values).no_duplicates(),
        forall|v: u64| values.contains(v) <==> distinct_in_order(values).contains(v),
    decreases values.len(),
{
    if values.len() > 0 {
        let init = values.drop_last();
        let x = values.last();
        lemma_distinct_in_order(init);
        let p = distinct_in_order(init);
        let d = distinct_in_order(values);
        assert forall|v: u64| values.contains(v) <==> (init.contains(v) || v == x) by {
            if values.contains(v) {
                let k = choose|k: int| 0 <= k < values.len() && values[k] == v;
                if k < values.len() - 1 {
                    assert(init[k] == v);
                }
            }
            if init.contains(v) {
                let k = choose|k: int| 0 <= k < init.len() && init[k] == v;
                assert(values[k] == v);
            }
            if v == x {
                assert(values[values.len() - 1] == v);
            }
        }
        if p.contains(x) {
            assert(d == p);
        } else {
            assert(d == p.push(x));
            assert forall|v: u64| d.contains(v) <==> (p.contains(v) || v == x) by {
                if d.contains(v) {
                    let j = choose|j: int| 0 <= j < d.len() && d[j] == v;
                    if j < p.len() {
                        assert(p[j] == v);
                    }
                }
                if p.contains(v) {
                    let j = choose|j: int| 0 <= j < p.len() && p[j] == v;
                    assert(d[j] == v);
                }
                if v == x {
                    assert(d[p.len() as int] == v);
                }
            }
            assert forall|i: int, j: int| 0 <= i < d.len() && 0 <= j < d.len() && i != j implies d[i] != d[j] by {
                if i < p.len() && j < p.len() {
                    assert(d[i] == p[i] && d[j] == p[j]);
                } else if i < p.len() {
                    assert(d[i] == p[i]);
                    assert(p.contains(p[i]));
                } else if j < p.len() {
                    assert(d[j] == p[j]);
                    assert(p.contains(p[j]));
                }
            }
        }
    }
}

/// Sweep variant `k` of a grid with `s` slippage and `l` latency values: its fee,
/// slippage and latency positions, fees varying slowest.
pub open spec fn variant_at(k: int, s: int, l: int) -> (int, int, int) {
    (k / (s * l), (k % (s * l)) / l, k % l)
}

/// The variants of a parameter sweep, by position on each axis: refused when no axis
/// value is given or when the grid has more variants than allowed.
pub fn plan_experiment_variants(
    provided_values: usize,
    fee_count: usize,
    slippage_count: usize,
    latency_count: usize,
    max_variants: usize,
) -> (r: Result<Vec<(usize, usize, usize)>, ApiError>)
    requires
        fee_count * slippage_count * latency_count <= usize::MAX,
    ensures
        provided_values == 0 ==> r is Err && is_bad_request(r->Err_0, "bad_request"@, "参数网格必须至少包含一个执行假设值"@),
        provided_values > 0 && fee_count * slippage_count * latency_count > max_variants ==> r is Err
            && is_bad_request(
            r->Err_0,
            "bad_request"@,
            "参数扫描展开为 "@ + dec((fee_count * slippage_count * latency_count) as nat) + " 个变体，超出当前限制 "@ + dec(
                max_variants as nat,
            ),
        ),
        provided_values > 0 && fee_count * slippage_count * latency_count <= max_variants ==> r is Ok && r->Ok_0@.len()
            == fee_count * slippage_count * latency_count && forall|k: int|
            0 <= k < r->Ok_0@.len() ==> {
                let t = #[trigger] r->Ok_0@[k];
                (t.0 as int, t.1 as int, t.2 as int) == variant_at(k, slippage_count as int, latency_count as int)
            },
{
    if provided_values == 0 {
        return Err(bad_request("bad_request", owned("参数网格必须至少包含一个执行假设值")));
    }
    if fee_count == 0 || slippage_count == 0 || latency_count == 0 {
        assert(fee_count * slippage_count * latency_count == 0) by (nonlinear_arith)
            requires
                fee_count == 0 || slippage_count == 0 || latency_count == 0,
        {
        }
        return Ok(Vec::new());
    }
    assert(fee_count * slippage_count <= fee_count * slippage_count * latency_count) by (nonlinear_arith)
        requires
            latency_count >= 1,
            fee_count >= 1,
            slippage_count >= 1,
    {
    }
    assert(slippage_count * latency_count <= fee_count * slippage_count * latency_count) by (nonlinear_arith)
        requires
            latency_count >= 1,
            fee_count >= 1,
            slippage_count >= 1,
    {
    }
    let count = fee_count * slippage_count * latency_count;
    if count > max_variants {
        let m = crate::text::cat(
            crate::text::cat3("参数扫描展开为 ", u64_text(count as u64).as_str(), " 个变体，超出当前限制 ").as_str(),
            u64_text(max_variants as u64).as_str(),
        );
        return Err(bad_request("bad_request", m));
    }
    let mut out: Vec<(usize, usize, usize)> = Vec::new();
    let sl = slippage_count * latency_count;
    assert(sl > 0) by (nonlinear_arith)
        requires
            sl == slippage_count * latency_count,
            latency_count >= 1,
            slippage_count >= 1,
    {
    }
    let mut k: usize = 0;
    while k < count
        invariant
            k <= count,
            count == fee_count * slippage_count * latency_count,
            sl == slippage_count * latency_count,
            sl > 0,
            latency_count > 0,
            out@.len() == k,
            forall|j: int|
                0 <= j < k ==> {
                    let t = #[trigger] out@[j];
                    (t.0 as int, t.1 as int, t.2 as int) == variant_at(j, slippage_count as int, latency_count as int)
                },
        decreases count - k,
    {
        out.push((k / sl, (k % sl) / latency_count, k % latency_count));
        k += 1;
    }
    Ok(out)
}

/// The id of an experiment created at `now_ms`.
pub fn experiment_id_for(now_ms: u64) -> (r: String)
    ensures
        r@ == "experiment_"@ + dec(now_ms as nat),
{
    crate::text::cat("experiment_", u64_text(now_ms).as_str())
}

/// The backtest id suffix and the variant id of variant `index` of an experiment, both
/// numbered from 1.
pub fn experiment_variant_ids(experiment_id: &str, index: usize) -> (r: (String, String))
    requires
        index < u64::MAX,
    ensures
        r.0@ == experiment_id@ + "_v"@ + dec(index as nat + 1),
        r.1@ == "variant_"@ + dec(index as nat + 1),
{
    let n = u64_text(index as u64 + 1);
    (crate::text::cat3(experiment_id, "_v", n.as_str()), crate::text::cat("variant_", n.as_str()))
}

/// An experiment's name, trimmed, when it is given and not blank.
pub fn normalize_experiment_name(name: Option<&str>) -> (r: Option<String>)
    ensures
        match name {
            Some(n) => if crate::text::trim(n@).len() > 0 {
                r matches Some(x) && x@ == crate::text::trim(n@)
            } else {
                r.is_none()
            },
            None => r.is_none(),
        },
{
    match name {
        Some(n) => {
            let t = crate::text::trim_str(n);
            if t.unicode_len() > 0 {
                Some(owned(t))
            } else {
                None
            }
        },
        None => None,
    }
}


/// Where a v4 backtest's machine graph comes from.
#[derive(Debug)]
pub enum V4GraphSource {
    /// A machine graph document that the graph carries.
    Embedded(JsonValue),
    /// The graph's formal QuantScript source, trimmed, to be audited into a machine graph.
    FormalSource(String),
    /// Neither: the graph's protocol is compiled and bridged to a machine graph.
    CoreIrBridge,
}

pub open spec fn v4_graph_artifacts_path() -> Seq<Seq<char>> {
    seq!["artifacts"@, "v4_machine_graph"@]
}

/// The machine graph document a graph carries: the first found under its artifacts'
/// metadata, its metadata, or its artifacts.
pub open spec fn embedded_v4_graph(graph: Json) -> Option<Json> {
    match json_at(graph, v4_graph_path()) {
        Some(g) => Some(g),
        None => match json_at(graph, v4_graph_metadata_path()) {
            Some(g) => Some(g),
            None => json_at(graph, v4_graph_artifacts_path()),
        },
    }
}

/// The graph's formal QuantScript source, trimmed, when it is a text that is not blank.
pub open spec fn formal_source_text(graph: Json) -> Option<Seq<char>> {
    match json_at(graph, formal_source_path()) {
        Some(Json::Str(s)) => if is_blank(s) {
            None
        } else {
            Some(trim(s))
        },
        _ => None,
    }
}

/// Where a v4 backtest takes its machine graph from: an embedded graph document first,
/// then the formal QuantScript source, and else the compiled protocol.
pub fn v4_backtest_graph_source(graph_json: &JsonValue) -> (r: V4GraphSource)
    ensures
        match embedded_v4_graph(graph_json@) {
            Some(g) => r matches V4GraphSource::Embedded(v) && v@ == g,
            None => match formal_source_text(graph_json@) {
                Some(t) => r matches V4GraphSource::FormalSource(s) && s@ == t,
                None => r is CoreIrBridge,
            },
        },
{
    let p1 = vec!["metadata", "artifacts", "v4_machine_graph"];
    assert(p1@.map_values(|s: &str| s@) =~= v4_graph_path());
    match json_pointer(graph_json, &p1) {
        Some(v) => {
            return V4GraphSource::Embedded(json_clone(v));
        },
        None => {},
    }
    let p2 = vec!["metadata", "v4_machine_graph"];
    assert(p2@.map_values(|s: &str| s@) =~= v4_graph_metadata_path());
    match json_pointer(graph_json, &p2) {
        Some(v) => {
            return V4GraphSource::Embedded(json_clone(v));
        },
        None => {},
    }
    let p3 = vec!["artifacts", "v4_machine_graph"];
    assert(p3@.map_values(|s: &str| s@) =~= v4_graph_artifacts_path());
    match json_pointer(graph_json, &p3) {
        Some(v) => {
            return V4GraphSource::Embedded(json_clone(v));
        },
        None => {},
    }
    let p4 = vec!["metadata", "artifacts", "quantscript", "formal_source"];
    assert(p4@.map_values(|s: &str| s@) =~= formal_source_path());
    match json_pointer(graph_json, &p4) {
        Some(JsonValue::Str(source)) => {
            if !crate::text::is_blank_str(source.as_str()) {
                return V4GraphSource::FormalSource(owned(crate::text::trim_str(source.as_str())));
            }
        },
        _ => {},
    }
    V4GraphSource::CoreIrBridge
}

} // verus!
