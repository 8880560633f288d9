//! The first input event a v4 runtime run is started with: the catalog event it answers
//! to, with a payload that holds a default value for each declared field.
use vstd::prelude::*;
use crate::backtest::{first_event, MachineCatalogEvent, MachineEventPayloadField};
use crate::error::{bad_request, is_bad_request, ApiError};
use crate::json::{entries_model, lemma_object_insert_lookup, lookup, object_insert, object_insert_exec, Json, JsonValue};
use crate::backtest::texts_model;
use crate::text::{ascii_lower_seq, cat, is_blank, is_blank_str, owned, str_eq, to_ascii_lower, trim, trim_str, u64_text, dec};

verus! {

/// The input event that starts a v4 runtime run.
#[derive(Debug)]
pub struct V4RuntimeInputEvent {
    pub event_type: String,
    pub source: String,
    pub payload: JsonValue,
    pub ts_ms: u64,
}

/// The declared type of a payload field, trimmed and in lower case.
pub open spec fn payload_type(f: MachineEventPayloadField) -> Seq<char> {
    ascii_lower_seq(trim(f.declared_type@))
}

/// Types whose default is a text.
pub open spec fn text_payload_type(t: Seq<char>) -> bool {
    t == "string"@ || t == "symbol"@ || t == "venue"@ || t == "account"@ || t == "side"@ || t == "position_side"@
        || t == "order_type"@ || t == "time_in_force"@ || t == "freshness"@ || t == "runtime_mode"@ || t
        == "order_permission"@
}

/// Types whose default is the integer zero.
pub open spec fn integer_payload_type(t: Seq<char>) -> bool {
    t == "u64"@ || t == "uint"@ || t == "i64"@ || t == "int"@ || t == "integer"@
}

/// Types whose default is the decimal zero.
pub open spec fn decimal_payload_type(t: Seq<char>) -> bool {
    t == "f64"@ || t == "decimal"@ || t == "number"@ || t == "price"@ || t == "quantity"@ || t == "notional"@
        || t == "percent"@ || t == "ratio"@ || t == "fee"@ || t == "slippage"@ || t == "leverage"@
}

/// The default value of a payload field: for a text type its name (the graph id for
/// `strategy_id`), `true`, zero, an empty object or array, `null` when it may be null,
/// and else its name.
pub open spec fn default_payload_value(f: MachineEventPayloadField, graph_id: Seq<char>) -> Json {
    let t = payload_type(f);
    if text_payload_type(t) {
        if f.name@ == "strategy_id"@ {
            Json::Str(graph_id)
        } else {
            Json::Str(f.name@)
        }
    } else if t == "bool"@ || t == "boolean"@ {
        Json::Bool(true)
    } else if integer_payload_type(t) {
        Json::Number("0"@)
    } else if decimal_payload_type(t) {
        Json::Number("0.0"@)
    } else if t == "object"@ || t == "map"@ {
        Json::Object(seq![])
    } else if t == "array"@ || t == "list"@ {
        Json::Array(seq![])
    } else if f.nullable {
        Json::Null
    } else {
        Json::Str(f.name@)
    }
}

fn is_text_payload_type(t: &str) -> (r: bool)
    ensures
        r == text_payload_type(t@),
{
    str_eq(t, "string") || str_eq(t, "symbol") || str_eq(t, "venue") || str_eq(t, "account") || str_eq(t, "side")
        || str_eq(t, "position_side") || str_eq(t, "order_type") || str_eq(t, "time_in_force") || str_eq(
        t,
        "freshness",
    ) || str_eq(t, "runtime_mode") || str_eq(t, "order_permission")
}

fn is_integer_payload_type(t: &str) -> (r: bool)
    ensures
        r == integer_payload_type(t@),
{
    str_eq(t, "u64") || str_eq(t, "uint") || str_eq(t, "i64") || str_eq(t, "int") || str_eq(t, "integer")
}

fn is_decimal_payload_type(t: &str) -> (r: bool)
    ensures
        r == decimal_payload_type(t@),
{
    str_eq(t, "f64") || str_eq(t, "decimal") || str_eq(t, "number") || str_eq(t, "price") || str_eq(t, "quantity")
        || str_eq(t, "notional") || str_eq(t, "percent") || str_eq(t, "ratio") || str_eq(t, "fee") || str_eq(
        t,
        "slippage",
    ) || str_eq(t, "leverage")
}

/// The default value of a declared payload field.
pub fn default_v4_payload_value(field: &MachineEventPayloadField, graph_id: &str) -> (r: JsonValue)
    ensures
        r@ == default_payload_value(*field, graph_id@),
{
    let lowered = to_ascii_lower(trim_str(field.declared_type.as_str()));
    let t = lowered.as_str();
    if is_text_payload_type(t) {
        if str_eq(field.name.as_str(), "strategy_id") {
            JsonValue::Str(owned(graph_id))
        } else {
            JsonValue::Str(owned(field.name.as_str()))
        }
    } else if str_eq(t, "bool") || str_eq(t, "boolean") {
        JsonValue::Bool(true)
    } else if is_integer_payload_type(t) {
        JsonValue::Number(owned("0"))
    } else if is_decimal_payload_type(t) {
        JsonValue::Number(owned("0.0"))
    } else if str_eq(t, "object") || str_eq(t, "map") {
        let e: Vec<(String, JsonValue)> = Vec::new();
        assert(entries_model(e@) =~= seq![]);
        JsonValue::Object(e)
    } else if str_eq(t, "array") || str_eq(t, "list") {
        let items: Vec<JsonValue> = Vec::new();
        assert(crate::json::items_model(items@) =~= seq![]);
        JsonValue::Array(items)
    } else if field.nullable {
        JsonValue::Null
    } else {
        JsonValue::Str(owned(field.name.as_str()))
    }
}

/// The payload of the starting event: each declared field set to its default, in a map
/// ordered by name where a later field of the same name replaces an earlier one.
pub open spec fn default_payload_entries(fields: Seq<MachineEventPayloadField>, graph_id: Seq<char>) -> Seq<
    (Seq<char>, Json),
>
    decreases fields.len(),
{
    if fields.len() == 0 {
        seq![]
    } else {
        object_insert(
            default_payload_entries(fields.drop_last(), graph_id),
            fields.last().name@,
            default_payload_value(fields.last(), graph_id),
        )
    }
}

/// The catalog event a runtime run starts with: the first whose source is the runtime,
/// else the first event.
pub open spec fn initial_event_choice(s: Seq<MachineCatalogEvent>) -> Option<MachineCatalogEvent> {
    match first_event(s, |e: MachineCatalogEvent| e.is_runtime) {
        Some(e) => Some(e),
        None => if s.len() > 0 {
            Some(s[0])
        } else {
            None
        },
    }
}

fn first_runtime_event(s: &Vec<MachineCatalogEvent>) -> (r: Option<usize>)
    ensures
        match r {
            Some(i) => i < s@.len() && first_event(s@, |e: MachineCatalogEvent| e.is_runtime) == Some(s@[i as int]),
            None => first_event(s@, |e: MachineCatalogEvent| e.is_runtime).is_none(),
        },
{
    let ghost p = |e: MachineCatalogEvent| e.is_runtime;
    let mut i: usize = 0;
    assert(s@.subrange(0, s@.len() as int) =~= s@);
    while i < s.len()
        invariant
            i <= s@.len(),
            p == (|e: MachineCatalogEvent| e.is_runtime),
            first_event(s@, p) == first_event(s@.subrange(i as int, s@.len() as int), p),
        decreases s@.len() - i,
    {
        let ghost rest = s@.subrange(i as int, s@.len() as int);
        assert(rest[0] == s@[i as int]);
        if s[i].is_runtime {
            return Some(i);
        }
        assert(rest.drop_first() =~= s@.subrange(i + 1, s@.len() as int));
        i += 1;
    }
    None
}

/// The payload object of the starting event.
pub fn default_v4_payload(fields: &Vec<MachineEventPayloadField>, graph_id: &str) -> (r: JsonValue)
    ensures
        r@ == Json::Object(default_payload_entries(fields@, graph_id@)),
{
    let mut entries: Vec<(String, JsonValue)> = Vec::new();
    let mut i: usize = 0;
    assert(entries_model(entries@) =~= seq![]);
    assert(fields@.subrange(0, 0) =~= seq![]);
    while i < fields.len()
        invariant
            i <= fields@.len(),
            entries_model(entries@) == default_payload_entries(fields@.subrange(0, i as int), graph_id@),
        decreases fields@.len() - i,
    {
        let ghost next = fields@.subrange(0, i + 1);
        assert(next.drop_last() =~= fields@.subrange(0, i as int));
        assert(next.last() == fields@[i as int]);
        let value = default_v4_payload_value(&fields[i], graph_id);
        object_insert_exec(&mut entries, fields[i].name.clone(), value);
        i += 1;
    }
    assert(fields@.subrange(0, fields@.len() as int) =~= fields@);
    JsonValue::Object(entries)
}

/// The message a run is refused with when the machine declares no event to start it.
pub open spec fn catalog_missing_message() -> Seq<char> {
    "v4 runtime run requires at least one declared event in MachineEventCatalog"@
}

/// The input event a v4 runtime run starts with, at `ts_ms`, from the runtime; refused
/// when the graph has no event catalog or the catalog declares no event.
pub fn handoff_initial_event(
    catalog: Option<&Vec<MachineCatalogEvent>>,
    graph_id: &str,
    ts_ms: u64,
) -> (r: Result<V4RuntimeInputEvent, ApiError>)
    ensures
        match (match catalog {
            Some(c) => initial_event_choice(c@),
            None => None,
        }) {
            Some(e) => r matches Ok(ev) && ev.event_type@ == e.event_type@ && ev.source@ == "runtime"@ && ev.payload@
                == Json::Object(default_payload_entries(e.payload_fields@, graph_id@)) && ev.ts_ms == ts_ms,
            None => r matches Err(err) && is_bad_request(err, "v4_event_catalog_missing"@, catalog_missing_message()),
        },
{
    let c = match catalog {
        Some(c) => c,
        None => {
            return Err(
                bad_request(
                    "v4_event_catalog_missing",
                    owned("v4 runtime run requires at least one declared event in MachineEventCatalog"),
                ),
            );
        },
    };
    let chosen = match first_runtime_event(c) {
        Some(i) => i,
        None => {
            if c.len() == 0 {
                return Err(
                    bad_request(
                        "v4_event_catalog_missing",
                        owned("v4 runtime run requires at least one declared event in MachineEventCatalog"),
                    ),
                );
            }
            0
        },
    };
    let e = &c[chosen];
    Ok(
        V4RuntimeInputEvent {
            event_type: owned(e.event_type.as_str()),
            source: owned("runtime"),
            payload: default_v4_payload(&e.payload_fields, graph_id),
            ts_ms,
        },
    )
}


/// Texts joined with a separator between each two (`[String]::join`).
pub open spec fn joined(items: Seq<Seq<char>>, sep: Seq<char>) -> Seq<char>
    decreases items.len(),
{
    if items.len() == 0 {
        seq![]
    } else if items.len() == 1 {
        items[0]
    } else {
        joined(items.drop_last(), sep) + sep + items.last()
    }
}

/// Joins texts with a separator between each two.
pub fn join_texts(items: &Vec<String>, sep: &str) -> (r: String)
    ensures
        r@ == joined(texts_model(items@), sep@),
{
    let ghost t = texts_model(items@);
    let mut out = String::new();
    let mut i: usize = 0;
    assert(t.subrange(0, 0) =~= seq![]);
    while i < items.len()
        invariant
            i <= items@.len(),
            t == texts_model(items@),
            t.len() == items@.len(),
            out@ == joined(t.subrange(0, i as int), sep@),
        decreases items@.len() - i,
    {
        let ghost next = t.subrange(0, i + 1);
        assert(next.drop_last() =~= t.subrange(0, i as int));
        assert(next.last() == items@[i as int]@);
        if i > 0 {
            out.append(sep);
        } else {
            assert(out@ =~= seq![]);
        }
        out.append(items[i].as_str());
        proof {
            if i == 0 {
                assert(out@ =~= next[0]);
            }
        }
        i += 1;
    }
    assert(t.subrange(0, t.len() as int) =~= t);
    out
}

/// The refusal of a v4 machine graph that fails its static validation.
pub open spec fn static_validation_message(errors: Seq<Seq<char>>) -> Seq<char> {
    "v4 machine graph failed static validation: "@ + joined(errors, "; "@)
}

/// Refuses a v4 machine graph with the errors its static validation gave.
pub fn static_validation_error(errors: &Vec<String>) -> (r: ApiError)
    ensures
        is_bad_request(r, "v4_graph_invalid"@, static_validation_message(texts_model(errors@))),
{
    let joined_errors = join_texts(errors, "; ");
    bad_request("v4_graph_invalid", cat("v4 machine graph failed static validation: ", joined_errors.as_str()))
}

/// Where a QuantScript handoff is headed: a runtime run or a backtest.
#[derive(Clone, Copy, PartialEq, Eq, Debug, Structural)]
pub enum V4HandoffTarget {
    Runtime,
    Backtest,
}

pub open spec fn handoff_rejection_message(target: V4HandoffTarget, diagnostics: Seq<Seq<char>>) -> Seq<char> {
    let head = match target {
        V4HandoffTarget::Runtime => "v4 QS runtime handoff rejected: "@,
        V4HandoffTarget::Backtest => "v4 QS backtest handoff rejected: "@,
    };
    head + joined(diagnostics, "; "@)
}

/// Passes a QuantScript handoff that was accepted; refuses one that was not, with its
/// diagnostics.
pub fn check_v4_handoff(target: V4HandoffTarget, accepted: bool, diagnostics: &Vec<String>) -> (r: Result<(), ApiError>)
    ensures
        accepted ==> r is Ok,
        !accepted ==> (r matches Err(e) && is_bad_request(
            e,
            "v4_runtime_handoff_rejected"@,
            handoff_rejection_message(target, texts_model(diagnostics@)),
        )),
{
    if accepted {
        return Ok(());
    }
    let joined_diagnostics = join_texts(diagnostics, "; ");
    let head = match target {
        V4HandoffTarget::Runtime => "v4 QS runtime handoff rejected: ",
        V4HandoffTarget::Backtest => "v4 QS backtest handoff rejected: ",
    };
    Err(bad_request("v4_runtime_handoff_rejected", cat(head, joined_diagnostics.as_str())))
}

/// The QuantScript source of a v4 runtime run: the request's source, trimmed; refused
/// when it is missing or blank.
pub fn v4_run_source(source: Option<String>) -> (r: Result<String, ApiError>)
    ensures
        match source {
            Some(s) if !is_blank(s@) => r matches Ok(t) && t@ == trim(s@),
            _ => r matches Err(e) && is_bad_request(e, "v4_source_missing"@, "v4 runtime run requires `source` or `graph`"@),
        },
{
    match source {
        Some(s) => {
            if !is_blank_str(s.as_str()) {
                return Ok(owned(trim_str(s.as_str())));
            }
        },
        None => {},
    }
    Err(bad_request("v4_source_missing", owned("v4 runtime run requires `source` or `graph`")))
}

/// The id of a v4 runtime run started at `now_ms`.
pub fn v4_run_id(now_ms: u64) -> (r: String)
    ensures
        r@ == "v4_run_"@ + dec(now_ms as nat),
{
    cat("v4_run_", u64_text(now_ms).as_str())
}


/// The starting payload holds, under each declared name, the default of the last field
/// declared with that name, and nothing under a name that no field declares.
pub proof fn lemma_default_payload_lookup(fields: Seq<MachineEventPayloadField>, graph_id: Seq<char>, name: Seq<char>)
    ensures
        (forall|k: int| 0 <= k < fields.len() ==> #[trigger] fields[k].name@ != name) ==> lookup(
            default_payload_entries(fields, graph_id),
            name,
        ) is None,
        forall|j: int|
            0 <= j < fields.len() && #[trigger] fields[j].name@ == name && (forall|k: int|
                j < k < fields.len() ==> #[trigger] fields[k].name@ != name) ==> lookup(
                default_payload_entries(fields, graph_id),
                name,
            ) == Some(default_payload_value(fields[j], graph_id)),
    decreases fields.len(),
{
    if fields.len() > 0 {
        let prev = fields.drop_last();
        let last = fields.last();
        lemma_default_payload_lookup(prev, graph_id, name);
        lemma_object_insert_lookup(
            default_payload_entries(prev, graph_id),
            last.name@,
            default_payload_value(last, graph_id),
            name,
        );
        assert forall|j: int|
            0 <= j < fields.len() && #[trigger] fields[j].name@ == name && (forall|k: int|
                j < k < fields.len() ==> #[trigger] fields[k].name@ != name) implies lookup(
                default_payload_entries(fields, graph_id),
                name,
            ) == Some(default_payload_value(fields[j], graph_id)) by {
            if j < fields.len() - 1 {
                assert(fields[fields.len() - 1].name@ != name);
                assert(prev[j] == fields[j]);
                assert forall|k: int| j < k < prev.len() implies #[trigger] prev[k].name@ != name by {
                    assert(prev[k] == fields[k]);
                }
            }
        }
        if forall|k: int| 0 <= k < fields.len() ==> #[trigger] fields[k].name@ != name {
            assert(fields[fields.len() - 1].name@ != name);
            assert forall|k: int| 0 <= k < prev.len() implies #[trigger] prev[k].name@ != name by {
                assert(prev[k] == fields[k]);
            }
        }
    } else {
        assert(default_payload_entries(fields, graph_id) =~= Seq::<(Seq<char>, Json)>::empty());
    }
}

} // verus!
