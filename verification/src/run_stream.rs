//! The frames that open and close a run's event stream; between them the stream sends
//! each runtime event and then the account.
use vstd::prelude::*;
use crate::json::{entries_model, json_str, json_u64, Json, JsonValue};
use crate::text::dec;

verus! {

/// The first frame of a run's event stream.
pub open spec fn run_started_model(run_id: Seq<char>, graph_id: Seq<char>, compile_id: Seq<char>) -> Json {
    Json::Object(seq![
        ("compile_id"@, Json::Str(compile_id)),
        ("graph_id"@, Json::Str(graph_id)),
        ("run_id"@, Json::Str(run_id)),
        ("status"@, Json::Str("started"@)),
    ])
}

/// The `run_started` frame of a run's event stream.
pub fn run_started_frame(run_id: &str, graph_id: &str, compile_id: &str) -> (r: JsonValue)
    ensures
        r@ == run_started_model(run_id@, graph_id@, compile_id@),
{
    let mut e: Vec<(String, JsonValue)> = Vec::new();
    crate::events::push_entry(&mut e, "compile_id", json_str(compile_id));
    crate::events::push_entry(&mut e, "graph_id", json_str(graph_id));
    crate::events::push_entry(&mut e, "run_id", json_str(run_id));
    crate::events::push_entry(&mut e, "status", json_str("started"));
    assert(entries_model(e@) =~= seq![
        ("compile_id"@, Json::Str(compile_id@)),
        ("graph_id"@, Json::Str(graph_id@)),
        ("run_id"@, Json::Str(run_id@)),
        ("status"@, Json::Str("started"@)),
    ]);
    JsonValue::Object(e)
}

/// The last frame of a run's event stream.
pub open spec fn run_completed_model(run_id: Seq<char>, event_count: usize) -> Json {
    Json::Object(seq![
        ("event_count"@, Json::Number(dec(event_count as nat))),
        ("run_id"@, Json::Str(run_id)),
        ("status"@, Json::Str("completed"@)),
    ])
}

/// The `run_completed` frame of a run's event stream, after `event_count` events.
pub fn run_completed_frame(run_id: &str, event_count: usize) -> (r: JsonValue)
    ensures
        r@ == run_completed_model(run_id@, event_count),
{
    let mut e: Vec<(String, JsonValue)> = Vec::new();
    crate::events::push_entry(&mut e, "event_count", json_u64(event_count as u64));
    crate::events::push_entry(&mut e, "run_id", json_str(run_id));
    crate::events::push_entry(&mut e, "status", json_str("completed"));
    assert(entries_model(e@) =~= seq![
        ("event_count"@, Json::Number(dec(event_count as nat))),
        ("run_id"@, Json::Str(run_id@)),
        ("status"@, Json::Str("completed"@)),
    ]);
    JsonValue::Object(e)
}


} // verus!
