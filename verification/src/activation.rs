//! What activating a parameter mutation records besides the mutation itself: a new
//! configuration generation, kept in a bounded history, and an automatic deployment
//! signature snapshot.
use vstd::prelude::*;
use crate::events::push_entry;
use crate::json::{entries_model, json_str, json_u64, Json, JsonValue};
use crate::text::{cat, dec, owned, u64_text};

verus! {

broadcast use vstd::std_specs::vec::group_vec_axioms;

/// The most configuration generations the history keeps.
pub const MAX_GENERATION_HISTORY: usize = 100;

/// A configuration generation: its number, when it was activated, and what it deployed.
#[derive(Clone, Debug)]
pub struct ConfigGenerationEntry {
    pub generation: u64,
    pub activated_at_ms: u64,
    pub deployment_revision: String,
    pub parameter_version: String,
}

/// The history after recording an entry: the entry appended, and the oldest entries
/// dropped so that no more than the cap remain.
pub open spec fn bounded_push(h: Seq<ConfigGenerationEntry>, e: ConfigGenerationEntry, cap: nat) -> Seq<ConfigGenerationEntry> {
    let full = h.push(e);
    if full.len() > cap {
        full.subrange(full.len() - cap, full.len() as int)
    } else {
        full
    }
}

/// Records a configuration generation in the history, keeping the newest hundred.
pub fn record_config_generation(history: &mut Vec<ConfigGenerationEntry>, entry: ConfigGenerationEntry)
    ensures
        final(history)@ == bounded_push(old(history)@, entry, MAX_GENERATION_HISTORY as nat),
{
    history.push(entry);
    let ghost full = history@;
    let total = history.len();
    let mut dropped: usize = 0;
    while history.len() > MAX_GENERATION_HISTORY
        invariant
            total == full.len(),
            full == old(history)@.push(entry),
            dropped <= full.len(),
            dropped > 0 ==> full.len() - dropped >= MAX_GENERATION_HISTORY,
            history@ == full.subrange(dropped as int, full.len() as int),
        decreases history@.len(),
    {
        history.remove(0);
        assert(history@ =~= full.subrange(dropped + 1, full.len() as int));
        dropped += 1;
    }
    assert(full.subrange(0, full.len() as int) =~= full);
}

/// The id of the snapshot taken automatically at activation.
pub fn auto_snapshot_id(now_ms: u64) -> (r: String)
    ensures
        r@ == "snap-auto-"@ + dec(now_ms as nat),
{
    cat("snap-auto-", u64_text(now_ms).as_str())
}

/// The document whose digest signs an automatic activation snapshot, keyed in order.
pub open spec fn snapshot_signature_fields(
    capability_hash: Seq<char>,
    strategy_version: Seq<char>,
    parameter_version: Seq<char>,
    created_at_ms: u64,
) -> Json {
    Json::Object(seq![
        ("capability_hash"@, Json::Str(capability_hash)),
        ("created_at_ms"@, Json::Number(dec(created_at_ms as nat))),
        ("parameter_version"@, Json::Str(parameter_version)),
        ("strategy_version"@, Json::Str(strategy_version)),
    ])
}

/// The document whose digest signs an automatic activation snapshot.
pub fn snapshot_signature_document(
    capability_hash: &str,
    strategy_version: &str,
    parameter_version: &str,
    created_at_ms: u64,
) -> (r: JsonValue)
    ensures
        r@ == snapshot_signature_fields(capability_hash@, strategy_version@, parameter_version@, created_at_ms),
{
    let mut e: Vec<(String, JsonValue)> = Vec::new();
    push_entry(&mut e, "capability_hash", json_str(capability_hash));
    push_entry(&mut e, "created_at_ms", json_u64(created_at_ms));
    push_entry(&mut e, "parameter_version", json_str(parameter_version));
    push_entry(&mut e, "strategy_version", json_str(strategy_version));
    assert(entries_model(e@) =~= seq![
        ("capability_hash"@, Json::Str(capability_hash@)),
        ("created_at_ms"@, Json::Number(dec(created_at_ms as nat))),
        ("parameter_version"@, Json::Str(parameter_version@)),
        ("strategy_version"@, Json::Str(strategy_version@)),
    ]);
    JsonValue::Object(e)
}

/// The end of the observation window that follows an activation: a minute later, capped
/// at the largest time.
pub fn observation_deadline_ms(now_ms: u64) -> (r: u64)
    ensures
        r == if now_ms as int + 60000 > u64::MAX { u64::MAX as int } else { now_ms as int + 60000 },
{
    now_ms.saturating_add(60000)
}


/// The JSON form of a configuration generation, keyed in order.
pub open spec fn generation_model(e: ConfigGenerationEntry) -> Json {
    Json::Object(seq![
        ("activated_at_ms"@, Json::Number(dec(e.activated_at_ms as nat))),
        ("deployment_revision"@, Json::Str(e.deployment_revision@)),
        ("generation"@, Json::Number(dec(e.generation as nat))),
        ("parameter_version"@, Json::Str(e.parameter_version@)),
    ])
}

fn generation_json(e: &ConfigGenerationEntry) -> (r: JsonValue)
    ensures
        r@ == generation_model(*e),
{
    let mut f: Vec<(String, JsonValue)> = Vec::new();
    push_entry(&mut f, "activated_at_ms", json_u64(e.activated_at_ms));
    push_entry(&mut f, "deployment_revision", json_str(e.deployment_revision.as_str()));
    push_entry(&mut f, "generation", json_u64(e.generation));
    push_entry(&mut f, "parameter_version", json_str(e.parameter_version.as_str()));
    assert(entries_model(f@) =~= seq![
        ("activated_at_ms"@, Json::Number(dec(e.activated_at_ms as nat))),
        ("deployment_revision"@, Json::Str(e.deployment_revision@)),
        ("generation"@, Json::Number(dec(e.generation as nat))),
        ("parameter_version"@, Json::Str(e.parameter_version@)),
    ]);
    JsonValue::Object(f)
}

/// The configuration generations answer: the current generation and the history, oldest
/// first, each entry in its JSON form.
pub fn config_generations_document(current_generation: u64, history: &Vec<ConfigGenerationEntry>) -> (r: JsonValue)
    ensures
        r@ == Json::Object(seq![
            ("current_generation"@, Json::Number(dec(current_generation as nat))),
            ("history"@, Json::Array(history@.map_values(|e: ConfigGenerationEntry| generation_model(e)))),
        ]),
{
    let mut items: Vec<JsonValue> = Vec::new();
    let mut i: usize = 0;
    while i < history.len()
        invariant
            i <= history@.len(),
            crate::json::items_model(items@) =~= history@.subrange(0, i as int).map_values(
                |e: ConfigGenerationEntry| generation_model(e),
            ),
        decreases history@.len() - i,
    {
        let ghost before = items@;
        let item = generation_json(&history[i]);
        items.push(item);
        proof {
            assert(items@.drop_last() =~= before);
            assert(history@.subrange(0, i + 1).map_values(|e: ConfigGenerationEntry| generation_model(e))
                =~= history@.subrange(0, i as int).map_values(|e: ConfigGenerationEntry| generation_model(e)).push(
                generation_model(history@[i as int]),
            ));
        }
        i += 1;
    }
    assert(history@.subrange(0, history@.len() as int) =~= history@);
    let mut e: Vec<(String, JsonValue)> = Vec::new();
    push_entry(&mut e, "current_generation", json_u64(current_generation));
    let ghost hm = crate::json::items_model(items@);
    push_entry(&mut e, "history", JsonValue::Array(items));
    assert(entries_model(e@) =~= seq![
        ("current_generation"@, Json::Number(dec(current_generation as nat))),
        ("history"@, Json::Array(hm)),
    ]);
    JsonValue::Object(e)
}


/// Recording a generation keeps the history within its cap, with the new entry last; while
/// the history is below the cap, nothing is dropped.
pub proof fn lemma_generation_history_bounded(history: Seq<ConfigGenerationEntry>, entry: ConfigGenerationEntry)
    requires
        history.len() <= MAX_GENERATION_HISTORY,
    ensures
        bounded_push(history, entry, MAX_GENERATION_HISTORY as nat).len() <= MAX_GENERATION_HISTORY,
        bounded_push(history, entry, MAX_GENERATION_HISTORY as nat).last() == entry,
        history.len() < MAX_GENERATION_HISTORY ==> bounded_push(history, entry, MAX_GENERATION_HISTORY as nat)
            == history.push(entry),
{
}

} // verus!
