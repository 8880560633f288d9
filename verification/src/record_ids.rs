//! The documents whose canonical digests identify stored records and parameter versions,
//! and the ids made from those digests.
use vstd::prelude::*;
use crate::ai_proposal::{model_identity_json, model_identity_model};
use crate::events::push_entry;
use crate::json::{entries_model, json_clone, json_str, json_u64, Json, JsonValue};
use crate::mutation::{source_kind_text, source_kind_value, target_json, target_model, RuntimeEvidenceSourceKind, RuntimeParameterMutationTarget};
use crate::proposal::RuntimeAiModelIdentity;
use crate::text::{cat, cat3, dec, u64_text};

verus! {

/// The document a parameter version digests: the target and its new value.
pub fn parameter_version_document(target: &RuntimeParameterMutationTarget, value: &JsonValue) -> (r: JsonValue)
    ensures
        r@ == Json::Object(seq![("target"@, target_model(*target)), ("value"@, value@)]),
{
    let mut e: Vec<(String, JsonValue)> = Vec::new();
    push_entry(&mut e, "target", target_json(target));
    push_entry(&mut e, "value", json_clone(value));
    assert(entries_model(e@) =~= seq![("target"@, target_model(*target)), ("value"@, value@)]);
    JsonValue::Object(e)
}

/// The document a parameter mutation's id digests.
pub open spec fn mutation_id_fields(
    created_at_ms: u64,
    source_event_count: usize,
    source_kind: RuntimeEvidenceSourceKind,
    source_id: Seq<char>,
    target: RuntimeParameterMutationTarget,
    proposed_parameter_version: Seq<char>,
) -> Json {
    Json::Object(seq![
        ("created_at_ms"@, Json::Number(dec(created_at_ms as nat))),
        ("proposed_parameter_version"@, Json::Str(proposed_parameter_version)),
        ("source_event_count"@, Json::Number(dec(source_event_count as nat))),
        ("source_id"@, Json::Str(source_id)),
        ("source_kind"@, Json::Str(source_kind_text(source_kind))),
        ("target"@, target_model(target)),
    ])
}

/// The document a parameter mutation's id digests.
pub fn parameter_mutation_id_document(
    created_at_ms: u64,
    source_event_count: usize,
    source_kind: RuntimeEvidenceSourceKind,
    source_id: &str,
    target: &RuntimeParameterMutationTarget,
    proposed_parameter_version: &str,
) -> (r: JsonValue)
    ensures
        r@ == mutation_id_fields(created_at_ms, source_event_count, source_kind, source_id@, *target, proposed_parameter_version@),
{
    let mut e: Vec<(String, JsonValue)> = Vec::new();
    push_entry(&mut e, "created_at_ms", json_u64(created_at_ms));
    push_entry(&mut e, "proposed_parameter_version", json_str(proposed_parameter_version));
    push_entry(&mut e, "source_event_count", json_u64(source_event_count as u64));
    push_entry(&mut e, "source_id", json_str(source_id));
    push_entry(&mut e, "source_kind", json_str(source_kind_value(source_kind)));
    push_entry(&mut e, "target", target_json(target));
    assert(entries_model(e@) =~= seq![
        ("created_at_ms"@, Json::Number(dec(created_at_ms as nat))),
        ("proposed_parameter_version"@, Json::Str(proposed_parameter_version@)),
        ("source_event_count"@, Json::Number(dec(source_event_count as nat))),
        ("source_id"@, Json::Str(source_id@)),
        ("source_kind"@, Json::Str(source_kind_text(source_kind))),
        ("target"@, target_model(*target)),
    ]);
    JsonValue::Object(e)
}

/// The document a rollback's id digests.
pub open spec fn rollback_id_fields(
    source_id: Seq<char>,
    rollback_of: Seq<char>,
    target: RuntimeParameterMutationTarget,
    created_at_ms: u64,
    source_event_count: usize,
    proposed_parameter_version: Seq<char>,
) -> Json {
    Json::Object(seq![
        ("created_at_ms"@, Json::Number(dec(created_at_ms as nat))),
        ("proposed_parameter_version"@, Json::Str(proposed_parameter_version)),
        ("rollback_of"@, Json::Str(rollback_of)),
        ("source_event_count"@, Json::Number(dec(source_event_count as nat))),
        ("source_id"@, Json::Str(source_id)),
        ("target"@, target_model(target)),
    ])
}

/// The document a rollback's id digests.
pub fn rollback_id_document(
    source_id: &str,
    rollback_of: &str,
    target: &RuntimeParameterMutationTarget,
    created_at_ms: u64,
    source_event_count: usize,
    proposed_parameter_version: &str,
) -> (r: JsonValue)
    ensures
        r@ == rollback_id_fields(source_id@, rollback_of@, *target, created_at_ms, source_event_count, proposed_parameter_version@),
{
    let mut e: Vec<(String, JsonValue)> = Vec::new();
    push_entry(&mut e, "created_at_ms", json_u64(created_at_ms));
    push_entry(&mut e, "proposed_parameter_version", json_str(proposed_parameter_version));
    push_entry(&mut e, "rollback_of", json_str(rollback_of));
    push_entry(&mut e, "source_event_count", json_u64(source_event_count as u64));
    push_entry(&mut e, "source_id", json_str(source_id));
    push_entry(&mut e, "target", target_json(target));
    assert(entries_model(e@) =~= seq![
        ("created_at_ms"@, Json::Number(dec(created_at_ms as nat))),
        ("proposed_parameter_version"@, Json::Str(proposed_parameter_version@)),
        ("rollback_of"@, Json::Str(rollback_of@)),
        ("source_event_count"@, Json::Number(dec(source_event_count as nat))),
        ("source_id"@, Json::Str(source_id@)),
        ("target"@, target_model(*target)),
    ]);
    JsonValue::Object(e)
}

/// The document an AI proposal's id digests.
pub open spec fn ai_proposal_id_fields(
    created_at_ms: u64,
    source_event_count: usize,
    source_kind: RuntimeEvidenceSourceKind,
    source_id: Seq<char>,
    target: RuntimeParameterMutationTarget,
    model: RuntimeAiModelIdentity,
    prompt_hash: Seq<char>,
    evidence_hash: Seq<char>,
    proposed_parameter_version: Seq<char>,
) -> Json {
    Json::Object(seq![
        ("created_at_ms"@, Json::Number(dec(created_at_ms as nat))),
        ("evidence_hash"@, Json::Str(evidence_hash)),
        ("model"@, model_identity_model(model)),
        ("prompt_hash"@, Json::Str(prompt_hash)),
        ("proposed_parameter_version"@, Json::Str(proposed_parameter_version)),
        ("source_event_count"@, Json::Number(dec(source_event_count as nat))),
        ("source_id"@, Json::Str(source_id)),
        ("source_kind"@, Json::Str(source_kind_text(source_kind))),
        ("target"@, target_model(target)),
    ])
}

/// The document an AI proposal's id digests.
pub fn ai_proposal_id_document(
    created_at_ms: u64,
    source_event_count: usize,
    source_kind: RuntimeEvidenceSourceKind,
    source_id: &str,
    target: &RuntimeParameterMutationTarget,
    model: &RuntimeAiModelIdentity,
    prompt_hash: &str,
    evidence_hash: &str,
    proposed_parameter_version: &str,
) -> (r: JsonValue)
    ensures
        r@ == ai_proposal_id_fields(
            created_at_ms,
            source_event_count,
            source_kind,
            source_id@,
            *target,
            *model,
            prompt_hash@,
            evidence_hash@,
            proposed_parameter_version@,
        ),
{
    let mut e: Vec<(String, JsonValue)> = Vec::new();
    push_entry(&mut e, "created_at_ms", json_u64(created_at_ms));
    push_entry(&mut e, "evidence_hash", json_str(evidence_hash));
    push_entry(&mut e, "model", model_identity_json(model));
    push_entry(&mut e, "prompt_hash", json_str(prompt_hash));
    push_entry(&mut e, "proposed_parameter_version", json_str(proposed_parameter_version));
    push_entry(&mut e, "source_event_count", json_u64(source_event_count as u64));
    push_entry(&mut e, "source_id", json_str(source_id));
    push_entry(&mut e, "source_kind", json_str(source_kind_value(source_kind)));
    push_entry(&mut e, "target", target_json(target));
    assert(entries_model(e@) =~= seq![
        ("created_at_ms"@, Json::Number(dec(created_at_ms as nat))),
        ("evidence_hash"@, Json::Str(evidence_hash@)),
        ("model"@, model_identity_model(*model)),
        ("prompt_hash"@, Json::Str(prompt_hash@)),
        ("proposed_parameter_version"@, Json::Str(proposed_parameter_version@)),
        ("source_event_count"@, Json::Number(dec(source_event_count as nat))),
        ("source_id"@, Json::Str(source_id@)),
        ("source_kind"@, Json::Str(source_kind_text(source_kind))),
        ("target"@, target_model(*target)),
    ]);
    JsonValue::Object(e)
}

/// A record id made from a prefix, a creation time and the first twelve characters of a
/// digest (`{prefix}_{created_at_ms}_{digest[..12]}`).
pub fn digest_record_id(prefix: &str, created_at_ms: u64, digest_hex: &str) -> (r: String)
    requires
        digest_hex@.len() >= 12,
    ensures
        r@ == prefix@ + "_"@ + dec(created_at_ms as nat) + "_"@ + digest_hex@.subrange(0, 12),
{
    let head = cat3(prefix, "_", u64_text(created_at_ms).as_str());
    let short = digest_hex.substring_char(0, 12);
    cat3(head.as_str(), "_", short)
}

/// A digest as the runtime writes references to it: `sha256:` and its hex digits.
pub fn sha256_reference(digest_hex: &str) -> (r: String)
    ensures
        r@ == "sha256:"@ + digest_hex@,
{
    cat("sha256:", digest_hex)
}

} // verus!
