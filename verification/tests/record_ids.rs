use quantpilot::json::JsonValue;
use quantpilot::json_text::json_to_text;
use quantpilot::mutation::{RuntimeEvidenceSourceKind, RuntimeParameterMutationTarget};
use quantpilot::proposal::RuntimeAiModelIdentity;
use quantpilot::record_ids::{
    ai_proposal_id_document, digest_record_id, parameter_mutation_id_document, parameter_version_document,
    rollback_id_document, sha256_reference,
};

fn target() -> RuntimeParameterMutationTarget {
    RuntimeParameterMutationTarget {
        node_id: "node_1".to_string(),
        module_key: "builtin.risk.global".to_string(),
        parameter_path: "max_weight".to_string(),
    }
}

#[test]
fn parameter_version_document_names_target_and_value() {
    let doc = parameter_version_document(&target(), &JsonValue::Number("0.25".to_string()));
    assert_eq!(
        json_to_text(&doc),
        "{\"target\":{\"module_key\":\"builtin.risk.global\",\"node_id\":\"node_1\",\"parameter_path\":\"max_weight\"},\"value\":0.25}"
    );
}

#[test]
fn mutation_id_document_holds_every_identifying_field() {
    let doc = parameter_mutation_id_document(12, 3, RuntimeEvidenceSourceKind::Run, "run_1", &target(), "config:abc");
    assert_eq!(
        json_to_text(&doc),
        "{\"created_at_ms\":12,\"proposed_parameter_version\":\"config:abc\",\"source_event_count\":3,\"source_id\":\"run_1\",\"source_kind\":\"run\",\"target\":{\"module_key\":\"builtin.risk.global\",\"node_id\":\"node_1\",\"parameter_path\":\"max_weight\"}}"
    );
}

#[test]
fn rollback_id_document_names_what_it_undoes() {
    let doc = rollback_id_document("bt_1", "pm_9", &target(), 7, 0, "config:old");
    assert_eq!(
        json_to_text(&doc),
        "{\"created_at_ms\":7,\"proposed_parameter_version\":\"config:old\",\"rollback_of\":\"pm_9\",\"source_event_count\":0,\"source_id\":\"bt_1\",\"target\":{\"module_key\":\"builtin.risk.global\",\"node_id\":\"node_1\",\"parameter_path\":\"max_weight\"}}"
    );
}

#[test]
fn ai_proposal_id_document_includes_model_and_hashes() {
    let model = RuntimeAiModelIdentity {
        provider: "openai".to_string(),
        model: "gpt".to_string(),
        model_version: "1".to_string(),
    };
    let doc = ai_proposal_id_document(1, 2, RuntimeEvidenceSourceKind::Backtest, "bt", &target(), &model, "ph", "eh", "config:new");
    let text = json_to_text(&doc);
    assert!(text.starts_with("{\"created_at_ms\":1,\"evidence_hash\":\"eh\",\"model\":{"));
    assert!(text.contains("\"prompt_hash\":\"ph\",\"proposed_parameter_version\":\"config:new\",\"source_event_count\":2,\"source_id\":\"bt\",\"source_kind\":\"backtest\""));
}

#[test]
fn record_ids_keep_twelve_digest_characters() {
    assert_eq!(digest_record_id("pm", 1700, "0123456789abcdef0123"), "pm_1700_0123456789ab");
    assert_eq!(digest_record_id("ai", 0, "abcdefabcdef"), "ai_0_abcdefabcdef");
    assert_eq!(sha256_reference("ff00"), "sha256:ff00");
}
