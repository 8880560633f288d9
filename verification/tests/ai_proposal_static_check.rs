use quantpilot::json::JsonValue;
use quantpilot::mutation::{RuntimeEvidenceSourceKind, RuntimeParameterMutationTarget};
use quantpilot::proposal::{
    ai_proposal_event_contract, ai_proposal_static_check_result, anchor_has_source_segment,
    expected_config_domain_for_target, is_valid_ai_proposal_transition, is_valid_hash_identity,
    validate_ai_model_identity, validate_hash_identity, CreateRuntimeAiProposalRequest,
    RuntimeAiModelIdentity, RuntimeAiProposalConfigDomainBinding, RuntimeAiProposalStaticCheckResult,
    RuntimeAiProposalStatus, StrategyConfigProposalDomain,
};

fn hash(ch: char) -> String {
    format!("sha256:{}", ch.to_string().repeat(64))
}

fn number(n: &str) -> JsonValue {
    JsonValue::Number(n.to_string())
}

fn v4_target() -> RuntimeParameterMutationTarget {
    RuntimeParameterMutationTarget {
        node_id: "compat.execution".to_string(),
        module_key: "v4.machine.param".to_string(),
        parameter_path: "v4.machine.timeout_ms".to_string(),
    }
}

fn v4_guard_target(parameter_path: &str) -> RuntimeParameterMutationTarget {
    RuntimeParameterMutationTarget {
        node_id: "risk.guard".to_string(),
        module_key: "v4.transition.guard".to_string(),
        parameter_path: parameter_path.to_string(),
    }
}

fn model() -> RuntimeAiModelIdentity {
    RuntimeAiModelIdentity {
        provider: "test".to_string(),
        model: "local".to_string(),
        model_version: "v1".to_string(),
    }
}

fn binding(before: String, after: String, anchors: &[&str]) -> RuntimeAiProposalConfigDomainBinding {
    RuntimeAiProposalConfigDomainBinding {
        target_domain: StrategyConfigProposalDomain::StateMachine,
        before_digest: before,
        after_digest: after,
        evidence_anchor_ids: anchors.iter().map(|a| a.to_string()).collect(),
    }
}

fn v4_binding(before: String, after: String) -> RuntimeAiProposalConfigDomainBinding {
    binding(
        before,
        after,
        &["backtest:bt1", "productization_replay_diff:bt1", "runtime_replay_runner:verified:bt1"],
    )
}

fn request(
    source_kind: RuntimeEvidenceSourceKind,
    source_id: &str,
    target: RuntimeParameterMutationTarget,
    prompt_hash: String,
    evidence_hash: String,
    reason: &str,
    config_domain_binding: Option<RuntimeAiProposalConfigDomainBinding>,
) -> CreateRuntimeAiProposalRequest {
    CreateRuntimeAiProposalRequest {
        source_kind,
        source_id: source_id.to_string(),
        target,
        old_value: number("1"),
        new_value: number("2"),
        model: model(),
        prompt_hash,
        evidence_hash,
        actor: None,
        reason: reason.to_string(),
        config_domain_binding,
    }
}

fn has_code(result: &RuntimeAiProposalStaticCheckResult, code: &str) -> bool {
    result.details.iter().any(|detail| detail.code == code)
}

// The v4 machine rules allow a guard proposal to touch risk limits such as
// `risk.max_notional`, and neither topology (`graph.edges`) nor capability sources
// (`execution.capability_source`); the flag passed below states that decision.

#[test]
fn v4_ai_proposal_static_check_requires_backtest_source() {
    let request = request(
        RuntimeEvidenceSourceKind::Run,
        "run-1",
        v4_target(),
        "sha256:prompt".to_string(),
        "sha256:evidence".to_string(),
        "Tune v4 machine timeout from trajectory evidence",
        Some(v4_binding("old".to_string(), "new".to_string())),
    );
    let result = ai_proposal_static_check_result(&request, "old", "new", 1, 1, false);
    assert_eq!(result.status, RuntimeAiProposalStatus::StaticCheckFailed);
    assert!(has_code(&result, "v4_proposal_requires_backtest_artifact"));
}

#[test]
fn ai_proposal_static_check_requires_config_domain_binding() {
    let old = hash('b');
    let new = hash('c');
    let request = request(
        RuntimeEvidenceSourceKind::Backtest,
        "bt1",
        v4_target(),
        hash('d'),
        hash('a'),
        "Tune v4 machine timeout from trajectory evidence",
        None,
    );
    let result = ai_proposal_static_check_result(&request, &old, &new, 1, 1, false);
    assert_eq!(result.status, RuntimeAiProposalStatus::StaticCheckFailed);
    assert!(has_code(&result, "strategy_config_ai_binding_required"));
}

#[test]
fn ai_proposal_static_check_accepts_matching_config_domain_binding() {
    let old = hash('b');
    let new = hash('c');
    let request = request(
        RuntimeEvidenceSourceKind::Backtest,
        "bt1",
        v4_target(),
        hash('d'),
        hash('a'),
        "Tune v4 machine timeout from trajectory evidence",
        Some(v4_binding(old.clone(), new.clone())),
    );
    let result = ai_proposal_static_check_result(&request, &old, &new, 1, 1, false);
    assert_eq!(result.status, RuntimeAiProposalStatus::StaticCheckPassed);
    assert!(result.details.is_empty());
}

#[test]
fn v4_ai_proposal_static_check_accepts_guard_parameter_diff_path() {
    let old = hash('b');
    let new = hash('c');
    let request = request(
        RuntimeEvidenceSourceKind::Backtest,
        "bt1",
        v4_guard_target("risk.max_notional"),
        hash('d'),
        hash('a'),
        "Tune v4 guard risk limit from trajectory evidence",
        Some(v4_binding(old.clone(), new.clone())),
    );
    let result = ai_proposal_static_check_result(&request, &old, &new, 1, 1, true);
    assert_eq!(result.status, RuntimeAiProposalStatus::StaticCheckPassed);
    assert!(result.details.is_empty());
}

#[test]
fn v4_ai_proposal_static_check_rejects_guard_topology_path() {
    let old = hash('b');
    let new = hash('c');
    let request = request(
        RuntimeEvidenceSourceKind::Backtest,
        "bt1",
        v4_guard_target("graph.edges"),
        hash('d'),
        hash('a'),
        "Attempt topology edit through guard proposal",
        Some(v4_binding(old.clone(), new.clone())),
    );
    let result = ai_proposal_static_check_result(&request, &old, &new, 1, 1, false);
    assert_eq!(result.status, RuntimeAiProposalStatus::StaticCheckFailed);
    assert!(result.details.iter().any(|detail| {
        detail.code == "v4_guard_parameter_path_not_proposal_only"
            && detail.target == "target.parameter_path"
    }));
}

#[test]
fn v4_ai_proposal_static_check_rejects_guard_capability_source_path() {
    let old = hash('b');
    let new = hash('c');
    let request = request(
        RuntimeEvidenceSourceKind::Backtest,
        "bt1",
        v4_guard_target("execution.capability_source"),
        hash('d'),
        hash('a'),
        "Attempt capability source edit through guard proposal",
        Some(v4_binding(old.clone(), new.clone())),
    );
    let result = ai_proposal_static_check_result(&request, &old, &new, 1, 1, false);
    assert_eq!(result.status, RuntimeAiProposalStatus::StaticCheckFailed);
    assert!(result.details.iter().any(|detail| {
        detail.code == "v4_guard_parameter_path_not_proposal_only"
            && detail.target == "target.parameter_path"
    }));
}

#[test]
fn v4_ai_proposal_static_check_requires_productization_replay_anchor() {
    let old = hash('b');
    let new = hash('c');
    let request = request(
        RuntimeEvidenceSourceKind::Backtest,
        "bt1",
        v4_target(),
        hash('d'),
        hash('a'),
        "Tune v4 machine timeout from trajectory evidence",
        Some(binding(old.clone(), new.clone(), &["backtest:bt1"])),
    );
    let result = ai_proposal_static_check_result(&request, &old, &new, 1, 1, false);
    assert_eq!(result.status, RuntimeAiProposalStatus::StaticCheckFailed);
    assert!(has_code(&result, "strategy_config_ai_binding_productization_replay_diff_required"));
}

#[test]
fn v4_ai_proposal_static_check_requires_runtime_runner_verified_anchor() {
    let old = hash('b');
    let new = hash('c');
    let request = request(
        RuntimeEvidenceSourceKind::Backtest,
        "bt1",
        v4_target(),
        hash('d'),
        hash('a'),
        "Tune v4 machine timeout from trajectory evidence",
        Some(binding(old.clone(), new.clone(), &["backtest:bt1", "productization_replay_diff:bt1"])),
    );
    let result = ai_proposal_static_check_result(&request, &old, &new, 1, 1, false);
    assert_eq!(result.status, RuntimeAiProposalStatus::StaticCheckFailed);
    assert!(has_code(&result, "strategy_config_ai_binding_runtime_runner_verified_required"));
}

#[test]
fn v4_ai_proposal_static_check_requires_productization_anchor_for_source_backtest() {
    let old = hash('b');
    let new = hash('c');
    let request = request(
        RuntimeEvidenceSourceKind::Backtest,
        "bt1",
        v4_target(),
        hash('d'),
        hash('a'),
        "Tune v4 machine timeout from trajectory evidence",
        Some(binding(
            old.clone(),
            new.clone(),
            &[
                "backtest:bt1",
                "productization_replay_diff:other-bt",
                "runtime_replay_runner:verified:bt1",
            ],
        )),
    );
    let result = ai_proposal_static_check_result(&request, &old, &new, 1, 1, false);
    assert_eq!(result.status, RuntimeAiProposalStatus::StaticCheckFailed);
    assert!(has_code(
        &result,
        "strategy_config_ai_binding_productization_replay_diff_source_mismatch"
    ));
}

#[test]
fn v4_ai_proposal_static_check_requires_runtime_runner_anchor_for_source_backtest() {
    let old = hash('b');
    let new = hash('c');
    let request = request(
        RuntimeEvidenceSourceKind::Backtest,
        "bt1",
        v4_target(),
        hash('d'),
        hash('a'),
        "Tune v4 machine timeout from trajectory evidence",
        Some(binding(
            old.clone(),
            new.clone(),
            &[
                "backtest:bt1",
                "productization_replay_diff:bt1",
                "runtime_replay_runner:verified:other-bt",
            ],
        )),
    );
    let result = ai_proposal_static_check_result(&request, &old, &new, 1, 1, false);
    assert_eq!(result.status, RuntimeAiProposalStatus::StaticCheckFailed);
    assert!(has_code(
        &result,
        "strategy_config_ai_binding_runtime_runner_verified_source_mismatch"
    ));
}

#[test]
fn v4_ai_proposal_static_check_rejects_prefix_source_anchor_match() {
    let old = hash('b');
    let new = hash('c');
    let request = request(
        RuntimeEvidenceSourceKind::Backtest,
        "bt1",
        v4_target(),
        hash('d'),
        hash('a'),
        "Tune v4 machine timeout from trajectory evidence",
        Some(binding(
            old.clone(),
            new.clone(),
            &[
                "backtest:bt1",
                "productization_replay_diff:bt10",
                "runtime_replay_runner:verified:bt10",
            ],
        )),
    );
    let result = ai_proposal_static_check_result(&request, &old, &new, 1, 1, false);
    assert_eq!(result.status, RuntimeAiProposalStatus::StaticCheckFailed);
    assert!(has_code(
        &result,
        "strategy_config_ai_binding_productization_replay_diff_source_mismatch"
    ));
    assert!(has_code(
        &result,
        "strategy_config_ai_binding_runtime_runner_verified_source_mismatch"
    ));
}

#[test]
fn static_check_reports_findings_in_order() {
    let request = request(
        RuntimeEvidenceSourceKind::Backtest,
        "run-1",
        RuntimeParameterMutationTarget {
            node_id: "risk".to_string(),
            module_key: "builtin.risk.global".to_string(),
            parameter_path: "max_position".to_string(),
        },
        hash('d'),
        hash('a'),
        "  ",
        Some(RuntimeAiProposalConfigDomainBinding {
            target_domain: StrategyConfigProposalDomain::Market,
            before_digest: "x".to_string(),
            after_digest: "x".to_string(),
            evidence_anchor_ids: vec![" ".to_string()],
        }),
    );
    let result = ai_proposal_static_check_result(&request, "x", "x", 0, 9, false);
    let codes: Vec<&str> = result.details.iter().map(|d| d.code.as_str()).collect();
    assert_eq!(
        codes,
        vec![
            "missing_source_evidence",
            "noop_parameter_version",
            "missing_reason",
            "strategy_config_ai_binding_domain_mismatch",
            "strategy_config_ai_binding_before_digest_invalid",
            "strategy_config_ai_binding_after_digest_invalid",
            "strategy_config_ai_binding_evidence_required",
            "non_v4_proposal_requires_run_source",
        ]
    );
    assert_eq!(
        result.details[3].message,
        "AI proposal 目标域与模块不一致: expected=Risk, actual=Market"
    );
    assert_eq!(result.checked_at_ms, 9);
    assert_eq!(result.reason_code, "AI_PROPOSAL_STATIC_CHECK_FAILED");
}

#[test]
fn hash_identities() {
    assert!(is_valid_hash_identity(&hash('a')));
    assert!(is_valid_hash_identity(&format!("  {}\n", hash('0'))));
    assert!(!is_valid_hash_identity(&hash('A')));
    assert!(!is_valid_hash_identity(&hash('g')));
    assert!(!is_valid_hash_identity("sha256:abc"));
    assert!(!is_valid_hash_identity(&format!("sha1:{}", "a".repeat(64))));
    assert!(validate_hash_identity(&hash('f'), "prompt_hash", "prompt").is_ok());
    let err = validate_hash_identity("nope", "prompt_hash", "prompt").unwrap_err();
    assert_eq!(err.status, 400);
    assert_eq!(err.code, "bad_request");
    assert_eq!(err.message, "prompt_hash 必须为 sha256:<64位小写十六进制> 格式 (prompt)");
}

#[test]
fn model_identity_needs_every_field() {
    assert!(validate_ai_model_identity(&model()).is_ok());
    let mut m = model();
    m.model_version = " ".to_string();
    assert_eq!(
        validate_ai_model_identity(&m).unwrap_err().message,
        "AI 提案候选必须指定 model.model_version"
    );
    m.provider = String::new();
    assert_eq!(
        validate_ai_model_identity(&m).unwrap_err().message,
        "AI 提案候选必须指定 model.provider"
    );
}

#[test]
fn anchors_match_whole_source_segments() {
    assert!(anchor_has_source_segment("runtime_replay_runner:verified:BT1", "bt1"));
    assert!(anchor_has_source_segment("bt1", "BT1"));
    assert!(!anchor_has_source_segment("productization_replay_diff:bt10", "bt1"));
    assert!(anchor_has_source_segment("a::b", ""));
    assert!(!anchor_has_source_segment("a:b", ""));
}

#[test]
fn config_domains_follow_module_keys() {
    let t = |k: &str| RuntimeParameterMutationTarget {
        node_id: "n".to_string(),
        module_key: k.to_string(),
        parameter_path: "p".to_string(),
    };
    assert_eq!(expected_config_domain_for_target(&t("builtin.data.quote")), StrategyConfigProposalDomain::Market);
    assert_eq!(expected_config_domain_for_target(&t("builtin.runtime.control")), StrategyConfigProposalDomain::Execution);
    assert_eq!(expected_config_domain_for_target(&t("builtin.agent.llm")), StrategyConfigProposalDomain::Observation);
    assert_eq!(expected_config_domain_for_target(&t("custom")), StrategyConfigProposalDomain::AiGovernance);
}

#[test]
fn proposal_status_transitions() {
    assert!(is_valid_ai_proposal_transition(RuntimeAiProposalStatus::Submitted, RuntimeAiProposalStatus::StaticCheckPassed));
    assert!(is_valid_ai_proposal_transition(RuntimeAiProposalStatus::Submitted, RuntimeAiProposalStatus::StaticCheckFailed));
    assert!(is_valid_ai_proposal_transition(RuntimeAiProposalStatus::StaticCheckPassed, RuntimeAiProposalStatus::Approved));
    assert!(is_valid_ai_proposal_transition(RuntimeAiProposalStatus::StaticCheckPassed, RuntimeAiProposalStatus::Expired));
    assert!(!is_valid_ai_proposal_transition(RuntimeAiProposalStatus::Submitted, RuntimeAiProposalStatus::Approved));
    assert!(!is_valid_ai_proposal_transition(RuntimeAiProposalStatus::StaticCheckFailed, RuntimeAiProposalStatus::Approved));
    assert!(!is_valid_ai_proposal_transition(RuntimeAiProposalStatus::Approved, RuntimeAiProposalStatus::Denied));
    assert!(!is_valid_ai_proposal_transition(RuntimeAiProposalStatus::Draft, RuntimeAiProposalStatus::Submitted));
    assert_eq!(ai_proposal_event_contract(RuntimeAiProposalStatus::Expired), ("AIProposalDenied", "AI_PROPOSAL_EXPIRED"));
    assert_eq!(ai_proposal_event_contract(RuntimeAiProposalStatus::Draft), ("AIProposalCreated", "AI_PROPOSAL_CREATED"));
}
