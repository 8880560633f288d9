use quantpilot::events::{
    attach_runtime_event_envelopes, FrontendRuntimeEvent, RuntimeEventEnvelope, RuntimeGovernanceSnapshot,
    RuntimePermissionBoundary,
};
use quantpilot::json::JsonValue;
use quantpilot::normalization::{
    backtest_artifacts_need_governance_rebuild, backtest_artifacts_should_rebuild, experiment_sweep_axes,
    infer_runtime_event_mode, is_legacy_default_governance, normalize_backtest_record, normalize_governance_source, BacktestArtifactEvidence,
    normalize_run_record, RuntimeGovernanceMaterialization,
};

fn governance(cap: &str, dep: &str) -> RuntimeGovernanceSnapshot {
    RuntimeGovernanceSnapshot {
        capability_hash: cap.to_string(),
        strategy_version: "strategy:v1".to_string(),
        parameter_version: "config:v1".to_string(),
        deployment_revision: dep.to_string(),
        governance_source: String::new(),
        permission_boundary: RuntimePermissionBoundary { model_version: "m".to_string(), ai_write_policy: "p".to_string() },
    }
}

fn event(id: &str, payload: JsonValue) -> FrontendRuntimeEvent {
    FrontendRuntimeEvent {
        event_id: id.to_string(),
        event_type: "DataUpdated".to_string(),
        source_id: "feed".to_string(),
        node_id: "node".to_string(),
        event_time_ms: 1,
        severity: "Info".to_string(),
        summary: String::new(),
        payload,
        envelope: RuntimeEventEnvelope::empty(),
    }
}

fn mode_payload(mode: &str) -> JsonValue {
    JsonValue::Object(vec![("runtime_mode".to_string(), JsonValue::Str(mode.to_string()))])
}

#[test]
fn legacy_identities_are_named_as_such() {
    assert!(is_legacy_default_governance(&governance(" unknown ", "sha256:d")));
    assert!(is_legacy_default_governance(&governance("sha256:c", "  ")));
    assert!(!is_legacy_default_governance(&governance("sha256:c", "sha256:d")));
    let g = normalize_governance_source(governance("", "x"), RuntimeGovernanceMaterialization::CurrentRuntime);
    assert_eq!(g.governance_source, "legacy_default");
    let g = normalize_governance_source(governance("c", "d"), RuntimeGovernanceMaterialization::LoadedManifest);
    assert_eq!(g.governance_source, "loaded_manifest");
    assert_eq!(g.capability_hash, "c");
    let g = normalize_governance_source(governance("c", "d"), RuntimeGovernanceMaterialization::CurrentRuntime);
    assert_eq!(g.governance_source, "current_runtime");
}

#[test]
fn the_mode_comes_from_the_first_event_that_shows_one() {
    let mut first = event("a", mode_payload("  "));
    first.envelope.mode = "unknown".to_string();
    let mut second = event("b", mode_payload("paper"));
    second.envelope.mode = " live ".to_string();
    assert_eq!(infer_runtime_event_mode(&vec![first, second]), "live");
    assert_eq!(infer_runtime_event_mode(&vec![event("c", mode_payload("backtest"))]), "backtest");
    assert_eq!(infer_runtime_event_mode(&vec![]), "unknown");
}

#[test]
fn stored_envelopes_are_repaired_only_when_they_fail() {
    let mut events = vec![event("e1", mode_payload("paper")), event("e2", mode_payload("paper"))];
    let g = normalize_run_record(governance("sha256:c", "sha256:d"), &mut events, "run_1", RuntimeGovernanceMaterialization::CurrentRuntime);
    assert_eq!(g.governance_source, "current_runtime");
    assert_eq!(events[0].envelope.sequence_no, 1);
    assert_eq!(events[1].envelope.sequence_no, 2);
    assert_eq!(events[1].envelope.mode, "paper");
    assert_eq!(events[0].envelope.run_id, "run_1");

    let mut valid = vec![event("e1", mode_payload("paper"))];
    attach_runtime_event_envelopes(&mut valid, "run_2", "live", &g);
    let _ = normalize_run_record(g.clone(), &mut valid, "run_2", RuntimeGovernanceMaterialization::CurrentRuntime);
    assert_eq!(valid[0].envelope.mode, "live");
}

#[test]
fn sweep_axes_are_the_axes_with_several_values() {
    assert_eq!(experiment_sweep_axes(2, 1, 3), vec!["fee_bps".to_string(), "latency_ms".to_string()]);
    assert!(experiment_sweep_axes(1, 0, 1).is_empty());
    assert_eq!(experiment_sweep_axes(0, 2, 0), vec!["slippage_bps".to_string()]);
}

#[test]
fn artifacts_are_stale_without_event_ids_or_with_another_identity() {
    let g = normalize_governance_source(governance("sha256:c", "sha256:d"), RuntimeGovernanceMaterialization::CurrentRuntime);
    let mut with_ids = vec![event("e1", mode_payload("backtest"))];
    attach_runtime_event_envelopes(&mut with_ids, "bt_1", "backtest", &g);
    assert!(!backtest_artifacts_need_governance_rebuild(&with_ids, &g, &g));
    let mut other = g.clone();
    other.parameter_version = "config:v2".to_string();
    assert!(backtest_artifacts_need_governance_rebuild(&with_ids, &other, &g));
    let without_ids = vec![event("e1", mode_payload("backtest"))];
    assert!(backtest_artifacts_need_governance_rebuild(&without_ids, &g, &g));

    assert!(backtest_artifacts_should_rebuild(Some(0), true));
    assert!(!backtest_artifacts_should_rebuild(Some(3), true));
    assert!(!backtest_artifacts_should_rebuild(Some(0), false));
    assert!(!backtest_artifacts_should_rebuild(None, true));
}

#[test]
fn backtest_records_repair_events_and_artifact_events_alike() {
    let mut events = vec![event("e1", mode_payload("backtest"))];
    let mut artifacts = Some(BacktestArtifactEvidence {
        event_log_events: vec![event("a1", JsonValue::Null), event("a2", JsonValue::Null)],
        manifest_governance: governance("old", "old"),
    });
    let g = normalize_backtest_record(
        governance("sha256:c", "sha256:d"),
        &mut events,
        &mut artifacts,
        "bt_1",
        RuntimeGovernanceMaterialization::LoadedManifest,
    );
    assert_eq!(g.governance_source, "loaded_manifest");
    assert_eq!(events[0].envelope.run_id, "bt_1");
    assert_eq!(events[0].envelope.mode, "backtest");
    let artifacts = artifacts.unwrap();
    assert_eq!(artifacts.manifest_governance.capability_hash, "sha256:c");
    assert_eq!(artifacts.manifest_governance.governance_source, "loaded_manifest");
    let log = artifacts.event_log_events;
    assert_eq!(log[1].envelope.sequence_no, 2);
    assert_eq!(log[1].envelope.mode, "backtest");
    assert_eq!(log[0].envelope.capability_hash, "sha256:c");

    let mut none = None;
    let mut events = vec![event("e1", mode_payload("paper"))];
    let g = normalize_backtest_record(governance("", "x"), &mut events, &mut none, "bt_2", RuntimeGovernanceMaterialization::CurrentRuntime);
    assert_eq!(g.governance_source, "legacy_default");
    assert!(none.is_none());
}
