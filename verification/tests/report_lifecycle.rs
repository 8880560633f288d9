use quantpilot::events::{
    FrontendRuntimeEvent, RuntimeEventEnvelope, RuntimeEventRetentionClass, RuntimeEventStage,
};
use quantpilot::json::JsonValue;
use quantpilot::mutation::RuntimeEvidenceSourceKind;
use quantpilot::report::{
    has_report_governance_identity, materialized_runtime_report, report_generation_policy,
    report_id_for_source, report_record_from_compact_evidence, report_source_metadata_matches,
    report_source_sequence_range, runtime_report_artifact_from_record, runtime_report_evidence_document, runtime_report_status_counts,
    source_changed_report, RuntimeReportLifecycleStatus,
};
use quantpilot::timeline::{
    timeline_item_from_event, unknown_timeline_governance_identity, CountMap,
    RuntimeCompactEvidenceProjection, RuntimeTimelineGovernanceIdentity,
};

fn sample_timeline_event(id: &str, event_type: &str, sequence_no: u64) -> FrontendRuntimeEvent {
    FrontendRuntimeEvent {
        event_id: id.to_string(),
        event_type: event_type.to_string(),
        source_id: "builtin.risk.global".to_string(),
        node_id: "risk_node".to_string(),
        event_time_ms: 1_710_000_000_000,
        severity: "Warn".to_string(),
        summary: "Risk limit clamped the target.".to_string(),
        payload: JsonValue::Object(vec![(
            "reason_code".to_string(),
            JsonValue::Str("MAX_WEIGHT_CLAMPED".to_string()),
        )]),
        envelope: RuntimeEventEnvelope {
            event_id: id.to_string(),
            event_type: event_type.to_string(),
            stage: RuntimeEventStage::Risk,
            run_id: "run_timeline_001".to_string(),
            sequence_no,
            occurred_at_ms: 1_710_000_000_010,
            ingested_at_ms: 1_710_000_000_020,
            trace_id: Some("trace_timeline_001".to_string()),
            module_key: "builtin.risk.global".to_string(),
            strategy_version: "strategy:v1".to_string(),
            parameter_version: "config:abc".to_string(),
            deployment_revision: "sha256:deployment".to_string(),
            capability_hash: "sha256:capability".to_string(),
            mode: "paper".to_string(),
            severity: "Warn".to_string(),
            retention_class: RuntimeEventRetentionClass::Key,
            reason_code: Some("MAX_WEIGHT_CLAMPED".to_string()),
            payload_version: 1,
        },
    }
}

fn known_governance() -> RuntimeTimelineGovernanceIdentity {
    RuntimeTimelineGovernanceIdentity {
        capability_hash: "sha256:capability".to_string(),
        deployment_revision: "sha256:deployment".to_string(),
        strategy_version: "strategy:v1".to_string(),
        parameter_version: "config:abc".to_string(),
    }
}

fn compact(governance: RuntimeTimelineGovernanceIdentity, sequence_nos: &[u64]) -> RuntimeCompactEvidenceProjection {
    let entries: Vec<_> = sequence_nos
        .iter()
        .enumerate()
        .map(|(i, s)| {
            let t = if i == 0 { "ParameterMutationActivated" } else { "RiskDecisionProduced" };
            timeline_item_from_event(&sample_timeline_event(&format!("e{}", i), t, *s))
        })
        .collect();
    RuntimeCompactEvidenceProjection {
        projection_version: 1,
        policy_version: "quantpilot/evidence-compaction/v1".to_string(),
        source_event_count: 1 + sequence_nos.len(),
        retained_event_count: sequence_nos.len(),
        dropped_event_count: 1,
        dropped_by_retention: CountMap::new(),
        dropped_by_stage: CountMap::new(),
        key_event_count: sequence_nos.len(),
        system_event_count: 0,
        governance,
        entries,
    }
}

#[test]
fn report_lifecycle_refuses_ready_without_source_evidence_and_governance_identity() {
    let compact = RuntimeCompactEvidenceProjection {
        projection_version: 1,
        policy_version: "quantpilot/evidence-compaction/v1".to_string(),
        source_event_count: 1,
        retained_event_count: 1,
        dropped_event_count: 0,
        dropped_by_retention: CountMap::new(),
        dropped_by_stage: CountMap::new(),
        key_event_count: 1,
        system_event_count: 0,
        governance: unknown_timeline_governance_identity(),
        entries: vec![timeline_item_from_event(&sample_timeline_event("evt_timeline_001", "RiskDecisionProduced", 42))],
    };
    let report = report_record_from_compact_evidence(
        RuntimeEvidenceSourceKind::Run,
        "run_legacy".to_string(),
        "graph_legacy".to_string(),
        compact,
        1_710_000_000_000,
        None,
        "0123456789abcdef",
    );
    assert_eq!(report.status, RuntimeReportLifecycleStatus::Failed);
    assert!(report.failure_reason.is_some());
    assert!(report.artifacts.is_empty());
}

#[test]
fn ready_report_offers_its_files() {
    let report = report_record_from_compact_evidence(
        RuntimeEvidenceSourceKind::Backtest,
        "bt/1".to_string(),
        "graph".to_string(),
        compact(known_governance(), &[7, 3, 9]),
        5,
        Some("  ".to_string()),
        "0123456789abcdef",
    );
    assert_eq!(report.status, RuntimeReportLifecycleStatus::Ready);
    assert_eq!(report.report_id, "report_backtest_bt_1_0123456789ab");
    let range = report.source_sequence_range.unwrap();
    assert_eq!((range.from, range.to), (3, 9));
    assert_eq!(report.mutation_lifecycle_event_count, 1);
    assert_eq!(report.generation_policy, "quantpilot/report-policy/v1");
    assert_eq!(report.artifacts.len(), 2);
    assert_eq!(report.artifacts[1].file_name, "report_backtest_bt_1_0123456789ab_evidence_report.json");
    assert!(report.failure.is_none());

    let artifact = runtime_report_artifact_from_record(&report, "feed");
    assert_eq!(artifact.evidence_digest, "sha256:feed");
    assert_eq!(artifact.sections.len(), 4);
    assert_eq!(
        artifact.sections[0].summary,
        "Ready report for backtest bt/1 with 3 retained evidence items from 4 source events."
    );
    assert_eq!(artifact.sections[1].summary, "sequence 3-9");
    assert_eq!(
        artifact.sections[2].summary,
        "sha256:capability / sha256:deployment / strategy:v1 / config:abc"
    );
    assert!(!artifact.loading_strategy.requires_detail_window);
}

#[test]
fn saved_reports_are_checked_against_their_source() {
    let report = report_record_from_compact_evidence(
        RuntimeEvidenceSourceKind::Run,
        "run-1".to_string(),
        "graph".to_string(),
        compact(known_governance(), &[1, 2]),
        5,
        None,
        "abc",
    );
    assert_eq!(report.report_id, "report_run_run-1_abc");
    assert!(report_source_metadata_matches(&report, &report.clone()));
    let (same, changed) = materialized_runtime_report(report.clone(), Some(report.clone()), 9);
    assert!(!changed);
    assert_eq!(same.updated_at_ms, 5);
    let (gone, changed) = materialized_runtime_report(report.clone(), None, 9);
    assert!(changed);
    assert_eq!(gone.status, RuntimeReportLifecycleStatus::SourceChanged);
    assert_eq!(gone.failure.as_ref().unwrap().reason_code, "source_missing");
    assert!(gone.artifacts.is_empty());
    assert_eq!(gone.updated_at_ms, 9);
    let mut newer = report.clone();
    newer.source_event_count += 1;
    let (moved, changed) = materialized_runtime_report(report.clone(), Some(newer), 9);
    assert!(changed);
    assert_eq!(moved.failure_reason.as_deref(), Some("source evidence metadata changed after report generation"));
    let failed = source_changed_report(report.clone(), "x", "y".to_string(), 1);
    let (kept, changed) = materialized_runtime_report(failed, None, 10);
    assert!(!changed);
    assert_eq!(kept.updated_at_ms, 1);

    let counts = runtime_report_status_counts(&vec![report.clone(), gone, report]);
    assert_eq!((counts.ready, counts.source_changed, counts.failed), (2, 1, 0));
}

#[test]
fn report_helpers() {
    assert!(has_report_governance_identity(&known_governance()));
    assert!(!has_report_governance_identity(&unknown_timeline_governance_identity()));
    let mut g = known_governance();
    g.parameter_version = " unknown ".to_string();
    assert!(!has_report_governance_identity(&g));
    assert_eq!(report_generation_policy(&Some(" p2 ".to_string())), "p2");
    assert_eq!(report_id_for_source(RuntimeEvidenceSourceKind::Run, "a b", ""), "report_run_a_b_");
    assert!(report_source_sequence_range(&Vec::new()).is_none());
}

#[test]
fn evidence_document_lists_the_report_identity_in_key_order() {
    let report = report_record_from_compact_evidence(
        RuntimeEvidenceSourceKind::Backtest,
        "bt/1".to_string(),
        "graph".to_string(),
        compact(known_governance(), &[7, 3, 9]),
        5,
        None,
        "0123456789abcdef",
    );
    let text = quantpilot::json_text::json_to_text(&runtime_report_evidence_document(&report));
    assert_eq!(
        text,
        "{\"generation_policy\":\"quantpilot/report-policy/v1\",\"governance\":{\"capability_hash\":\"sha256:capability\",\"deployment_revision\":\"sha256:deployment\",\"parameter_version\":\"config:abc\",\"strategy_version\":\"strategy:v1\"},\"graph_id\":\"graph\",\"report_id\":\"report_backtest_bt_1_0123456789ab\",\"retained_event_count\":3,\"source_event_count\":4,\"source_id\":\"bt/1\",\"source_kind\":\"backtest\",\"source_sequence_range\":{\"from\":3,\"to\":9}}"
    );
}

#[test]
fn report_source_kinds_have_contract_names() {
    assert_eq!(quantpilot::report::report_source_kind_value(RuntimeEvidenceSourceKind::Run), "run");
    assert_eq!(quantpilot::report::report_source_kind_value(RuntimeEvidenceSourceKind::Backtest), "backtest");
}
