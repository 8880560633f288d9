use quantpilot::events::{
    attach_runtime_event_envelopes, FrontendRuntimeEvent, RuntimeEventEnvelope, RuntimeGovernanceSnapshot,
    RuntimePermissionBoundary,
};
use quantpilot::json::JsonValue;
use quantpilot::replay::{
    clean_optional_filter, cursor_from_replay_options, event_matches_replay_filters,
    filtered_replay_events, normalized_replay_options, replay_checkpoints, runtime_replay_response,
    RuntimeReplayFilters, RuntimeReplayOptions, RuntimeReplayQuery, RuntimeReplayRecordKind,
};

fn governance() -> RuntimeGovernanceSnapshot {
    RuntimeGovernanceSnapshot {
        capability_hash: "sha256:cap".to_string(),
        strategy_version: "s1".to_string(),
        parameter_version: "p1".to_string(),
        deployment_revision: "rev".to_string(),
        governance_source: "deployment".to_string(),
        permission_boundary: RuntimePermissionBoundary {
            model_version: "pb".to_string(),
            ai_write_policy: "proposal_only".to_string(),
        },
    }
}

fn event(id: &str, event_type: &str, time: u64, severity: &str) -> FrontendRuntimeEvent {
    FrontendRuntimeEvent {
        event_id: id.to_string(),
        event_type: event_type.to_string(),
        source_id: "builtin.data.kline".to_string(),
        node_id: "n".to_string(),
        event_time_ms: time,
        severity: severity.to_string(),
        summary: String::new(),
        payload: JsonValue::Object(Vec::new()),
        envelope: RuntimeEventEnvelope::default(),
    }
}

fn run_events(n: usize) -> Vec<FrontendRuntimeEvent> {
    let mut events: Vec<FrontendRuntimeEvent> = (0..n)
        .map(|i| {
            let t = if i % 3 == 2 { "ExecutionFilled" } else { "DataUpdated" };
            event(&format!("e{}", i), t, 100 + i as u64, "Info")
        })
        .collect();
    attach_runtime_event_envelopes(&mut events, "run-1", "paper", &governance());
    events
}

fn no_filters() -> RuntimeReplayFilters {
    RuntimeReplayFilters { stage: None, severity: None, retention_class: None, module_key: None, key_only: false }
}

fn options(cursor: usize, limit: usize) -> RuntimeReplayOptions {
    RuntimeReplayOptions { cursor, limit, sequence_cursor: None, filters: no_filters() }
}

#[test]
fn query_normalization() {
    let q = RuntimeReplayQuery {
        cursor: Some(3),
        limit: Some(500),
        checkpoint: Some(7),
        stage: Some("  ".to_string()),
        severity: Some(" Warn ".to_string()),
        ..Default::default()
    };
    let o = normalized_replay_options(q);
    assert_eq!((o.cursor, o.limit), (7, 50));
    assert_eq!(o.filters.stage, None);
    assert_eq!(o.filters.severity.as_deref(), Some("Warn"));
    let o = normalized_replay_options(RuntimeReplayQuery { limit: Some(0), ..Default::default() });
    assert_eq!((o.cursor, o.limit), (0, 1));
    let o = normalized_replay_options(RuntimeReplayQuery::default());
    assert_eq!(o.limit, 12);
    assert_eq!(clean_optional_filter(Some(" x ".to_string())).as_deref(), Some("x"));
}

#[test]
fn filters_by_stage_severity_and_module() {
    let events = run_events(6);
    let mut f = no_filters();
    f.stage = Some(" FILL ".to_string());
    assert!(event_matches_replay_filters(&events[2], &f));
    assert!(!event_matches_replay_filters(&events[0], &f));
    let mut f = no_filters();
    f.severity = Some("info".to_string());
    assert!(event_matches_replay_filters(&events[0], &f));
    f.severity = Some("warn".to_string());
    assert!(!event_matches_replay_filters(&events[0], &f));
    let mut f = no_filters();
    f.module_key = Some("other".to_string());
    assert!(!event_matches_replay_filters(&events[0], &f));
    let mut f = no_filters();
    f.key_only = true;
    let kept = filtered_replay_events(events.clone(), &f);
    assert!(kept.iter().all(|e| event_matches_replay_filters(e, &f)));
}

#[test]
fn filtered_events_are_ordered_by_sequence_stably() {
    let mut events = run_events(4);
    events.swap(0, 3);
    events[1].envelope.sequence_no = 0;
    let sorted = filtered_replay_events(events, &no_filters());
    let ids: Vec<&str> = sorted.iter().map(|e| e.event_id.as_str()).collect();
    assert_eq!(ids, vec!["e1", "e0", "e2", "e3"]);
}

#[test]
fn cursors_and_errors() {
    let events = run_events(5);
    assert_eq!(cursor_from_replay_options(&events, &options(4, 2)), Ok(4));
    assert_eq!(
        cursor_from_replay_options(&events, &options(5, 2)),
        Err("游标 `5` 超出 5 个事件的过滤重放窗口范围".to_string())
    );
    let mut o = options(0, 2);
    o.sequence_cursor = Some(3);
    assert_eq!(cursor_from_replay_options(&events, &o), Ok(2));
    o.sequence_cursor = Some(9);
    assert_eq!(
        cursor_from_replay_options(&events, &o),
        Err("sequence_cursor `9` 超出过滤重放窗口范围".to_string())
    );
    assert_eq!(cursor_from_replay_options(&Vec::new(), &options(0, 2)), Ok(0));
    assert!(cursor_from_replay_options(&Vec::new(), &options(1, 2)).is_err());
}

#[test]
fn checkpoints_follow_the_interval() {
    let events = run_events(7);
    let cps = replay_checkpoints(&events, 3);
    let cursors: Vec<usize> = cps.iter().map(|c| c.cursor).collect();
    assert_eq!(cursors, vec![0]);
    assert_eq!(cps[0].label, "1-3");
    let many = run_events(120);
    let cps = replay_checkpoints(&many, 12);
    let cursors: Vec<usize> = cps.iter().map(|c| c.cursor).collect();
    assert_eq!(cursors, vec![0, 50, 100]);
    assert_eq!(cps[2].label, "101-112");
    assert_eq!(cps[1].event_id.as_deref(), Some("e50"));
}

#[test]
fn replay_window_pages() {
    let events = run_events(7);
    let r = runtime_replay_response(
        RuntimeReplayRecordKind::Run,
        "run-1".to_string(),
        "g".to_string(),
        events.clone(),
        options(2, 3),
    )
    .unwrap();
    assert_eq!((r.source_event_count, r.total_events, r.cursor, r.limit), (7, 7, 2, 3));
    let seqs: Vec<usize> = r.events.iter().map(|i| i.sequence_no).collect();
    assert_eq!(seqs, vec![3, 4, 5]);
    assert_eq!(r.window_end, 5);
    assert_eq!(r.fill_event_count, 1);
    assert_eq!((r.previous_cursor, r.next_cursor), (Some(0), Some(5)));
    assert_eq!((r.previous_sequence_cursor, r.next_sequence_cursor), (Some(1), Some(6)));
    assert_eq!(r.sequence_cursor, Some(3));
    assert_eq!(r.timeline.len(), 3);
    assert_eq!(r.timeline[0].event_id, "e2");

    let last = runtime_replay_response(RuntimeReplayRecordKind::Backtest, "b".to_string(), "g".to_string(), events.clone(), options(6, 3)).unwrap();
    assert_eq!(last.events.len(), 1);
    assert_eq!(last.next_cursor, None);
    assert_eq!(last.previous_cursor, Some(3));

    let mut f = options(0, 3);
    f.filters.stage = Some("risk".to_string());
    let empty = runtime_replay_response(RuntimeReplayRecordKind::Run, "r".to_string(), "g".to_string(), events.clone(), f).unwrap();
    assert_eq!((empty.total_events, empty.window_end, empty.events.len()), (0, 0, 0));
    assert!(empty.checkpoints.is_empty());

    let err = runtime_replay_response(RuntimeReplayRecordKind::Run, "r".to_string(), "g".to_string(), events, options(9, 3)).unwrap_err();
    assert_eq!(err, "游标 `9` 超出 7 个事件的过滤重放窗口范围");
}
