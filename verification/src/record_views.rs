//! The evidence views a run or backtest detail shows beside its record: the timeline of
//! its events, the key-event index, the compact evidence projection and the diagnostics.
use vstd::prelude::*;
use crate::diagnostics::{build_runtime_diagnostics_from_events, diagnostics_of, RuntimeDiagnosticsPayload};
use crate::events::FrontendRuntimeEvent;
use crate::timeline::{
    compact_evidence_projection_from_timeline, compact_governance, count_as_entry, count_entry, count_items,
    dropped_by_retention_pred, dropped_by_stage_pred, filter_items, is_key_item, is_retained, is_system_item,
    retained_key_event_index_from_timeline, timeline_item_of, timeline_items_from_events,
    RuntimeCompactEvidenceProjection, RuntimeRetainedKeyEventIndex, RuntimeTimelineItem,
};

verus! {

/// The evidence views that a run's or a backtest's detail response shows beside its record.
pub struct RecordEvidenceViews {
    pub timeline: Vec<RuntimeTimelineItem>,
    pub retained_key_event_index: RuntimeRetainedKeyEventIndex,
    pub compact_evidence: RuntimeCompactEvidenceProjection,
    pub runtime_diagnostics: RuntimeDiagnosticsPayload,
}

/// `t` is the timeline of `events`: one item per event, in order.
pub open spec fn timeline_of(t: Seq<RuntimeTimelineItem>, events: Seq<FrontendRuntimeEvent>) -> bool {
    &&& t.len() == events.len()
    &&& forall|i: int| 0 <= i < events.len() ==> timeline_item_of(#[trigger] t[i], events[i])
}

/// `r` is the key-event index of `timeline`, counted against `source_event_count` events.
pub open spec fn retained_index_of(
    r: RuntimeRetainedKeyEventIndex,
    timeline: Seq<RuntimeTimelineItem>,
    source_event_count: usize,
) -> bool {
    &&& r.index_version == 1
    &&& r.policy_version@ == "quantpilot/key-event-index/v1"@
    &&& r.source_event_count == source_event_count
    &&& r.entries@ == filter_items(timeline, |it: RuntimeTimelineItem| is_retained(it))
    &&& r.retained_event_count == r.entries@.len()
    &&& r.key_event_count == count_items(r.entries@, |it: RuntimeTimelineItem| is_key_item(it))
    &&& r.system_event_count == count_items(r.entries@, |it: RuntimeTimelineItem| is_system_item(it))
}

/// `r` is the compact evidence projection of `timeline` under the key-event index `idx`.
pub open spec fn compact_projection_of(
    r: RuntimeCompactEvidenceProjection,
    timeline: Seq<RuntimeTimelineItem>,
    idx: RuntimeRetainedKeyEventIndex,
) -> bool {
    &&& r.projection_version == 1
    &&& r.policy_version@ == "quantpilot/evidence-compaction/v1"@
    &&& r.source_event_count == timeline.len()
    &&& r.retained_event_count == idx.entries@.len()
    &&& r.dropped_event_count == (if timeline.len() >= idx.entries@.len() {
        timeline.len() - idx.entries@.len()
    } else {
        0
    })
    &&& forall|k: Seq<char>|
        count_entry(r.dropped_by_retention.entries@, k) == count_as_entry(
            count_items(timeline, dropped_by_retention_pred(idx.entries@, k)),
        )
    &&& forall|k: Seq<char>|
        count_entry(r.dropped_by_stage.entries@, k) == count_as_entry(
            count_items(timeline, dropped_by_stage_pred(idx.entries@, k)),
        )
    &&& r.key_event_count == idx.key_event_count
    &&& r.system_event_count == idx.system_event_count
    &&& compact_governance(r.governance, timeline, idx.entries@)
    &&& r.entries@ == idx.entries@
}

/// `v` holds the evidence views of `events`, with diagnostics named after `source`.
pub open spec fn evidence_views_of(v: RecordEvidenceViews, events: Seq<FrontendRuntimeEvent>, source: Seq<char>) -> bool {
    &&& timeline_of(v.timeline@, events)
    &&& retained_index_of(v.retained_key_event_index, v.timeline@, events.len() as usize)
    &&& compact_projection_of(v.compact_evidence, v.timeline@, v.retained_key_event_index)
    &&& diagnostics_of(v.runtime_diagnostics, events, source)
}

/// The timeline, key-event index, compact evidence and diagnostics of a record's events.
pub fn record_evidence_views(events: Vec<FrontendRuntimeEvent>, source: &str) -> (r: RecordEvidenceViews)
    ensures
        evidence_views_of(r, events@, source@),
{
    let timeline = timeline_items_from_events(&events);
    let retained_key_event_index = retained_key_event_index_from_timeline(&timeline, events.len());
    let compact_evidence = compact_evidence_projection_from_timeline(&timeline, &retained_key_event_index);
    let runtime_diagnostics = build_runtime_diagnostics_from_events(events, source);
    RecordEvidenceViews { timeline, retained_key_event_index, compact_evidence, runtime_diagnostics }
}

/// The evidence views of a backtest's detail: those of its artifact event log when it
/// has artifact views, else those of its runtime events.
pub fn backtest_evidence_views(
    events: Vec<FrontendRuntimeEvent>,
    artifact_events: Option<Vec<FrontendRuntimeEvent>>,
) -> (r: RecordEvidenceViews)
    ensures
        match artifact_events {
            Some(a) => evidence_views_of(r, a@, "backtest_event_log"@),
            None => evidence_views_of(r, events@, "runtime_events"@),
        },
{
    match artifact_events {
        Some(a) => record_evidence_views(a, "backtest_event_log"),
        None => record_evidence_views(events, "runtime_events"),
    }
}

} // verus!
