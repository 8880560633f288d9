//! Evidence reports: a report record drawn from a run's or a backtest's compact
//! evidence, the artifact exported for it, and how a saved report is checked against
//! its source.
use vstd::prelude::*;
use crate::json::{Json, JsonValue};
use crate::mutation::{source_kind_text, source_kind_value, RuntimeEvidenceSourceKind};
use crate::storage::{path_safe, sanitize_storage_path_segment};
use crate::text::{cat, cat3, dec, is_blank, is_blank_str, owned, starts_with_str, str_eq, trim, trim_str, u64_text};
use crate::timeline::{RuntimeCompactEvidenceProjection, RuntimeTimelineGovernanceIdentity, RuntimeTimelineItem};

verus! {

broadcast use vstd::std_specs::vec::group_vec_axioms;

/// Where a report stands.
#[derive(Clone, Copy, PartialEq, Eq, Debug, Structural)]
pub enum RuntimeReportLifecycleStatus {
    Requested,
    Generating,
    Ready,
    Failed,
    Expired,
    SourceChanged,
}

/// The first and last sequence numbers of the evidence a report covers.
#[derive(Clone, Copy, PartialEq, Eq, Debug, Structural)]
pub struct RuntimeReportSourceSequenceRange {
    pub from: u64,
    pub to: u64,
}

/// Why a report could not be produced.
#[derive(Clone, Debug)]
pub struct RuntimeReportFailureMetadata {
    pub reason_code: String,
    pub message: String,
    pub retry_eligible: bool,
}

/// A file a ready report offers.
#[derive(Clone, Debug)]
pub struct RuntimeReportArtifactMetadata {
    pub kind: String,
    pub artifact_id: String,
    pub file_name: String,
    pub content_type: String,
}

/// A report on the evidence of a run or a backtest.
#[derive(Clone, Debug)]
pub struct RuntimeEvidenceReportRecord {
    pub report_id: String,
    pub source_kind: RuntimeEvidenceSourceKind,
    pub source_id: String,
    pub graph_id: String,
    pub status: RuntimeReportLifecycleStatus,
    pub source_sequence_range: Option<RuntimeReportSourceSequenceRange>,
    pub source_event_count: usize,
    pub retained_event_count: usize,
    pub mutation_lifecycle_event_count: usize,
    pub governance: RuntimeTimelineGovernanceIdentity,
    pub generation_policy: String,
    pub artifacts: Vec<RuntimeReportArtifactMetadata>,
    pub failure_reason: Option<String>,
    pub failure: Option<RuntimeReportFailureMetadata>,
    pub created_at_ms: u64,
    pub updated_at_ms: u64,
}

/// The range of sequence numbers that the entries cover; none without entries.
pub open spec fn sequence_range_of(entries: Seq<RuntimeTimelineItem>, r: Option<RuntimeReportSourceSequenceRange>) -> bool {
    match r {
        None => entries.len() == 0,
        Some(range) => {
            &&& entries.len() > 0
            &&& exists|i: int| 0 <= i < entries.len() && (#[trigger] entries[i]).sequence_no == range.from
            &&& exists|i: int| 0 <= i < entries.len() && (#[trigger] entries[i]).sequence_no == range.to
            &&& forall|i: int| 0 <= i < entries.len() ==> range.from <= (#[trigger] entries[i]).sequence_no <= range.to
        },
    }
}

/// The smallest and largest sequence numbers among the retained entries.
pub fn report_source_sequence_range(entries: &Vec<RuntimeTimelineItem>) -> (r: Option<RuntimeReportSourceSequenceRange>)
    ensures
        sequence_range_of(entries@, r),
{
    let n = entries.len();
    if n == 0 {
        return None;
    }
    let mut lo = entries[0].sequence_no;
    let mut hi = entries[0].sequence_no;
    let mut i: usize = 1;
    while i < n
        invariant
            n == entries@.len(),
            1 <= i <= n,
            exists|k: int| 0 <= k < i && (#[trigger] entries@[k]).sequence_no == lo,
            exists|k: int| 0 <= k < i && (#[trigger] entries@[k]).sequence_no == hi,
            forall|k: int| 0 <= k < i ==> lo <= (#[trigger] entries@[k]).sequence_no <= hi,
        decreases n - i,
    {
        let s = entries[i].sequence_no;
        if s < lo {
            lo = s;
        }
        if s > hi {
            hi = s;
        }
        i += 1;
    }
    Some(RuntimeReportSourceSequenceRange { from: lo, to: hi })
}

pub open spec fn identity_value_known(v: Seq<char>) -> bool {
    !is_blank(v) && trim(v) != "unknown"@
}

/// A governance identity with every part known: not blank, not `unknown`.
pub open spec fn report_identity_known(g: RuntimeTimelineGovernanceIdentity) -> bool {
    &&& identity_value_known(g.capability_hash@)
    &&& identity_value_known(g.deployment_revision@)
    &&& identity_value_known(g.strategy_version@)
    &&& identity_value_known(g.parameter_version@)
}

fn identity_value_is_known(v: &str) -> (r: bool)
    ensures
        r == identity_value_known(v@),
{
    !is_blank_str(v) && !str_eq(trim_str(v), "unknown")
}

/// Whether a report's governance identity is complete.
pub fn has_report_governance_identity(governance: &RuntimeTimelineGovernanceIdentity) -> (r: bool)
    ensures
        r == report_identity_known(*governance),
{
    identity_value_is_known(governance.capability_hash.as_str()) && identity_value_is_known(
        governance.deployment_revision.as_str(),
    ) && identity_value_is_known(governance.strategy_version.as_str()) && identity_value_is_known(
        governance.parameter_version.as_str(),
    )
}

/// An id segment with every character other than an ASCII letter, digit, `-` or `_`
/// replaced by `_`.
pub fn sanitize_report_id_segment(value: &str) -> (r: String)
    ensures
        r@ == path_safe(value@),
{
    sanitize_storage_path_segment(value)
}

/// The contract text of a report source kind.
pub fn report_source_kind_value(kind: RuntimeEvidenceSourceKind) -> (r: &'static str)
    ensures
        r@ == source_kind_text(kind),
{
    source_kind_value(kind)
}

pub open spec fn generation_policy_of(requested: Option<String>) -> Seq<char> {
    match requested {
        Some(p) => if trim(p@).len() > 0 {
            trim(p@)
        } else {
            "quantpilot/report-policy/v1"@
        },
        None => "quantpilot/report-policy/v1"@,
    }
}

/// The generation policy a report is made under: the one requested, trimmed, or the
/// current default.
pub fn report_generation_policy(requested: &Option<String>) -> (r: String)
    ensures
        r@ == generation_policy_of(*requested),
{
    match requested {
        Some(p) => {
            let t = trim_str(p.as_str());
            if t.unicode_len() > 0 {
                owned(t)
            } else {
                owned("quantpilot/report-policy/v1")
            }
        },
        None => owned("quantpilot/report-policy/v1"),
    }
}

/// The report id for a source: its kind, its id made safe, and the first twelve
/// characters of the digest of the report's metadata.
pub open spec fn report_id_text(kind: RuntimeEvidenceSourceKind, source_id: Seq<char>, digest: Seq<char>) -> Seq<char> {
    "report_"@ + source_kind_text(kind) + "_"@ + path_safe(source_id) + "_"@ + digest.subrange(
        0,
        if digest.len() < 12 { digest.len() as int } else { 12 },
    )
}

pub fn report_id_for_source(kind: RuntimeEvidenceSourceKind, source_id: &str, metadata_digest: &str) -> (r: String)
    ensures
        r@ == report_id_text(kind, source_id@, metadata_digest@),
{
    let n = metadata_digest.unicode_len();
    let short = metadata_digest.substring_char(0, if n < 12 { n } else { 12 });
    let mut id = cat3("report_", source_kind_value(kind), "_");
    id.append(sanitize_report_id_segment(source_id).as_str());
    id.append("_");
    id.append(short);
    id
}


/// How many entries record parameter mutation lifecycle events.
pub open spec fn mutation_entry_count(s: Seq<RuntimeTimelineItem>) -> nat
    decreases s.len(),
{
    if s.len() == 0 {
        0
    } else {
        mutation_entry_count(s.drop_last()) + if "ParameterMutation"@.is_prefix_of(s.last().event_type@) {
            1nat
        } else {
            0nat
        }
    }
}

pub open spec fn artifact_is(
    a: RuntimeReportArtifactMetadata,
    kind: Seq<char>,
    artifact_id: Seq<char>,
    file_name: Seq<char>,
) -> bool {
    a.kind@ == kind && a.artifact_id@ == artifact_id && a.file_name@ == file_name && a.content_type@
        == "application/json"@
}

pub open spec fn missing_evidence_message() -> Seq<char> {
    "source evidence metadata, retained evidence, and governance identity are required"@
}

/// The report drawn from compact evidence: ready, with its metadata and evidence-report
/// files, exactly when the evidence covers a sequence range, the source and the retained
/// evidence are not empty and the governance identity is complete; failed otherwise.
pub open spec fn is_report_record(
    r: RuntimeEvidenceReportRecord,
    kind: RuntimeEvidenceSourceKind,
    source_id: Seq<char>,
    graph_id: Seq<char>,
    compact: RuntimeCompactEvidenceProjection,
    now: u64,
    requested_policy: Option<String>,
    metadata_digest: Seq<char>,
) -> bool {
    let ready = r.source_sequence_range is Some && compact.source_event_count > 0 && compact.retained_event_count > 0
        && report_identity_known(compact.governance);
    let id = r.report_id@;
    &&& sequence_range_of(compact.entries@, r.source_sequence_range)
    &&& id == report_id_text(kind, source_id, metadata_digest)
    &&& r.source_kind == kind
    &&& r.source_id@ == source_id
    &&& r.graph_id@ == graph_id
    &&& r.status == (if ready { RuntimeReportLifecycleStatus::Ready } else { RuntimeReportLifecycleStatus::Failed })
    &&& r.source_event_count == compact.source_event_count
    &&& r.retained_event_count == compact.retained_event_count
    &&& r.mutation_lifecycle_event_count == mutation_entry_count(compact.entries@)
    &&& r.governance == compact.governance
    &&& r.generation_policy@ == generation_policy_of(requested_policy)
    &&& ready ==> {
        &&& r.artifacts@.len() == 2
        &&& artifact_is(r.artifacts@[0], "metadata"@, id + "_metadata"@, id + ".json"@)
        &&& artifact_is(r.artifacts@[1], "evidence_report"@, id + "_evidence_report"@, id + "_evidence_report.json"@)
        &&& r.failure is None
        &&& r.failure_reason is None
    }
    &&& !ready ==> {
        &&& r.artifacts@.len() == 0
        &&& r.failure matches Some(f) && f.reason_code@ == "missing_source_evidence_or_governance"@ && f.message@
            == missing_evidence_message() && f.retry_eligible
        &&& r.failure_reason matches Some(m) && m@ == missing_evidence_message()
    }
    &&& r.created_at_ms == now
    &&& r.updated_at_ms == now
}

fn count_mutation_entries(entries: &Vec<RuntimeTimelineItem>) -> (r: usize)
    ensures
        r == mutation_entry_count(entries@),
{
    let mut count: usize = 0;
    let mut i: usize = 0;
    while i < entries.len()
        invariant
            i <= entries@.len(),
            count == mutation_entry_count(entries@.subrange(0, i as int)),
            count <= i,
        decreases entries@.len() - i,
    {
        assert(entries@.subrange(0, i + 1).drop_last() =~= entries@.subrange(0, i as int));
        if starts_with_str(entries[i].event_type.as_str(), "ParameterMutation") {
            count += 1;
        }
        i += 1;
    }
    assert(entries@.subrange(0, entries@.len() as int) =~= entries@);
    count
}

fn artifact(kind: &str, artifact_id: String, file_name: String) -> (r: RuntimeReportArtifactMetadata)
    ensures
        artifact_is(r, kind@, artifact_id@, file_name@),
{
    RuntimeReportArtifactMetadata { kind: owned(kind), artifact_id, file_name, content_type: owned("application/json") }
}

/// The report on a source's compact evidence, given the digest of its metadata (source,
/// graph, range, policy and governance).
pub fn report_record_from_compact_evidence(
    source_kind: RuntimeEvidenceSourceKind,
    source_id: String,
    graph_id: String,
    compact: RuntimeCompactEvidenceProjection,
    now_ms: u64,
    generation_policy: Option<String>,
    metadata_digest: &str,
) -> (r: RuntimeEvidenceReportRecord)
    ensures
        is_report_record(r, source_kind, source_id@, graph_id@, compact, now_ms, generation_policy, metadata_digest@),
{
    let policy = report_generation_policy(&generation_policy);
    let range = report_source_sequence_range(&compact.entries);
    let mutation_count = count_mutation_entries(&compact.entries);
    let ready = range.is_some() && compact.source_event_count > 0 && compact.retained_event_count > 0
        && has_report_governance_identity(&compact.governance);
    let report_id = report_id_for_source(source_kind, source_id.as_str(), metadata_digest);
    let mut artifacts: Vec<RuntimeReportArtifactMetadata> = Vec::new();
    let (failure, failure_reason) = if ready {
        artifacts.push(artifact("metadata", cat(report_id.as_str(), "_metadata"), cat(report_id.as_str(), ".json")));
        artifacts.push(
            artifact(
                "evidence_report",
                cat(report_id.as_str(), "_evidence_report"),
                cat(report_id.as_str(), "_evidence_report.json"),
            ),
        );
        (None, None)
    } else {
        let message = owned("source evidence metadata, retained evidence, and governance identity are required");
        (
            Some(
                RuntimeReportFailureMetadata {
                    reason_code: owned("missing_source_evidence_or_governance"),
                    message: message.clone(),
                    retry_eligible: true,
                },
            ),
            Some(message),
        )
    };
    RuntimeEvidenceReportRecord {
        report_id,
        source_kind,
        source_id,
        graph_id,
        status: if ready {
            RuntimeReportLifecycleStatus::Ready
        } else {
            RuntimeReportLifecycleStatus::Failed
        },
        source_sequence_range: range,
        source_event_count: compact.source_event_count,
        retained_event_count: compact.retained_event_count,
        mutation_lifecycle_event_count: mutation_count,
        governance: compact.governance,
        generation_policy: policy,
        artifacts,
        failure_reason,
        failure,
        created_at_ms: now_ms,
        updated_at_ms: now_ms,
    }
}

/// A saved report still describes its source when the graph, the sequence range, the
/// event counts, the governance identity and the policy are the same.
pub open spec fn report_metadata_same(a: RuntimeEvidenceReportRecord, b: RuntimeEvidenceReportRecord) -> bool {
    &&& a.graph_id@ == b.graph_id@
    &&& a.source_sequence_range == b.source_sequence_range
    &&& a.source_event_count == b.source_event_count
    &&& a.retained_event_count == b.retained_event_count
    &&& a.governance.capability_hash@ == b.governance.capability_hash@
    &&& a.governance.deployment_revision@ == b.governance.deployment_revision@
    &&& a.governance.strategy_version@ == b.governance.strategy_version@
    &&& a.governance.parameter_version@ == b.governance.parameter_version@
    &&& a.generation_policy@ == b.generation_policy@
}

pub fn report_source_metadata_matches(saved: &RuntimeEvidenceReportRecord, current: &RuntimeEvidenceReportRecord) -> (r: bool)
    ensures
        r == report_metadata_same(*saved, *current),
{
    str_eq(saved.graph_id.as_str(), current.graph_id.as_str()) && saved.source_sequence_range
        == current.source_sequence_range && saved.source_event_count == current.source_event_count
        && saved.retained_event_count == current.retained_event_count && str_eq(
        saved.governance.capability_hash.as_str(),
        current.governance.capability_hash.as_str(),
    ) && str_eq(saved.governance.deployment_revision.as_str(), current.governance.deployment_revision.as_str())
        && str_eq(saved.governance.strategy_version.as_str(), current.governance.strategy_version.as_str())
        && str_eq(saved.governance.parameter_version.as_str(), current.governance.parameter_version.as_str())
        && str_eq(saved.generation_policy.as_str(), current.generation_policy.as_str())
}

/// `b` is report `a` marked as no longer matching its source.
pub open spec fn is_source_changed(b: RuntimeEvidenceReportRecord, a: RuntimeEvidenceReportRecord, reason_code: Seq<char>, message: Seq<char>, now: u64) -> bool {
    &&& b == RuntimeEvidenceReportRecord {
        status: RuntimeReportLifecycleStatus::SourceChanged,
        failure_reason: b.failure_reason,
        failure: b.failure,
        artifacts: b.artifacts,
        updated_at_ms: now,
        ..a
    }
    &&& b.failure_reason matches Some(m) && m@ == message
    &&& b.failure matches Some(f) && f.reason_code@ == reason_code && f.message@ == message && f.retry_eligible
    &&& b.artifacts@.len() == 0
}

/// Marks a report as no longer matching its source: it offers no files any more.
pub fn source_changed_report(record: RuntimeEvidenceReportRecord, reason_code: &str, message: String, now_ms: u64) -> (r: RuntimeEvidenceReportRecord)
    ensures
        is_source_changed(r, record, reason_code@, message@, now_ms),
{
    let mut record = record;
    record.status = RuntimeReportLifecycleStatus::SourceChanged;
    record.failure_reason = Some(message.clone());
    record.failure = Some(RuntimeReportFailureMetadata { reason_code: owned(reason_code), message, retry_eligible: true });
    record.artifacts.clear();
    record.updated_at_ms = now_ms;
    record
}

/// How a saved report reads once checked against its source as it is now (`current` is
/// the report the source would give now, none when the source is gone): a report that is
/// not ready, or whose source still matches, stays as it is; otherwise it is marked
/// changed. The flag says whether it was.
pub fn materialized_runtime_report(
    record: RuntimeEvidenceReportRecord,
    current: Option<RuntimeEvidenceReportRecord>,
    now_ms: u64,
) -> (r: (RuntimeEvidenceReportRecord, bool))
    ensures
        record.status != RuntimeReportLifecycleStatus::Ready ==> r.0 == record && !r.1,
        record.status == RuntimeReportLifecycleStatus::Ready ==> match current {
            None => r.1 && is_source_changed(
                r.0,
                record,
                "source_missing"@,
                "source evidence record is no longer available for report validation"@,
                now_ms,
            ),
            Some(c) => if report_metadata_same(record, c) {
                r.0 == record && !r.1
            } else {
                r.1 && is_source_changed(
                    r.0,
                    record,
                    "source_changed"@,
                    "source evidence metadata changed after report generation"@,
                    now_ms,
                )
            },
        },
{
    if record.status != RuntimeReportLifecycleStatus::Ready {
        return (record, false);
    }
    match current {
        None => (
            source_changed_report(
                record,
                "source_missing",
                owned("source evidence record is no longer available for report validation"),
                now_ms,
            ),
            true,
        ),
        Some(c) => if report_source_metadata_matches(&record, &c) {
            (record, false)
        } else {
            (
                source_changed_report(
                    record,
                    "source_changed",
                    owned("source evidence metadata changed after report generation"),
                    now_ms,
                ),
                true,
            )
        },
    }
}

/// A report's metadata always matches itself, so a ready report checked against an
/// unchanged source stays ready.
pub proof fn lemma_unchanged_source_keeps_report(record: RuntimeEvidenceReportRecord)
    ensures
        report_metadata_same(record, record),
{
}

/// How many reports are in each status.
#[derive(Clone, Debug, PartialEq, Eq)]
pub struct RuntimeEvidenceReportStatusCounts {
    pub requested: usize,
    pub generating: usize,
    pub ready: usize,
    pub failed: usize,
    pub expired: usize,
    pub source_changed: usize,
}

pub open spec fn status_count(s: Seq<RuntimeEvidenceReportRecord>, st: RuntimeReportLifecycleStatus) -> nat
    decreases s.len(),
{
    if s.len() == 0 {
        0
    } else {
        status_count(s.drop_last(), st) + if s.last().status == st { 1nat } else { 0nat }
    }
}

pub open spec fn counts_of(c: RuntimeEvidenceReportStatusCounts, s: Seq<RuntimeEvidenceReportRecord>) -> bool {
    &&& c.requested == status_count(s, RuntimeReportLifecycleStatus::Requested)
    &&& c.generating == status_count(s, RuntimeReportLifecycleStatus::Generating)
    &&& c.ready == status_count(s, RuntimeReportLifecycleStatus::Ready)
    &&& c.failed == status_count(s, RuntimeReportLifecycleStatus::Failed)
    &&& c.expired == status_count(s, RuntimeReportLifecycleStatus::Expired)
    &&& c.source_changed == status_count(s, RuntimeReportLifecycleStatus::SourceChanged)
}

/// Counts the reports by status.
pub fn runtime_report_status_counts(records: &Vec<RuntimeEvidenceReportRecord>) -> (r: RuntimeEvidenceReportStatusCounts)
    ensures
        counts_of(r, records@),
        r.requested + r.generating + r.ready + r.failed + r.expired + r.source_changed == records@.len(),
{
    let mut c = RuntimeEvidenceReportStatusCounts { requested: 0, generating: 0, ready: 0, failed: 0, expired: 0, source_changed: 0 };
    let mut i: usize = 0;
    while i < records.len()
        invariant
            i <= records@.len(),
            counts_of(c, records@.subrange(0, i as int)),
            c.requested + c.generating + c.ready + c.failed + c.expired + c.source_changed == i,
        decreases records@.len() - i,
    {
        assert(records@.subrange(0, i + 1).drop_last() =~= records@.subrange(0, i as int));
        match records[i].status {
            RuntimeReportLifecycleStatus::Requested => c.requested += 1,
            RuntimeReportLifecycleStatus::Generating => c.generating += 1,
            RuntimeReportLifecycleStatus::Ready => c.ready += 1,
            RuntimeReportLifecycleStatus::Failed => c.failed += 1,
            RuntimeReportLifecycleStatus::Expired => c.expired += 1,
            RuntimeReportLifecycleStatus::SourceChanged => c.source_changed += 1,
        }
        i += 1;
    }
    assert(records@.subrange(0, records@.len() as int) =~= records@);
    c
}


/// How a report's evidence is to be loaded.
#[derive(Clone, Debug)]
pub struct RuntimeReportLoadingStrategy {
    pub primary_source: String,
    pub source_event_count: usize,
    pub retained_event_count: usize,
    pub requires_detail_window: bool,
}

/// One section of an exported report.
#[derive(Clone, Debug)]
pub struct RuntimeEvidenceReportSection {
    pub section_id: String,
    pub title: String,
    pub summary: String,
    pub evidence_count: usize,
}

/// The exported form of a report.
#[derive(Clone, Debug)]
pub struct RuntimeEvidenceReportArtifact {
    pub schema_version: String,
    pub report_id: String,
    pub source_kind: RuntimeEvidenceSourceKind,
    pub source_id: String,
    pub graph_id: String,
    pub status: RuntimeReportLifecycleStatus,
    pub source_sequence_range: Option<RuntimeReportSourceSequenceRange>,
    pub source_event_count: usize,
    pub retained_event_count: usize,
    pub mutation_lifecycle_event_count: usize,
    pub governance: RuntimeTimelineGovernanceIdentity,
    pub generation_policy: String,
    pub evidence_digest: String,
    pub loading_strategy: RuntimeReportLoadingStrategy,
    pub sections: Vec<RuntimeEvidenceReportSection>,
}

/// What the lifecycle section says of a report.
pub open spec fn lifecycle_summary(r: RuntimeEvidenceReportRecord) -> Seq<char> {
    match r.status {
        RuntimeReportLifecycleStatus::Ready => "Ready report for "@ + source_kind_text(r.source_kind) + " "@ + r.source_id@
            + " with "@ + dec(r.retained_event_count as nat) + " retained evidence items from "@ + dec(
            r.source_event_count as nat,
        ) + " source events."@,
        RuntimeReportLifecycleStatus::Failed => match r.failure_reason {
            Some(m) => m@,
            None => "Report generation failed."@,
        },
        RuntimeReportLifecycleStatus::Requested => "Report generation was requested."@,
        RuntimeReportLifecycleStatus::Generating => "Report generation is running."@,
        RuntimeReportLifecycleStatus::Expired => "Report artifact expired."@,
        RuntimeReportLifecycleStatus::SourceChanged => "Report source evidence changed after generation."@,
    }
}

pub open spec fn range_summary(r: Option<RuntimeReportSourceSequenceRange>) -> Seq<char> {
    match r {
        Some(range) => "sequence "@ + dec(range.from as nat) + "-"@ + dec(range.to as nat),
        None => "no retained source sequence range"@,
    }
}

pub open spec fn section_is(s: RuntimeEvidenceReportSection, id: Seq<char>, title: Seq<char>, summary: Seq<char>, count: nat) -> bool {
    s.section_id@ == id && s.title@ == title && s.summary@ == summary && s.evidence_count == count
}

/// The exported form of a report: its metadata, the digest of its evidence, how to load
/// it, and its lifecycle, source-range and governance sections, with a mutation-lifecycle
/// section when it links mutation events.
pub open spec fn is_report_artifact(a: RuntimeEvidenceReportArtifact, r: RuntimeEvidenceReportRecord, digest: Seq<char>) -> bool {
    let g = r.governance;
    &&& a.schema_version@ == "quantpilot/evidence-report-artifact/v1"@
    &&& a.report_id == r.report_id
    &&& a.source_kind == r.source_kind
    &&& a.source_id == r.source_id
    &&& a.graph_id == r.graph_id
    &&& a.status == r.status
    &&& a.source_sequence_range == r.source_sequence_range
    &&& a.source_event_count == r.source_event_count
    &&& a.retained_event_count == r.retained_event_count
    &&& a.mutation_lifecycle_event_count == r.mutation_lifecycle_event_count
    &&& a.governance == r.governance
    &&& a.generation_policy == r.generation_policy
    &&& a.evidence_digest@ == "sha256:"@ + digest
    &&& a.loading_strategy.primary_source@ == "compact_evidence"@
    &&& a.loading_strategy.source_event_count == r.source_event_count
    &&& a.loading_strategy.retained_event_count == r.retained_event_count
    &&& a.loading_strategy.requires_detail_window == (r.retained_event_count == 0 || r.retained_event_count
        == r.source_event_count)
    &&& a.sections@.len() == (if r.mutation_lifecycle_event_count > 0 { 4int } else { 3int })
    &&& section_is(a.sections@[0], "lifecycle"@, "Lifecycle"@, lifecycle_summary(r), r.retained_event_count as nat)
    &&& section_is(a.sections@[1], "source_range"@, "Source sequence range"@, range_summary(r.source_sequence_range), r.source_event_count as nat)
    &&& section_is(
        a.sections@[2],
        "governance"@,
        "Governance identity"@,
        g.capability_hash@ + " / "@ + g.deployment_revision@ + " / "@ + g.strategy_version@ + " / "@ + g.parameter_version@,
        1,
    )
    &&& r.mutation_lifecycle_event_count > 0 ==> section_is(
        a.sections@[3],
        "mutation_lifecycle"@,
        "Mutation lifecycle"@,
        dec(r.mutation_lifecycle_event_count as nat) + " retained parameter mutation lifecycle events are linked to this report."@,
        r.mutation_lifecycle_event_count as nat,
    )
}

fn section(id: &str, title: &str, summary: String, count: usize) -> (r: RuntimeEvidenceReportSection)
    ensures
        section_is(r, id@, title@, summary@, count as nat),
{
    RuntimeEvidenceReportSection { section_id: owned(id), title: owned(title), summary, evidence_count: count }
}

/// The exported form of a report, given the digest of its evidence metadata.
pub fn runtime_report_artifact_from_record(record: &RuntimeEvidenceReportRecord, evidence_digest: &str) -> (r: RuntimeEvidenceReportArtifact)
    ensures
        is_report_artifact(r, *record, evidence_digest@),
{
    let range = match &record.source_sequence_range {
        Some(rg) => {
            let mut t = cat3("sequence ", u64_text(rg.from).as_str(), "-");
            t.append(u64_text(rg.to).as_str());
            t
        },
        None => owned("no retained source sequence range"),
    };
    let lifecycle = match record.status {
        RuntimeReportLifecycleStatus::Ready => {
            let mut t = cat3("Ready report for ", source_kind_value(record.source_kind), " ");
            t.append(record.source_id.as_str());
            t.append(" with ");
            t.append(u64_text(record.retained_event_count as u64).as_str());
            t.append(" retained evidence items from ");
            t.append(u64_text(record.source_event_count as u64).as_str());
            t.append(" source events.");
            t
        },
        RuntimeReportLifecycleStatus::Failed => match &record.failure_reason {
            Some(m) => m.clone(),
            None => owned("Report generation failed."),
        },
        RuntimeReportLifecycleStatus::Requested => owned("Report generation was requested."),
        RuntimeReportLifecycleStatus::Generating => owned("Report generation is running."),
        RuntimeReportLifecycleStatus::Expired => owned("Report artifact expired."),
        RuntimeReportLifecycleStatus::SourceChanged => owned("Report source evidence changed after generation."),
    };
    let g = &record.governance;
    let mut governance_summary = cat3(g.capability_hash.as_str(), " / ", g.deployment_revision.as_str());
    governance_summary.append(" / ");
    governance_summary.append(g.strategy_version.as_str());
    governance_summary.append(" / ");
    governance_summary.append(g.parameter_version.as_str());
    let mut sections: Vec<RuntimeEvidenceReportSection> = Vec::new();
    sections.push(section("lifecycle", "Lifecycle", lifecycle, record.retained_event_count));
    sections.push(section("source_range", "Source sequence range", range, record.source_event_count));
    sections.push(section("governance", "Governance identity", governance_summary, 1));
    if record.mutation_lifecycle_event_count > 0 {
        sections.push(
            section(
                "mutation_lifecycle",
                "Mutation lifecycle",
                cat(
                    u64_text(record.mutation_lifecycle_event_count as u64).as_str(),
                    " retained parameter mutation lifecycle events are linked to this report.",
                ),
                record.mutation_lifecycle_event_count,
            ),
        );
    }
    RuntimeEvidenceReportArtifact {
        schema_version: owned("quantpilot/evidence-report-artifact/v1"),
        report_id: record.report_id.clone(),
        source_kind: record.source_kind,
        source_id: record.source_id.clone(),
        graph_id: record.graph_id.clone(),
        status: record.status,
        source_sequence_range: record.source_sequence_range,
        source_event_count: record.source_event_count,
        retained_event_count: record.retained_event_count,
        mutation_lifecycle_event_count: record.mutation_lifecycle_event_count,
        governance: crate::timeline::clone_governance_identity(&record.governance),
        generation_policy: record.generation_policy.clone(),
        evidence_digest: cat("sha256:", evidence_digest),
        loading_strategy: RuntimeReportLoadingStrategy {
            primary_source: owned("compact_evidence"),
            source_event_count: record.source_event_count,
            retained_event_count: record.retained_event_count,
            requires_detail_window: record.retained_event_count == 0 || record.retained_event_count
                == record.source_event_count,
        },
        sections,
    }
}

/// The document whose canonical digest identifies a report's evidence, keyed in order.
pub open spec fn evidence_document_of(r: RuntimeEvidenceReportRecord) -> Json {
    Json::Object(seq![
        ("generation_policy"@, Json::Str(r.generation_policy@)),
        ("governance"@, Json::Object(seq![
            ("capability_hash"@, Json::Str(r.governance.capability_hash@)),
            ("deployment_revision"@, Json::Str(r.governance.deployment_revision@)),
            ("parameter_version"@, Json::Str(r.governance.parameter_version@)),
            ("strategy_version"@, Json::Str(r.governance.strategy_version@)),
        ])),
        ("graph_id"@, Json::Str(r.graph_id@)),
        ("report_id"@, Json::Str(r.report_id@)),
        ("retained_event_count"@, Json::Number(dec(r.retained_event_count as nat))),
        ("source_event_count"@, Json::Number(dec(r.source_event_count as nat))),
        ("source_id"@, Json::Str(r.source_id@)),
        ("source_kind"@, Json::Str(crate::mutation::source_kind_text(r.source_kind))),
        ("source_sequence_range"@, match r.source_sequence_range {
            Some(range) => Json::Object(seq![
                ("from"@, Json::Number(dec(range.from as nat))),
                ("to"@, Json::Number(dec(range.to as nat))),
            ]),
            None => Json::Null,
        }),
    ])
}

/// The document whose canonical digest identifies a report's evidence.
pub fn runtime_report_evidence_document(record: &RuntimeEvidenceReportRecord) -> (r: JsonValue)
    ensures
        r@ == evidence_document_of(*record),
{
    let g = &record.governance;
    let mut ge: Vec<(String, JsonValue)> = Vec::new();
    crate::events::push_entry(&mut ge, "capability_hash", crate::json::json_str(g.capability_hash.as_str()));
    crate::events::push_entry(&mut ge, "deployment_revision", crate::json::json_str(g.deployment_revision.as_str()));
    crate::events::push_entry(&mut ge, "parameter_version", crate::json::json_str(g.parameter_version.as_str()));
    crate::events::push_entry(&mut ge, "strategy_version", crate::json::json_str(g.strategy_version.as_str()));
    assert(crate::json::entries_model(ge@) =~= seq![
        ("capability_hash"@, Json::Str(g.capability_hash@)),
        ("deployment_revision"@, Json::Str(g.deployment_revision@)),
        ("parameter_version"@, Json::Str(g.parameter_version@)),
        ("strategy_version"@, Json::Str(g.strategy_version@)),
    ]);
    let range = match record.source_sequence_range {
        Some(rg) => {
            let mut re: Vec<(String, JsonValue)> = Vec::new();
            crate::events::push_entry(&mut re, "from", crate::json::json_u64(rg.from));
            crate::events::push_entry(&mut re, "to", crate::json::json_u64(rg.to));
            assert(crate::json::entries_model(re@) =~= seq![
                ("from"@, Json::Number(dec(rg.from as nat))),
                ("to"@, Json::Number(dec(rg.to as nat))),
            ]);
            JsonValue::Object(re)
        },
        None => JsonValue::Null,
    };
    let mut e: Vec<(String, JsonValue)> = Vec::new();
    crate::events::push_entry(&mut e, "generation_policy", crate::json::json_str(record.generation_policy.as_str()));
    crate::events::push_entry(&mut e, "governance", JsonValue::Object(ge));
    crate::events::push_entry(&mut e, "graph_id", crate::json::json_str(record.graph_id.as_str()));
    crate::events::push_entry(&mut e, "report_id", crate::json::json_str(record.report_id.as_str()));
    crate::events::push_entry(&mut e, "retained_event_count", crate::json::json_u64(record.retained_event_count as u64));
    crate::events::push_entry(&mut e, "source_event_count", crate::json::json_u64(record.source_event_count as u64));
    crate::events::push_entry(&mut e, "source_id", crate::json::json_str(record.source_id.as_str()));
    crate::events::push_entry(&mut e, "source_kind", crate::json::json_str(crate::mutation::source_kind_value(record.source_kind)));
    crate::events::push_entry(&mut e, "source_sequence_range", range);
    assert(crate::json::entries_model(e@) =~= match evidence_document_of(*record) {
        Json::Object(x) => x,
        _ => seq![],
    });
    JsonValue::Object(e)
}

} // verus!
