//! Normalisation of stored runtime records when they are loaded: the governance source is
//! named, and event envelopes that no longer validate are attached again.
use vstd::prelude::*;
use crate::events::{
    envelopes_attached, envelopes_valid, repair_runtime_event_envelopes,
    validate_runtime_event_envelopes, FrontendRuntimeEvent, RuntimeGovernanceSnapshot,
};
use crate::json::json_get_str;
use crate::text::{is_blank, is_blank_str, owned, str_eq, trim, trim_str};

verus! {

/// Where a governance identity was materialised from.
#[derive(Clone, Copy, PartialEq, Eq, Debug, Structural)]
pub enum RuntimeGovernanceMaterialization {
    CurrentRuntime,
    LoadedManifest,
}

/// A governance identity written before deployments were identified: its capability hash
/// or deployment revision is blank or `unknown`.
pub open spec fn legacy_default_governance(g: RuntimeGovernanceSnapshot) -> bool {
    let c = trim(g.capability_hash@);
    let d = trim(g.deployment_revision@);
    c.len() == 0 || c == "unknown"@ || d.len() == 0 || d == "unknown"@
}

/// Whether a governance identity predates deployment identities.
pub fn is_legacy_default_governance(governance: &RuntimeGovernanceSnapshot) -> (r: bool)
    ensures
        r == legacy_default_governance(*governance),
{
    let c = trim_str(governance.capability_hash.as_str());
    let d = trim_str(governance.deployment_revision.as_str());
    c.unicode_len() == 0 || str_eq(c, "unknown") || d.unicode_len() == 0 || str_eq(d, "unknown")
}

/// The governance source a record is given: `legacy_default` for an identity that
/// predates deployment identities, else where it was materialised from.
pub open spec fn governance_source_for(g: RuntimeGovernanceSnapshot, m: RuntimeGovernanceMaterialization) -> Seq<char> {
    if legacy_default_governance(g) {
        "legacy_default"@
    } else {
        match m {
            RuntimeGovernanceMaterialization::CurrentRuntime => "current_runtime"@,
            RuntimeGovernanceMaterialization::LoadedManifest => "loaded_manifest"@,
        }
    }
}

/// The governance identity with its source named; every other field is kept.
pub fn normalize_governance_source(
    governance: RuntimeGovernanceSnapshot,
    materialization: RuntimeGovernanceMaterialization,
) -> (r: RuntimeGovernanceSnapshot)
    ensures
        r.governance_source@ == governance_source_for(governance, materialization),
        r.capability_hash == governance.capability_hash,
        r.strategy_version == governance.strategy_version,
        r.parameter_version == governance.parameter_version,
        r.deployment_revision == governance.deployment_revision,
        r.permission_boundary == governance.permission_boundary,
{
    let source = if is_legacy_default_governance(&governance) {
        owned("legacy_default")
    } else {
        match materialization {
            RuntimeGovernanceMaterialization::CurrentRuntime => owned("current_runtime"),
            RuntimeGovernanceMaterialization::LoadedManifest => owned("loaded_manifest"),
        }
    };
    let mut g = governance;
    g.governance_source = source;
    g
}

/// The mode an event shows: its envelope's mode, trimmed, unless that is blank or
/// `unknown`; else its payload's `runtime_mode` when that is a string that is not blank.
pub open spec fn event_mode(e: FrontendRuntimeEvent) -> Option<Seq<char>> {
    let m = trim(e.envelope.mode@);
    if m.len() > 0 && m != "unknown"@ {
        Some(m)
    } else {
        match json_get_str(e.payload@, "runtime_mode"@) {
            Some(s) => if is_blank(s) {
                None
            } else {
                Some(s)
            },
            None => None,
        }
    }
}

/// The mode of a record's events: that of the first event that shows one, else `unknown`.
pub open spec fn inferred_mode(events: Seq<FrontendRuntimeEvent>) -> Seq<char>
    decreases events.len(),
{
    if events.len() == 0 {
        "unknown"@
    } else {
        match event_mode(events[0]) {
            Some(m) => m,
            None => inferred_mode(events.drop_first()),
        }
    }
}

fn event_mode_exec(e: &FrontendRuntimeEvent) -> (r: Option<String>)
    ensures
        match r {
            Some(m) => event_mode(*e) == Some(m@),
            None => event_mode(*e).is_none(),
        },
{
    let m = trim_str(e.envelope.mode.as_str());
    if m.unicode_len() > 0 && !str_eq(m, "unknown") {
        return Some(owned(m));
    }
    match crate::json::json_get_str_exec(&e.payload, "runtime_mode") {
        Some(s) => if is_blank_str(s.as_str()) {
            None
        } else {
            Some(s)
        },
        None => None,
    }
}

/// The mode a record's events were produced in.
pub fn infer_runtime_event_mode(events: &Vec<FrontendRuntimeEvent>) -> (r: String)
    ensures
        r@ == inferred_mode(events@),
{
    let mut i: usize = 0;
    assert(events@.subrange(0, events@.len() as int) =~= events@);
    while i < events.len()
        invariant
            i <= events@.len(),
            inferred_mode(events@) == inferred_mode(events@.subrange(i as int, events@.len() as int)),
        decreases events@.len() - i,
    {
        let ghost rest = events@.subrange(i as int, events@.len() as int);
        assert(rest[0] == events@[i as int]);
        match event_mode_exec(&events[i]) {
            Some(m) => {
                return m;
            },
            None => {},
        }
        assert(rest.drop_first() =~= events@.subrange(i + 1, events@.len() as int));
        i += 1;
    }
    owned("unknown")
}

/// Re-attaches envelopes in the given mode when the events' envelopes fail validation.
pub fn repair_invalid_envelopes(
    events: &mut Vec<FrontendRuntimeEvent>,
    record_id: &str,
    mode: &str,
    governance: &RuntimeGovernanceSnapshot,
)
    requires
        old(events)@.len() < u64::MAX,
    ensures
        envelopes_valid(old(events)@, record_id@, *governance) ==> final(events)@ == old(events)@,
        !envelopes_valid(old(events)@, record_id@, *governance) ==> envelopes_attached(
            final(events)@,
            old(events)@,
            record_id@,
            mode@,
            *governance,
        ),
{
    match validate_runtime_event_envelopes(events, record_id, governance) {
        Ok(()) => {},
        Err(_) => {
            repair_runtime_event_envelopes(events, record_id, mode, governance);
        },
    }
}

/// Brings a loaded record's events up to date: when their envelopes fail validation for
/// the record, envelopes are attached again in the mode the events show.
pub fn normalize_record_events(
    events: &mut Vec<FrontendRuntimeEvent>,
    record_id: &str,
    governance: &RuntimeGovernanceSnapshot,
)
    requires
        old(events)@.len() < u64::MAX,
    ensures
        envelopes_valid(old(events)@, record_id@, *governance) ==> final(events)@ == old(events)@,
        !envelopes_valid(old(events)@, record_id@, *governance) ==> envelopes_attached(
            final(events)@,
            old(events)@,
            record_id@,
            inferred_mode(old(events)@),
            *governance,
        ),
{
    let mode = infer_runtime_event_mode(events);
    repair_invalid_envelopes(events, record_id, mode.as_str(), governance);
}

/// Normalises a loaded run record's governance and events: the governance source is named
/// and the events' envelopes are repaired where they fail validation under it. Returns
/// the normalised governance.
pub fn normalize_run_record(
    governance: RuntimeGovernanceSnapshot,
    events: &mut Vec<FrontendRuntimeEvent>,
    run_id: &str,
    materialization: RuntimeGovernanceMaterialization,
) -> (r: RuntimeGovernanceSnapshot)
    requires
        old(events)@.len() < u64::MAX,
    ensures
        r.governance_source@ == governance_source_for(governance, materialization),
        r.capability_hash == governance.capability_hash,
        r.strategy_version == governance.strategy_version,
        r.parameter_version == governance.parameter_version,
        r.deployment_revision == governance.deployment_revision,
        r.permission_boundary == governance.permission_boundary,
        envelopes_valid(old(events)@, run_id@, r) ==> final(events)@ == old(events)@,
        !envelopes_valid(old(events)@, run_id@, r) ==> envelopes_attached(
            final(events)@,
            old(events)@,
            run_id@,
            inferred_mode(old(events)@),
            r,
        ),
{
    let g = normalize_governance_source(governance, materialization);
    normalize_record_events(events, run_id, &g);
    g
}

/// The sweep axes of an experiment's parameter grid: each axis with more than one value.
pub open spec fn sweep_axes(fee_bps_count: nat, slippage_bps_count: nat, latency_ms_count: nat) -> Seq<Seq<char>> {
    (if fee_bps_count > 1 { seq!["fee_bps"@] } else { seq![] }) + (if slippage_bps_count > 1 {
        seq!["slippage_bps"@]
    } else {
        seq![]
    }) + (if latency_ms_count > 1 { seq!["latency_ms"@] } else { seq![] })
}

/// The axes an experiment sweeps, from the number of values on each axis of its grid.
pub fn experiment_sweep_axes(fee_bps_count: usize, slippage_bps_count: usize, latency_ms_count: usize) -> (r: Vec<String>)
    ensures
        r@.len() == sweep_axes(fee_bps_count as nat, slippage_bps_count as nat, latency_ms_count as nat).len(),
        forall|i: int| 0 <= i < r@.len() ==> #[trigger] r@[i]@ == sweep_axes(
            fee_bps_count as nat,
            slippage_bps_count as nat,
            latency_ms_count as nat,
        )[i],
{
    let mut axes: Vec<String> = Vec::new();
    let ghost a = if fee_bps_count > 1 { seq!["fee_bps"@] } else { Seq::<Seq<char>>::empty() };
    if fee_bps_count > 1 {
        axes.push(owned("fee_bps"));
    }
    assert(axes@.len() == a.len() && forall|i: int| 0 <= i < axes@.len() ==> #[trigger] axes@[i]@ == a[i]);
    let ghost b = a + if slippage_bps_count > 1 { seq!["slippage_bps"@] } else { Seq::<Seq<char>>::empty() };
    if slippage_bps_count > 1 {
        axes.push(owned("slippage_bps"));
    }
    assert(axes@.len() == b.len() && forall|i: int| 0 <= i < axes@.len() ==> #[trigger] axes@[i]@ == b[i]);
    if latency_ms_count > 1 {
        axes.push(owned("latency_ms"));
    }
    axes
}

/// Two governance identities agree in every field.
pub open spec fn same_governance(a: RuntimeGovernanceSnapshot, b: RuntimeGovernanceSnapshot) -> bool {
    &&& a.capability_hash@ == b.capability_hash@
    &&& a.strategy_version@ == b.strategy_version@
    &&& a.parameter_version@ == b.parameter_version@
    &&& a.deployment_revision@ == b.deployment_revision@
    &&& a.governance_source@ == b.governance_source@
    &&& a.permission_boundary.model_version@ == b.permission_boundary.model_version@
    &&& a.permission_boundary.ai_write_policy@ == b.permission_boundary.ai_write_policy@
}

fn same_governance_exec(a: &RuntimeGovernanceSnapshot, b: &RuntimeGovernanceSnapshot) -> (r: bool)
    ensures
        r == same_governance(*a, *b),
{
    str_eq(a.capability_hash.as_str(), b.capability_hash.as_str()) && str_eq(a.strategy_version.as_str(), b.strategy_version.as_str())
        && str_eq(a.parameter_version.as_str(), b.parameter_version.as_str()) && str_eq(
        a.deployment_revision.as_str(),
        b.deployment_revision.as_str(),
    ) && str_eq(a.governance_source.as_str(), b.governance_source.as_str()) && str_eq(
        a.permission_boundary.model_version.as_str(),
        b.permission_boundary.model_version.as_str(),
    ) && str_eq(a.permission_boundary.ai_write_policy.as_str(), b.permission_boundary.ai_write_policy.as_str())
}

/// A backtest's artifact views need rebuilding under its governance when one of their
/// events has no envelope id or their manifest records another governance identity.
pub open spec fn artifacts_stale(
    artifact_events: Seq<FrontendRuntimeEvent>,
    manifest: RuntimeGovernanceSnapshot,
    governance: RuntimeGovernanceSnapshot,
) -> bool {
    (exists|i: int| 0 <= i < artifact_events.len() && is_blank(#[trigger] artifact_events[i].envelope.event_id@))
        || !same_governance(manifest, governance)
}

/// Whether a backtest's artifact views need rebuilding under its governance.
pub fn backtest_artifacts_need_governance_rebuild(
    artifact_events: &Vec<FrontendRuntimeEvent>,
    manifest_governance: &RuntimeGovernanceSnapshot,
    governance: &RuntimeGovernanceSnapshot,
) -> (r: bool)
    ensures
        r == artifacts_stale(artifact_events@, *manifest_governance, *governance),
{
    let mut i: usize = 0;
    while i < artifact_events.len()
        invariant
            i <= artifact_events@.len(),
            forall|k: int| 0 <= k < i ==> !is_blank(#[trigger] artifact_events@[k].envelope.event_id@),
        decreases artifact_events@.len() - i,
    {
        if is_blank_str(artifact_events[i].envelope.event_id.as_str()) {
            return true;
        }
        i += 1;
    }
    !same_governance_exec(manifest_governance, governance)
}

/// Whether loading a backtest rebuilds its artifact views: only when it has views, they
/// hold no steps yet, and they are stale.
pub fn backtest_artifacts_should_rebuild(step_count: Option<u64>, stale: bool) -> (r: bool)
    ensures
        r == match step_count {
            Some(n) => n == 0 && stale,
            None => false,
        },
{
    match step_count {
        Some(n) => n == 0 && stale,
        None => false,
    }
}

/// What the normalisation of a stored backtest touches in its artifact views: the events
/// of their event log and the governance their manifest records.
#[derive(Debug)]
pub struct BacktestArtifactEvidence {
    pub event_log_events: Vec<FrontendRuntimeEvent>,
    pub manifest_governance: RuntimeGovernanceSnapshot,
}

/// Artifact views whose event log leaves room for one more index in a `u64`.
pub open spec fn artifact_events_fit(artifacts: Option<BacktestArtifactEvidence>) -> bool {
    match artifacts {
        Some(a) => a.event_log_events@.len() < u64::MAX,
        None => true,
    }
}

/// Normalises a loaded backtest record's governance and events, and those of its artifact
/// views: the governance source is named, envelopes that fail validation under it are
/// attached again in the mode the record's events show, and the artifact manifest
/// records the normalised governance.
pub fn normalize_backtest_record(
    governance: RuntimeGovernanceSnapshot,
    events: &mut Vec<FrontendRuntimeEvent>,
    artifacts: &mut Option<BacktestArtifactEvidence>,
    backtest_id: &str,
    materialization: RuntimeGovernanceMaterialization,
) -> (r: RuntimeGovernanceSnapshot)
    requires
        old(events)@.len() < u64::MAX,
        artifact_events_fit(*old(artifacts)),
    ensures
        r.governance_source@ == governance_source_for(governance, materialization),
        r.capability_hash == governance.capability_hash,
        r.strategy_version == governance.strategy_version,
        r.parameter_version == governance.parameter_version,
        r.deployment_revision == governance.deployment_revision,
        r.permission_boundary == governance.permission_boundary,
        envelopes_valid(old(events)@, backtest_id@, r) ==> final(events)@ == old(events)@,
        !envelopes_valid(old(events)@, backtest_id@, r) ==> envelopes_attached(
            final(events)@,
            old(events)@,
            backtest_id@,
            inferred_mode(old(events)@),
            r,
        ),
        match (*old(artifacts), *final(artifacts)) {
            (None, None) => true,
            (Some(a0), Some(a1)) => {
                &&& a1.manifest_governance == r
                &&& envelopes_valid(a0.event_log_events@, backtest_id@, r) ==> a1.event_log_events@
                    == a0.event_log_events@
                &&& !envelopes_valid(a0.event_log_events@, backtest_id@, r) ==> envelopes_attached(
                    a1.event_log_events@,
                    a0.event_log_events@,
                    backtest_id@,
                    inferred_mode(old(events)@),
                    r,
                )
            },
            _ => false,
        },
{
    let g = normalize_governance_source(governance, materialization);
    let mode = infer_runtime_event_mode(events);
    repair_invalid_envelopes(events, backtest_id, mode.as_str(), &g);
    match artifacts {
        Some(a) => {
            repair_invalid_envelopes(&mut a.event_log_events, backtest_id, mode.as_str(), &g);
            a.manifest_governance = crate::mutation::clone_governance_snapshot(&g);
        },
        None => {},
    }
    g
}

} // verus!
