//! AI proposal records: the candidate a model submits, the events that record it, the
//! approval it waits for, and the approval's own state machine.
use vstd::prelude::*;
use crate::error::{bad_request, is_bad_request, ApiError};
use crate::events::{
    actor_json, actor_model, envelope_unset, push_entry, ActorIdentity, FrontendRuntimeEvent,
    RuntimeEventEnvelope, RuntimeGovernanceSnapshot,
};
use crate::json::{entries_model, items_model, json_str, json_u64, Json, JsonValue};
use crate::mutation::{
    governance_with_parameter_version, governance_with_version, source_kind_text, source_kind_value,
    target_json, target_model, RuntimeEvidenceSourceKind, RuntimeParameterMutationTarget,
};
use crate::proposal::{
    ai_proposal_event_contract, detail_view, details_view, proposal_event_type, proposal_reason_code,
    CreateRuntimeAiProposalRequest, RuntimeAiModelIdentity, RuntimeAiProposalConfigDomainBinding,
    RuntimeAiProposalStaticCheckDetail, RuntimeAiProposalStaticCheckResult, RuntimeAiProposalStatus,
    StrategyConfigProposalDomain,
};
use crate::text::{cat, cat3, dec, owned, u64_text};

verus! {

broadcast use vstd::std_specs::vec::group_vec_axioms;

/// The governance identity an AI proposal carries.
#[derive(Clone, Debug)]
pub struct RuntimeAiProposalGovernance {
    pub capability_hash: String,
    pub deployment_revision: String,
    pub strategy_version: String,
    pub previous_parameter_version: String,
    pub proposed_parameter_version: String,
    pub permission_boundary_model_version: String,
    pub ai_write_policy: String,
}

/// The evidence an AI proposal was drawn from.
#[derive(Clone, Debug)]
pub struct RuntimeAiProposalSourceEvidence {
    pub source_kind: RuntimeEvidenceSourceKind,
    pub source_id: String,
    pub graph_id: String,
    pub event_count: usize,
    pub evidence_hash: String,
}

/// One step of an AI proposal's lifecycle, tied to the event that records it.
#[derive(Clone, Debug)]
pub struct RuntimeAiProposalLifecycleEntry {
    pub status: RuntimeAiProposalStatus,
    pub event_id: String,
    pub sequence_no: u64,
    pub occurred_at_ms: u64,
    pub reason_code: String,
    pub message: String,
}

/// An AI proposal and its history.
#[derive(Clone, Debug)]
pub struct RuntimeAiProposalRecord {
    pub ai_proposal_id: String,
    pub source_kind: RuntimeEvidenceSourceKind,
    pub source_id: String,
    pub graph_id: String,
    pub source_evidence: RuntimeAiProposalSourceEvidence,
    pub target: RuntimeParameterMutationTarget,
    pub old_value: JsonValue,
    pub new_value: JsonValue,
    pub old_parameter_version: String,
    pub proposed_parameter_version: String,
    pub status: RuntimeAiProposalStatus,
    pub denial_reason: Option<String>,
    pub static_check: RuntimeAiProposalStaticCheckResult,
    pub model: RuntimeAiModelIdentity,
    pub prompt_hash: String,
    pub evidence_hash: String,
    pub actor: ActorIdentity,
    pub reason: String,
    pub governance: RuntimeAiProposalGovernance,
    pub config_domain_binding: Option<RuntimeAiProposalConfigDomainBinding>,
    pub lifecycle: Vec<RuntimeAiProposalLifecycleEntry>,
    pub created_at_ms: u64,
    pub updated_at_ms: u64,
}

/// The governance identity for a proposal on a source: the source's deployment and
/// permission boundary, with the parameter versions before and after.
pub open spec fn is_ai_proposal_governance(
    r: RuntimeAiProposalGovernance,
    g: RuntimeGovernanceSnapshot,
    previous: Seq<char>,
    proposed: Seq<char>,
) -> bool {
    &&& r.capability_hash == g.capability_hash
    &&& r.deployment_revision == g.deployment_revision
    &&& r.strategy_version == g.strategy_version
    &&& r.previous_parameter_version@ == previous
    &&& r.proposed_parameter_version@ == proposed
    &&& r.permission_boundary_model_version == g.permission_boundary.model_version
    &&& r.ai_write_policy == g.permission_boundary.ai_write_policy
}

pub fn runtime_ai_proposal_governance(
    source_governance: &RuntimeGovernanceSnapshot,
    old_parameter_version: String,
    proposed_parameter_version: String,
) -> (r: RuntimeAiProposalGovernance)
    ensures
        is_ai_proposal_governance(r, *source_governance, old_parameter_version@, proposed_parameter_version@),
{
    RuntimeAiProposalGovernance {
        capability_hash: source_governance.capability_hash.clone(),
        deployment_revision: source_governance.deployment_revision.clone(),
        strategy_version: source_governance.strategy_version.clone(),
        previous_parameter_version: old_parameter_version,
        proposed_parameter_version,
        permission_boundary_model_version: source_governance.permission_boundary.model_version.clone(),
        ai_write_policy: source_governance.permission_boundary.ai_write_policy.clone(),
    }
}

pub open spec fn ai_status_text(s: RuntimeAiProposalStatus) -> Seq<char> {
    match s {
        RuntimeAiProposalStatus::Draft => "draft"@,
        RuntimeAiProposalStatus::Submitted => "submitted"@,
        RuntimeAiProposalStatus::StaticCheckPassed => "static_check_passed"@,
        RuntimeAiProposalStatus::StaticCheckFailed => "static_check_failed"@,
        RuntimeAiProposalStatus::Approved => "approved"@,
        RuntimeAiProposalStatus::Denied => "denied"@,
        RuntimeAiProposalStatus::Expired => "expired"@,
    }
}

/// The contract text of an AI proposal status.
pub fn ai_status_value(s: RuntimeAiProposalStatus) -> (r: &'static str)
    ensures
        r@ == ai_status_text(s),
{
    match s {
        RuntimeAiProposalStatus::Draft => "draft",
        RuntimeAiProposalStatus::Submitted => "submitted",
        RuntimeAiProposalStatus::StaticCheckPassed => "static_check_passed",
        RuntimeAiProposalStatus::StaticCheckFailed => "static_check_failed",
        RuntimeAiProposalStatus::Approved => "approved",
        RuntimeAiProposalStatus::Denied => "denied",
        RuntimeAiProposalStatus::Expired => "expired",
    }
}

pub open spec fn domain_text(d: StrategyConfigProposalDomain) -> Seq<char> {
    match d {
        StrategyConfigProposalDomain::Market => "market"@,
        StrategyConfigProposalDomain::Risk => "risk"@,
        StrategyConfigProposalDomain::Execution => "execution"@,
        StrategyConfigProposalDomain::StateMachine => "state_machine"@,
        StrategyConfigProposalDomain::Observation => "observation"@,
        StrategyConfigProposalDomain::AiGovernance => "ai_governance"@,
    }
}

fn domain_value(d: StrategyConfigProposalDomain) -> (r: &'static str)
    ensures
        r@ == domain_text(d),
{
    match d {
        StrategyConfigProposalDomain::Market => "market",
        StrategyConfigProposalDomain::Risk => "risk",
        StrategyConfigProposalDomain::Execution => "execution",
        StrategyConfigProposalDomain::StateMachine => "state_machine",
        StrategyConfigProposalDomain::Observation => "observation",
        StrategyConfigProposalDomain::AiGovernance => "ai_governance",
    }
}

pub open spec fn text_items(s: Seq<String>) -> Seq<Json> {
    s.map_values(|x: String| Json::Str(x@))
}

fn text_array(items: &Vec<String>) -> (r: JsonValue)
    ensures
        r@ == Json::Array(text_items(items@)),
{
    let mut out: Vec<JsonValue> = Vec::new();
    let mut i: usize = 0;
    while i < items.len()
        invariant
            i <= items@.len(),
            items_model(out@) == text_items(items@.subrange(0, i as int)),
        decreases items@.len() - i,
    {
        let ghost pre = out@;
        out.push(json_str(items[i].as_str()));
        assert(out@.drop_last() =~= pre);
        assert(text_items(items@.subrange(0, i + 1)) =~= text_items(items@.subrange(0, i as int)).push(Json::Str(items@[i as int]@)));
        i += 1;
    }
    assert(items@.subrange(0, items@.len() as int) =~= items@);
    JsonValue::Array(out)
}

pub open spec fn detail_model(d: (Seq<char>, Seq<char>, Seq<char>)) -> Json {
    Json::Object(seq![("code"@, Json::Str(d.0)), ("message"@, Json::Str(d.2)), ("target"@, Json::Str(d.1))])
}

pub open spec fn static_check_model(c: RuntimeAiProposalStaticCheckResult) -> Json {
    Json::Object(seq![
        ("checked_at_ms"@, Json::Number(dec(c.checked_at_ms as nat))),
        ("details"@, Json::Array(details_view(c.details@).map_values(|d: (Seq<char>, Seq<char>, Seq<char>)| detail_model(d)))),
        ("message"@, Json::Str(c.message@)),
        ("reason_code"@, Json::Str(c.reason_code@)),
        ("status"@, Json::Str(ai_status_text(c.status))),
    ])
}

fn detail_json(d: &RuntimeAiProposalStaticCheckDetail) -> (r: JsonValue)
    ensures
        r@ == detail_model(detail_view(*d)),
{
    let mut e: Vec<(String, JsonValue)> = Vec::new();
    push_entry(&mut e, "code", json_str(d.code.as_str()));
    push_entry(&mut e, "message", json_str(d.message.as_str()));
    push_entry(&mut e, "target", json_str(d.target.as_str()));
    assert(entries_model(e@) =~= seq![("code"@, Json::Str(d.code@)), ("message"@, Json::Str(d.message@)), ("target"@, Json::Str(d.target@))]);
    JsonValue::Object(e)
}

/// The JSON form of a static-check result.
pub fn static_check_json(c: &RuntimeAiProposalStaticCheckResult) -> (r: JsonValue)
    ensures
        r@ == static_check_model(*c),
{
    let ghost target = details_view(c.details@).map_values(|d: (Seq<char>, Seq<char>, Seq<char>)| detail_model(d));
    let mut out: Vec<JsonValue> = Vec::new();
    let mut i: usize = 0;
    while i < c.details.len()
        invariant
            i <= c.details@.len(),
            target == details_view(c.details@).map_values(|d: (Seq<char>, Seq<char>, Seq<char>)| detail_model(d)),
            items_model(out@) == target.subrange(0, i as int),
        decreases c.details@.len() - i,
    {
        let ghost pre = out@;
        out.push(detail_json(&c.details[i]));
        assert(out@.drop_last() =~= pre);
        assert(target.subrange(0, i + 1) =~= target.subrange(0, i as int).push(detail_model(detail_view(c.details@[i as int]))));
        i += 1;
    }
    assert(target.subrange(0, c.details@.len() as int) =~= target);
    let mut e: Vec<(String, JsonValue)> = Vec::new();
    push_entry(&mut e, "checked_at_ms", json_u64(c.checked_at_ms));
    push_entry(&mut e, "details", JsonValue::Array(out));
    push_entry(&mut e, "message", json_str(c.message.as_str()));
    push_entry(&mut e, "reason_code", json_str(c.reason_code.as_str()));
    push_entry(&mut e, "status", json_str(ai_status_value(c.status)));
    assert(entries_model(e@) =~= seq![
        ("checked_at_ms"@, Json::Number(dec(c.checked_at_ms as nat))),
        ("details"@, Json::Array(target)),
        ("message"@, Json::Str(c.message@)),
        ("reason_code"@, Json::Str(c.reason_code@)),
        ("status"@, Json::Str(ai_status_text(c.status))),
    ]);
    JsonValue::Object(e)
}

pub open spec fn binding_model(b: Option<RuntimeAiProposalConfigDomainBinding>) -> Json {
    match b {
        None => Json::Null,
        Some(b) => Json::Object(seq![
            ("after_digest"@, Json::Str(b.after_digest@)),
            ("before_digest"@, Json::Str(b.before_digest@)),
            ("evidence_anchor_ids"@, Json::Array(text_items(b.evidence_anchor_ids@))),
            ("target_domain"@, Json::Str(domain_text(b.target_domain))),
        ]),
    }
}

fn binding_json(b: &Option<RuntimeAiProposalConfigDomainBinding>) -> (r: JsonValue)
    ensures
        r@ == binding_model(*b),
{
    match b {
        None => JsonValue::Null,
        Some(b) => {
            let mut e: Vec<(String, JsonValue)> = Vec::new();
            push_entry(&mut e, "after_digest", json_str(b.after_digest.as_str()));
            push_entry(&mut e, "before_digest", json_str(b.before_digest.as_str()));
            push_entry(&mut e, "evidence_anchor_ids", text_array(&b.evidence_anchor_ids));
            push_entry(&mut e, "target_domain", json_str(domain_value(b.target_domain)));
            assert(entries_model(e@) =~= seq![
                ("after_digest"@, Json::Str(b.after_digest@)),
                ("before_digest"@, Json::Str(b.before_digest@)),
                ("evidence_anchor_ids"@, Json::Array(text_items(b.evidence_anchor_ids@))),
                ("target_domain"@, Json::Str(domain_text(b.target_domain))),
            ]);
            JsonValue::Object(e)
        },
    }
}

pub open spec fn model_identity_model(m: RuntimeAiModelIdentity) -> Json {
    Json::Object(seq![
        ("model"@, Json::Str(m.model@)),
        ("model_version"@, Json::Str(m.model_version@)),
        ("provider"@, Json::Str(m.provider@)),
    ])
}

/// The JSON form of a model identity.
pub fn model_identity_json(m: &RuntimeAiModelIdentity) -> (r: JsonValue)
    ensures
        r@ == model_identity_model(*m),
{
    let mut e: Vec<(String, JsonValue)> = Vec::new();
    push_entry(&mut e, "model", json_str(m.model.as_str()));
    push_entry(&mut e, "model_version", json_str(m.model_version.as_str()));
    push_entry(&mut e, "provider", json_str(m.provider.as_str()));
    assert(entries_model(e@) =~= seq![
        ("model"@, Json::Str(m.model@)),
        ("model_version"@, Json::Str(m.model_version@)),
        ("provider"@, Json::Str(m.provider@)),
    ]);
    JsonValue::Object(e)
}

pub open spec fn ai_governance_model(g: RuntimeAiProposalGovernance) -> Json {
    Json::Object(seq![
        ("ai_write_policy"@, Json::Str(g.ai_write_policy@)),
        ("capability_hash"@, Json::Str(g.capability_hash@)),
        ("deployment_revision"@, Json::Str(g.deployment_revision@)),
        ("permission_boundary_model_version"@, Json::Str(g.permission_boundary_model_version@)),
        ("previous_parameter_version"@, Json::Str(g.previous_parameter_version@)),
        ("proposed_parameter_version"@, Json::Str(g.proposed_parameter_version@)),
        ("strategy_version"@, Json::Str(g.strategy_version@)),
    ])
}

fn ai_governance_json(g: &RuntimeAiProposalGovernance) -> (r: JsonValue)
    ensures
        r@ == ai_governance_model(*g),
{
    let mut e: Vec<(String, JsonValue)> = Vec::new();
    push_entry(&mut e, "ai_write_policy", json_str(g.ai_write_policy.as_str()));
    push_entry(&mut e, "capability_hash", json_str(g.capability_hash.as_str()));
    push_entry(&mut e, "deployment_revision", json_str(g.deployment_revision.as_str()));
    push_entry(&mut e, "permission_boundary_model_version", json_str(g.permission_boundary_model_version.as_str()));
    push_entry(&mut e, "previous_parameter_version", json_str(g.previous_parameter_version.as_str()));
    push_entry(&mut e, "proposed_parameter_version", json_str(g.proposed_parameter_version.as_str()));
    push_entry(&mut e, "strategy_version", json_str(g.strategy_version.as_str()));
    assert(entries_model(e@) =~= seq![
        ("ai_write_policy"@, Json::Str(g.ai_write_policy@)),
        ("capability_hash"@, Json::Str(g.capability_hash@)),
        ("deployment_revision"@, Json::Str(g.deployment_revision@)),
        ("permission_boundary_model_version"@, Json::Str(g.permission_boundary_model_version@)),
        ("previous_parameter_version"@, Json::Str(g.previous_parameter_version@)),
        ("proposed_parameter_version"@, Json::Str(g.proposed_parameter_version@)),
        ("strategy_version"@, Json::Str(g.strategy_version@)),
    ]);
    JsonValue::Object(e)
}

pub open spec fn source_evidence_model(s: RuntimeAiProposalSourceEvidence) -> Json {
    Json::Object(seq![
        ("event_count"@, Json::Number(dec(s.event_count as nat))),
        ("evidence_hash"@, Json::Str(s.evidence_hash@)),
        ("graph_id"@, Json::Str(s.graph_id@)),
        ("source_id"@, Json::Str(s.source_id@)),
        ("source_kind"@, Json::Str(source_kind_text(s.source_kind))),
    ])
}

fn source_evidence_json(s: &RuntimeAiProposalSourceEvidence) -> (r: JsonValue)
    ensures
        r@ == source_evidence_model(*s),
{
    let mut e: Vec<(String, JsonValue)> = Vec::new();
    push_entry(&mut e, "event_count", json_u64(s.event_count as u64));
    push_entry(&mut e, "evidence_hash", json_str(s.evidence_hash.as_str()));
    push_entry(&mut e, "graph_id", json_str(s.graph_id.as_str()));
    push_entry(&mut e, "source_id", json_str(s.source_id.as_str()));
    push_entry(&mut e, "source_kind", json_str(source_kind_value(s.source_kind)));
    assert(entries_model(e@) =~= seq![
        ("event_count"@, Json::Number(dec(s.event_count as nat))),
        ("evidence_hash"@, Json::Str(s.evidence_hash@)),
        ("graph_id"@, Json::Str(s.graph_id@)),
        ("source_id"@, Json::Str(s.source_id@)),
        ("source_kind"@, Json::Str(source_kind_text(s.source_kind))),
    ]);
    JsonValue::Object(e)
}

pub open spec fn opt_text_json_model(o: Option<String>) -> Json {
    match o {
        Some(s) => Json::Str(s@),
        None => Json::Null,
    }
}

/// The payload of the event recorded when an AI proposal reaches `status`.
pub open spec fn ai_proposal_payload(r: RuntimeAiProposalRecord, status: RuntimeAiProposalStatus) -> Json {
    Json::Object(seq![
        ("actor"@, actor_model(Some(&r.actor))),
        ("ai_proposal_id"@, Json::Str(r.ai_proposal_id@)),
        ("config_domain_binding"@, binding_model(r.config_domain_binding)),
        ("denial_reason"@, opt_text_json_model(r.denial_reason)),
        ("evidence_hash"@, Json::Str(r.evidence_hash@)),
        ("governance"@, ai_governance_model(r.governance)),
        ("graph_id"@, Json::Str(r.graph_id@)),
        ("model"@, model_identity_model(r.model)),
        ("old_parameter_version"@, Json::Str(r.old_parameter_version@)),
        ("prompt_hash"@, Json::Str(r.prompt_hash@)),
        ("proposed_parameter_version"@, Json::Str(r.proposed_parameter_version@)),
        ("reason"@, Json::Str(r.reason@)),
        ("reason_code"@, Json::Str(proposal_reason_code(status))),
        ("source_evidence"@, source_evidence_model(r.source_evidence)),
        ("source_id"@, Json::Str(r.source_id@)),
        ("source_kind"@, Json::Str(source_kind_text(r.source_kind))),
        ("static_check"@, static_check_model(r.static_check)),
        ("status"@, Json::Str(ai_status_text(status))),
        ("target"@, target_model(r.target)),
    ])
}

/// The words an AI proposal event's summary uses for a status.
pub open spec fn ai_status_phrase(s: RuntimeAiProposalStatus) -> Seq<char> {
    match s {
        RuntimeAiProposalStatus::Submitted => "AI proposal candidate created for "@,
        RuntimeAiProposalStatus::Draft => "AI proposal candidate created for "@,
        RuntimeAiProposalStatus::Denied => "AI proposal candidate denied for "@,
        RuntimeAiProposalStatus::StaticCheckPassed => "AI proposal static check passed for "@,
        RuntimeAiProposalStatus::StaticCheckFailed => "AI proposal static check failed for "@,
        RuntimeAiProposalStatus::Expired => "AI proposal expired for "@,
        RuntimeAiProposalStatus::Approved => "AI proposal approved for "@,
    }
}

fn ai_status_phrase_text(s: RuntimeAiProposalStatus) -> (r: &'static str)
    ensures
        r@ == ai_status_phrase(s),
{
    match s {
        RuntimeAiProposalStatus::Submitted | RuntimeAiProposalStatus::Draft => "AI proposal candidate created for ",
        RuntimeAiProposalStatus::Denied => "AI proposal candidate denied for ",
        RuntimeAiProposalStatus::StaticCheckPassed => "AI proposal static check passed for ",
        RuntimeAiProposalStatus::StaticCheckFailed => "AI proposal static check failed for ",
        RuntimeAiProposalStatus::Expired => "AI proposal expired for ",
        RuntimeAiProposalStatus::Approved => "AI proposal approved for ",
    }
}

/// What the event recorded when an AI proposal reaches `status` at `time` is.
pub open spec fn is_ai_proposal_event(
    e: FrontendRuntimeEvent,
    r: RuntimeAiProposalRecord,
    status: RuntimeAiProposalStatus,
    time: u64,
) -> bool {
    &&& e.event_id@ == "event_"@ + r.ai_proposal_id@ + "_"@ + proposal_reason_code(status) + "_"@ + dec(time as nat)
    &&& e.event_type@ == proposal_event_type(status)
    &&& e.source_id@ == r.target.module_key@
    &&& e.node_id@ == r.target.node_id@
    &&& e.event_time_ms == time
    &&& e.severity@ == (if status == RuntimeAiProposalStatus::Denied || status == RuntimeAiProposalStatus::StaticCheckFailed {
        "Warn"@
    } else {
        "Info"@
    })
    &&& e.summary@ == ai_status_phrase(status) + r.target.node_id@ + "."@ + r.target.parameter_path@
    &&& e.payload@ == ai_proposal_payload(r, status)
    &&& envelope_unset(e.envelope)
}

/// The event that records an AI proposal reaching `status`, with no envelope yet.
pub fn build_runtime_ai_proposal_event(
    record: &RuntimeAiProposalRecord,
    status: RuntimeAiProposalStatus,
    event_time_ms: u64,
) -> (r: FrontendRuntimeEvent)
    ensures
        is_ai_proposal_event(r, *record, status, event_time_ms),
{
    let (event_type, reason_code) = ai_proposal_event_contract(status);
    let mut event_id = cat3("event_", record.ai_proposal_id.as_str(), "_");
    event_id.append(reason_code);
    event_id.append("_");
    event_id.append(u64_text(event_time_ms).as_str());
    let warn = status == RuntimeAiProposalStatus::Denied || status == RuntimeAiProposalStatus::StaticCheckFailed;
    let mut summary = cat3(ai_status_phrase_text(status), record.target.node_id.as_str(), ".");
    summary.append(record.target.parameter_path.as_str());
    let mut e: Vec<(String, JsonValue)> = Vec::new();
    push_entry(&mut e, "actor", actor_json(&record.actor));
    push_entry(&mut e, "ai_proposal_id", json_str(record.ai_proposal_id.as_str()));
    push_entry(&mut e, "config_domain_binding", binding_json(&record.config_domain_binding));
    push_entry(
        &mut e,
        "denial_reason",
        match &record.denial_reason {
            Some(d) => json_str(d.as_str()),
            None => JsonValue::Null,
        },
    );
    push_entry(&mut e, "evidence_hash", json_str(record.evidence_hash.as_str()));
    push_entry(&mut e, "governance", ai_governance_json(&record.governance));
    push_entry(&mut e, "graph_id", json_str(record.graph_id.as_str()));
    push_entry(&mut e, "model", model_identity_json(&record.model));
    push_entry(&mut e, "old_parameter_version", json_str(record.old_parameter_version.as_str()));
    push_entry(&mut e, "prompt_hash", json_str(record.prompt_hash.as_str()));
    push_entry(&mut e, "proposed_parameter_version", json_str(record.proposed_parameter_version.as_str()));
    push_entry(&mut e, "reason", json_str(record.reason.as_str()));
    push_entry(&mut e, "reason_code", json_str(reason_code));
    push_entry(&mut e, "source_evidence", source_evidence_json(&record.source_evidence));
    push_entry(&mut e, "source_id", json_str(record.source_id.as_str()));
    push_entry(&mut e, "source_kind", json_str(source_kind_value(record.source_kind)));
    push_entry(&mut e, "static_check", static_check_json(&record.static_check));
    push_entry(&mut e, "status", json_str(ai_status_value(status)));
    push_entry(&mut e, "target", target_json(&record.target));
    assert(entries_model(e@) =~= match ai_proposal_payload(*record, status) {
        Json::Object(entries) => entries,
        _ => seq![],
    });
    FrontendRuntimeEvent {
        event_id,
        event_type: owned(event_type),
        source_id: owned(record.target.module_key.as_str()),
        node_id: owned(record.target.node_id.as_str()),
        event_time_ms,
        severity: owned(if warn { "Warn" } else { "Info" }),
        summary,
        payload: JsonValue::Object(e),
        envelope: RuntimeEventEnvelope::empty(),
    }
}

/// The lifecycle entry that records the event `e` of a step to `status`.
pub open spec fn is_ai_lifecycle_entry(
    entry: RuntimeAiProposalLifecycleEntry,
    status: RuntimeAiProposalStatus,
    e: FrontendRuntimeEvent,
    sequence_no: u64,
    message: Seq<char>,
) -> bool {
    &&& entry.status == status
    &&& entry.event_id == e.event_id
    &&& entry.sequence_no == sequence_no
    &&& entry.occurred_at_ms == e.event_time_ms
    &&& entry.reason_code@ == proposal_reason_code(status)
    &&& entry.message@ == message
}

pub fn ai_proposal_lifecycle_entry(
    status: RuntimeAiProposalStatus,
    event: &FrontendRuntimeEvent,
    sequence_no: u64,
    message: String,
) -> (r: RuntimeAiProposalLifecycleEntry)
    ensures
        is_ai_lifecycle_entry(r, status, *event, sequence_no, message@),
{
    let (_, reason_code) = ai_proposal_event_contract(status);
    RuntimeAiProposalLifecycleEntry {
        status,
        event_id: event.event_id.clone(),
        sequence_no,
        occurred_at_ms: event.event_time_ms,
        reason_code: owned(reason_code),
        message,
    }
}

/// Moves a proposal to `status` when that transition is allowed, stamping the time;
/// otherwise leaves it as it is. Says whether it moved.
pub fn update_ai_proposal_status(record: &mut RuntimeAiProposalRecord, status: RuntimeAiProposalStatus, now_ms: u64) -> (moved: bool)
    ensures
        moved == crate::proposal::valid_transition(old(record).status, status),
        moved ==> final(record).status == status && final(record).updated_at_ms == now_ms,
        moved ==> *final(record) == (RuntimeAiProposalRecord { status: status, updated_at_ms: now_ms, ..*old(record) }),
        !moved ==> *final(record) == *old(record),
{
    if !crate::proposal::is_valid_ai_proposal_transition(record.status, status) {
        return false;
    }
    record.status = status;
    record.updated_at_ms = now_ms;
    true
}


/// Why an AI proposal candidate is refused before its source is looked up, checked in
/// order: the write policy must be proposal-only, the target accepted, both values
/// given, the model named in full, both hashes well formed and an actor named.
pub open spec fn ai_request_problem(
    req: CreateRuntimeAiProposalRequest,
    ai_write_policy: Seq<char>,
    supported: Seq<String>,
) -> Option<(Seq<char>, Seq<char>)> {
    if crate::text::trim(ai_write_policy) != "proposal_only"@ {
        Some(("ai_proposal_denied"@, "AI 写入策略必须为 proposal_only 才能创建提案"@))
    } else if crate::mutation::target_problem(req.target, supported) is Some {
        crate::mutation::target_problem(req.target, supported)
    } else if req.old_value@ == Json::Null {
        Some(("bad_request"@, "AI 提案候选需要旧值"@))
    } else if req.new_value@ == Json::Null {
        Some(("bad_request"@, "AI 提案候选需要新值"@))
    } else if crate::proposal::model_identity_problem(req.model) is Some {
        Some(("bad_request"@, crate::proposal::model_identity_problem(req.model)->0))
    } else if !crate::proposal::hash_identity_valid(req.prompt_hash@) {
        Some(("bad_request"@, crate::proposal::hash_identity_message("prompt_hash"@, "AI proposal candidates"@)))
    } else if !crate::proposal::hash_identity_valid(req.evidence_hash@) {
        Some(("bad_request"@, crate::proposal::hash_identity_message("evidence_hash"@, "AI proposal candidates"@)))
    } else if req.actor is None {
        Some(("bad_request"@, "AI 提案候选需要指定操作者"@))
    } else {
        None
    }
}

/// Checks an AI proposal candidate under the caller's AI write policy.
pub fn validate_runtime_ai_proposal_request(
    request: &CreateRuntimeAiProposalRequest,
    ai_write_policy: &str,
    supported_module_keys: &Vec<String>,
) -> (r: Result<(), ApiError>)
    ensures
        r.is_ok() == (ai_request_problem(*request, ai_write_policy@, supported_module_keys@) is None),
        r matches Err(e) ==> (ai_request_problem(*request, ai_write_policy@, supported_module_keys@) matches Some(p)
            && is_bad_request(e, p.0, p.1)),
{
    if !crate::text::str_eq(crate::text::trim_str(ai_write_policy), "proposal_only") {
        return Err(bad_request("ai_proposal_denied", owned("AI 写入策略必须为 proposal_only 才能创建提案")));
    }
    crate::mutation::validate_runtime_parameter_mutation_target(&request.target, supported_module_keys)?;
    if matches!(request.old_value, JsonValue::Null) {
        return Err(bad_request("bad_request", owned("AI 提案候选需要旧值")));
    }
    if matches!(request.new_value, JsonValue::Null) {
        return Err(bad_request("bad_request", owned("AI 提案候选需要新值")));
    }
    crate::proposal::validate_ai_model_identity(&request.model)?;
    crate::proposal::validate_hash_identity(request.prompt_hash.as_str(), "prompt_hash", "AI proposal candidates")?;
    crate::proposal::validate_hash_identity(request.evidence_hash.as_str(), "evidence_hash", "AI proposal candidates")?;
    if request.actor.is_none() {
        return Err(bad_request("bad_request", owned("AI 提案候选需要指定操作者")));
    }
    Ok(())
}


/// Where an approval stands.
#[derive(Clone, Copy, PartialEq, Eq, Debug, Structural)]
pub enum RuntimeApprovalReviewState {
    Pending,
    UnderReview,
    Approved,
    Rejected,
    Expired,
}

/// How many approvers an approval needs.
#[derive(Clone, Copy, PartialEq, Eq, Debug, Structural)]
pub enum RuntimeApprovalLevel {
    L1SingleReviewer,
}

/// How an approved change would be undone.
#[derive(Clone, Debug)]
pub struct RuntimeRollbackPlan {
    pub method: String,
    pub target_generation: u64,
    pub estimated_recovery_ms: u64,
}

/// One step of an approval's history.
#[derive(Clone, Debug)]
pub struct RuntimeApprovalLifecycleEntry {
    pub review_state: RuntimeApprovalReviewState,
    pub event_id: String,
    pub sequence_no: u64,
    pub occurred_at_ms: u64,
    pub reason_code: String,
    pub message: String,
    pub actor_id: Option<String>,
}

/// The approval an AI proposal that passed its static check waits for.
#[derive(Clone, Debug)]
pub struct RuntimeApprovalRecord {
    pub approval_id: String,
    pub proposal_id: String,
    pub approval_level: RuntimeApprovalLevel,
    pub review_state: RuntimeApprovalReviewState,
    pub chain_stage_impact: Vec<String>,
    pub sandbox_report_url: Option<String>,
    pub source_runner_evidence: Option<JsonValue>,
    pub rollback_plan: RuntimeRollbackPlan,
    pub created_at_ms: u64,
    pub expires_at_ms: u64,
    pub reviewers_required: u32,
    pub reviewers_assigned: Vec<String>,
    pub reviewers_approved: Vec<String>,
    pub reviewers_rejected: Vec<String>,
    pub lifecycle: Vec<RuntimeApprovalLifecycleEntry>,
}

/// The lifecycle entries are numbered 1, 2, … in order.
pub open spec fn lifecycle_numbered(l: Seq<RuntimeApprovalLifecycleEntry>) -> bool {
    forall|i: int| 0 <= i < l.len() ==> #[trigger] l[i].sequence_no == i + 1
}

pub open spec fn has_text(l: Seq<String>, x: Seq<char>) -> bool {
    exists|i: int| 0 <= i < l.len() && #[trigger] l[i]@ == x
}

fn contains_text(l: &Vec<String>, x: &str) -> (r: bool)
    ensures
        r == has_text(l@, x@),
{
    let mut i: usize = 0;
    while i < l.len()
        invariant
            i <= l@.len(),
            forall|k: int| 0 <= k < i ==> l@[k]@ != x@,
        decreases l@.len() - i,
    {
        if crate::text::str_eq(l[i].as_str(), x) {
            assert(l@[i as int]@ == x@);
            return true;
        }
        i += 1;
    }
    false
}

/// The new approval for a proposal: pending, for one approver from the strategy desk,
/// valid a day, affecting the intent and agent stages, undone by a generation rollback.
pub open spec fn is_new_approval(a: RuntimeApprovalRecord, proposal_id: Seq<char>, sequence: u64, now: u64) -> bool {
    &&& a.approval_id@ == "apr-"@ + dec(now as nat) + "-"@ + dec(sequence as nat)
    &&& a.proposal_id@ == proposal_id
    &&& a.approval_level == RuntimeApprovalLevel::L1SingleReviewer
    &&& a.review_state == RuntimeApprovalReviewState::Pending
    &&& a.chain_stage_impact@.len() == 2
    &&& a.chain_stage_impact@[0]@ == "intent"@
    &&& a.chain_stage_impact@[1]@ == "agent"@
    &&& a.sandbox_report_url is None
    &&& a.source_runner_evidence is None
    &&& a.rollback_plan.method@ == "generation_rollback"@
    &&& a.rollback_plan.target_generation == 0
    &&& a.rollback_plan.estimated_recovery_ms == 5000
    &&& a.created_at_ms == now
    &&& a.expires_at_ms == crate::mutation::sat_add(now, 86400000)
    &&& a.reviewers_required == 1
    &&& a.reviewers_assigned@.len() == 1
    &&& a.reviewers_assigned@[0]@ == "pm-strategy-btc"@
    &&& a.reviewers_approved@.len() == 0
    &&& a.reviewers_rejected@.len() == 0
    &&& a.lifecycle@.len() == 1
    &&& a.lifecycle@[0].review_state == RuntimeApprovalReviewState::Pending
    &&& a.lifecycle@[0].event_id@ == "event_apr_pending_"@ + dec(now as nat)
    &&& a.lifecycle@[0].sequence_no == 1
    &&& a.lifecycle@[0].occurred_at_ms == now
    &&& a.lifecycle@[0].reason_code@ == "APPROVAL_CREATED"@
    &&& a.lifecycle@[0].message@ == "审批单自动创建"@
    &&& a.lifecycle@[0].actor_id is None
}

/// The approval created for a proposal that passed its static check; `sequence` tells
/// apart approvals created in the same millisecond.
pub fn new_runtime_approval(proposal_id: &str, sequence: u64, now_ms: u64) -> (r: RuntimeApprovalRecord)
    ensures
        is_new_approval(r, proposal_id@, sequence, now_ms),
        lifecycle_numbered(r.lifecycle@),
{
    let mut approval_id = cat("apr-", u64_text(now_ms).as_str());
    approval_id.append("-");
    approval_id.append(u64_text(sequence).as_str());
    let mut chain: Vec<String> = Vec::new();
    chain.push(owned("intent"));
    chain.push(owned("agent"));
    let mut assigned: Vec<String> = Vec::new();
    assigned.push(owned("pm-strategy-btc"));
    let mut lifecycle: Vec<RuntimeApprovalLifecycleEntry> = Vec::new();
    lifecycle.push(
        RuntimeApprovalLifecycleEntry {
            review_state: RuntimeApprovalReviewState::Pending,
            event_id: cat("event_apr_pending_", u64_text(now_ms).as_str()),
            sequence_no: 1,
            occurred_at_ms: now_ms,
            reason_code: owned("APPROVAL_CREATED"),
            message: owned("审批单自动创建"),
            actor_id: None,
        },
    );
    let expires = if now_ms > u64::MAX - 86400000 {
        u64::MAX
    } else {
        now_ms + 86400000
    };
    RuntimeApprovalRecord {
        approval_id,
        proposal_id: owned(proposal_id),
        approval_level: RuntimeApprovalLevel::L1SingleReviewer,
        review_state: RuntimeApprovalReviewState::Pending,
        chain_stage_impact: chain,
        sandbox_report_url: None,
        source_runner_evidence: None,
        rollback_plan: RuntimeRollbackPlan {
            method: owned("generation_rollback"),
            target_generation: 0,
            estimated_recovery_ms: 5000,
        },
        created_at_ms: now_ms,
        expires_at_ms: expires,
        reviewers_required: 1,
        reviewers_assigned: assigned,
        reviewers_approved: Vec::new(),
        reviewers_rejected: Vec::new(),
        lifecycle,
    }
}

/// An approval whose state still lets approvers act.
pub open spec fn open_for_decision(s: RuntimeApprovalReviewState) -> bool {
    s == RuntimeApprovalReviewState::Pending || s == RuntimeApprovalReviewState::UnderReview
}

/// `b` is `a` with one more lifecycle entry, for `state`, numbered after the others.
pub open spec fn approval_step(
    b: RuntimeApprovalRecord,
    a: RuntimeApprovalRecord,
    state: RuntimeApprovalReviewState,
    event_id: Seq<char>,
    now: u64,
    reason_code: Seq<char>,
    message: Seq<char>,
    actor: Option<Seq<char>>,
) -> bool {
    let e = b.lifecycle@.last();
    &&& b.review_state == state
    &&& b.approval_id == a.approval_id
    &&& b.proposal_id == a.proposal_id
    &&& b.approval_level == a.approval_level
    &&& b.chain_stage_impact == a.chain_stage_impact
    &&& b.sandbox_report_url == a.sandbox_report_url
    &&& b.rollback_plan == a.rollback_plan
    &&& b.created_at_ms == a.created_at_ms
    &&& b.expires_at_ms == a.expires_at_ms
    &&& b.reviewers_required == a.reviewers_required
    &&& b.lifecycle@.len() == a.lifecycle@.len() + 1
    &&& b.lifecycle@.drop_last() == a.lifecycle@
    &&& e.review_state == state
    &&& e.event_id@ == event_id
    &&& e.sequence_no == a.lifecycle@.len() + 1
    &&& e.occurred_at_ms == now
    &&& e.reason_code@ == reason_code
    &&& e.message@ == message
    &&& match actor {
        Some(x) => e.actor_id matches Some(id) && id@ == x,
        None => e.actor_id is None,
    }
}

proof fn lemma_step_keeps_numbering(b: Seq<RuntimeApprovalLifecycleEntry>, a: Seq<RuntimeApprovalLifecycleEntry>)
    requires
        lifecycle_numbered(a),
        b.len() == a.len() + 1,
        b.drop_last() == a,
        b.last().sequence_no == a.len() + 1,
    ensures
        lifecycle_numbered(b),
{
    assert forall|i: int| 0 <= i < b.len() implies #[trigger] b[i].sequence_no == i + 1 by {
        if i < a.len() {
            assert(b[i] == b.drop_last()[i]);
        }
    }
}

fn push_approval_entry(
    approval: &mut RuntimeApprovalRecord,
    state: RuntimeApprovalReviewState,
    event_id: String,
    now_ms: u64,
    reason_code: &str,
    message: String,
    actor_id: Option<String>,
)
    requires
        old(approval).lifecycle@.len() < u64::MAX,
    ensures
        approval_step(
            *final(approval),
            *old(approval),
            state,
            event_id@,
            now_ms,
            reason_code@,
            message@,
            match actor_id {
                Some(x) => Some(x@),
                None => None,
            },
        ),
        final(approval).reviewers_assigned == old(approval).reviewers_assigned,
        final(approval).reviewers_approved == old(approval).reviewers_approved,
        final(approval).reviewers_rejected == old(approval).reviewers_rejected,
        final(approval).source_runner_evidence == old(approval).source_runner_evidence,
        lifecycle_numbered(old(approval).lifecycle@) ==> lifecycle_numbered(final(approval).lifecycle@),
{
    let ghost before = approval.lifecycle@;
    let sequence_no = (approval.lifecycle.len() as u64) + 1;
    approval.review_state = state;
    approval.lifecycle.push(
        RuntimeApprovalLifecycleEntry {
            review_state: state,
            event_id,
            sequence_no,
            occurred_at_ms: now_ms,
            reason_code: owned(reason_code),
            message,
            actor_id,
        },
    );
    assert(approval.lifecycle@.drop_last() =~= before);
    proof {
        if lifecycle_numbered(before) {
            lemma_step_keeps_numbering(approval.lifecycle@, before);
        }
    }
}

pub open spec fn not_decidable_message() -> Seq<char> {
    "审批单不在可审查状态"@
}

/// An approver takes a pending approval: they are added to the assigned approvers if
/// not yet there, and the approval is under way.
pub fn claim_runtime_approval(approval: RuntimeApprovalRecord, actor_id: String, now_ms: u64) -> (r: Result<RuntimeApprovalRecord, ApiError>)
    requires
        approval.lifecycle@.len() < u64::MAX,
    ensures
        approval.review_state != RuntimeApprovalReviewState::Pending ==> (r matches Err(e) && is_bad_request(
            e,
            "invalid_approval_state"@,
            "仅待审批的提案可以被认领"@,
        )),
        approval.review_state == RuntimeApprovalReviewState::Pending ==> (r matches Ok(b) && {
            &&& approval_step(
                b,
                approval,
                RuntimeApprovalReviewState::UnderReview,
                "event_approval_claim_"@ + dec(now_ms as nat),
                now_ms,
                "APPROVAL_CLAIMED"@,
                "审批人 "@ + actor_id@ + " 认领审批单"@,
                Some(actor_id@),
            )
            &&& b.reviewers_assigned@ == (if has_text(approval.reviewers_assigned@, actor_id@) {
                approval.reviewers_assigned@
            } else {
                approval.reviewers_assigned@.push(actor_id)
            })
            &&& b.reviewers_approved == approval.reviewers_approved
            &&& b.reviewers_rejected == approval.reviewers_rejected
            &&& (lifecycle_numbered(approval.lifecycle@) ==> lifecycle_numbered(b.lifecycle@))
        }),
{
    if approval.review_state != RuntimeApprovalReviewState::Pending {
        return Err(bad_request("invalid_approval_state", owned("仅待审批的提案可以被认领")));
    }
    let mut approval = approval;
    if !contains_text(&approval.reviewers_assigned, actor_id.as_str()) {
        approval.reviewers_assigned.push(actor_id.clone());
    }
    let message = cat3("审批人 ", actor_id.as_str(), " 认领审批单");
    push_approval_entry(
        &mut approval,
        RuntimeApprovalReviewState::UnderReview,
        cat("event_approval_claim_", u64_text(now_ms).as_str()),
        now_ms,
        "APPROVAL_CLAIMED",
        message,
        Some(actor_id),
    );
    Ok(approval)
}

/// What approving does to an open approval: the approver is counted once (unless they
/// rejected before), and it is granted once enough approvers approved.
pub open spec fn approval_decision(b: RuntimeApprovalRecord, granted: bool, approval: RuntimeApprovalRecord, actor_id: String, now_ms: u64) -> bool {
            let counted = has_text(approval.reviewers_approved@, actor_id@) || has_text(approval.reviewers_rejected@, actor_id@);
            let approvals = if counted {
                approval.reviewers_approved@
            } else {
                approval.reviewers_approved@.push(actor_id)
            };
            let n = approvals.len();
            &&& b.reviewers_approved@ == approvals
            &&& granted == (n >= approval.reviewers_required)
            &&& b.reviewers_assigned == approval.reviewers_assigned
            &&& b.reviewers_rejected == approval.reviewers_rejected
            &&& (lifecycle_numbered(approval.lifecycle@) ==> lifecycle_numbered(b.lifecycle@))
            &&& if granted {
                approval_step(
                    b,
                    approval,
                    RuntimeApprovalReviewState::Approved,
                    "event_approval_approved_"@ + dec(now_ms as nat),
                    now_ms,
                    "APPROVAL_APPROVED"@,
                    "审批通过: "@ + dec(n) + "/"@ + dec(approval.reviewers_required as nat) + " 审批人同意"@,
                    Some(actor_id@),
                )
            } else {
                approval_step(
                    b,
                    approval,
                    RuntimeApprovalReviewState::UnderReview,
                    "event_approval_review_"@ + dec(now_ms as nat),
                    now_ms,
                    "APPROVAL_PARTIAL"@,
                    "部分通过: "@ + dec(n) + "/"@ + dec(approval.reviewers_required as nat) + " 审批人同意"@,
                    Some(actor_id@),
                )
            }
}

/// An approver approves: counted once, unless they rejected before; with enough
/// approvals the approval is granted, else it stays under way. The flag says whether the
/// proposal is now approved.
pub fn approve_runtime_approval(approval: RuntimeApprovalRecord, actor_id: String, now_ms: u64) -> (r: Result<(RuntimeApprovalRecord, bool), ApiError>)
    requires
        approval.lifecycle@.len() < u64::MAX,
    ensures
        !open_for_decision(approval.review_state) ==> (r matches Err(e) && is_bad_request(
            e,
            "INVALID_APPROVAL_STATE"@,
            not_decidable_message(),
        )),
        open_for_decision(approval.review_state) ==> (r matches Ok((b, granted)) && approval_decision(b, granted, approval, actor_id, now_ms)),
{
    if !(approval.review_state == RuntimeApprovalReviewState::Pending || approval.review_state
        == RuntimeApprovalReviewState::UnderReview) {
        return Err(bad_request("INVALID_APPROVAL_STATE", owned("审批单不在可审查状态")));
    }
    let ghost a0 = approval;
    let ghost actor_id0 = actor_id;
    let mut approval = approval;
    if !contains_text(&approval.reviewers_approved, actor_id.as_str()) && !contains_text(
        &approval.reviewers_rejected,
        actor_id.as_str(),
    ) {
        approval.reviewers_approved.push(actor_id.clone());
    }
    let ghost counted = has_text(a0.reviewers_approved@, actor_id@) || has_text(a0.reviewers_rejected@, actor_id@);
    assert(approval.reviewers_approved@ == (if counted {
        a0.reviewers_approved@
    } else {
        a0.reviewers_approved@.push(actor_id)
    }));
    assert(approval.reviewers_required == a0.reviewers_required);
    let n = approval.reviewers_approved.len();
    let required = approval.reviewers_required;
    let counts = cat3(u64_text(n as u64).as_str(), "/", u64_text(required as u64).as_str());
    assert(counts@ == dec(n as nat) + "/"@ + dec(required as nat));
    assert((n as u64 >= required as u64) == (n >= required));
    if n as u64 >= required as u64 {
        let message = cat3("审批通过: ", counts.as_str(), " 审批人同意");
        assert(message@ =~= "审批通过: "@ + dec(n as nat) + "/"@ + dec(required as nat) + " 审批人同意"@);
        push_approval_entry(
            &mut approval,
            RuntimeApprovalReviewState::Approved,
            cat("event_approval_approved_", u64_text(now_ms).as_str()),
            now_ms,
            "APPROVAL_APPROVED",
            message,
            Some(actor_id),
        );
        assert(approval_decision(approval, true, a0, actor_id0, now_ms));
        Ok((approval, true))
    } else {
        let message = cat3("部分通过: ", counts.as_str(), " 审批人同意");
        assert(message@ =~= "部分通过: "@ + dec(n as nat) + "/"@ + dec(required as nat) + " 审批人同意"@);
        push_approval_entry(
            &mut approval,
            RuntimeApprovalReviewState::UnderReview,
            cat("event_approval_review_", u64_text(now_ms).as_str()),
            now_ms,
            "APPROVAL_PARTIAL",
            message,
            Some(actor_id),
        );
        assert(approval_decision(approval, false, a0, actor_id0, now_ms));
        Ok((approval, false))
    }
}

/// An approver rejects: the approval is rejected, with their comment or a plain message,
/// and the proposal is to be denied.
pub fn reject_runtime_approval(
    approval: RuntimeApprovalRecord,
    actor_id: String,
    comment: Option<String>,
    now_ms: u64,
) -> (r: Result<RuntimeApprovalRecord, ApiError>)
    requires
        approval.lifecycle@.len() < u64::MAX,
    ensures
        !open_for_decision(approval.review_state) ==> (r matches Err(e) && is_bad_request(
            e,
            "INVALID_APPROVAL_STATE"@,
            not_decidable_message(),
        )),
        open_for_decision(approval.review_state) ==> (r matches Ok(b) && {
            &&& approval_step(
                b,
                approval,
                RuntimeApprovalReviewState::Rejected,
                "event_approval_rejected_"@ + dec(now_ms as nat),
                now_ms,
                "APPROVAL_REJECTED"@,
                match comment {
                    Some(c) => c@,
                    None => "审批拒绝"@,
                },
                Some(actor_id@),
            )
            &&& b.reviewers_rejected@ == approval.reviewers_rejected@.push(actor_id)
            &&& b.reviewers_approved == approval.reviewers_approved
            &&& b.reviewers_assigned == approval.reviewers_assigned
            &&& (lifecycle_numbered(approval.lifecycle@) ==> lifecycle_numbered(b.lifecycle@))
        }),
{
    if !(approval.review_state == RuntimeApprovalReviewState::Pending || approval.review_state
        == RuntimeApprovalReviewState::UnderReview) {
        return Err(bad_request("INVALID_APPROVAL_STATE", owned("审批单不在可审查状态")));
    }
    let mut approval = approval;
    approval.reviewers_rejected.push(actor_id.clone());
    let message = match comment {
        Some(c) => c,
        None => owned("审批拒绝"),
    };
    push_approval_entry(
        &mut approval,
        RuntimeApprovalReviewState::Rejected,
        cat("event_approval_rejected_", u64_text(now_ms).as_str()),
        now_ms,
        "APPROVAL_REJECTED",
        message,
        Some(actor_id),
    );
    Ok(approval)
}

/// A refusal with `423 Locked`.
pub open spec fn is_locked(e: ApiError, code: Seq<char>, message: Seq<char>) -> bool {
    e.status == 423 && e.code@ == code && e.message@ == message
}

fn locked(code: &str, message: &str) -> (r: ApiError)
    ensures
        is_locked(r, code@, message@),
{
    ApiError { status: 423, code: owned(code), message: owned(message) }
}

/// Whether a proposal may be approved: it needs a configuration-domain binding, a
/// passed static check and a sandbox report (`sandbox_underperforms` is `None` when
/// there is none) in which the candidate does not underperform.
pub fn ai_proposal_approval_gate(proposal: &RuntimeAiProposalRecord, sandbox_underperforms: Option<bool>) -> (r: Result<(), ApiError>)
    ensures
        proposal.config_domain_binding is None ==> (r matches Err(e) && is_locked(
            e,
            "strategy_config_ai_binding_required"@,
            "AI proposal 缺少策略配置域绑定，不能通过审批。"@,
        )),
        proposal.config_domain_binding is Some && proposal.status != RuntimeAiProposalStatus::StaticCheckPassed
            ==> (r matches Err(e) && is_locked(
            e,
            "ai_proposal_static_check_required"@,
            "AI proposal 必须先通过静态检查，才能进入审批通过路径。"@,
        )),
        proposal.config_domain_binding is Some && proposal.status == RuntimeAiProposalStatus::StaticCheckPassed
            && sandbox_underperforms is None ==> (r matches Err(e) && is_locked(
            e,
            "ai_proposal_sandbox_required"@,
            "AI proposal 必须先生成沙箱验证报告，才能通过审批。"@,
        )),
        proposal.config_domain_binding is Some && proposal.status == RuntimeAiProposalStatus::StaticCheckPassed
            && sandbox_underperforms == Some(true) ==> (r matches Err(e) && is_locked(
            e,
            "ai_proposal_sandbox_failed"@,
            "AI proposal 沙箱验证未通过，不能通过审批。"@,
        )),
        r.is_ok() == (proposal.config_domain_binding is Some && proposal.status
            == RuntimeAiProposalStatus::StaticCheckPassed && sandbox_underperforms == Some(false)),
{
    if proposal.config_domain_binding.is_none() {
        return Err(locked("strategy_config_ai_binding_required", "AI proposal 缺少策略配置域绑定，不能通过审批。"));
    }
    if proposal.status != RuntimeAiProposalStatus::StaticCheckPassed {
        return Err(locked("ai_proposal_static_check_required", "AI proposal 必须先通过静态检查，才能进入审批通过路径。"));
    }
    match sandbox_underperforms {
        None => Err(locked("ai_proposal_sandbox_required", "AI proposal 必须先生成沙箱验证报告，才能通过审批。")),
        Some(true) => Err(locked("ai_proposal_sandbox_failed", "AI proposal 沙箱验证未通过，不能通过审批。")),
        Some(false) => Ok(()),
    }
}

/// Records how the sandbox verification of a proposal ended: on success the approval
/// points at the sandbox report; after failing every attempt it records the failure and
/// keeps its state.
pub fn record_sandbox_outcome(approval: &mut RuntimeApprovalRecord, succeeded: bool, now_ms: u64)
    requires
        old(approval).lifecycle@.len() < u64::MAX,
    ensures
        succeeded ==> *final(approval) == (RuntimeApprovalRecord {
            sandbox_report_url: final(approval).sandbox_report_url,
            ..*old(approval)
        }),
        succeeded ==> (final(approval).sandbox_report_url matches Some(u) && u@ == "/api/v1/ai/proposals/"@
            + old(approval).proposal_id@ + "/sandbox-report"@),
        !succeeded ==> approval_step(
            *final(approval),
            *old(approval),
            old(approval).review_state,
            "event_sandbox_failed_"@ + dec(now_ms as nat),
            now_ms,
            "SANDBOX_VERIFICATION_FAILED"@,
            "沙箱验证 3 次尝试全部失败，审批通过路径保持阻断。"@,
            None,
        ),
        lifecycle_numbered(old(approval).lifecycle@) ==> lifecycle_numbered(final(approval).lifecycle@),
{
    if succeeded {
        approval.sandbox_report_url = Some(cat3("/api/v1/ai/proposals/", approval.proposal_id.as_str(), "/sandbox-report"));
    } else {
        let state = approval.review_state;
        push_approval_entry(
            approval,
            state,
            cat("event_sandbox_failed_", u64_text(now_ms).as_str()),
            now_ms,
            "SANDBOX_VERIFICATION_FAILED",
            owned("沙箱验证 3 次尝试全部失败，审批通过路径保持阻断。"),
            None,
        );
    }
}


/// What follows an attempt at sandbox verification: the verification is over, with or
/// without success, or another attempt follows after a pause.
#[derive(Clone, Copy, PartialEq, Eq, Debug, Structural)]
pub enum SandboxRetryStep {
    Finished(bool),
    RetryAfterMs(u64),
}

/// Sandbox verification is tried three times at most: a failed attempt is retried after
/// 500 ms times the number of attempts made so far, and the third failure ends it.
pub fn sandbox_retry_step(attempt: u32, succeeded: bool) -> (r: SandboxRetryStep)
    requires
        attempt < 3,
    ensures
        succeeded ==> r == SandboxRetryStep::Finished(true),
        !succeeded && attempt < 2 ==> r == SandboxRetryStep::RetryAfterMs((500 * (attempt + 1)) as u64),
        !succeeded && attempt == 2 ==> r == SandboxRetryStep::Finished(false),
{
    if succeeded {
        SandboxRetryStep::Finished(true)
    } else if attempt < 2 {
        SandboxRetryStep::RetryAfterMs(500 * (attempt as u64 + 1))
    } else {
        SandboxRetryStep::Finished(false)
    }
}

/// What a proposal's source is, as far as the proposal needs it.
#[derive(Clone, Debug)]
pub struct RuntimeAiProposalSourceContext {
    pub graph_id: String,
    pub event_count: usize,
    pub current_sequence_no: u64,
    pub governance: RuntimeGovernanceSnapshot,
}

/// A new AI proposal worked out: its record, its creation and static-check events with
/// the governance each is recorded under (appended to the source when it is a run), and
/// the approval it waits for when it passed the static check.
#[derive(Debug)]
pub struct RuntimeAiProposalPlan {
    pub record: RuntimeAiProposalRecord,
    pub events: Vec<(FrontendRuntimeEvent, RuntimeGovernanceSnapshot)>,
    pub append_to_run: bool,
    pub approval: Option<RuntimeApprovalRecord>,
}

/// The record of a new AI proposal on a source.
pub open spec fn is_new_ai_proposal(
    rec: RuntimeAiProposalRecord,
    req: CreateRuntimeAiProposalRequest,
    source: RuntimeAiProposalSourceContext,
    old_version: Seq<char>,
    new_version: Seq<char>,
    id: Seq<char>,
    guard_path_allowed: bool,
    now: u64,
) -> bool {
    &&& rec.ai_proposal_id@ == id
    &&& rec.source_kind == req.source_kind
    &&& rec.source_id == req.source_id
    &&& rec.graph_id == source.graph_id
    &&& rec.source_evidence.source_kind == req.source_kind
    &&& rec.source_evidence.source_id == req.source_id
    &&& rec.source_evidence.graph_id == source.graph_id
    &&& rec.source_evidence.event_count == source.event_count
    &&& rec.source_evidence.evidence_hash == req.evidence_hash
    &&& rec.target == req.target
    &&& rec.old_value@ == req.old_value@
    &&& rec.new_value@ == req.new_value@
    &&& rec.old_parameter_version@ == old_version
    &&& rec.proposed_parameter_version@ == new_version
    &&& crate::proposal::is_static_check_result(
        rec.static_check,
        req,
        old_version,
        new_version,
        source.event_count as nat,
        now,
        guard_path_allowed,
    )
    &&& rec.status == rec.static_check.status
    &&& rec.denial_reason is None
    &&& rec.model == req.model
    &&& rec.prompt_hash == req.prompt_hash
    &&& rec.evidence_hash == req.evidence_hash
    &&& req.actor == Some(rec.actor)
    &&& rec.reason@ == crate::text::trim(req.reason@)
    &&& is_ai_proposal_governance(rec.governance, source.governance, old_version, new_version)
    &&& same_binding(rec.config_domain_binding, req.config_domain_binding)
    &&& rec.created_at_ms == now
    &&& rec.updated_at_ms == now
}

/// What proposing gives: a refusal for a candidate the checks refuse; else the new record,
/// its creation event at `now` and its static-check event a millisecond later, both
/// recorded under the parameter version before the change and numbered on from the
/// source's last event in its lifecycle, and an approval when the check passed.
pub open spec fn ai_proposal_outcome(
    r: Result<RuntimeAiProposalPlan, ApiError>,
    req: CreateRuntimeAiProposalRequest,
    ai_write_policy: Seq<char>,
    supported: Seq<String>,
    source: RuntimeAiProposalSourceContext,
    old_version: Seq<char>,
    new_version: Seq<char>,
    id: Seq<char>,
    guard_path_allowed: bool,
    approval_sequence: u64,
    now: u64,
) -> bool {
    match ai_request_problem(req, ai_write_policy, supported) {
        Some((code, message)) => r matches Err(e) && is_bad_request(e, code, message),
        None => r matches Ok(p) && {
            let rec = p.record;
            let later = crate::mutation::sat_add(now, 1);
            &&& is_new_ai_proposal(rec, req, source, old_version, new_version, id, guard_path_allowed, now)
            &&& p.events@.len() == 2
            &&& is_ai_proposal_event(p.events@[0].0, rec, RuntimeAiProposalStatus::Submitted, now)
            &&& is_ai_proposal_event(p.events@[1].0, rec, rec.status, later)
            &&& governance_with_version(p.events@[0].1, source.governance, old_version)
            &&& governance_with_version(p.events@[1].1, source.governance, old_version)
            &&& p.append_to_run == (req.source_kind == RuntimeEvidenceSourceKind::Run)
            &&& rec.lifecycle@.len() == 2
            &&& is_ai_lifecycle_entry(
                rec.lifecycle@[0],
                RuntimeAiProposalStatus::Submitted,
                p.events@[0].0,
                (source.current_sequence_no + 1) as u64,
                "AI proposal candidate submitted"@,
            )
            &&& is_ai_lifecycle_entry(
                rec.lifecycle@[1],
                rec.status,
                p.events@[1].0,
                (source.current_sequence_no + 2) as u64,
                rec.static_check.message@,
            )
            &&& match p.approval {
                Some(a) => rec.status == RuntimeAiProposalStatus::StaticCheckPassed && is_new_approval(a, id, approval_sequence, now),
                None => rec.status != RuntimeAiProposalStatus::StaticCheckPassed,
            }
        },
    }
}

/// Two bindings that say the same.
pub open spec fn same_binding(a: Option<RuntimeAiProposalConfigDomainBinding>, b: Option<RuntimeAiProposalConfigDomainBinding>) -> bool {
    match (a, b) {
        (None, None) => true,
        (Some(x), Some(y)) => x.target_domain == y.target_domain && x.before_digest == y.before_digest
            && x.after_digest == y.after_digest && x.evidence_anchor_ids@ == y.evidence_anchor_ids@,
        _ => false,
    }
}

fn clone_binding(b: &Option<RuntimeAiProposalConfigDomainBinding>) -> (r: Option<RuntimeAiProposalConfigDomainBinding>)
    ensures
        same_binding(r, *b),
{
    match b {
        None => None,
        Some(b) => {
            let mut anchors: Vec<String> = Vec::new();
            let mut i: usize = 0;
            while i < b.evidence_anchor_ids.len()
                invariant
                    i <= b.evidence_anchor_ids@.len(),
                    anchors@ == b.evidence_anchor_ids@.subrange(0, i as int),
                decreases b.evidence_anchor_ids@.len() - i,
            {
                anchors.push(b.evidence_anchor_ids[i].clone());
                assert(anchors@ =~= b.evidence_anchor_ids@.subrange(0, i + 1));
                i += 1;
            }
            assert(anchors@ =~= b.evidence_anchor_ids@);
            Some(
                RuntimeAiProposalConfigDomainBinding {
                    target_domain: b.target_domain,
                    before_digest: b.before_digest.clone(),
                    after_digest: b.after_digest.clone(),
                    evidence_anchor_ids: anchors,
                },
            )
        },
    }
}

/// Works out a new AI proposal on its source, given the canonical versions of the old and
/// new values, the proposal's id, whether the v4 machine rules let a guard proposal touch
/// its parameter path, and the sequence that tells apart approvals of one millisecond.
pub fn plan_runtime_ai_proposal(
    request: CreateRuntimeAiProposalRequest,
    ai_write_policy: &str,
    supported_module_keys: &Vec<String>,
    source: &RuntimeAiProposalSourceContext,
    old_parameter_version: String,
    proposed_parameter_version: String,
    ai_proposal_id: String,
    guard_path_allowed: bool,
    approval_sequence: u64,
    now_ms: u64,
) -> (r: Result<RuntimeAiProposalPlan, ApiError>)
    requires
        source.current_sequence_no <= u64::MAX - 2,
    ensures
        ai_proposal_outcome(
            r,
            request,
            ai_write_policy@,
            supported_module_keys@,
            *source,
            old_parameter_version@,
            proposed_parameter_version@,
            ai_proposal_id@,
            guard_path_allowed,
            approval_sequence,
            now_ms,
        ),
{
    validate_runtime_ai_proposal_request(&request, ai_write_policy, supported_module_keys)?;
    let static_check = crate::proposal::ai_proposal_static_check_result(
        &request,
        old_parameter_version.as_str(),
        proposed_parameter_version.as_str(),
        source.event_count,
        now_ms,
        guard_path_allowed,
    );
    let status = static_check.status;
    let governance = runtime_ai_proposal_governance(
        &source.governance,
        old_parameter_version.clone(),
        proposed_parameter_version.clone(),
    );
    let actor = match &request.actor {
        Some(a) => ActorIdentity { actor_id: a.actor_id.clone(), display_name: a.display_name.clone() },
        None => ActorIdentity { actor_id: String::new(), display_name: String::new() },
    };
    let mut record = RuntimeAiProposalRecord {
        ai_proposal_id: ai_proposal_id.clone(),
        source_kind: request.source_kind,
        source_id: request.source_id.clone(),
        graph_id: source.graph_id.clone(),
        source_evidence: RuntimeAiProposalSourceEvidence {
            source_kind: request.source_kind,
            source_id: request.source_id.clone(),
            graph_id: source.graph_id.clone(),
            event_count: source.event_count,
            evidence_hash: request.evidence_hash.clone(),
        },
        target: RuntimeParameterMutationTarget {
            node_id: request.target.node_id.clone(),
            module_key: request.target.module_key.clone(),
            parameter_path: request.target.parameter_path.clone(),
        },
        old_value: crate::json::json_clone(&request.old_value),
        new_value: crate::json::json_clone(&request.new_value),
        old_parameter_version,
        proposed_parameter_version,
        status,
        denial_reason: None,
        static_check,
        model: RuntimeAiModelIdentity {
            provider: request.model.provider.clone(),
            model: request.model.model.clone(),
            model_version: request.model.model_version.clone(),
        },
        prompt_hash: request.prompt_hash.clone(),
        evidence_hash: request.evidence_hash.clone(),
        actor,
        reason: owned(crate::text::trim_str(request.reason.as_str())),
        governance,
        config_domain_binding: clone_binding(&request.config_domain_binding),
        lifecycle: Vec::new(),
        created_at_ms: now_ms,
        updated_at_ms: now_ms,
    };
    let later = crate::mutation::saturating_add_u64(now_ms, 1);
    let created_event = build_runtime_ai_proposal_event(&record, RuntimeAiProposalStatus::Submitted, now_ms);
    let static_event = build_runtime_ai_proposal_event(&record, status, later);
    let first = ai_proposal_lifecycle_entry(
        RuntimeAiProposalStatus::Submitted,
        &created_event,
        source.current_sequence_no + 1,
        owned("AI proposal candidate submitted"),
    );
    let second = ai_proposal_lifecycle_entry(status, &static_event, source.current_sequence_no + 2, record.static_check.message.clone());
    let ghost before = record;
    record.lifecycle.push(first);
    record.lifecycle.push(second);
    assert(ai_proposal_payload(record, RuntimeAiProposalStatus::Submitted) == ai_proposal_payload(before, RuntimeAiProposalStatus::Submitted));
    assert(ai_proposal_payload(record, status) == ai_proposal_payload(before, status));
    let event_governance = governance_with_parameter_version(&source.governance, record.old_parameter_version.as_str());
    let static_governance = governance_with_parameter_version(&source.governance, record.old_parameter_version.as_str());
    let mut events: Vec<(FrontendRuntimeEvent, RuntimeGovernanceSnapshot)> = Vec::new();
    events.push((created_event, event_governance));
    events.push((static_event, static_governance));
    let approval = if status == RuntimeAiProposalStatus::StaticCheckPassed {
        Some(new_runtime_approval(ai_proposal_id.as_str(), approval_sequence, now_ms))
    } else {
        None
    };
    Ok(
        RuntimeAiProposalPlan {
            record,
            events,
            append_to_run: request.source_kind == RuntimeEvidenceSourceKind::Run,
            approval,
        },
    )
}

/// Only a proposal whose approval was granted becomes approved, and only from a passed
/// static check; a rejected approval denies it. An approval that was granted or rejected
/// takes no further decision.
pub proof fn lemma_decided_approval_is_final(approval: RuntimeApprovalRecord)
    requires
        approval.review_state == RuntimeApprovalReviewState::Approved || approval.review_state
            == RuntimeApprovalReviewState::Rejected,
    ensures
        !open_for_decision(approval.review_state),
        approval.review_state != RuntimeApprovalReviewState::Pending,
{
}

/// An approver who already approved, or rejected, is not counted again.
pub proof fn lemma_approver_counted_once(
    approval: RuntimeApprovalRecord,
    actor_id: String,
    now: u64,
    b: RuntimeApprovalRecord,
    granted: bool,
)
    requires
        approval_decision(b, granted, approval, actor_id, now),
        has_text(approval.reviewers_approved@, actor_id@) || has_text(approval.reviewers_rejected@, actor_id@),
    ensures
        b.reviewers_approved@ == approval.reviewers_approved@,
{
}

} // verus!
