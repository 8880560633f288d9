//! Runtime events as the frontend sees them, and their governed envelopes.
use vstd::prelude::*;
use crate::json::{json_as_str, json_clone, json_get, json_get_exec, json_get_str, Json, JsonValue};
use crate::text::{
    cat3, dec, is_blank, is_blank_str, owned, str_eq, u128_text, u64_text,
};

verus! {

/// Pipeline stage that an event belongs to.
#[derive(Clone, Copy, PartialEq, Eq, Debug, Structural)]
pub enum RuntimeEventStage {
    Data,
    Intent,
    Agent,
    Risk,
    Execution,
    Fill,
    System,
}

/// How long an event is kept when evidence is compacted.
#[derive(Clone, Copy, PartialEq, Eq, Debug, Structural)]
pub enum RuntimeEventRetentionClass {
    Key,
    Summary,
    Debug,
}

/// The permission boundary that a runtime was deployed under.
#[derive(Clone, Debug)]
pub struct RuntimePermissionBoundary {
    pub model_version: String,
    pub ai_write_policy: String,
}

/// The governance identity of a runtime: what was deployed and with which parameters.
#[derive(Clone, Debug)]
pub struct RuntimeGovernanceSnapshot {
    pub capability_hash: String,
    pub strategy_version: String,
    pub parameter_version: String,
    pub deployment_revision: String,
    pub governance_source: String,
    pub permission_boundary: RuntimePermissionBoundary,
}

/// The governed envelope that every persisted runtime event carries.
#[derive(Clone, Debug)]
pub struct RuntimeEventEnvelope {
    pub event_id: String,
    pub event_type: String,
    pub stage: RuntimeEventStage,
    pub run_id: String,
    pub sequence_no: u64,
    pub occurred_at_ms: u64,
    pub ingested_at_ms: u64,
    pub trace_id: Option<String>,
    pub module_key: String,
    pub strategy_version: String,
    pub parameter_version: String,
    pub deployment_revision: String,
    pub capability_hash: String,
    pub mode: String,
    pub severity: String,
    pub retention_class: RuntimeEventRetentionClass,
    pub reason_code: Option<String>,
    pub payload_version: u32,
}

/// A runtime event in the form the frontend and the stores use.
#[derive(Clone, Debug)]
pub struct FrontendRuntimeEvent {
    pub event_id: String,
    pub event_type: String,
    pub source_id: String,
    pub node_id: String,
    pub event_time_ms: u64,
    pub severity: String,
    pub summary: String,
    pub payload: JsonValue,
    pub envelope: RuntimeEventEnvelope,
}

/// Who acted.
#[derive(Clone, Debug)]
pub struct ActorIdentity {
    pub actor_id: String,
    pub display_name: String,
}

impl RuntimePermissionBoundary {
    /// The boundary with empty fields.
    pub fn empty() -> (r: Self)
        ensures
            r.model_version@.len() == 0,
            r.ai_write_policy@.len() == 0,
    {
        RuntimePermissionBoundary { model_version: String::new(), ai_write_policy: String::new() }
    }
}

impl Default for RuntimePermissionBoundary {
    fn default() -> (r: Self)
        ensures
            r.model_version@.len() == 0,
            r.ai_write_policy@.len() == 0,
    {
        RuntimePermissionBoundary::empty()
    }
}

impl Default for RuntimeGovernanceSnapshot {
    fn default() -> (r: Self)
        ensures
            r.capability_hash@.len() == 0,
            r.strategy_version@.len() == 0,
            r.parameter_version@.len() == 0,
            r.deployment_revision@.len() == 0,
            r.governance_source@.len() == 0,
            r.permission_boundary.model_version@.len() == 0,
            r.permission_boundary.ai_write_policy@.len() == 0,
    {
        RuntimeGovernanceSnapshot {
            capability_hash: String::new(),
            strategy_version: String::new(),
            parameter_version: String::new(),
            deployment_revision: String::new(),
            governance_source: String::new(),
            permission_boundary: RuntimePermissionBoundary::empty(),
        }
    }
}

impl RuntimeEventEnvelope {
    /// The envelope an event has before one is attached: empty texts, zero numbers.
    pub fn empty() -> (r: Self)
        ensures
            r.event_id@.len() == 0,
            r.event_type@.len() == 0,
            r.stage == RuntimeEventStage::System,
            r.run_id@.len() == 0,
            r.sequence_no == 0,
            r.occurred_at_ms == 0,
            r.ingested_at_ms == 0,
            r.trace_id.is_none(),
            r.module_key@.len() == 0,
            r.strategy_version@.len() == 0,
            r.parameter_version@.len() == 0,
            r.deployment_revision@.len() == 0,
            r.capability_hash@.len() == 0,
            r.mode@.len() == 0,
            r.severity@.len() == 0,
            r.retention_class == RuntimeEventRetentionClass::Debug,
            r.reason_code.is_none(),
            r.payload_version == 0,
    {
        RuntimeEventEnvelope {
            event_id: String::new(),
            event_type: String::new(),
            stage: RuntimeEventStage::System,
            run_id: String::new(),
            sequence_no: 0,
            occurred_at_ms: 0,
            ingested_at_ms: 0,
            trace_id: None,
            module_key: String::new(),
            strategy_version: String::new(),
            parameter_version: String::new(),
            deployment_revision: String::new(),
            capability_hash: String::new(),
            mode: String::new(),
            severity: String::new(),
            retention_class: RuntimeEventRetentionClass::Debug,
            reason_code: None,
            payload_version: 0,
        }
    }
}

/// An envelope that was never attached: empty texts and zero numbers.
pub open spec fn envelope_unset(r: RuntimeEventEnvelope) -> bool {
    &&& r.event_id@.len() == 0
    &&& r.event_type@.len() == 0
    &&& r.stage == RuntimeEventStage::System
    &&& r.run_id@.len() == 0
    &&& r.sequence_no == 0
    &&& r.occurred_at_ms == 0
    &&& r.ingested_at_ms == 0
    &&& r.trace_id.is_none()
    &&& r.module_key@.len() == 0
    &&& r.strategy_version@.len() == 0
    &&& r.parameter_version@.len() == 0
    &&& r.deployment_revision@.len() == 0
    &&& r.capability_hash@.len() == 0
    &&& r.mode@.len() == 0
    &&& r.severity@.len() == 0
    &&& r.retention_class == RuntimeEventRetentionClass::Debug
    &&& r.reason_code.is_none()
    &&& r.payload_version == 0
}

impl Default for RuntimeEventEnvelope {
    fn default() -> (r: Self)
        ensures
            r.event_id@.len() == 0,
            r.event_type@.len() == 0,
            r.stage == RuntimeEventStage::System,
            r.run_id@.len() == 0,
            r.sequence_no == 0,
            r.occurred_at_ms == 0,
            r.ingested_at_ms == 0,
            r.trace_id.is_none(),
            r.module_key@.len() == 0,
            r.strategy_version@.len() == 0,
            r.parameter_version@.len() == 0,
            r.deployment_revision@.len() == 0,
            r.capability_hash@.len() == 0,
            r.mode@.len() == 0,
            r.severity@.len() == 0,
            r.retention_class == RuntimeEventRetentionClass::Debug,
            r.reason_code.is_none(),
            r.payload_version == 0,
    {
        RuntimeEventEnvelope::empty()
    }
}

/// The fifteen system-governance event types (capability, security, AI proposal and
/// parameter mutation lifecycle events).
pub open spec fn is_governance_event_type(t: Seq<char>) -> bool {
    ||| t == "CapabilitySnapshotTaken"@
    ||| t == "SecurityViolationDetected"@
    ||| t == "AIProposalCreated"@
    ||| t == "AIProposalDenied"@
    ||| t == "AIProposalStaticCheckPassed"@
    ||| t == "AIProposalStaticCheckFailed"@
    ||| t == "ParameterMutationProposed"@
    ||| t == "ParameterMutationRejected"@
    ||| t == "ParameterMutationActivationScheduled"@
    ||| t == "ParameterMutationActivated"@
    ||| t == "ParameterMutationActivationFailed"@
    ||| t == "ParameterMutationSafeWindowDenied"@
    ||| t == "ParameterMutationRollbackScheduled"@
    ||| t == "ParameterMutationRolledBack"@
    ||| t == "ParameterMutationRollbackFailed"@
}

/// The ten event types that the runtime itself emits.
pub open spec fn is_runtime_event_type(t: Seq<char>) -> bool {
    ||| t == "DataUpdated"@
    ||| t == "IntentEvaluated"@
    ||| t == "IntentTriggered"@
    ||| t == "AgentDecisionProduced"@
    ||| t == "RiskDecisionProduced"@
    ||| t == "ExecutionPlanned"@
    ||| t == "ExecutionFilled"@
    ||| t == "PortfolioUpdated"@
    ||| t == "RuntimeWarning"@
    ||| t == "RuntimeError"@
}

/// Event types that an envelope may carry.
pub open spec fn is_known_event_type(t: Seq<char>) -> bool {
    is_runtime_event_type(t) || is_governance_event_type(t)
}

/// The stage of an event type; unknown types fall in the system stage.
pub open spec fn stage_for(t: Seq<char>) -> RuntimeEventStage {
    if t == "DataUpdated"@ {
        RuntimeEventStage::Data
    } else if t == "IntentEvaluated"@ || t == "IntentTriggered"@ {
        RuntimeEventStage::Intent
    } else if t == "AgentDecisionProduced"@ {
        RuntimeEventStage::Agent
    } else if t == "RiskDecisionProduced"@ {
        RuntimeEventStage::Risk
    } else if t == "ExecutionPlanned"@ {
        RuntimeEventStage::Execution
    } else if t == "ExecutionFilled"@ || t == "PortfolioUpdated"@ {
        RuntimeEventStage::Fill
    } else {
        RuntimeEventStage::System
    }
}

/// The retention class of an event type: governance, execution, fill and risk events are
/// key evidence; data updates, warnings and errors are summarised; the rest is debug.
pub open spec fn retention_for(t: Seq<char>) -> RuntimeEventRetentionClass {
    if is_governance_event_type(t) {
        RuntimeEventRetentionClass::Key
    } else if t == "ExecutionPlanned"@ || t == "ExecutionFilled"@ || t == "PortfolioUpdated"@
        || t == "RiskDecisionProduced"@ {
        RuntimeEventRetentionClass::Key
    } else if t == "DataUpdated"@ || t == "RuntimeWarning"@ || t == "RuntimeError"@ {
        RuntimeEventRetentionClass::Summary
    } else {
        RuntimeEventRetentionClass::Debug
    }
}

/// Whether the event type is one of the system-governance types.
pub fn is_system_governance_event_type(t: &str) -> (r: bool)
    ensures
        r == is_governance_event_type(t@),
{
    str_eq(t, "CapabilitySnapshotTaken") || str_eq(t, "SecurityViolationDetected") || str_eq(
        t,
        "AIProposalCreated",
    ) || str_eq(t, "AIProposalDenied") || str_eq(t, "AIProposalStaticCheckPassed") || str_eq(
        t,
        "AIProposalStaticCheckFailed",
    ) || str_eq(t, "ParameterMutationProposed") || str_eq(t, "ParameterMutationRejected")
        || str_eq(t, "ParameterMutationActivationScheduled") || str_eq(
        t,
        "ParameterMutationActivated",
    ) || str_eq(t, "ParameterMutationActivationFailed") || str_eq(
        t,
        "ParameterMutationSafeWindowDenied",
    ) || str_eq(t, "ParameterMutationRollbackScheduled") || str_eq(
        t,
        "ParameterMutationRolledBack",
    ) || str_eq(t, "ParameterMutationRollbackFailed")
}

fn is_runtime_event_type_exec(t: &str) -> (r: bool)
    ensures
        r == is_runtime_event_type(t@),
{
    str_eq(t, "DataUpdated") || str_eq(t, "IntentEvaluated") || str_eq(t, "IntentTriggered")
        || str_eq(t, "AgentDecisionProduced") || str_eq(t, "RiskDecisionProduced") || str_eq(
        t,
        "ExecutionPlanned",
    ) || str_eq(t, "ExecutionFilled") || str_eq(t, "PortfolioUpdated") || str_eq(
        t,
        "RuntimeWarning",
    ) || str_eq(t, "RuntimeError")
}

/// Whether an envelope may carry this event type.
pub fn is_known_frontend_event_type(t: &str) -> (r: bool)
    ensures
        r == is_known_event_type(t@),
{
    is_runtime_event_type_exec(t) || is_system_governance_event_type(t)
}

/// The stage of an event type.
pub fn stage_for_frontend_event(t: &str) -> (r: RuntimeEventStage)
    ensures
        r == stage_for(t@),
{
    if str_eq(t, "DataUpdated") {
        RuntimeEventStage::Data
    } else if str_eq(t, "IntentEvaluated") || str_eq(t, "IntentTriggered") {
        RuntimeEventStage::Intent
    } else if str_eq(t, "AgentDecisionProduced") {
        RuntimeEventStage::Agent
    } else if str_eq(t, "RiskDecisionProduced") {
        RuntimeEventStage::Risk
    } else if str_eq(t, "ExecutionPlanned") {
        RuntimeEventStage::Execution
    } else if str_eq(t, "ExecutionFilled") || str_eq(t, "PortfolioUpdated") {
        RuntimeEventStage::Fill
    } else {
        RuntimeEventStage::System
    }
}

/// The retention class of an event type.
pub fn retention_class_for_frontend_event(t: &str) -> (r: RuntimeEventRetentionClass)
    ensures
        r == retention_for(t@),
{
    if is_system_governance_event_type(t) {
        RuntimeEventRetentionClass::Key
    } else if str_eq(t, "ExecutionPlanned") || str_eq(t, "ExecutionFilled") || str_eq(
        t,
        "PortfolioUpdated",
    ) || str_eq(t, "RiskDecisionProduced") {
        RuntimeEventRetentionClass::Key
    } else if str_eq(t, "DataUpdated") || str_eq(t, "RuntimeWarning") || str_eq(
        t,
        "RuntimeError",
    ) {
        RuntimeEventRetentionClass::Summary
    } else {
        RuntimeEventRetentionClass::Debug
    }
}

/// The reason code an envelope records: the payload's `reason_code` entry, or, when the
/// payload has none, its `status` entry; only a string value counts.
pub open spec fn payload_reason_code(p: Json) -> Option<Seq<char>> {
    match json_get(p, "reason_code"@) {
        Some(x) => json_as_str(x),
        None => json_get_str(p, "status"@),
    }
}

pub open spec fn opt_text(o: Option<String>) -> Option<Seq<char>> {
    match o {
        Some(s) => Some(s@),
        None => None,
    }
}

/// `env` is the envelope that attaching gives `ev` for this run, mode, governance and
/// sequence number.
pub open spec fn envelope_attached(
    env: RuntimeEventEnvelope,
    ev: FrontendRuntimeEvent,
    run_id: Seq<char>,
    mode: Seq<char>,
    gov: RuntimeGovernanceSnapshot,
    sequence_no: u64,
) -> bool {
    &&& env.event_id@ == ev.event_id@
    &&& env.event_type@ == ev.event_type@
    &&& env.stage == stage_for(ev.event_type@)
    &&& env.run_id@ == run_id
    &&& env.sequence_no == sequence_no
    &&& env.occurred_at_ms == ev.event_time_ms
    &&& env.ingested_at_ms == ev.event_time_ms
    &&& opt_text(env.trace_id) == json_get_str(ev.payload@, "trace_id"@)
    &&& env.module_key@ == ev.source_id@
    &&& env.strategy_version@ == gov.strategy_version@
    &&& env.parameter_version@ == gov.parameter_version@
    &&& env.deployment_revision@ == gov.deployment_revision@
    &&& env.capability_hash@ == gov.capability_hash@
    &&& env.mode@ == mode
    &&& env.severity@ == ev.severity@
    &&& env.retention_class == retention_for(ev.event_type@)
    &&& opt_text(env.reason_code) == payload_reason_code(ev.payload@)
    &&& env.payload_version == 1
}

/// Two events agree in everything but their envelopes.
pub open spec fn same_event_body(a: FrontendRuntimeEvent, b: FrontendRuntimeEvent) -> bool {
    &&& a.event_id == b.event_id
    &&& a.event_type == b.event_type
    &&& a.source_id == b.source_id
    &&& a.node_id == b.node_id
    &&& a.event_time_ms == b.event_time_ms
    &&& a.severity == b.severity
    &&& a.summary == b.summary
    &&& a.payload == b.payload
}

/// The reason code recorded for a payload.
fn payload_reason_code_exec(p: &JsonValue) -> (r: Option<String>)
    ensures
        opt_text(r) == payload_reason_code(p@),
{
    match json_get_exec(p, "reason_code") {
        Some(JsonValue::Str(s)) => Some(s.clone()),
        Some(_) => None,
        None => json_get_str_exec_opt(p, "status"),
    }
}

fn json_get_str_exec_opt(p: &JsonValue, key: &str) -> (r: Option<String>)
    ensures
        opt_text(r) == json_get_str(p@, key@),
{
    match json_get_exec(p, key) {
        Some(JsonValue::Str(s)) => Some(s.clone()),
        _ => None,
    }
}

/// Gives `event` the governed envelope for this run, mode, governance and sequence
/// number; the rest of the event is left as it was.
pub fn attach_runtime_event_envelope(
    event: &mut FrontendRuntimeEvent,
    run_id: &str,
    mode: &str,
    governance: &RuntimeGovernanceSnapshot,
    sequence_no: u64,
)
    ensures
        same_event_body(*final(event), *old(event)),
        envelope_attached(final(event).envelope, *old(event), run_id@, mode@, *governance, sequence_no),
{
    let env = RuntimeEventEnvelope {
        event_id: event.event_id.clone(),
        event_type: event.event_type.clone(),
        stage: stage_for_frontend_event(event.event_type.as_str()),
        run_id: owned(run_id),
        sequence_no,
        occurred_at_ms: event.event_time_ms,
        ingested_at_ms: event.event_time_ms,
        trace_id: json_get_str_exec_opt(&event.payload, "trace_id"),
        module_key: event.source_id.clone(),
        strategy_version: governance.strategy_version.clone(),
        parameter_version: governance.parameter_version.clone(),
        deployment_revision: governance.deployment_revision.clone(),
        capability_hash: governance.capability_hash.clone(),
        mode: owned(mode),
        severity: event.severity.clone(),
        retention_class: retention_class_for_frontend_event(event.event_type.as_str()),
        reason_code: payload_reason_code_exec(&event.payload),
        payload_version: 1,
    };
    event.envelope = env;
}

/// Every event of `after` is the corresponding event of `before` with the envelope for its
/// position (sequence number = position + 1).
pub open spec fn envelopes_attached(
    after: Seq<FrontendRuntimeEvent>,
    before: Seq<FrontendRuntimeEvent>,
    run_id: Seq<char>,
    mode: Seq<char>,
    gov: RuntimeGovernanceSnapshot,
) -> bool {
    &&& after.len() == before.len()
    &&& forall|i: int|
        0 <= i < after.len() ==> {
            &&& same_event_body(#[trigger] after[i], before[i])
            &&& envelope_attached(after[i].envelope, before[i], run_id, mode, gov, (i + 1) as u64)
        }
}

/// Attaches envelopes to all events, numbering them from 1 in order.
pub fn attach_runtime_event_envelopes(
    events: &mut Vec<FrontendRuntimeEvent>,
    run_id: &str,
    mode: &str,
    governance: &RuntimeGovernanceSnapshot,
)
    requires
        old(events)@.len() < u64::MAX,
    ensures
        envelopes_attached(final(events)@, old(events)@, run_id@, mode@, *governance),
{
    let ghost before = events@;
    let n = events.len();
    let mut i: usize = 0;
    while i < n
        invariant
            n == events@.len(),
            n == before.len(),
            n < u64::MAX,
            i <= n,
            forall|k: int|
                i <= k < n ==> #[trigger] events@[k] == before[k],
            forall|k: int|
                0 <= k < i ==> {
                    &&& same_event_body(#[trigger] events@[k], before[k])
                    &&& envelope_attached(events@[k].envelope, before[k], run_id@, mode@, *governance, (k + 1) as u64)
                },
        decreases n - i,
    {
        let mut ev = events.remove(i);
        attach_runtime_event_envelope(&mut ev, run_id, mode, governance, (i as u64) + 1);
        events.insert(i, ev);
        i += 1;
    }
}

/// Re-attaches envelopes, as done when stored envelopes fail validation.
pub fn repair_runtime_event_envelopes(
    events: &mut Vec<FrontendRuntimeEvent>,
    run_id: &str,
    mode: &str,
    governance: &RuntimeGovernanceSnapshot,
)
    requires
        old(events)@.len() < u64::MAX,
    ensures
        envelopes_attached(final(events)@, old(events)@, run_id@, mode@, *governance),
{
    attach_runtime_event_envelopes(events, run_id, mode, governance);
}

/// The checks of envelope validation, in the order they are made.
#[derive(Clone, Copy, PartialEq, Eq, Debug, Structural)]
pub enum EnvelopeProblem {
    EmptyEventId,
    EmptyEventType,
    UnknownEventType,
    EventIdMismatch,
    EventTypeMismatch,
    RunIdMismatch,
    SequenceMismatch,
    StageMismatch,
    RetentionMismatch,
    IncompleteGovernance,
    OccurredAtMismatch,
    CapabilityMismatch,
    DeploymentMismatch,
}

/// An envelope whose governance identity is incomplete.
pub open spec fn envelope_identity_incomplete(env: RuntimeEventEnvelope) -> bool {
    ||| is_blank(env.event_id@)
    ||| is_blank(env.run_id@)
    ||| is_blank(env.capability_hash@)
    ||| env.capability_hash@ == "unknown"@
    ||| is_blank(env.deployment_revision@)
    ||| env.deployment_revision@ == "unknown"@
    ||| is_blank(env.strategy_version@)
    ||| is_blank(env.parameter_version@)
    ||| is_blank(env.mode@)
}

/// The first check that `ev` fails, given the sequence number before it.
#[verifier::opaque]
pub open spec fn envelope_problem(
    ev: FrontendRuntimeEvent,
    previous: u64,
    run_id: Seq<char>,
    gov: RuntimeGovernanceSnapshot,
) -> Option<EnvelopeProblem> {
    let env = ev.envelope;
    if is_blank(ev.event_id@) {
        Some(EnvelopeProblem::EmptyEventId)
    } else if is_blank(ev.event_type@) {
        Some(EnvelopeProblem::EmptyEventType)
    } else if !is_known_event_type(ev.event_type@) {
        Some(EnvelopeProblem::UnknownEventType)
    } else if env.event_id@ != ev.event_id@ {
        Some(EnvelopeProblem::EventIdMismatch)
    } else if env.event_type@ != ev.event_type@ {
        Some(EnvelopeProblem::EventTypeMismatch)
    } else if env.run_id@ != run_id {
        Some(EnvelopeProblem::RunIdMismatch)
    } else if env.sequence_no as int != previous as int + 1 {
        Some(EnvelopeProblem::SequenceMismatch)
    } else if env.stage != stage_for(ev.event_type@) {
        Some(EnvelopeProblem::StageMismatch)
    } else if env.retention_class != retention_for(ev.event_type@) {
        Some(EnvelopeProblem::RetentionMismatch)
    } else if envelope_identity_incomplete(env) {
        Some(EnvelopeProblem::IncompleteGovernance)
    } else if env.occurred_at_ms != ev.event_time_ms {
        Some(EnvelopeProblem::OccurredAtMismatch)
    } else if env.capability_hash@ != gov.capability_hash@ {
        Some(EnvelopeProblem::CapabilityMismatch)
    } else if env.deployment_revision@ != gov.deployment_revision@ {
        Some(EnvelopeProblem::DeploymentMismatch)
    } else {
        None
    }
}

/// The message that reports a failed check.
#[verifier::opaque]
pub open spec fn envelope_problem_message(
    p: EnvelopeProblem,
    ev: FrontendRuntimeEvent,
    previous: u64,
    index: nat,
) -> Seq<char> {
    let id = ev.event_id@;
    let env = ev.envelope;
    match p {
        EnvelopeProblem::EmptyEventId => "索引 "@ + dec(index) + " 处的事件 event_id 为空"@,
        EnvelopeProblem::EmptyEventType => "事件 `"@ + id + "` 的 event_type 为空"@,
        EnvelopeProblem::UnknownEventType => "event `"@ + id + "` has unknown event_type `"@
            + ev.event_type@ + "`"@,
        EnvelopeProblem::EventIdMismatch => "event `"@ + id + "` envelope event_id mismatch: `"@
            + env.event_id@ + "`"@,
        EnvelopeProblem::EventTypeMismatch => "事件 `"@ + id + "` 的信封 event_type `"@
            + env.event_type@ + "` 不匹配"@,
        EnvelopeProblem::RunIdMismatch => "事件 `"@ + id + "` 的信封 run_id `"@ + env.run_id@
            + "` 不匹配"@,
        EnvelopeProblem::SequenceMismatch => "事件 `"@ + id + "` 的信封 sequence_no 为 "@
            + dec(env.sequence_no as nat) + "，期望 "@ + dec((previous + 1) as nat),
        EnvelopeProblem::StageMismatch => "事件 `"@ + id + "` 的信封 stage 与 event_type `"@
            + ev.event_type@ + "` 不匹配"@,
        EnvelopeProblem::RetentionMismatch => "事件 `"@ + id
            + "` 的信封 retention_class 与 event_type `"@ + ev.event_type@ + "` 不匹配"@,
        EnvelopeProblem::IncompleteGovernance => "事件 `"@ + id + "` 的信封治理身份不完整"@,
        EnvelopeProblem::OccurredAtMismatch => "事件 `"@ + id
            + "` 的信封 occurred_at_ms 与 event_time_ms 不匹配"@,
        EnvelopeProblem::CapabilityMismatch => "事件 `"@ + id
            + "` 的信封 capability_hash 与治理不匹配"@,
        EnvelopeProblem::DeploymentMismatch => "事件 `"@ + id
            + "` 的信封 deployment_revision 与治理不匹配"@,
    }
}

/// The sequence number that event `i` must follow: that of the event before it, or 0.
pub open spec fn previous_sequence(events: Seq<FrontendRuntimeEvent>, i: int) -> u64 {
    if i == 0 {
        0
    } else {
        events[i - 1].envelope.sequence_no
    }
}

/// All events pass every envelope check.
pub open spec fn envelopes_valid(
    events: Seq<FrontendRuntimeEvent>,
    run_id: Seq<char>,
    gov: RuntimeGovernanceSnapshot,
) -> bool {
    forall|i: int|
        0 <= i < events.len() ==> envelope_problem(
            #[trigger] events[i],
            previous_sequence(events, i),
            run_id,
            gov,
        ).is_none()
}

/// Event `i` is the first to fail a check, and `m` is the message of the check it fails.
pub open spec fn first_envelope_failure(
    events: Seq<FrontendRuntimeEvent>,
    run_id: Seq<char>,
    gov: RuntimeGovernanceSnapshot,
    i: int,
    m: Seq<char>,
) -> bool {
    &&& 0 <= i < events.len()
    &&& forall|k: int|
        0 <= k < i ==> envelope_problem(
            #[trigger] events[k],
            previous_sequence(events, k),
            run_id,
            gov,
        ).is_none()
    &&& match envelope_problem(events[i], previous_sequence(events, i), run_id, gov) {
        Some(p) => m == envelope_problem_message(p, events[i], previous_sequence(events, i), i as nat),
        None => false,
    }
}

/// `m` reports the first failing check of the first event that fails one.
pub open spec fn envelope_failure_message(
    events: Seq<FrontendRuntimeEvent>,
    run_id: Seq<char>,
    gov: RuntimeGovernanceSnapshot,
    m: Seq<char>,
) -> bool {
    exists|i: int| first_envelope_failure(events, run_id, gov, i, m)
}

fn quoted_message(id: &str, middle: &str, value: &str) -> (r: String)
    ensures
        r@ == "event `"@ + id@ + middle@ + value@ + "`"@,
{
    let mut s = cat3("event `", id, middle);
    s.append(value);
    s.append("`");
    s
}

/// `事件 `id` ... `value` ...`: a message that names the event and quotes one value.
fn event_message(id: &str, middle: &str, value: &str, tail: &str) -> (r: String)
    ensures
        r@ == "事件 `"@ + id@ + middle@ + value@ + tail@,
{
    let mut s = cat3("事件 `", id, middle);
    s.append(value);
    s.append(tail);
    s
}

/// Whether an envelope's governance identity is incomplete.
fn envelope_identity_incomplete_exec(env: &RuntimeEventEnvelope) -> (r: bool)
    ensures
        r == envelope_identity_incomplete(*env),
{
    is_blank_str(env.event_id.as_str()) || is_blank_str(env.run_id.as_str()) || is_blank_str(
        env.capability_hash.as_str(),
    ) || str_eq(env.capability_hash.as_str(), "unknown") || is_blank_str(
        env.deployment_revision.as_str(),
    ) || str_eq(env.deployment_revision.as_str(), "unknown") || is_blank_str(
        env.strategy_version.as_str(),
    ) || is_blank_str(env.parameter_version.as_str()) || is_blank_str(env.mode.as_str())
}

/// The first check that one event fails, with its message.
fn check_envelope(
    ev: &FrontendRuntimeEvent,
    previous: u64,
    run_id: &str,
    gov: &RuntimeGovernanceSnapshot,
    index: usize,
) -> (r: Option<String>)
    ensures
        r is None ==> !is_blank(ev.event_id@) && !is_blank(ev.event_type@)
            && is_known_event_type(ev.event_type@)
            && ev.envelope.event_id@ == ev.event_id@ && ev.envelope.event_type@ == ev.event_type@
            && ev.envelope.run_id@ == run_id@ && ev.envelope.sequence_no == previous + 1
            && ev.envelope.stage == stage_for(ev.event_type@)
            && ev.envelope.retention_class == retention_for(ev.event_type@)
            && ev.envelope.occurred_at_ms == ev.event_time_ms
            && ev.envelope.capability_hash@ == gov.capability_hash@
            && ev.envelope.deployment_revision@ == gov.deployment_revision@,
        match r {
            None => envelope_problem(*ev, previous, run_id@, *gov).is_none(),
            Some(m) => match envelope_problem(*ev, previous, run_id@, *gov) {
                Some(p) => m@ == envelope_problem_message(p, *ev, previous, index as nat),
                None => false,
            },
        },
{
    reveal(envelope_problem);
    reveal(envelope_problem_message);
    let env = &ev.envelope;
    let id = ev.event_id.as_str();
    if is_blank_str(id) {
        return Some(cat3("索引 ", u64_text(index as u64).as_str(), " 处的事件 event_id 为空"));
    }
    if is_blank_str(ev.event_type.as_str()) {
        return Some(cat3("事件 `", id, "` 的 event_type 为空"));
    }
    if !is_known_frontend_event_type(ev.event_type.as_str()) {
        return Some(quoted_message(id, "` has unknown event_type `", ev.event_type.as_str()));
    }
    if !str_eq(env.event_id.as_str(), id) {
        return Some(quoted_message(id, "` envelope event_id mismatch: `", env.event_id.as_str()));
    }
    if !str_eq(env.event_type.as_str(), ev.event_type.as_str()) {
        return Some(event_message(id, "` 的信封 event_type `", env.event_type.as_str(), "` 不匹配"));
    }
    if !str_eq(env.run_id.as_str(), run_id) {
        return Some(event_message(id, "` 的信封 run_id `", env.run_id.as_str(), "` 不匹配"));
    }
    if previous == u64::MAX || env.sequence_no != previous + 1 {
        let mut s = cat3("事件 `", id, "` 的信封 sequence_no 为 ");
        s.append(u64_text(env.sequence_no).as_str());
        s.append("，期望 ");
        s.append(u128_text((previous as u128) + 1).as_str());
        return Some(s);
    }
    if env.stage != stage_for_frontend_event(ev.event_type.as_str()) {
        return Some(
            event_message(id, "` 的信封 stage 与 event_type `", ev.event_type.as_str(), "` 不匹配"),
        );
    }
    if env.retention_class != retention_class_for_frontend_event(ev.event_type.as_str()) {
        return Some(
            event_message(
                id,
                "` 的信封 retention_class 与 event_type `",
                ev.event_type.as_str(),
                "` 不匹配",
            ),
        );
    }
    if envelope_identity_incomplete_exec(env) {
        return Some(cat3("事件 `", id, "` 的信封治理身份不完整"));
    }
    if env.occurred_at_ms != ev.event_time_ms {
        return Some(cat3("事件 `", id, "` 的信封 occurred_at_ms 与 event_time_ms 不匹配"));
    }
    if !str_eq(env.capability_hash.as_str(), gov.capability_hash.as_str()) {
        return Some(cat3("事件 `", id, "` 的信封 capability_hash 与治理不匹配"));
    }
    if !str_eq(env.deployment_revision.as_str(), gov.deployment_revision.as_str()) {
        return Some(cat3("事件 `", id, "` 的信封 deployment_revision 与治理不匹配"));
    }
    None
}

proof fn lemma_valid_sequence(events: Seq<FrontendRuntimeEvent>, run_id: Seq<char>, gov: RuntimeGovernanceSnapshot, i: int)
    requires
        envelopes_valid(events, run_id, gov),
        0 <= i < events.len(),
    ensures
        events[i].envelope.sequence_no == i + 1,
    decreases i,
{
    reveal(envelope_problem);
    assert(envelope_problem(events[i], previous_sequence(events, i), run_id, gov).is_none());
    if i > 0 {
        lemma_valid_sequence(events, run_id, gov, i - 1);
    }
}

/// Envelopes that validate carry each event's own id and type, the run's id, sequence
/// numbers 1, 2, 3, ... in order, the stage and retention class of the event's type, the
/// event's time, and the run's capability hash and deployment revision.
pub proof fn lemma_valid_envelope_fields(events: Seq<FrontendRuntimeEvent>, run_id: Seq<char>, gov: RuntimeGovernanceSnapshot)
    requires
        envelopes_valid(events, run_id, gov),
    ensures
        forall|i: int|
            #![trigger events[i]]
            0 <= i < events.len() ==> !is_blank(events[i].event_id@) && !is_blank(events[i].event_type@)
            && is_known_event_type(events[i].event_type@)
            && events[i].envelope.event_id@ == events[i].event_id@ && events[i].envelope.event_type@ == events[i].event_type@
            && events[i].envelope.run_id@ == run_id && events[i].envelope.sequence_no == i + 1
            && events[i].envelope.stage == stage_for(events[i].event_type@)
            && events[i].envelope.retention_class == retention_for(events[i].event_type@)
            && events[i].envelope.occurred_at_ms == events[i].event_time_ms
            && events[i].envelope.capability_hash@ == gov.capability_hash@
            && events[i].envelope.deployment_revision@ == gov.deployment_revision@,
{
    reveal(envelope_problem);
    assert forall|i: int| #![trigger events[i]] 0 <= i < events.len() implies !is_blank(events[i].event_id@) && !is_blank(events[i].event_type@)
            && is_known_event_type(events[i].event_type@)
            && events[i].envelope.event_id@ == events[i].event_id@ && events[i].envelope.event_type@ == events[i].event_type@
            && events[i].envelope.run_id@ == run_id && events[i].envelope.sequence_no == i + 1
            && events[i].envelope.stage == stage_for(events[i].event_type@)
            && events[i].envelope.retention_class == retention_for(events[i].event_type@)
            && events[i].envelope.occurred_at_ms == events[i].event_time_ms
            && events[i].envelope.capability_hash@ == gov.capability_hash@
            && events[i].envelope.deployment_revision@ == gov.deployment_revision@ by {
        assert(envelope_problem(events[i], previous_sequence(events, i), run_id, gov).is_none());
        lemma_valid_sequence(events, run_id, gov, i);
    }
}

#[verifier::rlimit(60)]
/// Checks the envelopes of a run's events: ids, known types, run, consecutive sequence
/// numbers from 1, stage and retention, a complete governance identity that matches the
/// run's. The error names the first event and check that fail.
pub fn validate_runtime_event_envelopes(
    events: &Vec<FrontendRuntimeEvent>,
    run_id: &str,
    governance: &RuntimeGovernanceSnapshot,
) -> (r: Result<(), String>)
    ensures
        r.is_ok() == envelopes_valid(events@, run_id@, *governance),
        r is Err ==> envelope_failure_message(events@, run_id@, *governance, r->Err_0@),
        r is Ok ==> forall|i: int|
            #![trigger events@[i]]
            0 <= i < events@.len() ==> !is_blank(events@[i].event_id@) && !is_blank(events@[i].event_type@)
            && is_known_event_type(events@[i].event_type@)
            && events@[i].envelope.event_id@ == events@[i].event_id@ && events@[i].envelope.event_type@ == events@[i].event_type@
            && events@[i].envelope.run_id@ == run_id@ && events@[i].envelope.sequence_no == i + 1
            && events@[i].envelope.stage == stage_for(events@[i].event_type@)
            && events@[i].envelope.retention_class == retention_for(events@[i].event_type@)
            && events@[i].envelope.occurred_at_ms == events@[i].event_time_ms
            && events@[i].envelope.capability_hash@ == governance.capability_hash@
            && events@[i].envelope.deployment_revision@ == governance.deployment_revision@,
{
    let mut previous: u64 = 0;
    let mut i: usize = 0;
    while i < events.len()
        invariant
            i <= events@.len(),
            previous == previous_sequence(events@, i as int),
            forall|k: int|
                0 <= k < i ==> envelope_problem(
                    #[trigger] events@[k],
                    previous_sequence(events@, k),
                    run_id@,
                    *governance,
                ).is_none(),
        decreases events@.len() - i,
    {
        match check_envelope(&events[i], previous, run_id, governance, i) {
            Some(m) => {
                assert(first_envelope_failure(events@, run_id@, *governance, i as int, m@));
                assert(envelope_failure_message(events@, run_id@, *governance, m@));
                assert(!envelopes_valid(events@, run_id@, *governance)) by {
                    assert(envelope_problem(
                        events@[i as int],
                        previous_sequence(events@, i as int),
                        run_id@,
                        *governance,
                    ).is_some());
                }
                return Err(m);
            },
            None => {},
        }
        previous = events[i].envelope.sequence_no;
        i += 1;
    }
    proof {
        lemma_valid_envelope_fields(events@, run_id@, *governance);
    }
    Ok(())
}

} // verus!

verus! {

/// A governance identity with every field that envelope validation checks set.
pub open spec fn governance_complete(gov: RuntimeGovernanceSnapshot) -> bool {
    &&& !is_blank(gov.capability_hash@)
    &&& gov.capability_hash@ != "unknown"@
    &&& !is_blank(gov.deployment_revision@)
    &&& gov.deployment_revision@ != "unknown"@
    &&& !is_blank(gov.strategy_version@)
    &&& !is_blank(gov.parameter_version@)
}

/// Attaching envelopes, under a set run id and mode and a complete governance identity,
/// to events whose ids and types are set and whose types are known, gives events that
/// pass envelope validation for that run and governance.
pub proof fn lemma_attached_envelopes_validate(
    after: Seq<FrontendRuntimeEvent>,
    before: Seq<FrontendRuntimeEvent>,
    run_id: Seq<char>,
    mode: Seq<char>,
    gov: RuntimeGovernanceSnapshot,
)
    requires
        envelopes_attached(after, before, run_id, mode, gov),
        before.len() < u64::MAX,
        forall|i: int|
            0 <= i < before.len() ==> {
                &&& !is_blank(#[trigger] before[i].event_id@)
                &&& !is_blank(before[i].event_type@)
                &&& is_known_event_type(before[i].event_type@)
            },
        !is_blank(run_id),
        !is_blank(mode),
        governance_complete(gov),
    ensures
        envelopes_valid(after, run_id, gov),
{
    reveal(envelope_problem);
    assert forall|i: int| 0 <= i < after.len() implies envelope_problem(
        #[trigger] after[i],
        previous_sequence(after, i),
        run_id,
        gov,
    ).is_none() by {
        let ev = after[i];
        assert(same_event_body(ev, before[i]));
        assert(!is_blank(before[i].event_id@));
        if i > 0 {
            assert(same_event_body(after[i - 1], before[i - 1]));
            assert(envelope_attached(after[i - 1].envelope, before[i - 1], run_id, mode, gov, i as u64));
        }
        assert(previous_sequence(after, i) as int == i);
    }
}

} // verus!

verus! {

/// Appends an entry to an object's entry list.
pub fn push_entry(entries: &mut Vec<(String, JsonValue)>, key: &str, value: JsonValue)
    ensures
        crate::json::entries_model(final(entries)@) == crate::json::entries_model(old(entries)@).push((key@, value@)),
{
    let ghost pre = entries@;
    entries.push((owned(key), value));
    assert(entries@.drop_last() =~= pre);
}

/// The JSON form of an actor.
pub fn actor_json(actor: &ActorIdentity) -> (r: JsonValue)
    ensures
        r@ == Json::Object(seq![("actor_id"@, Json::Str(actor.actor_id@)), ("display_name"@, Json::Str(actor.display_name@))]),
{
    let mut e: Vec<(String, JsonValue)> = Vec::new();
    push_entry(&mut e, "actor_id", crate::json::json_str(actor.actor_id.as_str()));
    push_entry(&mut e, "display_name", crate::json::json_str(actor.display_name.as_str()));
    assert(crate::json::entries_model(e@) =~= seq![("actor_id"@, Json::Str(actor.actor_id@)), ("display_name"@, Json::Str(actor.display_name@))]);
    JsonValue::Object(e)
}

pub open spec fn actor_model(actor: Option<&ActorIdentity>) -> Json {
    match actor {
        Some(a) => Json::Object(seq![("actor_id"@, Json::Str(a.actor_id@)), ("display_name"@, Json::Str(a.display_name@))]),
        None => Json::Null,
    }
}

/// The event recorded when a security policy denies an action: a key, system-stage
/// `SecurityViolationDetected` event at error severity whose payload names the actor,
/// the action, the policy, the module and the reason, with its envelope attached for
/// the record in paper mode as the first event.
pub fn security_violation_detected_event(
    record_id: &str,
    occurred_at_ms: u64,
    actor: Option<&ActorIdentity>,
    attempted_action: &str,
    denied_policy: &str,
    module_key: &str,
    reason_code: &str,
    governance: &RuntimeGovernanceSnapshot,
) -> (r: FrontendRuntimeEvent)
    ensures
        r.event_id@ == record_id@ + "_security_violation_"@ + dec(occurred_at_ms as nat),
        r.event_type@ == "SecurityViolationDetected"@,
        r.source_id@ == module_key@,
        r.node_id@ == "runtime"@,
        r.event_time_ms == occurred_at_ms,
        r.severity@ == "Error"@,
        r.summary@ == "Security policy denied `"@ + attempted_action@ + "`"@,
        r.payload@ == Json::Object(seq![
            ("actor"@, actor_model(actor)),
            ("attempted_action"@, Json::Str(attempted_action@)),
            ("denied_policy"@, Json::Str(denied_policy@)),
            ("module_key"@, Json::Str(module_key@)),
            ("reason_code"@, Json::Str(reason_code@)),
            ("trace_id"@, Json::Str(r.event_id@ + "_trace"@)),
        ]),
        envelope_attached(r.envelope, r, record_id@, "paper"@, *governance, 1),
{
    let event_id = cat3(record_id, "_security_violation_", u64_text(occurred_at_ms).as_str());
    let trace = crate::text::cat(event_id.as_str(), "_trace");
    let actor_value = match actor {
        Some(a) => actor_json(a),
        None => JsonValue::Null,
    };
    let mut e: Vec<(String, JsonValue)> = Vec::new();
    push_entry(&mut e, "actor", actor_value);
    push_entry(&mut e, "attempted_action", crate::json::json_str(attempted_action));
    push_entry(&mut e, "denied_policy", crate::json::json_str(denied_policy));
    push_entry(&mut e, "module_key", crate::json::json_str(module_key));
    push_entry(&mut e, "reason_code", crate::json::json_str(reason_code));
    push_entry(&mut e, "trace_id", JsonValue::Str(trace));
    let ghost entries = crate::json::entries_model(e@);
    assert(entries =~= seq![
            ("actor"@, actor_model(actor)),
            ("attempted_action"@, Json::Str(attempted_action@)),
            ("denied_policy"@, Json::Str(denied_policy@)),
            ("module_key"@, Json::Str(module_key@)),
            ("reason_code"@, Json::Str(reason_code@)),
            ("trace_id"@, Json::Str(event_id@ + "_trace"@)),
        ]);
    let mut event = FrontendRuntimeEvent {
        event_id,
        event_type: owned("SecurityViolationDetected"),
        source_id: owned(module_key),
        node_id: owned("runtime"),
        event_time_ms: occurred_at_ms,
        severity: owned("Error"),
        summary: cat3("Security policy denied `", attempted_action, "`"),
        payload: JsonValue::Object(e),
        envelope: RuntimeEventEnvelope::empty(),
    };
    attach_runtime_event_envelope(&mut event, record_id, "paper", governance, 1);
    event
}

} // verus!
