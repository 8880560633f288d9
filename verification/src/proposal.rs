//! AI parameter proposals: their statuses, the identities they carry, and the
//! static check a candidate must pass before anyone may approve it.
use vstd::prelude::*;
use crate::error::{bad_request, is_bad_request, ApiError};
use crate::events::ActorIdentity;
use crate::json::JsonValue;
use crate::mutation::{RuntimeEvidenceSourceKind, RuntimeParameterMutationTarget};
use crate::text::{
    ascii_lower, ascii_lower_char, ascii_lower_seq, cat, cat3, chars_of, contains_seq, contains_str,
    is_blank, is_blank_str, owned, starts_with_str, str_eq, to_ascii_lower, trim, trim_str,
};

verus! {

broadcast use vstd::std_specs::vec::group_vec_axioms;

/// Where an AI proposal stands.
#[derive(Clone, Copy, PartialEq, Eq, Debug, Structural)]
pub enum RuntimeAiProposalStatus {
    Draft,
    Submitted,
    StaticCheckPassed,
    StaticCheckFailed,
    Approved,
    Denied,
    Expired,
}

/// The part of a strategy's configuration that a proposal changes.
#[derive(Clone, Copy, PartialEq, Eq, Debug, Structural)]
pub enum StrategyConfigProposalDomain {
    Market,
    Risk,
    Execution,
    StateMachine,
    Observation,
    AiGovernance,
}

/// The model that produced a proposal.
#[derive(Clone, Debug)]
pub struct RuntimeAiModelIdentity {
    pub provider: String,
    pub model: String,
    pub model_version: String,
}

/// What a proposal declares about the configuration it changes.
#[derive(Clone, Debug)]
pub struct RuntimeAiProposalConfigDomainBinding {
    pub target_domain: StrategyConfigProposalDomain,
    pub before_digest: String,
    pub after_digest: String,
    pub evidence_anchor_ids: Vec<String>,
}

/// A request to record an AI proposal candidate.
#[derive(Clone, Debug)]
pub struct CreateRuntimeAiProposalRequest {
    pub source_kind: RuntimeEvidenceSourceKind,
    pub source_id: String,
    pub target: RuntimeParameterMutationTarget,
    pub old_value: JsonValue,
    pub new_value: JsonValue,
    pub model: RuntimeAiModelIdentity,
    pub prompt_hash: String,
    pub evidence_hash: String,
    pub actor: Option<ActorIdentity>,
    pub reason: String,
    pub config_domain_binding: Option<RuntimeAiProposalConfigDomainBinding>,
}

/// One finding of the static check.
#[derive(Clone, Debug)]
pub struct RuntimeAiProposalStaticCheckDetail {
    pub code: String,
    pub target: String,
    pub message: String,
}

/// The outcome of the static check.
#[derive(Clone, Debug)]
pub struct RuntimeAiProposalStaticCheckResult {
    pub status: RuntimeAiProposalStatus,
    pub reason_code: String,
    pub message: String,
    pub checked_at_ms: u64,
    pub details: Vec<RuntimeAiProposalStaticCheckDetail>,
}

/// The status a proposal takes once it is approved.
pub fn ai_proposal_approved_status() -> (r: RuntimeAiProposalStatus)
    ensures
        r == RuntimeAiProposalStatus::Approved,
{
    RuntimeAiProposalStatus::Approved
}

pub open spec fn valid_transition(current: RuntimeAiProposalStatus, next: RuntimeAiProposalStatus) -> bool {
    ||| (current == RuntimeAiProposalStatus::Submitted && (next == RuntimeAiProposalStatus::StaticCheckPassed
        || next == RuntimeAiProposalStatus::StaticCheckFailed))
    ||| (current == RuntimeAiProposalStatus::StaticCheckPassed && (next == RuntimeAiProposalStatus::Approved
        || next == RuntimeAiProposalStatus::Denied || next == RuntimeAiProposalStatus::Expired))
}

/// Whether a proposal may move from `current` to `next`: a submitted candidate is
/// checked, and only a candidate that passed the check is approved, denied or expires.
pub fn is_valid_ai_proposal_transition(current: RuntimeAiProposalStatus, next: RuntimeAiProposalStatus) -> (r: bool)
    ensures
        r == valid_transition(current, next),
{
    match current {
        RuntimeAiProposalStatus::Submitted => match next {
            RuntimeAiProposalStatus::StaticCheckPassed | RuntimeAiProposalStatus::StaticCheckFailed => true,
            _ => false,
        },
        RuntimeAiProposalStatus::StaticCheckPassed => match next {
            RuntimeAiProposalStatus::Approved | RuntimeAiProposalStatus::Denied
            | RuntimeAiProposalStatus::Expired => true,
            _ => false,
        },
        _ => false,
    }
}

/// How far along its life a proposal is.
pub open spec fn status_rank(s: RuntimeAiProposalStatus) -> int {
    match s {
        RuntimeAiProposalStatus::Draft => 0,
        RuntimeAiProposalStatus::Submitted => 1,
        RuntimeAiProposalStatus::StaticCheckPassed => 2,
        RuntimeAiProposalStatus::StaticCheckFailed => 2,
        _ => 3,
    }
}

/// Every allowed transition moves exactly one step forward, so no status is ever
/// reached twice.
pub proof fn lemma_transition_moves_forward(current: RuntimeAiProposalStatus, next: RuntimeAiProposalStatus)
    requires
        valid_transition(current, next),
    ensures
        status_rank(next) == status_rank(current) + 1,
        current != next,
{
}

/// A proposal is approved only straight after it passed the static check.
pub proof fn lemma_approval_requires_passed_check(current: RuntimeAiProposalStatus)
    requires
        valid_transition(current, RuntimeAiProposalStatus::Approved),
    ensures
        current == RuntimeAiProposalStatus::StaticCheckPassed,
{
}

/// Failed, approved, denied and expired proposals, and drafts, go nowhere.
pub proof fn lemma_final_statuses_have_no_successor(current: RuntimeAiProposalStatus, next: RuntimeAiProposalStatus)
    requires
        current != RuntimeAiProposalStatus::Submitted,
        current != RuntimeAiProposalStatus::StaticCheckPassed,
    ensures
        !valid_transition(current, next),
{
}

pub open spec fn proposal_event_type(s: RuntimeAiProposalStatus) -> Seq<char> {
    match s {
        RuntimeAiProposalStatus::Submitted => "AIProposalCreated"@,
        RuntimeAiProposalStatus::Draft => "AIProposalCreated"@,
        RuntimeAiProposalStatus::Denied => "AIProposalDenied"@,
        RuntimeAiProposalStatus::StaticCheckPassed => "AIProposalStaticCheckPassed"@,
        RuntimeAiProposalStatus::StaticCheckFailed => "AIProposalStaticCheckFailed"@,
        RuntimeAiProposalStatus::Expired => "AIProposalDenied"@,
        RuntimeAiProposalStatus::Approved => "AIProposalApproved"@,
    }
}

pub open spec fn proposal_reason_code(s: RuntimeAiProposalStatus) -> Seq<char> {
    match s {
        RuntimeAiProposalStatus::Submitted => "AI_PROPOSAL_CREATED"@,
        RuntimeAiProposalStatus::Draft => "AI_PROPOSAL_CREATED"@,
        RuntimeAiProposalStatus::Denied => "AI_PROPOSAL_DENIED"@,
        RuntimeAiProposalStatus::StaticCheckPassed => "AI_PROPOSAL_STATIC_CHECK_PASSED"@,
        RuntimeAiProposalStatus::StaticCheckFailed => "AI_PROPOSAL_STATIC_CHECK_FAILED"@,
        RuntimeAiProposalStatus::Expired => "AI_PROPOSAL_EXPIRED"@,
        RuntimeAiProposalStatus::Approved => "AI_PROPOSAL_APPROVED"@,
    }
}

/// The event type and reason code recorded for a proposal status.
pub fn ai_proposal_event_contract(status: RuntimeAiProposalStatus) -> (r: (&'static str, &'static str))
    ensures
        r.0@ == proposal_event_type(status),
        r.1@ == proposal_reason_code(status),
{
    let r = match status {
        RuntimeAiProposalStatus::Submitted | RuntimeAiProposalStatus::Draft => ("AIProposalCreated", "AI_PROPOSAL_CREATED"),
        RuntimeAiProposalStatus::Denied => ("AIProposalDenied", "AI_PROPOSAL_DENIED"),
        RuntimeAiProposalStatus::StaticCheckPassed => ("AIProposalStaticCheckPassed", "AI_PROPOSAL_STATIC_CHECK_PASSED"),
        RuntimeAiProposalStatus::StaticCheckFailed => ("AIProposalStaticCheckFailed", "AI_PROPOSAL_STATIC_CHECK_FAILED"),
        RuntimeAiProposalStatus::Expired => ("AIProposalDenied", "AI_PROPOSAL_EXPIRED"),
        RuntimeAiProposalStatus::Approved => ("AIProposalApproved", "AI_PROPOSAL_APPROVED"),
    };
    r
}

pub open spec fn is_lower_hex(c: char) -> bool {
    ('0' <= c && c <= '9') || ('a' <= c && c <= 'f')
}

/// `sha256:` followed by 64 lower-case hexadecimal digits, once surrounding whitespace
/// is trimmed.
pub open spec fn hash_identity_valid(v: Seq<char>) -> bool {
    let t = trim(v);
    &&& "sha256:"@.is_prefix_of(t)
    &&& t.len() == 71
    &&& forall|k: int| 7 <= k < 71 ==> is_lower_hex(#[trigger] t[k])
}

/// Whether a text is a well-formed content hash.
pub fn is_valid_hash_identity(value: &str) -> (r: bool)
    ensures
        r == hash_identity_valid(value@),
{
    let t = trim_str(value);
    proof {
        reveal_strlit("sha256:");
    }
    if !starts_with_str(t, "sha256:") {
        return false;
    }
    let n = t.unicode_len();
    if n != 71 {
        return false;
    }
    let mut k: usize = 7;
    while k < 71
        invariant
            n == t@.len(),
            n == 71,
            t@ == trim(value@),
            "sha256:"@.is_prefix_of(t@),
            7 <= k <= 71,
            forall|j: int| 7 <= j < k ==> is_lower_hex(#[trigger] t@[j]),
        decreases 71 - k,
    {
        let c = t.get_char(k);
        if !(('0' <= c && c <= '9') || ('a' <= c && c <= 'f')) {
            assert(!is_lower_hex(t@[k as int]));
            return false;
        }
        k += 1;
    }
    true
}

pub open spec fn hash_identity_message(target: Seq<char>, label: Seq<char>) -> Seq<char> {
    target + " 必须为 sha256:<64位小写十六进制> 格式 ("@ + label + ")"@
}

/// Refuses a malformed content hash, naming the field and what it identifies.
pub fn validate_hash_identity(value: &str, target: &str, label: &str) -> (r: Result<(), ApiError>)
    ensures
        r.is_ok() == hash_identity_valid(value@),
        r matches Err(e) ==> is_bad_request(e, "bad_request"@, hash_identity_message(target@, label@)),
{
    if is_valid_hash_identity(value) {
        Ok(())
    } else {
        let mut m = cat(target, " 必须为 sha256:<64位小写十六进制> 格式 (");
        m.append(label);
        m.append(")");
        Err(bad_request("bad_request", m))
    }
}

/// The first field of a model identity that is blank, as the refusal names it.
pub open spec fn model_identity_problem(model: RuntimeAiModelIdentity) -> Option<Seq<char>> {
    if is_blank(model.provider@) {
        Some("AI 提案候选必须指定 model.provider"@)
    } else if is_blank(model.model@) {
        Some("AI 提案候选必须指定 model.model"@)
    } else if is_blank(model.model_version@) {
        Some("AI 提案候选必须指定 model.model_version"@)
    } else {
        None
    }
}

/// Refuses a model identity with a blank provider, model or version.
pub fn validate_ai_model_identity(model: &RuntimeAiModelIdentity) -> (r: Result<(), ApiError>)
    ensures
        r.is_ok() == (model_identity_problem(*model) is None),
        r matches Err(e) ==> (model_identity_problem(*model) matches Some(m) && is_bad_request(e, "bad_request"@, m)),
{
    if is_blank_str(model.provider.as_str()) {
        return Err(bad_request("bad_request", owned("AI 提案候选必须指定 model.provider")));
    }
    if is_blank_str(model.model.as_str()) {
        return Err(bad_request("bad_request", owned("AI 提案候选必须指定 model.model")));
    }
    if is_blank_str(model.model_version.as_str()) {
        return Err(bad_request("bad_request", owned("AI 提案候选必须指定 model.model_version")));
    }
    Ok(())
}


/// A static-check finding as plain texts: code, target field, message.
pub open spec fn detail_view(d: RuntimeAiProposalStaticCheckDetail) -> (Seq<char>, Seq<char>, Seq<char>) {
    (d.code@, d.target@, d.message@)
}

pub open spec fn details_view(ds: Seq<RuntimeAiProposalStaticCheckDetail>) -> Seq<(Seq<char>, Seq<char>, Seq<char>)> {
    ds.map_values(|d: RuntimeAiProposalStaticCheckDetail| detail_view(d))
}

/// `d` as a finding when `c` holds, else nothing.
pub open spec fn finding_if(c: bool, d: (Seq<char>, Seq<char>, Seq<char>)) -> Seq<(Seq<char>, Seq<char>, Seq<char>)> {
    if c {
        seq![d]
    } else {
        seq![]
    }
}

fn detail(code: &str, target: &str, message: &str) -> (r: RuntimeAiProposalStaticCheckDetail)
    ensures
        detail_view(r) == (code@, target@, message@),
{
    RuntimeAiProposalStaticCheckDetail { code: owned(code), target: owned(target), message: owned(message) }
}

fn push_detail(details: &mut Vec<RuntimeAiProposalStaticCheckDetail>, d: RuntimeAiProposalStaticCheckDetail)
    ensures
        details_view(final(details)@) == details_view(old(details)@).push(detail_view(d)),
{
    let ghost before = details@;
    details.push(d);
    assert(details_view(details@) =~= details_view(before).push(detail_view(d)));
}

/// A target in the v4 machine family, by module key or parameter path.
pub open spec fn is_v4_target(t: RuntimeParameterMutationTarget) -> bool {
    "v4."@.is_prefix_of(t.module_key@) || "v4."@.is_prefix_of(t.parameter_path@)
}

pub fn is_v4_ai_proposal_target(target: &RuntimeParameterMutationTarget) -> (r: bool)
    ensures
        r == is_v4_target(*target),
{
    starts_with_str(target.module_key.as_str(), "v4.") || starts_with_str(target.parameter_path.as_str(), "v4.")
}

pub open spec fn is_v4_guard_target(t: RuntimeParameterMutationTarget) -> bool {
    t.module_key@ == "v4.transition.guard"@
}

pub fn is_v4_guard_proposal_target(target: &RuntimeParameterMutationTarget) -> (r: bool)
    ensures
        r == is_v4_guard_target(*target),
{
    str_eq(target.module_key.as_str(), "v4.transition.guard")
}

/// The configuration domain that a module's parameters belong to.
pub open spec fn expected_domain(t: RuntimeParameterMutationTarget) -> StrategyConfigProposalDomain {
    let k = t.module_key@;
    if k == "builtin.data.kline"@ || k == "builtin.data.quote"@ {
        StrategyConfigProposalDomain::Market
    } else if k == "builtin.risk.global"@ {
        StrategyConfigProposalDomain::Risk
    } else if k == "builtin.execution.paper"@ || k == "builtin.runtime.control"@ {
        StrategyConfigProposalDomain::Execution
    } else if k == "v4.machine.param"@ || k == "v4.transition.guard"@ {
        StrategyConfigProposalDomain::StateMachine
    } else if "builtin.intent."@.is_prefix_of(k) || "builtin.agent."@.is_prefix_of(k) {
        StrategyConfigProposalDomain::Observation
    } else {
        StrategyConfigProposalDomain::AiGovernance
    }
}

pub fn expected_config_domain_for_target(target: &RuntimeParameterMutationTarget) -> (r: StrategyConfigProposalDomain)
    ensures
        r == expected_domain(*target),
{
    let k = target.module_key.as_str();
    if str_eq(k, "builtin.data.kline") || str_eq(k, "builtin.data.quote") {
        StrategyConfigProposalDomain::Market
    } else if str_eq(k, "builtin.risk.global") {
        StrategyConfigProposalDomain::Risk
    } else if str_eq(k, "builtin.execution.paper") || str_eq(k, "builtin.runtime.control") {
        StrategyConfigProposalDomain::Execution
    } else if str_eq(k, "v4.machine.param") || str_eq(k, "v4.transition.guard") {
        StrategyConfigProposalDomain::StateMachine
    } else if starts_with_str(k, "builtin.intent.") || starts_with_str(k, "builtin.agent.") {
        StrategyConfigProposalDomain::Observation
    } else {
        StrategyConfigProposalDomain::AiGovernance
    }
}

pub open spec fn domain_name(d: StrategyConfigProposalDomain) -> Seq<char> {
    match d {
        StrategyConfigProposalDomain::Market => "Market"@,
        StrategyConfigProposalDomain::Risk => "Risk"@,
        StrategyConfigProposalDomain::Execution => "Execution"@,
        StrategyConfigProposalDomain::StateMachine => "StateMachine"@,
        StrategyConfigProposalDomain::Observation => "Observation"@,
        StrategyConfigProposalDomain::AiGovernance => "AiGovernance"@,
    }
}

/// The variant's name, as `{:?}` writes it.
pub fn domain_debug_name(d: StrategyConfigProposalDomain) -> (r: &'static str)
    ensures
        r@ == domain_name(d),
{
    match d {
        StrategyConfigProposalDomain::Market => "Market",
        StrategyConfigProposalDomain::Risk => "Risk",
        StrategyConfigProposalDomain::Execution => "Execution",
        StrategyConfigProposalDomain::StateMachine => "StateMachine",
        StrategyConfigProposalDomain::Observation => "Observation",
        StrategyConfigProposalDomain::AiGovernance => "AiGovernance",
    }
}

/// An anchor that points at a productization replay diff.
pub open spec fn productization_anchor(a: Seq<char>) -> bool {
    let l = ascii_lower_seq(a);
    contains_seq(l, "productization"@) || contains_seq(l, "replay_diff"@)
}

/// An anchor that points at a verified runtime replay runner.
pub open spec fn runner_verified_anchor(a: Seq<char>) -> bool {
    let l = ascii_lower_seq(a);
    (contains_seq(l, "runtime_replay_runner"@) || contains_seq(l, "runtime_runner"@)) && contains_seq(l, "verified"@)
}

/// `t[i..j]` is one of the pieces that `t.split(':')` yields.
pub open spec fn is_segment(t: Seq<char>, i: int, j: int) -> bool {
    &&& 0 <= i <= j <= t.len()
    &&& (i == 0 || t[i - 1] == ':')
    &&& (j == t.len() || t[j] == ':')
    &&& forall|k: int| i <= k < j ==> t[k] != ':'
}

pub open spec fn segment_eq(t: Seq<char>, i: int, j: int, s: Seq<char>) -> bool {
    ascii_lower_seq(t.subrange(i, j)) == ascii_lower_seq(s)
}

/// One `:`-separated piece of the anchor equals the source id, ignoring ASCII case.
pub open spec fn has_source_segment(anchor: Seq<char>, source: Seq<char>) -> bool {
    let l = ascii_lower_seq(anchor);
    exists|i: int, j: int| #[trigger] is_segment(l, i, j) && segment_eq(l, i, j, source)
}

pub fn is_productization_replay_anchor(anchor: &str) -> (r: bool)
    ensures
        r == productization_anchor(anchor@),
{
    let l = to_ascii_lower(anchor);
    contains_str(l.as_str(), "productization") || contains_str(l.as_str(), "replay_diff")
}

pub fn is_runtime_runner_verified_anchor(anchor: &str) -> (r: bool)
    ensures
        r == runner_verified_anchor(anchor@),
{
    let l = to_ascii_lower(anchor);
    (contains_str(l.as_str(), "runtime_replay_runner") || contains_str(l.as_str(), "runtime_runner"))
        && contains_str(l.as_str(), "verified")
}

fn segment_matches(t: &Vec<char>, a: usize, b: usize, s: &Vec<char>) -> (r: bool)
    requires
        a <= b <= t@.len(),
    ensures
        r == segment_eq(t@, a as int, b as int, s@),
{
    if b - a != s.len() {
        assert(ascii_lower_seq(t@.subrange(a as int, b as int)).len() != ascii_lower_seq(s@).len());
        return false;
    }
    let mut k: usize = 0;
    while k < s.len()
        invariant
            a <= b <= t@.len(),
            b - a == s@.len(),
            k <= s@.len(),
            forall|m: int| 0 <= m < k ==> ascii_lower(#[trigger] t@[a + m]) == ascii_lower(s@[m]),
        decreases s@.len() - k,
    {
        if ascii_lower_char(t[a + k]) != ascii_lower_char(s[k]) {
            assert(ascii_lower_seq(t@.subrange(a as int, b as int))[k as int] != ascii_lower_seq(s@)[k as int]);
            return false;
        }
        k += 1;
    }
    assert forall|m: int| 0 <= m < s@.len() implies ascii_lower_seq(t@.subrange(a as int, b as int))[m]
        == ascii_lower_seq(s@)[m] by {
        assert(t@.subrange(a as int, b as int)[m] == t@[a + m]);
    }
    assert(ascii_lower_seq(t@.subrange(a as int, b as int)) =~= ascii_lower_seq(s@));
    true
}

proof fn lemma_segment_start_unique(t: Seq<char>, start: int, a: int, j: int)
    requires
        0 <= start <= j <= t.len(),
        start == 0 || t[start - 1] == ':',
        forall|k: int| start <= k < j ==> t[k] != ':',
        is_segment(t, a, j),
    ensures
        a == start,
{
    if a < start {
        assert(t[start - 1] == ':');
        assert(a <= start - 1 < j);
    } else if a > start {
        assert(t[a - 1] == ':');
        assert(start <= a - 1 < j);
    }
}

/// Whether a `:`-separated piece of the anchor is the source id, ignoring ASCII case.
pub fn anchor_has_source_segment(anchor: &str, source_id: &str) -> (r: bool)
    ensures
        r == has_source_segment(anchor@, source_id@),
{
    let lower = to_ascii_lower(anchor);
    let t = chars_of(lower.as_str());
    let s = chars_of(source_id);
    let ghost l = ascii_lower_seq(anchor@);
    let n = t.len();
    let mut start: usize = 0;
    let mut j: usize = 0;
    while j < n
        invariant
            n == t@.len(),
            t@ == l,
            s@ == source_id@,
            l == ascii_lower_seq(anchor@),
            start <= j <= n,
            start == 0 || t@[start - 1] == ':',
            forall|k: int| start <= k < j ==> t@[k] != ':',
            forall|a: int, b: int| #[trigger] is_segment(l, a, b) && b < j ==> !segment_eq(l, a, b, s@),
        decreases n - j,
    {
        if t[j] == ':' {
            if segment_matches(&t, start, j, &s) {
                assert(is_segment(l, start as int, j as int));
                return true;
            }
            assert forall|a: int, b: int| #[trigger] is_segment(l, a, b) && b < j + 1 implies !segment_eq(l, a, b, s@) by {
                if b == j {
                    lemma_segment_start_unique(l, start as int, a, j as int);
                }
            }
            start = j + 1;
        }
        j += 1;
    }
    if segment_matches(&t, start, n, &s) {
        assert(is_segment(l, start as int, n as int));
        return true;
    }
    assert forall|a: int, b: int| #[trigger] is_segment(l, a, b) implies !segment_eq(l, a, b, s@) by {
        if b == n {
            lemma_segment_start_unique(l, start as int, a, n as int);
        }
    }
    false
}


pub open spec fn all_anchors_blank(anchors: Seq<String>) -> bool {
    forall|i: int| 0 <= i < anchors.len() ==> is_blank(#[trigger] anchors[i]@)
}

pub open spec fn any_productization_anchor(anchors: Seq<String>) -> bool {
    exists|i: int| 0 <= i < anchors.len() && productization_anchor(#[trigger] anchors[i]@)
}

pub open spec fn any_productization_anchor_for(anchors: Seq<String>, source: Seq<char>) -> bool {
    exists|i: int|
        0 <= i < anchors.len() && productization_anchor(#[trigger] anchors[i]@) && has_source_segment(
            anchors[i]@,
            source,
        )
}

pub open spec fn any_runner_anchor(anchors: Seq<String>) -> bool {
    exists|i: int| 0 <= i < anchors.len() && runner_verified_anchor(#[trigger] anchors[i]@)
}

pub open spec fn any_runner_anchor_for(anchors: Seq<String>, source: Seq<char>) -> bool {
    exists|i: int|
        0 <= i < anchors.len() && runner_verified_anchor(#[trigger] anchors[i]@) && has_source_segment(
            anchors[i]@,
            source,
        )
}

/// What the evidence anchors show: whether all are blank, and whether some point at a
/// productization replay diff or a verified runner, in general and for the source.
fn anchor_flags(anchors: &Vec<String>, source_id: &str) -> (r: (bool, bool, bool, bool, bool))
    ensures
        r.0 == all_anchors_blank(anchors@),
        r.1 == any_productization_anchor(anchors@),
        r.2 == any_productization_anchor_for(anchors@, source_id@),
        r.3 == any_runner_anchor(anchors@),
        r.4 == any_runner_anchor_for(anchors@, source_id@),
{
    let mut all_blank = true;
    let mut prod = false;
    let mut prod_src = false;
    let mut runner = false;
    let mut runner_src = false;
    let mut i: usize = 0;
    while i < anchors.len()
        invariant
            i <= anchors@.len(),
            all_blank == all_anchors_blank(anchors@.subrange(0, i as int)),
            prod == any_productization_anchor(anchors@.subrange(0, i as int)),
            prod_src == any_productization_anchor_for(anchors@.subrange(0, i as int), source_id@),
            runner == any_runner_anchor(anchors@.subrange(0, i as int)),
            runner_src == any_runner_anchor_for(anchors@.subrange(0, i as int), source_id@),
        decreases anchors@.len() - i,
    {
        let a = anchors[i].as_str();
        let blank = is_blank_str(a);
        let p = is_productization_replay_anchor(a);
        let q = is_runtime_runner_verified_anchor(a);
        let seg = anchor_has_source_segment(a, source_id);
        let ghost pre = anchors@.subrange(0, i as int);
        let ghost post = anchors@.subrange(0, i + 1);
        assert(post == pre.push(anchors@[i as int]));
        assert(post[i as int] == anchors@[i as int]);
        assert forall|k: int| 0 <= k < i implies post[k] == pre[k] by {}
        all_blank = all_blank && blank;
        prod = prod || p;
        prod_src = prod_src || (p && seg);
        runner = runner || q;
        runner_src = runner_src || (q && seg);
        i += 1;
    }
    assert(anchors@.subrange(0, anchors@.len() as int) =~= anchors@);
    (all_blank, prod, prod_src, runner, runner_src)
}

pub open spec fn domain_mismatch_message(expected: StrategyConfigProposalDomain, actual: StrategyConfigProposalDomain) -> Seq<char> {
    "AI proposal 目标域与模块不一致: expected="@ + domain_name(expected) + ", actual="@ + domain_name(actual)
}

/// The findings on a proposal's configuration-domain binding.
pub open spec fn binding_findings(
    req: CreateRuntimeAiProposalRequest,
    old_version: Seq<char>,
    new_version: Seq<char>,
    guard_path_allowed: bool,
) -> Seq<(Seq<char>, Seq<char>, Seq<char>)> {
    match req.config_domain_binding {
        None => seq![
            ("strategy_config_ai_binding_required"@, "config_domain_binding"@,
                "AI proposal 必须绑定目标策略配置域、修改前后 digest 和证据锚点。"@),
        ],
        Some(b) => {
            let anchors = b.evidence_anchor_ids@;
            let expected = expected_domain(req.target);
            let v4_module = "v4."@.is_prefix_of(req.target.module_key@);
            let backtest = req.source_kind == RuntimeEvidenceSourceKind::Backtest;
            finding_if(
                b.target_domain != expected,
                ("strategy_config_ai_binding_domain_mismatch"@, "config_domain_binding.target_domain"@,
                    domain_mismatch_message(expected, b.target_domain)),
            ) + finding_if(
                !hash_identity_valid(b.before_digest@),
                ("strategy_config_ai_binding_before_digest_invalid"@, "config_domain_binding.before_digest"@,
                    "AI proposal 修改前 digest 必须为 sha256:<64位小写十六进制>。"@),
            ) + finding_if(
                !hash_identity_valid(b.after_digest@),
                ("strategy_config_ai_binding_after_digest_invalid"@, "config_domain_binding.after_digest"@,
                    "AI proposal 修改后 digest 必须为 sha256:<64位小写十六进制>。"@),
            ) + finding_if(
                b.before_digest@ != old_version,
                ("strategy_config_ai_binding_before_digest_mismatch"@, "config_domain_binding.before_digest"@,
                    "AI proposal 修改前 digest 与当前策略参数版本不一致。"@),
            ) + finding_if(
                b.after_digest@ != new_version,
                ("strategy_config_ai_binding_after_digest_mismatch"@, "config_domain_binding.after_digest"@,
                    "AI proposal 修改后 digest 与候选策略参数版本不一致。"@),
            ) + finding_if(
                all_anchors_blank(anchors),
                ("strategy_config_ai_binding_evidence_required"@, "config_domain_binding.evidence_anchor_ids"@,
                    "AI proposal 必须声明至少一个配置证据锚点。"@),
            ) + finding_if(
                is_v4_guard_target(req.target) && !guard_path_allowed,
                ("v4_guard_parameter_path_not_proposal_only"@, "target.parameter_path"@,
                    "V4 transition guard proposals may only target guard, cooldown, threshold, or guard risk-limit parameters."@),
            ) + finding_if(
                v4_module && !any_productization_anchor(anchors),
                ("strategy_config_ai_binding_productization_replay_diff_required"@,
                    "config_domain_binding.evidence_anchor_ids"@,
                    "V4 AI proposal candidates require a productization replay diff evidence anchor."@),
            ) + finding_if(
                v4_module && any_productization_anchor(anchors) && backtest && !any_productization_anchor_for(
                    anchors,
                    req.source_id@,
                ),
                ("strategy_config_ai_binding_productization_replay_diff_source_mismatch"@,
                    "config_domain_binding.evidence_anchor_ids"@,
                    "V4 AI proposal productization replay diff anchor must name the source backtest."@),
            ) + finding_if(
                v4_module && !any_runner_anchor(anchors),
                ("strategy_config_ai_binding_runtime_runner_verified_required"@,
                    "config_domain_binding.evidence_anchor_ids"@,
                    "V4 AI proposal candidates require a verified runtime replay runner evidence anchor."@),
            ) + finding_if(
                v4_module && any_runner_anchor(anchors) && backtest && !any_runner_anchor_for(anchors, req.source_id@),
                ("strategy_config_ai_binding_runtime_runner_verified_source_mismatch"@,
                    "config_domain_binding.evidence_anchor_ids"@,
                    "V4 AI proposal runtime runner verified anchor must name the source backtest."@),
            )
        },
    }
}

fn push_if(details: &mut Vec<RuntimeAiProposalStaticCheckDetail>, c: bool, code: &str, target: &str, message: &str)
    ensures
        details_view(final(details)@) == details_view(old(details)@) + finding_if(c, (code@, target@, message@)),
{
    let ghost before = details_view(details@);
    if c {
        push_detail(details, detail(code, target, message));
        assert(details_view(details@) =~= before + finding_if(c, (code@, target@, message@)));
    } else {
        assert(details_view(details@) =~= before + finding_if(c, (code@, target@, message@)));
    }
}

/// Checks a proposal's configuration-domain binding: the domain its module belongs to,
/// well-formed digests equal to the current and candidate parameter versions, at least
/// one evidence anchor, a guard path that proposals may touch (`guard_path_allowed`,
/// as the v4 machine rules decide it for the target's parameter path), and, for v4
/// modules, productization-replay and verified-runner anchors naming the source backtest.
pub fn validate_ai_proposal_config_domain_binding(
    request: &CreateRuntimeAiProposalRequest,
    old_parameter_version: &str,
    proposed_parameter_version: &str,
    guard_path_allowed: bool,
) -> (r: Vec<RuntimeAiProposalStaticCheckDetail>)
    ensures
        details_view(r@) == binding_findings(*request, old_parameter_version@, proposed_parameter_version@, guard_path_allowed),
{
    let mut details: Vec<RuntimeAiProposalStaticCheckDetail> = Vec::new();
    match &request.config_domain_binding {
        None => {
            push_detail(
                &mut details,
                detail(
                    "strategy_config_ai_binding_required",
                    "config_domain_binding",
                    "AI proposal 必须绑定目标策略配置域、修改前后 digest 和证据锚点。",
                ),
            );
            assert(details_view(details@) =~= binding_findings(
                *request,
                old_parameter_version@,
                proposed_parameter_version@,
                guard_path_allowed,
            ));
            details
        },
        Some(b) => {
            assert(details_view(details@) =~= seq![]);
            let expected = expected_config_domain_for_target(&request.target);
            if b.target_domain != expected {
                let mut m = cat(
                    "AI proposal 目标域与模块不一致: expected=",
                    domain_debug_name(expected),
                );
                m.append(", actual=");
                m.append(domain_debug_name(b.target_domain));
                let ghost before = details_view(details@);
                push_detail(
                    &mut details,
                    RuntimeAiProposalStaticCheckDetail {
                        code: owned("strategy_config_ai_binding_domain_mismatch"),
                        target: owned("config_domain_binding.target_domain"),
                        message: m,
                    },
                );
                assert(details_view(details@) =~= before + finding_if(
                    true,
                    ("strategy_config_ai_binding_domain_mismatch"@, "config_domain_binding.target_domain"@,
                        domain_mismatch_message(expected, b.target_domain)),
                ));
            }
            let ghost f1 = details_view(details@);
            push_if(
                &mut details,
                !is_valid_hash_identity(b.before_digest.as_str()),
                "strategy_config_ai_binding_before_digest_invalid",
                "config_domain_binding.before_digest",
                "AI proposal 修改前 digest 必须为 sha256:<64位小写十六进制>。",
            );
            push_if(
                &mut details,
                !is_valid_hash_identity(b.after_digest.as_str()),
                "strategy_config_ai_binding_after_digest_invalid",
                "config_domain_binding.after_digest",
                "AI proposal 修改后 digest 必须为 sha256:<64位小写十六进制>。",
            );
            push_if(
                &mut details,
                !str_eq(b.before_digest.as_str(), old_parameter_version),
                "strategy_config_ai_binding_before_digest_mismatch",
                "config_domain_binding.before_digest",
                "AI proposal 修改前 digest 与当前策略参数版本不一致。",
            );
            push_if(
                &mut details,
                !str_eq(b.after_digest.as_str(), proposed_parameter_version),
                "strategy_config_ai_binding_after_digest_mismatch",
                "config_domain_binding.after_digest",
                "AI proposal 修改后 digest 与候选策略参数版本不一致。",
            );
            let flags = anchor_flags(&b.evidence_anchor_ids, request.source_id.as_str());
            push_if(
                &mut details,
                flags.0,
                "strategy_config_ai_binding_evidence_required",
                "config_domain_binding.evidence_anchor_ids",
                "AI proposal 必须声明至少一个配置证据锚点。",
            );
            push_if(
                &mut details,
                is_v4_guard_proposal_target(&request.target) && !guard_path_allowed,
                "v4_guard_parameter_path_not_proposal_only",
                "target.parameter_path",
                "V4 transition guard proposals may only target guard, cooldown, threshold, or guard risk-limit parameters.",
            );
            let v4_module = starts_with_str(request.target.module_key.as_str(), "v4.");
            let backtest = request.source_kind == RuntimeEvidenceSourceKind::Backtest;
            push_if(
                &mut details,
                v4_module && !flags.1,
                "strategy_config_ai_binding_productization_replay_diff_required",
                "config_domain_binding.evidence_anchor_ids",
                "V4 AI proposal candidates require a productization replay diff evidence anchor.",
            );
            push_if(
                &mut details,
                v4_module && flags.1 && backtest && !flags.2,
                "strategy_config_ai_binding_productization_replay_diff_source_mismatch",
                "config_domain_binding.evidence_anchor_ids",
                "V4 AI proposal productization replay diff anchor must name the source backtest.",
            );
            push_if(
                &mut details,
                v4_module && !flags.3,
                "strategy_config_ai_binding_runtime_runner_verified_required",
                "config_domain_binding.evidence_anchor_ids",
                "V4 AI proposal candidates require a verified runtime replay runner evidence anchor.",
            );
            push_if(
                &mut details,
                v4_module && flags.3 && backtest && !flags.4,
                "strategy_config_ai_binding_runtime_runner_verified_source_mismatch",
                "config_domain_binding.evidence_anchor_ids",
                "V4 AI proposal runtime runner verified anchor must name the source backtest.",
            );
            details
        },
    }
}

/// All findings of the static check on a candidate.
pub open spec fn static_check_findings(
    req: CreateRuntimeAiProposalRequest,
    old_version: Seq<char>,
    new_version: Seq<char>,
    source_event_count: nat,
    guard_path_allowed: bool,
) -> Seq<(Seq<char>, Seq<char>, Seq<char>)> {
    finding_if(
        source_event_count == 0,
        ("missing_source_evidence"@, "source_id"@, "AI proposals require at least one source evidence event"@),
    ) + finding_if(
        old_version == new_version,
        ("noop_parameter_version"@, "new_value"@, "旧值和新值解析为相同的规范参数版本"@),
    ) + finding_if(is_blank(req.reason@), ("missing_reason"@, "reason"@, "AI 提案候选需要说明原因"@))
        + binding_findings(req, old_version, new_version, guard_path_allowed) + finding_if(
        is_v4_target(req.target) && req.source_kind != RuntimeEvidenceSourceKind::Backtest,
        ("v4_proposal_requires_backtest_artifact"@, "source_kind"@,
            "v4 AI proposals must be anchored to a v4 backtest artifact and machine trajectory."@),
    ) + finding_if(
        !is_v4_target(req.target) && req.source_kind != RuntimeEvidenceSourceKind::Run,
        ("non_v4_proposal_requires_run_source"@, "source_kind"@, "非 v4 AI proposal 必须绑定 runtime run 证据。"@),
    )
}

/// The result of the static check: its findings, and a pass exactly when there is none.
pub open spec fn is_static_check_result(
    r: RuntimeAiProposalStaticCheckResult,
    req: CreateRuntimeAiProposalRequest,
    old_version: Seq<char>,
    new_version: Seq<char>,
    source_event_count: nat,
    checked_at_ms: u64,
    guard_path_allowed: bool,
) -> bool {
    &&& details_view(r.details@) == static_check_findings(req, old_version, new_version, source_event_count, guard_path_allowed)
    &&& r.checked_at_ms == checked_at_ms
    &&& r.details@.len() == 0 ==> r.status == RuntimeAiProposalStatus::StaticCheckPassed
        && r.reason_code@ == "AI_PROPOSAL_STATIC_CHECK_PASSED"@ && r.message@ == "AI 提案候选通过静态校验"@
    &&& r.details@.len() > 0 ==> r.status == RuntimeAiProposalStatus::StaticCheckFailed
        && r.reason_code@ == "AI_PROPOSAL_STATIC_CHECK_FAILED"@
        && r.message@ == "AI proposal candidate failed static validation"@
}

/// The static check on a candidate: it passes when there is no finding.
pub fn ai_proposal_static_check_result(
    request: &CreateRuntimeAiProposalRequest,
    old_parameter_version: &str,
    proposed_parameter_version: &str,
    source_event_count: usize,
    checked_at_ms: u64,
    guard_path_allowed: bool,
) -> (r: RuntimeAiProposalStaticCheckResult)
    ensures
        is_static_check_result(
            r,
            *request,
            old_parameter_version@,
            proposed_parameter_version@,
            source_event_count as nat,
            checked_at_ms,
            guard_path_allowed,
        ),
{
    let mut details: Vec<RuntimeAiProposalStaticCheckDetail> = Vec::new();
    assert(details_view(details@) =~= seq![]);
    push_if(
        &mut details,
        source_event_count == 0,
        "missing_source_evidence",
        "source_id",
        "AI proposals require at least one source evidence event",
    );
    push_if(
        &mut details,
        str_eq(old_parameter_version, proposed_parameter_version),
        "noop_parameter_version",
        "new_value",
        "旧值和新值解析为相同的规范参数版本",
    );
    push_if(&mut details, is_blank_str(request.reason.as_str()), "missing_reason", "reason", "AI 提案候选需要说明原因");
    let binding = validate_ai_proposal_config_domain_binding(
        request,
        old_parameter_version,
        proposed_parameter_version,
        guard_path_allowed,
    );
    let ghost before = details@;
    let mut binding = binding;
    details.append(&mut binding);
    assert(details_view(details@) =~= details_view(before) + binding_findings(
        *request,
        old_parameter_version@,
        proposed_parameter_version@,
        guard_path_allowed,
    ));
    let v4 = is_v4_ai_proposal_target(&request.target);
    push_if(
        &mut details,
        v4 && request.source_kind != RuntimeEvidenceSourceKind::Backtest,
        "v4_proposal_requires_backtest_artifact",
        "source_kind",
        "v4 AI proposals must be anchored to a v4 backtest artifact and machine trajectory.",
    );
    push_if(
        &mut details,
        !v4 && request.source_kind != RuntimeEvidenceSourceKind::Run,
        "non_v4_proposal_requires_run_source",
        "source_kind",
        "非 v4 AI proposal 必须绑定 runtime run 证据。",
    );
    if details.len() == 0 {
        RuntimeAiProposalStaticCheckResult {
            status: RuntimeAiProposalStatus::StaticCheckPassed,
            reason_code: owned("AI_PROPOSAL_STATIC_CHECK_PASSED"),
            message: owned("AI 提案候选通过静态校验"),
            checked_at_ms,
            details,
        }
    } else {
        RuntimeAiProposalStaticCheckResult {
            status: RuntimeAiProposalStatus::StaticCheckFailed,
            reason_code: owned("AI_PROPOSAL_STATIC_CHECK_FAILED"),
            message: owned("AI proposal candidate failed static validation"),
            checked_at_ms,
            details,
        }
    }
}

} // verus!
