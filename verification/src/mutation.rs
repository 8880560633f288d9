//! Runtime parameter mutations: what they target, the boundaries they take effect
//! at, the safe window they need, and how a proposal, an activation and a rollback
//! move a mutation record along its lifecycle.
use vstd::prelude::*;
use crate::error::{bad_request, is_bad_request, ApiError};
use crate::events::{
    actor_json, actor_model, attach_runtime_event_envelope, envelope_attached, envelope_failure_message,
    envelope_unset, envelopes_valid, push_entry, same_event_body, validate_runtime_event_envelopes,
    ActorIdentity, FrontendRuntimeEvent, RuntimeEventEnvelope, RuntimeGovernanceSnapshot,
    RuntimePermissionBoundary,
};
use crate::json::{entries_model, json_str, json_u64, Json, JsonValue};
use crate::text::{
    cat, cat3, dec, i64_text, is_blank, is_blank_str, owned, parse_u64, parse_u64_str,
    starts_with_str, str_eq, trim, trim_str, u64_text,
};

verus! {

/// The kind of evidence a proposal or mutation is anchored to.
#[derive(Clone, Copy, PartialEq, Eq, Debug, Structural)]
pub enum RuntimeEvidenceSourceKind {
    Run,
    Backtest,
}

/// The parameter a mutation changes.
#[derive(Clone, Debug)]
pub struct RuntimeParameterMutationTarget {
    pub node_id: String,
    pub module_key: String,
    pub parameter_path: String,
}

/// Where a parameter mutation stands.
#[derive(Clone, Copy, PartialEq, Eq, Debug, Structural)]
pub enum RuntimeParameterMutationStatus {
    Proposed,
    Rejected,
    ActivationScheduled,
    Activated,
    ActivationFailed,
    SafeWindowDenied,
    RollbackScheduled,
    RolledBack,
    RollbackFailed,
}

/// The point in a run's event stream at which a mutation takes effect.
#[derive(Clone, Debug)]
pub struct RuntimeParameterMutationBoundary {
    pub requested: String,
    pub resolved_sequence_no: Option<u64>,
}

impl RuntimeParameterMutationBoundary {
    /// The boundary with nothing requested.
    pub fn empty() -> (r: Self)
        ensures
            r.requested@.len() == 0,
            r.resolved_sequence_no is None,
    {
        RuntimeParameterMutationBoundary { requested: String::new(), resolved_sequence_no: None }
    }
}

impl Default for RuntimeParameterMutationBoundary {
    fn default() -> (r: Self)
        ensures
            r.requested@.len() == 0,
            r.resolved_sequence_no is None,
    {
        RuntimeParameterMutationBoundary::empty()
    }
}

pub open spec fn cursor_prefix() -> Seq<char> {
    "sequence_cursor:"@
}

/// The cursor written into a `sequence_cursor:<n>` boundary.
pub open spec fn cursor_value(requested: Seq<char>) -> Option<u64> {
    if cursor_prefix().is_prefix_of(requested) {
        parse_u64(requested.subrange(16, requested.len() as int))
    } else {
        None
    }
}

pub open spec fn boundary_required_message() -> Seq<char> {
    "activation_boundary.requested 是必填字段"@
}

pub open spec fn immediate_boundary_message() -> Seq<char> {
    "不支持立即激活的参数变更；请使用 next_cycle_start、manual_pause 或 sequence_cursor"@
}

pub open spec fn unsupported_boundary_message() -> Seq<char> {
    "不支持的激活边界；请使用 next_cycle_start、manual_pause 或 sequence_cursor"@
}

/// Why a boundary is refused, as an error code and a message; `None` when it is accepted.
pub open spec fn boundary_problem(b: RuntimeParameterMutationBoundary) -> Option<(Seq<char>, Seq<char>)> {
    let r = trim(b.requested@);
    if r.len() == 0 {
        Some(("bad_request"@, boundary_required_message()))
    } else if r == "immediate"@ {
        Some(("parameter_mutation_boundary_violation"@, immediate_boundary_message()))
    } else if r == "next_cycle_start"@ || r == "manual_pause"@ {
        None
    } else if r == "sequence_cursor"@ && b.resolved_sequence_no is Some {
        None
    } else if cursor_value(r) is Some {
        None
    } else {
        Some(("parameter_mutation_boundary_violation"@, unsupported_boundary_message()))
    }
}

/// The cursor a `sequence_cursor:<n>` text names, parsed as `u64`.
pub fn sequence_cursor_value(requested: &str) -> (r: Option<u64>)
    ensures
        r == cursor_value(requested@),
{
    proof {
        reveal_strlit("sequence_cursor:");
    }
    if starts_with_str(requested, "sequence_cursor:") {
        let n = requested.unicode_len();
        let rest = requested.substring_char(16, n);
        parse_u64_str(rest)
    } else {
        None
    }
}

/// Accepts `next_cycle_start`, `manual_pause`, `sequence_cursor` with a resolved
/// sequence number, and `sequence_cursor:<n>`; refuses anything else, a blank or an
/// `immediate` boundary in particular.
pub fn validate_runtime_parameter_mutation_boundary(boundary: &RuntimeParameterMutationBoundary) -> (r: Result<(), ApiError>)
    ensures
        r.is_ok() == (boundary_problem(*boundary) is None),
        r matches Err(e) ==> (boundary_problem(*boundary) matches Some(p) && is_bad_request(e, p.0, p.1)),
{
    let requested = trim_str(boundary.requested.as_str());
    if requested.unicode_len() == 0 {
        return Err(bad_request("bad_request", owned("activation_boundary.requested 是必填字段")));
    }
    if str_eq(requested, "immediate") {
        return Err(
            bad_request(
                "parameter_mutation_boundary_violation",
                owned("不支持立即激活的参数变更；请使用 next_cycle_start、manual_pause 或 sequence_cursor"),
            ),
        );
    }
    if str_eq(requested, "next_cycle_start") || str_eq(requested, "manual_pause") {
        return Ok(());
    }
    if str_eq(requested, "sequence_cursor") && boundary.resolved_sequence_no.is_some() {
        return Ok(());
    }
    if sequence_cursor_value(requested).is_some() {
        return Ok(());
    }
    Err(
        bad_request(
            "parameter_mutation_boundary_violation",
            owned("不支持的激活边界；请使用 next_cycle_start、manual_pause 或 sequence_cursor"),
        ),
    )
}

/// The boundary an accepted request resolves to at the current sequence number: the
/// next cycle starts two events on; a manual pause has no sequence number; a cursor
/// keeps the number given, or the one written into the request.
pub open spec fn resolved_boundary(b: RuntimeParameterMutationBoundary, current: u64) -> (Seq<char>, Option<u64>) {
    let r = trim(b.requested@);
    if r == "next_cycle_start"@ {
        ("next_cycle_start"@, Some((current + 2) as u64))
    } else if r == "manual_pause"@ {
        ("manual_pause"@, None)
    } else {
        (
            "sequence_cursor"@,
            match b.resolved_sequence_no {
                Some(n) => Some(n),
                None => cursor_value(r),
            },
        )
    }
}

pub open spec fn boundary_view(b: RuntimeParameterMutationBoundary) -> (Seq<char>, Option<u64>) {
    (b.requested@, b.resolved_sequence_no)
}

/// Validates a boundary and resolves it at the current sequence number.
pub fn resolve_runtime_parameter_mutation_boundary(
    boundary: &RuntimeParameterMutationBoundary,
    current_sequence_no: u64,
) -> (r: Result<RuntimeParameterMutationBoundary, ApiError>)
    requires
        current_sequence_no <= u64::MAX - 2,
    ensures
        r.is_ok() == (boundary_problem(*boundary) is None),
        r matches Err(e) ==> (boundary_problem(*boundary) matches Some(p) && is_bad_request(e, p.0, p.1)),
        r matches Ok(b) ==> boundary_view(b) == resolved_boundary(*boundary, current_sequence_no),
{
    validate_runtime_parameter_mutation_boundary(boundary)?;
    let requested = trim_str(boundary.requested.as_str());
    if str_eq(requested, "next_cycle_start") {
        return Ok(
            RuntimeParameterMutationBoundary {
                requested: owned("next_cycle_start"),
                resolved_sequence_no: Some(current_sequence_no + 2),
            },
        );
    }
    if str_eq(requested, "manual_pause") {
        return Ok(RuntimeParameterMutationBoundary { requested: owned("manual_pause"), resolved_sequence_no: None });
    }
    let sequence_no = match boundary.resolved_sequence_no {
        Some(n) => Some(n),
        None => sequence_cursor_value(requested),
    };
    match sequence_no {
        Some(n) => Ok(RuntimeParameterMutationBoundary { requested: owned("sequence_cursor"), resolved_sequence_no: Some(n) }),
        None => Err(
            bad_request("parameter_mutation_boundary_violation", owned("序列游标激活边界需要 resolved_sequence_no")),
        ),
    }
}

/// A resolved boundary is itself accepted, and resolving it again at the same sequence
/// number changes nothing.
pub proof fn lemma_resolved_boundary_is_stable(b: RuntimeParameterMutationBoundary, current: u64, resolved: RuntimeParameterMutationBoundary)
    requires
        boundary_problem(b) is None,
        current <= u64::MAX - 2,
        boundary_view(resolved) == resolved_boundary(b, current),
    ensures
        boundary_problem(resolved) is None,
        resolved_boundary(resolved, current) == boundary_view(resolved),
{
    reveal_strlit("next_cycle_start");
    reveal_strlit("manual_pause");
    reveal_strlit("sequence_cursor");
    reveal_strlit("immediate");
    crate::text::lemma_trim_of_non_ws(resolved.requested@);
}


/// What the runtime reports when a mutation asks to take effect.
#[derive(Clone, Debug)]
pub struct RuntimeParameterMutationSafeWindowSnapshot {
    pub policy_version: String,
    pub runtime_status: String,
    pub open_order_count: u64,
    pub outstanding_risk_violation: bool,
    pub data_freshness_ms: u64,
    pub portfolio_exposure_bps: i64,
    pub cooldown_remaining_ms: u64,
}

pub open spec fn empty_snapshot(s: RuntimeParameterMutationSafeWindowSnapshot) -> bool {
    &&& s.policy_version@.len() == 0
    &&& s.runtime_status@.len() == 0
    &&& s.open_order_count == 0
    &&& !s.outstanding_risk_violation
    &&& s.data_freshness_ms == 0
    &&& s.portfolio_exposure_bps == 0
    &&& s.cooldown_remaining_ms == 0
}

impl RuntimeParameterMutationSafeWindowSnapshot {
    /// The snapshot taken when the runtime reported nothing.
    pub fn empty() -> (r: Self)
        ensures
            empty_snapshot(r),
    {
        RuntimeParameterMutationSafeWindowSnapshot {
            policy_version: String::new(),
            runtime_status: String::new(),
            open_order_count: 0,
            outstanding_risk_violation: false,
            data_freshness_ms: 0,
            portfolio_exposure_bps: 0,
            cooldown_remaining_ms: 0,
        }
    }
}

impl Default for RuntimeParameterMutationSafeWindowSnapshot {
    fn default() -> (r: Self)
        ensures
            empty_snapshot(r),
    {
        RuntimeParameterMutationSafeWindowSnapshot::empty()
    }
}

/// Whether a mutation may take effect now, and why.
#[derive(Clone, Debug)]
pub struct RuntimeParameterMutationSafeWindowState {
    pub status: String,
    pub policy_version: String,
    pub allowed: bool,
    pub reason_code: String,
    pub message: String,
    pub retryable: bool,
    pub retry_after_ms: Option<u64>,
    pub snapshot: RuntimeParameterMutationSafeWindowSnapshot,
}

pub open spec fn runtime_at_rest(status: Seq<char>) -> bool {
    status == "paused"@ || status == "idle"@ || status == "stopped"@ || status == "ready"@
}

/// Decimal text of a signed number.
pub open spec fn int_text(n: int) -> Seq<char> {
    if n < 0 {
        seq!['-'] + dec((-n) as nat)
    } else {
        dec(n as nat)
    }
}

/// The first condition that closes the safe window, as a reason code and a message;
/// the window is open when none holds.
pub open spec fn safe_window_verdict(s: RuntimeParameterMutationSafeWindowSnapshot) -> (Seq<char>, Seq<char>) {
    if !runtime_at_rest(s.runtime_status@) {
        ("SAFE_WINDOW_RUNTIME_ACTIVE"@, "运行时状态 `"@ + s.runtime_status@ + "` 不符合参数变更条件"@)
    } else if s.open_order_count > 0 {
        ("SAFE_WINDOW_OPEN_ORDERS"@, dec(s.open_order_count as nat) + " 笔未结订单必须结算后才可变更参数"@)
    } else if s.outstanding_risk_violation {
        ("SAFE_WINDOW_RISK_VIOLATION"@, "存在未解决的风控违规，阻止参数变更"@)
    } else if s.data_freshness_ms > 60000 {
        ("SAFE_WINDOW_STALE_DATA"@, "数据新鲜度 "@ + dec(s.data_freshness_ms as nat) + "ms 超出 60000ms 安全窗口限制"@)
    } else if s.portfolio_exposure_bps > 10000 || s.portfolio_exposure_bps < -10000 {
        ("SAFE_WINDOW_EXPOSURE_LIMIT"@, "组合敞口 "@ + int_text(s.portfolio_exposure_bps as int) + "bps 超出安全窗口限制"@)
    } else if s.cooldown_remaining_ms > 0 {
        ("SAFE_WINDOW_COOLDOWN"@, "变更冷却还剩 "@ + dec(s.cooldown_remaining_ms as nat) + "ms"@)
    } else {
        ("SAFE_WINDOW_OPEN"@, "安全窗口已开启，允许运行时参数变更"@)
    }
}

/// The window is open exactly when the runtime is at rest with no open orders, no
/// outstanding risk violation, data at most a minute old, exposure within 100% and no
/// cooldown left.
pub open spec fn safe_window_open(s: RuntimeParameterMutationSafeWindowSnapshot) -> bool {
    &&& runtime_at_rest(s.runtime_status@)
    &&& s.open_order_count == 0
    &&& !s.outstanding_risk_violation
    &&& s.data_freshness_ms <= 60000
    &&& -10000 <= s.portfolio_exposure_bps <= 10000
    &&& s.cooldown_remaining_ms == 0
}

pub open spec fn same_snapshot(a: RuntimeParameterMutationSafeWindowSnapshot, b: RuntimeParameterMutationSafeWindowSnapshot) -> bool {
    &&& a.policy_version@ == b.policy_version@
    &&& a.runtime_status@ == b.runtime_status@
    &&& a.open_order_count == b.open_order_count
    &&& a.outstanding_risk_violation == b.outstanding_risk_violation
    &&& a.data_freshness_ms == b.data_freshness_ms
    &&& a.portfolio_exposure_bps == b.portfolio_exposure_bps
    &&& a.cooldown_remaining_ms == b.cooldown_remaining_ms
}

/// What the safe-window evaluation yields for a snapshot.
pub open spec fn safe_window_state_of(st: RuntimeParameterMutationSafeWindowState, s: RuntimeParameterMutationSafeWindowSnapshot) -> bool {
    let (code, message) = safe_window_verdict(s);
    &&& st.allowed == safe_window_open(s)
    &&& st.reason_code@ == code
    &&& st.message@ == message
    &&& st.status@ == (if st.allowed { "allowed"@ } else { "denied"@ })
    &&& st.retryable == !st.allowed
    &&& st.retry_after_ms == (if code == "SAFE_WINDOW_COOLDOWN"@ { Some(s.cooldown_remaining_ms) } else { None })
    &&& st.policy_version@ == s.policy_version@
    &&& same_snapshot(st.snapshot, s)
}

/// The safe window, in terms of the snapshot: it is open only when the runtime is paused,
/// idle, stopped or ready, with no open orders, no outstanding risk violation, data at most
/// a minute old, exposure within 10000 bps either way and no cooldown left. An
/// outstanding risk violation always closes it, and is the reason reported once the
/// runtime is at rest without open orders.
pub proof fn lemma_safe_window_rules(st: RuntimeParameterMutationSafeWindowState, s: RuntimeParameterMutationSafeWindowSnapshot)
    requires
        safe_window_state_of(st, s),
    ensures
        st.allowed <==> ((s.runtime_status@ == "paused"@ || s.runtime_status@ == "idle"@ || s.runtime_status@ == "stopped"@
            || s.runtime_status@ == "ready"@) && s.open_order_count == 0
            && !s.outstanding_risk_violation && s.data_freshness_ms <= 60000 && -10000 <= s.portfolio_exposure_bps
            <= 10000 && s.cooldown_remaining_ms == 0),
        s.outstanding_risk_violation ==> !st.allowed && st.status@ == "denied"@ && st.retryable,
        s.open_order_count > 0 ==> !st.allowed,
        s.data_freshness_ms > 60000 ==> !st.allowed,
        s.cooldown_remaining_ms > 0 ==> !st.allowed,
        !(s.runtime_status@ == "paused"@ || s.runtime_status@ == "idle"@ || s.runtime_status@ == "stopped"@
            || s.runtime_status@ == "ready"@) ==> st.reason_code@ == "SAFE_WINDOW_RUNTIME_ACTIVE"@,
        (s.runtime_status@ == "paused"@ || s.runtime_status@ == "idle"@ || s.runtime_status@ == "stopped"@
            || s.runtime_status@ == "ready"@) && s.open_order_count > 0 ==> st.reason_code@ == "SAFE_WINDOW_OPEN_ORDERS"@,
        (s.runtime_status@ == "paused"@ || s.runtime_status@ == "idle"@ || s.runtime_status@ == "stopped"@
            || s.runtime_status@ == "ready"@) && s.open_order_count == 0 && s.outstanding_risk_violation ==> st.reason_code@
            == "SAFE_WINDOW_RISK_VIOLATION"@ && st.message@ == "存在未解决的风控违规，阻止参数变更"@,
        (s.runtime_status@ == "paused"@ || s.runtime_status@ == "idle"@ || s.runtime_status@ == "stopped"@
            || s.runtime_status@ == "ready"@) && s.open_order_count == 0 && !s.outstanding_risk_violation && s.data_freshness_ms > 60000
            ==> st.reason_code@ == "SAFE_WINDOW_STALE_DATA"@,
        (s.runtime_status@ == "paused"@ || s.runtime_status@ == "idle"@ || s.runtime_status@ == "stopped"@
            || s.runtime_status@ == "ready"@) && s.open_order_count == 0 && !s.outstanding_risk_violation
            && s.data_freshness_ms <= 60000 && (s.portfolio_exposure_bps > 10000 || s.portfolio_exposure_bps < -10000)
            ==> st.reason_code@ == "SAFE_WINDOW_EXPOSURE_LIMIT"@,
        (s.runtime_status@ == "paused"@ || s.runtime_status@ == "idle"@ || s.runtime_status@ == "stopped"@
            || s.runtime_status@ == "ready"@) && s.open_order_count == 0 && !s.outstanding_risk_violation
            && s.data_freshness_ms <= 60000 && -10000 <= s.portfolio_exposure_bps <= 10000 && s.cooldown_remaining_ms > 0
            ==> st.reason_code@ == "SAFE_WINDOW_COOLDOWN"@ && st.retry_after_ms == Some(s.cooldown_remaining_ms),
        !st.allowed ==> st.status@ == "denied"@ && st.retryable && st.reason_code@ != "SAFE_WINDOW_OPEN"@,
        st.allowed ==> st.reason_code@ == "SAFE_WINDOW_OPEN"@ && st.status@ == "allowed"@ && !st.retryable
            && st.retry_after_ms.is_none(),
{
    reveal_strlit("SAFE_WINDOW_OPEN");
    reveal_strlit("SAFE_WINDOW_COOLDOWN");
    reveal_strlit("SAFE_WINDOW_RUNTIME_ACTIVE");
    reveal_strlit("SAFE_WINDOW_OPEN_ORDERS");
    reveal_strlit("SAFE_WINDOW_RISK_VIOLATION");
    reveal_strlit("SAFE_WINDOW_STALE_DATA");
    reveal_strlit("SAFE_WINDOW_EXPOSURE_LIMIT");
    if st.allowed {
        assert(safe_window_verdict(s).0 == "SAFE_WINDOW_OPEN"@);
        assert("SAFE_WINDOW_OPEN"@ != "SAFE_WINDOW_COOLDOWN"@);
    } else {
        assert(safe_window_verdict(s).0.len() != "SAFE_WINDOW_OPEN"@.len());
    }
}

fn clone_snapshot(s: &RuntimeParameterMutationSafeWindowSnapshot) -> (r: RuntimeParameterMutationSafeWindowSnapshot)
    ensures
        same_snapshot(r, *s),
{
    RuntimeParameterMutationSafeWindowSnapshot {
        policy_version: owned(s.policy_version.as_str()),
        runtime_status: owned(s.runtime_status.as_str()),
        open_order_count: s.open_order_count,
        outstanding_risk_violation: s.outstanding_risk_violation,
        data_freshness_ms: s.data_freshness_ms,
        portfolio_exposure_bps: s.portfolio_exposure_bps,
        cooldown_remaining_ms: s.cooldown_remaining_ms,
    }
}

/// Decides whether a mutation may take effect now; with no snapshot the runtime is
/// taken to have reported nothing, which closes the window.
pub fn evaluate_runtime_parameter_mutation_safe_window(
    snapshot: Option<RuntimeParameterMutationSafeWindowSnapshot>,
) -> (r: RuntimeParameterMutationSafeWindowState)
    ensures
        snapshot matches Some(s) ==> safe_window_state_of(r, s),
        snapshot is None ==> empty_snapshot(r.snapshot) && safe_window_state_of(r, r.snapshot),
        snapshot is None ==> !r.allowed && r.reason_code@ == "SAFE_WINDOW_RUNTIME_ACTIVE"@,
        snapshot matches Some(s) ==> {
            &&& r.allowed <==> ((s.runtime_status@ == "paused"@ || s.runtime_status@ == "idle"@ || s.runtime_status@ == "stopped"@
                || s.runtime_status@ == "ready"@) && s.open_order_count == 0
                && !s.outstanding_risk_violation && s.data_freshness_ms <= 60000 && -10000 <= s.portfolio_exposure_bps
                <= 10000 && s.cooldown_remaining_ms == 0)
            &&& s.outstanding_risk_violation ==> !r.allowed && r.status@ == "denied"@ && r.retryable
            &&& s.open_order_count > 0 ==> !r.allowed
            &&& s.data_freshness_ms > 60000 ==> !r.allowed
            &&& s.cooldown_remaining_ms > 0 ==> !r.allowed
            &&& !(s.runtime_status@ == "paused"@ || s.runtime_status@ == "idle"@ || s.runtime_status@ == "stopped"@
                || s.runtime_status@ == "ready"@) ==> r.reason_code@ == "SAFE_WINDOW_RUNTIME_ACTIVE"@
            &&& (s.runtime_status@ == "paused"@ || s.runtime_status@ == "idle"@ || s.runtime_status@ == "stopped"@
                || s.runtime_status@ == "ready"@) && s.open_order_count > 0 ==> r.reason_code@ == "SAFE_WINDOW_OPEN_ORDERS"@
            &&& (s.runtime_status@ == "paused"@ || s.runtime_status@ == "idle"@ || s.runtime_status@ == "stopped"@
                || s.runtime_status@ == "ready"@) && s.open_order_count == 0 && s.outstanding_risk_violation ==> r.reason_code@
                == "SAFE_WINDOW_RISK_VIOLATION"@ && r.message@ == "存在未解决的风控违规，阻止参数变更"@
            &&& (s.runtime_status@ == "paused"@ || s.runtime_status@ == "idle"@ || s.runtime_status@ == "stopped"@
                || s.runtime_status@ == "ready"@) && s.open_order_count == 0 && !s.outstanding_risk_violation && s.data_freshness_ms > 60000
                ==> r.reason_code@ == "SAFE_WINDOW_STALE_DATA"@
            &&& r.allowed ==> r.reason_code@ == "SAFE_WINDOW_OPEN"@ && r.status@ == "allowed"@ && !r.retryable
                && r.retry_after_ms.is_none()
        },
{
    match snapshot {
        Some(s) => {
            let r = safe_window_state(&s);
            proof {
                lemma_safe_window_rules(r, s);
            }
            r
        },
        None => {
            let e = RuntimeParameterMutationSafeWindowSnapshot::empty();
            let r = safe_window_state(&e);
            proof {
                lemma_safe_window_rules(r, e);
                reveal_strlit("paused");
                reveal_strlit("idle");
                reveal_strlit("stopped");
                reveal_strlit("ready");
            }
            r
        },
    }
}

fn safe_window_state(snapshot: &RuntimeParameterMutationSafeWindowSnapshot) -> (r: RuntimeParameterMutationSafeWindowState)
    ensures
        safe_window_state_of(r, *snapshot),
{
    proof {
        reveal_strlit("SAFE_WINDOW_OPEN");
        reveal_strlit("SAFE_WINDOW_COOLDOWN");
        reveal_strlit("SAFE_WINDOW_RUNTIME_ACTIVE");
        reveal_strlit("SAFE_WINDOW_OPEN_ORDERS");
        reveal_strlit("SAFE_WINDOW_RISK_VIOLATION");
        reveal_strlit("SAFE_WINDOW_STALE_DATA");
        reveal_strlit("SAFE_WINDOW_EXPOSURE_LIMIT");
    }
    let st = snapshot.runtime_status.as_str();
    let at_rest = str_eq(st, "paused") || str_eq(st, "idle") || str_eq(st, "stopped") || str_eq(st, "ready");
    let (reason_code, message, retry_after_ms): (&str, String, Option<u64>) = if !at_rest {
        ("SAFE_WINDOW_RUNTIME_ACTIVE", cat3("运行时状态 `", st, "` 不符合参数变更条件"), None)
    } else if snapshot.open_order_count > 0 {
        (
            "SAFE_WINDOW_OPEN_ORDERS",
            cat(u64_text(snapshot.open_order_count).as_str(), " 笔未结订单必须结算后才可变更参数"),
            None,
        )
    } else if snapshot.outstanding_risk_violation {
        ("SAFE_WINDOW_RISK_VIOLATION", owned("存在未解决的风控违规，阻止参数变更"), None)
    } else if snapshot.data_freshness_ms > 60000 {
        (
            "SAFE_WINDOW_STALE_DATA",
            cat3("数据新鲜度 ", u64_text(snapshot.data_freshness_ms).as_str(), "ms 超出 60000ms 安全窗口限制"),
            None,
        )
    } else if snapshot.portfolio_exposure_bps > 10000 || snapshot.portfolio_exposure_bps < -10000 {
        (
            "SAFE_WINDOW_EXPOSURE_LIMIT",
            cat3("组合敞口 ", i64_text(snapshot.portfolio_exposure_bps).as_str(), "bps 超出安全窗口限制"),
            None,
        )
    } else if snapshot.cooldown_remaining_ms > 0 {
        (
            "SAFE_WINDOW_COOLDOWN",
            cat3("变更冷却还剩 ", u64_text(snapshot.cooldown_remaining_ms).as_str(), "ms"),
            Some(snapshot.cooldown_remaining_ms),
        )
    } else {
        ("SAFE_WINDOW_OPEN", owned("安全窗口已开启，允许运行时参数变更"), None)
    };
    let allowed = str_eq(reason_code, "SAFE_WINDOW_OPEN");
    let r = RuntimeParameterMutationSafeWindowState {
        status: owned(if allowed { "allowed" } else { "denied" }),
        policy_version: owned(snapshot.policy_version.as_str()),
        allowed,
        reason_code: owned(reason_code),
        message,
        retryable: !allowed,
        retry_after_ms,
        snapshot: clone_snapshot(snapshot),
    };
    let ghost v = safe_window_verdict(*snapshot);
    assert(r.reason_code@ == v.0);
    assert(r.message@ == v.1);
    assert(r.allowed == safe_window_open(*snapshot));
    assert(r.retry_after_ms == (if v.0 == "SAFE_WINDOW_COOLDOWN"@ { Some(snapshot.cooldown_remaining_ms) } else { None }));
    r
}


/// The governance identity a mutation record carries.
#[derive(Clone, Debug)]
pub struct RuntimeParameterMutationGovernance {
    pub capability_hash: String,
    pub deployment_revision: String,
    pub strategy_version: String,
    pub previous_parameter_version: String,
    pub proposed_parameter_version: String,
    pub permission_boundary_model_version: String,
}

/// How an activation or a rollback was scheduled and what became of it.
#[derive(Clone, Debug)]
pub struct RuntimeParameterMutationActivationState {
    pub requested_boundary: RuntimeParameterMutationBoundary,
    pub resolved_sequence_no: Option<u64>,
    pub scheduled_at_ms: Option<u64>,
    pub activated_at_ms: Option<u64>,
    pub active_parameter_version: Option<String>,
    pub failure_reason: Option<String>,
    pub observation_deadline_ms: Option<u64>,
}

/// One step of a mutation's lifecycle, tied to the event that records it.
#[derive(Clone, Debug)]
pub struct RuntimeParameterMutationLifecycleEntry {
    pub status: RuntimeParameterMutationStatus,
    pub event_id: String,
    pub sequence_no: u64,
    pub occurred_at_ms: u64,
    pub reason_code: String,
    pub message: String,
}

/// A parameter mutation and its history.
#[derive(Clone, Debug)]
pub struct RuntimeParameterMutationRecord {
    pub proposal_id: String,
    pub source_kind: RuntimeEvidenceSourceKind,
    pub source_id: String,
    pub graph_id: String,
    pub target: RuntimeParameterMutationTarget,
    pub old_value: JsonValue,
    pub new_value: JsonValue,
    pub old_parameter_version: String,
    pub proposed_parameter_version: String,
    pub status: RuntimeParameterMutationStatus,
    pub rejection_reason: Option<String>,
    pub activation_boundary: RuntimeParameterMutationBoundary,
    pub activation_state: Option<RuntimeParameterMutationActivationState>,
    pub safe_window_state: Option<RuntimeParameterMutationSafeWindowState>,
    pub rollback_of: Option<String>,
    pub rollback_target_parameter_version: Option<String>,
    pub actor: ActorIdentity,
    pub reason: String,
    pub governance: RuntimeParameterMutationGovernance,
    pub lifecycle: Vec<RuntimeParameterMutationLifecycleEntry>,
    pub created_at_ms: u64,
    pub updated_at_ms: u64,
}

pub open spec fn status_text(s: RuntimeParameterMutationStatus) -> Seq<char> {
    match s {
        RuntimeParameterMutationStatus::Proposed => "proposed"@,
        RuntimeParameterMutationStatus::Rejected => "rejected"@,
        RuntimeParameterMutationStatus::ActivationScheduled => "activation_scheduled"@,
        RuntimeParameterMutationStatus::Activated => "activated"@,
        RuntimeParameterMutationStatus::ActivationFailed => "activation_failed"@,
        RuntimeParameterMutationStatus::SafeWindowDenied => "safe_window_denied"@,
        RuntimeParameterMutationStatus::RollbackScheduled => "rollback_scheduled"@,
        RuntimeParameterMutationStatus::RolledBack => "rolled_back"@,
        RuntimeParameterMutationStatus::RollbackFailed => "rollback_failed"@,
    }
}

/// The contract text of a mutation status.
pub fn status_contract_value(status: RuntimeParameterMutationStatus) -> (r: &'static str)
    ensures
        r@ == status_text(status),
{
    match status {
        RuntimeParameterMutationStatus::Proposed => "proposed",
        RuntimeParameterMutationStatus::Rejected => "rejected",
        RuntimeParameterMutationStatus::ActivationScheduled => "activation_scheduled",
        RuntimeParameterMutationStatus::Activated => "activated",
        RuntimeParameterMutationStatus::ActivationFailed => "activation_failed",
        RuntimeParameterMutationStatus::SafeWindowDenied => "safe_window_denied",
        RuntimeParameterMutationStatus::RollbackScheduled => "rollback_scheduled",
        RuntimeParameterMutationStatus::RolledBack => "rolled_back",
        RuntimeParameterMutationStatus::RollbackFailed => "rollback_failed",
    }
}

pub open spec fn mutation_event_type(s: RuntimeParameterMutationStatus) -> Seq<char> {
    match s {
        RuntimeParameterMutationStatus::Proposed => "ParameterMutationProposed"@,
        RuntimeParameterMutationStatus::Rejected => "ParameterMutationRejected"@,
        RuntimeParameterMutationStatus::ActivationScheduled => "ParameterMutationActivationScheduled"@,
        RuntimeParameterMutationStatus::Activated => "ParameterMutationActivated"@,
        RuntimeParameterMutationStatus::ActivationFailed => "ParameterMutationActivationFailed"@,
        RuntimeParameterMutationStatus::SafeWindowDenied => "ParameterMutationSafeWindowDenied"@,
        RuntimeParameterMutationStatus::RollbackScheduled => "ParameterMutationRollbackScheduled"@,
        RuntimeParameterMutationStatus::RolledBack => "ParameterMutationRolledBack"@,
        RuntimeParameterMutationStatus::RollbackFailed => "ParameterMutationRollbackFailed"@,
    }
}

pub open spec fn mutation_reason_code(s: RuntimeParameterMutationStatus) -> Seq<char> {
    match s {
        RuntimeParameterMutationStatus::Proposed => "PARAMETER_MUTATION_PROPOSED"@,
        RuntimeParameterMutationStatus::Rejected => "PARAMETER_MUTATION_REJECTED"@,
        RuntimeParameterMutationStatus::ActivationScheduled => "PARAMETER_MUTATION_ACTIVATION_SCHEDULED"@,
        RuntimeParameterMutationStatus::Activated => "PARAMETER_MUTATION_ACTIVATED"@,
        RuntimeParameterMutationStatus::ActivationFailed => "PARAMETER_MUTATION_ACTIVATION_FAILED"@,
        RuntimeParameterMutationStatus::SafeWindowDenied => "PARAMETER_MUTATION_SAFE_WINDOW_DENIED"@,
        RuntimeParameterMutationStatus::RollbackScheduled => "PARAMETER_MUTATION_ROLLBACK_SCHEDULED"@,
        RuntimeParameterMutationStatus::RolledBack => "PARAMETER_MUTATION_ROLLED_BACK"@,
        RuntimeParameterMutationStatus::RollbackFailed => "PARAMETER_MUTATION_ROLLBACK_FAILED"@,
    }
}

/// The event type and reason code recorded for a mutation status.
pub fn mutation_event_contract(status: RuntimeParameterMutationStatus) -> (r: (&'static str, &'static str))
    ensures
        r.0@ == mutation_event_type(status),
        r.1@ == mutation_reason_code(status),
{
    match status {
        RuntimeParameterMutationStatus::Proposed => ("ParameterMutationProposed", "PARAMETER_MUTATION_PROPOSED"),
        RuntimeParameterMutationStatus::Rejected => ("ParameterMutationRejected", "PARAMETER_MUTATION_REJECTED"),
        RuntimeParameterMutationStatus::ActivationScheduled => (
            "ParameterMutationActivationScheduled",
            "PARAMETER_MUTATION_ACTIVATION_SCHEDULED",
        ),
        RuntimeParameterMutationStatus::Activated => ("ParameterMutationActivated", "PARAMETER_MUTATION_ACTIVATED"),
        RuntimeParameterMutationStatus::ActivationFailed => (
            "ParameterMutationActivationFailed",
            "PARAMETER_MUTATION_ACTIVATION_FAILED",
        ),
        RuntimeParameterMutationStatus::SafeWindowDenied => (
            "ParameterMutationSafeWindowDenied",
            "PARAMETER_MUTATION_SAFE_WINDOW_DENIED",
        ),
        RuntimeParameterMutationStatus::RollbackScheduled => (
            "ParameterMutationRollbackScheduled",
            "PARAMETER_MUTATION_ROLLBACK_SCHEDULED",
        ),
        RuntimeParameterMutationStatus::RolledBack => ("ParameterMutationRolledBack", "PARAMETER_MUTATION_ROLLED_BACK"),
        RuntimeParameterMutationStatus::RollbackFailed => (
            "ParameterMutationRollbackFailed",
            "PARAMETER_MUTATION_ROLLBACK_FAILED",
        ),
    }
}

/// The words a mutation event's summary uses for a status.
pub open spec fn status_phrase(s: RuntimeParameterMutationStatus) -> Seq<char> {
    match s {
        RuntimeParameterMutationStatus::Proposed => "proposed"@,
        RuntimeParameterMutationStatus::Rejected => "rejected"@,
        RuntimeParameterMutationStatus::ActivationScheduled => "activation scheduled"@,
        RuntimeParameterMutationStatus::Activated => "activated"@,
        RuntimeParameterMutationStatus::ActivationFailed => "activation failed"@,
        RuntimeParameterMutationStatus::SafeWindowDenied => "safe window denied"@,
        RuntimeParameterMutationStatus::RollbackScheduled => "rollback scheduled"@,
        RuntimeParameterMutationStatus::RolledBack => "rolled back"@,
        RuntimeParameterMutationStatus::RollbackFailed => "rollback failed"@,
    }
}

fn status_phrase_text(s: RuntimeParameterMutationStatus) -> (r: &'static str)
    ensures
        r@ == status_phrase(s),
{
    match s {
        RuntimeParameterMutationStatus::Proposed => "proposed",
        RuntimeParameterMutationStatus::Rejected => "rejected",
        RuntimeParameterMutationStatus::ActivationScheduled => "activation scheduled",
        RuntimeParameterMutationStatus::Activated => "activated",
        RuntimeParameterMutationStatus::ActivationFailed => "activation failed",
        RuntimeParameterMutationStatus::SafeWindowDenied => "safe window denied",
        RuntimeParameterMutationStatus::RollbackScheduled => "rollback scheduled",
        RuntimeParameterMutationStatus::RolledBack => "rolled back",
        RuntimeParameterMutationStatus::RollbackFailed => "rollback failed",
    }
}

/// Rejections, failures and denials are warnings; the rest is information.
pub open spec fn is_warning_status(s: RuntimeParameterMutationStatus) -> bool {
    s == RuntimeParameterMutationStatus::Rejected || s == RuntimeParameterMutationStatus::ActivationFailed
        || s == RuntimeParameterMutationStatus::SafeWindowDenied || s == RuntimeParameterMutationStatus::RollbackFailed
}

pub open spec fn source_kind_text(k: RuntimeEvidenceSourceKind) -> Seq<char> {
    match k {
        RuntimeEvidenceSourceKind::Run => "run"@,
        RuntimeEvidenceSourceKind::Backtest => "backtest"@,
    }
}

/// The contract text of a source kind.
pub fn source_kind_value(k: RuntimeEvidenceSourceKind) -> (r: &'static str)
    ensures
        r@ == source_kind_text(k),
{
    match k {
        RuntimeEvidenceSourceKind::Run => "run",
        RuntimeEvidenceSourceKind::Backtest => "backtest",
    }
}

pub open spec fn opt_text_model(o: Option<String>) -> Json {
    match o {
        Some(s) => Json::Str(s@),
        None => Json::Null,
    }
}

pub open spec fn opt_u64_model(o: Option<u64>) -> Json {
    match o {
        Some(n) => Json::Number(dec(n as nat)),
        None => Json::Null,
    }
}

fn opt_text_json(o: &Option<String>) -> (r: JsonValue)
    ensures
        r@ == opt_text_model(*o),
{
    match o {
        Some(s) => json_str(s.as_str()),
        None => JsonValue::Null,
    }
}

fn opt_u64_json(o: Option<u64>) -> (r: JsonValue)
    ensures
        r@ == opt_u64_model(o),
{
    match o {
        Some(n) => json_u64(n),
        None => JsonValue::Null,
    }
}

pub open spec fn target_model(t: RuntimeParameterMutationTarget) -> Json {
    Json::Object(seq![
        ("module_key"@, Json::Str(t.module_key@)),
        ("node_id"@, Json::Str(t.node_id@)),
        ("parameter_path"@, Json::Str(t.parameter_path@)),
    ])
}

/// The JSON form of a target.
pub fn target_json(t: &RuntimeParameterMutationTarget) -> (r: JsonValue)
    ensures
        r@ == target_model(*t),
{
    let mut e: Vec<(String, JsonValue)> = Vec::new();
    push_entry(&mut e, "module_key", json_str(t.module_key.as_str()));
    push_entry(&mut e, "node_id", json_str(t.node_id.as_str()));
    push_entry(&mut e, "parameter_path", json_str(t.parameter_path.as_str()));
    assert(entries_model(e@) =~= seq![
        ("module_key"@, Json::Str(t.module_key@)),
        ("node_id"@, Json::Str(t.node_id@)),
        ("parameter_path"@, Json::Str(t.parameter_path@)),
    ]);
    JsonValue::Object(e)
}

pub open spec fn boundary_model(b: RuntimeParameterMutationBoundary) -> Json {
    Json::Object(seq![
        ("requested"@, Json::Str(b.requested@)),
        ("resolved_sequence_no"@, opt_u64_model(b.resolved_sequence_no)),
    ])
}

/// The JSON form of a boundary.
pub fn boundary_json(b: &RuntimeParameterMutationBoundary) -> (r: JsonValue)
    ensures
        r@ == boundary_model(*b),
{
    let mut e: Vec<(String, JsonValue)> = Vec::new();
    push_entry(&mut e, "requested", json_str(b.requested.as_str()));
    push_entry(&mut e, "resolved_sequence_no", opt_u64_json(b.resolved_sequence_no));
    assert(entries_model(e@) =~= seq![
        ("requested"@, Json::Str(b.requested@)),
        ("resolved_sequence_no"@, opt_u64_model(b.resolved_sequence_no)),
    ]);
    JsonValue::Object(e)
}

pub open spec fn governance_model(g: RuntimeParameterMutationGovernance) -> Json {
    Json::Object(seq![
        ("capability_hash"@, Json::Str(g.capability_hash@)),
        ("deployment_revision"@, Json::Str(g.deployment_revision@)),
        ("permission_boundary_model_version"@, Json::Str(g.permission_boundary_model_version@)),
        ("previous_parameter_version"@, Json::Str(g.previous_parameter_version@)),
        ("proposed_parameter_version"@, Json::Str(g.proposed_parameter_version@)),
        ("strategy_version"@, Json::Str(g.strategy_version@)),
    ])
}

/// The JSON form of a mutation's governance identity.
pub fn governance_json(g: &RuntimeParameterMutationGovernance) -> (r: JsonValue)
    ensures
        r@ == governance_model(*g),
{
    let mut e: Vec<(String, JsonValue)> = Vec::new();
    push_entry(&mut e, "capability_hash", json_str(g.capability_hash.as_str()));
    push_entry(&mut e, "deployment_revision", json_str(g.deployment_revision.as_str()));
    push_entry(&mut e, "permission_boundary_model_version", json_str(g.permission_boundary_model_version.as_str()));
    push_entry(&mut e, "previous_parameter_version", json_str(g.previous_parameter_version.as_str()));
    push_entry(&mut e, "proposed_parameter_version", json_str(g.proposed_parameter_version.as_str()));
    push_entry(&mut e, "strategy_version", json_str(g.strategy_version.as_str()));
    assert(entries_model(e@) =~= seq![
        ("capability_hash"@, Json::Str(g.capability_hash@)),
        ("deployment_revision"@, Json::Str(g.deployment_revision@)),
        ("permission_boundary_model_version"@, Json::Str(g.permission_boundary_model_version@)),
        ("previous_parameter_version"@, Json::Str(g.previous_parameter_version@)),
        ("proposed_parameter_version"@, Json::Str(g.proposed_parameter_version@)),
        ("strategy_version"@, Json::Str(g.strategy_version@)),
    ]);
    JsonValue::Object(e)
}

pub open spec fn activation_state_model(a: Option<RuntimeParameterMutationActivationState>) -> Json {
    match a {
        None => Json::Null,
        Some(a) => Json::Object(seq![
            ("activated_at_ms"@, opt_u64_model(a.activated_at_ms)),
            ("active_parameter_version"@, opt_text_model(a.active_parameter_version)),
            ("failure_reason"@, opt_text_model(a.failure_reason)),
            ("observation_deadline_ms"@, opt_u64_model(a.observation_deadline_ms)),
            ("requested_boundary"@, boundary_model(a.requested_boundary)),
            ("resolved_sequence_no"@, opt_u64_model(a.resolved_sequence_no)),
            ("scheduled_at_ms"@, opt_u64_model(a.scheduled_at_ms)),
        ]),
    }
}

/// The JSON form of an activation state; `null` when there is none.
pub fn activation_state_json(a: &Option<RuntimeParameterMutationActivationState>) -> (r: JsonValue)
    ensures
        r@ == activation_state_model(*a),
{
    match a {
        None => JsonValue::Null,
        Some(a) => {
            let mut e: Vec<(String, JsonValue)> = Vec::new();
            push_entry(&mut e, "activated_at_ms", opt_u64_json(a.activated_at_ms));
            push_entry(&mut e, "active_parameter_version", opt_text_json(&a.active_parameter_version));
            push_entry(&mut e, "failure_reason", opt_text_json(&a.failure_reason));
            push_entry(&mut e, "observation_deadline_ms", opt_u64_json(a.observation_deadline_ms));
            push_entry(&mut e, "requested_boundary", boundary_json(&a.requested_boundary));
            push_entry(&mut e, "resolved_sequence_no", opt_u64_json(a.resolved_sequence_no));
            push_entry(&mut e, "scheduled_at_ms", opt_u64_json(a.scheduled_at_ms));
            assert(entries_model(e@) =~= seq![
                ("activated_at_ms"@, opt_u64_model(a.activated_at_ms)),
                ("active_parameter_version"@, opt_text_model(a.active_parameter_version)),
                ("failure_reason"@, opt_text_model(a.failure_reason)),
                ("observation_deadline_ms"@, opt_u64_model(a.observation_deadline_ms)),
                ("requested_boundary"@, boundary_model(a.requested_boundary)),
                ("resolved_sequence_no"@, opt_u64_model(a.resolved_sequence_no)),
                ("scheduled_at_ms"@, opt_u64_model(a.scheduled_at_ms)),
            ]);
            JsonValue::Object(e)
        },
    }
}

pub open spec fn snapshot_model(s: RuntimeParameterMutationSafeWindowSnapshot) -> Json {
    Json::Object(seq![
        ("cooldown_remaining_ms"@, Json::Number(dec(s.cooldown_remaining_ms as nat))),
        ("data_freshness_ms"@, Json::Number(dec(s.data_freshness_ms as nat))),
        ("open_order_count"@, Json::Number(dec(s.open_order_count as nat))),
        ("outstanding_risk_violation"@, Json::Bool(s.outstanding_risk_violation)),
        ("policy_version"@, Json::Str(s.policy_version@)),
        ("portfolio_exposure_bps"@, Json::Number(int_text(s.portfolio_exposure_bps as int))),
        ("runtime_status"@, Json::Str(s.runtime_status@)),
    ])
}

/// The JSON form of a safe-window snapshot.
pub fn snapshot_json(s: &RuntimeParameterMutationSafeWindowSnapshot) -> (r: JsonValue)
    ensures
        r@ == snapshot_model(*s),
{
    let mut e: Vec<(String, JsonValue)> = Vec::new();
    push_entry(&mut e, "cooldown_remaining_ms", json_u64(s.cooldown_remaining_ms));
    push_entry(&mut e, "data_freshness_ms", json_u64(s.data_freshness_ms));
    push_entry(&mut e, "open_order_count", json_u64(s.open_order_count));
    push_entry(&mut e, "outstanding_risk_violation", JsonValue::Bool(s.outstanding_risk_violation));
    push_entry(&mut e, "policy_version", json_str(s.policy_version.as_str()));
    push_entry(&mut e, "portfolio_exposure_bps", JsonValue::Number(i64_text(s.portfolio_exposure_bps)));
    push_entry(&mut e, "runtime_status", json_str(s.runtime_status.as_str()));
    assert(entries_model(e@) =~= seq![
        ("cooldown_remaining_ms"@, Json::Number(dec(s.cooldown_remaining_ms as nat))),
        ("data_freshness_ms"@, Json::Number(dec(s.data_freshness_ms as nat))),
        ("open_order_count"@, Json::Number(dec(s.open_order_count as nat))),
        ("outstanding_risk_violation"@, Json::Bool(s.outstanding_risk_violation)),
        ("policy_version"@, Json::Str(s.policy_version@)),
        ("portfolio_exposure_bps"@, Json::Number(int_text(s.portfolio_exposure_bps as int))),
        ("runtime_status"@, Json::Str(s.runtime_status@)),
    ]);
    JsonValue::Object(e)
}

pub open spec fn safe_window_model(w: Option<RuntimeParameterMutationSafeWindowState>) -> Json {
    match w {
        None => Json::Null,
        Some(w) => Json::Object(seq![
            ("allowed"@, Json::Bool(w.allowed)),
            ("message"@, Json::Str(w.message@)),
            ("policy_version"@, Json::Str(w.policy_version@)),
            ("reason_code"@, Json::Str(w.reason_code@)),
            ("retry_after_ms"@, opt_u64_model(w.retry_after_ms)),
            ("retryable"@, Json::Bool(w.retryable)),
            ("snapshot"@, snapshot_model(w.snapshot)),
            ("status"@, Json::Str(w.status@)),
        ]),
    }
}

/// The JSON form of a safe-window state; `null` when there is none.
pub fn safe_window_json(w: &Option<RuntimeParameterMutationSafeWindowState>) -> (r: JsonValue)
    ensures
        r@ == safe_window_model(*w),
{
    match w {
        None => JsonValue::Null,
        Some(w) => {
            let mut e: Vec<(String, JsonValue)> = Vec::new();
            push_entry(&mut e, "allowed", JsonValue::Bool(w.allowed));
            push_entry(&mut e, "message", json_str(w.message.as_str()));
            push_entry(&mut e, "policy_version", json_str(w.policy_version.as_str()));
            push_entry(&mut e, "reason_code", json_str(w.reason_code.as_str()));
            push_entry(&mut e, "retry_after_ms", opt_u64_json(w.retry_after_ms));
            push_entry(&mut e, "retryable", JsonValue::Bool(w.retryable));
            push_entry(&mut e, "snapshot", snapshot_json(&w.snapshot));
            push_entry(&mut e, "status", json_str(w.status.as_str()));
            assert(entries_model(e@) =~= seq![
                ("allowed"@, Json::Bool(w.allowed)),
                ("message"@, Json::Str(w.message@)),
                ("policy_version"@, Json::Str(w.policy_version@)),
                ("reason_code"@, Json::Str(w.reason_code@)),
                ("retry_after_ms"@, opt_u64_model(w.retry_after_ms)),
                ("retryable"@, Json::Bool(w.retryable)),
                ("snapshot"@, snapshot_model(w.snapshot)),
                ("status"@, Json::Str(w.status@)),
            ]);
            JsonValue::Object(e)
        },
    }
}

/// The payload of the event recorded when a mutation reaches `status`.
pub open spec fn mutation_payload(r: RuntimeParameterMutationRecord, status: RuntimeParameterMutationStatus) -> Json {
    Json::Object(seq![
        ("activation_boundary"@, boundary_model(r.activation_boundary)),
        ("activation_state"@, activation_state_model(r.activation_state)),
        ("actor"@, actor_model(Some(&r.actor))),
        ("governance"@, governance_model(r.governance)),
        ("old_parameter_version"@, Json::Str(r.old_parameter_version@)),
        ("proposal_id"@, Json::Str(r.proposal_id@)),
        ("proposed_parameter_version"@, Json::Str(r.proposed_parameter_version@)),
        ("reason"@, Json::Str(r.reason@)),
        ("reason_code"@, Json::Str(mutation_reason_code(status))),
        ("rejection_reason"@, opt_text_model(r.rejection_reason)),
        ("rollback_of"@, opt_text_model(r.rollback_of)),
        ("rollback_target_parameter_version"@, opt_text_model(r.rollback_target_parameter_version)),
        ("safe_window_state"@, safe_window_model(r.safe_window_state)),
        ("source_id"@, Json::Str(r.source_id@)),
        ("source_kind"@, Json::Str(source_kind_text(r.source_kind))),
        ("status"@, Json::Str(status_text(status))),
        ("target"@, target_model(r.target)),
    ])
}

/// What the event recorded when a mutation reaches `status` at `time` is.
pub open spec fn is_mutation_event(
    e: FrontendRuntimeEvent,
    r: RuntimeParameterMutationRecord,
    status: RuntimeParameterMutationStatus,
    time: u64,
) -> bool {
    &&& e.event_id@ == "event_"@ + r.proposal_id@ + "_"@ + status_text(status) + "_"@ + dec(time as nat)
    &&& e.event_type@ == mutation_event_type(status)
    &&& e.source_id@ == r.target.module_key@
    &&& e.node_id@ == r.target.node_id@
    &&& e.event_time_ms == time
    &&& e.severity@ == (if is_warning_status(status) { "Warn"@ } else { "Info"@ })
    &&& e.summary@ == "Parameter mutation "@ + status_phrase(status) + " for "@ + r.target.node_id@ + "."@
        + r.target.parameter_path@
    &&& e.payload@ == mutation_payload(r, status)
    &&& envelope_unset(e.envelope)
}

/// The event that records a mutation reaching `status`, with no envelope yet.
pub fn build_runtime_parameter_mutation_event(
    record: &RuntimeParameterMutationRecord,
    status: RuntimeParameterMutationStatus,
    event_time_ms: u64,
) -> (r: FrontendRuntimeEvent)
    ensures
        is_mutation_event(r, *record, status, event_time_ms),
{
    let (event_type, reason_code) = mutation_event_contract(status);
    let mut event_id = cat3("event_", record.proposal_id.as_str(), "_");
    event_id.append(status_contract_value(status));
    event_id.append("_");
    event_id.append(u64_text(event_time_ms).as_str());
    let warn = match status {
        RuntimeParameterMutationStatus::Rejected | RuntimeParameterMutationStatus::ActivationFailed
        | RuntimeParameterMutationStatus::SafeWindowDenied | RuntimeParameterMutationStatus::RollbackFailed => true,
        _ => false,
    };
    let mut summary = cat3("Parameter mutation ", status_phrase_text(status), " for ");
    summary.append(record.target.node_id.as_str());
    summary.append(".");
    summary.append(record.target.parameter_path.as_str());
    let mut e: Vec<(String, JsonValue)> = Vec::new();
    push_entry(&mut e, "activation_boundary", boundary_json(&record.activation_boundary));
    push_entry(&mut e, "activation_state", activation_state_json(&record.activation_state));
    push_entry(&mut e, "actor", actor_json(&record.actor));
    push_entry(&mut e, "governance", governance_json(&record.governance));
    push_entry(&mut e, "old_parameter_version", json_str(record.old_parameter_version.as_str()));
    push_entry(&mut e, "proposal_id", json_str(record.proposal_id.as_str()));
    push_entry(&mut e, "proposed_parameter_version", json_str(record.proposed_parameter_version.as_str()));
    push_entry(&mut e, "reason", json_str(record.reason.as_str()));
    push_entry(&mut e, "reason_code", json_str(reason_code));
    push_entry(&mut e, "rejection_reason", opt_text_json(&record.rejection_reason));
    push_entry(&mut e, "rollback_of", opt_text_json(&record.rollback_of));
    push_entry(&mut e, "rollback_target_parameter_version", opt_text_json(&record.rollback_target_parameter_version));
    push_entry(&mut e, "safe_window_state", safe_window_json(&record.safe_window_state));
    push_entry(&mut e, "source_id", json_str(record.source_id.as_str()));
    push_entry(&mut e, "source_kind", json_str(source_kind_value(record.source_kind)));
    push_entry(&mut e, "status", json_str(status_contract_value(status)));
    push_entry(&mut e, "target", target_json(&record.target));
    assert(entries_model(e@) =~= match mutation_payload(*record, status) {
        Json::Object(entries) => entries,
        _ => seq![],
    });
    FrontendRuntimeEvent {
        event_id,
        event_type: owned(event_type),
        source_id: owned(record.target.module_key.as_str()),
        node_id: owned(record.target.node_id.as_str()),
        event_time_ms,
        severity: owned(if warn { "Warn" } else { "Info" }),
        summary,
        payload: JsonValue::Object(e),
        envelope: RuntimeEventEnvelope::empty(),
    }
}


/// The lifecycle entry that records the event `e` of a transition to `status`.
pub open spec fn is_lifecycle_entry(
    entry: RuntimeParameterMutationLifecycleEntry,
    status: RuntimeParameterMutationStatus,
    e: FrontendRuntimeEvent,
    sequence_no: u64,
    message: Seq<char>,
) -> bool {
    &&& entry.status == status
    &&& entry.event_id == e.event_id
    &&& entry.sequence_no == sequence_no
    &&& entry.occurred_at_ms == e.event_time_ms
    &&& entry.reason_code@ == mutation_reason_code(status)
    &&& entry.message@ == message
}

/// The lifecycle entry for a transition's event.
pub fn mutation_lifecycle_entry(
    status: RuntimeParameterMutationStatus,
    event: &FrontendRuntimeEvent,
    sequence_no: u64,
    message: String,
) -> (r: RuntimeParameterMutationLifecycleEntry)
    ensures
        is_lifecycle_entry(r, status, *event, sequence_no, message@),
{
    let (_, reason_code) = mutation_event_contract(status);
    RuntimeParameterMutationLifecycleEntry {
        status,
        event_id: event.event_id.clone(),
        sequence_no,
        occurred_at_ms: event.event_time_ms,
        reason_code: owned(reason_code),
        message,
    }
}

/// A copy of a governance snapshot.
pub fn clone_governance_snapshot(g: &RuntimeGovernanceSnapshot) -> (r: RuntimeGovernanceSnapshot)
    ensures
        r == *g,
{
    RuntimeGovernanceSnapshot {
        capability_hash: g.capability_hash.clone(),
        strategy_version: g.strategy_version.clone(),
        parameter_version: g.parameter_version.clone(),
        deployment_revision: g.deployment_revision.clone(),
        governance_source: g.governance_source.clone(),
        permission_boundary: RuntimePermissionBoundary {
            model_version: g.permission_boundary.model_version.clone(),
            ai_write_policy: g.permission_boundary.ai_write_policy.clone(),
        },
    }
}

/// `r` is `g` with its parameter version replaced by `v`.
pub open spec fn governance_with_version(r: RuntimeGovernanceSnapshot, g: RuntimeGovernanceSnapshot, v: Seq<char>) -> bool {
    &&& r.capability_hash == g.capability_hash
    &&& r.strategy_version == g.strategy_version
    &&& r.parameter_version@ == v
    &&& r.deployment_revision == g.deployment_revision
    &&& r.governance_source == g.governance_source
    &&& r.permission_boundary == g.permission_boundary
}

/// The run's governance with another parameter version.
pub fn governance_with_parameter_version(governance: &RuntimeGovernanceSnapshot, parameter_version: &str) -> (r: RuntimeGovernanceSnapshot)
    ensures
        governance_with_version(r, *governance, parameter_version@),
{
    let mut g = clone_governance_snapshot(governance);
    g.parameter_version = owned(parameter_version);
    g
}

/// The governance identity a mutation record carries: the run's deployment, with the
/// parameter version before and after the mutation.
pub open spec fn is_mutation_governance(
    r: RuntimeParameterMutationGovernance,
    g: RuntimeGovernanceSnapshot,
    previous: Seq<char>,
    proposed: Seq<char>,
) -> bool {
    &&& r.capability_hash == g.capability_hash
    &&& r.deployment_revision == g.deployment_revision
    &&& r.strategy_version == g.strategy_version
    &&& r.previous_parameter_version@ == previous
    &&& r.proposed_parameter_version@ == proposed
    &&& r.permission_boundary_model_version == g.permission_boundary.model_version
}

pub fn runtime_parameter_mutation_governance(
    source_governance: &RuntimeGovernanceSnapshot,
    old_parameter_version: String,
    proposed_parameter_version: String,
) -> (r: RuntimeParameterMutationGovernance)
    ensures
        is_mutation_governance(r, *source_governance, old_parameter_version@, proposed_parameter_version@),
{
    RuntimeParameterMutationGovernance {
        capability_hash: source_governance.capability_hash.clone(),
        deployment_revision: source_governance.deployment_revision.clone(),
        strategy_version: source_governance.strategy_version.clone(),
        previous_parameter_version: old_parameter_version,
        proposed_parameter_version,
        permission_boundary_model_version: source_governance.permission_boundary.model_version.clone(),
    }
}

/// The mode of the first event, from `i` on, whose mode is not blank; `paper` when none is.
pub open spec fn mode_from(events: Seq<FrontendRuntimeEvent>, i: int) -> Seq<char>
    decreases events.len() - i,
{
    if i < 0 || i >= events.len() {
        "paper"@
    } else if trim(events[i].envelope.mode@).len() > 0 {
        trim(events[i].envelope.mode@)
    } else {
        mode_from(events, i + 1)
    }
}

/// The mode a run's events were recorded in.
pub fn runtime_mode_from_events(events: &Vec<FrontendRuntimeEvent>) -> (r: String)
    ensures
        r@ == mode_from(events@, 0),
{
    let mut i: usize = 0;
    while i < events.len()
        invariant
            i <= events@.len(),
            mode_from(events@, 0) == mode_from(events@, i as int),
        decreases events@.len() - i,
    {
        let m = trim_str(events[i].envelope.mode.as_str());
        if m.unicode_len() > 0 {
            return owned(m);
        }
        i += 1;
    }
    owned("paper")
}

/// The sequence number of a run's last event; the number of events when there is none.
pub open spec fn last_sequence_no(events: Seq<FrontendRuntimeEvent>) -> u64 {
    if events.len() == 0 {
        0
    } else {
        events.last().envelope.sequence_no
    }
}

pub fn current_sequence_no(events: &Vec<FrontendRuntimeEvent>) -> (r: u64)
    ensures
        r == last_sequence_no(events@),
{
    let n = events.len();
    if n == 0 {
        0
    } else {
        events[n - 1].envelope.sequence_no
    }
}

/// Why a target is refused, as an error code and a message; `None` when it is accepted.
pub open spec fn target_problem(t: RuntimeParameterMutationTarget, supported: Seq<String>) -> Option<(Seq<char>, Seq<char>)> {
    if is_blank(t.node_id@) {
        Some(("bad_request"@, "target.node_id 是运行时参数变更提案的必填字段"@))
    } else if is_blank(t.module_key@) {
        Some(("bad_request"@, "target.module_key 是运行时参数变更提案的必填字段"@))
    } else if is_blank(t.parameter_path@) {
        Some(("bad_request"@, "target.parameter_path 是运行时参数变更提案的必填字段"@))
    } else if !(exists|i: int| 0 <= i < supported.len() && #[trigger] supported[i]@ == t.module_key@) {
        Some(("capability_gated"@, "模块 `"@ + t.module_key@ + "` 未启用以支持运行时参数变更提案"@))
    } else {
        None
    }
}

/// Refuses a target with a blank node, module or parameter path, or whose module is not
/// among the modules the frontend supports.
pub fn validate_runtime_parameter_mutation_target(
    target: &RuntimeParameterMutationTarget,
    supported_module_keys: &Vec<String>,
) -> (r: Result<(), ApiError>)
    ensures
        r.is_ok() == (target_problem(*target, supported_module_keys@) is None),
        r matches Err(e) ==> (target_problem(*target, supported_module_keys@) matches Some(p) && is_bad_request(e, p.0, p.1)),
{
    if is_blank_str(target.node_id.as_str()) {
        return Err(bad_request("bad_request", owned("target.node_id 是运行时参数变更提案的必填字段")));
    }
    if is_blank_str(target.module_key.as_str()) {
        return Err(bad_request("bad_request", owned("target.module_key 是运行时参数变更提案的必填字段")));
    }
    if is_blank_str(target.parameter_path.as_str()) {
        return Err(bad_request("bad_request", owned("target.parameter_path 是运行时参数变更提案的必填字段")));
    }
    let mut i: usize = 0;
    while i < supported_module_keys.len()
        invariant
            i <= supported_module_keys@.len(),
            !is_blank(target.node_id@),
            !is_blank(target.module_key@),
            !is_blank(target.parameter_path@),
            forall|k: int| 0 <= k < i ==> supported_module_keys@[k]@ != target.module_key@,
        decreases supported_module_keys@.len() - i,
    {
        if str_eq(supported_module_keys[i].as_str(), target.module_key.as_str()) {
            assert(supported_module_keys@[i as int]@ == target.module_key@);
            return Ok(());
        }
        i += 1;
    }
    let mut m = cat("模块 `", target.module_key.as_str());
    m.append("` 未启用以支持运行时参数变更提案");
    Err(bad_request("capability_gated", m))
}


/// `after` is the events `before` followed by the `new` events, each with the envelope
/// for the run, the mode and the governance paired with it, numbered on from `start`.
pub open spec fn events_appended(
    after: Seq<FrontendRuntimeEvent>,
    before: Seq<FrontendRuntimeEvent>,
    new: Seq<(FrontendRuntimeEvent, RuntimeGovernanceSnapshot)>,
    run_id: Seq<char>,
    mode: Seq<char>,
    start: u64,
) -> bool {
    &&& after.len() == before.len() + new.len()
    &&& forall|i: int| 0 <= i < before.len() ==> after[i] == before[i]
    &&& forall|k: int|
        #![trigger new[k]]
        0 <= k < new.len() ==> {
            &&& same_event_body(after[before.len() + k], new[k].0)
            &&& envelope_attached(after[before.len() + k].envelope, new[k].0, run_id, mode, new[k].1, (start + k + 1) as u64)
        }
}

/// Appends a mutation's events to its run, each with the governed envelope for the run,
/// in the run's mode, under the governance paired with it, numbered on from the run's
/// last event; an activated parameter version becomes the run's. The run's envelopes are
/// then validated.
pub fn append_parameter_mutation_events(
    run_events: &mut Vec<FrontendRuntimeEvent>,
    run_governance: &mut RuntimeGovernanceSnapshot,
    run_id: &str,
    events: Vec<(FrontendRuntimeEvent, RuntimeGovernanceSnapshot)>,
    active_parameter_version: Option<String>,
) -> (r: Result<(), String>)
    requires
        last_sequence_no(old(run_events)@) + events@.len() <= u64::MAX,
    ensures
        events_appended(
            final(run_events)@,
            old(run_events)@,
            events@,
            run_id@,
            mode_from(old(run_events)@, 0),
            last_sequence_no(old(run_events)@),
        ),
        match active_parameter_version {
            Some(v) => governance_with_version(*final(run_governance), *old(run_governance), v@),
            None => *final(run_governance) == *old(run_governance),
        },
        r.is_ok() == envelopes_valid(final(run_events)@, run_id@, *final(run_governance)),
        r is Err ==> envelope_failure_message(final(run_events)@, run_id@, *final(run_governance), r->Err_0@),
{
    let ghost before = run_events@;
    let ghost new = events@;
    let mode = runtime_mode_from_events(run_events);
    let start = current_sequence_no(run_events);
    let n = events.len();
    let mut pending = events;
    let mut i: usize = 0;
    while i < n
        invariant
            n == new.len(),
            i <= n,
            start == last_sequence_no(before),
            start + n <= u64::MAX,
            mode@ == mode_from(before, 0),
            pending@ == new.subrange(i as int, n as int),
            run_events@.len() == before.len() + i,
            forall|j: int| 0 <= j < before.len() ==> run_events@[j] == before[j],
            forall|k: int|
                #![trigger new[k]]
                0 <= k < i ==> {
                    &&& same_event_body(run_events@[before.len() + k], new[k].0)
                    &&& envelope_attached(
                        run_events@[before.len() + k].envelope,
                        new[k].0,
                        run_id@,
                        mode@,
                        new[k].1,
                        (start + k + 1) as u64,
                    )
                },
        decreases n - i,
    {
        assert(pending@[0] == new[i as int]);
        let (mut ev, gov) = pending.remove(0);
        attach_runtime_event_envelope(&mut ev, run_id, mode.as_str(), &gov, start + (i as u64) + 1);
        run_events.push(ev);
        assert(pending@ =~= new.subrange(i + 1, n as int));
        i += 1;
    }
    match active_parameter_version {
        Some(v) => {
            run_governance.parameter_version = v;
        },
        None => {},
    }
    validate_runtime_event_envelopes(run_events, run_id, run_governance)
}


/// A transition worked out for a mutation: the record as it becomes, the events to append
/// to its run with the governance each is recorded under, the parameter version that
/// becomes active, and, when the safe window stopped it, the refusal to answer with once
/// the record and the events are kept.
#[derive(Debug)]
pub struct RuntimeParameterMutationTransition {
    pub record: RuntimeParameterMutationRecord,
    pub events: Vec<(FrontendRuntimeEvent, RuntimeGovernanceSnapshot)>,
    pub active_parameter_version: Option<String>,
    pub refusal: Option<ApiError>,
}

/// Which transition is under way.
#[derive(Clone, Copy, PartialEq, Eq, Debug, Structural)]
pub enum TransitionKind {
    Activation,
    Rollback,
}

pub open spec fn scheduled_status(k: TransitionKind) -> RuntimeParameterMutationStatus {
    match k {
        TransitionKind::Activation => RuntimeParameterMutationStatus::ActivationScheduled,
        TransitionKind::Rollback => RuntimeParameterMutationStatus::RollbackScheduled,
    }
}

pub open spec fn completed_status(k: TransitionKind) -> RuntimeParameterMutationStatus {
    match k {
        TransitionKind::Activation => RuntimeParameterMutationStatus::Activated,
        TransitionKind::Rollback => RuntimeParameterMutationStatus::RolledBack,
    }
}

pub open spec fn failed_status(k: TransitionKind) -> RuntimeParameterMutationStatus {
    match k {
        TransitionKind::Activation => RuntimeParameterMutationStatus::ActivationFailed,
        TransitionKind::Rollback => RuntimeParameterMutationStatus::RollbackFailed,
    }
}

pub open spec fn scheduled_message(k: TransitionKind) -> Seq<char> {
    match k {
        TransitionKind::Activation => "activation scheduled at an explicit boundary"@,
        TransitionKind::Rollback => "rollback scheduled at an explicit boundary"@,
    }
}

pub open spec fn completed_message(k: TransitionKind) -> Seq<char> {
    match k {
        TransitionKind::Activation => "activation boundary reached and parameter version became active"@,
        TransitionKind::Rollback => "rollback boundary reached and prior parameter version became active"@,
    }
}

pub open spec fn failed_message(k: TransitionKind) -> Seq<char> {
    match k {
        TransitionKind::Activation => "activation boundary was already behind the schedule event"@,
        TransitionKind::Rollback => "rollback boundary was already behind the schedule event"@,
    }
}

pub open spec fn failure_reason(k: TransitionKind) -> Seq<char> {
    match k {
        TransitionKind::Activation => "resolved boundary is not after the scheduling event"@,
        TransitionKind::Rollback => "resolved rollback boundary is not after the scheduling event"@,
    }
}

/// `a + b`, or `u64::MAX` where that overflows.
pub open spec fn sat_add(a: u64, b: u64) -> u64 {
    if a + b > u64::MAX {
        u64::MAX
    } else {
        (a + b) as u64
    }
}

pub(crate) fn saturating_add_u64(a: u64, b: u64) -> (r: u64)
    ensures
        r == sat_add(a, b),
{
    if a > u64::MAX - b {
        u64::MAX
    } else {
        a + b
    }
}

/// The two records agree on everything but their status, times, boundary, activation
/// and safe-window states, actor and lifecycle.
pub open spec fn same_mutation_identity(a: RuntimeParameterMutationRecord, b: RuntimeParameterMutationRecord) -> bool {
    &&& a.proposal_id == b.proposal_id
    &&& a.source_kind == b.source_kind
    &&& a.source_id == b.source_id
    &&& a.graph_id == b.graph_id
    &&& a.target == b.target
    &&& a.old_value@ == b.old_value@
    &&& a.new_value@ == b.new_value@
    &&& a.old_parameter_version == b.old_parameter_version
    &&& a.proposed_parameter_version == b.proposed_parameter_version
    &&& a.rejection_reason == b.rejection_reason
    &&& a.rollback_of == b.rollback_of
    &&& a.rollback_target_parameter_version == b.rollback_target_parameter_version
    &&& a.reason == b.reason
    &&& a.governance == b.governance
    &&& a.created_at_ms == b.created_at_ms
}

/// The record `r` as it stood when its event for `status` was built, with activation state `a`.
pub open spec fn at_stage(
    r: RuntimeParameterMutationRecord,
    status: RuntimeParameterMutationStatus,
    a: Option<RuntimeParameterMutationActivationState>,
) -> RuntimeParameterMutationRecord {
    RuntimeParameterMutationRecord { status: status, activation_state: a, ..r }
}

/// A transition that the safe window refused: the record is marked denied with one
/// denial event, recorded under the parameter version before the mutation, and the
/// refusal carries the safe window's message.
pub open spec fn denied_transition(
    t: RuntimeParameterMutationTransition,
    r0: RuntimeParameterMutationRecord,
    cur: u64,
    gov: RuntimeGovernanceSnapshot,
    now: u64,
) -> bool {
    let rec = t.record;
    &&& r0.safe_window_state matches Some(w)
    &&& same_mutation_identity(rec, r0)
    &&& rec.actor == r0.actor
    &&& rec.activation_boundary == r0.activation_boundary
    &&& rec.activation_state == r0.activation_state
    &&& rec.safe_window_state == r0.safe_window_state
    &&& rec.status == RuntimeParameterMutationStatus::SafeWindowDenied
    &&& rec.updated_at_ms == now
    &&& t.events@.len() == 1
    &&& is_mutation_event(t.events@[0].0, rec, RuntimeParameterMutationStatus::SafeWindowDenied, now)
    &&& governance_with_version(t.events@[0].1, gov, r0.old_parameter_version@)
    &&& rec.lifecycle@.len() == r0.lifecycle@.len() + 1
    &&& rec.lifecycle@.subrange(0, r0.lifecycle@.len() as int) == r0.lifecycle@
    &&& is_lifecycle_entry(rec.lifecycle@.last(), RuntimeParameterMutationStatus::SafeWindowDenied, t.events@[0].0, (cur + 1) as u64, r0.safe_window_state->0.message@)
    &&& t.active_parameter_version is None
    &&& t.refusal matches Some(e) && is_bad_request(e, "parameter_mutation_safe_window_denied"@, r0.safe_window_state->0.message@)
}

fn deny_for_safe_window(
    record: RuntimeParameterMutationRecord,
    current_sequence_no: u64,
    source_governance: &RuntimeGovernanceSnapshot,
    now_ms: u64,
) -> (t: RuntimeParameterMutationTransition)
    requires
        record.safe_window_state is Some,
        current_sequence_no < u64::MAX,
    ensures
        denied_transition(t, record, current_sequence_no, *source_governance, now_ms),
{
    let ghost r0 = record;
    let mut record = record;
    let message = match &record.safe_window_state {
        Some(w) => w.message.clone(),
        None => String::new(),
    };
    record.status = RuntimeParameterMutationStatus::SafeWindowDenied;
    record.updated_at_ms = now_ms;
    let event = build_runtime_parameter_mutation_event(&record, RuntimeParameterMutationStatus::SafeWindowDenied, now_ms);
    let entry = mutation_lifecycle_entry(
        RuntimeParameterMutationStatus::SafeWindowDenied,
        &event,
        current_sequence_no + 1,
        message.clone(),
    );
    let ghost before_push = record;
    record.lifecycle.push(entry);
    assert(record.lifecycle@.subrange(0, r0.lifecycle@.len() as int) =~= r0.lifecycle@);
    assert(is_mutation_event(event, record, RuntimeParameterMutationStatus::SafeWindowDenied, now_ms)) by {
        assert(mutation_payload(record, RuntimeParameterMutationStatus::SafeWindowDenied) == mutation_payload(
            before_push,
            RuntimeParameterMutationStatus::SafeWindowDenied,
        ));
    }
    let gov = governance_with_parameter_version(source_governance, record.old_parameter_version.as_str());
    let mut events: Vec<(FrontendRuntimeEvent, RuntimeGovernanceSnapshot)> = Vec::new();
    events.push((event, gov));
    RuntimeParameterMutationTransition {
        record,
        events,
        active_parameter_version: None,
        refusal: Some(bad_request("parameter_mutation_safe_window_denied", message)),
    }
}


fn clone_boundary(b: &RuntimeParameterMutationBoundary) -> (r: RuntimeParameterMutationBoundary)
    ensures
        r == *b,
{
    RuntimeParameterMutationBoundary { requested: b.requested.clone(), resolved_sequence_no: b.resolved_sequence_no }
}

/// The activation state right after scheduling.
pub open spec fn scheduled_state(
    requested: RuntimeParameterMutationBoundary,
    resolved_sequence_no: Option<u64>,
    now: u64,
    deadline: Option<u64>,
) -> RuntimeParameterMutationActivationState {
    RuntimeParameterMutationActivationState {
        requested_boundary: requested,
        resolved_sequence_no: resolved_sequence_no,
        scheduled_at_ms: Some(now),
        activated_at_ms: None,
        active_parameter_version: None,
        failure_reason: None,
        observation_deadline_ms: deadline,
    }
}

/// Activations are watched for a minute after they are scheduled; rollbacks are not.
pub open spec fn observation_deadline(k: TransitionKind, now: u64) -> Option<u64> {
    match k {
        TransitionKind::Activation => Some(sat_add(now, 60000)),
        TransitionKind::Rollback => None,
    }
}

/// The transition completes at once when the boundary is the next cycle's start.
pub open spec fn completes_at_once(b: RuntimeParameterMutationBoundary) -> bool {
    b.requested@ == "next_cycle_start"@
}

/// The transition fails when the boundary is not after the scheduling event.
pub open spec fn boundary_already_passed(b: RuntimeParameterMutationBoundary, cur: u64) -> bool {
    !completes_at_once(b) && (b.resolved_sequence_no matches Some(n) && n <= cur + 1)
}

/// A scheduled transition: the record takes the resolved boundary and a scheduled
/// activation state, and one event records the scheduling; when the boundary is the next
/// cycle's start it completes at once, when the boundary is already behind the scheduling
/// event it fails, each with a second event; otherwise it stays scheduled.
pub open spec fn scheduled_transition(
    t: RuntimeParameterMutationTransition,
    r0: RuntimeParameterMutationRecord,
    kind: TransitionKind,
    cur: u64,
    gov: RuntimeGovernanceSnapshot,
    requested: RuntimeParameterMutationBoundary,
    resolved: RuntimeParameterMutationBoundary,
    now: u64,
) -> bool {
    let rec = t.record;
    let later = sat_add(now, 1);
    let init = scheduled_state(requested, resolved.resolved_sequence_no, now, observation_deadline(kind, now));
    let done = completes_at_once(resolved);
    let failed = boundary_already_passed(resolved, cur);
    &&& same_mutation_identity(rec, r0)
    &&& rec.actor == r0.actor
    &&& rec.safe_window_state == r0.safe_window_state
    &&& rec.activation_boundary == resolved
    &&& rec.activation_state == Some(
        if done {
            RuntimeParameterMutationActivationState {
                activated_at_ms: Some(later),
                active_parameter_version: Some(r0.proposed_parameter_version),
                ..init
            }
        } else if failed {
            RuntimeParameterMutationActivationState { failure_reason: rec.activation_state->0.failure_reason, ..init }
        } else {
            init
        },
    )
    &&& failed ==> opt_text_model(rec.activation_state->0.failure_reason) == Json::Str(failure_reason(kind))
    &&& rec.status == (if done {
        completed_status(kind)
    } else if failed {
        failed_status(kind)
    } else {
        scheduled_status(kind)
    })
    &&& rec.updated_at_ms == (if done || failed { later } else { now })
    &&& t.events@.len() == (if done || failed { 2int } else { 1int })
    &&& is_mutation_event(
        t.events@[0].0,
        at_stage(rec, scheduled_status(kind), Some(init)),
        scheduled_status(kind),
        now,
    )
    &&& governance_with_version(t.events@[0].1, gov, r0.old_parameter_version@)
    &&& rec.lifecycle@.len() == r0.lifecycle@.len() + t.events@.len()
    &&& rec.lifecycle@.subrange(0, r0.lifecycle@.len() as int) == r0.lifecycle@
    &&& is_lifecycle_entry(
        rec.lifecycle@[r0.lifecycle@.len() as int],
        scheduled_status(kind),
        t.events@[0].0,
        (cur + 1) as u64,
        scheduled_message(kind),
    )
    &&& done ==> {
        &&& is_mutation_event(t.events@[1].0, rec, completed_status(kind), later)
        &&& governance_with_version(t.events@[1].1, gov, r0.proposed_parameter_version@)
        &&& is_lifecycle_entry(rec.lifecycle@[r0.lifecycle@.len() as int + 1], completed_status(kind), t.events@[1].0, (cur + 2) as u64, completed_message(kind))
        &&& t.active_parameter_version == Some(r0.proposed_parameter_version)
    }
    &&& failed ==> {
        &&& is_mutation_event(t.events@[1].0, rec, failed_status(kind), later)
        &&& t.events@[1].1 == gov
        &&& is_lifecycle_entry(rec.lifecycle@[r0.lifecycle@.len() as int + 1], failed_status(kind), t.events@[1].0, (cur + 2) as u64, failed_message(kind))
    }
    &&& !done ==> t.active_parameter_version is None
    &&& t.refusal is None
}

fn transition_status(kind: TransitionKind, stage: u8) -> (r: RuntimeParameterMutationStatus)
    requires
        stage < 3,
    ensures
        stage == 0 ==> r == scheduled_status(kind),
        stage == 1 ==> r == completed_status(kind),
        stage == 2 ==> r == failed_status(kind),
{
    match kind {
        TransitionKind::Activation => if stage == 0 {
            RuntimeParameterMutationStatus::ActivationScheduled
        } else if stage == 1 {
            RuntimeParameterMutationStatus::Activated
        } else {
            RuntimeParameterMutationStatus::ActivationFailed
        },
        TransitionKind::Rollback => if stage == 0 {
            RuntimeParameterMutationStatus::RollbackScheduled
        } else if stage == 1 {
            RuntimeParameterMutationStatus::RolledBack
        } else {
            RuntimeParameterMutationStatus::RollbackFailed
        },
    }
}

fn transition_message(kind: TransitionKind, stage: u8) -> (r: String)
    requires
        stage < 4,
    ensures
        stage == 0 ==> r@ == scheduled_message(kind),
        stage == 1 ==> r@ == completed_message(kind),
        stage == 2 ==> r@ == failed_message(kind),
        stage == 3 ==> r@ == failure_reason(kind),
{
    match kind {
        TransitionKind::Activation => owned(
            if stage == 0 {
                "activation scheduled at an explicit boundary"
            } else if stage == 1 {
                "activation boundary reached and parameter version became active"
            } else if stage == 2 {
                "activation boundary was already behind the schedule event"
            } else {
                "resolved boundary is not after the scheduling event"
            },
        ),
        TransitionKind::Rollback => owned(
            if stage == 0 {
                "rollback scheduled at an explicit boundary"
            } else if stage == 1 {
                "rollback boundary reached and prior parameter version became active"
            } else if stage == 2 {
                "rollback boundary was already behind the schedule event"
            } else {
                "resolved rollback boundary is not after the scheduling event"
            },
        ),
    }
}

#[verifier::rlimit(40)]
fn schedule_transition(
    record: RuntimeParameterMutationRecord,
    kind: TransitionKind,
    current_sequence_no: u64,
    source_governance: &RuntimeGovernanceSnapshot,
    requested: RuntimeParameterMutationBoundary,
    resolved: RuntimeParameterMutationBoundary,
    now_ms: u64,
) -> (t: RuntimeParameterMutationTransition)
    requires
        current_sequence_no <= u64::MAX - 2,
    ensures
        scheduled_transition(t, record, kind, current_sequence_no, *source_governance, requested, resolved, now_ms),
{
    let ghost r0 = record;
    let mut record = record;
    let requested_keep = clone_boundary(&requested);
    let deadline = match kind {
        TransitionKind::Activation => Some(saturating_add_u64(now_ms, 60000)),
        TransitionKind::Rollback => None,
    };
    let ghost init = scheduled_state(requested, resolved.resolved_sequence_no, now_ms, deadline);
    let done = str_eq(resolved.requested.as_str(), "next_cycle_start");
    let failed = !done && match resolved.resolved_sequence_no {
        Some(n) => n <= current_sequence_no + 1,
        None => false,
    };
    record.activation_state = Some(
        RuntimeParameterMutationActivationState {
            requested_boundary: requested,
            resolved_sequence_no: resolved.resolved_sequence_no,
            scheduled_at_ms: Some(now_ms),
            activated_at_ms: None,
            active_parameter_version: None,
            failure_reason: None,
            observation_deadline_ms: deadline,
        },
    );
    record.activation_boundary = resolved;
    let scheduled = transition_status(kind, 0);
    record.status = scheduled;
    record.updated_at_ms = now_ms;
    let schedule_event = build_runtime_parameter_mutation_event(&record, scheduled, now_ms);
    assert(is_mutation_event(schedule_event, at_stage(record, scheduled, Some(init)), scheduled, now_ms));
    let entry = mutation_lifecycle_entry(scheduled, &schedule_event, current_sequence_no + 1, transition_message(kind, 0));
    record.lifecycle.push(entry);
    let schedule_gov = governance_with_parameter_version(source_governance, record.old_parameter_version.as_str());
    let mut events: Vec<(FrontendRuntimeEvent, RuntimeGovernanceSnapshot)> = Vec::new();
    events.push((schedule_event, schedule_gov));
    let ghost after_schedule = record;
    let later = saturating_add_u64(now_ms, 1);
    if done {
        let proposed = record.proposed_parameter_version.clone();
        record.activation_state = Some(
            RuntimeParameterMutationActivationState {
                requested_boundary: requested_keep,
                resolved_sequence_no: record.activation_boundary.resolved_sequence_no,
                scheduled_at_ms: Some(now_ms),
                activated_at_ms: Some(later),
                active_parameter_version: Some(proposed.clone()),
                failure_reason: None,
                observation_deadline_ms: deadline,
            },
        );
        let completed = transition_status(kind, 1);
        record.status = completed;
        record.updated_at_ms = later;
        let event = build_runtime_parameter_mutation_event(&record, completed, later);
        let entry = mutation_lifecycle_entry(completed, &event, current_sequence_no + 2, transition_message(kind, 1));
        let ghost before_push = record;
        record.lifecycle.push(entry);
        assert(mutation_payload(record, completed) == mutation_payload(before_push, completed));
        let gov = governance_with_parameter_version(source_governance, proposed.as_str());
        events.push((event, gov));
        assert(record.lifecycle@.subrange(0, r0.lifecycle@.len() as int) =~= r0.lifecycle@);
        RuntimeParameterMutationTransition {
            record,
            events,
            active_parameter_version: Some(proposed),
            refusal: None,
        }
    } else if failed {
        record.activation_state = Some(
            RuntimeParameterMutationActivationState {
                requested_boundary: requested_keep,
                resolved_sequence_no: record.activation_boundary.resolved_sequence_no,
                scheduled_at_ms: Some(now_ms),
                activated_at_ms: None,
                active_parameter_version: None,
                failure_reason: Some(transition_message(kind, 3)),
                observation_deadline_ms: deadline,
            },
        );
        let failed_status = transition_status(kind, 2);
        record.status = failed_status;
        record.updated_at_ms = later;
        let event = build_runtime_parameter_mutation_event(&record, failed_status, later);
        let entry = mutation_lifecycle_entry(failed_status, &event, current_sequence_no + 2, transition_message(kind, 2));
        let ghost before_push = record;
        record.lifecycle.push(entry);
        assert(mutation_payload(record, failed_status) == mutation_payload(before_push, failed_status));
        events.push((event, clone_governance_snapshot(source_governance)));
        assert(record.lifecycle@.subrange(0, r0.lifecycle@.len() as int) =~= r0.lifecycle@);
        RuntimeParameterMutationTransition { record, events, active_parameter_version: None, refusal: None }
    } else {
        assert(record.lifecycle@.subrange(0, r0.lifecycle@.len() as int) =~= r0.lifecycle@);
        RuntimeParameterMutationTransition { record, events, active_parameter_version: None, refusal: None }
    }
}


/// A request to activate a proposed mutation.
#[derive(Debug)]
pub struct ActivateRuntimeParameterMutationRequest {
    pub activation_boundary: Option<RuntimeParameterMutationBoundary>,
    pub actor: Option<ActorIdentity>,
    pub safe_window_context: Option<RuntimeParameterMutationSafeWindowSnapshot>,
}

/// The safe-window state evaluated for an optional snapshot.
pub open spec fn window_evaluated(w: RuntimeParameterMutationSafeWindowState, ctx: Option<RuntimeParameterMutationSafeWindowSnapshot>) -> bool {
    match ctx {
        Some(s) => safe_window_state_of(w, s),
        None => empty_snapshot(w.snapshot) && safe_window_state_of(w, w.snapshot),
    }
}

/// Only proposed mutations, or ones the safe window denied before, can be activated.
pub open spec fn activatable(s: RuntimeParameterMutationStatus) -> bool {
    s == RuntimeParameterMutationStatus::Proposed || s == RuntimeParameterMutationStatus::SafeWindowDenied
}

pub open spec fn not_activatable_message() -> Seq<char> {
    "仅 proposed 或 safe_window_denied 状态的参数变更可以激活"@
}

/// Refuses to activate a mutation in any other status than proposed or denied by the
/// safe window.
pub fn check_activation_status(record: &RuntimeParameterMutationRecord) -> (r: Result<(), ApiError>)
    ensures
        r.is_ok() == activatable(record.status),
        r matches Err(e) ==> is_bad_request(e, "bad_request"@, not_activatable_message()),
{
    match record.status {
        RuntimeParameterMutationStatus::Proposed | RuntimeParameterMutationStatus::SafeWindowDenied => Ok(()),
        _ => Err(bad_request("bad_request", owned("仅 proposed 或 safe_window_denied 状态的参数变更可以激活"))),
    }
}

/// What activating `record` gives: a refusal when its status does not allow it or the
/// boundary is refused; else, under the actor of the request (or the record's) and the
/// safe-window state evaluated now, a denial when the window is closed, or the
/// scheduled activation at the resolved boundary.
pub open spec fn activation_outcome(
    r: Result<RuntimeParameterMutationTransition, ApiError>,
    record: RuntimeParameterMutationRecord,
    cur: u64,
    gov: RuntimeGovernanceSnapshot,
    request: ActivateRuntimeParameterMutationRequest,
    now: u64,
) -> bool {
    let requested = match request.activation_boundary {
        Some(b) => b,
        None => record.activation_boundary,
    };
    let actor = match request.actor {
        Some(a) => a,
        None => record.actor,
    };
    if !activatable(record.status) {
        r matches Err(e) && is_bad_request(e, "bad_request"@, not_activatable_message())
    } else if boundary_problem(requested) is Some {
        match boundary_problem(requested) {
            Some((code, message)) => r matches Err(e) && is_bad_request(e, code, message),
            None => false,
        }
    } else {
        &&& r matches Ok(t)
        &&& t.record.safe_window_state matches Some(w)
        &&& window_evaluated(w, request.safe_window_context)
        &&& ({
            let r0 = RuntimeParameterMutationRecord { actor: actor, safe_window_state: Some(w), ..record };
            if w.allowed {
                &&& boundary_view(t.record.activation_boundary) == resolved_boundary(requested, cur)
                &&& scheduled_transition(t, r0, TransitionKind::Activation, cur, gov, requested, t.record.activation_boundary, now)
            } else {
                denied_transition(t, r0, cur, gov, now)
            }
        })
    }
}

/// Works out the activation of a proposed mutation of a run whose last event has
/// sequence number `current_sequence_no`.
pub fn plan_runtime_parameter_mutation_activation(
    record: RuntimeParameterMutationRecord,
    current_sequence_no: u64,
    source_governance: &RuntimeGovernanceSnapshot,
    request: ActivateRuntimeParameterMutationRequest,
    now_ms: u64,
) -> (r: Result<RuntimeParameterMutationTransition, ApiError>)
    requires
        current_sequence_no <= u64::MAX - 2,
    ensures
        activation_outcome(r, record, current_sequence_no, *source_governance, request, now_ms),
{
    check_activation_status(&record)?;
    let ghost req0 = request;
    let requested = match request.activation_boundary {
        Some(b) => b,
        None => clone_boundary(&record.activation_boundary),
    };
    let resolved = resolve_runtime_parameter_mutation_boundary(&requested, current_sequence_no)?;
    let mut record = record;
    match request.actor {
        Some(a) => {
            record.actor = a;
        },
        None => {},
    }
    let window = evaluate_runtime_parameter_mutation_safe_window(request.safe_window_context);
    let allowed = window.allowed;
    record.safe_window_state = Some(window);
    if !allowed {
        Ok(deny_for_safe_window(record, current_sequence_no, source_governance, now_ms))
    } else {
        Ok(schedule_transition(record, TransitionKind::Activation, current_sequence_no, source_governance, requested, resolved, now_ms))
    }
}


/// A request to roll an activated mutation back.
#[derive(Debug)]
pub struct RollbackRuntimeParameterMutationRequest {
    pub target_parameter_version: Option<String>,
    pub activation_boundary: Option<RuntimeParameterMutationBoundary>,
    pub actor: Option<ActorIdentity>,
    pub reason: Option<String>,
    pub safe_window_context: Option<RuntimeParameterMutationSafeWindowSnapshot>,
}

pub open spec fn same_target(a: RuntimeParameterMutationTarget, b: RuntimeParameterMutationTarget) -> bool {
    a.node_id@ == b.node_id@ && a.module_key@ == b.module_key@ && a.parameter_path@ == b.parameter_path@
}

fn targets_equal(a: &RuntimeParameterMutationTarget, b: &RuntimeParameterMutationTarget) -> (r: bool)
    ensures
        r == same_target(*a, *b),
{
    str_eq(a.node_id.as_str(), b.node_id.as_str()) && str_eq(a.module_key.as_str(), b.module_key.as_str()) && str_eq(
        a.parameter_path.as_str(),
        b.parameter_path.as_str(),
    )
}

fn clone_target(t: &RuntimeParameterMutationTarget) -> (r: RuntimeParameterMutationTarget)
    ensures
        r == *t,
{
    RuntimeParameterMutationTarget {
        node_id: t.node_id.clone(),
        module_key: t.module_key.clone(),
        parameter_path: t.parameter_path.clone(),
    }
}

fn clone_actor(a: &ActorIdentity) -> (r: ActorIdentity)
    ensures
        r == *a,
{
    ActorIdentity { actor_id: a.actor_id.clone(), display_name: a.display_name.clone() }
}

/// The value a parameter had at `version`, from the first ledger entry, from `i` on, of
/// the same run and target that names that version as its old or its proposed one.
pub open spec fn ledger_value_from(
    ledger: Seq<RuntimeParameterMutationRecord>,
    i: int,
    source_id: Seq<char>,
    target: RuntimeParameterMutationTarget,
    version: Seq<char>,
) -> Option<Json>
    decreases ledger.len() - i,
{
    if i < 0 || i >= ledger.len() {
        None
    } else {
        let item = ledger[i];
        if item.source_id@ != source_id || !same_target(item.target, target) {
            ledger_value_from(ledger, i + 1, source_id, target, version)
        } else if item.old_parameter_version@ == version {
            Some(item.old_value@)
        } else if item.proposed_parameter_version@ == version {
            Some(item.new_value@)
        } else {
            ledger_value_from(ledger, i + 1, source_id, target, version)
        }
    }
}

/// Looks up in the mutation ledger the value a run's parameter had at a version.
pub fn ledger_value_at_version(
    ledger: &Vec<RuntimeParameterMutationRecord>,
    source_id: &str,
    target: &RuntimeParameterMutationTarget,
    version: &str,
) -> (r: Option<JsonValue>)
    ensures
        match r {
            Some(v) => ledger_value_from(ledger@, 0, source_id@, *target, version@) == Some(v@),
            None => ledger_value_from(ledger@, 0, source_id@, *target, version@) is None,
        },
{
    let mut i: usize = 0;
    while i < ledger.len()
        invariant
            i <= ledger@.len(),
            ledger_value_from(ledger@, 0, source_id@, *target, version@) == ledger_value_from(
                ledger@,
                i as int,
                source_id@,
                *target,
                version@,
            ),
        decreases ledger@.len() - i,
    {
        let item = &ledger[i];
        if str_eq(item.source_id.as_str(), source_id) && targets_equal(&item.target, target) {
            if str_eq(item.old_parameter_version.as_str(), version) {
                return Some(crate::json::json_clone(&item.old_value));
            }
            if str_eq(item.proposed_parameter_version.as_str(), version) {
                return Some(crate::json::json_clone(&item.new_value));
            }
        }
        i += 1;
    }
    None
}

pub open spec fn not_rollbackable_message() -> Seq<char> {
    "仅已激活的参数变更可以回滚"@
}

/// Refuses to roll back a mutation that is not active.
pub fn check_rollback_status(record: &RuntimeParameterMutationRecord) -> (r: Result<(), ApiError>)
    ensures
        r.is_ok() == (record.status == RuntimeParameterMutationStatus::Activated),
        r matches Err(e) ==> is_bad_request(e, "bad_request"@, not_rollbackable_message()),
{
    if record.status == RuntimeParameterMutationStatus::Activated {
        Ok(())
    } else {
        Err(bad_request("bad_request", owned("仅已激活的参数变更可以回滚")))
    }
}

pub open spec fn rollback_version(undone: RuntimeParameterMutationRecord, requested: Option<String>) -> Seq<char> {
    match requested {
        Some(v) => v@,
        None => undone.old_parameter_version@,
    }
}

/// The parameter version a rollback returns to: the one requested, else the version
/// the mutation replaced.
pub fn rollback_target_parameter_version(undone: &RuntimeParameterMutationRecord, requested: &Option<String>) -> (r: String)
    ensures
        r@ == rollback_version(*undone, *requested),
{
    match requested {
        Some(v) => v.clone(),
        None => undone.old_parameter_version.clone(),
    }
}

/// The record a rollback starts from, before the safe window and the boundary decide.
pub open spec fn rollback_base(
    b: RuntimeParameterMutationRecord,
    undone: RuntimeParameterMutationRecord,
    version: Seq<char>,
    value: Json,
    gov: RuntimeGovernanceSnapshot,
    resolved: (Seq<char>, Option<u64>),
    actor: ActorIdentity,
    reason: Seq<char>,
    proposal_id: Seq<char>,
    now: u64,
) -> bool {
    &&& b.proposal_id@ == proposal_id
    &&& b.source_kind == undone.source_kind
    &&& b.source_id == undone.source_id
    &&& b.graph_id == undone.graph_id
    &&& b.target == undone.target
    &&& b.old_value@ == undone.new_value@
    &&& b.new_value@ == value
    &&& b.old_parameter_version == gov.parameter_version
    &&& b.proposed_parameter_version@ == version
    &&& b.status == RuntimeParameterMutationStatus::RollbackScheduled
    &&& b.rejection_reason is None
    &&& boundary_view(b.activation_boundary) == resolved
    &&& b.activation_state is None
    &&& b.rollback_of == Some(undone.proposal_id)
    &&& opt_text_model(b.rollback_target_parameter_version) == Json::Str(version)
    &&& b.actor == actor
    &&& b.reason@ == reason
    &&& is_mutation_governance(b.governance, gov, gov.parameter_version@, version)
    &&& b.lifecycle@.len() == 0
    &&& b.created_at_ms == now
    &&& b.updated_at_ms == now
}

/// Who rolls back: the request's actor, else the one who made the mutation.
pub open spec fn rollback_actor(undone: RuntimeParameterMutationRecord, actor: Option<ActorIdentity>) -> ActorIdentity {
    match actor {
        Some(a) => a,
        None => undone.actor,
    }
}

/// Why: the request's reason, else `Rollback <id>`.
pub open spec fn rollback_reason(undone: RuntimeParameterMutationRecord, reason: Option<String>) -> Seq<char> {
    match reason {
        Some(x) => x@,
        None => "Rollback "@ + undone.proposal_id@,
    }
}

/// The rollback transition from its starting record, once the safe window is evaluated.
pub open spec fn rollback_from_base(
    t: RuntimeParameterMutationTransition,
    base: RuntimeParameterMutationRecord,
    cur: u64,
    gov: RuntimeGovernanceSnapshot,
    requested: RuntimeParameterMutationBoundary,
    w: RuntimeParameterMutationSafeWindowState,
    now: u64,
) -> bool {
    &&& base.safe_window_state == Some(w)
    &&& if w.allowed {
        scheduled_transition(t, base, TransitionKind::Rollback, cur, gov, requested, base.activation_boundary, now)
    } else {
        denied_transition(t, base, cur, gov, now)
    }
}

/// What rolling `undone` back gives: a refusal when it is not active, when the ledger
/// holds no value at the target version, when that version is already the run's, or when
/// the boundary is refused (a request without one is); else, from the rollback record
/// with the safe-window state evaluated now, a denial when the window is closed, or the
/// scheduled rollback at the resolved boundary.
pub open spec fn rollback_outcome(
    r: Result<RuntimeParameterMutationTransition, ApiError>,
    undone: RuntimeParameterMutationRecord,
    ledger: Seq<RuntimeParameterMutationRecord>,
    cur: u64,
    gov: RuntimeGovernanceSnapshot,
    request: RollbackRuntimeParameterMutationRequest,
    proposal_id: Seq<char>,
    now: u64,
) -> bool {
    let version = rollback_version(undone, request.target_parameter_version);
    let value = ledger_value_from(ledger, 0, undone.source_id@, undone.target, version);
    let actor = rollback_actor(undone, request.actor);
    let reason = rollback_reason(undone, request.reason);
    if undone.status != RuntimeParameterMutationStatus::Activated {
        r matches Err(e) && is_bad_request(e, "bad_request"@, not_rollbackable_message())
    } else if value is None {
        r matches Err(e) && is_bad_request(
            e,
            "parameter_mutation_rollback_unknown_version"@,
            "回滚目标参数版本必须在变更台账中"@,
        )
    } else if version == gov.parameter_version@ {
        r matches Err(e) && is_bad_request(e, "parameter_mutation_rollback_noop"@, "回滚目标参数版本已是当前活跃版本"@)
    } else {
        match request.activation_boundary {
            None => r matches Err(e) && is_bad_request(e, "bad_request"@, boundary_required_message()),
            Some(requested) => match boundary_problem(requested) {
                Some((code, message)) => r matches Err(e) && is_bad_request(e, code, message),
                None => {
                    &&& r matches Ok(t)
                    &&& t.record.safe_window_state matches Some(w)
                    &&& window_evaluated(w, request.safe_window_context)
                    &&& exists|base: RuntimeParameterMutationRecord|
                        {
                            &&& #[trigger] rollback_base(
                                base,
                                undone,
                                version,
                                value->0,
                                gov,
                                resolved_boundary(requested, cur),
                                actor,
                                reason,
                                proposal_id,
                                now,
                            )
                            &&& rollback_from_base(t, base, cur, gov, requested, w, now)
                        }
                },
            },
        }
    }
}

/// Works out the rollback of an active mutation of a run whose last event has sequence
/// number `current_sequence_no`, given the mutation ledger and the id of the rollback
/// record.
pub fn plan_runtime_parameter_mutation_rollback(
    undone: &RuntimeParameterMutationRecord,
    ledger: &Vec<RuntimeParameterMutationRecord>,
    current_sequence_no: u64,
    source_governance: &RuntimeGovernanceSnapshot,
    request: RollbackRuntimeParameterMutationRequest,
    proposal_id: String,
    now_ms: u64,
) -> (r: Result<RuntimeParameterMutationTransition, ApiError>)
    requires
        current_sequence_no <= u64::MAX - 2,
    ensures
        rollback_outcome(r, *undone, ledger@, current_sequence_no, *source_governance, request, proposal_id@, now_ms),
{
    check_rollback_status(undone)?;
    let ghost req0 = request;
    let version = rollback_target_parameter_version(undone, &request.target_parameter_version);
    let value = match ledger_value_at_version(ledger, undone.source_id.as_str(), &undone.target, version.as_str()) {
        Some(v) => v,
        None => {
            return Err(bad_request("parameter_mutation_rollback_unknown_version", owned("回滚目标参数版本必须在变更台账中")));
        },
    };
    if str_eq(version.as_str(), source_governance.parameter_version.as_str()) {
        return Err(bad_request("parameter_mutation_rollback_noop", owned("回滚目标参数版本已是当前活跃版本")));
    }
    let requested = match request.activation_boundary {
        Some(b) => b,
        None => {
            return Err(bad_request("bad_request", owned("activation_boundary.requested 是必填字段")));
        },
    };
    let resolved = resolve_runtime_parameter_mutation_boundary(&requested, current_sequence_no)?;
    let actor = match request.actor {
        Some(a) => a,
        None => clone_actor(&undone.actor),
    };
    let reason = match request.reason {
        Some(x) => x,
        None => cat("Rollback ", undone.proposal_id.as_str()),
    };
    let governance = runtime_parameter_mutation_governance(
        source_governance,
        source_governance.parameter_version.clone(),
        version.clone(),
    );
    let window = evaluate_runtime_parameter_mutation_safe_window(request.safe_window_context);
    let allowed = window.allowed;
    let base = RuntimeParameterMutationRecord {
        proposal_id,
        source_kind: undone.source_kind,
        source_id: undone.source_id.clone(),
        graph_id: undone.graph_id.clone(),
        target: clone_target(&undone.target),
        old_value: crate::json::json_clone(&undone.new_value),
        new_value: value,
        old_parameter_version: source_governance.parameter_version.clone(),
        proposed_parameter_version: version.clone(),
        status: RuntimeParameterMutationStatus::RollbackScheduled,
        rejection_reason: None,
        activation_boundary: clone_boundary(&resolved),
        activation_state: None,
        safe_window_state: Some(window),
        rollback_of: Some(undone.proposal_id.clone()),
        rollback_target_parameter_version: Some(version),
        actor,
        reason,
        governance,
        lifecycle: Vec::new(),
        created_at_ms: now_ms,
        updated_at_ms: now_ms,
    };
    let ghost b0 = base;
    assert(rollback_base(
        b0,
        *undone,
        rollback_version(*undone, req0.target_parameter_version),
        ledger_value_from(ledger@, 0, undone.source_id@, undone.target, rollback_version(*undone, req0.target_parameter_version))->0,
        *source_governance,
        resolved_boundary(requested, current_sequence_no),
        rollback_actor(*undone, req0.actor),
        rollback_reason(*undone, req0.reason),
        proposal_id@,
        now_ms,
    ));
    let ghost w = b0.safe_window_state->0;
    let ghost requested0 = requested;
    let t = if !allowed {
        deny_for_safe_window(base, current_sequence_no, source_governance, now_ms)
    } else {
        schedule_transition(base, TransitionKind::Rollback, current_sequence_no, source_governance, requested, resolved, now_ms)
    };
    assert(rollback_from_base(t, b0, current_sequence_no, *source_governance, requested0, w, now_ms));
    Ok(t)
}


/// A request to propose a parameter mutation of a run.
#[derive(Debug)]
pub struct CreateRuntimeParameterMutationRequest {
    pub source_kind: RuntimeEvidenceSourceKind,
    pub source_id: String,
    pub target: RuntimeParameterMutationTarget,
    pub old_value: JsonValue,
    pub new_value: JsonValue,
    pub activation_boundary: RuntimeParameterMutationBoundary,
    pub actor: Option<ActorIdentity>,
    pub reason: String,
}

/// Why a mutation proposal is refused, checked in order: it must be about a run, name an
/// accepted target and boundary, an actor and a reason.
pub open spec fn proposal_problem(req: CreateRuntimeParameterMutationRequest, supported: Seq<String>) -> Option<(Seq<char>, Seq<char>)> {
    if req.source_kind != RuntimeEvidenceSourceKind::Run {
        Some(("bad_request"@, "参数变更提案目前需要 source_kind 为 `run`"@))
    } else if target_problem(req.target, supported) is Some {
        target_problem(req.target, supported)
    } else if boundary_problem(req.activation_boundary) is Some {
        boundary_problem(req.activation_boundary)
    } else if req.actor is None {
        Some(("bad_request"@, "参数变更提案需要指定操作者"@))
    } else if is_blank(req.reason@) {
        Some(("bad_request"@, "参数变更提案需要说明原因"@))
    } else {
        None
    }
}

/// Checks a mutation proposal before its run is looked up.
pub fn validate_runtime_parameter_mutation_request(
    request: &CreateRuntimeParameterMutationRequest,
    supported_module_keys: &Vec<String>,
) -> (r: Result<(), ApiError>)
    ensures
        r.is_ok() == (proposal_problem(*request, supported_module_keys@) is None),
        r matches Err(e) ==> (proposal_problem(*request, supported_module_keys@) matches Some(p) && is_bad_request(e, p.0, p.1)),
{
    if request.source_kind != RuntimeEvidenceSourceKind::Run {
        return Err(bad_request("bad_request", owned("参数变更提案目前需要 source_kind 为 `run`")));
    }
    validate_runtime_parameter_mutation_target(&request.target, supported_module_keys)?;
    validate_runtime_parameter_mutation_boundary(&request.activation_boundary)?;
    if request.actor.is_none() {
        return Err(bad_request("bad_request", owned("参数变更提案需要指定操作者")));
    }
    if is_blank_str(request.reason.as_str()) {
        return Err(bad_request("bad_request", owned("参数变更提案需要说明原因")));
    }
    Ok(())
}

pub open spec fn noop_rejection_reason() -> Seq<char> {
    "旧值和新值解析为相同的规范参数版本"@
}

/// The record a proposal starts: rejected at once when the old and new values have the
/// same canonical parameter version, else proposed.
pub open spec fn proposed_record(
    rec: RuntimeParameterMutationRecord,
    req: CreateRuntimeParameterMutationRequest,
    gov: RuntimeGovernanceSnapshot,
    graph_id: Seq<char>,
    old_version: Seq<char>,
    proposed_version: Seq<char>,
    proposal_id: Seq<char>,
    now: u64,
) -> bool {
    let noop = old_version == proposed_version;
    &&& rec.proposal_id@ == proposal_id
    &&& rec.source_kind == req.source_kind
    &&& rec.source_id == req.source_id
    &&& rec.graph_id@ == graph_id
    &&& rec.target == req.target
    &&& rec.old_value@ == req.old_value@
    &&& rec.new_value@ == req.new_value@
    &&& rec.old_parameter_version@ == old_version
    &&& rec.proposed_parameter_version@ == proposed_version
    &&& rec.status == (if noop { RuntimeParameterMutationStatus::Rejected } else { RuntimeParameterMutationStatus::Proposed })
    &&& opt_text_model(rec.rejection_reason) == (if noop { Json::Str(noop_rejection_reason()) } else { Json::Null })
    &&& rec.activation_boundary == req.activation_boundary
    &&& rec.activation_state is None
    &&& rec.safe_window_state is None
    &&& rec.rollback_of is None
    &&& rec.rollback_target_parameter_version is None
    &&& req.actor == Some(rec.actor)
    &&& rec.reason@ == trim(req.reason@)
    &&& is_mutation_governance(rec.governance, gov, old_version, proposed_version)
    &&& rec.lifecycle@.len() == 0
    &&& rec.created_at_ms == now
    &&& rec.updated_at_ms == now
}

/// The record, the event and the governance it is recorded under, for an accepted
/// mutation proposal of a run, given the canonical versions of the old and new values
/// and the record's id.
pub fn runtime_parameter_mutation_proposal(
    request: CreateRuntimeParameterMutationRequest,
    supported_module_keys: &Vec<String>,
    source_governance: &RuntimeGovernanceSnapshot,
    graph_id: String,
    old_parameter_version: String,
    proposed_parameter_version: String,
    proposal_id: String,
    now_ms: u64,
) -> (r: Result<(RuntimeParameterMutationRecord, FrontendRuntimeEvent, RuntimeGovernanceSnapshot), ApiError>)
    ensures
        match proposal_problem(request, supported_module_keys@) {
            Some((code, message)) => r matches Err(e) && is_bad_request(e, code, message),
            None => r matches Ok(p) && {
                &&& proposed_record(
                    p.0,
                    request,
                    *source_governance,
                    graph_id@,
                    old_parameter_version@,
                    proposed_parameter_version@,
                    proposal_id@,
                    now_ms,
                )
                &&& is_mutation_event(p.1, p.0, p.0.status, now_ms)
                &&& governance_with_version(p.2, *source_governance, old_parameter_version@)
            },
        },
{
    validate_runtime_parameter_mutation_request(&request, supported_module_keys)?;
    let ghost req0 = request;
    let noop = str_eq(old_parameter_version.as_str(), proposed_parameter_version.as_str());
    let actor = match request.actor {
        Some(a) => a,
        None => ActorIdentity { actor_id: String::new(), display_name: String::new() },
    };
    let governance = runtime_parameter_mutation_governance(
        source_governance,
        old_parameter_version.clone(),
        proposed_parameter_version.clone(),
    );
    let event_governance = governance_with_parameter_version(source_governance, old_parameter_version.as_str());
    let record = RuntimeParameterMutationRecord {
        proposal_id,
        source_kind: request.source_kind,
        source_id: request.source_id,
        graph_id,
        target: request.target,
        old_value: request.old_value,
        new_value: request.new_value,
        old_parameter_version,
        proposed_parameter_version,
        status: if noop {
            RuntimeParameterMutationStatus::Rejected
        } else {
            RuntimeParameterMutationStatus::Proposed
        },
        rejection_reason: if noop {
            Some(owned("旧值和新值解析为相同的规范参数版本"))
        } else {
            None
        },
        activation_boundary: request.activation_boundary,
        activation_state: None,
        safe_window_state: None,
        rollback_of: None,
        rollback_target_parameter_version: None,
        actor,
        reason: owned(trim_str(request.reason.as_str())),
        governance,
        lifecycle: Vec::new(),
        created_at_ms: now_ms,
        updated_at_ms: now_ms,
    };
    let event = build_runtime_parameter_mutation_event(&record, record.status, now_ms);
    Ok((record, event, event_governance))
}


/// Once a scheduled transition's events are appended to its run, each lifecycle entry it
/// added names the event, and the sequence number, that the run gives that event.
pub proof fn lemma_transition_lifecycle_matches_run(
    t: RuntimeParameterMutationTransition,
    r0: RuntimeParameterMutationRecord,
    kind: TransitionKind,
    cur: u64,
    gov: RuntimeGovernanceSnapshot,
    requested: RuntimeParameterMutationBoundary,
    resolved: RuntimeParameterMutationBoundary,
    now: u64,
    before: Seq<FrontendRuntimeEvent>,
    after: Seq<FrontendRuntimeEvent>,
    run_id: Seq<char>,
    mode: Seq<char>,
)
    requires
        scheduled_transition(t, r0, kind, cur, gov, requested, resolved, now),
        cur <= u64::MAX - 2,
        events_appended(after, before, t.events@, run_id, mode, cur),
    ensures
        forall|k: int|
            0 <= k < t.events@.len() ==> {
                &&& #[trigger] t.record.lifecycle@[r0.lifecycle@.len() + k].sequence_no == after[before.len() + k].envelope.sequence_no
                &&& t.record.lifecycle@[r0.lifecycle@.len() + k].event_id == after[before.len() + k].event_id
            },
{
    assert forall|k: int| 0 <= k < t.events@.len() implies {
        &&& #[trigger] t.record.lifecycle@[r0.lifecycle@.len() + k].sequence_no == after[before.len() + k].envelope.sequence_no
        &&& t.record.lifecycle@[r0.lifecycle@.len() + k].event_id == after[before.len() + k].event_id
    } by {
        let _ = t.events@[k];
    }
}

/// The same for a transition that the safe window denied: its one lifecycle entry names
/// the event, and the sequence number, that the run gives its denial event.
pub proof fn lemma_denial_lifecycle_matches_run(
    t: RuntimeParameterMutationTransition,
    r0: RuntimeParameterMutationRecord,
    cur: u64,
    gov: RuntimeGovernanceSnapshot,
    now: u64,
    before: Seq<FrontendRuntimeEvent>,
    after: Seq<FrontendRuntimeEvent>,
    run_id: Seq<char>,
    mode: Seq<char>,
)
    requires
        denied_transition(t, r0, cur, gov, now),
        cur < u64::MAX,
        events_appended(after, before, t.events@, run_id, mode, cur),
    ensures
        t.record.lifecycle@.last().sequence_no == after[before.len() as int].envelope.sequence_no,
        t.record.lifecycle@.last().event_id == after[before.len() as int].event_id,
{
    let _ = t.events@[0];
}

/// Activating a proposal at the next cycle's start and then rolling the activated record
/// back, without naming a version, at the next cycle's start makes the parameter version
/// that was active before the activation active again.
pub proof fn lemma_rollback_restores_previous_version(
    record: RuntimeParameterMutationRecord,
    cur: u64,
    gov: RuntimeGovernanceSnapshot,
    activation: ActivateRuntimeParameterMutationRequest,
    activated: RuntimeParameterMutationTransition,
    now: u64,
    ledger: Seq<RuntimeParameterMutationRecord>,
    cur2: u64,
    gov2: RuntimeGovernanceSnapshot,
    rollback: RollbackRuntimeParameterMutationRequest,
    rolled_back: RuntimeParameterMutationTransition,
    proposal_id: Seq<char>,
    now2: u64,
)
    requires
        activation_outcome(Ok(activated), record, cur, gov, activation, now),
        activated.record.status == RuntimeParameterMutationStatus::Activated,
        rollback.target_parameter_version is None,
        rollback_outcome(Ok(rolled_back), activated.record, ledger, cur2, gov2, rollback, proposal_id, now2),
        rolled_back.record.status == RuntimeParameterMutationStatus::RolledBack,
    ensures
        activated.active_parameter_version == Some(record.proposed_parameter_version),
        rolled_back.active_parameter_version matches Some(v) && v@ == record.old_parameter_version@,
{
    let w = activated.record.safe_window_state->0;
    let requested = match activation.activation_boundary {
        Some(b) => b,
        None => record.activation_boundary,
    };
    let actor = match activation.actor {
        Some(a) => a,
        None => record.actor,
    };
    let r0 = RuntimeParameterMutationRecord { actor: actor, safe_window_state: Some(w), ..record };
    assert(w.allowed);
    assert(scheduled_transition(activated, r0, TransitionKind::Activation, cur, gov, requested, activated.record.activation_boundary, now));
    let version = rollback_version(activated.record, rollback.target_parameter_version);
    let requested2 = rollback.activation_boundary->0;
    let w2 = rolled_back.record.safe_window_state->0;
    let base = choose|base: RuntimeParameterMutationRecord|
        #[trigger] rollback_base(
            base,
            activated.record,
            version,
            ledger_value_from(ledger, 0, activated.record.source_id@, activated.record.target, version)->0,
            gov2,
            resolved_boundary(requested2, cur2),
            rollback_actor(activated.record, rollback.actor),
            rollback_reason(activated.record, rollback.reason),
            proposal_id,
            now2,
        ) && rollback_from_base(rolled_back, base, cur2, gov2, requested2, w2, now2);
    assert(w2.allowed);
}

} // verus!
