//! The record ids and the event stream that starting a run or a backtest stores: the
//! capability snapshot first, then the projected events, every one with its envelope.
use vstd::prelude::*;
use crate::events::{
    attach_runtime_event_envelopes, envelope_failure_message, envelopes_attached, envelopes_valid,
    governance_complete, is_known_event_type, validate_runtime_event_envelopes, FrontendRuntimeEvent,
    RuntimeGovernanceSnapshot,
};
use crate::json::{Json, JsonValue};
use crate::projection::{capability_snapshot_event, prepend_capability_snapshot_event};
use crate::text::{cat, cat3, dec, is_blank, u64_text};

verus! {

/// The id of a run started at `now_ms`.
pub fn run_id_for(now_ms: u64) -> (r: String)
    ensures
        r@ == "run_"@ + dec(now_ms as nat),
{
    cat("run_", u64_text(now_ms).as_str())
}

/// The id of a backtest started at `now_ms`: with the suffix its caller gives, else with
/// the process's backtest counter (marked `v4` for the v4 runtime).
pub open spec fn backtest_id(now_ms: u64, suffix: Option<Seq<char>>, counter: u64, v4: bool) -> Seq<char> {
    match suffix {
        Some(s) => "backtest_"@ + dec(now_ms as nat) + "_"@ + s,
        None => if v4 {
            "backtest_"@ + dec(now_ms as nat) + "_v4_"@ + dec(counter as nat)
        } else {
            "backtest_"@ + dec(now_ms as nat) + "_"@ + dec(counter as nat)
        },
    }
}

/// The id of a backtest.
pub fn backtest_id_for(now_ms: u64, suffix: Option<&str>, counter: u64, v4: bool) -> (r: String)
    ensures
        r@ == backtest_id(
            now_ms,
            match suffix {
                Some(s) => Some(s@),
                None => None,
            },
            counter,
            v4,
        ),
{
    let head = cat("backtest_", u64_text(now_ms).as_str());
    match suffix {
        Some(s) => cat3(head.as_str(), "_", s),
        None => if v4 {
            cat3(head.as_str(), "_v4_", u64_text(counter).as_str())
        } else {
            cat3(head.as_str(), "_", u64_text(counter).as_str())
        },
    }
}

/// `pre` is the capability snapshot of the record followed by `events`.
pub open spec fn snapshot_then(
    pre: Seq<FrontendRuntimeEvent>,
    events: Seq<FrontendRuntimeEvent>,
    record_id: Seq<char>,
    mode: Seq<char>,
    at: u64,
    gov: RuntimeGovernanceSnapshot,
    schema_version: Json,
    chain_stages: Seq<String>,
) -> bool {
    &&& pre.len() == events.len() + 1
    &&& pre.subrange(1, pre.len() as int) == events
    &&& capability_snapshot_event(pre[0], record_id, mode, at, gov, schema_version, chain_stages)
}

/// Every event can be stored: its id and type are set and its type is known.
pub open spec fn storable_events(events: Seq<FrontendRuntimeEvent>) -> bool {
    forall|i: int|
        0 <= i < events.len() ==> {
            &&& !is_blank(#[trigger] events[i].event_id@)
            &&& !is_blank(events[i].event_type@)
            &&& is_known_event_type(events[i].event_type@)
        }
}

/// The events a record stores: the capability snapshot, then `events`, each with the
/// envelope for its place. `Ok` when the envelopes validate, which they do when the
/// events can be stored, the record id and mode are set and the governance identity is
/// complete; else the validation error.
pub fn finalize_record_events(
    events: Vec<FrontendRuntimeEvent>,
    record_id: &str,
    mode: &str,
    occurred_at_ms: u64,
    governance: &RuntimeGovernanceSnapshot,
    schema_version: &JsonValue,
    chain_stages: &Vec<String>,
) -> (r: Result<Vec<FrontendRuntimeEvent>, String>)
    requires
        events@.len() + 1 < u64::MAX,
    ensures
        exists|pre: Seq<FrontendRuntimeEvent>, v: Seq<FrontendRuntimeEvent>|
            #[trigger] snapshot_then(pre, events@, record_id@, mode@, occurred_at_ms, *governance, schema_version@, chain_stages@)
                && #[trigger] envelopes_attached(v, pre, record_id@, mode@, *governance) && match r {
                Ok(x) => x@ == v && envelopes_valid(v, record_id@, *governance),
                Err(m) => !envelopes_valid(v, record_id@, *governance) && envelope_failure_message(
                    v,
                    record_id@,
                    *governance,
                    m@,
                ),
            },
        storable_events(events@) && !is_blank(record_id@) && !is_blank(mode@) && governance_complete(*governance)
            ==> r is Ok,
{
    let ghost orig = events@;
    let mut events = events;
    prepend_capability_snapshot_event(&mut events, record_id, mode, occurred_at_ms, governance, schema_version, chain_stages);
    let ghost pre = events@;
    assert(snapshot_then(pre, orig, record_id@, mode@, occurred_at_ms, *governance, schema_version@, chain_stages@));
    attach_runtime_event_envelopes(&mut events, record_id, mode, governance);
    let ghost v = events@;
    proof {
        if storable_events(orig) && !is_blank(record_id@) && !is_blank(mode@) && governance_complete(*governance) {
            assert forall|i: int|
                0 <= i < pre.len() implies {
                &&& !is_blank(#[trigger] pre[i].event_id@)
                &&& !is_blank(pre[i].event_type@)
                &&& is_known_event_type(pre[i].event_type@)
            } by {
                if i == 0 {
                    reveal_strlit("_capability_snapshot");
                    reveal_strlit("CapabilitySnapshotTaken");
                    let id = pre[0].event_id@;
                    assert(id[record_id@.len() as int] == '_');
                    assert(!crate::text::is_ws('_'));
                    let t = pre[0].event_type@;
                    assert(t[0] == 'C');
                    assert(!crate::text::is_ws('C'));
                } else {
                    assert(pre[i] == orig[i - 1]) by {
                        assert(pre.subrange(1, pre.len() as int)[i - 1] == pre[i]);
                    }
                }
            }
            crate::events::lemma_attached_envelopes_validate(v, pre, record_id@, mode@, *governance);
        }
    }
    match validate_runtime_event_envelopes(&events, record_id, governance) {
        Ok(()) => Ok(events),
        Err(m) => Err(m),
    }
}

} // verus!
