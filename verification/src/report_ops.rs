//! The operational reports: the merge records of runs, the alert and approval counts of
//! the daily and weekly reports, and the month a monthly report covers.
use vstd::prelude::*;
use crate::ai_proposal::{RuntimeApprovalRecord, RuntimeApprovalReviewState};
use crate::events::FrontendRuntimeEvent;
use crate::json::{json_get, json_get_str, Json, JsonValue};
use crate::projection::json_as_u64;
use crate::text::{dec, owned, str_eq};

verus! {

broadcast use vstd::std_specs::vec::group_vec_axioms;

/// What a merge of intents did in one cycle of a run.
#[derive(Clone, Debug)]
pub struct MergeRecordEntry {
    pub cycle_name: String,
    pub input_count: usize,
    pub output_count: usize,
    pub conflicts: usize,
    pub suppressed: usize,
    pub merge_policy: String,
}

/// A count the merge engine reports, or a default when it reports none.
pub open spec fn payload_count(p: Json, key: Seq<char>, default: u64) -> u64 {
    match json_get(p, key) {
        Some(v) => match json_as_u64(v) {
            Some(n) => n,
            None => default,
        },
        None => default,
    }
}

/// `m` is the merge record of event `e` of run `run_id`.
pub open spec fn merge_entry_of(m: MergeRecordEntry, run_id: Seq<char>, e: FrontendRuntimeEvent) -> bool {
    let p = e.payload@;
    &&& m.cycle_name@ == run_id
    &&& m.input_count == payload_count(p, "input_count"@, 1) as usize
    &&& m.output_count == payload_count(p, "output_count"@, 1) as usize
    &&& m.conflicts == payload_count(p, "conflicts"@, 0) as usize
    &&& m.suppressed == payload_count(p, "suppressed"@, 0) as usize
    &&& m.merge_policy@ == match json_get_str(p, "merge_policy"@) {
        Some(s) => s,
        None => "WeightedMerge"@,
    }
}

/// The events of a run that are merge records: from the merge engine, with an object
/// payload.
pub open spec fn is_merge_event(e: FrontendRuntimeEvent) -> bool {
    e.source_id@ == "merge_engine"@ && e.payload@ is Object
}

/// The merge events of a run, in order.
pub open spec fn merge_events(s: Seq<FrontendRuntimeEvent>) -> Seq<FrontendRuntimeEvent>
    decreases s.len(),
{
    if s.len() == 0 {
        seq![]
    } else {
        let p = merge_events(s.drop_last());
        if is_merge_event(s.last()) {
            p.push(s.last())
        } else {
            p
        }
    }
}

fn payload_count_exec(p: &JsonValue, key: &str, default: u64) -> (r: u64)
    ensures
        r == payload_count(p@, key@, default),
{
    match crate::json::json_get_exec(p, key) {
        Some(JsonValue::Number(t)) => {
            let s = t.as_str();
            if s.unicode_len() > 0 && s.get_char(0) != '+' {
                match crate::text::parse_u64_str(s) {
                    Some(n) => n,
                    None => default,
                }
            } else {
                default
            }
        },
        _ => default,
    }
}

/// The merge record of one merge event.
pub fn merge_record_entry(run_id: &str, event: &FrontendRuntimeEvent) -> (r: MergeRecordEntry)
    ensures
        merge_entry_of(r, run_id@, *event),
{
    let p = &event.payload;
    MergeRecordEntry {
        cycle_name: owned(run_id),
        input_count: payload_count_exec(p, "input_count", 1) as usize,
        output_count: payload_count_exec(p, "output_count", 1) as usize,
        conflicts: payload_count_exec(p, "conflicts", 0) as usize,
        suppressed: payload_count_exec(p, "suppressed", 0) as usize,
        merge_policy: match crate::json::json_get_str_exec(p, "merge_policy") {
            Some(s) => s,
            None => owned("WeightedMerge"),
        },
    }
}

/// Appends the merge records of a run's events, in order.
pub fn push_merge_records(entries: &mut Vec<MergeRecordEntry>, run_id: &str, events: &Vec<FrontendRuntimeEvent>)
    ensures
        final(entries)@.len() == old(entries)@.len() + merge_events(events@).len(),
        final(entries)@.subrange(0, old(entries)@.len() as int) == old(entries)@,
        forall|i: int|
            0 <= i < merge_events(events@).len() ==> merge_entry_of(
                #[trigger] final(entries)@[old(entries)@.len() + i],
                run_id@,
                merge_events(events@)[i],
            ),
{
    let ghost start = entries@;
    let mut k: usize = 0;
    while k < events.len()
        invariant
            k <= events@.len(),
            entries@.len() == start.len() + merge_events(events@.subrange(0, k as int)).len(),
            entries@.subrange(0, start.len() as int) == start,
            forall|i: int|
                0 <= i < merge_events(events@.subrange(0, k as int)).len() ==> merge_entry_of(
                    #[trigger] entries@[start.len() + i],
                    run_id@,
                    merge_events(events@.subrange(0, k as int))[i],
                ),
        decreases events@.len() - k,
    {
        let ghost pre = events@.subrange(0, k as int);
        let ghost next = events@.subrange(0, k + 1);
        assert(next.drop_last() =~= pre);
        assert(next.last() == events@[k as int]);
        let e = &events[k];
        let is_object = match &e.payload {
            JsonValue::Object(_) => true,
            _ => false,
        };
        if str_eq(e.source_id.as_str(), "merge_engine") && is_object {
            let ghost before = entries@;
            entries.push(merge_record_entry(run_id, e));
            assert(entries@.subrange(0, start.len() as int) =~= before.subrange(0, start.len() as int));
            assert forall|i: int|
                0 <= i < merge_events(next).len() implies merge_entry_of(
                #[trigger] entries@[start.len() + i],
                run_id@,
                merge_events(next)[i],
            ) by {
                if i < merge_events(pre).len() {
                    assert(entries@[start.len() + i] == before[start.len() + i]);
                }
            }
        }
        k += 1;
    }
    assert(events@.subrange(0, events@.len() as int) =~= events@);
}

/// The sum of the conflicts and of the suppressions of merge records.
pub open spec fn merge_totals(s: Seq<MergeRecordEntry>) -> (int, int)
    decreases s.len(),
{
    if s.len() == 0 {
        (0, 0)
    } else {
        let (c, p) = merge_totals(s.drop_last());
        (c + s.last().conflicts, p + s.last().suppressed)
    }
}

/// The total conflicts and suppressions of merge records.
pub fn merge_record_totals(entries: &Vec<MergeRecordEntry>) -> (r: (usize, usize))
    requires
        merge_totals(entries@).0 <= usize::MAX,
        merge_totals(entries@).1 <= usize::MAX,
    ensures
        r.0 == merge_totals(entries@).0,
        r.1 == merge_totals(entries@).1,
{
    let mut c: usize = 0;
    let mut p: usize = 0;
    let mut i: usize = 0;
    while i < entries.len()
        invariant
            i <= entries@.len(),
            merge_totals(entries@).0 <= usize::MAX,
            merge_totals(entries@).1 <= usize::MAX,
            c == merge_totals(entries@.subrange(0, i as int)).0,
            p == merge_totals(entries@.subrange(0, i as int)).1,
        decreases entries@.len() - i,
    {
        let ghost next = entries@.subrange(0, i + 1);
        assert(next.drop_last() =~= entries@.subrange(0, i as int));
        proof {
            lemma_merge_totals_prefix(entries@, i + 1);
        }
        c = c + entries[i].conflicts;
        p = p + entries[i].suppressed;
        i += 1;
    }
    assert(entries@.subrange(0, entries@.len() as int) =~= entries@);
    (c, p)
}

proof fn lemma_merge_totals_prefix(s: Seq<MergeRecordEntry>, k: int)
    requires
        0 <= k <= s.len(),
    ensures
        0 <= merge_totals(s.subrange(0, k)).0 <= merge_totals(s).0,
        0 <= merge_totals(s.subrange(0, k)).1 <= merge_totals(s).1,
    decreases s.len() - k,
{
    lemma_merge_totals_nonneg(s.subrange(0, k));
    if k < s.len() {
        lemma_merge_totals_prefix(s, k + 1);
        let t = s.subrange(0, k + 1);
        assert(t.drop_last() =~= s.subrange(0, k));
    } else {
        assert(s.subrange(0, k) =~= s);
    }
}

proof fn lemma_merge_totals_nonneg(s: Seq<MergeRecordEntry>)
    ensures
        merge_totals(s).0 >= 0,
        merge_totals(s).1 >= 0,
    decreases s.len(),
{
    if s.len() > 0 {
        lemma_merge_totals_nonneg(s.drop_last());
    }
}

/// The priority of a fired alert.
#[derive(Clone, Copy, PartialEq, Eq, Debug, Structural)]
pub enum AlertSeverity {
    P1,
    P2,
    P3,
}

/// A fired alert, as the daily report counts it.
#[derive(Clone, Copy, Debug)]
pub struct AlertFiringSummary {
    pub severity: AlertSeverity,
    pub acknowledged: bool,
    pub resolved: bool,
}

/// The alert counts of the daily report.
#[derive(Clone, Copy, PartialEq, Eq, Debug, Structural)]
pub struct OpsAlertsSummary {
    pub total_fired: usize,
    pub p1_fired: usize,
    pub p2_fired: usize,
    pub p3_fired: usize,
    pub acknowledged: usize,
    pub resolved: usize,
}

/// How many alerts pass `f`.
pub open spec fn count_alerts(s: Seq<AlertFiringSummary>, f: spec_fn(AlertFiringSummary) -> bool) -> nat
    decreases s.len(),
{
    if s.len() == 0 {
        0
    } else {
        count_alerts(s.drop_last(), f) + if f(s.last()) { 1nat } else { 0nat }
    }
}

proof fn lemma_count_alerts_bound(s: Seq<AlertFiringSummary>, f: spec_fn(AlertFiringSummary) -> bool)
    ensures
        count_alerts(s, f) <= s.len(),
    decreases s.len(),
{
    if s.len() > 0 {
        lemma_count_alerts_bound(s.drop_last(), f);
    }
}

/// The alert counts of the daily report: all alerts, by priority, acknowledged and
/// resolved.
pub fn ops_alerts_summary(alerts: &Vec<AlertFiringSummary>) -> (r: OpsAlertsSummary)
    ensures
        r.total_fired == alerts@.len(),
        r.p1_fired == count_alerts(alerts@, |a: AlertFiringSummary| a.severity == AlertSeverity::P1),
        r.p2_fired == count_alerts(alerts@, |a: AlertFiringSummary| a.severity == AlertSeverity::P2),
        r.p3_fired == count_alerts(alerts@, |a: AlertFiringSummary| a.severity == AlertSeverity::P3),
        r.acknowledged == count_alerts(alerts@, |a: AlertFiringSummary| a.acknowledged),
        r.resolved == count_alerts(alerts@, |a: AlertFiringSummary| a.resolved),
{
    let ghost f1 = |a: AlertFiringSummary| a.severity == AlertSeverity::P1;
    let ghost f2 = |a: AlertFiringSummary| a.severity == AlertSeverity::P2;
    let ghost f3 = |a: AlertFiringSummary| a.severity == AlertSeverity::P3;
    let ghost fa = |a: AlertFiringSummary| a.acknowledged;
    let ghost fr = |a: AlertFiringSummary| a.resolved;
    let mut s = OpsAlertsSummary { total_fired: alerts.len(), p1_fired: 0, p2_fired: 0, p3_fired: 0, acknowledged: 0, resolved: 0 };
    let mut i: usize = 0;
    while i < alerts.len()
        invariant
            i <= alerts@.len(),
            s.total_fired == alerts@.len(),
            s.p1_fired == count_alerts(alerts@.subrange(0, i as int), f1),
            s.p2_fired == count_alerts(alerts@.subrange(0, i as int), f2),
            s.p3_fired == count_alerts(alerts@.subrange(0, i as int), f3),
            s.acknowledged == count_alerts(alerts@.subrange(0, i as int), fa),
            s.resolved == count_alerts(alerts@.subrange(0, i as int), fr),
            f1 == (|a: AlertFiringSummary| a.severity == AlertSeverity::P1),
            f2 == (|a: AlertFiringSummary| a.severity == AlertSeverity::P2),
            f3 == (|a: AlertFiringSummary| a.severity == AlertSeverity::P3),
            fa == (|a: AlertFiringSummary| a.acknowledged),
            fr == (|a: AlertFiringSummary| a.resolved),
        decreases alerts@.len() - i,
    {
        let ghost pre = alerts@.subrange(0, i as int);
        let ghost next = alerts@.subrange(0, i + 1);
        assert(next.drop_last() =~= pre);
        assert(next.last() == alerts@[i as int]);
        proof {
            lemma_count_alerts_bound(pre, f1);
            lemma_count_alerts_bound(pre, f2);
            lemma_count_alerts_bound(pre, f3);
            lemma_count_alerts_bound(pre, fa);
            lemma_count_alerts_bound(pre, fr);
        }
        let a = alerts[i];
        match a.severity {
            AlertSeverity::P1 => {
                s.p1_fired = s.p1_fired + 1;
            },
            AlertSeverity::P2 => {
                s.p2_fired = s.p2_fired + 1;
            },
            AlertSeverity::P3 => {
                s.p3_fired = s.p3_fired + 1;
            },
        }
        if a.acknowledged {
            s.acknowledged = s.acknowledged + 1;
        }
        if a.resolved {
            s.resolved = s.resolved + 1;
        }
        i += 1;
    }
    assert(alerts@.subrange(0, alerts@.len() as int) =~= alerts@);
    s
}

/// How many approvals are in a review state.
pub open spec fn count_in_state(s: Seq<RuntimeApprovalRecord>, st: RuntimeApprovalReviewState) -> nat
    decreases s.len(),
{
    if s.len() == 0 {
        0
    } else {
        count_in_state(s.drop_last(), st) + if s.last().review_state == st { 1nat } else { 0nat }
    }
}

proof fn lemma_count_in_state_bound(s: Seq<RuntimeApprovalRecord>, st: RuntimeApprovalReviewState)
    ensures
        count_in_state(s, st) <= s.len(),
    decreases s.len(),
{
    if s.len() > 0 {
        lemma_count_in_state_bound(s.drop_last(), st);
    }
}

/// The approval counts of the weekly audit report: approved, rejected and expired.
pub fn approval_review_counts(approvals: &Vec<RuntimeApprovalRecord>) -> (r: (usize, usize, usize))
    ensures
        r.0 == count_in_state(approvals@, RuntimeApprovalReviewState::Approved),
        r.1 == count_in_state(approvals@, RuntimeApprovalReviewState::Rejected),
        r.2 == count_in_state(approvals@, RuntimeApprovalReviewState::Expired),
{
    let mut approved: usize = 0;
    let mut rejected: usize = 0;
    let mut expired: usize = 0;
    let mut i: usize = 0;
    while i < approvals.len()
        invariant
            i <= approvals@.len(),
            approved == count_in_state(approvals@.subrange(0, i as int), RuntimeApprovalReviewState::Approved),
            rejected == count_in_state(approvals@.subrange(0, i as int), RuntimeApprovalReviewState::Rejected),
            expired == count_in_state(approvals@.subrange(0, i as int), RuntimeApprovalReviewState::Expired),
        decreases approvals@.len() - i,
    {
        let ghost pre = approvals@.subrange(0, i as int);
        let ghost next = approvals@.subrange(0, i + 1);
        assert(next.drop_last() =~= pre);
        assert(next.last() == approvals@[i as int]);
        proof {
            lemma_count_in_state_bound(pre, RuntimeApprovalReviewState::Approved);
            lemma_count_in_state_bound(pre, RuntimeApprovalReviewState::Rejected);
            lemma_count_in_state_bound(pre, RuntimeApprovalReviewState::Expired);
        }
        match approvals[i].review_state {
            RuntimeApprovalReviewState::Approved => {
                approved = approved + 1;
            },
            RuntimeApprovalReviewState::Rejected => {
                rejected = rejected + 1;
            },
            RuntimeApprovalReviewState::Expired => {
                expired = expired + 1;
            },
            _ => {},
        }
        i += 1;
    }
    assert(approvals@.subrange(0, approvals@.len() as int) =~= approvals@);
    (approved, rejected, expired)
}

/// Whether a year of the Gregorian calendar is a leap year.
pub open spec fn leap_year(y: int) -> bool {
    (y % 4 == 0 && y % 100 != 0) || y % 400 == 0
}

pub open spec fn days_in_year(y: int) -> int {
    if leap_year(y) {
        366
    } else {
        365
    }
}

/// The year that day `days` of year `y` falls in, and the day within it.
pub open spec fn year_of(days: int, y: int) -> (int, int)
    decreases days,
{
    if days < 0 || days < days_in_year(y) {
        (y, days)
    } else {
        year_of(days - days_in_year(y), y + 1)
    }
}

pub open spec fn days_in_month(y: int, m: int) -> int {
    if m == 2 {
        if leap_year(y) {
            29
        } else {
            28
        }
    } else if m == 4 || m == 6 || m == 9 || m == 11 {
        30
    } else {
        31
    }
}

/// The month of year `y` that day `days` of month `m` falls in.
pub open spec fn month_of(days: int, y: int, m: int) -> int
    decreases 13 - m,
{
    if m >= 13 || days < days_in_month(y, m) {
        m
    } else {
        month_of(days - days_in_month(y, m), y, m + 1)
    }
}

/// Decimal text padded with zeros to at least `w` digits.
pub open spec fn padded(n: nat, w: nat) -> Seq<char>
    decreases w,
{
    if dec(n).len() >= w || w == 0 {
        dec(n)
    } else {
        seq!['0'] + padded(n, (w - 1) as nat)
    }
}

/// The month, `YYYY-MM`, that a time in milliseconds since the epoch falls in.
pub open spec fn epoch_month(now_ms: u64) -> Seq<char> {
    let days = now_ms / 86400000;
    let (y, rest) = year_of(days as int, 1970);
    padded(y as nat, 4) + "-"@ + padded(month_of(rest, y, 1) as nat, 2)
}

fn padded_exec(n: u64, w: usize) -> (r: String)
    ensures
        r@ == padded(n as nat, w as nat),
    decreases w,
{
    let t = crate::text::u64_text(n);
    if t.as_str().unicode_len() >= w || w == 0 {
        t
    } else {
        let rest = padded_exec(n, w - 1);
        let r = crate::text::cat("0", rest.as_str());
        proof {
            reveal_strlit("0");
        }
        assert(r@ =~= seq!['0'] + padded(n as nat, (w - 1) as nat));
        r
    }
}

fn days_in_year_exec(y: u64) -> (r: u64)
    ensures
        r == days_in_year(y as int),
{
    if (y % 4 == 0 && y % 100 != 0) || y % 400 == 0 {
        366
    } else {
        365
    }
}

fn days_in_month_exec(y: u64, m: u64) -> (r: u64)
    ensures
        r == days_in_month(y as int, m as int),
{
    if m == 2 {
        if (y % 4 == 0 && y % 100 != 0) || y % 400 == 0 {
            29
        } else {
            28
        }
    } else if m == 4 || m == 6 || m == 9 || m == 11 {
        30
    } else {
        31
    }
}

/// The month a monthly report covers by default: the one the current time falls in.
pub fn month_of_epoch_ms(now_ms: u64) -> (r: String)
    ensures
        r@ == epoch_month(now_ms),
{
    let days: u64 = now_ms / 86400000;
    let mut year: u64 = 1970;
    let mut remaining: u64 = days;
    while remaining >= days_in_year_exec(year)
        invariant
            year_of(days as int, 1970) == year_of(remaining as int, year as int),
            1970 <= year,
            year - 1970 <= days - remaining,
            remaining <= days,
            days <= u64::MAX / 86400000,
        decreases remaining,
    {
        remaining = remaining - days_in_year_exec(year);
        year = year + 1;
    }
    let mut m: u64 = 1;
    while m < 13 && remaining >= days_in_month_exec(year, m)
        invariant
            1 <= m <= 13,
            year_of(days as int, 1970).0 == year as int,
            month_of(year_of(days as int, 1970).1, year as int, 1) == month_of(remaining as int, year as int, m as int),
        decreases 13 - m,
    {
        remaining = remaining - days_in_month_exec(year, m);
        m = m + 1;
    }
    crate::text::cat3(padded_exec(year, 4).as_str(), "-", padded_exec(m, 2).as_str())
}

} // verus!
