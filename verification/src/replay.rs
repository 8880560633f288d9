//! Replaying a run's or a backtest's events a window at a time: filters, ordering by
//! sequence number, cursors and checkpoints.
use vstd::prelude::*;
use crate::events::{
    FrontendRuntimeEvent, RuntimeEventRetentionClass, RuntimeEventStage,
};
use crate::text::{
    ascii_lower_seq, cat, cat3, dec, eq_ignore_ascii_case, is_blank, is_blank_str, owned, str_eq,
    to_ascii_lower, trim, trim_str, u64_text,
};
use crate::timeline::{
    retention_text, stage_text, timeline_item_of, RuntimeTimelineItem,
};

verus! {

broadcast use vstd::std_specs::vec::group_vec_axioms;

/// Which events a replay shows.
#[derive(Clone, Debug, PartialEq, Eq)]
pub struct RuntimeReplayFilters {
    pub stage: Option<String>,
    pub severity: Option<String>,
    pub retention_class: Option<String>,
    pub module_key: Option<String>,
    pub key_only: bool,
}

/// Where a replay window starts, how long it is, and what it shows.
#[derive(Clone, Debug)]
pub struct RuntimeReplayOptions {
    pub cursor: usize,
    pub limit: usize,
    pub sequence_cursor: Option<u64>,
    pub filters: RuntimeReplayFilters,
}

/// A replay request as the query string gives it.
#[derive(Clone, Debug, Default)]
pub struct RuntimeReplayQuery {
    pub cursor: Option<usize>,
    pub limit: Option<usize>,
    pub checkpoint: Option<usize>,
    pub sequence_cursor: Option<u64>,
    pub stage: Option<String>,
    pub severity: Option<String>,
    pub retention_class: Option<String>,
    pub module_key: Option<String>,
    pub key_only: bool,
}

pub const DEFAULT_REPLAY_PAGE_SIZE: usize = 12;

pub const MAX_REPLAY_PAGE_SIZE: usize = 50;

/// A filter value with surrounding whitespace removed; blank values are no filter.
pub open spec fn cleaned(o: Option<String>) -> Option<Seq<char>> {
    match o {
        Some(s) => if trim(s@).len() > 0 {
            Some(trim(s@))
        } else {
            None
        },
        None => None,
    }
}

pub open spec fn opt_view(o: Option<String>) -> Option<Seq<char>> {
    match o {
        Some(s) => Some(s@),
        None => None,
    }
}

/// Trims a filter value, dropping it when nothing is left.
pub fn clean_optional_filter(value: Option<String>) -> (r: Option<String>)
    ensures
        opt_view(r) == cleaned(value),
{
    match value {
        Some(v) => {
            let t = trim_str(v.as_str());
            if t.unicode_len() > 0 {
                Some(owned(t))
            } else {
                None
            }
        },
        None => None,
    }
}

/// The options a query asks for: the checkpoint, else the cursor, else the start; a
/// page of twelve unless another size between 1 and 50 is asked for; cleaned filters.
pub fn normalized_replay_options(query: RuntimeReplayQuery) -> (r: RuntimeReplayOptions)
    ensures
        r.cursor == match query.checkpoint {
            Some(c) => c,
            None => match query.cursor {
                Some(c) => c,
                None => 0,
            },
        },
        r.limit == match query.limit {
            Some(l) => if l < 1 {
                1
            } else if l > 50 {
                50
            } else {
                l
            },
            None => 12,
        },
        r.sequence_cursor == query.sequence_cursor,
        opt_view(r.filters.stage) == cleaned(query.stage),
        opt_view(r.filters.severity) == cleaned(query.severity),
        opt_view(r.filters.retention_class) == cleaned(query.retention_class),
        opt_view(r.filters.module_key) == cleaned(query.module_key),
        r.filters.key_only == query.key_only,
{
    let cursor = match query.checkpoint {
        Some(c) => c,
        None => match query.cursor {
            Some(c) => c,
            None => 0,
        },
    };
    let requested = match query.limit {
        Some(l) => l,
        None => DEFAULT_REPLAY_PAGE_SIZE,
    };
    let limit = if requested < 1 {
        1
    } else if requested > MAX_REPLAY_PAGE_SIZE {
        MAX_REPLAY_PAGE_SIZE
    } else {
        requested
    };
    RuntimeReplayOptions {
        cursor,
        limit,
        sequence_cursor: query.sequence_cursor,
        filters: RuntimeReplayFilters {
            stage: clean_optional_filter(query.stage),
            severity: clean_optional_filter(query.severity),
            retention_class: clean_optional_filter(query.retention_class),
            module_key: clean_optional_filter(query.module_key),
            key_only: query.key_only,
        },
    }
}

/// A filter text as it is compared: trimmed and ASCII lower-cased.
pub open spec fn filter_text(s: Seq<char>) -> Seq<char> {
    ascii_lower_seq(trim(s))
}

/// Whether an event passes the replay filters: key events only when asked; the stage and
/// the retention class named; the severity named, of the event or its envelope, ignoring
/// ASCII case; the module named, of the envelope or the event's source.
pub open spec fn replay_matches(e: FrontendRuntimeEvent, f: RuntimeReplayFilters) -> bool {
    let env = e.envelope;
    &&& !(f.key_only && env.retention_class != RuntimeEventRetentionClass::Key)
    &&& match f.stage {
        Some(s) => filter_text(s@) == stage_text(env.stage),
        None => true,
    }
    &&& match f.retention_class {
        Some(s) => filter_text(s@) == retention_text(env.retention_class),
        None => true,
    }
    &&& match f.severity {
        Some(s) => ascii_lower_seq(e.severity@) == ascii_lower_seq(s@) || ascii_lower_seq(env.severity@)
            == ascii_lower_seq(s@),
        None => true,
    }
    &&& match f.module_key {
        Some(m) => env.module_key@ == m@ || e.source_id@ == m@,
        None => true,
    }
}

/// Whether an event passes the replay filters.
pub fn event_matches_replay_filters(event: &FrontendRuntimeEvent, filters: &RuntimeReplayFilters) -> (r: bool)
    ensures
        r == replay_matches(*event, *filters),
        filters.key_only && r ==> event.envelope.retention_class == RuntimeEventRetentionClass::Key,
        filters.stage is None && filters.severity is None && filters.retention_class is None
            && filters.module_key is None ==> (r <==> (!filters.key_only || event.envelope.retention_class
            == RuntimeEventRetentionClass::Key)),
        r && filters.module_key is Some ==> (event.envelope.module_key@ == filters.module_key->0@
            || event.source_id@ == filters.module_key->0@),
{
    let env = &event.envelope;
    if filters.key_only && env.retention_class != RuntimeEventRetentionClass::Key {
        return false;
    }
    match &filters.stage {
        Some(s) => {
            let t = to_ascii_lower(trim_str(s.as_str()));
            if !str_eq(t.as_str(), crate::timeline::stage_contract_value(env.stage)) {
                return false;
            }
        },
        None => {},
    }
    match &filters.retention_class {
        Some(s) => {
            let t = to_ascii_lower(trim_str(s.as_str()));
            if !str_eq(t.as_str(), crate::timeline::retention_contract_value(env.retention_class)) {
                return false;
            }
        },
        None => {},
    }
    match &filters.severity {
        Some(s) => {
            if !eq_ignore_ascii_case(event.severity.as_str(), s.as_str()) && !eq_ignore_ascii_case(
                env.severity.as_str(),
                s.as_str(),
            ) {
                return false;
            }
        },
        None => {},
    }
    match &filters.module_key {
        Some(m) => {
            if !str_eq(env.module_key.as_str(), m.as_str()) && !str_eq(event.source_id.as_str(), m.as_str()) {
                return false;
            }
        },
        None => {},
    }
    true
}


/// The events of `s` that pass the filters, in order.
pub open spec fn filter_events(s: Seq<FrontendRuntimeEvent>, f: RuntimeReplayFilters) -> Seq<FrontendRuntimeEvent>
    decreases s.len(),
{
    if s.len() == 0 {
        seq![]
    } else {
        let p = filter_events(s.drop_last(), f);
        if replay_matches(s.last(), f) {
            p.push(s.last())
        } else {
            p
        }
    }
}

pub open spec fn seq_key(e: FrontendRuntimeEvent) -> u64 {
    e.envelope.sequence_no
}

/// Where an event with key `k` goes in `s`: before the first event, from `j` on, with a
/// greater key.
pub open spec fn insert_pos(s: Seq<FrontendRuntimeEvent>, k: u64, j: int) -> int
    decreases s.len() - j,
{
    if j < 0 || j >= s.len() {
        s.len() as int
    } else if seq_key(s[j]) > k {
        j
    } else {
        insert_pos(s, k, j + 1)
    }
}

/// `s` sorted by sequence number, events with equal numbers keeping their order.
pub open spec fn sort_by_sequence(s: Seq<FrontendRuntimeEvent>) -> Seq<FrontendRuntimeEvent>
    decreases s.len(),
{
    if s.len() == 0 {
        seq![]
    } else {
        let p = sort_by_sequence(s.drop_last());
        p.insert(insert_pos(p, seq_key(s.last()), 0), s.last())
    }
}

/// The events a replay pages through.
pub open spec fn replay_filtered(events: Seq<FrontendRuntimeEvent>, f: RuntimeReplayFilters) -> Seq<FrontendRuntimeEvent> {
    sort_by_sequence(filter_events(events, f))
}

proof fn lemma_insert_pos_bounds(s: Seq<FrontendRuntimeEvent>, k: u64, j: int)
    requires
        0 <= j <= s.len(),
    ensures
        j <= insert_pos(s, k, j) <= s.len(),
    decreases s.len() - j,
{
    if j < s.len() && seq_key(s[j]) <= k {
        lemma_insert_pos_bounds(s, k, j + 1);
    }
}

proof fn lemma_sort_len(s: Seq<FrontendRuntimeEvent>)
    ensures
        sort_by_sequence(s).len() == s.len(),
    decreases s.len(),
{
    if s.len() > 0 {
        lemma_sort_len(s.drop_last());
        lemma_insert_pos_bounds(sort_by_sequence(s.drop_last()), seq_key(s.last()), 0);
    }
}

proof fn lemma_filter_len(s: Seq<FrontendRuntimeEvent>, f: RuntimeReplayFilters)
    ensures
        filter_events(s, f).len() <= s.len(),
    decreases s.len(),
{
    if s.len() > 0 {
        lemma_filter_len(s.drop_last(), f);
    }
}

/// Filters a record's events and orders them by sequence number.
pub fn filtered_replay_events(events: Vec<FrontendRuntimeEvent>, filters: &RuntimeReplayFilters) -> (r: Vec<FrontendRuntimeEvent>)
    ensures
        r@ == replay_filtered(events@, *filters),
        filters.key_only ==> forall|i: int|
            0 <= i < r@.len() ==> (#[trigger] r@[i]).envelope.retention_class == RuntimeEventRetentionClass::Key,
{
    let ghost orig = events@;
    let n = events.len();
    let mut rest = events;
    let mut sorted: Vec<FrontendRuntimeEvent> = Vec::new();
    let mut i: usize = 0;
    while i < n
        invariant
            n == orig.len(),
            i <= n,
            rest@ == orig.subrange(i as int, n as int),
            sorted@ == sort_by_sequence(filter_events(orig.subrange(0, i as int), *filters)),
        decreases n - i,
    {
        assert(rest@[0] == orig[i as int]);
        let e = rest.remove(0);
        let ghost prefix = orig.subrange(0, i + 1);
        assert(prefix.drop_last() =~= orig.subrange(0, i as int));
        assert(prefix.last() == e);
        let ghost q = filter_events(orig.subrange(0, i as int), *filters);
        if event_matches_replay_filters(&e, filters) {
            let k = e.envelope.sequence_no;
            let ghost before = sorted@;
            let mut j: usize = 0;
            while j < sorted.len() && sorted[j].envelope.sequence_no <= k
                invariant
                    j <= sorted@.len(),
                    sorted@ == before,
                    insert_pos(sorted@, k, 0) == insert_pos(sorted@, k, j as int),
                decreases sorted@.len() - j,
            {
                j += 1;
            }
            sorted.insert(j, e);
            assert(filter_events(prefix, *filters) == q.push(e));
            assert(q.push(e).drop_last() =~= q);
            assert(sort_by_sequence(q.push(e)) == before.insert(insert_pos(before, k, 0), e));
        } else {
            assert(filter_events(prefix, *filters) == q);
        }
        assert(rest@ =~= orig.subrange(i + 1, n as int));
        i += 1;
    }
    assert(orig.subrange(0, n as int) =~= orig);
    proof {
        lemma_replay_keeps_filtered_order(orig, *filters);
    }
    sorted
}

/// An event's sequence number, or `fallback` when it has none.
pub open spec fn seqno(e: FrontendRuntimeEvent, fallback: int) -> u64 {
    if e.envelope.sequence_no > 0 {
        e.envelope.sequence_no
    } else {
        fallback as u64
    }
}

fn event_sequence_no(event: &FrontendRuntimeEvent, fallback: usize) -> (r: u64)
    ensures
        r == seqno(*event, fallback as int),
{
    if event.envelope.sequence_no > 0 {
        event.envelope.sequence_no
    } else {
        fallback as u64
    }
}

/// The first position, from `j` on, of an event numbered at least `sc`.
pub open spec fn first_at_or_after(s: Seq<FrontendRuntimeEvent>, sc: u64, j: int) -> Option<int>
    decreases s.len() - j,
{
    if j < 0 || j >= s.len() {
        None
    } else if seq_key(s[j]) >= sc {
        Some(j)
    } else {
        first_at_or_after(s, sc, j + 1)
    }
}

pub open spec fn empty_window_message() -> Seq<char> {
    "重放游标超出空过滤重放窗口范围"@
}

/// Where the window starts in the filtered events, or why it cannot: the sequence
/// cursor, when given, points at the first event numbered at least that much; else the
/// cursor must fall inside the filtered events (or be 0 when there is none).
pub open spec fn replay_cursor(s: Seq<FrontendRuntimeEvent>, o: RuntimeReplayOptions) -> Result<int, Seq<char>> {
    if s.len() == 0 {
        if o.cursor == 0 && o.sequence_cursor is None {
            Ok(0)
        } else {
            Err(empty_window_message())
        }
    } else {
        match o.sequence_cursor {
            Some(sc) => match first_at_or_after(s, sc, 0) {
                Some(p) => Ok(p),
                None => Err("sequence_cursor `"@ + dec(sc as nat) + "` 超出过滤重放窗口范围"@),
            },
            None => if o.cursor >= s.len() {
                Err("游标 `"@ + dec(o.cursor as nat) + "` 超出 "@ + dec(s.len()) + " 个事件的过滤重放窗口范围"@)
            } else {
                Ok(o.cursor as int)
            },
        }
    }
}

proof fn lemma_first_at_or_after_bounds(s: Seq<FrontendRuntimeEvent>, sc: u64, j: int)
    requires
        0 <= j,
    ensures
        first_at_or_after(s, sc, j) matches Some(p) ==> j <= p < s.len(),
    decreases s.len() - j,
{
    if j < s.len() && seq_key(s[j]) < sc {
        lemma_first_at_or_after_bounds(s, sc, j + 1);
    }
}

/// Where the replay window starts, or why the options fall outside the filtered events.
pub fn cursor_from_replay_options(events: &Vec<FrontendRuntimeEvent>, options: &RuntimeReplayOptions) -> (r: Result<usize, String>)
    ensures
        match r {
            Ok(c) => replay_cursor(events@, *options) == Ok::<int, Seq<char>>(c as int),
            Err(m) => replay_cursor(events@, *options) == Err::<int, Seq<char>>(m@),
        },
{
    let n = events.len();
    if n == 0 {
        if options.cursor == 0 && options.sequence_cursor.is_none() {
            return Ok(0);
        }
        return Err(owned("重放游标超出空过滤重放窗口范围"));
    }
    match options.sequence_cursor {
        Some(sc) => {
            let mut j: usize = 0;
            while j < n
                invariant
                    n == events@.len(),
                    n > 0,
                    options.sequence_cursor == Some(sc),
                    j <= n,
                    first_at_or_after(events@, sc, 0) == first_at_or_after(events@, sc, j as int),
                decreases n - j,
            {
                if events[j].envelope.sequence_no >= sc {
                    return Ok(j);
                }
                j += 1;
            }
            Err(cat3("sequence_cursor `", u64_text(sc).as_str(), "` 超出过滤重放窗口范围"))
        },
        None => {
            if options.cursor >= n {
                let mut m = cat3("游标 `", u64_text(options.cursor as u64).as_str(), "` 超出 ");
                m.append(u64_text(n as u64).as_str());
                m.append(" 个事件的过滤重放窗口范围");
                Err(m)
            } else {
                Ok(options.cursor)
            }
        },
    }
}


/// Which kind of record is replayed.
#[derive(Clone, Copy, PartialEq, Eq, Debug, Structural)]
pub enum RuntimeReplayRecordKind {
    Run,
    Backtest,
}

/// A place to jump to in a replay.
#[derive(Clone, Debug)]
pub struct RuntimeReplayCheckpoint {
    pub cursor: usize,
    pub sequence_cursor: u64,
    pub label: String,
    pub event_id: Option<String>,
    pub event_time_ms: Option<u64>,
}

/// An event of the replay window with its sequence number.
#[derive(Clone, Debug)]
pub struct RuntimeReplayEventItem {
    pub sequence_no: usize,
    pub event: FrontendRuntimeEvent,
}

/// One window of a replay.
#[derive(Clone, Debug)]
pub struct RuntimeReplayResponse {
    pub kind: RuntimeReplayRecordKind,
    pub record_id: String,
    pub graph_id: String,
    pub source_event_count: usize,
    pub total_events: usize,
    pub cursor: usize,
    pub sequence_cursor: Option<u64>,
    pub limit: usize,
    pub window_end: usize,
    pub fill_event_count: usize,
    pub filters: RuntimeReplayFilters,
    pub checkpoints: Vec<RuntimeReplayCheckpoint>,
    pub events: Vec<RuntimeReplayEventItem>,
    pub timeline: Vec<RuntimeTimelineItem>,
    pub previous_cursor: Option<usize>,
    pub next_cursor: Option<usize>,
    pub previous_sequence_cursor: Option<u64>,
    pub next_sequence_cursor: Option<u64>,
}

/// How many events apart checkpoints are: the event count, kept between the page size
/// and 50.
pub open spec fn checkpoint_interval(total: int, limit: int) -> int {
    if total < limit {
        limit
    } else if total > 50 {
        50
    } else {
        total
    }
}

/// How many events apart checkpoints are for a page size (`clamp(max(limit, 1), 50)`).
pub fn replay_checkpoint_interval(total_events: usize, limit: usize) -> (r: usize)
    requires
        limit <= 50,
    ensures
        r == checkpoint_interval(total_events as int, if limit < 1 { 1 } else { limit as int }),
{
    let low = if limit < 1 {
        1
    } else {
        limit
    };
    if total_events < low {
        low
    } else if total_events > 50 {
        50
    } else {
        total_events
    }
}

/// The checkpoint at position `i`: its sequence number, and a label running to the
/// sequence number at the end of a page from there.
pub open spec fn checkpoint_is(cp: RuntimeReplayCheckpoint, s: Seq<FrontendRuntimeEvent>, i: int, l: int) -> bool {
    let end = (if i + l < s.len() { i + l } else { s.len() as int }) - 1;
    &&& cp.cursor == i
    &&& cp.sequence_cursor == seqno(s[i], i + 1)
    &&& cp.label@ == dec(seqno(s[i], i + 1) as nat) + "-"@ + dec(seqno(s[end], i + l) as nat)
    &&& cp.event_id == Some(s[i].event_id)
    &&& cp.event_time_ms == Some(s[i].event_time_ms)
}

/// Checkpoints start at the first event and follow one another at the checkpoint interval
/// until the events run out.
pub open spec fn checkpoints_of(cps: Seq<RuntimeReplayCheckpoint>, s: Seq<FrontendRuntimeEvent>, l: int) -> bool {
    let iv = checkpoint_interval(s.len() as int, l);
    &&& (cps.len() == 0) == (s.len() == 0)
    &&& cps.len() > 0 ==> cps[0].cursor == 0 && cps.last().cursor + iv >= s.len()
    &&& forall|k: int| 0 <= k < cps.len() ==> #[trigger] cps[k].cursor < s.len() && checkpoint_is(cps[k], s, cps[k].cursor as int, l)
    &&& forall|k: int| 0 <= k < cps.len() - 1 ==> #[trigger] cps[k + 1].cursor == cps[k].cursor + iv
}

/// The checkpoints of the filtered events for pages of `limit` events.
pub fn replay_checkpoints(events: &Vec<FrontendRuntimeEvent>, limit: usize) -> (r: Vec<RuntimeReplayCheckpoint>)
    requires
        1 <= limit <= 50,
        events@.len() + 50 <= usize::MAX,
    ensures
        checkpoints_of(r@, events@, limit as int),
{
    let n = events.len();
    let mut out: Vec<RuntimeReplayCheckpoint> = Vec::new();
    if n == 0 {
        return out;
    }
    let iv = replay_checkpoint_interval(n, limit);
    let mut i: usize = 0;
    while i < n
        invariant
            n == events@.len(),
            n > 0,
            n + 50 <= usize::MAX,
            1 <= limit <= 50,
            iv == checkpoint_interval(n as int, limit as int),
            1 <= iv,
            i <= n + 50,
            (out@.len() == 0) == (i == 0),
            out@.len() > 0 ==> out@[0].cursor == 0 && out@.last().cursor + iv == i,
            forall|k: int| 0 <= k < out@.len() ==> #[trigger] out@[k].cursor < n && checkpoint_is(out@[k], events@, out@[k].cursor as int, limit as int),
            forall|k: int| 0 <= k < out@.len() - 1 ==> #[trigger] out@[k + 1].cursor == out@[k].cursor + iv,
        decreases n + 50 - i,
    {
        let e = &events[i];
        let first = event_sequence_no(e, i + 1);
        let end = if i + limit < n { i + limit } else { n };
        let last = event_sequence_no(&events[end - 1], i + limit);
        let label = cat3(u64_text(first).as_str(), "-", u64_text(last).as_str());
        let ghost pre = out@;
        out.push(
            RuntimeReplayCheckpoint {
                cursor: i,
                sequence_cursor: first,
                label,
                event_id: Some(e.event_id.clone()),
                event_time_ms: Some(e.event_time_ms),
            },
        );
        assert forall|k: int| 0 <= k < out@.len() - 1 implies #[trigger] out@[k + 1].cursor == out@[k].cursor + iv by {
            if k < pre.len() - 1 {
                assert(out@[k + 1] == pre[k + 1]);
                assert(out@[k] == pre[k]);
            }
        }
        i = i + iv;
    }
    out
}

/// How many events of `s` are fills.
pub open spec fn fill_count(s: Seq<FrontendRuntimeEvent>) -> nat
    decreases s.len(),
{
    if s.len() == 0 {
        0
    } else {
        fill_count(s.drop_last()) + if s.last().event_type@ == "ExecutionFilled"@ { 1nat } else { 0nat }
    }
}

/// The cursor of the page before: a page back, or the start.
pub open spec fn previous_page(c: int, l: int) -> Option<usize> {
    if c == 0 {
        None
    } else if c >= l {
        Some((c - l) as usize)
    } else {
        Some(0)
    }
}

/// The cursor of the page after, when there are events after this page.
pub open spec fn next_page(c: int, l: int, total: int) -> Option<usize> {
    if c + l < total {
        Some((c + l) as usize)
    } else {
        None
    }
}

pub open spec fn sequence_at(s: Seq<FrontendRuntimeEvent>, p: Option<usize>) -> Option<u64> {
    match p {
        Some(i) => if i < s.len() {
            Some(seqno(s[i as int], i + 1))
        } else {
            None
        },
        None => None,
    }
}

/// The items of a replay window that starts at cursor `c`, and how many are fills.
fn window_items(window: Vec<FrontendRuntimeEvent>, c: usize) -> (r: (Vec<RuntimeReplayEventItem>, usize))
    requires
        c + window@.len() <= usize::MAX,
    ensures
        r.0@.len() == window@.len(),
        forall|j: int|
            0 <= j < window@.len() ==> (#[trigger] r.0@[j]).event == window@[j] && r.0@[j].sequence_no == (seqno(
                window@[j],
                c + j + 1,
            ) as usize),
        r.1 == fill_count(window@),
{
    let ghost w = window@;
    let wn = window.len();
    let mut window = window;
    let mut items: Vec<RuntimeReplayEventItem> = Vec::new();
    let mut fills: usize = 0;
    let mut k: usize = 0;
    while k < wn
        invariant
            wn == w.len(),
            k <= wn,
            c + wn <= usize::MAX,
            window@ == w.subrange(k as int, wn as int),
            items@.len() == k,
            fills == fill_count(w.subrange(0, k as int)),
            fills <= k,
            forall|j: int|
                0 <= j < k ==> (#[trigger] items@[j]).event == w[j] && items@[j].sequence_no == (seqno(w[j], c + j + 1) as usize),
        decreases wn - k,
    {
        assert(window@[0] == w[k as int]);
        let e = window.remove(0);
        let sequence_no = event_sequence_no(&e, c + k + 1) as usize;
        let filled = str_eq(e.event_type.as_str(), "ExecutionFilled");
        assert(w.subrange(0, k + 1).drop_last() =~= w.subrange(0, k as int));
        if filled {
            fills = fills + 1;
        }
        items.push(RuntimeReplayEventItem { sequence_no, event: e });
        assert(window@ =~= w.subrange(k + 1, wn as int));
        k += 1;
    }
    assert(w.subrange(0, wn as int) =~= w);
    (items, fills)
}

/// The window of a replay: the filtered events, from the cursor, a page long, each with
/// its sequence number (its position when it has none); their timeline items; the fills
/// among them; the neighbouring pages and the checkpoints.
pub open spec fn replay_response_of(
    r: RuntimeReplayResponse,
    kind: RuntimeReplayRecordKind,
    record_id: Seq<char>,
    graph_id: Seq<char>,
    events: Seq<FrontendRuntimeEvent>,
    o: RuntimeReplayOptions,
    c: int,
) -> bool {
    let s = replay_filtered(events, o.filters);
    let l = if o.limit < 1 { 1int } else { o.limit as int };
    let end = if c + l < s.len() { c + l } else { s.len() as int };
    let window = s.subrange(c, end);
    &&& r.kind == kind
    &&& r.record_id@ == record_id
    &&& r.graph_id@ == graph_id
    &&& r.source_event_count == events.len()
    &&& r.total_events == s.len()
    &&& r.cursor == c
    &&& r.sequence_cursor == sequence_at(s, Some(c as usize))
    &&& r.limit == l
    &&& r.events@.len() == window.len()
    &&& forall|k: int|
        0 <= k < window.len() ==> (#[trigger] r.events@[k]).event == window[k] && r.events@[k].sequence_no == (seqno(
            window[k],
            c + k + 1,
        ) as usize)
    &&& r.timeline@.len() == window.len()
    &&& forall|k: int| 0 <= k < window.len() ==> timeline_item_of(#[trigger] r.timeline@[k], window[k])
    &&& r.window_end == (if window.len() > 0 { r.events@.last().sequence_no as int } else { c })
    &&& r.fill_event_count == fill_count(window)
    &&& r.filters == o.filters
    &&& checkpoints_of(r.checkpoints@, s, l)
    &&& r.previous_cursor == previous_page(c, l)
    &&& r.next_cursor == next_page(c, l, s.len() as int)
    &&& r.previous_sequence_cursor == sequence_at(s, previous_page(c, l))
    &&& r.next_sequence_cursor == sequence_at(s, next_page(c, l, s.len() as int))
}

/// Replays a window of a record's events.
#[verifier::rlimit(60)]
pub fn runtime_replay_response(
    kind: RuntimeReplayRecordKind,
    record_id: String,
    graph_id: String,
    events: Vec<FrontendRuntimeEvent>,
    options: RuntimeReplayOptions,
) -> (r: Result<RuntimeReplayResponse, String>)
    requires
        options.limit <= 50 || replay_filtered(events@, options.filters).len() == 0,
        events@.len() + 50 <= usize::MAX,
    ensures
        match replay_cursor(replay_filtered(events@, options.filters), options) {
            Err(m) => r matches Err(e) && e@ == m,
            Ok(c) => r matches Ok(resp) && replay_response_of(resp, kind, record_id@, graph_id@, events@, options, c),
        },
{
    let ghost evs = events@;
    let source_event_count = events.len();
    let filtered = filtered_replay_events(events, &options.filters);
    proof {
        lemma_filter_len(evs, options.filters);
        lemma_sort_len(filter_events(evs, options.filters));
    }
    let l = if options.limit < 1 {
        1
    } else {
        options.limit
    };
    let c = cursor_from_replay_options(&filtered, &options)?;
    proof {
        lemma_first_at_or_after_bounds(filtered@, match options.sequence_cursor { Some(sc) => sc, None => 0 }, 0);
    }
    let total = filtered.len();
    assert(c <= total);
    let end = if c + l < total {
        c + l
    } else {
        total
    };
    let checkpoints = if total == 0 {
        Vec::new()
    } else {
        replay_checkpoints(&filtered, l)
    };
    let sequence_cursor = if c < total {
        Some(event_sequence_no(&filtered[c], c + 1))
    } else {
        None
    };
    let previous_cursor: Option<usize> = if c == 0 {
        None
    } else if c >= l {
        Some(c - l)
    } else {
        Some(0)
    };
    let next_cursor: Option<usize> = if c + l < total {
        Some(c + l)
    } else {
        None
    };
    let previous_sequence_cursor = match previous_cursor {
        Some(p) => if p < total {
            Some(event_sequence_no(&filtered[p], p + 1))
        } else {
            None
        },
        None => None,
    };
    let next_sequence_cursor = match next_cursor {
        Some(p) => if p < total {
            Some(event_sequence_no(&filtered[p], p + 1))
        } else {
            None
        },
        None => None,
    };
    let ghost s = filtered@;
    let mut filtered = filtered;
    let mut window = filtered.split_off(c);
    window.truncate(end - c);
    assert(window@ =~= s.subrange(c as int, end as int));
    let timeline = crate::timeline::timeline_items_from_events(&window);
    let ghost w = window@;
    let wn = window.len();
    let (items, fills) = window_items(window, c);
    let window_end = if wn > 0 {
        items[wn - 1].sequence_no
    } else {
        c
    };
    Ok(
        RuntimeReplayResponse {
            kind,
            record_id,
            graph_id,
            source_event_count,
            total_events: total,
            cursor: c,
            sequence_cursor,
            limit: l,
            window_end,
            fill_event_count: fills,
            filters: options.filters,
            checkpoints,
            events: items,
            timeline,
            previous_cursor,
            next_cursor,
            previous_sequence_cursor,
            next_sequence_cursor,
        },
    )
}


/// The events of `s` are in order of sequence number.
pub open spec fn ordered_by_sequence(s: Seq<FrontendRuntimeEvent>) -> bool {
    forall|i: int, j: int| 0 <= i < j < s.len() ==> seq_key(#[trigger] s[i]) <= seq_key(#[trigger] s[j])
}

proof fn lemma_insert_pos_spec(s: Seq<FrontendRuntimeEvent>, k: u64, j: int)
    requires
        0 <= j <= s.len(),
    ensures
        forall|i: int| j <= i < insert_pos(s, k, j) ==> seq_key(#[trigger] s[i]) <= k,
        insert_pos(s, k, j) < s.len() ==> seq_key(s[insert_pos(s, k, j)]) > k,
        j <= insert_pos(s, k, j) <= s.len(),
    decreases s.len() - j,
{
    if j < s.len() && seq_key(s[j]) <= k {
        lemma_insert_pos_spec(s, k, j + 1);
    }
}

proof fn lemma_sorted_and_within(s: Seq<FrontendRuntimeEvent>, p: spec_fn(FrontendRuntimeEvent) -> bool)
    requires
        forall|i: int| 0 <= i < s.len() ==> p(#[trigger] s[i]),
    ensures
        ordered_by_sequence(sort_by_sequence(s)),
        forall|i: int| 0 <= i < sort_by_sequence(s).len() ==> p(#[trigger] sort_by_sequence(s)[i]),
        sort_by_sequence(s).len() == s.len(),
    decreases s.len(),
{
    if s.len() > 0 {
        let init = s.drop_last();
        assert forall|i: int| 0 <= i < init.len() implies p(#[trigger] init[i]) by {
            assert(init[i] == s[i]);
        }
        lemma_sorted_and_within(init, p);
        let q = sort_by_sequence(init);
        let x = s.last();
        let k = seq_key(x);
        lemma_insert_pos_spec(q, k, 0);
        let pos = insert_pos(q, k, 0);
        let r = q.insert(pos, x);
        assert(r == sort_by_sequence(s));
        assert forall|i: int, j: int| 0 <= i < j < r.len() implies seq_key(#[trigger] r[i]) <= seq_key(#[trigger] r[j]) by {
            if i < pos && j < pos {
                assert(r[i] == q[i] && r[j] == q[j]);
            } else if i < pos && j == pos {
                assert(r[i] == q[i]);
            } else if i < pos && j > pos {
                assert(r[i] == q[i] && r[j] == q[j - 1]);
            } else if i == pos {
                assert(r[j] == q[j - 1]);
                assert(seq_key(q[pos]) > k);
                if j - 1 > pos {
                    assert(seq_key(q[pos]) <= seq_key(q[j - 1]));
                }
            } else {
                assert(r[i] == q[i - 1] && r[j] == q[j - 1]);
            }
        }
        assert forall|i: int| 0 <= i < r.len() implies p(#[trigger] r[i]) by {
            if i < pos {
                assert(r[i] == q[i]);
            } else if i > pos {
                assert(r[i] == q[i - 1]);
            }
        }
    }
}

proof fn lemma_filter_matches(s: Seq<FrontendRuntimeEvent>, f: RuntimeReplayFilters)
    ensures
        forall|i: int| 0 <= i < filter_events(s, f).len() ==> replay_matches(#[trigger] filter_events(s, f)[i], f),
    decreases s.len(),
{
    if s.len() > 0 {
        lemma_filter_matches(s.drop_last(), f);
        let p = filter_events(s.drop_last(), f);
        if replay_matches(s.last(), f) {
            assert forall|i: int| 0 <= i < p.push(s.last()).len() implies replay_matches(#[trigger] p.push(s.last())[i], f) by {
                if i < p.len() {
                    assert(p.push(s.last())[i] == p[i]);
                }
            }
        }
    }
}

pub open spec fn matches_pred(f: RuntimeReplayFilters) -> spec_fn(FrontendRuntimeEvent) -> bool {
    |e: FrontendRuntimeEvent| replay_matches(e, f)
}

/// A replay shows only events that pass its filters, in order of sequence number: a
/// key-only replay shows only key events, and a replay for a module only events whose
/// envelope or source names that module.
pub proof fn lemma_replay_keeps_filtered_order(events: Seq<FrontendRuntimeEvent>, f: RuntimeReplayFilters)
    ensures
        forall|i: int| 0 <= i < replay_filtered(events, f).len() ==> replay_matches(#[trigger] replay_filtered(events, f)[i], f),
        ordered_by_sequence(replay_filtered(events, f)),
        f.key_only ==> forall|i: int|
            0 <= i < replay_filtered(events, f).len() ==> (#[trigger] replay_filtered(events, f)[i]).envelope.retention_class
                == RuntimeEventRetentionClass::Key,
        f.module_key is Some ==> forall|i: int|
            0 <= i < replay_filtered(events, f).len() ==> ((#[trigger] replay_filtered(events, f)[i]).envelope.module_key@
                == f.module_key->0@ || replay_filtered(events, f)[i].source_id@ == f.module_key->0@),
{
    let s = filter_events(events, f);
    lemma_filter_matches(events, f);
    assert forall|i: int| 0 <= i < s.len() implies (#[trigger] matches_pred(f))(s[i]) by {
        assert(replay_matches(s[i], f));
    }
    lemma_sorted_and_within(s, matches_pred(f));
    assert forall|i: int| 0 <= i < replay_filtered(events, f).len() implies replay_matches(#[trigger] replay_filtered(events, f)[i], f) by {
        assert(matches_pred(f)(replay_filtered(events, f)[i]));
    }
}

/// Consecutive pages of a replay follow one another: the next page starts where this one
/// ends, and this page is the next page of the one before when a whole page fits before it.
pub proof fn lemma_replay_pages_follow(c: int, l: int, total: int)
    requires
        0 <= c,
        1 <= l,
        c + l < total,
        total <= usize::MAX,
    ensures
        next_page(c, l, total) == Some((c + l) as usize),
        previous_page(c + l, l) == Some(c as usize),
{
}

} // verus!
