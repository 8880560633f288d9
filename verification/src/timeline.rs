//! Timeline items, the retained key-event index and compact evidence projections.
use vstd::prelude::*;
use crate::events::{
    is_governance_event_type, is_system_governance_event_type, FrontendRuntimeEvent,
    RuntimeEventRetentionClass, RuntimeEventStage,
};
use crate::text::{is_blank, is_blank_str, owned, str_eq};

verus! {

/// What compaction may do with a timeline item.
#[derive(Clone, Copy, PartialEq, Eq, Debug, Structural)]
pub enum RuntimeTimelineCompactability {
    Retain,
    Summarize,
    DropCandidate,
}

/// The governance identity a timeline item was recorded under.
#[derive(Clone, Debug)]
pub struct RuntimeTimelineGovernanceIdentity {
    pub capability_hash: String,
    pub deployment_revision: String,
    pub strategy_version: String,
    pub parameter_version: String,
}

/// One governed entry of a run's timeline.
#[derive(Clone, Debug)]
pub struct RuntimeTimelineItem {
    pub timeline_item_version: u32,
    pub event_id: String,
    pub event_type: String,
    pub sequence_no: u64,
    pub occurred_at_ms: u64,
    pub ingested_at_ms: u64,
    pub stage: RuntimeEventStage,
    pub retention_class: RuntimeEventRetentionClass,
    pub severity: String,
    pub module_key: String,
    pub node_id: String,
    pub summary: String,
    pub reason_code: Option<String>,
    pub governance: RuntimeTimelineGovernanceIdentity,
    pub payload_version: u32,
    pub compactability: RuntimeTimelineCompactability,
}

/// The key events kept from a timeline.
#[derive(Clone, Debug)]
pub struct RuntimeRetainedKeyEventIndex {
    pub index_version: u32,
    pub policy_version: String,
    pub source_event_count: usize,
    pub retained_event_count: usize,
    pub key_event_count: usize,
    pub system_event_count: usize,
    pub entries: Vec<RuntimeTimelineItem>,
}

/// Counts by text key (a map from key to a count of at least one).
#[derive(Clone, Debug)]
pub struct CountMap {
    pub entries: Vec<(String, usize)>,
}

/// A timeline reduced to its key evidence, with counts of what was dropped.
#[derive(Clone, Debug)]
pub struct RuntimeCompactEvidenceProjection {
    pub projection_version: u32,
    pub policy_version: String,
    pub source_event_count: usize,
    pub retained_event_count: usize,
    pub dropped_event_count: usize,
    pub dropped_by_retention: CountMap,
    pub dropped_by_stage: CountMap,
    pub key_event_count: usize,
    pub system_event_count: usize,
    pub governance: RuntimeTimelineGovernanceIdentity,
    pub entries: Vec<RuntimeTimelineItem>,
}

/// The count stored for `key`: that of the first entry with the key.
pub open spec fn count_entry(entries: Seq<(String, usize)>, key: Seq<char>) -> Option<usize>
    decreases entries.len(),
{
    if entries.len() == 0 {
        None
    } else if entries[0].0@ == key {
        Some(entries[0].1)
    } else {
        count_entry(entries.drop_first(), key)
    }
}

impl CountMap {
    pub fn new() -> (r: Self)
        ensures
            r.entries@.len() == 0,
    {
        CountMap { entries: Vec::new() }
    }

    /// The count stored for `key`.
    pub fn get(&self, key: &str) -> (r: Option<&usize>)
        ensures
            match r {
                Some(c) => count_entry(self.entries@, key@) == Some(*c),
                None => count_entry(self.entries@, key@).is_none(),
            },
    {
        let mut i: usize = 0;
        assert(self.entries@.subrange(0, self.entries@.len() as int) =~= self.entries@);
        while i < self.entries.len()
            invariant
                i <= self.entries@.len(),
                count_entry(self.entries@, key@) == count_entry(
                    self.entries@.subrange(i as int, self.entries@.len() as int),
                    key@,
                ),
            decreases self.entries@.len() - i,
        {
            let ghost rest = self.entries@.subrange(i as int, self.entries@.len() as int);
            assert(rest.drop_first() =~= self.entries@.subrange(i + 1, self.entries@.len() as int));
            if str_eq(self.entries[i].0.as_str(), key) {
                return Some(&self.entries[i].1);
            }
            i += 1;
        }
        None
    }

    /// Adds one to the count of `key`.
    pub fn increment(&mut self, key: &str)
        requires
            match count_entry(old(self).entries@, key@) {
                Some(c) => c < usize::MAX,
                None => true,
            },
        ensures
            count_entry(final(self).entries@, key@) == Some(
                (match count_entry(old(self).entries@, key@) {
                    Some(c) => c + 1,
                    None => 1,
                }) as usize,
            ),
            forall|k: Seq<char>|
                k != key@ ==> count_entry(final(self).entries@, k) == count_entry(
                    old(self).entries@,
                    k,
                ),
    {
        let ghost pre = self.entries@;
        let mut i: usize = 0;
        while i < self.entries.len()
            invariant
                self.entries@ == pre,
                pre == old(self).entries@,
                match count_entry(pre, key@) {
                    Some(c) => c < usize::MAX,
                    None => true,
                },
                i <= pre.len(),
                forall|j: int| 0 <= j < i ==> pre[j].0@ != key@,
            decreases pre.len() - i,
        {
            if str_eq(self.entries[i].0.as_str(), key) {
                proof {
                    lemma_count_entry_first(pre, key@, i as int);
                }
                let c = self.entries[i].1;
                assert(count_entry(old(self).entries@, key@) == Some(c));
                let name = self.entries[i].0.clone();
                self.entries.set(i, (name, c + 1));
                proof {
                    lemma_count_entry_update(pre, i as int, key@, (c + 1) as usize);
                }
                return;
            }
            i += 1;
        }
        proof {
            lemma_count_entry_first(pre, key@, i as int);
        }
        let entry = (owned(key), 1usize);
        proof {
            lemma_count_entry_append(pre, entry, key@);
        }
        self.entries.push(entry);
    }
}

proof fn lemma_count_entry_first(s: Seq<(String, usize)>, key: Seq<char>, i: int)
    requires
        0 <= i <= s.len(),
        forall|j: int| 0 <= j < i ==> s[j].0@ != key,
    ensures
        i < s.len() && s[i].0@ == key ==> count_entry(s, key) == Some(s[i].1),
        i == s.len() ==> count_entry(s, key).is_none(),
    decreases i,
{
    if i > 0 {
        let t = s.drop_first();
        assert forall|j: int| 0 <= j < i - 1 implies t[j].0@ != key by {
            assert(t[j] == s[j + 1]);
        }
        lemma_count_entry_first(t, key, i - 1);
        if i < s.len() {
            assert(t[i - 1] == s[i]);
        }
    } else if s.len() == 0 {
    }
}

proof fn lemma_count_entry_update(s: Seq<(String, usize)>, i: int, key: Seq<char>, c: usize)
    requires
        0 <= i < s.len(),
        s[i].0@ == key,
        forall|j: int| 0 <= j < i ==> s[j].0@ != key,
    ensures
        count_entry(s.update(i, (s[i].0, c)), key) == Some(c),
        forall|k: Seq<char>|
            k != key ==> count_entry(s.update(i, (s[i].0, c)), k) == count_entry(s, k),
    decreases i,
{
    let u = s.update(i, (s[i].0, c));
    if i == 0 {
        assert(u[0].0 == s[0].0);
        assert(u.drop_first() =~= s.drop_first());
        assert forall|k: Seq<char>| k != key implies count_entry(u, k) == count_entry(s, k) by {
            assert(u.drop_first() =~= s.drop_first());
        }
    } else {
        let t = s.drop_first();
        assert(u.drop_first() =~= t.update(i - 1, (t[i - 1].0, c)));
        assert(u[0] == s[0]);
        assert(t[i - 1] == s[i]);
        lemma_count_entry_update(t, i - 1, key, c);
        assert forall|k: Seq<char>| k != key implies count_entry(u, k) == count_entry(s, k) by {
            assert(u[0] == s[0]);
            if s[0].0@ != k {
                assert(count_entry(u, k) == count_entry(u.drop_first(), k));
                assert(count_entry(s, k) == count_entry(t, k));
            }
        }
        assert(count_entry(u, key) == count_entry(u.drop_first(), key));
    }
}

proof fn lemma_count_entry_append(s: Seq<(String, usize)>, p: (String, usize), key: Seq<char>)
    requires
        p.0@ == key,
        count_entry(s, key).is_none(),
    ensures
        count_entry(s.push(p), key) == Some(p.1),
        forall|k: Seq<char>| k != key ==> count_entry(s.push(p), k) == count_entry(s, k),
    decreases s.len(),
{
    if s.len() > 0 {
        assert(s.push(p).drop_first() =~= s.drop_first().push(p));
        assert(s.push(p)[0] == s[0]);
        lemma_count_entry_append(s.drop_first(), p, key);
        assert forall|k: Seq<char>| k != key implies count_entry(s.push(p), k) == count_entry(s, k) by {
            assert(s.push(p)[0] == s[0]);
            if s[0].0@ != k {
                assert(count_entry(s.push(p), k) == count_entry(s.push(p).drop_first(), k));
                assert(count_entry(s, k) == count_entry(s.drop_first(), k));
            }
        }
        assert(count_entry(s.push(p), key) == count_entry(s.push(p).drop_first(), key));
    } else {
        assert(s.push(p)[0] == p);
        assert forall|k: Seq<char>| k != key implies count_entry(s.push(p), k) == count_entry(s, k) by {
            assert(s.push(p)[0] == p);
            assert(s.push(p).drop_first().len() == 0);
            assert(count_entry(s.push(p).drop_first(), k).is_none());
        }
    }
}


pub open spec fn compactability_for(r: RuntimeEventRetentionClass) -> RuntimeTimelineCompactability {
    match r {
        RuntimeEventRetentionClass::Key => RuntimeTimelineCompactability::Retain,
        RuntimeEventRetentionClass::Summary => RuntimeTimelineCompactability::Summarize,
        RuntimeEventRetentionClass::Debug => RuntimeTimelineCompactability::DropCandidate,
    }
}

/// Key evidence is retained, summary evidence summarised, debug evidence may be dropped.
pub fn timeline_compactability_for_retention(r: RuntimeEventRetentionClass) -> (c: RuntimeTimelineCompactability)
    ensures
        c == compactability_for(r),
{
    match r {
        RuntimeEventRetentionClass::Key => RuntimeTimelineCompactability::Retain,
        RuntimeEventRetentionClass::Summary => RuntimeTimelineCompactability::Summarize,
        RuntimeEventRetentionClass::Debug => RuntimeTimelineCompactability::DropCandidate,
    }
}

/// `item` is the timeline item of `ev`: identity and governance from the envelope, with
/// the event's own time, severity and source standing in for envelope fields left unset.
pub open spec fn timeline_item_of(item: RuntimeTimelineItem, ev: FrontendRuntimeEvent) -> bool {
    let env = ev.envelope;
    let occurred = if env.occurred_at_ms > 0 { env.occurred_at_ms } else { ev.event_time_ms };
    &&& item.timeline_item_version == 1
    &&& item.event_id@ == ev.event_id@
    &&& item.event_type@ == ev.event_type@
    &&& item.sequence_no == env.sequence_no
    &&& item.occurred_at_ms == occurred
    &&& item.ingested_at_ms == (if env.ingested_at_ms > 0 { env.ingested_at_ms } else { occurred })
    &&& item.stage == env.stage
    &&& item.retention_class == env.retention_class
    &&& item.severity@ == (if is_blank(env.severity@) { ev.severity@ } else { env.severity@ })
    &&& item.module_key@ == (if is_blank(env.module_key@) { ev.source_id@ } else { env.module_key@ })
    &&& item.node_id@ == ev.node_id@
    &&& item.summary@ == ev.summary@
    &&& crate::events::opt_text(item.reason_code) == crate::events::opt_text(env.reason_code)
    &&& item.governance.capability_hash@ == env.capability_hash@
    &&& item.governance.deployment_revision@ == env.deployment_revision@
    &&& item.governance.strategy_version@ == env.strategy_version@
    &&& item.governance.parameter_version@ == env.parameter_version@
    &&& item.payload_version == env.payload_version
    &&& item.compactability == compactability_for(env.retention_class)
}

fn clone_opt(o: &Option<String>) -> (r: Option<String>)
    ensures
        r == *o,
{
    match o {
        Some(s) => Some(s.clone()),
        None => None,
    }
}

/// An exact copy of a governance identity.
pub fn clone_governance_identity(g: &RuntimeTimelineGovernanceIdentity) -> (r: RuntimeTimelineGovernanceIdentity)
    ensures
        r == *g,
{
    RuntimeTimelineGovernanceIdentity {
        capability_hash: g.capability_hash.clone(),
        deployment_revision: g.deployment_revision.clone(),
        strategy_version: g.strategy_version.clone(),
        parameter_version: g.parameter_version.clone(),
    }
}

/// An exact copy of a timeline item.
pub fn clone_timeline_item(item: &RuntimeTimelineItem) -> (r: RuntimeTimelineItem)
    ensures
        r == *item,
{
    RuntimeTimelineItem {
        timeline_item_version: item.timeline_item_version,
        event_id: item.event_id.clone(),
        event_type: item.event_type.clone(),
        sequence_no: item.sequence_no,
        occurred_at_ms: item.occurred_at_ms,
        ingested_at_ms: item.ingested_at_ms,
        stage: item.stage,
        retention_class: item.retention_class,
        severity: item.severity.clone(),
        module_key: item.module_key.clone(),
        node_id: item.node_id.clone(),
        summary: item.summary.clone(),
        reason_code: clone_opt(&item.reason_code),
        governance: clone_governance_identity(&item.governance),
        payload_version: item.payload_version,
        compactability: item.compactability,
    }
}

/// The timeline item of one event.
pub fn timeline_item_from_event(event: &FrontendRuntimeEvent) -> (r: RuntimeTimelineItem)
    ensures
        timeline_item_of(r, *event),
{
    let env = &event.envelope;
    let occurred_at_ms = if env.occurred_at_ms > 0 {
        env.occurred_at_ms
    } else {
        event.event_time_ms
    };
    let ingested_at_ms = if env.ingested_at_ms > 0 {
        env.ingested_at_ms
    } else {
        occurred_at_ms
    };
    let module_key = if is_blank_str(env.module_key.as_str()) {
        event.source_id.clone()
    } else {
        env.module_key.clone()
    };
    let severity = if is_blank_str(env.severity.as_str()) {
        event.severity.clone()
    } else {
        env.severity.clone()
    };
    RuntimeTimelineItem {
        timeline_item_version: 1,
        event_id: event.event_id.clone(),
        event_type: event.event_type.clone(),
        sequence_no: env.sequence_no,
        occurred_at_ms,
        ingested_at_ms,
        stage: env.stage,
        retention_class: env.retention_class,
        severity,
        module_key,
        node_id: event.node_id.clone(),
        summary: event.summary.clone(),
        reason_code: clone_opt(&env.reason_code),
        governance: RuntimeTimelineGovernanceIdentity {
            capability_hash: env.capability_hash.clone(),
            deployment_revision: env.deployment_revision.clone(),
            strategy_version: env.strategy_version.clone(),
            parameter_version: env.parameter_version.clone(),
        },
        payload_version: env.payload_version,
        compactability: timeline_compactability_for_retention(env.retention_class),
    }
}

/// The timeline of a list of events, one item per event in order.
pub fn timeline_items_from_events(events: &Vec<FrontendRuntimeEvent>) -> (r: Vec<RuntimeTimelineItem>)
    ensures
        r@.len() == events@.len(),
        forall|i: int| 0 <= i < events@.len() ==> timeline_item_of(#[trigger] r@[i], events@[i]),
{
    let mut out: Vec<RuntimeTimelineItem> = Vec::new();
    let mut i: usize = 0;
    while i < events.len()
        invariant
            i <= events@.len(),
            out@.len() == i,
            forall|k: int| 0 <= k < i ==> timeline_item_of(#[trigger] out@[k], events@[k]),
        decreases events@.len() - i,
    {
        out.push(timeline_item_from_event(&events[i]));
        i += 1;
    }
    out
}

pub open spec fn stage_text(stage: RuntimeEventStage) -> Seq<char> {
    match stage {
        RuntimeEventStage::Data => "data"@,
        RuntimeEventStage::Intent => "intent"@,
        RuntimeEventStage::Agent => "agent"@,
        RuntimeEventStage::Risk => "risk"@,
        RuntimeEventStage::Execution => "execution"@,
        RuntimeEventStage::Fill => "fill"@,
        RuntimeEventStage::System => "system"@,
    }
}

pub open spec fn retention_text(r: RuntimeEventRetentionClass) -> Seq<char> {
    match r {
        RuntimeEventRetentionClass::Key => "key"@,
        RuntimeEventRetentionClass::Summary => "summary"@,
        RuntimeEventRetentionClass::Debug => "debug"@,
    }
}

/// The contract string of a stage.
pub fn stage_contract_value(stage: RuntimeEventStage) -> (r: &'static str)
    ensures
        r@ == stage_text(stage),
{
    match stage {
        RuntimeEventStage::Data => "data",
        RuntimeEventStage::Intent => "intent",
        RuntimeEventStage::Agent => "agent",
        RuntimeEventStage::Risk => "risk",
        RuntimeEventStage::Execution => "execution",
        RuntimeEventStage::Fill => "fill",
        RuntimeEventStage::System => "system",
    }
}

/// The contract string of a retention class.
pub fn retention_contract_value(r: RuntimeEventRetentionClass) -> (s: &'static str)
    ensures
        s@ == retention_text(r),
{
    match r {
        RuntimeEventRetentionClass::Key => "key",
        RuntimeEventRetentionClass::Summary => "summary",
        RuntimeEventRetentionClass::Debug => "debug",
    }
}

/// An item the key-event index keeps: key evidence or a system-governance event.
pub open spec fn is_retained(item: RuntimeTimelineItem) -> bool {
    item.retention_class == RuntimeEventRetentionClass::Key || is_governance_event_type(item.event_type@)
}

/// Whether the key-event index keeps an item.
pub fn is_retained_key_timeline_item(item: &RuntimeTimelineItem) -> (r: bool)
    ensures
        r == is_retained(*item),
{
    item.retention_class == RuntimeEventRetentionClass::Key || is_system_governance_event_type(
        item.event_type.as_str(),
    )
}

/// The items of `s` that satisfy `f`, in order.
pub open spec fn filter_items(s: Seq<RuntimeTimelineItem>, f: spec_fn(RuntimeTimelineItem) -> bool) -> Seq<RuntimeTimelineItem>
    decreases s.len(),
{
    if s.len() == 0 {
        Seq::empty()
    } else {
        let r = filter_items(s.drop_last(), f);
        if f(s.last()) {
            r.push(s.last())
        } else {
            r
        }
    }
}

/// The number of items of `s` that satisfy `f`.
pub open spec fn count_items(s: Seq<RuntimeTimelineItem>, f: spec_fn(RuntimeTimelineItem) -> bool) -> nat
    decreases s.len(),
{
    if s.len() == 0 {
        0
    } else {
        count_items(s.drop_last(), f) + if f(s.last()) { 1nat } else { 0nat }
    }
}

pub proof fn lemma_count_items_bound(s: Seq<RuntimeTimelineItem>, f: spec_fn(RuntimeTimelineItem) -> bool)
    ensures
        count_items(s, f) <= s.len(),
        filter_items(s, f).len() == count_items(s, f),
    decreases s.len(),
{
    if s.len() > 0 {
        lemma_count_items_bound(s.drop_last(), f);
    }
}

proof fn lemma_prefix_step(s: Seq<RuntimeTimelineItem>, i: int)
    requires
        0 <= i < s.len(),
    ensures
        s.subrange(0, i + 1).drop_last() == s.subrange(0, i),
        s.subrange(0, i + 1).last() == s[i],
{
    assert(s.subrange(0, i + 1).drop_last() =~= s.subrange(0, i));
}

pub open spec fn is_key_item(item: RuntimeTimelineItem) -> bool {
    item.retention_class == RuntimeEventRetentionClass::Key
}

pub open spec fn is_system_item(item: RuntimeTimelineItem) -> bool {
    is_governance_event_type(item.event_type@)
}

/// Counts the items of `s` that hold key evidence.
fn count_key_items(s: &Vec<RuntimeTimelineItem>) -> (n: usize)
    ensures
        n == count_items(s@, |it: RuntimeTimelineItem| is_key_item(it)),
{
    let ghost f = |it: RuntimeTimelineItem| is_key_item(it);
    let mut n: usize = 0;
    let mut i: usize = 0;
    while i < s.len()
        invariant
            i <= s@.len(),
            f == (|it: RuntimeTimelineItem| is_key_item(it)),
            n == count_items(s@.subrange(0, i as int), f),
        decreases s@.len() - i,
    {
        proof {
            lemma_prefix_step(s@, i as int);
            lemma_count_items_bound(s@.subrange(0, i as int), f);
        }
        if s[i].retention_class == RuntimeEventRetentionClass::Key {
            n += 1;
        }
        i += 1;
    }
    assert(s@.subrange(0, s@.len() as int) =~= s@);
    n
}

/// Counts the items of `s` that are system-governance events.
fn count_system_items(s: &Vec<RuntimeTimelineItem>) -> (n: usize)
    ensures
        n == count_items(s@, |it: RuntimeTimelineItem| is_system_item(it)),
{
    let ghost f = |it: RuntimeTimelineItem| is_system_item(it);
    let mut n: usize = 0;
    let mut i: usize = 0;
    while i < s.len()
        invariant
            i <= s@.len(),
            f == (|it: RuntimeTimelineItem| is_system_item(it)),
            n == count_items(s@.subrange(0, i as int), f),
        decreases s@.len() - i,
    {
        proof {
            lemma_prefix_step(s@, i as int);
            lemma_count_items_bound(s@.subrange(0, i as int), f);
        }
        if is_system_governance_event_type(s[i].event_type.as_str()) {
            n += 1;
        }
        i += 1;
    }
    assert(s@.subrange(0, s@.len() as int) =~= s@);
    n
}

/// The key-event index of a timeline: the retained items in order, with counts.
pub fn retained_key_event_index_from_timeline(
    timeline: &Vec<RuntimeTimelineItem>,
    source_event_count: usize,
) -> (r: RuntimeRetainedKeyEventIndex)
    ensures
        r.index_version == 1,
        r.policy_version@ == "quantpilot/key-event-index/v1"@,
        r.source_event_count == source_event_count,
        r.entries@ == filter_items(timeline@, |it: RuntimeTimelineItem| is_retained(it)),
        r.retained_event_count == r.entries@.len(),
        r.key_event_count == count_items(r.entries@, |it: RuntimeTimelineItem| is_key_item(it)),
        r.system_event_count == count_items(r.entries@, |it: RuntimeTimelineItem| is_system_item(it)),
{
    let ghost f = |it: RuntimeTimelineItem| is_retained(it);
    let mut entries: Vec<RuntimeTimelineItem> = Vec::new();
    let mut i: usize = 0;
    while i < timeline.len()
        invariant
            i <= timeline@.len(),
            f == (|it: RuntimeTimelineItem| is_retained(it)),
            entries@ == filter_items(timeline@.subrange(0, i as int), f),
        decreases timeline@.len() - i,
    {
        proof {
            lemma_prefix_step(timeline@, i as int);
        }
        if is_retained_key_timeline_item(&timeline[i]) {
            entries.push(clone_timeline_item(&timeline[i]));
        }
        i += 1;
    }
    assert(timeline@.subrange(0, timeline@.len() as int) =~= timeline@);
    let key_event_count = count_key_items(&entries);
    let system_event_count = count_system_items(&entries);
    RuntimeRetainedKeyEventIndex {
        index_version: 1,
        policy_version: owned("quantpilot/key-event-index/v1"),
        source_event_count,
        retained_event_count: entries.len(),
        key_event_count,
        system_event_count,
        entries,
    }
}

/// The identity used when no evidence names one.
pub fn unknown_timeline_governance_identity() -> (r: RuntimeTimelineGovernanceIdentity)
    ensures
        r.capability_hash@ == "unknown"@,
        r.deployment_revision@ == "unknown"@,
        r.strategy_version@ == "unknown"@,
        r.parameter_version@ == "unknown"@,
{
    RuntimeTimelineGovernanceIdentity {
        capability_hash: owned("unknown"),
        deployment_revision: owned("unknown"),
        strategy_version: owned("unknown"),
        parameter_version: owned("unknown"),
    }
}


/// Some item of `entries` has this event id.
pub open spec fn has_event_id(entries: Seq<RuntimeTimelineItem>, id: Seq<char>) -> bool {
    exists|j: int| 0 <= j < entries.len() && (#[trigger] entries[j]).event_id@ == id
}

/// How a count appears in a count map: absent when zero.
pub open spec fn count_as_entry(n: nat) -> Option<usize> {
    if n == 0 {
        None
    } else {
        Some(n as usize)
    }
}

/// Items of the timeline that are not in `entries` and whose retention text is `k`.
pub open spec fn dropped_by_retention_pred(entries: Seq<RuntimeTimelineItem>, k: Seq<char>) -> spec_fn(RuntimeTimelineItem) -> bool {
    |it: RuntimeTimelineItem| !has_event_id(entries, it.event_id@) && retention_text(it.retention_class) == k
}

/// Items of the timeline that are not in `entries` and whose stage text is `k`.
pub open spec fn dropped_by_stage_pred(entries: Seq<RuntimeTimelineItem>, k: Seq<char>) -> spec_fn(RuntimeTimelineItem) -> bool {
    |it: RuntimeTimelineItem| !has_event_id(entries, it.event_id@) && stage_text(it.stage) == k
}

/// Whether some entry has the event id.
fn has_event_id_exec(entries: &Vec<RuntimeTimelineItem>, id: &str) -> (r: bool)
    ensures
        r == has_event_id(entries@, id@),
{
    let mut i: usize = 0;
    while i < entries.len()
        invariant
            i <= entries@.len(),
            forall|j: int| 0 <= j < i ==> (#[trigger] entries@[j]).event_id@ != id@,
        decreases entries@.len() - i,
    {
        if str_eq(entries[i].event_id.as_str(), id) {
            return true;
        }
        i += 1;
    }
    false
}

/// The governance identity of a compact projection: that of the last retained entry,
/// else of the last timeline item, else the unknown identity.
pub open spec fn compact_governance(
    g: RuntimeTimelineGovernanceIdentity,
    timeline: Seq<RuntimeTimelineItem>,
    entries: Seq<RuntimeTimelineItem>,
) -> bool {
    if entries.len() > 0 {
        g == entries.last().governance
    } else if timeline.len() > 0 {
        g == timeline.last().governance
    } else {
        &&& g.capability_hash@ == "unknown"@
        &&& g.deployment_revision@ == "unknown"@
        &&& g.strategy_version@ == "unknown"@
        &&& g.parameter_version@ == "unknown"@
    }
}

/// Compacts a timeline to the entries of its key-event index, counting the dropped items
/// by retention class and by stage.
pub fn compact_evidence_projection_from_timeline(
    timeline: &Vec<RuntimeTimelineItem>,
    retained_index: &RuntimeRetainedKeyEventIndex,
) -> (r: RuntimeCompactEvidenceProjection)
    ensures
        r.projection_version == 1,
        r.policy_version@ == "quantpilot/evidence-compaction/v1"@,
        r.source_event_count == timeline@.len(),
        r.retained_event_count == retained_index.entries@.len(),
        r.dropped_event_count == (if timeline@.len() >= retained_index.entries@.len() {
            timeline@.len() - retained_index.entries@.len()
        } else {
            0
        }),
        forall|k: Seq<char>|
            count_entry(r.dropped_by_retention.entries@, k) == count_as_entry(
                count_items(timeline@, dropped_by_retention_pred(retained_index.entries@, k)),
            ),
        forall|k: Seq<char>|
            count_entry(r.dropped_by_stage.entries@, k) == count_as_entry(
                count_items(timeline@, dropped_by_stage_pred(retained_index.entries@, k)),
            ),
        r.key_event_count == retained_index.key_event_count,
        r.system_event_count == retained_index.system_event_count,
        compact_governance(r.governance, timeline@, retained_index.entries@),
        r.entries@ == retained_index.entries@,
{
    let ghost entries = retained_index.entries@;
    let mut by_retention = CountMap::new();
    let mut by_stage = CountMap::new();
    let mut i: usize = 0;
    while i < timeline.len()
        invariant
            i <= timeline@.len(),
            entries == retained_index.entries@,
            forall|k: Seq<char>|
                count_entry(by_retention.entries@, k) == count_as_entry(
                    count_items(timeline@.subrange(0, i as int), dropped_by_retention_pred(entries, k)),
                ),
            forall|k: Seq<char>|
                count_entry(by_stage.entries@, k) == count_as_entry(
                    count_items(timeline@.subrange(0, i as int), dropped_by_stage_pred(entries, k)),
                ),
        decreases timeline@.len() - i,
    {
        let item = &timeline[i];
        let ghost pre = timeline@.subrange(0, i as int);
        proof {
            lemma_prefix_step(timeline@, i as int);
        }
        if !has_event_id_exec(&retained_index.entries, item.event_id.as_str()) {
            let rk = retention_contract_value(item.retention_class);
            let sk = stage_contract_value(item.stage);
            proof {
                lemma_count_items_bound(pre, dropped_by_retention_pred(entries, rk@));
                lemma_count_items_bound(pre, dropped_by_stage_pred(entries, sk@));
            }
            by_retention.increment(rk);
            by_stage.increment(sk);
        }
        i += 1;
    }
    assert(timeline@.subrange(0, timeline@.len() as int) =~= timeline@);
    let n = timeline.len();
    let m = retained_index.entries.len();
    let governance = if m > 0 {
        clone_governance_identity(&retained_index.entries[m - 1].governance)
    } else if n > 0 {
        clone_governance_identity(&timeline[n - 1].governance)
    } else {
        unknown_timeline_governance_identity()
    };
    let mut kept: Vec<RuntimeTimelineItem> = Vec::new();
    let mut j: usize = 0;
    while j < m
        invariant
            m == retained_index.entries@.len(),
            j <= m,
            kept@ == retained_index.entries@.subrange(0, j as int),
        decreases m - j,
    {
        kept.push(clone_timeline_item(&retained_index.entries[j]));
        assert(kept@ =~= retained_index.entries@.subrange(0, j + 1));
        j += 1;
    }
    assert(kept@ =~= retained_index.entries@);
    RuntimeCompactEvidenceProjection {
        projection_version: 1,
        policy_version: owned("quantpilot/evidence-compaction/v1"),
        source_event_count: n,
        retained_event_count: m,
        dropped_event_count: if n >= m { n - m } else { 0 },
        dropped_by_retention: by_retention,
        dropped_by_stage: by_stage,
        key_event_count: retained_index.key_event_count,
        system_event_count: retained_index.system_event_count,
        governance,
        entries: kept,
    }
}

} // verus!
