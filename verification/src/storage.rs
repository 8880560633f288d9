//! Storage lifecycles, quotas and cleanup decisions.
//!
//! The sizes, ages and settings come from the caller, which reads the disk and the
//! environment; the rules that decide on them live here.
use vstd::prelude::*;
use crate::text::{cat, cat3, dec, is_ascii_alnum, owned, push_char, starts_with_str, str_eq, u64_text};

verus! {

/// How long data kept in a storage directory lives.
#[derive(Clone, Copy, PartialEq, Eq, Debug, Structural)]
pub enum StorageLifecycle {
    Permanent,
    Temporary,
    Transient,
}

pub const MEBIBYTE: u64 = 1048576;

/// Per-directory limit for temporary data: 200 MB.
pub const TEMPORARY_DIR_MAX_BYTES: u64 = 209715200;

/// Per-directory limit for transient data: 50 MB.
pub const TRANSIENT_DIR_MAX_BYTES: u64 = 52428800;

/// Storage limit when none is configured: 500 MB.
pub const DEFAULT_MAX_STORAGE_BYTES: u64 = 524288000;

pub open spec fn ttl_spec(l: StorageLifecycle, dev_mode: bool) -> Option<u64> {
    match l {
        StorageLifecycle::Permanent => None,
        StorageLifecycle::Temporary => Some(if dev_mode { 86400u64 } else { 604800u64 }),
        StorageLifecycle::Transient => Some(if dev_mode { 600u64 } else { 3600u64 }),
    }
}

impl StorageLifecycle {
    /// Time to live in seconds: none for permanent data; a week for temporary data and
    /// an hour for transient data, or a day and ten minutes in development mode.
    pub fn ttl(&self, dev_mode: bool) -> (r: Option<u64>)
        ensures
            r == ttl_spec(*self, dev_mode),
    {
        match self {
            StorageLifecycle::Permanent => None,
            StorageLifecycle::Temporary => Some(if dev_mode { 86400 } else { 604800 }),
            StorageLifecycle::Transient => Some(if dev_mode { 600 } else { 3600 }),
        }
    }
}

/// The storage limit in bytes for a configured number of megabytes.
pub fn max_storage_bytes(configured_mb: Option<u64>) -> (r: u64)
    requires
        configured_mb matches Some(mb) ==> mb * MEBIBYTE <= u64::MAX,
    ensures
        r == match configured_mb {
            Some(mb) => (mb * MEBIBYTE) as u64,
            None => DEFAULT_MAX_STORAGE_BYTES,
        },
{
    match configured_mb {
        Some(mb) => mb * MEBIBYTE,
        None => DEFAULT_MAX_STORAGE_BYTES,
    }
}

/// Writes are refused above 95% of the limit.
pub fn reject_at_bytes(max: u64) -> (r: u64)
    requires
        max * 95 <= u64::MAX,
    ensures
        r == max * 95 / 100,
{
    max * 95 / 100
}

/// A warning is raised above 80% of the limit.
pub fn warn_at_bytes(max: u64) -> (r: u64)
    requires
        max * 80 <= u64::MAX,
    ensures
        r == max * 80 / 100,
{
    max * 80 / 100
}

/// Expired data is cleaned without a safety margin from 90% of the limit.
pub fn force_clean_at_bytes(max: u64) -> (r: u64)
    requires
        max * 90 <= u64::MAX,
    ensures
        r == max * 90 / 100,
{
    max * 90 / 100
}

pub open spec fn directory_lifecycle_spec(name: Seq<char>) -> StorageLifecycle {
    if name == "graphs"@ || name == "audit"@ || name == ".credentials"@ || name == ".machine_key"@ {
        StorageLifecycle::Permanent
    } else if name == "backtests"@ || name == "runs"@ || name == "experiments"@ || name
        == "approvals"@ || name == "reports"@ || name == "mutations"@ || name == "cache"@ {
        StorageLifecycle::Temporary
    } else {
        StorageLifecycle::Transient
    }
}

proof fn lemma_directory_names_differ()
    ensures
        "graphs"@.len() == 6,
        "audit"@.len() == 5,
        ".credentials"@.len() == 12,
        ".machine_key"@.len() == 12,
        "backtests"@.len() == 9,
        "runs"@.len() == 4,
        "experiments"@.len() == 11,
        "approvals"@.len() == 9,
        "reports"@.len() == 7,
        "mutations"@.len() == 9,
        "cache"@.len() == 5,
        "tmp"@.len() == 3,
        "graphs"@[0] == 'g',
        "audit"@[0] == 'a',
        ".credentials"@[1] == 'c',
        ".machine_key"@[1] == 'm',
        "backtests"@[0] == 'b',
        "runs"@[0] == 'r',
        "experiments"@[0] == 'e',
        "approvals"@[0] == 'a',
        "reports"@[0] == 'r',
        "mutations"@[0] == 'm',
        "cache"@[0] == 'c',
        "tmp"@[0] == 't',
        "audit"@[1] == 'u',
{
    reveal_strlit("graphs");
    reveal_strlit("audit");
    reveal_strlit(".credentials");
    reveal_strlit(".machine_key");
    reveal_strlit("backtests");
    reveal_strlit("runs");
    reveal_strlit("experiments");
    reveal_strlit("approvals");
    reveal_strlit("reports");
    reveal_strlit("mutations");
    reveal_strlit("cache");
    reveal_strlit("tmp");
}

/// The lifecycle of a top-level storage directory; unknown directories are transient.
pub fn directory_lifecycle(dir_name: &str) -> (r: StorageLifecycle)
    ensures
        r == directory_lifecycle_spec(dir_name@),
        dir_name@ == "graphs"@ ==> r == StorageLifecycle::Permanent,
        dir_name@ == "audit"@ ==> r == StorageLifecycle::Permanent,
        dir_name@ == ".credentials"@ ==> r == StorageLifecycle::Permanent,
        dir_name@ == ".machine_key"@ ==> r == StorageLifecycle::Permanent,
        dir_name@ == "backtests"@ ==> r == StorageLifecycle::Temporary,
        dir_name@ == "runs"@ ==> r == StorageLifecycle::Temporary,
        dir_name@ == "experiments"@ ==> r == StorageLifecycle::Temporary,
        dir_name@ == "approvals"@ ==> r == StorageLifecycle::Temporary,
        dir_name@ == "reports"@ ==> r == StorageLifecycle::Temporary,
        dir_name@ == "mutations"@ ==> r == StorageLifecycle::Temporary,
        dir_name@ == "cache"@ ==> r == StorageLifecycle::Temporary,
        dir_name@ == "tmp"@ ==> r == StorageLifecycle::Transient,
        dir_name@ != "graphs"@ && dir_name@ != "audit"@ && dir_name@ != ".credentials"@ && dir_name@
            != ".machine_key"@ && dir_name@ != "backtests"@ && dir_name@ != "runs"@ && dir_name@ != "experiments"@
            && dir_name@ != "approvals"@ && dir_name@ != "reports"@ && dir_name@ != "mutations"@ && dir_name@
            != "cache"@ ==> r == StorageLifecycle::Transient,
{
    proof {
        lemma_directory_names_differ();
    }
    if str_eq(dir_name, "graphs") || str_eq(dir_name, "audit") || str_eq(dir_name, ".credentials")
        || str_eq(dir_name, ".machine_key") {
        StorageLifecycle::Permanent
    } else if str_eq(dir_name, "backtests") || str_eq(dir_name, "runs") || str_eq(
        dir_name,
        "experiments",
    ) || str_eq(dir_name, "approvals") || str_eq(dir_name, "reports") || str_eq(
        dir_name,
        "mutations",
    ) || str_eq(dir_name, "cache") {
        StorageLifecycle::Temporary
    } else {
        StorageLifecycle::Transient
    }
}

pub open spec fn storage_full_message(total: u64) -> Seq<char> {
    "存储空间已满: 当前 "@ + dec((total / MEBIBYTE) as nat) + " MB, 上限 500 MB。请清理过期数据后重试"@
}

/// Checks the whole store against the limit: refused above 95% of it.
pub fn check_storage_quota(total_bytes: u64, max_bytes: u64) -> (r: Result<(), String>)
    requires
        max_bytes * 95 <= u64::MAX,
    ensures
        r.is_ok() == (total_bytes <= max_bytes * 95 / 100),
        r matches Err(m) ==> m@ == storage_full_message(total_bytes),
{
    if total_bytes > reject_at_bytes(max_bytes) {
        return Err(
            cat3("存储空间已满: 当前 ", u64_text(total_bytes / MEBIBYTE).as_str(), " MB, 上限 500 MB。请清理过期数据后重试"),
        );
    }
    Ok(())
}

/// Whether the store is at or above the forced-cleanup threshold.
pub fn storage_needs_forced_cleanup(total_bytes: u64, max_bytes: u64) -> (r: bool)
    requires
        max_bytes * 90 <= u64::MAX,
    ensures
        r == (total_bytes >= max_bytes * 90 / 100),
{
    total_bytes >= force_clean_at_bytes(max_bytes)
}

/// Whether the store is above the warning threshold.
pub fn storage_needs_warning(total_bytes: u64, max_bytes: u64) -> (r: bool)
    requires
        max_bytes * 80 <= u64::MAX,
    ensures
        r == (total_bytes > max_bytes * 80 / 100),
{
    total_bytes > warn_at_bytes(max_bytes)
}

pub open spec fn dir_limit(l: StorageLifecycle) -> Option<u64> {
    match l {
        StorageLifecycle::Permanent => None,
        StorageLifecycle::Temporary => Some(TEMPORARY_DIR_MAX_BYTES),
        StorageLifecycle::Transient => Some(TRANSIENT_DIR_MAX_BYTES),
    }
}

pub open spec fn dir_full_message(label: Seq<char>, size: u64, limit: u64) -> Seq<char> {
    "目录 "@ + label + " 已满: 当前 "@ + dec((size / MEBIBYTE) as nat) + " MB, 上限 "@ + dec(
        (limit / MEBIBYTE) as nat,
    ) + " MB"@
}

fn dir_full(label: &str, size: u64, limit: u64) -> (r: String)
    ensures
        r@ == dir_full_message(label@, size, limit),
{
    let mut s = cat3("目录 ", label, " 已满: 当前 ");
    s.append(u64_text(size / MEBIBYTE).as_str());
    s.append(" MB, 上限 ");
    s.append(u64_text(limit / MEBIBYTE).as_str());
    s.append(" MB");
    s
}

/// Checks one directory against its lifecycle's limit; permanent data has none.
pub fn check_directory_quota(dir_label: &str, size_bytes: u64, lifecycle: StorageLifecycle) -> (r: Result<(), String>)
    ensures
        r.is_ok() == match dir_limit(lifecycle) {
            Some(limit) => size_bytes <= limit,
            None => true,
        },
        r matches Err(m) ==> (dir_limit(lifecycle) matches Some(limit) && m@ == dir_full_message(dir_label@, size_bytes, limit)),
{
    let max_bytes = match lifecycle {
        StorageLifecycle::Permanent => return Ok(()),
        StorageLifecycle::Temporary => TEMPORARY_DIR_MAX_BYTES,
        StorageLifecycle::Transient => TRANSIENT_DIR_MAX_BYTES,
    };
    if size_bytes > max_bytes {
        return Err(dir_full(dir_label, size_bytes, max_bytes));
    }
    Ok(())
}

/// The check made before a write: the whole store first, then, when the directory
/// exists, the directory against its lifecycle's limit.
pub fn ensure_storage_quota(
    total_bytes: u64,
    max_bytes: u64,
    dir_label: &str,
    dir_size_bytes: Option<u64>,
    lifecycle: StorageLifecycle,
) -> (r: Result<(), String>)
    requires
        max_bytes * 95 <= u64::MAX,
    ensures
        total_bytes > max_bytes * 95 / 100 ==> (r matches Err(m) && m@ == storage_full_message(total_bytes)),
        total_bytes <= max_bytes * 95 / 100 ==> r.is_ok() == match (dir_limit(lifecycle), dir_size_bytes) {
            (Some(limit), Some(size)) => size <= limit,
            _ => true,
        },
        total_bytes <= max_bytes * 95 / 100 ==> (r matches Err(m) ==> (dir_limit(lifecycle) matches Some(limit) && (dir_size_bytes matches Some(size)
            && m@ == dir_full_message(dir_label@, size, limit)))),
{
    check_storage_quota(total_bytes, max_bytes)?;
    match dir_size_bytes {
        Some(size) => check_directory_quota(dir_label, size, lifecycle),
        None => Ok(()),
    }
}

/// Whether an entry of a lifecycle directory has expired: older than the time to live plus
/// a ten-minute safety margin, or with no margin once the store needs forced cleanup. Ages
/// are in nanoseconds; an entry whose age is unknown never expires.
pub fn entry_expired(age_nanos: Option<u128>, ttl_secs: u64, forced: bool) -> (r: bool)
    ensures
        r == match age_nanos {
            Some(age) => age > (ttl_secs as int + if forced { 0int } else { 600int }) * 1000000000,
            None => false,
        },
{
    match age_nanos {
        Some(age) => {
            let margin: u128 = if forced { 0 } else { 600 };
            let limit: u128 = ((ttl_secs as u128) + margin) * 1000000000;
            age > limit
        },
        None => false,
    }
}

pub open spec fn is_transient_output_name(name: Seq<char>) -> bool {
    "report-generation-tmp-"@.is_prefix_of(name) || "report-generation-partial-"@.is_prefix_of(name)
}

/// Whether a report-store entry is a transient report-generation output.
pub fn is_runtime_report_transient_output(name: &str) -> (r: bool)
    ensures
        r == is_transient_output_name(name@),
{
    starts_with_str(name, "report-generation-tmp-") || starts_with_str(name, "report-generation-partial-")
}

/// Whether cleanup removes a report-store entry: a transient output last modified no
/// later than `max_age_ms` before now.
pub fn transient_output_removable(name: &str, modified_at_ms: u64, now_ms: u64, max_age_ms: u64) -> (r: bool)
    ensures
        r == (is_transient_output_name(name@) && modified_at_ms <= (if now_ms >= max_age_ms { now_ms - max_age_ms } else { 0 })),
{
    let cutoff = if now_ms >= max_age_ms { now_ms - max_age_ms } else { 0 };
    is_runtime_report_transient_output(name) && modified_at_ms <= cutoff
}

/// How long build test artifacts are kept, in seconds: a day.
pub const BUILD_ARTIFACT_TTL_SECS: u64 = 86400;

/// Whether build cleanup removes a test artifact directory: its metadata was read and it
/// is older than a day.
pub fn build_artifact_expired(age_nanos: Option<u128>) -> (r: bool)
    ensures
        r == expired_spec(age_nanos, BUILD_ARTIFACT_TTL_SECS, true),
        r == (age_nanos matches Some(a) && a > 86400 * 1000000000),
{
    entry_expired(age_nanos, BUILD_ARTIFACT_TTL_SECS, true)
}

/// Whether a directory beside the standard build output is a stray test build that
/// cleanup removes: its name starts with `target-test-`.
pub fn is_nonstandard_build_dir(name: &str, is_dir: bool) -> (r: bool)
    ensures
        r == (is_dir && "target-test-"@.is_prefix_of(name@)),
{
    is_dir && starts_with_str(name, "target-test-")
}

/// The cleanup policy for runtime evidence.
#[derive(Clone, Debug)]
pub struct RuntimeEvidenceCleanupPolicy {
    pub policy_version: String,
    pub transient_generation_ttl_ms: u64,
    pub protects_persisted_report_records: bool,
    pub transient_output_prefixes: Vec<String>,
}

/// Transient report-generation outputs live a day; persisted report records are kept.
pub fn runtime_evidence_cleanup_policy() -> (r: RuntimeEvidenceCleanupPolicy)
    ensures
        r.policy_version@ == "quantpilot/evidence-cleanup/v1"@,
        r.transient_generation_ttl_ms == 86400000,
        r.protects_persisted_report_records,
        r.transient_output_prefixes@.len() == 2,
        r.transient_output_prefixes@[0]@ == "report-generation-tmp-"@,
        r.transient_output_prefixes@[1]@ == "report-generation-partial-"@,
{
    let mut prefixes: Vec<String> = Vec::new();
    prefixes.push(owned("report-generation-tmp-"));
    prefixes.push(owned("report-generation-partial-"));
    RuntimeEvidenceCleanupPolicy {
        policy_version: owned("quantpilot/evidence-cleanup/v1"),
        transient_generation_ttl_ms: 86400000,
        protects_persisted_report_records: true,
        transient_output_prefixes: prefixes,
    }
}

pub open spec fn path_safe_char(c: char) -> char {
    if is_ascii_alnum(c) || c == '-' || c == '_' {
        c
    } else {
        '_'
    }
}

/// The text with every character other than an ASCII letter, digit, `-` or `_`
/// replaced by `_`.
pub open spec fn path_safe(s: Seq<char>) -> Seq<char> {
    s.map_values(|c: char| path_safe_char(c))
}

/// A file-name-safe form of an identifier.
pub fn sanitize_storage_path_segment(value: &str) -> (r: String)
    ensures
        r@ == path_safe(value@),
{
    let n = value.unicode_len();
    let mut out = String::new();
    let mut i: usize = 0;
    while i < n
        invariant
            n == value@.len(),
            i <= n,
            out@ == path_safe(value@.subrange(0, i as int)),
        decreases n - i,
    {
        let c = value.get_char(i);
        let d = if ('a' <= c && c <= 'z') || ('A' <= c && c <= 'Z') || ('0' <= c && c <= '9') || c == '-' || c == '_' {
            c
        } else {
            '_'
        };
        push_char(&mut out, d);
        assert(path_safe(value@.subrange(0, i + 1)) =~= path_safe(value@.subrange(0, i as int)).push(d));
        i += 1;
    }
    assert(value@.subrange(0, n as int) =~= value@);
    out
}

/// An entry of a storage directory, as startup cleanup reads it: whether it is a
/// directory, whether its metadata could be read, its age in nanoseconds when its
/// modification time is known, and its size in bytes (of all its files, for a directory).
#[derive(Clone, Copy, Debug)]
pub struct StorageEntryReading {
    pub is_dir: bool,
    pub metadata_readable: bool,
    pub age_nanos: Option<u128>,
    pub size_bytes: u64,
}

/// A top-level storage directory, as startup cleanup reads it.
#[derive(Clone, Debug)]
pub struct StorageDirReading {
    pub name: String,
    pub size_bytes: u64,
    pub entries: Vec<StorageEntryReading>,
}

/// What startup cleanup removes, by directory and entry position, and what it counted.
#[derive(Clone, Debug)]
pub struct StartupCleanupPlan {
    pub removals: Vec<(usize, usize)>,
    pub total_size: u64,
    pub cleaned_count: u64,
    pub cleaned_bytes: u64,
    pub warn: bool,
    pub forced: bool,
}

pub open spec fn expired_spec(age_nanos: Option<u128>, ttl_secs: u64, forced: bool) -> bool {
    match age_nanos {
        Some(age) => age > (ttl_secs as int + if forced { 0int } else { 600int }) * 1000000000,
        None => false,
    }
}

/// Whether cleanup removes an entry: in development mode every entry of a transient
/// directory (files only when their metadata can be read); else, in a directory with a
/// time to live, every readable entry that has expired.
pub open spec fn removes_entry(e: StorageEntryReading, dev_transient: bool, ttl: Option<u64>, forced: bool) -> bool {
    if dev_transient {
        e.is_dir || e.metadata_readable
    } else {
        match ttl {
            Some(t) => e.metadata_readable && expired_spec(e.age_nanos, t, forced),
            None => false,
        }
    }
}

/// The entries of directory `d` that cleanup removes, with the bytes they free.
pub open spec fn dir_removals(
    entries: Seq<StorageEntryReading>,
    d: int,
    dev_transient: bool,
    ttl: Option<u64>,
    forced: bool,
) -> (Seq<(int, int)>, int)
    decreases entries.len(),
{
    if entries.len() == 0 {
        (seq![], 0)
    } else {
        let (p, b) = dir_removals(entries.drop_last(), d, dev_transient, ttl, forced);
        let e = entries.last();
        if removes_entry(e, dev_transient, ttl, forced) {
            (p.push((d, entries.len() - 1)), b + e.size_bytes)
        } else {
            (p, b)
        }
    }
}

/// Startup cleanup over the directories in the order they are read: each adds its size
/// to the running total, which decides whether the safety margin applies to it; the
/// removals, the total, and the bytes freed.
pub open spec fn cleanup_over(dirs: Seq<StorageDirReading>, dev_mode: bool, force_at: u64) -> (Seq<(int, int)>, int, int)
    decreases dirs.len(),
{
    if dirs.len() == 0 {
        (seq![], 0, 0)
    } else {
        let (rem, total0, bytes0) = cleanup_over(dirs.drop_last(), dev_mode, force_at);
        let d = dirs.last();
        let total = total0 + d.size_bytes;
        let lc = directory_lifecycle_spec(d.name@);
        let dev_transient = dev_mode && lc == StorageLifecycle::Transient;
        let (r, b) = dir_removals(d.entries@, dirs.len() - 1, dev_transient, ttl_spec(lc, dev_mode), total >= force_at);
        (rem + r, total, bytes0 + b)
    }
}

/// The sum of the directories' sizes.
pub open spec fn dir_size_sum(dirs: Seq<StorageDirReading>) -> int
    decreases dirs.len(),
{
    if dirs.len() == 0 {
        0
    } else {
        dir_size_sum(dirs.drop_last()) + dirs.last().size_bytes
    }
}

/// The sum of the sizes of the entries.
pub open spec fn entry_size_sum(entries: Seq<StorageEntryReading>) -> int
    decreases entries.len(),
{
    if entries.len() == 0 {
        0
    } else {
        entry_size_sum(entries.drop_last()) + entries.last().size_bytes
    }
}

/// The sum of the sizes of every directory's entries.
pub open spec fn all_entries_size_sum(dirs: Seq<StorageDirReading>) -> int
    decreases dirs.len(),
{
    if dirs.len() == 0 {
        0
    } else {
        all_entries_size_sum(dirs.drop_last()) + entry_size_sum(dirs.last().entries@)
    }
}

proof fn lemma_dir_removals_bound(entries: Seq<StorageEntryReading>, d: int, dt: bool, ttl: Option<u64>, forced: bool)
    ensures
        0 <= dir_removals(entries, d, dt, ttl, forced).1 <= entry_size_sum(entries),
        dir_removals(entries, d, dt, ttl, forced).0.len() <= entries.len(),
    decreases entries.len(),
{
    if entries.len() > 0 {
        lemma_dir_removals_bound(entries.drop_last(), d, dt, ttl, forced);
    }
}

fn plan_dir(
    entries: &Vec<StorageEntryReading>,
    d: usize,
    dev_transient: bool,
    ttl: Option<u64>,
    forced: bool,
    removals: &mut Vec<(usize, usize)>,
) -> (bytes: u64)
    requires
        entry_size_sum(entries@) <= u64::MAX,
    ensures
        final(removals)@.map_values(|p: (usize, usize)| (p.0 as int, p.1 as int)) == old(removals)@.map_values(
            |p: (usize, usize)| (p.0 as int, p.1 as int),
        ) + dir_removals(entries@, d as int, dev_transient, ttl, forced).0,
        bytes == dir_removals(entries@, d as int, dev_transient, ttl, forced).1,
{
    let ghost start = old(removals)@.map_values(|p: (usize, usize)| (p.0 as int, p.1 as int));
    let mut bytes: u64 = 0;
    let mut j: usize = 0;
    while j < entries.len()
        invariant
            j <= entries@.len(),
            entry_size_sum(entries@) <= u64::MAX,
            removals@.map_values(|p: (usize, usize)| (p.0 as int, p.1 as int)) == start + dir_removals(
                entries@.subrange(0, j as int),
                d as int,
                dev_transient,
                ttl,
                forced,
            ).0,
            bytes == dir_removals(entries@.subrange(0, j as int), d as int, dev_transient, ttl, forced).1,
        decreases entries@.len() - j,
    {
        let ghost next = entries@.subrange(0, j + 1);
        assert(next.drop_last() =~= entries@.subrange(0, j as int));
        assert(next.last() == entries@[j as int]);
        proof {
            lemma_dir_removals_bound(next, d as int, dev_transient, ttl, forced);
            lemma_entry_sum_prefix(entries@, j + 1);
        }
        let e = entries[j];
        let removed = if dev_transient {
            e.is_dir || e.metadata_readable
        } else {
            match ttl {
                Some(t) => e.metadata_readable && entry_expired(e.age_nanos, t, forced),
                None => false,
            }
        };
        if removed {
            let ghost before = removals@;
            removals.push((d, j));
            assert(removals@.map_values(|p: (usize, usize)| (p.0 as int, p.1 as int)) =~= before.map_values(
                |p: (usize, usize)| (p.0 as int, p.1 as int),
            ).push((d as int, j as int)));
            bytes = bytes + e.size_bytes;
        }
        proof {
            i_assert_append(start, dir_removals(entries@.subrange(0, j as int), d as int, dev_transient, ttl, forced).0, (d as int, j as int));
        }
        j += 1;
    }
    assert(entries@.subrange(0, entries@.len() as int) =~= entries@);
    bytes
}

proof fn i_assert_append(a: Seq<(int, int)>, b: Seq<(int, int)>, x: (int, int))
    ensures
        (a + b).push(x) == a + b.push(x),
{
    assert((a + b).push(x) =~= a + b.push(x));
}

proof fn lemma_entry_sum_prefix(entries: Seq<StorageEntryReading>, k: int)
    requires
        0 <= k <= entries.len(),
    ensures
        entry_size_sum(entries.subrange(0, k)) <= entry_size_sum(entries),
    decreases entries.len() - k,
{
    if k < entries.len() {
        lemma_entry_sum_prefix(entries, k + 1);
        let t = entries.subrange(0, k + 1);
        assert(t.drop_last() =~= entries.subrange(0, k));
    } else {
        assert(entries.subrange(0, k) =~= entries);
    }
}

proof fn lemma_dir_sum_prefix(dirs: Seq<StorageDirReading>, k: int)
    requires
        0 <= k <= dirs.len(),
    ensures
        dir_size_sum(dirs.subrange(0, k)) <= dir_size_sum(dirs),
        all_entries_size_sum(dirs.subrange(0, k)) <= all_entries_size_sum(dirs),
    decreases dirs.len() - k,
{
    if k < dirs.len() {
        lemma_dir_sum_prefix(dirs, k + 1);
        let t = dirs.subrange(0, k + 1);
        assert(t.drop_last() =~= dirs.subrange(0, k));
        assert(entry_size_sum(t.last().entries@) >= 0) by {
            lemma_entry_sum_nonneg(t.last().entries@);
        }
    } else {
        assert(dirs.subrange(0, k) =~= dirs);
    }
}

proof fn lemma_entry_sum_nonneg(entries: Seq<StorageEntryReading>)
    ensures
        entry_size_sum(entries) >= 0,
    decreases entries.len(),
{
    if entries.len() > 0 {
        lemma_entry_sum_nonneg(entries.drop_last());
    }
}

proof fn lemma_cleanup_bounds(dirs: Seq<StorageDirReading>, dev_mode: bool, force_at: u64)
    ensures
        cleanup_over(dirs, dev_mode, force_at).1 == dir_size_sum(dirs),
        0 <= cleanup_over(dirs, dev_mode, force_at).2 <= all_entries_size_sum(dirs),
    decreases dirs.len(),
{
    if dirs.len() > 0 {
        lemma_cleanup_bounds(dirs.drop_last(), dev_mode, force_at);
        let d = dirs.last();
        let lc = directory_lifecycle_spec(d.name@);
        let total = cleanup_over(dirs.drop_last(), dev_mode, force_at).1 + d.size_bytes;
        lemma_dir_removals_bound(
            d.entries@,
            dirs.len() - 1,
            dev_mode && lc == StorageLifecycle::Transient,
            ttl_spec(lc, dev_mode),
            total >= force_at,
        );
    }
}

proof fn lemma_dir_removals_members(
    entries: Seq<StorageEntryReading>,
    d: int,
    dt: bool,
    ttl: Option<u64>,
    forced: bool,
    x: (int, int),
)
    ensures
        dir_removals(entries, d, dt, ttl, forced).0.contains(x) <==> (x.0 == d && 0 <= x.1 < entries.len()
            && removes_entry(entries[x.1], dt, ttl, forced)),
    decreases entries.len(),
{
    if entries.len() > 0 {
        let prev = entries.drop_last();
        lemma_dir_removals_members(prev, d, dt, ttl, forced, x);
        let p = dir_removals(prev, d, dt, ttl, forced).0;
        if x.0 == d && 0 <= x.1 < prev.len() {
            assert(prev[x.1] == entries[x.1]);
        }
        if removes_entry(entries.last(), dt, ttl, forced) {
            assert(p.push((d, entries.len() - 1)).contains(x) <==> (p.contains(x) || x == (d, entries.len() - 1))) by {
                if x == (d, entries.len() - 1) {
                    assert(p.push((d, entries.len() - 1))[p.len() as int] == x);
                }
                if p.contains(x) {
                    let w = choose|w: int| 0 <= w < p.len() && p[w] == x;
                    assert(p.push((d, entries.len() - 1))[w] == x);
                }
            }
        }
    }
}

/// The directory and entry that startup cleanup is told to consider at `d`: whether it
/// clears the whole directory (development mode, transient data), its time to live, and
/// whether the running total up to it forces cleanup without the safety margin.
pub open spec fn dir_is_dev_transient(dirs: Seq<StorageDirReading>, d: int, dev_mode: bool) -> bool {
    dev_mode && directory_lifecycle_spec(dirs[d].name@) == StorageLifecycle::Transient
}

pub open spec fn dir_forced(dirs: Seq<StorageDirReading>, d: int, force_at: u64) -> bool {
    dir_size_sum(dirs.subrange(0, d + 1)) >= force_at
}

/// Startup cleanup removes exactly the entries that `removes_entry` picks in each
/// directory, judged by that directory's lifecycle and the running total up to it.
pub proof fn lemma_startup_cleanup_removes_exactly(dirs: Seq<StorageDirReading>, dev_mode: bool, force_at: u64, d: int, e: int)
    ensures
        cleanup_over(dirs, dev_mode, force_at).0.contains((d, e)) <==> (0 <= d < dirs.len() && 0 <= e
            < dirs[d].entries@.len() && removes_entry(
            dirs[d].entries@[e],
            dir_is_dev_transient(dirs, d, dev_mode),
            ttl_spec(directory_lifecycle_spec(dirs[d].name@), dev_mode),
            dir_forced(dirs, d, force_at),
        )),
    decreases dirs.len(),
{
    if dirs.len() > 0 {
        let prev = dirs.drop_last();
        let last = dirs.len() - 1;
        lemma_startup_cleanup_removes_exactly(prev, dev_mode, force_at, d, e);
        lemma_cleanup_bounds(prev, dev_mode, force_at);
        let dl = dirs.last();
        let lc = directory_lifecycle_spec(dl.name@);
        let total = cleanup_over(prev, dev_mode, force_at).1 + dl.size_bytes;
        let dt = dev_mode && lc == StorageLifecycle::Transient;
        let (r, b) = dir_removals(dl.entries@, last, dt, ttl_spec(lc, dev_mode), total >= force_at);
        let rem = cleanup_over(prev, dev_mode, force_at).0;
        lemma_dir_removals_members(dl.entries@, last, dt, ttl_spec(lc, dev_mode), total >= force_at, (d, e));
        assert((rem + r).contains((d, e)) <==> (rem.contains((d, e)) || r.contains((d, e)))) by {
            if rem.contains((d, e)) {
                let w = choose|w: int| 0 <= w < rem.len() && rem[w] == (d, e);
                assert((rem + r)[w] == (d, e));
            }
            if r.contains((d, e)) {
                let w = choose|w: int| 0 <= w < r.len() && r[w] == (d, e);
                assert((rem + r)[rem.len() + w] == (d, e));
            }
            if (rem + r).contains((d, e)) {
                let w = choose|w: int| 0 <= w < (rem + r).len() && (rem + r)[w] == (d, e);
                if w < rem.len() {
                    assert(rem[w] == (d, e));
                } else {
                    assert(r[w - rem.len()] == (d, e));
                }
            }
        }
        assert(dirs.subrange(0, last + 1) =~= dirs);
        if 0 <= d < last {
            assert(prev[d] == dirs[d]);
            assert(prev.subrange(0, d + 1) =~= dirs.subrange(0, d + 1));
        }
        if rem.contains((d, e)) {
            // Removals of earlier directories name earlier directories.
            assert(0 <= d < prev.len());
        }
    }
}

/// The names of the directories whose data is kept for good.
pub open spec fn permanent_directory_name(name: Seq<char>) -> bool {
    name == "graphs"@ || name == "audit"@ || name == ".credentials"@ || name == ".machine_key"@
}

/// The rule by age, outside development mode, for whether an entry is `removed`: an entry
/// whose metadata cannot be read, whose age is unknown, or whose directory has no time to
/// live stays; one no older than its time to live stays; a readable one older than its
/// time to live and ten minutes more goes.
pub open spec fn age_rule_holds(removed: bool, entry: StorageEntryReading, lc: StorageLifecycle) -> bool {
    match (ttl_spec(lc, false), entry.age_nanos) {
        (Some(t), Some(age)) => {
            &&& !entry.metadata_readable ==> !removed
            &&& age <= t as int * 1000000000 ==> !removed
            &&& entry.metadata_readable && age > (t as int + 600) * 1000000000 ==> removed
        },
        _ => !removed,
    }
}

/// Startup cleanup only removes entries of the directories it read, never one of a
/// permanent directory (graphs, audit, .credentials, .machine_key). Outside development
/// mode every entry follows the rule by age.
pub proof fn lemma_startup_cleanup_by_age(dirs: Seq<StorageDirReading>, dev_mode: bool, force_at: u64, d: int, e: int)
    ensures
        cleanup_over(dirs, dev_mode, force_at).0.contains((d, e)) ==> 0 <= d < dirs.len() && 0 <= e
            < dirs[d].entries@.len() && !permanent_directory_name(dirs[d].name@),
        0 <= d < dirs.len() && 0 <= e < dirs[d].entries@.len() && !dev_mode ==> age_rule_holds(
            cleanup_over(dirs, dev_mode, force_at).0.contains((d, e)),
            dirs[d].entries@[e],
            directory_lifecycle_spec(dirs[d].name@),
        ),
{
    lemma_startup_cleanup_removes_exactly(dirs, dev_mode, force_at, d, e);
}

/// The plan names entry `e` of directory `d` for removal.
pub open spec fn plan_removes(plan: StartupCleanupPlan, d: int, e: int) -> bool {
    plan.removals@.map_values(|p: (usize, usize)| (p.0 as int, p.1 as int)).contains((d, e))
}

/// The number of entries in every directory.
pub open spec fn entry_count_sum(dirs: Seq<StorageDirReading>) -> int
    decreases dirs.len(),
{
    if dirs.len() == 0 {
        0
    } else {
        entry_count_sum(dirs.drop_last()) + dirs.last().entries@.len()
    }
}

/// The count that startup cleanup reports: in development mode every entry of a
/// transient directory counts, whether or not it could be measured and removed; else
/// every entry removed counts.
pub open spec fn cleanup_count(dirs: Seq<StorageDirReading>, dev_mode: bool, force_at: u64) -> int
    decreases dirs.len(),
{
    if dirs.len() == 0 {
        0
    } else {
        let d = dirs.last();
        let total = cleanup_over(dirs.drop_last(), dev_mode, force_at).1 + d.size_bytes;
        let lc = directory_lifecycle_spec(d.name@);
        let dev_transient = dev_mode && lc == StorageLifecycle::Transient;
        cleanup_count(dirs.drop_last(), dev_mode, force_at) + if dev_transient {
            d.entries@.len() as int
        } else {
            dir_removals(d.entries@, dirs.len() - 1, dev_transient, ttl_spec(lc, dev_mode), total >= force_at).0.len() as int
        }
    }
}

proof fn lemma_cleanup_count_bound(dirs: Seq<StorageDirReading>, dev_mode: bool, force_at: u64)
    ensures
        0 <= cleanup_count(dirs, dev_mode, force_at) <= entry_count_sum(dirs),
    decreases dirs.len(),
{
    if dirs.len() > 0 {
        lemma_cleanup_count_bound(dirs.drop_last(), dev_mode, force_at);
        let d = dirs.last();
        let lc = directory_lifecycle_spec(d.name@);
        let total = cleanup_over(dirs.drop_last(), dev_mode, force_at).1 + d.size_bytes;
        lemma_dir_removals_bound(
            d.entries@,
            dirs.len() - 1,
            dev_mode && lc == StorageLifecycle::Transient,
            ttl_spec(lc, dev_mode),
            total >= force_at,
        );
    }
}

proof fn lemma_entry_count_prefix(dirs: Seq<StorageDirReading>, k: int)
    requires
        0 <= k <= dirs.len(),
    ensures
        entry_count_sum(dirs.subrange(0, k)) <= entry_count_sum(dirs),
    decreases dirs.len() - k,
{
    if k < dirs.len() {
        lemma_entry_count_prefix(dirs, k + 1);
        let t = dirs.subrange(0, k + 1);
        assert(t.drop_last() =~= dirs.subrange(0, k));
    } else {
        assert(dirs.subrange(0, k) =~= dirs);
    }
}

/// What startup cleanup removes, given the directories as read, whether development mode
/// is on, and the thresholds for forced cleanup and for a warning. The running total
/// decides, directory by directory, whether expired entries keep the safety margin.
pub fn plan_startup_storage_cleanup(
    dirs: &Vec<StorageDirReading>,
    dev_mode: bool,
    force_clean_at: u64,
    warn_at: u64,
) -> (r: StartupCleanupPlan)
    requires
        dir_size_sum(dirs@) <= u64::MAX,
        all_entries_size_sum(dirs@) <= u64::MAX,
        forall|i: int| 0 <= i < dirs@.len() ==> entry_size_sum(#[trigger] dirs@[i].entries@) <= u64::MAX,
        entry_count_sum(dirs@) <= u64::MAX,
    ensures
        r.removals@.map_values(|p: (usize, usize)| (p.0 as int, p.1 as int)) == cleanup_over(dirs@, dev_mode, force_clean_at).0,
        r.total_size == cleanup_over(dirs@, dev_mode, force_clean_at).1,
        r.cleaned_bytes == cleanup_over(dirs@, dev_mode, force_clean_at).2,
        r.cleaned_count == cleanup_count(dirs@, dev_mode, force_clean_at),
        r.warn == (r.total_size > warn_at),
        r.forced == (r.total_size >= force_clean_at),
        forall|d: int, e: int| #[trigger] plan_removes(r, d, e) ==> 0 <= d < dirs@.len() && 0 <= e
            < dirs@[d].entries@.len() && !permanent_directory_name(dirs@[d].name@),
        forall|d: int, e: int|
            0 <= d < dirs@.len() && 0 <= e < dirs@[d].entries@.len() && !dev_mode ==> age_rule_holds(
                #[trigger] plan_removes(r, d, e),
                dirs@[d].entries@[e],
                directory_lifecycle_spec(dirs@[d].name@),
            ),
{
    let mut removals: Vec<(usize, usize)> = Vec::new();
    let mut total: u64 = 0;
    let mut bytes: u64 = 0;
    let mut count: u64 = 0;
    let mut i: usize = 0;
    while i < dirs.len()
        invariant
            i <= dirs@.len(),
            entry_count_sum(dirs@) <= u64::MAX,
            count == cleanup_count(dirs@.subrange(0, i as int), dev_mode, force_clean_at),
            dir_size_sum(dirs@) <= u64::MAX,
            all_entries_size_sum(dirs@) <= u64::MAX,
            forall|k: int| 0 <= k < dirs@.len() ==> entry_size_sum(#[trigger] dirs@[k].entries@) <= u64::MAX,
            removals@.map_values(|p: (usize, usize)| (p.0 as int, p.1 as int)) == cleanup_over(
                dirs@.subrange(0, i as int),
                dev_mode,
                force_clean_at,
            ).0,
            total == cleanup_over(dirs@.subrange(0, i as int), dev_mode, force_clean_at).1,
            bytes == cleanup_over(dirs@.subrange(0, i as int), dev_mode, force_clean_at).2,
        decreases dirs@.len() - i,
    {
        let ghost next = dirs@.subrange(0, i + 1);
        assert(next.drop_last() =~= dirs@.subrange(0, i as int));
        assert(next.last() == dirs@[i as int]);
        proof {
            lemma_cleanup_bounds(next, dev_mode, force_clean_at);
            lemma_dir_sum_prefix(dirs@, i + 1);
            lemma_cleanup_count_bound(next, dev_mode, force_clean_at);
            lemma_entry_count_prefix(dirs@, i + 1);
        }
        let d = &dirs[i];
        total = total + d.size_bytes;
        let lc = directory_lifecycle(d.name.as_str());
        let dev_transient = dev_mode && lc == StorageLifecycle::Transient;
        let before_len = removals.len();
        let ttl = lc.ttl(dev_mode);
        let ghost dr = dir_removals(d.entries@, i as int, dev_transient, ttl, total >= force_clean_at).0;
        let b = plan_dir(&d.entries, i, dev_transient, ttl, total >= force_clean_at, &mut removals);
        proof {
            let f = |p: (usize, usize)| (p.0 as int, p.1 as int);
            assert(removals@.map_values(f).len() == removals@.len());
            assert(removals@.len() == before_len + dr.len());
            assert(cleanup_count(next, dev_mode, force_clean_at) == count + if dev_transient {
                d.entries@.len() as int
            } else {
                dr.len() as int
            });
        }
        bytes = bytes + b;
        let added: usize = if dev_transient {
            d.entries.len()
        } else {
            removals.len() - before_len
        };
        count = count + added as u64;
        i += 1;
    }
    assert(dirs@.subrange(0, dirs@.len() as int) =~= dirs@);
    let plan = StartupCleanupPlan {
        removals,
        total_size: total,
        cleaned_count: count,
        cleaned_bytes: bytes,
        warn: total > warn_at,
        forced: total >= force_clean_at,
    };
    proof {
        assert forall|d: int, e: int| #[trigger] plan_removes(plan, d, e) implies 0 <= d < dirs@.len()
            && 0 <= e < dirs@[d].entries@.len() && !permanent_directory_name(dirs@[d].name@) by {
            lemma_startup_cleanup_by_age(dirs@, dev_mode, force_clean_at, d, e);
        }
        assert forall|d: int, e: int|
            0 <= d < dirs@.len() && 0 <= e < dirs@[d].entries@.len() && !dev_mode implies age_rule_holds(
                #[trigger] plan_removes(plan, d, e),
                dirs@[d].entries@[e],
                directory_lifecycle_spec(dirs@[d].name@),
            ) by {
            lemma_startup_cleanup_by_age(dirs@, dev_mode, force_clean_at, d, e);
        }
    }
    plan
}


/// The sum of whole mebibytes over directory sizes.
pub open spec fn total_mebibytes(sizes: Seq<u64>) -> int
    decreases sizes.len(),
{
    if sizes.len() == 0 {
        0
    } else {
        total_mebibytes(sizes.drop_last()) + sizes.last() / 1048576
    }
}

/// The storage health total: each directory's size in whole mebibytes, summed.
pub fn storage_total_mb(sizes: &Vec<u64>) -> (r: u64)
    requires
        total_mebibytes(sizes@) <= u64::MAX,
    ensures
        r == total_mebibytes(sizes@),
{
    let mut total: u64 = 0;
    let mut i: usize = 0;
    while i < sizes.len()
        invariant
            i <= sizes@.len(),
            total_mebibytes(sizes@) <= u64::MAX,
            total == total_mebibytes(sizes@.subrange(0, i as int)),
        decreases sizes@.len() - i,
    {
        proof {
            lemma_total_mebibytes_prefix(sizes@, i as int + 1);
            assert(sizes@.subrange(0, i + 1).drop_last() =~= sizes@.subrange(0, i as int));
        }
        total = total + sizes[i] / 1048576;
        i += 1;
    }
    assert(sizes@.subrange(0, sizes@.len() as int) =~= sizes@);
    total
}

proof fn lemma_total_mebibytes_prefix(sizes: Seq<u64>, k: int)
    requires
        0 <= k <= sizes.len(),
    ensures
        total_mebibytes(sizes.subrange(0, k)) <= total_mebibytes(sizes),
    decreases sizes.len(),
{
    if k < sizes.len() {
        lemma_total_mebibytes_prefix(sizes.drop_last(), k);
        assert(sizes.drop_last().subrange(0, k) =~= sizes.subrange(0, k));
    } else {
        assert(sizes.subrange(0, k) =~= sizes);
    }
}

} // verus!
