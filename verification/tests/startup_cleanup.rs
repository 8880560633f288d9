use quantpilot::storage::{plan_startup_storage_cleanup, StorageDirReading, StorageEntryReading};

const SEC: u128 = 1_000_000_000;

fn entry(age_secs: Option<u128>, size: u64) -> StorageEntryReading {
    StorageEntryReading { is_dir: false, metadata_readable: true, age_nanos: age_secs.map(|s| s * SEC), size_bytes: size }
}

fn dir(name: &str, size: u64, entries: Vec<StorageEntryReading>) -> StorageDirReading {
    StorageDirReading { name: name.to_string(), size_bytes: size, entries }
}

#[test]
fn expired_entries_keep_a_safety_margin_until_the_store_is_nearly_full() {
    let dirs = vec![
        dir("graphs", 10, vec![entry(Some(10_000_000), 5)]),
        dir("tmp", 20, vec![entry(Some(3600 + 300), 7), entry(Some(3600 + 700), 11), entry(None, 13)]),
    ];
    let plan = plan_startup_storage_cleanup(&dirs, false, 1000, 25);
    assert_eq!(plan.removals, vec![(1, 1)]);
    assert_eq!(plan.total_size, 30);
    assert_eq!(plan.cleaned_bytes, 11);
    assert_eq!(plan.cleaned_count, 1);
    assert!(plan.warn);
    assert!(!plan.forced);

    let forced = plan_startup_storage_cleanup(&dirs, false, 30, 25);
    assert_eq!(forced.removals, vec![(1, 0), (1, 1)]);
    assert_eq!(forced.cleaned_bytes, 18);
    assert!(forced.forced);
}

#[test]
fn the_running_total_decides_per_directory() {
    let dirs = vec![
        dir("runs", 40, vec![entry(Some(604800 + 100), 1)]),
        dir("cache", 70, vec![entry(Some(604800 + 100), 2)]),
    ];
    let plan = plan_startup_storage_cleanup(&dirs, false, 100, 1000);
    assert_eq!(plan.removals, vec![(1, 0)]);
    assert_eq!(plan.cleaned_bytes, 2);
}

#[test]
fn development_mode_clears_transient_directories() {
    let mut unreadable = entry(None, 3);
    unreadable.metadata_readable = false;
    let mut subdir = entry(None, 4);
    subdir.is_dir = true;
    subdir.metadata_readable = false;
    let dirs = vec![dir("scratch", 9, vec![entry(Some(1), 2), unreadable, subdir]), dir("reports", 1, vec![entry(Some(86400 + 700), 5)])];
    let plan = plan_startup_storage_cleanup(&dirs, true, 1000, 1000);
    assert_eq!(plan.removals, vec![(0, 0), (0, 2), (1, 0)]);
    assert_eq!(plan.cleaned_bytes, 11);
    assert_eq!(plan.cleaned_count, 4);
}

#[test]
fn storage_health_sums_whole_mebibytes_per_directory() {
    let mib = 1024 * 1024;
    assert_eq!(quantpilot::storage::storage_total_mb(&vec![3 * mib + 5, mib - 1, 2 * mib]), 5);
    assert_eq!(quantpilot::storage::storage_total_mb(&vec![]), 0);
}

#[test]
fn permanent_directories_are_never_cleaned_and_age_decides_elsewhere() {
    let old = Some(100_000_000);
    let dirs = vec![
        dir("graphs", 1, vec![entry(old, 1)]),
        dir("audit", 1, vec![entry(old, 1)]),
        dir(".credentials", 1, vec![entry(old, 1)]),
        dir(".machine_key", 1, vec![entry(old, 1)]),
        dir("backtests", 1, vec![entry(Some(604800), 1), entry(Some(604800 + 601), 1)]),
    ];
    for (dev, force_at) in [(false, 1000), (false, 0), (true, 1000)] {
        let plan = plan_startup_storage_cleanup(&dirs, dev, force_at, 1000);
        assert!(plan.removals.iter().all(|(d, _)| *d == 4), "{:?}", plan.removals);
    }
    let plan = plan_startup_storage_cleanup(&dirs, false, 0, 1000);
    assert_eq!(plan.removals, vec![(4, 1)]);
}
