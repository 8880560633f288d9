use quantpilot::storage::{build_artifact_expired, is_nonstandard_build_dir};
use quantpilot::storage::{
    check_directory_quota, check_storage_quota, directory_lifecycle, ensure_storage_quota,
    entry_expired, force_clean_at_bytes, is_runtime_report_transient_output, max_storage_bytes,
    reject_at_bytes, runtime_evidence_cleanup_policy, sanitize_storage_path_segment,
    storage_needs_forced_cleanup, storage_needs_warning, transient_output_removable, warn_at_bytes,
    StorageLifecycle, DEFAULT_MAX_STORAGE_BYTES, MEBIBYTE,
};

#[test]
fn storage_lifecycle_enum_variants_exist() {
    let permanent = StorageLifecycle::Permanent;
    let temporary = StorageLifecycle::Temporary;
    let transient = StorageLifecycle::Transient;
    assert_ne!(permanent, temporary);
    assert_ne!(temporary, transient);
    assert_ne!(transient, permanent);
}

#[test]
fn permanent_lifecycle_has_no_ttl() {
    assert_eq!(StorageLifecycle::Permanent.ttl(false), None);
    assert_eq!(StorageLifecycle::Permanent.ttl(true), None);
}

#[test]
fn temporary_lifecycle_has_ttl() {
    assert_eq!(StorageLifecycle::Temporary.ttl(false), Some(7 * 24 * 3600));
    assert_eq!(StorageLifecycle::Temporary.ttl(true), Some(24 * 3600));
}

#[test]
fn transient_lifecycle_has_short_ttl() {
    assert_eq!(StorageLifecycle::Transient.ttl(false), Some(3600));
    assert_eq!(StorageLifecycle::Transient.ttl(true), Some(10 * 60));
}

#[test]
fn thresholds_follow_the_limit() {
    assert_eq!(max_storage_bytes(None), DEFAULT_MAX_STORAGE_BYTES);
    assert_eq!(max_storage_bytes(Some(100)), 100 * MEBIBYTE);
    assert_eq!(reject_at_bytes(1000), 950);
    assert_eq!(warn_at_bytes(1000), 800);
    assert_eq!(force_clean_at_bytes(1000), 900);
}

#[test]
fn directory_lifecycles() {
    assert_eq!(directory_lifecycle("graphs"), StorageLifecycle::Permanent);
    assert_eq!(directory_lifecycle(".machine_key"), StorageLifecycle::Permanent);
    assert_eq!(directory_lifecycle("runs"), StorageLifecycle::Temporary);
    assert_eq!(directory_lifecycle("cache"), StorageLifecycle::Temporary);
    assert_eq!(directory_lifecycle("alerts"), StorageLifecycle::Transient);
    assert_eq!(directory_lifecycle("something-else"), StorageLifecycle::Transient);
}

#[test]
fn storage_quota_refuses_above_ninety_five_percent() {
    assert_eq!(check_storage_quota(950, 1000), Ok(()));
    let err = check_storage_quota(3 * MEBIBYTE, 3 * MEBIBYTE / 2).unwrap_err();
    assert_eq!(err, "存储空间已满: 当前 3 MB, 上限 500 MB。请清理过期数据后重试");
    assert!(storage_needs_forced_cleanup(900, 1000));
    assert!(!storage_needs_forced_cleanup(899, 1000));
    assert!(storage_needs_warning(801, 1000));
    assert!(!storage_needs_warning(800, 1000));
}

#[test]
fn directory_quota_by_lifecycle() {
    assert_eq!(check_directory_quota("graphs", u64::MAX, StorageLifecycle::Permanent), Ok(()));
    assert_eq!(check_directory_quota("runs", 200 * MEBIBYTE, StorageLifecycle::Temporary), Ok(()));
    assert_eq!(
        check_directory_quota("runs", 200 * MEBIBYTE + 1, StorageLifecycle::Temporary),
        Err("目录 runs 已满: 当前 200 MB, 上限 200 MB".to_string())
    );
    assert_eq!(
        check_directory_quota("alerts", 60 * MEBIBYTE, StorageLifecycle::Transient),
        Err("目录 alerts 已满: 当前 60 MB, 上限 50 MB".to_string())
    );
}

#[test]
fn ensure_quota_checks_store_then_directory() {
    let max = DEFAULT_MAX_STORAGE_BYTES;
    assert!(ensure_storage_quota(max, max, "runs", None, StorageLifecycle::Temporary).is_err());
    assert_eq!(ensure_storage_quota(0, max, "runs", None, StorageLifecycle::Temporary), Ok(()));
    assert_eq!(
        ensure_storage_quota(0, max, "alerts", Some(51 * MEBIBYTE), StorageLifecycle::Transient),
        Err("目录 alerts 已满: 当前 51 MB, 上限 50 MB".to_string())
    );
    assert_eq!(
        ensure_storage_quota(0, max, "graphs", Some(u64::MAX), StorageLifecycle::Permanent),
        Ok(())
    );
}

#[test]
fn entry_expiry_uses_safety_margin() {
    let second: u128 = 1_000_000_000;
    assert!(!entry_expired(Some(4200 * second), 3600, false));
    assert!(entry_expired(Some(4200 * second + 1), 3600, false));
    assert!(entry_expired(Some(3600 * second + 1), 3600, true));
    assert!(!entry_expired(None, 0, true));
}

#[test]
fn transient_report_outputs() {
    assert!(is_runtime_report_transient_output("report-generation-tmp-1"));
    assert!(is_runtime_report_transient_output("report-generation-partial-x"));
    assert!(!is_runtime_report_transient_output("report-1.json"));
    assert!(transient_output_removable("report-generation-tmp-1", 100, 1_000, 900));
    assert!(!transient_output_removable("report-generation-tmp-1", 101, 1_000, 900));
    assert!(transient_output_removable("report-generation-tmp-1", 0, 10, 900));
    let policy = runtime_evidence_cleanup_policy();
    assert_eq!(policy.transient_generation_ttl_ms, 86_400_000);
    assert!(policy.protects_persisted_report_records);
    assert_eq!(policy.transient_output_prefixes.len(), 2);
}

#[test]
fn path_segments_are_made_safe() {
    assert_eq!(sanitize_storage_path_segment("run/1 x.json"), "run_1_x_json");
    assert_eq!(sanitize_storage_path_segment("ok-Name_9"), "ok-Name_9");
}

#[test]
fn build_artifacts_expire_after_a_day_and_stray_test_builds_go() {
    let sec: u128 = 1_000_000_000;
    assert!(!build_artifact_expired(Some(86400 * sec)));
    assert!(build_artifact_expired(Some(86400 * sec + 1)));
    assert!(!build_artifact_expired(None));
    assert!(is_nonstandard_build_dir("target-test-abc", true));
    assert!(!is_nonstandard_build_dir("target-test-abc", false));
    assert!(!is_nonstandard_build_dir("target", true));
}
