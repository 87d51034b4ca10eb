use profcollectd::disk::{config_changed, reconcile};
use profcollectd::{Config, DiskState};

fn cfg(version: u64, interval: u64, period: u64) -> Config {
    Config { version, collection_interval_secs: interval, sampling_period_ms: period }
}

fn populated_disk(persisted: Option<Vec<u8>>) -> DiskState {
    DiskState {
        profile_dir: Some(vec!["profile-0".to_string(), "profile-1".to_string()]),
        trace_dir: Some(vec!["trace-0".to_string()]),
        old_report_exists: true,
        config_text: persisted,
    }
}

#[test]
fn missing_config_counts_as_changed() {
    assert!(config_changed(&None, &cfg(1, 2, 3)));
}

#[test]
fn corrupt_config_counts_as_changed() {
    let garbage = Some(b"not a configuration".to_vec());
    assert!(config_changed(&garbage, &cfg(1, 2, 3)));
}

#[test]
fn equal_config_counts_as_unchanged() {
    let c = cfg(4, 5, 6);
    assert!(!config_changed(&Some(c.to_text()), &c));
}

#[test]
fn different_config_counts_as_changed() {
    let persisted = cfg(4, 5, 6);
    let loaded = cfg(4, 5, 7);
    assert!(config_changed(&Some(persisted.to_text()), &loaded));
}

#[test]
fn fresh_install_creates_directories_and_persists() {
    let c = cfg(1, 3600, 500);
    let disk = DiskState {
        profile_dir: None,
        trace_dir: None,
        old_report_exists: false,
        config_text: None,
    };
    let after = reconcile(disk, &c);
    assert_eq!(after.profile_dir, Some(vec![]));
    assert_eq!(after.trace_dir, Some(vec![]));
    assert!(!after.old_report_exists);
    assert_eq!(after.config_text, Some(c.to_text()));
}

#[test]
fn unchanged_config_leaves_disk_untouched() {
    let c = cfg(4, 5, 6);
    let disk = populated_disk(Some(c.to_text()));
    let after = reconcile(disk.clone(), &c);
    assert_eq!(after, disk);
}

#[test]
fn changed_config_purges_once_then_never_again() {
    let a = cfg(1, 2, 3);
    let b = cfg(9, 2, 3);
    let disk = populated_disk(Some(a.to_text()));

    let first = reconcile(disk, &b);
    assert_eq!(first.profile_dir, Some(vec![]));
    assert_eq!(first.trace_dir, Some(vec![]));
    assert!(!first.old_report_exists);
    assert_eq!(first.config_text, Some(b.to_text()));

    let second = reconcile(first.clone(), &b);
    assert_eq!(second, first);
}

#[test]
fn corrupt_config_reconciles_like_missing_one() {
    let c = cfg(1, 2, 3);
    let corrupt = reconcile(populated_disk(Some(b"\xff\xfe garbage".to_vec())), &c);
    let missing = reconcile(populated_disk(None), &c);
    assert_eq!(corrupt, missing);
}

#[test]
fn reconcile_is_idempotent_after_a_change() {
    let c = cfg(7, 8, 9);
    let once = reconcile(populated_disk(None), &c);
    let twice = reconcile(once.clone(), &c);
    assert_eq!(twice, once);
}
