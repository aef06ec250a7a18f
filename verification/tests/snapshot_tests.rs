use eshu_shapeshifter::codec::{parse_snapshot, render_snapshot};
use eshu_shapeshifter::config::{Snapshot, SnapshotType};
use eshu_shapeshifter::error::EshuError;
use eshu_shapeshifter::snapshot::{
    btrfs_recovery_script, btrfs_should_retry_writable, check_disk_space,
    create_requires_directory, detect_snapshot_method, generate_snapshot_id, lvm_snapshot_volume_name,
    make_snapshot_id, metadata_file_name, parse_df_available, plan_btrfs_revert, plan_revert,
    resolve_snapshot_id, resolve_snapshot_method, rsync_backup_dirs, rsync_exclude_patterns,
    sort_snapshots_desc, RevertDecision, StrategyProbe, SNAPSHOT_MIN_SPACE_BYTES,
};

fn sample_snapshot() -> Snapshot {
    Snapshot {
        id: "snapshot_1700000000_00ff".to_string(),
        timestamp: 1700000000,
        distro_name: "Debian".to_string(),
        distro_version: "12".to_string(),
        description: "Before migration to Arch Linux rolling".to_string(),
        snapshot_type: SnapshotType::Rsync,
        size_bytes: 123456789,
        path: "/var/lib/eshu-shapeshifter/snapshots/snapshot_1700000000_00ff".to_string(),
    }
}

#[test]
fn btrfs_root_settles_without_lvm_probe() {
    assert_eq!(
        detect_snapshot_method("btrfs"),
        StrategyProbe::Determined(SnapshotType::Btrfs)
    );
    assert_eq!(detect_snapshot_method("ext4"), StrategyProbe::NeedsLvmProbe);
    assert_eq!(resolve_snapshot_method(true), SnapshotType::LVM);
    assert_eq!(resolve_snapshot_method(false), SnapshotType::Rsync);
}

#[test]
fn disk_space_gate_at_twenty_gib() {
    assert_eq!(SNAPSHOT_MIN_SPACE_BYTES, 20 * 1024 * 1024 * 1024);
    assert!(check_disk_space(SNAPSHOT_MIN_SPACE_BYTES).is_ok());
    assert!(check_disk_space(SNAPSHOT_MIN_SPACE_BYTES + 1).is_ok());
    match check_disk_space(SNAPSHOT_MIN_SPACE_BYTES - 1) {
        Err(EshuError::Snapshot(m)) => {
            assert_eq!(
                m,
                "Insufficient disk space. Need at least 20GB, but only 19GB available"
            );
        }
        other => panic!("expected a snapshot error, got {:?}", other),
    }
}

#[test]
fn df_output_parses_available_column() {
    let out = "Filesystem     1B-blocks        Used   Available Use% Mounted on\n/dev/sda2  494384795648 58491924480 410681262080  13% /\n";
    assert_eq!(parse_df_available(out), Some(410681262080));
    assert_eq!(parse_df_available("garbage"), None);
    assert_eq!(parse_df_available("a b\nx y\n"), None);
}

#[test]
fn snapshot_id_format_and_distinctness() {
    let id = make_snapshot_id(1700000000, 0xabcd);
    assert_eq!(id, "snapshot_1700000000_abcd");
    let neg = make_snapshot_id(-5, 0x0001);
    assert_eq!(neg, "snapshot_-5_0001");
    // distinct suffixes or timestamps give pairwise distinct identifiers
    assert_ne!(make_snapshot_id(1700000000, 1), make_snapshot_id(1700000000, 2));
    assert_ne!(make_snapshot_id(1700000000, 1), make_snapshot_id(1700000001, 1));
    let generated = generate_snapshot_id(42);
    assert!(generated.starts_with("snapshot_42_"));
    assert_eq!(generated.len(), "snapshot_42_".len() + 4);
}

#[test]
fn id_resolution_retries_once_then_fails() {
    let a = "snapshot_1_0001".to_string();
    let b = "snapshot_1_0002".to_string();
    assert_eq!(resolve_snapshot_id(a.clone(), false, b.clone(), false).unwrap(), a);
    assert_eq!(resolve_snapshot_id(a.clone(), true, b.clone(), false).unwrap(), b);
    match resolve_snapshot_id(a, true, b, true) {
        Err(EshuError::Snapshot(m)) => {
            assert_eq!(m, "Failed to generate unique snapshot ID after retries");
        }
        other => panic!("expected failure, got {:?}", other),
    }
}

#[test]
fn metadata_round_trip_restores_every_field() {
    let s = sample_snapshot();
    let doc = render_snapshot(&s);
    let back = parse_snapshot(doc.as_str()).expect("round trip");
    assert_eq!(back, s);
}

#[test]
fn metadata_round_trip_with_escapes_and_negative_time() {
    let s = Snapshot {
        id: "snapshot_-3_0a0a".to_string(),
        timestamp: -3,
        distro_name: "We\"ird \\ distro".to_string(),
        distro_version: "v\n1\t2\r3".to_string(),
        description: String::new(),
        snapshot_type: SnapshotType::Btrfs,
        size_bytes: u64::MAX,
        path: "/tmp/x".to_string(),
    };
    let doc = render_snapshot(&s);
    let back = parse_snapshot(doc.as_str()).expect("round trip");
    assert_eq!(back, s);
}

#[test]
fn rendered_metadata_is_real_json() {
    let s = sample_snapshot();
    let doc = render_snapshot(&s);
    let v: serde_json::Value = serde_json::from_str(&doc).expect("valid json");
    assert_eq!(v["id"], serde_json::Value::String(s.id.clone()));
    assert_eq!(v["timestamp"].as_i64(), Some(1700000000));
    assert_eq!(v["snapshot_type"], serde_json::Value::String("Rsync".to_string()));
    assert_eq!(v["size_bytes"].as_u64(), Some(123456789));
    assert_eq!(v["path"], serde_json::Value::String(s.path.clone()));
}

#[test]
fn corrupt_metadata_is_rejected_not_fatal() {
    assert!(parse_snapshot("").is_none());
    assert!(parse_snapshot("{\"id\":\"x\"").is_none());
    let s = sample_snapshot();
    let doc = render_snapshot(&s);
    let truncated = &doc[..doc.len() - 1];
    assert!(parse_snapshot(truncated).is_none());
    let trailing = format!("{} ", doc);
    assert!(parse_snapshot(&trailing).is_none());
}

#[test]
fn listing_sorts_by_timestamp_descending() {
    let mut a = sample_snapshot();
    a.id = "a".to_string();
    a.timestamp = 100;
    let mut b = sample_snapshot();
    b.id = "b".to_string();
    b.timestamp = 300;
    let mut c = sample_snapshot();
    c.id = "c".to_string();
    c.timestamp = 200;
    let sorted = sort_snapshots_desc(vec![a, b, c]);
    let ids: Vec<&str> = sorted.iter().map(|s| s.id.as_str()).collect();
    assert_eq!(ids, vec!["b", "c", "a"]);
}

#[test]
fn revert_with_missing_path_is_reported_before_anything_destructive() {
    let s = sample_snapshot();
    assert_eq!(plan_revert(&s, false, true), RevertDecision::PathMissing);
    assert_eq!(plan_revert(&s, false, false), RevertDecision::PathMissing);
    assert_eq!(plan_revert(&s, true, false), RevertDecision::Cancelled);
    assert_eq!(plan_revert(&s, true, true), RevertDecision::Proceed(SnapshotType::Rsync));
}

#[test]
fn btrfs_revert_needs_explicit_opt_in() {
    assert!(matches!(plan_btrfs_revert(true), Ok(SnapshotType::Rsync)));
    match plan_btrfs_revert(false) {
        Err(EshuError::Snapshot(m)) => {
            assert_eq!(m, "Btrfs revert requires manual steps or rsync fallback");
        }
        other => panic!("expected manual-steps failure, got {:?}", other),
    }
    let script = btrfs_recovery_script("/snaps/s1");
    assert!(script.contains("btrfs subvolume set-default /snaps/s1 /mnt"));
}

#[test]
fn creation_helpers() {
    assert!(btrfs_should_retry_writable("ERROR: not a btrfs filesystem"));
    assert!(btrfs_should_retry_writable("Invalid argument"));
    assert!(!btrfs_should_retry_writable("permission denied"));
    assert_eq!(lvm_snapshot_volume_name("snapshot_9_0001"), "snapshot_9_0001_lv");
    assert_eq!(metadata_file_name("snapshot_9_0001"), "snapshot_9_0001.json");
    assert!(!create_requires_directory(SnapshotType::Btrfs));
    assert!(create_requires_directory(SnapshotType::Rsync));
    let dirs = rsync_backup_dirs();
    assert_eq!(dirs, vec!["/etc", "/var/lib", "/usr/local", "/opt", "/home", "/root"]);
    assert_eq!(rsync_exclude_patterns().len(), 17);
}
