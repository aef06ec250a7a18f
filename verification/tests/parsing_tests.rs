use eshu_shapeshifter::config::{DistroFamily, InitSystem, SystemState};
use eshu_shapeshifter::distro::{
    detect_bootloader, detect_init_system, family_from_id, package_manager_candidates,
    package_manager_profile, parse_lsb_release, parse_os_release, parse_redhat_release,
};
use eshu_shapeshifter::error::EshuError;
use eshu_shapeshifter::migration::{
    check_disk_space_for_migration, make_transformation_record, validate_migration_internal,
    MIGRATION_MIN_SPACE_BYTES,
};
use eshu_shapeshifter::repository::{create_arch_profile, get_curated_distros, get_distro_profile};
use eshu_shapeshifter::translation::{
    debian_to_systemd_network, home_backup_path, merge_configs, should_preserve_user,
    systemd_to_debian_network, ConfigOperation, ConfigTranslator, TransformKind, TransformType,
};

#[test]
fn os_release_parses_name_version_and_family() {
    let content = "NAME=\"Ubuntu\"\nVERSION_ID=\"22.04\"\nID=ubuntu\nID_LIKE=debian\n";
    let (name, version, family) = parse_os_release(content).expect("parse");
    assert_eq!(name, "Ubuntu");
    assert_eq!(version, "22.04");
    assert_eq!(family, DistroFamily::Debian);
}

#[test]
fn os_release_without_name_is_unsupported() {
    match parse_os_release("ID=mystery\n") {
        Err(EshuError::UnsupportedDistro(m)) => {
            assert_eq!(m, "Could not parse distribution name");
        }
        other => panic!("expected unsupported distro, got {:?}", other),
    }
}

#[test]
fn unknown_id_keeps_its_name_in_other() {
    assert_eq!(family_from_id("Garuda"), DistroFamily::Arch);
    assert_eq!(family_from_id("nixos"), DistroFamily::NixOS);
    assert_eq!(
        family_from_id("slackware"),
        DistroFamily::Other("slackware".to_string())
    );
}

#[test]
fn lsb_release_parses() {
    let content = "DISTRIB_ID=Arch\nDISTRIB_RELEASE=rolling\n";
    let (name, version, family) = parse_lsb_release(content).expect("parse");
    assert_eq!(name, "Arch");
    assert_eq!(version, "rolling");
    assert_eq!(family, DistroFamily::Arch);
}

#[test]
fn redhat_release_splits_on_the_release_word() {
    let (name, version, family) =
        parse_redhat_release("Red Hat Enterprise Linux release 8.5 (Ootpa)").expect("parse");
    assert_eq!(name, "Red Hat Enterprise Linux");
    assert_eq!(version, "8.5");
    assert_eq!(family, DistroFamily::RedHat);
    let (n2, v2, _) = parse_redhat_release("CentOS Stream").expect("parse");
    assert_eq!(n2, "CentOS Stream");
    assert_eq!(v2, "unknown");
}

#[test]
fn init_and_bootloader_detection_order() {
    assert_eq!(detect_init_system(true, true, true, true), InitSystem::Systemd);
    assert_eq!(detect_init_system(false, true, true, false), InitSystem::OpenRC);
    assert_eq!(detect_init_system(false, false, false, true), InitSystem::Runit);
    assert_eq!(
        detect_init_system(false, true, false, false),
        InitSystem::Other("unknown".to_string())
    );
    assert_eq!(detect_bootloader(true, true, true), "GRUB");
    assert_eq!(detect_bootloader(false, true, false), "systemd-boot");
    assert_eq!(detect_bootloader(false, false, true), "SYSLINUX");
    assert_eq!(detect_bootloader(false, false, false), "unknown");
}

#[test]
fn package_manager_profiles() {
    let pm = package_manager_profile("pacman").expect("pacman");
    assert_eq!(pm.install_cmd, "pacman -S --noconfirm");
    let pm = package_manager_profile("apt").expect("apt");
    assert_eq!(pm.list_installed_cmd, "dpkg -l");
    assert!(package_manager_profile("portage").is_none());
    assert_eq!(package_manager_candidates(), vec!["pacman", "apt", "dnf", "zypper"]);
}

#[test]
fn curated_repository_lookup_is_case_folded_substring() {
    assert_eq!(get_curated_distros().len(), 10);
    let arch = get_distro_profile("ARCH").expect("arch");
    assert_eq!(arch.name, "Arch Linux");
    let kali = get_distro_profile("kali").expect("kali");
    assert_eq!(kali.name, "Kali Linux");
    // "Arch Linux" is hit before "Garuda Dragonized" for a query both contain
    let linux = get_distro_profile("linux").expect("first match");
    assert_eq!(linux.name, "Arch Linux");
    assert!(get_distro_profile("templeos").is_none());
}

fn state(distro: &str, family: DistroFamily, arch: &str) -> SystemState {
    SystemState {
        distro: distro.to_string(),
        version: "1".to_string(),
        family,
        kernel: "6.1".to_string(),
        architecture: arch.to_string(),
        installed_packages: Vec::new(),
        services: Vec::new(),
        users: Vec::new(),
        filesystem_type: "ext4".to_string(),
        boot_loader: "GRUB".to_string(),
    }
}

#[test]
fn validation_rejects_same_distro_and_bad_architecture() {
    let arch_profile = create_arch_profile();
    let s = state("Arch Linux", DistroFamily::Arch, "x86_64");
    match validate_migration_internal(&s, &arch_profile) {
        Err(EshuError::Validation(m)) => assert_eq!(m, "Already running the target distribution"),
        other => panic!("expected validation failure, got {:?}", other),
    }
    let s = state("Debian", DistroFamily::Debian, "riscv64");
    match validate_migration_internal(&s, &arch_profile) {
        Err(EshuError::Validation(m)) => assert_eq!(m, "Unsupported architecture: riscv64"),
        other => panic!("expected validation failure, got {:?}", other),
    }
    let s = state("Debian", DistroFamily::Debian, "aarch64");
    assert!(validate_migration_internal(&s, &arch_profile).is_ok());
}

#[test]
fn migration_space_gate_at_ten_gib() {
    assert_eq!(MIGRATION_MIN_SPACE_BYTES, 10 * 1024 * 1024 * 1024);
    assert!(check_disk_space_for_migration(MIGRATION_MIN_SPACE_BYTES).is_ok());
    match check_disk_space_for_migration(MIGRATION_MIN_SPACE_BYTES - 1) {
        Err(EshuError::Validation(m)) => {
            assert_eq!(m, "Insufficient disk space. Need at least 10GB, but only 9GB available");
        }
        other => panic!("expected validation failure, got {:?}", other),
    }
}

#[test]
fn build_rules_for_debian_to_arch() {
    let mut t = ConfigTranslator::new();
    t.build_rules(&DistroFamily::Debian, &DistroFamily::Arch);
    let names: Vec<&str> = t.translations.iter().map(|e| e.0.as_str()).collect();
    assert_eq!(names, vec!["network", "passwd", "shadow", "group", "systemd", "pacman"]);
    assert!(matches!(
        t.translations[0].1.transform,
        TransformType::Transform(TransformKind::DebianToSystemdNetwork)
    ));
    assert!(matches!(t.translations[5].1.transform, TransformType::Skip));
}

#[test]
fn plan_filters_missing_sources_and_skips() {
    let mut t = ConfigTranslator::new();
    t.build_rules(&DistroFamily::Debian, &DistroFamily::Arch);
    // network source missing, passwd/shadow/group present, systemd present,
    // pacman present but marked skip
    let exists = vec![false, true, true, true, true, true];
    let ops = t.translate_configs("/var/backup", &exists);
    assert_eq!(ops.len(), 4);
    match &ops[0] {
        ConfigOperation::Merge { source, target, backup } => {
            assert_eq!(source, "/etc/passwd");
            assert_eq!(target, "/etc/passwd");
            assert_eq!(backup, "/var/backup/passwd");
        }
        other => panic!("expected merge, got {:?}", other),
    }
    match &ops[3] {
        ConfigOperation::Copy { from, to } => {
            assert_eq!(from, "/etc/systemd/system/");
            assert_eq!(to, "/etc/systemd/system/");
        }
        other => panic!("expected copy, got {:?}", other),
    }
}

#[test]
fn merge_appends_behind_a_marker() {
    let merged = merge_configs("new content", "old content");
    assert_eq!(merged, "old content\n\n# Merged from previous system\nnew content");
    let merged = merge_configs("a", "");
    assert_eq!(merged, "\n# Merged from previous system\na");
    let merged = merge_configs("a", "ends\n");
    assert_eq!(merged, "ends\n\n# Merged from previous system\na");
}

#[test]
fn network_transforms_extract_tokens() {
    let deb = "auto eth0\niface eth0 inet static\n    address 192.168.1.10\n    gateway 192.168.1.1\n    dns-nameservers 1.1.1.1\n";
    let unit = debian_to_systemd_network(deb);
    assert_eq!(
        unit,
        "[Match]\nName=eth0\n\n[Network]\nAddress=192.168.1.10\nGateway=192.168.1.1\nDNS=1.1.1.1\n"
    );
    let back = systemd_to_debian_network(&unit);
    assert_eq!(
        back,
        "auto eth0\niface eth0 inet static\n    address 192.168.1.10\n    gateway 192.168.1.1\n    dns-nameservers 1.1.1.1\n"
    );
}

#[test]
fn user_preservation_decisions() {
    assert!(!should_preserve_user(0));
    assert!(!should_preserve_user(999));
    assert!(should_preserve_user(1000));
    assert_eq!(home_backup_path("/var/backup", "alice"), "/var/backup/home_alice");
}

#[test]
fn transformation_record_uses_sentinel_without_snapshot() {
    let r = make_transformation_record(
        "Debian",
        "Arch Linux",
        "2024-01-01T00:00:00+00:00".to_string(),
        Some("snapshot_1_0001".to_string()),
    );
    assert_eq!(r.from_distro, "Debian");
    assert_eq!(r.to_distro, "Arch Linux");
    assert_eq!(r.snapshot_id, "snapshot_1_0001");
    let r = make_transformation_record("a", "b", "t".to_string(), None);
    assert_eq!(r.snapshot_id, "no-snapshot");
}

#[test]
fn error_messages_name_their_kind() {
    let cases = vec![
        (EshuError::UnsupportedDistro("x".to_string()), "Unsupported distribution: x"),
        (EshuError::PackageManager("x".to_string()), "Package manager error: x"),
        (EshuError::Snapshot("x".to_string()), "Snapshot error: x"),
        (EshuError::Migration("x".to_string()), "Migration error: x"),
        (EshuError::Config("x".to_string()), "Configuration error: x"),
        (EshuError::FileSystem("x".to_string()), "File system error: x"),
        (EshuError::Network("x".to_string()), "Network error: x"),
        (EshuError::Validation("x".to_string()), "Validation error: x"),
        (EshuError::Database("x".to_string()), "Database error: x"),
        (EshuError::Io("x".to_string()), "IO error: x"),
        (EshuError::Serialization("x".to_string()), "Serialization error: x"),
    ];
    for (e, want) in cases {
        assert_eq!(e.message(), want);
    }
}
