use eshu_shapeshifter::cli::{Cli, Commands};
use eshu_shapeshifter::config::{DistroFamily, EshuConfig, InitSystem};
use eshu_shapeshifter::package::PackageTranslator;
use eshu_shapeshifter::translation::{ConfigTranslator, TransformKind, TransformType};
use eshu_shapeshifter::{CONFIDENCE_AUTO_INSTALL_THRESHOLD, CONFIDENCE_EXACT, CONFIDENCE_FUZZY};

#[test]
fn default_configuration_paths() {
    let c = EshuConfig::default();
    assert_eq!(c.data_dir, "/var/lib/eshu-shapeshifter");
    assert_eq!(c.snapshot_dir, "/var/lib/eshu-shapeshifter/snapshots");
    assert_eq!(c.cache_dir, "/var/cache/eshu-shapeshifter");
}

#[test]
fn confidence_scale_orders_exact_over_fuzzy() {
    assert!(CONFIDENCE_EXACT > CONFIDENCE_FUZZY);
    assert!(CONFIDENCE_FUZZY > CONFIDENCE_AUTO_INSTALL_THRESHOLD);
}

#[test]
fn family_equality_keeps_other_names_apart() {
    assert_eq!(DistroFamily::Arch, DistroFamily::Arch);
    assert_ne!(DistroFamily::Arch, DistroFamily::Debian);
    assert_eq!(
        DistroFamily::Other("solus".to_string()),
        DistroFamily::Other("solus".to_string())
    );
    assert_ne!(
        DistroFamily::Other("solus".to_string()),
        DistroFamily::Other("clear".to_string())
    );
    assert_eq!(InitSystem::Systemd, InitSystem::Systemd);
    assert_ne!(InitSystem::Systemd, InitSystem::Runit);
}

#[test]
fn commands_carry_their_arguments() {
    let cli = Cli {
        command: Commands::Shapeshift { target: "arch".to_string(), custom_iso: None },
    };
    match cli.command {
        Commands::Shapeshift { target, custom_iso } => {
            assert_eq!(target, "arch");
            assert!(custom_iso.is_none());
        }
        _ => panic!("wrong command"),
    }
    let revert = Commands::Revert { snapshot_id: Some("snapshot_1_0001".to_string()) };
    match revert {
        Commands::Revert { snapshot_id } => assert_eq!(snapshot_id.as_deref(), Some("snapshot_1_0001")),
        _ => panic!("wrong command"),
    }
}

#[test]
fn fuzzy_patterns_fall_back_in_order() {
    let mut t = PackageTranslator::new();
    t.add_mapping(
        DistroFamily::Debian,
        "python-requests".to_string(),
        DistroFamily::Void,
        "py3-requests".to_string(),
        100,
    );
    t.add_mapping(
        DistroFamily::Debian,
        "zlib1g".to_string(),
        DistroFamily::Alpine,
        "zlib".to_string(),
        100,
    );
    // the literal name misses every Void-family column; substituting the
    // python3- prefix matches the python-requests source column
    let m = t
        .fuzzy_match("python3-requests", &DistroFamily::Void)
        .expect("prefix substitution hit");
    assert_eq!(m.source, "python3-requests");
    assert_eq!(m.target, "py3-requests");
    assert_eq!(m.confidence, CONFIDENCE_FUZZY);
    // stripping the lib prefix matches the zlib1g source column
    let m = t.fuzzy_match("libzlib1g", &DistroFamily::Alpine).expect("lib prefix hit");
    assert_eq!(m.target, "zlib");
    // the literal name, tried first, wins over later patterns
    let m = t.fuzzy_match("python3-pi", &DistroFamily::Debian).expect("literal hit");
    assert_eq!(m.target, "python3-pip");
    assert!(t.fuzzy_match("no-such-thing-at-all", &DistroFamily::Arch).is_none());
}

#[test]
fn arch_to_debian_rules_reverse_the_network_transform() {
    let mut p = ConfigTranslator::new();
    p.build_rules(&DistroFamily::Arch, &DistroFamily::Debian);
    let names: Vec<&str> = p.translations.iter().map(|e| e.0.as_str()).collect();
    assert_eq!(names, vec!["network", "passwd", "shadow", "group", "systemd", "apt"]);
    assert!(matches!(
        p.translations[0].1.transform,
        TransformType::Transform(TransformKind::SystemdToDebianNetwork)
    ));
    assert_eq!(p.translations[0].1.source_path, "/etc/systemd/network/");

    // a pairing outside the supported transforms registers no network rule and
    // no service copy
    let mut q = ConfigTranslator::new();
    q.build_rules(&DistroFamily::Gentoo, &DistroFamily::Void);
    let names: Vec<&str> = q.translations.iter().map(|e| e.0.as_str()).collect();
    assert_eq!(names, vec!["passwd", "shadow", "group"]);
}
