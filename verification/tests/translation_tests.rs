use eshu_shapeshifter::config::{DistroFamily, InstalledPackage};
use eshu_shapeshifter::migration::build_install_commands;
use eshu_shapeshifter::package::{
    default_mappings, get_essential_packages, is_system_package, PackageMapping,
    PackageTranslator,
};
use eshu_shapeshifter::{CONFIDENCE_EXACT, CONFIDENCE_FUZZY};

fn pkg(name: &str) -> InstalledPackage {
    InstalledPackage {
        name: name.to_string(),
        version: "1.0".to_string(),
        description: None,
        dependencies: Vec::new(),
    }
}

#[test]
fn seeded_table_has_curated_rows() {
    let rows = default_mappings();
    assert_eq!(rows.len(), 55);
    assert_eq!(rows[0].source_package, "systemd");
    assert_eq!(rows[0].confidence, CONFIDENCE_EXACT);
}

#[test]
fn vim_translates_exactly_debian_to_arch() {
    let t = PackageTranslator::new();
    let r = t.translate_package(&DistroFamily::Debian, &DistroFamily::Arch, "vim");
    assert_eq!(r, Some("vim".to_string()));
    let out = t.translate_packages(&DistroFamily::Debian, &DistroFamily::Arch, &vec![pkg("vim")]);
    assert_eq!(out.translated.len(), 1);
    assert_eq!(out.translated[0].source, "vim");
    assert_eq!(out.translated[0].target, "vim");
    assert_eq!(out.translated[0].confidence, CONFIDENCE_EXACT);
}

#[test]
fn libssl_dev_translates_to_openssl() {
    let t = PackageTranslator::new();
    let r = t.translate_package(&DistroFamily::Debian, &DistroFamily::Arch, "libssl-dev");
    assert_eq!(r, Some("openssl".to_string()));
    let out = t.translate_packages(
        &DistroFamily::Debian,
        &DistroFamily::Arch,
        &vec![pkg("libssl-dev")],
    );
    assert_eq!(out.translated.len(), 1);
    assert_eq!(out.translated[0].target, "openssl");
    assert_eq!(out.translated[0].confidence, CONFIDENCE_EXACT);
}

#[test]
fn unknown_tool_is_untranslated() {
    let t = PackageTranslator::new();
    let out = t.translate_packages(
        &DistroFamily::Debian,
        &DistroFamily::Arch,
        &vec![pkg("some-custom-tool")],
    );
    assert!(out.translated.is_empty());
    assert_eq!(out.untranslated, vec!["some-custom-tool".to_string()]);
    assert!(out.skipped.is_empty());
}

#[test]
fn fuzzy_match_strips_dev_suffix() {
    let t = PackageTranslator::new();
    // "libcurl4-openssl-dev" hits the table exactly; a name with no exact row
    // but whose stripped form occurs in a column comes back at the advisory
    // confidence.
    let m = t.fuzzy_match("zsh-dev", &DistroFamily::Arch).expect("fuzzy hit");
    assert_eq!(m.source, "zsh-dev");
    assert_eq!(m.target, "zsh");
    assert_eq!(m.confidence, CONFIDENCE_FUZZY);
}

#[test]
fn denylist_names_are_always_skipped() {
    let t = PackageTranslator::new();
    let names = ["base", "linux-firmware", "grub2", "my-kernel-tool", "dpkg", "apt", "rpm"];
    let pkgs: Vec<InstalledPackage> = names.iter().map(|n| pkg(n)).collect();
    let out = t.translate_packages(&DistroFamily::Debian, &DistroFamily::Arch, &pkgs);
    assert!(out.translated.is_empty());
    assert!(out.untranslated.is_empty());
    let expect: Vec<String> = names.iter().map(|n| n.to_string()).collect();
    assert_eq!(out.skipped, expect);
}

#[test]
fn is_system_package_is_a_substring_check() {
    assert!(is_system_package("linux-headers"));
    assert!(is_system_package("grub-customizer"));
    assert!(!is_system_package("vim"));
    assert!(!is_system_package("firefox"));
}

#[test]
fn translation_is_deterministic() {
    let t = PackageTranslator::new();
    let pkgs = vec![pkg("vim"), pkg("base"), pkg("nothing-known"), pkg("libssl-dev")];
    let a = t.translate_packages(&DistroFamily::Debian, &DistroFamily::Arch, &pkgs);
    let b = t.translate_packages(&DistroFamily::Debian, &DistroFamily::Arch, &pkgs);
    assert_eq!(a.untranslated, b.untranslated);
    assert_eq!(a.skipped, b.skipped);
    assert_eq!(a.translated.len(), b.translated.len());
    for (x, y) in a.translated.iter().zip(b.translated.iter()) {
        assert_eq!(x.source, y.source);
        assert_eq!(x.target, y.target);
        assert_eq!(x.confidence, y.confidence);
    }
}

#[test]
fn partition_preserves_input_order() {
    let t = PackageTranslator::new();
    let pkgs = vec![pkg("vim"), pkg("zzz-one"), pkg("bash"), pkg("zzz-two"), pkg("apt")];
    let out = t.translate_packages(&DistroFamily::Debian, &DistroFamily::Arch, &pkgs);
    let sources: Vec<&str> = out.translated.iter().map(|m| m.source.as_str()).collect();
    assert_eq!(sources, vec!["vim", "bash"]);
    assert_eq!(out.untranslated, vec!["zzz-one".to_string(), "zzz-two".to_string()]);
    assert_eq!(out.skipped, vec!["apt".to_string()]);
}

#[test]
fn add_mapping_upserts_last_write_wins() {
    let mut t = PackageTranslator::new();
    let before = t.rows.len();
    t.add_mapping(
        DistroFamily::Debian,
        "vim".to_string(),
        DistroFamily::Arch,
        "vim-enhanced".to_string(),
        90,
    );
    assert_eq!(t.rows.len(), before);
    let r = t.translate_package(&DistroFamily::Debian, &DistroFamily::Arch, "vim");
    assert_eq!(r, Some("vim-enhanced".to_string()));
    t.add_mapping(
        DistroFamily::Debian,
        "brand-new".to_string(),
        DistroFamily::Arch,
        "brand-new".to_string(),
        100,
    );
    assert_eq!(t.rows.len(), before + 1);
}

#[test]
fn essential_packages_per_family() {
    let arch = get_essential_packages(&DistroFamily::Arch);
    assert_eq!(arch, vec!["base", "linux", "linux-firmware", "base-devel"]);
    let deb = get_essential_packages(&DistroFamily::Debian);
    assert_eq!(deb, vec!["base-files", "base-passwd", "bash", "coreutils"]);
    let rh = get_essential_packages(&DistroFamily::RedHat);
    assert_eq!(rh, vec!["basesystem", "bash", "coreutils", "systemd"]);
    assert!(get_essential_packages(&DistroFamily::Gentoo).is_empty());
}

#[test]
fn install_commands_batch_and_filter_by_confidence() {
    let m = |s: &str, t: &str, c: u32| PackageMapping {
        source: s.to_string(),
        target: t.to_string(),
        confidence: c,
    };
    let translated = vec![m("a", "a1", 100), m("b", "b1", 70), m("c", "c1", 50), m("d", "d1", 30)];
    let cmds = build_install_commands("pacman -S --noconfirm", &translated);
    assert_eq!(cmds, vec!["pacman -S --noconfirm a1 b1".to_string()]);
    let none = build_install_commands("apt install -y", &vec![m("x", "y", 40)]);
    assert!(none.is_empty());
    let many: Vec<PackageMapping> = (0..120).map(|i| m("s", &format!("p{}", i), 100)).collect();
    let cmds = build_install_commands("apt install -y", &many);
    assert_eq!(cmds.len(), 3);
    assert!(cmds[0].starts_with("apt install -y p0 "));
    assert!(cmds[2].ends_with("p119"));
}

#[test]
fn seeded_table_keys_are_unique() {
    let t = PackageTranslator::new();
    assert!(eshu_shapeshifter::package::rows_keys_unique(&t.rows));
    let mut t2 = PackageTranslator::new();
    t2.add_mapping(
        DistroFamily::Debian,
        "vim".to_string(),
        DistroFamily::Arch,
        "vim-enhanced".to_string(),
        90,
    );
    assert!(eshu_shapeshifter::package::rows_keys_unique(&t2.rows));
}
