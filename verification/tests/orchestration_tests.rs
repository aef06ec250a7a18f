use eshu_shapeshifter::config::{DistroFamily, Snapshot, SnapshotType, SystemState};
use eshu_shapeshifter::license::{
    classify_product, needs_subscription_check, subscription_is_active, LicenseInfo, LicenseType,
    ProductKind, ShiftEligibility, FREE_TRIAL_SHIFTS,
};
use eshu_shapeshifter::migration::{
    MigrationAction, MigrationEvent, MigrationOrchestrator, MigrationPhase,
};
use eshu_shapeshifter::package::TranslationResult;
use eshu_shapeshifter::repository::create_arch_profile;

fn scanned_state() -> SystemState {
    SystemState {
        distro: "Debian".to_string(),
        version: "12".to_string(),
        family: DistroFamily::Debian,
        kernel: "6.1".to_string(),
        architecture: "x86_64".to_string(),
        installed_packages: Vec::new(),
        services: Vec::new(),
        users: Vec::new(),
        filesystem_type: "ext4".to_string(),
        boot_loader: "GRUB".to_string(),
    }
}

fn snapshot() -> Snapshot {
    Snapshot {
        id: "snapshot_7_0007".to_string(),
        timestamp: 7,
        distro_name: "Debian".to_string(),
        distro_version: "12".to_string(),
        description: "pre-migration".to_string(),
        snapshot_type: SnapshotType::Rsync,
        size_bytes: 0,
        path: "/snaps/snapshot_7_0007".to_string(),
    }
}

#[test]
fn happy_path_walks_every_phase_in_order() {
    let mut m = MigrationOrchestrator::new();
    assert_eq!(m.phase, MigrationPhase::ScanningSystem);
    let a = m.step(MigrationEvent::SystemScanned(scanned_state()));
    assert!(matches!(a, MigrationAction::LoadProfile));
    let a = m.step(MigrationEvent::ProfileLoaded(create_arch_profile()));
    assert!(matches!(a, MigrationAction::Validate));
    let a = m.step(MigrationEvent::ValidationPassed);
    assert!(matches!(a, MigrationAction::AskConfirmation));
    let a = m.step(MigrationEvent::ConfirmationAnswered(true));
    assert!(matches!(a, MigrationAction::CreateSnapshot));
    let a = m.step(MigrationEvent::SnapshotCreated(snapshot()));
    assert!(matches!(a, MigrationAction::TranslatePackages));
    let a = m.step(MigrationEvent::PackagesTranslated(TranslationResult {
        translated: Vec::new(),
        untranslated: Vec::new(),
        skipped: Vec::new(),
    }));
    assert!(matches!(a, MigrationAction::PlanConfiguration));
    let a = m.step(MigrationEvent::ConfigurationPlanned(4));
    assert!(matches!(a, MigrationAction::PreserveUserData));
    let a = m.step(MigrationEvent::UserDataPreserved);
    assert!(matches!(a, MigrationAction::ExecuteMigration));
    let a = m.step(MigrationEvent::MigrationExecuted);
    assert!(matches!(a, MigrationAction::RecordHistory));
    let a = m.step(MigrationEvent::HistoryRecorded);
    assert!(matches!(a, MigrationAction::Finish));
    assert_eq!(m.phase, MigrationPhase::Complete);
    assert!(m.confirmed);
}

#[test]
fn declining_confirmation_aborts_before_any_destructive_step() {
    let mut m = MigrationOrchestrator::new();
    m.step(MigrationEvent::SystemScanned(scanned_state()));
    m.step(MigrationEvent::ProfileLoaded(create_arch_profile()));
    m.step(MigrationEvent::ValidationPassed);
    let a = m.step(MigrationEvent::ConfirmationAnswered(false));
    assert!(matches!(a, MigrationAction::Abort { snapshot_id: None }));
    assert_eq!(m.phase, MigrationPhase::Aborted);
    assert!(!m.confirmed);
}

#[test]
fn failure_after_snapshot_surfaces_its_identifier() {
    let mut m = MigrationOrchestrator::new();
    m.step(MigrationEvent::SystemScanned(scanned_state()));
    m.step(MigrationEvent::ProfileLoaded(create_arch_profile()));
    m.step(MigrationEvent::ValidationPassed);
    m.step(MigrationEvent::ConfirmationAnswered(true));
    m.step(MigrationEvent::SnapshotCreated(snapshot()));
    m.step(MigrationEvent::PackagesTranslated(TranslationResult {
        translated: Vec::new(),
        untranslated: Vec::new(),
        skipped: Vec::new(),
    }));
    m.step(MigrationEvent::ConfigurationPlanned(0));
    m.step(MigrationEvent::UserDataPreserved);
    let a = m.step(MigrationEvent::MigrationFailed(
        eshu_shapeshifter::error::EshuError::Migration("hook failed".to_string()),
    ));
    match a {
        MigrationAction::Abort { snapshot_id: Some(id) } => assert_eq!(id, "snapshot_7_0007"),
        other => panic!("expected abort with snapshot id, got {:?}", other),
    }
}

#[test]
fn snapshot_failure_requires_explicit_override() {
    let mut m = MigrationOrchestrator::new();
    m.step(MigrationEvent::SystemScanned(scanned_state()));
    m.step(MigrationEvent::ProfileLoaded(create_arch_profile()));
    m.step(MigrationEvent::ValidationPassed);
    m.step(MigrationEvent::ConfirmationAnswered(true));
    let a = m.step(MigrationEvent::SnapshotCreationFailed("no space".to_string()));
    assert!(matches!(a, MigrationAction::AskSnapshotOverride));
    let a = m.step(MigrationEvent::OverrideAnswered(false));
    assert!(matches!(a, MigrationAction::Abort { snapshot_id: None }));
    assert_eq!(m.phase, MigrationPhase::Aborted);
}

#[test]
fn free_trial_grants_two_shifts() {
    let mut l = LicenseInfo::initial(1000);
    assert_eq!(l.get_shifts_remaining(), FREE_TRIAL_SHIFTS);
    assert_eq!(l.can_shapeshift(), ShiftEligibility::Allowed);
    l.use_shapeshift().expect("first shift");
    l.use_shapeshift().expect("second shift");
    assert_eq!(l.get_shifts_remaining(), 0);
    assert_eq!(l.can_shapeshift(), ShiftEligibility::Denied);
    assert!(l.use_shapeshift().is_err());
    assert_eq!(l.shifts_used, 2);
}

#[test]
fn shift_pack_counts_down_and_asks_for_refresh() {
    let mut l = LicenseInfo::initial(0);
    l.apply_activation(ProductKind::Pack, "test-license-key".to_string(), false, false, false, 5)
        .expect("activation");
    assert_eq!(l.get_shifts_remaining(), 10);
    for _ in 0..10 {
        l.use_shapeshift().expect("pack shift");
    }
    assert_eq!(l.get_shifts_remaining(), 0);
    assert_eq!(l.can_shapeshift(), ShiftEligibility::NeedsPackRefresh);
    assert!(l.use_shapeshift().is_err());
}

#[test]
fn inactive_subscription_cannot_activate() {
    let mut l = LicenseInfo::initial(0);
    let r = l.apply_activation(
        ProductKind::Subscription,
        "test-license-key".to_string(),
        true,
        false,
        false,
        5,
    );
    assert!(r.is_err());
    assert!(matches!(l.license_type, LicenseType::FreeTrial));
    l.apply_activation(ProductKind::Subscription, "test-license-key".to_string(), false, false, false, 9)
        .expect("activation");
    assert!(matches!(l.license_type, LicenseType::Subscription { .. }));
    assert_eq!(l.last_verified, 9);
    assert_eq!(l.get_shifts_remaining(), u32::MAX);
    assert_eq!(l.can_shapeshift(), ShiftEligibility::NeedsSubscriptionCheck);
}

#[test]
fn subscription_checks_once_per_day() {
    assert!(!needs_subscription_check(86399, 0));
    assert!(needs_subscription_check(86400, 0));
    assert!(subscription_is_active(false, false, false));
    assert!(!subscription_is_active(false, true, false));
}

#[test]
fn product_permalinks_classify() {
    assert_eq!(classify_product("eshu-shapeshifter-unlimited"), ProductKind::Subscription);
    assert_eq!(classify_product("monthly-subscription"), ProductKind::Subscription);
    assert_eq!(classify_product("eshu-shapeshifter-pack"), ProductKind::Pack);
    assert_eq!(classify_product("something-else"), ProductKind::Unknown);
}
