//! Migration orchestration: validation of a requested migration, the
//! disk-space gate, the batched install commands for translated packages,
//! the transformation history record, and the phase machine that sequences a
//! run. Commands, prompts and I/O are performed by the binary around the
//! library, which feeds their outcomes back as events.
use vstd::prelude::*;
use crate::chars::{
    chars_to_string, contains_sub, lower_chars, push_chars, push_lit, spec_contains, spec_lower,
    str_to_chars,
};
use crate::config::{family_eq, DistroProfile, Snapshot, SystemState};
use crate::distro::spec_join_ws;
use crate::error::EshuError;
use crate::numfmt::{render_dec_u64, spec_render_dec};
use crate::package::{spec_mappings_view, MappingView, PackageMapping, TranslationResult};
use crate::CONFIDENCE_AUTO_INSTALL_THRESHOLD;

verus! {

/// Free space a migration requires on the root filesystem.
pub const MIGRATION_MIN_SPACE_BYTES: u64 = 10 * 1024 * 1024 * 1024;

/// Packages are installed in batches to stay within command-line limits.
pub const INSTALL_BATCH_SIZE: usize = 50;

/// Relies on chrono's to_rfc3339 on Utc::now: the current time formatted per
/// RFC 3339; nothing is promised of the outcome.
#[verifier::external_body]
pub fn current_rfc3339() -> String {
    chrono::Utc::now().to_rfc3339()
}

/// The system already runs the target distribution: same family, and the
/// scanned name contains the profile's name (case folded).
pub open spec fn spec_already_target(state: SystemState, profile: DistroProfile) -> bool {
    family_eq(&state.family, &profile.family) && spec_contains(
        spec_lower(state.distro@),
        spec_lower(profile.name@),
    )
}

/// The architecture is one migration supports.
pub open spec fn spec_arch_supported(arch: Seq<char>) -> bool {
    arch == "x86_64"@ || arch == "aarch64"@
}

/// Validates a requested migration: fails when the system already runs the
/// target, then when the architecture is unsupported; otherwise the
/// migration is possible.
pub fn validate_migration_internal(state: &SystemState, profile: &DistroProfile) -> (r: Result<
    (),
    EshuError,
>)
    ensures
        spec_already_target(*state, *profile) ==> r is Err && (
        r->Err_0 matches EshuError::Validation(m) && m@
            == "Already running the target distribution"@),
        !spec_already_target(*state, *profile) && !spec_arch_supported(state.architecture@) ==> r
            is Err && (r->Err_0 matches EshuError::Validation(m) && m@
            == "Unsupported architecture: "@ + state.architecture@),
        !spec_already_target(*state, *profile) && spec_arch_supported(state.architecture@) ==> r
            is Ok,
{
    let same_family = state.family == profile.family;
    let dl = lower_chars(&str_to_chars(state.distro.as_str()));
    let nl = lower_chars(&str_to_chars(profile.name.as_str()));
    if same_family && contains_sub(&dl, &nl) {
        return Err(
            EshuError::Validation(String::from_str("Already running the target distribution")),
        );
    }
    let arch = state.architecture.as_str();
    if !(crate::chars::str_eq(arch, "x86_64") || crate::chars::str_eq(arch, "aarch64")) {
        let mut m: Vec<char> = Vec::new();
        push_lit(&mut m, "Unsupported architecture: ");
        let a = str_to_chars(arch);
        push_chars(&mut m, &a);
        return Err(EshuError::Validation(chars_to_string(&m)));
    }
    Ok(())
}

/// The message reported when free space falls short of the migration gate.
pub open spec fn spec_migration_space_message(available_bytes: u64) -> Seq<char> {
    "Insufficient disk space. Need at least 10GB, but only "@ + spec_render_dec(
        (available_bytes / crate::snapshot::BYTES_PER_GIB) as nat,
    ) + "GB available"@
}

/// The disk-space gate for starting a migration: at least 10 GiB must be
/// free on the root filesystem.
pub fn check_disk_space_for_migration(available_bytes: u64) -> (r: Result<(), EshuError>)
    ensures
        r is Ok <==> available_bytes >= MIGRATION_MIN_SPACE_BYTES,
        r is Err ==> (r->Err_0 matches EshuError::Validation(m) && m@
            == spec_migration_space_message(available_bytes)),
{
    if available_bytes >= MIGRATION_MIN_SPACE_BYTES {
        Ok(())
    } else {
        let mut msg: Vec<char> = Vec::new();
        push_lit(&mut msg, "Insufficient disk space. Need at least 10GB, but only ");
        let gib = render_dec_u64(available_bytes / crate::snapshot::BYTES_PER_GIB);
        push_chars(&mut msg, &gib);
        push_lit(&mut msg, "GB available");
        Err(EshuError::Validation(chars_to_string(&msg)))
    }
}

/// The targets of the mappings confident enough to auto-install, in order.
pub open spec fn spec_auto_targets(ms: Seq<MappingView>) -> Seq<Seq<char>>
    decreases ms.len(),
{
    if ms.len() == 0 {
        Seq::<Seq<char>>::empty()
    } else {
        spec_auto_targets(ms.drop_last()) + (if ms.last().confidence
            > CONFIDENCE_AUTO_INSTALL_THRESHOLD {
            seq![ms.last().target]
        } else {
            Seq::<Seq<char>>::empty()
        })
    }
}

/// The install command of one batch: nothing when no mapping of the batch is
/// confident enough, else the install template followed by the targets.
pub open spec fn spec_batch_command(cmd: Seq<char>, chunk: Seq<MappingView>) -> Seq<Seq<char>> {
    let targets = spec_auto_targets(chunk);
    if targets.len() == 0 {
        Seq::<Seq<char>>::empty()
    } else {
        seq![cmd + " "@ + spec_join_ws(targets)]
    }
}

/// The install commands of all batches, in order.
pub open spec fn spec_install_commands(cmd: Seq<char>, ms: Seq<MappingView>) -> Seq<Seq<char>>
    decreases ms.len(),
{
    if ms.len() == 0 {
        Seq::<Seq<char>>::empty()
    } else if ms.len() <= INSTALL_BATCH_SIZE {
        spec_batch_command(cmd, ms)
    } else {
        spec_batch_command(cmd, ms.take(INSTALL_BATCH_SIZE as int)) + spec_install_commands(
            cmd,
            ms.skip(INSTALL_BATCH_SIZE as int),
        )
    }
}

/// Builds the shell-free install command lines for the translated packages:
/// batches of at most fifty, only mappings above the auto-install confidence
/// threshold, empty batches skipped.
#[verifier::loop_isolation(false)]
pub fn build_install_commands(install_cmd: &str, translated: &Vec<PackageMapping>) -> (r: Vec<
    String,
>)
    ensures
        r.deep_view() == spec_install_commands(install_cmd@, spec_mappings_view(translated@)),
{
    let ghost ms = spec_mappings_view(translated@);
    let ghost whole = spec_install_commands(install_cmd@, ms);
    let mut out: Vec<String> = Vec::new();
    proof {
        assert(ms.skip(0) =~= ms);
        assert(out.deep_view() =~= Seq::<Seq<char>>::empty());
    }
    let mut c: usize = 0;
    while c < translated.len()
        invariant
            0 <= c <= ms.len(),
            c % INSTALL_BATCH_SIZE == 0 || c == ms.len(),
            whole == out.deep_view() + spec_install_commands(install_cmd@, ms.skip(c as int)),
        decreases ms.len() - c,
    {
        let end: usize = if translated.len() - c > INSTALL_BATCH_SIZE {
            c + INSTALL_BATCH_SIZE
        } else {
            translated.len()
        };
        let ghost chunk = if ms.skip(c as int).len() <= INSTALL_BATCH_SIZE {
            ms.skip(c as int)
        } else {
            ms.skip(c as int).take(INSTALL_BATCH_SIZE as int)
        };
        proof {
            assert(chunk =~= ms.subrange(c as int, end as int));
            if ms.skip(c as int).len() > INSTALL_BATCH_SIZE {
                assert(ms.skip(c as int).skip(INSTALL_BATCH_SIZE as int) =~= ms.skip(end as int));
            }
        }
        let mut joined: Vec<char> = Vec::new();
        let mut n: usize = 0;
        proof {
            assert(ms.subrange(c as int, c as int) =~= Seq::<MappingView>::empty());
            assert(spec_auto_targets(ms.subrange(c as int, c as int)) =~= Seq::<
                Seq<char>,
            >::empty());
        }
        let mut j: usize = c;
        while j < end
            invariant
                c <= j <= end <= ms.len(),
                end <= translated@.len(),
                n <= j - c,
                n == spec_auto_targets(ms.subrange(c as int, j as int)).len(),
                joined@ == spec_join_ws(spec_auto_targets(ms.subrange(c as int, j as int))),
            decreases end - j,
        {
            let ghost pre = ms.subrange(c as int, j as int);
            let ghost cur = ms.subrange(c as int, j as int + 1);
            proof {
                assert(cur.drop_last() =~= pre);
                assert(cur.last() == ms[j as int]);
                assert(ms[j as int] == translated@[j as int]@);
            }
            if translated[j].confidence > CONFIDENCE_AUTO_INSTALL_THRESHOLD {
                let ghost tgts = spec_auto_targets(pre);
                if n > 0 {
                    joined.push(' ');
                }
                let t = str_to_chars(translated[j].target.as_str());
                push_chars(&mut joined, &t);
                n = n + 1;
                proof {
                    let tgts2 = spec_auto_targets(cur);
                    assert(tgts2 =~= tgts + seq![ms[j as int].target]);
                    assert(tgts2.drop_last() =~= tgts);
                    assert(tgts2.last() == ms[j as int].target);
                    if tgts.len() == 0 {
                        assert(joined@ =~= spec_join_ws(tgts2));
                    } else {
                        assert(joined@ =~= spec_join_ws(tgts) + seq![' '] + ms[j as int].target);
                    }
                }
            } else {
                proof {
                    assert(spec_auto_targets(cur) =~= spec_auto_targets(pre));
                }
            }
            j = j + 1;
        }
        if n > 0 {
            let mut cmdv = str_to_chars(install_cmd);
            push_lit(&mut cmdv, " ");
            push_chars(&mut cmdv, &joined);
            let ghost old_dv = out.deep_view();
            let cmd_s = chars_to_string(&cmdv);
            let ghost cs = cmd_s@;
            out.push(cmd_s);
            proof {
                assert(out.deep_view() =~~= old_dv.push(cs));
                assert(spec_batch_command(install_cmd@, chunk) =~= seq![cs]);
                assert(old_dv.push(cs) =~= old_dv + seq![cs]);
            }
        } else {
            proof {
                assert(spec_auto_targets(chunk).len() == 0);
                assert(spec_batch_command(install_cmd@, chunk) =~= Seq::<Seq<char>>::empty());
                assert(out.deep_view() + Seq::<Seq<char>>::empty() =~= out.deep_view());
            }
        }
        proof {
            if ms.skip(c as int).len() <= INSTALL_BATCH_SIZE {
                assert(ms.skip(end as int) =~= Seq::<MappingView>::empty());
                assert(spec_install_commands(install_cmd@, ms.skip(end as int)) =~= Seq::<
                    Seq<char>,
                >::empty());
            }
        }
        c = end;
    }
    proof {
        assert(ms.skip(ms.len() as int) =~= Seq::<MappingView>::empty());
        assert(spec_install_commands(install_cmd@, Seq::<MappingView>::empty()) =~= Seq::<
            Seq<char>,
        >::empty());
        assert(out.deep_view() + Seq::<Seq<char>>::empty() =~= out.deep_view());
    }
    out
}

/// One appended entry of the transformation history.
#[derive(Debug, Clone)]
pub struct TransformationRecord {
    pub from_distro: String,
    pub to_distro: String,
    pub timestamp: String,
    pub snapshot_id: String,
}

/// Builds the history entry of a completed transformation; a migration that
/// ran without a snapshot records the sentinel identifier.
pub fn make_transformation_record(
    from: &str,
    to: &str,
    timestamp_rfc3339: String,
    snapshot_id: Option<String>,
) -> (r: TransformationRecord)
    ensures
        r.from_distro@ == from@,
        r.to_distro@ == to@,
        r.timestamp@ == timestamp_rfc3339@,
        match snapshot_id {
            Some(id) => r.snapshot_id@ == id@,
            None => r.snapshot_id@ == "no-snapshot"@,
        },
{
    let sid = match snapshot_id {
        Some(id) => id,
        None => String::from_str("no-snapshot"),
    };
    TransformationRecord {
        from_distro: String::from_str(from),
        to_distro: String::from_str(to),
        timestamp: timestamp_rfc3339,
        snapshot_id: sid,
    }
}

/// The phases of one migration run, in order; failure lands in `Aborted`.
#[derive(Debug, Clone, Copy, PartialEq, Eq, Structural)]
pub enum MigrationPhase {
    ScanningSystem,
    LoadingProfile,
    Validating,
    AwaitingConfirmation,
    CreatingSnapshot,
    AwaitingSnapshotOverride,
    TranslatingPackages,
    PlanningConfiguration,
    PreservingUserData,
    ExecutingMigration,
    RecordingHistory,
    Complete,
    Aborted,
}

/// The outcome the surrounding binary reports for the phase it just ran.
#[derive(Debug)]
pub enum MigrationEvent {
    SystemScanned(SystemState),
    ProfileLoaded(DistroProfile),
    ProfileMissing(String),
    ValidationPassed,
    ValidationFailed(EshuError),
    ConfirmationAnswered(bool),
    SnapshotCreated(Snapshot),
    SnapshotCreationFailed(String),
    OverrideAnswered(bool),
    PackagesTranslated(TranslationResult),
    ConfigurationPlanned(usize),
    UserDataPreserved,
    MigrationExecuted,
    MigrationFailed(EshuError),
    HistoryRecorded,
}

/// What the surrounding binary must do next.
#[derive(Debug)]
pub enum MigrationAction {
    LoadProfile,
    Validate,
    AskConfirmation,
    CreateSnapshot,
    AskSnapshotOverride,
    TranslatePackages,
    PlanConfiguration,
    PreserveUserData,
    ExecuteMigration,
    RecordHistory,
    Finish,
    /// The run is over without completing; when a snapshot exists its
    /// identifier is surfaced so the operator can revert.
    Abort { snapshot_id: Option<String> },
}

/// The identifier of the snapshot, when one was taken.
pub open spec fn spec_snapshot_id_of(o: Option<Snapshot>) -> Option<Seq<char>> {
    match o {
        Some(s) => Some(s.id@),
        None => None,
    }
}

/// The identifier an `Abort` action carries, as a spec value.
pub open spec fn spec_abort_id(a: MigrationAction) -> Option<Seq<char>> {
    match a {
        MigrationAction::Abort { snapshot_id: Some(id) } => Some(id@),
        _ => None,
    }
}

/// Sequences one migration run. The machine only decides; every command,
/// prompt and file access is performed outside and reported back as an
/// event.
pub struct MigrationOrchestrator {
    pub phase: MigrationPhase,
    pub state: Option<SystemState>,
    pub profile: Option<DistroProfile>,
    pub snapshot: Option<Snapshot>,
    pub translation: Option<TranslationResult>,
    pub confirmed: bool,
}

impl MigrationOrchestrator {
    /// The phases in which destructive work may already have started: they
    /// are reachable only after explicit confirmation.
    pub open spec fn spec_past_confirmation(phase: MigrationPhase) -> bool {
        match phase {
            MigrationPhase::CreatingSnapshot => true,
            MigrationPhase::AwaitingSnapshotOverride => true,
            MigrationPhase::TranslatingPackages => true,
            MigrationPhase::PlanningConfiguration => true,
            MigrationPhase::PreservingUserData => true,
            MigrationPhase::ExecutingMigration => true,
            MigrationPhase::RecordingHistory => true,
            MigrationPhase::Complete => true,
            _ => false,
        }
    }

    /// The machine's invariant: no destructive phase without confirmation,
    /// and the data a phase works on has been gathered by then.
    pub open spec fn wf(&self) -> bool {
        &&& (Self::spec_past_confirmation(self.phase) ==> self.confirmed)
        &&& (self.phase != MigrationPhase::ScanningSystem && self.phase != MigrationPhase::Aborted
            ==> self.state is Some)
        &&& (self.phase != MigrationPhase::ScanningSystem && self.phase
            != MigrationPhase::LoadingProfile && self.phase != MigrationPhase::Aborted
            ==> self.profile is Some)
    }

    /// A run about to scan the system.
    pub fn new() -> (r: Self)
        ensures
            r.phase == MigrationPhase::ScanningSystem,
            r.state is None,
            r.profile is None,
            r.snapshot is None,
            r.translation is None,
            !r.confirmed,
            r.wf(),
    {
        MigrationOrchestrator {
            phase: MigrationPhase::ScanningSystem,
            state: None,
            profile: None,
            snapshot: None,
            translation: None,
            confirmed: false,
        }
    }

    /// The events each phase accepts.
    pub open spec fn spec_expects(phase: MigrationPhase, event: MigrationEvent) -> bool {
        match phase {
            MigrationPhase::ScanningSystem => event is SystemScanned,
            MigrationPhase::LoadingProfile => event is ProfileLoaded || event is ProfileMissing,
            MigrationPhase::Validating => event is ValidationPassed || event is ValidationFailed,
            MigrationPhase::AwaitingConfirmation => event is ConfirmationAnswered,
            MigrationPhase::CreatingSnapshot => event is SnapshotCreated
                || event is SnapshotCreationFailed,
            MigrationPhase::AwaitingSnapshotOverride => event is OverrideAnswered,
            MigrationPhase::TranslatingPackages => event is PackagesTranslated,
            MigrationPhase::PlanningConfiguration => event is ConfigurationPlanned,
            MigrationPhase::PreservingUserData => event is UserDataPreserved,
            MigrationPhase::ExecutingMigration => event is MigrationExecuted
                || event is MigrationFailed,
            MigrationPhase::RecordingHistory => event is HistoryRecorded,
            MigrationPhase::Complete => false,
            MigrationPhase::Aborted => false,
        }
    }

    /// Advances the run by one reported outcome and says what to do next.
    /// Cancellation at either prompt aborts cleanly; a snapshot-creation
    /// failure is recoverable only by the explicit override; a failure during
    /// execution surfaces the snapshot identifier for rollback.
    pub fn step(&mut self, event: MigrationEvent) -> (action: MigrationAction)
        requires
            old(self).wf(),
            Self::spec_expects(old(self).phase, event),
        ensures
            final(self).wf(),
            final(self).snapshot == old(self).snapshot || event is SnapshotCreated || event is SnapshotCreationFailed,
            match event {
                MigrationEvent::SystemScanned(st) => {
                    &&& final(self).phase == MigrationPhase::LoadingProfile
                    &&& final(self).state == Some(st)
                    &&& action is LoadProfile
                },
                MigrationEvent::ProfileLoaded(p) => {
                    &&& final(self).phase == MigrationPhase::Validating
                    &&& final(self).profile == Some(p)
                    &&& action is Validate
                },
                MigrationEvent::ProfileMissing(_) => {
                    &&& final(self).phase == MigrationPhase::Aborted
                    &&& (action matches MigrationAction::Abort { snapshot_id } && snapshot_id
                        is None)
                },
                MigrationEvent::ValidationPassed => {
                    &&& final(self).phase == MigrationPhase::AwaitingConfirmation
                    &&& action is AskConfirmation
                },
                MigrationEvent::ValidationFailed(_) => {
                    &&& final(self).phase == MigrationPhase::Aborted
                    &&& (action matches MigrationAction::Abort { snapshot_id } && snapshot_id
                        is None)
                },
                MigrationEvent::ConfirmationAnswered(yes) => {
                    if yes {
                        &&& final(self).phase == MigrationPhase::CreatingSnapshot
                        &&& final(self).confirmed
                        &&& action is CreateSnapshot
                    } else {
                        &&& final(self).phase == MigrationPhase::Aborted
                        &&& (action matches MigrationAction::Abort { snapshot_id } && snapshot_id
                            is None)
                    }
                },
                MigrationEvent::SnapshotCreated(s) => {
                    &&& final(self).phase == MigrationPhase::TranslatingPackages
                    &&& (final(self).snapshot matches Some(s2) && crate::config::snapshot_eq(
                        &s2,
                        &s,
                    ))
                    &&& action is TranslatePackages
                },
                MigrationEvent::SnapshotCreationFailed(_) => {
                    &&& final(self).phase == MigrationPhase::AwaitingSnapshotOverride
                    &&& final(self).snapshot is None
                    &&& action is AskSnapshotOverride
                },
                MigrationEvent::OverrideAnswered(yes) => {
                    if yes {
                        &&& final(self).phase == MigrationPhase::TranslatingPackages
                        &&& action is TranslatePackages
                    } else {
                        &&& final(self).phase == MigrationPhase::Aborted
                        &&& (action matches MigrationAction::Abort { snapshot_id } && snapshot_id
                            is None)
                    }
                },
                MigrationEvent::PackagesTranslated(_) => {
                    &&& final(self).phase == MigrationPhase::PlanningConfiguration
                    &&& final(self).translation is Some
                    &&& action is PlanConfiguration
                },
                MigrationEvent::ConfigurationPlanned(_) => {
                    &&& final(self).phase == MigrationPhase::PreservingUserData
                    &&& action is PreserveUserData
                },
                MigrationEvent::UserDataPreserved => {
                    &&& final(self).phase == MigrationPhase::ExecutingMigration
                    &&& action is ExecuteMigration
                },
                MigrationEvent::MigrationExecuted => {
                    &&& final(self).phase == MigrationPhase::RecordingHistory
                    &&& action is RecordHistory
                },
                MigrationEvent::MigrationFailed(_) => {
                    &&& final(self).phase == MigrationPhase::Aborted
                    &&& (action matches MigrationAction::Abort { snapshot_id } && (match old(
                        self,
                    ).snapshot {
                        Some(s) => snapshot_id matches Some(id) && id@ == s.id@,
                        None => snapshot_id is None,
                    }))
                },
                MigrationEvent::HistoryRecorded => {
                    &&& final(self).phase == MigrationPhase::Complete
                    &&& action is Finish
                },
            },
    {
        match event {
            MigrationEvent::SystemScanned(st) => {
                self.state = Some(st);
                self.phase = MigrationPhase::LoadingProfile;
                MigrationAction::LoadProfile
            },
            MigrationEvent::ProfileLoaded(p) => {
                self.profile = Some(p);
                self.phase = MigrationPhase::Validating;
                MigrationAction::Validate
            },
            MigrationEvent::ProfileMissing(_) => {
                self.phase = MigrationPhase::Aborted;
                MigrationAction::Abort { snapshot_id: None }
            },
            MigrationEvent::ValidationPassed => {
                self.phase = MigrationPhase::AwaitingConfirmation;
                MigrationAction::AskConfirmation
            },
            MigrationEvent::ValidationFailed(_) => {
                self.phase = MigrationPhase::Aborted;
                MigrationAction::Abort { snapshot_id: None }
            },
            MigrationEvent::ConfirmationAnswered(yes) => {
                if yes {
                    self.confirmed = true;
                    self.phase = MigrationPhase::CreatingSnapshot;
                    MigrationAction::CreateSnapshot
                } else {
                    self.phase = MigrationPhase::Aborted;
                    MigrationAction::Abort { snapshot_id: None }
                }
            },
            MigrationEvent::SnapshotCreated(s) => {
                self.snapshot = Some(s);
                self.phase = MigrationPhase::TranslatingPackages;
                MigrationAction::TranslatePackages
            },
            MigrationEvent::SnapshotCreationFailed(_) => {
                self.snapshot = None;
                self.phase = MigrationPhase::AwaitingSnapshotOverride;
                MigrationAction::AskSnapshotOverride
            },
            MigrationEvent::OverrideAnswered(yes) => {
                if yes {
                    self.phase = MigrationPhase::TranslatingPackages;
                    MigrationAction::TranslatePackages
                } else {
                    self.phase = MigrationPhase::Aborted;
                    MigrationAction::Abort { snapshot_id: None }
                }
            },
            MigrationEvent::PackagesTranslated(tr) => {
                self.translation = Some(tr);
                self.phase = MigrationPhase::PlanningConfiguration;
                MigrationAction::PlanConfiguration
            },
            MigrationEvent::ConfigurationPlanned(_) => {
                self.phase = MigrationPhase::PreservingUserData;
                MigrationAction::PreserveUserData
            },
            MigrationEvent::UserDataPreserved => {
                self.phase = MigrationPhase::ExecutingMigration;
                MigrationAction::ExecuteMigration
            },
            MigrationEvent::MigrationExecuted => {
                self.phase = MigrationPhase::RecordingHistory;
                MigrationAction::RecordHistory
            },
            MigrationEvent::MigrationFailed(_) => {
                self.phase = MigrationPhase::Aborted;
                let sid = match &self.snapshot {
                    Some(s) => Some(s.id.clone()),
                    None => None,
                };
                MigrationAction::Abort { snapshot_id: sid }
            },
            MigrationEvent::HistoryRecorded => {
                self.phase = MigrationPhase::Complete;
                MigrationAction::Finish
            },
        }
    }
}

/// Destructive phases are reachable only after explicit confirmation: in any
/// well-formed run state whose phase may already have touched the system,
/// the operator has confirmed.
pub proof fn lemma_no_destruction_without_confirmation(m: MigrationOrchestrator)
    requires
        m.wf(),
        MigrationOrchestrator::spec_past_confirmation(m.phase),
    ensures
        m.confirmed,
{
}

} // verus!
