//! The data model of the engine: configuration, distribution profiles, system
//! state, and snapshot metadata.
use vstd::prelude::*;

verus! {

/// Main configuration: where the engine keeps its data, snapshots and cache,
/// and where distribution profiles are fetched from.
#[derive(Debug, Clone)]
pub struct EshuConfig {
    pub version: String,
    pub data_dir: String,
    pub snapshot_dir: String,
    pub repository_url: String,
    pub cache_dir: String,
}

impl Default for EshuConfig {
    fn default() -> (r: Self)
        ensures
            r.version@ == "0.1.0"@,
            r.data_dir@ == "/var/lib/eshu-shapeshifter"@,
            r.snapshot_dir@ == "/var/lib/eshu-shapeshifter/snapshots"@,
            r.repository_url@
                == "https://raw.githubusercontent.com/eshu-apps/eshu-shapeshifter/main/profiles"@,
            r.cache_dir@ == "/var/cache/eshu-shapeshifter"@,
    {
        EshuConfig {
            version: String::from_str("0.1.0"),
            data_dir: String::from_str("/var/lib/eshu-shapeshifter"),
            snapshot_dir: String::from_str("/var/lib/eshu-shapeshifter/snapshots"),
            repository_url: String::from_str(
                "https://raw.githubusercontent.com/eshu-apps/eshu-shapeshifter/main/profiles",
            ),
            cache_dir: String::from_str("/var/cache/eshu-shapeshifter"),
        }
    }
}

/// The classification grouping distributions that share a package ecosystem.
#[derive(Debug, Clone)]
pub enum DistroFamily {
    Debian,
    RedHat,
    Arch,
    Suse,
    Gentoo,
    Alpine,
    Void,
    Nix,
    NixOS,
    Other(String),
}

/// Equality of families: same variant, and for `Other` the same name.
pub open spec fn family_eq(a: &DistroFamily, b: &DistroFamily) -> bool {
    match (a, b) {
        (DistroFamily::Debian, DistroFamily::Debian) => true,
        (DistroFamily::RedHat, DistroFamily::RedHat) => true,
        (DistroFamily::Arch, DistroFamily::Arch) => true,
        (DistroFamily::Suse, DistroFamily::Suse) => true,
        (DistroFamily::Gentoo, DistroFamily::Gentoo) => true,
        (DistroFamily::Alpine, DistroFamily::Alpine) => true,
        (DistroFamily::Void, DistroFamily::Void) => true,
        (DistroFamily::Nix, DistroFamily::Nix) => true,
        (DistroFamily::NixOS, DistroFamily::NixOS) => true,
        (DistroFamily::Other(x), DistroFamily::Other(y)) => x@ == y@,
        _ => false,
    }
}

impl PartialEq for DistroFamily {
    fn eq(&self, other: &DistroFamily) -> (r: bool) {
        match (self, other) {
            (DistroFamily::Debian, DistroFamily::Debian) => true,
            (DistroFamily::RedHat, DistroFamily::RedHat) => true,
            (DistroFamily::Arch, DistroFamily::Arch) => true,
            (DistroFamily::Suse, DistroFamily::Suse) => true,
            (DistroFamily::Gentoo, DistroFamily::Gentoo) => true,
            (DistroFamily::Alpine, DistroFamily::Alpine) => true,
            (DistroFamily::Void, DistroFamily::Void) => true,
            (DistroFamily::Nix, DistroFamily::Nix) => true,
            (DistroFamily::NixOS, DistroFamily::NixOS) => true,
            (DistroFamily::Other(x), DistroFamily::Other(y)) => *x == *y,
            _ => false,
        }
    }
}

impl vstd::std_specs::cmp::PartialEqSpecImpl for DistroFamily {
    open spec fn obeys_eq_spec() -> bool {
        true
    }

    open spec fn eq_spec(&self, other: &DistroFamily) -> bool {
        family_eq(self, other)
    }
}

/// How to drive a distribution's package manager: its name and the command
/// templates for the operations the engine needs.
#[derive(Debug, Clone)]
pub struct PackageManager {
    pub name: String,
    pub install_cmd: String,
    pub remove_cmd: String,
    pub update_cmd: String,
    pub search_cmd: String,
    pub list_installed_cmd: String,
}

/// The init system a distribution boots with.
#[derive(Debug, Clone)]
pub enum InitSystem {
    Systemd,
    OpenRC,
    Runit,
    SysVinit,
    Other(String),
}

/// Equality of init systems: same variant, and for `Other` the same name.
pub open spec fn init_system_eq(a: &InitSystem, b: &InitSystem) -> bool {
    match (a, b) {
        (InitSystem::Systemd, InitSystem::Systemd) => true,
        (InitSystem::OpenRC, InitSystem::OpenRC) => true,
        (InitSystem::Runit, InitSystem::Runit) => true,
        (InitSystem::SysVinit, InitSystem::SysVinit) => true,
        (InitSystem::Other(x), InitSystem::Other(y)) => x@ == y@,
        _ => false,
    }
}

impl PartialEq for InitSystem {
    fn eq(&self, other: &InitSystem) -> (r: bool) {
        match (self, other) {
            (InitSystem::Systemd, InitSystem::Systemd) => true,
            (InitSystem::OpenRC, InitSystem::OpenRC) => true,
            (InitSystem::Runit, InitSystem::Runit) => true,
            (InitSystem::SysVinit, InitSystem::SysVinit) => true,
            (InitSystem::Other(x), InitSystem::Other(y)) => *x == *y,
            _ => false,
        }
    }
}

impl vstd::std_specs::cmp::PartialEqSpecImpl for InitSystem {
    open spec fn obeys_eq_spec() -> bool {
        true
    }

    open spec fn eq_spec(&self, other: &InitSystem) -> bool {
        init_system_eq(self, other)
    }
}

/// A named configuration path of a profile, keyed by a logical name.
#[derive(Debug, Clone)]
pub struct ConfigPath {
    pub key: String,
    pub value: String,
}

/// A distribution profile: read-only reference data describing one supported
/// target distribution.
#[derive(Debug, Clone)]
pub struct DistroProfile {
    pub name: String,
    pub version: String,
    pub family: DistroFamily,
    pub package_manager: PackageManager,
    pub init_system: InitSystem,
    pub base_packages: Vec<String>,
    pub config_paths: Vec<ConfigPath>,
    pub pre_migration_hooks: Vec<String>,
    pub post_migration_hooks: Vec<String>,
    pub package_mappings: Vec<ConfigPath>,
}

/// The mechanism backing a snapshot.
#[derive(Debug, Clone, Copy, PartialEq, Eq, Structural)]
pub enum SnapshotType {
    Btrfs,
    LVM,
    Rsync,
}

/// Point-in-time system backup metadata, immutable after creation.
#[derive(Debug, Clone)]
pub struct Snapshot {
    pub id: String,
    pub timestamp: i64,
    pub distro_name: String,
    pub distro_version: String,
    pub description: String,
    pub snapshot_type: SnapshotType,
    pub size_bytes: u64,
    pub path: String,
}

/// Field-by-field equality of snapshot metadata.
pub open spec fn snapshot_eq(a: &Snapshot, b: &Snapshot) -> bool {
    &&& a.id@ == b.id@
    &&& a.timestamp == b.timestamp
    &&& a.distro_name@ == b.distro_name@
    &&& a.distro_version@ == b.distro_version@
    &&& a.description@ == b.description@
    &&& a.snapshot_type == b.snapshot_type
    &&& a.size_bytes == b.size_bytes
    &&& a.path@ == b.path@
}

impl PartialEq for Snapshot {
    fn eq(&self, other: &Snapshot) -> (r: bool) {
        self.id == other.id && self.timestamp == other.timestamp && self.distro_name
            == other.distro_name && self.distro_version == other.distro_version && self.description
            == other.description && self.snapshot_type == other.snapshot_type && self.size_bytes
            == other.size_bytes && self.path == other.path
    }
}

impl vstd::std_specs::cmp::PartialEqSpecImpl for Snapshot {
    open spec fn obeys_eq_spec() -> bool {
        true
    }

    open spec fn eq_spec(&self, other: &Snapshot) -> bool {
        snapshot_eq(self, other)
    }
}

/// One installed package as the scanner reports it.
#[derive(Debug, Clone)]
pub struct InstalledPackage {
    pub name: String,
    pub version: String,
    pub description: Option<String>,
    pub dependencies: Vec<String>,
}

/// One service as the scanner reports it.
#[derive(Debug, Clone)]
pub struct Service {
    pub name: String,
    pub enabled: bool,
    pub running: bool,
}

/// One user account as the scanner reports it.
#[derive(Debug, Clone)]
pub struct User {
    pub name: String,
    pub uid: u32,
    pub gid: u32,
    pub home: String,
    pub shell: String,
}

/// Immutable snapshot of reality at scan time.
#[derive(Debug, Clone)]
pub struct SystemState {
    pub distro: String,
    pub version: String,
    pub family: DistroFamily,
    pub kernel: String,
    pub architecture: String,
    pub installed_packages: Vec<InstalledPackage>,
    pub services: Vec<Service>,
    pub users: Vec<User>,
    pub filesystem_type: String,
    pub boot_loader: String,
}

} // verus!
