//! Snapshot lifecycle decisions: strategy selection, the disk-space gate,
//! collision-resistant identifiers, metadata naming, listing order, and the
//! revert dispatch. The commands these decisions call for are run by the
//! binary around the library.
use vstd::prelude::*;
use crate::chars::{
    chars_to_string, contains_lit, push_chars, push_lit, spec_contains, spec_split_on,
    spec_split_ws, split_on, split_ws, str_eq, str_to_chars,
};
use crate::config::{Snapshot, SnapshotType};
use crate::error::EshuError;
use vstd::multiset::Multiset;
use crate::numfmt::{
    parse_dec_u64, render_dec_u64, render_hex4, render_int_i64, lemma_hex4_injective,
    lemma_render_int_injective, spec_hex4, spec_parse_u64, spec_render_dec, spec_render_int,
};

verus! {

/// Free space an Rsync-backed snapshot requires on the root filesystem.
pub const SNAPSHOT_MIN_SPACE_BYTES: u64 = 20 * 1024 * 1024 * 1024;

/// One gibibyte, for reporting sizes in whole numbers.
pub const BYTES_PER_GIB: u64 = 1024 * 1024 * 1024;

/// Relies on rand::random for a uniformly drawn 16-bit value; nothing is
/// promised of the outcome.
#[verifier::external_body]
fn random_u16() -> u16 {
    rand::random()
}

/// Relies on chrono::Utc::now: the Unix timestamp of the current time;
/// nothing is promised of the outcome.
#[verifier::external_body]
pub fn current_unix_timestamp() -> i64 {
    chrono::Utc::now().timestamp()
}

/// What inspecting the root filesystem type alone settles: Btrfs needs no
/// further probing, anything else asks for an LVM probe.
#[derive(Debug, Clone, Copy, PartialEq, Eq, Structural)]
pub enum StrategyProbe {
    Determined(SnapshotType),
    NeedsLvmProbe,
}

/// First step of strategy detection: a btrfs root settles on Btrfs without
/// probing LVM; any other filesystem defers to the LVM probe.
pub fn detect_snapshot_method(fs_type: &str) -> (r: StrategyProbe)
    ensures
        fs_type@ == "btrfs"@ ==> r == StrategyProbe::Determined(SnapshotType::Btrfs),
        fs_type@ != "btrfs"@ ==> r == StrategyProbe::NeedsLvmProbe,
{
    if str_eq(fs_type, "btrfs") {
        StrategyProbe::Determined(SnapshotType::Btrfs)
    } else {
        StrategyProbe::NeedsLvmProbe
    }
}

/// Second step of strategy detection: a present LVM volume group gives LVM,
/// else the Rsync fallback.
pub fn resolve_snapshot_method(lvm_present: bool) -> (r: SnapshotType)
    ensures
        r == (if lvm_present {
            SnapshotType::LVM
        } else {
            SnapshotType::Rsync
        }),
{
    if lvm_present {
        SnapshotType::LVM
    } else {
        SnapshotType::Rsync
    }
}

/// The message reported when free space falls short of the snapshot gate.
pub open spec fn spec_space_message(available_bytes: u64) -> Seq<char> {
    "Insufficient disk space. Need at least 20GB, but only "@ + spec_render_dec(
        (available_bytes / BYTES_PER_GIB) as nat,
    ) + "GB available"@
}

/// The disk-space gate for Rsync-backed snapshot creation: at least 20 GiB
/// must be free, else a snapshot error naming the required and the available
/// amounts.
pub fn check_disk_space(available_bytes: u64) -> (r: Result<(), EshuError>)
    ensures
        r is Ok <==> available_bytes >= SNAPSHOT_MIN_SPACE_BYTES,
        r is Err ==> (r->Err_0 matches EshuError::Snapshot(m) && m@ == spec_space_message(
            available_bytes,
        )),
{
    if available_bytes >= SNAPSHOT_MIN_SPACE_BYTES {
        Ok(())
    } else {
        let mut msg: Vec<char> = Vec::new();
        push_lit(&mut msg, "Insufficient disk space. Need at least 20GB, but only ");
        let gib = render_dec_u64(available_bytes / BYTES_PER_GIB);
        push_chars(&mut msg, &gib);
        push_lit(&mut msg, "GB available");
        Err(EshuError::Snapshot(chars_to_string(&msg)))
    }
}

/// What a disk-usage report yields: the fourth whitespace-separated field of
/// its second line, read as a byte count.
pub open spec fn spec_parse_df_available(s: Seq<char>) -> Option<u64> {
    let lines = spec_split_on(s, '\n');
    if lines.len() < 2 {
        None
    } else {
        let parts = spec_split_ws(lines[1]);
        if parts.len() < 4 {
            None
        } else {
            spec_parse_u64(parts[3])
        }
    }
}

/// Parses the available-bytes column out of a byte-denominated disk-usage
/// report on the root filesystem.
pub fn parse_df_available(output: &str) -> (r: Option<u64>)
    ensures
        r == spec_parse_df_available(output@),
{
    let v = str_to_chars(output);
    let lines = split_on(&v, '\n');
    if lines.len() < 2 {
        return None;
    }
    assert(lines@[1]@ =~~= lines.deep_view()[1]);
    let parts = split_ws(&lines[1]);
    if parts.len() < 4 {
        return None;
    }
    assert(parts@[3]@ =~~= parts.deep_view()[3]);
    parse_dec_u64(&parts[3])
}

/// The identifier of a snapshot taken at `ts` with random suffix `suffix`:
/// a fixed prefix, the timestamp in decimal, and four hexadecimal digits.
pub open spec fn spec_snapshot_id(ts: int, suffix: int) -> Seq<char> {
    "snapshot_"@ + spec_render_int(ts) + "_"@ + spec_hex4(suffix)
}

/// Renders the snapshot identifier for a timestamp and a suffix.
pub fn make_snapshot_id(timestamp: i64, suffix: u16) -> (r: String)
    ensures
        r@ == spec_snapshot_id(timestamp as int, suffix as int),
{
    let mut id: Vec<char> = Vec::new();
    push_lit(&mut id, "snapshot_");
    let ts = render_int_i64(timestamp);
    push_chars(&mut id, &ts);
    push_lit(&mut id, "_");
    let hex = render_hex4(suffix);
    push_chars(&mut id, &hex);
    chars_to_string(&id)
}

/// Draws a fresh random suffix and renders the identifier for it.
pub fn generate_snapshot_id(timestamp: i64) -> (r: String)
    ensures
        exists|s: u16| r@ == spec_snapshot_id(timestamp as int, s as int),
{
    let s = random_u16();
    let id = make_snapshot_id(timestamp, s);
    proof {
        assert(id@ == spec_snapshot_id(timestamp as int, s as int));
    }
    id
}

/// Distinct (timestamp, suffix) pairs always render distinct snapshot
/// identifiers, so identifiers of repeated creations within one process are
/// pairwise distinct unless both the timestamp and the drawn suffix collide;
/// that residual case is handled by the path-existence retry.
pub proof fn lemma_snapshot_id_injective(ts1: i64, s1: u16, ts2: i64, s2: u16)
    requires
        spec_snapshot_id(ts1 as int, s1 as int) == spec_snapshot_id(ts2 as int, s2 as int),
    ensures
        ts1 == ts2,
        s1 == s2,
{
    reveal_strlit("snapshot_");
    reveal_strlit("_");
    let p = "snapshot_"@;
    let u = "_"@;
    let a = spec_render_int(ts1 as int);
    let b = spec_render_int(ts2 as int);
    let h1 = spec_hex4(s1 as int);
    let h2 = spec_hex4(s2 as int);
    let id1 = p + a + u + h1;
    let id2 = p + b + u + h2;
    assert(id1.len() == 9 + a.len() + 1 + 4);
    assert(id2.len() == 9 + b.len() + 1 + 4);
    assert(a.len() == b.len());
    assert forall|i: int| 0 <= i < a.len() implies a[i] == b[i] by {
        assert(id1[9 + i] == a[i]);
        assert(id2[9 + i] == b[i]);
    }
    assert(a =~= b);
    lemma_render_int_injective(ts1 as int, ts2 as int);
    assert forall|i: int| 0 <= i < 4 implies h1[i] == h2[i] by {
        assert(id1[9 + a.len() + 1 + i] == h1[i]);
        assert(id2[9 + b.len() + 1 + i] == h2[i]);
    }
    assert(h1 =~= h2);
    lemma_hex4_injective(s1, s2);
}

/// Settles which identifier a creation uses: the first whose path does not
/// already exist; when both generated identifiers collide on disk, creation
/// fails rather than guess further.
pub fn resolve_snapshot_id(
    first_id: String,
    first_exists: bool,
    second_id: String,
    second_exists: bool,
) -> (r: Result<String, EshuError>)
    ensures
        !first_exists ==> r is Ok && r->Ok_0@ == first_id@,
        first_exists && !second_exists ==> r is Ok && r->Ok_0@ == second_id@,
        first_exists && second_exists ==> r is Err,
        first_exists && second_exists ==> (r->Err_0 matches EshuError::Snapshot(m) && m@
            == "Failed to generate unique snapshot ID after retries"@),
{
    if !first_exists {
        Ok(first_id)
    } else if !second_exists {
        Ok(second_id)
    } else {
        Err(
            EshuError::Snapshot(
                String::from_str("Failed to generate unique snapshot ID after retries"),
            ),
        )
    }
}

/// Whether creation must make the snapshot directory itself: the Btrfs
/// snapshot command creates its own target.
pub fn create_requires_directory(t: SnapshotType) -> (r: bool)
    ensures
        r == (t != SnapshotType::Btrfs),
{
    match t {
        SnapshotType::Btrfs => false,
        _ => true,
    }
}

/// The metadata sidecar file name of a snapshot.
pub fn metadata_file_name(id: &str) -> (r: String)
    ensures
        r@ == id@ + ".json"@,
{
    let mut v = str_to_chars(id);
    push_lit(&mut v, ".json");
    chars_to_string(&v)
}

/// A read-only Btrfs snapshot is retried without the read-only flag exactly
/// when the failure says the source is not recognized as a subvolume.
pub fn btrfs_should_retry_writable(stderr: &str) -> (r: bool)
    ensures
        r == (spec_contains(stderr@, "not a btrfs"@) || spec_contains(
            stderr@,
            "Invalid argument"@,
        )),
{
    let v = str_to_chars(stderr);
    contains_lit(&v, "not a btrfs") || contains_lit(&v, "Invalid argument")
}

/// The name of the copy-on-write volume an LVM snapshot creates.
pub fn lvm_snapshot_volume_name(snapshot_id: &str) -> (r: String)
    ensures
        r@ == snapshot_id@ + "_lv"@,
{
    let mut v = str_to_chars(snapshot_id);
    push_lit(&mut v, "_lv");
    chars_to_string(&v)
}

/// The fixed list of critical top-level directories an Rsync snapshot copies.
pub fn rsync_backup_dirs() -> (r: Vec<String>)
    ensures
        r.deep_view() == seq![
            "/etc"@,
            "/var/lib"@,
            "/usr/local"@,
            "/opt"@,
            "/home"@,
            "/root"@,
        ],
{
    let mut r: Vec<String> = Vec::new();
    r.push(String::from_str("/etc"));
    r.push(String::from_str("/var/lib"));
    r.push(String::from_str("/usr/local"));
    r.push(String::from_str("/opt"));
    r.push(String::from_str("/home"));
    r.push(String::from_str("/root"));
    assert(r.deep_view() =~~= seq![
        "/etc"@,
        "/var/lib"@,
        "/usr/local"@,
        "/opt"@,
        "/home"@,
        "/root"@,
    ]);
    r
}

/// The exclusion patterns an Rsync snapshot passes: virtual filesystems,
/// package-manager caches, and user cache and log patterns.
pub fn rsync_exclude_patterns() -> (r: Vec<String>)
    ensures
        r.deep_view() == seq![
            "/dev"@,
            "/proc"@,
            "/sys"@,
            "/tmp"@,
            "/run"@,
            "/mnt"@,
            "/media"@,
            "/lost+found"@,
            "/var/cache/apt"@,
            "/var/cache/pacman"@,
            "/var/cache/yum"@,
            "/var/cache/dnf"@,
            "/var/tmp"@,
            ".cache"@,
            "*.log"@,
            "/home/*/.cache"@,
            "/root/.cache"@,
        ],
{
    let mut r: Vec<String> = Vec::new();
    r.push(String::from_str("/dev"));
    r.push(String::from_str("/proc"));
    r.push(String::from_str("/sys"));
    r.push(String::from_str("/tmp"));
    r.push(String::from_str("/run"));
    r.push(String::from_str("/mnt"));
    r.push(String::from_str("/media"));
    r.push(String::from_str("/lost+found"));
    r.push(String::from_str("/var/cache/apt"));
    r.push(String::from_str("/var/cache/pacman"));
    r.push(String::from_str("/var/cache/yum"));
    r.push(String::from_str("/var/cache/dnf"));
    r.push(String::from_str("/var/tmp"));
    r.push(String::from_str(".cache"));
    r.push(String::from_str("*.log"));
    r.push(String::from_str("/home/*/.cache"));
    r.push(String::from_str("/root/.cache"));
    assert(r.deep_view() =~~= seq![
        "/dev"@,
        "/proc"@,
        "/sys"@,
        "/tmp"@,
        "/run"@,
        "/mnt"@,
        "/media"@,
        "/lost+found"@,
        "/var/cache/apt"@,
        "/var/cache/pacman"@,
        "/var/cache/yum"@,
        "/var/cache/dnf"@,
        "/var/tmp"@,
        ".cache"@,
        "*.log"@,
        "/home/*/.cache"@,
        "/root/.cache"@,
    ]);
    r
}

/// What a revert request settles into before any command runs.
#[derive(Debug, Clone, Copy, PartialEq, Eq, Structural)]
pub enum RevertDecision {
    /// The snapshot's path no longer exists on disk: nothing destructive may
    /// be attempted.
    PathMissing,
    /// The operator declined confirmation.
    Cancelled,
    /// Revert proceeds, dispatched by the snapshot's backing mechanism.
    Proceed(SnapshotType),
}

/// Decides a revert request: a missing path is reported before anything else,
/// then explicit confirmation is required, and only then does the revert
/// dispatch by snapshot type.
pub fn plan_revert(snapshot: &Snapshot, path_exists: bool, confirmed: bool) -> (r: RevertDecision)
    ensures
        !path_exists ==> r == RevertDecision::PathMissing,
        path_exists && !confirmed ==> r == RevertDecision::Cancelled,
        path_exists && confirmed ==> r == RevertDecision::Proceed(snapshot.snapshot_type),
{
    if !path_exists {
        RevertDecision::PathMissing
    } else if !confirmed {
        RevertDecision::Cancelled
    } else {
        RevertDecision::Proceed(snapshot.snapshot_type)
    }
}

/// A Btrfs revert from a live system is never applied automatically: the
/// operator either opts into the Rsync copy-revert, or the call ends in a
/// manual-steps failure.
pub fn plan_btrfs_revert(use_rsync_fallback: bool) -> (r: Result<SnapshotType, EshuError>)
    ensures
        use_rsync_fallback ==> r is Ok && r->Ok_0 == SnapshotType::Rsync,
        !use_rsync_fallback ==> r is Err,
        !use_rsync_fallback ==> (r->Err_0 matches EshuError::Snapshot(m) && m@
            == "Btrfs revert requires manual steps or rsync fallback"@),
{
    if use_rsync_fallback {
        Ok(SnapshotType::Rsync)
    } else {
        Err(
            EshuError::Snapshot(
                String::from_str("Btrfs revert requires manual steps or rsync fallback"),
            ),
        )
    }
}

/// The ready-to-run recovery script a Btrfs revert emits for a rescue
/// environment: mount the top-level subvolume, set the snapshot as the
/// default subvolume, unmount and reboot.
pub fn btrfs_recovery_script(snapshot_path: &str) -> (r: String)
    ensures
        r@ == "sudo mount -o subvolid=5 /dev/sdXY /mnt\n"@ + "sudo btrfs subvolume set-default "@
            + snapshot_path@ + " /mnt\n"@ + "sudo umount /mnt && sudo reboot\n"@,
{
    let mut v: Vec<char> = Vec::new();
    push_lit(&mut v, "sudo mount -o subvolid=5 /dev/sdXY /mnt\n");
    push_lit(&mut v, "sudo btrfs subvolume set-default ");
    let p = str_to_chars(snapshot_path);
    push_chars(&mut v, &p);
    push_lit(&mut v, " /mnt\n");
    push_lit(&mut v, "sudo umount /mnt && sudo reboot\n");
    chars_to_string(&v)
}

/// The listing order: timestamps descending, most recent first.
pub open spec fn spec_sorted_desc(s: Seq<Snapshot>) -> bool {
    forall|i: int, j: int|
        0 <= i < j < s.len() ==> (#[trigger] s[i]).timestamp >= (#[trigger] s[j]).timestamp
}

/// Sorts snapshots by timestamp descending; the result is a permutation of
/// the input.
#[verifier::loop_isolation(false)]
pub fn sort_snapshots_desc(v: Vec<Snapshot>) -> (r: Vec<Snapshot>)
    ensures
        spec_sorted_desc(r@),
        r@.to_multiset() == v@.to_multiset(),
{
    broadcast use vstd::seq_lib::group_to_multiset_ensures;

    let ghost orig = v@;
    let mut src = v;
    let mut out: Vec<Snapshot> = Vec::new();
    proof {
        assert(out@.to_multiset().add(src@.to_multiset()) =~= orig.to_multiset());
    }
    while src.len() > 0
        invariant
            out@.to_multiset().add(src@.to_multiset()) == orig.to_multiset(),
            spec_sorted_desc(out@),
            forall|i: int, j: int|
                0 <= i < out@.len() && 0 <= j < src@.len() ==> (#[trigger] out@[i]).timestamp
                    >= (#[trigger] src@[j]).timestamp,
        decreases src@.len(),
    {
        let mut best: usize = 0;
        let mut j: usize = 1;
        while j < src.len()
            invariant
                0 <= best < j <= src@.len(),
                forall|k: int| 0 <= k < j ==> src@[best as int].timestamp >= #[trigger] src@[k].timestamp,
            decreases src@.len() - j,
        {
            if src[j].timestamp > src[best].timestamp {
                best = j;
            }
            j = j + 1;
        }
        let ghost pre_src = src@;
        let ghost pre_out = out@;
        let x = src.remove(best);
        out.push(x);
        proof {
            assert(src@.to_multiset() =~= pre_src.to_multiset().remove(x));
            assert(out@.to_multiset() =~= pre_out.to_multiset().insert(x));
            assert(pre_src.to_multiset().count(x) >= 1) by {
                assert(pre_src[best as int] == x);
                assert(pre_src.contains(x));
            }
            assert(out@.to_multiset().add(src@.to_multiset()) =~= pre_out.to_multiset().add(
                pre_src.to_multiset(),
            ));
            assert forall|i: int, j2: int|
                0 <= i < out@.len() && 0 <= j2 < src@.len() implies (#[trigger] out@[i]).timestamp
                >= (#[trigger] src@[j2]).timestamp by {
                if i < pre_out.len() {
                    assert(out@[i] == pre_out[i]);
                } else {
                    assert(out@[i] == x);
                }
                if j2 < best {
                    assert(src@[j2] == pre_src[j2]);
                } else {
                    assert(src@[j2] == pre_src[j2 + 1]);
                }
            }
        }
    }
    proof {
        assert(src@.to_multiset() =~= Multiset::<Snapshot>::empty());
        assert(out@.to_multiset().add(Multiset::<Snapshot>::empty()) =~= out@.to_multiset());
    }
    out
}

} // verus!
