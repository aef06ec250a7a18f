//! Distribution detection: parsing release files into (name, version, family)
//! and the pure decisions behind package-manager, init-system and bootloader
//! detection. Reading the files and probing binaries happens in the binary
//! around the library.
use vstd::prelude::*;
use crate::chars::{
    chars_to_string, lower_chars, spec_lower, spec_split_on, spec_split_ws, spec_starts_with,
    split_on, split_ws, starts_with_chars, str_eq, str_to_chars, subrange_chars, push_chars,
};
use crate::config::{DistroFamily, InitSystem, PackageManager};
use crate::error::EshuError;

verus! {

/// The value with every leading and trailing double-quote removed.
pub open spec fn spec_trim_quotes(s: Seq<char>) -> Seq<char> {
    spec_trim_trailing(spec_trim_leading(s))
}

/// Drops leading double-quotes.
pub open spec fn spec_trim_leading(s: Seq<char>) -> Seq<char>
    decreases s.len(),
{
    if s.len() > 0 && s[0] == '"' {
        spec_trim_leading(s.drop_first())
    } else {
        s
    }
}

/// Drops trailing double-quotes.
pub open spec fn spec_trim_trailing(s: Seq<char>) -> Seq<char>
    decreases s.len(),
{
    if s.len() > 0 && s.last() == '"' {
        spec_trim_trailing(s.drop_last())
    } else {
        s
    }
}

/// Removes the double-quotes that wrap a release-file value.
pub fn trim_quotes(v: &Vec<char>) -> (r: Vec<char>)
    ensures
        r@ == spec_trim_quotes(v@),
{
    let mut from: usize = 0;
    assert(v@.skip(0) =~= v@);
    while from < v.len() && v[from] == '"'
        invariant
            0 <= from <= v@.len(),
            spec_trim_leading(v@) == spec_trim_leading(v@.skip(from as int)),
        decreases v@.len() - from,
    {
        assert(v@.skip(from as int)[0] == v@[from as int]);
        assert(v@.skip(from as int).drop_first() =~= v@.skip(from as int + 1));
        from = from + 1;
    }
    let ghost lead = spec_trim_leading(v@);
    proof {
        if from < v@.len() {
            assert(v@.skip(from as int)[0] == v@[from as int]);
        }
        assert(lead == v@.skip(from as int));
    }
    let mut to: usize = v.len();
    while to > from && v[to - 1] == '"'
        invariant
            from <= to <= v@.len(),
            spec_trim_trailing(lead) == spec_trim_trailing(v@.subrange(from as int, to as int)),
        decreases to,
    {
        assert(v@.subrange(from as int, to as int).last() == v@[to - 1]);
        assert(v@.subrange(from as int, to as int).drop_last() =~= v@.subrange(
            from as int,
            to as int - 1,
        ));
        to = to - 1;
    }
    proof {
        let cur = v@.subrange(from as int, to as int);
        if to > from {
            assert(cur.last() == v@[to - 1]);
        }
        assert(spec_trim_trailing(lead) == cur);
    }
    subrange_chars(v, from, to)
}

/// The value of the last line carrying the given prefix, quotes trimmed;
/// empty when no line carries it.
pub open spec fn spec_os_field(lines: Seq<Seq<char>>, prefix: Seq<char>) -> Seq<char>
    decreases lines.len(),
{
    if lines.len() == 0 {
        Seq::<char>::empty()
    } else if spec_starts_with(lines.last(), prefix) {
        spec_trim_quotes(lines.last().skip(prefix.len() as int))
    } else {
        spec_os_field(lines.drop_last(), prefix)
    }
}

/// The family a release identifier names. `Other` keeps the identifier as
/// it appeared.
pub open spec fn spec_family_matches_id(f: DistroFamily, id: Seq<char>) -> bool {
    let low = spec_lower(id);
    if low == "arch"@ || low == "manjaro"@ || low == "endeavouros"@ || low == "garuda"@ {
        f == DistroFamily::Arch
    } else if low == "ubuntu"@ || low == "debian"@ || low == "linuxmint"@ || low == "pop"@ || low
        == "elementary"@ {
        f == DistroFamily::Debian
    } else if low == "fedora"@ || low == "rhel"@ || low == "centos"@ || low == "rocky"@ || low
        == "almalinux"@ {
        f == DistroFamily::RedHat
    } else if low == "opensuse"@ || low == "sles"@ {
        f == DistroFamily::Suse
    } else if low == "gentoo"@ {
        f == DistroFamily::Gentoo
    } else if low == "alpine"@ {
        f == DistroFamily::Alpine
    } else if low == "void"@ {
        f == DistroFamily::Void
    } else if low == "nixos"@ {
        f == DistroFamily::NixOS
    } else {
        f matches DistroFamily::Other(s) && s@ == id
    }
}

/// Classifies a release identifier into its distribution family.
pub fn family_from_id(id: &str) -> (r: DistroFamily)
    ensures
        spec_family_matches_id(r, id@),
{
    let idc = str_to_chars(id);
    let lowv = lower_chars(&idc);
    let low = chars_to_string(&lowv);
    let l = low.as_str();
    if str_eq(l, "arch") || str_eq(l, "manjaro") || str_eq(l, "endeavouros") || str_eq(
        l,
        "garuda",
    ) {
        DistroFamily::Arch
    } else if str_eq(l, "ubuntu") || str_eq(l, "debian") || str_eq(l, "linuxmint") || str_eq(
        l,
        "pop",
    ) || str_eq(l, "elementary") {
        DistroFamily::Debian
    } else if str_eq(l, "fedora") || str_eq(l, "rhel") || str_eq(l, "centos") || str_eq(
        l,
        "rocky",
    ) || str_eq(l, "almalinux") {
        DistroFamily::RedHat
    } else if str_eq(l, "opensuse") || str_eq(l, "sles") {
        DistroFamily::Suse
    } else if str_eq(l, "gentoo") {
        DistroFamily::Gentoo
    } else if str_eq(l, "alpine") {
        DistroFamily::Alpine
    } else if str_eq(l, "void") {
        DistroFamily::Void
    } else if str_eq(l, "nixos") {
        DistroFamily::NixOS
    } else {
        DistroFamily::Other(String::from_str(id))
    }
}

/// Reads one prefixed field out of the lines of a release file.
#[verifier::loop_isolation(false)]
fn os_field(lines: &Vec<Vec<char>>, prefix: &str) -> (r: Vec<char>)
    ensures
        r@ == spec_os_field(lines.deep_view(), prefix@),
{
    let p = str_to_chars(prefix);
    let mut cur: Vec<char> = Vec::new();
    proof {
        assert(lines.deep_view().take(0) =~= Seq::<Seq<char>>::empty());
    }
    let mut i: usize = 0;
    while i < lines.len()
        invariant
            0 <= i <= lines@.len(),
            p@ == prefix@,
            cur@ == spec_os_field(lines.deep_view().take(i as int), prefix@),
        decreases lines@.len() - i,
    {
        proof {
            assert(lines.deep_view().take(i as int + 1).drop_last() =~= lines.deep_view().take(
                i as int,
            ));
            assert(lines.deep_view().take(i as int + 1).last() == lines.deep_view()[i as int]);
            assert(lines@[i as int]@ =~~= lines.deep_view()[i as int]);
        }
        if starts_with_chars(&lines[i], &p) {
            let rest = subrange_chars(&lines[i], p.len(), lines[i].len());
            assert(rest@ =~= lines.deep_view()[i as int].skip(prefix@.len() as int));
            cur = trim_quotes(&rest);
        }
        i = i + 1;
    }
    proof {
        assert(lines.deep_view().take(lines@.len() as int) =~= lines.deep_view());
    }
    cur
}

/// Parses an os-release file: the name, the version identifier, and the
/// family the `ID` field names. Fails when no distribution name is present.
pub fn parse_os_release(content: &str) -> (r: Result<(String, String, DistroFamily), EshuError>)
    ensures
        ({
            let lines = spec_split_on(content@, '\n');
            let name = spec_os_field(lines, "NAME="@);
            let version = spec_os_field(lines, "VERSION_ID="@);
            let id = spec_os_field(lines, "ID="@);
            if name.len() == 0 {
                r is Err && (r->Err_0 matches EshuError::UnsupportedDistro(m) && m@
                    == "Could not parse distribution name"@)
            } else {
                r is Ok && r->Ok_0.0@ == name && r->Ok_0.1@ == version
                    && spec_family_matches_id(r->Ok_0.2, id)
            }
        }),
{
    let v = str_to_chars(content);
    let lines = split_on(&v, '\n');
    let name = os_field(&lines, "NAME=");
    let version = os_field(&lines, "VERSION_ID=");
    let id = os_field(&lines, "ID=");
    if name.len() == 0 {
        return Err(
            EshuError::UnsupportedDistro(String::from_str("Could not parse distribution name")),
        );
    }
    let ids = chars_to_string(&id);
    let family = family_from_id(ids.as_str());
    Ok((chars_to_string(&name), chars_to_string(&version), family))
}

/// The family an lsb-release distributor name falls in.
pub open spec fn spec_lsb_family_matches(f: DistroFamily, name: Seq<char>) -> bool {
    let low = spec_lower(name);
    if low == "arch"@ {
        f == DistroFamily::Arch
    } else if low == "ubuntu"@ || low == "debian"@ {
        f == DistroFamily::Debian
    } else if low == "fedora"@ || low == "redhat"@ {
        f == DistroFamily::RedHat
    } else {
        f matches DistroFamily::Other(s) && s@ == name
    }
}

/// Parses an lsb-release file into the name, release and family.
pub fn parse_lsb_release(content: &str) -> (r: Result<(String, String, DistroFamily), EshuError>)
    ensures
        r is Ok,
        ({
            let lines = spec_split_on(content@, '\n');
            let name = spec_os_field(lines, "DISTRIB_ID="@);
            let version = spec_os_field(lines, "DISTRIB_RELEASE="@);
            r->Ok_0.0@ == name && r->Ok_0.1@ == version && spec_lsb_family_matches(
                r->Ok_0.2,
                name,
            )
        }),
{
    let v = str_to_chars(content);
    let lines = split_on(&v, '\n');
    let name = os_field(&lines, "DISTRIB_ID=");
    let version = os_field(&lines, "DISTRIB_RELEASE=");
    let lowv = lower_chars(&name);
    let low = chars_to_string(&lowv);
    let l = low.as_str();
    let names = chars_to_string(&name);
    let family = if str_eq(l, "arch") {
        DistroFamily::Arch
    } else if str_eq(l, "ubuntu") || str_eq(l, "debian") {
        DistroFamily::Debian
    } else if str_eq(l, "fedora") || str_eq(l, "redhat") {
        DistroFamily::RedHat
    } else {
        DistroFamily::Other(names.clone())
    };
    Ok((names, chars_to_string(&version), family))
}

/// The words joined with single spaces.
pub open spec fn spec_join_ws(ss: Seq<Seq<char>>) -> Seq<char>
    decreases ss.len(),
{
    if ss.len() == 0 {
        Seq::<char>::empty()
    } else if ss.len() == 1 {
        ss[0]
    } else {
        spec_join_ws(ss.drop_last()) + seq![' '] + ss.last()
    }
}

/// The index of the first word equal to `tok`, if any.
pub open spec fn spec_first_eq(ss: Seq<Seq<char>>, tok: Seq<char>) -> Option<int>
    decreases ss.len(),
{
    if ss.len() == 0 {
        None
    } else if ss[0] == tok {
        Some(0)
    } else {
        match spec_first_eq(ss.drop_first(), tok) {
            Some(i) => Some(i + 1),
            None => None,
        }
    }
}

/// Parses a redhat-release line: the words before `release` form the name,
/// the word after it the version (`unknown` when absent); the family is
/// RedHat.
#[verifier::loop_isolation(false)]
pub fn parse_redhat_release(content: &str) -> (r: Result<(String, String, DistroFamily), EshuError>)
    ensures
        r is Ok,
        ({
            let parts = spec_split_ws(content@);
            let cut = match spec_first_eq(parts, "release"@) {
                Some(i) => i,
                None => parts.len() as int,
            };
            &&& r->Ok_0.0@ == spec_join_ws(parts.take(cut))
            &&& (match spec_first_eq(parts, "release"@) {
                Some(i) => if i + 1 < parts.len() {
                    r->Ok_0.1@ == parts[i + 1]
                } else {
                    r->Ok_0.1@ == "unknown"@
                },
                None => r->Ok_0.1@ == "unknown"@,
            })
            &&& r->Ok_0.2 == DistroFamily::RedHat
        }),
{
    let v = str_to_chars(content);
    let parts = split_ws(&v);
    let ghost sparts = spec_split_ws(content@);
    let rel = str_to_chars("release");
    let mut cut: usize = parts.len();
    let mut k: usize = 0;
    proof {
        assert(sparts.skip(0) =~= sparts);
    }
    let mut found: bool = false;
    while k < parts.len() && !found
        invariant
            0 <= k <= sparts.len(),
            parts.deep_view() == sparts,
            rel@ == "release"@,
            found ==> (spec_first_eq(sparts, "release"@) == Some(k as int - 1) && cut == k - 1),
            !found ==> (spec_first_eq(sparts, "release"@) == match spec_first_eq(
                sparts.skip(k as int),
                "release"@,
            ) {
                Some(i) => Some(i + k),
                None => None::<int>,
            } && cut == parts@.len()),
        decreases sparts.len() - k,
    {
        proof {
            assert(sparts.skip(k as int)[0] == sparts[k as int]);
            assert(sparts.skip(k as int).drop_first() =~= sparts.skip(k as int + 1));
            assert(parts@[k as int]@ =~~= sparts[k as int]);
        }
        let mut eq = false;
        if parts[k].len() == rel.len() {
            eq = starts_with_chars(&parts[k], &rel);
            proof {
                if parts@[k as int]@.subrange(0, rel@.len() as int) == rel@ {
                    assert(parts@[k as int]@ =~= rel@);
                }
                if parts@[k as int]@ == rel@ {
                    assert(parts@[k as int]@.subrange(0, rel@.len() as int) =~= rel@);
                }
            }
        }
        assert(eq == (sparts[k as int] == "release"@));
        if eq {
            cut = k;
            found = true;
        }
        k = k + 1;
    }
    proof {
        if !found {
            assert(sparts.skip(sparts.len() as int) =~= Seq::<Seq<char>>::empty());
        }
    }
    let ghost scut = match spec_first_eq(sparts, "release"@) {
        Some(i) => i,
        None => sparts.len() as int,
    };
    assert(cut == scut);
    let mut name: Vec<char> = Vec::new();
    proof {
        assert(sparts.take(0) =~= Seq::<Seq<char>>::empty());
    }
    let mut i: usize = 0;
    while i < cut
        invariant
            0 <= i <= cut <= sparts.len(),
            parts.deep_view() == sparts,
            name@ == spec_join_ws(sparts.take(i as int)),
        decreases cut - i,
    {
        proof {
            assert(sparts.take(i as int + 1).drop_last() =~= sparts.take(i as int));
            assert(sparts.take(i as int + 1).last() == sparts[i as int]);
            assert(parts@[i as int]@ =~~= sparts[i as int]);
        }
        if i > 0 {
            name.push(' ');
        }
        let w = subrange_chars(&parts[i], 0, parts[i].len());
        assert(w@ =~= sparts[i as int]);
        push_chars(&mut name, &w);
        proof {
            if i == 0 {
                assert(spec_join_ws(sparts.take(1)) == sparts.take(1)[0]);
            }
        }
        i = i + 1;
    }
    let version: String = if found && cut + 1 < parts.len() {
        proof {
            assert(parts@[cut as int + 1]@ =~~= sparts[cut as int + 1]);
        }
        let w = subrange_chars(&parts[cut + 1], 0, parts[cut + 1].len());
        chars_to_string(&w)
    } else {
        String::from_str("unknown")
    };
    Ok((chars_to_string(&name), version, DistroFamily::RedHat))
}

/// The init system the filesystem probes name: systemd's runtime directory
/// wins, then OpenRC beside init.d, then runit; otherwise unknown.
pub fn detect_init_system(
    systemd_present: bool,
    initd_present: bool,
    openrc_present: bool,
    runit_present: bool,
) -> (r: InitSystem)
    ensures
        systemd_present ==> r == InitSystem::Systemd,
        !systemd_present && initd_present && openrc_present ==> r == InitSystem::OpenRC,
        !systemd_present && !(initd_present && openrc_present) && runit_present ==> r
            == InitSystem::Runit,
        !systemd_present && !(initd_present && openrc_present) && !runit_present ==> (
        r matches InitSystem::Other(s) && s@ == "unknown"@),
{
    if systemd_present {
        InitSystem::Systemd
    } else if initd_present && openrc_present {
        InitSystem::OpenRC
    } else if runit_present {
        InitSystem::Runit
    } else {
        InitSystem::Other(String::from_str("unknown"))
    }
}

/// The bootloader the filesystem probes name: GRUB, then systemd-boot, then
/// SYSLINUX; otherwise unknown.
pub fn detect_bootloader(grub_present: bool, sdboot_present: bool, syslinux_present: bool) -> (r:
    String)
    ensures
        grub_present ==> r@ == "GRUB"@,
        !grub_present && sdboot_present ==> r@ == "systemd-boot"@,
        !grub_present && !sdboot_present && syslinux_present ==> r@ == "SYSLINUX"@,
        !grub_present && !sdboot_present && !syslinux_present ==> r@ == "unknown"@,
{
    if grub_present {
        String::from_str("GRUB")
    } else if sdboot_present {
        String::from_str("systemd-boot")
    } else if syslinux_present {
        String::from_str("SYSLINUX")
    } else {
        String::from_str("unknown")
    }
}

/// The descriptor of a supported package manager is exactly this.
pub open spec fn spec_pm_is(
    pm: PackageManager,
    n: Seq<char>,
    ic: Seq<char>,
    rc: Seq<char>,
    uc: Seq<char>,
    sc: Seq<char>,
    lc: Seq<char>,
) -> bool {
    pm.name@ == n && pm.install_cmd@ == ic && pm.remove_cmd@ == rc && pm.update_cmd@ == uc
        && pm.search_cmd@ == sc && pm.list_installed_cmd@ == lc
}

/// The command descriptor of a package manager the engine supports; `None`
/// for any other name.
pub fn package_manager_profile(name: &str) -> (r: Option<PackageManager>)
    ensures
        name@ == "pacman"@ ==> r is Some && spec_pm_is(
            r->0,
            "pacman"@,
            "pacman -S --noconfirm"@,
            "pacman -R --noconfirm"@,
            "pacman -Syu --noconfirm"@,
            "pacman -Ss"@,
            "pacman -Q"@,
        ),
        name@ == "apt"@ ==> r is Some && spec_pm_is(
            r->0,
            "apt"@,
            "apt install -y"@,
            "apt remove -y"@,
            "apt update && apt upgrade -y"@,
            "apt search"@,
            "dpkg -l"@,
        ),
        name@ == "dnf"@ ==> r is Some && spec_pm_is(
            r->0,
            "dnf"@,
            "dnf install -y"@,
            "dnf remove -y"@,
            "dnf upgrade -y"@,
            "dnf search"@,
            "dnf list installed"@,
        ),
        name@ == "zypper"@ ==> r is Some && spec_pm_is(
            r->0,
            "zypper"@,
            "zypper install -y"@,
            "zypper remove -y"@,
            "zypper update -y"@,
            "zypper search"@,
            "zypper packages --installed-only"@,
        ),
        name@ != "pacman"@ && name@ != "apt"@ && name@ != "dnf"@ && name@ != "zypper"@ ==> r
            is None,
{
    proof {
        reveal_strlit("pacman");
        reveal_strlit("apt");
        reveal_strlit("dnf");
        reveal_strlit("zypper");
        assert("pacman"@.len() != "apt"@.len() && "pacman"@ != "apt"@);
        assert("pacman"@.len() != "dnf"@.len() && "pacman"@ != "dnf"@);
        assert("pacman"@[0] != "zypper"@[0] && "pacman"@ != "zypper"@);
        assert("apt"@[0] != "dnf"@[0] && "apt"@ != "dnf"@);
        assert("apt"@.len() != "zypper"@.len() && "apt"@ != "zypper"@);
        assert("dnf"@.len() != "zypper"@.len() && "dnf"@ != "zypper"@);
    }
    if str_eq(name, "pacman") {
        Some(
            PackageManager {
                name: String::from_str("pacman"),
                install_cmd: String::from_str("pacman -S --noconfirm"),
                remove_cmd: String::from_str("pacman -R --noconfirm"),
                update_cmd: String::from_str("pacman -Syu --noconfirm"),
                search_cmd: String::from_str("pacman -Ss"),
                list_installed_cmd: String::from_str("pacman -Q"),
            },
        )
    } else if str_eq(name, "apt") {
        Some(
            PackageManager {
                name: String::from_str("apt"),
                install_cmd: String::from_str("apt install -y"),
                remove_cmd: String::from_str("apt remove -y"),
                update_cmd: String::from_str("apt update && apt upgrade -y"),
                search_cmd: String::from_str("apt search"),
                list_installed_cmd: String::from_str("dpkg -l"),
            },
        )
    } else if str_eq(name, "dnf") {
        Some(
            PackageManager {
                name: String::from_str("dnf"),
                install_cmd: String::from_str("dnf install -y"),
                remove_cmd: String::from_str("dnf remove -y"),
                update_cmd: String::from_str("dnf upgrade -y"),
                search_cmd: String::from_str("dnf search"),
                list_installed_cmd: String::from_str("dnf list installed"),
            },
        )
    } else if str_eq(name, "zypper") {
        Some(
            PackageManager {
                name: String::from_str("zypper"),
                install_cmd: String::from_str("zypper install -y"),
                remove_cmd: String::from_str("zypper remove -y"),
                update_cmd: String::from_str("zypper update -y"),
                search_cmd: String::from_str("zypper search"),
                list_installed_cmd: String::from_str("zypper packages --installed-only"),
            },
        )
    } else {
        None
    }
}

/// The order in which package managers are probed for.
pub fn package_manager_candidates() -> (r: Vec<String>)
    ensures
        r.deep_view() == seq!["pacman"@, "apt"@, "dnf"@, "zypper"@],
{
    let mut r: Vec<String> = Vec::new();
    r.push(String::from_str("pacman"));
    r.push(String::from_str("apt"));
    r.push(String::from_str("dnf"));
    r.push(String::from_str("zypper"));
    assert(r.deep_view() =~~= seq!["pacman"@, "apt"@, "dnf"@, "zypper"@]);
    r
}

} // verus!
