//! Parsing the scanner's raw material: package-manager listings, service
//! unit-file listings, and the account database. Running the commands and
//! reading the files is the binary's work; the parsing is verified here.
use vstd::prelude::*;
use crate::chars::{
    chars_to_string, spec_split_on, spec_split_ws, spec_starts_with, split_on, split_ws,
    starts_with_chars, str_to_chars, subrange_chars, push_chars, str_eq,
};
use crate::config::{InstalledPackage, Service, User};
use crate::distro::spec_join_ws;
use crate::numfmt::{parse_dec_u64, spec_parse_u64};

verus! {

/// Spec image of an installed package: name, version, optional description.
pub ghost struct PackageLine {
    pub name: Seq<char>,
    pub version: Seq<char>,
    pub description: Option<Seq<char>>,
}

/// The packages a parsed listing holds, as spec values.
pub open spec fn spec_packages_view(v: Seq<InstalledPackage>) -> Seq<PackageLine> {
    v.map_values(
        |p: InstalledPackage|
            PackageLine {
                name: p.name@,
                version: p.version@,
                description: match p.description {
                    Some(d) => Some(d@),
                    None => None,
                },
            },
    )
}

/// What one line of a pacman listing contributes: `name version`.
pub open spec fn spec_pacman_line(line: Seq<char>) -> Seq<PackageLine> {
    let parts = spec_split_ws(line);
    if parts.len() >= 2 {
        seq![PackageLine { name: parts[0], version: parts[1], description: None }]
    } else {
        Seq::<PackageLine>::empty()
    }
}

/// What one line of a dpkg listing contributes: installed rows begin with
/// `ii`; the remaining tokens beyond the version join into the description.
pub open spec fn spec_apt_line(line: Seq<char>) -> Seq<PackageLine> {
    let parts = spec_split_ws(line);
    if spec_starts_with(line, "ii"@) && parts.len() >= 3 {
        seq![
            PackageLine {
                name: parts[1],
                version: parts[2],
                description: Some(spec_join_ws(parts.skip(3))),
            },
        ]
    } else {
        Seq::<PackageLine>::empty()
    }
}

/// What one line of a dnf listing contributes: the name is the token before
/// its architecture dot; header lines are skipped.
pub open spec fn spec_dnf_line(line: Seq<char>) -> Seq<PackageLine> {
    let parts = spec_split_ws(line);
    if parts.len() >= 2 && !spec_starts_with(line, "Installed"@) {
        seq![
            PackageLine {
                name: spec_split_on(parts[0], '.')[0],
                version: parts[1],
                description: None,
            },
        ]
    } else {
        Seq::<PackageLine>::empty()
    }
}

/// The packages of a listing, line by line, per manager.
pub open spec fn spec_parse_packages(manager: Seq<char>, lines: Seq<Seq<char>>) -> Seq<PackageLine>
    decreases lines.len(),
{
    if lines.len() == 0 {
        Seq::<PackageLine>::empty()
    } else {
        spec_parse_packages(manager, lines.drop_last()) + (if manager == "pacman"@ {
            spec_pacman_line(lines.last())
        } else if manager == "apt"@ {
            spec_apt_line(lines.last())
        } else if manager == "dnf"@ {
            spec_dnf_line(lines.last())
        } else {
            Seq::<PackageLine>::empty()
        })
    }
}

/// Joins tokens with single spaces.
#[verifier::loop_isolation(false)]
fn join_tokens(parts: &Vec<Vec<char>>, from: usize) -> (r: Vec<char>)
    requires
        from <= parts@.len(),
    ensures
        r@ == spec_join_ws(parts.deep_view().skip(from as int)),
{
    let ghost toks = parts.deep_view().skip(from as int);
    let mut out: Vec<char> = Vec::new();
    proof {
        assert(toks.take(0) =~= Seq::<Seq<char>>::empty());
    }
    let mut i: usize = from;
    while i < parts.len()
        invariant
            from <= i <= parts@.len(),
            toks == parts.deep_view().skip(from as int),
            out@ == spec_join_ws(toks.take(i - from)),
        decreases parts@.len() - i,
    {
        proof {
            assert(toks.take(i - from + 1).drop_last() =~= toks.take(i - from));
            assert(toks.take(i - from + 1).last() == toks[i - from]);
            assert(toks[i - from] == parts.deep_view()[i as int]);
            assert(parts@[i as int]@ =~~= parts.deep_view()[i as int]);
        }
        if i > from {
            out.push(' ');
        }
        let w = subrange_chars(&parts[i], 0, parts[i].len());
        assert(w@ =~= toks[i - from]);
        push_chars(&mut out, &w);
        proof {
            if i == from {
                assert(spec_join_ws(toks.take(1)) == toks.take(1)[0]);
            }
        }
        i = i + 1;
    }
    proof {
        assert(toks.take(parts@.len() - from) =~= toks);
    }
    out
}

/// Parses the output of a package manager's installed listing into the
/// installed-package records. Managers other than the three supported ones
/// yield an empty listing.
#[verifier::loop_isolation(false)]
pub fn parse_installed_packages(manager: &str, output: &str) -> (r: Vec<InstalledPackage>)
    ensures
        spec_packages_view(r@) == spec_parse_packages(manager@, spec_split_on(output@, '\n')),
{
    let v = str_to_chars(output);
    let lines = split_on(&v, '\n');
    let ghost slines = spec_split_on(output@, '\n');
    let is_pacman = str_eq(manager, "pacman");
    let is_apt = str_eq(manager, "apt");
    let is_dnf = str_eq(manager, "dnf");
    let mut out: Vec<InstalledPackage> = Vec::new();
    proof {
        assert(slines.take(0) =~= Seq::<Seq<char>>::empty());
        assert(spec_packages_view(out@) =~= spec_parse_packages(manager@, slines.take(0)));
    }
    let mut i: usize = 0;
    while i < lines.len()
        invariant
            0 <= i <= slines.len(),
            lines.deep_view() == slines,
            is_pacman == (manager@ == "pacman"@),
            is_apt == (manager@ == "apt"@),
            is_dnf == (manager@ == "dnf"@),
            spec_packages_view(out@) == spec_parse_packages(manager@, slines.take(i as int)),
        decreases slines.len() - i,
    {
        proof {
            assert(slines.take(i as int + 1).drop_last() =~= slines.take(i as int));
            assert(slines.take(i as int + 1).last() == slines[i as int]);
            assert(lines@[i as int]@ =~~= slines[i as int]);
        }
        let line = &lines[i];
        let ghost old_view = spec_packages_view(out@);
        if is_pacman {
            let parts = split_ws(line);
            if parts.len() >= 2 {
                proof {
                    assert(parts@[0]@ =~~= parts.deep_view()[0]);
                    assert(parts@[1]@ =~~= parts.deep_view()[1]);
                }
                let p = InstalledPackage {
                    name: chars_to_string(&parts[0]),
                    version: chars_to_string(&parts[1]),
                    description: None,
                    dependencies: Vec::new(),
                };
                let ghost pv = PackageLine {
                    name: p.name@,
                    version: p.version@,
                    description: None,
                };
                out.push(p);
                proof {
                    assert(spec_packages_view(out@) =~= old_view + seq![pv]);
                    assert(spec_packages_view(out@) =~= spec_parse_packages(
                        manager@,
                        slines.take(i as int + 1),
                    ));
                }
            } else {
                assert(spec_packages_view(out@) =~= spec_parse_packages(
                    manager@,
                    slines.take(i as int + 1),
                ));
            }
        } else if is_apt {
            let ii = str_to_chars("ii");
            let parts = split_ws(line);
            if starts_with_chars(line, &ii) && parts.len() >= 3 {
                proof {
                    assert(parts@[1]@ =~~= parts.deep_view()[1]);
                    assert(parts@[2]@ =~~= parts.deep_view()[2]);
                }
                let desc = join_tokens(&parts, 3);
                let p = InstalledPackage {
                    name: chars_to_string(&parts[1]),
                    version: chars_to_string(&parts[2]),
                    description: Some(chars_to_string(&desc)),
                    dependencies: Vec::new(),
                };
                let ghost pv = PackageLine {
                    name: p.name@,
                    version: p.version@,
                    description: Some(desc@),
                };
                out.push(p);
                proof {
                    assert(spec_packages_view(out@) =~= old_view + seq![pv]);
                    assert(spec_packages_view(out@) =~= spec_parse_packages(
                        manager@,
                        slines.take(i as int + 1),
                    ));
                }
            } else {
                assert(spec_packages_view(out@) =~= spec_parse_packages(
                    manager@,
                    slines.take(i as int + 1),
                ));
            }
        } else if is_dnf {
            let hdr = str_to_chars("Installed");
            let parts = split_ws(line);
            if parts.len() >= 2 && !starts_with_chars(line, &hdr) {
                proof {
                    assert(parts@[0]@ =~~= parts.deep_view()[0]);
                    assert(parts@[1]@ =~~= parts.deep_view()[1]);
                }
                let name_arch = split_on(&parts[0], '.');
                proof {
                    crate::chars::lemma_split_on_len(parts.deep_view()[0], '.');
                    assert(name_arch@[0]@ =~~= name_arch.deep_view()[0]);
                }
                let p = InstalledPackage {
                    name: chars_to_string(&name_arch[0]),
                    version: chars_to_string(&parts[1]),
                    description: None,
                    dependencies: Vec::new(),
                };
                let ghost pv = PackageLine {
                    name: p.name@,
                    version: p.version@,
                    description: None,
                };
                out.push(p);
                proof {
                    assert(spec_packages_view(out@) =~= old_view + seq![pv]);
                    assert(spec_packages_view(out@) =~= spec_parse_packages(
                        manager@,
                        slines.take(i as int + 1),
                    ));
                }
            } else {
                assert(spec_packages_view(out@) =~= spec_parse_packages(
                    manager@,
                    slines.take(i as int + 1),
                ));
            }
        } else {
            assert(spec_packages_view(out@) =~= spec_parse_packages(
                manager@,
                slines.take(i as int + 1),
            ));
        }
        i = i + 1;
    }
    proof {
        assert(slines.take(slines.len() as int) =~= slines);
    }
    out
}

/// A numeric account identifier: an unparsable or out-of-range field reads
/// as zero.
pub open spec fn spec_parse_uid(s: Seq<char>) -> u32 {
    match spec_parse_u64(s) {
        Some(v) => if v <= u32::MAX as u64 {
            v as u32
        } else {
            0
        },
        None => 0,
    }
}

/// Reads an account identifier field.
pub fn parse_uid(v: &Vec<char>) -> (r: u32)
    ensures
        r == spec_parse_uid(v@),
{
    match parse_dec_u64(v) {
        Some(n) => {
            if n <= u32::MAX as u64 {
                n as u32
            } else {
                0
            }
        },
        None => 0,
    }
}

/// Spec image of an account record.
pub ghost struct UserLine {
    pub name: Seq<char>,
    pub uid: u32,
    pub gid: u32,
    pub home: Seq<char>,
    pub shell: Seq<char>,
}

/// The users a parsed database holds, as spec values.
pub open spec fn spec_users_view(v: Seq<User>) -> Seq<UserLine> {
    v.map_values(
        |u: User| UserLine { name: u.name@, uid: u.uid, gid: u.gid, home: u.home@, shell: u.shell@ },
    )
}

/// What one account line contributes: seven colon-separated fields, kept only
/// for regular users and root.
pub open spec fn spec_passwd_line(line: Seq<char>) -> Seq<UserLine> {
    let f = spec_split_on(line, ':');
    if f.len() >= 7 {
        let uid = spec_parse_uid(f[2]);
        if uid >= 1000 || uid == 0 {
            seq![
                UserLine {
                    name: f[0],
                    uid: uid,
                    gid: spec_parse_uid(f[3]),
                    home: f[5],
                    shell: f[6],
                },
            ]
        } else {
            Seq::<UserLine>::empty()
        }
    } else {
        Seq::<UserLine>::empty()
    }
}

/// The account records of the database, line by line.
pub open spec fn spec_parse_passwd(lines: Seq<Seq<char>>) -> Seq<UserLine>
    decreases lines.len(),
{
    if lines.len() == 0 {
        Seq::<UserLine>::empty()
    } else {
        spec_parse_passwd(lines.drop_last()) + spec_passwd_line(lines.last())
    }
}

/// Parses the account database, keeping regular users and root.
#[verifier::loop_isolation(false)]
pub fn parse_passwd(content: &str) -> (r: Vec<User>)
    ensures
        spec_users_view(r@) == spec_parse_passwd(spec_split_on(content@, '\n')),
{
    let v = str_to_chars(content);
    let lines = split_on(&v, '\n');
    let ghost slines = spec_split_on(content@, '\n');
    let mut out: Vec<User> = Vec::new();
    proof {
        assert(slines.take(0) =~= Seq::<Seq<char>>::empty());
        assert(spec_users_view(out@) =~= spec_parse_passwd(slines.take(0)));
    }
    let mut i: usize = 0;
    while i < lines.len()
        invariant
            0 <= i <= slines.len(),
            lines.deep_view() == slines,
            spec_users_view(out@) == spec_parse_passwd(slines.take(i as int)),
        decreases slines.len() - i,
    {
        proof {
            assert(slines.take(i as int + 1).drop_last() =~= slines.take(i as int));
            assert(slines.take(i as int + 1).last() == slines[i as int]);
            assert(lines@[i as int]@ =~~= slines[i as int]);
        }
        let ghost old_view = spec_users_view(out@);
        let f = split_on(&lines[i], ':');
        if f.len() >= 7 {
            proof {
                assert(f@[0]@ =~~= f.deep_view()[0]);
                assert(f@[2]@ =~~= f.deep_view()[2]);
                assert(f@[3]@ =~~= f.deep_view()[3]);
                assert(f@[5]@ =~~= f.deep_view()[5]);
                assert(f@[6]@ =~~= f.deep_view()[6]);
            }
            let uid = parse_uid(&f[2]);
            if uid >= 1000 || uid == 0 {
                let u = User {
                    name: chars_to_string(&f[0]),
                    uid,
                    gid: parse_uid(&f[3]),
                    home: chars_to_string(&f[5]),
                    shell: chars_to_string(&f[6]),
                };
                let ghost uv = UserLine {
                    name: u.name@,
                    uid: u.uid,
                    gid: u.gid,
                    home: u.home@,
                    shell: u.shell@,
                };
                out.push(u);
                proof {
                    assert(spec_users_view(out@) =~= old_view + seq![uv]);
                    assert(spec_users_view(out@) =~= spec_parse_passwd(slines.take(i as int + 1)));
                }
            } else {
                assert(spec_users_view(out@) =~= spec_parse_passwd(slines.take(i as int + 1)));
            }
        } else {
            assert(spec_users_view(out@) =~= spec_parse_passwd(slines.take(i as int + 1)));
        }
        i = i + 1;
    }
    proof {
        assert(slines.take(slines.len() as int) =~= slines);
    }
    out
}

/// The unit name with every trailing `.service` suffix removed.
pub open spec fn spec_trim_service_suffix(s: Seq<char>) -> Seq<char>
    decreases s.len(),
{
    if spec_ends_with_service(s) {
        spec_trim_service_suffix(s.take(s.len() - 8))
    } else {
        s
    }
}

/// The name ends with the `.service` suffix.
pub open spec fn spec_ends_with_service(s: Seq<char>) -> bool {
    s.len() >= 8 && s.subrange(s.len() - 8, s.len() as int) == ".service"@
}

/// Removes trailing `.service` suffixes from a unit name.
pub fn trim_service_suffix(v: &Vec<char>) -> (r: Vec<char>)
    ensures
        r@ == spec_trim_service_suffix(v@),
    decreases v@.len(),
{
    proof {
        reveal_strlit(".service");
    }
    let suffix = str_to_chars(".service");
    if crate::chars::ends_with_chars(v, &suffix) {
        let shorter = subrange_chars(v, 0, v.len() - 8);
        assert(shorter@ =~= v@.take(v@.len() - 8));
        trim_service_suffix(&shorter)
    } else {
        subrange_chars(v, 0, v.len())
    }
}

/// Spec image of a service record as the unit listing yields it: whether the
/// service runs is probed separately.
pub ghost struct ServiceLine {
    pub name: Seq<char>,
    pub enabled: bool,
}

/// The services a parsed listing holds, as spec values; the running flag is
/// not part of the listing.
pub open spec fn spec_services_view(v: Seq<Service>) -> Seq<ServiceLine> {
    v.map_values(|s: Service| ServiceLine { name: s.name@, enabled: s.enabled })
}

/// What one unit-file line contributes: the unit name without its suffix and
/// whether it is enabled; the header line is dropped.
pub open spec fn spec_unit_line(line: Seq<char>) -> Seq<ServiceLine> {
    let parts = spec_split_ws(line);
    if parts.len() >= 2 {
        seq![
            ServiceLine {
                name: spec_trim_service_suffix(parts[0]),
                enabled: parts[1] == "enabled"@,
            },
        ]
    } else {
        Seq::<ServiceLine>::empty()
    }
}

/// The services of a unit-file listing: every line after the header.
pub open spec fn spec_parse_unit_files(lines: Seq<Seq<char>>) -> Seq<ServiceLine>
    decreases lines.len(),
{
    if lines.len() <= 1 {
        Seq::<ServiceLine>::empty()
    } else {
        spec_parse_unit_files(lines.drop_last()) + spec_unit_line(lines.last())
    }
}

/// Parses a systemd unit-file listing into service records; the running flag
/// is left off for the caller to probe per service.
#[verifier::loop_isolation(false)]
pub fn parse_unit_files(output: &str) -> (r: Vec<Service>)
    ensures
        spec_services_view(r@) == spec_parse_unit_files(spec_split_on(output@, '\n')),
{
    let v = str_to_chars(output);
    let lines = split_on(&v, '\n');
    let ghost slines = spec_split_on(output@, '\n');
    let mut out: Vec<Service> = Vec::new();
    proof {
        assert(slines.take(1) =~= if slines.len() >= 1 {
            seq![slines[0]]
        } else {
            slines
        });
        assert(spec_services_view(out@) =~= spec_parse_unit_files(slines.take(1)));
    }
    let mut i: usize = 1;
    while i < lines.len()
        invariant
            1 <= i,
            i <= slines.len() || i == 1,
            lines.deep_view() == slines,
            spec_services_view(out@) == spec_parse_unit_files(
                slines.take(if i <= slines.len() {
                    i as int
                } else {
                    slines.len() as int
                }),
            ),
        decreases slines.len() - i,
    {
        proof {
            assert(slines.take(i as int + 1).drop_last() =~= slines.take(i as int));
            assert(slines.take(i as int + 1).last() == slines[i as int]);
            assert(lines@[i as int]@ =~~= slines[i as int]);
        }
        let ghost old_view = spec_services_view(out@);
        let parts = split_ws(&lines[i]);
        if parts.len() >= 2 {
            proof {
                assert(parts@[0]@ =~~= parts.deep_view()[0]);
                assert(parts@[1]@ =~~= parts.deep_view()[1]);
            }
            let name = trim_service_suffix(&parts[0]);
            let en = chars_to_string(&parts[1]);
            let enabled = str_eq(en.as_str(), "enabled");
            let s = Service { name: chars_to_string(&name), enabled, running: false };
            let ghost sv = ServiceLine { name: s.name@, enabled: s.enabled };
            out.push(s);
            proof {
                assert(spec_services_view(out@) =~= old_view + seq![sv]);
                assert(spec_services_view(out@) =~= spec_parse_unit_files(
                    slines.take(i as int + 1),
                ));
            }
        } else {
            assert(spec_services_view(out@) =~= spec_parse_unit_files(slines.take(i as int + 1)));
        }
        i = i + 1;
    }
    proof {
        if slines.len() <= 1 {
            assert(spec_parse_unit_files(slines) == Seq::<ServiceLine>::empty());
        } else {
            assert(slines.take(slines.len() as int) =~= slines);
        }
    }
    out
}

} // verus!
