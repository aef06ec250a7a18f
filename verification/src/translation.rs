//! Configuration-file translation planning: declarative rules per family
//! pair, the plan built from them, and the pure text transforms. Nothing here
//! touches the filesystem; executing a plan is the binary's work.
use vstd::prelude::*;
use crate::chars::{
    chars_to_string, contains_lit, push_chars, push_lit, spec_contains, spec_split_on,
    spec_split_ws, spec_starts_with, split_on, split_ws, starts_with_chars, str_to_chars,
    subrange_chars,
};
use crate::config::{family_eq, DistroFamily};

verus! {

/// The registered transformation routines, carried by name rather than as
/// function values so that plans can be inspected and compared.
#[derive(Debug, Clone, Copy, PartialEq, Eq, Structural)]
pub enum TransformKind {
    DebianToSystemdNetwork,
    SystemdToDebianNetwork,
}

/// How one configuration path moves to the target system.
#[derive(Debug, Clone, Copy, PartialEq, Eq, Structural)]
pub enum TransformType {
    Copy,
    Merge,
    Transform(TransformKind),
    Skip,
}

/// One translation rule: where the file lives on the source system, where it
/// goes, and how it is carried over.
#[derive(Debug, Clone)]
pub struct ConfigTranslation {
    pub source_path: String,
    pub target_path: String,
    pub transform: TransformType,
}

/// Builds the list of configuration translation rules for a family pair.
pub struct ConfigTranslator {
    pub translations: Vec<(String, ConfigTranslation)>,
}

/// Spec-level image of a named rule.
pub ghost struct RuleSpec {
    pub name: Seq<char>,
    pub source_path: Seq<char>,
    pub target_path: Seq<char>,
    pub transform: TransformType,
}

/// The rules a list holds, as spec values.
pub open spec fn spec_rules_view(v: Seq<(String, ConfigTranslation)>) -> Seq<RuleSpec> {
    v.map_values(
        |e: (String, ConfigTranslation)|
            RuleSpec {
                name: e.0@,
                source_path: e.1.source_path@,
                target_path: e.1.target_path@,
                transform: e.1.transform,
            },
    )
}

/// The network rules of a family pair: only the Debian/Arch pairings carry a
/// text transform; every other pairing registers nothing.
pub open spec fn spec_network_rules(sf: DistroFamily, tf: DistroFamily) -> Seq<RuleSpec> {
    if family_eq(&sf, &DistroFamily::Debian) && family_eq(&tf, &DistroFamily::Arch) {
        seq![
            RuleSpec {
                name: "network"@,
                source_path: "/etc/network/interfaces"@,
                target_path: "/etc/systemd/network/"@,
                transform: TransformType::Transform(TransformKind::DebianToSystemdNetwork),
            },
        ]
    } else if family_eq(&sf, &DistroFamily::Arch) && family_eq(&tf, &DistroFamily::Debian) {
        seq![
            RuleSpec {
                name: "network"@,
                source_path: "/etc/systemd/network/"@,
                target_path: "/etc/network/interfaces"@,
                transform: TransformType::Transform(TransformKind::SystemdToDebianNetwork),
            },
        ]
    } else {
        Seq::<RuleSpec>::empty()
    }
}

/// The identity rules: passwd, shadow and group always merge.
pub open spec fn spec_user_rules() -> Seq<RuleSpec> {
    seq![
        RuleSpec {
            name: "passwd"@,
            source_path: "/etc/passwd"@,
            target_path: "/etc/passwd"@,
            transform: TransformType::Merge,
        },
        RuleSpec {
            name: "shadow"@,
            source_path: "/etc/shadow"@,
            target_path: "/etc/shadow"@,
            transform: TransformType::Merge,
        },
        RuleSpec {
            name: "group"@,
            source_path: "/etc/group"@,
            target_path: "/etc/group"@,
            transform: TransformType::Merge,
        },
    ]
}

/// The family boots with systemd as far as service rules are concerned.
pub open spec fn spec_systemd_family(f: DistroFamily) -> bool {
    family_eq(&f, &DistroFamily::Debian) || family_eq(&f, &DistroFamily::Arch) || family_eq(
        &f,
        &DistroFamily::RedHat,
    )
}

/// The service rules: unit files copy over when both families are
/// systemd-based.
pub open spec fn spec_service_rules(sf: DistroFamily, tf: DistroFamily) -> Seq<RuleSpec> {
    if spec_systemd_family(sf) && spec_systemd_family(tf) {
        seq![
            RuleSpec {
                name: "systemd"@,
                source_path: "/etc/systemd/system/"@,
                target_path: "/etc/systemd/system/"@,
                transform: TransformType::Copy,
            },
        ]
    } else {
        Seq::<RuleSpec>::empty()
    }
}

/// The package-manager rules: the target's own manager configuration is
/// explicitly skipped, never migrated.
pub open spec fn spec_package_manager_rules(tf: DistroFamily) -> Seq<RuleSpec> {
    if family_eq(&tf, &DistroFamily::Arch) {
        seq![
            RuleSpec {
                name: "pacman"@,
                source_path: "/etc/pacman.conf"@,
                target_path: "/etc/pacman.conf"@,
                transform: TransformType::Skip,
            },
        ]
    } else if family_eq(&tf, &DistroFamily::Debian) {
        seq![
            RuleSpec {
                name: "apt"@,
                source_path: "/etc/apt/"@,
                target_path: "/etc/apt/"@,
                transform: TransformType::Skip,
            },
        ]
    } else {
        Seq::<RuleSpec>::empty()
    }
}

/// All rules of a family pair, in registration order.
pub open spec fn spec_build_rules(sf: DistroFamily, tf: DistroFamily) -> Seq<RuleSpec> {
    spec_network_rules(sf, tf) + spec_user_rules() + spec_service_rules(sf, tf)
        + spec_package_manager_rules(tf)
}

/// Pushes one named rule.
fn push_rule(
    v: &mut Vec<(String, ConfigTranslation)>,
    name: &str,
    source_path: &str,
    target_path: &str,
    transform: TransformType,
)
    ensures
        spec_rules_view(final(v)@) == spec_rules_view(old(v)@) + seq![
            RuleSpec {
                name: name@,
                source_path: source_path@,
                target_path: target_path@,
                transform: transform,
            },
        ],
{
    v.push(
        (
            String::from_str(name),
            ConfigTranslation {
                source_path: String::from_str(source_path),
                target_path: String::from_str(target_path),
                transform,
            },
        ),
    );
    assert(spec_rules_view(v@) =~= spec_rules_view(v@.drop_last()) + seq![
        RuleSpec {
            name: name@,
            source_path: source_path@,
            target_path: target_path@,
            transform: transform,
        },
    ]);
}

impl ConfigTranslator {
    /// An empty rule set.
    pub fn new() -> (r: Self)
        ensures
            r.translations@.len() == 0,
    {
        ConfigTranslator { translations: Vec::new() }
    }

    /// Registers the network rules of the family pair.
    pub fn add_network_rules(&mut self, source: &DistroFamily, target: &DistroFamily)
        ensures
            spec_rules_view(final(self).translations@) == spec_rules_view(
                old(self).translations@,
            ) + spec_network_rules(*source, *target),
    {
        let is_deb_arch = *source == DistroFamily::Debian && *target == DistroFamily::Arch;
        let is_arch_deb = *source == DistroFamily::Arch && *target == DistroFamily::Debian;
        if is_deb_arch {
            push_rule(
                &mut self.translations,
                "network",
                "/etc/network/interfaces",
                "/etc/systemd/network/",
                TransformType::Transform(TransformKind::DebianToSystemdNetwork),
            );
        } else if is_arch_deb {
            push_rule(
                &mut self.translations,
                "network",
                "/etc/systemd/network/",
                "/etc/network/interfaces",
                TransformType::Transform(TransformKind::SystemdToDebianNetwork),
            );
        } else {
            assert(spec_rules_view(self.translations@) =~= spec_rules_view(self.translations@)
                + Seq::<RuleSpec>::empty());
        }
    }

    /// Registers the identity merges.
    pub fn add_user_rules(&mut self)
        ensures
            spec_rules_view(final(self).translations@) == spec_rules_view(
                old(self).translations@,
            ) + spec_user_rules(),
    {
        push_rule(&mut self.translations, "passwd", "/etc/passwd", "/etc/passwd",
            TransformType::Merge);
        push_rule(&mut self.translations, "shadow", "/etc/shadow", "/etc/shadow",
            TransformType::Merge);
        push_rule(&mut self.translations, "group", "/etc/group", "/etc/group",
            TransformType::Merge);
        assert(spec_rules_view(self.translations@) =~= spec_rules_view(old(self).translations@)
            + spec_user_rules());
    }

    /// Registers the service-unit copy when both families are systemd-based.
    pub fn add_service_rules(&mut self, source: &DistroFamily, target: &DistroFamily)
        ensures
            spec_rules_view(final(self).translations@) == spec_rules_view(
                old(self).translations@,
            ) + spec_service_rules(*source, *target),
    {
        let src_sysd = *source == DistroFamily::Debian || *source == DistroFamily::Arch || *source
            == DistroFamily::RedHat;
        let tgt_sysd = *target == DistroFamily::Debian || *target == DistroFamily::Arch || *target
            == DistroFamily::RedHat;
        if src_sysd && tgt_sysd {
            push_rule(
                &mut self.translations,
                "systemd",
                "/etc/systemd/system/",
                "/etc/systemd/system/",
                TransformType::Copy,
            );
        } else {
            assert(spec_rules_view(self.translations@) =~= spec_rules_view(self.translations@)
                + Seq::<RuleSpec>::empty());
        }
    }

    /// Registers the skip of the target's package-manager configuration.
    pub fn add_package_manager_rules(&mut self, source: &DistroFamily, target: &DistroFamily)
        ensures
            spec_rules_view(final(self).translations@) == spec_rules_view(
                old(self).translations@,
            ) + spec_package_manager_rules(*target),
    {
        if *target == DistroFamily::Arch {
            push_rule(&mut self.translations, "pacman", "/etc/pacman.conf", "/etc/pacman.conf",
                TransformType::Skip);
        } else if *target == DistroFamily::Debian {
            push_rule(&mut self.translations, "apt", "/etc/apt/", "/etc/apt/",
                TransformType::Skip);
        } else {
            assert(spec_rules_view(self.translations@) =~= spec_rules_view(self.translations@)
                + Seq::<RuleSpec>::empty());
        }
    }

    /// Builds all translation rules of the family pair, in a fixed order:
    /// network, identity, services, package-manager configuration.
    pub fn build_rules(&mut self, source_family: &DistroFamily, target_family: &DistroFamily)
        ensures
            spec_rules_view(final(self).translations@) == spec_rules_view(
                old(self).translations@,
            ) + spec_build_rules(*source_family, *target_family),
    {
        self.add_network_rules(source_family, target_family);
        self.add_user_rules();
        self.add_service_rules(source_family, target_family);
        self.add_package_manager_rules(source_family, target_family);
        assert(spec_rules_view(self.translations@) =~= spec_rules_view(old(self).translations@)
            + spec_build_rules(*source_family, *target_family));
    }
}

/// One planned action against the filesystem: a pure description, generated
/// in the planning phase, inspectable before commit.
#[derive(Debug, Clone)]
pub enum ConfigOperation {
    Copy { from: String, to: String },
    Merge { source: String, target: String, backup: String },
    Transform { source: String, target: String, transform: TransformKind },
}

/// Spec-level image of a planned operation.
pub ghost enum OpSpec {
    Copy { from: Seq<char>, to: Seq<char> },
    Merge { source: Seq<char>, target: Seq<char>, backup: Seq<char> },
    Transform { source: Seq<char>, target: Seq<char>, transform: TransformKind },
}

impl View for ConfigOperation {
    type V = OpSpec;

    open spec fn view(&self) -> OpSpec {
        match self {
            ConfigOperation::Copy { from, to } => OpSpec::Copy { from: from@, to: to@ },
            ConfigOperation::Merge { source, target, backup } => OpSpec::Merge {
                source: source@,
                target: target@,
                backup: backup@,
            },
            ConfigOperation::Transform { source, target, transform } => OpSpec::Transform {
                source: source@,
                target: target@,
                transform: *transform,
            },
        }
    }
}

/// The operations a vector holds, as spec values.
pub open spec fn spec_ops_view(v: Seq<ConfigOperation>) -> Seq<OpSpec> {
    v.map_values(|o: ConfigOperation| o@)
}

/// The plan the rules yield: rules whose source path exists become
/// operations in rule order; skips and absent sources yield nothing; merges
/// carry a backup destination under the backup directory.
pub open spec fn spec_plan(
    rules: Seq<RuleSpec>,
    exists: Seq<bool>,
    backup_dir: Seq<char>,
) -> Seq<OpSpec>
    decreases rules.len(),
{
    if rules.len() == 0 {
        Seq::<OpSpec>::empty()
    } else {
        let rest = spec_plan(rules.drop_first(), exists.drop_first(), backup_dir);
        let head = rules[0];
        if !(exists.len() > 0 && exists[0]) {
            rest
        } else {
            match head.transform {
                TransformType::Copy => seq![
                    OpSpec::Copy { from: head.source_path, to: head.target_path },
                ] + rest,
                TransformType::Merge => seq![
                    OpSpec::Merge {
                        source: head.source_path,
                        target: head.target_path,
                        backup: backup_dir + "/"@ + head.name,
                    },
                ] + rest,
                TransformType::Transform(k) => seq![
                    OpSpec::Transform {
                        source: head.source_path,
                        target: head.target_path,
                        transform: k,
                    },
                ] + rest,
                TransformType::Skip => rest,
            }
        }
    }
}

impl ConfigTranslator {
    /// Turns the registered rules into a plan of operations. The caller
    /// reports, rule by rule, whether the rule's source path exists on disk.
    #[verifier::loop_isolation(false)]
    pub fn translate_configs(&self, backup_dir: &str, source_exists: &Vec<bool>) -> (r: Vec<
        ConfigOperation,
    >)
        requires
            source_exists@.len() == self.translations@.len(),
        ensures
            spec_ops_view(r@) == spec_plan(
                spec_rules_view(self.translations@),
                source_exists@,
                backup_dir@,
            ),
    {
        let ghost rules = spec_rules_view(self.translations@);
        let ghost whole = spec_plan(rules, source_exists@, backup_dir@);
        let mut out: Vec<ConfigOperation> = Vec::new();
        proof {
            assert(rules.skip(0) =~= rules);
            assert(source_exists@.skip(0) =~= source_exists@);
        }
        let mut i: usize = 0;
        while i < self.translations.len()
            invariant
                0 <= i <= self.translations@.len(),
                whole == spec_ops_view(out@) + spec_plan(
                    rules.skip(i as int),
                    source_exists@.skip(i as int),
                    backup_dir@,
                ),
            decreases self.translations@.len() - i,
        {
            proof {
                assert(rules.skip(i as int)[0] == rules[i as int]);
                assert(rules.skip(i as int).drop_first() =~= rules.skip(i as int + 1));
                assert(source_exists@.skip(i as int)[0] == source_exists@[i as int]);
                assert(source_exists@.skip(i as int).drop_first() =~= source_exists@.skip(
                    i as int + 1,
                ));
            }
            let ghost rest = spec_plan(
                rules.skip(i as int + 1),
                source_exists@.skip(i as int + 1),
                backup_dir@,
            );
            let entry = &self.translations[i];
            if source_exists[i] {
                match entry.1.transform {
                    TransformType::Copy => {
                        let op = ConfigOperation::Copy {
                            from: entry.1.source_path.clone(),
                            to: entry.1.target_path.clone(),
                        };
                        let ghost ov = op@;
                        out.push(op);
                        proof {
                            assert(spec_ops_view(out@) =~= spec_ops_view(out@.drop_last())
                                + seq![ov]);
                            assert(spec_ops_view(out@.drop_last()) + (seq![ov] + rest)
                                =~= spec_ops_view(out@) + rest);
                        }
                    },
                    TransformType::Merge => {
                        let mut b = str_to_chars(backup_dir);
                        push_lit(&mut b, "/");
                        let name = str_to_chars(entry.0.as_str());
                        push_chars(&mut b, &name);
                        let op = ConfigOperation::Merge {
                            source: entry.1.source_path.clone(),
                            target: entry.1.target_path.clone(),
                            backup: chars_to_string(&b),
                        };
                        let ghost ov = op@;
                        out.push(op);
                        proof {
                            assert(spec_ops_view(out@) =~= spec_ops_view(out@.drop_last())
                                + seq![ov]);
                            assert(spec_ops_view(out@.drop_last()) + (seq![ov] + rest)
                                =~= spec_ops_view(out@) + rest);
                        }
                    },
                    TransformType::Transform(k) => {
                        let op = ConfigOperation::Transform {
                            source: entry.1.source_path.clone(),
                            target: entry.1.target_path.clone(),
                            transform: k,
                        };
                        let ghost ov = op@;
                        out.push(op);
                        proof {
                            assert(spec_ops_view(out@) =~= spec_ops_view(out@.drop_last())
                                + seq![ov]);
                            assert(spec_ops_view(out@.drop_last()) + (seq![ov] + rest)
                                =~= spec_ops_view(out@) + rest);
                        }
                    },
                    TransformType::Skip => {},
                }
            }
            i = i + 1;
        }
        proof {
            assert(rules.skip(rules.len() as int) =~= Seq::<RuleSpec>::empty());
            assert(spec_plan(
                rules.skip(rules.len() as int),
                source_exists@.skip(rules.len() as int),
                backup_dir@,
            ) =~= Seq::<OpSpec>::empty());
            assert(spec_ops_view(out@) + Seq::<OpSpec>::empty() =~= spec_ops_view(out@));
        }
        out
    }
}

/// What merging two configuration files yields: the target's content, a
/// newline if it lacked one, a delimiting comment, then the source's content.
pub open spec fn spec_merge_configs(source: Seq<char>, target: Seq<char>) -> Seq<char> {
    (if target.len() > 0 && target.last() != '\n' {
        target + seq!['\n']
    } else {
        target
    }) + "\n# Merged from previous system\n"@ + source
}

/// Merges two configuration files conservatively: lossless concatenation
/// behind a delimiting comment marker.
pub fn merge_configs(source: &str, target: &str) -> (r: String)
    ensures
        r@ == spec_merge_configs(source@, target@),
{
    let t = str_to_chars(target);
    let mut v: Vec<char> = Vec::new();
    push_chars(&mut v, &t);
    if t.len() > 0 && t[t.len() - 1] != '\n' {
        assert(t@.last() == t@[t@.len() - 1]);
        v.push('\n');
    }
    push_lit(&mut v, "\n# Merged from previous system\n");
    let s = str_to_chars(source);
    push_chars(&mut v, &s);
    chars_to_string(&v)
}

/// The second whitespace-separated token of a line, when the line has one.
pub open spec fn spec_second_token(line: Seq<char>) -> Option<Seq<char>> {
    let parts = spec_split_ws(line);
    if parts.len() >= 2 {
        Some(parts[1])
    } else {
        None
    }
}

/// Reads the second whitespace-separated token of a line.
fn second_token(line: &Vec<char>) -> (r: Option<Vec<char>>)
    ensures
        match r {
            Some(t) => spec_second_token(line@) == Some(t@),
            None => spec_second_token(line@) is None,
        },
{
    let parts = split_ws(line);
    if parts.len() >= 2 {
        assert(parts@[1]@ =~~= parts.deep_view()[1]);
        Some(subrange_chars(&parts[1], 0, parts[1].len()))
    } else {
        None
    }
}

/// The systemd-networkd fragment one interfaces line contributes.
pub open spec fn spec_d2s_line(line: Seq<char>) -> Seq<char> {
    if spec_contains(line, "address"@) {
        match spec_second_token(line) {
            Some(t) => "Address="@ + t + "\n"@,
            None => Seq::<char>::empty(),
        }
    } else if spec_contains(line, "gateway"@) {
        match spec_second_token(line) {
            Some(t) => "Gateway="@ + t + "\n"@,
            None => Seq::<char>::empty(),
        }
    } else if spec_contains(line, "dns-nameservers"@) {
        match spec_second_token(line) {
            Some(t) => "DNS="@ + t + "\n"@,
            None => Seq::<char>::empty(),
        }
    } else {
        Seq::<char>::empty()
    }
}

/// The fragments of all lines, in order.
pub open spec fn spec_d2s_body(lines: Seq<Seq<char>>) -> Seq<char>
    decreases lines.len(),
{
    if lines.len() == 0 {
        Seq::<char>::empty()
    } else {
        spec_d2s_body(lines.drop_last()) + spec_d2s_line(lines.last())
    }
}

/// What the Debian-to-systemd network transform yields.
pub open spec fn spec_debian_to_systemd(content: Seq<char>) -> Seq<char> {
    "[Match]\nName=eth0\n\n[Network]\n"@ + spec_d2s_body(spec_split_on(content, '\n'))
}

/// Transforms a Debian interfaces file into a systemd-networkd unit
/// fragment, extracting address, gateway and nameserver lines by token
/// scanning.
#[verifier::loop_isolation(false)]
pub fn debian_to_systemd_network(content: &str) -> (r: String)
    ensures
        r@ == spec_debian_to_systemd(content@),
{
    let v = str_to_chars(content);
    let lines = split_on(&v, '\n');
    let ghost slines = spec_split_on(content@, '\n');
    let mut out: Vec<char> = Vec::new();
    push_lit(&mut out, "[Match]\nName=eth0\n\n[Network]\n");
    proof {
        assert(slines.take(0) =~= Seq::<Seq<char>>::empty());
        assert(out@ =~= "[Match]\nName=eth0\n\n[Network]\n"@ + spec_d2s_body(slines.take(0)));
    }
    let mut i: usize = 0;
    while i < lines.len()
        invariant
            0 <= i <= slines.len(),
            lines.deep_view() == slines,
            out@ == "[Match]\nName=eth0\n\n[Network]\n"@ + spec_d2s_body(slines.take(i as int)),
        decreases slines.len() - i,
    {
        proof {
            assert(slines.take(i as int + 1).drop_last() =~= slines.take(i as int));
            assert(slines.take(i as int + 1).last() == slines[i as int]);
            assert(lines@[i as int]@ =~~= slines[i as int]);
        }
        let line = &lines[i];
        if contains_lit(line, "address") {
            match second_token(line) {
                Some(t) => {
                    push_lit(&mut out, "Address=");
                    push_chars(&mut out, &t);
                    push_lit(&mut out, "\n");
                },
                None => {},
            }
        } else if contains_lit(line, "gateway") {
            match second_token(line) {
                Some(t) => {
                    push_lit(&mut out, "Gateway=");
                    push_chars(&mut out, &t);
                    push_lit(&mut out, "\n");
                },
                None => {},
            }
        } else if contains_lit(line, "dns-nameservers") {
            match second_token(line) {
                Some(t) => {
                    push_lit(&mut out, "DNS=");
                    push_chars(&mut out, &t);
                    push_lit(&mut out, "\n");
                },
                None => {},
            }
        }
        i = i + 1;
    }
    proof {
        assert(slines.take(slines.len() as int) =~= slines);
    }
    chars_to_string(&out)
}

/// The interfaces fragment one systemd-networkd line contributes.
pub open spec fn spec_s2d_line(line: Seq<char>) -> Seq<char> {
    if spec_starts_with(line, "Address="@) {
        "    address "@ + line.skip(8) + "\n"@
    } else if spec_starts_with(line, "Gateway="@) {
        "    gateway "@ + line.skip(8) + "\n"@
    } else if spec_starts_with(line, "DNS="@) {
        "    dns-nameservers "@ + line.skip(4) + "\n"@
    } else {
        Seq::<char>::empty()
    }
}

/// The fragments of all lines, in order.
pub open spec fn spec_s2d_body(lines: Seq<Seq<char>>) -> Seq<char>
    decreases lines.len(),
{
    if lines.len() == 0 {
        Seq::<char>::empty()
    } else {
        spec_s2d_body(lines.drop_last()) + spec_s2d_line(lines.last())
    }
}

/// What the systemd-to-Debian network transform yields.
pub open spec fn spec_systemd_to_debian(content: Seq<char>) -> Seq<char> {
    "auto eth0\niface eth0 inet static\n"@ + spec_s2d_body(spec_split_on(content, '\n'))
}

/// Transforms a systemd-networkd unit into a Debian interfaces stanza.
#[verifier::loop_isolation(false)]
pub fn systemd_to_debian_network(content: &str) -> (r: String)
    ensures
        r@ == spec_systemd_to_debian(content@),
{
    let v = str_to_chars(content);
    let lines = split_on(&v, '\n');
    let ghost slines = spec_split_on(content@, '\n');
    let mut out: Vec<char> = Vec::new();
    push_lit(&mut out, "auto eth0\niface eth0 inet static\n");
    proof {
        reveal_strlit("Address=");
        reveal_strlit("Gateway=");
        reveal_strlit("DNS=");
        assert(slines.take(0) =~= Seq::<Seq<char>>::empty());
        assert(out@ =~= "auto eth0\niface eth0 inet static\n"@ + spec_s2d_body(slines.take(0)));
    }
    let addr = str_to_chars("Address=");
    let gw = str_to_chars("Gateway=");
    let dns = str_to_chars("DNS=");
    let mut i: usize = 0;
    while i < lines.len()
        invariant
            0 <= i <= slines.len(),
            lines.deep_view() == slines,
            addr@ == "Address="@ && addr@.len() == 8,
            gw@ == "Gateway="@ && gw@.len() == 8,
            dns@ == "DNS="@ && dns@.len() == 4,
            out@ == "auto eth0\niface eth0 inet static\n"@ + spec_s2d_body(slines.take(i as int)),
        decreases slines.len() - i,
    {
        proof {
            assert(slines.take(i as int + 1).drop_last() =~= slines.take(i as int));
            assert(slines.take(i as int + 1).last() == slines[i as int]);
            assert(lines@[i as int]@ =~~= slines[i as int]);
        }
        let line = &lines[i];
        if starts_with_chars(line, &addr) {
            push_lit(&mut out, "    address ");
            let t = subrange_chars(line, 8, line.len());
            assert(t@ =~= slines[i as int].skip(8));
            push_chars(&mut out, &t);
            push_lit(&mut out, "\n");
        } else if starts_with_chars(line, &gw) {
            push_lit(&mut out, "    gateway ");
            let t = subrange_chars(line, 8, line.len());
            assert(t@ =~= slines[i as int].skip(8));
            push_chars(&mut out, &t);
            push_lit(&mut out, "\n");
        } else if starts_with_chars(line, &dns) {
            push_lit(&mut out, "    dns-nameservers ");
            let t = subrange_chars(line, 4, line.len());
            assert(t@ =~= slines[i as int].skip(4));
            push_chars(&mut out, &t);
            push_lit(&mut out, "\n");
        }
        i = i + 1;
    }
    proof {
        assert(slines.take(slines.len() as int) =~= slines);
    }
    chars_to_string(&out)
}

/// Only regular users are preserved; system accounts below this identifier
/// boundary are not backed up.
pub fn should_preserve_user(uid: u32) -> (r: bool)
    ensures
        r == (uid >= 1000),
{
    uid >= 1000
}

/// Where a user's home directory is backed up under the backup directory.
pub fn home_backup_path(backup_dir: &str, user_name: &str) -> (r: String)
    ensures
        r@ == backup_dir@ + "/home_"@ + user_name@,
{
    let mut v = str_to_chars(backup_dir);
    push_lit(&mut v, "/home_");
    let n = str_to_chars(user_name);
    push_chars(&mut v, &n);
    chars_to_string(&v)
}

} // verus!
