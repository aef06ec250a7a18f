//! Package translation: maps installed package names from one distribution
//! family to another through a seeded mapping table, with confidence scoring
//! and a fuzzy fallback.
use vstd::prelude::*;
use crate::chars::{
    contains_lit, contains_sub, ends_with_chars, push_chars, push_lit, spec_contains,
    spec_ends_with, spec_starts_with, starts_with_chars, str_to_chars, subrange_chars,
};
use crate::config::{family_eq, DistroFamily, InstalledPackage};
use crate::{CONFIDENCE_EXACT, CONFIDENCE_FUZZY};

verus! {

/// One translation of a package name, with its scaled confidence: 100 denotes
/// an exact table hit, 70 a fuzzy-pattern hit.
#[derive(Debug, Clone)]
pub struct PackageMapping {
    pub source: String,
    pub target: String,
    pub confidence: u32,
}

/// Spec-level image of a `PackageMapping`.
pub ghost struct MappingView {
    pub source: Seq<char>,
    pub target: Seq<char>,
    pub confidence: u32,
}

impl View for PackageMapping {
    type V = MappingView;

    open spec fn view(&self) -> MappingView {
        MappingView { source: self.source@, target: self.target@, confidence: self.confidence }
    }
}

/// The partition `translate_packages` produces.
#[derive(Debug)]
pub struct TranslationResult {
    pub translated: Vec<PackageMapping>,
    pub untranslated: Vec<String>,
    pub skipped: Vec<String>,
}

/// One row of the translation table.
#[derive(Debug, Clone)]
pub struct MappingRow {
    pub source_family: DistroFamily,
    pub source_package: String,
    pub target_family: DistroFamily,
    pub target_package: String,
    pub confidence: u32,
}

/// The names of the mappings a sequence holds, as spec values.
pub open spec fn spec_mappings_view(v: Seq<PackageMapping>) -> Seq<MappingView> {
    v.map_values(|m: PackageMapping| m@)
}

/// The views of a sequence of strings.
pub open spec fn spec_strings_view(v: Seq<String>) -> Seq<Seq<char>> {
    v.map_values(|s: String| s@)
}

/// The row translates `name` exactly for the given family pair.
pub open spec fn spec_row_matches_exact(
    row: MappingRow,
    sf: DistroFamily,
    tf: DistroFamily,
    name: Seq<char>,
) -> bool {
    family_eq(&row.source_family, &sf) && family_eq(&row.target_family, &tf)
        && row.source_package@ == name
}

/// The first row that translates `name` exactly, in table order. Because the
/// table is unique on (source family, source package, target family), this is
/// the single exact hit when one exists.
pub open spec fn spec_find_exact(
    rows: Seq<MappingRow>,
    sf: DistroFamily,
    tf: DistroFamily,
    name: Seq<char>,
) -> Option<MappingRow>
    decreases rows.len(),
{
    if rows.len() == 0 {
        None
    } else if spec_row_matches_exact(rows[0], sf, tf, name) {
        Some(rows[0])
    } else {
        spec_find_exact(rows.drop_first(), sf, tf, name)
    }
}

/// The row matches a fuzzy pattern: it is restricted to the target family and
/// the pattern occurs in its source or its target package name.
pub open spec fn spec_row_matches_fuzzy(row: MappingRow, tf: DistroFamily, pat: Seq<char>) -> bool {
    family_eq(&row.target_family, &tf) && (spec_contains(row.source_package@, pat)
        || spec_contains(row.target_package@, pat))
}

/// The first row matching a fuzzy pattern, in table order.
pub open spec fn spec_find_fuzzy(
    rows: Seq<MappingRow>,
    tf: DistroFamily,
    pat: Seq<char>,
) -> Option<MappingRow>
    decreases rows.len(),
{
    if rows.len() == 0 {
        None
    } else if spec_row_matches_fuzzy(rows[0], tf, pat) {
        Some(rows[0])
    } else {
        spec_find_fuzzy(rows.drop_first(), tf, pat)
    }
}

/// The candidate patterns a fuzzy lookup tries, in order: the literal name,
/// the name with a `-dev` suffix stripped, the name with a `lib` prefix
/// stripped, and the bidirectional `python3-`/`python-` prefix substitution.
pub open spec fn spec_fuzzy_patterns(name: Seq<char>) -> Seq<Seq<char>> {
    seq![
        name,
        if spec_ends_with(name, "-dev"@) {
            name.take(name.len() - 4)
        } else {
            name
        },
        if spec_starts_with(name, "lib"@) {
            name.skip(3)
        } else {
            name
        },
        if spec_starts_with(name, "python3-"@) {
            "python-"@ + name.skip(8)
        } else {
            name
        },
        if spec_starts_with(name, "python-"@) {
            "python3-"@ + name.skip(7)
        } else {
            name
        },
    ]
}

/// The result of a fuzzy lookup: the target package of the first row hit by
/// the first pattern that hits any row.
pub open spec fn spec_fuzzy_from(
    rows: Seq<MappingRow>,
    tf: DistroFamily,
    pats: Seq<Seq<char>>,
) -> Option<Seq<char>>
    decreases pats.len(),
{
    if pats.len() == 0 {
        None
    } else {
        match spec_find_fuzzy(rows, tf, pats[0]) {
            Some(row) => Some(row.target_package@),
            None => spec_fuzzy_from(rows, tf, pats.drop_first()),
        }
    }
}

/// What a fuzzy match yields for a package name.
pub open spec fn spec_fuzzy_match(
    rows: Seq<MappingRow>,
    tf: DistroFamily,
    name: Seq<char>,
) -> Option<Seq<char>> {
    spec_fuzzy_from(rows, tf, spec_fuzzy_patterns(name))
}

/// The name-substring denylist of system-critical packages excluded from
/// migration.
pub open spec fn spec_is_system_package(name: Seq<char>) -> bool {
    ||| spec_contains(name, "base"@)
    ||| spec_contains(name, "linux"@)
    ||| spec_contains(name, "linux-firmware"@)
    ||| spec_contains(name, "grub"@)
    ||| spec_contains(name, "udev"@)
    ||| spec_contains(name, "kernel"@)
    ||| spec_contains(name, "initramfs"@)
    ||| spec_contains(name, "base-files"@)
    ||| spec_contains(name, "dpkg"@)
    ||| spec_contains(name, "apt"@)
    ||| spec_contains(name, "pacman"@)
    ||| spec_contains(name, "dnf"@)
    ||| spec_contains(name, "rpm"@)
}

/// Is the package system-critical, so that migration must not touch it?
pub fn is_system_package(name: &str) -> (r: bool)
    ensures
        r == spec_is_system_package(name@),
{
    let n = str_to_chars(name);
    contains_lit(&n, "base") || contains_lit(&n, "linux") || contains_lit(&n, "linux-firmware")
        || contains_lit(&n, "grub") || contains_lit(&n, "udev") || contains_lit(&n, "kernel")
        || contains_lit(&n, "initramfs") || contains_lit(&n, "base-files") || contains_lit(
        &n,
        "dpkg",
    ) || contains_lit(&n, "apt") || contains_lit(&n, "pacman") || contains_lit(&n, "dnf")
        || contains_lit(&n, "rpm")
}

/// A persistent mapping store: the rows of the translation table, unique on
/// (source family, source package, target family).
pub struct PackageTranslator {
    pub rows: Vec<MappingRow>,
}

/// Two rows carry the same (source family, source package, target family) key.
pub open spec fn spec_same_key(a: MappingRow, b: MappingRow) -> bool {
    family_eq(&a.source_family, &b.source_family) && a.source_package@ == b.source_package@
        && family_eq(&a.target_family, &b.target_family)
}

/// No two rows of the table share a key.
pub open spec fn spec_rows_unique(rows: Seq<MappingRow>) -> bool {
    forall|i: int, j: int|
        0 <= i < j < rows.len() ==> !spec_same_key(#[trigger] rows[i], #[trigger] rows[j])
}

/// A row with the key of `r` shares its key with whatever shares a key with
/// `r`: key equality is symmetric and transitive.
proof fn lemma_same_key_bridge(x: MappingRow, r: MappingRow, y: MappingRow)
    requires
        spec_same_key(x, r),
    ensures
        spec_same_key(r, y) ==> spec_same_key(x, y),
        spec_same_key(y, r) ==> spec_same_key(y, x),
{
}

/// Upserting a row: the first row with the same key is replaced, or the row is
/// appended when no row has its key. Last write wins on the unique key.
pub open spec fn spec_upsert(rows: Seq<MappingRow>, row: MappingRow) -> Seq<MappingRow>
    decreases rows.len(),
{
    if rows.len() == 0 {
        seq![row]
    } else if spec_same_key(rows[0], row) {
        seq![row] + rows.drop_first()
    } else {
        seq![rows[0]] + spec_upsert(rows.drop_first(), row)
    }
}

/// First the skipped prefix, then the upsert of the rest, when no row of the
/// prefix has the new row's key.
proof fn lemma_upsert_skip(rows: Seq<MappingRow>, row: MappingRow, i: int)
    requires
        0 <= i <= rows.len(),
        forall|k: int| 0 <= k < i ==> !spec_same_key(#[trigger] rows[k], row),
    ensures
        spec_upsert(rows, row) == rows.take(i) + spec_upsert(rows.skip(i), row),
    decreases i,
{
    if i == 0 {
        assert(rows.skip(0) =~= rows);
        assert(rows.take(0) + spec_upsert(rows, row) =~= spec_upsert(rows, row));
    } else {
        lemma_upsert_skip(rows.drop_first(), row, i - 1);
        assert(rows.drop_first().take(i - 1) =~= rows.take(i).drop_first());
        assert(rows.drop_first().skip(i - 1) =~= rows.skip(i));
        assert(spec_upsert(rows, row) == seq![rows[0]] + spec_upsert(rows.drop_first(), row));
        assert(seq![rows[0]] + (rows.drop_first().take(i - 1) + spec_upsert(rows.skip(i), row))
            =~= rows.take(i) + spec_upsert(rows.skip(i), row));
    }
}

/// Finds the first row translating `name` exactly; hands back its target.
fn find_exact(
    rows: &Vec<MappingRow>,
    sf: &DistroFamily,
    tf: &DistroFamily,
    name: &str,
) -> (r: Option<String>)
    ensures
        match r {
            Some(t) => spec_find_exact(rows@, *sf, *tf, name@) is Some && t@ == spec_find_exact(
                rows@,
                *sf,
                *tf,
                name@,
            )->Some_0.target_package@,
            None => spec_find_exact(rows@, *sf, *tf, name@) is None,
        },
{
    assert(rows@.skip(0) =~= rows@);
    let mut i: usize = 0;
    while i < rows.len()
        invariant
            0 <= i <= rows@.len(),
            spec_find_exact(rows@, *sf, *tf, name@) == spec_find_exact(
                rows@.skip(i as int),
                *sf,
                *tf,
                name@,
            ),
        decreases rows@.len() - i,
    {
        assert(rows@.skip(i as int)[0] == rows@[i as int]);
        assert(rows@.skip(i as int).drop_first() =~= rows@.skip(i as int + 1));
        let row = &rows[i];
        if row.source_family == *sf && row.target_family == *tf && crate::chars::str_eq(
            row.source_package.as_str(),
            name,
        ) {
            assert(spec_row_matches_exact(rows@[i as int], *sf, *tf, name@));
            return Some(row.target_package.clone());
        }
        assert(!spec_row_matches_exact(rows@[i as int], *sf, *tf, name@));
        i = i + 1;
    }
    assert(rows@.skip(rows@.len() as int) =~= Seq::<MappingRow>::empty());
    None
}

/// Finds the first row hit by the fuzzy pattern; hands back its target.
fn find_fuzzy(rows: &Vec<MappingRow>, tf: &DistroFamily, pat: &Vec<char>) -> (r: Option<String>)
    ensures
        match r {
            Some(t) => spec_find_fuzzy(rows@, *tf, pat@) is Some && t@ == spec_find_fuzzy(
                rows@,
                *tf,
                pat@,
            )->Some_0.target_package@,
            None => spec_find_fuzzy(rows@, *tf, pat@) is None,
        },
{
    assert(rows@.skip(0) =~= rows@);
    let mut i: usize = 0;
    while i < rows.len()
        invariant
            0 <= i <= rows@.len(),
            spec_find_fuzzy(rows@, *tf, pat@) == spec_find_fuzzy(
                rows@.skip(i as int),
                *tf,
                pat@,
            ),
        decreases rows@.len() - i,
    {
        assert(rows@.skip(i as int)[0] == rows@[i as int]);
        assert(rows@.skip(i as int).drop_first() =~= rows@.skip(i as int + 1));
        let row = &rows[i];
        if row.target_family == *tf {
            let sp = str_to_chars(row.source_package.as_str());
            let tp = str_to_chars(row.target_package.as_str());
            if contains_sub(&sp, pat) || contains_sub(&tp, pat) {
                assert(spec_row_matches_fuzzy(rows@[i as int], *tf, pat@));
                return Some(row.target_package.clone());
            }
        }
        assert(!spec_row_matches_fuzzy(rows@[i as int], *tf, pat@));
        i = i + 1;
    }
    assert(rows@.skip(rows@.len() as int) =~= Seq::<MappingRow>::empty());
    None
}

impl PackageTranslator {
    /// A translator over an explicit table of rows.
    pub fn from_rows(rows: Vec<MappingRow>) -> (r: Self)
        ensures
            r.rows@ == rows@,
    {
        PackageTranslator { rows }
    }

    /// Translates a package name from the source family to the target family:
    /// the exact lookup, `None` on a miss (a miss is not an error).
    pub fn translate_package(
        &self,
        source_family: &DistroFamily,
        target_family: &DistroFamily,
        package_name: &str,
    ) -> (r: Option<String>)
        ensures
            match r {
                Some(t) => spec_find_exact(self.rows@, *source_family, *target_family, package_name@)
                    is Some && t@ == spec_find_exact(
                    self.rows@,
                    *source_family,
                    *target_family,
                    package_name@,
                )->Some_0.target_package@,
                None => spec_find_exact(self.rows@, *source_family, *target_family, package_name@)
                    is None,
            },
    {
        find_exact(&self.rows, source_family, target_family, package_name)
    }

    /// Fuzzy lookup for packages without a direct mapping: tries the candidate
    /// patterns in order; a hit carries the advisory fuzzy confidence.
    pub fn fuzzy_match(&self, package_name: &str, target_family: &DistroFamily) -> (r: Option<
        PackageMapping,
    >)
        ensures
            match r {
                Some(m) => spec_fuzzy_match(self.rows@, *target_family, package_name@) is Some
                    && m@.source == package_name@ && m@.target == spec_fuzzy_match(
                    self.rows@,
                    *target_family,
                    package_name@,
                )->Some_0 && m@.confidence == CONFIDENCE_FUZZY,
                None => spec_fuzzy_match(self.rows@, *target_family, package_name@) is None,
            },
    {
        let n = str_to_chars(package_name);
        let mut pats: Vec<Vec<char>> = Vec::new();
        pats.push(subrange_chars(&n, 0, n.len()));
        proof {
            reveal_strlit("-dev");
            reveal_strlit("lib");
            reveal_strlit("python3-");
            reveal_strlit("python-");
        }
        let dev = str_to_chars("-dev");
        if ends_with_chars(&n, &dev) {
            pats.push(subrange_chars(&n, 0, n.len() - 4));
        } else {
            pats.push(subrange_chars(&n, 0, n.len()));
        }
        let lib = str_to_chars("lib");
        if starts_with_chars(&n, &lib) {
            pats.push(subrange_chars(&n, 3, n.len()));
        } else {
            pats.push(subrange_chars(&n, 0, n.len()));
        }
        let py3 = str_to_chars("python3-");
        if starts_with_chars(&n, &py3) {
            let mut p: Vec<char> = Vec::new();
            push_lit(&mut p, "python-");
            let tail = subrange_chars(&n, 8, n.len());
            push_chars(&mut p, &tail);
            pats.push(p);
        } else {
            pats.push(subrange_chars(&n, 0, n.len()));
        }
        let py = str_to_chars("python-");
        if starts_with_chars(&n, &py) {
            let mut p: Vec<char> = Vec::new();
            push_lit(&mut p, "python3-");
            let tail = subrange_chars(&n, 7, n.len());
            push_chars(&mut p, &tail);
            pats.push(p);
        } else {
            pats.push(subrange_chars(&n, 0, n.len()));
        }
        proof {
            assert(n@.subrange(0, n@.len() as int) =~= n@);
            assert(pats@.len() == 5);
            assert(pats@[0]@ =~= spec_fuzzy_patterns(package_name@)[0]);
            assert(pats@[1]@ =~= spec_fuzzy_patterns(package_name@)[1]);
            assert(pats@[2]@ =~= spec_fuzzy_patterns(package_name@)[2]);
            assert(pats@[3]@ =~= spec_fuzzy_patterns(package_name@)[3]);
            assert(pats@[4]@ =~= spec_fuzzy_patterns(package_name@)[4]);
        }
        let ghost spats = spec_fuzzy_patterns(package_name@);
        assert(spats.skip(0) =~= spats);
        let mut k: usize = 0;
        while k < 5
            invariant
                0 <= k <= 5,
                spats.len() == 5,
                pats@.len() == 5,
                forall|m: int| 0 <= m < 5 ==> #[trigger] pats@[m]@ == spats[m],
                spec_fuzzy_match(self.rows@, *target_family, package_name@) == spec_fuzzy_from(
                    self.rows@,
                    *target_family,
                    spats.skip(k as int),
                ),
            decreases 5 - k,
        {
            assert(spats.skip(k as int)[0] == spats[k as int]);
            assert(spats.skip(k as int).drop_first() =~= spats.skip(k as int + 1));
            match find_fuzzy(&self.rows, target_family, &pats[k]) {
                Some(t) => {
                    return Some(
                        PackageMapping {
                            source: String::from_str(package_name),
                            target: t,
                            confidence: CONFIDENCE_FUZZY,
                        },
                    );
                },
                None => {
                    k = k + 1;
                },
            }
        }
        assert(spats.skip(5) =~= Seq::<Seq<char>>::empty());
        None
    }

    /// Idempotent upsert of an operator-supplied mapping; last write wins on
    /// the unique key. Keeps the table's keys unique.
    #[verifier::loop_isolation(false)]
    pub fn add_mapping(
        &mut self,
        source_family: DistroFamily,
        source_package: String,
        target_family: DistroFamily,
        target_package: String,
        confidence: u32,
    )
        requires
            confidence <= 100,
        ensures
            final(self).rows@ == spec_upsert(
                old(self).rows@,
                MappingRow {
                    source_family: source_family,
                    source_package: source_package,
                    target_family: target_family,
                    target_package: target_package,
                    confidence: confidence,
                },
            ),
            spec_rows_unique(old(self).rows@) ==> spec_rows_unique(final(self).rows@),
    {
        let row = MappingRow {
            source_family,
            source_package,
            target_family,
            target_package,
            confidence,
        };
        let ghost orig = self.rows@;
        let mut i: usize = 0;
        while i < self.rows.len()
            invariant
                0 <= i <= self.rows@.len(),
                self.rows@ == orig,
                forall|k: int| 0 <= k < i ==> !spec_same_key(#[trigger] orig[k], row),
            decreases self.rows@.len() - i,
        {
            let cand = &self.rows[i];
            if cand.source_family == row.source_family && crate::chars::str_eq(
                cand.source_package.as_str(),
                row.source_package.as_str(),
            ) && cand.target_family == row.target_family {
                assert(spec_same_key(orig[i as int], row));
                proof {
                    lemma_upsert_skip(orig, row, i as int);
                    assert(orig.skip(i as int)[0] == orig[i as int]);
                    assert(orig.skip(i as int).drop_first() =~= orig.skip(i as int + 1));
                }
                self.rows.set(i, row);
                proof {
                    let r2 = self.rows@;
                    assert(orig.skip(i as int).len() > 0);
                    assert(spec_same_key(orig.skip(i as int)[0], row));
                    assert(spec_upsert(orig.skip(i as int), row) == seq![row] + orig.skip(
                        i as int,
                    ).drop_first());
                    assert(spec_upsert(orig, row) == orig.take(i as int) + (seq![row] + orig.skip(
                        i as int + 1,
                    )));
                    assert(r2 =~= orig.take(i as int) + (seq![row] + orig.skip(i as int + 1)));
                    assert(r2 == spec_upsert(orig, row));
                    if spec_rows_unique(orig) {
                        assert forall|a: int, b: int|
                            0 <= a < b < r2.len() implies !spec_same_key(
                            #[trigger] r2[a],
                            #[trigger] r2[b],
                        ) by {
                            if a != i && b != i {
                                assert(r2[a] == orig[a] && r2[b] == orig[b]);
                            } else if a == i {
                                assert(r2[a] == row && r2[b] == orig[b]);
                                assert(!spec_same_key(orig[i as int], orig[b]));
                                lemma_same_key_bridge(orig[i as int], row, orig[b]);
                            } else {
                                assert(r2[a] == orig[a] && r2[b] == row);
                                assert(!spec_same_key(orig[a], orig[i as int]));
                                lemma_same_key_bridge(orig[i as int], row, orig[a]);
                            }
                        }
                    }
                }
                return ;
            }
            assert(!spec_same_key(orig[i as int], row));
            i = i + 1;
        }
        proof {
            lemma_upsert_skip(orig, row, orig.len() as int);
            assert(orig.skip(orig.len() as int) =~= Seq::<MappingRow>::empty());
        }
        self.rows.push(row);
        proof {
            assert(self.rows@ =~= orig.take(orig.len() as int) + seq![row]);
            assert(orig.take(orig.len() as int) =~= orig);
            if spec_rows_unique(orig) {
                let r2 = self.rows@;
                assert forall|a: int, b: int|
                    0 <= a < b < r2.len() implies !spec_same_key(
                    #[trigger] r2[a],
                    #[trigger] r2[b],
                ) by {
                    if b < orig.len() {
                        assert(r2[a] == orig[a] && r2[b] == orig[b]);
                    } else {
                        assert(r2[a] == orig[a] && r2[b] == row);
                    }
                }
            }
        }
    }
}

/// The row holds exactly this mapping at the exact confidence.
pub open spec fn spec_row_is(
    row: MappingRow,
    sf: DistroFamily,
    sp: Seq<char>,
    tf: DistroFamily,
    tp: Seq<char>,
) -> bool {
    row.source_family == sf && row.source_package@ == sp && row.target_family == tf
        && row.target_package@ == tp && row.confidence == CONFIDENCE_EXACT
}

/// The curated mappings the table is seeded with.
pub open spec fn spec_is_default_rows(rows: Seq<MappingRow>) -> bool {
    &&& rows.len() == 55
    &&& spec_row_is(rows[0], DistroFamily::Debian, "systemd"@, DistroFamily::Arch, "systemd"@)
    &&& spec_row_is(rows[1], DistroFamily::Debian, "systemd"@, DistroFamily::RedHat, "systemd"@)
    &&& spec_row_is(rows[2], DistroFamily::Debian, "bash"@, DistroFamily::Arch, "bash"@)
    &&& spec_row_is(rows[3], DistroFamily::Debian, "zsh"@, DistroFamily::Arch, "zsh"@)
    &&& spec_row_is(rows[4], DistroFamily::Debian, "fish"@, DistroFamily::Arch, "fish"@)
    &&& spec_row_is(rows[5], DistroFamily::Debian, "vim"@, DistroFamily::Arch, "vim"@)
    &&& spec_row_is(rows[6], DistroFamily::Debian, "neovim"@, DistroFamily::Arch, "neovim"@)
    &&& spec_row_is(rows[7], DistroFamily::Debian, "emacs"@, DistroFamily::Arch, "emacs"@)
    &&& spec_row_is(rows[8], DistroFamily::Debian, "nano"@, DistroFamily::Arch, "nano"@)
    &&& spec_row_is(rows[9], DistroFamily::Debian, "gcc"@, DistroFamily::Arch, "gcc"@)
    &&& spec_row_is(rows[10], DistroFamily::Debian, "g++"@, DistroFamily::Arch, "gcc"@)
    &&& spec_row_is(rows[11], DistroFamily::Debian, "make"@, DistroFamily::Arch, "make"@)
    &&& spec_row_is(rows[12], DistroFamily::Debian, "cmake"@, DistroFamily::Arch, "cmake"@)
    &&& spec_row_is(rows[13], DistroFamily::Debian, "git"@, DistroFamily::Arch, "git"@)
    &&& spec_row_is(rows[14], DistroFamily::Debian, "python3"@, DistroFamily::Arch, "python"@)
    &&& spec_row_is(rows[15], DistroFamily::Debian, "python3-pip"@, DistroFamily::Arch, "python-pip"@)
    &&& spec_row_is(rows[16], DistroFamily::Debian, "nodejs"@, DistroFamily::Arch, "nodejs"@)
    &&& spec_row_is(rows[17], DistroFamily::Debian, "npm"@, DistroFamily::Arch, "npm"@)
    &&& spec_row_is(rows[18], DistroFamily::Debian, "rust"@, DistroFamily::Arch, "rust"@)
    &&& spec_row_is(rows[19], DistroFamily::Debian, "cargo"@, DistroFamily::Arch, "rust"@)
    &&& spec_row_is(rows[20], DistroFamily::Debian, "libssl-dev"@, DistroFamily::Arch, "openssl"@)
    &&& spec_row_is(rows[21], DistroFamily::Debian, "libcurl4-openssl-dev"@, DistroFamily::Arch, "curl"@)
    &&& spec_row_is(rows[22], DistroFamily::Debian, "libsqlite3-dev"@, DistroFamily::Arch, "sqlite"@)
    &&& spec_row_is(rows[23], DistroFamily::Debian, "libpq-dev"@, DistroFamily::Arch, "postgresql-libs"@)
    &&& spec_row_is(rows[24], DistroFamily::Debian, "curl"@, DistroFamily::Arch, "curl"@)
    &&& spec_row_is(rows[25], DistroFamily::Debian, "wget"@, DistroFamily::Arch, "wget"@)
    &&& spec_row_is(rows[26], DistroFamily::Debian, "openssh-server"@, DistroFamily::Arch, "openssh"@)
    &&& spec_row_is(rows[27], DistroFamily::Debian, "openssh-client"@, DistroFamily::Arch, "openssh"@)
    &&& spec_row_is(rows[28], DistroFamily::Debian, "net-tools"@, DistroFamily::Arch, "net-tools"@)
    &&& spec_row_is(rows[29], DistroFamily::Debian, "kde-plasma-desktop"@, DistroFamily::Arch, "plasma-desktop"@)
    &&& spec_row_is(rows[30], DistroFamily::Debian, "gnome"@, DistroFamily::Arch, "gnome"@)
    &&& spec_row_is(rows[31], DistroFamily::Debian, "xfce4"@, DistroFamily::Arch, "xfce4"@)
    &&& spec_row_is(rows[32], DistroFamily::Debian, "xorg"@, DistroFamily::Arch, "xorg-server"@)
    &&& spec_row_is(rows[33], DistroFamily::Debian, "wayland"@, DistroFamily::Arch, "wayland"@)
    &&& spec_row_is(rows[34], DistroFamily::Debian, "firefox"@, DistroFamily::Arch, "firefox"@)
    &&& spec_row_is(rows[35], DistroFamily::Debian, "chromium"@, DistroFamily::Arch, "chromium"@)
    &&& spec_row_is(rows[36], DistroFamily::Debian, "vlc"@, DistroFamily::Arch, "vlc"@)
    &&& spec_row_is(rows[37], DistroFamily::Debian, "ffmpeg"@, DistroFamily::Arch, "ffmpeg"@)
    &&& spec_row_is(rows[38], DistroFamily::Arch, "systemd"@, DistroFamily::Debian, "systemd"@)
    &&& spec_row_is(rows[39], DistroFamily::Arch, "bash"@, DistroFamily::Debian, "bash"@)
    &&& spec_row_is(rows[40], DistroFamily::Arch, "vim"@, DistroFamily::Debian, "vim"@)
    &&& spec_row_is(rows[41], DistroFamily::Arch, "python"@, DistroFamily::Debian, "python3"@)
    &&& spec_row_is(rows[42], DistroFamily::Arch, "python-pip"@, DistroFamily::Debian, "python3-pip"@)
    &&& spec_row_is(rows[43], DistroFamily::Arch, "gcc"@, DistroFamily::Debian, "gcc"@)
    &&& spec_row_is(rows[44], DistroFamily::Arch, "openssh"@, DistroFamily::Debian, "openssh-server"@)
    &&& spec_row_is(rows[45], DistroFamily::Arch, "systemd"@, DistroFamily::RedHat, "systemd"@)
    &&& spec_row_is(rows[46], DistroFamily::Arch, "bash"@, DistroFamily::RedHat, "bash"@)
    &&& spec_row_is(rows[47], DistroFamily::Arch, "vim"@, DistroFamily::RedHat, "vim"@)
    &&& spec_row_is(rows[48], DistroFamily::Arch, "python"@, DistroFamily::RedHat, "python3"@)
    &&& spec_row_is(rows[49], DistroFamily::Arch, "python-pip"@, DistroFamily::RedHat, "python3-pip"@)
    &&& spec_row_is(rows[50], DistroFamily::RedHat, "systemd"@, DistroFamily::Arch, "systemd"@)
    &&& spec_row_is(rows[51], DistroFamily::RedHat, "bash"@, DistroFamily::Arch, "bash"@)
    &&& spec_row_is(rows[52], DistroFamily::RedHat, "vim"@, DistroFamily::Arch, "vim"@)
    &&& spec_row_is(rows[53], DistroFamily::RedHat, "python3"@, DistroFamily::Arch, "python"@)
    &&& spec_row_is(rows[54], DistroFamily::RedHat, "python3-pip"@, DistroFamily::Arch, "python-pip"@)
}

/// Builds one seeded row at the exact confidence.
fn mk_row(sf: DistroFamily, sp: &str, tf: DistroFamily, tp: &str) -> (r: MappingRow)
    ensures
        spec_row_is(r, sf, sp@, tf, tp@),
{
    MappingRow {
        source_family: sf,
        source_package: String::from_str(sp),
        target_family: tf,
        target_package: String::from_str(tp),
        confidence: CONFIDENCE_EXACT,
    }
}

/// The seeded translation table, in its curated order.
#[verifier::rlimit(60)]
pub fn default_mappings() -> (r: Vec<MappingRow>)
    ensures
        spec_is_default_rows(r@),
{
    let mut rows: Vec<MappingRow> = Vec::new();
    rows.push(mk_row(DistroFamily::Debian, "systemd", DistroFamily::Arch, "systemd"));
    rows.push(mk_row(DistroFamily::Debian, "systemd", DistroFamily::RedHat, "systemd"));
    rows.push(mk_row(DistroFamily::Debian, "bash", DistroFamily::Arch, "bash"));
    rows.push(mk_row(DistroFamily::Debian, "zsh", DistroFamily::Arch, "zsh"));
    rows.push(mk_row(DistroFamily::Debian, "fish", DistroFamily::Arch, "fish"));
    rows.push(mk_row(DistroFamily::Debian, "vim", DistroFamily::Arch, "vim"));
    rows.push(mk_row(DistroFamily::Debian, "neovim", DistroFamily::Arch, "neovim"));
    rows.push(mk_row(DistroFamily::Debian, "emacs", DistroFamily::Arch, "emacs"));
    rows.push(mk_row(DistroFamily::Debian, "nano", DistroFamily::Arch, "nano"));
    rows.push(mk_row(DistroFamily::Debian, "gcc", DistroFamily::Arch, "gcc"));
    rows.push(mk_row(DistroFamily::Debian, "g++", DistroFamily::Arch, "gcc"));
    rows.push(mk_row(DistroFamily::Debian, "make", DistroFamily::Arch, "make"));
    rows.push(mk_row(DistroFamily::Debian, "cmake", DistroFamily::Arch, "cmake"));
    rows.push(mk_row(DistroFamily::Debian, "git", DistroFamily::Arch, "git"));
    rows.push(mk_row(DistroFamily::Debian, "python3", DistroFamily::Arch, "python"));
    rows.push(mk_row(DistroFamily::Debian, "python3-pip", DistroFamily::Arch, "python-pip"));
    rows.push(mk_row(DistroFamily::Debian, "nodejs", DistroFamily::Arch, "nodejs"));
    rows.push(mk_row(DistroFamily::Debian, "npm", DistroFamily::Arch, "npm"));
    rows.push(mk_row(DistroFamily::Debian, "rust", DistroFamily::Arch, "rust"));
    rows.push(mk_row(DistroFamily::Debian, "cargo", DistroFamily::Arch, "rust"));
    rows.push(mk_row(DistroFamily::Debian, "libssl-dev", DistroFamily::Arch, "openssl"));
    rows.push(mk_row(DistroFamily::Debian, "libcurl4-openssl-dev", DistroFamily::Arch, "curl"));
    rows.push(mk_row(DistroFamily::Debian, "libsqlite3-dev", DistroFamily::Arch, "sqlite"));
    rows.push(mk_row(DistroFamily::Debian, "libpq-dev", DistroFamily::Arch, "postgresql-libs"));
    rows.push(mk_row(DistroFamily::Debian, "curl", DistroFamily::Arch, "curl"));
    rows.push(mk_row(DistroFamily::Debian, "wget", DistroFamily::Arch, "wget"));
    rows.push(mk_row(DistroFamily::Debian, "openssh-server", DistroFamily::Arch, "openssh"));
    rows.push(mk_row(DistroFamily::Debian, "openssh-client", DistroFamily::Arch, "openssh"));
    rows.push(mk_row(DistroFamily::Debian, "net-tools", DistroFamily::Arch, "net-tools"));
    rows.push(mk_row(DistroFamily::Debian, "kde-plasma-desktop", DistroFamily::Arch, "plasma-desktop"));
    rows.push(mk_row(DistroFamily::Debian, "gnome", DistroFamily::Arch, "gnome"));
    rows.push(mk_row(DistroFamily::Debian, "xfce4", DistroFamily::Arch, "xfce4"));
    rows.push(mk_row(DistroFamily::Debian, "xorg", DistroFamily::Arch, "xorg-server"));
    rows.push(mk_row(DistroFamily::Debian, "wayland", DistroFamily::Arch, "wayland"));
    rows.push(mk_row(DistroFamily::Debian, "firefox", DistroFamily::Arch, "firefox"));
    rows.push(mk_row(DistroFamily::Debian, "chromium", DistroFamily::Arch, "chromium"));
    rows.push(mk_row(DistroFamily::Debian, "vlc", DistroFamily::Arch, "vlc"));
    rows.push(mk_row(DistroFamily::Debian, "ffmpeg", DistroFamily::Arch, "ffmpeg"));
    rows.push(mk_row(DistroFamily::Arch, "systemd", DistroFamily::Debian, "systemd"));
    rows.push(mk_row(DistroFamily::Arch, "bash", DistroFamily::Debian, "bash"));
    rows.push(mk_row(DistroFamily::Arch, "vim", DistroFamily::Debian, "vim"));
    rows.push(mk_row(DistroFamily::Arch, "python", DistroFamily::Debian, "python3"));
    rows.push(mk_row(DistroFamily::Arch, "python-pip", DistroFamily::Debian, "python3-pip"));
    rows.push(mk_row(DistroFamily::Arch, "gcc", DistroFamily::Debian, "gcc"));
    rows.push(mk_row(DistroFamily::Arch, "openssh", DistroFamily::Debian, "openssh-server"));
    rows.push(mk_row(DistroFamily::Arch, "systemd", DistroFamily::RedHat, "systemd"));
    rows.push(mk_row(DistroFamily::Arch, "bash", DistroFamily::RedHat, "bash"));
    rows.push(mk_row(DistroFamily::Arch, "vim", DistroFamily::RedHat, "vim"));
    rows.push(mk_row(DistroFamily::Arch, "python", DistroFamily::RedHat, "python3"));
    rows.push(mk_row(DistroFamily::Arch, "python-pip", DistroFamily::RedHat, "python3-pip"));
    rows.push(mk_row(DistroFamily::RedHat, "systemd", DistroFamily::Arch, "systemd"));
    rows.push(mk_row(DistroFamily::RedHat, "bash", DistroFamily::Arch, "bash"));
    rows.push(mk_row(DistroFamily::RedHat, "vim", DistroFamily::Arch, "vim"));
    rows.push(mk_row(DistroFamily::RedHat, "python3", DistroFamily::Arch, "python"));
    rows.push(mk_row(DistroFamily::RedHat, "python3-pip", DistroFamily::Arch, "python-pip"));
    rows
}

impl PackageTranslator {
    /// A translator seeded with the curated default mappings.
    pub fn new() -> (r: Self)
        ensures
            spec_is_default_rows(r.rows@),
    {
        PackageTranslator { rows: default_mappings() }
    }
}

/// The essential packages of a distribution family.
pub open spec fn spec_essential_packages(f: DistroFamily) -> Seq<Seq<char>> {
    match f {
        DistroFamily::Arch => seq!["base"@, "linux"@, "linux-firmware"@, "base-devel"@],
        DistroFamily::Debian => seq!["base-files"@, "base-passwd"@, "bash"@, "coreutils"@],
        DistroFamily::RedHat => seq!["basesystem"@, "bash"@, "coreutils"@, "systemd"@],
        _ => Seq::<Seq<char>>::empty(),
    }
}

/// The essential packages migration must install for a family.
pub fn get_essential_packages(family: &DistroFamily) -> (r: Vec<String>)
    ensures
        r.deep_view() == spec_essential_packages(*family),
{
    let mut r: Vec<String> = Vec::new();
    match family {
        DistroFamily::Arch => {
            r.push(String::from_str("base"));
            r.push(String::from_str("linux"));
            r.push(String::from_str("linux-firmware"));
            r.push(String::from_str("base-devel"));
        },
        DistroFamily::Debian => {
            r.push(String::from_str("base-files"));
            r.push(String::from_str("base-passwd"));
            r.push(String::from_str("bash"));
            r.push(String::from_str("coreutils"));
        },
        DistroFamily::RedHat => {
            r.push(String::from_str("basesystem"));
            r.push(String::from_str("bash"));
            r.push(String::from_str("coreutils"));
            r.push(String::from_str("systemd"));
        },
        _ => {},
    }
    assert(r.deep_view() =~= spec_essential_packages(*family));
    r
}


/// The names of a list of installed packages, in order.
pub open spec fn spec_names(pkgs: Seq<InstalledPackage>) -> Seq<Seq<char>> {
    pkgs.map_values(|p: InstalledPackage| p.name@)
}

/// What translating a list of names yields: the `(translated, untranslated,
/// skipped)` partition, in input order within each part. A name on the
/// denylist is skipped; otherwise an exact table hit wins at full confidence;
/// otherwise a fuzzy hit at the advisory confidence; otherwise the name is
/// untranslated.
pub open spec fn spec_translate(
    rows: Seq<MappingRow>,
    sf: DistroFamily,
    tf: DistroFamily,
    names: Seq<Seq<char>>,
) -> (Seq<MappingView>, Seq<Seq<char>>, Seq<Seq<char>>)
    decreases names.len(),
{
    if names.len() == 0 {
        (Seq::<MappingView>::empty(), Seq::<Seq<char>>::empty(), Seq::<Seq<char>>::empty())
    } else {
        let rest = spec_translate(rows, sf, tf, names.drop_first());
        let n = names[0];
        if spec_is_system_package(n) {
            (rest.0, rest.1, seq![n] + rest.2)
        } else {
            match spec_find_exact(rows, sf, tf, n) {
                Some(row) => (
                    seq![
                        MappingView {
                            source: n,
                            target: row.target_package@,
                            confidence: CONFIDENCE_EXACT,
                        },
                    ] + rest.0,
                    rest.1,
                    rest.2,
                ),
                None => match spec_fuzzy_match(rows, tf, n) {
                    Some(t) => (
                        seq![MappingView { source: n, target: t, confidence: CONFIDENCE_FUZZY }]
                            + rest.0,
                        rest.1,
                        rest.2,
                    ),
                    None => (rest.0, seq![n] + rest.1, rest.2),
                },
            }
        }
    }
}

impl PackageTranslator {
    /// Translates a list of installed packages into the three-way partition,
    /// processing the list in order.
    #[verifier::loop_isolation(false)]
    pub fn translate_packages(
        &self,
        source_family: &DistroFamily,
        target_family: &DistroFamily,
        packages: &Vec<InstalledPackage>,
    ) -> (r: TranslationResult)
        ensures
            ({
                let t = spec_translate(
                    self.rows@,
                    *source_family,
                    *target_family,
                    spec_names(packages@),
                );
                &&& spec_mappings_view(r.translated@) == t.0
                &&& spec_strings_view(r.untranslated@) == t.1
                &&& spec_strings_view(r.skipped@) == t.2
            }),
    {
        let ghost names = spec_names(packages@);
        let ghost t = spec_translate(self.rows@, *source_family, *target_family, names);
        let mut translated: Vec<PackageMapping> = Vec::new();
        let mut untranslated: Vec<String> = Vec::new();
        let mut skipped: Vec<String> = Vec::new();
        assert(names.skip(0) =~= names);
        let mut i: usize = 0;
        while i < packages.len()
            invariant
                0 <= i <= packages@.len(),
                t.0 == spec_mappings_view(translated@) + spec_translate(
                    self.rows@,
                    *source_family,
                    *target_family,
                    names.skip(i as int),
                ).0,
                t.1 == spec_strings_view(untranslated@) + spec_translate(
                    self.rows@,
                    *source_family,
                    *target_family,
                    names.skip(i as int),
                ).1,
                t.2 == spec_strings_view(skipped@) + spec_translate(
                    self.rows@,
                    *source_family,
                    *target_family,
                    names.skip(i as int),
                ).2,
            decreases packages@.len() - i,
        {
            proof {
                assert(names.skip(i as int)[0] == names[i as int]);
                assert(names[i as int] == packages@[i as int].name@);
                assert(names.skip(i as int).drop_first() =~= names.skip(i as int + 1));
            }
            let ghost rest = spec_translate(
                self.rows@,
                *source_family,
                *target_family,
                names.skip(i as int + 1),
            );
            let name_str = packages[i].name.as_str();
            if is_system_package(name_str) {
                skipped.push(packages[i].name.clone());
                proof {
                    assert(spec_strings_view(skipped@) =~= spec_strings_view(
                        skipped@.drop_last(),
                    ) + seq![names[i as int]]);
                    assert(spec_strings_view(skipped@.drop_last()) + (seq![names[i as int]]
                        + rest.2) =~= spec_strings_view(skipped@) + rest.2);
                }
            } else {
                match self.translate_package(source_family, target_family, name_str) {
                    Some(target) => {
                        let m = PackageMapping {
                            source: packages[i].name.clone(),
                            target,
                            confidence: CONFIDENCE_EXACT,
                        };
                        let ghost mv = m@;
                        translated.push(m);
                        proof {
                            assert(spec_mappings_view(translated@) =~= spec_mappings_view(
                                translated@.drop_last(),
                            ) + seq![mv]);
                            assert(spec_mappings_view(translated@.drop_last()) + (seq![mv]
                                + rest.0) =~= spec_mappings_view(translated@) + rest.0);
                        }
                    },
                    None => {
                        match self.fuzzy_match(name_str, target_family) {
                            Some(m) => {
                                let ghost mv = m@;
                                translated.push(m);
                                proof {
                                    assert(spec_mappings_view(translated@) =~= spec_mappings_view(
                                        translated@.drop_last(),
                                    ) + seq![mv]);
                                    assert(spec_mappings_view(translated@.drop_last()) + (seq![mv]
                                        + rest.0) =~= spec_mappings_view(translated@) + rest.0);
                                }
                            },
                            None => {
                                untranslated.push(packages[i].name.clone());
                                proof {
                                    assert(spec_strings_view(untranslated@) =~= spec_strings_view(
                                        untranslated@.drop_last(),
                                    ) + seq![names[i as int]]);
                                    assert(spec_strings_view(untranslated@.drop_last()) + (seq![
                                        names[i as int],
                                    ] + rest.1) =~= spec_strings_view(untranslated@) + rest.1);
                                }
                            },
                        }
                    },
                }
            }
            i = i + 1;
        }
        proof {
            assert(names.skip(packages@.len() as int) =~= Seq::<Seq<char>>::empty());
            let e = spec_translate(
                self.rows@,
                *source_family,
                *target_family,
                Seq::<Seq<char>>::empty(),
            );
            assert(spec_mappings_view(translated@) + e.0 =~= spec_mappings_view(translated@));
            assert(spec_strings_view(untranslated@) + e.1 =~= spec_strings_view(untranslated@));
            assert(spec_strings_view(skipped@) + e.2 =~= spec_strings_view(skipped@));
        }
        TranslationResult { translated, untranslated, skipped }
    }
}

/// Translation is deterministic: the partition is a function of the mapping
/// table, the family pair and the installed-package list alone, so two runs
/// over identical inputs yield identical `translated`, `untranslated` and
/// `skipped` parts in the same order.
pub proof fn lemma_translate_deterministic(
    rows: Seq<MappingRow>,
    sf: DistroFamily,
    tf: DistroFamily,
    names: Seq<Seq<char>>,
    r1: (Seq<MappingView>, Seq<Seq<char>>, Seq<Seq<char>>),
    r2: (Seq<MappingView>, Seq<Seq<char>>, Seq<Seq<char>>),
)
    requires
        r1 == spec_translate(rows, sf, tf, names),
        r2 == spec_translate(rows, sf, tf, names),
    ensures
        r1 == r2,
{
}

/// Denylist correctness: a name on the system-critical denylist never appears
/// among the translated sources nor among the untranslated names, and every
/// occurrence of it in the input ends up in the skipped part.
pub proof fn lemma_denylist_correct(
    rows: Seq<MappingRow>,
    sf: DistroFamily,
    tf: DistroFamily,
    names: Seq<Seq<char>>,
    x: Seq<char>,
)
    requires
        spec_is_system_package(x),
    ensures
        !spec_translate(rows, sf, tf, names).1.contains(x),
        forall|k: int|
            0 <= k < spec_translate(rows, sf, tf, names).0.len() ==> (#[trigger] spec_translate(
                rows,
                sf,
                tf,
                names,
            ).0[k]).source != x,
        names.contains(x) ==> spec_translate(rows, sf, tf, names).2.contains(x),
    decreases names.len(),
{
    if names.len() > 0 {
        lemma_denylist_correct(rows, sf, tf, names.drop_first(), x);
        let t = spec_translate(rows, sf, tf, names);
        let rest = spec_translate(rows, sf, tf, names.drop_first());
        let n = names[0];
        if spec_is_system_package(n) {
            assert(t.2 == seq![n] + rest.2);
            assert(t.2[0] == n);
            if names.contains(x) {
                if n == x {
                    assert(t.2.contains(x)) by {
                        assert(t.2[0] == x);
                    }
                } else {
                    let j = choose|j: int| 0 <= j < names.len() && names[j] == x;
                    assert(names.drop_first()[j - 1] == x);
                    assert(names.drop_first().contains(x));
                    let k = choose|k: int| 0 <= k < rest.2.len() && rest.2[k] == x;
                    assert(t.2[k + 1] == x);
                    assert(t.2.contains(x));
                }
            }
        } else {
            assert(n != x);
            if names.contains(x) {
                let j = choose|j: int| 0 <= j < names.len() && names[j] == x;
                assert(j != 0);
                assert(names.drop_first()[j - 1] == x);
                assert(names.drop_first().contains(x));
                assert(t.2 == rest.2);
                let k = choose|k: int| 0 <= k < rest.2.len() && rest.2[k] == x;
                assert(t.2[k] == x);
                assert(t.2.contains(x));
            }
            if t.1 != rest.1 {
                assert(t.1 == seq![n] + rest.1);
                assert forall|k: int| 0 <= k < t.1.len() implies t.1[k] != x by {
                    if k == 0 {
                        assert(t.1[0] == n);
                    } else {
                        assert(t.1[k] == rest.1[k - 1]);
                        assert(!rest.1.contains(x));
                    }
                }
                if t.1.contains(x) {
                    let k = choose|k: int| 0 <= k < t.1.len() && t.1[k] == x;
                }
            }
            if t.0 != rest.0 {
                assert forall|k: int| 0 <= k < t.0.len() implies (#[trigger] t.0[k]).source != x
                    by {
                    if k == 0 {
                        assert(t.0[0].source == n);
                    } else {
                        assert(t.0[k] == rest.0[k - 1]);
                    }
                }
            }
        }
    }
}

/// Confidence ordering: whenever the table holds an exact mapping for a name
/// that is not denylisted, every translated entry for that name carries the
/// exact confidence and the exact target -- the fuzzy path is never taken --
/// and each occurrence of the name in the input yields such an entry.
pub proof fn lemma_exact_preferred(
    rows: Seq<MappingRow>,
    sf: DistroFamily,
    tf: DistroFamily,
    names: Seq<Seq<char>>,
    n: Seq<char>,
)
    requires
        !spec_is_system_package(n),
        spec_find_exact(rows, sf, tf, n) is Some,
    ensures
        forall|k: int|
            0 <= k < spec_translate(rows, sf, tf, names).0.len() && (#[trigger] spec_translate(
                rows,
                sf,
                tf,
                names,
            ).0[k]).source == n ==> spec_translate(rows, sf, tf, names).0[k].confidence
                == CONFIDENCE_EXACT && spec_translate(rows, sf, tf, names).0[k].target
                == spec_find_exact(rows, sf, tf, n)->Some_0.target_package@,
        names.contains(n) ==> spec_translate(rows, sf, tf, names).0.contains(
            MappingView {
                source: n,
                target: spec_find_exact(rows, sf, tf, n)->Some_0.target_package@,
                confidence: CONFIDENCE_EXACT,
            },
        ),
    decreases names.len(),
{
    if names.len() > 0 {
        lemma_exact_preferred(rows, sf, tf, names.drop_first(), n);
        let t = spec_translate(rows, sf, tf, names);
        let rest = spec_translate(rows, sf, tf, names.drop_first());
        let h = names[0];
        let mv = MappingView {
            source: n,
            target: spec_find_exact(rows, sf, tf, n)->Some_0.target_package@,
            confidence: CONFIDENCE_EXACT,
        };
        if t.0 != rest.0 {
            assert forall|k: int|
                0 <= k < t.0.len() && (#[trigger] t.0[k]).source == n implies t.0[k].confidence
                == CONFIDENCE_EXACT && t.0[k].target == spec_find_exact(
                rows,
                sf,
                tf,
                n,
            )->Some_0.target_package@ by {
                if k == 0 {
                    assert(t.0[0].source == h);
                } else {
                    assert(t.0[k] == rest.0[k - 1]);
                }
            }
        }
        if names.contains(n) {
            if h == n {
                assert(t.0[0] == mv);
                assert(t.0.contains(mv));
            } else {
                let j = choose|j: int| 0 <= j < names.len() && names[j] == n;
                assert(j != 0);
                assert(names.drop_first()[j - 1] == n);
                assert(names.drop_first().contains(n));
                let k = choose|k: int| 0 <= k < rest.0.len() && rest.0[k] == mv;
                if t.0 == rest.0 {
                    assert(t.0.contains(mv));
                } else {
                    assert(t.0[k + 1] == mv);
                    assert(t.0.contains(mv));
                }
            }
        }
    }
}


/// Does a row's key equal another's? Decided over the families and the
/// source package.
fn same_key(a: &MappingRow, b: &MappingRow) -> (r: bool)
    ensures
        r == spec_same_key(*a, *b),
{
    a.source_family == b.source_family && crate::chars::str_eq(
        a.source_package.as_str(),
        b.source_package.as_str(),
    ) && a.target_family == b.target_family
}

/// Checks that no two rows of a table share a key, as the schema requires;
/// `add_mapping` preserves this shape once it holds.
#[verifier::loop_isolation(false)]
pub fn rows_keys_unique(rows: &Vec<MappingRow>) -> (r: bool)
    ensures
        r == spec_rows_unique(rows@),
{
    let mut i: usize = 0;
    while i < rows.len()
        invariant
            0 <= i <= rows@.len(),
            forall|a: int, b: int|
                0 <= a < b < rows@.len() && a < i ==> !spec_same_key(
                    #[trigger] rows@[a],
                    #[trigger] rows@[b],
                ),
        decreases rows@.len() - i,
    {
        let mut j: usize = i + 1;
        while j < rows.len()
            invariant
                0 <= i < j <= rows@.len(),
                forall|b: int| i < b < j ==> !spec_same_key(rows@[i as int], #[trigger] rows@[b]),
            decreases rows@.len() - j,
        {
            if same_key(&rows[i], &rows[j]) {
                return false;
            }
            j = j + 1;
        }
        i = i + 1;
    }
    true
}

} // verus!
