//! The snapshot metadata format: one JSON document per snapshot with a fixed
//! field order, rendered and parsed by the library itself, with a proof that
//! parsing inverts rendering on every snapshot.
use vstd::prelude::*;
use crate::config::{Snapshot, SnapshotType};
use crate::numfmt::{
    lemma_dec_val_nonneg, lemma_parse_render_i64, lemma_parse_render_u64, lemma_render_dec_props,
    lemma_render_dec_no_minus, parse_dec_u64, parse_int_i64, render_dec_u64, render_int_i64,
    spec_all_digits, spec_is_digit, spec_parse_i64, spec_parse_u64, spec_render_dec,
    spec_render_int,
};

verus! {

/// How one character is written inside a quoted string: quote, backslash and
/// the common control characters are escaped, everything else stands as is.
pub open spec fn spec_escape_char(c: char) -> Seq<char> {
    if c == '"' {
        seq!['\\', '"']
    } else if c == '\\' {
        seq!['\\', '\\']
    } else if c == '\n' {
        seq!['\\', 'n']
    } else if c == '\r' {
        seq!['\\', 'r']
    } else if c == '\t' {
        seq!['\\', 't']
    } else {
        seq![c]
    }
}

/// The escaped form of a string's characters.
pub open spec fn spec_escape(s: Seq<char>) -> Seq<char>
    decreases s.len(),
{
    if s.len() == 0 {
        Seq::<char>::empty()
    } else {
        spec_escape_char(s[0]) + spec_escape(s.drop_first())
    }
}

/// Escaping one more character appends its escaped form.
pub proof fn lemma_escape_snoc(s: Seq<char>, c: char)
    ensures
        spec_escape(s.push(c)) == spec_escape(s) + spec_escape_char(c),
    decreases s.len(),
{
    if s.len() == 0 {
        assert(s.push(c)[0] == c);
        assert(s.push(c).drop_first() =~= Seq::<char>::empty());
        assert(spec_escape(Seq::<char>::empty()) == Seq::<char>::empty());
        assert(spec_escape(s.push(c)) =~= spec_escape_char(c));
        assert(spec_escape(s) + spec_escape_char(c) =~= spec_escape_char(c));
    } else {
        assert(s.push(c)[0] == s[0]);
        assert(s.push(c).drop_first() =~= s.drop_first().push(c));
        lemma_escape_snoc(s.drop_first(), c);
        assert(spec_escape(s.push(c)) == spec_escape_char(s[0]) + (spec_escape(s.drop_first())
            + spec_escape_char(c)));
        assert(spec_escape_char(s[0]) + (spec_escape(s.drop_first()) + spec_escape_char(c)) =~= (
        spec_escape_char(s[0]) + spec_escape(s.drop_first())) + spec_escape_char(c));
    }
}

/// The character may follow a backslash.
pub open spec fn spec_escape_code(c: char) -> bool {
    c == '"' || c == '\\' || c == 'n' || c == 'r' || c == 't'
}

/// The character an escape code stands for.
pub open spec fn spec_unescape_char(c: char) -> char {
    if c == 'n' {
        '\n'
    } else if c == 'r' {
        '\r'
    } else if c == 't' {
        '\t'
    } else {
        c
    }
}

/// Parses a quoted string's body up to and including its closing quote:
/// the decoded characters and how many input characters were consumed.
pub open spec fn spec_parse_strbody(s: Seq<char>) -> Option<(Seq<char>, int)>
    decreases s.len(),
{
    if s.len() == 0 {
        None
    } else if s[0] == '"' {
        Some((Seq::<char>::empty(), 1))
    } else if s[0] == '\\' {
        if s.len() >= 2 && spec_escape_code(s[1]) {
            match spec_parse_strbody(s.skip(2)) {
                Some((t, used)) => Some((seq![spec_unescape_char(s[1])] + t, 2 + used)),
                None => None,
            }
        } else {
            None
        }
    } else {
        match spec_parse_strbody(s.drop_first()) {
            Some((t, used)) => Some((seq![s[0]] + t, 1 + used)),
            None => None,
        }
    }
}

/// Parsing a string body inverts escaping, wherever the escaped text stands:
/// the decoded text is the original and exactly the escaped text and the
/// closing quote are consumed.
pub proof fn lemma_parse_escape(x: Seq<char>, rest: Seq<char>)
    ensures
        spec_parse_strbody(spec_escape(x) + seq!['"'] + rest) == Some(
            (x, spec_escape(x).len() as int + 1),
        ),
    decreases x.len(),
{
    let input = spec_escape(x) + seq!['"'] + rest;
    if x.len() == 0 {
        assert(spec_escape(x) =~= Seq::<char>::empty());
        assert(input[0] == '"');
        assert(spec_parse_strbody(input) == Some((Seq::<char>::empty(), 1int)));
        assert(x =~= Seq::<char>::empty());
    } else {
        lemma_parse_escape(x.drop_first(), rest);
        let c = x[0];
        let ec = spec_escape_char(c);
        let tailesc = spec_escape(x.drop_first());
        assert(spec_escape(x) == ec + tailesc);
        let subinput = tailesc + seq!['"'] + rest;
        if c == '"' || c == '\\' || c == '\n' || c == '\r' || c == '\t' {
            assert(ec.len() == 2);
            assert(input[0] == ec[0] && input[1] == ec[1]);
            assert(input[0] == '\\');
            assert(spec_escape_code(input[1]));
            assert(input.len() >= 2);
            assert(input.skip(2) =~= subinput);
            assert(spec_unescape_char(input[1]) == c);
            assert(spec_parse_strbody(subinput) == Some(
                (x.drop_first(), tailesc.len() as int + 1),
            ));
            assert(spec_parse_strbody(input) == Some(
                (seq![c] + x.drop_first(), 2 + tailesc.len() as int + 1),
            ));
            assert(seq![c] + x.drop_first() =~= x);
            assert(spec_escape(x).len() + 1 == 2 + tailesc.len() + 1);
        } else {
            assert(ec =~= seq![c]);
            assert(input[0] == c);
            assert(c != '"' && c != '\\');
            assert(input.drop_first() =~= subinput);
            assert(spec_parse_strbody(subinput) == Some(
                (x.drop_first(), tailesc.len() as int + 1),
            ));
            assert(seq![c] + x.drop_first() =~= x);
            assert(spec_escape(x).len() + 1 == 1 + tailesc.len() + 1);
        }
    }
}

/// Spec-level image of snapshot metadata.
pub ghost struct SnapshotV {
    pub id: Seq<char>,
    pub timestamp: int,
    pub distro_name: Seq<char>,
    pub distro_version: Seq<char>,
    pub description: Seq<char>,
    pub snapshot_type: SnapshotType,
    pub size_bytes: int,
    pub path: Seq<char>,
}

impl View for Snapshot {
    type V = SnapshotV;

    open spec fn view(&self) -> SnapshotV {
        SnapshotV {
            id: self.id@,
            timestamp: self.timestamp as int,
            distro_name: self.distro_name@,
            distro_version: self.distro_version@,
            description: self.description@,
            snapshot_type: self.snapshot_type,
            size_bytes: self.size_bytes as int,
            path: self.path@,
        }
    }
}

/// The tag a snapshot type is written as.
pub open spec fn spec_sntype_lit(t: SnapshotType) -> Seq<char> {
    match t {
        SnapshotType::Btrfs => "Btrfs"@,
        SnapshotType::LVM => "LVM"@,
        SnapshotType::Rsync => "Rsync"@,
    }
}

/// The tail of the document from the path field on.
pub open spec fn spec_render_tail_path(v: SnapshotV) -> Seq<char> {
    ",\"path\":\""@ + (spec_escape(v.path) + (seq!['"'] + "}"@))
}

/// The tail of the document from the size field on.
pub open spec fn spec_render_tail_size(v: SnapshotV) -> Seq<char> {
    ",\"size_bytes\":"@ + (spec_render_dec(v.size_bytes as nat) + spec_render_tail_path(v))
}

/// The tail of the document from the snapshot-type field on.
pub open spec fn spec_render_tail_type(v: SnapshotV) -> Seq<char> {
    ",\"snapshot_type\":\""@ + (spec_sntype_lit(v.snapshot_type) + (seq!['"']
        + spec_render_tail_size(v)))
}

/// The tail of the document from the description field on.
pub open spec fn spec_render_tail_desc(v: SnapshotV) -> Seq<char> {
    ",\"description\":\""@ + (spec_escape(v.description) + (seq!['"'] + spec_render_tail_type(v)))
}

/// The tail of the document from the distro-version field on.
pub open spec fn spec_render_tail_dv(v: SnapshotV) -> Seq<char> {
    ",\"distro_version\":\""@ + (spec_escape(v.distro_version) + (seq!['"']
        + spec_render_tail_desc(v)))
}

/// The tail of the document from the distro-name field on.
pub open spec fn spec_render_tail_dn(v: SnapshotV) -> Seq<char> {
    ",\"distro_name\":\""@ + (spec_escape(v.distro_name) + (seq!['"'] + spec_render_tail_dv(v)))
}

/// The tail of the document from the timestamp field on.
pub open spec fn spec_render_tail_ts(v: SnapshotV) -> Seq<char> {
    ",\"timestamp\":"@ + (spec_render_int(v.timestamp) + spec_render_tail_dn(v))
}

/// The metadata document of a snapshot: one JSON object with a fixed field
/// order.
pub open spec fn spec_render_snapshot(v: SnapshotV) -> Seq<char> {
    "{\"id\":\""@ + (spec_escape(v.id) + (seq!['"'] + spec_render_tail_ts(v)))
}

/// The literal stands at position `i`; parsing moves past it.
pub open spec fn spec_expect(s: Seq<char>, i: int, lit: Seq<char>) -> Option<int> {
    if 0 <= i && i + lit.len() <= s.len() && s.subrange(i, i + lit.len()) == lit {
        Some(i + lit.len())
    } else {
        None
    }
}

/// A quoted string's body starting at `i`: the decoded text and the position
/// after the closing quote.
pub open spec fn spec_parse_string_at(s: Seq<char>, i: int) -> Option<(Seq<char>, int)> {
    if 0 <= i <= s.len() {
        match spec_parse_strbody(s.skip(i)) {
            Some((t, used)) => Some((t, i + used)),
            None => None,
        }
    } else {
        None
    }
}

/// How many decimal digits stand at the front of `s`.
pub open spec fn spec_digit_prefix_len(s: Seq<char>) -> int
    decreases s.len(),
{
    if s.len() > 0 && spec_is_digit(s[0]) {
        1 + spec_digit_prefix_len(s.drop_first())
    } else {
        0
    }
}

/// The digit prefix of digits followed by a non-digit is exactly the digits.
pub proof fn lemma_digit_prefix_concat(d: Seq<char>, rest: Seq<char>)
    requires
        spec_all_digits(d),
        rest.len() > 0,
        !spec_is_digit(rest[0]),
    ensures
        spec_digit_prefix_len(d + rest) == d.len(),
    decreases d.len(),
{
    if d.len() == 0 {
        assert(d + rest =~= rest);
    } else {
        assert(spec_all_digits(d.drop_first())) by {
            assert(forall|i: int|
                0 <= i < d.len() - 1 ==> d.drop_first()[i] == #[trigger] d[i + 1]);
        }
        lemma_digit_prefix_concat(d.drop_first(), rest);
        assert((d + rest)[0] == d[0]);
        assert((d + rest).drop_first() =~= d.drop_first() + rest);
    }
}

/// An unsigned number at position `i`: its value and the position after its
/// digits.
pub open spec fn spec_parse_u64_at(s: Seq<char>, i: int) -> Option<(int, int)> {
    if 0 <= i <= s.len() {
        let d = spec_digit_prefix_len(s.skip(i));
        if d == 0 {
            None
        } else {
            match spec_parse_u64(s.subrange(i, i + d)) {
                Some(v) => Some((v as int, i + d)),
                None => None,
            }
        }
    } else {
        None
    }
}

/// A signed number at position `i`: its value and the position after it.
pub open spec fn spec_parse_i64_at(s: Seq<char>, i: int) -> Option<(int, int)> {
    if 0 <= i < s.len() {
        if s[i] == '-' {
            let d = spec_digit_prefix_len(s.skip(i + 1));
            if d == 0 {
                None
            } else {
                match spec_parse_i64(s.subrange(i, i + 1 + d)) {
                    Some(v) => Some((v as int, i + 1 + d)),
                    None => None,
                }
            }
        } else {
            let d = spec_digit_prefix_len(s.skip(i));
            if d == 0 {
                None
            } else {
                match spec_parse_i64(s.subrange(i, i + d)) {
                    Some(v) => Some((v as int, i + d)),
                    None => None,
                }
            }
        }
    } else {
        None
    }
}

/// A snapshot-type tag at position `i`, tried in a fixed order.
pub open spec fn spec_parse_sntype_at(s: Seq<char>, i: int) -> Option<(SnapshotType, int)> {
    if spec_expect(s, i, "Btrfs\""@) is Some {
        Some((SnapshotType::Btrfs, spec_expect(s, i, "Btrfs\""@)->Some_0))
    } else if spec_expect(s, i, "LVM\""@) is Some {
        Some((SnapshotType::LVM, spec_expect(s, i, "LVM\""@)->Some_0))
    } else if spec_expect(s, i, "Rsync\""@) is Some {
        Some((SnapshotType::Rsync, spec_expect(s, i, "Rsync\""@)->Some_0))
    } else {
        None
    }
}

/// The id field with the position after the opening literal and the string.
pub open spec fn spec_ps_id(s: Seq<char>) -> Option<(Seq<char>, int)> {
    match spec_expect(s, 0, "{\"id\":\""@) {
        Some(p) => spec_parse_string_at(s, p),
        None => None,
    }
}

/// The timestamp field and the position after it.
pub open spec fn spec_ps_ts(s: Seq<char>) -> Option<(int, int)> {
    match spec_ps_id(s) {
        Some((_, p)) => match spec_expect(s, p, ",\"timestamp\":"@) {
            Some(p2) => spec_parse_i64_at(s, p2),
            None => None,
        },
        None => None,
    }
}

/// The distro-name field and the position after it.
pub open spec fn spec_ps_dn(s: Seq<char>) -> Option<(Seq<char>, int)> {
    match spec_ps_ts(s) {
        Some((_, p)) => match spec_expect(s, p, ",\"distro_name\":\""@) {
            Some(p2) => spec_parse_string_at(s, p2),
            None => None,
        },
        None => None,
    }
}

/// The distro-version field and the position after it.
pub open spec fn spec_ps_dv(s: Seq<char>) -> Option<(Seq<char>, int)> {
    match spec_ps_dn(s) {
        Some((_, p)) => match spec_expect(s, p, ",\"distro_version\":\""@) {
            Some(p2) => spec_parse_string_at(s, p2),
            None => None,
        },
        None => None,
    }
}

/// The description field and the position after it.
pub open spec fn spec_ps_de(s: Seq<char>) -> Option<(Seq<char>, int)> {
    match spec_ps_dv(s) {
        Some((_, p)) => match spec_expect(s, p, ",\"description\":\""@) {
            Some(p2) => spec_parse_string_at(s, p2),
            None => None,
        },
        None => None,
    }
}

/// The snapshot-type field and the position after it.
pub open spec fn spec_ps_ty(s: Seq<char>) -> Option<(SnapshotType, int)> {
    match spec_ps_de(s) {
        Some((_, p)) => match spec_expect(s, p, ",\"snapshot_type\":\""@) {
            Some(p2) => spec_parse_sntype_at(s, p2),
            None => None,
        },
        None => None,
    }
}

/// The size field and the position after it.
pub open spec fn spec_ps_sz(s: Seq<char>) -> Option<(int, int)> {
    match spec_ps_ty(s) {
        Some((_, p)) => match spec_expect(s, p, ",\"size_bytes\":"@) {
            Some(p2) => spec_parse_u64_at(s, p2),
            None => None,
        },
        None => None,
    }
}

/// The path field and the position after it.
pub open spec fn spec_ps_pa(s: Seq<char>) -> Option<(Seq<char>, int)> {
    match spec_ps_sz(s) {
        Some((_, p)) => match spec_expect(s, p, ",\"path\":\""@) {
            Some(p2) => spec_parse_string_at(s, p2),
            None => None,
        },
        None => None,
    }
}

/// The position after the closing brace.
pub open spec fn spec_ps_end(s: Seq<char>) -> Option<int> {
    match spec_ps_pa(s) {
        Some((_, p)) => spec_expect(s, p, "}"@),
        None => None,
    }
}

/// What parsing a metadata document yields: the snapshot's fields, when the
/// whole input is exactly one well-formed document.
pub open spec fn spec_parse_snapshot(s: Seq<char>) -> Option<SnapshotV> {
    if spec_ps_end(s) is Some && spec_ps_end(s)->Some_0 == s.len() {
        Some(
            SnapshotV {
                id: spec_ps_id(s)->Some_0.0,
                timestamp: spec_ps_ts(s)->Some_0.0,
                distro_name: spec_ps_dn(s)->Some_0.0,
                distro_version: spec_ps_dv(s)->Some_0.0,
                description: spec_ps_de(s)->Some_0.0,
                snapshot_type: spec_ps_ty(s)->Some_0.0,
                size_bytes: spec_ps_sz(s)->Some_0.0,
                path: spec_ps_pa(s)->Some_0.0,
            },
        )
    } else {
        None
    }
}

/// One step of walking the rendered document: when the remainder at `p`
/// splits as `a + b`, the text at `p` is `a` and the remainder after it `b`.
proof fn lemma_peel(s: Seq<char>, p: int, a: Seq<char>, b: Seq<char>)
    requires
        0 <= p <= s.len(),
        s.skip(p) == a + b,
    ensures
        p + a.len() <= s.len(),
        s.subrange(p, p + a.len()) == a,
        s.skip(p + a.len()) == b,
{
    assert(s.skip(p).len() == s.len() - p);
    assert forall|i: int| 0 <= i < a.len() implies s.subrange(p, p + a.len())[i] == a[i] by {
        assert(s.subrange(p, p + a.len())[i] == s[p + i]);
        assert(s.skip(p)[i] == s[p + i]);
        assert((a + b)[i] == a[i]);
    }
    assert(s.subrange(p, p + a.len()) =~= a);
    assert forall|i: int| 0 <= i < b.len() implies s.skip(p + a.len())[i] == b[i] by {
        assert(s.skip(p + a.len())[i] == s[p + a.len() + i]);
        assert(s.skip(p)[a.len() + i] == s[p + a.len() + i]);
        assert((a + b)[a.len() + i] == b[i]);
    }
    assert(s.skip(p + a.len()) =~= b);
}

/// A literal stage: the literal stands at `p` and the remainder follows.
proof fn lemma_stage_expect(s: Seq<char>, p: int, lit: Seq<char>, rest: Seq<char>)
    requires
        0 <= p <= s.len(),
        s.skip(p) == lit + rest,
    ensures
        spec_expect(s, p, lit) == Some(p + lit.len()),
        p + lit.len() <= s.len(),
        s.skip(p + lit.len()) == rest,
{
    lemma_peel(s, p, lit, rest);
}

/// A string stage: the escaped text and its closing quote stand at `p`.
proof fn lemma_stage_string(s: Seq<char>, p: int, x: Seq<char>, rest: Seq<char>)
    requires
        0 <= p <= s.len(),
        s.skip(p) == spec_escape(x) + (seq!['"'] + rest),
    ensures
        spec_parse_string_at(s, p) == Some((x, p + spec_escape(x).len() + 1)),
        p + spec_escape(x).len() + 1 <= s.len(),
        s.skip(p + spec_escape(x).len() + 1) == rest,
{
    assert(s.skip(p) =~= spec_escape(x) + seq!['"'] + rest);
    lemma_parse_escape(x, rest);
    lemma_peel(s, p, spec_escape(x) + seq!['"'], rest);
}

/// A signed-number stage: the rendered number stands at `p`, followed by a
/// remainder that does not begin with a digit.
proof fn lemma_stage_i64(s: Seq<char>, p: int, n: i64, rest: Seq<char>)
    requires
        0 <= p <= s.len(),
        s.skip(p) == spec_render_int(n as int) + rest,
        rest.len() > 0,
        !spec_is_digit(rest[0]),
    ensures
        spec_parse_i64_at(s, p) == Some((n as int, p + spec_render_int(n as int).len())),
        s.skip(p + spec_render_int(n as int).len()) == rest,
{
    let its = spec_render_int(n as int);
    lemma_peel(s, p, its, rest);
    lemma_parse_render_i64(n);
    assert(s[p] == s.skip(p)[0]);
    if n < 0 {
        let mag = spec_render_dec((-(n as int)) as nat);
        lemma_render_dec_props((-(n as int)) as nat);
        assert(its == seq!['-'] + mag);
        assert(s.skip(p)[0] == '-');
        assert(s.skip(p) =~= seq!['-'] + (mag + rest));
        lemma_peel(s, p, seq!['-'], mag + rest);
        lemma_digit_prefix_concat(mag, rest);
        assert(spec_digit_prefix_len(s.skip(p + 1)) == mag.len());
        assert(s.subrange(p, p + 1 + mag.len()) =~= its);
        assert(spec_parse_i64_at(s, p) == Some((n as int, p + its.len())));
    } else {
        lemma_render_dec_props(n as nat);
        assert(its == spec_render_dec(n as nat));
        assert(s.skip(p)[0] == its[0]);
        assert(spec_is_digit(its[0]));
        assert(s[p] != '-');
        lemma_digit_prefix_concat(its, rest);
        assert(spec_digit_prefix_len(s.skip(p)) == its.len());
        assert(spec_parse_i64_at(s, p) == Some((n as int, p + its.len())));
    }
}

/// An unsigned-number stage.
proof fn lemma_stage_u64(s: Seq<char>, p: int, n: u64, rest: Seq<char>)
    requires
        0 <= p <= s.len(),
        s.skip(p) == spec_render_dec(n as nat) + rest,
        rest.len() > 0,
        !spec_is_digit(rest[0]),
    ensures
        spec_parse_u64_at(s, p) == Some((n as int, p + spec_render_dec(n as nat).len())),
        s.skip(p + spec_render_dec(n as nat).len()) == rest,
{
    let usz = spec_render_dec(n as nat);
    lemma_peel(s, p, usz, rest);
    lemma_render_dec_props(n as nat);
    lemma_digit_prefix_concat(usz, rest);
    assert(spec_digit_prefix_len(s.skip(p)) == usz.len());
    lemma_parse_render_u64(n);
    assert(spec_parse_u64_at(s, p) == Some((n as int, p + usz.len())));
}

/// A snapshot-type stage: the tag and its closing quote stand at `p`; the
/// tags are tried in order and only the written one matches.
proof fn lemma_stage_type(s: Seq<char>, p: int, t: SnapshotType, rest: Seq<char>)
    requires
        0 <= p <= s.len(),
        s.skip(p) == spec_sntype_lit(t) + (seq!['"'] + rest),
    ensures
        spec_parse_sntype_at(s, p) == Some((t, p + spec_sntype_lit(t).len() + 1)),
        s.skip(p + spec_sntype_lit(t).len() + 1) == rest,
{
    reveal_strlit("Btrfs");
    reveal_strlit("LVM");
    reveal_strlit("Rsync");
    reveal_strlit("Btrfs\"");
    reveal_strlit("LVM\"");
    reveal_strlit("Rsync\"");
    let p2 = p + spec_sntype_lit(t).len() + 1;
    match t {
        SnapshotType::Btrfs => {
            assert(s.skip(p) =~= "Btrfs\""@ + rest);
            lemma_peel(s, p, "Btrfs\""@, rest);
            assert(spec_expect(s, p, "Btrfs\""@) == Some(p2));
        },
        SnapshotType::LVM => {
            assert(s.skip(p).len() > 0);
            assert(s[p] == s.skip(p)[0]);
            assert(s[p] == 'L');
            if spec_expect(s, p, "Btrfs\""@) is Some {
                assert(s.subrange(p, p + 6)[0] == s[p]);
            }
            assert(spec_expect(s, p, "Btrfs\""@) is None);
            assert(s.skip(p) =~= "LVM\""@ + rest);
            lemma_peel(s, p, "LVM\""@, rest);
            assert(spec_expect(s, p, "LVM\""@) == Some(p2));
        },
        SnapshotType::Rsync => {
            assert(s.skip(p).len() > 0);
            assert(s[p] == s.skip(p)[0]);
            assert(s[p] == 'R');
            if spec_expect(s, p, "Btrfs\""@) is Some {
                assert(s.subrange(p, p + 6)[0] == s[p]);
            }
            assert(spec_expect(s, p, "Btrfs\""@) is None);
            if spec_expect(s, p, "LVM\""@) is Some {
                assert(s.subrange(p, p + 4)[0] == s[p]);
            }
            assert(spec_expect(s, p, "LVM\""@) is None);
            assert(s.skip(p) =~= "Rsync\""@ + rest);
            lemma_peel(s, p, "Rsync\""@, rest);
            assert(spec_expect(s, p, "Rsync\""@) == Some(p2));
        },
    }
}

/// Parsing inverts rendering: every snapshot's metadata document parses back
/// to exactly the snapshot's fields, so a listing that re-renders what it
/// parsed reproduces the document.
#[verifier::rlimit(100)]
pub proof fn lemma_parse_render_snapshot(v: SnapshotV)
    requires
        i64::MIN <= v.timestamp <= i64::MAX,
        0 <= v.size_bytes <= u64::MAX,
    ensures
        spec_parse_snapshot(spec_render_snapshot(v)) == Some(v),
{
    reveal_strlit(",\"distro_name\":\"");
    reveal_strlit(",\"path\":\"");
    let s = spec_render_snapshot(v);
    let q = seq!['"'];
    let la = "{\"id\":\""@;
    let lb = ",\"timestamp\":"@;
    let lc = ",\"distro_name\":\""@;
    let ld = ",\"distro_version\":\""@;
    let le = ",\"description\":\""@;
    let lf = ",\"snapshot_type\":\""@;
    let lg = ",\"size_bytes\":"@;
    let lh = ",\"path\":\""@;
    let lz = "}"@;
    let eid = spec_escape(v.id);
    let its = spec_render_int(v.timestamp);
    let edn = spec_escape(v.distro_name);
    let edv = spec_escape(v.distro_version);
    let ede = spec_escape(v.description);
    let tyl = spec_sntype_lit(v.snapshot_type);
    let usz = spec_render_dec(v.size_bytes as nat);
    let epa = spec_escape(v.path);
    let r_ts = spec_render_tail_ts(v);
    let r_dn = spec_render_tail_dn(v);
    let r_dv = spec_render_tail_dv(v);
    let r_de = spec_render_tail_desc(v);
    let r_ty = spec_render_tail_type(v);
    let r_sz = spec_render_tail_size(v);
    let r_pa = spec_render_tail_path(v);
    // id
    assert(s.skip(0) =~= la + (eid + (q + r_ts)));
    lemma_stage_expect(s, 0, la, eid + (q + r_ts));
    let p1 = la.len() as int;
    lemma_stage_string(s, p1, v.id, r_ts);
    let p2 = p1 + eid.len() + 1;
    assert(spec_ps_id(s) == Some((v.id, p2)));
    // timestamp
    lemma_stage_expect(s, p2, lb, its + r_dn);
    let p3 = p2 + lb.len();
    assert(r_dn[0] == lc[0]);
    assert(!spec_is_digit(lc[0]));
    let tsi: i64 = v.timestamp as i64;
    lemma_stage_i64(s, p3, tsi, r_dn);
    let p4 = p3 + its.len();
    assert(spec_ps_ts(s) == Some((v.timestamp, p4)));
    // distro_name
    lemma_stage_expect(s, p4, lc, edn + (q + r_dv));
    let p5 = p4 + lc.len();
    lemma_stage_string(s, p5, v.distro_name, r_dv);
    let p6 = p5 + edn.len() + 1;
    assert(spec_ps_dn(s) == Some((v.distro_name, p6)));
    // distro_version
    lemma_stage_expect(s, p6, ld, edv + (q + r_de));
    let p7 = p6 + ld.len();
    lemma_stage_string(s, p7, v.distro_version, r_de);
    let p8 = p7 + edv.len() + 1;
    assert(spec_ps_dv(s) == Some((v.distro_version, p8)));
    // description
    lemma_stage_expect(s, p8, le, ede + (q + r_ty));
    let p9 = p8 + le.len();
    lemma_stage_string(s, p9, v.description, r_ty);
    let p10 = p9 + ede.len() + 1;
    assert(spec_ps_de(s) == Some((v.description, p10)));
    // snapshot_type
    lemma_stage_expect(s, p10, lf, tyl + (q + r_sz));
    let p11 = p10 + lf.len();
    lemma_stage_type(s, p11, v.snapshot_type, r_sz);
    let p12 = p11 + tyl.len() + 1;
    assert(spec_ps_ty(s) == Some((v.snapshot_type, p12)));
    // size_bytes
    lemma_stage_expect(s, p12, lg, usz + r_pa);
    let p13 = p12 + lg.len();
    assert(r_pa[0] == lh[0]);
    assert(!spec_is_digit(lh[0]));
    let szu: u64 = v.size_bytes as u64;
    lemma_stage_u64(s, p13, szu, r_pa);
    let p14 = p13 + usz.len();
    assert(spec_ps_sz(s) == Some((v.size_bytes, p14)));
    // path
    lemma_stage_expect(s, p14, lh, epa + (q + lz));
    let p15 = p14 + lh.len();
    lemma_stage_string(s, p15, v.path, lz);
    let p16 = p15 + epa.len() + 1;
    assert(spec_ps_pa(s) == Some((v.path, p16)));
    // closing brace and end of input
    assert(lz + Seq::<char>::empty() =~= lz);
    lemma_stage_expect(s, p16, lz, Seq::<char>::empty());
    let p17 = p16 + lz.len();
    assert(spec_ps_end(s) == Some(p17));
    assert(s.skip(p17).len() == 0);
    assert(p17 == s.len());
    assert(spec_parse_snapshot(s) == Some(v));
}

/// The round trip on metadata values: rendering a snapshot and parsing the
/// document restores every field.
pub proof fn lemma_snapshot_roundtrip(s: Snapshot)
    ensures
        spec_parse_snapshot(spec_render_snapshot(s@)) == Some(s@),
{
    lemma_parse_render_snapshot(s@);
}

/// Appends the escaped form of `s` onto `dst`.
#[verifier::loop_isolation(false)]
fn escape_push(dst: &mut Vec<char>, s: &str)
    ensures
        final(dst)@ == old(dst)@ + spec_escape(s@),
{
    let v = crate::chars::str_to_chars(s);
    proof {
        assert(v@.take(0) =~= Seq::<char>::empty());
        assert(spec_escape(Seq::<char>::empty()) == Seq::<char>::empty());
        assert(dst@ =~= old(dst)@ + spec_escape(v@.take(0)));
    }
    let mut i: usize = 0;
    while i < v.len()
        invariant
            0 <= i <= v@.len(),
            v@ == s@,
            dst@ == old(dst)@ + spec_escape(v@.take(i as int)),
        decreases v@.len() - i,
    {
        let c = v[i];
        proof {
            assert(v@.take(i as int + 1).drop_last() =~= v@.take(i as int));
            assert(v@.take(i as int + 1) =~= v@.take(i as int).push(v@[i as int]));
            lemma_escape_snoc(v@.take(i as int), v@[i as int]);
        }
        if c == '"' {
            dst.push('\\');
            dst.push('"');
        } else if c == '\\' {
            dst.push('\\');
            dst.push('\\');
        } else if c == '\n' {
            dst.push('\\');
            dst.push('n');
        } else if c == '\r' {
            dst.push('\\');
            dst.push('r');
        } else if c == '\t' {
            dst.push('\\');
            dst.push('t');
        } else {
            dst.push(c);
        }
        proof {
            assert(dst@ =~= old(dst)@ + spec_escape(v@.take(i as int + 1)));
        }
        i = i + 1;
    }
    assert(v@.take(v@.len() as int) =~= v@);
}

/// Renders the metadata document of a snapshot.
pub fn render_snapshot(s: &Snapshot) -> (r: String)
    ensures
        r@ == spec_render_snapshot(s@),
{
    let mut tail: Vec<char> = Vec::new();
    crate::chars::push_lit(&mut tail, ",\"path\":\"");
    escape_push(&mut tail, s.path.as_str());
    tail.push('"');
    crate::chars::push_lit(&mut tail, "}");
    assert(tail@ =~= spec_render_tail_path(s@));
    let mut t2: Vec<char> = Vec::new();
    crate::chars::push_lit(&mut t2, ",\"size_bytes\":");
    let sz = render_dec_u64(s.size_bytes);
    crate::chars::push_chars(&mut t2, &sz);
    crate::chars::push_chars(&mut t2, &tail);
    assert(t2@ =~= spec_render_tail_size(s@));
    let mut t3: Vec<char> = Vec::new();
    crate::chars::push_lit(&mut t3, ",\"snapshot_type\":\"");
    match s.snapshot_type {
        SnapshotType::Btrfs => crate::chars::push_lit(&mut t3, "Btrfs"),
        SnapshotType::LVM => crate::chars::push_lit(&mut t3, "LVM"),
        SnapshotType::Rsync => crate::chars::push_lit(&mut t3, "Rsync"),
    }
    t3.push('"');
    crate::chars::push_chars(&mut t3, &t2);
    assert(t3@ =~= spec_render_tail_type(s@));
    let mut t4: Vec<char> = Vec::new();
    crate::chars::push_lit(&mut t4, ",\"description\":\"");
    escape_push(&mut t4, s.description.as_str());
    t4.push('"');
    crate::chars::push_chars(&mut t4, &t3);
    assert(t4@ =~= spec_render_tail_desc(s@));
    let mut t5: Vec<char> = Vec::new();
    crate::chars::push_lit(&mut t5, ",\"distro_version\":\"");
    escape_push(&mut t5, s.distro_version.as_str());
    t5.push('"');
    crate::chars::push_chars(&mut t5, &t4);
    assert(t5@ =~= spec_render_tail_dv(s@));
    let mut t6: Vec<char> = Vec::new();
    crate::chars::push_lit(&mut t6, ",\"distro_name\":\"");
    escape_push(&mut t6, s.distro_name.as_str());
    t6.push('"');
    crate::chars::push_chars(&mut t6, &t5);
    assert(t6@ =~= spec_render_tail_dn(s@));
    let mut t7: Vec<char> = Vec::new();
    crate::chars::push_lit(&mut t7, ",\"timestamp\":");
    let ts = render_int_i64(s.timestamp);
    crate::chars::push_chars(&mut t7, &ts);
    crate::chars::push_chars(&mut t7, &t6);
    assert(t7@ =~= spec_render_tail_ts(s@));
    let mut v: Vec<char> = Vec::new();
    crate::chars::push_lit(&mut v, "{\"id\":\"");
    escape_push(&mut v, s.id.as_str());
    v.push('"');
    crate::chars::push_chars(&mut v, &t7);
    assert(v@ =~= spec_render_snapshot(s@));
    crate::chars::chars_to_string(&v)
}

/// Does the literal stand at position `i`?
fn expect_at(v: &Vec<char>, i: usize, lit: &Vec<char>) -> (r: Option<usize>)
    ensures
        match r {
            Some(j) => spec_expect(v@, i as int, lit@) == Some(j as int),
            None => spec_expect(v@, i as int, lit@) is None,
        },
{
    if lit.len() > v.len() || i > v.len() - lit.len() {
        return None;
    }
    let vl: usize = v.len();
    let mut j: usize = 0;
    while j < lit.len()
        invariant
            0 <= j <= lit@.len(),
            i + lit@.len() <= v@.len(),
            vl == v@.len(),
            forall|k: int| 0 <= k < j ==> v@[i + k] == lit@[k],
        decreases lit@.len() - j,
    {
        if v[i + j] != lit[j] {
            assert(v@.subrange(i as int, i + lit@.len())[j as int] == v@[i + j]);
            return None;
        }
        j = j + 1;
    }
    assert(v@.subrange(i as int, i + lit@.len()) =~= lit@);
    Some(i + lit.len())
}

/// Parses a quoted string's body starting at `i`.
#[verifier::loop_isolation(false)]
fn parse_string_at(v: &Vec<char>, i: usize) -> (r: Option<(Vec<char>, usize)>)
    requires
        i <= v@.len(),
    ensures
        match r {
            Some(t) => spec_parse_string_at(v@, i as int) == Some((t.0@, t.1 as int)) && t.1
                <= v@.len(),
            None => spec_parse_string_at(v@, i as int) is None,
        },
{
    let mut out: Vec<char> = Vec::new();
    let mut j: usize = i;
    proof {
        assert(out@ + Seq::<char>::empty() =~= out@);
    }
    while j < v.len()
        invariant
            i <= j <= v@.len(),
            spec_parse_strbody(v@.skip(i as int)) == (match spec_parse_strbody(
                v@.skip(j as int),
            ) {
                Some((t, u)) => Some((out@ + t, (j - i) + u)),
                None => None::<(Seq<char>, int)>,
            }),
        decreases v@.len() - j,
    {
        proof {
            assert(v@.skip(j as int)[0] == v@[j as int]);
            assert(v@.skip(j as int).drop_first() =~= v@.skip(j as int + 1));
        }
        let c = v[j];
        if c == '"' {
            proof {
                assert(spec_parse_strbody(v@.skip(j as int)) == Some(
                    (Seq::<char>::empty(), 1int),
                ));
            }
            return Some((out, j + 1));
        } else if c == '\\' {
            if j + 1 >= v.len() {
                assert(spec_parse_strbody(v@.skip(j as int)) is None);
                return None;
            }
            proof {
                assert(v@.skip(j as int)[1] == v@[j as int + 1]);
                assert(v@.skip(j as int).skip(2) =~= v@.skip(j as int + 2));
            }
            let code = v[j + 1];
            if code == '"' || code == '\\' || code == 'n' || code == 'r' || code == 't' {
                let decoded = if code == 'n' {
                    '\n'
                } else if code == 'r' {
                    '\r'
                } else if code == 't' {
                    '\t'
                } else {
                    code
                };
                let ghost pre = out@;
                out.push(decoded);
                proof {
                    assert(decoded == spec_unescape_char(v@[j as int + 1]));
                    assert(forall|t: Seq<char>|
                        pre + (seq![spec_unescape_char(v@[j as int + 1])] + t) =~= #[trigger] (
                        out@ + t));
                }
                j = j + 2;
            } else {
                assert(spec_parse_strbody(v@.skip(j as int)) is None);
                return None;
            }
        } else {
            let ghost pre = out@;
            out.push(c);
            proof {
                assert(forall|t: Seq<char>|
                    pre + (seq![v@[j as int]] + t) =~= #[trigger] (out@ + t));
            }
            j = j + 1;
        }
    }
    proof {
        assert(v@.skip(v@.len() as int) =~= Seq::<char>::empty());
        assert(spec_parse_strbody(Seq::<char>::empty()) is None);
    }
    None
}

/// Counts the decimal digits standing at position `i`.
fn digit_prefix(v: &Vec<char>, i: usize) -> (d: usize)
    requires
        i <= v@.len(),
    ensures
        d == spec_digit_prefix_len(v@.skip(i as int)),
        i + d <= v@.len(),
{
    let mut j: usize = i;
    while j < v.len() && '0' <= v[j] && v[j] <= '9'
        invariant
            i <= j <= v@.len(),
            spec_digit_prefix_len(v@.skip(i as int)) == (j - i) + spec_digit_prefix_len(
                v@.skip(j as int),
            ),
        decreases v@.len() - j,
    {
        assert(v@.skip(j as int)[0] == v@[j as int]);
        assert(v@.skip(j as int).drop_first() =~= v@.skip(j as int + 1));
        j = j + 1;
    }
    proof {
        if j < v@.len() {
            assert(v@.skip(j as int)[0] == v@[j as int]);
        }
        assert(spec_digit_prefix_len(v@.skip(j as int)) == 0);
    }
    j - i
}

/// Parses a signed number starting at `i`.
fn parse_i64_at(v: &Vec<char>, i: usize) -> (r: Option<(i64, usize)>)
    ensures
        match r {
            Some(t) => spec_parse_i64_at(v@, i as int) == Some((t.0 as int, t.1 as int)) && t.1
                <= v@.len(),
            None => spec_parse_i64_at(v@, i as int) is None,
        },
{
    if i >= v.len() {
        return None;
    }
    let vl: usize = v.len();
    if v[i] == '-' {
        let d = digit_prefix(v, i + 1);
        if d == 0 {
            return None;
        }
        let tok = crate::chars::subrange_chars(v, i, i + 1 + d);
        match parse_int_i64(&tok) {
            Some(n) => Some((n, i + 1 + d)),
            None => None,
        }
    } else {
        let d = digit_prefix(v, i);
        if d == 0 {
            return None;
        }
        let tok = crate::chars::subrange_chars(v, i, i + d);
        match parse_int_i64(&tok) {
            Some(n) => Some((n, i + d)),
            None => None,
        }
    }
}

/// Parses an unsigned number starting at `i`.
fn parse_u64_at(v: &Vec<char>, i: usize) -> (r: Option<(u64, usize)>)
    requires
        i <= v@.len(),
    ensures
        match r {
            Some(t) => spec_parse_u64_at(v@, i as int) == Some((t.0 as int, t.1 as int)) && t.1
                <= v@.len(),
            None => spec_parse_u64_at(v@, i as int) is None,
        },
{
    let vl: usize = v.len();
    let d = digit_prefix(v, i);
    if d == 0 {
        return None;
    }
    let tok = crate::chars::subrange_chars(v, i, i + d);
    match parse_dec_u64(&tok) {
        Some(n) => Some((n, i + d)),
        None => None,
    }
}

/// Parses a snapshot-type tag starting at `i`.
fn parse_sntype_at(v: &Vec<char>, i: usize) -> (r: Option<(SnapshotType, usize)>)
    ensures
        match r {
            Some(t) => spec_parse_sntype_at(v@, i as int) == Some((t.0, t.1 as int)),
            None => spec_parse_sntype_at(v@, i as int) is None,
        },
{
    let btr = crate::chars::str_to_chars("Btrfs\"");
    match expect_at(v, i, &btr) {
        Some(j) => Some((SnapshotType::Btrfs, j)),
        None => {
            let lvm = crate::chars::str_to_chars("LVM\"");
            match expect_at(v, i, &lvm) {
                Some(j) => Some((SnapshotType::LVM, j)),
                None => {
                    let rsy = crate::chars::str_to_chars("Rsync\"");
                    match expect_at(v, i, &rsy) {
                        Some(j) => Some((SnapshotType::Rsync, j)),
                        None => None,
                    }
                },
            }
        },
    }
}

/// Parses one metadata document into a snapshot; corrupt or trailing input
/// yields nothing, never a partial record.
pub fn parse_snapshot(data: &str) -> (r: Option<Snapshot>)
    ensures
        match r {
            Some(snap) => spec_parse_snapshot(data@) == Some(snap@),
            None => spec_parse_snapshot(data@) is None,
        },
{
    let v = crate::chars::str_to_chars(data);
    let la = crate::chars::str_to_chars("{\"id\":\"");
    let p1 = match expect_at(&v, 0, &la) {
        Some(p) => p,
        None => {
            return None;
        },
    };
    assert(p1 <= v@.len());
    let (idv, p2) = match parse_string_at(&v, p1) {
        Some(t) => t,
        None => {
            return None;
        },
    };
    assert(spec_ps_id(v@) == Some((idv@, p2 as int)));
    assert(p2 <= v@.len());
    let lb = crate::chars::str_to_chars(",\"timestamp\":");
    let p3 = match expect_at(&v, p2, &lb) {
        Some(p) => p,
        None => {
            return None;
        },
    };
    let (ts, p4) = match parse_i64_at(&v, p3) {
        Some(t) => t,
        None => {
            return None;
        },
    };
    assert(spec_ps_ts(v@) == Some((ts as int, p4 as int)));
    assert(p4 <= v@.len());
    let lc = crate::chars::str_to_chars(",\"distro_name\":\"");
    let p5 = match expect_at(&v, p4, &lc) {
        Some(p) => p,
        None => {
            return None;
        },
    };
    let (dnv, p6) = match parse_string_at(&v, p5) {
        Some(t) => t,
        None => {
            return None;
        },
    };
    assert(spec_ps_dn(v@) == Some((dnv@, p6 as int)));
    assert(p6 <= v@.len());
    let ld = crate::chars::str_to_chars(",\"distro_version\":\"");
    let p7 = match expect_at(&v, p6, &ld) {
        Some(p) => p,
        None => {
            return None;
        },
    };
    let (dvv, p8) = match parse_string_at(&v, p7) {
        Some(t) => t,
        None => {
            return None;
        },
    };
    assert(spec_ps_dv(v@) == Some((dvv@, p8 as int)));
    assert(p8 <= v@.len());
    let le = crate::chars::str_to_chars(",\"description\":\"");
    let p9 = match expect_at(&v, p8, &le) {
        Some(p) => p,
        None => {
            return None;
        },
    };
    let (dev, p10) = match parse_string_at(&v, p9) {
        Some(t) => t,
        None => {
            return None;
        },
    };
    assert(spec_ps_de(v@) == Some((dev@, p10 as int)));
    assert(p10 <= v@.len());
    let lf = crate::chars::str_to_chars(",\"snapshot_type\":\"");
    let p11 = match expect_at(&v, p10, &lf) {
        Some(p) => p,
        None => {
            return None;
        },
    };
    let (ty, p12) = match parse_sntype_at(&v, p11) {
        Some(t) => t,
        None => {
            return None;
        },
    };
    assert(spec_ps_ty(v@) == Some((ty, p12 as int)));
    assert(p12 <= v@.len());
    let lg = crate::chars::str_to_chars(",\"size_bytes\":");
    let p13 = match expect_at(&v, p12, &lg) {
        Some(p) => p,
        None => {
            return None;
        },
    };
    assert(p13 <= v@.len());
    let (sz, p14) = match parse_u64_at(&v, p13) {
        Some(t) => t,
        None => {
            return None;
        },
    };
    assert(spec_ps_sz(v@) == Some((sz as int, p14 as int)));
    assert(p14 <= v@.len());
    let lh = crate::chars::str_to_chars(",\"path\":\"");
    let p15 = match expect_at(&v, p14, &lh) {
        Some(p) => p,
        None => {
            return None;
        },
    };
    let (pav, p16) = match parse_string_at(&v, p15) {
        Some(t) => t,
        None => {
            return None;
        },
    };
    assert(spec_ps_pa(v@) == Some((pav@, p16 as int)));
    assert(p16 <= v@.len());
    let lz = crate::chars::str_to_chars("}");
    let p17 = match expect_at(&v, p16, &lz) {
        Some(p) => p,
        None => {
            return None;
        },
    };
    assert(spec_ps_end(v@) == Some(p17 as int));
    if p17 != v.len() {
        return None;
    }
    let snap = Snapshot {
        id: crate::chars::chars_to_string(&idv),
        timestamp: ts,
        distro_name: crate::chars::chars_to_string(&dnv),
        distro_version: crate::chars::chars_to_string(&dvv),
        description: crate::chars::chars_to_string(&dev),
        snapshot_type: ty,
        size_bytes: sz,
        path: crate::chars::chars_to_string(&pav),
    };
    Some(snap)
}

} // verus!
