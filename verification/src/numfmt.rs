//! Decimal and hexadecimal formatting and parsing of the integers the engine
//! writes into snapshot identifiers and metadata, with round-trip proofs.
use vstd::prelude::*;

verus! {

/// The character is a decimal digit.
pub open spec fn spec_is_digit(c: char) -> bool {
    '0' <= c && c <= '9'
}

/// The digit character for a value below ten.
pub open spec fn spec_digit_char(d: int) -> char {
    ((48 + d) as u8) as char
}

/// Decimal rendering of a natural number, most significant digit first.
pub open spec fn spec_render_dec(n: nat) -> Seq<char>
    decreases n,
{
    if n < 10 {
        seq![spec_digit_char(n as int)]
    } else {
        spec_render_dec(n / 10) + seq![spec_digit_char((n % 10) as int)]
    }
}

/// Decimal rendering of a signed number: a minus sign, then the magnitude.
pub open spec fn spec_render_int(n: int) -> Seq<char> {
    if n < 0 {
        seq!['-'] + spec_render_dec((-n) as nat)
    } else {
        spec_render_dec(n as nat)
    }
}

/// The numeric value of a digit sequence, read in base ten.
pub open spec fn spec_dec_val(s: Seq<char>) -> int
    decreases s.len(),
{
    if s.len() == 0 {
        0
    } else {
        spec_dec_val(s.drop_last()) * 10 + (s.last() as int - 48)
    }
}

/// Every character of `s` is a decimal digit.
pub open spec fn spec_all_digits(s: Seq<char>) -> bool {
    forall|i: int| 0 <= i < s.len() ==> spec_is_digit(#[trigger] s[i])
}

/// What parsing an unsigned decimal token yields: the value, if the token is a
/// nonempty digit string whose value fits in a `u64`.
pub open spec fn spec_parse_u64(s: Seq<char>) -> Option<u64> {
    if s.len() >= 1 && spec_all_digits(s) && spec_dec_val(s) <= u64::MAX {
        Some(spec_dec_val(s) as u64)
    } else {
        None
    }
}

/// What parsing a signed decimal token yields.
pub open spec fn spec_parse_i64(s: Seq<char>) -> Option<i64> {
    if s.len() >= 1 && s[0] == '-' {
        let mag = s.drop_first();
        if mag.len() >= 1 && spec_all_digits(mag) && -spec_dec_val(mag) >= i64::MIN {
            Some((-spec_dec_val(mag)) as i64)
        } else {
            None
        }
    } else if s.len() >= 1 && spec_all_digits(s) && spec_dec_val(s) <= i64::MAX {
        Some(spec_dec_val(s) as i64)
    } else {
        None
    }
}

/// A rendered natural number is a nonempty digit string holding its value.
pub proof fn lemma_render_dec_props(n: nat)
    ensures
        spec_render_dec(n).len() >= 1,
        spec_all_digits(spec_render_dec(n)),
        spec_dec_val(spec_render_dec(n)) == n,
    decreases n,
{
    if n < 10 {
        assert(spec_render_dec(n) =~= seq![spec_digit_char(n as int)]);
        assert(spec_render_dec(n).drop_last() =~= Seq::<char>::empty());
        assert(spec_dec_val(Seq::<char>::empty()) == 0);
        assert(spec_digit_char(n as int) as int == 48 + n);
    } else {
        lemma_render_dec_props(n / 10);
        let pre = spec_render_dec(n / 10);
        let d = (n % 10) as int;
        let whole = pre + seq![spec_digit_char(d)];
        assert(whole.drop_last() =~= pre);
        assert(whole.last() == spec_digit_char(d));
        assert(spec_digit_char(d) as int == 48 + d);
        assert(spec_dec_val(whole) == spec_dec_val(pre) * 10 + d);
        assert(spec_dec_val(pre) * 10 + d == n) by {
            assert(n / 10 * 10 + n % 10 == n) by (nonlinear_arith);
        }
        assert forall|i: int| 0 <= i < whole.len() implies spec_is_digit(#[trigger] whole[i]) by {
            if i < pre.len() {
                assert(whole[i] == pre[i]);
            } else {
                assert(whole[i] == spec_digit_char(d));
                assert('0' <= spec_digit_char(d) && spec_digit_char(d) <= '9');
            }
        }
    }
}

/// The digit characters of a rendered number never include a minus sign.
pub proof fn lemma_render_dec_no_minus(n: nat)
    ensures
        spec_render_dec(n)[0] != '-',
{
    lemma_render_dec_props(n);
    assert(spec_is_digit(spec_render_dec(n)[0]));
    assert(!spec_is_digit('-'));
}

/// Decimal values of digit strings are nonnegative.
pub proof fn lemma_dec_val_nonneg(s: Seq<char>)
    requires
        spec_all_digits(s),
    ensures
        spec_dec_val(s) >= 0,
    decreases s.len(),
{
    if s.len() > 0 {
        assert(spec_all_digits(s.drop_last())) by {
            assert(forall|i: int|
                0 <= i < s.len() - 1 ==> s.drop_last()[i] == #[trigger] s[i]);
        }
        lemma_dec_val_nonneg(s.drop_last());
        assert(s.last() as int - 48 >= 0);
    }
}

/// The value of a prefix of a digit string never exceeds the whole value.
pub proof fn lemma_dec_val_prefix_le(s: Seq<char>, i: int)
    requires
        spec_all_digits(s),
        0 <= i <= s.len(),
    ensures
        spec_dec_val(s.take(i)) <= spec_dec_val(s),
    decreases s.len() - i,
{
    if i < s.len() {
        lemma_dec_val_prefix_le(s, i + 1);
        let p = s.take(i);
        let q = s.take(i + 1);
        assert(q.drop_last() =~= p);
        assert(q.last() == s[i]);
        assert(spec_all_digits(p)) by {
            assert(forall|k: int| 0 <= k < i ==> p[k] == #[trigger] s[k]);
        }
        lemma_dec_val_nonneg(p);
        assert(spec_dec_val(q) == spec_dec_val(p) * 10 + (s[i] as int - 48));
        assert(spec_dec_val(p) * 10 >= spec_dec_val(p)) by (nonlinear_arith)
            requires
                spec_dec_val(p) >= 0,
        ;
    } else {
        assert(s.take(i) =~= s);
    }
}

/// Rendering is injective on natural numbers: equal digit strings mean equal
/// values, because the value of a rendering is the number itself.
pub proof fn lemma_render_dec_injective(a: nat, b: nat)
    requires
        spec_render_dec(a) == spec_render_dec(b),
    ensures
        a == b,
{
    lemma_render_dec_props(a);
    lemma_render_dec_props(b);
}

/// Rendering is injective on signed numbers.
pub proof fn lemma_render_int_injective(a: int, b: int)
    requires
        spec_render_int(a) == spec_render_int(b),
    ensures
        a == b,
{
    if a < 0 && b < 0 {
        let ra = spec_render_dec((-a) as nat);
        let rb = spec_render_dec((-b) as nat);
        assert((seq!['-'] + ra).len() == (seq!['-'] + rb).len());
        assert(ra.len() == rb.len());
        assert forall|i: int| 0 <= i < ra.len() implies ra[i] == rb[i] by {
            assert(ra[i] == (seq!['-'] + ra)[i + 1]);
            assert(rb[i] == (seq!['-'] + rb)[i + 1]);
        }
        assert(ra =~= rb);
        lemma_render_dec_injective((-a) as nat, (-b) as nat);
    } else if a < 0 {
        lemma_render_dec_no_minus(b as nat);
        assert(spec_render_int(a)[0] == '-');
    } else if b < 0 {
        lemma_render_dec_no_minus(a as nat);
        assert(spec_render_int(b)[0] == '-');
    } else {
        lemma_render_dec_injective(a as nat, b as nat);
    }
}

/// Parsing inverts rendering for unsigned numbers.
pub proof fn lemma_parse_render_u64(n: u64)
    ensures
        spec_parse_u64(spec_render_dec(n as nat)) == Some(n),
{
    lemma_render_dec_props(n as nat);
}

/// Parsing inverts rendering for signed numbers.
pub proof fn lemma_parse_render_i64(n: i64)
    ensures
        spec_parse_i64(spec_render_int(n as int)) == Some(n),
{
    if n < 0 {
        let mag = (-(n as int)) as nat;
        lemma_render_dec_props(mag);
        let s = spec_render_int(n as int);
        assert(s[0] == '-');
        assert(s.drop_first() =~= spec_render_dec(mag));
    } else {
        lemma_render_dec_props(n as nat);
        let s = spec_render_int(n as int);
        assert(s =~= spec_render_dec(n as nat));
        if s[0] == '-' {
            lemma_render_dec_no_minus(n as nat);
        }
    }
}

/// Renders an unsigned number in decimal.
pub fn render_dec_u64(n: u64) -> (r: Vec<char>)
    ensures
        r@ == spec_render_dec(n as nat),
    decreases n,
{
    if n < 10 {
        let c = ((48 + n as u8) as u8) as char;
        let mut r: Vec<char> = Vec::new();
        r.push(c);
        assert(r@ =~= spec_render_dec(n as nat));
        r
    } else {
        let mut r = render_dec_u64(n / 10);
        let d = (n % 10) as u8;
        r.push(((48 + d) as u8) as char);
        assert(r@ =~= spec_render_dec(n as nat));
        r
    }
}

/// Renders a signed number in decimal.
pub fn render_int_i64(n: i64) -> (r: Vec<char>)
    ensures
        r@ == spec_render_int(n as int),
{
    if n < 0 {
        let m: u64 = (-(n as i128)) as u64;
        let mut r: Vec<char> = Vec::new();
        r.push('-');
        let mag = render_dec_u64(m);
        crate::chars::push_chars(&mut r, &mag);
        assert(r@ =~= spec_render_int(n as int));
        r
    } else {
        render_dec_u64(n as u64)
    }
}

/// Parses a nonempty decimal digit token as a `u64`.
pub fn parse_dec_u64(v: &Vec<char>) -> (r: Option<u64>)
    ensures
        r == spec_parse_u64(v@),
{
    if v.len() == 0 {
        return None;
    }
    let mut acc: u64 = 0;
    let mut i: usize = 0;
    while i < v.len()
        invariant
            0 <= i <= v@.len(),
            1 <= v@.len(),
            spec_all_digits(v@.take(i as int)),
            acc == spec_dec_val(v@.take(i as int)),
        decreases v@.len() - i,
    {
        let c = v[i];
        if !('0' <= c && c <= '9') {
            assert(!spec_is_digit(v@[i as int]));
            return None;
        }
        let d: u64 = (c as u8 - 48) as u64;
        assert(d == v@[i as int] as int - 48);
        let ghost pre = v@.take(i as int);
        let ghost cur = v@.take(i as int + 1);
        assert(cur.drop_last() =~= pre);
        assert(cur.last() == v@[i as int]);
        assert(spec_all_digits(cur)) by {
            assert(forall|k: int| 0 <= k < i ==> cur[k] == #[trigger] pre[k]);
        }
        match acc.checked_mul(10) {
            Some(t) => {
                match t.checked_add(d) {
                    Some(next) => {
                        acc = next;
                        i = i + 1;
                    },
                    None => {
                        assert(spec_dec_val(cur) > u64::MAX);
                        proof {
                            if spec_all_digits(v@) {
                                lemma_dec_val_prefix_le(v@, i as int + 1);
                                assert(spec_dec_val(v@) > u64::MAX);
                            }
                        }
                        return None;
                    },
                }
            },
            None => {
                proof {
                    lemma_dec_val_nonneg(pre);
                    assert(spec_dec_val(cur) > u64::MAX) by {
                        assert(spec_dec_val(pre) * 10 > u64::MAX);
                        assert(spec_dec_val(cur) == spec_dec_val(pre) * 10 + (v@[i as int] as int
                            - 48));
                    }
                    if spec_all_digits(v@) {
                        lemma_dec_val_prefix_le(v@, i as int + 1);
                        assert(spec_dec_val(v@) > u64::MAX);
                    }
                }
                return None;
            },
        }
    }
    assert(v@.take(v@.len() as int) =~= v@);
    Some(acc)
}

/// Parses a signed decimal token as an `i64`.
pub fn parse_int_i64(v: &Vec<char>) -> (r: Option<i64>)
    ensures
        r == spec_parse_i64(v@),
{
    if v.len() == 0 {
        return None;
    }
    if v[0] == '-' {
        let mag = crate::chars::subrange_chars(v, 1, v.len());
        assert(mag@ =~= v@.drop_first());
        match parse_dec_u64(&mag) {
            Some(m) => {
                proof {
                    lemma_dec_val_nonneg(mag@);
                }
                if m <= 9223372036854775808u64 {
                    let r: i64 = (-(m as i128)) as i64;
                    Some(r)
                } else {
                    assert(-spec_dec_val(mag@) < i64::MIN);
                    None
                }
            },
            None => {
                assert(spec_parse_i64(v@) is None) by {
                    if mag@.len() >= 1 && spec_all_digits(mag@) && -spec_dec_val(mag@)
                        >= i64::MIN {
                        lemma_dec_val_nonneg(mag@);
                    }
                }
                None
            },
        }
    } else {
        match parse_dec_u64(v) {
            Some(m) => {
                proof {
                    lemma_dec_val_nonneg(v@);
                }
                if m <= i64::MAX as u64 {
                    Some(m as i64)
                } else {
                    None
                }
            },
            None => None,
        }
    }
}

/// The hexadecimal digit character for a value below sixteen.
pub open spec fn spec_hex_digit(d: int) -> char {
    if d < 10 {
        ((48 + d) as u8) as char
    } else {
        ((87 + d) as u8) as char
    }
}

/// Four-digit lowercase hexadecimal rendering of a value below 2^16.
pub open spec fn spec_hex4(n: int) -> Seq<char> {
    seq![
        spec_hex_digit(n / 4096 % 16),
        spec_hex_digit(n / 256 % 16),
        spec_hex_digit(n / 16 % 16),
        spec_hex_digit(n % 16),
    ]
}

/// Hexadecimal digit characters are injective on values below sixteen.
pub proof fn lemma_hex_digit_injective(a: int, b: int)
    requires
        0 <= a < 16,
        0 <= b < 16,
        spec_hex_digit(a) == spec_hex_digit(b),
    ensures
        a == b,
{
    assert(spec_hex_digit(a) as int == if a < 10 { 48 + a } else { 87 + a });
    assert(spec_hex_digit(b) as int == if b < 10 { 48 + b } else { 87 + b });
}

/// Four-digit hexadecimal rendering is injective on values below 2^16.
pub proof fn lemma_hex4_injective(a: u16, b: u16)
    requires
        spec_hex4(a as int) == spec_hex4(b as int),
    ensures
        a == b,
{
    lemma_hex_digit_injective(a as int / 4096 % 16, b as int / 4096 % 16);
    lemma_hex_digit_injective(a as int / 256 % 16, b as int / 256 % 16);
    lemma_hex_digit_injective(a as int / 16 % 16, b as int / 16 % 16);
    lemma_hex_digit_injective(a as int % 16, b as int % 16);
    assert(a as int == a as int / 4096 % 16 * 4096 + a as int / 256 % 16 * 256 + a as int / 16 % 16
        * 16 + a as int % 16) by (bit_vector);
    assert(b as int == b as int / 4096 % 16 * 4096 + b as int / 256 % 16 * 256 + b as int / 16 % 16
        * 16 + b as int % 16) by (bit_vector);
}

/// Renders a 16-bit value as four lowercase hexadecimal digits.
pub fn render_hex4(n: u16) -> (r: Vec<char>)
    ensures
        r@ == spec_hex4(n as int),
{
    let mut r: Vec<char> = Vec::new();
    r.push(hex_digit_char((n / 4096 % 16) as u8));
    r.push(hex_digit_char((n / 256 % 16) as u8));
    r.push(hex_digit_char((n / 16 % 16) as u8));
    r.push(hex_digit_char((n % 16) as u8));
    assert(r@ =~= spec_hex4(n as int));
    r
}

/// The hexadecimal digit character of a value below sixteen.
fn hex_digit_char(d: u8) -> (r: char)
    requires
        d < 16,
    ensures
        r == spec_hex_digit(d as int),
{
    if d < 10 {
        ((48 + d) as u8) as char
    } else {
        ((87 + d) as u8) as char
    }
}

} // verus!
