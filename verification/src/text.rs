//! Verified text utilities: string comparison, decimal magnitudes in both
//! directions, dash-splitting of composite identifiers, and removal of the
//! non-breaking-space entity that the device pads asset tags with.

use vstd::prelude::*;
use vstd::string::StrSliceExecFns;
use vstd::string::StringExecFns;

use crate::error::MPXError;

verus! {

/// Compares two string slices character by character.
#[verifier::loop_isolation(false)]
pub fn str_eq(a: &str, b: &str) -> (r: bool)
    ensures
        r == (a@ == b@),
{
    let alen = a.unicode_len();
    let blen = b.unicode_len();
    if alen != blen {
        assert(a@.len() != b@.len());
        return false;
    }
    let mut i: usize = 0;
    while i < alen
        invariant
            0 <= i <= alen,
            alen == a@.len(),
            alen == b@.len(),
            forall|j: int| 0 <= j < i ==> a@[j] == b@[j],
        decreases alen - i,
    {
        if a.get_char(i) != b.get_char(i) {
            assert(a@[i as int] != b@[i as int]);
            return false;
        }
        i = i + 1;
    }
    proof {
        assert(a@ =~= b@);
    }
    true
}

/// A decimal digit.
pub open spec fn is_dec_digit(c: char) -> bool {
    '0' <= c && c <= '9'
}

/// The numeric value of one decimal digit.
pub open spec fn digit_val(c: char) -> int {
    (c as int) - ('0' as int)
}

/// Whether every character of `s` is a decimal digit.
pub open spec fn all_dec_digits(s: Seq<char>) -> bool {
    forall|i: int| 0 <= i < s.len() ==> is_dec_digit(#[trigger] s[i])
}

/// The value of a digit string, most significant digit first.
pub open spec fn dec_seq_val(s: Seq<char>) -> int
    decreases s.len(),
{
    if s.len() == 0 {
        0
    } else {
        dec_seq_val(s.drop_last()) * 10 + digit_val(s.last())
    }
}

/// The digits of a decimal number, after an optional leading plus sign.
pub open spec fn dec_body(s: Seq<char>) -> Seq<char> {
    if s.len() > 0 && s[0] == '+' {
        s.skip(1)
    } else {
        s
    }
}

/// The number a text denotes in decimal, if it denotes one: an optional
/// plus sign followed by one or more digits.
pub open spec fn dec_opt(s: Seq<char>) -> Option<int> {
    let b = dec_body(s);
    if b.len() > 0 && all_dec_digits(b) {
        Some(dec_seq_val(b))
    } else {
        None
    }
}

/// What reading a decimal magnitude bounded by `max` returns.
pub open spec fn dec_bounded(s: Seq<char>, max: int) -> Result<int, MPXError> {
    match dec_opt(s) {
        Some(n) => if n <= max {
            Ok(n)
        } else {
            Err(MPXError::ParseIntError)
        },
        None => Err(MPXError::ParseIntError),
    }
}

/// The value of a digit string never decreases as the string is extended on
/// the right.
proof fn lemma_dec_prefix_le(s: Seq<char>, j: int, k: int)
    requires
        0 <= j <= k <= s.len(),
        all_dec_digits(s),
    ensures
        dec_seq_val(s.subrange(0, j)) <= dec_seq_val(s.subrange(0, k)),
    decreases k - j,
{
    if j < k {
        lemma_dec_prefix_le(s, j, k - 1);
        let p = s.subrange(0, k);
        assert(p.drop_last() =~= s.subrange(0, k - 1));
        assert(is_dec_digit(s[k - 1]));
        assert(dec_seq_val(s.subrange(0, k - 1)) >= 0) by {
            lemma_dec_val_nonneg(s.subrange(0, k - 1), s, k - 1);
        }
    }
}

/// The value of a digit string is non-negative.
proof fn lemma_dec_val_nonneg(p: Seq<char>, s: Seq<char>, k: int)
    requires
        0 <= k <= s.len(),
        all_dec_digits(s),
        p =~= s.subrange(0, k),
    ensures
        dec_seq_val(p) >= 0,
    decreases k,
{
    if k > 0 {
        assert(p.drop_last() =~= s.subrange(0, k - 1));
        lemma_dec_val_nonneg(p.drop_last(), s, k - 1);
        assert(is_dec_digit(p.last()));
    }
}

/// Reads a decimal magnitude of at most `max`, exactly as the device's
/// pages encode one: an optional plus sign, then one or more digits, and
/// nothing else.
#[verifier::loop_isolation(false)]
pub fn parse_dec_bounded(s: &str, max: u32) -> (r: Result<u32, MPXError>)
    ensures
        match r {
            Ok(v) => dec_bounded(s@, max as int) == Ok::<int, MPXError>(v as int),
            Err(e) => dec_bounded(s@, max as int) == Err::<int, MPXError>(e),
        },
{
    let len = s.unicode_len();
    let ghost b = dec_body(s@);
    let mut start: usize = 0;
    if len > 0 && s.get_char(0) == '+' {
        start = 1;
    }
    proof {
        if !(s@.len() > 0 && s@[0] == '+') {
            assert(s@.skip(0) =~= s@);
        }
        assert(b =~= s@.skip(start as int));
    }
    if start >= len {
        assert(b.len() == 0);
        return Err(MPXError::ParseIntError);
    }
    let mut acc: u64 = 0;
    let mut i: usize = start;
    proof {
        assert(s@.subrange(start as int, start as int) =~= Seq::<char>::empty());
    }
    while i < len
        invariant
            start <= i <= len,
            len == s@.len(),
            start <= 1,
            b =~= s@.skip(start as int),
            len > start,
            forall|k: int| start <= k < i ==> is_dec_digit(#[trigger] s@[k]),
            acc as int == dec_seq_val(s@.subrange(start as int, i as int)),
            acc <= max,
        decreases len - i,
    {
        let c = s.get_char(i);
        if !(c >= '0' && c <= '9') {
            proof {
                assert(b[i - start] == s@[i as int]);
                assert(!is_dec_digit(b[i - start]));
                assert(!all_dec_digits(b));
            }
            return Err(MPXError::ParseIntError);
        }
        let d: u32 = (c as u32) - ('0' as u32);
        let acc2: u64 = acc * 10 + (d as u64);
        proof {
            let p = s@.subrange(start as int, i + 1);
            assert(p.drop_last() =~= s@.subrange(start as int, i as int));
            assert(p.last() == s@[i as int]);
            assert(acc2 as int == dec_seq_val(p));
        }
        if acc2 > max as u64 {
            proof {
                let m = i + 1 - start;
                assert(b.subrange(0, m) =~= s@.subrange(start as int, i + 1));
                if all_dec_digits(b) {
                    lemma_dec_prefix_le(b, m, b.len() as int);
                    assert(b.subrange(0, b.len() as int) =~= b);
                    assert(dec_seq_val(b) > max as int);
                }
            }
            return Err(MPXError::ParseIntError);
        }
        acc = acc2;
        i = i + 1;
    }
    proof {
        assert(s@.subrange(start as int, len as int) =~= b);
        assert(all_dec_digits(b));
    }
    Ok(acc as u32)
}

/// What reading an eight-bit decimal component returns.
pub open spec fn dec_u8(s: Seq<char>) -> Result<u8, MPXError> {
    match dec_bounded(s, 255) {
        Ok(n) => Ok(n as u8),
        Err(e) => Err(e),
    }
}

/// Reads one eight-bit decimal component, e.g. of a dash-joined identifier.
pub fn parse_u8_dec(s: &str) -> (r: Result<u8, MPXError>)
    ensures
        r == dec_u8(s@),
{
    match parse_dec_bounded(s, 255) {
        Ok(v) => Ok(v as u8),
        Err(e) => Err(e),
    }
}

/// What reading a 32-bit decimal magnitude returns.
pub open spec fn dec_u32(s: Seq<char>) -> Result<u32, MPXError> {
    match dec_bounded(s, u32::MAX as int) {
        Ok(n) => Ok(n as u32),
        Err(e) => Err(e),
    }
}

/// Reads one 32-bit decimal magnitude, as table values encode one.
pub fn parse_u32_dec(s: &str) -> (r: Result<u32, MPXError>)
    ensures
        r == dec_u32(s@),
{
    parse_dec_bounded(s, u32::MAX)
}

/// The character showing one decimal digit.
pub open spec fn digit_char(d: int) -> char {
    if d == 0 {
        '0'
    } else if d == 1 {
        '1'
    } else if d == 2 {
        '2'
    } else if d == 3 {
        '3'
    } else if d == 4 {
        '4'
    } else if d == 5 {
        '5'
    } else if d == 6 {
        '6'
    } else if d == 7 {
        '7'
    } else if d == 8 {
        '8'
    } else {
        '9'
    }
}

/// The decimal rendering of a non-negative number, without sign or padding.
pub open spec fn dec_digits_of(n: nat) -> Seq<char>
    decreases n,
{
    if n < 10 {
        seq![digit_char(n as int)]
    } else {
        dec_digits_of(n / 10).push(digit_char((n % 10) as int))
    }
}

/// The one-character text showing one decimal digit.
fn digit_str(d: u32) -> (r: &'static str)
    requires
        d < 10,
    ensures
        r@ == seq![digit_char(d as int)],
{
    proof {
        reveal_strlit("0");
        reveal_strlit("1");
        reveal_strlit("2");
        reveal_strlit("3");
        reveal_strlit("4");
        reveal_strlit("5");
        reveal_strlit("6");
        reveal_strlit("7");
        reveal_strlit("8");
        reveal_strlit("9");
        assert("0"@ =~= seq!['0']);
        assert("1"@ =~= seq!['1']);
        assert("2"@ =~= seq!['2']);
        assert("3"@ =~= seq!['3']);
        assert("4"@ =~= seq!['4']);
        assert("5"@ =~= seq!['5']);
        assert("6"@ =~= seq!['6']);
        assert("7"@ =~= seq!['7']);
        assert("8"@ =~= seq!['8']);
        assert("9"@ =~= seq!['9']);
    }
    if d == 0 {
        "0"
    } else if d == 1 {
        "1"
    } else if d == 2 {
        "2"
    } else if d == 3 {
        "3"
    } else if d == 4 {
        "4"
    } else if d == 5 {
        "5"
    } else if d == 6 {
        "6"
    } else if d == 7 {
        "7"
    } else if d == 8 {
        "8"
    } else {
        "9"
    }
}

/// Renders a number in decimal, as the device's form fields expect one.
pub fn u32_to_string(n: u32) -> (r: String)
    ensures
        r@ == dec_digits_of(n as nat),
    decreases n,
{
    if n < 10 {
        digit_str(n).to_owned()
    } else {
        let mut s = u32_to_string(n / 10);
        let d = digit_str(n % 10);
        s.append(d);
        proof {
            assert(dec_digits_of((n / 10) as nat) + seq![digit_char((n % 10) as int)]
                =~= dec_digits_of((n / 10) as nat).push(digit_char((n % 10) as int)));
        }
        s
    }
}

/// The views of a sequence of owned strings.
pub open spec fn strings_view(v: Seq<String>) -> Seq<Seq<char>> {
    v.map_values(|x: String| x@)
}

/// `parts` with its first component prefixed by `pre`.
pub open spec fn prepend_first(pre: Seq<char>, parts: Seq<Seq<char>>) -> Seq<Seq<char>> {
    if parts.len() == 0 {
        seq![pre]
    } else {
        parts.update(0, pre + parts[0])
    }
}

/// The components of `s` between dashes, in order.  An empty text has one
/// empty component; every dash opens a further component.
pub open spec fn split_dash(s: Seq<char>) -> Seq<Seq<char>>
    decreases s.len(),
{
    if s.len() == 0 {
        seq![Seq::<char>::empty()]
    } else if s[0] == '-' {
        seq![Seq::<char>::empty()] + split_dash(s.skip(1))
    } else {
        prepend_first(seq![s[0]], split_dash(s.skip(1)))
    }
}

/// A split always has at least one component.
pub proof fn lemma_split_dash_len(s: Seq<char>)
    ensures
        split_dash(s).len() >= 1,
    decreases s.len(),
{
    if s.len() != 0 {
        lemma_split_dash_len(s.skip(1));
    }
}

/// Splits a text on dashes into its owned components.
#[verifier::loop_isolation(false)]
pub fn split_dash_str(s: &str) -> (r: Vec<String>)
    ensures
        strings_view(r@) == split_dash(s@),
{
    let len = s.unicode_len();
    let mut out: Vec<String> = Vec::new();
    let mut cur: String = String::new();
    let mut i: usize = 0;
    proof {
        assert(s@.skip(0) =~= s@);
        assert(strings_view(out@) =~~= Seq::<Seq<char>>::empty());
    }
    while i < len
        invariant
            0 <= i <= len,
            len == s@.len(),
            split_dash(s@) =~~= strings_view(out@) + prepend_first(cur@, split_dash(s@.skip(
                i as int,
            ))),
        decreases len - i,
    {
        proof {
            lemma_split_dash_len(s@.skip(i + 1));
            assert(s@.skip(i as int)[0] == s@[i as int]);
            assert(s@.skip(i as int).skip(1) =~= s@.skip(i + 1));
        }
        let ghost prev_out = out@;
        let ghost prev_cur = cur@;
        let ghost rest = split_dash(s@.skip(i + 1));
        let c = s.get_char(i);
        if c == '-' {
            out.push(cur);
            cur = String::new();
            proof {
                assert(strings_view(out@) =~~= strings_view(prev_out).push(prev_cur));
                assert(prepend_first(prev_cur, seq![Seq::<char>::empty()] + rest) =~~= seq![
                    prev_cur,
                ] + rest);
                assert(strings_view(prev_out) + (seq![prev_cur] + rest) =~~= (strings_view(
                    prev_out,
                ).push(prev_cur)) + rest);
                assert(rest =~~= prepend_first(cur@, rest) || rest.len() == 0);
                if rest.len() > 0 {
                    assert(prepend_first(cur@, rest) =~~= rest);
                }
            }
        } else {
            let piece = s.substring_char(i, i + 1);
            proof {
                assert(piece@ =~= seq![s@[i as int]]);
            }
            cur.append(piece);
            proof {
                assert(cur@ =~= prev_cur + seq![s@[i as int]]);
                if rest.len() == 0 {
                    assert(prepend_first(prev_cur, prepend_first(seq![s@[i as int]], rest)) =~~=
                    prepend_first(cur@, rest));
                } else {
                    assert(prepend_first(seq![s@[i as int]], rest) =~~= rest.update(
                        0,
                        seq![s@[i as int]] + rest[0],
                    ));
                    assert(prepend_first(prev_cur, prepend_first(seq![s@[i as int]], rest)) =~~=
                    rest.update(0, prev_cur + (seq![s@[i as int]] + rest[0])));
                    assert(prev_cur + (seq![s@[i as int]] + rest[0]) =~= (prev_cur + seq![
                        s@[i as int],
                    ]) + rest[0]);
                    assert(prepend_first(cur@, rest) =~~= rest.update(
                        0,
                        (prev_cur + seq![s@[i as int]]) + rest[0],
                    ));
                }
            }
        }
        i = i + 1;
    }
    proof {
        assert(s@.skip(len as int) =~= Seq::<char>::empty());
    }
    let ghost prev_out = out@;
    let ghost prev_cur = cur@;
    out.push(cur);
    proof {
        assert(strings_view(out@) =~~= strings_view(prev_out).push(prev_cur));
        assert(prepend_first(prev_cur, seq![Seq::<char>::empty()]) =~~= seq![prev_cur]);
        assert(strings_view(prev_out) + seq![prev_cur] =~~= strings_view(prev_out).push(prev_cur));
        assert(strings_view(out@) =~~= split_dash(s@));
    }
    out
}

/// The non-breaking-space entity the device pads asset tags with.
pub open spec fn nbsp() -> Seq<char> {
    seq!['&', 'n', 'b', 's', 'p', ';']
}

/// `s` with every occurrence of the non-breaking-space entity removed,
/// scanning left to right.
pub open spec fn strip_nbsp_spec(s: Seq<char>) -> Seq<char>
    decreases s.len(),
{
    if s.len() == 0 {
        Seq::empty()
    } else if s.len() >= 6 && s.subrange(0, 6) == nbsp() {
        strip_nbsp_spec(s.skip(6))
    } else {
        seq![s[0]] + strip_nbsp_spec(s.skip(1))
    }
}

/// Removes every non-breaking-space entity from `s`.
#[verifier::loop_isolation(false)]
pub fn strip_nbsp(s: &str) -> (r: String)
    ensures
        r@ == strip_nbsp_spec(s@),
{
    let len = s.unicode_len();
    let mut out: String = String::new();
    let mut i: usize = 0;
    proof {
        assert(s@.skip(0) =~= s@);
    }
    while i < len
        invariant
            0 <= i <= len,
            len == s@.len(),
            strip_nbsp_spec(s@) == out@ + strip_nbsp_spec(s@.skip(i as int)),
        decreases len - i,
    {
        let ghost rem = s@.skip(i as int);
        let is_pat: bool = if len >= 6 && i <= len - 6 {
            s.get_char(i) == '&' && s.get_char(i + 1) == 'n' && s.get_char(i + 2) == 'b'
                && s.get_char(i + 3) == 's' && s.get_char(i + 4) == 'p' && s.get_char(i + 5) == ';'
        } else {
            false
        };
        proof {
            assert(forall|k: int| 0 <= k < rem.len() ==> rem[k] == s@[i + k]);
        }
        if is_pat {
            proof {
                assert(rem.subrange(0, 6) =~= nbsp());
                assert(rem.skip(6) =~= s@.skip(i + 6));
                assert(strip_nbsp_spec(rem) == strip_nbsp_spec(s@.skip(i + 6)));
            }
            i = i + 6;
        } else {
            proof {
                if rem.len() >= 6 && rem.subrange(0, 6) == nbsp() {
                    assert(rem.subrange(0, 6)[0] == '&');
                    assert(rem.subrange(0, 6)[1] == 'n');
                    assert(rem.subrange(0, 6)[2] == 'b');
                    assert(rem.subrange(0, 6)[3] == 's');
                    assert(rem.subrange(0, 6)[4] == 'p');
                    assert(rem.subrange(0, 6)[5] == ';');
                    assert(false);
                }
                assert(strip_nbsp_spec(rem) == seq![s@[i as int]] + strip_nbsp_spec(s@.skip(i + 1)))
                    by {
                    assert(rem[0] == s@[i as int]);
                    assert(rem.skip(1) =~= s@.skip(i + 1));
                }
            }
            let ghost prev_out = out@;
            let piece = s.substring_char(i, i + 1);
            proof {
                assert(piece@ =~= seq![s@[i as int]]);
            }
            out.append(piece);
            proof {
                assert((prev_out + seq![s@[i as int]]) + strip_nbsp_spec(s@.skip(i + 1)) =~=
                prev_out + (seq![s@[i as int]] + strip_nbsp_spec(s@.skip(i + 1))));
            }
            i = i + 1;
        }
    }
    proof {
        assert(s@.skip(len as int) =~= Seq::<char>::empty());
        assert(out@ + Seq::<char>::empty() =~= out@);
    }
    out
}

} // verus!
