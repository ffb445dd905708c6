//! Comparisons on character sequences and byte strings.
//!
//! Strings order lexicographically by Unicode code point, which coincides
//! with lexicographic byte order of their UTF-8 encodings.  Byte-string
//! order is used for storage keys.

use vstd::prelude::*;
use vstd::string::*;

verus! {

/// Strict lexicographic order on character sequences, by code point.
pub open spec fn lex_lt_chars(a: Seq<char>, b: Seq<char>) -> bool
    decreases a.len(),
{
    if b.len() == 0 {
        false
    } else if a.len() == 0 {
        true
    } else if (a[0] as u32) < (b[0] as u32) {
        true
    } else if a[0] == b[0] {
        lex_lt_chars(a.drop_first(), b.drop_first())
    } else {
        false
    }
}

/// Strict lexicographic order on byte strings.
pub open spec fn lex_lt_bytes(a: Seq<u8>, b: Seq<u8>) -> bool
    decreases a.len(),
{
    if b.len() == 0 {
        false
    } else if a.len() == 0 {
        true
    } else if a[0] < b[0] {
        true
    } else if a[0] == b[0] {
        lex_lt_bytes(a.drop_first(), b.drop_first())
    } else {
        false
    }
}

/// No byte string comes before itself.
pub proof fn lemma_lex_lt_bytes_irrefl(a: Seq<u8>)
    ensures
        !lex_lt_bytes(a, a),
    decreases a.len(),
{
    if a.len() > 0 {
        lemma_lex_lt_bytes_irrefl(a.drop_first());
    }
}

/// Dropping an equal first character on both sides keeps the order.
proof fn lemma_lex_lt_chars_skip(a: Seq<char>, b: Seq<char>, i: int)
    requires
        0 <= i <= a.len(),
        i <= b.len(),
        forall|j: int| 0 <= j < i ==> a[j] == b[j],
    ensures
        lex_lt_chars(a, b) == lex_lt_chars(a.skip(i), b.skip(i)),
    decreases i,
{
    if i == 0 {
        assert(a.skip(0) =~= a);
        assert(b.skip(0) =~= b);
    } else {
        assert(a.skip(1).skip(i - 1) =~= a.skip(i));
        assert(b.skip(1).skip(i - 1) =~= b.skip(i));
        assert(a.drop_first() =~= a.skip(1));
        assert(b.drop_first() =~= b.skip(1));
        lemma_lex_lt_chars_skip(a.skip(1), b.skip(1), i - 1);
    }
}

/// Whether the two strings hold the same characters.
pub fn str_eq(a: &str, b: &str) -> (r: bool)
    ensures
        r == (a@ == b@),
{
    let na = a.unicode_len();
    let nb = b.unicode_len();
    if na != nb {
        assert(a@ != b@);
        return false;
    }
    let mut i: usize = 0;
    while i < na
        invariant
            na == a@.len(),
            na == b@.len(),
            0 <= i <= na,
            forall|j: int| 0 <= j < i ==> a@[j] == b@[j],
        decreases na - i,
    {
        let ca = a.get_char(i);
        let cb = b.get_char(i);
        if ca != cb {
            return false;
        }
        i = i + 1;
    }
    proof {
        assert(a@ =~= b@);
    }
    true
}

/// Whether `a` comes strictly before `b` in lexicographic code-point order.
pub fn str_lt(a: &str, b: &str) -> (r: bool)
    ensures
        r == lex_lt_chars(a@, b@),
{
    let na = a.unicode_len();
    let nb = b.unicode_len();
    let n = if na < nb {
        na
    } else {
        nb
    };
    let mut i: usize = 0;
    while i < n
        invariant
            na == a@.len(),
            nb == b@.len(),
            n == if na < nb {
                na as int
            } else {
                nb as int
            },
            0 <= i <= n,
            forall|j: int| 0 <= j < i ==> a@[j] == b@[j],
        decreases n - i,
    {
        let ca = a.get_char(i);
        let cb = b.get_char(i);
        if (ca as u32) < (cb as u32) {
            proof {
                lemma_lex_lt_chars_skip(a@, b@, i as int);
            }
            return true;
        }
        if (cb as u32) < (ca as u32) {
            proof {
                lemma_lex_lt_chars_skip(a@, b@, i as int);
                vstd::utf8::char_u32_cast(ca, ca as u32);
                vstd::utf8::char_u32_cast(cb, cb as u32);
            }
            return false;
        }
        proof {
            vstd::utf8::char_u32_cast(ca, ca as u32);
            vstd::utf8::char_u32_cast(cb, cb as u32);
            assert(ca == cb);
        }
        i = i + 1;
    }
    proof {
        lemma_lex_lt_chars_skip(a@, b@, n as int);
    }
    na < nb
}


/// ASCII whitespace: space, tab, line feed, carriage return.
pub open spec fn is_ws(c: char) -> bool {
    c == ' ' || c == '\t' || c == '\n' || c == '\r'
}

/// Length of the leading run of non-whitespace characters.
pub open spec fn spec_token_len(s: Seq<char>) -> int
    decreases s.len(),
{
    if s.len() == 0 || is_ws(s[0]) {
        0
    } else {
        1 + spec_token_len(s.drop_first())
    }
}

/// `spec_token_len` is the position of the first whitespace character, or
/// the whole length when there is none.
pub proof fn lemma_token_len(s: Seq<char>)
    ensures
        0 <= spec_token_len(s) <= s.len(),
        forall|k: int| 0 <= k < spec_token_len(s) ==> !is_ws(s[k]),
        spec_token_len(s) < s.len() ==> is_ws(s[spec_token_len(s)]),
    decreases s.len(),
{
    if s.len() > 0 && !is_ws(s[0]) {
        lemma_token_len(s.drop_first());
        let d = s.drop_first();
        let tl = spec_token_len(s);
        assert forall|k: int| 0 <= k < tl implies !is_ws(s[k]) by {
            if k > 0 {
                assert(d[k - 1] == s[k]);
            }
        }
        if tl < s.len() {
            assert(d[tl - 1] == s[tl]);
        }
    }
}

/// Split a character sequence on runs of ASCII whitespace.
pub open spec fn spec_split_ws(s: Seq<char>) -> Seq<Seq<char>>
    decreases s.len(),
    via lemma_split_ws_decreases
{
    if s.len() == 0 {
        Seq::empty()
    } else if is_ws(s[0]) {
        spec_split_ws(s.drop_first())
    } else {
        seq![s.take(spec_token_len(s))] + spec_split_ws(s.skip(spec_token_len(s)))
    }
}

#[via_fn]
proof fn lemma_split_ws_decreases(s: Seq<char>) {
    if s.len() > 0 && !is_ws(s[0]) {
        lemma_token_len(s);
    }
}

/// Whether the character is ASCII whitespace.
fn is_ws_exec(c: char) -> (r: bool)
    ensures
        r == is_ws(c),
{
    c == ' ' || c == '\t' || c == '\n' || c == '\r'
}

/// Split a string on runs of ASCII whitespace.
pub fn split_ws(s: &str) -> (r: Vec<String>)
    ensures
        r.deep_view() == spec_split_ws(s@),
{
    let n = s.unicode_len();
    let mut out: Vec<String> = Vec::new();
    let mut i: usize = 0;
    proof {
        assert(s@.skip(0) =~= s@);
        assert(out.deep_view() =~= Seq::<Seq<char>>::empty());
        assert(out.deep_view() + spec_split_ws(s@) =~= spec_split_ws(s@));
    }
    while i < n
        invariant
            n == s@.len(),
            0 <= i <= n,
            out.deep_view() + spec_split_ws(s@.skip(i as int)) == spec_split_ws(s@),
        decreases n - i,
    {
        let ghost rem = s@.skip(i as int);
        let c = s.get_char(i);
        proof {
            assert(rem[0] == s@[i as int]);
        }
        if is_ws_exec(c) {
            proof {
                assert(rem.drop_first() =~= s@.skip(i + 1));
            }
            i = i + 1;
        } else {
            let mut j = i + 1;
            while j < n && !is_ws_exec(s.get_char(j))
                invariant
                    n == s@.len(),
                    i < j <= n,
                    forall|k: int| i <= k < j ==> !is_ws(s@[k]),
                decreases n - j,
            {
                j = j + 1;
            }
            proof {
                lemma_token_len(rem);
                let tl = spec_token_len(rem);
                assert forall|k: int| 0 <= k < j - i implies !is_ws(rem[k]) by {
                    assert(rem[k] == s@[i + k]);
                }
                if tl < j - i {
                    assert(!is_ws(rem[tl]));
                }
                if tl > j - i {
                    assert(j < n ==> is_ws(s@[j as int]));
                    if j < n {
                        assert(rem[j - i] == s@[j as int]);
                        assert(!is_ws(rem[j - i]));
                    }
                }
                assert(tl == j - i);
            }
            let tok = s.substring_char(i, j).to_owned();
            proof {
                assert(tok@ =~= rem.take(j - i));
                assert(out.deep_view().len() == out@.len());
            }
            let ghost prev = out@;
            out.push(tok);
            proof {
                assert(out@.len() == prev.len() + 1);
                assert(forall|k: int| 0 <= k < prev.len() ==> out@[k] == prev[k]);
                assert(rem.skip(j - i) =~= s@.skip(j as int));
                let pieces = spec_split_ws(s@.skip(j as int));
                assert(spec_split_ws(rem) == seq![rem.take(j - i)] + pieces);
                assert(out.deep_view() =~= prev.subrange(0, prev.len() as int).map_values(
                    |t: String| t@,
                ).push(rem.take(j - i)));
                assert((Seq::new(prev.len() as nat, |k: int| prev[k].deep_view()) + (seq![
                    rem.take(j - i),
                ] + pieces)) =~= (out.deep_view() + pieces));
            }
            i = j;
        }
    }
    proof {
        assert(s@.skip(n as int) =~= Seq::<char>::empty());
        assert(out.deep_view() + spec_split_ws(s@.skip(n as int)) =~= out.deep_view());
    }
    out
}

/// Whether the character is a decimal digit.
pub open spec fn is_digit(c: char) -> bool {
    48 <= c as u32 <= 57
}

/// The numeric value of a decimal digit.
pub open spec fn digit_val(c: char) -> int {
    c as u32 - 48
}

/// Every character is a decimal digit.
pub open spec fn all_digits(s: Seq<char>) -> bool {
    forall|i: int| 0 <= i < s.len() ==> is_digit(#[trigger] s[i])
}

/// The value of a digit string, most significant digit first.
pub open spec fn digits_val(s: Seq<char>) -> int
    decreases s.len(),
{
    if s.len() == 0 {
        0
    } else {
        digits_val(s.drop_last()) * 10 + digit_val(s.last())
    }
}

/// Parse a decimal 64-bit signed integer: an optional sign followed by at
/// least one digit, within the `i64` range.
pub open spec fn spec_parse_i64(s: Seq<char>) -> Option<i64> {
    let signed = s.len() >= 1 && (s[0] == '-' || s[0] == '+');
    let body = if signed {
        s.drop_first()
    } else {
        s
    };
    let neg = s.len() >= 1 && s[0] == '-';
    if body.len() == 0 || !all_digits(body) {
        None
    } else {
        let v = if neg {
            -digits_val(body)
        } else {
            digits_val(body)
        };
        if i64::MIN <= v <= i64::MAX {
            Some(v as i64)
        } else {
            None
        }
    }
}

/// The value of a digit string is never negative.
proof fn lemma_digits_val_nonneg(s: Seq<char>)
    requires
        all_digits(s),
    ensures
        digits_val(s) >= 0,
    decreases s.len(),
{
    if s.len() > 0 {
        assert(all_digits(s.drop_last())) by {
            assert(forall|i: int|
                0 <= i < s.drop_last().len() ==> s.drop_last()[i] == s[i]);
        }
        lemma_digits_val_nonneg(s.drop_last());
    }
}

/// Parse a decimal 64-bit signed integer from a string.
pub fn parse_i64(s: &str) -> (r: Option<i64>)
    ensures
        r == spec_parse_i64(s@),
{
    let n = s.unicode_len();
    if n == 0 {
        return None;
    }
    let c0 = s.get_char(0);
    let neg = c0 == '-';
    let signed = c0 == '-' || c0 == '+';
    let start: usize = if signed {
        1
    } else {
        0
    };
    let ghost body = if signed {
        s@.drop_first()
    } else {
        s@
    };
    proof {
        assert(body =~= s@.skip(start as int));
    }
    if start == n {
        return None;
    }
    let mut acc: u128 = 0;
    let mut over = false;
    let mut i: usize = start;
    proof {
        assert(body.take(0) =~= Seq::<char>::empty());
    }
    while i < n
        invariant
            n == s@.len(),
            body == s@.skip(start as int),
            signed == (s@.len() >= 1 && (s@[0] == '-' || s@[0] == '+')),
            neg == (s@.len() >= 1 && s@[0] == '-'),
            start == if signed { 1int } else { 0int },
            start <= i <= n,
            start <= 1,
            body.len() == n - start,
            forall|k: int| 0 <= k < i - start ==> is_digit(#[trigger] body[k]),
            !over ==> acc == digits_val(body.take(i - start)) && acc
                <= 0x8000_0000_0000_0000u128,
            over ==> digits_val(body.take(i - start)) > 0x8000_0000_0000_0000u128,
        decreases n - i,
    {
        let c = s.get_char(i);
        proof {
            assert(body[i - start] == s@[i as int]);
        }
        let u = c as u32;
        if u < 48 || u > 57 {
            proof {
                assert(!is_digit(body[i - start]));
                assert(!all_digits(body));
            }
            return None;
        }
        let d = (u - 48) as u128;
        let ghost pre = body.take(i - start);
        let ghost cur = body.take(i - start + 1);
        proof {
            assert(cur.drop_last() =~= pre);
            assert(cur.last() == body[i - start]);
            assert(digits_val(cur) == digits_val(pre) * 10 + digit_val(body[i - start]));
            vstd::utf8::char_u32_cast(c, u);
            assert(digit_val(body[i - start]) == d);
        }
        if over {
            proof {
                let old_v = digits_val(pre);
                assert(digits_val(cur) > 0x8000_0000_0000_0000u128) by (nonlinear_arith)
                    requires
                        old_v > 0x8000_0000_0000_0000u128,
                        digits_val(cur) == old_v * 10 + digit_val(body[i - start]),
                        digit_val(body[i - start]) >= 0,
                ;
            }
        } else {
            let acc2 = acc * 10 + d;
            if acc2 > 0x8000_0000_0000_0000u128 {
                over = true;
            } else {
                acc = acc2;
            }
        }
        i = i + 1;
    }
    proof {
        assert(body.take(n - start) =~= body);
        assert(all_digits(body));
        lemma_digits_val_nonneg(body);
    }
    if neg {
        if over {
            return None;
        }
        if acc == 0x8000_0000_0000_0000u128 {
            proof {
                assert(-digits_val(body) == i64::MIN);
            }
            Some(i64::MIN)
        } else {
            proof {
                assert(acc < 0x8000_0000_0000_0000u128);
            }
            Some(-(acc as i64))
        }
    } else {
        if over || acc > 0x7FFF_FFFF_FFFF_FFFFu128 {
            return None;
        }
        Some(acc as i64)
    }
}

} // verus!
