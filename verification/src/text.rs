//! Character-sequence helpers shared by the whole rule catalog.
//!
//! Rule predicates match variable and routine names ASCII-case-insensitively,
//! so the central notions here are ASCII upper-casing (`up`) and substring
//! search (`contains_seq`), together with decimal rendering of the numbers
//! that appear in canonical expression text and violation messages.

use vstd::prelude::*;

verus! {

/// ASCII upper-casing of one character; anything but a lower-case ASCII
/// letter is unchanged.
pub open spec fn up_char(c: char) -> char {
    if 'a' <= c && c <= 'z' {
        ((c as u32) - 32) as char
    } else {
        c
    }
}

/// ASCII upper-casing of a whole character sequence.
pub open spec fn up(s: Seq<char>) -> Seq<char> {
    s.map_values(|c: char| up_char(c))
}

/// Upper-case one character (ASCII letters only).
pub fn upper_char(c: char) -> (r: char)
    ensures
        r == up_char(c),
{
    if 'a' <= c && c <= 'z' {
        let code: u32 = (c as u32) - 32;
        (code as u8) as char
    } else {
        c
    }
}

/// Relies on `String::push`: appends exactly the given character.
#[verifier::external_body]
pub fn push_char(out: &mut String, c: char)
    ensures
        final(out)@ == old(out)@ + seq![c],
{
    out.push(c);
}

/// `n` occurs in `h` starting at position `i`.
pub open spec fn is_sub_at(h: Seq<char>, n: Seq<char>, i: int) -> bool {
    0 <= i && i + n.len() <= h.len() && h.subrange(i, i + n.len()) == n
}

/// `n` occurs somewhere in `h`.
pub open spec fn contains_seq(h: Seq<char>, n: Seq<char>) -> bool {
    exists|i: int| is_sub_at(h, n, i)
}

/// `h` ends with `n`.
pub open spec fn ends_with_seq(h: Seq<char>, n: Seq<char>) -> bool {
    n.len() <= h.len() && h.subrange(h.len() - n.len(), h.len() as int) == n
}

/// `h` starts with `n`.
pub open spec fn starts_with_seq(h: Seq<char>, n: Seq<char>) -> bool {
    n.len() <= h.len() && h.subrange(0, n.len() as int) == n
}

/// The view of `h`, upper-cased when `fold` is set.
spec fn folded(h: Seq<char>, fold: bool) -> Seq<char> {
    if fold {
        up(h)
    } else {
        h
    }
}

/// Does `n` match `h` (optionally upper-cased) at position `i`?
fn match_at(h: &str, n: &str, i: usize, nl: usize, hl: usize, fold: bool) -> (r: bool)
    requires
        nl == n@.len(),
        hl == h@.len(),
        i + nl <= hl,
    ensures
        r == is_sub_at(folded(h@, fold), n@, i as int),
{
    let mut j: usize = 0;
    while j < nl
        invariant
            nl == n@.len(),
            hl == h@.len(),
            i + nl <= hl,
            j <= nl,
            forall|k: int| 0 <= k < j ==> folded(h@, fold)[i + k] == n@[k],
        decreases nl - j,
    {
        let hc = h.get_char(i + j);
        let hc = if fold {
            upper_char(hc)
        } else {
            hc
        };
        let nc = n.get_char(j);
        if hc != nc {
            assert(!is_sub_at(folded(h@, fold), n@, i as int)) by {
                assert(folded(h@, fold)[i + j] != n@[j as int]);
                if is_sub_at(folded(h@, fold), n@, i as int) {
                    assert(folded(h@, fold).subrange(i as int, i + n@.len())[j as int] == folded(
                        h@,
                        fold,
                    )[i + j]);
                }
            }
            return false;
        }
        j += 1;
    }
    assert(folded(h@, fold).subrange(i as int, i + n@.len()) =~= n@);
    true
}

/// Substring search over `h`, upper-cased when `fold` is set.
fn contains_impl(h: &str, n: &str, fold: bool) -> (r: bool)
    ensures
        r == contains_seq(folded(h@, fold), n@),
{
    let hl = h.unicode_len();
    let nl = n.unicode_len();
    if nl > hl {
        return false;
    }
    if nl == 0 {
        assert(is_sub_at(folded(h@, fold), n@, 0)) by {
            assert(folded(h@, fold).subrange(0, 0) =~= n@);
        }
        return true;
    }
    let count = hl - nl + 1;
    let mut i: usize = 0;
    while i < count
        invariant
            hl == h@.len(),
            nl == n@.len(),
            0 < nl <= hl,
            count == hl - nl + 1,
            i <= count,
            forall|k: int| 0 <= k < i ==> !is_sub_at(folded(h@, fold), n@, k),
        decreases count - i,
    {
        if match_at(h, n, i, nl, hl, fold) {
            return true;
        }
        i += 1;
    }
    false
}

/// Case-sensitive substring search.
pub fn str_contains(h: &str, n: &str) -> (r: bool)
    ensures
        r == contains_seq(h@, n@),
{
    contains_impl(h, n, false)
}

/// Substring search in the upper-cased haystack; callers pass an
/// upper-case needle to get case-insensitive matching.
pub fn str_contains_up(h: &str, n: &str) -> (r: bool)
    ensures
        r == contains_seq(up(h@), n@),
{
    contains_impl(h, n, true)
}

/// Does the upper-cased haystack end with `n`?
pub fn str_ends_with_up(h: &str, n: &str) -> (r: bool)
    ensures
        r == ends_with_seq(up(h@), n@),
{
    let hl = h.unicode_len();
    let nl = n.unicode_len();
    if nl > hl {
        return false;
    }
    let r = match_at(h, n, hl - nl, nl, hl, true);
    assert(is_sub_at(up(h@), n@, hl - nl) == ends_with_seq(up(h@), n@));
    r
}

/// Case-sensitive prefix test.
pub fn str_starts_with(h: &str, n: &str) -> (r: bool)
    ensures
        r == starts_with_seq(h@, n@),
{
    let hl = h.unicode_len();
    let nl = n.unicode_len();
    if nl > hl {
        return false;
    }
    let r = match_at(h, n, 0, nl, hl, false);
    assert(is_sub_at(h@, n@, 0) == starts_with_seq(h@, n@));
    r
}

/// Case-sensitive suffix test.
pub fn str_ends_with(h: &str, n: &str) -> (r: bool)
    ensures
        r == ends_with_seq(h@, n@),
{
    let hl = h.unicode_len();
    let nl = n.unicode_len();
    if nl > hl {
        return false;
    }
    let r = match_at(h, n, hl - nl, nl, hl, false);
    assert(is_sub_at(h@, n@, hl - nl) == ends_with_seq(h@, n@));
    r
}

/// Case-sensitive string equality.
pub fn str_eq(h: &str, n: &str) -> (r: bool)
    ensures
        r == (h@ == n@),
{
    let hl = h.unicode_len();
    let nl = n.unicode_len();
    if nl != hl {
        return false;
    }
    let r = match_at(h, n, 0, nl, hl, false);
    assert(h@.subrange(0, h@.len() as int) =~= h@);
    r
}

/// The ASCII upper-casing of a whole string.
pub fn to_upper(s: &str) -> (r: String)
    ensures
        r@ == up(s@),
{
    let sl = s.unicode_len();
    let mut out = String::new();
    let mut i: usize = 0;
    while i < sl
        invariant
            sl == s@.len(),
            i <= sl,
            out@ == up(s@.take(i as int)),
        decreases sl - i,
    {
        let c = upper_char(s.get_char(i));
        push_char(&mut out, c);
        assert(out@ =~= up(s@.take(i + 1)));
        i += 1;
    }
    assert(s@.take(sl as int) =~= s@);
    out
}

/// Does the upper-cased haystack equal `n`?
pub fn str_eq_up(h: &str, n: &str) -> (r: bool)
    ensures
        r == (up(h@) == n@),
{
    let hl = h.unicode_len();
    let nl = n.unicode_len();
    if nl != hl {
        assert(up(h@) != n@) by {
            assert(up(h@).len() == h@.len());
        }
        return false;
    }
    let r = match_at(h, n, 0, nl, hl, true);
    assert(up(h@).subrange(0, h@.len() as int) =~= up(h@));
    r
}

/// The sequence with every space removed, dropping from the right.
pub open spec fn without_spaces(s: Seq<char>) -> Seq<char>
    decreases s.len(),
{
    if s.len() == 0 {
        Seq::empty()
    } else if s.last() == ' ' {
        without_spaces(s.drop_last())
    } else {
        without_spaces(s.drop_last()).push(s.last())
    }
}

/// Remove every space character.
pub fn strip_spaces(h: &str) -> (r: String)
    ensures
        r@ == without_spaces(h@),
{
    let hl = h.unicode_len();
    let mut out = String::new();
    let mut i: usize = 0;
    while i < hl
        invariant
            hl == h@.len(),
            i <= hl,
            out@ == without_spaces(h@.take(i as int)),
        decreases hl - i,
    {
        let c = h.get_char(i);
        assert(h@.take(i + 1).drop_last() =~= h@.take(i as int));
        assert(h@.take(i + 1).last() == h@[i as int]);
        if c != ' ' {
            push_char(&mut out, c);
        }
        i += 1;
    }
    assert(h@.take(hl as int) =~= h@);
    out
}

/// The digit character for one decimal digit.
pub open spec fn dec_digit(d: int) -> char {
    (48 + d) as char
}

/// Decimal rendering of a natural number, most significant digit first.
pub open spec fn dec_rep(n: nat) -> Seq<char>
    decreases n,
{
    if n < 10 {
        seq![dec_digit(n as int)]
    } else {
        dec_rep(n / 10).push(dec_digit((n % 10) as int))
    }
}

/// Decimal rendering of an integer, with a leading minus sign if negative.
pub open spec fn int_rep(n: int) -> Seq<char> {
    if n < 0 {
        seq!['-'] + dec_rep((-n) as nat)
    } else {
        dec_rep(n as nat)
    }
}

/// Append the decimal rendering of `n`.
pub fn push_u64_dec(out: &mut String, n: u64)
    ensures
        final(out)@ == old(out)@ + dec_rep(n as nat),
    decreases n,
{
    if n < 10 {
        let c: char = (48 + n as u8) as char;
        assert(c == dec_digit(n as int));
        push_char(out, c);
    } else {
        push_u64_dec(out, n / 10);
        let d: u8 = (n % 10) as u8;
        let c: char = (48 + d) as char;
        assert(c == dec_digit((n as nat % 10) as int));
        push_char(out, c);
        assert(old(out)@ + dec_rep(n as nat) =~= (old(out)@ + dec_rep(n as nat / 10)) + seq![
            dec_digit((n as nat % 10) as int),
        ]);
    }
}

/// Append the decimal rendering of a signed number.
pub fn push_i64_dec(out: &mut String, n: i64)
    ensures
        final(out)@ == old(out)@ + int_rep(n as int),
{
    if n < 0 {
        push_char(out, '-');
        let m: u64 = if n == i64::MIN {
            9223372036854775808u64
        } else {
            (-n) as u64
        };
        assert(m as nat == (-(n as int)) as nat);
        push_u64_dec(out, m);
        assert(old(out)@ + int_rep(n as int) =~= (old(out)@ + seq!['-']) + dec_rep(
            (-(n as int)) as nat,
        ));
    } else {
        push_u64_dec(out, n as u64);
    }
}

} // verus!
