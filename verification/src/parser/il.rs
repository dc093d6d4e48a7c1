//! Simplified parser for the instruction-list (IL/AWL) dialect.
//!
//! Accumulator-based logic (LD/ADD/ST) is translated into the unified
//! AST; conditional jumps to labels become IF statements.  The front end
//! is total — every input yields a program — and its contract pins the
//! translation: the produced statements are the image of the
//! accumulator walk `il_parse` over the source's lines.  Jumps are
//! followed forwards only, so the line scan is bounded even on
//! adversarial label layouts.

use vstd::prelude::*;
use vstd::string::StringExecFns;
use crate::ast::{BinOp, Expression, Function, FunctionKind, Program, Statement, UnaryOp, Variable};
use crate::rules::rule10::{digits_val, is_digit};
use crate::text::{push_char, str_eq, str_eq_up, up};

verus! {

/// An ASCII blank: space, tab, carriage return or line feed.
pub open spec fn is_ws(c: char) -> bool {
    c == ' ' || c == '\t' || c == '\r' || c == '\n'
}

/// The sequence with leading blanks removed.
pub open spec fn trim_front(s: Seq<char>) -> Seq<char>
    decreases s,
{
    if s.len() > 0 && is_ws(s.first()) {
        trim_front(s.drop_first())
    } else {
        s
    }
}

/// The sequence with trailing blanks removed.
pub open spec fn trim_back(s: Seq<char>) -> Seq<char>
    decreases s,
{
    if s.len() > 0 && is_ws(s.last()) {
        trim_back(s.drop_last())
    } else {
        s
    }
}

/// The sequence with blanks removed on both sides.
pub open spec fn trim_spec(s: Seq<char>) -> Seq<char> {
    trim_back(trim_front(s))
}

/// Trim ASCII blanks from both ends.
#[verifier::loop_isolation(false)]
pub fn trim_str(s: &str) -> (r: String)
    ensures
        r@ == trim_spec(s@),
{
    let sl = s.unicode_len();
    let mut i: usize = 0;
    let mut fstop = false;
    assert(s@.skip(0) =~= s@);
    while i < sl && !fstop
        invariant
            sl == s@.len(),
            i <= sl,
            trim_front(s@) == trim_front(s@.skip(i as int)),
            fstop ==> i < sl && !is_ws(s@[i as int]),
        decreases sl - i + (if fstop {
            0int
        } else {
            1int
        }),
    {
        let c = s.get_char(i);
        if c == ' ' || c == '\t' || c == '\r' || c == '\n' {
            assert(s@.skip(i as int).first() == s@[i as int]);
            assert(s@.skip(i as int).drop_first() =~= s@.skip(i + 1));
            i += 1;
        } else {
            fstop = true;
        }
    }
    assert(trim_front(s@.skip(i as int)) == s@.skip(i as int));
    let mut j: usize = sl;
    let mut bstop = false;
    while j > i && !bstop
        invariant
            sl == s@.len(),
            i <= j <= sl,
            trim_front(s@) == s@.skip(i as int),
            trim_back(s@.skip(i as int)) == trim_back(s@.subrange(i as int, j as int)),
            bstop ==> j > i && !is_ws(s@[j - 1]),
        decreases j + (if bstop {
            0int
        } else {
            1int
        }),
    {
        let c = s.get_char(j - 1);
        if c == ' ' || c == '\t' || c == '\r' || c == '\n' {
            assert(s@.subrange(i as int, j as int).last() == s@[j - 1]);
            assert(s@.subrange(i as int, j as int).drop_last() =~= s@.subrange(i as int, j - 1));
            j -= 1;
        } else {
            bstop = true;
        }
    }
    assert(trim_back(s@.subrange(i as int, j as int)) == s@.subrange(i as int, j as int)) by {
        if j > i {
            assert(s@.subrange(i as int, j as int).last() == s@[j - 1]);
        }
    }
    let mut out = String::new();
    let mut k: usize = i;
    while k < j
        invariant
            i <= k <= j <= sl,
            sl == s@.len(),
            out@ == s@.subrange(i as int, k as int),
        decreases j - k,
    {
        push_char(&mut out, s.get_char(k));
        assert(out@ =~= s@.subrange(i as int, k + 1));
        k += 1;
    }
    assert(out@ == trim_spec(s@));
    out
}

/// A line with a trailing carriage return removed.
pub open spec fn strip_cr(l: Seq<char>) -> Seq<char> {
    if l.len() > 0 && l.last() == '\r' {
        l.drop_last()
    } else {
        l
    }
}

/// The lines of a source text, split at line feeds, accumulating the
/// current line and the finished lines; the final line is kept only if
/// non-empty.
pub open spec fn split_lines_s(
    s: Seq<char>,
    i: int,
    cur: Seq<char>,
    acc: Seq<Seq<char>>,
) -> Seq<Seq<char>>
    decreases s.len() - i,
{
    if i < 0 || i >= s.len() {
        if cur.len() == 0 {
            acc
        } else {
            acc.push(strip_cr(cur))
        }
    } else if s[i] == '\n' {
        split_lines_s(s, i + 1, Seq::empty(), acc.push(strip_cr(cur)))
    } else {
        split_lines_s(s, i + 1, cur.push(s[i]), acc)
    }
}

/// The lines of a source text.
pub open spec fn lines_of(s: Seq<char>) -> Seq<Seq<char>> {
    split_lines_s(s, 0, Seq::empty(), Seq::empty())
}

/// The views of a vector of lines.
pub open spec fn line_views(v: Seq<String>) -> Seq<Seq<char>> {
    v.map_values(|l: String| l@)
}

/// Split a source text into lines.
#[verifier::loop_isolation(false)]
pub fn split_lines(s: &str) -> (r: Vec<String>)
    ensures
        line_views(r@) == lines_of(s@),
{
    let sl = s.unicode_len();
    let mut out: Vec<String> = Vec::new();
    let mut cur = String::new();
    let mut i: usize = 0;
    assert(line_views(out@) =~= Seq::<Seq<char>>::empty());
    while i < sl
        invariant
            sl == s@.len(),
            i <= sl,
            lines_of(s@) == split_lines_s(s@, i as int, cur@, line_views(out@)),
        decreases sl - i,
    {
        let c = s.get_char(i);
        if c == '\n' {
            proof {
                assert(split_lines_s(s@, i as int, cur@, line_views(out@)) == split_lines_s(
                    s@,
                    i + 1,
                    Seq::empty(),
                    line_views(out@).push(strip_cr(cur@)),
                ));
            }
            let ghost gcur = cur@;
            let finished = finish_line(cur);
            let ghost pre = out@;
            out.push(finished);
            assert(line_views(out@) =~= line_views(pre).push(strip_cr(gcur)));
            cur = String::new();
        } else {
            proof {
                assert(split_lines_s(s@, i as int, cur@, line_views(out@)) == split_lines_s(
                    s@,
                    i + 1,
                    cur@.push(c),
                    line_views(out@),
                ));
            }
            let ghost pcur = cur@;
            push_char(&mut cur, c);
            assert(cur@ =~= pcur.push(c));
        }
        i += 1;
    }
    if cur.unicode_len() > 0 {
        let ghost gcur = cur@;
        let finished = finish_line(cur);
        let ghost pre = out@;
        out.push(finished);
        assert(line_views(out@) =~= line_views(pre).push(strip_cr(gcur)));
    }
    out
}

/// Remove the trailing carriage return of one finished line.
fn finish_line(l: String) -> (r: String)
    ensures
        r@ == strip_cr(l@),
{
    let ll = l.as_str().unicode_len();
    if ll > 0 && l.as_str().get_char(ll - 1) == '\r' {
        let mut out = String::new();
        let mut k: usize = 0;
        while k < ll - 1
            invariant
                ll == l@.len(),
                ll > 0,
                k <= ll - 1,
                out@ == l@.take(k as int),
            decreases ll - k,
        {
            push_char(&mut out, l.as_str().get_char(k));
            assert(out@ =~= l@.take(k + 1));
            k += 1;
        }
        assert(out@ =~= l@.drop_last());
        out
    } else {
        l
    }
}

/// The index of the first non-blank character at or after `i`.
pub open spec fn skip_ws(s: Seq<char>, i: int) -> int
    decreases s.len() - i,
{
    if i < 0 || i >= s.len() {
        i
    } else if is_ws(s[i]) {
        skip_ws(s, i + 1)
    } else {
        i
    }
}

/// The index just past the token starting at `i`.
pub open spec fn token_end(s: Seq<char>, i: int) -> int
    decreases s.len() - i,
{
    if i < 0 || i >= s.len() {
        i
    } else if is_ws(s[i]) {
        i
    } else {
        token_end(s, i + 1)
    }
}

/// The first two blank-separated tokens of a line (either may be empty).
pub open spec fn two_tokens(s: Seq<char>) -> (Seq<char>, Seq<char>) {
    let a0 = skip_ws(s, 0);
    let a1 = token_end(s, a0);
    let b0 = skip_ws(s, a1);
    let b1 = token_end(s, b0);
    (s.subrange(a0, a1), s.subrange(b0, b1))
}

/// Find the first non-blank position at or after `from`.
#[verifier::loop_isolation(false)]
fn skip_ws_x(s: &str, sl: usize, from: usize) -> (r: usize)
    requires
        sl == s@.len(),
        from <= sl,
    ensures
        r as int == skip_ws(s@, from as int),
        from <= r <= sl,
{
    let mut i = from;
    let mut stop = false;
    while i < sl && !stop
        invariant
            sl == s@.len(),
            from <= i <= sl,
            skip_ws(s@, from as int) == skip_ws(s@, i as int),
            stop ==> i < sl && !is_ws(s@[i as int]),
        decreases sl - i + (if stop {
            0int
        } else {
            1int
        }),
    {
        let c = s.get_char(i);
        if c == ' ' || c == '\t' || c == '\r' || c == '\n' {
            i += 1;
        } else {
            stop = true;
        }
    }
    i
}

/// Find the end of the token starting at `from`.
#[verifier::loop_isolation(false)]
fn token_end_x(s: &str, sl: usize, from: usize) -> (r: usize)
    requires
        sl == s@.len(),
        from <= sl,
    ensures
        r as int == token_end(s@, from as int),
        from <= r <= sl,
{
    let mut i = from;
    let mut stop = false;
    while i < sl && !stop
        invariant
            sl == s@.len(),
            from <= i <= sl,
            token_end(s@, from as int) == token_end(s@, i as int),
            stop ==> i < sl && is_ws(s@[i as int]),
        decreases sl - i + (if stop {
            0int
        } else {
            1int
        }),
    {
        let c = s.get_char(i);
        if !(c == ' ' || c == '\t' || c == '\r' || c == '\n') {
            i += 1;
        } else {
            stop = true;
        }
    }
    i
}

/// Copy the given character range of a string.
#[verifier::loop_isolation(false)]
fn copy_range(s: &str, from: usize, to: usize) -> (r: String)
    requires
        from <= to <= s@.len(),
    ensures
        r@ == s@.subrange(from as int, to as int),
{
    let mut out = String::new();
    let mut k = from;
    while k < to
        invariant
            from <= k <= to <= s@.len(),
            out@ == s@.subrange(from as int, k as int),
        decreases to - k,
    {
        push_char(&mut out, s.get_char(k));
        assert(out@ =~= s@.subrange(from as int, k + 1));
        k += 1;
    }
    out
}

/// Split a line into its first two tokens.
pub fn split_two_tokens(s: &str) -> (r: (String, String))
    ensures
        r.0@ == two_tokens(s@).0,
        r.1@ == two_tokens(s@).1,
{
    let sl = s.unicode_len();
    let a0 = skip_ws_x(s, sl, 0);
    let a1 = token_end_x(s, sl, a0);
    let b0 = skip_ws_x(s, sl, a1);
    let b1 = token_end_x(s, sl, b0);
    (copy_range(s, a0, a1), copy_range(s, b0, b1))
}

/// Does every character of the sequence denote a digit?
pub open spec fn all_digits(s: Seq<char>) -> bool {
    forall|k: int| 0 <= k < s.len() ==> is_digit(s[k])
}

/// A decimal integer with an optional sign, as Rust's integer parsing
/// reads it: a non-empty all-digit body whose value fits the target.
pub open spec fn parse_i64_s(s: Seq<char>) -> Option<int> {
    if s.len() > 0 && (s[0] == '-' || s[0] == '+') {
        let d = s.drop_first();
        if d.len() > 0 && all_digits(d) && (if s[0] == '-' {
            digits_val(d) <= 0x8000000000000000
        } else {
            digits_val(d) <= i64::MAX as int
        }) {
            Option::Some(
                if s[0] == '-' {
                    -digits_val(d)
                } else {
                    digits_val(d)
                },
            )
        } else {
            Option::None
        }
    } else if s.len() > 0 && all_digits(s) && digits_val(s) <= i64::MAX as int {
        Option::Some(digits_val(s))
    } else {
        Option::None
    }
}

/// Parse a signed decimal integer.
#[verifier::loop_isolation(false)]
pub fn parse_i64(s: &str) -> (r: Option<i64>)
    ensures
        match r {
            Option::Some(v) => parse_i64_s(s@) == Option::Some(v as int),
            Option::None => parse_i64_s(s@) is None,
        },
{
    let sl = s.unicode_len();
    if sl == 0 {
        return Option::None;
    }
    let c0 = s.get_char(0);
    let neg = c0 == '-';
    let signed = neg || c0 == '+';
    let start: usize = if signed {
        1
    } else {
        0
    };
    if sl == start {
        return Option::None;
    }
    let ghost body: Seq<char> = if signed {
        s@.drop_first()
    } else {
        s@
    };
    let limit: u64 = if neg {
        0x8000000000000000u64
    } else {
        0x7fffffffffffffffu64
    };
    let mut val: u64 = 0;
    let mut big = false;
    let mut j: usize = start;
    while j < sl
        invariant
            sl == s@.len(),
            start <= j <= sl,
            start == (if signed {
                1int
            } else {
                0int
            }),
            body == (if signed {
                s@.drop_first()
            } else {
                s@
            }),
            limit == (if neg {
                0x8000000000000000u64
            } else {
                0x7fffffffffffffffu64
            }),
            all_digits(body.take(j - start)),
            if big {
                digits_val(body.take(j - start)) > limit as int
            } else {
                val as int == digits_val(body.take(j - start)) && val <= limit
            },
        decreases sl - j,
    {
        let c = s.get_char(j);
        assert(body[j - start] == s@[j as int]);
        if !('0' <= c && c <= '9') {
            assert(!all_digits(body));
            return Option::None;
        }
        assert(body.take(j - start + 1).drop_last() =~= body.take(j - start));
        assert(body.take(j - start + 1).last() == body[j - start]);
        let d: u64 = ((c as u32) - 48) as u64;
        if big {
            proof {
                assert(digits_val(body.take(j - start + 1)) > limit as int);
            }
        } else {
            let m10 = val.checked_mul(10);
            match m10 {
                Option::Some(m) => {
                    let a = m.checked_add(d);
                    match a {
                        Option::Some(v) => {
                            if v <= limit {
                                val = v;
                            } else {
                                big = true;
                            }
                        },
                        Option::None => {
                            big = true;
                        },
                    }
                },
                Option::None => {
                    big = true;
                },
            }
        }
        j += 1;
    }
    assert(body.take(sl - start) =~= body);
    if big {
        return Option::None;
    }
    if neg {
        if val == 0x8000000000000000u64 {
            Option::Some(i64::MIN)
        } else {
            Option::Some(-(val as i64))
        }
    } else {
        Option::Some(val as i64)
    }
}

/// The binary operator an arithmetic/logic instruction denotes.
pub open spec fn binop_of(s: Seq<char>) -> Option<BinOp> {
    if s == "ADD"@ {
        Option::Some(BinOp::Add)
    } else if s == "SUB"@ {
        Option::Some(BinOp::Sub)
    } else if s == "MUL"@ {
        Option::Some(BinOp::Mul)
    } else if s == "DIV"@ {
        Option::Some(BinOp::Div)
    } else if s == "AND"@ || s == "ANDN"@ {
        Option::Some(BinOp::And)
    } else if s == "OR"@ || s == "ORN"@ {
        Option::Some(BinOp::Or)
    } else if s == "EQ"@ {
        Option::Some(BinOp::Eq)
    } else if s == "GE"@ {
        Option::Some(BinOp::Ge)
    } else if s == "GT"@ {
        Option::Some(BinOp::Gt)
    } else if s == "LE"@ {
        Option::Some(BinOp::Le)
    } else if s == "LT"@ {
        Option::Some(BinOp::Lt)
    } else {
        Option::None
    }
}

/// Map an (upper-cased) instruction to its binary operator.
pub fn get_binop(s: &str) -> (r: Option<BinOp>)
    ensures
        r == binop_of(s@),
{
    if str_eq(s, "ADD") {
        Option::Some(BinOp::Add)
    } else if str_eq(s, "SUB") {
        Option::Some(BinOp::Sub)
    } else if str_eq(s, "MUL") {
        Option::Some(BinOp::Mul)
    } else if str_eq(s, "DIV") {
        Option::Some(BinOp::Div)
    } else if str_eq(s, "AND") || str_eq(s, "ANDN") {
        Option::Some(BinOp::And)
    } else if str_eq(s, "OR") || str_eq(s, "ORN") {
        Option::Some(BinOp::Or)
    } else if str_eq(s, "EQ") {
        Option::Some(BinOp::Eq)
    } else if str_eq(s, "GE") {
        Option::Some(BinOp::Ge)
    } else if str_eq(s, "GT") {
        Option::Some(BinOp::Gt)
    } else if str_eq(s, "LE") {
        Option::Some(BinOp::Le)
    } else if str_eq(s, "LT") {
        Option::Some(BinOp::Lt)
    } else {
        Option::None
    }
}

/// Parse an operand into a literal or a variable reference.
pub fn parse_operand(op: &str, line: usize) -> (r: Expression)
    ensures
        expr_view(r) == operand_view(op@, line as int),
        match parse_i64_s(op@) {
            Option::Some(n) => r == Expression::NumberLiteral(n as i64, line),
            Option::None => {
                if up(op@) == "TRUE"@ {
                    r == Expression::BoolLiteral(true, line)
                } else if up(op@) == "FALSE"@ {
                    r == Expression::BoolLiteral(false, line)
                } else {
                    r is VariableRef && r->VariableRef_0@ == op@
                }
            },
        },
{
    match parse_i64(op) {
        Option::Some(n) => Expression::NumberLiteral(n, line),
        Option::None => {
            if str_eq_up(op, "TRUE") {
                Expression::BoolLiteral(true, line)
            } else if str_eq_up(op, "FALSE") {
                Expression::BoolLiteral(false, line)
            } else {
                Expression::VariableRef(String::from_str(op))
            }
        },
    }
}

/// The label a line declares, if its trimmed text ends with a colon: the
/// trimmed text with every trailing colon removed.
pub open spec fn strip_colons(s: Seq<char>) -> Seq<char>
    decreases s,
{
    if s.len() > 0 && s.last() == ':' {
        strip_colons(s.drop_last())
    } else {
        s
    }
}

/// The (label, line-index) records of a line list.
pub open spec fn label_records(lines: Seq<Seq<char>>) -> Seq<(Seq<char>, int)>
    decreases lines,
{
    if lines.len() == 0 {
        Seq::empty()
    } else {
        label_records(lines.drop_last()) + (
        if trim_spec(lines.last()).len() > 0 && trim_spec(lines.last()).last() == ':' {
            seq![(strip_colons(trim_spec(lines.last())), lines.len() - 1)]
        } else {
            Seq::empty()
        })
    }
}

/// The line index a label maps to: the last declaration wins.
pub open spec fn label_lookup(recs: Seq<(Seq<char>, int)>, name: Seq<char>) -> Option<int>
    decreases recs,
{
    if recs.len() == 0 {
        Option::None
    } else if recs.last().0 == name {
        Option::Some(recs.last().1)
    } else {
        label_lookup(recs.drop_last(), name)
    }
}

/// The views of a label table.
pub open spec fn label_views(v: Seq<(String, usize)>) -> Seq<(Seq<char>, int)> {
    v.map_values(|e: (String, usize)| (e.0@, e.1 as int))
}

/// Remove every trailing colon.
#[verifier::loop_isolation(false)]
fn strip_colons_x(s: &str) -> (r: String)
    ensures
        r@ == strip_colons(s@),
{
    let sl = s.unicode_len();
    let mut j: usize = sl;
    assert(s@.take(sl as int) =~= s@);
    while j > 0 && s.get_char(j - 1) == ':'
        invariant
            sl == s@.len(),
            j <= sl,
            strip_colons(s@) == strip_colons(s@.take(j as int)),
        decreases j,
    {
        assert(s@.take(j as int).last() == s@[j - 1]);
        assert(s@.take(j as int).drop_last() =~= s@.take(j - 1));
        j -= 1;
    }
    assert(strip_colons(s@.take(j as int)) == s@.take(j as int)) by {
        if j > 0 {
            assert(s@.take(j as int).last() == s@[j - 1]);
        }
    }
    copy_range(s, 0, j)
}

/// Collect the labels of a line list: trimmed lines ending with a colon.
#[verifier::loop_isolation(false)]
pub fn find_labels(lines: &Vec<String>) -> (r: Vec<(String, usize)>)
    ensures
        label_views(r@) == label_records(line_views(lines@)),
{
    let n = lines.len();
    let mut out: Vec<(String, usize)> = Vec::new();
    let mut i: usize = 0;
    while i < n
        invariant
            n == lines@.len(),
            i <= n,
            label_views(out@) == label_records(line_views(lines@).take(i as int)),
        decreases n - i,
    {
        assert(line_views(lines@).take(i + 1).drop_last() =~= line_views(lines@).take(i as int));
        assert(line_views(lines@).take(i + 1).last() == line_views(lines@)[i as int]);
        assert(line_views(lines@)[i as int] == lines@[i as int]@);
        let t = trim_str(lines[i].as_str());
        let tl = t.as_str().unicode_len();
        if tl > 0 && t.as_str().get_char(tl - 1) == ':' {
            let label = strip_colons_x(t.as_str());
            let ghost pre = out@;
            out.push((label, i));
            assert(label_views(out@) =~= label_views(pre).push(
                (strip_colons(trim_spec(lines@[i as int]@)), i as int),
            ));
        }
        assert(label_views(out@) =~= label_records(line_views(lines@).take((i + 1) as int)));
        i += 1;
    }
    assert(line_views(lines@).take(n as int) =~= line_views(lines@));
    out
}

/// Look a label up; the last declaration wins, as later labels shadow
/// earlier ones.
#[verifier::loop_isolation(false)]
fn lookup_label(labels: &Vec<(String, usize)>, name: &str) -> (r: Option<usize>)
    ensures
        match r {
            Option::Some(v) => label_lookup(label_views(labels@), name@) == Option::Some(v as int),
            Option::None => label_lookup(label_views(labels@), name@) is None,
        },
{
    let n = labels.len();
    let mut j: usize = n;
    assert(label_views(labels@).take(n as int) =~= label_views(labels@));
    while j > 0
        invariant
            n == labels@.len(),
            j <= n,
            label_lookup(label_views(labels@), name@) == label_lookup(
                label_views(labels@).take(j as int),
                name@,
            ),
        decreases j,
    {
        assert(label_views(labels@).take(j as int).last() == label_views(labels@)[j - 1]);
        assert(label_views(labels@).take(j as int).drop_last() =~= label_views(labels@).take(
            j - 1,
        ));
        assert(label_views(labels@)[j - 1] == (labels@[j - 1].0@, labels@[j - 1].1 as int));
        if str_eq(labels[j - 1].0.as_str(), name) {
            return Option::Some(labels[j - 1].1);
        }
        j -= 1;
    }
    Option::None
}

/// The spec-level image of the expressions the translation builds.
pub enum ExprV {
    Num(int, int),
    BoolV(bool, int),
    Var(Seq<char>),
    NotV(Box<ExprV>, int),
    BinV(BinOp, Box<ExprV>, Box<ExprV>, int),
    OtherE,
}

/// The spec-level image of the statements the translation builds.
pub enum StmtV {
    AssignV { target: Seq<char>, value: ExprV, line: int },
    IfV { condition: ExprV, then_branch: Seq<StmtV>, else_branch: Seq<StmtV>, line: int },
    OtherS,
}

/// The image of an expression.
pub open spec fn expr_view(e: Expression) -> ExprV
    decreases e,
{
    match e {
        Expression::NumberLiteral(n, l) => ExprV::Num(n as int, l as int),
        Expression::BoolLiteral(b, l) => ExprV::BoolV(b, l as int),
        Expression::VariableRef(name) => ExprV::Var(name@),
        Expression::UnaryOp { op, expr, line } => match op {
            UnaryOp::Not => ExprV::NotV(Box::new(expr_view(*expr)), line as int),
        },
        Expression::BinaryOp { op, left, right, line } => ExprV::BinV(
            op,
            Box::new(expr_view(*left)),
            Box::new(expr_view(*right)),
            line as int,
        ),
        _ => ExprV::OtherE,
    }
}

/// The image of one statement.
pub open spec fn stmt_view(s: Statement) -> StmtV
    decreases s,
{
    match s {
        Statement::Assign { target, value, line } => StmtV::AssignV {
            target: target.name@,
            value: expr_view(value),
            line: line as int,
        },
        Statement::IfStmt { condition, then_branch, else_branch, line } => StmtV::IfV {
            condition: expr_view(condition),
            then_branch: stmt_views(then_branch@),
            else_branch: stmt_views(else_branch@),
            line: line as int,
        },
        _ => StmtV::OtherS,
    }
}

/// The images of a statement list.
pub open spec fn stmt_views(ss: Seq<Statement>) -> Seq<StmtV>
    decreases ss,
{
    if ss.len() == 0 {
        Seq::empty()
    } else {
        stmt_views(ss.drop_last()).push(stmt_view(ss.last()))
    }
}

/// The image of the optional accumulator expression.
pub open spec fn cur_view(c: Option<Expression>) -> Option<ExprV> {
    match c {
        Option::Some(e) => Option::Some(expr_view(e)),
        Option::None => Option::None,
    }
}

/// The image of an operand: a signed number, a boolean literal, or a
/// variable reference.
pub open spec fn operand_view(op: Seq<char>, line: int) -> ExprV {
    match parse_i64_s(op) {
        Option::Some(n) => ExprV::Num(n, line),
        Option::None => {
            if up(op) == "TRUE"@ {
                ExprV::BoolV(true, line)
            } else if up(op) == "FALSE"@ {
                ExprV::BoolV(false, line)
            } else {
                ExprV::Var(op)
            }
        },
    }
}

/// A trimmed line that only declares a label.
pub open spec fn line_is_label(t: Seq<char>) -> bool {
    t.len() > 0 && t.last() == ':'
}

/// A trimmed line that is a comment.
pub open spec fn line_is_comment(t: Seq<char>) -> bool {
    t.len() >= 2 && t[0] == '/' && t[1] == '/'
}

/// The range position a conditional jump continues at: the label's line
/// if it lies strictly ahead and inside the range, the next line
/// otherwise.
pub open spec fn jump_target(
    labels: Seq<(Seq<char>, int)>,
    name: Seq<char>,
    i: int,
    end: int,
) -> int {
    let target = match label_lookup(labels, name) {
        Option::Some(t) => t,
        Option::None => end,
    };
    if target > i + 1 && target <= end {
        target
    } else {
        i + 1
    }
}

/// The accumulator translation of the line range `[i, end)`: `cur` is the
/// expression loaded so far, `acc` the statements already built.  Blank,
/// comment and label lines are skipped; LD/LDN load an operand, ST stores
/// the accumulator as an assignment, JMPC/JMPNC turn the lines up to the
/// label into a conditional branch, JMP skips ahead, and an arithmetic
/// or logic instruction folds its operand into the accumulator.
pub open spec fn il_parse(
    lines: Seq<Seq<char>>,
    labels: Seq<(Seq<char>, int)>,
    i: int,
    end: int,
    cur: Option<ExprV>,
    acc: Seq<StmtV>,
) -> Seq<StmtV>
    decreases end - i,
{
    if i < 0 || i >= end || i >= lines.len() {
        acc
    } else {
        let t = trim_spec(lines[i]);
        if t.len() == 0 || line_is_comment(t) || line_is_label(t) {
            il_parse(lines, labels, i + 1, end, cur, acc)
        } else {
            let toks = two_tokens(t);
            let instr = up(toks.0);
            let opnd = toks.1;
            let has = opnd.len() > 0;
            let line = i + 1;
            if instr == "LD"@ || instr == "LDN"@ {
                let cur2 = if has {
                    if instr == "LDN"@ {
                        Option::Some(ExprV::NotV(Box::new(operand_view(opnd, line)), line))
                    } else {
                        Option::Some(operand_view(opnd, line))
                    }
                } else {
                    cur
                };
                il_parse(lines, labels, i + 1, end, cur2, acc)
            } else if instr == "ST"@ {
                let acc2 = match cur {
                    Option::Some(v) => {
                        if has {
                            acc.push(StmtV::AssignV { target: opnd, value: v, line: line })
                        } else {
                            acc
                        }
                    },
                    Option::None => acc,
                };
                il_parse(lines, labels, i + 1, end, Option::None, acc2)
            } else if instr == "JMPC"@ || instr == "JMPNC"@ {
                match cur {
                    Option::Some(cond) => {
                        if has {
                            let t2 = jump_target(labels, opnd, i, end);
                            if instr == "JMPC"@ {
                                let acc2 = acc.push(
                                    StmtV::IfV {
                                        condition: cond,
                                        then_branch: il_parse(
                                            lines,
                                            labels,
                                            i + 1,
                                            t2,
                                            Option::None,
                                            Seq::empty(),
                                        ),
                                        else_branch: Seq::empty(),
                                        line: line,
                                    },
                                );
                                il_parse(lines, labels, t2, end, Option::None, acc2)
                            } else {
                                let acc2 = acc.push(
                                    StmtV::IfV {
                                        condition: cond,
                                        then_branch: Seq::empty(),
                                        else_branch: il_parse(
                                            lines,
                                            labels,
                                            i + 1,
                                            t2,
                                            Option::None,
                                            Seq::empty(),
                                        ),
                                        line: line,
                                    },
                                );
                                il_parse(lines, labels, i + 1, end, Option::None, acc2)
                            }
                        } else {
                            il_parse(lines, labels, i + 1, end, Option::None, acc)
                        }
                    },
                    Option::None => il_parse(lines, labels, i + 1, end, Option::None, acc),
                }
            } else if instr == "JMP"@ {
                if has {
                    match label_lookup(labels, opnd) {
                        Option::Some(t2) => {
                            if t2 > i && t2 <= end {
                                il_parse(lines, labels, t2, end, cur, acc)
                            } else {
                                il_parse(lines, labels, i + 1, end, cur, acc)
                            }
                        },
                        Option::None => il_parse(lines, labels, i + 1, end, cur, acc),
                    }
                } else {
                    il_parse(lines, labels, i + 1, end, cur, acc)
                }
            } else {
                let cur2 = match cur {
                    Option::Some(left) => {
                        if has {
                            match binop_of(instr) {
                                Option::Some(op) => Option::Some(
                                    ExprV::BinV(
                                        op,
                                        Box::new(left),
                                        Box::new(operand_view(opnd, line)),
                                        line,
                                    ),
                                ),
                                Option::None => Option::Some(left),
                            }
                        } else {
                            Option::Some(left)
                        }
                    },
                    Option::None => Option::None,
                };
                il_parse(lines, labels, i + 1, end, cur2, acc)
            }
        }
    }
}

/// Parse the statements of the line range `[start, end)`.  The front end
/// is total: it always yields a statement list.  Jumps are followed
/// forwards only and nested ranges shrink strictly, which bounds the
/// recursion on any input.
#[verifier::loop_isolation(false)]
pub fn parse_statements_from_il(
    lines: &Vec<String>,
    labels: &Vec<(String, usize)>,
    start: usize,
    end: usize,
) -> (r: Vec<Statement>)
    requires
        end <= lines@.len(),
    ensures
        stmt_views(r@) == il_parse(
            line_views(lines@),
            label_views(labels@),
            start as int,
            end as int,
            Option::None,
            Seq::empty(),
        ),
    decreases end - start,
{
    let ghost lv = line_views(lines@);
    let ghost labv = label_views(labels@);
    let mut stmts: Vec<Statement> = Vec::new();
    let mut current: Option<Expression> = Option::None;
    let mut i = start;
    assert(stmt_views(stmts@) =~= Seq::<StmtV>::empty());
    while i < end
        invariant
            end <= lines@.len(),
            i >= start,
            il_parse(lv, labv, start as int, end as int, Option::None, Seq::empty()) == il_parse(
                lv,
                labv,
                i as int,
                end as int,
                cur_view(current),
                stmt_views(stmts@),
            ),
        decreases end - i,
    {
        let line_no = i + 1;
        assert(lv[i as int] == lines@[i as int]@);
        let trimmed = trim_str(lines[i].as_str());
        let tl = trimmed.as_str().unicode_len();
        let is_comment = {
            let t2 = trimmed.as_str();
            tl >= 2 && t2.get_char(0) == '/' && t2.get_char(1) == '/'
        };
        let is_label = tl > 0 && trimmed.as_str().get_char(tl - 1) == ':';
        if tl == 0 || is_comment || is_label {
            proof {
                assert(il_parse(lv, labv, i as int, end as int, cur_view(current), stmt_views(
                    stmts@,
                )) == il_parse(lv, labv, i + 1, end as int, cur_view(current), stmt_views(stmts@)));
            }
            i += 1;
            continue ;
        }
        let toks = split_two_tokens(trimmed.as_str());
        let instruction = crate::text::to_upper(toks.0.as_str());
        let operand = toks.1;
        let has_operand = operand.as_str().unicode_len() > 0;
        let ghost spec_toks = two_tokens(trim_spec(lv[i as int]));
        assert(instruction@ == up(spec_toks.0));
        assert(operand@ == spec_toks.1);
        if str_eq(instruction.as_str(), "LD") || str_eq(instruction.as_str(), "LDN") {
            let ghost pre_cur = cur_view(current);
            if has_operand {
                let e = parse_operand(operand.as_str(), line_no);
                current = if str_eq(instruction.as_str(), "LDN") {
                    Option::Some(
                        Expression::UnaryOp { op: UnaryOp::Not, expr: Box::new(e), line: line_no },
                    )
                } else {
                    Option::Some(e)
                };
            }
            proof {
                assert(il_parse(lv, labv, i as int, end as int, pre_cur, stmt_views(stmts@))
                    == il_parse(lv, labv, i + 1, end as int, cur_view(current), stmt_views(
                    stmts@,
                )));
            }
            i += 1;
        } else if str_eq(instruction.as_str(), "ST") {
            let ghost pre_cur = cur_view(current);
            let ghost pre_stmts = stmt_views(stmts@);
            let taken = take_current(&mut current);
            match taken {
                Option::Some(value) => {
                    if has_operand {
                        let st = Statement::Assign {
                            target: Variable { name: operand },
                            value: value,
                            line: line_no,
                        };
                        let ghost pre_vec = stmts@;
                        stmts.push(st);
                        assert(stmts@.drop_last() =~= pre_vec);
                        assert(stmts@.last() == st);
                        assert(stmt_views(stmts@) =~= pre_stmts.push(stmt_view(st)));
                    }
                },
                Option::None => {},
            }
            proof {
                assert(il_parse(lv, labv, i as int, end as int, pre_cur, pre_stmts) == il_parse(
                    lv,
                    labv,
                    i + 1,
                    end as int,
                    Option::None,
                    stmt_views(stmts@),
                ));
            }
            i += 1;
        } else if str_eq(instruction.as_str(), "JMPC") || str_eq(instruction.as_str(), "JMPNC") {
            let ghost pre_cur = cur_view(current);
            let ghost pre_stmts = stmt_views(stmts@);
            let taken = take_current(&mut current);
            match taken {
                Option::Some(condition) => {
                    if has_operand {
                        let target = match lookup_label(labels, operand.as_str()) {
                            Option::Some(t) => t,
                            Option::None => end,
                        };
                        // follow the jump forwards only, and never past the range
                        let t = if target > i + 1 && target <= end {
                            target
                        } else {
                            i + 1
                        };
                        assert(t as int == jump_target(labv, operand@, i as int, end as int));
                        if str_eq(instruction.as_str(), "JMPC") {
                            let then_branch = parse_statements_from_il(lines, labels, i + 1, t);
                            let st = Statement::IfStmt {
                                condition,
                                then_branch,
                                else_branch: Vec::new(),
                                line: line_no,
                            };
                            proof {
                                assert(stmt_views(st->IfStmt_else_branch@)
                                    =~= Seq::<StmtV>::empty());
                            }
                            let ghost pre_vec = stmts@;
                            stmts.push(st);
                            assert(stmts@.drop_last() =~= pre_vec);
                            assert(stmts@.last() == st);
                            assert(stmt_views(stmts@) =~= pre_stmts.push(stmt_view(st)));
                            proof {
                                assert(il_parse(lv, labv, i as int, end as int, pre_cur, pre_stmts)
                                    == il_parse(lv, labv, t as int, end as int, Option::None,
                                stmt_views(stmts@)));
                            }
                            i = t;
                        } else {
                            let else_branch = parse_statements_from_il(lines, labels, i + 1, t);
                            let st = Statement::IfStmt {
                                condition,
                                then_branch: Vec::new(),
                                else_branch,
                                line: line_no,
                            };
                            proof {
                                assert(stmt_views(st->IfStmt_then_branch@)
                                    =~= Seq::<StmtV>::empty());
                            }
                            let ghost pre_vec = stmts@;
                            stmts.push(st);
                            assert(stmts@.drop_last() =~= pre_vec);
                            assert(stmts@.last() == st);
                            assert(stmt_views(stmts@) =~= pre_stmts.push(stmt_view(st)));
                            proof {
                                assert(il_parse(lv, labv, i as int, end as int, pre_cur, pre_stmts)
                                    == il_parse(lv, labv, i + 1, end as int, Option::None,
                                stmt_views(stmts@)));
                            }
                            i += 1;
                        }
                    } else {
                        proof {
                            assert(il_parse(lv, labv, i as int, end as int, pre_cur, pre_stmts)
                                == il_parse(lv, labv, i + 1, end as int, Option::None, pre_stmts));
                        }
                        i += 1;
                    }
                },
                Option::None => {
                    proof {
                        assert(il_parse(lv, labv, i as int, end as int, pre_cur, pre_stmts)
                            == il_parse(lv, labv, i + 1, end as int, Option::None, pre_stmts));
                    }
                    i += 1;
                },
            }
        } else if str_eq(instruction.as_str(), "JMP") {
            // an unconditional jump is followed forwards only
            let ghost pre_cur = cur_view(current);
            let ghost pre_stmts = stmt_views(stmts@);
            let mut next = i + 1;
            if has_operand {
                match lookup_label(labels, operand.as_str()) {
                    Option::Some(t) => {
                        if t > i && t <= end {
                            next = t;
                        }
                    },
                    Option::None => {},
                }
            }
            proof {
                assert(il_parse(lv, labv, i as int, end as int, pre_cur, pre_stmts) == il_parse(
                    lv,
                    labv,
                    next as int,
                    end as int,
                    pre_cur,
                    pre_stmts,
                ));
            }
            i = next;
        } else {
            let ghost pre_cur = cur_view(current);
            let taken = take_current(&mut current);
            match taken {
                Option::Some(left) => {
                    if has_operand {
                        match get_binop(instruction.as_str()) {
                            Option::Some(op) => {
                                let right = parse_operand(operand.as_str(), line_no);
                                current = Option::Some(
                                    Expression::BinaryOp {
                                        op,
                                        left: Box::new(left),
                                        right: Box::new(right),
                                        line: line_no,
                                    },
                                );
                            },
                            Option::None => {
                                current = Option::Some(left);
                            },
                        }
                    } else {
                        current = Option::Some(left);
                    }
                },
                Option::None => {},
            }
            proof {
                assert(il_parse(lv, labv, i as int, end as int, pre_cur, stmt_views(stmts@))
                    == il_parse(lv, labv, i + 1, end as int, cur_view(current), stmt_views(
                    stmts@,
                )));
            }
            i += 1;
        }
    }
    stmts
}

/// Take the accumulator value, leaving none behind.
fn take_current(cur: &mut Option<Expression>) -> (r: Option<Expression>)
    ensures
        r == *old(cur),
        (*final(cur)) is None,
{
    let mut t: Option<Expression> = Option::None;
    core::mem::swap(cur, &mut t);
    t
}

/// Parse an instruction-list source into a program.  The front end is
/// total: every input yields a program holding exactly one PROGRAM
/// routine named for the dialect at line 1, whose body is the
/// accumulator translation of the source's lines.
pub fn parse_il_from_str(src: &str) -> (r: Result<Program, String>)
    ensures
        r is Ok,
        r->Ok_0.functions@.len() == 1,
        r->Ok_0.functions@[0].name@ == "IL_Program"@,
        r->Ok_0.functions@[0].kind == FunctionKind::Program,
        r->Ok_0.functions@[0].line == 1,
        stmt_views(r->Ok_0.functions@[0].statements@) == il_parse(
            lines_of(src@),
            label_records(lines_of(src@)),
            0,
            lines_of(src@).len() as int,
            Option::None,
            Seq::empty(),
        ),
{
    let lines = split_lines(src);
    let labels = find_labels(&lines);
    let n = lines.len();
    let statements = parse_statements_from_il(&lines, &labels, 0, n);
    let main_func = Function {
        name: String::from_str("IL_Program"),
        kind: FunctionKind::Program,
        statements,
        line: 1,
    };
    let mut functions: Vec<Function> = Vec::new();
    functions.push(main_func);
    Result::Ok(Program { functions })
}

} // verus!
