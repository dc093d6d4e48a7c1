//! Assign designated register blocks: writes to policy-declared read-only
//! memory regions are flagged.  Assignment targets written as direct
//! addresses (area letters after a `%`, then a numeric offset) are parsed
//! and checked against each read-only range of the policy.

use vstd::prelude::*;
use vstd::string::StringExecFns;
use crate::ast::{Function, Program, Statement};
use crate::rules::policy::{MemoryArea, Policy};
use crate::rules::report::{outcome_for, vio_views, OutcomeV, RuleOutcome, VioV, Violation};
use crate::text::{
    int_rep, push_char, push_i64_dec, starts_with_seq, str_starts_with, to_upper, up,
};

verus! {

/// An ASCII decimal digit.
pub open spec fn is_digit(c: char) -> bool {
    '0' <= c && c <= '9'
}

/// An ASCII letter.
pub open spec fn is_alpha(c: char) -> bool {
    ('a' <= c && c <= 'z') || ('A' <= c && c <= 'Z')
}

/// The value of a digit string, most significant digit first.
pub open spec fn digits_val(d: Seq<char>) -> int
    decreases d,
{
    if d.len() == 0 {
        0
    } else {
        10 * digits_val(d.drop_last()) + (d.last() as int - 48)
    }
}

/// The area-letter and digit accumulators after scanning an address from
/// position `i`: letters before the first digit form the area, digits the
/// offset, and a dot after a digit ends the scan.
pub open spec fn scan_addr(
    s: Seq<char>,
    i: int,
    area: Seq<char>,
    num: Seq<char>,
    seen: bool,
) -> (Seq<char>, Seq<char>)
    decreases s.len() - i,
{
    if i < 0 || i >= s.len() {
        (area, num)
    } else {
        let c = s[i];
        if is_alpha(c) && !seen {
            scan_addr(s, i + 1, area.push(c), num, seen)
        } else if is_digit(c) {
            scan_addr(s, i + 1, area, num.push(c), true)
        } else if c == '.' && seen {
            (area, num)
        } else {
            scan_addr(s, i + 1, area, num, seen)
        }
    }
}

/// Parse an assignment target written as a direct address (`%MW100`,
/// `%DB1.DBX10.0`, ...): the `%`-prefixed area letters and the numeric
/// offset, or nothing if the shape or the offset's size does not fit.
pub open spec fn parse_mem(s: Seq<char>) -> Option<(Seq<char>, int)> {
    if s.len() < 3 || s[0] != '%' {
        Option::None
    } else {
        let r = scan_addr(s, 1, Seq::empty(), Seq::empty(), false);
        if r.0.len() > 0 && r.1.len() > 0 && digits_val(r.1) <= i64::MAX as int {
            Option::Some((seq!['%'] + r.0, digits_val(r.1)))
        } else {
            Option::None
        }
    }
}

/// The number of dashes in a string.
pub open spec fn dash_count(s: Seq<char>) -> nat
    decreases s,
{
    if s.len() == 0 {
        0
    } else {
        dash_count(s.drop_last()) + (if s.last() == '-' {
            1nat
        } else {
            0nat
        })
    }
}

/// The position of the first dash.
pub open spec fn dash_pos(s: Seq<char>) -> int
    decreases s,
{
    if s.len() == 0 {
        0
    } else if s.first() == '-' {
        0
    } else {
        1 + dash_pos(s.drop_first())
    }
}

/// The digit characters of a string, in order.
pub open spec fn digits_of(s: Seq<char>) -> Seq<char>
    decreases s,
{
    if s.len() == 0 {
        Seq::empty()
    } else {
        digits_of(s.drop_last()) + (if is_digit(s.last()) {
            seq![s.last()]
        } else {
            Seq::empty()
        })
    }
}

/// The numeric bounds of an address range written `<digits>-<digits>`
/// (non-digits around each part ignored); nothing unless exactly one dash
/// splits the string and both sides carry digits that fit.
pub open spec fn range_bounds_s(addr: Seq<char>) -> Option<(int, int)> {
    if dash_count(addr) == 1 {
        let k = dash_pos(addr);
        let a = digits_of(addr.take(k));
        let b = digits_of(addr.skip(k + 1));
        if a.len() > 0 && b.len() > 0 && digits_val(a) <= i64::MAX as int && digits_val(b)
            <= i64::MAX as int {
            Option::Some((digits_val(a), digits_val(b)))
        } else {
            Option::None
        }
    } else {
        Option::None
    }
}

/// Does the policy area apply to a write at the given parsed area/offset:
/// its address starts (case-insensitively) with the area letters and its
/// range contains the offset.
pub open spec fn applies_s(ma: MemoryArea, area: Seq<char>, addr: int) -> bool {
    &&& starts_with_seq(up(ma.address@), up(area))
    &&& match range_bounds_s(ma.address@) {
        Option::Some(b) => b.0 <= addr && addr <= b.1,
        Option::None => false,
    }
}

/// Is the area marked read-only?
pub open spec fn is_readonly(ma: MemoryArea) -> bool {
    up(ma.access@) == "READONLY"@
}

/// The read-only-write violation.
pub open spec fn r10_vio(area: Seq<char>, addr: int, line: int) -> VioV {
    VioV {
        rule_no: 10,
        rule_name: "Assign designated register blocks"@,
        line: line,
        reason: "Write to read-only region "@ + area + int_rep(addr),
        suggestion: "Move this write to an allowed area or update policy.json"@,
    }
}

/// The violations one parsed write triggers, one per matching read-only
/// area, in policy order.
pub open spec fn areas_vios(
    areas: Seq<MemoryArea>,
    area: Seq<char>,
    addr: int,
    line: int,
) -> Seq<VioV>
    decreases areas,
{
    if areas.len() == 0 {
        Seq::empty()
    } else {
        areas_vios(areas.drop_last(), area, addr, line) + (
        if is_readonly(areas.last()) && applies_s(areas.last(), area, addr) {
            seq![r10_vio(area, addr, line)]
        } else {
            Seq::empty()
        })
    }
}

/// The violations of one top-level statement.
pub open spec fn r10_stmt_vios(areas: Seq<MemoryArea>, s: Statement) -> Seq<VioV> {
    if s is Assign {
        match parse_mem(s->Assign_target.name@) {
            Option::Some(p) => areas_vios(areas, p.0, p.1, s->Assign_line as int),
            Option::None => Seq::empty(),
        }
    } else {
        Seq::empty()
    }
}

/// The violations of the top-level statements of a routine.
pub open spec fn r10_stmts_vios(areas: Seq<MemoryArea>, ss: Seq<Statement>) -> Seq<VioV>
    decreases ss,
{
    if ss.len() == 0 {
        Seq::empty()
    } else {
        r10_stmts_vios(areas, ss.drop_last()) + r10_stmt_vios(areas, ss.last())
    }
}

/// The violations of a program.
pub open spec fn r10_vios(areas: Seq<MemoryArea>, fs: Seq<Function>) -> Seq<VioV>
    decreases fs,
{
    if fs.len() == 0 {
        Seq::empty()
    } else {
        r10_vios(areas, fs.drop_last()) + r10_stmts_vios(areas, fs.last().statements@)
    }
}

/// The declared areas of a policy; none means no constraint.
pub open spec fn policy_areas(pol: Policy) -> Seq<MemoryArea> {
    match pol.memory_areas {
        Option::Some(v) => v@,
        Option::None => Seq::empty(),
    }
}

/// The rule outcome on a program and policy.
pub open spec fn r10_outcome(p: Program, pol: Policy) -> OutcomeV {
    outcome_for(10, "Assign designated register blocks"@, r10_vios(policy_areas(pol), p.functions@))
}

/// The first dash determines the split point.
proof fn lemma_dash_pos(s: Seq<char>, p: int)
    requires
        0 <= p < s.len(),
        s[p] == '-',
        forall|k: int| 0 <= k < p ==> s[k] != '-',
    ensures
        dash_pos(s) == p,
    decreases p,
{
    if p == 0 {
    } else {
        assert(s.first() != '-');
        assert(s.drop_first()[p - 1] == s[p]);
        assert(forall|k: int| 0 <= k < p - 1 ==> s.drop_first()[k] == s[k + 1]);
        lemma_dash_pos(s.drop_first(), p - 1);
    }
}

/// Parse a direct memory address into its area prefix and offset.
#[verifier::loop_isolation(false)]
pub fn parse_mem_address(s: &str) -> (r: Option<(String, i64)>)
    ensures
        match r {
            Option::Some(p) => parse_mem(s@) == Option::Some((p.0@, p.1 as int)),
            Option::None => parse_mem(s@) is None,
        },
{
    let sl = s.unicode_len();
    if sl < 3 {
        return Option::None;
    }
    if s.get_char(0) != '%' {
        return Option::None;
    }
    let mut area0 = String::new();
    let ghost mut numg: Seq<char> = Seq::empty();
    let mut val: u64 = 0;
    let mut seen = false;
    let mut big = false;
    let mut stop = false;
    let mut i: usize = 1;
    while i < sl && !stop
        invariant
            sl == s@.len(),
            3 <= sl,
            1 <= i <= sl,
            seen == (numg.len() > 0),
            if stop {
                scan_addr(s@, 1, Seq::empty(), Seq::empty(), false) == (area0@, numg)
            } else {
                scan_addr(s@, 1, Seq::empty(), Seq::empty(), false) == scan_addr(
                    s@,
                    i as int,
                    area0@,
                    numg,
                    seen,
                )
            },
            if big {
                digits_val(numg) > i64::MAX as int
            } else {
                val as int == digits_val(numg) && val <= i64::MAX as u64
            },
        decreases sl - i + (if stop {
            0int
        } else {
            1int
        }),
    {
        let c = s.get_char(i);
        let alpha = ('a' <= c && c <= 'z') || ('A' <= c && c <= 'Z');
        let digit = '0' <= c && c <= '9';
        proof {
            assert(c == s@[i as int]);
            assert(alpha == is_alpha(c));
            assert(digit == is_digit(c));
        }
        if alpha && !seen {
            let ghost pre = area0@;
            proof {
                assert(scan_addr(s@, i as int, area0@, numg, seen) == scan_addr(
                    s@,
                    i + 1,
                    area0@.push(c),
                    numg,
                    seen,
                ));
            }
            push_char(&mut area0, c);
            assert(area0@ =~= pre.push(c));
            i += 1;
        } else if digit {
            proof {
                assert(scan_addr(s@, i as int, area0@, numg, seen) == scan_addr(
                    s@,
                    i + 1,
                    area0@,
                    numg.push(c),
                    true,
                ));
            }
            let d: u64 = ((c as u32) - 48) as u64;
            proof {
                assert(numg.push(c).drop_last() =~= numg);
            }
            if big {
                proof {
                    assert(digits_val(numg.push(c)) > i64::MAX as int);
                }
            } else {
                let m10 = val.checked_mul(10);
                match m10 {
                    Option::Some(m) => {
                        let a = m.checked_add(d);
                        match a {
                            Option::Some(v) => {
                                if v <= 9223372036854775807u64 {
                                    val = v;
                                } else {
                                    big = true;
                                }
                            },
                            Option::None => {
                                big = true;
                            },
                        }
                    },
                    Option::None => {
                        big = true;
                    },
                }
            }
            proof {
                numg = numg.push(c);
            }
            seen = true;
            i += 1;
        } else if c == '.' && seen {
            proof {
                assert(scan_addr(s@, i as int, area0@, numg, seen) == (area0@, numg));
            }
            stop = true;
        } else {
            proof {
                assert(scan_addr(s@, i as int, area0@, numg, seen) == scan_addr(
                    s@,
                    i + 1,
                    area0@,
                    numg,
                    seen,
                ));
            }
            i += 1;
        }
    }
    if !stop {
        assert(scan_addr(s@, sl as int, area0@, numg, seen) == (area0@, numg));
    }
    assert(scan_addr(s@, 1, Seq::empty(), Seq::empty(), false) == (area0@, numg));
    if area0.unicode_len() == 0 || !seen || big {
        return Option::None;
    }
    let mut full = String::from_str("%");
    full.append(area0.as_str());
    proof {
        reveal_strlit("%");
    }
    assert(full@ =~= seq!['%'] + area0@);
    Option::Some((full, val as i64))
}

impl MemoryArea {
    /// The numeric bounds of this area's address range.
    #[verifier::loop_isolation(false)]
    pub fn range_bounds(&self) -> (r: Option<(i64, i64)>)
        ensures
            match r {
                Option::Some(b) => range_bounds_s(self.address@) == Option::Some(
                    (b.0 as int, b.1 as int),
                ),
                Option::None => range_bounds_s(self.address@) is None,
            },
    {
        let a = self.address.as_str();
        let al = a.unicode_len();
        let mut dashes: usize = 0;
        let mut dpos: usize = 0;
        let mut i: usize = 0;
        while i < al
            invariant
                al == a@.len(),
                i <= al,
                dashes <= i,
                dashes as nat == dash_count(a@.take(i as int)),
                dashes > 0 ==> dpos < i && a@[dpos as int] == '-' && (forall|k: int|
                    0 <= k < dpos ==> a@[k] != '-'),
                dashes == 0 ==> forall|k: int| 0 <= k < i ==> a@[k] != '-',
            decreases al - i,
        {
            assert(a@.take(i + 1).drop_last() =~= a@.take(i as int));
            assert(a@.take(i + 1).last() == a@[i as int]);
            let c = a.get_char(i);
            if c == '-' {
                if dashes == 0 {
                    dpos = i;
                }
                dashes += 1;
            }
            i += 1;
        }
        assert(a@.take(al as int) =~= a@);
        if dashes != 1 {
            return Option::None;
        }
        proof {
            lemma_dash_pos(a@, dpos as int);
        }
        let lo = scan_digits(a, 0, dpos);
        assert(a@.subrange(0, dpos as int) =~= a@.take(dpos as int));
        let hi = scan_digits(a, dpos + 1, al);
        assert(a@.subrange(dpos + 1, al as int) =~= a@.skip(dpos + 1));
        match (lo, hi) {
            (Option::Some(x), Option::Some(y)) => Option::Some((x, y)),
            _ => Option::None,
        }
    }

    /// Does this area apply to a write at the given parsed area and offset?
    pub fn applies(&self, area: &str, addr: i64) -> (r: bool)
        ensures
            r == applies_s(*self, area@, addr as int),
    {
        let au = to_upper(self.address.as_str());
        let pu = to_upper(area);
        if !str_starts_with(au.as_str(), pu.as_str()) {
            return false;
        }
        match self.range_bounds() {
            Option::Some(b) => b.0 <= addr && addr <= b.1,
            Option::None => false,
        }
    }
}

/// The digit value of the digits inside `s[from..to]`, or nothing if there
/// are none or the value does not fit.
#[verifier::loop_isolation(false)]
fn scan_digits(s: &str, from: usize, to: usize) -> (r: Option<i64>)
    requires
        from <= to <= s@.len(),
    ensures
        ({
            let d = digits_of(s@.subrange(from as int, to as int));
            match r {
                Option::Some(v) => d.len() > 0 && digits_val(d) <= i64::MAX as int && v as int
                    == digits_val(d),
                Option::None => d.len() == 0 || digits_val(d) > i64::MAX as int,
            }
        }),
{
    let ghost mut dg: Seq<char> = Seq::empty();
    let mut val: u64 = 0;
    let mut any = false;
    let mut big = false;
    let mut j: usize = from;
    while j < to
        invariant
            from <= j <= to <= s@.len(),
            dg == digits_of(s@.subrange(from as int, j as int)),
            any == (dg.len() > 0),
            if big {
                digits_val(dg) > i64::MAX as int
            } else {
                val as int == digits_val(dg) && val <= i64::MAX as u64
            },
        decreases to - j,
    {
        assert(s@.subrange(from as int, j + 1).drop_last() =~= s@.subrange(from as int, j as int));
        assert(s@.subrange(from as int, j + 1).last() == s@[j as int]);
        let c = s.get_char(j);
        if '0' <= c && c <= '9' {
            let d: u64 = ((c as u32) - 48) as u64;
            proof {
                assert(dg.push(c).drop_last() =~= dg);
            }
            if big {
                proof {
                    assert(digits_val(dg.push(c)) > i64::MAX as int);
                }
            } else {
                let m10 = val.checked_mul(10);
                match m10 {
                    Option::Some(m) => {
                        let a = m.checked_add(d);
                        match a {
                            Option::Some(v) => {
                                if v <= 9223372036854775807u64 {
                                    val = v;
                                } else {
                                    big = true;
                                }
                            },
                            Option::None => {
                                big = true;
                            },
                        }
                    },
                    Option::None => {
                        big = true;
                    },
                }
            }
            proof {
                dg = dg.push(c);
            }
            any = true;
        }
        j += 1;
    }
    if !any || big {
        Option::None
    } else {
        Option::Some(val as i64)
    }
}

/// Assign designated register blocks.
#[verifier::loop_isolation(false)]
pub fn check(program: &Program, policy: &Policy) -> (r: RuleOutcome)
    ensures
        r@ == r10_outcome(*program, *policy),
{
    let empty_areas: Vec<MemoryArea> = Vec::new();
    let areas: &Vec<MemoryArea> = match &policy.memory_areas {
        Option::Some(v) => v,
        Option::None => &empty_areas,
    };
    assert(areas@ == policy_areas(*policy));
    let n = program.functions.len();
    let mut vios: Vec<Violation> = Vec::new();
    let mut i: usize = 0;
    while i < n
        invariant
            n == program.functions@.len(),
            i <= n,
            areas@ == policy_areas(*policy),
            vio_views(vios@) == r10_vios(areas@, program.functions@.take(i as int)),
        decreases n - i,
    {
        assert(program.functions@.take(i + 1).drop_last() =~= program.functions@.take(i as int));
        assert(program.functions@.take(i + 1).last() == program.functions@[i as int]);
        let f = &program.functions[i];
        let m = f.statements.len();
        let mut j: usize = 0;
        while j < m
            invariant
                n == program.functions@.len(),
                i < n,
                m == f.statements@.len(),
                f == &program.functions@[i as int],
                j <= m,
                areas@ == policy_areas(*policy),
                vio_views(vios@) == r10_vios(areas@, program.functions@.take(i as int))
                    + r10_stmts_vios(areas@, f.statements@.take(j as int)),
            decreases m - j,
        {
            assert(f.statements@.take(j + 1).drop_last() =~= f.statements@.take(j as int));
            assert(f.statements@.take(j + 1).last() == f.statements@[j as int]);
            match &f.statements[j] {
                Statement::Assign { target, line, .. } => {
                    assert(f.statements@[j as int]->Assign_target == *target);
                    assert(f.statements@[j as int]->Assign_line == *line);
                    match parse_mem_address(target.name.as_str()) {
                        Option::Some(parsed) => {
                            let an = areas.len();
                            let mut k: usize = 0;
                            while k < an
                                invariant
                                    an == areas@.len(),
                                    k <= an,
                                    vio_views(vios@) == r10_vios(
                                        areas@,
                                        program.functions@.take(i as int),
                                    ) + r10_stmts_vios(areas@, f.statements@.take(j as int))
                                        + areas_vios(
                                        areas@.take(k as int),
                                        parsed.0@,
                                        parsed.1 as int,
                                        *line as int,
                                    ),
                                decreases an - k,
                            {
                                assert(areas@.take(k + 1).drop_last() =~= areas@.take(k as int));
                                assert(areas@.take(k + 1).last() == areas@[k as int]);
                                let ro = crate::text::str_eq_up(
                                    areas[k].access.as_str(),
                                    "READONLY",
                                );
                                let ap = areas[k].applies(parsed.0.as_str(), parsed.1);
                                if ro && ap {
                                    let mut reason = String::from_str("Write to read-only region ");
                                    reason.append(parsed.0.as_str());
                                    push_i64_dec(&mut reason, parsed.1);
                                    let ghost prev = vios@;
                                    let v = Violation {
                                        rule_no: 10,
                                        rule_name: String::from_str(
                                            "Assign designated register blocks",
                                        ),
                                        line: *line,
                                        reason: reason,
                                        suggestion: String::from_str(
                                            "Move this write to an allowed area or update policy.json",
                                        ),
                                    };
                                    vios.push(v);
                                    assert(vio_views(vios@) =~= vio_views(prev).push(v@));
                                }
                                assert(vio_views(vios@) =~= r10_vios(
                                    areas@,
                                    program.functions@.take(i as int),
                                ) + r10_stmts_vios(areas@, f.statements@.take(j as int))
                                    + areas_vios(
                                    areas@.take((k + 1) as int),
                                    parsed.0@,
                                    parsed.1 as int,
                                    *line as int,
                                ));
                                k += 1;
                            }
                            assert(areas@.take(an as int) =~= areas@);
                            assert(vio_views(vios@) =~= r10_vios(
                                areas@,
                                program.functions@.take(i as int),
                            ) + r10_stmts_vios(areas@, f.statements@.take((j + 1) as int)));
                        },
                        Option::None => {
                            assert(vio_views(vios@) =~= r10_vios(
                                areas@,
                                program.functions@.take(i as int),
                            ) + r10_stmts_vios(areas@, f.statements@.take((j + 1) as int)));
                        },
                    }
                },
                _ => {
                    assert(vio_views(vios@) =~= r10_vios(
                        areas@,
                        program.functions@.take(i as int),
                    ) + r10_stmts_vios(areas@, f.statements@.take((j + 1) as int)));
                },
            }
            j += 1;
        }
        assert(f.statements@.take(m as int) =~= f.statements@);
        assert(vio_views(vios@) =~= r10_vios(areas@, program.functions@.take((i + 1) as int)));
        i += 1;
    }
    assert(program.functions@.take(n as int) =~= program.functions@);
    RuleOutcome::from_violations(10, String::from_str("Assign designated register blocks"), vios)
}

} // verus!
