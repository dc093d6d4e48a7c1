//! Log PLC uptime: either the runtime is read through SFC6/RD_SINFO and
//! reported to an HMI/DB tag, or a monotonic uptime counter is kept and
//! reported.  Only top-level statements of each routine are inspected.

use vstd::prelude::*;
use vstd::string::StringExecFns;
use crate::ast::{Function, Program, Statement};
use crate::rules::report::{outcome_for, vio_views, OutcomeV, RuleOutcome, VioV, Violation};
use crate::rules::rule2::{first_line, first_line_x};
use crate::rules::rule19::later;
use crate::rules::utils::{expr_text, expr_text_spec};
use crate::text::{contains_seq, str_contains_up, up};

verus! {

/// The line of the last top-level SFC6/RD_SINFO call in a statement list.
pub open spec fn sfc6_stmts(ss: Seq<Statement>) -> Option<int>
    decreases ss,
{
    if ss.len() == 0 {
        Option::None
    } else {
        later(
            sfc6_stmts(ss.drop_last()),
            if ss.last() is Call && (contains_seq(up(ss.last()->Call_name@), "SFC6"@)
                || contains_seq(up(ss.last()->Call_name@), "RD_SINFO"@)) {
                Option::Some(ss.last()->Call_line as int)
            } else {
                Option::None
            },
        )
    }
}

/// The line of the last top-level SFC6/RD_SINFO call over all routines.
pub open spec fn sfc6_line(fs: Seq<Function>) -> Option<int>
    decreases fs,
{
    if fs.len() == 0 {
        Option::None
    } else {
        later(sfc6_line(fs.drop_last()), sfc6_stmts(fs.last().statements@))
    }
}

/// A top-level assignment that keeps a monotonic uptime counter.
pub open spec fn monotonic_stmt(s: Statement) -> bool {
    s is Assign && contains_seq(up(s->Assign_target.name@), "UPTIME"@) && contains_seq(
        up(expr_text_spec(s->Assign_value)),
        "UPTIME"@,
    ) && contains_seq(up(expr_text_spec(s->Assign_value)), "+"@)
}

/// A top-level assignment that reports the uptime to HMI/DB/LOG.
pub open spec fn reported_stmt(s: Statement) -> bool {
    &&& s is Assign
    &&& (contains_seq(up(s->Assign_target.name@), "HMI"@) || contains_seq(
        up(s->Assign_target.name@),
        "DB"@,
    ) || contains_seq(up(s->Assign_target.name@), "LOG"@))
    &&& (contains_seq(up(expr_text_spec(s->Assign_value)), "UPTIME"@) || contains_seq(
        up(expr_text_spec(s->Assign_value)),
        "SFC6"@,
    ) || contains_seq(up(expr_text_spec(s->Assign_value)), "RD_SINFO"@) || contains_seq(
        up(expr_text_spec(s->Assign_value)),
        "RUNTIME"@,
    ))
}

/// A monotonic counter at the top level of a statement list.
pub open spec fn mono_stmts(ss: Seq<Statement>) -> bool
    decreases ss,
{
    if ss.len() == 0 {
        false
    } else {
        mono_stmts(ss.drop_last()) || monotonic_stmt(ss.last())
    }
}

/// An uptime report at the top level of a statement list.
pub open spec fn rep_stmts(ss: Seq<Statement>) -> bool
    decreases ss,
{
    if ss.len() == 0 {
        false
    } else {
        rep_stmts(ss.drop_last()) || reported_stmt(ss.last())
    }
}

/// A monotonic counter somewhere at the top level of some routine.
pub open spec fn any_monotonic(fs: Seq<Function>) -> bool
    decreases fs,
{
    if fs.len() == 0 {
        false
    } else {
        any_monotonic(fs.drop_last()) || mono_stmts(fs.last().statements@)
    }
}

/// An uptime report somewhere at the top level of some routine.
pub open spec fn any_reported(fs: Seq<Function>) -> bool
    decreases fs,
{
    if fs.len() == 0 {
        false
    } else {
        any_reported(fs.drop_last()) || rep_stmts(fs.last().statements@)
    }
}

/// The rule outcome on a program.
pub open spec fn r17_outcome(p: Program) -> OutcomeV {
    outcome_for(
        17,
        "Log PLC uptime"@,
        match sfc6_line(p.functions@) {
            Option::Some(l) => {
                if any_reported(p.functions@) {
                    Seq::empty()
                } else {
                    seq![
                        VioV {
                            rule_no: 17,
                            rule_name: "Log PLC uptime"@,
                            line: l,
                            reason: "SFC6/RD_SINFO used but uptime not reported"@,
                            suggestion: "Assign SFC6/RD_SINFO runtime to an HMI/DB tag for monitoring."@,
                        },
                    ]
                }
            },
            Option::None => {
                if any_monotonic(p.functions@) && any_reported(p.functions@) {
                    Seq::empty()
                } else {
                    seq![
                        VioV {
                            rule_no: 17,
                            rule_name: "Log PLC uptime"@,
                            line: first_line(p.functions@),
                            reason: "No monotonic uptime logging detected"@,
                            suggestion: "Add an uptime counter (monotonic) and periodically store/log it to HMI/DB."@,
                        },
                    ]
                }
            },
        },
    )
}

/// Log PLC uptime.
#[verifier::loop_isolation(false)]
pub fn check(program: &Program) -> (r: RuleOutcome)
    ensures
        r@ == r17_outcome(*program),
{
    let n = program.functions.len();
    let mut sfc6: Option<usize> = Option::None;
    let mut monotonic = false;
    let mut reported = false;
    let mut k: usize = 0;
    while k < n
        invariant
            n == program.functions@.len(),
            k <= n,
            match sfc6 {
                Option::Some(l) => sfc6_line(program.functions@.take(k as int)) == Option::Some(
                    l as int,
                ),
                Option::None => sfc6_line(program.functions@.take(k as int)) is None,
            },
            monotonic == any_monotonic(program.functions@.take(k as int)),
            reported == any_reported(program.functions@.take(k as int)),
        decreases n - k,
    {
        assert(program.functions@.take(k + 1).drop_last() =~= program.functions@.take(k as int));
        assert(program.functions@.take(k + 1).last() == program.functions@[k as int]);
        let f = &program.functions[k];
        let m = f.statements.len();
        let mut fl: Option<usize> = Option::None;
        let mut fmono = false;
        let mut frep = false;
        let mut i: usize = 0;
        while i < m
            invariant
                n == program.functions@.len(),
                k < n,
                m == f.statements@.len(),
                f == &program.functions@[k as int],
                i <= m,
                match fl {
                    Option::Some(l) => sfc6_stmts(f.statements@.take(i as int)) == Option::Some(
                        l as int,
                    ),
                    Option::None => sfc6_stmts(f.statements@.take(i as int)) is None,
                },
                fmono == mono_stmts(f.statements@.take(i as int)),
                frep == rep_stmts(f.statements@.take(i as int)),
            decreases m - i,
        {
            assert(f.statements@.take(i + 1).drop_last() =~= f.statements@.take(i as int));
            assert(f.statements@.take(i + 1).last() == f.statements@[i as int]);
            let ghost cs = f.statements@[i as int];
            match &f.statements[i] {
                Statement::Call { name, line, .. } => {
                    if str_contains_up(name.as_str(), "SFC6") || str_contains_up(
                        name.as_str(),
                        "RD_SINFO",
                    ) {
                        fl = Option::Some(*line);
                    }
                    assert(!monotonic_stmt(cs) && !reported_stmt(cs));
                },
                Statement::Assign { target, value, .. } => {
                    let vt = expr_text(value);
                    let t_up = target.name.as_str();
                    let fm = str_contains_up(t_up, "UPTIME") && str_contains_up(
                        vt.as_str(),
                        "UPTIME",
                    ) && str_contains_up(vt.as_str(), "+");
                    let sink = str_contains_up(t_up, "HMI") || str_contains_up(t_up, "DB")
                        || str_contains_up(t_up, "LOG");
                    let vmatch = str_contains_up(vt.as_str(), "UPTIME") || str_contains_up(
                        vt.as_str(),
                        "SFC6",
                    ) || str_contains_up(vt.as_str(), "RD_SINFO") || str_contains_up(
                        vt.as_str(),
                        "RUNTIME",
                    );
                    assert(fm == monotonic_stmt(cs));
                    assert((sink && vmatch) == reported_stmt(cs));
                    fmono = fmono || fm;
                    frep = frep || (sink && vmatch);
                    assert(sfc6_stmts(f.statements@.take((i + 1) as int)) == sfc6_stmts(
                        f.statements@.take(i as int),
                    ));
                },
                _ => {
                    assert(!monotonic_stmt(cs) && !reported_stmt(cs));
                },
            }
            i += 1;
        }
        assert(f.statements@.take(m as int) =~= f.statements@);
        sfc6 = match fl {
            Option::Some(l) => Option::Some(l),
            Option::None => sfc6,
        };
        monotonic = monotonic || fmono;
        reported = reported || frep;
        k += 1;
    }
    assert(program.functions@.take(n as int) =~= program.functions@);
    let mut vios: Vec<Violation> = Vec::new();
    match sfc6 {
        Option::Some(l) => {
            if reported {
                return RuleOutcome::clean(17, String::from_str("Log PLC uptime"));
            }
            let v = Violation {
                rule_no: 17,
                rule_name: String::from_str("Log PLC uptime"),
                line: l,
                reason: String::from_str("SFC6/RD_SINFO used but uptime not reported"),
                suggestion: String::from_str(
                    "Assign SFC6/RD_SINFO runtime to an HMI/DB tag for monitoring.",
                ),
            };
            vios.push(v);
            assert(vio_views(vios@) =~= r17_outcome(*program).status->Violations_0);
        },
        Option::None => {
            if monotonic && reported {
                return RuleOutcome::clean(17, String::from_str("Log PLC uptime"));
            }
            let line = first_line_x(program);
            let v = Violation {
                rule_no: 17,
                rule_name: String::from_str("Log PLC uptime"),
                line: line,
                reason: String::from_str("No monotonic uptime logging detected"),
                suggestion: String::from_str(
                    "Add an uptime counter (monotonic) and periodically store/log it to HMI/DB.",
                ),
            };
            vios.push(v);
            assert(vio_views(vios@) =~= r17_outcome(*program).status->Violations_0);
        },
    }
    RuleOutcome::from_violations(17, String::from_str("Log PLC uptime"), vios)
}

} // verus!
