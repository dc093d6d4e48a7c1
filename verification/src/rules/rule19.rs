//! Monitor PLC memory usage: a read of the memory state (SFC24/TEST_DB)
//! must be followed by a threshold comparison and an emission into an
//! HMI/DB/LOG tag; a program with no read at all is flagged once.

use vstd::prelude::*;
use vstd::string::StringExecFns;
use crate::ast::{Expression, Function, Program, Statement};
use crate::rules::report::{outcome_for, vio_views, OutcomeV, RuleOutcome, VioV, Violation};
use crate::rules::rule2::{first_line, first_line_x};
use crate::rules::utils::{expr_text, expr_text_spec};
use crate::text::{contains_seq, str_contains_up, up};

verus! {

/// Prefer the later of two optional line numbers.
pub open spec fn later(a: Option<int>, b: Option<int>) -> Option<int> {
    if b is Some {
        b
    } else {
        a
    }
}

/// The line of the last memory-read call below one statement.
pub open spec fn read_stmt(s: Statement) -> Option<int>
    decreases s,
{
    match s {
        Statement::Call { name, line, .. } => {
            if contains_seq(up(name@), "SFC24"@) || contains_seq(up(name@), "TEST_DB"@) {
                Option::Some(line as int)
            } else {
                Option::None
            }
        },
        Statement::IfStmt { then_branch, else_branch, .. } => later(
            read_stmts(then_branch@),
            read_stmts(else_branch@),
        ),
        Statement::CaseStmt { cases, else_branch, .. } => later(
            read_arms(cases@),
            read_stmts(else_branch@),
        ),
        _ => Option::None,
    }
}

/// The last memory-read line of the arms of a CASE statement.
pub open spec fn read_arms(arms: Seq<(Vec<Expression>, Vec<Statement>)>) -> Option<int>
    decreases arms,
{
    if arms.len() == 0 {
        Option::None
    } else {
        later(read_arms(arms.drop_last()), read_stmts(arms.last().1@))
    }
}

/// The last memory-read line of a statement list.
pub open spec fn read_stmts(ss: Seq<Statement>) -> Option<int>
    decreases ss,
{
    if ss.len() == 0 {
        Option::None
    } else {
        later(read_stmts(ss.drop_last()), read_stmt(ss.last()))
    }
}

/// A conditional that compares a memory-related value to a threshold.
pub open spec fn compare_stmt(s: Statement) -> bool
    decreases s,
{
    match s {
        Statement::IfStmt { condition, then_branch, else_branch, .. } => {
            let c = up(expr_text_spec(condition));
            ||| ((contains_seq(c, ">"@) || contains_seq(c, "<"@) || contains_seq(c, ">="@)
                || contains_seq(c, "<="@)) && (contains_seq(c, "SFC24"@) || contains_seq(
                c,
                "TEST_DB"@,
            ) || contains_seq(c, "MEM"@) || contains_seq(c, "%MW"@) || contains_seq(c, "%DB"@)))
            ||| compare_stmts(then_branch@)
            ||| compare_stmts(else_branch@)
        },
        Statement::CaseStmt { cases, else_branch, .. } => compare_arms(cases@) || compare_stmts(
            else_branch@,
        ),
        _ => false,
    }
}

/// A threshold comparison in any arm of a CASE statement.
pub open spec fn compare_arms(arms: Seq<(Vec<Expression>, Vec<Statement>)>) -> bool
    decreases arms,
{
    if arms.len() == 0 {
        false
    } else {
        compare_arms(arms.drop_last()) || compare_stmts(arms.last().1@)
    }
}

/// A threshold comparison anywhere in a statement list.
pub open spec fn compare_stmts(ss: Seq<Statement>) -> bool
    decreases ss,
{
    if ss.len() == 0 {
        false
    } else {
        compare_stmts(ss.drop_last()) || compare_stmt(ss.last())
    }
}

/// An assignment that emits a memory-related value into HMI/DB/LOG.
pub open spec fn mememit_stmt(s: Statement) -> bool
    decreases s,
{
    match s {
        Statement::Assign { target, value, .. } => {
            let t = up(target.name@);
            let v = up(expr_text_spec(value));
            (contains_seq(t, "HMI"@) || contains_seq(t, "DB"@) || contains_seq(t, "LOG"@)) && (
            contains_seq(v, "SFC24"@) || contains_seq(v, "TEST_DB"@) || contains_seq(v, "MEM"@))
        },
        Statement::IfStmt { then_branch, else_branch, .. } => mememit_stmts(then_branch@)
            || mememit_stmts(else_branch@),
        Statement::CaseStmt { cases, else_branch, .. } => mememit_arms(cases@) || mememit_stmts(
            else_branch@,
        ),
        _ => false,
    }
}

/// Emission in any arm of a CASE statement.
pub open spec fn mememit_arms(arms: Seq<(Vec<Expression>, Vec<Statement>)>) -> bool
    decreases arms,
{
    if arms.len() == 0 {
        false
    } else {
        mememit_arms(arms.drop_last()) || mememit_stmts(arms.last().1@)
    }
}

/// Emission anywhere in a statement list.
pub open spec fn mememit_stmts(ss: Seq<Statement>) -> bool
    decreases ss,
{
    if ss.len() == 0 {
        false
    } else {
        mememit_stmts(ss.drop_last()) || mememit_stmt(ss.last())
    }
}

/// The violations of one routine: a read not followed by both a comparison
/// and an emission.
pub open spec fn r19_fn_vios(f: Function) -> Seq<VioV> {
    match read_stmts(f.statements@) {
        Option::None => Seq::empty(),
        Option::Some(l) => {
            if compare_stmts(f.statements@) && mememit_stmts(f.statements@) {
                Seq::empty()
            } else {
                seq![
                    VioV {
                        rule_no: 19,
                        rule_name: "Monitor PLC memory usage"@,
                        line: l,
                        reason: "Memory usage read but not compared and/or emitted"@,
                        suggestion: "Compare memory usage to thresholds and log/assign to HMI/DB."@,
                    },
                ]
            }
        },
    }
}

/// Does any routine read the memory state?
pub open spec fn any_read(fs: Seq<Function>) -> bool
    decreases fs,
{
    if fs.len() == 0 {
        false
    } else {
        any_read(fs.drop_last()) || read_stmts(fs.last().statements@) is Some
    }
}

/// The per-routine violations of a program.
pub open spec fn r19_vios(fs: Seq<Function>) -> Seq<VioV>
    decreases fs,
{
    if fs.len() == 0 {
        Seq::empty()
    } else {
        r19_vios(fs.drop_last()) + r19_fn_vios(fs.last())
    }
}

/// The rule outcome on a program.
pub open spec fn r19_outcome(p: Program) -> OutcomeV {
    outcome_for(
        19,
        "Monitor PLC memory usage"@,
        r19_vios(p.functions@) + (if any_read(p.functions@) {
            Seq::empty()
        } else {
            seq![
                VioV {
                    rule_no: 19,
                    rule_name: "Monitor PLC memory usage"@,
                    line: first_line(p.functions@),
                    reason: "No evidence of memory monitoring found."@,
                    suggestion: "Implement memory monitoring (e.g., using SFC24/TEST_DB) to prevent overflows."@,
                },
            ]
        }),
    )
}

/// Scan a statement list for the last read line, a comparison, and an
/// emission.
#[verifier::loop_isolation(false)]
pub fn scan(ss: &Vec<Statement>) -> (r: (Option<usize>, bool, bool))
    ensures
        ({
            match r.0 {
                Option::Some(l) => read_stmts(ss@) == Option::Some(l as int),
                Option::None => read_stmts(ss@) is None,
            }
        }),
        r.1 == compare_stmts(ss@),
        r.2 == mememit_stmts(ss@),
    decreases ss@,
{
    let n = ss.len();
    let mut read: Option<usize> = Option::None;
    let mut cmp = false;
    let mut emit = false;
    let mut i: usize = 0;
    while i < n
        invariant
            n == ss@.len(),
            i <= n,
            match read {
                Option::Some(l) => read_stmts(ss@.take(i as int)) == Option::Some(l as int),
                Option::None => read_stmts(ss@.take(i as int)) is None,
            },
            cmp == compare_stmts(ss@.take(i as int)),
            emit == mememit_stmts(ss@.take(i as int)),
        decreases n - i,
    {
        assert(ss@.take(i + 1).drop_last() =~= ss@.take(i as int));
        assert(ss@.take(i + 1).last() == ss@[i as int]);
        let step: (Option<usize>, bool, bool) = match &ss[i] {
            Statement::Call { name, line, .. } => {
                if str_contains_up(name.as_str(), "SFC24") || str_contains_up(
                    name.as_str(),
                    "TEST_DB",
                ) {
                    (Option::Some(*line), false, false)
                } else {
                    (Option::None, false, false)
                }
            },
            Statement::Assign { target, value, .. } => {
                let vt = expr_text(value);
                let sink = str_contains_up(target.name.as_str(), "HMI") || str_contains_up(
                    target.name.as_str(),
                    "DB",
                ) || str_contains_up(target.name.as_str(), "LOG");
                let mem = str_contains_up(vt.as_str(), "SFC24") || str_contains_up(
                    vt.as_str(),
                    "TEST_DB",
                ) || str_contains_up(vt.as_str(), "MEM");
                (Option::None, false, sink && mem)
            },
            Statement::IfStmt { condition, then_branch, else_branch, .. } => {
                let c = expr_text(condition);
                let has_cmp_op = str_contains_up(c.as_str(), ">") || str_contains_up(
                    c.as_str(),
                    "<",
                ) || str_contains_up(c.as_str(), ">=") || str_contains_up(c.as_str(), "<=");
                let has_mem = str_contains_up(c.as_str(), "SFC24") || str_contains_up(
                    c.as_str(),
                    "TEST_DB",
                ) || str_contains_up(c.as_str(), "MEM") || str_contains_up(c.as_str(), "%MW")
                    || str_contains_up(c.as_str(), "%DB");
                proof {
                    assert(decreases_to!(ss@ => ss@[i as int]));
                    assert(decreases_to!(ss@[i as int] => ss@[i as int]->IfStmt_then_branch));
                    assert(ss@[i as int]->IfStmt_then_branch == *then_branch);
                    assert(decreases_to!(*then_branch => then_branch@));
                    assert(decreases_to!(ss@[i as int] => ss@[i as int]->IfStmt_else_branch));
                    assert(ss@[i as int]->IfStmt_else_branch == *else_branch);
                    assert(decreases_to!(*else_branch => else_branch@));
                }
                let a = scan(then_branch);
                let b = scan(else_branch);
                let rl = match b.0 {
                    Option::Some(l) => Option::Some(l),
                    Option::None => a.0,
                };
                ((rl), (has_cmp_op && has_mem) || a.1 || b.1, a.2 || b.2)
            },
            Statement::CaseStmt { cases, else_branch, .. } => {
                let cn = cases.len();
                let mut ar: Option<usize> = Option::None;
                let mut ac = false;
                let mut ae = false;
                let mut j: usize = 0;
                while j < cn
                    invariant
                        cn == cases@.len(),
                        j <= cn,
                        match ar {
                            Option::Some(l) => read_arms(cases@.take(j as int)) == Option::Some(
                                l as int,
                            ),
                            Option::None => read_arms(cases@.take(j as int)) is None,
                        },
                        ac == compare_arms(cases@.take(j as int)),
                        ae == mememit_arms(cases@.take(j as int)),
                    decreases cn - j,
                {
                    assert(cases@.take(j + 1).drop_last() =~= cases@.take(j as int));
                    assert(cases@.take(j + 1).last() == cases@[j as int]);
                    proof {
                        assert(decreases_to!(ss@ => ss@[i as int]));
                        assert(decreases_to!(ss@[i as int] => ss@[i as int]->CaseStmt_cases));
                        assert(ss@[i as int]->CaseStmt_cases == *cases);
                        assert(decreases_to!(*cases => cases@));
                        assert(decreases_to!(cases@ => cases@[j as int]));
                        assert(decreases_to!(cases@[j as int] => cases@[j as int].1));
                        assert(decreases_to!(cases@[j as int].1 => cases@[j as int].1@));
                    }
                    let c = scan(&cases[j].1);
                    ar = match c.0 {
                        Option::Some(l) => Option::Some(l),
                        Option::None => ar,
                    };
                    ac = ac || c.1;
                    ae = ae || c.2;
                    j += 1;
                }
                assert(cases@.take(cn as int) =~= cases@);
                proof {
                    assert(decreases_to!(ss@ => ss@[i as int]));
                    assert(decreases_to!(ss@[i as int] => ss@[i as int]->CaseStmt_else_branch));
                    assert(ss@[i as int]->CaseStmt_else_branch == *else_branch);
                    assert(decreases_to!(*else_branch => else_branch@));
                }
                let b = scan(else_branch);
                let rl = match b.0 {
                    Option::Some(l) => Option::Some(l),
                    Option::None => ar,
                };
                (rl, ac || b.1, ae || b.2)
            },
            _ => (Option::None, false, false),
        };
        proof {
            match step.0 {
                Option::Some(l) => {
                    assert(read_stmt(ss@[i as int]) == Option::Some(l as int));
                },
                Option::None => {
                    assert(read_stmt(ss@[i as int]) is None);
                },
            }
            assert(step.1 == compare_stmt(ss@[i as int]));
            assert(step.2 == mememit_stmt(ss@[i as int]));
        }
        read = match step.0 {
            Option::Some(l) => Option::Some(l),
            Option::None => read,
        };
        cmp = cmp || step.1;
        emit = emit || step.2;
        i += 1;
    }
    assert(ss@.take(n as int) =~= ss@);
    (read, cmp, emit)
}

/// Monitor PLC memory usage.
#[verifier::loop_isolation(false)]
pub fn check(program: &Program) -> (r: RuleOutcome)
    ensures
        r@ == r19_outcome(*program),
{
    let n = program.functions.len();
    let mut vios: Vec<Violation> = Vec::new();
    let mut found_any = false;
    let mut i: usize = 0;
    while i < n
        invariant
            n == program.functions@.len(),
            i <= n,
            found_any == any_read(program.functions@.take(i as int)),
            vio_views(vios@) == r19_vios(program.functions@.take(i as int)),
        decreases n - i,
    {
        assert(program.functions@.take(i + 1).drop_last() =~= program.functions@.take(i as int));
        assert(program.functions@.take(i + 1).last() == program.functions@[i as int]);
        let f = &program.functions[i];
        let s = scan(&f.statements);
        match s.0 {
            Option::Some(l) => {
                found_any = true;
                if !(s.1 && s.2) {
                    let ghost prev = vios@;
                    let v = Violation {
                        rule_no: 19,
                        rule_name: String::from_str("Monitor PLC memory usage"),
                        line: l,
                        reason: String::from_str("Memory usage read but not compared and/or emitted"),
                        suggestion: String::from_str(
                            "Compare memory usage to thresholds and log/assign to HMI/DB.",
                        ),
                    };
                    vios.push(v);
                    assert(vio_views(vios@) =~= vio_views(prev).push(v@));
                }
            },
            Option::None => {},
        }
        assert(found_any == any_read(program.functions@.take((i + 1) as int)));
        assert(vio_views(vios@) =~= r19_vios(program.functions@.take((i + 1) as int)));
        i += 1;
    }
    assert(program.functions@.take(n as int) =~= program.functions@);
    if !found_any {
        let line = first_line_x(program);
        let ghost prev = vios@;
        let v = Violation {
            rule_no: 19,
            rule_name: String::from_str("Monitor PLC memory usage"),
            line: line,
            reason: String::from_str("No evidence of memory monitoring found."),
            suggestion: String::from_str(
                "Implement memory monitoring (e.g., using SFC24/TEST_DB) to prevent overflows.",
            ),
        };
        vios.push(v);
        assert(vio_views(vios@) =~= vio_views(prev).push(v@));
    }
    assert(vio_views(vios@) =~= r19_vios(program.functions@) + (if any_read(program.functions@) {
        Seq::<VioV>::empty()
    } else {
        seq![
            VioV {
                rule_no: 19,
                rule_name: "Monitor PLC memory usage"@,
                line: first_line(program.functions@),
                reason: "No evidence of memory monitoring found."@,
                suggestion: "Implement memory monitoring (e.g., using SFC24/TEST_DB) to prevent overflows."@,
            },
        ]
    }));
    RuleOutcome::from_violations(19, String::from_str("Monitor PLC memory usage"), vios)
}

} // verus!
