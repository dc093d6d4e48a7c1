//! Summarize PLC cycle times: the cyclic routine (OB1) must capture the
//! previous cycle time and emit it to an HMI/DB/LOG tag.  A program
//! without an OB1 is reported clean for portability.

use vstd::prelude::*;
use vstd::string::StringExecFns;
use crate::ast::{Expression, Function, FunctionKind, Program, Statement};
use crate::rules::report::{outcome_for, vio_views, OutcomeV, RuleOutcome, VioV, Violation};
use crate::rules::rule15::{find_first_kind, find_kind};
use crate::rules::utils::{expr_text, expr_text_spec};
use crate::text::{contains_seq, str_contains_up, up};

verus! {

/// An assignment that reads the previous cycle time.
pub open spec fn capture_stmt(s: Statement) -> bool
    decreases s,
{
    match s {
        Statement::Assign { value, .. } => contains_seq(
            up(expr_text_spec(value)),
            "OB1_PREV_CYCLE"@,
        ),
        Statement::IfStmt { then_branch, else_branch, .. } => capture_stmts(then_branch@)
            || capture_stmts(else_branch@),
        Statement::CaseStmt { cases, else_branch, .. } => capture_arms(cases@) || capture_stmts(
            else_branch@,
        ),
        _ => false,
    }
}

/// Capture in any arm of a CASE statement.
pub open spec fn capture_arms(arms: Seq<(Vec<Expression>, Vec<Statement>)>) -> bool
    decreases arms,
{
    if arms.len() == 0 {
        false
    } else {
        capture_arms(arms.drop_last()) || capture_stmts(arms.last().1@)
    }
}

/// Capture anywhere in a statement list.
pub open spec fn capture_stmts(ss: Seq<Statement>) -> bool
    decreases ss,
{
    if ss.len() == 0 {
        false
    } else {
        capture_stmts(ss.drop_last()) || capture_stmt(ss.last())
    }
}

/// An assignment that emits the previous cycle time into an HMI/DB/LOG tag.
pub open spec fn emit_stmt(s: Statement) -> bool
    decreases s,
{
    match s {
        Statement::Assign { target, value, .. } => (contains_seq(up(target.name@), "HMI"@)
            || contains_seq(up(target.name@), "DB"@) || contains_seq(up(target.name@), "LOG"@))
            && contains_seq(up(expr_text_spec(value)), "OB1_PREV_CYCLE"@),
        Statement::IfStmt { then_branch, else_branch, .. } => emit_stmts(then_branch@)
            || emit_stmts(else_branch@),
        Statement::CaseStmt { cases, else_branch, .. } => emit_arms(cases@) || emit_stmts(
            else_branch@,
        ),
        _ => false,
    }
}

/// Emission in any arm of a CASE statement.
pub open spec fn emit_arms(arms: Seq<(Vec<Expression>, Vec<Statement>)>) -> bool
    decreases arms,
{
    if arms.len() == 0 {
        false
    } else {
        emit_arms(arms.drop_last()) || emit_stmts(arms.last().1@)
    }
}

/// Emission anywhere in a statement list.
pub open spec fn emit_stmts(ss: Seq<Statement>) -> bool
    decreases ss,
{
    if ss.len() == 0 {
        false
    } else {
        emit_stmts(ss.drop_last()) || emit_stmt(ss.last())
    }
}

/// The rule outcome on a program.
pub open spec fn r16_outcome(p: Program) -> OutcomeV {
    outcome_for(
        16,
        "Summarize PLC cycle times"@,
        match find_kind(p.functions@, FunctionKind::OB1) {
            Option::None => Seq::empty(),
            Option::Some(i) => {
                if capture_stmts(p.functions@[i].statements@) && emit_stmts(
                    p.functions@[i].statements@,
                ) {
                    Seq::empty()
                } else {
                    seq![
                        VioV {
                            rule_no: 16,
                            rule_name: "Summarize PLC cycle times"@,
                            line: p.functions@[i].line as int,
                            reason: "Cycle-time summary incomplete (capture+emit not both present)"@,
                            suggestion: "In OB1, move OB1_PREV_CYCLE into an HMI/DB/LOG tag (e.g., HMI_CycleTime := OB1_PREV_CYCLE)."@,
                        },
                    ]
                }
            },
        },
    )
}

/// Scan a statement list for capture and emission of the cycle time.
#[verifier::loop_isolation(false)]
pub fn scan(ss: &Vec<Statement>) -> (r: (bool, bool))
    ensures
        r.0 == capture_stmts(ss@),
        r.1 == emit_stmts(ss@),
    decreases ss@,
{
    let n = ss.len();
    let mut cap = false;
    let mut emit = false;
    let mut i: usize = 0;
    while i < n
        invariant
            n == ss@.len(),
            i <= n,
            cap == capture_stmts(ss@.take(i as int)),
            emit == emit_stmts(ss@.take(i as int)),
        decreases n - i,
    {
        assert(ss@.take(i + 1).drop_last() =~= ss@.take(i as int));
        assert(ss@.take(i + 1).last() == ss@[i as int]);
        let step: (bool, bool) = match &ss[i] {
            Statement::Assign { target, value, .. } => {
                let vt = expr_text(value);
                let has_prev = str_contains_up(vt.as_str(), "OB1_PREV_CYCLE");
                let sink = str_contains_up(target.name.as_str(), "HMI") || str_contains_up(
                    target.name.as_str(),
                    "DB",
                ) || str_contains_up(target.name.as_str(), "LOG");
                (has_prev, sink && has_prev)
            },
            Statement::IfStmt { then_branch, else_branch, .. } => {
                proof {
                    assert(decreases_to!(ss@ => ss@[i as int]));
                    assert(decreases_to!(ss@[i as int] => ss@[i as int]->IfStmt_then_branch));
                    assert(ss@[i as int]->IfStmt_then_branch == *then_branch);
                    assert(decreases_to!(*then_branch => then_branch@));
                    assert(decreases_to!(ss@[i as int] => ss@[i as int]->IfStmt_else_branch));
                    assert(ss@[i as int]->IfStmt_else_branch == *else_branch);
                    assert(decreases_to!(*else_branch => else_branch@));
                }
                let a = scan(then_branch);
                let b = scan(else_branch);
                (a.0 || b.0, a.1 || b.1)
            },
            Statement::CaseStmt { cases, else_branch, .. } => {
                let cn = cases.len();
                let mut acap = false;
                let mut aemit = false;
                let mut j: usize = 0;
                while j < cn
                    invariant
                        cn == cases@.len(),
                        j <= cn,
                        acap == capture_arms(cases@.take(j as int)),
                        aemit == emit_arms(cases@.take(j as int)),
                    decreases cn - j,
                {
                    assert(cases@.take(j + 1).drop_last() =~= cases@.take(j as int));
                    assert(cases@.take(j + 1).last() == cases@[j as int]);
                    proof {
                        assert(decreases_to!(ss@ => ss@[i as int]));
                        assert(decreases_to!(ss@[i as int] => ss@[i as int]->CaseStmt_cases));
                        assert(ss@[i as int]->CaseStmt_cases == *cases);
                        assert(decreases_to!(*cases => cases@));
                        assert(decreases_to!(cases@ => cases@[j as int]));
                        assert(decreases_to!(cases@[j as int] => cases@[j as int].1));
                        assert(decreases_to!(cases@[j as int].1 => cases@[j as int].1@));
                    }
                    let c = scan(&cases[j].1);
                    acap = acap || c.0;
                    aemit = aemit || c.1;
                    j += 1;
                }
                assert(cases@.take(cn as int) =~= cases@);
                proof {
                    assert(decreases_to!(ss@ => ss@[i as int]));
                    assert(decreases_to!(ss@[i as int] => ss@[i as int]->CaseStmt_else_branch));
                    assert(ss@[i as int]->CaseStmt_else_branch == *else_branch);
                    assert(decreases_to!(*else_branch => else_branch@));
                }
                let b = scan(else_branch);
                (acap || b.0, aemit || b.1)
            },
            _ => (false, false),
        };
        assert(step.0 == capture_stmt(ss@[i as int]));
        assert(step.1 == emit_stmt(ss@[i as int]));
        cap = cap || step.0;
        emit = emit || step.1;
        i += 1;
    }
    assert(ss@.take(n as int) =~= ss@);
    (cap, emit)
}

/// Summarize PLC cycle times.
pub fn check(program: &Program) -> (r: RuleOutcome)
    ensures
        r@ == r16_outcome(*program),
{
    match find_first_kind(program, FunctionKind::OB1) {
        Option::None => RuleOutcome::clean(16, String::from_str("Summarize PLC cycle times")),
        Option::Some(i) => {
            let f = &program.functions[i];
            let r = scan(&f.statements);
            if r.0 && r.1 {
                RuleOutcome::clean(16, String::from_str("Summarize PLC cycle times"))
            } else {
                let mut vios: Vec<Violation> = Vec::new();
                let v = Violation {
                    rule_no: 16,
                    rule_name: String::from_str("Summarize PLC cycle times"),
                    line: f.line,
                    reason: String::from_str(
                        "Cycle-time summary incomplete (capture+emit not both present)",
                    ),
                    suggestion: String::from_str(
                        "In OB1, move OB1_PREV_CYCLE into an HMI/DB/LOG tag (e.g., HMI_CycleTime := OB1_PREV_CYCLE).",
                    ),
                };
                vios.push(v);
                assert(vio_views(vios@) =~= r16_outcome(*program).status->Violations_0);
                RuleOutcome::from_violations(
                    16,
                    String::from_str("Summarize PLC cycle times"),
                    vios,
                )
            }
        },
    }
}

} // verus!
