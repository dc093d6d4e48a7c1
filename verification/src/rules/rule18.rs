//! Log PLC hard stops: the rack-failure, programming-error and
//! diagnostic-interrupt routines (OB86, OB121, OB82) must exist, be
//! non-empty, and contain at least one diagnostic/alarm action.

use vstd::prelude::*;
use vstd::string::StringExecFns;
use crate::ast::{Expression, Function, FunctionKind, Program, Statement};
use crate::rules::report::{outcome_for, vio_views, OutcomeV, RuleOutcome, VioV, Violation};
use crate::rules::rule15::{find_first_kind, find_kind};
use crate::rules::utils::{expr_text, expr_text_spec};
use crate::text::{contains_seq, str_contains_up, up};

verus! {

/// Does one statement perform a diagnostic/alarm action?
pub open spec fn diag_stmt(s: Statement) -> bool
    decreases s,
{
    match s {
        Statement::Assign { target, value, .. } => {
            ||| contains_seq(up(target.name@), "ALARM"@)
            ||| contains_seq(up(target.name@), "DIAG"@)
            ||| contains_seq(up(target.name@), "FAULT"@)
            ||| contains_seq(up(expr_text_spec(value)), "LOG"@)
        },
        Statement::Call { name, .. } => {
            ||| contains_seq(up(name@), "ALARM"@)
            ||| contains_seq(up(name@), "DIAG"@)
            ||| contains_seq(up(name@), "LOG"@)
        },
        Statement::IfStmt { then_branch, else_branch, .. } => diag_stmts(then_branch@)
            || diag_stmts(else_branch@),
        Statement::CaseStmt { cases, else_branch, .. } => diag_arms(cases@) || diag_stmts(
            else_branch@,
        ),
        _ => false,
    }
}

/// Does any arm of a CASE statement perform a diagnostic action?
pub open spec fn diag_arms(arms: Seq<(Vec<Expression>, Vec<Statement>)>) -> bool
    decreases arms,
{
    if arms.len() == 0 {
        false
    } else {
        diag_arms(arms.drop_last()) || diag_stmts(arms.last().1@)
    }
}

/// Does any statement of the list perform a diagnostic action?
pub open spec fn diag_stmts(ss: Seq<Statement>) -> bool
    decreases ss,
{
    if ss.len() == 0 {
        false
    } else {
        diag_stmts(ss.drop_last()) || diag_stmt(ss.last())
    }
}

/// Look for a diagnostic/alarm action anywhere in the statement list.
#[verifier::loop_isolation(false)]
pub fn has_diag_action(ss: &Vec<Statement>) -> (r: bool)
    ensures
        r == diag_stmts(ss@),
    decreases ss@,
{
    let n = ss.len();
    let mut found = false;
    let mut i: usize = 0;
    while i < n
        invariant
            n == ss@.len(),
            i <= n,
            found == diag_stmts(ss@.take(i as int)),
        decreases n - i,
    {
        assert(ss@.take(i + 1).drop_last() =~= ss@.take(i as int));
        assert(ss@.take(i + 1).last() == ss@[i as int]);
        let d = match &ss[i] {
            Statement::Assign { target, value, .. } => {
                let vt = expr_text(value);
                str_contains_up(target.name.as_str(), "ALARM") || str_contains_up(
                    target.name.as_str(),
                    "DIAG",
                ) || str_contains_up(target.name.as_str(), "FAULT") || str_contains_up(
                    vt.as_str(),
                    "LOG",
                )
            },
            Statement::Call { name, .. } => {
                str_contains_up(name.as_str(), "ALARM") || str_contains_up(name.as_str(), "DIAG")
                    || str_contains_up(name.as_str(), "LOG")
            },
            Statement::IfStmt { then_branch, else_branch, .. } => {
                proof {
                    assert(decreases_to!(ss@ => ss@[i as int]));
                    assert(decreases_to!(ss@[i as int] => ss@[i as int]->IfStmt_then_branch));
                    assert(ss@[i as int]->IfStmt_then_branch == *then_branch);
                    assert(decreases_to!(*then_branch => then_branch@));
                    assert(decreases_to!(ss@[i as int] => ss@[i as int]->IfStmt_else_branch));
                    assert(ss@[i as int]->IfStmt_else_branch == *else_branch);
                    assert(decreases_to!(*else_branch => else_branch@));
                }
                let a = has_diag_action(then_branch);
                let b = has_diag_action(else_branch);
                a || b
            },
            Statement::CaseStmt { cases, else_branch, .. } => {
                let cn = cases.len();
                let mut af = false;
                let mut j: usize = 0;
                while j < cn
                    invariant
                        cn == cases@.len(),
                        j <= cn,
                        af == diag_arms(cases@.take(j as int)),
                    decreases cn - j,
                {
                    assert(cases@.take(j + 1).drop_last() =~= cases@.take(j as int));
                    assert(cases@.take(j + 1).last() == cases@[j as int]);
                    proof {
                        assert(decreases_to!(ss@ => ss@[i as int]));
                        assert(decreases_to!(ss@[i as int] => ss@[i as int]->CaseStmt_cases));
                        assert(ss@[i as int]->CaseStmt_cases == *cases);
                        assert(decreases_to!(*cases => cases@));
                        assert(decreases_to!(cases@ => cases@[j as int]));
                        assert(decreases_to!(cases@[j as int] => cases@[j as int].1));
                        assert(decreases_to!(cases@[j as int].1 => cases@[j as int].1@));
                    }
                    let c = has_diag_action(&cases[j].1);
                    af = af || c;
                    j += 1;
                }
                assert(cases@.take(cn as int) =~= cases@);
                proof {
                    assert(decreases_to!(ss@ => ss@[i as int]));
                    assert(decreases_to!(ss@[i as int] => ss@[i as int]->CaseStmt_else_branch));
                    assert(ss@[i as int]->CaseStmt_else_branch == *else_branch);
                    assert(decreases_to!(*else_branch => else_branch@));
                }
                let b = has_diag_action(else_branch);
                af || b
            },
            _ => false,
        };
        assert(d == diag_stmt(ss@[i as int]));
        found = found || d;
        i += 1;
    }
    assert(ss@.take(n as int) =~= ss@);
    found
}

/// The fixed suggestion of the missing-routine case is assembled around
/// the label; the rule-18 violation shape.
pub open spec fn r18_vio(line: int, reason: Seq<char>, suggestion: Seq<char>) -> VioV {
    VioV {
        rule_no: 18,
        rule_name: "Log PLC hard stops"@,
        line: line,
        reason: reason,
        suggestion: suggestion,
    }
}

/// The violations the rule reports for one organisational block.
pub open spec fn ob_vios(fs: Seq<Function>, k: FunctionKind, label: Seq<char>) -> Seq<VioV> {
    match find_kind(fs, k) {
        Option::None => seq![
            r18_vio(
                0,
                label + " missing or empty"@,
                "Implement "@ + label + " to capture and log diagnostics."@,
            ),
        ],
        Option::Some(i) => {
            if fs[i].statements@.len() == 0 {
                seq![
                    r18_vio(
                        fs[i].line as int,
                        label + " present but empty"@,
                        "Log/record diagnostics and take safe action in this OB."@,
                    ),
                ]
            } else if !diag_stmts(fs[i].statements@) {
                seq![
                    r18_vio(
                        fs[i].line as int,
                        label + " present but no diagnostic/alarm action"@,
                        "Write a diagnostic/alarm/record action in this OB."@,
                    ),
                ]
            } else {
                Seq::empty()
            }
        },
    }
}

/// The rule outcome on a program.
pub open spec fn r18_outcome(p: Program) -> OutcomeV {
    outcome_for(
        18,
        "Log PLC hard stops"@,
        ob_vios(p.functions@, FunctionKind::OB86, "OB86 (Rack Failure)"@) + ob_vios(
            p.functions@,
            FunctionKind::OB121,
            "OB121 (Programming Error)"@,
        ) + ob_vios(p.functions@, FunctionKind::OB82, "OB82 (Diagnostic Interrupt)"@),
    )
}

/// Check one organisational block and append its violations.
pub fn check_ob(program: &Program, k: FunctionKind, label: &str, out: &mut Vec<Violation>)
    ensures
        vio_views(final(out)@) == vio_views(old(out)@) + ob_vios(program.functions@, k, label@),
{
    match find_first_kind(program, k) {
        Option::None => {
            let mut reason = String::from_str(label);
            reason.append(" missing or empty");
            let mut sugg = String::from_str("Implement ");
            sugg.append(label);
            sugg.append(" to capture and log diagnostics.");
            let ghost prev = out@;
            let v = Violation {
                rule_no: 18,
                rule_name: String::from_str("Log PLC hard stops"),
                line: 0,
                reason: reason,
                suggestion: sugg,
            };
            out.push(v);
            assert(vio_views(out@) =~= vio_views(prev).push(v@));
            assert(vio_views(out@) =~= vio_views(old(out)@) + ob_vios(
                program.functions@,
                k,
                label@,
            ));
        },
        Option::Some(i) => {
            let f = &program.functions[i];
            if f.statements.len() == 0 {
                let mut reason = String::from_str(label);
                reason.append(" present but empty");
                let ghost prev = out@;
                let v = Violation {
                    rule_no: 18,
                    rule_name: String::from_str("Log PLC hard stops"),
                    line: f.line,
                    reason: reason,
                    suggestion: String::from_str(
                        "Log/record diagnostics and take safe action in this OB.",
                    ),
                };
                out.push(v);
                assert(vio_views(out@) =~= vio_views(prev).push(v@));
                assert(vio_views(out@) =~= vio_views(old(out)@) + ob_vios(
                    program.functions@,
                    k,
                    label@,
                ));
            } else if !has_diag_action(&f.statements) {
                let mut reason = String::from_str(label);
                reason.append(" present but no diagnostic/alarm action");
                let ghost prev = out@;
                let v = Violation {
                    rule_no: 18,
                    rule_name: String::from_str("Log PLC hard stops"),
                    line: f.line,
                    reason: reason,
                    suggestion: String::from_str(
                        "Write a diagnostic/alarm/record action in this OB.",
                    ),
                };
                out.push(v);
                assert(vio_views(out@) =~= vio_views(prev).push(v@));
                assert(vio_views(out@) =~= vio_views(old(out)@) + ob_vios(
                    program.functions@,
                    k,
                    label@,
                ));
            } else {
                assert(vio_views(out@) =~= vio_views(out@) + ob_vios(
                    program.functions@,
                    k,
                    label@,
                ));
            }
        },
    }
}

/// Log PLC hard stops.
pub fn check(program: &Program) -> (r: RuleOutcome)
    ensures
        r@ == r18_outcome(*program),
{
    let mut vios: Vec<Violation> = Vec::new();
    check_ob(program, FunctionKind::OB86, "OB86 (Rack Failure)", &mut vios);
    check_ob(program, FunctionKind::OB121, "OB121 (Programming Error)", &mut vios);
    check_ob(program, FunctionKind::OB82, "OB82 (Diagnostic Interrupt)", &mut vios);
    assert(vio_views(vios@) =~= ob_vios(program.functions@, FunctionKind::OB86, "OB86 (Rack Failure)"@)
        + ob_vios(program.functions@, FunctionKind::OB121, "OB121 (Programming Error)"@) + ob_vios(
        program.functions@,
        FunctionKind::OB82,
        "OB82 (Diagnostic Interrupt)"@,
    ));
    RuleOutcome::from_violations(18, String::from_str("Log PLC hard stops"), vios)
}

} // verus!
