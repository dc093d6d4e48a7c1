//! Use checksum integrity checks: a routine that draws on recipe or
//! parameter data must show evidence of a checksum/CRC comparison that can
//! raise an alarm before the data is used.

use vstd::prelude::*;
use vstd::string::StringExecFns;
use crate::ast::{expr_marked, expr_has_marked_var, Expression, Function, Program, Statement};
use crate::rules::engine::push_lit;
use crate::rules::report::{outcome_for, vio_views, OutcomeV, RuleOutcome, VioV, Violation};
use crate::rules::rule11_12::sensitive_sources;
use crate::rules::utils::{expr_text, expr_text_spec};
use crate::text::{contains_seq, str_contains_up, up};

verus! {

/// Does a statement read sensitive (recipe/parameter) data?
pub open spec fn sens_stmt(s: Statement) -> bool
    decreases s,
{
    match s {
        Statement::Assign { value, .. } => expr_marked(value, sensitive_sources()),
        Statement::Call { args, .. } => sens_args(args@),
        Statement::IfStmt { condition, then_branch, else_branch, .. } => expr_marked(
            condition,
            sensitive_sources(),
        ) || sens_stmts(then_branch@) || sens_stmts(else_branch@),
        Statement::CaseStmt { cases, else_branch, .. } => sens_arms(cases@) || sens_stmts(
            else_branch@,
        ),
        _ => false,
    }
}

/// Sensitive data in any call argument.
pub open spec fn sens_args(args: Seq<(String, Expression)>) -> bool
    decreases args,
{
    if args.len() == 0 {
        false
    } else {
        sens_args(args.drop_last()) || expr_marked(args.last().1, sensitive_sources())
    }
}

/// Sensitive data in any arm of a CASE statement.
pub open spec fn sens_arms(arms: Seq<(Vec<Expression>, Vec<Statement>)>) -> bool
    decreases arms,
{
    if arms.len() == 0 {
        false
    } else {
        sens_arms(arms.drop_last()) || sens_stmts(arms.last().1@)
    }
}

/// Sensitive data anywhere in a statement list.
pub open spec fn sens_stmts(ss: Seq<Statement>) -> bool
    decreases ss,
{
    if ss.len() == 0 {
        false
    } else {
        sens_stmts(ss.drop_last()) || sens_stmt(ss.last())
    }
}

/// Does a top-level assignment of the THEN branch raise an alarm?
pub open spec fn sets_alarm(ss: Seq<Statement>) -> bool
    decreases ss,
{
    if ss.len() == 0 {
        false
    } else {
        sets_alarm(ss.drop_last()) || (ss.last() is Assign && contains_seq(
            up(ss.last()->Assign_target.name@),
            "ALARM"@,
        ))
    }
}

/// An integrity check: a conditional whose text mentions a checksum/CRC,
/// compares for inequality, and whose THEN branch raises an alarm; nested
/// conditionals and CASE arms are searched too.
pub open spec fn integrity_stmt(s: Statement) -> bool
    decreases s,
{
    match s {
        Statement::IfStmt { condition, then_branch, .. } => {
            let c = up(expr_text_spec(condition));
            ||| ((contains_seq(c, "CHECKSUM"@) || contains_seq(c, "CRC"@)) && (contains_seq(
                c,
                "<>"@,
            ) || contains_seq(c, "!="@)) && sets_alarm(then_branch@))
            ||| integrity_stmts(then_branch@)
        },
        Statement::CaseStmt { cases, else_branch, .. } => integrity_arms(cases@)
            || integrity_stmts(else_branch@),
        _ => false,
    }
}

/// An integrity check in any arm of a CASE statement.
pub open spec fn integrity_arms(arms: Seq<(Vec<Expression>, Vec<Statement>)>) -> bool
    decreases arms,
{
    if arms.len() == 0 {
        false
    } else {
        integrity_arms(arms.drop_last()) || integrity_stmts(arms.last().1@)
    }
}

/// An integrity check anywhere in a statement list.
pub open spec fn integrity_stmts(ss: Seq<Statement>) -> bool
    decreases ss,
{
    if ss.len() == 0 {
        false
    } else {
        integrity_stmts(ss.drop_last()) || integrity_stmt(ss.last())
    }
}

/// The first routine that uses sensitive data without a visible integrity
/// check.
pub open spec fn find_r5(fs: Seq<Function>) -> Option<int>
    decreases fs,
{
    if fs.len() == 0 {
        Option::None
    } else if sens_stmts(fs.first().statements@) && !integrity_stmts(fs.first().statements@) {
        Option::Some(0int)
    } else {
        match find_r5(fs.drop_first()) {
            Option::Some(i) => Option::Some(i + 1),
            Option::None => Option::None,
        }
    }
}

/// The rule outcome on a program: at most one violation, for the first
/// offending routine.
pub open spec fn r5_outcome(p: Program) -> OutcomeV {
    outcome_for(
        5,
        "Use checksum integrity checks"@,
        match find_r5(p.functions@) {
            Option::None => Seq::empty(),
            Option::Some(i) => seq![
                VioV {
                    rule_no: 5,
                    rule_name: "Use checksum integrity checks"@,
                    line: p.functions@[i].line as int,
                    reason: "Function '"@ + p.functions@[i].name@
                        + "' uses recipe/parameter data without a visible integrity check."@,
                    suggestion: "Verify a checksum/CRC for recipe data and raise an alarm on mismatch before using the data."@,
                },
            ],
        },
    )
}

/// Does the statement list use sensitive data anywhere?
#[verifier::loop_isolation(false)]
pub fn function_uses_sensitive_data(ss: &Vec<Statement>, marks: &Vec<String>) -> (r: bool)
    requires
        crate::ast::views_of(marks@) == sensitive_sources(),
    ensures
        r == sens_stmts(ss@),
    decreases ss@,
{
    let n = ss.len();
    let mut found = false;
    let mut i: usize = 0;
    while i < n
        invariant
            n == ss@.len(),
            i <= n,
            found == sens_stmts(ss@.take(i as int)),
        decreases n - i,
    {
        assert(ss@.take(i + 1).drop_last() =~= ss@.take(i as int));
        assert(ss@.take(i + 1).last() == ss@[i as int]);
        let d: bool = match &ss[i] {
            Statement::Assign { value, .. } => expr_has_marked_var(value, marks),
            Statement::Call { args, .. } => {
                let an = args.len();
                let mut af = false;
                let mut j: usize = 0;
                while j < an
                    invariant
                        an == args@.len(),
                        j <= an,
                        af == sens_args(args@.take(j as int)),
                        crate::ast::views_of(marks@) == sensitive_sources(),
                    decreases an - j,
                {
                    assert(args@.take(j + 1).drop_last() =~= args@.take(j as int));
                    assert(args@.take(j + 1).last() == args@[j as int]);
                    let c = expr_has_marked_var(&args[j].1, marks);
                    af = af || c;
                    j += 1;
                }
                assert(args@.take(an as int) =~= args@);
                af
            },
            Statement::IfStmt { condition, then_branch, else_branch, .. } => {
                proof {
                    assert(decreases_to!(ss@ => ss@[i as int]));
                    assert(decreases_to!(ss@[i as int] => ss@[i as int]->IfStmt_then_branch));
                    assert(ss@[i as int]->IfStmt_then_branch == *then_branch);
                    assert(decreases_to!(*then_branch => then_branch@));
                    assert(decreases_to!(ss@[i as int] => ss@[i as int]->IfStmt_else_branch));
                    assert(ss@[i as int]->IfStmt_else_branch == *else_branch);
                    assert(decreases_to!(*else_branch => else_branch@));
                }
                let c = expr_has_marked_var(condition, marks);
                let a = function_uses_sensitive_data(then_branch, marks);
                let b = function_uses_sensitive_data(else_branch, marks);
                c || a || b
            },
            Statement::CaseStmt { cases, else_branch, .. } => {
                let cn = cases.len();
                let mut af = false;
                let mut j: usize = 0;
                while j < cn
                    invariant
                        cn == cases@.len(),
                        j <= cn,
                        af == sens_arms(cases@.take(j as int)),
                        crate::ast::views_of(marks@) == sensitive_sources(),
                    decreases cn - j,
                {
                    assert(cases@.take(j + 1).drop_last() =~= cases@.take(j as int));
                    assert(cases@.take(j + 1).last() == cases@[j as int]);
                    proof {
                        assert(decreases_to!(ss@ => ss@[i as int]));
                        assert(decreases_to!(ss@[i as int] => ss@[i as int]->CaseStmt_cases));
                        assert(ss@[i as int]->CaseStmt_cases == *cases);
                        assert(decreases_to!(*cases => cases@));
                        assert(decreases_to!(cases@ => cases@[j as int]));
                        assert(decreases_to!(cases@[j as int] => cases@[j as int].1));
                        assert(decreases_to!(cases@[j as int].1 => cases@[j as int].1@));
                    }
                    let c = function_uses_sensitive_data(&cases[j].1, marks);
                    af = af || c;
                    j += 1;
                }
                assert(cases@.take(cn as int) =~= cases@);
                proof {
                    assert(decreases_to!(ss@ => ss@[i as int]));
                    assert(decreases_to!(ss@[i as int] => ss@[i as int]->CaseStmt_else_branch));
                    assert(ss@[i as int]->CaseStmt_else_branch == *else_branch);
                    assert(decreases_to!(*else_branch => else_branch@));
                }
                let b = function_uses_sensitive_data(else_branch, marks);
                af || b
            },
            _ => false,
        };
        assert(d == sens_stmt(ss@[i as int]));
        found = found || d;
        i += 1;
    }
    assert(ss@.take(n as int) =~= ss@);
    found
}

/// Does the statement list contain a visible integrity check?
#[verifier::loop_isolation(false)]
pub fn has_integrity_check(ss: &Vec<Statement>) -> (r: bool)
    ensures
        r == integrity_stmts(ss@),
    decreases ss@,
{
    let n = ss.len();
    let mut found = false;
    let mut i: usize = 0;
    while i < n
        invariant
            n == ss@.len(),
            i <= n,
            found == integrity_stmts(ss@.take(i as int)),
        decreases n - i,
    {
        assert(ss@.take(i + 1).drop_last() =~= ss@.take(i as int));
        assert(ss@.take(i + 1).last() == ss@[i as int]);
        let d: bool = match &ss[i] {
            Statement::IfStmt { condition, then_branch, .. } => {
                let c = expr_text(condition);
                let mentions = str_contains_up(c.as_str(), "CHECKSUM") || str_contains_up(
                    c.as_str(),
                    "CRC",
                );
                let compares = str_contains_up(c.as_str(), "<>") || str_contains_up(
                    c.as_str(),
                    "!=",
                );
                let tn = then_branch.len();
                let mut alarm = false;
                let mut j: usize = 0;
                while j < tn
                    invariant
                        tn == then_branch@.len(),
                        j <= tn,
                        alarm == sets_alarm(then_branch@.take(j as int)),
                    decreases tn - j,
                {
                    assert(then_branch@.take(j + 1).drop_last() =~= then_branch@.take(j as int));
                    assert(then_branch@.take(j + 1).last() == then_branch@[j as int]);
                    let a = match &then_branch[j] {
                        Statement::Assign { target, .. } => str_contains_up(
                            target.name.as_str(),
                            "ALARM",
                        ),
                        _ => false,
                    };
                    alarm = alarm || a;
                    j += 1;
                }
                assert(then_branch@.take(tn as int) =~= then_branch@);
                proof {
                    assert(decreases_to!(ss@ => ss@[i as int]));
                    assert(decreases_to!(ss@[i as int] => ss@[i as int]->IfStmt_then_branch));
                    assert(ss@[i as int]->IfStmt_then_branch == *then_branch);
                    assert(decreases_to!(*then_branch => then_branch@));
                }
                let nested = has_integrity_check(then_branch);
                (mentions && compares && alarm) || nested
            },
            Statement::CaseStmt { cases, else_branch, .. } => {
                let cn = cases.len();
                let mut af = false;
                let mut j: usize = 0;
                while j < cn
                    invariant
                        cn == cases@.len(),
                        j <= cn,
                        af == integrity_arms(cases@.take(j as int)),
                    decreases cn - j,
                {
                    assert(cases@.take(j + 1).drop_last() =~= cases@.take(j as int));
                    assert(cases@.take(j + 1).last() == cases@[j as int]);
                    proof {
                        assert(decreases_to!(ss@ => ss@[i as int]));
                        assert(decreases_to!(ss@[i as int] => ss@[i as int]->CaseStmt_cases));
                        assert(ss@[i as int]->CaseStmt_cases == *cases);
                        assert(decreases_to!(*cases => cases@));
                        assert(decreases_to!(cases@ => cases@[j as int]));
                        assert(decreases_to!(cases@[j as int] => cases@[j as int].1));
                        assert(decreases_to!(cases@[j as int].1 => cases@[j as int].1@));
                    }
                    let c = has_integrity_check(&cases[j].1);
                    af = af || c;
                    j += 1;
                }
                assert(cases@.take(cn as int) =~= cases@);
                proof {
                    assert(decreases_to!(ss@ => ss@[i as int]));
                    assert(decreases_to!(ss@[i as int] => ss@[i as int]->CaseStmt_else_branch));
                    assert(ss@[i as int]->CaseStmt_else_branch == *else_branch);
                    assert(decreases_to!(*else_branch => else_branch@));
                }
                let b = has_integrity_check(else_branch);
                af || b
            },
            _ => false,
        };
        assert(d == integrity_stmt(ss@[i as int]));
        found = found || d;
        i += 1;
    }
    assert(ss@.take(n as int) =~= ss@);
    found
}

/// Use checksum integrity checks.
#[verifier::loop_isolation(false)]
pub fn check(program: &Program) -> (r: RuleOutcome)
    ensures
        r@ == r5_outcome(*program),
{
    let mut marks: Vec<String> = Vec::new();
    push_lit(&mut marks, "HMI");
    push_lit(&mut marks, "RECIPE");
    push_lit(&mut marks, "PARAM");
    push_lit(&mut marks, "SETPOINT");
    assert(crate::ast::views_of(marks@) =~= sensitive_sources());
    let n = program.functions.len();
    let mut i: usize = 0;
    assert(program.functions@.skip(0) =~= program.functions@);
    while i < n
        invariant
            n == program.functions@.len(),
            i <= n,
            crate::ast::views_of(marks@) == sensitive_sources(),
            ({
                let rest = find_r5(program.functions@.skip(i as int));
                match rest {
                    Option::Some(v) => find_r5(program.functions@) == Option::Some(v + i as int),
                    Option::None => find_r5(program.functions@) is None,
                }
            }),
        decreases n - i,
    {
        assert(program.functions@.skip(i as int).first() == program.functions@[i as int]);
        assert(program.functions@.skip(i as int).drop_first() =~= program.functions@.skip(i + 1));
        let f = &program.functions[i];
        let uses = function_uses_sensitive_data(&f.statements, &marks);
        if uses {
            let integ = has_integrity_check(&f.statements);
            if !integ {
                let mut reason = String::from_str("Function '");
                reason.append(f.name.as_str());
                reason.append("' uses recipe/parameter data without a visible integrity check.");
                let mut vios: Vec<Violation> = Vec::new();
                let v = Violation {
                    rule_no: 5,
                    rule_name: String::from_str("Use checksum integrity checks"),
                    line: f.line,
                    reason: reason,
                    suggestion: String::from_str(
                        "Verify a checksum/CRC for recipe data and raise an alarm on mismatch before using the data.",
                    ),
                };
                vios.push(v);
                assert(vio_views(vios@) =~= r5_outcome(*program).status->Violations_0);
                return RuleOutcome::from_violations(
                    5,
                    String::from_str("Use checksum integrity checks"),
                    vios,
                );
            }
        }
        i += 1;
    }
    assert(program.functions@.skip(n as int) =~= Seq::<Function>::empty());
    RuleOutcome::clean(5, String::from_str("Use checksum integrity checks"))
}

} // verus!
