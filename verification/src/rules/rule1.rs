//! Modularize PLC code: flag excessive cyclomatic complexity or statement
//! count in FC/FB/PROGRAM routines.
//!
//! Complexity is 1 plus one per IF (plus one more when its ELSE is
//! non-empty) and one per CASE label group (plus one for a non-empty CASE
//! ELSE), counted recursively with an explicit depth cap: nesting deeper
//! than 100 levels contributes nothing, bounding the walk on adversarial
//! input.  The size threshold is on the
//! branch count: a routine with more than 50 branches (cyclomatic value
//! above 51) is flagged, so exactly 50 sequential conditionals are still
//! accepted.  The executable counters saturate at the machine limit; the
//! thresholds lie far below it.

use vstd::prelude::*;
use vstd::string::StringExecFns;
use crate::ast::{Expression, Function, FunctionKind, Program, Statement};
use crate::rules::report::{outcome_for, vio_views, OutcomeV, RuleOutcome, VioV, Violation};
use crate::text::{dec_rep, push_u64_dec};

verus! {

/// Saturate a count at the machine limit.
pub open spec fn cap64(n: nat) -> nat {
    if n <= u64::MAX as nat {
        n
    } else {
        u64::MAX as nat
    }
}

/// Branch contributions of one statement at the given nesting depth.
pub open spec fn stmt_branches(s: Statement, depth: int) -> nat
    decreases s,
{
    match s {
        Statement::IfStmt { then_branch, else_branch, .. } => 1 + (if else_branch@.len() > 0 {
            1nat
        } else {
            0nat
        }) + stmts_branches(then_branch@, depth + 1) + stmts_branches(else_branch@, depth + 1),
        Statement::CaseStmt { cases, else_branch, .. } => cases@.len() + (if else_branch@.len()
            > 0 {
            1nat
        } else {
            0nat
        }) + arms_branches(cases@, depth + 1) + stmts_branches(else_branch@, depth + 1),
        _ => 0,
    }
}

/// Branch contributions of the arms of a CASE statement.
pub open spec fn arms_branches(arms: Seq<(Vec<Expression>, Vec<Statement>)>, depth: int) -> nat
    decreases arms,
{
    if arms.len() == 0 {
        0
    } else {
        arms_branches(arms.drop_last(), depth) + stmts_branches(arms.last().1@, depth)
    }
}

/// Branch contributions of a statement list; past the depth cap the walk
/// stops and contributes nothing.
pub open spec fn stmts_branches(ss: Seq<Statement>, depth: int) -> nat
    decreases ss,
{
    if depth > 100 {
        0
    } else if ss.len() == 0 {
        0
    } else {
        stmts_branches(ss.drop_last(), depth) + stmt_branches(ss.last(), depth)
    }
}

/// The cyclomatic value of a routine body: base 1 plus all branches.
pub open spec fn complexity_of(ss: Seq<Statement>) -> nat {
    1 + stmts_branches(ss, 0)
}

/// The number of statements of one statement, nested included.
pub open spec fn stmt_count_s(s: Statement) -> nat
    decreases s,
{
    match s {
        Statement::IfStmt { then_branch, else_branch, .. } => 1 + stmts_count_s(then_branch@)
            + stmts_count_s(else_branch@),
        Statement::CaseStmt { cases, else_branch, .. } => 1 + arms_count_s(cases@) + stmts_count_s(
            else_branch@,
        ),
        _ => 1,
    }
}

/// The number of statements in the arms of a CASE statement.
pub open spec fn arms_count_s(arms: Seq<(Vec<Expression>, Vec<Statement>)>) -> nat
    decreases arms,
{
    if arms.len() == 0 {
        0
    } else {
        arms_count_s(arms.drop_last()) + stmts_count_s(arms.last().1@)
    }
}

/// The number of statements in a statement list, nested included.
pub open spec fn stmts_count_s(ss: Seq<Statement>) -> nat
    decreases ss,
{
    if ss.len() == 0 {
        0
    } else {
        stmts_count_s(ss.drop_last()) + stmt_count_s(ss.last())
    }
}

/// Count the branches below one statement.
#[verifier::loop_isolation(false)]
fn stmt_branches_x(s: &Statement, depth: u64) -> (r: u64)
    requires
        depth <= 100,
    ensures
        r as nat == cap64(stmt_branches(*s, depth as int)),
    decreases *s,
{
    match s {
        Statement::IfStmt { then_branch, else_branch, .. } => {
            let extra: u64 = if else_branch.len() > 0 {
                1
            } else {
                0
            };
            let a = stmts_branches_x(then_branch, depth + 1);
            let b = stmts_branches_x(else_branch, depth + 1);
            1u64.saturating_add(extra).saturating_add(a).saturating_add(b)
        },
        Statement::CaseStmt { cases, else_branch, .. } => {
            let n = cases.len();
            let mut acc: u64 = n as u64;
            if else_branch.len() > 0 {
                acc = acc.saturating_add(1);
            }
            let mut i: usize = 0;
            while i < n
                invariant
                    n == cases@.len(),
                    i <= n,
                    acc as nat == cap64(
                        cases@.len() + (if (*s)->CaseStmt_else_branch@.len() > 0 {
                            1nat
                        } else {
                            0nat
                        }) + arms_branches(cases@.take(i as int), depth + 1),
                    ),
                decreases n - i,
            {
                assert(cases@.take(i + 1).drop_last() =~= cases@.take(i as int));
                assert(cases@.take(i + 1).last() == cases@[i as int]);
                proof {
                    assert(decreases_to!(*s => (*s)->CaseStmt_cases));
                    assert((*s)->CaseStmt_cases == *cases);
                    assert(decreases_to!(*cases => cases@));
                    assert(decreases_to!(cases@ => cases@[i as int]));
                    assert(decreases_to!(cases@[i as int] => cases@[i as int].1));
                    assert(decreases_to!(cases@[i as int].1 => cases@[i as int].1@));
                }
                let c = stmts_branches_x(&cases[i].1, depth + 1);
                acc = acc.saturating_add(c);
                i += 1;
            }
            assert(cases@.take(n as int) =~= cases@);
            let e = stmts_branches_x(else_branch, depth + 1);
            acc.saturating_add(e)
        },
        _ => 0,
    }
}

/// Count the branches in a statement list below the depth cap.
#[verifier::loop_isolation(false)]
pub fn count_branches_with_depth(ss: &Vec<Statement>, depth: u64) -> (r: u64)
    requires
        depth <= 101,
    ensures
        r as nat == cap64(stmts_branches(ss@, depth as int)),
    decreases ss@,
{
    stmts_branches_x(ss, depth)
}

/// Count the branches in a statement list below the depth cap.
#[verifier::loop_isolation(false)]
fn stmts_branches_x(ss: &Vec<Statement>, depth: u64) -> (r: u64)
    requires
        depth <= 101,
    ensures
        r as nat == cap64(stmts_branches(ss@, depth as int)),
    decreases ss@,
{
    if depth > 100 {
        return 0;
    }
    let n = ss.len();
    let mut acc: u64 = 0;
    let mut i: usize = 0;
    while i < n
        invariant
            n == ss@.len(),
            i <= n,
            depth <= 100,
            acc as nat == cap64(stmts_branches(ss@.take(i as int), depth as int)),
        decreases n - i,
    {
        assert(ss@.take(i + 1).drop_last() =~= ss@.take(i as int));
        assert(ss@.take(i + 1).last() == ss@[i as int]);
        proof {
            assert(decreases_to!(ss@ => ss@[i as int]));
        }
        let c = stmt_branches_x(&ss[i], depth);
        acc = acc.saturating_add(c);
        i += 1;
    }
    assert(ss@.take(n as int) =~= ss@);
    acc
}

/// Count the branches of a routine body.
pub fn count_branches(ss: &Vec<Statement>) -> (r: u64)
    ensures
        r as nat == cap64(stmts_branches(ss@, 0)),
{
    count_branches_with_depth(ss, 0)
}

/// The cyclomatic value of a routine body.
pub fn cyclomatic_complexity(ss: &Vec<Statement>) -> (r: u64)
    ensures
        r as nat == cap64(complexity_of(ss@)),
{
    let b = count_branches(ss);
    1u64.saturating_add(b)
}

/// Count the statements below one statement, itself included.
#[verifier::loop_isolation(false)]
fn stmt_count_x(s: &Statement) -> (r: u64)
    ensures
        r as nat == cap64(stmt_count_s(*s)),
    decreases *s,
{
    match s {
        Statement::IfStmt { then_branch, else_branch, .. } => {
            let a = statement_count(then_branch);
            let b = statement_count(else_branch);
            1u64.saturating_add(a).saturating_add(b)
        },
        Statement::CaseStmt { cases, else_branch, .. } => {
            let n = cases.len();
            let mut acc: u64 = 1;
            let mut i: usize = 0;
            while i < n
                invariant
                    n == cases@.len(),
                    i <= n,
                    acc as nat == cap64(1 + arms_count_s(cases@.take(i as int))),
                decreases n - i,
            {
                assert(cases@.take(i + 1).drop_last() =~= cases@.take(i as int));
                assert(cases@.take(i + 1).last() == cases@[i as int]);
                proof {
                    assert(decreases_to!(*s => (*s)->CaseStmt_cases));
                    assert((*s)->CaseStmt_cases == *cases);
                    assert(decreases_to!(*cases => cases@));
                    assert(decreases_to!(cases@ => cases@[i as int]));
                    assert(decreases_to!(cases@[i as int] => cases@[i as int].1));
                    assert(decreases_to!(cases@[i as int].1 => cases@[i as int].1@));
                }
                let c = statement_count(&cases[i].1);
                acc = acc.saturating_add(c);
                i += 1;
            }
            assert(cases@.take(n as int) =~= cases@);
            let e = statement_count(else_branch);
            acc.saturating_add(e)
        },
        _ => 1,
    }
}

/// Count all statements in a list, nested ones included.
#[verifier::loop_isolation(false)]
pub fn statement_count(ss: &Vec<Statement>) -> (r: u64)
    ensures
        r as nat == cap64(stmts_count_s(ss@)),
    decreases ss@,
{
    let n = ss.len();
    let mut acc: u64 = 0;
    let mut i: usize = 0;
    while i < n
        invariant
            n == ss@.len(),
            i <= n,
            acc as nat == cap64(stmts_count_s(ss@.take(i as int))),
        decreases n - i,
    {
        assert(ss@.take(i + 1).drop_last() =~= ss@.take(i as int));
        assert(ss@.take(i + 1).last() == ss@[i as int]);
        proof {
            assert(decreases_to!(ss@ => ss@[i as int]));
        }
        let c = stmt_count_x(&ss[i]);
        acc = acc.saturating_add(c);
        i += 1;
    }
    assert(ss@.take(n as int) =~= ss@);
    acc
}

/// Does the size rule look at this routine kind?
pub open spec fn sized_kind(k: FunctionKind) -> bool {
    k == FunctionKind::FC || k == FunctionKind::FB || k == FunctionKind::Program
}

/// The complexity violation for one routine.
pub open spec fn r1_complexity_vio(f: Function) -> VioV {
    VioV {
        rule_no: 1,
        rule_name: "Modularize PLC Code"@,
        line: f.line as int,
        reason: "Cyclomatic complexity "@ + dec_rep(cap64(complexity_of(f.statements@)))
            + " exceeds 50"@,
        suggestion: "Split logic into smaller FC/FBs; reduce branching."@,
    }
}

/// The statement-count violation for one routine.
pub open spec fn r1_count_vio(f: Function) -> VioV {
    VioV {
        rule_no: 1,
        rule_name: "Modularize PLC Code"@,
        line: f.line as int,
        reason: "Statement count "@ + dec_rep(cap64(stmts_count_s(f.statements@)))
            + " exceeds 500"@,
        suggestion: "Refactor large routines into smaller units."@,
    }
}

/// The size violations of one routine: complexity over 50, statement
/// count over 500, for FC/FB/PROGRAM kinds only.
pub open spec fn r1_fn_vios(f: Function) -> Seq<VioV> {
    if sized_kind(f.kind) {
        (if complexity_of(f.statements@) > 51 {
            seq![r1_complexity_vio(f)]
        } else {
            Seq::empty()
        }) + (if stmts_count_s(f.statements@) > 500 {
            seq![r1_count_vio(f)]
        } else {
            Seq::empty()
        })
    } else {
        Seq::empty()
    }
}

/// The size violations of a program, in routine order.
pub open spec fn r1_vios(fs: Seq<Function>) -> Seq<VioV>
    decreases fs,
{
    if fs.len() == 0 {
        Seq::empty()
    } else {
        r1_vios(fs.drop_last()) + r1_fn_vios(fs.last())
    }
}

/// The rule outcome on a program.
pub open spec fn r1_outcome(p: Program) -> OutcomeV {
    outcome_for(1, "Modularize PLC Code"@, r1_vios(p.functions@))
}

/// Modularize PLC code: flag oversized or over-branched routines.
#[verifier::loop_isolation(false)]
pub fn check(program: &Program) -> (r: RuleOutcome)
    ensures
        r@ == r1_outcome(*program),
{
    let n = program.functions.len();
    let mut vios: Vec<Violation> = Vec::new();
    let mut i: usize = 0;
    while i < n
        invariant
            n == program.functions@.len(),
            i <= n,
            vio_views(vios@) =~= r1_vios(program.functions@.take(i as int)),
        decreases n - i,
    {
        assert(program.functions@.take(i + 1).drop_last() =~= program.functions@.take(i as int));
        assert(program.functions@.take(i + 1).last() == program.functions@[i as int]);
        let f = &program.functions[i];
        let in_scope = match f.kind {
            FunctionKind::FC | FunctionKind::FB | FunctionKind::Program => true,
            _ => false,
        };
        if in_scope {
            let complexity = cyclomatic_complexity(&f.statements);
            let count = statement_count(&f.statements);
            if complexity > 51 {
                let mut reason = String::from_str("Cyclomatic complexity ");
                push_u64_dec(&mut reason, complexity);
                reason.append(" exceeds 50");
                let ghost prev = vios@;
                let v = Violation {
                    rule_no: 1,
                    rule_name: String::from_str("Modularize PLC Code"),
                    line: f.line,
                    reason: reason,
                    suggestion: String::from_str("Split logic into smaller FC/FBs; reduce branching."),
                };
                vios.push(v);
                assert(vio_views(vios@) =~= vio_views(prev).push(v@));
                assert(v@ == r1_complexity_vio(program.functions@[i as int]));
            }
            if count > 500 {
                let mut reason = String::from_str("Statement count ");
                push_u64_dec(&mut reason, count);
                reason.append(" exceeds 500");
                let ghost prev = vios@;
                let v = Violation {
                    rule_no: 1,
                    rule_name: String::from_str("Modularize PLC Code"),
                    line: f.line,
                    reason: reason,
                    suggestion: String::from_str("Refactor large routines into smaller units."),
                };
                vios.push(v);
                assert(vio_views(vios@) =~= vio_views(prev).push(v@));
                assert(v@ == r1_count_vio(program.functions@[i as int]));
            }
        }
        assert(vio_views(vios@) =~= r1_vios(program.functions@.take((i + 1) as int)));
        i += 1;
    }
    assert(program.functions@.take(n as int) =~= program.functions@);
    RuleOutcome::from_violations(1, String::from_str("Modularize PLC Code"), vios)
}

} // verus!
