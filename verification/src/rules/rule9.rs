//! Validate indirections: an array indexed by a variable must be under a
//! guard that range-constrains that variable, and calls to known unsafe
//! memory-copy routines are flagged.

use vstd::prelude::*;
use vstd::string::StringExecFns;
use crate::ast::{Expression, Function, Program, Statement};
use crate::rules::engine::{guard_constrains, guard_views, is_var_constrained};
use crate::rules::report::{outcome_for, vio_views, OutcomeV, RuleOutcome, VioV, Violation};
use crate::text::{contains_seq, str_contains_up, to_upper, up};

verus! {

/// The unguarded-index violation.
pub open spec fn r9_idx_vio(name: Seq<char>, line: int) -> VioV {
    VioV {
        rule_no: 9,
        rule_name: "Validate indirections"@,
        line: line,
        reason: "Array indexed by variable '"@ + name + "' without bounds check"@,
        suggestion: "Validate index against array bounds before access (e.g., IF index < LIMIT THEN...)."@,
    }
}

/// The unsafe-call violation.
pub open spec fn r9_call_vio(name: Seq<char>, line: int) -> VioV {
    VioV {
        rule_no: 9,
        rule_name: "Validate indirections"@,
        line: line,
        reason: "Call to potentially unsafe function '"@ + name + "'"@,
        suggestion: "Ensure destination buffer size is checked before calling memory copy functions."@,
    }
}

/// Does some enclosing guard range-constrain the index variable?
pub open spec fn idx_guarded(guards: Seq<Expression>, name: Seq<char>) -> bool {
    exists|g: int| 0 <= g < guards.len() && guard_constrains(guards[g], up(name))
}

/// A memory-copy routine considered unsafe.
pub open spec fn unsafe_call(name: Seq<char>) -> bool {
    ||| contains_seq(up(name), "STRCPY"@)
    ||| contains_seq(up(name), "MEMCPY"@)
    ||| contains_seq(up(name), "S_MOVE"@)
}

/// The indirection violations inside an expression.
pub open spec fn r9_expr(e: Expression, guards: Seq<Expression>, line: int) -> Seq<VioV>
    decreases e,
{
    match e {
        Expression::Index { base, index, .. } => (
        if *index is VariableRef && !idx_guarded(guards, (*index)->VariableRef_0@) {
            seq![r9_idx_vio((*index)->VariableRef_0@, line)]
        } else {
            Seq::empty()
        }) + r9_expr(*base, guards, line) + r9_expr(*index, guards, line),
        Expression::BinaryOp { left, right, .. } => r9_expr(*left, guards, line) + r9_expr(
            *right,
            guards,
            line,
        ),
        Expression::FuncCall { args, .. } => r9_exprs(args@, guards, line),
        _ => Seq::empty(),
    }
}

/// The indirection violations of a list of expressions.
pub open spec fn r9_exprs(es: Seq<Expression>, guards: Seq<Expression>, line: int) -> Seq<VioV>
    decreases es,
{
    if es.len() == 0 {
        Seq::empty()
    } else {
        r9_exprs(es.drop_last(), guards, line) + r9_expr(es.last(), guards, line)
    }
}

/// The violations of one statement under the guard context.
pub open spec fn r9_stmt(s: Statement, guards: Seq<Expression>) -> Seq<VioV>
    decreases s,
{
    match s {
        Statement::IfStmt { condition, then_branch, else_branch, .. } => r9_stmts(
            then_branch@,
            guards.push(condition),
        ) + r9_stmts(else_branch@, guards),
        Statement::Assign { value, line, .. } => r9_expr(value, guards, line as int),
        Statement::Expr { expr, line } => r9_expr(expr, guards, line as int),
        Statement::Call { name, line, .. } => if unsafe_call(name@) {
            seq![r9_call_vio(name@, line as int)]
        } else {
            Seq::empty()
        },
        _ => Seq::empty(),
    }
}

/// The violations of a statement list.
pub open spec fn r9_stmts(ss: Seq<Statement>, guards: Seq<Expression>) -> Seq<VioV>
    decreases ss,
{
    if ss.len() == 0 {
        Seq::empty()
    } else {
        r9_stmts(ss.drop_last(), guards) + r9_stmt(ss.last(), guards)
    }
}

/// The violations of a program.
pub open spec fn r9_vios(fs: Seq<Function>) -> Seq<VioV>
    decreases fs,
{
    if fs.len() == 0 {
        Seq::empty()
    } else {
        r9_vios(fs.drop_last()) + r9_stmts(fs.last().statements@, Seq::empty())
    }
}

/// The rule outcome on a program.
pub open spec fn r9_outcome(p: Program) -> OutcomeV {
    outcome_for(9, "Validate indirections"@, r9_vios(p.functions@))
}

/// Is the index variable constrained by some enclosing guard?
#[verifier::loop_isolation(false)]
fn idx_guarded_x(guards: &Vec<&Expression>, name: &str) -> (r: bool)
    ensures
        r == idx_guarded(guard_views(guards@), name@),
{
    let u = to_upper(name);
    let gn = guards.len();
    let mut g: usize = 0;
    while g < gn
        invariant
            gn == guards@.len(),
            g <= gn,
            u@ == up(name@),
            forall|a: int|
                0 <= a < g ==> !guard_constrains(guard_views(guards@)[a], up(name@)),
        decreases gn - g,
    {
        assert(guard_views(guards@)[g as int] == *guards@[g as int]);
        if is_var_constrained(u.as_str(), guards[g]) {
            return true;
        }
        g += 1;
    }
    false
}

/// Emit the indirection violations inside an expression.
#[verifier::loop_isolation(false)]
pub fn find_violations_in_expr(
    e: &Expression,
    guards: &Vec<&Expression>,
    line: usize,
    out: &mut Vec<Violation>,
)
    ensures
        vio_views(final(out)@) == vio_views(old(out)@) + r9_expr(
            *e,
            guard_views(guards@),
            line as int,
        ),
    decreases *e,
{
    let ghost gv = guard_views(guards@);
    match e {
        Expression::Index { base, index, .. } => {
            match &**index {
                Expression::VariableRef(nm) => {
                    if !idx_guarded_x(guards, nm.as_str()) {
                        let mut reason = String::from_str("Array indexed by variable '");
                        reason.append(nm.as_str());
                        reason.append("' without bounds check");
                        let ghost prev = out@;
                        let v = Violation {
                            rule_no: 9,
                            rule_name: String::from_str("Validate indirections"),
                            line: line,
                            reason: reason,
                            suggestion: String::from_str(
                                "Validate index against array bounds before access (e.g., IF index < LIMIT THEN...).",
                            ),
                        };
                        out.push(v);
                        assert(vio_views(out@) =~= vio_views(prev).push(v@));
                    }
                },
                _ => {},
            }
            find_violations_in_expr(base, guards, line, out);
            find_violations_in_expr(index, guards, line, out);
            assert(vio_views(out@) =~= vio_views(old(out)@) + r9_expr(*e, gv, line as int));
        },
        Expression::BinaryOp { left, right, .. } => {
            find_violations_in_expr(left, guards, line, out);
            find_violations_in_expr(right, guards, line, out);
            assert(vio_views(out@) =~= vio_views(old(out)@) + r9_expr(*e, gv, line as int));
        },
        Expression::FuncCall { args, .. } => {
            let n = args.len();
            let mut i: usize = 0;
            while i < n
                invariant
                    n == args@.len(),
                    i <= n,
                    vio_views(out@) == vio_views(old(out)@) + r9_exprs(
                        args@.take(i as int),
                        gv,
                        line as int,
                    ),
                decreases n - i,
            {
                assert(args@.take(i + 1).drop_last() =~= args@.take(i as int));
                assert(args@.take(i + 1).last() == args@[i as int]);
                proof {
                    assert(decreases_to!(*e => (*e)->args));
                    assert((*e)->args == *args);
                    assert(decreases_to!(*args => args@));
                    assert(decreases_to!(args@ => args@[i as int]));
                }
                find_violations_in_expr(&args[i], guards, line, out);
                assert(vio_views(out@) =~= vio_views(old(out)@) + r9_exprs(
                    args@.take((i + 1) as int),
                    gv,
                    line as int,
                ));
                i += 1;
            }
            assert(args@.take(n as int) =~= args@);
            assert(vio_views(out@) =~= vio_views(old(out)@) + r9_expr(*e, gv, line as int));
        },
        _ => {
            assert(vio_views(out@) =~= vio_views(out@) + r9_expr(*e, gv, line as int));
        },
    }
}

/// Walk a statement list, pushing guards around THEN branches.
#[verifier::loop_isolation(false)]
pub fn walk_statements<'a>(
    ss: &'a Vec<Statement>,
    guards: &mut Vec<&'a Expression>,
    out: &mut Vec<Violation>,
)
    ensures
        final(guards)@ == old(guards)@,
        vio_views(final(out)@) == vio_views(old(out)@) + r9_stmts(
            ss@,
            guard_views(old(guards)@),
        ),
    decreases ss@,
{
    let ghost gv = guard_views(old(guards)@);
    let n = ss.len();
    let mut i: usize = 0;
    while i < n
        invariant
            n == ss@.len(),
            i <= n,
            guards@ == old(guards)@,
            vio_views(out@) == vio_views(old(out)@) + r9_stmts(ss@.take(i as int), gv),
        decreases n - i,
    {
        assert(ss@.take(i + 1).drop_last() =~= ss@.take(i as int));
        assert(ss@.take(i + 1).last() == ss@[i as int]);
        proof {
            assert(r9_stmts(ss@.take((i + 1) as int), gv) == r9_stmts(ss@.take(i as int), gv)
                + r9_stmt(ss@[i as int], gv));
        }
        match &ss[i] {
            Statement::IfStmt { condition, then_branch, else_branch, .. } => {
                proof {
                    assert(decreases_to!(ss@ => ss@[i as int]));
                    assert(decreases_to!(ss@[i as int] => ss@[i as int]->IfStmt_then_branch));
                    assert(ss@[i as int]->IfStmt_then_branch == *then_branch);
                    assert(decreases_to!(*then_branch => then_branch@));
                    assert(decreases_to!(ss@[i as int] => ss@[i as int]->IfStmt_else_branch));
                    assert(ss@[i as int]->IfStmt_else_branch == *else_branch);
                    assert(decreases_to!(*else_branch => else_branch@));
                }
                guards.push(condition);
                assert(guard_views(guards@) =~= gv.push(*condition));
                walk_statements(then_branch, guards, out);
                guards.pop();
                assert(guards@ =~= old(guards)@);
                walk_statements(else_branch, guards, out);
                assert(vio_views(out@) =~= vio_views(old(out)@) + r9_stmts(
                    ss@.take((i + 1) as int),
                    gv,
                ));
            },
            Statement::Assign { value, line, .. } => {
                assert(ss@[i as int]->Assign_value == *value);
                assert(ss@[i as int]->Assign_line == *line);
                find_violations_in_expr(value, guards, *line, out);
                assert(vio_views(out@) =~= vio_views(old(out)@) + r9_stmts(
                    ss@.take((i + 1) as int),
                    gv,
                ));
            },
            Statement::Expr { expr, line } => {
                assert(ss@[i as int]->Expr_expr == *expr);
                assert(ss@[i as int]->Expr_line == *line);
                find_violations_in_expr(expr, guards, *line, out);
                assert(vio_views(out@) =~= vio_views(old(out)@) + r9_stmts(
                    ss@.take((i + 1) as int),
                    gv,
                ));
            },
            Statement::Call { name, line, .. } => {
                let bad = str_contains_up(name.as_str(), "STRCPY") || str_contains_up(
                    name.as_str(),
                    "MEMCPY",
                ) || str_contains_up(name.as_str(), "S_MOVE");
                if bad {
                    let mut reason = String::from_str("Call to potentially unsafe function '");
                    reason.append(name.as_str());
                    reason.append("'");
                    let ghost prev = out@;
                    let v = Violation {
                        rule_no: 9,
                        rule_name: String::from_str("Validate indirections"),
                        line: *line,
                        reason: reason,
                        suggestion: String::from_str(
                            "Ensure destination buffer size is checked before calling memory copy functions.",
                        ),
                    };
                    out.push(v);
                    assert(vio_views(out@) =~= vio_views(prev).push(v@));
                }
                assert(vio_views(out@) =~= vio_views(old(out)@) + r9_stmts(
                    ss@.take((i + 1) as int),
                    gv,
                ));
            },
            _ => {
                assert(vio_views(out@) =~= vio_views(old(out)@) + r9_stmts(
                    ss@.take((i + 1) as int),
                    gv,
                ));
            },
        }
        i += 1;
    }
    assert(ss@.take(n as int) =~= ss@);
}

/// Validate indirections.
#[verifier::loop_isolation(false)]
pub fn check(program: &Program) -> (r: RuleOutcome)
    ensures
        r@ == r9_outcome(*program),
{
    let n = program.functions.len();
    let mut vios: Vec<Violation> = Vec::new();
    let mut i: usize = 0;
    while i < n
        invariant
            n == program.functions@.len(),
            i <= n,
            vio_views(vios@) == r9_vios(program.functions@.take(i as int)),
        decreases n - i,
    {
        assert(program.functions@.take(i + 1).drop_last() =~= program.functions@.take(i as int));
        assert(program.functions@.take(i + 1).last() == program.functions@[i as int]);
        let mut guards: Vec<&Expression> = Vec::new();
        assert(guard_views(guards@) =~= Seq::<Expression>::empty());
        walk_statements(&program.functions[i].statements, &mut guards, &mut vios);
        assert(vio_views(vios@) =~= r9_vios(program.functions@.take((i + 1) as int)));
        i += 1;
    }
    assert(program.functions@.take(n as int) =~= program.functions@);
    RuleOutcome::from_violations(9, String::from_str("Validate indirections"), vios)
}

} // verus!
