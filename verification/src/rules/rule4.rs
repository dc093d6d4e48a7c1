//! Use PLC flags as integrity checks around division: flag any division
//! that is not inside a conditional checking the status-word flags or a
//! zero divisor.  A division nested inside an already-flagged division's
//! operand is not reported again.

use vstd::prelude::*;
use vstd::string::StringExecFns;
use crate::ast::{BinOp, Expression, Function, Program, Statement};
use crate::rules::report::{outcome_for, vio_views, OutcomeV, RuleOutcome, VioV, Violation};
use crate::rules::utils::{expr_text, expr_text_spec};
use crate::text::{contains_seq, str_contains_up, strip_spaces, up, without_spaces};

verus! {

/// Does the guard's canonical text (spaces removed, upper-cased) check the
/// status-word flags or a zero divisor?
pub open spec fn division_guard(g: Expression) -> bool {
    let t = up(without_spaces(expr_text_spec(g)));
    ||| (contains_seq(t, "SW.OV=0"@) && contains_seq(t, "SW.OS=0"@))
    ||| contains_seq(t, "<>0"@)
    ||| contains_seq(t, "!=0"@)
}

/// Checks whether an expression is a valid guard for a division.
pub fn is_division_guard(g: &Expression) -> (r: bool)
    ensures
        r == division_guard(*g),
{
    let text = expr_text(g);
    let t = strip_spaces(text.as_str());
    (str_contains_up(t.as_str(), "SW.OV=0") && str_contains_up(t.as_str(), "SW.OS=0"))
        || str_contains_up(t.as_str(), "<>0") || str_contains_up(t.as_str(), "!=0")
}

/// The division violation at one line.
pub open spec fn r4_vio(line: int) -> VioV {
    VioV {
        rule_no: 4,
        rule_name: "Use PLC flags as integrity checks"@,
        line: line,
        reason: "Division operation without status-word / zero-divisor guard"@,
        suggestion: "Wrap division inside IF SW.OV=0 AND SW.OS=0 AND divisor<>0 THEN ..."@,
    }
}

/// The violations for the top-most divisions of an expression: one per
/// division node whose operands are not themselves inspected further.
pub open spec fn div_vios_expr(e: Expression, line: int) -> Seq<VioV>
    decreases e,
{
    match e {
        Expression::BinaryOp { op, left, right, .. } => {
            if op == BinOp::Div {
                seq![r4_vio(line)]
            } else {
                div_vios_expr(*left, line) + div_vios_expr(*right, line)
            }
        },
        Expression::Index { base, index, .. } => div_vios_expr(*base, line) + div_vios_expr(
            *index,
            line,
        ),
        _ => Seq::empty(),
    }
}

/// The division violations of one statement under the given guard state.
pub open spec fn div_vios_stmt(s: Statement, guarded: bool) -> Seq<VioV>
    decreases s,
{
    match s {
        Statement::IfStmt { condition, then_branch, else_branch, .. } => div_vios_stmts(
            then_branch@,
            guarded || division_guard(condition),
        ) + div_vios_stmts(else_branch@, guarded),
        Statement::Assign { value, line, .. } => if guarded {
            Seq::empty()
        } else {
            div_vios_expr(value, line as int)
        },
        Statement::Expr { expr, line } => if guarded {
            Seq::empty()
        } else {
            div_vios_expr(expr, line as int)
        },
        _ => Seq::empty(),
    }
}

/// The division violations of a statement list.
pub open spec fn div_vios_stmts(ss: Seq<Statement>, guarded: bool) -> Seq<VioV>
    decreases ss,
{
    if ss.len() == 0 {
        Seq::empty()
    } else {
        div_vios_stmts(ss.drop_last(), guarded) + div_vios_stmt(ss.last(), guarded)
    }
}

/// The division violations of a program.
pub open spec fn r4_vios(fs: Seq<Function>) -> Seq<VioV>
    decreases fs,
{
    if fs.len() == 0 {
        Seq::empty()
    } else {
        r4_vios(fs.drop_last()) + div_vios_stmts(fs.last().statements@, false)
    }
}

/// The rule outcome on a program.
pub open spec fn r4_outcome(p: Program) -> OutcomeV {
    outcome_for(4, "Use PLC flags as integrity checks"@, r4_vios(p.functions@))
}

/// Emit a violation for each top-most division of the expression.
#[verifier::loop_isolation(false)]
fn find_divs(e: &Expression, line: usize, out: &mut Vec<Violation>)
    ensures
        vio_views(final(out)@) == vio_views(old(out)@) + div_vios_expr(*e, line as int),
    decreases *e,
{
    match e {
        Expression::BinaryOp { op, left, right, .. } => {
            if matches!(op, BinOp::Div) {
                let ghost prev = out@;
                let v = Violation {
                    rule_no: 4,
                    rule_name: String::from_str("Use PLC flags as integrity checks"),
                    line: line,
                    reason: String::from_str(
                        "Division operation without status-word / zero-divisor guard",
                    ),
                    suggestion: String::from_str(
                        "Wrap division inside IF SW.OV=0 AND SW.OS=0 AND divisor<>0 THEN ...",
                    ),
                };
                out.push(v);
                assert(vio_views(out@) =~= vio_views(prev).push(v@));
                assert(vio_views(out@) =~= vio_views(old(out)@) + div_vios_expr(*e, line as int));
            } else {
                find_divs(left, line, out);
                find_divs(right, line, out);
                assert(vio_views(out@) =~= vio_views(old(out)@) + div_vios_expr(*e, line as int));
            }
        },
        Expression::Index { base, index, .. } => {
            find_divs(base, line, out);
            find_divs(index, line, out);
            assert(vio_views(out@) =~= vio_views(old(out)@) + div_vios_expr(*e, line as int));
        },
        _ => {
            assert(vio_views(out@) =~= vio_views(out@) + div_vios_expr(*e, line as int));
        },
    }
}

/// Walk a statement list, tracking whether a division guard encloses it.
#[verifier::loop_isolation(false)]
fn collect_div_violations(ss: &Vec<Statement>, guarded: bool, out: &mut Vec<Violation>)
    ensures
        vio_views(final(out)@) == vio_views(old(out)@) + div_vios_stmts(ss@, guarded),
    decreases ss@,
{
    let n = ss.len();
    let mut i: usize = 0;
    while i < n
        invariant
            n == ss@.len(),
            i <= n,
            vio_views(out@) == vio_views(old(out)@) + div_vios_stmts(ss@.take(i as int), guarded),
        decreases n - i,
    {
        assert(ss@.take(i + 1).drop_last() =~= ss@.take(i as int));
        assert(ss@.take(i + 1).last() == ss@[i as int]);
        match &ss[i] {
            Statement::IfStmt { condition, then_branch, else_branch, .. } => {
                let g = is_division_guard(condition);
                proof {
                    assert(ss@[i as int]->IfStmt_condition == *condition);
                    assert(decreases_to!(ss@ => ss@[i as int]));
                    assert(decreases_to!(ss@[i as int] => ss@[i as int]->IfStmt_then_branch));
                    assert(ss@[i as int]->IfStmt_then_branch == *then_branch);
                    assert(decreases_to!(*then_branch => then_branch@));
                    assert(decreases_to!(ss@[i as int] => ss@[i as int]->IfStmt_else_branch));
                    assert(ss@[i as int]->IfStmt_else_branch == *else_branch);
                    assert(decreases_to!(*else_branch => else_branch@));
                }
                collect_div_violations(then_branch, guarded || g, out);
                collect_div_violations(else_branch, guarded, out);
                assert(div_vios_stmts(ss@.take((i + 1) as int), guarded) == div_vios_stmts(
                    ss@.take(i as int),
                    guarded,
                ) + div_vios_stmt(ss@[i as int], guarded));
                assert(vio_views(out@) =~= vio_views(old(out)@) + div_vios_stmts(
                    ss@.take((i + 1) as int),
                    guarded,
                ));
            },
            Statement::Assign { value, line, .. } => {
                assert(ss@[i as int]->Assign_value == *value);
                assert(ss@[i as int]->Assign_line == *line);
                assert(div_vios_stmt(ss@[i as int], guarded) == (if guarded {
                    Seq::<VioV>::empty()
                } else {
                    div_vios_expr(*value, *line as int)
                }));
                assert(div_vios_stmts(ss@.take((i + 1) as int), guarded) == div_vios_stmts(
                    ss@.take(i as int),
                    guarded,
                ) + div_vios_stmt(ss@[i as int], guarded));
                if !guarded {
                    find_divs(value, *line, out);
                }
                assert(vio_views(out@) =~= vio_views(old(out)@) + div_vios_stmts(
                    ss@.take((i + 1) as int),
                    guarded,
                ));
            },
            Statement::Expr { expr, line } => {
                assert(ss@[i as int]->Expr_expr == *expr);
                assert(ss@[i as int]->Expr_line == *line);
                if !guarded {
                    find_divs(expr, *line, out);
                }
                assert(div_vios_stmts(ss@.take((i + 1) as int), guarded) == div_vios_stmts(
                    ss@.take(i as int),
                    guarded,
                ) + div_vios_stmt(ss@[i as int], guarded));
                assert(vio_views(out@) =~= vio_views(old(out)@) + div_vios_stmts(
                    ss@.take((i + 1) as int),
                    guarded,
                ));
            },
            _ => {
                assert(div_vios_stmts(ss@.take((i + 1) as int), guarded) == div_vios_stmts(
                    ss@.take(i as int),
                    guarded,
                ) + div_vios_stmt(ss@[i as int], guarded));
                assert(vio_views(out@) =~= vio_views(old(out)@) + div_vios_stmts(
                    ss@.take((i + 1) as int),
                    guarded,
                ));
            },
        }
        i += 1;
    }
    assert(ss@.take(n as int) =~= ss@);
}

/// Use PLC flags as integrity checks around division.
#[verifier::loop_isolation(false)]
pub fn check(program: &Program) -> (r: RuleOutcome)
    ensures
        r@ == r4_outcome(*program),
{
    let n = program.functions.len();
    let mut vios: Vec<Violation> = Vec::new();
    let mut i: usize = 0;
    while i < n
        invariant
            n == program.functions@.len(),
            i <= n,
            vio_views(vios@) == r4_vios(program.functions@.take(i as int)),
        decreases n - i,
    {
        assert(program.functions@.take(i + 1).drop_last() =~= program.functions@.take(i as int));
        assert(program.functions@.take(i + 1).last() == program.functions@[i as int]);
        collect_div_violations(&program.functions[i].statements, false, &mut vios);
        assert(vio_views(vios@) =~= r4_vios(program.functions@.take((i + 1) as int)));
        i += 1;
    }
    assert(program.functions@.take(n as int) =~= program.functions@);
    RuleOutcome::from_violations(4, String::from_str("Use PLC flags as integrity checks"), vios)
}

} // verus!
