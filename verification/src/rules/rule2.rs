//! Track operating modes: the program should contain a state machine or an
//! explicit mode-tracking variable — a mode-named assignment target, a
//! conditional over a mode variable, or a CASE over a state/step variable.

use vstd::prelude::*;
use vstd::string::StringExecFns;
use crate::ast::{Expression, Function, Program, Statement};
use crate::rules::report::{outcome_for, OutcomeV, RuleOutcome, VioV, Violation};
use crate::rules::utils::{expr_text, expr_text_spec};
use crate::text::{contains_seq, str_contains_up, up};

verus! {

/// An assignment target that names an operating mode.
pub open spec fn mode_target(name: Seq<char>) -> bool {
    ||| contains_seq(up(name), "MODE"@)
    ||| contains_seq(up(name), "AUTO"@)
    ||| contains_seq(up(name), "MANUAL"@)
    ||| contains_seq(up(name), "RUNSTATE"@)
}

/// Does the expression reference a mode-related variable?
pub open spec fn mode_expr(e: Expression) -> bool
    decreases e,
{
    match e {
        Expression::VariableRef(name) => {
            ||| contains_seq(up(name@), "CPU_MODE"@)
            ||| contains_seq(up(name@), "MODE"@)
            ||| contains_seq(up(name@), "RUNSTATE"@)
        },
        Expression::UnaryOp { expr, .. } => mode_expr(*expr),
        Expression::BinaryOp { left, right, .. } => mode_expr(*left) || mode_expr(*right),
        Expression::Index { base, index, .. } => mode_expr(*base) || mode_expr(*index),
        Expression::FuncCall { args, .. } => mode_exprs(args@),
        _ => false,
    }
}

/// Does any expression of the list reference a mode-related variable?
pub open spec fn mode_exprs(es: Seq<Expression>) -> bool
    decreases es,
{
    if es.len() == 0 {
        false
    } else {
        mode_exprs(es.drop_last()) || mode_expr(es.last())
    }
}

/// Recursively check an expression for a mode-related variable reference.
#[verifier::loop_isolation(false)]
pub fn condition_uses_mode_var(e: &Expression) -> (r: bool)
    ensures
        r == mode_expr(*e),
    decreases *e,
{
    match e {
        Expression::VariableRef(name) => {
            str_contains_up(name.as_str(), "CPU_MODE") || str_contains_up(name.as_str(), "MODE")
                || str_contains_up(name.as_str(), "RUNSTATE")
        },
        Expression::UnaryOp { expr, .. } => condition_uses_mode_var(expr),
        Expression::BinaryOp { left, right, .. } => {
            condition_uses_mode_var(left) || condition_uses_mode_var(right)
        },
        Expression::Index { base, index, .. } => {
            condition_uses_mode_var(base) || condition_uses_mode_var(index)
        },
        Expression::FuncCall { args, .. } => {
            let n = args.len();
            let mut i: usize = 0;
            while i < n
                invariant
                    n == args@.len(),
                    i <= n,
                    !mode_exprs(args@.take(i as int)),
                decreases n - i,
            {
                assert(args@.take(i + 1).drop_last() =~= args@.take(i as int));
                assert(args@.take(i + 1).last() == args@[i as int]);
                proof {
                    assert(decreases_to!(*e => (*e)->args));
                    assert((*e)->args == *args);
                    assert(decreases_to!(*args => args@));
                    assert(decreases_to!(args@ => args@[i as int]));
                }
                if condition_uses_mode_var(&args[i]) {
                    assert(mode_exprs(args@.take((i + 1) as int)));
                    assert(args@.take(n as int) =~= args@);
                    proof {
                        crate::rules::rule2::lemma_mode_exprs_prefix(args@, (i + 1) as int);
                    }
                    return true;
                }
                i += 1;
            }
            assert(args@.take(n as int) =~= args@);
            false
        },
        _ => false,
    }
}

/// A true prefix witness extends to the whole list.
pub proof fn lemma_mode_exprs_prefix(es: Seq<Expression>, k: int)
    requires
        0 <= k <= es.len(),
        mode_exprs(es.take(k)),
    ensures
        mode_exprs(es),
    decreases es.len() - k,
{
    if k == es.len() {
        assert(es.take(k) =~= es);
    } else {
        assert(es.take(k + 1).drop_last() =~= es.take(k));
        lemma_mode_exprs_prefix(es, k + 1);
    }
}

/// Does a top-level statement indicate mode tracking?
pub open spec fn stmt_mode(s: Statement) -> bool {
    match s {
        Statement::Assign { target, .. } => mode_target(target.name@),
        Statement::IfStmt { condition, .. } => mode_expr(condition),
        Statement::CaseStmt { expression, .. } => {
            ||| contains_seq(up(expr_text_spec(*expression)), "MODE"@)
            ||| contains_seq(up(expr_text_spec(*expression)), "STATE"@)
            ||| contains_seq(up(expr_text_spec(*expression)), "STEP"@)
        },
        _ => false,
    }
}

/// Does any routine contain a top-level mode indicator?
pub open spec fn has_mode(fs: Seq<Function>) -> bool {
    exists|k: int, i: int|
        0 <= k < fs.len() && 0 <= i < fs[k].statements@.len() && stmt_mode(fs[k].statements@[i])
}

/// The first non-zero routine line, used as the fallback violation line.
pub open spec fn first_line(fs: Seq<Function>) -> int
    decreases fs,
{
    if fs.len() == 0 {
        0
    } else if fs.first().line != 0 {
        fs.first().line as int
    } else {
        first_line(fs.drop_first())
    }
}

/// The rule outcome on a program.
pub open spec fn r2_outcome(p: Program) -> OutcomeV {
    outcome_for(
        2,
        "Track operating modes"@,
        if has_mode(p.functions@) {
            Seq::empty()
        } else {
            seq![
                VioV {
                    rule_no: 2,
                    rule_name: "Track operating modes"@,
                    line: first_line(p.functions@),
                    reason: "No state machine or explicit mode-tracking variable found."@,
                    suggestion: "Implement a CASE state machine or guard logic on CPU_MODE/Mode/RunState."@,
                },
            ]
        },
    )
}

/// Compute the first non-zero routine line.
#[verifier::loop_isolation(false)]
pub fn first_line_x(program: &Program) -> (r: usize)
    ensures
        r as int == first_line(program.functions@),
{
    let n = program.functions.len();
    let mut i: usize = 0;
    assert(program.functions@.skip(0) =~= program.functions@);
    while i < n
        invariant
            n == program.functions@.len(),
            i <= n,
            first_line(program.functions@) == first_line(program.functions@.skip(i as int)),
        decreases n - i,
    {
        assert(program.functions@.skip(i as int).first() == program.functions@[i as int]);
        assert(program.functions@.skip(i as int).drop_first() =~= program.functions@.skip(i + 1));
        if program.functions[i].line != 0 {
            return program.functions[i].line;
        }
        i += 1;
    }
    assert(program.functions@.skip(n as int) =~= Seq::<Function>::empty());
    0
}

/// Track operating modes.
#[verifier::loop_isolation(false)]
pub fn check(program: &Program) -> (r: RuleOutcome)
    ensures
        r@ == r2_outcome(*program),
{
    let n = program.functions.len();
    let mut k: usize = 0;
    while k < n
        invariant
            n == program.functions@.len(),
            k <= n,
            forall|a: int, b: int|
                0 <= a < k && 0 <= b < program.functions@[a].statements@.len() ==> !stmt_mode(
                    program.functions@[a].statements@[b],
                ),
        decreases n - k,
    {
        let f = &program.functions[k];
        let m = f.statements.len();
        let mut i: usize = 0;
        while i < m
            invariant
                n == program.functions@.len(),
                k < n,
                m == program.functions@[k as int].statements@.len(),
                i <= m,
                forall|a: int, b: int|
                    0 <= a < k && 0 <= b < program.functions@[a].statements@.len() ==> !stmt_mode(
                        program.functions@[a].statements@[b],
                    ),
                forall|b: int|
                    0 <= b < i ==> !stmt_mode(program.functions@[k as int].statements@[b]),
            decreases m - i,
        {
            let found = match &f.statements[i] {
                Statement::Assign { target, .. } => {
                    str_contains_up(target.name.as_str(), "MODE") || str_contains_up(
                        target.name.as_str(),
                        "AUTO",
                    ) || str_contains_up(target.name.as_str(), "MANUAL") || str_contains_up(
                        target.name.as_str(),
                        "RUNSTATE",
                    )
                },
                Statement::IfStmt { condition, .. } => condition_uses_mode_var(condition),
                Statement::CaseStmt { expression, .. } => {
                    let t = expr_text(expression);
                    str_contains_up(t.as_str(), "MODE") || str_contains_up(t.as_str(), "STATE")
                        || str_contains_up(t.as_str(), "STEP")
                },
                _ => false,
            };
            assert(found == stmt_mode(program.functions@[k as int].statements@[i as int]));
            if found {
                return RuleOutcome::clean(2, String::from_str("Track operating modes"));
            }
            i += 1;
        }
        k += 1;
    }
    assert(!has_mode(program.functions@));
    let line = first_line_x(program);
    let mut vios: Vec<Violation> = Vec::new();
    let v = Violation {
        rule_no: 2,
        rule_name: String::from_str("Track operating modes"),
        line: line,
        reason: String::from_str("No state machine or explicit mode-tracking variable found."),
        suggestion: String::from_str(
            "Implement a CASE state machine or guard logic on CPU_MODE/Mode/RunState.",
        ),
    };
    vios.push(v);
    assert(crate::rules::report::vio_views(vios@) =~= r2_outcome(*program).status->Violations_0);
    RuleOutcome::from_violations(2, String::from_str("Track operating modes"), vios)
}

} // verus!
