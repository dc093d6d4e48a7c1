//! Shared utilities of the rule catalog: the expression canonicalizer, the
//! sensitive-source predicate, and the annotation context that answers
//! whether a human validation annotation stands above a source line.

use vstd::prelude::*;
use vstd::string::StringExecFns;
use crate::ast::{BinOp, Expression, Program, Statement, UnaryOp};
use crate::text::{
    contains_seq, int_rep, push_i64_dec, str_contains_up, up,
};

verus! {

/// The operator symbol used in canonical expression text.
pub open spec fn op_text(op: BinOp) -> Seq<char> {
    match op {
        BinOp::Add => "+"@,
        BinOp::Sub => "-"@,
        BinOp::Mul => "*"@,
        BinOp::Div => "/"@,
        BinOp::Eq => "="@,
        BinOp::Neq => "<>"@,
        BinOp::Lt => "<"@,
        BinOp::Le => "<="@,
        BinOp::Gt => ">"@,
        BinOp::Ge => ">="@,
        BinOp::And => "AND"@,
        BinOp::Or => "OR"@,
    }
}

/// Canonical text of an expression: the unique rendering used both for
/// violation messages and for syntactic guard matching.
pub open spec fn expr_text_spec(e: Expression) -> Seq<char>
    decreases e,
{
    match e {
        Expression::NumberLiteral(n, _) => int_rep(n as int),
        Expression::BoolLiteral(b, _) => if b {
            "TRUE"@
        } else {
            "FALSE"@
        },
        Expression::VariableRef(name) => name@,
        Expression::UnaryOp { op, expr, .. } => match op {
            UnaryOp::Not => "NOT "@ + expr_text_spec(*expr),
        },
        Expression::BinaryOp { op, left, right, .. } => expr_text_spec(*left) + " "@ + op_text(op)
            + " "@ + expr_text_spec(*right),
        Expression::Index { base, index, .. } => expr_text_spec(*base) + "["@ + expr_text_spec(
            *index,
        ) + "]"@,
        Expression::FuncCall { name, args, .. } => name@ + "("@ + args_text_spec(args@) + ")"@,
    }
}

/// Canonical text of an argument list, comma-separated.
pub open spec fn args_text_spec(es: Seq<Expression>) -> Seq<char>
    decreases es,
{
    if es.len() == 0 {
        Seq::empty()
    } else if es.len() == 1 {
        expr_text_spec(es.last())
    } else {
        args_text_spec(es.drop_last()) + ", "@ + expr_text_spec(es.last())
    }
}

/// Append the canonical text of `e` to `out`.
#[verifier::loop_isolation(false)]
pub fn push_expr_text(e: &Expression, out: &mut String)
    ensures
        final(out)@ == old(out)@ + expr_text_spec(*e),
    decreases *e,
{
    match e {
        Expression::NumberLiteral(n, _) => {
            push_i64_dec(out, *n);
        },
        Expression::BoolLiteral(b, _) => {
            if *b {
                out.append("TRUE");
            } else {
                out.append("FALSE");
            }
        },
        Expression::VariableRef(name) => {
            out.append(name.as_str());
        },
        Expression::UnaryOp { op, expr, .. } => {
            match op {
                UnaryOp::Not => {
                    out.append("NOT ");
                    push_expr_text(expr, out);
                },
            }
        },
        Expression::BinaryOp { op, left, right, .. } => {
            push_expr_text(left, out);
            out.append(" ");
            let ops: &str = match op {
                BinOp::Add => "+",
                BinOp::Sub => "-",
                BinOp::Mul => "*",
                BinOp::Div => "/",
                BinOp::Eq => "=",
                BinOp::Neq => "<>",
                BinOp::Lt => "<",
                BinOp::Le => "<=",
                BinOp::Gt => ">",
                BinOp::Ge => ">=",
                BinOp::And => "AND",
                BinOp::Or => "OR",
            };
            assert(ops@ == op_text(*op));
            out.append(ops);
            out.append(" ");
            push_expr_text(right, out);
            assert(out@ =~= old(out)@ + expr_text_spec(*e));
        },
        Expression::Index { base, index, .. } => {
            push_expr_text(base, out);
            out.append("[");
            push_expr_text(index, out);
            out.append("]");
            assert(out@ =~= old(out)@ + expr_text_spec(*e));
        },
        Expression::FuncCall { name, args, .. } => {
            out.append(name.as_str());
            out.append("(");
            let n = args.len();
            let mut i: usize = 0;
            while i < n
                invariant
                    n == args@.len(),
                    i <= n,
                    out@ == old(out)@ + (*e)->name@ + "("@ + args_text_spec(args@.take(i as int)),
                decreases n - i,
            {
                assert(args@.take(i + 1).drop_last() =~= args@.take(i as int));
                assert(args@.take(i + 1).last() == args@[i as int]);
                if i > 0 {
                    out.append(", ");
                }
                proof {
                    assert(decreases_to!(*e => (*e)->args));
                    assert((*e)->args == *args);
                    assert(decreases_to!(*args => args@));
                    assert(decreases_to!(args@ => args@[i as int]));
                }
                push_expr_text(&args[i], out);
                assert(out@ =~= old(out)@ + (*e)->name@ + "("@ + args_text_spec(
                    args@.take((i + 1) as int),
                ));
                i += 1;
            }
            assert(args@.take(n as int) =~= args@);
            out.append(")");
            assert(out@ =~= old(out)@ + expr_text_spec(*e));
        },
    }
}

/// Canonical text of an expression as a fresh string.
pub fn expr_text(e: &Expression) -> (r: String)
    ensures
        r@ == expr_text_spec(*e),
{
    let mut out = String::new();
    push_expr_text(e, &mut out);
    out
}

/// A name suggests an untrusted origin: operator/HMI input, recipe or
/// parameter data, or an operator-settable setpoint.
pub open spec fn is_sensitive_name(s: Seq<char>) -> bool {
    ||| contains_seq(up(s), "HMI"@)
    ||| contains_seq(up(s), "RECIPE"@)
    ||| contains_seq(up(s), "PARAM"@)
    ||| contains_seq(up(s), "SETPOINT"@)
}

/// Checks whether a variable name suggests a sensitive source such as HMI
/// input or recipe data.
pub fn is_sensitive_variable(name: &str) -> (r: bool)
    ensures
        r == is_sensitive_name(name@),
{
    str_contains_up(name, "HMI") || str_contains_up(name, "RECIPE") || str_contains_up(
        name,
        "PARAM",
    ) || str_contains_up(name, "SETPOINT")
}

/// A comment text carries a recognized validation annotation.
pub open spec fn is_annotation(text: Seq<char>) -> bool {
    contains_seq(up(text), "@PLAUSIBILITYCHECK"@) || contains_seq(up(text), "@VALIDATION"@)
}

/// The view of the collected comment lines: (line, text) pairs.
pub open spec fn comment_views(v: Seq<(usize, String)>) -> Seq<(int, Seq<char>)> {
    v.map_values(|c: (usize, String)| (c.0 as int, c.1@))
}

/// A recognized annotation stands strictly above `line`, within `gap` lines.
pub open spec fn has_annotation_above(
    comments: Seq<(int, Seq<char>)>,
    line: int,
    gap: int,
) -> bool {
    line > 0 && exists|i: int|
        0 <= i < comments.len() && comments[i].0 < line && line - comments[i].0 <= gap
            && is_annotation(comments[i].1)
}

/// The comment lines of a statement, in order, innermost included.
pub open spec fn stmt_comments(s: Statement) -> Seq<(int, Seq<char>)>
    decreases s,
{
    match s {
        Statement::Comment { text, line } => seq![(line as int, text@)],
        Statement::IfStmt { then_branch, else_branch, .. } => stmts_comments(then_branch@)
            + stmts_comments(else_branch@),
        Statement::CaseStmt { cases, else_branch, .. } => case_comments(cases@) + stmts_comments(
            else_branch@,
        ),
        _ => Seq::empty(),
    }
}

/// The comment lines of a statement list.
pub open spec fn stmts_comments(ss: Seq<Statement>) -> Seq<(int, Seq<char>)>
    decreases ss,
{
    if ss.len() == 0 {
        Seq::empty()
    } else {
        stmts_comments(ss.drop_last()) + stmt_comments(ss.last())
    }
}

/// The comment lines of the arms of a CASE statement.
pub open spec fn case_comments(arms: Seq<(Vec<Expression>, Vec<Statement>)>) -> Seq<
    (int, Seq<char>),
>
    decreases arms,
{
    if arms.len() == 0 {
        Seq::empty()
    } else {
        case_comments(arms.drop_last()) + stmts_comments(arms.last().1@)
    }
}

/// The comment lines of a whole program.
pub open spec fn program_comments(fs: Seq<crate::ast::Function>) -> Seq<(int, Seq<char>)>
    decreases fs,
{
    if fs.len() == 0 {
        Seq::empty()
    } else {
        program_comments(fs.drop_last()) + stmts_comments(fs.last().statements@)
    }
}

/// The immutable per-analysis context: the comment lines retained by the
/// front end, used for annotation scanning.  Built once per analyzed
/// program and passed by reference into every rule, so rules stay pure.
pub struct AnalysisContext {
    pub comments: Vec<(usize, String)>,
}

/// Append the comments of one statement.
#[verifier::loop_isolation(false)]
fn collect_stmt_comments(s: &Statement, out: &mut Vec<(usize, String)>)
    ensures
        comment_views(final(out)@) == comment_views(old(out)@) + stmt_comments(*s),
    decreases *s,
{
    match s {
        Statement::Comment { text, line } => {
            out.push((*line, text.clone()));
            assert(comment_views(out@) =~= comment_views(old(out)@) + stmt_comments(*s));
        },
        Statement::IfStmt { then_branch, else_branch, .. } => {
            collect_stmts_comments(then_branch, out);
            collect_stmts_comments(else_branch, out);
            assert(comment_views(out@) =~= comment_views(old(out)@) + stmt_comments(*s));
        },
        Statement::CaseStmt { cases, else_branch, .. } => {
            let n = cases.len();
            let mut i: usize = 0;
            while i < n
                invariant
                    n == cases@.len(),
                    i <= n,
                    comment_views(out@) == comment_views(old(out)@) + case_comments(
                        cases@.take(i as int),
                    ),
                decreases n - i,
            {
                assert(cases@.take(i + 1).drop_last() =~= cases@.take(i as int));
                assert(cases@.take(i + 1).last() == cases@[i as int]);
                proof {
                    assert(decreases_to!(*s => (*s)->CaseStmt_cases));
                    assert((*s)->CaseStmt_cases == *cases);
                    assert(decreases_to!(*cases => cases@));
                    assert(decreases_to!(cases@ => cases@[i as int]));
                    assert(decreases_to!(cases@[i as int] => cases@[i as int].1));
                    assert(decreases_to!(cases@[i as int].1 => cases@[i as int].1@));
                }
                collect_stmts_comments(&cases[i].1, out);
                assert(comment_views(out@) =~= comment_views(old(out)@) + case_comments(
                    cases@.take((i + 1) as int),
                ));
                i += 1;
            }
            assert(cases@.take(n as int) =~= cases@);
            collect_stmts_comments(else_branch, out);
            assert(comment_views(out@) =~= comment_views(old(out)@) + stmt_comments(*s));
        },
        _ => {
            assert(comment_views(out@) =~= comment_views(out@) + stmt_comments(*s));
        },
    }
}

/// Append the comments of a statement list.
#[verifier::loop_isolation(false)]
fn collect_stmts_comments(ss: &Vec<Statement>, out: &mut Vec<(usize, String)>)
    ensures
        comment_views(final(out)@) == comment_views(old(out)@) + stmts_comments(ss@),
    decreases ss@,
{
    let n = ss.len();
    let mut i: usize = 0;
    while i < n
        invariant
            n == ss@.len(),
            i <= n,
            comment_views(out@) == comment_views(old(out)@) + stmts_comments(ss@.take(i as int)),
        decreases n - i,
    {
        assert(ss@.take(i + 1).drop_last() =~= ss@.take(i as int));
        assert(ss@.take(i + 1).last() == ss@[i as int]);
        proof {
            assert(decreases_to!(ss@ => ss@[i as int]));
        }
        collect_stmt_comments(&ss[i], out);
        assert(comment_views(out@) =~= comment_views(old(out)@) + stmts_comments(
            ss@.take((i + 1) as int),
        ));
        i += 1;
    }
    assert(ss@.take(n as int) =~= ss@);
}

impl AnalysisContext {
    /// An empty context: no comments were retained, so no annotation is
    /// ever found — absence must never be treated as presence.
    pub fn empty() -> (r: AnalysisContext)
        ensures
            comment_views(r.comments@) == Seq::<(int, Seq<char>)>::empty(),
    {
        AnalysisContext { comments: Vec::new() }
    }

    /// Build the context from the comment statements retained in the
    /// program by the front end.
    pub fn from_program(p: &Program) -> (r: AnalysisContext)
        ensures
            comment_views(r.comments@) == program_comments(p.functions@),
    {
        let mut out: Vec<(usize, String)> = Vec::new();
        let n = p.functions.len();
        let mut i: usize = 0;
        while i < n
            invariant
                n == p.functions@.len(),
                i <= n,
                comment_views(out@) == program_comments(p.functions@.take(i as int)),
            decreases n - i,
        {
            assert(p.functions@.take(i + 1).drop_last() =~= p.functions@.take(i as int));
            assert(p.functions@.take(i + 1).last() == p.functions@[i as int]);
            collect_stmts_comments(&p.functions[i].statements, &mut out);
            assert(comment_views(out@) =~= program_comments(p.functions@.take((i + 1) as int)));
            i += 1;
        }
        assert(p.functions@.take(n as int) =~= p.functions@);
        AnalysisContext { comments: out }
    }

    /// Looks for a plausibility/validation annotation in the comments
    /// strictly above `line`, within `search_depth` lines.  Returns false
    /// for line 0 and for an empty context.
    pub fn has_plausibility_annotation_above(&self, line: usize, search_depth: usize) -> (r: bool)
        ensures
            r == has_annotation_above(comment_views(self.comments@), line as int, search_depth as int),
    {
        if line == 0 {
            return false;
        }
        let n = self.comments.len();
        let mut i: usize = 0;
        while i < n
            invariant
                n == self.comments@.len(),
                i <= n,
                forall|k: int|
                    0 <= k < i ==> !(comment_views(self.comments@)[k].0 < line && line
                        - comment_views(self.comments@)[k].0 <= search_depth && is_annotation(
                        comment_views(self.comments@)[k].1,
                    )),
            decreases n - i,
        {
            let cl = self.comments[i].0;
            if cl < line && line - cl <= search_depth {
                let txt = &self.comments[i].1;
                if str_contains_up(txt.as_str(), "@PLAUSIBILITYCHECK") || str_contains_up(
                    txt.as_str(),
                    "@VALIDATION",
                ) {
                    assert(comment_views(self.comments@)[i as int].1 == self.comments@[i as int].1@);
                    return true;
                }
            }
            assert(comment_views(self.comments@)[i as int].1 == self.comments@[i as int].1@);
            i += 1;
        }
        false
    }
}

} // verus!
