//! Unified AST for PLC sources.
//!
//! Both front ends (the structured-text and instruction-list dialects) build
//! this one representation, and every rule reasons over it.  The tree is
//! immutable once built; rules only read it and accumulate side results.

use vstd::prelude::*;
use crate::text::{contains_seq, up};

verus! {

/// A complete PLC program: an ordered collection of routines.
#[derive(Debug)]
pub struct Program {
    pub functions: Vec<Function>,
}

/// A top-level routine (FC, FB, PROGRAM or OB).
#[derive(Debug)]
pub struct Function {
    pub name: String,
    pub kind: FunctionKind,
    pub statements: Vec<Statement>,
    /// Best-effort source line where this routine was first seen.
    pub line: usize,
}

/// Kind of routine, including the specific organisational blocks that
/// certain rules care about (OB1, OB100, OB82, OB86, OB121).
#[derive(Debug, Clone, Copy, PartialEq, Eq, Structural)]
pub enum FunctionKind {
    FC,
    FB,
    Program,
    OB,
    OB1,
    OB100,
    OB82,
    OB86,
    OB121,
}

/// Variable (symbolic) reference used as an assignment target.
#[derive(Debug)]
pub struct Variable {
    pub name: String,
}

/// Statements form the imperative body of a routine.
#[derive(Debug)]
pub enum Statement {
    /// `X := <expr>;`
    Assign { target: Variable, value: Expression, line: usize },
    /// `SomeBlockOrFunction(...);`
    Call { name: String, args: Vec<(String, Expression)>, line: usize },
    /// `IF <cond> THEN ... [ELSE ...] END_IF`; `else_branch` is empty when
    /// the source has no ELSE part.
    IfStmt {
        condition: Expression,
        then_branch: Vec<Statement>,
        else_branch: Vec<Statement>,
        line: usize,
    },
    /// Standalone expression, kept for its side reads (e.g. indexing).
    Expr { expr: Expression, line: usize },
    /// Comment preserved for annotation scanning.
    Comment { text: String, line: usize },
    /// `CASE <expr> OF ... END_CASE`
    CaseStmt {
        expression: Box<Expression>,
        cases: Vec<(Vec<Expression>, Vec<Statement>)>,
        else_branch: Vec<Statement>,
        line: usize,
    },
}

/// Unary operators; only logical NOT is needed by the modeled dialects.
#[derive(Debug, Clone, Copy, PartialEq, Eq, Structural)]
pub enum UnaryOp {
    Not,
}

/// Arithmetic, comparison and boolean binary operators.
#[derive(Debug, Clone, Copy, PartialEq, Eq, Structural)]
pub enum BinOp {
    Add,
    Sub,
    Mul,
    Div,
    Eq,
    Neq,
    Lt,
    Le,
    Gt,
    Ge,
    And,
    Or,
}

/// Expressions are deliberately minimal; only what the rules need.
#[derive(Debug)]
#[allow(inconsistent_fields)]
pub enum Expression {
    /// Numeric literal with best-effort source line.
    NumberLiteral(i64, usize),
    /// Boolean literal with best-effort source line.
    BoolLiteral(bool, usize),
    /// `Some.Var.Name` or `%MW100`.
    VariableRef(String),
    /// `NOT <expr>`
    UnaryOp { op: UnaryOp, expr: Box<Expression>, line: usize },
    /// `<left> <op> <right>`
    BinaryOp { op: BinOp, left: Box<Expression>, right: Box<Expression>, line: usize },
    /// `Base[Index]`
    Index { base: Box<Expression>, index: Box<Expression>, line: usize },
    /// `Name(arg, ...)`
    FuncCall { name: String, args: Vec<Expression>, line: usize },
}

/// The best-effort source line of an expression; variable references carry
/// none and report 0.
pub open spec fn line_of(e: Expression) -> int {
    match e {
        Expression::NumberLiteral(_, line) => line as int,
        Expression::BoolLiteral(_, line) => line as int,
        Expression::VariableRef(_) => 0,
        Expression::UnaryOp { line, .. } => line as int,
        Expression::BinaryOp { line, .. } => line as int,
        Expression::Index { line, .. } => line as int,
        Expression::FuncCall { line, .. } => line as int,
    }
}

impl Expression {
    /// The line number of any expression variant.
    pub fn line(&self) -> (r: usize)
        ensures
            r as int == line_of(*self),
    {
        match self {
            Expression::NumberLiteral(_, line) => *line,
            Expression::BoolLiteral(_, line) => *line,
            Expression::VariableRef(_) => 0,
            Expression::UnaryOp { line, .. } => *line,
            Expression::BinaryOp { line, .. } => *line,
            Expression::Index { line, .. } => *line,
            Expression::FuncCall { line, .. } => *line,
        }
    }
}

/// The names of all variables referenced by an expression, in left-to-right
/// order, as character sequences.
pub open spec fn expr_vars(e: Expression) -> Seq<Seq<char>>
    decreases e,
{
    match e {
        Expression::NumberLiteral(_, _) => Seq::empty(),
        Expression::BoolLiteral(_, _) => Seq::empty(),
        Expression::VariableRef(name) => seq![name@],
        Expression::UnaryOp { expr, .. } => expr_vars(*expr),
        Expression::BinaryOp { left, right, .. } => expr_vars(*left) + expr_vars(*right),
        Expression::Index { base, index, .. } => expr_vars(*base) + expr_vars(*index),
        Expression::FuncCall { args, .. } => exprs_vars(args@),
    }
}

/// The variable names of a list of expressions, in order.
pub open spec fn exprs_vars(es: Seq<Expression>) -> Seq<Seq<char>>
    decreases es,
{
    if es.len() == 0 {
        Seq::empty()
    } else {
        exprs_vars(es.drop_last()) + expr_vars(es.last())
    }
}

/// The views of a vector of strings.
pub open spec fn views_of(v: Seq<String>) -> Seq<Seq<char>> {
    v.map_values(|s: String| s@)
}

/// Append the names of all variables referenced by `e` to `out`.
#[verifier::loop_isolation(false)]
pub fn collect_vars(e: &Expression, out: &mut Vec<String>)
    ensures
        views_of(final(out)@) == views_of(old(out)@) + expr_vars(*e),
    decreases *e,
{
    match e {
        Expression::NumberLiteral(_, _) => {
            assert(views_of(out@) =~= views_of(out@) + expr_vars(*e));
        },
        Expression::BoolLiteral(_, _) => {
            assert(views_of(out@) =~= views_of(out@) + expr_vars(*e));
        },
        Expression::VariableRef(name) => {
            out.push(name.clone());
            assert(views_of(out@) =~= views_of(old(out)@) + expr_vars(*e));
        },
        Expression::UnaryOp { expr, .. } => {
            collect_vars(expr, out);
        },
        Expression::BinaryOp { left, right, .. } => {
            collect_vars(left, out);
            collect_vars(right, out);
            assert(views_of(out@) =~= views_of(old(out)@) + expr_vars(*e));
        },
        Expression::Index { base, index, .. } => {
            collect_vars(base, out);
            collect_vars(index, out);
            assert(views_of(out@) =~= views_of(old(out)@) + expr_vars(*e));
        },
        Expression::FuncCall { args, .. } => {
            let n = args.len();
            let mut i: usize = 0;
            while i < n
                invariant
                    n == args@.len(),
                    i <= n,
                    views_of(out@) == views_of(old(out)@) + exprs_vars(args@.take(i as int)),
                decreases n - i,
                    *e,
            {
                assert(args@.take(i + 1).drop_last() =~= args@.take(i as int));
                assert(args@.take(i + 1).last() == args@[i as int]);
                proof {
                    assert(decreases_to!(*e => (*e)->args));
                    assert((*e)->args == *args);
                    assert(decreases_to!(*args => args@));
                    assert(decreases_to!(args@ => args@[i as int]));
                }
                collect_vars(&args[i], out);
                assert(views_of(out@) =~= views_of(old(out)@) + exprs_vars(
                    args@.take((i + 1) as int),
                ));
                i += 1;
            }
            assert(args@.take(n as int) =~= args@);
        },
    }
}

/// Some variable referenced by `e` has a name whose upper-casing contains
/// one of the given (upper-case) markers.
pub open spec fn expr_marked(e: Expression, marks: Seq<Seq<char>>) -> bool {
    exists|i: int, j: int|
        0 <= i < expr_vars(e).len() && 0 <= j < marks.len() && contains_seq(
            up(expr_vars(e)[i]),
            marks[j],
        )
}

/// Does some name in `names` contain (case-insensitively) some marker?
pub fn any_name_marked(names: &Vec<String>, marks: &Vec<String>) -> (r: bool)
    ensures
        r == exists|i: int, j: int|
            0 <= i < names@.len() && 0 <= j < marks@.len() && contains_seq(
                up(names@[i]@),
                marks@[j]@,
            ),
{
    let n = names.len();
    let m = marks.len();
    let mut i: usize = 0;
    while i < n
        invariant
            n == names@.len(),
            m == marks@.len(),
            i <= n,
            forall|a: int, b: int|
                0 <= a < i && 0 <= b < m ==> !contains_seq(up(names@[a]@), marks@[b]@),
        decreases n - i,
    {
        let mut j: usize = 0;
        while j < m
            invariant
                n == names@.len(),
                m == marks@.len(),
                i < n,
                j <= m,
                forall|a: int, b: int|
                    0 <= a < i && 0 <= b < m ==> !contains_seq(up(names@[a]@), marks@[b]@),
                forall|b: int| 0 <= b < j ==> !contains_seq(up(names@[i as int]@), marks@[b]@),
            decreases m - j,
        {
            if crate::text::str_contains_up(names[i].as_str(), marks[j].as_str()) {
                return true;
            }
            j += 1;
        }
        i += 1;
    }
    false
}

/// Does some variable of `e` carry one of the markers?  This is the shared
/// source/sensitivity test of the taint rules.
pub fn expr_has_marked_var(e: &Expression, marks: &Vec<String>) -> (r: bool)
    ensures
        r == expr_marked(*e, views_of(marks@)),
{
    let mut names: Vec<String> = Vec::new();
    collect_vars(e, &mut names);
    let r = any_name_marked(&names, marks);
    assert(views_of(names@) =~= expr_vars(*e));
    assert(forall|i: int|
        0 <= i < names@.len() ==> views_of(names@)[i] == names@[i]@ && views_of(marks@) =~= views_of(
            marks@,
        ));
    assert(r == expr_marked(*e, views_of(marks@))) by {
        if r {
            let (i, j) = choose|i: int, j: int|
                0 <= i < names@.len() && 0 <= j < marks@.len() && contains_seq(
                    up(names@[i]@),
                    marks@[j]@,
                );
            assert(contains_seq(up(expr_vars(*e)[i]), views_of(marks@)[j]));
        } else {
            if expr_marked(*e, views_of(marks@)) {
                let (i, j) = choose|i: int, j: int|
                    0 <= i < expr_vars(*e).len() && 0 <= j < views_of(marks@).len() && contains_seq(
                        up(expr_vars(*e)[i]),
                        views_of(marks@)[j],
                    );
                assert(contains_seq(up(names@[i]@), marks@[j]@));
            }
        }
    }
    r
}

} // verus!
