//! The taint/guard analysis engine.
//!
//! A generic forward traversal of a statement list that threads a taint set
//! (upper-cased names currently carrying unsanitized sensitive data) and a
//! guard context (the conditions of all enclosing IF branches on the current
//! path), asking rule-supplied predicates at each assignment and call site.
//! Branch joins merge taint sets by set union: a variable is tainted
//! downstream if it was tainted on either path.
//!
//! Each flow-sensitive rule of the catalog is one [`TaintRule`]
//! configuration: a source predicate (name markers), a sink predicate, an
//! optional keyword fallback for sanitizers, and an emission mode.

use vstd::prelude::*;
use vstd::string::StringExecFns;
use crate::ast::{
    collect_vars, expr_vars, BinOp, Expression, Function, Statement, Variable, views_of,
};
use crate::rules::report::{vio_views, VioV, Violation};
use crate::rules::utils::{
    comment_views, expr_text, expr_text_spec, has_annotation_above, AnalysisContext,
};
use crate::text::{
    contains_seq, ends_with_seq, str_contains_up, str_ends_with_up, str_eq_up, to_upper, up,
};

verus! {

/// What a rule reports: missing sanitization, or sanitization that is
/// annotated but never acted on.
#[derive(Debug, Clone, Copy, PartialEq, Eq, Structural)]
pub enum Mode {
    /// Report a sensitive value reaching a sink with no sanitization at all.
    Presence,
    /// Report a sensitive value whose annotation is not enforced by any
    /// flag-gated guard before the sink.
    Enforcement,
}

/// The sink predicate of a rule: which writes or call arguments are
/// security-sensitive.
#[derive(Debug)]
pub enum SinkSpec {
    /// Assignment targets whose upper-cased name contains one of the markers.
    TargetContains(Vec<String>),
    /// Every assignment target.
    AnyTarget,
    /// Arguments of calls whose upper-cased callee name contains one of the
    /// markers; the modeled dialects pass presets positionally, so every
    /// argument of such a call counts.
    CallNameContains(Vec<String>),
}

/// One flow-sensitive rule, expressed as data for the engine.
#[derive(Debug)]
pub struct TaintRule {
    /// Upper-cased markers of untrusted origins (HMI, recipe, ...).
    pub sources: Vec<String>,
    /// Which writes/arguments are sinks.
    pub sink: SinkSpec,
    /// Upper-cased keywords accepted in guard text as a documented fallback
    /// sanitizer for helper predicates the structural walk does not see.
    pub san_keywords: Vec<String>,
    /// Emission mode.
    pub mode: Mode,
}

/// The mathematical view of a sink predicate.
pub enum SinkV {
    TargetContains(Seq<Seq<char>>),
    AnyTarget,
    CallNameContains(Seq<Seq<char>>),
}

impl View for SinkSpec {
    type V = SinkV;

    open spec fn view(&self) -> SinkV {
        match self {
            SinkSpec::TargetContains(marks) => SinkV::TargetContains(views_of(marks@)),
            SinkSpec::AnyTarget => SinkV::AnyTarget,
            SinkSpec::CallNameContains(marks) => SinkV::CallNameContains(views_of(marks@)),
        }
    }
}

/// The mathematical view of a rule configuration.
pub struct CfgV {
    pub sources: Seq<Seq<char>>,
    pub sink: SinkV,
    pub san_keywords: Seq<Seq<char>>,
    pub mode: Mode,
}

impl View for TaintRule {
    type V = CfgV;

    open spec fn view(&self) -> CfgV {
        CfgV {
            sources: views_of(self.sources@),
            sink: self.sink@,
            san_keywords: views_of(self.san_keywords@),
            mode: self.mode,
        }
    }
}

/// One engine finding: the line, the sink name, and the canonical text of
/// the offending value.
#[derive(Debug)]
pub struct TaintHit {
    pub line: usize,
    pub sink: String,
    pub value_text: String,
}

/// The mathematical view of a finding.
pub struct HitV {
    pub line: int,
    pub sink: Seq<char>,
    pub value_text: Seq<char>,
}

impl View for TaintHit {
    type V = HitV;

    open spec fn view(&self) -> HitV {
        HitV { line: self.line as int, sink: self.sink@, value_text: self.value_text@ }
    }
}

/// The views of a list of findings.
pub open spec fn hit_views(v: Seq<TaintHit>) -> Seq<HitV> {
    v.map_values(|x: TaintHit| x@)
}

/// The set of names a taint vector holds (the engine keeps them
/// upper-cased).
pub open spec fn name_set(v: Seq<String>) -> Set<Seq<char>> {
    Set::new(|x: Seq<char>| exists|i: int| 0 <= i < v.len() && v[i]@ == x)
}

/// The guard expressions a guard-context vector holds.
pub open spec fn guard_views(g: Seq<&Expression>) -> Seq<Expression> {
    g.map_values(|e: &Expression| *e)
}

/// The engine state at one program point: the taint set and the findings
/// emitted so far.
pub struct EngState {
    pub taint: Set<Seq<char>>,
    pub hits: Seq<HitV>,
}

/// Is this name an untrusted origin under the rule's source markers?
pub open spec fn name_is_source(cfg: CfgV, name: Seq<char>) -> bool {
    exists|j: int| 0 <= j < cfg.sources.len() && contains_seq(up(name), cfg.sources[j])
}

/// Does the right-hand side carry sensitive data: some variable in it is a
/// source, or is currently in the taint set?
pub open spec fn rhs_tainted(cfg: CfgV, taint: Set<Seq<char>>, e: Expression) -> bool {
    exists|i: int|
        0 <= i < expr_vars(e).len() && (name_is_source(cfg, expr_vars(e)[i]) || taint.contains(
            up(expr_vars(e)[i]),
        ))
}

/// A comparison that confines the variable from above: `var < lit`,
/// `var <= lit`, `var = lit`, or the literal-first mirror images.  A lower
/// bound alone (`var > lit`) does not confine the magnitude a sink receives
/// and therefore does not count as range-constraining.
pub open spec fn cmp_constrains(op: BinOp, left: Expression, right: Expression, var_up: Seq<
    char,
>) -> bool {
    ||| (up(expr_text_spec(left)) == var_up && right is NumberLiteral && (op == BinOp::Lt || op
        == BinOp::Le || op == BinOp::Eq))
    ||| (up(expr_text_spec(right)) == var_up && left is NumberLiteral && (op == BinOp::Gt || op
        == BinOp::Ge || op == BinOp::Eq))
}

/// Does the guard range-constrain the (upper-cased) variable: is it, or any
/// sub-term of it, a confining comparison between the variable and a
/// literal?  This is the structural guard-constraint predicate.
pub open spec fn guard_constrains(g: Expression, var_up: Seq<char>) -> bool
    decreases g,
{
    match g {
        Expression::BinaryOp { op, left, right, .. } => {
            ||| cmp_constrains(op, *left, *right, var_up)
            ||| guard_constrains(*left, var_up)
            ||| guard_constrains(*right, var_up)
        },
        Expression::UnaryOp { expr, .. } => guard_constrains(*expr, var_up),
        _ => false,
    }
}

/// Checks whether a guard expression places a range constraint on the
/// given variable name (expected upper-cased, as the engine stores names).
pub fn is_var_constrained(var_name: &str, g: &Expression) -> (r: bool)
    ensures
        r == guard_constrains(*g, var_name@),
    decreases *g,
{
    match g {
        Expression::BinaryOp { op, left, right, .. } => {
            let direct = match op {
                BinOp::Lt | BinOp::Le | BinOp::Eq => {
                    let lt = expr_text(left);
                    let is_lit = matches!(**right, Expression::NumberLiteral(..));
                    str_eq_up(lt.as_str(), var_name) && is_lit
                },
                _ => false,
            };
            let direct2 = match op {
                BinOp::Gt | BinOp::Ge | BinOp::Eq => {
                    let rt = expr_text(right);
                    let is_lit = matches!(**left, Expression::NumberLiteral(..));
                    str_eq_up(rt.as_str(), var_name) && is_lit
                },
                _ => false,
            };
            if direct || direct2 {
                assert(cmp_constrains(*op, **left, **right, var_name@));
                return true;
            }
            assert(!cmp_constrains(*op, **left, **right, var_name@));
            is_var_constrained(var_name, left) || is_var_constrained(var_name, right)
        },
        Expression::UnaryOp { expr, .. } => is_var_constrained(var_name, expr),
        _ => false,
    }
}

/// Some enclosing guard range-constrains some variable of `e`.
pub open spec fn guard_range_ok(guards: Seq<Expression>, e: Expression) -> bool {
    exists|g: int, i: int|
        0 <= g < guards.len() && 0 <= i < expr_vars(e).len() && guard_constrains(
            guards[g],
            up(expr_vars(e)[i]),
        )
}

/// Some enclosing guard's canonical text contains one of the rule's
/// sanitizer keywords.
pub open spec fn guard_keyword_ok(cfg: CfgV, guards: Seq<Expression>) -> bool {
    exists|g: int, k: int|
        0 <= g < guards.len() && 0 <= k < cfg.san_keywords.len() && contains_seq(
            up(expr_text_spec(guards[g])),
            cfg.san_keywords[k],
        )
}

/// The full sanitization test at a use site: a nearby annotation, a
/// range-constraining guard, or a keyword fallback.
pub open spec fn sanitized_spec(
    cfg: CfgV,
    ann: Seq<(int, Seq<char>)>,
    guards: Seq<Expression>,
    e: Expression,
    line: int,
) -> bool {
    ||| has_annotation_above(ann, line, 3)
    ||| guard_range_ok(guards, e)
    ||| guard_keyword_ok(cfg, guards)
}

/// A guard that is a bare validation flag (`...OK`, `...VALID`,
/// `...AUTHORIZED...`), gating the use of an annotated value.
pub open spec fn guard_is_flag(g: Expression) -> bool {
    match g {
        Expression::VariableRef(name) => {
            ||| ends_with_seq(up(name@), "OK"@)
            ||| ends_with_seq(up(name@), "VALID"@)
            ||| contains_seq(up(name@), "AUTHORIZED"@)
        },
        _ => false,
    }
}

/// Some enclosing guard is a validation flag.
pub open spec fn flag_gated(guards: Seq<Expression>) -> bool {
    exists|g: int| 0 <= g < guards.len() && guard_is_flag(guards[g])
}

/// Is the assignment target a sink under this rule?
pub open spec fn assign_sink(cfg: CfgV, target: Seq<char>) -> bool {
    match cfg.sink {
        SinkV::TargetContains(marks) => exists|j: int|
            0 <= j < marks.len() && contains_seq(up(target), marks[j]),
        SinkV::AnyTarget => true,
        SinkV::CallNameContains(_) => false,
    }
}

/// Is the called routine a sink under this rule?
pub open spec fn call_sink(cfg: CfgV, name: Seq<char>) -> bool {
    match cfg.sink {
        SinkV::CallNameContains(marks) => exists|j: int|
            0 <= j < marks.len() && contains_seq(up(name), marks[j]),
        _ => false,
    }
}

/// Should a finding be emitted for the value `e` flowing into a sink at
/// `line`?  Presence mode reports taint with no sanitization; enforcement
/// mode reports an annotated value that no flag-gated guard acts on.
pub open spec fn emits(
    cfg: CfgV,
    ann: Seq<(int, Seq<char>)>,
    guards: Seq<Expression>,
    taint: Set<Seq<char>>,
    e: Expression,
    line: int,
) -> bool {
    let tainted = rhs_tainted(cfg, taint, e);
    match cfg.mode {
        Mode::Presence => tainted && !sanitized_spec(cfg, ann, guards, e, line),
        Mode::Enforcement => tainted && has_annotation_above(ann, line, 3)
            && !guard_range_ok(guards, e) && !flag_gated(guards) && !has_annotation_above(ann, line, 1),
    }
}

/// Pushing a string onto a vector adds exactly its view to the name set.
proof fn lemma_name_set_push(pre: Seq<String>, item: String)
    ensures
        name_set(pre.push(item)) == name_set(pre).insert(item@),
{
    assert forall|x: Seq<char>| name_set(pre.push(item)).contains(x) implies name_set(
        pre,
    ).insert(item@).contains(x) by {
        let k = choose|k: int| 0 <= k < pre.push(item).len() && pre.push(item)[k]@ == x;
        if k < pre.len() {
            assert(pre[k]@ == x);
            assert(name_set(pre).contains(x));
        } else {
            assert(x == item@);
        }
    }
    assert forall|x: Seq<char>| name_set(pre).insert(item@).contains(x) implies name_set(
        pre.push(item),
    ).contains(x) by {
        if x == item@ {
            assert(pre.push(item)[pre.len() as int]@ == x);
        } else {
            let k = choose|k: int| 0 <= k < pre.len() && pre[k]@ == x;
            assert(pre.push(item)[k]@ == x);
        }
    }
    assert(name_set(pre.push(item)) =~= name_set(pre).insert(item@));
}

/// Extending a prefix by one element adds exactly that element's view.
proof fn lemma_name_set_take_step(v: Seq<String>, i: int)
    requires
        0 <= i < v.len(),
    ensures
        name_set(v.take(i + 1)) == name_set(v.take(i)).insert(v[i]@),
{
    assert(v.take(i + 1) =~= v.take(i).push(v[i]));
    lemma_name_set_push(v.take(i), v[i]);
}

/// The name set of a whole vector is the name set of its full prefix.
proof fn lemma_name_set_full(v: Seq<String>)
    ensures
        name_set(v.take(v.len() as int)) == name_set(v),
{
    assert(v.take(v.len() as int) =~= v);
}

/// Is the (upper-cased) name in the taint vector?
pub fn taint_contains(taint: &Vec<String>, name_up: &String) -> (r: bool)
    ensures
        r == name_set(taint@).contains(name_up@),
{
    let n = taint.len();
    let mut i: usize = 0;
    while i < n
        invariant
            n == taint@.len(),
            i <= n,
            forall|k: int| 0 <= k < i ==> taint@[k]@ != name_up@,
        decreases n - i,
    {
        if taint[i] == *name_up {
            return true;
        }
        i += 1;
    }
    false
}

/// Add an (upper-cased) name to the taint vector.
pub fn taint_insert(taint: &mut Vec<String>, name_up: String)
    ensures
        name_set(final(taint)@) == name_set(old(taint)@).insert(name_up@),
{
    if !taint_contains(taint, &name_up) {
        let ghost pre = taint@;
        proof {
            lemma_name_set_push(pre, name_up);
        }
        taint.push(name_up);
    } else {
        assert(name_set(taint@) =~= name_set(taint@).insert(name_up@));
    }
}

/// Remove every occurrence of the (upper-cased) name from the taint vector.
pub fn taint_remove(taint: &mut Vec<String>, name_up: &String)
    ensures
        name_set(final(taint)@) == name_set(old(taint)@).remove(name_up@),
{
    let n = taint.len();
    let mut out: Vec<String> = Vec::new();
    let mut i: usize = 0;
    while i < n
        invariant
            n == old(taint)@.len(),
            taint@ == old(taint)@,
            i <= n,
            name_set(out@) == name_set(old(taint)@.take(i as int)).remove(name_up@),
        decreases n - i,
    {
        let keep = !(taint[i] == *name_up);
        proof {
            lemma_name_set_take_step(old(taint)@, i as int);
        }
        if keep {
            let ghost pre = out@;
            let item = taint[i].clone();
            proof {
                lemma_name_set_push(pre, item);
            }
            out.push(item);
            assert(name_set(out@) =~= name_set(old(taint)@.take(i + 1)).remove(name_up@));
        } else {
            assert(name_set(out@) =~= name_set(old(taint)@.take(i + 1)).remove(name_up@));
        }
        i += 1;
    }
    proof {
        lemma_name_set_full(old(taint)@);
    }
    *taint = out;
}

/// Copy a taint vector (branches are analyzed from copies of the state).
pub fn clone_names(v: &Vec<String>) -> (r: Vec<String>)
    ensures
        r@ == v@,
{
    let n = v.len();
    let mut out: Vec<String> = Vec::new();
    let mut i: usize = 0;
    while i < n
        invariant
            n == v@.len(),
            i <= n,
            out@ =~= v@.take(i as int),
        decreases n - i,
    {
        out.push(v[i].clone());
        assert(out@ =~= v@.take((i + 1) as int));
        i += 1;
    }
    assert(v@.take(n as int) =~= v@);
    out
}

/// The union of two taint vectors: the branch-join merge.
pub fn taint_union(a: Vec<String>, b: &Vec<String>) -> (r: Vec<String>)
    ensures
        name_set(r@) == name_set(a@).union(name_set(b@)),
{
    let n = b.len();
    let mut out = a;
    let mut i: usize = 0;
    while i < n
        invariant
            n == b@.len(),
            i <= n,
            name_set(out@) == name_set(a@).union(name_set(b@.take(i as int))),
        decreases n - i,
    {
        proof {
            lemma_name_set_take_step(b@, i as int);
        }
        let item = b[i].clone();
        taint_insert(&mut out, item);
        assert(name_set(out@) =~= name_set(a@).union(name_set(b@.take(i + 1))));
        i += 1;
    }
    proof {
        lemma_name_set_full(b@);
    }
    assert(name_set(out@) =~= name_set(a@).union(name_set(b@)));
    out
}

/// The findings of one call statement's argument list, in order.
pub open spec fn call_arg_hits(
    cfg: CfgV,
    ann: Seq<(int, Seq<char>)>,
    guards: Seq<Expression>,
    taint: Set<Seq<char>>,
    name: Seq<char>,
    args: Seq<(String, Expression)>,
    line: int,
) -> Seq<HitV>
    decreases args,
{
    if args.len() == 0 {
        Seq::empty()
    } else {
        call_arg_hits(cfg, ann, guards, taint, name, args.drop_last(), line) + (
        if call_sink(cfg, name) && emits(cfg, ann, guards, taint, args.last().1, line) {
            seq![
                HitV { line: line, sink: name, value_text: expr_text_spec(args.last().1) },
            ]
        } else {
            Seq::empty()
        })
    }
}

/// The findings of one nested call's (positional) argument list.
pub open spec fn nested_call_hits(
    cfg: CfgV,
    ann: Seq<(int, Seq<char>)>,
    guards: Seq<Expression>,
    taint: Set<Seq<char>>,
    name: Seq<char>,
    args: Seq<Expression>,
    line: int,
) -> Seq<HitV>
    decreases args,
{
    if args.len() == 0 {
        Seq::empty()
    } else {
        nested_call_hits(cfg, ann, guards, taint, name, args.drop_last(), line) + (
        if call_sink(cfg, name) && emits(cfg, ann, guards, taint, args.last(), line) {
            seq![HitV { line: line, sink: name, value_text: expr_text_spec(args.last()) }]
        } else {
            Seq::empty()
        })
    }
}

/// The findings of the calls nested anywhere inside a bare expression
/// statement: each call's own arguments are checked, then its arguments
/// are descended into.
pub open spec fn expr_stmt_hits(
    cfg: CfgV,
    ann: Seq<(int, Seq<char>)>,
    guards: Seq<Expression>,
    taint: Set<Seq<char>>,
    e: Expression,
    line: int,
) -> Seq<HitV>
    decreases e,
{
    match e {
        Expression::UnaryOp { expr, .. } => expr_stmt_hits(cfg, ann, guards, taint, *expr, line),
        Expression::BinaryOp { left, right, .. } => expr_stmt_hits(cfg, ann, guards, taint, *left, line)
            + expr_stmt_hits(cfg, ann, guards, taint, *right, line),
        Expression::Index { base, index, .. } => expr_stmt_hits(cfg, ann, guards, taint, *base, line)
            + expr_stmt_hits(cfg, ann, guards, taint, *index, line),
        Expression::FuncCall { name, args, .. } => nested_call_hits(
            cfg,
            ann,
            guards,
            taint,
            name@,
            args@,
            line,
        ) + exprs_stmt_hits(cfg, ann, guards, taint, args@, line),
        _ => Seq::empty(),
    }
}

/// The nested-call findings of a list of expressions.
pub open spec fn exprs_stmt_hits(
    cfg: CfgV,
    ann: Seq<(int, Seq<char>)>,
    guards: Seq<Expression>,
    taint: Set<Seq<char>>,
    es: Seq<Expression>,
    line: int,
) -> Seq<HitV>
    decreases es,
{
    if es.len() == 0 {
        Seq::empty()
    } else {
        exprs_stmt_hits(cfg, ann, guards, taint, es.drop_last(), line) + expr_stmt_hits(
            cfg,
            ann,
            guards,
            taint,
            es.last(),
            line,
        )
    }
}

/// The engine's transfer function for one statement.
pub open spec fn step_s(
    cfg: CfgV,
    ann: Seq<(int, Seq<char>)>,
    guards: Seq<Expression>,
    st: EngState,
    s: Statement,
) -> EngState
    decreases s,
{
    match s {
        Statement::Assign { target, value, line } => {
            let tainted = rhs_tainted(cfg, st.taint, value);
            let san = sanitized_spec(cfg, ann, guards, value, line as int);
            let t2 = if tainted && !san {
                st.taint.insert(up(target.name@))
            } else {
                st.taint.remove(up(target.name@))
            };
            let h2 = if assign_sink(cfg, target.name@) && emits(
                cfg,
                ann,
                guards,
                st.taint,
                value,
                line as int,
            ) {
                st.hits.push(
                    HitV {
                        line: line as int,
                        sink: target.name@,
                        value_text: expr_text_spec(value),
                    },
                )
            } else {
                st.hits
            };
            EngState { taint: t2, hits: h2 }
        },
        Statement::Call { name, args, line } => EngState {
            taint: st.taint,
            hits: st.hits + call_arg_hits(cfg, ann, guards, st.taint, name@, args@, line as int),
        },
        Statement::Expr { expr, line } => EngState {
            taint: st.taint,
            hits: st.hits + expr_stmt_hits(cfg, ann, guards, st.taint, expr, line as int),
        },
        Statement::Comment { .. } => st,
        Statement::IfStmt { condition, then_branch, else_branch, .. } => {
            let a = walk_s(
                cfg,
                ann,
                guards.push(condition),
                then_branch@,
                EngState { taint: st.taint, hits: st.hits },
            );
            let b = walk_s(
                cfg,
                ann,
                guards,
                else_branch@,
                EngState { taint: st.taint, hits: a.hits },
            );
            EngState { taint: a.taint.union(b.taint), hits: b.hits }
        },
        Statement::CaseStmt { cases, else_branch, .. } => {
            let a = arms_walk(cfg, ann, guards, st.taint, cases@, st.hits);
            let b = walk_s(
                cfg,
                ann,
                guards,
                else_branch@,
                EngState { taint: st.taint, hits: a.hits },
            );
            EngState { taint: a.taint.union(b.taint), hits: b.hits }
        },
    }
}

/// Walk the arms of a CASE statement: each arm starts from a copy of the
/// pre-case taint set (arm labels contribute no guard information) and the
/// arms' exit taints are unioned.
pub open spec fn arms_walk(
    cfg: CfgV,
    ann: Seq<(int, Seq<char>)>,
    guards: Seq<Expression>,
    pre: Set<Seq<char>>,
    arms: Seq<(Vec<Expression>, Vec<Statement>)>,
    hits: Seq<HitV>,
) -> EngState
    decreases arms,
{
    if arms.len() == 0 {
        EngState { taint: Set::empty(), hits: hits }
    } else {
        let r = arms_walk(cfg, ann, guards, pre, arms.drop_last(), hits);
        let a = walk_s(cfg, ann, guards, arms.last().1@, EngState { taint: pre, hits: r.hits });
        EngState { taint: r.taint.union(a.taint), hits: a.hits }
    }
}

/// The engine's traversal of a statement list, threading the state from
/// left to right.
pub open spec fn walk_s(
    cfg: CfgV,
    ann: Seq<(int, Seq<char>)>,
    guards: Seq<Expression>,
    stmts: Seq<Statement>,
    st: EngState,
) -> EngState
    decreases stmts,
{
    if stmts.len() == 0 {
        st
    } else {
        step_s(cfg, ann, guards, walk_s(cfg, ann, guards, stmts.drop_last(), st), stmts.last())
    }
}

/// The findings of one routine, analyzed from an empty taint set and an
/// empty guard context.
pub open spec fn function_hits(cfg: CfgV, ann: Seq<(int, Seq<char>)>, f: Function) -> Seq<HitV> {
    walk_s(
        cfg,
        ann,
        Seq::empty(),
        f.statements@,
        EngState { taint: Set::empty(), hits: Seq::empty() },
    ).hits
}

/// The findings of a whole program: each routine analyzed independently,
/// in order.  Taint state never leaks from one routine into another.
pub open spec fn program_hits(cfg: CfgV, ann: Seq<(int, Seq<char>)>, fs: Seq<Function>) -> Seq<
    HitV,
>
    decreases fs,
{
    if fs.len() == 0 {
        Seq::empty()
    } else {
        program_hits(cfg, ann, fs.drop_last()) + function_hits(cfg, ann, fs.last())
    }
}

/// Merge monotonicity at a branch join: after an IF statement, a name is
/// tainted iff it is tainted at the exit of the THEN path or at the exit
/// of the ELSE path — union semantics, never intersection.
pub proof fn lemma_branch_join_union(
    cfg: CfgV,
    ann: Seq<(int, Seq<char>)>,
    guards: Seq<Expression>,
    st: EngState,
    s: Statement,
    v: Seq<char>,
)
    requires
        s is IfStmt,
    ensures
        ({
            let a = walk_s(
                cfg,
                ann,
                guards.push(s->IfStmt_condition),
                s->IfStmt_then_branch@,
                EngState { taint: st.taint, hits: st.hits },
            );
            let b = walk_s(
                cfg,
                ann,
                guards,
                s->IfStmt_else_branch@,
                EngState { taint: st.taint, hits: a.hits },
            );
            step_s(cfg, ann, guards, st, s).taint.contains(v) <==> (a.taint.contains(v)
                || b.taint.contains(v))
        }),
{
}

/// Does the upper-cased name contain one of the rule's source markers?
fn name_is_source_x(cfg: &TaintRule, name: &str) -> (r: bool)
    ensures
        r == name_is_source(cfg@, name@),
{
    let m = cfg.sources.len();
    let mut j: usize = 0;
    while j < m
        invariant
            m == cfg.sources@.len(),
            j <= m,
            forall|k: int| 0 <= k < j ==> !contains_seq(up(name@), cfg@.sources[k]),
        decreases m - j,
    {
        assert(cfg@.sources[j as int] == cfg.sources@[j as int]@);
        if str_contains_up(name, cfg.sources[j].as_str()) {
            return true;
        }
        j += 1;
    }
    false
}

/// Does the value carry sensitive data under the rule and taint set?
fn expr_tainted(cfg: &TaintRule, taint: &Vec<String>, e: &Expression) -> (r: bool)
    ensures
        r == rhs_tainted(cfg@, name_set(taint@), *e),
{
    let mut names: Vec<String> = Vec::new();
    collect_vars(e, &mut names);
    assert(views_of(names@) =~= expr_vars(*e));
    let n = names.len();
    let mut i: usize = 0;
    while i < n
        invariant
            n == names@.len(),
            views_of(names@) == expr_vars(*e),
            i <= n,
            forall|k: int|
                0 <= k < i ==> !(name_is_source(cfg@, names@[k]@) || name_set(taint@).contains(
                    up(names@[k]@),
                )),
        decreases n - i,
    {
        assert(expr_vars(*e)[i as int] == names@[i as int]@);
        if name_is_source_x(cfg, names[i].as_str()) {
            return true;
        }
        let u = to_upper(names[i].as_str());
        if taint_contains(taint, &u) {
            return true;
        }
        i += 1;
    }
    assert(!rhs_tainted(cfg@, name_set(taint@), *e)) by {
        if rhs_tainted(cfg@, name_set(taint@), *e) {
            let k = choose|k: int|
                0 <= k < expr_vars(*e).len() && (name_is_source(cfg@, expr_vars(*e)[k])
                    || name_set(taint@).contains(up(expr_vars(*e)[k])));
            assert(expr_vars(*e)[k] == names@[k]@);
        }
    }
    false
}

/// Does some enclosing guard range-constrain some variable of `e`?
fn guard_range_x(guards: &Vec<&Expression>, e: &Expression) -> (r: bool)
    ensures
        r == guard_range_ok(guard_views(guards@), *e),
{
    let mut names: Vec<String> = Vec::new();
    collect_vars(e, &mut names);
    assert(views_of(names@) =~= expr_vars(*e));
    let gn = guards.len();
    let n = names.len();
    let mut g: usize = 0;
    while g < gn
        invariant
            gn == guards@.len(),
            n == names@.len(),
            views_of(names@) == expr_vars(*e),
            g <= gn,
            forall|a: int, b: int|
                0 <= a < g && 0 <= b < n ==> !guard_constrains(
                    guard_views(guards@)[a],
                    up(names@[b]@),
                ),
        decreases gn - g,
    {
        let mut i: usize = 0;
        while i < n
            invariant
                gn == guards@.len(),
                n == names@.len(),
                views_of(names@) == expr_vars(*e),
                g < gn,
                i <= n,
                forall|a: int, b: int|
                    0 <= a < g && 0 <= b < n ==> !guard_constrains(
                        guard_views(guards@)[a],
                        up(names@[b]@),
                    ),
                forall|b: int|
                    0 <= b < i ==> !guard_constrains(guard_views(guards@)[g as int], up(names@[b]@)),
            decreases n - i,
        {
            let u = to_upper(names[i].as_str());
            if is_var_constrained(u.as_str(), guards[g]) {
                assert(guard_views(guards@)[g as int] == *guards@[g as int]);
                assert(expr_vars(*e)[i as int] == names@[i as int]@);
                return true;
            }
            assert(guard_views(guards@)[g as int] == *guards@[g as int]);
            i += 1;
        }
        g += 1;
    }
    assert(!guard_range_ok(guard_views(guards@), *e)) by {
        if guard_range_ok(guard_views(guards@), *e) {
            let (a, b) = choose|a: int, b: int|
                0 <= a < guard_views(guards@).len() && 0 <= b < expr_vars(*e).len()
                    && guard_constrains(guard_views(guards@)[a], up(expr_vars(*e)[b]));
            assert(expr_vars(*e)[b] == names@[b]@);
        }
    }
    false
}

/// Does some enclosing guard's text contain one of the rule's sanitizer
/// keywords?
fn guard_keyword_x(cfg: &TaintRule, guards: &Vec<&Expression>) -> (r: bool)
    ensures
        r == guard_keyword_ok(cfg@, guard_views(guards@)),
{
    let gn = guards.len();
    let kn = cfg.san_keywords.len();
    let mut g: usize = 0;
    while g < gn
        invariant
            gn == guards@.len(),
            kn == cfg@.san_keywords.len(),
            g <= gn,
            forall|a: int, b: int|
                0 <= a < g && 0 <= b < kn ==> !contains_seq(
                    up(expr_text_spec(guard_views(guards@)[a])),
                    cfg@.san_keywords[b],
                ),
        decreases gn - g,
    {
        let txt = expr_text(guards[g]);
        assert(guard_views(guards@)[g as int] == *guards@[g as int]);
        let mut k: usize = 0;
        while k < kn
            invariant
                gn == guards@.len(),
                kn == cfg@.san_keywords.len(),
                g < gn,
                k <= kn,
                txt@ == expr_text_spec(guard_views(guards@)[g as int]),
                forall|b: int|
                    0 <= b < k ==> !contains_seq(
                        up(expr_text_spec(guard_views(guards@)[g as int])),
                        cfg@.san_keywords[b],
                    ),
            decreases kn - k,
        {
            assert(cfg@.san_keywords[k as int] == cfg.san_keywords@[k as int]@);
            if str_contains_up(txt.as_str(), cfg.san_keywords[k].as_str()) {
                return true;
            }
            k += 1;
        }
        g += 1;
    }
    false
}

/// The full sanitization test at a use site.
fn sanitized_x(
    cfg: &TaintRule,
    ctx: &AnalysisContext,
    guards: &Vec<&Expression>,
    e: &Expression,
    line: usize,
) -> (r: bool)
    ensures
        r == sanitized_spec(cfg@, comment_views(ctx.comments@), guard_views(guards@), *e, line as int),
{
    if ctx.has_plausibility_annotation_above(line, 3) {
        return true;
    }
    if guard_range_x(guards, e) {
        return true;
    }
    guard_keyword_x(cfg, guards)
}

/// Is this guard a bare validation flag?
fn guard_is_flag_x(g: &Expression) -> (r: bool)
    ensures
        r == guard_is_flag(*g),
{
    match g {
        Expression::VariableRef(name) => {
            str_ends_with_up(name.as_str(), "OK") || str_ends_with_up(name.as_str(), "VALID")
                || str_contains_up(name.as_str(), "AUTHORIZED")
        },
        _ => false,
    }
}

/// Is some enclosing guard a validation flag?
fn flag_gated_x(guards: &Vec<&Expression>) -> (r: bool)
    ensures
        r == flag_gated(guard_views(guards@)),
{
    let gn = guards.len();
    let mut g: usize = 0;
    while g < gn
        invariant
            gn == guards@.len(),
            g <= gn,
            forall|a: int| 0 <= a < g ==> !guard_is_flag(guard_views(guards@)[a]),
        decreases gn - g,
    {
        if guard_is_flag_x(guards[g]) {
            assert(guard_views(guards@)[g as int] == *guards@[g as int]);
            return true;
        }
        assert(guard_views(guards@)[g as int] == *guards@[g as int]);
        g += 1;
    }
    false
}

/// Is the assignment target a sink under this rule?
#[verifier::loop_isolation(false)]
fn assign_sink_x(cfg: &TaintRule, target: &str) -> (r: bool)
    ensures
        r == assign_sink(cfg@, target@),
{
    match &cfg.sink {
        SinkSpec::TargetContains(marks) => {
            let m = marks.len();
            let mut j: usize = 0;
            while j < m
                invariant
                    m == marks@.len(),
                    j <= m,
                    forall|k: int| 0 <= k < j ==> !contains_seq(up(target@), marks@[k]@),
                decreases m - j,
            {
                if str_contains_up(target, marks[j].as_str()) {
                    assert(cfg@.sink->TargetContains_0[j as int] == marks@[j as int]@);
                    return true;
                }
                j += 1;
            }
            assert(forall|k: int|
                0 <= k < m ==> cfg@.sink->TargetContains_0[k] == marks@[k]@);
            false
        },
        SinkSpec::AnyTarget => true,
        SinkSpec::CallNameContains(_) => false,
    }
}

/// Is the called routine a sink under this rule?
#[verifier::loop_isolation(false)]
fn call_sink_x(cfg: &TaintRule, name: &str) -> (r: bool)
    ensures
        r == call_sink(cfg@, name@),
{
    match &cfg.sink {
        SinkSpec::CallNameContains(marks) => {
            let m = marks.len();
            let mut j: usize = 0;
            while j < m
                invariant
                    m == marks@.len(),
                    j <= m,
                    forall|k: int| 0 <= k < j ==> !contains_seq(up(name@), marks@[k]@),
                decreases m - j,
            {
                if str_contains_up(name, marks[j].as_str()) {
                    assert(cfg@.sink->CallNameContains_0[j as int] == marks@[j as int]@);
                    return true;
                }
                j += 1;
            }
            assert(forall|k: int|
                0 <= k < m ==> cfg@.sink->CallNameContains_0[k] == marks@[k]@);
            false
        },
        _ => false,
    }
}

/// Should a finding be emitted for value `e` at a sink on `line`?
fn emits_x(
    cfg: &TaintRule,
    ctx: &AnalysisContext,
    guards: &Vec<&Expression>,
    taint: &Vec<String>,
    e: &Expression,
    line: usize,
) -> (r: bool)
    ensures
        r == emits(cfg@, comment_views(ctx.comments@), guard_views(guards@), name_set(taint@), *e, line as int),
{
    let tainted = expr_tainted(cfg, taint, e);
    if !tainted {
        return false;
    }
    match cfg.mode {
        Mode::Presence => !sanitized_x(cfg, ctx, guards, e, line),
        Mode::Enforcement => {
            ctx.has_plausibility_annotation_above(line, 3) && !guard_range_x(guards, e)
                && !flag_gated_x(guards) && !ctx.has_plausibility_annotation_above(line, 1)
        },
    }
}

/// Emit the findings of the calls nested in a bare expression statement.
#[verifier::loop_isolation(false)]
fn scan_expr_hits(
    cfg: &TaintRule,
    ctx: &AnalysisContext,
    guards: &Vec<&Expression>,
    taint: &Vec<String>,
    e: &Expression,
    line: usize,
    out: &mut Vec<TaintHit>,
)
    ensures
        hit_views(final(out)@) == hit_views(old(out)@) + expr_stmt_hits(
            cfg@,
            comment_views(ctx.comments@),
            guard_views(guards@),
            name_set(taint@),
            *e,
            line as int,
        ),
    decreases *e,
{
    let ghost gv = guard_views(guards@);
    let ghost ts = name_set(taint@);
    match e {
        Expression::UnaryOp { expr, .. } => {
            scan_expr_hits(cfg, ctx, guards, taint, expr, line, out);
        },
        Expression::BinaryOp { left, right, .. } => {
            scan_expr_hits(cfg, ctx, guards, taint, left, line, out);
            scan_expr_hits(cfg, ctx, guards, taint, right, line, out);
            assert(hit_views(out@) =~= hit_views(old(out)@) + expr_stmt_hits(
                cfg@,
                comment_views(ctx.comments@),
                gv,
                ts,
                *e,
                line as int,
            ));
        },
        Expression::Index { base, index, .. } => {
            scan_expr_hits(cfg, ctx, guards, taint, base, line, out);
            scan_expr_hits(cfg, ctx, guards, taint, index, line, out);
            assert(hit_views(out@) =~= hit_views(old(out)@) + expr_stmt_hits(
                cfg@,
                comment_views(ctx.comments@),
                gv,
                ts,
                *e,
                line as int,
            ));
        },
        Expression::FuncCall { name, args, .. } => {
            let snk = call_sink_x(cfg, name.as_str());
            let n = args.len();
            let mut i: usize = 0;
            while i < n
                invariant
                    n == args@.len(),
                    i <= n,
                    hit_views(out@) == hit_views(old(out)@) + nested_call_hits(
                        cfg@,
                        comment_views(ctx.comments@),
                        gv,
                        ts,
                        name@,
                        args@.take(i as int),
                        line as int,
                    ),
                decreases n - i,
            {
                assert(args@.take(i + 1).drop_last() =~= args@.take(i as int));
                assert(args@.take(i + 1).last() == args@[i as int]);
                let emit = emits_x(cfg, ctx, guards, taint, &args[i], line);
                if snk && emit {
                    let ghost pre = out@;
                    let h = TaintHit {
                        line: line,
                        sink: name.clone(),
                        value_text: expr_text(&args[i]),
                    };
                    out.push(h);
                    assert(hit_views(out@) =~= hit_views(pre).push(h@));
                }
                assert(hit_views(out@) =~= hit_views(old(out)@) + nested_call_hits(
                    cfg@,
                    comment_views(ctx.comments@),
                    gv,
                    ts,
                    name@,
                    args@.take((i + 1) as int),
                    line as int,
                ));
                i += 1;
            }
            assert(args@.take(n as int) =~= args@);
            let ghost mid = out@;
            let mut j: usize = 0;
            while j < n
                invariant
                    n == args@.len(),
                    j <= n,
                    hit_views(out@) == hit_views(mid) + exprs_stmt_hits(
                        cfg@,
                        comment_views(ctx.comments@),
                        gv,
                        ts,
                        args@.take(j as int),
                        line as int,
                    ),
                decreases n - j,
            {
                assert(args@.take(j + 1).drop_last() =~= args@.take(j as int));
                assert(args@.take(j + 1).last() == args@[j as int]);
                proof {
                    assert(decreases_to!(*e => (*e)->args));
                    assert((*e)->args == *args);
                    assert(decreases_to!(*args => args@));
                    assert(decreases_to!(args@ => args@[j as int]));
                }
                scan_expr_hits(cfg, ctx, guards, taint, &args[j], line, out);
                assert(hit_views(out@) =~= hit_views(mid) + exprs_stmt_hits(
                    cfg@,
                    comment_views(ctx.comments@),
                    gv,
                    ts,
                    args@.take((j + 1) as int),
                    line as int,
                ));
                j += 1;
            }
            assert(args@.take(n as int) =~= args@);
            assert(hit_views(out@) =~= hit_views(old(out)@) + expr_stmt_hits(
                cfg@,
                comment_views(ctx.comments@),
                gv,
                ts,
                *e,
                line as int,
            ));
        },
        _ => {
            assert(hit_views(out@) =~= hit_views(out@) + expr_stmt_hits(
                cfg@,
                comment_views(ctx.comments@),
                gv,
                ts,
                *e,
                line as int,
            ));
        },
    }
}

/// The engine's executable traversal: thread the taint vector through the
/// statements, pushing and popping guards around branches, and appending
/// findings to `out`.  Returns the exit taint vector.
#[verifier::loop_isolation(false)]
fn walk_statements<'a>(
    cfg: &TaintRule,
    ctx: &AnalysisContext,
    stmts: &'a Vec<Statement>,
    taint: Vec<String>,
    guards: &mut Vec<&'a Expression>,
    out: &mut Vec<TaintHit>,
) -> (r: Vec<String>)
    ensures
        final(guards)@ == old(guards)@,
        name_set(r@) == walk_s(
            cfg@,
            comment_views(ctx.comments@),
            guard_views(old(guards)@),
            stmts@,
            EngState { taint: name_set(taint@), hits: hit_views(old(out)@) },
        ).taint,
        hit_views(final(out)@) == walk_s(
            cfg@,
            comment_views(ctx.comments@),
            guard_views(old(guards)@),
            stmts@,
            EngState { taint: name_set(taint@), hits: hit_views(old(out)@) },
        ).hits,
    decreases stmts@,
{
    let ghost gv = guard_views(old(guards)@);
    let ghost st0 = EngState { taint: name_set(taint@), hits: hit_views(old(out)@) };
    let mut cur = taint;
    let n = stmts.len();
    let mut i: usize = 0;
    while i < n
        invariant
            n == stmts@.len(),
            i <= n,
            guards@ == old(guards)@,
            name_set(cur@) == walk_s(cfg@, comment_views(ctx.comments@), gv, stmts@.take(i as int), st0).taint,
            hit_views(out@) == walk_s(cfg@, comment_views(ctx.comments@), gv, stmts@.take(i as int), st0).hits,
        decreases n - i,
    {
        assert(stmts@.take(i + 1).drop_last() =~= stmts@.take(i as int));
        assert(stmts@.take(i + 1).last() == stmts@[i as int]);
        let ghost pre_st = walk_s(cfg@, comment_views(ctx.comments@), gv, stmts@.take(i as int), st0);
        match &stmts[i] {
            Statement::Assign { target, value, line } => {
                let tainted = expr_tainted(cfg, &cur, value);
                let san = sanitized_x(cfg, ctx, guards, value, *line);
                let snk = assign_sink_x(cfg, target.name.as_str());
                let emit = emits_x(cfg, ctx, guards, &cur, value, *line);
                if snk && emit {
                    let ghost pre = out@;
                    let h = TaintHit {
                        line: *line,
                        sink: target.name.clone(),
                        value_text: expr_text(value),
                    };
                    out.push(h);
                    assert(hit_views(out@) =~= hit_views(pre).push(h@));
                }
                let u = to_upper(target.name.as_str());
                if tainted && !san {
                    taint_insert(&mut cur, u);
                } else {
                    taint_remove(&mut cur, &u);
                }
                assert(step_s(cfg@, comment_views(ctx.comments@), gv, pre_st, stmts@[i as int]) == (EngState {
                    taint: name_set(cur@),
                    hits: hit_views(out@),
                }));
            },
            Statement::Call { name, args, line } => {
                let snk = call_sink_x(cfg, name.as_str());
                let an = args.len();
                let mut j: usize = 0;
                while j < an
                    invariant
                        an == args@.len(),
                        j <= an,
                        hit_views(out@) == pre_st.hits + call_arg_hits(
                            cfg@,
                            comment_views(ctx.comments@),
                            gv,
                            pre_st.taint,
                            name@,
                            args@.take(j as int),
                            *line as int,
                        ),
                    decreases an - j,
                {
                    assert(args@.take(j + 1).drop_last() =~= args@.take(j as int));
                    assert(args@.take(j + 1).last() == args@[j as int]);
                    let emit = emits_x(cfg, ctx, guards, &cur, &args[j].1, *line);
                    if snk && emit {
                        let ghost pre = out@;
                        let h = TaintHit {
                            line: *line,
                            sink: name.clone(),
                            value_text: expr_text(&args[j].1),
                        };
                        out.push(h);
                        assert(hit_views(out@) =~= hit_views(pre).push(h@));
                    }
                    assert(hit_views(out@) =~= pre_st.hits + call_arg_hits(
                        cfg@,
                        comment_views(ctx.comments@),
                        gv,
                        pre_st.taint,
                        name@,
                        args@.take((j + 1) as int),
                        *line as int,
                    ));
                    j += 1;
                }
                assert(args@.take(an as int) =~= args@);
                assert(step_s(cfg@, comment_views(ctx.comments@), gv, pre_st, stmts@[i as int]) == (EngState {
                    taint: name_set(cur@),
                    hits: hit_views(out@),
                }));
            },
            Statement::Expr { expr, line } => {
                scan_expr_hits(cfg, ctx, guards, &cur, expr, *line, out);
                assert(step_s(cfg@, comment_views(ctx.comments@), gv, pre_st, stmts@[i as int]) == (EngState {
                    taint: name_set(cur@),
                    hits: hit_views(out@),
                }));
            },
            Statement::Comment { .. } => {
                assert(step_s(cfg@, comment_views(ctx.comments@), gv, pre_st, stmts@[i as int]) == (EngState {
                    taint: name_set(cur@),
                    hits: hit_views(out@),
                }));
            },
            Statement::IfStmt { condition, then_branch, else_branch, .. } => {
                let tcopy = clone_names(&cur);
                guards.push(condition);
                assert(guard_views(guards@) =~= gv.push(*condition));
                proof {
                    assert(decreases_to!(stmts@ => stmts@[i as int]));
                    assert(decreases_to!(stmts@[i as int] => stmts@[i as int]->IfStmt_then_branch));
                    assert(stmts@[i as int]->IfStmt_then_branch == *then_branch);
                    assert(decreases_to!(*then_branch => then_branch@));
                }
                let a = walk_statements(cfg, ctx, then_branch, tcopy, guards, out);
                let ghost a_st = walk_s(
                    cfg@,
                    comment_views(ctx.comments@),
                    gv.push(*condition),
                    then_branch@,
                    EngState { taint: pre_st.taint, hits: pre_st.hits },
                );
                assert(name_set(a@) == a_st.taint && hit_views(out@) == a_st.hits);
                guards.pop();
                assert(guards@ =~= old(guards)@);
                let ecopy = clone_names(&cur);
                proof {
                    assert(decreases_to!(stmts@[i as int] => stmts@[i as int]->IfStmt_else_branch));
                    assert(stmts@[i as int]->IfStmt_else_branch == *else_branch);
                    assert(decreases_to!(*else_branch => else_branch@));
                }
                let b = walk_statements(cfg, ctx, else_branch, ecopy, guards, out);
                let ghost b_st = walk_s(
                    cfg@,
                    comment_views(ctx.comments@),
                    gv,
                    else_branch@,
                    EngState { taint: pre_st.taint, hits: a_st.hits },
                );
                assert(name_set(b@) == b_st.taint && hit_views(out@) == b_st.hits);
                cur = taint_union(a, &b);
                assert(step_s(cfg@, comment_views(ctx.comments@), gv, pre_st, stmts@[i as int]) == (EngState {
                    taint: name_set(cur@),
                    hits: hit_views(out@),
                }));
            },
            Statement::CaseStmt { cases, else_branch, .. } => {
                let cn = cases.len();
                let mut acc: Vec<String> = Vec::new();
                assert(name_set(acc@) =~= Set::<Seq<char>>::empty());
                let mut j: usize = 0;
                while j < cn
                    invariant
                        cn == cases@.len(),
                        j <= cn,
                        guards@ == old(guards)@,
                        name_set(cur@) == pre_st.taint,
                        name_set(acc@) == arms_walk(
                            cfg@,
                            comment_views(ctx.comments@),
                            gv,
                            pre_st.taint,
                            cases@.take(j as int),
                            pre_st.hits,
                        ).taint,
                        hit_views(out@) == arms_walk(
                            cfg@,
                            comment_views(ctx.comments@),
                            gv,
                            pre_st.taint,
                            cases@.take(j as int),
                            pre_st.hits,
                        ).hits,
                    decreases cn - j,
                {
                    assert(cases@.take(j + 1).drop_last() =~= cases@.take(j as int));
                    assert(cases@.take(j + 1).last() == cases@[j as int]);
                    let ccopy = clone_names(&cur);
                    proof {
                        assert(decreases_to!(stmts@ => stmts@[i as int]));
                        assert(decreases_to!(stmts@[i as int] => stmts@[i as int]->CaseStmt_cases));
                        assert(stmts@[i as int]->CaseStmt_cases == *cases);
                        assert(decreases_to!(*cases => cases@));
                        assert(decreases_to!(cases@ => cases@[j as int]));
                        assert(decreases_to!(cases@[j as int] => cases@[j as int].1));
                        assert(decreases_to!(cases@[j as int].1 => cases@[j as int].1@));
                    }
                    let a = walk_statements(cfg, ctx, &cases[j].1, ccopy, guards, out);
                    acc = taint_union(acc, &a);
                    assert(name_set(acc@) == arms_walk(
                        cfg@,
                        comment_views(ctx.comments@),
                        gv,
                        pre_st.taint,
                        cases@.take((j + 1) as int),
                        pre_st.hits,
                    ).taint);
                    assert(hit_views(out@) == arms_walk(
                        cfg@,
                        comment_views(ctx.comments@),
                        gv,
                        pre_st.taint,
                        cases@.take((j + 1) as int),
                        pre_st.hits,
                    ).hits);
                    j += 1;
                }
                assert(cases@.take(cn as int) =~= cases@);
                let ghost arms_st = arms_walk(cfg@, comment_views(ctx.comments@), gv, pre_st.taint, cases@, pre_st.hits);
                let ecopy = clone_names(&cur);
                proof {
                    assert(decreases_to!(stmts@ => stmts@[i as int]));
                    assert(decreases_to!(stmts@[i as int] => stmts@[i as int]->CaseStmt_else_branch));
                    assert(stmts@[i as int]->CaseStmt_else_branch == *else_branch);
                    assert(decreases_to!(*else_branch => else_branch@));
                }
                let b = walk_statements(cfg, ctx, else_branch, ecopy, guards, out);
                cur = taint_union(acc, &b);
                assert(step_s(cfg@, comment_views(ctx.comments@), gv, pre_st, stmts@[i as int]) == (EngState {
                    taint: name_set(cur@),
                    hits: hit_views(out@),
                }));
            },
        }
        assert(walk_s(cfg@, comment_views(ctx.comments@), gv, stmts@.take((i + 1) as int), st0) == (EngState {
            taint: name_set(cur@),
            hits: hit_views(out@),
        }));
        i += 1;
    }
    assert(stmts@.take(n as int) =~= stmts@);
    cur
}

/// Run one taint rule over one routine: a fresh taint set and guard
/// context, findings in program order.
pub fn analyze_function(cfg: &TaintRule, ctx: &AnalysisContext, f: &Function) -> (r: Vec<
    TaintHit,
>)
    ensures
        hit_views(r@) == function_hits(cfg@, comment_views(ctx.comments@), *f),
{
    let mut out: Vec<TaintHit> = Vec::new();
    let mut guards: Vec<&Expression> = Vec::new();
    let taint: Vec<String> = Vec::new();
    assert(name_set(taint@) =~= Set::<Seq<char>>::empty());
    assert(guard_views(guards@) =~= Seq::<Expression>::empty());
    assert(hit_views(out@) =~= Seq::<HitV>::empty());
    let exit = walk_statements(cfg, ctx, &f.statements, taint, &mut guards, &mut out);
    out
}

/// Run one taint rule over every routine of a program, each analyzed
/// independently.
pub fn analyze_program(cfg: &TaintRule, ctx: &AnalysisContext, p: &crate::ast::Program) -> (r:
    Vec<TaintHit>)
    ensures
        hit_views(r@) == program_hits(cfg@, comment_views(ctx.comments@), p.functions@),
{
    let mut out: Vec<TaintHit> = Vec::new();
    let n = p.functions.len();
    let mut i: usize = 0;
    while i < n
        invariant
            n == p.functions@.len(),
            i <= n,
            hit_views(out@) == program_hits(cfg@, comment_views(ctx.comments@), p.functions@.take(i as int)),
        decreases n - i,
    {
        assert(p.functions@.take(i + 1).drop_last() =~= p.functions@.take(i as int));
        assert(p.functions@.take(i + 1).last() == p.functions@[i as int]);
        let mut hits = analyze_function(cfg, ctx, &p.functions[i]);
        let ghost pre = out@;
        let ghost hv = hits@;
        out.append(&mut hits);
        assert(hit_views(out@) =~= hit_views(pre) + hit_views(hv));
        assert(hit_views(out@) =~= program_hits(cfg@, comment_views(ctx.comments@), p.functions@.take((i + 1) as int)));
        i += 1;
    }
    assert(p.functions@.take(n as int) =~= p.functions@);
    out
}

/// Push the given literal as an owned string.
pub fn push_lit(v: &mut Vec<String>, s: &str)
    ensures
        views_of(final(v)@) == views_of(old(v)@).push(s@),
{
    let ghost pre = v@;
    v.push(String::from_str(s));
    assert(views_of(v@) =~= views_of(pre).push(s@));
}

/// The violations a rule derives from the engine's findings, with the
/// reason text `pre VALUE mid SINK suf`.
pub open spec fn hits_vios(
    hits: Seq<HitV>,
    no: int,
    name: Seq<char>,
    pre: Seq<char>,
    mid: Seq<char>,
    suf: Seq<char>,
    sugg: Seq<char>,
) -> Seq<VioV> {
    hits.map_values(
        |h: HitV|
            VioV {
                rule_no: no,
                rule_name: name,
                line: h.line,
                reason: pre + h.value_text + mid + h.sink + suf,
                suggestion: sugg,
            },
    )
}

/// Turn the engine's findings into violations, naming the offending value
/// and the sink in each reason.
pub fn hits_to_violations(
    hits: &Vec<TaintHit>,
    rule_no: u64,
    rule_name: &str,
    pre: &str,
    mid: &str,
    suf: &str,
    sugg: &str,
) -> (r: Vec<Violation>)
    ensures
        vio_views(r@) == hits_vios(
            hit_views(hits@),
            rule_no as int,
            rule_name@,
            pre@,
            mid@,
            suf@,
            sugg@,
        ),
{
    let n = hits.len();
    let mut out: Vec<Violation> = Vec::new();
    let mut i: usize = 0;
    while i < n
        invariant
            n == hits@.len(),
            i <= n,
            vio_views(out@) =~= hits_vios(
                hit_views(hits@),
                rule_no as int,
                rule_name@,
                pre@,
                mid@,
                suf@,
                sugg@,
            ).take(i as int),
        decreases n - i,
    {
        let mut reason = String::from_str(pre);
        reason.append(hits[i].value_text.as_str());
        reason.append(mid);
        reason.append(hits[i].sink.as_str());
        reason.append(suf);
        let ghost prev = out@;
        let v = Violation {
            rule_no: rule_no,
            rule_name: String::from_str(rule_name),
            line: hits[i].line,
            reason: reason,
            suggestion: String::from_str(sugg),
        };
        out.push(v);
        assert(vio_views(out@) =~= vio_views(prev).push(v@));
        assert(vio_views(out@) =~= hits_vios(
            hit_views(hits@),
            rule_no as int,
            rule_name@,
            pre@,
            mid@,
            suf@,
            sugg@,
        ).take((i + 1) as int));
        i += 1;
    }
    assert(vio_views(out@) =~= hits_vios(
        hit_views(hits@),
        rule_no as int,
        rule_name@,
        pre@,
        mid@,
        suf@,
        sugg@,
    ));
    out
}

} // verus!
