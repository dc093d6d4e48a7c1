//! Trap false alerts: every Critical_Alert_* signal must come with both a
//! *_False_Negative and a *_False_Positive companion, and both must be
//! wired into the routine's logic.

use vstd::prelude::*;
use vstd::string::StringExecFns;
use crate::ast::{Expression, Function, Program, Statement};
use crate::rules::report::{outcome_for, vio_views, OutcomeV, RuleOutcome, VioV, Violation};
use crate::rules::utils::{comment_views, expr_text, expr_text_spec};
use crate::text::{
    contains_seq, ends_with_seq, starts_with_seq, str_contains, str_ends_with, str_eq,
    str_starts_with,
};

verus! {

/// The (line, name) records of assignment targets and call names, in
/// traversal order.
pub open spec fn rec_stmt(s: Statement) -> Seq<(int, Seq<char>)>
    decreases s,
{
    match s {
        Statement::Assign { target, line, .. } => seq![(line as int, target.name@)],
        Statement::Call { name, line, .. } => seq![(line as int, name@)],
        Statement::IfStmt { then_branch, else_branch, .. } => rec_stmts(then_branch@) + rec_stmts(
            else_branch@,
        ),
        Statement::CaseStmt { cases, else_branch, .. } => rec_arms(cases@) + rec_stmts(
            else_branch@,
        ),
        _ => Seq::empty(),
    }
}

/// The records of the arms of a CASE statement.
pub open spec fn rec_arms(arms: Seq<(Vec<Expression>, Vec<Statement>)>) -> Seq<(int, Seq<char>)>
    decreases arms,
{
    if arms.len() == 0 {
        Seq::empty()
    } else {
        rec_arms(arms.drop_last()) + rec_stmts(arms.last().1@)
    }
}

/// The records of a statement list.
pub open spec fn rec_stmts(ss: Seq<Statement>) -> Seq<(int, Seq<char>)>
    decreases ss,
{
    if ss.len() == 0 {
        Seq::empty()
    } else {
        rec_stmts(ss.drop_last()) + rec_stmt(ss.last())
    }
}

/// Is the signal used anywhere in one statement: assigned, mentioned in
/// an expression's text, in a condition or a CASE label, or called?
pub open spec fn used_stmt(s: Statement, sig: Seq<char>) -> bool
    decreases s,
{
    match s {
        Statement::Assign { target, value, .. } => target.name@ == sig || contains_seq(
            expr_text_spec(value),
            sig,
        ),
        Statement::IfStmt { condition, then_branch, else_branch, .. } => contains_seq(
            expr_text_spec(condition),
            sig,
        ) || used_stmts(then_branch@, sig) || used_stmts(else_branch@, sig),
        Statement::CaseStmt { cases, else_branch, .. } => used_arms(cases@, sig) || used_stmts(
            else_branch@,
            sig,
        ),
        Statement::Call { name, .. } => name@ == sig,
        _ => false,
    }
}

/// Signal use in the arms (labels and bodies) of a CASE statement.
pub open spec fn used_arms(arms: Seq<(Vec<Expression>, Vec<Statement>)>, sig: Seq<char>) -> bool
    decreases arms,
{
    if arms.len() == 0 {
        false
    } else {
        ||| used_arms(arms.drop_last(), sig)
        ||| used_labels(arms.last().0@, sig)
        ||| used_stmts(arms.last().1@, sig)
    }
}

/// Signal use in a list of label expressions.
pub open spec fn used_labels(es: Seq<Expression>, sig: Seq<char>) -> bool
    decreases es,
{
    if es.len() == 0 {
        false
    } else {
        used_labels(es.drop_last(), sig) || contains_seq(expr_text_spec(es.last()), sig)
    }
}

/// Signal use anywhere in a statement list.
pub open spec fn used_stmts(ss: Seq<Statement>, sig: Seq<char>) -> bool
    decreases ss,
{
    if ss.len() == 0 {
        false
    } else {
        used_stmts(ss.drop_last(), sig) || used_stmt(ss.last(), sig)
    }
}

/// Does the name list hold the given name?
pub open spec fn names_have(recs: Seq<(int, Seq<char>)>, x: Seq<char>) -> bool {
    exists|i: int| 0 <= i < recs.len() && recs[i].1 == x
}

/// Is this record the base Critical_Alert signal (not itself a trap
/// variable)?
pub open spec fn is_base_alert(name: Seq<char>) -> bool {
    &&& starts_with_seq(name, "Critical_Alert_"@)
    &&& !ends_with_seq(name, "_False_Negative"@)
    &&& !ends_with_seq(name, "_False_Positive"@)
}

/// The violation for one untrapped alert signal.
pub open spec fn r20_vio(name: Seq<char>, line: int) -> VioV {
    VioV {
        rule_no: 20,
        rule_name: "Trap false alerts"@,
        line: line,
        reason: "Missing or unused trap variables for '"@ + name + "'"@,
        suggestion: "Define and wire both *_False_Negative and *_False_Positive signals into logic/logs."@,
    }
}

/// Is the alert at this record fully trapped: both companions exist among
/// the routine's names and both are used in its logic?
pub open spec fn trapped(ss: Seq<Statement>, recs: Seq<(int, Seq<char>)>, name: Seq<char>) -> bool {
    &&& names_have(recs, name + "_False_Negative"@)
    &&& names_have(recs, name + "_False_Positive"@)
    &&& used_stmts(ss, name + "_False_Negative"@)
    &&& used_stmts(ss, name + "_False_Positive"@)
}

/// The violations over a prefix of the record list.
pub open spec fn r20_recs_vios(
    ss: Seq<Statement>,
    all: Seq<(int, Seq<char>)>,
    recs: Seq<(int, Seq<char>)>,
) -> Seq<VioV>
    decreases recs,
{
    if recs.len() == 0 {
        Seq::empty()
    } else {
        r20_recs_vios(ss, all, recs.drop_last()) + (
        if is_base_alert(recs.last().1) && !trapped(ss, all, recs.last().1) {
            seq![r20_vio(recs.last().1, recs.last().0)]
        } else {
            Seq::empty()
        })
    }
}

/// The violations of one routine.
pub open spec fn r20_fn_vios(f: Function) -> Seq<VioV> {
    r20_recs_vios(f.statements@, rec_stmts(f.statements@), rec_stmts(f.statements@))
}

/// The violations of a program.
pub open spec fn r20_vios(fs: Seq<Function>) -> Seq<VioV>
    decreases fs,
{
    if fs.len() == 0 {
        Seq::empty()
    } else {
        r20_vios(fs.drop_last()) + r20_fn_vios(fs.last())
    }
}

/// The rule outcome on a program.
pub open spec fn r20_outcome(p: Program) -> OutcomeV {
    outcome_for(20, "Trap false alerts"@, r20_vios(p.functions@))
}

/// Collect the (line, name) records of a statement list.
#[verifier::loop_isolation(false)]
pub fn collect_names(ss: &Vec<Statement>, out: &mut Vec<(usize, String)>)
    ensures
        comment_views(final(out)@) == comment_views(old(out)@) + rec_stmts(ss@),
    decreases ss@,
{
    let n = ss.len();
    let mut i: usize = 0;
    while i < n
        invariant
            n == ss@.len(),
            i <= n,
            comment_views(out@) == comment_views(old(out)@) + rec_stmts(ss@.take(i as int)),
        decreases n - i,
    {
        assert(ss@.take(i + 1).drop_last() =~= ss@.take(i as int));
        assert(ss@.take(i + 1).last() == ss@[i as int]);
        proof {
            assert(rec_stmts(ss@.take((i + 1) as int)) == rec_stmts(ss@.take(i as int)) + rec_stmt(
                ss@[i as int],
            ));
        }
        match &ss[i] {
            Statement::Assign { target, line, .. } => {
                let ghost prev = out@;
                out.push((*line, target.name.clone()));
                assert(comment_views(out@) =~= comment_views(prev).push(
                    (*line as int, target.name@),
                ));
                assert(comment_views(out@) =~= comment_views(old(out)@) + rec_stmts(
                    ss@.take((i + 1) as int),
                ));
            },
            Statement::Call { name, line, .. } => {
                let ghost prev = out@;
                out.push((*line, name.clone()));
                assert(comment_views(out@) =~= comment_views(prev).push((*line as int, name@)));
                assert(comment_views(out@) =~= comment_views(old(out)@) + rec_stmts(
                    ss@.take((i + 1) as int),
                ));
            },
            Statement::IfStmt { then_branch, else_branch, .. } => {
                proof {
                    assert(decreases_to!(ss@ => ss@[i as int]));
                    assert(decreases_to!(ss@[i as int] => ss@[i as int]->IfStmt_then_branch));
                    assert(ss@[i as int]->IfStmt_then_branch == *then_branch);
                    assert(decreases_to!(*then_branch => then_branch@));
                    assert(decreases_to!(ss@[i as int] => ss@[i as int]->IfStmt_else_branch));
                    assert(ss@[i as int]->IfStmt_else_branch == *else_branch);
                    assert(decreases_to!(*else_branch => else_branch@));
                }
                collect_names(then_branch, out);
                collect_names(else_branch, out);
                assert(comment_views(out@) =~= comment_views(old(out)@) + rec_stmts(
                    ss@.take((i + 1) as int),
                ));
            },
            Statement::CaseStmt { cases, else_branch, .. } => {
                let cn = cases.len();
                let mut j: usize = 0;
                while j < cn
                    invariant
                        cn == cases@.len(),
                        j <= cn,
                        comment_views(out@) == comment_views(old(out)@) + rec_stmts(
                            ss@.take(i as int),
                        ) + rec_arms(cases@.take(j as int)),
                    decreases cn - j,
                {
                    assert(cases@.take(j + 1).drop_last() =~= cases@.take(j as int));
                    assert(cases@.take(j + 1).last() == cases@[j as int]);
                    proof {
                        assert(decreases_to!(ss@ => ss@[i as int]));
                        assert(decreases_to!(ss@[i as int] => ss@[i as int]->CaseStmt_cases));
                        assert(ss@[i as int]->CaseStmt_cases == *cases);
                        assert(decreases_to!(*cases => cases@));
                        assert(decreases_to!(cases@ => cases@[j as int]));
                        assert(decreases_to!(cases@[j as int] => cases@[j as int].1));
                        assert(decreases_to!(cases@[j as int].1 => cases@[j as int].1@));
                    }
                    collect_names(&cases[j].1, out);
                    assert(comment_views(out@) =~= comment_views(old(out)@) + rec_stmts(
                        ss@.take(i as int),
                    ) + rec_arms(cases@.take((j + 1) as int)));
                    j += 1;
                }
                assert(cases@.take(cn as int) =~= cases@);
                proof {
                    assert(decreases_to!(ss@ => ss@[i as int]));
                    assert(decreases_to!(ss@[i as int] => ss@[i as int]->CaseStmt_else_branch));
                    assert(ss@[i as int]->CaseStmt_else_branch == *else_branch);
                    assert(decreases_to!(*else_branch => else_branch@));
                }
                collect_names(else_branch, out);
                assert(comment_views(out@) =~= comment_views(old(out)@) + rec_stmts(
                    ss@.take((i + 1) as int),
                ));
            },
            _ => {
                assert(comment_views(out@) =~= comment_views(old(out)@) + rec_stmts(
                    ss@.take((i + 1) as int),
                ));
            },
        }
        i += 1;
    }
    assert(ss@.take(n as int) =~= ss@);
}

/// Is the signal used anywhere in the statement list?
#[verifier::loop_isolation(false)]
pub fn signal_used(ss: &Vec<Statement>, sig: &String) -> (r: bool)
    ensures
        r == used_stmts(ss@, sig@),
    decreases ss@,
{
    let n = ss.len();
    let mut found = false;
    let mut i: usize = 0;
    while i < n
        invariant
            n == ss@.len(),
            i <= n,
            found == used_stmts(ss@.take(i as int), sig@),
        decreases n - i,
    {
        assert(ss@.take(i + 1).drop_last() =~= ss@.take(i as int));
        assert(ss@.take(i + 1).last() == ss@[i as int]);
        let d: bool = match &ss[i] {
            Statement::Assign { target, value, .. } => {
                let vt = expr_text(value);
                str_eq(target.name.as_str(), sig.as_str()) || str_contains(
                    vt.as_str(),
                    sig.as_str(),
                )
            },
            Statement::IfStmt { condition, then_branch, else_branch, .. } => {
                let ct = expr_text(condition);
                proof {
                    assert(decreases_to!(ss@ => ss@[i as int]));
                    assert(decreases_to!(ss@[i as int] => ss@[i as int]->IfStmt_then_branch));
                    assert(ss@[i as int]->IfStmt_then_branch == *then_branch);
                    assert(decreases_to!(*then_branch => then_branch@));
                    assert(decreases_to!(ss@[i as int] => ss@[i as int]->IfStmt_else_branch));
                    assert(ss@[i as int]->IfStmt_else_branch == *else_branch);
                    assert(decreases_to!(*else_branch => else_branch@));
                }
                let a = signal_used(then_branch, sig);
                let b = signal_used(else_branch, sig);
                str_contains(ct.as_str(), sig.as_str()) || a || b
            },
            Statement::CaseStmt { cases, else_branch, .. } => {
                let cn = cases.len();
                let mut af = false;
                let mut j: usize = 0;
                while j < cn
                    invariant
                        cn == cases@.len(),
                        j <= cn,
                        af == used_arms(cases@.take(j as int), sig@),
                    decreases cn - j,
                {
                    assert(cases@.take(j + 1).drop_last() =~= cases@.take(j as int));
                    assert(cases@.take(j + 1).last() == cases@[j as int]);
                    let labels = &cases[j].0;
                    let ln = labels.len();
                    let mut lf = false;
                    let mut t: usize = 0;
                    while t < ln
                        invariant
                            ln == labels@.len(),
                            t <= ln,
                            labels == &cases@[j as int].0,
                            lf == used_labels(labels@.take(t as int), sig@),
                        decreases ln - t,
                    {
                        assert(labels@.take(t + 1).drop_last() =~= labels@.take(t as int));
                        assert(labels@.take(t + 1).last() == labels@[t as int]);
                        let et = expr_text(&labels[t]);
                        let c = str_contains(et.as_str(), sig.as_str());
                        lf = lf || c;
                        t += 1;
                    }
                    assert(labels@.take(ln as int) =~= labels@);
                    proof {
                        assert(decreases_to!(ss@ => ss@[i as int]));
                        assert(decreases_to!(ss@[i as int] => ss@[i as int]->CaseStmt_cases));
                        assert(ss@[i as int]->CaseStmt_cases == *cases);
                        assert(decreases_to!(*cases => cases@));
                        assert(decreases_to!(cases@ => cases@[j as int]));
                        assert(decreases_to!(cases@[j as int] => cases@[j as int].1));
                        assert(decreases_to!(cases@[j as int].1 => cases@[j as int].1@));
                    }
                    let bodyu = signal_used(&cases[j].1, sig);
                    af = af || lf || bodyu;
                    j += 1;
                }
                assert(cases@.take(cn as int) =~= cases@);
                proof {
                    assert(decreases_to!(ss@ => ss@[i as int]));
                    assert(decreases_to!(ss@[i as int] => ss@[i as int]->CaseStmt_else_branch));
                    assert(ss@[i as int]->CaseStmt_else_branch == *else_branch);
                    assert(decreases_to!(*else_branch => else_branch@));
                }
                let b = signal_used(else_branch, sig);
                af || b
            },
            Statement::Call { name, .. } => str_eq(name.as_str(), sig.as_str()),
            _ => false,
        };
        assert(d == used_stmt(ss@[i as int], sig@));
        found = found || d;
        i += 1;
    }
    assert(ss@.take(n as int) =~= ss@);
    found
}

/// Does the record list hold the given name?
#[verifier::loop_isolation(false)]
fn names_have_x(recs: &Vec<(usize, String)>, x: &String) -> (r: bool)
    ensures
        r == names_have(comment_views(recs@), x@),
{
    let n = recs.len();
    let mut found = false;
    let mut i: usize = 0;
    while i < n
        invariant
            n == recs@.len(),
            i <= n,
            found == exists|k: int| 0 <= k < i && comment_views(recs@)[k].1 == x@,
        decreases n - i,
    {
        assert(comment_views(recs@)[i as int].1 == recs@[i as int].1@);
        let c = str_eq(recs[i].1.as_str(), x.as_str());
        proof {
            if c {
                assert(comment_views(recs@)[i as int].1 == x@);
            }
            if found {
                let k = choose|k: int| 0 <= k < i && comment_views(recs@)[k].1 == x@;
                assert(0 <= k < i + 1 && comment_views(recs@)[k].1 == x@);
            }
        }
        found = found || c;
        i += 1;
    }
    found
}

/// Trap false alerts.
#[verifier::loop_isolation(false)]
pub fn check(program: &Program) -> (r: RuleOutcome)
    ensures
        r@ == r20_outcome(*program),
{
    let n = program.functions.len();
    let mut vios: Vec<Violation> = Vec::new();
    let mut i: usize = 0;
    while i < n
        invariant
            n == program.functions@.len(),
            i <= n,
            vio_views(vios@) == r20_vios(program.functions@.take(i as int)),
        decreases n - i,
    {
        assert(program.functions@.take(i + 1).drop_last() =~= program.functions@.take(i as int));
        assert(program.functions@.take(i + 1).last() == program.functions@[i as int]);
        let f = &program.functions[i];
        let mut recs: Vec<(usize, String)> = Vec::new();
        collect_names(&f.statements, &mut recs);
        assert(comment_views(recs@) =~= rec_stmts(f.statements@));
        let rn = recs.len();
        let mut j: usize = 0;
        while j < rn
            invariant
                rn == recs@.len(),
                comment_views(recs@) == rec_stmts(program.functions@[i as int].statements@),
                f == &program.functions@[i as int],
                j <= rn,
                vio_views(vios@) == r20_vios(program.functions@.take(i as int)) + r20_recs_vios(
                    program.functions@[i as int].statements@,
                    comment_views(recs@),
                    comment_views(recs@).take(j as int),
                ),
            decreases rn - j,
        {
            assert(comment_views(recs@).take(j + 1).drop_last() =~= comment_views(recs@).take(
                j as int,
            ));
            assert(comment_views(recs@).take(j + 1).last() == comment_views(recs@)[j as int]);
            assert(comment_views(recs@)[j as int] == (recs@[j as int].0 as int, recs@[j as int].1@));
            let name = &recs[j].1;
            let line = recs[j].0;
            let base = str_starts_with(name.as_str(), "Critical_Alert_") && !str_ends_with(
                name.as_str(),
                "_False_Negative",
            ) && !str_ends_with(name.as_str(), "_False_Positive");
            if base {
                let mut fnv = name.clone();
                fnv.append("_False_Negative");
                let mut fpv = name.clone();
                fpv.append("_False_Positive");
                let have = names_have_x(&recs, &fnv) && names_have_x(&recs, &fpv);
                let used = signal_used(&f.statements, &fnv) && signal_used(&f.statements, &fpv);
                if !(have && used) {
                    let mut reason = String::from_str("Missing or unused trap variables for '");
                    reason.append(name.as_str());
                    reason.append("'");
                    let ghost prev = vios@;
                    let v = Violation {
                        rule_no: 20,
                        rule_name: String::from_str("Trap false alerts"),
                        line: line,
                        reason: reason,
                        suggestion: String::from_str(
                            "Define and wire both *_False_Negative and *_False_Positive signals into logic/logs.",
                        ),
                    };
                    vios.push(v);
                    assert(vio_views(vios@) =~= vio_views(prev).push(v@));
                }
            }
            assert(vio_views(vios@) =~= r20_vios(program.functions@.take(i as int))
                + r20_recs_vios(
                program.functions@[i as int].statements@,
                comment_views(recs@),
                comment_views(recs@).take((j + 1) as int),
            ));
            j += 1;
        }
        assert(comment_views(recs@).take(rn as int) =~= comment_views(recs@));
        assert(vio_views(vios@) =~= r20_vios(program.functions@.take((i + 1) as int)));
        i += 1;
    }
    assert(program.functions@.take(n as int) =~= program.functions@);
    RuleOutcome::from_violations(20, String::from_str("Trap false alerts"), vios)
}

} // verus!
