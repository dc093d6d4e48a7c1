//! Validate paired inputs/outputs: policy-declared signal pairs must never
//! both be active.
//!
//! Each routine is walked along its straight-line paths, tracking which
//! pair members were most recently assigned a literal TRUE.  At every
//! branch the active-signal set is copied and each branch analyzed
//! independently; the statements after the branch continue from the state
//! before it (no re-merge).  A violation is reported at the first point a
//! path turns both members of a pair active, at the line of the assignment
//! that completes the pair, naming both signals.

use vstd::prelude::*;
use vstd::string::StringExecFns;
use crate::ast::{Expression, Function, Program, Statement};
use crate::rules::engine::{clone_names, name_set, taint_contains, taint_insert, taint_remove};
use crate::rules::policy::Policy;
use crate::rules::report::{outcome_for, vio_views, OutcomeV, RuleOutcome, VioV, Violation};
use crate::text::str_eq;

verus! {

/// The views of the policy's pair list.
pub open spec fn pair_views(ps: Seq<[String; 2]>) -> Seq<(Seq<char>, Seq<char>)> {
    ps.map_values(|p: [String; 2]| (p@[0]@, p@[1]@))
}

/// The declared pairs of a policy; none means no constraint.
pub open spec fn policy_pairs(pol: Policy) -> Seq<(Seq<char>, Seq<char>)> {
    match pol.pairs {
        Some(v) => pair_views(v@),
        None => Seq::empty(),
    }
}

/// The violation naming both members of a pair.
pub open spec fn r7_vio(a: Seq<char>, b: Seq<char>, line: int) -> VioV {
    VioV {
        rule_no: 7,
        rule_name: "Validate paired inputs/outputs"@,
        line: line,
        reason: "Paired outputs "@ + a + " and "@ + b + " both set to TRUE"@,
        suggestion: "Add mutual exclusion logic (e.g., IF/ELSE) to prevent both outputs being active"@,
    }
}

/// Does assigning TRUE to `n` with active set `act` complete the pair
/// `(a, b)` for the first time on this path?
pub open spec fn completes_pair(
    a: Seq<char>,
    b: Seq<char>,
    act: Set<Seq<char>>,
    n: Seq<char>,
) -> bool {
    ||| (n == a && act.contains(b) && !act.contains(a))
    ||| (n == b && act.contains(a) && !act.contains(b))
}

/// The violations an assignment of TRUE to `n` triggers, one per
/// newly-completed pair, in pair order.
pub open spec fn pair_hits(
    pairs: Seq<(Seq<char>, Seq<char>)>,
    act: Set<Seq<char>>,
    n: Seq<char>,
    line: int,
) -> Seq<VioV>
    decreases pairs,
{
    if pairs.len() == 0 {
        Seq::empty()
    } else {
        pair_hits(pairs.drop_last(), act, n, line) + (
        if completes_pair(pairs.last().0, pairs.last().1, act, n) {
            seq![r7_vio(pairs.last().0, pairs.last().1, line)]
        } else {
            Seq::empty()
        })
    }
}

/// The walk state: the active signal set and the violations so far.
pub struct PairSt {
    pub active: Set<Seq<char>>,
    pub vios: Seq<VioV>,
}

/// The transfer function for one statement.
pub open spec fn r7_step(pairs: Seq<(Seq<char>, Seq<char>)>, st: PairSt, s: Statement) -> PairSt
    decreases s,
{
    match s {
        Statement::Assign { target, value, line } => {
            if value is BoolLiteral && value->BoolLiteral_0 {
                PairSt {
                    active: st.active.insert(target.name@),
                    vios: st.vios + pair_hits(pairs, st.active, target.name@, line as int),
                }
            } else {
                PairSt { active: st.active.remove(target.name@), vios: st.vios }
            }
        },
        Statement::IfStmt { then_branch, else_branch, .. } => {
            let a = r7_walk(pairs, PairSt { active: st.active, vios: st.vios }, then_branch@);
            let b = r7_walk(pairs, PairSt { active: st.active, vios: a.vios }, else_branch@);
            PairSt { active: st.active, vios: b.vios }
        },
        Statement::CaseStmt { cases, else_branch, .. } => {
            let a = r7_arms(pairs, st.active, cases@, st.vios);
            let b = r7_walk(pairs, PairSt { active: st.active, vios: a }, else_branch@);
            PairSt { active: st.active, vios: b.vios }
        },
        _ => st,
    }
}

/// The violations of the arms of a CASE statement, each walked from a copy
/// of the pre-case state.
pub open spec fn r7_arms(
    pairs: Seq<(Seq<char>, Seq<char>)>,
    act: Set<Seq<char>>,
    arms: Seq<(Vec<Expression>, Vec<Statement>)>,
    vios: Seq<VioV>,
) -> Seq<VioV>
    decreases arms,
{
    if arms.len() == 0 {
        vios
    } else {
        let v = r7_arms(pairs, act, arms.drop_last(), vios);
        r7_walk(pairs, PairSt { active: act, vios: v }, arms.last().1@).vios
    }
}

/// The walk over a statement list.
pub open spec fn r7_walk(pairs: Seq<(Seq<char>, Seq<char>)>, st: PairSt, ss: Seq<Statement>) -> PairSt
    decreases ss,
{
    if ss.len() == 0 {
        st
    } else {
        r7_step(pairs, r7_walk(pairs, st, ss.drop_last()), ss.last())
    }
}

/// The rule's violations over a program: each routine starts with no
/// active signals.
pub open spec fn r7_vios(pairs: Seq<(Seq<char>, Seq<char>)>, fs: Seq<Function>) -> Seq<VioV>
    decreases fs,
{
    if fs.len() == 0 {
        Seq::empty()
    } else {
        r7_walk(
            pairs,
            PairSt { active: Set::empty(), vios: r7_vios(pairs, fs.drop_last()) },
            fs.last().statements@,
        ).vios
    }
}

/// The rule outcome on a program and policy.
pub open spec fn r7_outcome(p: Program, pol: Policy) -> OutcomeV {
    outcome_for(7, "Validate paired inputs/outputs"@, r7_vios(policy_pairs(pol), p.functions@))
}

/// Emit the violations an assignment of TRUE to `name` triggers.
#[verifier::loop_isolation(false)]
fn pair_hits_x(
    pairs: &Vec<[String; 2]>,
    act: &Vec<String>,
    name: &String,
    line: usize,
    out: &mut Vec<Violation>,
)
    ensures
        vio_views(final(out)@) == vio_views(old(out)@) + pair_hits(
            pair_views(pairs@),
            name_set(act@),
            name@,
            line as int,
        ),
{
    let n = pairs.len();
    let mut j: usize = 0;
    while j < n
        invariant
            n == pairs@.len(),
            j <= n,
            vio_views(out@) == vio_views(old(out)@) + pair_hits(
                pair_views(pairs@).take(j as int),
                name_set(act@),
                name@,
                line as int,
            ),
        decreases n - j,
    {
        assert(pair_views(pairs@).take(j + 1).drop_last() =~= pair_views(pairs@).take(j as int));
        assert(pair_views(pairs@).take(j + 1).last() == pair_views(pairs@)[j as int]);
        let a: &String = &pairs[j][0];
        let b: &String = &pairs[j][1];
        assert(a@ == pair_views(pairs@)[j as int].0);
        assert(b@ == pair_views(pairs@)[j as int].1);
        let hit = (str_eq(name.as_str(), a.as_str()) && taint_contains(act, b) && !taint_contains(
            act,
            a,
        )) || (str_eq(name.as_str(), b.as_str()) && taint_contains(act, a) && !taint_contains(
            act,
            b,
        ));
        if hit {
            let mut reason = String::from_str("Paired outputs ");
            reason.append(a.as_str());
            reason.append(" and ");
            reason.append(b.as_str());
            reason.append(" both set to TRUE");
            let ghost prev = out@;
            let v = Violation {
                rule_no: 7,
                rule_name: String::from_str("Validate paired inputs/outputs"),
                line: line,
                reason: reason,
                suggestion: String::from_str(
                    "Add mutual exclusion logic (e.g., IF/ELSE) to prevent both outputs being active",
                ),
            };
            out.push(v);
            assert(vio_views(out@) =~= vio_views(prev).push(v@));
        }
        assert(vio_views(out@) =~= vio_views(old(out)@) + pair_hits(
            pair_views(pairs@).take((j + 1) as int),
            name_set(act@),
            name@,
            line as int,
        ));
        j += 1;
    }
    assert(pair_views(pairs@).take(n as int) =~= pair_views(pairs@));
}

/// Walk a statement list, threading the active-signal vector.
#[verifier::loop_isolation(false)]
fn r7_walk_x(
    pairs: &Vec<[String; 2]>,
    act: Vec<String>,
    ss: &Vec<Statement>,
    out: &mut Vec<Violation>,
) -> (r: Vec<String>)
    ensures
        ({
            let st = r7_walk(
                pair_views(pairs@),
                PairSt { active: name_set(act@), vios: vio_views(old(out)@) },
                ss@,
            );
            name_set(r@) == st.active && vio_views(final(out)@) == st.vios
        }),
    decreases ss@,
{
    let ghost pv = pair_views(pairs@);
    let ghost st0 = PairSt { active: name_set(act@), vios: vio_views(old(out)@) };
    let mut cur = act;
    let n = ss.len();
    let mut i: usize = 0;
    while i < n
        invariant
            n == ss@.len(),
            i <= n,
            name_set(cur@) == r7_walk(pv, st0, ss@.take(i as int)).active,
            vio_views(out@) == r7_walk(pv, st0, ss@.take(i as int)).vios,
        decreases n - i,
    {
        assert(ss@.take(i + 1).drop_last() =~= ss@.take(i as int));
        assert(ss@.take(i + 1).last() == ss@[i as int]);
        let ghost pre = r7_walk(pv, st0, ss@.take(i as int));
        match &ss[i] {
            Statement::Assign { target, value, line } => {
                let is_true = match value {
                    Expression::BoolLiteral(v, _) => *v,
                    _ => false,
                };
                if is_true {
                    pair_hits_x(pairs, &cur, &target.name, *line, out);
                    let nm = target.name.clone();
                    taint_insert(&mut cur, nm);
                } else {
                    taint_remove(&mut cur, &target.name);
                }
                assert(r7_step(pv, pre, ss@[i as int]) == (PairSt {
                    active: name_set(cur@),
                    vios: vio_views(out@),
                }));
            },
            Statement::IfStmt { then_branch, else_branch, .. } => {
                proof {
                    assert(decreases_to!(ss@ => ss@[i as int]));
                    assert(decreases_to!(ss@[i as int] => ss@[i as int]->IfStmt_then_branch));
                    assert(ss@[i as int]->IfStmt_then_branch == *then_branch);
                    assert(decreases_to!(*then_branch => then_branch@));
                    assert(decreases_to!(ss@[i as int] => ss@[i as int]->IfStmt_else_branch));
                    assert(ss@[i as int]->IfStmt_else_branch == *else_branch);
                    assert(decreases_to!(*else_branch => else_branch@));
                }
                let tcopy = clone_names(&cur);
                let a = r7_walk_x(pairs, tcopy, then_branch, out);
                let ecopy = clone_names(&cur);
                let b = r7_walk_x(pairs, ecopy, else_branch, out);
                assert(r7_step(pv, pre, ss@[i as int]) == (PairSt {
                    active: name_set(cur@),
                    vios: vio_views(out@),
                }));
            },
            Statement::CaseStmt { cases, else_branch, .. } => {
                let cn = cases.len();
                let mut j: usize = 0;
                while j < cn
                    invariant
                        cn == cases@.len(),
                        j <= cn,
                        name_set(cur@) == pre.active,
                        vio_views(out@) == r7_arms(pv, pre.active, cases@.take(j as int), pre.vios),
                    decreases cn - j,
                {
                    assert(cases@.take(j + 1).drop_last() =~= cases@.take(j as int));
                    assert(cases@.take(j + 1).last() == cases@[j as int]);
                    proof {
                        assert(decreases_to!(ss@ => ss@[i as int]));
                        assert(decreases_to!(ss@[i as int] => ss@[i as int]->CaseStmt_cases));
                        assert(ss@[i as int]->CaseStmt_cases == *cases);
                        assert(decreases_to!(*cases => cases@));
                        assert(decreases_to!(cases@ => cases@[j as int]));
                        assert(decreases_to!(cases@[j as int] => cases@[j as int].1));
                        assert(decreases_to!(cases@[j as int].1 => cases@[j as int].1@));
                    }
                    let ccopy = clone_names(&cur);
                    let a = r7_walk_x(pairs, ccopy, &cases[j].1, out);
                    assert(vio_views(out@) =~= r7_arms(
                        pv,
                        pre.active,
                        cases@.take((j + 1) as int),
                        pre.vios,
                    ));
                    j += 1;
                }
                assert(cases@.take(cn as int) =~= cases@);
                proof {
                    assert(decreases_to!(ss@ => ss@[i as int]));
                    assert(decreases_to!(ss@[i as int] => ss@[i as int]->CaseStmt_else_branch));
                    assert(ss@[i as int]->CaseStmt_else_branch == *else_branch);
                    assert(decreases_to!(*else_branch => else_branch@));
                }
                let ecopy = clone_names(&cur);
                let b = r7_walk_x(pairs, ecopy, else_branch, out);
                assert(r7_step(pv, pre, ss@[i as int]) == (PairSt {
                    active: name_set(cur@),
                    vios: vio_views(out@),
                }));
            },
            _ => {
                assert(r7_step(pv, pre, ss@[i as int]) == (PairSt {
                    active: name_set(cur@),
                    vios: vio_views(out@),
                }));
            },
        }
        assert(r7_walk(pv, st0, ss@.take((i + 1) as int)) == (PairSt {
            active: name_set(cur@),
            vios: vio_views(out@),
        }));
        i += 1;
    }
    assert(ss@.take(n as int) =~= ss@);
    cur
}

/// Validate paired inputs/outputs against the policy's pair table.
#[verifier::loop_isolation(false)]
pub fn check(program: &Program, policy: &Policy) -> (r: RuleOutcome)
    ensures
        r@ == r7_outcome(*program, *policy),
{
    let mut vios: Vec<Violation> = Vec::new();
    match &policy.pairs {
        None => {
            assert(policy_pairs(*policy) =~= Seq::<(Seq<char>, Seq<char>)>::empty());
            let n = program.functions.len();
            let mut i: usize = 0;
            while i < n
                invariant
                    n == program.functions@.len(),
                    i <= n,
                    vio_views(vios@) == r7_vios(
                        policy_pairs(*policy),
                        program.functions@.take(i as int),
                    ),
                decreases n - i,
            {
                assert(program.functions@.take(i + 1).drop_last() =~= program.functions@.take(
                    i as int,
                ));
                assert(program.functions@.take(i + 1).last() == program.functions@[i as int]);
                let empty_pairs: Vec<[String; 2]> = Vec::new();
                assert(pair_views(empty_pairs@) =~= policy_pairs(*policy));
                let act: Vec<String> = Vec::new();
                assert(name_set(act@) =~= Set::<Seq<char>>::empty());
                let e = r7_walk_x(&empty_pairs, act, &program.functions[i].statements, &mut vios);
                assert(vio_views(vios@) == r7_vios(
                    policy_pairs(*policy),
                    program.functions@.take((i + 1) as int),
                ));
                i += 1;
            }
            assert(program.functions@.take(n as int) =~= program.functions@);
        },
        Some(pairs) => {
            assert(policy_pairs(*policy) == pair_views(pairs@));
            let n = program.functions.len();
            let mut i: usize = 0;
            while i < n
                invariant
                    n == program.functions@.len(),
                    i <= n,
                    vio_views(vios@) == r7_vios(
                        policy_pairs(*policy),
                        program.functions@.take(i as int),
                    ),
                decreases n - i,
            {
                assert(program.functions@.take(i + 1).drop_last() =~= program.functions@.take(
                    i as int,
                ));
                assert(program.functions@.take(i + 1).last() == program.functions@[i as int]);
                let act: Vec<String> = Vec::new();
                assert(name_set(act@) =~= Set::<Seq<char>>::empty());
                let e = r7_walk_x(pairs, act, &program.functions[i].statements, &mut vios);
                assert(vio_views(vios@) == r7_vios(
                    policy_pairs(*policy),
                    program.functions@.take((i + 1) as int),
                ));
                i += 1;
            }
            assert(program.functions@.take(n as int) =~= program.functions@);
        },
    }
    RuleOutcome::from_violations(7, String::from_str("Validate paired inputs/outputs"), vios)
}

} // verus!
