//! Define a safe restart state: the startup routine (OB100) must exist,
//! be non-empty, and initialize at least one critical output to a safe
//! value (FALSE/0); any critical output initialized to a literal
//! TRUE/non-zero is reported individually.

use vstd::prelude::*;
use vstd::string::StringExecFns;
use crate::ast::{Expression, Function, FunctionKind, Program, Statement};
use crate::rules::report::{outcome_for, vio_views, OutcomeV, RuleOutcome, VioV, Violation};
use crate::rules::utils::comment_views;
use crate::text::{contains_seq, ends_with_seq, str_contains_up, str_ends_with_up, up};

verus! {

/// Does the name suggest a critical output?
pub open spec fn critical_output(name: Seq<char>) -> bool {
    ||| contains_seq(up(name), "CRITICAL"@)
    ||| contains_seq(up(name), "SAFE"@)
    ||| ends_with_seq(up(name), "_OUT"@)
    ||| contains_seq(up(name), "MOTOR"@)
    ||| contains_seq(up(name), "OUTPUT"@)
}

/// Does a name look like a critical output?
pub fn looks_like_critical_output(name: &str) -> (r: bool)
    ensures
        r == critical_output(name@),
{
    str_contains_up(name, "CRITICAL") || str_contains_up(name, "SAFE") || str_ends_with_up(
        name,
        "_OUT",
    ) || str_contains_up(name, "MOTOR") || str_contains_up(name, "OUTPUT")
}

/// A literal FALSE or zero.
pub open spec fn safe_expr(e: Expression) -> bool {
    ||| (e is BoolLiteral && !e->BoolLiteral_0)
    ||| (e is NumberLiteral && e->NumberLiteral_0 == 0)
}

/// Is the initializer a safe literal?
pub fn is_safe_expr(e: &Expression) -> (r: bool)
    ensures
        r == safe_expr(*e),
{
    match e {
        Expression::BoolLiteral(v, _) => !*v,
        Expression::NumberLiteral(n, _) => *n == 0,
        _ => false,
    }
}

/// A literal TRUE or non-zero.
pub open spec fn unsafe_expr(e: Expression) -> bool {
    ||| (e is BoolLiteral && e->BoolLiteral_0)
    ||| (e is NumberLiteral && e->NumberLiteral_0 != 0)
}

/// Is the initializer an unsafe literal?
pub fn is_unsafe_expr(e: &Expression) -> (r: bool)
    ensures
        r == unsafe_expr(*e),
{
    match e {
        Expression::BoolLiteral(v, _) => *v,
        Expression::NumberLiteral(n, _) => *n != 0,
        _ => false,
    }
}

/// The (line, name) records of critical-output initializations matching
/// the given polarity: safe literals when `want_safe`, unsafe otherwise.
pub open spec fn init_records(s: Statement, want_safe: bool) -> Seq<(int, Seq<char>)>
    decreases s,
{
    match s {
        Statement::Assign { target, value, line } => {
            if critical_output(target.name@) && (if want_safe {
                safe_expr(value)
            } else {
                unsafe_expr(value)
            }) {
                seq![(line as int, target.name@)]
            } else {
                Seq::empty()
            }
        },
        Statement::IfStmt { then_branch, else_branch, .. } => inits_records(
            then_branch@,
            want_safe,
        ) + inits_records(else_branch@, want_safe),
        Statement::CaseStmt { cases, else_branch, .. } => arms_records(cases@, want_safe)
            + inits_records(else_branch@, want_safe),
        _ => Seq::empty(),
    }
}

/// The records of the arms of a CASE statement.
pub open spec fn arms_records(
    arms: Seq<(Vec<Expression>, Vec<Statement>)>,
    want_safe: bool,
) -> Seq<(int, Seq<char>)>
    decreases arms,
{
    if arms.len() == 0 {
        Seq::empty()
    } else {
        arms_records(arms.drop_last(), want_safe) + inits_records(arms.last().1@, want_safe)
    }
}

/// The records of a statement list.
pub open spec fn inits_records(ss: Seq<Statement>, want_safe: bool) -> Seq<(int, Seq<char>)>
    decreases ss,
{
    if ss.len() == 0 {
        Seq::empty()
    } else {
        inits_records(ss.drop_last(), want_safe) + init_records(ss.last(), want_safe)
    }
}

/// The index of the first routine of the given kind.
pub open spec fn find_kind(fs: Seq<Function>, k: FunctionKind) -> Option<int>
    decreases fs,
{
    if fs.len() == 0 {
        Option::None
    } else if fs.first().kind == k {
        Option::Some(0int)
    } else {
        match find_kind(fs.drop_first(), k) {
            Option::Some(i) => Option::Some(i + 1),
            Option::None => Option::None,
        }
    }
}

/// Find the index of the first routine of the given kind.
pub fn find_first_kind(program: &Program, k: FunctionKind) -> (r: Option<usize>)
    ensures
        match r {
            Option::Some(i) => i < program.functions@.len() && find_kind(program.functions@, k)
                == Option::Some(i as int),
            Option::None => find_kind(program.functions@, k) is None,
        },
{
    let n = program.functions.len();
    let mut idx: usize = 0;
    assert(program.functions@.skip(0) =~= program.functions@);
    while idx < n
        invariant
            n == program.functions@.len(),
            idx <= n,
            ({
                let rest = find_kind(program.functions@.skip(idx as int), k);
                match rest {
                    Option::Some(v) => find_kind(program.functions@, k) == Option::Some(
                        v + idx as int,
                    ),
                    Option::None => find_kind(program.functions@, k) is None,
                }
            }),
        decreases n - idx,
    {
        assert(program.functions@.skip(idx as int).first() == program.functions@[idx as int]);
        assert(program.functions@.skip(idx as int).drop_first() =~= program.functions@.skip(
            idx + 1,
        ));
        if program.functions[idx].kind == k {
            return Option::Some(idx);
        }
        idx += 1;
    }
    assert(program.functions@.skip(n as int) =~= Seq::<Function>::empty());
    Option::None
}

/// The rule-15 violation with a fixed reason.
pub open spec fn r15_vio(line: int, reason: Seq<char>) -> VioV {
    VioV {
        rule_no: 15,
        rule_name: "Define a safe restart state"@,
        line: line,
        reason: reason,
        suggestion: "Initialize critical outputs to FALSE/0 in OB100."@,
    }
}

/// The violation for one unsafe initialization record.
pub open spec fn r15_unsafe_vio(rec: (int, Seq<char>)) -> VioV {
    r15_vio(rec.0, "Critical output '"@ + rec.1 + "' initialized UNSAFELY on restart"@)
}

/// The rule outcome on a program.
pub open spec fn r15_outcome(p: Program) -> OutcomeV {
    match find_kind(p.functions@, FunctionKind::OB100) {
        Option::None => outcome_for(
            15,
            "Define a safe restart state"@,
            seq![r15_vio(0, "OB100 (Startup OB) not found"@)],
        ),
        Option::Some(i) => {
            let f = p.functions@[i];
            if f.statements@.len() == 0 {
                outcome_for(
                    15,
                    "Define a safe restart state"@,
                    seq![r15_vio(f.line as int, "OB100 exists but is empty"@)],
                )
            } else {
                outcome_for(
                    15,
                    "Define a safe restart state"@,
                    inits_records(f.statements@, false).map_values(
                        |rec: (int, Seq<char>)| r15_unsafe_vio(rec),
                    ) + (if inits_records(f.statements@, true).len() == 0 {
                        seq![
                            r15_vio(
                                f.line as int,
                                "OB100 does not initialize any critical output to a safe value"@,
                            ),
                        ]
                    } else {
                        Seq::empty()
                    }),
                )
            }
        },
    }
}

/// Collect the safe and unsafe critical-output initializations.
#[verifier::loop_isolation(false)]
pub fn walk_ob100(
    ss: &Vec<Statement>,
    safe_inits: &mut Vec<(usize, String)>,
    unsafe_inits: &mut Vec<(usize, String)>,
)
    ensures
        comment_views(final(safe_inits)@) == comment_views(old(safe_inits)@) + inits_records(
            ss@,
            true,
        ),
        comment_views(final(unsafe_inits)@) == comment_views(old(unsafe_inits)@) + inits_records(
            ss@,
            false,
        ),
    decreases ss@,
{
    let n = ss.len();
    let mut i: usize = 0;
    while i < n
        invariant
            n == ss@.len(),
            i <= n,
            comment_views(safe_inits@) == comment_views(old(safe_inits)@) + inits_records(
                ss@.take(i as int),
                true,
            ),
            comment_views(unsafe_inits@) == comment_views(old(unsafe_inits)@) + inits_records(
                ss@.take(i as int),
                false,
            ),
        decreases n - i,
    {
        assert(ss@.take(i + 1).drop_last() =~= ss@.take(i as int));
        assert(ss@.take(i + 1).last() == ss@[i as int]);
        proof {
            assert(inits_records(ss@.take((i + 1) as int), true) == inits_records(
                ss@.take(i as int),
                true,
            ) + init_records(ss@[i as int], true));
            assert(inits_records(ss@.take((i + 1) as int), false) == inits_records(
                ss@.take(i as int),
                false,
            ) + init_records(ss@[i as int], false));
        }
        match &ss[i] {
            Statement::Assign { target, value, line } => {
                if looks_like_critical_output(target.name.as_str()) {
                    if is_safe_expr(value) {
                        let ghost prev = safe_inits@;
                        safe_inits.push((*line, target.name.clone()));
                        assert(comment_views(safe_inits@) =~= comment_views(prev).push(
                            (*line as int, target.name@),
                        ));
                    } else if is_unsafe_expr(value) {
                        let ghost prev = unsafe_inits@;
                        unsafe_inits.push((*line, target.name.clone()));
                        assert(comment_views(unsafe_inits@) =~= comment_views(prev).push(
                            (*line as int, target.name@),
                        ));
                    }
                }
                assert(comment_views(safe_inits@) =~= comment_views(old(safe_inits)@)
                    + inits_records(ss@.take((i + 1) as int), true));
                assert(comment_views(unsafe_inits@) =~= comment_views(old(unsafe_inits)@)
                    + inits_records(ss@.take((i + 1) as int), false));
            },
            Statement::IfStmt { then_branch, else_branch, .. } => {
                proof {
                    assert(decreases_to!(ss@ => ss@[i as int]));
                    assert(decreases_to!(ss@[i as int] => ss@[i as int]->IfStmt_then_branch));
                    assert(ss@[i as int]->IfStmt_then_branch == *then_branch);
                    assert(decreases_to!(*then_branch => then_branch@));
                    assert(decreases_to!(ss@[i as int] => ss@[i as int]->IfStmt_else_branch));
                    assert(ss@[i as int]->IfStmt_else_branch == *else_branch);
                    assert(decreases_to!(*else_branch => else_branch@));
                }
                walk_ob100(then_branch, safe_inits, unsafe_inits);
                walk_ob100(else_branch, safe_inits, unsafe_inits);
                assert(comment_views(safe_inits@) =~= comment_views(old(safe_inits)@)
                    + inits_records(ss@.take((i + 1) as int), true));
                assert(comment_views(unsafe_inits@) =~= comment_views(old(unsafe_inits)@)
                    + inits_records(ss@.take((i + 1) as int), false));
            },
            Statement::CaseStmt { cases, else_branch, .. } => {
                let cn = cases.len();
                let mut j: usize = 0;
                while j < cn
                    invariant
                        cn == cases@.len(),
                        j <= cn,
                        comment_views(safe_inits@) == comment_views(old(safe_inits)@)
                            + inits_records(ss@.take(i as int), true) + arms_records(
                            cases@.take(j as int),
                            true,
                        ),
                        comment_views(unsafe_inits@) == comment_views(old(unsafe_inits)@)
                            + inits_records(ss@.take(i as int), false) + arms_records(
                            cases@.take(j as int),
                            false,
                        ),
                    decreases cn - j,
                {
                    assert(cases@.take(j + 1).drop_last() =~= cases@.take(j as int));
                    assert(cases@.take(j + 1).last() == cases@[j as int]);
                    proof {
                        assert(decreases_to!(ss@ => ss@[i as int]));
                        assert(decreases_to!(ss@[i as int] => ss@[i as int]->CaseStmt_cases));
                        assert(ss@[i as int]->CaseStmt_cases == *cases);
                        assert(decreases_to!(*cases => cases@));
                        assert(decreases_to!(cases@ => cases@[j as int]));
                        assert(decreases_to!(cases@[j as int] => cases@[j as int].1));
                        assert(decreases_to!(cases@[j as int].1 => cases@[j as int].1@));
                    }
                    walk_ob100(&cases[j].1, safe_inits, unsafe_inits);
                    assert(comment_views(safe_inits@) =~= comment_views(old(safe_inits)@)
                        + inits_records(ss@.take(i as int), true) + arms_records(
                        cases@.take((j + 1) as int),
                        true,
                    ));
                    assert(comment_views(unsafe_inits@) =~= comment_views(old(unsafe_inits)@)
                        + inits_records(ss@.take(i as int), false) + arms_records(
                        cases@.take((j + 1) as int),
                        false,
                    ));
                    j += 1;
                }
                assert(cases@.take(cn as int) =~= cases@);
                walk_ob100(else_branch, safe_inits, unsafe_inits);
                assert(comment_views(safe_inits@) =~= comment_views(old(safe_inits)@)
                    + inits_records(ss@.take((i + 1) as int), true));
                assert(comment_views(unsafe_inits@) =~= comment_views(old(unsafe_inits)@)
                    + inits_records(ss@.take((i + 1) as int), false));
            },
            _ => {
                assert(comment_views(safe_inits@) =~= comment_views(old(safe_inits)@)
                    + inits_records(ss@.take((i + 1) as int), true));
                assert(comment_views(unsafe_inits@) =~= comment_views(old(unsafe_inits)@)
                    + inits_records(ss@.take((i + 1) as int), false));
            },
        }
        i += 1;
    }
    assert(ss@.take(n as int) =~= ss@);
}

/// Build the rule-15 violation with the given fixed reason.
fn mk_vio(line: usize, reason: &str) -> (v: Violation)
    ensures
        v@ == r15_vio(line as int, reason@),
{
    Violation {
        rule_no: 15,
        rule_name: String::from_str("Define a safe restart state"),
        line: line,
        reason: String::from_str(reason),
        suggestion: String::from_str("Initialize critical outputs to FALSE/0 in OB100."),
    }
}

/// Define a safe restart state.
#[verifier::loop_isolation(false)]
pub fn check(program: &Program) -> (r: RuleOutcome)
    ensures
        r@ == r15_outcome(*program),
{
    let n = program.functions.len();
    let mut idx: usize = 0;
    let mut found = false;
    assert(program.functions@.skip(0) =~= program.functions@);
    while idx < n && !found
        invariant
            n == program.functions@.len(),
            idx <= n,
            !found ==> ({
                let rest = find_kind(program.functions@.skip(idx as int), FunctionKind::OB100);
                match rest {
                    Option::Some(v) => find_kind(program.functions@, FunctionKind::OB100)
                        == Option::Some(v + idx as int),
                    Option::None => find_kind(program.functions@, FunctionKind::OB100) is None,
                }
            }),
            found ==> idx < n && find_kind(program.functions@, FunctionKind::OB100)
                == Option::Some(idx as int),
        decreases n - idx + (if found {
            0int
        } else {
            1int
        }),
    {
        assert(program.functions@.skip(idx as int).first() == program.functions@[idx as int]);
        assert(program.functions@.skip(idx as int).drop_first() =~= program.functions@.skip(
            idx + 1,
        ));
        if matches!(program.functions[idx].kind, FunctionKind::OB100) {
            found = true;
        } else {
            idx += 1;
        }
    }
    let mut vios: Vec<Violation> = Vec::new();
    if !found {
        assert(program.functions@.skip(n as int) =~= Seq::<Function>::empty());
        assert(find_kind(program.functions@, FunctionKind::OB100) is None);
        let v = mk_vio(0, "OB100 (Startup OB) not found");
        vios.push(v);
        assert(vio_views(vios@) =~= seq![r15_vio(0, "OB100 (Startup OB) not found"@)]);
        return RuleOutcome::from_violations(
            15,
            String::from_str("Define a safe restart state"),
            vios,
        );
    }
    let f = &program.functions[idx];
    if f.statements.len() == 0 {
        let v = mk_vio(f.line, "OB100 exists but is empty");
        vios.push(v);
        assert(vio_views(vios@) =~= seq![r15_vio(f.line as int, "OB100 exists but is empty"@)]);
        return RuleOutcome::from_violations(
            15,
            String::from_str("Define a safe restart state"),
            vios,
        );
    }
    let mut safe_inits: Vec<(usize, String)> = Vec::new();
    let mut unsafe_inits: Vec<(usize, String)> = Vec::new();
    walk_ob100(&f.statements, &mut safe_inits, &mut unsafe_inits);
    assert(comment_views(safe_inits@) =~= inits_records(f.statements@, true));
    assert(comment_views(unsafe_inits@) =~= inits_records(f.statements@, false));
    let un = unsafe_inits.len();
    let mut i: usize = 0;
    while i < un
        invariant
            un == unsafe_inits@.len(),
            comment_views(unsafe_inits@) == inits_records(
                program.functions@[idx as int].statements@,
                false,
            ),
            i <= un,
            vio_views(vios@) =~= inits_records(
                program.functions@[idx as int].statements@,
                false,
            ).map_values(|rec: (int, Seq<char>)| r15_unsafe_vio(rec)).take(i as int),
        decreases un - i,
    {
        let mut reason = String::from_str("Critical output '");
        reason.append(unsafe_inits[i].1.as_str());
        reason.append("' initialized UNSAFELY on restart");
        let ghost prev = vios@;
        let v = Violation {
            rule_no: 15,
            rule_name: String::from_str("Define a safe restart state"),
            line: unsafe_inits[i].0,
            reason: reason,
            suggestion: String::from_str("Initialize critical outputs to FALSE/0 in OB100."),
        };
        vios.push(v);
        assert(vio_views(vios@) =~= vio_views(prev).push(v@));
        assert(comment_views(unsafe_inits@)[i as int] == (
            unsafe_inits@[i as int].0 as int,
            unsafe_inits@[i as int].1@,
        ));
        assert(vio_views(vios@) =~= inits_records(
            program.functions@[idx as int].statements@,
            false,
        ).map_values(|rec: (int, Seq<char>)| r15_unsafe_vio(rec)).take((i + 1) as int));
        i += 1;
    }
    assert(vio_views(vios@) =~= inits_records(
        program.functions@[idx as int].statements@,
        false,
    ).map_values(|rec: (int, Seq<char>)| r15_unsafe_vio(rec)));
    if safe_inits.len() == 0 {
        assert(inits_records(program.functions@[idx as int].statements@, true).len() == 0);
        let ghost prev = vios@;
        let v = mk_vio(f.line, "OB100 does not initialize any critical output to a safe value");
        vios.push(v);
        assert(vio_views(vios@) =~= vio_views(prev).push(v@));
    } else {
        assert(inits_records(program.functions@[idx as int].statements@, true).len() > 0);
    }
    assert(vio_views(vios@) =~= inits_records(
        program.functions@[idx as int].statements@,
        false,
    ).map_values(|rec: (int, Seq<char>)| r15_unsafe_vio(rec)) + (if inits_records(
        program.functions@[idx as int].statements@,
        true,
    ).len() == 0 {
        seq![
            r15_vio(
                program.functions@[idx as int].line as int,
                "OB100 does not initialize any critical output to a safe value"@,
            ),
        ]
    } else {
        Seq::<VioV>::empty()
    }));
    RuleOutcome::from_violations(15, String::from_str("Define a safe restart state"), vios)
}

} // verus!
