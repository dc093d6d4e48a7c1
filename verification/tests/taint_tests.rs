//! Scenario tests for the flow-sensitive rules: sanitizer precedence,
//! branch-join taint merging, and the end-to-end untrusted-input case.

use plc_secure_checker::ast::{
    BinOp, Expression, Function, FunctionKind, Program, Statement, Variable,
};
use plc_secure_checker::rules::policy::Policy;
use plc_secure_checker::rules::registry::run_rules;
use plc_secure_checker::rules::report::{RuleOutcome, RuleStatus};
use plc_secure_checker::rules::utils::AnalysisContext;

fn var(name: &str) -> Expression {
    Expression::VariableRef(name.to_string())
}

fn num(n: i64, line: usize) -> Expression {
    Expression::NumberLiteral(n, line)
}

fn assign(target: &str, value: Expression, line: usize) -> Statement {
    Statement::Assign { target: Variable { name: target.to_string() }, value, line }
}

fn gt(left: Expression, right: Expression, line: usize) -> Expression {
    Expression::BinaryOp { op: BinOp::Gt, left: Box::new(left), right: Box::new(right), line }
}

fn lt(left: Expression, right: Expression, line: usize) -> Expression {
    Expression::BinaryOp { op: BinOp::Lt, left: Box::new(left), right: Box::new(right), line }
}

fn if_stmt(
    condition: Expression,
    then_branch: Vec<Statement>,
    else_branch: Vec<Statement>,
    line: usize,
) -> Statement {
    Statement::IfStmt { condition, then_branch, else_branch, line }
}

fn fc(name: &str, statements: Vec<Statement>) -> Program {
    Program {
        functions: vec![Function {
            name: name.to_string(),
            kind: FunctionKind::FC,
            statements,
            line: 1,
        }],
    }
}

fn outcome_of(outcomes: &[RuleOutcome], rule_no: u64) -> &RuleOutcome {
    outcomes.iter().find(|o| o.rule_no == rule_no).expect("rule outcome present")
}

fn violations_of(outcomes: &[RuleOutcome], rule_no: u64) -> Vec<&plc_secure_checker::rules::report::Violation> {
    match &outcome_of(outcomes, rule_no).status {
        RuleStatus::Violations(v) => v.iter().collect(),
        _ => Vec::new(),
    }
}

#[test]
fn untrusted_input_into_actuator_is_flagged_at_assignment_line() {
    // IF HMI_Speed > 0 THEN Motor_Speed := HMI_Speed; END_IF — a lower
    // bound alone does not confine the value, so the flow is unsanitized.
    let program = fc(
        "Main",
        vec![if_stmt(
            gt(var("HMI_Speed"), num(0, 1), 1),
            vec![assign("Motor_Speed", var("HMI_Speed"), 2)],
            vec![],
            1,
        )],
    );
    let outcomes = run_rules(&program, &Policy::default());
    let v = violations_of(&outcomes, 11);
    assert_eq!(v.len(), 1);
    assert_eq!(v[0].line, 2);
    assert!(v[0].reason.contains("Motor_Speed"));
    assert!(v[0].reason.contains("HMI_Speed"));
}

#[test]
fn non_sensitive_source_under_guard_is_clean() {
    // IF X < 100 THEN Motor_Speed := X; END_IF with X from no sensitive
    // source: clean.
    let program = fc(
        "Main",
        vec![if_stmt(
            lt(var("X"), num(100, 1), 1),
            vec![assign("Motor_Speed", var("X"), 2)],
            vec![],
            1,
        )],
    );
    let outcomes = run_rules(&program, &Policy::default());
    assert!(matches!(outcome_of(&outcomes, 11).status, RuleStatus::Clean));
}

#[test]
fn unguarded_sensitive_assignment_is_flagged_naming_target() {
    // Motor_Speed := HMI_Speed; with no guard and no annotation.
    let program = fc("Main", vec![assign("Motor_Speed", var("HMI_Speed"), 3)]);
    let outcomes = run_rules(&program, &Policy::default());
    let v = violations_of(&outcomes, 11);
    assert_eq!(v.len(), 1);
    assert_eq!(v[0].line, 3);
    assert!(v[0].reason.contains("Motor_Speed"));
}

#[test]
fn upper_bounded_guard_sanitizes_sensitive_flow() {
    // IF HMI_Speed < 100 THEN Motor_Speed := HMI_Speed; END_IF: the guard
    // range-constrains the value, so the flow is sanitized.
    let program = fc(
        "Main",
        vec![if_stmt(
            lt(var("HMI_Speed"), num(100, 1), 1),
            vec![assign("Motor_Speed", var("HMI_Speed"), 2)],
            vec![],
            1,
        )],
    );
    let outcomes = run_rules(&program, &Policy::default());
    assert!(matches!(outcome_of(&outcomes, 11).status, RuleStatus::Clean));
}

#[test]
fn join_tainted_on_either_branch_taints_downstream() {
    // {tainted, clean} at the join: the union keeps the taint, so the
    // sink after the branch is flagged.
    let program = fc(
        "Main",
        vec![
            if_stmt(
                var("Cond"),
                vec![assign("X", var("HMI_A"), 2)],
                vec![assign("X", num(1, 3), 3)],
                1,
            ),
            assign("Motor_Out", var("X"), 5),
        ],
    );
    let outcomes = run_rules(&program, &Policy::default());
    let v = violations_of(&outcomes, 11);
    assert!(v.iter().any(|x| x.line == 5));
}

#[test]
fn join_tainted_on_both_branches_taints_downstream() {
    let program = fc(
        "Main",
        vec![
            if_stmt(
                var("Cond"),
                vec![assign("X", var("HMI_A"), 2)],
                vec![assign("X", var("HMI_B"), 3)],
                1,
            ),
            assign("Motor_Out", var("X"), 5),
        ],
    );
    let outcomes = run_rules(&program, &Policy::default());
    let v = violations_of(&outcomes, 11);
    assert!(v.iter().any(|x| x.line == 5));
}

#[test]
fn join_clean_on_both_branches_stays_clean() {
    let program = fc(
        "Main",
        vec![
            if_stmt(
                var("Cond"),
                vec![assign("X", num(1, 2), 2)],
                vec![assign("X", num(2, 3), 3)],
                1,
            ),
            assign("Motor_Out", var("X"), 5),
        ],
    );
    let outcomes = run_rules(&program, &Policy::default());
    assert!(matches!(outcome_of(&outcomes, 11).status, RuleStatus::Clean));
}

#[test]
fn reassignment_clears_prior_taint() {
    // X is tainted, then overwritten with a literal before reaching the
    // sink: clean.
    let program = fc(
        "Main",
        vec![
            assign("X", var("HMI_A"), 1),
            assign("X", num(0, 2), 2),
            assign("Motor_Out", var("X"), 3),
        ],
    );
    let outcomes = run_rules(&program, &Policy::default());
    assert!(matches!(outcome_of(&outcomes, 11).status, RuleStatus::Clean));
}

#[test]
fn indirect_flow_through_intermediate_is_flagged() {
    let program = fc(
        "Main",
        vec![assign("X", var("HMI_A"), 1), assign("Motor_Out", var("X"), 2)],
    );
    let outcomes = run_rules(&program, &Policy::default());
    let v = violations_of(&outcomes, 11);
    assert_eq!(v.len(), 1);
    assert_eq!(v[0].line, 2);
}

#[test]
fn annotation_above_sanitizes_presence_but_unenforced_is_flagged() {
    // A validation annotation within three lines sanitizes the presence
    // rule, but without a flag-gated guard the enforcement rule reports.
    let program = fc(
        "Main",
        vec![
            Statement::Comment { text: "@PlausibilityCheck done upstream".to_string(), line: 1 },
            assign("Motor_Speed", var("HMI_Speed"), 4),
        ],
    );
    let outcomes = run_rules(&program, &Policy::default());
    assert!(matches!(outcome_of(&outcomes, 11).status, RuleStatus::Clean));
    let v12 = violations_of(&outcomes, 12);
    assert_eq!(v12.len(), 1);
    assert_eq!(v12[0].line, 4);
}

#[test]
fn flag_gated_annotated_use_satisfies_enforcement() {
    let program = fc(
        "Main",
        vec![
            Statement::Comment { text: "@Validation of setpoint".to_string(), line: 1 },
            if_stmt(
                var("SetpointOK"),
                vec![assign("Motor_Speed", var("HMI_Speed"), 4)],
                vec![],
                3,
            ),
        ],
    );
    let outcomes = run_rules(&program, &Policy::default());
    assert!(matches!(outcome_of(&outcomes, 12).status, RuleStatus::Clean));
}

#[test]
fn timer_preset_from_hmi_is_flagged() {
    let program = fc(
        "Main",
        vec![Statement::Call {
            name: "TON_Timer".to_string(),
            args: vec![(String::new(), var("HMI_Delay"))],
            line: 2,
        }],
    );
    let outcomes = run_rules(&program, &Policy::default());
    let v = violations_of(&outcomes, 6);
    assert_eq!(v.len(), 1);
    assert_eq!(v[0].line, 2);
    assert!(v[0].reason.contains("HMI_Delay"));
}

#[test]
fn hmi_input_rule_flags_any_unsanitized_assignment() {
    let program = fc("Main", vec![assign("Plain_Var", var("HMI_Value"), 7)]);
    let outcomes = run_rules(&program, &Policy::default());
    let v = violations_of(&outcomes, 8);
    assert_eq!(v.len(), 1);
    assert_eq!(v[0].line, 7);
}

#[test]
fn case_arms_merge_taint_by_union() {
    // One arm taints X, the others do not; after the CASE the sink is
    // still flagged.
    let program = fc(
        "Main",
        vec![
            Statement::CaseStmt {
                expression: Box::new(var("Selector")),
                cases: vec![
                    (vec![num(1, 2)], vec![assign("X", var("HMI_A"), 2)]),
                    (vec![num(2, 3)], vec![assign("X", num(0, 3), 3)]),
                ],
                else_branch: vec![assign("X", num(1, 4), 4)],
                line: 1,
            },
            assign("Motor_Out", var("X"), 6),
        ],
    );
    let outcomes = run_rules(&program, &Policy::default());
    let v = violations_of(&outcomes, 11);
    assert!(v.iter().any(|x| x.line == 6));
}

#[test]
fn annotation_index_respects_line_zero_and_gap() {
    let program = fc(
        "Main",
        vec![Statement::Comment { text: "@Validation here".to_string(), line: 10 }],
    );
    let ctx = AnalysisContext::from_program(&program);
    assert!(!ctx.has_plausibility_annotation_above(0, 3));
    assert!(ctx.has_plausibility_annotation_above(11, 3));
    assert!(ctx.has_plausibility_annotation_above(13, 3));
    assert!(!ctx.has_plausibility_annotation_above(14, 3));
    assert!(!ctx.has_plausibility_annotation_above(10, 3));
    let empty = AnalysisContext::empty();
    assert!(!empty.has_plausibility_annotation_above(11, 3));
}

#[test]
fn nested_timer_call_in_bare_expression_is_checked() {
    // A timer call used as a bare expression statement is still checked.
    let call = Expression::FuncCall {
        name: "TP_Pulse".to_string(),
        args: vec![var("HMI_Duration")],
        line: 2,
    };
    let program = fc("Main", vec![Statement::Expr { expr: call, line: 2 }]);
    let outcomes = run_rules(&program, &Policy::default());
    let v = violations_of(&outcomes, 6);
    assert_eq!(v.len(), 1);
    assert_eq!(v[0].line, 2);
}

#[test]
fn named_helper_guard_keyword_acts_as_fallback_sanitizer() {
    // A guard through a named helper predicate is not recognized by the
    // structural walk, but its text carries a recognized keyword.
    let guard = Expression::FuncCall {
        name: "Check_Limit".to_string(),
        args: vec![var("HMI_Speed")],
        line: 1,
    };
    let program = fc(
        "Main",
        vec![if_stmt(guard, vec![assign("Motor_Speed", var("HMI_Speed"), 2)], vec![], 1)],
    );
    let outcomes = run_rules(&program, &Policy::default());
    assert!(matches!(outcome_of(&outcomes, 11).status, RuleStatus::Clean));
}
