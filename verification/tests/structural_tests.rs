//! Tests for the structural rules: size thresholds, division guards,
//! exclusive pairs, startup/diagnostic routines, and the policy-driven
//! memory-region check.

use plc_secure_checker::ast::{
    BinOp, Expression, Function, FunctionKind, Program, Statement, Variable,
};
use plc_secure_checker::rules::policy::{MemoryArea, Policy};
use plc_secure_checker::rules::registry::run_rules;
use plc_secure_checker::rules::report::{RuleOutcome, RuleStatus, Violation};
use plc_secure_checker::rules::rule1::cyclomatic_complexity;
use plc_secure_checker::rules::rule10::parse_mem_address;

fn var(name: &str) -> Expression {
    Expression::VariableRef(name.to_string())
}

fn num(n: i64, line: usize) -> Expression {
    Expression::NumberLiteral(n, line)
}

fn boolean(b: bool, line: usize) -> Expression {
    Expression::BoolLiteral(b, line)
}

fn assign(target: &str, value: Expression, line: usize) -> Statement {
    Statement::Assign { target: Variable { name: target.to_string() }, value, line }
}

fn bin(op: BinOp, left: Expression, right: Expression, line: usize) -> Expression {
    Expression::BinaryOp { op, left: Box::new(left), right: Box::new(right), line }
}

fn if_stmt(
    condition: Expression,
    then_branch: Vec<Statement>,
    else_branch: Vec<Statement>,
    line: usize,
) -> Statement {
    Statement::IfStmt { condition, then_branch, else_branch, line }
}

fn routine(name: &str, kind: FunctionKind, statements: Vec<Statement>, line: usize) -> Function {
    Function { name: name.to_string(), kind, statements, line }
}

fn fc(statements: Vec<Statement>) -> Program {
    Program { functions: vec![routine("Main", FunctionKind::FC, statements, 1)] }
}

fn outcome_of(outcomes: &[RuleOutcome], rule_no: u64) -> &RuleOutcome {
    outcomes.iter().find(|o| o.rule_no == rule_no).expect("rule outcome present")
}

fn violations_of(outcomes: &[RuleOutcome], rule_no: u64) -> Vec<&Violation> {
    match &outcome_of(outcomes, rule_no).status {
        RuleStatus::Violations(v) => v.iter().collect(),
        _ => Vec::new(),
    }
}

fn sequential_ifs(count: usize) -> Vec<Statement> {
    let mut body = Vec::new();
    for k in 0..count {
        body.push(if_stmt(var("C"), vec![assign("Y", num(1, k + 1), k + 1)], vec![], k + 1));
    }
    body
}

#[test]
fn fifty_one_branches_exceed_the_complexity_threshold() {
    let body = sequential_ifs(51);
    assert_eq!(cyclomatic_complexity(&body), 52);
    let program = fc(body);
    let outcomes = run_rules(&program, &Policy::default());
    let v = violations_of(&outcomes, 1);
    assert_eq!(v.len(), 1);
    assert!(v[0].reason.contains("Cyclomatic complexity 52 exceeds 50"));
}

#[test]
fn fifty_branches_stay_below_the_complexity_threshold() {
    let body = sequential_ifs(50);
    assert_eq!(cyclomatic_complexity(&body), 51);
    let program = fc(body);
    let outcomes = run_rules(&program, &Policy::default());
    assert!(matches!(outcome_of(&outcomes, 1).status, RuleStatus::Clean));
}

#[test]
fn unguarded_division_is_flagged_once() {
    // A := B / C; outside any status-word guard.
    let program = fc(vec![assign("A", bin(BinOp::Div, var("B"), var("C"), 1), 1)]);
    let outcomes = run_rules(&program, &Policy::default());
    let v = violations_of(&outcomes, 4);
    assert_eq!(v.len(), 1);
    assert_eq!(v[0].line, 1);
}

#[test]
fn status_word_guard_suppresses_the_division_rule() {
    // IF SW.OV=0 AND SW.OS=0 THEN A := B / C; END_IF
    let guard = bin(
        BinOp::And,
        bin(BinOp::Eq, var("SW.OV"), num(0, 1), 1),
        bin(BinOp::Eq, var("SW.OS"), num(0, 1), 1),
        1,
    );
    let program = fc(vec![if_stmt(
        guard,
        vec![assign("A", bin(BinOp::Div, var("B"), var("C"), 2), 2)],
        vec![],
        1,
    )]);
    let outcomes = run_rules(&program, &Policy::default());
    assert!(matches!(outcome_of(&outcomes, 4).status, RuleStatus::Clean));
}

#[test]
fn nested_division_is_not_double_reported() {
    // A := B / (C / D); — one violation, not two.
    let inner = bin(BinOp::Div, var("C"), var("D"), 1);
    let program = fc(vec![assign("A", bin(BinOp::Div, var("B"), inner, 1), 1)]);
    let outcomes = run_rules(&program, &Policy::default());
    let v = violations_of(&outcomes, 4);
    assert_eq!(v.len(), 1);
}

#[test]
fn exclusive_pair_both_true_is_flagged_at_second_assignment() {
    let policy = Policy {
        pairs: Some(vec![["Motor_Fwd".to_string(), "Motor_Rev".to_string()]]),
        memory_areas: None,
        platform: None,
    };
    let program = fc(vec![
        assign("Motor_Fwd", boolean(true, 1), 1),
        assign("Motor_Rev", boolean(true, 2), 2),
    ]);
    let outcomes = run_rules(&program, &policy);
    let v = violations_of(&outcomes, 7);
    assert_eq!(v.len(), 1);
    assert_eq!(v[0].line, 2);
    assert!(v[0].reason.contains("Motor_Fwd"));
    assert!(v[0].reason.contains("Motor_Rev"));
}

#[test]
fn exclusive_pair_reset_between_assignments_is_clean() {
    let policy = Policy {
        pairs: Some(vec![["Motor_Fwd".to_string(), "Motor_Rev".to_string()]]),
        memory_areas: None,
        platform: None,
    };
    let program = fc(vec![
        assign("Motor_Fwd", boolean(true, 1), 1),
        assign("Motor_Fwd", boolean(false, 2), 2),
        assign("Motor_Rev", boolean(true, 3), 3),
    ]);
    let outcomes = run_rules(&program, &policy);
    assert!(matches!(outcome_of(&outcomes, 7).status, RuleStatus::Clean));
}

#[test]
fn exclusive_pair_in_separate_branches_is_clean() {
    let policy = Policy {
        pairs: Some(vec![["Motor_Fwd".to_string(), "Motor_Rev".to_string()]]),
        memory_areas: None,
        platform: None,
    };
    let program = fc(vec![if_stmt(
        var("Dir"),
        vec![assign("Motor_Fwd", boolean(true, 2), 2)],
        vec![assign("Motor_Rev", boolean(true, 3), 3)],
        1,
    )]);
    let outcomes = run_rules(&program, &policy);
    assert!(matches!(outcome_of(&outcomes, 7).status, RuleStatus::Clean));
}

#[test]
fn empty_startup_routine_is_flagged_as_empty() {
    let program = Program {
        functions: vec![routine("OB100", FunctionKind::OB100, vec![], 5)],
    };
    let outcomes = run_rules(&program, &Policy::default());
    let v = violations_of(&outcomes, 15);
    assert_eq!(v.len(), 1);
    assert!(v[0].reason.contains("exists but is empty"));
    assert_eq!(v[0].line, 5);
}

#[test]
fn missing_startup_routine_is_flagged_as_not_found() {
    let program = fc(vec![assign("Y", num(1, 1), 1)]);
    let outcomes = run_rules(&program, &Policy::default());
    let v = violations_of(&outcomes, 15);
    assert_eq!(v.len(), 1);
    assert!(v[0].reason.contains("not found"));
    assert_eq!(v[0].line, 0);
}

#[test]
fn safe_startup_initialization_is_clean_and_unsafe_is_reported() {
    let safe = Program {
        functions: vec![routine(
            "OB100",
            FunctionKind::OB100,
            vec![assign("Motor_Out", boolean(false, 2), 2)],
            1,
        )],
    };
    let outcomes = run_rules(&safe, &Policy::default());
    assert!(matches!(outcome_of(&outcomes, 15).status, RuleStatus::Clean));

    let unsafe_init = Program {
        functions: vec![routine(
            "OB100",
            FunctionKind::OB100,
            vec![
                assign("Motor_Out", boolean(true, 2), 2),
                assign("Valve_Output", num(0, 3), 3),
            ],
            1,
        )],
    };
    let outcomes2 = run_rules(&unsafe_init, &Policy::default());
    let v = violations_of(&outcomes2, 15);
    assert_eq!(v.len(), 1);
    assert!(v[0].reason.contains("Motor_Out"));
    assert!(v[0].reason.contains("UNSAFELY"));
    assert_eq!(v[0].line, 2);
}

#[test]
fn missing_diagnostic_routines_yield_three_findings() {
    let program = fc(vec![assign("Y", num(1, 1), 1)]);
    let outcomes = run_rules(&program, &Policy::default());
    let v = violations_of(&outcomes, 18);
    assert_eq!(v.len(), 3);
    assert!(v[0].reason.contains("OB86"));
    assert!(v[1].reason.contains("OB121"));
    assert!(v[2].reason.contains("OB82"));
}

#[test]
fn diagnostic_routine_with_alarm_action_is_accepted() {
    let program = Program {
        functions: vec![
            routine(
                "OB86",
                FunctionKind::OB86,
                vec![assign("Rack_Alarm", boolean(true, 2), 2)],
                1,
            ),
            routine(
                "OB121",
                FunctionKind::OB121,
                vec![Statement::Call { name: "Write_Diag_Log".to_string(), args: vec![], line: 4 }],
                3,
            ),
            routine(
                "OB82",
                FunctionKind::OB82,
                vec![assign("Fault_Latch", boolean(true, 6), 6)],
                5,
            ),
        ],
    };
    let outcomes = run_rules(&program, &Policy::default());
    assert!(matches!(outcome_of(&outcomes, 18).status, RuleStatus::Clean));
}

#[test]
fn write_into_read_only_region_is_flagged() {
    let policy = Policy {
        pairs: None,
        memory_areas: Some(vec![MemoryArea {
            address: "%MW100-%MW200".to_string(),
            access: "ReadOnly".to_string(),
        }]),
        platform: None,
    };
    let program = fc(vec![assign("%MW150", num(5, 3), 3)]);
    let outcomes = run_rules(&program, &policy);
    let v = violations_of(&outcomes, 10);
    assert_eq!(v.len(), 1);
    assert_eq!(v[0].line, 3);
    assert_eq!(v[0].reason, "Write to read-only region %MW150");
}

#[test]
fn write_outside_read_only_region_is_clean() {
    let policy = Policy {
        pairs: None,
        memory_areas: Some(vec![MemoryArea {
            address: "%MW100-%MW200".to_string(),
            access: "ReadOnly".to_string(),
        }]),
        platform: None,
    };
    let program = fc(vec![assign("%MW250", num(5, 3), 3), assign("%Q150", num(1, 4), 4)]);
    let outcomes = run_rules(&program, &policy);
    assert!(matches!(outcome_of(&outcomes, 10).status, RuleStatus::Clean));
}

#[test]
fn memory_addresses_parse_area_and_offset() {
    let parsed = parse_mem_address("%MW100").expect("address parses");
    assert_eq!(parsed.0, "%MW");
    assert_eq!(parsed.1, 100);
    let dotted = parse_mem_address("%DB1.DBX10.0").expect("dotted address parses");
    assert_eq!(dotted.0, "%DB");
    assert_eq!(dotted.1, 1);
    assert!(parse_mem_address("MW100").is_none());
    assert!(parse_mem_address("%MW").is_none());
}

#[test]
fn range_bounds_read_both_ends() {
    let area = MemoryArea { address: "%MW100-%MW200".to_string(), access: "ReadOnly".to_string() };
    assert_eq!(area.range_bounds(), Some((100, 200)));
    let bad = MemoryArea { address: "%MW100".to_string(), access: "ReadOnly".to_string() };
    assert_eq!(bad.range_bounds(), None);
}

#[test]
fn unguarded_array_index_is_flagged_and_guarded_one_is_not() {
    let idx = Expression::Index {
        base: Box::new(var("Buffer")),
        index: Box::new(var("I")),
        line: 2,
    };
    let flagged = fc(vec![assign("Y", idx, 2)]);
    let outcomes = run_rules(&flagged, &Policy::default());
    let v = violations_of(&outcomes, 9);
    assert_eq!(v.len(), 1);
    assert!(v[0].reason.contains("'I'"));

    let idx2 = Expression::Index {
        base: Box::new(var("Buffer")),
        index: Box::new(var("I")),
        line: 2,
    };
    let guarded = fc(vec![if_stmt(
        bin(BinOp::Lt, var("I"), num(10, 1), 1),
        vec![assign("Y", idx2, 2)],
        vec![],
        1,
    )]);
    let outcomes2 = run_rules(&guarded, &Policy::default());
    assert!(matches!(outcome_of(&outcomes2, 9).status, RuleStatus::Clean));
}

#[test]
fn unsafe_memory_copy_call_is_flagged() {
    let program = fc(vec![Statement::Call { name: "STRCPY".to_string(), args: vec![], line: 4 }]);
    let outcomes = run_rules(&program, &Policy::default());
    let v = violations_of(&outcomes, 9);
    assert_eq!(v.len(), 1);
    assert!(v[0].reason.contains("STRCPY"));
}

#[test]
fn untrapped_critical_alert_is_flagged() {
    let program = fc(vec![assign("Critical_Alert_Temp", boolean(true, 1), 1)]);
    let outcomes = run_rules(&program, &Policy::default());
    let v = violations_of(&outcomes, 20);
    assert_eq!(v.len(), 1);
    assert!(v[0].reason.contains("Critical_Alert_Temp"));
}

#[test]
fn fully_trapped_critical_alert_is_clean() {
    let program = fc(vec![
        assign("Critical_Alert_Temp", boolean(true, 1), 1),
        assign("Critical_Alert_Temp_False_Negative", boolean(false, 2), 2),
        assign("Critical_Alert_Temp_False_Positive", boolean(false, 3), 3),
    ]);
    let outcomes = run_rules(&program, &Policy::default());
    assert!(matches!(outcome_of(&outcomes, 20).status, RuleStatus::Clean));
}

#[test]
fn case_label_groups_count_toward_complexity() {
    // A CASE with three label groups and a non-empty ELSE contributes
    // 3 + 1 branches: complexity 1 + 4 = 5.
    let body = vec![Statement::CaseStmt {
        expression: Box::new(var("Step")),
        cases: vec![
            (vec![num(1, 2)], vec![assign("Y", num(1, 2), 2)]),
            (vec![num(2, 3)], vec![assign("Y", num(2, 3), 3)]),
            (vec![num(3, 4)], vec![assign("Y", num(3, 4), 4)]),
        ],
        else_branch: vec![assign("Y", num(0, 5), 5)],
        line: 1,
    }];
    assert_eq!(cyclomatic_complexity(&body), 5);
}

#[test]
fn statement_count_over_the_limit_is_flagged() {
    let mut body = Vec::new();
    for k in 0..501 {
        body.push(assign("Y", num(k as i64, k + 1), k + 1));
    }
    let program = fc(body);
    let outcomes = run_rules(&program, &Policy::default());
    let v = violations_of(&outcomes, 1);
    assert_eq!(v.len(), 1);
    assert!(v[0].reason.contains("Statement count 501 exceeds 500"));
}

#[test]
fn a_non_empty_else_adds_one_more_branch_point() {
    // One IF with a non-empty ELSE: 1 for the IF plus 1 for the ELSE,
    // so the cyclomatic value is 3; with an empty ELSE it is 2.
    let with_else = vec![if_stmt(
        var("C"),
        vec![assign("Y", num(1, 2), 2)],
        vec![assign("Y", num(2, 3), 3)],
        1,
    )];
    assert_eq!(cyclomatic_complexity(&with_else), 3);
    let without_else = vec![if_stmt(var("C"), vec![assign("Y", num(1, 2), 2)], vec![], 1)];
    assert_eq!(cyclomatic_complexity(&without_else), 2);
}
