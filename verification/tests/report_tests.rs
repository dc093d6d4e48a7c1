//! Tests for the aggregator, the canonicalizer, the instruction-list
//! front end, and the remaining program-wide rules.

use plc_secure_checker::ast::{
    BinOp, Expression, Function, FunctionKind, Program, Statement, UnaryOp, Variable,
};
use plc_secure_checker::parser::il::parse_il_from_str;
use plc_secure_checker::rules::policy::Policy;
use plc_secure_checker::rules::registry::run_rules;
use plc_secure_checker::rules::report::{RuleOutcome, RuleStatus, Violation};
use plc_secure_checker::rules::utils::expr_text;
use plc_secure_checker::text::{str_contains, str_contains_up, str_eq_up, to_upper};

fn var(name: &str) -> Expression {
    Expression::VariableRef(name.to_string())
}

fn num(n: i64, line: usize) -> Expression {
    Expression::NumberLiteral(n, line)
}

fn assign(target: &str, value: Expression, line: usize) -> Statement {
    Statement::Assign { target: Variable { name: target.to_string() }, value, line }
}

fn bin(op: BinOp, left: Expression, right: Expression, line: usize) -> Expression {
    Expression::BinaryOp { op, left: Box::new(left), right: Box::new(right), line }
}

fn fc(statements: Vec<Statement>) -> Program {
    Program {
        functions: vec![Function {
            name: "Main".to_string(),
            kind: FunctionKind::FC,
            statements,
            line: 1,
        }],
    }
}

fn outcome_of(outcomes: &[RuleOutcome], rule_no: u64) -> &RuleOutcome {
    outcomes.iter().find(|o| o.rule_no == rule_no).expect("rule outcome present")
}

fn violations_of(outcomes: &[RuleOutcome], rule_no: u64) -> Vec<&Violation> {
    match &outcome_of(outcomes, rule_no).status {
        RuleStatus::Violations(v) => v.iter().collect(),
        _ => Vec::new(),
    }
}

#[test]
fn running_the_catalog_twice_yields_identical_outcomes() {
    let policy = Policy {
        pairs: Some(vec![["Motor_Fwd".to_string(), "Motor_Rev".to_string()]]),
        memory_areas: None,
        platform: None,
    };
    let program = fc(vec![
        assign("Motor_Speed", var("HMI_Speed"), 1),
        assign("A", bin(BinOp::Div, var("B"), var("C"), 2), 2),
    ]);
    let first = run_rules(&program, &policy);
    let second = run_rules(&program, &policy);
    assert_eq!(first, second);
}

#[test]
fn outcomes_come_in_rule_number_order() {
    let program = fc(vec![assign("Y", num(1, 1), 1)]);
    let outcomes = run_rules(&program, &Policy::default());
    let order: Vec<u64> = outcomes.iter().map(|o| o.rule_no).collect();
    assert_eq!(order, vec![1, 2, 4, 5, 6, 7, 8, 9, 10, 11, 12, 15, 16, 17, 18, 19, 20]);
}

#[test]
fn error_outcome_carries_its_message() {
    let o = RuleOutcome::error(0, "Policy Parsing Error".to_string(), "bad JSON".to_string());
    assert_eq!(o.rule_no, 0);
    match &o.status {
        RuleStatus::Error(m) => assert_eq!(m, "bad JSON"),
        _ => panic!("expected an error status"),
    }
}

#[test]
fn canonical_text_reproduces_operator_symbols() {
    let e = bin(BinOp::Neq, var("A"), num(0, 1), 1);
    assert_eq!(expr_text(&e), "A <> 0");
    let e2 = bin(BinOp::Le, var("X"), num(-5, 1), 1);
    assert_eq!(expr_text(&e2), "X <= -5");
    let e3 = Expression::UnaryOp { op: UnaryOp::Not, expr: Box::new(var("Flag")), line: 1 };
    assert_eq!(expr_text(&e3), "NOT Flag");
    let e4 = Expression::FuncCall {
        name: "Clamp".to_string(),
        args: vec![var("X"), num(0, 1), num(100, 1)],
        line: 1,
    };
    assert_eq!(expr_text(&e4), "Clamp(X, 0, 100)");
    let e5 = Expression::Index { base: Box::new(var("Buf")), index: Box::new(var("I")), line: 1 };
    assert_eq!(expr_text(&e5), "Buf[I]");
    let e6 = Expression::BoolLiteral(true, 1);
    assert_eq!(expr_text(&e6), "TRUE");
}

#[test]
fn string_helpers_match_ascii_case_insensitively() {
    assert!(str_contains("Hello world", "lo wo"));
    assert!(!str_contains("Hello", "hello"));
    assert!(str_contains_up("hmi_speed", "HMI"));
    assert!(str_eq_up("ReadOnly", "READONLY"));
    assert_eq!(to_upper("aBc_1"), "ABC_1");
}

#[test]
fn il_source_parses_into_one_program_routine() {
    let src = "LD X\nADD 5\nST Y\n";
    let program = parse_il_from_str(src).expect("IL parses");
    assert_eq!(program.functions.len(), 1);
    assert_eq!(program.functions[0].name, "IL_Program");
    assert!(matches!(program.functions[0].kind, FunctionKind::Program));
    assert_eq!(program.functions[0].line, 1);
    assert_eq!(program.functions[0].statements.len(), 1);
    match &program.functions[0].statements[0] {
        Statement::Assign { target, value, line } => {
            assert_eq!(target.name, "Y");
            assert_eq!(*line, 3);
            match value {
                Expression::BinaryOp { op, left, right, .. } => {
                    assert!(matches!(op, BinOp::Add));
                    assert!(matches!(&**left, Expression::VariableRef(n) if n == "X"));
                    assert!(matches!(&**right, Expression::NumberLiteral(5, _)));
                },
                other => panic!("unexpected value shape: {:?}", other),
            }
        },
        other => panic!("unexpected statement shape: {:?}", other),
    }
}

#[test]
fn il_conditional_jump_becomes_an_if_statement() {
    let src = "LD Flag\nJMPC Skip\nLD 1\nST Y\nSkip:\nLD 2\nST Z\n";
    let program = parse_il_from_str(src).expect("IL parses");
    let stmts = &program.functions[0].statements;
    assert_eq!(stmts.len(), 2);
    match &stmts[0] {
        Statement::IfStmt { condition, then_branch, else_branch, .. } => {
            assert!(matches!(condition, Expression::VariableRef(n) if n == "Flag"));
            assert_eq!(then_branch.len(), 1);
            assert!(else_branch.is_empty());
        },
        other => panic!("unexpected statement shape: {:?}", other),
    }
    assert!(matches!(&stmts[1], Statement::Assign { target, .. } if target.name == "Z"));
}

#[test]
fn il_literals_and_negated_loads_parse() {
    let src = "LDN Enable\nST Motor_Off\nLD TRUE\nST Flag\nLD -12\nST N\n";
    let program = parse_il_from_str(src).expect("IL parses");
    let stmts = &program.functions[0].statements;
    assert_eq!(stmts.len(), 3);
    assert!(matches!(
        &stmts[0],
        Statement::Assign { value: Expression::UnaryOp { op: UnaryOp::Not, .. }, .. }
    ));
    assert!(matches!(
        &stmts[1],
        Statement::Assign { value: Expression::BoolLiteral(true, _), .. }
    ));
    assert!(matches!(
        &stmts[2],
        Statement::Assign { value: Expression::NumberLiteral(-12, _), .. }
    ));
}

#[test]
fn mode_tracking_is_recognized_and_its_absence_flagged() {
    let with_mode = fc(vec![Statement::IfStmt {
        condition: var("CPU_MODE"),
        then_branch: vec![assign("Y", num(1, 2), 2)],
        else_branch: vec![],
        line: 1,
    }]);
    let outcomes = run_rules(&with_mode, &Policy::default());
    assert!(matches!(outcome_of(&outcomes, 2).status, RuleStatus::Clean));

    let without = fc(vec![assign("Y", num(1, 1), 1)]);
    let outcomes2 = run_rules(&without, &Policy::default());
    let v = violations_of(&outcomes2, 2);
    assert_eq!(v.len(), 1);
    assert!(v[0].reason.contains("No state machine"));
}

#[test]
fn recipe_use_without_checksum_check_is_flagged_and_with_one_is_clean() {
    let flagged = fc(vec![assign("Setting", var("Recipe_Weight"), 2)]);
    let outcomes = run_rules(&flagged, &Policy::default());
    let v = violations_of(&outcomes, 5);
    assert_eq!(v.len(), 1);
    assert!(v[0].reason.contains("Main"));

    let checked = fc(vec![
        Statement::IfStmt {
            condition: bin(BinOp::Neq, var("CRC_Calc"), var("CRC_Stored"), 1),
            then_branch: vec![assign("Alarm_Flag", Expression::BoolLiteral(true, 2), 2)],
            else_branch: vec![],
            line: 1,
        },
        assign("Setting", var("Recipe_Weight"), 4),
    ]);
    let outcomes2 = run_rules(&checked, &Policy::default());
    assert!(matches!(outcome_of(&outcomes2, 5).status, RuleStatus::Clean));
}

#[test]
fn cycle_time_summary_is_required_only_when_ob1_exists() {
    let no_ob1 = fc(vec![assign("Y", num(1, 1), 1)]);
    let outcomes = run_rules(&no_ob1, &Policy::default());
    assert!(matches!(outcome_of(&outcomes, 16).status, RuleStatus::Clean));

    let incomplete = Program {
        functions: vec![Function {
            name: "OB1".to_string(),
            kind: FunctionKind::OB1,
            statements: vec![assign("Y", num(1, 2), 2)],
            line: 1,
        }],
    };
    let outcomes2 = run_rules(&incomplete, &Policy::default());
    let v = violations_of(&outcomes2, 16);
    assert_eq!(v.len(), 1);
    assert!(v[0].reason.contains("capture+emit"));

    let complete = Program {
        functions: vec![Function {
            name: "OB1".to_string(),
            kind: FunctionKind::OB1,
            statements: vec![assign("HMI_CycleTime", var("OB1_PREV_CYCLE"), 2)],
            line: 1,
        }],
    };
    let outcomes3 = run_rules(&complete, &Policy::default());
    assert!(matches!(outcome_of(&outcomes3, 16).status, RuleStatus::Clean));
}

#[test]
fn uptime_and_memory_monitoring_absence_is_flagged() {
    let program = fc(vec![assign("Y", num(1, 1), 1)]);
    let outcomes = run_rules(&program, &Policy::default());
    let v17 = violations_of(&outcomes, 17);
    assert_eq!(v17.len(), 1);
    assert!(v17[0].reason.contains("No monotonic uptime logging detected"));
    let v19 = violations_of(&outcomes, 19);
    assert_eq!(v19.len(), 1);
    assert!(v19[0].reason.contains("No evidence of memory monitoring found."));
}

#[test]
fn uptime_counter_with_reporting_satisfies_the_uptime_rule() {
    let program = fc(vec![
        assign("Uptime_Counter", bin(BinOp::Add, var("Uptime_Counter"), num(1, 1), 1), 1),
        assign("HMI_Uptime", var("Uptime_Counter"), 2),
    ]);
    let outcomes = run_rules(&program, &Policy::default());
    assert!(matches!(outcome_of(&outcomes, 17).status, RuleStatus::Clean));
}

#[test]
fn memory_read_without_compare_or_emit_is_flagged_at_the_read() {
    let program = fc(vec![Statement::Call {
        name: "SFC24".to_string(),
        args: vec![],
        line: 6,
    }]);
    let outcomes = run_rules(&program, &Policy::default());
    let v = violations_of(&outcomes, 19);
    assert_eq!(v.len(), 1);
    assert_eq!(v[0].line, 6);
    assert!(v[0].reason.contains("not compared and/or emitted"));
}

#[test]
fn il_store_writes_the_loaded_value() {
    let src = "LD 5\nST X";
    let program = parse_il_from_str(src).expect("IL parses");
    let stmts = &program.functions[0].statements;
    assert_eq!(stmts.len(), 1);
    match &stmts[0] {
        Statement::Assign { target, value, line } => {
            assert_eq!(target.name, "X");
            assert_eq!(*line, 2);
            assert!(matches!(value, Expression::NumberLiteral(5, 1)));
        },
        other => panic!("unexpected statement shape: {:?}", other),
    }
}
