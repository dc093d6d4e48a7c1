//! The result aggregator: run the whole rule catalog over one program and
//! policy, in rule-number order, collecting a uniform report.
//!
//! The analysis context (the annotation index) is built once per run from
//! the comment statements the front end retained, and passed by reference
//! into every rule, so no state survives from one invocation to the next.

use vstd::prelude::*;
use crate::ast::Program;
use crate::rules::policy::Policy;
use crate::rules::report::{outcome_views, OutcomeV, RuleOutcome};
use crate::rules::utils::{comment_views, program_comments, AnalysisContext};
use crate::rules::{
    rule1, rule10, rule11_12, rule15, rule16, rule17, rule18, rule19, rule2, rule20, rule4,
    rule5, rule6, rule7, rule8, rule9,
};

verus! {

/// The whole catalog's outcomes, in rule-number order, as a function of
/// the program and the policy alone.
pub open spec fn run_rules_spec(p: Program, pol: Policy) -> Seq<OutcomeV> {
    let ann = program_comments(p.functions@);
    seq![
        rule1::r1_outcome(p),
        rule2::r2_outcome(p),
        rule4::r4_outcome(p),
        rule5::r5_outcome(p),
        rule6::r6_outcome(p, ann),
        rule7::r7_outcome(p, pol),
        rule8::r8_outcome(p, ann),
        rule9::r9_outcome(p),
        rule10::r10_outcome(p, pol),
        rule11_12::r11_outcome(p, ann),
        rule11_12::r12_outcome(p, ann),
        rule15::r15_outcome(p),
        rule16::r16_outcome(p),
        rule17::r17_outcome(p),
        rule18::r18_outcome(p),
        rule19::r19_outcome(p),
        rule20::r20_outcome(p),
    ]
}

/// Run every rule of the catalog over the program and policy.  The rules
/// are independent and read-only over their inputs; the report is ordered
/// by rule number.
pub fn run_rules(program: &Program, policy: &Policy) -> (r: Vec<RuleOutcome>)
    ensures
        outcome_views(r@) == run_rules_spec(*program, *policy),
{
    let ctx = AnalysisContext::from_program(program);
    let mut out: Vec<RuleOutcome> = Vec::new();
    out.push(rule1::check(program));
    out.push(rule2::check(program));
    out.push(rule4::check(program));
    out.push(rule5::check(program));
    out.push(rule6::check(program, policy, &ctx));
    out.push(rule7::check(program, policy));
    out.push(rule8::check(program, policy, &ctx));
    out.push(rule9::check(program));
    out.push(rule10::check(program, policy));
    out.push(rule11_12::check_rule11(program, &ctx));
    out.push(rule11_12::check_rule12(program, &ctx));
    out.push(rule15::check(program));
    out.push(rule16::check(program));
    out.push(rule17::check(program));
    out.push(rule18::check(program));
    out.push(rule19::check(program));
    out.push(rule20::check(program));
    assert(comment_views(ctx.comments@) == program_comments(program.functions@));
    assert(outcome_views(out@) =~= run_rules_spec(*program, *policy));
    out
}

/// Idempotence of the catalog: the outcome list is a function of the
/// program and the policy alone, so invoking the catalog twice over the
/// same inputs yields identical outcome lists — there is no hidden state
/// that an earlier run could leave behind.
pub proof fn lemma_run_rules_idempotent(
    p: Program,
    pol: Policy,
    first: Seq<OutcomeV>,
    second: Seq<OutcomeV>,
)
    requires
        first == run_rules_spec(p, pol),
        second == run_rules_spec(p, pol),
    ensures
        first == second,
{
}

} // verus!
