//! Validate HMI input variables: every assignment whose value draws on
//! HMI-named input must be sanitized.  An engine instance in which every
//! assignment target is a sink.

use vstd::prelude::*;
use vstd::string::StringExecFns;
use crate::ast::Program;
use crate::rules::engine::{
    analyze_program, hits_to_violations, hits_vios, program_hits, push_lit, CfgV, Mode,
    SinkSpec, SinkV, TaintRule,
};
use crate::rules::policy::Policy;
use crate::rules::report::{outcome_for, OutcomeV, RuleOutcome};
use crate::rules::rule11_12::fallback_keywords;
use crate::rules::utils::{comment_views, AnalysisContext};

verus! {

/// The HMI-only source marker list.
pub open spec fn hmi_sources() -> Seq<Seq<char>> {
    seq!["HMI"@]
}

/// The HMI-input configuration.
pub open spec fn r8_cfg() -> CfgV {
    CfgV {
        sources: hmi_sources(),
        sink: SinkV::AnyTarget,
        san_keywords: fallback_keywords(),
        mode: Mode::Presence,
    }
}

/// The rule outcome on a program.
pub open spec fn r8_outcome(p: Program, ann: Seq<(int, Seq<char>)>) -> OutcomeV {
    outcome_for(
        8,
        "Validate HMI input variables"@,
        hits_vios(
            program_hits(r8_cfg(), ann, p.functions@),
            8,
            "Validate HMI input variables"@,
            "HMI input value '"@,
            "' assigned to '"@,
            "' without plausibility checks"@,
            "Add plausibility checks (range limits or comments) before assignment"@,
        ),
    )
}

/// Validate HMI input variables.
pub fn check(program: &Program, _policy: &Policy, ctx: &AnalysisContext) -> (r: RuleOutcome)
    ensures
        r@ == r8_outcome(*program, comment_views(ctx.comments@)),
{
    let mut sources: Vec<String> = Vec::new();
    push_lit(&mut sources, "HMI");
    let mut kws: Vec<String> = Vec::new();
    push_lit(&mut kws, "LIMIT");
    push_lit(&mut kws, "BOUND");
    push_lit(&mut kws, "RANGE");
    push_lit(&mut kws, "MIN");
    push_lit(&mut kws, "MAX");
    let cfg = TaintRule {
        sources,
        sink: SinkSpec::AnyTarget,
        san_keywords: kws,
        mode: Mode::Presence,
    };
    assert(cfg@.sources =~= hmi_sources());
    assert(cfg@.san_keywords =~= fallback_keywords());
    let hits = analyze_program(&cfg, ctx, program);
    let vios = hits_to_violations(
        &hits,
        8,
        "Validate HMI input variables",
        "HMI input value '",
        "' assigned to '",
        "' without plausibility checks",
        "Add plausibility checks (range limits or comments) before assignment",
    );
    RuleOutcome::from_violations(8, String::from_str("Validate HMI input variables"), vios)
}

} // verus!
