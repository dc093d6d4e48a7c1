//! Validate timers and counters: a timer preset sourced from sensitive
//! data must be range-checked before the call.  An engine instance whose
//! sinks are the arguments of TP/TON/TOF-style timer calls; the modeled
//! dialects pass presets positionally, so every argument of such a call
//! counts.

use vstd::prelude::*;
use vstd::string::StringExecFns;
use crate::ast::Program;
use crate::rules::engine::{
    analyze_program, hits_to_violations, hits_vios, program_hits, push_lit, CfgV, Mode,
    SinkSpec, SinkV, TaintRule,
};
use crate::rules::policy::Policy;
use crate::rules::report::{outcome_for, OutcomeV, RuleOutcome};
use crate::rules::rule11_12::{fallback_keywords, sensitive_sources};
use crate::rules::utils::{comment_views, AnalysisContext};

verus! {

/// Name markers of timer calls.
pub open spec fn timer_sinks() -> Seq<Seq<char>> {
    seq!["TP"@, "TON"@, "TOF"@]
}

/// The timer-preset configuration.
pub open spec fn r6_cfg() -> CfgV {
    CfgV {
        sources: sensitive_sources(),
        sink: SinkV::CallNameContains(timer_sinks()),
        san_keywords: fallback_keywords(),
        mode: Mode::Presence,
    }
}

/// The rule outcome on a program.
pub open spec fn r6_outcome(p: Program, ann: Seq<(int, Seq<char>)>) -> OutcomeV {
    outcome_for(
        6,
        "Validate timers and counters"@,
        hits_vios(
            program_hits(r6_cfg(), ann, p.functions@),
            6,
            "Validate timers and counters"@,
            "Timer preset sourced from '"@,
            "' in call '"@,
            "' without plausibility check"@,
            "Precede timer assignment with a numeric range check"@,
        ),
    )
}

/// Validate timers and counters.
pub fn check(program: &Program, _policy: &Policy, ctx: &AnalysisContext) -> (r: RuleOutcome)
    ensures
        r@ == r6_outcome(*program, comment_views(ctx.comments@)),
{
    let mut sources: Vec<String> = Vec::new();
    push_lit(&mut sources, "HMI");
    push_lit(&mut sources, "RECIPE");
    push_lit(&mut sources, "PARAM");
    push_lit(&mut sources, "SETPOINT");
    let mut sinks: Vec<String> = Vec::new();
    push_lit(&mut sinks, "TP");
    push_lit(&mut sinks, "TON");
    push_lit(&mut sinks, "TOF");
    let mut kws: Vec<String> = Vec::new();
    push_lit(&mut kws, "LIMIT");
    push_lit(&mut kws, "BOUND");
    push_lit(&mut kws, "RANGE");
    push_lit(&mut kws, "MIN");
    push_lit(&mut kws, "MAX");
    let cfg = TaintRule {
        sources,
        sink: SinkSpec::CallNameContains(sinks),
        san_keywords: kws,
        mode: Mode::Presence,
    };
    assert(cfg@.sources =~= sensitive_sources());
    assert(cfg@.sink->CallNameContains_0 =~= timer_sinks());
    assert(cfg@.san_keywords =~= fallback_keywords());
    let hits = analyze_program(&cfg, ctx, program);
    let vios = hits_to_violations(
        &hits,
        6,
        "Validate timers and counters",
        "Timer preset sourced from '",
        "' in call '",
        "' without plausibility check",
        "Precede timer assignment with a numeric range check",
    );
    RuleOutcome::from_violations(6, String::from_str("Validate timers and counters"), vios)
}

} // verus!
