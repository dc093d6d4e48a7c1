//! Plausibility checks: untrusted input reaching actuator outputs.
//!
//! Two engine instances over the same source and sink predicates.
//! Presence mode (rule 11) reports a sensitive value flowing into an
//! actuator-like target with no sanitization: no validation annotation
//! nearby, no enclosing range-constraining guard, and no recognized
//! keyword fallback.  Enforcement mode (rule 12) reports a value whose
//! annotation is present but never acted on by a flag-gated guard.

use vstd::prelude::*;
use vstd::string::StringExecFns;
use crate::ast::Program;
use crate::rules::engine::{
    analyze_program, hit_views, hits_to_violations, hits_vios, program_hits, push_lit, CfgV,
    HitV, Mode, SinkSpec, SinkV, TaintHit, TaintRule,
};
use crate::rules::report::{outcome_for, vio_views, OutcomeV, RuleOutcome, VioV, Violation};
use crate::rules::utils::{comment_views, AnalysisContext};

verus! {

/// Name markers of untrusted origins: operator/HMI input, recipe and
/// parameter data, operator-settable setpoints.
pub open spec fn sensitive_sources() -> Seq<Seq<char>> {
    seq!["HMI"@, "RECIPE"@, "PARAM"@, "SETPOINT"@]
}

/// Name markers of actuator-like assignment targets.
pub open spec fn actuator_sinks() -> Seq<Seq<char>> {
    seq!["MOTOR"@, "SPEED"@, "SETPOINT"@, "POSITION"@, "CMD"@, "COMMAND"@, "OUTPUT"@]
}

/// Keywords accepted in guard text as a documented fallback for helper
/// predicates the structural guard walk does not recognize.
pub open spec fn fallback_keywords() -> Seq<Seq<char>> {
    seq!["LIMIT"@, "BOUND"@, "RANGE"@, "MIN"@, "MAX"@]
}

/// The presence-mode configuration.
pub open spec fn r11_cfg() -> CfgV {
    CfgV {
        sources: sensitive_sources(),
        sink: SinkV::TargetContains(actuator_sinks()),
        san_keywords: fallback_keywords(),
        mode: Mode::Presence,
    }
}

/// The enforcement-mode configuration.
pub open spec fn r12_cfg() -> CfgV {
    CfgV {
        sources: sensitive_sources(),
        sink: SinkV::TargetContains(actuator_sinks()),
        san_keywords: fallback_keywords(),
        mode: Mode::Enforcement,
    }
}

/// Build the executable configuration for the given mode.
fn mk_cfg(mode: Mode) -> (cfg: TaintRule)
    ensures
        cfg@ == (CfgV {
            sources: sensitive_sources(),
            sink: SinkV::TargetContains(actuator_sinks()),
            san_keywords: fallback_keywords(),
            mode: mode,
        }),
{
    let mut sources: Vec<String> = Vec::new();
    push_lit(&mut sources, "HMI");
    push_lit(&mut sources, "RECIPE");
    push_lit(&mut sources, "PARAM");
    push_lit(&mut sources, "SETPOINT");
    let mut sinks: Vec<String> = Vec::new();
    push_lit(&mut sinks, "MOTOR");
    push_lit(&mut sinks, "SPEED");
    push_lit(&mut sinks, "SETPOINT");
    push_lit(&mut sinks, "POSITION");
    push_lit(&mut sinks, "CMD");
    push_lit(&mut sinks, "COMMAND");
    push_lit(&mut sinks, "OUTPUT");
    let mut kws: Vec<String> = Vec::new();
    push_lit(&mut kws, "LIMIT");
    push_lit(&mut kws, "BOUND");
    push_lit(&mut kws, "RANGE");
    push_lit(&mut kws, "MIN");
    push_lit(&mut kws, "MAX");
    let cfg = TaintRule { sources, sink: SinkSpec::TargetContains(sinks), san_keywords: kws, mode };
    assert(cfg@.sources =~= sensitive_sources());
    assert(cfg@.sink->TargetContains_0 =~= actuator_sinks());
    assert(cfg@.san_keywords =~= fallback_keywords());
    cfg
}

/// The presence-mode outcome on a program: one violation per finding, in
/// program order, naming the offending value and the target.
pub open spec fn r11_outcome(p: Program, ann: Seq<(int, Seq<char>)>) -> OutcomeV {
    outcome_for(
        11,
        "Plausibility Checks"@,
        hits_vios(
            program_hits(r11_cfg(), ann, p.functions@),
            11,
            "Plausibility Checks"@,
            "Use of sensitive value '"@,
            "' in '"@,
            "' without plausibility validation"@,
            "Add a nearby @PlausibilityCheck or guard with range/authorization before this use."@,
        ),
    )
}

/// The enforcement-mode violation for one finding.
pub open spec fn r12_vio(h: HitV) -> VioV {
    VioV {
        rule_no: 12,
        rule_name: "Plausibility Checks"@,
        line: h.line,
        reason: "Plausibility annotation present but not enforced before assigning to '"@ + h.sink
            + "'"@,
        suggestion: "Use the plausibility result to gate this action (e.g., IF setpointOK THEN ...)."@,
    }
}

/// The enforcement-mode outcome on a program.
pub open spec fn r12_outcome(p: Program, ann: Seq<(int, Seq<char>)>) -> OutcomeV {
    outcome_for(
        12,
        "Plausibility Checks"@,
        program_hits(r12_cfg(), ann, p.functions@).map_values(|h: HitV| r12_vio(h)),
    )
}

/// Presence of plausibility validation for sensitive values reaching
/// actuator-like targets.
pub fn check_rule11(program: &Program, ctx: &AnalysisContext) -> (r: RuleOutcome)
    ensures
        r@ == r11_outcome(*program, comment_views(ctx.comments@)),
{
    let cfg = mk_cfg(Mode::Presence);
    let hits = analyze_program(&cfg, ctx, program);
    let vios = hits_to_violations(
        &hits,
        11,
        "Plausibility Checks",
        "Use of sensitive value '",
        "' in '",
        "' without plausibility validation",
        "Add a nearby @PlausibilityCheck or guard with range/authorization before this use.",
    );
    RuleOutcome::from_violations(11, String::from_str("Plausibility Checks"), vios)
}

/// Enforcement of plausibility annotations: the annotated value must be
/// used under a flag-gated guard.
pub fn check_rule12(program: &Program, ctx: &AnalysisContext) -> (r: RuleOutcome)
    ensures
        r@ == r12_outcome(*program, comment_views(ctx.comments@)),
{
    let cfg = mk_cfg(Mode::Enforcement);
    let hits = analyze_program(&cfg, ctx, program);
    let n = hits.len();
    let mut vios: Vec<Violation> = Vec::new();
    let mut i: usize = 0;
    while i < n
        invariant
            n == hits@.len(),
            i <= n,
            vio_views(vios@) =~= hit_views(hits@).map_values(|h: HitV| r12_vio(h)).take(i as int),
        decreases n - i,
    {
        let mut reason = String::from_str(
            "Plausibility annotation present but not enforced before assigning to '",
        );
        reason.append(hits[i].sink.as_str());
        reason.append("'");
        let ghost prev = vios@;
        let v = Violation {
            rule_no: 12,
            rule_name: String::from_str("Plausibility Checks"),
            line: hits[i].line,
            reason: reason,
            suggestion: String::from_str(
                "Use the plausibility result to gate this action (e.g., IF setpointOK THEN ...).",
            ),
        };
        vios.push(v);
        assert(vio_views(vios@) =~= vio_views(prev).push(v@));
        assert(vio_views(vios@) =~= hit_views(hits@).map_values(|h: HitV| r12_vio(h)).take(
            (i + 1) as int,
        ));
        i += 1;
    }
    assert(vio_views(vios@) =~= hit_views(hits@).map_values(|h: HitV| r12_vio(h)));
    RuleOutcome::from_violations(12, String::from_str("Plausibility Checks"), vios)
}

} // verus!
