//! Outcome types of the rule catalog: violations, per-rule status, and the
//! uniform report entry each rule produces.

use vstd::prelude::*;
use vstd::std_specs::cmp::PartialEqSpec;

verus! {

/// One reported violation of a rule.
#[derive(Debug)]
pub struct Violation {
    pub rule_no: u64,
    pub rule_name: String,
    pub line: usize,
    pub reason: String,
    pub suggestion: String,
}

/// The mathematical view of a violation.
pub struct VioV {
    pub rule_no: int,
    pub rule_name: Seq<char>,
    pub line: int,
    pub reason: Seq<char>,
    pub suggestion: Seq<char>,
}

impl View for Violation {
    type V = VioV;

    open spec fn view(&self) -> VioV {
        VioV {
            rule_no: self.rule_no as int,
            rule_name: self.rule_name@,
            line: self.line as int,
            reason: self.reason@,
            suggestion: self.suggestion@,
        }
    }
}

/// The views of a list of violations.
pub open spec fn vio_views(v: Seq<Violation>) -> Seq<VioV> {
    v.map_values(|x: Violation| x@)
}

/// What a rule reported: no finding, a list of violations, or a failure to
/// run at all.
#[derive(Debug)]
pub enum RuleStatus {
    Clean,
    Violations(Vec<Violation>),
    Error(String),
}

/// The mathematical view of a rule status.
pub enum StatusV {
    Clean,
    Violations(Seq<VioV>),
    Error(Seq<char>),
}

impl View for RuleStatus {
    type V = StatusV;

    open spec fn view(&self) -> StatusV {
        match self {
            RuleStatus::Clean => StatusV::Clean,
            RuleStatus::Violations(v) => StatusV::Violations(vio_views(v@)),
            RuleStatus::Error(m) => StatusV::Error(m@),
        }
    }
}

/// The uniform per-rule report entry.
#[derive(Debug)]
pub struct RuleOutcome {
    pub rule_no: u64,
    pub rule_name: String,
    pub status: RuleStatus,
}

/// The mathematical view of a report entry.
pub struct OutcomeV {
    pub rule_no: int,
    pub rule_name: Seq<char>,
    pub status: StatusV,
}

impl View for RuleOutcome {
    type V = OutcomeV;

    open spec fn view(&self) -> OutcomeV {
        OutcomeV { rule_no: self.rule_no as int, rule_name: self.rule_name@, status: self.status@ }
    }
}

/// The views of a list of report entries.
pub open spec fn outcome_views(v: Seq<RuleOutcome>) -> Seq<OutcomeV> {
    v.map_values(|x: RuleOutcome| x@)
}

/// The outcome a rule reports for a list of found violations: clean when
/// the list is empty, the violations otherwise.
pub open spec fn outcome_for(rule_no: int, rule_name: Seq<char>, vs: Seq<VioV>) -> OutcomeV {
    OutcomeV {
        rule_no: rule_no,
        rule_name: rule_name,
        status: if vs.len() == 0 {
            StatusV::Clean
        } else {
            StatusV::Violations(vs)
        },
    }
}

impl RuleOutcome {
    /// A clean outcome for the given rule.
    pub fn clean(rule_no: u64, rule_name: String) -> (r: RuleOutcome)
        ensures
            r@ == outcome_for(rule_no as int, rule_name@, Seq::<VioV>::empty()),
    {
        RuleOutcome { rule_no, rule_name, status: RuleStatus::Clean }
    }

    /// The outcome for a list of found violations; an empty list means the
    /// rule is clean.
    pub fn from_violations(rule_no: u64, rule_name: String, vs: Vec<Violation>) -> (r: RuleOutcome)
        ensures
            r@ == outcome_for(rule_no as int, rule_name@, vio_views(vs@)),
    {
        if vs.len() == 0 {
            RuleOutcome { rule_no, rule_name, status: RuleStatus::Clean }
        } else {
            RuleOutcome { rule_no, rule_name, status: RuleStatus::Violations(vs) }
        }
    }

    /// An error outcome: the rule (or a pipeline stage standing in for one,
    /// such as policy loading) could not run; sibling rules are unaffected.
    pub fn error(rule_no: u64, rule_name: String, message: String) -> (r: RuleOutcome)
        ensures
            r@ == (OutcomeV {
                rule_no: rule_no as int,
                rule_name: rule_name@,
                status: StatusV::Error(message@),
            }),
    {
        RuleOutcome { rule_no, rule_name, status: RuleStatus::Error(message) }
    }
}

impl PartialEq for Violation {
    fn eq(&self, other: &Self) -> (r: bool) {
        self.rule_no == other.rule_no && self.rule_name == other.rule_name && self.line
            == other.line && self.reason == other.reason && self.suggestion == other.suggestion
    }
}

impl vstd::std_specs::cmp::PartialEqSpecImpl for Violation {
    open spec fn obeys_eq_spec() -> bool {
        true
    }

    open spec fn eq_spec(&self, other: &Self) -> bool {
        self@ == other@
    }
}

impl PartialEq for RuleStatus {
    fn eq(&self, other: &Self) -> (r: bool) {
        match self {
            RuleStatus::Clean => match other {
                RuleStatus::Clean => true,
                _ => false,
            },
            RuleStatus::Violations(a) => match other {
                RuleStatus::Violations(b) => {
                    let r = a == b;
                proof {
                    assert(<Violation as PartialEqSpec>::obeys_eq_spec());
                    assert(<Vec<Violation> as PartialEqSpec>::obeys_eq_spec());
                    assert(r == a.eq_spec(b));
                    if r {
                        assert(a@.len() == b@.len());
                        assert forall|i: int| 0 <= i < a@.len() implies vio_views(a@)[i]
                            == vio_views(b@)[i] by {
                            assert(a@[i].eq_spec(&b@[i]));
                        }
                        assert(vio_views(a@) =~= vio_views(b@));
                    } else if vio_views(a@) == vio_views(b@) {
                        assert(vio_views(a@).len() == a@.len());
                        assert(vio_views(b@).len() == b@.len());
                        assert forall|i: int| 0 <= i < a@.len() implies a@[i].eq_spec(&b@[i]) by {
                            assert(vio_views(a@)[i] == a@[i]@);
                            assert(vio_views(b@)[i] == b@[i]@);
                        }
                        assert(a.eq_spec(b));
                        assert(false);
                    }
                }
                r
                },
                _ => false,
            },
            RuleStatus::Error(a) => match other {
                RuleStatus::Error(b) => *a == *b,
                _ => false,
            },
        }
    }
}

impl vstd::std_specs::cmp::PartialEqSpecImpl for RuleStatus {
    open spec fn obeys_eq_spec() -> bool {
        true
    }

    open spec fn eq_spec(&self, other: &Self) -> bool {
        self@ == other@
    }
}

impl PartialEq for RuleOutcome {
    fn eq(&self, other: &Self) -> (r: bool) {
        self.rule_no == other.rule_no && self.rule_name == other.rule_name && self.status
            == other.status
    }
}

impl vstd::std_specs::cmp::PartialEqSpecImpl for RuleOutcome {
    open spec fn obeys_eq_spec() -> bool {
        true
    }

    open spec fn eq_spec(&self, other: &Self) -> bool {
        self@ == other@
    }
}

} // verus!
