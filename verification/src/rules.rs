use vstd::prelude::*;

use crate::impact::Impact;

verus! {

/// Error a backend raises when it cannot decide a rule: connectivity failure,
/// malformed response, or a missing expected field. It always aborts the
/// current scoring run; it is never treated as a pass or a fail.
#[derive(Clone, Debug, PartialEq, Eq)]
pub struct BackendError {
    pub message: String,
}

/// Capability for rule LOG001 (no DEBUG logs in a production environment).
/// A backend decides against its telemetry store whether the rule holds:
/// `Ok(true)` means compliant, `Ok(false)` a violation, and an error that the
/// backend could not determine an answer. Nothing is promised of the verdict;
/// it is the backend's own judgement.
#[allow(non_camel_case_types)]
pub trait LOG001 {
    fn is_compliant(&self) -> Result<bool, BackendError>;
}

/// Capability for rule LOG002 (no log records with an unset severity).
/// Same contract as every rule capability: a pass/fail verdict or an error.
#[allow(non_camel_case_types)]
pub trait LOG002 {
    fn is_compliant(&self) -> Result<bool, BackendError>;
}

/// Capability for rule MET001 (metric attribute cardinality stays below a
/// threshold). Same contract as every rule capability.
#[allow(non_camel_case_types)]
pub trait MET001 {
    fn is_compliant(&self) -> Result<bool, BackendError>;
}

/// One catalogue entry: a rule identifier with the impact level it is
/// statically bound to.
#[derive(Clone, Copy, Debug)]
pub struct RuleInfo {
    pub name: &'static str,
    pub impact: Impact,
}

/// How many catalogued rules are bound to each impact level. This is the
/// spec-level summary of the catalogue that the orchestrator's totals follow.
pub open spec fn catalogue_count(impact: Impact) -> int {
    match impact {
        Impact::Critical => 0,
        Impact::Important => 3,
        Impact::Normal => 0,
        Impact::Low => 0,
    }
}

/// The authoritative, closed list of rules, in the order a scoring run
/// evaluates them. A backend must implement the capability of every entry to
/// be usable with the orchestrator; there is no optional or partial rule set.
pub fn catalogue() -> (rules: Vec<RuleInfo>)
    ensures
        rules@.len() == 3,
        rules@[0].name@ == "LOG001"@ && rules@[0].impact == Impact::Important,
        rules@[1].name@ == "LOG002"@ && rules@[1].impact == Impact::Important,
        rules@[2].name@ == "MET001"@ && rules@[2].impact == Impact::Important,
{
    let mut rules: Vec<RuleInfo> = Vec::new();
    rules.push(RuleInfo { name: "LOG001", impact: Impact::Important });
    rules.push(RuleInfo { name: "LOG002", impact: Impact::Important });
    rules.push(RuleInfo { name: "MET001", impact: Impact::Important });
    rules
}

} // verus!
