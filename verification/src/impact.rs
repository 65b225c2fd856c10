use vstd::prelude::*;

verus! {

/// Severity classification of a rule. Exactly these four levels exist, each
/// carrying a fixed, immutable scoring weight (40/30/20/10 respectively).
#[derive(Clone, Copy, Debug, PartialEq, Eq, Structural)]
pub enum Impact {
    Critical,
    Important,
    Normal,
    Low,
}

/// The fixed weight of an impact level, as used by the score formula.
pub open spec fn spec_weight(impact: Impact) -> int {
    match impact {
        Impact::Critical => 40,
        Impact::Important => 30,
        Impact::Normal => 20,
        Impact::Low => 10,
    }
}

/// The fixed weight of an impact level: a failed Critical rule depresses the
/// score four times as much as a failed Low rule with the same pass ratio.
pub fn weight(impact: Impact) -> (w: u32)
    ensures
        w == spec_weight(impact),
{
    match impact {
        Impact::Critical => 40,
        Impact::Important => 30,
        Impact::Normal => 20,
        Impact::Low => 10,
    }
}

} // verus!
