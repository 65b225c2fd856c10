pub mod impact;
pub mod rules;
pub mod score;

use vstd::prelude::*;

pub use crate::rules::{BackendError, LOG001, LOG002, MET001};

use crate::impact::Impact;
use crate::rules::catalogue_count;
use crate::score::{
    AggregationError, Score, Tallies, score, spec_denominator, spec_numerator, total_of,
};

verus! {

/// Any failure of a scoring run: a backend could not decide a rule, or the
/// aggregation had no rule outcome to weigh.
#[derive(Clone, Debug)]
pub enum ScoreError {
    Backend(BackendError),
    Aggregation(AggregationError),
}

/// Evaluate the whole rule catalogue against one backend and aggregate the
/// outcomes into the instrumentation score.
///
/// The rules are evaluated in the catalogue's declaration order; the first
/// backend error aborts the run and is returned as-is, with no partial score.
/// When every rule answers, the score is the weighted aggregate of tallies
/// whose totals are exactly the catalogue's per-level rule counts and whose
/// passed counts are the compliant verdicts — so the catalogue being
/// non-empty, aggregation never fails and any error is a backend's own.
/// A returned score's value 100 * numerator / denominator lies in [0, 100].
pub fn calculate_score<B: LOG001 + LOG002 + MET001>(backend: &B) -> (r: Result<Score, ScoreError>)
    ensures
        r matches Ok(s) ==> s.wf() && s.numerator <= s.denominator,
        r matches Ok(s) ==> exists|t: Tallies|
            t.wf() && total_of(t, Impact::Critical) == catalogue_count(Impact::Critical)
                && total_of(t, Impact::Important) == catalogue_count(Impact::Important)
                && total_of(t, Impact::Normal) == catalogue_count(Impact::Normal)
                && total_of(t, Impact::Low) == catalogue_count(Impact::Low)
                && s.numerator == #[trigger] spec_numerator(t)
                && s.denominator == spec_denominator(t),
        r matches Err(e) ==> e matches ScoreError::Backend(_),
{
    let mut tallies = Tallies::new();
    let compliant = match <B as LOG001>::is_compliant(backend) {
        Ok(c) => c,
        Err(e) => {
            return Err(ScoreError::Backend(e));
        },
    };
    tallies.record(Impact::Important, compliant);
    let compliant = match <B as LOG002>::is_compliant(backend) {
        Ok(c) => c,
        Err(e) => {
            return Err(ScoreError::Backend(e));
        },
    };
    tallies.record(Impact::Important, compliant);
    let compliant = match <B as MET001>::is_compliant(backend) {
        Ok(c) => c,
        Err(e) => {
            return Err(ScoreError::Backend(e));
        },
    };
    tallies.record(Impact::Important, compliant);
    match score(&tallies) {
        Ok(s) => Ok(s),
        Err(_) => vstd::pervasive::unreached(),
    }
}

} // verus!
