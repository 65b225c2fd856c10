use vstd::prelude::*;

use crate::impact::{Impact, spec_weight};

verus! {

/// Count of rules passed and rules evaluated for one impact level.
/// Well-formed tallies never record more passes than evaluations.
#[derive(Clone, Copy, Debug, PartialEq, Eq, Structural)]
pub struct Tally {
    pub passed: u32,
    pub total: u32,
}

impl Tally {
    pub open spec fn wf(self) -> bool {
        self.passed <= self.total
    }
}

/// One tally per impact level. All four levels are always present, even when
/// no rule contributed to them.
#[derive(Clone, Copy, Debug, PartialEq, Eq, Structural)]
pub struct Tallies {
    pub critical: Tally,
    pub important: Tally,
    pub normal: Tally,
    pub low: Tally,
}

/// The tally a set of tallies holds for one impact level.
pub open spec fn tally_of(t: Tallies, impact: Impact) -> Tally {
    match impact {
        Impact::Critical => t.critical,
        Impact::Important => t.important,
        Impact::Normal => t.normal,
        Impact::Low => t.low,
    }
}

/// How many rules of one impact level passed.
pub open spec fn passed_of(t: Tallies, impact: Impact) -> int {
    tally_of(t, impact).passed as int
}

/// How many rules of one impact level were evaluated.
pub open spec fn total_of(t: Tallies, impact: Impact) -> int {
    tally_of(t, impact).total as int
}

/// The weighted sum of passed counts: sum over all levels of passed * weight.
pub open spec fn spec_numerator(t: Tallies) -> int {
    passed_of(t, Impact::Critical) * spec_weight(Impact::Critical)
        + passed_of(t, Impact::Important) * spec_weight(Impact::Important)
        + passed_of(t, Impact::Normal) * spec_weight(Impact::Normal)
        + passed_of(t, Impact::Low) * spec_weight(Impact::Low)
}

/// The weighted sum of total counts: sum over all levels of total * weight.
pub open spec fn spec_denominator(t: Tallies) -> int {
    total_of(t, Impact::Critical) * spec_weight(Impact::Critical)
        + total_of(t, Impact::Important) * spec_weight(Impact::Important)
        + total_of(t, Impact::Normal) * spec_weight(Impact::Normal)
        + total_of(t, Impact::Low) * spec_weight(Impact::Low)
}

/// The tallies after folding in one rule outcome: the outcome's impact level
/// gains one evaluated rule, and one passed rule iff the rule was compliant;
/// the other levels are untouched.
pub open spec fn spec_record(t: Tallies, impact: Impact, compliant: bool) -> Tallies {
    let delta: int = if compliant { 1 } else { 0 };
    match impact {
        Impact::Critical => Tallies {
            critical: Tally {
                passed: (t.critical.passed + delta) as u32,
                total: (t.critical.total + 1) as u32,
            },
            ..t
        },
        Impact::Important => Tallies {
            important: Tally {
                passed: (t.important.passed + delta) as u32,
                total: (t.important.total + 1) as u32,
            },
            ..t
        },
        Impact::Normal => Tallies {
            normal: Tally {
                passed: (t.normal.passed + delta) as u32,
                total: (t.normal.total + 1) as u32,
            },
            ..t
        },
        Impact::Low => Tallies {
            low: Tally {
                passed: (t.low.passed + delta) as u32,
                total: (t.low.total + 1) as u32,
            },
            ..t
        },
    }
}

impl Tallies {
    pub open spec fn wf(self) -> bool {
        self.critical.wf() && self.important.wf() && self.normal.wf() && self.low.wf()
    }

    /// Fresh tallies for a scoring run: nothing evaluated, nothing passed.
    pub fn new() -> (t: Tallies)
        ensures
            t == (Tallies {
                critical: Tally { passed: 0, total: 0 },
                important: Tally { passed: 0, total: 0 },
                normal: Tally { passed: 0, total: 0 },
                low: Tally { passed: 0, total: 0 },
            }),
            t.wf(),
    {
        Tallies {
            critical: Tally { passed: 0, total: 0 },
            important: Tally { passed: 0, total: 0 },
            normal: Tally { passed: 0, total: 0 },
            low: Tally { passed: 0, total: 0 },
        }
    }

    /// Fold one rule outcome into the tally of its impact level.
    pub fn record(&mut self, impact: Impact, compliant: bool)
        requires
            old(self).wf(),
            total_of(*old(self), impact) < u32::MAX,
        ensures
            *final(self) == spec_record(*old(self), impact, compliant),
            final(self).wf(),
    {
        let delta: u32 = if compliant {
            1
        } else {
            0
        };
        match impact {
            Impact::Critical => {
                self.critical.passed = self.critical.passed + delta;
                self.critical.total = self.critical.total + 1;
            },
            Impact::Important => {
                self.important.passed = self.important.passed + delta;
                self.important.total = self.important.total + 1;
            },
            Impact::Normal => {
                self.normal.passed = self.normal.passed + delta;
                self.normal.total = self.normal.total + 1;
            },
            Impact::Low => {
                self.low.passed = self.low.passed + delta;
                self.low.total = self.low.total + 1;
            },
        }
    }
}

/// The aggregator refused to divide: every impact level had weighted total
/// zero, so no rule contributed to the score.
#[derive(Clone, Copy, Debug, PartialEq, Eq, Structural)]
pub struct AggregationError;

/// The instrumentation score as an exact rational: its value is
/// 100 * numerator / denominator, with the denominator never zero.
/// Keeping the two weighted sums exact leaves any rounding to the caller.
#[derive(Clone, Copy, Debug, PartialEq, Eq, Structural)]
pub struct Score {
    pub numerator: u64,
    pub denominator: u64,
}

impl Score {
    pub open spec fn wf(self) -> bool {
        self.denominator > 0
    }
}

/// Turn per-impact (passed, total) tallies into the final score.
///
/// The score's value is 100 * numerator / denominator, where the numerator is
/// the weighted sum of passed counts and the denominator the weighted sum of
/// total counts (weights 40/30/20/10, never renormalized). When the
/// denominator is zero the aggregation fails rather than divide by zero.
pub fn score(tallies: &Tallies) -> (r: Result<Score, AggregationError>)
    ensures
        r matches Err(_) <==> spec_denominator(*tallies) == 0,
        r matches Ok(s) ==> s.numerator == spec_numerator(*tallies)
            && s.denominator == spec_denominator(*tallies) && s.wf(),
{
    let numerator: u64 = (tallies.critical.passed as u64) * 40
        + (tallies.important.passed as u64) * 30
        + (tallies.normal.passed as u64) * 20
        + (tallies.low.passed as u64) * 10;
    let denominator: u64 = (tallies.critical.total as u64) * 40
        + (tallies.important.total as u64) * 30
        + (tallies.normal.total as u64) * 20
        + (tallies.low.total as u64) * 10;
    if denominator == 0 {
        Err(AggregationError)
    } else {
        Ok(Score { numerator, denominator })
    }
}

proof fn lemma_weighted_sum_scales(k: int, c: int, i: int, n: int, l: int)
    by (nonlinear_arith)
    ensures
        (k * c) * 40 + (k * i) * 30 + (k * n) * 20 + (k * l) * 10 == k * (c * 40 + i * 30 + n * 20
            + l * 10),
{
}

proof fn lemma_scaled_ratio_equal(n1: int, d1: int, n2: int, d2: int, k: int)
    by (nonlinear_arith)
    requires
        n2 == k * n1,
        d2 == k * d1,
    ensures
        n2 * d1 == n1 * d2,
{
}

proof fn lemma_scaled_zero_iff(d1: int, d2: int, k: int)
    by (nonlinear_arith)
    requires
        d2 == k * d1,
        k > 0,
    ensures
        (d2 == 0) <==> (d1 == 0),
{
}

proof fn lemma_mul_le_mono(n1: int, n2: int, d: int)
    by (nonlinear_arith)
    requires
        n1 <= n2,
        d >= 0,
    ensures
        n1 * d <= n2 * d,
{
}

/// Law: the score is ratio-based, not count-based. Scaling every (passed,
/// total) pair by one positive integer factor leaves the score value
/// unchanged: the two numerator/denominator pairs are equal as rationals
/// (stated by cross-multiplication, so 100 * N / D is the same value), and the
/// scaled denominator vanishes exactly when the original one does.
pub proof fn lemma_score_scaling_invariant(t: Tallies, s: Tallies, k: int)
    requires
        k > 0,
        forall|m: Impact| #[trigger] passed_of(s, m) == k * passed_of(t, m),
        forall|m: Impact| #[trigger] total_of(s, m) == k * total_of(t, m),
    ensures
        spec_numerator(s) * spec_denominator(t) == spec_numerator(t) * spec_denominator(s),
        spec_denominator(s) == 0 <==> spec_denominator(t) == 0,
{
    assert(passed_of(s, Impact::Critical) == k * passed_of(t, Impact::Critical));
    assert(passed_of(s, Impact::Important) == k * passed_of(t, Impact::Important));
    assert(passed_of(s, Impact::Normal) == k * passed_of(t, Impact::Normal));
    assert(passed_of(s, Impact::Low) == k * passed_of(t, Impact::Low));
    assert(total_of(s, Impact::Critical) == k * total_of(t, Impact::Critical));
    assert(total_of(s, Impact::Important) == k * total_of(t, Impact::Important));
    assert(total_of(s, Impact::Normal) == k * total_of(t, Impact::Normal));
    assert(total_of(s, Impact::Low) == k * total_of(t, Impact::Low));
    lemma_weighted_sum_scales(
        k,
        passed_of(t, Impact::Critical),
        passed_of(t, Impact::Important),
        passed_of(t, Impact::Normal),
        passed_of(t, Impact::Low),
    );
    assert(spec_numerator(s) == k * spec_numerator(t));
    lemma_weighted_sum_scales(
        k,
        total_of(t, Impact::Critical),
        total_of(t, Impact::Important),
        total_of(t, Impact::Normal),
        total_of(t, Impact::Low),
    );
    assert(spec_denominator(s) == k * spec_denominator(t));
    lemma_scaled_ratio_equal(
        spec_numerator(t),
        spec_denominator(t),
        spec_numerator(s),
        spec_denominator(s),
        k,
    );
    lemma_scaled_zero_iff(spec_denominator(t), spec_denominator(s), k);
}

/// Law: the score is monotonically non-decreasing in the passed count of any
/// single impact level, holding every total and the other passed counts
/// fixed. Both tallies share one weighted denominator D, and the numerators
/// compare as the raised passed count does; with D > 0 the cross-multiplied
/// inequality says exactly that 100 * N1 / D <= 100 * N2 / D.
pub proof fn lemma_score_monotonic_in_passed(t1: Tallies, t2: Tallies, level: Impact)
    requires
        forall|m: Impact| #[trigger] total_of(t2, m) == total_of(t1, m),
        forall|m: Impact| m != level ==> #[trigger] passed_of(t2, m) == passed_of(t1, m),
        passed_of(t2, level) >= passed_of(t1, level),
    ensures
        spec_denominator(t2) == spec_denominator(t1),
        spec_numerator(t2) >= spec_numerator(t1),
        spec_numerator(t1) * spec_denominator(t2) <= spec_numerator(t2) * spec_denominator(t1),
{
    assert(total_of(t2, Impact::Critical) == total_of(t1, Impact::Critical));
    assert(total_of(t2, Impact::Important) == total_of(t1, Impact::Important));
    assert(total_of(t2, Impact::Normal) == total_of(t1, Impact::Normal));
    assert(total_of(t2, Impact::Low) == total_of(t1, Impact::Low));
    match level {
        Impact::Critical => {
            assert(passed_of(t2, Impact::Important) == passed_of(t1, Impact::Important));
            assert(passed_of(t2, Impact::Normal) == passed_of(t1, Impact::Normal));
            assert(passed_of(t2, Impact::Low) == passed_of(t1, Impact::Low));
            assert(passed_of(t2, Impact::Critical) >= passed_of(t1, Impact::Critical));
            assert(spec_numerator(t2) >= spec_numerator(t1));
        },
        Impact::Important => {
            assert(passed_of(t2, Impact::Critical) == passed_of(t1, Impact::Critical));
            assert(passed_of(t2, Impact::Normal) == passed_of(t1, Impact::Normal));
            assert(passed_of(t2, Impact::Low) == passed_of(t1, Impact::Low));
            assert(passed_of(t2, Impact::Important) >= passed_of(t1, Impact::Important));
            assert(spec_numerator(t2) >= spec_numerator(t1));
        },
        Impact::Normal => {
            assert(passed_of(t2, Impact::Critical) == passed_of(t1, Impact::Critical));
            assert(passed_of(t2, Impact::Important) == passed_of(t1, Impact::Important));
            assert(passed_of(t2, Impact::Low) == passed_of(t1, Impact::Low));
            assert(passed_of(t2, Impact::Normal) >= passed_of(t1, Impact::Normal));
            assert(spec_numerator(t2) >= spec_numerator(t1));
        },
        Impact::Low => {
            assert(passed_of(t2, Impact::Critical) == passed_of(t1, Impact::Critical));
            assert(passed_of(t2, Impact::Important) == passed_of(t1, Impact::Important));
            assert(passed_of(t2, Impact::Normal) == passed_of(t1, Impact::Normal));
            assert(passed_of(t2, Impact::Low) >= passed_of(t1, Impact::Low));
            assert(spec_numerator(t2) >= spec_numerator(t1));
        },
    }
    lemma_mul_le_mono(spec_numerator(t1), spec_numerator(t2), spec_denominator(t1));
}

/// Law: whenever every passed count is at most its total and at least one
/// rule was evaluated, the weighted numerator lies between 0 and the weighted
/// denominator, which is positive — so the score 100 * N / D lies in [0, 100].
pub proof fn lemma_score_in_range(t: Tallies)
    requires
        t.wf(),
        t.critical.total > 0 || t.important.total > 0 || t.normal.total > 0 || t.low.total > 0,
    ensures
        spec_denominator(t) > 0,
        0 <= spec_numerator(t),
        spec_numerator(t) <= spec_denominator(t),
{
}

/// Law: the weighted denominator vanishes exactly when no impact level has
/// any rule evaluated — the zero-total case on which `score` must fail.
pub proof fn lemma_zero_denominator(t: Tallies)
    ensures
        spec_denominator(t) == 0 <==> (t.critical.total == 0 && t.important.total == 0
            && t.normal.total == 0 && t.low.total == 0),
{
}

/// Law: when every evaluated rule passed (passed equals total at each impact
/// level), the numerator equals the denominator, so the score 100 * N / D is
/// exactly 100 once any rule was evaluated at all.
pub proof fn lemma_all_passed_full_score(t: Tallies)
    requires
        forall|m: Impact| #[trigger] passed_of(t, m) == total_of(t, m),
    ensures
        spec_numerator(t) == spec_denominator(t),
{
    assert(passed_of(t, Impact::Critical) == total_of(t, Impact::Critical));
    assert(passed_of(t, Impact::Important) == total_of(t, Impact::Important));
    assert(passed_of(t, Impact::Normal) == total_of(t, Impact::Normal));
    assert(passed_of(t, Impact::Low) == total_of(t, Impact::Low));
}

} // verus!
