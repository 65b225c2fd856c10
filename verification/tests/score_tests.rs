use instrumentation_score_rs::impact::{weight, Impact};
use instrumentation_score_rs::rules::catalogue;
use instrumentation_score_rs::score::{score, AggregationError, Score, Tallies, Tally};

fn tallies(
    critical: (u32, u32),
    important: (u32, u32),
    normal: (u32, u32),
    low: (u32, u32),
) -> Tallies {
    Tallies {
        critical: Tally { passed: critical.0, total: critical.1 },
        important: Tally { passed: important.0, total: important.1 },
        normal: Tally { passed: normal.0, total: normal.1 },
        low: Tally { passed: low.0, total: low.1 },
    }
}

fn value(s: &Score) -> f64 {
    (s.numerator as f64 / s.denominator as f64) * 100.0
}

#[test]
fn valid_score() {
    let result = score(&tallies((4, 8), (8, 10), (6, 8), (1, 5))).unwrap();
    assert_eq!(value(&result), 63.85542168674698);
}

#[test]
fn reference_vector_weighted_sums() {
    let result = score(&tallies((4, 8), (8, 10), (6, 8), (1, 5))).unwrap();
    assert_eq!(result.numerator, 4 * 40 + 8 * 30 + 6 * 20 + 1 * 10);
    assert_eq!(result.denominator, 8 * 40 + 10 * 30 + 8 * 20 + 5 * 10);
}

#[test]
fn all_zero_totals_fail_aggregation() {
    let result = score(&tallies((0, 0), (0, 0), (0, 0), (0, 0)));
    assert_eq!(result.unwrap_err(), AggregationError);
}

#[test]
fn score_invariant_under_scaling() {
    let s1 = score(&tallies((4, 8), (8, 10), (6, 8), (1, 5))).unwrap();
    let s2 = score(&tallies((12, 24), (24, 30), (18, 24), (3, 15))).unwrap();
    assert_eq!(s1.numerator * s2.denominator, s2.numerator * s1.denominator);
    assert_eq!(value(&s1), value(&s2));
}

#[test]
fn score_monotonic_in_single_passed_count() {
    let s1 = score(&tallies((4, 8), (8, 10), (6, 8), (1, 5))).unwrap();
    let s2 = score(&tallies((5, 8), (8, 10), (6, 8), (1, 5))).unwrap();
    assert!(s1.numerator * s2.denominator <= s2.numerator * s1.denominator);
    assert!(value(&s1) <= value(&s2));
}

#[test]
fn score_stays_in_range() {
    let cases = vec![
        tallies((0, 7), (0, 0), (0, 0), (0, 0)),
        tallies((4, 8), (8, 10), (6, 8), (1, 5)),
        tallies((8, 8), (10, 10), (8, 8), (5, 5)),
        tallies((0, 0), (0, 0), (0, 0), (1, 5)),
    ];
    for t in cases {
        let s = score(&t).unwrap();
        let v = value(&s);
        assert!(0.0 <= v && v <= 100.0);
    }
}

#[test]
fn all_failed_scores_zero() {
    let s = score(&tallies((0, 2), (0, 3), (0, 1), (0, 4))).unwrap();
    assert_eq!(value(&s), 0.0);
}

#[test]
fn all_passed_scores_exactly_hundred() {
    let s = score(&tallies((2, 2), (3, 3), (1, 1), (5, 5))).unwrap();
    assert_eq!(value(&s), 100.0);
}

#[test]
fn zero_total_levels_do_not_contribute() {
    let s = score(&tallies((0, 0), (3, 3), (0, 0), (0, 0))).unwrap();
    assert_eq!(s.numerator, 90);
    assert_eq!(s.denominator, 90);
    assert_eq!(value(&s), 100.0);
}

#[test]
fn weights_are_fixed() {
    assert_eq!(weight(Impact::Critical), 40);
    assert_eq!(weight(Impact::Important), 30);
    assert_eq!(weight(Impact::Normal), 20);
    assert_eq!(weight(Impact::Low), 10);
}

#[test]
fn tallies_record_folds_outcomes() {
    let mut t = Tallies::new();
    t.record(Impact::Important, true);
    t.record(Impact::Important, false);
    t.record(Impact::Low, true);
    assert_eq!(t.important, Tally { passed: 1, total: 2 });
    assert_eq!(t.low, Tally { passed: 1, total: 1 });
    assert_eq!(t.critical, Tally { passed: 0, total: 0 });
    assert_eq!(t.normal, Tally { passed: 0, total: 0 });
}

#[test]
fn catalogue_lists_the_three_rules() {
    let rules = catalogue();
    let names: Vec<&str> = rules.iter().map(|r| r.name).collect();
    assert_eq!(names, vec!["LOG001", "LOG002", "MET001"]);
    assert!(rules.iter().all(|r| matches!(r.impact, Impact::Important)));
}
