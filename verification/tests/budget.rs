use rig_budget_guard::budget::ModelBudget;
use rig_budget_guard::phase::{classify_phase, Phase, PhaseConfig};
use rig_budget_guard::ratio::Ratio;
use rig_budget_guard::RigBudgetGuard;
use std::collections::HashMap;

fn value(ratio: Ratio) -> f64 {
    ratio.numer as f64 / ratio.denom as f64
}

// Budgets

#[test]
fn test_model_budget_new() {
    let b = ModelBudget::new(1000);
    assert_eq!(b.max_tokens, 1000);
    assert_eq!(b.spent_tokens, 0);
}

#[test]
fn test_remaining_full() {
    assert_eq!(ModelBudget::new(1000).remaining(), 1000);
}

#[test]
fn test_remaining_partial() {
    let mut b = ModelBudget::new(1000);
    b.spent_tokens = 300;
    assert_eq!(b.remaining(), 700);
}

#[test]
fn test_remaining_exhausted() {
    let mut b = ModelBudget::new(1000);
    b.spent_tokens = 1500;
    assert_eq!(b.remaining(), 0);
}

#[test]
fn test_usage_ratio_empty() {
    assert_eq!(value(ModelBudget::new(1000).usage_ratio()), 0.0);
}

#[test]
fn test_usage_ratio_half() {
    let mut b = ModelBudget::new(1000);
    b.spent_tokens = 500;
    assert!((value(b.usage_ratio()) - 0.5).abs() < f64::EPSILON);
}

#[test]
fn test_usage_ratio_full() {
    let mut b = ModelBudget::new(1000);
    b.spent_tokens = 1000;
    assert!((value(b.usage_ratio()) - 1.0).abs() < f64::EPSILON);
}

#[test]
fn test_usage_ratio_overflow() {
    let mut b = ModelBudget::new(1000);
    b.spent_tokens = 2000;
    assert!((value(b.usage_ratio()) - 1.0).abs() < f64::EPSILON);
}

#[test]
fn test_usage_ratio_zero_max() {
    assert_eq!(value(ModelBudget::new(0).usage_ratio()), 1.0);
}

#[test]
fn test_remaining_exact_boundary() {
    let mut b = ModelBudget::new(100);
    b.spent_tokens = 100;
    assert_eq!(b.remaining(), 0);
    assert!((value(b.usage_ratio()) - 1.0).abs() < f64::EPSILON);
}

#[test]
fn test_spending_cannot_exceed_max() {
    let mut b = ModelBudget::new(100);
    b.spent_tokens = 50;
    assert!((value(b.usage_ratio()) - 0.5).abs() < f64::EPSILON);
    b.spent_tokens += 60;
    assert!((value(b.usage_ratio()) - 1.0).abs() < f64::EPSILON);
    assert_eq!(b.remaining(), 0);
}

#[test]
fn test_multiple_model_budgets() {
    let mut budgets: HashMap<String, ModelBudget> = HashMap::new();
    budgets.insert("gpt-4".into(), ModelBudget::new(100_000));
    budgets.insert("gpt-3_5".into(), ModelBudget::new(50_000));
    budgets.insert("mistral-3".into(), ModelBudget::new(200_000));
    assert_eq!(budgets.len(), 3);
    assert!(budgets.get("gpt-4").unwrap().max_tokens > 0);
    assert!(budgets.get("gpt-3_5").unwrap().max_tokens > 0);
    assert!(budgets.get("mistral-3").unwrap().max_tokens > 0);
}

#[test]
fn charges_add_up_and_never_give_back() {
    let mut b = ModelBudget::new(1000);
    b.charge(300);
    assert_eq!((b.spent_tokens, b.remaining()), (300, 700));
    b.charge(450);
    assert_eq!((b.spent_tokens, b.remaining()), (750, 250));
    b.charge(u64::MAX);
    assert_eq!(b.spent_tokens, 750 + u64::MAX as u128);
    assert_eq!(b.remaining(), 0);
    assert!(b.usage_ratio().at_least(&Ratio::new(1, 1)));
}

#[test]
fn running_total_stops_at_the_largest_number() {
    let mut b = ModelBudget::new(u64::MAX);
    assert_eq!(b.remaining(), u64::MAX);
    b.spent_tokens = u128::MAX - 5;
    b.charge(10);
    assert_eq!(b.spent_tokens, u128::MAX);
    assert_eq!(b.remaining(), 0);
}

// Ratios

#[test]
fn ratios_compare_by_value() {
    assert!(Ratio::new(1, 2).at_least(&Ratio::new(50, 100)));
    assert!(Ratio::new(50, 100).at_least(&Ratio::new(1, 2)));
    assert!(!Ratio::new(49, 100).at_least(&Ratio::new(1, 2)));
    assert!(Ratio::new(u64::MAX, u64::MAX).at_least(&Ratio::new(1, 1)));
    assert!(!Ratio::new(u64::MAX - 1, u64::MAX).at_least(&Ratio::new(1, 1)));
    assert!(!Ratio::new(1, 1).at_least(&Ratio::new(1, 0)));
}

#[test]
fn a_ratio_does_not_exceed_itself() {
    assert!(!Ratio::new(1, 2).more_than(&Ratio::new(50, 100)));
    assert!(Ratio::new(51, 100).more_than(&Ratio::new(1, 2)));
    assert!(!Ratio::new(49, 100).more_than(&Ratio::new(1, 2)));
    assert!(Ratio::new(1, 1).more_than(&Ratio::new(u64::MAX - 1, u64::MAX)));
    assert!(!Ratio::new(1, 1).more_than(&Ratio::new(1, 0)));
}

#[test]
fn exceeding_carries_over() {
    let (a, b, c) = (Ratio::new(3, 4), Ratio::new(75, 100), Ratio::new(60, 100));
    assert!(a.at_least(&b) && b.more_than(&c) && a.more_than(&c));
}

#[test]
fn ratios_are_brought_into_range() {
    let high = Ratio::new(3, 2).clamp_to_one();
    assert_eq!((high.numer, high.denom), (1, 1));
    let boundless = Ratio::new(1, 0).clamp_to_one();
    assert_eq!((boundless.numer, boundless.denom), (1, 1));
    let fine = Ratio::new(85, 100).clamp_to_one();
    assert_eq!((fine.numer, fine.denom), (85, 100));
    let zero = Ratio::new(0, 7).clamp_to_one();
    assert_eq!((zero.numer, zero.denom), (0, 7));
}

#[test]
fn reaching_carries_over() {
    let (a, b, c) = (Ratio::new(7, 8), Ratio::new(3, 4), Ratio::new(60, 100));
    assert!(a.at_least(&b) && b.at_least(&c) && a.at_least(&c));
}

// Phase classification

#[test]
fn test_classify_phase_stable() {
    assert_eq!(classify_phase(Ratio::new(0, 1)), Phase::Stable);
    assert_eq!(classify_phase(Ratio::new(1, 10)), Phase::Stable);
    assert_eq!(classify_phase(Ratio::new(3, 10)), Phase::Stable);
}

#[test]
fn test_classify_phase_pretransition() {
    assert_eq!(classify_phase(Ratio::new(6, 10)), Phase::PreTransition);
    assert_eq!(classify_phase(Ratio::new(7, 10)), Phase::PreTransition);
    assert_eq!(classify_phase(Ratio::new(84, 100)), Phase::PreTransition);
}

#[test]
fn test_classify_phase_transitioning() {
    assert_eq!(classify_phase(Ratio::new(85, 100)), Phase::Transitioning);
    assert_eq!(classify_phase(Ratio::new(9, 10)), Phase::Transitioning);
    assert_eq!(classify_phase(Ratio::new(1, 1)), Phase::Transitioning);
}

#[test]
fn test_classify_phase_resolving() {
    assert_eq!(classify_phase(Ratio::new(4, 10)), Phase::Resolving);
    assert_eq!(classify_phase(Ratio::new(5, 10)), Phase::Resolving);
    assert_eq!(classify_phase(Ratio::new(59, 100)), Phase::Resolving);
}

#[test]
fn test_classify_phase_edge_cases() {
    assert_eq!(classify_phase(Ratio::new(39, 100)), Phase::Stable);
    assert_eq!(classify_phase(Ratio::new(40, 100)), Phase::Resolving);
    assert_eq!(classify_phase(Ratio::new(59, 100)), Phase::Resolving);
    assert_eq!(classify_phase(Ratio::new(60, 100)), Phase::PreTransition);
    assert_eq!(classify_phase(Ratio::new(84, 100)), Phase::PreTransition);
    assert_eq!(classify_phase(Ratio::new(85, 100)), Phase::Transitioning);
}

#[test]
fn phase_from_ratio_agrees_with_classify_phase() {
    for percent in 0..=120 {
        let ratio = Ratio::new(percent, 100);
        assert_eq!(
            RigBudgetGuard::<()>::phase_from_ratio(ratio),
            classify_phase(ratio)
        );
    }
    // The documented example.
    assert_eq!(classify_phase(Ratio::new(82, 100)), Phase::PreTransition);
}

#[test]
fn phases_have_names() {
    assert_eq!(Phase::Stable.label(), "Stable");
    assert_eq!(Phase::PreTransition.label(), "PreTransition");
    assert_eq!(Phase::Transitioning.label(), "Transitioning");
    assert_eq!(Phase::Resolving.label(), "Resolving");
}

#[test]
fn test_phase_config_default() {
    let c = PhaseConfig::default();
    assert!((value(c.pret_transition_threshold) - 0.6).abs() < f64::EPSILON);
    assert!((value(c.transitioning_threshold) - 0.85).abs() < f64::EPSILON);
}
