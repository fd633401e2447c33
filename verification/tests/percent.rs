use rig_budget_guard::percent::{percent_with_tenths, whole_percent};
use rig_budget_guard::ratio::Ratio;

fn check(numer: u64, denom: u64) {
    let percent = numer as f64 / denom as f64 * 100.0;
    let ratio = Ratio::new(numer, denom);
    assert_eq!(whole_percent(ratio), format!("{:.0}", percent));
    assert_eq!(percent_with_tenths(ratio), format!("{:.1}", percent));
}

#[test]
fn the_ends_read_zero_and_a_hundred() {
    assert_eq!(whole_percent(Ratio::new(0, 5)), "0");
    assert_eq!(percent_with_tenths(Ratio::new(0, 5)), "0.0");
    assert_eq!(whole_percent(Ratio::new(1, 1)), "100");
    assert_eq!(percent_with_tenths(Ratio::new(7, 7)), "100.0");
    assert_eq!(whole_percent(Ratio::new(u64::MAX, u64::MAX)), "100");
}

#[test]
fn ties_are_those_of_double_precision() {
    assert_eq!(whole_percent(Ratio::new(1, 8)), "12");
    assert_eq!(whole_percent(Ratio::new(3, 200)), "2");
    assert_eq!(whole_percent(Ratio::new(575, 1000)), "57");
    assert_eq!(percent_with_tenths(Ratio::new(1, 2000)), "0.1");
    assert_eq!(percent_with_tenths(Ratio::new(1, 400)), "0.2");
    assert_eq!(percent_with_tenths(Ratio::new(1, 3)), "33.3");
    assert_eq!(percent_with_tenths(Ratio::new(2, 3)), "66.7");
    assert_eq!(percent_with_tenths(Ratio::new(42350, 100000)), "42.4");
}

#[test]
fn small_ratios_read_as_in_double_precision() {
    for denom in 1..=400 {
        for numer in 0..=denom {
            check(numer, denom);
        }
    }
}

#[test]
fn round_budgets_read_as_in_double_precision() {
    for denom in [1000, 2000, 4000, 10_000, 20_000] {
        for numer in 0..=denom {
            check(numer, denom);
        }
    }
}

#[test]
fn large_ratios_read_as_in_double_precision() {
    let mut seed: u64 = 88172645463325252;
    for _ in 0..20_000 {
        seed ^= seed << 13;
        seed ^= seed >> 7;
        seed ^= seed << 17;
        let denom = (seed >> (11 + seed % 40)).max(1);
        let numer = seed.rotate_left(29) % (denom + 1);
        check(numer, denom);
    }
}
