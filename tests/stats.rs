use ab_sim::stats::{prop_test, ChiSquared, InvalidInput};
use statrs::distribution::{ContinuousCDF, Gamma};

fn chi_squared_value(s: &ChiSquared) -> f64 {
    let cross = s.cross as f64;
    s.total as f64 * cross * cross
        / (s.control_views as f64
            * s.variation_views as f64
            * s.non_conversions as f64
            * s.conversions as f64)
}

fn p_value(s: &ChiSquared) -> f64 {
    let gamma = Gamma::new(0.5, 0.5).unwrap();
    1.0 - gamma.cdf(chi_squared_value(s))
}

#[test]
fn it_errors_with_invalid_conversions() {
    let result = prop_test(0, 100, 0, 100);
    match result {
        Ok(_) => panic!("expected an error, but got Ok"),
        Err(e) => assert_eq!(e.message(), "conversions must be greater than 0"),
    }

    let result = prop_test(101, 100, 101, 100);
    match result {
        Ok(_) => panic!("expected an error, but got Ok"),
        Err(e) => assert_eq!(e.message(), "views must be greater than or equal to conversions"),
    }

    let result = prop_test(100, 100, 100, 100);
    match result {
        Ok(p) => assert!(p.is_nan()),
        Err(e) => panic!("expected Ok, but got '{}'", e.message()),
    }
}

#[test]
fn zero_conversions_in_one_arm_is_rejected() {
    assert_eq!(prop_test(5, 100, 0, 100), Err(InvalidInput::ZeroConversions));
    assert_eq!(prop_test(0, 100, 5, 100), Err(InvalidInput::ZeroConversions));
    // the zero-conversions check comes before the views check
    assert_eq!(prop_test(0, 0, 7, 3), Err(InvalidInput::ZeroConversions));
}

#[test]
fn views_below_conversions_in_one_arm_is_rejected() {
    assert_eq!(prop_test(5, 4, 1, 100), Err(InvalidInput::ViewsBelowConversions));
    assert_eq!(prop_test(1, 100, 9, 8), Err(InvalidInput::ViewsBelowConversions));
}

#[test]
fn statistic_of_a_small_table() {
    // a = 90, b = 80, c = 10, d = 20
    let s = prop_test(10, 100, 20, 100).unwrap();
    assert_eq!(
        s,
        ChiSquared {
            total: 200,
            cross: 1000,
            control_views: 100,
            variation_views: 100,
            non_conversions: 170,
            conversions: 30,
        }
    );
    assert!(!s.is_nan());
    let chi = chi_squared_value(&s);
    assert!((chi - 200.0 * 1.0e6 / (100.0 * 100.0 * 170.0 * 30.0)).abs() < 1e-12);
}

#[test]
fn statistic_matches_the_sum_over_cells() {
    let (cc, cv, vc, vv) = (37u32, 410u32, 58u32, 395u32);
    let a = (cv - cc) as f64;
    let b = (vv - vc) as f64;
    let c = cc as f64;
    let d = vc as f64;
    let n = a + b + c + d;
    let xa = (a + b) * (a + c) / n;
    let xb = (a + b) * (b + d) / n;
    let xc = (a + c) * (c + d) / n;
    let xd = (b + d) * (c + d) / n;
    let pearson = (a - xa).powf(2.0) / xa
        + (b - xb).powf(2.0) / xb
        + (c - xc).powf(2.0) / xc
        + (d - xd).powf(2.0) / xd;
    let s = prop_test(cc, cv, vc, vv).unwrap();
    assert!((chi_squared_value(&s) - pearson).abs() < 1e-9);
}

#[test]
fn p_value_lies_in_the_unit_interval() {
    for &(cc, cv, vc, vv) in &[(10, 100, 20, 100), (1, 1, 1, 2), (50, 100, 50, 100), (1, 1000, 999, 1000)] {
        let p = p_value(&prop_test(cc, cv, vc, vv).unwrap());
        assert!(!p.is_nan());
        assert!((0.0..=1.0).contains(&p));
    }
    let p = p_value(&prop_test(10, 100, 20, 100).unwrap());
    assert!((p - 0.0477).abs() < 1e-3);
}

#[test]
fn equal_proportions_give_a_zero_statistic() {
    let s = prop_test(20, 100, 40, 200).unwrap();
    assert_eq!(s.cross, 0);
    assert!(!s.is_nan());
    assert_eq!(p_value(&s), 1.0);
}

#[test]
fn test_is_pure() {
    let first = prop_test(123, 4567, 89, 4321);
    let second = prop_test(123, 4567, 89, 4321);
    assert_eq!(first, second);
    let p1 = p_value(&first.unwrap());
    let p2 = p_value(&second.unwrap());
    assert_eq!(p1.to_bits(), p2.to_bits());
}

#[test]
fn largest_counts_do_not_overflow() {
    let s = prop_test(1, u32::MAX, u32::MAX, u32::MAX).unwrap();
    assert_eq!(s.total, 2 * u32::MAX as u64);
    assert_eq!(s.cross, (u32::MAX as u64) * (u32::MAX as u64) - u32::MAX as u64);
    assert_eq!(s.conversions, u32::MAX as u64 + 1);
    assert_eq!(s.non_conversions, u32::MAX as u64 - 1);
}
