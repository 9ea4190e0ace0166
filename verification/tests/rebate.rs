use drip_stream::stream::yield_integration::{
    calculate_rebate, calculate_rebate_with_params, RebateError,
};

#[test]
fn mock_rebate_is_136() {
    assert_eq!(calculate_rebate(), Ok(136));
}

#[test]
fn rebate_formula_exact_value() {
    // 10_000_000 * 1_000 * 31_557_600 / (10_000 * 31_557_600) = 1_000_000
    assert_eq!(calculate_rebate_with_params(10_000_000, 1_000, 31_557_600), Ok(1_000_000));
    // rounds down: 100 * 1 * 1 / 315_576_000_000 = 0
    assert_eq!(calculate_rebate_with_params(100, 1, 1), Ok(0));
    assert_eq!(calculate_rebate_with_params(1_000_000, 0, 86_400), Ok(0));
}

#[test]
fn rebate_rate_out_of_range() {
    assert_eq!(calculate_rebate_with_params(1_000_000, -1, 10), Err(RebateError::InvalidRate));
    assert_eq!(calculate_rebate_with_params(1_000_000, 1_001, 10), Err(RebateError::InvalidRate));
    // the rate is checked before the principal
    assert_eq!(calculate_rebate_with_params(0, 5_000, 10), Err(RebateError::InvalidRate));
}

#[test]
fn rebate_principal_below_threshold() {
    assert_eq!(calculate_rebate_with_params(99, 500, 10), Err(RebateError::InsufficientPrincipal));
    assert!(calculate_rebate_with_params(100, 500, 10).is_ok());
}

#[test]
fn rebate_overflow() {
    assert_eq!(
        calculate_rebate_with_params(i128::MAX, 2, 1),
        Err(RebateError::ArithmeticOverflow)
    );
    assert_eq!(
        calculate_rebate_with_params(i128::MAX / 1_000, 1_000, 2),
        Err(RebateError::ArithmeticOverflow)
    );
}

#[test]
fn rebate_never_above_max_rate() {
    let at_rate = calculate_rebate_with_params(5_000_000, 700, 2_000_000).unwrap();
    let at_max = calculate_rebate_with_params(5_000_000, 1_000, 2_000_000).unwrap();
    assert!(0 <= at_rate && at_rate <= at_max);
}
