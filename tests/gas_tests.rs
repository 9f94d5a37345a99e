use wasmify_rs::{
    check_gas_limit, estimate_gas, estimate_gas_from_limit, optimize_gas_by_price,
    optimize_gas_dynamically, optimize_gas_usage, GasEstimate, GasOptimizationError,
};

#[test]
fn test_invalid_gas_limit() {
    let result = estimate_gas_from_limit(0);
    assert!(matches!(result, Err(GasOptimizationError::InvalidGasLimit)));
}

#[test]
fn test_successful_gas_estimation() {
    let result = estimate_gas_from_limit(10000);
    assert!(matches!(result, Ok(_)));
}

#[test]
fn test_dynamic_gas_optimization_high_price() {
    let optimized_gas = optimize_gas_by_price(150, 10000);
    assert!(optimized_gas < 10000);
}

#[test]
fn test_dynamic_gas_optimization_low_price() {
    let optimized_gas = optimize_gas_by_price(50, 10000);
    assert!(optimized_gas > 10000);
}

#[test]
fn test_gas_optimization_high_prices() {
    let historical_gas_prices = vec![120, 130];
    let optimized_gas = optimize_gas_usage(historical_gas_prices, 10000);
    assert!(optimized_gas < 10000);
}

#[test]
fn test_gas_optimization_low_prices() {
    let historical_gas_prices = vec![80, 90];
    let optimized_gas = optimize_gas_usage(historical_gas_prices, 10000);
    assert!(optimized_gas > 10000);
}

#[test]
fn integration_gas_estimation_and_limit_check() {
    let contract_size = 150;
    let complexity = 7;
    let gas_estimate = estimate_gas(contract_size, complexity);
    assert_eq!(gas_estimate.estimated_gas, 22_850);
    let result = check_gas_limit(30_000, &gas_estimate);
    assert!(result.is_ok(), "Expected sufficient gas limit.");
    let insufficient_gas = check_gas_limit(20_000, &gas_estimate);
    assert!(insufficient_gas.is_err(), "Expected insufficient gas error.");
}

#[test]
fn integration_optimize_gas_dynamically() {
    let contract_size = 150;
    let complexity = 7;
    let optimized_gas = optimize_gas_dynamically(contract_size, complexity);
    assert_eq!(optimized_gas, 27_420, "Expected optimized gas to be 27,420.");
}

#[test]
fn estimate_has_exact_values() {
    assert_eq!(estimate_gas(100, 5), GasEstimate { estimated_gas: 22250, max_gas: 44500 });
    assert_eq!(estimate_gas(150, 7), GasEstimate { estimated_gas: 22850, max_gas: 45700 });
}

#[test]
fn estimate_of_empty_contract_is_base() {
    assert_eq!(estimate_gas(0, 0), GasEstimate { estimated_gas: 21000, max_gas: 42000 });
}

#[test]
fn estimate_max_is_double_for_largest_inputs() {
    let e = estimate_gas(u64::MAX, u64::MAX);
    assert_eq!(e.estimated_gas, 21000 + 60 * (u64::MAX as u128));
    assert_eq!(e.max_gas, 2 * e.estimated_gas);
    for (s, c) in [(1u64, 2u64), (77, 0), (0, 99), (123456, 789)] {
        let e = estimate_gas(s, c);
        assert_eq!(e.max_gas, 2 * e.estimated_gas);
    }
}

#[test]
fn check_limit_reports_shortfall() {
    let e = estimate_gas(100, 5);
    assert_eq!(check_gas_limit(30000, &e), Ok(()));
    assert_eq!(
        check_gas_limit(20000, &e),
        Err(GasOptimizationError::InsufficientGas { provided: 20000, required: 22250 })
    );
}

#[test]
fn check_limit_accepts_exact_estimate() {
    let e = estimate_gas(100, 5);
    assert_eq!(check_gas_limit(22250, &e), Ok(()));
    assert!(check_gas_limit(22249, &e).is_err());
}

#[test]
fn dynamic_optimization_adds_a_fifth() {
    assert_eq!(optimize_gas_dynamically(100, 5), 26700);
}

#[test]
fn price_optimization_is_exact() {
    assert_eq!(optimize_gas_by_price(150, 10000), 9000);
    assert_eq!(optimize_gas_by_price(50, 10000), 11000);
    assert_eq!(optimize_gas_by_price(100, 10000), 11000);
    assert_eq!(optimize_gas_by_price(101, 10000), 9000);
    assert_eq!(optimize_gas_by_price(0, 15), 16);
}

#[test]
fn price_optimization_of_largest_limit() {
    assert_eq!(
        optimize_gas_by_price(0, u64::MAX),
        (u64::MAX as u128) * 110 / 100
    );
}

#[test]
fn historical_optimization_uses_truncated_mean() {
    assert_eq!(optimize_gas_usage(vec![120, 130], 10000), 9000);
    assert_eq!(optimize_gas_usage(vec![100, 101], 10000), 11000);
    assert_eq!(optimize_gas_usage(vec![100, 103], 10000), 9000);
    assert_eq!(optimize_gas_usage(vec![], 10000), 11000);
    assert_eq!(optimize_gas_usage(vec![u64::MAX, u64::MAX], 100), 90);
}

#[test]
fn limit_estimate_errors() {
    assert_eq!(estimate_gas_from_limit(1), Err(GasOptimizationError::GasCalculationFailed));
    assert_eq!(estimate_gas_from_limit(10000), Ok(5000));
    assert_eq!(estimate_gas_from_limit(7), Ok(3));
}
