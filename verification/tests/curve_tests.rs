//! Unit tests for the pricing engine at a moderate test curve.

use bonding_curve::BondingCurve;
use bonding_curve::BondingCurveParams;

fn create_test_params() -> BondingCurveParams {
    BondingCurveParams {
        initial_price: 1000,
        curve_steepness: 10000,
        max_supply: 1_000_000,
        fee_rate: 100,
    }
}

#[test]
fn test_price_at_zero_supply() {
    let params = create_test_params();
    let price = BondingCurve::price_at_supply(&params, 0).unwrap();
    assert_eq!(price, params.initial_price);
}

#[test]
fn test_price_increases_with_supply() {
    let params = create_test_params();
    let price_0 = BondingCurve::price_at_supply(&params, 0).unwrap();
    let price_1000 = BondingCurve::price_at_supply(&params, 1000).unwrap();
    let price_5000 = BondingCurve::price_at_supply(&params, 5000).unwrap();

    assert!(price_1000 > price_0);
    assert!(price_5000 > price_1000);
}

#[test]
fn test_buy_price_calculation() {
    let params = create_test_params();
    let current_supply = 1000;
    let amount = 100;

    let buy_price = BondingCurve::calculate_buy_price(&params, current_supply, amount).unwrap();
    assert!(buy_price > 0);

    // Price should include fee
    let base_price =
        BondingCurve::price_at_supply(&params, current_supply + amount / 2).unwrap() * amount;
    assert!(buy_price > base_price);
}

#[test]
fn test_sell_price_calculation() {
    let params = create_test_params();
    let current_supply = 1000;
    let amount = 100;

    let sell_price = BondingCurve::calculate_sell_price(&params, current_supply, amount).unwrap();
    assert!(sell_price > 0);

    // Sell price should be less than buy price due to fees and spread
    let buy_price =
        BondingCurve::calculate_buy_price(&params, current_supply - amount, amount).unwrap();
    assert!(sell_price < buy_price);
}

#[test]
fn test_zero_amount_fails() {
    let params = create_test_params();
    let result = BondingCurve::calculate_buy_price(&params, 1000, 0);
    assert!(result.is_err());

    let result = BondingCurve::calculate_sell_price(&params, 1000, 0);
    assert!(result.is_err());
}

#[test]
fn test_exceeds_max_supply_fails() {
    let params = create_test_params();
    let result = BondingCurve::calculate_buy_price(&params, params.max_supply - 10, 20);
    assert!(result.is_err());
}

#[test]
fn test_sell_more_than_supply_fails() {
    let params = create_test_params();
    let result = BondingCurve::calculate_sell_price(&params, 100, 200);
    assert!(result.is_err());
}

#[test]
fn test_slippage_calculation() {
    let params = create_test_params();
    let current_supply = 1000;
    let small_amount = 10;
    let large_amount = 1000;

    let small_slippage =
        BondingCurve::calculate_slippage(&params, current_supply, small_amount, true).unwrap();
    let large_slippage =
        BondingCurve::calculate_slippage(&params, current_supply, large_amount, true).unwrap();

    // Larger trades should have higher slippage
    assert!(large_slippage > small_slippage);
}

#[test]
fn test_market_cap_calculation() {
    let params = create_test_params();
    let supply = 1000;

    let market_cap = BondingCurve::calculate_market_cap(&params, supply).unwrap();
    assert!(market_cap > 0);

    // Market cap should increase with supply
    let larger_market_cap = BondingCurve::calculate_market_cap(&params, supply * 2).unwrap();
    assert!(larger_market_cap > market_cap);
}

#[test]
fn test_validate_params() {
    let mut params = create_test_params();
    assert!(BondingCurve::validate_params(&params).is_ok());

    // Test invalid initial price
    params.initial_price = 0;
    assert!(BondingCurve::validate_params(&params).is_err());

    // Reset and test invalid curve steepness
    params = create_test_params();
    params.curve_steepness = 0;
    assert!(BondingCurve::validate_params(&params).is_err());

    // Test curve steepness too low
    params.curve_steepness = 500;
    assert!(BondingCurve::validate_params(&params).is_err());

    // Reset and test invalid max supply
    params = create_test_params();
    params.max_supply = 0;
    assert!(BondingCurve::validate_params(&params).is_err());

    // Test fee rate too high
    params.fee_rate = 1500; // 15%
    assert!(BondingCurve::validate_params(&params).is_err());
}

#[test]
fn test_fee_calculation_accuracy() {
    let params = create_test_params();
    let current_supply = 1000;
    let amount = 100;

    let buy_price = BondingCurve::calculate_buy_price(&params, current_supply, amount).unwrap();

    // Calculate expected fee
    let base_price =
        BondingCurve::price_at_supply(&params, current_supply + amount / 2).unwrap() * amount;
    let expected_fee = base_price * params.fee_rate as u64 / 10000;
    let expected_total = base_price + expected_fee;

    // Allow for small rounding differences
    let difference = if buy_price > expected_total {
        buy_price - expected_total
    } else {
        expected_total - buy_price
    };

    // Should be within 1% of expected (accounting for integration approximation)
    assert!(difference <= expected_total / 100);
}

#[test]
fn test_price_continuity() {
    let params = create_test_params();

    // Test that buying and immediately selling results in a loss due to fees
    let current_supply = 1000;
    let amount = 100;

    let buy_cost = BondingCurve::calculate_buy_price(&params, current_supply, amount).unwrap();
    let sell_payout =
        BondingCurve::calculate_sell_price(&params, current_supply + amount, amount).unwrap();

    // Should lose money due to fees (buy high, sell low)
    assert!(sell_payout < buy_cost);

    // The loss should be approximately 2x the fee rate (buy fee + sell fee)
    let loss_percentage = (buy_cost - sell_payout) * 10000 / buy_cost;
    let expected_loss = 2 * params.fee_rate as u64; // Approximate expected loss

    // Allow for some variance due to price movement and integration approximation
    assert!(loss_percentage >= expected_loss / 2);
    assert!(loss_percentage <= expected_loss * 3);
}
