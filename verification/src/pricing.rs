//! The pricing engine: spot price, trade quotes, slippage and market cap,
//! all in fixed-point integer arithmetic over the shared scale of 10000.
//!
//! Each executable function mirrors a chain of checked arithmetic steps.
//! The spec functions below state both the exact value each chain computes
//! (over unbounded integers) and the exact condition under which every step
//! stays within `u64`; the contracts tie the two together, so a caller knows
//! precisely when a call returns `Ok` and what the `Ok` value is.

use vstd::prelude::*;
use vstd::arithmetic::mul::lemma_mul_upper_bound;

use crate::params::BondingCurveParams;
use crate::params::CurveError;
use crate::params::SCALE;

verus! {

/// The scaled supply ratio `supply * SCALE / curve_steepness`, the first step
/// of the spot price evaluation.
pub open spec fn spec_ratio(p: BondingCurveParams, s: int) -> int {
    s * (SCALE as int) / (p.curve_steepness as int)
}

/// The scaled curve multiplier `1 + supply / curve_steepness`.
pub open spec fn spec_multiplier(p: BondingCurveParams, s: int) -> int {
    (SCALE as int) + spec_ratio(p, s)
}

/// The scaled squared multiplier `(1 + supply / curve_steepness)^2`.
pub open spec fn spec_multiplier_sq(p: BondingCurveParams, s: int) -> int {
    spec_multiplier(p, s) * spec_multiplier(p, s) / (SCALE as int)
}

/// The instantaneous unit price at supply `s`:
/// `initial_price * (1 + s / curve_steepness)^2` in scaled integers, with
/// the zero-supply shortcut returning `initial_price` directly.
pub open spec fn spec_price(p: BondingCurveParams, s: int) -> int {
    if s == 0 {
        p.initial_price as int
    } else {
        p.initial_price * spec_multiplier_sq(p, s) / (SCALE as int)
    }
}

/// Holds exactly when every checked step of the spot price evaluation at
/// supply `s` stays within `u64` (the zero-supply shortcut always does).
pub open spec fn price_ok(p: BondingCurveParams, s: int) -> bool {
    s == 0 || {
        &&& p.curve_steepness >= 1
        &&& s * (SCALE as int) <= u64::MAX
        &&& spec_multiplier(p, s) <= u64::MAX
        &&& spec_multiplier(p, s) * spec_multiplier(p, s) <= u64::MAX
        &&& p.initial_price * spec_multiplier_sq(p, s) <= u64::MAX
    }
}

/// The trapezoidal average of the endpoint prices over a supply range:
/// the price at `lo` and the price at `hi`, averaged with integer division.
pub open spec fn spec_avg_price(p: BondingCurveParams, lo: int, hi: int) -> int {
    (spec_price(p, lo) + spec_price(p, hi)) / 2
}

/// The unfee'd trapezoidal cost of buying `a` tokens at supply `s`: the
/// average price over `[s, s + a]` times the amount.
pub open spec fn spec_buy_base(p: BondingCurveParams, s: int, a: int) -> int {
    spec_avg_price(p, s, s + a) * a
}

/// The unfee'd trapezoidal payout of selling `a` tokens at supply `s`: the
/// average price over `[s - a, s]` times the amount.
pub open spec fn spec_sell_base(p: BondingCurveParams, s: int, a: int) -> int {
    spec_avg_price(p, s - a, s) * a
}

/// The trading fee charged on a base cost or payout, in value units.
pub open spec fn spec_fee(p: BondingCurveParams, base: int) -> int {
    base * (p.fee_rate as int) / (SCALE as int)
}

/// The full cost of a buy: the trapezoidal base plus the fee.
pub open spec fn spec_buy_total(p: BondingCurveParams, s: int, a: int) -> int {
    spec_buy_base(p, s, a) + spec_fee(p, spec_buy_base(p, s, a))
}

/// The full payout of a sell: the trapezoidal base minus the fee.
pub open spec fn spec_sell_total(p: BondingCurveParams, s: int, a: int) -> int {
    spec_sell_base(p, s, a) - spec_fee(p, spec_sell_base(p, s, a))
}

/// Holds exactly when every checked arithmetic step of a buy quote at supply
/// `s` for `a` tokens stays within `u64`.
pub open spec fn buy_ok(p: BondingCurveParams, s: int, a: int) -> bool {
    &&& price_ok(p, s)
    &&& price_ok(p, s + a)
    &&& spec_price(p, s) + spec_price(p, s + a) <= u64::MAX
    &&& spec_buy_base(p, s, a) <= u64::MAX
    &&& spec_buy_base(p, s, a) * (p.fee_rate as int) <= u64::MAX
    &&& spec_buy_total(p, s, a) <= u64::MAX
}

/// Holds exactly when every checked arithmetic step of a sell quote at supply
/// `s` for `a` tokens stays within `u64` (the final step subtracts the fee,
/// so it also asks that the fee not exceed the base payout).
pub open spec fn sell_ok(p: BondingCurveParams, s: int, a: int) -> bool {
    &&& price_ok(p, s - a)
    &&& price_ok(p, s)
    &&& spec_price(p, s - a) + spec_price(p, s) <= u64::MAX
    &&& spec_sell_base(p, s, a) <= u64::MAX
    &&& spec_sell_base(p, s, a) * (p.fee_rate as int) <= u64::MAX
    &&& spec_fee(p, spec_sell_base(p, s, a)) <= spec_sell_base(p, s, a)
}

/// The full quote a slippage estimate compares against the spot price: a buy
/// cost for a buy, a sell payout for a sell.
pub open spec fn spec_quote(p: BondingCurveParams, s: int, a: int, is_buy: bool) -> int {
    if is_buy {
        spec_buy_total(p, s, a)
    } else {
        spec_sell_total(p, s, a)
    }
}

/// Holds exactly when the quoted trade of a slippage estimate succeeds: a
/// positive amount, a supply range within bounds, and checked arithmetic.
pub open spec fn quote_ok(p: BondingCurveParams, s: int, a: int, is_buy: bool) -> bool {
    if is_buy {
        a >= 1 && s + a <= p.max_supply && buy_ok(p, s, a)
    } else {
        a >= 1 && a <= s && sell_ok(p, s, a)
    }
}

/// The average unit price actually paid or received across the trade:
/// the full quote divided by the amount.
pub open spec fn spec_actual_price(p: BondingCurveParams, s: int, a: int, is_buy: bool) -> int {
    spec_quote(p, s, a, is_buy) / a
}

/// The absolute deviation between the actual average unit price and the spot
/// price at the current supply.
pub open spec fn spec_deviation(p: BondingCurveParams, s: int, a: int, is_buy: bool) -> int {
    let spot = spec_price(p, s);
    let actual = spec_actual_price(p, s, a, is_buy);
    if actual >= spot {
        actual - spot
    } else {
        spot - actual
    }
}

/// The slippage of a trade in basis points, before the final narrowing to
/// `u16`: the absolute deviation, scaled, divided by the spot price.
pub open spec fn spec_slippage(p: BondingCurveParams, s: int, a: int, is_buy: bool) -> int {
    spec_deviation(p, s, a, is_buy) * (SCALE as int) / spec_price(p, s)
}

/// Holds exactly when every step of a slippage estimate stays in range: the
/// spot evaluation, the quote, a positive spot price to divide by, the scaled
/// deviation within `u64`, and a final figure that fits the 16-bit result.
pub open spec fn slippage_ok(p: BondingCurveParams, s: int, a: int, is_buy: bool) -> bool {
    &&& price_ok(p, s)
    &&& quote_ok(p, s, a, is_buy)
    &&& spec_price(p, s) >= 1
    &&& spec_deviation(p, s, a, is_buy) * (SCALE as int) <= u64::MAX
    &&& spec_slippage(p, s, a, is_buy) <= u16::MAX
}

/// The scaled half-supply factor `supply * SCALE / (2 * curve_steepness)`,
/// the first step of the market cap integral.
pub open spec fn spec_cap_factor(p: BondingCurveParams, s: int) -> int {
    s * (SCALE as int) / (2 * (p.curve_steepness as int))
}

/// The scaled integral multiplier `1 + supply / (2 * curve_steepness)`.
pub open spec fn spec_cap_multiplier(p: BondingCurveParams, s: int) -> int {
    (SCALE as int) + spec_cap_factor(p, s)
}

/// The closed-form integral of the price curve from zero to `s`:
/// `initial_price * s * (1 + s / (2 * curve_steepness))` in scaled integers,
/// zero at zero supply.
pub open spec fn spec_market_cap(p: BondingCurveParams, s: int) -> int {
    if s == 0 {
        0
    } else {
        p.initial_price * s * spec_cap_multiplier(p, s) / (SCALE as int)
    }
}

/// Holds exactly when every checked step of the market cap integral at supply
/// `s` stays within `u64` (the zero-supply shortcut always does).
pub open spec fn cap_ok(p: BondingCurveParams, s: int) -> bool {
    s == 0 || {
        &&& p.curve_steepness >= 1
        &&& 2 * (p.curve_steepness as int) <= u64::MAX
        &&& s * (SCALE as int) <= u64::MAX
        &&& spec_cap_multiplier(p, s) <= u64::MAX
        &&& p.initial_price * s <= u64::MAX
        &&& p.initial_price * s * spec_cap_multiplier(p, s) <= u64::MAX
    }
}

/// A stateless pricing engine: a deterministic map from token supply to unit
/// price, used to quote trades, estimate slippage and compute market cap.
pub struct BondingCurve;

impl BondingCurve {
    /// Evaluates the curve at one supply point. Returns `Ok` exactly when no
    /// checked step overflows, and then the exact fixed-point value; the only
    /// error is `MathOverflow` (a zero steepness makes the ratio undefined
    /// and is reported the same way).
    pub fn price_at_supply(params: &BondingCurveParams, supply: u64) -> (r: Result<
        u64,
        CurveError,
    >)
        ensures
            r is Ok <==> price_ok(*params, supply as int),
            r is Ok ==> r->Ok_0 == spec_price(*params, supply as int),
            r is Err ==> r->Err_0 == CurveError::MathOverflow,
            supply == 0 ==> r == Ok::<u64, CurveError>(params.initial_price),
    {
        if supply == 0 {
            return Ok(params.initial_price);
        }
        if params.curve_steepness == 0 {
            return Err(CurveError::MathOverflow);
        }
        proof {
            lemma_mul_upper_bound(supply as int, u64::MAX as int, SCALE as int, SCALE as int);
        }
        let scaled: u128 = (supply as u128) * (SCALE as u128);
        if scaled > (u64::MAX as u128) {
            return Err(CurveError::MathOverflow);
        }
        let ratio: u64 = (scaled / (params.curve_steepness as u128)) as u64;
        if ratio > u64::MAX - SCALE {
            return Err(CurveError::MathOverflow);
        }
        let multiplier: u64 = SCALE + ratio;
        proof {
            lemma_mul_upper_bound(multiplier as int, u64::MAX as int, multiplier as int, u64::MAX as int);
        }
        let multiplier_sq_wide: u128 = (multiplier as u128) * (multiplier as u128);
        if multiplier_sq_wide > (u64::MAX as u128) {
            return Err(CurveError::MathOverflow);
        }
        let multiplier_sq: u64 = (multiplier_sq_wide / (SCALE as u128)) as u64;
        proof {
            lemma_mul_upper_bound(
                params.initial_price as int,
                u64::MAX as int,
                multiplier_sq as int,
                u64::MAX as int,
            );
        }
        let price_wide: u128 = (params.initial_price as u128) * (multiplier_sq as u128);
        if price_wide > (u64::MAX as u128) {
            return Err(CurveError::MathOverflow);
        }
        Ok((price_wide / (SCALE as u128)) as u64)
    }

    /// Quotes the cost of buying `amount` tokens at `current_supply`: the
    /// trapezoidal average of the endpoint prices times the amount, plus the
    /// trading fee. Fails with `InvalidPrice` on a zero amount, with
    /// `InvalidMaxSupply` when the buy would push the supply past
    /// `max_supply`, and with `MathOverflow` when a checked step overflows.
    pub fn calculate_buy_price(
        params: &BondingCurveParams,
        current_supply: u64,
        amount: u64,
    ) -> (r: Result<u64, CurveError>)
        ensures
            r is Ok <==> amount > 0 && current_supply + amount <= params.max_supply && buy_ok(
                *params,
                current_supply as int,
                amount as int,
            ),
            r is Ok ==> r->Ok_0 == spec_buy_total(*params, current_supply as int, amount as int),
            r == Err::<u64, CurveError>(CurveError::InvalidPrice) <==> amount == 0,
            r == Err::<u64, CurveError>(CurveError::InvalidMaxSupply) <==> amount > 0
                && current_supply + amount > params.max_supply,
            r == Err::<u64, CurveError>(CurveError::MathOverflow) <==> amount > 0
                && current_supply + amount <= params.max_supply && !buy_ok(
                *params,
                current_supply as int,
                amount as int,
            ),
    {
        if amount == 0 {
            return Err(CurveError::InvalidPrice);
        }
        if amount > params.max_supply || current_supply > params.max_supply - amount {
            return Err(CurveError::InvalidMaxSupply);
        }
        let start_price = Self::price_at_supply(params, current_supply)?;
        let end_price = Self::price_at_supply(params, current_supply + amount)?;
        if end_price > u64::MAX - start_price {
            return Err(CurveError::MathOverflow);
        }
        let average_price = (start_price + end_price) / 2;
        proof {
            lemma_mul_upper_bound(
                average_price as int,
                u64::MAX as int,
                amount as int,
                u64::MAX as int,
            );
        }
        let total_wide: u128 = (average_price as u128) * (amount as u128);
        if total_wide > (u64::MAX as u128) {
            return Err(CurveError::MathOverflow);
        }
        let total_cost = total_wide as u64;
        proof {
            lemma_mul_upper_bound(
                total_cost as int,
                u64::MAX as int,
                params.fee_rate as int,
                u16::MAX as int,
            );
        }
        let fee_wide: u128 = (total_cost as u128) * (params.fee_rate as u128);
        if fee_wide > (u64::MAX as u128) {
            return Err(CurveError::MathOverflow);
        }
        let fee = (fee_wide / (SCALE as u128)) as u64;
        if fee > u64::MAX - total_cost {
            return Err(CurveError::MathOverflow);
        }
        Ok(total_cost + fee)
    }

    /// Quotes the payout for selling `amount` tokens at `current_supply`: the
    /// trapezoidal average of the endpoint prices times the amount, minus the
    /// trading fee. Fails with `InvalidPrice` on a zero amount, with
    /// `InvalidMaxSupply` when the amount exceeds the current supply, and
    /// with `MathOverflow` when a checked step overflows or the fee exceeds
    /// the base payout.
    pub fn calculate_sell_price(
        params: &BondingCurveParams,
        current_supply: u64,
        amount: u64,
    ) -> (r: Result<u64, CurveError>)
        ensures
            r is Ok <==> amount > 0 && amount <= current_supply && sell_ok(
                *params,
                current_supply as int,
                amount as int,
            ),
            r is Ok ==> r->Ok_0 == spec_sell_total(*params, current_supply as int, amount as int),
            r == Err::<u64, CurveError>(CurveError::InvalidPrice) <==> amount == 0,
            r == Err::<u64, CurveError>(CurveError::InvalidMaxSupply) <==> amount > 0 && amount
                > current_supply,
            r == Err::<u64, CurveError>(CurveError::MathOverflow) <==> amount > 0 && amount
                <= current_supply && !sell_ok(*params, current_supply as int, amount as int),
    {
        if amount == 0 {
            return Err(CurveError::InvalidPrice);
        }
        if amount > current_supply {
            return Err(CurveError::InvalidMaxSupply);
        }
        let start_price = Self::price_at_supply(params, current_supply - amount)?;
        let end_price = Self::price_at_supply(params, current_supply)?;
        if end_price > u64::MAX - start_price {
            return Err(CurveError::MathOverflow);
        }
        let average_price = (start_price + end_price) / 2;
        proof {
            lemma_mul_upper_bound(
                average_price as int,
                u64::MAX as int,
                amount as int,
                u64::MAX as int,
            );
        }
        let total_wide: u128 = (average_price as u128) * (amount as u128);
        if total_wide > (u64::MAX as u128) {
            return Err(CurveError::MathOverflow);
        }
        let total_payout = total_wide as u64;
        proof {
            lemma_mul_upper_bound(
                total_payout as int,
                u64::MAX as int,
                params.fee_rate as int,
                u16::MAX as int,
            );
        }
        let fee_wide: u128 = (total_payout as u128) * (params.fee_rate as u128);
        if fee_wide > (u64::MAX as u128) {
            return Err(CurveError::MathOverflow);
        }
        let fee = (fee_wide / (SCALE as u128)) as u64;
        if fee > total_payout {
            return Err(CurveError::MathOverflow);
        }
        Ok(total_payout - fee)
    }

    /// Estimates the slippage of a trade in basis points: the absolute
    /// deviation of the average unit price actually paid or received from the
    /// spot price, relative to the spot price. Errors from the underlying
    /// quote pass through; a zero spot price, an overflowing step, or a
    /// figure beyond the 16-bit result range fails with `MathOverflow` —
    /// nothing is silently narrowed.
    pub fn calculate_slippage(
        params: &BondingCurveParams,
        current_supply: u64,
        amount: u64,
        is_buy: bool,
    ) -> (r: Result<u16, CurveError>)
        ensures
            r is Ok <==> slippage_ok(*params, current_supply as int, amount as int, is_buy),
            r is Ok ==> r->Ok_0 == spec_slippage(
                *params,
                current_supply as int,
                amount as int,
                is_buy,
            ),
            r == Err::<u16, CurveError>(CurveError::InvalidPrice) <==> price_ok(
                *params,
                current_supply as int,
            ) && amount == 0,
            r == Err::<u16, CurveError>(CurveError::InvalidMaxSupply) <==> price_ok(
                *params,
                current_supply as int,
            ) && amount > 0 && (if is_buy {
                current_supply + amount > params.max_supply
            } else {
                amount > current_supply
            }),
            r == Err::<u16, CurveError>(CurveError::MathOverflow) <==> !price_ok(
                *params,
                current_supply as int,
            ) || (amount > 0 && (if is_buy {
                current_supply + amount <= params.max_supply
            } else {
                amount <= current_supply
            }) && !slippage_ok(*params, current_supply as int, amount as int, is_buy)),
    {
        let current_price = Self::price_at_supply(params, current_supply)?;
        let quote = if is_buy {
            Self::calculate_buy_price(params, current_supply, amount)?
        } else {
            Self::calculate_sell_price(params, current_supply, amount)?
        };
        let actual_price = quote / amount;
        let deviation = if actual_price >= current_price {
            actual_price - current_price
        } else {
            current_price - actual_price
        };
        proof {
            lemma_mul_upper_bound(deviation as int, u64::MAX as int, SCALE as int, SCALE as int);
        }
        let scaled_deviation: u128 = (deviation as u128) * (SCALE as u128);
        if scaled_deviation > (u64::MAX as u128) {
            return Err(CurveError::MathOverflow);
        }
        if current_price == 0 {
            return Err(CurveError::MathOverflow);
        }
        let slippage = (scaled_deviation as u64) / current_price;
        if slippage > u16::MAX as u64 {
            return Err(CurveError::MathOverflow);
        }
        Ok(slippage as u16)
    }

    /// Computes the market capitalization at a given supply: the exact
    /// closed-form integral of the price curve from zero to `supply`, in the
    /// same fixed-point scale. Returns `Ok` exactly when no checked step
    /// overflows, and then the exact value; the only error is `MathOverflow`.
    pub fn calculate_market_cap(params: &BondingCurveParams, supply: u64) -> (r: Result<
        u64,
        CurveError,
    >)
        ensures
            r is Ok <==> cap_ok(*params, supply as int),
            r is Ok ==> r->Ok_0 == spec_market_cap(*params, supply as int),
            r is Err ==> r->Err_0 == CurveError::MathOverflow,
            supply == 0 ==> r == Ok::<u64, CurveError>(0),
    {
        if supply == 0 {
            return Ok(0);
        }
        if params.curve_steepness == 0 || params.curve_steepness > u64::MAX / 2 {
            return Err(CurveError::MathOverflow);
        }
        let divisor: u64 = 2 * params.curve_steepness;
        proof {
            lemma_mul_upper_bound(supply as int, u64::MAX as int, SCALE as int, SCALE as int);
        }
        let scaled: u128 = (supply as u128) * (SCALE as u128);
        if scaled > (u64::MAX as u128) {
            return Err(CurveError::MathOverflow);
        }
        let supply_factor: u64 = (scaled / (divisor as u128)) as u64;
        if supply_factor > u64::MAX - SCALE {
            return Err(CurveError::MathOverflow);
        }
        let multiplier: u64 = SCALE + supply_factor;
        proof {
            lemma_mul_upper_bound(
                params.initial_price as int,
                u64::MAX as int,
                supply as int,
                u64::MAX as int,
            );
        }
        let base_wide: u128 = (params.initial_price as u128) * (supply as u128);
        if base_wide > (u64::MAX as u128) {
            return Err(CurveError::MathOverflow);
        }
        let base: u64 = base_wide as u64;
        proof {
            lemma_mul_upper_bound(base as int, u64::MAX as int, multiplier as int, u64::MAX as int);
        }
        let cap_wide: u128 = (base as u128) * (multiplier as u128);
        if cap_wide > (u64::MAX as u128) {
            return Err(CurveError::MathOverflow);
        }
        Ok((cap_wide / (SCALE as u128)) as u64)
    }

    /// Checks a parameter record for internal consistency, in order: a
    /// positive initial price, a steepness that is positive and at or above
    /// the minimum safe threshold of 1000 (below it, squaring the multiplier
    /// can overflow 64 bits at realistic supplies), a positive supply cap,
    /// and a fee within the 10% cap. Accepts a record exactly when it is
    /// `valid`.
    pub fn validate_params(params: &BondingCurveParams) -> (r: Result<(), CurveError>)
        ensures
            r is Ok <==> params.valid(),
            r == Err::<(), CurveError>(CurveError::InvalidPrice) <==> params.initial_price == 0,
            r == Err::<(), CurveError>(CurveError::InvalidCurveParams) <==> params.initial_price
                > 0 && params.curve_steepness < 1000,
            r == Err::<(), CurveError>(CurveError::InvalidMaxSupply) <==> params.initial_price > 0
                && params.curve_steepness >= 1000 && params.max_supply == 0,
            r == Err::<(), CurveError>(CurveError::FeeTooHigh) <==> params.initial_price > 0
                && params.curve_steepness >= 1000 && params.max_supply > 0 && params.fee_rate
                > 1000,
    {
        if params.initial_price == 0 {
            return Err(CurveError::InvalidPrice);
        }
        if params.curve_steepness == 0 {
            return Err(CurveError::InvalidCurveParams);
        }
        if params.curve_steepness < 1000 {
            return Err(CurveError::InvalidCurveParams);
        }
        if params.max_supply == 0 {
            return Err(CurveError::InvalidMaxSupply);
        }
        if params.fee_rate > 1000 {
            return Err(CurveError::FeeTooHigh);
        }
        Ok(())
    }
}

} // verus!
