//! The engine's general laws: monotonicity of the curve, the effect of the
//! fee on quotes, the round-trip spread, slippage growth, and market cap
//! growth. Each law is stated over the same spec functions the executable
//! contracts use, so what is proved here carries over to every `Ok` result.

use vstd::prelude::*;
use vstd::arithmetic::div_mod::lemma_basic_div;
use vstd::arithmetic::div_mod::lemma_div_by_multiple;
use vstd::arithmetic::div_mod::lemma_div_denominator;
use vstd::arithmetic::div_mod::lemma_div_multiples_vanish;
use vstd::arithmetic::div_mod::lemma_div_multiples_vanish_fancy;
use vstd::arithmetic::div_mod::lemma_div_multiples_vanish_quotient;
use vstd::arithmetic::div_mod::lemma_multiply_divide_lt;
use vstd::arithmetic::div_mod::lemma_small_div_converse;
use vstd::arithmetic::div_mod::lemma_div_is_ordered;
use vstd::arithmetic::div_mod::lemma_div_is_ordered_by_denominator;
use vstd::arithmetic::div_mod::lemma_div_of0;
use vstd::arithmetic::div_mod::lemma_fundamental_div_mod;
use vstd::arithmetic::div_mod::lemma_mod_division_less_than_divisor;
use vstd::arithmetic::div_mod::lemma_div_pos_is_pos;
use vstd::arithmetic::div_mod::lemma_hoist_over_denominator;
use vstd::arithmetic::mul::lemma_mul_inequality;
use vstd::arithmetic::mul::lemma_mul_is_distributive_add;
use vstd::arithmetic::mul::lemma_mul_is_distributive_add_other_way;
use vstd::arithmetic::mul::lemma_mul_is_distributive_sub;
use vstd::arithmetic::mul::lemma_mul_is_distributive_sub_other_way;
use vstd::arithmetic::mul::lemma_mul_strict_inequality_converse;
use vstd::arithmetic::mul::lemma_mul_is_associative;
use vstd::arithmetic::mul::lemma_mul_is_commutative;
use vstd::arithmetic::mul::lemma_mul_left_inequality;
use vstd::arithmetic::mul::lemma_mul_nonnegative;

use crate::params::BondingCurveParams;
use crate::params::SCALE;
use crate::pricing::spec_cap_multiplier;
use crate::pricing::spec_market_cap;
use crate::pricing::spec_avg_price;
use crate::pricing::spec_buy_base;
use crate::pricing::spec_buy_total;
use crate::pricing::spec_actual_price;
use crate::pricing::spec_deviation;
use crate::pricing::spec_slippage;
use crate::pricing::spec_fee;
use crate::pricing::spec_multiplier;
use crate::pricing::spec_multiplier_sq;
use crate::pricing::spec_price;
use crate::pricing::spec_sell_base;
use crate::pricing::spec_sell_total;

verus! {

/// The squared multiplier never falls below the scale itself: squaring a
/// scaled value of at least 1.0 and rescaling keeps it at least 1.0.
proof fn lemma_multiplier_sq_at_least_scale(p: BondingCurveParams, s: int)
    requires
        p.curve_steepness >= 1,
        0 <= s,
    ensures
        (SCALE as int) <= spec_multiplier(p, s),
        (SCALE as int) <= spec_multiplier_sq(p, s),
{
    let sc = SCALE as int;
    let m = spec_multiplier(p, s);
    lemma_mul_nonnegative(s, sc);
    lemma_div_pos_is_pos(s * sc, p.curve_steepness as int);
    assert(sc <= m);
    lemma_mul_inequality(sc, m, sc);
    lemma_mul_is_commutative(m, sc);
    lemma_mul_left_inequality(m, sc, m);
    assert(sc * sc <= m * m);
    lemma_div_is_ordered(sc * sc, m * m, sc);
    lemma_div_by_multiple(sc, sc);
}

/// The spot price is non-decreasing in supply: for any valid parameters and
/// any supplies `s1 <= s2`, the curve value at `s1` is at most the value at
/// `s2`.
pub proof fn lemma_price_non_decreasing(p: BondingCurveParams, s1: int, s2: int)
    requires
        p.valid(),
        0 <= s1 <= s2,
    ensures
        spec_price(p, s1) <= spec_price(p, s2),
{
    let sc = SCALE as int;
    let k = p.curve_steepness as int;
    let init = p.initial_price as int;
    if s2 == 0 {
    } else if s1 == 0 {
        lemma_multiplier_sq_at_least_scale(p, s2);
        let msq2 = spec_multiplier_sq(p, s2);
        lemma_mul_left_inequality(init, sc, msq2);
        lemma_div_is_ordered(init * sc, init * msq2, sc);
        lemma_div_by_multiple(init, sc);
    } else {
        lemma_multiplier_sq_at_least_scale(p, s1);
        let m1 = spec_multiplier(p, s1);
        let m2 = spec_multiplier(p, s2);
        lemma_mul_inequality(s1, s2, sc);
        lemma_div_is_ordered(s1 * sc, s2 * sc, k);
        assert(m1 <= m2);
        lemma_mul_inequality(m1, m2, m1);
        lemma_mul_left_inequality(m2, m1, m2);
        lemma_mul_is_commutative(m2, m1);
        assert(m1 * m1 <= m2 * m2);
        lemma_div_is_ordered(m1 * m1, m2 * m2, sc);
        lemma_mul_left_inequality(init, spec_multiplier_sq(p, s1), spec_multiplier_sq(p, s2));
        lemma_div_is_ordered(
            init * spec_multiplier_sq(p, s1),
            init * spec_multiplier_sq(p, s2),
            sc,
        );
    }
}

/// For valid parameters the spot price never falls below the initial price.
pub proof fn lemma_price_at_least_initial(p: BondingCurveParams, s: int)
    requires
        p.valid(),
        0 <= s,
    ensures
        spec_price(p, s) >= p.initial_price,
{
    lemma_price_non_decreasing(p, 0, s);
}

/// The integral multiplier never falls below the scale and is non-decreasing
/// in supply.
proof fn lemma_cap_multiplier_bounds(p: BondingCurveParams, s1: int, s2: int)
    requires
        p.curve_steepness >= 1,
        0 <= s1 <= s2,
    ensures
        (SCALE as int) <= spec_cap_multiplier(p, s1),
        spec_cap_multiplier(p, s1) <= spec_cap_multiplier(p, s2),
{
    let sc = SCALE as int;
    let k2 = 2 * (p.curve_steepness as int);
    lemma_mul_nonnegative(s1, sc);
    lemma_div_pos_is_pos(s1 * sc, k2);
    lemma_mul_inequality(s1, s2, sc);
    lemma_div_is_ordered(s1 * sc, s2 * sc, k2);
}

/// The market cap is zero at zero supply and strictly increasing in supply:
/// for any valid parameters and supplies `s1 < s2`, the closed-form integral
/// at `s1` is strictly below the integral at `s2`.
pub proof fn lemma_market_cap_strictly_increasing(p: BondingCurveParams, s1: int, s2: int)
    requires
        p.valid(),
        0 <= s1 < s2,
    ensures
        spec_market_cap(p, s1) < spec_market_cap(p, s2),
{
    let sc = SCALE as int;
    let init = p.initial_price as int;
    let m1 = spec_cap_multiplier(p, s1);
    let m2 = spec_cap_multiplier(p, s2);
    let n1 = init * s1 * m1;
    let n2 = init * s2 * m2;
    lemma_cap_multiplier_bounds(p, s1, s2);
    // The zero-supply case of the integral agrees with its general formula.
    if s1 == 0 {
        lemma_div_of0(sc);
        assert(spec_market_cap(p, s1) == n1 / sc);
    }
    // n2 is at least n1 plus a whole scale unit.
    lemma_mul_left_inequality(init, s1 + 1, s2);
    lemma_mul_nonnegative(init, s1 + 1);
    lemma_mul_inequality(init * (s1 + 1), init * s2, m1);
    vstd::arithmetic::mul::lemma_mul_strictly_positive(init, s2);
    lemma_mul_left_inequality(init * s2, m1, m2);
    assert(init * (s1 + 1) * m1 <= n2);
    assert(init * (s1 + 1) == init * s1 + init) by {
        lemma_mul_is_distributive_add(init, s1, 1);
    }
    assert((init * s1 + init) * m1 == n1 + init * m1) by {
        lemma_mul_is_distributive_add_other_way(m1, init * s1, init);
    }
    assert(init * (s1 + 1) * m1 == n1 + init * m1);
    lemma_mul_left_inequality(init, sc, m1);
    lemma_mul_inequality(1, init, sc);
    assert(sc <= init * m1);
    assert(n1 + sc <= n2);
    // Dividing by the scale keeps a gap of at least one unit.
    lemma_hoist_over_denominator(n1, 1, SCALE as nat);
    lemma_div_is_ordered(n1 + 1 * sc, n2, sc);
    assert(n1 / sc + 1 <= n2 / sc);
}

/// A scaled quotient is at least one whole unit exactly when its numerator
/// reaches a whole scale.
proof fn lemma_fee_unit(x: int)
    requires
        x >= SCALE as int,
    ensures
        x / (SCALE as int) >= 1,
{
    let sc = SCALE as int;
    lemma_div_is_ordered(sc, x, sc);
    lemma_div_by_multiple(1, sc);
}

/// With a positive fee rate, a buy costs strictly more than its unfee'd
/// trapezoidal base — provided the fee does not truncate to zero, which is
/// exactly when the base times the rate reaches a whole scale unit.
pub proof fn lemma_buy_price_exceeds_base(p: BondingCurveParams, s: int, a: int)
    requires
        spec_buy_base(p, s, a) * (p.fee_rate as int) >= SCALE as int,
    ensures
        spec_buy_total(p, s, a) > spec_buy_base(p, s, a),
{
    lemma_fee_unit(spec_buy_base(p, s, a) * (p.fee_rate as int));
}

/// With a positive fee rate, a sell pays out strictly less than its unfee'd
/// trapezoidal base — provided the fee does not truncate to zero, which is
/// exactly when the base times the rate reaches a whole scale unit.
pub proof fn lemma_sell_payout_below_base(p: BondingCurveParams, s: int, a: int)
    requires
        spec_sell_base(p, s, a) * (p.fee_rate as int) >= SCALE as int,
    ensures
        spec_sell_total(p, s, a) < spec_sell_base(p, s, a),
{
    lemma_fee_unit(spec_sell_base(p, s, a) * (p.fee_rate as int));
}

/// Selling immediately after a buy quotes over the same supply range, so the
/// unfee'd base of the sell equals the base of the buy, and the round trip
/// gives back exactly the base minus the fee: the loss is twice the fee.
pub proof fn lemma_round_trip_spread(p: BondingCurveParams, s: int, a: int)
    ensures
        spec_sell_base(p, s + a, a) == spec_buy_base(p, s, a),
        spec_buy_total(p, s, a) - spec_sell_total(p, s + a, a) == 2 * spec_fee(
            p,
            spec_buy_base(p, s, a),
        ),
{
}

/// Buying and immediately selling back always loses money whenever the fee
/// on the shared base does not truncate to zero.
pub proof fn lemma_round_trip_strict_loss(p: BondingCurveParams, s: int, a: int)
    requires
        spec_buy_base(p, s, a) * (p.fee_rate as int) >= SCALE as int,
    ensures
        spec_sell_total(p, s + a, a) < spec_buy_total(p, s, a),
{
    lemma_round_trip_spread(p, s, a);
    lemma_fee_unit(spec_buy_base(p, s, a) * (p.fee_rate as int));
}

/// The trapezoidal average of two spot prices at valid parameters is at
/// least one value unit, so a trade's unfee'd base is at least the amount.
proof fn lemma_buy_base_at_least_amount(p: BondingCurveParams, s: int, a: int)
    requires
        p.valid(),
        0 <= s,
        1 <= a,
    ensures
        spec_avg_price(p, s, s + a) >= 1,
        spec_buy_base(p, s, a) >= a,
{
    lemma_price_at_least_initial(p, s);
    lemma_price_at_least_initial(p, s + a);
    let sum = spec_price(p, s) + spec_price(p, s + a);
    lemma_div_is_ordered(2, sum, 2);
    lemma_div_by_multiple(1, 2);
    assert(spec_avg_price(p, s, s + a) >= 1);
    lemma_mul_inequality(1, spec_avg_price(p, s, s + a), a);
}

/// The round-trip loss, measured in basis points of the buy cost, lies
/// between the fee rate and four times the fee rate — provided the fee on
/// the shared base amounts to at least two value units (a one-unit fee can
/// truncate the measured rate below the nominal one).
pub proof fn lemma_round_trip_loss_bounds(p: BondingCurveParams, s: int, a: int)
    requires
        p.valid(),
        0 <= s,
        1 <= a,
        spec_fee(p, spec_buy_base(p, s, a)) >= 2,
    ensures
        spec_sell_total(p, s + a, a) < spec_buy_total(p, s, a),
        (spec_buy_total(p, s, a) - spec_sell_total(p, s + a, a)) * (SCALE as int) / spec_buy_total(
            p,
            s,
            a,
        ) >= p.fee_rate,
        (spec_buy_total(p, s, a) - spec_sell_total(p, s + a, a)) * (SCALE as int) / spec_buy_total(
            p,
            s,
            a,
        ) <= 4 * p.fee_rate,
{
    let sc = SCALE as int;
    let fr = p.fee_rate as int;
    let b = spec_buy_base(p, s, a);
    let f = spec_fee(p, b);
    let c = spec_buy_total(p, s, a);
    lemma_round_trip_spread(p, s, a);
    lemma_buy_base_at_least_amount(p, s, a);
    assert(b >= 1);
    // The fee is the scaled-down product of base and rate.
    lemma_fundamental_div_mod(b * fr, sc);
    lemma_mod_division_less_than_divisor(b * fr, sc);
    let rem = (b * fr) % sc;
    assert(b * fr == sc * f + rem);
    // Lower bound: the scaled loss reaches the rate times the cost.
    assert(fr * c == fr * b + fr * f) by {
        lemma_mul_is_distributive_add(fr, b, f);
    }
    assert(fr * b == b * fr) by {
        lemma_mul_is_commutative(fr, b);
    }
    lemma_mul_inequality(fr, 1000, f);
    assert(fr * c <= sc * f + rem + 1000 * f);
    assert(2 * f * sc >= fr * c);
    lemma_div_is_ordered(fr * c, 2 * f * sc, c);
    lemma_div_by_multiple(fr, c);
    assert((2 * f) * sc / c >= fr);
    // Upper bound: the scaled loss stays within twice the rate, measured
    // against the smaller base, hence within four times the rate.
    assert(2 * f * sc <= 2 * (fr * b));
    assert(2 * (fr * b) == (2 * fr) * b) by {
        lemma_mul_is_associative(2, fr, b);
    }
    lemma_div_is_ordered_by_denominator(2 * f * sc, b, c);
    lemma_div_is_ordered(2 * f * sc, (2 * fr) * b, b);
    lemma_div_by_multiple(2 * fr, b);
    assert((2 * f) * sc / c <= 2 * fr);
}

/// The fee-adjusted unit price a buyer pays when the trapezoidal average
/// price of the trade is `v`: dividing the full cost by the amount charges
/// the scaled-down fee per token, and the rounding cancels exactly.
spec fn unit_buy_price(p: BondingCurveParams, v: int) -> int {
    v + v * (p.fee_rate as int) / (SCALE as int)
}

/// The fee-adjusted unit price a seller receives when the trapezoidal
/// average price of the trade is `v` and the amount is `a`: the scaled-down
/// fee is deducted per token, rounded up once when the per-token residues
/// accumulate to a whole scale across the `a` tokens.
spec fn unit_sell_price(p: BondingCurveParams, v: int, a: int) -> int {
    let q = v * (p.fee_rate as int) / (SCALE as int);
    let r = v * (p.fee_rate as int) % (SCALE as int);
    if a * r >= SCALE as int {
        v - q - 1
    } else {
        v - q
    }
}

/// Dividing a buy's full cost by its amount yields the fee-adjusted unit
/// price at the trade's average price.
proof fn lemma_actual_price_buy(p: BondingCurveParams, s: int, a: int)
    requires
        p.valid(),
        0 <= s,
        1 <= a,
    ensures
        spec_actual_price(p, s, a, true) == unit_buy_price(p, spec_avg_price(p, s, s + a)),
{
    let sc = SCALE as int;
    let fr = p.fee_rate as int;
    let v = spec_avg_price(p, s, s + a);
    let b = spec_buy_base(p, s, a);
    let f = spec_fee(p, b);
    lemma_buy_base_at_least_amount(p, s, a);
    assert(v >= 1);
    // The total splits as the average plus the fee spread over the amount.
    assert(f / a + v == (f + v * a) / a) by {
        lemma_hoist_over_denominator(f, v, a as nat);
    }
    // The fee per token is the scaled-down product of average and rate.
    assert(v * a * fr == a * (v * fr)) by {
        lemma_mul_is_commutative(v, a);
        lemma_mul_is_associative(a, v, fr);
    }
    lemma_mul_nonnegative(v, fr);
    assert((v * a * fr) / sc / a == (v * a * fr) / (sc * a)) by {
        lemma_mul_nonnegative(a, v * fr);
        lemma_div_denominator(v * a * fr, sc, a);
    }
    assert((v * fr) / sc == (a * (v * fr)) / (a * sc)) by {
        lemma_div_multiples_vanish_quotient(a, v * fr, sc);
    }
    assert(sc * a == a * sc) by {
        lemma_mul_is_commutative(sc, a);
    }
    assert(f / a == (v * fr) / sc);
}

/// The buyer's fee-adjusted unit price is non-decreasing in the average
/// price.
proof fn lemma_unit_buy_price_monotone(p: BondingCurveParams, v1: int, v2: int)
    requires
        0 <= v1 <= v2,
    ensures
        unit_buy_price(p, v1) <= unit_buy_price(p, v2),
{
    let sc = SCALE as int;
    let fr = p.fee_rate as int;
    lemma_mul_inequality(v1, v2, fr);
    lemma_div_is_ordered(v1 * fr, v2 * fr, sc);
}

/// Dividing a sell's full payout by its amount yields the fee-adjusted unit
/// price at the trade's average price.
proof fn lemma_actual_price_sell(p: BondingCurveParams, s: int, a: int)
    requires
        p.valid(),
        1 <= a <= s,
    ensures
        spec_actual_price(p, s, a, false) == unit_sell_price(p, spec_avg_price(p, s - a, s), a),
{
    let sc = SCALE as int;
    let fr = p.fee_rate as int;
    let v = spec_avg_price(p, s - a, s);
    let b = spec_sell_base(p, s, a);
    let f = spec_fee(p, b);
    lemma_price_at_least_initial(p, s - a);
    lemma_price_at_least_initial(p, s);
    let sum = spec_price(p, s - a) + spec_price(p, s);
    lemma_div_is_ordered(2, sum, 2);
    lemma_div_by_multiple(1, 2);
    assert(v >= 1);
    // Split the scaled product of average and rate into quotient and residue.
    let q = v * fr / sc;
    let r = v * fr % sc;
    lemma_fundamental_div_mod(v * fr, sc);
    lemma_mod_division_less_than_divisor(v * fr, sc);
    assert(v * fr == sc * q + r);
    lemma_mul_nonnegative(v, fr);
    lemma_div_pos_is_pos(v * fr, sc);
    // The whole fee is `a * q` plus the accumulated residues, scaled down.
    assert(v * a * fr == a * (sc * q) + a * r) by {
        lemma_mul_is_commutative(v, a);
        lemma_mul_is_associative(a, v, fr);
        lemma_mul_is_distributive_add(a, sc * q, r);
    }
    assert(a * (sc * q) == (a * q) * sc) by {
        lemma_mul_is_associative(a, sc, q);
        lemma_mul_is_commutative(a, sc);
        lemma_mul_is_associative(sc, a, q);
        lemma_mul_is_commutative(sc, a * q);
    }
    let t = (a * r) / sc;
    assert(f == a * q + t) by {
        lemma_hoist_over_denominator(a * r, a * q, sc as nat);
    }
    lemma_mul_nonnegative(a, r);
    lemma_div_pos_is_pos(a * r, sc);
    assert(a * r < a * sc) by {
        lemma_mul_left_inequality(a, r, sc);
    }
    assert(t < a) by {
        lemma_mul_is_commutative(a, sc);
        lemma_multiply_divide_lt(a * r, sc, a);
    }
    // The payout is `a` times the unit price, plus a residue below `a`.
    assert(b - f == a * (v - q) - t) by {
        lemma_mul_is_commutative(v, a);
        lemma_mul_is_distributive_sub(a, v, q);
    }
    if t == 0 {
        assert((a * (v - q)) / a == v - q) by {
            lemma_div_multiples_vanish(v - q, a);
        }
        assert(a * r < sc) by {
            lemma_small_div_converse(a * r, sc);
        }
    } else {
        assert(b - f == a * (v - q - 1) + (a - t)) by {
            lemma_mul_is_distributive_sub(a, v - q, 1);
        }
        assert((a * (v - q - 1) + (a - t)) / a == v - q - 1) by {
            lemma_div_multiples_vanish_fancy(v - q - 1, a - t, a);
        }
        assert(a * r >= sc) by {
            if a * r < sc {
                lemma_basic_div(a * r, sc);
            }
        }
    }
}

/// The seller's fee-adjusted unit price is non-decreasing in the average
/// price, for any fee rate below the scale.
proof fn lemma_unit_sell_price_monotone(p: BondingCurveParams, v1: int, v2: int, a: int)
    requires
        p.fee_rate <= 1000,
        0 <= v1 <= v2,
        1 <= a,
    ensures
        unit_sell_price(p, v1, a) <= unit_sell_price(p, v2, a),
{
    let sc = SCALE as int;
    let fr = p.fee_rate as int;
    let d = v2 - v1;
    let q1 = v1 * fr / sc;
    let r1 = v1 * fr % sc;
    let q2 = v2 * fr / sc;
    let r2 = v2 * fr % sc;
    lemma_fundamental_div_mod(v1 * fr, sc);
    lemma_fundamental_div_mod(v2 * fr, sc);
    lemma_mod_division_less_than_divisor(v1 * fr, sc);
    lemma_mod_division_less_than_divisor(v2 * fr, sc);
    assert(v2 * fr - v1 * fr == d * fr) by {
        lemma_mul_is_distributive_sub_other_way(fr, v2, v1);
    }
    assert(d * fr <= d * sc) by {
        if d > 0 {
            lemma_mul_left_inequality(d, fr, sc);
        }
    }
    let bit1: int = if a * r1 >= sc {
        1
    } else {
        0
    };
    let bit2: int = if a * r2 >= sc {
        1
    } else {
        0
    };
    if bit2 == 1 && bit1 == 0 {
        // The second residue strictly exceeds the first, which buys the
        // quotient one full unit of slack.
        assert(a * r1 < a * r2);
        assert(r1 < r2) by {
            lemma_mul_is_commutative(a, r1);
            lemma_mul_is_commutative(a, r2);
            lemma_mul_strict_inequality_converse(r1, r2, a);
        }
        assert(sc * (q2 - q1) == d * fr - (r2 - r1)) by {
            lemma_mul_is_distributive_sub(sc, q2, q1);
        }
        assert(sc * (q2 - q1) < sc * d);
        assert(q2 - q1 < d) by {
            lemma_mul_is_commutative(sc, q2 - q1);
            lemma_mul_is_commutative(sc, d);
            lemma_mul_strict_inequality_converse(q2 - q1, d, sc);
        }
    } else {
        assert(sc * (q2 - q1) == d * fr - (r2 - r1)) by {
            lemma_mul_is_distributive_sub(sc, q2, q1);
        }
        assert(sc * (q2 - q1) < sc * (d + 1));
        assert(q2 - q1 < d + 1) by {
            lemma_mul_is_commutative(sc, q2 - q1);
            lemma_mul_is_commutative(sc, d + 1);
            lemma_mul_strict_inequality_converse(q2 - q1, d + 1, sc);
        }
    }
}

/// The seller's fee-adjusted unit price is non-increasing in the amount: a
/// larger trade can only tip the accumulated residues over a whole scale.
proof fn lemma_unit_sell_price_antitone_amount(p: BondingCurveParams, v: int, a1: int, a2: int)
    requires
        0 <= v,
        1 <= a1 <= a2,
    ensures
        unit_sell_price(p, v, a2) <= unit_sell_price(p, v, a1),
{
    let sc = SCALE as int;
    let fr = p.fee_rate as int;
    let r = v * fr % sc;
    lemma_mod_division_less_than_divisor(v * fr, sc);
    if a1 * r >= sc {
        lemma_mul_inequality(a1, a2, r);
    }
}

/// The slippage figure is monotonically non-decreasing in the trade amount,
/// holding supply, parameters and trade direction fixed: a buy pushes the
/// average unit price further above the spot price, a sell pushes it further
/// below. Every `Ok` result of the estimator equals this figure, so the law
/// carries over to any two successful estimates.
pub proof fn lemma_slippage_non_decreasing(
    p: BondingCurveParams,
    s: int,
    a1: int,
    a2: int,
    is_buy: bool,
)
    requires
        p.valid(),
        0 <= s,
        1 <= a1 <= a2,
        !is_buy ==> a2 <= s,
    ensures
        spec_slippage(p, s, a1, is_buy) <= spec_slippage(p, s, a2, is_buy),
{
    let sc = SCALE as int;
    let fr = p.fee_rate as int;
    let spot = spec_price(p, s);
    lemma_price_at_least_initial(p, s);
    assert(spot >= 1);
    if is_buy {
        let v1 = spec_avg_price(p, s, s + a1);
        let v2 = spec_avg_price(p, s, s + a2);
        lemma_actual_price_buy(p, s, a1);
        lemma_actual_price_buy(p, s, a2);
        // The averages are ordered and no smaller than the spot price.
        lemma_price_non_decreasing(p, s, s + a1);
        lemma_price_non_decreasing(p, s + a1, s + a2);
        let sum1 = spec_price(p, s) + spec_price(p, s + a1);
        let sum2 = spec_price(p, s) + spec_price(p, s + a2);
        lemma_div_is_ordered(2 * spot, sum1, 2);
        lemma_div_is_ordered(sum1, sum2, 2);
        lemma_div_multiples_vanish(spot, 2);
        assert(spot <= v1 <= v2);
        // So the fee-adjusted unit prices are ordered the same way.
        lemma_unit_buy_price_monotone(p, v1, v2);
        let u1 = unit_buy_price(p, v1);
        let u2 = unit_buy_price(p, v2);
        lemma_mul_nonnegative(v1, fr);
        lemma_div_pos_is_pos(v1 * fr, sc);
        assert(v1 <= u1);
        assert(spec_deviation(p, s, a1, true) == u1 - spot);
        assert(spec_deviation(p, s, a2, true) == u2 - spot);
        lemma_mul_inequality(u1 - spot, u2 - spot, sc);
        lemma_div_is_ordered((u1 - spot) * sc, (u2 - spot) * sc, spot);
    } else {
        let v1 = spec_avg_price(p, s - a1, s);
        let v2 = spec_avg_price(p, s - a2, s);
        lemma_actual_price_sell(p, s, a1);
        lemma_actual_price_sell(p, s, a2);
        // The averages shrink with the amount, staying between one value
        // unit and the spot price.
        lemma_price_at_least_initial(p, s - a2);
        lemma_price_non_decreasing(p, s - a2, s - a1);
        lemma_price_non_decreasing(p, s - a1, s);
        let sum1 = spec_price(p, s - a1) + spec_price(p, s);
        let sum2 = spec_price(p, s - a2) + spec_price(p, s);
        lemma_div_is_ordered(2, sum2, 2);
        lemma_div_is_ordered(sum2, sum1, 2);
        lemma_div_is_ordered(sum1, 2 * spot, 2);
        lemma_div_by_multiple(1, 2);
        lemma_div_multiples_vanish(spot, 2);
        assert(1 <= v2 <= v1 <= spot);
        // So the fee-adjusted unit prices shrink with the amount too.
        lemma_unit_sell_price_antitone_amount(p, v1, a1, a2);
        lemma_unit_sell_price_monotone(p, v2, v1, a2);
        let u1 = unit_sell_price(p, v1, a1);
        let u2 = unit_sell_price(p, v2, a2);
        assert(u2 <= u1);
        lemma_mul_nonnegative(v1, fr);
        lemma_div_pos_is_pos(v1 * fr, sc);
        lemma_mod_division_less_than_divisor(v1 * fr, sc);
        assert(u1 <= v1);
        assert(spec_deviation(p, s, a1, false) == spot - u1);
        assert(spec_deviation(p, s, a2, false) == spot - u2);
        lemma_mul_inequality(spot - u1, spot - u2, sc);
        lemma_div_is_ordered((spot - u1) * sc, (spot - u2) * sc, spot);
    }
}

} // verus!
