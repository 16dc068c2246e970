//! The parameter record shared by every engine operation, and the engine's
//! error kinds.

use vstd::prelude::*;

verus! {

/// The fixed-point scale: this many scaled units stand for 1.0. The same
/// unit doubles as one basis point for fee rates and slippage figures.
pub const SCALE: u64 = 10000;

/// One terminal failure of a single engine call. Every error is surfaced
/// immediately; the engine holds no state that could be left half-updated.
#[derive(Clone, Copy, Debug, PartialEq, Eq, Structural)]
pub enum CurveError {
    /// A zero trade amount, or a zero initial price.
    InvalidPrice,
    /// A buy that would exceed `max_supply`, a sell of more than the current
    /// supply, or a zero `max_supply`.
    InvalidMaxSupply,
    /// A zero `curve_steepness`, or one below the minimum safe threshold.
    InvalidCurveParams,
    /// A fee rate above the 10% cap.
    FeeTooHigh,
    /// A checked arithmetic step overflowed, underflowed, or divided by zero.
    MathOverflow,
}

/// The bonding curve's parameter record: immutable once a market is created
/// and passed by reference into every engine call.
#[derive(Clone, Copy, Debug, PartialEq, Eq, Structural)]
pub struct BondingCurveParams {
    /// Price at zero supply, in atomic value units.
    pub initial_price: u64,
    /// Denominator controlling the curvature; larger values flatten the curve.
    pub curve_steepness: u64,
    /// Upper bound on the total outstanding supply.
    pub max_supply: u64,
    /// Trading fee in basis points.
    pub fee_rate: u16,
}

impl BondingCurveParams {
    /// The internal consistency that `BondingCurve::validate_params` enforces
    /// and that every monotonicity law assumes.
    pub open spec fn valid(self) -> bool {
        &&& self.initial_price >= 1
        &&& self.curve_steepness >= 1000
        &&& self.max_supply >= 1
        &&& self.fee_rate <= 1000
    }

    /// Builds a parameter record after checking each field, in order:
    /// a positive initial price, a positive steepness, a positive supply cap,
    /// and a fee within the 10% cap.
    pub fn new(initial_price: u64, curve_steepness: u64, max_supply: u64, fee_rate: u16) -> (r:
        Result<Self, CurveError>)
        ensures
            r is Ok <==> initial_price > 0 && curve_steepness > 0 && max_supply > 0 && fee_rate
                <= 1000,
            r is Ok ==> r->Ok_0 == (BondingCurveParams {
                initial_price,
                curve_steepness,
                max_supply,
                fee_rate,
            }),
            r == Err::<Self, CurveError>(CurveError::InvalidPrice) <==> initial_price == 0,
            r == Err::<Self, CurveError>(CurveError::InvalidCurveParams) <==> initial_price > 0
                && curve_steepness == 0,
            r == Err::<Self, CurveError>(CurveError::InvalidMaxSupply) <==> initial_price > 0
                && curve_steepness > 0 && max_supply == 0,
            r == Err::<Self, CurveError>(CurveError::FeeTooHigh) <==> initial_price > 0
                && curve_steepness > 0 && max_supply > 0 && fee_rate > 1000,
    {
        if initial_price == 0 {
            return Err(CurveError::InvalidPrice);
        }
        if curve_steepness == 0 {
            return Err(CurveError::InvalidCurveParams);
        }
        if max_supply == 0 {
            return Err(CurveError::InvalidMaxSupply);
        }
        if fee_rate > 1000 {
            return Err(CurveError::FeeTooHigh);
        }
        Ok(BondingCurveParams { initial_price, curve_steepness, max_supply, fee_rate })
    }
}

} // verus!
