//! Spot price of an asset: the ratio of its hub reserve to its reserve as a
//! fixed-point rational with eighteen fractional decimal digits.

use vstd::prelude::*;

use crate::types::{AssetReserveState, Balance};
use sp_arithmetic::FixedPointNumber;
use sp_arithmetic::FixedU128;

verus! {

/// The fixed-point representation of one: prices carry eighteen fractional
/// decimal digits.
pub const FIXED_ONE: Balance = 1_000_000_000_000_000_000;

/// A non-negative fixed-point rational, held as its raw inner integer: the
/// represented number is `inner / FIXED_ONE`.
#[derive(Clone, Copy, PartialEq, Eq, Structural, Debug)]
pub struct Price {
    pub inner: Balance,
}

/// The mathematical value of `n / d` scaled by `FIXED_ONE` and rounded
/// towards zero.
pub open spec fn spec_scaled_ratio(n: Balance, d: Balance) -> int {
    (n as int) * (FIXED_ONE as int) / (d as int)
}

/// The inner fixed-point value of the ratio `n / d`, rounded towards zero:
/// `None` when the denominator is zero or the scaled quotient exceeds the
/// unsigned 128-bit range, else `floor(n * FIXED_ONE / d)`.
pub open spec fn spec_rational_to_fixed(n: Balance, d: Balance) -> Option<Balance> {
    if d == 0 {
        None
    } else if spec_scaled_ratio(n, d) > u128::MAX {
        None
    } else {
        Some(spec_scaled_ratio(n, d) as Balance)
    }
}

/// Relies on `sp_arithmetic`'s `FixedU128::checked_from_rational`: for
/// unsigned operands it returns `None` when the denominator is zero, and
/// otherwise computes `n * 10^18 / d` rounded towards zero (`Minor` signed
/// rounding on a non-negative quantity), returning `None` when that value
/// does not fit in the 128-bit inner type.
#[verifier::external_body]
fn fixed_from_rational(n: Balance, d: Balance) -> (r: Option<Balance>)
    ensures
        r == spec_rational_to_fixed(n, d),
{
    FixedU128::checked_from_rational(n, d).map(|p| p.into_inner())
}

impl AssetReserveState {
    /// The spot price of the asset in hub-asset terms, when it exists.
    pub open spec fn spec_price(self) -> Option<Price> {
        match spec_rational_to_fixed(self.hub_reserve, self.reserve) {
            Some(inner) => Some(Price { inner }),
            None => None,
        }
    }

    /// Computes the spot price `hub_reserve / reserve` as a checked
    /// fixed-point division: no price when the reserve is zero or the ratio
    /// is not representable, never a wrapped or infinite value.
    pub fn price(&self) -> (r: Option<Price>)
        ensures
            r == self.spec_price(),
            self.reserve == 0 ==> r is None,
    {
        match fixed_from_rational(self.hub_reserve, self.reserve) {
            Some(inner) => Some(Price { inner }),
            None => None,
        }
    }
}

/// The spot price of asset `a` in terms of asset `b`, routed through the
/// hub asset: the ratio of the two per-asset prices, which is the rational
/// `(a.hub_reserve * b.reserve) / (a.reserve * b.hub_reserve)`. `None` when
/// either product overflows, a denominator is zero, or the scaled ratio is
/// not representable.
pub open spec fn spec_spot_price(a: AssetReserveState, b: AssetReserveState) -> Option<Price> {
    if (a.hub_reserve as int) * (b.reserve as int) > u128::MAX
        || (a.reserve as int) * (b.hub_reserve as int) > u128::MAX {
        None
    } else {
        match spec_rational_to_fixed(
            ((a.hub_reserve as int) * (b.reserve as int)) as Balance,
            ((a.reserve as int) * (b.hub_reserve as int)) as Balance,
        ) {
            Some(inner) => Some(Price { inner }),
            None => None,
        }
    }
}

/// Computes the spot price of asset `a` in terms of asset `b` as one
/// checked fixed-point division of the cross products of the reserves:
/// no price when a product overflows or the ratio is undefined or not
/// representable.
pub fn spot_price(a: &AssetReserveState, b: &AssetReserveState) -> (r: Option<Price>)
    ensures
        r == spec_spot_price(*a, *b),
{
    let n = match a.hub_reserve.checked_mul(b.reserve) {
        Some(v) => v,
        None => { return None; },
    };
    let d = match a.reserve.checked_mul(b.hub_reserve) {
        Some(v) => v,
        None => { return None; },
    };
    match fixed_from_rational(n, d) {
        Some(inner) => Some(Price { inner }),
        None => None,
    }
}

/// A price exists exactly when the reserve is non-zero, as long as the
/// scaled ratio is representable; and an existing price is exactly the
/// ratio of the reserves in fixed-point terms, rounded towards zero.
pub proof fn lemma_price_none_iff_zero_reserve(state: AssetReserveState)
    requires
        state.reserve != 0 ==> spec_scaled_ratio(state.hub_reserve, state.reserve) <= u128::MAX,
    ensures
        state.spec_price() is None <==> state.reserve == 0,
        state.reserve != 0 ==> state.spec_price()
            == Some(Price { inner: spec_scaled_ratio(state.hub_reserve, state.reserve) as Balance }),
{
}

} // verus!
