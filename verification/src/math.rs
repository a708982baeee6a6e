//! The constant-product trade legs, computed by the external math crate
//! and consumed here through exactly specified wrappers.

use vstd::prelude::*;

use crate::types::Balance;
use vstd::arithmetic::div_mod::{lemma_div_is_ordered, lemma_div_multiples_vanish, lemma_div_pos_is_pos};
use vstd::arithmetic::mul::{lemma_mul_inequality, lemma_mul_is_commutative};

verus! {

/// Failure of a math-engine computation: the errors surface as typed
/// failures that abort the whole operation, never as wrapped values.
#[derive(Clone, Copy, PartialEq, Eq, Structural, Debug)]
pub enum MathError {
    /// A checked operation left the unsigned 128-bit range.
    Overflow,
    /// More output was asked of a pool than its reserve holds.
    InsufficientOutReserve,
    /// A reserve that must be positive was zero.
    ZeroReserve,
}

/// The amount received from a constant-product pool for `amount_in` sent to
/// it: `floor(out_reserve * amount_in / (in_reserve + amount_in))`, and zero
/// for a zero input. The quotient never exceeds `out_reserve`, so it always
/// fits the balance type.
pub open spec fn spec_out_given_in(in_reserve: Balance, out_reserve: Balance, amount_in: Balance) -> Balance {
    if amount_in == 0 {
        0
    } else {
        ((out_reserve as int) * (amount_in as int) / ((in_reserve as int) + (amount_in as int))) as Balance
    }
}

/// The amount that must be sent to a constant-product pool to receive
/// `amount_out` from it: `floor(in_reserve * amount_out / (out_reserve -
/// amount_out))` rounded up by one, zero for a zero request, and an error
/// when the request reaches or exceeds the pool's reserve or the rounded
/// quotient leaves the unsigned 128-bit range.
pub open spec fn spec_in_given_out(out_reserve: Balance, in_reserve: Balance, amount_out: Balance) -> Result<Balance, MathError> {
    if amount_out == 0 {
        Ok(0)
    } else if amount_out > out_reserve {
        Err(MathError::InsufficientOutReserve)
    } else if amount_out == out_reserve {
        Err(MathError::ZeroReserve)
    } else if (in_reserve as int) * (amount_out as int) / ((out_reserve as int) - (amount_out as int)) + 1 > u128::MAX {
        Err(MathError::Overflow)
    } else {
        Ok(((in_reserve as int) * (amount_out as int) / ((out_reserve as int) - (amount_out as int)) + 1) as Balance)
    }
}

/// For a positive input the output equals the untruncated quotient, and it
/// never exceeds the selling pool's reserve of the bought asset.
pub proof fn lemma_out_given_in_bounds(in_reserve: Balance, out_reserve: Balance, amount_in: Balance)
    ensures
        spec_out_given_in(in_reserve, out_reserve, amount_in) <= out_reserve,
        amount_in > 0 ==> spec_out_given_in(in_reserve, out_reserve, amount_in)
            == (out_reserve as int) * (amount_in as int) / ((in_reserve as int) + (amount_in as int)),
{
    if amount_in > 0 {
        let o = out_reserve as int;
        let a = amount_in as int;
        let d = (in_reserve as int) + a;
        lemma_mul_inequality(a, d, o);
        lemma_mul_is_commutative(a, o);
        lemma_mul_is_commutative(d, o);
        lemma_div_is_ordered(o * a, o * d, d);
        lemma_mul_is_commutative(o, d);
        lemma_div_multiples_vanish(o, d);
        lemma_div_pos_is_pos(o * a, d);
    }
}

/// Relies on `hydra_dx_math::xyk::calculate_out_given_in`: for a zero
/// amount it returns zero, and otherwise `floor(out_reserve * amount_in /
/// (in_reserve + amount_in))`, computed in 256-bit arithmetic. The quotient
/// is bounded by `out_reserve`, so the conversion back to a balance never
/// fails and the call never errors.
#[verifier::external_body]
pub(crate) fn xyk_out_given_in(in_reserve: Balance, out_reserve: Balance, amount_in: Balance) -> (r: Result<Balance, MathError>)
    ensures
        r is Ok,
        r->Ok_0 == spec_out_given_in(in_reserve, out_reserve, amount_in),
{
    match hydra_dx_math::xyk::calculate_out_given_in(in_reserve, out_reserve, amount_in) {
        Ok(v) => Ok(v),
        Err(hydra_dx_math::MathError::InsufficientOutReserve) => Err(MathError::InsufficientOutReserve),
        Err(hydra_dx_math::MathError::ZeroReserve) => Err(MathError::ZeroReserve),
        Err(_) => Err(MathError::Overflow),
    }
}

/// Relies on `hydra_dx_math::xyk::calculate_in_given_out`: for a zero
/// request it returns zero; a request above the out reserve is refused as
/// insufficient, one equal to it as a zero denominator; otherwise it
/// returns `floor(in_reserve * amount_out / (out_reserve - amount_out))`
/// plus a fixed round-up of one, refusing the result as an overflow when it
/// leaves the unsigned 128-bit range.
#[verifier::external_body]
pub(crate) fn xyk_in_given_out(out_reserve: Balance, in_reserve: Balance, amount_out: Balance) -> (r: Result<Balance, MathError>)
    ensures
        r == spec_in_given_out(out_reserve, in_reserve, amount_out),
{
    match hydra_dx_math::xyk::calculate_in_given_out(out_reserve, in_reserve, amount_out) {
        Ok(v) => Ok(v),
        Err(hydra_dx_math::MathError::InsufficientOutReserve) => Err(MathError::InsufficientOutReserve),
        Err(hydra_dx_math::MathError::ZeroReserve) => Err(MathError::ZeroReserve),
        Err(_) => Err(MathError::Overflow),
    }
}

} // verus!
