//! The fee that the owner takes from an amount.
//!
//! A rate is a decimal fraction with eighteen fractional digits, held as the
//! integer `rate * 10^18` (its atomics). The fee on an amount is
//!
//! ```text
//! floor(amount * numerator / (RATE_SCALE * FEE_SCALE_FACTOR))
//! ```
//!
//! where `numerator = atomics * FEE_SCALE_FACTOR` is the rate scaled to an
//! integer. Both scales come from the rate's own precision and the
//! basis-points scale, so the quotient is `floor(amount * rate)`: a rate of
//! `0.01` takes `100` from `10_000`. The product is formed in 256 bits.

use crate::error::ContractError;
use vstd::arithmetic::div_mod::lemma_div_multiples_vanish_quotient;
use vstd::prelude::*;

verus! {

/// The basis-points scale.
pub const FEE_SCALE_FACTOR: u128 = 10_000;

/// The scale of a rate: `10^18`, one whole in atomics.
pub const RATE_SCALE: u128 = 1_000_000_000_000_000_000;

/// `RATE_SCALE * FEE_SCALE_FACTOR`, the divisor of the scaled product.
pub const FEE_DIVISOR: u128 = 10_000_000_000_000_000_000_000;

/// The atomics of one per cent, the highest rate an auction may charge.
pub const MAX_FEE_ATOMICS: u128 = 10_000_000_000_000_000;

/// A fee rate as a decimal fraction with eighteen fractional digits.
#[derive(Debug, Clone, Copy, PartialEq, Eq, Structural)]
pub struct FeeRate {
    /// The rate times `10^18`.
    pub atomics: u128,
}

impl FeeRate {
    /// The rate is at most one per cent.
    pub open spec fn within_limit(self) -> bool {
        self.atomics <= MAX_FEE_ATOMICS
    }

    pub fn is_zero(&self) -> (r: bool)
        ensures
            r == (self.atomics == 0),
    {
        self.atomics == 0
    }

    pub fn is_within_limit(&self) -> (r: bool)
        ensures
            r == self.within_limit(),
    {
        self.atomics <= MAX_FEE_ATOMICS
    }
}

/// The rate scaled to an integer numerator over `FEE_DIVISOR`, or the error
/// where that leaves 128 bits.
pub open spec fn scaled_rate(atomics: u128) -> Result<u128, ContractError> {
    if atomics * FEE_SCALE_FACTOR > u128::MAX {
        Err(ContractError::ArithmeticOverflow)
    } else {
        Ok((atomics * FEE_SCALE_FACTOR) as u128)
    }
}

/// The fee on `amount` at the rate with these atomics: zero at rate zero,
/// else the floor of the scaled product over `FEE_DIVISOR`, or the arithmetic
/// error where the numerator or the fee leaves 128 bits.
pub open spec fn owner_fee(amount: u128, atomics: u128) -> Result<u128, ContractError> {
    if atomics == 0 {
        Ok(0)
    } else {
        match scaled_rate(atomics) {
            Err(e) => Err(e),
            Ok(numerator) => if amount * numerator / (FEE_DIVISOR as int) > u128::MAX {
                Err(ContractError::ArithmeticOverflow)
            } else {
                Ok((amount * numerator / (FEE_DIVISOR as int)) as u128)
            },
        }
    }
}

/// How a ratio failed.
pub(crate) enum RatioError {
    DivideByZero,
    Overflow,
}

/// `cosmwasm_std::Uint128::checked_multiply_ratio`: the floor of
/// `amount * numerator / denominator`, the product taken in 256 bits. It
/// fails on a zero denominator, and where the quotient does not fit in 128
/// bits.
#[verifier::external_body]
fn checked_multiply_ratio(amount: u128, numerator: u128, denominator: u128) -> (r: Result<
    u128,
    RatioError,
>)
    ensures
        match r {
            Ok(quotient) => denominator != 0 && quotient == amount * numerator / (
            denominator as int),
            Err(RatioError::DivideByZero) => denominator == 0,
            Err(RatioError::Overflow) => denominator != 0 && amount * numerator / (
            denominator as int) > u128::MAX,
        },
{
    match cosmwasm_std::Uint128::new(amount).checked_multiply_ratio(numerator, denominator) {
        Ok(ratio) => Ok(ratio.u128()),
        Err(cosmwasm_std::CheckedMultiplyRatioError::DivideByZero) => Err(RatioError::DivideByZero),
        Err(cosmwasm_std::CheckedMultiplyRatioError::Overflow) => Err(RatioError::Overflow),
    }
}

/// Scales a rate to the integer numerator that the fee is computed with.
pub fn fee_decimal_to_uint128(rate: FeeRate) -> (r: Result<u128, ContractError>)
    ensures
        r == scaled_rate(rate.atomics),
{
    match rate.atomics.checked_mul(FEE_SCALE_FACTOR) {
        Some(numerator) => Ok(numerator),
        None => Err(ContractError::ArithmeticOverflow),
    }
}

/// The fee that the owner takes from `amount` at `rate`. A zero rate gives
/// zero at once.
pub fn get_owner_fee_amount(amount: u128, rate: FeeRate) -> (r: Result<u128, ContractError>)
    ensures
        r == owner_fee(amount, rate.atomics),
        rate.atomics == 0 ==> r == Ok::<u128, ContractError>(0),
{
    if rate.is_zero() {
        return Ok(0);
    }
    let numerator: u128 = match fee_decimal_to_uint128(rate) {
        Ok(numerator) => numerator,
        Err(e) => {
            return Err(e);
        },
    };
    match checked_multiply_ratio(amount, numerator, FEE_DIVISOR) {
        Ok(fee) => Ok(fee),
        Err(RatioError::DivideByZero) => Err(ContractError::DivideByZero),
        Err(RatioError::Overflow) => Err(ContractError::ArithmeticOverflow),
    }
}

/// At a rate of at most one whole the fee is `floor(amount * rate)`, which
/// no arithmetic error can prevent and which never exceeds the amount.
pub proof fn fee_is_floor_of_product(amount: u128, atomics: u128)
    requires
        atomics <= RATE_SCALE,
    ensures
        owner_fee(amount, atomics) == Ok::<u128, ContractError>(
            (amount * atomics / (RATE_SCALE as int)) as u128,
        ),
        amount * atomics / (RATE_SCALE as int) <= amount,
{
    let product: int = amount * atomics;
    assert(0 <= product <= amount * RATE_SCALE) by (nonlinear_arith)
        requires
            product == amount * atomics,
            0 <= atomics <= RATE_SCALE,
            0 <= amount,
    ;
    assert(product / (RATE_SCALE as int) <= amount) by (nonlinear_arith)
        requires
            0 <= product <= amount * RATE_SCALE,
            RATE_SCALE > 0,
    ;
    assert(0 <= product / (RATE_SCALE as int)) by (nonlinear_arith)
        requires
            0 <= product,
            RATE_SCALE > 0,
    ;
    if atomics != 0 {
        let numerator: int = atomics * FEE_SCALE_FACTOR;
        assert(amount * numerator == FEE_SCALE_FACTOR * product) by (nonlinear_arith)
            requires
                numerator == atomics * FEE_SCALE_FACTOR,
                product == amount * atomics,
        ;
        assert(FEE_DIVISOR as int == FEE_SCALE_FACTOR * RATE_SCALE);
        lemma_div_multiples_vanish_quotient(
            FEE_SCALE_FACTOR as int,
            product,
            RATE_SCALE as int,
        );
    }
}

/// Within the limit of one per cent the fee is at most a hundredth of the
/// amount.
pub proof fn fee_within_limit(amount: u128, rate: FeeRate)
    requires
        rate.within_limit(),
    ensures
        owner_fee(amount, rate.atomics) is Ok,
        owner_fee(amount, rate.atomics)->Ok_0 * 100 <= amount,
{
    fee_is_floor_of_product(amount, rate.atomics);
    let product: int = amount * rate.atomics;
    assert(product * 100 <= amount * RATE_SCALE) by (nonlinear_arith)
        requires
            product == amount * rate.atomics,
            0 <= rate.atomics <= MAX_FEE_ATOMICS,
            0 <= amount,
            MAX_FEE_ATOMICS * 100 == RATE_SCALE,
    ;
    assert((product / (RATE_SCALE as int)) * 100 <= amount) by (nonlinear_arith)
        requires
            product * 100 <= amount * RATE_SCALE,
            0 <= product,
            RATE_SCALE > 0,
    ;
}

} // verus!
