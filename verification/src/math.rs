use crate::error::ContractError;
use vstd::prelude::*;

verus! {

/// Why a ratio could not be taken.
#[derive(Debug, Clone, Copy, PartialEq, Eq, Structural)]
pub enum RatioFailure {
    DivideByZero,
    Overflow,
}

/// `floor(a * numerator / denominator)` where that is defined and fits in
/// 128 bits, and otherwise the reason why it is not.
pub open spec fn ratio_of(a: u128, numerator: u128, denominator: u128) -> Result<
    u128,
    RatioFailure,
> {
    if denominator == 0 {
        Err(RatioFailure::DivideByZero)
    } else if (a * numerator) / (denominator as int) > u128::MAX {
        Err(RatioFailure::Overflow)
    } else {
        Ok(((a * numerator) / (denominator as int)) as u128)
    }
}

/// Calls `cosmwasm_std::Uint128::checked_multiply_ratio`, which multiplies in
/// 256 bits, divides, and floors. The contract claims exactly that: the floored
/// quotient when the denominator is not zero and the quotient fits in 128 bits,
/// `DivideByZero` for a zero denominator, `Overflow` for a quotient too large.
#[verifier::external_body]
fn checked_multiply_ratio(a: u128, numerator: u128, denominator: u128) -> (r: Result<
    u128,
    RatioFailure,
>)
    ensures
        r == ratio_of(a, numerator, denominator),
{
    match cosmwasm_std::Uint128::new(a).checked_multiply_ratio(numerator, denominator) {
        Ok(v) => Ok(v.u128()),
        Err(cosmwasm_std::CheckedMultiplyRatioError::DivideByZero) => Err(
            RatioFailure::DivideByZero,
        ),
        Err(cosmwasm_std::CheckedMultiplyRatioError::Overflow) => Err(RatioFailure::Overflow),
    }
}

/// Sum of two amounts; `Overflow` where it exceeds 128 bits.
pub fn add_u128(a: u128, b: u128) -> (r: Result<u128, ContractError>)
    ensures
        a + b <= u128::MAX ==> r == Ok::<u128, ContractError>((a + b) as u128),
        a + b > u128::MAX ==> r == Err::<u128, ContractError>(ContractError::Overflow {  }),
{
    match a.checked_add(b) {
        Some(v) => Ok(v),
        None => Err(ContractError::Overflow {  }),
    }
}

/// Difference of two amounts; `Underflow` where it would be negative.
pub fn sub_u128(a: u128, b: u128) -> (r: Result<u128, ContractError>)
    ensures
        b <= a ==> r == Ok::<u128, ContractError>((a - b) as u128),
        b > a ==> r == Err::<u128, ContractError>(ContractError::Underflow {  }),
{
    match a.checked_sub(b) {
        Some(v) => Ok(v),
        None => Err(ContractError::Underflow {  }),
    }
}

/// What [`mul_ratio_u128`] returns.
pub open spec fn mul_ratio(a: u128, numerator: u128, denominator: u128) -> Result<
    u128,
    ContractError,
> {
    match ratio_of(a, numerator, denominator) {
        Ok(v) => Ok(v),
        Err(RatioFailure::DivideByZero) => Err(ContractError::DivideByZero {  }),
        Err(RatioFailure::Overflow) => Err(ContractError::Overflow {  }),
    }
}

/// `floor(a * numerator / denominator)`, the product taken without truncation.
pub fn mul_ratio_u128(a: u128, numerator: u128, denominator: u128) -> (r: Result<
    u128,
    ContractError,
>)
    ensures
        r == mul_ratio(a, numerator, denominator),
{
    match checked_multiply_ratio(a, numerator, denominator) {
        Ok(v) => Ok(v),
        Err(RatioFailure::DivideByZero) => Err(ContractError::DivideByZero {  }),
        Err(RatioFailure::Overflow) => Err(ContractError::Overflow {  }),
    }
}

} // verus!
