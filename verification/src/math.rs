//! Arithmetic guard: checked add, sub, mul and div over unsigned 64-bit
//! quantities.  Every operation that could overflow, underflow or divide by
//! zero reports `MathOverflow` instead of wrapping or clamping.

use vstd::prelude::*;

use crate::errors::VaultError;

verus! {

/// `a + b`, or `MathOverflow` when the sum does not fit in 64 bits.
pub fn checked_add(a: u64, b: u64) -> (r: Result<u64, VaultError>)
    ensures
        a + b <= u64::MAX ==> r == Ok::<u64, VaultError>((a + b) as u64),
        a + b > u64::MAX ==> r == Err::<u64, VaultError>(VaultError::MathOverflow),
{
    match a.checked_add(b) {
        Some(v) => Ok(v),
        None => Err(VaultError::MathOverflow),
    }
}

/// `a - b`, or `MathOverflow` when the difference would be negative.
pub fn checked_sub(a: u64, b: u64) -> (r: Result<u64, VaultError>)
    ensures
        a >= b ==> r == Ok::<u64, VaultError>((a - b) as u64),
        a < b ==> r == Err::<u64, VaultError>(VaultError::MathOverflow),
{
    match a.checked_sub(b) {
        Some(v) => Ok(v),
        None => Err(VaultError::MathOverflow),
    }
}

/// `a * b`, or `MathOverflow` when the product does not fit in 64 bits.
pub fn checked_mul(a: u64, b: u64) -> (r: Result<u64, VaultError>)
    ensures
        a * b <= u64::MAX ==> r == Ok::<u64, VaultError>((a * b) as u64),
        a * b > u64::MAX ==> r == Err::<u64, VaultError>(VaultError::MathOverflow),
{
    match a.checked_mul(b) {
        Some(v) => Ok(v),
        None => Err(VaultError::MathOverflow),
    }
}

/// `a / b` rounded toward zero, or `MathOverflow` when `b` is zero.
pub fn checked_div(a: u64, b: u64) -> (r: Result<u64, VaultError>)
    ensures
        b != 0 ==> r == Ok::<u64, VaultError>((a as int / b as int) as u64),
        b == 0 ==> r == Err::<u64, VaultError>(VaultError::MathOverflow),
{
    match a.checked_div(b) {
        Some(v) => Ok(v),
        None => Err(VaultError::MathOverflow),
    }
}

} // verus!
