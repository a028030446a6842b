//! Checked arithmetic on 64-bit quantities: a result that leaves the range is
//! an error, never a wrapped value.

use vstd::prelude::*;
use crate::error::ErrorCode;

verus! {

/// `a + b`, or `ArithmeticOverflow` where the sum exceeds `u64::MAX`.
pub fn checked_add(a: u64, b: u64) -> (r: Result<u64, ErrorCode>)
    ensures
        a + b <= u64::MAX ==> r == Ok::<u64, ErrorCode>((a + b) as u64),
        a + b > u64::MAX ==> r == Err::<u64, ErrorCode>(ErrorCode::ArithmeticOverflow),
{
    match a.checked_add(b) {
        Some(sum) => Ok(sum),
        None => Err(ErrorCode::ArithmeticOverflow),
    }
}

/// `a - b`, or `ArithmeticUnderflow` where `b` exceeds `a`.
pub fn checked_sub(a: u64, b: u64) -> (r: Result<u64, ErrorCode>)
    ensures
        b <= a ==> r == Ok::<u64, ErrorCode>((a - b) as u64),
        b > a ==> r == Err::<u64, ErrorCode>(ErrorCode::ArithmeticUnderflow),
{
    match a.checked_sub(b) {
        Some(difference) => Ok(difference),
        None => Err(ErrorCode::ArithmeticUnderflow),
    }
}

/// `a * b`, or `ArithmeticOverflow` where the product exceeds `u64::MAX`.
pub fn checked_mul(a: u64, b: u64) -> (r: Result<u64, ErrorCode>)
    ensures
        a * b <= u64::MAX ==> r == Ok::<u64, ErrorCode>((a * b) as u64),
        a * b > u64::MAX ==> r == Err::<u64, ErrorCode>(ErrorCode::ArithmeticOverflow),
{
    match a.checked_mul(b) {
        Some(product) => Ok(product),
        None => Err(ErrorCode::ArithmeticOverflow),
    }
}

} // verus!
