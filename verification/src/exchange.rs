//! The fixed rule that converts internal balance units into token units.
//!
//! One internal unit is a hundredth of a whole token, whatever the number of
//! decimals of the token: `tokens = units * 10^decimals / 100`, the product
//! checked for overflow and the quotient truncated. The decimals are those of
//! the mint at the time of the operation; the bank stores none.

use vstd::prelude::*;
use crate::arith::checked_mul;
use crate::error::ErrorCode;

verus! {

/// Internal units that make up one whole token.
pub const UNITS_PER_TOKEN: u64 = 100;

/// Ten to the power `e`.
pub open spec fn pow10(e: nat) -> nat
    decreases e,
{
    if e == 0 {
        1
    } else {
        10 * pow10((e - 1) as nat)
    }
}

/// The token units that stand for `amount` internal units of a token with
/// `decimals` decimals; `None` where the scale or the scaled amount does not
/// fit in 64 bits.
pub open spec fn token_amount(amount: u64, decimals: u8) -> Option<u64> {
    let scale = pow10(decimals as nat);
    if scale <= u64::MAX && amount * scale <= u64::MAX {
        Some(((amount * scale) / (UNITS_PER_TOKEN as int)) as u64)
    } else {
        None
    }
}

/// Powers of ten grow with the exponent.
pub proof fn lemma_pow10_monotonic(i: nat, j: nat)
    requires
        i <= j,
    ensures
        1 <= pow10(i) <= pow10(j),
    decreases j,
{
    if i < j {
        lemma_pow10_monotonic(i, (j - 1) as nat);
    } else if i > 0 {
        lemma_pow10_monotonic((i - 1) as nat, (j - 1) as nat);
    }
}

/// `10^decimals`, or `ArithmeticOverflow` where it exceeds `u64::MAX`.
pub fn scale_of(decimals: u8) -> (r: Result<u64, ErrorCode>)
    ensures
        pow10(decimals as nat) <= u64::MAX ==> r == Ok::<u64, ErrorCode>(
            pow10(decimals as nat) as u64,
        ),
        pow10(decimals as nat) > u64::MAX ==> r == Err::<u64, ErrorCode>(
            ErrorCode::ArithmeticOverflow,
        ),
{
    let mut scale: u64 = 1;
    let mut i: u8 = 0;
    while i < decimals
        invariant
            i <= decimals,
            scale == pow10(i as nat),
        decreases decimals - i,
    {
        match checked_mul(scale, 10) {
            Ok(next) => {
                scale = next;
            },
            Err(e) => {
                proof {
                    lemma_pow10_monotonic((i + 1) as nat, decimals as nat);
                }
                return Err(e);
            },
        }
        i += 1;
    }
    Ok(scale)
}

/// Converts `amount` internal units into token units of a token with
/// `decimals` decimals. The error is `ArithmeticOverflow` exactly where
/// `token_amount` has no value.
pub fn to_token_amount(amount: u64, decimals: u8) -> (r: Result<u64, ErrorCode>)
    ensures
        match token_amount(amount, decimals) {
            Some(tokens) => r == Ok::<u64, ErrorCode>(tokens),
            None => r == Err::<u64, ErrorCode>(ErrorCode::ArithmeticOverflow),
        },
{
    let scale = match scale_of(decimals) {
        Ok(scale) => scale,
        Err(e) => {
            return Err(e);
        },
    };
    match checked_mul(amount, scale) {
        Ok(scaled) => Ok(scaled / UNITS_PER_TOKEN),
        Err(e) => Err(e),
    }
}

} // verus!
