//! Overflow-checked basis-point and product/difference helpers used by every
//! other component.  All rates are in basis points: 10000 bps make one whole.

use vstd::prelude::*;

use crate::errors::CoffeeError;

verus! {

/// The smaller of two 64-bit amounts.
pub open spec fn min64(a: u64, b: u64) -> u64 {
    if a <= b {
        a
    } else {
        b
    }
}

/// The smaller of two balances or amounts.
pub fn min_u64(a: u64, b: u64) -> (r: u64)
    ensures
        r == min64(a, b),
{
    if a <= b {
        a
    } else {
        b
    }
}

/// `x * bps / 10000` in 128-bit arithmetic; the multiply is overflow-checked.
pub fn bps_mul_u128(x: u128, bps: u16) -> (r: Result<u128, CoffeeError>)
    ensures
        x * bps <= u128::MAX ==> r == Ok::<u128, CoffeeError>(((x * bps) / 10000) as u128),
        x * bps > u128::MAX ==> r == Err::<u128, CoffeeError>(CoffeeError::MathOverflow),
{
    match x.checked_mul(bps as u128) {
        Some(y) => Ok(y / 10000),
        None => Err(CoffeeError::MathOverflow),
    }
}

/// A basis-point slice of a 64-bit amount, erring when the slice does not fit
/// back into 64 bits (which takes a rate above 10000 bps).
pub fn bps_of_u64(x: u64, bps: u16) -> (r: Result<u64, CoffeeError>)
    ensures
        (x * bps) / 10000 <= u64::MAX ==> r == Ok::<u64, CoffeeError>((((x * bps) / 10000))
            as u64),
        (x * bps) / 10000 > u64::MAX ==> r == Err::<u64, CoffeeError>(CoffeeError::MathOverflow),
{
    proof {
        assert(x * bps <= u64::MAX * u16::MAX) by (nonlinear_arith)
            requires
                x <= u64::MAX,
                bps <= u16::MAX,
        ;
    }
    let prod: u128 = (x as u128) * (bps as u128);
    let out: u128 = prod / 10000;
    if out <= u64::MAX as u128 {
        Ok(out as u64)
    } else {
        Err(CoffeeError::MathOverflow)
    }
}

/// Which side of the contract a signed profit-and-loss figure is seen from.
pub enum SignRole {
    Long,
    Short,
}

/// The signed difference of the marked and agreed price seen from `role`,
/// before multiplying by the quantity.
pub open spec fn pnl_diff(agreed: u64, mark: u64, role: SignRole) -> int {
    match role {
        SignRole::Long => mark - agreed,
        SignRole::Short => agreed - mark,
    }
}

/// Profit and loss: `(mark - agreed) * qty` for the long side, its negation
/// for the short side, `None` when the product leaves the 128-bit range.
pub fn signed_mul_diff(agreed: u64, mark: u64, qty: u64, role: SignRole) -> (r: Option<i128>)
    ensures
        i128::MIN <= pnl_diff(agreed, mark, role) * qty <= i128::MAX ==> r == Some(
            (pnl_diff(agreed, mark, role) * qty) as i128,
        ),
        !(i128::MIN <= pnl_diff(agreed, mark, role) * qty <= i128::MAX) ==> r is None,
{
    let agreed_w: i128 = agreed as i128;
    let mark_w: i128 = mark as i128;
    let qty_w: i128 = qty as i128;
    let diff: i128 = match role {
        SignRole::Long => mark_w - agreed_w,
        SignRole::Short => agreed_w - mark_w,
    };
    diff.checked_mul(qty_w)
}

/// The absolute value of `v`, widened into `u64`; `i64::MIN` is left out so
/// the negation cannot overflow.
pub fn abs_i64_to_u64(v: i64) -> (r: u64)
    requires
        v != i64::MIN,
    ensures
        r == if v >= 0 {
            v as int
        } else {
            -(v as int)
        },
{
    if v >= 0 {
        v as u64
    } else {
        (-v) as u64
    }
}

} // verus!
