use vstd::prelude::*;
use crate::error::CustomError;

verus! {

/// The fee owed at repayment on a principal of `amount` at a rate of
/// `fee_bps` basis points: `amount * fee_bps / 10000`, truncating toward
/// zero.
pub open spec fn spec_fee(amount: u64, fee_bps: u64) -> int {
    (amount * fee_bps) / 10000
}

/// Computes the repayment fee for a principal at a rate in basis points.
///
/// Returns `Ok(floor(amount * fee_bps / 10000))` whenever the product fits
/// the numeric range, and `Err(MathOverflow)` exactly when it does not:
/// the computation never wraps or truncates silently.
pub fn calc_fee(amount: u64, fee_bps: u64) -> (r: Result<u64, CustomError>)
    ensures
        amount * fee_bps <= u64::MAX ==> r == Ok::<u64, CustomError>((spec_fee(amount, fee_bps)) as u64),
        amount * fee_bps > u64::MAX ==> r == Err::<u64, CustomError>(CustomError::MathOverflow),
{
    match amount.checked_mul(fee_bps) {
        Some(product) => match product.checked_div(10000) {
            Some(fee) => Ok(fee),
            None => Err(CustomError::MathOverflow),
        },
        None => Err(CustomError::MathOverflow),
    }
}

/// The fee never exceeds the principal while the rate is at most 10000
/// basis points (one hundred percent).
pub proof fn lemma_fee_at_most_amount(amount: u64, fee_bps: u64)
    requires
        fee_bps <= 10000,
    ensures
        0 <= spec_fee(amount, fee_bps) <= amount,
{
    assert(0 <= (amount * fee_bps) / 10000 <= amount) by (nonlinear_arith)
        requires fee_bps <= 10000;
}

} // verus!
