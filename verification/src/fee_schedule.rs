use vstd::prelude::*;

use vstd::arithmetic::div_mod::lemma_div_is_ordered;

use crate::errors::ErrorCode;
use crate::state::BASIS_POINTS_DIVISOR;

verus! {

/// The maker and taker fees derived from a gross payment amount.
#[derive(Debug)]
pub struct FeeSchedule {
    /// Fee charged to the listing side, rounded down.
    pub maker_fee: u64,
    /// Fee charged to the initiating side, rounded down.
    pub taker_fee: u64,
    /// `maker_fee + taker_fee`.
    pub total_fees: u64,
}

/// A basis-point fee: `amount * bps / 10000`, rounded toward zero.
pub open spec fn bps_fee(amount: int, bps: int) -> int {
    amount * bps / (BASIS_POINTS_DIVISOR as int)
}

/// The fee schedule computes without overflow exactly when both
/// basis-point products fit in a `u64`; their rounded-down quotients then
/// always fit as a sum as well.
pub open spec fn schedule_ok(amount: int, maker_fee_bps: int, taker_fee_bps: int) -> bool {
    amount * maker_fee_bps <= u64::MAX && amount * taker_fee_bps <= u64::MAX
}

/// Rounding down never pays a fee recipient more than the exact
/// basis-point share: `bps_fee` underestimates `amount * bps / 10000` by
/// strictly less than one whole unit.
pub proof fn lemma_fee_rounds_down(amount: int, bps: int)
    requires
        amount >= 0,
        bps >= 0,
    ensures
        bps_fee(amount, bps) * (BASIS_POINTS_DIVISOR as int) <= amount * bps,
        amount * bps < (bps_fee(amount, bps) + 1) * (BASIS_POINTS_DIVISOR as int),
        bps_fee(amount, bps) >= 0,
{
    let p = amount * bps;
    let d = BASIS_POINTS_DIVISOR as int;
    vstd::arithmetic::div_mod::lemma_fundamental_div_mod(p, d);
    vstd::arithmetic::div_mod::lemma_mod_division_less_than_divisor(p, d);
    vstd::arithmetic::mul::lemma_mul_nonnegative(amount, bps);
    vstd::arithmetic::div_mod::lemma_div_pos_is_pos(p, d);
}

/// Derives the maker fee, taker fee and their sum from the gross amount
/// and the configured basis-point rates. Fees are rounded down, favoring
/// the payer over the fee recipients; any overflow of the checked
/// arithmetic fails the whole invocation.
pub fn compute_fee_schedule(amount: u64, maker_fee_bps: u16, taker_fee_bps: u16) -> (r: Result<
    FeeSchedule,
    ErrorCode,
>)
    ensures
        r is Ok <==> schedule_ok(amount as int, maker_fee_bps as int, taker_fee_bps as int),
        r matches Ok(s) ==> {
            &&& s.maker_fee == bps_fee(amount as int, maker_fee_bps as int)
            &&& s.taker_fee == bps_fee(amount as int, taker_fee_bps as int)
            &&& s.total_fees == s.maker_fee + s.taker_fee
        },
        r matches Err(e) ==> e == ErrorCode::ArithmeticOverflow,
{
    let maker_product = match amount.checked_mul(maker_fee_bps as u64) {
        Some(p) => p,
        None => {
            return Err(ErrorCode::ArithmeticOverflow);
        },
    };
    let maker_fee = maker_product / BASIS_POINTS_DIVISOR;
    let taker_product = match amount.checked_mul(taker_fee_bps as u64) {
        Some(p) => p,
        None => {
            return Err(ErrorCode::ArithmeticOverflow);
        },
    };
    let taker_fee = taker_product / BASIS_POINTS_DIVISOR;
    proof {
        lemma_div_is_ordered(maker_product as int, u64::MAX as int, BASIS_POINTS_DIVISOR as int);
        lemma_div_is_ordered(taker_product as int, u64::MAX as int, BASIS_POINTS_DIVISOR as int);
    }
    let total_fees = match maker_fee.checked_add(taker_fee) {
        Some(t) => t,
        None => {
            return Err(ErrorCode::ArithmeticOverflow);
        },
    };
    Ok(FeeSchedule { maker_fee, taker_fee, total_fees })
}

} // verus!
