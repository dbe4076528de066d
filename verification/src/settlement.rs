use vstd::prelude::*;

use crate::errors::ErrorCode;
use crate::state::BASIS_POINTS_DIVISOR;
use crate::state::DEFAULT_BUY_SIDE_FEE_SHARE;

verus! {

/// The buy-side fee and the residual owed to the fee collector.
#[derive(Debug)]
pub struct FeeSettlement {
    /// The fixed buy-side share of the gross amount, rounded down. It is
    /// computed whether or not a buy-side recipient exists; without one
    /// it is never paid out separately and stays folded into
    /// `fee_collector_fee`.
    pub buy_side_fee: u64,
    /// What remains for the fee collector after creators and, when a
    /// buy-side recipient exists, the buy-side carve-out took their part.
    pub fee_collector_fee: u64,
}

/// The fixed buy-side share of the gross amount, rounded down.
pub open spec fn buy_side_fee_spec(amount: int) -> int {
    amount * (DEFAULT_BUY_SIDE_FEE_SHARE as int) / (BASIS_POINTS_DIVISOR as int)
}

/// The residual owed to the fee collector: the running fee total plus
/// the buy-side fee, minus what creators were already paid. When a
/// buy-side recipient exists its fee is carved back out of this figure
/// and handed to that recipient; without one the buy-side fee remains
/// folded in and the collector keeps it.
pub open spec fn fee_collector_fee_spec(
    amount: int,
    total_fees: int,
    fees_paid_out: int,
    has_buy_side: bool,
) -> int {
    total_fees + buy_side_fee_spec(amount) - fees_paid_out - (if has_buy_side {
        buy_side_fee_spec(amount)
    } else {
        0int
    })
}

/// The first failure of the fee settlement, or `None` when it succeeds,
/// in the order the checks are made.
pub open spec fn settlement_first_error(
    amount: int,
    total_fees: int,
    fees_paid_out: int,
    has_buy_side: bool,
) -> Option<ErrorCode> {
    if amount * (DEFAULT_BUY_SIDE_FEE_SHARE as int) > u64::MAX {
        Some(ErrorCode::ArithmeticOverflow)
    } else {
        let bsf = buy_side_fee_spec(amount);
        if total_fees + bsf > u64::MAX {
            Some(ErrorCode::ArithmeticOverflow)
        } else if fees_paid_out > total_fees + bsf {
            Some(ErrorCode::ArithmeticUnderflow)
        } else if has_buy_side && fees_paid_out > total_fees {
            Some(ErrorCode::ArithmeticUnderflow)
        } else {
            None
        }
    }
}

/// Computes the buy-side fee and the residual fee owed to the fee
/// collector. The buy-side fee is first folded into the collector's
/// figure; only when a buy-side recipient exists is it carved back out
/// to be paid separately, so each checked subtraction mirrors one step
/// of the settlement. An underflow would mean more was routed to
/// creators than the fee total holds, an apportionment inconsistency
/// upstream, and fails the invocation.
pub fn settle_fees(amount: u64, total_fees: u64, fees_paid_out: u64, has_buy_side: bool) -> (r:
    Result<FeeSettlement, ErrorCode>)
    ensures
        ({
            let fe = settlement_first_error(
                amount as int,
                total_fees as int,
                fees_paid_out as int,
                has_buy_side,
            );
            &&& (r is Ok <==> fe is None)
            &&& (r matches Err(e) ==> fe == Some(e))
        }),
        r matches Ok(s) ==> {
            &&& s.buy_side_fee == buy_side_fee_spec(amount as int)
            &&& s.fee_collector_fee == fee_collector_fee_spec(
                amount as int,
                total_fees as int,
                fees_paid_out as int,
                has_buy_side,
            )
        },
{
    let product = match amount.checked_mul(DEFAULT_BUY_SIDE_FEE_SHARE) {
        Some(p) => p,
        None => {
            return Err(ErrorCode::ArithmeticOverflow);
        },
    };
    let buy_side_fee = product / BASIS_POINTS_DIVISOR;
    let with_buy_side = match total_fees.checked_add(buy_side_fee) {
        Some(v) => v,
        None => {
            return Err(ErrorCode::ArithmeticOverflow);
        },
    };
    let mut fee_collector_fee = match with_buy_side.checked_sub(fees_paid_out) {
        Some(v) => v,
        None => {
            return Err(ErrorCode::ArithmeticUnderflow);
        },
    };
    if has_buy_side {
        fee_collector_fee = match fee_collector_fee.checked_sub(buy_side_fee) {
            Some(v) => v,
            None => {
                return Err(ErrorCode::ArithmeticUnderflow);
            },
        };
    }
    Ok(FeeSettlement { buy_side_fee, fee_collector_fee })
}

} // verus!
