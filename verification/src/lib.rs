//! Fee-and-royalty apportionment for a single native payment.
//!
//! Given a gross payment amount, a fee configuration and optional royalty
//! metadata, this crate computes the maker/taker fees, splits the royalty
//! pool across creators with integer-exact remainder handling, and builds a
//! payout plan whose transfers account for every unit moved: the payer is
//! debited exactly `amount + taker_fee`, however that sum is sliced among
//! the fee recipients.

use vstd::prelude::*;

mod account;
mod errors;
mod fee_schedule;
mod plan;
mod royalties;
mod settlement;
mod state;
mod transfer;

pub use account::ids_view;
pub use account::AccountId;
pub use errors::ErrorCode;
pub use fee_schedule::bps_fee;
pub use fee_schedule::compute_fee_schedule;
pub use fee_schedule::lemma_fee_rounds_down;
pub use fee_schedule::schedule_ok;
pub use fee_schedule::FeeSchedule;
pub use plan::build_payout_plan;
pub use plan::executor_sequence;
pub use plan::metadata_creator_payouts;
pub use plan::metadata_creator_pool;
pub use plan::metadata_fees_paid;
pub use plan::metadata_seller_fee;
pub use plan::plan_first_error;
pub use plan::plan_total;
pub use plan::planned_transfers;
pub use plan::PaymentRequest;
pub use plan::PayoutPlan;
pub use royalties::apportion_royalties;
pub use royalties::creator_amount;
pub use royalties::lemma_zero_share_skip;
pub use royalties::split_creator_pool;
pub use royalties::split_first_error;
pub use royalties::CreatorSplit;
pub use settlement::buy_side_fee_spec;
pub use settlement::fee_collector_fee_spec;
pub use settlement::settle_fees;
pub use settlement::settlement_first_error;
pub use settlement::FeeSettlement;
pub use royalties::creator_payouts;
pub use royalties::creators_remainder;
pub use royalties::md_mint_ok;
pub use royalties::md_owner_ok;
pub use royalties::md_seller_fee_bps;
pub use royalties::md_shares;
pub use royalties::nonzero_share_count;
pub use royalties::paid_total;
pub use royalties::products_fit;
pub use royalties::products_sum;
pub use royalties::royalty_first_error;
pub use royalties::seller_fee_spec;
pub use royalties::shares_of;
pub use royalties::total_creators_fee_spec;
pub use royalties::Creator;
pub use royalties::MetadataAccount;
pub use royalties::RoyaltyApportionment;
pub use royalties::RoyaltyMetadata;
pub use state::FeeConfig;
pub use transfer::transfers_amount_sum;
pub use transfer::transfers_view;
pub use transfer::Transfer;
pub use state::BASIS_POINTS_DIVISOR;
pub use state::DEFAULT_BUY_SIDE_FEE_SHARE;
pub use state::DEFAULT_ROYALTY_FEE_SHARE;

verus! {

} // verus!
