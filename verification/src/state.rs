use vstd::prelude::*;

use crate::account::AccountId;

verus! {

/// Denominator of all basis-point (1/10000) fee rates.
pub const BASIS_POINTS_DIVISOR: u64 = 10000;

/// Royalty share of the combined maker+taker fee, in basis points, used
/// when the configuration does not override it.
pub const DEFAULT_ROYALTY_FEE_SHARE: u64 = 100;

/// Share of the payment amount earmarked for a buy-side recipient, in
/// basis points. The share is always computed and always deducted from
/// the payment target's amount; when no buy-side recipient is supplied
/// it stays folded into the fee collector's residual instead of being
/// paid out separately. With the compiled-in share of 0 those two paths
/// coincide: the fee collector receives exactly the fee total minus the
/// creator payouts, and a supplied buy-side recipient is paid a zero
/// transfer.
pub const DEFAULT_BUY_SIDE_FEE_SHARE: u64 = 0;

/// Long-lived fee configuration, owned by the system operator and
/// read-only for one payment invocation.
#[derive(Debug)]
pub struct FeeConfig {
    /// Maker fee rate in basis points.
    pub maker_fee_basis_points: u16,
    /// Taker fee rate in basis points.
    pub taker_fee_basis_points: u16,
    /// Identity of the default fee recipient.
    pub fee_collector: AccountId,
    /// Whether the metadata's seller-fee basis points are honored.
    pub include_seller_fee_basis_points: bool,
    /// Portion of the maker+taker fee earmarked for creators, in basis
    /// points; `None` falls back to [`DEFAULT_ROYALTY_FEE_SHARE`].
    pub royalty_fee_share: Option<u64>,
}

impl FeeConfig {
    /// The royalty fee share in force: the override if present, the
    /// compiled-in default otherwise.
    pub open spec fn spec_effective_royalty_fee_share(&self) -> u64 {
        match self.royalty_fee_share {
            Some(v) => v,
            None => DEFAULT_ROYALTY_FEE_SHARE,
        }
    }

    /// Executable form of [`Self::spec_effective_royalty_fee_share`].
    pub fn effective_royalty_fee_share(&self) -> (r: u64)
        ensures
            r == self.spec_effective_royalty_fee_share(),
    {
        match self.royalty_fee_share {
            Some(v) => v,
            None => DEFAULT_ROYALTY_FEE_SHARE,
        }
    }
}

} // verus!
