use vstd::prelude::*;

use crate::account::ids_view;
use crate::account::AccountId;
use crate::errors::ErrorCode;
use crate::fee_schedule::bps_fee;
use crate::fee_schedule::compute_fee_schedule;
use crate::fee_schedule::schedule_ok;
use crate::royalties::apportion_royalties;
use crate::royalties::creator_payouts;
use crate::royalties::creators_remainder;
use crate::royalties::md_mint_ok;
use crate::royalties::md_owner_ok;
use crate::royalties::md_seller_fee_bps;
use crate::royalties::md_shares;
use crate::royalties::paid_total;
use crate::royalties::royalty_first_error;
use crate::royalties::seller_fee_spec;
use crate::royalties::shares_of;
use crate::royalties::total_creators_fee_spec;
use crate::royalties::MetadataAccount;
use crate::settlement::buy_side_fee_spec;
use crate::settlement::fee_collector_fee_spec;
use crate::settlement::settle_fees;
use crate::settlement::settlement_first_error;
use crate::state::FeeConfig;
use crate::transfer::lemma_transfers_amount_sum_push;
use crate::transfer::transfers_amount_sum;
use crate::transfer::transfers_view;
use crate::transfer::Transfer;

verus! {

/// One payment invocation's inputs, beyond the configuration and the
/// metadata: the gross amount and the identities funds are routed to.
#[derive(Debug)]
pub struct PaymentRequest {
    /// Gross payment amount.
    pub amount: u64,
    /// The supplied fee collector; must match the configured one.
    pub fee_collector: AccountId,
    /// Recipient of the payment itself.
    pub payment_target: AccountId,
    /// Optional buy-side recipient; when present it is paid the buy-side
    /// fee, carved out of the fee collector's residual.
    pub buy_side_recipient: Option<AccountId>,
    /// Ordered recipients, positionally aligned with the metadata's
    /// creators of non-zero share.
    pub creator_recipients: Vec<AccountId>,
}

/// The fully computed payout of one invocation. Every amount is final;
/// executing the plan moves `amount + taker_fee` out of the payer in
/// total, exactly.
#[derive(Debug)]
pub struct PayoutPlan {
    /// The taker fee, still owed by the payer on top of the gross amount.
    pub taker_fee: u64,
    /// Creator payouts, in creator order.
    pub creator_transfers: Vec<Transfer>,
    /// Buy-side recipient, when one was supplied.
    pub buy_side_recipient: Option<AccountId>,
    /// What the buy-side recipient is paid; 0 when none was supplied.
    pub buy_side_amount: u64,
    /// The fee collector.
    pub fee_collector: AccountId,
    /// Residual fees for the fee collector; paid only when non-zero.
    pub fee_collector_amount: u64,
    /// Recipient of the payment itself.
    pub payment_target: AccountId,
    /// What the payment target receives.
    pub target_amount: u64,
}

/// Everything a plan pays out: creators, buy side, fee collector and
/// payment target together.
pub open spec fn plan_total(p: PayoutPlan) -> int {
    transfers_amount_sum(p.creator_transfers@) + p.buy_side_amount + p.fee_collector_amount
        + p.target_amount
}

/// The seller fee the metadata induces, 0 when no metadata is supplied.
pub open spec fn metadata_seller_fee(amount: int, metadata: Option<MetadataAccount>, honored: bool) -> int {
    match metadata {
        Some(md) => seller_fee_spec(amount, md.metadata.seller_fee_basis_points as int, honored),
        None => 0,
    }
}

/// The whole creator pool, 0 when no metadata is supplied.
pub open spec fn metadata_creator_pool(
    amount: int,
    base_fees: int,
    metadata: Option<MetadataAccount>,
    honored: bool,
    royalty_fee_share: int,
) -> int {
    match metadata {
        Some(md) => total_creators_fee_spec(
            amount,
            base_fees,
            md.metadata.seller_fee_basis_points as int,
            honored,
            royalty_fee_share,
        ),
        None => 0,
    }
}

/// What creators are paid in total, 0 when no metadata is supplied.
pub open spec fn metadata_fees_paid(
    amount: int,
    base_fees: int,
    metadata: Option<MetadataAccount>,
    honored: bool,
    royalty_fee_share: int,
) -> int {
    match metadata {
        Some(md) => {
            let tcf = metadata_creator_pool(amount, base_fees, metadata, honored, royalty_fee_share);
            let shares = shares_of(md.metadata.creators@);
            paid_total(tcf, creators_remainder(tcf, shares), shares, shares.len() as int)
        },
        None => 0,
    }
}

/// The creator payouts, empty when no metadata is supplied.
pub open spec fn metadata_creator_payouts(
    amount: int,
    base_fees: int,
    metadata: Option<MetadataAccount>,
    honored: bool,
    royalty_fee_share: int,
    recipients: Seq<Seq<u8>>,
) -> Seq<(Seq<u8>, int)> {
    match metadata {
        Some(md) => {
            let tcf = metadata_creator_pool(amount, base_fees, metadata, honored, royalty_fee_share);
            let shares = shares_of(md.metadata.creators@);
            creator_payouts(tcf, creators_remainder(tcf, shares), shares, recipients, shares.len() as int)
        },
        None => Seq::empty(),
    }
}

/// The first failure of the whole plan computation, or `None` when a plan
/// is owed, in the order the checks are made: the fee collector identity,
/// the fee schedule, the royalty apportionment, the fee settlement, and
/// the target amount.
pub open spec fn plan_first_error(
    amount: int,
    maker_fee_bps: int,
    taker_fee_bps: int,
    fee_collector_ok: bool,
    metadata: Option<MetadataAccount>,
    owner_ok: bool,
    mint_ok: bool,
    honored: bool,
    royalty_fee_share: int,
    n_recipients: int,
    has_buy_side: bool,
) -> Option<ErrorCode> {
    if !fee_collector_ok {
        Some(ErrorCode::InvalidFeeCollector)
    } else if !schedule_ok(amount, maker_fee_bps, taker_fee_bps) {
        Some(ErrorCode::ArithmeticOverflow)
    } else {
        let taker = bps_fee(amount, taker_fee_bps);
        let base = bps_fee(amount, maker_fee_bps) + taker;
        let re = royalty_first_error(
            amount,
            base,
            metadata is Some,
            owner_ok,
            mint_ok,
            md_seller_fee_bps(metadata),
            honored,
            royalty_fee_share,
            md_shares(metadata),
            n_recipients,
        );
        if re is Some {
            re
        } else {
            let total_fees = base + metadata_seller_fee(amount, metadata, honored);
            let fees_paid = metadata_fees_paid(amount, base, metadata, honored, royalty_fee_share);
            let se = settlement_first_error(amount, total_fees, fees_paid, has_buy_side);
            if se is Some {
                se
            } else if amount + taker > u64::MAX {
                Some(ErrorCode::ArithmeticOverflow)
            } else if amount + taker < total_fees {
                Some(ErrorCode::ArithmeticUnderflow)
            } else if amount + taker - total_fees < buy_side_fee_spec(amount) {
                Some(ErrorCode::ArithmeticUnderflow)
            } else {
                None
            }
        }
    }
}

/// Derives the complete payout plan for one payment: the fee schedule,
/// the royalty apportionment, the fee settlement and the target amount,
/// each step checked in a fixed order, with no funds moved. The plan
/// conserves value exactly: everything it pays out sums to
/// `amount + taker_fee`.
pub fn build_payout_plan(
    config: &FeeConfig,
    metadata: &Option<MetadataAccount>,
    expected_metadata_owner: &AccountId,
    mint: &AccountId,
    request: PaymentRequest,
) -> (r: Result<PayoutPlan, ErrorCode>)
    ensures
        ({
            let fe = plan_first_error(
                request.amount as int,
                config.maker_fee_basis_points as int,
                config.taker_fee_basis_points as int,
                request.fee_collector@ == config.fee_collector@,
                *metadata,
                md_owner_ok(*metadata, expected_metadata_owner@),
                md_mint_ok(*metadata, mint@),
                config.include_seller_fee_basis_points,
                config.spec_effective_royalty_fee_share() as int,
                request.creator_recipients@.len() as int,
                request.buy_side_recipient is Some,
            );
            &&& (r is Ok <==> fe is None)
            &&& (r matches Err(e) ==> fe == Some(e))
        }),
        r matches Ok(p) ==> ({
            let amount = request.amount as int;
            let taker = bps_fee(amount, config.taker_fee_basis_points as int);
            let base = bps_fee(amount, config.maker_fee_basis_points as int) + taker;
            let honored = config.include_seller_fee_basis_points;
            let rfs = config.spec_effective_royalty_fee_share() as int;
            let total_fees = base + metadata_seller_fee(amount, *metadata, honored);
            let fees_paid = metadata_fees_paid(amount, base, *metadata, honored, rfs);
            let has_bs = request.buy_side_recipient is Some;
            let bsf = buy_side_fee_spec(amount);
            &&& p.taker_fee == taker
            &&& transfers_view(p.creator_transfers@) == metadata_creator_payouts(
                amount,
                base,
                *metadata,
                honored,
                rfs,
                ids_view(request.creator_recipients@),
            )
            &&& transfers_amount_sum(p.creator_transfers@) == fees_paid
            &&& (forall|k: int|
                0 <= k < p.creator_transfers@.len() ==> p.creator_transfers@[k].amount > 0)
            &&& p.buy_side_recipient == request.buy_side_recipient
            &&& p.buy_side_amount == (if has_bs {
                bsf
            } else {
                0int
            })
            &&& p.fee_collector == request.fee_collector
            &&& p.fee_collector_amount == fee_collector_fee_spec(
                amount,
                total_fees,
                fees_paid,
                has_bs,
            )
            &&& p.payment_target == request.payment_target
            &&& p.target_amount == amount + taker - total_fees - bsf
            &&& plan_total(p) == amount + taker
        }),
{
    if !request.fee_collector.matches(&config.fee_collector) {
        return Err(ErrorCode::InvalidFeeCollector);
    }
    let schedule = match compute_fee_schedule(
        request.amount,
        config.maker_fee_basis_points,
        config.taker_fee_basis_points,
    ) {
        Ok(s) => s,
        Err(e) => {
            return Err(e);
        },
    };
    let royalty_fee_share = config.effective_royalty_fee_share();
    let apportionment = match apportion_royalties(
        request.amount,
        schedule.total_fees,
        metadata,
        expected_metadata_owner,
        mint,
        config.include_seller_fee_basis_points,
        royalty_fee_share,
        &request.creator_recipients,
    ) {
        Ok(a) => a,
        Err(e) => {
            return Err(e);
        },
    };
    let has_buy_side = request.buy_side_recipient.is_some();
    let settlement = match settle_fees(
        request.amount,
        apportionment.total_fees,
        apportionment.fees_paid_out,
        has_buy_side,
    ) {
        Ok(s) => s,
        Err(e) => {
            return Err(e);
        },
    };
    let with_taker = match request.amount.checked_add(schedule.taker_fee) {
        Some(v) => v,
        None => {
            return Err(ErrorCode::ArithmeticOverflow);
        },
    };
    let after_fees = match with_taker.checked_sub(apportionment.total_fees) {
        Some(v) => v,
        None => {
            return Err(ErrorCode::ArithmeticUnderflow);
        },
    };
    let target_amount = match after_fees.checked_sub(settlement.buy_side_fee) {
        Some(v) => v,
        None => {
            return Err(ErrorCode::ArithmeticUnderflow);
        },
    };
    let buy_side_amount: u64 = if has_buy_side {
        settlement.buy_side_fee
    } else {
        0
    };
    Ok(
        PayoutPlan {
            taker_fee: schedule.taker_fee,
            creator_transfers: apportionment.creator_transfers,
            buy_side_recipient: request.buy_side_recipient,
            buy_side_amount,
            fee_collector: request.fee_collector,
            fee_collector_amount: settlement.fee_collector_fee,
            payment_target: request.payment_target,
            target_amount,
        },
    )
}

/// The transfers that execute a plan, in the fixed order: creators, then
/// the buy-side recipient when present (even for a zero fee), then the
/// fee collector when its residual is non-zero, then the payment target
/// (even for a zero amount).
pub open spec fn executor_sequence(p: PayoutPlan) -> Seq<Transfer> {
    let with_bs = match p.buy_side_recipient {
        Some(b) => p.creator_transfers@.push(Transfer { to: b, amount: p.buy_side_amount }),
        None => p.creator_transfers@,
    };
    let with_fc = if p.fee_collector_amount > 0 {
        with_bs.push(Transfer { to: p.fee_collector, amount: p.fee_collector_amount })
    } else {
        with_bs
    };
    with_fc.push(Transfer { to: p.payment_target, amount: p.target_amount })
}

/// Turns a finalized plan into the ordered transfer list to execute.
/// The list moves exactly what the plan accounts for: skipping a zero
/// fee-collector residual skips only a zero amount, and a plan without a
/// buy-side recipient carries a zero buy-side amount when built by
/// [`build_payout_plan`].
pub fn planned_transfers(plan: PayoutPlan) -> (r: Vec<Transfer>)
    ensures
        r@ == executor_sequence(plan),
        transfers_amount_sum(r@) == transfers_amount_sum(plan.creator_transfers@) + (
        if plan.buy_side_recipient is Some {
            plan.buy_side_amount as int
        } else {
            0int
        }) + plan.fee_collector_amount + plan.target_amount,
        plan.buy_side_recipient is Some || plan.buy_side_amount == 0 ==> transfers_amount_sum(r@)
            == plan_total(plan),
{
    let ghost plan0 = plan;
    let PayoutPlan {
        taker_fee: _,
        creator_transfers,
        buy_side_recipient,
        buy_side_amount,
        fee_collector,
        fee_collector_amount,
        payment_target,
        target_amount,
    } = plan;
    let mut r = creator_transfers;
    match buy_side_recipient {
        Some(b) => {
            let t = Transfer { to: b, amount: buy_side_amount };
            proof {
                lemma_transfers_amount_sum_push(r@, t);
            }
            r.push(t);
        },
        None => {},
    }
    if fee_collector_amount > 0 {
        let t = Transfer { to: fee_collector, amount: fee_collector_amount };
        proof {
            lemma_transfers_amount_sum_push(r@, t);
        }
        r.push(t);
    }
    let t = Transfer { to: payment_target, amount: target_amount };
    proof {
        lemma_transfers_amount_sum_push(r@, t);
    }
    r.push(t);
    r
}

} // verus!
