use cardinal_payment_manager::apportion_royalties;
use cardinal_payment_manager::build_payout_plan;
use cardinal_payment_manager::compute_fee_schedule;
use cardinal_payment_manager::planned_transfers;
use cardinal_payment_manager::split_creator_pool;
use cardinal_payment_manager::AccountId;
use cardinal_payment_manager::Creator;
use cardinal_payment_manager::ErrorCode;
use cardinal_payment_manager::FeeConfig;
use cardinal_payment_manager::MetadataAccount;
use cardinal_payment_manager::PaymentRequest;
use cardinal_payment_manager::RoyaltyMetadata;

fn acct(tag: u8) -> AccountId {
    AccountId::new(vec![tag; 32])
}

fn config(maker: u16, taker: u16) -> FeeConfig {
    FeeConfig {
        maker_fee_basis_points: maker,
        taker_fee_basis_points: taker,
        fee_collector: acct(1),
        include_seller_fee_basis_points: false,
        royalty_fee_share: None,
    }
}

fn request(amount: u64) -> PaymentRequest {
    PaymentRequest {
        amount,
        fee_collector: acct(1),
        payment_target: acct(2),
        buy_side_recipient: None,
        creator_recipients: Vec::new(),
    }
}

fn metadata(seller_bps: u16, creators: Vec<Creator>) -> MetadataAccount {
    MetadataAccount {
        owner: acct(9),
        metadata: RoyaltyMetadata {
            mint: acct(8),
            seller_fee_basis_points: seller_bps,
            creators,
        },
    }
}

#[test]
fn fee_schedule_example() {
    let s = compute_fee_schedule(1_000_000, 200, 100).unwrap();
    assert_eq!(s.maker_fee, 20_000);
    assert_eq!(s.taker_fee, 10_000);
    assert_eq!(s.total_fees, 30_000);
}

#[test]
fn fee_schedule_rounds_down() {
    let s = compute_fee_schedule(9_999, 1, 3).unwrap();
    assert_eq!(s.maker_fee, 0);
    assert_eq!(s.taker_fee, 2);
    assert_eq!(s.total_fees, 2);
}

#[test]
fn no_metadata_plan_example() {
    let plan = build_payout_plan(&config(200, 100), &None, &acct(9), &acct(8), request(1_000_000))
        .unwrap();
    assert_eq!(plan.taker_fee, 10_000);
    assert!(plan.creator_transfers.is_empty());
    // The compiled-in buy-side share is 0, so the collector receives the
    // whole fee total and the target the rest of amount + taker_fee.
    assert_eq!(plan.buy_side_amount, 0);
    assert_eq!(plan.fee_collector_amount, 30_000);
    assert_eq!(plan.target_amount, 980_000);
    assert_eq!(plan.fee_collector_amount + plan.target_amount, 1_010_000);
}

#[test]
fn two_creators_split_example() {
    let creators = vec![
        Creator { address: acct(10), share: 60 },
        Creator { address: acct(11), share: 40 },
    ];
    let recipients = vec![acct(20), acct(21)];
    let split = split_creator_pool(1000, &creators, &recipients).unwrap();
    assert_eq!(split.fees_paid_out, 1000);
    assert_eq!(split.creator_transfers.len(), 2);
    assert_eq!(split.creator_transfers[0].amount, 600);
    assert_eq!(split.creator_transfers[0].to.bytes, vec![20; 32]);
    assert_eq!(split.creator_transfers[1].amount, 400);
    assert_eq!(split.creator_transfers[1].to.bytes, vec![21; 32]);
}

#[test]
fn zero_share_creator_skipped() {
    let creators = vec![
        Creator { address: acct(10), share: 0 },
        Creator { address: acct(11), share: 100 },
    ];
    // Only the non-zero-share creator consumes a recipient.
    let recipients = vec![acct(21)];
    let split = split_creator_pool(1000, &creators, &recipients).unwrap();
    assert_eq!(split.fees_paid_out, 1000);
    assert_eq!(split.creator_transfers.len(), 1);
    assert_eq!(split.creator_transfers[0].amount, 1000);
    assert_eq!(split.creator_transfers[0].to.bytes, vec![21; 32]);
}

#[test]
fn zero_amount_creator_not_transferred() {
    let creators = vec![
        Creator { address: acct(10), share: 50 },
        Creator { address: acct(11), share: 50 },
    ];
    let recipients = vec![acct(20), acct(21)];
    // A pool of 1 splits to floor(0.5) = 0 per creator, remainder pool 0.
    let split = split_creator_pool(1, &creators, &recipients).unwrap();
    assert_eq!(split.fees_paid_out, 0);
    assert!(split.creator_transfers.is_empty());
}

#[test]
fn remainder_distribution_in_list_order() {
    // Shares that do not sum to 100 leave a remainder pool:
    // 1000 - (1000*30 + 1000*30)/100 = 400, drawn one unit per paid
    // creator in list order.
    let creators = vec![
        Creator { address: acct(10), share: 30 },
        Creator { address: acct(11), share: 30 },
    ];
    let recipients = vec![acct(20), acct(21)];
    let split = split_creator_pool(1000, &creators, &recipients).unwrap();
    assert_eq!(split.creator_transfers[0].amount, 301);
    assert_eq!(split.creator_transfers[1].amount, 301);
    assert_eq!(split.fees_paid_out, 602);
}

#[test]
fn missing_creator_recipient() {
    let creators = vec![
        Creator { address: acct(10), share: 50 },
        Creator { address: acct(11), share: 50 },
    ];
    let recipients = vec![acct(20)];
    let r = split_creator_pool(1000, &creators, &recipients);
    assert_eq!(r.unwrap_err(), ErrorCode::MissingAccount);
}

#[test]
fn overflow_guard_issues_no_plan() {
    // amount * maker_fee_bps exceeds u64::MAX.
    let r = build_payout_plan(&config(2, 0), &None, &acct(9), &acct(8), request(u64::MAX));
    assert_eq!(r.unwrap_err(), ErrorCode::ArithmeticOverflow);
}

#[test]
fn invalid_fee_collector_rejected() {
    let mut req = request(1_000_000);
    req.fee_collector = acct(3);
    let r = build_payout_plan(&config(200, 100), &None, &acct(9), &acct(8), req);
    assert_eq!(r.unwrap_err(), ErrorCode::InvalidFeeCollector);
}

#[test]
fn invalid_metadata_owner_rejected() {
    let mut md = metadata(0, Vec::new());
    md.owner = acct(7);
    let r = build_payout_plan(&config(200, 100), &Some(md), &acct(9), &acct(8), request(1_000_000));
    assert_eq!(r.unwrap_err(), ErrorCode::InvalidMintMetadataOwner);
}

#[test]
fn invalid_metadata_mint_rejected() {
    let mut md = metadata(0, Vec::new());
    md.metadata.mint = acct(6);
    let r = build_payout_plan(&config(200, 100), &Some(md), &acct(9), &acct(8), request(1_000_000));
    assert_eq!(r.unwrap_err(), ErrorCode::InvalidMintMetadata);
}

#[test]
fn oversized_royalty_share_underflows() {
    // A royalty share over 100% routes more to creators than the fee
    // total holds; the settlement's checked subtraction catches it.
    let mut cfg = config(100, 100);
    cfg.royalty_fee_share = Some(20_000);
    let md = metadata(0, vec![Creator { address: acct(10), share: 100 }]);
    let mut req = request(10_000);
    req.creator_recipients = vec![acct(20)];
    let r = build_payout_plan(&cfg, &Some(md), &acct(9), &acct(8), req);
    assert_eq!(r.unwrap_err(), ErrorCode::ArithmeticUnderflow);
}

#[test]
fn buy_side_recipient_paid_fixed_share() {
    let mut req = request(1_000_000);
    req.buy_side_recipient = Some(acct(5));
    let plan = build_payout_plan(&config(200, 100), &None, &acct(9), &acct(8), req).unwrap();
    // The buy-side fee is carved out of the collector's residual, not
    // charged on top; with the compiled-in share of 0 the carve-out is
    // a zero amount and the collector keeps the whole fee total.
    assert_eq!(plan.buy_side_amount, 0);
    assert_eq!(plan.fee_collector_amount, 30_000);
    assert_eq!(plan.target_amount, 980_000);
    assert_eq!(
        plan.buy_side_amount + plan.fee_collector_amount + plan.target_amount,
        1_010_000
    );
    // The supplied recipient still receives its (zero) transfer.
    let transfers = planned_transfers(plan);
    assert_eq!(transfers.len(), 3);
    assert_eq!(transfers[0].to.bytes, vec![5; 32]);
    assert_eq!(transfers[0].amount, 0);
}

#[test]
fn seller_fee_honored_and_folded() {
    let mut cfg = config(200, 100);
    cfg.include_seller_fee_basis_points = true;
    let md = metadata(500, vec![Creator { address: acct(10), share: 100 }]);
    let mut req = request(1_000_000);
    req.creator_recipients = vec![acct(20)];
    let plan = build_payout_plan(&cfg, &Some(md), &acct(9), &acct(8), req).unwrap();
    // seller fee 50_000; creator pool 30_000 * 100 / 10_000 + 50_000.
    assert_eq!(plan.creator_transfers.len(), 1);
    assert_eq!(plan.creator_transfers[0].amount, 50_300);
    assert_eq!(plan.fee_collector_amount, 29_700);
    assert_eq!(plan.target_amount, 930_000);
    let total: u64 = plan.creator_transfers.iter().map(|t| t.amount).sum::<u64>()
        + plan.buy_side_amount + plan.fee_collector_amount + plan.target_amount;
    assert_eq!(total, 1_000_000 + plan.taker_fee);
}

#[test]
fn seller_fee_ignored_when_not_honored() {
    let cfg = config(200, 100);
    let md = metadata(500, vec![Creator { address: acct(10), share: 100 }]);
    let mut req = request(1_000_000);
    req.creator_recipients = vec![acct(20)];
    let plan = build_payout_plan(&cfg, &Some(md), &acct(9), &acct(8), req).unwrap();
    // Only the default royalty share of the fees: 30_000 * 100 / 10_000.
    assert_eq!(plan.creator_transfers.len(), 1);
    assert_eq!(plan.creator_transfers[0].amount, 300);
    assert_eq!(plan.fee_collector_amount, 29_700);
    assert_eq!(plan.target_amount, 980_000);
}

#[test]
fn royalty_share_override_applies() {
    let mut cfg = config(200, 100);
    cfg.royalty_fee_share = Some(5_000);
    let md = metadata(0, vec![Creator { address: acct(10), share: 100 }]);
    let mut req = request(1_000_000);
    req.creator_recipients = vec![acct(20)];
    let plan = build_payout_plan(&cfg, &Some(md), &acct(9), &acct(8), req).unwrap();
    // Half of the 30_000 fee total goes to the creator.
    assert_eq!(plan.creator_transfers[0].amount, 15_000);
    assert_eq!(plan.fee_collector_amount, 15_000);
}

#[test]
fn metadata_with_no_creators_pays_none() {
    let cfg = config(200, 100);
    let md = metadata(300, Vec::new());
    let plan = build_payout_plan(&cfg, &Some(md), &acct(9), &acct(8), request(1_000_000)).unwrap();
    assert!(plan.creator_transfers.is_empty());
    assert_eq!(plan.fee_collector_amount, 30_000);
    assert_eq!(plan.target_amount, 980_000);
}

#[test]
fn executor_order_and_conservation() {
    let mut cfg = config(200, 100);
    cfg.royalty_fee_share = Some(5_000);
    let md = metadata(
        0,
        vec![
            Creator { address: acct(10), share: 60 },
            Creator { address: acct(11), share: 40 },
        ],
    );
    let mut req = request(1_000_000);
    req.buy_side_recipient = Some(acct(5));
    req.creator_recipients = vec![acct(20), acct(21)];
    let plan = build_payout_plan(&cfg, &Some(md), &acct(9), &acct(8), req).unwrap();
    let taker_fee = plan.taker_fee;
    let transfers = planned_transfers(plan);
    // Creators in list order, then buy side, then collector, then target.
    assert_eq!(transfers.len(), 5);
    assert_eq!(transfers[0].to.bytes, vec![20; 32]);
    assert_eq!(transfers[0].amount, 9_000);
    assert_eq!(transfers[1].to.bytes, vec![21; 32]);
    assert_eq!(transfers[1].amount, 6_000);
    assert_eq!(transfers[2].to.bytes, vec![5; 32]);
    assert_eq!(transfers[2].amount, 0);
    assert_eq!(transfers[3].to.bytes, vec![1; 32]);
    assert_eq!(transfers[4].to.bytes, vec![2; 32]);
    let moved: u64 = transfers.iter().map(|t| t.amount).sum();
    assert_eq!(moved, 1_000_000 + taker_fee);
}

#[test]
fn zero_collector_residual_skipped_by_executor() {
    // All fees go to the single creator, so the collector transfer is
    // dropped while the zero-amount target transfer stays.
    let mut cfg = config(0, 0);
    cfg.royalty_fee_share = Some(10_000);
    let md = metadata(0, vec![Creator { address: acct(10), share: 100 }]);
    let mut req = request(100);
    req.creator_recipients = vec![acct(20)];
    let plan = build_payout_plan(&cfg, &Some(md), &acct(9), &acct(8), req).unwrap();
    assert_eq!(plan.fee_collector_amount, 0);
    let transfers = planned_transfers(plan);
    assert_eq!(transfers.len(), 1);
    assert_eq!(transfers[0].to.bytes, vec![2; 32]);
    assert_eq!(transfers[0].amount, 100);
}

#[test]
fn excessive_fee_rate_underflows_target() {
    // A maker rate above 100% makes the fee total exceed what the payer
    // hands over; the target computation's checked subtraction catches it.
    let r = build_payout_plan(&config(65_535, 0), &None, &acct(9), &acct(8), request(10_000));
    assert_eq!(r.unwrap_err(), ErrorCode::ArithmeticUnderflow);
}

#[test]
fn no_metadata_apportionment_is_empty() {
    let a = apportion_royalties(1_000_000, 30_000, &None, &acct(9), &acct(8), true, 100, &Vec::new())
        .unwrap();
    assert_eq!(a.seller_fee, 0);
    assert_eq!(a.total_creators_fee, 0);
    assert_eq!(a.total_fees, 30_000);
    assert_eq!(a.fees_paid_out, 0);
    assert!(a.creator_transfers.is_empty());
}

#[test]
fn royalty_fee_share_default_and_override() {
    let cfg = config(0, 0);
    assert_eq!(cfg.effective_royalty_fee_share(), 100);
    let mut cfg2 = config(0, 0);
    cfg2.royalty_fee_share = Some(2_500);
    assert_eq!(cfg2.effective_royalty_fee_share(), 2_500);
}

#[test]
fn account_identity_comparison() {
    let a = acct(1);
    let b = acct(1);
    let c = acct(2);
    assert!(a.matches(&b));
    assert!(!a.matches(&c));
    assert!(!a.matches(&AccountId::new(vec![1; 31])));
    let d = a.clone();
    assert!(a.matches(&d));
}
