use vstd::prelude::*;

use vstd::arithmetic::div_mod::lemma_div_is_ordered;
use vstd::arithmetic::div_mod::lemma_fundamental_div_mod;
use vstd::arithmetic::div_mod::lemma_mod_division_less_than_divisor;
use vstd::arithmetic::mul::lemma_mul_nonnegative;

use crate::account::ids_view;
use crate::account::AccountId;
use crate::errors::ErrorCode;
use crate::fee_schedule::bps_fee;
use crate::state::BASIS_POINTS_DIVISOR;
use crate::transfer::lemma_transfers_amount_sum_push;
use crate::transfer::transfers_amount_sum;
use crate::transfer::transfers_view;
use crate::transfer::Transfer;

verus! {

/// One royalty beneficiary as declared by the asset's metadata.
#[derive(Debug)]
pub struct Creator {
    /// Identity of the beneficiary.
    pub address: AccountId,
    /// Percentage share of the royalty pool, in `[0, 100]`; the declared
    /// (not re-validated) metadata invariant is that all shares sum to 100.
    pub share: u8,
}

/// Externally supplied royalty metadata, read-only for the core.
#[derive(Debug)]
pub struct RoyaltyMetadata {
    /// The asset the metadata speaks about.
    pub mint: AccountId,
    /// Seller fee in basis points, applied to the gross amount when
    /// seller fees are honored.
    pub seller_fee_basis_points: u16,
    /// Ordered royalty beneficiaries; an asset without declared creators
    /// has an empty list.
    pub creators: Vec<Creator>,
}

/// The metadata together with the identity of the program owning its
/// storage account, which must match the expected metadata program before
/// the contents are trusted.
#[derive(Debug)]
pub struct MetadataAccount {
    /// Owner of the metadata storage account.
    pub owner: AccountId,
    /// The metadata contents.
    pub metadata: RoyaltyMetadata,
}

/// What the royalty apportioner computed: the seller fee, the creator
/// pool, the updated running fee total, and the creator payouts.
#[derive(Debug)]
pub struct RoyaltyApportionment {
    /// `floor(amount * seller_fee_bps / 10000)` when honored, else 0.
    pub seller_fee: u64,
    /// The whole pool owed to creators.
    pub total_creators_fee: u64,
    /// Running fee total with the seller fee folded in.
    pub total_fees: u64,
    /// Sum of the amounts actually paid to creators.
    pub fees_paid_out: u64,
    /// One transfer per creator with a non-zero share and a non-zero
    /// computed amount, in creator order.
    pub creator_transfers: Vec<Transfer>,
}

/// The creators' shares as mathematical integers.
pub open spec fn shares_of(creators: Seq<Creator>) -> Seq<int> {
    creators.map_values(|c: Creator| c.share as int)
}

/// Sum of the unreduced per-creator products `total_creators_fee * share`.
pub open spec fn products_sum(tcf: int, shares: Seq<int>) -> int
    decreases shares.len(),
{
    if shares.len() == 0 {
        0
    } else {
        products_sum(tcf, shares.drop_last()) + tcf * shares.last()
    }
}

/// Every per-creator product fits in a `u64`.
pub open spec fn products_fit(tcf: int, shares: Seq<int>) -> bool {
    forall|i: int| 0 <= i < shares.len() ==> tcf * shares[i] <= u64::MAX
}

/// Number of creators with a non-zero share.
pub open spec fn nonzero_share_count(shares: Seq<int>) -> int
    decreases shares.len(),
{
    if shares.len() == 0 {
        0
    } else {
        nonzero_share_count(shares.drop_last()) + if shares.last() != 0 {
            1int
        } else {
            0int
        }
    }
}

/// The shared remainder pool: the creator pool minus the once-divided sum
/// of the unreduced products. It is drawn down one unit per paid creator,
/// in list order, until exhausted.
pub open spec fn creators_remainder(tcf: int, shares: Seq<int>) -> int {
    tcf - products_sum(tcf, shares) / 100
}

/// What creator `i` is owed: nothing for a zero share; otherwise its
/// rounded-down percentage of the pool, plus one remainder unit while the
/// remainder pool is not exhausted.
pub open spec fn creator_amount(tcf: int, rem0: int, shares: Seq<int>, i: int) -> int {
    if shares[i] == 0 {
        0
    } else {
        tcf * shares[i] / 100 + if nonzero_share_count(shares.take(i)) < rem0 {
            1int
        } else {
            0int
        }
    }
}

/// Total owed to the first `n` creators.
pub open spec fn paid_total(tcf: int, rem0: int, shares: Seq<int>, n: int) -> int
    decreases n,
{
    if n <= 0 {
        0
    } else {
        paid_total(tcf, rem0, shares, n - 1) + creator_amount(tcf, rem0, shares, n - 1)
    }
}

/// The creator transfers for the first `n` creators: one entry per
/// creator with a non-zero share and a non-zero amount, in creator order,
/// each routed to the positionally aligned recipient.
pub open spec fn creator_payouts(
    tcf: int,
    rem0: int,
    shares: Seq<int>,
    recipients: Seq<Seq<u8>>,
    n: int,
) -> Seq<(Seq<u8>, int)>
    decreases n,
{
    if n <= 0 {
        Seq::empty()
    } else {
        let prev = creator_payouts(tcf, rem0, shares, recipients, n - 1);
        let i = n - 1;
        let amount = creator_amount(tcf, rem0, shares, i);
        if shares[i] != 0 && amount > 0 {
            prev.push((recipients[nonzero_share_count(shares.take(i))], amount))
        } else {
            prev
        }
    }
}

/// A creator with a zero share is skipped entirely: it never appears as
/// a transfer recipient, claims no remainder unit and adds nothing to the
/// paid total, whatever the pool and the remainder hold.
pub proof fn lemma_zero_share_skip(
    tcf: int,
    rem0: int,
    shares: Seq<int>,
    recipients: Seq<Seq<u8>>,
    i: int,
)
    requires
        0 <= i < shares.len(),
        shares[i] == 0,
    ensures
        creator_amount(tcf, rem0, shares, i) == 0,
        creator_payouts(tcf, rem0, shares, recipients, i + 1) == creator_payouts(
            tcf,
            rem0,
            shares,
            recipients,
            i,
        ),
        paid_total(tcf, rem0, shares, i + 1) == paid_total(tcf, rem0, shares, i),
        nonzero_share_count(shares.take(i + 1)) == nonzero_share_count(shares.take(i)),
{
    lemma_nonzero_count_step(shares, i);
}

/// Seller fee: honored metadata basis points applied to the gross amount.
pub open spec fn seller_fee_spec(amount: int, seller_fee_bps: int, honored: bool) -> int {
    if honored {
        bps_fee(amount, seller_fee_bps)
    } else {
        0
    }
}

/// The whole creator pool: the configured share of the maker+taker fees,
/// plus the seller fee.
pub open spec fn total_creators_fee_spec(
    amount: int,
    total_fees: int,
    seller_fee_bps: int,
    honored: bool,
    royalty_fee_share: int,
) -> int {
    total_fees * royalty_fee_share / (BASIS_POINTS_DIVISOR as int) + seller_fee_spec(
        amount,
        seller_fee_bps,
        honored,
    )
}

/// The first failure of the per-creator pool split, or `None` when it
/// succeeds, in the order the checks are made.
pub open spec fn split_first_error(tcf: int, shares: Seq<int>, n_recipients: int) -> Option<
    ErrorCode,
> {
    if !products_fit(tcf, shares) || products_sum(tcf, shares) > u64::MAX {
        Some(ErrorCode::ArithmeticOverflow)
    } else if products_sum(tcf, shares) / 100 > tcf {
        Some(ErrorCode::ArithmeticUnderflow)
    } else if nonzero_share_count(shares) > n_recipients {
        Some(ErrorCode::MissingAccount)
    } else {
        None
    }
}

/// The first failure of the royalty apportioner on the given inputs, or
/// `None` when it succeeds, in the order the checks are made.
pub open spec fn royalty_first_error(
    amount: int,
    total_fees: int,
    has_metadata: bool,
    owner_ok: bool,
    mint_ok: bool,
    seller_fee_bps: int,
    include_seller_fee: bool,
    royalty_fee_share: int,
    shares: Seq<int>,
    n_recipients: int,
) -> Option<ErrorCode> {
    if !has_metadata {
        None
    } else if !owner_ok {
        Some(ErrorCode::InvalidMintMetadataOwner)
    } else if !mint_ok {
        Some(ErrorCode::InvalidMintMetadata)
    } else if include_seller_fee && amount * seller_fee_bps > u64::MAX {
        Some(ErrorCode::ArithmeticOverflow)
    } else if total_fees * royalty_fee_share > u64::MAX {
        Some(ErrorCode::ArithmeticOverflow)
    } else {
        let seller_fee = seller_fee_spec(amount, seller_fee_bps, include_seller_fee);
        let royalty_cut = total_fees * royalty_fee_share / (BASIS_POINTS_DIVISOR as int);
        if royalty_cut + seller_fee > u64::MAX {
            Some(ErrorCode::ArithmeticOverflow)
        } else if total_fees + seller_fee > u64::MAX {
            Some(ErrorCode::ArithmeticOverflow)
        } else {
            let tcf = royalty_cut + seller_fee;
            split_first_error(tcf, shares, n_recipients)
        }
    }
}

/// Whether the metadata storage account, if supplied, is owned by the
/// expected metadata program.
pub open spec fn md_owner_ok(metadata: Option<MetadataAccount>, expected: Seq<u8>) -> bool {
    metadata matches Some(md) ==> md.owner@ == expected
}

/// Whether the metadata, if supplied, references the mint being paid for.
pub open spec fn md_mint_ok(metadata: Option<MetadataAccount>, mint: Seq<u8>) -> bool {
    metadata matches Some(md) ==> md.metadata.mint@ == mint
}

/// The metadata's seller fee basis points, 0 when absent.
pub open spec fn md_seller_fee_bps(metadata: Option<MetadataAccount>) -> int {
    match metadata {
        Some(md) => md.metadata.seller_fee_basis_points as int,
        None => 0,
    }
}

/// The metadata's creator shares, empty when absent.
pub open spec fn md_shares(metadata: Option<MetadataAccount>) -> Seq<int> {
    match metadata {
        Some(md) => shares_of(md.metadata.creators@),
        None => Seq::empty(),
    }
}

/// Extending the product sum by one creator adds exactly its product.
proof fn lemma_products_sum_step(tcf: int, shares: Seq<int>, n: int)
    requires
        0 <= n < shares.len(),
    ensures
        products_sum(tcf, shares.take(n + 1)) == products_sum(tcf, shares.take(n)) + tcf
            * shares[n],
{
    assert(shares.take(n + 1).drop_last() =~= shares.take(n));
    assert(shares.take(n + 1).last() == shares[n]);
}

/// A product sum of non-negative terms is non-negative.
proof fn lemma_products_sum_nonneg(tcf: int, shares: Seq<int>)
    requires
        tcf >= 0,
        forall|i: int| 0 <= i < shares.len() ==> shares[i] >= 0,
    ensures
        products_sum(tcf, shares) >= 0,
    decreases shares.len(),
{
    if shares.len() > 0 {
        lemma_products_sum_nonneg(tcf, shares.drop_last());
        lemma_mul_nonnegative(tcf, shares.last());
    }
}

/// With non-negative terms, a prefix of the product sum never exceeds the
/// whole sum.
proof fn lemma_products_sum_prefix_le(tcf: int, shares: Seq<int>, n: int)
    requires
        0 <= n <= shares.len(),
        tcf >= 0,
        forall|i: int| 0 <= i < shares.len() ==> shares[i] >= 0,
    ensures
        products_sum(tcf, shares.take(n)) <= products_sum(tcf, shares),
    decreases shares.len() - n,
{
    if n == shares.len() {
        assert(shares.take(n) =~= shares);
    } else {
        lemma_products_sum_step(tcf, shares, n);
        lemma_mul_nonnegative(tcf, shares[n]);
        lemma_products_sum_prefix_le(tcf, shares, n + 1);
    }
}

/// Extending the non-zero-share count by one creator.
proof fn lemma_nonzero_count_step(shares: Seq<int>, n: int)
    requires
        0 <= n < shares.len(),
    ensures
        nonzero_share_count(shares.take(n + 1)) == nonzero_share_count(shares.take(n)) + (
        if shares[n] != 0 {
            1int
        } else {
            0int
        }),
{
    assert(shares.take(n + 1).drop_last() =~= shares.take(n));
    assert(shares.take(n + 1).last() == shares[n]);
}

/// A prefix never holds more non-zero shares than the whole list.
proof fn lemma_nonzero_count_prefix_le(shares: Seq<int>, n: int)
    requires
        0 <= n <= shares.len(),
    ensures
        nonzero_share_count(shares.take(n)) <= nonzero_share_count(shares),
    decreases shares.len() - n,
{
    if n == shares.len() {
        assert(shares.take(n) =~= shares);
    } else {
        lemma_nonzero_count_step(shares, n);
        lemma_nonzero_count_prefix_le(shares, n + 1);
    }
}

/// Computes the seller fee and the creator pool from the gross amount and
/// the running fee total, then splits the pool across the creators in
/// list order: each creator with a non-zero share is owed its
/// rounded-down percentage, plus one unit from the shared remainder pool
/// while that lasts. Creators with a zero share are skipped entirely (no
/// recipient is consumed, nothing is owed); a computed amount of zero
/// consumes its recipient slot but produces no transfer.
///
/// When no metadata is supplied there are no royalties: the fee total is
/// returned unchanged and nothing is owed to anyone.
#[verifier::loop_isolation(false)]
#[verifier::rlimit(50)]
pub fn apportion_royalties(
    amount: u64,
    total_fees: u64,
    metadata: &Option<MetadataAccount>,
    expected_metadata_owner: &AccountId,
    mint: &AccountId,
    include_seller_fee: bool,
    royalty_fee_share: u64,
    creator_recipients: &Vec<AccountId>,
) -> (r: Result<RoyaltyApportionment, ErrorCode>)
    ensures
        ({
            let fe = royalty_first_error(
                amount as int,
                total_fees as int,
                *metadata is Some,
                md_owner_ok(*metadata, expected_metadata_owner@),
                md_mint_ok(*metadata, mint@),
                md_seller_fee_bps(*metadata),
                include_seller_fee,
                royalty_fee_share as int,
                md_shares(*metadata),
                creator_recipients@.len() as int,
            );
            &&& (r is Ok <==> fe is None)
            &&& (r matches Err(e) ==> fe == Some(e))
        }),
        r matches Ok(a) ==> {
            &&& (*metadata is None ==> {
                &&& a.seller_fee == 0
                &&& a.total_creators_fee == 0
                &&& a.total_fees == total_fees
                &&& a.fees_paid_out == 0
                &&& a.creator_transfers@.len() == 0
            })
            &&& (*metadata matches Some(md) ==> {
                let seller = seller_fee_spec(
                    amount as int,
                    md.metadata.seller_fee_basis_points as int,
                    include_seller_fee,
                );
                let tcf = total_creators_fee_spec(
                    amount as int,
                    total_fees as int,
                    md.metadata.seller_fee_basis_points as int,
                    include_seller_fee,
                    royalty_fee_share as int,
                );
                let shares = shares_of(md.metadata.creators@);
                let rem0 = creators_remainder(tcf, shares);
                &&& a.seller_fee == seller
                &&& a.total_creators_fee == tcf
                &&& a.total_fees == total_fees + seller
                &&& a.fees_paid_out == paid_total(tcf, rem0, shares, shares.len() as int)
                &&& transfers_view(a.creator_transfers@) == creator_payouts(
                    tcf,
                    rem0,
                    shares,
                    ids_view(creator_recipients@),
                    shares.len() as int,
                )
            })
            &&& transfers_amount_sum(a.creator_transfers@) == a.fees_paid_out
            &&& a.fees_paid_out <= a.total_creators_fee
            &&& (forall|k: int|
                0 <= k < a.creator_transfers@.len() ==> a.creator_transfers@[k].amount > 0)
        },
{
    let md = match metadata {
        None => {
            return Ok(
                RoyaltyApportionment {
                    seller_fee: 0,
                    total_creators_fee: 0,
                    total_fees,
                    fees_paid_out: 0,
                    creator_transfers: Vec::new(),
                },
            );
        },
        Some(md) => md,
    };
    if !md.owner.matches(expected_metadata_owner) {
        return Err(ErrorCode::InvalidMintMetadataOwner);
    }
    if !md.metadata.mint.matches(mint) {
        return Err(ErrorCode::InvalidMintMetadata);
    }
    let seller_fee: u64 = if include_seller_fee {
        match amount.checked_mul(md.metadata.seller_fee_basis_points as u64) {
            Some(p) => p / BASIS_POINTS_DIVISOR,
            None => {
                return Err(ErrorCode::ArithmeticOverflow);
            },
        }
    } else {
        0
    };
    let royalty_product = match total_fees.checked_mul(royalty_fee_share) {
        Some(p) => p,
        None => {
            return Err(ErrorCode::ArithmeticOverflow);
        },
    };
    let total_creators_fee = match (royalty_product / BASIS_POINTS_DIVISOR).checked_add(
        seller_fee,
    ) {
        Some(v) => v,
        None => {
            return Err(ErrorCode::ArithmeticOverflow);
        },
    };
    let new_total_fees = match total_fees.checked_add(seller_fee) {
        Some(v) => v,
        None => {
            return Err(ErrorCode::ArithmeticOverflow);
        },
    };

    let split = match split_creator_pool(total_creators_fee, &md.metadata.creators, creator_recipients) {
        Ok(s) => s,
        Err(e) => {
            return Err(e);
        },
    };
    Ok(
        RoyaltyApportionment {
            seller_fee,
            total_creators_fee,
            total_fees: new_total_fees,
            fees_paid_out: split.fees_paid_out,
            creator_transfers: split.creator_transfers,
        },
    )
}

/// The outcome of splitting the creator pool: what each paid creator
/// receives and the total actually owed.
#[derive(Debug)]
pub struct CreatorSplit {
    /// Sum of all creator amounts, including remainder adjustments.
    pub fees_paid_out: u64,
    /// One transfer per creator with a non-zero share and a non-zero
    /// computed amount, in creator order.
    pub creator_transfers: Vec<Transfer>,
}

/// Splits `total_creators_fee` across the creators in list order: each
/// creator with a non-zero share is owed its rounded-down percentage of
/// the pool, plus one unit from the shared remainder pool while that
/// lasts; zero-share creators are skipped entirely. Recipients are
/// consumed positionally, one per non-zero-share creator.
#[verifier::loop_isolation(false)]
#[verifier::rlimit(100)]
pub fn split_creator_pool(
    total_creators_fee: u64,
    creators: &Vec<Creator>,
    creator_recipients: &Vec<AccountId>,
) -> (r: Result<CreatorSplit, ErrorCode>)
    ensures
        ({
            let fe = split_first_error(
                total_creators_fee as int,
                shares_of(creators@),
                creator_recipients@.len() as int,
            );
            &&& (r is Ok <==> fe is None)
            &&& (r matches Err(e) ==> fe == Some(e))
        }),
        r matches Ok(s) ==> {
            let shares = shares_of(creators@);
            let tcf = total_creators_fee as int;
            let rem0 = creators_remainder(tcf, shares);
            &&& s.fees_paid_out == paid_total(tcf, rem0, shares, shares.len() as int)
            &&& transfers_view(s.creator_transfers@) == creator_payouts(
                tcf,
                rem0,
                shares,
                ids_view(creator_recipients@),
                shares.len() as int,
            )
            &&& transfers_amount_sum(s.creator_transfers@) == s.fees_paid_out
            &&& s.fees_paid_out <= total_creators_fee
            &&& (forall|k: int|
                0 <= k < s.creator_transfers@.len() ==> s.creator_transfers@[k].amount > 0)
        },
{
    let n = creators.len();
    let ghost shares = shares_of(creators@);
    let ghost tcf = total_creators_fee as int;

    // Sum of the unreduced per-creator products, every step checked.
    let mut products_total: u64 = 0;
    let mut i: usize = 0;
    while i < n
        invariant
            i <= n,
            products_total as int == products_sum(tcf, shares.take(i as int)),
            forall|j: int| 0 <= j < i ==> tcf * shares[j] <= u64::MAX,
        decreases n - i,
    {
        let p = match total_creators_fee.checked_mul(creators[i].share as u64) {
            Some(p) => p,
            None => {
                proof {
                    assert(shares[i as int] == creators@[i as int].share as int);
                    assert(tcf * shares[i as int] > u64::MAX);
                    assert(!products_fit(tcf, shares));
                }
                return Err(ErrorCode::ArithmeticOverflow);
            },
        };
        let next = match products_total.checked_add(p) {
            Some(s) => s,
            None => {
                proof {
                    lemma_products_sum_step(tcf, shares, i as int);
                    lemma_mul_nonnegative(tcf, shares[i as int]);
                    lemma_products_sum_prefix_le(tcf, shares, i as int + 1);
                }
                return Err(ErrorCode::ArithmeticOverflow);
            },
        };
        proof {
            lemma_products_sum_step(tcf, shares, i as int);
        }
        products_total = next;
        i = i + 1;
    }
    proof {
        assert(shares.take(n as int) =~= shares);
    }
    let ghost s_all = products_sum(tcf, shares);

    // The shared remainder pool, drawn down one unit per paid creator.
    let mut remainder = match total_creators_fee.checked_sub(products_total / 100) {
        Some(v) => v,
        None => {
            return Err(ErrorCode::ArithmeticUnderflow);
        },
    };
    let ghost rem0 = remainder as int;
    let ghost rviews = ids_view(creator_recipients@);

    let mut fees_paid_out: u64 = 0;
    let mut creator_transfers: Vec<Transfer> = Vec::new();
    let mut rk: usize = 0;
    let mut i: usize = 0;
    while i < n
        invariant
            i <= n,
            rk <= creator_recipients.len(),
            rk as int == nonzero_share_count(shares.take(i as int)),
            remainder as int == (if nonzero_share_count(shares.take(i as int)) < rem0 {
                rem0 - nonzero_share_count(shares.take(i as int))
            } else {
                0int
            }),
            fees_paid_out as int == paid_total(tcf, rem0, shares, i as int),
            transfers_view(creator_transfers@) == creator_payouts(
                tcf,
                rem0,
                shares,
                rviews,
                i as int,
            ),
            transfers_amount_sum(creator_transfers@) == fees_paid_out as int,
            forall|k: int| 0 <= k < creator_transfers@.len() ==> creator_transfers@[k].amount > 0,
            fees_paid_out as int + remainder as int <= products_sum(tcf, shares.take(i as int))
                / 100 + rem0,
        decreases n - i,
    {
        let share = creators[i].share;
        proof {
            lemma_products_sum_step(tcf, shares, i as int);
            lemma_products_sum_nonneg(tcf, shares.take(i as int));
            lemma_mul_nonnegative(tcf, shares[i as int]);
            lemma_div_superadd_100(
                products_sum(tcf, shares.take(i as int)),
                tcf * shares[i as int],
            );
            lemma_products_sum_prefix_le(tcf, shares, i as int + 1);
            lemma_div_is_ordered(products_sum(tcf, shares.take(i as int + 1)), s_all, 100);
            vstd::arithmetic::div_mod::lemma_div_pos_is_pos(tcf * shares[i as int], 100);
            lemma_nonzero_count_step(shares, i as int);
        }
        if share != 0 {
            if rk >= creator_recipients.len() {
                proof {
                    lemma_nonzero_count_prefix_le(shares, i as int + 1);
                }
                return Err(ErrorCode::MissingAccount);
            }
            let p = match total_creators_fee.checked_mul(share as u64) {
                Some(p) => p,
                None => {
                    return Err(ErrorCode::ArithmeticOverflow);
                },
            };
            let adj: u64 = if remainder > 0 {
                1
            } else {
                0
            };
            proof {
                lemma_div_is_ordered(p as int, u64::MAX as int, 100);
            }
            let creator_fee = match (p / 100).checked_add(adj) {
                Some(v) => v,
                None => {
                    return Err(ErrorCode::ArithmeticOverflow);
                },
            };
            remainder = match remainder.checked_sub(adj) {
                Some(v) => v,
                None => {
                    return Err(ErrorCode::ArithmeticUnderflow);
                },
            };
            if creator_fee > 0 {
                fees_paid_out = match fees_paid_out.checked_add(creator_fee) {
                    Some(v) => v,
                    None => {
                        return Err(ErrorCode::ArithmeticOverflow);
                    },
                };
                let recipient = creator_recipients[rk].clone();
                let t = Transfer { to: recipient, amount: creator_fee };
                proof {
                    lemma_transfers_amount_sum_push(creator_transfers@, t);
                }
                creator_transfers.push(t);
            }
            rk = rk + 1;
        }
        proof {
            assert(transfers_view(creator_transfers@) =~= creator_payouts(
                tcf,
                rem0,
                shares,
                rviews,
                i as int + 1,
            ));
        }
        i = i + 1;
    }
    proof {
        assert(shares.take(n as int) =~= shares);
    }
    Ok(CreatorSplit { fees_paid_out, creator_transfers })
}

/// Rounding down distributes sub-additively: dividing two parts by 100
/// separately never beats dividing their sum.
proof fn lemma_div_superadd_100(a: int, b: int)
    requires
        a >= 0,
        b >= 0,
    ensures
        a / 100 + b / 100 <= (a + b) / 100,
{
    lemma_fundamental_div_mod(a, 100);
    lemma_fundamental_div_mod(b, 100);
    lemma_fundamental_div_mod(a + b, 100);
    lemma_mod_division_less_than_divisor(a, 100);
    lemma_mod_division_less_than_divisor(b, 100);
    lemma_mod_division_less_than_divisor(a + b, 100);
}

} // verus!
