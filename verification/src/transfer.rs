use vstd::prelude::*;

use crate::account::AccountId;

verus! {

/// One planned movement of funds from the payer to a recipient.
#[derive(Debug)]
pub struct Transfer {
    /// Identity of the recipient.
    pub to: AccountId,
    /// Units of currency moved.
    pub amount: u64,
}

impl View for Transfer {
    type V = (Seq<u8>, int);

    open spec fn view(&self) -> (Seq<u8>, int) {
        (self.to@, self.amount as int)
    }
}

/// The recipient/amount pairs of a transfer sequence.
pub open spec fn transfers_view(s: Seq<Transfer>) -> Seq<(Seq<u8>, int)> {
    Seq::new(s.len(), |k: int| (s[k].to@, s[k].amount as int))
}

/// Total amount moved by a sequence of transfers.
pub open spec fn transfers_amount_sum(s: Seq<Transfer>) -> int
    decreases s.len(),
{
    if s.len() == 0 {
        0
    } else {
        transfers_amount_sum(s.drop_last()) + s.last().amount
    }
}

/// Appending one transfer adds exactly its amount to the total.
pub proof fn lemma_transfers_amount_sum_push(s: Seq<Transfer>, t: Transfer)
    ensures
        transfers_amount_sum(s.push(t)) == transfers_amount_sum(s) + t.amount,
{
    assert(s.push(t).drop_last() =~= s);
}

} // verus!
