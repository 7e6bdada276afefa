use vstd::prelude::*;

use crate::error::CustomError;

verus! {

/// Where a transfer out of a vault's custodial account goes.
#[derive(Clone, Copy, Debug, PartialEq, Eq, Structural)]
pub enum Destination {
    /// The owner's own account, when an order is cancelled.
    Owner,
    /// The referrer's account.
    Referrer,
    /// The protocol's account.
    Protocol,
    /// The account that receives the owner's amount on execution.
    User,
}

/// One transfer out of a custodial account, signed by the vault's authority.
#[derive(Clone, Copy, Debug, PartialEq, Eq, Structural)]
pub struct Payout {
    pub to: Destination,
    pub amount: u64,
}

/// The sum of the amounts of a sequence of transfers.
pub open spec fn sum_amounts(s: Seq<Payout>) -> int
    decreases s.len(),
{
    if s.len() == 0 {
        0
    } else {
        sum_amounts(s.drop_last()) + s.last().amount
    }
}

proof fn lemma_prefix_sum_bounded(s: Seq<Payout>, i: int)
    requires
        0 <= i <= s.len(),
    ensures
        0 <= sum_amounts(s.subrange(0, i)) <= sum_amounts(s),
    decreases s.len(),
{
    if s.len() > 0 {
        if i == s.len() {
            assert(s.subrange(0, i) =~= s);
            lemma_prefix_sum_bounded(s.drop_last(), i - 1);
            assert(s.drop_last().subrange(0, i - 1) =~= s.drop_last());
        } else {
            lemma_prefix_sum_bounded(s.drop_last(), i);
            assert(s.drop_last().subrange(0, i) =~= s.subrange(0, i));
        }
    }
}

/// Debits a custodial account holding `balance` by every transfer of
/// `payouts`, all or nothing: the new balance when they fit in it together,
/// else `InsufficientFunds` with nothing moved.
pub fn apply_payouts(balance: u64, payouts: &Vec<Payout>) -> (r: Result<u64, CustomError>)
    ensures
        sum_amounts(payouts@) <= balance ==> r == Ok::<u64, CustomError>(
            (balance - sum_amounts(payouts@)) as u64,
        ),
        sum_amounts(payouts@) > balance ==> r == Err::<u64, CustomError>(
            CustomError::InsufficientFunds,
        ),
{
    let mut spent: u64 = 0;
    let mut i: usize = 0;
    while i < payouts.len()
        invariant
            0 <= i <= payouts@.len(),
            spent <= balance,
            spent == sum_amounts(payouts@.subrange(0, i as int)),
        decreases payouts@.len() - i,
    {
        let amount = payouts[i].amount;
        proof {
            assert(payouts@.subrange(0, i + 1).drop_last() =~= payouts@.subrange(0, i as int));
        }
        if amount > balance - spent {
            proof {
                lemma_prefix_sum_bounded(payouts@, i + 1);
            }
            return Err(CustomError::InsufficientFunds);
        }
        spent = spent + amount;
        i = i + 1;
    }
    proof {
        assert(payouts@.subrange(0, i as int) =~= payouts@);
    }
    Ok(balance - spent)
}

} // verus!
