use vstd::prelude::*;

use crate::custody::{sum_amounts, Destination, Payout};
use crate::error::CustomError;
use crate::fees::{
    fee_split, lemma_split_conserves, protocol_share_of, referrer_fee_of, user_amount_of,
};
use crate::key::{zero_key, Pubkey};
use crate::vault::Vault;

verus! {

/// What creating a vault reads: the signing owner and the token's mint.
#[derive(Clone, Copy, Debug)]
pub struct Initialize {
    pub owner: Pubkey,
    pub token_mint: Pubkey,
}

/// What cancelling reads: the vault, the balance of its custodial account
/// and the verified identity of the caller.
#[derive(Clone, Copy, Debug)]
pub struct CancelTP {
    pub vault: Vault,
    pub vault_tokens: u64,
    pub owner: Pubkey,
}

/// What executing reads and writes: the vault and the balance of its
/// custodial account.
#[derive(Clone, Copy, Debug)]
pub struct ExecuteTP {
    pub vault: Vault,
    pub vault_tokens: u64,
}

/// The price that execution is judged by: the observed one, or the stored
/// snapshot when none was observed (zero).
pub open spec fn effective_price(observed: u64, stored: u64) -> u64 {
    if observed > 0 {
        observed
    } else {
        stored
    }
}

/// Cancelling returns the whole balance to the owner in one transfer.
pub open spec fn cancel_payouts(balance: u64) -> Seq<Payout> {
    seq![Payout { to: Destination::Owner, amount: balance }]
}

/// Executing pays the referrer's cut (only when there is a referrer), then the
/// protocol's share, then the owner's amount.
pub open spec fn execution_payouts(referrer: Seq<u8>, total: u64) -> Seq<Payout> {
    let protocol = Payout {
        to: Destination::Protocol,
        amount: protocol_share_of(total as int) as u64,
    };
    let user = Payout { to: Destination::User, amount: user_amount_of(total as int) as u64 };
    if referrer != zero_key() {
        seq![
            Payout { to: Destination::Referrer, amount: referrer_fee_of(total as int) as u64 },
            protocol,
            user,
        ]
    } else {
        seq![protocol, user]
    }
}

/// Creates the record of a new order, with no price snapshot yet.
pub fn initialize(ctx: &Initialize, target_price: u64, referrer: Pubkey) -> (r: Vault)
    ensures
        r.owner == ctx.owner,
        r.token_mint == ctx.token_mint,
        r.target_price == target_price,
        r.referrer == referrer,
        r.current_price == 0,
        !r.ready_for_execution,
{
    Vault {
        owner: ctx.owner,
        token_mint: ctx.token_mint,
        target_price,
        referrer,
        current_price: 0,
        ready_for_execution: false,
    }
}

/// Cancels an order: only its owner may, and the whole custodial balance,
/// however small, goes back to the owner.
pub fn cancel_tp(ctx: &CancelTP) -> (r: Result<Vec<Payout>, CustomError>)
    ensures
        ctx.vault.owner@ != ctx.owner@ ==> r == Err::<Vec<Payout>, CustomError>(
            CustomError::Unauthorized,
        ),
        ctx.vault.owner@ == ctx.owner@ ==> r is Ok && r->Ok_0@ == cancel_payouts(
            ctx.vault_tokens,
        ),
{
    if !ctx.vault.owner.key_eq(&ctx.owner) {
        return Err(CustomError::Unauthorized);
    }
    let mut payouts: Vec<Payout> = Vec::new();
    payouts.push(Payout { to: Destination::Owner, amount: ctx.vault_tokens });
    proof {
        assert(payouts@ =~= cancel_payouts(ctx.vault_tokens));
    }
    Ok(payouts)
}

/// Executes an order once the price has reached its target (inclusive):
/// splits the custodial balance and clears the execution flag. Below the
/// target nothing changes and nothing moves.
pub fn execute_tp(ctx: &mut ExecuteTP, current_price: u64) -> (r: Result<Vec<Payout>, CustomError>)
    ensures
        effective_price(current_price, old(ctx).vault.current_price)
            < old(ctx).vault.target_price ==> r == Err::<Vec<Payout>, CustomError>(
            CustomError::TargetNotReached,
        ) && *final(ctx) == *old(ctx),
        effective_price(current_price, old(ctx).vault.current_price)
            >= old(ctx).vault.target_price ==> r is Ok && r->Ok_0@ == execution_payouts(
            old(ctx).vault.referrer@,
            old(ctx).vault_tokens,
        ) && final(ctx).vault == (Vault { ready_for_execution: false, ..old(ctx).vault })
            && final(ctx).vault_tokens == old(ctx).vault_tokens,
{
    let price_to_check = if current_price > 0 {
        current_price
    } else {
        ctx.vault.current_price
    };
    if price_to_check < ctx.vault.target_price {
        return Err(CustomError::TargetNotReached);
    }
    let split = fee_split(ctx.vault_tokens);
    let mut payouts: Vec<Payout> = Vec::new();
    if !ctx.vault.referrer.is_zero() {
        payouts.push(Payout { to: Destination::Referrer, amount: split.referrer_fee });
    }
    payouts.push(Payout { to: Destination::Protocol, amount: split.protocol_share });
    payouts.push(Payout { to: Destination::User, amount: split.user_amount });
    ctx.vault.ready_for_execution = false;
    proof {
        assert(payouts@ =~= execution_payouts(old(ctx).vault.referrer@, old(ctx).vault_tokens));
    }
    Ok(payouts)
}

/// Cancelling moves exactly the custodial balance, so an empty account
/// moves nothing.
pub proof fn lemma_cancel_empty_moves_nothing(balance: u64)
    ensures
        sum_amounts(cancel_payouts(balance)) == balance,
        balance == 0 ==> sum_amounts(cancel_payouts(balance)) == 0,
{
    let s = cancel_payouts(balance);
    assert(s.drop_last() =~= Seq::<Payout>::empty());
    reveal_with_fuel(sum_amounts, 2);
}

/// With a referrer, executing moves the whole custodial balance.
pub proof fn lemma_referred_execution_drains(referrer: Seq<u8>, total: u64)
    requires
        referrer != zero_key(),
    ensures
        sum_amounts(execution_payouts(referrer, total)) == total,
{
    lemma_split_conserves(total);
    let s = execution_payouts(referrer, total);
    assert(s.drop_last().drop_last().drop_last() =~= Seq::<Payout>::empty());
    reveal_with_fuel(sum_amounts, 4);
}

/// Without a referrer, executing sends nothing to a referrer, and the
/// referrer's cut stays in the custodial account.
pub proof fn lemma_unreferred_execution_skips_referrer(total: u64)
    ensures
        forall|i: int|
            0 <= i < execution_payouts(zero_key(), total).len() ==> execution_payouts(
                zero_key(),
                total,
            )[i].to != Destination::Referrer,
        sum_amounts(execution_payouts(zero_key(), total)) == total - referrer_fee_of(
            total as int,
        ),
{
    lemma_split_conserves(total);
    let s = execution_payouts(zero_key(), total);
    assert(s.drop_last().drop_last() =~= Seq::<Payout>::empty());
    reveal_with_fuel(sum_amounts, 3);
}

} // verus!
