//! A conditional custody vault: it holds a token balance for an owner and
//! releases it once a price condition is met, split between a referrer, the
//! protocol and the owner.

mod custody;
mod error;
mod fees;
mod key;
mod lifecycle;
mod record;
mod registry;
mod vault;

pub use custody::{apply_payouts, sum_amounts, Destination, Payout};
pub use error::CustomError;
pub use fees::{
    fee_split, lemma_split_conserves, lemma_unreferred_small_share, protocol_fee_of,
    protocol_share_of, referrer_fee_of, user_amount_of, FeeSplit,
};
pub use key::{zero_key, Pubkey};
pub use lifecycle::{
    cancel_payouts, cancel_tp, effective_price, execute_tp, execution_payouts, initialize,
    lemma_cancel_empty_moves_nothing, lemma_referred_execution_drains,
    lemma_unreferred_execution_skips_referrer, CancelTP, ExecuteTP, Initialize,
};
pub use record::{le_bytes, le_value, lemma_record_determined, lemma_record_round_trip, record_of};
pub use registry::Registry;
pub use vault::{vault_tag, Vault};
