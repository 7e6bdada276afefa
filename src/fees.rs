use vstd::prelude::*;

verus! {

/// The protocol's fee: one percent of the balance, rounded down.
pub open spec fn protocol_fee_of(total: int) -> int {
    total / 100
}

/// The referrer's cut: a tenth of the protocol fee, rounded down.
pub open spec fn referrer_fee_of(total: int) -> int {
    protocol_fee_of(total) / 10
}

/// What the protocol keeps of its fee once the referrer's cut is taken out.
pub open spec fn protocol_share_of(total: int) -> int {
    protocol_fee_of(total) - referrer_fee_of(total)
}

/// What goes back to the owner: the balance less the protocol fee.
pub open spec fn user_amount_of(total: int) -> int {
    total - protocol_fee_of(total)
}

/// How a released balance is divided.
#[derive(Clone, Copy, Debug, PartialEq, Eq, Structural)]
pub struct FeeSplit {
    pub protocol_fee: u64,
    pub referrer_fee: u64,
    pub protocol_share: u64,
    pub user_amount: u64,
}

/// Divides `total` into the protocol fee, the referrer's cut of it, the
/// protocol's share and the owner's amount.
pub fn fee_split(total: u64) -> (r: FeeSplit)
    ensures
        r.protocol_fee == protocol_fee_of(total as int),
        r.referrer_fee == referrer_fee_of(total as int),
        r.protocol_share == protocol_share_of(total as int),
        r.user_amount == user_amount_of(total as int),
        r.referrer_fee + r.protocol_share + r.user_amount == total,
{
    let protocol_fee = total / 100;
    let referrer_fee = protocol_fee / 10;
    let protocol_share = protocol_fee - referrer_fee;
    let user_amount = total - protocol_fee;
    FeeSplit { protocol_fee, referrer_fee, protocol_share, user_amount }
}

/// Nothing is lost to rounding: the referrer's cut, the protocol's share and
/// the owner's amount add up to the whole balance, and none is negative.
pub proof fn lemma_split_conserves(total: u64)
    ensures
        referrer_fee_of(total as int) + protocol_share_of(total as int) + user_amount_of(
            total as int,
        ) == total,
        0 <= referrer_fee_of(total as int) <= protocol_fee_of(total as int) <= total,
        0 <= protocol_share_of(total as int),
        0 <= user_amount_of(total as int) <= total,
{
}

/// Below a thousand units the referrer's cut rounds down to zero, so the
/// protocol keeps its whole fee.
pub proof fn lemma_unreferred_small_share(total: u64)
    requires
        total < 1000,
    ensures
        referrer_fee_of(total as int) == 0,
        protocol_share_of(total as int) == protocol_fee_of(total as int),
{
}

} // verus!
