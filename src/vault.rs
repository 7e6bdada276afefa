use vstd::prelude::*;

use crate::key::Pubkey;

verus! {

/// One take-profit order: who owns it, what it holds, and when it may be
/// released. The balance itself sits in a separate custodial account.
#[derive(Clone, Copy, Debug)]
pub struct Vault {
    pub owner: Pubkey,
    pub token_mint: Pubkey,
    pub target_price: u64,
    pub referrer: Pubkey,
    pub current_price: u64,
    pub ready_for_execution: bool,
}

/// The namespace tag from which each vault's transfer authority is derived:
/// the bytes of "vault".
pub open spec fn vault_tag() -> Seq<u8> {
    seq![118u8, 97u8, 117u8, 108u8, 116u8]
}

impl Vault {
    /// Stored size of a record: two keys, a price, a key, a price and a flag.
    pub const LEN: usize = 32 + 32 + 8 + 32 + 8 + 1;

    /// The seeds of this vault's transfer authority: the namespace tag and
    /// the owner's key. Only this vault's custodial account answers to them.
    pub fn seeds(&self) -> (r: Vec<Vec<u8>>)
        ensures
            r@.len() == 2,
            r@[0]@ == vault_tag(),
            r@[1]@ == self.owner@,
    {
        let tag: Vec<u8> = vec![118u8, 97u8, 117u8, 108u8, 116u8];
        let mut owner: Vec<u8> = Vec::new();
        let mut i: usize = 0;
        while i < 32
            invariant
                0 <= i <= 32,
                self.owner@.len() == 32,
                owner@ == self.owner@.subrange(0, i as int),
            decreases 32 - i,
        {
            owner.push(self.owner.bytes[i]);
            i = i + 1;
        }
        assert(owner@ =~= self.owner@);
        assert(tag@ =~= vault_tag());
        let mut r: Vec<Vec<u8>> = Vec::new();
        r.push(tag);
        r.push(owner);
        r
    }
}

} // verus!
