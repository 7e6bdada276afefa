use vstd::prelude::*;

use crate::error::CustomError;
use crate::key::Pubkey;
use crate::lifecycle::{initialize, Initialize};
use crate::vault::Vault;

verus! {

/// The vault records, at most one per owner: a vault's address is derived
/// from its owner's key alone.
pub struct Registry {
    vaults: Vec<Vault>,
}

impl View for Registry {
    type V = Seq<Vault>;

    closed spec fn view(&self) -> Seq<Vault> {
        self.vaults@
    }
}

impl Registry {
    /// No two records share an owner.
    pub open spec fn wf(&self) -> bool {
        forall|i: int, j: int|
            0 <= i < j < self@.len() ==> self@[i].owner@ != self@[j].owner@
    }

    /// Whether a record of this owner is kept.
    pub open spec fn has_owner(&self, owner: Seq<u8>) -> bool {
        exists|i: int| 0 <= i < self@.len() && self@[i].owner@ == owner
    }

    /// A registry with no records.
    pub fn new() -> (r: Registry)
        ensures
            r.wf(),
            r@.len() == 0,
    {
        Registry { vaults: Vec::new() }
    }

    fn position(&self, owner: &Pubkey) -> (r: Option<usize>)
        ensures
            r is None ==> !self.has_owner(owner@),
            r is Some ==> r->Some_0 < self@.len() && self@[r->Some_0 as int].owner@ == owner@,
    {
        let mut i: usize = 0;
        while i < self.vaults.len()
            invariant
                0 <= i <= self@.len(),
                self@ == self.vaults@,
                forall|j: int| 0 <= j < i ==> self@[j].owner@ != owner@,
            decreases self@.len() - i,
        {
            if self.vaults[i].owner.key_eq(owner) {
                return Some(i);
            }
            i = i + 1;
        }
        None
    }

    /// Records a new vault for the signing owner, unless one is already kept
    /// for that owner.
    pub fn create(&mut self, ctx: &Initialize, target_price: u64, referrer: Pubkey) -> (r: Result<
        (),
        CustomError,
    >)
        requires
            old(self).wf(),
        ensures
            final(self).wf(),
            old(self).has_owner(ctx.owner@) ==> r == Err::<(), CustomError>(
                CustomError::AlreadyExists,
            ) && final(self)@ == old(self)@,
            !old(self).has_owner(ctx.owner@) ==> r == Ok::<(), CustomError>(()) && final(self)@
                == old(self)@.push(
                (Vault {
                    owner: ctx.owner,
                    token_mint: ctx.token_mint,
                    target_price: target_price,
                    referrer: referrer,
                    current_price: 0,
                    ready_for_execution: false,
                }),
            ),
    {
        if self.position(&ctx.owner).is_some() {
            return Err(CustomError::AlreadyExists);
        }
        let vault = initialize(ctx, target_price, referrer);
        self.vaults.push(vault);
        proof {
            assert forall|i: int, j: int| 0 <= i < j < self@.len() implies self@[i].owner@
                != self@[j].owner@ by {
                if j == self@.len() - 1 {
                    assert(old(self)@[i].owner@ != ctx.owner@);
                }
            }
        }
        Ok(())
    }

    /// The record of this owner's vault.
    pub fn load(&self, owner: &Pubkey) -> (r: Result<Vault, CustomError>)
        requires
            self.wf(),
        ensures
            !self.has_owner(owner@) ==> r == Err::<Vault, CustomError>(CustomError::NotFound),
            self.has_owner(owner@) ==> r is Ok && exists|i: int|
                0 <= i < self@.len() && self@[i].owner@ == owner@ && r->Ok_0 == self@[i],
    {
        match self.position(owner) {
            Some(i) => Ok(self.vaults[i]),
            None => Err(CustomError::NotFound),
        }
    }

    /// Writes back a vault already recorded for its owner; the record is
    /// replaced, its owner and mint kept.
    pub fn store(&mut self, vault: Vault) -> (r: Result<(), CustomError>)
        requires
            old(self).wf(),
        ensures
            final(self).wf(),
            !old(self).has_owner(vault.owner@) ==> r == Err::<(), CustomError>(
                CustomError::NotFound,
            ) && final(self)@ == old(self)@,
            old(self).has_owner(vault.owner@) ==> r == Ok::<(), CustomError>(()) && exists|
                i: int,
            |
                0 <= i < old(self)@.len() && old(self)@[i].owner@ == vault.owner@ && final(self)@
                    == old(self)@.update(
                    i,
                    (Vault {
                        owner: old(self)@[i].owner,
                        token_mint: old(self)@[i].token_mint,
                        ..vault
                    }),
                ),
    {
        match self.position(&vault.owner) {
            Some(i) => {
                let kept = self.vaults[i];
                self.vaults.set(i, Vault { owner: kept.owner, token_mint: kept.token_mint, ..vault });
                Ok(())
            },
            None => Err(CustomError::NotFound),
        }
    }
}

} // verus!
