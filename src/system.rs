//! The system module: the block counter and the per-account nonces.
use vstd::prelude::*;
use crate::store::StorageMap;

verus! {

/// Identifies an account.
pub type AccountId = String;

/// Counts the blocks executed so far.
pub type BlockNumber = u32;

/// Counts the calls made by one account.
pub type Nonce = u32;

/// The nonce of `who` in a nonce map: absent accounts have made no call.
pub open spec fn nonce_in(m: Map<Seq<char>, Nonce>, who: Seq<char>) -> Nonce {
    if m.contains_key(who) {
        m[who]
    } else {
        0
    }
}

/// State of the system module.
pub struct Pallet {
    block_number: BlockNumber,
    nonce: StorageMap<Nonce>,
}

impl Pallet {
    pub closed spec fn wf(&self) -> bool {
        self.nonce.wf()
    }

    /// The current block number.
    pub closed spec fn current_block(&self) -> BlockNumber {
        self.block_number
    }

    /// The stored nonces.
    pub closed spec fn nonces(&self) -> Map<Seq<char>, Nonce> {
        self.nonce@
    }

    /// The nonce of `who`, zero when none is stored.
    pub open spec fn nonce_of(&self, who: Seq<char>) -> Nonce {
        nonce_in(self.nonces(), who)
    }

    /// Creates the module with block number zero and no nonces.
    pub fn new() -> (r: Self)
        ensures
            r.wf(),
            r.current_block() == 0,
            r.nonces() == Map::<Seq<char>, Nonce>::empty(),
    {
        Pallet { block_number: 0, nonce: StorageMap::new() }
    }

    /// The current block number.
    pub fn block_number(&self) -> (r: BlockNumber)
        ensures
            r == self.current_block(),
    {
        self.block_number
    }

    /// The nonce of `who`, zero when the account has made no call.
    pub fn nonce(&self, who: &AccountId) -> (r: Nonce)
        requires
            self.wf(),
        ensures
            r == self.nonce_of(who@),
    {
        match self.nonce.get(who) {
            Some(n) => *n,
            None => 0,
        }
    }

    /// Increases the block number by one.
    pub fn inc_block_number(&mut self)
        requires
            old(self).current_block() < BlockNumber::MAX,
        ensures
            final(self).current_block() == old(self).current_block() + 1,
            final(self).nonces() == old(self).nonces(),
            final(self).wf() == old(self).wf(),
    {
        self.block_number = self.block_number + 1;
    }

    /// Increases the nonce of `who` by one.
    pub fn inc_nonce(&mut self, who: &AccountId)
        requires
            old(self).wf(),
            old(self).nonce_of(who@) < Nonce::MAX,
        ensures
            final(self).wf(),
            final(self).nonces() == old(self).nonces().insert(who@, (old(self).nonce_of(who@) + 1) as Nonce),
            final(self).current_block() == old(self).current_block(),
    {
        let val: Nonce = self.nonce(who);
        self.nonce.insert(who.clone(), val + 1);
    }
}

} // verus!
