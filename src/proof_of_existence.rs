//! The proof-of-existence module: accounts claim pieces of content, and each
//! piece of content has at most one owner.
use vstd::prelude::*;
use crate::store::StorageMap;
use crate::support::{Dispatch, DispatchError, DispatchResult};
use crate::system::AccountId;

verus! {

/// Content that can be claimed, such as the content itself or its hash.
pub type Content = String;

/// The result of claiming `content` for `caller`.
pub open spec fn create_outcome(m: Map<Seq<char>, Seq<char>>, content: Seq<char>) -> DispatchResult {
    if m.contains_key(content) {
        Err(DispatchError::ClaimAlreadyExists)
    } else {
        Ok(())
    }
}

/// The claims after claiming `content` for `caller`.
pub open spec fn create_effect(
    m: Map<Seq<char>, Seq<char>>,
    caller: Seq<char>,
    content: Seq<char>,
) -> Map<Seq<char>, Seq<char>> {
    if m.contains_key(content) {
        m
    } else {
        m.insert(content, caller)
    }
}

/// The result of revoking the claim on `content` for `caller`.
pub open spec fn revoke_outcome(
    m: Map<Seq<char>, Seq<char>>,
    caller: Seq<char>,
    content: Seq<char>,
) -> DispatchResult {
    if !m.contains_key(content) {
        Err(DispatchError::ClaimNotFound)
    } else if m[content] != caller {
        Err(DispatchError::ClaimOwnerMismatch)
    } else {
        Ok(())
    }
}

/// The claims after revoking the claim on `content` for `caller`.
pub open spec fn revoke_effect(
    m: Map<Seq<char>, Seq<char>>,
    caller: Seq<char>,
    content: Seq<char>,
) -> Map<Seq<char>, Seq<char>> {
    if revoke_outcome(m, caller, content) is Ok {
        m.remove(content)
    } else {
        m
    }
}

/// The calls that the proof-of-existence module offers.
pub enum Call {
    CreateClaim { claim: Content },
    RevokeClaim { claim: Content },
}

/// The result of dispatching `call` for `caller`.
pub open spec fn call_outcome(m: Map<Seq<char>, Seq<char>>, caller: Seq<char>, call: Call) -> DispatchResult {
    match call {
        Call::CreateClaim { claim } => create_outcome(m, claim@),
        Call::RevokeClaim { claim } => revoke_outcome(m, caller, claim@),
    }
}

/// The claims after dispatching `call` for `caller`.
pub open spec fn call_effect(m: Map<Seq<char>, Seq<char>>, caller: Seq<char>, call: Call) -> Map<
    Seq<char>,
    Seq<char>,
> {
    match call {
        Call::CreateClaim { claim } => create_effect(m, caller, claim@),
        Call::RevokeClaim { claim } => revoke_effect(m, caller, claim@),
    }
}

/// Claiming unclaimed content records the caller as its owner; claiming it
/// again fails with `ClaimAlreadyExists`; the owner's revocation then
/// succeeds and leaves the content unclaimed.
pub proof fn lemma_claim_round_trip(m: Map<Seq<char>, Seq<char>>, caller: Seq<char>, content: Seq<char>)
    requires
        !m.contains_key(content),
    ensures
        create_outcome(m, content) is Ok,
        ({
            let claimed = create_effect(m, caller, content);
            &&& claimed.contains_key(content) && claimed[content] == caller
            &&& create_outcome(claimed, content) == Err::<(), DispatchError>(DispatchError::ClaimAlreadyExists)
            &&& create_effect(claimed, caller, content) == claimed
            &&& revoke_outcome(claimed, caller, content) is Ok
            &&& !revoke_effect(claimed, caller, content).contains_key(content)
        }),
{
}

/// Only the owner can revoke a claim: anyone else fails with
/// `ClaimOwnerMismatch`, and unclaimed content fails with `ClaimNotFound`;
/// neither changes the claims.
pub proof fn lemma_revoke_needs_owner(m: Map<Seq<char>, Seq<char>>, caller: Seq<char>, content: Seq<char>)
    ensures
        m.contains_key(content) && m[content] != caller ==> revoke_outcome(m, caller, content)
            == Err::<(), DispatchError>(DispatchError::ClaimOwnerMismatch),
        !m.contains_key(content) ==> revoke_outcome(m, caller, content) == Err::<(), DispatchError>(
            DispatchError::ClaimNotFound,
        ),
        revoke_outcome(m, caller, content) is Err ==> revoke_effect(m, caller, content) == m,
{
}

/// State of the proof-of-existence module.
pub struct Pallet {
    claims: StorageMap<AccountId>,
}

impl Pallet {
    pub closed spec fn wf(&self) -> bool {
        self.claims.wf()
    }

    /// The owner of each claimed piece of content.
    pub closed spec fn claims(&self) -> Map<Seq<char>, Seq<char>> {
        self.claims@.map_values(|owner: AccountId| owner@)
    }

    /// Creates the module with no claim.
    pub fn new() -> (r: Self)
        ensures
            r.wf(),
            r.claims() == Map::<Seq<char>, Seq<char>>::empty(),
    {
        let r = Pallet { claims: StorageMap::new() };
        assert(r.claims() =~= Map::<Seq<char>, Seq<char>>::empty());
        r
    }

    /// Number of claimed pieces of content.
    pub fn claim_count(&self) -> (r: usize)
        requires
            self.wf(),
        ensures
            r == self.claims().len(),
    {
        assert(self.claims().dom() =~= self.claims@.dom());
        self.claims.len()
    }

    /// The owner of `claim`, if it is claimed.
    pub fn get_claim(&self, claim: &Content) -> (r: Option<&AccountId>)
        requires
            self.wf(),
        ensures
            match r {
                Some(owner) => self.claims().contains_key(claim@) && owner@ == self.claims()[claim@],
                None => !self.claims().contains_key(claim@),
            },
    {
        self.claims.get(claim)
    }

    /// Claims `claim` for `caller`. Fails when it is already claimed.
    pub fn create_claim(&mut self, caller: AccountId, claim: Content) -> (r: DispatchResult)
        requires
            old(self).wf(),
        ensures
            final(self).wf(),
            r == create_outcome(old(self).claims(), claim@),
            final(self).claims() == create_effect(old(self).claims(), caller@, claim@),
    {
        if self.get_claim(&claim).is_some() {
            return Err(DispatchError::ClaimAlreadyExists);
        }
        let ghost content = claim@;
        let ghost owner = caller@;
        self.claims.insert(claim, caller);
        assert(self.claims() =~= old(self).claims().insert(content, owner));
        Ok(())
    }

    /// Revokes the claim on `claim`. Fails when it is not claimed, or is
    /// claimed by an account other than `caller`.
    pub fn revoke_claim(&mut self, caller: AccountId, claim: Content) -> (r: DispatchResult)
        requires
            old(self).wf(),
        ensures
            final(self).wf(),
            r == revoke_outcome(old(self).claims(), caller@, claim@),
            final(self).claims() == revoke_effect(old(self).claims(), caller@, claim@),
    {
        match self.get_claim(&claim) {
            None => {
                return Err(DispatchError::ClaimNotFound);
            },
            Some(owner) => {
                if *owner != caller {
                    return Err(DispatchError::ClaimOwnerMismatch);
                }
            },
        }
        self.claims.remove(&claim);
        assert(self.claims() =~= old(self).claims().remove(claim@));
        Ok(())
    }

}

impl Dispatch for Pallet {
    type Caller = AccountId;

    type Call = Call;

    open spec fn dispatch_ready(&self) -> bool {
        self.wf()
    }

    open spec fn dispatched(&self, caller: AccountId, call: Call, after: Self, r: DispatchResult) -> bool {
        &&& r == call_outcome(self.claims(), caller@, call)
        &&& after.claims() == call_effect(self.claims(), caller@, call)
    }

    fn dispatch(&mut self, caller: AccountId, call: Call) -> (r: DispatchResult) {
        match call {
            Call::CreateClaim { claim } => self.create_claim(caller, claim),
            Call::RevokeClaim { claim } => self.revoke_claim(caller, claim),
        }
    }
}

} // verus!
