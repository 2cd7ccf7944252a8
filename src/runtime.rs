//! The runtime: one instance of each module, the routing of calls to them,
//! and the execution of blocks.
use vstd::prelude::*;
use crate::balances;
use crate::balances::Balance;
use crate::proof_of_existence;
use crate::support::{Dispatch, DispatchError, DispatchResult};
use crate::system;
use crate::system::{AccountId, BlockNumber, Nonce};

verus! {

/// Every call that the runtime offers, tagged with the module that serves it.
pub enum RuntimeCall {
    Balances(balances::Call),
    ProofOfExistence(proof_of_existence::Call),
}

/// A call made on behalf of an account.
pub type Extrinsic = crate::support::Extrinsic<AccountId, RuntimeCall>;

/// The header of a block of this runtime.
pub type Header = crate::support::Header<BlockNumber>;

/// A block of this runtime.
pub type Block = crate::support::Block<Header, Extrinsic>;

/// The result of dispatching `call` for `caller` on balances `b` and claims `c`.
pub open spec fn dispatch_outcome(
    b: Map<Seq<char>, Balance>,
    c: Map<Seq<char>, Seq<char>>,
    caller: Seq<char>,
    call: RuntimeCall,
) -> DispatchResult {
    match call {
        RuntimeCall::Balances(cl) => balances::call_outcome(b, caller, cl),
        RuntimeCall::ProofOfExistence(cl) => proof_of_existence::call_outcome(c, caller, cl),
    }
}

/// The balances after dispatching `call` for `caller`.
pub open spec fn balances_step(b: Map<Seq<char>, Balance>, caller: Seq<char>, call: RuntimeCall) -> Map<
    Seq<char>,
    Balance,
> {
    match call {
        RuntimeCall::Balances(cl) => balances::call_effect(b, caller, cl),
        RuntimeCall::ProofOfExistence(_) => b,
    }
}

/// The claims after dispatching `call` for `caller`.
pub open spec fn claims_step(c: Map<Seq<char>, Seq<char>>, caller: Seq<char>, call: RuntimeCall) -> Map<
    Seq<char>,
    Seq<char>,
> {
    match call {
        RuntimeCall::Balances(_) => c,
        RuntimeCall::ProofOfExistence(cl) => proof_of_existence::call_effect(c, caller, cl),
    }
}

/// The balances after dispatching the calls of `xs` in order.
pub open spec fn balances_after(b: Map<Seq<char>, Balance>, xs: Seq<Extrinsic>) -> Map<Seq<char>, Balance>
    decreases xs.len(),
{
    if xs.len() == 0 {
        b
    } else {
        balances_step(balances_after(b, xs.drop_last()), xs.last().caller@, xs.last().call)
    }
}

/// The claims after dispatching the calls of `xs` in order.
pub open spec fn claims_after(c: Map<Seq<char>, Seq<char>>, xs: Seq<Extrinsic>) -> Map<Seq<char>, Seq<char>>
    decreases xs.len(),
{
    if xs.len() == 0 {
        c
    } else {
        claims_step(claims_after(c, xs.drop_last()), xs.last().caller@, xs.last().call)
    }
}

/// The result of the `i`-th call of `xs`, dispatched after the calls before it.
pub open spec fn outcome_at(
    b: Map<Seq<char>, Balance>,
    c: Map<Seq<char>, Seq<char>>,
    xs: Seq<Extrinsic>,
    i: int,
) -> DispatchResult {
    dispatch_outcome(
        balances_after(b, xs.take(i)),
        claims_after(c, xs.take(i)),
        xs[i].caller@,
        xs[i].call,
    )
}

/// How many of the calls of `xs` are made by `who`.
pub open spec fn calls_by(xs: Seq<Extrinsic>, who: Seq<char>) -> nat
    decreases xs.len(),
{
    if xs.len() == 0 {
        0
    } else {
        calls_by(xs.drop_last(), who) + if xs.last().caller@ == who {
            1nat
        } else {
            0nat
        }
    }
}

/// A prefix of a sequence of calls holds no more calls by an account than
/// the whole sequence.
pub proof fn lemma_calls_by_prefix(xs: Seq<Extrinsic>, i: int, who: Seq<char>)
    requires
        0 <= i <= xs.len(),
    ensures
        calls_by(xs.take(i), who) <= calls_by(xs, who),
    decreases xs.len(),
{
    if i < xs.len() {
        assert(xs.drop_last().take(i) =~= xs.take(i));
        lemma_calls_by_prefix(xs.drop_last(), i, who);
    } else {
        assert(xs.take(i) =~= xs);
    }
}

/// The calls by an account in two consecutive sequences add up.
pub proof fn lemma_calls_by_concat(xs: Seq<Extrinsic>, ys: Seq<Extrinsic>, who: Seq<char>)
    ensures
        calls_by(xs + ys, who) == calls_by(xs, who) + calls_by(ys, who),
    decreases ys.len(),
{
    if ys.len() == 0 {
        assert(xs + ys =~= xs);
    } else {
        assert((xs + ys).drop_last() =~= xs + ys.drop_last());
        lemma_calls_by_concat(xs, ys.drop_last(), who);
    }
}

/// Over any number of executed blocks, starting from an account that has
/// made no call, the account's nonce is the number of calls it made in them.
/// `states[k + 1]` is the runtime after executing a block from `states[k]`,
/// as `execute_block` states it; `blocks[k]` holds that block's calls when it
/// was accepted, and is empty when it was rejected, since a rejected block
/// changes no nonce.
pub proof fn lemma_nonce_counts_calls(states: Seq<Runtime>, blocks: Seq<Seq<Extrinsic>>, who: Seq<char>)
    requires
        states.len() == blocks.len() + 1,
        states[0].sys.nonce_of(who) == 0,
        forall|k: int|
            0 <= k < blocks.len() ==> #[trigger] states[k + 1].sys.nonce_of(who) == states[k].sys.nonce_of(
                who,
            ) + calls_by(blocks[k], who),
    ensures
        states.last().sys.nonce_of(who) == calls_by(blocks.flatten(), who),
    decreases blocks.len(),
{
    blocks.lemma_flatten_and_flatten_alt_are_equivalent();
    if blocks.len() == 0 {
        assert(calls_by(blocks.flatten(), who) == 0);
    } else {
        let k = blocks.len() - 1;
        let earlier = states.drop_last();
        assert forall|j: int| 0 <= j < blocks.drop_last().len() implies #[trigger] earlier[j + 1].sys.nonce_of(who)
            == earlier[j].sys.nonce_of(who) + calls_by(blocks.drop_last()[j], who) by {
            assert(states[j + 1].sys.nonce_of(who) == states[j].sys.nonce_of(who) + calls_by(blocks[j], who));
        }
        lemma_nonce_counts_calls(earlier, blocks.drop_last(), who);
        blocks.drop_last().lemma_flatten_and_flatten_alt_are_equivalent();
        lemma_calls_by_concat(blocks.drop_last().flatten(), blocks.last(), who);
        assert(states[k + 1].sys.nonce_of(who) == states[k].sys.nonce_of(who) + calls_by(blocks[k], who));
    }
}

/// The runtime: the system, balances and proof-of-existence modules.
pub struct Runtime {
    pub sys: system::Pallet,
    pub bal: balances::Pallet,
    pub poe: proof_of_existence::Pallet,
}

impl Runtime {
    /// Every module is well formed.
    pub open spec fn wf(&self) -> bool {
        &&& self.sys.wf()
        &&& self.bal.wf()
        &&& self.poe.wf()
    }

    /// Creates the runtime with every module empty and block number zero.
    pub fn new() -> (r: Self)
        ensures
            r.wf(),
            r.sys.current_block() == 0,
            r.sys.nonces() == Map::<Seq<char>, Nonce>::empty(),
            r.bal.balances() == Map::<Seq<char>, Balance>::empty(),
            r.poe.claims() == Map::<Seq<char>, Seq<char>>::empty(),
    {
        Runtime {
            sys: system::Pallet::new(),
            bal: balances::Pallet::new(),
            poe: proof_of_existence::Pallet::new(),
        }
    }

    /// Executes a block. The block number goes up by one first; a block
    /// whose header does not carry the new number is rejected and none of its
    /// calls runs. Otherwise each call runs in order: the caller's nonce goes
    /// up by one, then the call is dispatched. A failing call changes nothing
    /// and does not stop the block. The result holds each call's outcome,
    /// in order.
    pub fn execute_block(&mut self, block: Block) -> (r: Result<Vec<DispatchResult>, DispatchError>)
        requires
            old(self).wf(),
            old(self).sys.current_block() < BlockNumber::MAX,
            block.header.block_number == old(self).sys.current_block() + 1 ==> forall|who: Seq<char>|
                #[trigger] old(self).sys.nonce_of(who) + calls_by(block.extrinsics@, who) <= Nonce::MAX,
        ensures
            final(self).wf(),
            final(self).sys.current_block() == old(self).sys.current_block() + 1,
            block.header.block_number != old(self).sys.current_block() + 1 ==> {
                &&& r == Err::<Vec<DispatchResult>, DispatchError>(DispatchError::BlockNumberMismatch)
                &&& final(self).sys.nonces() == old(self).sys.nonces()
                &&& final(self).bal.balances() == old(self).bal.balances()
                &&& final(self).poe.claims() == old(self).poe.claims()
            },
            block.header.block_number == old(self).sys.current_block() + 1 ==> {
                &&& r is Ok
                &&& r->Ok_0@.len() == block.extrinsics@.len()
                &&& forall|i: int|
                    0 <= i < block.extrinsics@.len() ==> #[trigger] r->Ok_0@[i] == outcome_at(
                        old(self).bal.balances(),
                        old(self).poe.claims(),
                        block.extrinsics@,
                        i,
                    )
                &&& forall|who: Seq<char>|
                    #[trigger] final(self).sys.nonce_of(who) == old(self).sys.nonce_of(who) + calls_by(
                        block.extrinsics@,
                        who,
                    )
                &&& final(self).bal.balances() == balances_after(old(self).bal.balances(), block.extrinsics@)
                &&& final(self).poe.claims() == claims_after(old(self).poe.claims(), block.extrinsics@)
            },
    {
        let ghost b0 = self.bal.balances();
        let ghost c0 = self.poe.claims();
        let ghost s0 = self.sys;
        self.sys.inc_block_number();
        if block.header.block_number != self.sys.block_number() {
            return Err(DispatchError::BlockNumberMismatch);
        }
        let ghost xs = block.extrinsics@;
        // Reverse the calls so that popping yields them in block order.
        let mut pending = block.extrinsics;
        let total: usize = pending.len();
        assert(xs.len() == total);
        let mut stack: Vec<Extrinsic> = Vec::new();
        while pending.len() > 0
            invariant
                xs.len() == total,
                pending@ == xs.take(pending@.len() as int),
                pending@.len() <= total,
                stack@.len() == total - pending@.len(),
                forall|j: int| 0 <= j < stack@.len() ==> #[trigger] stack@[j] == xs[total - 1 - j],
            decreases pending@.len(),
        {
            let x = pending.pop().unwrap();
            stack.push(x);
            assert(pending@ =~= xs.take(pending@.len() as int));
        }
        let mut outcomes: Vec<DispatchResult> = Vec::new();
        let mut i: usize = 0;
        while stack.len() > 0
            invariant
                xs.len() == total,
                i + stack@.len() == total,
                forall|j: int| 0 <= j < stack@.len() ==> #[trigger] stack@[j] == xs[total - 1 - j],
                self.wf(),
                self.sys.current_block() == s0.current_block() + 1,
                self.bal.balances() == balances_after(b0, xs.take(i as int)),
                self.poe.claims() == claims_after(c0, xs.take(i as int)),
                forall|who: Seq<char>|
                    #[trigger] self.sys.nonce_of(who) == s0.nonce_of(who) + calls_by(xs.take(i as int), who),
                forall|who: Seq<char>| #[trigger] s0.nonce_of(who) + calls_by(xs, who) <= Nonce::MAX,
                outcomes@.len() == i,
                forall|j: int| 0 <= j < i ==> #[trigger] outcomes@[j] == outcome_at(b0, c0, xs, j),
            decreases stack@.len(),
        {
            let ghost before = xs.take(i as int);
            let ghost after = xs.take(i + 1);
            let x = stack.pop().unwrap();
            assert(x == xs[i as int]);
            assert(after.drop_last() =~= before);
            proof {
                lemma_calls_by_prefix(xs, i + 1, x.caller@);
            }
            let ghost sys_before = self.sys;
            self.sys.inc_nonce(&x.caller);
            assert forall|who: Seq<char>|
                #[trigger] self.sys.nonce_of(who) == s0.nonce_of(who) + calls_by(after, who) by {
                assert(sys_before.nonce_of(who) == s0.nonce_of(who) + calls_by(before, who));
            }
            let r = self.dispatch(x.caller, x.call);
            outcomes.push(r);
            i = i + 1;
        }
        assert(xs.take(total as int) =~= xs);
        Ok(outcomes)
    }
}

impl Dispatch for Runtime {
    type Caller = AccountId;

    type Call = RuntimeCall;

    open spec fn dispatch_ready(&self) -> bool {
        self.wf()
    }

    /// The call goes to the module that serves it; the other modules and the
    /// system state do not change.
    open spec fn dispatched(&self, caller: AccountId, call: RuntimeCall, after: Self, r: DispatchResult) -> bool {
        &&& r == dispatch_outcome(self.bal.balances(), self.poe.claims(), caller@, call)
        &&& after.bal.balances() == balances_step(self.bal.balances(), caller@, call)
        &&& after.poe.claims() == claims_step(self.poe.claims(), caller@, call)
        &&& after.sys == self.sys
    }

    fn dispatch(&mut self, caller: AccountId, runtime_call: RuntimeCall) -> (r: DispatchResult) {
        match runtime_call {
            RuntimeCall::Balances(call) => self.bal.dispatch(caller, call),
            RuntimeCall::ProofOfExistence(call) => self.poe.dispatch(caller, call),
        }
    }
}

} // verus!
