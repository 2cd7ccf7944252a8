//! Types shared by every module: the error kinds, the result of a dispatched
//! call, and the envelope types that carry calls into a block.
use vstd::prelude::*;

verus! {

/// The ways in which a call or a block can fail.
#[derive(Clone, Copy, Debug, PartialEq, Eq, Structural)]
pub enum DispatchError {
    /// The sender's balance is below the amount to transfer.
    InsufficientFunds,
    /// The receiver's balance would exceed the largest representable balance.
    BalanceOverflow,
    /// The content has already been claimed.
    ClaimAlreadyExists,
    /// The content to revoke has not been claimed.
    ClaimNotFound,
    /// The content to revoke is claimed by another account.
    ClaimOwnerMismatch,
    /// The block's declared number is not the next block number.
    BlockNumberMismatch,
}

/// The message that describes each error kind.
pub open spec fn message_of(e: DispatchError) -> Seq<char> {
    match e {
        DispatchError::InsufficientFunds => "Not enough funds."@,
        DispatchError::BalanceOverflow => "Maximum amount of funds reached"@,
        DispatchError::ClaimAlreadyExists => "this content has already been claimed"@,
        DispatchError::ClaimNotFound => "claim does not exist"@,
        DispatchError::ClaimOwnerMismatch => "claim does not belong to caller"@,
        DispatchError::BlockNumberMismatch => "incoming block number doesn't match with system block number"@,
    }
}

impl DispatchError {
    /// A human-readable description of the error.
    pub fn message(&self) -> (r: &'static str)
        ensures
            r@ == message_of(*self),
    {
        match self {
            DispatchError::InsufficientFunds => "Not enough funds.",
            DispatchError::BalanceOverflow => "Maximum amount of funds reached",
            DispatchError::ClaimAlreadyExists => "this content has already been claimed",
            DispatchError::ClaimNotFound => "claim does not exist",
            DispatchError::ClaimOwnerMismatch => "claim does not belong to caller",
            DispatchError::BlockNumberMismatch => "incoming block number doesn't match with system block number",
        }
    }
}

/// The outcome of dispatching one call.
pub type DispatchResult = Result<(), DispatchError>;

/// The header of a block: the number that the block claims to have.
pub struct Header<BlockNumber> {
    pub block_number: BlockNumber,
}

/// A call together with the account on whose behalf it is made.
pub struct Extrinsic<Caller, Call> {
    pub caller: Caller,
    pub call: Call,
}

/// A header and the calls to execute, in order.
pub struct Block<Header, Extrinsic> {
    pub header: Header,
    pub extrinsics: Vec<Extrinsic>,
}

/// Routes a call to the code that serves it. Each module implements it for
/// its own calls, and the runtime for calls of every module.
pub trait Dispatch: Sized {
    /// Who makes the call.
    type Caller;

    /// The calls that can be routed.
    type Call;

    /// The state in which a call can be dispatched.
    spec fn dispatch_ready(&self) -> bool;

    /// What dispatching `call` for `caller` does: `after` is the state that
    /// follows, and `r` the result.
    spec fn dispatched(&self, caller: Self::Caller, call: Self::Call, after: Self, r: DispatchResult) -> bool;

    /// Executes `call` on behalf of `caller`.
    fn dispatch(&mut self, caller: Self::Caller, call: Self::Call) -> (r: DispatchResult)
        requires
            old(self).dispatch_ready(),
        ensures
            final(self).dispatch_ready(),
            old(self).dispatched(caller, call, *final(self), r),
    ;
}

} // verus!
