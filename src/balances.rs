//! The balances module: how much each account holds, and transfers between
//! accounts with checked arithmetic.
use vstd::prelude::*;
use crate::store::StorageMap;
use crate::support::{Dispatch, DispatchError, DispatchResult};
use crate::system::AccountId;

verus! {

/// An amount of funds.
pub type Balance = u128;

/// The balance of `who` in a balance map: absent accounts hold zero.
pub open spec fn balance_in(m: Map<Seq<char>, Balance>, who: Seq<char>) -> Balance {
    if m.contains_key(who) {
        m[who]
    } else {
        0
    }
}

/// The result of a transfer, judged on the balances before it.
pub open spec fn transfer_outcome(
    m: Map<Seq<char>, Balance>,
    from: Seq<char>,
    to: Seq<char>,
    amount: Balance,
) -> DispatchResult {
    if amount > balance_in(m, from) {
        Err(DispatchError::InsufficientFunds)
    } else if balance_in(m, to) + amount > Balance::MAX {
        Err(DispatchError::BalanceOverflow)
    } else {
        Ok(())
    }
}

/// The balances after a transfer: `amount` leaves the sender and reaches the
/// receiver. A transfer from an account to itself, and a failed transfer,
/// change nothing.
pub open spec fn transfer_effect(
    m: Map<Seq<char>, Balance>,
    from: Seq<char>,
    to: Seq<char>,
    amount: Balance,
) -> Map<Seq<char>, Balance> {
    if transfer_outcome(m, from, to, amount) is Ok && from != to {
        m.insert(from, (balance_in(m, from) - amount) as Balance).insert(
            to,
            (balance_in(m, to) + amount) as Balance,
        )
    } else {
        m
    }
}

/// The calls that the balances module offers.
pub enum Call {
    Transfer { to: AccountId, amount: Balance },
}

/// The result of dispatching `call` for `caller`.
pub open spec fn call_outcome(m: Map<Seq<char>, Balance>, caller: Seq<char>, call: Call) -> DispatchResult {
    match call {
        Call::Transfer { to, amount } => transfer_outcome(m, caller, to@, amount),
    }
}

/// The balances after dispatching `call` for `caller`.
pub open spec fn call_effect(m: Map<Seq<char>, Balance>, caller: Seq<char>, call: Call) -> Map<
    Seq<char>,
    Balance,
> {
    match call {
        Call::Transfer { to, amount } => transfer_effect(m, caller, to@, amount),
    }
}

/// An account with no stored balance holds zero.
pub proof fn lemma_absent_balance_is_zero(m: Map<Seq<char>, Balance>, who: Seq<char>)
    requires
        !m.contains_key(who),
    ensures
        balance_in(m, who) == 0,
{
}

/// A successful transfer keeps the total of the sender's and the receiver's
/// balances. Between two distinct accounts it moves exactly `amount` from the
/// sender to the receiver; from an account to itself it changes no balance.
pub proof fn lemma_transfer_conserves(
    m: Map<Seq<char>, Balance>,
    from: Seq<char>,
    to: Seq<char>,
    amount: Balance,
)
    requires
        transfer_outcome(m, from, to, amount) is Ok,
    ensures
        ({
            let after = transfer_effect(m, from, to, amount);
            &&& balance_in(after, from) + balance_in(after, to) == balance_in(m, from) + balance_in(m, to)
            &&& from != to ==> balance_in(after, from) == balance_in(m, from) - amount
            &&& from != to ==> balance_in(after, to) == balance_in(m, to) + amount
            &&& from == to ==> after == m
        }),
{
}

/// A transfer of more than the sender holds fails with `InsufficientFunds`
/// and changes no balance.
pub proof fn lemma_transfer_insufficient(
    m: Map<Seq<char>, Balance>,
    from: Seq<char>,
    to: Seq<char>,
    amount: Balance,
)
    requires
        amount > balance_in(m, from),
    ensures
        transfer_outcome(m, from, to, amount) == Err::<(), DispatchError>(DispatchError::InsufficientFunds),
        transfer_effect(m, from, to, amount) == m,
{
}

/// A transfer that the sender can cover, but that would take the receiver
/// past the largest balance, fails with `BalanceOverflow` and changes no
/// balance.
pub proof fn lemma_transfer_overflow(
    m: Map<Seq<char>, Balance>,
    from: Seq<char>,
    to: Seq<char>,
    amount: Balance,
)
    requires
        amount <= balance_in(m, from),
        balance_in(m, to) + amount > Balance::MAX,
    ensures
        transfer_outcome(m, from, to, amount) == Err::<(), DispatchError>(DispatchError::BalanceOverflow),
        transfer_effect(m, from, to, amount) == m,
{
}

/// Relies on num's `CheckedSub::checked_sub` for `u128`: the difference when
/// it is not negative, `None` otherwise.
#[verifier::external_body]
fn checked_sub(a: Balance, b: Balance) -> (r: Option<Balance>)
    ensures
        r == (if a >= b { Some((a - b) as Balance) } else { None::<Balance> }),
{
    num::traits::CheckedSub::checked_sub(&a, &b)
}

/// Relies on num's `CheckedAdd::checked_add` for `u128`: the sum when it fits,
/// `None` otherwise.
#[verifier::external_body]
fn checked_add(a: Balance, b: Balance) -> (r: Option<Balance>)
    ensures
        r == (if a + b <= Balance::MAX { Some((a + b) as Balance) } else { None::<Balance> }),
{
    num::traits::CheckedAdd::checked_add(&a, &b)
}

/// State of the balances module.
pub struct Pallet {
    balances: StorageMap<Balance>,
}

impl Pallet {
    pub closed spec fn wf(&self) -> bool {
        self.balances.wf()
    }

    /// The stored balances.
    pub closed spec fn balances(&self) -> Map<Seq<char>, Balance> {
        self.balances@
    }

    /// The balance of `who`, zero when none is stored.
    pub open spec fn balance_of(&self, who: Seq<char>) -> Balance {
        balance_in(self.balances(), who)
    }

    /// Creates the module with no stored balance.
    pub fn new() -> (r: Self)
        ensures
            r.wf(),
            r.balances() == Map::<Seq<char>, Balance>::empty(),
    {
        Pallet { balances: StorageMap::new() }
    }

    /// Sets the balance of `who` to `amount`.
    pub fn set_balance(&mut self, who: &AccountId, amount: Balance)
        requires
            old(self).wf(),
        ensures
            final(self).wf(),
            final(self).balances() == old(self).balances().insert(who@, amount),
    {
        self.balances.insert(who.clone(), amount);
    }

    /// The balance of `who`, zero when none is stored.
    pub fn balance(&self, who: &AccountId) -> (r: Balance)
        requires
            self.wf(),
        ensures
            r == self.balance_of(who@),
    {
        match self.balances.get(who) {
            Some(b) => *b,
            None => 0,
        }
    }

    /// Moves `amount` from `caller` to `to`. Fails, changing nothing, when
    /// `caller` holds less than `amount` or when `to` would overflow, both
    /// judged on the balances before the transfer. A transfer from an account
    /// to itself that passes both checks changes nothing.
    pub fn transfer(&mut self, caller: AccountId, to: AccountId, amount: Balance) -> (r: DispatchResult)
        requires
            old(self).wf(),
        ensures
            final(self).wf(),
            r == transfer_outcome(old(self).balances(), caller@, to@, amount),
            final(self).balances() == transfer_effect(old(self).balances(), caller@, to@, amount),
    {
        let new_from_b: Balance = match checked_sub(self.balance(&caller), amount) {
            Some(b) => b,
            None => {
                return Err(DispatchError::InsufficientFunds);
            },
        };
        let new_to_b: Balance = match checked_add(self.balance(&to), amount) {
            Some(b) => b,
            None => {
                return Err(DispatchError::BalanceOverflow);
            },
        };
        if caller == to {
            return Ok(());
        }
        self.set_balance(&caller, new_from_b);
        self.set_balance(&to, new_to_b);
        Ok(())
    }

}

impl Dispatch for Pallet {
    type Caller = AccountId;

    type Call = Call;

    open spec fn dispatch_ready(&self) -> bool {
        self.wf()
    }

    open spec fn dispatched(&self, caller: AccountId, call: Call, after: Self, r: DispatchResult) -> bool {
        &&& r == call_outcome(self.balances(), caller@, call)
        &&& after.balances() == call_effect(self.balances(), caller@, call)
    }

    fn dispatch(&mut self, caller: AccountId, call: Call) -> (r: DispatchResult) {
        match call {
            Call::Transfer { to, amount } => self.transfer(caller, to, amount),
        }
    }
}

} // verus!
