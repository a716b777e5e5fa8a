use vstd::prelude::*;
use crate::strmap::StrMap;
use crate::support::{DispatchResult, ErrorKind};
use crate::types::{AccountId, Balance};

verus! {

/// The balance an account holds under the ledger `m`: its entry, or zero for
/// an account that was never set.
pub open spec fn balance_of(m: Map<Seq<char>, Balance>, who: Seq<char>) -> Balance {
    if m.dom().contains(who) {
        m[who]
    } else {
        0
    }
}

/// The outcome of a transfer: the caller's balance is checked first, then the
/// recipient's headroom, both against the balances before the transfer.
pub open spec fn transfer_result(
    m: Map<Seq<char>, Balance>,
    caller: Seq<char>,
    to: Seq<char>,
    amount: Balance,
) -> DispatchResult {
    if balance_of(m, caller) < amount {
        Err(ErrorKind::InsufficientBalance)
    } else if balance_of(m, to) + amount > Balance::MAX {
        Err(ErrorKind::BalanceOverflow)
    } else {
        Ok(())
    }
}

/// The ledger after a transfer that passed both checks: the caller is debited
/// and the recipient credited, each from its balance before the transfer.
/// Debit always equals credit, so a transfer back to the caller itself moves
/// nothing and leaves the ledger as it was.
pub open spec fn transfer_effect(
    m: Map<Seq<char>, Balance>,
    caller: Seq<char>,
    to: Seq<char>,
    amount: Balance,
) -> Map<Seq<char>, Balance> {
    if caller == to {
        m
    } else {
        m.insert(caller, (balance_of(m, caller) - amount) as Balance).insert(
            to,
            (balance_of(m, to) + amount) as Balance,
        )
    }
}

/// The outcome of dispatching a ledger call.
pub open spec fn call_result(
    m: Map<Seq<char>, Balance>,
    caller: Seq<char>,
    call: Call,
) -> DispatchResult {
    match call {
        Call::Transfer { to, amount } => transfer_result(m, caller, to@, amount),
    }
}

/// The ledger after dispatching a ledger call; a refused call leaves it as it was.
pub open spec fn call_effect(
    m: Map<Seq<char>, Balance>,
    caller: Seq<char>,
    call: Call,
) -> Map<Seq<char>, Balance> {
    match call {
        Call::Transfer { to, amount } => if transfer_result(m, caller, to@, amount) is Ok {
            transfer_effect(m, caller, to@, amount)
        } else {
            m
        },
    }
}

/// The calls the ledger accepts through dispatch.
pub enum Call {
    Transfer { to: AccountId, amount: Balance },
}

/// The account ledger: a mapping from account to balance, an absent account
/// holding zero.
#[derive(Debug)]
pub struct Pallet {
    balances: StrMap<Balance>,
}

impl View for Pallet {
    type V = Map<Seq<char>, Balance>;

    closed spec fn view(&self) -> Map<Seq<char>, Balance> {
        self.balances@
    }
}

impl Pallet {
    /// The ledger's representation keeps one entry per account.
    pub closed spec fn wf(&self) -> bool {
        self.balances.wf()
    }

    /// An empty ledger: every account holds zero.
    pub fn new() -> (r: Self)
        ensures
            r.wf(),
            r@ == Map::<Seq<char>, Balance>::empty(),
    {
        Pallet { balances: StrMap::new() }
    }

    /// Overwrites an account's balance unconditionally; only for seeding
    /// state, never reachable through dispatch.
    pub fn set_balance(&mut self, who: &AccountId, amount: Balance)
        requires
            old(self).wf(),
        ensures
            final(self).wf(),
            final(self)@ == old(self)@.insert(who@, amount),
    {
        self.balances.insert(who, amount);
    }

    /// The balance the account holds, zero for one never set.
    pub fn balance(&self, who: &AccountId) -> (r: Balance)
        requires
            self.wf(),
        ensures
            r == balance_of(self@, who@),
    {
        match self.balances.get(who) {
            Some(b) => *b,
            None => 0,
        }
    }

    /// Moves `amount` from the caller to `to`, all or nothing: on either
    /// failure the ledger is left exactly as it was. Debit equals credit, so
    /// the total over all accounts is conserved; in particular a transfer to
    /// the caller itself, though checked like any other, moves nothing.
    pub fn transfer(&mut self, caller: AccountId, to: AccountId, amount: Balance) -> (r:
        DispatchResult)
        requires
            old(self).wf(),
        ensures
            final(self).wf(),
            r == transfer_result(old(self)@, caller@, to@, amount),
            r is Ok ==> final(self)@ == transfer_effect(old(self)@, caller@, to@, amount),
            r is Err ==> final(self)@ == old(self)@,
    {
        let caller_balance = self.balance(&caller);
        let to_balance = self.balance(&to);

        let new_caller_balance = match caller_balance.checked_sub(amount) {
            Some(b) => b,
            None => {
                return Err(ErrorKind::InsufficientBalance);
            },
        };
        let new_to_balance = match to_balance.checked_add(amount) {
            Some(b) => b,
            None => {
                return Err(ErrorKind::BalanceOverflow);
            },
        };

        if caller != to {
            self.set_balance(&caller, new_caller_balance);
            self.set_balance(&to, new_to_balance);
        }

        Ok(())
    }

    /// Routes a ledger call to the operation that implements it.
    pub fn dispatch(&mut self, caller: AccountId, call: Call) -> (r: DispatchResult)
        requires
            old(self).wf(),
        ensures
            final(self).wf(),
            r == call_result(old(self)@, caller@, call),
            final(self)@ == call_effect(old(self)@, caller@, call),
    {
        match call {
            Call::Transfer { to, amount } => self.transfer(caller, to, amount),
        }
    }
}

/// An allowed transfer moves exactly the amount: between distinct accounts
/// the caller is debited by it and the recipient credited by it, while a
/// transfer back to the caller itself moves nothing; every other account
/// keeps its balance, and the two balances' sum is conserved.
pub proof fn lemma_transfer_conserves(
    m: Map<Seq<char>, Balance>,
    a: Seq<char>,
    b: Seq<char>,
    v: Balance,
)
    requires
        v <= balance_of(m, a),
        balance_of(m, b) + v <= Balance::MAX,
    ensures
        transfer_result(m, a, b, v) == Ok::<(), ErrorKind>(()),
        a != b ==> balance_of(transfer_effect(m, a, b, v), a) == balance_of(m, a) - v,
        a != b ==> balance_of(transfer_effect(m, a, b, v), b) == balance_of(m, b) + v,
        a == b ==> transfer_effect(m, a, b, v) == m,
        balance_of(transfer_effect(m, a, b, v), a) + balance_of(transfer_effect(m, a, b, v), b)
            == balance_of(m, a) + balance_of(m, b),
        forall|c: Seq<char>|
            c != a && c != b ==> #[trigger] balance_of(transfer_effect(m, a, b, v), c)
                == balance_of(m, c),
{
}

} // verus!
