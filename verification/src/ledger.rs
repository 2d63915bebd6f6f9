//! The ledger's accounts as one operation sees them, and the three ways a
//! balance moves: a credit, a debit, and a transfer between two accounts.

use crate::address::Address;
use crate::error::ErrorCode;
use vstd::prelude::*;

verus! {

/// One account of the ledger: who it is, what it holds, and what the ledger
/// requires it to keep in order to stay allocated.
#[derive(Clone, Copy, Debug, PartialEq, Eq)]
pub struct Account {
    pub key: Address,
    pub balance: u64,
    pub reserved_minimum: u64,
}

impl Account {
    /// The account holds at least its reserved minimum.
    pub open spec fn solvent(self) -> bool {
        self.balance >= self.reserved_minimum
    }

    /// What the account holds above its reserved minimum; negative where it
    /// holds less.
    pub open spec fn surplus(self) -> int {
        self.balance - self.reserved_minimum
    }

    /// The account can part with `amount` and keep its reserved minimum.
    pub open spec fn can_send(self, amount: u64) -> bool {
        self.balance >= amount + self.reserved_minimum
    }

    /// The same account holding `balance`.
    pub open spec fn holding(self, balance: int) -> Account {
        Account { balance: balance as u64, ..self }
    }

    /// Adds `amount` to the balance.
    pub fn credit(&mut self, amount: u64)
        requires
            old(self).balance + amount <= u64::MAX,
        ensures
            *final(self) == old(self).holding(old(self).balance + amount),
    {
        self.balance = self.balance + amount;
    }

    /// Takes `amount` from the balance.
    pub fn debit(&mut self, amount: u64)
        requires
            amount <= old(self).balance,
        ensures
            *final(self) == old(self).holding(old(self).balance - amount),
    {
        self.balance = self.balance - amount;
    }
}

/// Moves `amount` from `src` to `dst`, whole or not at all: it is refused
/// with `InsufficientFunds`, and nothing moves, where `src` would be left
/// under its reserved minimum.
pub fn transfer(src: &mut Account, dst: &mut Account, amount: u64) -> (r: Result<(), ErrorCode>)
    requires
        old(src).can_send(amount) ==> old(dst).balance + amount <= u64::MAX,
    ensures
        r == if old(src).can_send(amount) {
            Ok::<(), ErrorCode>(())
        } else {
            Err::<(), ErrorCode>(ErrorCode::InsufficientFunds)
        },
        r is Ok ==> *final(src) == old(src).holding(old(src).balance - amount),
        r is Ok ==> *final(dst) == old(dst).holding(old(dst).balance + amount),
        r is Err ==> *final(src) == *old(src) && *final(dst) == *old(dst),
{
    if src.balance < amount || src.balance - amount < src.reserved_minimum {
        return Err(ErrorCode::InsufficientFunds);
    }
    src.debit(amount);
    dst.credit(amount);
    Ok(())
}

} // verus!
