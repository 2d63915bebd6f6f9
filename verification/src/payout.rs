//! Payout: the owner splits what the bank holds above its reserved minimum,
//! a tenth to the owner and the rest to a winner of the owner's choice.

use crate::address::{address_bytes, lemma_address_is_its_bytes, Address};
use crate::bank::BankAccount;
use crate::error::ErrorCode;
use crate::ledger::Account;
use vstd::prelude::*;

verus! {

/// The accounts of a payout: the bank, the caller who signs as its owner, and
/// the winner that the caller names. The three are distinct entries of the
/// ledger.
#[derive(Clone, Copy, Debug, PartialEq, Eq)]
pub struct Payout {
    pub bank: BankAccount,
    pub owner: Account,
    pub winner: Account,
}

/// The owner's part of `available`: a tenth, rounded down.
pub open spec fn owner_share(available: int) -> int {
    available / 10
}

/// The winner's part of `available`: all that the owner's part leaves, the
/// remainder of the division included.
pub open spec fn winner_share(available: int) -> int {
    available - available / 10
}

impl Payout {
    /// What the bank holds above its reserved minimum.
    pub open spec fn available(self) -> int {
        self.bank.info.surplus()
    }

    /// The caller is the owner that the bank's record names.
    pub open spec fn by_owner(self) -> bool {
        self.bank.data matches Some(record) && record.owner() == self.owner.key
    }

    /// Where the recorded owner calls and there is something to pay out, the
    /// balances of owner and winner have room for their shares.
    pub open spec fn credits_fit(self) -> bool {
        self.by_owner() && self.available() > 0 ==> {
            &&& self.owner.balance + owner_share(self.available()) <= u64::MAX
            &&& self.winner.balance + winner_share(self.available()) <= u64::MAX
        }
    }

    /// How a payout ends, given the address that the bank's record re-derives.
    pub open spec fn result(self, rederived: Option<Seq<u8>>) -> Result<(), ErrorCode> {
        if !self.bank.verified_by(rederived) {
            Err(ErrorCode::AddressMismatch)
        } else if !self.by_owner() {
            Err(ErrorCode::Unauthorized)
        } else if self.available() <= 0 {
            Err(ErrorCode::InsufficientFundsForPayout)
        } else {
            Ok(())
        }
    }

    /// The accounts after a payout that succeeded.
    pub open spec fn paid_out(self) -> Payout {
        Payout {
            bank: BankAccount {
                info: self.bank.info.holding(self.bank.info.balance - self.available()),
                data: self.bank.data,
            },
            owner: self.owner.holding(self.owner.balance + owner_share(self.available())),
            winner: self.winner.holding(self.winner.balance + winner_share(self.available())),
        }
    }

    /// `r` and `post` are what a payout returns and leaves on these accounts:
    /// the accounts paid out where it succeeds, and untouched where it is
    /// refused.
    pub open spec fn leads_to(
        self,
        rederived: Option<Seq<u8>>,
        r: Result<(), ErrorCode>,
        post: Payout,
    ) -> bool {
        &&& r == self.result(rederived)
        &&& post == if r is Ok {
            self.paid_out()
        } else {
            self
        }
    }
}

/// Splits `available` between owner and winner.
pub fn split(available: u64) -> (shares: (u64, u64))
    ensures
        shares.0 == owner_share(available as int),
        shares.1 == winner_share(available as int),
        shares.0 + shares.1 == available,
{
    let owner_share: u64 = available / 10;
    let winner_share: u64 = available - owner_share;
    (owner_share, winner_share)
}

impl Payout {
    /// Tells whether `credits_fit` holds, which `payout` requires.
    pub fn has_room(&self) -> (r: bool)
        ensures
            r == self.credits_fit(),
    {
        let by_owner = match self.bank.data {
            Some(record) => record.owner() == self.owner.key,
            None => false,
        };
        if !by_owner || self.bank.info.balance <= self.bank.info.reserved_minimum {
            return true;
        }
        let available: u64 = self.bank.info.balance - self.bank.info.reserved_minimum;
        let (owner_share, winner_share): (u64, u64) = split(available);
        owner_share <= u64::MAX - self.owner.balance && winner_share <= u64::MAX
            - self.winner.balance
    }
}

/// Pays out, given the address `rederived` that the bank's tag and recorded
/// bump derive.
///
/// The bank account must verify against `rederived`, the caller must be the
/// recorded owner, and the bank must hold more than its reserved minimum, in
/// that order. Then the bank is brought down to its reserved minimum, and
/// owner and winner are credited with their shares.
pub fn payout_with_address(ctx: &mut Payout, rederived: Option<Address>) -> (r: Result<
    (),
    ErrorCode,
>)
    requires
        old(ctx).credits_fit(),
    ensures
        old(ctx).leads_to(address_bytes(rederived), r, *final(ctx)),
{
    let record = match ctx.bank.data {
        Some(record) => record,
        None => {
            return Err(ErrorCode::AddressMismatch);
        },
    };
    match rederived {
        Some(address) => {
            proof {
                lemma_address_is_its_bytes(address, ctx.bank.info.key);
            }
            if address != ctx.bank.info.key {
                return Err(ErrorCode::AddressMismatch);
            }
        },
        None => {
            return Err(ErrorCode::AddressMismatch);
        },
    }
    if ctx.owner.key != record.owner() {
        return Err(ErrorCode::Unauthorized);
    }
    let bank_balance: u64 = ctx.bank.info.balance;
    let reserved_minimum: u64 = ctx.bank.info.reserved_minimum;
    if bank_balance <= reserved_minimum {
        return Err(ErrorCode::InsufficientFundsForPayout);
    }
    let available: u64 = bank_balance - reserved_minimum;
    let (owner_share, winner_share): (u64, u64) = split(available);
    ctx.bank.info.debit(available);
    ctx.owner.credit(owner_share);
    ctx.winner.credit(winner_share);
    Ok(())
}

/// Pays out under the program `program_id`: re-derives the bank's address
/// from its tag and the recorded bump, and goes on as `payout_with_address`
/// does.
pub fn payout(program_id: &Address, ctx: &mut Payout) -> (r: Result<(), ErrorCode>)
    requires
        old(ctx).credits_fit(),
    ensures
        old(ctx).leads_to(old(ctx).bank.rederived(program_id@), r, *final(ctx)),
{
    let rederived = ctx.bank.rederive(program_id);
    payout_with_address(ctx, rederived)
}

/// Whoever calls a payout without being the recorded owner is refused, whatever
/// the bank holds, and no balance changes; where the bank account verifies,
/// the refusal is `Unauthorized`.
pub proof fn lemma_payout_needs_owner(
    ctx: Payout,
    rederived: Option<Seq<u8>>,
    r: Result<(), ErrorCode>,
    post: Payout,
)
    requires
        ctx.leads_to(rederived, r, post),
        !ctx.by_owner(),
    ensures
        r is Err,
        post == ctx,
        ctx.bank.verified_by(rederived) ==> r == Err::<(), ErrorCode>(ErrorCode::Unauthorized),
{
}

/// A payout from a bank that holds no more than its reserved minimum is
/// refused, and no balance changes; where the bank account verifies and the
/// caller is the recorded owner, the refusal is `InsufficientFundsForPayout`.
pub proof fn lemma_payout_needs_surplus(
    ctx: Payout,
    rederived: Option<Seq<u8>>,
    r: Result<(), ErrorCode>,
    post: Payout,
)
    requires
        ctx.leads_to(rederived, r, post),
        ctx.bank.info.balance <= ctx.bank.info.reserved_minimum,
    ensures
        r is Err,
        post == ctx,
        ctx.bank.verified_by(rederived) && ctx.by_owner() ==> r == Err::<(), ErrorCode>(
            ErrorCode::InsufficientFundsForPayout,
        ),
{
}

/// A payout that succeeds hands out exactly what the bank held above its
/// reserved minimum: the owner gains a tenth of it, rounded down, the winner
/// gains the rest, the bank is left with its reserved minimum, and the three
/// balances together are what they were.
pub proof fn lemma_payout_splits_surplus(
    ctx: Payout,
    rederived: Option<Seq<u8>>,
    r: Result<(), ErrorCode>,
    post: Payout,
)
    requires
        ctx.credits_fit(),
        ctx.leads_to(rederived, r, post),
        r is Ok,
    ensures
        ctx.available() > 0,
        post.owner.balance - ctx.owner.balance == ctx.available() / 10,
        post.winner.balance - ctx.winner.balance == ctx.available() - ctx.available() / 10,
        (post.owner.balance - ctx.owner.balance) + (post.winner.balance - ctx.winner.balance)
            == ctx.available(),
        post.bank.info.balance == ctx.bank.info.reserved_minimum,
        post.bank.info.balance + post.owner.balance + post.winner.balance == ctx.bank.info.balance
            + ctx.owner.balance + ctx.winner.balance,
        post.bank.data == ctx.bank.data,
{
}

/// A payout leaves nothing to pay out: one that follows a payout that
/// succeeded, with no deposit in between, is refused with
/// `InsufficientFundsForPayout`.
pub proof fn lemma_payout_leaves_no_surplus(
    ctx: Payout,
    rederived: Option<Seq<u8>>,
    post: Payout,
)
    requires
        ctx.credits_fit(),
        ctx.leads_to(rederived, Ok(()), post),
    ensures
        post.result(rederived) == Err::<(), ErrorCode>(ErrorCode::InsufficientFundsForPayout),
{
}

/// The winner is whoever the caller names: how a payout ends does not depend
/// on the winner's account.
pub proof fn lemma_payout_takes_any_winner(
    ctx: Payout,
    winner: Account,
    rederived: Option<Seq<u8>>,
)
    ensures
        (Payout { winner, ..ctx }).result(rederived) == ctx.result(rederived),
{
}

} // verus!
