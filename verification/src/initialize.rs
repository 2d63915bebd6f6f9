//! Initialize: the bank is created once, at the address that its tag derives,
//! and bound for good to the caller who creates it.

use crate::address::{
    derivation_bytes, derive_address, found_program_address, lemma_address_is_its_bytes, Address,
    BANK_SEED,
};
use crate::bank::{Bank, BankAccount};
use crate::error::ErrorCode;
use crate::ledger::{transfer, Account};
use vstd::prelude::*;

verus! {

/// The accounts of an initialization: the account at which the bank is to be
/// created, and the caller, who becomes its owner and pays for it. The two are
/// distinct entries of the ledger. The reserved minimum of the bank's account
/// is that of an account which holds the bank's record.
#[derive(Clone, Copy, Debug, PartialEq, Eq)]
pub struct Initialize {
    pub bank: BankAccount,
    pub owner: Account,
}

impl Initialize {
    /// What the owner pays to bring the bank's account up to its reserved
    /// minimum: nothing where the account already holds that much.
    pub open spec fn funding(self) -> int {
        if self.bank.info.balance < self.bank.info.reserved_minimum {
            self.bank.info.reserved_minimum - self.bank.info.balance
        } else {
            0
        }
    }

    /// How an initialization ends, given the address and bump that the bank's
    /// tag derives.
    pub open spec fn result(self, derived: Option<(Seq<u8>, u8)>) -> Result<(), ErrorCode> {
        if !(derived matches Some((address, _)) && address == self.bank.info.key@) {
            Err(ErrorCode::AddressMismatch)
        } else if self.bank.data is Some {
            Err(ErrorCode::AlreadyInitialized)
        } else if self.funding() > 0 && self.owner.balance < self.funding()
            + self.owner.reserved_minimum {
            Err(ErrorCode::InsufficientFunds)
        } else {
            Ok(())
        }
    }

    /// `post` is what an initialization that succeeded with `bump` leaves: the
    /// bank's account holds its reserved minimum, or what it held before where
    /// that was more, at the owner's cost, and its record names the owner and
    /// the bump.
    pub open spec fn created(self, bump: u8, post: Initialize) -> bool {
        &&& post.bank.info == self.bank.info.holding(self.bank.info.balance + self.funding())
        &&& post.bank.data matches Some(record) && record.owner() == self.owner.key
            && record.bump() == bump
        &&& post.owner == self.owner.holding(self.owner.balance - self.funding())
    }

    /// `r` and `post` are what an initialization returns and leaves on these
    /// accounts: the bank created where it succeeds, and the accounts
    /// untouched where it is refused.
    pub open spec fn leads_to(
        self,
        derived: Option<(Seq<u8>, u8)>,
        r: Result<(), ErrorCode>,
        post: Initialize,
    ) -> bool {
        &&& r == self.result(derived)
        &&& r is Ok ==> (derived matches Some((_, bump)) && self.created(bump, post))
        &&& r is Err ==> post == self
    }
}

/// Initializes the bank, given the address and bump `derived` that the bank's
/// tag derives.
///
/// The account given as the bank must be the derived one, it must hold no
/// record yet, and the owner must be able to pay what the account lacks of
/// its reserved minimum, in that order. Then the record is written with the
/// caller as owner and the derived bump. Where the tag derives no address, no
/// account is the derived one.
pub fn initialize_with_address(ctx: &mut Initialize, derived: Option<(Address, u8)>) -> (r: Result<
    (),
    ErrorCode,
>)
    ensures
        old(ctx).leads_to(derivation_bytes(derived), r, *final(ctx)),
{
    let bump: u8 = match derived {
        Some((address, bump)) => {
            proof {
                lemma_address_is_its_bytes(address, ctx.bank.info.key);
            }
            if address != ctx.bank.info.key {
                return Err(ErrorCode::AddressMismatch);
            }
            bump
        },
        None => {
            return Err(ErrorCode::AddressMismatch);
        },
    };
    if ctx.bank.data.is_some() {
        return Err(ErrorCode::AlreadyInitialized);
    }
    let funding: u64 = if ctx.bank.info.balance < ctx.bank.info.reserved_minimum {
        ctx.bank.info.reserved_minimum - ctx.bank.info.balance
    } else {
        0
    };
    if funding > 0 {
        match transfer(&mut ctx.owner, &mut ctx.bank.info, funding) {
            Ok(()) => {},
            Err(e) => {
                return Err(e);
            },
        }
    }
    ctx.bank.data = Some(Bank::new(ctx.owner.key, bump));
    Ok(())
}

/// Initializes the bank under the program `program_id`: derives the bank's
/// address and bump from its tag, and goes on as `initialize_with_address`
/// does. A bank that was created verifies against its own record from then
/// on.
pub fn initialize(program_id: &Address, ctx: &mut Initialize) -> (r: Result<(), ErrorCode>)
    ensures
        old(ctx).leads_to(found_program_address(BANK_SEED@, program_id@), r, *final(ctx)),
        r is Ok ==> final(ctx).bank.verified_by(final(ctx).bank.rederived(program_id@)),
{
    let derived = derive_address(program_id, BANK_SEED.as_slice());
    initialize_with_address(ctx, derived)
}

/// The bank is created at most once. Once an initialization has succeeded,
/// another one on the account that it left, by whatever caller, is refused
/// with `AlreadyInitialized`, and leaves the record with the owner and the
/// bump that the first one wrote.
pub proof fn lemma_initialize_only_once(
    first: Initialize,
    derived: Option<(Seq<u8>, u8)>,
    created: Initialize,
    caller: Account,
    r: Result<(), ErrorCode>,
    post: Initialize,
)
    requires
        first.leads_to(derived, Ok(()), created),
        (Initialize { bank: created.bank, owner: caller }).leads_to(derived, r, post),
    ensures
        r == Err::<(), ErrorCode>(ErrorCode::AlreadyInitialized),
        post.bank == created.bank,
        post.bank.data matches Some(record) && record.owner() == first.owner.key,
{
}

/// An initialization that succeeds leaves the bank's account holding at
/// least its reserved minimum, and exactly that where it held less before;
/// what the account gained, the owner paid.
pub proof fn lemma_initialize_funds_bank(
    ctx: Initialize,
    derived: Option<(Seq<u8>, u8)>,
    post: Initialize,
)
    requires
        ctx.leads_to(derived, Ok(()), post),
    ensures
        post.bank.info.solvent(),
        ctx.bank.info.balance <= ctx.bank.info.reserved_minimum ==> post.bank.info.balance
            == post.bank.info.reserved_minimum,
        post.bank.info.balance + post.owner.balance == ctx.bank.info.balance + ctx.owner.balance,
        ctx.owner.solvent() ==> post.owner.solvent(),
{
}

} // verus!
