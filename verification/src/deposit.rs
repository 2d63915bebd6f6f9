//! Deposit: anyone may move funds of their own into the bank.

use crate::address::{address_bytes, lemma_address_is_its_bytes, Address};
use crate::bank::BankAccount;
use crate::error::ErrorCode;
use crate::instruction::{system_transfer, transfer_instruction, Instruction};
use crate::ledger::{transfer, Account};
use vstd::prelude::*;

verus! {

/// The accounts of a deposit: the user who pays, and the bank. The two are
/// distinct entries of the ledger.
#[derive(Clone, Copy, Debug, PartialEq, Eq)]
pub struct Deposit {
    pub user: Account,
    pub bank: BankAccount,
}

impl Deposit {
    /// Where the user can pay `amount`, the bank's balance has room for it.
    pub open spec fn credit_fits(self, amount: u64) -> bool {
        self.user.can_send(amount) ==> self.bank.info.balance + amount <= u64::MAX
    }

    /// How a deposit of `amount` ends, given the address that the bank's
    /// record re-derives.
    pub open spec fn result(self, rederived: Option<Seq<u8>>, amount: u64) -> Result<
        (),
        ErrorCode,
    > {
        if !self.bank.verified_by(rederived) {
            Err(ErrorCode::AddressMismatch)
        } else if !self.user.can_send(amount) {
            Err(ErrorCode::InsufficientFunds)
        } else {
            Ok(())
        }
    }

    /// The accounts after a deposit of `amount` that succeeded.
    pub open spec fn deposited(self, amount: u64) -> Deposit {
        Deposit {
            user: self.user.holding(self.user.balance - amount),
            bank: BankAccount {
                info: self.bank.info.holding(self.bank.info.balance + amount),
                data: self.bank.data,
            },
        }
    }

    /// `r` and `post` are what a deposit of `amount` returns and leaves on
    /// these accounts. Where it succeeds, `r` is the system program's
    /// instruction that moves `amount` from the user to the bank, and `post`
    /// shows the balances once the ledger has run it. Where it is refused, the
    /// accounts are untouched.
    pub open spec fn leads_to(
        self,
        rederived: Option<Seq<u8>>,
        amount: u64,
        r: Result<Instruction, ErrorCode>,
        post: Deposit,
    ) -> bool {
        &&& match r {
            Ok(ix) => {
                &&& self.result(rederived, amount) is Ok
                &&& ix@ == system_transfer(self.user.key@, self.bank.info.key@, amount)
                &&& ix.moves_between(self.user.key, self.bank.info.key)
            },
            Err(e) => self.result(rederived, amount) == Err::<(), ErrorCode>(e),
        }
        &&& post == if r is Ok {
            self.deposited(amount)
        } else {
            self
        }
    }
}

impl Deposit {
    /// Tells whether `credit_fits` holds, which `deposit` requires.
    pub fn has_room(&self, amount: u64) -> (r: bool)
        ensures
            r == self.credit_fits(amount),
    {
        let can_send = self.user.balance >= amount && self.user.balance - amount
            >= self.user.reserved_minimum;
        !can_send || amount <= u64::MAX - self.bank.info.balance
    }
}

/// Deposits `amount`, given the address `rederived` that the bank's tag and
/// recorded bump derive.
///
/// The bank account must verify against `rederived`, and the user must be
/// able to part with `amount`, in that order. Then exactly `amount` moves
/// from the user to the bank: the instruction that comes back moves it on the
/// ledger, and `ctx` shows the balances that it leaves. Any caller may
/// deposit.
pub fn deposit_with_address(ctx: &mut Deposit, rederived: Option<Address>, amount: u64) -> (r:
    Result<Instruction, ErrorCode>)
    requires
        old(ctx).credit_fits(amount),
    ensures
        old(ctx).leads_to(address_bytes(rederived), amount, r, *final(ctx)),
{
    if ctx.bank.data.is_none() {
        return Err(ErrorCode::AddressMismatch);
    }
    match rederived {
        Some(address) => {
            proof {
                lemma_address_is_its_bytes(address, ctx.bank.info.key);
            }
            if address != ctx.bank.info.key {
                return Err(ErrorCode::AddressMismatch);
            }
        },
        None => {
            return Err(ErrorCode::AddressMismatch);
        },
    }
    match transfer(&mut ctx.user, &mut ctx.bank.info, amount) {
        Ok(()) => Ok(transfer_instruction(&ctx.user.key, &ctx.bank.info.key, amount)),
        Err(e) => Err(e),
    }
}

/// Deposits `amount` under the program `program_id`: re-derives the bank's
/// address from its tag and the recorded bump, and goes on as
/// `deposit_with_address` does.
pub fn deposit(program_id: &Address, ctx: &mut Deposit, amount: u64) -> (r: Result<
    Instruction,
    ErrorCode,
>)
    requires
        old(ctx).credit_fits(amount),
    ensures
        old(ctx).leads_to(old(ctx).bank.rederived(program_id@), amount, r, *final(ctx)),
{
    let rederived = ctx.bank.rederive(program_id);
    deposit_with_address(ctx, rederived, amount)
}

/// A deposit into a bank account that verifies, by a user who can part with
/// the amount, succeeds: the bank gains exactly `amount`, the user loses
/// exactly `amount`, and the two balances together are what they were.
pub proof fn lemma_deposit_moves_amount(
    ctx: Deposit,
    rederived: Option<Seq<u8>>,
    amount: u64,
    r: Result<Instruction, ErrorCode>,
    post: Deposit,
)
    requires
        ctx.credit_fits(amount),
        ctx.leads_to(rederived, amount, r, post),
        ctx.bank.verified_by(rederived),
        ctx.user.can_send(amount),
    ensures
        r is Ok,
        post.bank.info.balance == ctx.bank.info.balance + amount,
        post.user.balance == ctx.user.balance - amount,
        post.user.balance + post.bank.info.balance == ctx.user.balance + ctx.bank.info.balance,
        post.bank.data == ctx.bank.data,
{
}

/// A deposit by a user who cannot part with the amount is refused, and no
/// balance changes; where the bank account verifies, the refusal is
/// `InsufficientFunds`.
pub proof fn lemma_deposit_needs_funds(
    ctx: Deposit,
    rederived: Option<Seq<u8>>,
    amount: u64,
    r: Result<Instruction, ErrorCode>,
    post: Deposit,
)
    requires
        ctx.leads_to(rederived, amount, r, post),
        !ctx.user.can_send(amount),
    ensures
        r is Err,
        post == ctx,
        ctx.bank.verified_by(rederived) ==> r == Err::<Instruction, ErrorCode>(
            ErrorCode::InsufficientFunds,
        ),
{
}

/// Anyone may deposit: how a deposit ends does not depend on who the user
/// is, only on what the user holds.
pub proof fn lemma_deposit_is_open_to_all(
    ctx: Deposit,
    anyone: Address,
    rederived: Option<Seq<u8>>,
    amount: u64,
)
    ensures
        (Deposit { user: Account { key: anyone, ..ctx.user }, bank: ctx.bank }).result(
            rederived,
            amount,
        ) == ctx.result(rederived, amount),
{
}

} // verus!
