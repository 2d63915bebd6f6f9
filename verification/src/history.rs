//! The bank over a run of deposits and payouts.
//!
//! Whoever deposits and whoever asks for a payout, in whatever order and
//! whether they are refused or not, the bank never falls under its reserved
//! minimum and its record stays what it was.

use crate::bank::BankAccount;
use crate::deposit::Deposit;
use crate::error::ErrorCode;
use crate::instruction::Instruction;
use crate::ledger::Account;
use crate::payout::Payout;
use vstd::prelude::*;

verus! {

/// One operation on a bank, by the accounts that take part besides the bank
/// and the address that the bank's record re-derives when it runs.
pub enum Operation {
    Deposit { user: Account, rederived: Option<Seq<u8>>, amount: u64 },
    Payout { owner: Account, winner: Account, rederived: Option<Seq<u8>> },
}

impl Operation {
    /// The balances that the operation would credit have room for it.
    pub open spec fn admissible(self, bank: BankAccount) -> bool {
        match self {
            Operation::Deposit { user, rederived, amount } => (Deposit { user, bank }).credit_fits(
                amount,
            ),
            Operation::Payout { owner, winner, rederived } => (Payout {
                bank,
                owner,
                winner,
            }).credits_fit(),
        }
    }

    /// The bank as the operation leaves it: changed where the operation
    /// succeeds, untouched where it is refused.
    pub open spec fn applied(self, bank: BankAccount) -> BankAccount {
        match self {
            Operation::Deposit { user, rederived, amount } => {
                let ctx = Deposit { user, bank };
                if ctx.result(rederived, amount) is Ok {
                    ctx.deposited(amount).bank
                } else {
                    bank
                }
            },
            Operation::Payout { owner, winner, rederived } => {
                let ctx = Payout { bank, owner, winner };
                if ctx.result(rederived) is Ok {
                    ctx.paid_out().bank
                } else {
                    bank
                }
            },
        }
    }
}

/// Every operation of the run is admissible on the bank that it meets.
pub open spec fn admissible_run(bank: BankAccount, ops: Seq<Operation>) -> bool
    decreases ops.len(),
{
    if ops.len() == 0 {
        true
    } else {
        &&& admissible_run(bank, ops.drop_last())
        &&& ops.last().admissible(run(bank, ops.drop_last()))
    }
}

/// The bank after the operations of `ops`, taken in order.
pub open spec fn run(bank: BankAccount, ops: Seq<Operation>) -> BankAccount
    decreases ops.len(),
{
    if ops.len() == 0 {
        bank
    } else {
        ops.last().applied(run(bank, ops.drop_last()))
    }
}

/// What a deposit leaves of the bank is what `applied` says.
pub proof fn lemma_deposit_is_applied(
    ctx: Deposit,
    rederived: Option<Seq<u8>>,
    amount: u64,
    r: Result<Instruction, ErrorCode>,
    post: Deposit,
)
    requires
        ctx.leads_to(rederived, amount, r, post),
    ensures
        post.bank == (Operation::Deposit { user: ctx.user, rederived, amount }).applied(ctx.bank),
{
}

/// What a payout leaves of the bank is what `applied` says.
pub proof fn lemma_payout_is_applied(
    ctx: Payout,
    rederived: Option<Seq<u8>>,
    r: Result<(), ErrorCode>,
    post: Payout,
)
    requires
        ctx.leads_to(rederived, r, post),
    ensures
        post.bank == (Operation::Payout {
            owner: ctx.owner,
            winner: ctx.winner,
            rederived,
        }).applied(ctx.bank),
{
}

/// One operation on a bank that holds its reserved minimum leaves it holding
/// its reserved minimum, and leaves its address, its reserved minimum and its
/// record alone. A deposit never lowers the bank's balance, and a payout
/// never raises it.
pub proof fn lemma_operation_keeps_bank(bank: BankAccount, op: Operation)
    requires
        bank.info.solvent(),
        op.admissible(bank),
    ensures
        op.applied(bank).info.solvent(),
        op.applied(bank).info.key == bank.info.key,
        op.applied(bank).info.reserved_minimum == bank.info.reserved_minimum,
        op.applied(bank).data == bank.data,
        op is Deposit ==> op.applied(bank).info.balance >= bank.info.balance,
        op is Payout ==> op.applied(bank).info.balance <= bank.info.balance,
{
}

/// No run of deposits and payouts leaves the bank under its reserved minimum,
/// or changes the record that names its owner.
pub proof fn lemma_run_keeps_bank(bank: BankAccount, ops: Seq<Operation>)
    requires
        bank.info.solvent(),
        admissible_run(bank, ops),
    ensures
        run(bank, ops).info.solvent(),
        run(bank, ops).info.key == bank.info.key,
        run(bank, ops).info.reserved_minimum == bank.info.reserved_minimum,
        run(bank, ops).data == bank.data,
    decreases ops.len(),
{
    if ops.len() > 0 {
        lemma_run_keeps_bank(bank, ops.drop_last());
        lemma_operation_keeps_bank(run(bank, ops.drop_last()), ops.last());
    }
}

} // verus!
