//! Instructions to the ledger's system program.
//!
//! The bank does not move a depositor's funds itself: it hands the ledger the
//! system program's transfer instruction, which `system_instruction` builds.

use crate::address::Address;
use anchor_lang::prelude::Pubkey;
use anchor_lang::solana_program::system_instruction;
use vstd::prelude::*;

verus! {

/// An account that an instruction names, and what the instruction asks of it.
#[derive(Clone, Copy, Debug, PartialEq, Eq)]
pub struct AccountMeta {
    pub pubkey: Address,
    pub is_signer: bool,
    pub is_writable: bool,
}

impl View for AccountMeta {
    type V = (Seq<u8>, bool, bool);

    open spec fn view(&self) -> (Seq<u8>, bool, bool) {
        (self.pubkey@, self.is_signer, self.is_writable)
    }
}

/// An instruction as the ledger takes it: the program to run, the accounts
/// that it names, and the data for the program.
#[derive(Debug, PartialEq, Eq)]
pub struct Instruction {
    pub program_id: Address,
    pub accounts: Vec<AccountMeta>,
    pub data: Vec<u8>,
}

impl View for Instruction {
    type V = (Seq<u8>, Seq<(Seq<u8>, bool, bool)>, Seq<u8>);

    open spec fn view(&self) -> (Seq<u8>, Seq<(Seq<u8>, bool, bool)>, Seq<u8>) {
        (self.program_id@, self.accounts@.map_values(|meta: AccountMeta| meta@), self.data@)
    }
}

/// The instruction that `system_instruction::transfer` builds to move
/// `lamports` from `from` to `to`: its program, its accounts and its data.
pub uninterp spec fn system_transfer(from: Seq<u8>, to: Seq<u8>, lamports: u64) -> (
    Seq<u8>,
    Seq<(Seq<u8>, bool, bool)>,
    Seq<u8>,
);

impl Instruction {
    /// The instruction names exactly `from`, as a signer whose account it
    /// changes, and then `to`, whose account it changes without its
    /// signature.
    pub open spec fn moves_between(self, from: Address, to: Address) -> bool {
        self.accounts@ == seq![
            AccountMeta { pubkey: from, is_signer: true, is_writable: true },
            AccountMeta { pubkey: to, is_signer: false, is_writable: true },
        ]
    }
}

/// Calls `system_instruction::transfer`.
///
/// Trusted: the instruction is a function of the three arguments alone, named
/// `system_transfer`; and its accounts are the two that the outside function
/// lists, `from` as a writable signer and `to` as writable.
#[verifier::external_body]
fn build_system_transfer(from: &Address, to: &Address, lamports: u64) -> (ix: Instruction)
    ensures
        ix@ == system_transfer(from@, to@, lamports),
        ix.moves_between(*from, *to),
{
    let from = Pubkey::new_from_array(from.bytes);
    let to = Pubkey::new_from_array(to.bytes);
    let ix = system_instruction::transfer(&from, &to, lamports);
    Instruction {
        program_id: Address { bytes: ix.program_id.to_bytes() },
        accounts: ix.accounts.iter().map(
            |meta| AccountMeta {
                pubkey: Address { bytes: meta.pubkey.to_bytes() },
                is_signer: meta.is_signer,
                is_writable: meta.is_writable,
            },
        ).collect(),
        data: ix.data,
    }
}

/// The system program's instruction that moves `lamports` from `from` to
/// `to`.
pub fn transfer_instruction(from: &Address, to: &Address, lamports: u64) -> (ix: Instruction)
    ensures
        ix@ == system_transfer(from@, to@, lamports),
        ix.moves_between(*from, *to),
{
    build_system_transfer(from, to, lamports)
}

} // verus!
