//! The ways in which an operation on the bank can fail.

use vstd::prelude::*;

verus! {

/// Why an operation was refused. A refused operation changes nothing.
#[derive(Clone, Copy, Debug, PartialEq, Eq, Structural)]
pub enum ErrorCode {
    /// The caller of a payout is not the owner that the bank records.
    Unauthorized,
    /// The bank holds nothing above its reserved minimum.
    InsufficientFundsForPayout,
    /// The bank's address already holds a record.
    AlreadyInitialized,
    /// The account given as the bank is not the one that the tag and the
    /// recorded bump derive.
    AddressMismatch,
    /// The paying account cannot part with the amount and keep its own
    /// reserved minimum.
    InsufficientFunds,
}

impl ErrorCode {
    /// The text shown to a caller for this error.
    pub open spec fn message_text(self) -> Seq<char> {
        match self {
            ErrorCode::Unauthorized => "Caller is not the owner of the contract"@,
            ErrorCode::InsufficientFundsForPayout => "Not enough funds in the bank for payout"@,
            ErrorCode::AlreadyInitialized => "The bank is already initialized"@,
            ErrorCode::AddressMismatch => "The bank account does not match its derived address"@,
            ErrorCode::InsufficientFunds => "Not enough funds in the paying account"@,
        }
    }

    pub fn message(&self) -> (text: &'static str)
        ensures
            text@ == self.message_text(),
    {
        match self {
            ErrorCode::Unauthorized => "Caller is not the owner of the contract",
            ErrorCode::InsufficientFundsForPayout => "Not enough funds in the bank for payout",
            ErrorCode::AlreadyInitialized => "The bank is already initialized",
            ErrorCode::AddressMismatch => "The bank account does not match its derived address",
            ErrorCode::InsufficientFunds => "Not enough funds in the paying account",
        }
    }
}

} // verus!
