//! A custodial bank on a ledger of accounts.
//!
//! Anyone may deposit into the bank; only the owner who created it may pay
//! out, and a payout splits what the bank holds above its reserved minimum
//! between the owner and a winner of the owner's choice.

pub mod address;
pub mod bank;
pub mod deposit;
pub mod error;
pub mod history;
pub mod initialize;
pub mod instruction;
pub mod ledger;
pub mod payout;

pub use address::Address;
pub use bank::{Bank, BankAccount};
pub use deposit::{deposit, Deposit};
pub use error::ErrorCode;
pub use initialize::{initialize, Initialize};
pub use instruction::{AccountMeta, Instruction};
pub use ledger::Account;
pub use payout::{payout, Payout};
