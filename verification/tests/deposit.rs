use anchor_lang::prelude::Pubkey;
use anchor_lang::solana_program::{system_instruction, system_program};
use common_bank::address::{derive_address, BANK_SEED};
use common_bank::deposit::deposit_with_address;
use common_bank::instruction::transfer_instruction;
use common_bank::{
    deposit, Account, AccountMeta, Address, Bank, BankAccount, Deposit, ErrorCode, Instruction,
};

const PROGRAM: Address = Address {
    bytes: [
        133, 87, 135, 57, 73, 116, 108, 170, 16, 209, 14, 146, 159, 154, 61, 37, 191, 68, 193,
        244, 216, 94, 242, 87, 117, 168, 80, 209, 62, 175, 39, 223,
    ],
};

fn key(byte: u8) -> Address {
    Address { bytes: [byte; 32] }
}

fn user(balance: u64, reserved_minimum: u64) -> Account {
    Account { key: key(2), balance, reserved_minimum }
}

fn bank_at(bank_key: Address, bump: u8, balance: u64) -> BankAccount {
    BankAccount {
        info: Account { key: bank_key, balance, reserved_minimum: 890_000 },
        data: Some(Bank::new(key(1), bump)),
    }
}

fn transfer_of(from: Address, to: Address, data: Vec<u8>) -> Instruction {
    Instruction {
        program_id: Address { bytes: [0; 32] },
        accounts: vec![
            AccountMeta { pubkey: from, is_signer: true, is_writable: true },
            AccountMeta { pubkey: to, is_signer: false, is_writable: true },
        ],
        data,
    }
}

fn real_bank(balance: u64) -> BankAccount {
    let (bank_key, bump) = derive_address(&PROGRAM, &BANK_SEED).unwrap();
    bank_at(bank_key, bump, balance)
}

#[test]
fn deposit_moves_exactly_the_amount() {
    let mut ctx = Deposit { user: user(3_000_000, 890_880), bank: real_bank(890_000) };
    let before = ctx;
    assert_eq!(
        deposit(&PROGRAM, &mut ctx, 1_000_000),
        Ok(transfer_of(key(2), before.bank.info.key, vec![2, 0, 0, 0, 64, 66, 15, 0, 0, 0, 0, 0]))
    );
    assert_eq!(ctx.bank.info.balance, 1_890_000);
    assert_eq!(ctx.user.balance, 2_000_000);
    assert_eq!(
        ctx.user.balance + ctx.bank.info.balance,
        before.user.balance + before.bank.info.balance
    );
    assert_eq!(ctx.bank.data, before.bank.data);
    assert_eq!(ctx.bank.info.key, before.bank.info.key);
    assert_eq!(ctx.bank.info.reserved_minimum, 890_000);
    assert_eq!(ctx.user.key, before.user.key);
    assert_eq!(ctx.user.reserved_minimum, 890_880);
}

#[test]
fn deposit_is_open_to_anyone() {
    let mut by_owner = Deposit {
        user: Account { key: key(1), balance: 50, reserved_minimum: 0 },
        bank: real_bank(0),
    };
    assert!(deposit(&PROGRAM, &mut by_owner, 50).is_ok());
    let mut by_stranger = Deposit {
        user: Account { key: key(77), balance: 50, reserved_minimum: 0 },
        bank: by_owner.bank,
    };
    assert!(deposit(&PROGRAM, &mut by_stranger, 50).is_ok());
    assert_eq!(by_stranger.bank.info.balance, 100);
}

#[test]
fn deposit_may_leave_the_user_its_reserved_minimum() {
    let mut ctx = Deposit { user: user(1_000, 100), bank: real_bank(5) };
    assert!(deposit(&PROGRAM, &mut ctx, 900).is_ok());
    assert_eq!(ctx.user.balance, 100);
    assert_eq!(ctx.bank.info.balance, 905);
}

#[test]
fn deposit_is_refused_where_the_user_lacks_funds() {
    let mut ctx = Deposit { user: user(1_000, 100), bank: real_bank(5) };
    let before = ctx;
    assert_eq!(deposit(&PROGRAM, &mut ctx, 901), Err(ErrorCode::InsufficientFunds));
    assert_eq!(ctx, before);
    assert_eq!(deposit(&PROGRAM, &mut ctx, 1_001), Err(ErrorCode::InsufficientFunds));
    assert_eq!(ctx, before);
}

#[test]
fn deposit_of_nothing_changes_nothing() {
    let mut ctx = Deposit { user: user(1_000, 100), bank: real_bank(5) };
    let before = ctx;
    assert_eq!(
        deposit(&PROGRAM, &mut ctx, 0),
        Ok(transfer_of(key(2), before.bank.info.key, vec![2, 0, 0, 0, 0, 0, 0, 0, 0, 0, 0, 0]))
    );
    assert_eq!(ctx, before);
}

#[test]
fn deposit_refuses_an_account_that_only_looks_like_the_bank() {
    let (_, bump) = derive_address(&PROGRAM, &BANK_SEED).unwrap();
    let mut ctx = Deposit { user: user(1_000, 0), bank: bank_at(key(9), bump, 5) };
    let before = ctx;
    assert_eq!(deposit(&PROGRAM, &mut ctx, 10), Err(ErrorCode::AddressMismatch));
    assert_eq!(ctx, before);
}

#[test]
fn deposit_refuses_a_record_with_another_bump() {
    let (bank_key, bump) = derive_address(&PROGRAM, &BANK_SEED).unwrap();
    let mut ctx = Deposit { user: user(1_000, 0), bank: bank_at(bank_key, bump - 1, 5) };
    let before = ctx;
    assert_eq!(deposit(&PROGRAM, &mut ctx, 10), Err(ErrorCode::AddressMismatch));
    assert_eq!(ctx, before);
}

#[test]
fn deposit_refuses_an_account_without_a_record() {
    let (bank_key, _) = derive_address(&PROGRAM, &BANK_SEED).unwrap();
    let mut ctx = Deposit {
        user: user(1_000, 0),
        bank: BankAccount {
            info: Account { key: bank_key, balance: 5, reserved_minimum: 0 },
            data: None,
        },
    };
    let before = ctx;
    assert_eq!(deposit(&PROGRAM, &mut ctx, 10), Err(ErrorCode::AddressMismatch));
    assert_eq!(ctx, before);
}

#[test]
fn deposit_refuses_the_bank_of_another_program() {
    let mut ctx = Deposit { user: user(1_000, 0), bank: real_bank(5) };
    let before = ctx;
    assert_eq!(deposit(&key(1), &mut ctx, 10), Err(ErrorCode::AddressMismatch));
    assert_eq!(ctx, before);
}

#[test]
fn deposit_checks_the_address_before_the_funds() {
    let mut ctx = Deposit { user: user(1, 0), bank: bank_at(key(9), 255, 5) };
    assert_eq!(deposit(&PROGRAM, &mut ctx, 10), Err(ErrorCode::AddressMismatch));
}

#[test]
fn deposit_with_address_moves_exactly_the_amount() {
    let mut ctx = Deposit { user: user(500, 20), bank: bank_at(key(9), 3, 40) };
    assert_eq!(
        deposit_with_address(&mut ctx, Some(key(9)), 480),
        Ok(transfer_of(key(2), key(9), vec![2, 0, 0, 0, 224, 1, 0, 0, 0, 0, 0, 0]))
    );
    assert_eq!(ctx.user, user(20, 20));
    assert_eq!(ctx.bank, bank_at(key(9), 3, 520));
}

#[test]
fn deposit_with_address_refusals() {
    let mut ctx = Deposit { user: user(500, 20), bank: bank_at(key(9), 3, 40) };
    let before = ctx;
    assert_eq!(deposit_with_address(&mut ctx, None, 1), Err(ErrorCode::AddressMismatch));
    assert_eq!(ctx, before);
    assert_eq!(deposit_with_address(&mut ctx, Some(key(8)), 1), Err(ErrorCode::AddressMismatch));
    assert_eq!(ctx, before);
    assert_eq!(
        deposit_with_address(&mut ctx, Some(key(9)), 481),
        Err(ErrorCode::InsufficientFunds)
    );
    assert_eq!(ctx, before);
    ctx.bank.data = None;
    let before = ctx;
    assert_eq!(deposit_with_address(&mut ctx, Some(key(9)), 1), Err(ErrorCode::AddressMismatch));
    assert_eq!(ctx, before);
}

#[test]
fn deposit_can_fill_the_bank() {
    let mut ctx = Deposit { user: user(10, 0), bank: bank_at(key(9), 3, u64::MAX - 10) };
    assert!(deposit_with_address(&mut ctx, Some(key(9)), 10).is_ok());
    assert_eq!(ctx.bank.info.balance, u64::MAX);
    assert_eq!(ctx.user.balance, 0);
}

#[test]
fn transfer_instruction_is_the_system_programs() {
    assert_eq!(
        transfer_instruction(&key(4), &key(5), 0x0102_0304_0506_0708),
        transfer_of(key(4), key(5), vec![2, 0, 0, 0, 8, 7, 6, 5, 4, 3, 2, 1])
    );
    assert_eq!(
        transfer_instruction(&key(5), &key(4), u64::MAX),
        transfer_of(key(5), key(4), vec![2, 0, 0, 0, 255, 255, 255, 255, 255, 255, 255, 255])
    );
}

#[test]
fn transfer_instruction_agrees_with_system_instruction() {
    for lamports in [0u64, 1, 1_000_000, u64::MAX] {
        let theirs = system_instruction::transfer(
            &Pubkey::new_from_array([4; 32]),
            &Pubkey::new_from_array([5; 32]),
            lamports,
        );
        let ours = transfer_instruction(&key(4), &key(5), lamports);
        assert_eq!(ours.program_id.bytes, system_program::ID.to_bytes());
        assert_eq!(ours.program_id.bytes, theirs.program_id.to_bytes());
        assert_eq!(ours.data, theirs.data);
        assert_eq!(ours.accounts.len(), theirs.accounts.len());
        for (mine, their) in ours.accounts.iter().zip(theirs.accounts.iter()) {
            assert_eq!(mine.pubkey.bytes, their.pubkey.to_bytes());
            assert_eq!(mine.is_signer, their.is_signer);
            assert_eq!(mine.is_writable, their.is_writable);
        }
    }
}

#[test]
fn refused_deposit_gives_no_instruction() {
    let mut ctx = Deposit { user: user(10, 0), bank: real_bank(5) };
    assert_eq!(deposit(&PROGRAM, &mut ctx, 11), Err(ErrorCode::InsufficientFunds));
}

#[test]
fn deposit_has_room_unless_the_amount_would_not_fit() {
    let fits = Deposit { user: user(10, 0), bank: bank_at(key(9), 3, u64::MAX - 10) };
    assert!(fits.has_room(10));
    assert!(fits.has_room(0));
    assert!(fits.has_room(11));
    let full = Deposit { user: user(11, 0), bank: bank_at(key(9), 3, u64::MAX - 10) };
    assert!(!full.has_room(11));
    assert!(full.has_room(10));
    assert!(full.has_room(u64::MAX));
    let reserved = Deposit { user: user(11, 1), bank: bank_at(key(9), 3, u64::MAX - 10) };
    assert!(reserved.has_room(11));
}
