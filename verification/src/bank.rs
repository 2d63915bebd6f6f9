//! The bank: its persisted record, and the account that holds it.

use crate::address::{address_bytes, create_program_address, program_address, Address, BANK_SEED};
use crate::ledger::Account;
use vstd::prelude::*;

verus! {

/// Bytes that the persisted record takes: an 8-byte header, the owner's
/// 32-byte address, and the bump.
pub const BANK_SPACE: usize = 8 + 32 + 1;

/// The header that marks the data of an account as a bank's record.
pub const BANK_HEADER: [u8; 8] = [142, 49, 166, 242, 50, 66, 97, 188];

/// The bank's persisted record. It is written once, when the bank is created,
/// and offers no way to change it.
#[derive(Clone, Copy, Debug, PartialEq, Eq)]
pub struct Bank {
    owner: Address,
    bump: u8,
}

impl Bank {
    /// The identity that may trigger a payout.
    pub closed spec fn spec_owner(&self) -> Address {
        self.owner
    }

    /// The witness that derives the bank's address from its tag.
    pub closed spec fn spec_bump(&self) -> u8 {
        self.bump
    }

    pub fn new(owner: Address, bump: u8) -> (bank: Bank)
        ensures
            bank.owner() == owner,
            bank.bump() == bump,
    {
        Bank { owner, bump }
    }

    #[verifier::when_used_as_spec(spec_owner)]
    pub fn owner(&self) -> (owner: Address)
        ensures
            owner == self.owner(),
    {
        self.owner
    }

    #[verifier::when_used_as_spec(spec_bump)]
    pub fn bump(&self) -> (bump: u8)
        ensures
            bump == self.bump(),
    {
        self.bump
    }

    /// The record as it is persisted: the header, the owner's address, the
    /// bump.
    pub open spec fn encoding(&self) -> Seq<u8> {
        BANK_HEADER@ + self.owner()@ + seq![self.bump()]
    }

    /// Writes the record out as it is persisted.
    pub fn encode(&self) -> (data: Vec<u8>)
        ensures
            data@ == self.encoding(),
            data@.len() == BANK_SPACE,
    {
        let mut data: Vec<u8> = Vec::with_capacity(BANK_SPACE);
        data.extend_from_slice(BANK_HEADER.as_slice());
        data.extend_from_slice(self.owner.bytes.as_slice());
        data.push(self.bump);
        data
    }

    /// `r` is the record that `data` begins with. There is one exactly where
    /// `data` is long enough for a record and begins with the header; what
    /// follows the record does not count.
    pub open spec fn decodes_to(data: Seq<u8>, r: Option<Bank>) -> bool {
        &&& r is Some <==> data.len() >= BANK_SPACE && data.subrange(0, 8) == BANK_HEADER@
        &&& r matches Some(bank) ==> data.subrange(0, BANK_SPACE as int) == bank.encoding()
    }

    /// Reads the record that `data` begins with.
    pub fn decode(data: &[u8]) -> (r: Option<Bank>)
        ensures
            Bank::decodes_to(data@, r),
    {
        if data.len() < BANK_SPACE {
            return None;
        }
        let mut i: usize = 0;
        while i < 8
            invariant
                i <= 8,
                data@.len() >= BANK_SPACE,
                forall|j: int| 0 <= j < i ==> data@[j] == BANK_HEADER@[j],
            decreases 8 - i,
        {
            if data[i] != BANK_HEADER[i] {
                proof {
                    assert(data@.subrange(0, 8)[i as int] != BANK_HEADER@[i as int]);
                }
                return None;
            }
            i += 1;
        }
        let mut bytes: [u8; 32] = [0u8; 32];
        let mut k: usize = 0;
        while k < 32
            invariant
                k <= 32,
                data@.len() >= BANK_SPACE,
                forall|j: int| 0 <= j < k ==> bytes@[j] == data@[8 + j],
            decreases 32 - k,
        {
            bytes[k] = data[8 + k];
            k += 1;
        }
        let bank = Bank { owner: Address { bytes }, bump: data[40] };
        proof {
            assert(data@.subrange(0, 8) =~= BANK_HEADER@);
            assert(data@.subrange(0, BANK_SPACE as int) =~= bank.encoding());
        }
        Some(bank)
    }
}

/// A record is its owner and its bump, and nothing more.
pub proof fn lemma_record_is_owner_and_bump(a: Bank, b: Bank)
    ensures
        (a.owner() == b.owner() && a.bump() == b.bump()) <==> a == b,
{
}

/// Two records that are persisted as the same bytes are the same record.
pub proof fn lemma_encoding_fixes_record(a: Bank, b: Bank)
    requires
        a.encoding() == b.encoding(),
    ensures
        a == b,
{
    let ea = a.encoding();
    let eb = b.encoding();
    assert(ea[40] == a.bump());
    assert(eb[40] == b.bump());
    assert forall|j: int| 0 <= j < 32 implies a.owner().bytes[j] == b.owner().bytes[j] by {
        assert(ea[8 + j] == a.owner()@[j]);
        assert(eb[8 + j] == b.owner()@[j]);
    }
    assert(a.owner().bytes =~= b.owner().bytes);
}

/// What was written out is read back: the bytes of a record, with whatever
/// follows them, decode to that record.
pub proof fn lemma_decode_inverts_encode(bank: Bank, rest: Seq<u8>, r: Option<Bank>)
    requires
        Bank::decodes_to(bank.encoding() + rest, r),
    ensures
        r == Some(bank),
{
    let data = bank.encoding() + rest;
    assert(data.subrange(0, 8) =~= BANK_HEADER@);
    assert(data.subrange(0, BANK_SPACE as int) =~= bank.encoding());
    lemma_encoding_fixes_record(r->0, bank);
}

/// The account at the bank's address: its place on the ledger, and the record
/// in it once the bank has been created.
#[derive(Clone, Copy, Debug, PartialEq, Eq)]
pub struct BankAccount {
    pub info: Account,
    pub data: Option<Bank>,
}

impl BankAccount {
    /// The address that the bank's tag and the recorded bump derive under
    /// `program`; `None` where the account holds no record, or the two derive
    /// no address.
    pub open spec fn rederived(self, program: Seq<u8>) -> Option<Seq<u8>> {
        match self.data {
            Some(record) => program_address(BANK_SEED@, record.bump(), program),
            None => None,
        }
    }

    /// Re-derives the account's address under `program_id` from the bank's tag
    /// and the bump in its record.
    pub fn rederive(&self, program_id: &Address) -> (r: Option<Address>)
        ensures
            address_bytes(r) == self.rederived(program_id@),
    {
        match self.data {
            Some(record) => create_program_address(
                BANK_SEED.as_slice(),
                record.bump(),
                program_id,
            ),
            None => None,
        }
    }

    /// The account holds a record, and `rederived` is its own address.
    pub open spec fn verified_by(self, rederived: Option<Seq<u8>>) -> bool {
        self.data is Some && rederived == Some(self.info.key@)
    }
}

} // verus!
