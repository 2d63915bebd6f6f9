//! Account addresses, and the derivation of a program's own addresses from a tag.
//!
//! An address is 32 bytes. A program derives an address of its own from a tag
//! and a one-byte witness, the bump; the derivation is the ledger's, and is
//! reached here through `Pubkey`.

use anchor_lang::prelude::Pubkey;
use vstd::prelude::*;
use vstd::std_specs::cmp::PartialEqSpecImpl;

verus! {

/// The tag that the bank's address is derived from: the bytes of `bank`.
pub const BANK_SEED: [u8; 4] = [0x62, 0x61, 0x6e, 0x6b];

/// The identity of an account on the ledger.
#[derive(Clone, Copy, Debug, Eq)]
pub struct Address {
    pub bytes: [u8; 32],
}

impl View for Address {
    type V = Seq<u8>;

    open spec fn view(&self) -> Seq<u8> {
        self.bytes@
    }
}

impl PartialEq for Address {
    fn eq(&self, other: &Self) -> (r: bool) {
        let mut i: usize = 0;
        while i < 32
            invariant
                i <= 32,
                forall|j: int| 0 <= j < i ==> self.bytes[j] == other.bytes[j],
            decreases 32 - i,
        {
            if self.bytes[i] != other.bytes[i] {
                return false;
            }
            i += 1;
        }
        proof {
            assert(self.bytes =~= other.bytes);
        }
        true
    }
}

impl PartialEqSpecImpl for Address {
    open spec fn obeys_eq_spec() -> bool {
        true
    }

    open spec fn eq_spec(&self, other: &Self) -> bool {
        *self == *other
    }
}

/// Two addresses are the same exactly when their bytes are.
pub proof fn lemma_address_is_its_bytes(a: Address, b: Address)
    ensures
        (a@ == b@) <==> (a == b),
{
    if a@ == b@ {
        assert(a.bytes =~= b.bytes);
    }
}

/// The address that `Pubkey::create_program_address` gives for the seeds
/// `[tag, [bump]]` under `program`, as bytes; `None` where it gives an error.
pub uninterp spec fn program_address(tag: Seq<u8>, bump: u8, program: Seq<u8>) -> Option<Seq<u8>>;

/// The address and bump that `Pubkey::try_find_program_address` gives for the
/// single seed `tag` under `program`; `None` where it finds none.
pub uninterp spec fn found_program_address(tag: Seq<u8>, program: Seq<u8>) -> Option<
    (Seq<u8>, u8),
>;

/// The bytes of an address that may be absent.
pub open spec fn address_bytes(address: Option<Address>) -> Option<Seq<u8>> {
    match address {
        Some(a) => Some(a@),
        None => None,
    }
}

/// The bytes of a derived address, with its bump.
pub open spec fn derivation_bytes(derived: Option<(Address, u8)>) -> Option<(Seq<u8>, u8)> {
    match derived {
        Some((a, bump)) => Some((a@, bump)),
        None => None,
    }
}

/// Whether `address` is the one that `tag` and `bump` derive under `program`.
pub open spec fn verifies(program: Seq<u8>, address: Seq<u8>, tag: Seq<u8>, bump: u8) -> bool {
    program_address(tag, bump, program) == Some(address)
}

/// A tag and a bump derive at most one address under a program: to derive
/// again is to get the same address.
pub proof fn lemma_bump_fixes_address(
    program: Seq<u8>,
    tag: Seq<u8>,
    bump: u8,
    first: Seq<u8>,
    second: Seq<u8>,
)
    requires
        verifies(program, first, tag, bump),
        verifies(program, second, tag, bump),
    ensures
        first == second,
{
}

/// Calls `Pubkey::create_program_address` with the seeds `[tag, [bump]]`.
///
/// Trusted: the result is a function of the three arguments alone, named
/// `program_address`; an error of the outside function comes back as `None`.
#[verifier::external_body]
pub(crate) fn create_program_address(tag: &[u8], bump: u8, program_id: &Address) -> (r: Option<
    Address,
>)
    ensures
        address_bytes(r) == program_address(tag@, bump, program_id@),
{
    let program = Pubkey::new_from_array(program_id.bytes);
    match Pubkey::create_program_address(&[tag, &[bump]], &program) {
        Ok(address) => Some(Address { bytes: address.to_bytes() }),
        Err(_) => None,
    }
}

/// Calls `Pubkey::try_find_program_address` with the single seed `tag`.
///
/// Trusted: the result is a function of the two arguments alone, named
/// `found_program_address`; and an address that was found is the one that
/// `Pubkey::create_program_address` gives for the same tag and the bump found
/// with it, as the outside function's search loop returns no other.
#[verifier::external_body]
fn try_find_program_address(tag: &[u8], program_id: &Address) -> (r: Option<(Address, u8)>)
    ensures
        derivation_bytes(r) == found_program_address(tag@, program_id@),
        r matches Some((address, bump)) ==> verifies(program_id@, address@, tag@, bump),
{
    let program = Pubkey::new_from_array(program_id.bytes);
    match Pubkey::try_find_program_address(&[tag], &program) {
        Some((address, bump)) => Some((Address { bytes: address.to_bytes() }, bump)),
        None => None,
    }
}

/// Derives the address that belongs to `tag` under the program `program_id`,
/// together with the bump that proves it. `None` where no bump gives an
/// address.
pub fn derive_address(program_id: &Address, tag: &[u8]) -> (r: Option<(Address, u8)>)
    ensures
        derivation_bytes(r) == found_program_address(tag@, program_id@),
        r matches Some((address, bump)) ==> verifies(program_id@, address@, tag@, bump),
{
    try_find_program_address(tag, program_id)
}

/// Re-derives the address of `tag` and `bump` under `program_id`, without a
/// search, and tells whether it is `address`.
pub fn verify_address(program_id: &Address, address: &Address, tag: &[u8], bump: u8) -> (r: bool)
    ensures
        r == verifies(program_id@, address@, tag@, bump),
{
    match create_program_address(tag, bump, program_id) {
        Some(derived) => {
            proof {
                lemma_address_is_its_bytes(derived, *address);
            }
            derived == *address
        },
        None => false,
    }
}

} // verus!
