//! Addresses: the 32-byte keys that name signers and storage slots, and the
//! derivation that binds a note's slot to its author and identifier.

use anchor_lang::prelude::Pubkey;
use vstd::bytes::{spec_u64_to_le_bytes, u64_to_le_bytes};
use vstd::prelude::*;
use vstd::std_specs::cmp::PartialEqSpecImpl;

verus! {

/// A 32-byte key: a signer's public key or the location of a storage slot.
#[derive(Clone, Copy, Debug)]
pub struct Address {
    pub bytes: [u8; 32],
}

impl View for Address {
    type V = Seq<u8>;

    open spec fn view(&self) -> Seq<u8> {
        self.bytes@
    }
}

impl PartialEq for Address {
    fn eq(&self, other: &Self) -> (equal: bool) {
        let mut i: usize = 0;
        while i < 32
            invariant
                i <= 32,
                forall|k: int| 0 <= k < i ==> self.bytes@[k] == other.bytes@[k],
            decreases 32 - i,
        {
            if self.bytes[i] != other.bytes[i] {
                return false;
            }
            i += 1;
        }
        assert(self.bytes@ =~= other.bytes@);
        true
    }
}

impl PartialEqSpecImpl for Address {
    open spec fn obeys_eq_spec() -> bool {
        true
    }

    open spec fn eq_spec(&self, other: &Self) -> bool {
        self@ == other@
    }
}

impl Eq for Address {

}

/// The domain tag that opens the seeds of every note address: the bytes of `note`.
pub const NOTE_TAG: [u8; 4] = [110, 111, 116, 101];

/// The well-known identity of this service. Every note address is derived under it.
pub const PROGRAM_ID: [u8; 32] = [
    97, 188, 60, 57, 204, 32, 168, 225, 31, 79, 57, 167, 172, 247, 248, 139,
    116, 174, 211, 116, 122, 60, 125, 220, 120, 127, 110, 38, 183, 13, 143, 247,
];

/// What `Pubkey::try_find_program_address` returns for `seeds` under
/// `program_id`: the derived address with its bump seed, or nothing where the
/// search finds none.
pub uninterp spec fn program_address(seeds: Seq<Seq<u8>>, program_id: Seq<u8>) -> Option<
    (Seq<u8>, u8),
>;

/// A derivation result as plain sequences.
pub open spec fn found_view(found: Option<([u8; 32], u8)>) -> Option<(Seq<u8>, u8)> {
    match found {
        Some((address, bump)) => Some((address@, bump)),
        None => None,
    }
}

/// The seeds of the note that `author` keeps under `id`: the tag, the
/// author's key, and the identifier as eight little-endian bytes.
pub open spec fn note_seeds(author: Seq<u8>, id: u64) -> Seq<Seq<u8>> {
    seq![NOTE_TAG@, author, spec_u64_to_le_bytes(id)]
}

/// The address of the note that `author` keeps under `id`, where one can be derived.
pub open spec fn note_address_of(author: Seq<u8>, id: u64) -> Option<Seq<u8>> {
    match program_address(note_seeds(author, id), PROGRAM_ID@) {
        Some((address, _)) => Some(address),
        None => None,
    }
}

/// An optional address as plain bytes.
pub open spec fn address_view(address: Option<Address>) -> Option<Seq<u8>> {
    match address {
        Some(a) => Some(a@),
        None => None,
    }
}

/// Calls `Pubkey::try_find_program_address` on three seeds. The contract
/// names the outcome `program_address` of those seeds and that program key;
/// nothing else is claimed of it.
#[verifier::external_body]
fn try_find_program_address(
    first: &[u8],
    second: &[u8],
    third: &[u8],
    program_id: &[u8; 32],
) -> (found: Option<([u8; 32], u8)>)
    ensures
        found_view(found) == program_address(seq![first@, second@, third@], program_id@),
{
    let program = Pubkey::new_from_array(*program_id);
    match Pubkey::try_find_program_address(&[first, second, third], &program) {
        Some((address, bump)) => Some((address.to_bytes(), bump)),
        None => None,
    }
}

/// Derives the address of the note that `author` keeps under `id`. The same
/// pair always derives the same address; `None` means that no address exists
/// for the pair.
pub fn note_address(author: &Address, id: u64) -> (address: Option<Address>)
    ensures
        address_view(address) == note_address_of(author@, id),
{
    let id_bytes = u64_to_le_bytes(id);
    let tag = NOTE_TAG;
    let program = PROGRAM_ID;
    match try_find_program_address(tag.as_slice(), author.bytes.as_slice(), id_bytes.as_slice(), &program) {
        Some((bytes, _)) => Some(Address { bytes }),
        None => None,
    }
}

} // verus!
