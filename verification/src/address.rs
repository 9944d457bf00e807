//! Account addresses, and the derivation of addresses owned by a program.

use anchor_lang::prelude::Pubkey;
use vstd::prelude::*;

verus! {

/// The 32 bytes that name an account.
#[derive(Clone, Copy, Debug)]
pub struct Address {
    pub bytes: [u8; 32],
}

impl View for Address {
    type V = Seq<u8>;

    open spec fn view(&self) -> Seq<u8> {
        self.bytes@
    }
}

impl PartialEq for Address {
    /// Two addresses are equal when all their bytes are.
    fn eq(&self, other: &Address) -> (r: bool) {
        let mut i: usize = 0;
        while i < 32
            invariant
                i <= 32,
                forall|j: int| 0 <= j < i ==> self.bytes[j] == other.bytes[j],
            decreases 32 - i,
        {
            if self.bytes[i] != other.bytes[i] {
                return false;
            }
            i += 1;
        }
        assert(self@ =~= other@);
        true
    }
}

impl Eq for Address {

}

impl vstd::std_specs::cmp::PartialEqSpecImpl for Address {
    open spec fn obeys_eq_spec() -> bool {
        true
    }

    open spec fn eq_spec(&self, other: &Address) -> bool {
        self@ == other@
    }
}

/// An address derived for a program, with the bump seed that completes it.
#[derive(Clone, Copy, Debug, PartialEq, Eq)]
pub struct DerivedAddress {
    pub address: Address,
    pub bump: u8,
}

/// The address, and its bump seed, that the ledger derives for `program_id`
/// from the two seeds `tag` and `key`; `None` where no bump seed yields one.
pub uninterp spec fn program_address(tag: Seq<u8>, key: Seq<u8>, program_id: Seq<u8>) -> Option<
    (Seq<u8>, u8),
>;

/// The address whose bytes are `bytes`.
pub open spec fn address_of(bytes: Seq<u8>) -> Address {
    choose|address: Address| address@ == bytes
}

/// The derivation for `program_id` from the seeds `tag` and `key`, as
/// addresses of this library.
pub open spec fn derived_address(tag: Seq<u8>, key: Address, program_id: Address) -> Option<
    DerivedAddress,
> {
    match program_address(tag, key@, program_id@) {
        Some(found) => Some(DerivedAddress { address: address_of(found.0), bump: found.1 }),
        None => None,
    }
}

/// An address is known by its bytes.
pub proof fn lemma_address_of_view(address: Address)
    ensures
        address_of(address@) == address,
{
    let chosen = address_of(address@);
    assert(chosen@ == address@);
    assert(chosen.bytes =~= address.bytes);
}

/// Calls `Pubkey::try_find_program_address`, which `anchor_lang` hands on
/// from the Solana SDK, with the two seeds `tag` and `key` for `program_id`.
///
/// Trusted, not proved: the outside function hashes its seeds, a bump seed
/// and the program id, and tries bump seeds from 255 downwards until the
/// hash is a valid program address. Its result therefore depends on the
/// three arguments alone, and the contract says no more than that: what
/// comes back is [`program_address`] of the arguments. Nothing is claimed
/// about which address that is, nor that one is found.
#[verifier::external_body]
fn find_program_address(tag: &[u8], key: &Address, program_id: &Address) -> (r: Option<
    DerivedAddress,
>)
    ensures
        r matches Some(found) ==> program_address(tag@, key@, program_id@) == Some(
            (found.address@, found.bump),
        ),
        r is None ==> program_address(tag@, key@, program_id@) is None,
{
    Pubkey::try_find_program_address(&[tag, &key.bytes], &Pubkey::new_from_array(program_id.bytes))
        .map(|found| DerivedAddress { address: Address { bytes: found.0.to_bytes() }, bump: found.1 })
}

/// Derives the address that `program_id` owns under the seeds `tag` and
/// `key`, with its bump seed. `None` where the ledger finds no such address.
pub fn derive_address(tag: &[u8], key: &Address, program_id: &Address) -> (r: Option<
    DerivedAddress,
>)
    ensures
        r == derived_address(tag@, *key, *program_id),
{
    let found = find_program_address(tag, key, program_id);
    proof {
        if let Some(derived) = found {
            lemma_address_of_view(derived.address);
        }
    }
    found
}

} // verus!
