//! Addresses, and the derivation of the mint's address.

use anchor_lang::prelude::Pubkey;
use vstd::prelude::*;
use vstd::std_specs::cmp::PartialEqSpecImpl;

verus! {

/// Label from which the mint's address is derived: the bytes of `mint`.
pub const MINT_SEED: [u8; 4] = [109, 105, 110, 116];

/// Identity of the program that controls the MONARCA mint, written
/// `97k3YzUyZWYPVYCkMRkaHbpARiV4tzgSfDYVdbZg5Nbv` in base 58.
pub const PROGRAM_ID: [u8; 32] = [
    120, 151, 166, 119, 160, 91, 76, 196, 215, 128, 140, 12, 219, 122, 237, 79,
    131, 221, 255, 52, 252, 127, 245, 110, 135, 138, 114, 254, 64, 249, 214, 109,
];

/// Identity of an account, a program or a signer: 32 bytes.
#[derive(Clone, Copy, Debug)]
pub struct Address {
    pub bytes: [u8; 32],
}

impl View for Address {
    type V = Seq<u8>;

    open spec fn view(&self) -> Seq<u8> {
        self.bytes@
    }
}

impl PartialEq for Address {
    fn eq(&self, other: &Address) -> (r: bool) {
        let mut i: usize = 0;
        while i < 32
            invariant
                i <= 32,
                forall|j: int| 0 <= j < i ==> self.bytes[j] == other.bytes[j],
            decreases 32 - i,
        {
            if self.bytes[i] != other.bytes[i] {
                return false;
            }
            i += 1;
        }
        assert(self.bytes =~= other.bytes);
        true
    }
}

impl Eq for Address {}

impl PartialEqSpecImpl for Address {
    open spec fn obeys_eq_spec() -> bool {
        true
    }

    open spec fn eq_spec(&self, other: &Address) -> bool {
        *self == *other
    }
}

impl Address {
    /// The address made of `bytes`.
    pub fn new(bytes: [u8; 32]) -> (a: Address)
        ensures
            a.bytes == bytes,
    {
        Address { bytes }
    }

    /// The 32 bytes of the address.
    pub fn to_bytes(&self) -> (bytes: [u8; 32])
        ensures
            bytes == self.bytes,
    {
        self.bytes
    }

    /// Two addresses with the same bytes are the same address.
    pub proof fn lemma_view_injective(a: Address, b: Address)
        requires
            a@ == b@,
        ensures
            a == b,
    {
        assert(a.bytes =~= b.bytes);
    }
}

/// The result of `Pubkey::try_find_program_address` on the single seed `seed`
/// and the program `program_id`: the bytes of the derived address with its
/// bump seed, or `None` where the search finds no address.
pub uninterp spec fn program_address(seed: Seq<u8>, program_id: Seq<u8>) -> Option<(Seq<u8>, u8)>;

/// Whether `address` is the one derived from `seed` for `program_id`.
pub open spec fn is_derived(seed: Seq<u8>, program_id: Address, address: Address) -> bool {
    match program_address(seed, program_id@) {
        Some((bytes, _)) => bytes == address@,
        None => false,
    }
}

/// Whether an address can be derived from `seed` for `program_id`.
pub open spec fn has_derived(seed: Seq<u8>, program_id: Address) -> bool {
    program_address(seed, program_id@) is Some
}

/// Calls `Pubkey::try_find_program_address` with `seed` as the only seed.
///
/// Trusted. The outside function searches the bump seeds from 255 downwards
/// for the first hash of seed, bump and program that is no point of the
/// curve, and gives that hash with its bump, or `None` where it finds none
/// or the seed is longer than it accepts. The search is not restated here:
/// the contract claims only that the result is a function of the two
/// arguments, and gives it the name `program_address`.
#[verifier::external_body]
fn find_program_address(seed: &[u8], program_id: &Address) -> (r: Option<(Address, u8)>)
    ensures
        match r {
            Some((address, bump)) => program_address(seed@, program_id@) == Some(
                (address@, bump),
            ),
            None => program_address(seed@, program_id@) is None,
        },
{
    let id = Pubkey::new_from_array(program_id.bytes);
    match Pubkey::try_find_program_address(&[seed], &id) {
        Some((key, bump)) => Some((Address { bytes: key.to_bytes() }, bump)),
        None => None,
    }
}

/// Derives the address that belongs to `seed` under the program `program_id`.
///
/// The result depends on the two arguments only. It is `None` exactly where
/// no address exists for them.
pub fn derive_address(seed: &[u8], program_id: &Address) -> (r: Option<Address>)
    ensures
        r is Some <==> has_derived(seed@, *program_id),
        r matches Some(address) ==> is_derived(seed@, *program_id, address),
{
    match find_program_address(seed, program_id) {
        Some((address, _)) => Some(address),
        None => None,
    }
}

/// Derives the address of the mint of the program `program_id`.
pub fn mint_address(program_id: &Address) -> (r: Option<Address>)
    ensures
        r is Some <==> has_derived(MINT_SEED@, *program_id),
        r matches Some(address) ==> is_derived(MINT_SEED@, *program_id, address),
{
    derive_address(MINT_SEED.as_slice(), program_id)
}

/// Derivation is a function of its inputs: from equal seeds and equal
/// programs it gives an address in both cases or in neither, and two
/// addresses derived from them are equal.
pub proof fn lemma_derivation_deterministic(
    seed_a: Seq<u8>,
    program_a: Address,
    address_a: Address,
    seed_b: Seq<u8>,
    program_b: Address,
    address_b: Address,
)
    requires
        seed_a == seed_b,
        program_a == program_b,
    ensures
        has_derived(seed_a, program_a) == has_derived(seed_b, program_b),
        is_derived(seed_a, program_a, address_a) && is_derived(seed_b, program_b, address_b)
            ==> address_a == address_b,
{
    if is_derived(seed_a, program_a, address_a) && is_derived(seed_b, program_b, address_b) {
        Address::lemma_view_injective(address_a, address_b);
    }
}

} // verus!
