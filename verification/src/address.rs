use crate::errors::Errors;
use anchor_lang::prelude::Pubkey;
use vstd::bytes::spec_u64_to_le_bytes;
use vstd::bytes::u64_to_le_bytes;
use vstd::prelude::*;
use vstd::std_specs::cmp::PartialEqSpecImpl;

verus! {

/// A 32-byte account address: the identity of a party, an asset, a currency
/// or a record.
#[derive(Clone, Copy, Debug)]
pub struct Address {
    pub bytes: [u8; 32],
}

impl View for Address {
    type V = Seq<u8>;

    open spec fn view(&self) -> Seq<u8> {
        self.bytes@
    }
}

impl PartialEq for Address {
    fn eq(&self, other: &Address) -> (equal: bool) {
        let mut i: usize = 0;
        while i < 32
            invariant
                i <= 32,
                forall|j: int| 0 <= j < i ==> self.bytes[j] == other.bytes[j],
            decreases 32 - i,
        {
            if self.bytes[i] != other.bytes[i] {
                return false;
            }
            i += 1;
        }
        assert(self.bytes =~= other.bytes);
        true
    }
}

impl Eq for Address {

}

impl PartialEqSpecImpl for Address {
    open spec fn obeys_eq_spec() -> bool {
        true
    }

    open spec fn eq_spec(&self, other: &Address) -> bool {
        *self == *other
    }
}

impl Address {
    /// The address made of the given bytes.
    pub fn new(bytes: [u8; 32]) -> (address: Address)
        ensures
            address.bytes == bytes,
    {
        Address { bytes }
    }

    /// The bytes of the address.
    pub fn to_bytes(&self) -> (bytes: [u8; 32])
        ensures
            bytes == self.bytes,
    {
        self.bytes
    }
}

/// Two addresses with the same bytes are the same address.
pub proof fn lemma_address_by_view(a: Address, b: Address)
    ensures
        a@ == b@ <==> a == b,
{
    if a@ == b@ {
        assert(a.bytes =~= b.bytes);
    }
}

/// The address under which this program is deployed; every record address is
/// derived beneath it.
pub const PROGRAM_ID: [u8; 32] = [
    108, 84, 233, 7, 254, 2, 142, 245, 240, 213, 6, 111, 167, 215, 241, 179,
    32, 130, 251, 35, 226, 16, 151, 163, 213, 152, 8, 232, 188, 181, 19, 147,
];

/// The domain tag that opens every record's derivation: the ASCII of `escrow`.
pub open spec fn seed_tag() -> Seq<u8> {
    seq![101u8, 115u8, 99u8, 114u8, 111u8, 119u8]
}

/// The bytes of [`PROGRAM_ID`].
pub open spec fn program_id() -> Seq<u8> {
    PROGRAM_ID@
}

/// The derivation inputs of the record chosen by `seed`: the domain tag, then
/// the seed in little-endian order.
pub open spec fn escrow_seeds(seed: u64) -> Seq<Seq<u8>> {
    seq![seed_tag(), spec_u64_to_le_bytes(seed)]
}

/// The inputs that sign for the record chosen by `seed`: its derivation
/// inputs followed by the one-byte nonce.
pub open spec fn signer_seeds(seed: u64, nonce: u8) -> Seq<Seq<u8>> {
    escrow_seeds(seed).push(seq![nonce])
}

/// The views of a list of seeds.
pub open spec fn seeds_view(seeds: Seq<Vec<u8>>) -> Seq<Seq<u8>> {
    seeds.map_values(|part: Vec<u8>| part@)
}

/// What `Pubkey::create_program_address` makes of `seeds` under
/// `program_id`: the bytes of the address, or `None` where it reports an
/// error.
pub uninterp spec fn program_address(seeds: Seq<Seq<u8>>, program_id: Seq<u8>) -> Option<Seq<u8>>;

/// What `Pubkey::try_find_program_address` finds for `seeds` under
/// `program_id`: the bytes of the address and the nonce, or `None` where it
/// finds nothing.
pub uninterp spec fn found_program_address(seeds: Seq<Seq<u8>>, program_id: Seq<u8>) -> Option<
    (Seq<u8>, u8),
>;

/// Calls `Pubkey::create_program_address`. Trusted: the outcome is a function
/// of the seeds and the program id alone, named [`program_address`]; every
/// error of the outside function is reported as `None`.
#[verifier::external_body]
fn create_program_address(seeds: &Vec<Vec<u8>>, program_id: &Address) -> (made: Option<Address>)
    ensures
        match made {
            Some(address) => program_address(seeds_view(seeds@), program_id@) == Some(address@),
            None => program_address(seeds_view(seeds@), program_id@) is None,
        },
{
    let parts: Vec<&[u8]> = seeds.iter().map(|part| part.as_slice()).collect();
    match Pubkey::create_program_address(&parts, &Pubkey::new_from_array(program_id.bytes)) {
        Ok(key) => Some(Address { bytes: key.to_bytes() }),
        Err(_) => None,
    }
}

/// Calls `Pubkey::try_find_program_address`. Trusted: the outcome is a
/// function of the seeds and the program id alone, named
/// [`found_program_address`]; and an address that it finds is the one that
/// `Pubkey::create_program_address` makes of the same seeds followed by the
/// nonce, since the search returns what that very call gave it.
#[verifier::external_body]
fn try_find_program_address(seeds: &Vec<Vec<u8>>, program_id: &Address) -> (found: Option<
    (Address, u8),
>)
    ensures
        match found {
            Some((address, nonce)) => {
                &&& found_program_address(seeds_view(seeds@), program_id@) == Some(
                    (address@, nonce),
                )
                &&& program_address(seeds_view(seeds@).push(seq![nonce]), program_id@) == Some(
                    address@,
                )
            },
            None => found_program_address(seeds_view(seeds@), program_id@) is None,
        },
{
    let parts: Vec<&[u8]> = seeds.iter().map(|part| part.as_slice()).collect();
    match Pubkey::try_find_program_address(&parts, &Pubkey::new_from_array(program_id.bytes)) {
        Some((key, nonce)) => Some((Address { bytes: key.to_bytes() }, nonce)),
        None => None,
    }
}

/// The address whose bytes are `bytes`.
pub open spec fn address_of(bytes: Seq<u8>) -> Address {
    choose|address: Address| address@ == bytes
}

/// The record address and nonce that `seed` derives, or `None` in the
/// improbable case that no nonce yields a valid address.
pub open spec fn escrow_address(seed: u64) -> Option<(Address, u8)> {
    match found_program_address(escrow_seeds(seed), program_id()) {
        Some((bytes, nonce)) => Some((address_of(bytes), nonce)),
        None => None,
    }
}

/// Whether `seed` and `nonce` derive exactly `address`.
pub open spec fn reproduces(address: Address, seed: u64, nonce: u8) -> bool {
    program_address(signer_seeds(seed, nonce), program_id()) == Some(address@)
}

/// The domain tag and the little-endian seed, as the derivation takes them.
fn seeds_of(seed: u64) -> (seeds: Vec<Vec<u8>>)
    ensures
        seeds_view(seeds@) == escrow_seeds(seed),
{
    let tag: Vec<u8> = vec![101u8, 115u8, 99u8, 114u8, 111u8, 119u8];
    let number: Vec<u8> = u64_to_le_bytes(seed);
    let mut seeds: Vec<Vec<u8>> = Vec::new();
    seeds.push(tag);
    seeds.push(number);
    assert(tag@ =~= seed_tag());
    assert(seeds_view(seeds@) =~= escrow_seeds(seed));
    seeds
}

/// Derives the address of the record chosen by `seed`, with the nonce that
/// makes it valid. The address depends on the seed alone, not on who asks.
pub fn derive(seed: u64) -> (derived: Option<(Address, u8)>)
    ensures
        derived == escrow_address(seed),
        derived matches Some((address, nonce)) ==> reproduces(address, seed, nonce),
{
    let seeds = seeds_of(seed);
    let program = Address { bytes: PROGRAM_ID };
    let found = try_find_program_address(&seeds, &program);
    proof {
        if let Some((address, nonce)) = found {
            lemma_address_by_view(address, address_of(address@));
        }
    }
    found
}

/// Leave to act for a record's address. It exists only for an address that
/// its seed and nonce reproduce, and holds no secret.
pub struct Authority {
    address: Address,
    seed: u64,
    nonce: u8,
}

impl Authority {
    #[verifier::type_invariant]
    spec fn well_formed(self) -> bool {
        reproduces(self.address, self.seed, self.nonce)
    }

    /// The address that this authority acts for.
    pub closed spec fn address_spec(self) -> Address {
        self.address
    }

    /// The seed that the address was derived from.
    pub closed spec fn seed_spec(self) -> u64 {
        self.seed
    }

    /// The nonce that the address was derived with.
    pub closed spec fn nonce_spec(self) -> u8 {
        self.nonce
    }

    /// The address that this authority acts for; the seed and nonce reproduce it.
    pub fn address(&self) -> (address: Address)
        ensures
            address == self.address_spec(),
            reproduces(address, self.seed_spec(), self.nonce_spec()),
    {
        proof {
            use_type_invariant(self);
        }
        self.address
    }

    /// The seed that the address was derived from.
    pub fn seed(&self) -> (seed: u64)
        ensures
            seed == self.seed_spec(),
    {
        self.seed
    }

    /// The nonce that the address was derived with.
    pub fn nonce(&self) -> (nonce: u8)
        ensures
            nonce == self.nonce_spec(),
    {
        self.nonce
    }
}

/// Whether `authority` is leave to act for `address` as derived from `seed`
/// with `nonce`.
pub open spec fn grants(authority: Option<Authority>, address: Address, seed: u64, nonce: u8) -> bool {
    authority matches Some(held) && held.address_spec() == address && held.seed_spec() == seed
        && held.nonce_spec() == nonce
}

/// Tells whether `authority` is leave to act for `address` as derived from
/// `seed` with `nonce`.
pub fn holds_leave(authority: &Option<Authority>, address: &Address, seed: u64, nonce: u8) -> (held:
    bool)
    ensures
        held == grants(*authority, *address, seed, nonce),
{
    match authority {
        Some(leave) => leave.address() == *address && leave.seed() == seed && leave.nonce() == nonce,
        None => false,
    }
}

/// Grants leave to act for `address`, if and only if `seed` and `nonce`
/// reproduce it.
pub fn authorize_as(address: Address, seed: u64, nonce: u8) -> (granted: Result<Authority, Errors>)
    ensures
        match granted {
            Ok(authority) => {
                &&& reproduces(address, seed, nonce)
                &&& authority.address_spec() == address
                &&& authority.seed_spec() == seed
                &&& authority.nonce_spec() == nonce
            },
            Err(error) => error == Errors::AddressMismatch && !reproduces(address, seed, nonce),
        },
{
    let mut seeds = seeds_of(seed);
    let last: Vec<u8> = vec![nonce];
    seeds.push(last);
    assert(seeds_view(seeds@) =~= signer_seeds(seed, nonce)) by {
        assert(last@ =~= seq![nonce]);
    }
    let program = Address { bytes: PROGRAM_ID };
    match create_program_address(&seeds, &program) {
        Some(made) => {
            if made == address {
                Ok(Authority { address, seed, nonce })
            } else {
                proof {
                    lemma_address_by_view(made, address);
                }
                Err(Errors::AddressMismatch)
            }
        },
        None => Err(Errors::AddressMismatch),
    }
}

} // verus!
