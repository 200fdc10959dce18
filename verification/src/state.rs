use crate::address::address_of;
use crate::address::lemma_address_by_view;
use crate::address::Address;
use vstd::bytes::lemma_auto_spec_u64_to_from_le_bytes;
use vstd::bytes::spec_u64_from_le_bytes;
use vstd::bytes::spec_u64_to_le_bytes;
use vstd::bytes::u64_from_le_bytes;
use vstd::bytes::u64_to_le_bytes;
use vstd::prelude::*;
use vstd::slice::slice_subrange;

verus! {

/// The number of bytes that a stored record takes, without any tag that the
/// storage puts in front of it.
pub const INIT_SPACE: usize = 146;

/// The fee, in percent, that every record is opened with.
pub const FEE_PERCENT: u8 = 5;

/// One escrow in progress: what is offered, by whom, and for how much.
#[derive(Clone, Copy, Debug, PartialEq, Eq)]
pub struct EscrowState {
    /// The number chosen by the maker from which the record's address is derived.
    pub seed: u64,
    /// The party that opened the escrow.
    pub maker: Address,
    /// The unique asset on offer.
    pub nft_mint: Address,
    /// The currency in which the price is paid.
    pub currency_mint: Address,
    /// The amount of currency that takes the asset.
    pub price: u64,
    /// The currency account kept by the record's own authority.
    pub vault_ata: Address,
    /// The nonce with which the record's address was derived.
    pub escrow_bump: u8,
    /// The fee in percent; recorded, and not applied at settlement.
    pub fee_percent: u8,
}

impl EscrowState {
    /// What holds of every record that an escrow is opened with: a positive
    /// price and a fee of at most a hundred percent.
    pub open spec fn valid(self) -> bool {
        self.price > 0 && self.fee_percent <= 100
    }

    /// The stored form of the record: its fields in order, integers
    /// little-endian, addresses as their 32 bytes.
    pub open spec fn encoding(self) -> Seq<u8> {
        spec_u64_to_le_bytes(self.seed) + self.maker@ + self.nft_mint@ + self.currency_mint@
            + spec_u64_to_le_bytes(self.price) + self.vault_ata@ + seq![
            self.escrow_bump,
            self.fee_percent,
        ]
    }

    /// The record that `data` is the stored form of; `None` where `data` has
    /// not the length of a record.
    pub open spec fn decoding(data: Seq<u8>) -> Option<EscrowState> {
        if data.len() != INIT_SPACE {
            None
        } else {
            Some(
                EscrowState {
                    seed: spec_u64_from_le_bytes(data.subrange(0, 8)),
                    maker: address_of(data.subrange(8, 40)),
                    nft_mint: address_of(data.subrange(40, 72)),
                    currency_mint: address_of(data.subrange(72, 104)),
                    price: spec_u64_from_le_bytes(data.subrange(104, 112)),
                    vault_ata: address_of(data.subrange(112, 144)),
                    escrow_bump: data[144],
                    fee_percent: data[145],
                },
            )
        }
    }

    /// Writes the record in its stored form.
    pub fn encode(&self) -> (data: Vec<u8>)
        ensures
            data@ == self.encoding(),
            data@.len() == INIT_SPACE,
    {
        proof {
            lemma_auto_spec_u64_to_from_le_bytes();
        }
        let mut data: Vec<u8> = u64_to_le_bytes(self.seed);
        append_address(&mut data, &self.maker);
        append_address(&mut data, &self.nft_mint);
        append_address(&mut data, &self.currency_mint);
        let mut price: Vec<u8> = u64_to_le_bytes(self.price);
        data.append(&mut price);
        append_address(&mut data, &self.vault_ata);
        data.push(self.escrow_bump);
        data.push(self.fee_percent);
        assert(data@ =~= self.encoding());
        data
    }

    /// Reads a record from its stored form. Succeeds exactly on data of the
    /// length of a record.
    pub fn decode(data: &[u8]) -> (record: Option<EscrowState>)
        ensures
            record == EscrowState::decoding(data@),
            record is Some <==> data@.len() == INIT_SPACE,
    {
        if data.len() != INIT_SPACE {
            return None;
        }
        let seed = u64_from_le_bytes(slice_subrange(data, 0, 8));
        let maker = read_address(data, 8);
        let nft_mint = read_address(data, 40);
        let currency_mint = read_address(data, 72);
        let price = u64_from_le_bytes(slice_subrange(data, 104, 112));
        let vault_ata = read_address(data, 112);
        Some(
            EscrowState {
                seed,
                maker,
                nft_mint,
                currency_mint,
                price,
                vault_ata,
                escrow_bump: data[144],
                fee_percent: data[145],
            },
        )
    }
}

/// Appends the 32 bytes of `address` to `data`.
fn append_address(data: &mut Vec<u8>, address: &Address)
    ensures
        final(data)@ == old(data)@ + address@,
{
    let mut i: usize = 0;
    while i < 32
        invariant
            i <= 32,
            data@ == old(data)@ + address@.subrange(0, i as int),
        decreases 32 - i,
    {
        data.push(address.bytes[i]);
        assert(data@ =~= old(data)@ + address@.subrange(0, i + 1));
        i += 1;
    }
    assert(address@.subrange(0, 32) =~= address@);
}

/// The address whose bytes stand in `data` from position `start` on.
fn read_address(data: &[u8], start: usize) -> (address: Address)
    requires
        start + 32 <= data@.len(),
    ensures
        address == address_of(data@.subrange(start as int, start + 32)),
        address@ == data@.subrange(start as int, start + 32),
{
    let mut bytes: [u8; 32] = [0u8; 32];
    let length: usize = data.len();
    let mut i: usize = 0;
    while i < 32
        invariant
            i <= 32,
            start + 32 <= length,
            length == data@.len(),
            forall|j: int| 0 <= j < i ==> bytes[j] == data@[start + j],
        decreases 32 - i,
    {
        bytes[i] = data[start + i];
        i += 1;
    }
    let address = Address { bytes };
    assert(address@ =~= data@.subrange(start as int, start + 32));
    proof {
        lemma_address_by_view(address, address_of(address@));
    }
    address
}

/// Reading back what was written gives the record that was written.
pub proof fn lemma_decode_encode(record: EscrowState)
    ensures
        EscrowState::decoding(record.encoding()) == Some(record),
{
    lemma_auto_spec_u64_to_from_le_bytes();
    let data = record.encoding();
    assert(data.len() == INIT_SPACE);
    assert(data.subrange(0, 8) =~= spec_u64_to_le_bytes(record.seed));
    assert(data.subrange(8, 40) =~= record.maker@);
    assert(data.subrange(40, 72) =~= record.nft_mint@);
    assert(data.subrange(72, 104) =~= record.currency_mint@);
    assert(data.subrange(104, 112) =~= spec_u64_to_le_bytes(record.price));
    assert(data.subrange(112, 144) =~= record.vault_ata@);
    lemma_address_by_view(record.maker, address_of(record.maker@));
    lemma_address_by_view(record.nft_mint, address_of(record.nft_mint@));
    lemma_address_by_view(record.currency_mint, address_of(record.currency_mint@));
    lemma_address_by_view(record.vault_ata, address_of(record.vault_ata@));
}

/// Two records with the same stored form are the same record.
pub proof fn lemma_encoding_injective(a: EscrowState, b: EscrowState)
    requires
        a.encoding() == b.encoding(),
    ensures
        a == b,
{
    lemma_decode_encode(a);
    lemma_decode_encode(b);
}

} // verus!
