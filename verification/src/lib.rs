//! An escrow that swaps custody of a unique asset for a fixed price in a
//! fungible currency. A maker opens an escrow and lists the asset; a taker
//! pays the price and receives the asset, or the maker cancels and takes the
//! asset back. Each operation happens as a whole or not at all.

use crate::address::authorize_as;
use crate::address::escrow_address;
use crate::address::grants;
use crate::address::reproduces;
use crate::address::Address;
use crate::address::Authority;
use crate::ledger::Ledger;
use crate::registry::asset_valid;
use crate::store::StateStore;
use vstd::prelude::*;

pub mod address;
pub mod address_map;
pub mod auth;
pub mod errors;
pub mod fee;
pub mod instructions;
pub mod laws;
pub mod ledger;
pub mod registry;
pub mod state;
pub mod store;
pub mod token;

pub use crate::errors::Errors;
pub use crate::instructions::Initialize;
pub use crate::instructions::Make;
pub use crate::instructions::Refund;
pub use crate::instructions::Take;
pub use crate::state::EscrowState;

verus! {

/// The leave to act for the record at `escrow`, asked for with `seed` and the
/// nonce that the record holds. There is none where no record lives there, or
/// where seed and nonce do not reproduce the address.
fn leave_for(store: &StateStore, escrow: &Address, seed: u64) -> (authority: Option<Authority>)
    ensures
        store@.records.contains_key(*escrow) ==> grants(
            authority,
            *escrow,
            seed,
            store@.records[*escrow].record.escrow_bump,
        ) == reproduces(*escrow, seed, store@.records[*escrow].record.escrow_bump),
{
    match store.read(escrow) {
        Ok(record) => {
            match authorize_as(*escrow, seed, record.escrow_bump) {
                Ok(authority) => Some(authority),
                Err(_) => None,
            }
        },
        Err(_) => None,
    }
}

/// Open: creates the escrow chosen by `seed` with the asking price `amount`,
/// at the address that the seed derives. See [`Initialize::opened`].
pub fn initialize(ledger: &mut Ledger, accounts: &Initialize, seed: u64, amount: u64) -> (done:
    Result<(), Errors>)
    ensures
        match accounts.opened(old(ledger)@, seed, escrow_address(seed), amount) {
            Ok(after) => done is Ok && final(ledger)@ == after,
            Err(error) => done == Err::<(), Errors>(error) && final(ledger)@ == old(ledger)@,
        },
{
    let derived = crate::address::derive(seed);
    accounts.initialize_escrow(ledger, seed, derived, amount)
}

/// List: hands the asset into the custody of the escrow chosen by `seed`.
/// See [`Make::listed`]. `amount` has no say.
pub fn make(ledger: &mut Ledger, accounts: &Make, amount: u64, seed: u64) -> (done: Result<
    (),
    Errors,
>)
    ensures
        match accounts.listed(
            old(ledger)@,
            reproduces(
                accounts.escrow,
                seed,
                old(ledger)@.store.records[accounts.escrow].record.escrow_bump,
            ),
            asset_valid(old(ledger)@.assets, accounts.asset),
        ) {
            Ok(after) => done is Ok && final(ledger)@ == after,
            Err(error) => done == Err::<(), Errors>(error) && final(ledger)@ == old(ledger)@,
        },
{
    let authority = leave_for(&ledger.store, &accounts.escrow, seed);
    let asset_ok = ledger.assets.validate(&accounts.asset);
    accounts.make_listing(ledger, amount, seed, authority, asset_ok)
}

/// Take: pays the recorded price to the maker, hands the asset to the taker
/// and closes the escrow chosen by `seed`. See [`Take::taken`].
pub fn take(ledger: &mut Ledger, accounts: &Take, seed: u64) -> (done: Result<(), Errors>)
    ensures
        match accounts.taken(
            old(ledger)@,
            reproduces(
                accounts.escrow,
                seed,
                old(ledger)@.store.records[accounts.escrow].record.escrow_bump,
            ),
            asset_valid(old(ledger)@.assets, accounts.asset),
        ) {
            Ok(after) => done is Ok && final(ledger)@ == after,
            Err(error) => done == Err::<(), Errors>(error) && final(ledger)@ == old(ledger)@,
        },
{
    let authority = leave_for(&ledger.store, &accounts.escrow, seed);
    let asset_ok = ledger.assets.validate(&accounts.asset);
    accounts.take_nft(ledger, seed, authority, asset_ok)
}

/// Cancel: returns the asset to the maker and closes the escrow chosen by
/// `seed`. See [`Refund::refunded`].
pub fn refund(ledger: &mut Ledger, accounts: &Refund, seed: u64) -> (done: Result<(), Errors>)
    ensures
        match accounts.refunded(
            old(ledger)@,
            reproduces(
                accounts.escrow,
                seed,
                old(ledger)@.store.records[accounts.escrow].record.escrow_bump,
            ),
            asset_valid(old(ledger)@.assets, accounts.asset),
        ) {
            Ok(after) => done is Ok && final(ledger)@ == after,
            Err(error) => done == Err::<(), Errors>(error) && final(ledger)@ == old(ledger)@,
        },
{
    let authority = leave_for(&ledger.store, &accounts.escrow, seed);
    let asset_ok = ledger.assets.validate(&accounts.asset);
    accounts.refund_nft(ledger, seed, authority, asset_ok)
}

} // verus!
