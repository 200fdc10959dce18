use crate::address::Address;
use crate::errors::Errors;
use crate::fee::fee_amount_spec;
use crate::instructions::initialize::Initialize;
use crate::instructions::make::Make;
use crate::instructions::refund::Refund;
use crate::instructions::take::Take;
use crate::ledger::LedgerView;
use crate::ledger::Phase;
use crate::registry::reassign_outcome;
use crate::state::EscrowState;
use crate::store::Slot;
use crate::token::ensure_outcome;
use crate::token::ensured;
use crate::token::transfer_outcome;
use vstd::prelude::*;

verus! {

/// Whether every live record of `ledger` has a positive price and a fee of at
/// most a hundred percent.
pub open spec fn records_valid(ledger: LedgerView) -> bool {
    forall|address: Address| #[trigger]
        ledger.store.records.contains_key(address)
            ==> ledger.store.records[address].record.valid()
}

/// A successful Open leaves at the derived address exactly the record that it
/// was asked to write, and that record has a positive price and the fixed fee.
pub proof fn lemma_open_writes_record(
    accounts: Initialize,
    ledger: LedgerView,
    seed: u64,
    derived: Option<(Address, u8)>,
    amount: u64,
)
    requires
        accounts.opened(ledger, seed, derived, amount) is Ok,
    ensures
        derived matches Some((address, nonce)) && {
            let after = accounts.opened(ledger, seed, derived, amount)->Ok_0;
            &&& address == accounts.escrow
            &&& after.store.records.contains_key(address)
            &&& after.store.records[address].record == accounts.record(seed, nonce, amount)
            &&& after.store.records[address].record.valid()
            &&& after.store.records[address].record.price == amount
        },
{
}

/// Opening twice over the same seed, by whomever, leaves the record of the
/// second Open: its price is the second price. The bond posted by the first
/// stays, and the second pays none.
pub proof fn lemma_reopen_overwrites(
    first: Initialize,
    second: Initialize,
    ledger: LedgerView,
    seed: u64,
    derived: Option<(Address, u8)>,
    first_price: u64,
    second_price: u64,
)
    requires
        first.opened(ledger, seed, derived, first_price) is Ok,
        second.opened(
            first.opened(ledger, seed, derived, first_price)->Ok_0,
            seed,
            derived,
            second_price,
        ) is Ok,
    ensures
        derived matches Some((address, nonce)) && {
            let between = first.opened(ledger, seed, derived, first_price)->Ok_0;
            let after = second.opened(between, seed, derived, second_price)->Ok_0;
            &&& after.store.records[address].record == second.record(seed, nonce, second_price)
            &&& after.store.records[address].record.price == second_price
            &&& after.store.records[address].bond == between.store.records[address].bond
            &&& after.store.funds == between.store.funds
        },
{
}

/// List never succeeds for a signer that does not hold the asset in the
/// registry; and where the record is found, its address reproduced and the
/// signer is its maker, the refusal is `InvalidAsset`.
pub proof fn lemma_list_requires_ownership(
    accounts: Make,
    ledger: LedgerView,
    authorized: bool,
    asset_ok: bool,
)
    requires
        !(ledger.assets.contains_key(accounts.asset) && ledger.assets[accounts.asset].owner
            == accounts.maker),
    ensures
        accounts.listed(ledger, authorized, asset_ok) is Err,
        ledger.store.records.contains_key(accounts.escrow) && authorized
            && ledger.store.records[accounts.escrow].record.maker == accounts.maker
            ==> accounts.listed(ledger, authorized, asset_ok) == Err::<LedgerView, Errors>(
            Errors::InvalidAsset,
        ),
{
}

/// A successful List moves the asset to the record's address and changes
/// nothing else.
pub proof fn lemma_list_moves_custody(
    accounts: Make,
    ledger: LedgerView,
    authorized: bool,
    asset_ok: bool,
)
    requires
        accounts.listed(ledger, authorized, asset_ok) is Ok,
    ensures
        ({
            let after = accounts.listed(ledger, authorized, asset_ok)->Ok_0;
            &&& after.assets[accounts.asset].owner == accounts.escrow
            &&& after.store == ledger.store
            &&& after.tokens == ledger.tokens
        }),
{
}

/// A successful Take moves exactly the recorded price: that much leaves the
/// taker's account and that much reaches the maker's, whatever fee the record
/// names, and no other account changes. Take has no parameter through which
/// a caller could name another amount.
pub proof fn lemma_take_pays_exact_price(
    accounts: Take,
    ledger: LedgerView,
    authorized: bool,
    asset_ok: bool,
)
    requires
        accounts.taken(ledger, authorized, asset_ok) is Ok,
    ensures
        ({
            let after = accounts.taken(ledger, authorized, asset_ok)->Ok_0;
            let record = ledger.store.records[accounts.escrow].record;
            let payer = accounts.taker_ata_sol;
            let payee = accounts.maker_ata_sol;
            &&& after.tokens.dom() == ledger.tokens.dom()
            &&& payer != payee ==> after.tokens[payer].amount == ledger.tokens[payer].amount
                - record.price
            &&& payer != payee ==> after.tokens[payee].amount == ledger.tokens[payee].amount
                + record.price
            &&& payer == payee ==> after.tokens == ledger.tokens
            &&& forall|other: Address|
                other != payer && other != payee && ledger.tokens.contains_key(other)
                    ==> #[trigger] after.tokens[other] == ledger.tokens[other]
        }),
{
    let after = accounts.taken(ledger, authorized, asset_ok)->Ok_0;
    assert(after.tokens.dom() =~= ledger.tokens.dom());
}

/// The fee that a record names is not applied: where it is not zero, a
/// successful Take still pays the maker the full price, which is more than
/// the price less the fee.
pub proof fn lemma_fee_is_inert(accounts: Take, ledger: LedgerView, authorized: bool, asset_ok: bool)
    requires
        accounts.taken(ledger, authorized, asset_ok) is Ok,
        accounts.taker_ata_sol != accounts.maker_ata_sol,
    ensures
        ({
            let after = accounts.taken(ledger, authorized, asset_ok)->Ok_0;
            let record = ledger.store.records[accounts.escrow].record;
            let gain = after.tokens[accounts.maker_ata_sol].amount
                - ledger.tokens[accounts.maker_ata_sol].amount;
            &&& gain == record.price
            &&& fee_amount_spec(record.price, record.fee_percent) > 0 ==> gain > record.price
                - fee_amount_spec(record.price, record.fee_percent)
        }),
{
}

/// A successful Take hands the asset to the taker, closes the record and
/// returns its bond to the maker.
pub proof fn lemma_take_settles(accounts: Take, ledger: LedgerView, authorized: bool, asset_ok: bool)
    requires
        accounts.taken(ledger, authorized, asset_ok) is Ok,
    ensures
        ({
            let after = accounts.taken(ledger, authorized, asset_ok)->Ok_0;
            let slot = ledger.store.records[accounts.escrow];
            &&& after.assets[accounts.asset].owner == accounts.taker
            &&& !after.store.records.contains_key(accounts.escrow)
            &&& after.store.read_outcome(accounts.escrow) == Err::<EscrowState, Errors>(Errors::NotFound)
            &&& after.store.balance(slot.record.maker) == ledger.store.balance(slot.record.maker)
                + slot.bond
        }),
{
}

/// A successful Cancel returns the asset to the maker, moves no currency,
/// closes the record and returns its bond to the maker.
pub proof fn lemma_refund_unwinds(
    accounts: Refund,
    ledger: LedgerView,
    authorized: bool,
    asset_ok: bool,
)
    requires
        accounts.refunded(ledger, authorized, asset_ok) is Ok,
    ensures
        ({
            let after = accounts.refunded(ledger, authorized, asset_ok)->Ok_0;
            let slot = ledger.store.records[accounts.escrow];
            &&& after.assets[accounts.asset].owner == accounts.maker
            &&& after.tokens == ledger.tokens
            &&& !after.store.records.contains_key(accounts.escrow)
            &&& after.store.read_outcome(accounts.escrow) == Err::<EscrowState, Errors>(Errors::NotFound)
            &&& after.store.balance(accounts.maker) == ledger.store.balance(accounts.maker)
                + slot.bond
        }),
{
}

/// At an address where no record lives, an Open that asks a positive price at
/// the derived address, whose maker can post the bond and whose currency
/// accounts are free or fitting, succeeds and writes a fresh record with a
/// newly posted bond.
pub proof fn lemma_open_at_free_address(
    accounts: Initialize,
    ledger: LedgerView,
    seed: u64,
    nonce: u8,
    amount: u64,
)
    requires
        !ledger.store.records.contains_key(accounts.escrow),
        amount > 0,
        ledger.store.balance(accounts.maker) >= ledger.store.bond,
        ensure_outcome(ledger.tokens, accounts.maker_ata_sol, accounts.maker, accounts.mint_sol)
            is Ok,
        ensure_outcome(
            ensured(ledger.tokens, accounts.maker_ata_sol, accounts.maker, accounts.mint_sol),
            accounts.vault,
            accounts.escrow,
            accounts.mint_sol,
        ) is Ok,
    ensures
        accounts.opened(ledger, seed, Some((accounts.escrow, nonce)), amount) is Ok,
        accounts.opened(
            ledger,
            seed,
            Some((accounts.escrow, nonce)),
            amount,
        )->Ok_0.store.records[accounts.escrow] == (Slot {
            record: accounts.record(seed, nonce, amount),
            bond: ledger.store.bond,
        }),
{
}

/// After a successful Take the record's address is free: an Open over the
/// same seed that meets the conditions of [`lemma_open_at_free_address`]
/// succeeds and writes a fresh record.
pub proof fn lemma_reopen_after_take(
    taking: Take,
    opening: Initialize,
    ledger: LedgerView,
    authorized: bool,
    asset_ok: bool,
    seed: u64,
    nonce: u8,
    amount: u64,
)
    requires
        taking.taken(ledger, authorized, asset_ok) is Ok,
        opening.escrow == taking.escrow,
        amount > 0,
        ({
            let after = taking.taken(ledger, authorized, asset_ok)->Ok_0;
            &&& after.store.balance(opening.maker) >= after.store.bond
            &&& ensure_outcome(
                after.tokens,
                opening.maker_ata_sol,
                opening.maker,
                opening.mint_sol,
            ) is Ok
            &&& ensure_outcome(
                ensured(after.tokens, opening.maker_ata_sol, opening.maker, opening.mint_sol),
                opening.vault,
                opening.escrow,
                opening.mint_sol,
            ) is Ok
        }),
    ensures
        ({
            let after = taking.taken(ledger, authorized, asset_ok)->Ok_0;
            let reopened = opening.opened(after, seed, Some((opening.escrow, nonce)), amount);
            &&& reopened is Ok
            &&& reopened->Ok_0.store.records[opening.escrow] == (Slot {
                record: opening.record(seed, nonce, amount),
                bond: after.store.bond,
            })
        }),
{
    let after = taking.taken(ledger, authorized, asset_ok)->Ok_0;
    lemma_take_settles(taking, ledger, authorized, asset_ok);
    lemma_open_at_free_address(opening, after, seed, nonce, amount);
}

/// After a successful Cancel the record's address is free: an Open over the
/// same seed that meets the conditions of [`lemma_open_at_free_address`]
/// succeeds and writes a fresh record.
pub proof fn lemma_reopen_after_refund(
    cancelling: Refund,
    opening: Initialize,
    ledger: LedgerView,
    authorized: bool,
    asset_ok: bool,
    seed: u64,
    nonce: u8,
    amount: u64,
)
    requires
        cancelling.refunded(ledger, authorized, asset_ok) is Ok,
        opening.escrow == cancelling.escrow,
        amount > 0,
        ({
            let after = cancelling.refunded(ledger, authorized, asset_ok)->Ok_0;
            &&& after.store.balance(opening.maker) >= after.store.bond
            &&& ensure_outcome(
                after.tokens,
                opening.maker_ata_sol,
                opening.maker,
                opening.mint_sol,
            ) is Ok
            &&& ensure_outcome(
                ensured(after.tokens, opening.maker_ata_sol, opening.maker, opening.mint_sol),
                opening.vault,
                opening.escrow,
                opening.mint_sol,
            ) is Ok
        }),
    ensures
        ({
            let after = cancelling.refunded(ledger, authorized, asset_ok)->Ok_0;
            let reopened = opening.opened(after, seed, Some((opening.escrow, nonce)), amount);
            &&& reopened is Ok
            &&& reopened->Ok_0.store.records[opening.escrow] == (Slot {
                record: opening.record(seed, nonce, amount),
                bond: after.store.bond,
            })
        }),
{
    let after = cancelling.refunded(ledger, authorized, asset_ok)->Ok_0;
    lemma_refund_unwinds(cancelling, ledger, authorized, asset_ok);
    lemma_open_at_free_address(opening, after, seed, nonce, amount);
}

/// Cancel never succeeds for a signer other than the record's maker; and
/// where the record is found and its address reproduced, the refusal is
/// `Unauthorized`.
pub proof fn lemma_refund_needs_maker(
    accounts: Refund,
    ledger: LedgerView,
    authorized: bool,
    asset_ok: bool,
)
    requires
        ledger.store.records.contains_key(accounts.escrow),
        ledger.store.records[accounts.escrow].record.maker != accounts.maker,
    ensures
        accounts.refunded(ledger, authorized, asset_ok) is Err,
        authorized ==> accounts.refunded(ledger, authorized, asset_ok) == Err::<
            LedgerView,
            Errors,
        >(Errors::Unauthorized),
{
}

/// Take is open to every signer: it is never refused as `Unauthorized`, and
/// it succeeds for whoever signs, provided that the named accounts are the
/// recorded ones, the asset is valid and in custody, the signer's own
/// currency account can pay the price into the maker's, and the bond can
/// return.
pub proof fn lemma_take_open_to_any_signer(
    accounts: Take,
    ledger: LedgerView,
    authorized: bool,
    asset_ok: bool,
)
    ensures
        accounts.taken(ledger, authorized, asset_ok) != Err::<LedgerView, Errors>(
            Errors::Unauthorized,
        ),
        ({
            let record = ledger.store.records[accounts.escrow].record;
            &&& ledger.store.records.contains_key(accounts.escrow)
            &&& authorized
            &&& asset_ok
            &&& record.maker == accounts.maker
            &&& record.currency_mint == accounts.mint_sol
            &&& record.nft_mint == accounts.asset
            &&& ledger.tokens.contains_key(accounts.maker_ata_sol)
            &&& ledger.tokens[accounts.maker_ata_sol].owner == record.maker
            &&& transfer_outcome(
                ledger.tokens,
                accounts.taker_ata_sol,
                accounts.maker_ata_sol,
                record.currency_mint,
                accounts.taker,
                record.price,
            ) is Ok
            &&& reassign_outcome(ledger.assets, accounts.asset, accounts.escrow) is Ok
            &&& ledger.store.close_outcome(accounts.escrow, record.maker) is Ok
        }) ==> accounts.taken(ledger, authorized, asset_ok) is Ok,
{
}

/// The life of an escrow runs from absent over open to listed and back to
/// absent: a successful Open leaves a record; a successful List starts from a
/// record and ends listed; a successful Take or Cancel starts listed and ends
/// absent.
pub proof fn lemma_lifecycle(
    ledger: LedgerView,
    opening: Initialize,
    listing: Make,
    taking: Take,
    cancelling: Refund,
    seed: u64,
    derived: Option<(Address, u8)>,
    amount: u64,
    authorized: bool,
    asset_ok: bool,
)
    ensures
        opening.opened(ledger, seed, derived, amount) matches Ok(after) ==> after.phase(
            opening.escrow,
        ) != Phase::Absent,
        listing.listed(ledger, authorized, asset_ok) matches Ok(after) ==> ledger.phase(
            listing.escrow,
        ) != Phase::Absent && after.phase(listing.escrow) == Phase::Listed,
        taking.taken(ledger, authorized, asset_ok) matches Ok(after) ==> ledger.phase(
            taking.escrow,
        ) == Phase::Listed && after.phase(taking.escrow) == Phase::Absent,
        cancelling.refunded(ledger, authorized, asset_ok) matches Ok(after) ==> ledger.phase(
            cancelling.escrow,
        ) == Phase::Listed && after.phase(cancelling.escrow) == Phase::Absent,
{
}

/// Whether `other` holds the same record after as before, or none in both.
pub open spec fn same_record_at(before: LedgerView, after: LedgerView, other: Address) -> bool {
    &&& after.store.records.contains_key(other) == before.store.records.contains_key(other)
    &&& after.store.records[other] == before.store.records[other]
}

/// Escrows at different addresses do not meet: whatever an operation on one
/// record address does, the record at any other address, and whether there
/// is one, stays as it was.
pub proof fn lemma_other_records_untouched(
    ledger: LedgerView,
    opening: Initialize,
    listing: Make,
    taking: Take,
    cancelling: Refund,
    other: Address,
    seed: u64,
    derived: Option<(Address, u8)>,
    amount: u64,
    authorized: bool,
    asset_ok: bool,
)
    requires
        other != opening.escrow,
        other != listing.escrow,
        other != taking.escrow,
        other != cancelling.escrow,
    ensures
        opening.opened(ledger, seed, derived, amount) matches Ok(after) ==> same_record_at(
            ledger,
            after,
            other,
        ),
        listing.listed(ledger, authorized, asset_ok) matches Ok(after) ==> same_record_at(
            ledger,
            after,
            other,
        ),
        taking.taken(ledger, authorized, asset_ok) matches Ok(after) ==> same_record_at(
            ledger,
            after,
            other,
        ),
        cancelling.refunded(ledger, authorized, asset_ok) matches Ok(after) ==> same_record_at(
            ledger,
            after,
            other,
        ),
{
}

/// Every operation keeps the records valid: in a ledger whose live records
/// all have a positive price and a fee of at most a hundred percent, the
/// same holds after a successful Open, List, Take or Cancel.
pub proof fn lemma_records_stay_valid(
    ledger: LedgerView,
    opening: Initialize,
    listing: Make,
    taking: Take,
    cancelling: Refund,
    seed: u64,
    derived: Option<(Address, u8)>,
    amount: u64,
    authorized: bool,
    asset_ok: bool,
)
    requires
        records_valid(ledger),
    ensures
        opening.opened(ledger, seed, derived, amount) matches Ok(after) ==> records_valid(after),
        listing.listed(ledger, authorized, asset_ok) matches Ok(after) ==> records_valid(after),
        taking.taken(ledger, authorized, asset_ok) matches Ok(after) ==> records_valid(after),
        cancelling.refunded(ledger, authorized, asset_ok) matches Ok(after) ==> records_valid(
            after,
        ),
{
}

} // verus!
