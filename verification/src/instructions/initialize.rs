use crate::address::Address;
use crate::auth::require_address_match;
use crate::errors::Errors;
use crate::ledger::Ledger;
use crate::ledger::LedgerView;
use crate::state::EscrowState;
use crate::state::FEE_PERCENT;
use crate::token::ensure_outcome;
use crate::token::ensured;
use vstd::prelude::*;

verus! {

/// The accounts that opening an escrow names.
#[derive(Clone, Copy, Debug)]
pub struct Initialize {
    /// The signer: the party that opens the escrow and pays for the record.
    pub maker: Address,
    /// The currency in which the price is asked.
    pub mint_sol: Address,
    /// The asset on offer.
    pub asset: Address,
    /// The address at which the record is to live.
    pub escrow: Address,
    /// The currency account of the record's own authority.
    pub vault: Address,
    /// The currency account in which the maker is paid.
    pub maker_ata_sol: Address,
}

impl Initialize {
    /// The record that opening writes: the named accounts, the asking price,
    /// the nonce of the derivation and the fixed fee.
    pub open spec fn record(self, seed: u64, nonce: u8, amount: u64) -> EscrowState {
        EscrowState {
            seed,
            maker: self.maker,
            nft_mint: self.asset,
            currency_mint: self.mint_sol,
            price: amount,
            vault_ata: self.vault,
            escrow_bump: nonce,
            fee_percent: FEE_PERCENT,
        }
    }

    /// What opening does to `ledger`, where `derived` is the address and nonce
    /// that `seed` derives.
    ///
    /// It is refused with `InvalidPrice` for a price of zero; with
    /// `AddressMismatch` where the seed derives no address, or another than
    /// the record address named; with `InsufficientFunds` where the maker
    /// cannot post the bond of a new record; with `AccountMismatch` where one
    /// of the two currency accounts exists for another owner or currency: in
    /// this order. Otherwise the record is written, over a live one if there
    /// is one and whoever opened it, and both currency accounts stand
    /// afterwards. The asset stays where it is.
    pub open spec fn opened(
        self,
        ledger: LedgerView,
        seed: u64,
        derived: Option<(Address, u8)>,
        amount: u64,
    ) -> Result<LedgerView, Errors> {
        let with_maker = ensured(ledger.tokens, self.maker_ata_sol, self.maker, self.mint_sol);
        if amount == 0 {
            Err(Errors::InvalidPrice)
        } else {
            match derived {
                None => Err(Errors::AddressMismatch),
                Some((address, nonce)) => {
                    if address != self.escrow {
                        Err(Errors::AddressMismatch)
                    } else if ledger.store.create_outcome(self.escrow, self.maker) is Err {
                        Err(Errors::InsufficientFunds)
                    } else if ensure_outcome(
                        ledger.tokens,
                        self.maker_ata_sol,
                        self.maker,
                        self.mint_sol,
                    ) is Err {
                        Err(Errors::AccountMismatch)
                    } else if ensure_outcome(with_maker, self.vault, self.escrow, self.mint_sol)
                        is Err {
                        Err(Errors::AccountMismatch)
                    } else {
                        Ok(
                            LedgerView {
                                store: ledger.store.created(
                                    self.escrow,
                                    self.record(seed, nonce, amount),
                                    self.maker,
                                ),
                                tokens: ensured(
                                    with_maker,
                                    self.vault,
                                    self.escrow,
                                    self.mint_sol,
                                ),
                                assets: ledger.assets,
                            },
                        )
                    }
                },
            }
        }
    }

    /// The record that opening writes. See [`Initialize::record`].
    pub fn new_record(&self, seed: u64, nonce: u8, amount: u64) -> (record: EscrowState)
        ensures
            record == self.record(seed, nonce, amount),
    {
        EscrowState {
            seed,
            maker: self.maker,
            nft_mint: self.asset,
            currency_mint: self.mint_sol,
            price: amount,
            vault_ata: self.vault,
            escrow_bump: nonce,
            fee_percent: FEE_PERCENT,
        }
    }

    /// Opens the escrow chosen by `seed` at the asking price `amount`, given
    /// the address and nonce that the seed derives. The whole of
    /// [`Initialize::opened`] happens, or nothing.
    pub fn initialize_escrow(
        &self,
        ledger: &mut Ledger,
        seed: u64,
        derived: Option<(Address, u8)>,
        amount: u64,
    ) -> (done: Result<(), Errors>)
        ensures
            match self.opened(old(ledger)@, seed, derived, amount) {
                Ok(after) => done is Ok && final(ledger)@ == after,
                Err(error) => done == Err::<(), Errors>(error) && final(ledger)@ == old(ledger)@,
            },
    {
        if amount == 0 {
            return Err(Errors::InvalidPrice);
        }
        let (address, nonce) = match derived {
            Some(pair) => pair,
            None => {
                return Err(Errors::AddressMismatch);
            },
        };
        if require_address_match(&address, &self.escrow).is_err() {
            return Err(Errors::AddressMismatch);
        }
        if ledger.store.can_create(&self.escrow, &self.maker).is_err() {
            return Err(Errors::InsufficientFunds);
        }
        if ledger.tokens.can_ensure_account(&self.maker_ata_sol, &self.maker, &self.mint_sol).is_err() {
            return Err(Errors::AccountMismatch);
        }
        if self.vault == self.maker_ata_sol {
            if self.escrow != self.maker {
                return Err(Errors::AccountMismatch);
            }
        } else if ledger.tokens.can_ensure_account(&self.vault, &self.escrow, &self.mint_sol).is_err() {
            return Err(Errors::AccountMismatch);
        }
        let record = self.new_record(seed, nonce, amount);
        let written = ledger.store.create(self.escrow, record, self.maker);
        let first = ledger.tokens.ensure_account(self.maker_ata_sol, self.maker, self.mint_sol);
        let second = ledger.tokens.ensure_account(self.vault, self.escrow, self.mint_sol);
        assert(written is Ok && first is Ok && second is Ok);
        Ok(())
    }
}

} // verus!
