use crate::address::grants;
use crate::address::holds_leave;
use crate::address::Address;
use crate::address::Authority;
use crate::auth::require_address_match;
use crate::errors::Errors;
use crate::ledger::Ledger;
use crate::ledger::LedgerView;
use crate::registry::reassign_outcome;
use crate::registry::reassigned;
use crate::token::transfer_outcome;
use crate::token::transferred;
use vstd::prelude::*;

verus! {

/// The accounts that taking an escrow names.
#[derive(Clone, Copy, Debug)]
pub struct Take {
    /// The signer: the party that pays and receives the asset. Anyone may take.
    pub taker: Address,
    /// The party that opened the escrow.
    pub maker: Address,
    /// The currency in which the price is paid.
    pub mint_sol: Address,
    /// The asset to receive.
    pub asset: Address,
    /// The address of the escrow's record.
    pub escrow: Address,
    /// The currency account in which the maker is paid.
    pub maker_ata_sol: Address,
    /// The currency account from which the taker pays.
    pub taker_ata_sol: Address,
}

impl Take {
    /// What taking does to `ledger`, where `authorized` says whether the seed
    /// and the record's nonce reproduce the record's address, and `asset_ok`
    /// whether the asset passed validation.
    ///
    /// It is refused with `NotFound` where no record lives at the address;
    /// with `AddressMismatch` where the address is not reproduced, or the
    /// maker or the currency is not the recorded one; with `InvalidAsset`
    /// where the asset is not the recorded one or fails validation; with
    /// `AccountMismatch` where the account to be paid is not the maker's;
    /// with the token service's error where the payment cannot be made; with
    /// the registry's error where the record's address does not hold the
    /// asset; with `Overflow` where the bond cannot return: in this order.
    /// Otherwise exactly the recorded price goes from the taker's account to
    /// the maker's, undiminished by any fee, the asset passes to the taker,
    /// and the record is closed with its bond returned to the maker.
    pub open spec fn taken(self, ledger: LedgerView, authorized: bool, asset_ok: bool) -> Result<
        LedgerView,
        Errors,
    > {
        let record = ledger.store.records[self.escrow].record;
        let payment = transfer_outcome(
            ledger.tokens,
            self.taker_ata_sol,
            self.maker_ata_sol,
            record.currency_mint,
            self.taker,
            record.price,
        );
        let delivery = reassign_outcome(ledger.assets, self.asset, self.escrow);
        let closing = ledger.store.close_outcome(self.escrow, record.maker);
        if !ledger.store.records.contains_key(self.escrow) {
            Err(Errors::NotFound)
        } else if !authorized {
            Err(Errors::AddressMismatch)
        } else if record.maker != self.maker || record.currency_mint != self.mint_sol {
            Err(Errors::AddressMismatch)
        } else if record.nft_mint != self.asset {
            Err(Errors::InvalidAsset)
        } else if !asset_ok {
            Err(Errors::InvalidAsset)
        } else if !ledger.tokens.contains_key(self.maker_ata_sol)
            || ledger.tokens[self.maker_ata_sol].owner != record.maker {
            Err(Errors::AccountMismatch)
        } else if payment is Err {
            Err(payment->Err_0)
        } else if delivery is Err {
            Err(delivery->Err_0)
        } else if closing is Err {
            Err(closing->Err_0)
        } else {
            Ok(
                LedgerView {
                    store: ledger.store.closed(self.escrow, record.maker),
                    tokens: transferred(
                        ledger.tokens,
                        self.taker_ata_sol,
                        self.maker_ata_sol,
                        record.price,
                    ),
                    assets: reassigned(ledger.assets, self.asset, self.taker),
                },
            )
        }
    }

    /// Whether `authority` is leave to act for this escrow's record as `seed`
    /// and the nonce in the record derive it.
    pub open spec fn authorized_by(self, ledger: LedgerView, seed: u64, authority: Option<Authority>) -> bool {
        grants(authority, self.escrow, seed, ledger.store.records[self.escrow].record.escrow_bump)
    }

    /// Settles the escrow chosen by `seed`, given the leave to act for the
    /// record's address and the verdict on the asset. The amount paid is the
    /// recorded price: the caller names none. The whole of [`Take::taken`]
    /// happens, or nothing.
    pub fn take_nft(
        &self,
        ledger: &mut Ledger,
        seed: u64,
        authority: Option<Authority>,
        asset_ok: bool,
    ) -> (done: Result<(), Errors>)
        ensures
            match self.taken(
                old(ledger)@,
                self.authorized_by(old(ledger)@, seed, authority),
                asset_ok,
            ) {
                Ok(after) => done is Ok && final(ledger)@ == after,
                Err(error) => done == Err::<(), Errors>(error) && final(ledger)@ == old(ledger)@,
            },
    {
        let record = match ledger.store.read(&self.escrow) {
            Ok(record) => record,
            Err(error) => {
                return Err(error);
            },
        };
        if !holds_leave(&authority, &self.escrow, seed, record.escrow_bump) {
            return Err(Errors::AddressMismatch);
        }
        if require_address_match(&record.maker, &self.maker).is_err() {
            return Err(Errors::AddressMismatch);
        }
        if require_address_match(&record.currency_mint, &self.mint_sol).is_err() {
            return Err(Errors::AddressMismatch);
        }
        if record.nft_mint != self.asset {
            return Err(Errors::InvalidAsset);
        }
        if !asset_ok {
            return Err(Errors::InvalidAsset);
        }
        match ledger.tokens.account(&self.maker_ata_sol) {
            Some(payee) => {
                if payee.owner != record.maker {
                    return Err(Errors::AccountMismatch);
                }
            },
            None => {
                return Err(Errors::AccountMismatch);
            },
        }
        let payable = ledger.tokens.can_transfer(
            &self.taker_ata_sol,
            &self.maker_ata_sol,
            &record.currency_mint,
            &self.taker,
            record.price,
        );
        if payable.is_err() {
            return payable;
        }
        let deliverable = ledger.assets.can_transfer(&self.asset, &self.escrow);
        if deliverable.is_err() {
            return deliverable;
        }
        let closable = ledger.store.can_close(&self.escrow, &record.maker);
        if closable.is_err() {
            return closable;
        }
        let paid = ledger.tokens.transfer(
            self.taker_ata_sol,
            self.maker_ata_sol,
            record.currency_mint,
            self.taker,
            record.price,
        );
        let delivered = ledger.assets.transfer(self.asset, self.escrow, self.taker);
        let closed = ledger.store.close(&self.escrow, record.maker);
        assert(paid is Ok && delivered is Ok && closed is Ok);
        Ok(())
    }
}

} // verus!
