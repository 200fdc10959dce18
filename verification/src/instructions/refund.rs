use crate::address::grants;
use crate::address::holds_leave;
use crate::address::Address;
use crate::address::Authority;
use crate::auth::require_signer;
use crate::errors::Errors;
use crate::ledger::Ledger;
use crate::ledger::LedgerView;
use crate::registry::reassign_outcome;
use crate::registry::reassigned;
use vstd::prelude::*;

verus! {

/// The accounts that cancelling an escrow names.
#[derive(Clone, Copy, Debug)]
pub struct Refund {
    /// The signer: the party that opened the escrow and takes the asset back.
    pub maker: Address,
    /// The asset to return.
    pub asset: Address,
    /// The address of the escrow's record.
    pub escrow: Address,
}

impl Refund {
    /// What cancelling does to `ledger`, where `authorized` says whether the
    /// seed and the record's nonce reproduce the record's address, and
    /// `asset_ok` whether the asset passed validation.
    ///
    /// It is refused with `NotFound` where no record lives at the address;
    /// with `AddressMismatch` where the address is not reproduced; with
    /// `Unauthorized` where the signer is not the record's maker; with
    /// `InvalidAsset` where the asset is not the recorded one, fails
    /// validation, or is not held by the record's address; with `Overflow`
    /// where the bond cannot return: in this order. Otherwise the asset
    /// returns to the maker and the record is closed with its bond returned
    /// to the maker. No currency moves.
    pub open spec fn refunded(self, ledger: LedgerView, authorized: bool, asset_ok: bool) -> Result<
        LedgerView,
        Errors,
    > {
        let record = ledger.store.records[self.escrow].record;
        let closing = ledger.store.close_outcome(self.escrow, record.maker);
        if !ledger.store.records.contains_key(self.escrow) {
            Err(Errors::NotFound)
        } else if !authorized {
            Err(Errors::AddressMismatch)
        } else if record.maker != self.maker {
            Err(Errors::Unauthorized)
        } else if record.nft_mint != self.asset {
            Err(Errors::InvalidAsset)
        } else if !asset_ok {
            Err(Errors::InvalidAsset)
        } else if reassign_outcome(ledger.assets, self.asset, self.escrow) is Err {
            Err(Errors::InvalidAsset)
        } else if closing is Err {
            Err(closing->Err_0)
        } else {
            Ok(
                LedgerView {
                    store: ledger.store.closed(self.escrow, record.maker),
                    tokens: ledger.tokens,
                    assets: reassigned(ledger.assets, self.asset, record.maker),
                },
            )
        }
    }

    /// Whether `authority` is leave to act for this escrow's record as `seed`
    /// and the nonce in the record derive it.
    pub open spec fn authorized_by(self, ledger: LedgerView, seed: u64, authority: Option<Authority>) -> bool {
        grants(authority, self.escrow, seed, ledger.store.records[self.escrow].record.escrow_bump)
    }

    /// Unwinds the escrow chosen by `seed`, given the leave to act for the
    /// record's address and the verdict on the asset. The whole of
    /// [`Refund::refunded`] happens, or nothing.
    pub fn refund_nft(
        &self,
        ledger: &mut Ledger,
        seed: u64,
        authority: Option<Authority>,
        asset_ok: bool,
    ) -> (done: Result<(), Errors>)
        ensures
            match self.refunded(
                old(ledger)@,
                self.authorized_by(old(ledger)@, seed, authority),
                asset_ok,
            ) {
                Ok(after) => done is Ok && final(ledger)@ == after,
                Err(error) => done == Err::<(), Errors>(error) && final(ledger)@ == old(ledger)@,
            },
    {
        let record = match ledger.store.read(&self.escrow) {
            Ok(record) => record,
            Err(error) => {
                return Err(error);
            },
        };
        if !holds_leave(&authority, &self.escrow, seed, record.escrow_bump) {
            return Err(Errors::AddressMismatch);
        }
        if require_signer(&record.maker, &self.maker).is_err() {
            return Err(Errors::Unauthorized);
        }
        if record.nft_mint != self.asset {
            return Err(Errors::InvalidAsset);
        }
        if !asset_ok {
            return Err(Errors::InvalidAsset);
        }
        if ledger.assets.can_transfer(&self.asset, &self.escrow).is_err() {
            return Err(Errors::InvalidAsset);
        }
        let closable = ledger.store.can_close(&self.escrow, &record.maker);
        if closable.is_err() {
            return closable;
        }
        let returned = ledger.assets.transfer(self.asset, self.escrow, record.maker);
        let closed = ledger.store.close(&self.escrow, record.maker);
        assert(returned is Ok && closed is Ok);
        Ok(())
    }
}

} // verus!
