use crate::address::grants;
use crate::address::holds_leave;
use crate::address::Address;
use crate::address::Authority;
use crate::auth::require_signer;
use crate::errors::Errors;
use crate::ledger::Ledger;
use crate::ledger::LedgerView;
use crate::registry::reassign_outcome;
use crate::registry::reassigned;
use vstd::prelude::*;

verus! {

/// The accounts that listing an asset names.
#[derive(Clone, Copy, Debug)]
pub struct Make {
    /// The signer: the party that lists the asset.
    pub maker: Address,
    /// The asset to hand into custody.
    pub asset: Address,
    /// The address of the escrow's record.
    pub escrow: Address,
    /// The currency account of the record's own authority.
    pub vault: Address,
}

impl Make {
    /// What listing does to `ledger`, where `authorized` says whether the
    /// seed and the record's nonce reproduce the record's address, and
    /// `asset_ok` whether the asset passed validation.
    ///
    /// It is refused with `NotFound` where no record lives at the address,
    /// with `AddressMismatch` where the address is not reproduced, with
    /// `Unauthorized` where the signer is not the record's maker, and with
    /// `InvalidAsset` where the asset or the vault is not the recorded one,
    /// the asset fails validation, or the signer does not hold it: in this
    /// order. Otherwise the asset passes to the record's address, and nothing
    /// else changes.
    pub open spec fn listed(self, ledger: LedgerView, authorized: bool, asset_ok: bool) -> Result<
        LedgerView,
        Errors,
    > {
        let record = ledger.store.records[self.escrow].record;
        if !ledger.store.records.contains_key(self.escrow) {
            Err(Errors::NotFound)
        } else if !authorized {
            Err(Errors::AddressMismatch)
        } else if record.maker != self.maker {
            Err(Errors::Unauthorized)
        } else if record.nft_mint != self.asset || record.vault_ata != self.vault {
            Err(Errors::InvalidAsset)
        } else if !asset_ok {
            Err(Errors::InvalidAsset)
        } else if reassign_outcome(ledger.assets, self.asset, self.maker) is Err {
            Err(Errors::InvalidAsset)
        } else {
            Ok(LedgerView { assets: reassigned(ledger.assets, self.asset, self.escrow), ..ledger })
        }
    }

    /// Whether `authority` is leave to act for this escrow's record as `seed`
    /// and the nonce in the record derive it.
    pub open spec fn authorized_by(self, ledger: LedgerView, seed: u64, authority: Option<Authority>) -> bool {
        grants(authority, self.escrow, seed, ledger.store.records[self.escrow].record.escrow_bump)
    }

    /// Hands the asset into the custody of the escrow chosen by `seed`, given
    /// the leave to act for the record's address and the verdict on the
    /// asset. The whole of [`Make::listed`] happens, or nothing. `_amount`
    /// has no say.
    pub fn make_listing(
        &self,
        ledger: &mut Ledger,
        _amount: u64,
        seed: u64,
        authority: Option<Authority>,
        asset_ok: bool,
    ) -> (done: Result<(), Errors>)
        ensures
            match self.listed(
                old(ledger)@,
                self.authorized_by(old(ledger)@, seed, authority),
                asset_ok,
            ) {
                Ok(after) => done is Ok && final(ledger)@ == after,
                Err(error) => done == Err::<(), Errors>(error) && final(ledger)@ == old(ledger)@,
            },
    {
        let record = match ledger.store.read(&self.escrow) {
            Ok(record) => record,
            Err(error) => {
                return Err(error);
            },
        };
        if !holds_leave(&authority, &self.escrow, seed, record.escrow_bump) {
            return Err(Errors::AddressMismatch);
        }
        if require_signer(&record.maker, &self.maker).is_err() {
            return Err(Errors::Unauthorized);
        }
        if record.nft_mint != self.asset || record.vault_ata != self.vault {
            return Err(Errors::InvalidAsset);
        }
        if !asset_ok {
            return Err(Errors::InvalidAsset);
        }
        match ledger.assets.transfer(self.asset, self.maker, self.escrow) {
            Ok(()) => Ok(()),
            Err(_) => Err(Errors::InvalidAsset),
        }
    }
}

} // verus!
