use crate::address::Address;
use crate::registry::Asset;
use crate::registry::AssetRegistry;
use crate::store::StateStore;
use crate::store::StoreView;
use crate::token::TokenAccount;
use crate::token::TokenService;
use vstd::prelude::*;

verus! {

/// Everything that an escrow operation can read or change: the records, the
/// currency accounts and the assets.
#[verifier::ext_equal]
pub struct LedgerView {
    pub store: StoreView,
    pub tokens: Map<Address, TokenAccount>,
    pub assets: Map<Address, Asset>,
}

/// Where an escrow stands in its life.
#[derive(Clone, Copy, Debug, PartialEq, Eq, Structural)]
pub enum Phase {
    /// No record lives at the address: never opened, or closed.
    Absent,
    /// A record lives at the address, and its asset is not in custody.
    Open,
    /// A record lives at the address, and the address holds its asset.
    Listed,
}

impl LedgerView {
    /// Where the escrow at `escrow` stands. No record says whether its asset
    /// is in custody: that is read off the registry, where the asset is
    /// listed exactly when the record's own address holds it.
    pub open spec fn phase(self, escrow: Address) -> Phase {
        let asset = self.store.records[escrow].record.nft_mint;
        if !self.store.records.contains_key(escrow) {
            Phase::Absent
        } else if self.assets.contains_key(asset) && self.assets[asset].owner == escrow {
            Phase::Listed
        } else {
            Phase::Open
        }
    }
}

/// The collaborators of the escrow, handed to each operation by its caller.
pub struct Ledger {
    pub store: StateStore,
    pub tokens: TokenService,
    pub assets: AssetRegistry,
}

impl View for Ledger {
    type V = LedgerView;

    open spec fn view(&self) -> LedgerView {
        LedgerView { store: self.store@, tokens: self.tokens@, assets: self.assets@ }
    }
}

impl Ledger {
    /// An empty ledger in which a new record costs `bond`.
    pub fn new(bond: u64) -> (ledger: Ledger)
        ensures
            ledger@ == (LedgerView {
                store: StoreView { records: Map::empty(), funds: Map::empty(), bond },
                tokens: Map::empty(),
                assets: Map::empty(),
            }),
    {
        Ledger { store: StateStore::new(bond), tokens: TokenService::new(), assets: AssetRegistry::new() }
    }

    /// Where the escrow at `escrow` stands.
    pub fn phase(&self, escrow: &Address) -> (phase: Phase)
        ensures
            phase == self@.phase(*escrow),
    {
        match self.store.read(escrow) {
            Ok(record) => {
                match self.assets.owner_of(&record.nft_mint) {
                    Some(owner) => {
                        if owner == *escrow {
                            Phase::Listed
                        } else {
                            Phase::Open
                        }
                    },
                    None => Phase::Open,
                }
            },
            Err(_) => Phase::Absent,
        }
    }
}

} // verus!
