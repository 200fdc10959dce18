use crate::address::Address;
use crate::address_map::AddressMap;
use crate::errors::Errors;
use mpl_core::accounts::BaseAssetV1;
use vstd::prelude::*;

verus! {

/// A unique asset as the registry keeps it.
pub struct Asset {
    /// The party that holds the asset.
    pub owner: Address,
    /// The asset's account data, as the registry serves it.
    pub data: Vec<u8>,
}

/// Whether `BaseAssetV1::from_bytes` reads `data` as an asset.
pub uninterp spec fn is_base_asset(data: Seq<u8>) -> bool;

/// Calls `BaseAssetV1::from_bytes`. Trusted: whether it succeeds is a
/// function of the bytes alone, named [`is_base_asset`].
#[verifier::external_body]
fn parses_as_base_asset(data: &[u8]) -> (parsed: bool)
    ensures
        parsed == is_base_asset(data@),
{
    match BaseAssetV1::from_bytes(data) {
        Ok(_) => true,
        Err(_) => false,
    }
}

/// Accepts `data` exactly when it reads as an asset.
pub fn check_asset(data: &[u8]) -> (checked: Result<(), Errors>)
    ensures
        checked == (if is_base_asset(data@) {
            Ok::<(), Errors>(())
        } else {
            Err(Errors::InvalidAsset)
        }),
{
    if parses_as_base_asset(data) {
        Ok(())
    } else {
        Err(Errors::InvalidAsset)
    }
}

/// Whether `asset` is known to the registry and its data reads as an asset.
pub open spec fn asset_valid(assets: Map<Address, Asset>, asset: Address) -> bool {
    assets.contains_key(asset) && is_base_asset(assets[asset].data@)
}

/// Whether `asset` can pass to a new owner on the word of `authority`: it
/// must be known, and `authority` must be the party that holds it.
pub open spec fn reassign_outcome(
    assets: Map<Address, Asset>,
    asset: Address,
    authority: Address,
) -> Result<(), Errors> {
    if !assets.contains_key(asset) {
        Err(Errors::InvalidAsset)
    } else if assets[asset].owner != authority {
        Err(Errors::OwnershipConflict)
    } else {
        Ok(())
    }
}

/// The registry after `asset` passed to `new_owner`.
pub open spec fn reassigned(assets: Map<Address, Asset>, asset: Address, new_owner: Address) -> Map<
    Address,
    Asset,
> {
    assets.insert(asset, Asset { owner: new_owner, data: assets[asset].data })
}

/// The unique assets and who holds each.
pub struct AssetRegistry {
    assets: AddressMap<Asset>,
}

impl View for AssetRegistry {
    type V = Map<Address, Asset>;

    closed spec fn view(&self) -> Map<Address, Asset> {
        self.assets@
    }
}

impl AssetRegistry {
    /// A registry without assets.
    pub fn new() -> (registry: AssetRegistry)
        ensures
            registry@ == Map::<Address, Asset>::empty(),
    {
        AssetRegistry { assets: AddressMap::new() }
    }

    /// Enters the asset at `address`, held by `owner`, with its account data.
    pub fn register(&mut self, address: Address, owner: Address, data: Vec<u8>)
        ensures
            final(self)@ == old(self)@.insert(address, Asset { owner, data }),
    {
        self.assets.insert(address, Asset { owner, data });
    }

    /// The party that holds `asset`, if the registry knows it.
    pub fn owner_of(&self, asset: &Address) -> (owner: Option<Address>)
        ensures
            owner == (if self@.contains_key(*asset) {
                Some(self@[*asset].owner)
            } else {
                None
            }),
    {
        match self.assets.get(asset) {
            Some(entry) => Some(entry.owner),
            None => None,
        }
    }

    /// Whether `asset` is known and its data reads as an asset.
    pub fn validate(&self, asset: &Address) -> (valid: bool)
        ensures
            valid == asset_valid(self@, *asset),
    {
        match self.assets.get(asset) {
            Some(entry) => parses_as_base_asset(entry.data.as_slice()),
            None => false,
        }
    }

    /// Says what [`AssetRegistry::transfer`] would answer, and changes nothing.
    pub fn can_transfer(&self, asset: &Address, authority: &Address) -> (answer: Result<(), Errors>)
        ensures
            answer == reassign_outcome(self@, *asset, *authority),
    {
        match self.assets.get(asset) {
            Some(entry) => {
                if entry.owner == *authority {
                    Ok(())
                } else {
                    Err(Errors::OwnershipConflict)
                }
            },
            None => Err(Errors::InvalidAsset),
        }
    }

    /// Passes `asset` to `new_owner` on the word of `authority`, or fails and
    /// leaves the asset where it is.
    pub fn transfer(&mut self, asset: Address, authority: Address, new_owner: Address) -> (done:
        Result<(), Errors>)
        ensures
            done == reassign_outcome(old(self)@, asset, authority),
            final(self)@ == (if done is Ok {
                reassigned(old(self)@, asset, new_owner)
            } else {
                old(self)@
            }),
    {
        let answer = self.can_transfer(&asset, &authority);
        if answer.is_err() {
            return answer;
        }
        match self.assets.remove(&asset) {
            Some(entry) => {
                self.assets.insert(asset, Asset { owner: new_owner, data: entry.data });
                assert(self.assets@ =~= reassigned(old(self)@, asset, new_owner));
            },
            None => {},
        }
        answer
    }
}

} // verus!
