use crate::address::Address;
use crate::address_map::AddressMap;
use crate::errors::Errors;
use crate::state::EscrowState;
use vstd::prelude::*;

verus! {

/// A record as the store keeps it, with the bond that was posted for it.
#[derive(Clone, Copy, Debug, PartialEq, Eq)]
pub struct Slot {
    pub record: EscrowState,
    pub bond: u64,
}

/// What a store holds: the live records by address, the funds of each
/// account, and the bond that a new record costs.
#[verifier::ext_equal]
pub struct StoreView {
    pub records: Map<Address, Slot>,
    pub funds: Map<Address, u64>,
    pub bond: u64,
}

impl StoreView {
    /// The funds of `account`; an account never heard of holds nothing.
    pub open spec fn balance(self, account: Address) -> u64 {
        if self.funds.contains_key(account) {
            self.funds[account]
        } else {
            0
        }
    }

    /// Whether a record may be written at `address` at the cost of `payer`:
    /// always over a live record, else only if `payer` can post the bond.
    pub open spec fn create_outcome(self, address: Address, payer: Address) -> Result<(), Errors> {
        if self.records.contains_key(address) {
            Ok(())
        } else if self.balance(payer) < self.bond {
            Err(Errors::InsufficientFunds)
        } else {
            Ok(())
        }
    }

    /// The store after `record` was written at `address`. Over a live record
    /// the fields are replaced and the posted bond stays; at a free address
    /// `payer` posts the bond.
    pub open spec fn created(self, address: Address, record: EscrowState, payer: Address) -> StoreView {
        if self.records.contains_key(address) {
            StoreView {
                records: self.records.insert(
                    address,
                    Slot { record, bond: self.records[address].bond },
                ),
                ..self
            }
        } else {
            StoreView {
                records: self.records.insert(address, Slot { record, bond: self.bond }),
                funds: self.funds.insert(payer, (self.balance(payer) - self.bond) as u64),
                ..self
            }
        }
    }

    /// What reading `address` gives.
    pub open spec fn read_outcome(self, address: Address) -> Result<EscrowState, Errors> {
        if self.records.contains_key(address) {
            Ok(self.records[address].record)
        } else {
            Err(Errors::NotFound)
        }
    }

    /// Whether the record at `address` may be closed in favour of `refund_to`.
    pub open spec fn close_outcome(self, address: Address, refund_to: Address) -> Result<
        (),
        Errors,
    > {
        if !self.records.contains_key(address) {
            Err(Errors::NotFound)
        } else if self.balance(refund_to) + self.records[address].bond > u64::MAX {
            Err(Errors::Overflow)
        } else {
            Ok(())
        }
    }

    /// The store after the record at `address` was deleted and its bond
    /// returned to `refund_to`.
    pub open spec fn closed(self, address: Address, refund_to: Address) -> StoreView {
        StoreView {
            records: self.records.remove(address),
            funds: self.funds.insert(
                refund_to,
                (self.balance(refund_to) + self.records[address].bond) as u64,
            ),
            ..self
        }
    }
}

/// The records of the escrows in progress, each at its own address, with the
/// funds from which bonds are posted and to which they return.
pub struct StateStore {
    records: AddressMap<Slot>,
    funds: AddressMap<u64>,
    bond: u64,
}

impl View for StateStore {
    type V = StoreView;

    closed spec fn view(&self) -> StoreView {
        StoreView { records: self.records@, funds: self.funds@, bond: self.bond }
    }
}

impl StateStore {
    /// A store without records or funds, in which a new record costs `bond`.
    pub fn new(bond: u64) -> (store: StateStore)
        ensures
            store@ == (StoreView { records: Map::empty(), funds: Map::empty(), bond }),
    {
        StateStore { records: AddressMap::new(), funds: AddressMap::new(), bond }
    }

    /// The bond that a new record costs.
    pub fn bond(&self) -> (bond: u64)
        ensures
            bond == self@.bond,
    {
        self.bond
    }

    /// The funds of `account`.
    pub fn balance(&self, account: &Address) -> (amount: u64)
        ensures
            amount == self@.balance(*account),
    {
        match self.funds.get(account) {
            Some(amount) => *amount,
            None => 0,
        }
    }

    /// Adds `amount` to the funds of `account`, unless the sum would not fit.
    pub fn deposit(&mut self, account: Address, amount: u64) -> (done: Result<(), Errors>)
        ensures
            done == (if old(self)@.balance(account) + amount > u64::MAX {
                Err::<(), Errors>(Errors::Overflow)
            } else {
                Ok(())
            }),
            final(self)@ == (if done is Ok {
                StoreView {
                    funds: old(self)@.funds.insert(
                        account,
                        (old(self)@.balance(account) + amount) as u64,
                    ),
                    ..old(self)@
                }
            } else {
                old(self)@
            }),
    {
        let held = self.balance(&account);
        match held.checked_add(amount) {
            Some(sum) => {
                self.funds.insert(account, sum);
                Ok(())
            },
            None => Err(Errors::Overflow),
        }
    }

    /// The record at `address`, or `NotFound` where none lives.
    pub fn read(&self, address: &Address) -> (record: Result<EscrowState, Errors>)
        ensures
            record == self@.read_outcome(*address),
    {
        match self.records.get(address) {
            Some(slot) => Ok(slot.record),
            None => Err(Errors::NotFound),
        }
    }

    /// Says what [`StateStore::create`] would answer, and changes nothing.
    pub fn can_create(&self, address: &Address, payer: &Address) -> (answer: Result<(), Errors>)
        ensures
            answer == self@.create_outcome(*address, *payer),
    {
        if self.records.contains(address) {
            Ok(())
        } else if self.balance(payer) < self.bond {
            Err(Errors::InsufficientFunds)
        } else {
            Ok(())
        }
    }

    /// Writes `record` at `address`. At a free address `payer` posts the
    /// bond, and the call fails if it cannot; over a live record every field
    /// is replaced, whoever asks, and no bond moves.
    pub fn create(&mut self, address: Address, record: EscrowState, payer: Address) -> (done:
        Result<(), Errors>)
        ensures
            done == old(self)@.create_outcome(address, payer),
            final(self)@ == (if done is Ok {
                old(self)@.created(address, record, payer)
            } else {
                old(self)@
            }),
    {
        let posted: Option<u64> = match self.records.get(&address) {
            Some(slot) => Some(slot.bond),
            None => None,
        };
        match posted {
            Some(bond) => {
                self.records.insert(address, Slot { record, bond });
                Ok(())
            },
            None => {
                let held = self.balance(&payer);
                if held < self.bond {
                    return Err(Errors::InsufficientFunds);
                }
                self.funds.insert(payer, held - self.bond);
                self.records.insert(address, Slot { record, bond: self.bond });
                Ok(())
            },
        }
    }

    /// Says what [`StateStore::close`] would answer, and changes nothing.
    pub fn can_close(&self, address: &Address, refund_to: &Address) -> (answer: Result<(), Errors>)
        ensures
            answer == self@.close_outcome(*address, *refund_to),
    {
        match self.records.get(address) {
            Some(slot) => {
                match self.balance(refund_to).checked_add(slot.bond) {
                    Some(_) => Ok(()),
                    None => Err(Errors::Overflow),
                }
            },
            None => Err(Errors::NotFound),
        }
    }

    /// Deletes the record at `address` and returns its bond to `refund_to`.
    /// The address is free again afterwards.
    pub fn close(&mut self, address: &Address, refund_to: Address) -> (done: Result<(), Errors>)
        ensures
            done == old(self)@.close_outcome(*address, refund_to),
            final(self)@ == (if done is Ok {
                old(self)@.closed(*address, refund_to)
            } else {
                old(self)@
            }),
    {
        let posted: Option<u64> = match self.records.get(address) {
            Some(slot) => Some(slot.bond),
            None => None,
        };
        match posted {
            Some(bond) => {
                match self.balance(&refund_to).checked_add(bond) {
                    Some(sum) => {
                        self.records.remove(address);
                        self.funds.insert(refund_to, sum);
                        Ok(())
                    },
                    None => Err(Errors::Overflow),
                }
            },
            None => Err(Errors::NotFound),
        }
    }
}

} // verus!
