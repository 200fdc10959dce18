use crate::address::Address;
use crate::address_map::AddressMap;
use crate::errors::Errors;
use vstd::prelude::*;

verus! {

/// A holding of one currency by one owner.
#[derive(Clone, Copy, Debug, PartialEq, Eq)]
pub struct TokenAccount {
    /// The currency held.
    pub mint: Address,
    /// The party that may spend from the account.
    pub owner: Address,
    /// The units held.
    pub amount: u64,
}

/// Whether an account for `owner` in currency `mint` can stand at `address`:
/// the address is free, or holds exactly such an account.
pub open spec fn ensure_outcome(
    accounts: Map<Address, TokenAccount>,
    address: Address,
    owner: Address,
    mint: Address,
) -> Result<(), Errors> {
    if accounts.contains_key(address) && (accounts[address].owner != owner
        || accounts[address].mint != mint) {
        Err(Errors::AccountMismatch)
    } else {
        Ok(())
    }
}

/// The accounts once one for `owner` in currency `mint` stands at `address`:
/// an account that exists is kept as it is, a missing one is opened empty.
pub open spec fn ensured(
    accounts: Map<Address, TokenAccount>,
    address: Address,
    owner: Address,
    mint: Address,
) -> Map<Address, TokenAccount> {
    if accounts.contains_key(address) {
        accounts
    } else {
        accounts.insert(address, TokenAccount { mint, owner, amount: 0 })
    }
}

/// Whether `amount` units of `mint` can move from `from` to `to` on the word
/// of `authority`. Both accounts must exist and hold `mint`, `authority` must
/// own `from`, `from` must hold the amount, and `to` must have room for it.
pub open spec fn transfer_outcome(
    accounts: Map<Address, TokenAccount>,
    from: Address,
    to: Address,
    mint: Address,
    authority: Address,
    amount: u64,
) -> Result<(), Errors> {
    if !accounts.contains_key(from) || !accounts.contains_key(to) {
        Err(Errors::AccountMismatch)
    } else if accounts[from].mint != mint || accounts[to].mint != mint {
        Err(Errors::AccountMismatch)
    } else if accounts[from].owner != authority {
        Err(Errors::AccountMismatch)
    } else if accounts[from].amount < amount {
        Err(Errors::InsufficientFunds)
    } else if from != to && accounts[to].amount + amount > u64::MAX {
        Err(Errors::Overflow)
    } else {
        Ok(())
    }
}

/// The accounts after exactly `amount` units left `from` and arrived at `to`.
pub open spec fn transferred(
    accounts: Map<Address, TokenAccount>,
    from: Address,
    to: Address,
    amount: u64,
) -> Map<Address, TokenAccount> {
    if from == to {
        accounts
    } else {
        accounts.insert(
            from,
            TokenAccount { amount: (accounts[from].amount - amount) as u64, ..accounts[from] },
        ).insert(to, TokenAccount { amount: (accounts[to].amount + amount) as u64, ..accounts[to] })
    }
}

/// The currency accounts and the transfers between them.
pub struct TokenService {
    accounts: AddressMap<TokenAccount>,
}

impl View for TokenService {
    type V = Map<Address, TokenAccount>;

    closed spec fn view(&self) -> Map<Address, TokenAccount> {
        self.accounts@
    }
}

impl TokenService {
    /// A service without accounts.
    pub fn new() -> (service: TokenService)
        ensures
            service@ == Map::<Address, TokenAccount>::empty(),
    {
        TokenService { accounts: AddressMap::new() }
    }

    /// The account at `address`, if one stands there.
    pub fn account(&self, address: &Address) -> (account: Option<TokenAccount>)
        ensures
            account == (if self@.contains_key(*address) {
                Some(self@[*address])
            } else {
                None
            }),
    {
        match self.accounts.get(address) {
            Some(account) => Some(*account),
            None => None,
        }
    }

    /// Says what [`TokenService::ensure_account`] would answer, and changes nothing.
    pub fn can_ensure_account(&self, address: &Address, owner: &Address, mint: &Address) -> (answer:
        Result<(), Errors>)
        ensures
            answer == ensure_outcome(self@, *address, *owner, *mint),
    {
        match self.accounts.get(address) {
            Some(account) => {
                if account.owner == *owner && account.mint == *mint {
                    Ok(())
                } else {
                    Err(Errors::AccountMismatch)
                }
            },
            None => Ok(()),
        }
    }

    /// Makes sure that an account for `owner` in currency `mint` stands at
    /// `address`, opening an empty one where the address is free.
    pub fn ensure_account(&mut self, address: Address, owner: Address, mint: Address) -> (done:
        Result<(), Errors>)
        ensures
            done == ensure_outcome(old(self)@, address, owner, mint),
            final(self)@ == (if done is Ok {
                ensured(old(self)@, address, owner, mint)
            } else {
                old(self)@
            }),
    {
        let answer = self.can_ensure_account(&address, &owner, &mint);
        if answer.is_ok() && !self.accounts.contains(&address) {
            self.accounts.insert(address, TokenAccount { mint, owner, amount: 0 });
        }
        answer
    }

    /// Issues `amount` new units into the account at `address`.
    pub fn mint_to(&mut self, address: Address, amount: u64) -> (done: Result<(), Errors>)
        ensures
            done == (if !old(self)@.contains_key(address) {
                Err::<(), Errors>(Errors::AccountMismatch)
            } else if old(self)@[address].amount + amount > u64::MAX {
                Err(Errors::Overflow)
            } else {
                Ok(())
            }),
            final(self)@ == (if done is Ok {
                old(self)@.insert(
                    address,
                    TokenAccount {
                        amount: (old(self)@[address].amount + amount) as u64,
                        ..old(self)@[address]
                    },
                )
            } else {
                old(self)@
            }),
    {
        match self.account(&address) {
            Some(account) => {
                match account.amount.checked_add(amount) {
                    Some(sum) => {
                        self.accounts.insert(address, TokenAccount { amount: sum, ..account });
                        Ok(())
                    },
                    None => Err(Errors::Overflow),
                }
            },
            None => Err(Errors::AccountMismatch),
        }
    }

    /// Says what [`TokenService::transfer`] would answer, and changes nothing.
    pub fn can_transfer(
        &self,
        from: &Address,
        to: &Address,
        mint: &Address,
        authority: &Address,
        amount: u64,
    ) -> (answer: Result<(), Errors>)
        ensures
            answer == transfer_outcome(self@, *from, *to, *mint, *authority, amount),
    {
        let source = match self.account(from) {
            Some(account) => account,
            None => {
                return Err(Errors::AccountMismatch);
            },
        };
        let target = match self.account(to) {
            Some(account) => account,
            None => {
                return Err(Errors::AccountMismatch);
            },
        };
        if source.mint != *mint || target.mint != *mint {
            Err(Errors::AccountMismatch)
        } else if source.owner != *authority {
            Err(Errors::AccountMismatch)
        } else if source.amount < amount {
            Err(Errors::InsufficientFunds)
        } else if *from != *to && target.amount.checked_add(amount).is_none() {
            Err(Errors::Overflow)
        } else {
            Ok(())
        }
    }

    /// Moves exactly `amount` units of `mint` from `from` to `to` on the word
    /// of `authority`, or fails and moves nothing.
    pub fn transfer(
        &mut self,
        from: Address,
        to: Address,
        mint: Address,
        authority: Address,
        amount: u64,
    ) -> (done: Result<(), Errors>)
        ensures
            done == transfer_outcome(old(self)@, from, to, mint, authority, amount),
            final(self)@ == (if done is Ok {
                transferred(old(self)@, from, to, amount)
            } else {
                old(self)@
            }),
    {
        let answer = self.can_transfer(&from, &to, &mint, &authority, amount);
        if answer.is_err() || from == to {
            return answer;
        }
        let source = match self.account(&from) {
            Some(account) => account,
            None => {
                return answer;
            },
        };
        let target = match self.account(&to) {
            Some(account) => account,
            None => {
                return answer;
            },
        };
        self.accounts.insert(from, TokenAccount { amount: source.amount - amount, ..source });
        self.accounts.insert(to, TokenAccount { amount: target.amount + amount, ..target });
        answer
    }
}

} // verus!
