use crate::account::{Account, Holder, Transfer};
use vstd::prelude::*;

verus! {

/// The keys under which a host stores the wallet's state.
#[derive(Clone, Copy, Debug, PartialEq, Eq, Structural)]
pub enum DataKey {
    Owner,
    Token,
}

/// Why a wallet operation was refused.
#[derive(Clone, Copy, Debug, PartialEq, Eq, Structural)]
pub enum WalletError {
    NotInitialized,
    AlreadyInitialized,
    InvalidAmount,
    InsufficientBalance,
}

/// A wallet holding one token for a single owner, who alone may send it
/// out. The host authenticates the owner before a withdrawal.
pub struct SmartWalletContract {
    /// The owner and the token, once initialized.
    pub settings: Option<(Account, Account)>,
}

impl SmartWalletContract {
    /// A wallet that has not been initialized.
    pub fn new() -> (r: SmartWalletContract)
        ensures
            r.settings is None,
    {
        SmartWalletContract { settings: None }
    }

    /// Sets the owner and the token, once.
    pub fn initialize(&mut self, owner: Account, token: Account) -> (r: Result<(), WalletError>)
        ensures
            old(self).settings is Some ==> r == Err::<(), WalletError>(
                WalletError::AlreadyInitialized,
            ) && *final(self) == *old(self),
            old(self).settings is None ==> r is Ok && final(self).settings == Some(
                (owner, token),
            ),
    {
        if self.settings.is_some() {
            return Err(WalletError::AlreadyInitialized);
        }
        self.settings = Some((owner, token));
        Ok(())
    }

    /// Moves `amount` from `from` into the wallet: the transfer to make.
    pub fn deposit(&self, from: Account, amount: i128) -> (r: Result<Transfer, WalletError>)
        ensures
            r == (if amount <= 0 {
                Err(WalletError::InvalidAmount)
            } else if self.settings is None {
                Err(WalletError::NotInitialized)
            } else {
                Ok(Transfer { from: Holder::User(from), to: Holder::Contract, amount })
            }),
    {
        if amount <= 0 {
            return Err(WalletError::InvalidAmount);
        }
        if self.settings.is_none() {
            return Err(WalletError::NotInitialized);
        }
        Ok(Transfer { from: Holder::User(from), to: Holder::Contract, amount })
    }

    /// Sends `amount` out of the wallet to `to`, given the wallet's balance
    /// as the token reports it: the transfer to make.
    pub fn withdraw(&self, to: Account, amount: i128, balance: i128) -> (r: Result<
        Transfer,
        WalletError,
    >)
        ensures
            r == (if self.settings is None {
                Err(WalletError::NotInitialized)
            } else if amount <= 0 {
                Err(WalletError::InvalidAmount)
            } else if balance < amount {
                Err(WalletError::InsufficientBalance)
            } else {
                Ok(Transfer { from: Holder::Contract, to: Holder::User(to), amount })
            }),
    {
        if self.settings.is_none() {
            return Err(WalletError::NotInitialized);
        }
        if amount <= 0 {
            return Err(WalletError::InvalidAmount);
        }
        if balance < amount {
            return Err(WalletError::InsufficientBalance);
        }
        Ok(Transfer { from: Holder::Contract, to: Holder::User(to), amount })
    }

    /// The same as `withdraw`.
    pub fn transfer(&self, to: Account, amount: i128, balance: i128) -> (r: Result<
        Transfer,
        WalletError,
    >)
        ensures
            r == (if self.settings is None {
                Err(WalletError::NotInitialized)
            } else if amount <= 0 {
                Err(WalletError::InvalidAmount)
            } else if balance < amount {
                Err(WalletError::InsufficientBalance)
            } else {
                Ok(Transfer { from: Holder::Contract, to: Holder::User(to), amount })
            }),
    {
        self.withdraw(to, amount, balance)
    }

    /// The wallet's owner.
    pub fn owner(&self) -> (r: Result<Account, WalletError>)
        ensures
            r == (match self.settings {
                None => Err(WalletError::NotInitialized),
                Some(s) => Ok(s.0),
            }),
    {
        match self.settings {
            None => Err(WalletError::NotInitialized),
            Some(s) => Ok(s.0),
        }
    }

    /// The token the wallet holds.
    pub fn token(&self) -> (r: Result<Account, WalletError>)
        ensures
            r == (match self.settings {
                None => Err(WalletError::NotInitialized),
                Some(s) => Ok(s.1),
            }),
    {
        match self.settings {
            None => Err(WalletError::NotInitialized),
            Some(s) => Ok(s.1),
        }
    }
}

} // verus!
