use vstd::prelude::*;

verus! {

/// Length of a ledger address in its textual (strkey) form.
pub const ADDRESS_LEN: usize = 56;

/// A ledger address, held as the bytes of its textual form.
#[derive(Clone, Copy, Debug, PartialEq, Eq)]
pub struct Account {
    pub key: [u8; 56],
}

impl Account {
    pub fn new(key: [u8; 56]) -> (r: Account)
        ensures
            r.key == key,
    {
        Account { key }
    }

    /// Compares two addresses byte by byte.
    pub fn same(&self, other: &Account) -> (r: bool)
        ensures
            r == (*self == *other),
    {
        let mut i: usize = 0;
        while i < ADDRESS_LEN
            invariant
                i <= ADDRESS_LEN,
                forall|j: int| 0 <= j < i ==> self.key[j] == other.key[j],
            decreases ADDRESS_LEN - i,
        {
            if self.key[i] != other.key[i] {
                return false;
            }
            i = i + 1;
        }
        assert(self.key =~= other.key);
        true
    }
}

/// One side of a token transfer: the contract's own custody balance or an
/// outside address.
#[derive(Clone, Copy, Debug, PartialEq, Eq)]
pub enum Holder {
    Contract,
    User(Account),
}

/// A token transfer that the host must perform for an operation to take
/// effect.
#[derive(Clone, Copy, Debug, PartialEq, Eq)]
pub struct Transfer {
    pub from: Holder,
    pub to: Holder,
    pub amount: i128,
}

} // verus!
