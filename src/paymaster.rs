use crate::account::{Account, Holder, Transfer};
use vstd::prelude::*;

verus! {

/// The keys under which a host stores the paymaster's state.
#[derive(Clone, Copy, Debug, PartialEq, Eq, Structural)]
pub enum DataKey {
    Admin,
    Token,
    SponsorshipRules,
}

/// Why a paymaster operation was refused.
#[derive(Clone, Copy, Debug, PartialEq, Eq, Structural)]
pub enum PaymasterError {
    NotInitialized,
    AlreadyInitialized,
    Unauthorized,
    InvalidAmount,
    /// The transaction's source is not on the allow-list.
    NotAllowed,
    InsufficientBalance,
}

/// The abstract state of a paymaster: the administrator and the fee token,
/// once initialized, and the addresses whose transactions it sponsors.
pub struct PaymasterState {
    pub settings: Option<(Account, Account)>,
    pub allowed: Set<Account>,
}

impl PaymasterState {
    /// `Unauthorized` unless `caller` is the administrator.
    pub open spec fn admin_error(self, caller: Account) -> Option<PaymasterError> {
        match self.settings {
            None => Some(PaymasterError::NotInitialized),
            Some(s) => if s.0 != caller {
                Some(PaymasterError::Unauthorized)
            } else {
                None
            },
        }
    }
}

/// A fee sponsor: it pays the fees of transactions whose source is on an
/// allow-list kept by its administrator, out of its own token balance.
pub struct PaymasterContract {
    settings: Option<(Account, Account)>,
    allowed: Vec<Account>,
}

impl View for PaymasterContract {
    type V = PaymasterState;

    closed spec fn view(&self) -> PaymasterState {
        PaymasterState {
            settings: self.settings,
            allowed: Set::new(|a: Account| self.allowed@.contains(a)),
        }
    }
}

impl PaymasterContract {
    /// Each address is listed once.
    pub closed spec fn wf(&self) -> bool {
        self.allowed@.no_duplicates()
    }

    /// A paymaster that has not been initialized.
    pub fn new() -> (r: PaymasterContract)
        ensures
            r.wf(),
            r@.settings is None,
            r@.allowed == Set::<Account>::empty(),
    {
        let r = PaymasterContract { settings: None, allowed: Vec::new() };
        proof {
            assert(r@.allowed =~= Set::<Account>::empty());
        }
        r
    }

    /// Rebuilds a paymaster from stored settings and allow-list; `None` if
    /// an address is listed twice.
    pub fn from_parts(settings: Option<(Account, Account)>, allowed: Vec<Account>) -> (r: Option<
        PaymasterContract,
    >)
        ensures
            r is Some <==> allowed@.no_duplicates(),
            r matches Some(c) ==> c.wf() && c@.settings == settings && forall|a: Account|
                c@.allowed.contains(a) <==> allowed@.contains(a),
    {
        let mut i: usize = 0;
        while i < allowed.len()
            invariant
                i <= allowed@.len(),
                forall|x: int, y: int| 0 <= x < y < allowed@.len() && x < i ==> allowed@[x] != allowed@[y],
            decreases allowed@.len() - i,
        {
            let mut j: usize = i + 1;
            while j < allowed.len()
                invariant
                    i < allowed@.len(),
                    i < j <= allowed@.len(),
                    forall|x: int, y: int| 0 <= x < y < allowed@.len() && x < i ==> allowed@[x] != allowed@[y],
                    forall|y: int| i < y < j ==> allowed@[i as int] != allowed@[y],
                decreases allowed@.len() - j,
            {
                if allowed[i].same(&allowed[j]) {
                    return None;
                }
                j = j + 1;
            }
            i = i + 1;
        }
        Some(PaymasterContract { settings, allowed })
    }

    /// The allow-list, each address once.
    pub fn allowed(&self) -> (r: &Vec<Account>)
        requires
            self.wf(),
        ensures
            r@.no_duplicates(),
            forall|a: Account| r@.contains(a) <==> self@.allowed.contains(a),
    {
        &self.allowed
    }

    /// Sets the administrator and the fee token, once.
    pub fn initialize(&mut self, admin: Account, token: Account) -> (r: Result<(), PaymasterError>)
        requires
            old(self).wf(),
        ensures
            final(self).wf(),
            old(self)@.settings is Some ==> r == Err::<(), PaymasterError>(
                PaymasterError::AlreadyInitialized,
            ) && final(self)@ == old(self)@,
            old(self)@.settings is None ==> r is Ok && final(self)@ == (PaymasterState {
                settings: Some((admin, token)),
                ..old(self)@
            }),
    {
        if self.settings.is_some() {
            return Err(PaymasterError::AlreadyInitialized);
        }
        self.settings = Some((admin, token));
        Ok(())
    }

    /// Whether `a` is on the allow-list.
    pub fn is_allowed(&self, a: &Account) -> (r: bool)
        ensures
            r == self@.allowed.contains(*a),
    {
        match self.position(a) {
            Some(_) => true,
            None => false,
        }
    }

    fn position(&self, a: &Account) -> (r: Option<usize>)
        ensures
            (match r {
                Some(i) => i < self.allowed@.len() && self.allowed@[i as int] == *a,
                None => !self.allowed@.contains(*a),
            }),
    {
        let mut i: usize = 0;
        while i < self.allowed.len()
            invariant
                i <= self.allowed@.len(),
                forall|j: int| 0 <= j < i ==> self.allowed@[j] != *a,
            decreases self.allowed@.len() - i,
        {
            if self.allowed[i].same(a) {
                return Some(i);
            }
            i = i + 1;
        }
        None
    }

    /// Puts `address` on the allow-list; the administrator only.
    pub fn allow_address(&mut self, caller: Account, address: Account) -> (r: Result<
        (),
        PaymasterError,
    >)
        requires
            old(self).wf(),
        ensures
            final(self).wf(),
            r == (match old(self)@.admin_error(caller) {
                Some(e) => Err(e),
                None => Ok(()),
            }),
            r is Err ==> final(self)@ == old(self)@,
            r is Ok ==> final(self)@ == (PaymasterState {
                allowed: old(self)@.allowed.insert(address),
                ..old(self)@
            }),
    {
        if let Some(e) = self.check_admin(&caller) {
            return Err(e);
        }
        match self.position(&address) {
            Some(i) => {
                proof {
                    assert(self.allowed@.contains(self.allowed@[i as int]));
                    assert(self@.allowed =~= old(self)@.allowed.insert(address));
                }
            },
            None => {
                let ghost before = self.allowed@;
                self.allowed.push(address);
                proof {
                    let n = before.len() as int;
                    assert(self.allowed@ == before.push(address));
                    assert forall|i: int, j: int|
                        0 <= i < j < self.allowed@.len() implies self.allowed@[i]
                        != self.allowed@[j] by {
                        if j == n {
                            assert(before.contains(before[i]));
                        }
                    }
                    assert forall|a: Account|
                        self.allowed@.contains(a) <==> (before.contains(a) || a == address) by {
                        if before.contains(a) {
                            let k = choose|k: int| 0 <= k < n && before[k] == a;
                            assert(self.allowed@[k] == a);
                        }
                        if a == address {
                            assert(self.allowed@[n] == a);
                        }
                        if self.allowed@.contains(a) && a != address {
                            let k = choose|k: int| 0 <= k <= n && self.allowed@[k] == a;
                            assert(before[k] == a);
                        }
                    }
                    assert(self@.allowed =~= old(self)@.allowed.insert(address));
                }
            },
        }
        Ok(())
    }

    /// Takes `address` off the allow-list; the administrator only.
    pub fn disallow_address(&mut self, caller: Account, address: Account) -> (r: Result<
        (),
        PaymasterError,
    >)
        requires
            old(self).wf(),
        ensures
            final(self).wf(),
            r == (match old(self)@.admin_error(caller) {
                Some(e) => Err(e),
                None => Ok(()),
            }),
            r is Err ==> final(self)@ == old(self)@,
            r is Ok ==> final(self)@ == (PaymasterState {
                allowed: old(self)@.allowed.remove(address),
                ..old(self)@
            }),
    {
        if let Some(e) = self.check_admin(&caller) {
            return Err(e);
        }
        match self.position(&address) {
            None => {
                proof {
                    assert(self@.allowed =~= old(self)@.allowed.remove(address));
                }
            },
            Some(i) => {
                let ghost before = self.allowed@;
                self.allowed.remove(i);
                proof {
                    assert(self.allowed@ == before.remove(i as int));
                    assert forall|a: Account|
                        self.allowed@.contains(a) <==> (before.contains(a) && a != address) by {
                        if before.contains(a) && a != address {
                            let k = choose|k: int| 0 <= k < before.len() && before[k] == a;
                            if k < i {
                                assert(self.allowed@[k] == a);
                            } else {
                                assert(k != i);
                                assert(self.allowed@[k - 1] == a);
                            }
                        }
                        if self.allowed@.contains(a) {
                            let k = choose|k: int| 0 <= k < self.allowed@.len() && self.allowed@[k] == a;
                            if k < i {
                                assert(before[k] == a);
                            } else {
                                assert(before[k + 1] == a);
                            }
                        }
                    }
                    assert(self@.allowed =~= old(self)@.allowed.remove(address));
                }
            },
        }
        Ok(())
    }

    /// Decides whether to sponsor a transaction from `source` whose fee is
    /// `required_fee`, given the paymaster's balance as the token reports
    /// it.
    pub fn pay(&self, source: Account, required_fee: i128, balance: i128) -> (r: Result<
        (),
        PaymasterError,
    >)
        ensures
            r == (if self@.settings is None {
                Err(PaymasterError::NotInitialized)
            } else if !self@.allowed.contains(source) {
                Err(PaymasterError::NotAllowed)
            } else if balance < required_fee {
                Err(PaymasterError::InsufficientBalance)
            } else {
                Ok(())
            }),
    {
        if self.settings.is_none() {
            return Err(PaymasterError::NotInitialized);
        }
        if !self.is_allowed(&source) {
            return Err(PaymasterError::NotAllowed);
        }
        if balance < required_fee {
            return Err(PaymasterError::InsufficientBalance);
        }
        Ok(())
    }

    /// Moves `amount` from `from` into the paymaster's balance: the
    /// transfer to make.
    pub fn deposit(&self, from: Account, amount: i128) -> (r: Result<Transfer, PaymasterError>)
        ensures
            r == (if amount <= 0 {
                Err(PaymasterError::InvalidAmount)
            } else if self@.settings is None {
                Err(PaymasterError::NotInitialized)
            } else {
                Ok(Transfer { from: Holder::User(from), to: Holder::Contract, amount })
            }),
    {
        if amount <= 0 {
            return Err(PaymasterError::InvalidAmount);
        }
        if self.settings.is_none() {
            return Err(PaymasterError::NotInitialized);
        }
        Ok(Transfer { from: Holder::User(from), to: Holder::Contract, amount })
    }

    /// The administrator sends `amount` of the paymaster's balance to `to`,
    /// given that balance as the token reports it: the transfer to make.
    pub fn withdraw(&self, caller: Account, to: Account, amount: i128, balance: i128) -> (r:
        Result<Transfer, PaymasterError>)
        ensures
            r == (match self@.admin_error(caller) {
                Some(e) => Err(e),
                None => if amount <= 0 {
                    Err(PaymasterError::InvalidAmount)
                } else if balance < amount {
                    Err(PaymasterError::InsufficientBalance)
                } else {
                    Ok(Transfer { from: Holder::Contract, to: Holder::User(to), amount })
                },
            }),
    {
        if let Some(e) = self.check_admin(&caller) {
            return Err(e);
        }
        if amount <= 0 {
            return Err(PaymasterError::InvalidAmount);
        }
        if balance < amount {
            return Err(PaymasterError::InsufficientBalance);
        }
        Ok(Transfer { from: Holder::Contract, to: Holder::User(to), amount })
    }

    /// The administrator.
    pub fn admin(&self) -> (r: Result<Account, PaymasterError>)
        ensures
            r == (match self@.settings {
                None => Err(PaymasterError::NotInitialized),
                Some(s) => Ok(s.0),
            }),
    {
        match self.settings {
            None => Err(PaymasterError::NotInitialized),
            Some(s) => Ok(s.0),
        }
    }

    /// The fee token.
    pub fn token(&self) -> (r: Result<Account, PaymasterError>)
        ensures
            r == (match self@.settings {
                None => Err(PaymasterError::NotInitialized),
                Some(s) => Ok(s.1),
            }),
    {
        match self.settings {
            None => Err(PaymasterError::NotInitialized),
            Some(s) => Ok(s.1),
        }
    }

    fn check_admin(&self, caller: &Account) -> (r: Option<PaymasterError>)
        ensures
            r == self@.admin_error(*caller),
    {
        match self.settings {
            None => Some(PaymasterError::NotInitialized),
            Some(s) => if s.0.same(caller) {
                None
            } else {
                Some(PaymasterError::Unauthorized)
            },
        }
    }
}

} // verus!
