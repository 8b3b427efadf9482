use crate::account::{Account, Holder, Transfer};
use crate::accrual::{calculate_yield, yield_of, DAY_IN_LEDGERS};
use vstd::prelude::*;

verus! {

/// Shortest lock a deposit may ask for, in days.
pub const MIN_LOCK_DURATION_DAYS: u64 = 30;

/// Longest lock a deposit may ask for, in days (two years).
pub const MAX_LOCK_DURATION_DAYS: u64 = 365 * 2;

/// The keys under which a host stores the vault contract's state.
#[derive(Clone, Copy, Debug, PartialEq, Eq, Structural)]
pub enum DataKey {
    Admin,
    Token,
    Vaults,
    NextVaultId,
    APYRate,
}

/// Where a vault is in its life.
#[derive(Clone, Copy, Debug, PartialEq, Eq, Structural)]
pub enum VaultStatus {
    Locked,
    /// The lock period has ended and the payout is under way; a stored
    /// vault is never in this status.
    Unlocked,
    Withdrawn,
}

/// One deposit, locked until `end_ledger`.
#[derive(Clone, Copy, Debug, PartialEq, Eq)]
pub struct Vault {
    pub id: u64,
    pub owner: Account,
    /// The principal deposited.
    pub amount: i128,
    /// Ledger at which the vault was created.
    pub start_ledger: u32,
    /// Ledger from which the vault may be withdrawn.
    pub end_ledger: u32,
    /// The yearly rate in force when the vault was created.
    pub apy_rate_at_lock: u128,
    pub status: VaultStatus,
}

/// Why a vault operation was refused.
#[derive(Clone, Copy, Debug, PartialEq, Eq, Structural)]
pub enum VaultError {
    NotInitialized,
    AlreadyInitialized,
    Unauthorized,
    InvalidAmount,
    InvalidDuration,
    NotFound,
    NotOwner,
    StillLocked,
    AlreadyWithdrawn,
    InsufficientBalance,
    YieldOverflow,
    PayoutOverflow,
    Overflow,
}

/// The settings fixed or managed by the administrator.
#[derive(Clone, Copy, Debug, PartialEq, Eq)]
pub struct VaultConfig {
    pub admin: Account,
    /// The token that deposits and payouts are made in.
    pub token: Account,
    /// The yearly rate given to new vaults, over `INTEREST_RATE_DENOMINATOR`.
    pub apy_rate: u128,
}

/// The abstract state of a vault contract: its settings, once initialized,
/// and its vaults, the vault with id `i` at index `i`.
pub struct VaultState {
    pub config: Option<VaultConfig>,
    pub vaults: Seq<Vault>,
}

/// The principal plus the yield owed over the vault's whole lock period.
pub open spec fn payout_of(v: Vault) -> int {
    v.amount + yield_of(v.amount as int, v.apy_rate_at_lock as int, v.end_ledger - v.start_ledger)
}

/// The ids of the vaults in `vaults` whose owner is `owner`, in order.
pub open spec fn ids_owned_by(vaults: Seq<Vault>, owner: Account) -> Seq<u64>
    decreases vaults.len(),
{
    if vaults.len() == 0 {
        Seq::empty()
    } else {
        let rest = ids_owned_by(vaults.drop_last(), owner);
        if vaults.last().owner == owner {
            rest.push(vaults.last().id)
        } else {
            rest
        }
    }
}

impl VaultState {
    /// Ids are positions, every principal is positive, every lock ends after
    /// it starts, no vault is kept in the passing `Unlocked` status, and
    /// there are no vaults before initialization.
    pub open spec fn wf(self) -> bool {
        &&& self.config is None ==> self.vaults.len() == 0
        &&& forall|i: int|
            0 <= i < self.vaults.len() ==> {
                &&& (#[trigger] self.vaults[i]).id == i
                &&& self.vaults[i].amount > 0
                &&& self.vaults[i].start_ledger < self.vaults[i].end_ledger
                &&& self.vaults[i].status != VaultStatus::Unlocked
            }
    }

    pub open spec fn initialize(self, admin: Account, token: Account, rate: u128) -> (
        VaultState,
        Result<(), VaultError>,
    ) {
        if self.config is Some {
            (self, Err(VaultError::AlreadyInitialized))
        } else {
            (
                VaultState {
                    config: Some(VaultConfig { admin, token, apy_rate: rate }),
                    vaults: self.vaults,
                },
                Ok(()),
            )
        }
    }

    /// Why a deposit is refused, checked in this order; `None` where it is
    /// accepted.
    pub open spec fn deposit_error(self, amount: i128, days: u64, now: u32) -> Option<
        VaultError,
    > {
        if amount <= 0 {
            Some(VaultError::InvalidAmount)
        } else if days < MIN_LOCK_DURATION_DAYS || days > MAX_LOCK_DURATION_DAYS {
            Some(VaultError::InvalidDuration)
        } else if self.config is None {
            Some(VaultError::NotInitialized)
        } else if now + days * DAY_IN_LEDGERS > u32::MAX {
            Some(VaultError::Overflow)
        } else if self.vaults.len() >= u64::MAX {
            Some(VaultError::Overflow)
        } else {
            None
        }
    }

    /// The vault that an accepted deposit creates.
    pub open spec fn new_vault(self, from: Account, amount: i128, days: u64, now: u32) -> Vault {
        Vault {
            id: self.vaults.len() as u64,
            owner: from,
            amount,
            start_ledger: now,
            end_ledger: (now + days * DAY_IN_LEDGERS) as u32,
            apy_rate_at_lock: self.config->Some_0.apy_rate,
            status: VaultStatus::Locked,
        }
    }

    /// A deposit of `amount` by `from`, locked for `days` days from ledger
    /// `now`: the state after it, and the new id with the transfer into
    /// custody that the host must make.
    pub open spec fn deposit(self, from: Account, amount: i128, days: u64, now: u32) -> (
        VaultState,
        Result<(u64, Transfer), VaultError>,
    ) {
        match self.deposit_error(amount, days, now) {
            Some(e) => (self, Err(e)),
            None => (
                VaultState {
                    config: self.config,
                    vaults: self.vaults.push(self.new_vault(from, amount, days, now)),
                },
                Ok(
                    (
                        self.vaults.len() as u64,
                        Transfer { from: Holder::User(from), to: Holder::Contract, amount },
                    ),
                ),
            ),
        }
    }

    /// Why a withdrawal is refused, checked in this order; `None` where it
    /// is accepted.
    pub open spec fn withdraw_error(self, caller: Account, id: u64, now: u32) -> Option<
        VaultError,
    > {
        if id >= self.vaults.len() {
            Some(VaultError::NotFound)
        } else {
            let v = self.vaults[id as int];
            if v.status == VaultStatus::Withdrawn {
                Some(VaultError::AlreadyWithdrawn)
            } else if v.owner != caller {
                Some(VaultError::NotOwner)
            } else if v.status == VaultStatus::Locked && now < v.end_ledger {
                Some(VaultError::StillLocked)
            } else if yield_of(
                v.amount as int,
                v.apy_rate_at_lock as int,
                v.end_ledger - v.start_ledger,
            ) > i128::MAX {
                Some(VaultError::YieldOverflow)
            } else if payout_of(v) > i128::MAX {
                Some(VaultError::PayoutOverflow)
            } else {
                None
            }
        }
    }

    /// A withdrawal of vault `id` by `caller` at ledger `now`: the state
    /// after it, and the payout transfer that the host must make.
    pub open spec fn withdraw(self, caller: Account, id: u64, now: u32) -> (
        VaultState,
        Result<Transfer, VaultError>,
    ) {
        match self.withdraw_error(caller, id, now) {
            Some(e) => (self, Err(e)),
            None => {
                let v = self.vaults[id as int];
                (
                    VaultState {
                        config: self.config,
                        vaults: self.vaults.update(
                            id as int,
                            Vault { status: VaultStatus::Withdrawn, ..v },
                        ),
                    },
                    Ok(
                        Transfer {
                            from: Holder::Contract,
                            to: Holder::User(v.owner),
                            amount: payout_of(v) as i128,
                        },
                    ),
                )
            },
        }
    }

    /// The vault with id `id`.
    pub open spec fn vault(self, id: u64) -> Result<Vault, VaultError> {
        if id < self.vaults.len() {
            Ok(self.vaults[id as int])
        } else {
            Err(VaultError::NotFound)
        }
    }

    /// `Unauthorized` unless `caller` is the administrator.
    pub open spec fn admin_error(self, caller: Account) -> Option<VaultError> {
        match self.config {
            None => Some(VaultError::NotInitialized),
            Some(c) => if c.admin != caller {
                Some(VaultError::Unauthorized)
            } else {
                None
            },
        }
    }

    /// The administrator sets the rate given to vaults created from now on.
    pub open spec fn set_apy_rate(self, caller: Account, rate: u128) -> (
        VaultState,
        Result<(), VaultError>,
    ) {
        match self.admin_error(caller) {
            Some(e) => (self, Err(e)),
            None => (
                VaultState {
                    config: Some(VaultConfig { apy_rate: rate, ..self.config->Some_0 }),
                    vaults: self.vaults,
                },
                Ok(()),
            ),
        }
    }
}

/// A vault contract: the administrator's settings and every vault ever
/// created, never removed.
pub struct VaultContract {
    config: Option<VaultConfig>,
    vaults: Vec<Vault>,
}

impl View for VaultContract {
    type V = VaultState;

    closed spec fn view(&self) -> VaultState {
        VaultState { config: self.config, vaults: self.vaults@ }
    }
}

impl VaultContract {
    /// A contract that has not been initialized.
    pub fn new() -> (r: VaultContract)
        ensures
            r@.config is None,
            r@.vaults.len() == 0,
            r@.wf(),
    {
        VaultContract { config: None, vaults: Vec::new() }
    }

    /// Rebuilds a contract from stored settings and vaults; `None` unless
    /// they are well formed.
    pub fn from_parts(config: Option<VaultConfig>, vaults: Vec<Vault>) -> (r: Option<VaultContract>)
        ensures
            r is Some <==> (VaultState { config, vaults: vaults@ }).wf(),
            r matches Some(c) ==> c@ == (VaultState { config, vaults: vaults@ }),
    {
        if config.is_none() && vaults.len() > 0 {
            return None;
        }
        let mut i: usize = 0;
        while i < vaults.len()
            invariant
                i <= vaults@.len(),
                forall|j: int|
                    0 <= j < i ==> {
                        &&& (#[trigger] vaults@[j]).id == j
                        &&& vaults@[j].amount > 0
                        &&& vaults@[j].start_ledger < vaults@[j].end_ledger
                        &&& vaults@[j].status != VaultStatus::Unlocked
                    },
            decreases vaults@.len() - i,
        {
            let v = vaults[i];
            if v.id as u128 != i as u128 || v.amount <= 0 || v.start_ledger >= v.end_ledger
                || v.status == VaultStatus::Unlocked {
                return None;
            }
            i = i + 1;
        }
        Some(VaultContract { config, vaults })
    }

    /// The administrator's settings, once initialized.
    pub fn config(&self) -> (r: Option<VaultConfig>)
        ensures
            r == self@.config,
    {
        self.config
    }

    /// Every vault, the vault with id `i` at index `i`.
    pub fn vaults(&self) -> (r: &Vec<Vault>)
        ensures
            r@ == self@.vaults,
    {
        &self.vaults
    }

    /// Sets the administrator, the token and the first rate, once.
    pub fn initialize(&mut self, admin: Account, token: Account, initial_apy_rate: u128) -> (r:
        Result<(), VaultError>)
        requires
            old(self)@.wf(),
        ensures
            (final(self)@, r) == old(self)@.initialize(admin, token, initial_apy_rate),
            final(self)@.wf(),
    {
        if self.config.is_some() {
            return Err(VaultError::AlreadyInitialized);
        }
        self.config = Some(VaultConfig { admin, token, apy_rate: initial_apy_rate });
        Ok(())
    }

    /// Opens a vault holding `amount` of `from`, locked for
    /// `lock_duration_days` days from ledger `now` at the current rate.
    /// Returns its id and the transfer into custody that the host must make
    /// before it keeps the new state.
    pub fn deposit(&mut self, from: Account, amount: i128, lock_duration_days: u64, now: u32) -> (r:
        Result<(u64, Transfer), VaultError>)
        requires
            old(self)@.wf(),
        ensures
            (final(self)@, r) == old(self)@.deposit(from, amount, lock_duration_days, now),
            final(self)@.wf(),
    {
        if amount <= 0 {
            return Err(VaultError::InvalidAmount);
        }
        if lock_duration_days < MIN_LOCK_DURATION_DAYS || lock_duration_days
            > MAX_LOCK_DURATION_DAYS {
            return Err(VaultError::InvalidDuration);
        }
        let rate = match &self.config {
            None => {
                return Err(VaultError::NotInitialized);
            },
            Some(c) => c.apy_rate,
        };
        let span: u32 = (lock_duration_days as u32) * DAY_IN_LEDGERS;
        let end_ledger = match now.checked_add(span) {
            None => {
                return Err(VaultError::Overflow);
            },
            Some(e) => e,
        };
        let len = self.vaults.len();
        if len as u128 >= u64::MAX as u128 {
            return Err(VaultError::Overflow);
        }
        let id = len as u64;
        let vault = Vault {
            id,
            owner: from,
            amount,
            start_ledger: now,
            end_ledger,
            apy_rate_at_lock: rate,
            status: VaultStatus::Locked,
        };
        self.vaults.push(vault);
        proof {
            assert(self@.vaults =~= old(self)@.vaults.push(vault));
        }
        Ok((id, Transfer { from: Holder::User(from), to: Holder::Contract, amount }))
    }

    /// Pays out vault `vault_id` to its owner `caller` once its lock has
    /// ended at ledger `now`: principal plus the yield over the whole lock
    /// at the rate frozen in the vault. Returns the transfer that the host
    /// must make before it keeps the new state.
    pub fn withdraw(&mut self, caller: Account, vault_id: u64, now: u32) -> (r: Result<
        Transfer,
        VaultError,
    >)
        requires
            old(self)@.wf(),
        ensures
            (final(self)@, r) == old(self)@.withdraw(caller, vault_id, now),
            final(self)@.wf(),
    {
        if vault_id as u128 >= self.vaults.len() as u128 {
            return Err(VaultError::NotFound);
        }
        let idx = vault_id as usize;
        let v = self.vaults[idx];
        if v.status == VaultStatus::Withdrawn {
            return Err(VaultError::AlreadyWithdrawn);
        }
        if !v.owner.same(&caller) {
            return Err(VaultError::NotOwner);
        }
        match v.status {
            VaultStatus::Withdrawn => {},
            VaultStatus::Locked => {
                if now < v.end_ledger {
                    return Err(VaultError::StillLocked);
                }
            },
            VaultStatus::Unlocked => {},
        }
        let earned = match calculate_yield(v.amount, v.apy_rate_at_lock, v.end_ledger - v.start_ledger) {
            None => {
                return Err(VaultError::YieldOverflow);
            },
            Some(y) => y,
        };
        let total = match v.amount.checked_add(earned) {
            None => {
                return Err(VaultError::PayoutOverflow);
            },
            Some(t) => t,
        };
        let updated = Vault { status: VaultStatus::Withdrawn, ..v };
        self.vaults.set(idx, updated);
        proof {
            assert(self@.vaults =~= old(self)@.vaults.update(idx as int, updated));
        }
        Ok(Transfer { from: Holder::Contract, to: Holder::User(v.owner), amount: total })
    }

    /// The vault with id `vault_id`.
    pub fn get_vault(&self, vault_id: u64) -> (r: Result<Vault, VaultError>)
        ensures
            r == self@.vault(vault_id),
    {
        if vault_id as u128 >= self.vaults.len() as u128 {
            return Err(VaultError::NotFound);
        }
        Ok(self.vaults[vault_id as usize])
    }

    /// The ids of the vaults owned by `owner`, oldest first.
    pub fn get_user_vaults(&self, owner: Account) -> (r: Vec<u64>)
        ensures
            r@ == ids_owned_by(self@.vaults, owner),
    {
        let mut ids: Vec<u64> = Vec::new();
        let mut i: usize = 0;
        while i < self.vaults.len()
            invariant
                i <= self@.vaults.len(),
                ids@ == ids_owned_by(self@.vaults.take(i as int), owner),
            decreases self@.vaults.len() - i,
        {
            let v = self.vaults[i];
            proof {
                assert(self@.vaults.take(i + 1).drop_last() =~= self@.vaults.take(i as int));
            }
            if v.owner.same(&owner) {
                ids.push(v.id);
            }
            i = i + 1;
        }
        proof {
            assert(self@.vaults.take(i as int) =~= self@.vaults);
        }
        ids
    }

    /// Sets the rate given to vaults created from now on; the administrator
    /// only.
    pub fn set_apy_rate(&mut self, caller: Account, new_rate: u128) -> (r: Result<(), VaultError>)
        requires
            old(self)@.wf(),
        ensures
            (final(self)@, r) == old(self)@.set_apy_rate(caller, new_rate),
            final(self)@.wf(),
    {
        match &mut self.config {
            None => Err(VaultError::NotInitialized),
            Some(c) => {
                if !c.admin.same(&caller) {
                    return Err(VaultError::Unauthorized);
                }
                c.apy_rate = new_rate;
                Ok(())
            },
        }
    }

    /// The rate given to new vaults.
    pub fn get_apy_rate(&self) -> (r: Result<u128, VaultError>)
        ensures
            r == (match self@.config {
                None => Err(VaultError::NotInitialized),
                Some(c) => Ok(c.apy_rate),
            }),
    {
        match &self.config {
            None => Err(VaultError::NotInitialized),
            Some(c) => Ok(c.apy_rate),
        }
    }

    /// The administrator tops up the custody balance with `amount` from
    /// `from`, who must authorize it too. Returns the transfer to make.
    pub fn admin_deposit(&self, caller: Account, from: Account, amount: i128) -> (r: Result<
        Transfer,
        VaultError,
    >)
        ensures
            r == (match self@.admin_error(caller) {
                Some(e) => Err(e),
                None => if amount <= 0 {
                    Err(VaultError::InvalidAmount)
                } else {
                    Ok(Transfer { from: Holder::User(from), to: Holder::Contract, amount })
                },
            }),
    {
        match self.check_admin(&caller) {
            Some(e) => Err(e),
            None => {
                if amount <= 0 {
                    Err(VaultError::InvalidAmount)
                } else {
                    Ok(Transfer { from: Holder::User(from), to: Holder::Contract, amount })
                }
            },
        }
    }

    /// The administrator sends `amount` out of custody to `to`, given the
    /// custody balance the token reports. Returns the transfer to make.
    pub fn admin_withdraw(&self, caller: Account, to: Account, amount: i128, balance: i128) -> (r:
        Result<Transfer, VaultError>)
        ensures
            r == (match self@.admin_error(caller) {
                Some(e) => Err(e),
                None => if amount <= 0 {
                    Err(VaultError::InvalidAmount)
                } else if balance < amount {
                    Err(VaultError::InsufficientBalance)
                } else {
                    Ok(Transfer { from: Holder::Contract, to: Holder::User(to), amount })
                },
            }),
    {
        match self.check_admin(&caller) {
            Some(e) => Err(e),
            None => {
                if amount <= 0 {
                    Err(VaultError::InvalidAmount)
                } else if balance < amount {
                    Err(VaultError::InsufficientBalance)
                } else {
                    Ok(Transfer { from: Holder::Contract, to: Holder::User(to), amount })
                }
            },
        }
    }

    fn check_admin(&self, caller: &Account) -> (r: Option<VaultError>)
        ensures
            r == self@.admin_error(*caller),
    {
        match &self.config {
            None => Some(VaultError::NotInitialized),
            Some(c) => if c.admin.same(caller) {
                None
            } else {
                Some(VaultError::Unauthorized)
            },
        }
    }
}

} // verus!
