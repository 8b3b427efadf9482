use vault_contracts::account::{Account, Holder, Transfer};
use vault_contracts::paymaster::{PaymasterContract, PaymasterError};

fn addr(tag: u8) -> Account {
    Account::new([tag; 56])
}

/// Token balances, moved by the transfers that the contract hands back.
struct Balances {
    entries: Vec<(Holder, i128)>,
}

impl Balances {
    fn of(&self, h: Holder) -> i128 {
        self.entries.iter().find(|e| e.0 == h).map(|e| e.1).unwrap_or(0)
    }

    fn add(&mut self, h: Holder, amount: i128) {
        match self.entries.iter_mut().find(|e| e.0 == h) {
            Some(e) => e.1 += amount,
            None => self.entries.push((h, amount)),
        }
    }

    fn apply(&mut self, t: Transfer) {
        assert!(self.of(t.from) >= t.amount, "insufficient balance");
        self.add(t.from, -t.amount);
        self.add(t.to, t.amount);
    }
}

struct Setup {
    admin: Account,
    user1: Account,
    user2: Account,
    token: Account,
    contract: PaymasterContract,
    balances: Balances,
}

fn setup() -> Setup {
    let admin = addr(b'A');
    let user1 = addr(b'B');
    let user2 = addr(b'C');
    let mut balances = Balances { entries: Vec::new() };
    balances.add(Holder::User(admin), 1_000_000_000);
    balances.add(Holder::User(user1), 100_000_000);
    Setup { admin, user1, user2, token: addr(b'T'), contract: PaymasterContract::new(), balances }
}

fn initialized() -> Setup {
    let mut t = setup();
    t.contract.initialize(t.admin, t.token).unwrap();
    t
}

#[test]
fn test_test_initialize() {
    let t = initialized();
    assert_eq!(t.contract.admin(), Ok(t.admin));
    assert_eq!(t.contract.token(), Ok(t.token));
}

#[test]
fn paymaster_initialize_twice_is_refused() {
    let mut t = initialized();
    assert_eq!(t.contract.initialize(t.user1, t.token), Err(PaymasterError::AlreadyInitialized));
    assert_eq!(t.contract.admin(), Ok(t.admin));
}

#[test]
fn test_deposit_and_balance() {
    let mut t = initialized();
    let deposit_amount: i128 = 500_000_000;
    let transfer = t.contract.deposit(t.admin, deposit_amount).unwrap();
    t.balances.apply(transfer);
    assert_eq!(t.balances.of(Holder::Contract), deposit_amount);
    assert_eq!(t.balances.of(Holder::User(t.admin)), 1_000_000_000 - deposit_amount);
}

#[test]
fn paymaster_deposit_zero_amount_is_refused() {
    let t = initialized();
    assert_eq!(t.contract.deposit(t.admin, 0), Err(PaymasterError::InvalidAmount));
}

#[test]
fn test_admin_withdraw() {
    let mut t = initialized();
    let deposit_amount: i128 = 500_000_000;
    let transfer = t.contract.deposit(t.admin, deposit_amount).unwrap();
    t.balances.apply(transfer);
    assert_eq!(t.balances.of(Holder::Contract), deposit_amount);

    let withdraw_amount: i128 = 100_000_000;
    let balance = t.balances.of(Holder::Contract);
    let transfer = t.contract.withdraw(t.admin, t.user1, withdraw_amount, balance).unwrap();
    t.balances.apply(transfer);

    assert_eq!(t.balances.of(Holder::Contract), deposit_amount - withdraw_amount);
    assert_eq!(t.balances.of(Holder::User(t.user1)), 100_000_000 + withdraw_amount);
}

#[test]
fn paymaster_withdraw_refusals() {
    let t = initialized();
    assert_eq!(
        t.contract.withdraw(t.user1, t.user2, 100_000_000, 500_000_000),
        Err(PaymasterError::Unauthorized)
    );
    assert_eq!(
        t.contract.withdraw(t.admin, t.user1, 200_000_000, 100_000_000),
        Err(PaymasterError::InsufficientBalance)
    );
    assert_eq!(t.contract.withdraw(t.admin, t.user1, 0, 100), Err(PaymasterError::InvalidAmount));
    let fresh = PaymasterContract::new();
    assert_eq!(fresh.withdraw(t.admin, t.user1, 1, 100), Err(PaymasterError::NotInitialized));
}

#[test]
fn test_allow_disallow_address() {
    let mut t = initialized();
    t.contract.allow_address(t.admin, t.user1).unwrap();
    assert!(t.contract.is_allowed(&t.user1));
    t.contract.allow_address(t.admin, t.user1).unwrap();
    t.contract.disallow_address(t.admin, t.user1).unwrap();
    assert!(!t.contract.is_allowed(&t.user1));
    t.contract.disallow_address(t.admin, t.user1).unwrap();
    assert!(!t.contract.is_allowed(&t.user1));
}

#[test]
fn allow_list_changes_by_others_are_refused() {
    let mut t = initialized();
    assert_eq!(t.contract.allow_address(t.user1, t.user2), Err(PaymasterError::Unauthorized));
    assert!(!t.contract.is_allowed(&t.user2));
    t.contract.allow_address(t.admin, t.user1).unwrap();
    assert_eq!(t.contract.disallow_address(t.user2, t.user1), Err(PaymasterError::Unauthorized));
    assert!(t.contract.is_allowed(&t.user1));
}

#[test]
fn test_pay_allowed_sufficient_funds() {
    let mut t = initialized();
    let transfer = t.contract.deposit(t.admin, 200_000_000).unwrap();
    t.balances.apply(transfer);
    t.contract.allow_address(t.admin, t.user1).unwrap();
    let balance = t.balances.of(Holder::Contract);
    assert_eq!(t.contract.pay(t.user1, 100_000_000, balance), Ok(()));
}

#[test]
fn pay_for_disallowed_source_is_refused() {
    let mut t = initialized();
    t.contract.allow_address(t.admin, t.user1).unwrap();
    assert_eq!(t.contract.pay(t.user2, 1, 200_000_000), Err(PaymasterError::NotAllowed));
}

#[test]
fn pay_beyond_balance_is_refused() {
    let mut t = initialized();
    t.contract.allow_address(t.admin, t.user1).unwrap();
    assert_eq!(
        t.contract.pay(t.user1, 100_000_000, 50_000_000),
        Err(PaymasterError::InsufficientBalance)
    );
}
