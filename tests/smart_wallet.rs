use vault_contracts::account::{Account, Holder, Transfer};
use vault_contracts::smart_wallet::{SmartWalletContract, WalletError};

fn addr(tag: u8) -> Account {
    Account::new([tag; 56])
}

/// Token balances, moved by the transfers that the wallet hands back.
struct Balances {
    entries: Vec<(Holder, i128)>,
}

impl Balances {
    fn of(&self, h: Holder) -> i128 {
        self.entries.iter().find(|e| e.0 == h).map(|e| e.1).unwrap_or(0)
    }

    fn add(&mut self, h: Holder, amount: i128) {
        match self.entries.iter_mut().find(|e| e.0 == h) {
            Some(e) => e.1 += amount,
            None => self.entries.push((h, amount)),
        }
    }

    fn apply(&mut self, t: Transfer) {
        assert!(self.of(t.from) >= t.amount, "insufficient balance");
        self.add(t.from, -t.amount);
        self.add(t.to, t.amount);
    }
}

struct Setup {
    user1: Account,
    user2: Account,
    token: Account,
    wallet: SmartWalletContract,
    balances: Balances,
}

fn initialized() -> Setup {
    let user1 = addr(b'B');
    let user2 = addr(b'C');
    let token = addr(b'T');
    let mut balances = Balances { entries: Vec::new() };
    balances.add(Holder::User(user1), 1_000_000_000);
    balances.add(Holder::User(user2), 500_000_000);
    let mut wallet = SmartWalletContract::new();
    wallet.initialize(user1, token).unwrap();
    Setup { user1, user2, token, wallet, balances }
}

#[test]
fn wallet_initialize() {
    let t = initialized();
    assert_eq!(t.wallet.owner(), Ok(t.user1));
    assert_eq!(t.wallet.token(), Ok(t.token));
}

#[test]
fn wallet_initialize_twice_is_refused() {
    let mut t = initialized();
    assert_eq!(t.wallet.initialize(t.user2, t.token), Err(WalletError::AlreadyInitialized));
    assert_eq!(t.wallet.owner(), Ok(t.user1));
    let fresh = SmartWalletContract::new();
    assert_eq!(fresh.owner(), Err(WalletError::NotInitialized));
}

#[test]
fn test_test_deposit() {
    let mut t = initialized();
    let deposit_amount: i128 = 100_000_000;
    let transfer = t.wallet.deposit(t.user1, deposit_amount).unwrap();
    assert_eq!(
        transfer,
        Transfer { from: Holder::User(t.user1), to: Holder::Contract, amount: deposit_amount }
    );
    t.balances.apply(transfer);
    assert_eq!(t.balances.of(Holder::Contract), deposit_amount);
    assert_eq!(t.balances.of(Holder::User(t.user1)), 1_000_000_000 - deposit_amount);
}

#[test]
fn wallet_deposit_non_positive_is_refused() {
    let t = initialized();
    assert_eq!(t.wallet.deposit(t.user1, 0), Err(WalletError::InvalidAmount));
    assert_eq!(t.wallet.deposit(t.user1, -100), Err(WalletError::InvalidAmount));
}

#[test]
fn test_withdraw() {
    let mut t = initialized();
    let deposit_amount: i128 = 200_000_000;
    let transfer = t.wallet.deposit(t.user1, deposit_amount).unwrap();
    t.balances.apply(transfer);
    assert_eq!(t.balances.of(Holder::Contract), deposit_amount);

    let withdraw_amount: i128 = 50_000_000;
    let balance = t.balances.of(Holder::Contract);
    let transfer = t.wallet.withdraw(t.user2, withdraw_amount, balance).unwrap();
    t.balances.apply(transfer);
    assert_eq!(t.balances.of(Holder::Contract), deposit_amount - withdraw_amount);
    assert_eq!(t.balances.of(Holder::User(t.user2)), 500_000_000 + withdraw_amount);
}

#[test]
fn wallet_withdraw_refusals() {
    let t = initialized();
    assert_eq!(
        t.wallet.withdraw(t.user2, 100_000_000, 50_000_000),
        Err(WalletError::InsufficientBalance)
    );
    assert_eq!(t.wallet.withdraw(t.user2, 0, 100_000_000), Err(WalletError::InvalidAmount));
    assert_eq!(t.wallet.withdraw(t.user2, -50, 100_000_000), Err(WalletError::InvalidAmount));
}

#[test]
fn test_transfer() {
    let mut t = initialized();
    let deposit_amount: i128 = 300_000_000;
    let transfer = t.wallet.deposit(t.user1, deposit_amount).unwrap();
    t.balances.apply(transfer);
    assert_eq!(t.balances.of(Holder::Contract), deposit_amount);

    let transfer_amount: i128 = 75_000_000;
    let balance = t.balances.of(Holder::Contract);
    let transfer = t.wallet.transfer(t.user2, transfer_amount, balance).unwrap();
    t.balances.apply(transfer);
    assert_eq!(t.balances.of(Holder::Contract), deposit_amount - transfer_amount);
    assert_eq!(t.balances.of(Holder::User(t.user2)), 500_000_000 + transfer_amount);
}
