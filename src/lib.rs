//! On-ledger account modules: a time-locked yield vault, a fee sponsor
//! allow-list, a username registry and a single-owner wallet.
//!
//! Each module is a state machine over plain values. The host that runs a
//! module authenticates callers, moves tokens, reads the ledger clock and
//! persists the state; the modules decide and hand back the token transfers
//! that the host must perform.

pub mod account;
pub mod accrual;
pub mod vault;
pub mod vault_laws;
pub mod smart_wallet;
pub mod paymaster;
pub mod registry;
