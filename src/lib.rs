//! A tap-to-earn faucet: a registered user may claim a fixed reward of one
//! asset once per cooldown interval, paid from the faucet's own balance.
//!
//! The library holds the faucet's state machine. The host that runs it
//! supplies the ledger time, proves the caller's authority, and performs the
//! asset transfer that a successful claim asks for.

pub mod contract;
pub mod laws;
pub mod rules;

pub use contract::{TapGameContract, Transfer};
pub use rules::{check_initialize, check_tap, cooldown_elapsed, payout_amount, Config, Identity, TapError};
