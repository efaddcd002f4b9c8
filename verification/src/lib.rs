//! A token-ledger state machine over fixed-size account records.
//!
//! The library tracks per-account token balances and a delegated minting
//! authority. Records live as fixed-width byte strings in caller-supplied
//! storage slots; six instructions initialize accounts, rotate the mint
//! authority, mint tokens, and transfer balances. Every instruction either
//! fails before touching any slot's bytes or commits all of its writes
//! together.
pub mod codec;
pub mod dispatch;
pub mod errors;
pub mod host;
pub mod keys;
pub mod laws;
pub mod state;
pub mod transitions;
