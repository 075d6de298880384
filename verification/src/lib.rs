//! A verified fungible-token ledger.
//!
//! The ledger keeps per-account balances together with the token's
//! configuration (name, symbol, circulating supply and supply cap) and a
//! designated minter account. The operations — transfer, burn, mint and
//! balance queries — are proved to preserve the ledger's invariants:
//! the circulating supply always equals the sum of all balances, and it
//! never exceeds the cap.
//!
//! The hosting runtime is expected to authenticate callers, validate
//! address strings and persist the ledger between calls; this crate holds
//! only the verified core.

pub mod contract;
pub mod error;
pub mod laws;
pub mod msg;
pub mod state;
