//! A fungible-token ledger (an ERC20-style accounting core).
//!
//! The crate keeps three stores — the token record, a balance ledger and an
//! allowance ledger — and offers four state transitions over them: `issue`,
//! `transfer`, `approve` and `transfer_from`. Every transition is atomic:
//! it either applies all of its writes or none, and it preserves the
//! conservation invariant that the balances always sum to the total supply.
//! The host that embeds the core authenticates callers and records the
//! emitted events; accounts are opaque identities supplied by that host.

pub mod allowances;
pub mod balances;
pub mod errors;
pub mod events;
pub mod ledger;
pub mod store;
pub mod token;
