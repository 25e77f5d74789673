//! Typed failures of the ledger operations.

use vstd::prelude::*;

verus! {

/// Why a ledger operation was rejected.
///
/// Validation failures (`NameTooLong`, `TickerTooLong`, `AlreadyIssued`,
/// `InsufficientBalance`, `InsufficientAllowance`) are detected before any
/// mutation. `Overflow` reports exhaustion of the unsigned integer domain;
/// an operation that would overflow is rejected whole, never applied in part.
#[derive(Clone, Copy, Debug, PartialEq, Eq, Structural)]
pub enum Error {
    /// A token name longer than `MAX_NAME_LEN` bytes was offered.
    NameTooLong,
    /// A token ticker longer than `MAX_TICKER_LEN` bytes was offered.
    TickerTooLong,
    /// The token has already been issued; re-issuance would mint supply
    /// out of nothing and break conservation, so it is refused.
    AlreadyIssued,
    /// The sender holds less than the amount to be moved.
    InsufficientBalance,
    /// The spender was approved for less than the amount to be moved.
    InsufficientAllowance,
    /// A checked addition on a balance or allowance would wrap.
    Overflow,
}

} // verus!
