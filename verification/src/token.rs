//! The token record: immutable-after-issue metadata and total supply.

use vstd::prelude::*;

verus! {

/// Longest token name the registry accepts, in bytes.
pub const MAX_NAME_LEN: usize = 64;

/// Longest token ticker the registry accepts, in bytes.
pub const MAX_TICKER_LEN: usize = 32;

/// The single token's metadata and total supply.
///
/// Created once by issuance and immutable thereafter. The name and ticker
/// are byte sequences bounded by [`MAX_NAME_LEN`] and [`MAX_TICKER_LEN`];
/// the total supply is the fixed amount granted to the issuer.
#[derive(Debug, PartialEq, Eq)]
pub struct Erc20Token {
    pub name: Vec<u8>,
    pub ticker: Vec<u8>,
    pub total_supply: u64,
}

impl Erc20Token {
    /// A well-formed token record keeps its name and ticker within the
    /// registry's size bounds.
    pub open spec fn wf(self) -> bool {
        self.name@.len() <= MAX_NAME_LEN && self.ticker@.len() <= MAX_TICKER_LEN
    }
}

} // verus!
