//! Domain events emitted by successful ledger operations.

use vstd::prelude::*;

verus! {

/// An event for the host's event log.
///
/// The core appends events to the ledger's log; the host records and
/// persists them. `Approval` carries the delta applied to (or consumed
/// from) an allowance, not the allowance's new total.
#[derive(Clone, Copy, Debug, PartialEq, Eq, Structural)]
pub enum Event {
    /// `value` tokens moved from `from` to `to`.
    Transfer { from: u64, to: u64, value: u64 },
    /// `owner` granted (positive delta) or a spender consumed part of an
    /// allowance; `value` is the delta, not the new total.
    Approval { owner: u64, spender: u64, value: u64 },
}

} // verus!
