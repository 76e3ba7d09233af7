use vstd::prelude::*;

verus! {

/// Why a handler refused an action. A refused action changes nothing.
#[derive(Clone, Copy, Debug, PartialEq, Eq, Structural)]
pub enum ContractError {
    /// The caller failed an ownership or role check.
    Unauthorized,
    /// The requested amount exceeds the caller's balance.
    InsufficientBalance,
    /// A deposit carried no funds in the native denomination.
    EmptyBalance,
    /// The referenced art item has no record.
    NotFound,
    /// The system was created before: its configuration is already stored.
    AlreadyInitialized,
    /// A stored ledger does not have the expected shape.
    Corrupt,
}

} // verus!
