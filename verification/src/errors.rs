use vstd::prelude::*;

verus! {

/// Why an invocation was rejected. Every operation either succeeds in full
/// or returns one of these and leaves every record unchanged.
#[derive(Clone, Copy, Debug, PartialEq, Eq, Structural)]
pub enum ErrorCode {
    /// A deposit would push a staking balance past the representable maximum.
    Overflow,
    /// A withdrawal would push a staking balance below zero. Defensive:
    /// the balance comparison that precedes it makes this unreachable.
    Underflow,
    /// A withdrawal asked for more than the staking account holds.
    InsufficientBalance,
    /// The requesting identity is not the recorded owner of the staking account.
    Unauthorized,
    /// A vault for this asset type already occupies the derived address.
    AlreadyInitialized,
    /// No valid bump exists for the requested seeds; fatal, never fallback.
    DerivationFailed,
    /// The named record does not exist at the given address.
    AccountNotFound,
    /// The token-transfer step cannot be performed (source too poor or
    /// destination too full), so the whole invocation aborts.
    TransferFailed,
}

} // verus!
