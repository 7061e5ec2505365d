use vstd::prelude::*;

verus! {

/// Why a staking operation was rejected. Every error is terminal for the
/// single call that raised it: the call aborts with no observable mutation
/// and the error is surfaced verbatim to the caller.
#[derive(Clone, Copy, Debug, PartialEq, Eq, Structural)]
pub enum ErrorCode {
    /// A checked addition or multiplication would exceed the counter's range.
    Overflow,
    /// A checked subtraction would take a counter below zero.
    Underflow,
    /// The requested lock period is below the configured minimum.
    InvalidLockPeriod,
    /// The position's lock period has not yet elapsed.
    LockPeriodNotElapsed,
    /// The caller is not the position owner, or not the administrator.
    Unauthorized,
    /// No open position matches the given key.
    RecordNotFound,
    /// A position with the same (owner, asset class, seed) already exists.
    DuplicatePosition,
    /// The configuration was already created by an earlier call.
    AlreadyInitialized,
    /// The external ledger collaborator reported failure; not interpreted.
    CustodyFailure,
}

} // verus!
