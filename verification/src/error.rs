use vstd::prelude::*;

verus! {

/// Every way a call into the contract can fail. Each call either runs to
/// completion or aborts with exactly one of these; nothing is partially
/// applied.
#[derive(Clone, Copy, Debug, PartialEq, Eq, Structural)]
pub enum ContractError {
    /// An address argument did not pass the host's identity validation.
    InvalidIdentity {},
    /// The attached funds were not exactly one coin of positive amount.
    InvalidPayment {},
    /// The contract's custodial balance cannot cover the requested amount.
    InsufficientReserve {},
    /// The caller is not the configured owner.
    Unauthorized {},
    /// A withdrawal of zero amount.
    NoFunds {},
    /// A session for this (host, opponent) pair already exists.
    AlreadyStarted {},
    /// No session exists for this (host, opponent) pair.
    GameNotFound {},
    /// The session exists but has not been resolved yet.
    GameNotFinished {},
    /// The responder is not the stored opponent of the session.
    UnauthorizedOpponent {},
}

} // verus!
