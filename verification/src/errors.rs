use vstd::prelude::*;

verus! {

/// Errors answered by the guards.
#[derive(Debug, Clone, Copy, PartialEq, Eq, Structural)]
pub enum RustAcademyError {
    /// The contract has not been initialized (no admin is recorded).
    Unauthorized,
    /// The contract is globally paused, or emergency mode is active.
    ContractPaused,
    /// A single feature is paused through the pause-flag bit mask.
    OperationPaused,
    /// A reentrancy lock is held while hooks run.
    ReentrancyDetected,
    /// The caller holds none of the roles the operation asks for.
    InsufficientRole,
}

} // verus!
