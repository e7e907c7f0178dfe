//! Authorization guards for the escrow contract's mutating entry points.
//!
//! Every guard reads a snapshot of the contract's control state
//! ([`ContractState`]) and decides whether an operation may proceed,
//! answering with the first check that fails.

pub mod errors;
pub mod state;
pub mod guards;
pub mod laws;

pub use errors::RustAcademyError;
pub use state::{AccountId, ContractState, PauseFlag, Role};
pub use guards::{
    assert_not_reentrant, guard_admin_operation, guard_admin_state_change, guard_deposit,
    guard_dispute, guard_fee_config, guard_hook_registration, guard_operator_operation,
    guard_withdraw, require_admin, require_any_role, require_feature_not_paused,
    require_initialized, require_not_emergency_mode, require_not_paused, require_not_paused_any,
    require_role,
};
