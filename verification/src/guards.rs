//! The guards themselves.
//!
//! Each guard is specified by an `*_outcome` spec function: a single check
//! fails with its own error, and a composite guard answers with the error of
//! the first of its checks that fails, in the documented order.

use vstd::prelude::*;
use crate::errors::RustAcademyError;
use crate::state::{flag_set, AccountId, ContractState, PauseFlag, Role};

verus! {

/// `Err(e)` when `fails`, `Ok(())` otherwise.
pub open spec fn check(fails: bool, e: RustAcademyError) -> Result<(), RustAcademyError> {
    if fails {
        Err(e)
    } else {
        Ok(())
    }
}

/// The outcome of running `first`, then `second` only if `first` passed.
pub open spec fn first_failure(
    first: Result<(), RustAcademyError>,
    second: Result<(), RustAcademyError>,
) -> Result<(), RustAcademyError> {
    match first {
        Err(e) => Err(e),
        Ok(_) => second,
    }
}

// ---------------------------------------------------------------------------
// Single checks
// ---------------------------------------------------------------------------

pub open spec fn initialized_outcome(s: ContractState) -> Result<(), RustAcademyError> {
    check(!s.initialized(), RustAcademyError::Unauthorized)
}

pub open spec fn emergency_outcome(s: ContractState) -> Result<(), RustAcademyError> {
    check(s.emergency_mode, RustAcademyError::ContractPaused)
}

pub open spec fn pause_outcome(s: ContractState) -> Result<(), RustAcademyError> {
    check(s.paused, RustAcademyError::ContractPaused)
}

pub open spec fn feature_outcome(s: ContractState, flag: PauseFlag) -> Result<(), RustAcademyError> {
    check(flag_set(s.paused_features, flag), RustAcademyError::OperationPaused)
}

pub open spec fn pause_any_outcome(s: ContractState, flag: PauseFlag) -> Result<(), RustAcademyError> {
    first_failure(pause_outcome(s), feature_outcome(s, flag))
}

pub open spec fn reentrancy_outcome(s: ContractState) -> Result<(), RustAcademyError> {
    check(s.reentrancy_locked, RustAcademyError::ReentrancyDetected)
}

/// An uninitialized contract refuses every role check with `Unauthorized`;
/// an initialized one asks that the caller hold one of `roles`.
pub open spec fn roles_outcome(s: ContractState, caller: Seq<u8>, roles: Seq<Role>) -> Result<
    (),
    RustAcademyError,
> {
    first_failure(
        initialized_outcome(s),
        check(!s.holds_any_role(caller, roles), RustAcademyError::InsufficientRole),
    )
}

pub open spec fn admin_outcome(s: ContractState, caller: Seq<u8>) -> Result<(), RustAcademyError> {
    roles_outcome(s, caller, seq![Role::Admin])
}

/// The roles that operator-level operations accept.
pub open spec fn operator_roles() -> Seq<Role> {
    seq![Role::Admin, Role::Operator]
}

// ---------------------------------------------------------------------------
// Composite checks
// ---------------------------------------------------------------------------

pub open spec fn deposit_outcome(s: ContractState, flag: PauseFlag) -> Result<(), RustAcademyError> {
    first_failure(
        emergency_outcome(s),
        first_failure(pause_any_outcome(s, flag), reentrancy_outcome(s)),
    )
}

pub open spec fn withdraw_outcome(s: ContractState, flag: PauseFlag) -> Result<(), RustAcademyError> {
    first_failure(pause_any_outcome(s, flag), reentrancy_outcome(s))
}

pub open spec fn admin_operation_outcome(s: ContractState, caller: Seq<u8>) -> Result<
    (),
    RustAcademyError,
> {
    first_failure(
        emergency_outcome(s),
        first_failure(initialized_outcome(s), admin_outcome(s, caller)),
    )
}

pub open spec fn operator_operation_outcome(s: ContractState, caller: Seq<u8>) -> Result<
    (),
    RustAcademyError,
> {
    first_failure(
        emergency_outcome(s),
        first_failure(initialized_outcome(s), roles_outcome(s, caller, operator_roles())),
    )
}

pub open spec fn admin_state_change_outcome(s: ContractState, caller: Seq<u8>) -> Result<
    (),
    RustAcademyError,
> {
    first_failure(emergency_outcome(s), admin_outcome(s, caller))
}

pub open spec fn dispute_outcome(s: ContractState) -> Result<(), RustAcademyError> {
    first_failure(pause_outcome(s), reentrancy_outcome(s))
}

pub open spec fn hook_registration_outcome(s: ContractState) -> Result<(), RustAcademyError> {
    first_failure(initialized_outcome(s), reentrancy_outcome(s))
}

pub open spec fn fee_config_outcome(s: ContractState, caller: Seq<u8>) -> Result<
    (),
    RustAcademyError,
> {
    first_failure(reentrancy_outcome(s), roles_outcome(s, caller, operator_roles()))
}

// ---------------------------------------------------------------------------
// Initialization guards
// ---------------------------------------------------------------------------

/// Require that the contract has been initialized.
///
/// Returns `Unauthorized` if the contract has not been initialized.
pub fn require_initialized(state: &ContractState) -> (r: Result<(), RustAcademyError>)
    ensures
        r == initialized_outcome(*state),
{
    if state.is_initialized() {
        Ok(())
    } else {
        Err(RustAcademyError::Unauthorized)
    }
}

// ---------------------------------------------------------------------------
// Emergency mode guards
// ---------------------------------------------------------------------------

/// Require that emergency mode is NOT active.
///
/// Returns `ContractPaused` if emergency mode is active.
pub fn require_not_emergency_mode(state: &ContractState) -> (r: Result<(), RustAcademyError>)
    ensures
        r == emergency_outcome(*state),
{
    if state.is_emergency_mode() {
        return Err(RustAcademyError::ContractPaused);
    }
    Ok(())
}

// ---------------------------------------------------------------------------
// Pause guards
// ---------------------------------------------------------------------------

/// Require that the contract is NOT globally paused.
///
/// Returns `ContractPaused` if the contract is paused.
pub fn require_not_paused(state: &ContractState) -> (r: Result<(), RustAcademyError>)
    ensures
        r == pause_outcome(*state),
{
    if state.is_paused() {
        return Err(RustAcademyError::ContractPaused);
    }
    Ok(())
}

/// Require that a specific feature is NOT paused.
///
/// Returns `OperationPaused` if the feature's bit is set in the pause mask.
pub fn require_feature_not_paused(state: &ContractState, flag: PauseFlag) -> (r: Result<
    (),
    RustAcademyError,
>)
    ensures
        r == feature_outcome(*state, flag),
{
    if state.is_feature_paused(flag) {
        return Err(RustAcademyError::OperationPaused);
    }
    Ok(())
}

/// Require that both the global pause and the feature pause are off.
pub fn require_not_paused_any(state: &ContractState, flag: PauseFlag) -> (r: Result<
    (),
    RustAcademyError,
>)
    ensures
        r == pause_any_outcome(*state, flag),
{
    if let Err(e) = require_not_paused(state) {
        return Err(e);
    }
    require_feature_not_paused(state, flag)
}

// ---------------------------------------------------------------------------
// Reentrancy guards
// ---------------------------------------------------------------------------

/// Require that the call is not reentrant.
///
/// Returns `ReentrancyDetected` if the reentrancy lock is held.
pub fn assert_not_reentrant(state: &ContractState) -> (r: Result<(), RustAcademyError>)
    ensures
        r == reentrancy_outcome(*state),
{
    if state.is_reentrant() {
        return Err(RustAcademyError::ReentrancyDetected);
    }
    Ok(())
}

// ---------------------------------------------------------------------------
// Role guards
// ---------------------------------------------------------------------------

/// Require that the caller has at least one of the given roles.
///
/// Returns `Unauthorized` if the contract is not initialized, and
/// `InsufficientRole` if the caller lacks all of the roles.
pub fn require_any_role(state: &ContractState, caller: &AccountId, roles: &[Role]) -> (r: Result<
    (),
    RustAcademyError,
>)
    ensures
        r == roles_outcome(*state, caller@, roles@),
{
    if !state.is_initialized() {
        return Err(RustAcademyError::Unauthorized);
    }
    if state.has_any_role(caller, roles) {
        Ok(())
    } else {
        Err(RustAcademyError::InsufficientRole)
    }
}

/// Require that the caller has a specific role.
///
/// Returns `InsufficientRole` if the caller lacks the role.
pub fn require_role(state: &ContractState, caller: &AccountId, role: Role) -> (r: Result<
    (),
    RustAcademyError,
>)
    ensures
        r == roles_outcome(*state, caller@, seq![role]),
{
    let roles = [role];
    assert(roles@ =~= seq![role]);
    require_any_role(state, caller, &roles)
}

/// Require that the caller is the admin.
///
/// Returns `InsufficientRole` if the caller is not the admin.
pub fn require_admin(state: &ContractState, caller: &AccountId) -> (r: Result<
    (),
    RustAcademyError,
>)
    ensures
        r == admin_outcome(*state, caller@),
{
    require_role(state, caller, Role::Admin)
}

// ---------------------------------------------------------------------------
// Composite guards
// ---------------------------------------------------------------------------

/// Standard guard for user-initiated deposit operations.
///
/// Checks: emergency mode, global pause, feature pause, reentrancy.
pub fn guard_deposit(state: &ContractState, flag: PauseFlag) -> (r: Result<(), RustAcademyError>)
    ensures
        r == deposit_outcome(*state, flag),
{
    if let Err(e) = require_not_emergency_mode(state) {
        return Err(e);
    }
    if let Err(e) = require_not_paused_any(state, flag) {
        return Err(e);
    }
    if let Err(e) = assert_not_reentrant(state) {
        return Err(e);
    }
    Ok(())
}

/// Standard guard for user-initiated withdrawal operations.
///
/// Checks: global pause, feature pause, reentrancy. Emergency mode is not
/// checked, so that users can always recover their funds.
pub fn guard_withdraw(state: &ContractState, flag: PauseFlag) -> (r: Result<(), RustAcademyError>)
    ensures
        r == withdraw_outcome(*state, flag),
{
    if let Err(e) = require_not_paused_any(state, flag) {
        return Err(e);
    }
    if let Err(e) = assert_not_reentrant(state) {
        return Err(e);
    }
    Ok(())
}

/// Standard guard for admin operations.
///
/// Checks: emergency mode, initialization, admin role.
pub fn guard_admin_operation(state: &ContractState, caller: &AccountId) -> (r: Result<
    (),
    RustAcademyError,
>)
    ensures
        r == admin_operation_outcome(*state, caller@),
{
    if let Err(e) = require_not_emergency_mode(state) {
        return Err(e);
    }
    if let Err(e) = require_initialized(state) {
        return Err(e);
    }
    if let Err(e) = require_admin(state, caller) {
        return Err(e);
    }
    Ok(())
}

/// Standard guard for operator operations.
///
/// Checks: emergency mode, initialization, admin or operator role.
pub fn guard_operator_operation(state: &ContractState, caller: &AccountId) -> (r: Result<
    (),
    RustAcademyError,
>)
    ensures
        r == operator_operation_outcome(*state, caller@),
{
    if let Err(e) = require_not_emergency_mode(state) {
        return Err(e);
    }
    if let Err(e) = require_initialized(state) {
        return Err(e);
    }
    let roles = [Role::Admin, Role::Operator];
    assert(roles@ =~= operator_roles());
    if let Err(e) = require_any_role(state, caller, &roles) {
        return Err(e);
    }
    Ok(())
}

/// Standard guard for administrative state changes (pause, admin transfer, ...).
///
/// Checks: emergency mode, admin role.
pub fn guard_admin_state_change(state: &ContractState, caller: &AccountId) -> (r: Result<
    (),
    RustAcademyError,
>)
    ensures
        r == admin_state_change_outcome(*state, caller@),
{
    if let Err(e) = require_not_emergency_mode(state) {
        return Err(e);
    }
    if let Err(e) = require_admin(state, caller) {
        return Err(e);
    }
    Ok(())
}

/// Standard guard for dispute operations.
///
/// Checks: global pause, reentrancy.
pub fn guard_dispute(state: &ContractState) -> (r: Result<(), RustAcademyError>)
    ensures
        r == dispute_outcome(*state),
{
    if let Err(e) = require_not_paused(state) {
        return Err(e);
    }
    if let Err(e) = assert_not_reentrant(state) {
        return Err(e);
    }
    Ok(())
}

/// Standard guard for hook registration.
///
/// Checks: initialization, reentrancy.
pub fn guard_hook_registration(state: &ContractState) -> (r: Result<(), RustAcademyError>)
    ensures
        r == hook_registration_outcome(*state),
{
    if let Err(e) = require_initialized(state) {
        return Err(e);
    }
    if let Err(e) = assert_not_reentrant(state) {
        return Err(e);
    }
    Ok(())
}

/// Standard guard for fee configuration changes.
///
/// Checks: reentrancy, admin or operator role.
pub fn guard_fee_config(state: &ContractState, caller: &AccountId) -> (r: Result<
    (),
    RustAcademyError,
>)
    ensures
        r == fee_config_outcome(*state, caller@),
{
    if let Err(e) = assert_not_reentrant(state) {
        return Err(e);
    }
    let roles = [Role::Admin, Role::Operator];
    assert(roles@ =~= operator_roles());
    if let Err(e) = require_any_role(state, caller, &roles) {
        return Err(e);
    }
    Ok(())
}

} // verus!
