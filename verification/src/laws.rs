//! Properties of the guards as a whole, proved over their outcomes.

use vstd::prelude::*;
use crate::errors::RustAcademyError;
use crate::guards::{
    admin_operation_outcome, admin_outcome, admin_state_change_outcome, deposit_outcome,
    dispute_outcome, emergency_outcome, fee_config_outcome, feature_outcome,
    hook_registration_outcome, initialized_outcome, operator_operation_outcome, operator_roles,
    pause_any_outcome, pause_outcome, reentrancy_outcome, roles_outcome, withdraw_outcome,
};
use crate::state::{ContractState, PauseFlag, Role};

verus! {

/// Emergency mode does not block withdrawals or refunds: two states that
/// differ at most in the emergency flag get the same withdrawal answer.
pub proof fn withdrawals_ignore_emergency_mode(s: ContractState, emergency: bool, flag: PauseFlag)
    ensures
        withdraw_outcome(s, flag) == withdraw_outcome(
            ContractState { emergency_mode: emergency, ..s },
            flag,
        ),
{
}

/// In emergency mode, deposits and every admin or operator operation are
/// refused with `ContractPaused`.
pub proof fn emergency_mode_blocks_deposits_and_administration(
    s: ContractState,
    flag: PauseFlag,
    caller: Seq<u8>,
)
    requires
        s.emergency_mode,
    ensures
        deposit_outcome(s, flag) == Err::<(), RustAcademyError>(RustAcademyError::ContractPaused),
        admin_operation_outcome(s, caller) == Err::<(), RustAcademyError>(
            RustAcademyError::ContractPaused,
        ),
        operator_operation_outcome(s, caller) == Err::<(), RustAcademyError>(
            RustAcademyError::ContractPaused,
        ),
        admin_state_change_outcome(s, caller) == Err::<(), RustAcademyError>(
            RustAcademyError::ContractPaused,
        ),
{
}

/// A global pause refuses deposits, withdrawals and disputes with
/// `ContractPaused`.
pub proof fn global_pause_blocks_user_operations(s: ContractState, flag: PauseFlag)
    requires
        s.paused,
    ensures
        deposit_outcome(s, flag) == Err::<(), RustAcademyError>(RustAcademyError::ContractPaused),
        withdraw_outcome(s, flag) == Err::<(), RustAcademyError>(RustAcademyError::ContractPaused),
        dispute_outcome(s) == Err::<(), RustAcademyError>(RustAcademyError::ContractPaused),
{
}

/// A paused feature refuses deposits and withdrawals of that feature; when
/// neither emergency mode nor the global pause is on, the answer is
/// `OperationPaused`.
pub proof fn feature_pause_blocks_its_operations(s: ContractState, flag: PauseFlag)
    requires
        (flag == PauseFlag::Deposit && s.paused_features & 1u32 != 0) || (flag
            == PauseFlag::Withdrawal && s.paused_features & 2u32 != 0),
    ensures
        deposit_outcome(s, flag) is Err,
        withdraw_outcome(s, flag) is Err,
        !s.emergency_mode && !s.paused ==> deposit_outcome(s, flag) == Err::<(), RustAcademyError>(
            RustAcademyError::OperationPaused,
        ),
        !s.paused ==> withdraw_outcome(s, flag) == Err::<(), RustAcademyError>(
            RustAcademyError::OperationPaused,
        ),
{
}

/// While the reentrancy lock is held, every guard with a reentrancy check
/// refuses; the fee-configuration guard, which checks it first, answers
/// `ReentrancyDetected`.
pub proof fn reentrancy_lock_blocks_guarded_operations(
    s: ContractState,
    flag: PauseFlag,
    caller: Seq<u8>,
)
    requires
        s.reentrancy_locked,
    ensures
        deposit_outcome(s, flag) is Err,
        withdraw_outcome(s, flag) is Err,
        dispute_outcome(s) is Err,
        hook_registration_outcome(s) is Err,
        fee_config_outcome(s, caller) == Err::<(), RustAcademyError>(
            RustAcademyError::ReentrancyDetected,
        ),
{
}

/// Before initialization, every guard that checks initialization or a role
/// refuses; when emergency mode is off and no reentrancy lock is held the
/// answer is `Unauthorized`.
pub proof fn uninitialized_contract_refuses_privileged_operations(
    s: ContractState,
    caller: Seq<u8>,
    roles: Seq<Role>,
)
    requires
        s.admin is None,
    ensures
        initialized_outcome(s) == Err::<(), RustAcademyError>(RustAcademyError::Unauthorized),
        roles_outcome(s, caller, roles) == Err::<(), RustAcademyError>(
            RustAcademyError::Unauthorized,
        ),
        admin_operation_outcome(s, caller) is Err,
        operator_operation_outcome(s, caller) is Err,
        admin_state_change_outcome(s, caller) is Err,
        hook_registration_outcome(s) is Err,
        fee_config_outcome(s, caller) is Err,
        !s.emergency_mode ==> {
            &&& admin_operation_outcome(s, caller) == Err::<(), RustAcademyError>(
                RustAcademyError::Unauthorized,
            )
            &&& operator_operation_outcome(s, caller) == Err::<(), RustAcademyError>(
                RustAcademyError::Unauthorized,
            )
            &&& admin_state_change_outcome(s, caller) == Err::<(), RustAcademyError>(
                RustAcademyError::Unauthorized,
            )
        },
        hook_registration_outcome(s) == Err::<(), RustAcademyError>(
            RustAcademyError::Unauthorized,
        ),
        !s.reentrancy_locked ==> fee_config_outcome(s, caller) == Err::<(), RustAcademyError>(
            RustAcademyError::Unauthorized,
        ),
{
}

/// Each composite guard admits exactly the states and callers its
/// documented checks allow.
pub proof fn guards_admit_exactly_their_conditions(
    s: ContractState,
    flag: PauseFlag,
    caller: Seq<u8>,
)
    ensures
        deposit_outcome(s, flag) is Ok <==> !s.emergency_mode && !s.paused && !(
            (flag == PauseFlag::Deposit && s.paused_features & 1u32 != 0) || (flag
                == PauseFlag::Withdrawal && s.paused_features & 2u32 != 0)
        ) && !s.reentrancy_locked,
        withdraw_outcome(s, flag) is Ok <==> !s.paused && !(
            (flag == PauseFlag::Deposit && s.paused_features & 1u32 != 0) || (flag
                == PauseFlag::Withdrawal && s.paused_features & 2u32 != 0)
        ) && !s.reentrancy_locked,
        admin_operation_outcome(s, caller) is Ok <==> !s.emergency_mode && (s.admin matches Some(a)
            && a@ == caller),
        operator_operation_outcome(s, caller) is Ok <==> !s.emergency_mode && s.admin is Some && (
            (s.admin matches Some(a) && a@ == caller) || (exists|j: int|
                0 <= j < s.operators@.len() && #[trigger] s.operators@[j]@ == caller)),
        admin_state_change_outcome(s, caller) is Ok <==> !s.emergency_mode && (s.admin matches Some(
            a,
        ) && a@ == caller),
        dispute_outcome(s) is Ok <==> !s.paused && !s.reentrancy_locked,
        hook_registration_outcome(s) is Ok <==> s.admin is Some && !s.reentrancy_locked,
        fee_config_outcome(s, caller) is Ok <==> !s.reentrancy_locked && s.admin is Some && (
            (s.admin matches Some(a) && a@ == caller) || (exists|j: int|
                0 <= j < s.operators@.len() && #[trigger] s.operators@[j]@ == caller)),
{
    let admin_roles = seq![Role::Admin];
    if s.admin matches Some(a) && a@ == caller {
        assert(admin_roles[0] == Role::Admin);
        assert(operator_roles()[0] == Role::Admin);
    }
    if (exists|j: int|
        0 <= j < s.operators@.len() && #[trigger] s.operators@[j]@ == caller) {
        assert(operator_roles()[1] == Role::Operator);
    }
    if s.holds_any_role(caller, operator_roles()) {
        let i = choose|i: int|
            0 <= i < operator_roles().len() && s.holds_role(caller, #[trigger] operator_roles()[i]);
        assert(operator_roles()[0] == Role::Admin);
        assert(operator_roles()[1] == Role::Operator);
        if i == 0 {
            assert(s.admin matches Some(a) && a@ == caller);
        } else {
            assert(exists|j: int|
                0 <= j < s.operators@.len() && #[trigger] s.operators@[j]@ == caller);
        }
    }
}

/// The admin passes every role check that admits admins or operators.
pub proof fn admin_passes_role_checks(s: ContractState, caller: Seq<u8>)
    requires
        s.admin matches Some(a) && a@ == caller,
    ensures
        admin_outcome(s, caller) is Ok,
        roles_outcome(s, caller, operator_roles()) is Ok,
{
    assert(seq![Role::Admin][0] == Role::Admin);
    assert(operator_roles()[0] == Role::Admin);
}

/// Operator-level access includes admin-level access: whoever passes the
/// admin-operation guard passes the operator-operation guard.
pub proof fn admin_access_implies_operator_access(s: ContractState, caller: Seq<u8>)
    ensures
        admin_operation_outcome(s, caller) is Ok ==> operator_operation_outcome(s, caller) is Ok,
{
    guards_admit_exactly_their_conditions(s, PauseFlag::Deposit, caller);
}

/// The initialization check of the admin-operation guard is implied by its
/// admin check: the guard answers exactly as the admin-state-change guard.
pub proof fn admin_operation_matches_admin_state_change(s: ContractState, caller: Seq<u8>)
    ensures
        admin_operation_outcome(s, caller) == admin_state_change_outcome(s, caller),
{
}

/// Every account stored at any index of the operators list holds the
/// operator role: once an admin is recorded, it passes the operator role
/// check, the operator-operation guard outside emergency mode, and the
/// fee-configuration guard when no reentrancy lock is held.
pub proof fn every_listed_operator_is_admitted(s: ContractState, i: int)
    requires
        0 <= i < s.operators@.len(),
        s.admin is Some,
    ensures
        roles_outcome(s, s.operators@[i]@, seq![Role::Operator]) == Ok::<(), RustAcademyError>(()),
        roles_outcome(s, s.operators@[i]@, seq![Role::Admin, Role::Operator]) == Ok::<
            (),
            RustAcademyError,
        >(()),
        !s.emergency_mode ==> operator_operation_outcome(s, s.operators@[i]@) == Ok::<
            (),
            RustAcademyError,
        >(()),
        !s.reentrancy_locked ==> fee_config_outcome(s, s.operators@[i]@) == Ok::<
            (),
            RustAcademyError,
        >(()),
{
    let c = s.operators@[i]@;
    assert(s.holds_role(c, Role::Operator));
    assert(seq![Role::Operator][0] == Role::Operator);
    assert(seq![Role::Admin, Role::Operator][1] == Role::Operator);
    assert(operator_roles()[1] == Role::Operator);
}

/// A caller that is neither the recorded admin nor in the operators list
/// holds no role: every role check of an initialized contract refuses it
/// with `InsufficientRole`, and so do the role-checking guards once their
/// earlier checks pass.
pub proof fn callers_without_a_role_are_refused(s: ContractState, caller: Seq<u8>, roles: Seq<Role>)
    requires
        s.admin matches Some(a) && a@ != caller,
        forall|j: int| 0 <= j < s.operators@.len() ==> #[trigger] s.operators@[j]@ != caller,
    ensures
        roles_outcome(s, caller, roles) == Err::<(), RustAcademyError>(
            RustAcademyError::InsufficientRole,
        ),
        !s.emergency_mode ==> {
            &&& admin_operation_outcome(s, caller) == Err::<(), RustAcademyError>(
                RustAcademyError::InsufficientRole,
            )
            &&& operator_operation_outcome(s, caller) == Err::<(), RustAcademyError>(
                RustAcademyError::InsufficientRole,
            )
            &&& admin_state_change_outcome(s, caller) == Err::<(), RustAcademyError>(
                RustAcademyError::InsufficientRole,
            )
        },
        !s.reentrancy_locked ==> fee_config_outcome(s, caller) == Err::<(), RustAcademyError>(
            RustAcademyError::InsufficientRole,
        ),
{
    assert forall|k: int| 0 <= k < roles.len() implies !s.holds_role(caller, #[trigger] roles[k]) by {
        match roles[k] {
            Role::Admin => {},
            Role::Operator => {},
        }
    }
    assert forall|k: int|
        0 <= k < operator_roles().len() implies !s.holds_role(
        caller,
        #[trigger] operator_roles()[k],
    ) by {
        match operator_roles()[k] {
            Role::Admin => {},
            Role::Operator => {},
        }
    }
    assert forall|k: int|
        0 <= k < seq![Role::Admin].len() implies !s.holds_role(
        caller,
        #[trigger] seq![Role::Admin][k],
    ) by {}
}

/// For an initialized contract, the any-role check admits the caller exactly
/// when, for some index of the role list, that role is `Admin` and the caller
/// is the recorded admin, or that role is `Operator` and the caller is in the
/// operators list; any other answer is `InsufficientRole`.
pub proof fn any_role_check_admits_exactly_holders_of_a_listed_role(
    s: ContractState,
    caller: Seq<u8>,
    roles: Seq<Role>,
)
    requires
        s.admin is Some,
    ensures
        roles_outcome(s, caller, roles) is Ok <==> exists|i: int|
            0 <= i < roles.len() && ((#[trigger] roles[i] == Role::Admin && s.admin->0@ == caller)
                || (roles[i] == Role::Operator && exists|j: int|
                0 <= j < s.operators@.len() && #[trigger] s.operators@[j]@ == caller)),
        roles_outcome(s, caller, roles) is Err ==> roles_outcome(s, caller, roles) == Err::<
            (),
            RustAcademyError,
        >(RustAcademyError::InsufficientRole),
{
    if s.holds_any_role(caller, roles) {
        let i = choose|i: int| 0 <= i < roles.len() && s.holds_role(caller, #[trigger] roles[i]);
        match roles[i] {
            Role::Admin => {},
            Role::Operator => {},
        }
    }
    if exists|i: int|
        0 <= i < roles.len() && ((#[trigger] roles[i] == Role::Admin && s.admin->0@ == caller)
            || (roles[i] == Role::Operator && exists|j: int|
            0 <= j < s.operators@.len() && #[trigger] s.operators@[j]@ == caller)) {
        let i = choose|i: int|
            0 <= i < roles.len() && ((#[trigger] roles[i] == Role::Admin && s.admin->0@ == caller)
                || (roles[i] == Role::Operator && exists|j: int|
                0 <= j < s.operators@.len() && #[trigger] s.operators@[j]@ == caller));
        assert(s.holds_role(caller, roles[i]));
    }
}

/// The answer of a role check depends only on which roles are listed, not
/// on their order or repetition.
pub proof fn any_role_check_depends_only_on_the_set_of_roles(
    s: ContractState,
    caller: Seq<u8>,
    r1: Seq<Role>,
    r2: Seq<Role>,
)
    requires
        forall|x: Role| r1.contains(x) <==> r2.contains(x),
    ensures
        roles_outcome(s, caller, r1) == roles_outcome(s, caller, r2),
{
    if s.holds_any_role(caller, r1) {
        let i = choose|i: int| 0 <= i < r1.len() && s.holds_role(caller, #[trigger] r1[i]);
        assert(r1.contains(r1[i]));
        assert(r2.contains(r1[i]));
        let j = choose|j: int| 0 <= j < r2.len() && r2[j] == r1[i];
        assert(s.holds_role(caller, r2[j]));
    }
    if s.holds_any_role(caller, r2) {
        let i = choose|i: int| 0 <= i < r2.len() && s.holds_role(caller, #[trigger] r2[i]);
        assert(r2.contains(r2[i]));
        assert(r1.contains(r2[i]));
        let j = choose|j: int| 0 <= j < r1.len() && r1[j] == r2[i];
        assert(s.holds_role(caller, r1[j]));
    }
}

/// A feature counts as paused exactly when its own bit is set in the pause
/// mask (bit 1 for deposits, bit 2 for withdrawals), whatever the other bits.
pub proof fn feature_check_reads_only_its_own_bit(s: ContractState)
    ensures
        feature_outcome(s, PauseFlag::Deposit) == (if s.paused_features & 1u32 != 0 {
            Err::<(), RustAcademyError>(RustAcademyError::OperationPaused)
        } else {
            Ok(())
        }),
        feature_outcome(s, PauseFlag::Withdrawal) == (if s.paused_features & 2u32 != 0 {
            Err::<(), RustAcademyError>(RustAcademyError::OperationPaused)
        } else {
            Ok(())
        }),
{
}

/// The combined pause check refuses with `ContractPaused` under the global
/// pause, otherwise with `OperationPaused` when the flag's own bit is set in
/// the pause mask, and admits otherwise.
pub proof fn combined_pause_check_refuses_global_then_feature_pause(s: ContractState, flag: PauseFlag)
    ensures
        pause_any_outcome(s, flag) == (if s.paused {
            Err::<(), RustAcademyError>(RustAcademyError::ContractPaused)
        } else if (flag == PauseFlag::Deposit && s.paused_features & 1u32 != 0) || (flag
            == PauseFlag::Withdrawal && s.paused_features & 2u32 != 0) {
            Err::<(), RustAcademyError>(RustAcademyError::OperationPaused)
        } else {
            Ok(())
        }),
{
}

/// With the global pause off, a set feature bit refuses that feature's
/// withdrawals (and, outside emergency mode, its deposits) with
/// `OperationPaused`, whatever the other bits of the mask.
pub proof fn paused_feature_bit_refuses_its_guard(s: ContractState)
    requires
        !s.paused,
    ensures
        s.paused_features & 2u32 != 0 ==> withdraw_outcome(s, PauseFlag::Withdrawal) == Err::<
            (),
            RustAcademyError,
        >(RustAcademyError::OperationPaused),
        s.paused_features & 1u32 != 0 ==> withdraw_outcome(s, PauseFlag::Deposit) == Err::<
            (),
            RustAcademyError,
        >(RustAcademyError::OperationPaused),
        !s.emergency_mode && s.paused_features & 1u32 != 0 ==> deposit_outcome(
            s,
            PauseFlag::Deposit,
        ) == Err::<(), RustAcademyError>(RustAcademyError::OperationPaused),
        !s.emergency_mode && s.paused_features & 2u32 != 0 ==> deposit_outcome(
            s,
            PauseFlag::Withdrawal,
        ) == Err::<(), RustAcademyError>(RustAcademyError::OperationPaused),
{
}

/// What a refusal tells about the state: `Unauthorized` only when no admin is
/// recorded, `ReentrancyDetected` only under the reentrancy lock,
/// `ContractPaused` only under the global pause or emergency mode,
/// `OperationPaused` only when the flag's own bit is set, and
/// `InsufficientRole` only when an admin is recorded.
pub open spec fn refusal_has_its_cause(
    s: ContractState,
    flag: PauseFlag,
    r: Result<(), RustAcademyError>,
) -> bool {
    &&& r == Err::<(), RustAcademyError>(RustAcademyError::Unauthorized) ==> s.admin is None
    &&& r == Err::<(), RustAcademyError>(RustAcademyError::ReentrancyDetected)
        ==> s.reentrancy_locked
    &&& r == Err::<(), RustAcademyError>(RustAcademyError::ContractPaused) ==> s.paused
        || s.emergency_mode
    &&& r == Err::<(), RustAcademyError>(RustAcademyError::OperationPaused) ==> (flag
        == PauseFlag::Deposit && s.paused_features & 1u32 != 0) || (flag == PauseFlag::Withdrawal
        && s.paused_features & 2u32 != 0)
    &&& r == Err::<(), RustAcademyError>(RustAcademyError::InsufficientRole) ==> s.admin is Some
}

/// Every guard's refusal is explained by the state: no guard reports an
/// initialized contract as `Unauthorized`, a free lock as
/// `ReentrancyDetected`, and so on.
pub proof fn every_refusal_has_its_cause(
    s: ContractState,
    flag: PauseFlag,
    caller: Seq<u8>,
    roles: Seq<Role>,
)
    ensures
        refusal_has_its_cause(s, flag, initialized_outcome(s)),
        refusal_has_its_cause(s, flag, emergency_outcome(s)),
        refusal_has_its_cause(s, flag, pause_outcome(s)),
        refusal_has_its_cause(s, flag, feature_outcome(s, flag)),
        refusal_has_its_cause(s, flag, pause_any_outcome(s, flag)),
        refusal_has_its_cause(s, flag, reentrancy_outcome(s)),
        refusal_has_its_cause(s, flag, roles_outcome(s, caller, roles)),
        refusal_has_its_cause(s, flag, admin_outcome(s, caller)),
        refusal_has_its_cause(s, flag, deposit_outcome(s, flag)),
        refusal_has_its_cause(s, flag, withdraw_outcome(s, flag)),
        refusal_has_its_cause(s, flag, admin_operation_outcome(s, caller)),
        refusal_has_its_cause(s, flag, operator_operation_outcome(s, caller)),
        refusal_has_its_cause(s, flag, admin_state_change_outcome(s, caller)),
        refusal_has_its_cause(s, flag, dispute_outcome(s)),
        refusal_has_its_cause(s, flag, hook_registration_outcome(s)),
        refusal_has_its_cause(s, flag, fee_config_outcome(s, caller)),
{
}

/// An initialized contract whose reentrancy lock is held refuses hook
/// registration with `ReentrancyDetected`; an uninitialized one refuses it
/// with `Unauthorized`.
pub proof fn hook_registration_reports_the_lock_once_initialized(s: ContractState)
    ensures
        s.admin is Some && s.reentrancy_locked ==> hook_registration_outcome(s) == Err::<
            (),
            RustAcademyError,
        >(RustAcademyError::ReentrancyDetected),
        s.admin is None ==> hook_registration_outcome(s) == Err::<(), RustAcademyError>(
            RustAcademyError::Unauthorized,
        ),
        s.admin is Some && !s.reentrancy_locked ==> hook_registration_outcome(s) == Ok::<
            (),
            RustAcademyError,
        >(()),
{
}

} // verus!
