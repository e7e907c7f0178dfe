use academy_guards::{
    assert_not_reentrant, guard_admin_operation, guard_admin_state_change, guard_deposit,
    guard_dispute, guard_fee_config, guard_hook_registration, guard_operator_operation,
    guard_withdraw, require_admin, require_any_role, require_feature_not_paused,
    require_initialized, require_not_emergency_mode, require_not_paused, require_not_paused_any,
    require_role, AccountId, ContractState, PauseFlag, Role, RustAcademyError,
};

fn account(byte: u8) -> AccountId {
    AccountId { key: vec![byte; 32] }
}

fn uninitialized() -> ContractState {
    ContractState {
        admin: None,
        operators: Vec::new(),
        emergency_mode: false,
        paused: false,
        paused_features: 0,
        reentrancy_locked: false,
    }
}

fn initialized(admin: &AccountId) -> ContractState {
    ContractState { admin: Some(admin.clone()), ..uninitialized() }
}

type Guard = fn(&ContractState, &AccountId) -> Result<(), RustAcademyError>;

fn check_uninitialized(cases: &[(&str, Guard)]) {
    let state = uninitialized();
    let caller = account(1);
    for (name, guard) in cases {
        println!("Testing guard coverage for: {}", name);
        let result = guard(&state, &caller);
        assert!(
            matches!(result, Err(e) if e == RustAcademyError::Unauthorized),
            "{} should fail with {:?} when uninitialized",
            name,
            RustAcademyError::Unauthorized
        );
    }
}

#[test]
fn test_guard_coverage_admin_operations() {
    check_uninitialized(&[
        ("set_paused", guard_admin_state_change),
        ("set_admin", guard_admin_state_change),
        ("pause_features", guard_admin_state_change),
        ("set_fee_config", guard_fee_config),
        ("set_platform_wallet", guard_admin_operation),
    ]);
}

#[test]
fn test_guard_coverage_dispute_operations() {
    let admin = account(7);
    for name in ["dispute", "resolve_dispute"] {
        println!("Testing guard coverage for: {}", name);
        let mut state = initialized(&admin);
        state.paused = true;
        let result = guard_dispute(&state);
        assert!(
            matches!(result, Err(e) if e == RustAcademyError::ContractPaused),
            "{} should fail with {:?} when paused",
            name,
            RustAcademyError::ContractPaused
        );
    }
}

#[test]
fn test_guard_coverage_hook_operations() {
    check_uninitialized(&[
        ("register_hook", |s, _| guard_hook_registration(s)),
        ("unregister_hook", |s, _| guard_hook_registration(s)),
    ]);
}

#[test]
fn test_guard_coverage_privacy_operations() {
    check_uninitialized(&[("set_privacy", |s, _| require_initialized(s))]);
}

#[test]
fn test_guard_coverage_maintenance_operations() {
    check_uninitialized(&[
        ("cleanup_escrow", |s, _| require_initialized(s)),
        ("extend_escrow_ttl", |s, _| require_initialized(s)),
    ]);
}

#[test]
fn deposit_guard_blocks_when_paused_or_in_emergency() {
    let admin = account(7);
    for name in ["deposit", "deposit_with_commitment", "deposit_partial", "partial_payment"] {
        let mut paused = initialized(&admin);
        paused.paused = true;
        assert_eq!(
            guard_deposit(&paused, PauseFlag::Deposit),
            Err(RustAcademyError::ContractPaused),
            "{} when paused",
            name
        );
        let mut emergency = initialized(&admin);
        emergency.emergency_mode = true;
        assert_eq!(
            guard_deposit(&emergency, PauseFlag::Deposit),
            Err(RustAcademyError::ContractPaused),
            "{} in emergency mode",
            name
        );
    }
}

#[test]
fn withdrawal_guard_blocks_when_paused_but_not_in_emergency() {
    let admin = account(7);
    for name in ["withdraw", "refund"] {
        let mut paused = initialized(&admin);
        paused.paused = true;
        assert_eq!(
            guard_withdraw(&paused, PauseFlag::Withdrawal),
            Err(RustAcademyError::ContractPaused),
            "{} when paused",
            name
        );
        let mut emergency = initialized(&admin);
        emergency.emergency_mode = true;
        assert_eq!(guard_withdraw(&emergency, PauseFlag::Withdrawal), Ok(()), "{}", name);
    }
}

#[test]
fn single_guards_on_a_clear_state() {
    let admin = account(7);
    let state = initialized(&admin);
    assert_eq!(require_initialized(&state), Ok(()));
    assert_eq!(require_not_emergency_mode(&state), Ok(()));
    assert_eq!(require_not_paused(&state), Ok(()));
    assert_eq!(require_feature_not_paused(&state, PauseFlag::Deposit), Ok(()));
    assert_eq!(require_not_paused_any(&state, PauseFlag::Withdrawal), Ok(()));
    assert_eq!(assert_not_reentrant(&state), Ok(()));
    assert_eq!(require_admin(&state, &admin), Ok(()));
    assert_eq!(require_role(&state, &admin, Role::Admin), Ok(()));
}

#[test]
fn each_error_has_an_input_that_gives_it() {
    let admin = account(7);
    let stranger = account(9);
    assert_eq!(require_initialized(&uninitialized()), Err(RustAcademyError::Unauthorized));

    let mut s = initialized(&admin);
    s.emergency_mode = true;
    assert_eq!(require_not_emergency_mode(&s), Err(RustAcademyError::ContractPaused));

    let mut s = initialized(&admin);
    s.paused = true;
    assert_eq!(require_not_paused(&s), Err(RustAcademyError::ContractPaused));

    let mut s = initialized(&admin);
    s.paused_features = 1;
    assert_eq!(
        require_feature_not_paused(&s, PauseFlag::Deposit),
        Err(RustAcademyError::OperationPaused)
    );

    let mut s = initialized(&admin);
    s.reentrancy_locked = true;
    assert_eq!(assert_not_reentrant(&s), Err(RustAcademyError::ReentrancyDetected));

    let s = initialized(&admin);
    assert_eq!(require_admin(&s, &stranger), Err(RustAcademyError::InsufficientRole));
}

#[test]
fn feature_bits_are_independent() {
    assert_eq!(PauseFlag::Deposit.bit(), 1);
    assert_eq!(PauseFlag::Withdrawal.bit(), 2);
    let admin = account(7);
    let mut s = initialized(&admin);
    s.paused_features = 1;
    assert_eq!(guard_deposit(&s, PauseFlag::Deposit), Err(RustAcademyError::OperationPaused));
    assert_eq!(guard_withdraw(&s, PauseFlag::Withdrawal), Ok(()));
    assert_eq!(guard_withdraw(&s, PauseFlag::Deposit), Err(RustAcademyError::OperationPaused));
    s.paused_features = 2;
    assert_eq!(guard_deposit(&s, PauseFlag::Deposit), Ok(()));
    assert_eq!(guard_withdraw(&s, PauseFlag::Withdrawal), Err(RustAcademyError::OperationPaused));
    s.paused_features = 0xffff_fffc;
    assert!(s.is_feature_paused(PauseFlag::Deposit) == false);
    assert!(s.is_feature_paused(PauseFlag::Withdrawal) == false);
}

#[test]
fn composite_guards_answer_with_the_first_failing_check() {
    let admin = account(7);
    let mut s = initialized(&admin);
    s.emergency_mode = true;
    s.paused = true;
    s.paused_features = 3;
    s.reentrancy_locked = true;
    assert_eq!(guard_deposit(&s, PauseFlag::Deposit), Err(RustAcademyError::ContractPaused));
    s.emergency_mode = false;
    s.paused = false;
    assert_eq!(guard_deposit(&s, PauseFlag::Deposit), Err(RustAcademyError::OperationPaused));
    s.paused_features = 0;
    assert_eq!(guard_deposit(&s, PauseFlag::Deposit), Err(RustAcademyError::ReentrancyDetected));

    let mut u = uninitialized();
    u.reentrancy_locked = true;
    assert_eq!(guard_fee_config(&u, &admin), Err(RustAcademyError::ReentrancyDetected));
    assert_eq!(guard_hook_registration(&u), Err(RustAcademyError::Unauthorized));
    u.emergency_mode = true;
    assert_eq!(guard_admin_operation(&u, &admin), Err(RustAcademyError::ContractPaused));
    assert_eq!(guard_dispute(&u), Err(RustAcademyError::ReentrancyDetected));
}

#[test]
fn roles_admit_admins_and_operators() {
    let admin = account(7);
    let operator = account(8);
    let stranger = account(9);
    let mut s = initialized(&admin);
    s.operators.push(operator.clone());

    assert_eq!(guard_admin_operation(&s, &admin), Ok(()));
    assert_eq!(guard_operator_operation(&s, &admin), Ok(()));
    assert_eq!(guard_fee_config(&s, &admin), Ok(()));
    assert_eq!(guard_admin_state_change(&s, &admin), Ok(()));

    assert_eq!(guard_admin_operation(&s, &operator), Err(RustAcademyError::InsufficientRole));
    assert_eq!(guard_admin_state_change(&s, &operator), Err(RustAcademyError::InsufficientRole));
    assert_eq!(guard_operator_operation(&s, &operator), Ok(()));
    assert_eq!(guard_fee_config(&s, &operator), Ok(()));
    assert_eq!(require_role(&s, &operator, Role::Operator), Ok(()));

    assert_eq!(guard_operator_operation(&s, &stranger), Err(RustAcademyError::InsufficientRole));
    assert_eq!(guard_fee_config(&s, &stranger), Err(RustAcademyError::InsufficientRole));
    assert_eq!(require_any_role(&s, &admin, &[]), Err(RustAcademyError::InsufficientRole));
    assert_eq!(
        require_any_role(&s, &operator, &[Role::Admin, Role::Operator]),
        Ok(())
    );

    let mut u = uninitialized();
    u.operators.push(operator.clone());
    assert_eq!(guard_fee_config(&u, &operator), Err(RustAcademyError::Unauthorized));
    assert_eq!(require_role(&u, &operator, Role::Operator), Err(RustAcademyError::Unauthorized));
}

#[test]
fn emergency_mode_blocks_administration_but_not_withdrawal() {
    let admin = account(7);
    let mut s = initialized(&admin);
    s.emergency_mode = true;
    assert_eq!(guard_admin_operation(&s, &admin), Err(RustAcademyError::ContractPaused));
    assert_eq!(guard_operator_operation(&s, &admin), Err(RustAcademyError::ContractPaused));
    assert_eq!(guard_admin_state_change(&s, &admin), Err(RustAcademyError::ContractPaused));
    assert_eq!(guard_withdraw(&s, PauseFlag::Withdrawal), Ok(()));
    assert_eq!(guard_dispute(&s), Ok(()));
    assert_eq!(guard_hook_registration(&s), Ok(()));
    assert_eq!(guard_fee_config(&s, &admin), Ok(()));
}

#[test]
fn account_identity_compares_every_byte() {
    let a = AccountId { key: vec![1, 2, 3] };
    assert!(a.is_same(&AccountId { key: vec![1, 2, 3] }));
    assert!(!a.is_same(&AccountId { key: vec![1, 2, 4] }));
    assert!(!a.is_same(&AccountId { key: vec![1, 2] }));
    assert!(AccountId { key: vec![] }.is_same(&AccountId { key: vec![] }));
    let s = initialized(&a);
    assert!(s.has_role(&AccountId { key: vec![1, 2, 3] }, Role::Admin));
    assert!(!s.has_role(&AccountId { key: vec![1, 2, 3] }, Role::Operator));
    assert!(s.has_any_role(&a, &[Role::Operator, Role::Admin]));
    assert!(s.is_initialized());
    assert!(!uninitialized().is_initialized());
}
