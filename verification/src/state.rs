use vstd::prelude::*;

verus! {

/// Identity of an account or contract, as the bytes of its address key.
#[derive(Debug, Clone)]
pub struct AccountId {
    pub key: Vec<u8>,
}

impl View for AccountId {
    type V = Seq<u8>;

    open spec fn view(&self) -> Seq<u8> {
        self.key@
    }
}

impl AccountId {
    /// Whether two identities name the same account.
    pub fn is_same(&self, other: &AccountId) -> (same: bool)
        ensures
            same == (self@ == other@),
    {
        let n: usize = self.key.len();
        if n != other.key.len() {
            return false;
        }
        let mut i: usize = 0;
        while i < n
            invariant
                n == self.key.len(),
                n == other.key.len(),
                i <= n,
                forall|j: int| 0 <= j < i ==> self.key@[j] == other.key@[j],
            decreases n - i,
        {
            if self.key[i] != other.key[i] {
                assert(self@[i as int] != other@[i as int]);
                return false;
            }
            i = i + 1;
        }
        assert(self.key@ =~= other.key@);
        true
    }
}

/// Roles a caller can hold.
#[derive(Debug, Clone, Copy, PartialEq, Eq, Structural)]
pub enum Role {
    Admin,
    Operator,
}

/// Features that can be paused one by one through the pause bit mask.
#[derive(Debug, Clone, Copy, PartialEq, Eq, Structural)]
pub enum PauseFlag {
    Deposit,
    Withdrawal,
}

/// The bit that a pause flag occupies in the pause mask.
pub open spec fn flag_bit(flag: PauseFlag) -> u32 {
    match flag {
        PauseFlag::Deposit => 1u32,
        PauseFlag::Withdrawal => 2u32,
    }
}

/// Whether `flag` is set in the pause mask `mask`.
pub open spec fn flag_set(mask: u32, flag: PauseFlag) -> bool {
    mask & flag_bit(flag) != 0
}

impl PauseFlag {
    /// The bit of this flag in the pause mask.
    pub fn bit(&self) -> (b: u32)
        ensures
            b == flag_bit(*self),
            *self == PauseFlag::Deposit ==> b == 1u32,
            *self == PauseFlag::Withdrawal ==> b == 2u32,
    {
        match self {
            PauseFlag::Deposit => 1u32,
            PauseFlag::Withdrawal => 2u32,
        }
    }
}

/// What the guards read of the contract's stored control state.
///
/// The contract counts as initialized exactly when an admin is recorded.
#[derive(Debug, Clone)]
pub struct ContractState {
    /// The admin, once the contract has been initialized.
    pub admin: Option<AccountId>,
    /// Accounts that hold the operator role.
    pub operators: Vec<AccountId>,
    /// Whether emergency mode is active.
    pub emergency_mode: bool,
    /// The global pause switch.
    pub paused: bool,
    /// Bit mask of individually paused features.
    pub paused_features: u32,
    /// Set while hooks run, to refuse reentrant calls.
    pub reentrancy_locked: bool,
}

impl ContractState {
    /// The contract has been initialized.
    pub open spec fn initialized(&self) -> bool {
        self.admin is Some
    }

    /// `caller` holds `role` in this state.
    pub open spec fn holds_role(&self, caller: Seq<u8>, role: Role) -> bool {
        match role {
            Role::Admin => self.admin matches Some(a) && a@ == caller,
            Role::Operator => exists|i: int|
                0 <= i < self.operators@.len() && #[trigger] self.operators@[i]@ == caller,
        }
    }

    /// `caller` holds at least one of `roles`.
    pub open spec fn holds_any_role(&self, caller: Seq<u8>, roles: Seq<Role>) -> bool {
        exists|i: int| 0 <= i < roles.len() && self.holds_role(caller, #[trigger] roles[i])
    }

    pub fn is_initialized(&self) -> (b: bool)
        ensures
            b == self.initialized(),
            b == (self.admin is Some),
    {
        self.admin.is_some()
    }

    pub fn is_emergency_mode(&self) -> (b: bool)
        ensures
            b == self.emergency_mode,
    {
        self.emergency_mode
    }

    pub fn is_paused(&self) -> (b: bool)
        ensures
            b == self.paused,
    {
        self.paused
    }

    pub fn is_feature_paused(&self, flag: PauseFlag) -> (b: bool)
        ensures
            b == flag_set(self.paused_features, flag),
            flag == PauseFlag::Deposit ==> (b <==> self.paused_features & 1u32 != 0),
            flag == PauseFlag::Withdrawal ==> (b <==> self.paused_features & 2u32 != 0),
    {
        (self.paused_features & flag.bit()) != 0
    }

    pub fn is_reentrant(&self) -> (b: bool)
        ensures
            b == self.reentrancy_locked,
    {
        self.reentrancy_locked
    }

    /// Whether `caller` holds `role`.
    pub fn has_role(&self, caller: &AccountId, role: Role) -> (b: bool)
        ensures
            b == self.holds_role(caller@, role),
            role == Role::Admin ==> (b <==> (self.admin matches Some(a) && a@ == caller@)),
            role == Role::Operator ==> (b <==> exists|i: int|
                0 <= i < self.operators@.len() && #[trigger] self.operators@[i]@ == caller@),
    {
        match role {
            Role::Admin => match &self.admin {
                Some(a) => a.is_same(caller),
                None => false,
            },
            Role::Operator => {
                let n: usize = self.operators.len();
                let mut i: usize = 0;
                while i < n
                    invariant
                        role == Role::Operator,
                        n == self.operators@.len(),
                        i <= n,
                        forall|j: int| 0 <= j < i ==> self.operators@[j]@ != caller@,
                    decreases n - i,
                {
                    if self.operators[i].is_same(caller) {
                        assert(self.operators@[i as int]@ == caller@);
                        return true;
                    }
                    i = i + 1;
                }
                false
            },
        }
    }

    /// Whether `caller` holds at least one of `roles`.
    pub fn has_any_role(&self, caller: &AccountId, roles: &[Role]) -> (b: bool)
        ensures
            b == self.holds_any_role(caller@, roles@),
            b <==> exists|i: int|
                0 <= i < roles@.len() && ((roles@[i] == Role::Admin && (self.admin matches Some(
                    a,
                ) && a@ == caller@)) || (roles@[i] == Role::Operator && exists|j: int|
                    0 <= j < self.operators@.len() && #[trigger] self.operators@[j]@ == caller@)),
    {
        let n: usize = roles.len();
        let mut i: usize = 0;
        while i < n
            invariant
                n == roles@.len(),
                i <= n,
                forall|j: int| 0 <= j < i ==> !self.holds_role(caller@, #[trigger] roles@[j]),
            decreases n - i,
        {
            if self.has_role(caller, roles[i]) {
                assert(self.holds_role(caller@, roles@[i as int]));
                return true;
            }
            i = i + 1;
        }
        false
    }
}

} // verus!
