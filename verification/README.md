# academy_guards

Authorization guards for the escrow contract's mutating entry points,
verified with Verus.

- `src/state.rs` — the control state the guards read (`ContractState`),
  account identities, roles and pause flags.
- `src/guards.rs` — the single and composite guards, each specified by an
  `*_outcome` spec function.
- `src/laws.rs` — properties of the guards as a whole (emergency mode never
  blocks withdrawals, pauses and reentrancy locks block what they should,
  what each guard admits, admin access implies operator access).
- `app/lib.rs` — host-side glue for Soroban: `require_auth` and the
  conversion of a host `Address` into an `AccountId`.
