//! A two-party token escrow: a sender locks tokens in a custody wallet that only the
//! program's derived authority can move; the receiver completes the escrow, or the
//! sender pulls the tokens back.
//!
//! The handlers work on plain-value views of the accounts involved. Each checks its
//! preconditions, applies its effect to those views, and returns the token
//! instructions that carry the effect out on the ledger.

mod address;
mod custody;
mod deposit;
mod grant;
mod laws;
mod release;
mod state;

pub use address::{
    addresses_equal, derivation_is_deterministic, derive_address, escrow_seeds, key_bytes,
    key_opt_view, le_bytes, program_address, seeds_view, u64_to_le_bytes, Key, SeedTag,
};
pub use custody::{
    credited, custody_after, live_balance, transfer_escrow_out, transfer_out_error,
    transfer_out_instructions,
};
pub use deposit::{
    initialize_effect, initialize_error, initialize_new_grant, initialize_with, Initialize,
    InitializeNewGrant,
};
pub use grant::{
    bound_to_record, derive_addresses, derived_addresses_of, derived_is, escrow_consistent,
    holding_of, stage_is, DerivedAddresses,
};
pub use laws::{
    completion_drains_custody, only_parties_release, opening_deposits_amount,
    pull_back_refunds_remaining, stage_gates_operations,
};
pub use release::{
    complete_effect, complete_error, complete_grant, complete_instructions, complete_with,
    pull_back, pull_back_allowed, pull_back_effect, pull_back_error, pull_back_instructions,
    pull_back_with, CompleteGrant, PullBackInstruction,
};
pub use state::{
    stage_code, stage_code_round_trip, stage_of_code, ErrorCode, Stage, State, TokenAccount,
    TokenInstruction,
};
