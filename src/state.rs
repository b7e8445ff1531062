use vstd::prelude::*;
use crate::address::Key;

verus! {

/// Why an escrow operation was rejected.
#[derive(Clone, Copy, PartialEq, Eq, Debug)]
pub enum ErrorCode {
    /// The signer is not the party that the operation requires.
    UnauthorizedCaller,
    /// No escrow record exists at the given address.
    RecordNotFound,
    /// An escrow record or custody wallet already exists at the derived address.
    RecordAlreadyExists,
    /// The record's stage does not allow the operation.
    StageInvalid,
    /// A recomputed derived address does not match the account referenced.
    AuthorityMismatch,
    /// The account to debit holds fewer tokens than are to be moved.
    InsufficientBalance,
    /// The holding to debit or credit is not owned by the expected party, holds
    /// another token, or does not exist.
    DestinationOwnershipMismatch,
    /// Crediting the destination would exceed the largest balance.
    BalanceOverflow,
}

/// The stages of an escrow.
#[derive(Clone, Copy, PartialEq, Eq, Debug)]
pub enum Stage {
    /// The sender's tokens sit in the custody wallet.
    FundsDeposited,
    /// The receiver took the tokens. Terminal.
    EscrowComplete,
    /// The sender took the tokens back. Terminal, but a pull-back may be retried.
    PullBackComplete,
}

/// The one-byte code under which each stage is stored.
pub open spec fn stage_code(s: Stage) -> u8 {
    match s {
        Stage::FundsDeposited => 1,
        Stage::EscrowComplete => 2,
        Stage::PullBackComplete => 3,
    }
}

pub open spec fn stage_of_code(c: u8) -> Option<Stage> {
    if c == 1 {
        Some(Stage::FundsDeposited)
    } else if c == 2 {
        Some(Stage::EscrowComplete)
    } else if c == 3 {
        Some(Stage::PullBackComplete)
    } else {
        None
    }
}

impl Stage {
    pub fn to_code(&self) -> (r: u8)
        ensures
            r == stage_code(*self),
    {
        match self {
            Stage::FundsDeposited => 1,
            Stage::EscrowComplete => 2,
            Stage::PullBackComplete => 3,
        }
    }

    /// Reads a stored stage code; an unknown code is `StageInvalid`.
    pub fn from(val: u8) -> (r: Result<Stage, ErrorCode>)
        ensures
            match stage_of_code(val) {
                Some(s) => r == Ok::<Stage, ErrorCode>(s),
                None => r == Err::<Stage, ErrorCode>(ErrorCode::StageInvalid),
            },
    {
        match val {
            1 => Ok(Stage::FundsDeposited),
            2 => Ok(Stage::EscrowComplete),
            3 => Ok(Stage::PullBackComplete),
            _ => Err(ErrorCode::StageInvalid),
        }
    }
}

/// Reading back a stored stage gives the stage that was stored, and only the three
/// stage codes read back at all.
pub proof fn stage_code_round_trip(s: Stage, c: u8)
    ensures
        stage_of_code(stage_code(s)) == Some(s),
        stage_of_code(c) matches Some(t) ==> stage_code(t) == c,
{
}

/// The escrow record: one per escrow instance.
#[derive(Clone, Copy, Debug)]
pub struct State {
    /// The instance index chosen by the sender; part of every derivation.
    pub idx: u64,
    pub user_sending: Key,
    pub user_receiving: Key,
    pub mint_of_token_being_sent: Key,
    /// The custody wallet's address.
    pub escrow_wallet: Key,
    /// The amount deposited; fixed when the escrow is opened.
    pub amount_tokens: u64,
    /// The stage code.
    pub stage: u8,
}

/// A token holding as the escrow logic sees it.
#[derive(Clone, Copy, Debug)]
pub struct TokenAccount {
    pub key: Key,
    /// The token that the holding holds.
    pub mint: Key,
    /// The holding's authority: the only party that can move its tokens.
    pub owner: Key,
    pub amount: u64,
    /// Whether the account exists; a closed account holds nothing.
    pub is_open: bool,
}

/// A token instruction that the escrow hands to the token program.
#[derive(Clone, Copy, Debug)]
pub enum TokenInstruction {
    /// Move `amount` tokens from `from` to `to`, signed by `authority`.
    Transfer { from: Key, to: Key, authority: Key, amount: u64 },
    /// Close the empty `account` and send its storage allowance to `destination`.
    CloseAccount { account: Key, destination: Key, authority: Key },
}

} // verus!
