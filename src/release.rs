use vstd::prelude::*;
use crate::address::{key_opt_view, Key};
use crate::custody::{
    credited, custody_after, live_balance, transfer_escrow_out, transfer_out_error,
    transfer_out_instructions,
};
use crate::grant::{
    bound_to_record, check_bound, check_holding, derive_addresses, derived_addresses_of,
    holding_of, stage_is, DerivedAddresses,
};
use crate::address::addresses_equal;
use crate::state::{stage_code, ErrorCode, Stage, State, TokenAccount, TokenInstruction};

verus! {

/// The accounts that completing an escrow touches, as the escrow logic sees them.
#[derive(Clone, Copy, Debug)]
pub struct CompleteGrant {
    pub application_state_key: Key,
    /// The escrow record: `None` where none exists at that address.
    pub application_state: Option<State>,
    pub escrow_wallet_state: TokenAccount,
    /// The receiver's holding of the escrowed token, provisioned if it was absent.
    pub wallet_to_deposit_to: TokenAccount,
    pub user_sending: Key,
    /// The receiver, who signs.
    pub user_receiving: Key,
    pub mint_of_token_being_sent: Key,
}

/// Why completing would be rejected, if it would, given the recomputed addresses.
pub open spec fn complete_error(ctx: CompleteGrant, d: DerivedAddresses, idx: u64) -> Option<
    ErrorCode,
> {
    match ctx.application_state {
        None => Some(ErrorCode::RecordNotFound),
        Some(st) => if st.user_receiving@ != ctx.user_receiving@ {
            Some(ErrorCode::UnauthorizedCaller)
        } else if !stage_is(st, Stage::FundsDeposited) {
            Some(ErrorCode::StageInvalid)
        } else if !bound_to_record(
            st,
            ctx.application_state_key,
            ctx.escrow_wallet_state,
            d,
            ctx.user_sending,
            ctx.user_receiving,
            ctx.mint_of_token_being_sent,
            idx,
        ) {
            Some(ErrorCode::AuthorityMismatch)
        } else if !holding_of(ctx.wallet_to_deposit_to, st.user_receiving, st.mint_of_token_being_sent) {
            Some(ErrorCode::DestinationOwnershipMismatch)
        } else {
            transfer_out_error(ctx.escrow_wallet_state, ctx.wallet_to_deposit_to, st.amount_tokens)
        },
    }
}

/// The accounts after a successful completion: the recorded amount moved from the
/// custody wallet to the receiver's holding, and the record in stage `EscrowComplete`.
pub open spec fn complete_effect(ctx: CompleteGrant) -> CompleteGrant {
    let st = ctx.application_state->Some_0;
    CompleteGrant {
        application_state: Some(State { stage: stage_code(Stage::EscrowComplete), ..st }),
        escrow_wallet_state: custody_after(ctx.escrow_wallet_state, st.amount_tokens),
        wallet_to_deposit_to: credited(ctx.wallet_to_deposit_to, st.amount_tokens),
        ..ctx
    }
}

pub open spec fn complete_instructions(ctx: CompleteGrant) -> Seq<TokenInstruction> {
    let st = ctx.application_state->Some_0;
    transfer_out_instructions(
        ctx.escrow_wallet_state,
        ctx.wallet_to_deposit_to.key,
        st.user_sending,
        ctx.application_state_key,
        st.amount_tokens,
    )
}

/// Completes an escrow against addresses already recomputed: the record must exist,
/// the signer must be its receiver, its stage `FundsDeposited`, the accounts bound to
/// it and the receiver's holding theirs; then the recorded amount moves to the
/// receiver under the record's authority, an emptied custody wallet is closed, and the
/// stage becomes `EscrowComplete`. Returns the token instructions to perform. On
/// failure nothing changes.
pub fn complete_with(ctx: &mut CompleteGrant, d: &DerivedAddresses, application_idx: u64) -> (r:
    Result<Vec<TokenInstruction>, ErrorCode>)
    ensures
        match complete_error(*old(ctx), *d, application_idx) {
            Some(e) => r == Err::<Vec<TokenInstruction>, ErrorCode>(e) && *final(ctx) == *old(ctx),
            None => {
                &&& r is Ok
                &&& *final(ctx) == complete_effect(*old(ctx))
                &&& r->Ok_0@ == complete_instructions(*old(ctx))
            },
        },
{
    let st = match &ctx.application_state {
        None => {
            return Err(ErrorCode::RecordNotFound);
        },
        Some(st) => *st,
    };
    if !addresses_equal(&st.user_receiving, &ctx.user_receiving) {
        return Err(ErrorCode::UnauthorizedCaller);
    }
    match Stage::from(st.stage) {
        Ok(Stage::FundsDeposited) => {},
        _ => {
            return Err(ErrorCode::StageInvalid);
        },
    }
    if !check_bound(
        &st,
        &ctx.application_state_key,
        &ctx.escrow_wallet_state,
        d,
        &ctx.user_sending,
        &ctx.user_receiving,
        &ctx.mint_of_token_being_sent,
        application_idx,
    ) {
        return Err(ErrorCode::AuthorityMismatch);
    }
    if !check_holding(&ctx.wallet_to_deposit_to, &st.user_receiving, &st.mint_of_token_being_sent) {
        return Err(ErrorCode::DestinationOwnershipMismatch);
    }
    let instructions = transfer_escrow_out(
        &st.user_sending,
        &mut ctx.escrow_wallet_state,
        &ctx.application_state_key,
        &mut ctx.wallet_to_deposit_to,
        st.amount_tokens,
    )?;
    ctx.application_state = Some(State { stage: Stage::EscrowComplete.to_code(), ..st });
    Ok(instructions)
}

/// Completes the escrow instance named by the accounts and `application_idx`:
/// recomputes the record's and the custody wallet's addresses from that tuple and the
/// two salts, then does what `complete_with` does with them.
pub fn complete_grant(
    ctx: &mut CompleteGrant,
    program_id: &Key,
    application_idx: u64,
    state_bump: u8,
    wallet_bump: u8,
) -> (r: Result<Vec<TokenInstruction>, ErrorCode>)
    ensures
        exists|d: DerivedAddresses|
            {
                &&& (key_opt_view(d.state), key_opt_view(d.wallet)) == derived_addresses_of(
                    *program_id,
                    old(ctx).user_sending,
                    old(ctx).user_receiving,
                    old(ctx).mint_of_token_being_sent,
                    application_idx,
                    state_bump,
                    wallet_bump,
                )
                &&& match complete_error(*old(ctx), d, application_idx) {
                    Some(e) => r == Err::<Vec<TokenInstruction>, ErrorCode>(e) && *final(ctx)
                        == *old(ctx),
                    None => r is Ok && *final(ctx) == complete_effect(*old(ctx)),
                }
            },
{
    let d = derive_addresses(
        program_id,
        &ctx.user_sending,
        &ctx.user_receiving,
        &ctx.mint_of_token_being_sent,
        application_idx,
        state_bump,
        wallet_bump,
    );
    complete_with(ctx, &d, application_idx)
}

/// The accounts that pulling an escrow back touches, as the escrow logic sees them.
#[derive(Clone, Copy, Debug)]
pub struct PullBackInstruction {
    pub application_state_key: Key,
    /// The escrow record: `None` where none exists at that address.
    pub application_state: Option<State>,
    pub escrow_wallet_state: TokenAccount,
    /// The sender, who signs.
    pub user_sending: Key,
    pub user_receiving: Key,
    pub mint_of_token_being_sent: Key,
    /// The sender's holding that the tokens go back to.
    pub refund_wallet: TokenAccount,
}

/// Whether a record's stage allows a pull-back: the funds are deposited, or an
/// earlier pull-back is being retried.
pub open spec fn pull_back_allowed(st: State) -> bool {
    stage_is(st, Stage::FundsDeposited) || stage_is(st, Stage::PullBackComplete)
}

/// Why pulling back would be rejected, if it would, given the recomputed addresses.
pub open spec fn pull_back_error(ctx: PullBackInstruction, d: DerivedAddresses, idx: u64) -> Option<
    ErrorCode,
> {
    match ctx.application_state {
        None => Some(ErrorCode::RecordNotFound),
        Some(st) => if st.user_sending@ != ctx.user_sending@ {
            Some(ErrorCode::UnauthorizedCaller)
        } else if !pull_back_allowed(st) {
            Some(ErrorCode::StageInvalid)
        } else if !bound_to_record(
            st,
            ctx.application_state_key,
            ctx.escrow_wallet_state,
            d,
            ctx.user_sending,
            ctx.user_receiving,
            ctx.mint_of_token_being_sent,
            idx,
        ) {
            Some(ErrorCode::AuthorityMismatch)
        } else if !holding_of(ctx.refund_wallet, st.user_sending, st.mint_of_token_being_sent) {
            Some(ErrorCode::DestinationOwnershipMismatch)
        } else {
            transfer_out_error(
                ctx.escrow_wallet_state,
                ctx.refund_wallet,
                live_balance(ctx.escrow_wallet_state),
            )
        },
    }
}

/// The accounts after a successful pull-back: whatever the custody wallet still held
/// (not the recorded amount) moved to the sender's refund holding, and the record in
/// stage `PullBackComplete`.
pub open spec fn pull_back_effect(ctx: PullBackInstruction) -> PullBackInstruction {
    let st = ctx.application_state->Some_0;
    let moved = live_balance(ctx.escrow_wallet_state);
    PullBackInstruction {
        application_state: Some(State { stage: stage_code(Stage::PullBackComplete), ..st }),
        escrow_wallet_state: custody_after(ctx.escrow_wallet_state, moved),
        refund_wallet: credited(ctx.refund_wallet, moved),
        ..ctx
    }
}

pub open spec fn pull_back_instructions(ctx: PullBackInstruction) -> Seq<TokenInstruction> {
    let st = ctx.application_state->Some_0;
    transfer_out_instructions(
        ctx.escrow_wallet_state,
        ctx.refund_wallet.key,
        st.user_sending,
        ctx.application_state_key,
        live_balance(ctx.escrow_wallet_state),
    )
}

/// Pulls an escrow back against addresses already recomputed: the record must exist,
/// the signer must be its sender, its stage `FundsDeposited` or `PullBackComplete`, the
/// accounts bound to it and the refund holding the sender's; then the custody wallet's
/// current balance moves to the refund holding under the record's authority, an
/// emptied custody wallet is closed, and the stage becomes `PullBackComplete`. A retry
/// finds the wallet closed and moves nothing. Returns the token instructions to
/// perform. On failure nothing changes.
pub fn pull_back_with(ctx: &mut PullBackInstruction, d: &DerivedAddresses, application_idx: u64) -> (r:
    Result<Vec<TokenInstruction>, ErrorCode>)
    ensures
        match pull_back_error(*old(ctx), *d, application_idx) {
            Some(e) => r == Err::<Vec<TokenInstruction>, ErrorCode>(e) && *final(ctx) == *old(ctx),
            None => {
                &&& r is Ok
                &&& *final(ctx) == pull_back_effect(*old(ctx))
                &&& r->Ok_0@ == pull_back_instructions(*old(ctx))
            },
        },
{
    let st = match &ctx.application_state {
        None => {
            return Err(ErrorCode::RecordNotFound);
        },
        Some(st) => *st,
    };
    if !addresses_equal(&st.user_sending, &ctx.user_sending) {
        return Err(ErrorCode::UnauthorizedCaller);
    }
    let is_valid_stage = match Stage::from(st.stage) {
        Ok(Stage::FundsDeposited) => true,
        Ok(Stage::PullBackComplete) => true,
        _ => false,
    };
    if !is_valid_stage {
        return Err(ErrorCode::StageInvalid);
    }
    if !check_bound(
        &st,
        &ctx.application_state_key,
        &ctx.escrow_wallet_state,
        d,
        &ctx.user_sending,
        &ctx.user_receiving,
        &ctx.mint_of_token_being_sent,
        application_idx,
    ) {
        return Err(ErrorCode::AuthorityMismatch);
    }
    if !check_holding(&ctx.refund_wallet, &st.user_sending, &st.mint_of_token_being_sent) {
        return Err(ErrorCode::DestinationOwnershipMismatch);
    }
    let remaining: u64 = if ctx.escrow_wallet_state.is_open {
        ctx.escrow_wallet_state.amount
    } else {
        0
    };
    let instructions = transfer_escrow_out(
        &st.user_sending,
        &mut ctx.escrow_wallet_state,
        &ctx.application_state_key,
        &mut ctx.refund_wallet,
        remaining,
    )?;
    ctx.application_state = Some(State { stage: Stage::PullBackComplete.to_code(), ..st });
    Ok(instructions)
}

/// Pulls back the escrow instance named by the accounts and `application_idx`:
/// recomputes the record's and the custody wallet's addresses from that tuple and the
/// two salts, then does what `pull_back_with` does with them.
pub fn pull_back(
    ctx: &mut PullBackInstruction,
    program_id: &Key,
    application_idx: u64,
    state_bump: u8,
    wallet_bump: u8,
) -> (r: Result<Vec<TokenInstruction>, ErrorCode>)
    ensures
        exists|d: DerivedAddresses|
            {
                &&& (key_opt_view(d.state), key_opt_view(d.wallet)) == derived_addresses_of(
                    *program_id,
                    old(ctx).user_sending,
                    old(ctx).user_receiving,
                    old(ctx).mint_of_token_being_sent,
                    application_idx,
                    state_bump,
                    wallet_bump,
                )
                &&& match pull_back_error(*old(ctx), d, application_idx) {
                    Some(e) => r == Err::<Vec<TokenInstruction>, ErrorCode>(e) && *final(ctx)
                        == *old(ctx),
                    None => r is Ok && *final(ctx) == pull_back_effect(*old(ctx)),
                }
            },
{
    let d = derive_addresses(
        program_id,
        &ctx.user_sending,
        &ctx.user_receiving,
        &ctx.mint_of_token_being_sent,
        application_idx,
        state_bump,
        wallet_bump,
    );
    pull_back_with(ctx, &d, application_idx)
}

} // verus!
