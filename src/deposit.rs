use vstd::prelude::*;
use crate::address::Key;
use crate::address::key_opt_view;
use crate::grant::{
    check_holding, derive_addresses, derived_addresses_of, derived_is, derived_matches, holding_of,
    DerivedAddresses,
};
use crate::state::{ErrorCode, Stage, State, TokenAccount, TokenInstruction, stage_code};

verus! {

/// The accounts of a per-user token wallet held under a derived instance authority:
/// the wallet at the address derived from the user and the mint, owned by the
/// instance's derived address.
#[derive(Clone, Copy, Debug)]
pub struct Initialize {
    pub instance: Key,
    pub wallet: TokenAccount,
    pub mint: Key,
    /// The user, who signs and pays.
    pub user: Key,
}

/// The accounts that opening an escrow touches, as the escrow logic sees them.
#[derive(Clone, Copy, Debug)]
pub struct InitializeNewGrant {
    /// The derived address where the escrow record is to be created.
    pub application_state_key: Key,
    /// The record at that address: `None` where none exists yet.
    pub application_state: Option<State>,
    /// The custody wallet to be created at its derived address.
    pub escrow_wallet_state: TokenAccount,
    /// The sender, who signs.
    pub user_sending: Key,
    pub user_receiving: Key,
    pub mint_of_token_being_sent: Key,
    /// The sender's holding that the deposit is drawn from.
    pub wallet_to_withdraw_from: TokenAccount,
}

/// Why opening would be rejected, if it would, given the recomputed addresses.
pub open spec fn initialize_error(
    ctx: InitializeNewGrant,
    d: DerivedAddresses,
    amount: u64,
) -> Option<ErrorCode> {
    if ctx.application_state is Some || ctx.escrow_wallet_state.is_open {
        Some(ErrorCode::RecordAlreadyExists)
    } else if !derived_is(d.state, ctx.application_state_key) || !derived_is(
        d.wallet,
        ctx.escrow_wallet_state.key,
    ) {
        Some(ErrorCode::AuthorityMismatch)
    } else if !holding_of(ctx.wallet_to_withdraw_from, ctx.user_sending, ctx.mint_of_token_being_sent) {
        Some(ErrorCode::DestinationOwnershipMismatch)
    } else if ctx.wallet_to_withdraw_from.amount < amount {
        Some(ErrorCode::InsufficientBalance)
    } else {
        None
    }
}

/// The accounts after a successful opening: the record in stage `FundsDeposited` with
/// the amount fixed, the custody wallet created under the record's authority and
/// holding `amount`, and the sender's holding debited by it.
pub open spec fn initialize_effect(ctx: InitializeNewGrant, idx: u64, amount: u64) -> InitializeNewGrant {
    InitializeNewGrant {
        application_state: Some(
            State {
                idx: idx,
                user_sending: ctx.user_sending,
                user_receiving: ctx.user_receiving,
                mint_of_token_being_sent: ctx.mint_of_token_being_sent,
                escrow_wallet: ctx.escrow_wallet_state.key,
                amount_tokens: amount,
                stage: stage_code(Stage::FundsDeposited),
            },
        ),
        escrow_wallet_state: TokenAccount {
            key: ctx.escrow_wallet_state.key,
            mint: ctx.mint_of_token_being_sent,
            owner: ctx.application_state_key,
            amount: amount,
            is_open: true,
        },
        wallet_to_withdraw_from: TokenAccount {
            amount: (ctx.wallet_to_withdraw_from.amount - amount) as u64,
            ..ctx.wallet_to_withdraw_from
        },
        ..ctx
    }
}

/// Opens an escrow against addresses already recomputed: checks that no record
/// exists, that both addresses match their derivation and that the sender's holding
/// is theirs, of the right token and large enough; then creates the record and the
/// custody wallet and moves `amount` into it. Returns the token transfer to perform.
/// On failure nothing changes.
pub fn initialize_with(
    ctx: &mut InitializeNewGrant,
    d: &DerivedAddresses,
    application_idx: u64,
    amount: u64,
) -> (r: Result<Vec<TokenInstruction>, ErrorCode>)
    ensures
        match initialize_error(*old(ctx), *d, amount) {
            Some(e) => r == Err::<Vec<TokenInstruction>, ErrorCode>(e) && *final(ctx) == *old(ctx),
            None => {
                &&& r is Ok
                &&& *final(ctx) == initialize_effect(*old(ctx), application_idx, amount)
                &&& r->Ok_0@ == seq![
                    TokenInstruction::Transfer {
                        from: old(ctx).wallet_to_withdraw_from.key,
                        to: old(ctx).escrow_wallet_state.key,
                        authority: old(ctx).user_sending,
                        amount: amount,
                    },
                ]
            },
        },
        r is Ok ==> {
            &&& final(ctx).escrow_wallet_state.is_open
            &&& final(ctx).escrow_wallet_state.amount == amount
            &&& final(ctx).application_state matches Some(st) && st.stage == stage_code(
                Stage::FundsDeposited,
            ) && st.amount_tokens == amount
        },
{
    if ctx.application_state.is_some() || ctx.escrow_wallet_state.is_open {
        return Err(ErrorCode::RecordAlreadyExists);
    }
    if !derived_matches(&d.state, &ctx.application_state_key)
        || !derived_matches(&d.wallet, &ctx.escrow_wallet_state.key) {
        return Err(ErrorCode::AuthorityMismatch);
    }
    if !check_holding(
        &ctx.wallet_to_withdraw_from,
        &ctx.user_sending,
        &ctx.mint_of_token_being_sent,
    ) {
        return Err(ErrorCode::DestinationOwnershipMismatch);
    }
    if ctx.wallet_to_withdraw_from.amount < amount {
        return Err(ErrorCode::InsufficientBalance);
    }
    ctx.application_state = Some(
        State {
            idx: application_idx,
            user_sending: ctx.user_sending,
            user_receiving: ctx.user_receiving,
            mint_of_token_being_sent: ctx.mint_of_token_being_sent,
            escrow_wallet: ctx.escrow_wallet_state.key,
            amount_tokens: amount,
            stage: Stage::FundsDeposited.to_code(),
        },
    );
    // The custody wallet is created empty under the record's authority...
    ctx.escrow_wallet_state = TokenAccount {
        key: ctx.escrow_wallet_state.key,
        mint: ctx.mint_of_token_being_sent,
        owner: ctx.application_state_key,
        amount: 0,
        is_open: true,
    };
    // ...and then credited from the sender's holding.
    ctx.wallet_to_withdraw_from.amount = ctx.wallet_to_withdraw_from.amount - amount;
    ctx.escrow_wallet_state.amount = amount;
    let mut instructions: Vec<TokenInstruction> = Vec::new();
    instructions.push(
        TokenInstruction::Transfer {
            from: ctx.wallet_to_withdraw_from.key,
            to: ctx.escrow_wallet_state.key,
            authority: ctx.user_sending,
            amount,
        },
    );
    Ok(instructions)
}

/// Opens the escrow instance `(user_sending, user_receiving, mint, application_idx)`:
/// recomputes the record's and the custody wallet's addresses from that tuple and the
/// two salts, then does what `initialize_with` does with them.
pub fn initialize_new_grant(
    ctx: &mut InitializeNewGrant,
    program_id: &Key,
    application_idx: u64,
    state_bump: u8,
    wallet_bump: u8,
    amount: u64,
) -> (r: Result<Vec<TokenInstruction>, ErrorCode>)
    ensures
        exists|d: DerivedAddresses|
            {
                &&& (key_opt_view(d.state), key_opt_view(d.wallet)) == derived_addresses_of(
                    *program_id,
                    old(ctx).user_sending,
                    old(ctx).user_receiving,
                    old(ctx).mint_of_token_being_sent,
                    application_idx,
                    state_bump,
                    wallet_bump,
                )
                &&& match initialize_error(*old(ctx), d, amount) {
                    Some(e) => r == Err::<Vec<TokenInstruction>, ErrorCode>(e) && *final(ctx)
                        == *old(ctx),
                    None => r is Ok && *final(ctx) == initialize_effect(
                        *old(ctx),
                        application_idx,
                        amount,
                    ),
                }
            },
{
    let d = derive_addresses(
        program_id,
        &ctx.user_sending,
        &ctx.user_receiving,
        &ctx.mint_of_token_being_sent,
        application_idx,
        state_bump,
        wallet_bump,
    );
    initialize_with(ctx, &d, application_idx, amount)
}

} // verus!
