use vstd::prelude::*;
use crate::custody::live_balance;
use crate::grant::{escrow_consistent, stage_is, DerivedAddresses};
use crate::deposit::{initialize_effect, initialize_error, InitializeNewGrant};
use crate::release::{
    complete_effect, complete_error, pull_back_effect, pull_back_error, CompleteGrant,
    PullBackInstruction,
};
use crate::state::{ErrorCode, Stage};

verus! {

/// A successful opening leaves the custody wallet open and holding exactly `amount`,
/// the record in stage `FundsDeposited` with `amount` fixed, and the two consistent.
pub proof fn opening_deposits_amount(
    ctx: InitializeNewGrant,
    d: DerivedAddresses,
    idx: u64,
    amount: u64,
)
    requires
        initialize_error(ctx, d, amount) is None,
    ensures
        ({
            let post = initialize_effect(ctx, idx, amount);
            &&& post.escrow_wallet_state.is_open
            &&& post.escrow_wallet_state.amount == amount
            &&& post.application_state matches Some(st) && stage_is(st, Stage::FundsDeposited)
                && st.amount_tokens == amount && escrow_consistent(st, post.escrow_wallet_state)
            &&& post.wallet_to_withdraw_from.amount == ctx.wallet_to_withdraw_from.amount - amount
        }),
{
}

/// Completion is rejected whenever the stage is not `FundsDeposited`, and a pull-back
/// whenever it is neither `FundsDeposited` nor `PullBackComplete`; for the rightful
/// signer the rejection is `StageInvalid`.
pub proof fn stage_gates_operations(
    c: CompleteGrant,
    p: PullBackInstruction,
    d: DerivedAddresses,
    idx: u64,
)
    ensures
        c.application_state matches Some(st) && !stage_is(st, Stage::FundsDeposited) ==> {
            &&& complete_error(c, d, idx) is Some
            &&& c.application_state->Some_0.user_receiving@ == c.user_receiving@ ==> complete_error(c, d, idx) == Some(
                ErrorCode::StageInvalid,
            )
        },
        p.application_state matches Some(st) && !stage_is(st, Stage::FundsDeposited)
            && !stage_is(st, Stage::PullBackComplete) ==> {
            &&& pull_back_error(p, d, idx) is Some
            &&& p.application_state->Some_0.user_sending@ == p.user_sending@ ==> pull_back_error(p, d, idx) == Some(
                ErrorCode::StageInvalid,
            )
        },
{
}

/// After a successful completion of a consistent escrow the custody wallet holds
/// nothing and is closed, the stage is `EscrowComplete`, record and wallet stay
/// consistent, and completing again is rejected with `StageInvalid`.
pub proof fn completion_drains_custody(ctx: CompleteGrant, d: DerivedAddresses, idx: u64)
    requires
        complete_error(ctx, d, idx) is None,
        escrow_consistent(ctx.application_state->Some_0, ctx.escrow_wallet_state),
    ensures
        ({
            let post = complete_effect(ctx);
            &&& post.escrow_wallet_state.amount == 0
            &&& !post.escrow_wallet_state.is_open
            &&& post.application_state matches Some(st) && stage_is(st, Stage::EscrowComplete)
                && escrow_consistent(st, post.escrow_wallet_state)
            &&& post.wallet_to_deposit_to.amount == ctx.wallet_to_deposit_to.amount
                + ctx.escrow_wallet_state.amount
            &&& complete_error(post, d, idx) == Some(ErrorCode::StageInvalid)
        }),
{
}

/// After a successful pull-back the refund holding has gained exactly what the custody
/// wallet held before the call, the wallet is closed, and the stage is
/// `PullBackComplete`; a consistent escrow stays consistent. Pulling back again is
/// accepted and changes nothing.
pub proof fn pull_back_refunds_remaining(ctx: PullBackInstruction, d: DerivedAddresses, idx: u64)
    requires
        pull_back_error(ctx, d, idx) is None,
    ensures
        ({
            let post = pull_back_effect(ctx);
            &&& post.refund_wallet.amount == ctx.refund_wallet.amount + live_balance(
                ctx.escrow_wallet_state,
            )
            &&& !post.escrow_wallet_state.is_open
            &&& post.application_state matches Some(st) && stage_is(st, Stage::PullBackComplete)
            &&& escrow_consistent(ctx.application_state->Some_0, ctx.escrow_wallet_state)
                ==> escrow_consistent(post.application_state->Some_0, post.escrow_wallet_state)
            &&& pull_back_error(post, d, idx) is None
            &&& pull_back_effect(post) == post
        }),
{
}

/// Only the recorded receiver can complete an escrow and only the recorded sender can
/// pull it back: any other signer is rejected with `UnauthorizedCaller`.
pub proof fn only_parties_release(
    c: CompleteGrant,
    p: PullBackInstruction,
    d: DerivedAddresses,
    idx: u64,
)
    ensures
        c.application_state matches Some(st) && st.user_receiving@ != c.user_receiving@
            ==> complete_error(c, d, idx) == Some(ErrorCode::UnauthorizedCaller),
        p.application_state matches Some(st) && st.user_sending@ != p.user_sending@
            ==> pull_back_error(p, d, idx) == Some(ErrorCode::UnauthorizedCaller),
{
}

} // verus!
