use anchor_lang::prelude::Pubkey;
use safe_pay::{
    complete_grant, complete_with, derive_address, derive_addresses, initialize_new_grant,
    pull_back, pull_back_with, transfer_escrow_out, u64_to_le_bytes, CompleteGrant,
    DerivedAddresses, ErrorCode, InitializeNewGrant, Key, PullBackInstruction, SeedTag, Stage,
    TokenAccount, TokenInstruction,
};

const ALICE: Key = [1u8; 32];
const BOB: Key = [2u8; 32];
const CAROL: Key = [3u8; 32];
const USDC: Key = [4u8; 32];
const OTHER_MINT: Key = [5u8; 32];
const PROGRAM: Key = [9u8; 32];
const ALICE_USDC: Key = [11u8; 32];
const BOB_USDC: Key = [12u8; 32];

fn holding(key: Key, owner: Key, mint: Key, amount: u64) -> TokenAccount {
    TokenAccount { key, mint, owner, amount, is_open: true }
}

fn seeds(tag: &[u8], idx: u64) -> Vec<Vec<u8>> {
    vec![
        tag.to_vec(),
        ALICE.to_vec(),
        BOB.to_vec(),
        USDC.to_vec(),
        idx.to_le_bytes().to_vec(),
    ]
}

/// The derived address and salt of an instance, found by searching salts.
fn find(tag: &[u8], idx: u64) -> (Key, u8) {
    let s = seeds(tag, idx);
    let parts: Vec<&[u8]> = s.iter().map(|x| x.as_slice()).collect();
    let (k, bump) = Pubkey::find_program_address(&parts, &Pubkey::new_from_array(PROGRAM));
    (k.to_bytes(), bump)
}

struct Instance {
    state_key: Key,
    state_bump: u8,
    wallet_key: Key,
    wallet_bump: u8,
}

fn instance(idx: u64) -> Instance {
    let (state_key, state_bump) = find(b"state", idx);
    let (wallet_key, wallet_bump) = find(b"wallet", idx);
    Instance { state_key, state_bump, wallet_key, wallet_bump }
}

fn open_ctx(inst: &Instance, alice_balance: u64) -> InitializeNewGrant {
    InitializeNewGrant {
        application_state_key: inst.state_key,
        application_state: None,
        escrow_wallet_state: TokenAccount {
            key: inst.wallet_key,
            mint: [0u8; 32],
            owner: [0u8; 32],
            amount: 0,
            is_open: false,
        },
        user_sending: ALICE,
        user_receiving: BOB,
        mint_of_token_being_sent: USDC,
        wallet_to_withdraw_from: holding(ALICE_USDC, ALICE, USDC, alice_balance),
    }
}

/// Opens instance `idx` with `amount` from a holding of `alice_balance`.
fn opened(idx: u64, amount: u64, alice_balance: u64) -> (Instance, InitializeNewGrant) {
    let inst = instance(idx);
    let mut ctx = open_ctx(&inst, alice_balance);
    let r = initialize_new_grant(&mut ctx, &PROGRAM, idx, inst.state_bump, inst.wallet_bump, amount);
    assert!(r.is_ok());
    (inst, ctx)
}

fn complete_ctx(o: &InitializeNewGrant, signer: Key, bob_balance: u64) -> CompleteGrant {
    CompleteGrant {
        application_state_key: o.application_state_key,
        application_state: o.application_state,
        escrow_wallet_state: o.escrow_wallet_state,
        wallet_to_deposit_to: holding(BOB_USDC, BOB, USDC, bob_balance),
        user_sending: ALICE,
        user_receiving: signer,
        mint_of_token_being_sent: USDC,
    }
}

fn pull_back_ctx(o: &InitializeNewGrant, signer: Key, refund: TokenAccount) -> PullBackInstruction {
    PullBackInstruction {
        application_state_key: o.application_state_key,
        application_state: o.application_state,
        escrow_wallet_state: o.escrow_wallet_state,
        user_sending: signer,
        user_receiving: BOB,
        mint_of_token_being_sent: USDC,
        refund_wallet: refund,
    }
}

#[test]
fn le_bytes_match_std() {
    for n in [0u64, 1, 255, 256, 0x0102_0304_0506_0708, u64::MAX] {
        assert_eq!(u64_to_le_bytes(n), n.to_le_bytes().to_vec());
    }
}

#[test]
fn derivation_matches_create_program_address() {
    let (state_key, bump) = find(b"state", 7);
    let mut s = seeds(b"state", 7);
    s.push(vec![bump]);
    let parts: Vec<&[u8]> = s.iter().map(|x| x.as_slice()).collect();
    let direct = Pubkey::create_program_address(&parts, &Pubkey::new_from_array(PROGRAM)).unwrap();
    let derived = derive_address(&PROGRAM, SeedTag::State, &ALICE, &BOB, &USDC, 7, bump);
    assert_eq!(derived, Some(direct.to_bytes()));
    assert_eq!(derived, Some(state_key));
    assert_ne!(derived, Some(PROGRAM));
}

#[test]
fn derivation_is_repeatable_and_input_sensitive() {
    let (_, bump) = find(b"state", 1);
    let a = derive_address(&PROGRAM, SeedTag::State, &ALICE, &BOB, &USDC, 1, bump);
    let b = derive_address(&PROGRAM, SeedTag::State, &ALICE, &BOB, &USDC, 1, bump);
    assert!(a.is_some());
    assert_eq!(a, b);
    let other_idx = derive_address(&PROGRAM, SeedTag::State, &ALICE, &BOB, &USDC, 2, bump);
    let other_receiver = derive_address(&PROGRAM, SeedTag::State, &ALICE, &CAROL, &USDC, 1, bump);
    let other_tag = derive_address(&PROGRAM, SeedTag::Wallet, &ALICE, &BOB, &USDC, 1, bump);
    assert_ne!(a, other_idx);
    assert_ne!(a, other_receiver);
    assert_ne!(a, other_tag);
    let both = derive_addresses(&PROGRAM, &ALICE, &BOB, &USDC, 1, bump, bump);
    assert_eq!(both.state, a);
    assert_eq!(both.wallet, other_tag);
}

#[test]
fn open_deposits_amount() {
    let (inst, ctx) = opened(1, 100, 250);
    assert_eq!(ctx.escrow_wallet_state.amount, 100);
    assert!(ctx.escrow_wallet_state.is_open);
    assert_eq!(ctx.escrow_wallet_state.owner, inst.state_key);
    assert_eq!(ctx.wallet_to_withdraw_from.amount, 150);
    let st = ctx.application_state.unwrap();
    assert_eq!(st.stage, Stage::FundsDeposited.to_code());
    assert_eq!(st.amount_tokens, 100);
    assert_eq!(st.idx, 1);
    assert_eq!(st.escrow_wallet, inst.wallet_key);
}

#[test]
fn open_returns_the_deposit_transfer() {
    let inst = instance(3);
    let mut ctx = open_ctx(&inst, 80);
    let r = initialize_new_grant(&mut ctx, &PROGRAM, 3, inst.state_bump, inst.wallet_bump, 80).unwrap();
    assert_eq!(r.len(), 1);
    match r[0] {
        TokenInstruction::Transfer { from, to, authority, amount } => {
            assert_eq!(from, ALICE_USDC);
            assert_eq!(to, inst.wallet_key);
            assert_eq!(authority, ALICE);
            assert_eq!(amount, 80);
        }
        _ => panic!("expected a transfer"),
    }
    assert_eq!(ctx.wallet_to_withdraw_from.amount, 0);
}

#[test]
fn open_rejects_existing_record() {
    let (inst, ctx) = opened(1, 100, 250);
    let mut again = ctx;
    let r = initialize_new_grant(&mut again, &PROGRAM, 1, inst.state_bump, inst.wallet_bump, 10);
    assert_eq!(r.unwrap_err(), ErrorCode::RecordAlreadyExists);
    assert_eq!(again.wallet_to_withdraw_from.amount, 150);
}

#[test]
fn open_rejects_wrong_salt() {
    let inst = instance(4);
    let mut ctx = open_ctx(&inst, 100);
    let wrong = inst.state_bump.wrapping_sub(1);
    let r = initialize_new_grant(&mut ctx, &PROGRAM, 4, wrong, inst.wallet_bump, 10);
    assert_eq!(r.unwrap_err(), ErrorCode::AuthorityMismatch);
    assert!(ctx.application_state.is_none());
}

#[test]
fn open_rejects_foreign_source_holding() {
    let inst = instance(5);
    let mut ctx = open_ctx(&inst, 100);
    ctx.wallet_to_withdraw_from.owner = CAROL;
    let r = initialize_new_grant(&mut ctx, &PROGRAM, 5, inst.state_bump, inst.wallet_bump, 10);
    assert_eq!(r.unwrap_err(), ErrorCode::DestinationOwnershipMismatch);
    let mut ctx = open_ctx(&inst, 100);
    ctx.wallet_to_withdraw_from.mint = OTHER_MINT;
    let r = initialize_new_grant(&mut ctx, &PROGRAM, 5, inst.state_bump, inst.wallet_bump, 10);
    assert_eq!(r.unwrap_err(), ErrorCode::DestinationOwnershipMismatch);
}

#[test]
fn open_rejects_short_balance() {
    let inst = instance(6);
    let mut ctx = open_ctx(&inst, 99);
    let r = initialize_new_grant(&mut ctx, &PROGRAM, 6, inst.state_bump, inst.wallet_bump, 100);
    assert_eq!(r.unwrap_err(), ErrorCode::InsufficientBalance);
    assert!(!ctx.escrow_wallet_state.is_open);
}

#[test]
fn scenario_complete_then_complete_again() {
    let (inst, o) = opened(1, 100, 100);
    assert_eq!(o.escrow_wallet_state.amount, 100);
    let mut ctx = complete_ctx(&o, BOB, 5);
    let r = complete_grant(&mut ctx, &PROGRAM, 1, inst.state_bump, inst.wallet_bump).unwrap();
    assert_eq!(ctx.wallet_to_deposit_to.amount, 105);
    assert_eq!(ctx.escrow_wallet_state.amount, 0);
    assert!(!ctx.escrow_wallet_state.is_open);
    assert_eq!(ctx.application_state.unwrap().stage, Stage::EscrowComplete.to_code());
    assert_eq!(r.len(), 2);
    match r[1] {
        TokenInstruction::CloseAccount { account, destination, authority } => {
            assert_eq!(account, inst.wallet_key);
            assert_eq!(destination, ALICE);
            assert_eq!(authority, inst.state_key);
        }
        _ => panic!("expected the custody wallet to be closed"),
    }
    let before = ctx;
    let again = complete_grant(&mut ctx, &PROGRAM, 1, inst.state_bump, inst.wallet_bump);
    assert_eq!(again.unwrap_err(), ErrorCode::StageInvalid);
    assert_eq!(ctx.wallet_to_deposit_to.amount, before.wallet_to_deposit_to.amount);
    assert_eq!(ctx.application_state.unwrap().stage, Stage::EscrowComplete.to_code());
}

#[test]
fn scenario_pull_back_then_retry() {
    let (inst, o) = opened(2, 50, 50);
    let mut ctx = pull_back_ctx(&o, ALICE, holding(ALICE_USDC, ALICE, USDC, 0));
    let r = pull_back(&mut ctx, &PROGRAM, 2, inst.state_bump, inst.wallet_bump).unwrap();
    assert_eq!(r.len(), 2);
    assert_eq!(ctx.refund_wallet.amount, 50);
    assert!(!ctx.escrow_wallet_state.is_open);
    assert_eq!(ctx.application_state.unwrap().stage, Stage::PullBackComplete.to_code());
    let again = pull_back(&mut ctx, &PROGRAM, 2, inst.state_bump, inst.wallet_bump).unwrap();
    assert!(again.is_empty());
    assert_eq!(ctx.refund_wallet.amount, 50);
    assert_eq!(ctx.application_state.unwrap().stage, Stage::PullBackComplete.to_code());
}

#[test]
fn complete_by_stranger_is_unauthorized() {
    let (inst, o) = opened(1, 100, 100);
    let mut ctx = complete_ctx(&o, CAROL, 0);
    let before = ctx;
    let r = complete_grant(&mut ctx, &PROGRAM, 1, inst.state_bump, inst.wallet_bump);
    assert_eq!(r.unwrap_err(), ErrorCode::UnauthorizedCaller);
    assert_eq!(ctx.escrow_wallet_state.amount, before.escrow_wallet_state.amount);
    assert_eq!(ctx.application_state.unwrap().stage, Stage::FundsDeposited.to_code());
}

#[test]
fn pull_back_by_receiver_is_unauthorized() {
    let (inst, o) = opened(1, 100, 100);
    let mut ctx = pull_back_ctx(&o, BOB, holding(BOB_USDC, BOB, USDC, 0));
    let r = pull_back(&mut ctx, &PROGRAM, 1, inst.state_bump, inst.wallet_bump);
    assert_eq!(r.unwrap_err(), ErrorCode::UnauthorizedCaller);
    assert!(ctx.escrow_wallet_state.is_open);
}

#[test]
fn missing_record_is_not_found() {
    let (inst, o) = opened(1, 100, 100);
    let mut ctx = complete_ctx(&o, BOB, 0);
    ctx.application_state = None;
    let r = complete_grant(&mut ctx, &PROGRAM, 1, inst.state_bump, inst.wallet_bump);
    assert_eq!(r.unwrap_err(), ErrorCode::RecordNotFound);
}

#[test]
fn pull_back_after_complete_is_stage_invalid() {
    let (inst, o) = opened(1, 100, 100);
    let mut c = complete_ctx(&o, BOB, 0);
    complete_grant(&mut c, &PROGRAM, 1, inst.state_bump, inst.wallet_bump).unwrap();
    let done = InitializeNewGrant {
        application_state: c.application_state,
        escrow_wallet_state: c.escrow_wallet_state,
        ..o
    };
    let mut p = pull_back_ctx(&done, ALICE, holding(ALICE_USDC, ALICE, USDC, 0));
    let r = pull_back(&mut p, &PROGRAM, 1, inst.state_bump, inst.wallet_bump);
    assert_eq!(r.unwrap_err(), ErrorCode::StageInvalid);
    assert_eq!(p.refund_wallet.amount, 0);
}

#[test]
fn unknown_stage_code_is_stage_invalid() {
    assert_eq!(Stage::from(0).unwrap_err(), ErrorCode::StageInvalid);
    assert_eq!(Stage::from(4).unwrap_err(), ErrorCode::StageInvalid);
    for s in [Stage::FundsDeposited, Stage::EscrowComplete, Stage::PullBackComplete] {
        assert_eq!(Stage::from(s.to_code()).unwrap(), s);
    }
    let (inst, o) = opened(1, 100, 100);
    let mut ctx = complete_ctx(&o, BOB, 0);
    let mut st = ctx.application_state.unwrap();
    st.stage = 9;
    ctx.application_state = Some(st);
    let r = complete_grant(&mut ctx, &PROGRAM, 1, inst.state_bump, inst.wallet_bump);
    assert_eq!(r.unwrap_err(), ErrorCode::StageInvalid);
}

#[test]
fn wrong_index_or_salt_is_authority_mismatch() {
    let (inst, o) = opened(1, 100, 100);
    let mut ctx = complete_ctx(&o, BOB, 0);
    let r = complete_grant(&mut ctx, &PROGRAM, 2, inst.state_bump, inst.wallet_bump);
    assert_eq!(r.unwrap_err(), ErrorCode::AuthorityMismatch);
    let r = complete_grant(&mut ctx, &PROGRAM, 1, inst.state_bump.wrapping_add(1), inst.wallet_bump);
    assert_eq!(r.unwrap_err(), ErrorCode::AuthorityMismatch);
    assert!(ctx.escrow_wallet_state.is_open);
}

#[test]
fn substituted_custody_wallet_is_authority_mismatch() {
    let (inst, o) = opened(1, 100, 100);
    let mut ctx = complete_ctx(&o, BOB, 0);
    ctx.escrow_wallet_state.owner = CAROL;
    let r = complete_grant(&mut ctx, &PROGRAM, 1, inst.state_bump, inst.wallet_bump);
    assert_eq!(r.unwrap_err(), ErrorCode::AuthorityMismatch);
}

#[test]
fn foreign_destination_is_ownership_mismatch() {
    let (inst, o) = opened(1, 100, 100);
    let mut ctx = complete_ctx(&o, BOB, 0);
    ctx.wallet_to_deposit_to.owner = CAROL;
    let r = complete_grant(&mut ctx, &PROGRAM, 1, inst.state_bump, inst.wallet_bump);
    assert_eq!(r.unwrap_err(), ErrorCode::DestinationOwnershipMismatch);
    let mut p = pull_back_ctx(&o, ALICE, holding(ALICE_USDC, ALICE, OTHER_MINT, 0));
    let r = pull_back(&mut p, &PROGRAM, 1, inst.state_bump, inst.wallet_bump);
    assert_eq!(r.unwrap_err(), ErrorCode::DestinationOwnershipMismatch);
}

#[test]
fn short_custody_is_insufficient_and_full_destination_overflows() {
    let (inst, o) = opened(1, 100, 100);
    let mut ctx = complete_ctx(&o, BOB, 0);
    ctx.escrow_wallet_state.amount = 40;
    let r = complete_grant(&mut ctx, &PROGRAM, 1, inst.state_bump, inst.wallet_bump);
    assert_eq!(r.unwrap_err(), ErrorCode::InsufficientBalance);
    let mut ctx = complete_ctx(&o, BOB, u64::MAX - 50);
    let r = complete_grant(&mut ctx, &PROGRAM, 1, inst.state_bump, inst.wallet_bump);
    assert_eq!(r.unwrap_err(), ErrorCode::BalanceOverflow);
    assert_eq!(ctx.escrow_wallet_state.amount, 100);
}

#[test]
fn pull_back_moves_live_balance_not_recorded_amount() {
    let (inst, o) = opened(1, 100, 100);
    let mut ctx = pull_back_ctx(&o, ALICE, holding(ALICE_USDC, ALICE, USDC, 7));
    ctx.escrow_wallet_state.amount = 60;
    pull_back(&mut ctx, &PROGRAM, 1, inst.state_bump, inst.wallet_bump).unwrap();
    assert_eq!(ctx.refund_wallet.amount, 67);
    assert_eq!(ctx.escrow_wallet_state.amount, 0);
    assert!(!ctx.escrow_wallet_state.is_open);
}

#[test]
fn handlers_with_given_addresses() {
    let (inst, o) = opened(1, 100, 100);
    let d = DerivedAddresses { state: Some(inst.state_key), wallet: Some(inst.wallet_key) };
    let mut c = complete_ctx(&o, BOB, 0);
    assert!(complete_with(&mut c, &d, 1).is_ok());
    assert_eq!(c.wallet_to_deposit_to.amount, 100);
    let none = DerivedAddresses { state: None, wallet: Some(inst.wallet_key) };
    let mut p = pull_back_ctx(&o, ALICE, holding(ALICE_USDC, ALICE, USDC, 0));
    assert_eq!(pull_back_with(&mut p, &none, 1).unwrap_err(), ErrorCode::AuthorityMismatch);
    assert!(pull_back_with(&mut p, &d, 1).is_ok());
    assert_eq!(p.refund_wallet.amount, 100);
}

#[test]
fn partial_transfer_keeps_custody_open() {
    let mut custody = holding([20u8; 32], [21u8; 32], USDC, 30);
    let mut dest = holding(BOB_USDC, BOB, USDC, 1);
    let r = transfer_escrow_out(&ALICE, &mut custody, &[21u8; 32], &mut dest, 10).unwrap();
    assert_eq!(r.len(), 1);
    assert_eq!(custody.amount, 20);
    assert!(custody.is_open);
    assert_eq!(dest.amount, 11);
    let r = transfer_escrow_out(&ALICE, &mut custody, &[21u8; 32], &mut dest, 20).unwrap();
    assert_eq!(r.len(), 2);
    assert!(!custody.is_open);
    assert_eq!(dest.amount, 31);
    let r = transfer_escrow_out(&ALICE, &mut custody, &[21u8; 32], &mut dest, 1);
    assert_eq!(r.unwrap_err(), ErrorCode::InsufficientBalance);
}
