use vstd::prelude::*;
use crate::address::{addresses_equal, derive_address, escrow_seeds, key_opt_view, program_address, Key, SeedTag};
use crate::custody::{
    credited, custody_after, live_balance, transfer_escrow_out, transfer_out_error,
    transfer_out_instructions,
};
use crate::state::{stage_code, stage_of_code, ErrorCode, Stage, State, TokenAccount, TokenInstruction};

verus! {

/// The addresses recomputed for one escrow instance: its record's and its custody
/// wallet's. `None` where the salt given gives no valid address.
#[derive(Clone, Copy, Debug)]
pub struct DerivedAddresses {
    pub state: Option<Key>,
    pub wallet: Option<Key>,
}

/// Whether a recomputed address is present and equal to `key`.
pub open spec fn derived_is(d: Option<Key>, key: Key) -> bool {
    match d {
        Some(k) => k@ == key@,
        None => false,
    }
}

pub(crate) fn derived_matches(d: &Option<Key>, key: &Key) -> (r: bool)
    ensures
        r == derived_is(*d, *key),
{
    match d {
        Some(k) => addresses_equal(k, key),
        None => false,
    }
}

/// What derivation gives for the instance `(sender, receiver, mint, idx)` under the
/// two salts.
pub open spec fn derived_addresses_of(
    program_id: Key,
    sender: Key,
    receiver: Key,
    mint: Key,
    idx: u64,
    state_bump: u8,
    wallet_bump: u8,
) -> (Option<Seq<u8>>, Option<Seq<u8>>) {
    (
        program_address(
            escrow_seeds(SeedTag::State, sender@, receiver@, mint@, idx, state_bump),
            program_id@,
        ),
        program_address(
            escrow_seeds(SeedTag::Wallet, sender@, receiver@, mint@, idx, wallet_bump),
            program_id@,
        ),
    )
}

/// Recomputes the record and custody wallet addresses of an instance.
pub fn derive_addresses(
    program_id: &Key,
    sender: &Key,
    receiver: &Key,
    mint: &Key,
    idx: u64,
    state_bump: u8,
    wallet_bump: u8,
) -> (r: DerivedAddresses)
    ensures
        (key_opt_view(r.state), key_opt_view(r.wallet)) == derived_addresses_of(
            *program_id,
            *sender,
            *receiver,
            *mint,
            idx,
            state_bump,
            wallet_bump,
        ),
{
    let state = derive_address(program_id, SeedTag::State, sender, receiver, mint, idx, state_bump);
    let wallet = derive_address(program_id, SeedTag::Wallet, sender, receiver, mint, idx, wallet_bump);
    DerivedAddresses { state, wallet }
}

/// Whether the record and custody wallet handed to an operation are the ones that
/// derivation gives for the record's own tuple: the tuple matches the accounts named,
/// both addresses match their recomputation, the record names the wallet, and an open
/// wallet holds the escrowed token under the record's authority.
pub open spec fn bound_to_record(
    record: State,
    state_key: Key,
    wallet: TokenAccount,
    d: DerivedAddresses,
    sender: Key,
    receiver: Key,
    mint: Key,
    idx: u64,
) -> bool {
    &&& record.user_sending@ == sender@
    &&& record.user_receiving@ == receiver@
    &&& record.mint_of_token_being_sent@ == mint@
    &&& record.idx == idx
    &&& derived_is(d.state, state_key)
    &&& derived_is(d.wallet, wallet.key)
    &&& record.escrow_wallet@ == wallet.key@
    &&& wallet.is_open ==> (wallet.owner@ == state_key@ && wallet.mint@ == mint@)
}

pub(crate) fn check_bound(
    record: &State,
    state_key: &Key,
    wallet: &TokenAccount,
    d: &DerivedAddresses,
    sender: &Key,
    receiver: &Key,
    mint: &Key,
    idx: u64,
) -> (r: bool)
    ensures
        r == bound_to_record(*record, *state_key, *wallet, *d, *sender, *receiver, *mint, idx),
{
    addresses_equal(&record.user_sending, sender) && addresses_equal(&record.user_receiving, receiver)
        && addresses_equal(&record.mint_of_token_being_sent, mint) && record.idx == idx
        && derived_matches(&d.state, state_key) && derived_matches(&d.wallet, &wallet.key)
        && addresses_equal(&record.escrow_wallet, &wallet.key) && (!wallet.is_open || (
    addresses_equal(&wallet.owner, state_key) && addresses_equal(&wallet.mint, mint)))
}

/// Whether `holding` exists, is owned by `owner` and holds `mint`.
pub open spec fn holding_of(holding: TokenAccount, owner: Key, mint: Key) -> bool {
    holding.is_open && holding.owner@ == owner@ && holding.mint@ == mint@
}

pub(crate) fn check_holding(holding: &TokenAccount, owner: &Key, mint: &Key) -> (r: bool)
    ensures
        r == holding_of(*holding, *owner, *mint),
{
    holding.is_open && addresses_equal(&holding.owner, owner) && addresses_equal(&holding.mint, mint)
}

/// The record's stage, if its code is one.
pub open spec fn stage_is(record: State, s: Stage) -> bool {
    stage_of_code(record.stage) == Some(s)
}

/// The escrow's record and custody wallet agree: while the funds are deposited the
/// wallet is open and holds exactly the recorded amount; once the escrow is complete
/// or pulled back the wallet is closed and empty.
pub open spec fn escrow_consistent(record: State, wallet: TokenAccount) -> bool {
    &&& stage_of_code(record.stage) is Some
    &&& stage_is(record, Stage::FundsDeposited) ==> wallet.is_open && wallet.amount
        == record.amount_tokens
    &&& !stage_is(record, Stage::FundsDeposited) ==> !wallet.is_open && wallet.amount == 0
}

} // verus!
