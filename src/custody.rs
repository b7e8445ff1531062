use vstd::prelude::*;
use crate::address::Key;
use crate::state::{ErrorCode, TokenAccount, TokenInstruction};

verus! {

/// The tokens that a custody account still holds: nothing once it is closed.
pub open spec fn live_balance(a: TokenAccount) -> u64 {
    if a.is_open {
        a.amount
    } else {
        0
    }
}

/// Why moving `amount` out of `custody` into `destination` would fail, if it would.
pub open spec fn transfer_out_error(
    custody: TokenAccount,
    destination: TokenAccount,
    amount: u64,
) -> Option<ErrorCode> {
    if !custody.is_open {
        if amount == 0 {
            None
        } else {
            Some(ErrorCode::InsufficientBalance)
        }
    } else if custody.amount < amount {
        Some(ErrorCode::InsufficientBalance)
    } else if destination.amount as int + amount as int > u64::MAX as int {
        Some(ErrorCode::BalanceOverflow)
    } else {
        None
    }
}

/// The custody account after `amount` left it: debited, and closed exactly when the
/// debit left it empty. A closed account stays as it is.
pub open spec fn custody_after(custody: TokenAccount, amount: u64) -> TokenAccount {
    if !custody.is_open {
        custody
    } else {
        TokenAccount {
            amount: (custody.amount - amount) as u64,
            is_open: custody.amount - amount != 0,
            ..custody
        }
    }
}

/// The destination after `amount` arrived in it.
pub open spec fn credited(destination: TokenAccount, amount: u64) -> TokenAccount {
    TokenAccount { amount: (destination.amount + amount) as u64, ..destination }
}

/// The token instructions of a transfer out: the transfer, signed by the derived
/// authority, then the closing of the custody account where the transfer emptied it,
/// with its storage allowance going to the sender. Nothing where the account is
/// already closed.
pub open spec fn transfer_out_instructions(
    custody: TokenAccount,
    destination: Key,
    user_sending: Key,
    authority: Key,
    amount: u64,
) -> Seq<TokenInstruction> {
    if !custody.is_open {
        Seq::empty()
    } else {
        let transfer = TokenInstruction::Transfer {
            from: custody.key,
            to: destination,
            authority: authority,
            amount: amount,
        };
        if custody.amount - amount == 0 {
            seq![
                transfer,
                TokenInstruction::CloseAccount {
                    account: custody.key,
                    destination: user_sending,
                    authority: authority,
                },
            ]
        } else {
            seq![transfer]
        }
    }
}

/// Moves `amount` tokens from the custody account to `destination` under the derived
/// `authority`, then re-reads the custody balance and closes the account if it is
/// exactly zero, returning its storage allowance to `user_sending`. On failure nothing
/// changes.
pub fn transfer_escrow_out(
    user_sending: &Key,
    escrow_wallet: &mut TokenAccount,
    authority: &Key,
    destination_wallet: &mut TokenAccount,
    amount: u64,
) -> (r: Result<Vec<TokenInstruction>, ErrorCode>)
    ensures
        match transfer_out_error(*old(escrow_wallet), *old(destination_wallet), amount) {
            Some(e) => {
                &&& r == Err::<Vec<TokenInstruction>, ErrorCode>(e)
                &&& *final(escrow_wallet) == *old(escrow_wallet)
                &&& *final(destination_wallet) == *old(destination_wallet)
            },
            None => {
                &&& r is Ok
                &&& r->Ok_0@ == transfer_out_instructions(
                    *old(escrow_wallet),
                    old(destination_wallet).key,
                    *user_sending,
                    *authority,
                    amount,
                )
                &&& *final(escrow_wallet) == custody_after(*old(escrow_wallet), amount)
                &&& *final(destination_wallet) == credited(*old(destination_wallet), amount)
            },
        },
{
    if !escrow_wallet.is_open {
        if amount == 0 {
            return Ok(Vec::new());
        }
        return Err(ErrorCode::InsufficientBalance);
    }
    if escrow_wallet.amount < amount {
        return Err(ErrorCode::InsufficientBalance);
    }
    if destination_wallet.amount > u64::MAX - amount {
        return Err(ErrorCode::BalanceOverflow);
    }
    let mut instructions: Vec<TokenInstruction> = Vec::new();
    escrow_wallet.amount = escrow_wallet.amount - amount;
    destination_wallet.amount = destination_wallet.amount + amount;
    instructions.push(
        TokenInstruction::Transfer {
            from: escrow_wallet.key,
            to: destination_wallet.key,
            authority: *authority,
            amount,
        },
    );
    // The balance is read back after the debit, not assumed.
    let should_close = escrow_wallet.amount == 0;
    if should_close {
        escrow_wallet.is_open = false;
        instructions.push(
            TokenInstruction::CloseAccount {
                account: escrow_wallet.key,
                destination: *user_sending,
                authority: *authority,
            },
        );
    }
    assert(instructions@ =~= transfer_out_instructions(
        *old(escrow_wallet),
        old(destination_wallet).key,
        *user_sending,
        *authority,
        amount,
    ));
    Ok(instructions)
}

} // verus!
