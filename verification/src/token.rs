use vstd::prelude::*;

verus! {

use crate::error::EscrowError;
use crate::state::TokenAccount;

/// What the fungible-asset transfer primitive does, as a function of the two
/// accounts and the amount: the result is `Err` with the first condition that
/// fails — the accounts hold different asset types, the source is short, the
/// destination would overflow — and otherwise `Ok` with the debited source and
/// credited destination.
pub open spec fn transfer_outcome(
    from: TokenAccount,
    to: TokenAccount,
    amount: u64,
) -> Result<(TokenAccount, TokenAccount), EscrowError> {
    if from.mint != to.mint {
        Err(EscrowError::MintError)
    } else if from.amount < amount {
        Err(EscrowError::InsufficientFunds)
    } else if to.amount + amount > u64::MAX {
        Err(EscrowError::AmountOverflow)
    } else {
        Ok((
            TokenAccount { mint: from.mint, amount: (from.amount - amount) as u64 },
            TokenAccount { mint: to.mint, amount: (to.amount + amount) as u64 },
        ))
    }
}

/// The fungible-asset transfer primitive: debit `amount` from `from` and
/// credit it to `to`, atomically. The real primitive is an external,
/// all-or-nothing operation of the ledger; this is its behaviour on the plain
/// values the protocol reads — it refuses a pair of accounts of different
/// asset types, a short source, and a credit past `u64::MAX`, and on any
/// refusal leaves both accounts unchanged.
pub fn transfer(from: &mut TokenAccount, to: &mut TokenAccount, amount: u64) -> (r: Result<
    (),
    EscrowError,
>)
    ensures
        match transfer_outcome(*old(from), *old(to), amount) {
            Ok(post) => r == Ok::<(), EscrowError>(()) && *final(from) == post.0 && *final(to)
                == post.1,
            Err(e) => r == Err::<(), EscrowError>(e) && *final(from) == *old(from) && *final(to)
                == *old(to),
        },
{
    if from.mint != to.mint {
        return Err(EscrowError::MintError);
    }
    if from.amount < amount {
        return Err(EscrowError::InsufficientFunds);
    }
    if amount > u64::MAX - to.amount {
        return Err(EscrowError::AmountOverflow);
    }
    from.amount = from.amount - amount;
    to.amount = to.amount + amount;
    Ok(())
}

/// A successful transfer conserves the total supply of the asset it moves and
/// changes neither account's asset type.
pub proof fn lemma_transfer_conserves_supply(from: TokenAccount, to: TokenAccount, amount: u64)
    ensures
        match transfer_outcome(from, to, amount) {
            Ok(post) => post.0.amount + post.1.amount == from.amount + to.amount && post.0.mint
                == from.mint && post.1.mint == to.mint,
            Err(_) => true,
        },
{
}

} // verus!
