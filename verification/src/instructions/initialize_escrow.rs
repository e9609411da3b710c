use vstd::prelude::*;

verus! {

use crate::error::EscrowError;
use crate::state::{Escrow, Offer, TokenAccount};
use crate::token;

/// Everything the initialize transition touches: the storage slot keyed by the
/// initializer's identity (the offer's address is a pure function of that
/// identity, so one party has at most one open offer), the initializer's
/// holding account for the offered asset, the two asset-type identities, and
/// the initializer's own identity, attested by the substrate's signature
/// check.
#[derive(Clone, Copy, PartialEq, Eq, Debug)]
pub struct InitializeEscrow {
    /// The storage slot derived from `initializer`; holds the open escrow, if
    /// any.
    pub offer: Option<Escrow>,
    /// The initializer's holding account to debit.
    pub initializer_offered_tokens_account: TokenAccount,
    /// Identity of the asset type being offered.
    pub offered_tokens_mint: u64,
    /// Identity of the asset type wanted in return.
    pub wanted_tokens_mint: u64,
    /// Identity of the signing caller.
    pub initializer: u64,
}

/// What the initialize transition does, as a function of its inputs: `Err`
/// with the first condition that fails — the slot already holds an open offer,
/// the source account is not of the declared offered asset type, the source
/// balance is short — and otherwise `Ok` with the record populated exactly as
/// given, the vault created holding the offered amount, and the source
/// debited.
pub open spec fn initialize_outcome(
    pre: InitializeEscrow,
    offered_amount: u64,
    wanted_amount: u64,
) -> Result<InitializeEscrow, EscrowError> {
    if pre.offer is Some {
        Err(EscrowError::OfferAlreadyOpen)
    } else if pre.initializer_offered_tokens_account.mint != pre.offered_tokens_mint {
        Err(EscrowError::MintError)
    } else if pre.initializer_offered_tokens_account.amount < offered_amount {
        Err(EscrowError::InsufficientFunds)
    } else {
        Ok(
            InitializeEscrow {
                offer: Some(
                    Escrow {
                        offer: Offer {
                            initializer: pre.initializer,
                            offered_amount: offered_amount,
                            wanted_token_mint: pre.wanted_tokens_mint,
                            wanted_amount: wanted_amount,
                        },
                        vault: TokenAccount {
                            mint: pre.offered_tokens_mint,
                            amount: offered_amount,
                        },
                    },
                ),
                initializer_offered_tokens_account: TokenAccount {
                    mint: pre.initializer_offered_tokens_account.mint,
                    amount: (pre.initializer_offered_tokens_account.amount - offered_amount) as u64,
                },
                offered_tokens_mint: pre.offered_tokens_mint,
                wanted_tokens_mint: pre.wanted_tokens_mint,
                initializer: pre.initializer,
            },
        )
    }
}

/// Create the offer record and custody vault and lock the offered amount, as
/// one atomic step: either the record, the vault and the transfer all take
/// effect, or the context is left exactly as it was and the error says why.
///
/// Both quantities must be positive; the substrate further guarantees that the
/// caller signed and owns the source account, which is outside this model.
pub fn initialize_escrow(
    ctx: &mut InitializeEscrow,
    offered_amount: u64,
    wanted_amount: u64,
) -> (r: Result<(), EscrowError>)
    requires
        offered_amount > 0,
        wanted_amount > 0,
    ensures
        match initialize_outcome(*old(ctx), offered_amount, wanted_amount) {
            Ok(post) => r == Ok::<(), EscrowError>(()) && *final(ctx) == post,
            Err(e) => r == Err::<(), EscrowError>(e) && *final(ctx) == *old(ctx),
        },
{
    if ctx.offer.is_some() {
        return Err(EscrowError::OfferAlreadyOpen);
    }
    if ctx.initializer_offered_tokens_account.mint != ctx.offered_tokens_mint {
        return Err(EscrowError::MintError);
    }
    if ctx.initializer_offered_tokens_account.amount < offered_amount {
        return Err(EscrowError::InsufficientFunds);
    }
    let record = Offer {
        initializer: ctx.initializer,
        offered_amount: offered_amount,
        wanted_token_mint: ctx.wanted_tokens_mint,
        wanted_amount: wanted_amount,
    };
    // The vault is created empty, of the offered asset type, then funded by
    // the transfer primitive; the checks above make the transfer succeed.
    let mut vault = TokenAccount { mint: ctx.offered_tokens_mint, amount: 0 };
    let mut source = ctx.initializer_offered_tokens_account;
    let _ = token::transfer(&mut source, &mut vault, offered_amount);
    ctx.initializer_offered_tokens_account = source;
    ctx.offer = Some(Escrow { offer: record, vault: vault });
    Ok(())
}

} // verus!
