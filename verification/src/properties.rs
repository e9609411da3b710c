use vstd::prelude::*;

verus! {

use crate::error::EscrowError;
use crate::instructions::accept_escrow::{accept_outcome, AcceptEscrow};
use crate::instructions::cancel_escrow::{cancel_outcome, CancelEscrow};
use crate::instructions::initialize_escrow::{initialize_outcome, InitializeEscrow};
use crate::state::slot_well_formed;

/// Custody conservation, establishment: a successful initialize leaves the
/// slot holding a well-formed escrow — the vault holds exactly the offered
/// amount, of exactly the declared offered asset type — and debits the source
/// account by exactly that amount, conserving the offered asset's supply
/// (source debit == vault credit).
pub proof fn lemma_initialize_establishes_custody(
    pre: InitializeEscrow,
    offered_amount: u64,
    wanted_amount: u64,
)
    requires
        offered_amount > 0,
        wanted_amount > 0,
    ensures
        match initialize_outcome(pre, offered_amount, wanted_amount) {
            Ok(post) => {
                &&& slot_well_formed(post.offer)
                &&& post.offer matches Some(esc)
                &&& esc.vault.amount == offered_amount
                &&& esc.vault.mint == pre.offered_tokens_mint
                &&& esc.offer.initializer == pre.initializer
                &&& esc.offer.offered_amount == offered_amount
                &&& esc.offer.wanted_token_mint == pre.wanted_tokens_mint
                &&& esc.offer.wanted_amount == wanted_amount
                &&& post.initializer_offered_tokens_account.amount + esc.vault.amount
                    == pre.initializer_offered_tokens_account.amount
            },
            Err(_) => true,
        },
{
}

/// Custody conservation, preservation: none of the three transitions can
/// produce an open escrow whose vault balance differs from its offered
/// amount. Initialize only creates well-formed escrows, and accept and cancel
/// either leave the slot exactly as it was (on failure) or empty it (on
/// success) — there is no update transition, so an open offer's terms and
/// custody never change.
pub proof fn lemma_transitions_preserve_slot_invariant(
    init: InitializeEscrow,
    offered_amount: u64,
    wanted_amount: u64,
    acc: AcceptEscrow,
    can: CancelEscrow,
)
    requires
        offered_amount > 0,
        wanted_amount > 0,
        slot_well_formed(acc.offer),
        slot_well_formed(can.offer),
    ensures
        match initialize_outcome(init, offered_amount, wanted_amount) {
            Ok(post) => slot_well_formed(post.offer),
            Err(_) => true,
        },
        match accept_outcome(acc) {
            Ok(post) => slot_well_formed(post.offer),
            Err(_) => true,
        },
        match cancel_outcome(can) {
            Ok(post) => slot_well_formed(post.offer),
            Err(_) => true,
        },
{
}

/// Supply conservation across accept: on success the offered asset's units
/// move from the vault to the taker's receiving account one for one, and the
/// wanted asset's units move from the taker to the initializer one for one —
/// no unit of either asset is created or destroyed by the swap.
pub proof fn lemma_accept_conserves_supply(pre: AcceptEscrow)
    ensures
        match (accept_outcome(pre), pre.offer) {
            (Ok(post), Some(esc)) => {
                &&& post.takers_offered_tokens_account.amount
                    == pre.takers_offered_tokens_account.amount + esc.vault.amount
                &&& post.taker_wanted_token_account.amount + post.initializers_wanted_token_account.amount
                    == pre.taker_wanted_token_account.amount
                        + pre.initializers_wanted_token_account.amount
                &&& post.taker_wanted_token_account.amount
                    == pre.taker_wanted_token_account.amount - esc.offer.wanted_amount
                &&& post.initializers_wanted_token_account.amount
                    == pre.initializers_wanted_token_account.amount + esc.offer.wanted_amount
            },
            _ => true,
        },
{
}

/// Supply conservation across cancel: on success the vault's whole balance —
/// all of it, and nothing else — lands back in the initializer's holding
/// account, so a cancelled escrow restores the offered asset exactly.
pub proof fn lemma_cancel_conserves_supply(pre: CancelEscrow)
    ensures
        match (cancel_outcome(pre), pre.offer) {
            (Ok(post), Some(esc)) => post.initializers_offered_tokens_account.amount
                == pre.initializers_offered_tokens_account.amount + esc.vault.amount,
            _ => true,
        },
{
}

/// Authorization: for every pair of identities, a cancel whose caller is not
/// the offer's initializer fails with `UnauthorizationError` — and, by
/// `cancel_escrow`'s contract, leaves the offer, the vault and every balance
/// unchanged.
pub proof fn lemma_cancel_requires_initializer(pre: CancelEscrow)
    requires
        pre.offer matches Some(esc) && pre.initializer != esc.offer.initializer,
    ensures
        cancel_outcome(pre) == Err::<CancelEscrow, EscrowError>(EscrowError::UnauthorizationError),
{
}

/// Type safety: an accept whose accounts violate any of the three asset-type
/// constraints — the initializer's receiving account must hold the wanted
/// asset, the taker's paying account must hold the wanted asset, the taker's
/// receiving account must hold the vault's asset — fails with `MintError`,
/// for every mismatched combination, and by `accept_escrow`'s contract no
/// transfer occurs.
pub proof fn lemma_accept_requires_matching_mints(pre: AcceptEscrow)
    requires
        pre.offer matches Some(esc) && pre.initializer == esc.offer.initializer,
        pre.offer matches Some(esc) ==> {
            ||| pre.initializers_wanted_token_account.mint != esc.offer.wanted_token_mint
            ||| pre.taker_wanted_token_account.mint != esc.offer.wanted_token_mint
            ||| pre.takers_offered_tokens_account.mint != esc.vault.mint
        },
    ensures
        accept_outcome(pre) == Err::<AcceptEscrow, EscrowError>(EscrowError::MintError),
{
}

/// Cancel undoes initialize exactly: after any successful initialize, a
/// cancel by the initializer, aimed at the slot just filled and refunding the
/// account just debited, always succeeds, restores that account to the exact
/// balance it held before the escrow was opened, and empties the slot.
pub proof fn lemma_cancel_undoes_initialize(
    pre: InitializeEscrow,
    offered_amount: u64,
    wanted_amount: u64,
)
    ensures
        match initialize_outcome(pre, offered_amount, wanted_amount) {
            Ok(post) => {
                let undo = CancelEscrow {
                    offer: post.offer,
                    initializer: pre.initializer,
                    initializers_offered_tokens_account: post.initializer_offered_tokens_account,
                };
                match cancel_outcome(undo) {
                    Ok(refunded) => {
                        &&& refunded.offer is None
                        &&& refunded.initializers_offered_tokens_account
                            == pre.initializer_offered_tokens_account
                    },
                    Err(_) => false,
                }
            },
            Err(_) => true,
        },
{
}

/// Mutual exclusion, first half: whichever of accept and cancel succeeds
/// first destroys the record and vault — the slot comes out empty.
pub proof fn lemma_resolution_empties_slot(acc: AcceptEscrow, can: CancelEscrow)
    ensures
        match accept_outcome(acc) {
            Ok(post) => post.offer is None,
            Err(_) => true,
        },
        match cancel_outcome(can) {
            Ok(post) => post.offer is None,
            Err(_) => true,
        },
{
}

/// Mutual exclusion, second half: once the slot is empty, every later accept
/// or cancel addressed to it fails with `OfferNotFound` — so after one
/// resolution succeeds, a second call to either transition on the same offer
/// fails and changes nothing.
pub proof fn lemma_empty_slot_rejects_resolution(acc: AcceptEscrow, can: CancelEscrow)
    requires
        acc.offer is None,
        can.offer is None,
    ensures
        accept_outcome(acc) == Err::<AcceptEscrow, EscrowError>(EscrowError::OfferNotFound),
        cancel_outcome(can) == Err::<CancelEscrow, EscrowError>(EscrowError::OfferNotFound),
{
}

} // verus!
