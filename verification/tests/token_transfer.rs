use barca::error::EscrowError;
use barca::state::TokenAccount;
use barca::token::transfer;

#[test]
fn transfer_moves_exact_amount() {
    let mut from = TokenAccount { mint: 3, amount: 75 };
    let mut to = TokenAccount { mint: 3, amount: 11 };
    assert_eq!(transfer(&mut from, &mut to, 40), Ok(()));
    assert_eq!(from.amount, 35);
    assert_eq!(to.amount, 51);
    assert_eq!(from.mint, 3);
    assert_eq!(to.mint, 3);
}

#[test]
fn transfer_rejects_mismatched_mints() {
    let mut from = TokenAccount { mint: 3, amount: 75 };
    let mut to = TokenAccount { mint: 4, amount: 11 };
    assert_eq!(transfer(&mut from, &mut to, 40), Err(EscrowError::MintError));
    assert_eq!(from, TokenAccount { mint: 3, amount: 75 });
    assert_eq!(to, TokenAccount { mint: 4, amount: 11 });
}

#[test]
fn transfer_rejects_short_source() {
    let mut from = TokenAccount { mint: 3, amount: 39 };
    let mut to = TokenAccount { mint: 3, amount: 11 };
    assert_eq!(transfer(&mut from, &mut to, 40), Err(EscrowError::InsufficientFunds));
    assert_eq!(from.amount, 39);
    assert_eq!(to.amount, 11);
}

#[test]
fn transfer_rejects_overflowing_destination() {
    let mut from = TokenAccount { mint: 3, amount: 75 };
    let mut to = TokenAccount { mint: 3, amount: u64::MAX - 39 };
    assert_eq!(transfer(&mut from, &mut to, 40), Err(EscrowError::AmountOverflow));
    assert_eq!(from.amount, 75);
    assert_eq!(to.amount, u64::MAX - 39);
}

#[test]
fn transfer_of_zero_is_a_no_op() {
    let mut from = TokenAccount { mint: 3, amount: 75 };
    let mut to = TokenAccount { mint: 3, amount: 11 };
    assert_eq!(transfer(&mut from, &mut to, 0), Ok(()));
    assert_eq!(from.amount, 75);
    assert_eq!(to.amount, 11);
}

#[test]
fn transfer_drains_source_exactly_at_balance() {
    let mut from = TokenAccount { mint: 3, amount: 40 };
    let mut to = TokenAccount { mint: 3, amount: 0 };
    assert_eq!(transfer(&mut from, &mut to, 40), Ok(()));
    assert_eq!(from.amount, 0);
    assert_eq!(to.amount, 40);
}
