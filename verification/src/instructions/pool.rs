//! The pool state that deposits, withdrawals and swaps read and check.
use vstd::prelude::*;

use crate::account::AccountView;
use crate::address::{address_eq, Address};
use crate::error::AmmError;
use crate::token::{spec_mint, spec_token_account, Mint, TokenAccount};

verus! {

/// What `read_lp_supply` answers.
pub open spec fn spec_read_lp_supply(mint_lp: &AccountView, config: Seq<u8>) -> Result<u64, AmmError> {
    match spec_mint(mint_lp) {
        Err(e) => Err(e),
        Ok(m) => if m.mint_authority != Some(config) {
            Err(AmmError::InvalidAccountData)
        } else {
            Ok(m.supply)
        },
    }
}

/// Reads the supply of the pool shares, after checking that the configuration
/// is the mint's authority.
pub fn read_lp_supply(mint_lp: &AccountView, config: &Address) -> (r: Result<u64, AmmError>)
    ensures
        r == spec_read_lp_supply(mint_lp, config@),
{
    let mint: Mint = Mint::from_account_view_unchecked(mint_lp)?;
    match mint.mint_authority {
        None => Err(AmmError::InvalidAccountData),
        Some(authority) => {
            if !address_eq(&authority, config) {
                return Err(AmmError::InvalidAccountData);
            }
            Ok(mint.supply)
        },
    }
}

/// What `read_vaults` answers.
pub open spec fn spec_read_vaults(
    vault_x: &AccountView,
    vault_y: &AccountView,
    config: Seq<u8>,
    mint_x: Seq<u8>,
    mint_y: Seq<u8>,
) -> Result<(u64, u64), AmmError> {
    match spec_token_account(vault_x) {
        Err(e) => Err(e),
        Ok(tx) => match spec_token_account(vault_y) {
            Err(e) => Err(e),
            Ok(ty) => if tx.owner != config || ty.owner != config || tx.mint != mint_x || ty.mint
                != mint_y {
                Err(AmmError::InvalidAccountData)
            } else {
                Ok((tx.amount, ty.amount))
            },
        },
    }
}

/// Reads the balances of the two vaults, after checking that the configuration
/// holds both and that they hold the pool's two mints.
pub fn read_vaults(
    vault_x: &AccountView,
    vault_y: &AccountView,
    config: &Address,
    mint_x: &Address,
    mint_y: &Address,
) -> (r: Result<(u64, u64), AmmError>)
    ensures
        r == spec_read_vaults(vault_x, vault_y, config@, mint_x@, mint_y@),
{
    let tx: TokenAccount = TokenAccount::from_account_view_unchecked(vault_x)?;
    let ty: TokenAccount = TokenAccount::from_account_view_unchecked(vault_y)?;
    if !address_eq(&tx.owner, config) || !address_eq(&ty.owner, config) || !address_eq(
        &tx.mint,
        mint_x,
    ) || !address_eq(&ty.mint, mint_y) {
        return Err(AmmError::InvalidAccountData);
    }
    Ok((tx.amount, ty.amount))
}

/// What `check_user_pair` answers.
pub open spec fn spec_check_user_pair(
    user_x: &AccountView,
    user_y: &AccountView,
    user: Seq<u8>,
    mint_x: Seq<u8>,
    mint_y: Seq<u8>,
) -> Result<(), AmmError> {
    match spec_token_account(user_x) {
        Err(e) => Err(e),
        Ok(tx) => match spec_token_account(user_y) {
            Err(e) => Err(e),
            Ok(ty) => if tx.owner != user || ty.owner != user || tx.mint != mint_x || ty.mint
                != mint_y {
                Err(AmmError::InvalidAccountData)
            } else {
                Ok(())
            },
        },
    }
}

/// Checks that the user holds its two token accounts and that they hold the
/// pool's two mints.
pub fn check_user_pair(
    user_x: &AccountView,
    user_y: &AccountView,
    user: &Address,
    mint_x: &Address,
    mint_y: &Address,
) -> (r: Result<(), AmmError>)
    ensures
        r == spec_check_user_pair(user_x, user_y, user@, mint_x@, mint_y@),
{
    let tx: TokenAccount = TokenAccount::from_account_view_unchecked(user_x)?;
    let ty: TokenAccount = TokenAccount::from_account_view_unchecked(user_y)?;
    if !address_eq(&tx.owner, user) || !address_eq(&ty.owner, user) || !address_eq(
        &tx.mint,
        mint_x,
    ) || !address_eq(&ty.mint, mint_y) {
        return Err(AmmError::InvalidAccountData);
    }
    Ok(())
}

/// What `check_user_accounts` answers.
pub open spec fn spec_check_user_accounts(
    user_x: &AccountView,
    user_y: &AccountView,
    user_lp: &AccountView,
    user: Seq<u8>,
    mint_x: Seq<u8>,
    mint_y: Seq<u8>,
    mint_lp: Seq<u8>,
) -> Result<(), AmmError> {
    match spec_token_account(user_x) {
        Err(e) => Err(e),
        Ok(tx) => match spec_token_account(user_y) {
            Err(e) => Err(e),
            Ok(ty) => match spec_token_account(user_lp) {
                Err(e) => Err(e),
                Ok(tl) => if tx.owner != user || ty.owner != user || tl.owner != user || tx.mint
                    != mint_x || ty.mint != mint_y || tl.mint != mint_lp {
                    Err(AmmError::InvalidAccountData)
                } else {
                    Ok(())
                },
            },
        },
    }
}

/// Checks that the user holds its three token accounts and that they hold the
/// pool's two mints and the pool shares.
pub fn check_user_accounts(
    user_x: &AccountView,
    user_y: &AccountView,
    user_lp: &AccountView,
    user: &Address,
    mint_x: &Address,
    mint_y: &Address,
    mint_lp: &Address,
) -> (r: Result<(), AmmError>)
    ensures
        r == spec_check_user_accounts(user_x, user_y, user_lp, user@, mint_x@, mint_y@, mint_lp@),
{
    let tx: TokenAccount = TokenAccount::from_account_view_unchecked(user_x)?;
    let ty: TokenAccount = TokenAccount::from_account_view_unchecked(user_y)?;
    let tl: TokenAccount = TokenAccount::from_account_view_unchecked(user_lp)?;
    if !address_eq(&tx.owner, user) || !address_eq(&ty.owner, user) || !address_eq(&tl.owner, user)
        || !address_eq(&tx.mint, mint_x) || !address_eq(&ty.mint, mint_y) || !address_eq(
        &tl.mint,
        mint_lp,
    ) {
        return Err(AmmError::InvalidAccountData);
    }
    Ok(())
}

} // verus!
