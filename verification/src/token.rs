//! The token program's account layouts, as far as the pool reads them.
//!
//! `pinocchio_token` reads these layouts in place, through `unsafe` casts of the
//! account data; what it does is short enough to state, so it is written here
//! over the bytes and proved against that statement.
use vstd::prelude::*;

use crate::account::AccountView;
use crate::address::Address;
use crate::codec::{le_u64, read_u64_le};
use crate::error::{result_view, AmmError};
use crate::runtime::{spec_token_program_id, token_program_id};

verus! {

/// The holder, mint and balance of a token account.
pub struct TokenAccount {
    pub mint: Address,
    pub owner: Address,
    pub amount: u64,
}

/// The mint authority and supply of a mint.
pub struct Mint {
    pub mint_authority: Option<Address>,
    pub supply: u64,
}

/// The mathematical value of a token account: holder, mint and balance.
pub struct TokenAccountModel {
    pub mint: Seq<u8>,
    pub owner: Seq<u8>,
    pub amount: u64,
}

impl View for TokenAccount {
    type V = TokenAccountModel;

    open spec fn view(&self) -> TokenAccountModel {
        TokenAccountModel { mint: self.mint@, owner: self.owner@, amount: self.amount }
    }
}

/// The mathematical value of a mint: its mint authority, if any, and supply.
pub struct MintModel {
    pub mint_authority: Option<Seq<u8>>,
    pub supply: u64,
}

impl View for Mint {
    type V = MintModel;

    open spec fn view(&self) -> MintModel {
        MintModel {
            mint_authority: match self.mint_authority {
                Some(a) => Some(a@),
                None => None,
            },
            supply: self.supply,
        }
    }
}

/// What reading the token account `account_view` gives: an error unless the
/// data has a token account's length and the token program owns it, else the
/// mint (bytes 0..32), holder (32..64) and balance (little-endian, 64..72)
/// that the data holds.
pub open spec fn spec_token_account(account_view: &AccountView) -> Result<TokenAccountModel, AmmError> {
    let d = account_view.data@;
    if d.len() != TokenAccount::LEN || account_view.owner@ != spec_token_program_id() {
        Err(AmmError::InvalidAccountData)
    } else {
        Ok(
            TokenAccountModel {
                mint: d.subrange(0, 32),
                owner: d.subrange(32, 64),
                amount: le_u64(d.subrange(64, 72)) as u64,
            },
        )
    }
}

/// What reading the mint `account_view` gives: an error when the data has not
/// a mint's length, another when the token program does not own it, else the
/// mint authority (bytes 4..36, present when byte 0 is 1) and the supply
/// (little-endian, 36..44) that the data holds.
pub open spec fn spec_mint(account_view: &AccountView) -> Result<MintModel, AmmError> {
    let d = account_view.data@;
    if d.len() != Mint::LEN {
        Err(AmmError::InvalidAccountData)
    } else if account_view.owner@ != spec_token_program_id() {
        Err(AmmError::InvalidAccountOwner)
    } else {
        Ok(
            MintModel {
                mint_authority: if d[0] == 1 {
                    Some(d.subrange(4, 36))
                } else {
                    None
                },
                supply: le_u64(d.subrange(36, 44)) as u64,
            },
        )
    }
}

impl TokenAccount {
    /// The length of a token account's data.
    pub const LEN: usize = 165;

    /// Reads a token account, after checking the length of its data and that
    /// the token program owns it.
    pub fn from_account_view_unchecked(account_view: &AccountView) -> (r: Result<
        TokenAccount,
        AmmError,
    >)
        ensures
            result_view(r) == spec_token_account(account_view),
    {
        if account_view.data_len() != Self::LEN {
            return Err(AmmError::InvalidAccountData);
        }
        let token_program: Address = token_program_id();
        if !account_view.owned_by(&token_program) {
            return Err(AmmError::InvalidAccountData);
        }
        let d: &[u8] = account_view.data.as_slice();
        proof {
            crate::codec::lemma_le_bytes_of_u64(d@.subrange(64, 72));
        }
        let mint: Address = copy_address_at(d, 0);
        let owner: Address = copy_address_at(d, 32);
        let amount: u64 = read_u64_le(d, 64);
        Ok(TokenAccount { mint, owner, amount })
    }
}

impl Mint {
    /// The length of a mint's data.
    pub const LEN: usize = 82;

    /// Reads a mint, after checking the length of its data and that the token
    /// program owns it.
    pub fn from_account_view_unchecked(account_view: &AccountView) -> (r: Result<Mint, AmmError>)
        ensures
            result_view(r) == spec_mint(account_view),
    {
        if account_view.data_len() != Self::LEN {
            return Err(AmmError::InvalidAccountData);
        }
        let token_program: Address = token_program_id();
        if !account_view.owned_by(&token_program) {
            return Err(AmmError::InvalidAccountOwner);
        }
        let d: &[u8] = account_view.data.as_slice();
        proof {
            crate::codec::lemma_le_bytes_of_u64(d@.subrange(36, 44));
        }
        let mint_authority: Option<Address> = if d[0] == 1 {
            Some(copy_address_at(d, 4))
        } else {
            None
        };
        let supply: u64 = read_u64_le(d, 36);
        Ok(Mint { mint_authority, supply })
    }
}

/// Copies the 32 bytes at `at` of `bytes` into an address.
pub fn copy_address_at(bytes: &[u8], at: usize) -> (r: Address)
    requires
        at + 32 <= bytes@.len(),
    ensures
        r@ == bytes@.subrange(at as int, at + 32),
{
    let n: usize = bytes.len();
    let mut a: Address = [0u8; 32];
    let mut i: usize = 0;
    while i < 32
        invariant
            0 <= i <= 32,
            n == bytes@.len(),
            at + 32 <= bytes@.len(),
            a@.len() == 32,
            forall|j: int| 0 <= j < i ==> a@[j] == bytes@[at + j],
        decreases 32 - i,
    {
        a[i] = bytes[at + i];
        i = i + 1;
    }
    assert(a@ =~= bytes@.subrange(at as int, at + 32));
    a
}

} // verus!
