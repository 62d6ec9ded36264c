//! Account and argument checks that several instructions share.
use vstd::prelude::*;

use pinocchio::error::ProgramError;

use crate::account::AccountView;
use crate::address::{address_eq, Address};
use crate::error::AmmError;
use crate::runtime::{
    associated_token_program_id, clock_unix_timestamp, spec_associated_token_program_id,
    spec_try_find_program_address, try_find_program_address,
};

verus! {

/// What `require_signer` answers.
pub open spec fn spec_require_signer(account: &AccountView) -> Result<(), AmmError> {
    if account.is_signer {
        Ok(())
    } else {
        Err(AmmError::MissingRequiredSignature)
    }
}

/// Requires that the account signed the transaction.
pub fn require_signer(account: &AccountView) -> (r: Result<(), AmmError>)
    ensures
        r == spec_require_signer(account),
{
    if !account.is_signer {
        return Err(AmmError::MissingRequiredSignature);
    }
    Ok(())
}

/// What `require_program` answers.
pub open spec fn spec_require_program(
    program_account: &AccountView,
    expected_program_id: Seq<u8>,
) -> Result<(), AmmError> {
    if program_account.address@ == expected_program_id && program_account.executable {
        Ok(())
    } else {
        Err(AmmError::IncorrectProgramId)
    }
}

/// Requires that the account is the expected program: it has the expected
/// address and holds a program.
pub fn require_program(program_account: &AccountView, expected_program_id: &Address) -> (r: Result<
    (),
    AmmError,
>)
    ensures
        r == spec_require_program(program_account, expected_program_id@),
{
    if !address_eq(&program_account.address, expected_program_id) || !program_account.executable {
        return Err(AmmError::IncorrectProgramId);
    }
    Ok(())
}

/// What `require_non_zero` answers.
pub open spec fn spec_require_non_zero(values: Seq<u64>) -> Result<(), AmmError> {
    if values.contains(0u64) {
        Err(AmmError::InvalidInstructionData)
    } else {
        Ok(())
    }
}

/// Requires that none of the values is zero.
pub fn require_non_zero(values: &[u64]) -> (r: Result<(), AmmError>)
    ensures
        r == spec_require_non_zero(values@),
{
    let n: usize = values.len();
    let mut i: usize = 0;
    while i < n
        invariant
            0 <= i <= n,
            n == values@.len(),
            forall|j: int| 0 <= j < i ==> values@[j] != 0,
        decreases n - i,
    {
        if values[i] == 0 {
            assert(values@[i as int] == 0);
            return Err(AmmError::InvalidInstructionData);
        }
        i = i + 1;
    }
    assert(!values@.contains(0u64));
    Ok(())
}

/// What the expiry check answers for the time that the clock gave.
pub open spec fn spec_check_not_expired(expiration: i64, clock: Result<i64, ProgramError>) -> Result<
    (),
    AmmError,
> {
    match clock {
        Err(e) => Err(AmmError::Runtime(e)),
        Ok(now) => if now > expiration {
            Err(AmmError::InvalidArgument)
        } else {
            Ok(())
        },
    }
}

/// Requires that an order has not expired at the time that the clock gave:
/// the time may not be later than the expiration; a clock error is passed on.
pub fn check_not_expired(expiration: i64, clock: Result<i64, ProgramError>) -> (r: Result<
    (),
    AmmError,
>)
    ensures
        r == spec_check_not_expired(expiration, clock),
{
    match clock {
        Err(e) => Err(AmmError::Runtime(e)),
        Ok(now) => {
            if now > expiration {
                return Err(AmmError::InvalidArgument);
            }
            Ok(())
        },
    }
}

/// Requires that an order has not expired at the current time of the runtime.
pub fn require_not_expired(expiration: i64) -> (r: Result<(), AmmError>)
    ensures
        exists|clock: Result<i64, ProgramError>| r == spec_check_not_expired(expiration, clock),
{
    let clock: Result<i64, ProgramError> = clock_unix_timestamp();
    let ghost g: Result<i64, ProgramError> = clock;
    let r: Result<(), AmmError> = check_not_expired(expiration, clock);
    assert(r == spec_check_not_expired(expiration, g));
    r
}

/// The seeds of the associated token account of `wallet` for `mint`: the
/// wallet, the token program, the mint.
pub open spec fn associated_token_seeds(
    wallet: Seq<u8>,
    token_program: Seq<u8>,
    mint: Seq<u8>,
) -> Seq<Seq<u8>> {
    seq![wallet, token_program, mint]
}

/// What `verify_vault_ata` answers.
pub open spec fn spec_verify_vault_ata(
    account: &AccountView,
    owner: &AccountView,
    token_program: &AccountView,
    mint: Seq<u8>,
) -> Result<(), AmmError> {
    match spec_try_find_program_address(
        associated_token_seeds(owner.address@, token_program.address@, mint),
        spec_associated_token_program_id(),
    ) {
        None => Err(AmmError::InvalidSeeds),
        Some((expected, _bump)) => if account.address@ == expected {
            Ok(())
        } else {
            Err(AmmError::InvalidAccountData)
        },
    }
}

/// Requires that `account` is the associated token account that `owner` holds
/// for `mint` under `token_program`: the address derived from those three
/// under the associated token account program.
pub fn verify_vault_ata(
    account: &AccountView,
    owner: &AccountView,
    token_program: &AccountView,
    mint: &Address,
) -> (r: Result<(), AmmError>)
    ensures
        r == spec_verify_vault_ata(account, owner, token_program, mint@),
{
    let mut seeds: Vec<Vec<u8>> = Vec::new();
    seeds.push(address_to_vec(&owner.address));
    seeds.push(address_to_vec(&token_program.address));
    seeds.push(address_to_vec(mint));
    assert(seeds@[0].deep_view() =~= owner.address@);
    assert(seeds@[1].deep_view() =~= token_program.address@);
    assert(seeds@[2].deep_view() =~= mint@);
    assert(seeds.deep_view() =~= associated_token_seeds(
        owner.address@,
        token_program.address@,
        mint@,
    ));
    let ata_program: Address = associated_token_program_id();
    match try_find_program_address(&seeds, &ata_program) {
        None => Err(AmmError::InvalidSeeds),
        Some((expected, _bump)) => {
            if !address_eq(&account.address, &expected) {
                return Err(AmmError::InvalidAccountData);
            }
            Ok(())
        },
    }
}

/// The bytes of an address, as a vector.
pub fn address_to_vec(a: &Address) -> (r: Vec<u8>)
    ensures
        r@ == a@,
{
    let mut out: Vec<u8> = Vec::new();
    let mut i: usize = 0;
    while i < 32
        invariant
            0 <= i <= 32,
            a@.len() == 32,
            out@ =~= a@.subrange(0, i as int),
        decreases 32 - i,
    {
        out.push(a[i]);
        i = i + 1;
    }
    assert(a@.subrange(0, 32) =~= a@);
    out
}

} // verus!
