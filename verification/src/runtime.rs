//! The services of the Solana runtime and of the token programs that the
//! program relies on: the program addresses, program-derived addresses and
//! the clock. Each item here is trusted: its contract is taken from the source
//! of the crate that it calls, and is not proved.
use vstd::prelude::*;

use pinocchio::error::ProgramError;
use pinocchio::sysvars::{clock::Clock, Sysvar};

use crate::address::Address;

verus! {

/// The error type of the Solana runtime, carried through as it is.
#[verifier::external_type_specification]
#[verifier::external_body]
pub struct ExProgramError(ProgramError);

/// The address of the token program.
pub open spec fn spec_token_program_id() -> Seq<u8> {
    seq![6u8, 221, 246, 225, 215, 101, 161, 147, 217, 203, 225, 70, 206, 235, 121, 172, 28, 180, 133, 237, 95, 91, 55, 145, 58, 140, 245, 133, 126, 255, 0, 169]
}

/// The address of the system program: all zero.
pub open spec fn spec_system_program_id() -> Seq<u8> {
    Seq::new(32, |i: int| 0u8)
}

/// The address of the associated token account program.
pub open spec fn spec_associated_token_program_id() -> Seq<u8> {
    seq![140u8, 151, 37, 143, 78, 36, 137, 241, 187, 61, 16, 41, 20, 142, 13, 131, 11, 90, 19, 153, 218, 255, 16, 132, 4, 142, 123, 216, 219, 233, 248, 89]
}

/// `pinocchio_token::ID`, which `declare_id!` sets to the address
/// `TokenkegQfeZyiNwAJbNbGKPFXCWuBvf9Ss623VQ5DA`: the contract states those
/// 32 bytes.
#[verifier::external_body]
pub(crate) fn token_program_id() -> (r: Address)
    ensures
        r@ == spec_token_program_id(),
{
    pinocchio_token::ID.to_bytes()
}

/// `pinocchio_system::ID`, which `declare_id!` sets to the address
/// `11111111111111111111111111111111`: the contract states its 32 zero bytes.
#[verifier::external_body]
pub(crate) fn system_program_id() -> (r: Address)
    ensures
        r@ == spec_system_program_id(),
{
    pinocchio_system::ID.to_bytes()
}

/// `pinocchio_associated_token_account::ID`, which `declare_id!` sets to the
/// address `ATokenGPvbdGVxr1b2hvZbsiqW5xWH25efTNsLJA8knL`: the contract states
/// those 32 bytes.
#[verifier::external_body]
pub(crate) fn associated_token_program_id() -> (r: Address)
    ensures
        r@ == spec_associated_token_program_id(),
{
    pinocchio_associated_token_account::ID.to_bytes()
}

/// The program-derived address and bump that
/// `Address::try_find_program_address` finds for `seeds` under `program_id`,
/// or `None` when it finds none. It hashes the seeds with each bump from 255
/// down and keeps the first result that lies off the ed25519 curve, a
/// function of its arguments alone.
pub uninterp spec fn spec_try_find_program_address(seeds: Seq<Seq<u8>>, program_id: Seq<u8>) -> Option<
    (Seq<u8>, u8),
>;

/// `solana_address::Address::try_find_program_address`: its result is the
/// named one above, taken on the seeds and the program address. It does not
/// panic: it answers `None` for sixteen seeds or more, for a seed longer than
/// 32 bytes, and when no bump gives an address off the curve.
#[verifier::external_body]
pub(crate) fn try_find_program_address(seeds: &Vec<Vec<u8>>, program_id: &Address) -> (r: Option<
    (Address, u8),
>)
    ensures
        r matches Some((a, bump)) ==> spec_try_find_program_address(seeds.deep_view(), program_id@)
            == Some((a@, bump)),
        r is None ==> spec_try_find_program_address(seeds.deep_view(), program_id@) is None,
{
    let refs: Vec<&[u8]> = seeds.iter().map(|seed| seed.as_slice()).collect();
    let program: pinocchio::Address = pinocchio::Address::new_from_array(*program_id);
    match pinocchio::Address::try_find_program_address(&refs, &program) {
        Some((address, bump)) => Some((address.to_bytes(), bump)),
        None => None,
    }
}

/// `Clock::get` of pinocchio, taking the `unix_timestamp` field of the clock.
/// The time is the runtime's and nothing is stated of it; off the chain the
/// call answers an error.
#[verifier::external_body]
pub(crate) fn clock_unix_timestamp() -> (r: Result<i64, ProgramError>)
{
    Clock::get().map(|clock| clock.unix_timestamp)
}

} // verus!
