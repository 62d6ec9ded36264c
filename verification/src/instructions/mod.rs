//! The pool's instructions, the checks that they share, and the token
//! program calls that they end with.
use vstd::prelude::*;

use crate::address::Address;
use crate::codec::{le_bytes_u64, u64_to_le};
use crate::instructions::helper::address_to_vec;

pub mod deposit;
pub mod helper;
pub mod initialize;
pub mod pool;
pub mod swap;
pub mod withdraw;

verus! {

/// A call of the token program, over accounts named by their position in the
/// instruction's account list.
#[derive(Debug, PartialEq, Eq, Clone, Copy)]
pub enum TokenInstruction {
    /// Move `amount` tokens from `from` to `to`, with the consent of `authority`.
    Transfer { from: usize, to: usize, authority: usize, amount: u64 },
    /// Mint `amount` tokens of `mint` into `account`, with the consent of
    /// `mint_authority`.
    MintTo { mint: usize, account: usize, mint_authority: usize, amount: u64 },
    /// Burn `amount` tokens of `mint` from `account`, with the consent of
    /// `authority`.
    Burn { account: usize, mint: usize, authority: usize, amount: u64 },
}

/// A token program call, and whether the pool's configuration signs it with
/// the seeds of its address.
#[derive(Debug, PartialEq, Eq, Clone, Copy)]
pub struct Invocation {
    pub instruction: TokenInstruction,
    pub signed_by_config: bool,
}

/// The token program calls that finish an instruction, in order, and the
/// seeds with which the configuration signs those that it signs.
pub struct TokenPlan {
    pub invocations: Vec<Invocation>,
    pub signer_seeds: Vec<Vec<u8>>,
}

/// The bytes of the word `config`, the first seed of a configuration address.
pub open spec fn config_tag() -> Seq<u8> {
    seq![99u8, 111, 110, 102, 105, 103]
}

/// The seeds of a pool's configuration address: `config`, the seed
/// (little-endian), the two mints and the bump.
pub open spec fn spec_config_signer_seeds(
    seed: u64,
    mint_x: Seq<u8>,
    mint_y: Seq<u8>,
    config_bump: u8,
) -> Seq<Seq<u8>> {
    seq![config_tag(), le_bytes_u64(seed), mint_x, mint_y, seq![config_bump]]
}

/// The seeds of a pool's configuration address.
pub fn config_signer_seeds(seed: u64, mint_x: &Address, mint_y: &Address, config_bump: [u8; 1]) -> (r:
    Vec<Vec<u8>>)
    ensures
        r.deep_view() == spec_config_signer_seeds(seed, mint_x@, mint_y@, config_bump@[0]),
{
    let mut seeds: Vec<Vec<u8>> = Vec::new();
    let tag: Vec<u8> = vec![99u8, 111, 110, 102, 105, 103];
    seeds.push(tag);
    let seed_bytes: [u8; 8] = u64_to_le(seed);
    let mut seed_vec: Vec<u8> = Vec::new();
    let mut i: usize = 0;
    while i < 8
        invariant
            0 <= i <= 8,
            seed_bytes@.len() == 8,
            seed_vec@ =~= seed_bytes@.subrange(0, i as int),
        decreases 8 - i,
    {
        seed_vec.push(seed_bytes[i]);
        i = i + 1;
    }
    assert(seed_bytes@.subrange(0, 8) =~= seed_bytes@);
    seeds.push(seed_vec);
    seeds.push(address_to_vec(mint_x));
    seeds.push(address_to_vec(mint_y));
    let bump_vec: Vec<u8> = vec![config_bump[0]];
    seeds.push(bump_vec);
    proof {
        assert(seeds@[0].deep_view() =~= config_tag());
        assert(seeds@[1].deep_view() =~= le_bytes_u64(seed));
        assert(seeds@[2].deep_view() =~= mint_x@);
        assert(seeds@[3].deep_view() =~= mint_y@);
        assert(seeds@[4].deep_view() =~= seq![config_bump@[0]]);
        assert(seeds.deep_view() =~= spec_config_signer_seeds(
            seed,
            mint_x@,
            mint_y@,
            config_bump@[0],
        ));
    }
    seeds
}

} // verus!
