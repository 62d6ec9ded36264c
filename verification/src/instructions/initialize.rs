//! Initialize: create a pool's configuration and the mint of its shares.
use vstd::prelude::*;

use crate::account::AccountView;
use crate::address::{address_eq, Address};
use crate::codec::{le_bytes_u16, le_bytes_u64, le_u16, le_u64, read_u16_le, read_u64_le};
use crate::error::{then, AmmError};
use crate::instructions::helper::{
    address_to_vec, require_program, require_signer, spec_require_program, spec_require_signer,
};
use crate::instructions::{config_signer_seeds, spec_config_signer_seeds};
use crate::runtime::{
    spec_system_program_id, spec_token_program_id, system_program_id, token_program_id,
};
use crate::state::{AmmState, Config, ConfigMut, FEE_AT, FEE_LIMIT_BPS};
use crate::token::{copy_address_at, Mint};

verus! {

/// Positions of the initialization's accounts in the instruction's account
/// list.
pub const INITIALIZER: usize = 0;
pub const MINT_LP: usize = 1;
pub const CONFIG: usize = 2;
pub const SYSTEM_PROGRAM: usize = 3;
pub const TOKEN_PROGRAM: usize = 4;

/// The accounts of an initialization.
pub struct InitializeAccounts<'a> {
    /// The initializer, who signs and pays for the new accounts.
    pub initializer: &'a AccountView,
    /// The mint of the pool shares, to create.
    pub mint_lp: &'a AccountView,
    /// The pool's configuration, to create.
    pub config: &'a AccountView,
    /// The system program.
    pub system_program: &'a AccountView,
    /// The token program.
    pub token_program: &'a AccountView,
}

impl<'a> InitializeAccounts<'a> {
    /// Takes the initialization's accounts from the instruction's account list,
    /// in order; fewer than five accounts are refused.
    pub fn try_from(accounts: &'a [AccountView]) -> (r: Result<InitializeAccounts<'a>, AmmError>)
        ensures
            accounts@.len() < 5 ==> r == Err::<InitializeAccounts<'a>, AmmError>(
                AmmError::NotEnoughAccountKeys,
            ),
            accounts@.len() >= 5 ==> (r matches Ok(a) && a.is_taken_from(accounts@)),
    {
        if accounts.len() < 5 {
            return Err(AmmError::NotEnoughAccountKeys);
        }
        Ok(InitializeAccounts {
            initializer: &accounts[INITIALIZER],
            mint_lp: &accounts[MINT_LP],
            config: &accounts[CONFIG],
            system_program: &accounts[SYSTEM_PROGRAM],
            token_program: &accounts[TOKEN_PROGRAM],
        })
    }

    /// Whether each account is the one at its position in `accounts`.
    pub open spec fn is_taken_from(self, accounts: Seq<AccountView>) -> bool {
        &&& accounts.len() >= 5
        &&& *self.initializer == accounts[INITIALIZER as int]
        &&& *self.mint_lp == accounts[MINT_LP as int]
        &&& *self.config == accounts[CONFIG as int]
        &&& *self.system_program == accounts[SYSTEM_PROGRAM as int]
        &&& *self.token_program == accounts[TOKEN_PROGRAM as int]
    }
}

/// The arguments of an initialization.
pub struct InitializeInstructionData {
    /// The seed that tells this pool from others over the same mints.
    pub seed: u64,
    /// The fee, in basis points.
    pub fee: u16,
    /// The first mint of the pair.
    pub mint_x: [u8; 32],
    /// The second mint of the pair.
    pub mint_y: [u8; 32],
    /// The bump of the configuration address.
    pub config_bump: [u8; 1],
    /// The bump of the share mint's address.
    pub lp_bump: [u8; 1],
    /// The authority of the pool; all zero for a pool without one.
    pub authority: [u8; 32],
}

/// Whether `d` holds the arguments that `data` encodes: the seed
/// (little-endian, bytes 0..8), the fee (little-endian, 8..10), the mints
/// (10..42 and 42..74), the bumps (74 and 75), and the authority (76..108 when
/// the data has it, else all zero).
pub open spec fn initialize_data_matches(d: InitializeInstructionData, data: Seq<u8>) -> bool {
    &&& d.seed == le_u64(data.subrange(0, 8))
    &&& d.fee == le_u16(data.subrange(8, 10))
    &&& d.mint_x@ == data.subrange(10, 42)
    &&& d.mint_y@ == data.subrange(42, 74)
    &&& d.config_bump@ == data.subrange(74, 75)
    &&& d.lp_bump@ == data.subrange(75, 76)
    &&& if data.len() == InitializeInstructionData::LEN_WITH_AUTHORITY {
        d.authority@ == data.subrange(76, 108)
    } else {
        d.authority@ == Seq::new(32, |i: int| 0u8)
    }
}

impl InitializeInstructionData {
    /// The length of the arguments with an authority.
    pub const LEN_WITH_AUTHORITY: usize = 108;

    /// The length of the arguments without one.
    pub const LEN: usize = 76;

    /// Reads the arguments, from 108 bytes, or from 76 bytes for a pool
    /// without an authority; other lengths are refused.
    pub fn try_from(data: &[u8]) -> (r: Result<InitializeInstructionData, AmmError>)
        ensures
            data@.len() != Self::LEN_WITH_AUTHORITY && data@.len() != Self::LEN ==> r == Err::<
                InitializeInstructionData,
                AmmError,
            >(AmmError::InvalidInstructionData),
            data@.len() == Self::LEN_WITH_AUTHORITY || data@.len() == Self::LEN ==> (r matches Ok(
                d,
            ) && initialize_data_matches(d, data@)),
    {
        let n: usize = data.len();
        if n != Self::LEN_WITH_AUTHORITY && n != Self::LEN {
            return Err(AmmError::InvalidInstructionData);
        }
        let seed: u64 = read_u64_le(data, 0);
        let fee: u16 = read_u16_le(data, 8);
        let mint_x: [u8; 32] = copy_address_at(data, 10);
        let mint_y: [u8; 32] = copy_address_at(data, 42);
        let config_bump: [u8; 1] = [data[74]];
        let lp_bump: [u8; 1] = [data[75]];
        assert(config_bump@ =~= data@.subrange(74, 75));
        assert(lp_bump@ =~= data@.subrange(75, 76));
        let authority: [u8; 32] = if n == Self::LEN_WITH_AUTHORITY {
            copy_address_at(data, 76)
        } else {
            let zero: [u8; 32] = [0u8; 32];
            assert(zero@ =~= Seq::new(32, |i: int| 0u8));
            zero
        };
        Ok(InitializeInstructionData { seed, fee, mint_x, mint_y, config_bump, lp_bump, authority })
    }
}

/// An initialization, with its accounts and arguments.
pub struct Initialize<'a> {
    pub accounts: InitializeAccounts<'a>,
    pub instruction_data: InitializeInstructionData,
}

/// What an initialization does once its checks pass, in order:
/// 1. create the account at `config_account`, of `config_space` bytes and
///    owned by `config_owner`, paid by `payer` and signed with
///    `config_seeds`;
/// 2. write the configuration into it (`Initialize::write_config`);
/// 3. create the account at `mint_lp_account`, of `mint_lp_space` bytes and
///    owned by `mint_lp_owner`, paid by `payer` and signed with
///    `mint_lp_seeds`;
/// 4. set that mint up with `decimals` decimals, `mint_authority` as its mint
///    authority and `freeze_authority` as its freeze authority.
/// Accounts are named by their position in the instruction's account list.
pub struct InitializePlan {
    pub payer: usize,
    pub config_account: usize,
    pub config_owner: Address,
    pub config_seeds: Vec<Vec<u8>>,
    pub config_space: usize,
    pub mint_lp_account: usize,
    pub mint_lp_owner: Address,
    pub mint_lp_seeds: Vec<Vec<u8>>,
    pub mint_lp_space: usize,
    pub decimals: u8,
    pub mint_authority: Address,
    pub freeze_authority: Option<Address>,
}

/// The bytes of the word `mint_lp`, the first seed of a share mint's address.
pub open spec fn mint_lp_tag() -> Seq<u8> {
    seq![109u8, 105, 110, 116, 95, 108, 112]
}

/// What an initialization's checks give, in their order: the initializer
/// signed; the system and token programs are those programs; the two mints
/// differ.
pub open spec fn spec_initialize_check(a: InitializeAccounts, d: InitializeInstructionData) -> Result<
    (),
    AmmError,
> {
    then(
        spec_require_signer(a.initializer),
        then(
            spec_require_program(a.system_program, spec_system_program_id()),
            then(
                spec_require_program(a.token_program, spec_token_program_id()),
                if d.mint_x@ == d.mint_y@ {
                    Err(AmmError::InvalidInstructionData)
                } else {
                    Ok(())
                },
            ),
        ),
    )
}

impl<'a> Initialize<'a> {
    /// The first byte of an initialization's instruction data.
    pub const DISCRIMINATOR: u8 = 0;

    /// The decimals of the share mint.
    pub const LP_DECIMALS: u8 = 6;

    /// Whether `r` is what taking the initialization from `data` and
    /// `accounts` gives: too few accounts are refused first, then arguments of
    /// neither length; else the accounts in order and the arguments that the
    /// data encodes.
    pub open spec fn is_decoded(data: Seq<u8>, accounts: Seq<AccountView>, r: Result<Initialize<'a>, AmmError>) -> bool {
        if accounts.len() < 5 {
            r == Err::<Initialize<'a>, AmmError>(AmmError::NotEnoughAccountKeys)
        } else if data.len() != InitializeInstructionData::LEN_WITH_AUTHORITY && data.len()
            != InitializeInstructionData::LEN {
            r == Err::<Initialize<'a>, AmmError>(AmmError::InvalidInstructionData)
        } else {
            r matches Ok(i) && i.accounts.is_taken_from(accounts) && initialize_data_matches(
                i.instruction_data,
                data,
            )
        }
    }

    /// Takes the initialization's accounts, then its arguments.
    pub fn try_from(input: (&'a [u8], &'a [AccountView])) -> (r: Result<Initialize<'a>, AmmError>)
        ensures
            Self::is_decoded(input.0@, input.1@, r),
    {
        let (data, accounts) = input;
        let accounts: InitializeAccounts<'a> = InitializeAccounts::try_from(accounts)?;
        let instruction_data: InitializeInstructionData = InitializeInstructionData::try_from(data)?;
        Ok(Initialize { accounts, instruction_data })
    }

    /// Whether `r` is what the initialization's checks and plan give under
    /// `program_id`: the first failed check's error, else the plan that
    /// creates the configuration and the share mint.
    pub open spec fn is_processed(self, program_id: Seq<u8>, r: Result<InitializePlan, AmmError>) -> bool {
        match spec_initialize_check(self.accounts, self.instruction_data) {
                Err(e) => r == Err::<InitializePlan, AmmError>(e),
                Ok(_) => r matches Ok(plan) && plan.config_seeds.deep_view()
                    == spec_config_signer_seeds(
                    self.instruction_data.seed,
                    self.instruction_data.mint_x@,
                    self.instruction_data.mint_y@,
                    self.instruction_data.config_bump@[0],
                ) && plan.config_space == Config::LEN && plan.mint_lp_seeds.deep_view() == seq![
                    mint_lp_tag(),
                    self.accounts.config.address@,
                    self.instruction_data.lp_bump@,
                ] && plan.mint_lp_space == Mint::LEN && plan.decimals == Self::LP_DECIMALS
                    && plan.payer == INITIALIZER && plan.config_account == CONFIG
                    && plan.config_owner@ == program_id && plan.mint_lp_account == MINT_LP
                    && plan.mint_lp_owner@ == spec_token_program_id() && plan.mint_authority@
                    == self.accounts.config.address@ && plan.freeze_authority is None,
            }
    }

    /// Runs the initialization's checks and gives what it does next.
    pub fn process(&self, program_id: &Address) -> (r: Result<InitializePlan, AmmError>)
        ensures
            self.is_processed(program_id@, r),
    {
        let a: &InitializeAccounts = &self.accounts;
        let d: &InitializeInstructionData = &self.instruction_data;
        require_signer(a.initializer)?;
        let system_program: Address = system_program_id();
        require_program(a.system_program, &system_program)?;
        let token_program: Address = token_program_id();
        require_program(a.token_program, &token_program)?;
        if address_eq(&d.mint_x, &d.mint_y) {
            return Err(AmmError::InvalidInstructionData);
        }
        let config_seeds: Vec<Vec<u8>> = config_signer_seeds(
            d.seed,
            &d.mint_x,
            &d.mint_y,
            d.config_bump,
        );
        let mut mint_lp_seeds: Vec<Vec<u8>> = Vec::new();
        let tag: Vec<u8> = vec![109u8, 105, 110, 116, 95, 108, 112];
        mint_lp_seeds.push(tag);
        mint_lp_seeds.push(address_to_vec(&a.config.address));
        let bump: Vec<u8> = vec![d.lp_bump[0]];
        mint_lp_seeds.push(bump);
        proof {
            assert(mint_lp_seeds@[0].deep_view() =~= mint_lp_tag());
            assert(mint_lp_seeds@[1].deep_view() =~= a.config.address@);
            assert(mint_lp_seeds@[2].deep_view() =~= d.lp_bump@);
            assert(mint_lp_seeds.deep_view() =~= seq![
                mint_lp_tag(),
                a.config.address@,
                d.lp_bump@,
            ]);
        }
        Ok(InitializePlan {
            payer: INITIALIZER,
            config_account: CONFIG,
            config_owner: *program_id,
            config_seeds,
            config_space: Config::LEN,
            mint_lp_account: MINT_LP,
            mint_lp_owner: token_program,
            mint_lp_seeds,
            mint_lp_space: Mint::LEN,
            decimals: Self::LP_DECIMALS,
            mint_authority: a.config.address,
            freeze_authority: None,
        })
    }

    /// Writes the pool's configuration into its newly created account: opens
    /// it as `Config::load_mut` does and writes it whole with
    /// `ConfigMut::set_inner`. Only the account's data changes.
    pub fn write_config(&self, config_account: &mut AccountView, program_id: &Address) -> (r: Result<
        (),
        AmmError,
    >)
        ensures
            ({
                let d = self.instruction_data;
                let before = *old(config_account);
                let after = *final(config_account);
                let head = seq![AmmState::Initialized.spec_byte()] + le_bytes_u64(d.seed)
                    + d.authority@ + d.mint_x@ + d.mint_y@;
                if before.data@.len() != Config::LEN {
                    r == Err::<(), AmmError>(AmmError::InvalidAccountData) && after == before
                } else if before.owner@ != program_id@ {
                    r == Err::<(), AmmError>(AmmError::InvalidAccountOwner) && after == before
                } else {
                    &&& after == (AccountView { data: after.data, ..before })
                    &&& d.fee >= FEE_LIMIT_BPS ==> r == Err::<(), AmmError>(
                        AmmError::InvalidAccountData,
                    ) && after.data@ == head + before.data@.subrange(
                        FEE_AT as int,
                        Config::LEN as int,
                    )
                    &&& d.fee < FEE_LIMIT_BPS ==> r is Ok && after.data@ == head + le_bytes_u16(
                        d.fee,
                    ) + d.config_bump@
                }
            }),
    {
        let d: &InitializeInstructionData = &self.instruction_data;
        let mut config: ConfigMut = Config::load_mut(config_account, program_id)?;
        let r: Result<(), AmmError> = config.set_inner(
            d.seed,
            d.authority,
            d.mint_x,
            d.mint_y,
            d.fee,
            d.config_bump,
        );
        assert(config.data@.subrange(Config::LEN as int, config.data@.len() as int) =~= seq![]);
        assert(config.data@ =~= config.data@.subrange(0, Config::LEN as int));
        r
    }
}

} // verus!
