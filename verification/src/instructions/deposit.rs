//! Deposit: add both tokens to the pool in proportion and receive pool shares.
use vstd::prelude::*;

use pinocchio::error::ProgramError;

use crate::account::AccountView;
use crate::address::Address;
use crate::codec::{le_i64, le_u64, read_i64_le, read_u64_le};
use crate::error::{result_view, then, AmmError};
use crate::instructions::helper::{
    check_not_expired, require_non_zero, require_program, require_signer, spec_check_not_expired,
    spec_require_non_zero, spec_require_program, spec_require_signer, spec_verify_vault_ata,
    verify_vault_ata,
};
use crate::instructions::pool::{
    check_user_accounts, read_lp_supply, read_vaults, spec_check_user_accounts,
    spec_read_lp_supply, spec_read_vaults,
};
use crate::instructions::{
    config_signer_seeds, spec_config_signer_seeds, Invocation, TokenInstruction, TokenPlan,
};
use crate::runtime::{clock_unix_timestamp, spec_token_program_id, token_program_id};
use crate::state::{config_bump_byte, config_mint_x, config_mint_y, config_seed, config_state, AmmState, Config};

verus! {

/// Positions of the deposit's accounts in the instruction's account list.
pub const USER: usize = 0;
pub const MINT_LP: usize = 1;
pub const VAULT_X: usize = 2;
pub const VAULT_Y: usize = 3;
pub const USER_X_ATA: usize = 4;
pub const USER_Y_ATA: usize = 5;
pub const USER_LP_ATA: usize = 6;
pub const CONFIG: usize = 7;
pub const TOKEN_PROGRAM: usize = 8;

/// The accounts of a deposit.
pub struct DepositAccounts<'a> {
    /// The depositor, who signs.
    pub user: &'a AccountView,
    /// The mint of the pool shares.
    pub mint_lp: &'a AccountView,
    /// The pool's vault of the first token.
    pub vault_x: &'a AccountView,
    /// The pool's vault of the second token.
    pub vault_y: &'a AccountView,
    /// The depositor's account of the first token.
    pub user_x_ata: &'a AccountView,
    /// The depositor's account of the second token.
    pub user_y_ata: &'a AccountView,
    /// The depositor's account of pool shares.
    pub user_lp_ata: &'a AccountView,
    /// The pool's configuration.
    pub config: &'a AccountView,
    /// The token program.
    pub token_program: &'a AccountView,
}

impl<'a> DepositAccounts<'a> {
    /// Takes the deposit's accounts from the instruction's account list, in
    /// order; fewer than nine accounts are refused.
    pub fn try_from(accounts: &'a [AccountView]) -> (r: Result<DepositAccounts<'a>, AmmError>)
        ensures
            accounts@.len() < 9 ==> r == Err::<DepositAccounts<'a>, AmmError>(
                AmmError::NotEnoughAccountKeys,
            ),
            accounts@.len() >= 9 ==> (r matches Ok(a) && a.is_taken_from(accounts@)),
    {
        if accounts.len() < 9 {
            return Err(AmmError::NotEnoughAccountKeys);
        }
        Ok(DepositAccounts {
            user: &accounts[USER],
            mint_lp: &accounts[MINT_LP],
            vault_x: &accounts[VAULT_X],
            vault_y: &accounts[VAULT_Y],
            user_x_ata: &accounts[USER_X_ATA],
            user_y_ata: &accounts[USER_Y_ATA],
            user_lp_ata: &accounts[USER_LP_ATA],
            config: &accounts[CONFIG],
            token_program: &accounts[TOKEN_PROGRAM],
        })
    }

    /// Whether each account is the one at its position in `accounts`.
    pub open spec fn is_taken_from(self, accounts: Seq<AccountView>) -> bool {
        &&& accounts.len() >= 9
        &&& *self.user == accounts[USER as int]
        &&& *self.mint_lp == accounts[MINT_LP as int]
        &&& *self.vault_x == accounts[VAULT_X as int]
        &&& *self.vault_y == accounts[VAULT_Y as int]
        &&& *self.user_x_ata == accounts[USER_X_ATA as int]
        &&& *self.user_y_ata == accounts[USER_Y_ATA as int]
        &&& *self.user_lp_ata == accounts[USER_LP_ATA as int]
        &&& *self.config == accounts[CONFIG as int]
        &&& *self.token_program == accounts[TOKEN_PROGRAM as int]
    }
}

/// The arguments of a deposit.
pub struct DepositInstructionData {
    /// The pool shares to mint.
    pub amount: u64,
    /// The most of the first token that the depositor will pay.
    pub max_x: u64,
    /// The most of the second token that the depositor will pay.
    pub max_y: u64,
    /// The time (unix seconds) after which the order is void.
    pub expiration: i64,
}

impl DepositInstructionData {
    /// Whether these are the arguments that `data` encodes: the amount,
    /// `max_x` and `max_y` (little-endian, bytes 0..8, 8..16, 16..24) and the
    /// expiration (little-endian, signed, 24..32).
    pub open spec fn matches_bytes(self, data: Seq<u8>) -> bool {
        &&& self.amount == le_u64(data.subrange(0, 8))
        &&& self.max_x == le_u64(data.subrange(8, 16))
        &&& self.max_y == le_u64(data.subrange(16, 24))
        &&& self.expiration == le_i64(data.subrange(24, 32))
    }

    /// The length of a deposit's arguments.
    pub const LEN: usize = 32;

    /// Reads the arguments: four little-endian integers, the last signed, in
    /// exactly 32 bytes.
    pub fn try_from(data: &[u8]) -> (r: Result<DepositInstructionData, AmmError>)
        ensures
            data@.len() != Self::LEN ==> r == Err::<DepositInstructionData, AmmError>(
                AmmError::InvalidInstructionData,
            ),
            data@.len() == Self::LEN ==> (r matches Ok(d) && d.matches_bytes(data@)),
    {
        if data.len() != Self::LEN {
            return Err(AmmError::InvalidInstructionData);
        }
        Ok(DepositInstructionData {
            amount: read_u64_le(data, 0),
            max_x: read_u64_le(data, 8),
            max_y: read_u64_le(data, 16),
            expiration: read_i64_le(data, 24),
        })
    }
}

/// A deposit, with its accounts and arguments.
pub struct Deposit<'a> {
    pub accounts: DepositAccounts<'a>,
    pub instruction_data: DepositInstructionData,
}

/// A deposit that passed its checks: the pool's parameters and balances, and
/// the depositor's arguments.
pub struct DepositPending {
    pub seed: u64,
    pub mint_x: Address,
    pub mint_y: Address,
    pub config_bump: [u8; 1],
    pub lp_supply: u64,
    pub vault_x_amount: u64,
    pub vault_y_amount: u64,
    pub amount: u64,
    pub max_x: u64,
    pub max_y: u64,
}

/// The mathematical value of a checked deposit.
pub struct DepositPendingModel {
    pub seed: u64,
    pub mint_x: Seq<u8>,
    pub mint_y: Seq<u8>,
    pub config_bump: u8,
    pub lp_supply: u64,
    pub vault_x_amount: u64,
    pub vault_y_amount: u64,
    pub amount: u64,
    pub max_x: u64,
    pub max_y: u64,
}

impl View for DepositPending {
    type V = DepositPendingModel;

    open spec fn view(&self) -> DepositPendingModel {
        DepositPendingModel {
            seed: self.seed,
            mint_x: self.mint_x@,
            mint_y: self.mint_y@,
            config_bump: self.config_bump@[0],
            lp_supply: self.lp_supply,
            vault_x_amount: self.vault_x_amount,
            vault_y_amount: self.vault_y_amount,
            amount: self.amount,
            max_x: self.max_x,
            max_y: self.max_y,
        }
    }
}

/// The arguments with which the constant-product curve computes the amounts
/// that a deposit into a pool that holds something pays: the vault balances
/// `x` and `y`, the share supply `l`, the shares to mint `a`, and the
/// precision.
#[derive(Debug, PartialEq, Eq, Clone, Copy)]
pub struct DepositCurveQuery {
    pub x: u64,
    pub y: u64,
    pub l: u64,
    pub a: u64,
    pub precision: u8,
}

/// What a deposit's checks give, in their order: the depositor signed; the
/// token program is the token program; no argument is zero; the order has not
/// expired at the time that the clock gave; the configuration loads and the
/// pool runs; both vaults are the configuration's associated token accounts
/// for the two mints; the configuration is the authority of the share mint;
/// the configuration holds both vaults, which hold the two mints; the
/// depositor holds its three token accounts, which hold the two mints and the
/// shares.
pub open spec fn spec_deposit_check(
    a: DepositAccounts,
    d: DepositInstructionData,
    program_id: Seq<u8>,
    clock: Result<i64, ProgramError>,
) -> Result<DepositPendingModel, AmmError> {
    then(
        spec_require_signer(a.user),
        then(
            spec_require_program(a.token_program, spec_token_program_id()),
            then(
                spec_require_non_zero(seq![d.amount, d.max_x, d.max_y]),
                then(
                    spec_check_not_expired(d.expiration, clock),
                    match Config::spec_load(a.config, program_id) {
                        Err(e) => Err(e),
                        Ok(v) => if config_state(v) != AmmState::Initialized.spec_byte() {
                            Err(AmmError::InvalidAccountData)
                        } else {
                            spec_deposit_check_pool(a, d, v)
                        },
                    },
                ),
            ),
        ),
    )
}

/// The checks of a deposit that follow the loading of the configuration `v`.
pub open spec fn spec_deposit_check_pool(
    a: DepositAccounts,
    d: DepositInstructionData,
    v: Seq<u8>,
) -> Result<DepositPendingModel, AmmError> {
    then(
        spec_verify_vault_ata(a.vault_x, a.config, a.token_program, config_mint_x(v)),
        then(
            spec_verify_vault_ata(a.vault_y, a.config, a.token_program, config_mint_y(v)),
            match spec_read_lp_supply(a.mint_lp, a.config.address@) {
                Err(e) => Err(e),
                Ok(supply) => match spec_read_vaults(
                    a.vault_x,
                    a.vault_y,
                    a.config.address@,
                    config_mint_x(v),
                    config_mint_y(v),
                ) {
                    Err(e) => Err(e),
                    Ok(amounts) => then(
                        spec_check_user_accounts(
                            a.user_x_ata,
                            a.user_y_ata,
                            a.user_lp_ata,
                            a.user.address@,
                            config_mint_x(v),
                            config_mint_y(v),
                            a.mint_lp.address@,
                        ),
                        Ok(
                            DepositPendingModel {
                                seed: config_seed(v) as u64,
                                mint_x: config_mint_x(v),
                                mint_y: config_mint_y(v),
                                config_bump: config_bump_byte(v),
                                lp_supply: supply,
                                vault_x_amount: amounts.0,
                                vault_y_amount: amounts.1,
                                amount: d.amount,
                                max_x: d.max_x,
                                max_y: d.max_y,
                            },
                        ),
                    ),
                },
            },
        ),
    )
}

impl<'a> Deposit<'a> {
    /// The first byte of a deposit's instruction data.
    pub const DISCRIMINATOR: u8 = 1;

    /// Whether `r` is what taking the instruction from `data` and `accounts`
    /// gives: too few accounts are refused first, then arguments of the wrong
    /// length; else the accounts in order and the arguments that the data
    /// encodes.
    pub open spec fn is_decoded(data: Seq<u8>, accounts: Seq<AccountView>, r: Result<Deposit<'a>, AmmError>) -> bool {
        if accounts.len() < 9 {
            r == Err::<Deposit<'a>, AmmError>(AmmError::NotEnoughAccountKeys)
        } else if data.len() != DepositInstructionData::LEN {
            r == Err::<Deposit<'a>, AmmError>(AmmError::InvalidInstructionData)
        } else {
            r matches Ok(i) && i.accounts.is_taken_from(accounts) && i.instruction_data.matches_bytes(data)
        }
    }

    /// Takes the instruction's accounts, then its arguments.
    pub fn try_from(input: (&'a [u8], &'a [AccountView])) -> (r: Result<Deposit<'a>, AmmError>)
        ensures
            Self::is_decoded(input.0@, input.1@, r),
    {
        let (data, accounts) = input;
        let accounts: DepositAccounts<'a> = DepositAccounts::try_from(accounts)?;
        let instruction_data: DepositInstructionData = DepositInstructionData::try_from(data)?;
        Ok(Deposit { accounts, instruction_data })
    }

    /// Runs the deposit's checks at the time of the runtime's clock, and gives
    /// the checked deposit. The time is the runtime's; for each time the clock
    /// can give, the result is that of `process_at`.
    pub fn process(&self, program_id: &Address) -> (r: Result<DepositPending, AmmError>)
        ensures
            exists|clock: Result<i64, ProgramError>|
                result_view(r) == spec_deposit_check(
                    self.accounts,
                    self.instruction_data,
                    program_id@,
                    clock,
                ),
    {
        let clock: Result<i64, ProgramError> = clock_unix_timestamp();
        let ghost g: Result<i64, ProgramError> = clock;
        let r: Result<DepositPending, AmmError> = self.process_at(program_id, clock);
        assert(result_view(r) == spec_deposit_check(
            self.accounts,
            self.instruction_data,
            program_id@,
            g,
        ));
        r
    }

    /// Runs the deposit's checks, in order, with the time that the clock gave,
    /// and gives the checked deposit.
    pub fn process_at(&self, program_id: &Address, clock: Result<i64, ProgramError>) -> (r: Result<
        DepositPending,
        AmmError,
    >)
        ensures
            result_view(r) == spec_deposit_check(
                self.accounts,
                self.instruction_data,
                program_id@,
                clock,
            ),
    {
        let a: &DepositAccounts = &self.accounts;
        let d: &DepositInstructionData = &self.instruction_data;
        require_signer(a.user)?;
        let token_program: Address = token_program_id();
        require_program(a.token_program, &token_program)?;
        let values: [u64; 3] = [d.amount, d.max_x, d.max_y];
        assert(values@ =~= seq![d.amount, d.max_x, d.max_y]);
        require_non_zero(values.as_slice())?;
        check_not_expired(d.expiration, clock)?;
        let config: Config = Config::load(a.config, program_id)?;
        if config.state() != AmmState::Initialized.as_u8() {
            return Err(AmmError::InvalidAccountData);
        }
        let seed: u64 = config.seed();
        let mint_x: Address = *config.mint_x();
        let mint_y: Address = *config.mint_y();
        let config_bump: [u8; 1] = config.config_bump();
        verify_vault_ata(a.vault_x, a.config, a.token_program, &mint_x)?;
        verify_vault_ata(a.vault_y, a.config, a.token_program, &mint_y)?;
        let lp_supply: u64 = read_lp_supply(a.mint_lp, &a.config.address)?;
        let (vault_x_amount, vault_y_amount): (u64, u64) = read_vaults(
            a.vault_x,
            a.vault_y,
            &a.config.address,
            &mint_x,
            &mint_y,
        )?;
        check_user_accounts(
            a.user_x_ata,
            a.user_y_ata,
            a.user_lp_ata,
            &a.user.address,
            &mint_x,
            &mint_y,
            &a.mint_lp.address,
        )?;
        Ok(DepositPending {
            seed,
            mint_x,
            mint_y,
            config_bump,
            lp_supply,
            vault_x_amount,
            vault_y_amount,
            amount: d.amount,
            max_x: d.max_x,
            max_y: d.max_y,
        })
    }
}

/// The token program calls of a deposit that pays `x` and `y` and mints
/// `amount` shares: the depositor moves `x` of the first token and `y` of the
/// second into the vaults, then the configuration mints the shares to the
/// depositor.
pub open spec fn spec_deposit_invocations(x: u64, y: u64, amount: u64) -> Seq<Invocation> {
    seq![
        Invocation {
            instruction: TokenInstruction::Transfer {
                from: USER_X_ATA,
                to: VAULT_X,
                authority: USER,
                amount: x,
            },
            signed_by_config: false,
        },
        Invocation {
            instruction: TokenInstruction::Transfer {
                from: USER_Y_ATA,
                to: VAULT_Y,
                authority: USER,
                amount: y,
            },
            signed_by_config: false,
        },
        Invocation {
            instruction: TokenInstruction::MintTo {
                mint: MINT_LP,
                account: USER_LP_ATA,
                mint_authority: CONFIG,
                amount,
            },
            signed_by_config: true,
        },
    ]
}

/// The token program calls that settling `p` with the curve's answer gives,
/// or the error that refuses it.
pub open spec fn spec_deposit_settle(p: DepositPending, curve_amounts: Option<(u64, u64)>) -> Result<
    Seq<Invocation>,
    AmmError,
> {
    let amounts = if p.spec_is_first() {
        Some((p.max_x, p.max_y))
    } else {
        curve_amounts
    };
    match amounts {
        None => Err(AmmError::InvalidArgument),
        Some((x, y)) => if x <= p.max_x && y <= p.max_y {
            Ok(spec_deposit_invocations(x, y, p.amount))
        } else {
            Err(AmmError::InvalidArgument)
        },
    }
}

impl DepositPending {
    /// Whether the pool holds nothing: no shares and empty vaults.
    pub open spec fn spec_is_first(self) -> bool {
        self.lp_supply == 0 && self.vault_x_amount == 0 && self.vault_y_amount == 0
    }

    /// The query of `curve_query`.
    pub open spec fn spec_curve_query(self) -> Option<DepositCurveQuery> {
        if self.spec_is_first() {
            None
        } else {
            Some(
                DepositCurveQuery {
                    x: self.vault_x_amount,
                    y: self.vault_y_amount,
                    l: self.lp_supply,
                    a: self.amount,
                    precision: 6,
                },
            )
        }
    }

    /// What the curve must compute for this deposit: nothing for the first
    /// deposit into a pool, else the amounts for the vault balances, the share
    /// supply and the shares to mint, at precision 6.
    pub fn curve_query(&self) -> (r: Option<DepositCurveQuery>)
        ensures
            r == self.spec_curve_query(),
    {
        if self.lp_supply == 0 && self.vault_x_amount == 0 && self.vault_y_amount == 0 {
            None
        } else {
            Some(
                DepositCurveQuery {
                    x: self.vault_x_amount,
                    y: self.vault_y_amount,
                    l: self.lp_supply,
                    a: self.amount,
                    precision: 6,
                },
            )
        }
    }

    /// Settles the deposit. The first deposit into a pool pays the depositor's
    /// maxima; any other pays the amounts that the curve computed for
    /// `curve_query`, given here as `curve_amounts` (`None` when the curve
    /// failed). Amounts above the depositor's maxima are refused.
    pub fn settle(&self, curve_amounts: Option<(u64, u64)>) -> (r: Result<TokenPlan, AmmError>)
        ensures
            match spec_deposit_settle(*self, curve_amounts) {
                Err(e) => r == Err::<TokenPlan, AmmError>(e),
                Ok(invocations) => r matches Ok(plan) && plan.invocations@ == invocations
                    && plan.signer_seeds.deep_view() == spec_config_signer_seeds(
                    self.seed,
                    self.mint_x@,
                    self.mint_y@,
                    self.config_bump@[0],
                ),
            },
    {
        let (x, y): (u64, u64) = if self.lp_supply == 0 && self.vault_x_amount == 0
            && self.vault_y_amount == 0 {
            (self.max_x, self.max_y)
        } else {
            match curve_amounts {
                None => {
                    return Err(AmmError::InvalidArgument);
                },
                Some(amounts) => amounts,
            }
        };
        if !(x <= self.max_x && y <= self.max_y) {
            return Err(AmmError::InvalidArgument);
        }
        let signer_seeds: Vec<Vec<u8>> = config_signer_seeds(
            self.seed,
            &self.mint_x,
            &self.mint_y,
            self.config_bump,
        );
        let mut invocations: Vec<Invocation> = Vec::new();
        invocations.push(
            Invocation {
                instruction: TokenInstruction::Transfer {
                    from: USER_X_ATA,
                    to: VAULT_X,
                    authority: USER,
                    amount: x,
                },
                signed_by_config: false,
            },
        );
        invocations.push(
            Invocation {
                instruction: TokenInstruction::Transfer {
                    from: USER_Y_ATA,
                    to: VAULT_Y,
                    authority: USER,
                    amount: y,
                },
                signed_by_config: false,
            },
        );
        invocations.push(
            Invocation {
                instruction: TokenInstruction::MintTo {
                    mint: MINT_LP,
                    account: USER_LP_ATA,
                    mint_authority: CONFIG,
                    amount: self.amount,
                },
                signed_by_config: true,
            },
        );
        assert(invocations@ =~= spec_deposit_invocations(x, y, self.amount));
        Ok(TokenPlan { invocations, signer_seeds })
    }
}

} // verus!
