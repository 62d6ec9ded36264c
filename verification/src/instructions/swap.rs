//! Swap: trade one of the pool's two tokens for the other along the
//! constant-product curve.
use vstd::prelude::*;

use pinocchio::error::ProgramError;

use crate::account::AccountView;
use crate::address::Address;
use crate::codec::{le_i64, le_u64, read_i64_le, read_u64_le};
use crate::error::{result_view, then, AmmError};
use crate::instructions::helper::{
    check_not_expired, require_non_zero, require_program, require_signer, spec_check_not_expired,
    spec_require_non_zero, spec_require_program, spec_require_signer, spec_verify_vault_ata,
    verify_vault_ata,
};
use crate::instructions::pool::{check_user_pair, read_vaults, spec_check_user_pair, spec_read_vaults};
use crate::instructions::{
    config_signer_seeds, spec_config_signer_seeds, Invocation, TokenInstruction, TokenPlan,
};
use crate::runtime::{clock_unix_timestamp, spec_token_program_id, token_program_id};
use crate::state::{
    config_bump_byte, config_fee, config_mint_x, config_mint_y, config_seed, config_state, AmmState,
    Config,
};

verus! {

/// Positions of the swap's accounts in the instruction's account list.
pub const USER: usize = 0;
pub const USER_X_ATA: usize = 1;
pub const USER_Y_ATA: usize = 2;
pub const VAULT_X: usize = 3;
pub const VAULT_Y: usize = 4;
pub const CONFIG: usize = 5;
pub const TOKEN_PROGRAM: usize = 6;

/// The accounts of a swap.
pub struct SwapAccounts<'a> {
    /// The trader, who signs.
    pub user: &'a AccountView,
    /// The trader's account of the first token.
    pub user_x_ata: &'a AccountView,
    /// The trader's account of the second token.
    pub user_y_ata: &'a AccountView,
    /// The pool's vault of the first token.
    pub vault_x: &'a AccountView,
    /// The pool's vault of the second token.
    pub vault_y: &'a AccountView,
    /// The pool's configuration.
    pub config: &'a AccountView,
    /// The token program.
    pub token_program: &'a AccountView,
}

impl<'a> SwapAccounts<'a> {
    /// Takes the swap's accounts from the instruction's account list, in order;
    /// fewer than seven accounts are refused.
    pub fn try_from(accounts: &'a [AccountView]) -> (r: Result<SwapAccounts<'a>, AmmError>)
        ensures
            accounts@.len() < 7 ==> r == Err::<SwapAccounts<'a>, AmmError>(
                AmmError::NotEnoughAccountKeys,
            ),
            accounts@.len() >= 7 ==> (r matches Ok(a) && a.is_taken_from(accounts@)),
    {
        if accounts.len() < 7 {
            return Err(AmmError::NotEnoughAccountKeys);
        }
        Ok(SwapAccounts {
            user: &accounts[USER],
            user_x_ata: &accounts[USER_X_ATA],
            user_y_ata: &accounts[USER_Y_ATA],
            vault_x: &accounts[VAULT_X],
            vault_y: &accounts[VAULT_Y],
            config: &accounts[CONFIG],
            token_program: &accounts[TOKEN_PROGRAM],
        })
    }

    /// Whether each account is the one at its position in `accounts`.
    pub open spec fn is_taken_from(self, accounts: Seq<AccountView>) -> bool {
        &&& accounts.len() >= 7
        &&& *self.user == accounts[USER as int]
        &&& *self.user_x_ata == accounts[USER_X_ATA as int]
        &&& *self.user_y_ata == accounts[USER_Y_ATA as int]
        &&& *self.vault_x == accounts[VAULT_X as int]
        &&& *self.vault_y == accounts[VAULT_Y as int]
        &&& *self.config == accounts[CONFIG as int]
        &&& *self.token_program == accounts[TOKEN_PROGRAM as int]
    }
}

/// The arguments of a swap.
pub struct SwapInstructionData {
    /// The direction: `true` pays the first token for the second, `false` the
    /// second for the first.
    pub is_x: bool,
    /// The amount that the trader pays in.
    pub amount: u64,
    /// The least that the trader will take out.
    pub min: u64,
    /// The time (unix seconds) after which the order is void.
    pub expiration: i64,
}

impl SwapInstructionData {
    /// Whether these are the arguments that `data` encodes: the direction
    /// (byte 0 is 1), the amount and the minimum (little-endian, bytes 1..9 and
    /// 9..17) and the expiration (little-endian, signed, 17..25).
    pub open spec fn matches_bytes(self, data: Seq<u8>) -> bool {
        &&& self.is_x == (data[0] == 1)
        &&& self.amount == le_u64(data.subrange(1, 9))
        &&& self.min == le_u64(data.subrange(9, 17))
        &&& self.expiration == le_i64(data.subrange(17, 25))
    }

    /// The length of a swap's arguments.
    pub const LEN: usize = 25;

    /// Reads the arguments, in exactly 25 bytes: the direction (a byte that is
    /// 0 or 1), then three little-endian integers, the last signed.
    pub fn try_from(data: &[u8]) -> (r: Result<SwapInstructionData, AmmError>)
        ensures
            !(data@.len() == Self::LEN && data@[0] <= 1) ==> r == Err::<
                SwapInstructionData,
                AmmError,
            >(AmmError::InvalidInstructionData),
            data@.len() == Self::LEN && data@[0] <= 1 ==> (r matches Ok(d) && d.matches_bytes(
                data@,
            )),
    {
        if data.len() != Self::LEN {
            return Err(AmmError::InvalidInstructionData);
        }
        let is_x: bool = match data[0] {
            0 => false,
            1 => true,
            _ => {
                return Err(AmmError::InvalidInstructionData);
            },
        };
        Ok(SwapInstructionData {
            is_x,
            amount: read_u64_le(data, 1),
            min: read_u64_le(data, 9),
            expiration: read_i64_le(data, 17),
        })
    }
}

/// A swap, with its accounts and arguments.
pub struct Swap<'a> {
    pub accounts: SwapAccounts<'a>,
    pub instruction_data: SwapInstructionData,
}

/// A swap that passed its checks: the pool's parameters and balances, and the
/// trader's arguments.
pub struct SwapPending {
    pub seed: u64,
    pub mint_x: Address,
    pub mint_y: Address,
    pub fee: u16,
    pub config_bump: [u8; 1],
    pub vault_x_amount: u64,
    pub vault_y_amount: u64,
    pub is_x: bool,
    pub amount: u64,
    pub min: u64,
}

/// The mathematical value of a checked swap.
pub struct SwapPendingModel {
    pub seed: u64,
    pub mint_x: Seq<u8>,
    pub mint_y: Seq<u8>,
    pub fee: u16,
    pub config_bump: u8,
    pub vault_x_amount: u64,
    pub vault_y_amount: u64,
    pub is_x: bool,
    pub amount: u64,
    pub min: u64,
}

impl View for SwapPending {
    type V = SwapPendingModel;

    open spec fn view(&self) -> SwapPendingModel {
        SwapPendingModel {
            seed: self.seed,
            mint_x: self.mint_x@,
            mint_y: self.mint_y@,
            fee: self.fee,
            config_bump: self.config_bump@[0],
            vault_x_amount: self.vault_x_amount,
            vault_y_amount: self.vault_y_amount,
            is_x: self.is_x,
            amount: self.amount,
            min: self.min,
        }
    }
}

/// The arguments with which the constant-product curve prices a swap: a curve
/// set up with the vault balances `x` and `y`, the share count `l` (the pool
/// passes the first balance) and the fee in basis points, then asked to swap
/// `amount` in the direction `is_x` for at least `min`.
#[derive(Debug, PartialEq, Eq, Clone, Copy)]
pub struct SwapCurveQuery {
    pub x: u64,
    pub y: u64,
    pub l: u64,
    pub fee: u16,
    pub is_x: bool,
    pub amount: u64,
    pub min: u64,
}

/// What a swap's checks give, in their order: the trader signed; the token
/// program is the token program; neither amount is zero; the order has not
/// expired at the time that the clock gave; the configuration loads and the
/// pool runs; both vaults are the configuration's associated token accounts
/// for the two mints; the configuration holds both vaults, which hold the two
/// mints; the trader holds its two token accounts, which hold the two mints.
pub open spec fn spec_swap_check(
    a: SwapAccounts,
    d: SwapInstructionData,
    program_id: Seq<u8>,
    clock: Result<i64, ProgramError>,
) -> Result<SwapPendingModel, AmmError> {
    then(
        spec_require_signer(a.user),
        then(
            spec_require_program(a.token_program, spec_token_program_id()),
            then(
                spec_require_non_zero(seq![d.amount, d.min]),
                then(
                    spec_check_not_expired(d.expiration, clock),
                    match Config::spec_load(a.config, program_id) {
                        Err(e) => Err(e),
                        Ok(v) => if config_state(v) != AmmState::Initialized.spec_byte() {
                            Err(AmmError::InvalidAccountData)
                        } else {
                            spec_swap_check_pool(a, d, v)
                        },
                    },
                ),
            ),
        ),
    )
}

/// The checks of a swap that follow the loading of the configuration `v`.
pub open spec fn spec_swap_check_pool(a: SwapAccounts, d: SwapInstructionData, v: Seq<u8>) -> Result<
    SwapPendingModel,
    AmmError,
> {
    then(
        spec_verify_vault_ata(a.vault_x, a.config, a.token_program, config_mint_x(v)),
        then(
            spec_verify_vault_ata(a.vault_y, a.config, a.token_program, config_mint_y(v)),
            match spec_read_vaults(
                a.vault_x,
                a.vault_y,
                a.config.address@,
                config_mint_x(v),
                config_mint_y(v),
            ) {
                Err(e) => Err(e),
                Ok(amounts) => then(
                    spec_check_user_pair(
                        a.user_x_ata,
                        a.user_y_ata,
                        a.user.address@,
                        config_mint_x(v),
                        config_mint_y(v),
                    ),
                    Ok(
                        SwapPendingModel {
                            seed: config_seed(v) as u64,
                            mint_x: config_mint_x(v),
                            mint_y: config_mint_y(v),
                            fee: config_fee(v) as u16,
                            config_bump: config_bump_byte(v),
                            vault_x_amount: amounts.0,
                            vault_y_amount: amounts.1,
                            is_x: d.is_x,
                            amount: d.amount,
                            min: d.min,
                        },
                    ),
                ),
            },
        ),
    )
}

impl<'a> Swap<'a> {
    /// The first byte of a swap's instruction data.
    pub const DISCRIMINATOR: u8 = 3;

    /// Whether `r` is what taking the swap from `data` and `accounts` gives:
    /// too few accounts are refused first, then malformed arguments; else the
    /// accounts in order and the arguments that the data encodes.
    pub open spec fn is_decoded(data: Seq<u8>, accounts: Seq<AccountView>, r: Result<Swap<'a>, AmmError>) -> bool {
        if accounts.len() < 7 {
            r == Err::<Swap<'a>, AmmError>(AmmError::NotEnoughAccountKeys)
        } else if !(data.len() == SwapInstructionData::LEN && data[0] <= 1) {
            r == Err::<Swap<'a>, AmmError>(AmmError::InvalidInstructionData)
        } else {
            r matches Ok(i) && i.accounts.is_taken_from(accounts) && i.instruction_data.matches_bytes(data)
        }
    }

    /// Takes the swap's accounts, then its arguments.
    pub fn try_from(input: (&'a [u8], &'a [AccountView])) -> (r: Result<Swap<'a>, AmmError>)
        ensures
            Self::is_decoded(input.0@, input.1@, r),
    {
        let (data, accounts) = input;
        let accounts: SwapAccounts<'a> = SwapAccounts::try_from(accounts)?;
        let instruction_data: SwapInstructionData = SwapInstructionData::try_from(data)?;
        Ok(Swap { accounts, instruction_data })
    }

    /// Runs the swap's checks at the time of the runtime's clock, and gives the
    /// checked swap. The time is the runtime's; for each time the clock can
    /// give, the result is that of `process_at`.
    pub fn process(&self, program_id: &Address) -> (r: Result<SwapPending, AmmError>)
        ensures
            exists|clock: Result<i64, ProgramError>|
                result_view(r) == spec_swap_check(
                    self.accounts,
                    self.instruction_data,
                    program_id@,
                    clock,
                ),
    {
        let clock: Result<i64, ProgramError> = clock_unix_timestamp();
        let ghost g: Result<i64, ProgramError> = clock;
        let r: Result<SwapPending, AmmError> = self.process_at(program_id, clock);
        assert(result_view(r) == spec_swap_check(
            self.accounts,
            self.instruction_data,
            program_id@,
            g,
        ));
        r
    }

    /// Runs the swap's checks, in order, with the time that the clock gave, and
    /// gives the checked swap.
    pub fn process_at(&self, program_id: &Address, clock: Result<i64, ProgramError>) -> (r: Result<
        SwapPending,
        AmmError,
    >)
        ensures
            result_view(r) == spec_swap_check(
                self.accounts,
                self.instruction_data,
                program_id@,
                clock,
            ),
    {
        let a: &SwapAccounts = &self.accounts;
        let d: &SwapInstructionData = &self.instruction_data;
        require_signer(a.user)?;
        let token_program: Address = token_program_id();
        require_program(a.token_program, &token_program)?;
        let values: [u64; 2] = [d.amount, d.min];
        assert(values@ =~= seq![d.amount, d.min]);
        require_non_zero(values.as_slice())?;
        check_not_expired(d.expiration, clock)?;
        let config: Config = Config::load(a.config, program_id)?;
        if config.state() != AmmState::Initialized.as_u8() {
            return Err(AmmError::InvalidAccountData);
        }
        let seed: u64 = config.seed();
        let mint_x: Address = *config.mint_x();
        let mint_y: Address = *config.mint_y();
        let fee: u16 = config.fee();
        let config_bump: [u8; 1] = config.config_bump();
        verify_vault_ata(a.vault_x, a.config, a.token_program, &mint_x)?;
        verify_vault_ata(a.vault_y, a.config, a.token_program, &mint_y)?;
        let (vault_x_amount, vault_y_amount): (u64, u64) = read_vaults(
            a.vault_x,
            a.vault_y,
            &a.config.address,
            &mint_x,
            &mint_y,
        )?;
        check_user_pair(a.user_x_ata, a.user_y_ata, &a.user.address, &mint_x, &mint_y)?;
        Ok(SwapPending {
            seed,
            mint_x,
            mint_y,
            fee,
            config_bump,
            vault_x_amount,
            vault_y_amount,
            is_x: d.is_x,
            amount: d.amount,
            min: d.min,
        })
    }
}

/// The token program calls of a swap that takes `deposit` in and pays
/// `withdraw` out: in the direction `is_x`, the trader moves `deposit` of the
/// first token into its vault and the configuration moves `withdraw` of the
/// second token from its vault to the trader; in the other direction, the
/// roles of the two tokens are exchanged.
pub open spec fn spec_swap_invocations(is_x: bool, deposit: u64, withdraw: u64) -> Seq<Invocation> {
    if is_x {
        seq![
            Invocation {
                instruction: TokenInstruction::Transfer {
                    from: USER_X_ATA,
                    to: VAULT_X,
                    authority: USER,
                    amount: deposit,
                },
                signed_by_config: false,
            },
            Invocation {
                instruction: TokenInstruction::Transfer {
                    from: VAULT_Y,
                    to: USER_Y_ATA,
                    authority: CONFIG,
                    amount: withdraw,
                },
                signed_by_config: true,
            },
        ]
    } else {
        seq![
            Invocation {
                instruction: TokenInstruction::Transfer {
                    from: USER_Y_ATA,
                    to: VAULT_Y,
                    authority: USER,
                    amount: deposit,
                },
                signed_by_config: false,
            },
            Invocation {
                instruction: TokenInstruction::Transfer {
                    from: VAULT_X,
                    to: USER_X_ATA,
                    authority: CONFIG,
                    amount: withdraw,
                },
                signed_by_config: true,
            },
        ]
    }
}

/// The token program calls that settling `p` with the curve's answer gives,
/// or the error that refuses it.
pub open spec fn spec_swap_settle(p: SwapPending, curve_result: Option<(u64, u64)>) -> Result<
    Seq<Invocation>,
    AmmError,
> {
    match curve_result {
        None => Err(AmmError::Custom(1)),
        Some((deposit, withdraw)) => if deposit == 0 || withdraw == 0 {
            Err(AmmError::InvalidArgument)
        } else {
            Ok(spec_swap_invocations(p.is_x, deposit, withdraw))
        },
    }
}

impl SwapPending {
    /// What the curve must compute for this swap: the two vault balances, in
    /// that order, with the first as the share supply, the pool's fee, and the
    /// trader's direction, amount and minimum.
    pub open spec fn spec_curve_query(self) -> SwapCurveQuery {
        SwapCurveQuery {
            x: self.vault_x_amount,
            y: self.vault_y_amount,
            l: self.vault_x_amount,
            fee: self.fee,
            is_x: self.is_x,
            amount: self.amount,
            min: self.min,
        }
    }

    /// What the curve must compute for this swap.
    pub fn curve_query(&self) -> (r: SwapCurveQuery)
        ensures
            r == self.spec_curve_query(),
    {
        SwapCurveQuery {
            x: self.vault_x_amount,
            y: self.vault_y_amount,
            l: self.vault_x_amount,
            fee: self.fee,
            is_x: self.is_x,
            amount: self.amount,
            min: self.min,
        }
    }

    /// Settles the swap with the amounts that the curve computed for
    /// `curve_query`: what the trader pays in and takes out, or `None` when the
    /// curve failed, which refuses the swap with the error that a failing
    /// curve gives. A swap in which either amount is zero is refused; any
    /// other is settled with exactly the curve's amounts.
    pub fn settle(&self, curve_result: Option<(u64, u64)>) -> (r: Result<TokenPlan, AmmError>)
        ensures
            match spec_swap_settle(*self, curve_result) {
                Err(e) => r == Err::<TokenPlan, AmmError>(e),
                Ok(invocations) => r matches Ok(plan) && plan.invocations@ == invocations
                    && plan.signer_seeds.deep_view() == spec_config_signer_seeds(
                    self.seed,
                    self.mint_x@,
                    self.mint_y@,
                    self.config_bump@[0],
                ),
            },
    {
        let (deposit, withdraw): (u64, u64) = match curve_result {
            None => {
                return Err(AmmError::Custom(1));
            },
            Some(amounts) => amounts,
        };
        if deposit == 0 || withdraw == 0 {
            return Err(AmmError::InvalidArgument);
        }
        let signer_seeds: Vec<Vec<u8>> = config_signer_seeds(
            self.seed,
            &self.mint_x,
            &self.mint_y,
            self.config_bump,
        );
        let mut invocations: Vec<Invocation> = Vec::new();
        if self.is_x {
            invocations.push(
                Invocation {
                    instruction: TokenInstruction::Transfer {
                        from: USER_X_ATA,
                        to: VAULT_X,
                        authority: USER,
                        amount: deposit,
                    },
                    signed_by_config: false,
                },
            );
            invocations.push(
                Invocation {
                    instruction: TokenInstruction::Transfer {
                        from: VAULT_Y,
                        to: USER_Y_ATA,
                        authority: CONFIG,
                        amount: withdraw,
                    },
                    signed_by_config: true,
                },
            );
        } else {
            invocations.push(
                Invocation {
                    instruction: TokenInstruction::Transfer {
                        from: USER_Y_ATA,
                        to: VAULT_Y,
                        authority: USER,
                        amount: deposit,
                    },
                    signed_by_config: false,
                },
            );
            invocations.push(
                Invocation {
                    instruction: TokenInstruction::Transfer {
                        from: VAULT_X,
                        to: USER_X_ATA,
                        authority: CONFIG,
                        amount: withdraw,
                    },
                    signed_by_config: true,
                },
            );
        }
        assert(invocations@ =~= spec_swap_invocations(self.is_x, deposit, withdraw));
        Ok(TokenPlan { invocations, signer_seeds })
    }
}

} // verus!
