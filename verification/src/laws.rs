//! Properties of the pool that span its functions.
use vstd::prelude::*;

use pinocchio::error::ProgramError;

use crate::instructions::deposit::{self, spec_deposit_check, spec_deposit_invocations, DepositAccounts, DepositInstructionData};
use crate::instructions::helper::spec_verify_vault_ata;
use crate::instructions::swap::{self, spec_swap_check, spec_swap_invocations, SwapAccounts, SwapInstructionData};
use crate::instructions::withdraw::{self, spec_withdraw_check, spec_withdraw_invocations, WithdrawAccounts, WithdrawInstructionData};
use crate::codec::{
    le_bytes_i64, le_bytes_u16, le_bytes_u64, lemma_le_i64_of_bytes, lemma_le_u16_of_bytes,
    lemma_le_u64_of_bytes,
};
use crate::instructions::deposit::{spec_deposit_settle, DepositCurveQuery, DepositPending};
use crate::instructions::initialize::{initialize_data_matches, InitializeInstructionData};
use crate::instructions::withdraw::{spec_withdraw_settle, WithdrawCurveQuery, WithdrawPending};
use crate::instructions::swap::{spec_swap_settle, SwapPending};
use crate::error::AmmError;
use crate::instructions::{Invocation, TokenInstruction};
use crate::state::{config_fee, config_mint_x, config_mint_y, config_state, AmmState, Config};
use crate::account::AccountView;
use crate::token::{spec_mint, spec_token_account, MintModel, TokenAccountModel};
use crate::runtime::spec_token_program_id;

verus! {

/// The account whose consent a token program call needs.
pub open spec fn consenting_account(instruction: TokenInstruction) -> usize {
    match instruction {
        TokenInstruction::Transfer { authority, .. } => authority,
        TokenInstruction::MintTo { mint_authority, .. } => mint_authority,
        TokenInstruction::Burn { authority, .. } => authority,
    }
}

/// Whether, in `invocations`, the configuration signs exactly the calls that
/// need its own consent, and every other call needs the consent of `user`.
pub open spec fn signs_only_its_own(invocations: Seq<Invocation>, config: usize, user: usize) -> bool {
    forall|i: int|
        0 <= i < invocations.len() ==> {
            &&& #[trigger] invocations[i].signed_by_config == (consenting_account(
                invocations[i].instruction,
            ) == config)
            &&& !invocations[i].signed_by_config ==> consenting_account(invocations[i].instruction)
                == user
        }
}

/// In every settled deposit, withdrawal and swap, the pool's configuration
/// signs only the calls that move the pool's own tokens or mint its shares,
/// and every other call moves or burns tokens with the trader's own consent.
pub proof fn lemma_config_signs_only_its_own(x: u64, y: u64, amount: u64, is_x: bool)
    ensures
        signs_only_its_own(spec_deposit_invocations(x, y, amount), deposit::CONFIG, deposit::USER),
        signs_only_its_own(
            spec_withdraw_invocations(x, y, amount),
            withdraw::CONFIG,
            withdraw::USER,
        ),
        signs_only_its_own(spec_swap_invocations(is_x, x, y), swap::CONFIG, swap::USER),
{
    assert(signs_only_its_own(spec_deposit_invocations(x, y, amount), deposit::CONFIG, deposit::USER));
    assert(signs_only_its_own(spec_withdraw_invocations(x, y, amount), withdraw::CONFIG, withdraw::USER));
    assert(signs_only_its_own(spec_swap_invocations(is_x, x, y), swap::CONFIG, swap::USER));
}

/// A deposit passes its checks only when the depositor signed, none of its
/// amounts is zero, the clock gave a time no later than the expiration, the
/// pool runs, and both vaults are the configuration's accounts for the pool's
/// mints.
pub proof fn lemma_checked_deposit(
    a: DepositAccounts,
    d: DepositInstructionData,
    program_id: Seq<u8>,
    clock: Result<i64, ProgramError>,
)
    requires
        spec_deposit_check(a, d, program_id, clock) is Ok,
    ensures
        a.user.is_signer,
        d.amount > 0 && d.max_x > 0 && d.max_y > 0,
        clock matches Ok(now) && now <= d.expiration,
        Config::spec_load(a.config, program_id) matches Ok(v) && config_state(v)
            == AmmState::Initialized.spec_byte() && spec_verify_vault_ata(
            a.vault_x,
            a.config,
            a.token_program,
            config_mint_x(v),
        ) is Ok && spec_verify_vault_ata(a.vault_y, a.config, a.token_program, config_mint_y(v)) is Ok,
{
    assert(!seq![d.amount, d.max_x, d.max_y].contains(0u64));
    assert(seq![d.amount, d.max_x, d.max_y][0] == d.amount);
    assert(seq![d.amount, d.max_x, d.max_y][1] == d.max_x);
    assert(seq![d.amount, d.max_x, d.max_y][2] == d.max_y);
}

/// A withdrawal passes its checks only when the holder signed, none of its
/// amounts is zero, the clock gave a time no later than the expiration, the
/// pool is not disabled (a pool that only allows withdrawals allows it), and
/// the shares to burn do not exceed the supply.
pub proof fn lemma_checked_withdraw(
    a: WithdrawAccounts,
    d: WithdrawInstructionData,
    program_id: Seq<u8>,
    clock: Result<i64, ProgramError>,
)
    requires
        spec_withdraw_check(a, d, program_id, clock) is Ok,
    ensures
        a.user.is_signer,
        d.amount > 0 && d.min_x > 0 && d.min_y > 0,
        clock matches Ok(now) && now <= d.expiration,
        Config::spec_load(a.config, program_id) matches Ok(v) && config_state(v)
            != AmmState::Disabled.spec_byte(),
        spec_withdraw_check(a, d, program_id, clock) matches Ok(p) && p.amount <= p.lp_supply
            && p.amount == d.amount,
{
    assert(!seq![d.amount, d.min_x, d.min_y].contains(0u64));
    assert(seq![d.amount, d.min_x, d.min_y][0] == d.amount);
    assert(seq![d.amount, d.min_x, d.min_y][1] == d.min_x);
    assert(seq![d.amount, d.min_x, d.min_y][2] == d.min_y);
}

/// A swap passes its checks only when the trader signed, neither its amount
/// nor its minimum is zero, the clock gave a time no later than the
/// expiration, the pool runs, and both vaults are the configuration's accounts
/// for the pool's mints.
pub proof fn lemma_checked_swap(
    a: SwapAccounts,
    d: SwapInstructionData,
    program_id: Seq<u8>,
    clock: Result<i64, ProgramError>,
)
    requires
        spec_swap_check(a, d, program_id, clock) is Ok,
    ensures
        a.user.is_signer,
        d.amount > 0 && d.min > 0,
        clock matches Ok(now) && now <= d.expiration,
        Config::spec_load(a.config, program_id) matches Ok(v) && config_state(v)
            == AmmState::Initialized.spec_byte() && spec_verify_vault_ata(
            a.vault_x,
            a.config,
            a.token_program,
            config_mint_x(v),
        ) is Ok && spec_verify_vault_ata(a.vault_y, a.config, a.token_program, config_mint_y(v)) is Ok,
{
    assert(!seq![d.amount, d.min].contains(0u64));
    assert(seq![d.amount, d.min][0] == d.amount);
    assert(seq![d.amount, d.min][1] == d.min);
}

/// A checked swap carries the balances of the first and second vaults, in
/// that order and whatever its direction, the pool's fee, and the trader's
/// direction, amount and minimum: the curve prices the trade on the pool's
/// real reserves.
pub proof fn lemma_swap_prices_on_the_vault_balances(
    a: SwapAccounts,
    d: SwapInstructionData,
    program_id: Seq<u8>,
    clock: Result<i64, ProgramError>,
)
    requires
        spec_swap_check(a, d, program_id, clock) is Ok,
    ensures
        ({
            let p = spec_swap_check(a, d, program_id, clock)->Ok_0;
            &&& spec_token_account(a.vault_x) is Ok
            &&& spec_token_account(a.vault_y) is Ok
            &&& Config::spec_load(a.config, program_id) is Ok
            &&& p.vault_x_amount == spec_token_account(a.vault_x)->Ok_0.amount
            &&& p.vault_y_amount == spec_token_account(a.vault_y)->Ok_0.amount
            &&& p.fee == config_fee(Config::spec_load(a.config, program_id)->Ok_0)
            &&& p.is_x == d.is_x
            &&& p.amount == d.amount
            &&& p.min == d.min
        }),
{
}

/// A checked deposit carries the balances of the first and second vaults, in
/// that order, the supply of the share mint, and the depositor's amount and
/// maxima.
pub proof fn lemma_deposit_reads_the_pool(
    a: DepositAccounts,
    d: DepositInstructionData,
    program_id: Seq<u8>,
    clock: Result<i64, ProgramError>,
)
    requires
        spec_deposit_check(a, d, program_id, clock) is Ok,
    ensures
        ({
            let p = spec_deposit_check(a, d, program_id, clock)->Ok_0;
            &&& spec_token_account(a.vault_x) is Ok
            &&& spec_token_account(a.vault_y) is Ok
            &&& spec_mint(a.mint_lp) is Ok
            &&& p.vault_x_amount == spec_token_account(a.vault_x)->Ok_0.amount
            &&& p.vault_y_amount == spec_token_account(a.vault_y)->Ok_0.amount
            &&& p.lp_supply == spec_mint(a.mint_lp)->Ok_0.supply
            &&& p.amount == d.amount
            &&& p.max_x == d.max_x
            &&& p.max_y == d.max_y
        }),
{
}

/// A checked withdrawal carries the balances of the first and second vaults,
/// in that order, the supply of the share mint, and the holder's amount and
/// minima.
pub proof fn lemma_withdraw_reads_the_pool(
    a: WithdrawAccounts,
    d: WithdrawInstructionData,
    program_id: Seq<u8>,
    clock: Result<i64, ProgramError>,
)
    requires
        spec_withdraw_check(a, d, program_id, clock) is Ok,
    ensures
        ({
            let p = spec_withdraw_check(a, d, program_id, clock)->Ok_0;
            &&& spec_token_account(a.vault_x) is Ok
            &&& spec_token_account(a.vault_y) is Ok
            &&& spec_mint(a.mint_lp) is Ok
            &&& p.vault_x_amount == spec_token_account(a.vault_x)->Ok_0.amount
            &&& p.vault_y_amount == spec_token_account(a.vault_y)->Ok_0.amount
            &&& p.lp_supply == spec_mint(a.mint_lp)->Ok_0.supply
            &&& p.amount == d.amount
            &&& p.min_x == d.min_x
            &&& p.min_y == d.min_y
        }),
{
}

/// A deposit is settled with the depositor's maxima exactly when the pool
/// holds nothing, no shares and two empty vaults; whenever there are shares,
/// or a vault holds something, it asks the curve and pays the curve's
/// amounts.
pub proof fn lemma_deposit_pays_maxima_only_into_an_empty_pool(p: DepositPending)
    ensures
        p.spec_is_first() <==> (p.lp_supply == 0 && p.vault_x_amount == 0 && p.vault_y_amount
            == 0),
        p.lp_supply != 0 ==> !p.spec_is_first(),
{
}

/// A withdrawal takes both vaults whole exactly when it burns the whole share
/// supply; whenever it burns fewer shares it asks the curve and takes the
/// curve's amounts.
pub proof fn lemma_withdraw_takes_vaults_whole_only_for_every_share(p: WithdrawPending)
    ensures
        p.spec_is_all() <==> p.amount == p.lp_supply,
        p.amount < p.lp_supply ==> !p.spec_is_all(),
{
}

/// Encoding a swap's direction, amount, minimum and expiration as the
/// instruction lays them out, and decoding them, gives them back, for every
/// value of each.
pub proof fn lemma_swap_arguments_round_trip(
    d: SwapInstructionData,
    is_x: bool,
    amount: u64,
    min: u64,
    expiration: i64,
)
    requires
        d.matches_bytes(
            seq![if is_x { 1u8 } else { 0u8 }] + le_bytes_u64(amount) + le_bytes_u64(min)
                + le_bytes_i64(expiration),
        ),
    ensures
        d.is_x == is_x,
        d.amount == amount,
        d.min == min,
        d.expiration == expiration,
{
    lemma_le_u64_of_bytes(amount);
    lemma_le_u64_of_bytes(min);
    lemma_le_i64_of_bytes(expiration);
    let data: Seq<u8> = seq![if is_x { 1u8 } else { 0u8 }] + le_bytes_u64(amount) + le_bytes_u64(
        min,
    ) + le_bytes_i64(expiration);
    assert(data.subrange(1, 9) =~= le_bytes_u64(amount));
    assert(data.subrange(9, 17) =~= le_bytes_u64(min));
    assert(data.subrange(17, 25) =~= le_bytes_i64(expiration));
}

/// Encoding a deposit's amount, maxima and expiration as the instruction lays
/// them out, and decoding them, gives them back, for every value of each.
pub proof fn lemma_deposit_arguments_round_trip(
    d: DepositInstructionData,
    amount: u64,
    max_x: u64,
    max_y: u64,
    expiration: i64,
)
    requires
        d.matches_bytes(
            le_bytes_u64(amount) + le_bytes_u64(max_x) + le_bytes_u64(max_y) + le_bytes_i64(
                expiration,
            ),
        ),
    ensures
        d.amount == amount,
        d.max_x == max_x,
        d.max_y == max_y,
        d.expiration == expiration,
{
    lemma_le_u64_of_bytes(amount);
    lemma_le_u64_of_bytes(max_x);
    lemma_le_u64_of_bytes(max_y);
    lemma_le_i64_of_bytes(expiration);
    let data: Seq<u8> = le_bytes_u64(amount) + le_bytes_u64(max_x) + le_bytes_u64(max_y)
        + le_bytes_i64(expiration);
    assert(data.subrange(0, 8) =~= le_bytes_u64(amount));
    assert(data.subrange(8, 16) =~= le_bytes_u64(max_x));
    assert(data.subrange(16, 24) =~= le_bytes_u64(max_y));
    assert(data.subrange(24, 32) =~= le_bytes_i64(expiration));
}

/// Encoding a withdrawal's amount, minima and expiration as the instruction
/// lays them out, and decoding them, gives them back, for every value of each.
pub proof fn lemma_withdraw_arguments_round_trip(
    d: WithdrawInstructionData,
    amount: u64,
    min_x: u64,
    min_y: u64,
    expiration: i64,
)
    requires
        d.matches_bytes(
            le_bytes_u64(amount) + le_bytes_u64(min_x) + le_bytes_u64(min_y) + le_bytes_i64(
                expiration,
            ),
        ),
    ensures
        d.amount == amount,
        d.min_x == min_x,
        d.min_y == min_y,
        d.expiration == expiration,
{
    lemma_le_u64_of_bytes(amount);
    lemma_le_u64_of_bytes(min_x);
    lemma_le_u64_of_bytes(min_y);
    lemma_le_i64_of_bytes(expiration);
    let data: Seq<u8> = le_bytes_u64(amount) + le_bytes_u64(min_x) + le_bytes_u64(min_y)
        + le_bytes_i64(expiration);
    assert(data.subrange(0, 8) =~= le_bytes_u64(amount));
    assert(data.subrange(8, 16) =~= le_bytes_u64(min_x));
    assert(data.subrange(16, 24) =~= le_bytes_u64(min_y));
    assert(data.subrange(24, 32) =~= le_bytes_i64(expiration));
}

/// Encoding an initialization's seed, fee, mints, bumps and (when given)
/// authority as the instruction lays them out, and decoding them, gives them
/// back byte for byte, for every value of each; without an authority the
/// decoded authority is all zero.
pub proof fn lemma_initialize_arguments_round_trip(
    d: InitializeInstructionData,
    seed: u64,
    fee: u16,
    mint_x: Seq<u8>,
    mint_y: Seq<u8>,
    config_bump: u8,
    lp_bump: u8,
    authority: Option<Seq<u8>>,
)
    requires
        mint_x.len() == 32,
        mint_y.len() == 32,
        authority matches Some(a) ==> a.len() == 32,
        initialize_data_matches(
            d,
            le_bytes_u64(seed) + le_bytes_u16(fee) + mint_x + mint_y + seq![config_bump, lp_bump]
                + match authority {
                Some(a) => a,
                None => Seq::<u8>::empty(),
            },
        ),
    ensures
        d.seed == seed,
        d.fee == fee,
        d.mint_x@ == mint_x,
        d.mint_y@ == mint_y,
        d.config_bump@ == seq![config_bump],
        d.lp_bump@ == seq![lp_bump],
        d.authority@ == match authority {
            Some(a) => a,
            None => Seq::new(32, |i: int| 0u8),
        },
{
    lemma_le_u64_of_bytes(seed);
    lemma_le_u16_of_bytes(fee);
    let tail: Seq<u8> = match authority {
        Some(a) => a,
        None => Seq::<u8>::empty(),
    };
    let data: Seq<u8> = le_bytes_u64(seed) + le_bytes_u16(fee) + mint_x + mint_y + seq![
        config_bump,
        lp_bump,
    ] + tail;
    assert(data.subrange(0, 8) =~= le_bytes_u64(seed));
    assert(data.subrange(8, 10) =~= le_bytes_u16(fee));
    assert(data.subrange(10, 42) =~= mint_x);
    assert(data.subrange(42, 74) =~= mint_y);
    assert(data.subrange(74, 75) =~= seq![config_bump]);
    assert(data.subrange(75, 76) =~= seq![lp_bump]);
    if authority is Some {
        assert(data.subrange(76, 108) =~= tail);
    }
}

/// Whether `account` is a token account of `mint` held by `holder`.
pub open spec fn holds_tokens(account: AccountView, holder: Seq<u8>, mint: Seq<u8>) -> bool {
    spec_token_account(&account) is Ok && spec_token_account(&account)->Ok_0.owner == holder
        && spec_token_account(&account)->Ok_0.mint == mint
}

/// In a settled swap over a checked pool, the trader moves the amount paid
/// from its own account of the input token into the pool's account of that
/// token, with its own consent; then the pool's configuration moves the
/// amount received from the pool's account of the other token into the
/// trader's account of it, signing for it.
pub proof fn lemma_swap_moves_each_token_between_its_own_accounts(
    a: SwapAccounts,
    accounts: Seq<AccountView>,
    d: SwapInstructionData,
    program_id: Seq<u8>,
    clock: Result<i64, ProgramError>,
    paid: u64,
    received: u64,
)
    requires
        a.is_taken_from(accounts),
        spec_swap_check(a, d, program_id, clock) is Ok,
    ensures
        ({
            let v = Config::spec_load(a.config, program_id)->Ok_0;
            let mint_in = if d.is_x {
                config_mint_x(v)
            } else {
                config_mint_y(v)
            };
            let mint_out = if d.is_x {
                config_mint_y(v)
            } else {
                config_mint_x(v)
            };
            let inv = spec_swap_invocations(d.is_x, paid, received);
            let pay = inv[0].instruction;
            let take = inv[1].instruction;
            &&& inv.len() == 2
            &&& pay is Transfer && take is Transfer
            &&& holds_tokens(accounts[pay->Transfer_from as int], a.user.address@, mint_in)
            &&& holds_tokens(accounts[pay->Transfer_to as int], a.config.address@, mint_in)
            &&& accounts[pay->Transfer_authority as int] == *a.user
            &&& pay->Transfer_amount == paid && !inv[0].signed_by_config
            &&& holds_tokens(accounts[take->Transfer_from as int], a.config.address@, mint_out)
            &&& holds_tokens(accounts[take->Transfer_to as int], a.user.address@, mint_out)
            &&& accounts[take->Transfer_authority as int] == *a.config
            &&& take->Transfer_amount == received && inv[1].signed_by_config
        }),
{
}

/// In a settled deposit over a checked pool, the depositor moves the amounts
/// paid from its own accounts of the two tokens into the pool's accounts of
/// them, with its own consent; then the configuration, which is the share
/// mint's authority, signs the minting of the shares into the depositor's
/// account of shares.
pub proof fn lemma_deposit_moves_each_token_between_its_own_accounts(
    a: DepositAccounts,
    accounts: Seq<AccountView>,
    d: DepositInstructionData,
    program_id: Seq<u8>,
    clock: Result<i64, ProgramError>,
    x: u64,
    y: u64,
)
    requires
        a.is_taken_from(accounts),
        spec_deposit_check(a, d, program_id, clock) is Ok,
    ensures
        ({
            let v = Config::spec_load(a.config, program_id)->Ok_0;
            let inv = spec_deposit_invocations(x, y, d.amount);
            let pay_x = inv[0].instruction;
            let pay_y = inv[1].instruction;
            let mint = inv[2].instruction;
            &&& inv.len() == 3
            &&& pay_x is Transfer && pay_y is Transfer && mint is MintTo
            &&& holds_tokens(accounts[pay_x->Transfer_from as int], a.user.address@, config_mint_x(v))
            &&& holds_tokens(accounts[pay_x->Transfer_to as int], a.config.address@, config_mint_x(v))
            &&& accounts[pay_x->Transfer_authority as int] == *a.user
            &&& pay_x->Transfer_amount == x && !inv[0].signed_by_config
            &&& holds_tokens(accounts[pay_y->Transfer_from as int], a.user.address@, config_mint_y(v))
            &&& holds_tokens(accounts[pay_y->Transfer_to as int], a.config.address@, config_mint_y(v))
            &&& accounts[pay_y->Transfer_authority as int] == *a.user
            &&& pay_y->Transfer_amount == y && !inv[1].signed_by_config
            &&& accounts[mint->MintTo_mint as int] == *a.mint_lp
            &&& spec_mint(a.mint_lp) is Ok && spec_mint(a.mint_lp)->Ok_0.mint_authority == Some(
                a.config.address@,
            )
            &&& holds_tokens(accounts[mint->MintTo_account as int], a.user.address@, a.mint_lp.address@)
            &&& accounts[mint->MintTo_mint_authority as int] == *a.config
            &&& mint->MintTo_amount == d.amount && inv[2].signed_by_config
        }),
{
}

/// In a settled withdrawal over a checked pool, the configuration signs the
/// moving of the amounts taken from the pool's accounts of the two tokens
/// into the holder's accounts of them; then the holder burns the shares from
/// its own account of shares, with its own consent.
pub proof fn lemma_withdraw_moves_each_token_between_its_own_accounts(
    a: WithdrawAccounts,
    accounts: Seq<AccountView>,
    d: WithdrawInstructionData,
    program_id: Seq<u8>,
    clock: Result<i64, ProgramError>,
    x: u64,
    y: u64,
)
    requires
        a.is_taken_from(accounts),
        spec_withdraw_check(a, d, program_id, clock) is Ok,
    ensures
        ({
            let v = Config::spec_load(a.config, program_id)->Ok_0;
            let inv = spec_withdraw_invocations(x, y, d.amount);
            let take_x = inv[0].instruction;
            let take_y = inv[1].instruction;
            let burn = inv[2].instruction;
            &&& inv.len() == 3
            &&& take_x is Transfer && take_y is Transfer && burn is Burn
            &&& holds_tokens(accounts[take_x->Transfer_from as int], a.config.address@, config_mint_x(v))
            &&& holds_tokens(accounts[take_x->Transfer_to as int], a.user.address@, config_mint_x(v))
            &&& accounts[take_x->Transfer_authority as int] == *a.config
            &&& take_x->Transfer_amount == x && inv[0].signed_by_config
            &&& holds_tokens(accounts[take_y->Transfer_from as int], a.config.address@, config_mint_y(v))
            &&& holds_tokens(accounts[take_y->Transfer_to as int], a.user.address@, config_mint_y(v))
            &&& accounts[take_y->Transfer_authority as int] == *a.config
            &&& take_y->Transfer_amount == y && inv[1].signed_by_config
            &&& holds_tokens(accounts[burn->Burn_account as int], a.user.address@, a.mint_lp.address@)
            &&& accounts[burn->Burn_mint as int] == *a.mint_lp
            &&& accounts[burn->Burn_authority as int] == *a.user
            &&& burn->Burn_amount == d.amount && !inv[2].signed_by_config
        }),
{
}

/// Into a pool that holds shares or tokens, a deposit pays exactly the
/// amounts that the curve computed, whatever the size of the deposit: it is
/// settled when they are within the depositor's maxima and refused otherwise,
/// and it is refused when the curve failed. The maxima are never paid there
/// in place of the curve's amounts.
pub proof fn lemma_deposit_into_a_live_pool_pays_the_curve(p: DepositPending, x: u64, y: u64)
    requires
        p.lp_supply != 0 || p.vault_x_amount != 0 || p.vault_y_amount != 0,
    ensures
        spec_deposit_settle(p, Some((x, y))) == (if x <= p.max_x && y <= p.max_y {
            Ok(spec_deposit_invocations(x, y, p.amount))
        } else {
            Err(AmmError::InvalidArgument)
        }),
        spec_deposit_settle(p, None) == Err::<Seq<Invocation>, AmmError>(AmmError::InvalidArgument),
{
}

/// The first deposit into an empty pool, with no shares and two empty vaults,
/// pays the depositor's maxima and mints the shares asked for, whatever the
/// curve answered.
pub proof fn lemma_first_deposit_pays_the_maxima(p: DepositPending, curve: Option<(u64, u64)>)
    requires
        p.lp_supply == 0,
        p.vault_x_amount == 0,
        p.vault_y_amount == 0,
    ensures
        spec_deposit_settle(p, curve) == Ok::<Seq<Invocation>, AmmError>(
            spec_deposit_invocations(p.max_x, p.max_y, p.amount),
        ),
{
}

/// A settled deposit never pays more than the depositor's maxima of either
/// token, and always mints exactly the shares asked for.
pub proof fn lemma_deposit_stays_within_the_maxima(p: DepositPending, curve: Option<(u64, u64)>)
    requires
        spec_deposit_settle(p, curve) is Ok,
    ensures
        ({
            let inv = spec_deposit_settle(p, curve)->Ok_0;
            &&& inv.len() == 3
            &&& inv[0].instruction is Transfer && inv[0].instruction->Transfer_amount <= p.max_x
            &&& inv[1].instruction is Transfer && inv[1].instruction->Transfer_amount <= p.max_y
            &&& inv[2].instruction is MintTo && inv[2].instruction->MintTo_amount == p.amount
        }),
{
}

/// A withdrawal of fewer shares than the whole supply takes exactly the
/// amounts that the curve computed: it is settled when they reach the
/// holder's minima and refused otherwise, and it is refused when the curve
/// failed. The vaults are never emptied there in place of the curve's
/// amounts.
pub proof fn lemma_partial_withdrawal_takes_the_curve(p: WithdrawPending, x: u64, y: u64)
    requires
        p.amount != p.lp_supply,
    ensures
        spec_withdraw_settle(p, Some((x, y))) == (if x >= p.min_x && y >= p.min_y {
            Ok(spec_withdraw_invocations(x, y, p.amount))
        } else {
            Err(AmmError::InvalidArgument)
        }),
        spec_withdraw_settle(p, None) == Err::<Seq<Invocation>, AmmError>(AmmError::InvalidArgument),
{
}

/// A withdrawal that burns the whole share supply takes both vaults whole,
/// whatever the curve answered, when they reach the holder's minima, and is
/// refused otherwise.
pub proof fn lemma_last_withdrawal_empties_the_vaults(p: WithdrawPending, curve: Option<(u64, u64)>)
    requires
        p.amount == p.lp_supply,
    ensures
        spec_withdraw_settle(p, curve) == (if p.vault_x_amount >= p.min_x && p.vault_y_amount
            >= p.min_y {
            Ok(spec_withdraw_invocations(p.vault_x_amount, p.vault_y_amount, p.amount))
        } else {
            Err(AmmError::InvalidArgument)
        }),
{
}

/// A settled withdrawal never pays less than the holder's minima of either
/// token, and always burns exactly the shares given up.
pub proof fn lemma_withdrawal_meets_the_minima(p: WithdrawPending, curve: Option<(u64, u64)>)
    requires
        spec_withdraw_settle(p, curve) is Ok,
    ensures
        ({
            let inv = spec_withdraw_settle(p, curve)->Ok_0;
            &&& inv.len() == 3
            &&& inv[0].instruction is Transfer && inv[0].instruction->Transfer_amount >= p.min_x
            &&& inv[1].instruction is Transfer && inv[1].instruction->Transfer_amount >= p.min_y
            &&& inv[2].instruction is Burn && inv[2].instruction->Burn_amount == p.amount
        }),
{
}

/// A swap is settled with exactly the amounts that the curve computed, paid in
/// and taken out in the trader's direction, when both are non-zero; a zero
/// amount refuses it, and a failed curve refuses it with the curve's own
/// error.
pub proof fn lemma_swap_settles_on_the_curve(p: SwapPending, deposit: u64, withdraw: u64)
    ensures
        spec_swap_settle(p, Some((deposit, withdraw))) == (if deposit != 0 && withdraw != 0 {
            Ok(spec_swap_invocations(p.is_x, deposit, withdraw))
        } else {
            Err(AmmError::InvalidArgument)
        }),
        spec_swap_settle(p, None) == Err::<Seq<Invocation>, AmmError>(AmmError::Custom(1)),
{
}

/// The curve prices every swap on the pool's reserves as they are: the query
/// holds the first vault's balance as `x` and the second's as `y` in either
/// direction, and two swaps that differ only in their direction ask the
/// curve about the same pool.
pub proof fn lemma_swap_query_is_the_pool_in_either_direction(p: SwapPending, q: SwapPending)
    requires
        q.vault_x_amount == p.vault_x_amount,
        q.vault_y_amount == p.vault_y_amount,
        q.fee == p.fee,
    ensures
        p.spec_curve_query().x == p.vault_x_amount,
        p.spec_curve_query().y == p.vault_y_amount,
        p.spec_curve_query().fee == p.fee,
        p.spec_curve_query().is_x == p.is_x,
        p.spec_curve_query().amount == p.amount,
        p.spec_curve_query().min == p.min,
        p.spec_curve_query().x == q.spec_curve_query().x,
        p.spec_curve_query().y == q.spec_curve_query().y,
        p.spec_curve_query().l == q.spec_curve_query().l,
{
}

/// A deposit into a pool that holds shares or tokens asks the curve about
/// the pool's vault balances, its share supply and the shares to mint; only
/// the first deposit into an empty pool asks nothing.
pub proof fn lemma_deposit_query_is_the_pool(p: DepositPending)
    ensures
        (p.lp_supply != 0 || p.vault_x_amount != 0 || p.vault_y_amount != 0) ==> p.spec_curve_query()
            == Some(
            DepositCurveQuery {
                x: p.vault_x_amount,
                y: p.vault_y_amount,
                l: p.lp_supply,
                a: p.amount,
                precision: 6,
            },
        ),
        (p.lp_supply == 0 && p.vault_x_amount == 0 && p.vault_y_amount == 0) ==> p.spec_curve_query()
            is None,
{
}

/// A withdrawal of fewer shares than the whole supply asks the curve about
/// the pool's vault balances, its share supply and the shares to burn; only
/// one that burns every share asks nothing.
pub proof fn lemma_withdraw_query_is_the_pool(p: WithdrawPending)
    ensures
        p.amount != p.lp_supply ==> p.spec_curve_query() == Some(
            WithdrawCurveQuery {
                x: p.vault_x_amount,
                y: p.vault_y_amount,
                l: p.lp_supply,
                a: p.amount,
                precision: 6,
            },
        ),
        p.amount == p.lp_supply ==> p.spec_curve_query() is None,
{
}

/// A token account laid out as the token program lays it out, its mint, then
/// its holder, then its balance in little-endian order, then the rest of its
/// fields, reads back as that mint, holder and balance, for every value of
/// each.
pub proof fn lemma_token_account_reads_back(
    account: AccountView,
    mint: Seq<u8>,
    owner: Seq<u8>,
    amount: u64,
    rest: Seq<u8>,
)
    requires
        mint.len() == 32,
        owner.len() == 32,
        rest.len() == 93,
        account.owner@ == spec_token_program_id(),
        account.data@ == mint + owner + le_bytes_u64(amount) + rest,
    ensures
        spec_token_account(&account) == Ok::<TokenAccountModel, AmmError>(
            TokenAccountModel { mint, owner, amount },
        ),
{
    lemma_le_u64_of_bytes(amount);
    let d = account.data@;
    assert(d.subrange(0, 32) =~= mint);
    assert(d.subrange(32, 64) =~= owner);
    assert(d.subrange(64, 72) =~= le_bytes_u64(amount));
}

/// A mint laid out as the token program lays it out, the tag of its mint
/// authority (one when there is one), the authority, then its supply in
/// little-endian order, then the rest of its fields, reads back as that
/// authority and supply, for every value of each.
pub proof fn lemma_mint_reads_back(
    account: AccountView,
    authority: Option<Seq<u8>>,
    slot: Seq<u8>,
    supply: u64,
    rest: Seq<u8>,
)
    requires
        slot.len() == 32,
        rest.len() == 38,
        authority matches Some(a) ==> a == slot,
        account.owner@ == spec_token_program_id(),
        account.data@ == seq![if authority is Some { 1u8 } else { 0u8 }, 0u8, 0u8, 0u8] + slot
            + le_bytes_u64(supply) + rest,
    ensures
        spec_mint(&account) == Ok::<MintModel, AmmError>(
            MintModel { mint_authority: authority, supply },
        ),
{
    lemma_le_u64_of_bytes(supply);
    let d = account.data@;
    assert(d.subrange(4, 36) =~= slot);
    assert(d.subrange(36, 44) =~= le_bytes_u64(supply));
}

} // verus!
