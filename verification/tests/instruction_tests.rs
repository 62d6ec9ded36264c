use pinocchio::error::ProgramError;
use pinocchio_amm::account::AccountView;
use pinocchio_amm::address::Address;
use pinocchio_amm::error::AmmError;
use pinocchio_amm::instructions::deposit::{
    Deposit, DepositAccounts, DepositCurveQuery, DepositInstructionData,
};
use pinocchio_amm::instructions::helper::{
    check_not_expired, require_non_zero, require_not_expired, require_program, require_signer,
    verify_vault_ata,
};
use pinocchio_amm::instructions::initialize::{Initialize, InitializeInstructionData};
use pinocchio_amm::instructions::swap::{Swap, SwapAccounts, SwapInstructionData, SwapPending};
use pinocchio_amm::instructions::withdraw::{Withdraw, WithdrawCurveQuery, WithdrawInstructionData};
use pinocchio_amm::instructions::{config_signer_seeds, Invocation, TokenInstruction};
use pinocchio_amm::processor::{decode_instruction, process_instruction, process_instruction_at, Instruction, Pending};
use pinocchio_amm::token::{Mint, TokenAccount};

const PROGRAM: Address = [200u8; 32];
const CONFIG_ADDR: Address = [201u8; 32];
const USER_ADDR: Address = [202u8; 32];
const MINT_X: Address = [203u8; 32];
const MINT_Y: Address = [204u8; 32];
const MINT_LP: Address = [205u8; 32];

fn token_program() -> Address {
    pinocchio_token::ID.to_bytes()
}

fn ata(owner: &Address, mint: &Address) -> Address {
    let (address, _bump) = solana_address::Address::find_program_address(
        &[owner.as_ref(), token_program().as_ref(), mint.as_ref()],
        &pinocchio_associated_token_account::ID,
    );
    address.to_bytes()
}

fn plain(address: Address, owner: Address, data: Vec<u8>) -> AccountView {
    AccountView { address, owner, is_signer: false, executable: false, data }
}

fn token_data(mint: &Address, holder: &Address, amount: u64) -> Vec<u8> {
    let mut d: Vec<u8> = vec![0u8; 165];
    d[0..32].copy_from_slice(mint);
    d[32..64].copy_from_slice(holder);
    d[64..72].copy_from_slice(&amount.to_le_bytes());
    d
}

fn mint_data(authority: Option<&Address>, supply: u64) -> Vec<u8> {
    let mut d: Vec<u8> = vec![0u8; 82];
    if let Some(a) = authority {
        d[0] = 1;
        d[4..36].copy_from_slice(a);
    }
    d[36..44].copy_from_slice(&supply.to_le_bytes());
    d
}

fn config_data(state: u8, seed: u64, fee: u16, bump: u8) -> Vec<u8> {
    let mut b: Vec<u8> = Vec::new();
    b.push(state);
    b.extend_from_slice(&seed.to_le_bytes());
    b.extend_from_slice(&[0u8; 32]);
    b.extend_from_slice(&MINT_X);
    b.extend_from_slice(&MINT_Y);
    b.extend_from_slice(&fee.to_le_bytes());
    b.push(bump);
    b
}

/// The accounts of a deposit or withdrawal, in their order.
fn liquidity_accounts(state: u8, vault_x: u64, vault_y: u64, supply: u64) -> Vec<AccountView> {
    let tp: Address = token_program();
    let vx: Address = ata(&CONFIG_ADDR, &MINT_X);
    let vy: Address = ata(&CONFIG_ADDR, &MINT_Y);
    vec![
        AccountView { address: USER_ADDR, owner: [0u8; 32], is_signer: true, executable: false, data: vec![] },
        plain(MINT_LP, tp, mint_data(Some(&CONFIG_ADDR), supply)),
        plain(vx, tp, token_data(&MINT_X, &CONFIG_ADDR, vault_x)),
        plain(vy, tp, token_data(&MINT_Y, &CONFIG_ADDR, vault_y)),
        plain([210u8; 32], tp, token_data(&MINT_X, &USER_ADDR, 1_000)),
        plain([211u8; 32], tp, token_data(&MINT_Y, &USER_ADDR, 1_000)),
        plain([212u8; 32], tp, token_data(&MINT_LP, &USER_ADDR, 0)),
        plain(CONFIG_ADDR, PROGRAM, config_data(state, 7, 30, 253)),
        AccountView { address: tp, owner: [0u8; 32], is_signer: false, executable: true, data: vec![] },
    ]
}

/// The accounts of a swap, in their order.
fn swap_accounts(state: u8, vault_x: u64, vault_y: u64) -> Vec<AccountView> {
    let tp: Address = token_program();
    vec![
        AccountView { address: USER_ADDR, owner: [0u8; 32], is_signer: true, executable: false, data: vec![] },
        plain([210u8; 32], tp, token_data(&MINT_X, &USER_ADDR, 1_000)),
        plain([211u8; 32], tp, token_data(&MINT_Y, &USER_ADDR, 1_000)),
        plain(ata(&CONFIG_ADDR, &MINT_X), tp, token_data(&MINT_X, &CONFIG_ADDR, vault_x)),
        plain(ata(&CONFIG_ADDR, &MINT_Y), tp, token_data(&MINT_Y, &CONFIG_ADDR, vault_y)),
        plain(CONFIG_ADDR, PROGRAM, config_data(state, 7, 30, 253)),
        AccountView { address: tp, owner: [0u8; 32], is_signer: false, executable: true, data: vec![] },
    ]
}

fn four_ints(a: u64, b: u64, c: u64, d: i64) -> Vec<u8> {
    let mut v: Vec<u8> = Vec::new();
    v.extend_from_slice(&a.to_le_bytes());
    v.extend_from_slice(&b.to_le_bytes());
    v.extend_from_slice(&c.to_le_bytes());
    v.extend_from_slice(&d.to_le_bytes());
    v
}

fn expected_seeds() -> Vec<Vec<u8>> {
    vec![
        b"config".to_vec(),
        7u64.to_le_bytes().to_vec(),
        MINT_X.to_vec(),
        MINT_Y.to_vec(),
        vec![253],
    ]
}

#[test]
fn program_addresses_are_those_of_the_programs() {
    assert_eq!(
        pinocchio_token::ID.to_bytes(),
        [6, 221, 246, 225, 215, 101, 161, 147, 217, 203, 225, 70, 206, 235, 121, 172, 28, 180, 133, 237,
            95, 91, 55, 145, 58, 140, 245, 133, 126, 255, 0, 169]
    );
    assert_eq!(pinocchio_system::ID.to_bytes(), [0u8; 32]);
    assert_eq!(
        pinocchio_associated_token_account::ID.to_bytes(),
        [140, 151, 37, 143, 78, 36, 137, 241, 187, 61, 16, 41, 20, 142, 13, 131, 11, 90, 19, 153, 218,
            255, 16, 132, 4, 142, 123, 216, 219, 233, 248, 89]
    );
}

#[test]
fn helpers_check_signer_program_and_amounts() {
    let signer = AccountView { address: USER_ADDR, owner: [0u8; 32], is_signer: true, executable: false, data: vec![] };
    let other = AccountView { address: USER_ADDR, owner: [0u8; 32], is_signer: false, executable: false, data: vec![] };
    assert_eq!(require_signer(&signer), Ok(()));
    assert_eq!(require_signer(&other), Err(AmmError::MissingRequiredSignature));
    let tp: Address = token_program();
    let program = AccountView { address: tp, owner: [0u8; 32], is_signer: false, executable: true, data: vec![] };
    let not_executable = AccountView { address: tp, owner: [0u8; 32], is_signer: false, executable: false, data: vec![] };
    assert_eq!(require_program(&program, &tp), Ok(()));
    assert_eq!(require_program(&not_executable, &tp), Err(AmmError::IncorrectProgramId));
    assert_eq!(require_program(&program, &MINT_X), Err(AmmError::IncorrectProgramId));
    assert_eq!(require_non_zero(&[1, 2, 3]), Ok(()));
    assert_eq!(require_non_zero(&[1, 0, 3]), Err(AmmError::InvalidInstructionData));
    assert_eq!(require_non_zero(&[]), Ok(()));
}

#[test]
fn expiry_is_inclusive_and_clock_errors_pass_through() {
    assert_eq!(check_not_expired(100, Ok(100)), Ok(()));
    assert_eq!(check_not_expired(100, Ok(101)), Err(AmmError::InvalidArgument));
    assert_eq!(
        check_not_expired(100, Err(ProgramError::UnsupportedSysvar)),
        Err(AmmError::Runtime(ProgramError::UnsupportedSysvar))
    );
    // Off the chain the runtime has no clock to give.
    assert!(matches!(require_not_expired(i64::MAX), Err(AmmError::Runtime(_))));
}

#[test]
fn vault_must_be_the_derived_associated_account() {
    let tp: Address = token_program();
    let owner = plain(CONFIG_ADDR, PROGRAM, vec![]);
    let token = plain(tp, [0u8; 32], vec![]);
    let good = plain(ata(&CONFIG_ADDR, &MINT_X), tp, vec![]);
    assert_eq!(verify_vault_ata(&good, &owner, &token, &MINT_X), Ok(()));
    // The derived address is not any of its seeds.
    let seed_itself = plain(CONFIG_ADDR, tp, vec![]);
    assert_eq!(verify_vault_ata(&seed_itself, &owner, &token, &MINT_X), Err(AmmError::InvalidAccountData));
    assert_eq!(verify_vault_ata(&good, &owner, &token, &MINT_Y), Err(AmmError::InvalidAccountData));
}

#[test]
fn token_layouts_are_read_after_checks() {
    let tp: Address = token_program();
    let t = TokenAccount::from_account_view_unchecked(&plain([1u8; 32], tp, token_data(&MINT_X, &USER_ADDR, 55)));
    match t {
        Ok(t) => {
            assert_eq!(t.mint, MINT_X);
            assert_eq!(t.owner, USER_ADDR);
            assert_eq!(t.amount, 55);
        },
        Err(e) => panic!("unexpected {:?}", e),
    }
    assert_eq!(
        TokenAccount::from_account_view_unchecked(&plain([1u8; 32], PROGRAM, token_data(&MINT_X, &USER_ADDR, 55))).err(),
        Some(AmmError::InvalidAccountData)
    );
    assert_eq!(
        TokenAccount::from_account_view_unchecked(&plain([1u8; 32], tp, vec![0u8; 82])).err(),
        Some(AmmError::InvalidAccountData)
    );
    match Mint::from_account_view_unchecked(&plain(MINT_LP, tp, mint_data(Some(&CONFIG_ADDR), 900))) {
        Ok(m) => {
            assert_eq!(m.mint_authority, Some(CONFIG_ADDR));
            assert_eq!(m.supply, 900);
        },
        Err(e) => panic!("unexpected {:?}", e),
    }
    match Mint::from_account_view_unchecked(&plain(MINT_LP, tp, mint_data(None, 1))) {
        Ok(m) => assert_eq!(m.mint_authority, None),
        Err(e) => panic!("unexpected {:?}", e),
    }
    assert_eq!(
        Mint::from_account_view_unchecked(&plain(MINT_LP, PROGRAM, mint_data(None, 1))).err(),
        Some(AmmError::InvalidAccountOwner)
    );
    assert_eq!(
        Mint::from_account_view_unchecked(&plain(MINT_LP, tp, vec![0u8; 165])).err(),
        Some(AmmError::InvalidAccountData)
    );
}

#[test]
fn instruction_arguments_decode() {
    let d = DepositInstructionData::try_from(&four_ints(1, 2, 3, -4)).ok().unwrap();
    assert_eq!((d.amount, d.max_x, d.max_y, d.expiration), (1, 2, 3, -4));
    assert!(DepositInstructionData::try_from(&[0u8; 31]).is_err());
    let w = WithdrawInstructionData::try_from(&four_ints(5, 6, 7, 8)).ok().unwrap();
    assert_eq!((w.amount, w.min_x, w.min_y, w.expiration), (5, 6, 7, 8));
    assert_eq!(WithdrawInstructionData::try_from(&[0u8; 33]).err(), Some(AmmError::InvalidInstructionData));

    let mut s: Vec<u8> = vec![1];
    s.extend_from_slice(&10u64.to_le_bytes());
    s.extend_from_slice(&9u64.to_le_bytes());
    s.extend_from_slice(&(-1i64).to_le_bytes());
    let sw = SwapInstructionData::try_from(&s).ok().unwrap();
    assert_eq!((sw.is_x, sw.amount, sw.min, sw.expiration), (true, 10, 9, -1));
    s[0] = 0;
    assert!(!SwapInstructionData::try_from(&s).ok().unwrap().is_x);
    s[0] = 2;
    assert_eq!(SwapInstructionData::try_from(&s).err(), Some(AmmError::InvalidInstructionData));
    assert_eq!(SwapInstructionData::try_from(&s[..24]).err(), Some(AmmError::InvalidInstructionData));
}

fn initialize_bytes(with_authority: bool) -> Vec<u8> {
    let mut v: Vec<u8> = Vec::new();
    v.extend_from_slice(&42u64.to_le_bytes());
    v.extend_from_slice(&30u16.to_le_bytes());
    v.extend_from_slice(&MINT_X);
    v.extend_from_slice(&MINT_Y);
    v.push(254);
    v.push(253);
    if with_authority {
        v.extend_from_slice(&[9u8; 32]);
    }
    v
}

#[test]
fn initialize_arguments_decode_with_or_without_authority() {
    let full = InitializeInstructionData::try_from(&initialize_bytes(true)).ok().unwrap();
    assert_eq!(full.seed, 42);
    assert_eq!(full.fee, 30);
    assert_eq!(full.mint_x, MINT_X);
    assert_eq!(full.mint_y, MINT_Y);
    assert_eq!(full.config_bump, [254]);
    assert_eq!(full.lp_bump, [253]);
    assert_eq!(full.authority, [9u8; 32]);
    let short = InitializeInstructionData::try_from(&initialize_bytes(false)).ok().unwrap();
    assert_eq!(short.authority, [0u8; 32]);
    assert_eq!(short.seed, 42);
    let mut bad: Vec<u8> = initialize_bytes(false);
    bad.push(0);
    assert_eq!(InitializeInstructionData::try_from(&bad).err(), Some(AmmError::InvalidInstructionData));
}

#[test]
fn decode_dispatches_on_the_first_byte() {
    let accounts: Vec<AccountView> = liquidity_accounts(1, 0, 0, 0);
    assert!(matches!(decode_instruction(&[], &accounts), Err(AmmError::InvalidInstructionData)));
    assert!(matches!(decode_instruction(&[4], &accounts), Err(AmmError::InvalidInstructionData)));
    let mut dep: Vec<u8> = vec![1];
    dep.extend_from_slice(&four_ints(1, 2, 3, 4));
    assert!(matches!(decode_instruction(&dep, &accounts), Ok(Instruction::Deposit(_))));
    dep[0] = 2;
    assert!(matches!(decode_instruction(&dep, &accounts), Ok(Instruction::Withdraw(_))));
    dep[0] = 3;
    assert!(matches!(decode_instruction(&dep, &accounts), Err(AmmError::InvalidInstructionData)));
    let mut init: Vec<u8> = vec![0];
    init.extend_from_slice(&initialize_bytes(true));
    assert!(matches!(decode_instruction(&init, &accounts), Ok(Instruction::Initialize(_))));
    assert!(matches!(decode_instruction(&init, &accounts[..4]), Err(AmmError::NotEnoughAccountKeys)));
    let swap_accts: Vec<AccountView> = swap_accounts(1, 0, 0);
    let mut sw: Vec<u8> = vec![3, 1];
    sw.extend_from_slice(&[0u8; 24]);
    assert!(matches!(decode_instruction(&sw, &swap_accts), Ok(Instruction::Swap(_))));
    assert!(matches!(decode_instruction(&sw, &swap_accts[..6]), Err(AmmError::NotEnoughAccountKeys)));
}

#[test]
fn config_signer_seeds_are_the_config_address_seeds() {
    assert_eq!(config_signer_seeds(7, &MINT_X, &MINT_Y, [253]), expected_seeds());
}

fn deposit<'a>(accounts: &'a [AccountView], data: &'a [u8]) -> Deposit<'a> {
    match Deposit::try_from((data, accounts)) {
        Ok(d) => d,
        Err(e) => panic!("unexpected {:?}", e),
    }
}

#[test]
fn first_deposit_pays_the_maxima() {
    let accounts: Vec<AccountView> = liquidity_accounts(1, 0, 0, 0);
    let data: Vec<u8> = four_ints(100, 40, 60, 1_000);
    let dep = deposit(&accounts, &data);
    let pending = dep.process_at(&PROGRAM, Ok(999)).ok().unwrap();
    assert_eq!(pending.curve_query(), None);
    let plan = pending.settle(None).ok().unwrap();
    assert_eq!(
        plan.invocations,
        vec![
            Invocation { instruction: TokenInstruction::Transfer { from: 4, to: 2, authority: 0, amount: 40 }, signed_by_config: false },
            Invocation { instruction: TokenInstruction::Transfer { from: 5, to: 3, authority: 0, amount: 60 }, signed_by_config: false },
            Invocation { instruction: TokenInstruction::MintTo { mint: 1, account: 6, mint_authority: 7, amount: 100 }, signed_by_config: true },
        ]
    );
    assert_eq!(plan.signer_seeds, expected_seeds());
}

#[test]
fn later_deposit_pays_the_curve_amounts_within_the_maxima() {
    let accounts: Vec<AccountView> = liquidity_accounts(1, 500, 800, 1_000);
    let data: Vec<u8> = four_ints(100, 60, 90, 1_000);
    let dep = deposit(&accounts, &data);
    let pending = dep.process_at(&PROGRAM, Ok(10)).ok().unwrap();
    assert_eq!(pending.lp_supply, 1_000);
    assert_eq!((pending.vault_x_amount, pending.vault_y_amount), (500, 800));
    assert_eq!(pending.curve_query(), Some(DepositCurveQuery { x: 500, y: 800, l: 1_000, a: 100, precision: 6 }));
    let plan = pending.settle(Some((50, 80))).ok().unwrap();
    assert_eq!(plan.invocations[0].instruction, TokenInstruction::Transfer { from: 4, to: 2, authority: 0, amount: 50 });
    assert_eq!(plan.invocations[1].instruction, TokenInstruction::Transfer { from: 5, to: 3, authority: 0, amount: 80 });
    assert_eq!(pending.settle(Some((61, 80))).err(), Some(AmmError::InvalidArgument));
    assert_eq!(pending.settle(None).err(), Some(AmmError::InvalidArgument));
}

#[test]
fn deposit_checks_fail_in_order() {
    let data: Vec<u8> = four_ints(100, 60, 90, 1_000);
    let mut accounts: Vec<AccountView> = liquidity_accounts(1, 500, 800, 1_000);
    accounts[0].is_signer = false;
    accounts[8].executable = false;
    assert_eq!(deposit(&accounts, &data).process_at(&PROGRAM, Ok(0)).err(), Some(AmmError::MissingRequiredSignature));
    accounts[0].is_signer = true;
    assert_eq!(deposit(&accounts, &data).process_at(&PROGRAM, Ok(0)).err(), Some(AmmError::IncorrectProgramId));
    accounts[8].executable = true;
    let zero: Vec<u8> = four_ints(100, 0, 90, 1_000);
    assert_eq!(deposit(&accounts, &zero).process_at(&PROGRAM, Ok(0)).err(), Some(AmmError::InvalidInstructionData));
    assert_eq!(deposit(&accounts, &data).process_at(&PROGRAM, Ok(1_001)).err(), Some(AmmError::InvalidArgument));
    assert_eq!(deposit(&accounts, &data).process_at(&MINT_X, Ok(0)).err(), Some(AmmError::InvalidAccountOwner));
    let withdraw_only: Vec<AccountView> = liquidity_accounts(3, 500, 800, 1_000);
    assert_eq!(deposit(&withdraw_only, &data).process_at(&PROGRAM, Ok(0)).err(), Some(AmmError::InvalidAccountData));
    let mut wrong_vault: Vec<AccountView> = liquidity_accounts(1, 500, 800, 1_000);
    wrong_vault[2].address = [1u8; 32];
    assert_eq!(deposit(&wrong_vault, &data).process_at(&PROGRAM, Ok(0)).err(), Some(AmmError::InvalidAccountData));
    let mut foreign_mint: Vec<AccountView> = liquidity_accounts(1, 500, 800, 1_000);
    foreign_mint[1].data = mint_data(Some(&USER_ADDR), 1_000);
    assert_eq!(deposit(&foreign_mint, &data).process_at(&PROGRAM, Ok(0)).err(), Some(AmmError::InvalidAccountData));
    let mut foreign_user_account: Vec<AccountView> = liquidity_accounts(1, 500, 800, 1_000);
    foreign_user_account[6].data = token_data(&MINT_LP, &CONFIG_ADDR, 0);
    assert_eq!(deposit(&foreign_user_account, &data).process_at(&PROGRAM, Ok(0)).err(), Some(AmmError::InvalidAccountData));
    assert!(matches!(deposit(&accounts, &data).process(&PROGRAM), Err(AmmError::Runtime(_))));
    assert_eq!(DepositAccounts::try_from(&accounts[..8]).err().unwrap(), AmmError::NotEnoughAccountKeys);
}

fn withdraw<'a>(accounts: &'a [AccountView], data: &'a [u8]) -> Withdraw<'a> {
    match Withdraw::try_from((data, accounts)) {
        Ok(w) => w,
        Err(e) => panic!("unexpected {:?}", e),
    }
}

#[test]
fn burning_every_share_takes_both_vaults() {
    let accounts: Vec<AccountView> = liquidity_accounts(3, 500, 800, 1_000);
    let data: Vec<u8> = four_ints(1_000, 500, 800, 50);
    let pending = withdraw(&accounts, &data).process_at(&PROGRAM, Ok(50)).ok().unwrap();
    assert_eq!(pending.curve_query(), None);
    let plan = pending.settle(None).ok().unwrap();
    assert_eq!(
        plan.invocations,
        vec![
            Invocation { instruction: TokenInstruction::Transfer { from: 2, to: 4, authority: 7, amount: 500 }, signed_by_config: true },
            Invocation { instruction: TokenInstruction::Transfer { from: 3, to: 5, authority: 7, amount: 800 }, signed_by_config: true },
            Invocation { instruction: TokenInstruction::Burn { account: 6, mint: 1, authority: 0, amount: 1_000 }, signed_by_config: false },
        ]
    );
    assert_eq!(plan.signer_seeds, expected_seeds());
}

#[test]
fn partial_withdrawal_honours_the_minima() {
    let accounts: Vec<AccountView> = liquidity_accounts(1, 500, 800, 1_000);
    let data: Vec<u8> = four_ints(100, 50, 80, 50);
    let pending = withdraw(&accounts, &data).process_at(&PROGRAM, Ok(0)).ok().unwrap();
    assert_eq!(pending.curve_query(), Some(WithdrawCurveQuery { x: 500, y: 800, l: 1_000, a: 100, precision: 6 }));
    assert!(pending.settle(Some((50, 80))).is_ok());
    assert_eq!(pending.settle(Some((49, 80))).err(), Some(AmmError::InvalidArgument));
    assert_eq!(pending.settle(None).err(), Some(AmmError::InvalidArgument));
}

#[test]
fn withdrawal_refusals() {
    let data: Vec<u8> = four_ints(1_001, 1, 1, 50);
    let accounts: Vec<AccountView> = liquidity_accounts(1, 500, 800, 1_000);
    assert_eq!(withdraw(&accounts, &data).process_at(&PROGRAM, Ok(0)).err(), Some(AmmError::InsufficientFunds));
    let disabled: Vec<AccountView> = liquidity_accounts(2, 500, 800, 1_000);
    assert_eq!(withdraw(&disabled, &four_ints(1, 1, 1, 50)).process_at(&PROGRAM, Ok(0)).err(), Some(AmmError::InvalidAccountData));
    let uninitialized: Vec<AccountView> = liquidity_accounts(0, 500, 800, 1_000);
    assert!(withdraw(&uninitialized, &four_ints(1, 1, 1, 50)).process_at(&PROGRAM, Ok(0)).is_ok());
}

fn swap_data(is_x: bool, amount: u64, min: u64, expiration: i64) -> Vec<u8> {
    let mut s: Vec<u8> = vec![if is_x { 1 } else { 0 }];
    s.extend_from_slice(&amount.to_le_bytes());
    s.extend_from_slice(&min.to_le_bytes());
    s.extend_from_slice(&expiration.to_le_bytes());
    s
}

fn swap<'a>(accounts: &'a [AccountView], data: &'a [u8]) -> Swap<'a> {
    match Swap::try_from((data, accounts)) {
        Ok(s) => s,
        Err(e) => panic!("unexpected {:?}", e),
    }
}

#[test]
fn swap_moves_tokens_in_the_chosen_direction() {
    let accounts: Vec<AccountView> = swap_accounts(1, 500, 800);
    let data: Vec<u8> = swap_data(false, 20, 5, 9);
    let pending = swap(&accounts, &data).process_at(&PROGRAM, Ok(9)).ok().unwrap();
    assert_eq!(pending.fee, 30);
    let q = pending.curve_query();
    assert_eq!((q.x, q.y, q.l, q.fee, q.is_x, q.amount, q.min), (500, 800, 500, 30, false, 20, 5));
    let plan = pending.settle(Some((20, 12))).ok().unwrap();
    assert_eq!(
        plan.invocations,
        vec![
            Invocation { instruction: TokenInstruction::Transfer { from: 2, to: 4, authority: 0, amount: 20 }, signed_by_config: false },
            Invocation { instruction: TokenInstruction::Transfer { from: 3, to: 1, authority: 5, amount: 12 }, signed_by_config: true },
        ]
    );
    assert_eq!(pending.settle(Some((20, 0))).err(), Some(AmmError::InvalidArgument));
    assert_eq!(pending.settle(Some((0, 12))).err(), Some(AmmError::InvalidArgument));
    // Whatever non-zero amounts the curve answers are the amounts moved.
    let answered = pending.settle(Some((9, 5))).ok().unwrap();
    assert_eq!(answered.invocations[0].instruction, TokenInstruction::Transfer { from: 2, to: 4, authority: 0, amount: 9 });
    assert_eq!(answered.invocations[1].instruction, TokenInstruction::Transfer { from: 3, to: 1, authority: 5, amount: 5 });
    assert_eq!(pending.settle(None).err(), Some(AmmError::Custom(1)));
    let empty_order = SwapPending {
        seed: 7,
        mint_x: MINT_X,
        mint_y: MINT_Y,
        fee: 30,
        config_bump: [253],
        vault_x_amount: 500,
        vault_y_amount: 800,
        is_x: true,
        amount: 0,
        min: 0,
    };
    assert_eq!(empty_order.settle(Some((0, 3))).err(), Some(AmmError::InvalidArgument));

    let forward: Vec<u8> = swap_data(true, 20, 5, 9);
    let p2 = swap(&accounts, &forward).process_at(&PROGRAM, Ok(0)).ok().unwrap();
    let plan2 = p2.settle(Some((20, 30))).ok().unwrap();
    assert_eq!(plan2.invocations[0].instruction, TokenInstruction::Transfer { from: 1, to: 3, authority: 0, amount: 20 });
    assert_eq!(plan2.invocations[1].instruction, TokenInstruction::Transfer { from: 4, to: 2, authority: 5, amount: 30 });
}

#[test]
fn swap_refusals() {
    let data: Vec<u8> = swap_data(true, 20, 5, 9);
    let withdraw_only: Vec<AccountView> = swap_accounts(3, 500, 800);
    assert_eq!(swap(&withdraw_only, &data).process_at(&PROGRAM, Ok(0)).err(), Some(AmmError::InvalidAccountData));
    let zero_min: Vec<u8> = swap_data(true, 20, 0, 9);
    let accounts: Vec<AccountView> = swap_accounts(1, 500, 800);
    assert_eq!(swap(&accounts, &zero_min).process_at(&PROGRAM, Ok(0)).err(), Some(AmmError::InvalidInstructionData));
    let mut other_user: Vec<AccountView> = swap_accounts(1, 500, 800);
    other_user[1].data = token_data(&MINT_X, &CONFIG_ADDR, 5);
    assert_eq!(swap(&other_user, &data).process_at(&PROGRAM, Ok(0)).err(), Some(AmmError::InvalidAccountData));
    let mut vault_of_other_mint: Vec<AccountView> = swap_accounts(1, 500, 800);
    vault_of_other_mint[3].data = token_data(&MINT_Y, &CONFIG_ADDR, 500);
    assert_eq!(swap(&vault_of_other_mint, &data).process_at(&PROGRAM, Ok(0)).err(), Some(AmmError::InvalidAccountData));
    assert_eq!(SwapAccounts::try_from(&accounts[..6]).err().unwrap(), AmmError::NotEnoughAccountKeys);
}

fn initialize_accounts() -> Vec<AccountView> {
    vec![
        AccountView { address: USER_ADDR, owner: [0u8; 32], is_signer: true, executable: false, data: vec![] },
        plain(MINT_LP, [0u8; 32], vec![]),
        plain(CONFIG_ADDR, [0u8; 32], vec![]),
        AccountView { address: [0u8; 32], owner: [0u8; 32], is_signer: false, executable: true, data: vec![] },
        AccountView { address: token_program(), owner: [0u8; 32], is_signer: false, executable: true, data: vec![] },
    ]
}

#[test]
fn initialize_plans_the_accounts_and_writes_the_config() {
    let accounts: Vec<AccountView> = initialize_accounts();
    let data: Vec<u8> = initialize_bytes(true);
    let init: Initialize = Initialize::try_from((&data[..], &accounts[..])).ok().unwrap();
    let plan = init.process(&PROGRAM).ok().unwrap();
    assert_eq!(plan.config_space, 108);
    assert_eq!(plan.mint_lp_space, 82);
    assert_eq!(plan.decimals, 6);
    assert_eq!(
        plan.config_seeds,
        vec![b"config".to_vec(), 42u64.to_le_bytes().to_vec(), MINT_X.to_vec(), MINT_Y.to_vec(), vec![254]]
    );
    assert_eq!(plan.mint_lp_seeds, vec![b"mint_lp".to_vec(), CONFIG_ADDR.to_vec(), vec![253]]);
    assert_eq!(plan.payer, 0);
    assert_eq!(plan.config_account, 2);
    assert_eq!(plan.config_owner, PROGRAM);
    assert_eq!(plan.mint_lp_account, 1);
    assert_eq!(plan.mint_lp_owner, token_program());
    assert_eq!(plan.mint_authority, CONFIG_ADDR);
    assert_eq!(plan.freeze_authority, None);

    let mut created = plain(CONFIG_ADDR, PROGRAM, vec![0u8; 108]);
    assert_eq!(init.write_config(&mut created, &PROGRAM), Ok(()));
    let bytes: Vec<u8> = created.data.clone();
    let mut expected: Vec<u8> = vec![1];
    expected.extend_from_slice(&42u64.to_le_bytes());
    expected.extend_from_slice(&[9u8; 32]);
    expected.extend_from_slice(&MINT_X);
    expected.extend_from_slice(&MINT_Y);
    expected.extend_from_slice(&30u16.to_le_bytes());
    expected.push(254);
    assert_eq!(bytes, expected);
    let mut not_ours = plain(CONFIG_ADDR, [1u8; 32], vec![0u8; 108]);
    assert_eq!(init.write_config(&mut not_ours, &PROGRAM), Err(AmmError::InvalidAccountOwner));
    assert_eq!(not_ours.data, vec![0u8; 108]);
}

#[test]
fn initialize_refusals() {
    let accounts: Vec<AccountView> = initialize_accounts();
    let mut same_mints: Vec<u8> = initialize_bytes(false);
    same_mints[42..74].copy_from_slice(&MINT_X);
    let init: Initialize = Initialize::try_from((&same_mints[..], &accounts[..])).ok().unwrap();
    assert_eq!(init.process(&PROGRAM).err(), Some(AmmError::InvalidInstructionData));

    let mut wrong_system: Vec<AccountView> = initialize_accounts();
    wrong_system[3].address = [1u8; 32];
    let data: Vec<u8> = initialize_bytes(false);
    let init2: Initialize = Initialize::try_from((&data[..], &wrong_system[..])).ok().unwrap();
    assert_eq!(init2.process(&PROGRAM).err(), Some(AmmError::IncorrectProgramId));

    let mut high_fee: Vec<u8> = initialize_bytes(false);
    high_fee[8..10].copy_from_slice(&10_000u16.to_le_bytes());
    let init3: Initialize = Initialize::try_from((&high_fee[..], &accounts[..])).ok().unwrap();
    assert!(init3.process(&PROGRAM).is_ok());
    let mut created = plain(CONFIG_ADDR, PROGRAM, vec![0u8; 108]);
    assert_eq!(init3.write_config(&mut created, &PROGRAM), Err(AmmError::InvalidAccountData));
    // The state, seed, authority and mints were written before the fee was refused.
    assert_eq!(created.data[0], 1);
    assert_eq!(&created.data[105..108], &[0u8, 0, 0]);
}

#[test]
fn config_signs_only_pool_moves_in_every_plan() {
    let accounts: Vec<AccountView> = liquidity_accounts(1, 500, 800, 1_000);
    let data: Vec<u8> = four_ints(100, 60, 90, 1_000);
    let plan = deposit(&accounts, &data).process_at(&PROGRAM, Ok(0)).ok().unwrap().settle(Some((1, 1))).ok().unwrap();
    for inv in plan.invocations.iter() {
        let consenting: usize = match inv.instruction {
            TokenInstruction::Transfer { authority, .. } => authority,
            TokenInstruction::MintTo { mint_authority, .. } => mint_authority,
            TokenInstruction::Burn { authority, .. } => authority,
        };
        assert_eq!(inv.signed_by_config, consenting == 7);
        if !inv.signed_by_config {
            assert_eq!(consenting, 0);
        }
    }
}

#[test]
fn processing_decodes_then_runs_the_checks() {
    let accounts: Vec<AccountView> = liquidity_accounts(1, 500, 800, 1_000);
    let mut dep: Vec<u8> = vec![1];
    dep.extend_from_slice(&four_ints(100, 60, 90, 1_000));
    match process_instruction_at(&PROGRAM, &accounts, &dep, Ok(10)) {
        Ok(Pending::Deposit(p)) => assert_eq!((p.lp_supply, p.amount), (1_000, 100)),
        _ => panic!("expected a checked deposit"),
    }
    assert!(matches!(process_instruction_at(&PROGRAM, &accounts, &dep, Ok(1_001)), Err(AmmError::InvalidArgument)));
    dep[0] = 2;
    match process_instruction_at(&PROGRAM, &accounts, &dep, Ok(10)) {
        Ok(Pending::Withdraw(p)) => assert_eq!((p.min_x, p.min_y), (60, 90)),
        _ => panic!("expected a checked withdrawal"),
    }
    assert!(matches!(process_instruction_at(&PROGRAM, &accounts, &[9], Ok(0)), Err(AmmError::InvalidInstructionData)));
    assert!(matches!(process_instruction_at(&PROGRAM, &accounts[..3], &dep, Ok(0)), Err(AmmError::NotEnoughAccountKeys)));
    let swaps: Vec<AccountView> = swap_accounts(1, 500, 800);
    let mut sw: Vec<u8> = vec![3];
    sw.extend_from_slice(&swap_data(true, 20, 5, 9));
    assert!(matches!(process_instruction_at(&PROGRAM, &swaps, &sw, Ok(9)), Ok(Pending::Swap(_))));
    let inits: Vec<AccountView> = initialize_accounts();
    let mut init: Vec<u8> = vec![0];
    init.extend_from_slice(&initialize_bytes(false));
    assert!(matches!(process_instruction(&PROGRAM, &inits, &init), Ok(Pending::Initialize(_))));
    // Off the chain there is no clock, so an order's expiry cannot be checked.
    assert!(matches!(process_instruction(&PROGRAM, &swaps, &sw), Err(AmmError::Runtime(_))));
}
