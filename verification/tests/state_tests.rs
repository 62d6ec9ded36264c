use pinocchio_amm::account::AccountView;
use pinocchio_amm::error::AmmError;
use pinocchio_amm::state::{AmmState, Config};

fn config_bytes(state: u8, seed: u64, authority: [u8; 32], fee: u16, bump: u8) -> Vec<u8> {
    let mut b: Vec<u8> = Vec::new();
    b.push(state);
    b.extend_from_slice(&seed.to_le_bytes());
    b.extend_from_slice(&authority);
    b.extend_from_slice(&[7u8; 32]);
    b.extend_from_slice(&[8u8; 32]);
    b.extend_from_slice(&fee.to_le_bytes());
    b.push(bump);
    b
}

fn account(owner: [u8; 32], data: Vec<u8>) -> AccountView {
    AccountView { address: [42u8; 32], owner, is_signer: false, executable: false, data }
}

#[test]
fn config_reads_its_fields() {
    let bytes: Vec<u8> = config_bytes(1, 0x0102_0304_0506_0708, [9u8; 32], 30, 254);
    assert_eq!(bytes.len(), Config::LEN);
    let c: Config = Config::from_bytes_unchecked(&bytes);
    assert_eq!(c.state(), 1);
    assert_eq!(c.seed(), 0x0102_0304_0506_0708);
    assert_eq!(*c.authority(), [9u8; 32]);
    assert_eq!(*c.mint_x(), [7u8; 32]);
    assert_eq!(*c.mint_y(), [8u8; 32]);
    assert_eq!(c.fee(), 30);
    assert_eq!(c.config_bump(), [254]);
    assert_eq!(c.to_bytes(), bytes);
    let mut longer: Vec<u8> = bytes.clone();
    longer.extend_from_slice(&[1, 2, 3]);
    assert_eq!(Config::from_bytes_unchecked(&longer).to_bytes(), bytes);
}

#[test]
fn config_setters_write_their_fields() {
    let bytes: Vec<u8> = config_bytes(0, 0, [0u8; 32], 0, 0);
    let mut c: Config = Config::from_bytes_unchecked(&bytes);
    c.set_seed(77);
    c.set_authority([3u8; 32]);
    c.set_mint_x([4u8; 32]);
    c.set_mint_y([5u8; 32]);
    c.set_config_bump([6]);
    assert_eq!(c.set_state(AmmState::WithdrawOnly.as_u8()), Ok(()));
    assert_eq!(c.set_fee(9_999), Ok(()));
    assert_eq!(c.seed(), 77);
    assert_eq!(*c.authority(), [3u8; 32]);
    assert_eq!(*c.mint_x(), [4u8; 32]);
    assert_eq!(*c.mint_y(), [5u8; 32]);
    assert_eq!(c.config_bump(), [6]);
    assert_eq!(c.state(), 3);
    assert_eq!(c.fee(), 9_999);
}

#[test]
fn config_refuses_bad_state_and_fee() {
    let bytes: Vec<u8> = config_bytes(1, 5, [0u8; 32], 25, 1);
    let mut c: Config = Config::from_bytes_unchecked(&bytes);
    assert_eq!(c.set_state(4), Err(AmmError::InvalidAccountData));
    assert_eq!(c.set_fee(10_000), Err(AmmError::InvalidAccountData));
    assert_eq!(c.to_bytes(), bytes);
}

#[test]
fn set_inner_writes_everything_or_stops_at_the_fee() {
    let bytes: Vec<u8> = config_bytes(0, 0, [0u8; 32], 12, 13);
    let mut c: Config = Config::from_bytes_unchecked(&bytes);
    assert_eq!(c.set_inner(9, [1u8; 32], [2u8; 32], [3u8; 32], 500, [250]), Ok(()));
    assert_eq!(c.state(), AmmState::Initialized.as_u8());
    assert_eq!(c.seed(), 9);
    assert_eq!(c.fee(), 500);
    assert_eq!(c.config_bump(), [250]);

    let mut d: Config = Config::from_bytes_unchecked(&bytes);
    assert_eq!(
        d.set_inner(9, [1u8; 32], [2u8; 32], [3u8; 32], 10_000, [250]),
        Err(AmmError::InvalidAccountData)
    );
    // Everything before the fee was written; the fee and the bump were not.
    assert_eq!(d.state(), 1);
    assert_eq!(d.seed(), 9);
    assert_eq!(*d.mint_y(), [3u8; 32]);
    assert_eq!(d.fee(), 12);
    assert_eq!(d.config_bump(), [13]);
}

#[test]
fn has_authority_treats_zero_as_none() {
    let none: Config = Config::from_bytes_unchecked(&config_bytes(1, 0, [0u8; 32], 0, 0));
    assert_eq!(none.has_authority(), None);
    let mut last: [u8; 32] = [0u8; 32];
    last[31] = 1;
    let some: Config = Config::from_bytes_unchecked(&config_bytes(1, 0, last, 0, 0));
    assert_eq!(some.has_authority(), Some(last));
}

#[test]
fn load_checks_length_then_owner() {
    let program: [u8; 32] = [11u8; 32];
    let good: Vec<u8> = config_bytes(1, 3, [0u8; 32], 0, 0);
    let mut short: Vec<u8> = good.clone();
    short.pop();
    assert_eq!(
        Config::load(&account([12u8; 32], short), &program).err(),
        Some(AmmError::InvalidAccountData)
    );
    assert_eq!(
        Config::load(&account([12u8; 32], good.clone()), &program).err(),
        Some(AmmError::InvalidAccountOwner)
    );
    let loaded: Config = match Config::load(&account(program, good.clone()), &program) {
        Ok(c) => c,
        Err(e) => panic!("unexpected {:?}", e),
    };
    assert_eq!(loaded.to_bytes(), good);
    assert!(Config::load_unchecked(&account(program, good), &program).is_ok());
}

#[test]
fn amm_state_bytes() {
    assert_eq!(AmmState::Uninitialized.as_u8(), 0);
    assert_eq!(AmmState::Initialized.as_u8(), 1);
    assert_eq!(AmmState::Disabled.as_u8(), 2);
    assert_eq!(AmmState::WithdrawOnly.as_u8(), 3);
}

#[test]
fn load_mut_writes_through_to_the_account() {
    let program: [u8; 32] = [11u8; 32];
    let mut acct: AccountView = account(program, config_bytes(1, 3, [0u8; 32], 25, 9));
    match Config::load_mut(&mut acct, &program) {
        Ok(mut m) => {
            m.set_seed(99);
            assert_eq!(m.set_fee(10_000), Err(AmmError::InvalidAccountData));
            assert_eq!(m.set_fee(40), Ok(()));
            m.set_mint_x([1u8; 32]);
            assert_eq!(m.as_config().seed(), 99);
        },
        Err(e) => panic!("unexpected {:?}", e),
    }
    let c: Config = Config::load(&acct, &program).ok().unwrap();
    assert_eq!(c.seed(), 99);
    assert_eq!(c.fee(), 40);
    assert_eq!(*c.mint_x(), [1u8; 32]);
    assert_eq!(*c.mint_y(), [8u8; 32]);
    assert_eq!(c.state(), 1);
    assert_eq!(c.config_bump(), [9]);
    assert_eq!(acct.address, [42u8; 32]);

    let mut foreign: AccountView = account([12u8; 32], config_bytes(1, 3, [0u8; 32], 25, 9));
    assert!(matches!(Config::load_mut(&mut foreign, &program), Err(AmmError::InvalidAccountOwner)));

    let mut raw: Vec<u8> = config_bytes(0, 0, [0u8; 32], 0, 0);
    raw.push(77);
    {
        let mut m = Config::from_bytes_unchecked_mut(&mut raw);
        assert_eq!(m.set_inner(5, [2u8; 32], [3u8; 32], [4u8; 32], 100, [6]), Ok(()));
        assert_eq!(m.set_state(2), Ok(()));
        m.set_authority([0u8; 32]);
        m.set_mint_y([7u8; 32]);
        m.set_config_bump([8]);
    }
    let c2: Config = Config::from_bytes_unchecked(&raw);
    assert_eq!((c2.state(), c2.seed(), c2.fee()), (2, 5, 100));
    assert_eq!(*c2.mint_y(), [7u8; 32]);
    assert_eq!(c2.config_bump(), [8]);
    assert_eq!(c2.has_authority(), None);
    assert_eq!(raw[108], 77);
}
