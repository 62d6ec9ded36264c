//! The pool's configuration account: its layout, its lifecycle state, and the
//! accessors that read and write it.
use vstd::prelude::*;

use crate::account::AccountView;
use crate::address::{address_is_zero, Address};
use crate::codec::{le_bytes_u16, le_bytes_u64, le_u16, le_u64, u16_to_le, u64_to_le};
use crate::error::{result_view, AmmError};
use crate::token::copy_address_at;

verus! {

/// The lifecycle of a pool.
#[derive(Debug, Clone, Copy, PartialEq, Eq)]
pub enum AmmState {
    /// Not yet initialized.
    Uninitialized,
    /// Running: deposits, withdrawals and swaps are allowed.
    Initialized,
    /// Fully disabled.
    Disabled,
    /// Only withdrawals are allowed.
    WithdrawOnly,
}

impl AmmState {
    /// The byte that stands for the state in the configuration account.
    pub open spec fn spec_byte(self) -> u8 {
        match self {
            AmmState::Uninitialized => 0,
            AmmState::Initialized => 1,
            AmmState::Disabled => 2,
            AmmState::WithdrawOnly => 3,
        }
    }

    /// The byte that stands for the state in the configuration account.
    pub fn as_u8(self) -> (r: u8)
        ensures
            r == self.spec_byte(),
    {
        match self {
            AmmState::Uninitialized => 0,
            AmmState::Initialized => 1,
            AmmState::Disabled => 2,
            AmmState::WithdrawOnly => 3,
        }
    }
}

/// The highest fee, in basis points, that a pool may not reach (100%).
pub const FEE_LIMIT_BPS: u16 = 10_000;

/// Offsets of the fields in the configuration account's data.
pub const STATE_AT: usize = 0;
pub const SEED_AT: usize = 1;
pub const AUTHORITY_AT: usize = 9;
pub const MINT_X_AT: usize = 41;
pub const MINT_Y_AT: usize = 73;
pub const FEE_AT: usize = 105;
pub const CONFIG_BUMP_AT: usize = 107;

/// `v` with `w` written over it from position `at`.
pub open spec fn splice(v: Seq<u8>, at: int, w: Seq<u8>) -> Seq<u8> {
    v.subrange(0, at) + w + v.subrange(at + w.len(), v.len() as int)
}

/// The state byte of configuration data `v`.
pub open spec fn config_state(v: Seq<u8>) -> u8 {
    v[STATE_AT as int]
}

/// The seed of configuration data `v`.
pub open spec fn config_seed(v: Seq<u8>) -> int {
    le_u64(v.subrange(SEED_AT as int, AUTHORITY_AT as int))
}

/// The authority of configuration data `v`.
pub open spec fn config_authority(v: Seq<u8>) -> Seq<u8> {
    v.subrange(AUTHORITY_AT as int, MINT_X_AT as int)
}

/// The first mint of configuration data `v`.
pub open spec fn config_mint_x(v: Seq<u8>) -> Seq<u8> {
    v.subrange(MINT_X_AT as int, MINT_Y_AT as int)
}

/// The second mint of configuration data `v`.
pub open spec fn config_mint_y(v: Seq<u8>) -> Seq<u8> {
    v.subrange(MINT_Y_AT as int, FEE_AT as int)
}

/// The fee, in basis points, of configuration data `v`.
pub open spec fn config_fee(v: Seq<u8>) -> int {
    le_u16(v.subrange(FEE_AT as int, CONFIG_BUMP_AT as int))
}

/// The bump of the configuration address, in configuration data `v`.
pub open spec fn config_bump_byte(v: Seq<u8>) -> u8 {
    v[CONFIG_BUMP_AT as int]
}

/// The configuration of a pool, laid out byte for byte as its account holds it.
///
/// Its view is those bytes: the state, the seed (little-endian `u64`), the
/// authority (all zero for a pool without one), the two mints, the fee in basis
/// points (little-endian `u16`) and the bump of the configuration address.
pub struct Config {
    state: u8,
    seed: [u8; 8],
    authority: Address,
    mint_x: Address,
    mint_y: Address,
    fee: [u8; 2],
    config_bump: [u8; 1],
}

impl View for Config {
    type V = Seq<u8>;

    closed spec fn view(&self) -> Seq<u8> {
        seq![self.state] + self.seed@ + self.authority@ + self.mint_x@ + self.mint_y@ + self.fee@
            + self.config_bump@
    }
}

impl Config {
    /// The length of a configuration account's data.
    pub const LEN: usize = 108;

    /// The view of a configuration holds exactly `LEN` bytes.
    pub broadcast proof fn lemma_view_len(c: Config)
        ensures
            #[trigger] c@.len() == Config::LEN,
    {
    }

    /// What loading the configuration of `account_view` gives: an error when
    /// the data has not the configuration's length, another when `program_id`
    /// does not own the account, else the configuration that the data holds.
    pub open spec fn spec_load(account_view: &AccountView, program_id: Seq<u8>) -> Result<
        Seq<u8>,
        AmmError,
    > {
        if account_view.data@.len() != Config::LEN {
            Err(AmmError::InvalidAccountData)
        } else if account_view.owner@ != program_id {
            Err(AmmError::InvalidAccountOwner)
        } else {
            Ok(account_view.data@)
        }
    }

    /// Reads the configuration that an account holds, after checking that its
    /// data has the configuration's length and that this program owns it.
    pub fn load(account_view: &AccountView, program_id: &Address) -> (r: Result<Config, AmmError>)
        ensures
            result_view(r) == Config::spec_load(account_view, program_id@),
    {
        if account_view.data_len() != Self::LEN {
            return Err(AmmError::InvalidAccountData);
        }
        if !account_view.owned_by(program_id) {
            return Err(AmmError::InvalidAccountOwner);
        }
        let c: Config = Self::from_bytes_unchecked(account_view.data.as_slice());
        assert(account_view.data@.subrange(0, Config::LEN as int) =~= account_view.data@);
        Ok(c)
    }

    /// Reads the configuration that an account holds, with the checks of
    /// `load`; the data is read in place, without claiming it.
    pub fn load_unchecked(account_view: &AccountView, program_id: &Address) -> (r: Result<
        Config,
        AmmError,
    >)
        ensures
            result_view(r) == Config::spec_load(account_view, program_id@),
    {
        Self::load(account_view, program_id)
    }

    /// Opens the configuration that an account holds for change, with the
    /// checks of `load`: the changes made through the result are made to the
    /// account's data, and to nothing else of the account.
    pub fn load_mut<'a>(account_view: &'a mut AccountView, program_id: &Address) -> (r: Result<
        ConfigMut<'a>,
        AmmError,
    >)
        ensures
            old(account_view).data@.len() != Config::LEN ==> r is Err && r->Err_0
                == AmmError::InvalidAccountData && *final(account_view) == *old(account_view),
            old(account_view).data@.len() == Config::LEN && old(account_view).owner@
                != program_id@ ==> r is Err && r->Err_0 == AmmError::InvalidAccountOwner
                && *final(account_view) == *old(account_view),
            old(account_view).data@.len() == Config::LEN && old(account_view).owner@
                == program_id@ ==> r is Ok && r->Ok_0.data@ == old(account_view).data@
                && *final(account_view) == (AccountView {
                data: *final(r->Ok_0.data),
                ..*old(account_view)
            }),
    {
        if account_view.data_len() != Self::LEN {
            return Err(AmmError::InvalidAccountData);
        }
        if !account_view.owned_by(program_id) {
            return Err(AmmError::InvalidAccountOwner);
        }
        Ok(Config::from_bytes_unchecked_mut(&mut account_view.data))
    }

    /// Opens configuration bytes for change in place: the first `LEN` bytes
    /// are the configuration, and the changes made through the result are
    /// made to them.
    pub fn from_bytes_unchecked_mut<'a>(bytes: &'a mut Vec<u8>) -> (r: ConfigMut<'a>)
        requires
            old(bytes)@.len() >= Config::LEN,
        ensures
            r.data@ == old(bytes)@,
            *final(bytes) == *final(r.data),
    {
        ConfigMut { data: bytes }
    }

    /// Reads a configuration from the first `LEN` bytes of account data.
    pub fn from_bytes_unchecked(bytes: &[u8]) -> (r: Config)
        requires
            bytes@.len() >= Config::LEN,
        ensures
            r@ == bytes@.subrange(0, Config::LEN as int),
    {
        let mut seed: [u8; 8] = [0u8; 8];
        let mut i: usize = 0;
        while i < 8
            invariant
                0 <= i <= 8,
                bytes@.len() >= Config::LEN,
                seed@.len() == 8,
                forall|j: int| 0 <= j < i ==> seed@[j] == bytes@[SEED_AT + j],
            decreases 8 - i,
        {
            seed[i] = bytes[SEED_AT + i];
            i = i + 1;
        }
        let authority: Address = copy_address_at(bytes, AUTHORITY_AT);
        let mint_x: Address = copy_address_at(bytes, MINT_X_AT);
        let mint_y: Address = copy_address_at(bytes, MINT_Y_AT);
        let fee: [u8; 2] = [bytes[FEE_AT], bytes[FEE_AT + 1]];
        let config_bump: [u8; 1] = [bytes[CONFIG_BUMP_AT]];
        let c: Config = Config { state: bytes[STATE_AT], seed, authority, mint_x, mint_y, fee, config_bump };
        assert(seed@ =~= bytes@.subrange(1, 9));
        assert(fee@ =~= bytes@.subrange(105, 107));
        assert(config_bump@ =~= bytes@.subrange(107, 108));
        assert(c@ =~= bytes@.subrange(0, Config::LEN as int));
        c
    }

    /// The bytes of the configuration, as its account holds them.
    pub fn to_bytes(&self) -> (r: Vec<u8>)
        ensures
            r@ == self@,
    {
        let mut out: Vec<u8> = Vec::new();
        out.push(self.state);
        let mut i: usize = 0;
        while i < 8
            invariant
                0 <= i <= 8,
                out@ =~= seq![self.state] + self.seed@.subrange(0, i as int),
            decreases 8 - i,
        {
            out.push(self.seed[i]);
            i = i + 1;
        }
        assert(self.seed@.subrange(0, 8) =~= self.seed@);
        push_address(&mut out, &self.authority);
        push_address(&mut out, &self.mint_x);
        push_address(&mut out, &self.mint_y);
        out.push(self.fee[0]);
        out.push(self.fee[1]);
        out.push(self.config_bump[0]);
        assert(self.fee@ =~= seq![self.fee[0], self.fee[1]]);
        assert(self.config_bump@ =~= seq![self.config_bump[0]]);
        assert(out@ =~= self@);
        out
    }

    /// The state byte.
    pub fn state(&self) -> (r: u8)
        ensures
            r == config_state(self@),
    {
        self.state
    }

    /// The seed of the pool.
    pub fn seed(&self) -> (r: u64)
        ensures
            r == config_seed(self@),
    {
        let r: u64 = crate::codec::read_u64_le(self.seed.as_slice(), 0);
        assert(self.seed@.subrange(0, 8) =~= self.seed@);
        assert(self@.subrange(SEED_AT as int, AUTHORITY_AT as int) =~= self.seed@);
        r
    }

    /// The authority of the pool; all zero for a pool without one.
    pub fn authority(&self) -> (r: &Address)
        ensures
            r@ == config_authority(self@),
    {
        assert(self@.subrange(AUTHORITY_AT as int, MINT_X_AT as int) =~= self.authority@);
        &self.authority
    }

    /// The first mint of the pair.
    pub fn mint_x(&self) -> (r: &Address)
        ensures
            r@ == config_mint_x(self@),
    {
        assert(self@.subrange(MINT_X_AT as int, MINT_Y_AT as int) =~= self.mint_x@);
        &self.mint_x
    }

    /// The second mint of the pair.
    pub fn mint_y(&self) -> (r: &Address)
        ensures
            r@ == config_mint_y(self@),
    {
        assert(self@.subrange(MINT_Y_AT as int, FEE_AT as int) =~= self.mint_y@);
        &self.mint_y
    }

    /// The fee, in basis points.
    pub fn fee(&self) -> (r: u16)
        ensures
            r == config_fee(self@),
    {
        let r: u16 = crate::codec::read_u16_le(self.fee.as_slice(), 0);
        assert(self.fee@.subrange(0, 2) =~= self.fee@);
        assert(self@.subrange(FEE_AT as int, CONFIG_BUMP_AT as int) =~= self.fee@);
        r
    }

    /// The bump of the configuration address.
    pub fn config_bump(&self) -> (r: [u8; 1])
        ensures
            r@ == seq![config_bump_byte(self@)],
    {
        assert(self.config_bump@ =~= seq![self.config_bump[0]]);
        self.config_bump
    }

    /// Sets the state byte; a byte that stands for no state is refused and
    /// changes nothing.
    pub fn set_state(&mut self, state: u8) -> (r: Result<(), AmmError>)
        ensures
            state > AmmState::WithdrawOnly.spec_byte() ==> r == Err::<(), AmmError>(
                AmmError::InvalidAccountData,
            ) && final(self)@ == old(self)@,
            state <= AmmState::WithdrawOnly.spec_byte() ==> r is Ok && final(self)@ == old(
                self,
            )@.update(STATE_AT as int, state),
    {
        if state > AmmState::WithdrawOnly.as_u8() {
            return Err(AmmError::InvalidAccountData);
        }
        self.state = state;
        assert(final(self)@ =~= old(self)@.update(STATE_AT as int, state));
        Ok(())
    }

    /// Sets the seed.
    pub fn set_seed(&mut self, seed: u64)
        ensures
            final(self)@ == splice(old(self)@, SEED_AT as int, le_bytes_u64(seed)),
            config_seed(final(self)@) == seed,
    {
        self.seed = u64_to_le(seed);
        proof {
            crate::codec::lemma_le_u64_of_bytes(seed);
            assert(self@.subrange(SEED_AT as int, AUTHORITY_AT as int) =~= le_bytes_u64(seed));
        }
        assert(final(self)@ =~= splice(old(self)@, SEED_AT as int, le_bytes_u64(seed)));
    }

    /// Sets the authority.
    pub fn set_authority(&mut self, authority: Address)
        ensures
            final(self)@ == splice(old(self)@, AUTHORITY_AT as int, authority@),
            config_authority(final(self)@) == authority@,
    {
        self.authority = authority;
        assert(config_authority(self@) =~= authority@);
        assert(final(self)@ =~= splice(old(self)@, AUTHORITY_AT as int, authority@));
    }

    /// Sets the first mint.
    pub fn set_mint_x(&mut self, mint_x: Address)
        ensures
            final(self)@ == splice(old(self)@, MINT_X_AT as int, mint_x@),
            config_mint_x(final(self)@) == mint_x@,
    {
        self.mint_x = mint_x;
        assert(config_mint_x(self@) =~= mint_x@);
        assert(final(self)@ =~= splice(old(self)@, MINT_X_AT as int, mint_x@));
    }

    /// Sets the second mint.
    pub fn set_mint_y(&mut self, mint_y: Address)
        ensures
            final(self)@ == splice(old(self)@, MINT_Y_AT as int, mint_y@),
            config_mint_y(final(self)@) == mint_y@,
    {
        self.mint_y = mint_y;
        assert(config_mint_y(self@) =~= mint_y@);
        assert(final(self)@ =~= splice(old(self)@, MINT_Y_AT as int, mint_y@));
    }

    /// Sets the fee, in basis points; a fee of 100% or more is refused and
    /// changes nothing.
    pub fn set_fee(&mut self, fee: u16) -> (r: Result<(), AmmError>)
        ensures
            fee >= FEE_LIMIT_BPS ==> r == Err::<(), AmmError>(AmmError::InvalidAccountData)
                && final(self)@ == old(self)@,
            fee < FEE_LIMIT_BPS ==> r is Ok && final(self)@ == splice(
                old(self)@,
                FEE_AT as int,
                le_bytes_u16(fee),
            ) && config_fee(final(self)@) == fee,
    {
        if fee >= FEE_LIMIT_BPS {
            return Err(AmmError::InvalidAccountData);
        }
        self.fee = u16_to_le(fee);
        proof {
            crate::codec::lemma_le_u16_of_bytes(fee);
            assert(self@.subrange(FEE_AT as int, CONFIG_BUMP_AT as int) =~= le_bytes_u16(fee));
        }
        assert(final(self)@ =~= splice(old(self)@, FEE_AT as int, le_bytes_u16(fee)));
        Ok(())
    }

    /// Sets the bump of the configuration address.
    pub fn set_config_bump(&mut self, config_bump: [u8; 1])
        ensures
            final(self)@ == splice(old(self)@, CONFIG_BUMP_AT as int, config_bump@),
            config_bump_byte(final(self)@) == config_bump@[0],
    {
        self.config_bump = config_bump;
        assert(final(self)@ =~= splice(old(self)@, CONFIG_BUMP_AT as int, config_bump@));
    }

    /// Writes a whole initialized configuration: the state `Initialized`, then
    /// the seed, the authority and the mints, then the fee, then the bump. A
    /// fee of 100% or more stops it after the mints, with an error.
    pub fn set_inner(
        &mut self,
        seed: u64,
        authority: Address,
        mint_x: Address,
        mint_y: Address,
        fee: u16,
        config_bump: [u8; 1],
    ) -> (r: Result<(), AmmError>)
        ensures
            fee >= FEE_LIMIT_BPS ==> r == Err::<(), AmmError>(AmmError::InvalidAccountData)
                && final(self)@ == seq![AmmState::Initialized.spec_byte()] + le_bytes_u64(seed)
                + authority@ + mint_x@ + mint_y@ + old(self)@.subrange(
                FEE_AT as int,
                Config::LEN as int,
            ),
            fee < FEE_LIMIT_BPS ==> r is Ok && final(self)@ == seq![
                AmmState::Initialized.spec_byte(),
            ] + le_bytes_u64(seed) + authority@ + mint_x@ + mint_y@ + le_bytes_u16(fee)
                + config_bump@,
    {
        self.set_state(AmmState::Initialized.as_u8())?;
        self.set_seed(seed);
        self.set_authority(authority);
        self.set_mint_x(mint_x);
        self.set_mint_y(mint_y);
        let ghost mid: Seq<u8> = self@;
        assert(mid =~= seq![AmmState::Initialized.spec_byte()] + le_bytes_u64(seed) + authority@
            + mint_x@ + mint_y@ + old(self)@.subrange(FEE_AT as int, Config::LEN as int));
        self.set_fee(fee)?;
        self.set_config_bump(config_bump);
        assert(self@ =~= seq![AmmState::Initialized.spec_byte()] + le_bytes_u64(seed)
            + authority@ + mint_x@ + mint_y@ + le_bytes_u16(fee) + config_bump@);
        Ok(())
    }

    /// The authority of the pool, when it has one: an authority that is all
    /// zero stands for none.
    pub fn has_authority(&self) -> (r: Option<Address>)
        ensures
            r is None <==> (forall|j: int|
                AUTHORITY_AT <= j < MINT_X_AT ==> #[trigger] self@[j] == 0),
            r matches Some(a) ==> a@ == config_authority(self@),
    {
        let a: &Address = self.authority();
        if address_is_zero(a) {
            assert forall|j: int| AUTHORITY_AT <= j < MINT_X_AT implies #[trigger] self@[j]
                == 0 by {
                assert(self@[j] == a@[j - AUTHORITY_AT]);
            }
            None
        } else {
            let b: Address = *a;
            proof {
                let k: int = choose|k: int| 0 <= k < 32 && a@[k] != 0;
                assert(self@[k + AUTHORITY_AT] == a@[k]);
            }
            Some(b)
        }
    }
}

/// The fields of configuration data `v`, in layout order: state, seed,
/// authority, first mint, second mint, fee, bump.
pub open spec fn config_fields(v: Seq<u8>) -> (u8, int, Seq<u8>, Seq<u8>, Seq<u8>, int, u8) {
    (
        config_state(v),
        config_seed(v),
        config_authority(v),
        config_mint_x(v),
        config_mint_y(v),
        config_fee(v),
        config_bump_byte(v),
    )
}

/// A configuration held in place in the first `LEN` bytes of account data:
/// its setters write into those bytes, and leave the rest of the data as it
/// was.
pub struct ConfigMut<'a> {
    pub data: &'a mut Vec<u8>,
}

impl<'a> ConfigMut<'a> {
    /// The configuration as the bytes hold it now.
    pub fn as_config(&self) -> (r: Config)
        requires
            old(self.data)@.len() >= Config::LEN,
        ensures
            r@ == old(self.data)@.subrange(0, Config::LEN as int),
    {
        Config::from_bytes_unchecked(self.data.as_slice())
    }

    /// Writes `w` over the bytes from position `at`.
    fn write_at(&mut self, at: usize, w: &[u8])
        requires
            at + w@.len() <= old(self).data@.len(),
        ensures
            final(self).data@ == splice(old(self).data@, at as int, w@),
            *final(final(self).data) == *final(old(self).data),
    {
        let n: usize = w.len();
        let len: usize = self.data.len();
        let mut i: usize = 0;
        while i < n
            invariant
                0 <= i <= n,
                n == w@.len(),
                len == self.data@.len(),
                at + n <= self.data@.len(),
                self.data@.len() == old(self).data@.len(),
                forall|j: int| 0 <= j < self.data@.len() && !(at <= j < at + i) ==> self.data@[j]
                    == old(self).data@[j],
                forall|j: int| 0 <= j < i ==> self.data@[at + j] == w@[j],
                *final(self.data) == *final(old(self).data),
            decreases n - i,
        {
            self.data.set(at + i, w[i]);
            i = i + 1;
        }
        assert(self.data@ =~= splice(old(self).data@, at as int, w@));
    }

    /// Sets the state byte, as `Config::set_state` does.
    pub fn set_state(&mut self, state: u8) -> (r: Result<(), AmmError>)
        requires
            old(self).data@.len() >= Config::LEN,
        ensures
            state > AmmState::WithdrawOnly.spec_byte() ==> r == Err::<(), AmmError>(
                AmmError::InvalidAccountData,
            ) && final(self).data@ == old(self).data@,
            state <= AmmState::WithdrawOnly.spec_byte() ==> r is Ok && final(self).data@ == old(
                self,
            ).data@.update(STATE_AT as int, state),
            *final(final(self).data) == *final(old(self).data),
    {
        if state > AmmState::WithdrawOnly.as_u8() {
            return Err(AmmError::InvalidAccountData);
        }
        let w: [u8; 1] = [state];
        self.write_at(STATE_AT, w.as_slice());
        assert(self.data@ =~= old(self).data@.update(STATE_AT as int, state));
        Ok(())
    }

    /// Sets the seed, as `Config::set_seed` does.
    pub fn set_seed(&mut self, seed: u64)
        requires
            old(self).data@.len() >= Config::LEN,
        ensures
            final(self).data@ == splice(old(self).data@, SEED_AT as int, le_bytes_u64(seed)),
            *final(final(self).data) == *final(old(self).data),
    {
        let w: [u8; 8] = u64_to_le(seed);
        self.write_at(SEED_AT, w.as_slice());
    }

    /// Sets the authority, as `Config::set_authority` does.
    pub fn set_authority(&mut self, authority: Address)
        requires
            old(self).data@.len() >= Config::LEN,
        ensures
            final(self).data@ == splice(old(self).data@, AUTHORITY_AT as int, authority@),
            *final(final(self).data) == *final(old(self).data),
    {
        self.write_at(AUTHORITY_AT, authority.as_slice());
    }

    /// Sets the first mint, as `Config::set_mint_x` does.
    pub fn set_mint_x(&mut self, mint_x: Address)
        requires
            old(self).data@.len() >= Config::LEN,
        ensures
            final(self).data@ == splice(old(self).data@, MINT_X_AT as int, mint_x@),
            *final(final(self).data) == *final(old(self).data),
    {
        self.write_at(MINT_X_AT, mint_x.as_slice());
    }

    /// Sets the second mint, as `Config::set_mint_y` does.
    pub fn set_mint_y(&mut self, mint_y: Address)
        requires
            old(self).data@.len() >= Config::LEN,
        ensures
            final(self).data@ == splice(old(self).data@, MINT_Y_AT as int, mint_y@),
            *final(final(self).data) == *final(old(self).data),
    {
        self.write_at(MINT_Y_AT, mint_y.as_slice());
    }

    /// Sets the fee, as `Config::set_fee` does: a fee of 100% or more is
    /// refused and changes nothing.
    pub fn set_fee(&mut self, fee: u16) -> (r: Result<(), AmmError>)
        requires
            old(self).data@.len() >= Config::LEN,
        ensures
            fee >= FEE_LIMIT_BPS ==> r == Err::<(), AmmError>(AmmError::InvalidAccountData)
                && final(self).data@ == old(self).data@,
            fee < FEE_LIMIT_BPS ==> r is Ok && final(self).data@ == splice(
                old(self).data@,
                FEE_AT as int,
                le_bytes_u16(fee),
            ),
            *final(final(self).data) == *final(old(self).data),
    {
        if fee >= FEE_LIMIT_BPS {
            return Err(AmmError::InvalidAccountData);
        }
        let w: [u8; 2] = u16_to_le(fee);
        self.write_at(FEE_AT, w.as_slice());
        Ok(())
    }

    /// Sets the bump of the configuration address, as
    /// `Config::set_config_bump` does.
    pub fn set_config_bump(&mut self, config_bump: [u8; 1])
        requires
            old(self).data@.len() >= Config::LEN,
        ensures
            final(self).data@ == splice(old(self).data@, CONFIG_BUMP_AT as int, config_bump@),
            *final(final(self).data) == *final(old(self).data),
    {
        self.write_at(CONFIG_BUMP_AT, config_bump.as_slice());
    }

    /// Writes a whole initialized configuration, as `Config::set_inner` does:
    /// a fee of 100% or more stops it after the mints, with an error.
    pub fn set_inner(
        &mut self,
        seed: u64,
        authority: Address,
        mint_x: Address,
        mint_y: Address,
        fee: u16,
        config_bump: [u8; 1],
    ) -> (r: Result<(), AmmError>)
        requires
            old(self).data@.len() >= Config::LEN,
        ensures
            final(self).data@.len() == old(self).data@.len(),
            final(self).data@.subrange(Config::LEN as int, final(self).data@.len() as int)
                == old(self).data@.subrange(Config::LEN as int, old(self).data@.len() as int),
            fee >= FEE_LIMIT_BPS ==> r == Err::<(), AmmError>(AmmError::InvalidAccountData)
                && final(self).data@.subrange(0, Config::LEN as int) == seq![
                AmmState::Initialized.spec_byte(),
            ] + le_bytes_u64(seed) + authority@ + mint_x@ + mint_y@ + old(self).data@.subrange(
                FEE_AT as int,
                Config::LEN as int,
            ),
            fee < FEE_LIMIT_BPS ==> r is Ok && final(self).data@.subrange(0, Config::LEN as int)
                == seq![AmmState::Initialized.spec_byte()] + le_bytes_u64(seed) + authority@
                + mint_x@ + mint_y@ + le_bytes_u16(fee) + config_bump@,
            *final(final(self).data) == *final(old(self).data),
    {
        let ghost v0: Seq<u8> = self.data@;
        proof {
            crate::codec::lemma_le_u64_of_bytes(seed);
            crate::codec::lemma_le_u16_of_bytes(fee);
        }
        self.set_state(AmmState::Initialized.as_u8())?;
        self.set_seed(seed);
        self.set_authority(authority);
        self.set_mint_x(mint_x);
        self.set_mint_y(mint_y);
        let ghost mid: Seq<u8> = self.data@;
        assert(mid.subrange(0, Config::LEN as int) =~= seq![AmmState::Initialized.spec_byte()]
            + le_bytes_u64(seed) + authority@ + mint_x@ + mint_y@ + v0.subrange(
            FEE_AT as int,
            Config::LEN as int,
        ));
        assert(mid.subrange(Config::LEN as int, mid.len() as int) =~= v0.subrange(
            Config::LEN as int,
            v0.len() as int,
        ));
        self.set_fee(fee)?;
        self.set_config_bump(config_bump);
        assert(self.data@.subrange(0, Config::LEN as int) =~= seq![
            AmmState::Initialized.spec_byte(),
        ] + le_bytes_u64(seed) + authority@ + mint_x@ + mint_y@ + le_bytes_u16(fee)
            + config_bump@);
        assert(self.data@.subrange(Config::LEN as int, self.data@.len() as int) =~= v0.subrange(
            Config::LEN as int,
            v0.len() as int,
        ));
        Ok(())
    }
}

/// Each setter of `Config` changes the field that it sets to the value that it
/// is given, as its getter reads it back, and leaves every other field as it
/// was.
pub proof fn lemma_setters_read_back(
    v: Seq<u8>,
    state: u8,
    seed: u64,
    authority: Seq<u8>,
    mint_x: Seq<u8>,
    mint_y: Seq<u8>,
    fee: u16,
    bump: u8,
)
    requires
        v.len() == Config::LEN,
        authority.len() == 32,
        mint_x.len() == 32,
        mint_y.len() == 32,
    ensures
        ({
            let f = config_fields(v);
            &&& config_fields(v.update(STATE_AT as int, state)) == (
                state,
                f.1,
                f.2,
                f.3,
                f.4,
                f.5,
                f.6,
            )
            &&& config_fields(splice(v, SEED_AT as int, le_bytes_u64(seed))) == (
                f.0,
                seed as int,
                f.2,
                f.3,
                f.4,
                f.5,
                f.6,
            )
            &&& config_fields(splice(v, AUTHORITY_AT as int, authority)) == (
                f.0,
                f.1,
                authority,
                f.3,
                f.4,
                f.5,
                f.6,
            )
            &&& config_fields(splice(v, MINT_X_AT as int, mint_x)) == (
                f.0,
                f.1,
                f.2,
                mint_x,
                f.4,
                f.5,
                f.6,
            )
            &&& config_fields(splice(v, MINT_Y_AT as int, mint_y)) == (
                f.0,
                f.1,
                f.2,
                f.3,
                mint_y,
                f.5,
                f.6,
            )
            &&& config_fields(splice(v, FEE_AT as int, le_bytes_u16(fee))) == (
                f.0,
                f.1,
                f.2,
                f.3,
                f.4,
                fee as int,
                f.6,
            )
            &&& config_fields(splice(v, CONFIG_BUMP_AT as int, seq![bump])) == (
                f.0,
                f.1,
                f.2,
                f.3,
                f.4,
                f.5,
                bump,
            )
        }),
{
    crate::codec::lemma_le_u64_of_bytes(seed);
    crate::codec::lemma_le_u16_of_bytes(fee);
    let w0: Seq<u8> = v.update(STATE_AT as int, state);
    let w1: Seq<u8> = splice(v, SEED_AT as int, le_bytes_u64(seed));
    let w2: Seq<u8> = splice(v, AUTHORITY_AT as int, authority);
    let w3: Seq<u8> = splice(v, MINT_X_AT as int, mint_x);
    let w4: Seq<u8> = splice(v, MINT_Y_AT as int, mint_y);
    let w5: Seq<u8> = splice(v, FEE_AT as int, le_bytes_u16(fee));
    let w6: Seq<u8> = splice(v, CONFIG_BUMP_AT as int, seq![bump]);
    assert(w0.subrange(1, 9) =~= v.subrange(1, 9));
    assert(w0.subrange(105, 107) =~= v.subrange(105, 107));
    assert(config_authority(w0) =~= config_authority(v));
    assert(config_mint_x(w0) =~= config_mint_x(v));
    assert(config_mint_y(w0) =~= config_mint_y(v));
    assert(w1.subrange(1, 9) =~= le_bytes_u64(seed));
    assert(w1.subrange(105, 107) =~= v.subrange(105, 107));
    assert(config_authority(w1) =~= config_authority(v));
    assert(config_mint_x(w1) =~= config_mint_x(v));
    assert(config_mint_y(w1) =~= config_mint_y(v));
    assert(w2.subrange(1, 9) =~= v.subrange(1, 9));
    assert(w2.subrange(105, 107) =~= v.subrange(105, 107));
    assert(config_authority(w2) =~= authority);
    assert(config_mint_x(w2) =~= config_mint_x(v));
    assert(config_mint_y(w2) =~= config_mint_y(v));
    assert(w3.subrange(1, 9) =~= v.subrange(1, 9));
    assert(w3.subrange(105, 107) =~= v.subrange(105, 107));
    assert(config_authority(w3) =~= config_authority(v));
    assert(config_mint_x(w3) =~= mint_x);
    assert(config_mint_y(w3) =~= config_mint_y(v));
    assert(w4.subrange(1, 9) =~= v.subrange(1, 9));
    assert(w4.subrange(105, 107) =~= v.subrange(105, 107));
    assert(config_authority(w4) =~= config_authority(v));
    assert(config_mint_x(w4) =~= config_mint_x(v));
    assert(config_mint_y(w4) =~= mint_y);
    assert(w5.subrange(1, 9) =~= v.subrange(1, 9));
    assert(w5.subrange(105, 107) =~= le_bytes_u16(fee));
    assert(config_authority(w5) =~= config_authority(v));
    assert(config_mint_x(w5) =~= config_mint_x(v));
    assert(config_mint_y(w5) =~= config_mint_y(v));
    assert(w6.subrange(1, 9) =~= v.subrange(1, 9));
    assert(w6.subrange(105, 107) =~= v.subrange(105, 107));
    assert(config_authority(w6) =~= config_authority(v));
    assert(config_mint_x(w6) =~= config_mint_x(v));
    assert(config_mint_y(w6) =~= config_mint_y(v));
}

/// A configuration written whole by a successful `set_inner` reads back as an
/// initialized pool with the seed, authority, mints, fee and bump it was
/// given, and its fee is below 100%.
pub proof fn lemma_set_inner_reads_back(
    seed: u64,
    authority: Seq<u8>,
    mint_x: Seq<u8>,
    mint_y: Seq<u8>,
    fee: u16,
    bump: u8,
)
    requires
        authority.len() == 32,
        mint_x.len() == 32,
        mint_y.len() == 32,
        fee < FEE_LIMIT_BPS,
    ensures
        ({
            let v = seq![AmmState::Initialized.spec_byte()] + le_bytes_u64(seed) + authority
                + mint_x + mint_y + le_bytes_u16(fee) + seq![bump];
            &&& v.len() == Config::LEN
            &&& config_fields(v) == (
                AmmState::Initialized.spec_byte(),
                seed as int,
                authority,
                mint_x,
                mint_y,
                fee as int,
                bump,
            )
            &&& config_fee(v) < FEE_LIMIT_BPS
        }),
{
    crate::codec::lemma_le_u64_of_bytes(seed);
    crate::codec::lemma_le_u16_of_bytes(fee);
    let v: Seq<u8> = seq![AmmState::Initialized.spec_byte()] + le_bytes_u64(seed) + authority
        + mint_x + mint_y + le_bytes_u16(fee) + seq![bump];
    assert(v.subrange(1, 9) =~= le_bytes_u64(seed));
    assert(v.subrange(105, 107) =~= le_bytes_u16(fee));
    assert(config_authority(v) =~= authority);
    assert(config_mint_x(v) =~= mint_x);
    assert(config_mint_y(v) =~= mint_y);
}

/// A configuration is determined by its bytes: two configurations with the
/// same bytes are the same. Since `to_bytes` gives the bytes of a
/// configuration and `from_bytes_unchecked` the configuration of some bytes,
/// reading back what `to_bytes` wrote gives the configuration itself.
pub proof fn lemma_config_determined_by_bytes(c: Config, d: Config)
    requires
        c@ == d@,
    ensures
        c == d,
{
    assert(c.state == c@[0] && d.state == d@[0]);
    assert(c.seed@ =~= c@.subrange(1, 9));
    assert(d.seed@ =~= d@.subrange(1, 9));
    assert(c.authority@ =~= c@.subrange(9, 41));
    assert(d.authority@ =~= d@.subrange(9, 41));
    assert(c.mint_x@ =~= c@.subrange(41, 73));
    assert(d.mint_x@ =~= d@.subrange(41, 73));
    assert(c.mint_y@ =~= c@.subrange(73, 105));
    assert(d.mint_y@ =~= d@.subrange(73, 105));
    assert(c.fee@ =~= c@.subrange(105, 107));
    assert(d.fee@ =~= d@.subrange(105, 107));
    assert(c.config_bump@ =~= c@.subrange(107, 108));
    assert(d.config_bump@ =~= d@.subrange(107, 108));
    assert(c.seed =~= d.seed);
    assert(c.authority =~= d.authority);
    assert(c.mint_x =~= d.mint_x);
    assert(c.mint_y =~= d.mint_y);
    assert(c.fee =~= d.fee);
    assert(c.config_bump =~= d.config_bump);
    assert(c.seed == d.seed && c.authority == d.authority && c.mint_x == d.mint_x && c.mint_y
        == d.mint_y && c.fee == d.fee && c.config_bump == d.config_bump);
}

/// Appends the 32 bytes of an address.
fn push_address(out: &mut Vec<u8>, a: &Address)
    ensures
        final(out)@ == old(out)@ + a@,
{
    let mut i: usize = 0;
    while i < 32
        invariant
            0 <= i <= 32,
            a@.len() == 32,
            out@ =~= old(out)@ + a@.subrange(0, i as int),
        decreases 32 - i,
    {
        out.push(a[i]);
        i = i + 1;
    }
    assert(a@.subrange(0, 32) =~= a@);
}

} // verus!
