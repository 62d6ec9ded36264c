//! The program's entry: which instruction the data asks for.
use vstd::prelude::*;

use pinocchio::error::ProgramError;

use crate::account::AccountView;
use crate::address::Address;
use crate::error::AmmError;
use crate::instructions::deposit::{spec_deposit_check, Deposit, DepositPending};
use crate::instructions::initialize::{Initialize, InitializePlan};
use crate::instructions::swap::{spec_swap_check, Swap, SwapPending};
use crate::instructions::withdraw::{spec_withdraw_check, Withdraw, WithdrawPending};
use crate::runtime::clock_unix_timestamp;

verus! {

/// An instruction of the pool, with its accounts and arguments.
pub enum Instruction<'a> {
    Initialize(Initialize<'a>),
    Deposit(Deposit<'a>),
    Withdraw(Withdraw<'a>),
    Swap(Swap<'a>),
}

/// Decodes an instruction: its first byte names it (0 initialize, 1 deposit, 2
/// withdraw, 3 swap), and the rest are its arguments; data that names none is
/// refused.
pub fn decode_instruction<'a>(instruction_data: &'a [u8], accounts: &'a [AccountView]) -> (r: Result<
    Instruction<'a>,
    AmmError,
>)
    ensures
        instruction_data@.len() == 0 || instruction_data@[0] > Swap::DISCRIMINATOR ==> r == Err::<
            Instruction<'a>,
            AmmError,
        >(AmmError::InvalidInstructionData),
        instruction_data@.len() > 0 && instruction_data@[0] == Initialize::DISCRIMINATOR ==> match r {
            Ok(Instruction::Initialize(i)) => Initialize::is_decoded(
                instruction_data@.drop_first(),
                accounts@,
                Ok(i),
            ),
            Ok(_) => false,
            Err(e) => Initialize::is_decoded(instruction_data@.drop_first(), accounts@, Err(e)),
        },
        instruction_data@.len() > 0 && instruction_data@[0] == Deposit::DISCRIMINATOR ==> match r {
            Ok(Instruction::Deposit(i)) => Deposit::is_decoded(
                instruction_data@.drop_first(),
                accounts@,
                Ok(i),
            ),
            Ok(_) => false,
            Err(e) => Deposit::is_decoded(instruction_data@.drop_first(), accounts@, Err(e)),
        },
        instruction_data@.len() > 0 && instruction_data@[0] == Withdraw::DISCRIMINATOR ==> match r {
            Ok(Instruction::Withdraw(i)) => Withdraw::is_decoded(
                instruction_data@.drop_first(),
                accounts@,
                Ok(i),
            ),
            Ok(_) => false,
            Err(e) => Withdraw::is_decoded(instruction_data@.drop_first(), accounts@, Err(e)),
        },
        instruction_data@.len() > 0 && instruction_data@[0] == Swap::DISCRIMINATOR ==> match r {
            Ok(Instruction::Swap(i)) => Swap::is_decoded(
                instruction_data@.drop_first(),
                accounts@,
                Ok(i),
            ),
            Ok(_) => false,
            Err(e) => Swap::is_decoded(instruction_data@.drop_first(), accounts@, Err(e)),
        },
{
    let n: usize = instruction_data.len();
    if n == 0 {
        return Err(AmmError::InvalidInstructionData);
    }
    let discriminator: u8 = instruction_data[0];
    let data: &'a [u8] = vstd::slice::slice_subrange(instruction_data, 1, n);
    assert(data@ =~= instruction_data@.drop_first());
    if discriminator == Initialize::DISCRIMINATOR {
        match Initialize::try_from((data, accounts)) {
            Ok(i) => Ok(Instruction::Initialize(i)),
            Err(e) => Err(e),
        }
    } else if discriminator == Deposit::DISCRIMINATOR {
        match Deposit::try_from((data, accounts)) {
            Ok(i) => Ok(Instruction::Deposit(i)),
            Err(e) => Err(e),
        }
    } else if discriminator == Withdraw::DISCRIMINATOR {
        match Withdraw::try_from((data, accounts)) {
            Ok(i) => Ok(Instruction::Withdraw(i)),
            Err(e) => Err(e),
        }
    } else if discriminator == Swap::DISCRIMINATOR {
        match Swap::try_from((data, accounts)) {
            Ok(i) => Ok(Instruction::Swap(i)),
            Err(e) => Err(e),
        }
    } else {
        Err(AmmError::InvalidInstructionData)
    }
}

/// What a processed instruction leaves to do: the plan of an initialization,
/// or a checked deposit, withdrawal or swap awaiting its settlement.
pub enum Pending {
    Initialize(InitializePlan),
    Deposit(DepositPending),
    Withdraw(WithdrawPending),
    Swap(SwapPending),
}

/// Whether `r` is what processing the instruction `instruction_data` over
/// `accounts` gives, with the time that the clock gave: data that names no
/// instruction is refused; otherwise the named instruction is decoded from
/// the rest of the data, and its decoding error, or else the outcome of its
/// checks, is the result.
pub open spec fn is_instruction_outcome(
    instruction_data: Seq<u8>,
    accounts: Seq<AccountView>,
    program_id: Seq<u8>,
    clock: Result<i64, ProgramError>,
    r: Result<Pending, AmmError>,
) -> bool {
    let rest = instruction_data.drop_first();
    if instruction_data.len() == 0 || instruction_data[0] > Swap::DISCRIMINATOR {
        r == Err::<Pending, AmmError>(AmmError::InvalidInstructionData)
    } else if instruction_data[0] == Initialize::DISCRIMINATOR {
        match r {
            Ok(Pending::Initialize(plan)) => exists|i: Initialize<'static>|
                #[trigger] Initialize::is_decoded(rest, accounts, Ok(i)) && i.is_processed(
                    program_id,
                    Ok(plan),
                ),
            Ok(_) => false,
            Err(e) => Initialize::is_decoded(rest, accounts, Err(e)) || exists|i: Initialize<'static>|
                #[trigger] Initialize::is_decoded(rest, accounts, Ok(i)) && i.is_processed(
                    program_id,
                    Err(e),
                ),
        }
    } else if instruction_data[0] == Deposit::DISCRIMINATOR {
        match r {
            Ok(Pending::Deposit(p)) => exists|d: Deposit<'static>|
                #[trigger] Deposit::is_decoded(rest, accounts, Ok(d)) && spec_deposit_check(
                    d.accounts,
                    d.instruction_data,
                    program_id,
                    clock,
                ) == Ok::<_, AmmError>(p@),
            Ok(_) => false,
            Err(e) => Deposit::is_decoded(rest, accounts, Err(e)) || exists|d: Deposit<'static>|
                #[trigger] Deposit::is_decoded(rest, accounts, Ok(d)) && spec_deposit_check(
                    d.accounts,
                    d.instruction_data,
                    program_id,
                    clock,
                ) == Err::<crate::instructions::deposit::DepositPendingModel, AmmError>(e),
        }
    } else if instruction_data[0] == Withdraw::DISCRIMINATOR {
        match r {
            Ok(Pending::Withdraw(p)) => exists|d: Withdraw<'static>|
                #[trigger] Withdraw::is_decoded(rest, accounts, Ok(d)) && spec_withdraw_check(
                    d.accounts,
                    d.instruction_data,
                    program_id,
                    clock,
                ) == Ok::<_, AmmError>(p@),
            Ok(_) => false,
            Err(e) => Withdraw::is_decoded(rest, accounts, Err(e)) || exists|d: Withdraw<'static>|
                #[trigger] Withdraw::is_decoded(rest, accounts, Ok(d)) && spec_withdraw_check(
                    d.accounts,
                    d.instruction_data,
                    program_id,
                    clock,
                ) == Err::<crate::instructions::withdraw::WithdrawPendingModel, AmmError>(e),
        }
    } else {
        match r {
            Ok(Pending::Swap(p)) => exists|d: Swap<'static>|
                #[trigger] Swap::is_decoded(rest, accounts, Ok(d)) && spec_swap_check(
                    d.accounts,
                    d.instruction_data,
                    program_id,
                    clock,
                ) == Ok::<_, AmmError>(p@),
            Ok(_) => false,
            Err(e) => Swap::is_decoded(rest, accounts, Err(e)) || exists|d: Swap<'static>|
                #[trigger] Swap::is_decoded(rest, accounts, Ok(d)) && spec_swap_check(
                    d.accounts,
                    d.instruction_data,
                    program_id,
                    clock,
                ) == Err::<crate::instructions::swap::SwapPendingModel, AmmError>(e),
        }
    }
}

/// Processes an instruction with the time that the clock gave: decodes it,
/// then runs its checks.
pub fn process_instruction_at<'a>(
    program_id: &Address,
    accounts: &'a [AccountView],
    instruction_data: &'a [u8],
    clock: Result<i64, ProgramError>,
) -> (r: Result<Pending, AmmError>)
    ensures
        is_instruction_outcome(instruction_data@, accounts@, program_id@, clock, r),
{
    let instruction: Instruction<'a> = decode_instruction(instruction_data, accounts)?;
    match instruction {
        Instruction::Initialize(i) => {
            let r: Result<InitializePlan, AmmError> = i.process(program_id);
            assert(Initialize::is_decoded(instruction_data@.drop_first(), accounts@, Ok(i)));
            match r {
                Ok(plan) => Ok(Pending::Initialize(plan)),
                Err(e) => Err(e),
            }
        },
        Instruction::Deposit(d) => {
            let r: Result<DepositPending, AmmError> = d.process_at(program_id, clock);
            assert(Deposit::is_decoded(instruction_data@.drop_first(), accounts@, Ok(d)));
            match r {
                Ok(p) => Ok(Pending::Deposit(p)),
                Err(e) => Err(e),
            }
        },
        Instruction::Withdraw(d) => {
            let r: Result<WithdrawPending, AmmError> = d.process_at(program_id, clock);
            assert(Withdraw::is_decoded(instruction_data@.drop_first(), accounts@, Ok(d)));
            match r {
                Ok(p) => Ok(Pending::Withdraw(p)),
                Err(e) => Err(e),
            }
        },
        Instruction::Swap(d) => {
            let r: Result<SwapPending, AmmError> = d.process_at(program_id, clock);
            assert(Swap::is_decoded(instruction_data@.drop_first(), accounts@, Ok(d)));
            match r {
                Ok(p) => Ok(Pending::Swap(p)),
                Err(e) => Err(e),
            }
        },
    }
}

/// Processes an instruction at the time of the runtime's clock. The time is
/// the runtime's; for each time the clock can give, the result is that of
/// `process_instruction_at`.
pub fn process_instruction<'a>(
    program_id: &Address,
    accounts: &'a [AccountView],
    instruction_data: &'a [u8],
) -> (r: Result<Pending, AmmError>)
    ensures
        exists|clock: Result<i64, ProgramError>|
            is_instruction_outcome(instruction_data@, accounts@, program_id@, clock, r),
{
    let clock: Result<i64, ProgramError> = clock_unix_timestamp();
    let ghost g: Result<i64, ProgramError> = clock;
    let r: Result<Pending, AmmError> = process_instruction_at(program_id, accounts, instruction_data, clock);
    assert(is_instruction_outcome(instruction_data@, accounts@, program_id@, g, r));
    r
}

} // verus!
