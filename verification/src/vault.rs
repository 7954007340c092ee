//! The vault program: instruction `0` deposits lamports into the caller's
//! vault, creating it first if it holds none; instruction `1` withdraws
//! everything above the vault's rent-exempt minimum back to its owner.

pub mod utils;
pub mod system_utils;
pub mod instruction;

use vstd::prelude::*;
use crate::account::{Account, Address};
use crate::error::ProgramError;
use crate::rent::Rent;
use crate::vault::instruction::{
    DEPOSIT, WITHDRAW, Deposit, Withdraw, DepositPlan, WithdrawPlan, spec_deposit, spec_withdraw,
};
use crate::vault::utils::spec_parse_amount;

verus! {

/// The address the vault program declares for itself.
pub const ID: Address = [
    39, 204, 198, 124, 58, 63, 132, 185, 53, 145, 195, 152, 219, 15, 15, 119,
    82, 7, 55, 202, 124, 172, 62, 23, 35, 223, 104, 193, 250, 47, 197, 54,
];

/// What an instruction of the vault program does when it succeeds.
#[derive(PartialEq, Eq, Structural, Debug, Clone, Copy)]
pub enum VaultAction {
    Deposit(DepositPlan),
    Withdraw(WithdrawPlan),
}

/// The outcome of an instruction with data `data` on the accounts
/// `accounts`, for the program running at `program_id`, given the rent
/// sysvar (or the error met reading it).
pub open spec fn spec_process_instruction(
    program_id: Address,
    accounts: Seq<Account>,
    data: Seq<u8>,
    rent: Result<Rent, ProgramError>,
) -> Result<VaultAction, ProgramError> {
    if data.len() == 0 {
        Err(ProgramError::InvalidInstructionData)
    } else if data[0] == DEPOSIT {
        if accounts.len() < 2 {
            Err(ProgramError::NotEnoughAccountKeys)
        } else {
            match spec_parse_amount(data.drop_first()) {
                Err(e) => Err(e),
                Ok(amount) => match spec_deposit(accounts[0], accounts[1], amount, program_id) {
                    Ok(plan) => Ok(VaultAction::Deposit(plan)),
                    Err(e) => Err(e),
                },
            }
        }
    } else if data[0] == WITHDRAW {
        if accounts.len() < 2 {
            Err(ProgramError::NotEnoughAccountKeys)
        } else {
            match spec_withdraw(accounts[0], accounts[1], rent, program_id) {
                Ok(plan) => Ok(VaultAction::Withdraw(plan)),
                Err(e) => Err(e),
            }
        }
    } else {
        Err(ProgramError::InvalidInstructionData)
    }
}

/// Dispatches on the first byte of the instruction data and decides the
/// deposit or withdrawal it names, for the program running at `program_id`
/// (vaults are derived from and owned by that address). `rent` is the rent sysvar, read by the
/// caller; it is used by withdrawals only.
pub fn process_instruction(
    program_id: &Address,
    accounts: &[Account],
    instruction_data: &[u8],
    rent: Result<Rent, ProgramError>,
) -> (r: Result<VaultAction, ProgramError>)
    ensures
        r == spec_process_instruction(*program_id, accounts@, instruction_data@, rent),
{
    if instruction_data.len() == 0 {
        return Err(ProgramError::InvalidInstructionData);
    }
    let discriminator = instruction_data[0];
    let tail_data = &instruction_data[1..instruction_data.len()];
    assert(tail_data@ == instruction_data@.drop_first());
    if discriminator == DEPOSIT {
        let deposit = Deposit::try_from(tail_data, accounts)?;
        let plan = deposit.process(program_id)?;
        Ok(VaultAction::Deposit(plan))
    } else if discriminator == WITHDRAW {
        let withdraw = Withdraw::try_from(tail_data, accounts)?;
        let plan = withdraw.process(program_id, rent)?;
        Ok(VaultAction::Withdraw(plan))
    } else {
        Err(ProgramError::InvalidInstructionData)
    }
}

} // verus!
