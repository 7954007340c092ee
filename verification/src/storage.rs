//! The storage program: keeps a caller's bytes in an account at the
//! caller's storage address, funded to exactly its rent-exempt minimum.

pub mod util;
pub mod instructions;

use vstd::prelude::*;
use crate::account::{Account, Address};
use crate::error::ProgramError;
use crate::storage::instructions::{StoreOpen, store_data, spec_store_data};

verus! {

/// The address of the storage program.
pub const ID: Address = [
    168, 76, 171, 156, 1, 249, 139, 178, 191, 112, 142, 22, 203, 7, 211, 232,
    57, 63, 2, 192, 94, 97, 150, 3, 80, 114, 7, 177, 205, 87, 61, 118,
];

/// Processes a store instruction: its data is the bytes to keep and
/// `minimum` their rent-exempt minimum as read from the rent account (see
/// [`util::rent_minimum_balance`]). Returns
/// whether the storage account must be created first; the store is finished by
/// [`instructions::store_data_after_create`].
pub fn process_instruction(
    _program_id: &Address,
    accounts: &[Account],
    instruction_data: &[u8],
    minimum: Result<u64, ProgramError>,
) -> (r: Result<StoreOpen, ProgramError>)
    ensures
        r == spec_store_data(accounts@, instruction_data@.len() as usize, minimum),
{
    store_data(accounts, instruction_data, minimum)
}

} // verus!
