use vstd::prelude::*;
use vstd::bytes::*;
use crate::account::Address;
use crate::error::ProgramError;
use crate::pda::{find_program_address_result, found_view, program_address_of, try_find_program_address};

verus! {

/// The first seed of a vault address; the second is the owner's address.
pub const VAULT_SEED: [u8; 5] = [118, 97, 117, 108, 116];

/// What instruction data holding a deposit amount decodes to: exactly eight
/// bytes, a little-endian amount that is not zero.
pub open spec fn spec_parse_amount(data: Seq<u8>) -> Result<u64, ProgramError> {
    if data.len() != 8 {
        Err(ProgramError::MaxInstructionTraceLengthExceeded)
    } else if spec_u64_from_le_bytes(data) == 0 {
        Err(ProgramError::InvalidInstructionData)
    } else {
        Ok(spec_u64_from_le_bytes(data))
    }
}

/// Decodes a deposit amount: eight little-endian bytes, not zero.
pub fn parse_amount(data: &[u8]) -> (r: Result<u64, ProgramError>)
    ensures
        r == spec_parse_amount(data@),
{
    if data.len() != 8 {
        return Err(ProgramError::MaxInstructionTraceLengthExceeded);
    }
    let amount = u64_from_le_bytes(data);
    if amount == 0 {
        return Err(ProgramError::InvalidInstructionData);
    }
    Ok(amount)
}

/// The vault address of an owner under the program `program_id` (and its
/// bump seed), when one exists.
pub open spec fn spec_vault_pda(owner: Seq<u8>, program_id: Seq<u8>) -> Option<(Seq<u8>, u8)> {
    program_address_of(VAULT_SEED@, owner, program_id)
}

/// Derives the vault address of `owner`: the address of the program
/// `program_id` for the seeds `["vault", owner]`, with its bump seed; `None` in the
/// (statistically negligible) case that no bump seed yields an address.
pub fn derive_vault_pda(owner: &Address, program_id: &Address) -> (r: Option<(Address, u8)>)
    ensures
        found_view(r) == spec_vault_pda(owner@, program_id@),
        found_view(r) == find_program_address_result(seq![seq![118u8, 97u8, 117u8, 108u8, 116u8], owner@], program_id@),
{
    let seed = VAULT_SEED;
    try_find_program_address(seed.as_slice(), owner, program_id)
}

} // verus!
