use vstd::prelude::*;
use crate::account::{Account, Address, address_eq};
use crate::error::ProgramError;
use crate::vault::utils::{derive_vault_pda, spec_vault_pda};

verus! {

/// Data length of a newly created vault.
pub const VAULT_SPACE: usize = 0;

/// Whether a vault must be created before it is funded: `Ok(None)` when it
/// already holds lamports, `Ok(Some(bump))` when it is empty and its address
/// is the owner's vault address (created with that bump seed), and
/// `InvalidSeeds` when it is empty and its address is not (or the owner has
/// no vault address).
pub open spec fn spec_pda_creation(pda: Account, owner: Account, program_id: Address) -> Result<Option<u8>, ProgramError> {
    if pda.lamports != 0 {
        Ok(None)
    } else {
        match spec_vault_pda(owner.address@, program_id@) {
            Some((expected, bump)) => if expected == pda.address@ {
                Ok(Some(bump))
            } else {
                Err(ProgramError::InvalidSeeds)
            },
            None => Err(ProgramError::InvalidSeeds),
        }
    }
}

/// Decides whether the vault `pda` of `owner` must be created (with
/// [`VAULT_SPACE`] bytes, owned by the program `program_id`, paid by `owner`) and
/// with which bump seed it signs.
pub fn encure_pda_created(pda: &Account, owner: &Account, program_id: &Address) -> (r: Result<Option<u8>, ProgramError>)
    ensures
        r == spec_pda_creation(*pda, *owner, *program_id),
{
    if pda.lamports != 0 {
        return Ok(None);
    }
    let found = derive_vault_pda(&owner.address, program_id);
    match found {
        Some((expected, bump)) => {
            if !address_eq(&pda.address, &expected) {
                return Err(ProgramError::InvalidSeeds);
            }
            Ok(Some(bump))
        },
        None => Err(ProgramError::InvalidSeeds),
    }
}

} // verus!
