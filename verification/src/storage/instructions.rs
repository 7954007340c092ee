use vstd::prelude::*;
use crate::account::{Account, address_eq};
use crate::error::ProgramError;
use crate::rent::RENT_ID;
use crate::storage::ID;
use crate::storage::util::{
    CreateStorage, FillPlan, derive_pda, ensure_create, fill_data, spec_ensure_create,
    spec_fill_data, spec_storage_pda,
};

verus! {

/// What opening a store decides once its checks pass.
#[derive(PartialEq, Eq, Structural, Debug, Clone, Copy)]
pub enum StoreOpen {
    /// The storage account already exists.
    Exists,
    /// The storage account must be created first.
    Create(CreateStorage),
    /// The storage account must be created but its funding cannot be
    /// computed; the store cannot go on (the program aborts).
    CannotCreate(ProgramError),
}

/// The outcome of the checks that open a store.
pub open spec fn spec_store_data(accounts: Seq<Account>, data_len: usize, minimum: Result<u64, ProgramError>) -> Result<StoreOpen, ProgramError> {
    if accounts.len() < 3 {
        Err(ProgramError::InvalidAccountData)
    } else if accounts[2].address@ != RENT_ID@ {
        Err(ProgramError::UnsupportedSysvar)
    } else {
        match spec_storage_pda(accounts[0].address@) {
            Some((expected, bump)) => if expected != accounts[1].address@ {
                Err(ProgramError::InvalidSeeds)
            } else {
                Ok(match spec_ensure_create(accounts[1], minimum, data_len, bump) {
                    Ok(Some(c)) => StoreOpen::Create(c),
                    Ok(None) => StoreOpen::Exists,
                    Err(e) => StoreOpen::CannotCreate(e),
                })
            },
            None => Err(ProgramError::InvalidSeeds),
        }
    }
}

/// Opens a store of `data` for the accounts `[authority, storage account,
/// rent sysvar, ..]`: checks them and decides whether the storage account
/// must be created (with `data.len()` bytes, funded with `minimum`, the
/// rent-exempt minimum for them read from the rent account) before it is
/// filled by [`store_data_after_create`].
pub fn store_data(accounts: &[Account], data: &[u8], minimum: Result<u64, ProgramError>) -> (r: Result<StoreOpen, ProgramError>)
    ensures
        r == spec_store_data(accounts@, data@.len() as usize, minimum),
{
    if accounts.len() < 3 {
        return Err(ProgramError::InvalidAccountData);
    }
    let authority = &accounts[0];
    let pda = &accounts[1];
    let rent_account = &accounts[2];
    let rent_id = RENT_ID;
    if !address_eq(&rent_id, &rent_account.address) {
        return Err(ProgramError::UnsupportedSysvar);
    }
    let found = derive_pda(&authority.address);
    match found {
        Some((expected_pda, bump)) => {
            if !address_eq(&expected_pda, &pda.address) {
                return Err(ProgramError::InvalidSeeds);
            }
            match ensure_create(authority, pda, minimum, data.len(), bump) {
                Ok(Some(c)) => Ok(StoreOpen::Create(c)),
                Ok(None) => Ok(StoreOpen::Exists),
                Err(e) => Ok(StoreOpen::CannotCreate(e)),
            }
        },
        None => Err(ProgramError::InvalidSeeds),
    }
}

/// The outcome of filling the storage account once it exists: it must be
/// owned by the storage program.
pub open spec fn spec_store_data_after_create(accounts: Seq<Account>, data_len: usize, minimum: Result<u64, ProgramError>) -> Result<FillPlan, ProgramError> {
    if accounts[1].owner@ != ID@ {
        Err(ProgramError::InvalidAccountOwner)
    } else {
        spec_fill_data(accounts[1], minimum, data_len, accounts[0])
    }
}

/// Finishes a store once the storage account exists (`accounts` as they
/// are after the creation that [`store_data`] asked for): the account must
/// be owned by the storage program; then its balance is brought to the
/// rent-exempt minimum for `data`, `minimum`.
pub fn store_data_after_create(accounts: &[Account], data: &[u8], minimum: Result<u64, ProgramError>) -> (r: Result<FillPlan, ProgramError>)
    requires
        accounts@.len() >= 3,
    ensures
        r == spec_store_data_after_create(accounts@, data@.len() as usize, minimum),
{
    let authority = &accounts[0];
    let pda = &accounts[1];
    let id = ID;
    if !address_eq(&pda.owner, &id) {
        return Err(ProgramError::InvalidAccountOwner);
    }
    fill_data(pda, minimum, data, authority)
}

} // verus!
