use vstd::prelude::*;
use crate::account::{Account, Address, address_eq};
use crate::error::ProgramError;
use crate::pda::{find_program_address_result, found_view, program_address_of, try_find_program_address};
use crate::rent::{LegacyRent, MinimumBalance, RENT_ID, spec_legacy_minimum_balance};
use crate::storage::ID;

verus! {

/// The first seed of a storage address; the second is the owner's address.
pub const SEEDS_PREFIX: [u8; 7] = [115, 116, 111, 114, 97, 103, 101];

/// The storage address of an owner (and its bump seed), when one exists.
pub open spec fn spec_storage_pda(owner: Seq<u8>) -> Option<(Seq<u8>, u8)> {
    program_address_of(SEEDS_PREFIX@, owner, ID@)
}

/// Derives the storage address of `owner`: the address of the storage
/// program for the seeds `["storage", owner]`, with its bump seed; `None`
/// in the (statistically negligible) case that no bump seed yields an
/// address.
pub fn derive_pda(owner: &Address) -> (r: Option<(Address, u8)>)
    ensures
        found_view(r) == spec_storage_pda(owner@),
        found_view(r) == find_program_address_result(
            seq![seq![115u8, 116u8, 111u8, 114u8, 97u8, 103u8, 101u8], owner@],
            ID@,
        ),
{
    let seed = SEEDS_PREFIX;
    let id = ID;
    try_find_program_address(seed.as_slice(), owner, &id)
}

/// An account to create through the system program: `space` bytes funded
/// with `lamports` (its rent-exempt minimum), owned by the storage program,
/// paid by the authority, signed with the seeds `["storage", authority,
/// [bump]]`.
#[derive(PartialEq, Eq, Structural, Debug, Clone, Copy)]
pub struct CreateStorage {
    pub space: usize,
    pub bump: u8,
    pub lamports: u64,
}

/// Whether the storage account must be created: not when it already holds
/// lamports; otherwise funded with `minimum`, the rent-exempt minimum for
/// `data_len` bytes (or the error met computing it).
pub open spec fn spec_ensure_create(pda: Account, minimum: Result<u64, ProgramError>, data_len: usize, bump: u8) -> Result<Option<CreateStorage>, ProgramError> {
    if pda.lamports != 0 {
        Ok(None)
    } else {
        match minimum {
            Err(e) => Err(e),
            Ok(lamports) => Ok(Some(CreateStorage { space: data_len, bump, lamports })),
        }
    }
}

/// Decides whether the storage account `pda` must be created to hold
/// `data_len` bytes (an account that holds lamports is taken as created),
/// funded with `minimum`, the rent-exempt minimum read from the rent
/// account (see [`rent_minimum_balance`]).
pub fn ensure_create(_authority: &Account, pda: &Account, minimum: Result<u64, ProgramError>, data_len: usize, bump: u8) -> (r: Result<Option<CreateStorage>, ProgramError>)
    ensures
        r == spec_ensure_create(*pda, minimum, data_len, bump),
{
    if pda.lamports != 0 {
        return Ok(None);
    }
    let lamports = minimum?;
    Ok(Some(CreateStorage { space: data_len, bump, lamports }))
}

/// How the balances of the storage account and the authority change so
/// that the storage account holds exactly its rent-exempt minimum.
#[derive(PartialEq, Eq, Structural, Debug, Clone, Copy)]
pub enum LamportsChange {
    /// Transfer this many lamports from the authority to the account.
    TopUp(u64),
    /// Set the two balances directly: the surplus goes back to the
    /// authority.
    Refund { pda_lamports: u64, authority_lamports: u64 },
    /// The account already holds exactly its minimum.
    Unchanged,
}

/// What filling the storage account does: adjust the balances, then resize
/// the account's data to `data_len` bytes and copy the new data into it.
#[derive(PartialEq, Eq, Structural, Debug, Clone, Copy)]
pub struct FillPlan {
    pub lamports: LamportsChange,
    pub data_len: usize,
}

/// The rent sysvar as read from the rent account (its yearly rate and
/// exemption threshold), or the error met.
pub open spec fn spec_rent_of(rent_account: Account) -> Result<LegacyRent, ProgramError> {
    if rent_account.address@ != RENT_ID@ {
        Err(ProgramError::InvalidArgument)
    } else {
        LegacyRent::spec_from_bytes(rent_account.data@)
    }
}

/// The rent-exempt minimum for `data_len` bytes as the rent account gives
/// it (or the product still to be computed in floating point).
pub open spec fn spec_rent_minimum_balance(rent_account: Account, data_len: usize) -> Result<MinimumBalance, ProgramError> {
    match spec_rent_of(rent_account) {
        Err(e) => Err(e),
        Ok(rent) => spec_legacy_minimum_balance(rent, data_len as int),
    }
}

/// Reads the rent sysvar from the rent account.
pub fn rent_from_account(rent_account: &Account) -> (r: Result<LegacyRent, ProgramError>)
    ensures
        r == spec_rent_of(*rent_account),
{
    let rent_id = RENT_ID;
    if !address_eq(&rent_account.address, &rent_id) {
        return Err(ProgramError::InvalidArgument);
    }
    LegacyRent::from_bytes(rent_account.data.as_slice())
}

/// The rent-exempt minimum for `data_len` bytes read from the rent account:
/// in lamports for the exemption thresholds one and two; for any other
/// threshold the yearly rent that the caller scales by it in floating
/// point.
pub fn rent_minimum_balance(rent_account: &Account, data_len: usize) -> (r: Result<MinimumBalance, ProgramError>)
    ensures
        r == spec_rent_minimum_balance(*rent_account, data_len),
{
    let rent = rent_from_account(rent_account)?;
    rent.minimum_balance(data_len)
}

/// The outcome of filling `pda` with `data_len` bytes, given `minimum`, the
/// rent-exempt minimum for them (or the error met computing it).
pub open spec fn spec_fill_data(pda: Account, minimum: Result<u64, ProgramError>, data_len: usize, authority: Account) -> Result<FillPlan, ProgramError> {
    match minimum {
        Err(e) => Err(e),
        Ok(fee) => if pda.lamports < fee {
            Ok(FillPlan { lamports: LamportsChange::TopUp((fee - pda.lamports) as u64), data_len })
        } else if pda.lamports > fee {
            if authority.address@ == pda.address@ {
                // Both balances are borrowed mutably at once.
                Err(ProgramError::AccountBorrowFailed)
            } else if authority.lamports + (pda.lamports - fee) > u64::MAX {
                Err(ProgramError::ArithmeticOverflow)
            } else {
                Ok(FillPlan {
                    lamports: LamportsChange::Refund {
                        pda_lamports: fee,
                        authority_lamports: (authority.lamports + (pda.lamports - fee)) as u64,
                    },
                    data_len,
                })
            }
        } else {
            Ok(FillPlan { lamports: LamportsChange::Unchanged, data_len })
        },
    }
}

/// Decides how to bring the storage account `pda` to exactly `minimum`, the
/// rent-exempt minimum for `data` read from the rent account (see
/// [`rent_minimum_balance`]): topping it up from the authority or returning
/// the surplus to it, before the data is written. A refund to an authority
/// that is the storage account itself fails as a double borrow.
pub fn fill_data(pda: &Account, minimum: Result<u64, ProgramError>, data: &[u8], authority: &Account) -> (r: Result<FillPlan, ProgramError>)
    ensures
        r == spec_fill_data(*pda, minimum, data@.len() as usize, *authority),
        minimum is Err ==> r == Err::<FillPlan, ProgramError>(minimum->Err_0),
        minimum is Ok && pda.lamports < minimum->Ok_0 ==> r == Ok::<FillPlan, ProgramError>(FillPlan {
            lamports: LamportsChange::TopUp((minimum->Ok_0 - pda.lamports) as u64),
            data_len: data@.len() as usize,
        }),
        minimum is Ok && pda.lamports == minimum->Ok_0 ==> r == Ok::<FillPlan, ProgramError>(FillPlan {
            lamports: LamportsChange::Unchanged,
            data_len: data@.len() as usize,
        }),
        minimum is Ok && pda.lamports > minimum->Ok_0 && authority.address@ != pda.address@
            && authority.lamports + (pda.lamports - minimum->Ok_0) <= u64::MAX
            ==> r == Ok::<FillPlan, ProgramError>(FillPlan {
            lamports: LamportsChange::Refund {
                pda_lamports: minimum->Ok_0,
                authority_lamports: (authority.lamports + (pda.lamports - minimum->Ok_0)) as u64,
            },
            data_len: data@.len() as usize,
        }),
{
    let need_fee = minimum?;
    let lamports = pda.lamports;
    if lamports < need_fee {
        let diff = need_fee - lamports;
        Ok(FillPlan { lamports: LamportsChange::TopUp(diff), data_len: data.len() })
    } else if lamports > need_fee {
        let diff = lamports - need_fee;
        let pda_lamports = match lamports.checked_sub(diff) {
            Some(x) => x,
            None => {
                return Err(ProgramError::InsufficientFunds);
            },
        };
        if address_eq(&authority.address, &pda.address) {
            return Err(ProgramError::AccountBorrowFailed);
        }
        let authority_lamports = match authority.lamports.checked_add(diff) {
            Some(x) => x,
            None => {
                return Err(ProgramError::ArithmeticOverflow);
            },
        };
        Ok(FillPlan {
            lamports: LamportsChange::Refund { pda_lamports, authority_lamports },
            data_len: data.len(),
        })
    } else {
        Ok(FillPlan { lamports: LamportsChange::Unchanged, data_len: data.len() })
    }
}

} // verus!
