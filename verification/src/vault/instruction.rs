use vstd::prelude::*;
use crate::account::{Account, Address, address_eq};
use crate::error::ProgramError;
use crate::rent::{Rent, minimum_balance, minimum_balance_defined};
use crate::vault::utils::{parse_amount, spec_parse_amount, derive_vault_pda, spec_vault_pda};
use crate::vault::system_utils::{encure_pda_created, spec_pda_creation};
use crate::base58::spec_address_text;

verus! {

/// The first byte of a deposit instruction.
pub const DEPOSIT: u8 = 0;

/// The first byte of a withdraw instruction.
pub const WITHDRAW: u8 = 1;

/// A deposit of `amount` lamports from `owner` into its vault.
pub struct Deposit<'a> {
    pub owner: &'a Account,
    pub vault: &'a Account,
    pub amount: u64,
}

/// What a deposit does: create the vault first when `create_vault` holds
/// its bump seed, then transfer `lamports` from the owner to the vault.
#[derive(PartialEq, Eq, Structural, Debug, Clone, Copy)]
pub struct DepositPlan {
    pub create_vault: Option<u8>,
    pub lamports: u64,
}

/// The outcome of processing a deposit.
pub open spec fn spec_deposit(owner: Account, vault: Account, amount: u64, program_id: Address) -> Result<DepositPlan, ProgramError> {
    match spec_pda_creation(vault, owner, program_id) {
        Ok(create_vault) => Ok(DepositPlan { create_vault, lamports: amount }),
        Err(e) => Err(e),
    }
}

impl<'a> Deposit<'a> {
    /// Builds a deposit from the instruction data that follows the
    /// discriminator (the amount) and the accounts `[owner, vault, ..]`.
    pub fn try_from(data: &[u8], accounts: &'a [Account]) -> (r: Result<Deposit<'a>, ProgramError>)
        ensures
            accounts@.len() < 2 ==> r == Err::<Deposit, ProgramError>(ProgramError::NotEnoughAccountKeys),
            accounts@.len() >= 2 ==> match spec_parse_amount(data@) {
                Ok(amount) => (r matches Ok(d) && *d.owner == accounts@[0] && *d.vault == accounts@[1]
                    && d.amount == amount),
                Err(e) => r == Err::<Deposit, ProgramError>(e),
            },
    {
        if accounts.len() < 2 {
            return Err(ProgramError::NotEnoughAccountKeys);
        }
        let owner = &accounts[0];
        let vault = &accounts[1];
        let amount = parse_amount(data)?;
        Ok(Deposit { owner, vault, amount })
    }

    /// Decides the deposit for the program `program_id`: whether the vault
    /// must be created (it must lie at the owner's vault address then) and
    /// how much to transfer.
    pub fn process(self, program_id: &Address) -> (r: Result<DepositPlan, ProgramError>)
        ensures
            r == spec_deposit(*self.owner, *self.vault, self.amount, *program_id),
    {
        let create_vault = encure_pda_created(self.vault, self.owner, program_id)?;
        Ok(DepositPlan { create_vault, lamports: self.amount })
    }
}

/// A withdrawal by `authority` of everything above the rent-exempt minimum
/// of its vault.
pub struct Withdraw<'a> {
    pub authority: &'a Account,
    pub vault: &'a Account,
}

/// What a withdrawal does: `amount` lamports move from the vault to the
/// authority; the vault's balance is then set to `vault_lamports` and the
/// authority's, after it, to `authority_lamports`.
#[derive(PartialEq, Eq, Structural, Debug, Clone, Copy)]
pub struct WithdrawPlan {
    pub amount: u64,
    pub vault_lamports: u64,
    pub authority_lamports: u64,
}

/// Whether `vault` lies at the vault address of `authority` under the
/// program `program_id`.
pub open spec fn is_vault_of(vault: Account, authority: Account, program_id: Address) -> bool {
    spec_vault_pda(authority.address@, program_id@) matches Some((a, _b)) && a == vault.address@
}

/// The outcome of processing a withdrawal with the rent sysvar `rent` (or
/// the error met reading it).
pub open spec fn spec_withdraw(authority: Account, vault: Account, rent: Result<Rent, ProgramError>, program_id: Address) -> Result<WithdrawPlan, ProgramError> {
    if !authority.is_signer {
        Err(ProgramError::MissingRequiredSignature)
    } else if vault.owner@ != program_id@ {
        Err(ProgramError::InvalidAccountOwner)
    } else if !is_vault_of(vault, authority, program_id) {
        Err(ProgramError::InvalidAccountData)
    } else {
        match rent {
            Err(e) => Err(e),
            Ok(rent) => if !minimum_balance_defined(rent.lamports_per_byte, vault.data.len() as int) {
                Err(ProgramError::InvalidArgument)
            } else {
                let fee = minimum_balance(rent.lamports_per_byte, vault.data.len() as int);
                // The authority's balance once the vault's is set: the vault's
                // new balance when both are the same account.
                let base = if authority.address@ == vault.address@ { fee } else { authority.lamports as int };
                if vault.lamports < fee {
                    Err(ProgramError::InsufficientFunds)
                } else if base + (vault.lamports - fee) > u64::MAX {
                    Err(ProgramError::ArithmeticOverflow)
                } else {
                    Ok(WithdrawPlan {
                        amount: (vault.lamports - fee) as u64,
                        vault_lamports: fee as u64,
                        authority_lamports: (base + (vault.lamports - fee)) as u64,
                    })
                }
            },
        }
    }
}

impl<'a> Withdraw<'a> {
    /// Builds a withdrawal from the accounts `[authority, vault, ..]`; the
    /// instruction data is not read.
    pub fn try_from(_data: &[u8], accounts: &'a [Account]) -> (r: Result<Withdraw<'a>, ProgramError>)
        ensures
            accounts@.len() < 2 ==> r == Err::<Withdraw, ProgramError>(ProgramError::NotEnoughAccountKeys),
            accounts@.len() >= 2 ==> (r matches Ok(w) && *w.authority == accounts@[0] && *w.vault == accounts@[1]),
    {
        if accounts.len() < 2 {
            return Err(ProgramError::NotEnoughAccountKeys);
        }
        let authority = &accounts[0];
        let vault = &accounts[1];
        Ok(Withdraw { authority, vault })
    }

    /// Decides the withdrawal for the program `program_id`: the authority
    /// must sign, the vault must be owned by that program and lie at the authority's vault address
    /// (`InvalidAccountData` otherwise, also when there is no such address);
    /// the vault keeps its rent-exempt minimum and the rest goes to the
    /// authority.
    pub fn process(self, program_id: &Address, rent: Result<Rent, ProgramError>) -> (r: Result<WithdrawPlan, ProgramError>)
        ensures
            r == spec_withdraw(*self.authority, *self.vault, rent, *program_id),
    {
        let authority = self.authority;
        let vault = self.vault;
        if !authority.is_signer {
            return Err(ProgramError::MissingRequiredSignature);
        }
        if !address_eq(&vault.owner, program_id) {
            return Err(ProgramError::InvalidAccountOwner);
        }
        let found = derive_vault_pda(&authority.address, program_id);
        match found {
            Some((expected_pda, _bump)) => {
                if !address_eq(&vault.address, &expected_pda) {
                    return Err(ProgramError::InvalidAccountData);
                }
            },
            None => {
                return Err(ProgramError::InvalidAccountData);
            },
        }
        let rent = rent?;
        let rent_fee = rent.try_minimum_balance(vault.data.len())?;
        let withdraw_amount = match vault.lamports.checked_sub(rent_fee) {
            Some(x) => x,
            None => {
                return Err(ProgramError::InsufficientFunds);
            },
        };
        let vault_lamports = match vault.lamports.checked_sub(withdraw_amount) {
            Some(x) => x,
            None => {
                return Err(ProgramError::InsufficientFunds);
            },
        };
        // The vault's balance is set first; when the authority is the same
        // account, its balance is then the vault's new one.
        let authority_current = if address_eq(&authority.address, &vault.address) {
            vault_lamports
        } else {
            authority.lamports
        };
        let authority_lamports = match authority_current.checked_add(withdraw_amount) {
            Some(x) => x,
            None => {
                return Err(ProgramError::ArithmeticOverflow);
            },
        };
        Ok(WithdrawPlan { amount: withdraw_amount, vault_lamports, authority_lamports })
    }
}

/// Calls `five8::encode_32` and turns the bytes it wrote into a `String`,
/// one character per byte. The contract claims that five8 writes the
/// standard base58 text of the 32 bytes, between 32 and 44 characters long.
#[verifier::external_body]
fn base58_32(address: &Address) -> (s: String)
    ensures
        s@ == spec_address_text(address@),
        32 <= s@.len() <= 44,
{
    let mut buffer = [0u8; 44];
    let count = five8::encode_32(address, &mut buffer);
    buffer[..count as usize].iter().map(|c| *c as char).collect()
}

/// The base58 text of a 32-byte address.
pub fn encode_address(address: &[u8]) -> (s: String)
    requires
        address@.len() == 32,
    ensures
        s@ == spec_address_text(address@),
        32 <= s@.len() <= 44,
{
    let mut bytes: Address = [0u8; 32];
    let mut i: usize = 0;
    while i < 32
        invariant
            0 <= i <= 32,
            address@.len() == 32,
            bytes@.len() == 32,
            forall|j: int| 0 <= j < i ==> bytes@[j] == address@[j],
        decreases 32 - i,
    {
        bytes[i] = address[i];
        i = i + 1;
    }
    assert(bytes@ =~= address@);
    base58_32(&bytes)
}

} // verus!
