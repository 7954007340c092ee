//! What the runtime does with the decisions of the programs: the effect on
//! the accounts of creating an account through the system program, of a
//! system transfer and of setting balances directly. When two account
//! arguments are the same account (same address), the later write wins and
//! a transfer to itself leaves its balance as it was.

use vstd::prelude::*;
use crate::account::{Account, Address};
use crate::rent::{Rent, minimum_balance, minimum_balance_defined};
use crate::vault::instruction::{DepositPlan, WithdrawPlan};
use crate::vault::system_utils::VAULT_SPACE;
use crate::error::ProgramError;
use crate::storage::util::{CreateStorage, FillPlan, LamportsChange};
use crate::storage::instructions::{StoreOpen, spec_store_data, spec_store_data_after_create};

verus! {

/// `a` with the balance `lamports`.
pub open spec fn with_lamports(a: Account, lamports: int) -> Account {
    Account {
        address: a.address,
        owner: a.owner,
        lamports: lamports as u64,
        data: a.data,
        is_signer: a.is_signer,
    }
}

/// `a` created as an account of `program` holding `lamports`; its data is
/// left as it was (the caller creates accounts whose data is as long as
/// the space asked for).
pub open spec fn created(a: Account, program: Address, lamports: int) -> Account {
    Account {
        address: a.address,
        owner: program,
        lamports: lamports as u64,
        data: a.data,
        is_signer: a.is_signer,
    }
}

/// Whether two account arguments are the same account.
pub open spec fn same_account(a: Account, b: Account) -> bool {
    a.address@ == b.address@
}

/// `from` and `to` after a system transfer of `lamports`.
pub open spec fn transfer(from: Account, to: Account, lamports: int) -> (Account, Account) {
    if same_account(from, to) {
        (from, to)
    } else {
        (with_lamports(from, from.lamports - lamports), with_lamports(to, to.lamports + lamports))
    }
}

/// `first` and `second` after their balances are set, `first`'s then
/// `second`'s.
pub open spec fn set_both(first: Account, second: Account, first_lamports: int, second_lamports: int) -> (Account, Account) {
    if same_account(first, second) {
        (with_lamports(first, second_lamports), with_lamports(second, second_lamports))
    } else {
        (with_lamports(first, first_lamports), with_lamports(second, second_lamports))
    }
}

/// The rent-exempt minimum of a new vault.
pub open spec fn vault_fee(rent: Rent) -> int {
    minimum_balance(rent.lamports_per_byte, VAULT_SPACE as int)
}

/// The owner and the vault after a deposit in the program `program_id`: the
/// vault is created first when the plan says so (funded by the owner with
/// its rent-exempt minimum, owned by the program), then the deposited
/// lamports move to it.
pub open spec fn apply_deposit(owner: Account, vault: Account, plan: DepositPlan, rent: Rent, program_id: Address) -> (Account, Account) {
    let (o, v) = match plan.create_vault {
        Some(_) => (
            with_lamports(owner, owner.lamports - vault_fee(rent)),
            created(vault, program_id, vault_fee(rent)),
        ),
        None => (owner, vault),
    };
    transfer(o, v, plan.lamports as int)
}

/// The authority and the vault after a withdrawal: the vault's balance is
/// set, then the authority's.
pub open spec fn apply_withdraw(authority: Account, vault: Account, plan: WithdrawPlan) -> (Account, Account) {
    let (v, a) = set_both(vault, authority, plan.vault_lamports as int, plan.authority_lamports as int);
    (a, v)
}

/// The authority and the storage account after the storage account is
/// created as the plan asks.
pub open spec fn apply_create_storage(authority: Account, pda: Account, plan: CreateStorage) -> (Account, Account) {
    (with_lamports(authority, authority.lamports - plan.lamports), created(pda, crate::storage::ID, plan.lamports as int))
}

/// The storage account and the authority after the balance change of a
/// fill.
pub open spec fn apply_fill(pda: Account, authority: Account, plan: FillPlan) -> (Account, Account) {
    match plan.lamports {
        LamportsChange::TopUp(d) => {
            let (a, p) = transfer(authority, pda, d as int);
            (p, a)
        },
        LamportsChange::Refund { pda_lamports, authority_lamports } => set_both(
            pda,
            authority,
            pda_lamports as int,
            authority_lamports as int,
        ),
        LamportsChange::Unchanged => (pda, authority),
    }
}

/// The owner and the vault after a deposit, or the error when the runtime
/// cannot carry it out: the vault's rent-exempt minimum cannot be computed,
/// the owner cannot pay (`InsufficientFunds`), or the vault's balance would
/// overflow.
pub open spec fn run_deposit(owner: Account, vault: Account, plan: DepositPlan, rent: Rent, program_id: Address) -> Result<(Account, Account), ProgramError> {
    let create = plan.create_vault is Some;
    if create && !minimum_balance_defined(rent.lamports_per_byte, VAULT_SPACE as int) {
        Err(ProgramError::InvalidArgument)
    } else if owner.lamports < (if create { vault_fee(rent) } else { 0 }) + plan.lamports {
        Err(ProgramError::InsufficientFunds)
    } else if (if create { vault_fee(rent) } else { vault.lamports as int }) + plan.lamports > u64::MAX {
        Err(ProgramError::ArithmeticOverflow)
    } else {
        Ok(apply_deposit(owner, vault, plan, rent, program_id))
    }
}

/// The accounts after a whole store of `data_len` bytes with the rent-exempt
/// minimum `minimum`: the opening checks, the creation of the storage
/// account if asked for, then the fill; or the error that stops it (a
/// creation or a top-up the authority cannot pay fails with
/// `InsufficientFunds`, a creation that cannot be funded aborts).
pub open spec fn run_store(accounts: Seq<Account>, data_len: usize, minimum: Result<u64, ProgramError>) -> Result<Seq<Account>, ProgramError> {
    match spec_store_data(accounts, data_len, minimum) {
        Err(e) => Err(e),
        Ok(StoreOpen::CannotCreate(e)) => Err(e),
        Ok(open) => {
            let created_ok = match open {
                StoreOpen::Create(c) => accounts[0].lamports >= c.lamports,
                _ => true,
            };
            let after = match open {
                StoreOpen::Create(c) => {
                    let (a, p) = apply_create_storage(accounts[0], accounts[1], c);
                    accounts.update(0, a).update(1, p)
                },
                _ => accounts,
            };
            if !created_ok {
                Err(ProgramError::InsufficientFunds)
            } else {
                match spec_store_data_after_create(after, data_len, minimum) {
                    Err(e) => Err(e),
                    Ok(plan) => if (plan.lamports matches LamportsChange::TopUp(d) && !same_account(after[0], after[1])
                        && after[0].lamports < d) {
                        Err(ProgramError::InsufficientFunds)
                    } else {
                        let (p, a) = apply_fill(after[1], after[0], plan);
                        Ok(after.update(0, a).update(1, p))
                    },
                }
            }
        },
    }
}

} // verus!
