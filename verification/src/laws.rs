//! Properties of the programs that span several calls.

use vstd::prelude::*;
use vstd::bytes::{lemma_auto_spec_u64_to_from_le_bytes, spec_u64_from_le_bytes, spec_u64_to_le_bytes};
use crate::account::{Account, Address};
use crate::error::ProgramError;
use crate::pda::find_program_address_result;
use crate::rent::{
    EXEMPTION_THRESHOLD_ONE_BITS, EXEMPTION_THRESHOLD_TWO_BITS, LegacyRent, MinimumBalance, Rent, minimum_balance,
    minimum_balance_defined, spec_legacy_minimum_balance,
};
use crate::client::{spec_deposit_data, spec_withdraw_data};
use crate::effects::{apply_create_storage, apply_deposit, apply_fill, apply_withdraw, run_deposit, run_store, same_account, vault_fee};
use crate::vault::{VaultAction, spec_process_instruction};
use crate::vault::instruction::{DepositPlan, WithdrawPlan, spec_deposit, spec_withdraw};
use crate::vault::utils::spec_vault_pda;
use crate::vault::system_utils::VAULT_SPACE;
use crate::storage::ID as STORAGE_ID;
use crate::storage::util::{FillPlan, LamportsChange, spec_fill_data, spec_storage_pda};
use crate::storage::instructions::{StoreOpen, spec_store_data, spec_store_data_after_create};

verus! {

/// The data a client builds for a deposit of `amount` decodes, on at least
/// two accounts, to a deposit of exactly `amount`; an amount of zero is
/// refused as invalid instruction data.
pub proof fn lemma_deposit_data_round_trip(program_id: Address, accounts: Seq<Account>, amount: u64, rent: Result<Rent, ProgramError>)
    requires
        accounts.len() >= 2,
    ensures
        amount == 0 ==> spec_process_instruction(program_id, accounts, spec_deposit_data(amount), rent)
            == Err::<VaultAction, ProgramError>(ProgramError::InvalidInstructionData),
        amount != 0 ==> spec_process_instruction(program_id, accounts, spec_deposit_data(amount), rent)
            == match spec_deposit(accounts[0], accounts[1], amount, program_id) {
            Ok(plan) => Ok::<VaultAction, ProgramError>(VaultAction::Deposit(plan)),
            Err(e) => Err(e),
        },
{
    lemma_auto_spec_u64_to_from_le_bytes();
    let data = spec_deposit_data(amount);
    assert(data.drop_first() =~= spec_u64_to_le_bytes(amount));
    assert(spec_u64_from_le_bytes(data.drop_first()) == amount);
}

/// The data a client builds for a withdrawal decodes, on at least two
/// accounts, to a withdrawal by the first from the second.
pub proof fn lemma_withdraw_data_round_trip(program_id: Address, accounts: Seq<Account>, rent: Result<Rent, ProgramError>)
    requires
        accounts.len() >= 2,
    ensures
        spec_process_instruction(program_id, accounts, spec_withdraw_data(), rent)
            == match spec_withdraw(accounts[0], accounts[1], rent, program_id) {
            Ok(plan) => Ok::<VaultAction, ProgramError>(VaultAction::Withdraw(plan)),
            Err(e) => Err(e),
        },
{
}

/// A successful withdrawal pays to the authority everything in the vault
/// above the vault's rent-exempt minimum, and creates or destroys no
/// lamports: with two accounts their total is kept and the vault keeps
/// exactly its minimum; when the authority is the vault itself its balance
/// is unchanged.
pub proof fn lemma_withdraw_keeps_total(authority: Account, vault: Account, rent: Rent, program_id: Address)
    requires
        spec_withdraw(authority, vault, Ok(rent), program_id) is Ok,
        same_account(authority, vault) ==> authority.lamports == vault.lamports,
    ensures
        ({
            let plan = spec_withdraw(authority, vault, Ok(rent), program_id)->Ok_0;
            let (a1, v1) = apply_withdraw(authority, vault, plan);
            &&& plan.vault_lamports == minimum_balance(rent.lamports_per_byte, vault.data.len() as int)
            &&& plan.amount == vault.lamports - plan.vault_lamports
            &&& !same_account(authority, vault) ==> {
                &&& v1.lamports == plan.vault_lamports
                &&& a1.lamports == authority.lamports + plan.amount
                &&& a1.lamports + v1.lamports == authority.lamports + vault.lamports
            }
            &&& same_account(authority, vault) ==> a1.lamports == vault.lamports && v1.lamports == vault.lamports
        }),
{
}

/// A second withdrawal right after a successful one succeeds and leaves
/// both balances as the first left them (between two accounts it pays out
/// nothing).
pub proof fn lemma_withdraw_twice(authority: Account, vault: Account, rent: Rent, program_id: Address)
    requires
        spec_withdraw(authority, vault, Ok(rent), program_id) is Ok,
        same_account(authority, vault) ==> authority.lamports == vault.lamports,
    ensures
        ({
            let plan = spec_withdraw(authority, vault, Ok(rent), program_id)->Ok_0;
            let (a1, v1) = apply_withdraw(authority, vault, plan);
            let second = spec_withdraw(a1, v1, Ok(rent), program_id);
            &&& second is Ok
            &&& apply_withdraw(a1, v1, second->Ok_0) == (a1, v1)
            &&& !same_account(authority, vault) ==> second->Ok_0.amount == 0
        }),
{
    let plan = spec_withdraw(authority, vault, Ok(rent), program_id)->Ok_0;
    let (a1, v1) = apply_withdraw(authority, vault, plan);
    let p2 = spec_withdraw(a1, v1, Ok(rent), program_id)->Ok_0;
    assert(apply_withdraw(a1, v1, p2).0 == a1);
    assert(apply_withdraw(a1, v1, p2).1 == v1);
}

/// A deposit between two accounts that the runtime carries out keeps the
/// total of their balances: the owner pays the deposited amount, and the
/// vault's rent-exempt minimum as well when the vault is created; the vault
/// receives both, so it gains at least the amount.
pub proof fn lemma_deposit_keeps_total(owner: Account, vault: Account, amount: u64, rent: Rent, program_id: Address)
    requires
        spec_deposit(owner, vault, amount, program_id) is Ok,
        !same_account(owner, vault),
        run_deposit(owner, vault, spec_deposit(owner, vault, amount, program_id)->Ok_0, rent, program_id) is Ok,
    ensures
        ({
            let plan = spec_deposit(owner, vault, amount, program_id)->Ok_0;
            let (o1, v1) = run_deposit(owner, vault, plan, rent, program_id)->Ok_0;
            &&& plan.lamports == amount
            &&& (plan.create_vault is Some <==> vault.lamports == 0)
            &&& o1.lamports + v1.lamports == owner.lamports + vault.lamports
            &&& v1.lamports == (if vault.lamports == 0 { vault_fee(rent) } else { vault.lamports as int }) + amount
            &&& v1.lamports >= vault.lamports + amount
        }),
{
}

/// A deposit of `amount` into a new vault followed by a withdrawal returns
/// the owner's balance to what it was less the vault's rent-exempt
/// minimum, which stays in the vault.
pub proof fn lemma_deposit_then_withdraw(owner: Account, vault: Account, amount: u64, rent: Rent, program_id: Address)
    requires
        owner.is_signer,
        !same_account(owner, vault),
        vault.lamports == 0,
        vault.data@.len() == VAULT_SPACE,
        spec_vault_pda(owner.address@, program_id@) matches Some((a, _b)) && a == vault.address@,
        minimum_balance_defined(rent.lamports_per_byte, VAULT_SPACE as int),
        amount != 0,
        owner.lamports >= amount + vault_fee(rent),
    ensures
        ({
            let bump = spec_vault_pda(owner.address@, program_id@)->Some_0.1;
            let deposit = DepositPlan { create_vault: Some(bump), lamports: amount };
            let (o1, v1) = apply_deposit(owner, vault, deposit, rent, program_id);
            &&& spec_process_instruction(program_id, seq![owner, vault], spec_deposit_data(amount), Ok(rent))
                == Ok::<VaultAction, ProgramError>(VaultAction::Deposit(deposit))
            &&& spec_process_instruction(program_id, seq![o1, v1], spec_withdraw_data(), Ok(rent))
                == Ok::<VaultAction, ProgramError>(VaultAction::Withdraw(WithdrawPlan {
                    amount,
                    vault_lamports: vault_fee(rent) as u64,
                    authority_lamports: (owner.lamports - vault_fee(rent)) as u64,
                }))
        }),
{
    lemma_deposit_data_round_trip(program_id, seq![owner, vault], amount, Ok(rent));
    let bump = spec_vault_pda(owner.address@, program_id@)->Some_0.1;
    let deposit = DepositPlan { create_vault: Some(bump), lamports: amount };
    let (o1, v1) = apply_deposit(owner, vault, deposit, rent, program_id);
    assert(seq![o1, v1][0] == o1);
    assert(seq![o1, v1][1] == v1);
    lemma_withdraw_data_round_trip(program_id, seq![o1, v1], Ok(rent));
}

/// Filling a storage account that is not its own authority leaves it with
/// exactly the rent-exempt minimum `fee` and keeps the total of the two
/// balances (when a top-up is asked for, the authority must be able to pay
/// it for the transfer to succeed).
pub proof fn lemma_fill_reaches_rent_minimum(pda: Account, fee: u64, data_len: usize, authority: Account)
    requires
        !same_account(pda, authority),
        spec_fill_data(pda, Ok(fee), data_len, authority) is Ok,
        spec_fill_data(pda, Ok(fee), data_len, authority)->Ok_0.lamports matches LamportsChange::TopUp(d)
            ==> authority.lamports >= d,
    ensures
        ({
            let plan = spec_fill_data(pda, Ok(fee), data_len, authority)->Ok_0;
            let (p1, a1) = apply_fill(pda, authority, plan);
            &&& plan.data_len == data_len
            &&& p1.lamports == fee
            &&& p1.lamports + a1.lamports == pda.lamports + authority.lamports
        }),
{
}

/// Filling a storage account a second time with data of the same length
/// succeeds and leaves both balances as the first fill left them.
pub proof fn lemma_fill_twice(pda: Account, fee: u64, data_len: usize, authority: Account)
    requires
        spec_fill_data(pda, Ok(fee), data_len, authority) is Ok,
        same_account(pda, authority) ==> pda.lamports == authority.lamports,
        spec_fill_data(pda, Ok(fee), data_len, authority)->Ok_0.lamports matches LamportsChange::TopUp(d)
            ==> (!same_account(pda, authority) ==> authority.lamports >= d),
    ensures
        ({
            let plan = spec_fill_data(pda, Ok(fee), data_len, authority)->Ok_0;
            let (p1, a1) = apply_fill(pda, authority, plan);
            let second = spec_fill_data(p1, Ok(fee), data_len, a1);
            &&& second is Ok
            &&& apply_fill(p1, a1, second->Ok_0) == (p1, a1)
            &&& !same_account(pda, authority) ==> second == Ok::<FillPlan, ProgramError>(
                FillPlan { lamports: LamportsChange::Unchanged, data_len },
            )
        }),
{
    let plan = spec_fill_data(pda, Ok(fee), data_len, authority)->Ok_0;
    let (p1, a1) = apply_fill(pda, authority, plan);
    let p2 = spec_fill_data(p1, Ok(fee), data_len, a1)->Ok_0;
    assert(apply_fill(p1, a1, p2).0 == p1);
    assert(apply_fill(p1, a1, p2).1 == a1);
}

/// A storage account that a store creates already holds exactly the
/// rent-exempt minimum for the data: finishing the store moves no
/// lamports.
pub proof fn lemma_new_storage_needs_no_adjustment(accounts: Seq<Account>, data_len: usize, fee: u64)
    requires
        spec_store_data(accounts, data_len, Ok(fee)) matches Ok(StoreOpen::Create(c)) && accounts[0].lamports >= c.lamports,
    ensures
        ({
            let create = spec_store_data(accounts, data_len, Ok(fee))->Ok_0->Create_0;
            let (a1, p1) = apply_create_storage(accounts[0], accounts[1], create);
            &&& create.space == data_len
            &&& create.lamports == fee
            &&& spec_store_data_after_create(seq![a1, p1, accounts[2]], data_len, Ok(fee))
                == Ok::<FillPlan, ProgramError>(FillPlan { lamports: LamportsChange::Unchanged, data_len })
        }),
{
    let create = spec_store_data(accounts, data_len, Ok(fee))->Ok_0->Create_0;
    let (a1, p1) = apply_create_storage(accounts[0], accounts[1], create);
    assert(seq![a1, p1, accounts[2]][1] == p1);
    assert(seq![a1, p1, accounts[2]][2] == accounts[2]);
    assert(seq![a1, p1, accounts[2]][0] == a1);
}

/// A whole store (opening, creation when needed, fill) that succeeds
/// leaves the storage account with exactly its rent-exempt minimum and keeps
/// the total of its and the authority's balances; storing data of the same
/// length again changes no account.
pub proof fn lemma_store_twice(accounts: Seq<Account>, data_len: usize, fee: u64)
    requires
        accounts.len() >= 3,
        !same_account(accounts[0], accounts[1]),
        fee > 0,
        run_store(accounts, data_len, Ok(fee)) is Ok,
    ensures
        ({
            let after = run_store(accounts, data_len, Ok(fee))->Ok_0;
            &&& after.len() == accounts.len()
            &&& after[1].lamports == fee
            &&& after[0].lamports + after[1].lamports == accounts[0].lamports + accounts[1].lamports
            &&& spec_store_data(after, data_len, Ok(fee)) == Ok::<StoreOpen, ProgramError>(StoreOpen::Exists)
            &&& run_store(after, data_len, Ok(fee)) == Ok::<Seq<Account>, ProgramError>(after)
        }),
{
    let after = run_store(accounts, data_len, Ok(fee))->Ok_0;
    assert(after[2] == accounts[2]);
    assert(after.update(0, after[0]).update(1, after[1]) =~= after);
}

/// The vault address of an owner is the program address of the seeds
/// `["vault", owner]`, the owner taken whole: owners that differ in any
/// byte have their vaults derived from different seeds.
pub proof fn lemma_vault_address_seeds(owner: Seq<u8>, other: Seq<u8>, program_id: Seq<u8>)
    ensures
        spec_vault_pda(owner, program_id) == find_program_address_result(
            seq![seq![118u8, 97u8, 117u8, 108u8, 116u8], owner],
            program_id,
        ),
        owner != other ==> seq![seq![118u8, 97u8, 117u8, 108u8, 116u8], owner] != seq![
            seq![118u8, 97u8, 117u8, 108u8, 116u8],
            other,
        ],
{
    assert(crate::vault::utils::VAULT_SEED@ =~= seq![118u8, 97u8, 117u8, 108u8, 116u8]);
    if owner != other {
        assert(seq![seq![118u8, 97u8, 117u8, 108u8, 116u8], owner][1] == owner);
        assert(seq![seq![118u8, 97u8, 117u8, 108u8, 116u8], other][1] == other);
    }
}

/// The storage address of an owner is the address of the storage program
/// for the seeds `["storage", owner]`, the owner taken whole: owners that
/// differ in any byte have their storage derived from different seeds.
pub proof fn lemma_storage_address_seeds(owner: Seq<u8>, other: Seq<u8>)
    ensures
        spec_storage_pda(owner) == find_program_address_result(
            seq![seq![115u8, 116u8, 111u8, 114u8, 97u8, 103u8, 101u8], owner],
            STORAGE_ID@,
        ),
        owner != other ==> seq![seq![115u8, 116u8, 111u8, 114u8, 97u8, 103u8, 101u8], owner] != seq![
            seq![115u8, 116u8, 111u8, 114u8, 97u8, 103u8, 101u8],
            other,
        ],
{
    assert(crate::storage::util::SEEDS_PREFIX@ =~= seq![115u8, 116u8, 111u8, 114u8, 97u8, 103u8, 101u8]);
    if owner != other {
        assert(seq![seq![115u8, 116u8, 111u8, 114u8, 97u8, 103u8, 101u8], owner][1] == owner);
        assert(seq![seq![115u8, 116u8, 111u8, 114u8, 97u8, 103u8, 101u8], other][1] == other);
    }
}

/// With the exemption threshold one or two (`t`), the rent-exempt minimum
/// of `data_len` bytes is `(128 + data_len) * rate * t` lamports whenever
/// that fits in a `u64`, and each further byte of data adds exactly
/// `rate * t` lamports.
pub proof fn lemma_legacy_minimum_formula(rent: LegacyRent, data_len: int, t: int)
    requires
        0 <= data_len,
        128 + data_len + 1 <= u64::MAX,
        (rent.exemption_threshold_bits == EXEMPTION_THRESHOLD_ONE_BITS && t == 1)
            || (rent.exemption_threshold_bits == EXEMPTION_THRESHOLD_TWO_BITS && t == 2),
        (128 + data_len + 1) * rent.lamports_per_byte_year * t <= u64::MAX,
    ensures
        spec_legacy_minimum_balance(rent, data_len) == Ok::<MinimumBalance, ProgramError>(
            MinimumBalance::Lamports(((128 + data_len) * rent.lamports_per_byte_year * t) as u64),
        ),
        match (spec_legacy_minimum_balance(rent, data_len), spec_legacy_minimum_balance(rent, data_len + 1)) {
            (Ok(MinimumBalance::Lamports(a)), Ok(MinimumBalance::Lamports(b))) => b - a == rent.lamports_per_byte_year * t,
            _ => false,
        },
{
    let r = rent.lamports_per_byte_year as int;
    let a = 128 + data_len;
    assert(a * r <= a * r * t && a * r * t <= (a + 1) * r * t && (a + 1) * r <= (a + 1) * r * t) by (nonlinear_arith)
        requires
            0 <= a,
            0 <= r,
            1 <= t,
    ;
    assert((a + 1) * r * t - a * r * t == r * t) by (nonlinear_arith);
    assert(0 <= a * r) by (nonlinear_arith)
        requires
            0 <= a,
            0 <= r,
    ;
    if t == 2 {
        assert(a * r * 2 == a * r * t);
        assert((a + 1) * r * 2 == (a + 1) * r * t);
    }
}

/// Filling a storage account with `data_len` bytes, given its rent-exempt
/// minimum `fee`: an account below the minimum is topped up by the
/// difference, one at the minimum is left alone, and one above it always
/// refunds the surplus to an authority that is another account, whatever
/// the authority's balance, as long as the sum fits in a `u64`.
pub proof fn lemma_fill_data_outcomes(pda: Account, fee: u64, data_len: usize, authority: Account)
    ensures
        pda.lamports < fee ==> spec_fill_data(pda, Ok(fee), data_len, authority) == Ok::<FillPlan, ProgramError>(
            FillPlan { lamports: LamportsChange::TopUp((fee - pda.lamports) as u64), data_len },
        ),
        pda.lamports == fee ==> spec_fill_data(pda, Ok(fee), data_len, authority) == Ok::<FillPlan, ProgramError>(
            FillPlan { lamports: LamportsChange::Unchanged, data_len },
        ),
        pda.lamports > fee && !same_account(pda, authority) && authority.lamports + (pda.lamports - fee) <= u64::MAX
            ==> spec_fill_data(pda, Ok(fee), data_len, authority) == Ok::<FillPlan, ProgramError>(
            FillPlan {
                lamports: LamportsChange::Refund {
                    pda_lamports: fee,
                    authority_lamports: (authority.lamports + (pda.lamports - fee)) as u64,
                },
                data_len,
            },
        ),
        forall|e: ProgramError| spec_fill_data(pda, Err(e), data_len, authority) == Err::<FillPlan, ProgramError>(e),
{
}

} // verus!
