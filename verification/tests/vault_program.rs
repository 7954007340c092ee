use pinocchio_vault::account::{address_eq, Account, Address};
use pinocchio_vault::client::{deposit_data, withdraw_data};
use pinocchio_vault::error::ProgramError;
use pinocchio_vault::rent::Rent;
use pinocchio_vault::vault::instruction::{
    encode_address, Deposit, DepositPlan, Withdraw, WithdrawPlan, DEPOSIT, WITHDRAW,
};
use pinocchio_vault::vault::system_utils::encure_pda_created;
use pinocchio_vault::vault::utils::{derive_vault_pda, parse_amount, VAULT_SEED};
use pinocchio_vault::vault::{process_instruction, VaultAction, ID};

const DEFAULT_RENT: Rent = Rent { lamports_per_byte: 6960 };
const SYSTEM_PROGRAM: Address = [0u8; 32];

fn wallet(address: Address, lamports: u64) -> Account {
    Account { address, owner: SYSTEM_PROGRAM, lamports, data: Vec::new(), is_signer: true }
}

fn empty_vault_of(owner: &Address) -> Account {
    empty_vault_under(owner, &ID)
}

fn empty_vault_under(owner: &Address, program_id: &Address) -> Account {
    let (pda, _bump) = derive_vault_pda(owner, program_id).unwrap();
    Account { address: pda, owner: SYSTEM_PROGRAM, lamports: 0, data: Vec::new(), is_signer: false }
}

/// Runs one instruction of the vault program on `[caller, vault]` and
/// applies what it decides the way the runtime does.
fn call_process(program_id: &Address, caller: &mut Account, vault: &mut Account, rent: &Rent, data: &[u8]) -> Result<(), ProgramError> {
    let accounts = vec![
        Account { address: caller.address, owner: caller.owner, lamports: caller.lamports, data: caller.data.clone(), is_signer: caller.is_signer },
        Account { address: vault.address, owner: vault.owner, lamports: vault.lamports, data: vault.data.clone(), is_signer: vault.is_signer },
    ];
    match process_instruction(program_id, &accounts, data, Ok(*rent))? {
        VaultAction::Deposit(plan) => {
            if plan.create_vault.is_some() {
                let fee = rent.try_minimum_balance(0).unwrap();
                caller.lamports -= fee;
                vault.lamports = fee;
                vault.owner = *program_id;
            }
            caller.lamports -= plan.lamports;
            vault.lamports += plan.lamports;
        }
        VaultAction::Withdraw(plan) => {
            vault.lamports = plan.vault_lamports;
            caller.lamports = plan.authority_lamports;
        }
    }
    Ok(())
}

fn call_withdraw(program_id: &Address, caller: &mut Account, vault: &mut Account, rent: &Rent) {
    let data = [WITHDRAW];
    call_process(program_id, caller, vault, rent, &data).expect("transaction failed");
}

fn call_deposit(program_id: &Address, caller: &mut Account, vault: &mut Account, rent: &Rent, amount: u64) {
    let mut v = Vec::<u8>::new();
    v.push(DEPOSIT);
    let bytes = amount.to_le_bytes();
    v.extend_from_slice(&bytes);
    call_process(program_id, caller, vault, rent, &v).expect("transaction failed");
}

/// The address the end-to-end test deploys the program at.
fn program_id() -> Address {
    let mut id = [0u8; 32];
    five8::decode_32("22222222222222222222222222222222222222222222", &mut id).unwrap();
    id
}

#[test]
fn test_process() {
    let program_id = program_id();
    let caller_addr: Address = [7u8; 32];
    let mut caller = wallet(caller_addr, 1000_000_000);
    let mut vault = empty_vault_under(&caller_addr, &program_id);
    let rent = DEFAULT_RENT;
    let space = 0;
    let rent_fee = rent.try_minimum_balance(space).unwrap();
    let init_balance = caller.lamports;
    call_deposit(&program_id, &mut caller, &mut vault, &rent, 5000_000);
    let balance_after_deposit = caller.lamports;
    assert_eq!(balance_after_deposit, init_balance - 5000_000 - rent_fee);
    call_withdraw(&program_id, &mut caller, &mut vault, &rent);
    let new_balance = caller.lamports;
    assert_eq!(init_balance - rent_fee, new_balance);
}

#[test]
fn vault_keeps_rent_fee_after_round_trip() {
    let owner: Address = [9u8; 32];
    let mut caller = wallet(owner, 10_000_000);
    let mut vault = empty_vault_of(&owner);
    call_deposit(&ID, &mut caller, &mut vault, &DEFAULT_RENT, 1_000);
    assert_eq!(vault.lamports, 890_880 + 1_000);
    assert_eq!(vault.owner, ID);
    call_withdraw(&ID, &mut caller, &mut vault, &DEFAULT_RENT);
    assert_eq!(vault.lamports, 890_880);
    assert_eq!(caller.lamports, 10_000_000 - 890_880);
    // A second withdrawal pays nothing out.
    call_withdraw(&ID, &mut caller, &mut vault, &DEFAULT_RENT);
    assert_eq!(vault.lamports, 890_880);
    assert_eq!(caller.lamports, 10_000_000 - 890_880);
}

#[test]
fn second_deposit_does_not_create_again() {
    let owner: Address = [3u8; 32];
    let mut caller = wallet(owner, 10_000_000);
    let mut vault = empty_vault_of(&owner);
    call_deposit(&ID, &mut caller, &mut vault, &DEFAULT_RENT, 500);
    call_deposit(&ID, &mut caller, &mut vault, &DEFAULT_RENT, 700);
    assert_eq!(vault.lamports, 890_880 + 1_200);
    assert_eq!(caller.lamports, 10_000_000 - 890_880 - 1_200);
}

#[test]
fn parse_amount_reads_little_endian() {
    assert_eq!(parse_amount(&[1, 0, 0, 0, 0, 0, 0, 0]), Ok(1));
    assert_eq!(parse_amount(&[0x40, 0x4b, 0x4c, 0, 0, 0, 0, 0]), Ok(5_000_000));
    assert_eq!(parse_amount(&[0xff; 8]), Ok(u64::MAX));
    assert_eq!(parse_amount(&[0, 1, 0, 0, 0, 0, 0, 0x01]), Ok(0x0100_0000_0000_0100));
}

#[test]
fn parse_amount_refuses_zero_and_wrong_length() {
    assert_eq!(parse_amount(&[0; 8]), Err(ProgramError::InvalidInstructionData));
    assert_eq!(parse_amount(&[1; 7]), Err(ProgramError::MaxInstructionTraceLengthExceeded));
    assert_eq!(parse_amount(&[1; 9]), Err(ProgramError::MaxInstructionTraceLengthExceeded));
    assert_eq!(parse_amount(&[]), Err(ProgramError::MaxInstructionTraceLengthExceeded));
}

#[test]
fn instruction_data_round_trip() {
    assert_eq!(deposit_data(5_000_000), vec![0, 0x40, 0x4b, 0x4c, 0, 0, 0, 0, 0]);
    assert_eq!(withdraw_data(), vec![1]);
    let data = deposit_data(123_456_789);
    assert_eq!(parse_amount(&data[1..]), Ok(123_456_789));
}

#[test]
fn unknown_or_empty_instruction_is_refused() {
    let owner: Address = [4u8; 32];
    let accounts = vec![wallet(owner, 1_000), empty_vault_of(&owner)];
    assert_eq!(process_instruction(&ID, &accounts, &[], Ok(DEFAULT_RENT)), Err(ProgramError::InvalidInstructionData));
    assert_eq!(process_instruction(&ID, &accounts, &[2], Ok(DEFAULT_RENT)), Err(ProgramError::InvalidInstructionData));
    assert_eq!(process_instruction(&ID, &accounts, &[0xff, 1, 2], Ok(DEFAULT_RENT)), Err(ProgramError::InvalidInstructionData));
}

#[test]
fn too_few_accounts_are_refused() {
    let owner: Address = [4u8; 32];
    let accounts = vec![wallet(owner, 1_000)];
    assert_eq!(process_instruction(&ID, &accounts, &deposit_data(5), Ok(DEFAULT_RENT)), Err(ProgramError::NotEnoughAccountKeys));
    assert_eq!(process_instruction(&ID, &accounts, &withdraw_data(), Ok(DEFAULT_RENT)), Err(ProgramError::NotEnoughAccountKeys));
    // The account count is checked before the amount.
    assert_eq!(process_instruction(&ID, &accounts, &[0, 1], Ok(DEFAULT_RENT)), Err(ProgramError::NotEnoughAccountKeys));
    assert!(Deposit::try_from(&[1, 0, 0, 0, 0, 0, 0, 0], &accounts).is_err());
    assert!(Withdraw::try_from(&[], &accounts).is_err());
}

#[test]
fn deposit_into_new_vault_creates_it() {
    let owner: Address = [5u8; 32];
    let (pda, bump) = derive_vault_pda(&owner, &ID).unwrap();
    let accounts = vec![wallet(owner, 1_000_000), empty_vault_of(&owner)];
    let r = process_instruction(&ID, &accounts, &deposit_data(42), Err(ProgramError::UnsupportedSysvar));
    assert_eq!(r, Ok(VaultAction::Deposit(DepositPlan { create_vault: Some(bump), lamports: 42 })));
    assert_eq!(accounts[1].address, pda);
    assert_eq!(encure_pda_created(&accounts[1], &accounts[0], &ID), Ok(Some(bump)));
}

#[test]
fn deposit_into_wrong_empty_account_is_refused() {
    let owner: Address = [5u8; 32];
    let mut vault = empty_vault_of(&owner);
    vault.address[0] ^= 1;
    let accounts = vec![wallet(owner, 1_000_000), vault];
    assert_eq!(process_instruction(&ID, &accounts, &deposit_data(42), Ok(DEFAULT_RENT)), Err(ProgramError::InvalidSeeds));
}

#[test]
fn deposit_into_funded_account_skips_creation() {
    let owner: Address = [5u8; 32];
    let mut vault = empty_vault_of(&owner);
    vault.lamports = 10;
    vault.address = [1u8; 32];
    let accounts = vec![wallet(owner, 1_000_000), vault];
    let r = process_instruction(&ID, &accounts, &deposit_data(42), Ok(DEFAULT_RENT));
    assert_eq!(r, Ok(VaultAction::Deposit(DepositPlan { create_vault: None, lamports: 42 })));
}

#[test]
fn deposit_of_zero_is_refused() {
    let owner: Address = [5u8; 32];
    let accounts = vec![wallet(owner, 1_000_000), empty_vault_of(&owner)];
    assert_eq!(process_instruction(&ID, &accounts, &deposit_data(0), Ok(DEFAULT_RENT)), Err(ProgramError::InvalidInstructionData));
    assert_eq!(process_instruction(&ID, &accounts, &[0, 1, 2], Ok(DEFAULT_RENT)), Err(ProgramError::MaxInstructionTraceLengthExceeded));
}

fn funded_vault(owner: &Address, lamports: u64) -> Account {
    let mut v = empty_vault_of(owner);
    v.lamports = lamports;
    v.owner = ID;
    v
}

#[test]
fn withdraw_pays_out_above_rent() {
    let owner: Address = [6u8; 32];
    let accounts = vec![wallet(owner, 100), funded_vault(&owner, 1_000_000)];
    let r = process_instruction(&ID, &accounts, &withdraw_data(), Ok(DEFAULT_RENT));
    assert_eq!(
        r,
        Ok(VaultAction::Withdraw(WithdrawPlan { amount: 109_120, vault_lamports: 890_880, authority_lamports: 109_220 }))
    );
}

#[test]
fn withdraw_requires_signature() {
    let owner: Address = [6u8; 32];
    let mut authority = wallet(owner, 100);
    authority.is_signer = false;
    let accounts = vec![authority, funded_vault(&owner, 1_000_000)];
    assert_eq!(process_instruction(&ID, &accounts, &withdraw_data(), Ok(DEFAULT_RENT)), Err(ProgramError::MissingRequiredSignature));
}

#[test]
fn withdraw_requires_vault_owned_by_program() {
    let owner: Address = [6u8; 32];
    let mut vault = funded_vault(&owner, 1_000_000);
    vault.owner = SYSTEM_PROGRAM;
    let accounts = vec![wallet(owner, 100), vault];
    assert_eq!(process_instruction(&ID, &accounts, &withdraw_data(), Ok(DEFAULT_RENT)), Err(ProgramError::InvalidAccountOwner));
}

#[test]
fn withdraw_requires_vault_address() {
    let owner: Address = [6u8; 32];
    let other: Address = [8u8; 32];
    let accounts = vec![wallet(owner, 100), funded_vault(&other, 1_000_000)];
    assert_eq!(process_instruction(&ID, &accounts, &withdraw_data(), Ok(DEFAULT_RENT)), Err(ProgramError::InvalidAccountData));
}

#[test]
fn withdraw_reports_rent_errors() {
    let owner: Address = [6u8; 32];
    let accounts = vec![wallet(owner, 100), funded_vault(&owner, 1_000_000)];
    assert_eq!(
        process_instruction(&ID, &accounts, &withdraw_data(), Err(ProgramError::UnsupportedSysvar)),
        Err(ProgramError::UnsupportedSysvar)
    );
    let too_expensive = Rent { lamports_per_byte: 1_759_197_129_868 };
    assert_eq!(process_instruction(&ID, &accounts, &withdraw_data(), Ok(too_expensive)), Err(ProgramError::InvalidArgument));
}

#[test]
fn withdraw_below_rent_is_refused() {
    let owner: Address = [6u8; 32];
    let accounts = vec![wallet(owner, 100), funded_vault(&owner, 890_879)];
    assert_eq!(process_instruction(&ID, &accounts, &withdraw_data(), Ok(DEFAULT_RENT)), Err(ProgramError::InsufficientFunds));
}

#[test]
fn withdraw_overflow_is_refused() {
    let owner: Address = [6u8; 32];
    let accounts = vec![wallet(owner, u64::MAX - 5), funded_vault(&owner, 890_880 + 6)];
    assert_eq!(process_instruction(&ID, &accounts, &withdraw_data(), Ok(DEFAULT_RENT)), Err(ProgramError::ArithmeticOverflow));
    let accounts = vec![wallet(owner, u64::MAX - 6), funded_vault(&owner, 890_880 + 6)];
    let r = Withdraw::try_from(&[], &accounts).unwrap().process(&ID, Ok(DEFAULT_RENT));
    assert_eq!(r, Ok(WithdrawPlan { amount: 6, vault_lamports: 890_880, authority_lamports: u64::MAX }));
}

#[test]
fn withdraw_rent_depends_on_data_length() {
    let owner: Address = [6u8; 32];
    let mut vault = funded_vault(&owner, 2_000_000);
    vault.data = vec![0u8; 100];
    let accounts = vec![wallet(owner, 0), vault];
    let r = process_instruction(&ID, &accounts, &withdraw_data(), Ok(DEFAULT_RENT));
    assert_eq!(
        r,
        Ok(VaultAction::Withdraw(WithdrawPlan { amount: 2_000_000 - 1_586_880, vault_lamports: 1_586_880, authority_lamports: 2_000_000 - 1_586_880 }))
    );
}

#[test]
fn vault_address_is_program_derived() {
    let owner: Address = [11u8; 32];
    let (pda, bump) = derive_vault_pda(&owner, &ID).unwrap();
    let (expected, expected_bump) = solana_address::Address::find_program_address(
        &[b"vault", &owner],
        &solana_address::Address::new_from_array(ID),
    );
    assert_eq!(pda, expected.to_bytes());
    assert_eq!(bump, expected_bump);
    assert_ne!(pda, owner);
    assert_eq!(&VAULT_SEED, b"vault");
}

#[test]
fn program_id_matches_its_base58_text() {
    let mut decoded = [0u8; 32];
    five8::decode_32("3gN1GKoQFgqBDZGaBxTwKdLrD4sYdWRbNqvgM2yiwduX", &mut decoded).unwrap();
    assert_eq!(decoded, ID);
    assert_eq!(encode_address(&ID), "3gN1GKoQFgqBDZGaBxTwKdLrD4sYdWRbNqvgM2yiwduX");
}

#[test]
fn encode_address_matches_known_text() {
    let bytes = [
        24, 243, 6, 223, 230, 153, 210, 8, 92, 137, 123, 67, 164, 197, 79, 196, 125, 43, 183, 85, 103, 91, 232, 167,
        73, 131, 104, 131, 0, 101, 214, 231,
    ];
    assert_eq!(encode_address(&bytes), "2gPihUTjt3FJqf1VpidgrY5cZ6PuyMccGVwQHRfjMPZG");
    assert_eq!(encode_address(&[0u8; 32]), "11111111111111111111111111111111");
}

#[test]
fn address_eq_compares_all_bytes() {
    let a = [1u8; 32];
    let mut b = [1u8; 32];
    assert!(address_eq(&a, &b));
    b[31] = 2;
    assert!(!address_eq(&a, &b));
}

#[test]
fn vault_follows_the_program_it_runs_under() {
    let other = program_id();
    let owner: Address = [12u8; 32];
    // A vault derived under the declared id is not the vault of a program
    // running at another address.
    let accounts = vec![wallet(owner, 10_000_000), empty_vault_of(&owner)];
    assert_eq!(process_instruction(&other, &accounts, &deposit_data(5), Ok(DEFAULT_RENT)), Err(ProgramError::InvalidSeeds));
    let accounts = vec![wallet(owner, 10_000_000), empty_vault_under(&owner, &other)];
    let (_, bump) = derive_vault_pda(&owner, &other).unwrap();
    assert_eq!(
        process_instruction(&other, &accounts, &deposit_data(5), Ok(DEFAULT_RENT)),
        Ok(VaultAction::Deposit(DepositPlan { create_vault: Some(bump), lamports: 5 }))
    );
    // A vault owned by the declared program is refused by another.
    let mut vault = empty_vault_under(&owner, &other);
    vault.lamports = 1_000_000;
    vault.owner = ID;
    let accounts = vec![wallet(owner, 0), vault];
    assert_eq!(process_instruction(&other, &accounts, &withdraw_data(), Ok(DEFAULT_RENT)), Err(ProgramError::InvalidAccountOwner));
}

#[test]
fn encode_address_of_leading_zero_bytes() {
    let mut bytes = [0u8; 32];
    bytes[31] = 1;
    assert_eq!(encode_address(&bytes), "11111111111111111111111111111112");
    bytes[30] = 1;
    assert_eq!(encode_address(&bytes), "1111111111111111111111111111115S");
    assert_eq!(encode_address(&[0xffu8; 32]), "JEKNVnkbo3jma5nREBBJCDoXFVeKkD56V3xKrvRmWxFG");
}

#[test]
fn different_addresses_have_different_text() {
    let mut a = [0u8; 32];
    let mut b = [0u8; 32];
    b[0] = 1;
    assert_ne!(encode_address(&a), encode_address(&b));
    a[31] = 58;
    b = [0u8; 32];
    b[30] = 1;
    b[31] = 2;
    assert_ne!(encode_address(&a), encode_address(&b));
    let text = encode_address(&ID);
    let mut decoded = [0u8; 32];
    five8::decode_32(text.as_str(), &mut decoded).unwrap();
    assert_eq!(decoded, ID);
    assert!(text.len() >= 32 && text.len() <= 44);
}
