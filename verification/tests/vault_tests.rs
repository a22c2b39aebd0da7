use solana_program::pubkey::Pubkey;
use solana_vault::{
    process_instruction, resume_after_provisioning, DepositAccount, DepositInstruction, Directive,
    Identity, Slot, VaultError,
};
use std::str::FromStr;

fn program_id() -> Identity {
    let key = Pubkey::from_str("EbKQVLUFJp38qanC4NwQUqsrWrRV4MUMhFRmTTJKHNMC").unwrap();
    Identity::new(key.to_bytes())
}

fn identity(seed: u8) -> Identity {
    let mut bytes = [seed; 32];
    bytes[0] = 1;
    bytes[31] = seed.wrapping_add(7);
    Identity::new(bytes)
}

fn vault_address(depositor: &Identity, program: &Identity) -> Identity {
    let program_key = Pubkey::new_from_array(program.to_bytes());
    let (address, _) =
        Pubkey::find_program_address(&[b"deposit", &depositor.to_bytes()], &program_key);
    Identity::new(address.to_bytes())
}

fn depositor_slot(depositor: &Identity, quantity: u64) -> Slot {
    Slot { address: *depositor, is_signer: true, quantity, data: vec![] }
}

fn vault_slot(depositor: &Identity, quantity: u64, record: &DepositAccount) -> Slot {
    Slot {
        address: vault_address(depositor, &program_id()),
        is_signer: false,
        quantity,
        data: record.to_bytes(),
    }
}

fn authority_slot() -> Slot {
    Slot {
        address: Identity::new(solana_program::system_program::id().to_bytes()),
        is_signer: false,
        quantity: 1,
        data: vec![],
    }
}

fn stored_balance(directive: &Directive) -> u64 {
    match directive {
        Directive::Transfer { record, .. } | Directive::Settle { record, .. } => {
            DepositAccount::try_from_slice(record).unwrap().balance
        }
        Directive::CreateSlot { .. } => panic!("no record is stored by a creation"),
    }
}

#[test]
fn test_deposit() {
    let program_id = program_id();
    let depositor = identity(11);
    let deposit_account_data = DepositAccount { owner: depositor, balance: 0 };
    let accounts = vec![
        depositor_slot(&depositor, 100_000_000),
        vault_slot(&depositor, 1, &deposit_account_data),
        authority_slot(),
    ];

    let deposit_amount = 50_000_000;
    let data = DepositInstruction::Deposit { amount: deposit_amount }.to_bytes();
    let directive = process_instruction(&program_id, &accounts, &data).unwrap();

    assert!(matches!(directive, Directive::Transfer { amount, .. } if amount == deposit_amount));
    assert_eq!(stored_balance(&directive), deposit_amount);
}

#[test]
fn test_withdrawal() {
    let program_id = program_id();
    let depositor = identity(12);
    let initial_balance = 75_000_000;
    let deposit_account_data = DepositAccount { owner: depositor, balance: initial_balance };
    let accounts = vec![
        depositor_slot(&depositor, 100_000_000),
        vault_slot(&depositor, initial_balance, &deposit_account_data),
        authority_slot(),
    ];

    let withdraw_amount = 50_000_000;
    let data = DepositInstruction::Withdraw { amount: withdraw_amount }.to_bytes();
    let directive = process_instruction(&program_id, &accounts, &data).unwrap();

    assert_eq!(stored_balance(&directive), initial_balance - withdraw_amount);
    match directive {
        Directive::Settle { vault_quantity, depositor_quantity, .. } => {
            assert_eq!(vault_quantity, 25_000_000);
            assert_eq!(depositor_quantity, 150_000_000);
        }
        other => panic!("expected a settlement, got {:?}", other),
    }
}

#[test]
fn test_insufficient_funds_withdrawal() {
    let program_id = program_id();
    let depositor = identity(13);
    let initial_balance = 25_000_000;
    let deposit_account_data = DepositAccount { owner: depositor, balance: initial_balance };
    let accounts = vec![
        depositor_slot(&depositor, 100_000_000),
        vault_slot(&depositor, initial_balance, &deposit_account_data),
        authority_slot(),
    ];

    let withdraw_amount = 50_000_000;
    let data = DepositInstruction::Withdraw { amount: withdraw_amount }.to_bytes();
    let result = process_instruction(&program_id, &accounts, &data);
    if let Err(VaultError::InsufficientFunds) = result {
        // the vault is left as it was: nothing is handed to the host
    } else {
        panic!("Expected InsufficientFunds error");
    }
}

#[test]
fn test_unauthorized_access() {
    let program_id = program_id();
    let depositor = identity(14);
    let unauthorized_user = identity(15);
    let initial_balance = 75_000_000;
    let deposit_account_data = DepositAccount { owner: depositor, balance: initial_balance };
    let mut vault = vault_slot(&unauthorized_user, initial_balance, &deposit_account_data);
    let accounts = vec![
        depositor_slot(&unauthorized_user, 100_000_000),
        vault.clone(),
        authority_slot(),
    ];

    let withdraw_amount = 50_000_000;
    let data = DepositInstruction::Withdraw { amount: withdraw_amount }.to_bytes();
    let result = process_instruction(&program_id, &accounts, &data);
    if let Err(VaultError::Unauthorized) = result {
        // the record still holds what it held
    } else {
        panic!("Expected MissingRequiredSignature error");
    }

    // Pointing at the owner's own vault does not help the intruder either.
    vault.address = vault_address(&depositor, &program_id);
    let accounts = vec![depositor_slot(&unauthorized_user, 100_000_000), vault, authority_slot()];
    let result = process_instruction(&program_id, &accounts, &data);
    assert_eq!(result.unwrap_err(), VaultError::InvalidAccountData);
}

#[test]
fn deposit_into_unfunded_vault_provisions_first() {
    let program_id = program_id();
    let depositor = identity(21);
    let address = vault_address(&depositor, &program_id);
    let data = DepositInstruction::Deposit { amount: 50_000_000 }.to_bytes();
    let mut accounts = vec![
        depositor_slot(&depositor, 100_000_000),
        Slot { address, is_signer: false, quantity: 0, data: vec![] },
        authority_slot(),
    ];

    let first = process_instruction(&program_id, &accounts, &data).unwrap();
    let program_key = Pubkey::new_from_array(program_id.to_bytes());
    let (_, expected_bump) =
        Pubkey::find_program_address(&[b"deposit", &depositor.to_bytes()], &program_key);
    match first {
        Directive::CreateSlot { address: at, payer, size, bump } => {
            assert_eq!(at, address);
            assert_eq!(payer, depositor);
            assert_eq!(size, 40);
            assert_eq!(bump, expected_bump);
        }
        other => panic!("expected a creation, got {:?}", other),
    }

    // The host creates the slot: zero-filled, funded from the depositor.
    let funding = 1_169_280;
    accounts[0].quantity -= funding;
    accounts[1].quantity = funding;
    accounts[1].data = vec![0u8; 40];

    let second = resume_after_provisioning(true, &program_id, &accounts, &data).unwrap();
    match &second {
        Directive::Transfer { from, to, amount, record } => {
            assert_eq!(*from, depositor);
            assert_eq!(*to, address);
            assert_eq!(*amount, 50_000_000);
            let stored = DepositAccount::try_from_slice(record).unwrap();
            assert_eq!(stored, DepositAccount { owner: depositor, balance: 50_000_000 });
        }
        other => panic!("expected a transfer, got {:?}", other),
    }
}

#[test]
fn failed_provisioning_ends_the_invocation() {
    let program_id = program_id();
    let depositor = identity(22);
    let address = vault_address(&depositor, &program_id);
    let data = DepositInstruction::Deposit { amount: 5 }.to_bytes();
    let accounts = vec![
        depositor_slot(&depositor, 3),
        Slot { address, is_signer: false, quantity: 0, data: vec![] },
        authority_slot(),
    ];
    let result = resume_after_provisioning(false, &program_id, &accounts, &data);
    assert_eq!(result.unwrap_err(), VaultError::ProvisioningFailed);
}

#[test]
fn resuming_never_creates_again() {
    let program_id = program_id();
    let depositor = identity(23);
    let address = vault_address(&depositor, &program_id);
    let data = DepositInstruction::Deposit { amount: 5 }.to_bytes();
    let accounts = vec![
        depositor_slot(&depositor, 30),
        Slot { address, is_signer: false, quantity: 0, data: vec![0u8; 40] },
        authority_slot(),
    ];
    let directive = resume_after_provisioning(true, &program_id, &accounts, &data).unwrap();
    assert!(matches!(directive, Directive::Transfer { amount: 5, .. }));
}

#[test]
fn first_touch_claims_and_locks_out_others() {
    let program_id = program_id();
    let depositor = identity(24);
    let other = identity(25);
    let unclaimed = DepositAccount::default();
    let accounts = vec![
        depositor_slot(&depositor, 1_000),
        vault_slot(&depositor, 10, &unclaimed),
        authority_slot(),
    ];
    let data = DepositInstruction::Deposit { amount: 400 }.to_bytes();
    let directive = process_instruction(&program_id, &accounts, &data).unwrap();
    let stored = match directive {
        Directive::Transfer { record, .. } => record,
        other => panic!("expected a transfer, got {:?}", other),
    };
    let record = DepositAccount::try_from_slice(&stored).unwrap();
    assert_eq!(record.owner, depositor);
    assert_eq!(record.balance, 400);

    // The same record, found in the vault that is derived for someone else.
    let accounts = vec![
        depositor_slot(&other, 1_000),
        vault_slot(&other, 410, &record),
        authority_slot(),
    ];
    for data in [
        DepositInstruction::Deposit { amount: 1 }.to_bytes(),
        DepositInstruction::Withdraw { amount: 1 }.to_bytes(),
        DepositInstruction::Deposit { amount: 0 }.to_bytes(),
        DepositInstruction::Withdraw { amount: 401 }.to_bytes(),
    ] {
        let result = process_instruction(&program_id, &accounts, &data);
        assert_eq!(result.unwrap_err(), VaultError::Unauthorized);
    }
}

#[test]
fn substituted_vault_is_refused_for_every_instruction() {
    let program_id = program_id();
    let depositor = identity(26);
    let record = DepositAccount { owner: depositor, balance: 9 };
    let mut vault = vault_slot(&depositor, 9, &record);
    vault.address = identity(27);
    for data in [
        DepositInstruction::Deposit { amount: 1 }.to_bytes(),
        DepositInstruction::Withdraw { amount: 1 }.to_bytes(),
        DepositInstruction::Withdraw { amount: 100 }.to_bytes(),
        DepositInstruction::Deposit { amount: 0 }.to_bytes(),
    ] {
        for contents in [record.to_bytes(), vec![], vec![7u8; 40]] {
            for quantity in [0u64, 9] {
                let mut vault = vault.clone();
                vault.data = contents.clone();
                vault.quantity = quantity;
                let accounts = vec![depositor_slot(&depositor, 50), vault, authority_slot()];
                let result = process_instruction(&program_id, &accounts, &data);
                assert_eq!(result.unwrap_err(), VaultError::InvalidAccountData);
                let result = resume_after_provisioning(true, &program_id, &accounts, &data);
                assert_eq!(result.unwrap_err(), VaultError::InvalidAccountData);
            }
        }
    }
}

#[test]
fn vault_of_another_program_is_refused() {
    let program_id = program_id();
    let other_program = identity(28);
    let depositor = identity(29);
    let record = DepositAccount { owner: depositor, balance: 9 };
    let mut vault = vault_slot(&depositor, 9, &record);
    vault.address = vault_address(&depositor, &other_program);
    let accounts = vec![depositor_slot(&depositor, 50), vault, authority_slot()];
    let data = DepositInstruction::Deposit { amount: 1 }.to_bytes();
    let result = process_instruction(&program_id, &accounts, &data);
    assert_eq!(result.unwrap_err(), VaultError::InvalidAccountData);
    let result = process_instruction(&other_program, &accounts, &data);
    assert!(matches!(result, Ok(Directive::Transfer { amount: 1, .. })));
}

#[test]
fn stages_fail_in_their_order() {
    let program_id = program_id();
    let depositor = identity(30);
    let record = DepositAccount { owner: depositor, balance: 9 };
    let good = vec![
        depositor_slot(&depositor, 50),
        vault_slot(&depositor, 9, &record),
        authority_slot(),
    ];
    let data = DepositInstruction::Deposit { amount: 1 }.to_bytes();

    // A malformed instruction is found before anything else.
    let result = process_instruction(&program_id, &[], &[2u8, 0, 0, 0, 0, 0, 0, 0, 0]);
    assert_eq!(result.unwrap_err(), VaultError::DecodeError);

    for supplied in 0..3 {
        let result = process_instruction(&program_id, &good[..supplied], &data);
        assert_eq!(result.unwrap_err(), VaultError::MissingAccount);
    }

    let mut unsigned = good.clone();
    unsigned[0].is_signer = false;
    unsigned[2].address = identity(31);
    let result = process_instruction(&program_id, &unsigned, &data);
    assert_eq!(result.unwrap_err(), VaultError::Unauthorized);

    let mut wrong_authority = good.clone();
    wrong_authority[2].address = identity(31);
    wrong_authority[1].address = identity(32);
    let result = process_instruction(&program_id, &wrong_authority, &data);
    assert_eq!(result.unwrap_err(), VaultError::InvalidProgramReference);

    let mut malformed = good.clone();
    malformed[1].data.push(0);
    let result = process_instruction(&program_id, &malformed, &data);
    assert_eq!(result.unwrap_err(), VaultError::DecodeError);

    // Slots after the third are not looked at.
    let mut extra = good.clone();
    extra.push(Slot { address: identity(33), is_signer: false, quantity: 0, data: vec![1] });
    let result = process_instruction(&program_id, &extra, &data);
    assert!(matches!(result, Ok(Directive::Transfer { amount: 1, .. })));
}

#[test]
fn zero_deposit_is_refused() {
    let program_id = program_id();
    let depositor = identity(34);
    let record = DepositAccount { owner: depositor, balance: 9 };
    let accounts = vec![
        depositor_slot(&depositor, 50),
        vault_slot(&depositor, 9, &record),
        authority_slot(),
    ];
    let data = DepositInstruction::Deposit { amount: 0 }.to_bytes();
    let result = process_instruction(&program_id, &accounts, &data);
    assert_eq!(result.unwrap_err(), VaultError::InvalidAmount);
}

#[test]
fn withdrawal_of_the_whole_balance() {
    let program_id = program_id();
    let depositor = identity(35);
    let record = DepositAccount { owner: depositor, balance: 9 };
    let accounts = vec![
        depositor_slot(&depositor, 50),
        vault_slot(&depositor, 12, &record),
        authority_slot(),
    ];
    let data = DepositInstruction::Withdraw { amount: 9 }.to_bytes();
    let directive = process_instruction(&program_id, &accounts, &data).unwrap();
    match directive {
        Directive::Settle { vault_quantity, depositor_quantity, record } => {
            assert_eq!(vault_quantity, 3);
            assert_eq!(depositor_quantity, 59);
            let stored = DepositAccount::try_from_slice(&record).unwrap();
            assert_eq!(stored, DepositAccount { owner: depositor, balance: 0 });
        }
        other => panic!("expected a settlement, got {:?}", other),
    }
}

#[test]
fn transfer_authority_is_the_system_program() {
    let id = solana_program::system_program::id();
    assert_eq!(id.to_bytes(), [0u8; 32]);
    assert_eq!(authority_slot().address, Identity::sentinel());
}
