use slq::account::{AccountInfo, CreateAccount, Effect, ProgramError, RentMinimums};
use slq::client::admin::{
    add_admin_account_instruction, change_approval_threshold_instruction, do_command,
    remove_admin_account_instruction, AddAdminAccountAdminCommand, AdminCommand,
    ChangeApprovalThresholdAdminCommand, RemoveAdminAccountAdminCommand,
};
use slq::client::init::InitializeInstanceCommand;
use slq::error::{Error, ValidationError};
use slq::instruction::{AccountMeta, Instruction};
use slq::pubkey::Pubkey;
use slq::state::{AdminConfig, SlqInstance, INSTANCE_SIZE, MAX_ADMIN_ACCOUNTS};
use slq::{process_instruction, SlqInstruction};

const RENT: RentMinimums = RentMinimums { instance: 2_234_160, multisig: 2_011_440, nonce: 1_447_680 };

fn key(first: u8) -> Pubkey {
    let mut bytes = [first; 32];
    bytes[31] = 1;
    Pubkey { bytes }
}

fn text(key: &Pubkey) -> String {
    solana_program::pubkey::Pubkey::new_from_array(key.bytes).to_string()
}

fn program() -> Pubkey {
    key(200)
}

fn payer() -> Pubkey {
    key(100)
}

fn payer_account(lamports: u64) -> AccountInfo {
    AccountInfo {
        key: payer(),
        is_signer: true,
        is_writable: true,
        lamports,
        data: vec![],
        owner: Pubkey::empty(),
        executable: false,
    }
}

fn system_account() -> AccountInfo {
    AccountInfo {
        key: Pubkey::empty(),
        is_signer: false,
        is_writable: false,
        lamports: 1,
        data: vec![],
        owner: key(77),
        executable: true,
    }
}

fn fresh_account(address: Pubkey) -> AccountInfo {
    AccountInfo {
        key: address,
        is_signer: false,
        is_writable: true,
        lamports: 0,
        data: vec![],
        owner: Pubkey::empty(),
        executable: false,
    }
}

fn instance_account(address: Pubkey, data: Vec<u8>) -> AccountInfo {
    AccountInfo {
        key: address,
        is_signer: false,
        is_writable: true,
        lamports: RENT.instance,
        data,
        owner: program(),
        executable: false,
    }
}

fn config(threshold: u8, members: &[Pubkey]) -> AdminConfig {
    AdminConfig {
        approval_threshold: threshold,
        admin_accounts: slq::init::create_admin_accounts_array(members),
    }
}

fn record(threshold: u8, members: &[Pubkey]) -> Vec<u8> {
    SlqInstance { admin_config: config(threshold, members) }.try_to_vec()
}

fn stored(effect: Effect) -> SlqInstance {
    match effect {
        Effect::StoreInstance { instance } => instance,
        Effect::CreateInstance { instance, .. } => instance,
        other => panic!("no record in {:?}", other),
    }
}

/// Carries out on the instance's account what the program decides.
fn run(instruction: &Instruction, instance: &mut AccountInfo) -> Result<Effect, ProgramError> {
    assert_eq!(instruction.program_id, program());
    assert_eq!(instruction.accounts[1].pubkey, instance.key);
    let mut accounts = vec![payer_account(10_000_000), instance.clone()];
    if instruction.accounts.len() > 2 {
        accounts.push(system_account());
    }
    let effect = process_instruction(&program(), &accounts, &instruction.data, &RENT)?;
    if let Effect::CreateInstance { create, .. } = effect {
        instance.owner = create.owner;
        instance.lamports = create.lamports;
    }
    if let Some(data) = effect.record_data() {
        instance.data = data;
    }
    Ok(effect)
}

#[test]
fn init_validation_rules_in_order() {
    let init = |threshold: u8, accounts: Vec<Pubkey>| slq::init::Init {
        instance_name: "n".to_string(),
        approval_threshold: threshold,
        admin_accounts: accounts,
        instance_pda_bump_seed: 0,
    };
    assert_eq!(init(0, vec![]).validate(), Err(ValidationError::ThresholdZero));
    assert_eq!(init(1, vec![]).validate(), Err(ValidationError::NoAccounts));
    assert_eq!(
        init(9, (1..=7).map(key).collect()).validate(),
        Err(ValidationError::TooManyAccounts { capacity: 6 })
    );
    assert_eq!(
        init(3, vec![key(1), key(1)]).validate(),
        Err(ValidationError::ThresholdAboveAccounts)
    );
    assert_eq!(
        init(2, vec![key(1), key(2), key(1)]).validate(),
        Err(ValidationError::DuplicateAccounts)
    );
    assert_eq!(init(2, vec![key(1), key(2), key(3)]).validate(), Ok(()));
    assert_eq!(init(6, (1..=6).map(key).collect()).validate(), Ok(()));
    assert_eq!(init(1, vec![key(1)]).validate(), Ok(()));
}

#[test]
fn multisig_validation_has_five_slots() {
    let init = |threshold: u8, owners: Vec<Pubkey>| slq::multisig::Init {
        instance_name: "n".to_string(),
        approval_threshold: threshold,
        owners,
        instance_pda_bump_seed: 0,
    };
    assert_eq!(
        init(1, (1..=6).map(key).collect()).validate(),
        Err(ValidationError::TooManyAccounts { capacity: 5 })
    );
    assert_eq!(init(5, (1..=5).map(key).collect()).validate(), Ok(()));
    assert_eq!(init(0, vec![key(1)]).validate(), Err(ValidationError::ThresholdZero));
    assert_eq!(init(1, vec![]).validate(), Err(ValidationError::NoAccounts));
    assert_eq!(init(2, vec![key(1)]).validate(), Err(ValidationError::ThresholdAboveAccounts));
    assert_eq!(init(1, vec![key(1), key(1)]).validate(), Err(ValidationError::DuplicateAccounts));
    assert_eq!(slq::multisig::MAX_MULTISIG_OWNERS, 5);
}

#[test]
fn slots_are_packed_from_the_front() {
    let array = slq::init::create_admin_accounts_array(&[key(1), key(2)]);
    assert_eq!(array[0], key(1));
    assert_eq!(array[1], key(2));
    for slot in &array[2..] {
        assert!(slot.is_default());
    }
    assert_eq!(array.len(), MAX_ADMIN_ACCOUNTS);
    let owners = slq::multisig::create_owners_array(&[key(3)]);
    assert_eq!(owners[0], key(3));
    assert_eq!(owners.len(), 5);
    assert!(owners[4].is_default());
}

#[test]
fn init_instruction_names_payer_instance_and_system_program() {
    let instruction = slq::init::Init::build_instruction(
        &program(),
        &payer(),
        "treasury".to_string(),
        2,
        vec![key(1), key(2), key(3)],
    )
    .unwrap();
    let (address, bump) = slq::init::make_instance_pda(&program(), "treasury").unwrap();
    assert_eq!(instruction.program_id, program());
    assert_eq!(
        instruction.accounts,
        vec![
            AccountMeta { pubkey: payer(), is_signer: true, is_writable: true },
            AccountMeta { pubkey: address, is_signer: false, is_writable: true },
            AccountMeta { pubkey: Pubkey::empty(), is_signer: false, is_writable: false },
        ]
    );
    assert_eq!(
        SlqInstruction::deserialize(&instruction.data),
        Some(SlqInstruction::InitializeInstance(
            slq::init::SlqInitializeInstanceInstruction::Init(slq::init::Init {
                instance_name: "treasury".to_string(),
                approval_threshold: 2,
                admin_accounts: vec![key(1), key(2), key(3)],
                instance_pda_bump_seed: bump,
            })
        ))
    );
}

#[test]
fn init_instruction_is_refused_before_it_is_built() {
    let build = |name: &str, threshold: u8, accounts: Vec<Pubkey>| {
        slq::init::Init::build_instruction(&program(), &payer(), name.to_string(), threshold, accounts)
    };
    assert_eq!(
        build("treasury", 0, vec![key(1)]),
        Err(Error::Validation(ValidationError::ThresholdZero))
    );
    assert_eq!(
        build("treasury", 2, vec![key(1)]),
        Err(Error::Validation(ValidationError::ThresholdAboveAccounts))
    );
    assert_eq!(
        build("0123456789abcdef0123456789abcdefX", 1, vec![key(1)]),
        Err(Error::NoProgramAddress)
    );
}

#[test]
fn init_command_reads_keys_from_text() {
    let cmd = InitializeInstanceCommand {
        instance_name: "treasury".to_string(),
        approval_threshold: 1,
        admin_accounts: vec![text(&key(1)), text(&key(2))],
    };
    let built = slq::client::init::do_command(&program(), &payer(), cmd).unwrap();
    let direct = slq::init::Init::build_instruction(
        &program(),
        &payer(),
        "treasury".to_string(),
        1,
        vec![key(1), key(2)],
    )
    .unwrap();
    assert_eq!(built, direct);
    let cmd = InitializeInstanceCommand {
        instance_name: "treasury".to_string(),
        approval_threshold: 1,
        admin_accounts: vec![text(&key(1)), "no key".to_string()],
    };
    assert_eq!(
        slq::client::init::do_command(&program(), &payer(), cmd),
        Err(Error::InvalidAccountKey)
    );
}

#[test]
fn init_decides_in_the_order_of_its_checks() {
    let (address, bump) = slq::init::make_instance_pda(&program(), "treasury").unwrap();
    let init = slq::init::Init {
        instance_name: "treasury".to_string(),
        approval_threshold: 2,
        admin_accounts: vec![key(1), key(2), key(3)],
        instance_pda_bump_seed: bump,
    };
    let good = vec![payer_account(RENT.instance), fresh_account(address), system_account()];
    let exec = |accounts: &Vec<AccountInfo>| init.exec(&program(), accounts, RENT.instance);

    assert_eq!(exec(&good[..2].to_vec()), Err(ProgramError::NotEnoughAccountKeys));
    let mut accounts = good.clone();
    accounts[0].is_writable = false;
    accounts[0].is_signer = false;
    assert_eq!(exec(&accounts), Err(ProgramError::AccountNotWritable));
    let mut accounts = good.clone();
    accounts[0].is_signer = false;
    accounts[1].is_writable = false;
    assert_eq!(exec(&accounts), Err(ProgramError::MissingRequiredSignature));
    let mut accounts = good.clone();
    accounts[1].is_writable = false;
    accounts[1].lamports = 1;
    assert_eq!(exec(&accounts), Err(ProgramError::AccountNotWritable));
    let mut accounts = good.clone();
    accounts[1].lamports = 1;
    assert_eq!(exec(&accounts), Err(ProgramError::AccountAlreadyInitialized));
    let mut accounts = good.clone();
    accounts[1].data = vec![0];
    assert_eq!(exec(&accounts), Err(ProgramError::AccountAlreadyInitialized));
    let mut accounts = good.clone();
    accounts[1].owner = program();
    assert_eq!(exec(&accounts), Err(ProgramError::AccountAlreadyInitialized));
    let mut accounts = good.clone();
    accounts[1].owner = key(5);
    accounts[2].key = key(5);
    assert_eq!(exec(&accounts), Err(ProgramError::IncorrectProgramId));
    let mut accounts = good.clone();
    accounts[2].executable = false;
    assert_eq!(exec(&accounts), Err(ProgramError::AccountNotExecutable));
    let mut accounts = good.clone();
    accounts[1].key = key(6);
    accounts[0].lamports = 0;
    assert_eq!(exec(&accounts), Err(ProgramError::AddressMismatch));
    let mut accounts = good.clone();
    accounts[0].lamports = RENT.instance - 1;
    assert_eq!(exec(&accounts), Err(ProgramError::InsufficientFunds));

    let effect = exec(&good).unwrap();
    assert_eq!(
        effect,
        Effect::CreateInstance {
            create: CreateAccount {
                from: payer(),
                to: address,
                lamports: RENT.instance,
                space: INSTANCE_SIZE as u64,
                owner: program(),
            },
            instance: SlqInstance { admin_config: config(2, &[key(1), key(2), key(3)]) },
        }
    );
}

#[test]
fn init_with_more_identities_than_slots_is_refused_by_the_program() {
    let (address, bump) = slq::init::make_instance_pda(&program(), "t").unwrap();
    let init = slq::init::Init {
        instance_name: "t".to_string(),
        approval_threshold: 1,
        admin_accounts: (1..=7).map(key).collect(),
        instance_pda_bump_seed: bump,
    };
    let accounts = vec![payer_account(RENT.instance), fresh_account(address), system_account()];
    assert_eq!(
        init.exec(&program(), &accounts, RENT.instance),
        Err(ProgramError::AccountDataTooSmall)
    );
}

#[test]
fn init_twice_is_already_initialized() {
    let instruction = slq::init::Init::build_instruction(
        &program(),
        &payer(),
        "treasury".to_string(),
        2,
        vec![key(1), key(2), key(3)],
    )
    .unwrap();
    let mut instance = fresh_account(instruction.accounts[1].pubkey);
    assert!(run(&instruction, &mut instance).is_ok());
    assert_eq!(instance.owner, program());
    assert_eq!(instance.data.len(), INSTANCE_SIZE);
    assert_eq!(run(&instruction, &mut instance), Err(ProgramError::AccountAlreadyInitialized));
}

#[test]
fn change_threshold_command_rules() {
    let data = record(2, &[key(1), key(2), key(3)]);
    let change = |threshold: u8, data: &[u8]| {
        change_approval_threshold_instruction(
            &program(),
            &payer(),
            ChangeApprovalThresholdAdminCommand {
                instance_name: "treasury".to_string(),
                approval_threshold: threshold,
            },
            data,
        )
    };
    assert_eq!(change(0, &data), Err(Error::Validation(ValidationError::ThresholdZero)));
    assert_eq!(
        change(4, &data),
        Err(Error::Validation(ValidationError::ThresholdAboveAdministrators { administrators: 3 }))
    );
    assert_eq!(
        change(2, &data),
        Err(Error::Validation(ValidationError::ThresholdUnchanged { approval_threshold: 2 }))
    );
    assert_eq!(change(1, &data[..100]), Err(Error::InvalidInstanceData));
    assert!(change(1, &data).is_ok());
    let instruction = change(3, &data).unwrap();
    let (address, bump) = slq::init::make_instance_pda(&program(), "treasury").unwrap();
    assert_eq!(
        instruction.accounts,
        vec![
            AccountMeta { pubkey: payer(), is_signer: true, is_writable: true },
            AccountMeta { pubkey: address, is_signer: false, is_writable: true },
        ]
    );
    let mut expected = vec![1, 0, 8, 0, 0, 0];
    expected.extend_from_slice(b"treasury");
    expected.extend_from_slice(&[3, bump]);
    assert_eq!(instruction.data, expected);
}

#[test]
fn add_command_rules() {
    let add = |account: String, data: &[u8]| {
        add_admin_account_instruction(
            &program(),
            &payer(),
            AddAdminAccountAdminCommand { instance_name: "treasury".to_string(), account },
            data,
        )
    };
    let full = record(1, &[key(1), key(2), key(3), key(4), key(5), key(6)]);
    assert_eq!(
        add(text(&key(7)), &full),
        Err(Error::Validation(ValidationError::AdminAccountsFull { capacity: 6 }))
    );
    let data = record(1, &[key(1), key(2)]);
    assert_eq!(
        add(text(&key(2)), &data),
        Err(Error::Validation(ValidationError::AccountExists { account: key(2) }))
    );
    assert_eq!(add("???".to_string(), &data), Err(Error::InvalidAccountKey));
    assert_eq!(add(text(&key(3)), &[]), Err(Error::InvalidInstanceData));
    let instruction = add(text(&key(3)), &data).unwrap();
    let direct = slq::admin::AddAdminAccountAdmin::build_instruction(
        &program(),
        &payer(),
        "treasury".to_string(),
        key(3),
    )
    .unwrap();
    assert_eq!(instruction, direct);
    assert_eq!(instruction.data[..2], [1, 1]);
}

#[test]
fn remove_command_rules() {
    let remove = |account: String, data: &[u8]| {
        remove_admin_account_instruction(
            &program(),
            &payer(),
            RemoveAdminAccountAdminCommand { instance_name: "treasury".to_string(), account },
            data,
        )
    };
    let data = record(1, &[key(1), key(2)]);
    assert_eq!(
        remove(text(&key(3)), &data),
        Err(Error::Validation(ValidationError::AccountMissing { account: key(3) }))
    );
    assert_eq!(
        remove(text(&key(1)), &record(1, &[key(1)])),
        Err(Error::Validation(ValidationError::LastAdminAccount))
    );
    assert_eq!(remove("???".to_string(), &data), Err(Error::InvalidAccountKey));
    assert_eq!(remove(text(&key(1)), &data[..1]), Err(Error::InvalidInstanceData));
    let instruction = remove(text(&key(1)), &data).unwrap();
    assert_eq!(instruction.data[..2], [1, 2]);
}

#[test]
fn remove_is_rejected_at_the_threshold_and_accepted_above_it() {
    let remove = |account: &Pubkey, data: &[u8]| {
        remove_admin_account_instruction(
            &program(),
            &payer(),
            RemoveAdminAccountAdminCommand {
                instance_name: "treasury".to_string(),
                account: text(account),
            },
            data,
        )
    };
    let two_of_two = record(2, &[key(1), key(2)]);
    assert_eq!(
        remove(&key(1), &two_of_two),
        Err(Error::Validation(ValidationError::ThresholdEqualsAccounts))
    );
    assert_eq!(
        remove(&key(2), &two_of_two),
        Err(Error::Validation(ValidationError::ThresholdEqualsAccounts))
    );

    let (address, _) = slq::init::make_instance_pda(&program(), "treasury").unwrap();
    let mut instance = instance_account(address, record(2, &[key(1), key(2), key(3)]));
    let instruction = remove(&key(2), &instance.data).unwrap();
    let after = stored(run(&instruction, &mut instance).unwrap());
    assert_eq!(after.admin_config.admin_list(), vec![key(1), key(3)]);
    assert_eq!(after.admin_config.approval_threshold, 2);
    assert_eq!(after.admin_config, config(2, &[key(1), key(3)]));
    assert_eq!(
        remove(&key(1), &instance.data),
        Err(Error::Validation(ValidationError::ThresholdEqualsAccounts))
    );
}

#[test]
fn add_then_remove_restores_members_and_threshold() {
    let (address, _) = slq::init::make_instance_pda(&program(), "treasury").unwrap();
    let before = config(2, &[key(1), key(2), key(3)]);
    let mut instance = instance_account(address, record(2, &[key(1), key(2), key(3)]));
    let add = add_admin_account_instruction(
        &program(),
        &payer(),
        AddAdminAccountAdminCommand {
            instance_name: "treasury".to_string(),
            account: text(&key(9)),
        },
        &instance.data,
    )
    .unwrap();
    let added = stored(run(&add, &mut instance).unwrap());
    assert_eq!(added.admin_config.admin_list(), vec![key(1), key(2), key(3), key(9)]);
    assert_eq!(added.admin_config.approval_threshold, 2);
    let remove = remove_admin_account_instruction(
        &program(),
        &payer(),
        RemoveAdminAccountAdminCommand {
            instance_name: "treasury".to_string(),
            account: text(&key(9)),
        },
        &instance.data,
    )
    .unwrap();
    let after = stored(run(&remove, &mut instance).unwrap());
    assert_eq!(after.admin_config.admin_list(), before.admin_list());
    assert_eq!(after.admin_config.approval_threshold, before.approval_threshold);
}

#[test]
fn removal_repacks_the_slots() {
    let (address, _) = slq::init::make_instance_pda(&program(), "treasury").unwrap();
    let mut slots = [Pubkey::empty(); 6];
    slots[1] = key(1);
    slots[3] = key(2);
    slots[5] = key(3);
    let sparse = SlqInstance { admin_config: AdminConfig { approval_threshold: 1, admin_accounts: slots } };
    let mut instance = instance_account(address, sparse.try_to_vec());
    let remove = slq::admin::RemoveAdminAccountAdmin::build_instruction(
        &program(),
        &payer(),
        "treasury".to_string(),
        key(2),
    )
    .unwrap();
    let after = stored(run(&remove, &mut instance).unwrap());
    assert_eq!(after.admin_config, config(1, &[key(1), key(3)]));
}

#[test]
fn changes_are_refused_by_the_program_in_the_order_of_its_checks() {
    let (address, bump) = slq::init::make_instance_pda(&program(), "treasury").unwrap();
    let operation = slq::admin::ChangeApprovalThresholdAdmin {
        instance_name: "treasury".to_string(),
        approval_threshold: 1,
        instance_pda_bump_seed: bump,
    };
    let good = vec![
        payer_account(1),
        instance_account(address, record(2, &[key(1), key(2)])),
    ];
    let exec = |accounts: &Vec<AccountInfo>| operation.exec(&program(), accounts);
    assert_eq!(exec(&good[..1].to_vec()), Err(ProgramError::NotEnoughAccountKeys));
    let mut accounts = good.clone();
    accounts[0].is_writable = false;
    assert_eq!(exec(&accounts), Err(ProgramError::AccountNotWritable));
    let mut accounts = good.clone();
    accounts[0].is_signer = false;
    assert_eq!(exec(&accounts), Err(ProgramError::MissingRequiredSignature));
    let mut accounts = good.clone();
    accounts[1].is_writable = false;
    assert_eq!(exec(&accounts), Err(ProgramError::AccountNotWritable));
    let mut accounts = good.clone();
    accounts[1].owner = key(8);
    assert_eq!(exec(&accounts), Err(ProgramError::IncorrectProgramId));
    let mut accounts = good.clone();
    accounts[1].key = key(8);
    assert_eq!(exec(&accounts), Err(ProgramError::AddressMismatch));
    let mut accounts = good.clone();
    accounts[1].data.pop();
    assert_eq!(exec(&accounts), Err(ProgramError::InvalidAccountData));
    assert_eq!(
        exec(&good),
        Ok(Effect::StoreInstance {
            instance: SlqInstance { admin_config: config(1, &[key(1), key(2)]) }
        })
    );
    let wrong_bump = slq::admin::ChangeApprovalThresholdAdmin {
        instance_name: "treasury".to_string(),
        approval_threshold: 1,
        instance_pda_bump_seed: bump.wrapping_add(1),
    };
    assert_eq!(wrong_bump.exec(&program(), &good), Err(ProgramError::AddressMismatch));
}

#[test]
fn the_program_adds_no_identity_to_a_full_record() {
    let (address, bump) = slq::init::make_instance_pda(&program(), "treasury").unwrap();
    let operation = slq::admin::AddAdminAccountAdmin {
        instance_name: "treasury".to_string(),
        new_admin_account: key(9),
        instance_pda_bump_seed: bump,
    };
    let all: Vec<Pubkey> = (1..=6).map(key).collect();
    let accounts = vec![payer_account(1), instance_account(address, record(1, &all))];
    assert_eq!(operation.exec(&program(), &accounts), Err(ProgramError::AccountDataTooSmall));
}

#[test]
fn data_that_is_no_instruction_is_refused() {
    let accounts = vec![payer_account(1)];
    assert_eq!(
        process_instruction(&program(), &accounts, &[9, 0, 0], &RENT),
        Err(ProgramError::InvalidInstructionData)
    );
    assert_eq!(
        process_instruction(&program(), &accounts, &[], &RENT),
        Err(ProgramError::InvalidInstructionData)
    );
}

#[test]
fn treasury_end_to_end() {
    let a = key(1);
    let b = key(2);
    let c = key(3);
    let init = slq::client::init::do_command(
        &program(),
        &payer(),
        InitializeInstanceCommand {
            instance_name: "treasury".to_string(),
            approval_threshold: 2,
            admin_accounts: vec![text(&a), text(&b), text(&c)],
        },
    )
    .unwrap();
    let mut instance = fresh_account(init.accounts[1].pubkey);
    let created = stored(run(&init, &mut instance).unwrap());
    assert_eq!(created.admin_config, config(2, &[a, b, c]));

    let change = |data: &[u8]| {
        do_command(
            &program(),
            &payer(),
            AdminCommand::ChangeApprovalThreshold(ChangeApprovalThresholdAdminCommand {
                instance_name: "treasury".to_string(),
                approval_threshold: 3,
            }),
            data,
        )
    };
    let instruction = change(&instance.data).unwrap();
    let changed = stored(run(&instruction, &mut instance).unwrap());
    assert_eq!(changed.admin_config, config(3, &[a, b, c]));

    assert_eq!(
        change(&instance.data),
        Err(Error::Validation(ValidationError::ThresholdUnchanged { approval_threshold: 3 }))
    );

    let remove = do_command(
        &program(),
        &payer(),
        AdminCommand::RemoveAdminAccount(RemoveAdminAccountAdminCommand {
            instance_name: "treasury".to_string(),
            account: text(&c),
        }),
        &instance.data,
    );
    assert_eq!(remove, Err(Error::Validation(ValidationError::ThresholdEqualsAccounts)));
    assert_eq!(SlqInstance::try_from_slice(&instance.data), Some(changed));
}

#[test]
fn the_empty_identity_is_nobody() {
    let init = |threshold: u8, accounts: Vec<Pubkey>| slq::init::Init {
        instance_name: "n".to_string(),
        approval_threshold: threshold,
        admin_accounts: accounts,
        instance_pda_bump_seed: 0,
    };
    assert_eq!(init(1, vec![Pubkey::empty()]).validate(), Err(ValidationError::EmptyAccount));
    assert_eq!(
        init(2, vec![key(1), Pubkey::empty()]).validate(),
        Err(ValidationError::EmptyAccount)
    );
    assert_eq!(
        init(1, vec![key(1), Pubkey::empty(), key(2)]).validate(),
        Err(ValidationError::EmptyAccount)
    );
    assert_eq!(
        init(3, vec![Pubkey::empty(), Pubkey::empty()]).validate(),
        Err(ValidationError::EmptyAccount)
    );
    assert_eq!(
        slq::init::Init::build_instruction(
            &program(),
            &payer(),
            "t".to_string(),
            2,
            vec![key(1), Pubkey::empty()],
        ),
        Err(Error::Validation(ValidationError::EmptyAccount))
    );
    let owners = slq::multisig::Init {
        instance_name: "n".to_string(),
        approval_threshold: 1,
        owners: vec![Pubkey::empty(), key(1)],
        instance_pda_bump_seed: 0,
    };
    assert_eq!(owners.validate(), Err(ValidationError::EmptyAccount));
    assert_eq!(
        slq::multisig::Init::build_instruction(
            &program(),
            &payer(),
            "t".to_string(),
            1,
            vec![Pubkey::empty()],
        ),
        Err(Error::Validation(ValidationError::EmptyAccount))
    );
    assert!(slq::state::has_empty(&vec![key(1), Pubkey::empty()]));
    assert!(!slq::state::has_empty(&vec![key(1), key(2)]));
    assert!(!slq::state::has_empty(&vec![]));
}

#[test]
fn adding_the_empty_identity_adds_nobody() {
    let (address, _) = slq::init::make_instance_pda(&program(), "treasury").unwrap();
    let mut instance = instance_account(address, record(1, &[key(1), key(2)]));
    let add = |data: &[u8]| {
        add_admin_account_instruction(
            &program(),
            &payer(),
            AddAdminAccountAdminCommand {
                instance_name: "treasury".to_string(),
                account: text(&Pubkey::empty()),
            },
            data,
        )
    };
    let instruction = add(&instance.data).unwrap();
    let direct = slq::admin::AddAdminAccountAdmin::build_instruction(
        &program(),
        &payer(),
        "treasury".to_string(),
        Pubkey::empty(),
    )
    .unwrap();
    assert_eq!(instruction, direct);
    let after = stored(run(&instruction, &mut instance).unwrap());
    assert_eq!(after.admin_config, config(1, &[key(1), key(2)]));
    assert_eq!(after.admin_config.admin_list(), vec![key(1), key(2)]);

    let full = record(1, &[key(1), key(2), key(3), key(4), key(5), key(6)]);
    assert_eq!(
        add(&full),
        Err(Error::Validation(ValidationError::AdminAccountsFull { capacity: 6 }))
    );
    let remove = remove_admin_account_instruction(
        &program(),
        &payer(),
        RemoveAdminAccountAdminCommand {
            instance_name: "treasury".to_string(),
            account: text(&Pubkey::empty()),
        },
        &instance.data,
    );
    assert_eq!(
        remove,
        Err(Error::Validation(ValidationError::AccountMissing { account: Pubkey::empty() }))
    );
}

#[test]
fn a_created_record_obeys_the_rule() {
    let lists: Vec<(u8, Vec<Pubkey>)> = vec![
        (1, vec![key(1)]),
        (2, vec![key(1), key(2), key(3)]),
        (6, (1..=6).map(key).collect()),
    ];
    for (threshold, accounts) in lists {
        let instruction = slq::init::Init::build_instruction(
            &program(),
            &payer(),
            "treasury".to_string(),
            threshold,
            accounts.clone(),
        )
        .unwrap();
        let mut instance = fresh_account(instruction.accounts[1].pubkey);
        let created = stored(run(&instruction, &mut instance).unwrap());
        let members = created.admin_config.admin_list();
        assert_eq!(members, accounts);
        assert!(1 <= created.admin_config.approval_threshold);
        assert!(created.admin_config.approval_threshold as usize <= members.len());
        assert!(members.len() <= MAX_ADMIN_ACCOUNTS);
        assert!(!slq::state::has_duplicates(&members));
    }
}
