use slq::account::{AccountInfo, CreateAccount, Effect, ProgramError, RentMinimums};
use slq::client::vault::VaultCommand;
use slq::error::Error;
use slq::instruction::{AccountMeta, Instruction};
use slq::nonce::WithdrawNonceAccount;
use slq::pubkey::Pubkey;
use slq::vault::{CreateVault, DepositToVault, WithdrawFromVault, VAULT_LAMPORTS};
use slq::{process_instruction, SlqInstruction};

const RENT: RentMinimums = RentMinimums { instance: 10, multisig: 20, nonce: 30 };

fn key(first: u8) -> Pubkey {
    let mut bytes = [first; 32];
    bytes[31] = 1;
    Pubkey { bytes }
}

fn program() -> Pubkey {
    key(200)
}

fn account(key: Pubkey, lamports: u64, owner: Pubkey) -> AccountInfo {
    AccountInfo {
        key,
        is_signer: false,
        is_writable: true,
        lamports,
        data: vec![],
        owner,
        executable: false,
    }
}

fn signer(key: Pubkey, lamports: u64) -> AccountInfo {
    AccountInfo { is_signer: true, ..account(key, lamports, Pubkey::empty()) }
}

fn system() -> AccountInfo {
    AccountInfo { executable: true, is_writable: false, ..account(Pubkey::empty(), 1, key(99)) }
}

fn ledger_key(key: &Pubkey) -> solana_program::pubkey::Pubkey {
    solana_program::pubkey::Pubkey::new_from_array(key.bytes)
}

fn same_instruction(ours: &Instruction, theirs: &solana_program::instruction::Instruction) {
    assert_eq!(ours.program_id.bytes, theirs.program_id.to_bytes());
    assert_eq!(ours.data, theirs.data);
    assert_eq!(ours.accounts.len(), theirs.accounts.len());
    for (a, b) in ours.accounts.iter().zip(theirs.accounts.iter()) {
        assert_eq!(a.pubkey.bytes, b.pubkey.to_bytes());
        assert_eq!(a.is_signer, b.is_signer);
        assert_eq!(a.is_writable, b.is_writable);
    }
}

#[test]
fn vault_commands_build_instructions_for_the_payers_vault() {
    let payer = key(1);
    let (vault, bump) = slq::vault::vault_pda(&program(), &payer, "vault").unwrap();
    let metas = vec![
        AccountMeta { pubkey: payer, is_signer: true, is_writable: true },
        AccountMeta { pubkey: vault, is_signer: false, is_writable: true },
        AccountMeta { pubkey: Pubkey::empty(), is_signer: false, is_writable: false },
    ];
    let create = slq::client::vault::do_command(&program(), &payer, VaultCommand::CreateVault).unwrap();
    assert_eq!(create.accounts, metas);
    assert_eq!(create.program_id, program());
    assert_eq!(
        SlqInstruction::deserialize(&create.data),
        Some(SlqInstruction::Vault(slq::vault::SlqVaultInstruction::CreateVault(CreateVault {
            vault_name: "vault".to_string(),
            vault_bump_seed: bump,
        })))
    );
    let deposit =
        slq::client::vault::do_command(&program(), &payer, VaultCommand::DepositToVault { amount: 5 })
            .unwrap();
    assert_eq!(deposit.accounts, metas);
    assert_eq!(
        deposit.data,
        borsh::to_vec(&(2u8, 1u8, "vault".to_string(), bump, 5u64)).unwrap()
    );
    let withdraw = slq::client::vault::do_command(
        &program(),
        &payer,
        VaultCommand::WithdrawFromVault { amount: 6 },
    )
    .unwrap();
    assert_eq!(withdraw.accounts, metas);
    assert_eq!(
        withdraw.data,
        borsh::to_vec(&(2u8, 2u8, "vault".to_string(), bump, 6u64)).unwrap()
    );
    assert_eq!(
        CreateVault::build_instruction(&program(), &payer, "0123456789abcdef0123456789abcdefX"),
        Err(Error::NoProgramAddress)
    );
    assert_eq!(
        DepositToVault::build_instruction(&program(), &payer, "savings", 5).unwrap().data,
        borsh::to_vec(&(
            2u8,
            1u8,
            "savings".to_string(),
            slq::vault::vault_pda(&program(), &payer, "savings").unwrap().1,
            5u64
        ))
        .unwrap()
    );
}

#[test]
fn create_vault_decides() {
    let payer = key(1);
    let (vault, bump) = slq::vault::vault_pda(&program(), &payer, "vault").unwrap();
    let operation = CreateVault { vault_name: "vault".to_string(), vault_bump_seed: bump };
    let good = vec![signer(payer, 5000), account(vault, 0, Pubkey::empty())];
    assert_eq!(operation.exec(&program(), &good[..1]), Err(ProgramError::NotEnoughAccountKeys));
    let mut accounts = good.clone();
    accounts[0].is_signer = false;
    accounts[0].is_writable = false;
    assert_eq!(operation.exec(&program(), &accounts), Err(ProgramError::MissingRequiredSignature));
    let mut accounts = good.clone();
    accounts[0].is_writable = false;
    assert_eq!(operation.exec(&program(), &accounts), Err(ProgramError::AccountNotWritable));
    let mut accounts = good.clone();
    accounts[1].key = key(3);
    assert_eq!(operation.exec(&program(), &accounts), Err(ProgramError::AddressMismatch));
    let effect = operation.exec(&program(), &good).unwrap();
    assert_eq!(
        effect,
        Effect::CreateVault {
            create: CreateAccount {
                from: payer,
                to: vault,
                lamports: 1000,
                space: 0,
                owner: program(),
            }
        }
    );
    assert_eq!(VAULT_LAMPORTS, 1000);
    assert_eq!(effect.record_data(), None);
    same_instruction(
        &effect.instruction().unwrap(),
        &solana_program::system_instruction::create_account(
            &ledger_key(&payer),
            &ledger_key(&vault),
            1000,
            0,
            &ledger_key(&program()),
        ),
    );
}

#[test]
fn deposit_moves_from_payer_to_vault() {
    let payer = key(1);
    let operation = DepositToVault { vault_name: "vault".to_string(), vault_bump_seed: 1, amount: 77 };
    let accounts = vec![signer(payer, 100), account(key(2), 0, program())];
    assert_eq!(operation.exec(&program(), &accounts[..1]), Err(ProgramError::NotEnoughAccountKeys));
    let effect = operation.exec(&program(), &accounts).unwrap();
    assert_eq!(effect, Effect::Transfer { from: payer, to: key(2), lamports: 77 });
    same_instruction(
        &effect.instruction().unwrap(),
        &solana_program::system_instruction::transfer(&ledger_key(&payer), &ledger_key(&key(2)), 77),
    );
}

#[test]
fn withdrawal_needs_the_owner_and_the_balance() {
    let payer = key(1);
    let (vault, bump) = slq::vault::vault_pda(&program(), &payer, "vault").unwrap();
    let withdraw = |amount: u64| WithdrawFromVault {
        vault_name: "vault".to_string(),
        vault_bump_seed: bump,
        amount,
    };
    let good = vec![signer(payer, 0), account(vault, 500, program())];
    assert_eq!(
        withdraw(500).exec(&program(), &good),
        Ok(Effect::Transfer { from: vault, to: payer, lamports: 500 })
    );
    assert_eq!(withdraw(0).exec(&program(), &good).map(|_| ()), Ok(()));
    assert_eq!(withdraw(501).exec(&program(), &good), Err(ProgramError::InsufficientFunds));
    assert_eq!(withdraw(u64::MAX).exec(&program(), &good), Err(ProgramError::InsufficientFunds));

    let other = key(7);
    let stranger = vec![signer(other, 0), account(vault, 500, program())];
    assert_eq!(withdraw(1).exec(&program(), &stranger), Err(ProgramError::AddressMismatch));
    let mut unsigned = good.clone();
    unsigned[0].is_signer = false;
    assert_eq!(withdraw(1).exec(&program(), &unsigned), Err(ProgramError::MissingRequiredSignature));
    let mut foreign = good.clone();
    foreign[1].owner = key(8);
    assert_eq!(withdraw(1).exec(&program(), &foreign), Err(ProgramError::IncorrectProgramId));
    assert_eq!(withdraw(1).exec(&program(), &good[..1]), Err(ProgramError::NotEnoughAccountKeys));
}

#[test]
fn nonce_withdrawal_decides() {
    let payer = key(1);
    let nonce = key(2);
    let operation = WithdrawNonceAccount { nonce_pubkey: nonce };
    let good = vec![signer(payer, 0), account(nonce, 30, Pubkey::empty()), system()];
    let exec = |accounts: &[AccountInfo]| operation.exec(&program(), accounts, RENT.nonce);
    assert_eq!(exec(&good[..2]), Err(ProgramError::NotEnoughAccountKeys));
    let mut accounts = good.clone();
    accounts[0].is_writable = false;
    assert_eq!(exec(&accounts), Err(ProgramError::AccountNotWritable));
    let mut accounts = good.clone();
    accounts[0].is_signer = false;
    assert_eq!(exec(&accounts), Err(ProgramError::MissingRequiredSignature));
    let mut accounts = good.clone();
    accounts[1].is_writable = false;
    assert_eq!(exec(&accounts), Err(ProgramError::AccountNotWritable));
    let mut accounts = good.clone();
    accounts[1].owner = program();
    assert_eq!(exec(&accounts), Err(ProgramError::IncorrectProgramId));
    let mut accounts = good.clone();
    accounts[1].owner = key(5);
    accounts[2].key = key(5);
    assert_eq!(exec(&accounts), Err(ProgramError::IncorrectProgramId));
    let mut accounts = good.clone();
    accounts[2].executable = false;
    assert_eq!(exec(&accounts), Err(ProgramError::AccountNotExecutable));
    let effect = exec(&good).unwrap();
    assert_eq!(
        effect,
        Effect::WithdrawNonce { nonce, authority: payer, to: payer, lamports: 30 }
    );
    same_instruction(
        &effect.instruction().unwrap(),
        &solana_program::system_instruction::withdraw_nonce_account(
            &ledger_key(&nonce),
            &ledger_key(&payer),
            &ledger_key(&payer),
            30,
        ),
    );
}

#[test]
fn nonce_withdrawal_instruction() {
    let instruction =
        WithdrawNonceAccount::build_instruction(&program(), &key(1), &key(2)).unwrap();
    assert_eq!(instruction.program_id, program());
    assert_eq!(
        instruction.accounts,
        vec![
            AccountMeta { pubkey: key(1), is_signer: true, is_writable: true },
            AccountMeta { pubkey: key(2), is_signer: false, is_writable: true },
            AccountMeta { pubkey: Pubkey::empty(), is_signer: false, is_writable: false },
        ]
    );
    let mut data = vec![4, 0];
    data.extend_from_slice(&key(2).bytes);
    assert_eq!(instruction.data, data);
    let accounts = vec![signer(key(1), 0), account(key(2), 30, Pubkey::empty()), system()];
    assert_eq!(
        process_instruction(&program(), &accounts, &instruction.data, &RENT),
        Ok(Effect::WithdrawNonce { nonce: key(2), authority: key(1), to: key(1), lamports: 30 })
    );
}

#[test]
fn multisig_record_is_created_once() {
    let payer = key(1);
    let instruction = slq::client::multisig::do_command(
        &program(),
        &payer,
        slq::client::multisig::MultisigCommand::Init(slq::client::multisig::Init {
            instance_name: "owners".to_string(),
            approval_threshold: 2,
            owners: vec![
                ledger_key(&key(3)).to_string(),
                ledger_key(&key(4)).to_string(),
            ],
        }),
    )
    .unwrap();
    let (address, _) = slq::multisig::make_instance_pda(&program(), "owners").unwrap();
    assert_eq!(instruction.accounts[1].pubkey, address);
    let mut accounts = vec![signer(payer, 100), account(address, 0, Pubkey::empty()), system()];
    let effect = process_instruction(&program(), &accounts, &instruction.data, &RENT).unwrap();
    let (create, record) = match effect {
        Effect::CreateMultisig { create, multisig } => (create, multisig),
        other => panic!("unexpected {:?}", other),
    };
    assert_eq!(
        create,
        CreateAccount { from: payer, to: address, lamports: 20, space: 161, owner: program() }
    );
    assert_eq!(record.approval_threshold, 2);
    assert_eq!(record.owners[0], key(3));
    assert_eq!(record.owners[1], key(4));
    assert!(record.owners[2].is_default());
    let data = effect.record_data().unwrap();
    assert_eq!(data.len(), 161);
    accounts[1].owner = program();
    accounts[1].lamports = 20;
    accounts[1].data = data;
    assert_eq!(
        process_instruction(&program(), &accounts, &instruction.data, &RENT),
        Err(ProgramError::AccountAlreadyInitialized)
    );
    accounts[0].lamports = 19;
    accounts[1] = account(address, 0, Pubkey::empty());
    assert_eq!(
        process_instruction(&program(), &accounts, &instruction.data, &RENT),
        Err(ProgramError::InsufficientFunds)
    );
    assert_eq!(
        slq::client::multisig::do_command(
            &program(),
            &payer,
            slq::client::multisig::MultisigCommand::Init(slq::client::multisig::Init {
                instance_name: "owners".to_string(),
                approval_threshold: 2,
                owners: vec!["x".to_string()],
            }),
        ),
        Err(Error::InvalidAccountKey)
    );
}

#[test]
fn system_instructions_byte_for_byte() {
    let from = key(1);
    let to = key(2);
    let transfer = Effect::Transfer { from, to, lamports: 0x0102_0304 }.instruction().unwrap();
    assert_eq!(transfer.program_id, Pubkey::empty());
    assert_eq!(
        transfer.accounts,
        vec![
            AccountMeta { pubkey: from, is_signer: true, is_writable: true },
            AccountMeta { pubkey: to, is_signer: false, is_writable: true },
        ]
    );
    assert_eq!(transfer.data, vec![2, 0, 0, 0, 4, 3, 2, 1, 0, 0, 0, 0]);

    let create = CreateAccount { from, to, lamports: 1000, space: 193, owner: program() }.instruction();
    assert_eq!(create.program_id, Pubkey::empty());
    assert_eq!(
        create.accounts,
        vec![
            AccountMeta { pubkey: from, is_signer: true, is_writable: true },
            AccountMeta { pubkey: to, is_signer: true, is_writable: true },
        ]
    );
    let mut data = vec![0, 0, 0, 0, 0xe8, 3, 0, 0, 0, 0, 0, 0, 193, 0, 0, 0, 0, 0, 0, 0];
    data.extend_from_slice(&program().bytes);
    assert_eq!(create.data, data);

    let withdraw = Effect::WithdrawNonce { nonce: to, authority: from, to: key(3), lamports: 7 }
        .instruction()
        .unwrap();
    assert_eq!(withdraw.program_id, Pubkey::empty());
    assert_eq!(withdraw.data, vec![5, 0, 0, 0, 7, 0, 0, 0, 0, 0, 0, 0]);
    let recent = Pubkey::parse("SysvarRecentB1ockHashes11111111111111111111").unwrap();
    let rent = Pubkey::parse("SysvarRent111111111111111111111111111111111").unwrap();
    assert_eq!(
        recent.bytes,
        [
            6, 167, 213, 23, 25, 44, 86, 142, 224, 138, 132, 95, 115, 210, 151, 136, 207, 3, 92, 49,
            69, 178, 26, 179, 68, 216, 6, 46, 169, 64, 0, 0
        ]
    );
    assert_eq!(
        rent.bytes,
        [
            6, 167, 213, 23, 25, 44, 92, 81, 33, 140, 201, 76, 61, 74, 241, 127, 88, 218, 238, 8,
            155, 161, 253, 68, 227, 219, 217, 138, 0, 0, 0, 0
        ]
    );
    assert_eq!(
        withdraw.accounts,
        vec![
            AccountMeta { pubkey: to, is_signer: false, is_writable: true },
            AccountMeta { pubkey: key(3), is_signer: false, is_writable: true },
            AccountMeta { pubkey: recent, is_signer: false, is_writable: false },
            AccountMeta { pubkey: rent, is_signer: false, is_writable: false },
            AccountMeta { pubkey: from, is_signer: true, is_writable: false },
        ]
    );
    assert_eq!(Effect::StoreInstance { instance: slq::state::SlqInstance {
        admin_config: slq::state::AdminConfig {
            approval_threshold: 1,
            admin_accounts: [Pubkey::empty(); 6],
        },
    } }.instruction(), None);
}
