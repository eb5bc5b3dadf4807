use slq::admin::{
    AddAdminAccountAdmin, ChangeApprovalThresholdAdmin, RemoveAdminAccountAdmin,
    SlqAdminInstruction,
};
use slq::init::SlqInitializeInstanceInstruction;
use slq::multisig::SlqMultisigInstruction;
use slq::nonce::{SlqNonceInstruction, WithdrawNonceAccount};
use slq::pubkey::Pubkey;
use slq::state::{AdminConfig, MultisigConfigInstance, SlqInstance, INSTANCE_SIZE};
use slq::vault::{CreateVault, DepositToVault, SlqVaultInstruction, WithdrawFromVault};
use slq::SlqInstruction;

fn key(first: u8) -> Pubkey {
    let mut bytes = [first; 32];
    bytes[31] = 1;
    Pubkey { bytes }
}

fn samples() -> Vec<(SlqInstruction, Vec<u8>)> {
    let name = "treasury".to_string();
    let keys = vec![key(1), key(2), key(3)];
    let raw: Vec<[u8; 32]> = keys.iter().map(|k| k.bytes).collect();
    vec![
        (
            SlqInstruction::InitializeInstance(SlqInitializeInstanceInstruction::Init(
                slq::init::Init {
                    instance_name: name.clone(),
                    approval_threshold: 2,
                    admin_accounts: keys.clone(),
                    instance_pda_bump_seed: 254,
                },
            )),
            borsh::to_vec(&(0u8, 0u8, name.clone(), 2u8, raw.clone(), 254u8)).unwrap(),
        ),
        (
            SlqInstruction::Admin(SlqAdminInstruction::ChangeApprovalThreshold(
                ChangeApprovalThresholdAdmin {
                    instance_name: name.clone(),
                    approval_threshold: 3,
                    instance_pda_bump_seed: 253,
                },
            )),
            borsh::to_vec(&(1u8, 0u8, name.clone(), 3u8, 253u8)).unwrap(),
        ),
        (
            SlqInstruction::Admin(SlqAdminInstruction::AddAdminAccount(AddAdminAccountAdmin {
                instance_name: name.clone(),
                new_admin_account: key(4),
                instance_pda_bump_seed: 252,
            })),
            borsh::to_vec(&(1u8, 1u8, name.clone(), key(4).bytes, 252u8)).unwrap(),
        ),
        (
            SlqInstruction::Admin(SlqAdminInstruction::RemoveAdminAccount(
                RemoveAdminAccountAdmin {
                    instance_name: name.clone(),
                    to_remove_admin_account: key(5),
                    instance_pda_bump_seed: 251,
                },
            )),
            borsh::to_vec(&(1u8, 2u8, name.clone(), key(5).bytes, 251u8)).unwrap(),
        ),
        (
            SlqInstruction::Vault(SlqVaultInstruction::CreateVault(CreateVault {
                vault_name: "vault".to_string(),
                vault_bump_seed: 250,
            })),
            borsh::to_vec(&(2u8, 0u8, "vault".to_string(), 250u8)).unwrap(),
        ),
        (
            SlqInstruction::Vault(SlqVaultInstruction::DepositToVault(DepositToVault {
                vault_name: "vault".to_string(),
                vault_bump_seed: 249,
                amount: 0x0102_0304_0506_0708,
            })),
            borsh::to_vec(&(2u8, 1u8, "vault".to_string(), 249u8, 0x0102_0304_0506_0708u64))
                .unwrap(),
        ),
        (
            SlqInstruction::Vault(SlqVaultInstruction::WithdrawFromVault(WithdrawFromVault {
                vault_name: "väult".to_string(),
                vault_bump_seed: 248,
                amount: u64::MAX,
            })),
            borsh::to_vec(&(2u8, 2u8, "väult".to_string(), 248u8, u64::MAX)).unwrap(),
        ),
        (
            SlqInstruction::Multisig(SlqMultisigInstruction::Init(slq::multisig::Init {
                instance_name: name.clone(),
                approval_threshold: 1,
                owners: vec![],
                instance_pda_bump_seed: 247,
            })),
            borsh::to_vec(&(3u8, 0u8, name.clone(), 1u8, Vec::<[u8; 32]>::new(), 247u8)).unwrap(),
        ),
        (
            SlqInstruction::Nonce(SlqNonceInstruction::Withdraw(WithdrawNonceAccount {
                nonce_pubkey: key(6),
            })),
            borsh::to_vec(&(4u8, 0u8, key(6).bytes)).unwrap(),
        ),
    ]
}

#[test]
fn instructions_are_written_in_the_fixed_encoding() {
    for (instruction, expected) in samples() {
        assert_eq!(instruction.try_to_vec(), Some(expected));
    }
}

#[test]
fn exact_bytes_of_a_threshold_change() {
    let instruction = SlqInstruction::Admin(SlqAdminInstruction::ChangeApprovalThreshold(
        ChangeApprovalThresholdAdmin {
            instance_name: "foo".to_string(),
            approval_threshold: 1,
            instance_pda_bump_seed: 255,
        },
    ));
    assert!(instruction.encodable());
    assert_eq!(
        instruction.try_to_vec(),
        Some(vec![1, 0, 3, 0, 0, 0, b'f', b'o', b'o', 1, 255])
    );
}

#[test]
fn instructions_read_back_as_written() {
    for (instruction, bytes) in samples() {
        assert_eq!(SlqInstruction::deserialize(&bytes), Some(instruction));
    }
}

#[test]
fn bytes_behind_an_instruction_are_left_unread() {
    for (instruction, mut bytes) in samples() {
        bytes.extend_from_slice(&[9, 9, 9]);
        assert_eq!(SlqInstruction::deserialize(&bytes), Some(instruction));
    }
}

#[test]
fn cut_instructions_are_rejected() {
    for (_, bytes) in samples() {
        for len in 0..bytes.len() {
            assert_eq!(SlqInstruction::deserialize(&bytes[..len]), None);
        }
    }
}

#[test]
fn unknown_tags_are_rejected() {
    let (_, bytes) = samples().remove(1);
    for outer in 5..=255u8 {
        let mut data = bytes.clone();
        data[0] = outer;
        assert_eq!(SlqInstruction::deserialize(&data), None);
    }
    for (outer, first_unknown) in [(0u8, 1u8), (1, 3), (2, 3), (3, 1), (4, 1)] {
        for inner in first_unknown..=255u8 {
            let mut data = vec![outer, inner];
            data.extend_from_slice(&[0u8; 64]);
            assert_eq!(SlqInstruction::deserialize(&data), None);
        }
    }
}

#[test]
fn names_must_be_utf8() {
    let data = vec![2, 0, 2, 0, 0, 0, 0xff, 0xfe, 250];
    assert_eq!(SlqInstruction::deserialize(&data), None);
    let data = vec![2, 0, 2, 0, 0, 0, b'o', b'k', 250];
    assert_eq!(
        SlqInstruction::deserialize(&data),
        Some(SlqInstruction::Vault(SlqVaultInstruction::CreateVault(CreateVault {
            vault_name: "ok".to_string(),
            vault_bump_seed: 250,
        })))
    );
}

#[test]
fn a_key_list_must_hold_as_many_keys_as_it_says() {
    let mut data = vec![0, 0, 1, 0, 0, 0, b'n', 1, 2, 0, 0, 0];
    data.extend_from_slice(&[7u8; 32]);
    data.extend_from_slice(&[8u8; 31]);
    data.push(255);
    assert_eq!(SlqInstruction::deserialize(&data), None);
    let mut data = vec![0, 0, 1, 0, 0, 0, b'n', 1, 0xff, 0xff, 0xff, 0xff];
    data.extend_from_slice(&[7u8; 64]);
    assert_eq!(SlqInstruction::deserialize(&data), None);
}

fn instance() -> SlqInstance {
    let mut slots = [Pubkey::empty(); 6];
    slots[0] = key(1);
    slots[1] = key(2);
    SlqInstance { admin_config: AdminConfig { approval_threshold: 2, admin_accounts: slots } }
}

#[test]
fn instance_layout_is_the_fixed_encoding() {
    let record = instance();
    let raw: [[u8; 32]; 6] = [key(1).bytes, key(2).bytes, [0; 32], [0; 32], [0; 32], [0; 32]];
    let expected = borsh::to_vec(&(2u8, raw)).unwrap();
    assert_eq!(record.try_to_vec(), expected);
    assert_eq!(expected.len(), INSTANCE_SIZE);
    assert_eq!(INSTANCE_SIZE, 193);
}

#[test]
fn instance_layout_round_trip() {
    let record = instance();
    let bytes = record.try_to_vec();
    assert_eq!(SlqInstance::try_from_slice(&bytes), Some(record));
}

#[test]
fn instance_layout_takes_no_byte_less_and_none_more() {
    let bytes = instance().try_to_vec();
    assert_eq!(SlqInstance::try_from_slice(&bytes[..192]), None);
    let mut longer = bytes.clone();
    longer.push(0);
    assert_eq!(SlqInstance::try_from_slice(&longer), None);
    assert_eq!(SlqInstance::try_from_slice(&[]), None);
}

#[test]
fn multisig_layout_is_the_fixed_encoding() {
    let mut owners = [Pubkey::empty(); 5];
    owners[0] = key(9);
    let record = MultisigConfigInstance { approval_threshold: 1, owners };
    let raw: [[u8; 32]; 5] = [key(9).bytes, [0; 32], [0; 32], [0; 32], [0; 32]];
    assert_eq!(record.try_to_vec(), borsh::to_vec(&(1u8, raw)).unwrap());
    assert_eq!(record.try_to_vec().len(), slq::state::MULTISIG_INSTANCE_SIZE);
}

#[test]
fn members_are_the_used_slots_in_order() {
    let mut slots = [Pubkey::empty(); 6];
    slots[1] = key(1);
    slots[4] = key(2);
    let config = AdminConfig { approval_threshold: 1, admin_accounts: slots };
    assert_eq!(config.admin_list(), vec![key(1), key(2)]);
    assert_eq!(slq::state::collect_members(&[]), Vec::<Pubkey>::new());
    assert!(slq::state::contains_key(&vec![key(1), key(2)], &key(2)));
    assert!(!slq::state::contains_key(&vec![key(1), key(2)], &key(3)));
    assert_eq!(slq::state::without(&vec![key(1), key(2), key(1)], &key(1)), vec![key(2)]);
    assert!(slq::state::has_duplicates(&vec![key(1), key(2), key(1)]));
    assert!(!slq::state::has_duplicates(&vec![key(1), key(2), key(3)]));
}
