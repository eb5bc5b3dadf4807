use slq::client::multisig_tx::{
    find_nonce_account, CancelTransaction, DemoTransaction, ExecTransaction, SignTransaction,
    StartTransaction,
};
use slq::instruction::{AccountMeta, Instruction};
use slq::pubkey::Pubkey;
use slq::transaction::{
    Blockhash, CompiledInstruction, Keypair, Message, MessageHeader, Signature, Transaction,
    TransactionError,
};
use solana_sdk::signature::Signer;

fn keypair(seed: u8) -> Keypair {
    let ledger = solana_sdk::signature::keypair_from_seed(&[seed; 32]).unwrap();
    Keypair { bytes: ledger.to_bytes() }
}

fn ledger_keypair(keypair: &Keypair) -> solana_sdk::signature::Keypair {
    solana_sdk::signature::Keypair::from_bytes(&keypair.bytes).unwrap()
}

fn key(first: u8) -> Pubkey {
    let mut bytes = [first; 32];
    bytes[31] = 1;
    Pubkey { bytes }
}

fn ledger_key(key: &Pubkey) -> solana_sdk::pubkey::Pubkey {
    solana_sdk::pubkey::Pubkey::new_from_array(key.bytes)
}

fn ledger_instruction(instruction: &Instruction) -> solana_sdk::instruction::Instruction {
    solana_sdk::instruction::Instruction {
        program_id: ledger_key(&instruction.program_id),
        accounts: instruction
            .accounts
            .iter()
            .map(|m| solana_sdk::instruction::AccountMeta {
                pubkey: ledger_key(&m.pubkey),
                is_signer: m.is_signer,
                is_writable: m.is_writable,
            })
            .collect(),
        data: instruction.data.clone(),
    }
}

fn from_ledger_instruction(instruction: &solana_sdk::instruction::Instruction) -> Instruction {
    Instruction {
        program_id: Pubkey { bytes: instruction.program_id.to_bytes() },
        accounts: instruction
            .accounts
            .iter()
            .map(|m| AccountMeta {
                pubkey: Pubkey { bytes: m.pubkey.to_bytes() },
                is_signer: m.is_signer,
                is_writable: m.is_writable,
            })
            .collect(),
        data: instruction.data.clone(),
    }
}

fn from_ledger_message(message: &solana_sdk::message::Message) -> Message {
    Message {
        header: MessageHeader {
            num_required_signatures: message.header.num_required_signatures,
            num_readonly_signed_accounts: message.header.num_readonly_signed_accounts,
            num_readonly_unsigned_accounts: message.header.num_readonly_unsigned_accounts,
        },
        account_keys: message.account_keys.iter().map(|k| Pubkey { bytes: k.to_bytes() }).collect(),
        recent_blockhash: Blockhash { bytes: message.recent_blockhash.to_bytes() },
        instructions: message
            .instructions
            .iter()
            .map(|c| CompiledInstruction {
                program_id_index: c.program_id_index,
                accounts: c.accounts.clone(),
                data: c.data.clone(),
            })
            .collect(),
    }
}

fn from_ledger_transaction(tx: &solana_sdk::transaction::Transaction) -> Transaction {
    Transaction {
        signatures: tx
            .signatures
            .iter()
            .map(|s| {
                let mut bytes = [0u8; 64];
                bytes.copy_from_slice(s.as_ref());
                Signature { bytes }
            })
            .collect(),
        message: from_ledger_message(&tx.message),
    }
}

fn signed_slots(tx: &Transaction) -> usize {
    tx.signatures.iter().filter(|s| !s.is_empty()).count()
}

fn program() -> Pubkey {
    key(200)
}

/// Two instructions of a user: one that party B has to sign, one that the
/// payer has to sign.
fn user_instructions(payer: &Pubkey, party_b: &Pubkey) -> Vec<Instruction> {
    vec![
        Instruction {
            program_id: program(),
            accounts: vec![
                AccountMeta { pubkey: *party_b, is_signer: true, is_writable: false },
                AccountMeta { pubkey: key(50), is_signer: false, is_writable: true },
            ],
            data: vec![1, 2, 3],
        },
        Instruction {
            program_id: key(201),
            accounts: vec![
                AccountMeta { pubkey: *payer, is_signer: true, is_writable: true },
                AccountMeta { pubkey: key(51), is_signer: false, is_writable: false },
            ],
            data: vec![],
        },
    ]
}

fn user_transaction(payer: &Pubkey, party_b: &Pubkey) -> Transaction {
    let message = Message::compile(&user_instructions(payer, party_b), payer).unwrap();
    Transaction::new_unsigned(message)
}

fn start() -> StartTransaction {
    StartTransaction {
        instance_name: "treasury".to_string(),
        transaction_name: "raise".to_string(),
        transaction_path: "/tmp/tx.json".to_string(),
    }
}

const NONCE_HASH: Blockhash = Blockhash { bytes: [7; 32] };

#[test]
fn key_pair_signs_for_its_last_bytes() {
    let keypair = keypair(1);
    assert_eq!(keypair.pubkey().bytes, ledger_keypair(&keypair).pubkey().to_bytes());
    assert_eq!(keypair.pubkey().bytes[..], keypair.bytes[32..]);
}

#[test]
fn compiling_is_the_ledgers() {
    let payer = keypair(1).pubkey();
    let party_b = keypair(2).pubkey();
    let instructions = user_instructions(&payer, &party_b);
    let ledger: Vec<_> = instructions.iter().map(ledger_instruction).collect();
    let expected = solana_sdk::message::Message::new(&ledger, Some(&ledger_key(&payer)));
    let message = Message::compile(&instructions, &payer).unwrap();
    assert_eq!(message, from_ledger_message(&expected));
    assert_eq!(message.header.num_required_signatures, 2);
    assert_eq!(message.account_keys[0], payer);
    assert_eq!(message.account_keys[1], party_b);
    assert_eq!(message.instructions.len(), 2);
    assert_eq!(message.recent_blockhash, Blockhash::unset());

    let nonce = key(9);
    let expected = solana_sdk::message::Message::new_with_nonce(
        ledger,
        Some(&ledger_key(&payer)),
        &ledger_key(&nonce),
        &ledger_key(&payer),
    );
    let message = Message::compile_with_nonce(&instructions, &payer, &nonce, &payer).unwrap();
    assert_eq!(message, from_ledger_message(&expected));
    assert_eq!(message.instructions.len(), 3);
    assert_eq!(message.instructions[0].data, vec![4, 0, 0, 0]);
}

fn wide_key(n: u16) -> Pubkey {
    let mut bytes = [9u8; 32];
    bytes[0] = (n % 256) as u8;
    bytes[1] = (n / 256) as u8;
    Pubkey { bytes }
}

fn naming(accounts: u16) -> Instruction {
    Instruction {
        program_id: program(),
        accounts: (0..accounts)
            .map(|n| AccountMeta { pubkey: wide_key(n), is_signer: false, is_writable: false })
            .collect(),
        data: vec![],
    }
}

#[test]
fn too_many_accounts_are_refused() {
    let payer = key(1);
    // payer, program and 254 more: 256 accounts, the most that a message lists
    let fits = vec![naming(254)];
    assert_eq!(slq::transaction::count_accounts(&fits, &payer), 256);
    let message = Message::compile(&fits, &payer).unwrap();
    assert_eq!(message.account_keys.len(), 256);
    assert_eq!(message.header.num_required_signatures, 1);
    assert_eq!(message.header.num_readonly_unsigned_accounts, 255);
    assert_eq!(message.instructions[0].program_id_index, 255);

    let many = vec![naming(255)];
    assert_eq!(slq::transaction::count_accounts(&many, &payer), 257);
    assert_eq!(Message::compile(&many, &payer), Err(TransactionError::TooManyAccounts));

    // the nonce adds the nonce record and the register of recent blockhashes;
    // its program and its authority are listed already
    let nonce = key(2);
    assert!(Message::compile_with_nonce(&vec![naming(251)], &payer, &nonce, &payer).is_ok());
    assert_eq!(
        Message::compile_with_nonce(&vec![naming(252)], &payer, &nonce, &payer),
        Err(TransactionError::TooManyAccounts)
    );
}

#[test]
fn accounts_named_often_count_once() {
    let payer = key(1);
    let often = Instruction {
        program_id: program(),
        accounts: (0..300)
            .map(|_| AccountMeta { pubkey: key(7), is_signer: false, is_writable: true })
            .collect(),
        data: vec![],
    };
    let list = vec![often.clone(), often.clone(), often];
    assert_eq!(slq::transaction::count_accounts(&list, &payer), 3);
    let message = Message::compile(&list, &payer).unwrap();
    assert_eq!(message.account_keys.len(), 3);
    assert_eq!(message.instructions.len(), 3);
    assert_eq!(message.instructions[2].accounts.len(), 300);
    assert_eq!(slq::transaction::count_accounts(&vec![], &payer), 1);
    assert_eq!(slq::transaction::count_distinct(&vec![]), 0);
    assert_eq!(slq::transaction::count_distinct(&vec![key(1), key(2), key(1), key(1)]), 2);
}

#[test]
fn decompiling_gives_back_what_was_compiled() {
    let payer = keypair(1).pubkey();
    let party_b = keypair(2).pubkey();
    let instructions = user_instructions(&payer, &party_b);
    let message = Message::compile(&instructions, &payer).unwrap();
    let read = message.decompile().unwrap();
    assert_eq!(read.len(), 2);
    assert_eq!(read[0].program_id, program());
    assert_eq!(read[0].data, vec![1, 2, 3]);
    assert_eq!(read[0].accounts[0].pubkey, party_b);
    assert!(read[0].accounts[0].is_signer);
    assert!(!read[0].accounts[0].is_writable);
    assert_eq!(read[0].accounts[1], instructions[0].accounts[1]);
    assert_eq!(read[1], instructions[1]);

    let ledger: Vec<_> = instructions.iter().map(ledger_instruction).collect();
    let sanitized = solana_sdk::message::SanitizedMessage::try_from(
        solana_sdk::message::Message::new(&ledger, Some(&ledger_key(&payer))),
    )
    .unwrap();
    for (ours, theirs) in read.iter().zip(sanitized.decompile_instructions()) {
        assert_eq!(ours.program_id.bytes, theirs.program_id.to_bytes());
        assert_eq!(ours.data, theirs.data);
        for (a, b) in ours.accounts.iter().zip(theirs.accounts.iter()) {
            assert_eq!(a.pubkey.bytes, b.pubkey.to_bytes());
            assert_eq!(a.is_signer, b.is_signer);
            assert_eq!(a.is_writable, b.is_writable);
        }
    }
}

#[test]
fn a_message_that_names_an_unlisted_account_is_not_read() {
    let payer = keypair(1).pubkey();
    let mut message = Message::compile(&user_instructions(&payer, &key(2)), &payer).unwrap();
    message.instructions[0].accounts[0] = 200;
    assert_eq!(message.decompile(), Err(TransactionError::InvalidMessage));
    let mut message = Message::compile(&user_instructions(&payer, &key(2)), &payer).unwrap();
    message.header.num_required_signatures = 0;
    assert_eq!(message.decompile(), Err(TransactionError::InvalidMessage));
}

#[test]
fn signing_is_the_ledgers() {
    let payer = keypair(1);
    let party_b = keypair(2);
    let instructions = user_instructions(&payer.pubkey(), &party_b.pubkey());
    let ledger: Vec<_> = instructions.iter().map(ledger_instruction).collect();
    let mut expected =
        solana_sdk::transaction::Transaction::new_with_payer(&ledger, Some(&ledger_key(&payer.pubkey())));
    let mut tx = user_transaction(&payer.pubkey(), &party_b.pubkey());
    assert_eq!(tx, from_ledger_transaction(&expected));

    let hash = solana_sdk::hash::Hash::new_from_array(NONCE_HASH.bytes);
    expected.try_partial_sign(&[&ledger_keypair(&party_b)], hash).unwrap();
    assert_eq!(tx.try_partial_sign(&party_b, &NONCE_HASH), Ok(()));
    assert_eq!(tx, from_ledger_transaction(&expected));
    assert!(tx.signatures[0].is_empty());
    assert!(!tx.signatures[1].is_empty());
    assert!(!tx.is_signed());

    expected.try_partial_sign(&[&ledger_keypair(&payer)], hash).unwrap();
    assert_eq!(tx.try_partial_sign(&payer, &NONCE_HASH), Ok(()));
    assert_eq!(tx, from_ledger_transaction(&expected));
    assert!(tx.is_signed());
    assert!(expected.verify().is_ok());

    let other = solana_sdk::hash::Hash::new_from_array([8; 32]);
    expected.try_partial_sign(&[&ledger_keypair(&party_b)], other).unwrap();
    assert_eq!(tx.try_partial_sign(&party_b, &Blockhash { bytes: [8; 32] }), Ok(()));
    assert_eq!(tx, from_ledger_transaction(&expected));
    assert!(tx.signatures[0].is_empty());
    assert_eq!(tx.message.recent_blockhash, Blockhash { bytes: [8; 32] });
}

#[test]
fn signing_is_refused() {
    let payer = keypair(1);
    let party_b = keypair(2);
    let stranger = keypair(3);
    let fresh = user_transaction(&payer.pubkey(), &party_b.pubkey());

    let mut tx = fresh.clone();
    assert_eq!(
        tx.try_partial_sign(&stranger, &NONCE_HASH),
        Err(TransactionError::KeypairPubkeyMismatch)
    );
    assert_eq!(tx, fresh);

    let mut tx = fresh.clone();
    tx.message.header.num_required_signatures = 200;
    assert_eq!(
        tx.try_partial_sign(&payer, &NONCE_HASH),
        Err(TransactionError::InvalidAccountIndex)
    );

    let mut tx = fresh.clone();
    tx.signatures.pop();
    assert_eq!(
        tx.try_partial_sign(&party_b, &NONCE_HASH),
        Err(TransactionError::MalformedTransaction)
    );
    assert_eq!(tx.try_partial_sign(&payer, &NONCE_HASH), Ok(()));

    let mut tx = fresh.clone();
    tx.message.instructions[0].data = vec![0; 65536];
    assert!(!tx.message.fits_layout());
    assert_eq!(
        tx.try_partial_sign(&payer, &NONCE_HASH),
        Err(TransactionError::MalformedTransaction)
    );

    let mut broken = payer;
    broken.bytes[32..].copy_from_slice(&[2u8; 32]);
    let mut tx = fresh.clone();
    tx.message.account_keys[0] = broken.pubkey();
    let before = tx.clone();
    if solana_sdk::signature::Keypair::from_bytes(&broken.bytes).is_err() {
        assert_eq!(
            tx.try_partial_sign(&broken, &NONCE_HASH),
            Err(TransactionError::InvalidKeypair)
        );
        assert_eq!(tx, before);
    }
}

#[test]
fn signature_slot_of_a_signer() {
    let payer = keypair(1);
    let party_b = keypair(2);
    let tx = user_transaction(&payer.pubkey(), &party_b.pubkey());
    assert_eq!(tx.signer_position(&payer.pubkey()), Some(0));
    assert_eq!(tx.signer_position(&party_b.pubkey()), Some(1));
    assert_eq!(tx.signer_position(&key(50)), None);
    assert_eq!(tx.signer_position(&program()), None);
}

#[test]
fn setup_transaction_creates_the_nonce_record() {
    let payer = keypair(1);
    let nonce = keypair(4);
    let blockhash = Blockhash { bytes: [3; 32] };
    let tx = StartTransaction::nonce_setup(&payer, &nonce, 1_447_680, &blockhash).unwrap();
    assert!(tx.is_signed());
    assert_eq!(tx.signatures.len(), 2);

    let instructions = solana_sdk::system_instruction::create_nonce_account(
        &ledger_key(&payer.pubkey()),
        &ledger_key(&nonce.pubkey()),
        &ledger_key(&payer.pubkey()),
        1_447_680,
    );
    let mut expected = solana_sdk::transaction::Transaction::new_with_payer(
        &instructions,
        Some(&ledger_key(&payer.pubkey())),
    );
    expected
        .try_sign(
            &[&ledger_keypair(&nonce), &ledger_keypair(&payer)],
            solana_sdk::hash::Hash::new_from_array(blockhash.bytes),
        )
        .unwrap();
    assert_eq!(tx, from_ledger_transaction(&expected));
    assert!(expected.verify().is_ok());

    let read = tx.message.decompile().unwrap();
    assert_eq!(read.len(), 2);
    let mut create = vec![0, 0, 0, 0];
    create.extend_from_slice(&1_447_680u64.to_le_bytes());
    create.extend_from_slice(&80u64.to_le_bytes());
    create.extend_from_slice(&[0u8; 32]);
    assert_eq!(read[0].data, create);
    assert_eq!(read[0].accounts[0].pubkey, payer.pubkey());
    assert_eq!(read[0].accounts[1].pubkey, nonce.pubkey());
    let mut initialize = vec![6, 0, 0, 0];
    initialize.extend_from_slice(&payer.pubkey().bytes);
    assert_eq!(read[1].data, initialize);
    assert_eq!(solana_sdk::nonce::State::size(), 80);
}

#[test]
fn start_wraps_the_users_instructions() {
    let payer = keypair(1);
    let party_b = keypair(2);
    let nonce = keypair(4).pubkey();
    let user = user_transaction(&payer.pubkey(), &party_b.pubkey());
    let tx = start().exec(&user, &payer, &nonce, 1_447_680, &NONCE_HASH).unwrap();

    assert_eq!(tx.message.recent_blockhash, NONCE_HASH);
    assert_eq!(tx.signatures.len(), 2);
    assert_eq!(signed_slots(&tx), 1);
    assert!(!tx.signatures[0].is_empty());

    let read = tx.message.decompile().unwrap();
    assert_eq!(read.len(), 4);
    assert_eq!(read[0].program_id, Pubkey::empty());
    assert_eq!(read[0].data, vec![4, 0, 0, 0]);
    assert_eq!(read[0].accounts[0].pubkey, nonce);
    assert!(read[0].accounts[0].is_writable);
    assert!(!read[0].accounts[0].is_signer);
    assert_eq!(read[0].accounts.len(), 3);
    assert_eq!(
        read[0].accounts[1].pubkey.bytes,
        solana_sdk::sysvar::recent_blockhashes::id().to_bytes()
    );
    assert!(!read[0].accounts[1].is_writable);
    assert_eq!(read[0].accounts[2].pubkey, payer.pubkey());
    assert!(read[0].accounts[2].is_signer);
    let user_read = user.message.decompile().unwrap();
    assert_eq!(read[1].program_id, user_read[0].program_id);
    assert_eq!(read[1].data, vec![1, 2, 3]);
    assert_eq!(read[2].program_id, user_read[1].program_id);
    assert_eq!(read[3].program_id, Pubkey::empty());
    let mut withdraw = vec![5, 0, 0, 0];
    withdraw.extend_from_slice(&1_447_680u64.to_le_bytes());
    assert_eq!(read[3].data, withdraw);
    assert_eq!(read[3].accounts.len(), 5);
    assert_eq!(read[3].accounts[0].pubkey, nonce);
    assert_eq!(read[3].accounts[1].pubkey, payer.pubkey());
    assert_eq!(
        read[3].accounts[2].pubkey.bytes,
        solana_sdk::sysvar::recent_blockhashes::id().to_bytes()
    );
    assert_eq!(read[3].accounts[3].pubkey.bytes, solana_sdk::sysvar::rent::id().to_bytes());
    assert_eq!(read[3].accounts[4].pubkey, payer.pubkey());
    assert!(read[3].accounts[4].is_signer);

    let mut list: Vec<_> = user_read.iter().map(ledger_instruction).collect();
    list.push(solana_sdk::system_instruction::withdraw_nonce_account(
        &ledger_key(&nonce),
        &ledger_key(&payer.pubkey()),
        &ledger_key(&payer.pubkey()),
        1_447_680,
    ));
    let message = solana_sdk::message::Message::new_with_nonce(
        list,
        Some(&ledger_key(&payer.pubkey())),
        &ledger_key(&nonce),
        &ledger_key(&payer.pubkey()),
    );
    let mut expected = solana_sdk::transaction::Transaction::new_unsigned(message);
    expected
        .try_partial_sign(
            &[&ledger_keypair(&payer)],
            solana_sdk::hash::Hash::new_from_array(NONCE_HASH.bytes),
        )
        .unwrap();
    assert_eq!(tx, from_ledger_transaction(&expected));
    assert!(solana_sdk::transaction::uses_durable_nonce(&expected).is_some());
}

#[test]
fn start_refuses_a_message_it_cannot_read() {
    let payer = keypair(1);
    let mut user = user_transaction(&payer.pubkey(), &key(2));
    user.message.instructions[1].program_id_index = 99;
    assert_eq!(
        start().exec(&user, &payer, &key(9), 1, &NONCE_HASH),
        Err(TransactionError::InvalidMessage)
    );
}

#[test]
fn multi_party_flow() {
    let payer = keypair(1);
    let party_b = keypair(2);
    let nonce = keypair(4).pubkey();
    let user = user_transaction(&payer.pubkey(), &party_b.pubkey());
    assert_eq!(user.message.instructions.len(), 2);

    let started = start().exec(&user, &payer, &nonce, 1_447_680, &NONCE_HASH).unwrap();
    assert_eq!(signed_slots(&started), 1);

    let exec = ExecTransaction { transaction_path: "/tmp/tx.json-raise-multisig-tx-signed".to_string() };
    assert_eq!(exec.exec(&started, &NONCE_HASH), Err(TransactionError::NotEnoughSigners));

    let sign = SignTransaction { transaction_path: "/tmp/tx.json-raise-multisig-tx".to_string() };
    let signed = sign.exec(started.clone(), &party_b).unwrap();
    assert_eq!(signed_slots(&signed), 2);
    assert_eq!(signed.message, started.message);
    assert_eq!(signed.signatures[0], started.signatures[0]);

    assert_eq!(sign.exec(signed.clone(), &party_b), Ok(signed.clone()));
    assert_eq!(sign.exec(signed.clone(), &payer), Ok(signed.clone()));
    assert_eq!(
        sign.exec(signed.clone(), &keypair(3)),
        Err(TransactionError::KeypairPubkeyMismatch)
    );

    assert_eq!(exec.exec(&signed, &NONCE_HASH), Ok(()));
    let advanced = Blockhash { bytes: [8; 32] };
    assert_eq!(exec.exec(&signed, &advanced), Err(TransactionError::StaleAuthorization));
    assert_eq!(exec.exec(&started, &advanced), Err(TransactionError::NotEnoughSigners));

    let mut short = signed.clone();
    short.signatures.pop();
    assert_eq!(exec.exec(&short, &NONCE_HASH), Err(TransactionError::NotEnoughSigners));
}

#[test]
fn signing_in_either_order_gives_the_same_transaction() {
    let payer = keypair(1);
    let party_b = keypair(2);
    let user = user_transaction(&payer.pubkey(), &party_b.pubkey());
    let sign = SignTransaction { transaction_path: "p".to_string() };
    let mut unsigned = user.clone();
    unsigned.message.recent_blockhash = NONCE_HASH;
    let a = sign.exec(sign.exec(unsigned.clone(), &payer).unwrap(), &party_b).unwrap();
    let b = sign.exec(sign.exec(unsigned, &party_b).unwrap(), &payer).unwrap();
    assert_eq!(a, b);
    assert!(a.is_signed());
}

#[test]
fn artifact_paths() {
    assert_eq!(start().artifact_path(), "/tmp/tx.json-raise-multisig-tx");
    let sign = SignTransaction { transaction_path: "/tmp/tx.json-raise-multisig-tx".to_string() };
    assert_eq!(sign.artifact_path(), "/tmp/tx.json-raise-multisig-tx-signed");
    let empty = StartTransaction {
        instance_name: String::new(),
        transaction_name: String::new(),
        transaction_path: String::new(),
    };
    assert_eq!(empty.artifact_path(), "--multisig-tx");
}

#[test]
fn cancel_withdraws_the_nonce_to_the_payer() {
    let payer = keypair(1);
    let party_b = keypair(2);
    let nonce = keypair(4).pubkey();
    let user = user_transaction(&payer.pubkey(), &party_b.pubkey());
    let started = start().exec(&user, &payer, &nonce, 1_447_680, &NONCE_HASH).unwrap();
    assert_eq!(find_nonce_account(&started.message), Some(nonce));

    let cancel = CancelTransaction { transaction_path: "p".to_string() };
    let blockhash = Blockhash { bytes: [5; 32] };
    let tx = cancel.exec(&started, &payer, 1_447_680, &blockhash).unwrap();
    assert!(tx.is_signed());
    assert_eq!(tx.signatures.len(), 1);
    assert_eq!(tx.message.recent_blockhash, blockhash);

    let withdraw = solana_sdk::system_instruction::withdraw_nonce_account(
        &ledger_key(&nonce),
        &ledger_key(&payer.pubkey()),
        &ledger_key(&payer.pubkey()),
        1_447_680,
    );
    let mut expected =
        solana_sdk::transaction::Transaction::new_with_payer(&[withdraw], Some(&ledger_key(&payer.pubkey())));
    expected
        .try_sign(&[&ledger_keypair(&payer)], solana_sdk::hash::Hash::new_from_array(blockhash.bytes))
        .unwrap();
    assert_eq!(tx, from_ledger_transaction(&expected));

    assert_eq!(find_nonce_account(&user.message), None);
    assert_eq!(
        cancel.exec(&user, &payer, 1, &blockhash),
        Err(TransactionError::NotNonceTransaction)
    );
    assert_eq!(
        cancel.exec(&started, &party_b, 1_447_680, &blockhash).map(|tx| tx.message.account_keys[0]),
        Ok(party_b.pubkey())
    );
}

#[test]
fn nonce_account_of_a_message() {
    let payer = keypair(1).pubkey();
    let nonce = key(9);
    let message = Message::compile_with_nonce(&vec![], &payer, &nonce, &payer).unwrap();
    assert_eq!(find_nonce_account(&message), Some(nonce));
    let mut other = message.clone();
    other.instructions[0].data = vec![5, 0, 0, 0];
    assert_eq!(find_nonce_account(&other), None);
    let mut other = message.clone();
    other.instructions[0].data = vec![4, 0, 0];
    assert_eq!(find_nonce_account(&other), None);
    let mut other = message.clone();
    other.instructions[0].accounts.clear();
    assert_eq!(find_nonce_account(&other), None);
    let mut other = message.clone();
    other.instructions[0].accounts[0] = 77;
    assert_eq!(find_nonce_account(&other), None);
    let mut other = message.clone();
    other.instructions[0].program_id_index = 0;
    assert_eq!(find_nonce_account(&other), None);
    let mut other = message.clone();
    other.instructions.clear();
    assert_eq!(find_nonce_account(&other), None);
}

#[test]
fn demo_transaction_changes_the_threshold_of_foo() {
    let payer = key(1);
    let demo = DemoTransaction { transaction_path: "demo.json".to_string() };
    let tx = demo.exec(&program(), &payer).unwrap();
    assert_eq!(signed_slots(&tx), 0);
    assert_eq!(tx.signatures.len(), 1);
    let read = tx.message.decompile().unwrap();
    let instruction = slq::admin::ChangeApprovalThresholdAdmin::build_instruction(
        &program(),
        &payer,
        "foo".to_string(),
        1,
    )
    .unwrap();
    assert_eq!(read.len(), 1);
    assert_eq!(read[0].data, instruction.data);
    assert_eq!(read[0].program_id, program());
    assert_eq!(read[0].accounts, instruction.accounts);
    let expected = solana_sdk::transaction::Transaction::new_with_payer(
        &[ledger_instruction(&instruction)],
        Some(&ledger_key(&payer)),
    );
    assert_eq!(tx, from_ledger_transaction(&expected));
    assert_eq!(from_ledger_instruction(&ledger_instruction(&instruction)), instruction);
}

#[test]
fn slots_and_positions_are_the_ledgers() {
    let payer = keypair(1);
    let party_b = keypair(2);
    let instructions = user_instructions(&payer.pubkey(), &party_b.pubkey());
    let ledger: Vec<_> = instructions.iter().map(ledger_instruction).collect();
    let message = solana_sdk::message::Message::new(&ledger, Some(&ledger_key(&payer.pubkey())));
    let mut expected = solana_sdk::transaction::Transaction::new_unsigned(message);
    let mut tx = Transaction::new_unsigned(Message::compile(&instructions, &payer.pubkey()).unwrap());
    assert_eq!(tx, from_ledger_transaction(&expected));
    assert_eq!(tx.is_signed(), expected.is_signed());

    for key in [payer.pubkey(), party_b.pubkey(), key(50), key(51), program()] {
        let theirs = expected.get_signing_keypair_positions(&[ledger_key(&key)]).unwrap();
        assert_eq!(tx.signer_position(&key), theirs[0]);
    }

    let token = solana_sdk::hash::Hash::new_from_array(NONCE_HASH.bytes);
    for signer in [&party_b, &payer] {
        expected.try_partial_sign(&[&ledger_keypair(signer)], token).unwrap();
        tx.try_partial_sign(signer, &NONCE_HASH).unwrap();
        assert_eq!(tx, from_ledger_transaction(&expected));
        assert_eq!(tx.is_signed(), expected.is_signed());
    }
    assert!(tx.is_signed());
    for (i, signature) in expected.signatures.iter().enumerate() {
        assert!(signature.verify(
            expected.message.account_keys[i].as_ref(),
            &expected.message.serialize()
        ));
        assert_eq!(tx.signatures[i].bytes[..], *signature.as_ref());
    }

    let no_signer = Transaction::new_unsigned(Message {
        header: MessageHeader {
            num_required_signatures: 0,
            num_readonly_signed_accounts: 0,
            num_readonly_unsigned_accounts: 0,
        },
        account_keys: vec![],
        recent_blockhash: Blockhash::unset(),
        instructions: vec![],
    });
    assert!(no_signer.signatures.is_empty());
    assert!(no_signer.is_signed());
    assert!(solana_sdk::transaction::Transaction::default().is_signed());
}

#[test]
fn start_then_sign_counts_signatures() {
    let payer = keypair(1);
    let party_b = keypair(2);
    let nonce = keypair(4).pubkey();
    let user = user_transaction(&payer.pubkey(), &party_b.pubkey());
    let started = start().exec(&user, &payer, &nonce, 1_447_680, &NONCE_HASH).unwrap();
    let payer_slot = started.signer_position(&payer.pubkey()).unwrap();
    let b_slot = started.signer_position(&party_b.pubkey()).unwrap();
    assert_eq!(signed_slots(&started), 1);
    assert!(!started.signatures[payer_slot].is_empty());
    assert!(started.signatures[b_slot].is_empty());

    let sign = SignTransaction { transaction_path: "p".to_string() };
    let signed = sign.exec(started.clone(), &party_b).unwrap();
    assert_eq!(signed_slots(&signed), 2);
    assert_eq!(signed.signatures[payer_slot], started.signatures[payer_slot]);
    assert!(!signed.signatures[b_slot].is_empty());

    let ledger_message = solana_sdk::message::Message::new_with_compiled_instructions(
        signed.message.header.num_required_signatures,
        signed.message.header.num_readonly_signed_accounts,
        signed.message.header.num_readonly_unsigned_accounts,
        signed.message.account_keys.iter().map(ledger_key).collect(),
        solana_sdk::hash::Hash::new_from_array(signed.message.recent_blockhash.bytes),
        signed
            .message
            .instructions
            .iter()
            .map(|c| {
                solana_sdk::instruction::CompiledInstruction::new_from_raw_parts(
                    c.program_id_index,
                    c.data.clone(),
                    c.accounts.clone(),
                )
            })
            .collect(),
    );
    let data = ledger_message.serialize();
    for slot in [payer_slot, b_slot] {
        let signature = solana_sdk::signature::Signature::new(&signed.signatures[slot].bytes);
        assert!(signature.verify(&signed.message.account_keys[slot].bytes, &data));
    }

    let exec = ExecTransaction { transaction_path: "p".to_string() };
    for slot in [payer_slot, b_slot] {
        let mut lacking = signed.clone();
        lacking.signatures[slot] = Signature::empty();
        assert_eq!(exec.exec(&lacking, &NONCE_HASH), Err(TransactionError::NotEnoughSigners));
        assert_eq!(
            exec.exec(&lacking, &Blockhash { bytes: [8; 32] }),
            Err(TransactionError::NotEnoughSigners)
        );
    }
}
