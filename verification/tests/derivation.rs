use slq::account::ProgramError;
use slq::pubkey::Pubkey;

fn key(first: u8) -> Pubkey {
    let mut bytes = [0u8; 32];
    bytes[0] = first;
    bytes[31] = 7;
    Pubkey { bytes }
}

fn ledger(key: &Pubkey) -> solana_program::pubkey::Pubkey {
    solana_program::pubkey::Pubkey::new_from_array(key.bytes)
}

#[test]
fn instance_address_is_the_ledgers() {
    let program = key(9);
    let (expected, expected_bump) = solana_program::pubkey::Pubkey::find_program_address(
        &[b"instance", b"treasury"],
        &ledger(&program),
    );
    let (address, bump) = slq::init::make_instance_pda(&program, "treasury").unwrap();
    assert_eq!(address.bytes, expected.to_bytes());
    assert_eq!(bump, expected_bump);
    assert_ne!(address, program);
}

#[test]
fn multisig_address_is_the_ledgers() {
    let program = key(9);
    let (expected, expected_bump) = solana_program::pubkey::Pubkey::find_program_address(
        &[b"multisig-instance", b"treasury"],
        &ledger(&program),
    );
    let (address, bump) = slq::multisig::make_instance_pda(&program, "treasury").unwrap();
    assert_eq!(address.bytes, expected.to_bytes());
    assert_eq!(bump, expected_bump);
}

#[test]
fn vault_address_is_the_ledgers() {
    let program = key(9);
    let payer = key(3);
    let (expected, expected_bump) = solana_program::pubkey::Pubkey::find_program_address(
        &[b"vault", b"vault", &payer.bytes],
        &ledger(&program),
    );
    let (address, bump) = slq::vault::vault_pda(&program, &payer, "vault").unwrap();
    assert_eq!(address.bytes, expected.to_bytes());
    assert_eq!(bump, expected_bump);
}

#[test]
fn addresses_differ_by_kind_and_name() {
    let program = key(9);
    let a = slq::init::make_instance_pda(&program, "treasury").unwrap();
    let b = slq::init::make_instance_pda(&program, "treasurz").unwrap();
    let c = slq::multisig::make_instance_pda(&program, "treasury").unwrap();
    assert_ne!(a.0, b.0);
    assert_ne!(a.0, c.0);
}

#[test]
fn derive_then_verify_succeeds() {
    let program = key(1);
    for name in ["", "a", "treasury", "0123456789abcdef0123456789abcdef"] {
        let (address, bump) = slq::init::make_instance_pda(&program, name).unwrap();
        assert_eq!(slq::init::verify_pda(&program, name, &address, bump), Ok(()));
        let (address, bump) = slq::multisig::make_instance_pda(&program, name).unwrap();
        assert_eq!(slq::multisig::verify_pda(&program, name, &address, bump), Ok(()));
    }
}

#[test]
fn verify_fails_for_every_flipped_byte() {
    let program = key(1);
    let (address, bump) = slq::init::make_instance_pda(&program, "treasury").unwrap();
    for i in 0..32 {
        let mut claimed = address;
        claimed.bytes[i] ^= 1;
        assert_eq!(
            slq::init::verify_pda(&program, "treasury", &claimed, bump),
            Err(ProgramError::AddressMismatch)
        );
    }
}

#[test]
fn verify_fails_for_another_bump_or_name() {
    let program = key(1);
    let (address, bump) = slq::init::make_instance_pda(&program, "treasury").unwrap();
    assert_eq!(
        slq::init::verify_pda(&program, "treasury", &address, bump.wrapping_sub(1)),
        Err(ProgramError::AddressMismatch)
    );
    assert_eq!(
        slq::init::verify_pda(&program, "other", &address, bump),
        Err(ProgramError::AddressMismatch)
    );
    assert_eq!(
        slq::multisig::verify_pda(&program, "treasury", &address, bump),
        Err(ProgramError::AddressMismatch)
    );
}

#[test]
fn no_address_for_a_name_longer_than_a_seed() {
    let program = key(1);
    let name = "0123456789abcdef0123456789abcdefX";
    assert_eq!(name.len(), 33);
    assert_eq!(slq::init::make_instance_pda(&program, name), None);
    assert_eq!(slq::multisig::make_instance_pda(&program, name), None);
    assert_eq!(slq::vault::vault_pda(&program, &key(2), name), None);
    assert_eq!(
        slq::init::verify_pda(&program, name, &key(5), 255),
        Err(ProgramError::AddressMismatch)
    );
}

#[test]
fn no_address_for_sixteen_seeds() {
    let program = key(1);
    let seeds: Vec<Vec<u8>> = (0..16u8).map(|i| vec![i]).collect();
    assert_eq!(slq::pda::find_program_address(&seeds, &program), None);
    let seeds: Vec<Vec<u8>> = (0..15u8).map(|i| vec![i]).collect();
    assert!(slq::pda::find_program_address(&seeds, &program).is_some());
}

#[test]
fn signer_seeds_end_with_the_bump() {
    let seeds = slq::init::instance_seed_list("treasury");
    assert_eq!(seeds, vec![b"instance".to_vec(), b"treasury".to_vec()]);
    let signing = slq::pda::signer_seeds(seeds, 254);
    assert_eq!(signing, vec![b"instance".to_vec(), b"treasury".to_vec(), vec![254]]);
    assert_eq!(
        slq::multisig::multisig_seed_list("m"),
        vec![b"multisig-instance".to_vec(), b"m".to_vec()]
    );
    let payer = key(4);
    assert_eq!(
        slq::vault::vault_seed_list(&payer, "vault"),
        vec![b"vault".to_vec(), b"vault".to_vec(), payer.bytes.to_vec()]
    );
}

#[test]
fn key_from_base58_text() {
    let text = "SysvarRent111111111111111111111111111111111";
    let parsed = Pubkey::parse(text).unwrap();
    assert_eq!(parsed.bytes, solana_program::sysvar::rent::id().to_bytes());
    assert_eq!(Pubkey::parse("11111111111111111111111111111111"), Some(Pubkey::empty()));
    assert_eq!(Pubkey::parse("not a key"), None);
    assert_eq!(Pubkey::parse(""), None);
    assert_eq!(Pubkey::parse("SysvarRent1111111111111111111111111111111111111111"), None);
}

#[test]
fn empty_identity_is_the_system_program() {
    assert!(Pubkey::empty().is_default());
    assert_eq!(Pubkey::system_program_id(), Pubkey::empty());
    assert_eq!(Pubkey::empty().bytes, solana_program::system_program::id().to_bytes());
    assert!(!key(0).is_default());
    assert!(key(1).same(&key(1)));
    assert!(!key(1).same(&key(2)));
}

#[test]
fn the_text_of_a_key_names_the_key() {
    let mut keys = vec![Pubkey::empty(), Pubkey { bytes: [255; 32] }, key(0), key(1), key(200)];
    for i in 0..32 {
        let mut bytes = [0u8; 32];
        bytes[i] = 1 + i as u8;
        keys.push(Pubkey { bytes });
    }
    for key in keys {
        let text = slq::text::key_text(&key);
        assert!(text.len() <= 44);
        assert_eq!(Pubkey::parse(&text), Some(key));
    }
}
