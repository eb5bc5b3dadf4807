use slq::account::ProgramError;
use slq::error::{Error, ValidationError};
use slq::pubkey::Pubkey;
use slq::transaction::TransactionError;

fn key(first: u8) -> Pubkey {
    let mut bytes = [first; 32];
    bytes[31] = 1;
    Pubkey { bytes }
}

#[test]
fn reasons_name_the_rule() {
    assert_eq!(
        ValidationError::ThresholdZero.message(),
        "approval threshold must be greater than 0"
    );
    assert_eq!(ValidationError::NoAccounts.message(), "must have greater than 0 accounts");
    assert_eq!(
        ValidationError::TooManyAccounts { capacity: 6 }.message(),
        "number of accounts must be not be greater than 6"
    );
    assert_eq!(
        ValidationError::ThresholdAboveAccounts.message(),
        "approval threshold must not be greater than number of accounts"
    );
    assert_eq!(ValidationError::DuplicateAccounts.message(), "must not have duplicate accounts");
    assert_eq!(
        ValidationError::EmptyAccount.message(),
        "must not have the empty account among the accounts"
    );
    assert_eq!(
        ValidationError::ThresholdAboveAdministrators { administrators: 3 }.message(),
        "approval threshold must be less than or equal to 3, the number of administrators"
    );
    assert_eq!(
        ValidationError::ThresholdUnchanged { approval_threshold: 3 }.message(),
        "approval threshold is 3 already"
    );
    assert_eq!(
        ValidationError::ThresholdUnchanged { approval_threshold: 255 }.message(),
        "approval threshold is 255 already"
    );
    assert_eq!(
        ValidationError::AdminAccountsFull { capacity: 6 }.message(),
        "there are already 6 admin accounts, remove one to add a new account"
    );
    assert_eq!(
        ValidationError::LastAdminAccount.message(),
        "must have at least 1 admin account, add a new admin account before remove the current one"
    );
    assert_eq!(
        ValidationError::ThresholdEqualsAccounts.message(),
        "approval threshold is the same as the number of admin accounts, change the approval threshold before remove an account"
    );
}

#[test]
fn reasons_name_the_account() {
    let text = solana_program::pubkey::Pubkey::new_from_array(key(5).bytes).to_string();
    assert_eq!(slq::text::key_text(&key(5)), text);
    assert_ne!(text, "");
    assert_eq!(
        ValidationError::AccountExists { account: key(5) }.message(),
        format!("account {} already exists", text)
    );
    assert_eq!(
        ValidationError::AccountMissing { account: key(5) }.message(),
        format!("account {} isn't in the admin list", text)
    );
    assert_eq!(Pubkey::parse(&text), Some(key(5)));
}

#[test]
fn reasons_of_unbuilt_instructions() {
    assert_eq!(
        Error::Validation(ValidationError::ThresholdZero).message(),
        "approval threshold must be greater than 0"
    );
    assert_eq!(
        Error::NoProgramAddress.message(),
        "no program address can be derived for the name"
    );
    assert_eq!(Error::InvalidAccountKey.message(), "the text is no account key");
    assert_eq!(Error::InvalidInstanceData.message(), "the instance account holds no record");
}

#[test]
fn decimal_notation() {
    for n in [0usize, 1, 9, 10, 11, 99, 100, 101, 12345, 1_000_000, usize::MAX] {
        let mut text = String::from("n=");
        slq::text::put_decimal(&mut text, n);
        assert_eq!(text, format!("n={}", n));
    }
}

#[test]
fn reasons_of_the_program_and_of_transactions() {
    assert_eq!(
        ProgramError::AccountAlreadyInitialized.message(),
        "the address has already been initialized"
    );
    assert_eq!(ProgramError::InsufficientFunds.message(), "the balance is less than is asked for");
    assert_eq!(
        ProgramError::AddressMismatch.message(),
        "the address is not the one derived from the seeds"
    );
    assert_eq!(
        TransactionError::StaleAuthorization.message(),
        "the nonce has been used, start again"
    );
    assert_eq!(TransactionError::NotEnoughSigners.message(), "a required signature is missing");
    let all = [
        ProgramError::InvalidInstructionData,
        ProgramError::NotEnoughAccountKeys,
        ProgramError::AccountNotWritable,
        ProgramError::MissingRequiredSignature,
        ProgramError::IncorrectProgramId,
        ProgramError::AccountNotExecutable,
        ProgramError::AddressMismatch,
        ProgramError::AccountAlreadyInitialized,
        ProgramError::InsufficientFunds,
        ProgramError::InvalidAccountData,
        ProgramError::AccountDataTooSmall,
    ];
    for (i, a) in all.iter().enumerate() {
        for b in &all[i + 1..] {
            assert_ne!(a.message(), b.message());
        }
    }
}
