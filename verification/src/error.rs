//! Why an operation is refused before anything is sent to the ledger.

use crate::pubkey::Pubkey;
use crate::text::{decimal, key_text, put_decimal, text_of_pubkey};
use vstd::prelude::*;
use vstd::string::StringExecFns;

verus! {

/// A rule of the M-of-N governance that an operation would break.
#[derive(Clone, Copy, Debug, PartialEq, Eq)]
pub enum ValidationError {
    /// The approval threshold is zero.
    ThresholdZero,
    /// The list of identities is empty.
    NoAccounts,
    /// The list of identities is longer than the record has slots.
    TooManyAccounts { capacity: usize },
    /// One of the identities is the empty identity, which marks an unused
    /// slot and stands for nobody.
    EmptyAccount,
    /// The approval threshold is greater than the number of identities given.
    ThresholdAboveAccounts,
    /// An identity is listed twice.
    DuplicateAccounts,
    /// The new threshold is greater than the number of administrators.
    ThresholdAboveAdministrators { administrators: usize },
    /// The new threshold is the record's threshold already.
    ThresholdUnchanged { approval_threshold: u8 },
    /// Every slot of the record is taken.
    AdminAccountsFull { capacity: usize },
    /// The identity is an administrator already.
    AccountExists { account: Pubkey },
    /// The identity is no administrator.
    AccountMissing { account: Pubkey },
    /// The identity is the last administrator.
    LastAdminAccount,
    /// Every administrator is needed for the threshold: lower it first.
    ThresholdEqualsAccounts,
}

/// Why no instruction is built.
#[derive(Clone, Copy, Debug, PartialEq, Eq)]
pub enum Error {
    /// The operation would break a governance rule.
    Validation(ValidationError),
    /// No address can be derived for the name: it is longer than a seed may be,
    /// or the search found no bump.
    NoProgramAddress,
    /// The text is no identity key.
    InvalidAccountKey,
    /// The instance's account holds no record.
    InvalidInstanceData,
}

impl ValidationError {
    /// The reason in words, naming the rule that is broken.
    pub open spec fn spec_message(self) -> Seq<char> {
        match self {
            ValidationError::ThresholdZero => "approval threshold must be greater than 0"@,
            ValidationError::NoAccounts => "must have greater than 0 accounts"@,
            ValidationError::TooManyAccounts { capacity } => {
                "number of accounts must be not be greater than "@ + decimal(capacity as nat)
            },
            ValidationError::EmptyAccount => "must not have the empty account among the accounts"@,
            ValidationError::ThresholdAboveAccounts => {
                "approval threshold must not be greater than number of accounts"@
            },
            ValidationError::DuplicateAccounts => "must not have duplicate accounts"@,
            ValidationError::ThresholdAboveAdministrators { administrators } => {
                "approval threshold must be less than or equal to "@ + decimal(
                    administrators as nat,
                ) + ", the number of administrators"@
            },
            ValidationError::ThresholdUnchanged { approval_threshold } => {
                "approval threshold is "@ + decimal(approval_threshold as nat) + " already"@
            },
            ValidationError::AdminAccountsFull { capacity } => {
                "there are already "@ + decimal(capacity as nat)
                    + " admin accounts, remove one to add a new account"@
            },
            ValidationError::AccountExists { account } => {
                "account "@ + text_of_pubkey(account@) + " already exists"@
            },
            ValidationError::AccountMissing { account } => {
                "account "@ + text_of_pubkey(account@) + " isn't in the admin list"@
            },
            ValidationError::LastAdminAccount => {
                "must have at least 1 admin account, add a new admin account before remove the current one"@
            },
            ValidationError::ThresholdEqualsAccounts => {
                "approval threshold is the same as the number of admin accounts, change the approval threshold before remove an account"@
            },
        }
    }

    /// The reason in words, naming the rule that is broken.
    pub fn message(&self) -> (text: String)
        ensures
            text@ == self.spec_message(),
    {
        match self {
            ValidationError::ThresholdZero => String::from_str(
                "approval threshold must be greater than 0",
            ),
            ValidationError::NoAccounts => String::from_str("must have greater than 0 accounts"),
            ValidationError::TooManyAccounts { capacity } => {
                let mut text = String::from_str("number of accounts must be not be greater than ");
                put_decimal(&mut text, *capacity);
                text
            },
            ValidationError::EmptyAccount => String::from_str(
                "must not have the empty account among the accounts",
            ),
            ValidationError::ThresholdAboveAccounts => String::from_str(
                "approval threshold must not be greater than number of accounts",
            ),
            ValidationError::DuplicateAccounts => String::from_str(
                "must not have duplicate accounts",
            ),
            ValidationError::ThresholdAboveAdministrators { administrators } => {
                let mut text = String::from_str(
                    "approval threshold must be less than or equal to ",
                );
                put_decimal(&mut text, *administrators);
                text.append(", the number of administrators");
                text
            },
            ValidationError::ThresholdUnchanged { approval_threshold } => {
                let mut text = String::from_str("approval threshold is ");
                put_decimal(&mut text, *approval_threshold as usize);
                text.append(" already");
                text
            },
            ValidationError::AdminAccountsFull { capacity } => {
                let mut text = String::from_str("there are already ");
                put_decimal(&mut text, *capacity);
                text.append(" admin accounts, remove one to add a new account");
                text
            },
            ValidationError::AccountExists { account } => {
                let mut text = String::from_str("account ");
                text.append(key_text(account).as_str());
                text.append(" already exists");
                text
            },
            ValidationError::AccountMissing { account } => {
                let mut text = String::from_str("account ");
                text.append(key_text(account).as_str());
                text.append(" isn't in the admin list");
                text
            },
            ValidationError::LastAdminAccount => String::from_str(
                "must have at least 1 admin account, add a new admin account before remove the current one",
            ),
            ValidationError::ThresholdEqualsAccounts => String::from_str(
                "approval threshold is the same as the number of admin accounts, change the approval threshold before remove an account",
            ),
        }
    }
}

impl Error {
    /// The reason in words.
    pub open spec fn spec_message(self) -> Seq<char> {
        match self {
            Error::Validation(rule) => rule.spec_message(),
            Error::NoProgramAddress => "no program address can be derived for the name"@,
            Error::InvalidAccountKey => "the text is no account key"@,
            Error::InvalidInstanceData => "the instance account holds no record"@,
        }
    }

    /// The reason in words.
    pub fn message(&self) -> (text: String)
        ensures
            text@ == self.spec_message(),
    {
        match self {
            Error::Validation(rule) => rule.message(),
            Error::NoProgramAddress => String::from_str(
                "no program address can be derived for the name",
            ),
            Error::InvalidAccountKey => String::from_str("the text is no account key"),
            Error::InvalidInstanceData => String::from_str("the instance account holds no record"),
        }
    }
}

} // verus!
