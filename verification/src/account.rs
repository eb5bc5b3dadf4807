//! What the program sees of the ledger, and what it asks of it.
//!
//! The program decides; the host that runs it performs. An instruction is
//! given the accounts it names as they stand, and answers with an error or
//! with the one [`Effect`] that the host is to carry out. Since nothing is
//! changed before the answer, a refused instruction leaves no trace.

use crate::instruction::Instruction;
use crate::pubkey::Pubkey;
use crate::state::{MultisigConfigInstance, SlqInstance};
use crate::system_instruction::{
    create_account, is_create_account, is_transfer, is_withdraw_nonce, transfer,
    withdraw_nonce_account,
};
use vstd::prelude::*;
use vstd::string::StringExecFns;

verus! {

/// An account as an instruction finds it.
#[derive(Clone, Debug, PartialEq, Eq)]
pub struct AccountInfo {
    /// The account's address.
    pub key: Pubkey,
    /// Whether the transaction was signed for this account.
    pub is_signer: bool,
    /// Whether the instruction may change the account.
    pub is_writable: bool,
    /// The account's balance.
    pub lamports: u64,
    /// The account's data.
    pub data: Vec<u8>,
    /// The program that owns the account.
    pub owner: Pubkey,
    /// Whether the account holds a program.
    pub executable: bool,
}

/// Why the program refuses an instruction.
#[derive(Clone, Copy, Debug, PartialEq, Eq)]
pub enum ProgramError {
    /// The instruction data is no instruction of this program.
    InvalidInstructionData,
    /// The instruction names fewer accounts than it needs.
    NotEnoughAccountKeys,
    /// An account that is to change is not writable.
    AccountNotWritable,
    /// The paying identity has not signed.
    MissingRequiredSignature,
    /// An account is not owned by the program that has to own it, or the
    /// account given as the system program is another.
    IncorrectProgramId,
    /// The account given as the system program holds no program.
    AccountNotExecutable,
    /// The account's address is not the one derived from the claimed seeds,
    /// or the claimed bump is not the derived one.
    AddressMismatch,
    /// The address already holds a record.
    AccountAlreadyInitialized,
    /// The payer, or the vault, holds less than is asked of it.
    InsufficientFunds,
    /// The account's data is not a record.
    InvalidAccountData,
    /// The record has no free slot for one more identity.
    AccountDataTooSmall,
}

/// The least balances that keep each kind of account alive, as the ledger
/// reports them.
#[derive(Clone, Copy, Debug, PartialEq, Eq)]
pub struct RentMinimums {
    /// For an instance record.
    pub instance: u64,
    /// For an owner record.
    pub multisig: u64,
    /// For a nonce record.
    pub nonce: u64,
}

/// The allocation of a new account.
#[derive(Clone, Copy, Debug, PartialEq, Eq)]
pub struct CreateAccount {
    /// Who pays.
    pub from: Pubkey,
    /// The new account's address.
    pub to: Pubkey,
    /// The new account's balance.
    pub lamports: u64,
    /// The number of data bytes of the new account.
    pub space: u64,
    /// The program that is to own the new account.
    pub owner: Pubkey,
}

/// What the host is to carry out for an accepted instruction.
#[derive(Clone, Copy, Debug, PartialEq, Eq)]
pub enum Effect {
    /// Allocate the instance's account, signing for its derived address, and
    /// store the record in it.
    CreateInstance { create: CreateAccount, instance: SlqInstance },
    /// Allocate the owner record's account, signing for its derived address,
    /// and store the record in it.
    CreateMultisig { create: CreateAccount, multisig: MultisigConfigInstance },
    /// Store the record in the instance's account.
    StoreInstance { instance: SlqInstance },
    /// Allocate the vault's account, signing for its derived address.
    CreateVault { create: CreateAccount },
    /// Move `lamports` from one account to the other, signing for the vault's
    /// derived address.
    Transfer { from: Pubkey, to: Pubkey, lamports: u64 },
    /// Empty the nonce record into `to`.
    WithdrawNonce { nonce: Pubkey, authority: Pubkey, to: Pubkey, lamports: u64 },
}

impl CreateAccount {
    /// The instruction for the system program that allocates the account.
    pub fn instruction(&self) -> (instruction: Instruction)
        ensures
            is_create_account(
                instruction@,
                self.from,
                self.to,
                self.lamports,
                self.space,
                self.owner,
            ),
    {
        create_account(&self.from, &self.to, self.lamports, self.space, &self.owner)
    }
}

impl Effect {
    /// Whether `instruction` is what the host is to invoke for the effect:
    /// the instruction for the system program that allocates, moves or
    /// withdraws as the effect says; none where a record is only stored.
    pub open spec fn invokes(self, instruction: Option<Instruction>) -> bool {
        match self {
            Effect::CreateInstance { create, .. } => instruction matches Some(i)
                && is_create_account(
                i@,
                create.from,
                create.to,
                create.lamports,
                create.space,
                create.owner,
            ),
            Effect::CreateMultisig { create, .. } => instruction matches Some(i)
                && is_create_account(
                i@,
                create.from,
                create.to,
                create.lamports,
                create.space,
                create.owner,
            ),
            Effect::CreateVault { create } => instruction matches Some(i) && is_create_account(
                i@,
                create.from,
                create.to,
                create.lamports,
                create.space,
                create.owner,
            ),
            Effect::StoreInstance { .. } => instruction is None,
            Effect::Transfer { from, to, lamports } => instruction matches Some(i) && is_transfer(
                i@,
                from,
                to,
                lamports,
            ),
            Effect::WithdrawNonce { nonce, authority, to, lamports } => instruction matches Some(i)
                && is_withdraw_nonce(i@, nonce, authority, to, lamports),
        }
    }

    /// The instruction for the system program that the host is to invoke.
    pub fn instruction(&self) -> (instruction: Option<Instruction>)
        ensures
            self.invokes(instruction),
    {
        match self {
            Effect::CreateInstance { create, .. } => Some(create.instruction()),
            Effect::CreateMultisig { create, .. } => Some(create.instruction()),
            Effect::CreateVault { create } => Some(create.instruction()),
            Effect::StoreInstance { .. } => None,
            Effect::Transfer { from, to, lamports } => Some(transfer(from, to, *lamports)),
            Effect::WithdrawNonce { nonce, authority, to, lamports } => Some(
                withdraw_nonce_account(nonce, authority, to, *lamports),
            ),
        }
    }

    /// The record that the host is to store, in storage layout, where the
    /// effect stores one.
    pub fn record_data(&self) -> (data: Option<Vec<u8>>)
        ensures
            match self {
                Effect::CreateInstance { instance, .. } => data matches Some(bytes) && bytes@
                    == instance.wire(),
                Effect::StoreInstance { instance } => data matches Some(bytes) && bytes@
                    == instance.wire(),
                Effect::CreateMultisig { multisig, .. } => data matches Some(bytes) && bytes@
                    == multisig.wire(),
                _ => data is None,
            },
    {
        match self {
            Effect::CreateInstance { instance, .. } => Some(instance.try_to_vec()),
            Effect::StoreInstance { instance } => Some(instance.try_to_vec()),
            Effect::CreateMultisig { multisig, .. } => Some(multisig.try_to_vec()),
            _ => None,
        }
    }
}

impl ProgramError {
    /// The reason in words.
    pub open spec fn spec_message(self) -> Seq<char> {
        match self {
            ProgramError::InvalidInstructionData => "the data is no instruction of the program"@,
            ProgramError::NotEnoughAccountKeys => "the instruction names too few accounts"@,
            ProgramError::AccountNotWritable => "an account that is to change is not writable"@,
            ProgramError::MissingRequiredSignature => "the payer has not signed"@,
            ProgramError::IncorrectProgramId => "an account is owned by an unexpected program"@,
            ProgramError::AccountNotExecutable => "the system program account holds no program"@,
            ProgramError::AddressMismatch => "the address is not the one derived from the seeds"@,
            ProgramError::AccountAlreadyInitialized => "the address has already been initialized"@,
            ProgramError::InsufficientFunds => "the balance is less than is asked for"@,
            ProgramError::InvalidAccountData => "the account holds no record"@,
            ProgramError::AccountDataTooSmall => "the record has no free slot"@,
        }
    }

    /// The reason in words.
    pub fn message(&self) -> (text: String)
        ensures
            text@ == self.spec_message(),
    {
        match self {
            ProgramError::InvalidInstructionData => String::from_str(
                "the data is no instruction of the program",
            ),
            ProgramError::NotEnoughAccountKeys => String::from_str(
                "the instruction names too few accounts",
            ),
            ProgramError::AccountNotWritable => String::from_str(
                "an account that is to change is not writable",
            ),
            ProgramError::MissingRequiredSignature => String::from_str("the payer has not signed"),
            ProgramError::IncorrectProgramId => String::from_str(
                "an account is owned by an unexpected program",
            ),
            ProgramError::AccountNotExecutable => String::from_str(
                "the system program account holds no program",
            ),
            ProgramError::AddressMismatch => String::from_str(
                "the address is not the one derived from the seeds",
            ),
            ProgramError::AccountAlreadyInitialized => String::from_str(
                "the address has already been initialized",
            ),
            ProgramError::InsufficientFunds => String::from_str(
                "the balance is less than is asked for",
            ),
            ProgramError::InvalidAccountData => String::from_str("the account holds no record"),
            ProgramError::AccountDataTooSmall => String::from_str("the record has no free slot"),
        }
    }
}

} // verus!
