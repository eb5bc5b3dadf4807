//! Recovery of the funds of a temporary nonce record.

use crate::account::{AccountInfo, Effect, ProgramError};
use crate::codec::{get_key, put_key, tail};
use crate::error::Error;
use crate::instruction::{carries, AccountMeta, Instruction};
use crate::payload::{parse_fields, Payload, TAG_NONCE};
use crate::pubkey::Pubkey;
use vstd::prelude::*;

verus! {

/// The operations on nonce records.
#[derive(Clone, Debug, PartialEq, Eq)]
pub enum SlqNonceInstruction {
    Withdraw(WithdrawNonceAccount),
}

/// Empties the nonce record `nonce_pubkey` into the payer's account.
///
/// Accounts: the payer (writable, signer); the nonce record (writable); the
/// system program.
#[derive(Clone, Copy, Debug, PartialEq, Eq)]
pub struct WithdrawNonceAccount {
    pub nonce_pubkey: Pubkey,
}

impl WithdrawNonceAccount {
    /// The operation as a mathematical value.
    pub open spec fn payload(&self) -> Payload {
        Payload::WithdrawNonce { nonce: self.nonce_pubkey@ }
    }

    /// Writes the operation's fields.
    pub fn put(&self, out: &mut Vec<u8>)
        ensures
            final(out)@ == old(out)@ + self.payload().fields(),
    {
        put_key(out, &self.nonce_pubkey);
    }

    /// Reads the operation's fields from position `pos`.
    pub fn get(data: &[u8], pos: usize) -> (r: Option<(WithdrawNonceAccount, usize)>)
        requires
            pos <= data.len(),
        ensures
            match r {
                Some((operation, next)) => next <= data.len() && parse_fields(
                    TAG_NONCE,
                    0,
                    tail(data@, pos as int),
                ) == Some((operation.payload(), tail(data@, next as int))),
                None => parse_fields(TAG_NONCE, 0, tail(data@, pos as int)) is None,
            },
    {
        match get_key(data, pos) {
            Some((nonce_pubkey, next)) => Some((WithdrawNonceAccount { nonce_pubkey }, next)),
            None => None,
        }
    }

    /// Builds the instruction that empties the nonce record `nonce_account`
    /// into the payer's account: it names the payer, the nonce record and
    /// the system program.
    pub fn build_instruction(
        program_id: &Pubkey,
        rent_payer: &Pubkey,
        nonce_account: &Pubkey,
    ) -> (r: Result<Instruction, Error>)
        ensures
            r matches Ok(instruction) && carries(
                instruction@,
                *program_id,
                seq![
                    AccountMeta::spec_new(*rent_payer, true),
                    AccountMeta::spec_new(*nonce_account, false),
                    AccountMeta::spec_new_readonly(Pubkey::system_program(), false),
                ],
                (Payload::WithdrawNonce { nonce: nonce_account@ }).wire(),
            ),
    {
        let operation = WithdrawNonceAccount { nonce_pubkey: *nonce_account };
        let mut data: Vec<u8> = Vec::new();
        data.push(TAG_NONCE);
        data.push(0);
        operation.put(&mut data);
        assert(data@ =~= operation.payload().wire());
        Ok(crate::init::new_record_instruction(program_id, rent_payer, *nonce_account, data))
    }

    /// Why the program refuses the operation on these accounts, if it does.
    ///
    /// The checks come in this order: three accounts are named; the payer is
    /// writable and has signed; the nonce record is writable and owned by
    /// the account given as the system program; that account is the system
    /// program and holds a program.
    pub open spec fn exec_refusal(&self, accounts: Seq<AccountInfo>) -> Option<ProgramError> {
        if accounts.len() < 3 {
            Some(ProgramError::NotEnoughAccountKeys)
        } else if !accounts[0].is_writable {
            Some(ProgramError::AccountNotWritable)
        } else if !accounts[0].is_signer {
            Some(ProgramError::MissingRequiredSignature)
        } else if !accounts[1].is_writable {
            Some(ProgramError::AccountNotWritable)
        } else if accounts[1].owner != accounts[2].key {
            Some(ProgramError::IncorrectProgramId)
        } else if accounts[2].key != Pubkey::system_program() {
            Some(ProgramError::IncorrectProgramId)
        } else if !accounts[2].executable {
            Some(ProgramError::AccountNotExecutable)
        } else {
            None
        }
    }

    /// Decides the operation on the accounts it names: where it is accepted,
    /// the host is to withdraw the nonce record's least balance from it into
    /// the payer's account, on the payer's authority.
    pub fn exec(
        &self,
        program_id: &Pubkey,
        accounts: &[AccountInfo],
        rent_lamports: u64,
    ) -> (r: Result<Effect, ProgramError>)
        ensures
            match r {
                Ok(effect) => self.exec_refusal(accounts@) is None && effect
                    == (Effect::WithdrawNonce {
                    nonce: self.nonce_pubkey,
                    authority: accounts@[0].key,
                    to: accounts@[0].key,
                    lamports: rent_lamports,
                }),
                Err(e) => self.exec_refusal(accounts@) == Some(e),
            },
    {
        if accounts.len() < 3 {
            return Err(ProgramError::NotEnoughAccountKeys);
        }
        let rent_payer = &accounts[0];
        let nonce_account = &accounts[1];
        let system_program = &accounts[2];
        if !rent_payer.is_writable {
            return Err(ProgramError::AccountNotWritable);
        }
        if !rent_payer.is_signer {
            return Err(ProgramError::MissingRequiredSignature);
        }
        if !nonce_account.is_writable {
            return Err(ProgramError::AccountNotWritable);
        }
        if !nonce_account.owner.same(&system_program.key) {
            return Err(ProgramError::IncorrectProgramId);
        }
        if !system_program.key.is_default() {
            return Err(ProgramError::IncorrectProgramId);
        }
        if !system_program.executable {
            return Err(ProgramError::AccountNotExecutable);
        }
        Ok(
            Effect::WithdrawNonce {
                nonce: self.nonce_pubkey,
                authority: rent_payer.key,
                to: rent_payer.key,
                lamports: rent_lamports,
            },
        )
    }
}

impl SlqNonceInstruction {
    /// The operation as a mathematical value.
    pub open spec fn payload(&self) -> Payload {
        match self {
            SlqNonceInstruction::Withdraw(operation) => operation.payload(),
        }
    }
}

/// Decides an operation of this subsystem on the accounts it names.
pub fn exec(
    program_id: &Pubkey,
    accounts: &[AccountInfo],
    instr: &SlqNonceInstruction,
    rent_lamports: u64,
) -> (r: Result<Effect, ProgramError>)
    ensures
        instr matches SlqNonceInstruction::Withdraw(operation) && match r {
            Ok(effect) => operation.exec_refusal(accounts@) is None && effect
                == (Effect::WithdrawNonce {
                nonce: operation.nonce_pubkey,
                authority: accounts@[0].key,
                to: accounts@[0].key,
                lamports: rent_lamports,
            }),
            Err(e) => operation.exec_refusal(accounts@) == Some(e),
        },
{
    match instr {
        SlqNonceInstruction::Withdraw(operation) => operation.exec(
            program_id,
            accounts,
            rent_lamports,
        ),
    }
}

} // verus!
