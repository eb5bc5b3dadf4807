//! Changes to an instance's administrator record: a new threshold, one more
//! administrator, one administrator less.

use crate::account::{AccountInfo, Effect, ProgramError};
use crate::codec::{str_bytes, tail};
use crate::error::Error;
use crate::init::{create_admin_accounts_array, instance_seeds, make_instance_pda, verify_pda};
use crate::instruction::{carries, AccountMeta, Instruction};
use crate::payload::{
    get_member, get_threshold, parse_fields, put_member, put_threshold, Payload, TAG_ADMIN,
};
use crate::pda::{derives, found_program_address};
use crate::pubkey::Pubkey;
use crate::rules::{account_added, account_removed, threshold_changed};
use crate::state::{without, AdminConfig, SlqInstance, MAX_ADMIN_ACCOUNTS};
use vstd::prelude::*;

verus! {

/// The operations on an administrator record.
#[derive(Clone, Debug, PartialEq, Eq)]
pub enum SlqAdminInstruction {
    ChangeApprovalThreshold(ChangeApprovalThresholdAdmin),
    AddAdminAccount(AddAdminAccountAdmin),
    RemoveAdminAccount(RemoveAdminAccountAdmin),
}

/// Sets the approval threshold of the instance `instance_name`.
///
/// Accounts: the payer (writable, signer); the instance's derived address
/// (writable).
#[derive(Clone, Debug, PartialEq, Eq)]
pub struct ChangeApprovalThresholdAdmin {
    pub instance_name: String,
    pub approval_threshold: u8,
    pub instance_pda_bump_seed: u8,
}

/// Makes `new_admin_account` an administrator of the instance
/// `instance_name`.
///
/// Accounts: the payer (writable, signer); the instance's derived address
/// (writable).
#[derive(Clone, Debug, PartialEq, Eq)]
pub struct AddAdminAccountAdmin {
    pub instance_name: String,
    pub new_admin_account: Pubkey,
    pub instance_pda_bump_seed: u8,
}

/// Takes `to_remove_admin_account` out of the administrators of the
/// instance `instance_name`.
///
/// Accounts: the payer (writable, signer); the instance's derived address
/// (writable).
#[derive(Clone, Debug, PartialEq, Eq)]
pub struct RemoveAdminAccountAdmin {
    pub instance_name: String,
    pub to_remove_admin_account: Pubkey,
    pub instance_pda_bump_seed: u8,
}

/// The change of threshold of the instance named by `name`, for each bump.
pub open spec fn threshold_operation(
    name: Seq<u8>,
    approval_threshold: u8,
) -> spec_fn(u8) -> Payload {
    |bump: u8| Payload::ChangeApprovalThreshold { name, approval_threshold, bump }
}

/// The addition of `account` to the instance named by `name`, for each bump.
pub open spec fn add_operation(name: Seq<u8>, account: Pubkey) -> spec_fn(u8) -> Payload {
    |bump: u8| Payload::AddAdminAccount { name, account: account@, bump }
}

/// The removal of `account` from the instance named by `name`, for each bump.
pub open spec fn remove_operation(name: Seq<u8>, account: Pubkey) -> spec_fn(u8) -> Payload {
    |bump: u8| Payload::RemoveAdminAccount { name, account: account@, bump }
}

/// Whether `instruction` is the one that carries an operation on the
/// instance named by `name` to the program: it names the payer and the
/// instance's derived address, and its data is the operation with the
/// derived bump.
pub open spec fn addresses_instance(
    instruction: Instruction,
    program_id: Pubkey,
    rent_payer: Pubkey,
    name: Seq<u8>,
    operation: spec_fn(u8) -> Payload,
) -> bool {
    exists|address: Pubkey, bump: u8|
        {
            &&& derives(instance_seeds(name), program_id, address, bump)
            &&& carries(
                instruction@,
                program_id,
                seq![
                    AccountMeta::spec_new(rent_payer, true),
                    AccountMeta::spec_new(address, false),
                ],
                operation(bump).wire(),
            )
        }
}

/// Why the program refuses a change to the record of the instance named by
/// `name`, whatever the change, if it does.
///
/// The checks come in this order: two accounts are named; the payer is
/// writable and has signed; the instance's account is writable and owned by
/// the program; its address and bump are the derived ones; its data is a
/// record.
pub open spec fn admin_refusal(
    name: Seq<u8>,
    bump: u8,
    program_id: Pubkey,
    accounts: Seq<AccountInfo>,
) -> Option<ProgramError> {
    if accounts.len() < 2 {
        Some(ProgramError::NotEnoughAccountKeys)
    } else if !accounts[0].is_writable {
        Some(ProgramError::AccountNotWritable)
    } else if !accounts[0].is_signer {
        Some(ProgramError::MissingRequiredSignature)
    } else if !accounts[1].is_writable {
        Some(ProgramError::AccountNotWritable)
    } else if accounts[1].owner != program_id {
        Some(ProgramError::IncorrectProgramId)
    } else if !derives(instance_seeds(name), program_id, accounts[1].key, bump) {
        Some(ProgramError::AddressMismatch)
    } else if SlqInstance::stored(accounts[1].data@) is None {
        Some(ProgramError::InvalidAccountData)
    } else {
        None
    }
}

/// The record that a change finds in the instance's account.
pub open spec fn record_found(accounts: Seq<AccountInfo>) -> AdminConfig {
    SlqInstance::stored(accounts[1].data@).unwrap().admin_config
}

/// Tries the checks of [`admin_refusal`] and reads the record.
fn open_instance(
    instance_name: &String,
    bump: u8,
    program_id: &Pubkey,
    accounts: &[AccountInfo],
) -> (r: Result<SlqInstance, ProgramError>)
    ensures
        match r {
            Ok(instance) => admin_refusal(str_bytes(instance_name), bump, *program_id, accounts@)
                is None && instance.admin_config == record_found(accounts@),
            Err(e) => admin_refusal(str_bytes(instance_name), bump, *program_id, accounts@)
                == Some(e),
        },
{
    if accounts.len() < 2 {
        return Err(ProgramError::NotEnoughAccountKeys);
    }
    let rent_payer = &accounts[0];
    let instance_pda = &accounts[1];
    if !rent_payer.is_writable {
        return Err(ProgramError::AccountNotWritable);
    }
    if !rent_payer.is_signer {
        return Err(ProgramError::MissingRequiredSignature);
    }
    if !instance_pda.is_writable {
        return Err(ProgramError::AccountNotWritable);
    }
    if !instance_pda.owner.same(program_id) {
        return Err(ProgramError::IncorrectProgramId);
    }
    match verify_pda(program_id, instance_name.as_str(), &instance_pda.key, bump) {
        Ok(()) => {},
        Err(e) => { return Err(e); },
    }
    match SlqInstance::try_from_slice(instance_pda.data.as_slice()) {
        Some(instance) => Ok(instance),
        None => Err(ProgramError::InvalidAccountData),
    }
}

/// Builds the instruction that carries the operation `data` on the instance
/// at `instance_pda`.
fn instance_instruction(
    program_id: &Pubkey,
    rent_payer: &Pubkey,
    instance_pda: Pubkey,
    data: Vec<u8>,
) -> (instruction: Instruction)
    ensures
        carries(
            instruction@,
            *program_id,
            seq![
                AccountMeta::spec_new(*rent_payer, true),
                AccountMeta::spec_new(instance_pda, false),
            ],
            data@,
        ),
{
    let mut accounts: Vec<AccountMeta> = Vec::new();
    accounts.push(AccountMeta::new(*rent_payer, true));
    accounts.push(AccountMeta::new(instance_pda, false));
    let instruction = Instruction { program_id: *program_id, accounts, data };
    assert(instruction@.accounts =~= seq![
        AccountMeta::spec_new(*rent_payer, true),
        AccountMeta::spec_new(instance_pda, false),
    ]);
    instruction
}

impl ChangeApprovalThresholdAdmin {
    /// The operation as a mathematical value.
    pub open spec fn payload(&self) -> Payload {
        Payload::ChangeApprovalThreshold {
            name: str_bytes(&self.instance_name),
            approval_threshold: self.approval_threshold,
            bump: self.instance_pda_bump_seed,
        }
    }

    /// Writes the operation's fields.
    pub fn put(&self, out: &mut Vec<u8>)
        requires
            self.payload().encodable(),
        ensures
            final(out)@ == old(out)@ + self.payload().fields(),
    {
        put_threshold(
            out,
            self.instance_name.as_str(),
            self.approval_threshold,
            self.instance_pda_bump_seed,
        );
    }

    /// Reads the operation's fields from position `pos`.
    pub fn get(data: &[u8], pos: usize) -> (r: Option<(ChangeApprovalThresholdAdmin, usize)>)
        requires
            pos <= data.len(),
        ensures
            match r {
                Some((operation, next)) => next <= data.len() && parse_fields(
                    TAG_ADMIN,
                    0,
                    tail(data@, pos as int),
                ) == Some((operation.payload(), tail(data@, next as int))),
                None => parse_fields(TAG_ADMIN, 0, tail(data@, pos as int)) is None,
            },
    {
        match get_threshold(data, pos) {
            Some(((instance_name, approval_threshold, instance_pda_bump_seed), next)) => Some(
                (
                    ChangeApprovalThresholdAdmin {
                        instance_name,
                        approval_threshold,
                        instance_pda_bump_seed,
                    },
                    next,
                ),
            ),
            None => None,
        }
    }

    /// Builds the instruction that sets the threshold of the instance
    /// `instance_name`. There is none where no address can be derived for
    /// the name.
    pub fn build_instruction(
        program_id: &Pubkey,
        rent_payer: &Pubkey,
        instance_name: String,
        approval_threshold: u8,
    ) -> (r: Result<Instruction, Error>)
        ensures
            match r {
                Ok(instruction) => addresses_instance(
                    instruction,
                    *program_id,
                    *rent_payer,
                    str_bytes(&instance_name),
                    threshold_operation(str_bytes(&instance_name), approval_threshold),
                ),
                Err(e) => e == Error::NoProgramAddress && found_program_address(
                    instance_seeds(str_bytes(&instance_name)),
                    program_id@,
                ) is None,
            },
    {
        let (instance_pda, instance_pda_bump_seed) = match make_instance_pda(
            program_id,
            instance_name.as_str(),
        ) {
            Some(found) => found,
            None => { return Err(Error::NoProgramAddress); },
        };
        let operation = ChangeApprovalThresholdAdmin {
            instance_name,
            approval_threshold,
            instance_pda_bump_seed,
        };
        proof {
            broadcast use vstd::utf8::encode_utf8_valid_utf8;
        }
        let mut data: Vec<u8> = Vec::new();
        data.push(TAG_ADMIN);
        data.push(0);
        operation.put(&mut data);
        assert(data@ =~= operation.payload().wire());
        Ok(instance_instruction(program_id, rent_payer, instance_pda, data))
    }

    /// Decides the operation on the accounts it names: where none of the
    /// checks of [`admin_refusal`] fails, the host is to store the record
    /// with the new threshold and the slots as they were.
    pub fn exec(
        &self,
        program_id: &Pubkey,
        accounts: &[AccountInfo],
    ) -> (r: Result<Effect, ProgramError>)
        ensures
            match r {
                Ok(effect) => {
                    &&& admin_refusal(
                        str_bytes(&self.instance_name),
                        self.instance_pda_bump_seed,
                        *program_id,
                        accounts@,
                    ) is None
                    &&& effect matches Effect::StoreInstance { instance }
                    &&& threshold_changed(
                        record_found(accounts@),
                        instance.admin_config,
                        self.approval_threshold,
                    )
                },
                Err(e) => admin_refusal(
                    str_bytes(&self.instance_name),
                    self.instance_pda_bump_seed,
                    *program_id,
                    accounts@,
                ) == Some(e),
            },
    {
        let mut instance = match open_instance(
            &self.instance_name,
            self.instance_pda_bump_seed,
            program_id,
            accounts,
        ) {
            Ok(instance) => instance,
            Err(e) => { return Err(e); },
        };
        instance.admin_config.approval_threshold = self.approval_threshold;
        Ok(Effect::StoreInstance { instance })
    }
}

impl AddAdminAccountAdmin {
    /// The operation as a mathematical value.
    pub open spec fn payload(&self) -> Payload {
        Payload::AddAdminAccount {
            name: str_bytes(&self.instance_name),
            account: self.new_admin_account@,
            bump: self.instance_pda_bump_seed,
        }
    }

    /// Writes the operation's fields.
    pub fn put(&self, out: &mut Vec<u8>)
        requires
            self.payload().encodable(),
        ensures
            final(out)@ == old(out)@ + self.payload().fields(),
    {
        put_member(
            out,
            self.instance_name.as_str(),
            &self.new_admin_account,
            self.instance_pda_bump_seed,
        );
    }

    /// Reads the operation's fields from position `pos`.
    pub fn get(data: &[u8], pos: usize) -> (r: Option<(AddAdminAccountAdmin, usize)>)
        requires
            pos <= data.len(),
        ensures
            match r {
                Some((operation, next)) => next <= data.len() && parse_fields(
                    TAG_ADMIN,
                    1,
                    tail(data@, pos as int),
                ) == Some((operation.payload(), tail(data@, next as int))),
                None => parse_fields(TAG_ADMIN, 1, tail(data@, pos as int)) is None,
            },
    {
        match get_member(data, pos) {
            Some(((instance_name, new_admin_account, instance_pda_bump_seed), next)) => Some(
                (
                    AddAdminAccountAdmin { instance_name, new_admin_account, instance_pda_bump_seed },
                    next,
                ),
            ),
            None => None,
        }
    }

    /// Builds the instruction that adds `new_admin_account` to the instance
    /// `instance_name`. There is none where no address can be derived for
    /// the name.
    pub fn build_instruction(
        program_id: &Pubkey,
        rent_payer: &Pubkey,
        instance_name: String,
        new_admin_account: Pubkey,
    ) -> (r: Result<Instruction, Error>)
        ensures
            match r {
                Ok(instruction) => addresses_instance(
                    instruction,
                    *program_id,
                    *rent_payer,
                    str_bytes(&instance_name),
                    add_operation(str_bytes(&instance_name), new_admin_account),
                ),
                Err(e) => e == Error::NoProgramAddress && found_program_address(
                    instance_seeds(str_bytes(&instance_name)),
                    program_id@,
                ) is None,
            },
    {
        let (instance_pda, instance_pda_bump_seed) = match make_instance_pda(
            program_id,
            instance_name.as_str(),
        ) {
            Some(found) => found,
            None => { return Err(Error::NoProgramAddress); },
        };
        let operation = AddAdminAccountAdmin {
            instance_name,
            new_admin_account,
            instance_pda_bump_seed,
        };
        proof {
            broadcast use vstd::utf8::encode_utf8_valid_utf8;
        }
        let mut data: Vec<u8> = Vec::new();
        data.push(TAG_ADMIN);
        data.push(1);
        operation.put(&mut data);
        assert(data@ =~= operation.payload().wire());
        Ok(instance_instruction(program_id, rent_payer, instance_pda, data))
    }

    /// Why the program refuses the operation on these accounts, if it does:
    /// for one of the reasons of [`admin_refusal`], or because every slot of
    /// the record is taken.
    pub open spec fn exec_refusal(
        &self,
        program_id: Pubkey,
        accounts: Seq<AccountInfo>,
    ) -> Option<ProgramError> {
        let common = admin_refusal(
            str_bytes(&self.instance_name),
            self.instance_pda_bump_seed,
            program_id,
            accounts,
        );
        if common is Some {
            common
        } else if record_found(accounts).members().len() >= MAX_ADMIN_ACCOUNTS {
            Some(ProgramError::AccountDataTooSmall)
        } else {
            None
        }
    }

    /// Decides the operation on the accounts it names: where it is accepted,
    /// the host is to store the record with the new identity behind the
    /// members, repacked into the first slots, and the threshold as it was.
    pub fn exec(
        &self,
        program_id: &Pubkey,
        accounts: &[AccountInfo],
    ) -> (r: Result<Effect, ProgramError>)
        ensures
            match r {
                Ok(effect) => {
                    &&& self.exec_refusal(*program_id, accounts@) is None
                    &&& effect matches Effect::StoreInstance { instance }
                    &&& account_added(
                        record_found(accounts@),
                        instance.admin_config,
                        self.new_admin_account,
                    )
                },
                Err(e) => self.exec_refusal(*program_id, accounts@) == Some(e),
            },
    {
        let mut instance = match open_instance(
            &self.instance_name,
            self.instance_pda_bump_seed,
            program_id,
            accounts,
        ) {
            Ok(instance) => instance,
            Err(e) => { return Err(e); },
        };
        let mut admin_accounts = instance.admin_config.admin_list();
        if admin_accounts.len() >= MAX_ADMIN_ACCOUNTS {
            return Err(ProgramError::AccountDataTooSmall);
        }
        admin_accounts.push(self.new_admin_account);
        instance.admin_config.admin_accounts = create_admin_accounts_array(
            admin_accounts.as_slice(),
        );
        Ok(Effect::StoreInstance { instance })
    }
}

impl RemoveAdminAccountAdmin {
    /// The operation as a mathematical value.
    pub open spec fn payload(&self) -> Payload {
        Payload::RemoveAdminAccount {
            name: str_bytes(&self.instance_name),
            account: self.to_remove_admin_account@,
            bump: self.instance_pda_bump_seed,
        }
    }

    /// Writes the operation's fields.
    pub fn put(&self, out: &mut Vec<u8>)
        requires
            self.payload().encodable(),
        ensures
            final(out)@ == old(out)@ + self.payload().fields(),
    {
        put_member(
            out,
            self.instance_name.as_str(),
            &self.to_remove_admin_account,
            self.instance_pda_bump_seed,
        );
    }

    /// Reads the operation's fields from position `pos`.
    pub fn get(data: &[u8], pos: usize) -> (r: Option<(RemoveAdminAccountAdmin, usize)>)
        requires
            pos <= data.len(),
        ensures
            match r {
                Some((operation, next)) => next <= data.len() && parse_fields(
                    TAG_ADMIN,
                    2,
                    tail(data@, pos as int),
                ) == Some((operation.payload(), tail(data@, next as int))),
                None => parse_fields(TAG_ADMIN, 2, tail(data@, pos as int)) is None,
            },
    {
        match get_member(data, pos) {
            Some(((instance_name, to_remove_admin_account, instance_pda_bump_seed), next)) => Some(
                (
                    RemoveAdminAccountAdmin {
                        instance_name,
                        to_remove_admin_account,
                        instance_pda_bump_seed,
                    },
                    next,
                ),
            ),
            None => None,
        }
    }

    /// Builds the instruction that removes `to_remove_admin_account` from
    /// the instance `instance_name`. There is none where no address can be
    /// derived for the name.
    pub fn build_instruction(
        program_id: &Pubkey,
        rent_payer: &Pubkey,
        instance_name: String,
        to_remove_admin_account: Pubkey,
    ) -> (r: Result<Instruction, Error>)
        ensures
            match r {
                Ok(instruction) => addresses_instance(
                    instruction,
                    *program_id,
                    *rent_payer,
                    str_bytes(&instance_name),
                    remove_operation(str_bytes(&instance_name), to_remove_admin_account),
                ),
                Err(e) => e == Error::NoProgramAddress && found_program_address(
                    instance_seeds(str_bytes(&instance_name)),
                    program_id@,
                ) is None,
            },
    {
        let (instance_pda, instance_pda_bump_seed) = match make_instance_pda(
            program_id,
            instance_name.as_str(),
        ) {
            Some(found) => found,
            None => { return Err(Error::NoProgramAddress); },
        };
        let operation = RemoveAdminAccountAdmin {
            instance_name,
            to_remove_admin_account,
            instance_pda_bump_seed,
        };
        proof {
            broadcast use vstd::utf8::encode_utf8_valid_utf8;
        }
        let mut data: Vec<u8> = Vec::new();
        data.push(TAG_ADMIN);
        data.push(2);
        operation.put(&mut data);
        assert(data@ =~= operation.payload().wire());
        Ok(instance_instruction(program_id, rent_payer, instance_pda, data))
    }

    /// Decides the operation on the accounts it names: where none of the
    /// checks of [`admin_refusal`] fails, the host is to store the record
    /// without the identity among its members, repacked into the first
    /// slots, and the threshold as it was.
    pub fn exec(
        &self,
        program_id: &Pubkey,
        accounts: &[AccountInfo],
    ) -> (r: Result<Effect, ProgramError>)
        ensures
            match r {
                Ok(effect) => {
                    &&& admin_refusal(
                        str_bytes(&self.instance_name),
                        self.instance_pda_bump_seed,
                        *program_id,
                        accounts@,
                    ) is None
                    &&& effect matches Effect::StoreInstance { instance }
                    &&& account_removed(
                        record_found(accounts@),
                        instance.admin_config,
                        self.to_remove_admin_account,
                    )
                },
                Err(e) => admin_refusal(
                    str_bytes(&self.instance_name),
                    self.instance_pda_bump_seed,
                    *program_id,
                    accounts@,
                ) == Some(e),
            },
    {
        let mut instance = match open_instance(
            &self.instance_name,
            self.instance_pda_bump_seed,
            program_id,
            accounts,
        ) {
            Ok(instance) => instance,
            Err(e) => { return Err(e); },
        };
        let members = instance.admin_config.admin_list();
        let admin_accounts = without(&members, &self.to_remove_admin_account);
        proof {
            members@.lemma_filter_len(crate::state::other_than(self.to_remove_admin_account));
        }
        instance.admin_config.admin_accounts = create_admin_accounts_array(
            admin_accounts.as_slice(),
        );
        Ok(Effect::StoreInstance { instance })
    }
}

impl SlqAdminInstruction {
    /// The operation as a mathematical value.
    pub open spec fn payload(&self) -> Payload {
        match self {
            SlqAdminInstruction::ChangeApprovalThreshold(operation) => operation.payload(),
            SlqAdminInstruction::AddAdminAccount(operation) => operation.payload(),
            SlqAdminInstruction::RemoveAdminAccount(operation) => operation.payload(),
        }
    }

    /// Why the program refuses the operation on these accounts, if it does.
    pub open spec fn exec_refusal(
        &self,
        program_id: Pubkey,
        accounts: Seq<AccountInfo>,
    ) -> Option<ProgramError> {
        match self {
            SlqAdminInstruction::ChangeApprovalThreshold(operation) => admin_refusal(
                str_bytes(&operation.instance_name),
                operation.instance_pda_bump_seed,
                program_id,
                accounts,
            ),
            SlqAdminInstruction::AddAdminAccount(operation) => operation.exec_refusal(
                program_id,
                accounts,
            ),
            SlqAdminInstruction::RemoveAdminAccount(operation) => admin_refusal(
                str_bytes(&operation.instance_name),
                operation.instance_pda_bump_seed,
                program_id,
                accounts,
            ),
        }
    }

    /// Whether `after` is what the operation makes of the record `before`.
    pub open spec fn applied(&self, before: AdminConfig, after: AdminConfig) -> bool {
        match self {
            SlqAdminInstruction::ChangeApprovalThreshold(operation) => threshold_changed(
                before,
                after,
                operation.approval_threshold,
            ),
            SlqAdminInstruction::AddAdminAccount(operation) => account_added(
                before,
                after,
                operation.new_admin_account,
            ),
            SlqAdminInstruction::RemoveAdminAccount(operation) => account_removed(
                before,
                after,
                operation.to_remove_admin_account,
            ),
        }
    }
}

/// Decides an operation of this subsystem on the accounts it names: where
/// it is accepted, the host is to store the record that the operation makes
/// of the one in the instance's account.
pub fn exec(
    program_id: &Pubkey,
    accounts: &[AccountInfo],
    instr: &SlqAdminInstruction,
) -> (r: Result<Effect, ProgramError>)
    ensures
        match r {
            Ok(effect) => {
                &&& instr.exec_refusal(*program_id, accounts@) is None
                &&& effect matches Effect::StoreInstance { instance }
                &&& instr.applied(record_found(accounts@), instance.admin_config)
            },
            Err(e) => instr.exec_refusal(*program_id, accounts@) == Some(e),
        },
{
    match instr {
        SlqAdminInstruction::ChangeApprovalThreshold(operation) => operation.exec(
            program_id,
            accounts,
        ),
        SlqAdminInstruction::AddAdminAccount(operation) => operation.exec(program_id, accounts),
        SlqAdminInstruction::RemoveAdminAccount(operation) => operation.exec(program_id, accounts),
    }
}

} // verus!
