//! Commands that change an instance's administrator record.
//!
//! Each command is tried against the record as the caller has read it from
//! the instance's account. Only a command that breaks no rule becomes an
//! instruction.

use crate::admin::{
    add_operation, addresses_instance, remove_operation, threshold_operation,
    AddAdminAccountAdmin, ChangeApprovalThresholdAdmin, RemoveAdminAccountAdmin,
};
use crate::codec::str_bytes;
use crate::error::{Error, ValidationError};
use crate::init::instance_seeds;
use crate::instruction::Instruction;
use crate::payload::Payload;
use crate::pda::found_program_address;
use crate::pubkey::{pubkey_of_text, Pubkey};
use crate::rules::{add_refusal, change_refusal, remove_refusal};
use crate::state::{contains_key, SlqInstance, MAX_ADMIN_ACCOUNTS};
use vstd::prelude::*;

verus! {

/// A change to an instance's administrator record.
#[derive(Clone, Debug, PartialEq, Eq)]
pub enum AdminCommand {
    ChangeApprovalThreshold(ChangeApprovalThresholdAdminCommand),
    AddAdminAccount(AddAdminAccountAdminCommand),
    RemoveAdminAccount(RemoveAdminAccountAdminCommand),
}

/// Sets the approval threshold of the instance `instance_name`.
#[derive(Clone, Debug, PartialEq, Eq)]
pub struct ChangeApprovalThresholdAdminCommand {
    pub instance_name: String,
    pub approval_threshold: u8,
}

/// Makes the identity that `account` names an administrator of the instance
/// `instance_name`.
#[derive(Clone, Debug, PartialEq, Eq)]
pub struct AddAdminAccountAdminCommand {
    pub instance_name: String,
    pub account: String,
}

/// Takes the identity that `account` names out of the administrators of the
/// instance `instance_name`.
#[derive(Clone, Debug, PartialEq, Eq)]
pub struct RemoveAdminAccountAdminCommand {
    pub instance_name: String,
    pub account: String,
}

/// Whether `r` is what becomes of a command once it is tried against the
/// rules: the rule it breaks; or the instruction that carries `operation`
/// to the instance named by `name`; or, where no address can be derived for
/// the name, that fact.
pub open spec fn built(
    refusal: Option<ValidationError>,
    program_id: Pubkey,
    rent_payer: Pubkey,
    name: Seq<u8>,
    operation: spec_fn(u8) -> Payload, r: Result<Instruction,
    Error>,
) -> bool {
    match refusal {
        Some(rule) => r matches Err(e) && e == Error::Validation(rule),
        None => match r {
            Ok(instruction) => addresses_instance(
                instruction,
                program_id,
                rent_payer,
                name,
                operation,
            ),
            Err(e) => e == Error::NoProgramAddress && found_program_address(
                instance_seeds(name),
                program_id@,
            ) is None,
        },
    }
}

/// Whether `r` is the answer to a change of threshold, given the data of the
/// instance's account: data that is no record is refused as such; then the
/// rules of [`change_refusal`] are tried on the record.
pub open spec fn change_outcome(
    program_id: Pubkey,
    rent_payer: Pubkey,
    name: Seq<u8>,
    approval_threshold: u8,
    instance_data: Seq<u8>,
    r: Result<Instruction, Error>,
) -> bool {
    match SlqInstance::stored(instance_data) {
        None => r matches Err(e) && e == Error::InvalidInstanceData,
        Some(instance) => built(
            change_refusal(instance.admin_config, approval_threshold),
            program_id,
            rent_payer,
            name,
            threshold_operation(name, approval_threshold),
            r,
        ),
    }
}

/// Whether `r` is the answer to the addition of the identity that `account`
/// names, given the data of the instance's account: data that is no record
/// is refused as such, then a text that names no key; then the rules of
/// [`add_refusal`] are tried on the record.
pub open spec fn add_outcome(
    program_id: Pubkey,
    rent_payer: Pubkey,
    name: Seq<u8>,
    account: Seq<char>,
    instance_data: Seq<u8>,
    r: Result<Instruction, Error>,
) -> bool {
    match SlqInstance::stored(instance_data) {
        None => r matches Err(e) && e == Error::InvalidInstanceData,
        Some(instance) => match pubkey_of_text(account) {
            None => r matches Err(e) && e == Error::InvalidAccountKey,
            Some(bytes) => exists|key: Pubkey|
                key@ == bytes && #[trigger] built(
                    add_refusal(instance.admin_config, key),
                    program_id,
                    rent_payer,
                    name,
                    add_operation(name, key),
                    r,
                ),
        },
    }
}

/// Whether `r` is the answer to the removal of the identity that `account`
/// names, given the data of the instance's account: data that is no record
/// is refused as such, then a text that names no key; then the rules of
/// [`remove_refusal`] are tried on the record.
pub open spec fn remove_outcome(
    program_id: Pubkey,
    rent_payer: Pubkey,
    name: Seq<u8>,
    account: Seq<char>,
    instance_data: Seq<u8>,
    r: Result<Instruction, Error>,
) -> bool {
    match SlqInstance::stored(instance_data) {
        None => r matches Err(e) && e == Error::InvalidInstanceData,
        Some(instance) => match pubkey_of_text(account) {
            None => r matches Err(e) && e == Error::InvalidAccountKey,
            Some(bytes) => exists|key: Pubkey|
                key@ == bytes && #[trigger] built(
                    remove_refusal(instance.admin_config, key),
                    program_id,
                    rent_payer,
                    name,
                    remove_operation(name, key),
                    r,
                ),
        },
    }
}

/// Tries the rules of [`change_refusal`] on the record.
fn check_change(instance: &SlqInstance, approval_threshold: u8) -> (r: Result<(), ValidationError>)
    ensures
        match r {
            Ok(()) => change_refusal(instance.admin_config, approval_threshold) is None,
            Err(rule) => change_refusal(instance.admin_config, approval_threshold) == Some(rule),
        },
{
    let admin_accounts = instance.admin_config.admin_list();
    if approval_threshold == 0 {
        return Err(ValidationError::ThresholdZero);
    }
    if approval_threshold as usize > admin_accounts.len() {
        return Err(
            ValidationError::ThresholdAboveAdministrators { administrators: admin_accounts.len() },
        );
    }
    if approval_threshold == instance.admin_config.approval_threshold {
        return Err(ValidationError::ThresholdUnchanged { approval_threshold });
    }
    Ok(())
}

/// Tries the rules of [`add_refusal`] on the record.
fn check_add(instance: &SlqInstance, account: &Pubkey) -> (r: Result<(), ValidationError>)
    ensures
        match r {
            Ok(()) => add_refusal(instance.admin_config, *account) is None,
            Err(rule) => add_refusal(instance.admin_config, *account) == Some(rule),
        },
{
    let admin_accounts = instance.admin_config.admin_list();
    if admin_accounts.len() == MAX_ADMIN_ACCOUNTS {
        return Err(ValidationError::AdminAccountsFull { capacity: MAX_ADMIN_ACCOUNTS });
    }
    if contains_key(&admin_accounts, account) {
        return Err(ValidationError::AccountExists { account: *account });
    }
    Ok(())
}

/// Tries the rules of [`remove_refusal`] on the record.
fn check_remove(instance: &SlqInstance, account: &Pubkey) -> (r: Result<(), ValidationError>)
    ensures
        match r {
            Ok(()) => remove_refusal(instance.admin_config, *account) is None,
            Err(rule) => remove_refusal(instance.admin_config, *account) == Some(rule),
        },
{
    let admin_accounts = instance.admin_config.admin_list();
    if !contains_key(&admin_accounts, account) {
        return Err(ValidationError::AccountMissing { account: *account });
    }
    if admin_accounts.len() == 1 {
        return Err(ValidationError::LastAdminAccount);
    }
    if admin_accounts.len() == instance.admin_config.approval_threshold as usize {
        return Err(ValidationError::ThresholdEqualsAccounts);
    }
    Ok(())
}

/// Turns a change of threshold into an instruction, if the record in
/// `instance_data` allows it.
pub fn change_approval_threshold_instruction(
    program_id: &Pubkey,
    rent_payer: &Pubkey,
    cmd: ChangeApprovalThresholdAdminCommand,
    instance_data: &[u8],
) -> (r: Result<Instruction, Error>)
    ensures
        change_outcome(
            *program_id,
            *rent_payer,
            str_bytes(&cmd.instance_name),
            cmd.approval_threshold,
            instance_data@,
            r,
        ),
{
    let slq_instance = match SlqInstance::try_from_slice(instance_data) {
        Some(instance) => instance,
        None => { return Err(Error::InvalidInstanceData); },
    };
    match check_change(&slq_instance, cmd.approval_threshold) {
        Ok(()) => ChangeApprovalThresholdAdmin::build_instruction(
            program_id,
            rent_payer,
            cmd.instance_name,
            cmd.approval_threshold,
        ),
        Err(rule) => Err(Error::Validation(rule)),
    }
}

/// Turns the addition of an administrator into an instruction, if the
/// record in `instance_data` allows it.
pub fn add_admin_account_instruction(
    program_id: &Pubkey,
    rent_payer: &Pubkey,
    cmd: AddAdminAccountAdminCommand,
    instance_data: &[u8],
) -> (r: Result<Instruction, Error>)
    ensures
        add_outcome(
            *program_id,
            *rent_payer,
            str_bytes(&cmd.instance_name),
            cmd.account@,
            instance_data@,
            r,
        ),
{
    let slq_instance = match SlqInstance::try_from_slice(instance_data) {
        Some(instance) => instance,
        None => { return Err(Error::InvalidInstanceData); },
    };
    let new_admin_account = match Pubkey::parse(cmd.account.as_str()) {
        Some(key) => key,
        None => { return Err(Error::InvalidAccountKey); },
    };
    let ghost name = str_bytes(&cmd.instance_name);
    let r = match check_add(&slq_instance, &new_admin_account) {
        Ok(()) => AddAdminAccountAdmin::build_instruction(
            program_id,
            rent_payer,
            cmd.instance_name,
            new_admin_account,
        ),
        Err(rule) => Err(Error::Validation(rule)),
    };
    assert(built(
        add_refusal(slq_instance.admin_config, new_admin_account),
        *program_id,
        *rent_payer,
        name,
        add_operation(name, new_admin_account),
        r,
    ));
    r
}

/// Turns the removal of an administrator into an instruction, if the record
/// in `instance_data` allows it.
pub fn remove_admin_account_instruction(
    program_id: &Pubkey,
    rent_payer: &Pubkey,
    cmd: RemoveAdminAccountAdminCommand,
    instance_data: &[u8],
) -> (r: Result<Instruction, Error>)
    ensures
        remove_outcome(
            *program_id,
            *rent_payer,
            str_bytes(&cmd.instance_name),
            cmd.account@,
            instance_data@,
            r,
        ),
{
    let slq_instance = match SlqInstance::try_from_slice(instance_data) {
        Some(instance) => instance,
        None => { return Err(Error::InvalidInstanceData); },
    };
    let to_remove_admin_account = match Pubkey::parse(cmd.account.as_str()) {
        Some(key) => key,
        None => { return Err(Error::InvalidAccountKey); },
    };
    let ghost name = str_bytes(&cmd.instance_name);
    let r = match check_remove(&slq_instance, &to_remove_admin_account) {
        Ok(()) => RemoveAdminAccountAdmin::build_instruction(
            program_id,
            rent_payer,
            cmd.instance_name,
            to_remove_admin_account,
        ),
        Err(rule) => Err(Error::Validation(rule)),
    };
    assert(built(
        remove_refusal(slq_instance.admin_config, to_remove_admin_account),
        *program_id,
        *rent_payer,
        name,
        remove_operation(name, to_remove_admin_account),
        r,
    ));
    r
}

/// Whether `r` is the answer to the command, given the data of the
/// instance's account.
pub open spec fn command_outcome(
    program_id: Pubkey,
    rent_payer: Pubkey,
    cmd: AdminCommand,
    instance_data: Seq<u8>,
    r: Result<Instruction, Error>,
) -> bool {
    match cmd {
        AdminCommand::ChangeApprovalThreshold(cmd) => change_outcome(
            program_id,
            rent_payer,
            str_bytes(&cmd.instance_name),
            cmd.approval_threshold,
            instance_data,
            r,
        ),
        AdminCommand::AddAdminAccount(cmd) => add_outcome(
            program_id,
            rent_payer,
            str_bytes(&cmd.instance_name),
            cmd.account@,
            instance_data,
            r,
        ),
        AdminCommand::RemoveAdminAccount(cmd) => remove_outcome(
            program_id,
            rent_payer,
            str_bytes(&cmd.instance_name),
            cmd.account@,
            instance_data,
            r,
        ),
    }
}

/// Turns a command into an instruction, if the record in `instance_data`
/// allows it.
pub fn do_command(
    program_id: &Pubkey,
    rent_payer: &Pubkey,
    cmd: AdminCommand,
    instance_data: &[u8],
) -> (r: Result<Instruction, Error>)
    ensures
        command_outcome(*program_id, *rent_payer, cmd, instance_data@, r),
{
    match cmd {
        AdminCommand::ChangeApprovalThreshold(cmd) => change_approval_threshold_instruction(
            program_id,
            rent_payer,
            cmd,
            instance_data,
        ),
        AdminCommand::AddAdminAccount(cmd) => add_admin_account_instruction(
            program_id,
            rent_payer,
            cmd,
            instance_data,
        ),
        AdminCommand::RemoveAdminAccount(cmd) => remove_admin_account_instruction(
            program_id,
            rent_payer,
            cmd,
            instance_data,
        ),
    }
}

impl AdminCommand {
    /// The name of the instance that the command is about.
    pub fn instance_name(&self) -> (name: &String)
        ensures
            name == match self {
                AdminCommand::ChangeApprovalThreshold(cmd) => &cmd.instance_name,
                AdminCommand::AddAdminAccount(cmd) => &cmd.instance_name,
                AdminCommand::RemoveAdminAccount(cmd) => &cmd.instance_name,
            },
    {
        match self {
            AdminCommand::ChangeApprovalThreshold(cmd) => &cmd.instance_name,
            AdminCommand::AddAdminAccount(cmd) => &cmd.instance_name,
            AdminCommand::RemoveAdminAccount(cmd) => &cmd.instance_name,
        }
    }
}

} // verus!
