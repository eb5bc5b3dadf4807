//! The command that creates an instance.

use crate::client::{all_named, keys_named, parse_keys};
use crate::codec::str_bytes;
use crate::error::Error;
use crate::init::{addresses_new_record, init_operation, instance_seeds, quorum_refusal, Init};
use crate::instruction::Instruction;
use crate::pda::found_program_address;
use crate::pubkey::Pubkey;
use crate::state::MAX_ADMIN_ACCOUNTS;
use vstd::prelude::*;

verus! {

/// Creates the instance `instance_name` with the administrators that
/// `admin_accounts` name.
#[derive(Clone, Debug, PartialEq, Eq)]
pub struct InitializeInstanceCommand {
    pub instance_name: String,
    pub approval_threshold: u8,
    pub admin_accounts: Vec<String>,
}

/// Whether `r` is the answer to the creation of the instance named by
/// `name` with these administrators: where no address can be derived for the
/// name, that fact; else the rule that the threshold and the administrators
/// break; else the instruction that carries the creation.
pub open spec fn creation_outcome(
    program_id: Pubkey,
    rent_payer: Pubkey,
    name: Seq<u8>,
    approval_threshold: u8,
    admin_accounts: Seq<Pubkey>,
    r: Result<Instruction, Error>,
) -> bool {
    if found_program_address(instance_seeds(name), program_id@) is None {
        r matches Err(e) && e == Error::NoProgramAddress
    } else {
        match quorum_refusal(approval_threshold, admin_accounts, MAX_ADMIN_ACCOUNTS) {
            Some(rule) => r matches Err(e) && e == Error::Validation(rule),
            None => r matches Ok(instruction) && addresses_new_record(
                instruction,
                program_id,
                rent_payer,
                instance_seeds(name),
                init_operation(name, approval_threshold, admin_accounts),
            ),
        }
    }
}

/// Turns the command into an instruction. A text that names no key is
/// refused first.
pub fn do_command(
    program_id: &Pubkey,
    rent_payer: &Pubkey,
    cmd: InitializeInstanceCommand,
) -> (r: Result<Instruction, Error>)
    ensures
        if all_named(cmd.admin_accounts@) {
            exists|admin_accounts: Seq<Pubkey>|
                keys_named(cmd.admin_accounts@, admin_accounts) && #[trigger] creation_outcome(
                    *program_id,
                    *rent_payer,
                    str_bytes(&cmd.instance_name),
                    cmd.approval_threshold,
                    admin_accounts,
                    r,
                )
        } else {
            r matches Err(e) && e == Error::InvalidAccountKey
        },
{
    let admin_accounts = match parse_keys(&cmd.admin_accounts) {
        Some(keys) => keys,
        None => { return Err(Error::InvalidAccountKey); },
    };
    let ghost keys = admin_accounts@;
    let ghost name = str_bytes(&cmd.instance_name);
    let r = Init::build_instruction(
        program_id,
        rent_payer,
        cmd.instance_name,
        cmd.approval_threshold,
        admin_accounts,
    );
    proof {
        assert(creation_outcome(*program_id, *rent_payer, name, cmd.approval_threshold, keys, r));
        assert forall|i: int|
            0 <= i < cmd.admin_accounts@.len() implies crate::pubkey::pubkey_of_text(
            (#[trigger] cmd.admin_accounts@[i])@,
        ) is Some by {
            assert(crate::pubkey::pubkey_of_text(cmd.admin_accounts@[i]@) == Some(keys[i]@));
        }
    }
    r
}

} // verus!
