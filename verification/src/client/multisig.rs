//! The command that creates an owner record.

use crate::client::{all_named, keys_named, parse_keys};
use crate::codec::str_bytes;
use crate::error::Error;
use crate::init::{addresses_new_record, quorum_refusal};
use crate::instruction::Instruction;
use crate::multisig::{multisig_operation, multisig_seeds};
use crate::pda::found_program_address;
use crate::pubkey::Pubkey;
use crate::state::MAX_MULTISIG_OWNERS;
use vstd::prelude::*;

verus! {

/// What can be asked about owner records.
#[derive(Clone, Debug, PartialEq, Eq)]
pub enum MultisigCommand {
    /// Create the owner record on the ledger.
    Init(Init),
}

/// Creates the owner record `instance_name` with the owners that `owners`
/// name. There can be many owner records under one program.
#[derive(Clone, Debug, PartialEq, Eq)]
pub struct Init {
    pub instance_name: String,
    pub approval_threshold: u8,
    pub owners: Vec<String>,
}

/// Whether `r` is the answer to the creation of the owner record named by
/// `name` with these owners: where no address can be derived for the name,
/// that fact; else the rule that the threshold and the owners break; else
/// the instruction that carries the creation.
pub open spec fn creation_outcome(
    program_id: Pubkey,
    rent_payer: Pubkey,
    name: Seq<u8>,
    approval_threshold: u8,
    owners: Seq<Pubkey>,
    r: Result<Instruction, Error>,
) -> bool {
    if found_program_address(multisig_seeds(name), program_id@) is None {
        r matches Err(e) && e == Error::NoProgramAddress
    } else {
        match quorum_refusal(approval_threshold, owners, MAX_MULTISIG_OWNERS) {
            Some(rule) => r matches Err(e) && e == Error::Validation(rule),
            None => r matches Ok(instruction) && addresses_new_record(
                instruction,
                program_id,
                rent_payer,
                multisig_seeds(name),
                multisig_operation(name, approval_threshold, owners),
            ),
        }
    }
}

/// Whether `r` is the answer to the command: a text that names no key is
/// refused first; else the answer is that of [`creation_outcome`] for the
/// owners that the texts name.
pub open spec fn init_outcome(
    program_id: Pubkey,
    rent_payer: Pubkey,
    cmd: Init,
    r: Result<Instruction, Error>,
) -> bool {
    if all_named(cmd.owners@) {
        exists|owners: Seq<Pubkey>|
            keys_named(cmd.owners@, owners) && #[trigger] creation_outcome(
                program_id,
                rent_payer,
                str_bytes(&cmd.instance_name),
                cmd.approval_threshold,
                owners,
                r,
            )
    } else {
        r matches Err(e) && e == Error::InvalidAccountKey
    }
}

impl Init {
    /// Turns the command into an instruction.
    pub fn exec(&self, program_id: &Pubkey, rent_payer: &Pubkey) -> (r: Result<Instruction, Error>)
        ensures
            init_outcome(*program_id, *rent_payer, *self, r),
    {
        let owners = match parse_keys(&self.owners) {
            Some(keys) => keys,
            None => { return Err(Error::InvalidAccountKey); },
        };
        let ghost keys = owners@;
        let r = crate::multisig::Init::build_instruction(
            program_id,
            rent_payer,
            self.instance_name.clone(),
            self.approval_threshold,
            owners,
        );
        proof {
            assert(creation_outcome(
                *program_id,
                *rent_payer,
                str_bytes(&self.instance_name),
                self.approval_threshold,
                keys,
                r,
            ));
            assert forall|i: int| 0 <= i < self.owners@.len() implies crate::pubkey::pubkey_of_text(
                (#[trigger] self.owners@[i])@,
            ) is Some by {
                assert(crate::pubkey::pubkey_of_text(self.owners@[i]@) == Some(keys[i]@));
            }
        }
        r
    }
}

/// Turns a command into an instruction.
pub fn do_command(
    program_id: &Pubkey,
    rent_payer: &Pubkey,
    cmd: MultisigCommand,
) -> (r: Result<Instruction, Error>)
    ensures
        cmd matches MultisigCommand::Init(init) && init_outcome(*program_id, *rent_payer, init, r),
{
    match cmd {
        MultisigCommand::Init(cmd) => cmd.exec(program_id, rent_payer),
    }
}

} // verus!
