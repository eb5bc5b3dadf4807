//! Commands on the payer's vault.

use crate::error::Error;
use crate::init::addresses_new_record;
use crate::instruction::Instruction;
use crate::payload::Payload;
use crate::pda::found_program_address;
use crate::pubkey::Pubkey;
use crate::vault::{
    create_operation, deposit_operation, vault_seeds, withdraw_operation, CreateVault,
    DepositToVault, WithdrawFromVault,
};
use vstd::prelude::*;
use vstd::string::StringSliceAdditionalSpecFns;

verus! {

/// What can be asked of the payer's vault.
#[derive(Clone, Copy, Debug, PartialEq, Eq)]
pub enum VaultCommand {
    CreateVault,
    DepositToVault { amount: u64 },
    WithdrawFromVault { amount: u64 },
}

/// The bytes of `"vault"`, the name of the vault that the commands are about.
pub open spec fn vault_name() -> Seq<u8> {
    seq![118u8, 97u8, 117u8, 108u8, 116u8]
}

impl VaultCommand {
    /// The operation that the command asks for, for each bump.
    pub open spec fn operation(self) -> spec_fn(u8) -> Payload {
        match self {
            VaultCommand::CreateVault => create_operation(vault_name()),
            VaultCommand::DepositToVault { amount } => deposit_operation(vault_name(), amount),
            VaultCommand::WithdrawFromVault { amount } => withdraw_operation(vault_name(), amount),
        }
    }
}

/// Turns a command into the instruction that carries its operation to the
/// payer's vault named `"vault"`. There is none where no address can be
/// derived for the vault.
pub fn do_command(
    program_id: &Pubkey,
    rent_payer: &Pubkey,
    cmd: VaultCommand,
) -> (r: Result<Instruction, Error>)
    ensures
        match r {
            Ok(instruction) => addresses_new_record(
                instruction,
                *program_id,
                *rent_payer,
                vault_seeds(vault_name(), *rent_payer),
                cmd.operation(),
            ),
            Err(e) => e == Error::NoProgramAddress && found_program_address(
                vault_seeds(vault_name(), *rent_payer),
                program_id@,
            ) is None,
        },
{
    let name = "vault";
    proof {
        reveal_strlit("vault");
        vstd::string::is_ascii_spec_bytes(name);
        assert(name.spec_bytes() =~= vault_name());
    }
    match cmd {
        VaultCommand::CreateVault => CreateVault::build_instruction(program_id, rent_payer, name),
        VaultCommand::DepositToVault { amount } => DepositToVault::build_instruction(
            program_id,
            rent_payer,
            name,
            amount,
        ),
        VaultCommand::WithdrawFromVault { amount } => WithdrawFromVault::build_instruction(
            program_id,
            rent_payer,
            name,
            amount,
        ),
    }
}

} // verus!
