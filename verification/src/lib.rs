//! Threshold-governed custody on a ledger: a set of administrators jointly
//! controls a configuration record and the movement of funds, subject to an
//! approval threshold, and signs transactions one party after the other.

pub mod account;
pub mod admin;
pub mod client;
pub mod codec;
pub mod error;
pub mod init;
pub mod instruction;
pub mod multisig;
pub mod nonce;
pub mod payload;
pub mod pda;
pub mod pubkey;
pub mod rules;
pub mod state;
pub mod system_instruction;
pub mod text;
pub mod transaction;
pub mod vault;

use crate::account::{AccountInfo, Effect, ProgramError, RentMinimums};
use crate::admin::{
    record_found, AddAdminAccountAdmin, ChangeApprovalThresholdAdmin, RemoveAdminAccountAdmin,
    SlqAdminInstruction,
};
use crate::codec::{get_u8, tail};
use crate::init::SlqInitializeInstanceInstruction;
use crate::multisig::SlqMultisigInstruction;
use crate::nonce::{SlqNonceInstruction, WithdrawNonceAccount};
use crate::payload::{
    parse, Payload, TAG_ADMIN, TAG_INITIALIZE_INSTANCE, TAG_MULTISIG, TAG_NONCE, TAG_VAULT,
};
use crate::pubkey::Pubkey;
use crate::vault::{CreateVault, DepositToVault, SlqVaultInstruction, WithdrawFromVault};
use vstd::prelude::*;

verus! {

/// An instruction for the program: one operation of one of its subsystems.
#[derive(Clone, Debug, PartialEq, Eq)]
pub enum SlqInstruction {
    InitializeInstance(SlqInitializeInstanceInstruction),
    Admin(SlqAdminInstruction),
    Vault(SlqVaultInstruction),
    Multisig(SlqMultisigInstruction),
    Nonce(SlqNonceInstruction),
}

impl SlqInstruction {
    /// The instruction as a mathematical value.
    pub open spec fn payload(&self) -> Payload {
        match self {
            SlqInstruction::InitializeInstance(SlqInitializeInstanceInstruction::Init(init)) => {
                init.payload()
            },
            SlqInstruction::Admin(operation) => operation.payload(),
            SlqInstruction::Vault(operation) => operation.payload(),
            SlqInstruction::Multisig(operation) => operation.payload(),
            SlqInstruction::Nonce(operation) => operation.payload(),
        }
    }

    /// Whether `r` is the program's answer to the instruction on these
    /// accounts: the refusal that the operation's checks give, or the effect
    /// of the accepted operation.
    pub open spec fn decides(
        &self,
        program_id: Pubkey,
        accounts: Seq<AccountInfo>,
        rent: RentMinimums,
        r: Result<Effect, ProgramError>,
    ) -> bool {
        match self {
            SlqInstruction::InitializeInstance(SlqInitializeInstanceInstruction::Init(init)) => {
                match r {
                    Ok(effect) => init.exec_refusal(program_id, accounts, rent.instance) is None
                        && init.exec_effect(program_id, accounts, rent.instance, effect),
                    Err(e) => init.exec_refusal(program_id, accounts, rent.instance) == Some(e),
                }
            },
            SlqInstruction::Admin(operation) => match r {
                Ok(effect) => {
                    &&& operation.exec_refusal(program_id, accounts) is None
                    &&& effect matches Effect::StoreInstance { instance }
                    &&& operation.applied(record_found(accounts), instance.admin_config)
                },
                Err(e) => operation.exec_refusal(program_id, accounts) == Some(e),
            },
            SlqInstruction::Vault(operation) => match r {
                Ok(effect) => operation.exec_refusal(program_id, accounts) is None && effect
                    == operation.exec_effect(program_id, accounts),
                Err(e) => operation.exec_refusal(program_id, accounts) == Some(e),
            },
            SlqInstruction::Multisig(operation) => match r {
                Ok(effect) => operation.exec_refusal(program_id, accounts, rent.multisig) is None
                    && operation.exec_effect(program_id, accounts, rent.multisig, effect),
                Err(e) => operation.exec_refusal(program_id, accounts, rent.multisig) == Some(e),
            },
            SlqInstruction::Nonce(SlqNonceInstruction::Withdraw(operation)) => match r {
                Ok(effect) => operation.exec_refusal(accounts) is None && effect
                    == (Effect::WithdrawNonce {
                    nonce: operation.nonce_pubkey,
                    authority: accounts[0].key,
                    to: accounts[0].key,
                    lamports: rent.nonce,
                }),
                Err(e) => operation.exec_refusal(accounts) == Some(e),
            },
        }
    }

    /// The seeds with which the program signs for the derived address that
    /// the instruction is about, bump included; none for an instruction that
    /// is about no derived address. `payer` is the first account that the
    /// instruction names.
    pub open spec fn spec_signer_seeds(&self, payer: Pubkey) -> Option<Seq<Seq<u8>>> {
        match self {
            SlqInstruction::InitializeInstance(SlqInitializeInstanceInstruction::Init(init)) => {
                Some(
                    crate::init::instance_seeds(crate::codec::str_bytes(&init.instance_name)).push(
                        seq![init.instance_pda_bump_seed],
                    ),
                )
            },
            SlqInstruction::Admin(SlqAdminInstruction::ChangeApprovalThreshold(operation)) => {
                Some(
                    crate::init::instance_seeds(
                        crate::codec::str_bytes(&operation.instance_name),
                    ).push(seq![operation.instance_pda_bump_seed]),
                )
            },
            SlqInstruction::Admin(SlqAdminInstruction::AddAdminAccount(operation)) => {
                Some(
                    crate::init::instance_seeds(
                        crate::codec::str_bytes(&operation.instance_name),
                    ).push(seq![operation.instance_pda_bump_seed]),
                )
            },
            SlqInstruction::Admin(SlqAdminInstruction::RemoveAdminAccount(operation)) => {
                Some(
                    crate::init::instance_seeds(
                        crate::codec::str_bytes(&operation.instance_name),
                    ).push(seq![operation.instance_pda_bump_seed]),
                )
            },
            SlqInstruction::Vault(SlqVaultInstruction::CreateVault(operation)) => {
                Some(
                    crate::vault::vault_seeds(
                        crate::codec::str_bytes(&operation.vault_name),
                        payer,
                    ).push(seq![operation.vault_bump_seed]),
                )
            },
            SlqInstruction::Vault(SlqVaultInstruction::DepositToVault(operation)) => {
                Some(
                    crate::vault::vault_seeds(
                        crate::codec::str_bytes(&operation.vault_name),
                        payer,
                    ).push(seq![operation.vault_bump_seed]),
                )
            },
            SlqInstruction::Vault(SlqVaultInstruction::WithdrawFromVault(operation)) => {
                Some(
                    crate::vault::vault_seeds(
                        crate::codec::str_bytes(&operation.vault_name),
                        payer,
                    ).push(seq![operation.vault_bump_seed]),
                )
            },
            SlqInstruction::Multisig(SlqMultisigInstruction::Init(init)) => {
                Some(
                    crate::multisig::multisig_seeds(
                        crate::codec::str_bytes(&init.instance_name),
                    ).push(seq![init.instance_pda_bump_seed]),
                )
            },
            SlqInstruction::Nonce(_) => None,
        }
    }

    /// The seeds with which the program signs for the derived address that
    /// the instruction is about.
    pub fn signer_seeds(&self, payer: &Pubkey) -> (seeds: Option<Vec<Vec<u8>>>)
        ensures
            match seeds {
                Some(list) => self.spec_signer_seeds(*payer) == Some(
                    crate::pda::seed_views(list@),
                ),
                None => self.spec_signer_seeds(*payer) is None,
            },
    {
        match self {
            SlqInstruction::InitializeInstance(SlqInitializeInstanceInstruction::Init(init)) => {
                Some(
                    crate::pda::signer_seeds(
                        crate::init::instance_seed_list(init.instance_name.as_str()),
                        init.instance_pda_bump_seed,
                    ),
                )
            },
            SlqInstruction::Admin(SlqAdminInstruction::ChangeApprovalThreshold(operation)) => {
                Some(
                    crate::pda::signer_seeds(
                        crate::init::instance_seed_list(operation.instance_name.as_str()),
                        operation.instance_pda_bump_seed,
                    ),
                )
            },
            SlqInstruction::Admin(SlqAdminInstruction::AddAdminAccount(operation)) => {
                Some(
                    crate::pda::signer_seeds(
                        crate::init::instance_seed_list(operation.instance_name.as_str()),
                        operation.instance_pda_bump_seed,
                    ),
                )
            },
            SlqInstruction::Admin(SlqAdminInstruction::RemoveAdminAccount(operation)) => {
                Some(
                    crate::pda::signer_seeds(
                        crate::init::instance_seed_list(operation.instance_name.as_str()),
                        operation.instance_pda_bump_seed,
                    ),
                )
            },
            SlqInstruction::Vault(SlqVaultInstruction::CreateVault(operation)) => {
                Some(
                    crate::pda::signer_seeds(
                        crate::vault::vault_seed_list(payer, operation.vault_name.as_str()),
                        operation.vault_bump_seed,
                    ),
                )
            },
            SlqInstruction::Vault(SlqVaultInstruction::DepositToVault(operation)) => {
                Some(
                    crate::pda::signer_seeds(
                        crate::vault::vault_seed_list(payer, operation.vault_name.as_str()),
                        operation.vault_bump_seed,
                    ),
                )
            },
            SlqInstruction::Vault(SlqVaultInstruction::WithdrawFromVault(operation)) => {
                Some(
                    crate::pda::signer_seeds(
                        crate::vault::vault_seed_list(payer, operation.vault_name.as_str()),
                        operation.vault_bump_seed,
                    ),
                )
            },
            SlqInstruction::Multisig(SlqMultisigInstruction::Init(init)) => {
                Some(
                    crate::pda::signer_seeds(
                        crate::multisig::multisig_seed_list(init.instance_name.as_str()),
                        init.instance_pda_bump_seed,
                    ),
                )
            },
            SlqInstruction::Nonce(_) => None,
        }
    }

    /// Whether the instruction can be written: the name, and the list of
    /// keys where there is one, are no longer than a 32-bit length can say.
    pub fn encodable(&self) -> (fits: bool)
        ensures
            fits == self.payload().encodable(),
    {
        proof {
            broadcast use vstd::utf8::encode_utf8_valid_utf8;
        }
        let limit: usize = 0xffff_ffff;
        match self {
            SlqInstruction::InitializeInstance(SlqInitializeInstanceInstruction::Init(init)) => {
                assert(crate::codec::all_key_sized(crate::codec::key_views(init.admin_accounts@)));
                init.instance_name.as_str().as_bytes().len() <= limit && init.admin_accounts.len() <= limit
            },
            SlqInstruction::Admin(SlqAdminInstruction::ChangeApprovalThreshold(operation)) => {
                operation.instance_name.as_str().as_bytes().len() <= limit
            },
            SlqInstruction::Admin(SlqAdminInstruction::AddAdminAccount(operation)) => {
                operation.instance_name.as_str().as_bytes().len() <= limit
            },
            SlqInstruction::Admin(SlqAdminInstruction::RemoveAdminAccount(operation)) => {
                operation.instance_name.as_str().as_bytes().len() <= limit
            },
            SlqInstruction::Vault(SlqVaultInstruction::CreateVault(operation)) => {
                operation.vault_name.as_str().as_bytes().len() <= limit
            },
            SlqInstruction::Vault(SlqVaultInstruction::DepositToVault(operation)) => {
                operation.vault_name.as_str().as_bytes().len() <= limit
            },
            SlqInstruction::Vault(SlqVaultInstruction::WithdrawFromVault(operation)) => {
                operation.vault_name.as_str().as_bytes().len() <= limit
            },
            SlqInstruction::Multisig(SlqMultisigInstruction::Init(init)) => {
                assert(crate::codec::all_key_sized(crate::codec::key_views(init.owners@)));
                init.instance_name.as_str().as_bytes().len() <= limit && init.owners.len() <= limit
            },
            SlqInstruction::Nonce(SlqNonceInstruction::Withdraw(operation)) => true,
        }
    }

    /// The instruction on the wire. There is none for an instruction that
    /// cannot be written.
    pub fn try_to_vec(&self) -> (written: Option<Vec<u8>>)
        ensures
            match written {
                Some(bytes) => self.payload().encodable() && bytes@ == self.payload().wire(),
                None => !self.payload().encodable(),
            },
    {
        if !self.encodable() {
            return None;
        }
        let mut bytes: Vec<u8> = Vec::new();
        match self {
            SlqInstruction::InitializeInstance(SlqInitializeInstanceInstruction::Init(init)) => {
                bytes.push(TAG_INITIALIZE_INSTANCE);
                bytes.push(0);
                init.put(&mut bytes);
            },
            SlqInstruction::Admin(SlqAdminInstruction::ChangeApprovalThreshold(operation)) => {
                bytes.push(TAG_ADMIN);
                bytes.push(0);
                operation.put(&mut bytes);
            },
            SlqInstruction::Admin(SlqAdminInstruction::AddAdminAccount(operation)) => {
                bytes.push(TAG_ADMIN);
                bytes.push(1);
                operation.put(&mut bytes);
            },
            SlqInstruction::Admin(SlqAdminInstruction::RemoveAdminAccount(operation)) => {
                bytes.push(TAG_ADMIN);
                bytes.push(2);
                operation.put(&mut bytes);
            },
            SlqInstruction::Vault(SlqVaultInstruction::CreateVault(operation)) => {
                bytes.push(TAG_VAULT);
                bytes.push(0);
                operation.put(&mut bytes);
            },
            SlqInstruction::Vault(SlqVaultInstruction::DepositToVault(operation)) => {
                bytes.push(TAG_VAULT);
                bytes.push(1);
                operation.put(&mut bytes);
            },
            SlqInstruction::Vault(SlqVaultInstruction::WithdrawFromVault(operation)) => {
                bytes.push(TAG_VAULT);
                bytes.push(2);
                operation.put(&mut bytes);
            },
            SlqInstruction::Multisig(SlqMultisigInstruction::Init(init)) => {
                bytes.push(TAG_MULTISIG);
                bytes.push(0);
                init.put(&mut bytes);
            },
            SlqInstruction::Nonce(SlqNonceInstruction::Withdraw(operation)) => {
                bytes.push(TAG_NONCE);
                bytes.push(0);
                operation.put(&mut bytes);
            },
        }
        assert(bytes@ =~= self.payload().wire());
        Some(bytes)
    }

    /// Reads one instruction from the front of `data`. Bytes behind it are
    /// left unread. There is no instruction where a tag names no operation,
    /// where a field is cut short, or where a name is not UTF-8.
    pub fn deserialize(data: &[u8]) -> (r: Option<SlqInstruction>)
        ensures
            match r {
                Some(instruction) => parse(data@) matches Some((payload, rest))
                    && instruction.payload() == payload,
                None => parse(data@) is None,
            },
    {
        assert(tail(data@, 0) =~= data@);
        let (outer, pos) = match get_u8(data, 0) {
            Some(field) => field,
            None => { return None; },
        };
        let (inner, pos) = match get_u8(data, pos) {
            Some(field) => field,
            None => { return None; },
        };
        if outer == TAG_INITIALIZE_INSTANCE && inner == 0 {
            match crate::init::Init::get(data, pos) {
                Some((init, _)) => Some(
                    SlqInstruction::InitializeInstance(SlqInitializeInstanceInstruction::Init(init)),
                ),
                None => None,
            }
        } else if outer == TAG_ADMIN && inner == 0 {
            match ChangeApprovalThresholdAdmin::get(data, pos) {
                Some((operation, _)) => Some(
                    SlqInstruction::Admin(SlqAdminInstruction::ChangeApprovalThreshold(operation)),
                ),
                None => None,
            }
        } else if outer == TAG_ADMIN && inner == 1 {
            match AddAdminAccountAdmin::get(data, pos) {
                Some((operation, _)) => Some(
                    SlqInstruction::Admin(SlqAdminInstruction::AddAdminAccount(operation)),
                ),
                None => None,
            }
        } else if outer == TAG_ADMIN && inner == 2 {
            match RemoveAdminAccountAdmin::get(data, pos) {
                Some((operation, _)) => Some(
                    SlqInstruction::Admin(SlqAdminInstruction::RemoveAdminAccount(operation)),
                ),
                None => None,
            }
        } else if outer == TAG_VAULT && inner == 0 {
            match CreateVault::get(data, pos) {
                Some((operation, _)) => Some(
                    SlqInstruction::Vault(SlqVaultInstruction::CreateVault(operation)),
                ),
                None => None,
            }
        } else if outer == TAG_VAULT && inner == 1 {
            match DepositToVault::get(data, pos) {
                Some((operation, _)) => Some(
                    SlqInstruction::Vault(SlqVaultInstruction::DepositToVault(operation)),
                ),
                None => None,
            }
        } else if outer == TAG_VAULT && inner == 2 {
            match WithdrawFromVault::get(data, pos) {
                Some((operation, _)) => Some(
                    SlqInstruction::Vault(SlqVaultInstruction::WithdrawFromVault(operation)),
                ),
                None => None,
            }
        } else if outer == TAG_MULTISIG && inner == 0 {
            match crate::multisig::Init::get(data, pos) {
                Some((init, _)) => Some(
                    SlqInstruction::Multisig(SlqMultisigInstruction::Init(init)),
                ),
                None => None,
            }
        } else if outer == TAG_NONCE && inner == 0 {
            match WithdrawNonceAccount::get(data, pos) {
                Some((operation, _)) => Some(
                    SlqInstruction::Nonce(SlqNonceInstruction::Withdraw(operation)),
                ),
                None => None,
            }
        } else {
            None
        }
    }
}

/// Writing an instruction and reading the bytes gives an instruction with
/// the same value, whatever follows the bytes.
pub proof fn lemma_instruction_round_trip(instruction: SlqInstruction, rest: Seq<u8>)
    requires
        instruction.payload().encodable(),
    ensures
        parse(instruction.payload().wire() + rest) == Some((instruction.payload(), rest)),
{
    crate::payload::lemma_parse_wire(instruction.payload(), rest);
}

/// Decides an instruction on the accounts it names, by the rules of its
/// subsystem.
pub fn dispatch(
    program_id: &Pubkey,
    accounts: &[AccountInfo],
    instruction: &SlqInstruction,
    rent: &RentMinimums,
) -> (r: Result<Effect, ProgramError>)
    ensures
        instruction.decides(*program_id, accounts@, *rent, r),
{
    match instruction {
        SlqInstruction::InitializeInstance(operation) => crate::init::exec(
            program_id,
            accounts,
            operation,
            rent.instance,
        ),
        SlqInstruction::Admin(operation) => crate::admin::exec(program_id, accounts, operation),
        SlqInstruction::Vault(operation) => crate::vault::exec(program_id, accounts, operation),
        SlqInstruction::Multisig(operation) => crate::multisig::exec(
            program_id,
            accounts,
            operation,
            rent.multisig,
        ),
        SlqInstruction::Nonce(operation) => crate::nonce::exec(
            program_id,
            accounts,
            operation,
            rent.nonce,
        ),
    }
}

/// The program's entry: reads the instruction from `instruction_data` and
/// decides it on the accounts it names.
///
/// Data that is no instruction is refused as such. Any other answer is the
/// one that the instruction read from the data decides.
pub fn process_instruction(
    program_id: &Pubkey,
    accounts: &[AccountInfo],
    instruction_data: &[u8],
    rent: &RentMinimums,
) -> (r: Result<Effect, ProgramError>)
    ensures
        match parse(instruction_data@) {
            Some((payload, rest)) => exists|instruction: SlqInstruction|
                instruction.payload() == payload && #[trigger] instruction.decides(
                    *program_id,
                    accounts@,
                    *rent,
                    r,
                ),
            None => r == Err::<Effect, ProgramError>(ProgramError::InvalidInstructionData),
        },
{
    let instruction = match SlqInstruction::deserialize(instruction_data) {
        Some(instruction) => instruction,
        None => { return Err(ProgramError::InvalidInstructionData); },
    };
    dispatch(program_id, accounts, &instruction, rent)
}

} // verus!
