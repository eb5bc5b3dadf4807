//! Vaults: program-owned addresses that hold funds for their owner.
//!
//! A vault has no data of its own. Its address is derived from its name and
//! from its owner's identity, so the address itself records who owns it: only
//! the identity that the address was derived for can make the program sign
//! for it.

use crate::account::{AccountInfo, CreateAccount, Effect, ProgramError};
use crate::codec::{str_bytes, tail};
use crate::error::Error;
use crate::init::{addresses_new_record, new_record_instruction};
use crate::instruction::Instruction;
use crate::payload::{
    get_transfer, get_vault, parse_fields, put_transfer, put_vault, Payload, TAG_VAULT,
};
use crate::pda::{
    derives, find_program_address, found_program_address, seed_from, seed_views,
    verify_program_address, MAX_SEED_LEN,
};
use crate::pubkey::Pubkey;
use vstd::prelude::*;
use vstd::string::StringSliceAdditionalSpecFns;

verus! {

/// The balance that a new vault is given.
pub const VAULT_LAMPORTS: u64 = 1000;

/// The operations on vaults.
#[derive(Clone, Debug, PartialEq, Eq)]
pub enum SlqVaultInstruction {
    CreateVault(CreateVault),
    DepositToVault(DepositToVault),
    WithdrawFromVault(WithdrawFromVault),
}

/// Creates the payer's vault `vault_name`.
///
/// Accounts: the payer (signer, writable); the vault's derived address
/// (writable); the system program.
#[derive(Clone, Debug, PartialEq, Eq)]
pub struct CreateVault {
    pub vault_name: String,
    pub vault_bump_seed: u8,
}

/// Moves `amount` from the payer into the payer's vault `vault_name`.
///
/// Accounts: the payer (signer, writable); the vault's derived address
/// (writable); the system program.
#[derive(Clone, Debug, PartialEq, Eq)]
pub struct DepositToVault {
    pub vault_name: String,
    pub vault_bump_seed: u8,
    pub amount: u64,
}

/// Moves `amount` from the payer's vault `vault_name` back to the payer.
///
/// Accounts: the payer (signer, writable); the vault's derived address
/// (writable); the system program.
#[derive(Clone, Debug, PartialEq, Eq)]
pub struct WithdrawFromVault {
    pub vault_name: String,
    pub vault_bump_seed: u8,
    pub amount: u64,
}

/// The bytes of `"vault"`, the first seed of a vault's address.
pub open spec fn vault_tag() -> Seq<u8> {
    seq![118u8, 97u8, 117u8, 108u8, 116u8]
}

/// The seeds of the address of the vault named by `name` that `payer` owns.
pub open spec fn vault_seeds(name: Seq<u8>, payer: Pubkey) -> Seq<Seq<u8>> {
    seq![vault_tag(), name, payer@]
}

/// The seeds of the address of the vault `name` that `payer` owns.
pub fn vault_seed_list(payer: &Pubkey, name: &str) -> (seeds: Vec<Vec<u8>>)
    ensures
        seed_views(seeds@) == vault_seeds(name.spec_bytes(), *payer),
{
    let tag: Vec<u8> = vec![118u8, 97u8, 117u8, 108u8, 116u8];
    let mut seeds: Vec<Vec<u8>> = Vec::new();
    seeds.push(tag);
    seeds.push(seed_from(name.as_bytes()));
    seeds.push(seed_from(payer.bytes.as_slice()));
    proof {
        assert(seeds@[0]@ =~= vault_tag());
        assert(seed_views(seeds@) =~= vault_seeds(name.spec_bytes(), *payer));
    }
    seeds
}

/// Derives the address of the vault `name` that `payer` owns, and its bump.
///
/// There is none for a name of more than 32 bytes.
pub fn vault_pda(program_id: &Pubkey, payer: &Pubkey, name: &str) -> (found: Option<(Pubkey, u8)>)
    ensures
        match found {
            Some((address, bump)) => derives(
                vault_seeds(name.spec_bytes(), *payer),
                *program_id,
                address,
                bump,
            ),
            None => found_program_address(vault_seeds(name.spec_bytes(), *payer), program_id@)
                is None,
        },
        name.spec_bytes().len() > MAX_SEED_LEN ==> found is None,
{
    let seeds = vault_seed_list(payer, name);
    proof {
        if name.spec_bytes().len() > MAX_SEED_LEN {
            assert(seed_views(seeds@)[1].len() > MAX_SEED_LEN);
        }
    }
    find_program_address(&seeds, program_id)
}

/// The creation of the vault named by `name`, for each bump.
pub open spec fn create_operation(name: Seq<u8>) -> spec_fn(u8) -> Payload {
    |bump: u8| Payload::CreateVault { name, bump }
}

/// The deposit of `amount` into the vault named by `name`, for each bump.
pub open spec fn deposit_operation(name: Seq<u8>, amount: u64) -> spec_fn(u8) -> Payload {
    |bump: u8| Payload::DepositToVault { name, bump, amount }
}

/// The withdrawal of `amount` from the vault named by `name`, for each bump.
pub open spec fn withdraw_operation(name: Seq<u8>, amount: u64) -> spec_fn(u8) -> Payload {
    |bump: u8| Payload::WithdrawFromVault { name, bump, amount }
}

/// Why the program refuses an operation that makes it sign for the payer's
/// vault, if it does.
///
/// The checks come in this order: two accounts are named; the payer has
/// signed and is writable; the vault's address and bump are the ones
/// derived for the name and the payer.
pub open spec fn vault_refusal(
    name: Seq<u8>,
    bump: u8,
    program_id: Pubkey,
    accounts: Seq<AccountInfo>,
) -> Option<ProgramError> {
    if accounts.len() < 2 {
        Some(ProgramError::NotEnoughAccountKeys)
    } else if !accounts[0].is_signer {
        Some(ProgramError::MissingRequiredSignature)
    } else if !accounts[0].is_writable {
        Some(ProgramError::AccountNotWritable)
    } else if !derives(vault_seeds(name, accounts[0].key), program_id, accounts[1].key, bump) {
        Some(ProgramError::AddressMismatch)
    } else {
        None
    }
}

/// Tries the checks of [`vault_refusal`].
fn check_vault(
    vault_name: &String,
    bump: u8,
    program_id: &Pubkey,
    accounts: &[AccountInfo],
) -> (r: Result<(), ProgramError>)
    ensures
        match r {
            Ok(()) => vault_refusal(str_bytes(vault_name), bump, *program_id, accounts@) is None,
            Err(e) => vault_refusal(str_bytes(vault_name), bump, *program_id, accounts@) == Some(e),
        },
{
    if accounts.len() < 2 {
        return Err(ProgramError::NotEnoughAccountKeys);
    }
    let payer = &accounts[0];
    let vault = &accounts[1];
    if !payer.is_signer {
        return Err(ProgramError::MissingRequiredSignature);
    }
    if !payer.is_writable {
        return Err(ProgramError::AccountNotWritable);
    }
    let seeds = vault_seed_list(&payer.key, vault_name.as_str());
    if !verify_program_address(&seeds, program_id, &vault.key, bump) {
        return Err(ProgramError::AddressMismatch);
    }
    Ok(())
}

impl CreateVault {
    /// The operation as a mathematical value.
    pub open spec fn payload(&self) -> Payload {
        Payload::CreateVault { name: str_bytes(&self.vault_name), bump: self.vault_bump_seed }
    }

    /// Writes the operation's fields.
    pub fn put(&self, out: &mut Vec<u8>)
        requires
            self.payload().encodable(),
        ensures
            final(out)@ == old(out)@ + self.payload().fields(),
    {
        put_vault(out, self.vault_name.as_str(), self.vault_bump_seed);
    }

    /// Reads the operation's fields from position `pos`.
    pub fn get(data: &[u8], pos: usize) -> (r: Option<(CreateVault, usize)>)
        requires
            pos <= data.len(),
        ensures
            match r {
                Some((operation, next)) => next <= data.len() && parse_fields(
                    TAG_VAULT,
                    0,
                    tail(data@, pos as int),
                ) == Some((operation.payload(), tail(data@, next as int))),
                None => parse_fields(TAG_VAULT, 0, tail(data@, pos as int)) is None,
            },
    {
        match get_vault(data, pos) {
            Some(((vault_name, vault_bump_seed), next)) => Some(
                (CreateVault { vault_name, vault_bump_seed }, next),
            ),
            None => None,
        }
    }

    /// Builds the instruction that creates the payer's vault `vault_name`.
    /// There is none where no address can be derived for the name.
    pub fn build_instruction(
        program_id: &Pubkey,
        payer: &Pubkey,
        vault_name: &str,
    ) -> (r: Result<Instruction, Error>)
        ensures
            match r {
                Ok(instruction) => addresses_new_record(
                    instruction,
                    *program_id,
                    *payer,
                    vault_seeds(vault_name.spec_bytes(), *payer),
                    create_operation(vault_name.spec_bytes()),
                ),
                Err(e) => e == Error::NoProgramAddress && found_program_address(
                    vault_seeds(vault_name.spec_bytes(), *payer),
                    program_id@,
                ) is None,
            },
    {
        let (vault_pubkey, vault_bump_seed) = match vault_pda(program_id, payer, vault_name) {
            Some(found) => found,
            None => { return Err(Error::NoProgramAddress); },
        };
        proof {
            broadcast use vstd::utf8::encode_utf8_valid_utf8;
        }
        let mut data: Vec<u8> = Vec::new();
        data.push(TAG_VAULT);
        data.push(0);
        put_vault(&mut data, vault_name, vault_bump_seed);
        assert(data@ =~= create_operation(vault_name.spec_bytes())(vault_bump_seed).wire());
        Ok(new_record_instruction(program_id, payer, vault_pubkey, data))
    }

    /// Decides the operation on the accounts it names: where none of the
    /// checks of [`vault_refusal`] fails, the host is to allocate the vault's
    /// account, without data, under the program's ownership, with the
    /// balance [`VAULT_LAMPORTS`] paid by the payer.
    pub fn exec(
        &self,
        program_id: &Pubkey,
        accounts: &[AccountInfo],
    ) -> (r: Result<Effect, ProgramError>)
        ensures
            match r {
                Ok(effect) => {
                    &&& vault_refusal(
                        str_bytes(&self.vault_name),
                        self.vault_bump_seed,
                        *program_id,
                        accounts@,
                    ) is None
                    &&& effect == (Effect::CreateVault {
                        create: CreateAccount {
                            from: accounts@[0].key,
                            to: accounts@[1].key,
                            lamports: VAULT_LAMPORTS,
                            space: 0,
                            owner: *program_id,
                        },
                    })
                },
                Err(e) => vault_refusal(
                    str_bytes(&self.vault_name),
                    self.vault_bump_seed,
                    *program_id,
                    accounts@,
                ) == Some(e),
            },
    {
        match check_vault(&self.vault_name, self.vault_bump_seed, program_id, accounts) {
            Ok(()) => {},
            Err(e) => { return Err(e); },
        }
        Ok(
            Effect::CreateVault {
                create: CreateAccount {
                    from: accounts[0].key,
                    to: accounts[1].key,
                    lamports: VAULT_LAMPORTS,
                    space: 0,
                    owner: *program_id,
                },
            },
        )
    }
}

impl DepositToVault {
    /// The operation as a mathematical value.
    pub open spec fn payload(&self) -> Payload {
        Payload::DepositToVault {
            name: str_bytes(&self.vault_name),
            bump: self.vault_bump_seed,
            amount: self.amount,
        }
    }

    /// Writes the operation's fields.
    pub fn put(&self, out: &mut Vec<u8>)
        requires
            self.payload().encodable(),
        ensures
            final(out)@ == old(out)@ + self.payload().fields(),
    {
        put_transfer(out, self.vault_name.as_str(), self.vault_bump_seed, self.amount);
    }

    /// Reads the operation's fields from position `pos`.
    pub fn get(data: &[u8], pos: usize) -> (r: Option<(DepositToVault, usize)>)
        requires
            pos <= data.len(),
        ensures
            match r {
                Some((operation, next)) => next <= data.len() && parse_fields(
                    TAG_VAULT,
                    1,
                    tail(data@, pos as int),
                ) == Some((operation.payload(), tail(data@, next as int))),
                None => parse_fields(TAG_VAULT, 1, tail(data@, pos as int)) is None,
            },
    {
        match get_transfer(data, pos) {
            Some(((vault_name, vault_bump_seed, amount), next)) => Some(
                (DepositToVault { vault_name, vault_bump_seed, amount }, next),
            ),
            None => None,
        }
    }

    /// Builds the instruction that deposits `amount` into the payer's vault
    /// `vault_name`. There is none where no address can be derived for the
    /// name.
    pub fn build_instruction(
        program_id: &Pubkey,
        payer: &Pubkey,
        vault_name: &str,
        amount: u64,
    ) -> (r: Result<Instruction, Error>)
        ensures
            match r {
                Ok(instruction) => addresses_new_record(
                    instruction,
                    *program_id,
                    *payer,
                    vault_seeds(vault_name.spec_bytes(), *payer),
                    deposit_operation(vault_name.spec_bytes(), amount),
                ),
                Err(e) => e == Error::NoProgramAddress && found_program_address(
                    vault_seeds(vault_name.spec_bytes(), *payer),
                    program_id@,
                ) is None,
            },
    {
        let (vault_pubkey, vault_bump_seed) = match vault_pda(program_id, payer, vault_name) {
            Some(found) => found,
            None => { return Err(Error::NoProgramAddress); },
        };
        proof {
            broadcast use vstd::utf8::encode_utf8_valid_utf8;
        }
        let mut data: Vec<u8> = Vec::new();
        data.push(TAG_VAULT);
        data.push(1);
        put_transfer(&mut data, vault_name, vault_bump_seed, amount);
        assert(data@ =~= deposit_operation(vault_name.spec_bytes(), amount)(vault_bump_seed).wire());
        Ok(new_record_instruction(program_id, payer, vault_pubkey, data))
    }

    /// Why the program refuses the operation on these accounts, if it does:
    /// fewer than two accounts are named.
    pub open spec fn exec_refusal(&self, accounts: Seq<AccountInfo>) -> Option<ProgramError> {
        if accounts.len() < 2 {
            Some(ProgramError::NotEnoughAccountKeys)
        } else {
            None
        }
    }

    /// Decides the operation on the accounts it names: the host is to move
    /// the amount from the payer to the vault.
    pub fn exec(
        &self,
        program_id: &Pubkey,
        accounts: &[AccountInfo],
    ) -> (r: Result<Effect, ProgramError>)
        ensures
            match r {
                Ok(effect) => self.exec_refusal(accounts@) is None && effect == (Effect::Transfer {
                    from: accounts@[0].key,
                    to: accounts@[1].key,
                    lamports: self.amount,
                }),
                Err(e) => self.exec_refusal(accounts@) == Some(e),
            },
    {
        if accounts.len() < 2 {
            return Err(ProgramError::NotEnoughAccountKeys);
        }
        Ok(Effect::Transfer { from: accounts[0].key, to: accounts[1].key, lamports: self.amount })
    }
}

impl WithdrawFromVault {
    /// The operation as a mathematical value.
    pub open spec fn payload(&self) -> Payload {
        Payload::WithdrawFromVault {
            name: str_bytes(&self.vault_name),
            bump: self.vault_bump_seed,
            amount: self.amount,
        }
    }

    /// Writes the operation's fields.
    pub fn put(&self, out: &mut Vec<u8>)
        requires
            self.payload().encodable(),
        ensures
            final(out)@ == old(out)@ + self.payload().fields(),
    {
        put_transfer(out, self.vault_name.as_str(), self.vault_bump_seed, self.amount);
    }

    /// Reads the operation's fields from position `pos`.
    pub fn get(data: &[u8], pos: usize) -> (r: Option<(WithdrawFromVault, usize)>)
        requires
            pos <= data.len(),
        ensures
            match r {
                Some((operation, next)) => next <= data.len() && parse_fields(
                    TAG_VAULT,
                    2,
                    tail(data@, pos as int),
                ) == Some((operation.payload(), tail(data@, next as int))),
                None => parse_fields(TAG_VAULT, 2, tail(data@, pos as int)) is None,
            },
    {
        match get_transfer(data, pos) {
            Some(((vault_name, vault_bump_seed, amount), next)) => Some(
                (WithdrawFromVault { vault_name, vault_bump_seed, amount }, next),
            ),
            None => None,
        }
    }

    /// Builds the instruction that withdraws `amount` from the payer's vault
    /// `vault_name`. There is none where no address can be derived for the
    /// name.
    pub fn build_instruction(
        program_id: &Pubkey,
        payer: &Pubkey,
        vault_name: &str,
        amount: u64,
    ) -> (r: Result<Instruction, Error>)
        ensures
            match r {
                Ok(instruction) => addresses_new_record(
                    instruction,
                    *program_id,
                    *payer,
                    vault_seeds(vault_name.spec_bytes(), *payer),
                    withdraw_operation(vault_name.spec_bytes(), amount),
                ),
                Err(e) => e == Error::NoProgramAddress && found_program_address(
                    vault_seeds(vault_name.spec_bytes(), *payer),
                    program_id@,
                ) is None,
            },
    {
        let (vault_pubkey, vault_bump_seed) = match vault_pda(program_id, payer, vault_name) {
            Some(found) => found,
            None => { return Err(Error::NoProgramAddress); },
        };
        proof {
            broadcast use vstd::utf8::encode_utf8_valid_utf8;
        }
        let mut data: Vec<u8> = Vec::new();
        data.push(TAG_VAULT);
        data.push(2);
        put_transfer(&mut data, vault_name, vault_bump_seed, amount);
        assert(data@ =~= withdraw_operation(vault_name.spec_bytes(), amount)(
            vault_bump_seed,
        ).wire());
        Ok(new_record_instruction(program_id, payer, vault_pubkey, data))
    }

    /// Why the program refuses the operation on these accounts, if it does:
    /// for one of the reasons of [`vault_refusal`], which make sure that the
    /// payer is the vault's owner; because the vault is not owned by the
    /// program; or because the vault holds less than is asked for.
    pub open spec fn exec_refusal(
        &self,
        program_id: Pubkey,
        accounts: Seq<AccountInfo>,
    ) -> Option<ProgramError> {
        let common = vault_refusal(
            str_bytes(&self.vault_name),
            self.vault_bump_seed,
            program_id,
            accounts,
        );
        if common is Some {
            common
        } else if accounts[1].owner != program_id {
            Some(ProgramError::IncorrectProgramId)
        } else if accounts[1].lamports < self.amount {
            Some(ProgramError::InsufficientFunds)
        } else {
            None
        }
    }

    /// Decides the operation on the accounts it names: where it is accepted,
    /// the host is to move the amount from the vault to the payer. An
    /// accepted withdrawal never exceeds the vault's balance.
    pub fn exec(
        &self,
        program_id: &Pubkey,
        accounts: &[AccountInfo],
    ) -> (r: Result<Effect, ProgramError>)
        ensures
            match r {
                Ok(effect) => {
                    &&& self.exec_refusal(*program_id, accounts@) is None
                    &&& self.amount <= accounts@[1].lamports
                    &&& effect == (Effect::Transfer {
                        from: accounts@[1].key,
                        to: accounts@[0].key,
                        lamports: self.amount,
                    })
                },
                Err(e) => self.exec_refusal(*program_id, accounts@) == Some(e),
            },
    {
        match check_vault(&self.vault_name, self.vault_bump_seed, program_id, accounts) {
            Ok(()) => {},
            Err(e) => { return Err(e); },
        }
        let payer = &accounts[0];
        let vault = &accounts[1];
        if !vault.owner.same(program_id) {
            return Err(ProgramError::IncorrectProgramId);
        }
        if vault.lamports < self.amount {
            return Err(ProgramError::InsufficientFunds);
        }
        Ok(Effect::Transfer { from: vault.key, to: payer.key, lamports: self.amount })
    }
}

impl SlqVaultInstruction {
    /// The operation as a mathematical value.
    pub open spec fn payload(&self) -> Payload {
        match self {
            SlqVaultInstruction::CreateVault(operation) => operation.payload(),
            SlqVaultInstruction::DepositToVault(operation) => operation.payload(),
            SlqVaultInstruction::WithdrawFromVault(operation) => operation.payload(),
        }
    }

    /// Why the program refuses the operation on these accounts, if it does.
    pub open spec fn exec_refusal(
        &self,
        program_id: Pubkey,
        accounts: Seq<AccountInfo>,
    ) -> Option<ProgramError> {
        match self {
            SlqVaultInstruction::CreateVault(operation) => vault_refusal(
                str_bytes(&operation.vault_name),
                operation.vault_bump_seed,
                program_id,
                accounts,
            ),
            SlqVaultInstruction::DepositToVault(operation) => operation.exec_refusal(accounts),
            SlqVaultInstruction::WithdrawFromVault(operation) => operation.exec_refusal(
                program_id,
                accounts,
            ),
        }
    }

    /// What the host is to carry out where the operation is accepted.
    pub open spec fn exec_effect(&self, program_id: Pubkey, accounts: Seq<AccountInfo>) -> Effect {
        match self {
            SlqVaultInstruction::CreateVault(operation) => Effect::CreateVault {
                create: CreateAccount {
                    from: accounts[0].key,
                    to: accounts[1].key,
                    lamports: VAULT_LAMPORTS,
                    space: 0,
                    owner: program_id,
                },
            },
            SlqVaultInstruction::DepositToVault(operation) => Effect::Transfer {
                from: accounts[0].key,
                to: accounts[1].key,
                lamports: operation.amount,
            },
            SlqVaultInstruction::WithdrawFromVault(operation) => Effect::Transfer {
                from: accounts[1].key,
                to: accounts[0].key,
                lamports: operation.amount,
            },
        }
    }
}

/// Decides an operation of this subsystem on the accounts it names.
pub fn exec(
    program_id: &Pubkey,
    accounts: &[AccountInfo],
    instr: &SlqVaultInstruction,
) -> (r: Result<Effect, ProgramError>)
    ensures
        match r {
            Ok(effect) => instr.exec_refusal(*program_id, accounts@) is None && effect
                == instr.exec_effect(*program_id, accounts@),
            Err(e) => instr.exec_refusal(*program_id, accounts@) == Some(e),
        },
{
    match instr {
        SlqVaultInstruction::CreateVault(operation) => operation.exec(program_id, accounts),
        SlqVaultInstruction::DepositToVault(operation) => operation.exec(program_id, accounts),
        SlqVaultInstruction::WithdrawFromVault(operation) => operation.exec(program_id, accounts),
    }
}

} // verus!
