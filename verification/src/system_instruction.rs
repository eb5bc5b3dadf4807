//! Instructions for the system program, the ledger's generic allocator:
//! allocation of accounts, transfers, and the care of nonce records.
//!
//! The instructions are built by the ledger library. What this module states
//! of each is what the ledger library's source shows: the accounts it names
//! and its data, which is a 32-bit tag followed by the operation's fields.

use crate::instruction::{AccountMeta, Instruction, InstructionView};
use crate::pubkey::Pubkey;
use solana_program::pubkey::Pubkey as Address;
use vstd::bytes::{spec_u32_to_le_bytes, spec_u64_to_le_bytes};
use vstd::prelude::*;

verus! {

/// Bytes that a nonce record takes in storage.
pub const NONCE_STATE_SIZE: u64 = 80;

/// The address of the register of recent blockhashes.
pub open spec fn recent_blockhashes_id() -> Seq<u8> {
    seq![
        6u8, 167u8, 213u8, 23u8, 25u8, 44u8, 86u8, 142u8, 224u8, 138u8, 132u8, 95u8, 115u8, 210u8,
        151u8, 136u8, 207u8, 3u8, 92u8, 49u8, 69u8, 178u8, 26u8, 179u8, 68u8, 216u8, 6u8, 46u8,
        169u8, 64u8, 0u8, 0u8,
    ]
}

/// The address of the register of rent.
pub open spec fn rent_id() -> Seq<u8> {
    seq![
        6u8, 167u8, 213u8, 23u8, 25u8, 44u8, 92u8, 81u8, 33u8, 140u8, 201u8, 76u8, 61u8, 74u8,
        241u8, 127u8, 88u8, 218u8, 238u8, 8u8, 155u8, 161u8, 253u8, 68u8, 227u8, 219u8, 217u8,
        138u8, 0u8, 0u8, 0u8, 0u8,
    ]
}

/// Whether `meta` names the account at `key` with these capabilities.
pub open spec fn names(
    meta: AccountMeta,
    key: Seq<u8>,
    is_signer: bool,
    is_writable: bool,
) -> bool {
    meta.pubkey@ == key && meta.is_signer == is_signer && meta.is_writable == is_writable
}

/// Whether `instruction` allocates the account `to` with `lamports` and
/// `space` bytes under the ownership of `owner`, paid by `from`.
pub open spec fn is_create_account(
    instruction: InstructionView,
    from: Pubkey,
    to: Pubkey,
    lamports: u64,
    space: u64,
    owner: Pubkey,
) -> bool {
    &&& instruction.program_id == Pubkey::system_program()
    &&& instruction.accounts == seq![
        AccountMeta::spec_new(from, true),
        AccountMeta::spec_new(to, true),
    ]
    &&& instruction.data == spec_u32_to_le_bytes(0) + spec_u64_to_le_bytes(lamports)
        + spec_u64_to_le_bytes(space) + owner@
}

/// Whether `instruction` moves `lamports` from `from` to `to`.
pub open spec fn is_transfer(
    instruction: InstructionView,
    from: Pubkey,
    to: Pubkey,
    lamports: u64,
) -> bool {
    &&& instruction.program_id == Pubkey::system_program()
    &&& instruction.accounts == seq![
        AccountMeta::spec_new(from, true),
        AccountMeta::spec_new(to, false),
    ]
    &&& instruction.data == spec_u32_to_le_bytes(2) + spec_u64_to_le_bytes(lamports)
}

/// Whether `instruction` withdraws `lamports` from the nonce record `nonce`
/// into `to`, on the authority of `authority`.
pub open spec fn is_withdraw_nonce(
    instruction: InstructionView,
    nonce: Pubkey,
    authority: Pubkey,
    to: Pubkey,
    lamports: u64,
) -> bool {
    &&& instruction.program_id == Pubkey::system_program()
    &&& instruction.accounts.len() == 5
    &&& instruction.accounts[0] == AccountMeta::spec_new(nonce, false)
    &&& instruction.accounts[1] == AccountMeta::spec_new(to, false)
    &&& names(instruction.accounts[2], recent_blockhashes_id(), false, false)
    &&& names(instruction.accounts[3], rent_id(), false, false)
    &&& instruction.accounts[4] == AccountMeta::spec_new_readonly(authority, true)
    &&& instruction.data == spec_u32_to_le_bytes(5) + spec_u64_to_le_bytes(lamports)
}

/// Whether `instruction` makes the account `nonce` a nonce record under the
/// authority of `authority`.
pub open spec fn is_initialize_nonce(
    instruction: InstructionView,
    nonce: Pubkey,
    authority: Pubkey,
) -> bool {
    &&& instruction.program_id == Pubkey::system_program()
    &&& instruction.accounts.len() == 3
    &&& instruction.accounts[0] == AccountMeta::spec_new(nonce, false)
    &&& names(instruction.accounts[1], recent_blockhashes_id(), false, false)
    &&& names(instruction.accounts[2], rent_id(), false, false)
    &&& instruction.data == spec_u32_to_le_bytes(6) + authority@
}

/// Whether `instruction` advances the nonce record `nonce` on the authority
/// of `authority`.
pub open spec fn is_advance_nonce(
    instruction: InstructionView,
    nonce: Pubkey,
    authority: Pubkey,
) -> bool {
    &&& instruction.program_id == Pubkey::system_program()
    &&& instruction.accounts.len() == 3
    &&& instruction.accounts[0] == AccountMeta::spec_new(nonce, false)
    &&& names(instruction.accounts[1], recent_blockhashes_id(), false, false)
    &&& instruction.accounts[2] == AccountMeta::spec_new_readonly(authority, true)
    &&& instruction.data == spec_u32_to_le_bytes(4)
}

/// `system_instruction::advance_nonce_account` of the ledger library.
#[verifier::external_body]
pub(crate) fn advance_nonce_account(
    nonce: &Pubkey,
    authority: &Pubkey,
) -> (instruction: Instruction)
    ensures
        is_advance_nonce(instruction@, *nonce, *authority),
{
    let built = solana_program::system_instruction::advance_nonce_account(
        &Address::new_from_array(nonce.bytes),
        &Address::new_from_array(authority.bytes),
    );
    let accounts = built.accounts.iter().map(
        |m| AccountMeta { pubkey: Pubkey { bytes: m.pubkey.to_bytes() }, is_signer: m.is_signer, is_writable: m.is_writable },
    ).collect();
    Instruction { program_id: Pubkey { bytes: built.program_id.to_bytes() }, accounts, data: built.data }
}

/// `system_instruction::create_account` of the ledger library.
#[verifier::external_body]
pub(crate) fn create_account(
    from: &Pubkey,
    to: &Pubkey,
    lamports: u64,
    space: u64,
    owner: &Pubkey,
) -> (instruction: Instruction)
    ensures
        is_create_account(instruction@, *from, *to, lamports, space, *owner),
{
    let built = solana_program::system_instruction::create_account(
        &Address::new_from_array(from.bytes),
        &Address::new_from_array(to.bytes),
        lamports,
        space,
        &Address::new_from_array(owner.bytes),
    );
    let accounts = built.accounts.iter().map(
        |m| AccountMeta { pubkey: Pubkey { bytes: m.pubkey.to_bytes() }, is_signer: m.is_signer, is_writable: m.is_writable },
    ).collect();
    Instruction { program_id: Pubkey { bytes: built.program_id.to_bytes() }, accounts, data: built.data }
}

/// `system_instruction::transfer` of the ledger library.
#[verifier::external_body]
pub(crate) fn transfer(from: &Pubkey, to: &Pubkey, lamports: u64) -> (instruction: Instruction)
    ensures
        is_transfer(instruction@, *from, *to, lamports),
{
    let built = solana_program::system_instruction::transfer(
        &Address::new_from_array(from.bytes),
        &Address::new_from_array(to.bytes),
        lamports,
    );
    let accounts = built.accounts.iter().map(
        |m| AccountMeta { pubkey: Pubkey { bytes: m.pubkey.to_bytes() }, is_signer: m.is_signer, is_writable: m.is_writable },
    ).collect();
    Instruction { program_id: Pubkey { bytes: built.program_id.to_bytes() }, accounts, data: built.data }
}

/// `system_instruction::withdraw_nonce_account` of the ledger library.
#[verifier::external_body]
pub(crate) fn withdraw_nonce_account(
    nonce: &Pubkey,
    authority: &Pubkey,
    to: &Pubkey,
    lamports: u64,
) -> (instruction: Instruction)
    ensures
        is_withdraw_nonce(instruction@, *nonce, *authority, *to, lamports),
{
    let built = solana_program::system_instruction::withdraw_nonce_account(
        &Address::new_from_array(nonce.bytes),
        &Address::new_from_array(authority.bytes),
        &Address::new_from_array(to.bytes),
        lamports,
    );
    let accounts = built.accounts.iter().map(
        |m| AccountMeta { pubkey: Pubkey { bytes: m.pubkey.to_bytes() }, is_signer: m.is_signer, is_writable: m.is_writable },
    ).collect();
    Instruction { program_id: Pubkey { bytes: built.program_id.to_bytes() }, accounts, data: built.data }
}

/// `system_instruction::create_nonce_account` of the ledger library: the
/// allocation of the record, owned by the system program, and its
/// initialization.
#[verifier::external_body]
pub(crate) fn create_nonce_account(
    from: &Pubkey,
    nonce: &Pubkey,
    authority: &Pubkey,
    lamports: u64,
) -> (instructions: Vec<Instruction>)
    ensures
        instructions@.len() == 2,
        is_create_account(
            instructions@[0]@,
            *from,
            *nonce,
            lamports,
            NONCE_STATE_SIZE,
            Pubkey::system_program(),
        ),
        is_initialize_nonce(instructions@[1]@, *nonce, *authority),
{
    let built = solana_program::system_instruction::create_nonce_account(
        &Address::new_from_array(from.bytes),
        &Address::new_from_array(nonce.bytes),
        &Address::new_from_array(authority.bytes),
        lamports,
    );
    built.into_iter().map(|i| Instruction {
        program_id: Pubkey { bytes: i.program_id.to_bytes() },
        accounts: i.accounts.iter().map(
            |m| AccountMeta { pubkey: Pubkey { bytes: m.pubkey.to_bytes() }, is_signer: m.is_signer, is_writable: m.is_writable },
        ).collect(),
        data: i.data,
    }).collect()
}

} // verus!
