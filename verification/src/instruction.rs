//! Instructions as the ledger takes them: a program, the accounts it may
//! touch, and opaque data for the program.

use crate::pubkey::Pubkey;
use vstd::prelude::*;

verus! {

/// One account that an instruction names, with what the instruction may do to it.
#[derive(Clone, Copy, Debug, PartialEq, Eq)]
pub struct AccountMeta {
    pub pubkey: Pubkey,
    pub is_signer: bool,
    pub is_writable: bool,
}

impl AccountMeta {
    /// A writable account.
    pub open spec fn spec_new(pubkey: Pubkey, is_signer: bool) -> AccountMeta {
        AccountMeta { pubkey, is_signer, is_writable: true }
    }

    /// A read-only account.
    pub open spec fn spec_new_readonly(pubkey: Pubkey, is_signer: bool) -> AccountMeta {
        AccountMeta { pubkey, is_signer, is_writable: false }
    }

    /// A writable account.
    pub fn new(pubkey: Pubkey, is_signer: bool) -> (meta: AccountMeta)
        ensures
            meta == AccountMeta::spec_new(pubkey, is_signer),
    {
        AccountMeta { pubkey, is_signer, is_writable: true }
    }

    /// A read-only account.
    pub fn new_readonly(pubkey: Pubkey, is_signer: bool) -> (meta: AccountMeta)
        ensures
            meta == AccountMeta::spec_new_readonly(pubkey, is_signer),
    {
        AccountMeta { pubkey, is_signer, is_writable: false }
    }
}

/// An instruction for the program `program_id`.
#[derive(Clone, Debug, PartialEq, Eq)]
pub struct Instruction {
    pub program_id: Pubkey,
    pub accounts: Vec<AccountMeta>,
    pub data: Vec<u8>,
}

/// An instruction as a mathematical value.
pub struct InstructionView {
    pub program_id: Pubkey,
    pub accounts: Seq<AccountMeta>,
    pub data: Seq<u8>,
}

impl View for Instruction {
    type V = InstructionView;

    open spec fn view(&self) -> InstructionView {
        InstructionView { program_id: self.program_id, accounts: self.accounts@, data: self.data@ }
    }
}

/// Whether the instruction is for `program_id`, names `accounts` and carries
/// exactly `data`.
pub open spec fn carries(
    instruction: InstructionView,
    program_id: Pubkey,
    accounts: Seq<AccountMeta>,
    data: Seq<u8>,
) -> bool {
    &&& instruction.program_id == program_id
    &&& instruction.accounts == accounts
    &&& instruction.data == data
}

/// The views of a list of instructions.
pub open spec fn instruction_views(list: Seq<Instruction>) -> Seq<InstructionView> {
    list.map_values(|instruction: Instruction| instruction@)
}

impl Instruction {
    /// Copies the instruction.
    pub fn duplicate(&self) -> (copy: Instruction)
        ensures
            copy@ == self@,
    {
        let mut accounts: Vec<AccountMeta> = Vec::new();
        let mut i: usize = 0;
        while i < self.accounts.len()
            invariant
                i <= self.accounts.len(),
                accounts@ == self.accounts@.take(i as int),
            decreases self.accounts.len() - i,
        {
            accounts.push(self.accounts[i]);
            assert(self.accounts@.take(i + 1) =~= self.accounts@.take(i as int).push(
                self.accounts@[i as int],
            ));
            i += 1;
        }
        assert(self.accounts@.take(i as int) =~= self.accounts@);
        let mut data: Vec<u8> = Vec::new();
        crate::codec::put_bytes(&mut data, self.data.as_slice());
        assert(data@ =~= self.data@);
        Instruction { program_id: self.program_id, accounts, data }
    }
}

} // verus!
