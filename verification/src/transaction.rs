//! Transactions as the ledger takes them: a message, which lists the
//! accounts once and refers to them by index, and one signature for each
//! account that has to sign.
//!
//! Compiling instructions into a message, reading them back out of one,
//! laying a message out for signing and signing it are the ledger library's
//! work. Which slot a signature fills, when a transaction is signed, and
//! what a signing step keeps, is decided here.

use crate::instruction::{instruction_views, AccountMeta, Instruction, InstructionView};
use crate::pubkey::Pubkey;
use solana_sdk::instruction::AccountMeta as LedgerMeta;
use solana_sdk::instruction::CompiledInstruction as LedgerCompiled;
use solana_sdk::instruction::Instruction as LedgerInstruction;
use solana_sdk::message::Message as LedgerMessage;
use solana_sdk::message::SanitizedMessage;
use solana_sdk::pubkey::Pubkey as Address;
use solana_sdk::signature::Keypair as LedgerKeypair;
use solana_sdk::signer::Signer;
use solana_sdk::sysvar::instructions::construct_instructions_data;
use vstd::prelude::*;
use vstd::string::StringExecFns;

verus! {

/// Greatest length that the message layout can record.
pub const MAX_FIELD_LEN: usize = 65535;

/// Greatest number of accounts that one message can list: an instruction
/// refers to each of them by an index of one byte.
pub const MAX_ACCOUNTS: usize = 256;

/// A 32-byte authorization token: the hash of a recent ledger entry, or the
/// value of a nonce record.
#[derive(Clone, Copy, Debug, PartialEq, Eq)]
pub struct Blockhash {
    pub bytes: [u8; 32],
}

/// A 64-byte signature. The all-zero signature marks a slot that nobody has
/// signed yet.
#[derive(Clone, Copy, Debug, PartialEq, Eq)]
pub struct Signature {
    pub bytes: [u8; 64],
}

/// A signing key with its public key: 32 secret bytes, then the 32 bytes of
/// the identity that it signs for.
#[derive(Clone, Copy, Debug, PartialEq, Eq)]
pub struct Keypair {
    pub bytes: [u8; 64],
}

/// How many of the message's accounts sign, and how many are read-only.
#[derive(Clone, Copy, Debug, PartialEq, Eq)]
pub struct MessageHeader {
    pub num_required_signatures: u8,
    pub num_readonly_signed_accounts: u8,
    pub num_readonly_unsigned_accounts: u8,
}

/// An instruction that refers to its program and accounts by their index in
/// the message's list of accounts.
#[derive(Clone, Debug, PartialEq, Eq)]
pub struct CompiledInstruction {
    pub program_id_index: u8,
    pub accounts: Vec<u8>,
    pub data: Vec<u8>,
}

/// The part of a transaction that is signed.
#[derive(Clone, Debug, PartialEq, Eq)]
pub struct Message {
    pub header: MessageHeader,
    pub account_keys: Vec<Pubkey>,
    pub recent_blockhash: Blockhash,
    pub instructions: Vec<CompiledInstruction>,
}

/// A message with the signatures collected so far, one slot for each
/// account that has to sign, in the order of the message's accounts.
#[derive(Clone, Debug, PartialEq, Eq)]
pub struct Transaction {
    pub signatures: Vec<Signature>,
    pub message: Message,
}

/// A compiled instruction as a mathematical value.
pub struct CompiledInstructionView {
    pub program_id_index: u8,
    pub accounts: Seq<u8>,
    pub data: Seq<u8>,
}

/// A message as a mathematical value.
pub struct MessageView {
    pub header: MessageHeader,
    pub account_keys: Seq<Pubkey>,
    pub recent_blockhash: Blockhash,
    pub instructions: Seq<CompiledInstructionView>,
}

/// A transaction as a mathematical value: each signature by its 64 bytes.
pub struct TransactionView {
    pub signatures: Seq<Seq<u8>>,
    pub message: MessageView,
}

impl View for CompiledInstruction {
    type V = CompiledInstructionView;

    open spec fn view(&self) -> CompiledInstructionView {
        CompiledInstructionView {
            program_id_index: self.program_id_index,
            accounts: self.accounts@,
            data: self.data@,
        }
    }
}

impl View for Message {
    type V = MessageView;

    open spec fn view(&self) -> MessageView {
        MessageView {
            header: self.header,
            account_keys: self.account_keys@,
            recent_blockhash: self.recent_blockhash,
            instructions: self.instructions@.map_values(|c: CompiledInstruction| c@),
        }
    }
}

impl View for Transaction {
    type V = TransactionView;

    open spec fn view(&self) -> TransactionView {
        TransactionView {
            signatures: self.signatures@.map_values(|s: Signature| s.bytes@),
            message: self.message@,
        }
    }
}

/// The message that the ledger library compiles from `instructions` with
/// `payer` as the account that pays.
pub uninterp spec fn compiled_message(
    instructions: Seq<InstructionView>,
    payer: Pubkey,
) -> MessageView;

/// The table of the instructions of `message` with their accounts resolved,
/// as the ledger library lays it out; none where the message refers to an
/// account that it does not list, or has no account that pays.
pub uninterp spec fn instructions_table(message: MessageView) -> Option<Seq<u8>>;

/// Instruction `index` of a table of instructions, if the table holds one.
pub uninterp spec fn instruction_in_table(index: int, table: Seq<u8>) -> Option<InstructionView>;

/// The layout of `message` that is signed.
pub uninterp spec fn message_data(message: MessageView) -> Seq<u8>;

/// The signature that the key pair `keypair` gives to `data`; none where
/// the 64 bytes are no key pair.
pub uninterp spec fn signature_of(keypair: Seq<u8>, data: Seq<u8>) -> Option<Seq<u8>>;

/// The accounts that an instruction names, and its program.
pub open spec fn instruction_keys(instruction: InstructionView) -> Seq<Pubkey> {
    instruction.accounts.map_values(|meta: AccountMeta| meta.pubkey).push(instruction.program_id)
}

/// Every account and program that the instructions name, in the order and
/// as often as they name it.
pub open spec fn mentioned_keys(instructions: Seq<InstructionView>) -> Seq<Pubkey>
    decreases instructions.len(),
{
    if instructions.len() == 0 {
        Seq::empty()
    } else {
        mentioned_keys(instructions.drop_last()) + instruction_keys(instructions.last())
    }
}

/// The accounts that a message for these instructions lists: the account
/// that pays, and every account and program that an instruction names.
pub open spec fn listed_accounts(instructions: Seq<InstructionView>, payer: Pubkey) -> Set<Pubkey> {
    (seq![payer] + mentioned_keys(instructions)).to_set()
}

/// Whether a message for these instructions would list more accounts than
/// one message can.
pub open spec fn too_many_accounts(instructions: Seq<InstructionView>, payer: Pubkey) -> bool {
    listed_accounts(instructions, payer).len() > MAX_ACCOUNTS
}

impl MessageView {
    /// Whether every length in the message can be recorded in its layout.
    pub open spec fn fits_layout(self) -> bool {
        &&& self.account_keys.len() <= MAX_FIELD_LEN
        &&& self.instructions.len() <= MAX_FIELD_LEN
        &&& forall|i: int|
            0 <= i < self.instructions.len() ==> (#[trigger] self.instructions[i]).accounts.len()
                <= MAX_FIELD_LEN && self.instructions[i].data.len() <= MAX_FIELD_LEN
    }

    /// The accounts that have to sign, in the order of their slots.
    pub open spec fn signer_keys(self) -> Seq<Pubkey> {
        if self.header.num_required_signatures <= self.account_keys.len() {
            self.account_keys.take(self.header.num_required_signatures as int)
        } else {
            self.account_keys
        }
    }

    /// The message with the authorization token `recent_blockhash`.
    pub open spec fn with_blockhash(self, recent_blockhash: Blockhash) -> MessageView {
        MessageView {
            header: self.header,
            account_keys: self.account_keys,
            recent_blockhash,
            instructions: self.instructions,
        }
    }
}

/// The message with these parts and no authorization token yet: the three
/// numbers of the header, the accounts, and for each instruction the index
/// of its program, the indices of its accounts and its data.
pub open spec fn message_of_parts(
    parts: (u8, u8, u8, Vec<[u8; 32]>, Vec<(u8, Vec<u8>, Vec<u8>)>),
) -> MessageView {
    MessageView {
        header: MessageHeader {
            num_required_signatures: parts.0,
            num_readonly_signed_accounts: parts.1,
            num_readonly_unsigned_accounts: parts.2,
        },
        account_keys: parts.3@.map_values(|bytes: [u8; 32]| Pubkey { bytes }),
        recent_blockhash: Blockhash::spec_unset(),
        instructions: parts.4@.map_values(
            |c: (u8, Vec<u8>, Vec<u8>)|
                CompiledInstructionView { program_id_index: c.0, accounts: c.1@, data: c.2@ },
        ),
    }
}

/// `Message::new` of the ledger library, with the account that pays: the
/// parts of the message that it compiles, which has no authorization token
/// yet.
#[verifier::external_body]
fn ledger_message(
    instructions: &Vec<Instruction>,
    payer: &Pubkey,
) -> (parts: (u8, u8, u8, Vec<[u8; 32]>, Vec<(u8, Vec<u8>, Vec<u8>)>))
    requires
        !too_many_accounts(instruction_views(instructions@), *payer),
    ensures
        message_of_parts(parts) == compiled_message(instruction_views(instructions@), *payer),
{
    let list: Vec<LedgerInstruction> = instructions.iter().map(|i| LedgerInstruction {
        program_id: Address::new_from_array(i.program_id.bytes),
        accounts: i.accounts.iter().map(|m| LedgerMeta { pubkey: Address::new_from_array(m.pubkey.bytes), is_signer: m.is_signer, is_writable: m.is_writable }).collect(),
        data: i.data.clone()
    }).collect();
    let built = LedgerMessage::new(&list, Some(&Address::new_from_array(payer.bytes)));
    (
        built.header.num_required_signatures,
        built.header.num_readonly_signed_accounts,
        built.header.num_readonly_unsigned_accounts,
        built.account_keys.iter().map(|k| k.to_bytes()).collect(),
        built.instructions.into_iter().map(|c| (c.program_id_index, c.accounts, c.data)).collect()
    )
}

/// `SanitizedMessage::try_from`, `decompile_instructions` and
/// `construct_instructions_data` of the ledger library: the table of the
/// message's instructions, where the message passes the library's checks.
#[verifier::external_body]
fn ledger_instructions_table(message: &Message) -> (table: Option<Vec<u8>>)
    ensures
        match table {
            Some(bytes) => instructions_table(message@) == Some(bytes@),
            None => instructions_table(message@) is None,
        },
{
    let ledger = LedgerMessage::new_with_compiled_instructions(
        message.header.num_required_signatures,
        message.header.num_readonly_signed_accounts,
        message.header.num_readonly_unsigned_accounts,
        message.account_keys.iter().map(|k| Address::new_from_array(k.bytes)).collect(),
        solana_sdk::hash::Hash::new_from_array(message.recent_blockhash.bytes),
        message.instructions.iter().map(|c| LedgerCompiled::new_from_raw_parts(c.program_id_index, c.data.clone(), c.accounts.clone())).collect(),
    );
    SanitizedMessage::try_from(ledger).ok().map(|m| construct_instructions_data(&m.decompile_instructions()))
}

/// `Message::deserialize_instruction` of the ledger library: instruction
/// `index` of a table of instructions.
#[verifier::external_body]
#[allow(deprecated)]
fn ledger_instruction_at(index: usize, table: &[u8]) -> (instruction: Option<Instruction>)
    ensures
        match instruction {
            Some(found) => instruction_in_table(index as int, table@) == Some(found@),
            None => instruction_in_table(index as int, table@) is None,
        },
{
    LedgerMessage::deserialize_instruction(index, table).ok().map(|i| Instruction {
        program_id: Pubkey { bytes: i.program_id.to_bytes() },
        accounts: i.accounts.iter().map(|m| AccountMeta { pubkey: Pubkey { bytes: m.pubkey.to_bytes() }, is_signer: m.is_signer, is_writable: m.is_writable }).collect(),
        data: i.data,
    })
}

/// `Message::serialize` of the ledger library: the layout that is signed.
#[verifier::external_body]
fn ledger_message_data(message: &Message) -> (data: Vec<u8>)
    requires
        message@.fits_layout(),
    ensures
        data@ == message_data(message@),
{
    let ledger = LedgerMessage::new_with_compiled_instructions(
        message.header.num_required_signatures,
        message.header.num_readonly_signed_accounts,
        message.header.num_readonly_unsigned_accounts,
        message.account_keys.iter().map(|k| Address::new_from_array(k.bytes)).collect(),
        solana_sdk::hash::Hash::new_from_array(message.recent_blockhash.bytes),
        message.instructions.iter().map(|c| LedgerCompiled::new_from_raw_parts(c.program_id_index, c.data.clone(), c.accounts.clone())).collect(),
    );
    ledger.serialize()
}

/// `Keypair::from_bytes` and `Signer::sign_message` of the ledger library:
/// the signature that the key pair gives to `data`.
#[verifier::external_body]
fn ledger_sign(keypair: &Keypair, data: &[u8]) -> (signature: Option<Signature>)
    ensures
        match signature {
            Some(signed) => signature_of(keypair.bytes@, data@) == Some(signed.bytes@),
            None => signature_of(keypair.bytes@, data@) is None,
        },
{
    LedgerKeypair::from_bytes(&keypair.bytes).ok().map(|k| Signature { bytes: k.sign_message(data).into() })
}

/// Why a transaction is not built, signed or sent.
#[derive(Clone, Copy, Debug, PartialEq, Eq)]
pub enum TransactionError {
    /// The message refers to an account that it does not list, or has no
    /// account that pays.
    InvalidMessage,
    /// The message's table of instructions lacks one of its instructions.
    MissingInstruction,
    /// The message would list more accounts than one message can.
    TooManyAccounts,
    /// A length in the message cannot be recorded in its layout, or the
    /// transaction has no slot for the signature.
    MalformedTransaction,
    /// The 64 bytes are no key pair.
    InvalidKeypair,
    /// The key pair signs for an identity that the message does not ask to
    /// sign.
    KeypairPubkeyMismatch,
    /// The message asks for more signatures than it lists accounts.
    InvalidAccountIndex,
    /// A slot is still unsigned.
    NotEnoughSigners,
    /// The nonce in the transaction is not the value that the nonce record
    /// holds on the ledger: the transaction can never be sent, start again.
    StaleAuthorization,
    /// The transaction does not begin with the advance of a nonce record.
    NotNonceTransaction,
    /// No address can be derived for the instance.
    NoProgramAddress,
}

impl TransactionError {
    /// The reason in words.
    pub open spec fn spec_message(self) -> Seq<char> {
        match self {
            TransactionError::InvalidMessage => "the message refers to an account that it does not list"@,
            TransactionError::MissingInstruction => "the message lacks one of its instructions"@,
            TransactionError::TooManyAccounts => "the instructions name too many accounts"@,
            TransactionError::MalformedTransaction => "the transaction cannot be laid out for signing"@,
            TransactionError::InvalidKeypair => "the bytes are no key pair"@,
            TransactionError::KeypairPubkeyMismatch => "the key pair is not asked to sign"@,
            TransactionError::InvalidAccountIndex => "the message asks for more signatures than it lists accounts"@,
            TransactionError::NotEnoughSigners => "a required signature is missing"@,
            TransactionError::StaleAuthorization => "the nonce has been used, start again"@,
            TransactionError::NotNonceTransaction => "the transaction takes its authorization from no nonce record"@,
            TransactionError::NoProgramAddress => "no program address can be derived for the name"@,
        }
    }

    /// The reason in words.
    pub fn message(&self) -> (text: String)
        ensures
            text@ == self.spec_message(),
    {
        match self {
            TransactionError::InvalidMessage => String::from_str(
                "the message refers to an account that it does not list",
            ),
            TransactionError::MissingInstruction => String::from_str(
                "the message lacks one of its instructions",
            ),
            TransactionError::TooManyAccounts => String::from_str(
                "the instructions name too many accounts",
            ),
            TransactionError::MalformedTransaction => String::from_str(
                "the transaction cannot be laid out for signing",
            ),
            TransactionError::InvalidKeypair => String::from_str("the bytes are no key pair"),
            TransactionError::KeypairPubkeyMismatch => String::from_str(
                "the key pair is not asked to sign",
            ),
            TransactionError::InvalidAccountIndex => String::from_str(
                "the message asks for more signatures than it lists accounts",
            ),
            TransactionError::NotEnoughSigners => String::from_str(
                "a required signature is missing",
            ),
            TransactionError::StaleAuthorization => String::from_str(
                "the nonce has been used, start again",
            ),
            TransactionError::NotNonceTransaction => String::from_str(
                "the transaction takes its authorization from no nonce record",
            ),
            TransactionError::NoProgramAddress => String::from_str(
                "no program address can be derived for the name",
            ),
        }
    }
}

impl Blockhash {
    /// The token of a message that has none yet: all zero.
    pub open spec fn spec_unset() -> Blockhash {
        Blockhash { bytes: vstd::array::spec_array_fill_for_copy_type::<u8, 32>(0u8) }
    }

    /// The token of a message that has none yet: all zero.
    pub fn unset() -> (hash: Blockhash)
        ensures
            hash == Blockhash::spec_unset(),
    {
        let hash = Blockhash { bytes: [0u8; 32] };
        assert(hash.bytes =~= Blockhash::spec_unset().bytes);
        hash
    }

    /// Byte-wise comparison of two tokens.
    pub fn same(&self, other: &Blockhash) -> (equal: bool)
        ensures
            equal == (*self == *other),
    {
        let mut i: usize = 0;
        while i < 32
            invariant
                i <= 32,
                forall|j: int| 0 <= j < i ==> self.bytes[j] == other.bytes[j],
            decreases 32 - i,
        {
            if self.bytes[i] != other.bytes[i] {
                return false;
            }
            i += 1;
        }
        assert(self.bytes =~= other.bytes);
        true
    }
}

/// The 64 bytes of the signature that marks an unsigned slot.
pub open spec fn unsigned() -> Seq<u8> {
    Seq::new(64, |i: int| 0u8)
}

impl Signature {
    /// The signature that marks an unsigned slot.
    pub fn empty() -> (signature: Signature)
        ensures
            signature.bytes@ == unsigned(),
    {
        let signature = Signature { bytes: [0u8; 64] };
        assert(signature.bytes@ =~= unsigned());
        signature
    }

    /// Whether the slot is unsigned.
    pub fn is_empty(&self) -> (empty: bool)
        ensures
            empty == (self.bytes@ == unsigned()),
    {
        let mut i: usize = 0;
        while i < 64
            invariant
                i <= 64,
                forall|j: int| 0 <= j < i ==> self.bytes[j] == 0u8,
            decreases 64 - i,
        {
            if self.bytes[i] != 0 {
                assert(unsigned()[i as int] == 0u8);
                return false;
            }
            i += 1;
        }
        assert(self.bytes@ =~= unsigned());
        true
    }
}

impl Keypair {
    /// The identity that the key pair signs for: its last 32 bytes.
    pub open spec fn spec_pubkey(&self) -> Seq<u8> {
        self.bytes@.subrange(32, 64)
    }

    /// The identity that the key pair signs for.
    pub open spec fn key(&self) -> Pubkey {
        choose|key: Pubkey| key@ == self.spec_pubkey()
    }

    /// The identity that the key pair signs for.
    pub fn pubkey(&self) -> (key: Pubkey)
        ensures
            key == self.key(),
            key@ == self.spec_pubkey(),
    {
        let mut bytes = [0u8; 32];
        let mut i: usize = 0;
        while i < 32
            invariant
                i <= 32,
                forall|j: int| 0 <= j < i ==> bytes[j] == self.bytes[32 + j],
            decreases 32 - i,
        {
            bytes[i] = self.bytes[32 + i];
            i += 1;
        }
        let key = Pubkey { bytes };
        assert(key@ =~= self.spec_pubkey());
        assert(key.bytes =~= self.key().bytes);
        key
    }
}

/// A message lists no more accounts than the instructions name, the payer
/// counted in.
pub proof fn lemma_listed_accounts_bound(instructions: Seq<InstructionView>, payer: Pubkey)
    ensures
        listed_accounts(instructions, payer).len() <= 1 + mentioned_keys(instructions).len(),
{
    (seq![payer] + mentioned_keys(instructions)).lemma_cardinality_of_set();
}

/// The number of different keys in a list.
pub fn count_distinct(keys: &Vec<Pubkey>) -> (count: usize)
    ensures
        count == keys@.to_set().len(),
{
    broadcast use vstd::set::group_set_axioms;

    let mut seen: Vec<Pubkey> = Vec::new();
    let mut i: usize = 0;
    proof {
        assert(keys@.take(0) =~= Seq::<Pubkey>::empty());
        assert(seen@.to_set() =~= keys@.take(0).to_set());
    }
    while i < keys.len()
        invariant
            i <= keys.len(),
            seen@.len() <= i,
            seen@.no_duplicates(),
            seen@.to_set() == keys@.take(i as int).to_set(),
        decreases keys.len() - i,
    {
        let key = keys[i];
        proof {
            assert(keys@.take(i + 1) =~= keys@.take(i as int).push(key));
            keys@.take(i as int).lemma_push_to_set_commute(key);
        }
        if !crate::state::contains_key(&seen, &key) {
            proof {
                seen@.lemma_push_to_set_commute(key);
            }
            seen.push(key);
        } else {
            proof {
                assert(seen@.to_set().contains(key));
                assert(seen@.to_set().insert(key) =~= seen@.to_set());
            }
        }
        i += 1;
    }
    proof {
        assert(keys@.take(i as int) =~= keys@);
        seen@.unique_seq_to_set();
    }
    seen.len()
}

/// The number of accounts that a message for these instructions lists.
pub fn count_accounts(instructions: &Vec<Instruction>, payer: &Pubkey) -> (count: usize)
    ensures
        count == listed_accounts(instruction_views(instructions@), *payer).len(),
{
    let ghost views = instruction_views(instructions@);
    let mut keys: Vec<Pubkey> = Vec::new();
    keys.push(*payer);
    let mut i: usize = 0;
    proof {
        assert(views.take(0) =~= Seq::<InstructionView>::empty());
        assert(keys@ =~= seq![*payer] + mentioned_keys(views.take(0)));
    }
    while i < instructions.len()
        invariant
            i <= instructions.len(),
            views == instruction_views(instructions@),
            keys@ == seq![*payer] + mentioned_keys(views.take(i as int)),
        decreases instructions.len() - i,
    {
        let instruction = &instructions[i];
        let ghost named = instruction@.accounts.map_values(|meta: AccountMeta| meta.pubkey);
        let ghost before = keys@;
        let mut j: usize = 0;
        while j < instruction.accounts.len()
            invariant
                j <= instruction.accounts.len(),
                named == instruction@.accounts.map_values(|meta: AccountMeta| meta.pubkey),
                keys@ == before + named.take(j as int),
            decreases instruction.accounts.len() - j,
        {
            keys.push(instruction.accounts[j].pubkey);
            assert(named.take(j + 1) =~= named.take(j as int).push(named[j as int]));
            j += 1;
        }
        keys.push(instruction.program_id);
        proof {
            assert(named.take(j as int) =~= named);
            assert(views.take(i + 1).drop_last() =~= views.take(i as int));
            assert(views.take(i + 1).last() == instruction@);
            assert(keys@ =~= seq![*payer] + mentioned_keys(views.take(i + 1)));
        }
        i += 1;
    }
    assert(views.take(i as int) =~= views);
    count_distinct(&keys)
}

impl Message {
    /// Compiles instructions into a message with `payer` as the account
    /// that pays. The message has no authorization token yet.
    ///
    /// There is no message where it would list more accounts than a message
    /// can, however often the instructions name each of them.
    pub fn compile(
        instructions: &Vec<Instruction>,
        payer: &Pubkey,
    ) -> (r: Result<Message, TransactionError>)
        ensures
            match r {
                Ok(message) => {
                    &&& !too_many_accounts(instruction_views(instructions@), *payer)
                    &&& message@ == compiled_message(instruction_views(instructions@), *payer)
                },
                Err(e) => {
                    &&& e == TransactionError::TooManyAccounts
                    &&& too_many_accounts(instruction_views(instructions@), *payer)
                },
            },
    {
        if count_accounts(instructions, payer) > MAX_ACCOUNTS {
            return Err(TransactionError::TooManyAccounts);
        }
        let parts = ledger_message(instructions, payer);
        let header = MessageHeader {
            num_required_signatures: parts.0,
            num_readonly_signed_accounts: parts.1,
            num_readonly_unsigned_accounts: parts.2,
        };
        let recent_blockhash = Blockhash::unset();
        let mut account_keys: Vec<Pubkey> = Vec::new();
        let mut i: usize = 0;
        while i < parts.3.len()
            invariant
                i <= parts.3.len(),
                account_keys@.len() == i,
                forall|j: int| 0 <= j < i ==> (#[trigger] account_keys@[j]).bytes == parts.3@[j],
            decreases parts.3.len() - i,
        {
            account_keys.push(Pubkey { bytes: parts.3[i] });
            i += 1;
        }
        let mut compiled: Vec<CompiledInstruction> = Vec::new();
        let mut k: usize = 0;
        while k < parts.4.len()
            invariant
                k <= parts.4.len(),
                compiled@.len() == k,
                forall|j: int|
                    0 <= j < k ==> (#[trigger] compiled@[j])@ == (CompiledInstructionView {
                        program_id_index: parts.4@[j].0,
                        accounts: parts.4@[j].1@,
                        data: parts.4@[j].2@,
                    }),
            decreases parts.4.len() - k,
        {
            let source = &parts.4[k];
            let mut accounts: Vec<u8> = Vec::new();
            crate::codec::put_bytes(&mut accounts, source.1.as_slice());
            let mut data: Vec<u8> = Vec::new();
            crate::codec::put_bytes(&mut data, source.2.as_slice());
            assert(accounts@ =~= source.1@);
            assert(data@ =~= source.2@);
            compiled.push(CompiledInstruction { program_id_index: source.0, accounts, data });
            k += 1;
        }
        let message = Message { header, account_keys, recent_blockhash, instructions: compiled };
        proof {
            let view = message_of_parts(parts);
            assert(message@.account_keys =~= view.account_keys);
            assert(message@.instructions =~= view.instructions);
        }
        Ok(message)
    }

    /// Compiles instructions into a message that takes its authorization
    /// from the nonce record `nonce`: the advance of the nonce comes first,
    /// then the instructions in the order given.
    pub fn compile_with_nonce(
        instructions: &Vec<Instruction>,
        payer: &Pubkey,
        nonce: &Pubkey,
        authority: &Pubkey,
    ) -> (r: Result<Message, TransactionError>)
        ensures
            nonce_compiled(instruction_views(instructions@), *payer, *nonce, *authority, r),
    {
        let advance = crate::system_instruction::advance_nonce_account(nonce, authority);
        let ghost first = advance@;
        let mut list: Vec<Instruction> = Vec::new();
        list.push(advance);
        let mut i: usize = 0;
        while i < instructions.len()
            invariant
                i <= instructions.len(),
                instruction_views(list@) == seq![first] + instruction_views(instructions@).take(
                    i as int,
                ),
            decreases instructions.len() - i,
        {
            let copy = instructions[i].duplicate();
            proof {
                let views = instruction_views(instructions@);
                assert(views.take(i + 1) =~= views.take(i as int).push(copy@));
                assert(instruction_views(list@.push(copy)) =~= instruction_views(list@).push(
                    copy@,
                ));
            }
            list.push(copy);
            i += 1;
        }
        proof {
            let views = instruction_views(instructions@);
            assert(views.take(i as int) =~= views);
        }
        Message::compile(&list, payer)
    }

    /// Reads the instructions back out of the message, with their accounts
    /// resolved and in the message's order.
    pub fn decompile(&self) -> (r: Result<Vec<Instruction>, TransactionError>)
        ensures
            decompiled(self@, r),
    {
        let table = match ledger_instructions_table(self) {
            Some(table) => table,
            None => { return Err(TransactionError::InvalidMessage); },
        };
        let mut instructions: Vec<Instruction> = Vec::new();
        let mut i: usize = 0;
        while i < self.instructions.len()
            invariant
                i <= self.instructions.len(),
                instructions_table(self@) == Some(table@),
                instructions@.len() == i,
                forall|j: int|
                    0 <= j < i ==> instruction_in_table(j, table@) == Some(
                        (#[trigger] instructions@[j])@,
                    ),
            decreases self.instructions.len() - i,
        {
            match ledger_instruction_at(i, table.as_slice()) {
                Some(instruction) => {
                    instructions.push(instruction);
                },
                None => {
                    return Err(TransactionError::MissingInstruction);
                },
            }
            i += 1;
        }
        Ok(instructions)
    }

    /// Whether every length in the message can be recorded in its layout.
    pub fn fits_layout(&self) -> (fits: bool)
        ensures
            fits == self@.fits_layout(),
    {
        if self.account_keys.len() > MAX_FIELD_LEN || self.instructions.len() > MAX_FIELD_LEN {
            return false;
        }
        let mut i: usize = 0;
        while i < self.instructions.len()
            invariant
                i <= self.instructions.len(),
                forall|j: int|
                    0 <= j < i ==> (#[trigger] self@.instructions[j]).accounts.len()
                        <= MAX_FIELD_LEN && self@.instructions[j].data.len() <= MAX_FIELD_LEN,
            decreases self.instructions.len() - i,
        {
            if self.instructions[i].accounts.len() > MAX_FIELD_LEN || self.instructions[i].data.len()
                > MAX_FIELD_LEN {
                assert(self@.instructions[i as int] == self.instructions@[i as int]@);
                return false;
            }
            assert(self@.instructions[i as int] == self.instructions@[i as int]@);
            i += 1;
        }
        true
    }
}

/// Whether `r` is the message compiled from the advance of the nonce record
/// `nonce`, then `instructions` in their order; or the fact that they name
/// more accounts than one message can hold.
pub open spec fn nonce_compiled(
    instructions: Seq<InstructionView>,
    payer: Pubkey,
    nonce: Pubkey,
    authority: Pubkey,
    r: Result<Message, TransactionError>,
) -> bool {
    exists|advance: InstructionView|
        {
            &&& #[trigger] crate::system_instruction::is_advance_nonce(advance, nonce, authority)
            &&& match r {
                Ok(message) => {
                    &&& !too_many_accounts(seq![advance] + instructions, payer)
                    &&& message@ == compiled_message(seq![advance] + instructions, payer)
                },
                Err(e) => {
                    &&& e == TransactionError::TooManyAccounts
                    &&& too_many_accounts(seq![advance] + instructions, payer)
                },
            }
        }
}

/// Whether `r` is what reading the instructions out of `message` gives:
/// the instructions of the message's table, one for each compiled
/// instruction and in their order; or the reason why there are none.
pub open spec fn decompiled(
    message: MessageView,
    r: Result<Vec<Instruction>, TransactionError>,
) -> bool {
    match instructions_table(message) {
        None => r matches Err(e) && e == TransactionError::InvalidMessage,
        Some(table) => match r {
            Ok(instructions) => {
                &&& instructions@.len() == message.instructions.len()
                &&& forall|j: int|
                    0 <= j < instructions@.len() ==> instruction_in_table(j, table) == Some(
                        (#[trigger] instructions@[j])@,
                    )
            },
            Err(e) => {
                &&& e == TransactionError::MissingInstruction
                &&& exists|j: int|
                    0 <= j < message.instructions.len() && #[trigger] instruction_in_table(j, table)
                        is None
            },
        },
    }
}

/// The first position of the identity `key` in `keys`; the length of
/// `keys` where it is not among them.
pub open spec fn position_of(keys: Seq<Pubkey>, key: Seq<u8>) -> int decreases keys.len(),
{
    if keys.len() == 0 {
        0
    } else {
        let before = position_of(keys.drop_last(), key);
        if before < keys.len() - 1 {
            before
        } else if keys.last()@ == key {
            keys.len() - 1
        } else {
            keys.len() as int
        }
    }
}

/// The first position is a position of the key, with no position of the key
/// before it; and it is the length exactly where the key is missing.
pub proof fn lemma_position_of(keys: Seq<Pubkey>, key: Seq<u8>)
    ensures
        0 <= position_of(keys, key) <= keys.len(),
        position_of(keys, key) < keys.len() ==> keys[position_of(keys, key)]@ == key,
        forall|j: int| 0 <= j < position_of(keys, key) ==> (#[trigger] keys[j])@ != key,
    decreases keys.len(),
{
    if keys.len() > 0 {
        let front = keys.drop_last();
        lemma_position_of(front, key);
        assert forall|j: int| 0 <= j < position_of(keys, key) implies (#[trigger] keys[j])@
            != key by {
            if j < front.len() {
                assert(front[j] == keys[j]);
            }
        }
        if position_of(front, key) < front.len() {
            assert(front[position_of(front, key)] == keys[position_of(front, key)]);
        }
    }
}

/// A position of the key with no position of the key before it is the
/// first position.
pub proof fn lemma_position_found(keys: Seq<Pubkey>, key: Seq<u8>, at: int)
    requires
        0 <= at <= keys.len(),
        at < keys.len() ==> keys[at]@ == key,
        forall|j: int| 0 <= j < at ==> (#[trigger] keys[j])@ != key,
    ensures
        position_of(keys, key) == at,
{
    lemma_position_of(keys, key);
    let found = position_of(keys, key);
    if found < at {
        assert(keys[found]@ == key);
    }
}

/// The signatures of a transaction with no slot signed.
pub open spec fn all_unsigned(slots: nat) -> Seq<Seq<u8>> {
    Seq::new(slots, |i: int| unsigned())
}

impl TransactionView {
    /// Whether every slot is signed.
    pub open spec fn is_signed(self) -> bool {
        forall|i: int| 0 <= i < self.signatures.len() ==> #[trigger] self.signatures[i] != unsigned()
    }

}

/// The transaction for `message` with every slot unsigned.
pub open spec fn unsigned_transaction(message: MessageView) -> TransactionView {
    TransactionView {
        signatures: all_unsigned(message.header.num_required_signatures as nat),
        message,
    }
}

/// Whether the transaction `r` has the value that `plan` asks for, or `r`
/// is the error that `plan` is.
pub open spec fn follows(
    plan: Result<TransactionView, TransactionError>,
    r: Result<Transaction, TransactionError>,
) -> bool {
    match plan {
        Ok(view) => r matches Ok(tx) && tx@ == view,
        Err(reason) => r matches Err(e) && e == reason,
    }
}

/// The transaction that carries `instructions`, paid and signed by `payer`
/// for the authorization token `token`: the compiled message, with the
/// payer's signature in its slot and every other slot unsigned.
pub open spec fn signed_plan(
    instructions: Seq<InstructionView>,
    payer: Keypair,
    token: Blockhash,
) -> Result<TransactionView, TransactionError> {
    if too_many_accounts(instructions, payer.key()) {
        Err(TransactionError::TooManyAccounts)
    } else {
        sign_outcome(
            unsigned_transaction(compiled_message(instructions, payer.key())),
            payer,
            token,
        )
    }
}

/// What signing with `keypair` for the authorization token
/// `recent_blockhash` makes of a transaction.
///
/// The key pair must sign for one of the identities that the message asks
/// to sign; its signature goes into the slot of the first of them. Where
/// the token differs from the message's, the message takes the new token
/// and every earlier signature is cleared, since it was given to another
/// layout. Nothing else changes: the accounts and the instructions stay as
/// they are, in their order.
pub open spec fn sign_outcome(
    tx: TransactionView,
    keypair: Keypair,
    recent_blockhash: Blockhash,
) -> Result<TransactionView, TransactionError> {
    let message = tx.message.with_blockhash(recent_blockhash);
    let position = position_of(tx.message.signer_keys(), keypair.spec_pubkey());
    let kept = if recent_blockhash == tx.message.recent_blockhash {
        tx.signatures
    } else {
        all_unsigned(tx.signatures.len())
    };
    if tx.message.account_keys.len() < tx.message.header.num_required_signatures {
        Err(TransactionError::InvalidAccountIndex)
    } else if position >= tx.message.header.num_required_signatures {
        Err(TransactionError::KeypairPubkeyMismatch)
    } else if !tx.message.fits_layout() || position >= tx.signatures.len() {
        Err(TransactionError::MalformedTransaction)
    } else {
        match signature_of(keypair.bytes@, message_data(message)) {
            None => Err(TransactionError::InvalidKeypair),
            Some(signature) => Ok(
                TransactionView { signatures: kept.update(position, signature), message },
            ),
        }
    }
}

impl Transaction {
    /// A transaction for `message` with every slot unsigned.
    pub fn new_unsigned(message: Message) -> (tx: Transaction)
        ensures
            tx@.message == message@,
            tx@.signatures == all_unsigned(message.header.num_required_signatures as nat),
    {
        let mut signatures: Vec<Signature> = Vec::new();
        let mut i: u8 = 0;
        while i < message.header.num_required_signatures
            invariant
                i <= message.header.num_required_signatures,
                signatures@.len() == i,
                forall|j: int| 0 <= j < i ==> (#[trigger] signatures@[j]).bytes@ == unsigned(),
            decreases message.header.num_required_signatures - i,
        {
            signatures.push(Signature::empty());
            i += 1;
        }
        let tx = Transaction { signatures, message };
        assert(tx@.signatures =~= all_unsigned(message.header.num_required_signatures as nat));
        tx
    }

    /// Whether every slot is signed.
    pub fn is_signed(&self) -> (signed: bool)
        ensures
            signed == self@.is_signed(),
    {
        let mut i: usize = 0;
        while i < self.signatures.len()
            invariant
                i <= self.signatures.len(),
                forall|j: int| 0 <= j < i ==> #[trigger] self@.signatures[j] != unsigned(),
            decreases self.signatures.len() - i,
        {
            if self.signatures[i].is_empty() {
                assert(self@.signatures[i as int] == unsigned());
                return false;
            }
            assert(self@.signatures[i as int] == self.signatures@[i as int].bytes@);
            i += 1;
        }
        true
    }

    /// The slot that `key` signs: its first position among the identities
    /// that the message asks to sign.
    pub fn signer_position(&self, key: &Pubkey) -> (position: Option<usize>)
        ensures
            match position {
                Some(at) => at == position_of(self@.message.signer_keys(), key@) && at
                    < self@.message.signer_keys().len(),
                None => position_of(self@.message.signer_keys(), key@)
                    == self@.message.signer_keys().len(),
            },
    {
        let required = if (self.message.header.num_required_signatures as usize)
            <= self.message.account_keys.len() {
            self.message.header.num_required_signatures as usize
        } else {
            self.message.account_keys.len()
        };
        let ghost signers = self@.message.signer_keys();
        let mut i: usize = 0;
        while i < required
            invariant
                i <= required <= self.message.account_keys.len(),
                required == signers.len(),
                signers == self@.message.signer_keys(),
                forall|j: int| 0 <= j < i ==> (#[trigger] signers[j])@ != key@,
            decreases required - i,
        {
            if self.message.account_keys[i].same(key) {
                proof {
                    lemma_position_found(signers, key@, i as int);
                }
                return Some(i);
            }
            proof {
                if signers[i as int]@ == key@ {
                    assert(signers[i as int].bytes =~= key.bytes);
                }
            }
            i += 1;
        }
        proof {
            lemma_position_found(signers, key@, required as int);
        }
        None
    }

    /// Signs the transaction with `keypair` for the authorization token
    /// `recent_blockhash`, as [`sign_outcome`] says. A transaction that is
    /// not signed is left as it was.
    ///
    /// The message's layout and the signature are the ledger library's;
    /// the slot and what is kept are decided here, as the ledger library
    /// decides them in its own partial signing, but that a transaction
    /// without a slot for the signer, or with a length that its layout
    /// cannot record, is an error here.
    pub fn try_partial_sign(
        &mut self,
        keypair: &Keypair,
        recent_blockhash: &Blockhash,
    ) -> (r: Result<(), TransactionError>)
        ensures
            match sign_outcome(old(self)@, *keypair, *recent_blockhash) {
                Ok(signed) => r is Ok && final(self)@ == signed,
                Err(e) => r == Err::<(), TransactionError>(e) && final(self)@ == old(self)@,
            },
    {
        let required = self.message.header.num_required_signatures as usize;
        if self.message.account_keys.len() < required {
            return Err(TransactionError::InvalidAccountIndex);
        }
        let position = match self.signer_position(&keypair.pubkey()) {
            Some(position) => position,
            None => { return Err(TransactionError::KeypairPubkeyMismatch); },
        };
        if !self.message.fits_layout() || position >= self.signatures.len() {
            return Err(TransactionError::MalformedTransaction);
        }
        let former = self.message.recent_blockhash;
        let same_token = recent_blockhash.same(&former);
        self.message.recent_blockhash = *recent_blockhash;
        assert(self@.message == old(self)@.message.with_blockhash(*recent_blockhash));
        let data = ledger_message_data(&self.message);
        let signature = match ledger_sign(keypair, data.as_slice()) {
            Some(signature) => signature,
            None => {
                self.message.recent_blockhash = former;
                assert(self@.message == old(self)@.message);
                return Err(TransactionError::InvalidKeypair);
            },
        };
        let ghost message = self@.message;
        if !same_token {
            let mut i: usize = 0;
            while i < self.signatures.len()
                invariant
                    i <= self.signatures.len(),
                    self.signatures.len() == old(self).signatures.len(),
                    self@.message == message,
                    forall|j: int| 0 <= j < i ==> (#[trigger] self.signatures@[j]).bytes@ == unsigned(),
                decreases self.signatures.len() - i,
            {
                self.signatures.set(i, Signature::empty());
                i += 1;
            }
        }
        self.signatures.set(position, signature);
        proof {
            let before = old(self)@;
            let kept = if *recent_blockhash == before.message.recent_blockhash {
                before.signatures
            } else {
                all_unsigned(before.signatures.len())
            };
            assert(self@.signatures =~= kept.update(position as int, signature.bytes@));
        }
        Ok(())
    }
}

/// Signing again with the same key pair for the same token changes nothing.
pub proof fn lemma_sign_idempotent(
    tx: TransactionView,
    keypair: Keypair,
    recent_blockhash: Blockhash,
    once: TransactionView,
)
    requires
        sign_outcome(tx, keypair, recent_blockhash) == Ok::<TransactionView, TransactionError>(once),
    ensures
        sign_outcome(once, keypair, recent_blockhash) == Ok::<TransactionView, TransactionError>(
            once,
        ),
{
    lemma_position_of(tx.message.signer_keys(), keypair.spec_pubkey());
    let position = position_of(tx.message.signer_keys(), keypair.spec_pubkey());
    let signature = signature_of(
        keypair.bytes@,
        message_data(tx.message.with_blockhash(recent_blockhash)),
    ).unwrap();
    assert(once.message == tx.message.with_blockhash(recent_blockhash));
    assert(once.message.with_blockhash(recent_blockhash) == once.message);
    assert(once.message.signer_keys() == tx.message.signer_keys());
    assert(once.message.fits_layout());
    assert(once.signatures.update(position, signature) =~= once.signatures);
}

/// A signing step for the token that the message has keeps the message as
/// it is, accounts and instructions in their order, and every signature
/// but the signer's own.
pub proof fn lemma_sign_keeps(tx: TransactionView, keypair: Keypair, signed: TransactionView)
    requires
        sign_outcome(tx, keypair, tx.message.recent_blockhash) == Ok::<
            TransactionView,
            TransactionError,
        >(signed),
    ensures
        signed.message == tx.message,
        signed.signatures.len() == tx.signatures.len(),
        forall|i: int|
            0 <= i < tx.signatures.len() && i != position_of(
                tx.message.signer_keys(),
                keypair.spec_pubkey(),
            ) ==> signed.signatures[i] == tx.signatures[i],
{
    lemma_position_of(tx.message.signer_keys(), keypair.spec_pubkey());
    assert(tx.message.with_blockhash(tx.message.recent_blockhash) == tx.message);
}

/// The number of slots that hold a signature.
pub open spec fn signed_slots(signatures: Seq<Seq<u8>>) -> nat
    decreases signatures.len(),
{
    if signatures.len() == 0 {
        0
    } else {
        signed_slots(signatures.drop_last()) + if signatures.last() != unsigned() {
            1nat
        } else {
            0nat
        }
    }
}

/// Where no slot is signed, the number of signed slots is zero.
pub proof fn lemma_none_signed(signatures: Seq<Seq<u8>>)
    requires
        forall|i: int| 0 <= i < signatures.len() ==> signatures[i] == unsigned(),
    ensures
        signed_slots(signatures) == 0,
    decreases signatures.len(),
{
    if signatures.len() > 0 {
        let front = signatures.drop_last();
        assert forall|i: int| 0 <= i < front.len() implies front[i] == unsigned() by {
            assert(front[i] == signatures[i]);
        }
        lemma_none_signed(front);
    }
}

/// Putting a signature into a slot changes the number of signed slots by
/// that slot alone.
pub proof fn lemma_slot_replaced(signatures: Seq<Seq<u8>>, at: int, signature: Seq<u8>)
    requires
        0 <= at < signatures.len(),
    ensures
        signed_slots(signatures.update(at, signature)) + (if signatures[at] != unsigned() {
            1nat
        } else {
            0nat
        }) == signed_slots(signatures) + (if signature != unsigned() {
            1nat
        } else {
            0nat
        }),
    decreases signatures.len(),
{
    let after = signatures.update(at, signature);
    if at == signatures.len() - 1 {
        assert(after.drop_last() =~= signatures.drop_last());
    } else {
        assert(after.drop_last() =~= signatures.drop_last().update(at, signature));
        lemma_slot_replaced(signatures.drop_last(), at, signature);
    }
}

/// A transaction that is newly compiled and signed by the one who pays has
/// as many slots as the message asks for signatures. The payer's slot holds
/// the signature that the payer's key pair gives to the message, and every
/// other slot is unsigned: at most one slot is signed, and exactly one
/// unless the signature given is the all-zero one.
pub proof fn lemma_started_with_one_signature(
    instructions: Seq<InstructionView>,
    payer: Keypair,
    token: Blockhash,
    started: TransactionView,
)
    requires
        signed_plan(instructions, payer, token) == Ok::<TransactionView, TransactionError>(started),
    ensures
        ({
            let slot = position_of(started.message.signer_keys(), payer.spec_pubkey());
            &&& started.message == compiled_message(instructions, payer.key()).with_blockhash(token)
            &&& started.signatures.len() == started.message.header.num_required_signatures
            &&& 0 <= slot < started.signatures.len()
            &&& started.message.signer_keys()[slot]@ == payer.spec_pubkey()
            &&& signature_of(payer.bytes@, message_data(started.message)) == Some(
                started.signatures[slot],
            )
            &&& forall|i: int|
                0 <= i < started.signatures.len() && i != slot ==> started.signatures[i]
                    == unsigned()
            &&& signed_slots(started.signatures) == if started.signatures[slot] != unsigned() {
                1nat
            } else {
                0nat
            }
        }),
{
    let message = compiled_message(instructions, payer.key());
    let fresh = unsigned_transaction(message);
    let slot = position_of(message.signer_keys(), payer.spec_pubkey());
    lemma_position_of(message.signer_keys(), payer.spec_pubkey());
    assert(started.message.signer_keys() == message.signer_keys());
    let kept = all_unsigned(fresh.signatures.len());
    assert(kept =~= fresh.signatures);
    lemma_none_signed(kept);
    lemma_slot_replaced(kept, slot, started.signatures[slot]);
    assert(started.signatures =~= kept.update(slot, started.signatures[slot]));
}

/// A signing step for the token that the message has puts the signature
/// that the signer's key pair gives to the message into the signer's slot
/// and touches nothing else: where the slot was unsigned, one more slot is
/// signed than before, unless the signature given is the all-zero one.
pub proof fn lemma_sign_adds_one(tx: TransactionView, keypair: Keypair, signed: TransactionView)
    requires
        sign_outcome(tx, keypair, tx.message.recent_blockhash) == Ok::<
            TransactionView,
            TransactionError,
        >(signed),
    ensures
        ({
            let slot = position_of(tx.message.signer_keys(), keypair.spec_pubkey());
            &&& 0 <= slot < tx.signatures.len()
            &&& tx.message.signer_keys()[slot]@ == keypair.spec_pubkey()
            &&& signature_of(keypair.bytes@, message_data(tx.message)) == Some(
                signed.signatures[slot],
            )
            &&& signed_slots(signed.signatures) + (if tx.signatures[slot] != unsigned() {
                1nat
            } else {
                0nat
            }) == signed_slots(tx.signatures) + (if signed.signatures[slot] != unsigned() {
                1nat
            } else {
                0nat
            })
        }),
{
    let slot = position_of(tx.message.signer_keys(), keypair.spec_pubkey());
    lemma_position_of(tx.message.signer_keys(), keypair.spec_pubkey());
    assert(tx.message.with_blockhash(tx.message.recent_blockhash) == tx.message);
    lemma_slot_replaced(tx.signatures, slot, signed.signatures[slot]);
    assert(signed.signatures =~= tx.signatures.update(slot, signed.signatures[slot]));
}

} // verus!
