//! Coordination of a transaction that several parties sign one after the
//! other, none of them online with another.
//!
//! A transaction for the ledger ordinarily carries a short-lived token,
//! which expires before every party has signed. Here the transaction takes
//! its authorization from a temporary nonce record instead: the record's
//! value does not expire, and the ledger consumes it with the first use.
//! The steps are: *start*, which wraps a user's transaction for the nonce
//! and signs it for the initiator; *sign*, once for each further party;
//! *exec*, which lets a fully signed transaction through; and *cancel*,
//! which empties the nonce record and so invalidates every copy.
//!
//! What passes between the steps is the partially signed transaction. Where
//! it is kept, and how it reaches the ledger, is the caller's business.

use crate::admin::ChangeApprovalThresholdAdmin;
use crate::instruction::{instruction_views, Instruction, InstructionView};
use crate::pubkey::Pubkey;
use crate::system_instruction::{
    create_nonce_account, is_advance_nonce, is_create_account, is_initialize_nonce,
    is_withdraw_nonce, withdraw_nonce_account, NONCE_STATE_SIZE,
};
use crate::transaction::{
    compiled_message, follows, instruction_in_table, instructions_table,
    sign_outcome, signed_plan, too_many_accounts, unsigned_transaction, Blockhash, Keypair, Message, MessageView,
    Transaction, TransactionError, TransactionView,
};
use vstd::prelude::*;
use vstd::string::{StringExecFns, StringSliceAdditionalSpecFns};

verus! {

/// The steps of a multi-party transaction.
#[derive(Clone, Debug, PartialEq, Eq)]
pub enum MultisigTxCommand {
    /// Wrap a user's transaction for a fresh nonce record and sign it.
    StartTransaction(StartTransaction),
    /// Add one party's signature.
    SignTransaction(SignTransaction),
    /// Send the fully signed transaction.
    ExecTransaction(ExecTransaction),
    /// Empty the nonce record. Only the party that started the transaction
    /// can do so.
    CancelTransaction(CancelTransaction),
    /// Start a transaction that destroys an instance.
    StartDestroy(StartDestroy),
    /// Make a sample transaction to start from.
    DemoTransaction(DemoTransaction),
}

/// Starts the transaction kept at `transaction_path`.
#[derive(Clone, Debug, PartialEq, Eq)]
pub struct StartTransaction {
    pub instance_name: String,
    /// Tells this transaction's nonce record from others.
    pub transaction_name: String,
    pub transaction_path: String,
}

/// Signs the transaction kept at `transaction_path`.
#[derive(Clone, Debug, PartialEq, Eq)]
pub struct SignTransaction {
    pub transaction_path: String,
}

/// Sends the transaction kept at `transaction_path`.
#[derive(Clone, Debug, PartialEq, Eq)]
pub struct ExecTransaction {
    pub transaction_path: String,
}

/// Cancels the transaction kept at `transaction_path`.
#[derive(Clone, Debug, PartialEq, Eq)]
pub struct CancelTransaction {
    pub transaction_path: String,
}

/// Starts the destruction of the instance `instance_name`.
#[derive(Clone, Debug, PartialEq, Eq)]
pub struct StartDestroy {
    pub instance_name: String,
}

/// Makes a sample transaction to be kept at `transaction_path`.
#[derive(Clone, Debug, PartialEq, Eq)]
pub struct DemoTransaction {
    pub transaction_path: String,
}

/// The transaction that a plan ends in once the plan's transaction is
/// complete: the transaction itself, or the fact that a slot is unsigned.
pub open spec fn completed(
    plan: Result<TransactionView, TransactionError>,
) -> Result<TransactionView, TransactionError> {
    match plan {
        Ok(tx) => if tx.signatures.len() == tx.message.header.num_required_signatures
            && tx.is_signed() {
            Ok(tx)
        } else {
            Err(TransactionError::NotEnoughSigners)
        },
        Err(e) => Err(e),
    }
}

/// Lets a transaction through if every slot it needs is there and signed.
fn complete(tx: Transaction) -> (r: Result<Transaction, TransactionError>)
    ensures
        follows(completed(Ok(tx@)), r),
{
    if tx.signatures.len() != tx.message.header.num_required_signatures as usize || !tx.is_signed() {
        return Err(TransactionError::NotEnoughSigners);
    }
    Ok(tx)
}

/// Compiles `instructions` into a transaction paid by `payer` and signs it
/// with the payer's key pair for the token `token`.
fn sign_new(
    instructions: &Vec<Instruction>,
    payer: &Keypair,
    token: &Blockhash,
) -> (r: Result<Transaction, TransactionError>)
    ensures
        follows(signed_plan(instruction_views(instructions@), *payer, *token), r),
{
    let message = match Message::compile(instructions, &payer.pubkey()) {
        Ok(message) => message,
        Err(e) => { return Err(e); },
    };
    let mut tx = Transaction::new_unsigned(message);
    assert(tx@ == unsigned_transaction(message@));
    match tx.try_partial_sign(payer, token) {
        Ok(()) => Ok(tx),
        Err(e) => Err(e),
    }
}

/// Compiles `instructions` into a transaction paid by `payer`, signs it
/// for the token `token` with the key pair `nonce` and then with the
/// payer's, and lets it through if it is complete.
fn sign_setup(
    instructions: &Vec<Instruction>,
    payer: &Keypair,
    nonce: &Keypair,
    token: &Blockhash,
) -> (r: Result<Transaction, TransactionError>)
    ensures
        follows(setup_plan(instruction_views(instructions@), *payer, *nonce, *token), r),
{
    let message = match Message::compile(instructions, &payer.pubkey()) {
        Ok(message) => message,
        Err(e) => { return Err(e); },
    };
    let mut tx = Transaction::new_unsigned(message);
    assert(tx@ == unsigned_transaction(message@));
    match tx.try_partial_sign(nonce, token) {
        Ok(()) => {},
        Err(e) => { return Err(e); },
    }
    match tx.try_partial_sign(payer, token) {
        Ok(()) => complete(tx),
        Err(e) => Err(e),
    }
}

/// The path at which a started transaction is kept.
pub open spec fn started_path(
    transaction_path: Seq<char>,
    transaction_name: Seq<char>,
) -> Seq<char> {
    transaction_path + "-"@ + transaction_name + "-multisig-tx"@
}

/// The path at which a transaction is kept after one more party has signed.
pub open spec fn signed_path(transaction_path: Seq<char>) -> Seq<char> {
    transaction_path + "-signed"@
}

/// The setup transaction's plan: the allocation and initialization of the
/// nonce record, paid by `payer`, signed for the short-lived token first
/// with the nonce record's own key pair and then with the payer's.
pub open spec fn setup_plan(
    instructions: Seq<InstructionView>,
    payer: Keypair,
    nonce: Keypair,
    recent_blockhash: Blockhash,
) -> Result<TransactionView, TransactionError> {
    if too_many_accounts(instructions, payer.key()) {
        Err(TransactionError::TooManyAccounts)
    } else {
        match sign_outcome(
            unsigned_transaction(compiled_message(instructions, payer.key())),
            nonce,
            recent_blockhash,
        ) {
            Ok(tx) => completed(sign_outcome(tx, payer, recent_blockhash)),
            Err(e) => Err(e),
        }
    }
}

/// Whether `r` is the setup transaction: it follows [`setup_plan`] for the
/// allocation of the nonce record at the identity of `nonce`, funded with
/// `nonce_rent` by the payer, and its initialization under the payer's
/// authority.
pub open spec fn setup_outcome(
    payer: Keypair,
    nonce: Keypair,
    nonce_rent: u64,
    recent_blockhash: Blockhash,
    r: Result<Transaction, TransactionError>,
) -> bool {
    exists|create: InstructionView, initialize: InstructionView|
        #![trigger is_create_account(
            create,
            payer.key(),
            nonce.key(),
            nonce_rent,
            NONCE_STATE_SIZE,
            Pubkey::system_program(),
        ), is_initialize_nonce(initialize, nonce.key(), payer.key())]
        {
            &&& is_create_account(
                create,
                payer.key(),
                nonce.key(),
                nonce_rent,
                NONCE_STATE_SIZE,
                Pubkey::system_program(),
            )
            &&& is_initialize_nonce(initialize, nonce.key(), payer.key())
            &&& follows(setup_plan(seq![create, initialize], payer, nonce, recent_blockhash), r)
        }
}

/// Whether `r` is the answer of the start step.
///
/// The user's instructions are read out of the user's transaction. A
/// message that cannot be read is refused. Else the transaction carries, in
/// this order: the advance of the nonce record on the payer's authority;
/// the user's instructions in their order; and the withdrawal of the nonce
/// record's balance to the payer. It is paid by the payer and signed with
/// the payer's key pair for the nonce's value.
pub open spec fn start_outcome(
    user: MessageView,
    payer: Keypair,
    nonce: Pubkey,
    nonce_rent: u64,
    nonce_hash: Blockhash,
    r: Result<Transaction, TransactionError>,
) -> bool {
    match instructions_table(user) {
        None => r matches Err(e) && e == TransactionError::InvalidMessage,
        Some(table) => if exists|j: int|
            0 <= j < user.instructions.len() && #[trigger] instruction_in_table(j, table) is None {
            r matches Err(e) && e == TransactionError::MissingInstruction
        } else {
            exists|advance: InstructionView, read: Seq<InstructionView>, withdraw: InstructionView|
                #![trigger is_advance_nonce(advance, nonce, payer.key()), read.len(), is_withdraw_nonce(
                    withdraw,
                    nonce,
                    payer.key(),
                    payer.key(),
                    nonce_rent,
                )]
                {
                    &&& is_advance_nonce(advance, nonce, payer.key())
                    &&& read.len() == user.instructions.len()
                    &&& forall|j: int|
                        0 <= j < read.len() ==> instruction_in_table(j, table) == Some(
                            #[trigger] read[j],
                        )
                    &&& is_withdraw_nonce(withdraw, nonce, payer.key(), payer.key(), nonce_rent)
                    &&& follows(
                        signed_plan(seq![advance] + read.push(withdraw), payer, nonce_hash),
                        r,
                    )
                }
        },
    }
}

impl StartTransaction {
    /// Builds the setup transaction, which allocates the nonce record at the
    /// identity of `nonce`, funds it with `nonce_rent` from the payer and
    /// puts it under the payer's authority. It is complete as it stands: the
    /// nonce record's key pair and the payer's both sign it, for the
    /// short-lived token `recent_blockhash`.
    pub fn nonce_setup(
        payer: &Keypair,
        nonce: &Keypair,
        nonce_rent: u64,
        recent_blockhash: &Blockhash,
    ) -> (r: Result<Transaction, TransactionError>)
        ensures
            setup_outcome(*payer, *nonce, nonce_rent, *recent_blockhash, r),
    {
        let payer_key = payer.pubkey();
        let nonce_key = nonce.pubkey();
        let instructions = create_nonce_account(&payer_key, &nonce_key, &payer_key, nonce_rent);
        let r = sign_setup(&instructions, payer, nonce, recent_blockhash);
        proof {
            let views = seq![instructions@[0]@, instructions@[1]@];
            assert(instruction_views(instructions@) =~= views);
            assert(follows(setup_plan(views, *payer, *nonce, *recent_blockhash), r));
        }
        r
    }

    /// The start step: wraps the user's transaction `user` for the nonce
    /// record `nonce`, whose value on the ledger is `nonce_hash`, and signs
    /// it for the payer, as [`start_outcome`] says.
    pub fn exec(
        &self,
        user: &Transaction,
        payer: &Keypair,
        nonce: &Pubkey,
        nonce_rent: u64,
        nonce_hash: &Blockhash,
    ) -> (r: Result<Transaction, TransactionError>)
        ensures
            start_outcome(user@.message, *payer, *nonce, nonce_rent, *nonce_hash, r),
    {
        let payer_key = payer.pubkey();
        let mut instructions = match user.message.decompile() {
            Ok(instructions) => instructions,
            Err(e) => { return Err(e); },
        };
        let ghost old_instructions = instructions@;
        let ghost read = instruction_views(instructions@);
        let withdraw = withdraw_nonce_account(nonce, &payer_key, &payer_key, nonce_rent);
        let ghost last = withdraw@;
        instructions.push(withdraw);
        proof {
            assert(instruction_views(instructions@) =~= read.push(last));
        }
        let compiled = Message::compile_with_nonce(&instructions, &payer_key, nonce, &payer_key);
        let ghost advance = choose|advance: InstructionView|
            #![trigger is_advance_nonce(advance, *nonce, payer_key)]
            is_advance_nonce(advance, *nonce, payer_key) && match compiled {
                Ok(message) => {
                    &&& !too_many_accounts(seq![advance] + read.push(last), payer_key)
                    &&& message@ == compiled_message(seq![advance] + read.push(last), payer_key)
                },
                Err(e) => {
                    &&& e == TransactionError::TooManyAccounts
                    &&& too_many_accounts(seq![advance] + read.push(last), payer_key)
                },
            };
        let r = match compiled {
            Ok(message) => {
                let mut tx = Transaction::new_unsigned(message);
                assert(tx@ == unsigned_transaction(message@));
                match tx.try_partial_sign(payer, nonce_hash) {
                    Ok(()) => Ok(tx),
                    Err(e) => Err(e),
                }
            },
            Err(e) => Err(e),
        };
        proof {
            let table = instructions_table(user@.message).unwrap();
            assert(is_advance_nonce(advance, *nonce, payer.key()));
            assert(read.len() == user@.message.instructions.len());
            assert forall|j: int| 0 <= j < read.len() implies instruction_in_table(j, table)
                == Some(#[trigger] read[j]) by {
                assert(read[j] == old_instructions[j]@);
            }
            assert forall|j: int| 0 <= j < user@.message.instructions.len() implies (
            #[trigger] instruction_in_table(j, table)) is Some by {
                assert(read[j] == old_instructions[j]@);
            }
            assert(is_withdraw_nonce(last, *nonce, payer.key(), payer.key(), nonce_rent));
            assert(follows(signed_plan(seq![advance] + read.push(last), *payer, *nonce_hash), r));
        }
        r
    }

    /// The path at which the started transaction is to be kept: the user's
    /// path, then `-`, the transaction's name and `-multisig-tx`.
    pub fn artifact_path(&self) -> (path: String)
        ensures
            path@ == started_path(self.transaction_path@, self.transaction_name@),
    {
        let mut path = String::from_str(self.transaction_path.as_str());
        path.append("-");
        path.append(self.transaction_name.as_str());
        path.append("-multisig-tx");
        path
    }
}

impl SignTransaction {
    /// The sign step: adds the signature of `signer` to the transaction,
    /// for the nonce value that the transaction carries, as [`sign_outcome`]
    /// says. The message is not touched, so the signatures given before stay
    /// valid; signing twice with one key pair changes nothing.
    pub fn exec(
        &self,
        tx: Transaction,
        signer: &Keypair,
    ) -> (r: Result<Transaction, TransactionError>)
        ensures
            follows(sign_outcome(tx@, *signer, tx.message.recent_blockhash), r),
    {
        let mut tx = tx;
        let nonce_hash = tx.message.recent_blockhash;
        match tx.try_partial_sign(signer, &nonce_hash) {
            Ok(()) => Ok(tx),
            Err(e) => Err(e),
        }
    }

    /// The path at which the signed transaction is to be kept: the path it
    /// came from, then `-signed`.
    pub fn artifact_path(&self) -> (path: String)
        ensures
            path@ == signed_path(self.transaction_path@),
    {
        let mut path = String::from_str(self.transaction_path.as_str());
        path.append("-signed");
        path
    }
}

/// Why a transaction must not be sent, if it must not: a slot is missing or
/// unsigned; or the nonce in the transaction is not the value that the
/// nonce record holds on the ledger.
pub open spec fn submission_refusal(
    tx: TransactionView,
    ledger_nonce: Blockhash,
) -> Option<TransactionError> {
    if tx.signatures.len() != tx.message.header.num_required_signatures || !tx.is_signed() {
        Some(TransactionError::NotEnoughSigners)
    } else if tx.message.recent_blockhash != ledger_nonce {
        Some(TransactionError::StaleAuthorization)
    } else {
        None
    }
}

impl ExecTransaction {
    /// The exec step: decides whether the transaction may be sent, given
    /// the value `ledger_nonce` that the nonce record holds on the ledger.
    /// A transaction that is refused is never to be sent again as it is.
    pub fn exec(
        &self,
        tx: &Transaction,
        ledger_nonce: &Blockhash,
    ) -> (r: Result<(), TransactionError>)
        ensures
            match r {
                Ok(()) => submission_refusal(tx@, *ledger_nonce) is None,
                Err(e) => submission_refusal(tx@, *ledger_nonce) == Some(e),
            },
    {
        if tx.signatures.len() != tx.message.header.num_required_signatures as usize
            || !tx.is_signed() {
            return Err(TransactionError::NotEnoughSigners);
        }
        if !tx.message.recent_blockhash.same(ledger_nonce) {
            return Err(TransactionError::StaleAuthorization);
        }
        Ok(())
    }
}

/// A nonce is used once: when the ledger has taken a transaction, the nonce
/// record holds another value, and the same transaction is refused as stale
/// from then on.
pub proof fn lemma_second_submission_stale(tx: TransactionView, before: Blockhash, after: Blockhash)
    requires
        submission_refusal(tx, before) is None,
        after != before,
    ensures
        submission_refusal(tx, after) == Some(TransactionError::StaleAuthorization),
{
}

/// A transaction that lacks the signature of one whom its message asks to
/// sign is never let through, whatever the nonce record holds: neither
/// where the slot is missing nor where it is unsigned.
pub proof fn lemma_incomplete_is_refused(tx: TransactionView, ledger_nonce: Blockhash, slot: int)
    requires
        0 <= slot < tx.message.header.num_required_signatures,
        slot >= tx.signatures.len() || tx.signatures[slot] == crate::transaction::unsigned(),
    ensures
        submission_refusal(tx, ledger_nonce) == Some(TransactionError::NotEnoughSigners),
{
}

/// The nonce record that a transaction takes its authorization from: the
/// first account of its first instruction, where that instruction is for
/// the system program and is the advance of a nonce.
pub open spec fn nonce_account(message: MessageView) -> Option<Pubkey> {
    if message.instructions.len() == 0 {
        None
    } else {
        let first = message.instructions[0];
        if first.program_id_index >= message.account_keys.len() || message.account_keys[first.program_id_index as int]
            != Pubkey::system_program() || first.data != seq![4u8, 0u8, 0u8, 0u8]
            || first.accounts.len() == 0 || first.accounts[0] >= message.account_keys.len() {
            None
        } else {
            Some(message.account_keys[first.accounts[0] as int])
        }
    }
}

/// Finds the nonce record that a transaction takes its authorization from.
pub fn find_nonce_account(message: &Message) -> (found: Option<Pubkey>)
    ensures
        found == nonce_account(message@),
{
    if message.instructions.len() == 0 {
        return None;
    }
    let first = &message.instructions[0];
    assert(message@.instructions[0] == first@);
    if first.program_id_index as usize >= message.account_keys.len() {
        return None;
    }
    if !message.account_keys[first.program_id_index as usize].is_default() {
        return None;
    }
    if first.data.len() != 4 || first.data[0] != 4 || first.data[1] != 0 || first.data[2] != 0
        || first.data[3] != 0 {
        assert(first.data@ != seq![4u8, 0u8, 0u8, 0u8]) by {
            if first.data@.len() == 4 {
                assert(seq![4u8, 0u8, 0u8, 0u8][0] == 4u8);
                assert(seq![4u8, 0u8, 0u8, 0u8][1] == 0u8);
                assert(seq![4u8, 0u8, 0u8, 0u8][2] == 0u8);
                assert(seq![4u8, 0u8, 0u8, 0u8][3] == 0u8);
            }
        }
        return None;
    }
    assert(first.data@ =~= seq![4u8, 0u8, 0u8, 0u8]);
    if first.accounts.len() == 0 || first.accounts[0] as usize >= message.account_keys.len() {
        return None;
    }
    Some(message.account_keys[first.accounts[0] as usize])
}

/// Whether `r` is the answer of the cancel step: a transaction that does
/// not begin with the advance of a nonce record is refused; else the
/// transaction carries the withdrawal of the nonce record's balance to the
/// payer, on the payer's authority, and is paid and signed by the payer
/// alone.
pub open spec fn cancel_outcome(
    tx: MessageView,
    payer: Keypair,
    nonce_rent: u64,
    recent_blockhash: Blockhash,
    r: Result<Transaction, TransactionError>,
) -> bool {
    match nonce_account(tx) {
        None => r matches Err(e) && e == TransactionError::NotNonceTransaction,
        Some(nonce) => exists|withdraw: InstructionView|
            {
                &&& #[trigger] is_withdraw_nonce(
                    withdraw,
                    nonce,
                    payer.key(),
                    payer.key(),
                    nonce_rent,
                )
                &&& follows(completed(signed_plan(seq![withdraw], payer, recent_blockhash)), r)
            },
    }
}

impl CancelTransaction {
    /// The cancel step: builds the transaction that empties the nonce
    /// record of `tx` into the payer's account, as [`cancel_outcome`] says.
    /// Once the ledger has taken it, the nonce is gone and `tx` can never be
    /// sent.
    pub fn exec(
        &self,
        tx: &Transaction,
        payer: &Keypair,
        nonce_rent: u64,
        recent_blockhash: &Blockhash,
    ) -> (r: Result<Transaction, TransactionError>)
        ensures
            cancel_outcome(tx@.message, *payer, nonce_rent, *recent_blockhash, r),
    {
        let nonce = match find_nonce_account(&tx.message) {
            Some(nonce) => nonce,
            None => { return Err(TransactionError::NotNonceTransaction); },
        };
        let payer_key = payer.pubkey();
        let withdraw = withdraw_nonce_account(&nonce, &payer_key, &payer_key, nonce_rent);
        let ghost last = withdraw@;
        let mut instructions: Vec<Instruction> = Vec::new();
        instructions.push(withdraw);
        assert(instruction_views(instructions@) =~= seq![last]);
        let r = match sign_new(&instructions, payer, recent_blockhash) {
            Ok(signed) => complete(signed),
            Err(e) => Err(e),
        };
        assert(follows(completed(signed_plan(seq![last], *payer, *recent_blockhash)), r));
        r
    }
}

impl DemoTransaction {
    /// Makes a sample transaction: the change of the threshold of the
    /// instance `foo` to one, paid by `rent_payer`, with no slot signed.
    /// There is none where no address can be derived for the instance.
    pub fn exec(
        &self,
        program_id: &Pubkey,
        rent_payer: &Pubkey,
    ) -> (r: Result<Transaction, TransactionError>)
        ensures
            match r {
                Ok(tx) => exists|instruction: Instruction|
                    {
                        &&& #[trigger] crate::admin::addresses_instance(
                            instruction,
                            *program_id,
                            *rent_payer,
                            demo_instance(),
                            crate::admin::threshold_operation(demo_instance(), 1),
                        )
                        &&& unsigned_transaction(
                            compiled_message(seq![instruction@], *rent_payer),
                        ) == tx@
                    },
                Err(e) => e == TransactionError::NoProgramAddress
                    && crate::pda::found_program_address(
                    crate::init::instance_seeds(demo_instance()),
                    program_id@,
                ) is None,
            },
    {
        let name = String::from_str("foo");
        proof {
            reveal_strlit("foo");
            vstd::string::is_ascii_spec_bytes("foo");
            assert("foo".spec_bytes() =~= demo_instance());
            assert(crate::codec::str_bytes(&name) == demo_instance());
        }
        let instr = match ChangeApprovalThresholdAdmin::build_instruction(
            program_id,
            rent_payer,
            name,
            1,
        ) {
            Ok(instr) => instr,
            Err(_) => { return Err(TransactionError::NoProgramAddress); },
        };
        let ghost built = instr;
        let mut instructions: Vec<Instruction> = Vec::new();
        instructions.push(instr);
        proof {
            assert(instruction_views(instructions@) =~= seq![built@]);
            assert(built@.accounts.len() == 2);
            let one = seq![built@];
            assert(one.drop_last() =~= Seq::<InstructionView>::empty());
            assert(crate::transaction::mentioned_keys(one.drop_last()).len() == 0);
            assert(crate::transaction::mentioned_keys(one).len() == 3);
            crate::transaction::lemma_listed_accounts_bound(one, *rent_payer);
        }
        let message = match Message::compile(&instructions, rent_payer) {
            Ok(message) => message,
            Err(e) => { return Err(e); },
        };
        let tx = Transaction::new_unsigned(message);
        assert(tx@ == unsigned_transaction(compiled_message(seq![built@], *rent_payer)));
        Ok(tx)
    }
}

/// The bytes of `"foo"`, the name of the instance that the sample
/// transaction is about.
pub open spec fn demo_instance() -> Seq<u8> {
    seq![102u8, 111u8, 111u8]
}

} // verus!
