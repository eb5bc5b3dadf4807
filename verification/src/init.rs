//! Creation of a named instance and of its administrator record.

use crate::account::{AccountInfo, CreateAccount, Effect, ProgramError};
use crate::codec::{key_views, str_bytes};
use crate::error::{Error, ValidationError};
use crate::instruction::{carries, AccountMeta, Instruction};
use crate::payload::{get_quorum, put_quorum, Payload};
use crate::pda::{
    derives, find_program_address, found_program_address, seed_from, seed_views,
    verify_program_address, MAX_SEED_LEN,
};
use crate::pubkey::Pubkey;
use crate::state::{
    has_duplicates, has_empty, holds_empty, lemma_members_of_packed, packed_from, AdminConfig, SlqInstance, INSTANCE_SIZE,
    MAX_ADMIN_ACCOUNTS,
};
use vstd::prelude::*;
use vstd::string::StringSliceAdditionalSpecFns;

verus! {

/// The bytes of `"instance"`, the first seed of an instance's address.
pub open spec fn instance_tag() -> Seq<u8> {
    seq![105u8, 110u8, 115u8, 116u8, 97u8, 110u8, 99u8, 101u8]
}

/// The seeds of the address of the instance named by `name`.
pub open spec fn instance_seeds(name: Seq<u8>) -> Seq<Seq<u8>> {
    seq![instance_tag(), name]
}

/// The seeds of the address of the instance named `instance_name`.
pub fn instance_seed_list(instance_name: &str) -> (seeds: Vec<Vec<u8>>)
    ensures
        seed_views(seeds@) == instance_seeds(instance_name.spec_bytes()),
{
    let tag: Vec<u8> = vec![105u8, 110u8, 115u8, 116u8, 97u8, 110u8, 99u8, 101u8];
    let mut seeds: Vec<Vec<u8>> = Vec::new();
    seeds.push(tag);
    seeds.push(seed_from(instance_name.as_bytes()));
    proof {
        assert(seeds@[0]@ =~= instance_tag());
        assert(seed_views(seeds@) =~= instance_seeds(instance_name.spec_bytes()));
    }
    seeds
}

/// Derives the address of the instance named `instance_name`, and its bump.
///
/// There is none for a name of more than 32 bytes.
pub fn make_instance_pda(program_id: &Pubkey, instance_name: &str) -> (found: Option<(Pubkey, u8)>)
    ensures
        match found {
            Some((address, bump)) => derives(
                instance_seeds(instance_name.spec_bytes()),
                *program_id,
                address,
                bump,
            ),
            None => found_program_address(instance_seeds(instance_name.spec_bytes()), program_id@)
                is None,
        },
        instance_name.spec_bytes().len() > MAX_SEED_LEN ==> found is None,
{
    let seeds = instance_seed_list(instance_name);
    proof {
        if instance_name.spec_bytes().len() > MAX_SEED_LEN {
            assert(seed_views(seeds@)[1].len() > MAX_SEED_LEN);
        }
    }
    find_program_address(&seeds, program_id)
}

/// Checks that `pda` and `pda_bump_seed` are the address and bump derived for
/// the instance named `seed`.
pub fn verify_pda(
    program_id: &Pubkey,
    seed: &str,
    pda: &Pubkey,
    pda_bump_seed: u8,
) -> (r: Result<(), ProgramError>)
    ensures
        r is Ok <==> derives(instance_seeds(seed.spec_bytes()), *program_id, *pda, pda_bump_seed),
        r is Err ==> r == Err::<(), ProgramError>(ProgramError::AddressMismatch),
{
    let seeds = instance_seed_list(seed);
    if verify_program_address(&seeds, program_id, pda, pda_bump_seed) {
        Ok(())
    } else {
        Err(ProgramError::AddressMismatch)
    }
}

/// Lays a list of identities out in the record's slots: the list first, the
/// empty identity in every slot after it.
pub fn create_admin_accounts_array(accounts: &[Pubkey]) -> (array: [Pubkey; MAX_ADMIN_ACCOUNTS])
    requires
        accounts@.len() <= MAX_ADMIN_ACCOUNTS,
    ensures
        packed_from(array@, accounts@),
{
    let mut array = [Pubkey::empty(); MAX_ADMIN_ACCOUNTS];
    let mut i: usize = 0;
    while i < accounts.len()
        invariant
            i <= accounts.len() <= MAX_ADMIN_ACCOUNTS,
            forall|j: int| 0 <= j < i ==> array[j] == accounts[j],
            forall|j: int| i <= j < MAX_ADMIN_ACCOUNTS ==> (#[trigger] array[j]).is_empty(),
        decreases accounts.len() - i,
    {
        array[i] = accounts[i];
        i += 1;
    }
    array
}

/// The rules that a new record's threshold and identities must meet, in the
/// order in which they are tried: a threshold above zero; at least one
/// identity, and no more than the record has slots; none of them the empty
/// identity; a threshold no greater than their number; none of them twice.
pub open spec fn quorum_refusal(
    approval_threshold: u8,
    accounts: Seq<Pubkey>,
    capacity: usize,
) -> Option<ValidationError> {
    if approval_threshold == 0 {
        Some(ValidationError::ThresholdZero)
    } else if accounts.len() == 0 {
        Some(ValidationError::NoAccounts)
    } else if accounts.len() > capacity {
        Some(ValidationError::TooManyAccounts { capacity })
    } else if holds_empty(accounts) {
        Some(ValidationError::EmptyAccount)
    } else if approval_threshold > accounts.len() {
        Some(ValidationError::ThresholdAboveAccounts)
    } else if !accounts.no_duplicates() {
        Some(ValidationError::DuplicateAccounts)
    } else {
        None
    }
}

/// Tries the rules of [`quorum_refusal`].
pub fn validate_quorum(
    approval_threshold: u8,
    accounts: &Vec<Pubkey>,
    capacity: usize,
) -> (r: Result<(), ValidationError>)
    ensures
        match r {
            Ok(()) => quorum_refusal(approval_threshold, accounts@, capacity) is None,
            Err(e) => quorum_refusal(approval_threshold, accounts@, capacity) == Some(e),
        },
{
    if approval_threshold == 0 {
        return Err(ValidationError::ThresholdZero);
    }
    if accounts.len() == 0 {
        return Err(ValidationError::NoAccounts);
    }
    if accounts.len() > capacity {
        return Err(ValidationError::TooManyAccounts { capacity });
    }
    if has_empty(accounts) {
        return Err(ValidationError::EmptyAccount);
    }
    if approval_threshold as usize > accounts.len() {
        return Err(ValidationError::ThresholdAboveAccounts);
    }
    if has_duplicates(accounts) {
        return Err(ValidationError::DuplicateAccounts);
    }
    Ok(())
}

/// Whether `instruction` is the one that carries the creation of a record
/// to the program: it names the payer, the address derived from `seeds` and
/// the system program, and its data is the operation with the derived bump.
pub open spec fn addresses_new_record(
    instruction: Instruction,
    program_id: Pubkey,
    rent_payer: Pubkey,
    seeds: Seq<Seq<u8>>,
    operation: spec_fn(u8) -> Payload,
) -> bool {
    exists|address: Pubkey, bump: u8|
        {
            &&& derives(seeds, program_id, address, bump)
            &&& carries(
                instruction@,
                program_id,
                seq![
                    AccountMeta::spec_new(rent_payer, true),
                    AccountMeta::spec_new(address, false),
                    AccountMeta::spec_new_readonly(Pubkey::system_program(), false),
                ],
                operation(bump).wire(),
            )
        }
}

/// Builds the instruction of [`addresses_new_record`] for the address
/// `address` and the operation `data`.
pub fn new_record_instruction(
    program_id: &Pubkey,
    rent_payer: &Pubkey,
    address: Pubkey,
    data: Vec<u8>,
) -> (instruction: Instruction)
    ensures
        carries(
            instruction@,
            *program_id,
            seq![
                AccountMeta::spec_new(*rent_payer, true),
                AccountMeta::spec_new(address, false),
                AccountMeta::spec_new_readonly(Pubkey::system_program(), false),
            ],
            data@,
        ),
{
    let mut accounts: Vec<AccountMeta> = Vec::new();
    accounts.push(AccountMeta::new(*rent_payer, true));
    accounts.push(AccountMeta::new(address, false));
    accounts.push(AccountMeta::new_readonly(Pubkey::system_program_id(), false));
    let instruction = Instruction { program_id: *program_id, accounts, data };
    assert(instruction@.accounts =~= seq![
        AccountMeta::spec_new(*rent_payer, true),
        AccountMeta::spec_new(address, false),
        AccountMeta::spec_new_readonly(Pubkey::system_program(), false),
    ]);
    instruction
}

/// The creation of the instance named by `name`, for each bump.
pub open spec fn init_operation(
    name: Seq<u8>,
    approval_threshold: u8,
    accounts: Seq<Pubkey>,
) -> spec_fn(u8) -> Payload {
    |bump: u8|
        Payload::InitializeInstance {
            name,
            approval_threshold,
            admin_accounts: key_views(accounts),
            bump,
        }
}

/// The operations that create instances.
#[derive(Clone, Debug, PartialEq, Eq)]
pub enum SlqInitializeInstanceInstruction {
    Init(Init),
}

/// Creates the instance `instance_name` with its first administrators.
///
/// Accounts: the payer (writable, signer); the instance's derived address
/// (writable, not yet in use); the system program.
#[derive(Clone, Debug, PartialEq, Eq)]
pub struct Init {
    pub instance_name: String,
    pub approval_threshold: u8,
    pub admin_accounts: Vec<Pubkey>,
    pub instance_pda_bump_seed: u8,
}

impl Init {
    /// The operation as a mathematical value.
    pub open spec fn payload(&self) -> Payload {
        Payload::InitializeInstance {
            name: str_bytes(&self.instance_name),
            approval_threshold: self.approval_threshold,
            admin_accounts: key_views(self.admin_accounts@),
            bump: self.instance_pda_bump_seed,
        }
    }

    /// The rule that the operation breaks, if it breaks one.
    pub open spec fn refusal(&self) -> Option<ValidationError> {
        quorum_refusal(self.approval_threshold, self.admin_accounts@, MAX_ADMIN_ACCOUNTS)
    }

    /// Checks the threshold and the identities: a threshold above zero, at
    /// least one identity and at most as many as the record has slots, none
    /// of them the empty identity, a threshold no greater than their number,
    /// and no identity twice.
    pub fn validate(&self) -> (r: Result<(), ValidationError>)
        ensures
            match r {
                Ok(()) => self.refusal() is None,
                Err(e) => self.refusal() == Some(e),
            },
    {
        validate_quorum(self.approval_threshold, &self.admin_accounts, MAX_ADMIN_ACCOUNTS)
    }

    /// Writes the operation's fields.
    pub fn put(&self, out: &mut Vec<u8>)
        requires
            self.payload().encodable(),
        ensures
            final(out)@ == old(out)@ + self.payload().fields(),
    {
        put_quorum(
            out,
            self.instance_name.as_str(),
            self.approval_threshold,
            &self.admin_accounts,
            self.instance_pda_bump_seed,
        );
    }

    /// Reads the operation's fields from position `pos`.
    pub fn get(data: &[u8], pos: usize) -> (r: Option<(Init, usize)>)
        requires
            pos <= data.len(),
        ensures
            match r {
                Some((init, next)) => next <= data.len() && crate::payload::parse_fields(
                    crate::payload::TAG_INITIALIZE_INSTANCE,
                    0,
                    crate::codec::tail(data@, pos as int),
                ) == Some((init.payload(), crate::codec::tail(data@, next as int))),
                None => crate::payload::parse_fields(
                    crate::payload::TAG_INITIALIZE_INSTANCE,
                    0,
                    crate::codec::tail(data@, pos as int),
                ) is None,
            },
    {
        match get_quorum(data, pos) {
            Some(((instance_name, approval_threshold, admin_accounts, instance_pda_bump_seed), next)) => Some(
                (
                    Init {
                        instance_name,
                        approval_threshold,
                        admin_accounts,
                        instance_pda_bump_seed,
                    },
                    next,
                ),
            ),
            None => None,
        }
    }

    /// Builds the instruction that creates the instance `instance_name`.
    ///
    /// The instruction names the payer, the instance's derived address and
    /// the system program, and carries the operation with the derived bump.
    /// It is refused where no address can be derived for the name, and where
    /// the threshold and identities break a rule.
    pub fn build_instruction(
        program_id: &Pubkey,
        rent_payer: &Pubkey,
        instance_name: String,
        approval_threshold: u8,
        admin_accounts: Vec<Pubkey>,
    ) -> (r: Result<Instruction, Error>)
        ensures
            match r {
                Ok(instruction) => {
                    &&& quorum_refusal(approval_threshold, admin_accounts@, MAX_ADMIN_ACCOUNTS)
                        is None
                    &&& addresses_new_record(
                        instruction,
                        *program_id,
                        *rent_payer,
                        instance_seeds(str_bytes(&instance_name)),
                        init_operation(
                            str_bytes(&instance_name),
                            approval_threshold,
                            admin_accounts@,
                        ),
                    )
                },
                Err(Error::NoProgramAddress) => found_program_address(
                    instance_seeds(str_bytes(&instance_name)),
                    program_id@,
                ) is None,
                Err(Error::Validation(e)) => {
                    &&& found_program_address(
                        instance_seeds(str_bytes(&instance_name)),
                        program_id@,
                    ) is Some
                    &&& quorum_refusal(approval_threshold, admin_accounts@, MAX_ADMIN_ACCOUNTS)
                        == Some(e)
                },
                Err(_) => false,
            },
    {
        let (instance_pda, instance_pda_bump_seed) = match make_instance_pda(
            program_id,
            instance_name.as_str(),
        ) {
            Some(found) => found,
            None => { return Err(Error::NoProgramAddress); },
        };
        let instr = Init { instance_name, approval_threshold, admin_accounts, instance_pda_bump_seed };
        match instr.validate() {
            Ok(()) => {},
            Err(e) => { return Err(Error::Validation(e)); },
        }
        proof {
            broadcast use vstd::utf8::encode_utf8_valid_utf8;
            assert(crate::codec::all_key_sized(key_views(instr.admin_accounts@)));
        }
        let mut data: Vec<u8> = Vec::new();
        data.push(crate::payload::TAG_INITIALIZE_INSTANCE);
        data.push(0);
        instr.put(&mut data);
        assert(data@ =~= instr.payload().wire());
        Ok(new_record_instruction(program_id, rent_payer, instance_pda, data))
    }

    /// Why the program refuses the operation on these accounts, if it does.
    ///
    /// The checks come in this order: three accounts are named; the payer is
    /// writable and has signed; the instance's account is writable; it is
    /// not in use (owned by the system program, without balance or data);
    /// the third account is the system program and holds a program; the
    /// instance's address and bump are the derived ones; the payer can pay
    /// the record's least balance; the identities fit the record's slots.
    pub open spec fn exec_refusal(
        &self,
        program_id: Pubkey,
        accounts: Seq<AccountInfo>,
        rent_lamports: u64,
    ) -> Option<ProgramError> {
        if accounts.len() < 3 {
            Some(ProgramError::NotEnoughAccountKeys)
        } else if !accounts[0].is_writable {
            Some(ProgramError::AccountNotWritable)
        } else if !accounts[0].is_signer {
            Some(ProgramError::MissingRequiredSignature)
        } else if !accounts[1].is_writable {
            Some(ProgramError::AccountNotWritable)
        } else if accounts[1].owner != accounts[2].key || accounts[1].lamports > 0
            || accounts[1].data@.len() > 0 {
            Some(ProgramError::AccountAlreadyInitialized)
        } else if accounts[2].key != Pubkey::system_program() {
            Some(ProgramError::IncorrectProgramId)
        } else if !accounts[2].executable {
            Some(ProgramError::AccountNotExecutable)
        } else if !derives(
            instance_seeds(str_bytes(&self.instance_name)),
            program_id,
            accounts[1].key,
            self.instance_pda_bump_seed,
        ) {
            Some(ProgramError::AddressMismatch)
        } else if accounts[0].lamports < rent_lamports {
            Some(ProgramError::InsufficientFunds)
        } else if self.admin_accounts@.len() > MAX_ADMIN_ACCOUNTS {
            Some(ProgramError::AccountDataTooSmall)
        } else {
            None
        }
    }

    /// What the host is to carry out where the operation is accepted:
    /// allocate the instance's account with the record's least balance and
    /// size under the program's ownership, paid by the payer, and store the
    /// record, the threshold and the identities in the first slots.
    pub open spec fn exec_effect(
        &self,
        program_id: Pubkey,
        accounts: Seq<AccountInfo>,
        rent_lamports: u64,
        effect: Effect,
    ) -> bool {
        &&& effect matches Effect::CreateInstance { create, instance }
        &&& create == (CreateAccount {
            from: accounts[0].key,
            to: accounts[1].key,
            lamports: rent_lamports,
            space: INSTANCE_SIZE as u64,
            owner: program_id,
        })
        &&& instance.admin_config.approval_threshold == self.approval_threshold
        &&& packed_from(instance.admin_config.admin_accounts@, self.admin_accounts@)
    }

    /// Decides the operation on the accounts it names.
    pub fn exec(
        &self,
        program_id: &Pubkey,
        accounts: &[AccountInfo],
        rent_lamports: u64,
    ) -> (r: Result<Effect, ProgramError>)
        ensures
            match r {
                Ok(effect) => self.exec_refusal(*program_id, accounts@, rent_lamports) is None
                    && self.exec_effect(*program_id, accounts@, rent_lamports, effect),
                Err(e) => self.exec_refusal(*program_id, accounts@, rent_lamports) == Some(e),
            },
    {
        if accounts.len() < 3 {
            return Err(ProgramError::NotEnoughAccountKeys);
        }
        let rent_payer = &accounts[0];
        let instance_pda = &accounts[1];
        let system_program = &accounts[2];
        if !rent_payer.is_writable {
            return Err(ProgramError::AccountNotWritable);
        }
        if !rent_payer.is_signer {
            return Err(ProgramError::MissingRequiredSignature);
        }
        if !instance_pda.is_writable {
            return Err(ProgramError::AccountNotWritable);
        }
        if !instance_pda.owner.same(&system_program.key) || instance_pda.lamports > 0
            || instance_pda.data.len() > 0 {
            return Err(ProgramError::AccountAlreadyInitialized);
        }
        if !system_program.key.is_default() {
            return Err(ProgramError::IncorrectProgramId);
        }
        if !system_program.executable {
            return Err(ProgramError::AccountNotExecutable);
        }
        match verify_pda(
            program_id,
            self.instance_name.as_str(),
            &instance_pda.key,
            self.instance_pda_bump_seed,
        ) {
            Ok(()) => {},
            Err(e) => { return Err(e); },
        }
        if rent_payer.lamports < rent_lamports {
            return Err(ProgramError::InsufficientFunds);
        }
        if self.admin_accounts.len() > MAX_ADMIN_ACCOUNTS {
            return Err(ProgramError::AccountDataTooSmall);
        }
        let instance = SlqInstance {
            admin_config: AdminConfig {
                approval_threshold: self.approval_threshold,
                admin_accounts: create_admin_accounts_array(self.admin_accounts.as_slice()),
            },
        };
        Ok(
            Effect::CreateInstance {
                create: CreateAccount {
                    from: rent_payer.key,
                    to: instance_pda.key,
                    lamports: rent_lamports,
                    space: INSTANCE_SIZE as u64,
                    owner: *program_id,
                },
                instance,
            },
        )
    }
}

/// Decides an operation of this subsystem on the accounts it names.
pub fn exec(
    program_id: &Pubkey,
    accounts: &[AccountInfo],
    instr: &SlqInitializeInstanceInstruction,
    rent_lamports: u64,
) -> (r: Result<Effect, ProgramError>)
    ensures
        instr matches SlqInitializeInstanceInstruction::Init(init) && match r {
            Ok(effect) => init.exec_refusal(*program_id, accounts@, rent_lamports) is None
                && init.exec_effect(*program_id, accounts@, rent_lamports, effect),
            Err(e) => init.exec_refusal(*program_id, accounts@, rent_lamports) == Some(e),
        },
{
    match instr {
        SlqInitializeInstanceInstruction::Init(init) => init.exec(program_id, accounts, rent_lamports),
    }
}

/// A record created from a threshold and identities that pass validation
/// obeys the M-of-N rule, and its members are those identities in the order
/// given.
pub proof fn lemma_validated_init_is_valid(
    approval_threshold: u8,
    accounts: Seq<Pubkey>,
    config: AdminConfig,
)
    requires
        quorum_refusal(approval_threshold, accounts, MAX_ADMIN_ACCOUNTS) is None,
        config.approval_threshold == approval_threshold,
        packed_from(config.admin_accounts@, accounts),
    ensures
        config.valid(),
        config.members() == accounts,
{
    lemma_members_of_packed(config.admin_accounts@, accounts);
    crate::state::lemma_filter_all(accounts, crate::state::occupied());
}

/// The record that the program stores for a creation that passed validation
/// obeys the M-of-N rule.
pub proof fn lemma_created_record_is_valid(
    init: Init,
    program_id: Pubkey,
    accounts: Seq<AccountInfo>,
    rent_lamports: u64,
    effect: Effect,
)
    requires
        init.refusal() is None,
        init.exec_effect(program_id, accounts, rent_lamports, effect),
    ensures
        effect matches Effect::CreateInstance { instance, .. } && instance.admin_config.valid()
            && instance.admin_config.members() == init.admin_accounts@,
{
    if let Effect::CreateInstance { instance, .. } = effect {
        lemma_validated_init_is_valid(
            init.approval_threshold,
            init.admin_accounts@,
            instance.admin_config,
        );
    }
}

/// Creation is not idempotent: once the host has carried out an accepted
/// creation, so that the instance's account is owned by the program and
/// holds the record, the same operation on the same accounts is refused as
/// already initialized.
pub proof fn lemma_init_twice_refused(
    init: Init,
    program_id: Pubkey,
    before: Seq<AccountInfo>,
    after: Seq<AccountInfo>,
    rent_lamports: u64,
    later_rent_lamports: u64,
)
    requires
        init.exec_refusal(program_id, before, rent_lamports) is None,
        after.len() == before.len(),
        after[0].is_writable == before[0].is_writable,
        after[0].is_signer == before[0].is_signer,
        after[1].is_writable == before[1].is_writable,
        after[1].data@.len() == INSTANCE_SIZE,
    ensures
        init.exec_refusal(program_id, after, later_rent_lamports) == Some(
            ProgramError::AccountAlreadyInitialized,
        ),
{
}

} // verus!
