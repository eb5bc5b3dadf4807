//! Creation of an owner record: the M-of-N authority over a vault.

use crate::account::{AccountInfo, CreateAccount, Effect, ProgramError};
use crate::codec::{key_views, str_bytes, tail};
use crate::error::{Error, ValidationError};
use crate::init::{addresses_new_record, new_record_instruction, quorum_refusal, validate_quorum};
use crate::instruction::Instruction;
use crate::payload::{get_quorum, parse_fields, put_quorum, Payload, TAG_MULTISIG};
use crate::pda::{
    derives, find_program_address, found_program_address, seed_from, seed_views,
    verify_program_address, MAX_SEED_LEN,
};
use crate::pubkey::Pubkey;
pub use crate::state::MAX_MULTISIG_OWNERS;
use crate::state::{packed_from, MultisigConfigInstance, MULTISIG_INSTANCE_SIZE};
use vstd::prelude::*;
use vstd::string::StringSliceAdditionalSpecFns;

verus! {

/// The bytes of `"multisig-instance"`, the first seed of an owner record's
/// address.
pub open spec fn multisig_tag() -> Seq<u8> {
    seq![
        109u8, 117u8, 108u8, 116u8, 105u8, 115u8, 105u8, 103u8, 45u8, 105u8, 110u8, 115u8, 116u8,
        97u8, 110u8, 99u8, 101u8,
    ]
}

/// The seeds of the address of the owner record named by `name`.
pub open spec fn multisig_seeds(name: Seq<u8>) -> Seq<Seq<u8>> {
    seq![multisig_tag(), name]
}

/// The seeds of the address of the owner record named `instance_name`.
pub fn multisig_seed_list(instance_name: &str) -> (seeds: Vec<Vec<u8>>)
    ensures
        seed_views(seeds@) == multisig_seeds(instance_name.spec_bytes()),
{
    let tag: Vec<u8> = vec![
        109u8, 117u8, 108u8, 116u8, 105u8, 115u8, 105u8, 103u8, 45u8, 105u8, 110u8, 115u8, 116u8,
        97u8, 110u8, 99u8, 101u8,
    ];
    let mut seeds: Vec<Vec<u8>> = Vec::new();
    seeds.push(tag);
    seeds.push(seed_from(instance_name.as_bytes()));
    proof {
        assert(seeds@[0]@ =~= multisig_tag());
        assert(seed_views(seeds@) =~= multisig_seeds(instance_name.spec_bytes()));
    }
    seeds
}

/// Derives the address of the owner record named `instance_name`, and its
/// bump.
///
/// There is none for a name of more than 32 bytes.
pub fn make_instance_pda(program_id: &Pubkey, instance_name: &str) -> (found: Option<(Pubkey, u8)>)
    ensures
        match found {
            Some((address, bump)) => derives(
                multisig_seeds(instance_name.spec_bytes()),
                *program_id,
                address,
                bump,
            ),
            None => found_program_address(multisig_seeds(instance_name.spec_bytes()), program_id@)
                is None,
        },
        instance_name.spec_bytes().len() > MAX_SEED_LEN ==> found is None,
{
    let seeds = multisig_seed_list(instance_name);
    proof {
        if instance_name.spec_bytes().len() > MAX_SEED_LEN {
            assert(seed_views(seeds@)[1].len() > MAX_SEED_LEN);
        }
    }
    find_program_address(&seeds, program_id)
}

/// Checks that `pda` and `pda_bump_seed` are the address and bump derived for
/// the owner record named `seed`.
pub fn verify_pda(
    program_id: &Pubkey,
    seed: &str,
    pda: &Pubkey,
    pda_bump_seed: u8,
) -> (r: Result<(), ProgramError>)
    ensures
        r is Ok <==> derives(multisig_seeds(seed.spec_bytes()), *program_id, *pda, pda_bump_seed),
        r is Err ==> r == Err::<(), ProgramError>(ProgramError::AddressMismatch),
{
    let seeds = multisig_seed_list(seed);
    if verify_program_address(&seeds, program_id, pda, pda_bump_seed) {
        Ok(())
    } else {
        Err(ProgramError::AddressMismatch)
    }
}

/// Lays a list of identities out in the record's slots: the list first, the
/// empty identity in every slot after it.
pub fn create_owners_array(accounts: &[Pubkey]) -> (array: [Pubkey; MAX_MULTISIG_OWNERS])
    requires
        accounts@.len() <= MAX_MULTISIG_OWNERS,
    ensures
        packed_from(array@, accounts@),
{
    let mut array = [Pubkey::empty(); MAX_MULTISIG_OWNERS];
    let mut i: usize = 0;
    while i < accounts.len()
        invariant
            i <= accounts.len() <= MAX_MULTISIG_OWNERS,
            forall|j: int| 0 <= j < i ==> array[j] == accounts[j],
            forall|j: int| i <= j < MAX_MULTISIG_OWNERS ==> (#[trigger] array[j]).is_empty(),
        decreases accounts.len() - i,
    {
        array[i] = accounts[i];
        i += 1;
    }
    array
}

/// The creation of the owner record named by `name`, for each bump.
pub open spec fn multisig_operation(
    name: Seq<u8>,
    approval_threshold: u8,
    owners: Seq<Pubkey>,
) -> spec_fn(u8) -> Payload {
    |bump: u8| Payload::MultisigInit { name, approval_threshold, owners: key_views(owners), bump }
}

/// The operations on owner records.
#[derive(Clone, Debug, PartialEq, Eq)]
pub enum SlqMultisigInstruction {
    Init(Init),
}

/// Creates the owner record `instance_name` with its owners.
///
/// Accounts: the payer (writable, signer); the record's derived address
/// (writable, not yet in use); the system program.
#[derive(Clone, Debug, PartialEq, Eq)]
pub struct Init {
    pub instance_name: String,
    pub approval_threshold: u8,
    pub owners: Vec<Pubkey>,
    pub instance_pda_bump_seed: u8,
}

impl Init {
    /// The operation as a mathematical value.
    pub open spec fn payload(&self) -> Payload {
        Payload::MultisigInit {
            name: str_bytes(&self.instance_name),
            approval_threshold: self.approval_threshold,
            owners: key_views(self.owners@),
            bump: self.instance_pda_bump_seed,
        }
    }

    /// The rule that the operation breaks, if it breaks one.
    pub open spec fn refusal(&self) -> Option<ValidationError> {
        quorum_refusal(self.approval_threshold, self.owners@, MAX_MULTISIG_OWNERS)
    }

    /// Checks the threshold and the owners: a threshold above zero, at least
    /// one owner and at most as many as the record has slots, none of them
    /// the empty identity, a threshold no greater than their number, and no
    /// owner twice.
    pub fn validate(&self) -> (r: Result<(), ValidationError>)
        ensures
            match r {
                Ok(()) => self.refusal() is None,
                Err(e) => self.refusal() == Some(e),
            },
    {
        validate_quorum(self.approval_threshold, &self.owners, MAX_MULTISIG_OWNERS)
    }

    /// Writes the operation's fields.
    pub fn put(&self, out: &mut Vec<u8>)
        requires
            self.payload().encodable(),
        ensures
            final(out)@ == old(out)@ + self.payload().fields(),
    {
        put_quorum(
            out,
            self.instance_name.as_str(),
            self.approval_threshold,
            &self.owners,
            self.instance_pda_bump_seed,
        );
    }

    /// Reads the operation's fields from position `pos`.
    pub fn get(data: &[u8], pos: usize) -> (r: Option<(Init, usize)>)
        requires
            pos <= data.len(),
        ensures
            match r {
                Some((init, next)) => next <= data.len() && parse_fields(
                    TAG_MULTISIG,
                    0,
                    tail(data@, pos as int),
                ) == Some((init.payload(), tail(data@, next as int))),
                None => parse_fields(TAG_MULTISIG, 0, tail(data@, pos as int)) is None,
            },
    {
        match get_quorum(data, pos) {
            Some(((instance_name, approval_threshold, owners, instance_pda_bump_seed), next)) => Some(
                (Init { instance_name, approval_threshold, owners, instance_pda_bump_seed }, next),
            ),
            None => None,
        }
    }

    /// Builds the instruction that creates the owner record `instance_name`.
    ///
    /// It is refused where no address can be derived for the name, and where
    /// the threshold and owners break a rule.
    pub fn build_instruction(
        program_id: &Pubkey,
        rent_payer: &Pubkey,
        instance_name: String,
        approval_threshold: u8,
        owners: Vec<Pubkey>,
    ) -> (r: Result<Instruction, Error>)
        ensures
            match r {
                Ok(instruction) => {
                    &&& quorum_refusal(approval_threshold, owners@, MAX_MULTISIG_OWNERS) is None
                    &&& addresses_new_record(
                        instruction,
                        *program_id,
                        *rent_payer,
                        multisig_seeds(str_bytes(&instance_name)),
                        multisig_operation(str_bytes(&instance_name), approval_threshold, owners@),
                    )
                },
                Err(Error::NoProgramAddress) => found_program_address(
                    multisig_seeds(str_bytes(&instance_name)),
                    program_id@,
                ) is None,
                Err(Error::Validation(e)) => {
                    &&& found_program_address(
                        multisig_seeds(str_bytes(&instance_name)),
                        program_id@,
                    ) is Some
                    &&& quorum_refusal(approval_threshold, owners@, MAX_MULTISIG_OWNERS) == Some(e)
                },
                Err(_) => false,
            },
    {
        let (instance_pda, instance_pda_bump_seed) = match make_instance_pda(
            program_id,
            instance_name.as_str(),
        ) {
            Some(found) => found,
            None => { return Err(Error::NoProgramAddress); },
        };
        let instr = Init { instance_name, approval_threshold, owners, instance_pda_bump_seed };
        match instr.validate() {
            Ok(()) => {},
            Err(e) => { return Err(Error::Validation(e)); },
        }
        proof {
            broadcast use vstd::utf8::encode_utf8_valid_utf8;
            assert(crate::codec::all_key_sized(key_views(instr.owners@)));
        }
        let mut data: Vec<u8> = Vec::new();
        data.push(TAG_MULTISIG);
        data.push(0);
        instr.put(&mut data);
        assert(data@ =~= instr.payload().wire());
        Ok(new_record_instruction(program_id, rent_payer, instance_pda, data))
    }

    /// Why the program refuses the operation on these accounts, if it does.
    ///
    /// The checks come in this order: three accounts are named; the payer is
    /// writable and has signed; the record's account is writable; it is not
    /// in use (owned by the system program, without balance or data); the
    /// third account is the system program and holds a program; the record's
    /// address and bump are the derived ones; the payer can pay the record's
    /// least balance; the owners fit the record's slots.
    pub open spec fn exec_refusal(
        &self,
        program_id: Pubkey,
        accounts: Seq<AccountInfo>,
        rent_lamports: u64,
    ) -> Option<ProgramError> {
        if accounts.len() < 3 {
            Some(ProgramError::NotEnoughAccountKeys)
        } else if !accounts[0].is_writable {
            Some(ProgramError::AccountNotWritable)
        } else if !accounts[0].is_signer {
            Some(ProgramError::MissingRequiredSignature)
        } else if !accounts[1].is_writable {
            Some(ProgramError::AccountNotWritable)
        } else if accounts[1].owner != accounts[2].key || accounts[1].lamports > 0
            || accounts[1].data@.len() > 0 {
            Some(ProgramError::AccountAlreadyInitialized)
        } else if accounts[2].key != Pubkey::system_program() {
            Some(ProgramError::IncorrectProgramId)
        } else if !accounts[2].executable {
            Some(ProgramError::AccountNotExecutable)
        } else if !derives(
            multisig_seeds(str_bytes(&self.instance_name)),
            program_id,
            accounts[1].key,
            self.instance_pda_bump_seed,
        ) {
            Some(ProgramError::AddressMismatch)
        } else if accounts[0].lamports < rent_lamports {
            Some(ProgramError::InsufficientFunds)
        } else if self.owners@.len() > MAX_MULTISIG_OWNERS {
            Some(ProgramError::AccountDataTooSmall)
        } else {
            None
        }
    }

    /// What the host is to carry out where the operation is accepted:
    /// allocate the record's account with its least balance and size under
    /// the program's ownership, paid by the payer, and store the record, the
    /// threshold and the owners in the first slots.
    pub open spec fn exec_effect(
        &self,
        program_id: Pubkey,
        accounts: Seq<AccountInfo>,
        rent_lamports: u64,
        effect: Effect,
    ) -> bool {
        &&& effect matches Effect::CreateMultisig { create, multisig }
        &&& create == (CreateAccount {
            from: accounts[0].key,
            to: accounts[1].key,
            lamports: rent_lamports,
            space: MULTISIG_INSTANCE_SIZE as u64,
            owner: program_id,
        })
        &&& multisig.approval_threshold == self.approval_threshold
        &&& packed_from(multisig.owners@, self.owners@)
    }

    /// Decides the operation on the accounts it names.
    pub fn exec(
        &self,
        program_id: &Pubkey,
        accounts: &[AccountInfo],
        rent_lamports: u64,
    ) -> (r: Result<Effect, ProgramError>)
        ensures
            match r {
                Ok(effect) => self.exec_refusal(*program_id, accounts@, rent_lamports) is None
                    && self.exec_effect(*program_id, accounts@, rent_lamports, effect),
                Err(e) => self.exec_refusal(*program_id, accounts@, rent_lamports) == Some(e),
            },
    {
        if accounts.len() < 3 {
            return Err(ProgramError::NotEnoughAccountKeys);
        }
        let rent_payer = &accounts[0];
        let instance_pda = &accounts[1];
        let system_program = &accounts[2];
        if !rent_payer.is_writable {
            return Err(ProgramError::AccountNotWritable);
        }
        if !rent_payer.is_signer {
            return Err(ProgramError::MissingRequiredSignature);
        }
        if !instance_pda.is_writable {
            return Err(ProgramError::AccountNotWritable);
        }
        if !instance_pda.owner.same(&system_program.key) || instance_pda.lamports > 0
            || instance_pda.data.len() > 0 {
            return Err(ProgramError::AccountAlreadyInitialized);
        }
        if !system_program.key.is_default() {
            return Err(ProgramError::IncorrectProgramId);
        }
        if !system_program.executable {
            return Err(ProgramError::AccountNotExecutable);
        }
        match verify_pda(
            program_id,
            self.instance_name.as_str(),
            &instance_pda.key,
            self.instance_pda_bump_seed,
        ) {
            Ok(()) => {},
            Err(e) => { return Err(e); },
        }
        if rent_payer.lamports < rent_lamports {
            return Err(ProgramError::InsufficientFunds);
        }
        if self.owners.len() > MAX_MULTISIG_OWNERS {
            return Err(ProgramError::AccountDataTooSmall);
        }
        let multisig = MultisigConfigInstance {
            approval_threshold: self.approval_threshold,
            owners: create_owners_array(self.owners.as_slice()),
        };
        Ok(
            Effect::CreateMultisig {
                create: CreateAccount {
                    from: rent_payer.key,
                    to: instance_pda.key,
                    lamports: rent_lamports,
                    space: MULTISIG_INSTANCE_SIZE as u64,
                    owner: *program_id,
                },
                multisig,
            },
        )
    }
}

impl SlqMultisigInstruction {
    /// The operation as a mathematical value.
    pub open spec fn payload(&self) -> Payload {
        match self {
            SlqMultisigInstruction::Init(init) => init.payload(),
        }
    }

    /// Why the program refuses the operation on these accounts, if it does.
    pub open spec fn exec_refusal(
        &self,
        program_id: Pubkey,
        accounts: Seq<AccountInfo>,
        rent_lamports: u64,
    ) -> Option<ProgramError> {
        match self {
            SlqMultisigInstruction::Init(init) => init.exec_refusal(
                program_id,
                accounts,
                rent_lamports,
            ),
        }
    }

    /// What the host is to carry out where the operation is accepted.
    pub open spec fn exec_effect(
        &self,
        program_id: Pubkey,
        accounts: Seq<AccountInfo>,
        rent_lamports: u64,
        effect: Effect,
    ) -> bool {
        match self {
            SlqMultisigInstruction::Init(init) => init.exec_effect(
                program_id,
                accounts,
                rent_lamports,
                effect,
            ),
        }
    }
}

/// Decides an operation of this subsystem on the accounts it names.
pub fn exec(
    program_id: &Pubkey,
    accounts: &[AccountInfo],
    instr: &SlqMultisigInstruction,
    rent_lamports: u64,
) -> (r: Result<Effect, ProgramError>)
    ensures
        match r {
            Ok(effect) => instr.exec_refusal(*program_id, accounts@, rent_lamports) is None
                && instr.exec_effect(*program_id, accounts@, rent_lamports, effect),
            Err(e) => instr.exec_refusal(*program_id, accounts@, rent_lamports) == Some(e),
        },
{
    match instr {
        SlqMultisigInstruction::Init(init) => init.exec(program_id, accounts, rent_lamports),
    }
}

/// An owner record created from a threshold and owners that pass validation
/// obeys the M-of-N rule, and its members are those owners in the order
/// given.
pub proof fn lemma_validated_init_is_valid(
    approval_threshold: u8,
    owners: Seq<Pubkey>,
    record: MultisigConfigInstance,
)
    requires
        quorum_refusal(approval_threshold, owners, MAX_MULTISIG_OWNERS) is None,
        record.approval_threshold == approval_threshold,
        packed_from(record.owners@, owners),
    ensures
        record.valid(),
        record.members() == owners,
{
    crate::state::lemma_members_of_packed(record.owners@, owners);
    crate::state::lemma_filter_all(owners, crate::state::occupied());
}

/// The record that the program stores for a creation that passed validation
/// obeys the M-of-N rule.
pub proof fn lemma_created_record_is_valid(
    init: Init,
    program_id: Pubkey,
    accounts: Seq<AccountInfo>,
    rent_lamports: u64,
    effect: Effect,
)
    requires
        init.refusal() is None,
        init.exec_effect(program_id, accounts, rent_lamports, effect),
    ensures
        effect matches Effect::CreateMultisig { multisig, .. } && multisig.valid()
            && multisig.members() == init.owners@,
{
    if let Effect::CreateMultisig { multisig, .. } = effect {
        lemma_validated_init_is_valid(init.approval_threshold, init.owners@, multisig);
    }
}

} // verus!
