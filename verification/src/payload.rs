//! The wire format of instructions for the program.
//!
//! An instruction is a tagged union of five subsystems, each a tagged union of
//! its own operations. On the wire it is the subsystem's tag, the operation's
//! tag, then the operation's fields in order, each in the encoding of
//! [`crate::codec`]. A reader rejects every tag it does not know.

use crate::codec::{
    get_key, get_keys, get_str, get_u64, get_u8, key_views, put_key, put_keys, put_str, put_u64,
    put_u8, str_bytes, tail, all_key_sized, lemma_take_key, lemma_take_keys, lemma_take_str, lemma_take_u64, lemma_take_u8,
    lemma_taken_key, lemma_taken_keys, lemma_taken_str, lemma_taken_u64, lemma_taken_u8, take_key,
    take_keys, take_str, take_u64, take_u8, wire_keys, wire_str,
};
use vstd::bytes::*;
use crate::pubkey::Pubkey;
use vstd::prelude::*;
use vstd::string::StringSliceAdditionalSpecFns;
use vstd::utf8::valid_utf8;

verus! {

/// An instruction as a mathematical value: names by their UTF-8 bytes, keys by
/// their 32 bytes.
pub enum Payload {
    InitializeInstance { name: Seq<u8>, approval_threshold: u8, admin_accounts: Seq<Seq<u8>>, bump: u8 },
    ChangeApprovalThreshold { name: Seq<u8>, approval_threshold: u8, bump: u8 },
    AddAdminAccount { name: Seq<u8>, account: Seq<u8>, bump: u8 },
    RemoveAdminAccount { name: Seq<u8>, account: Seq<u8>, bump: u8 },
    CreateVault { name: Seq<u8>, bump: u8 },
    DepositToVault { name: Seq<u8>, bump: u8, amount: u64 },
    WithdrawFromVault { name: Seq<u8>, bump: u8, amount: u64 },
    MultisigInit { name: Seq<u8>, approval_threshold: u8, owners: Seq<Seq<u8>>, bump: u8 },
    WithdrawNonce { nonce: Seq<u8> },
}

/// Tag of the subsystem that creates instances.
pub const TAG_INITIALIZE_INSTANCE: u8 = 0;

/// Tag of the administration subsystem.
pub const TAG_ADMIN: u8 = 1;

/// Tag of the vault subsystem.
pub const TAG_VAULT: u8 = 2;

/// Tag of the owner-record subsystem.
pub const TAG_MULTISIG: u8 = 3;

/// Tag of the nonce subsystem.
pub const TAG_NONCE: u8 = 4;

/// Whether a name can be written: it is UTF-8 and fits a 32-bit length.
pub open spec fn name_ok(name: Seq<u8>) -> bool {
    name.len() <= u32::MAX && valid_utf8(name)
}

/// Whether a list of keys can be written: every key has 32 bytes and their
/// number fits a 32-bit count.
pub open spec fn keys_ok(keys: Seq<Seq<u8>>) -> bool {
    keys.len() <= u32::MAX && all_key_sized(keys)
}

impl Payload {
    /// The tag of the subsystem.
    pub open spec fn outer_tag(self) -> u8 {
        match self {
            Payload::InitializeInstance { .. } => TAG_INITIALIZE_INSTANCE,
            Payload::ChangeApprovalThreshold { .. } => TAG_ADMIN,
            Payload::AddAdminAccount { .. } => TAG_ADMIN,
            Payload::RemoveAdminAccount { .. } => TAG_ADMIN,
            Payload::CreateVault { .. } => TAG_VAULT,
            Payload::DepositToVault { .. } => TAG_VAULT,
            Payload::WithdrawFromVault { .. } => TAG_VAULT,
            Payload::MultisigInit { .. } => TAG_MULTISIG,
            Payload::WithdrawNonce { .. } => TAG_NONCE,
        }
    }

    /// The tag of the operation within its subsystem.
    pub open spec fn inner_tag(self) -> u8 {
        match self {
            Payload::InitializeInstance { .. } => 0,
            Payload::ChangeApprovalThreshold { .. } => 0,
            Payload::AddAdminAccount { .. } => 1,
            Payload::RemoveAdminAccount { .. } => 2,
            Payload::CreateVault { .. } => 0,
            Payload::DepositToVault { .. } => 1,
            Payload::WithdrawFromVault { .. } => 2,
            Payload::MultisigInit { .. } => 0,
            Payload::WithdrawNonce { .. } => 0,
        }
    }

    /// The fields of the operation on the wire.
    pub open spec fn fields(self) -> Seq<u8> {
        match self {
            Payload::InitializeInstance { name, approval_threshold, admin_accounts, bump } => {
                wire_str(name) + seq![approval_threshold] + wire_keys(admin_accounts) + seq![bump]
            },
            Payload::ChangeApprovalThreshold { name, approval_threshold, bump } => {
                wire_str(name) + seq![approval_threshold] + seq![bump]
            },
            Payload::AddAdminAccount { name, account, bump } => {
                wire_str(name) + account + seq![bump]
            },
            Payload::RemoveAdminAccount { name, account, bump } => {
                wire_str(name) + account + seq![bump]
            },
            Payload::CreateVault { name, bump } => wire_str(name) + seq![bump],
            Payload::DepositToVault { name, bump, amount } => {
                wire_str(name) + seq![bump] + spec_u64_to_le_bytes(amount)
            },
            Payload::WithdrawFromVault { name, bump, amount } => {
                wire_str(name) + seq![bump] + spec_u64_to_le_bytes(amount)
            },
            Payload::MultisigInit { name, approval_threshold, owners, bump } => {
                wire_str(name) + seq![approval_threshold] + wire_keys(owners) + seq![bump]
            },
            Payload::WithdrawNonce { nonce } => nonce,
        }
    }

    /// The whole instruction on the wire.
    pub open spec fn wire(self) -> Seq<u8> {
        seq![self.outer_tag()] + (seq![self.inner_tag()] + self.fields())
    }

    /// Whether the value can be written: lengths fit their 32-bit prefix,
    /// names are UTF-8 and keys have 32 bytes.
    pub open spec fn encodable(self) -> bool {
        match self {
            Payload::InitializeInstance { name, admin_accounts, .. } => name_ok(name) && keys_ok(
                admin_accounts,
            ),
            Payload::ChangeApprovalThreshold { name, .. } => name_ok(name),
            Payload::AddAdminAccount { name, account, .. } => name_ok(name) && account.len() == 32,
            Payload::RemoveAdminAccount { name, account, .. } => name_ok(name) && account.len()
                == 32,
            Payload::CreateVault { name, .. } => name_ok(name),
            Payload::DepositToVault { name, .. } => name_ok(name),
            Payload::WithdrawFromVault { name, .. } => name_ok(name),
            Payload::MultisigInit { name, owners, .. } => name_ok(name) && keys_ok(owners),
            Payload::WithdrawNonce { nonce } => nonce.len() == 32,
        }
    }
}

/// Reads a name, a threshold, a list of keys and a bump.
pub open spec fn parse_quorum(s: Seq<u8>) -> Option<((Seq<u8>, u8, Seq<Seq<u8>>, u8), Seq<u8>)> {
    match take_str(s) {
        Some((name, s)) => match take_u8(s) {
            Some((approval_threshold, s)) => match take_keys(s) {
                Some((keys, s)) => match take_u8(s) {
                    Some((bump, s)) => Some(((name, approval_threshold, keys, bump), s)),
                    None => None,
                },
                None => None,
            },
            None => None,
        },
        None => None,
    }
}

/// Reads a name, a threshold and a bump.
pub open spec fn parse_threshold(s: Seq<u8>) -> Option<((Seq<u8>, u8, u8), Seq<u8>)> {
    match take_str(s) {
        Some((name, s)) => match take_u8(s) {
            Some((approval_threshold, s)) => match take_u8(s) {
                Some((bump, s)) => Some(((name, approval_threshold, bump), s)),
                None => None,
            },
            None => None,
        },
        None => None,
    }
}

/// Reads a name, a key and a bump.
pub open spec fn parse_member(s: Seq<u8>) -> Option<((Seq<u8>, Seq<u8>, u8), Seq<u8>)> {
    match take_str(s) {
        Some((name, s)) => match take_key(s) {
            Some((account, s)) => match take_u8(s) {
                Some((bump, s)) => Some(((name, account, bump), s)),
                None => None,
            },
            None => None,
        },
        None => None,
    }
}

/// Reads a name and a bump.
pub open spec fn parse_vault(s: Seq<u8>) -> Option<((Seq<u8>, u8), Seq<u8>)> {
    match take_str(s) {
        Some((name, s)) => match take_u8(s) {
            Some((bump, s)) => Some(((name, bump), s)),
            None => None,
        },
        None => None,
    }
}

/// Reads a name, a bump and an amount.
pub open spec fn parse_transfer(s: Seq<u8>) -> Option<((Seq<u8>, u8, u64), Seq<u8>)> {
    match parse_vault(s) {
        Some(((name, bump), s)) => match take_u64(s) {
            Some((amount, s)) => Some(((name, bump, amount), s)),
            None => None,
        },
        None => None,
    }
}

/// Reads the fields of the operation `inner` of the subsystem `outer`.
/// There is no reading for a pair of tags that names no operation.
pub open spec fn parse_fields(outer: u8, inner: u8, s: Seq<u8>) -> Option<(Payload, Seq<u8>)> {
    if outer == TAG_INITIALIZE_INSTANCE && inner == 0 {
        match parse_quorum(s) {
            Some(((name, approval_threshold, admin_accounts, bump), s)) => Some(
                (Payload::InitializeInstance { name, approval_threshold, admin_accounts, bump }, s),
            ),
            None => None,
        }
    } else if outer == TAG_ADMIN && inner == 0 {
        match parse_threshold(s) {
            Some(((name, approval_threshold, bump), s)) => Some(
                (Payload::ChangeApprovalThreshold { name, approval_threshold, bump }, s),
            ),
            None => None,
        }
    } else if outer == TAG_ADMIN && inner == 1 {
        match parse_member(s) {
            Some(((name, account, bump), s)) => Some(
                (Payload::AddAdminAccount { name, account, bump }, s),
            ),
            None => None,
        }
    } else if outer == TAG_ADMIN && inner == 2 {
        match parse_member(s) {
            Some(((name, account, bump), s)) => Some(
                (Payload::RemoveAdminAccount { name, account, bump }, s),
            ),
            None => None,
        }
    } else if outer == TAG_VAULT && inner == 0 {
        match parse_vault(s) {
            Some(((name, bump), s)) => Some((Payload::CreateVault { name, bump }, s)),
            None => None,
        }
    } else if outer == TAG_VAULT && inner == 1 {
        match parse_transfer(s) {
            Some(((name, bump, amount), s)) => Some(
                (Payload::DepositToVault { name, bump, amount }, s),
            ),
            None => None,
        }
    } else if outer == TAG_VAULT && inner == 2 {
        match parse_transfer(s) {
            Some(((name, bump, amount), s)) => Some(
                (Payload::WithdrawFromVault { name, bump, amount }, s),
            ),
            None => None,
        }
    } else if outer == TAG_MULTISIG && inner == 0 {
        match parse_quorum(s) {
            Some(((name, approval_threshold, owners, bump), s)) => Some(
                (Payload::MultisigInit { name, approval_threshold, owners, bump }, s),
            ),
            None => None,
        }
    } else if outer == TAG_NONCE && inner == 0 {
        match take_key(s) {
            Some((nonce, s)) => Some((Payload::WithdrawNonce { nonce }, s)),
            None => None,
        }
    } else {
        None
    }
}

/// Reads one instruction from the front of `s`; what follows it is left over.
pub open spec fn parse(s: Seq<u8>) -> Option<(Payload, Seq<u8>)> {
    match take_u8(s) {
        Some((outer, s)) => match take_u8(s) {
            Some((inner, s)) => parse_fields(outer, inner, s),
            None => None,
        },
        None => None,
    }
}

/// A name, a threshold, a list of keys and a bump read back as written.
pub proof fn lemma_parse_quorum(name: Seq<u8>, t: u8, keys: Seq<Seq<u8>>, bump: u8, rest: Seq<u8>)
    requires
        name_ok(name),
        keys_ok(keys),
    ensures
        parse_quorum(wire_str(name) + seq![t] + wire_keys(keys) + seq![bump] + rest) == Some(
            ((name, t, keys, bump), rest),
        ),
{
    let s3 = seq![bump] + rest;
    let s2 = wire_keys(keys) + s3;
    let s1 = seq![t] + s2;
    assert(wire_str(name) + seq![t] + wire_keys(keys) + seq![bump] + rest =~= wire_str(name) + s1);
    lemma_take_str(name, s1);
    lemma_take_u8(t, s2);
    lemma_take_keys(keys, s3);
    lemma_take_u8(bump, rest);
}

/// A name, a threshold and a bump read back as written.
pub proof fn lemma_parse_threshold(name: Seq<u8>, t: u8, bump: u8, rest: Seq<u8>)
    requires
        name_ok(name),
    ensures
        parse_threshold(wire_str(name) + seq![t] + seq![bump] + rest) == Some(
            ((name, t, bump), rest),
        ),
{
    let s2 = seq![bump] + rest;
    let s1 = seq![t] + s2;
    assert(wire_str(name) + seq![t] + seq![bump] + rest =~= wire_str(name) + s1);
    lemma_take_str(name, s1);
    lemma_take_u8(t, s2);
    lemma_take_u8(bump, rest);
}

/// A name, a key and a bump read back as written.
pub proof fn lemma_parse_member(name: Seq<u8>, account: Seq<u8>, bump: u8, rest: Seq<u8>)
    requires
        name_ok(name),
        account.len() == 32,
    ensures
        parse_member(wire_str(name) + account + seq![bump] + rest) == Some(
            ((name, account, bump), rest),
        ),
{
    let s2 = seq![bump] + rest;
    let s1 = account + s2;
    assert(wire_str(name) + account + seq![bump] + rest =~= wire_str(name) + s1);
    lemma_take_str(name, s1);
    lemma_take_key(account, s2);
    lemma_take_u8(bump, rest);
}

/// A name and a bump read back as written.
pub proof fn lemma_parse_vault(name: Seq<u8>, bump: u8, rest: Seq<u8>)
    requires
        name_ok(name),
    ensures
        parse_vault(wire_str(name) + seq![bump] + rest) == Some(((name, bump), rest)),
{
    let s1 = seq![bump] + rest;
    assert(wire_str(name) + seq![bump] + rest =~= wire_str(name) + s1);
    lemma_take_str(name, s1);
    lemma_take_u8(bump, rest);
}

/// A name, a bump and an amount read back as written.
pub proof fn lemma_parse_transfer(name: Seq<u8>, bump: u8, amount: u64, rest: Seq<u8>)
    requires
        name_ok(name),
    ensures
        parse_transfer(wire_str(name) + seq![bump] + spec_u64_to_le_bytes(amount) + rest) == Some(
            ((name, bump, amount), rest),
        ),
{
    let s2 = spec_u64_to_le_bytes(amount) + rest;
    assert(wire_str(name) + seq![bump] + spec_u64_to_le_bytes(amount) + rest =~= wire_str(name)
        + seq![bump] + s2);
    lemma_parse_vault(name, bump, s2);
    lemma_take_u64(amount, rest);
}

/// Reading what was written gives back the value, and leaves what followed it.
pub proof fn lemma_parse_wire(payload: Payload, rest: Seq<u8>)
    requires
        payload.encodable(),
    ensures
        parse(payload.wire() + rest) == Some((payload, rest)),
{
    let fields = payload.fields();
    let s2 = fields + rest;
    let s1 = seq![payload.inner_tag()] + s2;
    assert(payload.wire() + rest =~= seq![payload.outer_tag()] + s1);
    lemma_take_u8(payload.outer_tag(), s1);
    lemma_take_u8(payload.inner_tag(), s2);
    match payload {
        Payload::InitializeInstance { name, approval_threshold, admin_accounts, bump } => {
            lemma_parse_quorum(name, approval_threshold, admin_accounts, bump, rest);
        },
        Payload::ChangeApprovalThreshold { name, approval_threshold, bump } => {
            lemma_parse_threshold(name, approval_threshold, bump, rest);
        },
        Payload::AddAdminAccount { name, account, bump } => {
            lemma_parse_member(name, account, bump, rest);
        },
        Payload::RemoveAdminAccount { name, account, bump } => {
            lemma_parse_member(name, account, bump, rest);
        },
        Payload::CreateVault { name, bump } => {
            lemma_parse_vault(name, bump, rest);
        },
        Payload::DepositToVault { name, bump, amount } => {
            lemma_parse_transfer(name, bump, amount, rest);
        },
        Payload::WithdrawFromVault { name, bump, amount } => {
            lemma_parse_transfer(name, bump, amount, rest);
        },
        Payload::MultisigInit { name, approval_threshold, owners, bump } => {
            lemma_parse_quorum(name, approval_threshold, owners, bump, rest);
        },
        Payload::WithdrawNonce { nonce } => {
            lemma_take_key(nonce, rest);
        },
    }
}

/// A name, a threshold, a list of keys and a bump that are read can be
/// written, and were written so.
pub proof fn lemma_parsed_quorum(s: Seq<u8>)
    ensures
        match parse_quorum(s) {
            Some(((name, t, keys, bump), rest)) => s == wire_str(name) + seq![t] + wire_keys(keys)
                + seq![bump] + rest && name_ok(name) && keys_ok(keys),
            None => true,
        },
{
    lemma_taken_str(s);
    if let Some((name, s1)) = take_str(s) {
        lemma_taken_u8(s1);
        if let Some((t, s2)) = take_u8(s1) {
            lemma_taken_keys(s2);
            if let Some((keys, s3)) = take_keys(s2) {
                lemma_taken_u8(s3);
                if let Some((bump, rest)) = take_u8(s3) {
                    assert(s =~= wire_str(name) + seq![t] + wire_keys(keys) + seq![bump] + rest);
                }
            }
        }
    }
}

/// A name, a threshold and a bump that are read can be written, and were
/// written so.
pub proof fn lemma_parsed_threshold(s: Seq<u8>)
    ensures
        match parse_threshold(s) {
            Some(((name, t, bump), rest)) => s == wire_str(name) + seq![t] + seq![bump] + rest
                && name_ok(name),
            None => true,
        },
{
    lemma_taken_str(s);
    if let Some((name, s1)) = take_str(s) {
        lemma_taken_u8(s1);
        if let Some((t, s2)) = take_u8(s1) {
            lemma_taken_u8(s2);
            if let Some((bump, rest)) = take_u8(s2) {
                assert(s =~= wire_str(name) + seq![t] + seq![bump] + rest);
            }
        }
    }
}

/// A name, a key and a bump that are read can be written, and were written
/// so.
pub proof fn lemma_parsed_member(s: Seq<u8>)
    ensures
        match parse_member(s) {
            Some(((name, account, bump), rest)) => s == wire_str(name) + account + seq![bump]
                + rest && name_ok(name) && account.len() == 32,
            None => true,
        },
{
    lemma_taken_str(s);
    if let Some((name, s1)) = take_str(s) {
        lemma_taken_key(s1);
        if let Some((account, s2)) = take_key(s1) {
            lemma_taken_u8(s2);
            if let Some((bump, rest)) = take_u8(s2) {
                assert(s =~= wire_str(name) + account + seq![bump] + rest);
            }
        }
    }
}

/// A name and a bump that are read can be written, and were written so.
pub proof fn lemma_parsed_vault(s: Seq<u8>)
    ensures
        match parse_vault(s) {
            Some(((name, bump), rest)) => s == wire_str(name) + seq![bump] + rest && name_ok(name),
            None => true,
        },
{
    lemma_taken_str(s);
    if let Some((name, s1)) = take_str(s) {
        lemma_taken_u8(s1);
        if let Some((bump, rest)) = take_u8(s1) {
            assert(s =~= wire_str(name) + seq![bump] + rest);
        }
    }
}

/// A name, a bump and an amount that are read can be written, and were
/// written so.
pub proof fn lemma_parsed_transfer(s: Seq<u8>)
    ensures
        match parse_transfer(s) {
            Some(((name, bump, amount), rest)) => s == wire_str(name) + seq![bump]
                + spec_u64_to_le_bytes(amount) + rest && name_ok(name),
            None => true,
        },
{
    lemma_parsed_vault(s);
    if let Some(((name, bump), s1)) = parse_vault(s) {
        lemma_taken_u64(s1);
        if let Some((amount, rest)) = take_u64(s1) {
            assert(s =~= wire_str(name) + seq![bump] + spec_u64_to_le_bytes(amount) + rest);
        }
    }
}

/// Fields that are read for a pair of tags make an operation with those
/// tags that can be written, and were written so.
pub proof fn lemma_parsed_fields(outer: u8, inner: u8, s: Seq<u8>)
    ensures
        match parse_fields(outer, inner, s) {
            Some((payload, rest)) => s == payload.fields() + rest && payload.encodable()
                && payload.outer_tag() == outer && payload.inner_tag() == inner,
            None => true,
        },
{
    lemma_parsed_quorum(s);
    lemma_parsed_threshold(s);
    lemma_parsed_member(s);
    lemma_parsed_vault(s);
    lemma_parsed_transfer(s);
    lemma_taken_key(s);
}

/// What can be read was written: the bytes read are the value's wire form.
pub proof fn lemma_parse_sound(s: Seq<u8>)
    ensures
        match parse(s) {
            Some((payload, rest)) => s == payload.wire() + rest && payload.encodable(),
            None => true,
        },
{
    lemma_taken_u8(s);
    if let Some((outer, s1)) = take_u8(s) {
        lemma_taken_u8(s1);
        if let Some((inner, s2)) = take_u8(s1) {
            lemma_parsed_fields(outer, inner, s2);
            if let Some((payload, rest)) = parse_fields(outer, inner, s2) {
                assert(s =~= payload.wire() + rest);
            }
        }
    }
}

/// Writes a name, a threshold, a list of keys and a bump.
pub fn put_quorum(
    out: &mut Vec<u8>,
    name: &str,
    approval_threshold: u8,
    keys: &Vec<Pubkey>,
    bump: u8,
)
    requires
        name.spec_bytes().len() <= u32::MAX,
        keys.len() <= u32::MAX,
    ensures
        final(out)@ == old(out)@ + (wire_str(name.spec_bytes()) + seq![approval_threshold]
            + wire_keys(key_views(keys@)) + seq![bump]),
{
    put_str(out, name);
    put_u8(out, approval_threshold);
    put_keys(out, keys);
    put_u8(out, bump);
    assert(out@ =~= old(out)@ + (wire_str(name.spec_bytes()) + seq![approval_threshold]
        + wire_keys(key_views(keys@)) + seq![bump]));
}

/// Writes a name, a threshold and a bump.
pub fn put_threshold(out: &mut Vec<u8>, name: &str, approval_threshold: u8, bump: u8)
    requires
        name.spec_bytes().len() <= u32::MAX,
    ensures
        final(out)@ == old(out)@ + (wire_str(name.spec_bytes()) + seq![approval_threshold]
            + seq![bump]),
{
    put_str(out, name);
    put_u8(out, approval_threshold);
    put_u8(out, bump);
    assert(out@ =~= old(out)@ + (wire_str(name.spec_bytes()) + seq![approval_threshold]
        + seq![bump]));
}

/// Writes a name, a key and a bump.
pub fn put_member(out: &mut Vec<u8>, name: &str, account: &Pubkey, bump: u8)
    requires
        name.spec_bytes().len() <= u32::MAX,
    ensures
        final(out)@ == old(out)@ + (wire_str(name.spec_bytes()) + account@ + seq![bump]),
{
    put_str(out, name);
    put_key(out, account);
    put_u8(out, bump);
    assert(out@ =~= old(out)@ + (wire_str(name.spec_bytes()) + account@ + seq![bump]));
}

/// Writes a name and a bump.
pub fn put_vault(out: &mut Vec<u8>, name: &str, bump: u8)
    requires
        name.spec_bytes().len() <= u32::MAX,
    ensures
        final(out)@ == old(out)@ + (wire_str(name.spec_bytes()) + seq![bump]),
{
    put_str(out, name);
    put_u8(out, bump);
    assert(out@ =~= old(out)@ + (wire_str(name.spec_bytes()) + seq![bump]));
}

/// Writes a name, a bump and an amount.
pub fn put_transfer(out: &mut Vec<u8>, name: &str, bump: u8, amount: u64)
    requires
        name.spec_bytes().len() <= u32::MAX,
    ensures
        final(out)@ == old(out)@ + (wire_str(name.spec_bytes()) + seq![bump]
            + spec_u64_to_le_bytes(amount)),
{
    put_str(out, name);
    put_u8(out, bump);
    put_u64(out, amount);
    assert(out@ =~= old(out)@ + (wire_str(name.spec_bytes()) + seq![bump] + spec_u64_to_le_bytes(
        amount,
    )));
}

/// Reads a name, a threshold, a list of keys and a bump from position `pos`.
pub fn get_quorum(data: &[u8], pos: usize) -> (r: Option<((String, u8, Vec<Pubkey>, u8), usize)>)
    requires
        pos <= data.len(),
    ensures
        match r {
            Some(((name, approval_threshold, keys, bump), next)) => next <= data.len()
                && parse_quorum(tail(data@, pos as int)) == Some(
                ((str_bytes(&name), approval_threshold, key_views(keys@), bump), tail(
                    data@,
                    next as int,
                )),
            ),
            None => parse_quorum(tail(data@, pos as int)) is None,
        },
{
    let (name, pos) = match get_str(data, pos) {
        Some(field) => field,
        None => { return None; },
    };
    let (approval_threshold, pos) = match get_u8(data, pos) {
        Some(field) => field,
        None => { return None; },
    };
    let (keys, pos) = match get_keys(data, pos) {
        Some(field) => field,
        None => { return None; },
    };
    let (bump, pos) = match get_u8(data, pos) {
        Some(field) => field,
        None => { return None; },
    };
    Some(((name, approval_threshold, keys, bump), pos))
}

/// Reads a name, a threshold and a bump from position `pos`.
pub fn get_threshold(data: &[u8], pos: usize) -> (r: Option<((String, u8, u8), usize)>)
    requires
        pos <= data.len(),
    ensures
        match r {
            Some(((name, approval_threshold, bump), next)) => next <= data.len()
                && parse_threshold(tail(data@, pos as int)) == Some(
                ((str_bytes(&name), approval_threshold, bump), tail(data@, next as int)),
            ),
            None => parse_threshold(tail(data@, pos as int)) is None,
        },
{
    let (name, pos) = match get_str(data, pos) {
        Some(field) => field,
        None => { return None; },
    };
    let (approval_threshold, pos) = match get_u8(data, pos) {
        Some(field) => field,
        None => { return None; },
    };
    let (bump, pos) = match get_u8(data, pos) {
        Some(field) => field,
        None => { return None; },
    };
    Some(((name, approval_threshold, bump), pos))
}

/// Reads a name, a key and a bump from position `pos`.
pub fn get_member(data: &[u8], pos: usize) -> (r: Option<((String, Pubkey, u8), usize)>)
    requires
        pos <= data.len(),
    ensures
        match r {
            Some(((name, account, bump), next)) => next <= data.len() && parse_member(
                tail(data@, pos as int),
            ) == Some(((str_bytes(&name), account@, bump), tail(data@, next as int))),
            None => parse_member(tail(data@, pos as int)) is None,
        },
{
    let (name, pos) = match get_str(data, pos) {
        Some(field) => field,
        None => { return None; },
    };
    let (account, pos) = match get_key(data, pos) {
        Some(field) => field,
        None => { return None; },
    };
    let (bump, pos) = match get_u8(data, pos) {
        Some(field) => field,
        None => { return None; },
    };
    Some(((name, account, bump), pos))
}

/// Reads a name and a bump from position `pos`.
pub fn get_vault(data: &[u8], pos: usize) -> (r: Option<((String, u8), usize)>)
    requires
        pos <= data.len(),
    ensures
        match r {
            Some(((name, bump), next)) => next <= data.len() && parse_vault(
                tail(data@, pos as int),
            ) == Some(((str_bytes(&name), bump), tail(data@, next as int))),
            None => parse_vault(tail(data@, pos as int)) is None,
        },
{
    let (name, pos) = match get_str(data, pos) {
        Some(field) => field,
        None => { return None; },
    };
    let (bump, pos) = match get_u8(data, pos) {
        Some(field) => field,
        None => { return None; },
    };
    Some(((name, bump), pos))
}

/// Reads a name, a bump and an amount from position `pos`.
pub fn get_transfer(data: &[u8], pos: usize) -> (r: Option<((String, u8, u64), usize)>)
    requires
        pos <= data.len(),
    ensures
        match r {
            Some(((name, bump, amount), next)) => next <= data.len() && parse_transfer(
                tail(data@, pos as int),
            ) == Some(((str_bytes(&name), bump, amount), tail(data@, next as int))),
            None => parse_transfer(tail(data@, pos as int)) is None,
        },
{
    let ((name, bump), pos) = match get_vault(data, pos) {
        Some(field) => field,
        None => { return None; },
    };
    let (amount, pos) = match get_u64(data, pos) {
        Some(field) => field,
        None => { return None; },
    };
    Some(((name, bump, amount), pos))
}

} // verus!
