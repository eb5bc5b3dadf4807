//! The commands of the client: what a user asks for, checked against the
//! ledger's state as the caller has read it, and turned into instructions.

pub mod admin;
pub mod init;
pub mod multisig;
pub mod multisig_tx;
pub mod vault;

use crate::pubkey::{pubkey_of_text, Pubkey};
use vstd::prelude::*;

verus! {

/// Whether `keys` are the keys that `texts` name, one for one.
pub open spec fn keys_named(texts: Seq<String>, keys: Seq<Pubkey>) -> bool {
    &&& keys.len() == texts.len()
    &&& forall|i: int|
        0 <= i < texts.len() ==> pubkey_of_text(texts[i]@) == Some((#[trigger] keys[i])@)
}

/// Whether every text names a key.
pub open spec fn all_named(texts: Seq<String>) -> bool {
    forall|i: int| 0 <= i < texts.len() ==> pubkey_of_text((#[trigger] texts[i])@) is Some
}

/// Reads a list of keys from their base-58 notation. There is no list where
/// one of the texts is no key.
pub fn parse_keys(texts: &Vec<String>) -> (parsed: Option<Vec<Pubkey>>)
    ensures
        match parsed {
            Some(keys) => keys_named(texts@, keys@),
            None => !all_named(texts@),
        },
{
    let mut keys: Vec<Pubkey> = Vec::new();
    let mut i: usize = 0;
    while i < texts.len()
        invariant
            i <= texts.len(),
            keys_named(texts@.take(i as int), keys@),
        decreases texts.len() - i,
    {
        match Pubkey::parse(texts[i].as_str()) {
            Some(key) => {
                keys.push(key);
            },
            None => {
                assert(pubkey_of_text(texts@[i as int]@) is None);
                return None;
            },
        }
        i += 1;
    }
    assert(texts@.take(i as int) =~= texts@);
    Some(keys)
}

} // verus!
