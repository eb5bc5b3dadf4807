//! Identity keys: 32-byte values naming accounts, programs and signers.

use vstd::prelude::*;

verus! {

/// The key that a text names in the ledger's base-58 notation, if it names
/// one.
pub uninterp spec fn pubkey_of_text(text: Seq<char>) -> Option<Seq<u8>>;

/// `Pubkey::from_str` of the ledger library: the key that the text names, or
/// nothing where the text is no key.
#[verifier::external_body]
fn pubkey_from_str(text: &str) -> (parsed: Option<[u8; 32]>)
    ensures
        match parsed {
            Some(bytes) => pubkey_of_text(text@) == Some(bytes@),
            None => pubkey_of_text(text@) is None,
        },
{
    text.parse::<solana_program::pubkey::Pubkey>().ok().map(|key| key.to_bytes())
}

/// A 32-byte identity key.
///
/// The all-zero key is the *empty identity*: it marks an unused slot of a
/// configuration record, and it is also the address of the ledger's generic
/// allocator (the system program).
#[derive(Clone, Copy, Debug, PartialEq, Eq, Hash, PartialOrd, Ord)]
pub struct Pubkey {
    pub bytes: [u8; 32],
}

impl View for Pubkey {
    type V = Seq<u8>;

    open spec fn view(&self) -> Seq<u8> {
        self.bytes@
    }
}

impl Pubkey {
    /// Whether this key is the empty identity.
    pub open spec fn is_empty(&self) -> bool {
        forall|i: int| 0 <= i < 32 ==> self.bytes[i] == 0u8
    }

    /// The address of the system program, the ledger's generic allocator: the
    /// all-zero key.
    pub open spec fn system_program() -> Pubkey {
        Pubkey { bytes: vstd::array::spec_array_fill_for_copy_type::<u8, 32>(0u8) }
    }

    /// The address of the system program.
    pub fn system_program_id() -> (key: Pubkey)
        ensures
            key == Pubkey::system_program(),
            key.is_empty(),
    {
        let key = Pubkey::empty();
        proof {
            Pubkey::lemma_system_program(key);
        }
        key
    }

    /// There is one empty identity.
    pub proof fn lemma_empty_unique(a: Pubkey, b: Pubkey)
        requires
            a.is_empty(),
            b.is_empty(),
        ensures
            a == b,
    {
        assert(a.bytes =~= b.bytes);
    }

    /// A key is the system program's address exactly if it is empty.
    pub proof fn lemma_system_program(key: Pubkey)
        ensures
            key.is_empty() <==> key == Pubkey::system_program(),
            Pubkey::system_program().is_empty(),
    {
        assert(Pubkey::system_program().is_empty());
        if key.is_empty() {
            Pubkey::lemma_empty_unique(key, Pubkey::system_program());
        }
    }

    /// The key with these bytes.
    pub fn new_from_array(bytes: [u8; 32]) -> (key: Pubkey)
        ensures
            key.bytes == bytes,
    {
        Pubkey { bytes }
    }

    /// The empty identity.
    pub fn empty() -> (key: Pubkey)
        ensures
            key.is_empty(),
    {
        let key = Pubkey { bytes: [0u8; 32] };
        key
    }

    /// The bytes of the key.
    pub fn to_bytes(&self) -> (bytes: [u8; 32])
        ensures
            bytes == self.bytes,
    {
        self.bytes
    }

    /// Reads a key from its base-58 notation.
    pub fn parse(text: &str) -> (parsed: Option<Pubkey>)
        ensures
            match parsed {
                Some(key) => pubkey_of_text(text@) == Some(key@),
                None => pubkey_of_text(text@) is None,
            },
    {
        match pubkey_from_str(text) {
            Some(bytes) => Some(Pubkey { bytes }),
            None => None,
        }
    }

    /// Byte-wise comparison of two keys.
    pub fn same(&self, other: &Pubkey) -> (equal: bool)
        ensures
            equal == (*self == *other),
    {
        let mut i: usize = 0;
        while i < 32
            invariant
                i <= 32,
                forall|j: int| 0 <= j < i ==> self.bytes[j] == other.bytes[j],
            decreases 32 - i,
        {
            if self.bytes[i] != other.bytes[i] {
                return false;
            }
            i += 1;
        }
        assert(self.bytes =~= other.bytes);
        true
    }

    /// Whether this key is the empty identity.
    pub fn is_default(&self) -> (empty: bool)
        ensures
            empty == self.is_empty(),
            empty == (*self == Pubkey::system_program()),
    {
        proof {
            Pubkey::lemma_system_program(*self);
        }
        let mut i: usize = 0;
        while i < 32
            invariant
                i <= 32,
                forall|j: int| 0 <= j < i ==> self.bytes[j] == 0u8,
            decreases 32 - i,
        {
            if self.bytes[i] != 0 {
                return false;
            }
            i += 1;
        }
        true
    }
}

} // verus!
