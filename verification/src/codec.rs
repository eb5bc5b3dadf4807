//! The fixed, versionless binary encoding of instruction fields.
//!
//! Integers are little-endian, a string is its UTF-8 bytes behind a 32-bit
//! length, a key is its 32 bytes, and a list of keys is the keys in order
//! behind a 32-bit count. Each writer appends to a buffer; each reader takes a
//! field from a position and says where the next one starts.

use crate::pubkey::Pubkey;
use vstd::bytes::*;
use vstd::prelude::*;
use vstd::slice::slice_subrange;
use vstd::string::StringSliceAdditionalSpecFns;
use vstd::utf8::*;

verus! {

/// The encoding of a string, given by its UTF-8 bytes.
pub open spec fn wire_str(bytes: Seq<u8>) -> Seq<u8> {
    spec_u32_to_le_bytes(bytes.len() as u32) + bytes
}

/// The concatenation of a list of keys.
pub open spec fn wire_key_items(keys: Seq<Seq<u8>>) -> Seq<u8> decreases keys.len(),
{
    if keys.len() == 0 {
        Seq::empty()
    } else {
        wire_key_items(keys.drop_last()) + keys.last()
    }
}

/// The encoding of a list of keys.
pub open spec fn wire_keys(keys: Seq<Seq<u8>>) -> Seq<u8> {
    spec_u32_to_le_bytes(keys.len() as u32) + wire_key_items(keys)
}

/// The views of a list of keys.
pub open spec fn key_views(keys: Seq<Pubkey>) -> Seq<Seq<u8>> {
    keys.map_values(|k: Pubkey| k@)
}

/// Whether every item is 32 bytes long.
pub open spec fn all_key_sized(keys: Seq<Seq<u8>>) -> bool {
    forall|i: int| 0 <= i < keys.len() ==> (#[trigger] keys[i]).len() == 32
}

/// Takes one byte from the front.
pub open spec fn take_u8(s: Seq<u8>) -> Option<(u8, Seq<u8>)> {
    if s.len() >= 1 {
        Some((s[0], s.skip(1)))
    } else {
        None
    }
}

/// Takes a 32-bit number from the front: four bytes, the least first.
pub open spec fn take_u32(s: Seq<u8>) -> Option<(u32, Seq<u8>)> {
    if s.len() >= 4 {
        Some((spec_u32_from_le_bytes(s.take(4)), s.skip(4)))
    } else {
        None
    }
}

/// Takes a 64-bit number from the front: eight bytes, the least first.
pub open spec fn take_u64(s: Seq<u8>) -> Option<(u64, Seq<u8>)> {
    if s.len() >= 8 {
        Some((spec_u64_from_le_bytes(s.take(8)), s.skip(8)))
    } else {
        None
    }
}

/// Takes a key from the front: 32 bytes.
pub open spec fn take_key(s: Seq<u8>) -> Option<(Seq<u8>, Seq<u8>)> {
    if s.len() >= 32 {
        Some((s.take(32), s.skip(32)))
    } else {
        None
    }
}

/// Takes a string: its length, then that many bytes, which must be UTF-8.
pub open spec fn take_str(s: Seq<u8>) -> Option<(Seq<u8>, Seq<u8>)> {
    match take_u32(s) {
        Some((n, rest)) => if rest.len() >= n && valid_utf8(rest.take(n as int)) {
            Some((rest.take(n as int), rest.skip(n as int)))
        } else {
            None
        },
        None => None,
    }
}

/// Takes `n` keys, one after the other.
pub open spec fn take_key_items(s: Seq<u8>, n: nat) -> Option<(Seq<Seq<u8>>, Seq<u8>)> decreases n,
{
    if n == 0 {
        Some((Seq::empty(), s))
    } else {
        match take_key_items(s, (n - 1) as nat) {
            Some((keys, rest)) => match take_key(rest) {
                Some((key, rest)) => Some((keys.push(key), rest)),
                None => None,
            },
            None => None,
        }
    }
}

/// Takes a list of keys: its count, then the keys.
pub open spec fn take_keys(s: Seq<u8>) -> Option<(Seq<Seq<u8>>, Seq<u8>)> {
    match take_u32(s) {
        Some((n, rest)) => take_key_items(rest, n as nat),
        None => None,
    }
}

/// A byte that was written in front is the byte taken.
pub proof fn lemma_take_u8(v: u8, rest: Seq<u8>)
    ensures
        take_u8(seq![v] + rest) == Some((v, rest)),
{
    assert((seq![v] + rest).skip(1) =~= rest);
}

/// A 32-bit number that was written in front is the number taken.
pub proof fn lemma_take_u32(v: u32, rest: Seq<u8>)
    ensures
        take_u32(spec_u32_to_le_bytes(v) + rest) == Some((v, rest)),
{
    lemma_auto_spec_u32_to_from_le_bytes();
    let s = spec_u32_to_le_bytes(v) + rest;
    assert(s.take(4) =~= spec_u32_to_le_bytes(v));
    assert(s.skip(4) =~= rest);
}

/// A 64-bit number that was written in front is the number taken.
pub proof fn lemma_take_u64(v: u64, rest: Seq<u8>)
    ensures
        take_u64(spec_u64_to_le_bytes(v) + rest) == Some((v, rest)),
{
    lemma_auto_spec_u64_to_from_le_bytes();
    let s = spec_u64_to_le_bytes(v) + rest;
    assert(s.take(8) =~= spec_u64_to_le_bytes(v));
    assert(s.skip(8) =~= rest);
}

/// A key that was written in front is the key taken.
pub proof fn lemma_take_key(key: Seq<u8>, rest: Seq<u8>)
    requires
        key.len() == 32,
    ensures
        take_key(key + rest) == Some((key, rest)),
{
    assert((key + rest).take(32) =~= key);
    assert((key + rest).skip(32) =~= rest);
}

/// A string that was written in front is the string taken.
pub proof fn lemma_take_str(bytes: Seq<u8>, rest: Seq<u8>)
    requires
        bytes.len() <= u32::MAX,
        valid_utf8(bytes),
    ensures
        take_str(wire_str(bytes) + rest) == Some((bytes, rest)),
{
    let n = bytes.len() as u32;
    assert(wire_str(bytes) + rest =~= spec_u32_to_le_bytes(n) + (bytes + rest));
    lemma_take_u32(n, bytes + rest);
    assert((bytes + rest).take(n as int) =~= bytes);
    assert((bytes + rest).skip(n as int) =~= rest);
}

/// Keys that were written in front, one after the other, are the keys taken.
pub proof fn lemma_take_key_items(keys: Seq<Seq<u8>>, rest: Seq<u8>)
    requires
        all_key_sized(keys),
    ensures
        take_key_items(wire_key_items(keys) + rest, keys.len()) == Some((keys, rest)),
    decreases keys.len(),
{
    if keys.len() == 0 {
        assert(wire_key_items(keys) + rest =~= rest);
        assert(keys =~= Seq::<Seq<u8>>::empty());
    } else {
        let front = keys.drop_last();
        let last = keys.last();
        assert(all_key_sized(front)) by {
            assert forall|i: int| 0 <= i < front.len() implies (#[trigger] front[i]).len()
                == 32 by {
                assert(front[i] == keys[i]);
            }
        }
        assert(wire_key_items(keys) + rest =~= wire_key_items(front) + (last + rest));
        lemma_take_key_items(front, last + rest);
        lemma_take_key(last, rest);
        assert(front.push(last) =~= keys);
    }
}

/// A list of keys that was written in front is the list taken.
pub proof fn lemma_take_keys(keys: Seq<Seq<u8>>, rest: Seq<u8>)
    requires
        keys.len() <= u32::MAX,
        all_key_sized(keys),
    ensures
        take_keys(wire_keys(keys) + rest) == Some((keys, rest)),
{
    let n = keys.len() as u32;
    assert(wire_keys(keys) + rest =~= spec_u32_to_le_bytes(n) + (wire_key_items(keys) + rest));
    lemma_take_u32(n, wire_key_items(keys) + rest);
    lemma_take_key_items(keys, rest);
}

/// A byte can be taken from whatever has one, and what is taken and what is
/// left make up the whole.
pub proof fn lemma_taken_u8(s: Seq<u8>)
    ensures
        match take_u8(s) {
            Some((v, rest)) => s == seq![v] + rest,
            None => s.len() < 1,
        },
{
    if s.len() >= 1 {
        assert(s =~= seq![s[0]] + s.skip(1));
    }
}

/// A 32-bit number can be taken from whatever has four bytes, and what is
/// taken and what is left make up the whole.
pub proof fn lemma_taken_u32(s: Seq<u8>)
    ensures
        match take_u32(s) {
            Some((v, rest)) => s == spec_u32_to_le_bytes(v) + rest,
            None => s.len() < 4,
        },
{
    lemma_auto_spec_u32_to_from_le_bytes();
    if s.len() >= 4 {
        assert(s =~= s.take(4) + s.skip(4));
    }
}

/// A 64-bit number can be taken from whatever has eight bytes, and what is
/// taken and what is left make up the whole.
pub proof fn lemma_taken_u64(s: Seq<u8>)
    ensures
        match take_u64(s) {
            Some((v, rest)) => s == spec_u64_to_le_bytes(v) + rest,
            None => s.len() < 8,
        },
{
    lemma_auto_spec_u64_to_from_le_bytes();
    if s.len() >= 8 {
        assert(s =~= s.take(8) + s.skip(8));
    }
}

/// A key can be taken from whatever has 32 bytes, and what is taken and
/// what is left make up the whole.
pub proof fn lemma_taken_key(s: Seq<u8>)
    ensures
        match take_key(s) {
            Some((key, rest)) => s == key + rest && key.len() == 32,
            None => s.len() < 32,
        },
{
    if s.len() >= 32 {
        assert(s =~= s.take(32) + s.skip(32));
    }
}

/// A string that is taken is UTF-8, fits its length prefix, and together
/// with what is left makes up the whole.
pub proof fn lemma_taken_str(s: Seq<u8>)
    ensures
        match take_str(s) {
            Some((bytes, rest)) => s == wire_str(bytes) + rest && valid_utf8(bytes) && bytes.len()
                <= u32::MAX,
            None => true,
        },
{
    lemma_taken_u32(s);
    if let Some((n, rest)) = take_u32(s) {
        if rest.len() >= n {
            assert(rest =~= rest.take(n as int) + rest.skip(n as int));
            assert(s =~= wire_str(rest.take(n as int)) + rest.skip(n as int));
        }
    }
}

/// Keys that are taken have 32 bytes each and, together with what is left,
/// make up the whole.
pub proof fn lemma_taken_key_items(s: Seq<u8>, n: nat)
    ensures
        match take_key_items(s, n) {
            Some((keys, rest)) => s == wire_key_items(keys) + rest && keys.len() == n
                && all_key_sized(keys),
            None => true,
        },
    decreases n,
{
    if n == 0 {
        assert(s =~= wire_key_items(Seq::<Seq<u8>>::empty()) + s);
    } else {
        lemma_taken_key_items(s, (n - 1) as nat);
        if let Some((front, mid)) = take_key_items(s, (n - 1) as nat) {
            lemma_taken_key(mid);
            if let Some((key, rest)) = take_key(mid) {
                let keys = front.push(key);
                assert(keys.drop_last() =~= front);
                assert(s =~= wire_key_items(keys) + rest);
            }
        }
    }
}

/// A list of keys that is taken fits its count prefix and, together with
/// what is left, makes up the whole.
pub proof fn lemma_taken_keys(s: Seq<u8>)
    ensures
        match take_keys(s) {
            Some((keys, rest)) => s == wire_keys(keys) + rest && keys.len() <= u32::MAX
                && all_key_sized(keys),
            None => true,
        },
{
    lemma_taken_u32(s);
    if let Some((n, rest)) = take_u32(s) {
        lemma_taken_key_items(rest, n as nat);
        if let Some((keys, last)) = take_key_items(rest, n as nat) {
            assert(s =~= wire_keys(keys) + last);
        }
    }
}

/// What is left of `data` from position `pos` on.
pub open spec fn tail(data: Seq<u8>, pos: int) -> Seq<u8> {
    data.skip(pos)
}

/// Appends one byte.
pub fn put_u8(out: &mut Vec<u8>, v: u8)
    ensures
        final(out)@ == old(out)@ + seq![v],
{
    out.push(v);
    assert(out@ =~= old(out)@ + seq![v]);
}

/// Appends a run of bytes as it is.
pub fn put_bytes(out: &mut Vec<u8>, bytes: &[u8])
    ensures
        final(out)@ == old(out)@ + bytes@,
{
    let mut i: usize = 0;
    while i < bytes.len()
        invariant
            i <= bytes.len(),
            out@ == old(out)@ + bytes@.take(i as int),
        decreases bytes.len() - i,
    {
        out.push(bytes[i]);
        assert(bytes@.take(i + 1) =~= bytes@.take(i as int).push(bytes@[i as int]));
        i += 1;
    }
    assert(bytes@.take(i as int) =~= bytes@);
}

/// Appends a 32-bit number, the least byte first.
pub fn put_u32(out: &mut Vec<u8>, v: u32)
    ensures
        final(out)@ == old(out)@ + spec_u32_to_le_bytes(v),
{
    let bytes = u32_to_le_bytes(v);
    put_bytes(out, bytes.as_slice());
}

/// Appends a 64-bit number, the least byte first.
pub fn put_u64(out: &mut Vec<u8>, v: u64)
    ensures
        final(out)@ == old(out)@ + spec_u64_to_le_bytes(v),
{
    let bytes = u64_to_le_bytes(v);
    put_bytes(out, bytes.as_slice());
}

/// Appends the 32 bytes of a key.
pub fn put_key(out: &mut Vec<u8>, key: &Pubkey)
    ensures
        final(out)@ == old(out)@ + key@,
{
    put_bytes(out, key.bytes.as_slice());
}

/// Appends a string: the length of its UTF-8 bytes, then the bytes.
pub fn put_str(out: &mut Vec<u8>, s: &str)
    requires
        s.spec_bytes().len() <= u32::MAX,
    ensures
        final(out)@ == old(out)@ + wire_str(s.spec_bytes()),
{
    let bytes = s.as_bytes();
    put_u32(out, bytes.len() as u32);
    put_bytes(out, bytes);
    assert(out@ =~= old(out)@ + wire_str(s.spec_bytes()));
}

/// Appends a list of keys: their count, then the keys.
pub fn put_keys(out: &mut Vec<u8>, keys: &Vec<Pubkey>)
    requires
        keys.len() <= u32::MAX,
    ensures
        final(out)@ == old(out)@ + wire_keys(key_views(keys@)),
{
    put_u32(out, keys.len() as u32);
    let ghost start = out@;
    let mut i: usize = 0;
    while i < keys.len()
        invariant
            i <= keys.len(),
            out@ == start + wire_key_items(key_views(keys@).take(i as int)),
        decreases keys.len() - i,
    {
        put_key(out, &keys[i]);
        proof {
            let views = key_views(keys@);
            assert(views.take(i + 1).drop_last() =~= views.take(i as int));
            assert(views.take(i + 1).last() == keys[i as int]@);
            assert(out@ =~= start + wire_key_items(views.take(i + 1)));
        }
        i += 1;
    }
    proof {
        let views = key_views(keys@);
        assert(views.take(i as int) =~= views);
        assert(out@ =~= old(out)@ + wire_keys(views));
    }
}

/// Reads one byte at position `pos`.
pub fn get_u8(data: &[u8], pos: usize) -> (r: Option<(u8, usize)>)
    requires
        pos <= data.len(),
    ensures
        match r {
            Some((v, next)) => next == pos + 1 && next <= data.len() && take_u8(
                tail(data@, pos as int),
            ) == Some(
                (v, tail(data@, next as int)),
            ),
            None => take_u8(tail(data@, pos as int)) is None,
        },
{
    if data.len() - pos < 1 {
        return None;
    }
    assert(tail(data@, pos as int).skip(1) =~= tail(data@, pos + 1));
    Some((data[pos], pos + 1))
}

/// Reads a 32-bit number at position `pos`.
pub fn get_u32(data: &[u8], pos: usize) -> (r: Option<(u32, usize)>)
    requires
        pos <= data.len(),
    ensures
        match r {
            Some((v, next)) => next == pos + 4 && next <= data.len() && take_u32(
                tail(data@, pos as int),
            ) == Some(
                (v, tail(data@, next as int)),
            ),
            None => take_u32(tail(data@, pos as int)) is None,
        },
{
    if data.len() - pos < 4 {
        return None;
    }
    let field = slice_subrange(data, pos, pos + 4);
    assert(tail(data@, pos as int).take(4) =~= field@);
    assert(tail(data@, pos as int).skip(4) =~= tail(data@, pos + 4));
    Some((u32_from_le_bytes(field), pos + 4))
}

/// Reads a 64-bit number at position `pos`.
pub fn get_u64(data: &[u8], pos: usize) -> (r: Option<(u64, usize)>)
    requires
        pos <= data.len(),
    ensures
        match r {
            Some((v, next)) => next == pos + 8 && next <= data.len() && take_u64(
                tail(data@, pos as int),
            ) == Some(
                (v, tail(data@, next as int)),
            ),
            None => take_u64(tail(data@, pos as int)) is None,
        },
{
    if data.len() - pos < 8 {
        return None;
    }
    let field = slice_subrange(data, pos, pos + 8);
    assert(tail(data@, pos as int).take(8) =~= field@);
    assert(tail(data@, pos as int).skip(8) =~= tail(data@, pos + 8));
    Some((u64_from_le_bytes(field), pos + 8))
}

/// Reads a key at position `pos`.
pub fn get_key(data: &[u8], pos: usize) -> (r: Option<(Pubkey, usize)>)
    requires
        pos <= data.len(),
    ensures
        match r {
            Some((key, next)) => next == pos + 32 && next <= data.len() && take_key(
                tail(data@, pos as int),
            ) == Some(
                (key@, tail(data@, next as int)),
            ),
            None => take_key(tail(data@, pos as int)) is None,
        },
{
    if data.len() - pos < 32 {
        return None;
    }
    let mut bytes = [0u8; 32];
    let mut i: usize = 0;
    while i < 32
        invariant
            i <= 32,
            pos + 32 <= data.len(),
            forall|j: int| 0 <= j < i ==> bytes[j] == data[pos + j],
        decreases 32 - i,
    {
        bytes[i] = data[pos + i];
        i += 1;
    }
    let key = Pubkey { bytes };
    assert(tail(data@, pos as int).take(32) =~= key@);
    assert(tail(data@, pos as int).skip(32) =~= tail(data@, pos + 32));
    Some((key, pos + 32))
}

/// `String::from_utf8`: the string that `bytes` encode, where they are valid
/// UTF-8, and nothing where they are not.
#[verifier::external_body]
fn string_from_utf8(bytes: Vec<u8>) -> (r: Option<String>)
    ensures
        match r {
            Some(s) => valid_utf8(bytes@) && s@ == decode_utf8(bytes@),
            None => !valid_utf8(bytes@),
        },
{
    String::from_utf8(bytes).ok()
}

/// The UTF-8 bytes of a string.
pub open spec fn str_bytes(s: &String) -> Seq<u8> {
    encode_utf8(s@)
}

/// Reads a string at position `pos`. There is none where the bytes are cut
/// short or are not UTF-8.
pub fn get_str(data: &[u8], pos: usize) -> (r: Option<(String, usize)>)
    requires
        pos <= data.len(),
    ensures
        match r {
            Some((s, next)) => next <= data.len() && take_str(tail(data@, pos as int)) == Some(
                (str_bytes(&s), tail(data@, next as int)),
            ),
            None => take_str(tail(data@, pos as int)) is None,
        },
{
    let (n, start) = match get_u32(data, pos) {
        Some(field) => field,
        None => { return None; },
    };
    let n = n as usize;
    if data.len() - start < n {
        return None;
    }
    let field = slice_subrange(data, start, start + n);
    let mut bytes: Vec<u8> = Vec::new();
    put_bytes(&mut bytes, field);
    proof {
        assert(bytes@ =~= field@);
        assert(tail(data@, start as int).take(n as int) =~= field@);
        assert(tail(data@, start as int).skip(n as int) =~= tail(data@, start + n));
        broadcast use decode_utf8_encode_utf8;
    }
    match string_from_utf8(bytes) {
        Some(s) => Some((s, start + n)),
        None => None,
    }
}

/// Reads a list of keys at position `pos`. There is none where a key is cut
/// short.
pub fn get_keys(data: &[u8], pos: usize) -> (r: Option<(Vec<Pubkey>, usize)>)
    requires
        pos <= data.len(),
    ensures
        match r {
            Some((keys, next)) => next <= data.len() && take_keys(tail(data@, pos as int))
                == Some((key_views(keys@), tail(data@, next as int))),
            None => take_keys(tail(data@, pos as int)) is None,
        },
{
    let (n, start) = match get_u32(data, pos) {
        Some(field) => field,
        None => { return None; },
    };
    let mut keys: Vec<Pubkey> = Vec::new();
    let mut at: usize = start;
    let mut i: u32 = 0;
    while i < n
        invariant
            i <= n,
            start <= at <= data.len(),
            keys@.len() == i,
            take_u32(tail(data@, pos as int)) == Some((n, tail(data@, start as int))),
            take_key_items(tail(data@, start as int), i as nat) == Some(
                (key_views(keys@), tail(data@, at as int)),
            ),
        decreases n - i,
    {
        match get_key(data, at) {
            Some((key, next)) => {
                proof {
                    assert(key_views(keys@).push(key@) =~= key_views(keys@.push(key)));
                }
                keys.push(key);
                at = next;
            },
            None => {
                proof {
                    assert(take_key_items(tail(data@, start as int), (i + 1) as nat) is None);
                    lemma_take_key_items_stuck(tail(data@, start as int), (i + 1) as nat, n as nat);
                }
                return None;
            },
        }
        i += 1;
    }
    Some((keys, at))
}

/// Once fewer than `k` keys can be taken, no greater number can.
pub proof fn lemma_take_key_items_stuck(s: Seq<u8>, k: nat, n: nat)
    requires
        k <= n,
        take_key_items(s, k) is None,
    ensures
        take_key_items(s, n) is None,
    decreases n,
{
    if k < n {
        lemma_take_key_items_stuck(s, k, (n - 1) as nat);
    }
}

} // verus!
