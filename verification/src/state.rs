//! The persisted governance records.
//!
//! A record holds an approval threshold and a fixed number of identity slots.
//! A slot that holds the empty identity is unused; the *members* of a record
//! are the identities of its used slots, in slot order. The record's storage
//! layout is the threshold byte followed by every slot, used or not.

use crate::codec::{key_views, put_key, put_u8, wire_key_items};
use crate::pubkey::Pubkey;
use vstd::prelude::*;

verus! {

/// Number of identity slots in an instance's administrator record.
pub const MAX_ADMIN_ACCOUNTS: usize = 6;

/// Number of identity slots in an owner record.
pub const MAX_MULTISIG_OWNERS: usize = 5;

/// Bytes that an [`SlqInstance`] takes in storage.
pub const INSTANCE_SIZE: usize = 193;

/// Bytes that a [`MultisigConfigInstance`] takes in storage.
pub const MULTISIG_INSTANCE_SIZE: usize = 161;

/// The test that picks the used slots.
pub open spec fn occupied() -> spec_fn(Pubkey) -> bool {
    |key: Pubkey| !key.is_empty()
}

/// The test that picks every identity but `key`.
pub open spec fn other_than(key: Pubkey) -> spec_fn(Pubkey) -> bool {
    |other: Pubkey| other != key
}

/// The identities in the used slots, in slot order.
pub open spec fn members_of(slots: Seq<Pubkey>) -> Seq<Pubkey> {
    slots.filter(occupied())
}

/// The M-of-N rule: a threshold of at least one, at most the number of
/// members, and no member listed twice.
pub open spec fn quorum_valid(approval_threshold: u8, members: Seq<Pubkey>, capacity: int) -> bool {
    &&& 1 <= approval_threshold
    &&& approval_threshold <= members.len()
    &&& 1 <= members.len() <= capacity
    &&& members.no_duplicates()
}

/// `slots` holds `accounts` in its first slots and the empty identity in the rest.
pub open spec fn packed_from(slots: Seq<Pubkey>, accounts: Seq<Pubkey>) -> bool {
    &&& accounts.len() <= slots.len()
    &&& forall|i: int| 0 <= i < accounts.len() ==> slots[i] == accounts[i]
    &&& forall|i: int| accounts.len() <= i < slots.len() ==> (#[trigger] slots[i]).is_empty()
}

/// The threshold and administrator identities of an instance.
#[derive(Clone, Copy, Debug, PartialEq, Eq)]
pub struct AdminConfig {
    pub approval_threshold: u8,
    pub admin_accounts: [Pubkey; MAX_ADMIN_ACCOUNTS],
}

/// The record of one named instance.
#[derive(Clone, Copy, Debug, PartialEq, Eq)]
pub struct SlqInstance {
    pub admin_config: AdminConfig,
}

/// The threshold and owner identities of a multi-party vault authority.
#[derive(Clone, Copy, Debug, PartialEq, Eq)]
pub struct MultisigConfigInstance {
    pub approval_threshold: u8,
    pub owners: [Pubkey; MAX_MULTISIG_OWNERS],
}

/// Members are never the empty identity, and each of them sits in a slot.
pub proof fn lemma_members(slots: Seq<Pubkey>)
    ensures
        members_of(slots).len() <= slots.len(),
        forall|i: int|
            0 <= i < members_of(slots).len() ==> !(#[trigger] members_of(slots)[i]).is_empty(),
        forall|key: Pubkey|
            members_of(slots).contains(key) <==> slots.contains(key) && !key.is_empty(),
{
    let members = members_of(slots);
    slots.lemma_filter_len(occupied());
    assert forall|i: int| 0 <= i < members.len() implies !(#[trigger] members[i]).is_empty() by {
        slots.lemma_filter_pred(occupied(), i);
    }
    assert forall|key: Pubkey|
        members.contains(key) <==> slots.contains(key) && !key.is_empty() by {
        if members.contains(key) {
            slots.lemma_filter_contains_rev(occupied(), key);
            let i = choose|i: int| 0 <= i < members.len() && members[i] == key;
            slots.lemma_filter_pred(occupied(), i);
        }
        if slots.contains(key) && !key.is_empty() {
            let i = choose|i: int| 0 <= i < slots.len() && slots[i] == key;
            slots.lemma_filter_contains(occupied(), i);
        }
    }
}

/// A list in which every item passes the test is its own selection.
pub proof fn lemma_filter_all(list: Seq<Pubkey>, test: spec_fn(Pubkey) -> bool)
    requires
        forall|i: int| 0 <= i < list.len() ==> test(#[trigger] list[i]),
    ensures
        list.filter(test) == list,
    decreases list.len(),
{
    reveal(Seq::filter);
    if list.len() > 0 {
        lemma_filter_all(list.drop_last(), test);
        assert(list.drop_last().push(list.last()) =~= list);
    }
}

/// A list in which no item passes the test has an empty selection.
pub proof fn lemma_filter_none(list: Seq<Pubkey>, test: spec_fn(Pubkey) -> bool)
    requires
        forall|i: int| 0 <= i < list.len() ==> !test(#[trigger] list[i]),
    ensures
        list.filter(test) == Seq::<Pubkey>::empty(),
    decreases list.len(),
{
    reveal(Seq::filter);
    if list.len() > 0 {
        lemma_filter_none(list.drop_last(), test);
    }
}

/// Selecting from a list without repetitions leaves no repetitions.
pub proof fn lemma_filter_no_duplicates(list: Seq<Pubkey>, test: spec_fn(Pubkey) -> bool)
    requires
        list.no_duplicates(),
    ensures
        list.filter(test).no_duplicates(),
    decreases list.len(),
{
    reveal(Seq::filter);
    if list.len() > 0 {
        let front = list.drop_last();
        let last = list.last();
        lemma_filter_no_duplicates(front, test);
        if test(last) {
            let kept = front.filter(test);
            assert forall|i: int| 0 <= i < kept.len() implies kept[i] != last by {
                assert(kept.contains(kept[i]));
                front.lemma_filter_contains_rev(test, kept[i]);
                let j = choose|j: int| 0 <= j < front.len() && front[j] == kept[i];
                assert(list[j] == kept[i]);
            }
        }
    }
}

/// The members of slots that are packed from a list are the list's own
/// non-empty identities.
pub proof fn lemma_members_of_packed(slots: Seq<Pubkey>, accounts: Seq<Pubkey>)
    requires
        packed_from(slots, accounts),
    ensures
        members_of(slots) == members_of(accounts),
{
    let n = accounts.len() as int;
    let rest = slots.skip(n);
    assert(slots =~= accounts + rest);
    Seq::filter_distributes_over_add(accounts, rest, occupied());
    assert forall|i: int| 0 <= i < rest.len() implies !occupied()(#[trigger] rest[i]) by {
        assert(rest[i] == slots[n + i]);
    }
    lemma_filter_none(rest, occupied());
    assert(members_of(accounts) + Seq::<Pubkey>::empty() =~= members_of(accounts));
}

/// The storage layout of a threshold and its slots.
pub open spec fn wire_record(approval_threshold: u8, slots: Seq<Pubkey>) -> Seq<u8> {
    seq![approval_threshold] + wire_key_items(key_views(slots))
}

/// The layout of `n` slots takes `32 * n` bytes.
pub proof fn lemma_wire_slots_len(slots: Seq<Pubkey>)
    ensures
        wire_key_items(key_views(slots)).len() == 32 * slots.len(),
    decreases slots.len(),
{
    let views = key_views(slots);
    if slots.len() > 0 {
        assert(views.drop_last() =~= key_views(slots.drop_last()));
        lemma_wire_slots_len(slots.drop_last());
        assert(views.last() == slots.last()@);
    }
}

/// In the layout, slot `i` starts at byte `32 * i`.
pub proof fn lemma_wire_slots_at(slots: Seq<Pubkey>, i: int)
    requires
        0 <= i < slots.len(),
    ensures
        wire_key_items(key_views(slots)).subrange(32 * i, 32 * i + 32) == slots[i]@,
    decreases slots.len(),
{
    let views = key_views(slots);
    let front = slots.drop_last();
    assert(views.drop_last() =~= key_views(front));
    assert(views.last() == slots.last()@);
    lemma_wire_slots_len(front);
    lemma_wire_slots_len(slots);
    let all = wire_key_items(views);
    if i == slots.len() - 1 {
        assert(all.subrange(32 * i, 32 * i + 32) =~= slots[i]@);
    } else {
        lemma_wire_slots_at(front, i);
        assert(all.subrange(32 * i, 32 * i + 32) =~= wire_key_items(key_views(front)).subrange(
            32 * i,
            32 * i + 32,
        ));
    }
}

/// Appends a threshold and its slots to `out` in storage layout.
fn put_record(out: &mut Vec<u8>, approval_threshold: u8, slots: &[Pubkey])
    ensures
        final(out)@ == old(out)@ + wire_record(approval_threshold, slots@),
{
    put_u8(out, approval_threshold);
    let ghost start = out@;
    let mut i: usize = 0;
    while i < slots.len()
        invariant
            i <= slots.len(),
            out@ == start + wire_key_items(key_views(slots@).take(i as int)),
        decreases slots.len() - i,
    {
        put_key(out, &slots[i]);
        proof {
            let views = key_views(slots@);
            assert(views.take(i + 1).drop_last() =~= views.take(i as int));
            assert(views.take(i + 1).last() == slots[i as int]@);
            assert(out@ =~= start + wire_key_items(views.take(i + 1)));
        }
        i += 1;
    }
    proof {
        let views = key_views(slots@);
        assert(views.take(i as int) =~= views);
        assert(out@ =~= old(out)@ + wire_record(approval_threshold, slots@));
    }
}

/// Reads the key that starts at byte `at` of `data`.
fn key_at(data: &[u8], at: usize) -> (key: Pubkey)
    requires
        at + 32 <= data.len(),
    ensures
        key@ == data@.subrange(at as int, at + 32),
{
    let mut bytes = [0u8; 32];
    let mut i: usize = 0;
    while i < 32
        invariant
            i <= 32,
            at + 32 <= data.len(),
            forall|j: int| 0 <= j < i ==> bytes[j] == data[at + j],
        decreases 32 - i,
    {
        bytes[i] = data[at + i];
        i += 1;
    }
    let key = Pubkey { bytes };
    assert(key@ =~= data@.subrange(at as int, at + 32));
    key
}

/// Two slot lists with the same layout are the same list.
pub proof fn lemma_wire_slots_injective(a: Seq<Pubkey>, b: Seq<Pubkey>)
    requires
        a.len() == b.len(),
        wire_key_items(key_views(a)) == wire_key_items(key_views(b)),
    ensures
        a == b,
{
    assert forall|i: int| 0 <= i < a.len() implies a[i] == b[i] by {
        lemma_wire_slots_at(a, i);
        lemma_wire_slots_at(b, i);
        assert(a[i].bytes =~= b[i].bytes);
    }
    assert(a =~= b);
}

/// The used slots of `slots`, in slot order.
pub fn collect_members(slots: &[Pubkey]) -> (members: Vec<Pubkey>)
    ensures
        members@ == members_of(slots@),
{
    let mut members: Vec<Pubkey> = Vec::new();
    let mut i: usize = 0;
    proof {
        reveal(Seq::filter);
        assert(slots@.take(0) =~= Seq::<Pubkey>::empty());
    }
    while i < slots.len()
        invariant
            i <= slots.len(),
            members@ == members_of(slots@.take(i as int)),
        decreases slots.len() - i,
    {
        let key = slots[i];
        proof {
            assert(slots@.take(i + 1) =~= slots@.take(i as int).push(key));
            slots@.take(i as int).lemma_filter_push(key, occupied());
        }
        if !key.is_default() {
            members.push(key);
        }
        i += 1;
    }
    assert(slots@.take(i as int) =~= slots@);
    members
}

/// Whether `key` is one of `list`.
pub fn contains_key(list: &Vec<Pubkey>, key: &Pubkey) -> (found: bool)
    ensures
        found == list@.contains(*key),
{
    let mut i: usize = 0;
    while i < list.len()
        invariant
            i <= list.len(),
            forall|j: int| 0 <= j < i ==> list@[j] != *key,
        decreases list.len() - i,
    {
        if list[i].same(key) {
            return true;
        }
        i += 1;
    }
    false
}

/// The identities of `list` other than `key`, in order.
pub fn without(list: &Vec<Pubkey>, key: &Pubkey) -> (kept: Vec<Pubkey>)
    ensures
        kept@ == list@.filter(other_than(*key)),
{
    let mut kept: Vec<Pubkey> = Vec::new();
    let mut i: usize = 0;
    proof {
        reveal(Seq::filter);
        assert(list@.take(0) =~= Seq::<Pubkey>::empty());
    }
    while i < list.len()
        invariant
            i <= list.len(),
            kept@ == list@.take(i as int).filter(other_than(*key)),
        decreases list.len() - i,
    {
        let item = list[i];
        proof {
            assert(list@.take(i + 1) =~= list@.take(i as int).push(item));
            list@.take(i as int).lemma_filter_push(item, other_than(*key));
        }
        if !item.same(key) {
            kept.push(item);
        }
        i += 1;
    }
    assert(list@.take(i as int) =~= list@);
    kept
}

/// Whether the list holds the empty identity.
pub open spec fn holds_empty(list: Seq<Pubkey>) -> bool {
    exists|i: int| 0 <= i < list.len() && (#[trigger] list[i]).is_empty()
}

/// Whether the list holds the empty identity.
pub fn has_empty(list: &Vec<Pubkey>) -> (found: bool)
    ensures
        found == holds_empty(list@),
{
    let mut i: usize = 0;
    while i < list.len()
        invariant
            i <= list.len(),
            forall|j: int| 0 <= j < i ==> !(#[trigger] list@[j]).is_empty(),
        decreases list.len() - i,
    {
        if list[i].is_default() {
            return true;
        }
        i += 1;
    }
    false
}

/// Whether some identity is listed twice.
pub fn has_duplicates(list: &Vec<Pubkey>) -> (found: bool)
    ensures
        found == !list@.no_duplicates(),
{
    let mut i: usize = 0;
    while i < list.len()
        invariant
            i <= list.len(),
            forall|a: int, b: int| 0 <= a < i && 0 <= b < list.len() && a != b ==> list@[a] != list@[b],
        decreases list.len() - i,
    {
        let mut j: usize = 0;
        while j < list.len()
            invariant
                i < list.len(),
                j <= list.len(),
                forall|b: int| 0 <= b < j && b != i ==> list@[i as int] != list@[b],
            decreases list.len() - j,
        {
            if j != i && list[i].same(&list[j]) {
                return true;
            }
            j += 1;
        }
        i += 1;
    }
    false
}

impl AdminConfig {
    /// The administrator identities, in slot order.
    pub open spec fn members(&self) -> Seq<Pubkey> {
        members_of(self.admin_accounts@)
    }

    /// Whether the record obeys the M-of-N rule.
    pub open spec fn valid(&self) -> bool {
        quorum_valid(self.approval_threshold, self.members(), MAX_ADMIN_ACCOUNTS as int)
    }

    /// The administrator identities, in slot order.
    pub fn admin_list(&self) -> (members: Vec<Pubkey>)
        ensures
            members@ == self.members(),
            members@.len() <= MAX_ADMIN_ACCOUNTS,
    {
        proof {
            lemma_members(self.admin_accounts@);
        }
        collect_members(self.admin_accounts.as_slice())
    }
}

impl SlqInstance {
    /// The storage layout of the record.
    pub open spec fn wire(&self) -> Seq<u8> {
        wire_record(self.admin_config.approval_threshold, self.admin_config.admin_accounts@)
    }

    /// The record that `data` is the storage layout of, if it is one.
    pub open spec fn stored(data: Seq<u8>) -> Option<SlqInstance> {
        if data.len() == INSTANCE_SIZE {
            Some(choose|instance: SlqInstance| instance.wire() == data)
        } else {
            None
        }
    }

    /// The record in storage layout.
    pub fn try_to_vec(&self) -> (bytes: Vec<u8>)
        ensures
            bytes@ == self.wire(),
            bytes@.len() == INSTANCE_SIZE,
    {
        let mut bytes: Vec<u8> = Vec::new();
        put_record(
            &mut bytes,
            self.admin_config.approval_threshold,
            self.admin_config.admin_accounts.as_slice(),
        );
        proof {
            lemma_wire_slots_len(self.admin_config.admin_accounts@);
            assert(bytes@ =~= self.wire());
        }
        bytes
    }

    /// Reads a record from its storage layout. The data must be the layout of
    /// one record, no byte less and none more.
    pub fn try_from_slice(data: &[u8]) -> (parsed: Option<SlqInstance>)
        ensures
            parsed == SlqInstance::stored(data@),
            parsed is Some <==> data@.len() == INSTANCE_SIZE,
            parsed matches Some(instance) ==> instance.wire() == data@,
    {
        if data.len() != INSTANCE_SIZE {
            return None;
        }
        let mut slots = [Pubkey::empty(); MAX_ADMIN_ACCOUNTS];
        let mut i: usize = 0;
        while i < MAX_ADMIN_ACCOUNTS
            invariant
                i <= MAX_ADMIN_ACCOUNTS,
                data@.len() == INSTANCE_SIZE,
                forall|j: int| 0 <= j < i ==> slots[j]@ == data@.subrange(1 + 32 * j, 33 + 32 * j),
            decreases MAX_ADMIN_ACCOUNTS - i,
        {
            slots[i] = key_at(data, 1 + 32 * i);
            i += 1;
        }
        let instance = SlqInstance {
            admin_config: AdminConfig { approval_threshold: data[0], admin_accounts: slots },
        };
        proof {
            let layout = wire_key_items(key_views(slots@));
            lemma_wire_slots_len(slots@);
            assert forall|k: int| 0 <= k < 192 implies layout[k] == data@[1 + k] by {
                let j = k / 32;
                lemma_wire_slots_at(slots@, j);
                assert(layout.subrange(32 * j, 32 * j + 32)[k - 32 * j] == layout[k]);
                assert(data@.subrange(1 + 32 * j, 33 + 32 * j)[k - 32 * j] == data@[1 + k]);
            }
            assert(instance.wire() =~= data@);
            let chosen = choose|chosen: SlqInstance| chosen.wire() == data@;
            lemma_instance_wire_injective(chosen, instance);
        }
        Some(instance)
    }
}

impl MultisigConfigInstance {
    /// The owner identities, in slot order.
    pub open spec fn members(&self) -> Seq<Pubkey> {
        members_of(self.owners@)
    }

    /// Whether the record obeys the M-of-N rule.
    pub open spec fn valid(&self) -> bool {
        quorum_valid(self.approval_threshold, self.members(), MAX_MULTISIG_OWNERS as int)
    }

    /// The storage layout of the record.
    pub open spec fn wire(&self) -> Seq<u8> {
        wire_record(self.approval_threshold, self.owners@)
    }

    /// The record in storage layout.
    pub fn try_to_vec(&self) -> (bytes: Vec<u8>)
        ensures
            bytes@ == self.wire(),
            bytes@.len() == MULTISIG_INSTANCE_SIZE,
    {
        let mut bytes: Vec<u8> = Vec::new();
        put_record(&mut bytes, self.approval_threshold, self.owners.as_slice());
        proof {
            lemma_wire_slots_len(self.owners@);
            assert(bytes@ =~= self.wire());
        }
        bytes
    }
}

/// Two instances with the same storage layout are the same instance.
pub proof fn lemma_instance_wire_injective(a: SlqInstance, b: SlqInstance)
    requires
        a.wire() == b.wire(),
    ensures
        a == b,
{
    let wa = wire_key_items(key_views(a.admin_config.admin_accounts@));
    let wb = wire_key_items(key_views(b.admin_config.admin_accounts@));
    assert(a.wire()[0] == b.wire()[0]);
    assert(wa =~= a.wire().skip(1));
    assert(wb =~= b.wire().skip(1));
    lemma_wire_slots_injective(a.admin_config.admin_accounts@, b.admin_config.admin_accounts@);
    assert(a.wire()[0] == a.admin_config.approval_threshold);
    assert(b.wire()[0] == b.admin_config.approval_threshold);
    assert forall|i: int| 0 <= i < MAX_ADMIN_ACCOUNTS implies a.admin_config.admin_accounts[i]
        == b.admin_config.admin_accounts[i] by {
        assert(a.admin_config.admin_accounts@[i] == b.admin_config.admin_accounts@[i]);
    }
    assert(a.admin_config.admin_accounts =~= b.admin_config.admin_accounts);
    assert(a.admin_config == b.admin_config);
}

} // verus!
