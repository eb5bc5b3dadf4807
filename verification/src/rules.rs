//! The rules of M-of-N governance, and what follows from them.
//!
//! A change to a record is first tried against the record as it stands; only
//! a change that breaks no rule is sent to the ledger. This module states
//! the rules for the three changes, what each change does to the record, and
//! that a record that obeys the M-of-N rule keeps obeying it.

use crate::error::ValidationError;
use crate::pubkey::Pubkey;
use crate::state::{
    lemma_filter_all, lemma_filter_no_duplicates, lemma_members, lemma_members_of_packed,
    members_of, occupied, other_than, packed_from, AdminConfig, MAX_ADMIN_ACCOUNTS,
};
use vstd::prelude::*;

verus! {

/// The rule that a new threshold breaks, if it breaks one: it is not zero,
/// not greater than the number of administrators, and not the threshold that
/// the record has.
pub open spec fn change_refusal(
    config: AdminConfig,
    approval_threshold: u8,
) -> Option<ValidationError> {
    let administrators = config.members().len();
    if approval_threshold == 0 {
        Some(ValidationError::ThresholdZero)
    } else if approval_threshold > administrators {
        Some(
            ValidationError::ThresholdAboveAdministrators {
                administrators: administrators as usize,
            },
        )
    } else if approval_threshold == config.approval_threshold {
        Some(ValidationError::ThresholdUnchanged { approval_threshold })
    } else {
        None
    }
}

/// The rule that a new administrator breaks, if it breaks one: a slot is
/// free, and the identity is no administrator yet.
pub open spec fn add_refusal(config: AdminConfig, account: Pubkey) -> Option<ValidationError> {
    if config.members().len() == MAX_ADMIN_ACCOUNTS {
        Some(ValidationError::AdminAccountsFull { capacity: MAX_ADMIN_ACCOUNTS })
    } else if config.members().contains(account) {
        Some(ValidationError::AccountExists { account })
    } else {
        None
    }
}

/// The rule that the removal of an administrator breaks, if it breaks one:
/// the identity is an administrator, it is not the last one, and the
/// threshold is below the number of administrators.
pub open spec fn remove_refusal(config: AdminConfig, account: Pubkey) -> Option<ValidationError> {
    if !config.members().contains(account) {
        Some(ValidationError::AccountMissing { account })
    } else if config.members().len() == 1 {
        Some(ValidationError::LastAdminAccount)
    } else if config.members().len() == config.approval_threshold {
        Some(ValidationError::ThresholdEqualsAccounts)
    } else {
        None
    }
}

/// `after` is `before` with the threshold `approval_threshold`: the slots
/// are untouched.
pub open spec fn threshold_changed(
    before: AdminConfig,
    after: AdminConfig,
    approval_threshold: u8,
) -> bool {
    &&& after.approval_threshold == approval_threshold
    &&& after.admin_accounts == before.admin_accounts
}

/// `after` is `before` with `account` behind its members, repacked: the
/// threshold is untouched.
pub open spec fn account_added(before: AdminConfig, after: AdminConfig, account: Pubkey) -> bool {
    &&& after.approval_threshold == before.approval_threshold
    &&& packed_from(after.admin_accounts@, before.members().push(account))
}

/// `after` is `before` without `account` among its members, repacked: the
/// threshold is untouched.
pub open spec fn account_removed(before: AdminConfig, after: AdminConfig, account: Pubkey) -> bool {
    &&& after.approval_threshold == before.approval_threshold
    &&& packed_from(after.admin_accounts@, before.members().filter(other_than(account)))
}

/// After an addition the members are the former ones and then the new one;
/// adding the empty identity adds nobody.
pub proof fn lemma_members_after_add(before: AdminConfig, after: AdminConfig, account: Pubkey)
    requires
        account_added(before, after, account),
    ensures
        after.members() == if account.is_empty() {
            before.members()
        } else {
            before.members().push(account)
        },
{
    let members = before.members();
    lemma_members(before.admin_accounts@);
    lemma_members_of_packed(after.admin_accounts@, members.push(account));
    members.lemma_filter_push(account, occupied());
    lemma_filter_all(members, occupied());
}

/// After a removal the members are the former ones without the removed one,
/// in their former order.
pub proof fn lemma_members_after_remove(before: AdminConfig, after: AdminConfig, account: Pubkey)
    requires
        account_removed(before, after, account),
    ensures
        after.members() == before.members().filter(other_than(account)),
{
    let members = before.members();
    let kept = members.filter(other_than(account));
    lemma_members(before.admin_accounts@);
    lemma_members_of_packed(after.admin_accounts@, kept);
    assert forall|i: int| 0 <= i < kept.len() implies occupied()(#[trigger] kept[i]) by {
        assert(kept.contains(kept[i]));
        members.lemma_filter_contains_rev(other_than(account), kept[i]);
    }
    lemma_filter_all(kept, occupied());
}

/// Taking one item out of a list without repetitions shortens it by one.
pub proof fn lemma_filter_out_one(list: Seq<Pubkey>, account: Pubkey)
    requires
        list.no_duplicates(),
        list.contains(account),
    ensures
        list.filter(other_than(account)).len() == list.len() - 1,
    decreases list.len(),
{
    reveal(Seq::filter);
    let front = list.drop_last();
    let last = list.last();
    if last == account {
        assert forall|i: int| 0 <= i < front.len() implies other_than(account)(
            #[trigger] front[i],
        ) by {
            assert(front[i] == list[i]);
        }
        lemma_filter_all(front, other_than(account));
    } else {
        let i = choose|i: int| 0 <= i < list.len() && list[i] == account;
        assert(front[i] == account);
        lemma_filter_out_one(front, account);
    }
}

/// A record that obeys the M-of-N rule obeys it after an accepted change of
/// threshold.
pub proof fn lemma_change_threshold_keeps_valid(
    before: AdminConfig,
    after: AdminConfig,
    approval_threshold: u8,
)
    requires
        before.valid(),
        change_refusal(before, approval_threshold) is None,
        threshold_changed(before, after, approval_threshold),
    ensures
        after.valid(),
        after.members() == before.members(),
{
}

/// A record that obeys the M-of-N rule obeys it after an accepted addition.
/// It has the new administrator behind the former ones; the addition of
/// the empty identity is accepted too, and adds nobody.
pub proof fn lemma_add_keeps_valid(before: AdminConfig, after: AdminConfig, account: Pubkey)
    requires
        before.valid(),
        add_refusal(before, account) is None,
        account_added(before, after, account),
    ensures
        after.valid(),
        after.members() == if account.is_empty() {
            before.members()
        } else {
            before.members().push(account)
        },
{
    lemma_members_after_add(before, after, account);
    lemma_members(before.admin_accounts@);
}

/// A record that obeys the M-of-N rule obeys it after an accepted removal.
pub proof fn lemma_remove_keeps_valid(before: AdminConfig, after: AdminConfig, account: Pubkey)
    requires
        before.valid(),
        remove_refusal(before, account) is None,
        account_removed(before, after, account),
    ensures
        after.valid(),
        after.members().len() == before.members().len() - 1,
{
    lemma_members_after_remove(before, after, account);
    lemma_filter_no_duplicates(before.members(), other_than(account));
    lemma_filter_out_one(before.members(), account);
}

/// Adding an administrator, who is somebody and not the empty identity,
/// and then removing the same identity is accepted at both steps and
/// restores the members, in their order, and the threshold.
pub proof fn lemma_add_then_remove_restores(
    before: AdminConfig,
    added: AdminConfig,
    after: AdminConfig,
    account: Pubkey,
)
    requires
        before.valid(),
        !account.is_empty(),
        add_refusal(before, account) is None,
        account_added(before, added, account),
        account_removed(added, after, account),
    ensures
        remove_refusal(added, account) is None,
        after.members() == before.members(),
        after.approval_threshold == before.approval_threshold,
{
    let members = before.members();
    lemma_members_after_add(before, added, account);
    lemma_members_after_remove(added, after, account);
    assert(added.members().last() == account);
    assert(added.members().contains(account));
    members.lemma_filter_push(account, other_than(account));
    assert forall|i: int| 0 <= i < members.len() implies other_than(account)(
        #[trigger] members[i],
    ) by {
        assert(members.contains(members[i]));
    }
    lemma_filter_all(members, other_than(account));
}

/// While every administrator is needed for the threshold, no removal is
/// accepted, whoever is to be removed.
pub proof fn lemma_remove_at_threshold_refused(config: AdminConfig, account: Pubkey)
    requires
        config.members().len() == config.approval_threshold,
    ensures
        remove_refusal(config, account) is Some,
{
}

/// In a record that obeys the M-of-N rule and has more administrators than
/// the threshold asks for, the removal of any administrator is accepted.
pub proof fn lemma_remove_above_threshold_accepted(config: AdminConfig, account: Pubkey)
    requires
        config.valid(),
        config.members().contains(account),
        config.members().len() > config.approval_threshold,
    ensures
        remove_refusal(config, account) is None,
{
}

/// In every record that obeys the M-of-N rule, the threshold is at least one
/// and at most the number of administrators, which is at least one and at
/// most the number of slots.
pub proof fn lemma_valid_bounds(config: AdminConfig)
    requires
        config.valid(),
    ensures
        1 <= config.approval_threshold <= config.members().len() <= MAX_ADMIN_ACCOUNTS,
        config.members().len() >= 1,
        config.members() == members_of(config.admin_accounts@),
{
}

} // verus!
