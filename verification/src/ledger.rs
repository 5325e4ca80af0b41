//! The keyed store of groups and the engine's public entry points.
//!
//! Group ids are assigned by a monotonically increasing counter starting at
//! 1 and are never reused: the group with id `i` lives at index `i - 1`.
//! Each entry point runs atomically; a failing call leaves the whole store
//! exactly as it was.

use vstd::prelude::*;

use crate::engine::{
    cancel_transition, contribute_transition, fresh_entry, join_transition, payout_transition,
    set_metadata_transition, status_of, withdraw_transition,
};
use crate::errors::AjoError;
use crate::storage::GroupEntry;
use crate::types::{Group, GroupMetadata, GroupStatus, MemberId, PayoutRecord};
use crate::utils;
use crate::utils::{spec_params_valid, spec_validate_params};

verus! {

/// The two group records agree on every field.
pub open spec fn spec_group_eq(a: Group, b: Group) -> bool {
    &&& a.id == b.id
    &&& a.creator == b.creator
    &&& a.contribution_amount == b.contribution_amount
    &&& a.cycle_duration == b.cycle_duration
    &&& a.max_members == b.max_members
    &&& a.members@ == b.members@
    &&& a.current_cycle == b.current_cycle
    &&& a.payout_index == b.payout_index
    &&& a.created_at == b.created_at
    &&& a.cycle_start_time == b.cycle_start_time
    &&& a.is_complete == b.is_complete
}

/// The two optional metadata records agree on every field.
pub open spec fn spec_metadata_eq(a: Option<GroupMetadata>, b: Option<GroupMetadata>) -> bool {
    match (a, b) {
        (Option::None, Option::None) => true,
        (Option::Some(x), Option::Some(y)) => {
            &&& x.name@ == y.name@
            &&& x.description@ == y.description@
            &&& x.rules@ == y.rules@
        },
        _ => false,
    }
}

/// Copy a member list element by element.
fn copy_member_list(members: &Vec<MemberId>) -> (r: Vec<MemberId>)
    ensures
        r@ == members@,
{
    let mut r: Vec<MemberId> = Vec::new();
    let mut i: usize = 0;
    while i < members.len()
        invariant
            i <= members@.len(),
            r@ == members@.take(i as int),
        decreases members@.len() - i,
    {
        r.push(members[i]);
        proof {
            assert(members@.take(i + 1 as int) =~= members@.take(i as int).push(
                members@[i as int],
            ));
        }
        i += 1;
    }
    proof {
        assert(members@.take(members@.len() as int) =~= members@);
    }
    r
}

/// Borrow one group entry mutably.
fn entry_mut(groups: &mut Vec<GroupEntry>, i: usize) -> (e: &mut GroupEntry)
    requires
        i < old(groups)@.len(),
    ensures
        *e == old(groups)@[i as int],
        final(groups)@ == old(groups)@.update(i as int, *final(e)),
{
    &mut groups[i]
}

/// The engine's whole persistent state: every group record ever created,
/// in creation order.
pub struct AjoLedger {
    /// One entry per group; the entry at index `i` has group id `i + 1`.
    pub groups: Vec<GroupEntry>,
}

impl AjoLedger {
    /// Every entry is well-formed and sits at the index its id names.
    pub open spec fn wf(self) -> bool {
        forall|i: int|
            0 <= i < self.groups@.len() ==> {
                &&& (#[trigger] self.groups@[i]).wf()
                &&& self.groups@[i].group.id == i + 1
            }
    }

    /// A group with this id exists.
    pub open spec fn has_group(self, group_id: u64) -> bool {
        1 <= group_id <= self.groups@.len()
    }

    /// The stored entry of the group with this id.
    pub open spec fn entry_of(self, group_id: u64) -> GroupEntry
        recommends
            self.has_group(group_id),
    {
        self.groups@[group_id - 1]
    }

    /// Between `pre` and `post`, at most the entry of `group_id` changed.
    pub open spec fn only_entry_changed(pre: AjoLedger, post: AjoLedger, group_id: u64) -> bool {
        &&& post.groups@.len() == pre.groups@.len()
        &&& forall|i: int|
            0 <= i < pre.groups@.len() && i != group_id - 1 ==> post.groups@[i] == pre.groups@[i]
    }

    /// An empty store: no groups yet, the id counter at its start.
    pub fn new() -> (r: AjoLedger)
        ensures
            r.wf(),
            r.groups@.len() == 0,
    {
        AjoLedger { groups: Vec::new() }
    }

    /// Index of the group with this id, if it exists.
    fn entry_index(&self, group_id: u64) -> (r: Option<usize>)
        ensures
            match r {
                Option::Some(i) => self.has_group(group_id) && i == group_id - 1,
                Option::None => !self.has_group(group_id),
            },
    {
        if group_id >= 1 && group_id <= self.groups.len() as u64 {
            Some((group_id - 1) as usize)
        } else {
            None
        }
    }

    /// Create a new group with the caller as creator and first member.
    ///
    /// Returns the fresh group id on success; rejects invalid parameters
    /// with the exact error `validate_group_params` assigns.
    pub fn create_group(
        &mut self,
        creator: MemberId,
        contribution_amount: i128,
        cycle_duration: u64,
        max_members: u32,
        now: u64,
    ) -> (r: Result<u64, AjoError>)
        requires
            old(self).wf(),
            contribution_amount * (max_members + 1) as int <= i128::MAX as int,
            now + cycle_duration <= u64::MAX,
            old(self).groups@.len() + 1 <= u64::MAX,
        ensures
            final(self).wf(),
            r == (if spec_params_valid(contribution_amount, cycle_duration, max_members) {
                Ok::<u64, AjoError>((old(self).groups@.len() + 1) as u64)
            } else {
                Err::<u64, AjoError>(
                    spec_validate_params(contribution_amount, cycle_duration, max_members)->Err_0,
                )
            }),
            !spec_params_valid(contribution_amount, cycle_duration, max_members) ==> *final(self)
                == *old(self),
            spec_params_valid(contribution_amount, cycle_duration, max_members) ==> {
                &&& final(self).groups@.len() == old(self).groups@.len() + 1
                &&& forall|i: int|
                    0 <= i < old(self).groups@.len() ==> final(self).groups@[i] == old(
                        self,
                    ).groups@[i]
                &&& fresh_entry(
                    final(self).groups@[old(self).groups@.len() as int],
                    (old(self).groups@.len() + 1) as u64,
                    creator,
                    contribution_amount,
                    cycle_duration,
                    max_members,
                    now,
                )
            },
    {
        match utils::validate_group_params(contribution_amount, cycle_duration, max_members) {
            Ok(()) => {},
            Err(e) => {
                return Err(e);
            },
        }
        let group_id = self.groups.len() as u64 + 1;
        let entry = GroupEntry::create(
            group_id,
            creator,
            contribution_amount,
            cycle_duration,
            max_members,
            now,
        );
        self.groups.push(entry);
        Ok(group_id)
    }

    /// Append a member to a group's rotation.
    pub fn join_group(&mut self, member: MemberId, group_id: u64) -> (r: Result<(), AjoError>)
        requires
            old(self).wf(),
        ensures
            final(self).wf(),
            !old(self).has_group(group_id) ==> r == Err::<(), AjoError>(AjoError::GroupNotFound)
                && *final(self) == *old(self),
            old(self).has_group(group_id) ==> {
                &&& join_transition(
                    old(self).entry_of(group_id),
                    final(self).entry_of(group_id),
                    member,
                    r,
                )
                &&& AjoLedger::only_entry_changed(*old(self), *final(self), group_id)
            },
    {
        let idx = match self.entry_index(group_id) {
            Some(i) => i,
            None => {
                return Err(AjoError::GroupNotFound);
            },
        };
        let e = entry_mut(&mut self.groups, idx);
        let r = e.join(member);
        proof {
            Self::lemma_wf_after_update(*old(self), *self, idx as int);
        }
        r
    }

    /// Record a member's contribution for the group's current cycle.
    pub fn contribute(&mut self, member: MemberId, group_id: u64) -> (r: Result<(), AjoError>)
        requires
            old(self).wf(),
        ensures
            final(self).wf(),
            !old(self).has_group(group_id) ==> r == Err::<(), AjoError>(AjoError::GroupNotFound)
                && *final(self) == *old(self),
            old(self).has_group(group_id) ==> {
                &&& contribute_transition(
                    old(self).entry_of(group_id),
                    final(self).entry_of(group_id),
                    member,
                    r,
                )
                &&& AjoLedger::only_entry_changed(*old(self), *final(self), group_id)
            },
    {
        let idx = match self.entry_index(group_id) {
            Some(i) => i,
            None => {
                return Err(AjoError::GroupNotFound);
            },
        };
        let e = entry_mut(&mut self.groups, idx);
        let r = e.contribute(member);
        proof {
            Self::lemma_wf_after_update(*old(self), *self, idx as int);
        }
        r
    }

    /// Execute the current cycle's payout and advance the rotation.
    pub fn execute_payout(&mut self, group_id: u64, now: u64) -> (r: Result<
        PayoutRecord,
        AjoError,
    >)
        requires
            old(self).wf(),
            old(self).has_group(group_id) ==> now + old(self).entry_of(
                group_id,
            ).group.cycle_duration <= u64::MAX,
        ensures
            final(self).wf(),
            !old(self).has_group(group_id) ==> r == Err::<PayoutRecord, AjoError>(
                AjoError::GroupNotFound,
            ) && *final(self) == *old(self),
            old(self).has_group(group_id) ==> {
                &&& payout_transition(
                    old(self).entry_of(group_id),
                    final(self).entry_of(group_id),
                    now,
                    r,
                )
                &&& AjoLedger::only_entry_changed(*old(self), *final(self), group_id)
            },
    {
        let idx = match self.entry_index(group_id) {
            Some(i) => i,
            None => {
                return Err(AjoError::GroupNotFound);
            },
        };
        let e = entry_mut(&mut self.groups, idx);
        let r = e.execute_payout(now);
        proof {
            Self::lemma_wf_after_update(*old(self), *self, idx as int);
        }
        r
    }

    /// Cancel a group; only its creator may.
    pub fn cancel_group(&mut self, caller: MemberId, group_id: u64) -> (r: Result<(), AjoError>)
        requires
            old(self).wf(),
        ensures
            final(self).wf(),
            !old(self).has_group(group_id) ==> r == Err::<(), AjoError>(AjoError::GroupNotFound)
                && *final(self) == *old(self),
            old(self).has_group(group_id) ==> {
                &&& cancel_transition(
                    old(self).entry_of(group_id),
                    final(self).entry_of(group_id),
                    caller,
                    r,
                )
                &&& AjoLedger::only_entry_changed(*old(self), *final(self), group_id)
            },
    {
        let idx = match self.entry_index(group_id) {
            Some(i) => i,
            None => {
                return Err(AjoError::GroupNotFound);
            },
        };
        let e = entry_mut(&mut self.groups, idx);
        let r = e.cancel(caller);
        proof {
            Self::lemma_wf_after_update(*old(self), *self, idx as int);
        }
        r
    }

    /// Emergency withdrawal from a stalled group; returns `(refund, penalty)`.
    pub fn emergency_withdraw(&mut self, member: MemberId, group_id: u64, now: u64) -> (r: Result<
        (i128, i128),
        AjoError,
    >)
        requires
            old(self).wf(),
        ensures
            final(self).wf(),
            !old(self).has_group(group_id) ==> r == Err::<(i128, i128), AjoError>(
                AjoError::GroupNotFound,
            ) && *final(self) == *old(self),
            old(self).has_group(group_id) ==> {
                &&& withdraw_transition(
                    old(self).entry_of(group_id),
                    final(self).entry_of(group_id),
                    member,
                    now,
                    r,
                )
                &&& AjoLedger::only_entry_changed(*old(self), *final(self), group_id)
            },
    {
        let idx = match self.entry_index(group_id) {
            Some(i) => i,
            None => {
                return Err(AjoError::GroupNotFound);
            },
        };
        let e = entry_mut(&mut self.groups, idx);
        let r = e.emergency_withdraw(member, now);
        proof {
            Self::lemma_wf_after_update(*old(self), *self, idx as int);
        }
        r
    }

    /// Overwrite a group's metadata record; only its creator may.
    pub fn set_group_metadata(
        &mut self,
        caller: MemberId,
        group_id: u64,
        metadata: GroupMetadata,
    ) -> (r: Result<(), AjoError>)
        requires
            old(self).wf(),
        ensures
            final(self).wf(),
            !old(self).has_group(group_id) ==> r == Err::<(), AjoError>(AjoError::GroupNotFound)
                && *final(self) == *old(self),
            old(self).has_group(group_id) ==> {
                &&& set_metadata_transition(
                    old(self).entry_of(group_id),
                    final(self).entry_of(group_id),
                    caller,
                    metadata,
                    r,
                )
                &&& AjoLedger::only_entry_changed(*old(self), *final(self), group_id)
            },
    {
        let idx = match self.entry_index(group_id) {
            Some(i) => i,
            None => {
                return Err(AjoError::GroupNotFound);
            },
        };
        let e = entry_mut(&mut self.groups, idx);
        let r = e.set_metadata(caller, metadata);
        proof {
            Self::lemma_wf_after_update(*old(self), *self, idx as int);
        }
        r
    }

    /// Read a copy of a group record.
    pub fn get_group(&self, group_id: u64) -> (r: Result<Group, AjoError>)
        ensures
            !self.has_group(group_id) ==> r == Err::<Group, AjoError>(AjoError::GroupNotFound),
            self.has_group(group_id) ==> r is Ok && spec_group_eq(
                r->Ok_0,
                self.entry_of(group_id).group,
            ),
    {
        let idx = match self.entry_index(group_id) {
            Some(i) => i,
            None => {
                return Err(AjoError::GroupNotFound);
            },
        };
        let g = &self.groups[idx].group;
        Ok(
            Group {
                id: g.id,
                creator: g.creator,
                contribution_amount: g.contribution_amount,
                cycle_duration: g.cycle_duration,
                max_members: g.max_members,
                members: copy_member_list(&g.members),
                current_cycle: g.current_cycle,
                payout_index: g.payout_index,
                created_at: g.created_at,
                cycle_start_time: g.cycle_start_time,
                is_complete: g.is_complete,
            },
        )
    }

    /// Read a copy of a group's metadata, if any was ever set.
    pub fn get_group_metadata(&self, group_id: u64) -> (r: Result<Option<GroupMetadata>, AjoError>)
        ensures
            !self.has_group(group_id) ==> r == Err::<Option<GroupMetadata>, AjoError>(
                AjoError::GroupNotFound,
            ),
            self.has_group(group_id) ==> r is Ok && spec_metadata_eq(
                r->Ok_0,
                self.entry_of(group_id).metadata,
            ),
    {
        let idx = match self.entry_index(group_id) {
            Some(i) => i,
            None => {
                return Err(AjoError::GroupNotFound);
            },
        };
        match &self.groups[idx].metadata {
            None => Ok(None),
            Some(m) => Ok(
                Some(
                    GroupMetadata {
                        name: m.name.clone(),
                        description: m.description.clone(),
                        rules: m.rules.clone(),
                    },
                ),
            ),
        }
    }

    /// Aggregate one group's observable state into a snapshot at time `now`.
    pub fn get_group_status(&self, group_id: u64, now: u64) -> (r: Result<GroupStatus, AjoError>)
        requires
            self.wf(),
        ensures
            !self.has_group(group_id) ==> r == Err::<GroupStatus, AjoError>(
                AjoError::GroupNotFound,
            ),
            self.has_group(group_id) ==> r is Ok && status_of(
                self.entry_of(group_id),
                now,
                r->Ok_0,
            ),
    {
        let idx = match self.entry_index(group_id) {
            Some(i) => i,
            None => {
                return Err(AjoError::GroupNotFound);
            },
        };
        Ok(self.groups[idx].status(now))
    }

    /// Contribution status of every member of a group for a cycle, in join
    /// order.
    pub fn get_contribution_status(&self, group_id: u64, cycle: u32) -> (r: Result<
        Vec<(MemberId, bool)>,
        AjoError,
    >)
        ensures
            !self.has_group(group_id) ==> r == Err::<Vec<(MemberId, bool)>, AjoError>(
                AjoError::GroupNotFound,
            ),
            self.has_group(group_id) ==> r is Ok && {
                let v = r->Ok_0;
                let e = self.entry_of(group_id);
                &&& v@.len() == e.group.members@.len()
                &&& forall|k: int|
                    0 <= k < v@.len() ==> #[trigger] v@[k] == (
                        e.group.members@[k],
                        e.spec_contributed(cycle, e.group.members@[k]),
                    )
            },
    {
        let idx = match self.entry_index(group_id) {
            Some(i) => i,
            None => {
                return Err(AjoError::GroupNotFound);
            },
        };
        Ok(self.groups[idx].get_cycle_contributions(cycle))
    }

    /// The members of a group, in join order.
    pub fn list_members(&self, group_id: u64) -> (r: Result<Vec<MemberId>, AjoError>)
        ensures
            !self.has_group(group_id) ==> r == Err::<Vec<MemberId>, AjoError>(
                AjoError::GroupNotFound,
            ),
            self.has_group(group_id) ==> r is Ok && r->Ok_0@ == self.entry_of(
                group_id,
            ).group.members@,
    {
        let idx = match self.entry_index(group_id) {
            Some(i) => i,
            None => {
                return Err(AjoError::GroupNotFound);
            },
        };
        Ok(copy_member_list(&self.groups[idx].group.members))
    }

    /// Whether an identity is a member of a group.
    pub fn is_member(&self, group_id: u64, member: MemberId) -> (r: Result<bool, AjoError>)
        ensures
            !self.has_group(group_id) ==> r == Err::<bool, AjoError>(AjoError::GroupNotFound),
            self.has_group(group_id) ==> r == Ok::<bool, AjoError>(
                self.entry_of(group_id).group.members@.contains(member),
            ),
    {
        let idx = match self.entry_index(group_id) {
            Some(i) => i,
            None => {
                return Err(AjoError::GroupNotFound);
            },
        };
        Ok(utils::is_member(&self.groups[idx].group.members, member))
    }

    /// Whether a group is complete (rotation exhausted or cancelled).
    pub fn is_complete(&self, group_id: u64) -> (r: Result<bool, AjoError>)
        ensures
            !self.has_group(group_id) ==> r == Err::<bool, AjoError>(AjoError::GroupNotFound),
            self.has_group(group_id) ==> r == Ok::<bool, AjoError>(
                self.entry_of(group_id).group.is_complete,
            ),
    {
        let idx = match self.entry_index(group_id) {
            Some(i) => i,
            None => {
                return Err(AjoError::GroupNotFound);
            },
        };
        Ok(self.groups[idx].group.is_complete)
    }

    /// If `post.groups` is `pre.groups` with the entry at `idx` replaced by a
    /// well-formed entry of unchanged id, then `post` is well-formed.
    proof fn lemma_wf_after_update(pre: AjoLedger, post: AjoLedger, idx: int)
        requires
            pre.wf(),
            0 <= idx < pre.groups@.len(),
            post.groups@ == pre.groups@.update(idx, post.groups@[idx]),
            post.groups@[idx].wf(),
            post.groups@[idx].group.id == pre.groups@[idx].group.id,
        ensures
            post.wf(),
            AjoLedger::only_entry_changed(pre, post, (idx + 1) as u64),
    {
        assert forall|i: int| 0 <= i < post.groups@.len() implies {
            &&& (#[trigger] post.groups@[i]).wf()
            &&& post.groups@[i].group.id == i + 1
        } by {
            if i != idx {
                assert(post.groups@[i] == pre.groups@[i]);
            }
        }
    }
}

} // verus!
