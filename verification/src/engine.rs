//! The group lifecycle and payout rotation engine.
//!
//! Every entry point is specified by a transition predicate relating the
//! stored record before and after the call to the call's result. A failing
//! call leaves the record exactly as it was; a successful one performs
//! precisely the state change the predicate describes.

use vstd::prelude::*;

use crate::errors::AjoError;
use crate::storage::GroupEntry;
use crate::types::{
    Group, GroupMetadata, GroupStatus, MemberId, PayoutRecord, MAX_DESCRIPTION_LENGTH,
    MAX_NAME_LENGTH, MAX_RULES_LENGTH,
};
use crate::utils;
use crate::utils::{spec_params_valid, spec_stalled, spec_validate_params};

verus! {

/// The immutable configuration fields agree between two group records.
pub open spec fn same_config(pre: Group, post: Group) -> bool {
    &&& post.id == pre.id
    &&& post.creator == pre.creator
    &&& post.contribution_amount == pre.contribution_amount
    &&& post.cycle_duration == pre.cycle_duration
    &&& post.max_members == pre.max_members
    &&& post.created_at == pre.created_at
}

/// What `join` does: the one new fact is the appended member.
pub open spec fn join_transition(
    pre: GroupEntry,
    post: GroupEntry,
    member: MemberId,
    r: Result<(), AjoError>,
) -> bool {
    if pre.group.is_complete {
        r == Err::<(), AjoError>(AjoError::GroupComplete) && post == pre
    } else if pre.group.members@.contains(member) {
        r == Err::<(), AjoError>(AjoError::AlreadyMember) && post == pre
    } else if pre.group.members@.len() >= pre.group.max_members {
        r == Err::<(), AjoError>(AjoError::MaxMembersExceeded) && post == pre
    } else {
        &&& r == Ok::<(), AjoError>(())
        &&& post.group.members@ == pre.group.members@.push(member)
        &&& same_config(pre.group, post.group)
        &&& post.group.current_cycle == pre.group.current_cycle
        &&& post.group.payout_index == pre.group.payout_index
        &&& post.group.cycle_start_time == pre.group.cycle_start_time
        &&& post.group.is_complete == pre.group.is_complete
        &&& post.contributions == pre.contributions
        &&& post.payouts == pre.payouts
        &&& post.withdrawals == pre.withdrawals
        &&& post.metadata == pre.metadata
        &&& post.cancelled == pre.cancelled
    }
}

/// What `contribute` does: the one new fact is the recorded pair.
///
/// The cycle's time window is deliberately not enforced here: a late
/// contribution is accepted rather than rejected with
/// `OutsideCycleWindow`. The window only gates emergency withdrawal.
pub open spec fn contribute_transition(
    pre: GroupEntry,
    post: GroupEntry,
    member: MemberId,
    r: Result<(), AjoError>,
) -> bool {
    if pre.group.is_complete {
        r == Err::<(), AjoError>(AjoError::GroupComplete) && post == pre
    } else if !pre.group.members@.contains(member) {
        r == Err::<(), AjoError>(AjoError::NotMember) && post == pre
    } else if pre.spec_contributed(pre.group.current_cycle, member) {
        r == Err::<(), AjoError>(AjoError::AlreadyContributed) && post == pre
    } else {
        &&& r == Ok::<(), AjoError>(())
        &&& post.contributions@ == pre.contributions@.push((pre.group.current_cycle, member))
        &&& post.group == pre.group
        &&& post.payouts == pre.payouts
        &&& post.withdrawals == pre.withdrawals
        &&& post.metadata == pre.metadata
        &&& post.cancelled == pre.cancelled
    }
}

/// The payout record a successful `execute_payout` appends at time `now`.
pub open spec fn spec_payout_record(pre: GroupEntry, now: u64) -> PayoutRecord {
    PayoutRecord {
        member: pre.group.members@[pre.group.payout_index as int],
        group_id: pre.group.id,
        cycle: pre.group.current_cycle,
        amount: (pre.group.contribution_amount * pre.group.members@.len()) as i128,
        timestamp: now,
    }
}

/// What `execute_payout` does: pay the member at `payout_index` the full
/// pooled sum, advance the rotation, and complete the group when the
/// rotation is exhausted.
pub open spec fn payout_transition(
    pre: GroupEntry,
    post: GroupEntry,
    now: u64,
    r: Result<PayoutRecord, AjoError>,
) -> bool {
    if pre.group.is_complete {
        r == Err::<PayoutRecord, AjoError>(AjoError::GroupComplete) && post == pre
    } else if !pre.all_contributed() {
        r == Err::<PayoutRecord, AjoError>(AjoError::IncompleteContributions) && post == pre
    } else {
        &&& r == Ok::<PayoutRecord, AjoError>(spec_payout_record(pre, now))
        &&& post.payouts@ == pre.payouts@.push(spec_payout_record(pre, now))
        &&& same_config(pre.group, post.group)
        &&& post.group.members@ == pre.group.members@
        &&& post.group.payout_index == pre.group.payout_index + 1
        &&& post.group.current_cycle == pre.group.current_cycle + 1
        &&& post.group.cycle_start_time == now
        &&& post.group.is_complete == (pre.group.payout_index + 1 == pre.group.members@.len())
        &&& post.contributions == pre.contributions
        &&& post.withdrawals == pre.withdrawals
        &&& post.metadata == pre.metadata
        &&& post.cancelled == pre.cancelled
    }
}

/// What `cancel` does: only the creator may cancel; cancellation just marks
/// the group complete, terminally.
pub open spec fn cancel_transition(
    pre: GroupEntry,
    post: GroupEntry,
    caller: MemberId,
    r: Result<(), AjoError>,
) -> bool {
    if pre.group.is_complete {
        r == Err::<(), AjoError>(AjoError::GroupComplete) && post == pre
    } else if caller != pre.group.creator {
        r == Err::<(), AjoError>(AjoError::Unauthorized) && post == pre
    } else {
        &&& r == Ok::<(), AjoError>(())
        &&& same_config(pre.group, post.group)
        &&& post.group.members@ == pre.group.members@
        &&& post.group.current_cycle == pre.group.current_cycle
        &&& post.group.payout_index == pre.group.payout_index
        &&& post.group.cycle_start_time == pre.group.cycle_start_time
        &&& post.group.is_complete == true
        &&& post.cancelled == true
        &&& post.contributions == pre.contributions
        &&& post.payouts == pre.payouts
        &&& post.withdrawals == pre.withdrawals
        &&& post.metadata == pre.metadata
    }
}

/// What `emergency_withdraw` does: once the member, withdrawal and payout
/// facts allow it and the cycle window has elapsed, refund the member's
/// stake minus a truncated ten-percent penalty and mark it withdrawn.
pub open spec fn withdraw_transition(
    pre: GroupEntry,
    post: GroupEntry,
    member: MemberId,
    now: u64,
    r: Result<(i128, i128), AjoError>,
) -> bool {
    if !pre.group.members@.contains(member) {
        r == Err::<(i128, i128), AjoError>(AjoError::NotMember) && post == pre
    } else if pre.spec_withdrawn(member) {
        r == Err::<(i128, i128), AjoError>(AjoError::AlreadyWithdrawn) && post == pre
    } else if pre.spec_received_payout(member) {
        r == Err::<(i128, i128), AjoError>(AjoError::WithdrawalAfterPayout) && post == pre
    } else if !spec_stalled(pre.group, now) {
        r == Err::<(i128, i128), AjoError>(AjoError::NotEligibleForWithdrawal) && post == pre
    } else {
        let total = pre.group.contribution_amount * pre.contribution_count_up_to(
            member,
            pre.group.current_cycle as int,
        );
        &&& r == Ok::<(i128, i128), AjoError>(((total - total / 10) as i128, (total / 10) as i128))
        &&& post.withdrawals@ == pre.withdrawals@.push(member)
        &&& post.group == pre.group
        &&& post.contributions == pre.contributions
        &&& post.payouts == pre.payouts
        &&& post.metadata == pre.metadata
        &&& post.cancelled == pre.cancelled
    }
}

/// What `set_metadata` does: only the creator may set it, each field is
/// checked against its limit, and the stored record is overwritten wholesale.
pub open spec fn set_metadata_transition(
    pre: GroupEntry,
    post: GroupEntry,
    caller: MemberId,
    metadata: GroupMetadata,
    r: Result<(), AjoError>,
) -> bool {
    if caller != pre.group.creator {
        r == Err::<(), AjoError>(AjoError::Unauthorized) && post == pre
    } else if metadata.name@.len() > MAX_NAME_LENGTH {
        r == Err::<(), AjoError>(AjoError::MetadataNameTooLong) && post == pre
    } else if metadata.description@.len() > MAX_DESCRIPTION_LENGTH {
        r == Err::<(), AjoError>(AjoError::MetadataDescriptionTooLong) && post == pre
    } else if metadata.rules@.len() > MAX_RULES_LENGTH {
        r == Err::<(), AjoError>(AjoError::MetadataRulesTooLong) && post == pre
    } else {
        &&& r == Ok::<(), AjoError>(())
        &&& post.metadata == Some(metadata)
        &&& post.group == pre.group
        &&& post.contributions == pre.contributions
        &&& post.payouts == pre.payouts
        &&& post.withdrawals == pre.withdrawals
        &&& post.cancelled == pre.cancelled
    }
}

/// The record of a freshly created group: the creator is the sole member,
/// the rotation is at its start, and no facts are recorded.
pub open spec fn fresh_entry(
    e: GroupEntry,
    id: u64,
    creator: MemberId,
    contribution_amount: i128,
    cycle_duration: u64,
    max_members: u32,
    now: u64,
) -> bool {
    &&& e.group.id == id
    &&& e.group.creator == creator
    &&& e.group.contribution_amount == contribution_amount
    &&& e.group.cycle_duration == cycle_duration
    &&& e.group.max_members == max_members
    &&& e.group.members@ == seq![creator]
    &&& e.group.current_cycle == 1
    &&& e.group.payout_index == 0
    &&& e.group.created_at == now
    &&& e.group.cycle_start_time == now
    &&& e.group.is_complete == false
    &&& e.contributions@ == Seq::<(u32, MemberId)>::empty()
    &&& e.payouts@ == Seq::<PayoutRecord>::empty()
    &&& e.withdrawals@ == Seq::<MemberId>::empty()
    &&& e.metadata is None
    &&& e.cancelled == false
}

/// The snapshot `status` reports for the record `e` at time `now`.
pub open spec fn status_of(e: GroupEntry, now: u64, r: GroupStatus) -> bool {
    &&& r.group_id == e.group.id
    &&& r.current_cycle == e.group.current_cycle
    &&& r.has_next_recipient == !e.group.is_complete
    &&& r.next_recipient == (if e.group.is_complete {
        0 as MemberId
    } else {
        e.group.members@[e.group.payout_index as int]
    })
    &&& r.contributions_received == e.cycle_contributor_count(e.group.members@.len() as int)
    &&& r.total_members == e.group.members@.len()
    &&& r.pending_contributors@ == e.cycle_pending(e.group.members@.len() as int)
    &&& r.is_complete == e.group.is_complete
    &&& r.cycle_start_time == e.group.cycle_start_time
    &&& r.cycle_end_time == e.group.cycle_start_time + e.group.cycle_duration
    &&& r.current_time == now
    &&& r.is_cycle_active == (now < e.group.cycle_start_time + e.group.cycle_duration)
}

impl GroupEntry {
    /// Build the record of a freshly created group: the creator is the sole
    /// member, the rotation is at its start, and no facts are recorded.
    pub fn create(
        id: u64,
        creator: MemberId,
        contribution_amount: i128,
        cycle_duration: u64,
        max_members: u32,
        now: u64,
    ) -> (e: GroupEntry)
        requires
            spec_params_valid(contribution_amount, cycle_duration, max_members),
            contribution_amount * (max_members + 1) as int <= i128::MAX as int,
            now + cycle_duration <= u64::MAX,
        ensures
            e.wf(),
            fresh_entry(e, id, creator, contribution_amount, cycle_duration, max_members, now),
    {
        let mut members: Vec<MemberId> = Vec::new();
        members.push(creator);
        proof {
            assert(members@ =~= seq![creator]);
        }
        GroupEntry {
            group: Group {
                id,
                creator,
                contribution_amount,
                cycle_duration,
                max_members,
                members,
                current_cycle: 1,
                payout_index: 0,
                created_at: now,
                cycle_start_time: now,
                is_complete: false,
            },
            contributions: Vec::new(),
            payouts: Vec::new(),
            withdrawals: Vec::new(),
            metadata: None,
            cancelled: false,
        }
    }

    /// Append a member to the rotation, if the group is open and has room.
    pub fn join(&mut self, member: MemberId) -> (r: Result<(), AjoError>)
        requires
            old(self).wf(),
        ensures
            final(self).wf(),
            final(self).group.id == old(self).group.id,
            join_transition(*old(self), *final(self), member, r),
    {
        if self.group.is_complete {
            return Err(AjoError::GroupComplete);
        }
        if utils::is_member(&self.group.members, member) {
            return Err(AjoError::AlreadyMember);
        }
        if self.group.members.len() >= self.group.max_members as usize {
            return Err(AjoError::MaxMembersExceeded);
        }
        self.group.members.push(member);
        proof {
            assert forall|i: int, j: int|
                0 <= i < j < self.group.members@.len() implies self.group.members@[i]
                != self.group.members@[j] by {
                if j == self.group.members@.len() - 1 {
                    assert(!old(self).group.members@.contains(self.group.members@[j]));
                }
            }
            assert forall|k: int|
                0 <= k < self.contributions@.len() implies self.group.members@.contains(
                (#[trigger] self.contributions@[k]).1,
            ) by {
                let m = self.contributions@[k].1;
                assert(old(self).group.members@.contains(m));
                let i = choose|i: int|
                    0 <= i < old(self).group.members@.len() && old(self).group.members@[i] == m;
                assert(self.group.members@[i] == m);
            }
            assert forall|k: int|
                0 <= k < self.withdrawals@.len() implies self.group.members@.contains(
                #[trigger] self.withdrawals@[k],
            ) by {
                let m = self.withdrawals@[k];
                assert(old(self).group.members@.contains(m));
                let i = choose|i: int|
                    0 <= i < old(self).group.members@.len() && old(self).group.members@[i] == m;
                assert(self.group.members@[i] == m);
            }
        }
        Ok(())
    }

    /// Record the member's contribution fact for the current cycle.
    pub fn contribute(&mut self, member: MemberId) -> (r: Result<(), AjoError>)
        requires
            old(self).wf(),
        ensures
            final(self).wf(),
            final(self).group.id == old(self).group.id,
            contribute_transition(*old(self), *final(self), member, r),
    {
        if self.group.is_complete {
            return Err(AjoError::GroupComplete);
        }
        if !utils::is_member(&self.group.members, member) {
            return Err(AjoError::NotMember);
        }
        if self.has_contributed(self.group.current_cycle, member) {
            return Err(AjoError::AlreadyContributed);
        }
        let cycle = self.group.current_cycle;
        self.contributions.push((cycle, member));
        proof {
            assert forall|k: int, l: int|
                0 <= k < l < self.contributions@.len() implies self.contributions@[k]
                != self.contributions@[l] by {
                if l == self.contributions@.len() - 1 {
                    assert(!old(self).contributions@.contains(self.contributions@[l]));
                }
            }
        }
        Ok(())
    }

    /// Pay the pooled cycle sum to the member at `payout_index` and advance
    /// the rotation; the final payout completes the group in the same call.
    pub fn execute_payout(&mut self, now: u64) -> (r: Result<PayoutRecord, AjoError>)
        requires
            old(self).wf(),
            now + old(self).group.cycle_duration <= u64::MAX,
        ensures
            final(self).wf(),
            final(self).group.id == old(self).group.id,
            payout_transition(*old(self), *final(self), now, r),
    {
        if self.group.is_complete {
            return Err(AjoError::GroupComplete);
        }
        if !utils::all_members_contributed(self) {
            return Err(AjoError::IncompleteContributions);
        }
        assert(self.group.payout_index < self.group.members@.len());
        let recipient = self.group.members[self.group.payout_index as usize];
        let amount = utils::calculate_payout_amount(&self.group);
        let record = PayoutRecord {
            member: recipient,
            group_id: self.group.id,
            cycle: self.group.current_cycle,
            amount,
            timestamp: now,
        };
        self.payouts.push(record);
        self.group.payout_index = self.group.payout_index + 1;
        self.group.current_cycle = self.group.current_cycle + 1;
        self.group.cycle_start_time = now;
        self.group.is_complete = self.group.payout_index as usize == self.group.members.len();
        Ok(record)
    }

    /// Cancel the group: terminal, irreversible, creator only.
    pub fn cancel(&mut self, caller: MemberId) -> (r: Result<(), AjoError>)
        requires
            old(self).wf(),
        ensures
            final(self).wf(),
            final(self).group.id == old(self).group.id,
            cancel_transition(*old(self), *final(self), caller, r),
    {
        if self.group.is_complete {
            return Err(AjoError::GroupComplete);
        }
        if caller != self.group.creator {
            return Err(AjoError::Unauthorized);
        }
        self.group.is_complete = true;
        self.cancelled = true;
        Ok(())
    }

    /// Let a member exit a stalled group, refunding its stake minus the
    /// penalty and marking it permanently withdrawn.
    pub fn emergency_withdraw(&mut self, member: MemberId, now: u64) -> (r: Result<
        (i128, i128),
        AjoError,
    >)
        requires
            old(self).wf(),
        ensures
            final(self).wf(),
            final(self).group.id == old(self).group.id,
            withdraw_transition(*old(self), *final(self), member, now, r),
    {
        let eligible = match utils::is_eligible_for_withdrawal(self, member, now) {
            Ok(b) => b,
            Err(e) => {
                return Err(e);
            },
        };
        if !eligible {
            return Err(AjoError::NotEligibleForWithdrawal);
        }
        let (refund_amount, penalty_amount) = utils::calculate_withdrawal_amounts(self, member);
        self.withdrawals.push(member);
        proof {
            assert forall|k: int, l: int|
                0 <= k < l < self.withdrawals@.len() implies self.withdrawals@[k]
                != self.withdrawals@[l] by {
                if l == self.withdrawals@.len() - 1 {
                    assert(!old(self).withdrawals@.contains(self.withdrawals@[l]));
                }
            }
        }
        Ok((refund_amount, penalty_amount))
    }

    /// Overwrite the group's metadata record, after authorization and length
    /// checks.
    pub fn set_metadata(&mut self, caller: MemberId, metadata: GroupMetadata) -> (r: Result<
        (),
        AjoError,
    >)
        requires
            old(self).wf(),
        ensures
            final(self).wf(),
            final(self).group.id == old(self).group.id,
            set_metadata_transition(*old(self), *final(self), caller, metadata, r),
    {
        if caller != self.group.creator {
            return Err(AjoError::Unauthorized);
        }
        if metadata.name.as_str().unicode_len() > MAX_NAME_LENGTH as usize {
            return Err(AjoError::MetadataNameTooLong);
        }
        if metadata.description.as_str().unicode_len() > MAX_DESCRIPTION_LENGTH as usize {
            return Err(AjoError::MetadataDescriptionTooLong);
        }
        if metadata.rules.as_str().unicode_len() > MAX_RULES_LENGTH as usize {
            return Err(AjoError::MetadataRulesTooLong);
        }
        self.metadata = Some(metadata);
        Ok(())
    }

    /// Aggregate the group's observable state into one snapshot; derives
    /// everything, mutates nothing.
    pub fn status(&self, now: u64) -> (r: GroupStatus)
        requires
            self.wf(),
        ensures
            status_of(*self, now, r),
    {
        let total = self.group.members.len();
        let (next_recipient, has_next_recipient) = if !self.group.is_complete {
            (self.group.members[self.group.payout_index as usize], true)
        } else {
            (0u64, false)
        };
        let mut received: u32 = 0;
        let mut pending: Vec<MemberId> = Vec::new();
        let mut i: usize = 0;
        while i < total
            invariant
                self.wf(),
                total == self.group.members@.len(),
                i <= total,
                received == self.cycle_contributor_count(i as int),
                received <= i,
                pending@ == self.cycle_pending(i as int),
            decreases total - i,
        {
            let member = self.group.members[i];
            if self.has_contributed(self.group.current_cycle, member) {
                received = received + 1;
            } else {
                pending.push(member);
            }
            i += 1;
        }
        let cycle_end_time = self.group.cycle_start_time + self.group.cycle_duration;
        GroupStatus {
            group_id: self.group.id,
            current_cycle: self.group.current_cycle,
            next_recipient,
            has_next_recipient,
            contributions_received: received,
            total_members: total as u32,
            pending_contributors: pending,
            is_complete: self.group.is_complete,
            cycle_start_time: self.group.cycle_start_time,
            cycle_end_time,
            current_time: now,
            is_cycle_active: now < cycle_end_time,
        }
    }
}

/// Rotation correctness: in a well-formed record the payout with 0-based
/// index `i` went to the member at index `i` of the join-order rotation, in
/// cycle `i + 1`, and `payout_index` equals the number of payouts executed
/// so far.
pub proof fn lemma_rotation_order(e: GroupEntry)
    requires
        e.wf(),
    ensures
        e.payouts@.len() == e.group.payout_index,
        forall|i: int|
            0 <= i < e.payouts@.len() ==> {
                &&& (#[trigger] e.payouts@[i]).member == e.group.members@[i]
                &&& e.payouts@[i].cycle == i + 1
            },
{
}

/// A successful payout advances the rotation by exactly one step: it pays
/// the member at the old `payout_index`, records that payout, and leaves
/// `payout_index` counting the recorded payouts.
pub proof fn lemma_payout_advances(pre: GroupEntry, post: GroupEntry, now: u64, rec: PayoutRecord)
    requires
        pre.wf(),
        payout_transition(pre, post, now, Ok(rec)),
    ensures
        rec.member == pre.group.members@[pre.group.payout_index as int],
        rec.cycle == pre.group.current_cycle,
        post.group.payout_index == pre.group.payout_index + 1,
        post.payouts@.len() == pre.payouts@.len() + 1,
        post.payouts@.last() == rec,
{
}

/// Completion: a well-formed group is complete exactly when its rotation is
/// exhausted or it was cancelled; in particular, an uncancelled group is
/// complete if and only if `payout_index == members.len()`.
pub proof fn lemma_completion_characterized(e: GroupEntry)
    requires
        e.wf(),
    ensures
        e.group.is_complete <==> (e.group.payout_index == e.group.members@.len() || e.cancelled),
{
}

/// Completion is terminal: against a complete group, `join`, `contribute`
/// and `execute_payout` all fail with `GroupComplete` and change nothing.
pub proof fn lemma_complete_is_terminal(pre: GroupEntry, member: MemberId, now: u64)
    requires
        pre.group.is_complete,
    ensures
        forall|post: GroupEntry, r: Result<(), AjoError>|
            join_transition(pre, post, member, r) ==> r == Err::<(), AjoError>(
                AjoError::GroupComplete,
            ) && post == pre,
        forall|post: GroupEntry, r: Result<(), AjoError>|
            contribute_transition(pre, post, member, r) ==> r == Err::<(), AjoError>(
                AjoError::GroupComplete,
            ) && post == pre,
        forall|post: GroupEntry, r: Result<PayoutRecord, AjoError>|
            payout_transition(pre, post, now, r) ==> r == Err::<PayoutRecord, AjoError>(
                AjoError::GroupComplete,
            ) && post == pre,
{
}

/// No double contribution: after a successful contribution, the fact for the
/// pair is recorded exactly once, and a second attempt by the same member in
/// the same cycle fails with `AlreadyContributed` and changes nothing.
pub proof fn lemma_no_double_contribution(pre: GroupEntry, mid: GroupEntry, member: MemberId)
    requires
        pre.wf(),
        contribute_transition(pre, mid, member, Ok(())),
    ensures
        mid.spec_contributed(mid.group.current_cycle, member),
        forall|k: int, l: int|
            0 <= k < l < mid.contributions@.len() ==> !(mid.contributions@[k] == (
                mid.group.current_cycle,
                member,
            ) && mid.contributions@[l] == (mid.group.current_cycle, member)),
        forall|post: GroupEntry, r: Result<(), AjoError>|
            contribute_transition(mid, post, member, r) ==> r == Err::<(), AjoError>(
                AjoError::AlreadyContributed,
            ) && post == mid,
{
    let pair = (pre.group.current_cycle, member);
    assert(mid.contributions@[mid.contributions@.len() - 1] == pair);
    assert forall|k: int, l: int|
        0 <= k < l < mid.contributions@.len() implies !(mid.contributions@[k] == (
        mid.group.current_cycle,
        member,
    ) && mid.contributions@[l] == (mid.group.current_cycle, member)) by {
        if l == mid.contributions@.len() - 1 {
            if mid.contributions@[k] == pair {
                assert(pre.contributions@[k] == pair);
                assert(pre.spec_contributed(pre.group.current_cycle, member));
            }
        }
    }
}

/// Withdrawal arithmetic: for a member who contributed in `n` cycles the
/// stake is `contribution_amount * n`; the penalty is a truncated tenth of
/// it, the refund is the rest, and together they reconstruct the stake. A
/// member with no contributions withdraws `(0, 0)`.
pub proof fn lemma_withdrawal_split(
    pre: GroupEntry,
    post: GroupEntry,
    member: MemberId,
    now: u64,
    refund: i128,
    penalty: i128,
)
    requires
        pre.wf(),
        withdraw_transition(pre, post, member, now, Ok((refund, penalty))),
    ensures
        penalty == (pre.group.contribution_amount * pre.contribution_count_up_to(
            member,
            pre.group.current_cycle as int,
        )) / 10,
        refund + penalty == pre.group.contribution_amount * pre.contribution_count_up_to(
            member,
            pre.group.current_cycle as int,
        ),
        pre.contribution_count_up_to(member, pre.group.current_cycle as int) == 0 ==> refund == 0
            && penalty == 0,
{
    let n = pre.contribution_count_up_to(member, pre.group.current_cycle as int);
    let amount = pre.group.contribution_amount as int;
    let cap = (pre.group.max_members + 1) as int;
    pre.lemma_contribution_count_le(member, pre.group.current_cycle as int);
    assert(amount * n <= amount * cap && 0 <= amount * n) by (nonlinear_arith)
        requires
            0 < amount,
            0 <= n <= cap,
    ;
    assert(0 <= amount * n / 10 <= amount * n) by (nonlinear_arith)
        requires
            0 <= amount * n,
    ;
    if n == 0 {
        assert(amount * n == 0) by (nonlinear_arith)
            requires
                n == 0,
        ;
    }
}

} // verus!
