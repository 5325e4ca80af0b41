//! The stored record of one group: its `Group` plus the ledger facts
//! (contribution, payout-received and withdrawal facts) and optional metadata.

use vstd::prelude::*;

use crate::types::{Group, GroupMetadata, MemberId, PayoutRecord};

verus! {

/// Everything the engine persists about one group.
///
/// - A contribution fact for `(cycle, member)` holds iff the pair is in
///   `contributions`; moving to a new cycle number implicitly starts from an
///   empty key space, so no reset is ever needed.
/// - A payout-received fact for `member` holds iff some entry of `payouts`
///   names it; `payouts` doubles as the audit history of executed payouts.
/// - A withdrawal fact for `member` holds iff `withdrawals` contains it.
pub struct GroupEntry {
    /// The group's configuration and rotation state.
    pub group: Group,
    /// One `(cycle, member)` pair per recorded contribution.
    pub contributions: Vec<(u32, MemberId)>,
    /// One record per executed payout, in execution order.
    pub payouts: Vec<PayoutRecord>,
    /// Members who performed an emergency withdrawal.
    pub withdrawals: Vec<MemberId>,
    /// Optional metadata, overwritten wholesale on update.
    pub metadata: Option<GroupMetadata>,
    /// Whether the group was cancelled by its creator.
    pub cancelled: bool,
}

impl GroupEntry {
    /// The contribution fact: `member` has paid for `cycle`.
    pub open spec fn spec_contributed(self, cycle: u32, member: MemberId) -> bool {
        self.contributions@.contains((cycle, member))
    }

    /// The payout-received fact: `member` has been paid its rotation sum.
    pub open spec fn spec_received_payout(self, member: MemberId) -> bool {
        exists|k: int| 0 <= k < self.payouts@.len() && (#[trigger] self.payouts@[k]).member == member
    }

    /// The withdrawal fact: `member` has performed an emergency withdrawal.
    pub open spec fn spec_withdrawn(self, member: MemberId) -> bool {
        self.withdrawals@.contains(member)
    }

    /// Every current member has a contribution fact for the current cycle.
    pub open spec fn all_contributed(self) -> bool {
        forall|k: int|
            0 <= k < self.group.members@.len() ==> self.spec_contributed(
                self.group.current_cycle,
                #[trigger] self.group.members@[k],
            )
    }

    /// Number of cycles in `1..=cycle` whose contribution fact holds for
    /// `member`.
    pub open spec fn contribution_count_up_to(self, member: MemberId, cycle: int) -> int
        decreases cycle,
    {
        if cycle <= 0 {
            0
        } else {
            self.contribution_count_up_to(member, cycle - 1) + if self.spec_contributed(
                cycle as u32,
                member,
            ) {
                1 as int
            } else {
                0 as int
            }
        }
    }

    /// Number of the first `n` members whose contribution fact holds for the
    /// current cycle.
    pub open spec fn cycle_contributor_count(self, n: int) -> int
        decreases n,
    {
        if n <= 0 {
            0
        } else {
            self.cycle_contributor_count(n - 1) + if self.spec_contributed(
                self.group.current_cycle,
                self.group.members@[n - 1],
            ) {
                1 as int
            } else {
                0 as int
            }
        }
    }

    /// Of the first `n` members, those still missing a contribution for the
    /// current cycle, in join order.
    pub open spec fn cycle_pending(self, n: int) -> Seq<MemberId>
        decreases n,
    {
        if n <= 0 {
            Seq::empty()
        } else {
            let rest = self.cycle_pending(n - 1);
            if self.spec_contributed(self.group.current_cycle, self.group.members@[n - 1]) {
                rest
            } else {
                rest.push(self.group.members@[n - 1])
            }
        }
    }

    /// A member can have contributed in at most one cycle per cycle counted.
    pub proof fn lemma_contribution_count_le(self, member: MemberId, cycle: int)
        requires
            0 <= cycle,
        ensures
            0 <= self.contribution_count_up_to(member, cycle) <= cycle,
        decreases cycle,
    {
        if cycle > 0 {
            self.lemma_contribution_count_le(member, cycle - 1);
        }
    }

    /// The facts are consistent with the group's rotation state.
    pub open spec fn facts_wf(self) -> bool {
        &&& forall|k: int|
            0 <= k < self.contributions@.len() ==> {
                &&& 1 <= (#[trigger] self.contributions@[k]).0 <= self.group.current_cycle
                &&& self.group.members@.contains(self.contributions@[k].1)
            }
        &&& forall|k: int, l: int|
            0 <= k < l < self.contributions@.len() ==> self.contributions@[k]
                != self.contributions@[l]
        &&& self.payouts@.len() == self.group.payout_index
        &&& forall|k: int|
            0 <= k < self.payouts@.len() ==> {
                &&& (#[trigger] self.payouts@[k]).member == self.group.members@[k]
                &&& self.payouts@[k].cycle == k + 1
                &&& self.payouts@[k].group_id == self.group.id
            }
        &&& forall|k: int, l: int|
            0 <= k < l < self.withdrawals@.len() ==> self.withdrawals@[k] != self.withdrawals@[l]
        &&& forall|k: int|
            0 <= k < self.withdrawals@.len() ==> self.group.members@.contains(
                #[trigger] self.withdrawals@[k],
            )
        &&& (self.metadata matches Some(m) ==> m.wf())
        &&& self.group.is_complete == (self.group.payout_index == self.group.members@.len()
            || self.cancelled)
    }

    /// Full well-formedness: the group record and the facts around it.
    pub open spec fn wf(self) -> bool {
        &&& self.group.wf()
        &&& self.facts_wf()
    }

    /// Check if `member` has contributed for `cycle`.
    pub fn has_contributed(&self, cycle: u32, member: MemberId) -> (r: bool)
        ensures
            r == self.spec_contributed(cycle, member),
    {
        let mut i: usize = 0;
        while i < self.contributions.len()
            invariant
                i <= self.contributions@.len(),
                forall|k: int| 0 <= k < i ==> self.contributions@[k] != (cycle, member),
            decreases self.contributions@.len() - i,
        {
            let (c, m) = self.contributions[i];
            if c == cycle && m == member {
                assert(self.contributions@[i as int] == (cycle, member));
                return true;
            }
            i += 1;
        }
        false
    }

    /// Check if `member` has received its payout.
    pub fn has_received_payout(&self, member: MemberId) -> (r: bool)
        ensures
            r == self.spec_received_payout(member),
    {
        let mut i: usize = 0;
        while i < self.payouts.len()
            invariant
                i <= self.payouts@.len(),
                forall|k: int| 0 <= k < i ==> (#[trigger] self.payouts@[k]).member != member,
            decreases self.payouts@.len() - i,
        {
            if self.payouts[i].member == member {
                return true;
            }
            i += 1;
        }
        false
    }

    /// Check if `member` has already performed an emergency withdrawal.
    pub fn has_withdrawn(&self, member: MemberId) -> (r: bool)
        ensures
            r == self.spec_withdrawn(member),
    {
        let mut i: usize = 0;
        while i < self.withdrawals.len()
            invariant
                i <= self.withdrawals@.len(),
                forall|k: int| 0 <= k < i ==> self.withdrawals@[k] != member,
            decreases self.withdrawals@.len() - i,
        {
            if self.withdrawals[i] == member {
                assert(self.withdrawals@[i as int] == member);
                return true;
            }
            i += 1;
        }
        false
    }

    /// Contribution status for every member in a cycle, in join order.
    pub fn get_cycle_contributions(&self, cycle: u32) -> (r: Vec<(MemberId, bool)>)
        ensures
            r@.len() == self.group.members@.len(),
            forall|k: int|
                0 <= k < r@.len() ==> #[trigger] r@[k] == (
                    self.group.members@[k],
                    self.spec_contributed(cycle, self.group.members@[k]),
                ),
    {
        let mut results: Vec<(MemberId, bool)> = Vec::new();
        let mut i: usize = 0;
        while i < self.group.members.len()
            invariant
                i <= self.group.members@.len(),
                results@.len() == i,
                forall|k: int|
                    0 <= k < i ==> #[trigger] results@[k] == (
                        self.group.members@[k],
                        self.spec_contributed(cycle, self.group.members@[k]),
                    ),
            decreases self.group.members@.len() - i,
        {
            let member = self.group.members[i];
            let paid = self.has_contributed(cycle, member);
            results.push((member, paid));
            i += 1;
        }
        results
    }
}

} // verus!
