//! Pure helper logic: membership, parameter validation, payout arithmetic,
//! and the emergency-withdrawal rules.

use vstd::prelude::*;

use crate::errors::AjoError;
use crate::storage::GroupEntry;
use crate::types::{Group, MemberId, MAX_MEMBERS_LIMIT};

verus! {

/// The group's current cycle window has fully elapsed at `now` without a
/// payout: the group is stalled.
pub open spec fn spec_stalled(group: Group, now: u64) -> bool {
    now >= group.cycle_start_time + group.cycle_duration
}

/// Validity of group-creation parameters, as `validate_group_params` decides
/// it.
pub open spec fn spec_params_valid(amount: i128, duration: u64, max_members: u32) -> bool {
    &&& amount > 0
    &&& duration > 0
    &&& 2 <= max_members <= MAX_MEMBERS_LIMIT
}

/// The exact outcome of parameter validation: the first violated rule wins,
/// in the order zero amount, negative amount, zero duration, limit below
/// two, limit above the cap.
pub open spec fn spec_validate_params(amount: i128, duration: u64, max_members: u32) -> Result<
    (),
    AjoError,
> {
    if amount == 0 {
        Err(AjoError::ContributionAmountZero)
    } else if amount < 0 {
        Err(AjoError::ContributionAmountNegative)
    } else if duration == 0 {
        Err(AjoError::CycleDurationZero)
    } else if max_members < 2 {
        Err(AjoError::MaxMembersBelowMinimum)
    } else if max_members > MAX_MEMBERS_LIMIT {
        Err(AjoError::MaxMembersAboveLimit)
    } else {
        Ok(())
    }
}

/// Check if an identity is a member of the group.
pub fn is_member(members: &Vec<MemberId>, member: MemberId) -> (r: bool)
    ensures
        r == members@.contains(member),
{
    let mut i: usize = 0;
    while i < members.len()
        invariant
            i <= members@.len(),
            forall|k: int| 0 <= k < i ==> members@[k] != member,
        decreases members@.len() - i,
    {
        if members[i] == member {
            assert(members@[i as int] == member);
            return true;
        }
        i += 1;
    }
    false
}

/// Check if all members have contributed for the current cycle.
pub fn all_members_contributed(entry: &GroupEntry) -> (r: bool)
    ensures
        r == entry.all_contributed(),
{
    let mut i: usize = 0;
    while i < entry.group.members.len()
        invariant
            i <= entry.group.members@.len(),
            forall|k: int|
                0 <= k < i ==> entry.spec_contributed(
                    entry.group.current_cycle,
                    #[trigger] entry.group.members@[k],
                ),
        decreases entry.group.members@.len() - i,
    {
        let member = entry.group.members[i];
        if !entry.has_contributed(entry.group.current_cycle, member) {
            return false;
        }
        i += 1;
    }
    true
}

/// Calculate the total payout amount for a cycle: the full pooled sum,
/// one contribution per current member.
pub fn calculate_payout_amount(group: &Group) -> (r: i128)
    requires
        group.wf(),
    ensures
        r == group.contribution_amount * group.members@.len(),
{
    let member_count = group.members.len() as i128;
    proof {
        let amount = group.contribution_amount as int;
        let len = group.members@.len() as int;
        let cap = (group.max_members + 1) as int;
        assert(amount * len <= amount * cap && 0 <= amount * len) by (nonlinear_arith)
            requires
                0 < amount,
                0 <= len <= cap,
        ;
    }
    group.contribution_amount * member_count
}

/// Ensure group parameters are sane before creating a group.
///
/// Exactly one outcome holds for each input, checked in this order: a zero
/// amount, a negative amount, a zero duration, a member limit below two, a
/// member limit above the cap, and otherwise success.
pub fn validate_group_params(amount: i128, duration: u64, max_members: u32) -> (r: Result<
    (),
    AjoError,
>)
    ensures
        r == spec_validate_params(amount, duration, max_members),
        r is Ok <==> spec_params_valid(amount, duration, max_members),
{
    if amount == 0 {
        return Err(AjoError::ContributionAmountZero);
    } else if amount < 0 {
        return Err(AjoError::ContributionAmountNegative);
    }
    if duration == 0 {
        return Err(AjoError::CycleDurationZero);
    }
    if max_members < 2 {
        return Err(AjoError::MaxMembersBelowMinimum);
    }
    if max_members > MAX_MEMBERS_LIMIT {
        return Err(AjoError::MaxMembersAboveLimit);
    }
    Ok(())
}

/// Check if a member is eligible for emergency withdrawal.
///
/// The preconditions fail in this order: not a member, already withdrawn,
/// already paid out. Once they pass, the member is eligible exactly when the
/// current cycle's window has fully elapsed at `now`.
pub fn is_eligible_for_withdrawal(entry: &GroupEntry, member: MemberId, now: u64) -> (r: Result<
    bool,
    AjoError,
>)
    requires
        entry.group.cycle_duration > 0,
    ensures
        r == (if !entry.group.members@.contains(member) {
            Err::<bool, AjoError>(AjoError::NotMember)
        } else if entry.spec_withdrawn(member) {
            Err::<bool, AjoError>(AjoError::AlreadyWithdrawn)
        } else if entry.spec_received_payout(member) {
            Err::<bool, AjoError>(AjoError::WithdrawalAfterPayout)
        } else {
            Ok::<bool, AjoError>(spec_stalled(entry.group, now))
        }),
{
    if !is_member(&entry.group.members, member) {
        return Err(AjoError::NotMember);
    }
    if entry.has_withdrawn(member) {
        return Err(AjoError::AlreadyWithdrawn);
    }
    if entry.has_received_payout(member) {
        return Err(AjoError::WithdrawalAfterPayout);
    }
    let time_since_cycle_start = if now >= entry.group.cycle_start_time {
        now - entry.group.cycle_start_time
    } else {
        0
    };
    Ok(time_since_cycle_start >= entry.group.cycle_duration)
}

/// Calculate refund and penalty for an emergency withdrawal.
///
/// The member's total stake is one contribution amount per cycle it
/// contributed in, from cycle 1 through the current cycle. The penalty is a
/// tenth of that stake, truncated; the refund is the rest.
pub fn calculate_withdrawal_amounts(entry: &GroupEntry, member: MemberId) -> (r: (i128, i128))
    requires
        entry.wf(),
    ensures
        ({
            let total = entry.group.contribution_amount * entry.contribution_count_up_to(
                member,
                entry.group.current_cycle as int,
            );
            &&& r.0 == total - total / 10
            &&& r.1 == total / 10
        }),
{
    let mut contributions_made: u32 = 0;
    let mut cycle: u32 = 1;
    while cycle <= entry.group.current_cycle
        invariant
            entry.wf(),
            1 <= cycle <= entry.group.current_cycle + 1,
            contributions_made == entry.contribution_count_up_to(member, cycle - 1),
            contributions_made <= cycle - 1,
        decreases entry.group.current_cycle + 1 - cycle,
    {
        if entry.has_contributed(cycle, member) {
            contributions_made += 1;
        }
        cycle += 1;
    }
    let count = contributions_made as i128;
    proof {
        let amount = entry.group.contribution_amount as int;
        let n = contributions_made as int;
        let cap = (entry.group.max_members + 1) as int;
        assert(amount * n <= amount * cap && 0 <= amount * n) by (nonlinear_arith)
            requires
                0 < amount,
                0 <= n <= cap,
        ;
    }
    let total_contributed = entry.group.contribution_amount * count;
    let penalty_amount = total_contributed / 10;
    let refund_amount = total_contributed - penalty_amount;
    (refund_amount, penalty_amount)
}

} // verus!
