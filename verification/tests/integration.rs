//! Integration tests for the ajo engine: complete lifecycle scenarios and
//! failure paths.

use ajo::{AjoError, AjoLedger, MemberId};

/// Fresh engine state plus three distinct member identities.
fn setup() -> (AjoLedger, MemberId, MemberId, MemberId) {
    let ledger = AjoLedger::new();
    let creator: MemberId = 1;
    let member2: MemberId = 2;
    let member3: MemberId = 3;
    (ledger, creator, member2, member3)
}

/// Test complete lifecycle: create → join → contribute → payout → complete
#[test]
fn test_complete_lifecycle_success() {
    let (mut ledger, creator, member2, member3) = setup();

    // Phase 1: Group Creation
    let contribution = 100_000_000i128; // 10 XLM
    let cycle_duration = 604_800u64; // 1 week
    let max_members = 3u32;

    let group_id = ledger
        .create_group(creator, contribution, cycle_duration, max_members, 0)
        .unwrap();
    assert_eq!(group_id, 1);

    let group = ledger.get_group(group_id).unwrap();
    assert_eq!(group.members.len(), 1);
    assert_eq!(group.current_cycle, 1);
    assert_eq!(group.payout_index, 0);
    assert_eq!(group.is_complete, false);

    // Phase 2: Member Joining
    ledger.join_group(member2, group_id).unwrap();
    ledger.join_group(member3, group_id).unwrap();

    let members = ledger.list_members(group_id).unwrap();
    assert_eq!(members.len(), 3);

    // Phase 3: Cycle 1 - Creator receives payout
    ledger.contribute(creator, group_id).unwrap();
    ledger.contribute(member2, group_id).unwrap();
    ledger.contribute(member3, group_id).unwrap();

    // Check status before payout: the cycle is fully funded
    let status = ledger.get_group_status(group_id, 0).unwrap();
    assert_eq!(status.contributions_received == status.total_members, true);
    assert_eq!(status.next_recipient, creator);

    ledger.execute_payout(group_id, 0).unwrap();

    let group = ledger.get_group(group_id).unwrap();
    assert_eq!(group.current_cycle, 2);
    assert_eq!(group.payout_index, 1);

    // Phase 4: Cycle 2 - Member2 receives payout
    ledger.contribute(creator, group_id).unwrap();
    ledger.contribute(member2, group_id).unwrap();
    ledger.contribute(member3, group_id).unwrap();
    ledger.execute_payout(group_id, 0).unwrap();

    let group = ledger.get_group(group_id).unwrap();
    assert_eq!(group.current_cycle, 3);
    assert_eq!(group.payout_index, 2);

    // Phase 5: Cycle 3 - Member3 receives payout (final)
    ledger.contribute(creator, group_id).unwrap();
    ledger.contribute(member2, group_id).unwrap();
    ledger.contribute(member3, group_id).unwrap();
    ledger.execute_payout(group_id, 0).unwrap();

    // Phase 6: Verify Completion
    let group = ledger.get_group(group_id).unwrap();
    assert_eq!(group.is_complete, true);
    assert_eq!(group.payout_index, 3);
    assert_eq!(ledger.is_complete(group_id).unwrap(), true);
}

/// Test multiple concurrent groups
#[test]
fn test_multiple_groups_independently() {
    let (mut ledger, creator1, creator2, member) = setup();

    // Create two different groups
    let group1_id = ledger
        .create_group(creator1, 100_000_000i128, 604_800u64, 5u32, 0)
        .unwrap();
    let group2_id = ledger
        .create_group(creator2, 200_000_000i128, 1_209_600u64, 3u32, 0)
        .unwrap();

    assert_eq!(group1_id, 1);
    assert_eq!(group2_id, 2);

    // Same member joins both groups
    ledger.join_group(member, group1_id).unwrap();
    ledger.join_group(member, group2_id).unwrap();

    // Verify groups are independent
    let group1 = ledger.get_group(group1_id).unwrap();
    let group2 = ledger.get_group(group2_id).unwrap();

    assert_eq!(group1.creator, creator1);
    assert_eq!(group2.creator, creator2);
    assert_eq!(group1.contribution_amount, 100_000_000i128);
    assert_eq!(group2.contribution_amount, 200_000_000i128);
    assert_eq!(group1.members.len(), 2);
    assert_eq!(group2.members.len(), 2);

    // Contribute to group 1
    ledger.contribute(creator1, group1_id).unwrap();
    ledger.contribute(member, group1_id).unwrap();

    // Check contribution status - group1 should have 2, group2 should have 0
    let status1 = ledger.get_contribution_status(group1_id, 1u32).unwrap();
    let status2 = ledger.get_contribution_status(group2_id, 1u32).unwrap();

    let contributed_count1 = status1.iter().filter(|(_, paid)| *paid).count();
    let contributed_count2 = status2.iter().filter(|(_, paid)| *paid).count();

    assert_eq!(contributed_count1, 2);
    assert_eq!(contributed_count2, 0);
}

/// Test failure scenario: incomplete cycle prevents payout
#[test]
fn test_failure_incomplete_contributions() {
    let (mut ledger, creator, member2, member3) = setup();

    let group_id = ledger
        .create_group(creator, 100_000_000i128, 604_800u64, 3u32, 0)
        .unwrap();
    ledger.join_group(member2, group_id).unwrap();
    ledger.join_group(member3, group_id).unwrap();

    // Only 2 out of 3 contribute
    ledger.contribute(creator, group_id).unwrap();
    ledger.contribute(member2, group_id).unwrap();

    // Check status
    let status = ledger.get_group_status(group_id, 0).unwrap();
    assert_eq!(status.contributions_received, 2);
    assert_eq!(status.total_members, 3);
    assert_eq!(status.contributions_received == status.total_members, false);

    // Try to execute payout - should fail
    let result = ledger.execute_payout(group_id, 0);
    assert!(result.is_err());
}

/// Test failure scenario: operations on completed group
#[test]
fn test_failure_operations_on_completed_group() {
    let (mut ledger, creator, member2, member3) = setup();

    // Create and complete a small group
    let group_id = ledger
        .create_group(creator, 100_000_000i128, 604_800u64, 2u32, 0)
        .unwrap();
    ledger.join_group(member2, group_id).unwrap();

    // Complete both cycles
    for _ in 0..2 {
        ledger.contribute(creator, group_id).unwrap();
        ledger.contribute(member2, group_id).unwrap();
        ledger.execute_payout(group_id, 0).unwrap();
    }

    assert_eq!(ledger.is_complete(group_id).unwrap(), true);

    // Try to join - should fail
    let result = ledger.join_group(member3, group_id);
    assert!(result.is_err());

    // Try to contribute - should fail
    let result = ledger.contribute(creator, group_id);
    assert!(result.is_err());

    // Try to execute payout - should fail
    let result = ledger.execute_payout(group_id, 0);
    assert!(result.is_err());
}

/// Test cancellation and refund scenario
#[test]
fn test_group_cancellation_scenario() {
    let (mut ledger, creator, member2, member3) = setup();

    // Create group and have members join
    let group_id = ledger
        .create_group(creator, 100_000_000i128, 604_800u64, 3u32, 0)
        .unwrap();
    ledger.join_group(member2, group_id).unwrap();
    ledger.join_group(member3, group_id).unwrap();

    // Some members contribute
    ledger.contribute(creator, group_id).unwrap();
    ledger.contribute(member2, group_id).unwrap();

    // Check status before cancellation
    let status = ledger.get_group_status(group_id, 0).unwrap();
    assert_eq!(status.contributions_received, 2);
    assert_eq!(status.is_complete, false);

    // Creator cancels the group
    ledger.cancel_group(creator, group_id).unwrap();

    // Verify group is marked complete
    let group = ledger.get_group(group_id).unwrap();
    assert_eq!(group.is_complete, true);

    // Verify no further operations are allowed
    let result = ledger.contribute(member3, group_id);
    assert!(result.is_err());
}

/// Test edge case: maximum members limit
#[test]
fn test_max_members_enforcement() {
    let (mut ledger, creator, member2, _) = setup();

    // Create group with max 2 members
    let group_id = ledger
        .create_group(creator, 100_000_000i128, 604_800u64, 2u32, 0)
        .unwrap();

    // Member2 joins (now at max)
    ledger.join_group(member2, group_id).unwrap();

    let group = ledger.get_group(group_id).unwrap();
    assert_eq!(group.members.len(), 2);

    // Try to add another member - should fail
    let member3: MemberId = 4;
    let result = ledger.join_group(member3, group_id);
    assert!(result.is_err());
}

/// Test validation: invalid group parameters
#[test]
fn test_validation_errors() {
    let (mut ledger, creator, _, _) = setup();

    // Zero contribution amount
    let result = ledger.create_group(creator, 0i128, 604_800u64, 10u32, 0);
    assert!(result.is_err());

    // Negative contribution amount
    let result = ledger.create_group(creator, -100i128, 604_800u64, 10u32, 0);
    assert!(result.is_err());

    // Zero cycle duration
    let result = ledger.create_group(creator, 100_000_000i128, 0u64, 10u32, 0);
    assert!(result.is_err());

    // Too few members (less than 2)
    let result = ledger.create_group(creator, 100_000_000i128, 604_800u64, 1u32, 0);
    assert!(result.is_err());
}
