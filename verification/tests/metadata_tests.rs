use ajo::{AjoError, AjoLedger, GroupMetadata, MemberId};

/// Fresh engine state plus two distinct member identities.
fn setup_test_env() -> (AjoLedger, MemberId, MemberId) {
    let ledger = AjoLedger::new();
    let creator: MemberId = 1;
    let member2: MemberId = 2;
    (ledger, creator, member2)
}

#[test]
fn test_set_and_get_metadata() {
    let (mut ledger, creator, _) = setup_test_env();

    // Create a group
    let group_id = ledger
        .create_group(creator, 100_000_000i128, 604_800u64, 10u32, 0)
        .unwrap();

    // Create metadata
    let name = String::from("Savings Circle");
    let description = String::from("Monthly savings group for community members");
    let rules = String::from("1. Contribute on time\n2. Respect all members\n3. No late payments");

    let metadata = GroupMetadata {
        name: name.clone(),
        description: description.clone(),
        rules: rules.clone(),
    };

    // Set metadata
    ledger.set_group_metadata(creator, group_id, metadata).unwrap();

    // Get metadata
    let retrieved = ledger.get_group_metadata(group_id).unwrap();
    assert!(retrieved.is_some());

    let retrieved_metadata = retrieved.unwrap();
    assert_eq!(retrieved_metadata.name, name);
    assert_eq!(retrieved_metadata.description, description);
    assert_eq!(retrieved_metadata.rules, rules);
}

#[test]
fn test_get_metadata_before_set() {
    let (mut ledger, creator, _) = setup_test_env();

    // Create a group
    let group_id = ledger
        .create_group(creator, 100_000_000i128, 604_800u64, 10u32, 0)
        .unwrap();

    // Get metadata before setting - should return None
    let retrieved = ledger.get_group_metadata(group_id).unwrap();
    assert!(retrieved.is_none());
}

#[test]
fn test_update_metadata() {
    let (mut ledger, creator, _) = setup_test_env();

    // Create a group
    let group_id = ledger
        .create_group(creator, 100_000_000i128, 604_800u64, 10u32, 0)
        .unwrap();

    // Set initial metadata
    let name1 = String::from("Initial Name");
    let description1 = String::from("Initial description");
    let rules1 = String::from("Initial rules");

    let metadata1 = GroupMetadata {
        name: name1,
        description: description1,
        rules: rules1,
    };

    ledger.set_group_metadata(creator, group_id, metadata1).unwrap();

    // Update metadata
    let name2 = String::from("Updated Name");
    let description2 = String::from("Updated description");
    let rules2 = String::from("Updated rules");

    let metadata2 = GroupMetadata {
        name: name2.clone(),
        description: description2.clone(),
        rules: rules2.clone(),
    };

    ledger.set_group_metadata(creator, group_id, metadata2).unwrap();

    // Verify updated metadata
    let retrieved = ledger.get_group_metadata(group_id).unwrap().unwrap();
    assert_eq!(retrieved.name, name2);
    assert_eq!(retrieved.description, description2);
    assert_eq!(retrieved.rules, rules2);
}

#[test]
fn test_set_metadata_unauthorized() {
    let (mut ledger, creator, member2) = setup_test_env();

    // Create a group
    let group_id = ledger
        .create_group(creator, 100_000_000i128, 604_800u64, 10u32, 0)
        .unwrap();

    // Try to set metadata as non-creator
    let name = String::from("Unauthorized");
    let description = String::from("Should fail");
    let rules = String::from("Not allowed");

    let metadata = GroupMetadata {
        name,
        description,
        rules,
    };

    let result = ledger.set_group_metadata(member2, group_id, metadata);
    assert_eq!(result, Err(AjoError::Unauthorized));
}

#[test]
fn test_metadata_name_too_long() {
    let (mut ledger, creator, _) = setup_test_env();

    // Create a group
    let group_id = ledger
        .create_group(creator, 100_000_000i128, 604_800u64, 10u32, 0)
        .unwrap();

    // Create metadata with name exceeding 64 characters
    let long_name = "A".repeat(65);
    let name = long_name;
    let description = String::from("Valid description");
    let rules = String::from("Valid rules");

    let metadata = GroupMetadata {
        name,
        description,
        rules,
    };

    let result = ledger.set_group_metadata(creator, group_id, metadata);
    assert_eq!(result, Err(AjoError::MetadataNameTooLong));
}

#[test]
fn test_metadata_description_too_long() {
    let (mut ledger, creator, _) = setup_test_env();

    // Create a group
    let group_id = ledger
        .create_group(creator, 100_000_000i128, 604_800u64, 10u32, 0)
        .unwrap();

    // Create metadata with description exceeding 256 characters
    let long_description = "A".repeat(257);
    let name = String::from("Valid name");
    let description = long_description;
    let rules = String::from("Valid rules");

    let metadata = GroupMetadata {
        name,
        description,
        rules,
    };

    let result = ledger.set_group_metadata(creator, group_id, metadata);
    assert_eq!(result, Err(AjoError::MetadataDescriptionTooLong));
}

#[test]
fn test_metadata_rules_too_long() {
    let (mut ledger, creator, _) = setup_test_env();

    // Create a group
    let group_id = ledger
        .create_group(creator, 100_000_000i128, 604_800u64, 10u32, 0)
        .unwrap();

    // Create metadata with rules exceeding 512 characters
    let long_rules = "A".repeat(513);
    let name = String::from("Valid name");
    let description = String::from("Valid description");
    let rules = long_rules;

    let metadata = GroupMetadata {
        name,
        description,
        rules,
    };

    let result = ledger.set_group_metadata(creator, group_id, metadata);
    assert_eq!(result, Err(AjoError::MetadataRulesTooLong));
}

#[test]
fn test_metadata_at_max_lengths() {
    let (mut ledger, creator, _) = setup_test_env();

    // Create a group
    let group_id = ledger
        .create_group(creator, 100_000_000i128, 604_800u64, 10u32, 0)
        .unwrap();

    // Create metadata at exactly max lengths (should succeed)
    let name = "A".repeat(64);
    let description = "B".repeat(256);
    let rules = "C".repeat(512);

    let metadata = GroupMetadata {
        name: name.clone(),
        description: description.clone(),
        rules: rules.clone(),
    };

    ledger.set_group_metadata(creator, group_id, metadata).unwrap();

    // Verify it was stored correctly
    let retrieved = ledger.get_group_metadata(group_id).unwrap().unwrap();
    assert_eq!(retrieved.name, name);
    assert_eq!(retrieved.description, description);
    assert_eq!(retrieved.rules, rules);
}

#[test]
fn test_metadata_empty_strings() {
    let (mut ledger, creator, _) = setup_test_env();

    // Create a group
    let group_id = ledger
        .create_group(creator, 100_000_000i128, 604_800u64, 10u32, 0)
        .unwrap();

    // Create metadata with empty strings (should be valid)
    let name = String::from("");
    let description = String::from("");
    let rules = String::from("");

    let metadata = GroupMetadata {
        name: name.clone(),
        description: description.clone(),
        rules: rules.clone(),
    };

    ledger.set_group_metadata(creator, group_id, metadata).unwrap();

    // Verify it was stored correctly
    let retrieved = ledger.get_group_metadata(group_id).unwrap().unwrap();
    assert_eq!(retrieved.name, name);
    assert_eq!(retrieved.description, description);
    assert_eq!(retrieved.rules, rules);
}

#[test]
fn test_metadata_with_special_characters() {
    let (mut ledger, creator, _) = setup_test_env();

    // Create a group
    let group_id = ledger
        .create_group(creator, 100_000_000i128, 604_800u64, 10u32, 0)
        .unwrap();

    // Create metadata with special characters
    let name = String::from("Savings 💰 Circle");
    let description = String::from("Group for: savings, loans & investments!");
    let rules = String::from("Rule #1: Be respectful\nRule #2: Pay on time");

    let metadata = GroupMetadata {
        name: name.clone(),
        description: description.clone(),
        rules: rules.clone(),
    };

    ledger.set_group_metadata(creator, group_id, metadata).unwrap();

    // Verify it was stored correctly
    let retrieved = ledger.get_group_metadata(group_id).unwrap().unwrap();
    assert_eq!(retrieved.name, name);
    assert_eq!(retrieved.description, description);
    assert_eq!(retrieved.rules, rules);
}

#[test]
fn test_metadata_for_nonexistent_group() {
    let (mut ledger, creator, _) = setup_test_env();

    let nonexistent_group_id = 999u64;

    // Try to get metadata for nonexistent group
    let result = ledger.get_group_metadata(nonexistent_group_id);
    assert_eq!(result, Err(AjoError::GroupNotFound));

    // Try to set metadata for nonexistent group
    let name = String::from("Test");
    let description = String::from("Test");
    let rules = String::from("Test");

    let metadata = GroupMetadata {
        name,
        description,
        rules,
    };

    let result = ledger.set_group_metadata(creator, nonexistent_group_id, metadata);
    assert_eq!(result, Err(AjoError::GroupNotFound));
}

#[test]
fn test_metadata_persists_across_group_lifecycle() {
    let (mut ledger, creator, member2) = setup_test_env();

    // Create a group
    let group_id = ledger
        .create_group(creator, 100_000_000i128, 604_800u64, 2u32, 0)
        .unwrap();
    ledger.join_group(member2, group_id).unwrap();

    // Set metadata
    let name = String::from("Persistent Group");
    let description = String::from("This metadata should persist");
    let rules = String::from("Follow the rules");

    let metadata = GroupMetadata {
        name: name.clone(),
        description: description.clone(),
        rules: rules.clone(),
    };

    ledger.set_group_metadata(creator, group_id, metadata).unwrap();

    // Complete a cycle
    ledger.contribute(creator, group_id).unwrap();
    ledger.contribute(member2, group_id).unwrap();
    ledger.execute_payout(group_id, 0).unwrap();

    // Verify metadata still exists
    let retrieved = ledger.get_group_metadata(group_id).unwrap().unwrap();
    assert_eq!(retrieved.name, name);
    assert_eq!(retrieved.description, description);
    assert_eq!(retrieved.rules, rules);

    // Complete the group
    ledger.contribute(creator, group_id).unwrap();
    ledger.contribute(member2, group_id).unwrap();
    ledger.execute_payout(group_id, 0).unwrap();

    // Verify metadata still exists after completion
    let retrieved = ledger.get_group_metadata(group_id).unwrap().unwrap();
    assert_eq!(retrieved.name, name);
    assert_eq!(retrieved.description, description);
    assert_eq!(retrieved.rules, rules);
}

#[test]
fn test_multiple_groups_independent_metadata() {
    let (mut ledger, creator1, creator2) = setup_test_env();

    // Create two groups
    let group_id1 = ledger
        .create_group(creator1, 100_000_000i128, 604_800u64, 5u32, 0)
        .unwrap();
    let group_id2 = ledger
        .create_group(creator2, 200_000_000i128, 1_209_600u64, 3u32, 0)
        .unwrap();

    // Set different metadata for each group
    let name1 = String::from("Group One");
    let description1 = String::from("First group description");
    let rules1 = String::from("Rules for group one");

    let metadata1 = GroupMetadata {
        name: name1.clone(),
        description: description1.clone(),
        rules: rules1.clone(),
    };

    let name2 = String::from("Group Two");
    let description2 = String::from("Second group description");
    let rules2 = String::from("Rules for group two");

    let metadata2 = GroupMetadata {
        name: name2.clone(),
        description: description2.clone(),
        rules: rules2.clone(),
    };

    ledger.set_group_metadata(creator1, group_id1, metadata1).unwrap();
    ledger.set_group_metadata(creator2, group_id2, metadata2).unwrap();

    // Verify each group has its own metadata
    let retrieved1 = ledger.get_group_metadata(group_id1).unwrap().unwrap();
    assert_eq!(retrieved1.name, name1);
    assert_eq!(retrieved1.description, description1);
    assert_eq!(retrieved1.rules, rules1);

    let retrieved2 = ledger.get_group_metadata(group_id2).unwrap().unwrap();
    assert_eq!(retrieved2.name, name2);
    assert_eq!(retrieved2.description, description2);
    assert_eq!(retrieved2.rules, rules2);
}
