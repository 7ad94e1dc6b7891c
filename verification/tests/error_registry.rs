use grainlify::error_registry::{
    find_conflicts, get_range_category, grainlify_core_registry, has_duplicate_codes,
    is_registered, lookup_name, no_cross_contract_conflicts, registered_count, validate_ranges,
    RegistryEntry,
};

#[test]
fn core_registry_has_no_duplicate_codes() {
    let reg = grainlify_core_registry();
    assert!(!has_duplicate_codes(&reg));
}

#[test]
fn core_registry_is_ascending() {
    let reg = grainlify_core_registry();
    for w in reg.windows(2) {
        assert!(w[0].0 < w[1].0);
    }
}

#[test]
fn core_registry_contents() {
    let reg = grainlify_core_registry();
    let expected: Vec<RegistryEntry> = vec![
        (1, "AlreadyInitialized"),
        (2, "NotInitialized"),
        (3, "NotAdmin"),
        (101, "ThresholdNotMet"),
        (102, "ProposalNotFound"),
        (103, "MigrationCommitmentNotFound"),
        (104, "MigrationHashMismatch"),
        (105, "TimelockDelayTooHigh"),
        (106, "SnapshotRestoreAdminPending"),
        (107, "SnapshotPruned"),
    ];
    assert_eq!(reg, expected);
}

#[test]
fn duplicate_codes_are_detected() {
    let table: [RegistryEntry; 3] = [(5, "A"), (6, "B"), (5, "C")];
    assert!(has_duplicate_codes(&table));
    let adjacent: [RegistryEntry; 2] = [(7, "A"), (7, "A")];
    assert!(has_duplicate_codes(&adjacent));
}

#[test]
fn distinct_codes_are_not_duplicates() {
    let table: [RegistryEntry; 3] = [(5, "Same"), (6, "Same"), (7, "Same")];
    assert!(!has_duplicate_codes(&table));
    let empty: [RegistryEntry; 0] = [];
    assert!(!has_duplicate_codes(&empty));
    let single: [RegistryEntry; 1] = [(1, "Only")];
    assert!(!has_duplicate_codes(&single));
}

#[test]
fn lookup_name_doc_examples() {
    assert_eq!(lookup_name(1), Some("AlreadyInitialized"));
    assert_eq!(lookup_name(9999), None);
}

#[test]
fn lookup_name_finds_every_entry() {
    for (code, name) in grainlify_core_registry() {
        assert_eq!(lookup_name(code), Some(name));
    }
    assert_eq!(lookup_name(107), Some("SnapshotPruned"));
    assert_eq!(lookup_name(103), Some("MigrationCommitmentNotFound"));
}

#[test]
fn lookup_name_of_unregistered_codes() {
    assert_eq!(lookup_name(0), None);
    assert_eq!(lookup_name(4), None);
    assert_eq!(lookup_name(100), None);
    assert_eq!(lookup_name(108), None);
    assert_eq!(lookup_name(u32::MAX), None);
}

#[test]
fn is_registered_matches_lookup() {
    assert!(is_registered(1));
    assert!(is_registered(3));
    assert!(is_registered(106));
    assert!(!is_registered(0));
    assert!(!is_registered(200));
    for code in 0..1100u32 {
        assert_eq!(is_registered(code), lookup_name(code).is_some());
    }
}

#[test]
fn registered_count_is_table_length() {
    assert_eq!(registered_count(), 10);
    assert_eq!(registered_count(), grainlify_core_registry().len());
}

#[test]
fn no_conflicts_with_disjoint_table() {
    let other: [RegistryEntry; 3] = [(201, "BountyExists"), (202, "FundsNotLocked"), (1001, "Paused")];
    assert!(no_cross_contract_conflicts(&other));
    assert!(find_conflicts(&other).is_empty());
    let empty: [RegistryEntry; 0] = [];
    assert!(no_cross_contract_conflicts(&empty));
    assert!(find_conflicts(&empty).is_empty());
}

#[test]
fn conflicts_with_overlapping_table() {
    let other: [RegistryEntry; 4] = [(105, "X"), (500, "Y"), (2, "Z"), (105, "W")];
    assert!(!no_cross_contract_conflicts(&other));
    assert_eq!(find_conflicts(&other), vec![2, 105]);
}

#[test]
fn core_registry_conflicts_with_itself() {
    let reg = grainlify_core_registry();
    assert!(!no_cross_contract_conflicts(&reg));
    assert_eq!(
        find_conflicts(&reg),
        vec![1, 2, 3, 101, 102, 103, 104, 105, 106, 107]
    );
}

#[test]
fn core_registry_is_within_ranges() {
    assert!(validate_ranges());
    for (code, _) in grainlify_core_registry() {
        assert_ne!(get_range_category(code), "unknown");
    }
}

#[test]
fn range_categories_at_boundaries() {
    assert_eq!(get_range_category(0), "unknown");
    assert_eq!(get_range_category(1), "common");
    assert_eq!(get_range_category(99), "common");
    assert_eq!(get_range_category(100), "governance");
    assert_eq!(get_range_category(199), "governance");
    assert_eq!(get_range_category(200), "escrow");
    assert_eq!(get_range_category(299), "escrow");
    assert_eq!(get_range_category(300), "identity");
    assert_eq!(get_range_category(399), "identity");
    assert_eq!(get_range_category(400), "program_escrow");
    assert_eq!(get_range_category(499), "program_escrow");
    assert_eq!(get_range_category(500), "unknown");
    assert_eq!(get_range_category(999), "unknown");
    assert_eq!(get_range_category(1000), "system");
    assert_eq!(get_range_category(u32::MAX), "system");
}
