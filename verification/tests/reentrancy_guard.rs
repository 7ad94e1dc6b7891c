use grainlify::reentrancy_guard::{acquire, guard_held, release, ReentrancyGuard, ENTERED, NOT_ENTERED};

#[test]
fn fresh_guard_acquires() {
    let mut g = ReentrancyGuard { stored: None };
    assert!(!guard_held(&g));
    acquire(&mut g);
    assert_eq!(g.stored, Some(ENTERED));
}

#[test]
fn acquired_guard_is_held() {
    let mut g = ReentrancyGuard { stored: None };
    acquire(&mut g);
    assert!(guard_held(&g));
    assert_eq!(g.stored, Some(ENTERED));
}

#[test]
fn release_resets_flag() {
    let mut g = ReentrancyGuard { stored: Some(ENTERED) };
    release(&mut g);
    assert_eq!(g.stored, Some(NOT_ENTERED));
    assert!(!guard_held(&g));
    let mut fresh = ReentrancyGuard { stored: None };
    release(&mut fresh);
    assert_eq!(fresh.stored, Some(NOT_ENTERED));
}

#[test]
fn acquire_after_release_succeeds() {
    let mut g = ReentrancyGuard { stored: None };
    acquire(&mut g);
    release(&mut g);
    assert!(!guard_held(&g));
    acquire(&mut g);
    assert_eq!(g.stored, Some(ENTERED));
}

#[test]
fn stored_not_entered_acquires() {
    let mut g = ReentrancyGuard { stored: Some(NOT_ENTERED) };
    assert!(!guard_held(&g));
    acquire(&mut g);
    assert_eq!(g.stored, Some(ENTERED));
}

#[test]
fn any_other_flag_value_is_held() {
    for v in [0u32, 2, 3, 7, u32::MAX] {
        let g = ReentrancyGuard { stored: Some(v) };
        assert!(guard_held(&g));
    }
}
