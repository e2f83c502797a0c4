use chat_relay::registry::SubscriptionRegistry;

#[test]
fn new_registry_has_no_entries() {
    let registry = SubscriptionRegistry::new();
    assert!(!registry.is_reserved("a"));
    assert!(!registry.is_live("a"));
}

#[test]
fn reserve_is_test_and_set() {
    let mut registry = SubscriptionRegistry::new();
    assert!(registry.reserve("a"));
    assert!(!registry.reserve("a"));
    assert!(registry.is_reserved("a"));
    assert!(!registry.is_live("a"));
    assert!(registry.reserve("A"));
    assert!(!registry.is_reserved("b"));
}

#[test]
fn activate_turns_opening_entry_live_once() {
    let mut registry = SubscriptionRegistry::new();
    assert!(!registry.activate("a"));
    assert!(!registry.is_reserved("a"));
    assert!(registry.reserve("a"));
    assert!(registry.activate("a"));
    assert!(registry.is_live("a"));
    assert!(!registry.activate("a"));
    assert!(registry.is_live("a"));
    assert!(!registry.reserve("a"));
}

#[test]
fn withdraw_removes_opening_entry_only() {
    let mut registry = SubscriptionRegistry::new();
    assert!(!registry.withdraw("a"));
    registry.reserve("a");
    registry.reserve("b");
    registry.activate("b");
    assert!(registry.withdraw("a"));
    assert!(!registry.is_reserved("a"));
    assert!(!registry.withdraw("b"));
    assert!(registry.is_live("b"));
    assert!(registry.reserve("a"));
}

#[test]
fn remove_takes_live_entry_only() {
    let mut registry = SubscriptionRegistry::new();
    assert!(!registry.remove("a"));
    registry.reserve("a");
    assert!(!registry.remove("a"));
    assert!(registry.is_reserved("a"));
    registry.activate("a");
    registry.reserve("b");
    registry.activate("b");
    assert!(registry.remove("a"));
    assert!(!registry.is_reserved("a"));
    assert!(!registry.remove("a"));
    assert!(registry.is_live("b"));
}
