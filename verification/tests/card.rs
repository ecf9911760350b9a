use apple2_core::card::{CardManager, NUM_SLOTS};

#[test]
fn slot_out_of_range_returns_none() {
    let cards = CardManager::new();
    assert!(cards.slot(NUM_SLOTS).is_none());
    assert!(cards.slot(NUM_SLOTS + 5).is_none());
    assert!(cards.slot(usize::MAX).is_none());
}

#[test]
fn slot_mut_out_of_range_returns_none() {
    let mut cards = CardManager::new();
    assert!(cards.slot_mut(NUM_SLOTS).is_none());
    assert!(cards.slot_mut(NUM_SLOTS + 5).is_none());
    assert!(cards.slot_mut(usize::MAX).is_none());
}

#[test]
fn slot_empty_in_range_returns_none() {
    let cards = CardManager::new();
    for slot in 0..NUM_SLOTS {
        assert!(cards.slot(slot).is_none(), "slot {slot} should start empty");
    }
}
