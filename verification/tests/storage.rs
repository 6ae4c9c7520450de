//! The slot map: slot assignment, first-in first-out reuse of freed
//! slots, and bulk retention.

use open_modular::collections::IndexMap;

#[test]
fn slots_are_assigned_in_order() {
    let mut map: IndexMap<8, u64> = IndexMap::default();
    assert!(map.is_empty());
    assert_eq!(map.add(10), 0);
    assert_eq!(map.add(11), 1);
    assert_eq!(map.add(12), 2);
    assert_eq!(map.len(), 3);
    assert!(!map.is_empty());
    assert_eq!(map.get(0), Some(&10));
    assert_eq!(map.get(1), Some(&11));
    assert_eq!(map.get(2), Some(&12));
    assert_eq!(map.get(3), None);
    assert_eq!(map.get(100), None);
}

#[test]
fn freed_slots_are_reused_first_in_first_out() {
    let mut map: IndexMap<8, u64> = IndexMap::default();
    map.add(10);
    map.add(11);
    map.add(12);
    assert_eq!(map.remove(1), Some(11));
    assert_eq!(map.remove(0), Some(10));
    assert_eq!(map.len(), 1);
    // Slot 1 was freed first, so it is reused first.
    assert_eq!(map.add(20), 1);
    assert_eq!(map.add(21), 0);
    // Both freed slots reused: the next item takes a fresh slot.
    assert_eq!(map.add(22), 3);
    assert_eq!(map.len(), 4);
    // Removing from a free slot changes nothing.
    assert_eq!(map.remove(4), None);
    assert_eq!(map.len(), 4);
}

#[test]
fn map_refuses_nothing_until_capacity() {
    let mut map: IndexMap<4, u64> = IndexMap::default();
    for n in 0..4u64 {
        map.add(n);
    }
    assert_eq!(map.len(), 4);
    map.remove(2);
    assert_eq!(map.add(9), 2);
    assert_eq!(map.len(), 4);
}

#[test]
fn entries_and_values_walk_occupied_slots() {
    let mut map: IndexMap<8, u64> = IndexMap::default();
    map.add(10);
    map.add(11);
    map.add(12);
    map.remove(1);
    let entries = map.entries();
    assert_eq!(entries.len(), 2);
    assert_eq!(entries[0].0, 0);
    assert_eq!(*entries[0].1, 10);
    assert_eq!(entries[1].0, 2);
    assert_eq!(*entries[1].1, 12);
    let values = map.values();
    assert_eq!(values.len(), 2);
    assert_eq!(*values[0], 10);
    assert_eq!(*values[1], 12);
}

#[test]
fn retain_keeps_what_the_predicate_accepts() {
    let mut map: IndexMap<8, u64> = IndexMap::default();
    for n in 0..6u64 {
        map.add(n);
    }
    map.retain(|v| v % 2 == 0);
    assert_eq!(map.len(), 3);
    assert_eq!(map.get(0), Some(&0));
    assert_eq!(map.get(1), None);
    assert_eq!(map.get(2), Some(&2));
    assert_eq!(map.get(3), None);
    assert_eq!(map.get(4), Some(&4));
    assert_eq!(map.get(5), None);
    // The freed slots are reusable, oldest first.
    assert_eq!(map.add(100), 1);
    assert_eq!(map.add(101), 3);
}
