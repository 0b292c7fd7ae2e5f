use physics_bridge::handle::{SourceHandle, TargetHandle, GENERATIONS};
use physics_bridge::handle_map::HandleMap;

#[test]
fn handle_keeps_its_two_parts() {
    let h = SourceHandle::new(7, 3);
    assert_eq!(h.index, 7);
    assert_eq!(h.generation, 3);
    let t = TargetHandle::new(9, 1);
    assert_eq!(t.index, 9);
    assert_eq!(t.generation, 1);
}

#[test]
fn key_is_index_times_generations_plus_generation() {
    assert_eq!(GENERATIONS, 18446744073709551616u128);
    assert_eq!(SourceHandle::new(0, 0).key(), 0);
    assert_eq!(SourceHandle::new(0, 5).key(), 5);
    assert_eq!(SourceHandle::new(1, 0).key(), 18446744073709551616u128);
    assert_eq!(SourceHandle::new(2, 3).key(), 36893488147419103235u128);
}

#[test]
fn key_of_the_largest_handle_fits() {
    let h = SourceHandle::new(usize::MAX, u64::MAX);
    let expected = (usize::MAX as u128) * 18446744073709551616u128 + (u64::MAX as u128);
    assert_eq!(h.key(), expected);
}

#[test]
fn keys_tell_index_from_generation() {
    assert_ne!(SourceHandle::new(1, 0).key(), SourceHandle::new(0, 1).key());
    assert_ne!(SourceHandle::new(3, 4).key(), SourceHandle::new(4, 3).key());
}

#[test]
fn empty_map_holds_nothing() {
    let map: HandleMap<u32> = HandleMap::new();
    assert_eq!(map.len(), 0);
    assert!(!map.contains(SourceHandle::new(0, 0)));
    assert!(map.get(SourceHandle::new(0, 0)).is_none());
    assert_eq!(map.position(SourceHandle::new(0, 0)), None);
}

#[test]
fn map_finds_what_was_inserted() {
    let mut map: HandleMap<u32> = HandleMap::new();
    assert!(map.insert(SourceHandle::new(4, 0), 40));
    assert!(map.insert(SourceHandle::new(2, 1), 21));
    assert!(map.insert(SourceHandle::new(2, 0), 20));
    assert_eq!(map.len(), 3);
    assert_eq!(map.get(SourceHandle::new(4, 0)), Some(&40));
    assert_eq!(map.get(SourceHandle::new(2, 1)), Some(&21));
    assert_eq!(map.get(SourceHandle::new(2, 0)), Some(&20));
    assert_eq!(*map.index(SourceHandle::new(2, 1)), 21);
    assert!(map.contains(SourceHandle::new(2, 0)));
    assert!(!map.contains(SourceHandle::new(2, 2)));
    assert!(map.get(SourceHandle::new(0, 4)).is_none());
}

#[test]
fn map_keeps_the_order_of_insertion() {
    let mut map: HandleMap<u32> = HandleMap::new();
    map.insert(SourceHandle::new(4, 0), 40);
    map.insert(SourceHandle::new(2, 1), 21);
    map.insert(SourceHandle::new(9, 9), 99);
    assert_eq!(map.key_at(0), SourceHandle::new(4, 0));
    assert_eq!(map.key_at(1), SourceHandle::new(2, 1));
    assert_eq!(map.key_at(2), SourceHandle::new(9, 9));
    assert_eq!(*map.value_at(0), 40);
    assert_eq!(*map.value_at(1), 21);
    assert_eq!(*map.value_at(2), 99);
    assert_eq!(map.position(SourceHandle::new(9, 9)), Some(2));
}

#[test]
fn inserting_again_replaces_the_value_in_place() {
    let mut map: HandleMap<u32> = HandleMap::new();
    map.insert(SourceHandle::new(4, 0), 40);
    map.insert(SourceHandle::new(2, 1), 21);
    assert!(!map.insert(SourceHandle::new(4, 0), 41));
    assert_eq!(map.len(), 2);
    assert_eq!(map.key_at(0), SourceHandle::new(4, 0));
    assert_eq!(*map.value_at(0), 41);
    assert_eq!(map.get(SourceHandle::new(4, 0)), Some(&41));
    assert_eq!(map.get(SourceHandle::new(2, 1)), Some(&21));
}
