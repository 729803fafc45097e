use namada_rest::collections::{AddressSet, TextMap};
use namada_rest::types::Address;

#[test]
fn text_map_keeps_first_place_of_a_key() {
    let map = TextMap::new()
        .insert("b".to_string(), 1u64)
        .insert("a".to_string(), 2u64)
        .insert("b".to_string(), 3u64);
    assert_eq!(map.len(), 2);
    assert_eq!(map.entry(0), &("b".to_string(), 3u64));
    assert_eq!(map.entry(1), &("a".to_string(), 2u64));
}

#[test]
fn text_map_starts_empty() {
    let map: TextMap<String> = TextMap::new();
    assert_eq!(map.len(), 0);
}

#[test]
fn address_set_holds_each_address_once() {
    let set = AddressSet::new()
        .insert(Address("tnam1a".to_string()))
        .insert(Address("tnam1b".to_string()))
        .insert(Address("tnam1a".to_string()))
        .insert(Address("tnam1c".to_string()));
    assert_eq!(set.len(), 3);
    assert_eq!(set.get(0), "tnam1a");
    assert_eq!(set.get(1), "tnam1b");
    assert_eq!(set.get(2), "tnam1c");
    assert_eq!(AddressSet::new().len(), 0);
}
