use gitignore_templates::name_map::NameMap;

#[test]
fn a_new_mapping_is_empty() {
    let map: NameMap<u32> = NameMap::new();
    assert_eq!(map.len(), 0);
    assert_eq!(map.get("Rust"), None);
    assert!(!map.contains("Rust"));
    assert!(map.names().is_empty());
}

#[test]
fn an_inserted_name_maps_to_its_value() {
    let mut map: NameMap<u32> = NameMap::new();
    map.insert("Go".to_string(), 1);
    map.insert("Rust".to_string(), 2);
    assert_eq!(map.len(), 2);
    assert_eq!(map.get("Go"), Some(&1));
    assert_eq!(map.get("Rust"), Some(&2));
    assert_eq!(map.get("go"), None);
    assert!(map.contains("Go"));
    assert_eq!(map.position("Rust"), Some(1));
    assert_eq!(map.position("Node"), None);
}

#[test]
fn an_inserted_name_keeps_its_place_and_takes_the_new_value() {
    let mut map: NameMap<u32> = NameMap::new();
    map.insert("Go".to_string(), 1);
    map.insert("Rust".to_string(), 2);
    map.insert("Go".to_string(), 3);
    assert_eq!(map.len(), 2);
    assert_eq!(map.names(), vec!["Go".to_string(), "Rust".to_string()]);
    assert_eq!(map.get("Go"), Some(&3));
    assert_eq!(map.get("Rust"), Some(&2));
}

#[test]
fn the_entries_come_in_order_of_arrival() {
    let mut map: NameMap<u32> = NameMap::new();
    map.insert("Node".to_string(), 7);
    map.insert("Ada".to_string(), 8);
    let entries = map.into_entries();
    assert_eq!(entries.len(), 2);
    assert_eq!(entries[0].name, "Node");
    assert_eq!(entries[0].value, 7);
    assert_eq!(entries[1].name, "Ada");
    assert_eq!(entries[1].value, 8);
}
