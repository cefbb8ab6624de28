use gpui_form::path::FieldPath;
use std::collections::{HashMap, HashSet};

#[test]
fn new_round_trips_segments() {
    let path = FieldPath::new(&["name"]);
    assert_eq!(path.segments(), &["name"]);
}

#[test]
fn single_segment_path() {
    let path = FieldPath::new(&["email"]);
    assert_eq!(path.segments(), &["email"]);
    assert!(!path.is_empty());
}

#[test]
fn multi_segment_path_preserves_order() {
    let path = FieldPath::new(&["address", "city", "zip"]);
    assert_eq!(path.segments(), &["address", "city", "zip"]);
    assert!(!path.is_empty());
}

#[test]
fn empty_path_is_empty_and_renders_blank() {
    let empty = FieldPath::new(&[]);
    assert!(empty.is_empty());
    assert!(empty.segments().is_empty());
    assert_eq!(empty.to_string(), "");
}

#[test]
fn display_dotted_join_single_segment() {
    let path = FieldPath::new(&["name"]);
    assert_eq!(path.to_string(), "name");
}

#[test]
fn display_dotted_join_multi_segment() {
    let path = FieldPath::new(&["address", "city"]);
    assert_eq!(path.to_string(), "address.city");
}

#[test]
fn eq_is_by_segment_sequence() {
    let a = FieldPath::new(&["address", "city"]);
    let b = FieldPath::new(&["address", "city"]);
    let c = FieldPath::new(&["address", "zip"]);

    assert_eq!(a, b);
    assert_ne!(a, c);
    assert_ne!(FieldPath::new(&["city", "address"]), a);
}

#[test]
fn hash_by_segment_sequence_in_set() {
    let mut set = HashSet::new();
    set.insert(FieldPath::new(&["address", "city"]));

    assert!(set.contains(&FieldPath::new(&["address", "city"])));
    assert!(!set.contains(&FieldPath::new(&["address", "zip"])));
}

#[test]
fn hash_by_segment_sequence_in_map_key() {
    let mut map = HashMap::new();
    map.insert(FieldPath::new(&["name"]), 1u32);
    map.insert(FieldPath::new(&["email"]), 2u32);

    assert_eq!(map.get(&FieldPath::new(&["name"])), Some(&1));
    assert_eq!(map.get(&FieldPath::new(&["email"])), Some(&2));
    assert_eq!(map.get(&FieldPath::new(&["missing"])), None);
}

#[test]
fn clone_is_independent_of_original() {
    let original = FieldPath::new(&["name"]);
    let copy = original.clone();

    assert_eq!(original, copy);
    assert_eq!(original.segments(), copy.segments());
}

#[test]
fn debug_renders_segment_list() {
    let path = FieldPath::new(&["address", "city"]);
    let s = path.debug_string();
    assert_eq!(s, r#"["address", "city"]"#);
}

#[test]
fn empty_segments_empty_path() {
    let path = FieldPath::new(&[]);
    assert!(path.is_empty());
    assert_eq!(path.segments(), &[] as &[&str]);
}

#[test]
fn debug_of_empty_path_is_empty_list() {
    assert_eq!(FieldPath::new(&[]).debug_string(), "[]");
}

#[test]
fn debug_escapes_quotes_in_segments() {
    let path = FieldPath::new(&["a\"b"]);
    assert_eq!(path.debug_string(), r#"["a\"b"]"#);
}

#[test]
fn dotted_rendering_of_three_segments() {
    let path = FieldPath::new(&["a", "b", "c"]);
    assert_eq!(path.to_string(), "a.b.c");
}
