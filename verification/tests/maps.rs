use openapi::json::Json;
use openapi::object::find;
use openapi::ordered_map::OrderedMap;
use openapi::strings::{join, same_text, strip_prefix};
use openapi::variant::{resolve_variant, select_variant, two_keys};
use openapi::error::ErrorKind;

#[test]
fn a_map_keeps_the_order_of_insertion() {
    let mut m: OrderedMap<u8> = OrderedMap::new();
    assert!(m.is_empty());
    m.insert("b".to_string(), 1);
    m.insert("a".to_string(), 2);
    m.insert("c".to_string(), 3);
    assert_eq!(m.len(), 3);
    assert_eq!(
        m.entries,
        vec![("b".to_string(), 1), ("a".to_string(), 2), ("c".to_string(), 3)]
    );
    assert_eq!(m.get("a"), Some(&2));
    assert_eq!(m.get("z"), None);
    assert!(m.contains_key("c"));
    assert!(!m.contains_key("C"));
}

#[test]
fn a_key_that_is_inserted_again_keeps_its_place() {
    let mut m: OrderedMap<u8> = OrderedMap::new();
    m.insert("b".to_string(), 1);
    m.insert("a".to_string(), 2);
    m.insert("b".to_string(), 9);
    assert_eq!(m.entries, vec![("b".to_string(), 9), ("a".to_string(), 2)]);
    assert_eq!(m.len(), 2);
    assert_eq!(OrderedMap::<u8>::default(), OrderedMap::new());
}

#[test]
fn texts_are_compared_by_their_characters() {
    assert!(same_text("", ""));
    assert!(same_text("$ref", "$ref"));
    assert!(!same_text("$ref", "$reF"));
    assert!(!same_text("ab", "abc"));
    assert!(same_text("größe", "größe"));
    assert!(!same_text("grosse", "größe"));
}

#[test]
fn a_prefix_is_stripped_by_characters() {
    assert_eq!(strip_prefix("abcdef", "abc"), Some("def".to_string()));
    assert_eq!(strip_prefix("abc", "abc"), Some(String::new()));
    assert_eq!(strip_prefix("ab", "abc"), None);
    assert_eq!(strip_prefix("xbcdef", "abc"), None);
    assert_eq!(strip_prefix("äöü-rest", "äöü"), Some("-rest".to_string()));
    assert_eq!(strip_prefix("anything", ""), Some("anything".to_string()));
    assert_eq!(join("#/", "x"), "#/x");
}

#[test]
fn the_first_entry_with_a_key_is_found() {
    let entries = vec![
        ("a".to_string(), Json::Bool(true)),
        ("b".to_string(), Json::Null),
        ("a".to_string(), Json::Bool(false)),
    ];
    assert_eq!(find(&entries, "a"), Some(&Json::Bool(true)));
    assert_eq!(find(&entries, "b"), Some(&Json::Null));
    assert_eq!(find(&entries, "c"), None);
}

#[test]
fn the_first_candidate_with_all_its_keys_present_is_selected() {
    let entries = vec![
        ("x".to_string(), Json::Null),
        ("y".to_string(), Json::Null),
        ("z".to_string(), Json::Null),
    ];
    let key = |k: &str| k.to_string();
    let candidates = vec![
        vec![key("a")],
        vec![key("x"), key("q")],
        vec![key("z"), key("x")],
        vec![key("y")],
    ];
    assert_eq!(select_variant(&entries, &candidates), Some(2));
    assert_eq!(resolve_variant(&entries, candidates), Ok(2));
    assert_eq!(select_variant(&entries, &vec![vec![], vec![key("x")]]), Some(0));
    assert_eq!(select_variant(&entries, &vec![]), None);
    assert_eq!(select_variant(&entries, &two_keys("y", "x")), Some(0));
    assert_eq!(select_variant(&entries, &two_keys("n", "x")), Some(1));
    let err = resolve_variant(&entries, two_keys("n", "m")).unwrap_err();
    assert_eq!(
        err.kind,
        ErrorKind::AmbiguousOrMissingVariant {
            candidates: vec![vec![key("n")], vec![key("m")]],
            keys_seen: vec![key("x"), key("y"), key("z")],
        }
    );
}
