use kuzu_ogm::dictionary::{Property, PropertyDictionary};
use kuzu_ogm::value::PropertyValue;

fn text(value: &str) -> PropertyValue {
    PropertyValue::Text(value.to_string())
}

#[test]
fn empty_dictionary() {
    let dictionary = PropertyDictionary::new();
    assert_eq!(dictionary.len(), 0);
    assert_eq!(dictionary.get("id"), None);
    assert_eq!(dictionary.position("id"), None);
}

#[test]
fn insert_keeps_the_order_of_first_insertion() {
    let mut dictionary = PropertyDictionary::new();
    dictionary.insert("id", text("u1"));
    dictionary.insert("name", text("Alice"));
    dictionary.insert("age", PropertyValue::UInt64(25));
    assert_eq!(dictionary.len(), 3);
    assert_eq!(dictionary.entry(0), &Property { name: "id".to_string(), value: text("u1") });
    assert_eq!(dictionary.entry(1), &Property { name: "name".to_string(), value: text("Alice") });
    assert_eq!(
        dictionary.entry(2),
        &Property { name: "age".to_string(), value: PropertyValue::UInt64(25) }
    );
    assert_eq!(dictionary.position("name"), Some(1));
    assert_eq!(dictionary.get("age"), Some(&PropertyValue::UInt64(25)));
    assert_eq!(dictionary.get("Age"), None);
}

#[test]
fn insert_under_a_name_that_is_there_replaces_the_value_in_place() {
    let mut dictionary = PropertyDictionary::new();
    dictionary.insert("id", text("u1"));
    dictionary.insert("age", PropertyValue::UInt64(25));
    dictionary.insert("id", text("u2"));
    assert_eq!(dictionary.len(), 2);
    assert_eq!(dictionary.entry(0), &Property { name: "id".to_string(), value: text("u2") });
    assert_eq!(dictionary.get("id"), Some(&text("u2")));
    assert_eq!(dictionary.get("age"), Some(&PropertyValue::UInt64(25)));
}

#[test]
fn with_is_insert_by_value() {
    let built = PropertyDictionary::new()
        .with("a", PropertyValue::Bool(true))
        .with("b", PropertyValue::Int64(-3))
        .with("a", PropertyValue::Bool(false));
    let mut filled = PropertyDictionary::new();
    filled.insert("a", PropertyValue::Bool(true));
    filled.insert("b", PropertyValue::Int64(-3));
    filled.insert("a", PropertyValue::Bool(false));
    assert_eq!(built, filled);
    assert_eq!(built.len(), 2);
    assert_eq!(built.clone(), built);
}
