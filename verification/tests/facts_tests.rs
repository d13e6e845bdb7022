use nekofetch::facts::{FactMap, UNKNOWN};

#[test]
fn new_fact_map_holds_nothing() {
    let facts = FactMap::new();
    assert_eq!(facts.get("os"), None);
    assert_eq!(facts.text_of("os"), "Unknown");
}

#[test]
fn insert_then_get_gives_the_text() {
    let mut facts = FactMap::new();
    facts.insert("cpu", "Neko 9000 (8 cores)".to_string());
    assert_eq!(facts.get("cpu"), Some(&"Neko 9000 (8 cores)".to_string()));
    assert_eq!(facts.text_of("cpu"), "Neko 9000 (8 cores)");
    assert_eq!(facts.get("gpu"), None);
}

#[test]
fn insert_replaces_an_earlier_text() {
    let mut facts = FactMap::new();
    facts.insert("storage", "sda: 1MiB / 2MiB".to_string());
    facts.insert("storage", "sdb: 3MiB / 4MiB".to_string());
    assert_eq!(facts.text_of("storage"), "sdb: 3MiB / 4MiB");
}

#[test]
fn unknown_is_the_placeholder() {
    assert_eq!(UNKNOWN, "Unknown");
}
