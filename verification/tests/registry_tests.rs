use osmo_cli::errors::CliError;
use osmo_cli::registry::{Registry, RegistryEntry};

fn entry(name: &str, address: &str) -> RegistryEntry {
    RegistryEntry { name: name.to_string(), address: address.to_string() }
}

#[test]
fn resolve_name_finds_registered_address() {
    let reg = Registry { entries: vec![entry("vault", "osmo1abc")] };
    assert_eq!(reg.resolve_name("osmo1abc"), Some("vault".to_string()));
}

#[test]
fn resolve_name_misses_unregistered_address() {
    let reg = Registry { entries: vec![entry("vault", "osmo1abc")] };
    assert_eq!(reg.resolve_name("osmo1xyz"), None);
}

#[test]
fn resolve_address_finds_registered_name() {
    let reg = Registry { entries: vec![entry("vault", "osmo1abc")] };
    assert_eq!(reg.resolve_address("vault").unwrap(), "osmo1abc".to_string());
}

#[test]
fn resolve_address_fails_with_not_found() {
    let reg = Registry { entries: vec![entry("vault", "osmo1abc")] };
    assert!(matches!(reg.resolve_address("missing"), Err(CliError::NotFoundError)));
}

#[test]
fn reverse_lookup_first_entry_wins_on_duplicate_addresses() {
    let reg = Registry {
        entries: vec![entry("first", "osmo1dup"), entry("second", "osmo1dup")],
    };
    assert_eq!(reg.resolve_name("osmo1dup"), Some("first".to_string()));
}

#[test]
fn forward_lookup_first_entry_wins_on_duplicate_names() {
    let reg = Registry {
        entries: vec![entry("dup", "osmo1one"), entry("dup", "osmo1two")],
    };
    assert_eq!(reg.resolve_address("dup").unwrap(), "osmo1one".to_string());
}

#[test]
fn from_json_builds_registry() {
    let reg = Registry::from_json(r#"{"vault": "osmo1abc"}"#).unwrap();
    assert_eq!(reg.entries.len(), 1);
    assert_eq!(reg.resolve_name("osmo1abc"), Some("vault".to_string()));
    assert_eq!(reg.resolve_address("vault").unwrap(), "osmo1abc".to_string());
}

#[test]
fn from_json_skips_non_string_values() {
    let reg = Registry::from_json(r#"{"count": 3, "vault": "osmo1abc"}"#).unwrap();
    assert_eq!(reg.entries.len(), 1);
    assert_eq!(reg.resolve_name("osmo1abc"), Some("vault".to_string()));
    assert!(matches!(reg.resolve_address("count"), Err(CliError::NotFoundError)));
}

#[test]
fn from_json_duplicate_addresses_resolve_deterministically() {
    // serde_json iterates object members in sorted key order, the
    // order from_json keeps, so the first entry in that order wins.
    let reg = Registry::from_json(r#"{"second": "osmo1dup", "first": "osmo1dup"}"#).unwrap();
    assert_eq!(reg.entries.len(), 2);
    assert_eq!(reg.entries[0].name, "first");
    assert_eq!(reg.resolve_name("osmo1dup"), Some("first".to_string()));
}

#[test]
fn from_json_rejects_malformed_document() {
    assert!(matches!(
        Registry::from_json("{not json"),
        Err(CliError::ParseError(_))
    ));
}

#[test]
fn from_json_rejects_non_object_document() {
    assert!(matches!(
        Registry::from_json("[1, 2, 3]"),
        Err(CliError::ParseError(_))
    ));
}
