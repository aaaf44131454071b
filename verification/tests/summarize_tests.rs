use osmo_cli::model::{Attribute, Event};
use osmo_cli::registry::{Registry, RegistryEntry};
use osmo_cli::summarize::summarize_events;

fn attr(key: &str, value: &str) -> Attribute {
    Attribute { key: key.to_string(), value: value.to_string() }
}

fn event(event_type: &str, attributes: Vec<Attribute>) -> Event {
    Event { event_type: event_type.to_string(), attributes }
}

fn empty_registry() -> Registry {
    Registry { entries: vec![] }
}

fn vault_registry() -> Registry {
    Registry {
        entries: vec![RegistryEntry {
            name: "vault".to_string(),
            address: "osmo1abc".to_string(),
        }],
    }
}

#[test]
fn empty_event_sequence_gives_empty_string() {
    let events: Vec<Event> = vec![];
    assert_eq!(summarize_events(&events, false, &empty_registry()), "");
    assert_eq!(summarize_events(&events, true, &empty_registry()), "");
}

#[test]
fn tx_events_are_skipped() {
    let events = vec![event("tx", vec![attr("fee", "100uosmo")])];
    assert_eq!(summarize_events(&events, false, &empty_registry()), "");
}

#[test]
fn single_attribute_has_no_separator() {
    let events = vec![event("wasm", vec![attr("action", "borrow")])];
    assert_eq!(
        summarize_events(&events, false, &empty_registry()),
        "--> wasm( action: borrow )\n"
    );
}

#[test]
fn attributes_join_with_comma_and_strip_trailing_separator() {
    let events = vec![event(
        "wasm",
        vec![attr("action", "borrow"), attr("amount", "5"), attr("denom", "uosmo")],
    )];
    assert_eq!(
        summarize_events(&events, false, &empty_registry()),
        "--> wasm( action: borrow, amount: 5, denom: uosmo )\n"
    );
}

#[test]
fn zero_attribute_event_renders_empty_block() {
    let events = vec![event("message", vec![])];
    assert_eq!(
        summarize_events(&events, false, &empty_registry()),
        "--> message(  )\n"
    );
}

#[test]
fn tx_events_are_filtered_among_others() {
    let events = vec![
        event("tx", vec![attr("fee", "100uosmo")]),
        event("wasm", vec![attr("action", "borrow")]),
        event("tx", vec![]),
        event("message", vec![attr("module", "wasm")]),
    ];
    assert_eq!(
        summarize_events(&events, false, &empty_registry()),
        "--> wasm( action: borrow )\n--> message( module: wasm )\n"
    );
}

#[test]
fn registered_value_is_annotated_with_name() {
    let events = vec![event("wasm", vec![attr("to", "osmo1abc")])];
    assert_eq!(
        summarize_events(&events, false, &vault_registry()),
        "--> wasm( to: osmo1abc (vault) )\n"
    );
}

#[test]
fn unregistered_value_stays_plain() {
    let events = vec![event("wasm", vec![attr("to", "osmo1xyz")])];
    assert_eq!(
        summarize_events(&events, false, &vault_registry()),
        "--> wasm( to: osmo1xyz )\n"
    );
}

#[test]
fn empty_registered_name_stays_plain() {
    let reg = Registry {
        entries: vec![RegistryEntry {
            name: "".to_string(),
            address: "osmo1abc".to_string(),
        }],
    };
    let events = vec![event("wasm", vec![attr("to", "osmo1abc")])];
    assert_eq!(summarize_events(&events, false, &reg), "--> wasm( to: osmo1abc )\n");
}

#[test]
fn decoding_decodes_key_and_value_and_annotates() {
    let events = vec![event(
        "wasm",
        vec![attr(&base64::encode("action"), &base64::encode("osmo1abc"))],
    )];
    let out = summarize_events(&events, true, &vault_registry());
    assert_eq!(out, "--> wasm( action: osmo1abc (vault) )\n");
    assert!(out.contains("action: osmo1abc (vault)"));
}

#[test]
fn decoding_falls_back_to_raw_text() {
    let events = vec![event("wasm", vec![attr("plain key!", "plain value!")])];
    assert_eq!(
        summarize_events(&events, true, &empty_registry()),
        "--> wasm( plain key!: plain value! )\n"
    );
}

#[test]
fn decoding_disabled_leaves_encoded_text_alone() {
    let encoded = base64::encode("action");
    let events = vec![event("wasm", vec![attr(&encoded, "v")])];
    assert_eq!(
        summarize_events(&events, false, &empty_registry()),
        format!("--> wasm( {}: v )\n", encoded)
    );
}
