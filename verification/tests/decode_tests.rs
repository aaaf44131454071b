use osmo_cli::decode::decode;

#[test]
fn decode_valid_base64_roundtrips() {
    let original: Vec<u8> = b"hello attribute bytes".to_vec();
    let encoded = base64::encode(&original);
    assert_eq!(decode(&encoded), original);
}

#[test]
fn decode_valid_base64_of_address() {
    let encoded = base64::encode("osmo1abc");
    assert_eq!(decode(&encoded), b"osmo1abc".to_vec());
}

#[test]
fn decode_invalid_input_passes_through() {
    let input = "definitely *not* base64!";
    assert_eq!(decode(input), input.as_bytes().to_vec());
}

#[test]
fn decode_empty_string_gives_empty_bytes() {
    assert_eq!(decode(""), Vec::<u8>::new());
}

#[test]
fn decode_bad_padding_passes_through() {
    let input = "YWN0aW9u=";
    assert_eq!(decode(input), input.as_bytes().to_vec());
}
