use feed_testbed::request_id::{generate_request_id, hex_encode};

#[test]
fn hex_encode_exact_value() {
    assert_eq!(hex_encode(&vec![0x00u8, 0x0f, 0x10, 0xff, 0xa5]), "000f10ffa5");
}

#[test]
fn hex_encode_empty_input() {
    assert_eq!(hex_encode(&Vec::new()), "");
}

#[test]
fn hex_encode_covers_every_digit() {
    assert_eq!(
        hex_encode(&vec![0x01u8, 0x23, 0x45, 0x67, 0x89, 0xab, 0xcd, 0xef]),
        "0123456789abcdef"
    );
}

#[test]
fn generated_ids_are_printable_and_distinct() {
    let mut seen: Vec<String> = Vec::new();
    for _ in 0..100 {
        let id = generate_request_id().expect("randomness source failed");
        assert_eq!(id.len(), 16);
        assert!(id.chars().all(|c| c.is_ascii_hexdigit() && !c.is_ascii_uppercase()));
        assert!(!seen.contains(&id), "correlation id repeated: {}", id);
        seen.push(id);
    }
}
