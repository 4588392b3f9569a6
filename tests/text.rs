use wasm_host::text::{c_string_prefix, decimal_string, decode_lossy, decode_strict};

#[test]
fn decimal_of_edge_values() {
    assert_eq!(decimal_string(0), "0");
    assert_eq!(decimal_string(9), "9");
    assert_eq!(decimal_string(10), "10");
    assert_eq!(decimal_string(305), "305");
    assert_eq!(decimal_string(u32::MAX), "4294967295");
}

#[test]
fn c_string_prefix_cuts_at_nul() {
    assert_eq!(c_string_prefix(b"abc\0def"), b"abc".to_vec());
    assert_eq!(c_string_prefix(b"\0"), Vec::<u8>::new());
    assert_eq!(c_string_prefix(b"xyz"), b"xyz".to_vec());
    assert_eq!(c_string_prefix(b""), Vec::<u8>::new());
}

#[test]
fn strict_decoding_refuses_invalid_bytes() {
    assert_eq!(decode_strict(b"ok").unwrap(), "ok");
    assert!(decode_strict(b"\xc0\xaf").is_none());
}

#[test]
fn lossy_decoding_replaces_invalid_bytes() {
    assert_eq!(decode_lossy(b"ok"), "ok");
    assert_eq!(decode_lossy(b"x\xffy"), "x\u{FFFD}y");
}
