use tank_vm::text::{read_c_string, str_eq};

#[test]
fn str_eq_compares_characters() {
    assert!(str_eq("scan", "scan"));
    assert!(str_eq("", ""));
    assert!(!str_eq("scan", "scan_"));
    assert!(!str_eq("scan", "scam"));
    assert!(str_eq("héllo", "héllo"));
    assert!(!str_eq("héllo", "hello"));
}

#[test]
fn reads_terminated_strings() {
    let memory = b"xxhello\0world\0".to_vec();
    assert_eq!(read_c_string(&memory, 2), Some("hello".to_string()));
    assert_eq!(read_c_string(&memory, 8), Some("world".to_string()));
    assert_eq!(read_c_string(&memory, 7), Some(String::new()));
    assert_eq!(read_c_string(&memory, 4), Some("llo".to_string()));
}

#[test]
fn missing_terminator_or_address_gives_none() {
    let memory = b"abc".to_vec();
    assert_eq!(read_c_string(&memory, 0), None);
    assert_eq!(read_c_string(&memory, 3), None);
    assert_eq!(read_c_string(&memory, 100), None);
    assert_eq!(read_c_string(&[], 0), None);
}

#[test]
fn decodes_utf8_and_rejects_invalid_bytes() {
    let memory = vec![0xC3, 0xA9, b't', b'a', b't', 0];
    assert_eq!(read_c_string(&memory, 0), Some("état".to_string()));
    let bad = vec![b'a', 0xFF, b'b', 0];
    assert_eq!(read_c_string(&bad, 0), None);
    let cut = vec![0xC3, 0];
    assert_eq!(read_c_string(&cut, 0), None);
}
