use wwsvc_rs::AppHash;

#[test]
fn sign_advances_request_id_by_one() {
    let h = AppHash::from_parts(0, "secret", "Tue, 15 Nov 1994 08:12:31 GMT".to_string());
    assert_eq!(h.request_id, 1);
    let h = AppHash::from_parts(41, "secret", "Tue, 15 Nov 1994 08:12:31 GMT".to_string());
    assert_eq!(h.request_id, 42);
}

#[test]
fn sign_twice_same_inputs_same_output() {
    let ts = "Tue, 15 Nov 1994 08:12:31 GMT";
    let a = AppHash::from_parts(7, "a1", ts.to_string());
    let b = AppHash::from_parts(7, "a1", ts.to_string());
    assert_eq!(a.request_id, b.request_id);
    assert_eq!(a.hash, b.hash);
    assert_eq!(a.date_formatted, b.date_formatted);
}

#[test]
fn sign_reports_timestamp_verbatim() {
    let ts = "Tue, 15 Nov 1994 08:12:31 GMT";
    let h = AppHash::from_parts(0, "a1", ts.to_string());
    assert_eq!(h.date_formatted, ts);
}

#[test]
fn hash_exact_value_empty_input() {
    let h = AppHash::from_parts(0, "", String::new());
    assert_eq!(h.hash, "d41d8cd98f00b204e9800998ecf8427e");
}

#[test]
fn hash_exact_value_ascii_input() {
    let h = AppHash::from_parts(0, "a1", "Tue, 15 Nov 1994 08:12:31 GMT".to_string());
    assert_eq!(h.hash, "7576e5dd4e3d03a3cb27d471774ac430");
}

#[test]
fn hash_uses_single_byte_encoding_not_utf8() {
    // In Windows-1252 the umlaut is the single byte 0xE4; hashing the UTF-8
    // bytes instead would give 8419b71c87a225a2c70b50486fbee545.
    let h = AppHash::from_parts(0, "\u{e4}", String::new());
    assert_eq!(h.hash, "c15bcc5577f9fade4b4a3256190a59b0");
}

#[test]
fn hash_changes_when_timestamp_changes() {
    let a = AppHash::from_parts(0, "a1", "Tue, 15 Nov 1994 08:12:31 GMT".to_string());
    let b = AppHash::from_parts(0, "a1", "Tue, 15 Nov 1994 08:12:32 GMT".to_string());
    assert_ne!(a.hash, b.hash);
}

#[test]
fn hash_changes_when_credential_changes() {
    let ts = "Tue, 15 Nov 1994 08:12:31 GMT";
    let a = AppHash::from_parts(0, "a1", ts.to_string());
    let b = AppHash::from_parts(0, "a2", ts.to_string());
    assert_ne!(a.hash, b.hash);
}

#[test]
fn hash_is_32_lowercase_hex_digits() {
    let h = AppHash::from_parts(3, "a1", "Tue, 15 Nov 1994 08:12:31 GMT".to_string());
    assert_eq!(h.hash.len(), 32);
    assert!(h.hash.chars().all(|c| c.is_ascii_hexdigit() && !c.is_ascii_uppercase()));
}

#[test]
fn sign_with_current_time_formats_imf_fixdate() {
    let h = AppHash::new(0, "secret");
    assert_eq!(h.request_id, 1);
    assert_eq!(h.date_formatted.len(), 29);
    assert!(h.date_formatted.ends_with(" GMT"));
    assert_eq!(h.hash.len(), 32);
}
