use wwsvc_rs::Cursor;

#[test]
fn fresh_cursor_is_never_closed() {
    let c = Cursor::new(500);
    assert!(!c.closed());
    assert_eq!(c.cursor_id, "CREATE");
    assert_eq!(c.max_lines, 500);
}

#[test]
fn default_cursor_is_fresh_with_500_lines() {
    let c = Cursor::default();
    assert!(!c.closed());
    assert_eq!(c.cursor_id, "CREATE");
    assert_eq!(c.max_lines, 500);
}

#[test]
fn cursor_advanced_to_sentinel_is_closed() {
    let mut c = Cursor::new(10);
    c.set_cursor_id("CLOSED".to_string());
    assert!(c.closed());
}

#[test]
fn cursor_advanced_to_other_id_is_not_closed() {
    let mut c = Cursor::new(10);
    c.set_cursor_id("8f2e71".to_string());
    assert!(!c.closed());
    assert_eq!(c.cursor_id, "8f2e71");
    c.set_cursor_id("closed".to_string());
    assert!(!c.closed());
    c.set_cursor_id("CLOSED ".to_string());
    assert!(!c.closed());
}

#[test]
fn cursor_advance_keeps_page_size() {
    let mut c = Cursor::new(25);
    c.set_cursor_id("tok1".to_string());
    assert_eq!(c.max_lines, 25);
}
