use constant_cstr::scan::find_first_null;

#[test]
fn scan_empty_is_null_free() {
    assert_eq!(find_first_null(&[]), None);
}

#[test]
fn scan_null_free_text() {
    assert_eq!(find_first_null(b"abc"), None);
}

#[test]
fn scan_reports_first_of_two_nulls() {
    assert_eq!(find_first_null(b"ab\0cd\0"), Some(2));
}

#[test]
fn scan_null_at_start() {
    assert_eq!(find_first_null(b"\0x"), Some(0));
}

#[test]
fn scan_null_at_end() {
    assert_eq!(find_first_null(b"xy\0"), Some(2));
}
