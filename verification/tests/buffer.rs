use constant_cstr::buffer::TerminatedBuffer;

#[test]
fn terminate_appends_single_null() {
    let buf = TerminatedBuffer::terminate(b"ab".to_vec()).unwrap();
    assert_eq!(buf.as_bytes(), &[0x61, 0x62, 0x00]);
    assert_eq!(buf.len(), 3);
}

#[test]
fn terminate_empty_text() {
    let buf = TerminatedBuffer::terminate(Vec::new()).unwrap();
    assert_eq!(buf.as_bytes(), &[0x00]);
    assert_eq!(buf.len(), 1);
}

#[test]
fn terminate_reports_first_null() {
    let r = TerminatedBuffer::terminate(b"ab\0cd\0".to_vec());
    assert_eq!(r.err(), Some(2));
}

#[test]
fn checked_accepts_well_formed_bytes() {
    let buf = TerminatedBuffer::from_bytes_with_nul(vec![0x61, 0x00]).unwrap();
    assert_eq!(buf.as_bytes(), &[0x61, 0x00]);
}

#[test]
fn checked_accepts_lone_null() {
    let buf = TerminatedBuffer::from_bytes_with_nul(vec![0x00]).unwrap();
    assert_eq!(buf.as_bytes(), &[0x00]);
}

#[test]
fn checked_rejects_empty() {
    assert!(TerminatedBuffer::from_bytes_with_nul(Vec::new()).is_none());
}

#[test]
fn checked_rejects_interior_null() {
    assert!(TerminatedBuffer::from_bytes_with_nul(vec![0x00, 0x00]).is_none());
    assert!(TerminatedBuffer::from_bytes_with_nul(vec![0x61, 0x00, 0x62, 0x00]).is_none());
}

#[test]
fn checked_rejects_missing_terminator() {
    assert!(TerminatedBuffer::from_bytes_with_nul(vec![0x61]).is_none());
}

#[test]
fn unchecked_keeps_bytes() {
    let buf = TerminatedBuffer::from_bytes_with_nul_unchecked(vec![0x68, 0x69, 0x00]);
    assert_eq!(buf.as_bytes(), &[0x68, 0x69, 0x00]);
}
