use pcsc::ReaderNames;
use pcsc::PNP_NOTIFICATION;

#[test]
fn decode_yields_each_name_in_order() {
    let buf: &[u8] = b"Reader A\0Reader B\0\0";
    let mut names = ReaderNames::over(buf);
    assert_eq!(names.next(), Some(&b"Reader A"[..]));
    assert_eq!(names.next(), Some(&b"Reader B"[..]));
    assert_eq!(names.next(), None);
    assert_eq!(names.next(), None);
}

#[test]
fn decode_single_nul_yields_no_names() {
    let buf: &[u8] = b"\0";
    let mut names = ReaderNames::over(buf);
    assert_eq!(names.next(), None);
}

#[test]
fn decode_empty_buffer_yields_no_names() {
    let buf: &[u8] = b"";
    let mut names = ReaderNames::over(buf);
    assert_eq!(names.next(), None);
}

#[test]
fn decode_stops_without_terminator() {
    let buf: &[u8] = b"AB";
    let mut names = ReaderNames::over(buf);
    assert_eq!(names.next(), None);
}

#[test]
fn decode_name_ending_exactly_at_buffer_end() {
    // A single NUL-terminated name with no closing empty name: the name
    // is still yielded, and the sequence ends at buffer exhaustion.
    let buf: &[u8] = b"A\0";
    let mut names = ReaderNames::over(buf);
    assert_eq!(names.next(), Some(&b"A"[..]));
    assert_eq!(names.next(), None);
}

#[test]
fn decode_restarts_via_clone_not_rewind() {
    let buf: &[u8] = b"one\0two\0\0";
    let fresh = ReaderNames::over(buf);
    let mut first = fresh.clone();
    assert_eq!(first.next(), Some(&b"one"[..]));
    assert_eq!(first.next(), Some(&b"two"[..]));
    let mut again = fresh.clone();
    assert_eq!(again.next(), Some(&b"one"[..]));
}

#[test]
fn pnp_notification_name_bytes() {
    assert_eq!(PNP_NOTIFICATION(), b"\\\\?PnP?\\Notification".to_vec());
}
