use pty_notify::close_message;
use pty_notify::close_unknown_message;
use pty_notify::open_message;

#[test]
fn open_line_names_id_and_owner() {
    assert_eq!(open_message(42, "alice"), "42 was opened for alice");
    assert_eq!(open_message(0, "root"), "0 was opened for root");
}

#[test]
fn close_line_names_id_and_remembered_owner() {
    assert_eq!(close_message(42, "alice"), "42 was closed (alice)");
    assert_eq!(close_message(7, "root"), "7 was closed (root)");
}

#[test]
fn unknown_close_line_has_no_owner() {
    assert_eq!(close_unknown_message(42), "42 was closed");
    let line = close_unknown_message(13);
    assert!(!line.contains("("));
}
