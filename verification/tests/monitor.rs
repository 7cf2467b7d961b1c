//! The event handlers over real desktop-notification handles. Whether a
//! notification can actually be shown depends on the desktop session these
//! tests run under, so the appeared path asserts the same outcome either
//! way: a session exactly when the notification was created.
use pty_notify::ChangeKind;
use pty_notify::ErrorKind;
use pty_notify::Registry;

fn fresh() -> Registry<notify_rust::NotificationHandle> {
    Registry::new()
}

#[test]
fn other_event_kinds_are_ignored() {
    let mut r = fresh();
    assert_eq!(r.handle_event(ChangeKind::Other, "3", Some(0)), Ok(None));
    assert_eq!(r.len(), 0);
}

#[test]
fn malformed_name_on_appeared_inserts_nothing() {
    let mut r = fresh();
    assert_eq!(r.process_appeared("abc", Some(0)), Err(ErrorKind::IdParseFailure));
    assert_eq!(r.process_appeared("", Some(0)), Err(ErrorKind::IdParseFailure));
    assert_eq!(r.handle_event(ChangeKind::Appeared, "abc", Some(0)), Err(ErrorKind::IdParseFailure));
    assert_eq!(r.len(), 0);
}

#[test]
fn failed_metadata_read_aborts_the_event() {
    let mut r = fresh();
    assert_eq!(r.process_appeared("7", None), Err(ErrorKind::MetadataFailure));
    assert_eq!(r.len(), 0);
}

#[test]
fn unknown_owner_aborts_the_event() {
    let mut r = fresh();
    // No account has this uid on any ordinary system.
    assert_eq!(r.process_appeared("7", Some(4294967294)), Err(ErrorKind::IdentityLookupFailure));
    assert_eq!(r.len(), 0);
}

#[test]
fn appeared_opens_exactly_when_the_notification_was_shown() {
    let mut r = fresh();
    match r.process_appeared("3", Some(0)) {
        Ok(line) => {
            assert!(r.contains(3));
            let owner = r.owner_of(3).expect("session 3 was opened");
            assert_eq!(line, format!("3 was opened for {}", owner));
            let closed = r.process_removed("3").expect("numeric name parses");
            assert_eq!(closed, format!("3 was closed ({})", owner));
            assert!(!r.contains(3));
        }
        Err(e) => {
            assert_eq!(e, ErrorKind::NotificationFailure);
            assert!(!r.contains(3));
            assert_eq!(r.len(), 0);
        }
    }
}

#[test]
fn removed_for_unknown_id_logs_without_owner() {
    let mut r = fresh();
    assert_eq!(r.process_removed("5"), Ok(String::from("5 was closed")));
    assert_eq!(r.len(), 0);
}

#[test]
fn removing_twice_falls_into_the_unknown_path_both_times() {
    let mut r = fresh();
    assert_eq!(r.process_removed("5"), Ok(String::from("5 was closed")));
    assert_eq!(r.process_removed("5"), Ok(String::from("5 was closed")));
    assert_eq!(r.len(), 0);
}

#[test]
fn malformed_name_on_removed_is_an_error() {
    let mut r = fresh();
    assert_eq!(r.process_removed("ptmx"), Err(ErrorKind::IdParseFailure));
    assert_eq!(r.handle_event(ChangeKind::Removed, "ptmx", None), Err(ErrorKind::IdParseFailure));
}
