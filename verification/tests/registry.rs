//! The registry state machine, exercised with a plain integer standing in
//! for the notification handle.
use pty_notify::Registry;

#[test]
fn starts_empty() {
    let r: Registry<u32> = Registry::new();
    assert_eq!(r.len(), 0);
    assert!(!r.contains(42));
    assert_eq!(r.owner_of(42), None);
}

#[test]
fn open_then_close_round_trip() {
    let mut r: Registry<u32> = Registry::new();
    r.insert_open(42, String::from("alice"), 7);
    assert_eq!(r.len(), 1);
    assert!(r.contains(42));
    assert_eq!(r.owner_of(42), Some(String::from("alice")));

    let s = r.take_session(42).expect("session 42 was open");
    assert_eq!(s.id, 42);
    assert_eq!(s.owner, "alice");
    assert_eq!(s.note, 7, "the very handle that was filed comes back");
    assert_eq!(r.len(), 0);
    assert!(!r.contains(42));
}

#[test]
fn take_of_unknown_id_changes_nothing() {
    let mut r: Registry<u32> = Registry::new();
    r.insert_open(1, String::from("alice"), 10);
    assert!(r.take_session(2).is_none());
    assert_eq!(r.len(), 1);
    assert!(r.contains(1));
}

#[test]
fn second_take_finds_nothing() {
    let mut r: Registry<u32> = Registry::new();
    r.insert_open(5, String::from("bob"), 50);
    assert!(r.take_session(5).is_some());
    assert!(r.take_session(5).is_none());
    assert!(r.take_session(5).is_none());
    assert_eq!(r.len(), 0);
}

#[test]
fn open_ids_are_those_appeared_and_not_yet_removed() {
    let mut r: Registry<u32> = Registry::new();
    r.insert_open(1, String::from("alice"), 10);
    r.insert_open(2, String::from("bob"), 20);
    r.insert_open(3, String::from("carol"), 30);
    r.take_session(2);
    r.insert_open(4, String::from("dan"), 40);
    r.take_session(1);

    assert_eq!(r.len(), 2);
    assert!(!r.contains(1));
    assert!(!r.contains(2));
    assert!(r.contains(3));
    assert!(r.contains(4));
    assert_eq!(r.owner_of(3), Some(String::from("carol")));
    assert_eq!(r.owner_of(4), Some(String::from("dan")));
}

#[test]
fn reopening_an_id_replaces_the_session() {
    let mut r: Registry<u32> = Registry::new();
    r.insert_open(9, String::from("alice"), 1);
    r.insert_open(9, String::from("bob"), 2);
    assert_eq!(r.len(), 1);
    assert_eq!(r.owner_of(9), Some(String::from("bob")));
    let s = r.take_session(9).expect("session 9 was open");
    assert_eq!(s.note, 2);
}
