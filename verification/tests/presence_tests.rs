use cameraftp::presence::{FtpPresenceListener, PresenceEvent};

#[test]
fn presence_events_update_connection_count_with_session_dedup() {
    let mut listener = FtpPresenceListener::new();

    let first = listener.receive_presence_event(PresenceEvent::LoggedIn, "trace-1".to_string());
    assert_eq!(first.connection_count, 1);
    assert!(first.changed);
    assert!(listener.contains("trace-1"));

    let second = listener.receive_presence_event(PresenceEvent::LoggedIn, "trace-2".to_string());
    assert_eq!(second.connection_count, 2);
    assert_eq!(listener.connection_count(), 2);

    let dup = listener.receive_presence_event(PresenceEvent::LoggedIn, "trace-1".to_string());
    assert_eq!(dup.connection_count, 2, "duplicate LoggedIn for a known session must not bump the count");
    assert!(!dup.changed);
    assert_eq!(listener.connection_count(), 2);

    let out = listener.receive_presence_event(PresenceEvent::LoggedOut, "trace-1".to_string());
    assert_eq!(out.connection_count, 1);
    assert!(!listener.contains("trace-1"));

    let ghost = listener.receive_presence_event(PresenceEvent::LoggedOut, "ghost".to_string());
    assert_eq!(ghost.connection_count, 1);
    assert!(!ghost.changed);
}

#[test]
fn logout_after_login_of_new_session_restores_count() {
    let mut listener = FtpPresenceListener::new();
    listener.receive_presence_event(PresenceEvent::LoggedIn, "a".to_string());
    let before = listener.connection_count();
    listener.receive_presence_event(PresenceEvent::LoggedIn, "b".to_string());
    let after = listener.receive_presence_event(PresenceEvent::LoggedOut, "b".to_string());
    assert_eq!(after.connection_count, before);
    assert!(listener.contains("a"));
    assert!(!listener.contains("b"));
}

#[test]
fn removing_a_middle_session_keeps_the_others() {
    let mut listener = FtpPresenceListener::new();
    for id in ["s1", "s2", "s3"] {
        listener.receive_presence_event(PresenceEvent::LoggedIn, id.to_string());
    }
    let out = listener.receive_presence_event(PresenceEvent::LoggedOut, "s2".to_string());
    assert!(out.changed);
    assert_eq!(out.connection_count, 2);
    assert!(listener.contains("s1") && listener.contains("s3") && !listener.contains("s2"));
}
