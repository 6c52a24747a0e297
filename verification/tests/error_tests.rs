use butler::error::{ButlerError, Reason};

#[test]
fn constructors_hold_their_texts() {
    assert_eq!(ButlerError::user("No track playing"), ButlerError::User("No track playing".to_string()));
    assert_eq!(ButlerError::log("No Call"), ButlerError::Log("No Call".to_string()));
    assert_eq!(
        ButlerError::user_and_log("u", "l"),
        ButlerError::UserAndLog { user: "u".to_string(), log: "l".to_string() }
    );
}

#[test]
fn display_texts() {
    assert_eq!(ButlerError::user("hi").to_display_string(), "user: hi");
    assert_eq!(ButlerError::log("oops").to_display_string(), "log: oops");
    assert_eq!(ButlerError::user_and_log("hi", "oops").to_display_string(), "user: hi, log: oops");
}

#[test]
fn user_and_log_messages() {
    let e = ButlerError::user_and_log("for you", "for the log");
    assert_eq!(e.user_message(), Some("for you"));
    assert_eq!(e.log_message(), Some("for the log"));
    let u = ButlerError::user("only you");
    assert_eq!(u.user_message(), Some("only you"));
    assert_eq!(u.log_message(), None);
    let l = ButlerError::log("only log");
    assert_eq!(l.user_message(), None);
    assert_eq!(l.log_message(), Some("only log"));
}

#[test]
fn reasons_become_errors() {
    assert_eq!(ButlerError::from(Reason::Unknown), ButlerError::Log("Unknown reason".to_string()));
    assert_eq!(ButlerError::from(Reason::User("a".to_string())), ButlerError::User("a".to_string()));
    assert_eq!(ButlerError::from(Reason::Log("b".to_string())), ButlerError::Log("b".to_string()));
    assert_eq!(
        ButlerError::from(Reason::UserAndLog { user: "a".to_string(), log: "b".to_string() }),
        ButlerError::UserAndLog { user: "a".to_string(), log: "b".to_string() }
    );
}

#[test]
fn errors_become_reasons() {
    assert_eq!(Reason::from(ButlerError::user("a")), Reason::User("a".to_string()));
    assert_eq!(Reason::from(ButlerError::log("b")), Reason::Log("b".to_string()));
    let r: Reason = ButlerError::user_and_log("a", "b").into();
    assert_eq!(r, Reason::UserAndLog { user: "a".to_string(), log: "b".to_string() });
}

#[test]
fn error_reason_roundtrip() {
    for e in [ButlerError::user("x"), ButlerError::log("y"), ButlerError::user_and_log("x", "y")] {
        assert_eq!(ButlerError::from(Reason::from(e.clone())), e);
    }
    for r in [Reason::User("x".to_string()), Reason::Log("y".to_string())] {
        assert_eq!(Reason::from(ButlerError::from(r.clone())), r);
    }
    assert_eq!(Reason::from(ButlerError::from(Reason::Unknown)), Reason::Log("Unknown reason".to_string()));
}
