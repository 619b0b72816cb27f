use test_app::session::{SessionState, SECRET};

#[test]
fn session_starts_logged_out_with_empty_password() {
    let session = SessionState::new();
    assert!(!session.logged_in());
    assert_eq!(session.password(), "");
}

#[test]
fn secret_is_the_fixed_literal() {
    assert_eq!(SECRET, "password");
}

#[test]
fn login_with_secret_opens_session_and_keeps_password() {
    let mut session = SessionState::new();
    session.set_password("password".to_string());
    session.login();
    assert!(session.logged_in());
    assert_eq!(session.password(), "password");
}

#[test]
fn login_with_wrong_password_stays_out_and_wipes_password() {
    let mut session = SessionState::new();
    session.set_password("passw0rd".to_string());
    session.login();
    assert!(!session.logged_in());
    assert_eq!(session.password(), "");
}

#[test]
fn login_with_empty_password_stays_out() {
    let mut session = SessionState::new();
    session.login();
    assert!(!session.logged_in());
    assert_eq!(session.password(), "");
}

#[test]
fn login_compares_the_whole_text() {
    for text in ["Password", "password ", " password", "passwor", "passwordpassword"] {
        let mut session = SessionState::new();
        session.set_password(text.to_string());
        session.login();
        assert!(!session.logged_in());
        assert_eq!(session.password(), "");
    }
}

#[test]
fn login_while_logged_in_changes_nothing() {
    let mut session = SessionState::new();
    session.set_password("password".to_string());
    session.login();
    session.login();
    assert!(session.logged_in());
    assert_eq!(session.password(), "password");
}

#[test]
fn set_password_while_logged_in_changes_nothing() {
    let mut session = SessionState::new();
    session.set_password("password".to_string());
    session.login();
    session.set_password("something else".to_string());
    assert!(session.logged_in());
    assert_eq!(session.password(), "password");
    session.login();
    assert!(session.logged_in());
    assert_eq!(session.password(), "password");
    session.set_password(String::new());
    assert_eq!(session.password(), "password");
}

#[test]
fn set_password_works_again_after_logout() {
    let mut session = SessionState::new();
    session.set_password("password".to_string());
    session.login();
    session.logout();
    session.set_password("typed".to_string());
    assert_eq!(session.password(), "typed");
    assert!(!session.logged_in());
}

#[test]
fn clone_keeps_password_and_state() {
    let mut session = SessionState::new();
    session.set_password("password".to_string());
    session.login();
    let copy = session.clone();
    assert!(copy.logged_in());
    assert_eq!(copy.password(), "password");
}

#[test]
fn logout_closes_session_and_wipes_password() {
    let mut session = SessionState::new();
    session.set_password("password".to_string());
    session.login();
    session.logout();
    assert!(!session.logged_in());
    assert_eq!(session.password(), "");
}

#[test]
fn logout_while_logged_out_wipes_password() {
    let mut session = SessionState::new();
    session.set_password("half typed".to_string());
    session.logout();
    assert!(!session.logged_in());
    assert_eq!(session.password(), "");
}

#[test]
fn logout_twice_equals_logout_once() {
    let mut once = SessionState::new();
    once.set_password("password".to_string());
    once.login();
    let mut twice = once.clone();
    once.logout();
    twice.logout();
    twice.logout();
    assert_eq!(once.logged_in(), twice.logged_in());
    assert_eq!(once.password(), twice.password());
}

#[test]
fn session_cycles_between_states() {
    let mut session = SessionState::new();
    for _ in 0..3 {
        session.set_password("password".to_string());
        session.login();
        assert!(session.logged_in());
        session.logout();
        assert!(!session.logged_in());
    }
}

#[test]
fn set_password_replaces_text_and_keeps_state() {
    let mut session = SessionState::new();
    session.set_password("a".to_string());
    session.set_password("b".to_string());
    assert_eq!(session.password(), "b");
    assert!(!session.logged_in());
}
