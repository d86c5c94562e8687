use dash2::pam::{
    auth_outcome, code_name, AuthAttempt, AuthOutcome, PamError, PamReturnCode, PasswordConv,
};
use dash2::session::{LockEvent, LockSession, SessionState};

#[test]
fn return_codes_classify_into_the_taxonomy() {
    assert!(matches!(
        PamError::from_rc("authenticate", PamReturnCode::ABORT),
        PamError::AbortError(_)
    ));
    for rc in [
        PamReturnCode::AUTH_ERR,
        PamReturnCode::MAXTRIES,
        PamReturnCode::CRED_EXPIRED,
        PamReturnCode::ACCT_EXPIRED,
        PamReturnCode::CRED_INSUFFICIENT,
        PamReturnCode::USER_UNKNOWN,
        PamReturnCode::PERM_DENIED,
        PamReturnCode::SERVICE_ERR,
    ] {
        assert!(matches!(PamError::from_rc("authenticate", rc), PamError::AuthError(_)));
    }
    assert!(matches!(
        PamError::from_rc("setcred", PamReturnCode::SYSTEM_ERR),
        PamError::Error(_)
    ));
}

#[test]
fn error_messages_carry_prefix_and_code_name() {
    assert_eq!(code_name(PamReturnCode::AUTH_ERR), "AUTH_ERR");
    let e = PamError::from_rc("authenticate", PamReturnCode::AUTH_ERR);
    assert_eq!(e.message(), "authenticate: AUTH_ERR");
    let e = PamError::from_rc("authenticate", PamReturnCode::ABORT);
    assert_eq!(e.message(), "abort error: authenticate: ABORT");
    let e = PamError::from_rc("setcred", PamReturnCode::BUF_ERR);
    assert_eq!(e.message(), "setcred: BUF_ERR");
}

#[test]
fn password_is_surrendered_exactly_once() {
    let mut conv = PasswordConv::new(String::from("hunter2"));
    assert_eq!(conv.prompt_echo(), "");
    assert_eq!(conv.prompt_blind(), "hunter2");
    assert_eq!(conv.prompt_blind(), "");
    assert_eq!(conv.prompt_echo(), "");
}

#[test]
fn only_success_unlocks() {
    assert!(matches!(auth_outcome(AuthAttempt::Success), AuthOutcome::Unlock));
    match auth_outcome(AuthAttempt::NoUsername) {
        AuthOutcome::PasswordError(m) => assert_eq!(m, "username not available"),
        AuthOutcome::Unlock => panic!("no username must not unlock"),
    }
    match auth_outcome(AuthAttempt::StartFailed) {
        AuthOutcome::PasswordError(m) => assert_eq!(m, "failed to start pam session"),
        AuthOutcome::Unlock => panic!("a failed start must not unlock"),
    }
}

#[test]
fn three_failures_leave_the_session_locked() {
    let mut s = LockSession::new(vec![]);
    s.begin_lock(true);
    s.apply_event(LockEvent::LockConfirmed);
    s.apply_event(LockEvent::OutputAdded { id: 1, name: String::from("eDP-1") });

    for _ in 0..3 {
        let attempt = AuthAttempt::AuthFailed(PamError::from_rc(
            "authenticate",
            PamReturnCode::AUTH_ERR,
        ));
        // Each failed attempt yields exactly one password error for the
        // originating surface, and no unlock signal.
        match auth_outcome(attempt) {
            AuthOutcome::PasswordError(m) => assert_eq!(m, "authenticate: AUTH_ERR"),
            AuthOutcome::Unlock => panic!("a failed attempt must not unlock"),
        }
        assert_eq!(s.state, SessionState::Locked);
    }
    assert_eq!(s.state, SessionState::Locked);
    assert!(s.has_lock);
}
