use dash2::greetd::{
    advance, request_for, GreetdErrorType, GreetdRequest, GreetdResponse, GreetdStage, GreetdStep,
};

#[test]
fn login_requests_follow_the_sequence() {
    match request_for(GreetdStage::CreateSession, "alice", "pw") {
        GreetdRequest::CreateSession { username } => assert_eq!(username, "alice"),
        other => panic!("unexpected request: {other:?}"),
    }
    match request_for(GreetdStage::PostAuth, "alice", "pw") {
        GreetdRequest::PostAuthMessageResponse { response } => {
            assert_eq!(response.as_deref(), Some("pw"));
        }
        other => panic!("unexpected request: {other:?}"),
    }
    match request_for(GreetdStage::StartSession, "alice", "pw") {
        GreetdRequest::StartSession { cmd, env } => {
            assert_eq!(cmd, vec![String::from("echo"), String::from("hello world")]);
            assert!(env.is_empty());
        }
        other => panic!("unexpected request: {other:?}"),
    }
}

#[test]
fn successful_replies_walk_to_done() {
    assert_eq!(
        advance(GreetdStage::CreateSession, &GreetdResponse::Success),
        Ok(GreetdStep::Proceed(GreetdStage::PostAuth))
    );
    assert_eq!(
        advance(GreetdStage::PostAuth, &GreetdResponse::AuthMessage),
        Ok(GreetdStep::Proceed(GreetdStage::StartSession))
    );
    assert_eq!(
        advance(GreetdStage::StartSession, &GreetdResponse::Success),
        Ok(GreetdStep::Done)
    );
}

#[test]
fn error_replies_abort_with_their_message() {
    let resp = GreetdResponse::Error {
        error_type: GreetdErrorType::AuthError,
        description: String::from("bad password"),
    };
    assert_eq!(
        advance(GreetdStage::PostAuth, &resp),
        Err(String::from("auth error: AuthError: bad password"))
    );
    assert_eq!(
        advance(GreetdStage::StartSession, &GreetdResponse::AuthMessage),
        Err(String::from("got auth message in start_session"))
    );
}
