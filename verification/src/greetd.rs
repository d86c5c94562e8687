//! Greeter login sequence.
//!
//! Logging a user in over the greetd socket is a fixed three-step exchange:
//! create a session for the user, answer the password prompt, then start
//! the session command.  The socket I/O lives in the surrounding program;
//! this module owns the protocol decisions — which request each step sends
//! and how each reply is judged — as pure functions over plain values.

use vstd::prelude::*;

verus! {

/// The step of the login sequence about to be performed.
#[derive(Clone, Copy, Debug, PartialEq, Eq, Structural)]
pub enum GreetdStage {
    /// Create a session for the configured user.
    CreateSession,
    /// Answer the authentication prompt with the password.
    PostAuth,
    /// Start the session command.
    StartSession,
}

/// A request written to the greetd socket.
#[derive(Debug, Clone, PartialEq, Eq)]
pub enum GreetdRequest {
    CreateSession { username: String },
    PostAuthMessageResponse { response: Option<String> },
    StartSession { cmd: Vec<String>, env: Vec<String> },
}

/// How greetd classifies an error reply.
#[derive(Clone, Copy, Debug, PartialEq, Eq, Structural)]
pub enum GreetdErrorType {
    /// A general error.
    Error,
    /// The credential check failed.
    AuthError,
}

/// A reply read from the greetd socket, reduced to plain values.
#[derive(Debug, Clone, PartialEq, Eq)]
pub enum GreetdResponse {
    Success,
    AuthMessage,
    Error { error_type: GreetdErrorType, description: String },
}

/// What the login sequence does next after a reply.
#[derive(Debug, Clone, PartialEq, Eq)]
pub enum GreetdStep {
    /// Proceed to this stage.
    Proceed(GreetdStage),
    /// The session command is running; the login succeeded.
    Done,
}

/// The name an error type is rendered under.
pub open spec fn spec_error_type_name(t: GreetdErrorType) -> Seq<char> {
    match t {
        GreetdErrorType::Error => "Error"@,
        GreetdErrorType::AuthError => "AuthError"@,
    }
}

fn error_type_name(t: GreetdErrorType) -> (r: &'static str)
    ensures
        r@ == spec_error_type_name(t),
{
    match t {
        GreetdErrorType::Error => "Error",
        GreetdErrorType::AuthError => "AuthError",
    }
}

/// The message reported for an error reply.
pub open spec fn spec_auth_error_message(t: GreetdErrorType, description: Seq<char>) -> Seq<char> {
    "auth error: "@ + spec_error_type_name(t) + ": "@ + description
}

/// The request sent at each stage of the login sequence: the session is
/// created for `username`, the prompt is answered with `password`, and the
/// started command is the placeholder the greeter currently runs.
pub fn request_for(stage: GreetdStage, username: &str, password: &str) -> (r: GreetdRequest)
    ensures
        match stage {
            GreetdStage::CreateSession => match r {
                GreetdRequest::CreateSession { username: u } => u@ == username@,
                _ => false,
            },
            GreetdStage::PostAuth => match r {
                GreetdRequest::PostAuthMessageResponse { response } => match response {
                    Some(p) => p@ == password@,
                    None => false,
                },
                _ => false,
            },
            GreetdStage::StartSession => match r {
                GreetdRequest::StartSession { cmd, env } => cmd@.len() == 2 && cmd@[0]@ == "echo"@
                    && cmd@[1]@ == "hello world"@ && env@.len() == 0,
                _ => false,
            },
        },
{
    match stage {
        GreetdStage::CreateSession => GreetdRequest::CreateSession {
            username: String::from_str(username),
        },
        GreetdStage::PostAuth => GreetdRequest::PostAuthMessageResponse {
            response: Some(String::from_str(password)),
        },
        GreetdStage::StartSession => {
            let mut cmd: Vec<String> = Vec::new();
            cmd.push(String::from_str("echo"));
            cmd.push(String::from_str("hello world"));
            GreetdRequest::StartSession { cmd, env: Vec::new() }
        },
    }
}

/// Judge the reply to one stage of the login sequence.
///
/// The first two stages accept either a plain success or an authentication
/// prompt; the final stage accepts only success, because a prompt after
/// the password has been answered means the exchange went wrong.  Every
/// error reply aborts the sequence with its rendered message.
pub fn advance(stage: GreetdStage, response: &GreetdResponse) -> (r: Result<GreetdStep, String>)
    ensures
        match response {
            GreetdResponse::Error { error_type, description } => match r {
                Err(m) => m@ == spec_auth_error_message(*error_type, description@),
                Ok(_) => false,
            },
            GreetdResponse::Success => match r {
                Ok(step) => step == (match stage {
                    GreetdStage::CreateSession => GreetdStep::Proceed(GreetdStage::PostAuth),
                    GreetdStage::PostAuth => GreetdStep::Proceed(GreetdStage::StartSession),
                    GreetdStage::StartSession => GreetdStep::Done,
                }),
                Err(_) => false,
            },
            GreetdResponse::AuthMessage => match stage {
                GreetdStage::CreateSession => r == Ok::<GreetdStep, String>(
                    GreetdStep::Proceed(GreetdStage::PostAuth),
                ),
                GreetdStage::PostAuth => r == Ok::<GreetdStep, String>(
                    GreetdStep::Proceed(GreetdStage::StartSession),
                ),
                GreetdStage::StartSession => match r {
                    Err(m) => m@ == "got auth message in start_session"@,
                    Ok(_) => false,
                },
            },
        },
{
    match response {
        GreetdResponse::Error { error_type, description } => {
            let m = String::from_str("auth error: ").concat(error_type_name(*error_type)).concat(
                ": ",
            ).concat(description.as_str());
            Err(m)
        },
        GreetdResponse::AuthMessage => match stage {
            GreetdStage::CreateSession => Ok(GreetdStep::Proceed(GreetdStage::PostAuth)),
            GreetdStage::PostAuth => Ok(GreetdStep::Proceed(GreetdStage::StartSession)),
            GreetdStage::StartSession => Err(String::from_str("got auth message in start_session")),
        },
        GreetdResponse::Success => match stage {
            GreetdStage::CreateSession => Ok(GreetdStep::Proceed(GreetdStage::PostAuth)),
            GreetdStage::PostAuth => Ok(GreetdStep::Proceed(GreetdStage::StartSession)),
            GreetdStage::StartSession => Ok(GreetdStep::Done),
        },
    }
}

} // verus!
