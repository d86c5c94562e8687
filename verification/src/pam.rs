//! PAM-style authentication outcomes.
//!
//! The orchestrator never decides whether a credential is valid; a blocking
//! worker performs the PAM conversation and reports back.  This module holds
//! the pure halves of that workflow: classifying a PAM return code into the
//! library's error taxonomy, the single-use password conversation state, and
//! the decision taken on a finished attempt — send the unlock signal on
//! success, emit exactly one password error to the originating surface
//! otherwise.

use vstd::prelude::*;

verus! {

/// A PAM return code, as the library reads it.  Variants are named exactly
/// as the PAM bindings report them, so rendered messages match.
#[allow(non_camel_case_types)]
#[derive(Clone, Copy, Debug, PartialEq, Eq, Structural)]
pub enum PamReturnCode {
    SUCCESS,
    OPEN_ERR,
    SYMBOL_ERR,
    SERVICE_ERR,
    SYSTEM_ERR,
    BUF_ERR,
    PERM_DENIED,
    AUTH_ERR,
    CRED_INSUFFICIENT,
    AUTHINFO_UNAVAIL,
    USER_UNKNOWN,
    MAXTRIES,
    NEW_AUTHTOK_REQD,
    ACCT_EXPIRED,
    SESSION_ERR,
    CRED_UNAVAIL,
    CRED_EXPIRED,
    CRED_ERR,
    NO_MODULE_DATA,
    CONV_ERR,
    AUTHTOK_ERR,
    AUTHTOK_RECOVERY_ERR,
    AUTHTOK_LOCK_BUSY,
    AUTHTOK_DISABLE_AGING,
    TRY_AGAIN,
    IGNORE,
    ABORT,
    AUTHTOK_EXPIRED,
    MODULE_UNKNOWN,
    BAD_ITEM,
    CONV_AGAIN,
    INCOMPLETE,
}

/// The name a return code is rendered under in error messages.
pub open spec fn spec_code_name(rc: PamReturnCode) -> Seq<char> {
    match rc {
        PamReturnCode::SUCCESS => "SUCCESS"@,
        PamReturnCode::OPEN_ERR => "OPEN_ERR"@,
        PamReturnCode::SYMBOL_ERR => "SYMBOL_ERR"@,
        PamReturnCode::SERVICE_ERR => "SERVICE_ERR"@,
        PamReturnCode::SYSTEM_ERR => "SYSTEM_ERR"@,
        PamReturnCode::BUF_ERR => "BUF_ERR"@,
        PamReturnCode::PERM_DENIED => "PERM_DENIED"@,
        PamReturnCode::AUTH_ERR => "AUTH_ERR"@,
        PamReturnCode::CRED_INSUFFICIENT => "CRED_INSUFFICIENT"@,
        PamReturnCode::AUTHINFO_UNAVAIL => "AUTHINFO_UNAVAIL"@,
        PamReturnCode::USER_UNKNOWN => "USER_UNKNOWN"@,
        PamReturnCode::MAXTRIES => "MAXTRIES"@,
        PamReturnCode::NEW_AUTHTOK_REQD => "NEW_AUTHTOK_REQD"@,
        PamReturnCode::ACCT_EXPIRED => "ACCT_EXPIRED"@,
        PamReturnCode::SESSION_ERR => "SESSION_ERR"@,
        PamReturnCode::CRED_UNAVAIL => "CRED_UNAVAIL"@,
        PamReturnCode::CRED_EXPIRED => "CRED_EXPIRED"@,
        PamReturnCode::CRED_ERR => "CRED_ERR"@,
        PamReturnCode::NO_MODULE_DATA => "NO_MODULE_DATA"@,
        PamReturnCode::CONV_ERR => "CONV_ERR"@,
        PamReturnCode::AUTHTOK_ERR => "AUTHTOK_ERR"@,
        PamReturnCode::AUTHTOK_RECOVERY_ERR => "AUTHTOK_RECOVERY_ERR"@,
        PamReturnCode::AUTHTOK_LOCK_BUSY => "AUTHTOK_LOCK_BUSY"@,
        PamReturnCode::AUTHTOK_DISABLE_AGING => "AUTHTOK_DISABLE_AGING"@,
        PamReturnCode::TRY_AGAIN => "TRY_AGAIN"@,
        PamReturnCode::IGNORE => "IGNORE"@,
        PamReturnCode::ABORT => "ABORT"@,
        PamReturnCode::AUTHTOK_EXPIRED => "AUTHTOK_EXPIRED"@,
        PamReturnCode::MODULE_UNKNOWN => "MODULE_UNKNOWN"@,
        PamReturnCode::BAD_ITEM => "BAD_ITEM"@,
        PamReturnCode::CONV_AGAIN => "CONV_AGAIN"@,
        PamReturnCode::INCOMPLETE => "INCOMPLETE"@,
    }
}

/// Render the name of a return code.
pub fn code_name(rc: PamReturnCode) -> (r: &'static str)
    ensures
        r@ == spec_code_name(rc),
{
    match rc {
        PamReturnCode::SUCCESS => "SUCCESS",
        PamReturnCode::OPEN_ERR => "OPEN_ERR",
        PamReturnCode::SYMBOL_ERR => "SYMBOL_ERR",
        PamReturnCode::SERVICE_ERR => "SERVICE_ERR",
        PamReturnCode::SYSTEM_ERR => "SYSTEM_ERR",
        PamReturnCode::BUF_ERR => "BUF_ERR",
        PamReturnCode::PERM_DENIED => "PERM_DENIED",
        PamReturnCode::AUTH_ERR => "AUTH_ERR",
        PamReturnCode::CRED_INSUFFICIENT => "CRED_INSUFFICIENT",
        PamReturnCode::AUTHINFO_UNAVAIL => "AUTHINFO_UNAVAIL",
        PamReturnCode::USER_UNKNOWN => "USER_UNKNOWN",
        PamReturnCode::MAXTRIES => "MAXTRIES",
        PamReturnCode::NEW_AUTHTOK_REQD => "NEW_AUTHTOK_REQD",
        PamReturnCode::ACCT_EXPIRED => "ACCT_EXPIRED",
        PamReturnCode::SESSION_ERR => "SESSION_ERR",
        PamReturnCode::CRED_UNAVAIL => "CRED_UNAVAIL",
        PamReturnCode::CRED_EXPIRED => "CRED_EXPIRED",
        PamReturnCode::CRED_ERR => "CRED_ERR",
        PamReturnCode::NO_MODULE_DATA => "NO_MODULE_DATA",
        PamReturnCode::CONV_ERR => "CONV_ERR",
        PamReturnCode::AUTHTOK_ERR => "AUTHTOK_ERR",
        PamReturnCode::AUTHTOK_RECOVERY_ERR => "AUTHTOK_RECOVERY_ERR",
        PamReturnCode::AUTHTOK_LOCK_BUSY => "AUTHTOK_LOCK_BUSY",
        PamReturnCode::AUTHTOK_DISABLE_AGING => "AUTHTOK_DISABLE_AGING",
        PamReturnCode::TRY_AGAIN => "TRY_AGAIN",
        PamReturnCode::IGNORE => "IGNORE",
        PamReturnCode::ABORT => "ABORT",
        PamReturnCode::AUTHTOK_EXPIRED => "AUTHTOK_EXPIRED",
        PamReturnCode::MODULE_UNKNOWN => "MODULE_UNKNOWN",
        PamReturnCode::BAD_ITEM => "BAD_ITEM",
        PamReturnCode::CONV_AGAIN => "CONV_AGAIN",
        PamReturnCode::INCOMPLETE => "INCOMPLETE",
    }
}

/// Return codes classified as authentication failures (as opposed to
/// internal errors or an abort).
pub open spec fn is_auth_code(rc: PamReturnCode) -> bool {
    ||| rc is AUTH_ERR
    ||| rc is MAXTRIES
    ||| rc is CRED_EXPIRED
    ||| rc is ACCT_EXPIRED
    ||| rc is CRED_INSUFFICIENT
    ||| rc is USER_UNKNOWN
    ||| rc is PERM_DENIED
    ||| rc is SERVICE_ERR
}

/// Error taxonomy of the authentication workflow.
#[derive(Clone, Debug, PartialEq, Eq)]
pub enum PamError {
    /// An internal error outside the authentication outcome proper.
    Error(String),
    /// The credential check itself failed.
    AuthError(String),
    /// PAM aborted the transaction.
    AbortError(String),
}

/// The user-facing rendering of an error.
pub open spec fn spec_message(e: PamError) -> Seq<char> {
    match e {
        PamError::Error(s) => s@,
        PamError::AuthError(s) => s@,
        PamError::AbortError(s) => "abort error: "@ + s@,
    }
}

impl PamError {
    /// Classify a PAM return code under the error taxonomy, carrying a
    /// `prefix: CODE_NAME` detail string.
    pub fn from_rc(prefix: &str, rc: PamReturnCode) -> (e: PamError)
        ensures
            ({
                let detail = prefix@ + ": "@ + spec_code_name(rc);
                if rc is ABORT {
                    e is AbortError && spec_message(e) == "abort error: "@ + detail
                } else if is_auth_code(rc) {
                    e is AuthError && spec_message(e) == detail
                } else {
                    e is Error && spec_message(e) == detail
                }
            }),
    {
        let detail = String::from_str(prefix).concat(": ").concat(code_name(rc));
        match rc {
            PamReturnCode::ABORT => PamError::AbortError(detail),
            PamReturnCode::AUTH_ERR
            | PamReturnCode::MAXTRIES
            | PamReturnCode::CRED_EXPIRED
            | PamReturnCode::ACCT_EXPIRED
            | PamReturnCode::CRED_INSUFFICIENT
            | PamReturnCode::USER_UNKNOWN
            | PamReturnCode::PERM_DENIED
            | PamReturnCode::SERVICE_ERR => PamError::AuthError(detail),
            _ => PamError::Error(detail),
        }
    }

    /// The user-facing message for this error.
    pub fn message(&self) -> (r: String)
        ensures
            r@ == spec_message(*self),
    {
        match self {
            PamError::Error(s) => s.clone(),
            PamError::AuthError(s) => s.clone(),
            PamError::AbortError(s) => String::from_str("abort error: ").concat(s.as_str()),
        }
    }
}

/// Conversation state handing a password to the authentication backend
/// exactly once: the secret is surrendered on the first blind prompt and
/// gone afterwards.
pub struct PasswordConv {
    /// The password still to be surrendered, if any.
    pub password: Option<String>,
}

impl PasswordConv {
    /// A conversation primed with one password.
    pub fn new(password: String) -> (c: Self)
        ensures
            c.password == Some(password),
    {
        PasswordConv { password: Some(password) }
    }

    /// An echoing prompt never reveals the secret: the answer is empty.
    pub fn prompt_echo(&self) -> (r: String)
        ensures
            r@ == Seq::<char>::empty(),
    {
        String::new()
    }

    /// A blind prompt surrenders the password on first use and an empty
    /// string on every later one.
    pub fn prompt_blind(&mut self) -> (r: String)
        ensures
            final(self).password is None,
            match old(self).password {
                Some(p) => r == p,
                None => r@ == Seq::<char>::empty(),
            },
    {
        let held = self.password.take();
        match held {
            Some(p) => p,
            None => String::new(),
        }
    }
}

/// A finished authentication attempt, as the worker reports it.
pub enum AuthAttempt {
    /// The current username could not be determined.
    NoUsername,
    /// The PAM session could not be started.
    StartFailed,
    /// The credential check failed.
    AuthFailed(PamError),
    /// Refreshing credentials after a successful check failed.
    CredFailed(PamError),
    /// The credential check and the credential refresh both succeeded.
    Success,
}

/// What the command layer does with a finished attempt.
pub enum AuthOutcome {
    /// Send the unlock signal into the orchestrator's unlock channel.
    Unlock,
    /// Emit exactly this password error to the originating surface only.
    PasswordError(String),
}

/// Decide the consequence of a finished authentication attempt: only a
/// fully successful attempt sends the unlock signal; every failed attempt
/// yields exactly one password error for the surface that submitted the
/// password, and nothing else.
pub fn auth_outcome(attempt: AuthAttempt) -> (r: AuthOutcome)
    ensures
        attempt is Success <==> r is Unlock,
        match attempt {
            AuthAttempt::NoUsername => match r {
                AuthOutcome::PasswordError(m) => m@ == "username not available"@,
                _ => false,
            },
            AuthAttempt::StartFailed => match r {
                AuthOutcome::PasswordError(m) => m@ == "failed to start pam session"@,
                _ => false,
            },
            AuthAttempt::AuthFailed(e) => match r {
                AuthOutcome::PasswordError(m) => m@ == spec_message(e),
                _ => false,
            },
            AuthAttempt::CredFailed(e) => match r {
                AuthOutcome::PasswordError(m) => m@ == spec_message(e),
                _ => false,
            },
            AuthAttempt::Success => r is Unlock,
        },
{
    match attempt {
        AuthAttempt::NoUsername => AuthOutcome::PasswordError(
            String::from_str("username not available"),
        ),
        AuthAttempt::StartFailed => AuthOutcome::PasswordError(
            String::from_str("failed to start pam session"),
        ),
        AuthAttempt::AuthFailed(e) => AuthOutcome::PasswordError(e.message()),
        AuthAttempt::CredFailed(e) => AuthOutcome::PasswordError(e.message()),
        AuthAttempt::Success => AuthOutcome::Unlock,
    }
}

} // verus!
