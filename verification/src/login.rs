//! The network side of the phone sign-in: which Telegram call each
//! sign-in request leads to, given the tokens the earlier calls left, and
//! what the interface is told of each call's outcome.

use vstd::prelude::*;
use crate::bridge::{Request, UiMessage};

verus! {

/// The tokens the sign-in calls left so far: a code was sent (its token
/// stays for further attempts), and a password is awaited (its token is
/// used up by one check).
#[derive(Debug, Clone, Copy, PartialEq, Eq, Structural)]
pub struct LoginFlow {
    pub code_token: bool,
    pub password_token: bool,
}

/// A Telegram sign-in call to make.
#[derive(Debug, Clone, PartialEq, Eq)]
pub enum LoginCall {
    /// Ask for a code for `phone`, with the application's API hash.
    RequestCode { hash: String, phone: String },
    /// Submit the received code with the code token.
    SignIn { code: String },
    /// Check the account password with the password token.
    CheckPassword { password: String },
}

/// What a sign-in request leads to.
#[derive(Debug, Clone)]
pub enum LoginAction {
    /// Make the call, then report its outcome.
    Call(LoginCall),
    /// Tell the interface this, without a call.
    Reply(UiMessage),
    /// Nothing to do.
    Ignore,
}

/// How submitting a code ended.
#[derive(Debug, Clone, PartialEq, Eq)]
pub enum SignInOutcome {
    SignedIn,
    /// The account has a password; `hint` is its hint (possibly empty).
    PasswordRequired { hint: String },
    InvalidCode,
    /// The number has no account.
    SignUpRequired,
    /// Any other failure, by its message.
    Failed(String),
}

/// How a password check ended.
#[derive(Debug, Clone, PartialEq, Eq)]
pub enum PasswordOutcome {
    /// Signed in.
    Accepted,
    /// Wrong password; a new password token came back.
    Wrong,
    /// Any other failure, by its message.
    Failed(String),
}

/// The message of a sign-in error shown to the user.
pub open spec fn error_is(m: UiMessage, text: Seq<char>) -> bool {
    m matches UiMessage::Error(e) && e@ == text
}

/// `a` followed by `b`, as a `String`.
fn concat(a: &str, b: &str) -> (s: String)
    ensures
        s@ == a@ + b@,
{
    let mut cs = crate::text::chars_of(a);
    crate::text::push_str(&mut cs, b);
    crate::text::string_from_chars(&cs)
}

impl LoginFlow {
    /// No call made yet.
    pub fn new() -> (f: LoginFlow)
        ensures
            !f.code_token && !f.password_token,
    {
        LoginFlow { code_token: false, password_token: false }
    }

    /// A sign-in request arrived. A phone number asks for a code (the API
    /// hash is needed); a code is submitted once a code was sent; a
    /// password is checked once one is awaited, using up its token. Other
    /// requests are not the sign-in's.
    pub fn on_request(&mut self, req: Request, api_hash: Option<String>) -> (a: LoginAction)
        ensures
            match req {
                Request::LoginPhone { phone } => *final(self) == *old(self) && match api_hash {
                    None => a matches LoginAction::Reply(m) && error_is(
                        m,
                        "API_HASH is missing — rebuild with TG_API_HASH or add it to .env"@,
                    ),
                    Some(h) => a == LoginAction::Call(LoginCall::RequestCode { hash: h, phone }),
                },
                Request::LoginCode { code } => *final(self) == *old(self) && if old(self).code_token {
                    a == LoginAction::Call(LoginCall::SignIn { code })
                } else {
                    a matches LoginAction::Reply(m) && error_is(m, "No code request in progress — enter your phone again"@)
                },
                Request::LoginPassword { password } => if old(self).password_token {
                    &&& a == LoginAction::Call(LoginCall::CheckPassword { password })
                    &&& *final(self) == (LoginFlow { password_token: false, ..*old(self) })
                } else {
                    a == LoginAction::Ignore && *final(self) == *old(self)
                },
                _ => a == LoginAction::Ignore && *final(self) == *old(self),
            },
    {
        match req {
            Request::LoginPhone { phone } => match api_hash {
                None => LoginAction::Reply(
                    UiMessage::Error(String::from_str("API_HASH is missing — rebuild with TG_API_HASH or add it to .env")),
                ),
                Some(h) => LoginAction::Call(LoginCall::RequestCode { hash: h, phone }),
            },
            Request::LoginCode { code } => if self.code_token {
                LoginAction::Call(LoginCall::SignIn { code })
            } else {
                LoginAction::Reply(
                    UiMessage::Error(String::from_str("No code request in progress — enter your phone again")),
                )
            },
            Request::LoginPassword { password } => if self.password_token {
                self.password_token = false;
                LoginAction::Call(LoginCall::CheckPassword { password })
            } else {
                LoginAction::Ignore
            },
            _ => LoginAction::Ignore,
        }
    }

    /// The code request ended (`Err` carries the failure's message): a
    /// sent code makes a code token (and drops any awaited password) and
    /// asks for the code.
    pub fn code_requested(&mut self, outcome: Result<(), String>) -> (m: UiMessage)
        ensures
            match outcome {
                Ok(_) => m == UiMessage::LoginCodeRequired && *final(self) == (LoginFlow {
                    code_token: true,
                    password_token: false,
                }),
                Err(e) => error_is(m, "Could not send the code: "@ + e@) && *final(self) == *old(self),
            },
    {
        match outcome {
            Ok(_) => {
                self.code_token = true;
                self.password_token = false;
                UiMessage::LoginCodeRequired
            },
            Err(e) => UiMessage::Error(concat("Could not send the code: ", e.as_str())),
        }
    }

    /// A code was submitted. Returns the message for the interface and
    /// whether the sign-in is over (signed in). A password request makes a
    /// password token.
    pub fn signed_in(&mut self, outcome: SignInOutcome) -> (r: (UiMessage, bool))
        ensures
            r.1 == (outcome == SignInOutcome::SignedIn),
            match outcome {
                SignInOutcome::SignedIn => r.0 matches UiMessage::LoginOk { name } && name@.len() == 0
                    && *final(self) == *old(self),
                SignInOutcome::PasswordRequired { hint } => r.0 == (UiMessage::LoginPasswordRequired { hint })
                    && *final(self) == (LoginFlow { password_token: true, ..*old(self) }),
                SignInOutcome::InvalidCode => error_is(r.0, "Invalid code, try again"@) && *final(self) == *old(self),
                SignInOutcome::SignUpRequired => error_is(
                    r.0,
                    "This number is not registered. Sign up in the official Telegram app first (free)"@,
                ) && *final(self) == *old(self),
                SignInOutcome::Failed(e) => error_is(r.0, "Sign in failed: "@ + e@) && *final(self) == *old(self),
            },
    {
        match outcome {
            SignInOutcome::SignedIn => (UiMessage::LoginOk { name: String::new() }, true),
            SignInOutcome::PasswordRequired { hint } => {
                self.password_token = true;
                (UiMessage::LoginPasswordRequired { hint }, false)
            },
            SignInOutcome::InvalidCode => (UiMessage::Error(String::from_str("Invalid code, try again")), false),
            SignInOutcome::SignUpRequired => (
                UiMessage::Error(
                    String::from_str(
                        "This number is not registered. Sign up in the official Telegram app first (free)",
                    ),
                ),
                false,
            ),
            SignInOutcome::Failed(e) => (UiMessage::Error(concat("Sign in failed: ", e.as_str())), false),
        }
    }

    /// A password was checked. Returns the message for the interface and
    /// whether the sign-in is over. A wrong password gives a new password
    /// token; another failure leaves none.
    pub fn password_checked(&mut self, outcome: PasswordOutcome) -> (r: (UiMessage, bool))
        ensures
            r.1 == (outcome == PasswordOutcome::Accepted),
            match outcome {
                PasswordOutcome::Accepted => r.0 matches UiMessage::LoginOk { name } && name@.len() == 0
                    && *final(self) == *old(self),
                PasswordOutcome::Wrong => error_is(r.0, "Wrong password, try again"@)
                    && *final(self) == (LoginFlow { password_token: true, ..*old(self) }),
                PasswordOutcome::Failed(e) => error_is(r.0, "2FA failed: "@ + e@) && *final(self) == *old(self),
            },
    {
        match outcome {
            PasswordOutcome::Accepted => (UiMessage::LoginOk { name: String::new() }, true),
            PasswordOutcome::Wrong => {
                self.password_token = true;
                (UiMessage::Error(String::from_str("Wrong password, try again")), false)
            },
            PasswordOutcome::Failed(e) => (UiMessage::Error(concat("2FA failed: ", e.as_str())), false),
        }
    }
}

} // verus!
