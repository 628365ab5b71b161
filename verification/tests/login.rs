use app_iced::bridge::{Request, UiMessage};
use app_iced::login::{LoginAction, LoginCall, LoginFlow, PasswordOutcome, SignInOutcome};

fn error_text(m: &UiMessage) -> &str {
    match m {
        UiMessage::Error(e) => e.as_str(),
        other => panic!("not an error: {other:?}"),
    }
}

#[test]
fn phone_needs_the_api_hash() {
    let mut f = LoginFlow::new();
    match f.on_request(Request::LoginPhone { phone: "+33".into() }, None) {
        LoginAction::Reply(m) => assert_eq!(error_text(&m), "API_HASH is missing — rebuild with TG_API_HASH or add it to .env"),
        other => panic!("unexpected {other:?}"),
    }
    match f.on_request(Request::LoginPhone { phone: "+33".into() }, Some("h".into())) {
        LoginAction::Call(c) => assert_eq!(c, LoginCall::RequestCode { hash: "h".into(), phone: "+33".into() }),
        other => panic!("unexpected {other:?}"),
    }
}

#[test]
fn code_before_any_request_is_refused() {
    let mut f = LoginFlow::new();
    match f.on_request(Request::LoginCode { code: "1".into() }, None) {
        LoginAction::Reply(m) => assert_eq!(error_text(&m), "No code request in progress — enter your phone again"),
        other => panic!("unexpected {other:?}"),
    }
    let m = f.code_requested(Err("flood".into()));
    assert_eq!(error_text(&m), "Could not send the code: flood");
    assert!(!f.code_token);
}

#[test]
fn code_then_password_signs_in() {
    let mut f = LoginFlow::new();
    assert!(matches!(f.code_requested(Ok(())), UiMessage::LoginCodeRequired));
    assert!(matches!(f.on_request(Request::LoginCode { code: "12345".into() }, None), LoginAction::Call(LoginCall::SignIn { .. })));
    let (m, done) = f.signed_in(SignInOutcome::InvalidCode);
    assert_eq!(error_text(&m), "Invalid code, try again");
    assert!(!done && f.code_token, "the code token stays for another attempt");
    let (m, done) = f.signed_in(SignInOutcome::PasswordRequired { hint: "pet".into() });
    assert!(matches!(m, UiMessage::LoginPasswordRequired { ref hint } if hint == "pet"));
    assert!(!done && f.password_token);
    assert!(matches!(f.on_request(Request::LoginPassword { password: "x".into() }, None), LoginAction::Call(LoginCall::CheckPassword { .. })));
    assert!(!f.password_token, "a check uses the token up");
    assert!(matches!(f.on_request(Request::LoginPassword { password: "y".into() }, None), LoginAction::Ignore));
    let (m, done) = f.password_checked(PasswordOutcome::Wrong);
    assert_eq!(error_text(&m), "Wrong password, try again");
    assert!(!done && f.password_token);
    f.on_request(Request::LoginPassword { password: "z".into() }, None);
    let (m, done) = f.password_checked(PasswordOutcome::Accepted);
    assert!(done && matches!(m, UiMessage::LoginOk { ref name } if name.is_empty()));
}

#[test]
fn sign_in_failures_are_reported() {
    let mut f = LoginFlow::new();
    f.code_requested(Ok(()));
    let (m, _) = f.signed_in(SignInOutcome::SignUpRequired);
    assert_eq!(error_text(&m), "This number is not registered. Sign up in the official Telegram app first (free)");
    let (m, _) = f.signed_in(SignInOutcome::Failed("timeout".into()));
    assert_eq!(error_text(&m), "Sign in failed: timeout");
    let (m, done) = f.signed_in(SignInOutcome::SignedIn);
    assert!(done && matches!(m, UiMessage::LoginOk { .. }));
    let (m, _) = f.password_checked(PasswordOutcome::Failed("srp".into()));
    assert_eq!(error_text(&m), "2FA failed: srp");
}

#[test]
fn other_requests_are_not_the_sign_in() {
    let mut f = LoginFlow::new();
    assert!(matches!(f.on_request(Request::GetMe, Some("h".into())), LoginAction::Ignore));
}
