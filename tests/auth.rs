use pocket_cli::auth::{
    callback_response, callback_url, decimal_text, start, step, store_token, LoginAction,
    LoginError, LoginEvent, LoginState, User, AUTH_SUCCESS_RESPONSE_BODY,
};
use pocket_cli::config::Config;
use pocket_cli::facade::{PocketError, PocketUser};

fn pocket_user() -> PocketUser {
    PocketUser {
        consumer_key: "".to_string(),
        access_token: "access_token".to_string(),
        username: "username".to_string(),
    }
}

#[test]
fn login_writes_user() {
    let username = "username";
    let access_token = "access_token";
    let url = "http://example.com/-";
    let code = "code";
    let expected_user = User { username: username.to_string(), access_token: access_token.to_string() };

    let (s, a) = step(start(), LoginEvent::Bound(url.to_string()), false);
    assert_eq!(a, LoginAction::RequestCode { redirect_uri: url.to_string() });
    let (s, a) = step(s, LoginEvent::CodeIssued(Ok(code.to_string())), false);
    assert_eq!(a, LoginAction::AwaitConsent { code: code.to_string() });
    let (s, a) = step(s, LoginEvent::Consented(Ok(())), false);
    assert_eq!(a, LoginAction::ExchangeCode { code: code.to_string() });
    let (s, a) = step(s, LoginEvent::Authorized(Ok(pocket_user())), false);
    assert_eq!(a, LoginAction::Emit { user: expected_user.clone() });
    let (s, a) = step(s, LoginEvent::Emitted, false);
    assert_eq!(a, LoginAction::Finish);
    assert_eq!(s, LoginState::Done);
}

#[test]
fn login_with_save_stores_token_first() {
    let (s, _) = step(LoginState::Exchange { code: "c".to_string() }, LoginEvent::Authorized(Ok(pocket_user())), true);
    let user = User { access_token: "access_token".to_string(), username: "username".to_string() };
    assert_eq!(s, LoginState::Persist { user: user.clone() });
    let (s, a) = step(s, LoginEvent::Stored, true);
    assert_eq!(a, LoginAction::Emit { user: user.clone() });
    assert_eq!(s, LoginState::Emit { user });
}

#[test]
fn login_failures_abort() {
    let (s, a) = step(LoginState::RequestCode { callback: "x".to_string() }, LoginEvent::CodeIssued(Err(PocketError::Proto(1, "no".to_string()))), false);
    assert_eq!(s, LoginState::Failed);
    assert_eq!(a, LoginAction::Abort(LoginError::Service(PocketError::Proto(1, "no".to_string()))));
    let (s, a) = step(LoginState::AwaitUserConsent { code: "c".to_string() }, LoginEvent::Consented(Err("no browser".to_string())), false);
    assert_eq!(s, LoginState::Failed);
    assert_eq!(a, LoginAction::Abort(LoginError::Browser("no browser".to_string())));
    let (s, _) = step(LoginState::Exchange { code: "c".to_string() }, LoginEvent::Authorized(Err(PocketError::Json("bad".to_string()))), false);
    assert_eq!(s, LoginState::Failed);
}

#[test]
fn second_callback_is_out_of_order() {
    let (s, a) = step(LoginState::Exchange { code: "c".to_string() }, LoginEvent::Consented(Ok(())), false);
    assert_eq!(s, LoginState::Failed);
    assert_eq!(a, LoginAction::Abort(LoginError::OutOfOrder));
}

#[test]
fn callback_address_is_loopback() {
    assert_eq!(callback_url(8080), "http://127.0.0.1:8080");
    assert_eq!(callback_url(0), "http://127.0.0.1:0");
    assert_eq!(callback_url(65535), "http://127.0.0.1:65535");
    assert_eq!(decimal_text(100), "100");
    assert_eq!(decimal_text(7), "7");
}

#[test]
fn callback_answer_is_ok_page() {
    let r = callback_response();
    assert!(r.starts_with("HTTP/1.1 200 OK\r\n\r\n"));
    assert!(r.ends_with(AUTH_SUCCESS_RESPONSE_BODY));
    assert!(r.contains("<h1>Success!</h1>"));
}

#[test]
fn store_token_sets_access_token_only() {
    let mut cfg = Config { consumer_key: Some("k".to_string()), access_token: None };
    store_token(&mut cfg, &User { access_token: "t".to_string(), username: "u".to_string() });
    assert_eq!(cfg, Config { consumer_key: Some("k".to_string()), access_token: Some("t".to_string()) });
}
