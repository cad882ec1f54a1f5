//! Logging in through the browser: the loopback callback's address and
//! answer, and the decisions of the login sequence. The caller binds the
//! listener, talks to the service, opens the browser and waits for the one
//! callback connection; `step` decides what comes next after each event.
use vstd::prelude::*;
use crate::config::{Config, ConfigKey, update};
use crate::facade::{PocketError, PocketUser};
use crate::text::opt_view;

verus! {

/// The `auth` subcommand.
#[derive(Clone, Copy, Debug, PartialEq, Eq, Structural)]
pub enum Auth {
    /// Logs in; with `save`, the access token is stored in the configuration.
    Login { save: bool },
}

/// The account a login was granted for, as printed.
#[derive(Debug, Clone, PartialEq, Eq)]
pub struct User {
    pub access_token: String,
    pub username: String,
}

/// The account as printed: the token and the user's name.
pub open spec fn user_of(u: PocketUser) -> User {
    User { access_token: u.access_token, username: u.username }
}

impl From<PocketUser> for User {
    fn from(u: PocketUser) -> User {
        User { access_token: u.access_token, username: u.username }
    }
}

impl vstd::std_specs::convert::FromSpecImpl<PocketUser> for User {
    open spec fn obeys_from_spec() -> bool {
        true
    }

    open spec fn from_spec(u: PocketUser) -> User {
        user_of(u)
    }
}

/// The most bytes of the callback request that are read; its content is
/// never looked at.
pub const CALLBACK_READ_LIMIT: usize = 512;

/// The host the callback listener is bound on.
pub const LOOPBACK_HOST: &'static str = "127.0.0.1";

/// The status line and header end of the callback's answer.
pub const HTTP_OK_HEAD: &'static str = "HTTP/1.1 200 OK\r\n\r\n";

/// The page shown in the browser once the login went through.
pub const AUTH_SUCCESS_RESPONSE_BODY: &'static str = r#"
    <!DOCTYPE html>
    <html lang="en">
        <head>
            <meta charset="utf-8">
            <title>Pocket CLI</title>
        </head>
        <body>
            <h1>Success!</h1>
            <p>You have successfully authorized Pocket CLI.</p>
            <p>Close this window and return to Pocket CLI in your terminal.</p>
        </body>
    </html>
"#;

/// The answer to the callback connection: a minimal successful HTTP
/// response with a static confirmation page.
pub fn callback_response() -> (r: String)
    ensures
        r@ == HTTP_OK_HEAD@ + AUTH_SUCCESS_RESPONSE_BODY@,
{
    let mut r = String::from_str(HTTP_OK_HEAD);
    r.append(AUTH_SUCCESS_RESPONSE_BODY);
    r
}

/// The character of a decimal digit.
pub open spec fn digit_char(d: nat) -> char {
    if d == 0 { '0' }
    else if d == 1 { '1' }
    else if d == 2 { '2' }
    else if d == 3 { '3' }
    else if d == 4 { '4' }
    else if d == 5 { '5' }
    else if d == 6 { '6' }
    else if d == 7 { '7' }
    else if d == 8 { '8' }
    else { '9' }
}

/// The decimal digits of `n`, without leading zeros.
pub open spec fn decimal(n: nat) -> Seq<char>
    decreases n,
{
    if n < 10 {
        seq![digit_char(n)]
    } else {
        decimal(n / 10) + seq![digit_char(n % 10)]
    }
}

fn digit(d: u16) -> (r: &'static str)
    requires
        d < 10,
    ensures
        r@ == seq![digit_char(d as nat)],
{
    proof {
        reveal_strlit("0");
        reveal_strlit("1");
        reveal_strlit("2");
        reveal_strlit("3");
        reveal_strlit("4");
        reveal_strlit("5");
        reveal_strlit("6");
        reveal_strlit("7");
        reveal_strlit("8");
        reveal_strlit("9");
    }
    if d == 0 { "0" }
    else if d == 1 { "1" }
    else if d == 2 { "2" }
    else if d == 3 { "3" }
    else if d == 4 { "4" }
    else if d == 5 { "5" }
    else if d == 6 { "6" }
    else if d == 7 { "7" }
    else if d == 8 { "8" }
    else { "9" }
}

/// `n` written in decimal.
pub fn decimal_text(n: u16) -> (r: String)
    ensures
        r@ == decimal(n as nat),
{
    let mut r = String::from_str(digit(n % 10));
    let mut m: u16 = n / 10;
    while m > 0
        invariant
            m == 0 ==> r@ == decimal(n as nat),
            m > 0 ==> decimal(n as nat) == decimal(m as nat) + r@,
        decreases m,
    {
        let d = String::from_str(digit(m % 10));
        proof {
            assert(decimal(m as nat) == decimal((m / 10) as nat) + seq![digit_char((m % 10) as nat)]
                || m < 10);
        }
        r = d.concat(r.as_str());
        m = m / 10;
    }
    r
}

/// The address the service redirects the browser to once the user has
/// agreed: the loopback listener on `port`.
pub fn callback_url(port: u16) -> (r: String)
    ensures
        r@ == "http://"@ + LOOPBACK_HOST@ + ":"@ + decimal(port as nat),
{
    let mut r = String::from_str("http://");
    r.append(LOOPBACK_HOST);
    r.append(":");
    let p = decimal_text(port);
    r.append(p.as_str());
    r
}

/// Stores the access token of a login in the configuration.
pub fn store_token(cfg: &mut Config, user: &User)
    ensures
        final(cfg)@ == update(old(cfg)@, ConfigKey::AccessToken, Some(user.access_token@)),
{
    cfg.set(ConfigKey::AccessToken, Some(user.access_token.clone()));
}

impl User {
    /// A copy of the user.
    pub fn copy(&self) -> (r: User)
        ensures
            r == *self,
    {
        User { access_token: self.access_token.clone(), username: self.username.clone() }
    }
}

/// Why a login stopped.
#[derive(Debug, Clone, PartialEq, Eq)]
pub enum LoginError {
    /// The service refused or could not be reached.
    Service(PocketError),
    /// The browser could not be opened on the authorization page.
    Browser(String),
    /// An event came that the sequence does not expect where it stands.
    OutOfOrder,
}

/// Where the login sequence stands.
#[derive(Debug, Clone, PartialEq, Eq)]
pub enum LoginState {
    /// The loopback listener is being bound.
    Init,
    /// A request code is being asked for, with the callback address.
    RequestCode { callback: String },
    /// The user is asked to agree in the browser; the one callback
    /// connection is awaited.
    AwaitUserConsent { code: String },
    /// The request code is being exchanged for an access token.
    Exchange { code: String },
    /// The access token is being stored.
    Persist { user: User },
    /// The user is being printed.
    Emit { user: User },
    /// The login succeeded.
    Done,
    /// The login stopped on an error.
    Failed,
}

/// What the caller reports after carrying out an action.
#[derive(Debug, PartialEq, Eq)]
pub enum LoginEvent {
    /// The loopback listener is bound; its callback address.
    Bound(String),
    /// The service's answer to asking for a request code.
    CodeIssued(Result<String, PocketError>),
    /// The browser was opened on the authorization page and the one callback
    /// connection was answered; or the browser could not be opened.
    Consented(Result<(), String>),
    /// The service's answer to exchanging the request code.
    Authorized(Result<PocketUser, PocketError>),
    /// The access token was stored.
    Stored,
    /// The user was printed.
    Emitted,
}

/// What the caller is to do next.
#[derive(Debug, Clone, PartialEq, Eq)]
pub enum LoginAction {
    /// Ask the service for a request code, redirecting to `redirect_uri`.
    RequestCode { redirect_uri: String },
    /// Open the authorization page of `code` in the browser, then wait for
    /// exactly one callback connection and answer it.
    AwaitConsent { code: String },
    /// Exchange `code` for the user and access token.
    ExchangeCode { code: String },
    /// Store the user's access token in the configuration.
    StoreToken { user: User },
    /// Print the user.
    Emit { user: User },
    /// Nothing is left to do.
    Finish,
    /// Stop with an error.
    Abort(LoginError),
}

/// The login sequence, one event at a time: init, request code, await
/// consent, exchange, persist (only with `save`), emit. It never goes back,
/// and any failure ends it.
pub open spec fn next(state: LoginState, event: LoginEvent, save: bool) -> (LoginState, LoginAction) {
    match (state, event) {
        (LoginState::Init, LoginEvent::Bound(callback)) => (
            LoginState::RequestCode { callback },
            LoginAction::RequestCode { redirect_uri: callback },
        ),
        (LoginState::RequestCode { .. }, LoginEvent::CodeIssued(Ok(code))) => (
            LoginState::AwaitUserConsent { code },
            LoginAction::AwaitConsent { code },
        ),
        (LoginState::RequestCode { .. }, LoginEvent::CodeIssued(Err(e))) => (
            LoginState::Failed,
            LoginAction::Abort(LoginError::Service(e)),
        ),
        (LoginState::AwaitUserConsent { code }, LoginEvent::Consented(Ok(()))) => (
            LoginState::Exchange { code },
            LoginAction::ExchangeCode { code },
        ),
        (LoginState::AwaitUserConsent { .. }, LoginEvent::Consented(Err(m))) => (
            LoginState::Failed,
            LoginAction::Abort(LoginError::Browser(m)),
        ),
        (LoginState::Exchange { .. }, LoginEvent::Authorized(Ok(u))) => if save {
            (LoginState::Persist { user: user_of(u) }, LoginAction::StoreToken { user: user_of(u) })
        } else {
            (LoginState::Emit { user: user_of(u) }, LoginAction::Emit { user: user_of(u) })
        },
        (LoginState::Exchange { .. }, LoginEvent::Authorized(Err(e))) => (
            LoginState::Failed,
            LoginAction::Abort(LoginError::Service(e)),
        ),
        (LoginState::Persist { user }, LoginEvent::Stored) => (
            LoginState::Emit { user },
            LoginAction::Emit { user },
        ),
        (LoginState::Emit { .. }, LoginEvent::Emitted) => (LoginState::Done, LoginAction::Finish),
        _ => (LoginState::Failed, LoginAction::Abort(LoginError::OutOfOrder)),
    }
}

/// The state a login starts in: the caller binds the loopback listener and
/// reports `Bound`.
pub fn start() -> (r: LoginState)
    ensures
        r == LoginState::Init,
{
    LoginState::Init
}

/// Decides the next state and action of a login after `event`.
pub fn step(state: LoginState, event: LoginEvent, save: bool) -> (r: (LoginState, LoginAction))
    ensures
        r == next(state, event, save),
{
    match (state, event) {
        (LoginState::Init, LoginEvent::Bound(callback)) => {
            let redirect_uri = callback.clone();
            (LoginState::RequestCode { callback }, LoginAction::RequestCode { redirect_uri })
        },
        (LoginState::RequestCode { .. }, LoginEvent::CodeIssued(Ok(code))) => {
            let c = code.clone();
            (LoginState::AwaitUserConsent { code }, LoginAction::AwaitConsent { code: c })
        },
        (LoginState::RequestCode { .. }, LoginEvent::CodeIssued(Err(e))) => {
            (LoginState::Failed, LoginAction::Abort(LoginError::Service(e)))
        },
        (LoginState::AwaitUserConsent { code }, LoginEvent::Consented(Ok(()))) => {
            let c = code.clone();
            (LoginState::Exchange { code }, LoginAction::ExchangeCode { code: c })
        },
        (LoginState::AwaitUserConsent { .. }, LoginEvent::Consented(Err(m))) => {
            (LoginState::Failed, LoginAction::Abort(LoginError::Browser(m)))
        },
        (LoginState::Exchange { .. }, LoginEvent::Authorized(Ok(u))) => {
            let user = User::from(u);
            let shown = user.copy();
            if save {
                (LoginState::Persist { user }, LoginAction::StoreToken { user: shown })
            } else {
                (LoginState::Emit { user }, LoginAction::Emit { user: shown })
            }
        },
        (LoginState::Exchange { .. }, LoginEvent::Authorized(Err(e))) => {
            (LoginState::Failed, LoginAction::Abort(LoginError::Service(e)))
        },
        (LoginState::Persist { user }, LoginEvent::Stored) => {
            let shown = user.copy();
            (LoginState::Emit { user }, LoginAction::Emit { user: shown })
        },
        (LoginState::Emit { .. }, LoginEvent::Emitted) => (LoginState::Done, LoginAction::Finish),
        _ => (LoginState::Failed, LoginAction::Abort(LoginError::OutOfOrder)),
    }
}

/// A login in which every outside step succeeds runs straight through:
/// request code, await consent, exchange, store the token only with `save`,
/// print the user, finish.
pub proof fn lemma_login_runs_straight_through(callback: String, code: String, u: PocketUser, save: bool)
    ensures
        ({
            let (s1, a1) = next(LoginState::Init, LoginEvent::Bound(callback), save);
            let (s2, a2) = next(s1, LoginEvent::CodeIssued(Ok(code)), save);
            let (s3, a3) = next(s2, LoginEvent::Consented(Ok(())), save);
            let (s4, a4) = next(s3, LoginEvent::Authorized(Ok(u)), save);
            &&& a1 == LoginAction::RequestCode { redirect_uri: callback }
            &&& a2 == LoginAction::AwaitConsent { code }
            &&& a3 == LoginAction::ExchangeCode { code }
            &&& save ==> a4 == LoginAction::StoreToken { user: user_of(u) }
                && next(s4, LoginEvent::Stored, save) == (
                    LoginState::Emit { user: user_of(u) },
                    LoginAction::Emit { user: user_of(u) },
                )
                && next(LoginState::Emit { user: user_of(u) }, LoginEvent::Emitted, save) == (
                    LoginState::Done,
                    LoginAction::Finish,
                )
            &&& !save ==> a4 == LoginAction::Emit { user: user_of(u) }
                && next(s4, LoginEvent::Emitted, save) == (LoginState::Done, LoginAction::Finish)
        }),
{
}

/// The callback connection is awaited once: a callback reported anywhere but
/// where consent is awaited stops the login.
pub proof fn lemma_one_callback(state: LoginState, outcome: Result<(), String>, save: bool)
    requires
        !(state is AwaitUserConsent),
    ensures
        next(state, LoginEvent::Consented(outcome), save) == (
            LoginState::Failed,
            LoginAction::Abort(LoginError::OutOfOrder),
        ),
{
}

/// A failure of the service or the browser ends the login: no state leads
/// on from `Failed`.
pub proof fn lemma_failed_is_final(event: LoginEvent, save: bool)
    ensures
        next(LoginState::Failed, event, save).0 == LoginState::Failed,
{
}

} // verus!
