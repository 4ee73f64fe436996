//! The lifecycle of the access token: the login exchange, the token's
//! validity and its renewal.

use vstd::prelude::*;
use crate::text::{same_text, split_once, text_split_once};
use crate::timetable::util::outcome;

verus! {

/// How long a token is valid after it was issued, in milliseconds.
pub const TOKEN_LIFETIME: u64 = 300000;

/// The name of the cookie that carries the access token.
pub const AUTH_COOKIE: &'static str = "BakaAuth";

/// The status of the portal's answer to a login that succeeded.
pub const LOGIN_STATUS: u16 = 302;

/// A token that expires at a given time. Times are milliseconds on a clock
/// that never runs backwards.
#[derive(Debug, PartialEq, Eq, Hash)]
pub struct TempToken {
    pub token: String,
    pub expiration: u64,
}

/// The mathematical value of a [`TempToken`].
pub struct TempTokenView {
    pub token: Seq<char>,
    pub expiration: int,
}

impl TempTokenView {
    /// Whether the token is still valid at the time `now`.
    pub open spec fn valid_at(self, now: int) -> bool {
        now < self.expiration
    }
}

impl View for TempToken {
    type V = TempTokenView;

    open spec fn view(&self) -> TempTokenView {
        TempTokenView { token: self.token@, expiration: self.expiration as int }
    }
}

impl TempToken {
    /// A token issued at the time `now`, valid for [`TOKEN_LIFETIME`].
    pub fn new(token: String, now: u64) -> (r: TempToken)
        requires
            now + TOKEN_LIFETIME <= u64::MAX,
        ensures
            r@ == (TempTokenView { token: token@, expiration: now + TOKEN_LIFETIME }),
    {
        TempToken { token, expiration: now + TOKEN_LIFETIME }
    }

    /// Whether the token has expired at the time `now`.
    pub fn expired(&self, now: u64) -> (r: bool)
        ensures
            r == !self@.valid_at(now as int),
    {
        now >= self.expiration
    }

    /// The token, if it has not expired at the time `now`.
    pub fn get(&self, now: u64) -> (r: Option<&str>)
        ensures
            match r {
                Some(token) => self@.valid_at(now as int) && token@ == self@.token,
                None => !self@.valid_at(now as int),
            },
    {
        if self.expired(now) {
            return None;
        }
        Some(self.token.as_str())
    }
}

/// Why a login failed.
#[derive(Debug, PartialEq, Eq)]
pub enum LoginError {
    /// The request did not get through; the transport's words.
    Request(String),
    /// The portal did not answer with a redirect (most likely the
    /// credentials are wrong); the status it answered with.
    Login(u16),
    /// The portal's redirect did not set the token's cookie.
    CookieParse,
}

/// The mathematical value of a [`LoginError`].
pub enum LoginErrorView {
    Request(Seq<char>),
    Login(int),
    CookieParse,
}

impl View for LoginError {
    type V = LoginErrorView;

    open spec fn view(&self) -> LoginErrorView {
        match self {
            LoginError::Request(message) => LoginErrorView::Request(message@),
            LoginError::Login(status) => LoginErrorView::Login(*status as int),
            LoginError::CookieParse => LoginErrorView::CookieParse,
        }
    }
}

impl LoginErrorView {
    /// The error in words.
    pub open spec fn message(self) -> Seq<char> {
        match self {
            LoginErrorView::Request(message) => message,
            LoginErrorView::Login(_) => "login failed"@,
            LoginErrorView::CookieParse => "failed to parse cookie"@,
        }
    }
}

impl LoginError {
    /// The error in words.
    pub fn message(&self) -> (r: String)
        ensures
            r@ == self@.message(),
    {
        match self {
            LoginError::Request(message) => message.clone(),
            LoginError::Login(_) => String::from_str("login failed"),
            LoginError::CookieParse => String::from_str("failed to parse cookie"),
        }
    }
}

/// The body of the login request: the form fields `username` and `password`.
pub open spec fn login_form(username: Seq<char>, password: Seq<char>) -> Seq<char> {
    "username="@ + username + "&password="@ + password
}

/// Writes the body of the login request.
pub fn login_body(username: &str, password: &str) -> (body: String)
    ensures
        body@ == login_form(username@, password@),
{
    let mut body = String::from_str("username=");
    body.append(username);
    body.append("&password=");
    body.append(password);
    body
}

/// The value of the `Cookie` header that carries a token.
pub open spec fn cookie_of(token: Seq<char>) -> Seq<char> {
    AUTH_COOKIE@ + "="@ + token
}

/// Writes the value of the `Cookie` header that carries `token`.
pub fn cookie_header(token: &str) -> (cookie: String)
    ensures
        cookie@ == cookie_of(token@),
{
    let mut cookie = String::from_str(AUTH_COOKIE);
    cookie.append("=");
    cookie.append(token);
    cookie
}

/// The name and value that a `Set-Cookie` header sets: what stands before
/// its first `;`, or the whole header where it has none, split at the first
/// `=`. A header without `=` there sets none, and so does one that is no
/// text.
pub open spec fn cookie_pair(header: Option<Seq<char>>) -> Option<(Seq<char>, Seq<char>)> {
    match header {
        None => None,
        Some(text) => match split_once(text, ";"@) {
            Some((pair, _)) => split_once(pair, "="@),
            None => split_once(text, "="@),
        },
    }
}

/// The token that the first of the `Set-Cookie` headers `cookies` to set the
/// token's cookie gives it.
pub open spec fn issued_token(cookies: Seq<Option<Seq<char>>>) -> Option<Seq<char>>
    decreases cookies.len(),
{
    if cookies.len() == 0 {
        None
    } else {
        match cookie_pair(cookies[0]) {
            Some((name, value)) if name == AUTH_COOKIE@ => Some(value),
            _ => issued_token(cookies.drop_first()),
        }
    }
}

/// What the portal's answer to a login request means: a redirect that sets
/// the token's cookie issues a token; a redirect without that cookie does not
/// parse; any other status is a failed login.
pub open spec fn login_outcome(status: int, cookies: Seq<Option<Seq<char>>>) -> Result<
    Seq<char>,
    LoginErrorView,
> {
    if status != LOGIN_STATUS {
        Err(LoginErrorView::Login(status))
    } else {
        match issued_token(cookies) {
            Some(token) => Ok(token),
            None => Err(LoginErrorView::CookieParse),
        }
    }
}

/// The name and value that a `Set-Cookie` header sets.
fn read_cookie<'a>(header: &'a Option<String>) -> (r: Option<(&'a str, &'a str)>)
    ensures
        match r {
            Some((name, value)) => cookie_pair(header.deep_view()) == Some((name@, value@)),
            None => cookie_pair(header.deep_view()) is None,
        },
{
    match header {
        None => None,
        Some(text) => match text_split_once(text.as_str(), ";") {
            Some((pair, _)) => text_split_once(pair, "="),
            None => text_split_once(text.as_str(), "="),
        },
    }
}

/// What an event means to the owner of the credentials.
#[derive(Debug, PartialEq, Eq)]
pub enum Event {
    /// A caller asks for a token.
    Request,
    /// The login that was asked for issued a token.
    LoggedIn(String),
    /// The login that was asked for failed.
    LoginFailed(LoginError),
}

/// The mathematical value of an [`Event`].
pub enum EventView {
    Request,
    LoggedIn(Seq<char>),
    LoginFailed(LoginErrorView),
}

impl View for Event {
    type V = EventView;

    open spec fn view(&self) -> EventView {
        match self {
            Event::Request => EventView::Request,
            Event::LoggedIn(token) => EventView::LoggedIn(token@),
            Event::LoginFailed(e) => EventView::LoginFailed(e@),
        }
    }
}

/// What is done next about a request for a token.
#[derive(Debug, PartialEq, Eq)]
pub enum Action {
    /// Answer the caller, with the token to send or with the error.
    Reply(Result<String, LoginError>),
    /// Log in, and come back with what came of it.
    Login,
    /// Answer the caller that the session sends no token.
    Anonymous,
}

/// The mathematical value of an [`Action`].
pub enum ActionView {
    Reply(Result<Seq<char>, LoginErrorView>),
    Login,
    Anonymous,
}

impl View for Action {
    type V = ActionView;

    open spec fn view(&self) -> ActionView {
        match self {
            Action::Reply(r) => ActionView::Reply(outcome(*r)),
            Action::Login => ActionView::Login,
            Action::Anonymous => ActionView::Anonymous,
        }
    }
}

/// A user's credentials and the last token issued for them.
#[derive(Debug, PartialEq, Eq)]
pub struct Credentials {
    username: String,
    password: String,
    store: TempToken,
}

/// The mathematical value of a [`Credentials`].
pub struct CredentialsView {
    pub username: Seq<char>,
    pub password: Seq<char>,
    pub store: TempTokenView,
}

impl View for Credentials {
    type V = CredentialsView;

    closed spec fn view(&self) -> CredentialsView {
        CredentialsView { username: self.username@, password: self.password@, store: self.store@ }
    }
}

/// What an event at the time `now` does to the credentials' owner: a request
/// is answered from the store while the stored token is valid, and asks for
/// a login once it is not; a login that issued a token stores it for
/// [`TOKEN_LIFETIME`] and answers with it; a login that failed leaves the
/// store as it is and answers with the error.
pub open spec fn step_of(state: CredentialsView, event: EventView, now: int) -> (
    CredentialsView,
    ActionView,
) {
    match event {
        EventView::Request => {
            if state.store.valid_at(now) {
                (state, ActionView::Reply(Ok(state.store.token)))
            } else {
                (state, ActionView::Login)
            }
        },
        EventView::LoggedIn(token) => (
            CredentialsView {
                store: TempTokenView { token, expiration: now + TOKEN_LIFETIME },
                ..state
            },
            ActionView::Reply(Ok(token)),
        ),
        EventView::LoginFailed(e) => (state, ActionView::Reply(Err(e))),
    }
}

impl Credentials {
    /// The credentials of a user for whom a login at the time `now` issued
    /// `token`.
    pub fn new(creds: (String, String), token: String, now: u64) -> (r: Credentials)
        requires
            now + TOKEN_LIFETIME <= u64::MAX,
        ensures
            r@ == (CredentialsView {
                username: creds.0@,
                password: creds.1@,
                store: TempTokenView { token: token@, expiration: now + TOKEN_LIFETIME },
            }),
    {
        Credentials { username: creds.0, password: creds.1, store: TempToken::new(token, now) }
    }

    /// The user's name.
    pub fn username(&self) -> (r: &str)
        ensures
            r@ == self@.username,
    {
        self.username.as_str()
    }

    /// The user's password.
    pub fn password(&self) -> (r: &str)
        ensures
            r@ == self@.password,
    {
        self.password.as_str()
    }

    /// The stored token, if it is valid at the time `now`.
    pub fn get_token(&self, now: u64) -> (r: Option<String>)
        ensures
            r.deep_view() == if self@.store.valid_at(now as int) {
                Some(self@.store.token)
            } else {
                None
            },
    {
        match self.store.get(now) {
            Some(token) => Some(token.to_owned()),
            None => None,
        }
    }

    /// Takes an event at the time `now`, and says what to do next.
    pub fn step(&mut self, event: Event, now: u64) -> (action: Action)
        requires
            event is LoggedIn ==> now + TOKEN_LIFETIME <= u64::MAX,
        ensures
            (final(self)@, action@) == step_of(old(self)@, event@, now as int),
    {
        match event {
            Event::Request => match self.get_token(now) {
                Some(token) => Action::Reply(Ok(token)),
                None => Action::Login,
            },
            Event::LoggedIn(token) => {
                self.store = TempToken::new(token.clone(), now);
                Action::Reply(Ok(token))
            },
            Event::LoginFailed(e) => Action::Reply(Err(e)),
        }
    }

    /// Reads the portal's answer to a login request: its status and its
    /// `Set-Cookie` headers, each as text where it is text.
    pub fn login(status: u16, cookies: &Vec<Option<String>>) -> (r: Result<String, LoginError>)
        ensures
            outcome(r) == login_outcome(status as int, cookies.deep_view()),
    {
        if status != LOGIN_STATUS {
            return Err(LoginError::Login(status));
        }
        let mut i: usize = 0;
        assert(cookies.deep_view().skip(0) =~= cookies.deep_view());
        while i < cookies.len()
            invariant
                i <= cookies.len(),
                status == LOGIN_STATUS,
                issued_token(cookies.deep_view()) == issued_token(cookies.deep_view().skip(i as int)),
            decreases cookies.len() - i,
        {
            proof {
                let rest = cookies.deep_view().skip(i as int);
                assert(rest[0] == cookies[i as int].deep_view());
                assert(rest.drop_first() =~= cookies.deep_view().skip(i + 1));
            }
            match read_cookie(&cookies[i]) {
                Some((name, value)) => {
                    if same_text(name, AUTH_COOKIE) {
                        return Ok(value.to_owned());
                    }
                },
                None => {},
            }
            i += 1;
        }
        Err(LoginError::CookieParse)
    }
}

/// How a session authenticates.
#[derive(Debug, PartialEq, Eq)]
pub enum Auth {
    /// By a user's credentials, with a token that is renewed.
    Credentials(Credentials),
    /// By a token that is never renewed.
    Token(String),
    /// Not at all.
    Anonymous,
}

/// The token that a session has for a request.
#[derive(Debug, PartialEq, Eq)]
pub enum TokenState {
    /// The session sends no token.
    Anonymous,
    /// The token to send.
    Valid(String),
    /// The stored token has expired: a login must renew it.
    Expired,
}

/// The mathematical value of a [`TokenState`].
pub enum TokenStateView {
    Anonymous,
    Valid(Seq<char>),
    Expired,
}

impl View for TokenState {
    type V = TokenStateView;

    open spec fn view(&self) -> TokenStateView {
        match self {
            TokenState::Anonymous => TokenStateView::Anonymous,
            TokenState::Valid(token) => TokenStateView::Valid(token@),
            TokenState::Expired => TokenStateView::Expired,
        }
    }
}

impl Auth {
    /// The token that the session has for a request at the time `now`: a
    /// bare token as it is, whatever the time; that of credentials while it
    /// is valid; none without authentication.
    pub open spec fn token_at(self, now: int) -> TokenStateView {
        match self {
            Auth::Credentials(creds) => {
                if creds@.store.valid_at(now) {
                    TokenStateView::Valid(creds@.store.token)
                } else {
                    TokenStateView::Expired
                }
            },
            Auth::Token(token) => TokenStateView::Valid(token@),
            Auth::Anonymous => TokenStateView::Anonymous,
        }
    }

    /// The token for a request at the time `now`.
    pub fn get_token(&self, now: u64) -> (r: TokenState)
        ensures
            r@ == self.token_at(now as int),
    {
        match self {
            Auth::Credentials(creds) => match creds.get_token(now) {
                Some(token) => TokenState::Valid(token),
                None => TokenState::Expired,
            },
            Auth::Token(token) => TokenState::Valid(token.clone()),
            Auth::Anonymous => TokenState::Anonymous,
        }
    }

    /// The credentials that the session logs in with, if it does.
    pub fn credentials(&self) -> (r: Option<&Credentials>)
        ensures
            r == match *self {
                Auth::Credentials(creds) => Some(&creds),
                _ => None::<&Credentials>,
            },
    {
        match self {
            Auth::Credentials(creds) => Some(creds),
            _ => None,
        }
    }

    /// What an event at the time `now` leaves of the authentication: only
    /// credentials take events; a bare token and no authentication stay as
    /// they are.
    pub open spec fn after(self, then: Auth, event: EventView, now: int) -> bool {
        match self {
            Auth::Credentials(creds) => then matches Auth::Credentials(renewed) && renewed@
                == step_of(creds@, event, now).0,
            _ => then == self,
        }
    }

    /// What the session does next on an event at the time `now`: with
    /// credentials, what their owner does; with a bare token, it answers with
    /// that token; without authentication, it answers that no token is sent.
    pub open spec fn action_on(self, event: EventView, now: int) -> ActionView {
        match self {
            Auth::Credentials(creds) => step_of(creds@, event, now).1,
            Auth::Token(token) => ActionView::Reply(Ok(token@)),
            Auth::Anonymous => ActionView::Anonymous,
        }
    }

    /// Takes an event at the time `now`, and says what to do next.
    pub fn step(&mut self, event: Event, now: u64) -> (action: Action)
        requires
            event is LoggedIn ==> now + TOKEN_LIFETIME <= u64::MAX,
        ensures
            old(self).after(*final(self), event@, now as int),
            action@ == old(self).action_on(event@, now as int),
    {
        match self {
            Auth::Credentials(creds) => creds.step(event, now),
            Auth::Token(token) => Action::Reply(Ok(token.clone())),
            Auth::Anonymous => Action::Anonymous,
        }
    }

    /// Authentication by the credentials of a user for whom a login at the
    /// time `now` issued `token`.
    pub fn from_creds(creds: (String, String), token: String, now: u64) -> (r: Auth)
        requires
            now + TOKEN_LIFETIME <= u64::MAX,
        ensures
            r matches Auth::Credentials(c) && c@ == (CredentialsView {
                username: creds.0@,
                password: creds.1@,
                store: TempTokenView { token: token@, expiration: now + TOKEN_LIFETIME },
            }),
    {
        Auth::Credentials(Credentials::new(creds, token, now))
    }

    /// Authentication by a bare token.
    pub fn from_token(token: String) -> (r: Auth)
        ensures
            r == Auth::Token(token),
    {
        Auth::Token(token)
    }
}

/// A token that a login issued at the time `issued` answers every request
/// before `issued + TOKEN_LIFETIME` without another login, and no request from
/// that time on: such a request asks for a login.
pub proof fn lemma_token_lifetime(state: CredentialsView, token: Seq<char>, issued: int, now: int)
    ensures
        ({
            let stored = step_of(state, EventView::LoggedIn(token), issued).0;
            &&& now < issued + TOKEN_LIFETIME ==> step_of(stored, EventView::Request, now) == (
                stored,
                ActionView::Reply(Ok(token)),
            )
            &&& now >= issued + TOKEN_LIFETIME ==> step_of(stored, EventView::Request, now) == (
                stored,
                ActionView::Login,
            )
        }),
{
}

/// Credentials whose token was issued at the time `issued` answer a request
/// at any time before `issued + TOKEN_LIFETIME` with that token, without
/// asking for a login, and stay as they are.
pub proof fn lemma_stored_token_answers(state: CredentialsView, issued: int, now: int)
    requires
        state.store.expiration == issued + TOKEN_LIFETIME,
        now < issued + TOKEN_LIFETIME,
    ensures
        step_of(state, EventView::Request, now) == (
            state,
            ActionView::Reply(Ok(state.store.token)),
        ),
{
}

/// What comes of `readers` requests at the time `now`, taken in turn, where
/// every login that is asked for issues the token `issued`: the credentials
/// after the last request, the answers in the order of the requests, and the
/// number of logins made.
pub open spec fn served(state: CredentialsView, now: int, issued: Seq<char>, readers: nat) -> (
    CredentialsView,
    Seq<ActionView>,
    nat,
)
    decreases readers,
{
    if readers == 0 {
        (state, Seq::empty(), 0)
    } else {
        let (before, answers, logins) = served(state, now, issued, (readers - 1) as nat);
        let (asked, action) = step_of(before, EventView::Request, now);
        if action is Login {
            let (renewed, answer) = step_of(asked, EventView::LoggedIn(issued), now);
            (renewed, answers.push(answer), logins + 1)
        } else {
            (asked, answers.push(action), logins)
        }
    }
}

/// Readers that find the stored token valid are all answered with it, and no
/// login is made.
pub proof fn lemma_no_renewal_while_valid(
    state: CredentialsView,
    now: int,
    issued: Seq<char>,
    readers: nat,
)
    requires
        state.store.valid_at(now),
    ensures
        served(state, now, issued, readers).0 == state,
        served(state, now, issued, readers).1 == Seq::new(
            readers,
            |i: int| ActionView::Reply(Ok(state.store.token)),
        ),
        served(state, now, issued, readers).2 == 0,
    decreases readers,
{
    if readers > 0 {
        lemma_no_renewal_while_valid(state, now, issued, (readers - 1) as nat);
    }
    assert(served(state, now, issued, readers).1 =~= Seq::new(
        readers,
        |i: int| ActionView::Reply(Ok(state.store.token)),
    ));
}

/// Readers that find the stored token expired, taken in turn, make exactly
/// one login between them: the first asks for it, its token is stored, and
/// every reader is answered with the new token, none with the expired one.
pub proof fn lemma_single_renewal(state: CredentialsView, now: int, issued: Seq<char>, readers: nat)
    requires
        !state.store.valid_at(now),
        readers >= 1,
    ensures
        served(state, now, issued, readers).0 == (CredentialsView {
            store: TempTokenView { token: issued, expiration: now + TOKEN_LIFETIME },
            ..state
        }),
        served(state, now, issued, readers).1 == Seq::new(
            readers,
            |i: int| ActionView::Reply(Ok(issued)),
        ),
        served(state, now, issued, readers).2 == 1,
    decreases readers,
{
    if readers > 1 {
        lemma_single_renewal(state, now, issued, (readers - 1) as nat);
    } else {
        assert(served(state, now, issued, 0) == (state, Seq::<ActionView>::empty(), 0nat));
    }
    assert(served(state, now, issued, readers).1 =~= Seq::new(
        readers,
        |i: int| ActionView::Reply(Ok(issued)),
    ));
}

} // verus!
