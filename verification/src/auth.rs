//! Logging in, and the authorization that a login gives.

use vstd::prelude::*;
use crate::client::{bearer, Client};
use crate::error::ApiError;
use crate::http::{
    application_json, is_header_text, json_media_type, Header, Method, Request, RequestView,
};
use crate::json::{json_document, json_text, members_view, push_member, Json, JsonValue};

verus! {

/// Where a login is posted.
pub const LOGIN_URL: &'static str = "https://my.exetel.com.au/api/auth/postLogin";

/// The origin that a login names.
pub const ORIGIN_URL: &'static str = "https://my.exetel.com.au";

/// The page that a login names as its referrer.
pub const REFERER_URL: &'static str = "https://my.exetel.com.au/login";

/// The seconds by which a token must have outlived its expiry before it counts
/// as in need of a refresh.
pub const REFRESH_WINDOW_SECS: u64 = 300;

/// The nanoseconds of a second.
pub const NANOS_PER_SEC: u128 = 1_000_000_000;

/// A point in time: the nanoseconds since the Unix epoch.
#[derive(Clone, Copy, Debug, PartialEq, Eq, Structural)]
pub struct Timestamp(pub u128);

impl View for Timestamp {
    type V = nat;

    open spec fn view(&self) -> nat {
        self.0 as nat
    }
}

impl Timestamp {
    /// The point in time that lies `secs` seconds and `nanos` nanoseconds behind the epoch.
    pub fn from_unix(secs: u64, nanos: u32) -> (t: Timestamp)
        ensures
            t@ == secs * NANOS_PER_SEC + nanos,
    {
        Timestamp((secs as u128) * NANOS_PER_SEC + (nanos as u128))
    }
}

/// An authorization token.
#[derive(Debug, PartialEq, Eq)]
pub struct Token(String);

impl View for Token {
    type V = Seq<char>;

    closed spec fn view(&self) -> Seq<char> {
        self.0@
    }
}

impl Token {
    /// The token of that text.
    pub fn new(text: String) -> (token: Token)
        ensures
            token@ == text@,
    {
        Token(text)
    }

    /// The text of the token.
    pub fn as_str(&self) -> (text: &str)
        ensures
            text@ == self@,
    {
        self.0.as_str()
    }

    /// The token as it is displayed: its text.
    pub fn to_display_string(&self) -> (text: String)
        ensures
            text@ == self@,
    {
        self.0.clone()
    }
}

/// How a token is to be presented.
#[derive(Clone, Copy, Debug, PartialEq, Eq, Structural)]
pub enum TokenType {
    /// In an `Authorization` header, behind the word `Bearer`.
    Bearer,
}

/// What the answer to a login says.
pub struct ResponseView {
    pub token_type: TokenType,
    pub expires_in: nat,
    pub access_token: Seq<char>,
    pub refresh_token: Seq<char>,
    pub persist_login: bool,
}

/// The answer to a login.
#[derive(Debug, PartialEq, Eq)]
pub struct Response {
    /// How the token is to be presented.
    pub token_type: TokenType,
    /// The seconds from the answer on for which the token is good.
    pub expires_in: u64,
    /// The token itself.
    pub access_token: Token,
    /// A token with which the authorization can be renewed.
    pub refresh_token: Token,
    /// Whether the login outlasts the session.
    pub persist_login: bool,
}

impl View for Response {
    type V = ResponseView;

    open spec fn view(&self) -> ResponseView {
        ResponseView {
            token_type: self.token_type,
            expires_in: self.expires_in as nat,
            access_token: self.access_token@,
            refresh_token: self.refresh_token@,
            persist_login: self.persist_login,
        }
    }
}

/// The answer to a login that a JSON document spells: an object with the five
/// members of an answer, each of its type, and `Bearer` as the type of the token.
pub open spec fn response_of(v: JsonValue) -> Option<ResponseView> {
    let token_type = v.text_member("tokenType"@);
    let expires_in = v.unsigned_member("expiresIn"@);
    let access_token = v.text_member("accessToken"@);
    let refresh_token = v.text_member("refreshToken"@);
    let persist_login = v.bool_member("persistLogin"@);
    if token_type == Some("Bearer"@) && expires_in is Some && access_token is Some
        && refresh_token is Some && persist_login is Some {
        Some(
            ResponseView {
                token_type: TokenType::Bearer,
                expires_in: expires_in->0,
                access_token: access_token->0,
                refresh_token: refresh_token->0,
                persist_login: persist_login->0,
            },
        )
    } else {
        None
    }
}

impl Response {
    /// Reads the answer to a login from its JSON form.
    pub fn decode(json: &Json) -> (r: Option<Response>)
        ensures
            match r {
                Some(response) => response_of(json@) == Some(response@),
                None => response_of(json@) is None,
            },
    {
        match json.get_text("tokenType") {
            Some(kind) => if !kind.as_str().eq("Bearer") {
                return None;
            },
            None => { return None; },
        }
        let expires_in = match json.get_u64("expiresIn") {
            Some(secs) => secs,
            None => { return None; },
        };
        let access_token = match json.get_text("accessToken") {
            Some(text) => Token::new(text.clone()),
            None => { return None; },
        };
        let refresh_token = match json.get_text("refreshToken") {
            Some(text) => Token::new(text.clone()),
            None => { return None; },
        };
        let persist_login = match json.get_bool("persistLogin") {
            Some(flag) => flag,
            None => { return None; },
        };
        Some(
            Response {
                token_type: TokenType::Bearer,
                expires_in,
                access_token,
                refresh_token,
                persist_login,
            },
        )
    }
}

/// What a login says.
pub struct QueryView {
    pub access_token: Option<Seq<char>>,
    pub password: Seq<char>,
    pub persist_login: bool,
    pub username: Seq<char>,
}

/// What a login sends.
#[derive(Debug, PartialEq, Eq)]
pub struct Query {
    /// A token of an earlier login, where there is one.
    pub access_token: Option<Token>,
    pub password: String,
    /// Whether the login is to outlast the session.
    pub persist_login: bool,
    pub username: String,
}

impl View for Query {
    type V = QueryView;

    open spec fn view(&self) -> QueryView {
        QueryView {
            access_token: match self.access_token {
                Some(token) => Some(token@),
                None => None,
            },
            password: self.password@,
            persist_login: self.persist_login,
            username: self.username@,
        }
    }
}

/// The JSON object that spells a login: the password, whether the login is to
/// outlast the session, the user's name, and the token where there is one.
/// A login without a token has no member for it.
pub open spec fn query_json(query: QueryView) -> JsonValue {
    let members = Map::empty().insert("password"@, JsonValue::Text(query.password)).insert(
        "persistLogin"@,
        JsonValue::Bool(query.persist_login),
    ).insert("username"@, JsonValue::Text(query.username));
    match query.access_token {
        Some(token) => JsonValue::Object(members.insert("accessToken"@, JsonValue::Text(token))),
        None => JsonValue::Object(members),
    }
}

/// What a first login sends: the password and the user's name, no token, and
/// that the login is not to outlast the session.
pub open spec fn login_body(username: Seq<char>, password: Seq<char>) -> JsonValue {
    query_json(QueryView { access_token: None, password, persist_login: false, username })
}

impl Query {
    /// The login of `username` with `password`: without a token, and not to
    /// outlast the session.
    pub fn new(username: &str, password: &str) -> (query: Query)
        ensures
            query@ == (QueryView {
                access_token: None,
                password: password@,
                persist_login: false,
                username: username@,
            }),
    {
        Query {
            access_token: None,
            password: password.to_owned(),
            persist_login: false,
            username: username.to_owned(),
        }
    }

    /// Writes the login in its JSON form.
    pub fn encode(&self) -> (json: Json)
        ensures
            json@ == query_json(self@),
    {
        let mut members: Vec<(String, Json)> = Vec::new();
        assert(members_view(members@) =~= Map::empty());
        push_member(&mut members, "password", Json::Text(self.password.clone()));
        push_member(&mut members, "persistLogin", Json::Bool(self.persist_login));
        push_member(&mut members, "username", Json::Text(self.username.clone()));
        match &self.access_token {
            Some(token) => {
                push_member(&mut members, "accessToken", Json::Text(token.to_display_string()));
            },
            None => {},
        }
        Json::Object(members)
    }
}

/// The request that logs a user in, where the body can be written.
pub open spec fn login_request(username: Seq<char>, password: Seq<char>) -> Option<RequestView> {
    match json_text(login_body(username, password)) {
        Some(body) => Some(
            RequestView {
                method: Method::Post,
                url: LOGIN_URL@,
                headers: seq![
                    ("origin"@, ORIGIN_URL@),
                    ("referer"@, REFERER_URL@),
                    ("accept"@, application_json()),
                    ("content-type"@, application_json()),
                ],
                body: Some(body),
            },
        ),
        None => None,
    }
}

/// What an authorization is.
pub struct AuthorizationView {
    /// When the answer to the login came in, in nanoseconds since the Unix epoch.
    pub issued_at: nat,
    /// What the answer said.
    pub response: ResponseView,
}

impl AuthorizationView {
    /// The token that the login gave.
    pub open spec fn token(self) -> Seq<char> {
        self.response.access_token
    }

    /// When the token expires, in nanoseconds since the Unix epoch.
    pub open spec fn expires_at(self) -> nat {
        self.issued_at + self.response.expires_in * (NANOS_PER_SEC as nat)
    }

    /// Whether at `now` the token has outlived its expiry by more than the window.
    pub open spec fn stale_at(self, now: nat) -> bool {
        now > self.expires_at() + (REFRESH_WINDOW_SECS as nat) * (NANOS_PER_SEC as nat)
    }
}

/// The seconds for which the token of an authorization is good.
pub open spec fn lifetime(authorization: AuthorizationView) -> nat {
    authorization.response.expires_in
}

/// A token is not stale before its expiry and the window behind it have passed:
/// not when it is issued, and at no time up to `issued_at + expires_in + 300`
/// seconds. From the first nanosecond behind that it is stale.
pub proof fn stale_only_after_window(authorization: AuthorizationView, now: nat)
    ensures
        !authorization.stale_at(authorization.issued_at),
        authorization.stale_at(now) <==> now > authorization.issued_at + (lifetime(authorization)
            + 300) * 1_000_000_000,
{
    let lifetime = lifetime(authorization);
    assert((lifetime + 300) * 1_000_000_000 == lifetime * 1_000_000_000 + 300 * 1_000_000_000)
        by (nonlinear_arith);
}

/// The authorization that the answer to a login gives.
///
/// The status is one of success, the body is JSON and spells an answer.
pub open spec fn authorization_of(status: u16, body: Seq<char>, received_at: nat) -> Option<
    AuthorizationView,
> {
    if 200 <= status < 300 {
        match json_document(body) {
            Some(v) => match response_of(v) {
                Some(response) => Some(AuthorizationView { issued_at: received_at, response }),
                None => None,
            },
            None => None,
        }
    } else {
        None
    }
}

/// The tokens that a login gave, and when it gave them.
#[derive(Debug, PartialEq, Eq)]
pub struct Authorization {
    last_refreshed: Timestamp,
    last_response: Response,
}

impl View for Authorization {
    type V = AuthorizationView;

    closed spec fn view(&self) -> AuthorizationView {
        AuthorizationView { issued_at: self.last_refreshed@, response: self.last_response@ }
    }
}

impl Authorization {
    /// The request that logs `username` in with `password`.
    ///
    /// Fails with `Auth` where the body cannot be written.
    pub fn login(username: &str, password: &str) -> (r: Result<Request, ApiError>)
        ensures
            match r {
                Ok(request) => login_request(username@, password@) == Some(request@),
                Err(e) => e == ApiError::Auth && login_request(username@, password@) is None,
            },
    {
        let query = Query::new(username, password);
        let body = match query.encode().to_text() {
            Some(body) => body,
            None => { return Err(ApiError::Auth); },
        };
        let mut headers: Vec<Header> = Vec::new();
        headers.push(Header::new("origin", ORIGIN_URL.to_owned()));
        headers.push(Header::new("referer", REFERER_URL.to_owned()));
        headers.push(Header::new("accept", json_media_type()));
        headers.push(Header::new("content-type", json_media_type()));
        let request = Request {
            method: Method::Post,
            url: LOGIN_URL.to_owned(),
            headers,
            body: Some(body),
        };
        assert(request@.headers =~= login_request(username@, password@)->0.headers);
        Ok(request)
    }

    /// The authorization that the answer to a login gives, which came in at `received_at`.
    ///
    /// Fails with `Auth` where the status is not one of success, the body is no
    /// JSON, or a member of the answer is missing or of another type.
    pub fn from_login(status: u16, body: &str, received_at: Timestamp) -> (r: Result<
        Authorization,
        ApiError,
    >)
        ensures
            match r {
                Ok(authorization) => authorization_of(status, body@, received_at@) == Some(
                    authorization@,
                ),
                Err(e) => e == ApiError::Auth && authorization_of(status, body@, received_at@)
                    is None,
            },
    {
        if status < 200 || status >= 300 {
            return Err(ApiError::Auth);
        }
        let json = match Json::parse(body) {
            Ok(json) => json,
            Err(_) => { return Err(ApiError::Auth); },
        };
        match Response::decode(&json) {
            Some(response) => Ok(
                Authorization { last_refreshed: received_at, last_response: response },
            ),
            None => Err(ApiError::Auth),
        }
    }

    /// When the answer to the login came in.
    pub fn issued_at(&self) -> (at: Timestamp)
        ensures
            at@ == self@.issued_at,
    {
        self.last_refreshed
    }

    /// What the answer to the login said.
    pub fn response(&self) -> (response: &Response)
        ensures
            response@ == self@.response,
    {
        &self.last_response
    }

    /// The token that the login gave.
    pub fn access_token(&self) -> (token: &Token)
        ensures
            token@ == self@.token(),
    {
        &self.last_response.access_token
    }

    /// The client that presents this authorization.
    ///
    /// Fails with `Auth` where the token cannot stand in a header.
    pub fn into_client(self) -> (r: Result<Client, ApiError>)
        ensures
            match r {
                Ok(client) => {
                    &&& is_header_text(bearer(self@.token()))
                    &&& client@.authorization == self@
                    &&& client@.default_headers == seq![
                        ("authorization"@, bearer(self@.token())),
                    ]
                },
                Err(e) => e == ApiError::Auth && !is_header_text(
                    bearer(self@.token()),
                ),
            },
    {
        Client::try_from(self)
    }

    /// When the token expires, where that is a point in time that a timestamp can hold.
    pub fn expires_at(&self) -> (r: Option<Timestamp>)
        ensures
            match r {
                Some(t) => t@ == self@.expires_at(),
                None => self@.expires_at() > u128::MAX,
            },
    {
        let lifetime: u128 = (self.last_response.expires_in as u128) * NANOS_PER_SEC;
        match self.last_refreshed.0.checked_add(lifetime) {
            Some(nanos) => Some(Timestamp(nanos)),
            None => None,
        }
    }

    /// Whether at `now` the token has outlived its expiry by more than five minutes.
    pub fn should_refresh(&self, now: Timestamp) -> (stale: bool)
        ensures
            stale == self@.stale_at(now@),
    {
        let window: u128 = (REFRESH_WINDOW_SECS as u128) * NANOS_PER_SEC;
        match self.expires_at() {
            Some(expiry) => match expiry.0.checked_add(window) {
                Some(limit) => now.0 > limit,
                None => false,
            },
            None => false,
        }
    }
}

} // verus!
