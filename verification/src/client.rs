//! Typed queries, and the authenticated client that turns them into requests
//! and their responses into values.

use vstd::prelude::*;
use crate::auth::{Authorization, AuthorizationView};
use crate::customer::services::{services_of, GetServices, Services};
use crate::error::ApiError;
use crate::http::{
    application_json, header_value, headers_view, is_header_text, json_media_type, parse_url,
    plain_media_type, text_plain, url_text, Header, Method, Request, RequestView,
};
use crate::json::{json_document, json_text, Json, JsonValue};

verus! {

/// What every query's path is appended to.
pub const URL_PREFIX: &'static str = "https://webservices.api.exetel.com.au/v1";

/// The address of a query with that path, where it is a valid URL.
pub open spec fn query_url(path: Seq<char>) -> Option<Seq<char>> {
    url_text(URL_PREFIX@ + path)
}

/// The address of a query with that path: the shared prefix and the path in
/// one, as a URL.
///
/// Fails with `Url` where the two together are no valid URL.
pub fn query_address(path: &str) -> (r: Result<String, ApiError>)
    ensures
        match r {
            Ok(url) => query_url(path@) == Some(url@),
            Err(e) => e == ApiError::Url && query_url(path@) is None,
        },
{
    let mut address = URL_PREFIX.to_owned();
    address.append(path);
    match parse_url(address.as_str()) {
        Some(url) => Ok(url),
        None => Err(ApiError::Url),
    }
}

/// Something that can be asked of the API: where to ask, what to send, and how
/// to read the answer.
pub trait Query {
    /// What the answer is read into.
    type Response;

    /// The path of the query, behind the prefix that all queries share.
    spec fn path_spec(&self) -> Seq<char>;

    /// What the query sends, where it sends anything.
    spec fn body_spec(&self) -> Option<JsonValue>;

    /// Whether a JSON document is an answer to the query.
    spec fn understands(&self, answer: JsonValue) -> bool;

    /// Whether `response` is what the answer says.
    spec fn reads(&self, answer: JsonValue, response: &Self::Response) -> bool;

    /// The path of the query, behind the prefix that all queries share.
    fn path(&self) -> (path: String)
        ensures
            path@ == self.path_spec(),
    ;

    /// What the query sends: with a body it is posted, without one it is fetched.
    fn body(&self) -> (body: Option<Json>)
        ensures
            match body {
                Some(json) => self.body_spec() == Some(json@),
                None => self.body_spec() is None,
            },
    ;

    /// Reads the answer.
    fn decode(&self, answer: &Json) -> (r: Result<Self::Response, ApiError>)
        ensures
            match r {
                Ok(response) => self.understands(answer@) && self.reads(answer@, &response),
                Err(e) => e == ApiError::Decode && !self.understands(answer@),
            },
    ;

    /// The address of the query.
    fn url(&self) -> (r: Result<String, ApiError>)
        ensures
            match r {
                Ok(url) => query_url(self.path_spec()) == Some(url@),
                Err(e) => e == ApiError::Url && query_url(self.path_spec()) is None,
            },
    {
        let path = self.path();
        query_address(path.as_str())
    }
}

/// What a client is.
pub struct ClientView {
    pub authorization: AuthorizationView,
    pub default_headers: Seq<(Seq<char>, Seq<char>)>,
}

/// The value of the header that presents a bearer token.
pub open spec fn bearer(token: Seq<char>) -> Seq<char> {
    "Bearer "@ + token
}

/// The request that carries a body of that content type, or none, to an address:
/// the content type, then `Accept: application/json`, then the client's own headers.
pub open spec fn request_to(
    method: Method,
    url: Seq<char>,
    content_type: Seq<char>,
    body: Option<Seq<char>>,
    default_headers: Seq<(Seq<char>, Seq<char>)>,
) -> RequestView {
    RequestView {
        method,
        url,
        headers: seq![("content-type"@, content_type), ("accept"@, application_json())]
            + default_headers,
        body,
    }
}

/// The request that a client makes for a query, or why it makes none.
///
/// A query without a body is fetched as plain text; one with a body is posted
/// as JSON. The address is looked at first.
pub open spec fn query_request<Q: Query>(client: ClientView, query: &Q) -> Result<
    RequestView,
    ApiError,
> {
    match query_url(query.path_spec()) {
        None => Err(ApiError::Url),
        Some(url) => match query.body_spec() {
            None => Ok(request_to(Method::Get, url, text_plain(), None, client.default_headers)),
            Some(body) => match json_text(body) {
                Some(text) => Ok(
                    request_to(
                        Method::Post,
                        url,
                        application_json(),
                        Some(text),
                        client.default_headers,
                    ),
                ),
                None => Err(ApiError::Request),
            },
        },
    }
}

/// A client that presents an authorization with every request.
#[derive(Debug)]
pub struct Client {
    authorization: Authorization,
    default_headers: Vec<Header>,
}

impl View for Client {
    type V = ClientView;

    closed spec fn view(&self) -> ClientView {
        ClientView {
            authorization: self.authorization@,
            default_headers: headers_view(self.default_headers@),
        }
    }
}

/// A copy of a list of headers.
fn clone_headers(headers: &Vec<Header>) -> (copy: Vec<Header>)
    ensures
        headers_view(copy@) == headers_view(headers@),
{
    let mut copy: Vec<Header> = Vec::new();
    let mut i: usize = 0;
    while i < headers.len()
        invariant
            i <= headers.len(),
            copy.len() == i,
            forall|k: int| 0 <= k < i ==> (#[trigger] copy[k])@ == headers[k]@,
        decreases headers.len() - i,
    {
        copy.push(Header { name: headers[i].name.clone(), value: headers[i].value.clone() });
        i += 1;
    }
    assert(headers_view(copy@) =~= headers_view(headers@));
    copy
}

impl Client {
    /// The client that presents `authorization` as a bearer token.
    ///
    /// Fails with `Auth` where the token cannot stand in a header.
    pub fn try_from(authorization: Authorization) -> (r: Result<Client, ApiError>)
        ensures
            match r {
                Ok(client) => {
                    &&& is_header_text(bearer(authorization@.token()))
                    &&& client@.authorization == authorization@
                    &&& client@.default_headers == seq![
                        ("authorization"@, bearer(authorization@.token())),
                    ]
                },
                Err(e) => e == ApiError::Auth && !is_header_text(bearer(authorization@.token())),
            },
    {
        let mut value = "Bearer ".to_owned();
        value.append(authorization.access_token().as_str());
        match header_value(value.as_str()) {
            Ok(_) => {
                let mut default_headers: Vec<Header> = Vec::new();
                default_headers.push(Header::new("authorization", value));
                assert(headers_view(default_headers@) =~= seq![
                    ("authorization"@, bearer(authorization@.token())),
                ]);
                Ok(Client { authorization, default_headers })
            },
            Err(_) => Err(ApiError::Auth),
        }
    }

    /// The authorization that the client presents.
    pub fn authorization(&self) -> (authorization: &Authorization)
        ensures
            authorization@ == self@.authorization,
    {
        &self.authorization
    }

    /// The headers that go out with every request of the client.
    pub fn default_headers(&self) -> (headers: &Vec<Header>)
        ensures
            headers_view(headers@) == self@.default_headers,
    {
        &self.default_headers
    }

    /// The request that carries `body`, or nothing, to `url`.
    fn request(&self, method: Method, url: String, content_type: String, body: Option<String>) -> (r:
        Request)
        ensures
            r@ == request_to(
                method,
                url@,
                content_type@,
                match body {
                    Some(text) => Some(text@),
                    None => None,
                },
                self@.default_headers,
            ),
    {
        let mut headers: Vec<Header> = Vec::new();
        headers.push(Header::new("content-type", content_type));
        headers.push(Header::new("accept", json_media_type()));
        let mut defaults = clone_headers(&self.default_headers);
        headers.append(&mut defaults);
        assert(headers_view(headers@) =~= seq![
            ("content-type"@, content_type@),
            ("accept"@, application_json()),
        ] + self@.default_headers);
        Request { method, url, headers, body }
    }

    /// The request that posts `body` to `url` as JSON.
    ///
    /// Fails with `Request` where the body cannot be written.
    pub fn post(&self, url: String, body: &Json) -> (r: Result<Request, ApiError>)
        ensures
            match r {
                Ok(request) => json_text(body@) is Some && request@ == request_to(
                    Method::Post,
                    url@,
                    application_json(),
                    json_text(body@),
                    self@.default_headers,
                ),
                Err(e) => e == ApiError::Request && json_text(body@) is None,
            },
    {
        match body.to_text() {
            Some(text) => Ok(self.request(Method::Post, url, json_media_type(), Some(text))),
            None => Err(ApiError::Request),
        }
    }

    /// The request that fetches `url`.
    pub fn get(&self, url: String) -> (r: Request)
        ensures
            r@ == request_to(Method::Get, url@, text_plain(), None, self@.default_headers),
    {
        self.request(Method::Get, url, plain_media_type(), None)
    }

    /// The request for a query.
    pub fn query<Q: Query>(&self, query: &Q) -> (r: Result<Request, ApiError>)
        ensures
            match r {
                Ok(request) => query_request(self@, query) == Ok::<RequestView, ApiError>(
                    request@,
                ),
                Err(e) => query_request(self@, query) == Err::<RequestView, ApiError>(e),
            },
    {
        match query.body() {
            Some(body) => {
                let url = match query.url() {
                    Ok(url) => url,
                    Err(e) => { return Err(e); },
                };
                self.post(url, &body)
            },
            None => {
                let url = match query.url() {
                    Ok(url) => url,
                    Err(e) => { return Err(e); },
                };
                Ok(self.get(url))
            },
        }
    }

    /// Reads the body of the response to a query.
    ///
    /// Fails with `Decode` where the body is no JSON, or no answer to the query.
    pub fn response<Q: Query>(&self, query: &Q, body: &str) -> (r: Result<Q::Response, ApiError>)
        ensures
            match r {
                Ok(response) => json_document(body@) is Some && query.understands(
                    json_document(body@)->0,
                ) && query.reads(json_document(body@)->0, &response),
                Err(e) => e == ApiError::Decode && (json_document(body@) is None
                    || !query.understands(json_document(body@)->0)),
            },
    {
        match Json::parse(body) {
            Ok(answer) => query.decode(&answer),
            Err(e) => Err(e),
        }
    }

    /// The request that asks for the services of the account.
    pub fn services_request(&self) -> (r: Result<Request, ApiError>)
        ensures
            match r {
                Ok(request) => query_request(self@, &GetServices) == Ok::<RequestView, ApiError>(
                    request@,
                ),
                Err(e) => query_request(self@, &GetServices) == Err::<RequestView, ApiError>(e),
            },
    {
        self.query(&GetServices)
    }

    /// The services of the account, out of the body of the response.
    pub fn services(&self, body: &str) -> (r: Result<Services, ApiError>)
        ensures
            match r {
                Ok(services) => json_document(body@) is Some && services_of(
                    json_document(body@)->0,
                ) == Some(services@),
                Err(e) => e == ApiError::Decode && (json_document(body@) is None || services_of(
                    json_document(body@)->0,
                ) is None),
            },
    {
        match self.response(&GetServices, body) {
            Ok(data) => Ok(data.unwrap()),
            Err(e) => Err(e),
        }
    }
}

} // verus!
