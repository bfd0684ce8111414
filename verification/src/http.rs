//! HTTP requests as values: what is to be sent, before anything is sent.

use vstd::prelude::*;

verus! {

/// The request methods that the client uses.
#[derive(Clone, Copy, Debug, PartialEq, Eq, Structural)]
pub enum Method {
    Get,
    Post,
}

/// One header of a request.
#[derive(Debug, PartialEq, Eq)]
pub struct Header {
    pub name: String,
    pub value: String,
}

impl View for Header {
    type V = (Seq<char>, Seq<char>);

    open spec fn view(&self) -> (Seq<char>, Seq<char>) {
        (self.name@, self.value@)
    }
}

/// The names and values of a list of headers, in order.
pub open spec fn headers_view(headers: Seq<Header>) -> Seq<(Seq<char>, Seq<char>)> {
    Seq::new(headers.len(), |i: int| headers[i]@)
}

/// What a request says.
pub struct RequestView {
    pub method: Method,
    pub url: Seq<char>,
    pub headers: Seq<(Seq<char>, Seq<char>)>,
    pub body: Option<Seq<char>>,
}

/// A request that is ready to be sent.
#[derive(Debug, PartialEq, Eq)]
pub struct Request {
    pub method: Method,
    pub url: String,
    pub headers: Vec<Header>,
    pub body: Option<String>,
}

impl View for Request {
    type V = RequestView;

    open spec fn view(&self) -> RequestView {
        RequestView {
            method: self.method,
            url: self.url@,
            headers: headers_view(self.headers@),
            body: match self.body {
                Some(text) => Some(text@),
                None => None,
            },
        }
    }
}

/// The media type of JSON.
pub open spec fn application_json() -> Seq<char> {
    "application/json"@
}

/// The media type of plain text.
pub open spec fn text_plain() -> Seq<char> {
    "text/plain"@
}

/// `mime::Mime::essence_str` of `mime::APPLICATION_JSON`: the type and subtype
/// without parameters, which is `application/json`.
#[verifier::external_body]
pub(crate) fn json_media_type() -> (essence: String)
    ensures
        essence@ == application_json(),
{
    mime::APPLICATION_JSON.essence_str().to_owned()
}

/// `mime::Mime::essence_str` of `mime::TEXT_PLAIN`: the type and subtype
/// without parameters, which is `text/plain`.
#[verifier::external_body]
pub(crate) fn plain_media_type() -> (essence: String)
    ensures
        essence@ == text_plain(),
{
    mime::TEXT_PLAIN.essence_str().to_owned()
}

/// The text that `url::Url::parse` makes of an address, where it accepts it.
pub uninterp spec fn url_text(address: Seq<char>) -> Option<Seq<char>>;

/// `reqwest::Url::parse`, and the URL turned into a `String`: the address as
/// the parser has normalised it, or `None` where it is no absolute URL.
#[verifier::external_body]
pub(crate) fn parse_url(address: &str) -> (r: Option<String>)
    ensures
        match r {
            Some(text) => url_text(address@) == Some(text@),
            None => url_text(address@) is None,
        },
{
    reqwest::Url::parse(address).ok().map(String::from)
}

/// reqwest's header value.
#[verifier::external_type_specification]
#[verifier::external_body]
pub struct ExHeaderValue(reqwest::header::HeaderValue);

/// reqwest's error for a text that cannot be a header value.
#[verifier::external_type_specification]
#[verifier::external_body]
pub struct ExInvalidHeaderValue(reqwest::header::InvalidHeaderValue);

/// Whether a text can be the value of a header: it holds no control character
/// but the tabulator.
pub open spec fn is_header_text(text: Seq<char>) -> bool {
    forall|i: int|
        0 <= i < text.len() ==> {
            let c = #[trigger] text[i];
            c == '\t' || (' ' <= c && c != '\x7f')
        }
}

/// `reqwest::header::HeaderValue::from_str`: the header value of a text, or
/// the error where one of its bytes is below 32 and no tabulator, or is 127.
/// A character beyond ASCII is written in bytes from 128 on, which pass.
#[verifier::external_body]
pub(crate) fn header_value(text: &str) -> (r: Result<
    reqwest::header::HeaderValue,
    reqwest::header::InvalidHeaderValue,
>)
    ensures
        r.is_ok() == is_header_text(text@),
{
    reqwest::header::HeaderValue::from_str(text)
}

impl Header {
    /// The header of that name and value.
    pub fn new(name: &str, value: String) -> (header: Header)
        ensures
            header@ == (name@, value@),
    {
        Header { name: name.to_owned(), value }
    }
}

} // verus!
