//! Requests to the agent's REST API and what its replies mean.

use vstd::prelude::*;
use vstd::string::*;
use vstd::utf8::*;
use crate::error::{ClientError, ClientErrorView, DecodeError};
use crate::json::{holds, parse, parsed_json, Json, JsonValue};
use crate::platform::Platform;
use crate::text::{announced, parse_length};
use crate::tunnel::{lemma_tunnels_held, tunnels_json, tunnels_of, Tunnels, TunnelsView};

verus! {

/// The address at which the agent serves its API.
pub const BASE_URL: &'static str = "http://127.0.0.1:4040";

/// The path under which the agent lists and creates tunnels.
pub const TUNNELS_PATH: &'static str = "api/tunnels";

/// A client of the agent on one machine.
#[derive(Clone, Debug, PartialEq, Eq)]
pub struct Ngrok {
    base_url: String,
    platform: Platform,
}

/// What a request asks the agent to do.
#[derive(Clone, Copy, Debug, PartialEq, Eq, Structural)]
pub enum Method {
    Get,
    Post,
    Delete,
}

/// A request, ready to be sent.
#[derive(Debug, PartialEq, Eq)]
pub struct Request {
    pub method: Method,
    /// The absolute address that the request goes to.
    pub url: String,
    /// The document sent along, for a `Post`.
    pub body: Option<Json>,
}

/// The content of a [`Request`].
pub struct RequestView {
    pub method: Method,
    pub url: Seq<char>,
    pub body: Option<JsonValue>,
}

impl View for Request {
    type V = RequestView;

    open spec fn view(&self) -> RequestView {
        RequestView {
            method: self.method,
            url: self.url@,
            body: match self.body {
                Some(json) => Some(json@),
                None => None,
            },
        }
    }
}

/// What the agent sent back.
#[derive(Clone, Debug, PartialEq, Eq)]
pub struct Response {
    pub status: u16,
    /// The reason phrase that came with the status.
    pub status_text: String,
    /// The value of the `Content-Length` header, where the reply has one.
    pub content_length: Option<String>,
    /// The bytes that were read after the headers.
    pub body: Vec<u8>,
}

/// The content of a [`Response`].
pub struct ResponseView {
    pub status: u16,
    pub status_text: Seq<char>,
    pub content_length: Option<Seq<char>>,
    pub body: Seq<u8>,
}

impl View for Response {
    type V = ResponseView;

    open spec fn view(&self) -> ResponseView {
        ResponseView {
            status: self.status,
            status_text: self.status_text@,
            content_length: match self.content_length {
                Some(text) => Some(text@),
                None => None,
            },
            body: self.body@,
        }
    }
}

/// How sending a request ended.
#[derive(Clone, Debug, PartialEq, Eq)]
pub enum Outcome {
    /// The agent answered, with whatever status.
    Answered(Response),
    /// No reply arrived: the connection was refused, broke or timed out.
    Unreachable,
}

/// The address that a path resolves to against a base address, as the `url`
/// crate joins them; `None` where it rejects the base or the path.
pub uninterp spec fn joined_url(base: Seq<char>, path: Seq<char>) -> Option<Seq<char>>;

/// `url::ParseError`, carried through unread.
#[verifier::external_type_specification]
#[verifier::external_body]
pub struct ExParseError(url::ParseError);

/// Parses the base address with `url::Url::parse`, resolves the path against
/// it with `url::Url::join`, and hands out the text of the result.
///
/// Trusted: that this fails exactly where [`joined_url`] is `None`, and that
/// the same two texts always give the same address.
#[verifier::external_body]
fn join_url(base: &str, path: &str) -> (r: Result<String, url::ParseError>)
    ensures
        r is Ok <==> joined_url(base@, path@) is Some,
        r matches Ok(url) ==> joined_url(base@, path@) == Some(url@),
{
    url::Url::parse(base).and_then(|base| base.join(path)).map(String::from)
}

/// Calls `std::str::from_utf8`.
///
/// Trusted: that it accepts exactly the byte strings that are valid UTF-8,
/// and that the text it hands out is made of the bytes it was given.
#[verifier::external_body]
fn utf8_text(bytes: &[u8]) -> (r: Option<&str>)
    ensures
        r is Some <==> valid_utf8(bytes@),
        r matches Some(text) ==> text.spec_bytes() == bytes@,
{
    std::str::from_utf8(bytes).ok()
}

/// The request that an operation on a path makes, where the path resolves
/// against the base address.
pub open spec fn request_for(
    base: Seq<char>,
    method: Method,
    path: Seq<char>,
    body: Option<JsonValue>,
) -> Result<RequestView, ClientErrorView> {
    match joined_url(base, path) {
        Some(url) => Ok(RequestView { method, url, body }),
        None => Err(ClientErrorView::UrlResolution),
    }
}

/// Whether an operation takes a status for success: a `Get` any status from
/// 200 to 299, a `Post` the statuses 200 and 201, a `Delete` the status 204.
pub open spec fn accepts(method: Method, status: u16) -> bool {
    match method {
        Method::Get => 200 <= status < 300,
        Method::Post => status == 200 || status == 201,
        Method::Delete => status == 204,
    }
}

/// What an operation makes of the way its request ended: the reply where its
/// status is one that the operation accepts.
pub open spec fn accepted(method: Method, outcome: Outcome) -> Result<ResponseView, ClientErrorView> {
    match outcome {
        Outcome::Unreachable => Err(ClientErrorView::Transport),
        Outcome::Answered(response) => if accepts(method, response.status) {
            Ok(response@)
        } else {
            Err(ClientErrorView::ServerError { status: response.status, text: response.status_text@ })
        },
    }
}

/// Whether a request ended in a reply of the given status.
pub open spec fn answered_with(outcome: Outcome, status: u16) -> bool {
    match outcome {
        Outcome::Answered(response) => response.status == status,
        Outcome::Unreachable => false,
    }
}

/// Whether a reply announces a length and holds a body of just that length.
pub open spec fn framed(response: ResponseView) -> bool {
    match response.content_length {
        Some(text) => announced(text) == Some(response.body.len()),
        None => false,
    }
}

/// The document that a body holds: `NotUtf8` where the body is not valid
/// UTF-8, `NotJson` where its text is no JSON document.
pub open spec fn document_of(body: Seq<u8>) -> Result<JsonValue, ClientErrorView> {
    if !valid_utf8(body) {
        Err(ClientErrorView::Decode(DecodeError::NotUtf8))
    } else {
        match parsed_json(decode_utf8(body)) {
            Some(json) => Ok(json),
            None => Err(ClientErrorView::Decode(DecodeError::NotJson)),
        }
    }
}

/// The document that a reply holds: `LengthMismatch` where the reply is not
/// framed, whatever its body holds; else the document that the body holds.
pub open spec fn document_in(response: ResponseView) -> Result<JsonValue, ClientErrorView> {
    if !framed(response) {
        Err(ClientErrorView::Decode(DecodeError::LengthMismatch))
    } else {
        document_of(response.body)
    }
}

/// The tunnels that a reply lists: `ShapeMismatch` where the reply holds a
/// document that does not describe a collection of tunnels.
pub open spec fn tunnels_in(response: ResponseView) -> Result<TunnelsView, ClientErrorView> {
    match document_in(response) {
        Ok(json) => match tunnels_of(json) {
            Some(tunnels) => Ok(tunnels),
            None => Err(ClientErrorView::Decode(DecodeError::ShapeMismatch)),
        },
        Err(e) => Err(e),
    }
}

/// The document that an operation ends with: what the reply holds, where the
/// operation accepts the reply.
pub open spec fn document_from(method: Method, outcome: Outcome) -> Result<
    JsonValue,
    ClientErrorView,
> {
    match accepted(method, outcome) {
        Ok(response) => document_in(response),
        Err(e) => Err(e),
    }
}

/// The tunnels that an operation ends with: what the reply lists, where the
/// operation accepts the reply.
pub open spec fn tunnels_from(method: Method, outcome: Outcome) -> Result<
    TunnelsView,
    ClientErrorView,
> {
    match accepted(method, outcome) {
        Ok(response) => tunnels_in(response),
        Err(e) => Err(e),
    }
}

/// A reply that lists tunnels reads as those tunnels: where the reply is
/// framed, its body is valid UTF-8, and the document that its text holds has
/// what the document of a collection has, reading the reply gives that
/// collection, every field with the value it had. The members of the objects
/// may stand in any order, and further members may stand among them.
pub proof fn lemma_reply_round_trip(
    response: ResponseView,
    json: JsonValue,
    tunnels: TunnelsView,
)
    requires
        framed(response),
        valid_utf8(response.body),
        parsed_json(decode_utf8(response.body)) == Some(json),
        holds(json, tunnels_json(tunnels)),
    ensures
        tunnels_in(response) == Ok::<TunnelsView, ClientErrorView>(tunnels),
{
    lemma_tunnels_held(json, tunnels);
}

impl Ngrok {
    /// A client of the agent at its usual address, for the given machine.
    pub fn new(platform: Platform) -> (r: Ngrok)
        ensures
            r.base() == BASE_URL@,
            r.machine() == platform,
    {
        Ngrok { base_url: String::from_str(BASE_URL), platform }
    }

    /// The address that paths are resolved against.
    pub closed spec fn base(&self) -> Seq<char> {
        self.base_url@
    }

    /// The machine that the agent is to run on.
    pub closed spec fn machine(&self) -> Platform {
        self.platform
    }

    /// The machine that the agent is to run on.
    pub fn platform(&self) -> (r: &Platform)
        ensures
            *r == self.machine(),
    {
        &self.platform
    }

    /// The address that paths are resolved against.
    pub fn base_url(&self) -> (r: &str)
        ensures
            r@ == self.base(),
    {
        self.base_url.as_str()
    }

    /// Resolves a path and makes a request of it.
    fn request(&self, method: Method, path: &str, body: Option<Json>) -> (r: Result<
        Request,
        ClientError,
    >)
        ensures
            match r {
                Ok(request) => request.method == method && request.body == body && joined_url(
                    self.base(),
                    path@,
                ) == Some(request.url@),
                Err(e) => e@ == ClientErrorView::UrlResolution && joined_url(self.base(), path@)
                    is None,
            },
    {
        match join_url(self.base_url.as_str(), path) {
            Ok(url) => Ok(Request { method, url, body }),
            Err(_) => Err(ClientError::UrlResolution),
        }
    }

    /// Prepares the request that reads what is at a path.
    ///
    /// Fails with `UrlResolution` where the path does not resolve against the
    /// base address, and only there.
    pub fn get(&self, path: &str) -> (r: Result<Request, ClientError>)
        ensures
            match r {
                Ok(request) => request_for(self.base(), Method::Get, path@, None) == Ok::<
                    RequestView,
                    ClientErrorView,
                >(request@),
                Err(e) => request_for(self.base(), Method::Get, path@, None) == Err::<
                    RequestView,
                    ClientErrorView,
                >(e@),
            },
    {
        self.request(Method::Get, path, None)
    }

    /// Prepares the request that sends a document to a path.
    ///
    /// Fails with `UrlResolution` where the path does not resolve against the
    /// base address, and only there.
    pub fn post(&self, path: &str, data: Json) -> (r: Result<Request, ClientError>)
        ensures
            match r {
                Ok(request) => request_for(self.base(), Method::Post, path@, Some(data@)) == Ok::<
                    RequestView,
                    ClientErrorView,
                >(request@),
                Err(e) => request_for(self.base(), Method::Post, path@, Some(data@)) == Err::<
                    RequestView,
                    ClientErrorView,
                >(e@),
            },
    {
        self.request(Method::Post, path, Some(data))
    }

    /// Prepares the request that deletes what is at a path.
    ///
    /// Fails with `UrlResolution` where the path does not resolve against the
    /// base address, and only there.
    pub fn delete(&self, path: &str) -> (r: Result<Request, ClientError>)
        ensures
            match r {
                Ok(request) => request_for(self.base(), Method::Delete, path@, None) == Ok::<
                    RequestView,
                    ClientErrorView,
                >(request@),
                Err(e) => request_for(self.base(), Method::Delete, path@, None) == Err::<
                    RequestView,
                    ClientErrorView,
                >(e@),
            },
    {
        self.request(Method::Delete, path, None)
    }
}

/// Whether an operation takes a status for success.
pub fn is_accepted(method: Method, status: u16) -> (r: bool)
    ensures
        r == accepts(method, status),
{
    match method {
        Method::Get => 200 <= status && status < 300,
        Method::Post => status == 200 || status == 201,
        Method::Delete => status == 204,
    }
}

impl Request {
    /// Decides whether the way this request ended is a success.
    ///
    /// Hands out the reply where the agent answered with a status that the
    /// operation accepts. Any other status comes back as a `ServerError` that
    /// carries that status and its reason phrase; no reply at all comes back
    /// as `Transport`. For a `Delete` the one accepted status is 204.
    pub fn accept(&self, outcome: Outcome) -> (r: Result<Response, ClientError>)
        ensures
            match r {
                Ok(response) => accepted(self.method, outcome) == Ok::<
                    ResponseView,
                    ClientErrorView,
                >(response@),
                Err(e) => accepted(self.method, outcome) == Err::<ResponseView, ClientErrorView>(
                    e@,
                ),
            },
            self.method == Method::Delete ==> (r is Ok <==> answered_with(outcome, 204)),
    {
        match outcome {
            Outcome::Unreachable => Err(ClientError::Transport),
            Outcome::Answered(response) => {
                if is_accepted(self.method, response.status) {
                    Ok(response)
                } else {
                    Err(
                        ClientError::ServerError {
                            status: response.status,
                            text: response.status_text,
                        },
                    )
                }
            },
        }
    }

    /// Reads the document that this request ended with.
    ///
    /// Fails as [`Request::accept`] does where the reply is not accepted, and
    /// as [`Response::document`] does where the accepted reply holds no
    /// document.
    pub fn document(&self, outcome: Outcome) -> (r: Result<Json, ClientError>)
        ensures
            match r {
                Ok(json) => document_from(self.method, outcome) == Ok::<
                    JsonValue,
                    ClientErrorView,
                >(json@),
                Err(e) => document_from(self.method, outcome) == Err::<JsonValue, ClientErrorView>(
                    e@,
                ),
            },
    {
        let response = self.accept(outcome)?;
        response.document()
    }

    /// Reads the tunnels that this request ended with.
    ///
    /// Fails as [`Request::accept`] does where the reply is not accepted, and
    /// as [`Response::tunnels`] does where the accepted reply lists no
    /// tunnels.
    pub fn tunnels(&self, outcome: Outcome) -> (r: Result<Tunnels, ClientError>)
        ensures
            match r {
                Ok(tunnels) => tunnels_from(self.method, outcome) == Ok::<
                    TunnelsView,
                    ClientErrorView,
                >(tunnels@),
                Err(e) => tunnels_from(self.method, outcome) == Err::<
                    TunnelsView,
                    ClientErrorView,
                >(e@),
            },
    {
        let response = self.accept(outcome)?;
        response.tunnels()
    }
}

impl Response {
    /// Whether this reply announces a length and holds a body of just that
    /// length.
    pub fn is_framed(&self) -> (r: bool)
        ensures
            r == framed(self@),
    {
        let held = self.body.len();
        match &self.content_length {
            Some(text) => match parse_length(text.as_str()) {
                Some(length) => length == held,
                None => false,
            },
            None => false,
        }
    }

    /// Reads the body as a JSON document.
    ///
    /// Fails with `Decode(LengthMismatch)` where the reply announces no
    /// length that can be read or holds a body of another length, with
    /// `Decode(NotUtf8)` where the body is not valid UTF-8, and with
    /// `Decode(NotJson)` where its text is no JSON document; in this order.
    pub fn document(&self) -> (r: Result<Json, ClientError>)
        ensures
            match r {
                Ok(json) => document_in(self@) == Ok::<JsonValue, ClientErrorView>(json@),
                Err(e) => document_in(self@) == Err::<JsonValue, ClientErrorView>(e@),
            },
    {
        if !self.is_framed() {
            return Err(ClientError::Decode(DecodeError::LengthMismatch));
        }
        match utf8_text(self.body.as_slice()) {
            Some(text) => {
                proof {
                    encode_utf8_decode_utf8(text@);
                }
                match parse(text) {
                    Some(json) => Ok(json),
                    None => Err(ClientError::Decode(DecodeError::NotJson)),
                }
            },
            None => Err(ClientError::Decode(DecodeError::NotUtf8)),
        }
    }

    /// Reads the body as a collection of tunnels.
    ///
    /// Fails as [`Response::document`] does, and with `Decode(ShapeMismatch)`
    /// where the document does not describe a collection of tunnels.
    pub fn tunnels(&self) -> (r: Result<Tunnels, ClientError>)
        ensures
            match r {
                Ok(tunnels) => tunnels_in(self@) == Ok::<TunnelsView, ClientErrorView>(tunnels@),
                Err(e) => tunnels_in(self@) == Err::<TunnelsView, ClientErrorView>(e@),
            },
    {
        let json = self.document()?;
        match Tunnels::from_json(&json) {
            Ok(tunnels) => Ok(tunnels),
            Err(e) => Err(ClientError::Decode(e)),
        }
    }
}

} // verus!
