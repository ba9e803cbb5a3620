//! Requests to the server and the reading of its answers.
//!
//! Nothing here touches the network. `SensuClient::request` says what is to
//! be sent, and `SensuClient::response` reads what came back.

use vstd::prelude::*;
use vstd::string::*;
use crate::endpoint::SensuEndpoint;
use crate::err::{ErrorView, SensuError};
use crate::json::{json_document, Json, JsonView};
use crate::payload::{encode, field_views, json_text, PayloadView, SensuPayload};
use crate::text::{decimal_text, opt_text, to_decimal};

verus! {

/// `hyper::http::uri::InvalidUri`, the reason why a text is no URI,
/// carried through to be shown.
#[verifier::external_type_specification]
#[verifier::external_body]
pub struct ExInvalidUri(hyper::http::uri::InvalidUri);

/// The three parts of a URI, each as text.
#[derive(Debug, Clone, PartialEq, Eq)]
pub struct UriParts {
    /// The scheme, such as `http`.
    pub scheme: Option<String>,
    /// The authority: host and port.
    pub authority: Option<String>,
    /// The path with its query.
    pub path_and_query: Option<String>,
}

/// The mathematical value of `UriParts`.
pub struct UriView {
    pub scheme: Option<Seq<char>>,
    pub authority: Option<Seq<char>>,
    pub path_and_query: Option<Seq<char>>,
}

impl View for UriParts {
    type V = UriView;

    open spec fn view(&self) -> UriView {
        UriView {
            scheme: opt_text(self.scheme),
            authority: opt_text(self.authority),
            path_and_query: opt_text(self.path_and_query),
        }
    }
}

/// The parts that `hyper::Uri` finds in `text` when it parses it, each as
/// its own `Display` writes it; `None` where `text` is no URI.
pub uninterp spec fn uri_split(text: Seq<char>) -> Option<UriView>;

/// Parses `text` as a `hyper::Uri`, takes it apart with `into_parts` and
/// writes each part that is there with its `Display`. The contract names the
/// parts found, and says that an error comes exactly when there are none.
#[verifier::external_body]
fn split_uri(text: &str) -> (r: Result<UriParts, hyper::http::uri::InvalidUri>)
    ensures
        match r {
            Ok(p) => uri_split(text@) == Some(p@),
            Err(_) => uri_split(text@) is None,
        },
{
    text.parse::<hyper::Uri>().map(
        |u|
            {
                let p = u.into_parts();
                UriParts {
                    scheme: p.scheme.map(|s| s.to_string()),
                    authority: p.authority.map(|a| a.to_string()),
                    path_and_query: p.path_and_query.map(|q| q.to_string()),
                }
            },
    )
}

/// What is wrong with a set of URI parts, if anything.
#[derive(Debug, Clone, Copy, PartialEq, Eq, Structural)]
pub enum PartsFault {
    /// A scheme without an authority.
    AuthorityMissing,
    /// A scheme without a path.
    PathMissing,
    /// An authority and a path without a scheme.
    SchemeMissing,
}

impl PartsFault {
    /// The message for the operator.
    pub open spec fn text(self) -> Seq<char> {
        match self {
            PartsFault::AuthorityMissing => "URI has a scheme but no authority"@,
            PartsFault::PathMissing => "URI has a scheme but no path"@,
            PartsFault::SchemeMissing => "URI has an authority and a path but no scheme"@,
        }
    }

    fn to_error(self) -> (e: SensuError)
        ensures
            e matches SensuError::Message(m) && m@ == self.text(),
    {
        match self {
            PartsFault::AuthorityMissing => SensuError::new("URI has a scheme but no authority"),
            PartsFault::PathMissing => SensuError::new("URI has a scheme but no path"),
            PartsFault::SchemeMissing => SensuError::new(
                "URI has an authority and a path but no scheme",
            ),
        }
    }
}

impl UriView {
    /// Why these parts make no URI: a scheme needs an authority and a path,
    /// and an authority with a path needs a scheme.
    pub open spec fn fault(self) -> Option<PartsFault> {
        if self.scheme is Some {
            if self.authority is None {
                Some(PartsFault::AuthorityMissing)
            } else if self.path_and_query is None {
                Some(PartsFault::PathMissing)
            } else {
                None
            }
        } else if self.authority is Some && self.path_and_query is Some {
            Some(PartsFault::SchemeMissing)
        } else {
            None
        }
    }

    /// These parts where they name a host of their own; else their path on
    /// the scheme and authority of `base`.
    pub open spec fn on_base(self, base: UriView) -> UriView {
        if self.authority is Some {
            self
        } else {
            UriView {
                scheme: base.scheme,
                authority: base.authority,
                path_and_query: self.path_and_query,
            }
        }
    }

    /// The parts written one after another, `://` after the scheme.
    pub open spec fn text(self) -> Seq<char> {
        (match self.scheme {
            Some(s) => s + "://"@,
            None => Seq::empty(),
        }) + (match self.authority {
            Some(a) => a,
            None => Seq::empty(),
        }) + (match self.path_and_query {
            Some(p) => p,
            None => Seq::empty(),
        })
    }
}

impl UriParts {
    /// Why these parts make no URI, if they do not.
    pub fn fault(&self) -> (r: Option<PartsFault>)
        ensures
            r == self@.fault(),
    {
        if self.scheme.is_some() {
            if self.authority.is_none() {
                Some(PartsFault::AuthorityMissing)
            } else if self.path_and_query.is_none() {
                Some(PartsFault::PathMissing)
            } else {
                None
            }
        } else if self.authority.is_some() && self.path_and_query.is_some() {
            Some(PartsFault::SchemeMissing)
        } else {
            None
        }
    }

    /// Resolves these parts against `base`: parts with an authority of their
    /// own stay as they are, others take the scheme and authority of `base`.
    pub fn on_base(self, base: &UriParts) -> (r: Result<UriParts, SensuError>)
        ensures
            match r {
                Ok(p) => p@ == self@.on_base(base@) && (self@.authority is Some || p@.fault()
                    is None),
                Err(e) => {
                    &&& self@.authority is None
                    &&& self@.on_base(base@).fault() matches Some(f)
                    &&& e matches SensuError::Message(m)
                    &&& m@ == f.text()
                },
            },
    {
        if self.authority.is_some() {
            return Ok(self);
        }
        let joined = UriParts {
            scheme: base.scheme.clone(),
            authority: base.authority.clone(),
            path_and_query: self.path_and_query,
        };
        match joined.fault() {
            None => Ok(joined),
            Some(f) => Err(f.to_error()),
        }
    }

    /// The parts written as one URI.
    pub fn to_text(&self) -> (s: String)
        ensures
            s@ == self@.text(),
    {
        let mut s = String::new();
        if let Some(scheme) = &self.scheme {
            s.append(scheme.as_str());
            s.append("://");
        }
        if let Some(authority) = &self.authority {
            s.append(authority.as_str());
        }
        if let Some(path) = &self.path_and_query {
            s.append(path.as_str());
        }
        s
    }
}

/// The mathematical value of what a request came to: the document that the
/// server sent, if any, or the error.
pub enum Answer {
    Found(Option<JsonView>),
    Failed(ErrorView),
}

/// The value of what a request came to.
pub open spec fn answer_of(response: Result<Option<Json>, SensuError>) -> Answer {
    match response {
        Ok(Some(j)) => Answer::Found(Some(j@)),
        Ok(None) => Answer::Found(None),
        Err(e) => Answer::Failed(e@),
    }
}

/// The method of a request.
#[derive(Debug, Clone, Copy, PartialEq, Eq, Structural)]
pub enum Method {
    Get,
    Post,
}

/// The body of a request with the headers that describe it.
#[derive(Debug, Clone, PartialEq, Eq)]
pub struct HttpBody {
    /// The body itself: one JSON object.
    pub text: String,
    /// The value of the `Content-Type` header.
    pub content_type: String,
    /// The value of the `Content-Length` header: the bytes of `text`. It is
    /// always sent, for servers that refuse chunked bodies.
    pub content_length: usize,
}

/// A request that is ready to be sent.
#[derive(Debug, Clone, PartialEq, Eq)]
pub struct HttpRequest {
    /// The method.
    pub method: Method,
    /// Where the request goes.
    pub target: UriParts,
    /// The body, if the request has one.
    pub body: Option<HttpBody>,
}

/// The name under which silences are made where the operator's is unknown.
pub open spec fn default_creator() -> Seq<char> {
    "shush"@
}

/// The name under which silences are made: the operator's user name, or a
/// fixed one where that is unknown.
pub open spec fn creator_of(user: Option<Seq<char>>) -> Seq<char> {
    match user {
        Some(u) => u,
        None => default_creator(),
    }
}

/// The text that `String::from_utf8_lossy` makes of `bytes`.
pub uninterp spec fn utf8_lossy(bytes: Seq<u8>) -> Seq<char>;

/// Calls `String::from_utf8_lossy` and owns the result. The contract names
/// the text.
#[verifier::external_body]
fn lossy_text(bytes: &[u8]) -> (s: String)
    ensures
        s@ == utf8_lossy(bytes@),
{
    String::from_utf8_lossy(bytes).into_owned()
}

/// The message for an answer whose status is neither a success nor 404.
pub open spec fn status_message(status: u16, raw: Seq<char>) -> Seq<char> {
    "Unexpected status "@ + decimal_text(status as nat) + ": "@ + raw
}

/// The message for a body that is not JSON: the parser's words, then the
/// body as it came.
pub open spec fn parse_message(parser: Seq<char>, raw: Seq<char>) -> Seq<char> {
    parser + ". Response: "@ + raw
}

/// Whether `status` reports success.
pub open spec fn is_success(status: u16) -> bool {
    200 <= status < 300
}

/// What the tool knows of the server: where it is, and in whose name
/// silences are made.
#[derive(Debug, Clone, PartialEq, Eq)]
pub struct SensuClient {
    base: UriParts,
    creator: String,
}

impl SensuClient {
    /// The parts of the server's base URI.
    pub closed spec fn base(&self) -> UriView {
        self.base@
    }

    /// The name under which silences are made.
    pub closed spec fn creator(&self) -> Seq<char> {
        self.creator@
    }

    /// Whether a request to `path` can be addressed: the path is a URI,
    /// and where that names no host, it makes a URI on the base.
    pub open spec fn reaches(&self, path: Seq<char>) -> bool {
        match uri_split(path) {
            Some(p) => p.authority is Some || p.on_base(self.base()).fault() is None,
            None => false,
        }
    }

    /// Whether `e` is the error for a path that cannot be addressed: where
    /// the path is a URI, the message that says what the URI on the base
    /// lacks.
    pub open spec fn refusal(&self, path: Seq<char>, e: ErrorView) -> bool {
        match uri_split(path) {
            Some(p) => p.on_base(self.base()).fault() matches Some(f) && e == ErrorView::Message(
                f.text(),
            ),
            None => e is Message,
        }
    }

    /// Whether `r` is what the making of a request with `method` to `path`
    /// comes to.
    ///
    /// The request is made exactly where the path can be addressed, with
    /// or without a body. It has the method, goes to the path resolved
    /// against the base, and carries the body as JSON with the headers that
    /// describe it. Where the path cannot be addressed the error is a
    /// message, which says what is missing where the path is a URI that
    /// cannot stand on the base.
    pub open spec fn makes(
        &self,
        method: Method,
        path: Seq<char>,
        body: Option<PayloadView>,
        r: Result<HttpRequest, SensuError>,
    ) -> bool {
        &&& self.reaches(path) <==> r is Ok
        &&& r matches Err(e) ==> e is Message && self.refusal(path, e@)
        &&& r matches Ok(req) ==> {
            &&& req.method == method
            &&& req.target@ == uri_split(path)->0.on_base(self.base())
            &&& match body {
                None => req.body is None,
                Some(p) => {
                    &&& req.body matches Some(b)
                    &&& b.text@ == json_text(p.members(self.creator()))
                    &&& b.content_type@ == "application/json"@
                    &&& b.content_length == vstd::utf8::encode_utf8(b.text@).len() as usize
                },
            }
        }
    }

    /// A client for the server at `base_url`, acting for `user`.
    pub fn new(base_url: String, user: Option<String>) -> (r: Result<Self, SensuError>)
        ensures
            match r {
                Ok(c) => uri_split(base_url@) == Some(c.base()) && c.creator() == creator_of(
                    opt_text(user),
                ),
                Err(e) => uri_split(base_url@) is None && e is Message,
            },
    {
        let creator = match user {
            Some(u) => u,
            None => String::from_str("shush"),
        };
        match split_uri(base_url.as_str()) {
            Ok(base) => Ok(SensuClient { base, creator }),
            Err(e) => Err(SensuError::Message(e.to_string())),
        }
    }

    /// Where a request to `endpoint` goes.
    pub fn target(&self, endpoint: SensuEndpoint) -> (r: Result<UriParts, SensuError>)
        ensures
            match r {
                Ok(t) => self.reaches(endpoint.path()) && t@ == uri_split(
                    endpoint.path(),
                )->0.on_base(self.base()),
                Err(e) => !self.reaches(endpoint.path()) && e is Message && self.refusal(
                    endpoint.path(),
                    e@,
                ),
            },
    {
        let path = endpoint.to_path();
        match split_uri(path.as_str()) {
            Ok(parts) => parts.on_base(&self.base),
            Err(e) => Err(SensuError::Message(e.to_string())),
        }
    }

    /// Makes the request that asks `endpoint` with `method`, carrying `body`
    /// as JSON where there is one.
    ///
    /// The request is made whenever the endpoint can be addressed, with or
    /// without a body.
    pub fn request(&self, method: Method, endpoint: SensuEndpoint, body: Option<SensuPayload>) -> (r:
        Result<HttpRequest, SensuError>)
        ensures
            self.makes(
                method,
                endpoint.path(),
                match body {
                    Some(p) => Some(p@),
                    None => None,
                },
                r,
            ),
    {
        let target = match self.target(endpoint) {
            Ok(t) => t,
            Err(e) => {
                return Err(e);
            },
        };
        let body = match body {
            None => None,
            Some(p) => {
                let ghost members = p@.members(self.creator());
                let fields = p.into_fields(self.creator.clone());
                match encode(&fields) {
                    Ok(text) => {
                        let content_length = text.as_str().len();
                        Some(
                            HttpBody {
                                text,
                                content_type: String::from_str("application/json"),
                                content_length,
                            },
                        )
                    },
                    Err(e) => {
                        return Err(e);
                    },
                }
            },
        };
        Ok(HttpRequest { method, target, body })
    }

    /// The error for an answer with `status`, if it is one: not-found for
    /// 404, a message with the body for any other status that is no success.
    pub fn status_error(status: u16, raw: &str) -> (r: Option<SensuError>)
        ensures
            status == 404 ==> r == Some(SensuError::NotFound),
            status != 404 && !is_success(status) ==> (r matches Some(SensuError::Message(m)) && m@
                == status_message(status, raw@)),
            is_success(status) ==> r is None,
    {
        if status == 404 {
            Some(SensuError::NotFound)
        } else if status < 200 || status >= 300 {
            let mut m = String::from_str("Unexpected status ");
            m.append(to_decimal(status as u64).as_str());
            m.append(": ");
            m.append(raw);
            Some(SensuError::Message(m))
        } else {
            None
        }
    }

    /// What a body that was not empty holds: the document that the parser
    /// read, or an error with the parser's words and the body as it came.
    pub fn document(parsed: Result<Json, String>, raw: &str) -> (r: Result<
        Option<Json>,
        SensuError,
    >)
        ensures
            match parsed {
                Ok(j) => r == Ok::<Option<Json>, SensuError>(Some(j)),
                Err(p) => r matches Err(SensuError::Message(m)) && m@ == parse_message(p@, raw@),
            },
    {
        match parsed {
            Ok(j) => Ok(Some(j)),
            Err(p) => {
                let mut m = p;
                m.append(". Response: ");
                m.append(raw);
                Err(SensuError::Message(m))
            },
        }
    }

    /// Reads the server's answer: its status and its body.
    ///
    /// 404 is the not-found outcome. Any other status outside 200 to 299 is
    /// an error that carries the body. After a success an empty body is no
    /// value, and any other body is the JSON document it spells, or an error
    /// that carries the body where it spells none.
    pub fn response(status: u16, body: &[u8]) -> (r: Result<Option<Json>, SensuError>)
        ensures
            status == 404 ==> r == Err::<Option<Json>, SensuError>(SensuError::NotFound),
            status != 404 && !is_success(status) ==> (r matches Err(SensuError::Message(m)) && m@
                == status_message(status, utf8_lossy(body@))),
            is_success(status) && body@.len() == 0 ==> r == Ok::<Option<Json>, SensuError>(None),
            is_success(status) && body@.len() > 0 ==> match json_document(body@) {
                Some(d) => r matches Ok(Some(j)) && j@ == d,
                None => r matches Err(SensuError::Message(m)) && exists|parser: Seq<char>|
                    m@ == parse_message(parser, utf8_lossy(body@)),
            },
    {
        let raw = lossy_text(body);
        if let Some(e) = Self::status_error(status, raw.as_str()) {
            return Err(e);
        }
        if body.len() == 0 {
            return Ok(None);
        }
        Self::document(Json::parse(body), raw.as_str())
    }
}

} // verus!
