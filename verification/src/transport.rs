//! Requests and replies as plain values: what an adapter asks the transport
//! to send, and what the transport hands back.

use crate::json::{json_parse_text, Json, JsonValue};
use crate::models::{ErrorKind, Failure};
use crate::text::{decimal, format_u64, join2, join3, join4};
use http::StatusCode;
use vstd::prelude::*;

verus! {

/// The method of a request.
#[derive(Debug, Clone, Copy, PartialEq, Eq, Structural)]
pub enum Method {
    Get,
    Post,
    Put,
    Patch,
    Delete,
}

/// What a request carries.
#[derive(Debug, Clone)]
pub enum Body {
    /// Nothing.
    Empty,
    /// A JSON text.
    Json(String),
    /// Form fields, to be URL-encoded by the transport.
    Form(Vec<(String, String)>),
}

/// The mathematical value of a [`Body`].
pub enum BodyView {
    Empty,
    Json(Seq<char>),
    Form(Seq<(Seq<char>, Seq<char>)>),
}

/// The values of a list of named texts.
pub open spec fn pairs_view(pairs: Seq<(String, String)>) -> Seq<(Seq<char>, Seq<char>)> {
    Seq::new(pairs.len(), |i: int| (pairs[i].0@, pairs[i].1@))
}

impl View for Body {
    type V = BodyView;

    open spec fn view(&self) -> BodyView {
        match self {
            Body::Empty => BodyView::Empty,
            Body::Json(text) => BodyView::Json(text@),
            Body::Form(fields) => BodyView::Form(pairs_view(fields@)),
        }
    }
}

/// A request for the transport to send.
#[derive(Debug, Clone)]
pub struct Request {
    pub method: Method,
    pub url: String,
    pub headers: Vec<(String, String)>,
    pub body: Body,
}

/// The mathematical value of a [`Request`].
pub struct RequestView {
    pub method: Method,
    pub url: Seq<char>,
    pub headers: Seq<(Seq<char>, Seq<char>)>,
    pub body: BodyView,
}

impl View for Request {
    type V = RequestView;

    open spec fn view(&self) -> RequestView {
        RequestView {
            method: self.method,
            url: self.url@,
            headers: pairs_view(self.headers@),
            body: self.body@,
        }
    }
}

/// What the transport received: the status code and the body text.
#[derive(Debug, Clone)]
pub struct Reply {
    pub status: u16,
    pub body: String,
}

/// Whether a status code reports success.
pub open spec fn is_success(status: u16) -> bool {
    200 <= status < 300
}

/// The canonical reason phrase that `http::StatusCode` knows for a status
/// code. Empty for a number that is no status code or has no such phrase.
pub uninterp spec fn status_reason(status: u16) -> Seq<char>;

/// Looks up the canonical reason phrase of a status code with
/// `http::StatusCode::canonical_reason`.
///
/// The result is a function of the number alone; a number that
/// `StatusCode::from_u16` rejects, or that has no phrase, gives the empty
/// text.
#[verifier::external_body]
fn canonical_reason(status: u16) -> (r: String)
    ensures
        r@ == status_reason(status),
{
    match StatusCode::from_u16(status) {
        Ok(code) => code.canonical_reason().unwrap_or_default().to_string(),
        Err(_) => String::new(),
    }
}

/// Whether a number is a status code: it has three digits.
pub open spec fn is_status_code(status: u16) -> bool {
    100 <= status <= 999
}

/// The text that stands for a status code: the number, a space, and its
/// canonical reason phrase, or `<unknown status code>` where it has none.
/// Empty for a number that is no status code.
pub open spec fn status_text(status: u16) -> Seq<char> {
    if is_status_code(status) {
        decimal(status as int) + " "@ + if status_reason(status).len() == 0 {
            "<unknown status code>"@
        } else {
            status_reason(status)
        }
    } else {
        Seq::empty()
    }
}

/// Writes a status code as text.
fn display_status(status: u16) -> (r: String)
    ensures
        r@ == status_text(status),
{
    if 100 <= status && status <= 999 {
        let number = format_u64(status as u64);
        let reason = canonical_reason(status);
        if reason.as_str().unicode_len() == 0 {
            join3(number.as_str(), " ", "<unknown status code>")
        } else {
            join3(number.as_str(), " ", reason.as_str())
        }
    } else {
        String::new()
    }
}

/// The message of a reply that reports failure.
pub open spec fn failure_message(status: u16, body: Seq<char>) -> Seq<char> {
    "Status: "@ + status_text(status) + ", Fail "@ + body
}

impl Reply {
    /// Whether the reply reports success.
    pub fn succeeded(&self) -> (r: bool)
        ensures
            r == is_success(self.status),
    {
        200 <= self.status && self.status < 300
    }

    /// The status of the reply as text.
    pub fn status_line(&self) -> (r: String)
        ensures
            r@ == status_text(self.status),
    {
        display_status(self.status)
    }

    /// The canonical reason phrase of the status of the reply.
    pub fn reason(&self) -> (r: String)
        ensures
            r@ == status_reason(self.status),
    {
        canonical_reason(self.status)
    }

    /// The message that reports this reply as a failure.
    pub fn failure_text(&self) -> (r: String)
        ensures
            r@ == failure_message(self.status, self.body@),
    {
        let line = display_status(self.status);
        join4("Status: ", line.as_str(), ", Fail ", self.body.as_str())
    }
}

/// A name and a value, as headers and form fields are made of.
pub fn pair(name: &str, value: &str) -> (r: (String, String))
    ensures
        r.0@ == name@,
        r.1@ == value@,
{
    (String::from_str(name), String::from_str(value))
}

/// Whether a character may stand in the value of a header: every character
/// but the ASCII control characters other than the tab.
pub open spec fn is_header_char(c: char) -> bool {
    (c as u32 >= 32 && c as u32 != 127) || c == '\t'
}

/// Whether a text can be the value of a header.
pub open spec fn is_header_text(s: Seq<char>) -> bool {
    forall|i: int| 0 <= i < s.len() ==> is_header_char(#[trigger] s[i])
}

/// Whether `value` can be the value of a header.
pub fn is_header_value(value: &str) -> (r: bool)
    ensures
        r == is_header_text(value@),
{
    let chars = crate::text::chars_of(value);
    let mut i: usize = 0;
    while i < chars.len()
        invariant
            i <= chars@.len(),
            chars@ == value@,
            forall|k: int| 0 <= k < i ==> is_header_char(#[trigger] chars@[k]),
        decreases chars@.len() - i,
    {
        let c = chars[i];
        let n: u32 = c as u32;
        if !((n >= 32 && n != 127) || c == '\t') {
            assert(!is_header_char(value@[i as int]));
            return false;
        }
        i += 1;
    }
    true
}

/// What a reply holds: the JSON document of a successful one, or the failure
/// that it reports, as a kind and a message.
pub open spec fn reply_document(status: u16, body: Seq<char>) -> Result<
    JsonValue,
    (ErrorKind, Seq<char>),
> {
    if is_success(status) {
        match json_parse_text(body) {
            Some(doc) => Ok(doc),
            None => Err((ErrorKind::UnexpectedResponse, "response is not valid JSON"@)),
        }
    } else {
        Err((ErrorKind::Provider, failure_message(status, body)))
    }
}

impl Reply {
    /// Reads the JSON document of the reply, or the failure that it reports.
    pub fn document(&self) -> (r: Result<Json, Failure>)
        ensures
            match r {
                Ok(doc) => reply_document(self.status, self.body@) == Ok::<
                    JsonValue,
                    (ErrorKind, Seq<char>),
                >(doc@),
                Err(e) => reply_document(self.status, self.body@) == Err::<
                    JsonValue,
                    (ErrorKind, Seq<char>),
                >((e.kind, e.message@)),
            },
    {
        if self.succeeded() {
            match Json::parse(self.body.as_str()) {
                Some(doc) => Ok(doc),
                None => Err(
                    Failure::of(ErrorKind::UnexpectedResponse, "response is not valid JSON"),
                ),
            }
        } else {
            Err(Failure::new(ErrorKind::Provider, self.failure_text()))
        }
    }
}

/// The header that presents `token` as a bearer credential.
pub open spec fn bearer(token: Seq<char>) -> (Seq<char>, Seq<char>) {
    ("Authorization"@, "Bearer "@ + token)
}

/// The header that presents `token` as a bearer credential.
pub fn bearer_header(token: &str) -> (r: (String, String))
    ensures
        r.0@ == "Authorization"@,
        r.1@ == "Bearer "@ + token@,
        (r.0@, r.1@) == bearer(token@),
{
    (String::from_str("Authorization"), join2("Bearer ", token))
}

/// A copy of a list of named texts.
pub fn copy_pairs(pairs: &Vec<(String, String)>) -> (r: Vec<(String, String)>)
    ensures
        pairs_view(r@) == pairs_view(pairs@),
{
    let mut out: Vec<(String, String)> = Vec::new();
    let mut i: usize = 0;
    while i < pairs.len()
        invariant
            i <= pairs@.len(),
            out@.len() == i,
            forall|k: int|
                0 <= k < i ==> out@[k].0@ == pairs@[k].0@ && out@[k].1@ == pairs@[k].1@,
        decreases pairs@.len() - i,
    {
        out.push((pairs[i].0.clone(), pairs[i].1.clone()));
        i += 1;
    }
    assert(pairs_view(out@) =~= pairs_view(pairs@));
    out
}

impl Body {
    /// A copy of the body.
    pub fn copy(&self) -> (r: Body)
        ensures
            r@ == self@,
    {
        match self {
            Body::Empty => Body::Empty,
            Body::Json(text) => Body::Json(text.clone()),
            Body::Form(fields) => Body::Form(copy_pairs(fields)),
        }
    }
}

impl Request {
    /// The same request with the bearer credential `token` behind its
    /// other headers.
    pub fn with_bearer(&self, token: &str) -> (r: Request)
        ensures
            r@ == (RequestView { headers: self@.headers.push(bearer(token@)), ..self@ }),
    {
        let mut headers = copy_pairs(&self.headers);
        let ghost before = pairs_view(headers@);
        headers.push(bearer_header(token));
        assert(pairs_view(headers@) =~= before.push(bearer(token@)));
        Request {
            method: self.method,
            url: self.url.clone(),
            headers,
            body: self.body.copy(),
        }
    }
}

} // verus!
