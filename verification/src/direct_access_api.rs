//! Client-side logic for the direct-access service: its error documents,
//! its versions, and the requests that ask for them.

use crate::json::{
    items_view, json_parse_text, json_text, members_view, opt_view, strings_view, Json, JsonValue,
};
use crate::models::{ErrorKind, Failure};
use crate::text::{decimal, format_u64, join2, join3, join4, join5};
use crate::transport::{
    is_success, pair, pairs_view, status_text, Body, BodyView, Method, Reply, Request, RequestView,
};
use vstd::prelude::*;

verus! {

/// Where in a request an error lies.
#[derive(Debug, Clone)]
pub struct Target {
    /// The name of the field, the query parameter or the header at fault.
    pub name: String,
    /// `field`, `parameter` or `header`.
    pub kind: String,
}

/// One error of an error reply.
#[derive(Debug, Clone)]
pub struct Error {
    pub code: Option<String>,
    pub location: Option<String>,
    pub message: String,
    pub more_info: String,
    pub target: Option<Target>,
    pub value: Option<String>,
}

/// An error reply of the service.
#[derive(Debug, Clone)]
pub struct ErrorResponse {
    pub errors: Vec<Error>,
    pub status_code: u16,
    pub title: Option<String>,
    pub trace: String,
    pub correlation_id: Option<String>,
}

/// The body of an error reply: the service's own document, or plain text.
#[derive(Debug, Clone)]
pub enum ExtendedErrorResponse {
    Json(ErrorResponse),
    Text(String),
}

/// An error reply of the IAM token endpoint.
#[derive(Debug, Clone)]
pub struct IAMErrorResponse {
    pub code: String,
    pub message: String,
    pub details: Option<String>,
}

/// The version of the service, in its first form.
#[derive(Debug, Clone)]
pub struct ServiceVersionV1 {
    pub version: String,
}

/// What the second form says of the API.
#[derive(Debug, Clone)]
pub struct ServiceVersionV2Info {
    pub api_name: String,
    pub api_description: String,
}

/// What the second form says of the version.
#[derive(Debug, Clone)]
pub struct ServiceVersionV2Version {
    pub ibm_api_version: String,
    pub latest: bool,
}

/// The version of the service, in its second form.
#[derive(Debug, Clone)]
pub struct ServiceVersionV2Alpha {
    pub info: ServiceVersionV2Info,
    pub version: ServiceVersionV2Version,
}

/// The version of the service, in either form.
#[derive(Debug, Clone)]
pub enum ServiceVersion {
    V2(ServiceVersionV2Alpha),
    V1(ServiceVersionV1),
}

/// The mathematical value of a [`Target`].
pub struct TargetInfo {
    pub name: Seq<char>,
    pub kind: Seq<char>,
}

/// The mathematical value of an [`Error`].
pub struct ErrorInfo {
    pub code: Option<Seq<char>>,
    pub location: Option<Seq<char>>,
    pub message: Seq<char>,
    pub more_info: Seq<char>,
    pub target: Option<TargetInfo>,
    pub value: Option<Seq<char>>,
}

/// The mathematical value of an [`ErrorResponse`].
pub struct ErrorResponseInfo {
    pub errors: Seq<ErrorInfo>,
    pub status_code: u16,
    pub title: Option<Seq<char>>,
    pub trace: Seq<char>,
    pub correlation_id: Option<Seq<char>>,
}

impl View for Target {
    type V = TargetInfo;

    open spec fn view(&self) -> TargetInfo {
        TargetInfo { name: self.name@, kind: self.kind@ }
    }
}

impl View for Error {
    type V = ErrorInfo;

    open spec fn view(&self) -> ErrorInfo {
        ErrorInfo {
            code: opt_view(self.code),
            location: opt_view(self.location),
            message: self.message@,
            more_info: self.more_info@,
            target: match self.target {
                Some(t) => Some(t@),
                None => None,
            },
            value: opt_view(self.value),
        }
    }
}

impl View for ErrorResponse {
    type V = ErrorResponseInfo;

    open spec fn view(&self) -> ErrorResponseInfo {
        ErrorResponseInfo {
            errors: Seq::new(self.errors@.len(), |i: int| self.errors@[i]@),
            status_code: self.status_code,
            title: opt_view(self.title),
            trace: self.trace@,
            correlation_id: opt_view(self.correlation_id),
        }
    }
}

/// How a document reads as the place of an error.
pub open spec fn target_of(doc: JsonValue) -> Option<TargetInfo> {
    match (doc.text_member("name"@), doc.text_member("type"@)) {
        (Some(name), Some(kind)) => Some(TargetInfo { name, kind }),
        _ => None,
    }
}

/// The optional place of an error under `target`.
pub open spec fn optional_target(doc: JsonValue) -> Option<Option<TargetInfo>> {
    match doc.member("target"@) {
        None | Some(JsonValue::Null) => Some(None),
        Some(v) => match target_of(v) {
            Some(t) => Some(Some(t)),
            None => None,
        },
    }
}

/// How a document reads as one error.
pub open spec fn error_of(doc: JsonValue) -> Option<ErrorInfo> {
    match (
        doc.optional_text("code"@),
        doc.optional_text("location"@),
        doc.text_member("message"@),
        doc.text_member("more_info"@),
        optional_target(doc),
        doc.optional_text("value"@),
    ) {
        (Some(code), Some(location), Some(message), Some(more_info), Some(target), Some(value)) => Some(
            ErrorInfo { code, location, message, more_info, target, value },
        ),
        _ => None,
    }
}

/// How a list of documents reads as errors.
pub open spec fn errors_of(items: Seq<JsonValue>) -> Option<Seq<ErrorInfo>> {
    if forall|i: int| 0 <= i < items.len() ==> error_of(#[trigger] items[i]) is Some {
        Some(Seq::new(items.len(), |i: int| error_of(items[i])->0))
    } else {
        None
    }
}

/// How a document reads as an error reply.
pub open spec fn error_response_of(doc: JsonValue) -> Option<ErrorResponseInfo> {
    match (
        doc.member("errors"@),
        doc.unsigned_member("status_code"@),
        doc.optional_text("title"@),
        doc.text_member("trace"@),
        doc.optional_text("correlation_id"@),
    ) {
        (
            Some(JsonValue::Array(items)),
            Some(status_code),
            Some(title),
            Some(trace),
            Some(correlation_id),
        ) => match errors_of(items) {
            Some(errors) => if status_code <= u16::MAX {
                Some(
                    ErrorResponseInfo {
                        errors,
                        status_code: status_code as u16,
                        title,
                        trace,
                        correlation_id,
                    },
                )
            } else {
                None
            },
            None => None,
        },
        _ => None,
    }
}

/// The member `key` holding `text`, where there is one.
pub open spec fn text_field(key: Seq<char>, text: Option<Seq<char>>) -> Seq<
    (Seq<char>, JsonValue),
> {
    match text {
        Some(t) => seq![(key, JsonValue::Str(t))],
        None => Seq::empty(),
    }
}

/// The document of one error: members that hold nothing are left out.
pub open spec fn error_document(e: ErrorInfo) -> JsonValue {
    JsonValue::Object(
        text_field("code"@, e.code) + text_field("location"@, e.location) + seq![
            ("message"@, JsonValue::Str(e.message)),
            ("more_info"@, JsonValue::Str(e.more_info)),
        ] + (match e.target {
            Some(t) => seq![
                (
                    "target"@,
                    JsonValue::Object(
                        seq![("name"@, JsonValue::Str(t.name)), ("type"@, JsonValue::Str(t.kind))],
                    ),
                ),
            ],
            None => Seq::empty(),
        }) + text_field("value"@, e.value),
    )
}

/// The document of an error reply: members that hold nothing are left out.
pub open spec fn error_response_document(r: ErrorResponseInfo) -> JsonValue {
    JsonValue::Object(
        seq![
            (
                "errors"@,
                JsonValue::Array(Seq::new(r.errors.len(), |i: int| error_document(r.errors[i]))),
            ),
            ("status_code"@, JsonValue::Int(r.status_code as i64)),
        ] + text_field("title"@, r.title) + seq![("trace"@, JsonValue::Str(r.trace))]
            + text_field("correlation_id"@, r.correlation_id),
    )
}

/// Reads the place of an error.
pub fn read_target(doc: &Json) -> (r: Option<Target>)
    ensures
        match r {
            Some(t) => target_of(doc@) == Some(t@),
            None => target_of(doc@) is None,
        },
{
    match (doc.get_str("name"), doc.get_str("type")) {
        (Some(name), Some(kind)) => Some(Target { name: name.clone(), kind: kind.clone() }),
        _ => None,
    }
}

/// Reads one error.
pub fn read_error(doc: &Json) -> (r: Option<Error>)
    ensures
        match r {
            Some(e) => error_of(doc@) == Some(e@),
            None => error_of(doc@) is None,
        },
{
    let code = match doc.get_optional_str("code") {
        Some(c) => c,
        None => {
            return None;
        },
    };
    let location = match doc.get_optional_str("location") {
        Some(l) => l,
        None => {
            return None;
        },
    };
    let message = match doc.get_str("message") {
        Some(m) => m.clone(),
        None => {
            return None;
        },
    };
    let more_info = match doc.get_str("more_info") {
        Some(m) => m.clone(),
        None => {
            return None;
        },
    };
    let target = match doc.get("target") {
        None => None,
        Some(Json::Null) => None,
        Some(v) => match read_target(v) {
            Some(t) => Some(t),
            None => {
                return None;
            },
        },
    };
    let value = match doc.get_optional_str("value") {
        Some(v) => v,
        None => {
            return None;
        },
    };
    Some(Error { code, location, message, more_info, target, value })
}

/// Reads an error reply.
pub fn read_error_response(doc: &Json) -> (r: Option<ErrorResponse>)
    ensures
        match r {
            Some(e) => error_response_of(doc@) == Some(e@),
            None => error_response_of(doc@) is None,
        },
{
    let items = match doc.get("errors") {
        Some(list) => match list.as_array() {
            Some(items) => items,
            None => {
                return None;
            },
        },
        None => {
            return None;
        },
    };
    let status_code = match doc.get_u64("status_code") {
        Some(n) => n,
        None => {
            return None;
        },
    };
    let title = match doc.get_optional_str("title") {
        Some(t) => t,
        None => {
            return None;
        },
    };
    let trace = match doc.get_str("trace") {
        Some(t) => t.clone(),
        None => {
            return None;
        },
    };
    let correlation_id = match doc.get_optional_str("correlation_id") {
        Some(c) => c,
        None => {
            return None;
        },
    };
    let ghost values = items_view(items@);
    let mut errors: Vec<Error> = Vec::new();
    let mut i: usize = 0;
    while i < items.len()
        invariant
            i <= items@.len(),
            values == items_view(items@),
            doc@.member("errors"@) == Some(JsonValue::Array(values)),
            errors@.len() == i,
            forall|k: int| 0 <= k < i ==> error_of(#[trigger] values[k]) == Some(errors@[k]@),
        decreases items@.len() - i,
    {
        match read_error(&items[i]) {
            Some(e) => {
                errors.push(e);
            },
            None => {
                assert(error_of(values[i as int]) is None);
                return None;
            },
        }
        i += 1;
    }
    if status_code > 0xffff {
        return None;
    }
    let r = ErrorResponse { errors, status_code: status_code as u16, title, trace, correlation_id };
    assert(r@.errors =~= errors_of(values)->0);
    Some(r)
}

fn push_text(fields: &mut Vec<(String, Json)>, key: &str, text: &Option<String>)
    ensures
        members_view(final(fields)@) == members_view(old(fields)@) + text_field(
            key@,
            opt_view(*text),
        ),
{
    let ghost before = members_view(fields@);
    match text {
        Some(t) => {
            fields.push((String::from_str(key), Json::string(t.as_str())));
            assert(members_view(fields@) =~= before + text_field(key@, opt_view(*text)));
        },
        None => {
            assert(members_view(fields@) =~= before + text_field(key@, opt_view(*text)));
        },
    }
}

impl Error {
    /// The JSON document of the error.
    pub fn to_json(&self) -> (r: Json)
        ensures
            r@ == error_document(self@),
    {
        let mut fields: Vec<(String, Json)> = Vec::new();
        assert(members_view(fields@) =~= Seq::empty());
        push_text(&mut fields, "code", &self.code);
        push_text(&mut fields, "location", &self.location);
        let ghost head = members_view(fields@);
        fields.push((String::from_str("message"), Json::string(self.message.as_str())));
        fields.push((String::from_str("more_info"), Json::string(self.more_info.as_str())));
        assert(members_view(fields@) =~= head + seq![
            ("message"@, JsonValue::Str(self.message@)),
            ("more_info"@, JsonValue::Str(self.more_info@)),
        ]);
        let ghost mid = members_view(fields@);
        match &self.target {
            Some(t) => {
                let mut place: Vec<(String, Json)> = Vec::new();
                place.push((String::from_str("name"), Json::string(t.name.as_str())));
                place.push((String::from_str("type"), Json::string(t.kind.as_str())));
                assert(members_view(place@) =~= seq![
                    ("name"@, JsonValue::Str(t.name@)),
                    ("type"@, JsonValue::Str(t.kind@)),
                ]);
                fields.push((String::from_str("target"), Json::object(place)));
                assert(members_view(fields@) =~= mid + seq![
                    (
                        "target"@,
                        JsonValue::Object(
                            seq![
                                ("name"@, JsonValue::Str(t.name@)),
                                ("type"@, JsonValue::Str(t.kind@)),
                            ],
                        ),
                    ),
                ]);
            },
            None => {
                assert(members_view(fields@) =~= mid + Seq::empty());
            },
        }
        push_text(&mut fields, "value", &self.value);
        Json::object(fields)
    }
}

impl ErrorResponse {
    /// The JSON document of the error reply.
    pub fn to_json(&self) -> (r: Json)
        ensures
            r@ == error_response_document(self@),
    {
        let mut items: Vec<Json> = Vec::new();
        let mut i: usize = 0;
        while i < self.errors.len()
            invariant
                i <= self.errors@.len(),
                items@.len() == i,
                forall|k: int|
                    0 <= k < i ==> (#[trigger] items@[k])@ == error_document(self.errors@[k]@),
            decreases self.errors@.len() - i,
        {
            items.push(self.errors[i].to_json());
            i += 1;
        }
        let list = Json::Array(items);
        proof {
            crate::json::lemma_view_unfold(list);
            assert(items_view(items@) =~= Seq::new(
                self@.errors.len(),
                |i: int| error_document(self@.errors[i]),
            ));
        }
        let mut fields: Vec<(String, Json)> = Vec::new();
        fields.push((String::from_str("errors"), list));
        fields.push((String::from_str("status_code"), Json::Int(self.status_code as i64)));
        assert(members_view(fields@) =~= seq![
            ("errors"@, list@),
            ("status_code"@, JsonValue::Int(self.status_code as i64)),
        ]);
        push_text(&mut fields, "title", &self.title);
        let ghost mid = members_view(fields@);
        fields.push((String::from_str("trace"), Json::string(self.trace.as_str())));
        assert(members_view(fields@) =~= mid + seq![("trace"@, JsonValue::Str(self.trace@))]);
        push_text(&mut fields, "correlation_id", &self.correlation_id);
        Json::object(fields)
    }
}

/// The address of the direct-access service.
#[derive(Debug, Clone)]
pub struct Client {
    pub base_url: String,
}

/// The mathematical value of an [`ExtendedErrorResponse`].
pub enum ExtendedErrorInfo {
    Json(ErrorResponseInfo),
    Text(Seq<char>),
}

impl View for ExtendedErrorResponse {
    type V = ExtendedErrorInfo;

    open spec fn view(&self) -> ExtendedErrorInfo {
        match self {
            ExtendedErrorResponse::Json(e) => ExtendedErrorInfo::Json(e@),
            ExtendedErrorResponse::Text(t) => ExtendedErrorInfo::Text(t@),
        }
    }
}

/// How the body of an error reply reads: as the service's own document
/// where it is one, else as plain text where it is a JSON string.
pub open spec fn extended_error_of(body: Seq<char>) -> Option<ExtendedErrorInfo> {
    match json_parse_text(body) {
        Some(doc) => extended_error_in(doc),
        None => None,
    }
}

/// How an error document reads: as the service's own document where it is
/// one, else as plain text where it is a string.
pub open spec fn extended_error_in(doc: JsonValue) -> Option<ExtendedErrorInfo> {
    match error_response_of(doc) {
        Some(e) => Some(ExtendedErrorInfo::Json(e)),
        None => match doc {
            JsonValue::Str(text) => Some(ExtendedErrorInfo::Text(text)),
            _ => None,
        },
    }
}

/// The versions that the body of a reply lists under `versions`: none where
/// the member is absent or `null`. `None` where the body is no JSON or the
/// member is no list of strings.
pub open spec fn versions_of(body: Seq<char>) -> Option<Seq<Seq<char>>> {
    match json_parse_text(body) {
        Some(doc) => versions_in(doc),
        None => None,
    }
}

/// The versions that a document lists under `versions`: none where the
/// member is absent or `null`.
pub open spec fn versions_in(doc: JsonValue) -> Option<Seq<Seq<char>>> {
    match doc.member("versions"@) {
        None | Some(JsonValue::Null) => Some(Seq::empty()),
        Some(list) => list.texts(),
    }
}

/// The version that a document states: in the second form the version of
/// the API, in the first form the version of the service.
pub open spec fn version_in(doc: JsonValue) -> Option<Seq<char>> {
    let second = match (doc.member("info"@), doc.member("version"@)) {
        (Some(info), Some(version)) => if info.text_member("api_name"@) is Some
            && info.text_member("api_description"@) is Some && version.bool_member("latest"@)
            is Some {
            version.text_member("ibm_api_version"@)
        } else {
            None
        },
        _ => None,
    };
    if second is Some {
        second
    } else {
        doc.text_member("version"@)
    }
}

/// The version that the body of a reply states.
pub open spec fn version_of(body: Seq<char>) -> Option<Seq<char>> {
    match json_parse_text(body) {
        Some(doc) => version_in(doc),
        None => None,
    }
}

/// The message that reports a failed request for the list of versions.
pub open spec fn versions_failure(status: u16, body: Seq<char>, url: Seq<char>) -> Seq<char> {
    match extended_error_of(body) {
        Some(ExtendedErrorInfo::Json(e)) => json_text(error_response_document(e)),
        Some(ExtendedErrorInfo::Text(message)) => status_text(status) + " ("@ + message + ")"@,
        None => status_text(status) + " "@ + url,
    }
}

/// The message that reports a failed request for the version.
pub open spec fn version_failure(status: u16, body: Seq<char>, url: Seq<char>) -> Seq<char> {
    match extended_error_of(body) {
        Some(ExtendedErrorInfo::Json(e)) => (match e.title {
            Some(title) => title,
            None => Seq::empty(),
        }) + " ("@ + decimal(e.status_code as int) + ") "@ + json_text(
            error_response_document(e)->Object_0[0].1,
        ),
        Some(ExtendedErrorInfo::Text(message)) => status_text(status) + " ("@ + message + ")"@,
        None => status_text(status) + " "@ + url,
    }
}

/// Reads an error document.
pub fn read_extended_error_in(doc: &Json) -> (r: Option<ExtendedErrorResponse>)
    ensures
        match r {
            Some(e) => extended_error_in(doc@) == Some(e@),
            None => extended_error_in(doc@) is None,
        },
{
    match read_error_response(doc) {
        Some(e) => Some(ExtendedErrorResponse::Json(e)),
        None => match doc.as_str() {
            Some(text) => Some(ExtendedErrorResponse::Text(text.clone())),
            None => None,
        },
    }
}

/// Reads the body of an error reply.
pub fn read_extended_error(body: &str) -> (r: Option<ExtendedErrorResponse>)
    ensures
        match r {
            Some(e) => extended_error_of(body@) == Some(e@),
            None => extended_error_of(body@) is None,
        },
{
    match Json::parse(body) {
        Some(doc) => read_extended_error_in(&doc),
        None => None,
    }
}

/// Reads the version that a document states.
pub fn read_version(doc: &Json) -> (r: Option<String>)
    ensures
        match r {
            Some(v) => version_in(doc@) == Some(v@),
            None => version_in(doc@) is None,
        },
{
    match (doc.get("info"), doc.get("version")) {
        (Some(info), Some(version)) => {
            if info.get_str("api_name").is_some() && info.get_str("api_description").is_some()
                && version.get_bool("latest").is_some() {
                match version.get_str("ibm_api_version") {
                    Some(v) => {
                        return Some(v.clone());
                    },
                    None => {},
                }
            }
        },
        _ => {},
    }
    match doc.get_str("version") {
        Some(v) => Some(v.clone()),
        None => None,
    }
}

/// Reads the versions that a document lists.
pub fn read_versions_in(doc: &Json) -> (r: Option<Vec<String>>)
    ensures
        match r {
            Some(versions) => versions_in(doc@) == Some(strings_view(versions@)),
            None => versions_in(doc@) is None,
        },
{
    match doc.get("versions") {
        None => {
            assert(strings_view(Seq::<String>::empty()) =~= Seq::<Seq<char>>::empty());
            Some(Vec::new())
        },
        Some(Json::Null) => {
            assert(strings_view(Seq::<String>::empty()) =~= Seq::<Seq<char>>::empty());
            Some(Vec::new())
        },
        Some(list) => list.as_texts(),
    }
}

/// Reads the versions that the body of a reply lists.
pub fn read_versions(body: &str) -> (r: Option<Vec<String>>)
    ensures
        match r {
            Some(versions) => versions_of(body@) == Some(strings_view(versions@)),
            None => versions_of(body@) is None,
        },
{
    match Json::parse(body) {
        Some(doc) => read_versions_in(&doc),
        None => None,
    }
}

impl Client {
    /// A client for the service at `base_url`.
    pub fn new(base_url: &str) -> (r: Client)
        ensures
            r.base_url@ == base_url@,
    {
        Client { base_url: String::from_str(base_url) }
    }

    /// A request for the document at `path`.
    pub fn get(&self, path: &str) -> (r: Request)
        ensures
            r@ == (RequestView {
                method: Method::Get,
                url: self.base_url@ + path@,
                headers: seq![("Content-Type"@, "application/json"@)],
                body: BodyView::Empty,
            }),
    {
        let mut headers: Vec<(String, String)> = Vec::new();
        headers.push(pair("Content-Type", "application/json"));
        assert(pairs_view(headers@) =~= seq![("Content-Type"@, "application/json"@)]);
        Request {
            method: Method::Get,
            url: join2(self.base_url.as_str(), path),
            headers,
            body: Body::Empty,
        }
    }

    /// The request for the versions of the API that the service supports.
    pub fn list_api_versions(&self) -> (r: Request)
        ensures
            r@ == (RequestView {
                method: Method::Get,
                url: self.base_url@ + "/versions"@,
                headers: seq![("Content-Type"@, "application/json"@)],
                body: BodyView::Empty,
            }),
    {
        self.get("/versions")
    }

    /// The versions that the reply to `list_api_versions` lists.
    pub fn list_api_versions_result(&self, reply: &Reply) -> (r: Result<Vec<String>, Failure>)
        ensures
            match r {
                Ok(versions) => is_success(reply.status) && versions_of(reply.body@) == Some(
                    strings_view(versions@),
                ),
                Err(e) => if is_success(reply.status) {
                    versions_of(reply.body@) is None && e.is(
                        ErrorKind::UnexpectedResponse,
                        "the reply lists no versions"@,
                    )
                } else {
                    e.is(
                        ErrorKind::Provider,
                        versions_failure(
                            reply.status,
                            reply.body@,
                            self.base_url@ + "/versions"@,
                        ),
                    )
                },
            },
    {
        if reply.succeeded() {
            match read_versions(reply.body.as_str()) {
                Some(versions) => Ok(versions),
                None => Err(
                    Failure::of(ErrorKind::UnexpectedResponse, "the reply lists no versions"),
                ),
            }
        } else {
            let line = reply.status_line();
            let message = match read_extended_error(reply.body.as_str()) {
                Some(ExtendedErrorResponse::Json(error)) => error.to_json().to_text(),
                Some(ExtendedErrorResponse::Text(message)) => join4(
                    line.as_str(),
                    " (",
                    message.as_str(),
                    ")",
                ),
                None => {
                    let url = join2(self.base_url.as_str(), "/versions");
                    join3(line.as_str(), " ", url.as_str())
                },
            };
            Err(Failure::new(ErrorKind::Provider, message))
        }
    }

    /// The request for the version of the service.
    pub fn get_service_version(&self) -> (r: Request)
        ensures
            r@ == (RequestView {
                method: Method::Get,
                url: self.base_url@ + "/version"@,
                headers: seq![("Content-Type"@, "application/json"@)],
                body: BodyView::Empty,
            }),
    {
        self.get("/version")
    }

    /// The version that the reply to `get_service_version` states.
    pub fn get_service_version_result(&self, reply: &Reply) -> (r: Result<String, Failure>)
        ensures
            match r {
                Ok(version) => is_success(reply.status) && version_of(reply.body@) == Some(
                    version@,
                ),
                Err(e) => if is_success(reply.status) {
                    version_of(reply.body@) is None && e.is(
                        ErrorKind::UnexpectedResponse,
                        "the reply states no version"@,
                    )
                } else {
                    e.is(
                        ErrorKind::Provider,
                        version_failure(reply.status, reply.body@, self.base_url@ + "/version"@),
                    )
                },
            },
    {
        if reply.succeeded() {
            let found = match Json::parse(reply.body.as_str()) {
                Some(doc) => read_version(&doc),
                None => None,
            };
            match found {
                Some(version) => Ok(version),
                None => Err(
                    Failure::of(ErrorKind::UnexpectedResponse, "the reply states no version"),
                ),
            }
        } else {
            let line = reply.status_line();
            let message = match read_extended_error(reply.body.as_str()) {
                Some(ExtendedErrorResponse::Json(error)) => {
                    let title = match &error.title {
                        Some(t) => t.clone(),
                        None => String::new(),
                    };
                    let code = format_u64(error.status_code as u64);
                    let doc = error.to_json();
                    let errors = match doc.get("errors") {
                        Some(list) => list.to_text(),
                        None => String::new(),
                    };
                    proof {
                        reveal_with_fuel(crate::json::member_index, 2);
                        assert(doc@.member("errors"@) == Some(
                            error_response_document(error@)->Object_0[0].1,
                        ));
                    }
                    join5(title.as_str(), " (", code.as_str(), ") ", errors.as_str())
                },
                Some(ExtendedErrorResponse::Text(message)) => join4(
                    line.as_str(),
                    " (",
                    message.as_str(),
                    ")",
                ),
                None => {
                    let url = join2(self.base_url.as_str(), "/version");
                    join3(line.as_str(), " ", url.as_str())
                },
            };
            Err(Failure::new(ErrorKind::Provider, message))
        }
    }
}

} // verus!
