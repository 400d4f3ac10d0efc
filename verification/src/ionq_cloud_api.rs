//! Client-side logic for the IonQ Cloud service: backends, request planning
//! and response reading.

use crate::json::{
    items_view, json_text, members_view, opt_doc_view, opt_str_view, opt_strings_view, opt_view,
    Json, JsonValue,
};
use crate::models::{ErrorKind, Failure};
use crate::text::{
    chars_are, chars_of, decimal, format_u64, join2, join3, join4, lowercase_chars, str_eq,
    string_of, to_ascii_lowercase, trim, trim_chars, unicode_uppercase, uppercase_of,
};
use crate::transport::{
    is_header_text, is_header_value, is_success, pair, pairs_view, reply_document, Body, BodyView,
    Method, Reply, Request, RequestView,
};
use vstd::prelude::*;

verus! {

/// The IonQ backends.
#[derive(Debug, Clone, Copy, PartialEq, Eq, Hash, Structural)]
pub enum Backend {
    Simulator,
    QpuHarmony,
    QpuAria1,
    QpuAria2,
    QpuForte1,
    QpuForteEnterprise1,
    QpuForteEnterprise2,
}

impl Backend {
    /// The name by which the service knows the backend.
    pub open spec fn name(self) -> Seq<char> {
        match self {
            Backend::Simulator => "simulator"@,
            Backend::QpuHarmony => "qpu.harmony"@,
            Backend::QpuAria1 => "qpu.aria-1"@,
            Backend::QpuAria2 => "qpu.aria-2"@,
            Backend::QpuForte1 => "qpu.forte-1"@,
            Backend::QpuForteEnterprise1 => "qpu.forte-enterprise-1"@,
            Backend::QpuForteEnterprise2 => "qpu.forte-enterprise-2"@,
        }
    }

    /// The backend that the normalised name `n` stands for, aliases
    /// included.
    pub open spec fn of_normalised(n: Seq<char>) -> Option<Backend> {
        if n == "simulator"@ || n == "sim"@ {
            Some(Backend::Simulator)
        } else if n == "qpu.harmony"@ || n == "harmony"@ || n == "qpu_harmony"@ {
            Some(Backend::QpuHarmony)
        } else if n == "qpu.aria-1"@ || n == "qpu.aria1"@ || n == "aria-1"@ || n == "aria1"@ {
            Some(Backend::QpuAria1)
        } else if n == "qpu.aria-2"@ || n == "qpu.aria2"@ || n == "aria-2"@ || n == "aria2"@ {
            Some(Backend::QpuAria2)
        } else if n == "qpu.forte-1"@ || n == "qpu.forte1"@ || n == "forte-1"@ || n
            == "forte1"@ {
            Some(Backend::QpuForte1)
        } else if n == "qpu.forte-enterprise-1"@ || n == "qpu.forte_enterprise-1"@ || n
            == "forte-enterprise-1"@ {
            Some(Backend::QpuForteEnterprise1)
        } else if n == "qpu.forte-enterprise-2"@ || n == "qpu.forte_enterprise-2"@ || n
            == "forte-enterprise-2"@ {
            Some(Backend::QpuForteEnterprise2)
        } else {
            None
        }
    }

    /// The backend that `s` names: surrounding whitespace and the case of
    /// ASCII letters do not count.
    pub open spec fn named(s: Seq<char>) -> Option<Backend> {
        Self::of_normalised(to_ascii_lowercase(trim(s)))
    }

    /// The name by which the service knows the backend.
    pub fn as_str(self) -> (r: &'static str)
        ensures
            r@ == self.name(),
    {
        match self {
            Backend::Simulator => "simulator",
            Backend::QpuHarmony => "qpu.harmony",
            Backend::QpuAria1 => "qpu.aria-1",
            Backend::QpuAria2 => "qpu.aria-2",
            Backend::QpuForte1 => "qpu.forte-1",
            Backend::QpuForteEnterprise1 => "qpu.forte-enterprise-1",
            Backend::QpuForteEnterprise2 => "qpu.forte-enterprise-2",
        }
    }

    /// Reads the name of a backend.
    pub fn parse(s: &str) -> (r: Result<Backend, Failure>)
        ensures
            match r {
                Ok(backend) => Self::named(s@) == Some(backend),
                Err(e) => Self::named(s@) is None && e.is(
                    ErrorKind::InvalidArgument,
                    "unknown IonQ backend: '"@ + trim(s@) + "'"@,
                ),
            },
    {
        let chars = chars_of(s);
        let trimmed = trim_chars(chars.as_slice());
        let lowered = lowercase_chars(trimmed.as_slice());
        let n = lowered.as_slice();
        if chars_are(n, "simulator") || chars_are(n, "sim") {
            Ok(Backend::Simulator)
        } else if chars_are(n, "qpu.harmony") || chars_are(n, "harmony") || chars_are(
            n,
            "qpu_harmony",
        ) {
            Ok(Backend::QpuHarmony)
        } else if chars_are(n, "qpu.aria-1") || chars_are(n, "qpu.aria1") || chars_are(n, "aria-1")
            || chars_are(n, "aria1") {
            Ok(Backend::QpuAria1)
        } else if chars_are(n, "qpu.aria-2") || chars_are(n, "qpu.aria2") || chars_are(n, "aria-2")
            || chars_are(n, "aria2") {
            Ok(Backend::QpuAria2)
        } else if chars_are(n, "qpu.forte-1") || chars_are(n, "qpu.forte1") || chars_are(
            n,
            "forte-1",
        ) || chars_are(n, "forte1") {
            Ok(Backend::QpuForte1)
        } else if chars_are(n, "qpu.forte-enterprise-1") || chars_are(n, "qpu.forte_enterprise-1")
            || chars_are(n, "forte-enterprise-1") {
            Ok(Backend::QpuForteEnterprise1)
        } else if chars_are(n, "qpu.forte-enterprise-2") || chars_are(n, "qpu.forte_enterprise-2")
            || chars_are(n, "forte-enterprise-2") {
            Ok(Backend::QpuForteEnterprise2)
        } else {
            let shown = string_of(trimmed.as_slice());
            Err(
                Failure::new(
                    ErrorKind::InvalidArgument,
                    join3("unknown IonQ backend: '", shown.as_str(), "'"),
                ),
            )
        }
    }
}

/// The IonQ devices.
#[derive(Debug, Clone, Copy, PartialEq, Eq, Structural)]
pub enum DeviceType {
    Simulator,
    Harmony,
    Aria1,
    Aria2,
    Forte1,
    ForteEnterprise1,
    ForteEnterprise2,
}

impl DeviceType {
    /// The name by which the service knows the device.
    pub open spec fn name(self) -> Seq<char> {
        match self {
            DeviceType::Simulator => "simulator"@,
            DeviceType::Harmony => "qpu.harmony"@,
            DeviceType::Aria1 => "qpu.aria-1"@,
            DeviceType::Aria2 => "qpu.aria-2"@,
            DeviceType::Forte1 => "qpu.forte-1"@,
            DeviceType::ForteEnterprise1 => "qpu.forte-enterprise-1"@,
            DeviceType::ForteEnterprise2 => "qpu.forte-enterprise-2"@,
        }
    }

    /// The device whose name is the upper-case form of `s`.
    pub open spec fn named(s: Seq<char>) -> Option<DeviceType> {
        let u = unicode_uppercase(s);
        if u == "simulator"@ {
            Some(DeviceType::Simulator)
        } else if u == "qpu.harmony"@ {
            Some(DeviceType::Harmony)
        } else if u == "qpu.aria-1"@ {
            Some(DeviceType::Aria1)
        } else if u == "qpu.aria-2"@ {
            Some(DeviceType::Aria2)
        } else if u == "qpu.forte-1"@ {
            Some(DeviceType::Forte1)
        } else if u == "qpu.forte-enterprise-1"@ {
            Some(DeviceType::ForteEnterprise1)
        } else if u == "qpu.forte-enterprise-2"@ {
            Some(DeviceType::ForteEnterprise2)
        } else {
            None
        }
    }

    /// The name by which the service knows the device.
    pub fn as_str(&self) -> (r: &'static str)
        ensures
            r@ == self.name(),
    {
        match self {
            DeviceType::Simulator => "simulator",
            DeviceType::Harmony => "qpu.harmony",
            DeviceType::Aria1 => "qpu.aria-1",
            DeviceType::Aria2 => "qpu.aria-2",
            DeviceType::Forte1 => "qpu.forte-1",
            DeviceType::ForteEnterprise1 => "qpu.forte-enterprise-1",
            DeviceType::ForteEnterprise2 => "qpu.forte-enterprise-2",
        }
    }

    /// Reads a device name: the upper-case form of `s` is held against the
    /// names as they are written.
    pub fn parse(s: &str) -> (r: Option<DeviceType>)
        ensures
            r == Self::named(s@),
    {
        let upper = uppercase_of(s);
        let u = upper.as_str();
        if str_eq(u, "simulator") {
            Some(DeviceType::Simulator)
        } else if str_eq(u, "qpu.harmony") {
            Some(DeviceType::Harmony)
        } else if str_eq(u, "qpu.aria-1") {
            Some(DeviceType::Aria1)
        } else if str_eq(u, "qpu.aria-2") {
            Some(DeviceType::Aria2)
        } else if str_eq(u, "qpu.forte-1") {
            Some(DeviceType::Forte1)
        } else if str_eq(u, "qpu.forte-enterprise-1") {
            Some(DeviceType::ForteEnterprise1)
        } else if str_eq(u, "qpu.forte-enterprise-2") {
            Some(DeviceType::ForteEnterprise2)
        } else {
            None
        }
    }
}

/// The envelope in which the service may wrap what it returns.
#[derive(Debug, Clone)]
pub struct Response<T> {
    pub data: T,
}

/// How the service describes a backend.
#[derive(Debug, Clone)]
pub struct IonQBackend {
    pub backend: String,
    pub status: String,
    pub qubits: u32,
    pub degraded: Option<bool>,
    pub average_queue_time: Option<u64>,
    pub last_updated: Option<String>,
    pub noise_models: Option<Vec<String>>,
}

/// A limit on the cost of a session.
#[derive(Debug, Clone)]
pub struct SessionCostLimit {
    pub unit: String,
    pub value: u64,
}

/// The settings of a session, as the service reports them.
#[derive(Debug, Clone)]
pub struct SessionSettings {
    pub job_count_limit: Option<u32>,
    pub duration_limit_min: Option<u32>,
    pub cost_limit: Option<SessionCostLimit>,
    pub expires_at: String,
}

/// How the service describes a session.
#[derive(Debug, Clone)]
pub struct SessionData {
    pub id: String,
    pub created_at: String,
    pub organization_id: String,
    pub backend: String,
    pub project_id: String,
    pub creator_id: String,
    pub ended_at: Option<String>,
    pub ender_id: Option<String>,
    pub active: bool,
    pub status: String,
    pub started_at: Option<String>,
    pub settings: SessionSettings,
}

/// How the service describes a job.
#[derive(Debug, Clone)]
pub struct IonQJob {
    pub id: String,
    pub status: String,
    pub session_id: Option<String>,
}

/// The limits asked for a new session.
#[derive(Debug, Clone)]
pub struct SessionLimits {
    pub job_count_limit: u32,
    pub duration_limit_min: u32,
    pub cost_limit: SessionCostLimit,
}

/// A session to create.
#[derive(Debug, Clone)]
pub struct SessionRequestData {
    pub backend: String,
    pub limits: Option<SessionLimits>,
}

/// Configuration from which a [`Client`] is made.
#[must_use]
#[derive(Debug, Clone)]
pub struct ClientBuilder {
    pub base_url: String,
    pub api_key: String,
}

/// The address and the key of one IonQ Cloud account.
#[derive(Debug, Clone)]
pub struct Client {
    pub base_url: String,
    pub api_key: String,
}

/// The headers that every request to the service carries.
pub open spec fn service_headers(api_key: Seq<char>) -> Seq<(Seq<char>, Seq<char>)> {
    seq![("Authorization"@, "apiKey "@ + api_key), ("Content-Type"@, "application/json"@)]
}

impl ClientBuilder {
    /// A builder for the given key, with the service's own address.
    pub fn new(api_key: String) -> (r: Self)
        ensures
            r.base_url@ == "https://api.ionq.co/v0.4"@,
            r.api_key@ == api_key@,
    {
        Self { base_url: String::from_str("https://api.ionq.co/v0.4"), api_key }
    }

    /// The client that this configuration describes. Fails where the key
    /// cannot stand in a header.
    pub fn build(&self) -> (r: Result<Client, Failure>)
        ensures
            match r {
                Ok(client) => is_header_text("apiKey "@ + self.api_key@) && client.base_url@
                    == self.base_url@ && client.api_key@ == self.api_key@,
                Err(e) => !is_header_text("apiKey "@ + self.api_key@) && e.is(
                    ErrorKind::MalformedCredential,
                    "the API key cannot stand in a header"@,
                ),
            },
    {
        let value = join2("apiKey ", self.api_key.as_str());
        if is_header_value(value.as_str()) {
            Ok(Client { base_url: self.base_url.clone(), api_key: self.api_key.clone() })
        } else {
            Err(
                Failure::of(ErrorKind::MalformedCredential, "the API key cannot stand in a header"),
            )
        }
    }
}

impl Client {
    /// A request to the service at `url`, carrying the key.
    pub fn request(&self, method: Method, url: String, body: Body) -> (r: Request)
        ensures
            r@ == (RequestView {
                method,
                url: url@,
                headers: service_headers(self.api_key@),
                body: body@,
            }),
    {
        let mut headers: Vec<(String, String)> = Vec::new();
        let key = join2("apiKey ", self.api_key.as_str());
        headers.push(pair("Authorization", key.as_str()));
        headers.push(pair("Content-Type", "application/json"));
        assert(pairs_view(headers@) =~= service_headers(self.api_key@));
        Request { method, url, headers, body }
    }

    /// The request for the description of a backend.
    pub fn get_backend(&self, backend: Backend) -> (r: Request)
        ensures
            r@ == (RequestView {
                method: Method::Get,
                url: self.base_url@ + "/backends/"@ + backend.name(),
                headers: service_headers(self.api_key@),
                body: BodyView::Empty,
            }),
    {
        let url = join3(self.base_url.as_str(), "/backends/", backend.as_str());
        self.request(Method::Get, url, Body::Empty)
    }

    /// The request that ends a session.
    pub fn end_session(&self, id: &str) -> (r: Request)
        ensures
            r@ == (RequestView {
                method: Method::Post,
                url: self.base_url@ + "/sessions/"@ + id@ + "/end"@,
                headers: service_headers(self.api_key@),
                body: BodyView::Json("null"@),
            }),
    {
        let url = join4(self.base_url.as_str(), "/sessions/", id, "/end");
        self.request(Method::Post, url, Body::Json(String::from_str("null")))
    }

    /// The request for the description of a job.
    pub fn get_job(&self, id: &str) -> (r: Request)
        ensures
            r@ == (RequestView {
                method: Method::Get,
                url: self.base_url@ + "/jobs/"@ + id@,
                headers: service_headers(self.api_key@),
                body: BodyView::Empty,
            }),
    {
        let url = join3(self.base_url.as_str(), "/jobs/", id);
        self.request(Method::Get, url, Body::Empty)
    }

    /// The request that cancels a job.
    pub fn cancel_job(&self, id: &str) -> (r: Request)
        ensures
            r@ == (RequestView {
                method: Method::Put,
                url: self.base_url@ + "/jobs/"@ + id@ + "/cancel"@,
                headers: service_headers(self.api_key@),
                body: BodyView::Empty,
            }),
    {
        let url = join4(self.base_url.as_str(), "/jobs/", id, "/cancel");
        self.request(Method::Put, url, Body::Empty)
    }

    /// The request that deletes a job.
    pub fn delete_job(&self, id: &str) -> (r: Request)
        ensures
            r@ == (RequestView {
                method: Method::Delete,
                url: self.base_url@ + "/jobs/"@ + id@,
                headers: service_headers(self.api_key@),
                body: BodyView::Empty,
            }),
    {
        let url = join3(self.base_url.as_str(), "/jobs/", id);
        self.request(Method::Delete, url, Body::Empty)
    }

    /// The request that submits `body` as a job.
    pub fn create_job_raw(&self, body: &Json) -> (r: Request)
        ensures
            r@ == (RequestView {
                method: Method::Post,
                url: self.base_url@ + "/jobs"@,
                headers: service_headers(self.api_key@),
                body: BodyView::Json(json_text(body@)),
            }),
    {
        let url = join2(self.base_url.as_str(), "/jobs");
        self.request(Method::Post, url, Body::Json(body.to_text()))
    }
}

/// The failure that reports a document of another shape than expected.
pub open spec fn shape_error(doc: JsonValue) -> (ErrorKind, Seq<char>) {
    (ErrorKind::UnexpectedResponse, "Unexpected IonQ response shape: "@ + json_text(doc))
}

/// The document in which a reply describes a job: what stands under `data`,
/// else under `job`, else the reply itself.
pub open spec fn job_document(raw: JsonValue) -> JsonValue {
    match raw.member("data"@) {
        Some(data) => data,
        None => match raw.member("job"@) {
            Some(job) => job,
            None => raw,
        },
    }
}

/// The job that a reply describes: its `id`, which must be a string; its
/// `status`, or `unknown` where that is no string; and its `session_id`
/// where that is a string.
pub open spec fn job_of(raw: JsonValue) -> Result<
    (Seq<char>, Seq<char>, Option<Seq<char>>),
    (ErrorKind, Seq<char>),
> {
    let doc = job_document(raw);
    match doc.text_member("id"@) {
        Some(id) => Ok(
            (
                id,
                match doc.text_member("status"@) {
                    Some(status) => status,
                    None => "unknown"@,
                },
                doc.text_member("session_id"@),
            ),
        ),
        None => Err(
            (
                ErrorKind::UnexpectedResponse,
                "IonQ job response missing 'id': "@ + json_text(doc),
            ),
        ),
    }
}

/// Reads the JSON document of a reply, or the failure that it reports.
pub fn handle_request(reply: &Reply) -> (r: Result<Json, Failure>)
    ensures
        match r {
            Ok(doc) => reply_document(reply.status, reply.body@) == Ok::<
                JsonValue,
                (ErrorKind, Seq<char>),
            >(doc@),
            Err(e) => reply_document(reply.status, reply.body@) == Err::<
                JsonValue,
                (ErrorKind, Seq<char>),
            >((e.kind, e.message@)),
        },
{
    reply.document()
}

/// Reads the job that a reply document describes.
pub fn extract_job(raw: &Json) -> (r: Result<IonQJob, Failure>)
    ensures
        match r {
            Ok(job) => job_of(raw@) == Ok::<
                (Seq<char>, Seq<char>, Option<Seq<char>>),
                (ErrorKind, Seq<char>),
            >((job.id@, job.status@, opt_view(job.session_id))),
            Err(e) => job_of(raw@) == Err::<
                (Seq<char>, Seq<char>, Option<Seq<char>>),
                (ErrorKind, Seq<char>),
            >((e.kind, e.message@)),
        },
{
    let doc = match raw.get("data") {
        Some(data) => data,
        None => match raw.get("job") {
            Some(job) => job,
            None => raw,
        },
    };
    let id = match doc.get_str("id") {
        Some(id) => id.clone(),
        None => {
            let shown = doc.to_text();
            return Err(
                Failure::new(
                    ErrorKind::UnexpectedResponse,
                    join2("IonQ job response missing 'id': ", shown.as_str()),
                ),
            );
        },
    };
    let status = match doc.get_str("status") {
        Some(status) => status.clone(),
        None => String::from_str("unknown"),
    };
    let session_id = match doc.get_str("session_id") {
        Some(s) => Some(s.clone()),
        None => None,
    };
    Ok(IonQJob { id, status, session_id })
}

impl IonQJob {
    /// The JSON document of the job.
    pub open spec fn document(self) -> JsonValue {
        JsonValue::Object(
            seq![
                ("id"@, JsonValue::Str(self.id@)),
                ("status"@, JsonValue::Str(self.status@)),
                (
                    "session_id"@,
                    match self.session_id {
                        Some(s) => JsonValue::Str(s@),
                        None => JsonValue::Null,
                    },
                ),
            ],
        )
    }

    /// The JSON document of the job.
    pub fn to_json(&self) -> (r: Json)
        ensures
            r@ == self.document(),
    {
        let mut fields: Vec<(String, Json)> = Vec::new();
        fields.push((String::from_str("id"), Json::string(self.id.as_str())));
        fields.push((String::from_str("status"), Json::string(self.status.as_str())));
        let session = match &self.session_id {
            Some(s) => Json::string(s.as_str()),
            None => Json::Null,
        };
        fields.push((String::from_str("session_id"), session));
        assert(members_view(fields@) =~= self.document()->Object_0);
        Json::object(fields)
    }
}

/// What follows the first reply to a request for the probabilities of a job.
#[derive(Debug)]
pub enum ProbabilitiesStep {
    /// The answer: the document of the reply, or its failure.
    Done(Result<Json, Failure>),
    /// The service does not know the address: ask at this one instead.
    Fallback(Request),
}

impl Client {
    /// The request for the probabilities of a job.
    pub fn get_job_probabilities(&self, id: &str) -> (r: Request)
        ensures
            r@ == (RequestView {
                method: Method::Get,
                url: self.base_url@ + "/jobs/"@ + id@ + "/results/probabilities"@,
                headers: service_headers(self.api_key@),
                body: BodyView::Empty,
            }),
    {
        let url = join4(self.base_url.as_str(), "/jobs/", id, "/results/probabilities");
        self.request(Method::Get, url, Body::Empty)
    }

    /// Decides what follows the first reply to `get_job_probabilities`: a
    /// successful reply is the answer; after 404 the results are asked for
    /// at their other address; every other reply is a failure.
    pub fn after_probabilities(&self, id: &str, reply: &Reply) -> (r: ProbabilitiesStep)
        ensures
            match r {
                ProbabilitiesStep::Done(Ok(doc)) => is_success(reply.status) && reply_document(
                    reply.status,
                    reply.body@,
                ) == Ok::<JsonValue, (ErrorKind, Seq<char>)>(doc@),
                ProbabilitiesStep::Done(Err(e)) => reply.status != 404 && reply_document(
                    reply.status,
                    reply.body@,
                ) == Err::<JsonValue, (ErrorKind, Seq<char>)>((e.kind, e.message@)),
                ProbabilitiesStep::Fallback(request) => reply.status == 404 && request@ == (
                RequestView {
                    method: Method::Get,
                    url: self.base_url@ + "/jobs/"@ + id@ + "/results"@,
                    headers: service_headers(self.api_key@),
                    body: BodyView::Empty,
                }),
            },
    {
        if reply.succeeded() {
            ProbabilitiesStep::Done(handle_request(reply))
        } else if reply.status == 404 {
            let url = join4(self.base_url.as_str(), "/jobs/", id, "/results");
            ProbabilitiesStep::Fallback(self.request(Method::Get, url, Body::Empty))
        } else {
            ProbabilitiesStep::Done(Err(Failure::new(ErrorKind::Provider, reply.failure_text())))
        }
    }
}

/// The optional list of strings under `key`: absent or `null` reads as
/// none; anything but a list of strings does not read at all.
pub open spec fn optional_texts(doc: JsonValue, key: Seq<char>) -> Option<Option<Seq<Seq<char>>>> {
    match doc.member(key) {
        None | Some(JsonValue::Null) => Some(None),
        Some(list) => match list.texts() {
            Some(texts) => Some(Some(texts)),
            None => None,
        },
    }
}

/// The optional 32-bit unsigned member `key`.
pub open spec fn optional_u32(doc: JsonValue, key: Seq<char>) -> Option<Option<u32>> {
    match doc.optional_unsigned(key) {
        Some(Some(n)) => if n <= u32::MAX {
            Some(Some(n as u32))
        } else {
            None
        },
        Some(None) => Some(None),
        None => None,
    }
}

/// The mathematical value of an [`IonQBackend`].
pub struct BackendInfo {
    pub backend: Seq<char>,
    pub status: Seq<char>,
    pub qubits: u32,
    pub degraded: Option<bool>,
    pub average_queue_time: Option<u64>,
    pub last_updated: Option<Seq<char>>,
    pub noise_models: Option<Seq<Seq<char>>>,
}

impl View for IonQBackend {
    type V = BackendInfo;

    open spec fn view(&self) -> BackendInfo {
        BackendInfo {
            backend: self.backend@,
            status: self.status@,
            qubits: self.qubits,
            degraded: self.degraded,
            average_queue_time: self.average_queue_time,
            last_updated: opt_view(self.last_updated),
            noise_models: opt_strings_view(self.noise_models),
        }
    }
}

/// How a document reads as the description of a backend.
pub open spec fn backend_of(doc: JsonValue) -> Option<BackendInfo> {
    match (
        doc.text_member("backend"@),
        doc.text_member("status"@),
        doc.unsigned_member("qubits"@),
        doc.optional_bool("degraded"@),
        doc.optional_unsigned("average_queue_time"@),
        doc.optional_text("last_updated"@),
        optional_texts(doc, "noise_models"@),
    ) {
        (
            Some(backend),
            Some(status),
            Some(qubits),
            Some(degraded),
            Some(average_queue_time),
            Some(last_updated),
            Some(noise_models),
        ) => if qubits <= u32::MAX {
            Some(
                BackendInfo {
                    backend,
                    status,
                    qubits: qubits as u32,
                    degraded,
                    average_queue_time,
                    last_updated,
                    noise_models,
                },
            )
        } else {
            None
        },
        _ => None,
    }
}

/// The description of a backend that a reply document holds: the document
/// itself where it reads as one, else what stands under `data`.
pub open spec fn backend_in(doc: JsonValue) -> Result<BackendInfo, (ErrorKind, Seq<char>)> {
    match backend_of(doc) {
        Some(info) => Ok(info),
        None => match doc.member("data"@) {
            Some(data) => match backend_of(data) {
                Some(info) => Ok(info),
                None => Err(shape_error(doc)),
            },
            None => Err(shape_error(doc)),
        },
    }
}

/// Reads an optional list of strings.
pub fn read_optional_texts(doc: &Json, key: &str) -> (r: Option<Option<Vec<String>>>)
    ensures
        match r {
            Some(found) => optional_texts(doc@, key@) == Some(opt_strings_view(found)),
            None => optional_texts(doc@, key@) is None,
        },
{
    match doc.get(key) {
        None => Some(None),
        Some(Json::Null) => Some(None),
        Some(list) => match list.as_texts() {
            Some(texts) => Some(Some(texts)),
            None => None,
        },
    }
}

/// Reads an optional 32-bit unsigned member.
pub fn read_optional_u32(doc: &Json, key: &str) -> (r: Option<Option<u32>>)
    ensures
        r == optional_u32(doc@, key@),
{
    match doc.get_optional_u64(key) {
        Some(Some(n)) => if n <= 0xffff_ffff {
            Some(Some(n as u32))
        } else {
            None
        },
        Some(None) => Some(None),
        None => None,
    }
}

/// Reads the description of a backend.
pub fn read_backend(doc: &Json) -> (r: Option<IonQBackend>)
    ensures
        match r {
            Some(b) => backend_of(doc@) == Some(b@),
            None => backend_of(doc@) is None,
        },
{
    let backend = match doc.get_str("backend") {
        Some(s) => s.clone(),
        None => {
            return None;
        },
    };
    let status = match doc.get_str("status") {
        Some(s) => s.clone(),
        None => {
            return None;
        },
    };
    let qubits = match doc.get_u64("qubits") {
        Some(n) => n,
        None => {
            return None;
        },
    };
    let degraded = match doc.get_optional_bool("degraded") {
        Some(d) => d,
        None => {
            return None;
        },
    };
    let average_queue_time = match doc.get_optional_u64("average_queue_time") {
        Some(t) => t,
        None => {
            return None;
        },
    };
    let last_updated = match doc.get_optional_str("last_updated") {
        Some(t) => t,
        None => {
            return None;
        },
    };
    let noise_models = match read_optional_texts(doc, "noise_models") {
        Some(m) => m,
        None => {
            return None;
        },
    };
    if qubits > 0xffff_ffff {
        return None;
    }
    Some(
        IonQBackend {
            backend,
            status,
            qubits: qubits as u32,
            degraded,
            average_queue_time,
            last_updated,
            noise_models,
        },
    )
}

fn shape_failure(doc: &Json) -> (r: Failure)
    ensures
        (r.kind, r.message@) == shape_error(doc@),
{
    let shown = doc.to_text();
    Failure::new(
        ErrorKind::UnexpectedResponse,
        join2("Unexpected IonQ response shape: ", shown.as_str()),
    )
}

impl Client {
    /// The description of a backend that a reply holds.
    pub fn get_backend_result(reply: &Reply) -> (r: Result<IonQBackend, Failure>)
        ensures
            match reply_document(reply.status, reply.body@) {
                Ok(doc) => match r {
                    Ok(b) => backend_in(doc) == Ok::<BackendInfo, (ErrorKind, Seq<char>)>(b@),
                    Err(e) => backend_in(doc) == Err::<BackendInfo, (ErrorKind, Seq<char>)>(
                        (e.kind, e.message@),
                    ),
                },
                Err(failure) => r matches Err(e) && (e.kind, e.message@) == failure,
            },
    {
        let doc = match handle_request(reply) {
            Ok(doc) => doc,
            Err(e) => {
                return Err(e);
            },
        };
        match read_backend(&doc) {
            Some(b) => Ok(b),
            None => match doc.get("data") {
                Some(data) => match read_backend(data) {
                    Some(b) => Ok(b),
                    None => Err(shape_failure(&doc)),
                },
                None => Err(shape_failure(&doc)),
            },
        }
    }

    /// The job that a reply to `create_job`, `create_job_raw`, `get_job` or
    /// `cancel_job` describes.
    pub fn job_result(reply: &Reply) -> (r: Result<IonQJob, Failure>)
        ensures
            match reply_document(reply.status, reply.body@) {
                Ok(doc) => match r {
                    Ok(job) => job_of(doc) == Ok::<
                        (Seq<char>, Seq<char>, Option<Seq<char>>),
                        (ErrorKind, Seq<char>),
                    >((job.id@, job.status@, opt_view(job.session_id))),
                    Err(e) => job_of(doc) == Err::<
                        (Seq<char>, Seq<char>, Option<Seq<char>>),
                        (ErrorKind, Seq<char>),
                    >((e.kind, e.message@)),
                },
                Err(failure) => r matches Err(e) && (e.kind, e.message@) == failure,
            },
    {
        match handle_request(reply) {
            Ok(doc) => extract_job(&doc),
            Err(e) => Err(e),
        }
    }
}

impl IonQBackend {
    /// The JSON document of the description.
    pub open spec fn document(self) -> JsonValue {
        JsonValue::Object(
            seq![
                ("backend"@, JsonValue::Str(self.backend@)),
                ("status"@, JsonValue::Str(self.status@)),
                ("qubits"@, JsonValue::Int(self.qubits as i64)),
                (
                    "degraded"@,
                    match self.degraded {
                        Some(b) => JsonValue::Bool(b),
                        None => JsonValue::Null,
                    },
                ),
                (
                    "average_queue_time"@,
                    match self.average_queue_time {
                        Some(n) => if n <= i64::MAX {
                            JsonValue::Int(n as i64)
                        } else {
                            JsonValue::UInt(n)
                        },
                        None => JsonValue::Null,
                    },
                ),
                (
                    "last_updated"@,
                    match self.last_updated {
                        Some(s) => JsonValue::Str(s@),
                        None => JsonValue::Null,
                    },
                ),
                (
                    "noise_models"@,
                    match self.noise_models {
                        Some(list) => JsonValue::Array(
                            Seq::new(list@.len(), |i: int| JsonValue::Str(list@[i]@)),
                        ),
                        None => JsonValue::Null,
                    },
                ),
            ],
        )
    }

    /// The JSON document of the description.
    pub fn to_json(&self) -> (r: Json)
        ensures
            r@ == self.document(),
    {
        let degraded = match self.degraded {
            Some(b) => Json::Bool(b),
            None => Json::Null,
        };
        let queue = match self.average_queue_time {
            Some(n) => if n <= 0x7fff_ffff_ffff_ffff {
                Json::Int(n as i64)
            } else {
                Json::UInt(n)
            },
            None => Json::Null,
        };
        let updated = match &self.last_updated {
            Some(s) => Json::string(s.as_str()),
            None => Json::Null,
        };
        let models = match &self.noise_models {
            Some(list) => {
                let mut items: Vec<Json> = Vec::new();
                let mut i: usize = 0;
                while i < list.len()
                    invariant
                        i <= list@.len(),
                        items@.len() == i,
                        forall|k: int|
                            0 <= k < i ==> (#[trigger] items@[k])@ == JsonValue::Str(list@[k]@),
                    decreases list@.len() - i,
                {
                    items.push(Json::string(list[i].as_str()));
                    i += 1;
                }
                let array = Json::Array(items);
                proof {
                    crate::json::lemma_view_unfold(array);
                    assert(items_view(items@) =~= Seq::new(
                        list@.len(),
                        |i: int| JsonValue::Str(list@[i]@),
                    ));
                }
                array
            },
            None => Json::Null,
        };
        let mut fields: Vec<(String, Json)> = Vec::new();
        fields.push((String::from_str("backend"), Json::string(self.backend.as_str())));
        fields.push((String::from_str("status"), Json::string(self.status.as_str())));
        fields.push((String::from_str("qubits"), Json::Int(self.qubits as i64)));
        fields.push((String::from_str("degraded"), degraded));
        fields.push((String::from_str("average_queue_time"), queue));
        fields.push((String::from_str("last_updated"), updated));
        fields.push((String::from_str("noise_models"), models));
        assert(members_view(fields@) =~= self.document()->Object_0);
        Json::object(fields)
    }
}

/// The mathematical value of a [`SessionCostLimit`].
pub struct CostLimitInfo {
    pub unit: Seq<char>,
    pub value: u64,
}

/// The mathematical value of a [`SessionSettings`].
pub struct SettingsInfo {
    pub job_count_limit: Option<u32>,
    pub duration_limit_min: Option<u32>,
    pub cost_limit: Option<CostLimitInfo>,
    pub expires_at: Seq<char>,
}

/// The mathematical value of a [`SessionData`].
pub struct SessionInfo {
    pub id: Seq<char>,
    pub created_at: Seq<char>,
    pub organization_id: Seq<char>,
    pub backend: Seq<char>,
    pub project_id: Seq<char>,
    pub creator_id: Seq<char>,
    pub ended_at: Option<Seq<char>>,
    pub ender_id: Option<Seq<char>>,
    pub active: bool,
    pub status: Seq<char>,
    pub started_at: Option<Seq<char>>,
    pub settings: SettingsInfo,
}

impl View for SessionCostLimit {
    type V = CostLimitInfo;

    open spec fn view(&self) -> CostLimitInfo {
        CostLimitInfo { unit: self.unit@, value: self.value }
    }
}

impl View for SessionSettings {
    type V = SettingsInfo;

    open spec fn view(&self) -> SettingsInfo {
        SettingsInfo {
            job_count_limit: self.job_count_limit,
            duration_limit_min: self.duration_limit_min,
            cost_limit: match self.cost_limit {
                Some(limit) => Some(limit@),
                None => None,
            },
            expires_at: self.expires_at@,
        }
    }
}

impl View for SessionData {
    type V = SessionInfo;

    open spec fn view(&self) -> SessionInfo {
        SessionInfo {
            id: self.id@,
            created_at: self.created_at@,
            organization_id: self.organization_id@,
            backend: self.backend@,
            project_id: self.project_id@,
            creator_id: self.creator_id@,
            ended_at: opt_view(self.ended_at),
            ender_id: opt_view(self.ender_id),
            active: self.active,
            status: self.status@,
            started_at: opt_view(self.started_at),
            settings: self.settings@,
        }
    }
}

/// How a document reads as a cost limit.
pub open spec fn cost_limit_of(doc: JsonValue) -> Option<CostLimitInfo> {
    match (doc.text_member("unit"@), doc.unsigned_member("value"@)) {
        (Some(unit), Some(value)) => Some(CostLimitInfo { unit, value }),
        _ => None,
    }
}

/// The optional cost limit under `cost_limit`.
pub open spec fn optional_cost_limit(doc: JsonValue) -> Option<Option<CostLimitInfo>> {
    match doc.member("cost_limit"@) {
        None | Some(JsonValue::Null) => Some(None),
        Some(v) => match cost_limit_of(v) {
            Some(limit) => Some(Some(limit)),
            None => None,
        },
    }
}

/// How a document reads as the settings of a session.
pub open spec fn settings_of(doc: JsonValue) -> Option<SettingsInfo> {
    match (
        optional_u32(doc, "job_count_limit"@),
        optional_u32(doc, "duration_limit_min"@),
        optional_cost_limit(doc),
        doc.text_member("expires_at"@),
    ) {
        (Some(job_count_limit), Some(duration_limit_min), Some(cost_limit), Some(expires_at)) => Some(
            SettingsInfo { job_count_limit, duration_limit_min, cost_limit, expires_at },
        ),
        _ => None,
    }
}

/// The six identifying texts of a session, where a document holds them all.
pub open spec fn session_texts(doc: JsonValue) -> Option<
    (Seq<char>, Seq<char>, Seq<char>, Seq<char>, Seq<char>, Seq<char>),
> {
    match (
        doc.text_member("id"@),
        doc.text_member("created_at"@),
        doc.text_member("organization_id"@),
        doc.text_member("backend"@),
        doc.text_member("project_id"@),
        doc.text_member("creator_id"@),
    ) {
        (Some(a), Some(b), Some(c), Some(d), Some(e), Some(f)) => Some((a, b, c, d, e, f)),
        _ => None,
    }
}

/// How a document reads as the description of a session.
pub open spec fn session_of(doc: JsonValue) -> Option<SessionInfo> {
    match (
        session_texts(doc),
        doc.optional_text("ended_at"@),
        doc.optional_text("ender_id"@),
        doc.bool_member("active"@),
        doc.text_member("status"@),
        doc.optional_text("started_at"@),
        doc.member("settings"@),
    ) {
        (
            Some(texts),
            Some(ended_at),
            Some(ender_id),
            Some(active),
            Some(status),
            Some(started_at),
            Some(settings_doc),
        ) => match settings_of(settings_doc) {
            Some(settings) => Some(
                SessionInfo {
                    id: texts.0,
                    created_at: texts.1,
                    organization_id: texts.2,
                    backend: texts.3,
                    project_id: texts.4,
                    creator_id: texts.5,
                    ended_at,
                    ender_id,
                    active,
                    status,
                    started_at,
                    settings,
                },
            ),
            None => None,
        },
        _ => None,
    }
}

/// The description of a session that a reply document holds: the document
/// itself where it reads as one, else what stands under `data`.
pub open spec fn session_in(doc: JsonValue) -> Result<SessionInfo, (ErrorKind, Seq<char>)> {
    match session_of(doc) {
        Some(info) => Ok(info),
        None => match doc.member("data"@) {
            Some(data) => match session_of(data) {
                Some(info) => Ok(info),
                None => Err(shape_error(doc)),
            },
            None => Err(shape_error(doc)),
        },
    }
}

/// Reads a cost limit.
pub fn read_cost_limit(doc: &Json) -> (r: Option<SessionCostLimit>)
    ensures
        match r {
            Some(limit) => cost_limit_of(doc@) == Some(limit@),
            None => cost_limit_of(doc@) is None,
        },
{
    match (doc.get_str("unit"), doc.get_u64("value")) {
        (Some(unit), Some(value)) => Some(SessionCostLimit { unit: unit.clone(), value }),
        _ => None,
    }
}

/// Reads the settings of a session.
pub fn read_settings(doc: &Json) -> (r: Option<SessionSettings>)
    ensures
        match r {
            Some(settings) => settings_of(doc@) == Some(settings@),
            None => settings_of(doc@) is None,
        },
{
    let job_count_limit = match read_optional_u32(doc, "job_count_limit") {
        Some(n) => n,
        None => {
            return None;
        },
    };
    let duration_limit_min = match read_optional_u32(doc, "duration_limit_min") {
        Some(n) => n,
        None => {
            return None;
        },
    };
    let cost_limit = match doc.get("cost_limit") {
        None => None,
        Some(Json::Null) => None,
        Some(v) => match read_cost_limit(v) {
            Some(limit) => Some(limit),
            None => {
                return None;
            },
        },
    };
    let expires_at = match doc.get_str("expires_at") {
        Some(s) => s.clone(),
        None => {
            return None;
        },
    };
    Some(SessionSettings { job_count_limit, duration_limit_min, cost_limit, expires_at })
}

/// Reads the description of a session.
pub fn read_session(doc: &Json) -> (r: Option<SessionData>)
    ensures
        match r {
            Some(session) => session_of(doc@) == Some(session@),
            None => session_of(doc@) is None,
        },
{
    let texts = match (
        doc.get_str("id"),
        doc.get_str("created_at"),
        doc.get_str("organization_id"),
        doc.get_str("backend"),
        doc.get_str("project_id"),
        doc.get_str("creator_id"),
    ) {
        (Some(a), Some(b), Some(c), Some(d), Some(e), Some(f)) => (
            a.clone(),
            b.clone(),
            c.clone(),
            d.clone(),
            e.clone(),
            f.clone(),
        ),
        _ => {
            return None;
        },
    };
    let ended_at = match doc.get_optional_str("ended_at") {
        Some(t) => t,
        None => {
            return None;
        },
    };
    let ender_id = match doc.get_optional_str("ender_id") {
        Some(t) => t,
        None => {
            return None;
        },
    };
    let active = match doc.get_bool("active") {
        Some(b) => b,
        None => {
            return None;
        },
    };
    let status = match doc.get_str("status") {
        Some(s) => s.clone(),
        None => {
            return None;
        },
    };
    let started_at = match doc.get_optional_str("started_at") {
        Some(t) => t,
        None => {
            return None;
        },
    };
    let settings = match doc.get("settings") {
        Some(v) => match read_settings(v) {
            Some(s) => s,
            None => {
                return None;
            },
        },
        None => {
            return None;
        },
    };
    Some(
        SessionData {
            id: texts.0,
            created_at: texts.1,
            organization_id: texts.2,
            backend: texts.3,
            project_id: texts.4,
            creator_id: texts.5,
            ended_at,
            ender_id,
            active,
            status,
            started_at,
            settings,
        },
    )
}

/// The member `key` where `value` is there, and nothing where it is not.
pub open spec fn optional_field(key: Seq<char>, value: Option<JsonValue>) -> Seq<
    (Seq<char>, JsonValue),
> {
    match value {
        Some(v) => seq![(key, v)],
        None => Seq::empty(),
    }
}

/// The text of an optional string as a document.
pub open spec fn opt_str_value(text: Option<Seq<char>>) -> Option<JsonValue> {
    match text {
        Some(t) => Some(JsonValue::Str(t)),
        None => None,
    }
}

/// The document of a job to create.
pub open spec fn job_request_document(
    backend: Backend,
    job_type: Seq<char>,
    shots: i32,
    name: Seq<char>,
    session_id: Option<Seq<char>>,
    metadata: Option<JsonValue>,
    settings: Option<JsonValue>,
    input: JsonValue,
) -> JsonValue {
    JsonValue::Object(
        seq![
            ("type"@, JsonValue::Str(job_type)),
            ("backend"@, JsonValue::Str(backend.name())),
            ("shots"@, JsonValue::Int(shots as i64)),
            ("name"@, JsonValue::Str(name)),
            ("input"@, input),
        ] + optional_field("session_id"@, opt_str_value(session_id)) + optional_field(
            "metadata"@,
            metadata,
        ) + optional_field("settings"@, settings),
    )
}

/// The document of a session to create.
pub open spec fn session_request_document(
    backend: Seq<char>,
    limits: Option<(u32, u32, Seq<char>, u64)>,
) -> JsonValue {
    JsonValue::Object(
        seq![("backend"@, JsonValue::Str(backend))] + optional_field(
            "settings"@,
            match limits {
                Some((jobs, minutes, unit, value)) => Some(
                    JsonValue::Object(
                        seq![
                            ("job_count_limit"@, JsonValue::Int(jobs as i64)),
                            ("duration_limit_min"@, JsonValue::Int(minutes as i64)),
                            (
                                "cost_limit"@,
                                JsonValue::Object(
                                    seq![
                                        ("unit"@, JsonValue::Str(unit)),
                                        (
                                            "value"@,
                                            if value <= i64::MAX {
                                                JsonValue::Int(value as i64)
                                            } else {
                                                JsonValue::UInt(value)
                                            },
                                        ),
                                    ],
                                ),
                            ),
                        ],
                    ),
                ),
                None => None,
            },
        ),
    )
}

impl SessionRequestData {
    /// The limits asked for, as plain values.
    pub open spec fn limits_view(self) -> Option<(u32, u32, Seq<char>, u64)> {
        match self.limits {
            Some(l) => Some(
                (l.job_count_limit, l.duration_limit_min, l.cost_limit.unit@, l.cost_limit.value),
            ),
            None => None,
        }
    }

    /// The JSON document of the request.
    pub fn to_json(&self) -> (r: Json)
        ensures
            r@ == session_request_document(self.backend@, self.limits_view()),
    {
        let mut fields: Vec<(String, Json)> = Vec::new();
        fields.push((String::from_str("backend"), Json::string(self.backend.as_str())));
        match &self.limits {
            Some(l) => {
                let value = if l.cost_limit.value <= 0x7fff_ffff_ffff_ffff {
                    Json::Int(l.cost_limit.value as i64)
                } else {
                    Json::UInt(l.cost_limit.value)
                };
                let mut cost: Vec<(String, Json)> = Vec::new();
                cost.push((String::from_str("unit"), Json::string(l.cost_limit.unit.as_str())));
                cost.push((String::from_str("value"), value));
                let ghost cost_view = members_view(cost@);
                assert(cost_view =~= seq![
                    ("unit"@, JsonValue::Str(l.cost_limit.unit@)),
                    ("value"@, value@),
                ]);
                let mut settings: Vec<(String, Json)> = Vec::new();
                settings.push(
                    (String::from_str("job_count_limit"), Json::Int(l.job_count_limit as i64)),
                );
                settings.push(
                    (
                        String::from_str("duration_limit_min"),
                        Json::Int(l.duration_limit_min as i64),
                    ),
                );
                settings.push((String::from_str("cost_limit"), Json::object(cost)));
                assert(members_view(settings@) =~= seq![
                    ("job_count_limit"@, JsonValue::Int(l.job_count_limit as i64)),
                    ("duration_limit_min"@, JsonValue::Int(l.duration_limit_min as i64)),
                    ("cost_limit"@, JsonValue::Object(cost_view)),
                ]);
                fields.push((String::from_str("settings"), Json::object(settings)));
            },
            None => {},
        }
        assert(members_view(fields@) =~= session_request_document(
            self.backend@,
            self.limits_view(),
        )->Object_0);
        Json::object(fields)
    }
}

impl Client {
    /// The request that creates a session.
    pub fn create_session(&self, session_request_data: &SessionRequestData) -> (r: Request)
        ensures
            r@ == (RequestView {
                method: Method::Post,
                url: self.base_url@ + "/sessions"@,
                headers: service_headers(self.api_key@),
                body: BodyView::Json(
                    json_text(
                        session_request_document(
                            session_request_data.backend@,
                            session_request_data.limits_view(),
                        ),
                    ),
                ),
            }),
    {
        let url = join2(self.base_url.as_str(), "/sessions");
        let doc = session_request_data.to_json();
        self.request(Method::Post, url, Body::Json(doc.to_text()))
    }

    /// The description of a session that a reply to `create_session` or
    /// `end_session` holds.
    pub fn session_result(reply: &Reply) -> (r: Result<SessionData, Failure>)
        ensures
            match reply_document(reply.status, reply.body@) {
                Ok(doc) => match r {
                    Ok(s) => session_in(doc) == Ok::<SessionInfo, (ErrorKind, Seq<char>)>(s@),
                    Err(e) => session_in(doc) == Err::<SessionInfo, (ErrorKind, Seq<char>)>(
                        (e.kind, e.message@),
                    ),
                },
                Err(failure) => r matches Err(e) && (e.kind, e.message@) == failure,
            },
    {
        let doc = match handle_request(reply) {
            Ok(doc) => doc,
            Err(e) => {
                return Err(e);
            },
        };
        match read_session(&doc) {
            Some(s) => Ok(s),
            None => match doc.get("data") {
                Some(data) => match read_session(data) {
                    Some(s) => Ok(s),
                    None => Err(shape_failure(&doc)),
                },
                None => Err(shape_failure(&doc)),
            },
        }
    }

    /// The request that creates a job. A job of no shots is refused.
    pub fn create_job(
        &self,
        backend: Backend,
        job_type: &str,
        shots: i32,
        name: &str,
        session_id: Option<&str>,
        metadata: Option<Json>,
        settings: Option<Json>,
        input: Json,
    ) -> (r: Result<Request, Failure>)
        ensures
            match r {
                Ok(request) => shots > 0 && request@ == (RequestView {
                    method: Method::Post,
                    url: self.base_url@ + "/jobs"@,
                    headers: service_headers(self.api_key@),
                    body: BodyView::Json(
                        json_text(
                            job_request_document(
                                backend,
                                job_type@,
                                shots,
                                name@,
                                opt_str_view(session_id),
                                opt_doc_view(metadata),
                                opt_doc_view(settings),
                                input@,
                            ),
                        ),
                    ),
                }),
                Err(e) => shots <= 0 && e.is(ErrorKind::InvalidArgument, "shots must be > 0"@),
            },
    {
        if shots <= 0 {
            return Err(Failure::of(ErrorKind::InvalidArgument, "shots must be > 0"));
        }
        let ghost want = job_request_document(
            backend,
            job_type@,
            shots,
            name@,
            opt_str_view(session_id),
            opt_doc_view(metadata),
            opt_doc_view(settings),
            input@,
        );
        let mut fields: Vec<(String, Json)> = Vec::new();
        fields.push((String::from_str("type"), Json::string(job_type)));
        fields.push((String::from_str("backend"), Json::string(backend.as_str())));
        fields.push((String::from_str("shots"), Json::Int(shots as i64)));
        fields.push((String::from_str("name"), Json::string(name)));
        fields.push((String::from_str("input"), input));
        match session_id {
            Some(s) => {
                fields.push((String::from_str("session_id"), Json::string(s)));
            },
            None => {},
        }
        match metadata {
            Some(m) => {
                fields.push((String::from_str("metadata"), m));
            },
            None => {},
        }
        match settings {
            Some(s) => {
                fields.push((String::from_str("settings"), s));
            },
            None => {},
        }
        assert(members_view(fields@) =~= want->Object_0);
        let doc = Json::object(fields);
        Ok(self.create_job_raw(&doc))
    }
}

/// A copy of an optional document.
pub fn copy_opt(doc: Option<&Json>) -> (r: Option<Json>)
    ensures
        opt_doc_view(r) == match doc {
            Some(d) => Some(d@),
            None => None,
        },
{
    match doc {
        Some(d) => Some(d.copy()),
        None => None,
    }
}

impl Client {
    /// The requests that create one job for each of `inputs`, the job for
    /// the input at index `i` named `name` with `-i` behind it.
    pub fn create_jobs_batch(
        &self,
        backend: Backend,
        job_type: &str,
        shots: i32,
        name: &str,
        session_id: Option<&str>,
        metadata: Option<&Json>,
        settings: Option<&Json>,
        inputs: &[Json],
    ) -> (r: Result<Vec<Request>, Failure>)
        ensures
            match r {
                Ok(requests) => (shots > 0 || inputs@.len() == 0) && requests@.len()
                    == inputs@.len() && forall|i: int|
                    0 <= i < inputs@.len() ==> (#[trigger] requests@[i])@ == (RequestView {
                        method: Method::Post,
                        url: self.base_url@ + "/jobs"@,
                        headers: service_headers(self.api_key@),
                        body: BodyView::Json(
                            json_text(
                                job_request_document(
                                    backend,
                                    job_type@,
                                    shots,
                                    name@ + "-"@ + decimal(i),
                                    opt_str_view(session_id),
                                    match metadata {
                                        Some(m) => Some(m@),
                                        None => None,
                                    },
                                    match settings {
                                        Some(s) => Some(s@),
                                        None => None,
                                    },
                                    inputs@[i]@,
                                ),
                            ),
                        ),
                    }),
                Err(e) => shots <= 0 && inputs@.len() > 0 && e.is(
                    ErrorKind::InvalidArgument,
                    "shots must be > 0"@,
                ),
            },
    {
        let mut out: Vec<Request> = Vec::new();
        let mut i: usize = 0;
        while i < inputs.len()
            invariant
                i <= inputs@.len(),
                out@.len() == i,
                i > 0 ==> shots > 0,
                forall|k: int|
                    0 <= k < i ==> (#[trigger] out@[k])@ == (RequestView {
                        method: Method::Post,
                        url: self.base_url@ + "/jobs"@,
                        headers: service_headers(self.api_key@),
                        body: BodyView::Json(
                            json_text(
                                job_request_document(
                                    backend,
                                    job_type@,
                                    shots,
                                    name@ + "-"@ + decimal(k),
                                    opt_str_view(session_id),
                                    match metadata {
                                        Some(m) => Some(m@),
                                        None => None,
                                    },
                                    match settings {
                                        Some(s) => Some(s@),
                                        None => None,
                                    },
                                    inputs@[k]@,
                                ),
                            ),
                        ),
                    }),
            decreases inputs@.len() - i,
        {
            let index = format_u64(i as u64);
            let job_name = join3(name, "-", index.as_str());
            match self.create_job(
                backend,
                job_type,
                shots,
                job_name.as_str(),
                session_id,
                copy_opt(metadata),
                copy_opt(settings),
                inputs[i].copy(),
            ) {
                Ok(request) => {
                    out.push(request);
                },
                Err(e) => {
                    return Err(e);
                },
            }
            i += 1;
        }
        Ok(out)
    }
}

/// The name of every backend is read back as that backend.
pub proof fn lemma_backend_names_round_trip(backend: Backend)
    ensures
        Backend::named(backend.name()) == Some(backend),
{
    reveal_strlit("simulator");
    reveal_strlit("sim");
    reveal_strlit("qpu.harmony");
    reveal_strlit("harmony");
    reveal_strlit("qpu_harmony");
    reveal_strlit("qpu.aria-1");
    reveal_strlit("qpu.aria1");
    reveal_strlit("aria-1");
    reveal_strlit("aria1");
    reveal_strlit("qpu.aria-2");
    reveal_strlit("qpu.aria2");
    reveal_strlit("aria-2");
    reveal_strlit("aria2");
    reveal_strlit("qpu.forte-1");
    reveal_strlit("qpu.forte1");
    reveal_strlit("forte-1");
    reveal_strlit("forte1");
    reveal_strlit("qpu.forte-enterprise-1");
    reveal_strlit("qpu.forte_enterprise-1");
    reveal_strlit("forte-enterprise-1");
    reveal_strlit("qpu.forte-enterprise-2");
    reveal_strlit("qpu.forte_enterprise-2");
    reveal_strlit("forte-enterprise-2");
    let n = backend.name();
    crate::text::lemma_normal_name_is_fixed(n);
}

} // verus!
