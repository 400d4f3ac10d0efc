//! Client-side logic for a Pasqal device reached on premises.

use crate::json::{items_view, json_text, members_view, Json, JsonValue};
use crate::models::{ErrorKind, Failure};
use crate::text::{decimal, format_i64, join2, join3};
use crate::transport::{
    is_header_text, is_header_value, pair, pairs_view, reply_document, Body, BodyView, Method,
    Reply, Request, RequestView,
};
use vstd::prelude::*;

verus! {

/// Why no credential could be signed.
#[derive(Debug)]
pub enum MungeError {
    /// The signing service refused, with this message.
    EncodeFailed(String),
}

impl MungeError {
    /// The message of the error.
    pub fn message(&self) -> (r: String)
        ensures
            r@ == "munge encode failed: "@ + self->EncodeFailed_0@,
    {
        match self {
            MungeError::EncodeFailed(msg) => join2("munge encode failed: ", msg.as_str()),
        }
    }
}

/// How the service describes a job.
#[derive(Debug, Clone)]
pub struct JobResponse {
    pub id: i32,
    pub user_id: String,
}

/// A job to create.
#[derive(Debug, Clone)]
pub struct CreateJob {
    pub sequence: String,
}

/// How the service describes a session.
#[derive(Debug, Clone)]
pub struct SessionResponse {
    pub id: String,
}

/// A session to create.
#[derive(Debug, Clone)]
pub struct CreateSessionPayload {
    pub user_id: String,
}

/// Configuration from which a [`Client`] is made.
#[must_use]
#[derive(Debug, Clone)]
pub struct ClientBuilder {
    pub base_url: String,
}

/// The address of the service and the signed credential presented to it.
#[derive(Debug, Clone)]
pub struct Client {
    pub base_url: String,
    pub credential: String,
}

/// The headers that every request to the service carries.
pub open spec fn service_headers(credential: Seq<char>) -> Seq<(Seq<char>, Seq<char>)> {
    seq![("Content-Type"@, "application/json"@), ("x-munge-cred"@, credential)]
}

/// The failure that reports a document of another shape than expected.
pub open spec fn shape_error() -> (ErrorKind, Seq<char>) {
    (ErrorKind::UnexpectedResponse, "response has an unexpected shape"@)
}

/// How a document reads as the description of a job: a 32-bit `id` and a
/// string `user_id`.
pub open spec fn job_of(doc: JsonValue) -> Option<(i32, Seq<char>)> {
    match (doc.member("id"@), doc.text_member("user_id"@)) {
        (Some(JsonValue::Int(id)), Some(user_id)) => if i32::MIN <= id <= i32::MAX {
            Some((id as i32, user_id))
        } else {
            None
        },
        _ => None,
    }
}

/// How a document reads as a list of jobs.
pub open spec fn jobs_of(doc: JsonValue) -> Option<Seq<(i32, Seq<char>)>> {
    match doc {
        JsonValue::Array(items) => if forall|i: int|
            0 <= i < items.len() ==> job_of(#[trigger] items[i]) is Some {
            Some(Seq::new(items.len(), |i: int| job_of(items[i])->0))
        } else {
            None
        },
        _ => None,
    }
}

/// The values of a list of jobs.
pub open spec fn jobs_view(jobs: Seq<JobResponse>) -> Seq<(i32, Seq<char>)> {
    Seq::new(jobs.len(), |i: int| (jobs[i].id, jobs[i].user_id@))
}

fn shape_failure() -> (r: Failure)
    ensures
        (r.kind, r.message@) == shape_error(),
{
    Failure::of(ErrorKind::UnexpectedResponse, "response has an unexpected shape")
}

/// Reads the JSON document of a reply, or the failure that it reports.
pub fn handle_request(reply: &Reply) -> (r: Result<Json, Failure>)
    ensures
        match r {
            Ok(doc) => reply_document(reply.status, reply.body@) == Ok::<
                JsonValue,
                (ErrorKind, Seq<char>),
            >(doc@),
            Err(e) => reply_document(reply.status, reply.body@) == Err::<
                JsonValue,
                (ErrorKind, Seq<char>),
            >((e.kind, e.message@)),
        },
{
    reply.document()
}

/// Reads the description of a job.
pub fn read_job(doc: &Json) -> (r: Option<JobResponse>)
    ensures
        match r {
            Some(job) => job_of(doc@) == Some((job.id, job.user_id@)),
            None => job_of(doc@) is None,
        },
{
    let id = match doc.get("id") {
        Some(Json::Int(n)) => *n,
        _ => {
            return None;
        },
    };
    let user_id = match doc.get_str("user_id") {
        Some(u) => u.clone(),
        None => {
            return None;
        },
    };
    if id < -2147483648 || id > 2147483647 {
        return None;
    }
    Some(JobResponse { id: id as i32, user_id })
}

impl ClientBuilder {
    /// A builder for the service at its usual local address.
    pub fn new() -> (r: Self)
        ensures
            r.base_url@ == "http://localhost:4207"@,
    {
        Self { base_url: String::from_str("http://localhost:4207") }
    }

    /// The client that presents the credential which the signing service
    /// gave. Fails where the service gave none, or one that cannot stand
    /// in a header.
    pub fn build(&self, signed: Result<String, MungeError>) -> (r: Result<Client, Failure>)
        ensures
            match signed {
                Ok(credential) => if is_header_text(credential@) {
                    r matches Ok(client) && client.base_url@ == self.base_url@
                        && client.credential@ == credential@
                } else {
                    r matches Err(e) && e.is(ErrorKind::MalformedCredential, "invalid munge token"@)
                },
                Err(cause) => r matches Err(e) && e.is(
                    ErrorKind::CredentialsMissing,
                    "munge encode failed: "@ + cause->EncodeFailed_0@,
                ),
            },
    {
        match signed {
            Ok(credential) => {
                if is_header_value(credential.as_str()) {
                    Ok(Client { base_url: self.base_url.clone(), credential })
                } else {
                    Err(
                        Failure::of(ErrorKind::MalformedCredential, "invalid munge token"),
                    )
                }
            },
            Err(cause) => Err(Failure::new(ErrorKind::CredentialsMissing, cause.message())),
        }
    }
}

impl Client {
    /// A request to the service at `url`.
    pub fn request(&self, method: Method, url: String, session: Option<&str>, body: Body) -> (r:
        Request)
        ensures
            r@ == (RequestView {
                method,
                url: url@,
                headers: match session {
                    Some(s) => service_headers(self.credential@).push(("X-Warden-Session"@, s@)),
                    None => service_headers(self.credential@),
                },
                body: body@,
            }),
    {
        let mut headers: Vec<(String, String)> = Vec::new();
        headers.push(pair("Content-Type", "application/json"));
        headers.push(pair("x-munge-cred", self.credential.as_str()));
        assert(pairs_view(headers@) =~= service_headers(self.credential@));
        match session {
            Some(s) => {
                headers.push(pair("X-Warden-Session", s));
                assert(pairs_view(headers@) =~= service_headers(self.credential@).push(
                    ("X-Warden-Session"@, s@),
                ));
            },
            None => {},
        }
        Request { method, url, headers, body }
    }

    /// The request for the jobs that the service knows.
    pub fn get_jobs(&self) -> (r: Request)
        ensures
            r@ == (RequestView {
                method: Method::Get,
                url: self.base_url@ + "/jobs"@,
                headers: service_headers(self.credential@),
                body: BodyView::Empty,
            }),
    {
        let url = join2(self.base_url.as_str(), "/jobs");
        self.request(Method::Get, url, None, Body::Empty)
    }

    /// The jobs that a reply lists.
    pub fn get_jobs_result(reply: &Reply) -> (r: Result<Vec<JobResponse>, Failure>)
        ensures
            match reply_document(reply.status, reply.body@) {
                Ok(doc) => match r {
                    Ok(jobs) => jobs_of(doc) == Some(jobs_view(jobs@)),
                    Err(e) => jobs_of(doc) is None && (e.kind, e.message@) == shape_error(),
                },
                Err(failure) => r matches Err(e) && (e.kind, e.message@) == failure,
            },
    {
        let doc = match handle_request(reply) {
            Ok(doc) => doc,
            Err(e) => {
                return Err(e);
            },
        };
        let items = match doc.as_array() {
            Some(items) => items,
            None => {
                return Err(shape_failure());
            },
        };
        let ghost values = items_view(items@);
        let mut out: Vec<JobResponse> = Vec::new();
        let mut i: usize = 0;
        while i < items.len()
            invariant
                i <= items@.len(),
                values == items_view(items@),
                doc@ == JsonValue::Array(values),
                reply_document(reply.status, reply.body@) == Ok::<
                    JsonValue,
                    (ErrorKind, Seq<char>),
                >(doc@),
                out@.len() == i,
                forall|k: int|
                    0 <= k < i ==> job_of(#[trigger] values[k]) == Some(
                        (out@[k].id, out@[k].user_id@),
                    ),
            decreases items@.len() - i,
        {
            match read_job(&items[i]) {
                Some(job) => {
                    out.push(job);
                },
                None => {
                    assert(job_of(values[i as int]) is None);
                    return Err(shape_failure());
                },
            }
            i += 1;
        }
        assert(jobs_view(out@) =~= jobs_of(doc@)->0);
        Ok(out)
    }

    /// The request that creates a job running `sequence` in a session.
    pub fn create_job(&self, sequence: String, session_id: &str) -> (r: Request)
        ensures
            r@ == (RequestView {
                method: Method::Post,
                url: self.base_url@ + "/jobs"@,
                headers: service_headers(self.credential@).push(
                    ("X-Warden-Session"@, session_id@),
                ),
                body: BodyView::Json(
                    json_text(JsonValue::Object(seq![("sequence"@, JsonValue::Str(sequence@))])),
                ),
            }),
    {
        let url = join2(self.base_url.as_str(), "/jobs");
        let job = CreateJob { sequence };
        let mut fields: Vec<(String, Json)> = Vec::new();
        fields.push((String::from_str("sequence"), Json::string(job.sequence.as_str())));
        assert(members_view(fields@) =~= seq![("sequence"@, JsonValue::Str(sequence@))]);
        let body = Json::object(fields).to_text();
        self.request(Method::Post, url, Some(session_id), Body::Json(body))
    }

    /// The job that a reply to `create_job` describes.
    pub fn create_job_result(reply: &Reply) -> (r: Result<JobResponse, Failure>)
        ensures
            match reply_document(reply.status, reply.body@) {
                Ok(doc) => match r {
                    Ok(job) => job_of(doc) == Some((job.id, job.user_id@)),
                    Err(e) => job_of(doc) is None && (e.kind, e.message@) == shape_error(),
                },
                Err(failure) => r matches Err(e) && (e.kind, e.message@) == failure,
            },
    {
        match handle_request(reply) {
            Ok(doc) => match read_job(&doc) {
                Some(job) => Ok(job),
                None => Err(shape_failure()),
            },
            Err(e) => Err(e),
        }
    }

    /// The request that creates a session for the user `user_id`.
    pub fn create_session(&self, user_id: i32) -> (r: Request)
        ensures
            r@ == (RequestView {
                method: Method::Post,
                url: self.base_url@ + "/sessions"@,
                headers: service_headers(self.credential@),
                body: BodyView::Json(
                    json_text(
                        JsonValue::Object(
                            seq![("user_id"@, JsonValue::Str(decimal(user_id as int)))],
                        ),
                    ),
                ),
            }),
    {
        let url = join2(self.base_url.as_str(), "/sessions");
        let session = CreateSessionPayload { user_id: format_i64(user_id as i64) };
        let mut fields: Vec<(String, Json)> = Vec::new();
        fields.push((String::from_str("user_id"), Json::string(session.user_id.as_str())));
        assert(members_view(fields@) =~= seq![
            ("user_id"@, JsonValue::Str(decimal(user_id as int))),
        ]);
        let body = Json::object(fields).to_text();
        self.request(Method::Post, url, None, Body::Json(body))
    }

    /// The request that revokes a session.
    pub fn revoke_session(&self, session_id: &str) -> (r: Request)
        ensures
            r@ == (RequestView {
                method: Method::Delete,
                url: self.base_url@ + "/sessions/"@ + session_id@,
                headers: service_headers(self.credential@),
                body: BodyView::Empty,
            }),
    {
        let url = join3(self.base_url.as_str(), "/sessions/", session_id);
        self.request(Method::Delete, url, None, Body::Empty)
    }

    /// The session that a reply to `create_session` or `revoke_session`
    /// describes.
    pub fn session_result(reply: &Reply) -> (r: Result<SessionResponse, Failure>)
        ensures
            match reply_document(reply.status, reply.body@) {
                Ok(doc) => match r {
                    Ok(session) => doc.text_member("id"@) == Some(session.id@),
                    Err(e) => doc.text_member("id"@) is None && (e.kind, e.message@)
                        == shape_error(),
                },
                Err(failure) => r matches Err(e) && (e.kind, e.message@) == failure,
            },
    {
        match handle_request(reply) {
            Ok(doc) => match doc.get_str("id") {
                Some(id) => Ok(SessionResponse { id: id.clone() }),
                None => Err(shape_failure()),
            },
            Err(e) => Err(e),
        }
    }
}

} // verus!
