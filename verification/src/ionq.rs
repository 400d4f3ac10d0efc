//! The adapter for the IonQ Cloud service.

use crate::ionq_cloud_api::{job_of, service_headers, Backend, Client, ClientBuilder, IonQJob};
use crate::json::{
    json_parse_text, json_text, members_view, opt_doc_view, opt_str_view, opt_view,
    set_default_member, set_member, with_default_member, with_member, Json, JsonValue,
};
use crate::models::{
    fresh_uuid, ErrorKind, Failure, Payload, Session, Target, TaskResult, TaskStatus,
};
use crate::text::{
    chars_are, chars_of, find_char, index_of, join2, join3, join5, lowercase_chars, occurs_at,
    slice_chars, starts_with, string_of, to_ascii_lowercase, to_ascii_uppercase, trim, trim_chars,
    trim_start, trim_start_chars, uppercase_chars,
};
use crate::transport::{reply_document, BodyView, Method, Reply, Request, RequestView};
use vstd::prelude::*;

verus! {

/// Job type of a circuit given as IonQ's own JSON.
pub const JOB_TYPE_CIRCUIT: &'static str = "ionq.circuit.v1";

/// Job type of an OpenQASM 2 program.
pub const JOB_TYPE_QASM2: &'static str = "ionq.qasm2.v1";

/// Job type of an OpenQASM 3 program.
pub const JOB_TYPE_QASM3: &'static str = "ionq.qasm3.v1";

/// Job type of a QIR module.
pub const JOB_TYPE_QIR: &'static str = "ionq.qir.v1";

/// The member under which a job names the backend it is meant for.
pub const TARGET_FIELD: &'static str = "backend";

/// The canonical state that a status word of the service stands for:
/// surrounding whitespace and the case of ASCII letters do not count, and a
/// word that is not known stands for `Queued`.
pub open spec fn ionq_status(s: Seq<char>) -> TaskStatus {
    let w = to_ascii_lowercase(trim(s));
    if w == "completed"@ || w == "done"@ || w == "succeeded"@ {
        TaskStatus::Completed
    } else if w == "failed"@ || w == "error"@ {
        TaskStatus::Failed
    } else if w == "canceled"@ || w == "cancelled"@ {
        TaskStatus::Cancelled
    } else if w == "started"@ || w == "running"@ {
        TaskStatus::Running
    } else {
        TaskStatus::Queued
    }
}

/// Maps a status word of the service to the canonical state.
pub fn map_ionq_status(s: &str) -> (r: TaskStatus)
    ensures
        r == ionq_status(s@),
{
    let chars = chars_of(s);
    let trimmed = trim_chars(chars.as_slice());
    let lowered = lowercase_chars(trimmed.as_slice());
    let w = lowered.as_slice();
    if chars_are(w, "completed") || chars_are(w, "done") || chars_are(w, "succeeded") {
        TaskStatus::Completed
    } else if chars_are(w, "failed") || chars_are(w, "error") {
        TaskStatus::Failed
    } else if chars_are(w, "canceled") || chars_are(w, "cancelled") {
        TaskStatus::Cancelled
    } else if chars_are(w, "started") || chars_are(w, "running") {
        TaskStatus::Running
    } else {
        TaskStatus::Queued
    }
}

/// The probabilities in a result document: what stands at the first of the
/// four places where the service has put them, or the document itself where
/// none of them is there.
pub open spec fn probabilities_in(raw: JsonValue) -> JsonValue {
    if raw.at_path(seq!["probabilities"@]) is Some {
        raw.at_path(seq!["probabilities"@])->0
    } else if raw.at_path(seq!["results"@, "probabilities"@]) is Some {
        raw.at_path(seq!["results"@, "probabilities"@])->0
    } else if raw.at_path(seq!["data"@, "probabilities"@]) is Some {
        raw.at_path(seq!["data"@, "probabilities"@])->0
    } else if raw.at_path(seq!["data"@, "results"@, "probabilities"@]) is Some {
        raw.at_path(seq!["data"@, "results"@, "probabilities"@])->0
    } else {
        raw
    }
}

/// Follows up to three member names through objects. A third name is
/// followed only where a second is given.
pub fn lookup<'a>(raw: &'a Json, first: &str, second: Option<&str>, third: Option<&str>) -> (r:
    Option<&'a Json>)
    ensures
        match r {
            Some(found) => raw@.at_path(path_of(first@, opt_str_view(second), opt_str_view(third)))
                == Some(found@),
            None => raw@.at_path(path_of(first@, opt_str_view(second), opt_str_view(third)))
                is None,
        },
{
    let ghost path = path_of(first@, opt_str_view(second), opt_str_view(third));
    reveal_with_fuel(JsonValue::at_path, 4);
    let a = match raw.get(first) {
        Some(a) => a,
        None => {
            return None;
        },
    };
    let second = match second {
        Some(s) => s,
        None => {
            assert(path.drop_first() =~= Seq::<Seq<char>>::empty());
            return Some(a);
        },
    };
    let b = match a.get(second) {
        Some(b) => b,
        None => {
            return None;
        },
    };
    let third = match third {
        Some(t) => t,
        None => {
            assert(path.drop_first().drop_first() =~= Seq::<Seq<char>>::empty());
            return Some(b);
        },
    };
    assert(path.drop_first().drop_first().drop_first() =~= Seq::<Seq<char>>::empty());
    b.get(third)
}

/// The path of one to three member names; a third without a second does
/// not count.
pub open spec fn path_of(
    first: Seq<char>,
    second: Option<Seq<char>>,
    third: Option<Seq<char>>,
) -> Seq<Seq<char>> {
    match (second, third) {
        (Some(s), Some(t)) => seq![first, s, t],
        (Some(s), None) => seq![first, s],
        _ => seq![first],
    }
}

/// Picks the probabilities out of a result document.
pub fn extract_probabilities(raw: Json) -> (r: Json)
    ensures
        r@ == probabilities_in(raw@),
{
    let found = match lookup(&raw, "probabilities", None, None) {
        Some(v) => Some(v.copy()),
        None => match lookup(&raw, "results", Some("probabilities"), None) {
            Some(v) => Some(v.copy()),
            None => match lookup(&raw, "data", Some("probabilities"), None) {
                Some(v) => Some(v.copy()),
                None => match lookup(&raw, "data", Some("results"), Some("probabilities")) {
                    Some(v) => Some(v.copy()),
                    None => None,
                },
            },
        },
    };
    match found {
        Some(v) => v,
        None => raw,
    }
}

/// The body of a job to create: the members in the order in which they are
/// set, a later one of the same name replacing the earlier.
pub open spec fn job_body(
    job_type: Seq<char>,
    name: Seq<char>,
    shots: i32,
    target_field: Seq<char>,
    target_value: Seq<char>,
    input: JsonValue,
    session_id: Option<Seq<char>>,
    noise: Option<JsonValue>,
) -> JsonValue {
    let m0 = with_member(Seq::empty(), "type"@, JsonValue::Str(job_type));
    let m1 = with_member(m0, "name"@, JsonValue::Str(name));
    let m2 = with_member(m1, "shots"@, JsonValue::Int(shots as i64));
    let m3 = with_member(m2, target_field, JsonValue::Str(target_value));
    let m4 = with_member(m3, "input"@, input);
    let m5 = match session_id {
        Some(sid) => with_member(m4, "session_id"@, JsonValue::Str(sid)),
        None => m4,
    };
    let m6 = match noise {
        Some(n) => with_member(m5, "noise"@, n),
        None => m5,
    };
    JsonValue::Object(m6)
}

/// The document that wraps a program text as the input of a job.
pub open spec fn program_input(program: Seq<char>) -> JsonValue {
    JsonValue::Object(seq![("data"@, JsonValue::Str(program))])
}

/// The first line of a program, without the whitespace around it.
pub open spec fn first_line(program: Seq<char>) -> Seq<char> {
    let s = trim_start(program);
    trim(s.subrange(0, find_char(s, '\n', 0)))
}

/// The circuit that a program text is, where it is one: a JSON document,
/// after leading whitespace, that starts with a brace and has members
/// `qubits` and `circuit`.
pub open spec fn circuit_in(program: Seq<char>) -> Option<JsonValue> {
    let s = trim_start(program);
    if s.len() > 0 && s[0] == '{' {
        match json_parse_text(s) {
            Some(v) => if is_circuit(v) {
                Some(v)
            } else {
                None
            },
            None => None,
        }
    } else {
        None
    }
}

/// Whether a document is a circuit: it has members `qubits` and `circuit`.
pub open spec fn is_circuit(doc: JsonValue) -> bool {
    doc.member("qubits"@) is Some && doc.member("circuit"@) is Some
}

/// Whether a document is a whole job request: an object with members `type`
/// and `input`.
pub open spec fn is_whole_job(doc: JsonValue) -> bool {
    doc is Object && doc.member("type"@) is Some && doc.member("input"@) is Some
}

/// Whether a document is a circuit.
pub fn looks_like_circuit(doc: &Json) -> (r: bool)
    ensures
        r == is_circuit(doc@),
{
    doc.has("qubits") && doc.has("circuit")
}

/// Whether a document is a whole job request.
pub fn looks_like_whole_job(doc: &Json) -> (r: bool)
    ensures
        r == is_whole_job(doc@),
{
    doc.as_object().is_some() && doc.has("type") && doc.has("input")
}

/// The job type of a program text: a circuit where it is one; else by its
/// first line OpenQASM 2 or 3; else QIR.
pub open spec fn job_type_of(program: Seq<char>) -> Seq<char> {
    let head = to_ascii_uppercase(first_line(program));
    if circuit_in(program) is Some {
        JOB_TYPE_CIRCUIT@
    } else if occurs_at(head, "OPENQASM 2"@, 0) {
        JOB_TYPE_QASM2@
    } else if occurs_at(head, "OPENQASM 3"@, 0) {
        JOB_TYPE_QASM3@
    } else {
        JOB_TYPE_QIR@
    }
}

/// The input of the job for a program text: the circuit where it is one,
/// else the text wrapped.
pub open spec fn job_input_of(program: Seq<char>) -> JsonValue {
    match circuit_in(program) {
        Some(v) => v,
        None => program_input(program),
    }
}

/// The adapter for the IonQ Cloud service.
#[derive(Debug)]
pub struct IonQCloud {
    pub api_client: Client,
    pub backend: Backend,
    pub session: Session,
}

/// The noise model that jobs on a backend get unless they name one: the
/// ideal model on the simulator, none on hardware.
pub open spec fn default_noise_of(backend: Backend) -> Option<JsonValue> {
    if backend == Backend::Simulator {
        Some(JsonValue::Object(seq![("model"@, JsonValue::Str("ideal"@))]))
    } else {
        None
    }
}

/// The members of a program text that is a whole job request: a JSON
/// object, after leading whitespace, with members `type` and `input`.
pub open spec fn whole_job_in(program: Seq<char>) -> Option<Seq<(Seq<char>, JsonValue)>> {
    let s = trim_start(program);
    if s.len() > 0 && s[0] == '{' {
        match json_parse_text(s) {
            Some(doc) => if is_whole_job(doc) {
                Some(doc.members())
            } else {
                None
            },
            None => None,
        }
    } else {
        None
    }
}

/// A whole job request made to fit the task: named unless it has a name,
/// with the shots of the task, with the backend of the adapter under
/// `target` where the request has a string there and under the usual
/// member otherwise, and with the session and the noise model of the
/// adapter unless it names its own.
pub open spec fn fitted_job(
    members: Seq<(Seq<char>, JsonValue)>,
    job_name: Seq<char>,
    shots: i32,
    backend: Backend,
    session_id: Option<Seq<char>>,
) -> JsonValue {
    let m1 = with_default_member(members, "name"@, JsonValue::Str(job_name));
    let m2 = with_member(m1, "shots"@, JsonValue::Int(shots as i64));
    let m3 = if JsonValue::Object(members).text_member("target"@) is Some {
        with_member(m2, "target"@, JsonValue::Str(backend.name()))
    } else {
        with_member(m2, TARGET_FIELD@, JsonValue::Str(backend.name()))
    };
    let m4 = match session_id {
        Some(sid) => with_default_member(m3, "session_id"@, JsonValue::Str(sid)),
        None => m3,
    };
    let m5 = match default_noise_of(backend) {
        Some(noise) => with_default_member(m4, "noise"@, noise),
        None => m4,
    };
    JsonValue::Object(m5)
}

/// The job that is submitted for a program on a backend which the payload
/// has been found to name: a whole job request made to fit; else a job of
/// the kind that the program is, naming the backend under the usual member.
/// A job of no shots is refused.
pub open spec fn program_plan(
    backend: Backend,
    session_id: Option<Seq<char>>,
    input: Seq<char>,
    shots: i32,
    job_name: Seq<char>,
) -> Result<JsonValue, (ErrorKind, Seq<char>)> {
    match whole_job_in(input) {
        Some(members) => Ok(fitted_job(members, job_name, shots, backend, session_id)),
        None => if shots <= 0 {
            Err((ErrorKind::InvalidArgument, "shots must be > 0"@))
        } else {
            Ok(
                job_body(
                    job_type_of(input),
                    job_name,
                    shots,
                    TARGET_FIELD@,
                    backend.name(),
                    job_input_of(input),
                    session_id,
                    default_noise_of(backend),
                ),
            )
        },
    }
}

/// The job that is submitted for a payload. A payload of another kind is
/// refused first, whatever the state of the adapter; then work without a
/// session; then a payload that names another backend or none.
pub open spec fn task_plan(
    backend: Backend,
    session_id: Option<Seq<char>>,
    payload: Payload,
    job_name: Seq<char>,
) -> Result<JsonValue, (ErrorKind, Seq<char>)> {
    match payload {
        Payload::IonQCloud { input, target, shots } => if session_id is None {
            Err((ErrorKind::SessionInvalid, "no session is held: acquire one first"@))
        } else {
            match Backend::named(target@) {
                None => Err(
                    (
                        ErrorKind::InvalidArgument,
                        "payload target '"@ + target@ + "' is not a valid IonQ backend"@,
                    ),
                ),
                Some(named) => if named != backend {
                    Err(
                        (
                            ErrorKind::TypeMismatch,
                            "payload target '"@ + named.name()
                                + "' does not match IonQCloud backend '"@ + backend.name()
                                + "'"@,
                        ),
                    )
                } else {
                    program_plan(backend, session_id, input@, shots, job_name)
                },
            }
        },
        _ => Err((ErrorKind::TypeMismatch, "IonQCloud backend only supports Payload::IonQCloud"@)),
    }
}

impl IonQCloud {
    /// An adapter for the backend named `backend_name`, with no session.
    pub fn new(backend_name: &str, api_key: String) -> (r: Result<Self, Failure>)
        ensures
            match r {
                Ok(adapter) => Backend::named(backend_name@) == Some(adapter.backend)
                    && adapter.session is Unacquired && adapter.api_client.api_key@ == api_key@
                    && adapter.api_client.base_url@ == "https://api.ionq.co/v0.4"@
                    && crate::transport::is_header_text("apiKey "@ + api_key@),
                Err(e) => if Backend::named(backend_name@) is None {
                    e.is(
                        ErrorKind::InvalidArgument,
                        "invalid IonQ backend '"@ + backend_name@ + "'"@,
                    )
                } else {
                    !crate::transport::is_header_text("apiKey "@ + api_key@) && e.is(
                        ErrorKind::MalformedCredential,
                        "the API key cannot stand in a header"@,
                    )
                },
            },
    {
        let backend = match Backend::parse(backend_name) {
            Ok(b) => b,
            Err(_) => {
                return Err(
                    Failure::new(
                        ErrorKind::InvalidArgument,
                        join3("invalid IonQ backend '", backend_name, "'"),
                    ),
                );
            },
        };
        match ClientBuilder::new(api_key).build() {
            Ok(api_client) => Ok(IonQCloud { api_client, backend, session: Session::Unacquired }),
            Err(e) => Err(e),
        }
    }

    /// The name of the backend.
    pub fn backend_str(&self) -> (r: String)
        ensures
            r@ == self.backend.name(),
    {
        String::from_str(self.backend.as_str())
    }

    /// The noise model that jobs get unless they name one.
    pub fn default_noise(&self) -> (r: Option<Json>)
        ensures
            opt_doc_view(r) == default_noise_of(self.backend),
    {
        match self.backend {
            Backend::Simulator => {
                let mut fields: Vec<(String, Json)> = Vec::new();
                fields.push((String::from_str("model"), Json::string("ideal")));
                assert(members_view(fields@) =~= seq![("model"@, JsonValue::Str("ideal"@))]);
                Some(Json::object(fields))
            },
            _ => None,
        }
    }

    /// The body of a job to create. A job of no shots is refused.
    pub fn build_job_body(
        job_type: &str,
        name: &str,
        shots: i32,
        target_field: &str,
        target_value: &str,
        input: Json,
        session_id: Option<&str>,
        noise: Option<Json>,
    ) -> (r: Result<Json, Failure>)
        ensures
            match r {
                Ok(body) => shots > 0 && body@ == job_body(
                    job_type@,
                    name@,
                    shots,
                    target_field@,
                    target_value@,
                    input@,
                    opt_str_view(session_id),
                    opt_doc_view(noise),
                ),
                Err(e) => shots <= 0 && e.is(ErrorKind::InvalidArgument, "shots must be > 0"@),
            },
    {
        if shots <= 0 {
            return Err(Failure::of(ErrorKind::InvalidArgument, "shots must be > 0"));
        }
        let mut m: Vec<(String, Json)> = Vec::new();
        assert(members_view(m@) =~= Seq::empty());
        set_member(&mut m, String::from_str("type"), Json::string(job_type));
        set_member(&mut m, String::from_str("name"), Json::string(name));
        set_member(&mut m, String::from_str("shots"), Json::Int(shots as i64));
        set_member(&mut m, String::from_str(target_field), Json::string(target_value));
        set_member(&mut m, String::from_str("input"), input);
        match session_id {
            Some(sid) => {
                set_member(&mut m, String::from_str("session_id"), Json::string(sid));
            },
            None => {},
        }
        match noise {
            Some(n) => {
                set_member(&mut m, String::from_str("noise"), n);
            },
            None => {},
        }
        Ok(Json::object(m))
    }

    /// Tells what kind of job a program text is, and gives its input.
    pub fn detect_job_type_and_input(program: &str) -> (r: (&'static str, Json))
        ensures
            r.0@ == job_type_of(program@),
            r.1@ == job_input_of(program@),
    {
        let chars = chars_of(program);
        let s = trim_start_chars(chars.as_slice());
        if s.len() > 0 && s[0] == '{' {
            let text = string_of(s.as_slice());
            match Json::parse(text.as_str()) {
                Some(v) => {
                    if looks_like_circuit(&v) {
                        return (JOB_TYPE_CIRCUIT, v);
                    }
                },
                None => {},
            }
        }
        let end = index_of(s.as_slice(), '\n', 0);
        let line = slice_chars(s.as_slice(), 0, end);
        let trimmed = trim_chars(line.as_slice());
        let head = uppercase_chars(trimmed.as_slice());
        let q2 = chars_of("OPENQASM 2");
        let q3 = chars_of("OPENQASM 3");
        let mut fields: Vec<(String, Json)> = Vec::new();
        fields.push((String::from_str("data"), Json::string(program)));
        assert(members_view(fields@) =~= seq![("data"@, JsonValue::Str(program@))]);
        let input = Json::object(fields);
        if starts_with(head.as_slice(), q2.as_slice()) {
            (JOB_TYPE_QASM2, input)
        } else if starts_with(head.as_slice(), q3.as_slice()) {
            (JOB_TYPE_QASM3, input)
        } else {
            (JOB_TYPE_QIR, input)
        }
    }
}

/// Reads a program text that is a whole job request.
pub fn read_whole_job(input: &str) -> (r: Option<Vec<(String, Json)>>)
    ensures
        match r {
            Some(members) => whole_job_in(input@) == Some(members_view(members@)),
            None => whole_job_in(input@) is None,
        },
{
    let chars = chars_of(input);
    let s = trim_start_chars(chars.as_slice());
    if !(s.len() > 0 && s[0] == '{') {
        return None;
    }
    let text = string_of(s.as_slice());
    let doc = match Json::parse(text.as_str()) {
        Some(d) => d,
        None => {
            return None;
        },
    };
    if !looks_like_whole_job(&doc) {
        return None;
    }
    proof {
        crate::json::lemma_view_unfold(doc);
    }
    match doc {
        Json::Object(members) => Some(members),
        _ => None,
    }
}

impl IonQCloud {
    /// A name for a new job: `qrmi-ionq-` and a random identifier.
    pub fn new_job_name() -> (r: String)
        ensures
            r@.len() == "qrmi-ionq-"@.len() + 36,
            occurs_at(r@, "qrmi-ionq-"@, 0),
    {
        let id = fresh_uuid();
        let r = join2("qrmi-ionq-", id.as_str());
        assert(r@.subrange(0, "qrmi-ionq-"@.len() as int) =~= "qrmi-ionq-"@);
        r
    }

    /// Fits a whole job request to a task of this adapter.
    pub fn fit_job(&self, members: Vec<(String, Json)>, job_name: &str, shots: i32) -> (r: Json)
        ensures
            r@ == fitted_job(
                members_view(members@),
                job_name@,
                shots,
                self.backend,
                self.session.held(),
            ),
    {
        let ghost given = members_view(members@);
        let probe = Json::object(members);
        let has_target = probe.get_str("target").is_some();
        let mut obj = match probe {
            Json::Object(fields) => fields,
            _ => Vec::new(),
        };
        proof {
            crate::json::lemma_view_unfold(probe);
        }
        assert(members_view(obj@) == given);
        set_default_member(&mut obj, String::from_str("name"), Json::string(job_name));
        set_member(&mut obj, String::from_str("shots"), Json::Int(shots as i64));
        let b = self.backend.as_str();
        if has_target {
            set_member(&mut obj, String::from_str("target"), Json::string(b));
        } else {
            set_member(&mut obj, String::from_str(TARGET_FIELD), Json::string(b));
        }
        match self.session.id() {
            Some(sid) => {
                set_default_member(
                    &mut obj,
                    String::from_str("session_id"),
                    Json::string(sid.as_str()),
                );
            },
            None => {},
        }
        match self.default_noise() {
            Some(noise) => {
                set_default_member(&mut obj, String::from_str("noise"), noise);
            },
            None => {},
        }
        Json::object(obj)
    }

    /// The job to submit for a program whose payload names this backend.
    pub fn plan_program(&self, input: &str, shots: i32, job_name: &str) -> (r: Result<
        Json,
        Failure,
    >)
        ensures
            match r {
                Ok(body) => program_plan(
                    self.backend,
                    self.session.held(),
                    input@,
                    shots,
                    job_name@,
                ) == Ok::<JsonValue, (ErrorKind, Seq<char>)>(body@),
                Err(e) => program_plan(
                    self.backend,
                    self.session.held(),
                    input@,
                    shots,
                    job_name@,
                ) == Err::<JsonValue, (ErrorKind, Seq<char>)>((e.kind, e.message@)),
            },
    {
        match read_whole_job(input) {
            Some(members) => {
                return Ok(self.fit_job(members, job_name, shots));
            },
            None => {},
        }
        let (job_type, job_input) = Self::detect_job_type_and_input(input);
        let sid: Option<&str> = match self.session.id() {
            Some(s) => Some(s.as_str()),
            None => None,
        };
        Self::build_job_body(
            job_type,
            job_name,
            shots,
            TARGET_FIELD,
            self.backend.as_str(),
            job_input,
            sid,
            self.default_noise(),
        )
    }

    /// The request that starts a task under the name `job_name`.
    ///
    /// A payload of another kind is refused first; then work without a
    /// session; then a payload that names another backend or none, and a
    /// job of no shots.
    pub fn task_start(&self, payload: Payload, job_name: &str) -> (r: Result<Request, Failure>)
        ensures
            match r {
                Ok(request) => task_plan(self.backend, self.session.held(), payload, job_name@)
                    matches Ok(body) && request@ == (RequestView {
                    method: Method::Post,
                    url: self.api_client.base_url@ + "/jobs"@,
                    headers: service_headers(self.api_client.api_key@),
                    body: BodyView::Json(json_text(body)),
                }),
                Err(e) => task_plan(self.backend, self.session.held(), payload, job_name@) == Err::<
                    JsonValue,
                    (ErrorKind, Seq<char>),
                >((e.kind, e.message@)),
            },
    {
        match &payload {
            Payload::IonQCloud { input, target, shots } => {
                if self.session.id().is_none() {
                    return Err(Session::invalid());
                }
                let named = match Backend::parse(target.as_str()) {
                    Ok(b) => b,
                    Err(_) => {
                        return Err(
                            Failure::new(
                                ErrorKind::InvalidArgument,
                                join3(
                                    "payload target '",
                                    target.as_str(),
                                    "' is not a valid IonQ backend",
                                ),
                            ),
                        );
                    },
                };
                if named != self.backend {
                    return Err(
                        Failure::new(
                            ErrorKind::TypeMismatch,
                            join5(
                                "payload target '",
                                named.as_str(),
                                "' does not match IonQCloud backend '",
                                self.backend.as_str(),
                                "'",
                            ),
                        ),
                    );
                }
                match self.plan_program(input.as_str(), *shots, job_name) {
                    Ok(body) => Ok(self.api_client.create_job_raw(&body)),
                    Err(e) => Err(e),
                }
            },
            _ => Err(
                Failure::of(
                    ErrorKind::TypeMismatch,
                    "IonQCloud backend only supports Payload::IonQCloud",
                ),
            ),
        }
    }
}

/// The failure `e` under the heading `context`.
pub open spec fn in_context(context: Seq<char>, e: (ErrorKind, Seq<char>)) -> (
    ErrorKind,
    Seq<char>,
) {
    (e.0, context + ": "@ + e.1)
}

/// Puts a failure under a heading that says what was being done.
pub fn with_context(context: &str, e: Failure) -> (r: Failure)
    ensures
        (r.kind, r.message@) == in_context(context@, (e.kind, e.message@)),
{
    Failure::new(e.kind, join3(context, ": ", e.message.as_str()))
}

/// The document of the result of a task.
pub open spec fn result_document(
    backend: Backend,
    task_id: Seq<char>,
    status: Seq<char>,
    probabilities: JsonValue,
) -> JsonValue {
    JsonValue::Object(
        seq![
            ("provider"@, JsonValue::Str("ionq"@)),
            ("backend"@, JsonValue::Str(backend.name())),
            ("job_id"@, JsonValue::Str(task_id)),
            ("status"@, JsonValue::Str(status)),
            ("probabilities"@, probabilities),
        ],
    )
}

impl IonQCloud {
    /// The identifier of the task that the reply to `task_start` names.
    pub fn task_start_result(reply: &Reply) -> (r: Result<String, Failure>)
        ensures
            match submit_outcome(reply.status, reply.body@) {
                Ok(job) => r matches Ok(id) && id@ == job.0,
                Err(cause) => r matches Err(e) && (e.kind, e.message@) == cause,
            },
    {
        match Client::job_result(reply) {
            Ok(job) => Ok(job.id),
            Err(e) => Err(e),
        }
    }

    /// The request that asks whether the backend can be reached.
    pub fn is_accessible(&self) -> (r: Request)
        ensures
            r@ == (RequestView {
                method: Method::Get,
                url: self.api_client.base_url@ + "/backends/"@ + self.backend.name(),
                headers: service_headers(self.api_client.api_key@),
                body: BodyView::Empty,
            }),
    {
        self.api_client.get_backend(self.backend)
    }

    /// Whether the backend can be reached, by the reply to `is_accessible`:
    /// the service reports its status as `available`.
    pub fn is_accessible_result(reply: &Reply) -> (r: Result<bool, Failure>)
        ensures
            match reply_document(reply.status, reply.body@) {
                Ok(doc) => match crate::ionq_cloud_api::backend_in(doc) {
                    Ok(info) => r matches Ok(up) && up == (info.status == "available"@),
                    Err(cause) => r matches Err(e) && (e.kind, e.message@) == in_context(
                        "get_backend failed"@,
                        cause,
                    ),
                },
                Err(cause) => r matches Err(e) && (e.kind, e.message@) == in_context(
                    "get_backend failed"@,
                    cause,
                ),
            },
    {
        match Client::get_backend_result(reply) {
            Ok(device) => Ok(crate::text::str_eq(device.status.as_str(), "available")),
            Err(e) => Err(with_context("get_backend failed", e)),
        }
    }

    /// The request that acquires a session on the backend.
    pub fn acquire(&self) -> (r: Request)
        ensures
            r@ == (RequestView {
                method: Method::Post,
                url: self.api_client.base_url@ + "/sessions"@,
                headers: service_headers(self.api_client.api_key@),
                body: BodyView::Json(
                    json_text(
                        crate::ionq_cloud_api::session_request_document(
                            self.backend.name(),
                            None,
                        ),
                    ),
                ),
            }),
    {
        let req = crate::ionq_cloud_api::SessionRequestData {
            backend: String::from_str(self.backend.as_str()),
            limits: None,
        };
        self.api_client.create_session(&req)
    }

    /// Takes in the reply to `acquire`: the session that it describes is
    /// held from now on. A reply that describes none leaves the adapter as
    /// it was and is reported as `ResourceUnavailable`.
    pub fn acquire_result(&mut self, reply: &Reply) -> (r: Result<String, Failure>)
        ensures
            final(self).api_client == old(self).api_client,
            final(self).backend == old(self).backend,
            match acquired_session(reply.status, reply.body@) {
                Ok(id) => r matches Ok(given) && given@ == id && final(self).session.held()
                    == Some(id),
                Err(cause) => r matches Err(e) && final(self).session == old(self).session && e.is(
                    ErrorKind::ResourceUnavailable,
                    "IonQ create_session failed (sessions are beta/limited availability): "@
                        + cause.1,
                ),
            },
    {
        match Client::session_result(reply) {
            Ok(session) => {
                self.session = Session::Acquired(session.id.clone());
                Ok(session.id)
            },
            Err(e) => Err(
                Failure::new(
                    ErrorKind::ResourceUnavailable,
                    join2(
                        "IonQ create_session failed (sessions are beta/limited availability): ",
                        e.message.as_str(),
                    ),
                ),
            ),
        }
    }

    /// The request that releases the session `id`.
    pub fn release(&self, id: &str) -> (r: Request)
        ensures
            r@ == (RequestView {
                method: Method::Post,
                url: self.api_client.base_url@ + "/sessions/"@ + id@ + "/end"@,
                headers: service_headers(self.api_client.api_key@),
                body: BodyView::Json("null"@),
            }),
    {
        self.api_client.end_session(id)
    }

    /// Takes in the reply to `release`: where the service ended the
    /// session, nothing more can be started.
    pub fn release_result(&mut self, reply: &Reply) -> (r: Result<(), Failure>)
        ensures
            final(self).api_client == old(self).api_client,
            final(self).backend == old(self).backend,
            match acquired_session(reply.status, reply.body@) {
                Ok(_) => r is Ok && final(self).session is Released,
                Err(cause) => r matches Err(e) && final(self).session == old(self).session && (
                e.kind,
                e.message@) == in_context("IonQ end_session failed"@, cause),
            },
    {
        match Client::session_result(reply) {
            Ok(_) => {
                self.session = Session::Released;
                Ok(())
            },
            Err(e) => Err(with_context("IonQ end_session failed", e)),
        }
    }

    /// The request that stops a task which was last seen in `status`. A
    /// task in a final state is left alone: there is nothing to send, and
    /// that is no error.
    pub fn task_stop(&self, task_id: &str, status: TaskStatus) -> (r: Option<Request>)
        ensures
            match r {
                Some(request) => !status.is_terminal() && request@ == (RequestView {
                    method: Method::Put,
                    url: self.api_client.base_url@ + "/jobs/"@ + task_id@ + "/cancel"@,
                    headers: service_headers(self.api_client.api_key@),
                    body: BodyView::Empty,
                }),
                None => status.is_terminal(),
            },
    {
        if status.is_final() {
            None
        } else {
            Some(self.api_client.cancel_job(task_id))
        }
    }

    /// Whether the reply to `task_stop` confirms the request.
    pub fn task_stop_result(task_id: &str, reply: &Reply) -> (r: Result<(), Failure>)
        ensures
            match submit_outcome(reply.status, reply.body@) {
                Ok(_) => r is Ok,
                Err(cause) => r matches Err(e) && (e.kind, e.message@) == in_context(
                    "cancel_job failed for "@ + task_id@,
                    cause,
                ),
            },
    {
        match Client::job_result(reply) {
            Ok(_) => Ok(()),
            Err(e) => {
                let context = join2("cancel_job failed for ", task_id);
                Err(with_context(context.as_str(), e))
            },
        }
    }

    /// The request for the state of a task.
    pub fn task_status(&self, task_id: &str) -> (r: Request)
        ensures
            r@ == (RequestView {
                method: Method::Get,
                url: self.api_client.base_url@ + "/jobs/"@ + task_id@,
                headers: service_headers(self.api_client.api_key@),
                body: BodyView::Empty,
            }),
    {
        self.api_client.get_job(task_id)
    }

    /// The canonical state of a task, by the reply to `task_status`.
    pub fn task_status_result(task_id: &str, reply: &Reply) -> (r: Result<TaskStatus, Failure>)
        ensures
            match submit_outcome(reply.status, reply.body@) {
                Ok(job) => r == Ok::<TaskStatus, Failure>(ionq_status(job.1)),
                Err(cause) => r matches Err(e) && (e.kind, e.message@) == in_context(
                    "get_job failed for "@ + task_id@,
                    cause,
                ),
            },
    {
        match Client::job_result(reply) {
            Ok(job) => Ok(map_ionq_status(job.status.as_str())),
            Err(e) => {
                let context = join2("get_job failed for ", task_id);
                Err(with_context(context.as_str(), e))
            },
        }
    }

    /// Decides, by the reply to `task_status`, whether the result of a task
    /// can be fetched: the request for its probabilities where the task is
    /// completed, `NotReady` where it is not.
    pub fn task_result(&self, task_id: &str, reply: &Reply) -> (r: Result<
        (IonQJob, Request),
        Failure,
    >)
        ensures
            match submit_outcome(reply.status, reply.body@) {
                Ok(job) => if ionq_status(job.1) == TaskStatus::Completed {
                    r matches Ok(found) && (
                    found.0.id@,
                    found.0.status@,
                    opt_view(found.0.session_id)) == job && found.1@ == (RequestView {
                        method: Method::Get,
                        url: self.api_client.base_url@ + "/jobs/"@ + task_id@
                            + "/results/probabilities"@,
                        headers: service_headers(self.api_client.api_key@),
                        body: BodyView::Empty,
                    })
                } else {
                    r matches Err(e) && e.is(
                        ErrorKind::NotReady,
                        "IonQ job "@ + task_id@ + " not completed yet (status: "@ + ionq_status(
                            job.1,
                        ).name_spec() + ")"@,
                    )
                },
                Err(cause) => r matches Err(e) && (e.kind, e.message@) == in_context(
                    "get_job failed for "@ + task_id@,
                    cause,
                ),
            },
    {
        match Client::job_result(reply) {
            Ok(job) => {
                let st = map_ionq_status(job.status.as_str());
                if st != TaskStatus::Completed {
                    return Err(
                        Failure::new(
                            ErrorKind::NotReady,
                            join5(
                                "IonQ job ",
                                task_id,
                                " not completed yet (status: ",
                                st.name(),
                                ")",
                            ),
                        ),
                    );
                }
                let request = self.api_client.get_job_probabilities(task_id);
                Ok((job, request))
            },
            Err(e) => {
                let context = join2("get_job failed for ", task_id);
                Err(with_context(context.as_str(), e))
            },
        }
    }

    /// The result of a completed task, from the document of its
    /// probabilities.
    pub fn task_result_value(&self, task_id: &str, job: &IonQJob, raw: Json) -> (r: TaskResult)
        ensures
            r.value@ == json_text(
                result_document(self.backend, task_id@, job.status@, probabilities_in(raw@)),
            ),
    {
        let probs = extract_probabilities(raw);
        let ghost want = result_document(self.backend, task_id@, job.status@, probs@);
        let mut fields: Vec<(String, Json)> = Vec::new();
        fields.push((String::from_str("provider"), Json::string("ionq")));
        fields.push((String::from_str("backend"), Json::string(self.backend.as_str())));
        fields.push((String::from_str("job_id"), Json::string(task_id)));
        fields.push((String::from_str("status"), Json::string(job.status.as_str())));
        fields.push((String::from_str("probabilities"), probs));
        assert(members_view(fields@) =~= want->Object_0);
        TaskResult { value: Json::object(fields).to_text() }
    }

    /// The request for the logs of a task: the service keeps none, so the
    /// description of the job is asked for.
    pub fn task_logs(&self, task_id: &str) -> (r: Request)
        ensures
            r@ == (RequestView {
                method: Method::Get,
                url: self.api_client.base_url@ + "/jobs/"@ + task_id@,
                headers: service_headers(self.api_client.api_key@),
                body: BodyView::Empty,
            }),
    {
        self.api_client.get_job(task_id)
    }

    /// The logs of a task, by the reply to `task_logs`: the description of
    /// the job stands in for them.
    pub fn task_logs_result(reply: &Reply) -> (r: Result<String, Failure>)
        ensures
            match r {
                Ok(logs) => submit_outcome(reply.status, reply.body@) is Ok && exists|
                    job: IonQJob,
                |
                    submit_outcome(reply.status, reply.body@)->Ok_0 == (
                        job.id@,
                        job.status@,
                        opt_view(job.session_id),
                    ) && logs@ == "IonQ job logs fallback (job details):\n"@
                        + crate::json::json_pretty_text(job.document()),
                Err(e) => submit_outcome(reply.status, reply.body@) == Err::<
                    (Seq<char>, Seq<char>, Option<Seq<char>>),
                    (ErrorKind, Seq<char>),
                >((e.kind, e.message@)),
            },
    {
        match Client::job_result(reply) {
            Ok(job) => {
                let details = job.to_json().to_pretty_text();
                Ok(join2("IonQ job logs fallback (job details):\n", details.as_str()))
            },
            Err(e) => Err(e),
        }
    }

    /// The request for the description of the backend.
    pub fn target(&self) -> (r: Request)
        ensures
            r@ == (RequestView {
                method: Method::Get,
                url: self.api_client.base_url@ + "/backends/"@ + self.backend.name(),
                headers: service_headers(self.api_client.api_key@),
                body: BodyView::Empty,
            }),
    {
        self.api_client.get_backend(self.backend)
    }

    /// The description of the backend, by the reply to `target`.
    pub fn target_result(reply: &Reply) -> (r: Result<Target, Failure>)
        ensures
            match reply_document(reply.status, reply.body@) {
                Ok(doc) => match crate::ionq_cloud_api::backend_in(doc) {
                    Ok(info) => r matches Ok(target) && exists|b: crate::ionq_cloud_api::IonQBackend|
                        b@ == info && target.value@ == json_text(b.document()),
                    Err(cause) => r matches Err(e) && (e.kind, e.message@) == in_context(
                        "get_backend failed"@,
                        cause,
                    ),
                },
                Err(cause) => r matches Err(e) && (e.kind, e.message@) == in_context(
                    "get_backend failed"@,
                    cause,
                ),
            },
    {
        match Client::get_backend_result(reply) {
            Ok(backend) => Ok(Target { value: backend.to_json().to_text() }),
            Err(e) => Err(with_context("get_backend failed", e)),
        }
    }

    /// What describes the adapter: the name of the backend and, where one
    /// is held, the session.
    pub fn metadata(&self) -> (r: Vec<(String, String)>)
        ensures
            crate::transport::pairs_view(r@) == match self.session.held() {
                Some(sid) => seq![("backend_name"@, self.backend.name()), ("session_id"@, sid)],
                None => seq![("backend_name"@, self.backend.name())],
            },
    {
        let mut m: Vec<(String, String)> = Vec::new();
        m.push(crate::transport::pair("backend_name", self.backend.as_str()));
        match self.session.id() {
            Some(sid) => {
                m.push(crate::transport::pair("session_id", sid.as_str()));
                assert(crate::transport::pairs_view(m@) =~= seq![
                    ("backend_name"@, self.backend.name()),
                    ("session_id"@, sid@),
                ]);
            },
            None => {
                assert(crate::transport::pairs_view(m@) =~= seq![
                    ("backend_name"@, self.backend.name()),
                ]);
            },
        }
        m
    }
}

/// The job that a reply describes, or the failure that it reports.
pub open spec fn submit_outcome(status: u16, body: Seq<char>) -> Result<
    (Seq<char>, Seq<char>, Option<Seq<char>>),
    (ErrorKind, Seq<char>),
> {
    match reply_document(status, body) {
        Ok(doc) => job_of(doc),
        Err(e) => Err(e),
    }
}

/// The identifier of the session that a reply describes, or the failure
/// that it reports.
pub open spec fn acquired_session(status: u16, body: Seq<char>) -> Result<
    Seq<char>,
    (ErrorKind, Seq<char>),
> {
    match reply_document(status, body) {
        Ok(doc) => match crate::ionq_cloud_api::session_in(doc) {
            Ok(info) => Ok(info.id),
            Err(e) => Err(e),
        },
        Err(e) => Err(e),
    }
}

/// Every status word that the service is known to write stands for its
/// canonical state.
pub proof fn lemma_known_statuses()
    ensures
        ionq_status("completed"@) == TaskStatus::Completed,
        ionq_status("done"@) == TaskStatus::Completed,
        ionq_status("succeeded"@) == TaskStatus::Completed,
        ionq_status("failed"@) == TaskStatus::Failed,
        ionq_status("error"@) == TaskStatus::Failed,
        ionq_status("canceled"@) == TaskStatus::Cancelled,
        ionq_status("cancelled"@) == TaskStatus::Cancelled,
        ionq_status("running"@) == TaskStatus::Running,
        ionq_status("started"@) == TaskStatus::Running,
        ionq_status("submitted"@) == TaskStatus::Queued,
        ionq_status("ready"@) == TaskStatus::Queued,
        ionq_status("queued"@) == TaskStatus::Queued,
{
    reveal_strlit("completed");
    reveal_strlit("done");
    reveal_strlit("succeeded");
    reveal_strlit("failed");
    reveal_strlit("error");
    reveal_strlit("canceled");
    reveal_strlit("cancelled");
    reveal_strlit("running");
    reveal_strlit("started");
    reveal_strlit("submitted");
    reveal_strlit("ready");
    reveal_strlit("queued");
    crate::text::lemma_lower_word_is_normal("completed"@);
    crate::text::lemma_lower_word_is_normal("done"@);
    crate::text::lemma_lower_word_is_normal("succeeded"@);
    crate::text::lemma_lower_word_is_normal("failed"@);
    crate::text::lemma_lower_word_is_normal("error"@);
    crate::text::lemma_lower_word_is_normal("canceled"@);
    crate::text::lemma_lower_word_is_normal("cancelled"@);
    crate::text::lemma_lower_word_is_normal("running"@);
    crate::text::lemma_lower_word_is_normal("started"@);
    crate::text::lemma_lower_word_is_normal("submitted"@);
    crate::text::lemma_lower_word_is_normal("ready"@);
    crate::text::lemma_lower_word_is_normal("queued"@);
    assert("cancelled"@[1] != "completed"@[1]);
    assert("cancelled"@[0] != "succeeded"@[0]);
    assert("submitted"@[0] != "completed"@[0]);
    assert("submitted"@[2] != "succeeded"@[2]);
    assert("submitted"@[0] != "cancelled"@[0]);
}

/// Whatever the service writes, the state is one of the five; and what is
/// written in another case, or with whitespace around it, stands for the
/// same state.
pub proof fn lemma_status_ignores_case_and_space(s: Seq<char>, t: Seq<char>)
    requires
        to_ascii_lowercase(trim(s)) == to_ascii_lowercase(trim(t)),
    ensures
        ionq_status(s) == ionq_status(t),
{
}

} // verus!
