//! The adapters for Pasqal: the cloud service and a device on premises.

use crate::json::{items_view, json_parse_text, json_text, Json, JsonValue};
use crate::models::{
    fresh_uuid, ErrorKind, Failure, Payload, Session, Target, TaskResult, TaskStatus,
};
use crate::pasqal_cloud_api::{
    batch_document, batch_results, data_text, device_of, known_expiry, service_headers, Client,
    ClientBuilder, DeviceType, JobStatus, Settings, DEFAULT_AUTH_ENDPOINT, DEFAULT_BASE_URL,
};
use crate::text::{chars_of, decimal, format_i64, join2, join3, parse_i64, parse_i64_chars, str_eq};
use crate::transport::{
    pair, pairs_view, reply_document, BodyView, Method, Reply, Request, RequestView,
};
use vstd::prelude::*;

verus! {

/// The canonical state that a state of the service stands for.
pub open spec fn pasqal_status(status: JobStatus) -> TaskStatus {
    match status {
        JobStatus::Pending => TaskStatus::Queued,
        JobStatus::Running => TaskStatus::Running,
        JobStatus::Canceling => TaskStatus::Running,
        JobStatus::Done => TaskStatus::Completed,
        JobStatus::Canceled => TaskStatus::Cancelled,
        JobStatus::TimedOut => TaskStatus::Failed,
        JobStatus::Error => TaskStatus::Failed,
        JobStatus::Paused => TaskStatus::Queued,
    }
}

/// Maps a state of the service to the canonical state.
pub fn map_pasqal_status(status: JobStatus) -> (r: TaskStatus)
    ensures
        r == pasqal_status(status),
{
    match status {
        JobStatus::Pending => TaskStatus::Queued,
        JobStatus::Running => TaskStatus::Running,
        JobStatus::Canceling => TaskStatus::Running,
        JobStatus::Done => TaskStatus::Completed,
        JobStatus::Canceled => TaskStatus::Cancelled,
        JobStatus::TimedOut => TaskStatus::Failed,
        JobStatus::Error => TaskStatus::Failed,
        JobStatus::Paused => TaskStatus::Queued,
    }
}

/// The canonical state that a status word of the service stands for; a
/// word that is not known stands for `Queued`.
pub open spec fn pasqal_status_word(word: Seq<char>) -> TaskStatus {
    match JobStatus::of_word(word) {
        Some(status) => pasqal_status(status),
        None => TaskStatus::Queued,
    }
}

/// Maps a status word of the service to the canonical state.
pub fn map_pasqal_status_word(word: &str) -> (r: TaskStatus)
    ensures
        r == pasqal_status_word(word@),
{
    match JobStatus::parse(word) {
        Some(status) => map_pasqal_status(status),
        None => TaskStatus::Queued,
    }
}

/// The value that a shared configuration holds for a resource under `key`:
/// the string member `key` of the `environment` of the first resource of
/// that name in the list `resources`.
pub open spec fn config_value(doc: JsonValue, resource: Seq<char>, key: Seq<char>) -> Option<
    Seq<char>,
> {
    match doc.member("resources"@) {
        Some(JsonValue::Array(items)) => match first_named(items, resource, 0) {
            Some(i) => match items[i].member("environment"@) {
                Some(environment) => environment.text_member(key),
                None => None,
            },
            None => None,
        },
        _ => None,
    }
}

/// Index of the first document at or after `from` whose `name` is `name`.
pub open spec fn first_named(items: Seq<JsonValue>, name: Seq<char>, from: int) -> Option<int>
    decreases items.len() - from,
{
    if from < 0 || from >= items.len() {
        None
    } else if items[from].text_member("name"@) == Some(name) {
        Some(from)
    } else {
        first_named(items, name, from + 1)
    }
}

/// Reads the value that a shared configuration holds for a resource.
pub fn read_config_value(doc: &Json, resource: &str, key: &str) -> (r: Option<String>)
    ensures
        match r {
            Some(value) => config_value(doc@, resource@, key@) == Some(value@),
            None => config_value(doc@, resource@, key@) is None,
        },
{
    let items = match doc.get("resources") {
        Some(list) => match list.as_array() {
            Some(items) => items,
            None => {
                return None;
            },
        },
        None => {
            return None;
        },
    };
    let ghost values = items_view(items@);
    let mut i: usize = 0;
    while i < items.len()
        invariant
            i <= items@.len(),
            values == items_view(items@),
            doc@.member("resources"@) == Some(JsonValue::Array(values)),
            first_named(values, resource@, 0) == first_named(values, resource@, i as int),
        decreases items@.len() - i,
    {
        let named = match items[i].get_str("name") {
            Some(name) => str_eq(name.as_str(), resource),
            None => false,
        };
        if named {
            return match items[i].get("environment") {
                Some(environment) => match environment.get_str(key) {
                    Some(value) => Some(value.clone()),
                    None => None,
                },
                None => None,
            };
        }
        i += 1;
    }
    None
}

/// Reads the value that the text of a shared configuration holds for a
/// resource under `key`; none where the text is no JSON.
pub fn read_qrmi_config_env_value_from_content(content: &str, resource: &str, key: &str) -> (r:
    Option<String>)
    ensures
        match r {
            Some(value) => json_parse_text(content@) is Some && config_value(
                json_parse_text(content@)->0,
                resource@,
                key@,
            ) == Some(value@),
            None => json_parse_text(content@) is None || config_value(
                json_parse_text(content@)->0,
                resource@,
                key@,
            ) is None,
        },
{
    match Json::parse(content) {
        Some(doc) => read_config_value(&doc, resource, key),
        None => None,
    }
}

/// The value that wins among the places where a setting can stand: the
/// environment before the local file, and that before the shared file.
pub open spec fn first_of(
    environment: Option<Seq<char>>,
    local: Option<Seq<char>>,
    shared: Option<Seq<char>>,
) -> Option<Seq<char>> {
    if environment is Some {
        environment
    } else if local is Some {
        local
    } else {
        shared
    }
}

/// Picks the value of a setting by precedence.
pub fn resolve(environment: Option<String>, local: Option<String>, shared: Option<String>) -> (r:
    Option<String>)
    ensures
        crate::json::opt_view(r) == first_of(
            crate::json::opt_view(environment),
            crate::json::opt_view(local),
            crate::json::opt_view(shared),
        ),
{
    match environment {
        Some(v) => Some(v),
        None => match local {
            Some(v) => Some(v),
            None => shared,
        },
    }
}

/// The adapter for the Pasqal Cloud service.
#[derive(Debug)]
pub struct PasqalCloud {
    pub api_client: Client,
    pub backend_name: String,
    pub session: Session,
}

/// The message that reports a backend name that names no device.
pub open spec fn invalid_device(name: Seq<char>) -> Seq<char> {
    "Device '"@ + name
        + "' is invalid. Valid devices: FRESNEL, FRESNEL_CAN1, EMU_MPS, EMU_FREE, EMU_FRESNEL"@
}

impl PasqalCloud {
    /// An adapter for the device named `backend_name`, with no session.
    /// A project is needed; without a token an empty one is used.
    pub fn new(backend_name: &str, project_id: Option<String>, auth_token: Option<String>) -> (r:
        Result<Self, Failure>)
        ensures
            match r {
                Ok(adapter) => project_id is Some && adapter.backend_name@ == backend_name@
                    && adapter.session is Unacquired && adapter.api_client.settings() == (
                Settings {
                    base_url: DEFAULT_BASE_URL@,
                    token: match auth_token {
                        Some(t) => t@,
                        None => Seq::empty(),
                    },
                    project_id: project_id->0@,
                    auth_endpoint: DEFAULT_AUTH_ENDPOINT@,
                    username: None,
                    password: None,
                }),
                Err(e) => if project_id is None {
                    e.is(
                        ErrorKind::CredentialsMissing,
                        backend_name@
                            + "_QRMI_PASQAL_CLOUD_PROJECT_ID environment variable is not set"@,
                    )
                } else {
                    e.is(
                        ErrorKind::MalformedCredential,
                        "the expiry of the auth token cannot be read"@,
                    ) && known_expiry(
                        match auth_token {
                            Some(t) => t@,
                            None => Seq::empty(),
                        },
                    ) is Err
                },
            },
    {
        let project_id = match project_id {
            Some(p) => p,
            None => {
                return Err(
                    Failure::new(
                        ErrorKind::CredentialsMissing,
                        join2(
                            backend_name,
                            "_QRMI_PASQAL_CLOUD_PROJECT_ID environment variable is not set",
                        ),
                    ),
                );
            },
        };
        let token = match auth_token {
            Some(t) => t,
            None => String::new(),
        };
        match ClientBuilder::new(token, project_id).build() {
            Ok(api_client) => Ok(
                PasqalCloud {
                    api_client,
                    backend_name: String::from_str(backend_name),
                    session: Session::Unacquired,
                },
            ),
            Err(_) => Err(
                Failure::of(
                    ErrorKind::MalformedCredential,
                    "the expiry of the auth token cannot be read",
                ),
            ),
        }
    }

    /// The device that the backend name names.
    pub fn device_type(&self) -> (r: Result<DeviceType, Failure>)
        ensures
            match DeviceType::named(self.backend_name@) {
                Some(device) => r == Ok::<DeviceType, Failure>(device),
                None => r matches Err(e) && e.is(
                    ErrorKind::InvalidArgument,
                    invalid_device(self.backend_name@),
                ),
            },
    {
        match DeviceType::parse(self.backend_name.as_str()) {
            Some(device) => Ok(device),
            None => Err(
                Failure::new(
                    ErrorKind::InvalidArgument,
                    join3(
                        "Device '",
                        self.backend_name.as_str(),
                        "' is invalid. Valid devices: FRESNEL, FRESNEL_CAN1, EMU_MPS, EMU_FREE, EMU_FRESNEL",
                    ),
                ),
            ),
        }
    }

    /// The request that asks whether the device can be used.
    pub fn is_accessible(&self) -> (r: Result<Request, Failure>)
        ensures
            match DeviceType::named(self.backend_name@) {
                Some(device) => r matches Ok(request) && request@ == (RequestView {
                    method: Method::Get,
                    url: self.api_client.base_url@ + "/core-fast/api/v1/devices?device_type="@
                        + device.name(),
                    headers: service_headers(self.api_client.auth_token@),
                    body: BodyView::Empty,
                }),
                None => r matches Err(e) && e.is(
                    ErrorKind::InvalidArgument,
                    invalid_device(self.backend_name@),
                ),
            },
    {
        match self.device_type() {
            Ok(device) => Ok(self.api_client.get_device(device)),
            Err(e) => Err(e),
        }
    }

    /// Whether the device can be used, by the reply to `is_accessible`: it
    /// may be down for a while, but it is not retired.
    pub fn is_accessible_result(reply: &Reply, device: DeviceType) -> (r: Result<bool, Failure>)
        ensures
            match device_reply(reply.status, reply.body@, device) {
                Ok(found) => r matches Ok(up) && up == (found.1 == "ACTIVE"@),
                Err(cause) => r matches Err(e) && e.kind == cause.0 && e.message@
                    == "Failed to get device: "@ + cause.1,
            },
    {
        match Client::get_device_result(reply, device) {
            Ok(found) => Ok(str_eq(found.availability.as_str(), "ACTIVE")),
            Err(e) => Err(
                Failure::new(e.kind, join2("Failed to get device: ", e.message.as_str())),
            ),
        }
    }

    /// Acquires a session. The service knows none, so a random identifier
    /// stands for one.
    pub fn acquire(&mut self) -> (r: Result<String, Failure>)
        ensures
            r matches Ok(id) && id@.len() == 36 && final(self).session.held() == Some(id@),
            final(self).api_client == old(self).api_client,
            final(self).backend_name == old(self).backend_name,
    {
        let id = fresh_uuid();
        self.session = Session::Acquired(id.clone());
        Ok(id)
    }

    /// Releases the session: nothing more can be started. Safe in every
    /// state.
    pub fn release(&mut self, id: &str) -> (r: Result<(), Failure>)
        ensures
            r is Ok,
            final(self).session is Released,
            final(self).api_client == old(self).api_client,
            final(self).backend_name == old(self).backend_name,
    {
        self.session = Session::Released;
        Ok(())
    }

    /// The request that starts a task. A payload that is not meant for
    /// Pasqal is refused first, whatever the state of the adapter; then
    /// work without a session; then a backend name that names no device.
    pub fn task_start(&self, payload: Payload) -> (r: Result<Request, Failure>)
        ensures
            match r {
                Ok(request) => {
                    let task = payload.pasqal()->Some_0;
                    &&& self.session.held() is Some
                    &&& payload.pasqal() is Some
                    &&& DeviceType::named(self.backend_name@) is Some
                    &&& request@ == (RequestView {
                        method: Method::Post,
                        url: self.api_client.base_url@ + "/core-fast/api/v1/batches"@,
                        headers: service_headers(self.api_client.auth_token@),
                        body: BodyView::Json(
                            json_text(
                                batch_document(
                                    task.0,
                                    task.1,
                                    DeviceType::named(self.backend_name@)->0,
                                    self.api_client.project_id@,
                                ),
                            ),
                        ),
                    })
                },
                Err(e) => if payload.pasqal() is None {
                    e.is(ErrorKind::TypeMismatch, "Payload type is not supported."@)
                } else if self.session.held() is None {
                    e.is(ErrorKind::SessionInvalid, "no session is held: acquire one first"@)
                } else {
                    DeviceType::named(self.backend_name@) is None && e.is(
                        ErrorKind::InvalidArgument,
                        invalid_device(self.backend_name@),
                    )
                },
            },
    {
        match payload {
            Payload::PasqalCloud { sequence, job_runs } => {
                if self.session.id().is_none() {
                    return Err(Session::invalid());
                }
                match self.device_type() {
                    Ok(device) => Ok(self.api_client.create_batch(sequence, job_runs, device)),
                    Err(e) => Err(e),
                }
            },
            _ => Err(
                Failure::of(ErrorKind::TypeMismatch, "Payload type is not supported."),
            ),
        }
    }

    /// The identifier of the task that the reply to `task_start` names.
    pub fn task_start_result(reply: &Reply) -> (r: Result<String, Failure>)
        ensures
            match data_reply(reply.status, reply.body@, "id"@) {
                Ok(id) => r matches Ok(found) && found@ == id,
                Err(cause) => r matches Err(e) && (e.kind, e.message@) == cause,
            },
    {
        match Client::create_batch_result(reply) {
            Ok(batch) => Ok(batch.data.id),
            Err(e) => Err(e),
        }
    }

    /// The request that stops a task which was last seen in `status`. A
    /// task in a final state is left alone: there is nothing to send, and
    /// that is no error.
    pub fn task_stop(&self, task_id: &str, status: TaskStatus) -> (r: Option<Request>)
        ensures
            match r {
                Some(request) => !status.is_terminal() && request@ == (RequestView {
                    method: Method::Patch,
                    url: self.api_client.base_url@ + "/core-fast/api/v2/batches/"@ + task_id@
                        + "/cancel"@,
                    headers: service_headers(self.api_client.auth_token@),
                    body: BodyView::Empty,
                }),
                None => status.is_terminal(),
            },
    {
        if status.is_final() {
            None
        } else {
            Some(self.api_client.cancel_batch(task_id))
        }
    }

    /// The request for the state of a task.
    pub fn task_status(&self, task_id: &str) -> (r: Request)
        ensures
            r@ == (RequestView {
                method: Method::Get,
                url: self.api_client.base_url@ + "/core-fast/api/v2/batches/"@ + task_id@,
                headers: service_headers(self.api_client.auth_token@),
                body: BodyView::Empty,
            }),
    {
        self.api_client.get_batch(task_id)
    }

    /// The canonical state of a task, by the reply to `task_status`: what
    /// the status word of the batch stands for.
    pub fn task_status_result(reply: &Reply) -> (r: Result<TaskStatus, Failure>)
        ensures
            match data_reply(reply.status, reply.body@, "status"@) {
                Ok(word) => r == Ok::<TaskStatus, Failure>(pasqal_status_word(word)),
                Err(cause) => r matches Err(e) && (e.kind, e.message@) == cause,
            },
    {
        match crate::pasqal_cloud_api::handle_request(reply) {
            Ok(doc) => match crate::pasqal_cloud_api::read_data_text(&doc, "status") {
                Ok(word) => Ok(map_pasqal_status_word(word.as_str())),
                Err(e) => Err(e),
            },
            Err(e) => Err(e),
        }
    }

    /// The request for the result of a task which was last seen in
    /// `status`. Before the task is completed there is none to ask for:
    /// `NotReady`.
    pub fn task_result(&self, task_id: &str, status: TaskStatus) -> (r: Result<Request, Failure>)
        ensures
            match r {
                Ok(request) => status == TaskStatus::Completed && request@ == (RequestView {
                    method: Method::Get,
                    url: self.api_client.base_url@ + "/core-fast/api/v1/batches/"@ + task_id@
                        + "/full_results"@,
                    headers: service_headers(self.api_client.auth_token@),
                    body: BodyView::Empty,
                }),
                Err(e) => status != TaskStatus::Completed && e.is(
                    ErrorKind::NotReady,
                    "Pasqal batch "@ + task_id@ + " not completed yet (status: "@
                        + status.name_spec() + ")"@,
                ),
            },
    {
        match status {
            TaskStatus::Completed => Ok(self.api_client.get_batch_results(task_id)),
            _ => Err(
                Failure::new(
                    ErrorKind::NotReady,
                    crate::text::join5(
                        "Pasqal batch ",
                        task_id,
                        " not completed yet (status: ",
                        status.name(),
                        ")",
                    ),
                ),
            ),
        }
    }

    /// The result of a task, by the reply to `task_result`.
    pub fn task_result_value(reply: &Reply) -> (r: Result<TaskResult, Failure>)
        ensures
            match results_reply(reply.status, reply.body@) {
                Ok(text) => r matches Ok(found) && found.value@ == text,
                Err(cause) => r matches Err(e) && (e.kind, e.message@) == cause,
            },
    {
        match Client::get_batch_results_result(reply) {
            Ok(value) => Ok(TaskResult { value }),
            Err(e) => Err(e),
        }
    }

    /// The logs of a task: the service keeps none.
    pub fn task_logs(&self, task_id: &str) -> (r: Result<String, Failure>)
        ensures
            r matches Ok(text) && text@ == "There are no logs for this job."@,
    {
        Ok(String::from_str("There are no logs for this job."))
    }

    /// The request for the description of the device.
    pub fn target(&self) -> (r: Result<Request, Failure>)
        ensures
            match DeviceType::named(self.backend_name@) {
                Some(device) => r matches Ok(request) && request@ == (RequestView {
                    method: Method::Get,
                    url: self.api_client.base_url@ + "/core-fast/api/v1/devices/specs/"@
                        + device.name(),
                    headers: service_headers(self.api_client.auth_token@),
                    body: BodyView::Empty,
                }),
                None => r matches Err(e) && e.is(
                    ErrorKind::InvalidArgument,
                    invalid_device(self.backend_name@),
                ),
            },
    {
        match self.device_type() {
            Ok(device) => Ok(self.api_client.get_device_specs(device)),
            Err(e) => Err(e),
        }
    }

    /// The description of the device, by the reply to `target`.
    pub fn target_result(reply: &Reply) -> (r: Result<Target, Failure>)
        ensures
            match data_reply(reply.status, reply.body@, "specs"@) {
                Ok(specs) => r matches Ok(found) && found.value@ == specs,
                Err(cause) => r matches Err(e) && (e.kind, e.message@) == cause,
            },
    {
        match Client::get_device_specs_result(reply) {
            Ok(found) => Ok(Target { value: found.data.specs }),
            Err(e) => Err(e),
        }
    }

    /// What describes the adapter: the name of the backend.
    pub fn metadata(&self) -> (r: Vec<(String, String)>)
        ensures
            pairs_view(r@) == seq![("backend_name"@, self.backend_name@)],
    {
        let mut m: Vec<(String, String)> = Vec::new();
        m.push(pair("backend_name", self.backend_name.as_str()));
        assert(pairs_view(m@) =~= seq![("backend_name"@, self.backend_name@)]);
        m
    }
}

/// The first device that a reply lists, or the failure that it reports.
pub open spec fn device_reply(status: u16, body: Seq<char>, device: DeviceType) -> Result<
    (Seq<char>, Seq<char>),
    (ErrorKind, Seq<char>),
> {
    match reply_document(status, body) {
        Ok(doc) => device_of(doc, device),
        Err(e) => Err(e),
    }
}

/// The text under `key` in the data of a reply, or the failure that it
/// reports.
pub open spec fn data_reply(status: u16, body: Seq<char>, key: Seq<char>) -> Result<
    Seq<char>,
    (ErrorKind, Seq<char>),
> {
    match reply_document(status, body) {
        Ok(doc) => data_text(doc, key),
        Err(e) => Err(e),
    }
}

/// The result of the one job of a batch in a reply, or the failure that it
/// reports.
pub open spec fn results_reply(status: u16, body: Seq<char>) -> Result<
    Seq<char>,
    (ErrorKind, Seq<char>),
> {
    match reply_document(status, body) {
        Ok(doc) => batch_results(doc),
        Err(e) => Err(e),
    }
}

/// The adapter for a Pasqal device on premises.
#[derive(Debug)]
pub struct PasqalLocal {
    pub api_client: crate::pasqal_local_api::Client,
    pub job_uid: i32,
}

/// The 32-bit integer that `s` writes, if it writes one.
pub open spec fn parse_i32(s: Seq<char>) -> Option<i32> {
    match parse_i64(s) {
        Some(n) => if i32::MIN <= n <= i32::MAX {
            Some(n as i32)
        } else {
            None
        },
        None => None,
    }
}

/// The message that reports work without a session token.
pub open spec fn no_session_token() -> Seq<char> {
    "PASQAL_LOCAL_QRMI_JOB_ACQUISITION_TOKEN environment variable is not set"@
}

fn missing_session() -> (r: Failure)
    ensures
        r.is(ErrorKind::SessionInvalid, no_session_token()),
{
    Failure::of(
        ErrorKind::SessionInvalid,
        "PASQAL_LOCAL_QRMI_JOB_ACQUISITION_TOKEN environment variable is not set",
    )
}

impl PasqalLocal {
    /// An adapter that acts for the job whose user identifier `job_uid`
    /// writes, through `api_client`.
    pub fn new(api_client: crate::pasqal_local_api::Client, job_uid: Option<&str>) -> (r: Result<
        Self,
        Failure,
    >)
        ensures
            match r {
                Ok(adapter) => job_uid is Some && parse_i32(job_uid->0@) == Some(adapter.job_uid)
                    && adapter.api_client == api_client,
                Err(e) => (job_uid is None || parse_i32(job_uid->0@) is None) && e.is(
                    ErrorKind::InvalidArgument,
                    "QRMI_JOB_UID is not set to a 32-bit integer"@,
                ),
            },
    {
        let parsed = match job_uid {
            Some(text) => {
                let chars = chars_of(text);
                parse_i64_chars(chars.as_slice())
            },
            None => None,
        };
        match parsed {
            Some(n) => {
                if -2147483648 <= n && n <= 2147483647 {
                    return Ok(PasqalLocal { api_client, job_uid: n as i32 });
                }
            },
            None => {},
        }
        Err(
            Failure::of(ErrorKind::InvalidArgument, "QRMI_JOB_UID is not set to a 32-bit integer"),
        )
    }

    /// Whether the device can be used: always.
    pub fn is_accessible(&self) -> (r: Result<bool, Failure>)
        ensures
            r matches Ok(true),
    {
        Ok(true)
    }

    /// The request that acquires a session for the job.
    pub fn acquire(&self) -> (r: Request)
        ensures
            r@ == (RequestView {
                method: Method::Post,
                url: self.api_client.base_url@ + "/sessions"@,
                headers: crate::pasqal_local_api::service_headers(self.api_client.credential@),
                body: BodyView::Json(
                    json_text(
                        JsonValue::Object(
                            seq![("user_id"@, JsonValue::Str(decimal(self.job_uid as int)))],
                        ),
                    ),
                ),
            }),
    {
        self.api_client.create_session(self.job_uid)
    }

    /// The identifier of the session that the reply to `acquire` names. A
    /// reply that names none is reported as `ResourceUnavailable`.
    pub fn acquire_result(reply: &Reply) -> (r: Result<String, Failure>)
        ensures
            match reply_document(reply.status, reply.body@) {
                Ok(doc) => match r {
                    Ok(id) => doc.text_member("id"@) == Some(id@),
                    Err(e) => doc.text_member("id"@) is None && e.is(
                        ErrorKind::ResourceUnavailable,
                        crate::pasqal_local_api::shape_error().1,
                    ),
                },
                Err(failure) => r matches Err(e) && e.is(
                    ErrorKind::ResourceUnavailable,
                    failure.1,
                ),
            },
    {
        match crate::pasqal_local_api::Client::session_result(reply) {
            Ok(session) => Ok(session.id),
            Err(e) => Err(Failure::new(ErrorKind::ResourceUnavailable, e.message)),
        }
    }

    /// The request that releases the session whose token the job was given.
    /// Without a token there is nothing to release: `SessionInvalid`.
    pub fn release(&self, session_token: Option<&str>) -> (r: Result<Request, Failure>)
        ensures
            match session_token {
                Some(token) => r matches Ok(request) && request@ == (RequestView {
                    method: Method::Delete,
                    url: self.api_client.base_url@ + "/sessions/"@ + token@,
                    headers: crate::pasqal_local_api::service_headers(
                        self.api_client.credential@,
                    ),
                    body: BodyView::Empty,
                }),
                None => r matches Err(e) && e.is(ErrorKind::SessionInvalid, no_session_token()),
            },
    {
        match session_token {
            Some(token) => Ok(self.api_client.revoke_session(token)),
            None => Err(missing_session()),
        }
    }

    /// The request that starts a task in the session whose token the job
    /// was given. A payload that is not meant for Pasqal is refused first;
    /// then work without a token.
    pub fn task_start(&self, payload: Payload, session_token: Option<&str>) -> (r: Result<
        Request,
        Failure,
    >)
        ensures
            match r {
                Ok(request) => {
                    let task = payload.pasqal()->Some_0;
                    &&& session_token is Some
                    &&& payload.pasqal() is Some
                    &&& request@ == (RequestView {
                        method: Method::Post,
                        url: self.api_client.base_url@ + "/jobs"@,
                        headers: crate::pasqal_local_api::service_headers(
                            self.api_client.credential@,
                        ).push(("X-Warden-Session"@, session_token->0@)),
                        body: BodyView::Json(
                            json_text(
                                JsonValue::Object(seq![("sequence"@, JsonValue::Str(task.0))]),
                            ),
                        ),
                    })
                },
                Err(e) => if payload.pasqal() is None {
                    e.is(ErrorKind::TypeMismatch, "Payload type is not supported."@)
                } else {
                    session_token is None && e.is(ErrorKind::SessionInvalid, no_session_token())
                },
            },
    {
        match payload {
            Payload::PasqalCloud { sequence, job_runs } => match session_token {
                Some(token) => Ok(self.api_client.create_job(sequence, token)),
                None => Err(missing_session()),
            },
            _ => Err(
                Failure::of(ErrorKind::TypeMismatch, "Payload type is not supported."),
            ),
        }
    }

    /// The identifier of the task that the reply to `task_start` names: the
    /// number of the job, in decimal.
    pub fn task_start_result(reply: &Reply) -> (r: Result<String, Failure>)
        ensures
            match reply_document(reply.status, reply.body@) {
                Ok(doc) => match r {
                    Ok(id) => {
                        let job = crate::pasqal_local_api::job_of(doc)->Some_0;
                        crate::pasqal_local_api::job_of(doc) is Some && id@ == decimal(
                            job.0 as int,
                        )
                    },
                    Err(e) => crate::pasqal_local_api::job_of(doc) is None && (e.kind, e.message@)
                        == crate::pasqal_local_api::shape_error(),
                },
                Err(failure) => r matches Err(e) && (e.kind, e.message@) == failure,
            },
    {
        match crate::pasqal_local_api::Client::create_job_result(reply) {
            Ok(job) => Ok(format_i64(job.id as i64)),
            Err(e) => Err(e),
        }
    }

    /// Stops a task: nothing is done, and that is no error.
    pub fn task_stop(&self, task_id: &str) -> (r: Result<(), Failure>)
        ensures
            r is Ok,
    {
        Ok(())
    }

    /// The state of a task: reported as completed.
    pub fn task_status(&self, task_id: &str) -> (r: Result<TaskStatus, Failure>)
        ensures
            r matches Ok(TaskStatus::Completed),
    {
        Ok(TaskStatus::Completed)
    }

    /// The result of a task: the device hands none out through this
    /// service.
    pub fn task_result(&self, task_id: &str) -> (r: Result<TaskResult, Failure>)
        ensures
            r matches Err(e) && e.is(
                ErrorKind::NotReady,
                "the results of a task cannot be fetched from a local device"@,
            ),
    {
        Err(
            Failure::of(
                ErrorKind::NotReady,
                "the results of a task cannot be fetched from a local device",
            ),
        )
    }

    /// The logs of a task: the service keeps none.
    pub fn task_logs(&self, task_id: &str) -> (r: Result<String, Failure>)
        ensures
            r matches Ok(text) && text@ == "There are no logs for this job."@,
    {
        Ok(String::from_str("There are no logs for this job."))
    }

    /// The description of the device: the service gives none, so a fixed
    /// word stands in.
    pub fn target(&self) -> (r: Result<Target, Failure>)
        ensures
            r matches Ok(found) && found.value@ == "placeholder"@,
    {
        Ok(Target { value: String::from_str("placeholder") })
    }

    /// What describes the adapter: nothing.
    pub fn metadata(&self) -> (r: Vec<(String, String)>)
        ensures
            r@.len() == 0,
    {
        Vec::new()
    }
}

/// Every status word of the service stands for the canonical state of the
/// state that it writes.
pub proof fn lemma_known_statuses(status: JobStatus)
    ensures
        pasqal_status_word(status.word()) == pasqal_status(status),
{
    crate::pasqal_cloud_api::lemma_status_words_round_trip(status);
}

} // verus!
