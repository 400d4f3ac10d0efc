//! Client-side logic for the Pasqal Cloud service: credentials, request
//! planning and response reading.

use crate::codec::{base64url_decoded, decode_base64url};
use crate::json::{
    items_view, json_parse, json_parse_text, json_text, members_view, opt_view, strings_view, Json,
    JsonValue,
};
use crate::models::{ErrorKind, Failure};
use crate::text::{
    chars_of, contains, contains_chars, find_char, index_of, join2, join3, join4, parse_i64,
    parse_i64_chars, slice_chars, str_eq, string_of, trim, trim_chars, unicode_uppercase,
    uppercase_of,
};
use crate::transport::{
    bearer, bearer_header, is_success, pair, pairs_view, reply_document, status_text, Body,
    BodyView, Method, Reply, Request, RequestView,
};
use vstd::prelude::*;
use vstd::utf8::encode_utf8;

verus! {

/// Seconds before its stated expiry from which a token counts as expired.
pub const AUTH_TOKEN_EXPIRY_GRACE_SECONDS: i64 = 10;

/// Why the expiry of a token could not be read.
#[derive(Debug, Clone, Copy, PartialEq, Eq, Structural)]
pub enum TokenError {
    /// The token is not made of three segments with dots between them, or
    /// its header or its payload is empty.
    NotThreeSegments,
    /// The payload segment is no unpadded URL-safe base64.
    InvalidBase64,
    /// The decoded payload is no JSON document.
    InvalidJson,
    /// The `exp` claim is a string that writes no signed 64-bit integer.
    InvalidExpiry,
}

/// The payload segment of a token: the text between its two dots. `None`
/// where the trimmed token is not made of exactly three segments, or its
/// header or payload is empty.
pub open spec fn token_payload(token: Seq<char>) -> Option<Seq<char>> {
    let t = trim(token);
    let d1 = find_char(t, '.', 0);
    let d2 = find_char(t, '.', d1 + 1);
    let d3 = find_char(t, '.', d2 + 1);
    if d1 == 0 || d1 >= t.len() || d2 == d1 + 1 || d2 >= t.len() || d3 < t.len() {
        None
    } else {
        Some(t.subrange(d1 + 1, d2))
    }
}

/// The expiry that a claims document states under `exp`: a number that fits a
/// signed 64-bit integer, or a string that writes one. Another kind of value,
/// or no `exp` at all, states none.
pub open spec fn expiry_claim(claims: JsonValue) -> Result<Option<i64>, TokenError> {
    match claims.member("exp"@) {
        Some(JsonValue::Int(n)) => Ok(Some(n)),
        Some(JsonValue::Str(s)) => match parse_i64(s) {
            Some(n) => Ok(Some(n)),
            None => Err(TokenError::InvalidExpiry),
        },
        _ => Ok(None),
    }
}

/// The expiry of a token, in seconds since the epoch. A token that is not
/// made of three segments, or whose payload is no base64 of a JSON
/// document, is malformed; one whose claims hold no `exp` states no expiry.
pub open spec fn token_expiry(token: Seq<char>) -> Result<Option<i64>, TokenError> {
    match token_payload(token) {
        None => Err(TokenError::NotThreeSegments),
        Some(payload) => match base64url_decoded(encode_utf8(payload)) {
            None => Err(TokenError::InvalidBase64),
            Some(bytes) => match json_parse(bytes) {
                None => Err(TokenError::InvalidJson),
                Some(claims) => expiry_claim(claims),
            },
        },
    }
}

/// The expiry that is recorded for a token at hand. A token that is not
/// made of three segments is an opaque credential: it has no expiry that
/// could be read, and none is recorded. Every other malformed token is
/// refused.
pub open spec fn known_expiry(token: Seq<char>) -> Result<Option<i64>, TokenError> {
    match token_expiry(token) {
        Err(TokenError::NotThreeSegments) => Ok(None),
        other => other,
    }
}

/// Whether a token can be presented at time `now`. A blank token cannot.
/// A token that states an expiry can while the expiry lies more than the
/// grace period ahead. A token without an expiry that could be read, one
/// that states none or an opaque one, can until the service rejects it.
/// A token of three segments whose payload cannot be read cannot.
pub open spec fn token_usable(token: Seq<char>, now: int) -> bool {
    trim(token).len() > 0 && match known_expiry(token) {
        Ok(Some(exp)) => exp > now + AUTH_TOKEN_EXPIRY_GRACE_SECONDS,
        Ok(None) => true,
        Err(_) => false,
    }
}

/// Reads the expiry that a decoded claims document states.
pub fn expiry_from_claims(claims: &Json) -> (r: Result<Option<i64>, TokenError>)
    ensures
        r == expiry_claim(claims@),
{
    match claims.get("exp") {
        None => Ok(None),
        Some(exp) => match exp {
            Json::Int(n) => Ok(Some(*n)),
            Json::Str(s) => {
                let digits = chars_of(s.as_str());
                match parse_i64_chars(digits.as_slice()) {
                    Some(n) => Ok(Some(n)),
                    None => Err(TokenError::InvalidExpiry),
                }
            },
            _ => Ok(None),
        },
    }
}

/// Cuts the payload segment out of a token.
pub fn payload_segment(token: &str) -> (r: Option<String>)
    ensures
        match r {
            Some(p) => token_payload(token@) == Some(p@),
            None => token_payload(token@) is None,
        },
{
    let chars = chars_of(token);
    let t = trim_chars(chars.as_slice());
    let d1 = index_of(t.as_slice(), '.', 0);
    if d1 == 0 || d1 >= t.len() {
        return None;
    }
    let d2 = index_of(t.as_slice(), '.', d1 + 1);
    if d2 == d1 + 1 || d2 >= t.len() {
        return None;
    }
    let d3 = index_of(t.as_slice(), '.', d2 + 1);
    if d3 < t.len() {
        return None;
    }
    let payload = slice_chars(t.as_slice(), d1 + 1, d2);
    Some(string_of(payload.as_slice()))
}

/// Where access tokens are requested unless another endpoint is configured.
pub const DEFAULT_AUTH_ENDPOINT: &'static str = "authenticate.pasqal.cloud/oauth/token";

/// Where the service is reached unless another base URL is configured.
pub const DEFAULT_BASE_URL: &'static str = "https://apis.pasqal.cloud";

/// Configuration from which a [`Client`] is made.
#[must_use]
#[derive(Debug, Clone)]
pub struct ClientBuilder {
    pub base_url: String,
    pub token: String,
    pub project_id: String,
    pub auth_endpoint: String,
    pub username: Option<String>,
    pub password: Option<String>,
}

/// The mathematical value of a [`ClientBuilder`] and of a [`Client`].
pub struct Settings {
    pub base_url: Seq<char>,
    pub token: Seq<char>,
    pub project_id: Seq<char>,
    pub auth_endpoint: Seq<char>,
    pub username: Option<Seq<char>>,
    pub password: Option<Seq<char>>,
}

impl View for ClientBuilder {
    type V = Settings;

    open spec fn view(&self) -> Settings {
        Settings {
            base_url: self.base_url@,
            token: self.token@,
            project_id: self.project_id@,
            auth_endpoint: self.auth_endpoint@,
            username: opt_view(self.username),
            password: opt_view(self.password),
        }
    }
}

impl ClientBuilder {
    /// A builder for the given token and project, with the default endpoints
    /// and no credentials.
    pub fn new(token: String, project_id: String) -> (r: Self)
        ensures
            r@ == (Settings {
                base_url: DEFAULT_BASE_URL@,
                token: token@,
                project_id: project_id@,
                auth_endpoint: DEFAULT_AUTH_ENDPOINT@,
                username: None,
                password: None,
            }),
    {
        Self {
            base_url: String::from_str(DEFAULT_BASE_URL),
            token,
            project_id,
            auth_endpoint: String::from_str(DEFAULT_AUTH_ENDPOINT),
            username: None,
            password: None,
        }
    }

    /// A builder for the given project, with an empty token.
    pub fn for_project(project_id: String) -> (r: Self)
        ensures
            r@ == (Settings {
                base_url: DEFAULT_BASE_URL@,
                token: Seq::empty(),
                project_id: project_id@,
                auth_endpoint: DEFAULT_AUTH_ENDPOINT@,
                username: None,
                password: None,
            }),
    {
        Self::new(String::new(), project_id)
    }

    /// Sets the base URL of the service.
    pub fn base_url(&mut self, base_url: String) -> (r: &mut Self)
        ensures
            r@ == (Settings { base_url: base_url@, ..old(self)@ }),
            *final(self) == *final(r),
    {
        self.base_url = base_url;
        self
    }

    /// Sets the endpoint at which access tokens are requested.
    pub fn with_auth_endpoint(&mut self, auth_endpoint: String) -> (r: &mut Self)
        ensures
            r@ == (Settings { auth_endpoint: auth_endpoint@, ..old(self)@ }),
            *final(self) == *final(r),
    {
        self.auth_endpoint = auth_endpoint;
        self
    }

    /// Sets the access token.
    pub fn with_token(&mut self, token: String) -> (r: &mut Self)
        ensures
            r@ == (Settings { token: token@, ..old(self)@ }),
            *final(self) == *final(r),
    {
        self.token = token;
        self
    }

    /// Sets the credentials with which a new access token is requested.
    pub fn with_credentials(&mut self, username: String, password: String) -> (r: &mut Self)
        ensures
            r@ == (Settings {
                username: Some(username@),
                password: Some(password@),
                ..old(self)@
            }),
            *final(self) == *final(r),
    {
        self.username = Some(username);
        self.password = Some(password);
        self
    }

    /// The client that this configuration describes. An empty or opaque
    /// token is taken as it is, with no expiry recorded; a token of three
    /// segments whose payload cannot be read is refused.
    pub fn build(&self) -> (r: Result<Client, TokenError>)
        ensures
            match known_expiry(self.token@) {
                Ok(expiry) => r is Ok && r->Ok_0.settings() == self@ && r->Ok_0.expiry()
                    == expiry,
                Err(e) => r == Err::<Client, TokenError>(e),
            },
    {
        match Client::recorded_expiry(self.token.as_str()) {
            Ok(expiry) => Ok(
                Client {
                    base_url: self.base_url.clone(),
                    project_id: self.project_id.clone(),
                    auth_token: self.token.clone(),
                    auth_token_expiry_unix_seconds: expiry,
                    auth_endpoint: self.auth_endpoint.clone(),
                    username: clone_opt(&self.username),
                    password: clone_opt(&self.password),
                },
            ),
            Err(e) => Err(e),
        }
    }
}

/// A copy of an optional string.
pub fn clone_opt(s: &Option<String>) -> (r: Option<String>)
    ensures
        opt_view(r) == opt_view(*s),
{
    match s {
        Some(t) => Some(t.clone()),
        None => None,
    }
}

/// The credential state and the addresses of one Pasqal Cloud account.
#[derive(Debug, Clone)]
pub struct Client {
    pub base_url: String,
    pub project_id: String,
    pub auth_token: String,
    pub auth_token_expiry_unix_seconds: Option<i64>,
    pub auth_endpoint: String,
    pub username: Option<String>,
    pub password: Option<String>,
}

/// Why a client cannot authenticate.
#[derive(Debug, Clone, Copy, PartialEq, Eq, Structural)]
pub enum AuthError {
    /// The token is missing or expired and no credentials are configured
    /// with which to request another.
    MissingCredentialsForRefresh,
}

impl AuthError {
    /// The message of the error.
    pub fn message(&self) -> (r: String)
        ensures
            r@ == "auth token is missing or expired and username/password are not configured"@,
    {
        String::from_str(
            "auth token is missing or expired and username/password are not configured",
        )
    }
}

impl Client {
    /// The configuration that the client holds.
    pub open spec fn settings(self) -> Settings {
        Settings {
            base_url: self.base_url@,
            token: self.auth_token@,
            project_id: self.project_id@,
            auth_endpoint: self.auth_endpoint@,
            username: opt_view(self.username),
            password: opt_view(self.password),
        }
    }

    /// The expiry recorded for the current token.
    pub open spec fn expiry(self) -> Option<i64> {
        self.auth_token_expiry_unix_seconds
    }

    /// Reads the `exp` claim of a token without checking its signature.
    ///
    /// A token that is not made of three dot-separated segments with a
    /// header and a payload, a payload that is no base64 or no JSON, and an
    /// `exp` string that is no number are errors. Claims without `exp`
    /// state no expiry.
    pub fn jwt_expiry_unix_seconds(token: &str) -> (r: Result<Option<i64>, TokenError>)
        ensures
            r == token_expiry(token@),
    {
        let payload = match payload_segment(token) {
            Some(p) => p,
            None => {
                return Err(TokenError::NotThreeSegments);
            },
        };
        let bytes = match decode_base64url(payload.as_str().as_bytes()) {
            Some(b) => b,
            None => {
                return Err(TokenError::InvalidBase64);
            },
        };
        match Json::parse_slice(bytes.as_slice()) {
            Some(claims) => expiry_from_claims(&claims),
            None => Err(TokenError::InvalidJson),
        }
    }

    /// Whether `token` can be presented at `now_unix_seconds`.
    pub fn is_auth_token_usable(token: &str, now_unix_seconds: i64) -> (r: bool)
        ensures
            r == token_usable(token@, now_unix_seconds as int),
    {
        let chars = chars_of(token);
        let t = trim_chars(chars.as_slice());
        if t.len() == 0 {
            return false;
        }
        match Self::recorded_expiry(token) {
            Ok(Some(exp)) => (exp as i128) > (now_unix_seconds as i128) + (
            AUTH_TOKEN_EXPIRY_GRACE_SECONDS as i128),
            Ok(None) => true,
            Err(_) => false,
        }
    }

    /// The expiry to record for a token at hand: its own where it states
    /// one, none for a token that states none or is opaque.
    pub fn recorded_expiry(token: &str) -> (r: Result<Option<i64>, TokenError>)
        ensures
            r == known_expiry(token@),
    {
        match Self::jwt_expiry_unix_seconds(token) {
            Err(TokenError::NotThreeSegments) => Ok(None),
            other => other,
        }
    }
}

/// A token whose payload decodes to claims with a numeric `exp`, given as a
/// number or as a string that writes one, has exactly that expiry.
pub proof fn lemma_expiry_is_the_exp_claim(
    token: Seq<char>,
    payload: Seq<char>,
    bytes: Seq<u8>,
    claims: JsonValue,
    exp: i64,
)
    requires
        token_payload(token) == Some(payload),
        base64url_decoded(encode_utf8(payload)) == Some(bytes),
        json_parse(bytes) == Some(claims),
        claims.member("exp"@) == Some(JsonValue::Int(exp)) || (exists|s: Seq<char>|
            claims.member("exp"@) == Some(JsonValue::Str(s)) && parse_i64(s) == Some(exp)),
    ensures
        token_expiry(token) == Ok::<Option<i64>, TokenError>(Some(exp)),
{
}

/// A token whose claims hold no `exp` states no expiry and is usable at
/// every time.
pub proof fn lemma_no_exp_claim_is_always_usable(
    token: Seq<char>,
    payload: Seq<char>,
    bytes: Seq<u8>,
    claims: JsonValue,
    now: int,
)
    requires
        token_payload(token) == Some(payload),
        base64url_decoded(encode_utf8(payload)) == Some(bytes),
        json_parse(bytes) == Some(claims),
        claims.member("exp"@) is None,
    ensures
        token_expiry(token) == Ok::<Option<i64>, TokenError>(None),
        token_usable(token, now),
{
    lemma_payload_means_not_blank(token);
}

/// A token that is not made of three segments is malformed; it is
/// recorded without an expiry, and it is usable at every time unless it is
/// blank.
pub proof fn lemma_opaque_token(token: Seq<char>, now: int)
    requires
        token_payload(token) is None,
    ensures
        token_expiry(token) == Err::<Option<i64>, TokenError>(TokenError::NotThreeSegments),
        known_expiry(token) == Ok::<Option<i64>, TokenError>(None),
        token_usable(token, now) <==> trim(token).len() > 0,
{
}

/// A token that states an expiry is usable exactly while the expiry lies
/// more than the grace period ahead.
pub proof fn lemma_usable_until_grace(token: Seq<char>, exp: i64, now: int)
    requires
        token_expiry(token) == Ok::<Option<i64>, TokenError>(Some(exp)),
    ensures
        token_usable(token, now) <==> exp > now + AUTH_TOKEN_EXPIRY_GRACE_SECONDS,
{
    lemma_payload_means_not_blank(token);
}

/// A token of three segments whose payload cannot be read is never usable.
pub proof fn lemma_malformed_is_unusable(token: Seq<char>, now: int)
    requires
        token_payload(token) is Some,
        token_expiry(token) is Err,
    ensures
        !token_usable(token, now),
{
}

/// A token with a payload segment is not blank.
pub proof fn lemma_payload_means_not_blank(token: Seq<char>)
    requires
        token_payload(token) is Some,
    ensures
        trim(token).len() > 0,
{
}

/// The kinds of Pasqal device.
#[derive(Debug, Clone, Copy, PartialEq, Eq, Structural)]
pub enum DeviceType {
    Fresnel,
    FresnelCan1,
    EmuMps,
    EmuFree,
}

impl DeviceType {
    /// The name by which the service knows the device.
    pub open spec fn name(self) -> Seq<char> {
        match self {
            DeviceType::Fresnel => "FRESNEL"@,
            DeviceType::FresnelCan1 => "FRESNEL_CAN1"@,
            DeviceType::EmuMps => "EMU_MPS"@,
            DeviceType::EmuFree => "EMU_FREE"@,
        }
    }

    /// The identifier of the variant.
    pub open spec fn variant_name(self) -> Seq<char> {
        match self {
            DeviceType::Fresnel => "Fresnel"@,
            DeviceType::FresnelCan1 => "FresnelCan1"@,
            DeviceType::EmuMps => "EmuMps"@,
            DeviceType::EmuFree => "EmuFree"@,
        }
    }

    /// The device whose name is the upper-case form of `s`.
    pub open spec fn named(s: Seq<char>) -> Option<DeviceType> {
        let u = unicode_uppercase(s);
        if u == "FRESNEL"@ {
            Some(DeviceType::Fresnel)
        } else if u == "FRESNEL_CAN1"@ {
            Some(DeviceType::FresnelCan1)
        } else if u == "EMU_MPS"@ {
            Some(DeviceType::EmuMps)
        } else if u == "EMU_FREE"@ {
            Some(DeviceType::EmuFree)
        } else {
            None
        }
    }

    /// The name by which the service knows the device.
    pub fn as_str(&self) -> (r: &'static str)
        ensures
            r@ == self.name(),
    {
        match self {
            DeviceType::Fresnel => "FRESNEL",
            DeviceType::FresnelCan1 => "FRESNEL_CAN1",
            DeviceType::EmuMps => "EMU_MPS",
            DeviceType::EmuFree => "EMU_FREE",
        }
    }

    /// The identifier of the variant.
    pub fn variant(&self) -> (r: &'static str)
        ensures
            r@ == self.variant_name(),
    {
        match self {
            DeviceType::Fresnel => "Fresnel",
            DeviceType::FresnelCan1 => "FresnelCan1",
            DeviceType::EmuMps => "EmuMps",
            DeviceType::EmuFree => "EmuFree",
        }
    }

    /// Reads a device name, in any letter case.
    pub fn parse(s: &str) -> (r: Option<DeviceType>)
        ensures
            r == Self::named(s@),
    {
        let upper = uppercase_of(s);
        let u = upper.as_str();
        if str_eq(u, "FRESNEL") {
            Some(DeviceType::Fresnel)
        } else if str_eq(u, "FRESNEL_CAN1") {
            Some(DeviceType::FresnelCan1)
        } else if str_eq(u, "EMU_MPS") {
            Some(DeviceType::EmuMps)
        } else if str_eq(u, "EMU_FREE") {
            Some(DeviceType::EmuFree)
        } else {
            None
        }
    }
}

/// The states in which the service reports a batch or a job.
#[derive(Debug, Clone, Copy, PartialEq, Eq, Structural)]
pub enum JobStatus {
    Pending,
    Running,
    Canceling,
    Done,
    Canceled,
    TimedOut,
    Error,
    Paused,
}

impl JobStatus {
    /// The word that the service writes for the state.
    pub open spec fn word(self) -> Seq<char> {
        match self {
            JobStatus::Pending => "PENDING"@,
            JobStatus::Running => "RUNNING"@,
            JobStatus::Canceling => "CANCELING"@,
            JobStatus::Done => "DONE"@,
            JobStatus::Canceled => "CANCELED"@,
            JobStatus::TimedOut => "TIMED_OUT"@,
            JobStatus::Error => "ERROR"@,
            JobStatus::Paused => "PAUSED"@,
        }
    }

    /// The state that `s` writes, letter for letter.
    pub open spec fn of_word(s: Seq<char>) -> Option<JobStatus> {
        if s == "PENDING"@ {
            Some(JobStatus::Pending)
        } else if s == "RUNNING"@ {
            Some(JobStatus::Running)
        } else if s == "CANCELING"@ {
            Some(JobStatus::Canceling)
        } else if s == "DONE"@ {
            Some(JobStatus::Done)
        } else if s == "CANCELED"@ {
            Some(JobStatus::Canceled)
        } else if s == "TIMED_OUT"@ {
            Some(JobStatus::TimedOut)
        } else if s == "ERROR"@ {
            Some(JobStatus::Error)
        } else if s == "PAUSED"@ {
            Some(JobStatus::Paused)
        } else {
            None
        }
    }

    /// The word that the service writes for the state.
    pub fn as_str(&self) -> (r: &'static str)
        ensures
            r@ == self.word(),
    {
        match self {
            JobStatus::Pending => "PENDING",
            JobStatus::Running => "RUNNING",
            JobStatus::Canceling => "CANCELING",
            JobStatus::Done => "DONE",
            JobStatus::Canceled => "CANCELED",
            JobStatus::TimedOut => "TIMED_OUT",
            JobStatus::Error => "ERROR",
            JobStatus::Paused => "PAUSED",
        }
    }

    /// Reads the word that the service writes for a state.
    pub fn parse(s: &str) -> (r: Option<JobStatus>)
        ensures
            r == Self::of_word(s@),
    {
        if str_eq(s, "PENDING") {
            Some(JobStatus::Pending)
        } else if str_eq(s, "RUNNING") {
            Some(JobStatus::Running)
        } else if str_eq(s, "CANCELING") {
            Some(JobStatus::Canceling)
        } else if str_eq(s, "DONE") {
            Some(JobStatus::Done)
        } else if str_eq(s, "CANCELED") {
            Some(JobStatus::Canceled)
        } else if str_eq(s, "TIMED_OUT") {
            Some(JobStatus::TimedOut)
        } else if str_eq(s, "ERROR") {
            Some(JobStatus::Error)
        } else if str_eq(s, "PAUSED") {
            Some(JobStatus::Paused)
        } else {
            None
        }
    }
}

/// The envelope in which the service wraps what it returns.
#[derive(Debug, Clone)]
pub struct Response<T> {
    pub data: T,
}

/// How the service describes a device.
#[derive(Debug, Clone)]
pub struct GetDeviceResponseData {
    pub status: String,
    pub availability: String,
}

/// The specifications of a device, as the service's text.
#[derive(Debug, Clone)]
pub struct GetDeviceSpecsResponseData {
    pub specs: String,
}

/// What the service returns for a new batch.
#[derive(Debug, Clone)]
pub struct CreateBatchResponseData {
    pub id: String,
}

/// What the service returns for a batch.
#[derive(Debug, Clone)]
pub struct GetBatchResponseData {
    pub status: JobStatus,
    pub job_ids: Vec<String>,
}

/// What the service returns for a job.
#[derive(Debug, Clone)]
pub struct GetJobResponseData {
    pub status: JobStatus,
}

/// What the service returns for a cancelled batch.
#[derive(Debug, Clone)]
pub struct CancelBatchResponseData {}

/// One job of a batch: how often the sequence runs.
#[derive(Debug, Clone)]
pub struct Job {
    pub runs: i32,
}

/// A batch to create.
#[derive(Debug, Clone)]
pub struct Batch {
    pub sequence_builder: String,
    pub jobs: Vec<Job>,
    pub device_type: String,
    pub project_id: String,
}

/// What a client has to do before it sends a request.
#[derive(Debug, Clone, Copy, PartialEq, Eq, Structural)]
pub enum AuthDecision {
    /// The token at hand is usable.
    Ready,
    /// The token is unusable and credentials are at hand: request another.
    Refresh,
    /// The token is unusable and no credentials are at hand.
    MissingCredentials,
}

/// The address at which tokens are requested: the trimmed endpoint, with
/// `https://` in front where it names no scheme, or the default endpoint
/// where it is blank.
pub open spec fn auth_url(endpoint: Seq<char>) -> Seq<char> {
    if trim(endpoint).len() == 0 {
        "https://"@ + DEFAULT_AUTH_ENDPOINT@
    } else if contains(endpoint, "://"@) {
        trim(endpoint)
    } else {
        "https://"@ + trim(endpoint)
    }
}

/// The request that exchanges a user name and a password for a token.
pub open spec fn token_request(
    endpoint: Seq<char>,
    username: Seq<char>,
    password: Seq<char>,
) -> RequestView {
    RequestView {
        method: Method::Post,
        url: auth_url(endpoint),
        headers: seq![("Content-Type"@, "application/x-www-form-urlencoded"@)],
        body: BodyView::Form(
            seq![
                ("grant_type"@, "http://auth0.com/oauth/grant-type/password-realm"@),
                ("realm"@, "pcs-users"@),
                ("client_id"@, "PeZvo7Atx7IVv3iel59asJSb4Ig7vuSB"@),
                ("audience"@, "https://apis.pasqal.cloud/account/api/v1"@),
                ("username"@, username),
                ("password"@, password),
            ],
        ),
    }
}

/// The token that the body of a successful token reply holds: the string
/// member `access_token` of a JSON object.
pub open spec fn granted_token(body: Seq<char>) -> Option<Seq<char>> {
    match json_parse_text(body) {
        Some(doc) => doc.text_member("access_token"@),
        None => None,
    }
}

/// Reads the token that a token document holds under `access_token`.
pub fn read_granted_token(doc: &Json) -> (r: Option<String>)
    ensures
        opt_view(r) == doc@.text_member("access_token"@),
{
    match doc.get_str("access_token") {
        Some(t) => Some(t.clone()),
        None => None,
    }
}

/// The message with which a refused token request is reported.
pub open spec fn token_refusal(status: u16, body: Seq<char>) -> Seq<char> {
    "Token request failed: "@ + status_text(status) + " "@ + body
}

/// The headers that every request to the service carries.
pub open spec fn service_headers(token: Seq<char>) -> Seq<(Seq<char>, Seq<char>)> {
    seq![("Content-Type"@, "application/json"@), bearer(token)]
}

/// The address at which tokens are requested for `auth_endpoint`.
pub fn auth_endpoint_url(auth_endpoint: &str) -> (r: String)
    ensures
        r@ == auth_url(auth_endpoint@),
{
    let chars = chars_of(auth_endpoint);
    let t = trim_chars(chars.as_slice());
    let trimmed = string_of(t.as_slice());
    let scheme = chars_of("://");
    if t.len() == 0 {
        join2("https://", DEFAULT_AUTH_ENDPOINT)
    } else if contains_chars(chars.as_slice(), scheme.as_slice()) {
        trimmed
    } else {
        join2("https://", trimmed.as_str())
    }
}

impl Client {
    /// What the client has to do before it sends a request at `now`.
    pub open spec fn decision(self, now: int) -> AuthDecision {
        if token_usable(self.auth_token@, now) {
            AuthDecision::Ready
        } else if self.username is Some && self.password is Some {
            AuthDecision::Refresh
        } else {
            AuthDecision::MissingCredentials
        }
    }

    /// Decides whether the token at hand can be used at `now_unix_seconds`.
    ///
    /// `Ok(None)`: it can. `Ok(Some(request))`: it cannot, and `request`
    /// asks for another with the configured credentials. An error: it
    /// cannot, and the credentials are not configured.
    pub fn ensure_authenticated(&self, now_unix_seconds: i64) -> (r: Result<
        Option<Request>,
        AuthError,
    >)
        ensures
            match self.decision(now_unix_seconds as int) {
                AuthDecision::Ready => r matches Ok(None),
                AuthDecision::Refresh => r matches Ok(Some(request)) && request@ == token_request(
                    self.auth_endpoint@,
                    self.username->0@,
                    self.password->0@,
                ),
                AuthDecision::MissingCredentials => r matches Err(
                    AuthError::MissingCredentialsForRefresh,
                ),
            },
    {
        if Self::is_auth_token_usable(self.auth_token.as_str(), now_unix_seconds) {
            return Ok(None);
        }
        match (&self.username, &self.password) {
            (Some(username), Some(password)) => Ok(
                Some(
                    Self::request_access_token(
                        self.auth_endpoint.as_str(),
                        username.as_str(),
                        password.as_str(),
                    ),
                ),
            ),
            _ => Err(AuthError::MissingCredentialsForRefresh),
        }
    }

    /// The request that exchanges `username` and `password` for an access
    /// token at `auth_endpoint`.
    pub fn request_access_token(auth_endpoint: &str, username: &str, password: &str) -> (r:
        Request)
        ensures
            r@ == token_request(auth_endpoint@, username@, password@),
    {
        let mut headers: Vec<(String, String)> = Vec::new();
        headers.push(pair("Content-Type", "application/x-www-form-urlencoded"));
        let mut form: Vec<(String, String)> = Vec::new();
        form.push(pair("grant_type", "http://auth0.com/oauth/grant-type/password-realm"));
        form.push(pair("realm", "pcs-users"));
        form.push(pair("client_id", "PeZvo7Atx7IVv3iel59asJSb4Ig7vuSB"));
        form.push(pair("audience", "https://apis.pasqal.cloud/account/api/v1"));
        form.push(pair("username", username));
        form.push(pair("password", password));
        let r = Request {
            method: Method::Post,
            url: auth_endpoint_url(auth_endpoint),
            headers,
            body: Body::Form(form),
        };
        proof {
            let want = token_request(auth_endpoint@, username@, password@);
            assert(pairs_view(r.headers@) =~= want.headers);
            assert(pairs_view(form@) =~= want.body->Form_0);
        }
        r
    }

    /// Reads the reply to a token request: the granted token, or why none
    /// was granted.
    pub fn read_access_token(reply: &Reply) -> (r: Result<String, Failure>)
        ensures
            match r {
                Ok(token) => is_success(reply.status) && granted_token(reply.body@) == Some(
                    token@,
                ),
                Err(e) => if is_success(reply.status) {
                    granted_token(reply.body@) is None && e.is(
                        ErrorKind::UnexpectedResponse,
                        "token reply holds no access_token"@,
                    )
                } else {
                    e.is(
                        ErrorKind::AuthenticationFailed,
                        token_refusal(reply.status, reply.body@),
                    )
                },
            },
    {
        if reply.succeeded() {
            let token = match Json::parse(reply.body.as_str()) {
                Some(doc) => read_granted_token(&doc),
                None => None,
            };
            match token {
                Some(t) => Ok(t),
                None => Err(
                    Failure::of(ErrorKind::UnexpectedResponse, "token reply holds no access_token"),
                ),
            }
        } else {
            let line = reply.status_line();
            Err(
                Failure::new(
                    ErrorKind::AuthenticationFailed,
                    join4("Token request failed: ", line.as_str(), " ", reply.body.as_str()),
                ),
            )
        }
    }

    /// Takes a newly granted token into use. The token is stored whatever it
    /// holds. An opaque token is accepted with no expiry recorded; for a
    /// token of three segments whose payload cannot be read the recorded
    /// expiry stays as it was and the error is returned.
    pub fn accept_token(&mut self, token: String) -> (r: Result<(), TokenError>)
        ensures
            final(self).settings() == (Settings { token: token@, ..old(self).settings() }),
            match known_expiry(token@) {
                Ok(expiry) => r is Ok && final(self).expiry() == expiry,
                Err(e) => r == Err::<(), TokenError>(e) && final(self).expiry()
                    == old(self).expiry(),
            },
    {
        self.auth_token = token;
        match Self::recorded_expiry(self.auth_token.as_str()) {
            Ok(expiry) => {
                self.auth_token_expiry_unix_seconds = expiry;
                Ok(())
            },
            Err(e) => Err(e),
        }
    }

    /// A request to the service at `url`, carrying the current token.
    pub fn request(&self, method: Method, url: String, body: Body) -> (r: Request)
        ensures
            r@ == (RequestView {
                method,
                url: url@,
                headers: service_headers(self.auth_token@),
                body: body@,
            }),
    {
        let mut headers: Vec<(String, String)> = Vec::new();
        headers.push(pair("Content-Type", "application/json"));
        headers.push(bearer_header(self.auth_token.as_str()));
        assert(pairs_view(headers@) =~= service_headers(self.auth_token@));
        Request { method, url, headers, body }
    }
}

/// The message for a reply whose document has another shape than expected.
pub open spec fn shape_error() -> (ErrorKind, Seq<char>) {
    (ErrorKind::UnexpectedResponse, "response has an unexpected shape"@)
}

/// How a device description reads: its `status` and `availability` texts.
pub open spec fn device_fields(v: JsonValue) -> Option<(Seq<char>, Seq<char>)> {
    match (v.text_member("status"@), v.text_member("availability"@)) {
        (Some(status), Some(availability)) => Some((status, availability)),
        _ => None,
    }
}

/// The first device that a reply lists under `data`. Every listed device must
/// read as one; a reply that lists none is reported with the device type.
pub open spec fn device_of(doc: JsonValue, device_type: DeviceType) -> Result<
    (Seq<char>, Seq<char>),
    (ErrorKind, Seq<char>),
> {
    match doc.member("data"@) {
        Some(JsonValue::Array(items)) => if !(forall|i: int|
            0 <= i < items.len() ==> device_fields(#[trigger] items[i]) is Some) {
            Err(shape_error())
        } else if items.len() == 0 {
            Err(
                (
                    ErrorKind::ResourceUnavailable,
                    "No devices found for type "@ + device_type.variant_name(),
                ),
            )
        } else {
            Ok(device_fields(items[0])->0)
        },
        _ => Err(shape_error()),
    }
}

/// The text of the string member `key` of the `data` object of a reply.
pub open spec fn data_text(doc: JsonValue, key: Seq<char>) -> Result<
    Seq<char>,
    (ErrorKind, Seq<char>),
> {
    match doc.member("data"@) {
        Some(data) => match data.text_member(key) {
            Some(text) => Ok(text),
            None => Err(shape_error()),
        },
        None => Err(shape_error()),
    }
}

/// The state that the `data` object of a reply reports under `status`.
pub open spec fn data_status(doc: JsonValue) -> Result<JobStatus, (ErrorKind, Seq<char>)> {
    match data_text(doc, "status"@) {
        Ok(word) => match JobStatus::of_word(word) {
            Some(status) => Ok(status),
            None => Err(shape_error()),
        },
        Err(e) => Err(e),
    }
}

/// The job identifiers that the `data` object of a reply lists.
pub open spec fn data_job_ids(doc: JsonValue) -> Result<Seq<Seq<char>>, (ErrorKind, Seq<char>)> {
    match doc.member("data"@) {
        Some(data) => match data.member("job_ids"@) {
            Some(list) => match list.texts() {
                Some(ids) => Ok(ids),
                None => Err(shape_error()),
            },
            None => Err(shape_error()),
        },
        None => Err(shape_error()),
    }
}

/// The document of a batch to create.
pub open spec fn batch_document(
    sequence: Seq<char>,
    job_runs: i32,
    device_type: DeviceType,
    project_id: Seq<char>,
) -> JsonValue {
    JsonValue::Object(
        seq![
            ("sequence_builder"@, JsonValue::Str(sequence)),
            (
                "jobs"@,
                JsonValue::Array(
                    seq![JsonValue::Object(seq![("runs"@, JsonValue::Int(job_runs as i64))])],
                ),
            ),
            ("device_type"@, JsonValue::Str(device_type.name())),
            ("project_id"@, JsonValue::Str(project_id)),
        ],
    )
}

fn shape_failure() -> (r: Failure)
    ensures
        (r.kind, r.message@) == shape_error(),
{
    Failure::of(ErrorKind::UnexpectedResponse, "response has an unexpected shape")
}

/// Reads the JSON document of a reply, or the failure that it reports.
pub fn handle_request(reply: &Reply) -> (r: Result<Json, Failure>)
    ensures
        match r {
            Ok(doc) => reply_document(reply.status, reply.body@) == Ok::<
                JsonValue,
                (ErrorKind, Seq<char>),
            >(doc@),
            Err(e) => reply_document(reply.status, reply.body@) == Err::<
                JsonValue,
                (ErrorKind, Seq<char>),
            >((e.kind, e.message@)),
        },
{
    reply.document()
}

/// Reads a device description.
pub fn read_device_fields(v: &Json) -> (r: Option<GetDeviceResponseData>)
    ensures
        match r {
            Some(d) => device_fields(v@) == Some((d.status@, d.availability@)),
            None => device_fields(v@) is None,
        },
{
    match (v.get_str("status"), v.get_str("availability")) {
        (Some(status), Some(availability)) => Some(
            GetDeviceResponseData { status: status.clone(), availability: availability.clone() },
        ),
        _ => None,
    }
}

/// Reads the first device that a reply document lists.
pub fn read_device(doc: &Json, device_type: DeviceType) -> (r: Result<
    GetDeviceResponseData,
    Failure,
>)
    ensures
        match r {
            Ok(d) => device_of(doc@, device_type) == Ok::<
                (Seq<char>, Seq<char>),
                (ErrorKind, Seq<char>),
            >((d.status@, d.availability@)),
            Err(e) => device_of(doc@, device_type) == Err::<
                (Seq<char>, Seq<char>),
                (ErrorKind, Seq<char>),
            >((e.kind, e.message@)),
        },
{
    let items = match doc.get("data") {
        Some(data) => match data.as_array() {
            Some(items) => items,
            None => {
                return Err(shape_failure());
            },
        },
        None => {
            return Err(shape_failure());
        },
    };
    let ghost values = items_view(items@);
    let mut first: Option<GetDeviceResponseData> = None;
    let mut i: usize = 0;
    while i < items.len()
        invariant
            i <= items@.len(),
            values == items_view(items@),
            doc@.member("data"@) == Some(JsonValue::Array(values)),
            forall|k: int| 0 <= k < i ==> device_fields(#[trigger] values[k]) is Some,
            i == 0 ==> first is None,
            i > 0 ==> first is Some && device_fields(values[0]) == Some(
                (first->0.status@, first->0.availability@),
            ),
        decreases items@.len() - i,
    {
        match read_device_fields(&items[i]) {
            Some(d) => {
                if i == 0 {
                    first = Some(d);
                }
            },
            None => {
                assert(device_fields(values[i as int]) is None);
                return Err(shape_failure());
            },
        }
        i += 1;
    }
    match first {
        Some(d) => Ok(d),
        None => Err(
            Failure::new(
                ErrorKind::ResourceUnavailable,
                join2("No devices found for type ", device_type.variant()),
            ),
        ),
    }
}

/// Reads the string member `key` of the `data` object of a reply document.
pub fn read_data_text(doc: &Json, key: &str) -> (r: Result<String, Failure>)
    ensures
        match r {
            Ok(text) => data_text(doc@, key@) == Ok::<Seq<char>, (ErrorKind, Seq<char>)>(text@),
            Err(e) => data_text(doc@, key@) == Err::<Seq<char>, (ErrorKind, Seq<char>)>(
                (e.kind, e.message@),
            ),
        },
{
    match doc.get("data") {
        Some(data) => match data.get_str(key) {
            Some(text) => Ok(text.clone()),
            None => Err(shape_failure()),
        },
        None => Err(shape_failure()),
    }
}

/// Reads the state that the `data` object of a reply document reports.
pub fn read_data_status(doc: &Json) -> (r: Result<JobStatus, Failure>)
    ensures
        match r {
            Ok(status) => data_status(doc@) == Ok::<JobStatus, (ErrorKind, Seq<char>)>(status),
            Err(e) => data_status(doc@) == Err::<JobStatus, (ErrorKind, Seq<char>)>(
                (e.kind, e.message@),
            ),
        },
{
    match read_data_text(doc, "status") {
        Ok(word) => match JobStatus::parse(word.as_str()) {
            Some(status) => Ok(status),
            None => Err(shape_failure()),
        },
        Err(e) => Err(e),
    }
}

/// Reads the job identifiers that the `data` object of a reply document
/// lists.
pub fn read_data_job_ids(doc: &Json) -> (r: Result<Vec<String>, Failure>)
    ensures
        match r {
            Ok(ids) => data_job_ids(doc@) == Ok::<Seq<Seq<char>>, (ErrorKind, Seq<char>)>(
                strings_view(ids@),
            ),
            Err(e) => data_job_ids(doc@) == Err::<Seq<Seq<char>>, (ErrorKind, Seq<char>)>(
                (e.kind, e.message@),
            ),
        },
{
    let found = match doc.get("data") {
        Some(data) => match data.get("job_ids") {
            Some(list) => list.as_texts(),
            None => None,
        },
        None => None,
    };
    match found {
        Some(ids) => Ok(ids),
        None => Err(shape_failure()),
    }
}

/// Whether a document reads as the result of one job: an object whose
/// `counter` is an object of unsigned 64-bit counts.
pub open spec fn is_job_result(v: JsonValue) -> bool {
    v.member("counter"@) matches Some(JsonValue::Object(entries)) && forall|i: int|
        0 <= i < entries.len() ==> (#[trigger] entries[i]).1.unsigned() is Some
}

/// The result of the one job of a batch, as JSON text. Every entry under
/// `data` must read as a job result, and there must be exactly one.
pub open spec fn batch_results(doc: JsonValue) -> Result<Seq<char>, (ErrorKind, Seq<char>)> {
    match doc.member("data"@) {
        Some(JsonValue::Object(jobs)) => if !(forall|i: int|
            0 <= i < jobs.len() ==> is_job_result((#[trigger] jobs[i]).1)) {
            Err(shape_error())
        } else if jobs.len() == 0 {
            Err((ErrorKind::NotReady, "No results found"@))
        } else if jobs.len() == 1 {
            Ok(
                json_text(
                    JsonValue::Object(seq![("counter"@, jobs[0].1.member("counter"@)->0)]),
                ),
            )
        } else {
            Err(
                (
                    ErrorKind::UnexpectedResponse,
                    "Unexpected multiple jobs in one Pasqal cloud batch"@,
                ),
            )
        },
        _ => Err(shape_error()),
    }
}

/// The counts of a job result, where the document reads as one.
pub fn job_counter(v: &Json) -> (r: Option<&Json>)
    ensures
        match r {
            Some(counter) => is_job_result(v@) && v@.member("counter"@) == Some(counter@),
            None => !is_job_result(v@),
        },
{
    let counter = match v.get("counter") {
        Some(c) => c,
        None => {
            return None;
        },
    };
    let entries = match counter.as_object() {
        Some(e) => e,
        None => {
            return None;
        },
    };
    let ghost values = members_view(entries@);
    let mut i: usize = 0;
    while i < entries.len()
        invariant
            i <= entries@.len(),
            values == members_view(entries@),
            v@.member("counter"@) == Some(JsonValue::Object(values)),
            forall|k: int| 0 <= k < i ==> (#[trigger] values[k]).1.unsigned() is Some,
        decreases entries@.len() - i,
    {
        if entries[i].1.as_u64().is_none() {
            assert(values[i as int].1.unsigned() is None);
            return None;
        }
        i += 1;
    }
    Some(counter)
}

/// Reads the result of the one job of a batch from a reply document.
pub fn read_batch_results(doc: &Json) -> (r: Result<String, Failure>)
    ensures
        match r {
            Ok(text) => batch_results(doc@) == Ok::<Seq<char>, (ErrorKind, Seq<char>)>(text@),
            Err(e) => batch_results(doc@) == Err::<Seq<char>, (ErrorKind, Seq<char>)>(
                (e.kind, e.message@),
            ),
        },
{
    let jobs = match doc.get("data") {
        Some(data) => match data.as_object() {
            Some(jobs) => jobs,
            None => {
                return Err(shape_failure());
            },
        },
        None => {
            return Err(shape_failure());
        },
    };
    let ghost values = members_view(jobs@);
    let mut i: usize = 0;
    while i < jobs.len()
        invariant
            i <= jobs@.len(),
            values == members_view(jobs@),
            doc@.member("data"@) == Some(JsonValue::Object(values)),
            forall|k: int| 0 <= k < i ==> is_job_result((#[trigger] values[k]).1),
        decreases jobs@.len() - i,
    {
        if job_counter(&jobs[i].1).is_none() {
            assert(!is_job_result(values[i as int].1));
            return Err(shape_failure());
        }
        i += 1;
    }
    if jobs.len() == 0 {
        Err(Failure::of(ErrorKind::NotReady, "No results found"))
    } else if jobs.len() == 1 {
        match job_counter(&jobs[0].1) {
            Some(counter) => {
                let mut fields: Vec<(String, Json)> = Vec::new();
                fields.push((String::from_str("counter"), counter.copy()));
                assert(members_view(fields@) =~= seq![("counter"@, counter@)]);
                Ok(Json::object(fields).to_text())
            },
            None => Err(shape_failure()),
        }
    } else {
        Err(
            Failure::of(
                ErrorKind::UnexpectedResponse,
                "Unexpected multiple jobs in one Pasqal cloud batch",
            ),
        )
    }
}

impl Batch {
    /// The JSON document of the batch.
    pub open spec fn document(self) -> JsonValue {
        JsonValue::Object(
            seq![
                ("sequence_builder"@, JsonValue::Str(self.sequence_builder@)),
                (
                    "jobs"@,
                    JsonValue::Array(
                        Seq::new(
                            self.jobs@.len(),
                            |i: int|
                                JsonValue::Object(
                                    seq![("runs"@, JsonValue::Int(self.jobs@[i].runs as i64))],
                                ),
                        ),
                    ),
                ),
                ("device_type"@, JsonValue::Str(self.device_type@)),
                ("project_id"@, JsonValue::Str(self.project_id@)),
            ],
        )
    }

    /// The JSON document of the batch.
    pub fn to_json(&self) -> (r: Json)
        ensures
            r@ == self.document(),
    {
        let mut jobs: Vec<Json> = Vec::new();
        let mut i: usize = 0;
        while i < self.jobs.len()
            invariant
                i <= self.jobs@.len(),
                jobs@.len() == i,
                forall|k: int|
                    0 <= k < i ==> (#[trigger] jobs@[k])@ == JsonValue::Object(
                        seq![("runs"@, JsonValue::Int(self.jobs@[k].runs as i64))],
                    ),
            decreases self.jobs@.len() - i,
        {
            let mut fields: Vec<(String, Json)> = Vec::new();
            fields.push((String::from_str("runs"), Json::Int(self.jobs[i].runs as i64)));
            assert(members_view(fields@) =~= seq![
                ("runs"@, JsonValue::Int(self.jobs@[i as int].runs as i64)),
            ]);
            jobs.push(Json::object(fields));
            i += 1;
        }
        let list = Json::Array(jobs);
        proof {
            crate::json::lemma_view_unfold(list);
            assert(items_view(jobs@) =~= self.document()->Object_0[1].1->Array_0);
        }
        let mut fields: Vec<(String, Json)> = Vec::new();
        fields.push(
            (String::from_str("sequence_builder"), Json::string(self.sequence_builder.as_str())),
        );
        fields.push((String::from_str("jobs"), list));
        fields.push((String::from_str("device_type"), Json::string(self.device_type.as_str())));
        fields.push((String::from_str("project_id"), Json::string(self.project_id.as_str())));
        assert(members_view(fields@) =~= self.document()->Object_0);
        Json::object(fields)
    }
}

impl Client {
    /// The request for the description of a device.
    pub fn get_device(&self, device_type: DeviceType) -> (r: Request)
        ensures
            r@ == (RequestView {
                method: Method::Get,
                url: self.base_url@ + "/core-fast/api/v1/devices?device_type="@
                    + device_type.name(),
                headers: service_headers(self.auth_token@),
                body: BodyView::Empty,
            }),
    {
        let url = join3(
            self.base_url.as_str(),
            "/core-fast/api/v1/devices?device_type=",
            device_type.as_str(),
        );
        self.request(Method::Get, url, Body::Empty)
    }

    /// The description of a device that a reply holds.
    pub fn get_device_result(reply: &Reply, device_type: DeviceType) -> (r: Result<
        GetDeviceResponseData,
        Failure,
    >)
        ensures
            match reply_document(reply.status, reply.body@) {
                Ok(doc) => match r {
                    Ok(d) => device_of(doc, device_type) == Ok::<
                        (Seq<char>, Seq<char>),
                        (ErrorKind, Seq<char>),
                    >((d.status@, d.availability@)),
                    Err(e) => device_of(doc, device_type) == Err::<
                        (Seq<char>, Seq<char>),
                        (ErrorKind, Seq<char>),
                    >((e.kind, e.message@)),
                },
                Err(failure) => r matches Err(e) && (e.kind, e.message@) == failure,
            },
    {
        match handle_request(reply) {
            Ok(doc) => read_device(&doc, device_type),
            Err(e) => Err(e),
        }
    }

    /// The request that creates a batch of one job running `sequence`
    /// `job_runs` times on a device.
    pub fn create_batch(&self, sequence: String, job_runs: i32, device_type: DeviceType) -> (r:
        Request)
        ensures
            r@ == (RequestView {
                method: Method::Post,
                url: self.base_url@ + "/core-fast/api/v1/batches"@,
                headers: service_headers(self.auth_token@),
                body: BodyView::Json(
                    json_text(
                        batch_document(sequence@, job_runs, device_type, self.project_id@),
                    ),
                ),
            }),
    {
        let url = join2(self.base_url.as_str(), "/core-fast/api/v1/batches");
        let mut jobs: Vec<Job> = Vec::new();
        jobs.push(Job { runs: job_runs });
        let batch = Batch {
            sequence_builder: sequence,
            jobs,
            device_type: String::from_str(device_type.as_str()),
            project_id: self.project_id.clone(),
        };
        let doc = batch.to_json();
        proof {
            let want = batch_document(sequence@, job_runs, device_type, self.project_id@);
            assert(batch.document()->Object_0[1].1->Array_0 =~= want->Object_0[1].1->Array_0);
            assert(batch.document()->Object_0 =~= want->Object_0);
        }
        self.request(Method::Post, url, Body::Json(doc.to_text()))
    }

    /// The identifier of the created batch that a reply holds.
    pub fn create_batch_result(reply: &Reply) -> (r: Result<
        Response<CreateBatchResponseData>,
        Failure,
    >)
        ensures
            match reply_document(reply.status, reply.body@) {
                Ok(doc) => match r {
                    Ok(created) => data_text(doc, "id"@) == Ok::<
                        Seq<char>,
                        (ErrorKind, Seq<char>),
                    >(created.data.id@),
                    Err(e) => data_text(doc, "id"@) == Err::<Seq<char>, (ErrorKind, Seq<char>)>(
                        (e.kind, e.message@),
                    ),
                },
                Err(failure) => r matches Err(e) && (e.kind, e.message@) == failure,
            },
    {
        match handle_request(reply) {
            Ok(doc) => match read_data_text(&doc, "id") {
                Ok(id) => Ok(Response { data: CreateBatchResponseData { id } }),
                Err(e) => Err(e),
            },
            Err(e) => Err(e),
        }
    }

    /// The request that cancels a batch.
    pub fn cancel_batch(&self, batch_id: &str) -> (r: Request)
        ensures
            r@ == (RequestView {
                method: Method::Patch,
                url: self.base_url@ + "/core-fast/api/v2/batches/"@ + batch_id@ + "/cancel"@,
                headers: service_headers(self.auth_token@),
                body: BodyView::Empty,
            }),
    {
        let url = join4(
            self.base_url.as_str(),
            "/core-fast/api/v2/batches/",
            batch_id,
            "/cancel",
        );
        self.request(Method::Patch, url, Body::Empty)
    }

    /// Whether a reply confirms that a batch was cancelled: it succeeded
    /// and holds a `data` object.
    pub fn cancel_batch_result(reply: &Reply) -> (r: Result<
        Response<CancelBatchResponseData>,
        Failure,
    >)
        ensures
            match reply_document(reply.status, reply.body@) {
                Ok(doc) => match r {
                    Ok(_) => doc.member("data"@) is Some && doc.member("data"@)->0.is_object(),
                    Err(e) => !(doc.member("data"@) is Some && doc.member(
                        "data"@,
                    )->0.is_object()) && (e.kind, e.message@) == shape_error(),
                },
                Err(failure) => r matches Err(e) && (e.kind, e.message@) == failure,
            },
    {
        match handle_request(reply) {
            Ok(doc) => match doc.get("data") {
                Some(data) => match data.as_object() {
                    Some(_) => Ok(Response { data: CancelBatchResponseData {  } }),
                    None => Err(shape_failure()),
                },
                None => Err(shape_failure()),
            },
            Err(e) => Err(e),
        }
    }

    /// The request for the state of a batch.
    pub fn get_batch(&self, batch_id: &str) -> (r: Request)
        ensures
            r@ == (RequestView {
                method: Method::Get,
                url: self.base_url@ + "/core-fast/api/v2/batches/"@ + batch_id@,
                headers: service_headers(self.auth_token@),
                body: BodyView::Empty,
            }),
    {
        let url = join3(self.base_url.as_str(), "/core-fast/api/v2/batches/", batch_id);
        self.request(Method::Get, url, Body::Empty)
    }

    /// The state and the jobs of a batch that a reply holds.
    pub fn get_batch_result(reply: &Reply) -> (r: Result<Response<GetBatchResponseData>, Failure>)
        ensures
            match reply_document(reply.status, reply.body@) {
                Ok(doc) => match r {
                    Ok(batch) => data_status(doc) == Ok::<JobStatus, (ErrorKind, Seq<char>)>(
                        batch.data.status,
                    ) && data_job_ids(doc) == Ok::<Seq<Seq<char>>, (ErrorKind, Seq<char>)>(
                        strings_view(batch.data.job_ids@),
                    ),
                    Err(e) => (data_status(doc) is Err || data_job_ids(doc) is Err) && (
                    e.kind,
                    e.message@) == shape_error(),
                },
                Err(failure) => r matches Err(e) && (e.kind, e.message@) == failure,
            },
    {
        match handle_request(reply) {
            Ok(doc) => match read_data_status(&doc) {
                Ok(status) => match read_data_job_ids(&doc) {
                    Ok(job_ids) => Ok(Response { data: GetBatchResponseData { status, job_ids } }),
                    Err(e) => Err(e),
                },
                Err(e) => Err(e),
            },
            Err(e) => Err(e),
        }
    }

    /// The request for the state of a job.
    pub fn get_job(&self, job_id: &str) -> (r: Request)
        ensures
            r@ == (RequestView {
                method: Method::Get,
                url: self.base_url@ + "/core-fast/api/v2/jobs/"@ + job_id@,
                headers: service_headers(self.auth_token@),
                body: BodyView::Empty,
            }),
    {
        let url = join3(self.base_url.as_str(), "/core-fast/api/v2/jobs/", job_id);
        self.request(Method::Get, url, Body::Empty)
    }

    /// The state of a job that a reply holds.
    pub fn get_job_result(reply: &Reply) -> (r: Result<Response<GetJobResponseData>, Failure>)
        ensures
            match reply_document(reply.status, reply.body@) {
                Ok(doc) => match r {
                    Ok(job) => data_status(doc) == Ok::<JobStatus, (ErrorKind, Seq<char>)>(
                        job.data.status,
                    ),
                    Err(e) => data_status(doc) == Err::<JobStatus, (ErrorKind, Seq<char>)>(
                        (e.kind, e.message@),
                    ),
                },
                Err(failure) => r matches Err(e) && (e.kind, e.message@) == failure,
            },
    {
        match handle_request(reply) {
            Ok(doc) => match read_data_status(&doc) {
                Ok(status) => Ok(Response { data: GetJobResponseData { status } }),
                Err(e) => Err(e),
            },
            Err(e) => Err(e),
        }
    }

    /// The request for the full results of a batch.
    pub fn get_batch_results(&self, batch_id: &str) -> (r: Request)
        ensures
            r@ == (RequestView {
                method: Method::Get,
                url: self.base_url@ + "/core-fast/api/v1/batches/"@ + batch_id@
                    + "/full_results"@,
                headers: service_headers(self.auth_token@),
                body: BodyView::Empty,
            }),
    {
        let url = join4(
            self.base_url.as_str(),
            "/core-fast/api/v1/batches/",
            batch_id,
            "/full_results",
        );
        self.request(Method::Get, url, Body::Empty)
    }

    /// The result of the one job of a batch that a reply holds.
    pub fn get_batch_results_result(reply: &Reply) -> (r: Result<String, Failure>)
        ensures
            match reply_document(reply.status, reply.body@) {
                Ok(doc) => match r {
                    Ok(text) => batch_results(doc) == Ok::<Seq<char>, (ErrorKind, Seq<char>)>(
                        text@,
                    ),
                    Err(e) => batch_results(doc) == Err::<Seq<char>, (ErrorKind, Seq<char>)>(
                        (e.kind, e.message@),
                    ),
                },
                Err(failure) => r matches Err(e) && (e.kind, e.message@) == failure,
            },
    {
        match handle_request(reply) {
            Ok(doc) => read_batch_results(&doc),
            Err(e) => Err(e),
        }
    }

    /// The request for the specifications of a device.
    pub fn get_device_specs(&self, device_type: DeviceType) -> (r: Request)
        ensures
            r@ == (RequestView {
                method: Method::Get,
                url: self.base_url@ + "/core-fast/api/v1/devices/specs/"@ + device_type.name(),
                headers: service_headers(self.auth_token@),
                body: BodyView::Empty,
            }),
    {
        let url = join3(
            self.base_url.as_str(),
            "/core-fast/api/v1/devices/specs/",
            device_type.as_str(),
        );
        self.request(Method::Get, url, Body::Empty)
    }

    /// The specifications of a device that a reply holds.
    pub fn get_device_specs_result(reply: &Reply) -> (r: Result<
        Response<GetDeviceSpecsResponseData>,
        Failure,
    >)
        ensures
            match reply_document(reply.status, reply.body@) {
                Ok(doc) => match r {
                    Ok(found) => data_text(doc, "specs"@) == Ok::<
                        Seq<char>,
                        (ErrorKind, Seq<char>),
                    >(found.data.specs@),
                    Err(e) => data_text(doc, "specs"@) == Err::<
                        Seq<char>,
                        (ErrorKind, Seq<char>),
                    >((e.kind, e.message@)),
                },
                Err(failure) => r matches Err(e) && (e.kind, e.message@) == failure,
            },
    {
        match handle_request(reply) {
            Ok(doc) => match read_data_text(&doc, "specs") {
                Ok(specs) => Ok(Response { data: GetDeviceSpecsResponseData { specs } }),
                Err(e) => Err(e),
            },
            Err(e) => Err(e),
        }
    }
}

/// A token that is usable at some time is usable at every earlier time.
pub proof fn lemma_usable_earlier(token: Seq<char>, earlier: int, later: int)
    requires
        earlier <= later,
        token_usable(token, later),
    ensures
        token_usable(token, earlier),
{
}

/// The word of every state is read back as that state.
pub proof fn lemma_status_words_round_trip(status: JobStatus)
    ensures
        JobStatus::of_word(status.word()) == Some(status),
{
    reveal_strlit("PENDING");
    reveal_strlit("RUNNING");
    reveal_strlit("CANCELING");
    reveal_strlit("DONE");
    reveal_strlit("CANCELED");
    reveal_strlit("TIMED_OUT");
    reveal_strlit("ERROR");
    reveal_strlit("PAUSED");
    match status {
        JobStatus::Pending => {},
        JobStatus::Running => {
            assert("RUNNING"@[0] != "PENDING"@[0]);
        },
        JobStatus::Canceling => {
            assert("CANCELING"@.len() == 9);
        },
        JobStatus::Done => {
            assert("DONE"@.len() == 4);
        },
        JobStatus::Canceled => {
            assert("CANCELED"@.len() == 8);
        },
        JobStatus::TimedOut => {
            assert("TIMED_OUT"@[0] != "CANCELING"@[0]);
        },
        JobStatus::Error => {
            assert("ERROR"@.len() == 5);
        },
        JobStatus::Paused => {
            assert("PAUSED"@.len() == 6);
        },
    }
}

} // verus!
