//! The credential store of the direct-access client and the
//! authentication-aware retry around each request.

use crate::codec::{base64_encoded, encode_base64};
use crate::json::{json_parse_text, Json, JsonValue};
use crate::models::{ErrorKind, Failure};
use crate::retry::Attempt;
use crate::text::{join2, join3, join4, join5};
use crate::transport::{
    bearer, bearer_header, is_success, pair, pairs_view, status_reason, status_text, Body, BodyView,
    Method, Reply, Request, RequestView,
};
use vstd::prelude::*;
use vstd::utf8::encode_utf8;

verus! {

/// The secret with which a token is obtained.
#[derive(Debug, Clone)]
pub enum AuthMethod {
    /// No secret: requests are sent as they are.
    Unauthenticated,
    /// An API key, exchanged at an OAuth-style token endpoint.
    IbmCloudIam { apikey: String, service_crn: String, iam_endpoint_url: String },
    /// A user name and a password, exchanged by basic authentication.
    IbmCloudAppId { username: String, password: String },
}

/// Seconds before its expiry from which a token counts as expired unless
/// the store is told otherwise.
pub const TOKEN_EXPIRY_GRACE_SECONDS: u64 = 10;

/// The credential store: the token at hand, when it expires, how long
/// before that it counts as expired, and the means to obtain another.
/// Times are seconds on the caller's clock.
#[derive(Debug, Clone)]
pub struct TokenManager {
    pub access_token: Option<String>,
    pub token_expiry: Option<u64>,
    pub grace_seconds: u64,
    pub token_url: String,
    pub auth_method: AuthMethod,
}

/// What a number of seconds becomes under the safety margin of nine tenths.
pub open spec fn with_margin(expires_in: u64) -> u64 {
    (expires_in as int * 9 / 10) as u64
}

/// The time at which a token obtained at `now` with `lifetime` seconds to
/// live expires, held within 64 bits.
pub open spec fn expiry_after(now: u64, lifetime: u64) -> u64 {
    if now + lifetime > u64::MAX {
        u64::MAX
    } else {
        (now + lifetime) as u64
    }
}

/// What a token document grants: the token under `access_token`, which
/// must be a string, and the seconds it lives where `expires_in` states
/// them. `None` where the token is missing or the lifetime is no unsigned
/// 64-bit integer.
pub open spec fn grant_in(doc: JsonValue) -> Option<(Seq<char>, Option<u64>)> {
    match (doc.text_member("access_token"@), doc.member("expires_in"@)) {
        (Some(token), None) => Some((token, None)),
        (Some(token), Some(seconds)) => match seconds.unsigned() {
            Some(n) => Some((token, Some(n))),
            None => None,
        },
        _ => None,
    }
}

/// What the body of a successful token reply grants, where it is a JSON
/// document that grants anything.
pub open spec fn grant(body: Seq<char>) -> Option<(Seq<char>, Option<u64>)> {
    match json_parse_text(body) {
        Some(doc) => grant_in(doc),
        None => None,
    }
}

/// How an error document of the IAM token endpoint reads: its code and its
/// reason, which is the detail text where there is one and the message
/// otherwise.
pub open spec fn iam_error_in(doc: JsonValue) -> Option<(Seq<char>, Seq<char>)> {
    match (doc.text_member("errorCode"@), doc.text_member("errorMessage"@)) {
        (Some(code), Some(message)) => match doc.member("errorDetails"@) {
            None | Some(JsonValue::Null) => Some((code, message)),
            Some(JsonValue::Str(details)) => Some((code, details)),
            _ => None,
        },
        _ => None,
    }
}

/// How the body of an error reply of the IAM token endpoint reads, where
/// it is a JSON document of that form.
pub open spec fn iam_error(body: Seq<char>) -> Option<(Seq<char>, Seq<char>)> {
    match json_parse_text(body) {
        Some(doc) => iam_error_in(doc),
        None => None,
    }
}

impl AuthMethod {
    /// The request that exchanges the secret for a token at `token_url`.
    pub open spec fn token_request(self, token_url: Seq<char>) -> Option<RequestView> {
        match self {
            AuthMethod::Unauthenticated => None,
            AuthMethod::IbmCloudIam { apikey, .. } => Some(
                RequestView {
                    method: Method::Post,
                    url: token_url,
                    headers: seq![
                        ("Accept"@, "application/json"@),
                        ("Content-Type"@, "application/x-www-form-urlencoded"@),
                    ],
                    body: BodyView::Form(
                        seq![
                            ("grant_type"@, "urn:ibm:params:oauth:grant-type:apikey"@),
                            ("apikey"@, apikey@),
                        ],
                    ),
                },
            ),
            AuthMethod::IbmCloudAppId { username, password } => Some(
                RequestView {
                    method: Method::Post,
                    url: token_url,
                    headers: seq![
                        ("Accept"@, "application/json"@),
                        (
                            "Authorization"@,
                            "Basic "@ + base64_encoded(
                                encode_utf8(username@ + ":"@ + password@),
                            ),
                        ),
                        ("Content-Type"@, "application/json"@),
                    ],
                    body: BodyView::Empty,
                },
            ),
        }
    }

    /// The seconds that a token lives which states `expires_in`: nine tenths
    /// of it for an API-key grant, all of it otherwise.
    pub open spec fn lifetime(self, expires_in: u64) -> u64 {
        match self {
            AuthMethod::IbmCloudIam { .. } => with_margin(expires_in),
            _ => expires_in,
        }
    }

    /// The message with which a refused token request is reported.
    pub open spec fn refusal(self, token_url: Seq<char>, status: u16, body: Seq<char>) -> Seq<
        char,
    > {
        match self {
            AuthMethod::IbmCloudIam { .. } => match iam_error(body) {
                Some((code, reason)) => "Failed to obtain access token. reason: "@ + reason
                    + " ("@ + code + ")"@,
                None => "Failed to obtain access token. reason: "@ + status_reason(status)
                    + " ("@ + status_text(status) + "), url: "@ + token_url,
            },
            _ => status_reason(status) + " ("@ + status_text(status) + ")"@,
        }
    }
}

/// Reads what a token document grants.
pub fn read_grant_in(doc: &Json) -> (r: Option<(String, Option<u64>)>)
    ensures
        match r {
            Some((token, seconds)) => grant_in(doc@) == Some((token@, seconds)),
            None => grant_in(doc@) is None,
        },
{
    let token = match doc.get_str("access_token") {
        Some(t) => t.clone(),
        None => {
            return None;
        },
    };
    match doc.get("expires_in") {
        None => Some((token, None)),
        Some(seconds) => match seconds.as_u64() {
            Some(n) => Some((token, Some(n))),
            None => None,
        },
    }
}

/// Reads what the body of a successful token reply grants.
pub fn read_grant(body: &str) -> (r: Option<(String, Option<u64>)>)
    ensures
        match r {
            Some((token, seconds)) => grant(body@) == Some((token@, seconds)),
            None => grant(body@) is None,
        },
{
    match Json::parse(body) {
        Some(doc) => read_grant_in(&doc),
        None => None,
    }
}

/// Reads an error document of the IAM token endpoint.
pub fn read_iam_error_in(doc: &Json) -> (r: Option<(String, String)>)
    ensures
        match r {
            Some((code, reason)) => iam_error_in(doc@) == Some((code@, reason@)),
            None => iam_error_in(doc@) is None,
        },
{
    match (doc.get_str("errorCode"), doc.get_str("errorMessage")) {
        (Some(code), Some(message)) => match doc.get("errorDetails") {
            None => Some((code.clone(), message.clone())),
            Some(Json::Null) => Some((code.clone(), message.clone())),
            Some(Json::Str(details)) => Some((code.clone(), details.clone())),
            Some(_) => None,
        },
        _ => None,
    }
}

/// Reads the body of an error reply of the IAM token endpoint.
pub fn read_iam_error(body: &str) -> (r: Option<(String, String)>)
    ensures
        match r {
            Some((code, reason)) => iam_error(body@) == Some((code@, reason@)),
            None => iam_error(body@) is None,
        },
{
    match Json::parse(body) {
        Some(doc) => read_iam_error_in(&doc),
        None => None,
    }
}

/// Nine tenths of `expires_in`, rounded down.
pub fn apply_margin(expires_in: u64) -> (r: u64)
    ensures
        r == with_margin(expires_in),
{
    let scaled: u128 = (expires_in as u128) * 9 / 10;
    scaled as u64
}

impl TokenManager {
    /// The credential at hand, if there is one.
    pub open spec fn credential(self) -> Option<Credential> {
        match self.access_token {
            Some(token) => Some(Credential { token: token@, expiry: self.token_expiry }),
            None => None,
        }
    }

    /// Whether the token at hand can be presented at `now`: there is one,
    /// it is not empty, and it has no known expiry or one that lies more
    /// than the grace period ahead.
    pub open spec fn usable(self, now: u64) -> bool {
        stored_usable(self.credential(), now, self.grace_seconds)
    }

    /// A store for `auth_method` that holds no token yet, with the usual
    /// grace period.
    pub fn new(token_url: String, auth_method: AuthMethod) -> (r: TokenManager)
        ensures
            r.access_token is None,
            r.token_expiry is None,
            r.grace_seconds == TOKEN_EXPIRY_GRACE_SECONDS,
            r.token_url@ == token_url@,
            r.auth_method == auth_method,
            forall|now: u64| !r.usable(now),
    {
        TokenManager {
            access_token: None,
            token_expiry: None,
            grace_seconds: TOKEN_EXPIRY_GRACE_SECONDS,
            token_url,
            auth_method,
        }
    }

    /// Whether what the store holds can be presented at `now`.
    pub fn is_usable(&self, now: u64) -> (r: bool)
        ensures
            r == self.usable(now),
    {
        match &self.access_token {
            Some(token) => token.as_str().unicode_len() > 0 && match self.token_expiry {
                Some(at) => (at as u128) > (now as u128) + (self.grace_seconds as u128),
                None => true,
            },
            None => false,
        }
    }

    /// The request that exchanges the secret for a new token, whatever the
    /// state of the one at hand. Without a secret there is none to make.
    pub fn get_access_token(&self) -> (r: Result<Request, Failure>)
        ensures
            match r {
                Ok(request) => self.auth_method.token_request(self.token_url@) == Some(request@),
                Err(e) => self.auth_method.token_request(self.token_url@) is None && e.is(
                    ErrorKind::CredentialsMissing,
                    "no credentials are configured to obtain an access token"@,
                ),
            },
    {
        let mut headers: Vec<(String, String)> = Vec::new();
        headers.push(pair("Accept", "application/json"));
        match &self.auth_method {
            AuthMethod::Unauthenticated => Err(
                Failure::of(
                    ErrorKind::CredentialsMissing,
                    "no credentials are configured to obtain an access token",
                ),
            ),
            AuthMethod::IbmCloudIam { apikey, .. } => {
                headers.push(pair("Content-Type", "application/x-www-form-urlencoded"));
                let mut form: Vec<(String, String)> = Vec::new();
                form.push(pair("grant_type", "urn:ibm:params:oauth:grant-type:apikey"));
                form.push(pair("apikey", apikey.as_str()));
                let r = Request {
                    method: Method::Post,
                    url: self.token_url.clone(),
                    headers,
                    body: Body::Form(form),
                };
                proof {
                    let want = self.auth_method.token_request(self.token_url@)->0;
                    assert(pairs_view(r.headers@) =~= want.headers);
                    assert(pairs_view(form@) =~= want.body->Form_0);
                }
                Ok(r)
            },
            AuthMethod::IbmCloudAppId { username, password } => {
                let secret = join3(username.as_str(), ":", password.as_str());
                let encoded = encode_base64(secret.as_str().as_bytes());
                let basic = join2("Basic ", encoded.as_str());
                headers.push(pair("Authorization", basic.as_str()));
                headers.push(pair("Content-Type", "application/json"));
                let r = Request {
                    method: Method::Post,
                    url: self.token_url.clone(),
                    headers,
                    body: Body::Empty,
                };
                proof {
                    let want = self.auth_method.token_request(self.token_url@)->0;
                    assert(pairs_view(r.headers@) =~= want.headers);
                }
                Ok(r)
            },
        }
    }

    /// Decides whether a token has to be obtained before a request is sent
    /// at `now`: `Ok(None)` where the one at hand is usable, otherwise what
    /// `get_access_token` gives.
    pub fn ensure_token_validity(&self, now: u64) -> (r: Result<Option<Request>, Failure>)
        ensures
            self.usable(now) ==> r matches Ok(None),
            !self.usable(now) ==> match r {
                Ok(request) => request matches Some(q) && self.auth_method.token_request(
                    self.token_url@,
                ) == Some(q@),
                Err(e) => self.auth_method.token_request(self.token_url@) is None && e.is(
                    ErrorKind::CredentialsMissing,
                    "no credentials are configured to obtain an access token"@,
                ),
            },
    {
        if self.is_usable(now) {
            Ok(None)
        } else {
            match self.get_access_token() {
                Ok(request) => Ok(Some(request)),
                Err(e) => Err(e),
            }
        }
    }

    /// The token at hand, where it can be presented at `now`.
    pub fn get_token(&self, now: u64) -> (r: Option<String>)
        ensures
            match r {
                Some(token) => self.usable(now) && self.access_token->0@ == token@,
                None => !self.usable(now),
            },
    {
        match &self.access_token {
            Some(token) => {
                if self.is_usable(now) {
                    Some(token.clone())
                } else {
                    None
                }
            },
            None => None,
        }
    }

    /// The header with which a request presents the token at hand, where
    /// the token can be presented at `now`.
    pub fn authorization(&self, now: u64) -> (r: Option<(String, String)>)
        ensures
            match r {
                Some(h) => self.usable(now) && (h.0@, h.1@) == bearer(self.access_token->0@),
                None => !self.usable(now),
            },
    {
        match self.get_token(now) {
            Some(token) => Some(bearer_header(token.as_str())),
            None => None,
        }
    }

    /// The request as it is sent at `now`: the same method, address and
    /// body, and the token at hand as bearer credential behind its other
    /// headers. Without a token that can be presented nothing is sent:
    /// `AuthenticationFailed`.
    pub fn authorize(&self, request: &Request, now: u64) -> (r: Result<Request, Failure>)
        ensures
            match r {
                Ok(sent) => self.usable(now) && sent@ == (RequestView {
                    headers: request@.headers.push(bearer(self.access_token->0@)),
                    ..request@
                }),
                Err(e) => !self.usable(now) && e.is(
                    ErrorKind::AuthenticationFailed,
                    "no access token is at hand"@,
                ),
            },
    {
        match self.get_token(now) {
            Some(token) => Ok(request.with_bearer(token.as_str())),
            None => Err(Failure::of(ErrorKind::AuthenticationFailed, "no access token is at hand")),
        }
    }

    /// Takes in the reply to a token request received at `now`.
    ///
    /// A successful reply that grants a token replaces the token at hand and
    /// its expiry; every other reply leaves the store as it was and is
    /// reported as an authentication failure.
    pub fn accept_reply(&mut self, now: u64, reply: &Reply) -> (r: Result<(), Failure>)
        ensures
            final(self).token_url == old(self).token_url,
            final(self).auth_method == old(self).auth_method,
            final(self).grace_seconds == old(self).grace_seconds,
            match r {
                Ok(_) => {
                    let granted = grant(reply.body@)->Some_0;
                    &&& is_success(reply.status)
                    &&& grant(reply.body@) is Some
                    &&& final(self).access_token is Some
                    &&& final(self).access_token->Some_0@ == granted.0
                    &&& final(self).token_expiry == match granted.1 {
                        Some(n) => Some(expiry_after(now, old(self).auth_method.lifetime(n))),
                        None => None,
                    }
                },
                Err(e) => {
                    &&& final(self).access_token == old(self).access_token
                    &&& final(self).token_expiry == old(self).token_expiry
                    &&& e.kind == ErrorKind::AuthenticationFailed
                    &&& if is_success(reply.status) {
                        grant(reply.body@) is None && e.message@
                            == "token reply holds no access token"@
                    } else {
                        e.message@ == old(self).auth_method.refusal(
                            old(self).token_url@,
                            reply.status,
                            reply.body@,
                        )
                    }
                },
            },
    {
        if reply.succeeded() {
            match read_grant(reply.body.as_str()) {
                Some((token, seconds)) => {
                    self.access_token = Some(token);
                    self.token_expiry = match seconds {
                        Some(n) => {
                            let lifetime = match &self.auth_method {
                                AuthMethod::IbmCloudIam { .. } => apply_margin(n),
                                _ => n,
                            };
                            Some(now.saturating_add(lifetime))
                        },
                        None => None,
                    };
                    Ok(())
                },
                None => Err(
                    Failure::of(
                        ErrorKind::AuthenticationFailed,
                        "token reply holds no access token",
                    ),
                ),
            }
        } else {
            let reason = reply.reason();
            let line = reply.status_line();
            let message = match &self.auth_method {
                AuthMethod::IbmCloudIam { .. } => match read_iam_error(reply.body.as_str()) {
                    Some((code, why)) => join5(
                        "Failed to obtain access token. reason: ",
                        why.as_str(),
                        " (",
                        code.as_str(),
                        ")",
                    ),
                    None => {
                        let head = join5(
                            "Failed to obtain access token. reason: ",
                            reason.as_str(),
                            " (",
                            line.as_str(),
                            "), url: ",
                        );
                        join2(head.as_str(), self.token_url.as_str())
                    },
                },
                _ => join4(reason.as_str(), " (", line.as_str(), ")"),
            };
            Err(Failure::new(ErrorKind::AuthenticationFailed, message))
        }
    }
}

/// A credential as the store holds it: the token and, where known, the time
/// at which it expires.
pub struct Credential {
    pub token: Seq<char>,
    pub expiry: Option<u64>,
}

impl Credential {
    /// Whether the credential can be presented at `now`: the token is not
    /// empty, and the expiry, where one is known, lies more than `grace`
    /// ahead.
    pub open spec fn usable(self, now: u64, grace: u64) -> bool {
        self.token.len() > 0 && (self.expiry is Some ==> self.expiry->0 > now + grace)
    }
}

/// Whether a stored credential can be presented at `now`.
pub open spec fn stored_usable(stored: Option<Credential>, now: u64, grace: u64) -> bool {
    stored is Some && stored->0.usable(now, grace)
}

/// The number of token requests that `callers` callers cause who ask the
/// store for a token one after the other at `now`, each inside the critical
/// section, where a token request brings `fresh`.
pub open spec fn refreshes_for(
    stored: Option<Credential>,
    fresh: Credential,
    now: u64,
    grace: u64,
    callers: nat,
) -> nat
    decreases callers,
{
    if callers == 0 {
        0
    } else if stored_usable(stored, now, grace) {
        refreshes_for(stored, fresh, now, grace, (callers - 1) as nat)
    } else {
        1 + refreshes_for(Some(fresh), fresh, now, grace, (callers - 1) as nat)
    }
}

/// The tokens that those callers are handed, in the order in which they ask.
pub open spec fn tokens_for(
    stored: Option<Credential>,
    fresh: Credential,
    now: u64,
    grace: u64,
    callers: nat,
) -> Seq<Seq<char>>
    decreases callers,
{
    if callers == 0 {
        Seq::empty()
    } else if stored_usable(stored, now, grace) {
        seq![stored->0.token] + tokens_for(stored, fresh, now, grace, (callers - 1) as nat)
    } else {
        seq![fresh.token] + tokens_for(Some(fresh), fresh, now, grace, (callers - 1) as nat)
    }
}

/// Callers who find a usable credential cause no token request and are all
/// handed the token in store.
pub proof fn lemma_usable_store_serves_all(
    stored: Credential,
    fresh: Credential,
    now: u64,
    grace: u64,
    callers: nat,
)
    requires
        stored.usable(now, grace),
    ensures
        refreshes_for(Some(stored), fresh, now, grace, callers) == 0,
        tokens_for(Some(stored), fresh, now, grace, callers).len() == callers,
        forall|i: int|
            0 <= i < callers ==> tokens_for(Some(stored), fresh, now, grace, callers)[i] == stored.token,
    decreases callers,
{
    if callers > 0 {
        lemma_usable_store_serves_all(stored, fresh, now, grace, (callers - 1) as nat);
    }
}

/// However many callers ask for a token while the credential in store is
/// unusable, one token request is made, and every caller is handed the
/// token that it brought.
pub proof fn lemma_one_refresh_serves_all(
    stored: Option<Credential>,
    fresh: Credential,
    now: u64,
    grace: u64,
    callers: nat,
)
    requires
        !stored_usable(stored, now, grace),
        fresh.usable(now, grace),
        callers > 0,
    ensures
        refreshes_for(stored, fresh, now, grace, callers) == 1,
        tokens_for(stored, fresh, now, grace, callers).len() == callers,
        forall|i: int|
            0 <= i < callers ==> tokens_for(stored, fresh, now, grace, callers)[i] == fresh.token,
{
    lemma_usable_store_serves_all(fresh, fresh, now, grace, (callers - 1) as nat);
}

/// Where a request stands between the store and the transport.
#[derive(Debug, Clone, Copy, PartialEq, Eq, Structural)]
pub enum AuthState {
    /// Waiting for the store to hand out a token.
    AwaitingToken,
    /// The request was sent; waiting for its outcome.
    AwaitingReply,
    /// The outcome called for a new token; waiting for the store.
    AwaitingRenewal,
    /// The request was sent again; waiting for its outcome.
    AwaitingRetryReply,
    /// The caller has its answer.
    Finished,
}

/// What happened since the last action.
#[derive(Debug, Clone, Copy, PartialEq, Eq, Structural)]
pub enum AuthEvent {
    /// The store holds a token to present.
    TokenReady,
    /// The store could not provide a token, for this reason.
    TokenFailed(ErrorKind),
    /// The transport reports how the attempt ended.
    Outcome(Attempt),
}

/// What to do next.
#[derive(Debug, Clone, Copy, PartialEq, Eq, Structural)]
pub enum AuthAction {
    /// Send the request as `TokenManager::authorize` makes it: with the
    /// token in store as its bearer credential.
    Send,
    /// Exchange the secret for a new token, whatever the state of the one
    /// in store.
    ForceRefresh,
    /// Hand this outcome to the caller.
    Deliver(Attempt),
    /// Report this failure to the caller.
    Fail(ErrorKind),
    /// The event does not belong to the state: nothing to do.
    Ignore,
}

/// Whether an outcome calls for a new token: the transport failed, or the
/// service answered 401 Unauthorized.
pub open spec fn calls_for_renewal(outcome: Attempt) -> bool {
    match outcome {
        Attempt::Reply(status) => status == 401,
        Attempt::Failed { .. } => true,
    }
}

/// The state and the action that follow an event.
pub open spec fn auth_step(state: AuthState, event: AuthEvent) -> (AuthState, AuthAction) {
    match (state, event) {
        (AuthState::AwaitingToken, AuthEvent::TokenReady) => (
            AuthState::AwaitingReply,
            AuthAction::Send,
        ),
        (AuthState::AwaitingToken, AuthEvent::TokenFailed(kind)) => (
            AuthState::Finished,
            AuthAction::Fail(kind),
        ),
        (AuthState::AwaitingReply, AuthEvent::Outcome(outcome)) => if calls_for_renewal(outcome) {
            (AuthState::AwaitingRenewal, AuthAction::ForceRefresh)
        } else {
            (AuthState::Finished, AuthAction::Deliver(outcome))
        },
        (AuthState::AwaitingRenewal, AuthEvent::TokenReady) => (
            AuthState::AwaitingRetryReply,
            AuthAction::Send,
        ),
        (AuthState::AwaitingRenewal, AuthEvent::TokenFailed(kind)) => (
            AuthState::Finished,
            AuthAction::Fail(kind),
        ),
        (AuthState::AwaitingRetryReply, AuthEvent::Outcome(outcome)) => if outcome
            == Attempt::Reply(401) {
            (AuthState::Finished, AuthAction::Fail(ErrorKind::AuthenticationFailed))
        } else {
            (AuthState::Finished, AuthAction::Deliver(outcome))
        },
        _ => (state, AuthAction::Ignore),
    }
}

/// The actions that a sequence of events brings about, from `state` on.
pub open spec fn auth_actions(state: AuthState, events: Seq<AuthEvent>) -> Seq<AuthAction>
    decreases events.len(),
{
    if events.len() == 0 {
        Seq::empty()
    } else {
        let (next, action) = auth_step(state, events[0]);
        seq![action] + auth_actions(next, events.drop_first())
    }
}

/// How often `action` occurs in `actions`.
pub open spec fn count_action(actions: Seq<AuthAction>, action: AuthAction) -> nat
    decreases actions.len(),
{
    if actions.len() == 0 {
        0
    } else {
        (if actions[0] == action {
            1nat
        } else {
            0nat
        }) + count_action(actions.drop_first(), action)
    }
}

/// The authentication-aware retry around one request.
#[derive(Debug, Clone, Copy, PartialEq, Eq, Structural)]
pub struct AuthMiddleware {
    pub state: AuthState,
}

impl AuthMiddleware {
    /// The retry around a request of which nothing was sent yet: it waits
    /// for the store to hand out a token.
    pub fn new() -> (r: AuthMiddleware)
        ensures
            r.state == AuthState::AwaitingToken,
    {
        AuthMiddleware { state: AuthState::AwaitingToken }
    }

    /// Takes in an event and says what to do next.
    pub fn handle(&mut self, event: AuthEvent) -> (r: AuthAction)
        ensures
            (final(self).state, r) == auth_step(old(self).state, event),
    {
        let (next, action) = match (self.state, event) {
            (AuthState::AwaitingToken, AuthEvent::TokenReady) => (
                AuthState::AwaitingReply,
                AuthAction::Send,
            ),
            (AuthState::AwaitingToken, AuthEvent::TokenFailed(kind)) => (
                AuthState::Finished,
                AuthAction::Fail(kind),
            ),
            (AuthState::AwaitingReply, AuthEvent::Outcome(outcome)) => {
                let renew = match outcome {
                    Attempt::Reply(status) => status == 401,
                    Attempt::Failed { .. } => true,
                };
                if renew {
                    (AuthState::AwaitingRenewal, AuthAction::ForceRefresh)
                } else {
                    (AuthState::Finished, AuthAction::Deliver(outcome))
                }
            },
            (AuthState::AwaitingRenewal, AuthEvent::TokenReady) => (
                AuthState::AwaitingRetryReply,
                AuthAction::Send,
            ),
            (AuthState::AwaitingRenewal, AuthEvent::TokenFailed(kind)) => (
                AuthState::Finished,
                AuthAction::Fail(kind),
            ),
            (AuthState::AwaitingRetryReply, AuthEvent::Outcome(outcome)) => {
                let unauthorized = match outcome {
                    Attempt::Reply(status) => status == 401,
                    Attempt::Failed { .. } => false,
                };
                if unauthorized {
                    (AuthState::Finished, AuthAction::Fail(ErrorKind::AuthenticationFailed))
                } else {
                    (AuthState::Finished, AuthAction::Deliver(outcome))
                }
            },
            (state, _) => (state, AuthAction::Ignore),
        };
        self.state = next;
        action
    }

    /// Whether the caller has its answer.
    pub fn is_finished(&self) -> (r: bool)
        ensures
            r == (self.state == AuthState::Finished),
    {
        match self.state {
            AuthState::Finished => true,
            _ => false,
        }
    }
}

/// The most token renewals that can still follow from a state.
pub open spec fn renewals_left(state: AuthState) -> nat {
    match state {
        AuthState::AwaitingToken | AuthState::AwaitingReply => 1,
        _ => 0,
    }
}

/// The most sends that can still follow from a state.
pub open spec fn sends_left(state: AuthState) -> nat {
    match state {
        AuthState::AwaitingToken => 2,
        AuthState::AwaitingReply | AuthState::AwaitingRenewal => 1,
        _ => 0,
    }
}

/// Whatever the events, no more renewals and sends follow from a state than
/// it has left.
pub proof fn lemma_bounded_from(state: AuthState, events: Seq<AuthEvent>)
    ensures
        count_action(auth_actions(state, events), AuthAction::ForceRefresh) <= renewals_left(
            state,
        ),
        count_action(auth_actions(state, events), AuthAction::Send) <= sends_left(state),
    decreases events.len(),
{
    if events.len() > 0 {
        let (next, action) = auth_step(state, events[0]);
        lemma_bounded_from(next, events.drop_first());
        let rest = auth_actions(next, events.drop_first());
        assert(auth_actions(state, events).drop_first() =~= rest);
    }
}

/// Whatever the store and the transport do, one request is sent at most
/// twice and causes at most one forced renewal of the token.
pub proof fn lemma_at_most_one_renewal(events: Seq<AuthEvent>)
    ensures
        count_action(
            auth_actions(AuthState::AwaitingToken, events),
            AuthAction::ForceRefresh,
        ) <= 1,
        count_action(auth_actions(AuthState::AwaitingToken, events), AuthAction::Send) <= 2,
{
    lemma_bounded_from(AuthState::AwaitingToken, events);
}

/// A request whose first attempt calls for a new token, and whose second
/// attempt ends otherwise than in 401, is sent twice with one renewal
/// between, and the second outcome is delivered.
pub proof fn lemma_renew_once_then_deliver(first: Attempt, second: Attempt)
    requires
        calls_for_renewal(first),
        second != Attempt::Reply(401),
    ensures
        auth_actions(
            AuthState::AwaitingToken,
            seq![
                AuthEvent::TokenReady,
                AuthEvent::Outcome(first),
                AuthEvent::TokenReady,
                AuthEvent::Outcome(second),
            ],
        ) == seq![
            AuthAction::Send,
            AuthAction::ForceRefresh,
            AuthAction::Send,
            AuthAction::Deliver(second),
        ],
{
    let events = seq![
        AuthEvent::TokenReady,
        AuthEvent::Outcome(first),
        AuthEvent::TokenReady,
        AuthEvent::Outcome(second),
    ];
    let e1 = events.drop_first();
    let e2 = e1.drop_first();
    let e3 = e2.drop_first();
    reveal_with_fuel(auth_actions, 5);
    assert(e3.drop_first() =~= Seq::<AuthEvent>::empty());
    assert(auth_actions(AuthState::Finished, e3.drop_first()) =~= Seq::<AuthAction>::empty());
    assert(auth_actions(AuthState::AwaitingToken, events) =~= seq![
        AuthAction::Send,
        AuthAction::ForceRefresh,
        AuthAction::Send,
        AuthAction::Deliver(second),
    ]);
}

/// A second 401 after the one renewal is a terminal authentication failure.
pub proof fn lemma_second_unauthorized_is_terminal()
    ensures
        auth_step(AuthState::AwaitingRetryReply, AuthEvent::Outcome(Attempt::Reply(401))) == (
            AuthState::Finished,
            AuthAction::Fail(ErrorKind::AuthenticationFailed),
        ),
        forall|event: AuthEvent| auth_step(AuthState::Finished, event) == (
            AuthState::Finished,
            AuthAction::Ignore,
        ),
{
}

} // verus!
