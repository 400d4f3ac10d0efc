//! The canonical vocabulary shared by every backend adapter.

use uuid::Uuid;
use vstd::prelude::*;

verus! {

/// The lifecycle state of a task, independent of the provider's own words.
#[derive(Debug, Clone, Copy, PartialEq, Eq, Structural)]
pub enum TaskStatus {
    Queued,
    Running,
    Completed,
    Failed,
    Cancelled,
}

impl TaskStatus {
    /// Whether the state is final: a task that reached it never leaves it.
    pub open spec fn is_terminal(self) -> bool {
        self == TaskStatus::Completed || self == TaskStatus::Failed || self
            == TaskStatus::Cancelled
    }

    /// Whether the state is final.
    pub fn is_final(&self) -> (r: bool)
        ensures
            r == self.is_terminal(),
    {
        match self {
            TaskStatus::Completed | TaskStatus::Failed | TaskStatus::Cancelled => true,
            TaskStatus::Queued | TaskStatus::Running => false,
        }
    }

    /// The name of the state.
    pub fn name(&self) -> (r: &'static str)
        ensures
            r@ == self.name_spec(),
    {
        match self {
            TaskStatus::Queued => "Queued",
            TaskStatus::Running => "Running",
            TaskStatus::Completed => "Completed",
            TaskStatus::Failed => "Failed",
            TaskStatus::Cancelled => "Cancelled",
        }
    }

    /// The name of the state.
    pub open spec fn name_spec(self) -> Seq<char> {
        match self {
            TaskStatus::Queued => "Queued"@,
            TaskStatus::Running => "Running"@,
            TaskStatus::Completed => "Completed"@,
            TaskStatus::Failed => "Failed"@,
            TaskStatus::Cancelled => "Cancelled"@,
        }
    }
}

/// The work handed to an adapter, tagged by the provider it is meant for.
#[derive(Debug, Clone)]
pub enum Payload {
    /// A program for an IonQ backend.
    IonQCloud { input: String, target: String, shots: i32 },
    /// A pulse sequence for a Pasqal device.
    PasqalCloud { sequence: String, job_runs: i32 },
}

impl Payload {
    /// The program, the target and the shots of a payload for IonQ.
    pub open spec fn ionq(self) -> Option<(Seq<char>, Seq<char>, i32)> {
        match self {
            Payload::IonQCloud { input, target, shots } => Some((input@, target@, shots)),
            _ => None,
        }
    }

    /// The sequence and the runs of a payload for Pasqal.
    pub open spec fn pasqal(self) -> Option<(Seq<char>, i32)> {
        match self {
            Payload::PasqalCloud { sequence, job_runs } => Some((sequence@, job_runs)),
            _ => None,
        }
    }
}

/// The result of a completed task, as the provider's JSON text.
#[derive(Debug, Clone)]
pub struct TaskResult {
    pub value: String,
}

/// The description of a backend, as the provider's JSON text.
#[derive(Debug, Clone)]
pub struct Target {
    pub value: String,
}

/// The kinds of failure that an operation can report.
#[derive(Debug, Clone, Copy, PartialEq, Eq, Structural)]
pub enum ErrorKind {
    /// A connection error, a timeout or a server-side failure; retried.
    TransientNetwork,
    /// The provider rejected the credential, also after one renewal.
    AuthenticationFailed,
    /// No secret is at hand to renew the credential with.
    CredentialsMissing,
    /// The token has no readable structure.
    MalformedCredential,
    /// The provider reports the backend as down or retired, or refuses it.
    ResourceUnavailable,
    /// The payload is meant for another kind of adapter.
    TypeMismatch,
    /// A result was asked for before the task completed.
    NotReady,
    /// The session was never acquired or was released.
    SessionInvalid,
    /// The provider answered with a failure status.
    Provider,
    /// The provider's answer could not be read.
    UnexpectedResponse,
    /// An argument is outside what the operation accepts.
    InvalidArgument,
    /// No task of that identifier is known.
    UnknownTask,
}

/// A failure: its kind and a message for the caller.
#[derive(Debug, Clone)]
pub struct Failure {
    pub kind: ErrorKind,
    pub message: String,
}

impl Failure {
    /// A failure of the given kind with the given message.
    pub fn new(kind: ErrorKind, message: String) -> (r: Failure)
        ensures
            r.kind == kind,
            r.message@ == message@,
    {
        Failure { kind, message }
    }

    /// A failure of the given kind with the given words as its message.
    pub fn of(kind: ErrorKind, message: &str) -> (r: Failure)
        ensures
            r.is(kind, message@),
    {
        Failure { kind, message: String::from_str(message) }
    }

    /// Whether the failure is of `kind` and carries `message`.
    pub open spec fn is(self, kind: ErrorKind, message: Seq<char>) -> bool {
        self.kind == kind && self.message@ == message
    }
}

/// A new random identifier.
///
/// Wraps `Uuid::new_v4` and its `Display`: the text is the hyphenated form,
/// which is 36 characters long. Which identifier comes is left to chance.
#[verifier::external_body]
pub(crate) fn fresh_uuid() -> (r: String)
    ensures
        r@.len() == 36,
{
    Uuid::new_v4().to_string()
}

/// Where an adapter stands in the life of its session.
#[derive(Debug, Clone)]
pub enum Session {
    /// No session was acquired yet.
    Unacquired,
    /// A session is held, under this identifier.
    Acquired(String),
    /// The session was released: nothing more can be started.
    Released,
}

impl Session {
    /// The identifier of the session that is held, if one is.
    pub open spec fn held(self) -> Option<Seq<char>> {
        match self {
            Session::Acquired(id) => Some(id@),
            _ => None,
        }
    }

    /// The identifier of the session that is held, if one is.
    pub fn id(&self) -> (r: Option<&String>)
        ensures
            match r {
                Some(id) => self.held() == Some(id@),
                None => self.held() is None,
            },
    {
        match self {
            Session::Acquired(id) => Some(id),
            _ => None,
        }
    }

    /// The failure that reports work on a session that is not held.
    pub fn invalid() -> (r: Failure)
        ensures
            r.is(ErrorKind::SessionInvalid, "no session is held: acquire one first"@),
    {
        Failure::of(ErrorKind::SessionInvalid, "no session is held: acquire one first")
    }
}

} // verus!
