//! An in-process stand-in for an IonQ backend: it never talks to the
//! service and completes every task at once.

use crate::json::{json_text, members_view, Json, JsonValue};
use crate::models::{
    fresh_uuid, ErrorKind, Failure, Payload, Session, Target, TaskResult, TaskStatus,
};
use crate::text::{
    chars_of, decimal, format_i64, join2, join3, join5, slice_chars, str_eq, string_of,
};
use crate::transport::{pair, pairs_view};
use vstd::prelude::*;

verus! {

/// What the mock keeps of a job.
#[derive(Debug, Clone)]
pub struct MockJob {
    pub status: TaskStatus,
    pub result: Option<TaskResult>,
    pub logs: Vec<String>,
    pub payload_summary: String,
}

/// The mathematical value of a [`MockJob`].
pub struct MockJobView {
    pub status: TaskStatus,
    pub result: Option<Seq<char>>,
    pub logs: Seq<Seq<char>>,
    pub payload_summary: Seq<char>,
}

impl View for MockJob {
    type V = MockJobView;

    open spec fn view(&self) -> MockJobView {
        MockJobView {
            status: self.status,
            result: match self.result {
                Some(r) => Some(r.value@),
                None => None,
            },
            logs: Seq::new(self.logs@.len(), |i: int| self.logs@[i]@),
            payload_summary: self.payload_summary@,
        }
    }
}

/// A mock IonQ backend.
#[derive(Debug)]
pub struct IonQMock {
    pub backend_name: String,
    pub online: bool,
    pub session: Session,
    pub jobs: Vec<(String, MockJob)>,
}

/// The job kept under `id`: the one that was put there last.
pub open spec fn job_of(jobs: Seq<(String, MockJob)>, id: Seq<char>) -> Option<MockJobView>
    decreases jobs.len(),
{
    if jobs.len() == 0 {
        None
    } else if jobs.last().0@ == id {
        Some(jobs.last().1@)
    } else {
        job_of(jobs.drop_last(), id)
    }
}

/// The first `n` characters of `s`, or all of it where it has fewer.
pub open spec fn preview_of(s: Seq<char>, n: nat) -> Seq<char> {
    if s.len() <= n {
        s
    } else {
        s.take(n as int)
    }
}

/// What the mock notes of a payload.
pub open spec fn summary_of(target: Seq<char>, shots: i32, input: Seq<char>) -> Seq<char> {
    "IonQ mock job on target='"@ + target + "', shots="@ + decimal(shots as int)
        + ", input_preview='"@ + preview_of(input, 128) + "'"@
}

/// The result that the mock makes up for a task.
pub open spec fn mock_result(
    backend_name: Seq<char>,
    job_id: Seq<char>,
    target: Seq<char>,
    shots: i32,
    input: Seq<char>,
) -> JsonValue {
    JsonValue::Object(
        seq![
            ("backend"@, JsonValue::Str(backend_name)),
            ("job_id"@, JsonValue::Str(job_id)),
            ("mock"@, JsonValue::Bool(true)),
            ("provider"@, JsonValue::Str("ionq"@)),
            ("target"@, JsonValue::Str(target)),
            ("shots"@, JsonValue::Int(shots as i64)),
            ("input_preview"@, JsonValue::Str(preview_of(input, 128))),
        ],
    )
}

/// The job that the mock keeps for a task.
pub open spec fn mock_job(
    backend_name: Seq<char>,
    job_id: Seq<char>,
    target: Seq<char>,
    shots: i32,
    input: Seq<char>,
) -> MockJobView {
    MockJobView {
        status: TaskStatus::Completed,
        result: Some(json_text(mock_result(backend_name, job_id, target, shots, input))),
        logs: seq![
            "job "@ + job_id + " started on mock backend '"@ + backend_name + "'"@,
            "job completed immediately by mock backend"@,
        ],
        payload_summary: summary_of(target, shots, input),
    }
}

/// The lines of `logs`, each but the last followed by a line feed.
pub open spec fn joined(logs: Seq<Seq<char>>) -> Seq<char>
    decreases logs.len(),
{
    if logs.len() == 0 {
        Seq::empty()
    } else if logs.len() == 1 {
        logs[0]
    } else {
        joined(logs.drop_last()) + "\n"@ + logs.last()
    }
}

/// The description that the mock gives of its backend.
pub open spec fn mock_target(backend_name: Seq<char>) -> JsonValue {
    JsonValue::Object(
        seq![
            ("name"@, JsonValue::Str(backend_name)),
            ("provider"@, JsonValue::Str("ionq"@)),
            ("type"@, JsonValue::Str("mock"@)),
            ("num_qubits"@, JsonValue::Int(29)),
            ("mock"@, JsonValue::Bool(true)),
        ],
    )
}

fn unknown_job(task_id: &str) -> (r: Failure)
    ensures
        r.is(ErrorKind::UnknownTask, "unknown job id for IonQMock: "@ + task_id@),
{
    Failure::new(ErrorKind::UnknownTask, join2("unknown job id for IonQMock: ", task_id))
}

/// Joins lines with line feeds.
pub fn join_lines(lines: &Vec<String>) -> (r: String)
    ensures
        r@ == joined(Seq::new(lines@.len(), |i: int| lines@[i]@)),
{
    let ghost all = Seq::new(lines@.len(), |i: int| lines@[i]@);
    let mut out = String::new();
    let mut i: usize = 0;
    while i < lines.len()
        invariant
            i <= lines@.len(),
            all == Seq::new(lines@.len(), |i: int| lines@[i]@),
            out@ == joined(all.take(i as int)),
        decreases lines@.len() - i,
    {
        proof {
            assert(all.take(i + 1).drop_last() =~= all.take(i as int));
            assert(all.take(i + 1).last() == lines@[i as int]@);
        }
        if i > 0 {
            out.append("\n");
        }
        out.append(lines[i].as_str());
        proof {
            if i == 0 {
                assert(all.take(1)[0] == lines@[0]@);
                assert(out@ =~= joined(all.take(1)));
            }
        }
        i += 1;
    }
    assert(all.take(lines@.len() as int) =~= all);
    out
}

impl IonQMock {
    /// The job kept under `id`, if there is one.
    pub open spec fn job(self, id: Seq<char>) -> Option<MockJobView> {
        job_of(self.jobs@, id)
    }

    /// A mock of the backend named `backend_name`: online, with no session
    /// and no jobs.
    pub fn new(backend_name: &str) -> (r: Result<Self, Failure>)
        ensures
            r matches Ok(mock) && mock.backend_name@ == backend_name@ && mock.online
                && mock.session is Unacquired && mock.jobs@.len() == 0,
    {
        Ok(
            IonQMock {
                backend_name: String::from_str(backend_name),
                online: true,
                session: Session::Unacquired,
                jobs: Vec::new(),
            },
        )
    }

    /// Says whether the backend is to count as reachable.
    pub fn set_online(&mut self, online: bool)
        ensures
            final(self).online == online,
            final(self).backend_name == old(self).backend_name,
            final(self).session == old(self).session,
            final(self).jobs == old(self).jobs,
    {
        self.online = online;
    }

    /// Whether the backend counts as reachable.
    pub fn is_accessible(&self) -> (r: Result<bool, Failure>)
        ensures
            r matches Ok(up) && up == self.online,
    {
        Ok(self.online)
    }

    /// Acquires a session: a new one, under a random identifier, whatever
    /// the state before.
    pub fn acquire(&mut self) -> (r: Result<String, Failure>)
        ensures
            r matches Ok(id) && id@.len() == 36 && final(self).session.held() == Some(id@),
            final(self).online == old(self).online,
            final(self).backend_name == old(self).backend_name,
            final(self).jobs == old(self).jobs,
    {
        let id = fresh_uuid();
        self.session = Session::Acquired(id.clone());
        Ok(id)
    }

    /// Releases the session: from now on nothing can be started, until a
    /// session is acquired anew. Safe in every state.
    pub fn release(&mut self, id: &str) -> (r: Result<(), Failure>)
        ensures
            r is Ok,
            final(self).session is Released,
            final(self).online == old(self).online,
            final(self).backend_name == old(self).backend_name,
            final(self).jobs == old(self).jobs,
    {
        self.session = Session::Released;
        Ok(())
    }

    /// The index at which the job `task_id` is kept.
    pub fn find_job(&self, task_id: &str) -> (r: Option<usize>)
        ensures
            match r {
                Some(i) => i < self.jobs@.len() && self.jobs@[i as int].0@ == task_id@
                    && self.job(task_id@) == Some(self.jobs@[i as int].1@),
                None => self.job(task_id@) is None,
            },
    {
        let mut j: usize = self.jobs.len();
        assert(self.jobs@.take(j as int) =~= self.jobs@);
        while j > 0
            invariant
                j <= self.jobs@.len(),
                job_of(self.jobs@, task_id@) == job_of(self.jobs@.take(j as int), task_id@),
            decreases j,
        {
            proof {
                assert(self.jobs@.take(j as int).drop_last() =~= self.jobs@.take(j - 1));
            }
            if str_eq(self.jobs[j - 1].0.as_str(), task_id) {
                return Some(j - 1);
            }
            j -= 1;
        }
        None
    }

    /// Starts a task under the identifier `job_id` and completes it at
    /// once, with a made-up result.
    ///
    /// Refused for a payload that is not meant for IonQ, whatever the state
    /// of the mock, and without a session; the mock stays as it was then.
    pub fn start_job(&mut self, payload: &Payload, job_id: String) -> (r: Result<String, Failure>)
        ensures
            final(self).online == old(self).online,
            final(self).backend_name == old(self).backend_name,
            final(self).session == old(self).session,
            match r {
                Ok(id) => {
                    let task = payload.ionq()->Some_0;
                    &&& old(self).session.held() is Some
                    &&& payload.ionq() is Some
                    &&& id@ == job_id@
                    &&& final(self).job(job_id@) == Some(
                        mock_job(old(self).backend_name@, job_id@, task.1, task.2, task.0),
                    )
                    &&& forall|other: Seq<char>|
                        other != job_id@ ==> final(self).job(other) == old(self).job(other)
                },
                Err(e) => final(self).jobs == old(self).jobs && if payload.ionq() is None {
                    e.is(
                        ErrorKind::TypeMismatch,
                        "IonQMock backend only supports Payload::IonQCloud"@,
                    )
                } else {
                    old(self).session.held() is None && e.is(
                        ErrorKind::SessionInvalid,
                        "no session is held: acquire one first"@,
                    )
                },
            },
    {
        match payload {
            Payload::IonQCloud { input, target, shots } => {
                if self.session.id().is_none() {
                    return Err(Session::invalid());
                }
                let chars = chars_of(input.as_str());
                let n: usize = if chars.len() <= 128 {
                    chars.len()
                } else {
                    128
                };
                let cut = slice_chars(chars.as_slice(), 0, n);
                let preview = string_of(cut.as_slice());
                assert(preview@ =~= preview_of(input@, 128));
                let shown = format_i64(*shots as i64);
                let head = join5(
                    "IonQ mock job on target='",
                    target.as_str(),
                    "', shots=",
                    shown.as_str(),
                    ", input_preview='",
                );
                let summary = join3(head.as_str(), preview.as_str(), "'");
                let mut fields: Vec<(String, Json)> = Vec::new();
                fields.push(
                    (String::from_str("backend"), Json::string(self.backend_name.as_str())),
                );
                fields.push((String::from_str("job_id"), Json::string(job_id.as_str())));
                fields.push((String::from_str("mock"), Json::Bool(true)));
                fields.push((String::from_str("provider"), Json::string("ionq")));
                fields.push((String::from_str("target"), Json::string(target.as_str())));
                fields.push((String::from_str("shots"), Json::Int(*shots as i64)));
                fields.push((String::from_str("input_preview"), Json::string(preview.as_str())));
                assert(members_view(fields@) =~= mock_result(
                    self.backend_name@,
                    job_id@,
                    target@,
                    *shots,
                    input@,
                )->Object_0);
                let result = TaskResult { value: Json::object(fields).to_text() };
                let mut logs: Vec<String> = Vec::new();
                logs.push(
                    join5(
                        "job ",
                        job_id.as_str(),
                        " started on mock backend '",
                        self.backend_name.as_str(),
                        "'",
                    ),
                );
                logs.push(String::from_str("job completed immediately by mock backend"));
                let job = MockJob {
                    status: TaskStatus::Completed,
                    result: Some(result),
                    logs,
                    payload_summary: summary,
                };
                assert(job@.logs =~= mock_job(
                    self.backend_name@,
                    job_id@,
                    target@,
                    *shots,
                    input@,
                ).logs);
                let ghost before = self.jobs@;
                let id = job_id.clone();
                self.jobs.push((job_id, job));
                proof {
                    assert(self.jobs@.drop_last() =~= before);
                }
                Ok(id)
            },
            _ => Err(
                Failure::of(
                    ErrorKind::TypeMismatch,
                    "IonQMock backend only supports Payload::IonQCloud",
                ),
            ),
        }
    }

    /// Starts a task under a new random identifier, `IONQ_MOCK_` and a
    /// UUID, and completes it at once.
    pub fn task_start(&mut self, payload: Payload) -> (r: Result<String, Failure>)
        ensures
            final(self).online == old(self).online,
            final(self).backend_name == old(self).backend_name,
            final(self).session == old(self).session,
            match r {
                Ok(id) => {
                    let task = payload.ionq()->Some_0;
                    &&& old(self).session.held() is Some
                    &&& payload.ionq() is Some
                    &&& id@.len() == 46
                    &&& id@.subrange(0, 10) == "IONQ_MOCK_"@
                    &&& final(self).job(id@) == Some(
                        mock_job(old(self).backend_name@, id@, task.1, task.2, task.0),
                    )
                    &&& forall|other: Seq<char>|
                        other != id@ ==> final(self).job(other) == old(self).job(other)
                },
                Err(e) => final(self).jobs == old(self).jobs && if payload.ionq() is None {
                    e.is(
                        ErrorKind::TypeMismatch,
                        "IonQMock backend only supports Payload::IonQCloud"@,
                    )
                } else {
                    old(self).session.held() is None && e.is(
                        ErrorKind::SessionInvalid,
                        "no session is held: acquire one first"@,
                    )
                },
            },
    {
        let uuid = fresh_uuid();
        let job_id = join2("IONQ_MOCK_", uuid.as_str());
        proof {
            reveal_strlit("IONQ_MOCK_");
            assert(job_id@.subrange(0, 10) =~= "IONQ_MOCK_"@);
        }
        self.start_job(&payload, job_id)
    }

    /// Stops a task. A task in a final state, and one that is not known,
    /// is left as it is; another is marked as cancelled.
    pub fn task_stop(&mut self, task_id: &str) -> (r: Result<(), Failure>)
        ensures
            r is Ok,
            final(self).online == old(self).online,
            final(self).backend_name == old(self).backend_name,
            final(self).session == old(self).session,
            forall|other: Seq<char>|
                other != task_id@ ==> final(self).job(other) == old(self).job(other),
            match old(self).job(task_id@) {
                Some(job) => if job.status.is_terminal() {
                    final(self).jobs == old(self).jobs
                } else {
                    final(self).job(task_id@) == Some(
                        MockJobView {
                            status: TaskStatus::Cancelled,
                            logs: job.logs.push("job marked as cancelled by client request"@),
                            ..job
                        },
                    )
                },
                None => final(self).jobs == old(self).jobs,
            },
    {
        let i = match self.find_job(task_id) {
            Some(i) => i,
            None => {
                return Ok(());
            },
        };
        if self.jobs[i].1.status.is_final() {
            return Ok(());
        }
        let job = &self.jobs[i].1;
        let mut logs: Vec<String> = Vec::new();
        let mut k: usize = 0;
        while k < job.logs.len()
            invariant
                k <= job.logs@.len(),
                logs@.len() == k,
                forall|j: int| 0 <= j < k ==> logs@[j]@ == job.logs@[j]@,
            decreases job.logs@.len() - k,
        {
            logs.push(job.logs[k].clone());
            k += 1;
        }
        logs.push(String::from_str("job marked as cancelled by client request"));
        let result = match &job.result {
            Some(r) => Some(TaskResult { value: r.value.clone() }),
            None => None,
        };
        let cancelled = MockJob {
            status: TaskStatus::Cancelled,
            result,
            logs,
            payload_summary: job.payload_summary.clone(),
        };
        assert(cancelled@.logs =~= job@.logs.push("job marked as cancelled by client request"@));
        let ghost before = self.jobs@;
        self.jobs.push((String::from_str(task_id), cancelled));
        proof {
            assert(self.jobs@.drop_last() =~= before);
        }
        Ok(())
    }

    /// The state of a task.
    pub fn task_status(&self, task_id: &str) -> (r: Result<TaskStatus, Failure>)
        ensures
            match self.job(task_id@) {
                Some(job) => r == Ok::<TaskStatus, Failure>(job.status),
                None => r matches Err(e) && e.is(
                    ErrorKind::UnknownTask,
                    "unknown job id for IonQMock: "@ + task_id@,
                ),
            },
    {
        match self.find_job(task_id) {
            Some(i) => Ok(self.jobs[i].1.status),
            None => Err(unknown_job(task_id)),
        }
    }

    /// The result of a task, once it is completed.
    pub fn task_result(&self, task_id: &str) -> (r: Result<TaskResult, Failure>)
        ensures
            match self.job(task_id@) {
                Some(job) => if job.status == TaskStatus::Completed && job.result is Some {
                    r matches Ok(found) && found.value@ == job.result->0
                } else {
                    r matches Err(e) && e.is(
                        ErrorKind::NotReady,
                        "job "@ + task_id@ + " has no result yet"@,
                    )
                },
                None => r matches Err(e) && e.is(
                    ErrorKind::UnknownTask,
                    "unknown job id for IonQMock: "@ + task_id@,
                ),
            },
    {
        match self.find_job(task_id) {
            Some(i) => {
                let job = &self.jobs[i].1;
                let completed = match job.status {
                    TaskStatus::Completed => true,
                    _ => false,
                };
                match &job.result {
                    Some(result) => {
                        if completed {
                            return Ok(TaskResult { value: result.value.clone() });
                        }
                    },
                    None => {},
                }
                Err(
                    Failure::new(ErrorKind::NotReady, join3("job ", task_id, " has no result yet")),
                )
            },
            None => Err(unknown_job(task_id)),
        }
    }

    /// The log of a task: its lines, and what was noted of its payload.
    pub fn task_logs(&self, task_id: &str) -> (r: Result<String, Failure>)
        ensures
            match self.job(task_id@) {
                Some(job) => r matches Ok(text) && text@ == joined(
                    job.logs.push("payload_summary: "@ + job.payload_summary),
                ),
                None => r matches Err(e) && e.is(
                    ErrorKind::UnknownTask,
                    "unknown job id for IonQMock: "@ + task_id@,
                ),
            },
    {
        match self.find_job(task_id) {
            Some(i) => {
                let job = &self.jobs[i].1;
                let mut logs: Vec<String> = Vec::new();
                let mut k: usize = 0;
                while k < job.logs.len()
                    invariant
                        k <= job.logs@.len(),
                        logs@.len() == k,
                        forall|j: int| 0 <= j < k ==> logs@[j]@ == job.logs@[j]@,
                    decreases job.logs@.len() - k,
                {
                    logs.push(job.logs[k].clone());
                    k += 1;
                }
                logs.push(join2("payload_summary: ", job.payload_summary.as_str()));
                assert(Seq::new(logs@.len(), |i: int| logs@[i]@) =~= job@.logs.push(
                    "payload_summary: "@ + job.payload_summary@,
                ));
                Ok(join_lines(&logs))
            },
            None => Err(unknown_job(task_id)),
        }
    }

    /// The description of the backend.
    pub fn target(&self) -> (r: Result<Target, Failure>)
        ensures
            r matches Ok(found) && found.value@ == json_text(mock_target(self.backend_name@)),
    {
        let mut fields: Vec<(String, Json)> = Vec::new();
        fields.push((String::from_str("name"), Json::string(self.backend_name.as_str())));
        fields.push((String::from_str("provider"), Json::string("ionq")));
        fields.push((String::from_str("type"), Json::string("mock")));
        fields.push((String::from_str("num_qubits"), Json::Int(29)));
        fields.push((String::from_str("mock"), Json::Bool(true)));
        assert(members_view(fields@) =~= mock_target(self.backend_name@)->Object_0);
        Ok(Target { value: Json::object(fields).to_text() })
    }

    /// What describes the adapter.
    pub fn metadata(&self) -> (r: Vec<(String, String)>)
        ensures
            pairs_view(r@) == seq![
                ("backend_name"@, self.backend_name@),
                ("provider"@, "ionq"@),
                ("kind"@, "mock"@),
            ],
    {
        let mut m: Vec<(String, String)> = Vec::new();
        m.push(pair("backend_name", self.backend_name.as_str()));
        m.push(pair("provider", "ionq"));
        m.push(pair("kind", "mock"));
        assert(pairs_view(m@) =~= seq![
            ("backend_name"@, self.backend_name@),
            ("provider"@, "ionq"@),
            ("kind"@, "mock"@),
        ]);
        m
    }
}

} // verus!
