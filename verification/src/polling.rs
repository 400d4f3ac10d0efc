//! Waiting for a task: when to look again, when to give up.

use crate::models::TaskStatus;
use crate::text::{lowercase_of, str_eq, unicode_lowercase};
use vstd::prelude::*;

verus! {

/// A small OpenQASM 2 program: one Hadamard gate and a measurement.
pub const DEFAULT_QASM2: &'static str =
    "OPENQASM 2.0;\ninclude \"qelib1.inc\";\nqreg q[1];\ncreg c[1];\nh q[0];\nmeasure q[0] -> c[0];\n";

/// The same program in OpenQASM 3.
pub const DEFAULT_QASM3: &'static str =
    "OPENQASM 3.0;\nqubit[1] q;\nbit[1] c;\nh q[0];\nc[0] = measure q[0];\n";

/// What stands in for a QIR module where none is given.
pub const QIR_PLACEHOLDER: &'static str = "; QIR placeholder - pass --input-file with real IR\n";

/// The program that is run where none is given, by the name of its format
/// in lower case: `qasm3`, `qir`, or anything else for OpenQASM 2.
pub open spec fn default_program(format: Seq<char>) -> Seq<char> {
    let f = unicode_lowercase(format);
    if f == "qasm3"@ {
        DEFAULT_QASM3@
    } else if f == "qir"@ {
        QIR_PLACEHOLDER@
    } else {
        DEFAULT_QASM2@
    }
}

/// The program that is run where none is given.
pub fn pick_default_program(format: &str) -> (r: String)
    ensures
        r@ == default_program(format@),
{
    let lowered = lowercase_of(format);
    if str_eq(lowered.as_str(), "qasm3") {
        String::from_str(DEFAULT_QASM3)
    } else if str_eq(lowered.as_str(), "qir") {
        String::from_str(QIR_PLACEHOLDER)
    } else {
        String::from_str(DEFAULT_QASM2)
    }
}

/// Whether a state is final.
pub fn looks_final(status: &TaskStatus) -> (r: bool)
    ensures
        r == status.is_terminal(),
{
    status.is_final()
}

/// What the one who waits for a task does after a look at its state.
#[derive(Debug, Clone, Copy, PartialEq, Eq, Structural)]
pub enum PollStep {
    /// The task reached a final state: stop looking.
    Finished,
    /// The deadline passed: ask for the task to be stopped, then stop
    /// looking.
    TimedOut,
    /// Wait for the interval, then look again.
    Wait,
}

/// The step after a look at time `now` that found the task in `status`.
pub open spec fn next_poll(status: TaskStatus, now: u64, deadline: u64) -> PollStep {
    if status.is_terminal() {
        PollStep::Finished
    } else if now >= deadline {
        PollStep::TimedOut
    } else {
        PollStep::Wait
    }
}

/// Decides what follows a look at the state of a task.
pub fn poll_step(status: TaskStatus, now: u64, deadline: u64) -> (r: PollStep)
    ensures
        r == next_poll(status, now, deadline),
{
    if status.is_final() {
        PollStep::Finished
    } else if now >= deadline {
        PollStep::TimedOut
    } else {
        PollStep::Wait
    }
}

/// The number of waits of one who looks at a task at `now` and then after
/// every `interval`, and finds it in the states `seen`, one per look.
pub open spec fn waits(seen: Seq<TaskStatus>, now: int, deadline: u64, interval: int) -> nat
    decreases seen.len(),
{
    if seen.len() == 0 || now < 0 || now > u64::MAX {
        0
    } else if next_poll(seen[0], now as u64, deadline) == PollStep::Wait {
        1 + waits(seen.drop_first(), now + interval, deadline, interval)
    } else {
        0
    }
}

/// However long a task stays in a state that is not final, the one who
/// waits for it waits no more often than the intervals that begin before
/// the deadline: the last wait begins before the deadline.
pub proof fn lemma_polling_is_bounded(
    seen: Seq<TaskStatus>,
    now: int,
    deadline: u64,
    interval: int,
)
    requires
        interval > 0,
    ensures
        waits(seen, now, deadline, interval) == 0 || now + (waits(seen, now, deadline, interval)
            - 1) * interval < deadline,
    decreases seen.len(),
{
    if seen.len() > 0 && 0 <= now <= u64::MAX && next_poll(seen[0], now as u64, deadline)
        == PollStep::Wait {
        let rest = waits(seen.drop_first(), now + interval, deadline, interval);
        lemma_polling_is_bounded(seen.drop_first(), now + interval, deadline, interval);
        let total = waits(seen, now, deadline, interval);
        assert(total == 1 + rest);
        if rest > 0 {
            assert(interval + (rest - 1) * interval == (total - 1) * interval) by (nonlinear_arith)
                requires
                    total == 1 + rest,
            ;
        } else {
            assert((total - 1) * interval == 0) by (nonlinear_arith)
                requires
                    total == 1,
            ;
        }
    }
}

} // verus!
