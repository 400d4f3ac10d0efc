use qrmi::models::TaskStatus;
use qrmi::polling::{
    looks_final, pick_default_program, poll_step, PollStep, DEFAULT_QASM2, DEFAULT_QASM3,
    QIR_PLACEHOLDER,
};

#[test]
fn default_program_goes_by_the_format() {
    assert_eq!(pick_default_program("qasm3"), DEFAULT_QASM3);
    assert_eq!(pick_default_program("QASM3"), DEFAULT_QASM3);
    assert_eq!(pick_default_program("Qir"), QIR_PLACEHOLDER);
    assert_eq!(pick_default_program("qasm2"), DEFAULT_QASM2);
    assert_eq!(pick_default_program(""), DEFAULT_QASM2);
    assert_eq!(pick_default_program(" qasm3"), DEFAULT_QASM2);
    assert!(DEFAULT_QASM2.starts_with("OPENQASM 2.0;\n"));
    assert!(DEFAULT_QASM3.starts_with("OPENQASM 3.0;\n"));
    assert!(DEFAULT_QASM2.ends_with("measure q[0] -> c[0];\n"));
}

#[test]
fn final_states_end_the_wait() {
    for status in [TaskStatus::Completed, TaskStatus::Failed, TaskStatus::Cancelled] {
        assert!(looks_final(&status));
        assert_eq!(poll_step(status, 0, 100), PollStep::Finished);
        assert_eq!(poll_step(status, 100, 100), PollStep::Finished);
        assert_eq!(poll_step(status, u64::MAX, 0), PollStep::Finished);
    }
    for status in [TaskStatus::Queued, TaskStatus::Running] {
        assert!(!looks_final(&status));
        assert_eq!(poll_step(status, 0, 100), PollStep::Wait);
        assert_eq!(poll_step(status, 99, 100), PollStep::Wait);
        assert_eq!(poll_step(status, 100, 100), PollStep::TimedOut);
        assert_eq!(poll_step(status, 101, 100), PollStep::TimedOut);
        assert_eq!(poll_step(status, 0, 0), PollStep::TimedOut);
    }
}

#[test]
fn a_task_that_never_finishes_is_waited_for_until_the_deadline() {
    // a clock that advances by the interval with every wait
    for (deadline, interval, expected) in [(180u64, 2u64, 90u32), (5, 2, 3), (1, 10, 1), (0, 1, 0)] {
        let (mut now, mut waits) = (0u64, 0u32);
        loop {
            match poll_step(TaskStatus::Running, now, deadline) {
                PollStep::Wait => {
                    waits += 1;
                    now += interval;
                }
                PollStep::TimedOut => break,
                PollStep::Finished => panic!("a running task is not finished"),
            }
            assert!(waits <= 1000, "the wait never ends");
        }
        assert_eq!(waits, expected);
    }
}
