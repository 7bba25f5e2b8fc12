use core_dump_composer::protocol::{next_step, Composer, Failure, Phase, Step};
use core_dump_composer::supervisor::{supervise, WaitOutcome, EXIT_TIMEOUT};


/// Hands the machine's steps to `perform` until a terminal step ends the job.
fn drive(ignore_runtime: bool, emit_events: bool, mut perform: impl FnMut(Step) -> bool) -> Step {
    let (mut machine, mut step) = Composer::new(ignore_runtime, emit_events);
    while !machine.finished() {
        let ok = perform(step);
        step = machine.advance(ok);
    }
    step
}

/// Records every step and fails the steps listed in `failing`.
fn run_script(ignore_runtime: bool, emit_events: bool, failing: Vec<Step>) -> (Step, Vec<Step>) {
    let mut seen = Vec::new();
    let end = drive(ignore_runtime, emit_events, |step| {
        seen.push(step);
        !failing.contains(&step)
    });
    (end, seen)
}

const HAPPY: [Step; 7] = [
    Step::CreateFile,
    Step::Lock,
    Step::StartMetadataEntry,
    Step::WriteMetadata,
    Step::StartPayloadEntry,
    Step::CopyInput,
    Step::Flush,
];

#[test]
fn success_without_events_skips_the_record() {
    let (end, seen) = run_script(true, false, vec![]);
    assert_eq!(end, Step::Exit(0));
    let mut expected = HAPPY.to_vec();
    expected.extend([Step::Finish, Step::Unlock]);
    assert_eq!(seen, expected);
    assert!(!seen.contains(&Step::WriteEvent));
}

#[test]
fn success_with_events_writes_one_record() {
    let (end, seen) = run_script(true, true, vec![]);
    assert_eq!(end, Step::Exit(0));
    let mut expected = HAPPY.to_vec();
    expected.extend([Step::WriteEvent, Step::Finish, Step::Unlock]);
    assert_eq!(seen, expected);
    assert_eq!(seen.iter().filter(|s| **s == Step::WriteEvent).count(), 1);
}

#[test]
fn runtime_lookup_enabled_writes_no_record() {
    let (end, seen) = run_script(false, true, vec![]);
    assert_eq!(end, Step::Exit(0));
    assert!(!seen.contains(&Step::WriteEvent));
}

#[test]
fn unwritable_destination_exits_one_without_locking() {
    let (end, seen) = run_script(true, false, vec![Step::CreateFile]);
    assert_eq!(end, Step::Exit(1));
    assert_eq!(seen, vec![Step::CreateFile]);
}

#[test]
fn lock_failure_is_propagated() {
    let (end, seen) = run_script(true, false, vec![Step::Lock]);
    assert_eq!(end, Step::Fail(Failure::Lock));
    assert_eq!(seen, vec![Step::CreateFile, Step::Lock]);
}

#[test]
fn metadata_start_failure_finishes_unlocks_and_exits_one() {
    let (end, seen) = run_script(true, false, vec![Step::StartMetadataEntry]);
    assert_eq!(end, Step::Exit(1));
    assert_eq!(
        seen,
        vec![Step::CreateFile, Step::Lock, Step::StartMetadataEntry, Step::Finish, Step::Unlock]
    );
}

#[test]
fn metadata_write_failure_finishes_unlocks_and_exits_one() {
    let (end, seen) = run_script(true, false, vec![Step::WriteMetadata]);
    assert_eq!(end, Step::Exit(1));
    assert_eq!(seen[seen.len() - 2..], [Step::Finish, Step::Unlock]);
    assert!(!seen.contains(&Step::StartPayloadEntry));
}

#[test]
fn payload_start_failure_is_not_fatal() {
    let (end, seen) = run_script(true, false, vec![Step::StartPayloadEntry]);
    assert_eq!(end, Step::Exit(0));
    assert!(seen.contains(&Step::CopyInput));
}

#[test]
fn copy_failure_unlocks_and_exits_one_without_trailer() {
    let (end, seen) = run_script(true, true, vec![Step::CopyInput]);
    assert_eq!(end, Step::Exit(1));
    let mut expected = HAPPY[..6].to_vec();
    expected.push(Step::Unlock);
    assert_eq!(seen, expected);
}

#[test]
fn flush_failure_unlocks_and_propagates() {
    let (end, seen) = run_script(true, true, vec![Step::Flush]);
    assert_eq!(end, Step::Fail(Failure::Flush));
    assert_eq!(*seen.last().unwrap(), Step::Unlock);
    assert!(!seen.contains(&Step::WriteEvent));
}

#[test]
fn event_failure_finishes_unlocks_and_propagates() {
    let (end, seen) = run_script(true, true, vec![Step::WriteEvent]);
    assert_eq!(end, Step::Fail(Failure::Event));
    assert_eq!(seen[seen.len() - 2..], [Step::Finish, Step::Unlock]);
}

#[test]
fn finish_failure_still_unlocks() {
    let (end, seen) = run_script(true, false, vec![Step::Finish]);
    assert_eq!(end, Step::Fail(Failure::Finish));
    assert_eq!(*seen.last().unwrap(), Step::Unlock);
}

#[test]
fn unlock_failure_is_propagated() {
    let (end, _seen) = run_script(true, false, vec![Step::Unlock]);
    assert_eq!(end, Step::Fail(Failure::Unlock));
}

#[test]
fn every_terminal_after_the_lock_follows_an_unlock() {
    let all = [
        Step::StartMetadataEntry,
        Step::WriteMetadata,
        Step::CopyInput,
        Step::Flush,
        Step::WriteEvent,
        Step::Finish,
    ];
    for failing in all {
        let (_end, seen) = run_script(true, true, vec![failing]);
        assert_eq!(*seen.last().unwrap(), Step::Unlock);
    }
}

#[test]
fn machine_steps_by_hand() {
    let (mut m, first) = Composer::new(true, false);
    assert_eq!(first, Step::CreateFile);
    assert!(!m.finished());
    assert_eq!(m.advance(true), Step::Lock);
    assert_eq!(m.advance(false), Step::Fail(Failure::Lock));
    assert!(m.finished());
}

#[test]
fn next_step_from_unlocking_ends_with_pending_step() {
    assert_eq!(
        next_step(true, true, Phase::Unlocking(Step::Exit(1)), true),
        (Phase::Done, Step::Exit(1))
    );
    assert_eq!(
        next_step(true, true, Phase::Unlocking(Step::Exit(1)), false),
        (Phase::Done, Step::Fail(Failure::Unlock))
    );
}

#[test]
fn timeout_exits_with_thirty_two() {
    assert_eq!(EXIT_TIMEOUT, 32);
    assert_eq!(supervise(WaitOutcome::TimedOut), Step::Exit(32));
}

#[test]
fn vanished_worker_counts_as_timeout() {
    assert_eq!(supervise(WaitOutcome::Disconnected), Step::Exit(32));
}

#[test]
fn delivered_result_is_kept() {
    assert_eq!(supervise(WaitOutcome::Delivered(Step::Exit(0))), Step::Exit(0));
    assert_eq!(supervise(WaitOutcome::Delivered(Step::Exit(1))), Step::Exit(1));
    assert_eq!(
        supervise(WaitOutcome::Delivered(Step::Fail(Failure::Flush))),
        Step::Fail(Failure::Flush)
    );
}
