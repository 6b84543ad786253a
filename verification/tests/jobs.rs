use vapourfly_gui::jobs::{
    fingerprint_u64, job_input_fingerprint, library_ready, needs_library_prepare, poll_job, JobPoll,
    JobRunner, JobSlot, JobTicket, WakeFlag, WorkflowKind,
};

#[test]
fn job_runner_ids_are_monotonic_and_nonzero() {
    let mut runner = JobRunner::new();
    let a = runner.next_ticket(WorkflowKind::Scan, "a");
    let b = runner.next_ticket(WorkflowKind::Scan, "a");
    let c = runner.next_ticket(WorkflowKind::Scan, "a");
    assert!(a.id.0 > 0);
    assert!(b.id.0 > a.id.0);
    assert!(c.id.0 > b.id.0);
}

#[test]
fn job_runner_default_starts_at_one() {
    let mut runner = JobRunner::default();
    let t = runner.next_ticket(WorkflowKind::Scan, "a");
    assert_eq!(t.id.0, 1);
}

#[test]
fn take_if_returns_matching_result() {
    let mut slot = JobSlot::<u32>::new();
    let mut runner = JobRunner::new();
    let t = runner.next_ticket(WorkflowKind::Scan, "a");
    slot.set(t, Ok(42));
    assert_eq!(slot.take_if(t), Some(Ok(42)));
    // Slot is now empty.
    assert!(slot.take_if(t).is_none());
}

#[test]
fn take_if_discards_stale_result() {
    let mut slot = JobSlot::<u32>::new();
    let mut runner = JobRunner::new();
    let t1 = runner.next_ticket(WorkflowKind::Scan, "a");
    let t2 = runner.next_ticket(WorkflowKind::Scan, "a");
    slot.set(t1, Ok(100));
    // t2 is the current expected job; t1's result is stale.
    assert!(slot.take_if(t2).is_none());
    // The stale result was consumed and discarded.
    assert!(slot.take_if(t1).is_none());
}

#[test]
fn take_if_discards_input_drift_result() {
    let mut slot = JobSlot::<u32>::new();
    let mut runner = JobRunner::new();
    let expected = runner.next_ticket(WorkflowKind::Scan, "inputs-a");
    let drifted = JobTicket {
        id: expected.id,
        kind: WorkflowKind::Scan,
        fingerprint: fingerprint_u64("inputs-b"),
    };
    slot.set(drifted, Ok(100));
    assert!(
        slot.take_if(expected).is_none(),
        "input-drift result must be discarded"
    );
}

#[test]
fn clear_empties_slot() {
    let mut slot = JobSlot::<u32>::new();
    let mut runner = JobRunner::new();
    let t = runner.next_ticket(WorkflowKind::Scan, "a");
    slot.set(t, Ok(7));
    slot.clear();
    assert!(slot.take_if(t).is_none());
}

#[test]
fn set_overwrites_previous_result_same_id() {
    let mut slot = JobSlot::<u32>::new();
    let mut runner = JobRunner::new();
    let t = runner.next_ticket(WorkflowKind::Scan, "a");
    slot.set(t, Ok(1));
    slot.set(t, Ok(2));
    assert_eq!(slot.take_if(t), Some(Ok(2)));
}

#[test]
fn error_results_round_trip() {
    let mut slot = JobSlot::<u32>::new();
    let mut runner = JobRunner::new();
    let t = runner.next_ticket(WorkflowKind::Scan, "a");
    slot.set(t, Err("boom".into()));
    assert_eq!(slot.take_if(t), Some(Err("boom".into())));
}

/// New result arrives first, then old result arrives.
/// The old result must NOT overwrite the new one.
#[test]
fn set_discards_older_result_when_newer_already_present() {
    let mut slot = JobSlot::<u32>::new();
    let mut runner = JobRunner::new();
    let t_old = runner.next_ticket(WorkflowKind::Scan, "a");
    let t_new = runner.next_ticket(WorkflowKind::Scan, "a");

    slot.set(t_new, Ok(200));
    slot.set(t_old, Ok(999));

    assert_eq!(slot.take_if(t_new), Some(Ok(200)));
}

#[test]
fn job_wake_signal_before_wait_does_not_deadlock() {
    let mut wake = WakeFlag::new();
    wake.signal();
    assert!(wake.try_consume());
}

#[test]
fn wake_flag_coalesces_extra_signals() {
    let mut wake = WakeFlag::new();
    wake.signal();
    wake.signal();
    assert!(wake.try_consume());
    // A second check must block until another signal.
    assert!(!wake.try_consume());
    wake.signal();
    assert!(wake.try_consume());
}

#[test]
fn fingerprint_is_stable_and_input_sensitive() {
    assert_eq!(fingerprint_u64("inputs-a"), fingerprint_u64("inputs-a"));
    assert_ne!(fingerprint_u64("inputs-a"), fingerprint_u64("inputs-b"));
}

#[test]
fn ticket_kind_mismatch_is_discarded() {
    let mut slot = JobSlot::<u32>::new();
    let mut runner = JobRunner::new();
    let t = runner.next_ticket(WorkflowKind::Scan, "a");
    let other_kind = JobTicket { kind: WorkflowKind::Write, ..t };
    slot.set(other_kind, Ok(5));
    assert!(slot.take_if(t).is_none());
}

#[test]
fn newer_result_survives_either_arrival_order() {
    let mut runner = JobRunner::new();
    let t_old = runner.next_ticket(WorkflowKind::DryRun, "x");
    let t_new = runner.next_ticket(WorkflowKind::DryRun, "x");

    let mut first = JobSlot::<u32>::new();
    first.set(t_old, Ok(1));
    first.set(t_new, Ok(2));
    let mut second = JobSlot::<u32>::new();
    second.set(t_new, Ok(2));
    second.set(t_old, Ok(1));
    assert_eq!(first.take_if(t_new), Some(Ok(2)));
    assert_eq!(second.take_if(t_new), Some(Ok(2)));
}

#[test]
fn job_input_fingerprint_is_none_for_empty_inputs() {
    assert_eq!(job_input_fingerprint(""), None);
    assert_eq!(job_input_fingerprint("a"), Some(fingerprint_u64("a")));
}

#[test]
fn poll_job_is_idle_without_a_running_job() {
    let mut slot = JobSlot::<u32>::new();
    let mut runner = JobRunner::new();
    let t = runner.next_ticket(WorkflowKind::Scan, "a");
    slot.set(t, Ok(1));
    assert!(matches!(poll_job(false, Some(t), None, &mut slot), JobPoll::Idle));
    assert!(matches!(poll_job(true, None, None, &mut slot), JobPoll::Idle));
    // An idle poll leaves the slot alone.
    assert_eq!(slot.take_if(t), Some(Ok(1)));
}

#[test]
fn poll_job_abandons_a_job_whose_inputs_drifted() {
    let mut slot = JobSlot::<u32>::new();
    let mut runner = JobRunner::new();
    let t = runner.next_ticket(WorkflowKind::Scan, "a");
    slot.set(t, Ok(1));
    let drifted = job_input_fingerprint("b");
    assert!(matches!(poll_job(true, Some(t), drifted, &mut slot), JobPoll::Abandoned));
    assert_eq!(slot.take_if(t), Some(Ok(1)));
}

#[test]
fn poll_job_waits_then_delivers_the_matching_result() {
    let mut slot = JobSlot::<u32>::new();
    let mut runner = JobRunner::new();
    let t = runner.next_ticket(WorkflowKind::Scan, "a");
    let current = job_input_fingerprint("a");
    assert!(matches!(poll_job(true, Some(t), current, &mut slot), JobPoll::Waiting));
    slot.set(t, Err("boom".into()));
    match poll_job(true, Some(t), current, &mut slot) {
        JobPoll::Finished(r) => assert_eq!(r, Err("boom".to_string())),
        _ => panic!("expected the finished result"),
    }
    // The result was handed over once.
    assert!(matches!(poll_job(true, Some(t), None, &mut slot), JobPoll::Waiting));
}

#[test]
fn poll_job_discards_a_stale_result() {
    let mut slot = JobSlot::<u32>::new();
    let mut runner = JobRunner::new();
    let old = runner.next_ticket(WorkflowKind::Scan, "a");
    let new = runner.next_ticket(WorkflowKind::Scan, "a");
    slot.set(old, Ok(1));
    assert!(matches!(poll_job(true, Some(new), None, &mut slot), JobPoll::Waiting));
    assert!(slot.take_if(old).is_none());
}

#[test]
fn library_prepare_starts_only_when_needed() {
    assert!(!needs_library_prepare(false, None, false, None, 5));
    assert!(needs_library_prepare(true, None, false, None, 5));
    assert!(needs_library_prepare(true, Some(4), false, None, 5));
    assert!(!needs_library_prepare(true, Some(5), false, None, 5));
    assert!(!needs_library_prepare(true, Some(4), true, Some(5), 5));
    assert!(needs_library_prepare(true, Some(4), true, Some(4), 5));
    assert!(needs_library_prepare(true, None, true, None, 5));
    assert!(library_ready(Some(5), 5));
    assert!(!library_ready(Some(4), 5));
    assert!(!library_ready(None, 5));
}

#[test]
fn superseded_job_result_is_discarded_then_current_one_delivered() {
    let mut slot = JobSlot::<u32>::new();
    let mut runner = JobRunner::new();
    // Start job #1, then supersede it with job #2.
    let t1 = runner.next_ticket(WorkflowKind::Scan, "fingerprint-a");
    let t2 = runner.next_ticket(WorkflowKind::Scan, "fingerprint-a");
    slot.set(t1, Ok(100)); // stale result from job #1
    assert!(slot.take_if(t2).is_none()); // discarded — ticket mismatch
    slot.set(t2, Ok(200));
    assert_eq!(slot.take_if(t2), Some(Ok(200)));
}

#[test]
fn upcoming_id_is_the_next_ticket_id() {
    let mut runner = JobRunner::new();
    assert_eq!(runner.upcoming_id(), 1);
    let t = runner.next_ticket(WorkflowKind::Write, "w");
    assert_eq!(t.id.0, 1);
    assert_eq!(runner.upcoming_id(), 2);
}
