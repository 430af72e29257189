use spam_guard::guard::{
    acquire_step, existing_instance_action, lock_contents_blank, matches_signature,
    select_conflicting, skip_guard, stale_after_terminate, AcquireStep, ExistingInstance,
    LockAttempt, LockInfo, ProcessEntry, MAX_WAIT_MS,
};

#[test]
fn second_acquisition_in_same_process_fails() {
    let me = 4242;
    let info = LockInfo { pid: me, started_at: 1_700_000_000_000 };
    assert_eq!(existing_instance_action(Some(info), me), ExistingInstance::SameProcess(me));
    assert_ne!(acquire_step(LockAttempt::Held, 0), AcquireStep::Acquired);
}

#[test]
fn held_lock_retries_then_times_out() {
    assert_eq!(acquire_step(LockAttempt::Held, 0), AcquireStep::Retry);
    assert_eq!(acquire_step(LockAttempt::Held, MAX_WAIT_MS), AcquireStep::Retry);
    assert_eq!(acquire_step(LockAttempt::Held, MAX_WAIT_MS + 1), AcquireStep::TimedOut);
    assert_eq!(acquire_step(LockAttempt::Failed, 0), AcquireStep::Fatal);
}

#[test]
fn fresh_acquisition_succeeds_at_once() {
    assert_eq!(acquire_step(LockAttempt::Locked, 0), AcquireStep::Acquired);
}

#[test]
fn other_holder_is_terminated_and_stale_lock_removed() {
    let info = LockInfo { pid: 10, started_at: 0 };
    assert_eq!(existing_instance_action(Some(info), 11), ExistingInstance::Terminate(10));
    assert_eq!(existing_instance_action(None, 11), ExistingInstance::RemoveStale);
    assert!(stale_after_terminate(false, false));
    assert!(!stale_after_terminate(true, false));
    assert!(!stale_after_terminate(false, true));
}

#[test]
fn blank_lock_contents() {
    assert!(lock_contents_blank(""));
    assert!(lock_contents_blank(" \n\t"));
    assert!(!lock_contents_blank("{\"pid\":1,\"started_at\":2}"));
}

#[test]
fn guard_switch_values() {
    assert!(skip_guard(Some("1")));
    assert!(skip_guard(Some("TRUE")));
    assert!(skip_guard(Some("True")));
    assert!(!skip_guard(Some("yes")));
    assert!(!skip_guard(Some("")));
    assert!(!skip_guard(None));
}

#[test]
fn process_signatures() {
    assert!(matches_signature("fg_spam_guard", false, None));
    assert!(matches_signature("other", true, None));
    assert!(matches_signature("bot-bin", false, Some("bot-bin")));
    assert!(!matches_signature("bash", false, Some("bot-bin")));
}

#[test]
fn conflicting_processes_exclude_self() {
    let procs = vec![
        ProcessEntry { pid: 1, name: "init".to_string(), same_exe: false },
        ProcessEntry { pid: 2, name: "fg_spam_guard".to_string(), same_exe: false },
        ProcessEntry { pid: 3, name: "bot-bin".to_string(), same_exe: true },
        ProcessEntry { pid: 4, name: "bot-bin".to_string(), same_exe: false },
    ];
    assert_eq!(select_conflicting(&procs, 3, Some("bot-bin")), vec![2, 4]);
    assert_eq!(select_conflicting(&procs, 3, None), vec![2]);
}
