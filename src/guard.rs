//! Decisions of the single-instance guard. The lock file, the process table
//! and the signals are handled by the caller, which reports what it saw.
use crate::text::{chars_of, same_text, trim, trim_ws};
use vstd::prelude::*;

verus! {

/// Name of the lock file inside the data directory.
pub const LOCK_FILENAME: &'static str = ".bot.lock";

/// Pause between two attempts to take the lock, in milliseconds.
pub const WAIT_INTERVAL_MS: u64 = 500;

/// How long acquisition may keep retrying, in milliseconds.
pub const MAX_WAIT_MS: u64 = 20_000;

/// The name this service gives its own process.
pub const UNIQUE_PROCESS_NAME: &'static str = "fg_spam_guard";

/// What the lock file records about its holder.
#[derive(Debug, Clone, Copy, PartialEq, Eq, Structural)]
pub struct LockInfo {
    pub pid: u32,
    /// Milliseconds since the Unix epoch.
    pub started_at: i64,
}

/// What to do about a lock that another holder has.
#[derive(Debug, Clone, Copy, PartialEq, Eq, Structural)]
pub enum ExistingInstance {
    /// The lock names this very process: acquisition fails.
    SameProcess(u32),
    /// Terminate this process, then retry.
    Terminate(u32),
    /// The record is missing or unreadable: delete the lock file, then retry.
    RemoveStale,
}

/// Decides about a held lock from the record read from the lock file.
pub open spec fn existing_instance_spec(info: Option<LockInfo>, current_pid: u32) -> ExistingInstance {
    match info {
        Some(i) => if i.pid == current_pid {
            ExistingInstance::SameProcess(i.pid)
        } else {
            ExistingInstance::Terminate(i.pid)
        },
        None => ExistingInstance::RemoveStale,
    }
}

pub fn existing_instance_action(info: Option<LockInfo>, current_pid: u32) -> (r: ExistingInstance)
    ensures
        r == existing_instance_spec(info, current_pid),
{
    match info {
        Some(i) => if i.pid == current_pid {
            ExistingInstance::SameProcess(i.pid)
        } else {
            ExistingInstance::Terminate(i.pid)
        },
        None => ExistingInstance::RemoveStale,
    }
}

/// After an attempt to terminate the holder: the lock file is stale, and
/// is deleted, when nothing was killed and the holder is gone.
pub fn stale_after_terminate(killed: bool, still_alive: bool) -> (r: bool)
    ensures
        r == (!killed && !still_alive),
{
    !killed && !still_alive
}

/// Whether lock-file contents carry no record at all (blank text).
pub fn lock_contents_blank(contents: &str) -> (r: bool)
    ensures
        r == (trim_ws(contents@).len() == 0),
{
    let t = trim(contents);
    t.as_str().is_empty()
}

/// The result of one non-blocking attempt to take the lock.
#[derive(Debug, Clone, Copy, PartialEq, Eq, Structural)]
pub enum LockAttempt {
    Locked,
    /// Another holder has the lock.
    Held,
    /// Opening or locking failed for another reason.
    Failed,
}

/// What acquisition does after an attempt.
#[derive(Debug, Clone, Copy, PartialEq, Eq, Structural)]
pub enum AcquireStep {
    Acquired,
    /// Wait `WAIT_INTERVAL_MS`, then try again.
    Retry,
    /// Retrying has gone on past `MAX_WAIT_MS`.
    TimedOut,
    /// An error other than a held lock: give up at once.
    Fatal,
}

pub open spec fn acquire_step_spec(attempt: LockAttempt, elapsed_ms: u64) -> AcquireStep {
    match attempt {
        LockAttempt::Locked => AcquireStep::Acquired,
        LockAttempt::Failed => AcquireStep::Fatal,
        LockAttempt::Held => if elapsed_ms > MAX_WAIT_MS {
            AcquireStep::TimedOut
        } else {
            AcquireStep::Retry
        },
    }
}

/// Decides after an attempt made `elapsed_ms` after acquisition began, once
/// a held lock has been dealt with.
pub fn acquire_step(attempt: LockAttempt, elapsed_ms: u64) -> (r: AcquireStep)
    ensures
        r == acquire_step_spec(attempt, elapsed_ms),
{
    match attempt {
        LockAttempt::Locked => AcquireStep::Acquired,
        LockAttempt::Failed => AcquireStep::Fatal,
        LockAttempt::Held => if elapsed_ms > MAX_WAIT_MS {
            AcquireStep::TimedOut
        } else {
            AcquireStep::Retry
        },
    }
}

/// A second acquisition while the lock is held never succeeds: it retries
/// until the ceiling and then times out, and when the record names the
/// acquiring process itself it fails at once. A fresh acquisition, whose
/// first attempt takes the lock, succeeds at once.
pub proof fn lemma_held_lock_never_acquired(elapsed_ms: u64, info: LockInfo, current_pid: u32)
    ensures
        acquire_step_spec(LockAttempt::Held, elapsed_ms) != AcquireStep::Acquired,
        elapsed_ms > MAX_WAIT_MS ==> acquire_step_spec(LockAttempt::Held, elapsed_ms)
            == AcquireStep::TimedOut,
        info.pid == current_pid ==> existing_instance_spec(Some(info), current_pid)
            == ExistingInstance::SameProcess(current_pid),
        acquire_step_spec(LockAttempt::Locked, 0) == AcquireStep::Acquired,
{
}

/// `c` in lower case when it is an ASCII capital.
pub open spec fn ascii_lower(c: char) -> char {
    if 'A' <= c && c <= 'Z' {
        (((c as u8) + 32) as u8) as char
    } else {
        c
    }
}

fn to_ascii_lower(c: char) -> (r: char)
    ensures
        r == ascii_lower(c),
{
    if 'A' <= c && c <= 'Z' {
        let b = c as u8;
        assert(b < 200) by {
            assert(c as u32 <= 'Z' as u32);
        }
        (b + 32) as char
    } else {
        c
    }
}

/// Equality up to ASCII case.
pub open spec fn eq_ignore_ascii_case(a: Seq<char>, b: Seq<char>) -> bool {
    a.len() == b.len() && forall|i: int| 0 <= i < a.len() ==> #[trigger] ascii_lower(a[i]) == ascii_lower(b[i])
}

fn same_ignoring_case(a: &str, b: &str) -> (r: bool)
    ensures
        r == eq_ignore_ascii_case(a@, b@),
{
    let x = chars_of(a);
    let y = chars_of(b);
    if x.len() != y.len() {
        return false;
    }
    let mut i: usize = 0;
    while i < x.len()
        invariant
            i <= x@.len() == y@.len(),
            x@ == a@,
            y@ == b@,
            forall|k: int| 0 <= k < i ==> #[trigger] ascii_lower(x@[k]) == ascii_lower(y@[k]),
        decreases x@.len() - i,
    {
        if to_ascii_lower(x[i]) != to_ascii_lower(y[i]) {
            return false;
        }
        i = i + 1;
    }
    true
}

/// Whether a setting switches the guard off: `1` or `true` in any case.
pub open spec fn skip_value(v: Option<Seq<char>>) -> bool {
    match v {
        Some(s) => eq_ignore_ascii_case(s, "1"@) || eq_ignore_ascii_case(s, "true"@),
        None => false,
    }
}

/// Reads the setting that switches the guard off.
pub fn skip_guard(value: Option<&str>) -> (r: bool)
    ensures
        r == skip_value(match value {
            Some(s) => Some(s@),
            None => None,
        }),
{
    match value {
        Some(s) => same_ignoring_case(s, "1") || same_ignoring_case(s, "true"),
        None => false,
    }
}

/// Whether a running process looks like an instance of this service: it
/// bears the service's process name, runs the same executable, or bears the
/// file name of that executable.
pub open spec fn signature_matches(name: Seq<char>, same_exe: bool, current_file_name: Option<Seq<char>>) -> bool {
    name == UNIQUE_PROCESS_NAME@ || same_exe || current_file_name == Some(name)
}

pub fn matches_signature(name: &str, same_exe: bool, current_file_name: Option<&str>) -> (r: bool)
    ensures
        r == signature_matches(
            name@,
            same_exe,
            match current_file_name {
                Some(f) => Some(f@),
                None => None,
            },
        ),
{
    if same_text(name, UNIQUE_PROCESS_NAME) {
        return true;
    }
    if same_exe {
        return true;
    }
    match current_file_name {
        Some(f) => same_text(name, f),
        None => false,
    }
}

/// A running process as the process table shows it.
#[derive(Debug, Clone)]
pub struct ProcessEntry {
    pub pid: u32,
    pub name: String,
    /// Whether it runs the same executable file as this process.
    pub same_exe: bool,
}

/// The processes other than `current_pid` that look like instances of this
/// service, in table order.
pub open spec fn conflicting(procs: Seq<ProcessEntry>, current_pid: u32, current_file_name: Option<Seq<char>>) -> Seq<u32>
    decreases procs.len(),
{
    if procs.len() == 0 {
        Seq::empty()
    } else {
        let prev = conflicting(procs.drop_last(), current_pid, current_file_name);
        let p = procs.last();
        if p.pid != current_pid && signature_matches(p.name@, p.same_exe, current_file_name) {
            prev.push(p.pid)
        } else {
            prev
        }
    }
}

/// Picks the processes to terminate before taking the lock.
pub fn select_conflicting(procs: &Vec<ProcessEntry>, current_pid: u32, current_file_name: Option<&str>) -> (r: Vec<u32>)
    ensures
        r@ == conflicting(
            procs@,
            current_pid,
            match current_file_name {
                Some(f) => Some(f@),
                None => None,
            },
        ),
{
    let ghost file = match current_file_name {
        Some(f) => Some(f@),
        None => None,
    };
    let mut out: Vec<u32> = Vec::new();
    let mut i: usize = 0;
    while i < procs.len()
        invariant
            i <= procs@.len(),
            file == match current_file_name {
                Some(f) => Some(f@),
                None => None::<Seq<char>>,
            },
            out@ == conflicting(procs@.take(i as int), current_pid, file),
        decreases procs@.len() - i,
    {
        assert(procs@.take(i + 1).drop_last() =~= procs@.take(i as int));
        let p = &procs[i];
        if p.pid != current_pid && matches_signature(p.name.as_str(), p.same_exe, current_file_name) {
            out.push(p.pid);
        }
        i = i + 1;
    }
    assert(procs@.take(i as int) =~= procs@);
    out
}

} // verus!
