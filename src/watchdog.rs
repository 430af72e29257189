//! Sliding-window counter of listener network failures that decides when
//! the process must restart itself.
//!
//! Times are milliseconds of a monotonic clock. As with a monotonic instant,
//! the time since a later point is zero.
use crate::config::ResilienceConfig;
use crate::text::{append_str, decimal, push_decimal};
use vstd::prelude::*;

verus! {

/// Failure bookkeeping of the watchdog.
#[derive(Debug, Clone, Copy, Default, PartialEq, Eq, Structural)]
pub struct WatchdogState {
    pub first_error_at: Option<u64>,
    pub consecutive_errors: u32,
    pub last_restart_at: Option<u64>,
}

/// A trip: the process is to restart after `consecutive` failures that
/// spanned `elapsed_ms`.
#[derive(Debug, Clone, Copy, PartialEq, Eq, Structural)]
pub struct RestartDecision {
    pub consecutive: u32,
    pub elapsed_ms: u64,
}

/// Milliseconds from `earlier` to `now`, zero when `earlier` is not before.
pub open spec fn since(now: u64, earlier: u64) -> u64 {
    if now >= earlier {
        (now - earlier) as u64
    } else {
        0
    }
}

/// Whether the accumulation window starting at `first` has run out at `now`.
pub open spec fn window_expired(first: Option<u64>, now: u64, window_ms: u64) -> bool {
    match first {
        Some(ts) => since(now, ts) > window_ms,
        None => true,
    }
}

/// Whether a restart at `last` is too recent for another at `now`.
pub open spec fn in_cooldown(last: Option<u64>, now: u64, cooldown_ms: u64) -> bool {
    match last {
        Some(ts) => since(now, ts) < cooldown_ms,
        None => false,
    }
}

/// The state after one network failure at `now`, before any trip.
pub open spec fn counted(s: WatchdogState, cfg: ResilienceConfig, now: u64) -> WatchdogState {
    let reset = window_expired(s.first_error_at, now, cfg.network_error_window_ms);
    let first = if reset { now } else { s.first_error_at->0 };
    let base: u32 = if reset { 0 } else { s.consecutive_errors };
    WatchdogState {
        first_error_at: Some(first),
        consecutive_errors: if base == u32::MAX { u32::MAX } else { (base + 1) as u32 },
        last_restart_at: s.last_restart_at,
    }
}

/// The effect of one network failure at `now`: the next state, and the trip
/// if there is one. A trip is due when the count reaches the threshold and
/// the last restart is not within the cooldown; it clears the count and the
/// window and records the restart time.
pub open spec fn failure_outcome(s: WatchdogState, cfg: ResilienceConfig, now: u64) -> (
    WatchdogState,
    Option<RestartDecision>,
) {
    let c = counted(s, cfg, now);
    if c.consecutive_errors >= cfg.network_error_threshold && !in_cooldown(
        s.last_restart_at,
        now,
        cfg.restart_cooldown_ms,
    ) {
        (
            WatchdogState {
                first_error_at: None,
                consecutive_errors: 0,
                last_restart_at: Some(now),
            },
            Some(
                RestartDecision {
                    consecutive: c.consecutive_errors,
                    elapsed_ms: since(now, c.first_error_at->0),
                },
            ),
        )
    } else {
        (c, None)
    }
}

/// The watchdog state of a freshly started process.
pub open spec fn fresh_state() -> WatchdogState {
    WatchdogState { first_error_at: None, consecutive_errors: 0, last_restart_at: None }
}

/// With a threshold of three, a sixty-second window and a three-hundred-second
/// cooldown: of three failures within ten seconds after a fresh start only the
/// third trips, with a count of three; when three more failures come within ten
/// seconds, starting at least three hundred and ten seconds after that trip,
/// the cooldown has passed and the third of them trips again.
pub proof fn lemma_threshold_window_cooldown(
    cfg: ResilienceConfig,
    t1: u64,
    t2: u64,
    t3: u64,
    t4: u64,
    t5: u64,
    t6: u64,
)
    requires
        cfg == (ResilienceConfig {
            network_error_threshold: 3,
            network_error_window_ms: 60_000,
            restart_cooldown_ms: 300_000,
        }),
        t1 <= t2 <= t3 <= t1 + 10_000,
        t3 + 310_000 <= t4 <= t5 <= t6 <= t4 + 10_000,
    ensures
        ({
            let (s1, r1) = failure_outcome(fresh_state(), cfg, t1);
            let (s2, r2) = failure_outcome(s1, cfg, t2);
            let (s3, r3) = failure_outcome(s2, cfg, t3);
            let (s4, r4) = failure_outcome(s3, cfg, t4);
            let (s5, r5) = failure_outcome(s4, cfg, t5);
            let (s6, r6) = failure_outcome(s5, cfg, t6);
            &&& r1 is None
            &&& r2 is None
            &&& r3 == Some(RestartDecision { consecutive: 3, elapsed_ms: (t3 - t1) as u64 })
            &&& s3.consecutive_errors == 0
            &&& r4 is None
            &&& r5 is None
            &&& r6 == Some(RestartDecision { consecutive: 3, elapsed_ms: (t6 - t4) as u64 })
        }),
{
}

/// A failure that comes more than one window after the first failure of a
/// sequence that has not tripped starts the count afresh at one, and cannot
/// trip unless the threshold is one.
pub proof fn lemma_window_reset(s: WatchdogState, cfg: ResilienceConfig, now: u64)
    requires
        s.first_error_at is Some,
        since(now, s.first_error_at->0) > cfg.network_error_window_ms,
        cfg.network_error_threshold > 1,
    ensures
        failure_outcome(s, cfg, now).0.consecutive_errors == 1,
        failure_outcome(s, cfg, now).0.first_error_at == Some(now),
        failure_outcome(s, cfg, now).1 is None,
{
}

/// A trip always leaves the count at zero, with the window cleared and the
/// restart time recorded.
pub proof fn lemma_trip_resets(s: WatchdogState, cfg: ResilienceConfig, now: u64)
    requires
        failure_outcome(s, cfg, now).1 is Some,
    ensures
        failure_outcome(s, cfg, now).0 == (WatchdogState {
            first_error_at: None,
            consecutive_errors: 0,
            last_restart_at: Some(now),
        }),
{
}

impl WatchdogState {
    pub fn new() -> (r: Self)
        ensures
            r == (WatchdogState { first_error_at: None, consecutive_errors: 0, last_restart_at: None }),
    {
        WatchdogState { first_error_at: None, consecutive_errors: 0, last_restart_at: None }
    }

    /// Records one network failure at `now` and says whether to restart.
    pub fn record_failure(&mut self, cfg: &ResilienceConfig, now: u64) -> (r: Option<RestartDecision>)
        ensures
            (*final(self), r) == failure_outcome(*old(self), *cfg, now),
    {
        let reset = match self.first_error_at {
            Some(ts) => elapsed(now, ts) > cfg.network_error_window_ms,
            None => true,
        };
        if reset {
            self.first_error_at = Some(now);
            self.consecutive_errors = 0;
        }
        self.consecutive_errors = self.consecutive_errors.saturating_add(1);
        let consecutive = self.consecutive_errors;
        let first = match self.first_error_at {
            Some(ts) => ts,
            None => now,
        };
        let spent = elapsed(now, first);
        if consecutive >= cfg.network_error_threshold {
            let cooling = match self.last_restart_at {
                Some(ts) => elapsed(now, ts) < cfg.restart_cooldown_ms,
                None => false,
            };
            if !cooling {
                self.last_restart_at = Some(now);
                self.first_error_at = None;
                self.consecutive_errors = 0;
                return Some(RestartDecision { consecutive, elapsed_ms: spent });
            }
        }
        None
    }
}

fn elapsed(now: u64, earlier: u64) -> (r: u64)
    ensures
        r == since(now, earlier),
{
    if now >= earlier {
        now - earlier
    } else {
        0
    }
}

/// The kind of a listener network failure.
#[derive(Debug, Clone, Copy, PartialEq, Eq, Structural)]
pub enum NetworkIssueKind {
    Timeout,
    Connection,
    Other,
}

pub open spec fn label_text(kind: NetworkIssueKind) -> Seq<char> {
    match kind {
        NetworkIssueKind::Timeout => "요청 타임아웃"@,
        NetworkIssueKind::Connection => "TCP 연결 실패"@,
        NetworkIssueKind::Other => "기타 네트워크 오류"@,
    }
}

impl NetworkIssueKind {
    /// Human-readable name of the kind.
    pub fn label(&self) -> (r: &'static str)
        ensures
            r@ == label_text(*self),
    {
        match self {
            NetworkIssueKind::Timeout => "요청 타임아웃",
            NetworkIssueKind::Connection => "TCP 연결 실패",
            NetworkIssueKind::Other => "기타 네트워크 오류",
        }
    }
}

/// Classifies a listener error from what the transport error reports: only
/// transport errors count; a timeout is told apart from a refused
/// connection, and anything else is `Other`.
pub fn classify_network_issue(is_transport: bool, is_timeout: bool, is_connect: bool) -> (r:
    Option<NetworkIssueKind>)
    ensures
        !is_transport ==> r is None,
        is_transport && is_timeout ==> r == Some(NetworkIssueKind::Timeout),
        is_transport && !is_timeout && is_connect ==> r == Some(NetworkIssueKind::Connection),
        is_transport && !is_timeout && !is_connect ==> r == Some(NetworkIssueKind::Other),
{
    if !is_transport {
        None
    } else if is_timeout {
        Some(NetworkIssueKind::Timeout)
    } else if is_connect {
        Some(NetworkIssueKind::Connection)
    } else {
        Some(NetworkIssueKind::Other)
    }
}

/// The diagnostic text sent to administrators when the watchdog trips.
pub open spec fn summary_text(
    kind: NetworkIssueKind,
    url: Option<Seq<char>>,
    detail: Seq<char>,
    error: Seq<char>,
    consecutive: u32,
    elapsed_secs: u64,
) -> Seq<char> {
    let head = "텔레그램 업데이트 리스너가 최근 "@ + decimal(elapsed_secs as nat) + "초 동안 "@
        + decimal(consecutive as nat) + "회 연속으로 "@ + label_text(kind) + "를 보고했습니다."@;
    let with_url = match url {
        Some(u) => head + "\n- 마지막 요청 URL: "@ + u,
        None => head,
    };
    with_url + "\n- reqwest 상세: "@ + detail + "\n- teloxide 오류: "@ + error
        + "\n네트워크가 복구되지 않아 즉시 봇을 재시작합니다."@
}

/// Builds the diagnostic text for a trip.
pub fn build_summary(
    kind: NetworkIssueKind,
    url: Option<&str>,
    detail: &str,
    error: &str,
    consecutive: u32,
    elapsed_secs: u64,
) -> (r: String)
    ensures
        r@ == summary_text(
            kind,
            match url {
                Some(u) => Some(u@),
                None => None,
            },
            detail@,
            error@,
            consecutive,
            elapsed_secs,
        ),
{
    let mut m = String::new();
    append_str(&mut m, "텔레그램 업데이트 리스너가 최근 ");
    push_decimal(&mut m, elapsed_secs);
    append_str(&mut m, "초 동안 ");
    push_decimal(&mut m, consecutive as u64);
    append_str(&mut m, "회 연속으로 ");
    append_str(&mut m, kind.label());
    append_str(&mut m, "를 보고했습니다.");
    match url {
        Some(u) => {
            append_str(&mut m, "\n- 마지막 요청 URL: ");
            append_str(&mut m, u);
        },
        None => {},
    }
    append_str(&mut m, "\n- reqwest 상세: ");
    append_str(&mut m, detail);
    append_str(&mut m, "\n- teloxide 오류: ");
    append_str(&mut m, error);
    append_str(&mut m, "\n네트워크가 복구되지 않아 즉시 봇을 재시작합니다.");
    m
}

} // verus!
