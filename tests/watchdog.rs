use spam_guard::config::ResilienceConfig;
use spam_guard::watchdog::{build_summary, classify_network_issue, NetworkIssueKind, RestartDecision, WatchdogState};

fn cfg() -> ResilienceConfig {
    ResilienceConfig {
        network_error_threshold: 3,
        network_error_window_ms: 60_000,
        restart_cooldown_ms: 300_000,
    }
}

#[test]
fn three_quick_failures_trip_once() {
    let c = cfg();
    let mut s = WatchdogState::new();
    assert_eq!(s.record_failure(&c, 1_000), None);
    assert_eq!(s.record_failure(&c, 5_000), None);
    assert_eq!(
        s.record_failure(&c, 11_000),
        Some(RestartDecision { consecutive: 3, elapsed_ms: 10_000 })
    );
    assert_eq!(s.consecutive_errors, 0);
    assert_eq!(s.first_error_at, None);
    assert_eq!(s.last_restart_at, Some(11_000));
}

#[test]
fn failures_after_cooldown_trip_again() {
    let c = cfg();
    let mut s = WatchdogState::new();
    s.record_failure(&c, 0);
    s.record_failure(&c, 1_000);
    assert!(s.record_failure(&c, 2_000).is_some());
    let later = 2_000 + 310_000;
    assert_eq!(s.record_failure(&c, later), None);
    assert_eq!(s.record_failure(&c, later + 1_000), None);
    assert_eq!(
        s.record_failure(&c, later + 2_000),
        Some(RestartDecision { consecutive: 3, elapsed_ms: 2_000 })
    );
}

#[test]
fn trip_inside_cooldown_is_suppressed() {
    let c = cfg();
    let mut s = WatchdogState::new();
    s.record_failure(&c, 0);
    s.record_failure(&c, 1_000);
    assert!(s.record_failure(&c, 2_000).is_some());
    s.record_failure(&c, 100_000);
    s.record_failure(&c, 101_000);
    assert_eq!(s.record_failure(&c, 102_000), None);
    assert_eq!(s.consecutive_errors, 3);
    assert_eq!(s.last_restart_at, Some(2_000));
}

#[test]
fn failure_after_window_restarts_count() {
    let c = cfg();
    let mut s = WatchdogState::new();
    assert_eq!(s.record_failure(&c, 0), None);
    assert_eq!(s.record_failure(&c, 30_000), None);
    assert_eq!(s.record_failure(&c, 61_000), None);
    assert_eq!(s.consecutive_errors, 1);
    assert_eq!(s.first_error_at, Some(61_000));
}

#[test]
fn network_issue_kinds() {
    assert_eq!(classify_network_issue(false, true, true), None);
    assert_eq!(classify_network_issue(true, true, true), Some(NetworkIssueKind::Timeout));
    assert_eq!(classify_network_issue(true, false, true), Some(NetworkIssueKind::Connection));
    assert_eq!(classify_network_issue(true, false, false), Some(NetworkIssueKind::Other));
    assert_eq!(NetworkIssueKind::Timeout.label(), "요청 타임아웃");
    assert_eq!(NetworkIssueKind::Connection.label(), "TCP 연결 실패");
    assert_eq!(NetworkIssueKind::Other.label(), "기타 네트워크 오류");
}

#[test]
fn summary_text() {
    let s = build_summary(NetworkIssueKind::Timeout, Some("https://api.example/x"), "timed out", "net err", 3, 12);
    assert_eq!(
        s,
        "텔레그램 업데이트 리스너가 최근 12초 동안 3회 연속으로 요청 타임아웃를 보고했습니다.\n- 마지막 요청 URL: https://api.example/x\n- reqwest 상세: timed out\n- teloxide 오류: net err\n네트워크가 복구되지 않아 즉시 봇을 재시작합니다."
    );
    let t = build_summary(NetworkIssueKind::Other, None, "d", "e", 10, 0);
    assert_eq!(
        t,
        "텔레그램 업데이트 리스너가 최근 0초 동안 10회 연속으로 기타 네트워크 오류를 보고했습니다.\n- reqwest 상세: d\n- teloxide 오류: e\n네트워크가 복구되지 않아 즉시 봇을 재시작합니다."
    );
}
