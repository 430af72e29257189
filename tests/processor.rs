use spam_guard::domain::{ClassificationDecision, MessageJob, WebContent};
use spam_guard::processor::{
    batch_prompt, build_prompt, entry_header, escape_html, format_admin_log, format_web_content,
    job_entry, local_time, poll_step, select_deletions, BatchAction, BatchEvent, BatchPhase,
    BatchRun, PollStep,
};

fn job(id: i32, text: &str, urls: &[&str]) -> MessageJob {
    MessageJob {
        chat_id: -1001,
        chat_title: Some("Group <1>".to_string()),
        message_id: id,
        from_id: Some(42),
        from_display: "Alice".to_string(),
        username: Some("alice".to_string()),
        text: text.to_string(),
        urls: urls.iter().map(|u| u.to_string()).collect(),
        is_group_member: true,
        priority_score: 6,
        timestamp: 0,
    }
}

fn verdict(id: &str, spam: bool) -> (String, ClassificationDecision) {
    (id.to_string(), ClassificationDecision { spam, reason: None })
}

#[test]
fn end_to_end_deletes_only_the_spam_message() {
    let jobs = vec![job(1, "buy coins", &[]), job(2, "hello", &[])];
    let (mut run, first) = BatchRun::start(jobs, Some(-555), "Asia/Seoul".to_string(), false);
    let prompt = match first {
        BatchAction::Classify(p) => p,
        _ => panic!("expected a classification"),
    };
    assert_eq!(
        prompt,
        "1: [Alice | alice | 멤버] [우선순위: 6] buy coins\n\n2: [Alice | alice | 멤버] [우선순위: 6] hello"
    );
    let mut deletes = Vec::new();
    let mut notices = Vec::new();
    let mut action = run.step(BatchEvent::Classified(vec![verdict("1", true), verdict("2", false)]), false);
    loop {
        action = match action {
            BatchAction::Delete { chat_id, message_id } => {
                deletes.push((chat_id, message_id));
                run.step(BatchEvent::Deleted { ok: true, at: 60 }, false)
            }
            BatchAction::Notify { chat_id, text } => {
                notices.push((chat_id, text));
                run.step(BatchEvent::Notified, false)
            }
            BatchAction::Finished => break,
            _ => panic!("unexpected action"),
        };
    }
    assert_eq!(deletes, vec![(-1001, 1)]);
    assert_eq!(notices.len(), 1);
    assert_eq!(notices[0].0, -555);
    assert_eq!(run.phase(), BatchPhase::Done);
}

#[test]
fn shutdown_during_fetch_drops_the_batch() {
    let jobs = vec![job(7, "see https://x.example", &["https://x.example"])];
    let (mut run, first) = BatchRun::start(jobs, Some(-555), "UTC".to_string(), false);
    match first {
        BatchAction::Fetch(u) => assert_eq!(u, "https://x.example"),
        _ => panic!("expected a fetch"),
    }
    assert!(matches!(run.step(BatchEvent::Interrupted, true), BatchAction::Finished));
    assert_eq!(run.phase(), BatchPhase::Done);
    assert!(matches!(
        run.step(BatchEvent::Classified(vec![verdict("7", true)]), false),
        BatchAction::Finished
    ));
    assert!(matches!(run.step(BatchEvent::Deleted { ok: true, at: 1 }, false), BatchAction::Finished));
}

#[test]
fn fetched_pages_enrich_the_prompt() {
    let jobs = vec![job(3, "look", &["https://a.example", "https://b.example"])];
    let (mut run, first) = BatchRun::start(jobs, None, "UTC".to_string(), false);
    assert!(matches!(first, BatchAction::Fetch(ref u) if u == "https://a.example"));
    let page = WebContent { title: Some("Title".to_string()), site_name: None, content: Some("Body".to_string()) };
    let second = run.step(BatchEvent::Fetched(Some(page)), false);
    assert!(matches!(second, BatchAction::Fetch(ref u) if u == "https://b.example"));
    let third = run.step(BatchEvent::Fetched(None), false);
    match third {
        BatchAction::Classify(p) => assert_eq!(
            p,
            "3: [Alice | alice | 멤버] [우선순위: 6] look\n웹페이지 정보 (https://a.example):\n제목: Title\n내용: Body\n"
        ),
        _ => panic!("expected a classification"),
    }
}

#[test]
fn shutdown_between_jobs_stops_before_the_next_job() {
    let jobs = vec![job(1, "a", &["https://a.example"]), job(2, "b", &[])];
    let (mut run, first) = BatchRun::start(jobs, None, "UTC".to_string(), false);
    assert!(matches!(first, BatchAction::Fetch(_)));
    assert!(matches!(run.step(BatchEvent::Fetched(None), true), BatchAction::Finished));
    assert_eq!(run.phase(), BatchPhase::Done);
}

#[test]
fn failures_discard_the_batch() {
    let (mut run, _) = BatchRun::start(vec![job(1, "a", &["https://a.example"])], None, "UTC".to_string(), false);
    assert!(matches!(run.step(BatchEvent::FetchFailed, false), BatchAction::Finished));
    let (mut run2, first) = BatchRun::start(vec![job(1, "a", &[])], None, "UTC".to_string(), false);
    assert!(matches!(first, BatchAction::Classify(_)));
    assert!(matches!(run2.step(BatchEvent::ClassifyFailed, false), BatchAction::Finished));
}

#[test]
fn empty_or_late_batches_do_nothing() {
    let (run, a) = BatchRun::start(Vec::new(), None, "UTC".to_string(), false);
    assert!(matches!(a, BatchAction::Finished));
    assert_eq!(run.phase(), BatchPhase::Done);
    let (_, b) = BatchRun::start(vec![job(1, "a", &[])], None, "UTC".to_string(), true);
    assert!(matches!(b, BatchAction::Finished));
}

#[test]
fn failed_deletion_sends_no_notice() {
    let (mut run, _) = BatchRun::start(vec![job(1, "a", &[]), job(2, "b", &[])], Some(-9), "UTC".to_string(), false);
    let a = run.step(BatchEvent::Classified(vec![verdict("2", true), verdict("1", true)]), false);
    assert!(matches!(a, BatchAction::Delete { chat_id: -1001, message_id: 2 }));
    let b = run.step(BatchEvent::Deleted { ok: false, at: 5 }, false);
    assert!(matches!(b, BatchAction::Delete { chat_id: -1001, message_id: 1 }));
    let c = run.step(BatchEvent::Deleted { ok: true, at: 5 }, false);
    assert!(matches!(c, BatchAction::Notify { chat_id: -9, .. }));
    assert!(matches!(run.step(BatchEvent::Notified, false), BatchAction::Finished));
}

#[test]
fn no_notice_without_admin_group() {
    for admin in [None, Some(0)] {
        let (mut run, _) = BatchRun::start(vec![job(1, "a", &[])], admin, "UTC".to_string(), false);
        let a = run.step(BatchEvent::Classified(vec![verdict("1", true)]), false);
        assert!(matches!(a, BatchAction::Delete { .. }));
        assert!(matches!(run.step(BatchEvent::Deleted { ok: true, at: 5 }, false), BatchAction::Finished));
    }
}

#[test]
fn deletions_follow_verdicts() {
    let jobs = vec![job(1, "a", &[]), job(2, "b", &[]), job(1, "c", &[])];
    let ds = vec![verdict("1", true), verdict("9", true), verdict("2", false), verdict("1", true), verdict("01", true)];
    assert_eq!(select_deletions(&ds, &jobs), vec![2]);
    assert!(select_deletions(&Vec::new(), &jobs).is_empty());
}

#[test]
fn html_escaping() {
    assert_eq!(escape_html("<a href=\"x\">Tom & Jerry's</a>"), "&lt;a href=&quot;x&quot;&gt;Tom &amp; Jerry&#39;s&lt;/a&gt;");
    assert_eq!(escape_html("평문"), "평문");
}

#[test]
fn web_content_lines() {
    let c = WebContent { title: None, site_name: Some("Site".to_string()), content: Some("Text".to_string()) };
    assert_eq!(format_web_content(&c), "사이트: Site\n내용: Text\n");
    let e = WebContent { title: None, site_name: None, content: None };
    assert_eq!(format_web_content(&e), "");
}

#[test]
fn prompt_joins_entries() {
    assert_eq!(build_prompt(&vec!["a".to_string(), "b".to_string(), "c".to_string()]), "a\n\nb\n\nc");
    assert_eq!(build_prompt(&Vec::new()), "");
    let mut j = job(-5, "x", &["u1"]);
    j.username = None;
    j.is_group_member = false;
    assert_eq!(entry_header(&j), "-5: [Alice | - | 비멤버] [우선순위: 6] x");
    let contents = vec![Some(WebContent { title: Some("T".to_string()), site_name: None, content: None })];
    assert_eq!(job_entry(&j, &contents), "-5: [Alice | - | 비멤버] [우선순위: 6] x\n웹페이지 정보 (u1):\n제목: T\n");
    let p = batch_prompt(&vec![j.clone(), job(1, "y", &[])], &vec![contents, Vec::new()]);
    assert_eq!(p, "-5: [Alice | - | 비멤버] [우선순위: 6] x\n웹페이지 정보 (u1):\n제목: T\n\n\n1: [Alice | alice | 멤버] [우선순위: 6] y");
}

#[test]
fn times_in_zone() {
    assert_eq!(local_time(0, "Asia/Seoul"), "1970-01-01 09:00:00");
    assert_eq!(local_time(0, "UTC"), "1970-01-01 00:00:00");
    assert_eq!(local_time(0, "Not/AZone"), "1970-01-01 09:00:00");
}

#[test]
fn admin_log_layout() {
    let mut j = job(1, "buy <now>", &[]);
    j.from_id = None;
    let text = format_admin_log(&j, 60, "UTC");
    assert_eq!(
        text,
        "<b>스팸 삭제 로그</b>\n\n채팅방: Group &lt;1&gt;\n채팅방 ID: -1001\n사용자: Alice\n사용자 ID: unknown\n메시지 전송 시각: 1970-01-01 00:00:00\n삭제 완료 시각: 1970-01-01 00:01:00\n\n스팸 메시지:\n<pre>buy &lt;now&gt;</pre>"
    );
}

#[test]
fn poll_decisions() {
    assert_eq!(poll_step(true, 3), PollStep::Stop);
    assert_eq!(poll_step(false, 0), PollStep::Wait);
    assert_eq!(poll_step(false, 2), PollStep::Process);
}
