//! The batch pipeline: drained jobs become one classifier prompt, and the
//! verdicts become deletions and audit notices.
use crate::domain::{ClassificationDecision, MessageJob, WebContent};
use crate::text::{append_str, chars_of, push_char, push_signed_decimal, signed_decimal};
use std::fmt::Write;
use vstd::prelude::*;

verus! {

pub open spec fn opt_text(o: Option<String>, default: Seq<char>) -> Seq<char> {
    match o {
        Some(s) => s@,
        None => default,
    }
}

/// The prompt entry of a job before any web content: its message id, the
/// sender, the username or `-`, the membership flag, the score and the text.
pub open spec fn entry_header_text(job: MessageJob) -> Seq<char> {
    signed_decimal(job.message_id as int) + ": ["@ + job.from_display@ + " | "@ + opt_text(
        job.username,
        "-"@,
    ) + " | "@ + (if job.is_group_member {
        "멤버"@
    } else {
        "비멤버"@
    }) + "] [우선순위: "@ + signed_decimal(job.priority_score as int) + "] "@ + job.text@
}

/// Starts the prompt entry of `job`.
pub fn entry_header(job: &MessageJob) -> (r: String)
    ensures
        r@ == entry_header_text(*job),
{
    let mut e = String::new();
    push_signed_decimal(&mut e, job.message_id as i64);
    append_str(&mut e, ": [");
    append_str(&mut e, job.from_display.as_str());
    append_str(&mut e, " | ");
    match &job.username {
        Some(u) => append_str(&mut e, u.as_str()),
        None => append_str(&mut e, "-"),
    }
    append_str(&mut e, " | ");
    if job.is_group_member {
        append_str(&mut e, "멤버");
    } else {
        append_str(&mut e, "비멤버");
    }
    append_str(&mut e, "] [우선순위: ");
    push_signed_decimal(&mut e, job.priority_score as i64);
    append_str(&mut e, "] ");
    append_str(&mut e, job.text.as_str());
    e
}

pub open spec fn labelled_line(label: Seq<char>, value: Option<String>) -> Seq<char> {
    match value {
        Some(v) => label + v@ + "\n"@,
        None => Seq::empty(),
    }
}

/// The lines that describe a page: title, site and text, each when present.
pub open spec fn web_content_text(c: WebContent) -> Seq<char> {
    labelled_line("제목: "@, c.title) + labelled_line("사이트: "@, c.site_name) + labelled_line(
        "내용: "@,
        c.content,
    )
}

fn push_labelled(out: &mut String, label: &str, value: &Option<String>)
    ensures
        final(out)@ == old(out)@ + labelled_line(label@, *value),
{
    match value {
        Some(v) => {
            append_str(out, label);
            append_str(out, v.as_str());
            append_str(out, "\n");
        },
        None => {
            assert(old(out)@ + Seq::<char>::empty() =~= old(out)@);
        },
    }
}

/// Describes a fetched page for the prompt.
pub fn format_web_content(content: &WebContent) -> (r: String)
    ensures
        r@ == web_content_text(*content),
{
    let mut out = String::new();
    push_labelled(&mut out, "제목: ", &content.title);
    push_labelled(&mut out, "사이트: ", &content.site_name);
    push_labelled(&mut out, "내용: ", &content.content);
    assert(out@ =~= web_content_text(*content));
    out
}

/// What a fetched page adds to the entry of the job that links to it.
pub open spec fn web_section_text(url: Seq<char>, c: WebContent) -> Seq<char> {
    "\n웹페이지 정보 ("@ + url + "):\n"@ + web_content_text(c)
}

/// Appends the description of the page at `url` to an entry.
pub fn append_web_section(entry: &mut String, url: &str, content: &WebContent)
    ensures
        final(entry)@ == old(entry)@ + web_section_text(url@, *content),
{
    append_str(entry, "\n웹페이지 정보 (");
    append_str(entry, url);
    append_str(entry, "):\n");
    let w = format_web_content(content);
    append_str(entry, w.as_str());
    assert(entry@ =~= old(entry)@ + web_section_text(url@, *content));
}

/// The entries joined by blank lines.
pub open spec fn joined_entries(entries: Seq<Seq<char>>) -> Seq<char>
    decreases entries.len(),
{
    if entries.len() == 0 {
        Seq::empty()
    } else if entries.len() == 1 {
        entries[0]
    } else {
        joined_entries(entries.drop_last()) + "\n\n"@ + entries.last()
    }
}

/// Joins the entries of a batch into one prompt.
pub fn build_prompt(entries: &Vec<String>) -> (r: String)
    ensures
        r@ == joined_entries(entries@.map_values(|e: String| e@)),
{
    let ghost es = entries@.map_values(|e: String| e@);
    let mut out = String::new();
    let mut i: usize = 0;
    while i < entries.len()
        invariant
            i <= entries@.len(),
            es == entries@.map_values(|e: String| e@),
            out@ == joined_entries(es.take(i as int)),
        decreases entries@.len() - i,
    {
        assert(es.take(i + 1).drop_last() =~= es.take(i as int));
        if i > 0 {
            append_str(&mut out, "\n\n");
        }
        append_str(&mut out, entries[i].as_str());
        proof {
            if i == 0 {
                assert(out@ =~= joined_entries(es.take(1)));
            }
        }
        i = i + 1;
    }
    assert(es.take(i as int) =~= es);
    out
}

/// How a character is written in HTML text.
pub open spec fn html_char(c: char) -> Seq<char> {
    if c == '&' {
        "&amp;"@
    } else if c == '<' {
        "&lt;"@
    } else if c == '>' {
        "&gt;"@
    } else if c == '"' {
        "&quot;"@
    } else if c == '\'' {
        "&#39;"@
    } else {
        seq![c]
    }
}

/// `s` with the five HTML-special characters escaped.
pub open spec fn html_escaped(s: Seq<char>) -> Seq<char>
    decreases s.len(),
{
    if s.len() == 0 {
        Seq::empty()
    } else {
        html_escaped(s.drop_last()) + html_char(s.last())
    }
}

/// Escapes text for an HTML message.
pub fn escape_html(text: &str) -> (r: String)
    ensures
        r@ == html_escaped(text@),
{
    let v = chars_of(text);
    let mut out = String::new();
    let mut i: usize = 0;
    while i < v.len()
        invariant
            i <= v@.len(),
            v@ == text@,
            out@ == html_escaped(v@.take(i as int)),
        decreases v@.len() - i,
    {
        let c = v[i];
        assert(v@.take(i + 1).drop_last() =~= v@.take(i as int));
        if c == '&' {
            append_str(&mut out, "&amp;");
        } else if c == '<' {
            append_str(&mut out, "&lt;");
        } else if c == '>' {
            append_str(&mut out, "&gt;");
        } else if c == '"' {
            append_str(&mut out, "&quot;");
        } else if c == '\'' {
            append_str(&mut out, "&#39;");
        } else {
            push_char(&mut out, c);
            assert(out@ =~= html_escaped(v@.take(i as int)) + seq![c]);
        }
        i = i + 1;
    }
    assert(v@.take(i as int) =~= v@);
    out
}

/// The time `secs` seconds after the Unix epoch, shown in time zone `zone`
/// by the strftime-style `pattern`; `None` when the zone is unknown, the
/// time is out of range or the pattern is invalid.
pub uninterp spec fn zoned_time(secs: int, zone: Seq<char>, pattern: Seq<char>) -> Option<Seq<char>>;

/// Relies on chrono-tz's parsing of zone names into `Tz`, and on chrono's
/// `DateTime::from_timestamp`, `with_timezone` and `format`.
#[verifier::external_body]
fn format_zoned_time(secs: i64, zone: &str, pattern: &str) -> (r: Option<String>)
    ensures
        match r {
            Some(s) => zoned_time(secs as int, zone@, pattern@) == Some(s@),
            None => zoned_time(secs as int, zone@, pattern@) is None,
        },
{
    let tz: chrono_tz::Tz = zone.parse().ok()?;
    let t = chrono::DateTime::from_timestamp(secs, 0)?;
    let mut out = String::new();
    write!(out, "{}", t.with_timezone(&tz).format(pattern)).ok()?;
    Some(out)
}

/// The zone used when the configured one is unknown.
pub const FALLBACK_ZONE: &'static str = "Asia/Seoul";

/// The pattern of times in audit notices.
pub const TIME_PATTERN: &'static str = "%Y-%m-%d %H:%M:%S";

/// A time as audit notices show it: in the configured zone, else in the
/// fallback zone, else as seconds since the epoch.
pub open spec fn local_time_text(secs: int, zone: Seq<char>) -> Seq<char> {
    match zoned_time(secs, zone, TIME_PATTERN@) {
        Some(t) => t,
        None => match zoned_time(secs, FALLBACK_ZONE@, TIME_PATTERN@) {
            Some(t) => t,
            None => signed_decimal(secs),
        },
    }
}

/// Shows a time for an audit notice.
pub fn local_time(secs: i64, zone: &str) -> (r: String)
    ensures
        r@ == local_time_text(secs as int, zone@),
{
    match format_zoned_time(secs, zone, TIME_PATTERN) {
        Some(t) => t,
        None => match format_zoned_time(secs, FALLBACK_ZONE, TIME_PATTERN) {
            Some(t) => t,
            None => {
                let mut s = String::new();
                push_signed_decimal(&mut s, secs);
                s
            },
        },
    }
}

/// The audit notice of a deleted message, deleted at `deleted_at` (seconds
/// since the epoch), with times shown in `zone`.
pub open spec fn admin_log_text(job: MessageJob, deleted_at: int, zone: Seq<char>) -> Seq<char> {
    "<b>스팸 삭제 로그</b>\n\n채팅방: "@ + html_escaped(opt_text(job.chat_title, "Unknown"@))
        + "\n채팅방 ID: "@ + signed_decimal(job.chat_id as int) + "\n사용자: "@ + html_escaped(
        job.from_display@,
    ) + "\n사용자 ID: "@ + html_escaped(
        match job.from_id {
            Some(id) => signed_decimal(id as int),
            None => "unknown"@,
        },
    ) + "\n메시지 전송 시각: "@ + local_time_text(job.timestamp as int, zone)
        + "\n삭제 완료 시각: "@ + local_time_text(deleted_at, zone) + "\n\n스팸 메시지:\n<pre>"@
        + html_escaped(job.text@) + "</pre>"@
}

/// Writes the audit notice of a deleted message.
pub fn format_admin_log(job: &MessageJob, deleted_at: i64, zone: &str) -> (r: String)
    ensures
        r@ == admin_log_text(*job, deleted_at as int, zone@),
{
    let mut m = String::new();
    append_str(&mut m, "<b>스팸 삭제 로그</b>\n\n채팅방: ");
    let title = match &job.chat_title {
        Some(t) => escape_html(t.as_str()),
        None => escape_html("Unknown"),
    };
    append_str(&mut m, title.as_str());
    append_str(&mut m, "\n채팅방 ID: ");
    push_signed_decimal(&mut m, job.chat_id);
    append_str(&mut m, "\n사용자: ");
    let from = escape_html(job.from_display.as_str());
    append_str(&mut m, from.as_str());
    append_str(&mut m, "\n사용자 ID: ");
    let mut uid = String::new();
    match job.from_id {
        Some(id) => push_signed_decimal(&mut uid, id),
        None => append_str(&mut uid, "unknown"),
    }
    let uid_escaped = escape_html(uid.as_str());
    append_str(&mut m, uid_escaped.as_str());
    append_str(&mut m, "\n메시지 전송 시각: ");
    let sent = local_time(job.timestamp, zone);
    append_str(&mut m, sent.as_str());
    append_str(&mut m, "\n삭제 완료 시각: ");
    let deleted = local_time(deleted_at, zone);
    append_str(&mut m, deleted.as_str());
    append_str(&mut m, "\n\n스팸 메시지:\n<pre>");
    let body = escape_html(job.text.as_str());
    append_str(&mut m, body.as_str());
    append_str(&mut m, "</pre>");
    assert(uid@ =~= match job.from_id {
        Some(id) => signed_decimal(id as int),
        None => "unknown"@,
    });
    m
}

/// The link texts of a job.
pub open spec fn url_texts(job: MessageJob) -> Seq<Seq<char>> {
    job.urls@.map_values(|u: String| u@)
}

/// The web sections of a job's entry, for the fetch results `contents` of
/// its first links: a link whose page gave nothing adds nothing.
pub open spec fn sections_text(urls: Seq<Seq<char>>, contents: Seq<Option<WebContent>>) -> Seq<char>
    decreases contents.len(),
{
    if contents.len() == 0 {
        Seq::empty()
    } else {
        sections_text(urls, contents.drop_last()) + match contents.last() {
            Some(c) => web_section_text(urls[contents.len() - 1], c),
            None => Seq::empty(),
        }
    }
}

/// The full prompt entry of a job, given what fetching its links gave.
pub open spec fn entry_text(job: MessageJob, contents: Seq<Option<WebContent>>) -> Seq<char> {
    entry_header_text(job) + sections_text(url_texts(job), contents)
}

/// Builds the prompt entry of a job from the fetch results of its links.
pub fn job_entry(job: &MessageJob, contents: &Vec<Option<WebContent>>) -> (r: String)
    requires
        contents@.len() <= job.urls@.len(),
    ensures
        r@ == entry_text(*job, contents@),
{
    let mut e = entry_header(job);
    let mut i: usize = 0;
    while i < contents.len()
        invariant
            i <= contents@.len() <= job.urls@.len(),
            e@ == entry_header_text(*job) + sections_text(url_texts(*job), contents@.take(i as int)),
        decreases contents@.len() - i,
    {
        assert(contents@.take(i + 1).drop_last() =~= contents@.take(i as int));
        let ghost before = e@;
        match &contents[i] {
            Some(c) => {
                append_web_section(&mut e, job.urls[i].as_str(), c);
            },
            None => {},
        }
        assert(e@ =~= entry_header_text(*job) + sections_text(url_texts(*job), contents@.take(i + 1)));
        i = i + 1;
    }
    assert(contents@.take(i as int) =~= contents@);
    e
}

pub open spec fn contents_view(contents: Seq<Vec<Option<WebContent>>>) -> Seq<Seq<Option<WebContent>>> {
    contents.map_values(|c: Vec<Option<WebContent>>| c@)
}

/// Fetch results fit a batch: one list per job, none longer than its links.
pub open spec fn contents_fit(jobs: Seq<MessageJob>, contents: Seq<Seq<Option<WebContent>>>) -> bool {
    &&& contents.len() == jobs.len()
    &&& forall|i: int| 0 <= i < jobs.len() ==> #[trigger] contents[i].len() <= jobs[i].urls@.len()
}

/// The entries of a batch, one per job, in batch order.
pub open spec fn batch_entries(jobs: Seq<MessageJob>, contents: Seq<Seq<Option<WebContent>>>) -> Seq<
    Seq<char>,
> {
    Seq::new(jobs.len(), |i: int| entry_text(jobs[i], contents[i]))
}

/// The classifier prompt of a batch: its entries joined by blank lines.
pub open spec fn batch_prompt_text(jobs: Seq<MessageJob>, contents: Seq<Seq<Option<WebContent>>>) -> Seq<
    char,
> {
    joined_entries(batch_entries(jobs, contents))
}

/// Builds the classifier prompt of a batch from its jobs and fetch results.
pub fn batch_prompt(jobs: &Vec<MessageJob>, contents: &Vec<Vec<Option<WebContent>>>) -> (r: String)
    requires
        contents_fit(jobs@, contents_view(contents@)),
    ensures
        r@ == batch_prompt_text(jobs@, contents_view(contents@)),
{
    let ghost cs = contents_view(contents@);
    let mut entries: Vec<String> = Vec::new();
    let mut i: usize = 0;
    while i < jobs.len()
        invariant
            i <= jobs@.len(),
            cs == contents_view(contents@),
            contents_fit(jobs@, cs),
            entries@.len() == i,
            forall|k: int| 0 <= k < i ==> #[trigger] entries@[k]@ == entry_text(jobs@[k], cs[k]),
        decreases jobs@.len() - i,
    {
        assert(cs[i as int] == contents@[i as int]@);
        let e = job_entry(&jobs[i], &contents[i]);
        entries.push(e);
        i = i + 1;
    }
    assert(entries@.map_values(|e: String| e@) =~= batch_entries(jobs@, cs));
    build_prompt(&entries)
}

/// The index of the last job of `jobs` whose message id is written `key`.
pub open spec fn job_for_key(jobs: Seq<MessageJob>, key: Seq<char>) -> Option<int>
    decreases jobs.len(),
{
    if jobs.len() == 0 {
        None
    } else if signed_decimal(jobs.last().message_id as int) == key {
        Some(jobs.len() - 1)
    } else {
        job_for_key(jobs.drop_last(), key)
    }
}

/// Whether some verdict among `ds` marks `key` as spam.
pub open spec fn spam_key_among(ds: Seq<(String, ClassificationDecision)>, key: Seq<char>) -> bool {
    exists|i: int| 0 <= i < ds.len() && ds[i].1.spam && #[trigger] ds[i].0@ == key
}

/// The jobs to delete for the verdicts `ds`, in verdict order: one for each
/// spam verdict whose key names a job of the batch (the last job with that
/// id) and that is the first spam verdict with that key. Other verdicts, and
/// keys that name no job, cause nothing.
pub open spec fn deletion_targets(ds: Seq<(String, ClassificationDecision)>, jobs: Seq<MessageJob>) -> Seq<int>
    decreases ds.len(),
{
    if ds.len() == 0 {
        Seq::empty()
    } else {
        let prev = deletion_targets(ds.drop_last(), jobs);
        let d = ds.last();
        if d.1.spam && job_for_key(jobs, d.0@) is Some && !spam_key_among(ds.drop_last(), d.0@) {
            prev.push(job_for_key(jobs, d.0@)->0)
        } else {
            prev
        }
    }
}

proof fn lemma_job_for_key_bounds(jobs: Seq<MessageJob>, key: Seq<char>)
    ensures
        job_for_key(jobs, key) is Some ==> 0 <= job_for_key(jobs, key)->0 < jobs.len(),
    decreases jobs.len(),
{
    if jobs.len() > 0 {
        lemma_job_for_key_bounds(jobs.drop_last(), key);
    }
}

proof fn lemma_targets_bounds(ds: Seq<(String, ClassificationDecision)>, jobs: Seq<MessageJob>)
    ensures
        forall|k: int| 0 <= k < deletion_targets(ds, jobs).len() ==> 0 <= #[trigger] deletion_targets(ds, jobs)[k] < jobs.len(),
    decreases ds.len(),
{
    if ds.len() > 0 {
        lemma_targets_bounds(ds.drop_last(), jobs);
        lemma_job_for_key_bounds(jobs, ds.last().0@);
        let prev = deletion_targets(ds.drop_last(), jobs);
        let cur = deletion_targets(ds, jobs);
        assert forall|k: int| 0 <= k < cur.len() implies 0 <= #[trigger] cur[k] < jobs.len() by {
            if k < prev.len() {
                assert(cur[k] == prev[k]);
            }
        }
    }
}

/// The index of the last job whose id is written `key`.
fn find_job(jobs: &Vec<MessageJob>, key: &String) -> (r: Option<usize>)
    ensures
        match r {
            Some(i) => job_for_key(jobs@, key@) == Some(i as int),
            None => job_for_key(jobs@, key@) is None,
        },
{
    let mut n: usize = jobs.len();
    assert(jobs@.take(n as int) =~= jobs@);
    while n > 0
        invariant
            n <= jobs@.len(),
            job_for_key(jobs@, key@) == job_for_key(jobs@.take(n as int), key@),
        decreases n,
    {
        let mut id = String::new();
        push_signed_decimal(&mut id, jobs[n - 1].message_id as i64);
        assert(jobs@.take(n as int).last() == jobs@[n - 1]);
        if id == *key {
            return Some(n - 1);
        }
        assert(jobs@.take(n as int).drop_last() =~= jobs@.take(n - 1));
        n = n - 1;
    }
    None
}

/// Whether a spam verdict among the first `end` of `ds` has key `key`.
fn spam_key_before(ds: &Vec<(String, ClassificationDecision)>, end: usize, key: &String) -> (r: bool)
    requires
        end <= ds@.len(),
    ensures
        r == spam_key_among(ds@.take(end as int), key@),
{
    let mut i: usize = 0;
    while i < end
        invariant
            i <= end <= ds@.len(),
            !spam_key_among(ds@.take(i as int), key@),
        decreases end - i,
    {
        if ds[i].1.spam && ds[i].0 == *key {
            assert(ds@.take(end as int)[i as int] == ds@[i as int]);
            return true;
        }
        assert forall|k: int| 0 <= k < i + 1 && ds@.take(i + 1)[k].1.spam implies #[trigger] ds@.take(i + 1)[k].0@ != key@ by {
            if k < i {
                assert(ds@.take(i + 1)[k] == ds@.take(i as int)[k]);
            }
        }
        i = i + 1;
    }
    false
}

/// The jobs to delete, by index into `jobs`, for the classifier's verdicts.
pub fn select_deletions(decisions: &Vec<(String, ClassificationDecision)>, jobs: &Vec<MessageJob>) -> (r: Vec<usize>)
    ensures
        r@.map_values(|i: usize| i as int) == deletion_targets(decisions@, jobs@),
        forall|k: int| 0 <= k < r@.len() ==> #[trigger] r@[k] < jobs@.len(),
{
    let mut out: Vec<usize> = Vec::new();
    let mut i: usize = 0;
    while i < decisions.len()
        invariant
            i <= decisions@.len(),
            out@.map_values(|x: usize| x as int) == deletion_targets(decisions@.take(i as int), jobs@),
        decreases decisions@.len() - i,
    {
        let ghost d = decisions@.take(i + 1);
        assert(d.drop_last() =~= decisions@.take(i as int));
        assert(d.last() == decisions@[i as int]);
        let key = &decisions[i].0;
        if decisions[i].1.spam {
            let found = find_job(jobs, key);
            match found {
                Some(j) => {
                    if !spam_key_before(decisions, i, key) {
                        let ghost before = out@.map_values(|x: usize| x as int);
                        out.push(j);
                        assert(out@.map_values(|x: usize| x as int) =~= before.push(j as int));
                    }
                },
                None => {},
            }
        }
        i = i + 1;
    }
    assert(decisions@.take(i as int) =~= decisions@);
    proof {
        lemma_targets_bounds(decisions@, jobs@);
        assert forall|k: int| 0 <= k < out@.len() implies #[trigger] out@[k] < jobs@.len() by {
            assert(out@.map_values(|x: usize| x as int)[k] == out@[k] as int);
        }
    }
    out
}

/// Where a batch stands.
#[derive(Debug, Clone, Copy, PartialEq, Eq, Structural)]
pub enum BatchPhase {
    /// A link of a job is being fetched.
    Enriching,
    /// The prompt is with the classifier.
    Classifying,
    /// A flagged message is being deleted.
    Applying,
    /// The audit notice of a deletion is being sent.
    Notifying,
    /// Nothing more will happen to this batch.
    Done,
}

/// What the driver of a batch is to do next.
pub enum BatchAction {
    /// Fetch the page at this link; answer `Fetched`, `FetchFailed` or,
    /// when shutdown wins the race, `Interrupted`.
    Fetch(String),
    /// Send this prompt to the classifier; answer `Classified`,
    /// `ClassifyFailed` or `Interrupted`.
    Classify(String),
    /// Delete this message; answer `Deleted`.
    Delete { chat_id: i64, message_id: i32 },
    /// Send this audit notice to this chat; answer `Notified`.
    Notify { chat_id: i64, text: String },
    /// The batch is over.
    Finished,
}

/// How the last action turned out.
pub enum BatchEvent {
    Fetched(Option<WebContent>),
    FetchFailed,
    Classified(Vec<(String, ClassificationDecision)>),
    ClassifyFailed,
    /// Whether the deletion succeeded, and when (seconds since the epoch).
    Deleted { ok: bool, at: i64 },
    Notified,
    /// Shutdown was signalled while the fetch or the classification ran.
    Interrupted,
}

/// One batch on its way from drained jobs to moderation actions.
pub struct BatchRun {
    jobs: Vec<MessageJob>,
    admin_group_id: Option<i64>,
    zone: String,
    phase: BatchPhase,
    job: usize,
    contents: Vec<Vec<Option<WebContent>>>,
    targets: Vec<usize>,
    target: usize,
}

/// The abstract state of a batch. During enrichment `contents[i]` holds the
/// fetch results of the first links of job `i`, for every job up to `job`.
pub struct BatchView {
    pub jobs: Seq<MessageJob>,
    pub admin_group_id: Option<i64>,
    pub zone: Seq<char>,
    pub phase: BatchPhase,
    pub job: int,
    pub contents: Seq<Seq<Option<WebContent>>>,
    pub targets: Seq<int>,
    pub target: int,
}

impl View for BatchRun {
    type V = BatchView;

    closed spec fn view(&self) -> BatchView {
        BatchView {
            jobs: self.jobs@,
            admin_group_id: self.admin_group_id,
            zone: self.zone@,
            phase: self.phase,
            job: self.job as int,
            contents: contents_view(self.contents@),
            targets: self.targets@.map_values(|i: usize| i as int),
            target: self.target as int,
        }
    }
}

/// Every job before `upto` has a fetch result for each of its links.
pub open spec fn jobs_complete(v: BatchView, upto: int) -> bool {
    forall|i: int| 0 <= i < upto ==> #[trigger] v.contents[i].len() == v.jobs[i].urls@.len()
}

/// The chat that receives audit notices, if any.
pub open spec fn notice_chat(admin_group_id: Option<i64>) -> Option<i64> {
    match admin_group_id {
        Some(g) => if g != 0 {
            Some(g)
        } else {
            None
        },
        None => None,
    }
}

impl BatchView {
    /// The consistency of a batch in each phase.
    pub open spec fn wf(self) -> bool {
        &&& forall|k: int| 0 <= k < self.targets.len() ==> 0 <= #[trigger] self.targets[k] < self.jobs.len()
        &&& match self.phase {
            BatchPhase::Enriching => {
                &&& 0 <= self.job < self.jobs.len()
                &&& self.contents.len() == self.job + 1
                &&& jobs_complete(self, self.job)
                &&& self.contents[self.job].len() < self.jobs[self.job].urls@.len()
            },
            BatchPhase::Classifying => {
                &&& self.jobs.len() > 0
                &&& self.contents.len() == self.jobs.len()
                &&& jobs_complete(self, self.jobs.len() as int)
            },
            BatchPhase::Applying => 0 <= self.target < self.targets.len(),
            BatchPhase::Notifying => 0 < self.target <= self.targets.len(),
            BatchPhase::Done => true,
        }
    }

    /// The link being fetched, during enrichment.
    pub open spec fn pending_url(self) -> Seq<char> {
        url_texts(self.jobs[self.job])[self.contents[self.job].len() as int]
    }

    /// The job being deleted, while applying.
    pub open spec fn pending_job(self) -> MessageJob {
        self.jobs[self.targets[self.target]]
    }

    /// `r` is the action that the phase waits on (an audit notice aside).
    pub open spec fn announces(self, r: BatchAction) -> bool {
        match r {
            BatchAction::Fetch(u) => self.phase == BatchPhase::Enriching && u@ == self.pending_url(),
            BatchAction::Classify(p) => self.phase == BatchPhase::Classifying && p@
                == batch_prompt_text(self.jobs, self.contents),
            BatchAction::Delete { chat_id, message_id } => self.phase == BatchPhase::Applying
                && chat_id == self.pending_job().chat_id && message_id
                == self.pending_job().message_id,
            BatchAction::Notify { chat_id, text } => self.phase == BatchPhase::Notifying
                && notice_chat(self.admin_group_id) == Some(chat_id),
            BatchAction::Finished => self.phase == BatchPhase::Done,
        }
    }

    /// The settings and jobs of a batch never change.
    pub open spec fn same_batch(self, other: BatchView) -> bool {
        &&& self.jobs == other.jobs
        &&& self.admin_group_id == other.admin_group_id
        &&& self.zone == other.zone
    }
}

/// After enrichment moved on from job `j`: the results so far are kept, and
/// later jobs start without any.
pub open spec fn enrichment_kept(old: BatchView, new: BatchView, j: int) -> bool {
    &&& new.contents.len() >= j + 1
    &&& new.contents.take(j + 1) == old.contents.take(j + 1)
    &&& forall|i: int| j < i < new.contents.len() ==> #[trigger] new.contents[i].len() == 0
}

impl BatchRun {
    /// Starts a batch: the first link of the first job that has one is
    /// fetched, or, when no job has a link, the prompt goes to the classifier.
    /// An empty batch, or one that starts after shutdown, is over at once.
    pub fn start(jobs: Vec<MessageJob>, admin_group_id: Option<i64>, zone: String, shutdown: bool) -> (r: (
        BatchRun,
        BatchAction,
    ))
        ensures
            r.0@.wf(),
            r.0@.announces(r.1),
            r.0@.jobs == jobs@,
            r.0@.admin_group_id == admin_group_id,
            r.0@.zone == zone@,
            (jobs@.len() == 0 || shutdown) <==> r.0@.phase == BatchPhase::Done,
            r.0@.phase != BatchPhase::Done ==> r.0@.contents[0].len() == 0 && (forall|i: int|
                0 <= i < r.0@.contents.len() ==> #[trigger] r.0@.contents[i].len() == 0),
            r.0@.phase == BatchPhase::Enriching || r.0@.phase == BatchPhase::Classifying
                || r.0@.phase == BatchPhase::Done,
    {
        let empty = jobs.len() == 0;
        let mut run = BatchRun {
            jobs,
            admin_group_id,
            zone,
            phase: BatchPhase::Done,
            job: 0,
            contents: Vec::new(),
            targets: Vec::new(),
            target: 0,
        };
        if empty || shutdown {
            return (run, BatchAction::Finished);
        }
        run.contents.push(Vec::new());
        run.phase = BatchPhase::Enriching;
        let ghost before = run@;
        assert(run@.contents[0] =~= Seq::<Option<WebContent>>::empty());
        let a = run.advance(shutdown);
        assert(run@.contents.take(1) =~= before.contents);
        (run, a)
    }

    /// Moves past completed jobs: asks for the next link, or for the
    /// classification once every job is complete. A new job is only begun
    /// when shutdown has not been requested.
    fn advance(&mut self, shutdown: bool) -> (r: BatchAction)
        requires
            old(self).phase == BatchPhase::Enriching,
            0 <= old(self)@.job < old(self)@.jobs.len(),
            old(self)@.contents.len() == old(self)@.job + 1,
            jobs_complete(old(self)@, old(self)@.job),
            old(self)@.contents[old(self)@.job].len() <= old(self)@.jobs[old(self)@.job].urls@.len(),
            forall|k: int| 0 <= k < old(self)@.targets.len() ==> 0 <= #[trigger] old(self)@.targets[k] < old(self)@.jobs.len(),
        ensures
            final(self)@.wf(),
            final(self)@.announces(r),
            final(self)@.same_batch(old(self)@),
            final(self)@.targets == old(self)@.targets,
            enrichment_kept(old(self)@, final(self)@, old(self)@.job),
            final(self)@.phase == BatchPhase::Enriching || final(self)@.phase == BatchPhase::Classifying
                || (shutdown && final(self)@.phase == BatchPhase::Done),
    {
        let ghost start = self@;
        loop
            invariant
                self.phase == BatchPhase::Enriching,
                start == old(self)@,
                self@.same_batch(start),
                self@.targets == start.targets,
                start.job <= self@.job < self@.jobs.len(),
                self@.contents.len() == self@.job + 1,
                jobs_complete(self@, self@.job),
                self@.contents[self@.job].len() <= self@.jobs[self@.job].urls@.len(),
                enrichment_kept(start, self@, start.job),
                forall|k: int| 0 <= k < self@.targets.len() ==> 0 <= #[trigger] self@.targets[k] < self@.jobs.len(),
            decreases self@.jobs.len() - self@.job,
        {
            let j = self.job;
            assert(self@.job == j as int && self@.jobs.len() == self.jobs@.len());
            assert(j < self.jobs.len());
            let done = self.contents[j].len();
            assert(self@.contents[j as int] == self.contents@[j as int]@);
            if done < self.jobs[j].urls.len() {
                let url = self.jobs[j].urls[done].clone();
                return BatchAction::Fetch(url);
            }
            if j + 1 == self.jobs.len() {
                self.phase = BatchPhase::Classifying;
                let prompt = batch_prompt(&self.jobs, &self.contents);
                return BatchAction::Classify(prompt);
            }
            if shutdown {
                self.phase = BatchPhase::Done;
                return BatchAction::Finished;
            }
            let ghost before = self@;
            self.job = j + 1;
            self.contents.push(Vec::new());
            assert(self@.contents.take(start.job + 1) =~= before.contents.take(start.job + 1));
            assert(self@.contents[j + 1] =~= Seq::<Option<WebContent>>::empty());
            assert forall|i: int| start.job < i < self@.contents.len() implies #[trigger] self@.contents[i].len() == 0 by {
                if i <= j {
                    assert(self@.contents[i] == before.contents[i]);
                }
            }
            assert(jobs_complete(self@, self@.job)) by {
                assert forall|i: int| 0 <= i < self@.job implies #[trigger] self@.contents[i].len() == self@.jobs[i].urls@.len() by {
                    assert(self@.contents[i] == before.contents[i]);
                }
            }
        }
    }

    /// Asks for the next deletion, or ends the batch when none is left.
    fn next_delete(&mut self) -> (r: BatchAction)
        requires
            old(self)@.target <= old(self)@.targets.len(),
            forall|k: int| 0 <= k < old(self)@.targets.len() ==> 0 <= #[trigger] old(self)@.targets[k] < old(self)@.jobs.len(),
        ensures
            final(self)@.wf(),
            final(self)@.announces(r),
            final(self)@ == (BatchView {
                phase: if old(self)@.target < old(self)@.targets.len() {
                    BatchPhase::Applying
                } else {
                    BatchPhase::Done
                },
                ..old(self)@
            }),
    {
        if self.target < self.targets.len() {
            self.phase = BatchPhase::Applying;
            let j = self.targets[self.target];
            assert(self@.targets[self.target as int] == j as int);
            BatchAction::Delete { chat_id: self.jobs[j].chat_id, message_id: self.jobs[j].message_id }
        } else {
            self.phase = BatchPhase::Done;
            BatchAction::Finished
        }
    }

    /// Takes in how the last action turned out and says what comes next.
    /// `shutdown` tells whether shutdown has been requested by now; it stops
    /// the batch before a new job is begun.
    pub fn step(&mut self, event: BatchEvent, shutdown: bool) -> (r: BatchAction)
        requires
            old(self)@.wf(),
        ensures
            final(self)@.wf(),
            final(self)@.announces(r),
            final(self)@.same_batch(old(self)@),
            old(self)@.phase == BatchPhase::Done ==> final(self)@.phase == BatchPhase::Done,
            (old(self)@.phase == BatchPhase::Enriching || old(self)@.phase == BatchPhase::Classifying)
                && event is Interrupted ==> final(self)@.phase == BatchPhase::Done,
            old(self)@.phase == BatchPhase::Enriching && event is FetchFailed ==> final(self)@.phase
                == BatchPhase::Done,
            old(self)@.phase == BatchPhase::Classifying && event is ClassifyFailed ==> final(self)@.phase
                == BatchPhase::Done,
            old(self)@.phase == BatchPhase::Enriching && event is Fetched ==> ({
                let j = old(self)@.job;
                let c = event->Fetched_0;
                &&& (final(self)@.phase == BatchPhase::Enriching || final(self)@.phase == BatchPhase::Classifying
                    || (shutdown && final(self)@.phase == BatchPhase::Done))
                &&& final(self)@.contents.len() >= j + 1
                &&& final(self)@.contents.take(j) == old(self)@.contents.take(j)
                &&& final(self)@.contents[j] == old(self)@.contents[j].push(c)
                &&& forall|i: int| j < i < final(self)@.contents.len() ==> #[trigger] final(self)@.contents[i].len() == 0
            }),
            old(self)@.phase == BatchPhase::Classifying && event is Classified ==> ({
                &&& final(self)@.targets == deletion_targets(event->Classified_0@, old(self)@.jobs)
                &&& final(self)@.target == 0
                &&& final(self)@.phase == if final(self)@.targets.len() > 0 {
                    BatchPhase::Applying
                } else {
                    BatchPhase::Done
                }
            }),
            old(self)@.phase == BatchPhase::Applying && event is Deleted ==> ({
                let ok = event->ok;
                let at = event->at;
                let noticed = ok && notice_chat(old(self)@.admin_group_id) is Some;
                &&& final(self)@.targets == old(self)@.targets
                &&& final(self)@.target == old(self)@.target + 1
                &&& noticed ==> final(self)@.phase == BatchPhase::Notifying && r is Notify
                    && r->Notify_chat_id == notice_chat(old(self)@.admin_group_id)->0
                    && r->Notify_text@ == admin_log_text(old(self)@.pending_job(), at as int, old(self)@.zone)
                &&& !noticed ==> final(self)@.phase == if final(self)@.target < final(self)@.targets.len() {
                    BatchPhase::Applying
                } else {
                    BatchPhase::Done
                }
            }),
            old(self)@.phase == BatchPhase::Notifying && event is Notified ==> ({
                &&& final(self)@.targets == old(self)@.targets
                &&& final(self)@.target == old(self)@.target
                &&& final(self)@.phase == if final(self)@.target < final(self)@.targets.len() {
                    BatchPhase::Applying
                } else {
                    BatchPhase::Done
                }
            }),
    {
        match (self.phase, event) {
            (BatchPhase::Enriching, BatchEvent::Fetched(c)) => {
                let ghost before = self@;
                let j = self.job;
                let mut cur = self.contents.pop().unwrap();
                cur.push(c);
                self.contents.push(cur);
                assert(self@.contents.take(j as int) =~= before.contents.take(j as int));
                assert(self@.contents[j as int] =~= before.contents[j as int].push(c));
                let ghost mid = self@;
                assert(jobs_complete(self@, j as int)) by {
                    assert forall|i: int| 0 <= i < j implies #[trigger] self@.contents[i].len() == self@.jobs[i].urls@.len() by {
                        assert(self@.contents[i] == before.contents[i]);
                    }
                }
                let a = self.advance(shutdown);
                proof {
                    assert(self@.contents.take(j + 1)[j as int] == mid.contents[j as int]);
                    assert(self@.contents.take(j as int) =~= self@.contents.take(j + 1).take(j as int));
                    assert(mid.contents.take(j as int) =~= mid.contents.take(j + 1).take(j as int));
                    assert(self@.contents[j as int] == self@.contents.take(j + 1)[j as int]);
                }
                a
            },
            (BatchPhase::Classifying, BatchEvent::Classified(ds)) => {
                let t = select_deletions(&ds, &self.jobs);
                self.targets = t;
                self.target = 0;
                self.next_delete()
            },
            (BatchPhase::Applying, BatchEvent::Deleted { ok, at }) => {
                assert(self@.targets.len() == self.targets@.len());
                assert(self@.phase == BatchPhase::Applying);
                assert(self@.target == self.target as int);
                assert(self.target < self.targets.len());
                let j = self.targets[self.target];
                assert(self@.targets[self.target as int] == j as int);
                self.target = self.target + 1;
                let chat = match self.admin_group_id {
                    Some(g) => if g != 0 {
                        Some(g)
                    } else {
                        None
                    },
                    None => None,
                };
                match chat {
                    Some(g) => {
                        if ok {
                            self.phase = BatchPhase::Notifying;
                            let text = format_admin_log(&self.jobs[j], at, self.zone.as_str());
                            return BatchAction::Notify { chat_id: g, text };
                        }
                    },
                    None => {},
                }
                self.next_delete()
            },
            (BatchPhase::Notifying, BatchEvent::Notified) => self.next_delete(),
            (BatchPhase::Done, _) => BatchAction::Finished,
            _ => {
                self.phase = BatchPhase::Done;
                BatchAction::Finished
            },
        }
    }

    /// Where the batch stands.
    pub fn phase(&self) -> (r: BatchPhase)
        ensures
            r == self@.phase,
    {
        self.phase
    }
}

/// Once a batch is over, the only action it can announce is `Finished`:
/// no page is fetched, no prompt is classified and no message is deleted.
pub proof fn lemma_done_is_final(v: BatchView, r: BatchAction)
    requires
        v.phase == BatchPhase::Done,
        v.announces(r),
    ensures
        r is Finished,
{
}

/// Milliseconds the processor waits on an empty queue before polling again.
pub const POLL_INTERVAL_MS: u64 = 500;

/// What the processor loop does next.
#[derive(Debug, Clone, Copy, PartialEq, Eq, Structural)]
pub enum PollStep {
    /// Shutdown was requested: leave the loop.
    Stop,
    /// Nothing was queued: wait `POLL_INTERVAL_MS` or until shutdown.
    Wait,
    /// Run the drained batch.
    Process,
}

/// Decides a turn of the processor loop from the shutdown flag, checked
/// first, and the size of the batch just drained.
pub fn poll_step(shutdown: bool, drained: usize) -> (r: PollStep)
    ensures
        shutdown ==> r == PollStep::Stop,
        !shutdown && drained == 0 ==> r == PollStep::Wait,
        !shutdown && drained > 0 ==> r == PollStep::Process,
{
    if shutdown {
        PollStep::Stop
    } else if drained == 0 {
        PollStep::Wait
    } else {
        PollStep::Process
    }
}

} // verus!
