//! Analysis of an inbound chat message: the links it carries, the lane it is
//! queued on, and how its sender is shown.
use crate::queue::Priority;
use crate::config::{parsed_i64, AppConfig};
use crate::text::{
    append_str, char_is_whitespace, chars_of, is_white_space, push_char, string_of_range, trim,
    trim_end, trim_end_ws, trim_ws,
};
use vstd::prelude::*;

verus! {

/// A web link: a scheme of `http` or `https`, then everything up to white space.
pub const URL_PATTERN: &'static str = "https?://[^\\s]+";

/// A link to a chat on the messaging platform, with or without a scheme.
pub const GROUP_LINK_PATTERN: &'static str = "(?i)(https?://)?(t\\.me|telegram\\.me|telegram\\.dog)/[A-Za-z0-9_/\\-]+";

/// The successive non-overlapping matches of regular expression `pattern`
/// in `text`, leftmost first; `None` when `pattern` is not a valid
/// expression.
pub uninterp spec fn regex_find_all(pattern: Seq<char>, text: Seq<char>) -> Option<Seq<Seq<char>>>;

/// Relies on `regex::Regex::new`, which compiles `pattern` or fails, and on
/// `Regex::find_iter`, which yields the successive non-overlapping matches.
#[verifier::external_body]
fn find_matches(pattern: &str, text: &str) -> (r: Option<Vec<String>>)
    ensures
        match r {
            Some(v) => regex_find_all(pattern@, text@) == Some(v@.map_values(|m: String| m@)),
            None => regex_find_all(pattern@, text@) is None,
        },
{
    match regex::Regex::new(pattern) {
        Ok(re) => Some(re.find_iter(text).map(|m| m.as_str().to_string()).collect()),
        Err(_) => None,
    }
}

/// Whether `pattern` matches somewhere in `text`.
pub open spec fn pattern_found(pattern: Seq<char>, text: Seq<char>) -> bool {
    match regex_find_all(pattern, text) {
        Some(ms) => ms.len() > 0,
        None => false,
    }
}

/// Whether `text` holds a link to a chat group.
pub fn has_telegram_group_link(text: &str) -> (r: bool)
    ensures
        r == pattern_found(GROUP_LINK_PATTERN@, text@),
{
    match find_matches(GROUP_LINK_PATTERN, text) {
        Some(v) => v.len() > 0,
        None => false,
    }
}

/// The score and lane of a message from its signals: a base of one, twenty
/// for a group link, five for a web link, ten for a sender outside the group;
/// fifteen or more goes to the high lane.
pub open spec fn priority_of(has_group_link: bool, has_url: bool, is_member: bool) -> (Priority, i32) {
    let score = 1 + (if has_group_link { 20int } else { 0 }) + (if has_url { 5int } else { 0 }) + (
    if !is_member { 10int } else { 0 });
    (if score >= 15 { Priority::High } else { Priority::Normal }, score as i32)
}

/// Scores a message from its signals.
pub fn priority_from_signals(has_group_link: bool, has_url: bool, is_member: bool) -> (r: (
    Priority,
    i32,
))
    ensures
        r == priority_of(has_group_link, has_url, is_member),
{
    let mut score: i32 = 1;
    if has_group_link {
        score = score + 20;
    }
    if has_url {
        score = score + 5;
    }
    if !is_member {
        score = score + 10;
    }
    if score >= 15 {
        (Priority::High, score)
    } else {
        (Priority::Normal, score)
    }
}

/// Scores the text of a message from a sender who is or is not a member.
pub fn calc_priority(text: &str, is_member: bool) -> (r: (Priority, i32))
    ensures
        r == priority_of(
            pattern_found(GROUP_LINK_PATTERN@, text@),
            pattern_found(URL_PATTERN@, text@),
            is_member,
        ),
{
    let group_link = has_telegram_group_link(text);
    let url = match find_matches(URL_PATTERN, text) {
        Some(v) => v.len() > 0,
        None => false,
    };
    priority_from_signals(group_link, url, is_member)
}

/// How often `c` occurs in `s`.
pub open spec fn count_of(s: Seq<char>, c: char) -> nat
    decreases s.len(),
{
    if s.len() == 0 {
        0
    } else {
        count_of(s.drop_last(), c) + if s.last() == c {
            1nat
        } else {
            0nat
        }
    }
}

/// Whether the last character of `s`, which is not empty, is stray
/// punctuation: a closing bracket without any opening one, a quote with an
/// odd count, or one of `, . ! ? ;`.
pub open spec fn trailing_junk(s: Seq<char>) -> bool {
    let last = s.last();
    if last == ')' {
        !s.contains('(')
    } else if last == ']' {
        !s.contains('[')
    } else if last == '}' {
        !s.contains('{')
    } else if last == '>' {
        !s.contains('<')
    } else if last == '"' || last == '\'' {
        count_of(s, last) % 2 == 1
    } else {
        last == ',' || last == '.' || last == '!' || last == '?' || last == ';'
    }
}

/// `s` with stray trailing punctuation removed, one character at a time.
pub open spec fn strip_trailing(s: Seq<char>) -> Seq<char>
    decreases s.len(),
{
    if s.len() > 0 && trailing_junk(s) {
        strip_trailing(s.drop_last())
    } else {
        s
    }
}

/// A link as matched in running text, cleaned of trailing white space and
/// stray trailing punctuation.
pub open spec fn normalized_url(raw: Seq<char>) -> Seq<char> {
    strip_trailing(trim_end_ws(raw))
}

/// Occurrences of `c` among the first `end` characters of `v`.
fn count_in(v: &Vec<char>, end: usize, c: char) -> (r: usize)
    requires
        end <= v@.len(),
    ensures
        r == count_of(v@.take(end as int), c),
{
    let mut r: usize = 0;
    let mut i: usize = 0;
    while i < end
        invariant
            i <= end <= v@.len(),
            r == count_of(v@.take(i as int), c),
            r <= i,
        decreases end - i,
    {
        assert(v@.take(i + 1).drop_last() =~= v@.take(i as int));
        if v[i] == c {
            r = r + 1;
        }
        i = i + 1;
    }
    r
}

/// Whether `c` occurs among the first `end` characters of `v`.
fn contains_in(v: &Vec<char>, end: usize, c: char) -> (r: bool)
    requires
        end <= v@.len(),
    ensures
        r == v@.take(end as int).contains(c),
{
    let mut i: usize = 0;
    while i < end
        invariant
            i <= end <= v@.len(),
            !v@.take(i as int).contains(c),
        decreases end - i,
    {
        if v[i] == c {
            assert(v@.take(end as int)[i as int] == c);
            return true;
        }
        assert(forall|j: int| 0 <= j < i + 1 ==> #[trigger] v@.take(i + 1)[j] == v@.take(i as int).push(v@[i as int])[j]);
        assert(v@.take(i + 1) =~= v@.take(i as int).push(v@[i as int]));
        i = i + 1;
    }
    false
}

/// How often `needle` occurs in `value`.
pub fn count_char(value: &str, needle: char) -> (r: usize)
    ensures
        r == count_of(value@, needle),
{
    let v = chars_of(value);
    assert(v@.take(v@.len() as int) =~= v@);
    count_in(&v, v.len(), needle)
}

fn junk_at(v: &Vec<char>, end: usize) -> (r: bool)
    requires
        0 < end <= v@.len(),
    ensures
        r == trailing_junk(v@.take(end as int)),
{
    let last = v[end - 1];
    if last == ')' {
        !contains_in(v, end, '(')
    } else if last == ']' {
        !contains_in(v, end, '[')
    } else if last == '}' {
        !contains_in(v, end, '{')
    } else if last == '>' {
        !contains_in(v, end, '<')
    } else if last == '"' || last == '\'' {
        count_in(v, end, last) % 2 == 1
    } else {
        last == ',' || last == '.' || last == '!' || last == '?' || last == ';'
    }
}

/// Cleans a link matched in running text.
pub fn normalize_url(raw: &str) -> (r: String)
    ensures
        r@ == normalized_url(raw@),
{
    let trimmed = trim_end(raw);
    let v = chars_of(trimmed.as_str());
    let mut e: usize = v.len();
    assert(v@.take(e as int) =~= v@);
    while e > 0 && junk_at(&v, e)
        invariant
            e <= v@.len(),
            strip_trailing(v@) == strip_trailing(v@.take(e as int)),
        decreases e,
    {
        assert(v@.take(e as int).drop_last() =~= v@.take(e - 1));
        e = e - 1;
    }
    string_of_range(&v, 0, e)
}

/// The cleaned links among `matches`, empty ones dropped, at most `limit`.
pub open spec fn collect_urls(matches: Seq<Seq<char>>, limit: nat) -> Seq<Seq<char>>
    decreases matches.len(),
{
    if matches.len() == 0 || limit == 0 {
        Seq::empty()
    } else if normalized_url(matches[0]).len() == 0 {
        collect_urls(matches.drop_first(), limit)
    } else {
        seq![normalized_url(matches[0])] + collect_urls(matches.drop_first(), (limit - 1) as nat)
    }
}

/// Cleans the link matches of a message, drops those left empty, and keeps
/// the first `limit`.
pub fn urls_from_matches(matches: &Vec<String>, limit: usize) -> (r: Vec<String>)
    ensures
        r@.map_values(|u: String| u@) == collect_urls(
            matches@.map_values(|m: String| m@),
            limit as nat,
        ),
{
    let ghost ms = matches@.map_values(|m: String| m@);
    let mut out: Vec<String> = Vec::new();
    let mut i: usize = 0;
    assert(ms.skip(0) =~= ms);
    while i < matches.len() && out.len() < limit
        invariant
            i <= matches@.len(),
            ms == matches@.map_values(|m: String| m@),
            out@.len() <= limit,
            out@.map_values(|u: String| u@) + collect_urls(ms.skip(i as int), (limit - out@.len()) as nat)
                == collect_urls(ms, limit as nat),
        decreases matches@.len() - i,
    {
        let ghost rest = ms.skip(i as int);
        assert(rest.drop_first() =~= ms.skip(i + 1));
        assert(rest[0] == matches@[i as int]@);
        let u = normalize_url(matches[i].as_str());
        if !u.as_str().is_empty() {
            let ghost before = out@.map_values(|x: String| x@);
            out.push(u);
            assert(out@.map_values(|x: String| x@) =~= before.push(normalized_url(rest[0])));
            assert(before.push(normalized_url(rest[0])) + collect_urls(ms.skip(i + 1), (limit - out@.len()) as nat)
                =~= before + (seq![normalized_url(rest[0])] + collect_urls(rest.drop_first(), (limit - out@.len()) as nat)));
        } else {
            proof {
                if u@.len() != 0 {
                    assert(false);
                }
            }
        }
        i = i + 1;
    }
    proof {
        let rest = ms.skip(i as int);
        assert(collect_urls(rest, (limit - out@.len()) as nat) =~= Seq::empty());
    }
    out
}

/// The links of a message as `extract_urls` gives them.
pub open spec fn extracted_urls(text: Seq<char>, limit: nat) -> Seq<Seq<char>> {
    match regex_find_all(URL_PATTERN@, text) {
        Some(ms) => collect_urls(ms, limit),
        None => Seq::empty(),
    }
}

/// The web links of `text`, cleaned, at most `limit` of them.
pub fn extract_urls(text: &str, limit: usize) -> (r: Vec<String>)
    ensures
        r@.map_values(|u: String| u@) == extracted_urls(text@, limit as nat),
{
    match find_matches(URL_PATTERN, text) {
        Some(ms) => urls_from_matches(&ms, limit),
        None => {
            let v: Vec<String> = Vec::new();
            assert(v@.map_values(|u: String| u@) =~= Seq::<Seq<char>>::empty());
            v
        },
    }
}

/// How a sender is shown: `@` and the username when there is one, else the
/// first and last name joined by a space and trimmed, else `Unknown`.
pub open spec fn user_display(username: Option<Seq<char>>, first_name: Seq<char>, last_name: Option<
    Seq<char>,
>) -> Seq<char> {
    match username {
        Some(u) => "@"@ + u,
        None => {
            let joined = match last_name {
                Some(l) => first_name + " "@ + l,
                None => first_name,
            };
            if trim_ws(joined).len() == 0 {
                "Unknown"@
            } else {
                trim_ws(joined)
            }
        },
    }
}

pub open spec fn opt_view(o: Option<&str>) -> Option<Seq<char>> {
    match o {
        Some(s) => Some(s@),
        None => None,
    }
}

/// Shows a sender from the parts of its profile.
pub fn format_user_display(username: Option<&str>, first_name: &str, last_name: Option<&str>) -> (r:
    String)
    ensures
        r@ == user_display(opt_view(username), first_name@, opt_view(last_name)),
{
    match username {
        Some(u) => {
            let mut r = String::new();
            append_str(&mut r, "@");
            append_str(&mut r, u);
            r
        },
        None => {
            let mut joined = String::new();
            append_str(&mut joined, first_name);
            match last_name {
                Some(l) => {
                    append_str(&mut joined, " ");
                    append_str(&mut joined, l);
                },
                None => {},
            }
            let name = trim(joined.as_str());
            if name.as_str().is_empty() {
                let mut r = String::new();
                append_str(&mut r, "Unknown");
                r
            } else {
                name
            }
        },
    }
}

/// A user identifier as a signed number, `i64::MAX` when it does not fit.
pub fn user_to_i64(user_id: u64) -> (r: i64)
    ensures
        user_id <= i64::MAX ==> r == user_id as i64,
        user_id > i64::MAX ==> r == i64::MAX,
{
    if user_id <= i64::MAX as u64 {
        user_id as i64
    } else {
        i64::MAX
    }
}

/// The body of a queued message: its text, else its caption, trimmed; a
/// placeholder when that leaves nothing.
pub open spec fn message_body_text(text: Option<Seq<char>>, caption: Option<Seq<char>>) -> Seq<char> {
    let raw = match text {
        Some(t) => Some(t),
        None => caption,
    };
    match raw {
        Some(r) => if trim_ws(r).len() > 0 {
            trim_ws(r)
        } else {
            "[미디어 메시지]"@
        },
        None => "[미디어 메시지]"@,
    }
}

pub fn message_body(text: Option<&str>, caption: Option<&str>) -> (r: String)
    ensures
        r@ == message_body_text(opt_view(text), opt_view(caption)),
{
    let raw = match text {
        Some(t) => Some(t),
        None => caption,
    };
    match raw {
        Some(r) => {
            let t = trim(r);
            if !t.as_str().is_empty() {
                return t;
            }
        },
        None => {},
    }
    let mut m = String::new();
    append_str(&mut m, "[미디어 메시지]");
    m
}

/// Whether a chat may be moderated without asking the allow-list store:
/// private chats and users (non-negative ids), the admin group, and the
/// configured chats.
pub open spec fn chat_allowed_by_config(chat_id: i64, admin_group_id: Option<i64>, allowed: Seq<i64>) -> bool {
    chat_id >= 0 || admin_group_id == Some(chat_id) || allowed.contains(chat_id)
}

pub fn is_chat_allowed_by_config(config: &AppConfig, chat_id: i64) -> (r: bool)
    ensures
        r == chat_allowed_by_config(chat_id, config.admin_group_id, config.allowed_chat_ids@),
{
    if chat_id >= 0 {
        return true;
    }
    if config.admin_group_id == Some(chat_id) {
        return true;
    }
    let mut i: usize = 0;
    while i < config.allowed_chat_ids.len()
        invariant
            i <= config.allowed_chat_ids@.len(),
            forall|k: int| 0 <= k < i ==> config.allowed_chat_ids@[k] != chat_id,
        decreases config.allowed_chat_ids@.len() - i,
    {
        if config.allowed_chat_ids[i] == chat_id {
            return true;
        }
        i = i + 1;
    }
    false
}

/// Whether `chat_id` is the configured admin group.
pub fn is_admin_group(config: &AppConfig, chat_id: i64) -> (r: bool)
    ensures
        r == (config.admin_group_id == Some(chat_id)),
{
    match config.admin_group_id {
        Some(id) => id == chat_id,
        None => false,
    }
}

/// Whether `user_id` is the configured admin user.
pub fn is_admin_user(config: &AppConfig, user_id: i64) -> (r: bool)
    ensures
        r == (config.admin_user_id == Some(user_id)),
{
    match config.admin_user_id {
        Some(id) => id == user_id,
        None => false,
    }
}

/// The white-space separated words of `s`, in order.
pub open spec fn words(s: Seq<char>) -> Seq<Seq<char>>
    decreases s.len(),
{
    if s.len() == 0 {
        Seq::empty()
    } else {
        let prev = words(s.drop_last());
        let c = s.last();
        if is_white_space(c) {
            prev
        } else if s.len() >= 2 && !is_white_space(s[s.len() - 2]) && prev.len() > 0 {
            prev.update(prev.len() - 1, prev.last().push(c))
        } else {
            prev.push(seq![c])
        }
    }
}

/// The first two words of `s`.
fn first_words(s: &str) -> (r: (Option<String>, Option<String>))
    ensures
        match r.0 {
            Some(w) => words(s@).len() > 0 && w@ == words(s@)[0],
            None => words(s@).len() == 0,
        },
        match r.1 {
            Some(w) => words(s@).len() > 1 && w@ == words(s@)[1],
            None => words(s@).len() <= 1,
        },
{
    let v = chars_of(s);
    let mut done: Vec<String> = Vec::new();
    let mut cur = String::new();
    let mut open = false;
    let mut i: usize = 0;
    while i < v.len()
        invariant
            i <= v@.len(),
            v@ == s@,
            open ==> i > 0 && !is_white_space(v@[i - 1]),
            !open ==> i == 0 || is_white_space(v@[i - 1]),
            open ==> done@.map_values(|w: String| w@).push(cur@) == words(v@.take(i as int)),
            !open ==> done@.map_values(|w: String| w@) == words(v@.take(i as int)),
            !open ==> cur@ == Seq::<char>::empty(),
        decreases v@.len() - i,
    {
        let ghost t = v@.take(i + 1);
        assert(t.drop_last() =~= v@.take(i as int));
        assert(t.last() == v@[i as int]);
        let c = v[i];
        let ghost before = done@.map_values(|w: String| w@);
        if char_is_whitespace(c) {
            if open {
                done.push(cur);
                cur = String::new();
                assert(done@.map_values(|w: String| w@) =~= words(t));
            }
            open = false;
        } else {
            let ghost old_cur = cur@;
            push_char(&mut cur, c);
            if open {
                assert(t[t.len() - 2] == v@[i - 1]);
                assert(before.push(cur@) =~= before.push(old_cur).update(before.len() as int, old_cur.push(c)));
            } else {
                proof {
                    if i > 0 {
                        assert(t[t.len() - 2] == v@[i - 1]);
                    }
                }
                assert(before.push(cur@) =~= before.push(seq![c]));
            }
            open = true;
        }
        i = i + 1;
    }
    if open {
        done.push(cur);
    }
    assert(v@.take(i as int) =~= v@);
    let ghost ws = done@.map_values(|w: String| w@);
    let second = if done.len() > 1 {
        Some(done.remove(1))
    } else {
        None
    };
    let first = if done.len() > 0 {
        Some(done.remove(0))
    } else {
        None
    };
    assert(ws == words(s@));
    (first, second)
}

/// The group a whitelist command names.
#[derive(Debug, Clone, Copy, PartialEq, Eq, Structural)]
pub enum CommandTarget {
    Chat(i64),
    /// No group id was given.
    Missing,
    /// The group id is not a number.
    Invalid,
}

/// An administrator command in a message.
#[derive(Debug, Clone, Copy, PartialEq, Eq, Structural)]
pub enum AdminCommand {
    WhitelistAdd(CommandTarget),
    WhitelistRemove(CommandTarget),
    WhitelistList,
    SyncCommands,
}

pub open spec fn target_of(arg: Option<Seq<char>>) -> CommandTarget {
    match arg {
        Some(a) => match parsed_i64(a) {
            Some(id) => CommandTarget::Chat(id),
            None => CommandTarget::Invalid,
        },
        None => CommandTarget::Missing,
    }
}

/// The administrator command that `text` gives: it starts with `/`, and its
/// first word names the command; the second word is the group id of the
/// whitelist commands. `None` for anything else.
pub open spec fn admin_command_of(text: Seq<char>) -> Option<AdminCommand> {
    let ws = words(text);
    let arg = if ws.len() > 1 {
        Some(ws[1])
    } else {
        None
    };
    if text.len() == 0 || text[0] != '/' || ws.len() == 0 {
        None
    } else if ws[0] == "/whitelist_add"@ {
        Some(AdminCommand::WhitelistAdd(target_of(arg)))
    } else if ws[0] == "/whitelist_remove"@ {
        Some(AdminCommand::WhitelistRemove(target_of(arg)))
    } else if ws[0] == "/whitelist_list"@ {
        Some(AdminCommand::WhitelistList)
    } else if ws[0] == "/sync_commands"@ {
        Some(AdminCommand::SyncCommands)
    } else {
        None
    }
}

fn parse_target(arg: &Option<String>) -> (r: CommandTarget)
    ensures
        r == target_of(match arg {
            Some(a) => Some(a@),
            None => None,
        }),
{
    match arg {
        Some(a) => match crate::config::parse_i64(a.as_str()) {
            Some(id) => CommandTarget::Chat(id),
            None => CommandTarget::Invalid,
        },
        None => CommandTarget::Missing,
    }
}

/// Reads an administrator command from a message text.
pub fn parse_admin_command(text: &str) -> (r: Option<AdminCommand>)
    ensures
        r == admin_command_of(text@),
{
    let v = chars_of(text);
    if v.len() == 0 || v[0] != '/' {
        return None;
    }
    let (first, second) = first_words(text);
    let command = match first {
        Some(c) => c,
        None => return None,
    };
    if command == "/whitelist_add".to_owned() {
        Some(AdminCommand::WhitelistAdd(parse_target(&second)))
    } else if command == "/whitelist_remove".to_owned() {
        Some(AdminCommand::WhitelistRemove(parse_target(&second)))
    } else if command == "/whitelist_list".to_owned() {
        Some(AdminCommand::WhitelistList)
    } else if command == "/sync_commands".to_owned() {
        Some(AdminCommand::SyncCommands)
    } else {
        None
    }
}

} // verus!
