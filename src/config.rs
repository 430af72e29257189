//! Runtime settings of the agent, read from the process environment.
use crate::text::{chars_of, push_char, same_text, trim, trim_ws};
use vstd::prelude::*;

verus! {

/// All settings of the agent.
#[derive(Debug, Clone)]
pub struct AppConfig {
    pub telegram_bot_token: String,
    pub bot_username: Option<String>,
    pub admin_user_id: Option<i64>,
    pub admin_group_id: Option<i64>,
    pub allowed_chat_ids: Vec<i64>,
    pub cerebras: CerebrasConfig,
    pub directories: DirectoryConfig,
    pub logging: LoggingConfig,
    pub timezone: String,
    pub scheduler: SchedulerConfig,
    pub web: WebContentConfig,
    pub resilience: ResilienceConfig,
    pub update: UpdateConfig,
}

/// Access to the classification service.
#[derive(Debug, Clone)]
pub struct CerebrasConfig {
    pub api_key: Option<String>,
    pub model: String,
}

/// Where logs and data live.
#[derive(Debug, Clone)]
pub struct DirectoryConfig {
    pub logs_dir: String,
    pub data_dir: String,
    pub db_filename: String,
}

#[derive(Debug, Clone)]
pub struct LoggingConfig {
    pub level: String,
}

/// Cron expressions of the scheduled restarts.
#[derive(Debug, Clone)]
pub struct SchedulerConfig {
    pub cron_specs: Vec<String>,
}

/// Limits of link enrichment.
#[derive(Debug, Clone, Copy, PartialEq, Eq, Structural)]
pub struct WebContentConfig {
    pub max_urls_per_message: usize,
    /// In milliseconds.
    pub fetch_timeout_ms: u64,
    /// In bytes of UTF-8 text.
    pub content_max_length: usize,
}

/// Thresholds of the network-failure watchdog.
#[derive(Debug, Clone, Copy, PartialEq, Eq, Structural)]
pub struct ResilienceConfig {
    /// Failures within one window that trip a restart.
    pub network_error_threshold: u32,
    /// Length of the accumulation window, in milliseconds.
    pub network_error_window_ms: u64,
    /// Minimum time between two restarts, in milliseconds.
    pub restart_cooldown_ms: u64,
}

/// Self-update settings.
#[derive(Debug, Clone)]
pub struct UpdateConfig {
    pub enabled: bool,
    pub check_on_startup: bool,
    pub auto_restart: bool,
    pub repo_owner: String,
    pub repo_name: String,
}

/// Why the settings could not be read.
#[derive(Debug, Clone, PartialEq, Eq)]
pub enum ConfigError {
    /// A required variable is not set.
    Missing(&'static str),
}

/// The value of a decimal digit character.
pub open spec fn digit_value(c: char) -> int {
    (c as int) - ('0' as int)
}

pub open spec fn all_digits(s: Seq<char>) -> bool {
    forall|i: int| 0 <= i < s.len() ==> '0' <= #[trigger] s[i] && s[i] <= '9'
}

/// The number that a string of decimal digits denotes.
pub open spec fn digits_value(s: Seq<char>) -> int
    decreases s.len(),
{
    if s.len() == 0 {
        0
    } else {
        digits_value(s.drop_last()) * 10 + digit_value(s.last())
    }
}

/// An optional `+` and at least one decimal digit: the number they denote.
pub open spec fn unsigned_text(s: Seq<char>) -> Option<int> {
    let body = if s.len() > 0 && s[0] == '+' {
        s.drop_first()
    } else {
        s
    };
    if body.len() > 0 && all_digits(body) {
        Some(digits_value(body))
    } else {
        None
    }
}

/// An optional sign and at least one decimal digit: the number they denote.
pub open spec fn signed_text(s: Seq<char>) -> Option<int> {
    if s.len() > 0 && s[0] == '-' {
        let body = s.drop_first();
        if body.len() > 0 && all_digits(body) {
            Some(-digits_value(body))
        } else {
            None
        }
    } else {
        unsigned_text(s)
    }
}

/// The `u64` that `s` writes, if it writes one in range.
pub open spec fn parsed_u64(s: Seq<char>) -> Option<u64> {
    match unsigned_text(s) {
        Some(v) => if v <= u64::MAX {
            Some(v as u64)
        } else {
            None
        },
        None => None,
    }
}

/// The `i64` that `s` writes, if it writes one in range.
pub open spec fn parsed_i64(s: Seq<char>) -> Option<i64> {
    match signed_text(s) {
        Some(v) => if i64::MIN <= v <= i64::MAX {
            Some(v as i64)
        } else {
            None
        },
        None => None,
    }
}

/// Relies on `<u64 as FromStr>::from_str`, which accepts an optional `+`
/// followed by decimal digits only, and fails on anything else or on
/// overflow.
#[verifier::external_body]
fn parse_u64(s: &str) -> (r: Option<u64>)
    ensures
        r == parsed_u64(s@),
{
    s.parse::<u64>().ok()
}

/// Relies on `<i64 as FromStr>::from_str`, which accepts an optional sign
/// followed by decimal digits only, and fails on anything else or on
/// overflow.
#[verifier::external_body]
pub(crate) fn parse_i64(s: &str) -> (r: Option<i64>)
    ensures
        r == parsed_i64(s@),
{
    s.parse::<i64>().ok()
}

/// The value of the first variable of `env` named `key`.
pub open spec fn env_value(env: Seq<(String, String)>, key: Seq<char>) -> Option<Seq<char>>
    decreases env.len(),
{
    if env.len() == 0 {
        None
    } else if env[0].0@ == key {
        Some(env[0].1@)
    } else {
        env_value(env.drop_first(), key)
    }
}

fn lookup(env: &Vec<(String, String)>, key: &str) -> (r: Option<String>)
    ensures
        match r {
            Some(v) => env_value(env@, key@) == Some(v@),
            None => env_value(env@, key@) is None,
        },
{
    let mut i: usize = 0;
    assert(env@.skip(0) =~= env@);
    while i < env.len()
        invariant
            i <= env@.len(),
            env_value(env@, key@) == env_value(env@.skip(i as int), key@),
        decreases env@.len() - i,
    {
        assert(env@.skip(i as int)[0] == env@[i as int]);
        assert(env@.skip(i as int).drop_first() =~= env@.skip(i + 1));
        if same_text(env[i].0.as_str(), key) {
            return Some(env[i].1.clone());
        }
        i = i + 1;
    }
    None
}

/// The pieces of `s` between occurrences of `sep`; at least one piece.
pub open spec fn split_on(s: Seq<char>, sep: char) -> Seq<Seq<char>>
    decreases s.len(),
{
    if s.len() == 0 {
        seq![Seq::empty()]
    } else {
        let prev = split_on(s.drop_last(), sep);
        if s.last() == sep {
            prev.push(Seq::empty())
        } else {
            prev.update(prev.len() - 1, prev.last().push(s.last()))
        }
    }
}

proof fn lemma_split_nonempty(s: Seq<char>, sep: char)
    ensures
        split_on(s, sep).len() >= 1,
    decreases s.len(),
{
    if s.len() > 0 {
        lemma_split_nonempty(s.drop_last(), sep);
    }
}

/// Splits `s` at each `sep`.
fn split(s: &str, sep: char) -> (r: Vec<String>)
    ensures
        r@.map_values(|p: String| p@) == split_on(s@, sep),
{
    let v = chars_of(s);
    let mut pieces: Vec<String> = Vec::new();
    let mut cur = String::new();
    let mut i: usize = 0;
    while i < v.len()
        invariant
            i <= v@.len(),
            v@ == s@,
            pieces@.map_values(|p: String| p@).push(cur@) == split_on(v@.take(i as int), sep),
        decreases v@.len() - i,
    {
        assert(v@.take(i + 1).drop_last() =~= v@.take(i as int));
        proof {
            lemma_split_nonempty(v@.take(i as int), sep);
        }
        let ghost before = pieces@.map_values(|p: String| p@);
        let ghost prev_cur = cur@;
        if v[i] == sep {
            pieces.push(cur);
            cur = String::new();
            assert(pieces@.map_values(|p: String| p@) =~= before.push(prev_cur));
        } else {
            push_char(&mut cur, v[i]);
            assert(pieces@.map_values(|p: String| p@) =~= before);
            assert(before.push(cur@) =~= before.push(prev_cur).update(before.len() as int, prev_cur.push(v@[i as int])));
        }
        i = i + 1;
    }
    pieces.push(cur);
    assert(v@.take(i as int) =~= v@);
    pieces
}

/// The chat ids among comma-separated pieces: each trimmed piece that
/// writes an `i64`, in order; the others are skipped.
pub open spec fn chat_ids(pieces: Seq<Seq<char>>) -> Seq<i64>
    decreases pieces.len(),
{
    if pieces.len() == 0 {
        Seq::empty()
    } else {
        let prev = chat_ids(pieces.drop_last());
        match parsed_i64(trim_ws(pieces.last())) {
            Some(id) => prev.push(id),
            None => prev,
        }
    }
}

/// The non-blank trimmed pieces, in order.
pub open spec fn nonblank_trimmed(pieces: Seq<Seq<char>>) -> Seq<Seq<char>>
    decreases pieces.len(),
{
    if pieces.len() == 0 {
        Seq::empty()
    } else {
        let prev = nonblank_trimmed(pieces.drop_last());
        if trim_ws(pieces.last()).len() > 0 {
            prev.push(trim_ws(pieces.last()))
        } else {
            prev
        }
    }
}

fn parse_chat_ids(s: &str) -> (r: Vec<i64>)
    ensures
        r@ == chat_ids(split_on(s@, ',')),
{
    let pieces = split(s, ',');
    let ghost ps = pieces@.map_values(|p: String| p@);
    let mut out: Vec<i64> = Vec::new();
    let mut i: usize = 0;
    while i < pieces.len()
        invariant
            i <= pieces@.len(),
            ps == pieces@.map_values(|p: String| p@),
            out@ == chat_ids(ps.take(i as int)),
        decreases pieces@.len() - i,
    {
        assert(ps.take(i + 1).drop_last() =~= ps.take(i as int));
        assert(ps.take(i + 1).last() == pieces@[i as int]@);
        let t = trim(pieces[i].as_str());
        match parse_i64(t.as_str()) {
            Some(id) => out.push(id),
            None => {},
        }
        i = i + 1;
    }
    assert(ps.take(i as int) =~= ps);
    out
}

fn parse_cron_specs(s: &str) -> (r: Vec<String>)
    ensures
        r@.map_values(|p: String| p@) == nonblank_trimmed(split_on(s@, ';')),
{
    let pieces = split(s, ';');
    let ghost ps = pieces@.map_values(|p: String| p@);
    let mut out: Vec<String> = Vec::new();
    let mut i: usize = 0;
    while i < pieces.len()
        invariant
            i <= pieces@.len(),
            ps == pieces@.map_values(|p: String| p@),
            out@.map_values(|p: String| p@) == nonblank_trimmed(ps.take(i as int)),
        decreases pieces@.len() - i,
    {
        assert(ps.take(i + 1).drop_last() =~= ps.take(i as int));
        assert(ps.take(i + 1).last() == pieces@[i as int]@);
        let t = trim(pieces[i].as_str());
        if !t.as_str().is_empty() {
            let ghost before = out@.map_values(|p: String| p@);
            out.push(t);
            assert(out@.map_values(|p: String| p@) =~= before.push(t@));
        }
        i = i + 1;
    }
    assert(ps.take(i as int) =~= ps);
    out
}

fn text(s: &str) -> (r: String)
    ensures
        r@ == s@,
{
    s.to_owned()
}

/// A variable's value, or `default` when it is not set.
pub open spec fn or_default(v: Option<Seq<char>>, default: Seq<char>) -> Seq<char> {
    match v {
        Some(s) => s,
        None => default,
    }
}

fn value_or(env: &Vec<(String, String)>, key: &str, default: &str) -> (r: String)
    ensures
        r@ == or_default(env_value(env@, key@), default@),
{
    match lookup(env, key) {
        Some(v) => v,
        None => text(default),
    }
}

/// A variable's value when it is set and not empty.
pub open spec fn nonempty_value(v: Option<Seq<char>>) -> Option<Seq<char>> {
    match v {
        Some(s) => if s.len() > 0 {
            Some(s)
        } else {
            None
        },
        None => None,
    }
}

fn nonempty(env: &Vec<(String, String)>, key: &str) -> (r: Option<String>)
    ensures
        match r {
            Some(v) => nonempty_value(env_value(env@, key@)) == Some(v@),
            None => nonempty_value(env_value(env@, key@)) is None,
        },
{
    match lookup(env, key) {
        Some(v) => if v.as_str().is_empty() {
            None
        } else {
            Some(v)
        },
        None => None,
    }
}

/// A variable read as an `i64`: `None` when unset or not a number.
pub open spec fn int_value(v: Option<Seq<char>>) -> Option<i64> {
    match v {
        Some(s) => parsed_i64(s),
        None => None,
    }
}

fn int_var(env: &Vec<(String, String)>, key: &str) -> (r: Option<i64>)
    ensures
        r == int_value(env_value(env@, key@)),
{
    match lookup(env, key) {
        Some(v) => parse_i64(v.as_str()),
        None => None,
    }
}

/// A variable read as a `u64` no larger than `max`, else `default`.
pub open spec fn bounded_value(v: Option<Seq<char>>, max: u64, default: u64) -> u64 {
    match v {
        Some(s) => match parsed_u64(s) {
            Some(n) => if n <= max {
                n
            } else {
                default
            },
            None => default,
        },
        None => default,
    }
}

fn bounded_var(env: &Vec<(String, String)>, key: &str, max: u64, default: u64) -> (r: u64)
    ensures
        r == bounded_value(env_value(env@, key@), max, default),
{
    match lookup(env, key) {
        Some(v) => match parse_u64(v.as_str()) {
            Some(n) => if n <= max {
                n
            } else {
                default
            },
            None => default,
        },
        None => default,
    }
}

/// A switch: `1` or `true` in any case turns it on; unset gives `default`.
pub open spec fn flag_value(v: Option<Seq<char>>, default: bool) -> bool {
    match v {
        Some(s) => crate::guard::skip_value(Some(s)),
        None => default,
    }
}

fn flag_var(env: &Vec<(String, String)>, key: &str, default: bool) -> (r: bool)
    ensures
        r == flag_value(env_value(env@, key@), default),
{
    match lookup(env, key) {
        Some(v) => crate::guard::skip_guard(Some(v.as_str())),
        None => default,
    }
}

/// The admin group id: a positive id is turned into the negative form that
/// group chats have.
pub open spec fn group_id_value(v: Option<i64>) -> Option<i64> {
    match v {
        Some(id) => if id > 0 {
            Some(-id as i64)
        } else {
            Some(id)
        },
        None => None,
    }
}

pub open spec fn string_opt(o: Option<String>) -> Option<Seq<char>> {
    match o {
        Some(s) => Some(s@),
        None => None,
    }
}

pub open spec fn var(env: Seq<(String, String)>, key: &str) -> Option<Seq<char>> {
    env_value(env, key@)
}

/// Restarts at midnight and at noon.
pub open spec fn default_crons() -> Seq<Seq<char>> {
    seq!["0 0 0 * * *"@, "0 0 12 * * *"@]
}

/// Whether `c` holds the settings that `env` gives, with the defaults for
/// variables that are unset (or, for numbers, not valid).
pub open spec fn config_from_env(c: AppConfig, env: Seq<(String, String)>) -> bool {
    &&& var(env, "TELEGRAM_BOT_TOKEN") == Some(c.telegram_bot_token@)
    &&& string_opt(c.bot_username) == nonempty_value(var(env, "BOT_USERNAME"))
    &&& c.admin_user_id == int_value(var(env, "ADMIN_USER_ID"))
    &&& c.admin_group_id == group_id_value(int_value(var(env, "ADMIN_GROUP_ID")))
    &&& c.allowed_chat_ids@ == match var(env, "ALLOWED_CHAT_IDS") {
        Some(s) => chat_ids(split_on(s, ',')),
        None => Seq::empty(),
    }
    &&& string_opt(c.cerebras.api_key) == nonempty_value(var(env, "CEREBRAS_API_KEY"))
    &&& c.cerebras.model@ == or_default(var(env, "CEREBRAS_MODEL"), "gpt-oss-120b"@)
    &&& c.directories.logs_dir@ == or_default(var(env, "LOGS_DIR"), "logs"@)
    &&& c.directories.data_dir@ == or_default(var(env, "DATA_DIR"), "data"@)
    &&& c.directories.db_filename@ == or_default(var(env, "DB_FILENAME"), "whitelist.db"@)
    &&& c.logging.level@ == or_default(var(env, "LOG_LEVEL"), "info"@)
    &&& c.timezone@ == or_default(var(env, "BOT_TIMEZONE"), "Asia/Seoul"@)
    &&& c.scheduler.cron_specs@.map_values(|p: String| p@) == match var(env, "RESTART_CRONS") {
        Some(s) => nonblank_trimmed(split_on(s, ';')),
        None => default_crons(),
    }
    &&& c.web.max_urls_per_message == bounded_value(
        var(env, "MAX_URLS_PER_MESSAGE"),
        usize::MAX as u64,
        2,
    )
    &&& c.web.fetch_timeout_ms == bounded_value(var(env, "WEBPAGE_FETCH_TIMEOUT"), u64::MAX, 10_000)
    &&& c.web.content_max_length == bounded_value(
        var(env, "WEBPAGE_CONTENT_MAX_LENGTH"),
        usize::MAX as u64,
        1_000,
    )
    &&& c.resilience.network_error_threshold == bounded_value(
        var(env, "NETWORK_ERROR_THRESHOLD"),
        u32::MAX as u64,
        3,
    )
    &&& c.resilience.network_error_window_ms == bounded_value(
        var(env, "NETWORK_ERROR_WINDOW_MS"),
        u64::MAX,
        60_000,
    )
    &&& c.resilience.restart_cooldown_ms == bounded_value(
        var(env, "RESTART_COOLDOWN_MS"),
        u64::MAX,
        300_000,
    )
    &&& c.update.enabled == flag_value(var(env, "AUTO_UPDATE_ENABLED"), false)
    &&& c.update.check_on_startup == flag_value(var(env, "AUTO_UPDATE_ON_STARTUP"), true)
    &&& c.update.auto_restart == flag_value(var(env, "AUTO_UPDATE_RESTART"), true)
    &&& c.update.repo_owner@ == or_default(var(env, "UPDATE_REPO_OWNER"), ""@)
    &&& c.update.repo_name@ == or_default(var(env, "UPDATE_REPO_NAME"), ""@)
}

/// Reads the settings from the variables of the process environment, given
/// as name/value pairs. Only the bot token is required.
pub fn load_config(env: &Vec<(String, String)>) -> (r: Result<AppConfig, ConfigError>)
    ensures
        var(env@, "TELEGRAM_BOT_TOKEN") is None <==> r is Err,
        r matches Err(ConfigError::Missing(k)) ==> k@ == "TELEGRAM_BOT_TOKEN"@,
        r matches Ok(c) ==> config_from_env(c, env@),
{
    let telegram_bot_token = match lookup(env, "TELEGRAM_BOT_TOKEN") {
        Some(t) => t,
        None => return Err(ConfigError::Missing("TELEGRAM_BOT_TOKEN")),
    };
    let bot_username = nonempty(env, "BOT_USERNAME");
    let admin_user_id = int_var(env, "ADMIN_USER_ID");
    let admin_group_id = match int_var(env, "ADMIN_GROUP_ID") {
        Some(id) => if id > 0 {
            Some(-id)
        } else {
            Some(id)
        },
        None => None,
    };
    let allowed_chat_ids = match lookup(env, "ALLOWED_CHAT_IDS") {
        Some(v) => parse_chat_ids(v.as_str()),
        None => Vec::new(),
    };
    let cerebras = CerebrasConfig {
        api_key: nonempty(env, "CEREBRAS_API_KEY"),
        model: value_or(env, "CEREBRAS_MODEL", "gpt-oss-120b"),
    };
    let directories = DirectoryConfig {
        logs_dir: value_or(env, "LOGS_DIR", "logs"),
        data_dir: value_or(env, "DATA_DIR", "data"),
        db_filename: value_or(env, "DB_FILENAME", "whitelist.db"),
    };
    let logging = LoggingConfig { level: value_or(env, "LOG_LEVEL", "info") };
    let timezone = value_or(env, "BOT_TIMEZONE", "Asia/Seoul");
    let cron_specs = match lookup(env, "RESTART_CRONS") {
        Some(v) => parse_cron_specs(v.as_str()),
        None => {
            let mut d: Vec<String> = Vec::new();
            d.push(text("0 0 0 * * *"));
            d.push(text("0 0 12 * * *"));
            assert(d@.map_values(|p: String| p@) =~= default_crons());
            d
        },
    };
    let web = WebContentConfig {
        max_urls_per_message: bounded_var(env, "MAX_URLS_PER_MESSAGE", usize::MAX as u64, 2) as usize,
        fetch_timeout_ms: bounded_var(env, "WEBPAGE_FETCH_TIMEOUT", u64::MAX, 10_000),
        content_max_length: bounded_var(env, "WEBPAGE_CONTENT_MAX_LENGTH", usize::MAX as u64, 1_000) as usize,
    };
    let resilience = ResilienceConfig {
        network_error_threshold: bounded_var(env, "NETWORK_ERROR_THRESHOLD", u32::MAX as u64, 3) as u32,
        network_error_window_ms: bounded_var(env, "NETWORK_ERROR_WINDOW_MS", u64::MAX, 60_000),
        restart_cooldown_ms: bounded_var(env, "RESTART_COOLDOWN_MS", u64::MAX, 300_000),
    };
    let update = UpdateConfig {
        enabled: flag_var(env, "AUTO_UPDATE_ENABLED", false),
        check_on_startup: flag_var(env, "AUTO_UPDATE_ON_STARTUP", true),
        auto_restart: flag_var(env, "AUTO_UPDATE_RESTART", true),
        repo_owner: value_or(env, "UPDATE_REPO_OWNER", ""),
        repo_name: value_or(env, "UPDATE_REPO_NAME", ""),
    };
    Ok(AppConfig {
        telegram_bot_token,
        bot_username,
        admin_user_id,
        admin_group_id,
        allowed_chat_ids,
        cerebras,
        directories,
        logging,
        timezone,
        scheduler: SchedulerConfig { cron_specs },
        web,
        resilience,
        update,
    })
}

} // verus!
