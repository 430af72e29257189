use spam_guard::config::{load_config, ConfigError};

fn pair(k: &str, v: &str) -> (String, String) {
    (k.to_string(), v.to_string())
}

#[test]
fn token_is_required() {
    let r = load_config(&vec![pair("BOT_USERNAME", "x")]);
    assert!(matches!(r, Err(ConfigError::Missing("TELEGRAM_BOT_TOKEN"))));
}

#[test]
fn defaults_apply() {
    let c = load_config(&vec![pair("TELEGRAM_BOT_TOKEN", "SECRET-REDACTED")]).unwrap();
    assert_eq!(c.telegram_bot_token, "SECRET-REDACTED");
    assert_eq!(c.bot_username, None);
    assert_eq!(c.admin_group_id, None);
    assert!(c.allowed_chat_ids.is_empty());
    assert_eq!(c.cerebras.model, "gpt-oss-120b");
    assert_eq!(c.cerebras.api_key, None);
    assert_eq!(c.directories.logs_dir, "logs");
    assert_eq!(c.directories.data_dir, "data");
    assert_eq!(c.directories.db_filename, "whitelist.db");
    assert_eq!(c.logging.level, "info");
    assert_eq!(c.timezone, "Asia/Seoul");
    assert_eq!(c.scheduler.cron_specs, vec!["0 0 0 * * *".to_string(), "0 0 12 * * *".to_string()]);
    assert_eq!(c.web.max_urls_per_message, 2);
    assert_eq!(c.web.fetch_timeout_ms, 10_000);
    assert_eq!(c.web.content_max_length, 1_000);
    assert_eq!(c.resilience.network_error_threshold, 3);
    assert_eq!(c.resilience.network_error_window_ms, 60_000);
    assert_eq!(c.resilience.restart_cooldown_ms, 300_000);
    assert!(!c.update.enabled);
    assert!(c.update.check_on_startup);
}

#[test]
fn values_are_parsed() {
    let c = load_config(&vec![
        pair("TELEGRAM_BOT_TOKEN", "t"),
        pair("BOT_USERNAME", ""),
        pair("ADMIN_USER_ID", "12"),
        pair("ADMIN_GROUP_ID", "1001234"),
        pair("ALLOWED_CHAT_IDS", " -1, x, +5 ,,-7"),
        pair("RESTART_CRONS", " 0 0 3 * * * ; ;0 30 4 * * *"),
        pair("MAX_URLS_PER_MESSAGE", "nope"),
        pair("WEBPAGE_CONTENT_MAX_LENGTH", "+300"),
        pair("NETWORK_ERROR_THRESHOLD", "99999999999"),
        pair("AUTO_UPDATE_ENABLED", "TRUE"),
        pair("CEREBRAS_API_KEY", "k"),
    ])
    .unwrap();
    assert_eq!(c.bot_username, None);
    assert_eq!(c.admin_user_id, Some(12));
    assert_eq!(c.admin_group_id, Some(-1001234));
    assert_eq!(c.allowed_chat_ids, vec![-1, 5, -7]);
    assert_eq!(c.scheduler.cron_specs, vec!["0 0 3 * * *".to_string(), "0 30 4 * * *".to_string()]);
    assert_eq!(c.web.max_urls_per_message, 2);
    assert_eq!(c.web.content_max_length, 300);
    assert_eq!(c.resilience.network_error_threshold, 3);
    assert!(c.update.enabled);
    assert_eq!(c.cerebras.api_key, Some("k".to_string()));
}

#[test]
fn negative_group_id_is_kept() {
    let c = load_config(&vec![pair("TELEGRAM_BOT_TOKEN", "t"), pair("ADMIN_GROUP_ID", "-42")]).unwrap();
    assert_eq!(c.admin_group_id, Some(-42));
}
