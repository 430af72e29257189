use spam_guard::config::load_config;
use spam_guard::inbound::{
    calc_priority, count_char, extract_urls, format_user_display, has_telegram_group_link,
    is_admin_group, is_admin_user, is_chat_allowed_by_config, message_body, normalize_url,
    parse_admin_command, priority_from_signals, urls_from_matches, user_to_i64, AdminCommand,
    CommandTarget,
};
use spam_guard::queue::Priority;

#[test]
fn extract_urls_strips_trailing_parens() {
    let text =
        "실시간 종목타점 공유하는 채널\n확인하기(URL: https://t.me/c/2485256729/1/205) (스팸)";
    let urls = extract_urls(text, 5);
    assert_eq!(urls, vec!["https://t.me/c/2485256729/1/205".to_string()]);
}

#[test]
fn telegram_regex_matches_deeplinks() {
    assert!(has_telegram_group_link("https://t.me/c/2485256729/1/205"));
    assert!(has_telegram_group_link("t.me/MyChannel"));
}

#[test]
fn group_link_absent_in_plain_text() {
    assert!(!has_telegram_group_link("hello there, see you at five"));
    assert!(has_telegram_group_link("join TELEGRAM.ME/some_group now"));
}

#[test]
fn extract_urls_respects_limit_and_order() {
    let text = "a https://one.example/x, b http://two.example/y. c https://three.example/z";
    let urls = extract_urls(text, 2);
    assert_eq!(
        urls,
        vec!["https://one.example/x".to_string(), "http://two.example/y".to_string()]
    );
    assert!(extract_urls(text, 0).is_empty());
    assert!(extract_urls("no links here", 5).is_empty());
}

#[test]
fn urls_from_matches_cleans_and_skips_empty() {
    let matches = vec![
        "https://a.example/(x)".to_string(),
        "!!!".to_string(),
        "https://b.example/\"q\"".to_string(),
        "https://c.example/end;".to_string(),
    ];
    let urls = urls_from_matches(&matches, 5);
    assert_eq!(
        urls,
        vec![
            "https://a.example/(x)".to_string(),
            "https://b.example/\"q\"".to_string(),
            "https://c.example/end".to_string(),
        ]
    );
    let first = urls_from_matches(&matches, 1);
    assert_eq!(first, vec!["https://a.example/(x)".to_string()]);
}

#[test]
fn normalize_url_trims_stray_punctuation() {
    assert_eq!(normalize_url("https://x.example/a)"), "https://x.example/a");
    assert_eq!(normalize_url("https://x.example/(a)"), "https://x.example/(a)");
    assert_eq!(normalize_url("https://x.example/a].,"), "https://x.example/a");
    assert_eq!(normalize_url("https://x.example/a'"), "https://x.example/a");
    assert_eq!(normalize_url("https://x.example/'a'"), "https://x.example/'a'");
    assert_eq!(normalize_url("https://x.example/a>  "), "https://x.example/a");
    assert_eq!(normalize_url("https://x.example/a}?!"), "https://x.example/a");
    assert_eq!(normalize_url(")"), "");
}

#[test]
fn count_char_counts_occurrences() {
    assert_eq!(count_char("a\"b\"c\"", '"'), 3);
    assert_eq!(count_char("", 'x'), 0);
    assert_eq!(count_char("스팸스팸", '팸'), 2);
}

#[test]
fn priority_scores() {
    assert!(matches!(priority_from_signals(false, false, true), (Priority::Normal, 1)));
    assert!(matches!(priority_from_signals(false, true, true), (Priority::Normal, 6)));
    assert!(matches!(priority_from_signals(false, false, false), (Priority::Normal, 11)));
    assert!(matches!(priority_from_signals(false, true, false), (Priority::High, 16)));
    assert!(matches!(priority_from_signals(true, true, true), (Priority::High, 26)));
    assert!(matches!(priority_from_signals(true, true, false), (Priority::High, 36)));
}

#[test]
fn calc_priority_from_text() {
    assert!(matches!(calc_priority("hello", true), (Priority::Normal, 1)));
    assert!(matches!(calc_priority("see https://x.example", true), (Priority::Normal, 6)));
    assert!(matches!(calc_priority("see https://t.me/chan", true), (Priority::High, 26)));
    assert!(matches!(calc_priority("t.me/chan", false), (Priority::High, 31)));
    assert!(matches!(calc_priority("hello", false), (Priority::Normal, 11)));
}

#[test]
fn user_display_forms() {
    assert_eq!(format_user_display(Some("alice"), "Alice", None), "@alice");
    assert_eq!(format_user_display(None, "Alice", Some("Kim")), "Alice Kim");
    assert_eq!(format_user_display(None, "  Bob ", None), "Bob");
    assert_eq!(format_user_display(None, "", Some(" ")), "Unknown");
}

#[test]
fn user_ids_saturate() {
    assert_eq!(user_to_i64(42), 42);
    assert_eq!(user_to_i64(u64::MAX), i64::MAX);
    assert_eq!(user_to_i64(i64::MAX as u64), i64::MAX);
}

#[test]
fn message_body_prefers_text_then_caption() {
    assert_eq!(message_body(Some("  hi  "), Some("cap")), "hi");
    assert_eq!(message_body(None, Some(" cap ")), "cap");
    assert_eq!(message_body(Some("   "), Some("cap")), "[미디어 메시지]");
    assert_eq!(message_body(None, None), "[미디어 메시지]");
}

#[test]
fn admin_commands_parse() {
    assert_eq!(
        parse_admin_command("/whitelist_add -1001234567890"),
        Some(AdminCommand::WhitelistAdd(CommandTarget::Chat(-1001234567890)))
    );
    assert_eq!(
        parse_admin_command("/whitelist_remove   abc"),
        Some(AdminCommand::WhitelistRemove(CommandTarget::Invalid))
    );
    assert_eq!(
        parse_admin_command("/whitelist_add"),
        Some(AdminCommand::WhitelistAdd(CommandTarget::Missing))
    );
    assert_eq!(parse_admin_command("/whitelist_list"), Some(AdminCommand::WhitelistList));
    assert_eq!(parse_admin_command("/sync_commands now"), Some(AdminCommand::SyncCommands));
    assert_eq!(parse_admin_command("/start"), None);
    assert_eq!(parse_admin_command("whitelist_list"), None);
    assert_eq!(parse_admin_command(""), None);
}

#[test]
fn chat_permissions_from_config() {
    let env = vec![
        ("TELEGRAM_BOT_TOKEN".to_string(), "t".to_string()),
        ("ADMIN_GROUP_ID".to_string(), "555".to_string()),
        ("ADMIN_USER_ID".to_string(), "77".to_string()),
        ("ALLOWED_CHAT_IDS".to_string(), "-100, -200".to_string()),
    ];
    let cfg = load_config(&env).unwrap();
    assert!(is_chat_allowed_by_config(&cfg, 12));
    assert!(is_chat_allowed_by_config(&cfg, -555));
    assert!(is_chat_allowed_by_config(&cfg, -200));
    assert!(!is_chat_allowed_by_config(&cfg, -300));
    assert!(is_admin_group(&cfg, -555));
    assert!(!is_admin_group(&cfg, 555));
    assert!(is_admin_user(&cfg, 77));
    assert!(!is_admin_user(&cfg, 78));
}
