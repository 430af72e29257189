use spam_guard::text::{push_decimal, push_signed_decimal, trim, trim_end};
use spam_guard::updater::{is_newer_release, platform_package, tag_version};
use spam_guard::web_content::{build_web_content, clean_str, is_fetchable, truncate_utf8};

#[test]
fn only_web_links_are_fetched() {
    assert!(is_fetchable("https://example.com/a"));
    assert!(is_fetchable("HTTP://example.com"));
    assert!(!is_fetchable("ftp://example.com"));
    assert!(!is_fetchable("not a url"));
}

#[test]
fn clean_strings() {
    assert_eq!(clean_str(Some("  hi ".to_string())), Some("hi".to_string()));
    assert_eq!(clean_str(Some(" \n ".to_string())), None);
    assert_eq!(clean_str(None), None);
}

#[test]
fn truncation_keeps_whole_characters() {
    assert_eq!(truncate_utf8("hello", 3), "hel");
    assert_eq!(truncate_utf8("hello", 10), "hello");
    assert_eq!(truncate_utf8("가나다", 7), "가나");
    assert_eq!(truncate_utf8("가나다", 6), "가나");
    assert_eq!(truncate_utf8("가", 2), "");
}

#[test]
fn page_description_from_article() {
    let c = build_web_content("  Title ".to_string(), Some("   ".to_string()), "  body text  ".to_string(), 4);
    assert_eq!(c.title, Some("Title".to_string()));
    assert_eq!(c.site_name, None);
    assert_eq!(c.content, Some("body".to_string()));
    let e = build_web_content("".to_string(), None, "   ".to_string(), 100);
    assert_eq!(e.title, None);
    assert_eq!(e.content, None);
}

#[test]
fn text_helpers() {
    assert_eq!(trim("\u{3000} a b \t"), "a b");
    assert_eq!(trim_end(" a \n"), " a");
    let mut s = String::new();
    push_decimal(&mut s, 0);
    s.push(',');
    push_decimal(&mut s, 18446744073709551615);
    s.push(',');
    push_signed_decimal(&mut s, i64::MIN);
    assert_eq!(s, "0,18446744073709551615,-9223372036854775808");
}

#[test]
fn release_assets_per_platform() {
    let p = platform_package("linux", "x86_64", "gnu").unwrap();
    assert_eq!(p.asset_name, "fuckyou-spam-rust-linux-x86_64.tar.gz");
    assert_eq!(p.binary_name, "fuckyou-spam-rust");
    assert_eq!(platform_package("linux", "x86_64", "musl").unwrap().asset_name, "fuckyou-spam-rust-linux-x86_64-musl.tar.gz");
    assert_eq!(platform_package("macos", "aarch64", "").unwrap().asset_name, "fuckyou-spam-rust-macos-aarch64.tar.gz");
    assert!(platform_package("windows", "x86_64", "msvc").is_none());
}

#[test]
fn release_versions() {
    assert_eq!(tag_version("v1.2.3"), "1.2.3");
    assert_eq!(tag_version("1.2.3"), "1.2.3");
    assert_eq!(is_newer_release("v1.3.0", "1.2.9"), Some(true));
    assert_eq!(is_newer_release("v1.2.3", "1.2.3"), Some(false));
    assert_eq!(is_newer_release("v1.2.3-beta", "1.2.3"), Some(false));
    assert_eq!(is_newer_release("latest", "1.2.3"), None);
}
