use steamscrape::numtext::{parse_u64, u64_to_string};
use steamscrape::page::{cache_dir, page_cache_path, page_url};

#[test]
fn resolve_is_deterministic() {
    let first = page_cache_path(678950);
    let second = page_cache_path(678950);
    assert_eq!(first, second);
}

#[test]
fn page_cache_path_layout() {
    assert_eq!(page_cache_path(678950), "cache/678950/index.html");
}

#[test]
fn cache_dir_layout() {
    assert_eq!(cache_dir(678950), "cache/678950");
    assert_eq!(cache_dir(0), "cache/0");
}

#[test]
fn page_url_template() {
    assert_eq!(page_url(678950), "http://store.steampowered.com/app/678950/");
}

#[test]
fn renders_decimal() {
    assert_eq!(u64_to_string(0), "0");
    assert_eq!(u64_to_string(10), "10");
    assert_eq!(u64_to_string(678950), "678950");
    assert_eq!(u64_to_string(u64::MAX), "18446744073709551615");
}

#[test]
fn parses_decimal() {
    assert_eq!(parse_u64("678950"), Some(678950));
    assert_eq!(parse_u64("0"), Some(0));
    assert_eq!(parse_u64("18446744073709551615"), Some(u64::MAX));
}

#[test]
fn rejects_non_decimal() {
    assert_eq!(parse_u64(""), None);
    assert_eq!(parse_u64("12a"), None);
    assert_eq!(parse_u64("+5"), None);
    assert_eq!(parse_u64("-5"), None);
}

#[test]
fn rejects_overflowing_decimal() {
    assert_eq!(parse_u64("18446744073709551616"), None);
    assert_eq!(parse_u64("99999999999999999999999"), None);
}
