use feed_spider::model::{Mapper, RequestKind, Spider};
use feed_spider::text::{extension_of, pad4, parse_u32, str_eq, u64_to_string};

#[test]
fn renders_decimal() {
    assert_eq!(u64_to_string(0), "0");
    assert_eq!(u64_to_string(7), "7");
    assert_eq!(u64_to_string(1234567890), "1234567890");
    assert_eq!(u64_to_string(u64::MAX), "18446744073709551615");
}

#[test]
fn pads_to_four() {
    assert_eq!(pad4(0), "0000");
    assert_eq!(pad4(7), "0007");
    assert_eq!(pad4(42), "0042");
    assert_eq!(pad4(999), "0999");
    assert_eq!(pad4(1000), "1000");
    assert_eq!(pad4(12345), "12345");
}

#[test]
fn parses_counts() {
    assert_eq!(parse_u32("0"), Some(0));
    assert_eq!(parse_u32("123"), Some(123));
    assert_eq!(parse_u32("4294967295"), Some(u32::MAX));
    assert_eq!(parse_u32("4294967296"), None);
    assert_eq!(parse_u32(""), None);
    assert_eq!(parse_u32("12a"), None);
    assert_eq!(parse_u32("-3"), None);
}

#[test]
fn extracts_extensions() {
    assert_eq!(extension_of("http://host/a.b.jpg"), "jpg");
    assert_eq!(extension_of("noext"), "noext");
    assert_eq!(extension_of("trailing."), "");
    assert_eq!(extension_of(""), "");
    assert_eq!(extension_of(".hidden"), "hidden");
}

#[test]
fn compares_text() {
    assert!(str_eq("abc", "abc"));
    assert!(!str_eq("abc", "abd"));
    assert!(!str_eq("abc", "ab"));
    assert!(str_eq("", ""));
}

#[test]
fn joins_queries_in_insertion_order() {
    let m = Mapper::new(
        "/p".to_string(),
        "GET".to_string(),
        vec![
            ("a".to_string(), "1".to_string()),
            ("b".to_string(), "2".to_string()),
        ],
        RequestKind::ProfileLookup,
    );
    assert_eq!(m.sub_url(), "/p?a=1&b=2");
}

#[test]
fn builds_full_urls() {
    let m = Mapper::new(
        "/q".to_string(),
        "GET".to_string(),
        vec![("k".to_string(), "v".to_string())],
        RequestKind::PageLookup,
    );
    let spider = Spider::new("https://origin".to_string(), Vec::new());
    assert_eq!(spider.full_url(&m), "https://origin/q?k=v");
}
