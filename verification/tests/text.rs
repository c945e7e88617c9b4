use chromiumoxide::base64_text::decode_data;
use chromiumoxide::error::CdpError;
use chromiumoxide::text::{
    ends_with, parse_u64, remove_all, replace_once, same_text, starts_with, trim,
};
use chromiumoxide::url::{
    strip_leading_slash, strip_query_fragment, url_base_name, url_extension,
    url_path_with_leading_slash,
};

#[test]
fn texts_begin_and_end() {
    assert!(starts_with("https://a", "https://"));
    assert!(!starts_with("http", "https"));
    assert!(starts_with("", ""));
    assert!(ends_with("map.xml", ".xml"));
    assert!(!ends_with("xml", ".xml"));
    assert!(same_text("ü", "ü"));
    assert!(!same_text("a", "ab"));
}

#[test]
fn the_first_occurrence_is_replaced() {
    assert_eq!(replace_once("http://a/http://b", "http://", "https://"), "https://a/http://b");
    assert_eq!(replace_once("ftp://a", "http://", "https://"), "ftp://a");
    assert_eq!(replace_once("xab", "ab", ""), "x");
}

#[test]
fn all_occurrences_are_removed() {
    assert_eq!(remove_all("abcabcx", "abc"), "x");
    assert_eq!(remove_all("aaa", "aa"), "a");
    assert_eq!(remove_all("abc", ""), "abc");
    assert_eq!(remove_all("", "a"), "");
}

#[test]
fn white_space_is_trimmed() {
    assert_eq!(trim(" \t\u{a0}a b\u{2003}\n"), "a b");
    assert_eq!(trim("   "), "");
    assert_eq!(trim("x"), "x");
}

#[test]
fn numbers_are_parsed() {
    assert_eq!(parse_u64("0"), Some(0));
    assert_eq!(parse_u64("+042"), Some(42));
    assert_eq!(parse_u64("18446744073709551615"), Some(u64::MAX));
    assert_eq!(parse_u64("18446744073709551616"), None);
    for text in ["", "+", "-1", "1a", " 1", "++1"] {
        assert_eq!(parse_u64(text), None);
    }
}

#[test]
fn paths_of_urls() {
    assert_eq!(
        url_path_with_leading_slash("https://cdn.example.net/js/app.js?x=y"),
        Some("/js/app.js?x=y")
    );
    assert_eq!(url_path_with_leading_slash("https://cdn.example.net"), None);
    assert_eq!(url_path_with_leading_slash("https://cdn.example.net/"), Some("/"));
    assert_eq!(url_path_with_leading_slash("//a//b"), Some("//b"));
    assert_eq!(url_path_with_leading_slash("about:blank"), None);
}

#[test]
fn queries_and_fragments_are_stripped() {
    assert_eq!(strip_query_fragment("/a/b.js?x=1#y"), "/a/b.js");
    assert_eq!(strip_query_fragment("/a/b.js#y?x=1"), "/a/b.js");
    assert_eq!(strip_query_fragment("/a/b.js?x"), "/a/b.js");
    assert_eq!(strip_query_fragment("/a/b.js"), "/a/b.js");
    assert_eq!(strip_query_fragment(strip_query_fragment("/ü?x")), "/ü");
}

#[test]
fn parts_of_paths() {
    assert_eq!(strip_leading_slash("/js/app.js"), "js/app.js");
    assert_eq!(strip_leading_slash("js"), "js");
    assert_eq!(url_base_name("/js/app.js"), "app.js");
    assert_eq!(url_base_name("/js/"), "");
    assert_eq!(url_base_name("app.js"), "app.js");
}

#[test]
fn extensions_take_more_than_a_byte() {
    assert_eq!(url_extension("https://a.example/x.css"), Some("css"));
    assert_eq!(url_extension("https://a/x.é"), Some("é"));
    assert_eq!(url_extension("https://a/x.c"), None);
    assert_eq!(url_extension("https://a/x."), None);
    assert_eq!(url_extension("x"), None);
}

#[test]
fn base64_is_decoded_strictly() {
    assert_eq!(decode_data("aGVsbG8=").ok(), Some(b"hello".to_vec()));
    assert_eq!(decode_data("").ok(), Some(Vec::new()));
    assert_eq!(decode_data("+/+/").ok(), Some(vec![0xfb, 0xff, 0xbf]));
    for text in ["aGVsbG8", "aGVsbG9=", "aGVs bG8=", "-_-_", "="] {
        assert!(matches!(decode_data(text), Err(CdpError::Decode)));
    }
}
