use loom::bridge::query::{decoding_cuts_a_character, parse_host_session_id, percent_decode, session_value};
use loom::paths::{artifact_allowed, artifacts_allowed, join_path, path_begins_with};
use loom::text::{
    join_strings, parse_u32, parse_u128, split_chars, str_contains, str_is_blank, to_chars,
    trim_text, u128_to_decimal,
};

#[test]
fn decimal_text_of_numbers() {
    assert_eq!(u128_to_decimal(0), "0");
    assert_eq!(u128_to_decimal(1_700_000_000_123), "1700000000123");
    assert_eq!(u128_to_decimal(u128::MAX), u128::MAX.to_string());
}

#[test]
fn parsing_unsigned_numbers_follows_str_parse() {
    assert_eq!(parse_u32("42"), Some(42));
    assert_eq!(parse_u32("+7"), Some(7));
    assert_eq!(parse_u32("4294967295"), Some(u32::MAX));
    assert_eq!(parse_u32("4294967296"), None);
    assert_eq!(parse_u32(""), None);
    assert_eq!(parse_u32("+"), None);
    assert_eq!(parse_u32("-1"), None);
    assert_eq!(parse_u32(" 1"), None);
    assert_eq!(parse_u128("1700000000000"), Some(1_700_000_000_000));
}

#[test]
fn splitting_trimming_and_joining() {
    let parts = split_chars(&to_chars("a&&b&"), '&');
    let texts: Vec<String> = parts.iter().map(|p| p.iter().collect()).collect();
    assert_eq!(texts, vec!["a", "", "b", ""]);
    assert_eq!(trim_text("  \n Summary: done \t"), "Summary: done");
    assert_eq!(trim_text(" \u{3000} "), "");
    assert!(str_is_blank(" \t\r\n"));
    assert!(!str_is_blank(" x "));
    assert_eq!(join_strings(&vec!["a".to_string(), "b".to_string(), "c".to_string()], ", "), "a, b, c");
    assert!(str_contains("worker verification section", "verification"));
    assert!(!str_contains("verif", "verification"));
}

#[test]
fn percent_decoding_of_query_values() {
    assert_eq!(percent_decode("agent%3Amain%3Amain"), "agent:main:main");
    assert_eq!(percent_decode("a+b"), "a b");
    assert_eq!(percent_decode("100%"), "100%");
    assert_eq!(percent_decode("%zz"), "%zz");
    // `u8::from_str_radix` takes a leading `+`.
    assert_eq!(percent_decode("%+41"), "\u{4}1");
    // Bytes that are not UTF-8 leave the value as it was.
    assert_eq!(percent_decode("%ff"), "%ff");
    assert_eq!(percent_decode("%C3%A9"), "é");
}

#[test]
fn outbound_query_decodes_percent_encoded_host_session_id() {
    assert_eq!(
        parse_host_session_id("host_session_id=agent%3Amain%3Amain").unwrap(),
        "agent:main:main"
    );
    assert_eq!(
        parse_host_session_id("x=1&host_session_id=agent:main:main&host_session_id=other").unwrap(),
        "agent:main:main"
    );
    assert_eq!(parse_host_session_id("x=1&flag").unwrap_err(), "missing host_session_id");
    assert_eq!(session_value("host_session_id"), None);
    assert_eq!(session_value("host_session_id=a=b"), Some("a=b".to_string()));
}

#[test]
fn path_prefixes_follow_path_components() {
    assert!(path_begins_with("/work/repo/src/lib.rs", "/work/repo"));
    assert!(path_begins_with("/work//repo/./src", "/work/repo/"));
    assert!(!path_begins_with("/work/repository", "/work/repo"));
    assert!(!path_begins_with("work/repo", "/work"));
    assert!(path_begins_with("/anything", ""));
    assert_eq!(join_path("/work/repo", "src/a.rs"), "/work/repo/src/a.rs");
    assert_eq!(join_path("/work/repo/", "src/a.rs"), "/work/repo/src/a.rs");
    assert_eq!(join_path("", "src/a.rs"), "src/a.rs");
}

#[test]
fn artifacts_must_stay_under_authorized_roots() {
    let roots = vec!["/work/repo".to_string()];
    assert!(artifact_allowed("/work/repo/src/lib.rs", &roots));
    assert!(artifact_allowed("src/lib.rs", &roots));
    assert!(!artifact_allowed("/etc/passwd", &roots));
    assert!(!artifact_allowed("../escape.rs", &roots));
    assert!(!artifact_allowed("src/../../escape.rs", &roots));
    assert!(!artifact_allowed("   ", &roots));
    assert!(!artifact_allowed("src/lib.rs", &Vec::new()));
    assert!(artifacts_allowed(&vec!["a.rs".to_string(), "/work/repo/b.rs".to_string()], &roots));
    assert!(!artifacts_allowed(&vec!["a.rs".to_string(), "/tmp/b.rs".to_string()], &roots));
    assert!(artifacts_allowed(&Vec::new(), &Vec::new()));
}

#[test]
fn decoding_cut_is_detected_only_inside_a_character() {
    assert!(decoding_cuts_a_character("%4\u{e9}"));
    assert!(!decoding_cuts_a_character("%41\u{e9}"));
    assert!(!decoding_cuts_a_character("plain-session"));
    assert!(!decoding_cuts_a_character("%"));
}

#[test]
fn plain_values_and_relative_artifacts_follow_their_laws() {
    assert_eq!(percent_decode("bridge-session:é"), "bridge-session:é");
    let roots = vec!["/srv/work/".to_string()];
    assert!(artifact_allowed("notes/./out.md", &roots));
    assert!(artifact_allowed("./notes", &roots));
    assert!(!artifact_allowed("notes/../../etc", &roots));
    assert!(!artifact_allowed("notes/out.md", &Vec::new()));
}
