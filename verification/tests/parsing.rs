use demo_server::{
    base_url, choose_body, css_content, find_sub, page_html, parse_query, ping_url, probe_step,
    str_eq, tag_of, u16_to_string, FileTag, ProbeStep, QueryError,
};

#[test]
fn parse_recognizes_each_tag() {
    let m = parse_query("tag=css").unwrap();
    assert_eq!(m.tag, FileTag::Css);
    assert_eq!(m.val, None);
    let m = parse_query("tag=js").unwrap();
    assert_eq!(m.tag, FileTag::Js);
    let m = parse_query("tag=path").unwrap();
    assert_eq!(m.tag, FileTag::Path);
}

#[test]
fn parse_keeps_val_verbatim() {
    let m = parse_query("tag=css&val=hello").unwrap();
    assert_eq!(m.tag, FileTag::Css);
    assert_eq!(m.val, Some("hello".to_string()));
    let m = parse_query("val=first&tag=path").unwrap();
    assert_eq!(m.tag, FileTag::Path);
    assert_eq!(m.val, Some("first".to_string()));
    let m = parse_query("tag=css&val=").unwrap();
    assert_eq!(m.val, Some(String::new()));
    let m = parse_query("tag=css&val=a=b").unwrap();
    assert_eq!(m.val, Some("a=b".to_string()));
}

#[test]
fn parse_rejects_missing_tag() {
    assert!(matches!(parse_query(""), Err(QueryError::MissingTag)));
    assert!(matches!(parse_query("val=x"), Err(QueryError::MissingTag)));
    assert!(matches!(parse_query("other=css"), Err(QueryError::MissingTag)));
}

#[test]
fn parse_rejects_unknown_tag() {
    assert!(matches!(parse_query("tag=html"), Err(QueryError::UnknownTag)));
    assert!(matches!(parse_query("tag="), Err(QueryError::UnknownTag)));
    assert!(matches!(parse_query("tag"), Err(QueryError::UnknownTag)));
    assert!(matches!(parse_query("tag=CSS"), Err(QueryError::UnknownTag)));
    assert!(matches!(parse_query("tag=cssx"), Err(QueryError::UnknownTag)));
}

#[test]
fn parse_rejects_duplicate_keys() {
    assert!(matches!(parse_query("tag=css&tag=js"), Err(QueryError::DuplicateKey)));
    assert!(matches!(parse_query("tag=css&val=a&val=b"), Err(QueryError::DuplicateKey)));
}

#[test]
fn parse_ignores_unknown_keys() {
    let m = parse_query("x=1&tag=js&y=2").unwrap();
    assert_eq!(m.tag, FileTag::Js);
    assert_eq!(m.val, None);
}

#[test]
fn tag_of_names_the_variants() {
    assert_eq!(tag_of("css"), Some(FileTag::Css));
    assert_eq!(tag_of("js"), Some(FileTag::Js));
    assert_eq!(tag_of("path"), Some(FileTag::Path));
    assert_eq!(tag_of("other"), None);
    assert_eq!(tag_of(""), None);
}

#[test]
fn str_eq_compares_contents() {
    assert!(str_eq("abc", "abc"));
    assert!(!str_eq("abc", "abd"));
    assert!(!str_eq("abc", "ab"));
    assert!(str_eq("", ""));
}

#[test]
fn find_sub_locates_needles() {
    assert_eq!(find_sub("hello world", "world"), Some(6));
    assert_eq!(find_sub("hello world", "hello"), Some(0));
    assert_eq!(find_sub("hello world", "worlds"), None);
    assert_eq!(find_sub("abc", ""), Some(0));
    assert_eq!(find_sub("", "a"), None);
}

#[test]
fn page_carries_its_fixed_parts() {
    let p = page_html();
    assert!(p.contains("TEST BODY"));
    assert!(p.contains("<title>Demo</title>"));
    assert!(p.contains("href=\"/file?tag=css\""));
    assert!(css_content().contains("color: red;"));
}

#[test]
fn choose_body_prefers_a_sound_inlined_page() {
    let original = "original TEST BODY".to_string();
    let inlined = "inlined TEST BODY".to_string();
    assert_eq!(choose_body(original.clone(), Some(inlined.clone())), inlined);
    let stripped = "inlined without the text".to_string();
    assert_eq!(choose_body(original.clone(), Some(stripped)), original);
    assert_eq!(choose_body(original.clone(), None), original);
}

#[test]
fn decimal_rendering_is_exact() {
    assert_eq!(u16_to_string(0), "0");
    assert_eq!(u16_to_string(9), "9");
    assert_eq!(u16_to_string(10), "10");
    assert_eq!(u16_to_string(3009), "3009");
    assert_eq!(u16_to_string(65535), "65535");
}

#[test]
fn server_urls_are_exact() {
    assert_eq!(base_url(3009), "http://127.0.0.1:3009");
    assert_eq!(ping_url(3009), "http://127.0.0.1:3009/ping");
    assert_eq!(ping_url(80), "http://127.0.0.1:80/ping");
}

#[test]
fn probe_retries_until_reachable() {
    assert_eq!(probe_step(false), ProbeStep::Retry);
    assert_eq!(probe_step(true), ProbeStep::Ready);
}
