use demo_server::{default_config, handle_request, respond, route_of, Route};

const CSS_BODY: &str = r#"
        .test {
            color: red;
           text-size: 32px;
        }
    "#;

#[test]
fn route_dispatch_is_exact() {
    assert_eq!(route_of("/"), Route::Root);
    assert_eq!(route_of("/ping"), Route::Ping);
    assert_eq!(route_of("/file"), Route::File);
    assert_eq!(route_of("/files"), Route::NotFound);
    assert_eq!(route_of("/ping/"), Route::NotFound);
    assert_eq!(route_of(""), Route::NotFound);
    assert_eq!(route_of("/PING"), Route::NotFound);
}

#[test]
fn ping_returns_success_with_empty_body() {
    let r = respond("/ping", "", None);
    assert_eq!(r.status, 200);
    assert_eq!(r.content_type, None);
    assert_eq!(r.body, "");
}

#[test]
fn ping_ignores_query() {
    let r = respond("/ping", "tag=whatever", None);
    assert_eq!(r.status, 200);
    assert_eq!(r.body, "");
}

#[test]
fn file_tag_css_returns_stylesheet() {
    let r = respond("/file", "tag=css", None);
    assert_eq!(r.status, 200);
    assert_eq!(r.content_type, Some("text/css".to_string()));
    assert_eq!(r.body, CSS_BODY);
}

#[test]
fn file_tag_js_returns_same_stylesheet() {
    // Pins the current behavior: the js variant is declared but not
    // wired to anything of its own, so the same stylesheet comes back.
    let r = respond("/file", "tag=js", None);
    assert_eq!(r.status, 200);
    assert_eq!(r.content_type, Some("text/css".to_string()));
    assert_eq!(r.body, CSS_BODY);
}

#[test]
fn file_tag_path_returns_same_stylesheet() {
    // Pins the current behavior, as for the js variant.
    let r = respond("/file", "tag=path", None);
    assert_eq!(r.status, 200);
    assert_eq!(r.content_type, Some("text/css".to_string()));
    assert_eq!(r.body, CSS_BODY);
}

#[test]
fn file_with_val_still_returns_stylesheet() {
    let r = respond("/file", "tag=css&val=extra", None);
    assert_eq!(r.status, 200);
    assert_eq!(r.body, CSS_BODY);
}

#[test]
fn file_without_tag_is_client_error() {
    let r = respond("/file", "", None);
    assert_eq!(r.status, 400);
    let r = respond("/file", "val=x", None);
    assert_eq!(r.status, 400);
}

#[test]
fn file_with_unknown_tag_is_client_error() {
    let r = respond("/file", "tag=html", None);
    assert_eq!(r.status, 400);
    let r = respond("/file", "tag=", None);
    assert_eq!(r.status, 400);
}

#[test]
fn unknown_path_is_not_found() {
    let r = respond("/missing", "", None);
    assert_eq!(r.status, 404);
    assert_eq!(r.body, "");
}

#[test]
fn root_without_inlining_serves_page_with_body_text() {
    let r = respond("/", "", None);
    assert_eq!(r.status, 200);
    assert_eq!(r.content_type, Some("text/html".to_string()));
    assert!(r.body.contains("TEST BODY"));
    assert!(r.body.contains("<link rel=\"stylesheet\" type=\"text/css\" href=\"/file?tag=css\">"));
}

#[test]
fn repeated_requests_yield_identical_responses() {
    for (path, query) in [
        ("/", ""),
        ("/ping", ""),
        ("/file", "tag=css"),
        ("/file", "tag=bad"),
        ("/elsewhere", ""),
    ] {
        let a = respond(path, query, None);
        let b = respond(path, query, None);
        assert_eq!(a.status, b.status);
        assert_eq!(a.content_type, b.content_type);
        assert_eq!(a.body, b.body);
    }
}

#[test]
fn handle_request_root_always_carries_body_text() {
    // Exercises the real CSS inlining pass; whether it succeeds or
    // falls back, the fixed body text must be in the page.
    let cfg = default_config();
    let r = handle_request(&cfg, "/", "");
    assert_eq!(r.status, 200);
    assert_eq!(r.content_type, Some("text/html".to_string()));
    assert!(r.body.contains("TEST BODY"));
}

#[test]
fn handle_request_other_routes_match_respond() {
    let cfg = default_config();
    let r = handle_request(&cfg, "/file", "tag=css");
    assert_eq!(r.status, 200);
    assert_eq!(r.body, CSS_BODY);
    let r = handle_request(&cfg, "/ping", "");
    assert_eq!(r.status, 200);
    assert_eq!(r.body, "");
    let r = handle_request(&cfg, "/gone", "");
    assert_eq!(r.status, 404);
}
