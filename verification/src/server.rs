//! The server's verified core: route dispatch, the response for every
//! request, the fallback decision around CSS inlining, the readiness
//! probe step, and the server's own URLs.

use vstd::prelude::*;
use vstd::string::StringExecFns;
use crate::inline::inline_css;
use crate::page::{css_content, page_html, spec_body_text, spec_css_content, spec_page_html};
use crate::page::lemma_page_contains_body_text;
use crate::query::{opt_string_view, parse_query, spec_parse_query, QueryError};
use crate::text::{contains_seq, find_sub, spec_decimal, str_eq, u16_to_string};

verus! {

/// The server's configuration: the port it listens on.
#[derive(Debug, Clone, Copy, PartialEq, Eq, Structural)]
pub struct Config {
    pub port: u16,
}

/// The port the server is compiled to use.
pub fn default_config() -> (r: Config)
    ensures
        r.port == 3009,
{
    Config { port: 3009 }
}

/// Where a request path leads.
#[derive(Debug, Clone, Copy, PartialEq, Eq, Structural)]
pub enum Route {
    Root,
    Ping,
    File,
    NotFound,
}

/// An HTTP response: status code, optional content type, body.
#[derive(Debug, Clone)]
pub struct HttpResponse {
    pub status: u16,
    pub content_type: Option<String>,
    pub body: String,
}

/// The mathematical shape of a response.
pub struct ResponseView {
    pub status: u16,
    pub content_type: Option<Seq<char>>,
    pub body: Seq<char>,
}

impl View for HttpResponse {
    type V = ResponseView;

    open spec fn view(&self) -> ResponseView {
        ResponseView {
            status: self.status,
            content_type: opt_string_view(&self.content_type),
            body: self.body@,
        }
    }
}

/// Route dispatch is by exact path match.
pub open spec fn spec_route(p: Seq<char>) -> Route {
    if p == "/"@ {
        Route::Root
    } else if p == "/ping"@ {
        Route::Ping
    } else if p == "/file"@ {
        Route::File
    } else {
        Route::NotFound
    }
}

/// Dispatches a request path to its route.
pub fn route_of(path: &str) -> (r: Route)
    ensures
        r == spec_route(path@),
{
    if str_eq(path, "/") {
        Route::Root
    } else if str_eq(path, "/ping") {
        Route::Ping
    } else if str_eq(path, "/file") {
        Route::File
    } else {
        Route::NotFound
    }
}

/// The page body that is served: the inlined document where inlining
/// produced one that still carries the fixed body text, else the
/// original document.
pub open spec fn spec_choose_body(original: Seq<char>, inlined: Option<Seq<char>>) -> Seq<char> {
    match inlined {
        Some(v) => if contains_seq(v, spec_body_text()) {
            v
        } else {
            original
        },
        None => original,
    }
}

/// The client-error body for each way a file query can be rejected.
pub open spec fn spec_error_message(e: QueryError) -> Seq<char> {
    match e {
        QueryError::MissingTag => "missing tag parameter"@,
        QueryError::UnknownTag => "unrecognized tag value"@,
        QueryError::DuplicateKey => "duplicate query parameter"@,
    }
}

/// The response owed to every request, as a function of the request
/// path, the raw query string, and the outcome of the CSS inlining
/// pass (which only the root route consults).
pub open spec fn spec_respond(
    path: Seq<char>,
    query: Seq<char>,
    inlined: Option<Seq<char>>,
) -> ResponseView {
    match spec_route(path) {
        Route::Root => ResponseView {
            status: 200,
            content_type: Some("text/html"@),
            body: spec_choose_body(spec_page_html(), inlined),
        },
        Route::Ping => ResponseView { status: 200, content_type: None, body: Seq::empty() },
        Route::File => match spec_parse_query(query) {
            Ok(_) => ResponseView {
                status: 200,
                content_type: Some("text/css"@),
                body: spec_css_content(),
            },
            Err(e) => ResponseView { status: 400, content_type: None, body: spec_error_message(e) },
        },
        Route::NotFound => ResponseView { status: 404, content_type: None, body: Seq::empty() },
    }
}

fn error_message(e: QueryError) -> (r: String)
    ensures
        r@ == spec_error_message(e),
{
    match e {
        QueryError::MissingTag => String::from_str("missing tag parameter"),
        QueryError::UnknownTag => String::from_str("unrecognized tag value"),
        QueryError::DuplicateKey => String::from_str("duplicate query parameter"),
    }
}

/// Picks the body for the root page from the inlining outcome.
pub fn choose_body(original: String, inlined: Option<String>) -> (r: String)
    ensures
        r@ == spec_choose_body(original@, opt_string_view(&inlined)),
{
    match inlined {
        Some(v) => {
            if find_sub(v.as_str(), "TEST BODY").is_some() {
                v
            } else {
                original
            }
        },
        None => original,
    }
}

/// Builds the response for a request, given the inlining outcome.
/// This is deterministic: the whole response is a function of the
/// three arguments.
pub fn respond(path: &str, query: &str, inlined: Option<String>) -> (r: HttpResponse)
    ensures
        r@ == spec_respond(path@, query@, opt_string_view(&inlined)),
{
    match route_of(path) {
        Route::Root => HttpResponse {
            status: 200,
            content_type: Some(String::from_str("text/html")),
            body: choose_body(page_html(), inlined),
        },
        Route::Ping => HttpResponse { status: 200, content_type: None, body: String::new() },
        Route::File => match parse_query(query) {
            Ok(_) => HttpResponse {
                status: 200,
                content_type: Some(String::from_str("text/css")),
                body: css_content(),
            },
            Err(e) => HttpResponse { status: 400, content_type: None, body: error_message(e) },
        },
        Route::NotFound => HttpResponse { status: 404, content_type: None, body: String::new() },
    }
}

/// Handles a request end to end: for the root route it attempts the
/// CSS inlining pass against the server's own base URL, then builds
/// the response. Every route other than the root is independent of
/// the inlining outcome.
pub fn handle_request(cfg: &Config, path: &str, query: &str) -> (r: HttpResponse)
    ensures
        exists|inl: Option<Seq<char>>| r@ == spec_respond(path@, query@, inl),
        spec_route(path@) != Route::Root ==> r@ == spec_respond(path@, query@, None),
        spec_route(path@) is Root ==> r.status == 200 && r@.content_type == Some("text/html"@)
            && contains_seq(r.body@, spec_body_text()),
{
    let inlined: Option<String> = if matches!(route_of(path), Route::Root) {
        let html = page_html();
        let base = base_url(cfg.port);
        inline_css(html.as_str(), base.as_str())
    } else {
        None
    };
    let ghost inl = opt_string_view(&inlined);
    let r = respond(path, query, inlined);
    proof {
        assert(r@ == spec_respond(path@, query@, inl));
        if spec_route(path@) is Root {
            lemma_page_contains_body_text();
            assert("TEST BODY"@ == spec_body_text());
        }
    }
    r
}

/// The base URL of the server's own host and port.
pub fn base_url(port: u16) -> (r: String)
    ensures
        r@ == "http://127.0.0.1:"@ + spec_decimal(port as nat),
{
    let mut s = String::from_str("http://127.0.0.1:");
    let p = u16_to_string(port);
    s.append(p.as_str());
    s
}

/// The URL of the server's own health endpoint.
pub fn ping_url(port: u16) -> (r: String)
    ensures
        r@ == "http://127.0.0.1:"@ + spec_decimal(port as nat) + "/ping"@,
{
    let mut s = base_url(port);
    s.append("/ping");
    s
}

/// What the readiness probe does after one attempt.
#[derive(Debug, Clone, Copy, PartialEq, Eq, Structural)]
pub enum ProbeStep {
    Ready,
    Retry,
}

/// One step of the readiness probe: any failure means "not ready
/// yet", never "give up"; the first success ends the probe.
pub fn probe_step(reachable: bool) -> (r: ProbeStep)
    ensures
        r == ProbeStep::Ready <==> reachable,
{
    if reachable {
        ProbeStep::Ready
    } else {
        ProbeStep::Retry
    }
}

/// Repeating a request yields the same response: the response is a
/// function of the request path, the query string, and the inlining
/// outcome alone, with no state carried between requests.
pub proof fn lemma_response_deterministic(
    path1: Seq<char>,
    query1: Seq<char>,
    inlined1: Option<Seq<char>>,
    path2: Seq<char>,
    query2: Seq<char>,
    inlined2: Option<Seq<char>>,
)
    requires
        path1 == path2,
        query1 == query2,
        inlined1 == inlined2,
    ensures
        spec_respond(path1, query1, inlined1) == spec_respond(path2, query2, inlined2),
{
}

/// The health endpoint always answers success with an empty body,
/// whatever the query and whatever the inlining pass did.
pub proof fn lemma_ping_response(query: Seq<char>, inlined: Option<Seq<char>>)
    ensures
        spec_respond("/ping"@, query, inlined).status == 200,
        spec_respond("/ping"@, query, inlined).body.len() == 0,
{
    reveal_strlit("/");
    reveal_strlit("/ping");
    assert("/"@.len() == 1);
    assert("/ping"@.len() == 5);
    assert("/ping"@ != "/"@);
}

/// A well-formed file request is answered with the fixed stylesheet,
/// whatever its tag; a rejected query gets a client error.
pub proof fn lemma_file_response(query: Seq<char>, inlined: Option<Seq<char>>)
    ensures
        spec_parse_query(query) is Ok ==> spec_respond("/file"@, query, inlined) == (ResponseView {
            status: 200,
            content_type: Some("text/css"@),
            body: spec_css_content(),
        }),
        spec_parse_query(query) is Err ==> spec_respond("/file"@, query, inlined).status == 400,
{
    reveal_strlit("/");
    reveal_strlit("/ping");
    reveal_strlit("/file");
    assert("/"@.len() == 1);
    assert("/ping"@.len() == 5);
    assert("/file"@.len() == 5);
    assert("/file"@[1] == 'f' && "/ping"@[1] == 'p');
    assert("/file"@ != "/"@);
    assert("/file"@ != "/ping"@);
}

/// The root page always answers 200 as HTML, and its body carries the
/// fixed body text whether or not the inlining pass succeeded.
pub proof fn lemma_root_response(query: Seq<char>, inlined: Option<Seq<char>>)
    ensures
        spec_respond("/"@, query, inlined).status == 200,
        spec_respond("/"@, query, inlined).content_type == Some("text/html"@),
        contains_seq(spec_respond("/"@, query, inlined).body, spec_body_text()),
{
    lemma_page_contains_body_text();
    match inlined {
        Some(v) => {
            if contains_seq(v, spec_body_text()) {
                assert(spec_choose_body(spec_page_html(), inlined) == v);
            } else {
                assert(spec_choose_body(spec_page_html(), inlined) == spec_page_html());
            }
        },
        None => {
            assert(spec_choose_body(spec_page_html(), inlined) == spec_page_html());
        },
    }
}

} // verus!
