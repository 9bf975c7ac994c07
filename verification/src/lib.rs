//! A minimal demonstration HTTP server library.
//!
//! The verified core: route dispatch by exact path, parsing of the
//! `/file` query string, the fixed page and stylesheet contents, and the
//! decision logic around CSS inlining and the startup readiness probe.
//! The network plumbing around it lives in the accompanying application.

mod inline;
pub mod page;
pub mod query;
pub mod server;
pub mod text;

pub use page::{css_content, page_html};
pub use query::{parse_query, tag_of, FileMeta, FileTag, QueryError};
pub use server::{
    base_url, choose_body, default_config, handle_request, ping_url, probe_step, respond, route_of,
    Config, HttpResponse, ProbeStep, Route,
};
pub use text::{find_sub, str_eq, u16_to_string};
