//! The CSS inlining pass, delegated to the `css-inline` crate.

use vstd::prelude::*;

verus! {

/// Relies on `css_inline::CSSInliner::inline` (with `base_url` set and
/// remote stylesheet loading enabled) to rewrite an HTML document so
/// that linked stylesheet rules are embedded inline. The result
/// depends on what the referenced stylesheets serve at call time, so
/// nothing is claimed of it; a failure of any kind is `None`. A fresh
/// inliner is built per call, so its internal stylesheet cache lock
/// cannot be poisoned by another thread.
#[verifier::external_body]
pub(crate) fn inline_css(html: &str, base: &str) -> Option<String> {
    let url = css_inline::Url::parse(base).ok();
    let inliner = css_inline::CSSInliner::options()
        .base_url(url)
        .load_remote_stylesheets(true)
        .build();
    inliner.inline(html).ok()
}

} // verus!
