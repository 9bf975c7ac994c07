//! The fixed contents the server hands out: the HTML page for the root
//! route and the stylesheet for the file route.

use vstd::prelude::*;
use vstd::string::StringExecFns;
use crate::text::contains_seq;

verus! {

/// The HTML document served at the root route, with its fixed title,
/// meta tags, a stylesheet link back to the file route, and the fixed
/// body text.
pub open spec fn spec_page_html() -> Seq<char> {
    r#"
        <!DOCTYPE html>
        <html>
            <head>
                <title>Demo</title>
                <meta charset="utf-8">
                <meta name="format-detection" content="telephone=no">
                <meta name="msapplication-tap-highlight" content="no">
                <meta name="viewport" content="user-scalable=no, initial-scale=1, maximum-scale=1, minimum-scale=1">
                <link rel="stylesheet" type="text/css" href="/file?tag=css">
            </head>
            <body class="test">
                TEST BODY
            </body>
        </html>
    "#@
}

/// The stylesheet served at the file route, whatever the tag.
pub open spec fn spec_css_content() -> Seq<char> {
    r#"
        .test {
            color: red;
           text-size: 32px;
        }
    "#@
}

/// The text that the page body must carry.
pub open spec fn spec_body_text() -> Seq<char> {
    "TEST BODY"@
}

/// Builds the root page document.
pub fn page_html() -> (r: String)
    ensures
        r@ == spec_page_html(),
{
    String::from_str(
        r#"
        <!DOCTYPE html>
        <html>
            <head>
                <title>Demo</title>
                <meta charset="utf-8">
                <meta name="format-detection" content="telephone=no">
                <meta name="msapplication-tap-highlight" content="no">
                <meta name="viewport" content="user-scalable=no, initial-scale=1, maximum-scale=1, minimum-scale=1">
                <link rel="stylesheet" type="text/css" href="/file?tag=css">
            </head>
            <body class="test">
                TEST BODY
            </body>
        </html>
    "#,
    )
}

/// Builds the stylesheet text.
pub fn css_content() -> (r: String)
    ensures
        r@ == spec_css_content(),
{
    String::from_str(
        r#"
        .test {
            color: red;
           text-size: 32px;
        }
    "#,
    )
}

/// The page document carries the fixed body text, so a fallback to the
/// uninlined document still shows it.
pub proof fn lemma_page_contains_body_text()
    ensures
        contains_seq(spec_page_html(), spec_body_text()),
{
    reveal_strlit(
        r#"
        <!DOCTYPE html>
        <html>
            <head>
                <title>Demo</title>
                <meta charset="utf-8">
                <meta name="format-detection" content="telephone=no">
                <meta name="msapplication-tap-highlight" content="no">
                <meta name="viewport" content="user-scalable=no, initial-scale=1, maximum-scale=1, minimum-scale=1">
                <link rel="stylesheet" type="text/css" href="/file?tag=css">
            </head>
            <body class="test">
                TEST BODY
            </body>
        </html>
    "#,
    );
    reveal_strlit("TEST BODY");
    assert(spec_page_html().subrange(537, 537 + spec_body_text().len() as int) =~= spec_body_text());
}

} // verus!
