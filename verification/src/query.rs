//! Parsing of the file route's query string.
//!
//! The grammar: pairs separated by `&`, each pair split at its first
//! `=` into key and value (a pair without `=` has an empty value).
//! The key `tag` is required and its value must be one of `css`, `js`
//! or `path`; the key `val` is optional and keeps its value verbatim;
//! other keys are ignored. A repeated `tag` or `val` key, a missing
//! `tag`, or an unrecognized tag value is a parse error.

use vstd::prelude::*;
use vstd::string::StrSliceExecFns;
use vstd::string::StringExecFns;
use crate::text::str_eq;

verus! {

/// Which asset variant a file request asks for.
#[derive(Debug, Clone, Copy, PartialEq, Eq, Structural)]
pub enum FileTag {
    Css,
    Js,
    Path,
}

/// A parsed file request: the required tag and the optional `val`.
#[derive(Debug, Clone)]
pub struct FileMeta {
    pub tag: FileTag,
    pub val: Option<String>,
}

/// Why a query string was rejected.
#[derive(Debug, Clone, Copy, PartialEq, Eq, Structural)]
pub enum QueryError {
    MissingTag,
    UnknownTag,
    DuplicateKey,
}

/// The mathematical shape of a parsed file request.
pub struct MetaView {
    pub tag: FileTag,
    pub val: Option<Seq<char>>,
}

impl View for FileMeta {
    type V = MetaView;

    open spec fn view(&self) -> MetaView {
        MetaView { tag: self.tag, val: opt_string_view(&self.val) }
    }
}

/// The view of an optional owned string.
pub open spec fn opt_string_view(v: &Option<String>) -> Option<Seq<char>> {
    match v {
        Some(s) => Some(s@),
        None => None,
    }
}

/// What has been gathered from the pairs seen so far.
pub struct ScanState {
    pub tag: Option<FileTag>,
    pub val: Option<Seq<char>>,
}

/// The tag variant a value names, if any.
pub open spec fn spec_tag_of(v: Seq<char>) -> Option<FileTag> {
    if v == "css"@ {
        Some(FileTag::Css)
    } else if v == "js"@ {
        Some(FileTag::Js)
    } else if v == "path"@ {
        Some(FileTag::Path)
    } else {
        None
    }
}

/// Folds one completed `key`/`value` pair into the scan state.
pub open spec fn spec_apply_pair(key: Seq<char>, value: Seq<char>, st: ScanState) -> Result<
    ScanState,
    QueryError,
> {
    if key == "tag"@ {
        if st.tag is Some {
            Err(QueryError::DuplicateKey)
        } else {
            match spec_tag_of(value) {
                Some(t) => Ok(ScanState { tag: Some(t), val: st.val }),
                None => Err(QueryError::UnknownTag),
            }
        }
    } else if key == "val"@ {
        if st.val is Some {
            Err(QueryError::DuplicateKey)
        } else {
            Ok(ScanState { tag: st.tag, val: Some(value) })
        }
    } else {
        Ok(st)
    }
}

/// Scans the remaining characters `s`, with the current pair's key so
/// far, whether its `=` has been passed, its value so far, and the
/// state gathered from earlier pairs.
pub open spec fn spec_scan(
    s: Seq<char>,
    key: Seq<char>,
    in_value: bool,
    value: Seq<char>,
    st: ScanState,
) -> Result<MetaView, QueryError>
    decreases s.len(),
{
    if s.len() == 0 {
        match spec_apply_pair(key, value, st) {
            Ok(st2) => match st2.tag {
                Some(t) => Ok(MetaView { tag: t, val: st2.val }),
                None => Err(QueryError::MissingTag),
            },
            Err(e) => Err(e),
        }
    } else if s[0] == '&' {
        match spec_apply_pair(key, value, st) {
            Ok(st2) => spec_scan(s.drop_first(), Seq::empty(), false, Seq::empty(), st2),
            Err(e) => Err(e),
        }
    } else if s[0] == '=' && !in_value {
        spec_scan(s.drop_first(), key, true, Seq::empty(), st)
    } else if !in_value {
        spec_scan(s.drop_first(), key.push(s[0]), false, Seq::empty(), st)
    } else {
        spec_scan(s.drop_first(), key, true, value.push(s[0]), st)
    }
}

/// What parsing a whole query string yields.
pub open spec fn spec_parse_query(q: Seq<char>) -> Result<MetaView, QueryError> {
    spec_scan(q, Seq::empty(), false, Seq::empty(), ScanState { tag: None, val: None })
}

/// Recognizes a tag value.
pub fn tag_of(v: &str) -> (r: Option<FileTag>)
    ensures
        r == spec_tag_of(v@),
{
    if str_eq(v, "css") {
        Some(FileTag::Css)
    } else if str_eq(v, "js") {
        Some(FileTag::Js)
    } else if str_eq(v, "path") {
        Some(FileTag::Path)
    } else {
        None
    }
}

fn apply_pair(key: &str, value: &str, tag: Option<FileTag>, val: Option<String>) -> (r: Result<
    (Option<FileTag>, Option<String>),
    QueryError,
>)
    ensures
        ({
            let s = spec_apply_pair(
                key@,
                value@,
                ScanState { tag, val: opt_string_view(&val) },
            );
            match r {
                Ok((t2, v2)) => s matches Ok(st2) && st2.tag == t2 && st2.val == opt_string_view(
                    &v2,
                ),
                Err(e) => s == Err::<ScanState, QueryError>(e),
            }
        }),
{
    if str_eq(key, "tag") {
        if tag.is_some() {
            Err(QueryError::DuplicateKey)
        } else {
            match tag_of(value) {
                Some(t) => Ok((Some(t), val)),
                None => Err(QueryError::UnknownTag),
            }
        }
    } else if str_eq(key, "val") {
        if val.is_some() {
            Err(QueryError::DuplicateKey)
        } else {
            Ok((tag, Some(String::from_str(value))))
        }
    } else {
        Ok((tag, val))
    }
}

/// Parses a file request from a raw query string.
pub fn parse_query(q: &str) -> (r: Result<FileMeta, QueryError>)
    ensures
        match r {
            Ok(m) => spec_parse_query(q@) == Ok::<MetaView, QueryError>(m@),
            Err(e) => spec_parse_query(q@) == Err::<MetaView, QueryError>(e),
        },
{
    let len = q.unicode_len();
    let mut tag: Option<FileTag> = None;
    let mut val: Option<String> = None;
    let mut pair_start: usize = 0;
    let mut eq_at: Option<usize> = None;
    let mut i: usize = 0;
    proof {
        assert(q@.subrange(0, len as int) =~= q@);
        assert(q@.subrange(0, 0) =~= Seq::<char>::empty());
    }
    while i < len
        invariant
            len == q@.len(),
            0 <= pair_start <= i <= len,
            match eq_at {
                Some(e) => pair_start <= e < i,
                None => true,
            },
            spec_parse_query(q@) == spec_scan(
                q@.subrange(i as int, len as int),
                match eq_at {
                    Some(e) => q@.subrange(pair_start as int, e as int),
                    None => q@.subrange(pair_start as int, i as int),
                },
                eq_at is Some,
                match eq_at {
                    Some(e) => q@.subrange(e + 1, i as int),
                    None => Seq::<char>::empty(),
                },
                ScanState { tag, val: opt_string_view(&val) },
            ),
        decreases len - i,
    {
        let ghost rest = q@.subrange(i as int, len as int);
        proof {
            assert(rest.len() > 0);
            assert(rest[0] == q@[i as int]);
            assert(rest.drop_first() =~= q@.subrange(i + 1, len as int));
        }
        let c = q.get_char(i);
        if c == '&' {
            let key: &str = match eq_at {
                Some(e) => q.substring_char(pair_start, e),
                None => q.substring_char(pair_start, i),
            };
            let value: &str = match eq_at {
                Some(e) => q.substring_char(e + 1, i),
                None => "",
            };
            proof {
                reveal_strlit("");
                assert(""@ =~= Seq::<char>::empty());
            }
            match apply_pair(key, value, tag, val) {
                Ok((t2, v2)) => {
                    tag = t2;
                    val = v2;
                },
                Err(e) => {
                    return Err(e);
                },
            }
            pair_start = i + 1;
            eq_at = None;
            proof {
                assert(q@.subrange(pair_start as int, pair_start as int) =~= Seq::<char>::empty());
            }
        } else if c == '=' && eq_at.is_none() {
            eq_at = Some(i);
            proof {
                assert(q@.subrange(i + 1, i + 1) =~= Seq::<char>::empty());
            }
        } else {
            proof {
                match eq_at {
                    Some(e) => {
                        assert(q@.subrange(e + 1, i as int).push(q@[i as int]) =~= q@.subrange(
                            e + 1,
                            i + 1,
                        ));
                    },
                    None => {
                        assert(q@.subrange(pair_start as int, i as int).push(q@[i as int])
                            =~= q@.subrange(pair_start as int, i + 1));
                    },
                }
            }
        }
        i = i + 1;
    }
    proof {
        assert(q@.subrange(len as int, len as int) =~= Seq::<char>::empty());
    }
    let key: &str = match eq_at {
        Some(e) => q.substring_char(pair_start, e),
        None => q.substring_char(pair_start, len),
    };
    let value: &str = match eq_at {
        Some(e) => q.substring_char(e + 1, len),
        None => "",
    };
    proof {
        reveal_strlit("");
        assert(""@ =~= Seq::<char>::empty());
    }
    match apply_pair(key, value, tag, val) {
        Ok((t2, v2)) => match t2 {
            Some(t) => Ok(FileMeta { tag: t, val: v2 }),
            None => Err(QueryError::MissingTag),
        },
        Err(e) => Err(e),
    }
}

} // verus!
