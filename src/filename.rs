//! Local file names derived from download URLs.
use vstd::prelude::*;

use crate::error::ApiError;

verus! {

/// The path component of `s` parsed as an absolute URL, or `None` when
/// `s` does not parse.
pub uninterp spec fn url_path_of(s: Seq<char>) -> Option<Seq<char>>;

#[verifier::external_type_specification]
#[verifier::external_body]
pub struct ExParseError(url::ParseError);

/// Relies on `url::Url::parse` and `url::Url::path`: parses `s` as an absolute
/// URL and returns its (percent-encoded) path, without query or fragment.
#[verifier::external_body]
fn parse_url_path(s: &str) -> (r: Result<String, url::ParseError>)
    ensures
        r matches Ok(p) ==> url_path_of(s@) == Some(p@),
        r is Err ==> url_path_of(s@) is None,
{
    url::Url::parse(s).map(|u| u.path().to_string())
}

/// Index of the last `'/'` in `s`, if any.
pub open spec fn last_slash(s: Seq<char>) -> Option<int>
    decreases s.len(),
{
    if s.len() == 0 {
        None
    } else if s.last() == '/' {
        Some(s.len() - 1)
    } else {
        last_slash(s.drop_last())
    }
}

/// The last of the `'/'`-separated segments of a URL path, which has segments
/// only when it starts with `'/'`.
pub open spec fn final_segment(path: Seq<char>) -> Option<Seq<char>> {
    if path.len() > 0 && path[0] == '/' {
        match last_slash(path) {
            Some(i) => Some(path.subrange(i + 1, path.len() as int)),
            None => None,
        }
    } else {
        None
    }
}

/// Why no file name could be derived from a URL.
#[derive(Clone, Copy, Debug, PartialEq, Eq, Structural)]
pub enum NameError {
    /// The URL does not parse.
    Parse,
    /// The URL's path has no non-empty final segment.
    NoFileName,
}

/// The file name that a URL string yields: its final path segment, when it is
/// not empty.
pub open spec fn file_name_spec(url: Seq<char>) -> Result<Seq<char>, NameError> {
    match url_path_of(url) {
        None => Err(NameError::Parse),
        Some(p) => match final_segment(p) {
            Some(seg) if seg.len() > 0 => Ok(seg),
            _ => Err(NameError::NoFileName),
        },
    }
}

proof fn lemma_last_slash(s: Seq<char>)
    ensures
        match last_slash(s) {
            Some(i) => 0 <= i < s.len() && s[i] == '/' && forall|j: int|
                i < j < s.len() ==> s[j] != '/',
            None => forall|j: int| 0 <= j < s.len() ==> s[j] != '/',
        },
    decreases s.len(),
{
    if s.len() > 0 && s.last() != '/' {
        lemma_last_slash(s.drop_last());
        assert forall|j: int| 0 <= j < s.len() - 1 implies s.drop_last()[j] == s[j] by {}
    }
}

/// The final segment of a URL path.
pub fn last_path_segment(path: &String) -> (r: Option<String>)
    ensures
        r matches Some(seg) ==> final_segment(path@) == Some(seg@),
        r is None ==> final_segment(path@) is None,
{
    let s = path.as_str();
    let n = s.unicode_len();
    if n == 0 || s.get_char(0) != '/' {
        return None;
    }
    let mut i: usize = n;
    assert(path@.subrange(0, n as int) =~= path@);
    while i > 0 && s.get_char(i - 1) != '/'
        invariant
            1 <= i <= n,
            n == path@.len(),
            s@ == path@,
            path@[0] == '/',
            last_slash(path@) == last_slash(path@.subrange(0, i as int)),
        decreases i,
    {
        assert(path@.subrange(0, i as int).drop_last() =~= path@.subrange(0, i - 1));
        i = i - 1;
    }
    proof {
        lemma_last_slash(path@.subrange(0, i as int));
        assert(i > 0);
        assert(path@.subrange(0, i as int).last() == '/');
        assert(last_slash(path@.subrange(0, i as int)) == Some(i - 1));
        assert(final_segment(path@) == Some(path@.subrange(i as int, n as int)));
    }
    let seg = s.substring_char(i, n).to_owned();
    assert(seg@ =~= path@.subrange(i as int, n as int));
    Some(seg)
}

/// The file name that a parsed URL path yields.
pub fn file_name_from_path(path: &String) -> (r: Option<String>)
    ensures
        r matches Some(n) ==> final_segment(path@) == Some(n@) && n@.len() > 0,
        r is None ==> !(final_segment(path@) matches Some(seg) && seg.len() > 0),
{
    match last_path_segment(path) {
        Some(seg) => {
            if seg.unicode_len() > 0 {
                Some(seg)
            } else {
                None
            }
        },
        None => None,
    }
}

/// The local file name for a download URL: the final segment of its path,
/// ignoring query and fragment.
pub fn file_name_for(url: &str) -> (r: Result<String, ApiError>)
    ensures
        r matches Ok(n) ==> file_name_spec(url@) == Ok::<Seq<char>, NameError>(n@),
        r matches Err(e) ==> match file_name_spec(url@) {
            Err(NameError::Parse) => e is UrlParse,
            Err(NameError::NoFileName) => e is MalformedUrl,
            Ok(_) => false,
        },
{
    match parse_url_path(url) {
        Err(e) => Err(ApiError::UrlParse(e)),
        Ok(path) => match file_name_from_path(&path) {
            Some(n) => Ok(n),
            None => Err(ApiError::MalformedUrl),
        },
    }
}

} // verus!
