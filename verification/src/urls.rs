//! Reading a URL into the parts that repository parsing needs.
use vstd::prelude::*;

use crate::text::views;

verus! {

/// The parts of a parsed URL: its domain, if its host is a domain, and its
/// path segments, unless it cannot be a base.
pub type UrlParts = (Option<String>, Option<Vec<String>>);

/// Abstract value of `UrlParts`.
pub type UrlPartsView = (Option<Seq<char>>, Option<Seq<Seq<char>>>);

/// What `url::Url::parse` makes of the text `s`, read back through
/// `Url::domain` and `Url::path_segments`; on failure, the text of the
/// parse error.
pub uninterp spec fn parsed_url(s: Seq<char>) -> Result<UrlPartsView, Seq<char>>;

/// The abstract value of parsed URL parts.
pub open spec fn url_parts_view(p: UrlParts) -> UrlPartsView {
    (
        match p.0 {
            Some(d) => Some(d@),
            None => None,
        },
        match p.1 {
            Some(v) => Some(views(v@)),
            None => None,
        },
    )
}

/// The abstract value of a URL parse result.
pub open spec fn parse_result_view(r: Result<UrlParts, String>) -> Result<UrlPartsView, Seq<char>> {
    match r {
        Ok(p) => Ok(url_parts_view(p)),
        Err(e) => Err(e@),
    }
}

/// A character that a URL path keeps as it is and that no URL syntax
/// gives a meaning: an ASCII letter or digit, `-` or `_`.
pub open spec fn is_plain_path_char(c: char) -> bool {
    ('a' <= c && c <= 'z') || ('A' <= c && c <= 'Z') || ('0' <= c && c <= '9') || c == '-' || c
        == '_'
}

/// A non-empty path segment of plain characters only.
pub open spec fn is_plain_segment(s: Seq<char>) -> bool {
    s.len() > 0 && forall|i: int| 0 <= i < s.len() ==> is_plain_path_char(#[trigger] s[i])
}

/// The text `https://github.com/{first}/{second}`.
pub open spec fn github_path_url(first: Seq<char>, second: Seq<char>) -> Seq<char> {
    "https://github.com"@ + seq!['/'] + first + seq!['/'] + second
}

/// The text is `https://github.com/{a}/{b}` for plain segments `a`, `b`.
pub open spec fn is_plain_github_url(s: Seq<char>) -> bool {
    exists|p: (Seq<char>, Seq<char>)|
        is_plain_segment(p.0) && is_plain_segment(p.1) && s == #[trigger] github_path_url(p.0, p.1)
}

/// The two segments of a plain GitHub URL (see `is_plain_github_url`).
pub open spec fn plain_github_parts(s: Seq<char>) -> (Seq<char>, Seq<char>) {
    choose|p: (Seq<char>, Seq<char>)|
        is_plain_segment(p.0) && is_plain_segment(p.1) && s == #[trigger] github_path_url(p.0, p.1)
}

/// What the URL parser gives for a plain GitHub URL: the domain
/// `github.com` and its two segments.
pub open spec fn plain_github_parse(s: Seq<char>) -> Result<UrlPartsView, Seq<char>> {
    Ok((Some("github.com"@), Some(seq![plain_github_parts(s).0, plain_github_parts(s).1])))
}

/// A plain GitHub URL determines its two segments.
pub proof fn lemma_plain_github_parts(first: Seq<char>, second: Seq<char>)
    requires
        is_plain_segment(first),
        is_plain_segment(second),
    ensures
        is_plain_github_url(github_path_url(first, second)),
        plain_github_parts(github_path_url(first, second)) == (first, second),
{
    let s = github_path_url(first, second);
    assert(is_plain_segment((first, second).0) && is_plain_segment((first, second).1) && s
        == github_path_url((first, second).0, (first, second).1));
    let p = plain_github_parts(s);
    let (a, b) = p;
    reveal_strlit("https://github.com");
    let k = 19int;
    assert("https://github.com"@.len() == 18);
    assert(s == github_path_url(a, b));
    assert(s.len() == k + first.len() + 1 + second.len());
    assert(s.len() == k + a.len() + 1 + b.len());
    assert forall|i: int| 0 <= i < first.len() implies s[k + i] == first[i] by {}
    assert forall|i: int| 0 <= i < a.len() implies s[k + i] == a[i] by {}
    assert(s[k + first.len()] == '/');
    assert(s[k + a.len()] == '/');
    if first.len() < a.len() {
        assert(is_plain_path_char(a[first.len() as int]));
        assert(false);
    } else if a.len() < first.len() {
        assert(is_plain_path_char(first[a.len() as int]));
        assert(false);
    }
    assert(a =~= first);
    assert forall|i: int| 0 <= i < second.len() implies s[k + first.len() + 1 + i] == second[i] by {}
    assert forall|i: int| 0 <= i < b.len() implies s[k + a.len() + 1 + i] == b[i] by {}
    assert(b =~= second);
}

/// Parses `s` with `url::Url::parse` and reads its `domain()` and
/// `path_segments()`; a parse failure gives the error's text. The URL
/// grammar is the url crate's and is only named here, but for one shape:
/// `https://github.com/{a}/{b}` with `a` and `b` made of ASCII letters,
/// digits, `-` and `_` has the domain `github.com` and the segments `a`
/// and `b`, since such characters are kept as they are in a path.
#[verifier::external_body]
pub(crate) fn parse_url(s: &str) -> (res: Result<UrlParts, String>)
    ensures
        parse_result_view(res) == parsed_url(s@),
        is_plain_github_url(s@) ==> parse_result_view(res) == plain_github_parse(s@),
{
    match url::Url::parse(s) {
        Ok(u) => Ok((
            u.domain().map(|d| d.to_string()),
            u.path_segments().map(|segs| segs.map(|p| p.to_string()).collect()),
        )),
        Err(e) => Err(e.to_string()),
    }
}

} // verus!
