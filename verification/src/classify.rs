//! Classification of submitted content: decides whether a paste is a
//! redirectable URL or literal text.  Content counts as a URL only when
//! it parses as an absolute URL whose scheme is `http`, `https` or
//! `mailto`, and whose host — for `mailto`, the mail address standing
//! in the host's place — contains a dot and does not name the service's
//! own domain (so a stored paste can never redirect back into the
//! service itself).

use vstd::prelude::*;

use crate::strutil::{contains_char, contains_substring, has_substring, str_eq};

verus! {

/// What parsing a string as a URL yields: nothing when the string is
/// not a well-formed absolute URL, otherwise the scheme, the host when
/// one is present, and the path.  The outcome depends on the string
/// alone; it is given a name here rather than a definition, since
/// writing out URL parsing is not this library's business.
pub uninterp spec fn url_parts_of(s: Seq<char>) -> Option<
    (Seq<char>, Option<Seq<char>>, Seq<char>),
>;

/// The scheme, host and path of a parsed URL, as plain strings.
pub open spec fn parts_view(r: Option<(String, Option<String>, String)>) -> Option<
    (Seq<char>, Option<Seq<char>>, Seq<char>),
> {
    match r {
        Some((scheme, Some(host), path)) => Some((scheme@, Some(host@), path@)),
        Some((scheme, None, path)) => Some((scheme@, None, path@)),
        None => None,
    }
}

/// Relies on url::Url::parse, url::Url::scheme, url::Url::host_str and
/// url::Url::path: whether a string parses, and the scheme, host and
/// path of the parsed URL, depend on the input string alone.
#[verifier::external_body]
fn parse_url_parts(s: &str) -> (r: Option<(String, Option<String>, String)>)
    ensures
        parts_view(r) == url_parts_of(s@),
{
    match url::Url::parse(s) {
        Ok(u) => Some(
            (u.scheme().to_string(), u.host_str().map(|h| h.to_string()), u.path().to_string()),
        ),
        Err(_) => None,
    }
}

/// The schemes under which stored content is treated as a URL.
pub open spec fn allowed_scheme(s: Seq<char>) -> bool {
    s == "http"@ || s == "https"@ || s == "mailto"@
}

/// A host that makes content redirectable: it has at least one dot and
/// does not contain the service's own domain.
pub open spec fn qualifying_host(h: Seq<char>) -> bool {
    h.contains('.') && !has_substring(h, "katb.in"@)
}

/// What stands in the host's place: the host itself when the URL has
/// one, and otherwise — as with a `mailto` address — the path.
pub open spec fn host_candidate(host: Option<Seq<char>>, path: Seq<char>) -> Seq<char> {
    match host {
        Some(h) => h,
        None => path,
    }
}

/// The classifier's verdict on the scheme, host and path of a parsed
/// URL.
pub open spec fn spec_accepts_parts(p: Option<(Seq<char>, Option<Seq<char>>, Seq<char>)>) -> bool {
    match p {
        Some((scheme, host, path)) => allowed_scheme(scheme) && qualifying_host(
            host_candidate(host, path),
        ),
        None => false,
    }
}

/// The classifier's verdict on a content string.
pub open spec fn spec_is_url(s: Seq<char>) -> bool {
    spec_accepts_parts(url_parts_of(s))
}

/// The verdict on an already-parsed URL: the scheme is one of `http`,
/// `https` and `mailto`, and what stands in the host's place has a dot
/// and does not contain the service's own domain.
pub fn accepts_parts(p: &Option<(String, Option<String>, String)>) -> (r: bool)
    ensures
        r == spec_accepts_parts(parts_view(*p)),
{
    match p {
        Some((scheme, host, path)) => {
            let scheme_ok = str_eq(scheme.as_str(), "http") || str_eq(scheme.as_str(), "https")
                || str_eq(scheme.as_str(), "mailto");
            let candidate: &str = match host {
                Some(h) => h.as_str(),
                None => path.as_str(),
            };
            scheme_ok && contains_char(candidate, '.') && !contains_substring(candidate, "katb.in")
        },
        None => false,
    }
}

/// True iff `content` should be stored as a redirectable URL.
pub fn is_url(content: &str) -> (r: bool)
    ensures
        r == spec_is_url(content@),
{
    let parts = parse_url_parts(content);
    accepts_parts(&parts)
}

} // verus!
