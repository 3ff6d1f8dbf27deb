//! What the library reads of a parsed URL, by the `url` crate.
use vstd::prelude::*;

verus! {

/// The parts of a parsed URL that the git-sync logic reads.
pub struct UrlParts {
    /// The host, when the URL has one.
    pub host: Option<String>,
    /// The path, as `Url::path` writes it.
    pub path: String,
    /// The first segment of the path, when the URL has segments.
    pub first_segment: Option<String>,
}

/// What `url::Url::parse` makes of a text: the host, the path and the first path
/// segment of the URL, or the parse error's message.
pub uninterp spec fn parsed_url(s: Seq<char>) -> Result<
    (Option<Seq<char>>, Seq<char>, Option<Seq<char>>),
    Seq<char>,
>;

/// The view of an optional string.
pub open spec fn opt_seq(o: Option<String>) -> Option<Seq<char>> {
    match o {
        Some(s) => Some(s@),
        None => None,
    }
}

/// Whether `r` holds what `parsed_url` names.
pub open spec fn parts_match(
    r: Result<UrlParts, String>,
    named: Result<(Option<Seq<char>>, Seq<char>, Option<Seq<char>>), Seq<char>>,
) -> bool {
    match named {
        Ok((h, p, f)) => r matches Ok(u) && opt_seq(u.host) == h && u.path@ == p && opt_seq(
            u.first_segment,
        ) == f,
        Err(m) => r matches Err(e) && e@ == m,
    }
}

/// `url::Url::parse`, then `host_str`, `path` and the first of `path_segments` of the
/// result; a parse error is given by its message. Trusted: the result is what
/// `parsed_url` names for `s`.
#[verifier::external_body]
pub(crate) fn parse_url(s: &str) -> (r: Result<UrlParts, String>)
    ensures
        parts_match(r, parsed_url(s@)),
{
    let u = match url::Url::parse(s) {
        Ok(u) => u,
        Err(e) => return Err(e.to_string()),
    };
    let host = u.host_str().map(str::to_string);
    let first_segment = match u.path_segments() {
        Some(mut segs) => segs.next().map(str::to_string),
        None => None,
    };
    Ok(UrlParts { host, path: u.path().to_string(), first_segment })
}

} // verus!
