//! URL parsing through the `url` crate (the `Url` type that `tauri::Url` and
//! `reqwest::Url` re-export).
use vstd::prelude::*;

use crate::text::{ostr, strs};

verus! {

/// The parts of a parsed URL that the library reads.
pub struct ParsedUrl {
    /// The scheme, as `Url::scheme` gives it.
    pub scheme: String,
    /// The host, as `Url::host_str` gives it.
    pub host: Option<String>,
    /// The path, as `Url::path` gives it.
    pub path: String,
    /// The path segments, as `Url::path_segments` yields them.
    pub segments: Option<Vec<String>>,
    /// The URL serialized after `set_query(None)` and `set_fragment(None)`.
    pub without_query: String,
}

/// A parsed URL as plain values: scheme, host, path, path segments, and the
/// URL without its query and fragment.
pub type UrlView = (Seq<char>, Option<Seq<char>>, Seq<char>, Option<Seq<Seq<char>>>, Seq<char>);

pub open spec fn opt_strings_view(o: Option<Vec<String>>) -> Option<Seq<Seq<char>>> {
    match o {
        Some(v) => Some(strs(v@)),
        None => None,
    }
}

impl View for ParsedUrl {
    type V = UrlView;

    open spec fn view(&self) -> Self::V {
        (
            self.scheme@,
            ostr(self.host),
            self.path@,
            opt_strings_view(self.segments),
            self.without_query@,
        )
    }
}

/// What `url::Url::parse` makes of a text: `None` when it refuses the text,
/// else the scheme, host, path, path segments, and serialization without
/// query and fragment of the parsed URL.
pub uninterp spec fn url_parts(input: Seq<char>) -> Option<UrlView>;

/// `url::Url::parse`, read back through `scheme`, `host_str`, `path`,
/// `path_segments`, and the serialization of a copy whose query and fragment
/// were removed with `set_query(None)` and `set_fragment(None)`.
/// Trusted: the result is `url_parts` of the input, so equal inputs give
/// equal results; nothing more about the parser is claimed.
#[verifier::external_body]
pub(crate) fn parse_url(input: &str) -> (r: Option<ParsedUrl>)
    ensures
        r is Some <==> url_parts(input@) is Some,
        r matches Some(u) ==> url_parts(input@) == Some(u@),
{
    let u = url::Url::parse(input).ok()?;
    let mut bare = u.clone();
    bare.set_query(None);
    bare.set_fragment(None);
    Some(ParsedUrl {
        scheme: u.scheme().to_string(),
        host: u.host_str().map(str::to_string),
        path: u.path().to_string(),
        segments: u.path_segments().map(|parts| parts.map(str::to_string).collect()),
        without_query: bare.to_string(),
    })
}

/// The host of a URL that parses, else `None`.
pub open spec fn url_host(input: Seq<char>) -> Option<Seq<char>> {
    match url_parts(input) {
        Some(p) => p.1,
        None => None,
    }
}

} // verus!
