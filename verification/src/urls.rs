//! What the library needs of URL parsing, as plain text: the parse of an absolute
//! URL (its serialization and its scheme) and the replacement of a URL's path.
use vstd::prelude::*;

verus! {

/// The error that URL parsing reports.
#[verifier::external_type_specification]
#[verifier::external_body]
pub struct ExUrlParseError(url::ParseError);

/// What parsing `input` as an absolute URL gives: `None` when it is rejected, else
/// the URL's serialization and its scheme.
pub uninterp spec fn url_parse(input: Seq<char>) -> Option<(Seq<char>, Seq<char>)>;

/// The URL `base` (a serialization) with its path replaced by the given segments,
/// each percent-encoded: `None` when `base` does not parse or cannot be a base.
pub uninterp spec fn url_with_path(base: Seq<char>, segments: Seq<Seq<char>>) -> Option<
    Seq<char>,
>;

/// The port of the URL `input`: the one it names, else the default port of its
/// scheme when the scheme has one; `None` also when `input` does not parse.
pub uninterp spec fn url_port(input: Seq<char>) -> Option<u16>;

/// An absolute URL taken apart into plain text.
pub(crate) struct ParsedUrl {
    pub(crate) serialization: String,
    pub(crate) scheme: String,
}

/// Parses `input` with `url::Url::parse` and keeps its serialization and
/// `Url::scheme`. Claimed: the result is the named `url_parse` of the input; and, as
/// the parser without a base URL needs a scheme that ends at a ':', an input that
/// parses contains a ':'.
#[verifier::external_body]
pub(crate) fn parse_url(input: &str) -> (r: Result<ParsedUrl, url::ParseError>)
    ensures
        match r {
            Ok(p) => url_parse(input@) == Some((p.serialization@, p.scheme@)),
            Err(_) => url_parse(input@) is None,
        },
        r is Ok ==> input@.contains(':'),
{
    let u = url::Url::parse(input)?;
    Ok(ParsedUrl { scheme: u.scheme().to_string(), serialization: String::from(u) })
}

/// Parses `input` with `url::Url::parse` and returns `Url::port_or_known_default`.
/// Claimed: the result is the named `url_port` of the input.
#[verifier::external_body]
pub(crate) fn port_of_url(input: &str) -> (r: Option<u16>)
    ensures
        r == url_port(input@),
{
    url::Url::parse(input).ok()?.port_or_known_default()
}

/// Parses `base` with `url::Url::parse`, then, through `Url::path_segments_mut`,
/// clears its path and pushes each segment, and returns the serialization.
/// Claimed: the result is the named `url_with_path` of the arguments.
#[verifier::external_body]
pub(crate) fn replace_url_path(base: &str, segments: &Vec<String>) -> (r: Option<String>)
    ensures
        match r {
            Some(t) => url_with_path(base@, segments@.map_values(|s: String| s@)) == Some(t@),
            None => url_with_path(base@, segments@.map_values(|s: String| s@)) is None,
        },
{
    let mut u = url::Url::parse(base).ok()?;
    u.path_segments_mut().ok()?.clear().extend(segments.iter());
    Some(String::from(u))
}

} // verus!
