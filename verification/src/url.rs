//! Provider base URLs: parsed with http's `Uri`, then held to the rules of an
//! OpenAI-compatible endpoint (HTTP or HTTPS, a host, no user information,
//! no query).
use vstd::prelude::*;

use http::Uri;

use crate::text::{chars_equal, chars_of};

verus! {

/// Declares http's `Uri`; nothing inside it is visible to proofs.
#[verifier::external_type_specification]
#[verifier::external_body]
pub struct ExUri(http::Uri);

/// The URI that http's `Uri::from_str` makes of `text`, where it accepts it.
pub uninterp spec fn uri_parse(text: Seq<char>) -> Uri;

/// Whether http's `Uri::from_str` accepts `text`.
pub uninterp spec fn uri_accepts(text: Seq<char>) -> bool;

/// The scheme that `Uri::scheme_str` reports for the URI parsed from `text`.
pub uninterp spec fn uri_scheme(text: Seq<char>) -> Option<Seq<char>>;

/// The authority (`Uri::authority`, as text) of the URI parsed from `text`.
pub uninterp spec fn uri_authority(text: Seq<char>) -> Option<Seq<char>>;

/// The path that `Uri::path` reports for the URI parsed from `text`.
pub uninterp spec fn uri_path(text: Seq<char>) -> Seq<char>;

/// The text that `Uri`'s `Display` writes for the URI parsed from `text`.
pub uninterp spec fn uri_display(text: Seq<char>) -> Seq<char>;

/// The query that `Uri::query` reports for the URI parsed from `text`.
pub uninterp spec fn uri_query(text: Seq<char>) -> Option<Seq<char>>;

pub open spec fn opt_view(o: Option<String>) -> Option<Seq<char>> {
    match o {
        Some(s) => Some(s@),
        None => None,
    }
}

/// A base URL that an OpenAI-compatible client can use: its scheme is `http`
/// or `https`, it names a host, it includes an API prefix (a path other than
/// `/`), and it carries no user information (no `@` in the authority), no
/// query and no fragment.
pub open spec fn acceptable_base_url(text: Seq<char>) -> bool {
    &&& uri_accepts(text)
    &&& (uri_scheme(text) == Some("http"@) || uri_scheme(text) == Some("https"@))
    &&& uri_authority(text) is Some
    &&& !uri_authority(text).unwrap().contains('@')
    &&& uri_path(text).len() > 0
    &&& uri_path(text) != "/"@
    &&& uri_query(text) is None
    &&& !text.contains('#')
}

/// A URI that http parsed, kept with the text it was parsed from.
pub struct BaseUrl {
    uri: Uri,
    text: String,
}

impl BaseUrl {
    /// The URI is the one that http parsed from the text beside it.
    #[verifier::type_invariant]
    spec fn parsed_from_text(&self) -> bool {
        self.uri == uri_parse(self.text@)
    }

    /// The text this URI was parsed from.
    pub closed spec fn source(&self) -> Seq<char> {
        self.text@
    }

    /// The URI that http parsed.
    pub closed spec fn parsed(&self) -> Uri {
        self.uri
    }

    pub fn uri(&self) -> (r: &Uri)
        ensures
            *r == self.parsed(),
            *r == uri_parse(self.source()),
    {
        proof {
            use_type_invariant(self);
        }
        &self.uri
    }
}

/// Parses `text` with `Uri::from_str` (through `str::parse`); keeps the text
/// beside the URI so that what is read back from the URI can be named.
#[verifier::external_body]
fn parse_base_url(text: &str) -> (res: Option<BaseUrl>)
    ensures
        res is Some <==> uri_accepts(text@),
        res matches Some(b) ==> b.source() == text@ && b.parsed() == uri_parse(text@),
{
    match text.parse::<Uri>() {
        Ok(uri) => Some(BaseUrl { uri, text: text.to_owned() }),
        Err(_) => None,
    }
}

/// Calls `Uri::scheme_str` and copies the result.
#[verifier::external_body]
fn base_url_scheme(b: &BaseUrl) -> (res: Option<String>)
    ensures
        opt_view(res) == uri_scheme(b.source()),
{
    b.uri.scheme_str().map(str::to_owned)
}

/// Calls `Uri::authority` and copies the authority's text (`Authority::as_str`).
#[verifier::external_body]
fn base_url_authority(b: &BaseUrl) -> (res: Option<String>)
    ensures
        opt_view(res) == uri_authority(b.source()),
{
    match b.uri.authority() {
        Some(authority) => Some(authority.as_str().to_owned()),
        None => None,
    }
}

/// Calls `Uri::path` and copies the result.
#[verifier::external_body]
fn base_url_path(b: &BaseUrl) -> (res: String)
    ensures
        res@ == uri_path(b.source()),
{
    b.uri.path().to_owned()
}

/// Writes the URI with its `Display` implementation (`ToString::to_string`).
#[verifier::external_body]
pub(crate) fn base_url_text(b: &BaseUrl) -> (res: String)
    ensures
        res@ == uri_display(b.source()),
{
    b.uri.to_string()
}

/// Calls `Uri::query` and copies the result.
#[verifier::external_body]
fn base_url_query(b: &BaseUrl) -> (res: Option<String>)
    ensures
        opt_view(res) == uri_query(b.source()),
{
    b.uri.query().map(str::to_owned)
}

fn has_char(s: &str, c: char) -> (r: bool)
    ensures
        r == s@.contains(c),
{
    let chars = chars_of(s);
    let mut i: usize = 0;
    while i < chars.len()
        invariant
            i <= chars.len(),
            chars@ == s@,
            forall|j: int| 0 <= j < i ==> chars@[j] != c,
        decreases chars.len() - i,
    {
        if chars[i] == c {
            assert(s@[i as int] == c);
            return true;
        }
        i = i + 1;
    }
    false
}

fn text_is(s: &str, expected: &str) -> (r: bool)
    ensures
        r == (s@ == expected@),
{
    chars_equal(&chars_of(s), &chars_of(expected))
}

/// Parses `text` and keeps it when it is an acceptable base URL.
pub fn check_base_url(text: &str) -> (res: Option<BaseUrl>)
    ensures
        res is Some <==> acceptable_base_url(text@),
        res matches Some(b) ==> b.source() == text@ && b.parsed() == uri_parse(text@),
{
    let parsed = match parse_base_url(text) {
        Some(b) => b,
        None => return None,
    };
    let scheme_ok = match base_url_scheme(&parsed) {
        Some(s) => text_is(s.as_str(), "http") || text_is(s.as_str(), "https"),
        None => false,
    };
    if !scheme_ok {
        return None;
    }
    match base_url_authority(&parsed) {
        Some(a) => {
            if has_char(a.as_str(), '@') {
                return None;
            }
        },
        None => return None,
    }
    let path = base_url_path(&parsed);
    if path.as_str().is_empty() || text_is(path.as_str(), "/") {
        return None;
    }
    if base_url_query(&parsed).is_some() || has_char(text, '#') {
        return None;
    }
    Some(parsed)
}

} // verus!
