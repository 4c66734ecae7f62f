//! Trusted boundary to the URL and HTML crates.
//!
//! URL escaping, URL parsing and HTML selection are pure computations done by
//! outside crates. Each is reached through one wrapper whose contract names
//! its result; everything that decides on those results is verified code in
//! the other modules.

use vstd::prelude::*;

verus! {

/// The view of an optional string.
pub open spec fn opt_view(o: Option<String>) -> Option<Seq<char>> {
    match o {
        Option::Some(s) => Option::Some(s@),
        Option::None => Option::None,
    }
}

/// What percent-encoding a text for a URL fragment yields. The encoding is a
/// function of the characters alone.
pub uninterp spec fn fragment_encoded(s: Seq<char>) -> Seq<char>;

/// What parsing a text as an absolute URL yields: its normalized
/// serialization, or nothing when the text is not a valid URL. Parsing is a
/// function of the text alone.
pub uninterp spec fn parsed_url(s: Seq<char>) -> Option<Seq<char>>;

/// The scheme of the URL a text parses to. Meaningful only when
/// `parsed_url(s)` is some.
pub uninterp spec fn url_scheme(s: Seq<char>) -> Seq<char>;

/// The last path segment of the URL a text parses to, or nothing when that
/// URL has no path segments (it cannot be a base). Meaningful only when
/// `parsed_url(s)` is some.
pub uninterp spec fn url_last_segment(s: Seq<char>) -> Option<Seq<char>>;

/// Whether a selector text compiles as a CSS selector.
pub uninterp spec fn selector_compiles(s: Seq<char>) -> bool;

/// The `href` attribute of each element the selector matches in the parsed
/// HTML document, in document order; an element without the attribute
/// contributes nothing-at-that-position. Parsing and selection are functions
/// of the document text and the selector text alone.
pub uninterp spec fn selected_hrefs(body: Seq<char>, selector: Seq<char>) -> Seq<
    Option<Seq<char>>,
>;

/// Relies on `url_escape::encode_fragment`: percent-encodes the text with the
/// fragment percent-encode set, a pure function of the text.
#[verifier::external_body]
pub(crate) fn encode_query_fragment(s: &str) -> (r: String)
    ensures
        r@ == fragment_encoded(s@),
{
    url_escape::encode_fragment(s).into_owned()
}

/// What the add workflow reads of a parsed URL: its normalized text, its
/// scheme, and its last path segment.
pub struct UrlParts {
    /// The normalized serialization of the URL.
    pub text: String,
    /// The URL's scheme.
    pub scheme: String,
    /// The last path segment, or `None` when the URL cannot be a base.
    pub last_segment: Option<String>,
}

/// Relies on `url::Url::parse`, `Url::as_str`, `Url::scheme` and
/// `Url::path_segments`: parses the text as an absolute URL and reads its
/// serialization, scheme and last path segment, all pure functions of the
/// text.
#[verifier::external_body]
pub(crate) fn parse_url_parts(s: &str) -> (r: Option<UrlParts>)
    ensures
        r is Some <==> parsed_url(s@) is Some,
        r matches Some(p) ==> p.text@ == parsed_url(s@)->Some_0 && p.scheme@ == url_scheme(s@)
            && opt_view(p.last_segment) == url_last_segment(s@),
{
    match url::Url::parse(s) {
        Ok(u) => {
            let text = u.as_str().to_string();
            let scheme = u.scheme().to_string();
            let last_segment = u.path_segments().and_then(|segs| segs.last()).map(
                |seg: &str| seg.to_string(),
            );
            Some(UrlParts { text, scheme, last_segment })
        },
        Err(_) => None,
    }
}

/// Relies on `scraper::Selector::parse`: whether the selector text compiles,
/// a pure function of the text.
#[verifier::external_body]
pub(crate) fn selector_is_valid(selector: &str) -> (r: bool)
    ensures
        r == selector_compiles(selector@),
{
    scraper::Selector::parse(selector).is_ok()
}

/// Relies on `scraper::Html::parse_document`, `Html::select` and
/// `Element::attr`: parses the document and hands out the `href` attribute of
/// every element the selector matches, in document order.
#[verifier::external_body]
pub(crate) fn select_hrefs(body: &str, selector: &str) -> (r: Vec<Option<String>>)
    requires
        selector_compiles(selector@),
    ensures
        r@.map_values(|o: Option<String>| opt_view(o)) == selected_hrefs(body@, selector@),
{
    let document = scraper::Html::parse_document(body);
    let sel = scraper::Selector::parse(selector).expect("the selector compiles");
    document.select(&sel).map(
        |el| el.value().attr("href").map(|href| href.to_string()),
    ).collect()
}

} // verus!
