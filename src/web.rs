//! URLs and markup: what the crawl reads of them, through the `url` and
//! `scraper` crates.

use vstd::prelude::*;

verus! {

/// The serialization of `reference` resolved against the URL `base`, or
/// `None` where `base` does not parse or the reference cannot be resolved.
pub uninterp spec fn joined_url(base: Seq<char>, reference: Seq<char>) -> Option<Seq<char>>;

/// The serialization of a URL once parsed; `None` where it does not parse.
pub uninterp spec fn url_serialization(url: Seq<char>) -> Option<Seq<char>>;

/// The (scheme, host, port) origin of a URL; `None` where the URL does not
/// parse or its origin is opaque (an opaque origin equals no other).
pub uninterp spec fn url_origin(url: Seq<char>) -> Option<(Seq<char>, Seq<char>, u16)>;

/// The last segment of a URL's path; `None` where the URL does not parse or
/// cannot be a base.
pub uninterp spec fn url_last_segment(url: Seq<char>) -> Option<Seq<char>>;

/// The domain of a URL's host; `None` where the URL does not parse or its
/// host is missing or an IP address.
pub uninterp spec fn url_domain(url: Seq<char>) -> Option<Seq<char>>;

/// For each element of `html` matching the selector `tag`, in document
/// order, the value of its attribute `attr`; `None` where `tag` is not a
/// valid selector.
pub uninterp spec fn attr_values(html: Seq<char>, tag: Seq<char>, attr: Seq<char>) -> Option<
    Seq<Option<Seq<char>>>,
>;

/// The view of an optional string.
pub open spec fn opt_view(o: Option<String>) -> Option<Seq<char>> {
    match o {
        Some(s) => Some(s@),
        None => None,
    }
}

/// The views of a sequence of strings.
pub open spec fn views(v: Seq<String>) -> Seq<Seq<char>> {
    v.map_values(|s: String| s@)
}

/// The views of a sequence of optional strings.
pub open spec fn opt_views(v: Seq<Option<String>>) -> Seq<Option<Seq<char>>> {
    v.map_values(|s: Option<String>| opt_view(s))
}

/// A tuple origin: the boundary of a crawl.
pub struct SiteOrigin {
    pub scheme: String,
    pub host: String,
    pub port: u16,
}

impl View for SiteOrigin {
    type V = (Seq<char>, Seq<char>, u16);

    open spec fn view(&self) -> Self::V {
        (self.scheme@, self.host@, self.port)
    }
}

/// Relies on `url::Url::parse` and `url::Url::join`: the resolved URL,
/// serialized, depends on the two strings alone.
#[verifier::external_body]
pub(crate) fn join_url(base: &str, reference: &str) -> (r: Option<String>)
    ensures
        opt_view(r) == joined_url(base@, reference@),
{
    let base = url::Url::parse(base).ok()?;
    base.join(reference).ok().map(|u| u.to_string())
}

/// Relies on `url::Url::parse`: the parsed URL, serialized, depends on the
/// string alone.
#[verifier::external_body]
pub(crate) fn serialize_url(url: &str) -> (r: Option<String>)
    ensures
        opt_view(r) == url_serialization(url@),
{
    url::Url::parse(url).ok().map(|u| u.to_string())
}

/// Relies on `url::Url::parse` and `url::Url::origin`: a tuple origin is the
/// URL's scheme, host and port.
#[verifier::external_body]
fn origin_of(url: &str) -> (r: Option<SiteOrigin>)
    ensures
        match r {
            Some(o) => url_origin(url@) == Some(o@),
            None => url_origin(url@) is None,
        },
{
    match url::Url::parse(url).ok()?.origin() {
        url::Origin::Tuple(scheme, host, port) => Some(SiteOrigin { scheme, host: host.to_string(), port }),
        url::Origin::Opaque(_) => None,
    }
}

/// Relies on `url::Url::path_segments`: the last of the path's segments.
#[verifier::external_body]
pub(crate) fn last_segment(url: &str) -> (r: Option<String>)
    ensures
        opt_view(r) == url_last_segment(url@),
{
    let parsed = url::Url::parse(url).ok()?;
    let last = parsed.path_segments()?.last()?;
    Some(last.to_string())
}

/// Relies on `url::Url::domain`: the host of the URL where it is a domain.
#[verifier::external_body]
pub(crate) fn domain(url: &str) -> (r: Option<String>)
    ensures
        opt_view(r) == url_domain(url@),
{
    let parsed = url::Url::parse(url).ok()?;
    parsed.domain().map(|d| d.to_string())
}

/// Relies on `scraper::Html::parse_document` and `scraper::Selector`: the
/// attribute `attr` of each element that matches `tag`, in document order.
#[verifier::external_body]
pub(crate) fn select_attr(html: &str, tag: &str, attr: &str) -> (r: Option<Vec<Option<String>>>)
    ensures
        match r {
            Some(v) => attr_values(html@, tag@, attr@) == Some(opt_views(v@)),
            None => attr_values(html@, tag@, attr@) is None,
        },
{
    let selector = scraper::Selector::parse(tag).ok()?;
    let document = scraper::Html::parse_document(html);
    Some(document.select(&selector).map(|e| e.value().attr(attr).map(|a| a.to_string())).collect())
}

impl SiteOrigin {
    /// The origin of `url`; `None` where it does not parse or is opaque.
    pub fn of_url(url: &str) -> (r: Option<SiteOrigin>)
        ensures
            match r {
                Some(o) => url_origin(url@) == Some(o@),
                None => url_origin(url@) is None,
            },
    {
        origin_of(url)
    }

    /// Whether `url` has this origin.
    pub fn contains(&self, url: &str) -> (r: bool)
        ensures
            r == (url_origin(url@) == Some(self@)),
    {
        match origin_of(url) {
            Some(o) => o.scheme == self.scheme && o.host == self.host && o.port == self.port,
            None => false,
        }
    }
}

} // verus!
