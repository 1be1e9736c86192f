//! Same-origin images and links of a fetched page.

use vstd::prelude::*;
use crate::web::{SiteOrigin, attr_values, joined_url, url_origin, select_attr, join_url, views};

verus! {

/// The raw attribute values that `tag` elements of `html` carry under `attr`,
/// in document order.
pub open spec fn page_refs(html: Seq<char>, tag: Seq<char>, attr: Seq<char>) -> Seq<Option<Seq<char>>> {
    match attr_values(html, tag, attr) {
        Some(v) => v,
        None => seq![],
    }
}

/// The references of `refs` that are present, resolve against `page`, and
/// have origin `origin`, resolved, in order.
pub open spec fn kept_urls(
    page: Seq<char>,
    origin: (Seq<char>, Seq<char>, u16),
    refs: Seq<Option<Seq<char>>>,
) -> Seq<Seq<char>>
    decreases refs.len(),
{
    if refs.len() == 0 {
        seq![]
    } else {
        let prev = kept_urls(page, origin, refs.drop_last());
        match refs.last() {
            Some(r) => match joined_url(page, r) {
                Some(u) => if url_origin(u) == Some(origin) {
                    prev.push(u)
                } else {
                    prev
                },
                None => prev,
            },
            None => prev,
        }
    }
}

/// The same-origin image URLs of a page.
pub open spec fn page_images(html: Seq<char>, page: Seq<char>, origin: (Seq<char>, Seq<char>, u16)) -> Seq<Seq<char>> {
    kept_urls(page, origin, page_refs(html, "img"@, "src"@))
}

/// The same-origin link URLs of a page.
pub open spec fn page_links(html: Seq<char>, page: Seq<char>, origin: (Seq<char>, Seq<char>, u16)) -> Seq<Seq<char>> {
    kept_urls(page, origin, page_refs(html, "a"@, "href"@))
}

/// Resolves each present reference of `refs` against `page`, keeping those of
/// `origin`; malformed references are skipped.
pub fn keep_same_origin(page: &str, origin: &SiteOrigin, refs: &Vec<Option<String>>) -> (r: Vec<String>)
    ensures
        views(r@) == kept_urls(page@, origin@, crate::web::opt_views(refs@)),
{
    let ghost all = crate::web::opt_views(refs@);
    let mut out: Vec<String> = Vec::new();
    let mut i: usize = 0;
    while i < refs.len()
        invariant
            i <= refs.len(),
            all == crate::web::opt_views(refs@),
            views(out@) == kept_urls(page@, origin@, all.subrange(0, i as int)),
        decreases refs.len() - i,
    {
        assert(all.subrange(0, i + 1).drop_last() =~= all.subrange(0, i as int));
        match &refs[i] {
            Some(reference) => match join_url(page, reference.as_str()) {
                Some(u) => {
                    if origin.contains(u.as_str()) {
                        out.push(u);
                        assert(views(out@) =~= kept_urls(page@, origin@, all.subrange(0, i as int)).push(u@));
                    }
                },
                None => {},
            },
            None => {},
        }
        i = i + 1;
    }
    assert(all.subrange(0, refs.len() as int) =~= all);
    out
}

/// The attribute values under `attr` of the `tag` elements of `html`.
fn refs_of(html: &str, tag: &str, attr: &str) -> (r: Vec<Option<String>>)
    ensures
        crate::web::opt_views(r@) == page_refs(html@, tag@, attr@),
{
    match select_attr(html, tag, attr) {
        Some(v) => v,
        None => {
            let v: Vec<Option<String>> = Vec::new();
            assert(crate::web::opt_views(v@) =~= seq![]);
            v
        },
    }
}

/// The same-origin image URLs of the page at `page` whose text is `html`, in
/// document order, duplicates kept.
pub fn extract_images(html: &str, page: &str, origin: &SiteOrigin) -> (r: Vec<String>)
    ensures
        views(r@) == page_images(html@, page@, origin@),
{
    let refs = refs_of(html, "img", "src");
    keep_same_origin(page, origin, &refs)
}

/// The same-origin link URLs of the page at `page` whose text is `html`, in
/// document order, duplicates kept.
pub fn extract_links(html: &str, page: &str, origin: &SiteOrigin) -> (r: Vec<String>)
    ensures
        views(r@) == page_links(html@, page@, origin@),
{
    let refs = refs_of(html, "a", "href");
    keep_same_origin(page, origin, &refs)
}

} // verus!
