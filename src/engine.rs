//! The crawl's shared state and the decisions taken on it.
//!
//! A driver claims a page with [`Crawler::begin_page`], fetches it only where
//! the claim succeeded, hands its text to [`Crawler::plan_page`], fetches the
//! images that plan returns and hands each to [`Crawler::store_image`], then
//! crawls the plan's links. Each method is one step on the shared state, so a
//! concurrent driver that serializes calls keeps every claim atomic.

use vstd::prelude::*;
use crate::page::{extract_images, extract_links, page_images, page_links};
use crate::store::{ImageStore, SaveOutcome};
use crate::url_set::{UrlSet, claimed_in_order};
use crate::web::{SiteOrigin, serialize_url, url_origin, url_serialization, views};

verus! {

/// Why a crawl cannot start from a seed URL.
#[derive(Clone, Copy, Debug, PartialEq, Eq, Structural)]
pub enum SeedError {
    /// The seed does not parse as a URL.
    InvalidUrl,
    /// The seed has no (scheme, host, port) origin to confine the crawl to.
    OpaqueOrigin,
}

/// What to do after a page was fetched: the image URLs newly claimed for
/// download, and the same-origin links to crawl.
pub struct PagePlan {
    pub images: Vec<String>,
    pub links: Vec<String>,
}

/// The state that all branches of a crawl share.
pub struct Crawler {
    origin: SiteOrigin,
    visited: UrlSet,
    downloaded: UrlSet,
    written: UrlSet,
    store: ImageStore,
}

impl Crawler {
    pub closed spec fn wf(&self) -> bool {
        &&& self.visited.wf()
        &&& self.downloaded.wf()
        &&& self.written.wf()
        &&& self.store.wf()
    }

    /// The origin the crawl is confined to.
    pub closed spec fn origin(&self) -> (Seq<char>, Seq<char>, u16) {
        self.origin@
    }

    /// The pages claimed for crawling.
    pub closed spec fn visited(&self) -> Set<Seq<char>> {
        self.visited@
    }

    /// The image URLs claimed for download.
    pub closed spec fn downloaded(&self) -> Set<Seq<char>> {
        self.downloaded@
    }

    /// The image URLs whose save reported a write.
    pub closed spec fn written(&self) -> Set<Seq<char>> {
        self.written@
    }

    /// The best-known contents under each image filename.
    pub closed spec fn versions(&self) -> Map<Seq<char>, Seq<u8>> {
        self.store.versions()
    }

    /// A fresh crawl confined to `origin`.
    pub fn new(origin: SiteOrigin) -> (r: Crawler)
        ensures
            r.wf(),
            r.origin() == origin@,
            r.visited() == Set::<Seq<char>>::empty(),
            r.downloaded() == Set::<Seq<char>>::empty(),
            r.written() == Set::<Seq<char>>::empty(),
            r.versions() == Map::<Seq<char>, Seq<u8>>::empty(),
    {
        Crawler {
            origin,
            visited: UrlSet::new(),
            downloaded: UrlSet::new(),
            written: UrlSet::new(),
            store: ImageStore::new(),
        }
    }

    /// A fresh crawl from `seed`, with the seed's serialization as the first
    /// page to crawl.
    pub fn from_seed(seed: &str) -> (r: Result<(Crawler, String), SeedError>)
        ensures
            url_serialization(seed@) is None ==> r == Err::<(Crawler, String), SeedError>(
                SeedError::InvalidUrl,
            ),
            url_serialization(seed@) is Some && url_origin(seed@) is None ==> r == Err::<
                (Crawler, String),
                SeedError,
            >(SeedError::OpaqueOrigin),
            url_serialization(seed@) is Some && url_origin(seed@) is Some ==> match r {
                Ok((c, start)) => {
                    &&& c.wf()
                    &&& Some(start@) == url_serialization(seed@)
                    &&& Some(c.origin()) == url_origin(seed@)
                    &&& c.visited() == Set::<Seq<char>>::empty()
                    &&& c.downloaded() == Set::<Seq<char>>::empty()
                    &&& c.written() == Set::<Seq<char>>::empty()
                    &&& c.versions() == Map::<Seq<char>, Seq<u8>>::empty()
                },
                Err(_) => false,
            },
    {
        let start = match serialize_url(seed) {
            Some(s) => s,
            None => {
                return Err(SeedError::InvalidUrl);
            },
        };
        match SiteOrigin::of_url(seed) {
            Some(o) => Ok((Crawler::new(o), start)),
            None => Err(SeedError::OpaqueOrigin),
        }
    }

    /// Claims the page at `url` for crawling: true exactly when no branch
    /// claimed it before. A page is fetched only after a successful claim.
    pub fn begin_page(&mut self, url: &str) -> (r: bool)
        requires
            old(self).wf(),
        ensures
            final(self).wf(),
            r == !old(self).visited().contains(url@),
            final(self).visited() == old(self).visited().insert(url@),
            final(self).origin() == old(self).origin(),
            final(self).downloaded() == old(self).downloaded(),
            final(self).written() == old(self).written(),
            final(self).versions() == old(self).versions(),
    {
        self.visited.claim(url)
    }

    /// Reads the fetched page at `page` with text `html`: claims its
    /// same-origin images for download, in document order, and returns those
    /// claims that succeeded, with its same-origin links.
    pub fn plan_page(&mut self, page: &str, html: &str) -> (r: PagePlan)
        requires
            old(self).wf(),
        ensures
            final(self).wf(),
            views(r.images@) == claimed_in_order(
                old(self).downloaded(),
                page_images(html@, page@, old(self).origin()),
            ),
            views(r.links@) == page_links(html@, page@, old(self).origin()),
            final(self).downloaded() == old(self).downloaded().union(
                page_images(html@, page@, old(self).origin()).to_set(),
            ),
            final(self).origin() == old(self).origin(),
            final(self).visited() == old(self).visited(),
            final(self).written() == old(self).written(),
            final(self).versions() == old(self).versions(),
    {
        let found = extract_images(html, page, &self.origin);
        let images = self.downloaded.claim_all(&found);
        let links = extract_links(html, page, &self.origin);
        PagePlan { images, links }
    }

    /// Saves the image fetched from `url` (see [`ImageStore::save`]), and
    /// counts it as written where the save says so.
    pub fn store_image(&mut self, url: &str, bytes: Vec<u8>) -> (r: SaveOutcome)
        requires
            old(self).wf(),
        ensures
            final(self).wf(),
            final(self).written() == if r is Written {
                old(self).written().insert(url@)
            } else {
                old(self).written()
            },
            final(self).origin() == old(self).origin(),
            final(self).visited() == old(self).visited(),
            final(self).downloaded() == old(self).downloaded(),
            ImageStore::save_result(old(self).versions(), url@, bytes@, final(self).versions(), r),
    {
        let r = self.store.save(url, bytes);
        if let SaveOutcome::Written(_) = &r {
            self.written.claim(url);
        }
        r
    }

    /// The number of distinct pages claimed for crawling.
    pub fn pages_visited(&self) -> (r: usize)
        requires
            self.wf(),
        ensures
            r == self.visited().len(),
    {
        self.visited.len()
    }

    /// The number of distinct images written.
    pub fn images_downloaded(&self) -> (r: usize)
        requires
            self.wf(),
        ensures
            r == self.written().len(),
    {
        self.written.len()
    }

    /// The size of the version held under the image filename `name`, if any.
    pub fn stored_size(&self, name: &str) -> (r: Option<usize>)
        requires
            self.wf(),
        ensures
            match r {
                Some(n) => self.versions().contains_key(name@) && n == self.versions()[name@].len(),
                None => !self.versions().contains_key(name@),
            },
    {
        self.store.stored_size(name)
    }
}

} // verus!
