//! Same-origin image crawler: the decisions of the crawl, verified.
//!
//! The library holds the crawl's shared state (pages claimed, image URLs
//! claimed, best-known image versions) and the rules that act on it. Fetching
//! pages and writing files are left to the caller, which hands fetched text
//! and bytes to the methods of [`engine::Crawler`].

pub mod size;
pub mod web;
pub mod page;
pub mod url_set;
pub mod format;
pub mod versions;
pub mod store;
pub mod engine;
