use std::collections::HashMap;

use img_crawler::engine::{Crawler, SeedError};
use img_crawler::store::SaveOutcome;

struct Site {
    pages: HashMap<String, String>,
    images: HashMap<String, Vec<u8>>,
}

struct Run {
    claims: Vec<(String, bool)>,
    written: Vec<(Vec<String>, usize)>,
}

fn jpeg(len: usize) -> Vec<u8> {
    let mut v = vec![0xffu8, 0xd8, 0xff, 0xe0];
    v.resize(len, 3);
    v
}

fn crawl(c: &mut Crawler, url: &str, site: &Site, run: &mut Run) {
    let claimed = c.begin_page(url);
    run.claims.push((url.to_string(), claimed));
    if !claimed {
        return;
    }
    let html = site.pages.get(url).cloned().unwrap_or_default();
    let plan = c.plan_page(url, &html);
    for img in &plan.images {
        let bytes = site.images.get(img).cloned().unwrap_or_default();
        let len: usize = bytes.len();
        if let SaveOutcome::Written(p) = c.store_image(img, bytes) {
            run.written.push((p.path_parts(), len));
        }
    }
    for link in &plan.links {
        crawl(c, link, site, run);
    }
}

fn run_site(seed: &str, pages: &[(&str, &str)], images: &[(&str, Vec<u8>)]) -> (Crawler, Run) {
    let site = Site {
        pages: pages.iter().map(|(u, h)| (u.to_string(), h.to_string())).collect(),
        images: images.iter().map(|(u, b)| (u.to_string(), b.clone())).collect(),
    };
    let (mut c, start) = Crawler::from_seed(seed).ok().expect("seed");
    let mut run = Run { claims: Vec::new(), written: Vec::new() };
    crawl(&mut c, &start, &site, &mut run);
    (c, run)
}

#[test]
fn end_to_end_two_pages_one_image() {
    let (c, run) = run_site(
        "http://a.test/index.html",
        &[
            ("http://a.test/index.html", r#"<img src="/p/photo.jpg"><a href="/about.html">about</a>"#),
            ("http://a.test/about.html", r#"<img src="/p/photo.jpg">"#),
        ],
        &[("http://a.test/p/photo.jpg", jpeg(1500))],
    );
    assert_eq!(c.pages_visited(), 2);
    assert_eq!(c.images_downloaded(), 1);
    assert_eq!(
        run.written,
        vec![(vec!["downloads".to_string(), "jpg".into(), "a.test".into(), "small".into(), "photo.jpg".into()], 1500)]
    );
    assert_eq!(c.stored_size("photo.jpg"), Some(1500));
}

#[test]
fn self_link_visits_once() {
    let (c, run) = run_site(
        "http://a.test/",
        &[("http://a.test/", r#"<a href="/">home</a><a href="http://a.test/">again</a>"#)],
        &[],
    );
    assert_eq!(c.pages_visited(), 1);
    assert_eq!(run.claims.iter().filter(|(_, ok)| *ok).count(), 1);
    assert_eq!(run.claims.len(), 3);
}

#[test]
fn each_url_claimed_exactly_once() {
    let (c, run) = run_site(
        "http://a.test/a",
        &[
            ("http://a.test/a", r#"<a href="/b"></a><a href="/c"></a>"#),
            ("http://a.test/b", r#"<a href="/a"></a><a href="/c"></a>"#),
            ("http://a.test/c", r#"<a href="/a"></a><a href="/b"></a>"#),
        ],
        &[],
    );
    assert_eq!(c.pages_visited(), 3);
    for u in ["http://a.test/a", "http://a.test/b", "http://a.test/c"] {
        let wins = run.claims.iter().filter(|(v, ok)| v == u && *ok).count();
        assert_eq!(wins, 1, "{}", u);
    }
}

#[test]
fn larger_copy_on_later_page_replaces() {
    let (c, run) = run_site(
        "http://a.test/",
        &[
            ("http://a.test/", r#"<img src="/s/pic.jpg"><a href="/next"></a>"#),
            ("http://a.test/next", r#"<img src="/l/pic.jpg"><img src="/t/pic.jpg">"#),
        ],
        &[
            ("http://a.test/s/pic.jpg", jpeg(100)),
            ("http://a.test/l/pic.jpg", jpeg(200_000)),
            ("http://a.test/t/pic.jpg", jpeg(150)),
        ],
    );
    assert_eq!(c.images_downloaded(), 2);
    assert_eq!(c.stored_size("pic.jpg"), Some(200_000));
    assert_eq!(run.written.len(), 2);
    assert_eq!(run.written[1].0[3], "medium");
}

#[test]
fn seed_errors() {
    assert!(matches!(Crawler::from_seed("not a url"), Err(SeedError::InvalidUrl)));
    assert!(matches!(Crawler::from_seed("mailto:someone@a.test"), Err(SeedError::OpaqueOrigin)));
    let (c, start) = Crawler::from_seed("http://a.test").ok().expect("seed");
    assert_eq!(start, "http://a.test/");
    assert_eq!(c.pages_visited(), 0);
    assert_eq!(c.images_downloaded(), 0);
}
