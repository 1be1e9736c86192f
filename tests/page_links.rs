use img_crawler::engine::Crawler;
use img_crawler::page::{extract_images, extract_links, keep_same_origin};
use img_crawler::web::SiteOrigin;

const PAGE: &str = "http://a.test/dir/index.html";

fn origin() -> SiteOrigin {
    SiteOrigin::of_url(PAGE).expect("tuple origin")
}

const MIXED: &str = r#"<html><body>
<a href="/about.html">about</a>
<a href="http://other.test/x.html">elsewhere</a>
<img src="pics/cat.jpg">
<img src="http://other.test/dog.jpg">
</body></html>"#;

#[test]
fn only_same_origin_followed() {
    let links = extract_links(MIXED, PAGE, &origin());
    assert_eq!(links, vec!["http://a.test/about.html".to_string()]);
    let images = extract_images(MIXED, PAGE, &origin());
    assert_eq!(images, vec!["http://a.test/dir/pics/cat.jpg".to_string()]);
}

#[test]
fn cross_origin_filtered_in_plan() {
    let (mut c, start) = Crawler::from_seed(PAGE).ok().expect("seed");
    assert!(c.begin_page(&start));
    let plan = c.plan_page(&start, MIXED);
    assert_eq!(plan.links, vec!["http://a.test/about.html".to_string()]);
    assert_eq!(plan.images, vec!["http://a.test/dir/pics/cat.jpg".to_string()]);
}

#[test]
fn document_order_and_duplicates_kept() {
    let html = r#"<a href="b.html"></a><a href="a.html"></a><a href="b.html"></a><a>no target</a>"#;
    let links = extract_links(html, PAGE, &origin());
    assert_eq!(
        links,
        vec![
            "http://a.test/dir/b.html".to_string(),
            "http://a.test/dir/a.html".to_string(),
            "http://a.test/dir/b.html".to_string(),
        ]
    );
}

#[test]
fn malformed_references_skipped() {
    let refs = vec![Some("http://[bad".to_string()), None, Some("ok.png".to_string())];
    let kept = keep_same_origin(PAGE, &origin(), &refs);
    assert_eq!(kept, vec!["http://a.test/dir/ok.png".to_string()]);
}

#[test]
fn other_port_is_other_origin() {
    let o = origin();
    assert!(o.contains("http://a.test/x"));
    assert!(!o.contains("http://a.test:8080/x"));
    assert!(!o.contains("https://a.test/x"));
    assert!(!o.contains("not a url"));
}

#[test]
fn repeated_image_claimed_once_per_page() {
    let (mut c, start) = Crawler::from_seed(PAGE).ok().expect("seed");
    let html = r#"<img src="/a.jpg"><img src="/a.jpg"><img src="/b.jpg">"#;
    let plan = c.plan_page(&start, html);
    assert_eq!(plan.images, vec!["http://a.test/a.jpg".to_string(), "http://a.test/b.jpg".to_string()]);
    let again = c.plan_page(&start, html);
    assert!(again.images.is_empty());
}
