use img_crawler::format::{sniff, ImageKind};
use img_crawler::size::SizeCategory;
use img_crawler::store::{strip_extension, ImageStore, SaveOutcome};

fn jpeg(len: usize) -> Vec<u8> {
    let mut v = vec![0xffu8, 0xd8, 0xff, 0xe0];
    v.resize(len, 7);
    v
}

fn gif(len: usize) -> Vec<u8> {
    let mut v = b"GIF89a".to_vec();
    v.resize(len, 1);
    v
}

fn png(len: usize) -> Vec<u8> {
    let mut v = b"\x89PNG\r\n\x1a\n".to_vec();
    v.resize(len, 0);
    v
}

fn written_parts(o: &SaveOutcome) -> Vec<String> {
    match o {
        SaveOutcome::Written(p) => p.path_parts(),
        _ => panic!("expected a write"),
    }
}

#[test]
fn sniffs_signatures() {
    assert_eq!(sniff(&jpeg(10)), ImageKind::Jpeg);
    assert_eq!(sniff(&gif(10)), ImageKind::Gif);
    assert_eq!(sniff(b"GIF87a"), ImageKind::Gif);
    assert_eq!(sniff(&png(10)), ImageKind::Other);
    assert_eq!(sniff(&[]), ImageKind::Other);
    assert_eq!(sniff(&[0xff, 0xd8]), ImageKind::Other);
    assert_eq!(ImageKind::Jpeg.extension(), Some("jpg"));
    assert_eq!(ImageKind::Gif.extension(), Some("gif"));
    assert_eq!(ImageKind::Other.extension(), None);
}

#[test]
fn larger_arriving_second_replaces() {
    let mut store = ImageStore::new();
    let first = store.save("http://a.test/p/photo.jpg", jpeg(800));
    assert!(matches!(first, SaveOutcome::Written(_)));
    let second = store.save("http://a.test/q/photo.jpg", jpeg(1500));
    assert!(matches!(second, SaveOutcome::Written(_)));
    assert_eq!(store.stored_size("photo.jpg"), Some(1500));
}

#[test]
fn larger_arriving_first_is_kept() {
    let mut store = ImageStore::new();
    let first = store.save("http://a.test/q/photo.jpg", jpeg(1500));
    assert!(matches!(first, SaveOutcome::Written(_)));
    let second = store.save("http://a.test/p/photo.jpg", jpeg(800));
    assert!(matches!(second, SaveOutcome::SkippedSmaller));
    assert_eq!(store.stored_size("photo.jpg"), Some(1500));
}

#[test]
fn equal_size_is_skipped() {
    let mut store = ImageStore::new();
    assert!(matches!(store.save("http://a.test/a/x.jpg", jpeg(900)), SaveOutcome::Written(_)));
    assert!(matches!(store.save("http://a.test/b/x.jpg", jpeg(900)), SaveOutcome::SkippedSmaller));
    assert_eq!(store.stored_size("x.jpg"), Some(900));
}

#[test]
fn png_is_skipped_unsupported() {
    let mut store = ImageStore::new();
    let r = store.save("http://a.test/p/pic.png", png(500));
    assert!(matches!(r, SaveOutcome::SkippedUnsupportedFormat));
    assert_eq!(store.stored_size("pic.png"), None);
    assert_eq!(store.stored_size("pic.jpg"), None);
    assert_eq!(store.stored_size("pic.gif"), None);
}

#[test]
fn jpeg_destination() {
    let mut store = ImageStore::new();
    let r = store.save("http://a.test/p/photo.jpg", jpeg(1500));
    assert_eq!(written_parts(&r), vec!["downloads", "jpg", "a.test", "small", "photo.jpg"]);
    match r {
        SaveOutcome::Written(p) => {
            assert_eq!(p.category, SizeCategory::Small);
            assert_eq!(p.filename, "photo.jpg");
        }
        _ => panic!("expected a write"),
    }
}

#[test]
fn gif_destination_by_content() {
    let mut store = ImageStore::new();
    let r = store.save("http://b.test/img/anim.png", gif(200_000));
    assert_eq!(written_parts(&r), vec!["downloads", "gif", "b.test", "medium", "anim.gif"]);
}

#[test]
fn large_image_destination() {
    let mut store = ImageStore::new();
    let r = store.save("http://b.test/big", jpeg(1048576));
    assert_eq!(written_parts(&r), vec!["downloads", "jpg", "b.test", "large", "big.jpg"]);
}

#[test]
fn host_without_domain_is_unknown() {
    let mut store = ImageStore::new();
    let r = store.save("http://127.0.0.1/x.jpg", jpeg(10));
    assert_eq!(written_parts(&r), vec!["downloads", "jpg", "unknown", "small", "x.jpg"]);
}

#[test]
fn url_without_path_segments_uses_default_stem() {
    let mut store = ImageStore::new();
    let r = store.save("data:image/jpeg,abc", jpeg(10));
    assert_eq!(written_parts(&r), vec!["downloads", "jpg", "unknown", "small", "image.jpg"]);
}

#[test]
fn extension_stripping() {
    assert_eq!(strip_extension("photo.jpg"), "photo");
    assert_eq!(strip_extension("a.b.c"), "a.b");
    assert_eq!(strip_extension("noext"), "noext");
    assert_eq!(strip_extension(""), "");
}
