//! Where an image goes, and whether it replaces what is held under its name.

use vstd::prelude::*;
use crate::format::{extension_of, kind_of, sniff};
use crate::size::{SizeCategory, categorize, category_name, category_of};
use crate::versions::{VersionTable, after_offer, offer_accepted};
use crate::web::{domain, last_segment, url_domain, url_last_segment, views};

verus! {

/// The position of the last `.` of `s`, if any.
pub open spec fn last_dot(s: Seq<char>) -> Option<int>
    decreases s.len(),
{
    if s.len() == 0 {
        None
    } else if s.last() == '.' {
        Some(s.len() - 1)
    } else {
        last_dot(s.drop_last())
    }
}

/// `s` without its extension: what precedes its last `.`, or all of it.
pub open spec fn without_extension(s: Seq<char>) -> Seq<char> {
    match last_dot(s) {
        Some(i) => s.subrange(0, i),
        None => s,
    }
}

/// The stem of an image's filename: the last segment of its URL's path
/// without its extension, or `image` where the path has no segment.
pub open spec fn stem_of(url: Seq<char>) -> Seq<char> {
    match url_last_segment(url) {
        Some(s) => without_extension(s),
        None => "image"@,
    }
}

/// Drops the extension of a path segment: `photo.jpg` gives `photo`.
pub fn strip_extension(segment: &str) -> (r: String)
    ensures
        r@ == without_extension(segment@),
{
    let ghost s = segment@;
    let n: usize = segment.unicode_len();
    let mut i: usize = n;
    assert(s.subrange(0, n as int) =~= s);
    while i > 0
        invariant
            i <= n,
            n == s.len(),
            s == segment@,
            last_dot(s) == last_dot(s.subrange(0, i as int)),
        decreases i,
    {
        assert(s.subrange(0, i as int).drop_last() =~= s.subrange(0, i - 1));
        if segment.get_char(i - 1) == '.' {
            return String::from_str(segment.substring_char(0, i - 1));
        }
        i = i - 1;
    }
    assert(s.subrange(0, 0) =~= Seq::<char>::empty());
    String::from_str(segment)
}

/// The filename under which the image at `url` is stored with extension `ext`.
pub open spec fn stored_name(url: Seq<char>, ext: Seq<char>) -> Seq<char> {
    stem_of(url) + "."@ + ext
}

/// The domain directory of the image at `url`: its domain, or `unknown`.
pub open spec fn domain_dir(url: Seq<char>) -> Seq<char> {
    match url_domain(url) {
        Some(d) => d,
        None => "unknown"@,
    }
}

/// Where a written image is to be put:
/// `downloads/<extension>/<domain>/<category>/<filename>`.
pub struct SavePlan {
    pub extension: String,
    pub domain: String,
    pub category: SizeCategory,
    pub filename: String,
}

/// What saving an image came to.
pub enum SaveOutcome {
    /// The image is the best known under its filename and is to be written.
    Written(SavePlan),
    /// A version at least as large is already held under its filename.
    SkippedSmaller,
    /// The bytes are neither JPEG nor GIF.
    SkippedUnsupportedFormat,
}

/// The path components of a plan, root first.
pub open spec fn plan_path(p: SavePlan) -> Seq<Seq<char>> {
    seq!["downloads"@, p.extension@, p.domain@, category_name(p.category), p.filename@]
}

impl SavePlan {
    /// The components of the destination path, root first.
    pub fn path_parts(&self) -> (r: Vec<String>)
        ensures
            views(r@) == plan_path(*self),
    {
        proof {
            reveal_strlit("downloads");
        }
        let mut r: Vec<String> = Vec::new();
        r.push(String::from_str("downloads"));
        r.push(self.extension.clone());
        r.push(self.domain.clone());
        r.push(String::from_str(self.category.dir_name()));
        r.push(self.filename.clone());
        assert(views(r@) =~= plan_path(*self));
        r
    }
}

/// The best-known version of each image filename, and the rule that decides
/// which images are written.
pub struct ImageStore {
    versions: VersionTable,
}

impl ImageStore {
    pub closed spec fn wf(&self) -> bool {
        self.versions.wf()
    }

    /// The best-known contents under each filename.
    pub closed spec fn versions(&self) -> Map<Seq<char>, Seq<u8>> {
        self.versions@
    }

    /// What saving `bytes` fetched from `url` does: the outcome `r`, and the
    /// versions `after` that follow from `before`.
    pub open spec fn save_result(
        before: Map<Seq<char>, Seq<u8>>,
        url: Seq<char>,
        bytes: Seq<u8>,
        after: Map<Seq<char>, Seq<u8>>,
        r: SaveOutcome,
    ) -> bool {
        match extension_of(kind_of(bytes)) {
            None => r is SkippedUnsupportedFormat && after == before,
            Some(ext) => {
                let name = stored_name(url, ext);
                &&& after == after_offer(before, name, bytes)
                &&& if offer_accepted(before, name, bytes.len() as int) {
                    match r {
                        SaveOutcome::Written(p) => {
                            &&& p.extension@ == ext
                            &&& p.domain@ == domain_dir(url)
                            &&& p.category == category_of(bytes.len() as int)
                            &&& p.filename@ == name
                        },
                        _ => false,
                    }
                } else {
                    r is SkippedSmaller
                }
            },
        }
    }

    /// A store that holds no version.
    pub fn new() -> (r: ImageStore)
        ensures
            r.wf(),
            r.versions() == Map::<Seq<char>, Seq<u8>>::empty(),
    {
        ImageStore { versions: VersionTable::new() }
    }

    /// The size of the version held under `name`, if any.
    pub fn stored_size(&self, name: &str) -> (r: Option<usize>)
        requires
            self.wf(),
        ensures
            match r {
                Some(n) => self.versions().contains_key(name@) && n == self.versions()[name@].len(),
                None => !self.versions().contains_key(name@),
            },
    {
        self.versions.stored_size(name)
    }

    /// Saves the image fetched from `url`: skips bytes that are neither JPEG
    /// nor GIF, skips an image no larger than the version held under its
    /// filename, and otherwise records it as that version and says where it
    /// is to be written.
    pub fn save(&mut self, url: &str, bytes: Vec<u8>) -> (r: SaveOutcome)
        requires
            old(self).wf(),
        ensures
            final(self).wf(),
            ImageStore::save_result(old(self).versions(), url@, bytes@, final(self).versions(), r),
    {
        let kind = sniff(bytes.as_slice());
        let ext = match kind.extension() {
            Some(e) => e,
            None => {
                return SaveOutcome::SkippedUnsupportedFormat;
            },
        };
        let stem = match last_segment(url) {
            Some(s) => strip_extension(s.as_str()),
            None => String::from_str("image"),
        };
        proof {
            reveal_strlit("image");
        }
        let filename = stem.concat(".").concat(ext);
        proof {
            reveal_strlit(".");
        }
        let size: u64 = bytes.len() as u64;
        if self.versions.offer(filename.clone(), bytes) {
            let dom = match domain(url) {
                Some(d) => d,
                None => String::from_str("unknown"),
            };
            proof {
                reveal_strlit("unknown");
            }
            SaveOutcome::Written(
                SavePlan {
                    extension: String::from_str(ext),
                    domain: dom,
                    category: categorize(size),
                    filename,
                },
            )
        } else {
            SaveOutcome::SkippedSmaller
        }
    }
}

/// Two images stored under one filename, of sizes s1 < s2, saved in either
/// order into a store that held nothing under that name: the save of the
/// larger reports a write whichever came first, and the larger is the
/// version kept.
pub proof fn lemma_larger_save_wins(
    before: Map<Seq<char>, Seq<u8>>,
    url_small: Seq<char>,
    small: Seq<u8>,
    url_large: Seq<char>,
    large: Seq<u8>,
    mid1: Map<Seq<char>, Seq<u8>>,
    after1: Map<Seq<char>, Seq<u8>>,
    first1: SaveOutcome,
    second1: SaveOutcome,
    mid2: Map<Seq<char>, Seq<u8>>,
    after2: Map<Seq<char>, Seq<u8>>,
    first2: SaveOutcome,
    second2: SaveOutcome,
)
    requires
        extension_of(kind_of(small)) is Some,
        extension_of(kind_of(large)) == extension_of(kind_of(small)),
        stored_name(url_small, extension_of(kind_of(small)).unwrap()) == stored_name(
            url_large,
            extension_of(kind_of(small)).unwrap(),
        ),
        !before.contains_key(stored_name(url_small, extension_of(kind_of(small)).unwrap())),
        small.len() < large.len(),
        ImageStore::save_result(before, url_small, small, mid1, first1),
        ImageStore::save_result(mid1, url_large, large, after1, second1),
        ImageStore::save_result(before, url_large, large, mid2, first2),
        ImageStore::save_result(mid2, url_small, small, after2, second2),
    ensures
        second1 is Written,
        first2 is Written,
        after1[stored_name(url_small, extension_of(kind_of(small)).unwrap())] == large,
        after2[stored_name(url_small, extension_of(kind_of(small)).unwrap())] == large,
{
    let name = stored_name(url_small, extension_of(kind_of(small)).unwrap());
    crate::versions::lemma_larger_version_kept(before, name, small, large);
}

} // verus!
