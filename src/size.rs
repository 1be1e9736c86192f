//! Size categories of stored images.

use vstd::prelude::*;

verus! {

/// Bytes below which an image is small (100 KiB).
pub const SMALL_LIMIT: u64 = 102400;

/// Bytes below which an image is medium (1 MiB).
pub const MEDIUM_LIMIT: u64 = 1048576;

/// The three size classes; each names a directory level of the output layout.
#[derive(Clone, Copy, Debug, PartialEq, Eq, Structural)]
pub enum SizeCategory {
    Small,
    Medium,
    Large,
}

/// The category of an image of `size` bytes; a boundary value belongs to the
/// upper category.
pub open spec fn category_of(size: int) -> SizeCategory {
    if size < SMALL_LIMIT {
        SizeCategory::Small
    } else if size < MEDIUM_LIMIT {
        SizeCategory::Medium
    } else {
        SizeCategory::Large
    }
}

/// The directory name of a category.
pub open spec fn category_name(c: SizeCategory) -> Seq<char> {
    match c {
        SizeCategory::Small => "small"@,
        SizeCategory::Medium => "medium"@,
        SizeCategory::Large => "large"@,
    }
}

impl SizeCategory {
    /// The directory name of this category.
    pub fn dir_name(&self) -> (r: &'static str)
        ensures
            r@ == category_name(*self),
    {
        match self {
            SizeCategory::Small => "small",
            SizeCategory::Medium => "medium",
            SizeCategory::Large => "large",
        }
    }
}

/// Classifies a byte count.
pub fn categorize(size: u64) -> (r: SizeCategory)
    ensures
        r == category_of(size as int),
{
    if size < SMALL_LIMIT {
        SizeCategory::Small
    } else if size < MEDIUM_LIMIT {
        SizeCategory::Medium
    } else {
        SizeCategory::Large
    }
}

/// The directory name of the category of `size` bytes.
pub fn get_size_category(size: u64) -> (r: &'static str)
    ensures
        r@ == category_name(category_of(size as int)),
{
    categorize(size).dir_name()
}

} // verus!
