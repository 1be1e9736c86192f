//! Image formats, told apart by their leading bytes through the `image` crate.

use vstd::prelude::*;

verus! {

/// What the leading bytes of an image say it is.
#[derive(Clone, Copy, Debug, PartialEq, Eq, Structural)]
pub enum ImageKind {
    Jpeg,
    Gif,
    /// Any other format, or none that is known.
    Other,
}

/// The JPEG signature `FF D8 FF`.
pub open spec fn has_jpeg_magic(b: Seq<u8>) -> bool {
    b.len() >= 3 && b[0] == 0xffu8 && b[1] == 0xd8u8 && b[2] == 0xffu8
}

/// The GIF signatures `GIF87a` and `GIF89a`.
pub open spec fn has_gif_magic(b: Seq<u8>) -> bool {
    &&& b.len() >= 6
    &&& b[0] == 0x47u8 && b[1] == 0x49u8 && b[2] == 0x46u8 && b[3] == 0x38u8
    &&& (b[4] == 0x37u8 || b[4] == 0x39u8)
    &&& b[5] == 0x61u8
}

/// The kind of an image with contents `b`.
pub open spec fn kind_of(b: Seq<u8>) -> ImageKind {
    if has_jpeg_magic(b) {
        ImageKind::Jpeg
    } else if has_gif_magic(b) {
        ImageKind::Gif
    } else {
        ImageKind::Other
    }
}

/// The file extension under which a kind is stored; `None` for a kind that
/// is not stored.
pub open spec fn extension_of(k: ImageKind) -> Option<Seq<char>> {
    match k {
        ImageKind::Jpeg => Some("jpg"@),
        ImageKind::Gif => Some("gif"@),
        ImageKind::Other => None,
    }
}

/// Relies on `image::guess_format`: its table of signatures matches a JPEG
/// by `FF D8 FF` and a GIF by `GIF87a` or `GIF89a`, and no signature listed
/// before them shares a prefix with them.
#[verifier::external_body]
fn guess_kind(bytes: &[u8]) -> (r: ImageKind)
    ensures
        r == kind_of(bytes@),
{
    match image::guess_format(bytes) {
        Ok(image::ImageFormat::Jpeg) => ImageKind::Jpeg,
        Ok(image::ImageFormat::Gif) => ImageKind::Gif,
        _ => ImageKind::Other,
    }
}

/// Sniffs the format of `bytes`.
pub fn sniff(bytes: &[u8]) -> (r: ImageKind)
    ensures
        r == kind_of(bytes@),
{
    guess_kind(bytes)
}

impl ImageKind {
    /// The file extension of this kind: `jpg`, `gif`, or none.
    pub fn extension(&self) -> (r: Option<&'static str>)
        ensures
            match r {
                Some(e) => extension_of(*self) == Some(e@),
                None => extension_of(*self) is None,
            },
    {
        match self {
            ImageKind::Jpeg => Some("jpg"),
            ImageKind::Gif => Some("gif"),
            ImageKind::Other => None,
        }
    }
}

} // verus!
