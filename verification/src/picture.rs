//! The library's own model of an embedded tag picture, and the rule that
//! picks which picture becomes the cover art.

use vstd::prelude::*;

verus! {

/// Mime type of an embedded picture, as far as the uploader cares.
#[derive(Clone, Copy, PartialEq, Eq, Structural, Debug)]
pub enum MimeKind {
    Png,
    Jpeg,
    Tiff,
    Bmp,
    Gif,
    OctetStream,
}

/// Whether a picture is explicitly marked as the front cover.
#[derive(Clone, Copy, PartialEq, Eq, Structural, Debug)]
pub enum PicRole {
    CoverFront,
    Other,
}

/// An embedded picture read from a file's tag container.
pub struct ArtPicture {
    pub role: PicRole,
    pub mime: MimeKind,
    pub bytes: Vec<u8>,
}

/// The mime string handed to the upload endpoint for each kind.
pub open spec fn spec_mime_name(k: MimeKind) -> Seq<char> {
    match k {
        MimeKind::Png => "image/png"@,
        MimeKind::Jpeg => "image/jpeg"@,
        MimeKind::Tiff => "image/tiff"@,
        MimeKind::Bmp => "image/bmp"@,
        MimeKind::Gif => "image/gif"@,
        MimeKind::OctetStream => "application/octet-stream"@,
    }
}

/// Maps a mime kind to the string the upload endpoint expects.
pub fn mime_name(k: MimeKind) -> (r: &'static str)
    ensures
        r@ == spec_mime_name(k),
{
    match k {
        MimeKind::Png => "image/png",
        MimeKind::Jpeg => "image/jpeg",
        MimeKind::Tiff => "image/tiff",
        MimeKind::Bmp => "image/bmp",
        MimeKind::Gif => "image/gif",
        MimeKind::OctetStream => "application/octet-stream",
    }
}

/// Whether some picture in `s` is marked as the front cover.
pub open spec fn has_front_cover(s: Seq<ArtPicture>) -> bool {
    exists|i: int| 0 <= i < s.len() && s[i].role is CoverFront
}

/// Picks the picture to upload: the first one marked as the front cover,
/// else the first picture, else none.
pub fn select_cover_index(pics: &Vec<ArtPicture>) -> (r: Option<usize>)
    ensures
        has_front_cover(pics@) ==> (r matches Some(j) && 0 <= j < pics@.len()
            && pics@[j as int].role is CoverFront
            && (forall|k: int| 0 <= k < j ==> !(pics@[k].role is CoverFront))),
        !has_front_cover(pics@) && pics@.len() > 0 ==> r == Some(0usize),
        pics@.len() == 0 ==> r is None,
        r matches Some(j) ==> 0 <= j < pics@.len(),
{
    let n = pics.len();
    let mut i: usize = 0;
    while i < n
        invariant
            n == pics@.len(),
            0 <= i <= n,
            forall|k: int| 0 <= k < i ==> !(pics@[k].role is CoverFront),
        decreases n - i,
    {
        if matches!(pics[i].role, PicRole::CoverFront) {
            return Some(i);
        }
        i = i + 1;
    }
    if n > 0 {
        Some(0)
    } else {
        None
    }
}

} // verus!
