//! Track identity as reported by the music daemon, with the placeholder
//! defaulting for missing tags.

use vstd::prelude::*;
use vstd::string::*;

verus! {

/// The currently playing track: display fields plus the daemon-relative
/// file path, absent when the daemon plays a stream.
#[derive(Debug, Clone)]
pub struct SongInfo {
    pub title: String,
    pub artist: String,
    pub album: String,
    pub file_path: Option<String>,
}

/// Builds a track from the daemon's optional tag fields; a missing field
/// surfaces its placeholder, never an empty string.
pub fn song_from_fields(
    title: Option<String>,
    artist: Option<String>,
    album: Option<String>,
    file_path: Option<String>,
) -> (s: SongInfo)
    ensures
        (match title {
            Some(t) => s.title@ == t@,
            None => s.title@ == "Unknown Title"@,
        }),
        (match artist {
            Some(a) => s.artist@ == a@,
            None => s.artist@ == "Unknown Artist"@,
        }),
        (match album {
            Some(a) => s.album@ == a@,
            None => s.album@ == "Unknown Album"@,
        }),
        s.file_path == file_path,
{
    let t = match title {
        Some(t) => t,
        None => String::from_str("Unknown Title"),
    };
    let a = match artist {
        Some(a) => a,
        None => String::from_str("Unknown Artist"),
    };
    let al = match album {
        Some(a) => a,
        None => String::from_str("Unknown Album"),
    };
    SongInfo { title: t, artist: a, album: al, file_path }
}

/// The value of the first tag pair whose key is `Album`, if any: how the
/// daemon's free-form tag list yields the album name.
pub fn album_from_tags(tags: &Vec<(String, String)>) -> (r: Option<String>)
    ensures
        (exists|i: int| 0 <= i < tags@.len() && tags@[i].0@ == "Album"@)
            ==> (r matches Some(v) && {
                let i = first_album_index(tags@);
                v@ == tags@[i].1@
            }),
        !(exists|i: int| 0 <= i < tags@.len() && tags@[i].0@ == "Album"@) ==> r is None,
{
    let key = String::from_str("Album");
    let n = tags.len();
    let mut i: usize = 0;
    while i < n
        invariant
            key@ == "Album"@,
            n == tags@.len(),
            0 <= i <= n,
            forall|j: int| 0 <= j < i ==> tags@[j].0@ != "Album"@,
        decreases n - i,
    {
        if key.eq(&tags[i].0) {
            proof {
                lemma_first_album_index(tags@, i as int);
            }
            return Some(tags[i].1.clone());
        }
        i = i + 1;
    }
    None
}

/// Index of the first tag pair keyed `Album`.
pub open spec fn first_album_index(tags: Seq<(String, String)>) -> int {
    choose|i: int|
        0 <= i < tags.len() && tags[i].0@ == "Album"@
            && (forall|j: int| 0 <= j < i ==> tags[j].0@ != "Album"@)
}

proof fn lemma_first_album_index(tags: Seq<(String, String)>, i: int)
    requires
        0 <= i < tags.len(),
        tags[i].0@ == "Album"@,
        forall|j: int| 0 <= j < i ==> tags[j].0@ != "Album"@,
    ensures
        first_album_index(tags) == i,
{
    assert(exists|k: int|
        0 <= k < tags.len() && tags[k].0@ == "Album"@
            && (forall|j: int| 0 <= j < k ==> tags[j].0@ != "Album"@));
    let w = first_album_index(tags);
    if w < i {
        assert(tags[w].0@ != "Album"@);
    }
    if w > i {
        assert(tags[i].0@ != "Album"@);
    }
}

} // verus!
