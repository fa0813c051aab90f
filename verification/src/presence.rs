//! The presence payload pushed to the status-display service.

use vstd::prelude::*;
use crate::track::SongInfo;

verus! {

/// One status push: title as details, artist as state, album as the large
/// image's caption, and the resolved artwork URL when there is one.
pub struct PresenceState {
    pub details: String,
    pub state: String,
    pub large_text: String,
    pub image_url: Option<String>,
}

/// Builds the payload for a track; every field comes straight from the
/// track and the resolved artwork.
pub fn build_presence(song: &SongInfo, art_url: Option<String>) -> (p: PresenceState)
    ensures
        p.details@ == song.title@,
        p.state@ == song.artist@,
        p.large_text@ == song.album@,
        p.image_url == art_url,
{
    PresenceState {
        details: song.title.clone(),
        state: song.artist.clone(),
        large_text: song.album.clone(),
        image_url: art_url,
    }
}

} // verus!
