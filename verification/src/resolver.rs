//! The three-tier artwork resolution pipeline: memo cache, embedded-picture
//! upload, web-search fallback. The tag read and the two HTTP calls stand
//! behind trusted wrappers; everything that decides is verified.

use vstd::prelude::*;
use vstd::string::*;
use lofty::file::TaggedFileExt;
use crate::cache::ArtCache;
use crate::picture::{ArtPicture, PicRole, MimeKind, mime_name, select_cover_index};
use crate::text::{starts_with_http, join_path, spec_join_path};
use crate::urls::{validate_upload_response, finish_search, spec_upscale, opt_view};
use crate::track::SongInfo;
use crate::presence::{PresenceState, build_presence};

verus! {

#[verifier::external_type_specification]
#[verifier::external_body]
pub struct ExLoftyPicture(lofty::picture::Picture);

/// Relies on lofty::read_from_path, TaggedFileExt::primary_tag and
/// Tag::pictures: the embedded pictures of the file's primary tag, or
/// nothing when the file is missing, unparsable or untagged. What comes
/// back depends on the disk, so nothing more is stated.
#[verifier::external_body]
fn load_pictures(path: &String) -> (r: Option<Vec<lofty::picture::Picture>>) {
    let tagged = lofty::read_from_path(path.as_str()).ok()?;
    let tag = tagged.primary_tag()?;
    Some(tag.pictures().to_vec())
}

/// Relies on lofty's Picture accessors pic_type, mime_type and data:
/// repacks one picture's classification, mime kind and raw bytes into the
/// library's own type, one field each.
#[verifier::external_body]
fn convert_picture(p: &lofty::picture::Picture) -> (r: ArtPicture) {
    let front = p.pic_type() == lofty::picture::PictureType::CoverFront;
    let role = if front { PicRole::CoverFront } else { PicRole::Other };
    let mime = match p.mime_type() {
        Some(lofty::picture::MimeType::Png) => MimeKind::Png,
        Some(lofty::picture::MimeType::Jpeg) => MimeKind::Jpeg,
        Some(lofty::picture::MimeType::Tiff) => MimeKind::Tiff,
        Some(lofty::picture::MimeType::Bmp) => MimeKind::Bmp,
        Some(lofty::picture::MimeType::Gif) => MimeKind::Gif,
        _ => MimeKind::OctetStream,
    };
    ArtPicture { role, mime, bytes: p.data().to_vec() }
}

/// Relies on reqwest's blocking client: one GET to the fixed search
/// endpoint with the free-text term, entity `album`, limit 1. The response
/// body on a success status, nothing on any failure; the outcome depends
/// on the network, so nothing more is stated.
#[verifier::external_body]
fn http_search(term: &String) -> (r: Option<String>) {
    let client = reqwest::blocking::Client::builder().build().ok()?;
    let res = client.get("https://itunes.apple.com/search")
        .query(&[("term", term.as_str()), ("entity", "album"), ("limit", "1")])
        .send().ok()?;
    if res.status().is_success() { res.text().ok() } else { None }
}

/// Relies on reqwest's blocking multipart POST to the fixed anonymous
/// hosting endpoint, with the picture as the file part under a fixed name
/// and a retention hint. The response body on a success status, nothing on
/// any failure; the outcome depends on the network, so nothing more is
/// stated.
#[verifier::external_body]
fn http_upload(data: &Vec<u8>, mime: &str) -> (r: Option<String>) {
    let part = reqwest::blocking::multipart::Part::bytes(data.clone())
        .file_name("art.jpg").mime_str(mime).ok()?;
    let form = reqwest::blocking::multipart::Form::new()
        .text("reqtype", "fileupload").text("time", "12h").part("fileToUpload", part);
    let client = reqwest::blocking::Client::builder().build().ok()?;
    let res = client.post("https://litterbox.catbox.moe/resources/internals/api.php")
        .multipart(form).send().ok()?;
    if res.status().is_success() { res.text().ok() } else { None }
}

/// The artwork URL of the first entry of `results` in a search response
/// body: a function of the body text alone.
pub uninterp spec fn first_artwork_of(body: Seq<char>) -> Option<Seq<char>>;

/// Relies on serde_json::from_str and Value's get and as_str: the
/// `artworkUrl100` field of the first entry of the `results` array, or
/// nothing when the body is no such document.
#[verifier::external_body]
fn parse_first_artwork_url(body: &String) -> (r: Option<String>)
    ensures
        opt_view(r) == first_artwork_of(body@),
{
    let v: serde_json::Value = serde_json::from_str(body.as_str()).ok()?;
    let url = v.get("results")?.get(0)?.get("artworkUrl100")?.as_str()?;
    Some(url.to_string())
}

/// What the search tier makes of a response body: the first result's
/// artwork URL with the thumbnail token upsized, or nothing on an empty or
/// malformed body.
pub fn search_result_from_body(body: &String) -> (r: Option<String>)
    ensures
        (match first_artwork_of(body@) {
            Some(raw) => r matches Some(u) && u@ == spec_upscale(raw),
            None => r is None,
        }),
{
    finish_search(parse_first_artwork_url(body))
}

/// The free-text search term: artist and album, space-separated.
pub fn build_search_term(artist: &str, album: &str) -> (t: String)
    ensures
        t@ == artist@ + seq![' '] + album@,
{
    let mut t = String::from_str(artist);
    t.append(" ");
    proof {
        reveal_strlit(" ");
        assert(t@ =~= artist@ + seq![' ']);
    }
    t.append(album);
    t
}

/// The tiers' strict priority: resolution takes the local tier's outcome
/// whenever there is one, and falls to the search tier's only otherwise.
pub open spec fn spec_tier_choice(local: Option<Seq<char>>, search: Option<Seq<char>>) -> Option<
    Seq<char>,
> {
    if local is Some {
        local
    } else {
        search
    }
}

/// Tier priority: when the local tier yields a URL — as it does for a file
/// with an embedded front cover whose upload succeeds — resolution returns
/// exactly that URL, whatever the search tier would have said.
pub proof fn lemma_tier_priority(local: Seq<char>, search: Option<Seq<char>>)
    ensures
        spec_tier_choice(Some(local), search) == Some(local),
{
}

/// Fallback: when the local tier yields nothing — as for a file with no
/// embedded pictures or no primary tag — resolution takes exactly the
/// search tier's outcome.
pub proof fn lemma_tier_fallback(search: Option<Seq<char>>)
    ensures
        spec_tier_choice(None, search) == search,
{
}

/// Cache idempotence: a successful resolution of `path` with URL `u`
/// leaves a memo in which `path` maps to `u`; by `get_album_art_url`'s
/// cache-hit clause, a second resolution of `path` then returns the
/// identical URL and leaves the memo unchanged.
pub proof fn lemma_cache_idempotence(m: Map<Seq<char>, Seq<char>>, path: Seq<char>, u: Seq<char>)
    ensures
        m.insert(path, u).contains_key(path),
        m.insert(path, u)[path] == u,
{
}

/// Resolves artwork through the tiers and memoizes successes.
pub struct ArtworkResolver {
    cache: ArtCache,
}

impl ArtworkResolver {
    /// The memo of resolved URLs, path to URL.
    pub closed spec fn view(&self) -> Map<Seq<char>, Seq<char>> {
        self.cache@
    }

    pub closed spec fn wf(&self) -> bool {
        self.cache.wf()
    }

    pub fn new() -> (r: Self)
        ensures
            r.wf(),
            r@ == Map::<Seq<char>, Seq<char>>::empty(),
    {
        ArtworkResolver { cache: ArtCache::new() }
    }

    /// The local tier: read the file's embedded pictures, pick the cover,
    /// upload it, and validate the returned URL.
    fn try_local(path: &String) -> (r: Option<String>)
        ensures
            r matches Some(u) ==> starts_with_http(u@),
    {
        let rawpics = match load_pictures(path) {
            Some(v) => v,
            None => {
                return None;
            },
        };
        let mut pics: Vec<ArtPicture> = Vec::new();
        let mut i: usize = 0;
        let n = rawpics.len();
        while i < n
            invariant
                n == rawpics@.len(),
                0 <= i <= n,
            decreases n - i,
        {
            pics.push(convert_picture(&rawpics[i]));
            i = i + 1;
        }
        let j = match select_cover_index(&pics) {
            Some(j) => j,
            None => {
                return None;
            },
        };
        let mime = mime_name(pics[j].mime);
        let body = match http_upload(&pics[j].bytes, mime) {
            Some(b) => b,
            None => {
                return None;
            },
        };
        validate_upload_response(body.as_str())
    }

    /// The web-search tier: query the metadata API and upsize the hit.
    /// Whatever the network answered, a URL from this tier went through the
    /// thumbnail upsizing.
    fn try_search(artist: &String, album: &String) -> (r: Option<String>)
        ensures
            r matches Some(u) ==> exists|raw: Seq<char>| u@ == spec_upscale(raw),
    {
        let term = build_search_term(artist.as_str(), album.as_str());
        match http_search(&term) {
            Some(body) => search_result_from_body(&body),
            None => None,
        }
    }

    /// Resolve artwork for the track at `path`, searching by `artist` and
    /// `album` when the file yields nothing. A cached path returns its URL
    /// untouched; a fresh success is memoized; a failure leaves the cache
    /// alone, so the next cycle retries the full chain.
    pub fn get_album_art_url(&mut self, path: &String, artist: &String, album: &String) -> (r:
        Option<String>)
        requires
            old(self).wf(),
        ensures
            final(self).wf(),
            old(self)@.contains_key(path@) ==> (r matches Some(u) && u@ == old(self)@[path@]
                && final(self)@ == old(self)@),
            r matches Some(u) ==> final(self)@ == old(self)@.insert(path@, u@),
            r is None ==> final(self)@ == old(self)@ && !old(self)@.contains_key(path@),
            r matches Some(u) ==> (old(self)@.contains_key(path@) || starts_with_http(u@)
                || exists|raw: Seq<char>| u@ == spec_upscale(raw)),
    {
        let hit = self.cache.get(path);
        if let Some(u) = hit {
            let out = u.clone();
            proof {
                assert(self@.insert(path@, out@) =~= self@);
            }
            return Some(out);
        }
        let local = Self::try_local(path);
        let chosen = match local {
            Some(u) => Some(u),
            None => Self::try_search(artist, album),
        };
        match chosen {
            Some(u) => {
                self.cache.insert(path.clone(), u.clone());
                Some(u)
            },
            None => None,
        }
    }

    /// One poll cycle's payload. When the daemon reports no current track,
    /// nothing is pushed and artwork resolution is not attempted — the
    /// memo stays untouched. For a track, the payload carries its fields
    /// and whatever artwork resolved; a track without a file path skips
    /// the whole artwork chain.
    pub fn presence_for(&mut self, song: &Option<SongInfo>, music_dir: &String) -> (r: Option<
        PresenceState>)
        requires
            old(self).wf(),
        ensures
            final(self).wf(),
            song is None ==> r is None && *final(self) == *old(self),
            song matches Some(s) ==> (r matches Some(p) && p.details@ == s.title@ && p.state@
                == s.artist@ && p.large_text@ == s.album@),
            (song matches Some(s) && s.file_path is None) ==> (r matches Some(p)
                && p.image_url is None && *final(self) == *old(self)),
            song matches Some(s) ==> (s.file_path matches Some(rel) ==> (r matches Some(p) && ((
            p.image_url matches Some(u) && final(self)@ == old(self)@.insert(
                spec_join_path(music_dir@, rel@),
                u@,
            )) || (p.image_url is None && final(self)@ == old(self)@)))),
    {
        match song {
            None => None,
            Some(s) => {
                let art = match &s.file_path {
                    Some(rel) => {
                        let abs = join_path(music_dir.as_str(), rel.as_str());
                        self.get_album_art_url(&abs, &s.artist, &s.album)
                    },
                    None => None,
                };
                Some(build_presence(s, art))
            },
        }
    }
}

} // verus!
