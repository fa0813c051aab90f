use mpd_presence::cache::ArtCache;
use mpd_presence::picture::{ArtPicture, MimeKind, PicRole, mime_name, select_cover_index};
use mpd_presence::resolver::{build_search_term, search_result_from_body, ArtworkResolver};
use mpd_presence::urls::{finish_search, upscale_artwork_url, validate_upload_response};

fn pic(role: PicRole) -> ArtPicture {
    ArtPicture { role, mime: MimeKind::Png, bytes: vec![1u8, 2u8, 3u8] }
}

#[test]
fn cover_front_is_selected_over_earlier_pictures() {
    let pics = vec![pic(PicRole::Other), pic(PicRole::CoverFront), pic(PicRole::Other)];
    assert_eq!(select_cover_index(&pics), Some(1));
}

#[test]
fn first_picture_is_selected_without_cover_front() {
    let pics = vec![pic(PicRole::Other), pic(PicRole::Other)];
    assert_eq!(select_cover_index(&pics), Some(0));
}

#[test]
fn no_pictures_selects_nothing() {
    let pics: Vec<ArtPicture> = Vec::new();
    assert_eq!(select_cover_index(&pics), None);
}

#[test]
fn mime_names_match_upload_strings() {
    assert_eq!(mime_name(MimeKind::Png), "image/png");
    assert_eq!(mime_name(MimeKind::Jpeg), "image/jpeg");
    assert_eq!(mime_name(MimeKind::Tiff), "image/tiff");
    assert_eq!(mime_name(MimeKind::Bmp), "image/bmp");
    assert_eq!(mime_name(MimeKind::Gif), "image/gif");
    assert_eq!(mime_name(MimeKind::OctetStream), "application/octet-stream");
}

#[test]
fn upscale_replaces_resolution_token() {
    let got = upscale_artwork_url("https://is1.example/image/thumb/a/100x100bb.jpg");
    assert_eq!(got, "https://is1.example/image/thumb/a/600x600bb.jpg");
}

#[test]
fn upscale_leaves_other_urls_alone() {
    let got = upscale_artwork_url("https://example.org/cover.png");
    assert_eq!(got, "https://example.org/cover.png");
}

#[test]
fn upscale_replaces_every_occurrence() {
    let got = upscale_artwork_url("100x100bb/100x100bb");
    assert_eq!(got, "600x600bb/600x600bb");
}

#[test]
fn upload_response_with_url_is_accepted_trimmed() {
    let got = validate_upload_response("  https://files.example/abc.png\n");
    assert_eq!(got, Some("https://files.example/abc.png".to_string()));
}

#[test]
fn upload_response_error_page_is_rejected() {
    assert_eq!(validate_upload_response("ERROR: bad request"), None);
    assert_eq!(validate_upload_response(""), None);
    assert_eq!(validate_upload_response("   \n"), None);
}

#[test]
fn finish_search_upsizes_a_hit_and_propagates_a_miss() {
    let got = finish_search(Some("https://a/100x100bb.jpg".to_string()));
    assert_eq!(got, Some("https://a/600x600bb.jpg".to_string()));
    assert_eq!(finish_search(None), None);
}

#[test]
fn search_body_with_result_yields_upsized_url() {
    let body = "{\"resultCount\":1,\"results\":[{\"artworkUrl100\":\"https://a/100x100bb.jpg\",\"collectionName\":\"X\"}]}".to_string();
    let got = search_result_from_body(&body);
    assert_eq!(got, Some("https://a/600x600bb.jpg".to_string()));
}

#[test]
fn search_body_with_empty_results_yields_nothing() {
    let body = "{\"resultCount\":0,\"results\":[]}".to_string();
    assert_eq!(search_result_from_body(&body), None);
}

#[test]
fn search_body_malformed_yields_nothing() {
    assert_eq!(search_result_from_body(&"not json".to_string()), None);
    assert_eq!(search_result_from_body(&"{}".to_string()), None);
}

#[test]
fn search_term_is_artist_space_album() {
    assert_eq!(build_search_term("Artist", "Album"), "Artist Album");
}

#[test]
fn cache_first_write_wins_and_lookup_returns_it() {
    let mut c = ArtCache::new();
    let key = "/music/a.mp3".to_string();
    assert_eq!(c.get(&key), None);
    c.insert(key.clone(), "https://one".to_string());
    assert_eq!(c.get(&key), Some(&"https://one".to_string()));
    c.insert(key.clone(), "https://two".to_string());
    assert_eq!(c.get(&key), Some(&"https://one".to_string()));
    assert_eq!(c.get(&"/other".to_string()), None);
}

#[test]
fn failed_resolution_is_not_cached_and_is_retried() {
    let mut r = ArtworkResolver::new();
    let path = "/no/such/dir/nothing.mp3".to_string();
    let artist = String::new();
    let album = String::new();
    let first = r.get_album_art_url(&path, &artist, &album);
    assert_eq!(first, None);
    let second = r.get_album_art_url(&path, &artist, &album);
    assert_eq!(second, None);
}
