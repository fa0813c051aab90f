//! URL handling for the two web tiers: upsizing the search API's thumbnail
//! URL and validating the upload endpoint's response body.

use vstd::prelude::*;
use crate::text::{
    replace_all, spec_replace_all, trimmed, spec_trim, has_http_prefix, starts_with_http,
};

verus! {

/// An `Option<String>`, seen at the spec level.
pub open spec fn opt_view(o: Option<String>) -> Option<Seq<char>> {
    match o {
        Some(s) => Some(s@),
        None => None,
    }
}

/// The search API's documented thumbnail convention: the low-resolution
/// token replaced by the high-resolution one.
pub open spec fn spec_upscale(u: Seq<char>) -> Seq<char> {
    spec_replace_all(u, "100x100bb"@, "600x600bb"@)
}

/// Upsizes a search-API thumbnail URL by direct substring substitution.
pub fn upscale_artwork_url(url: &str) -> (r: String)
    ensures
        r@ == spec_upscale(url@),
{
    proof {
        reveal_strlit("100x100bb");
    }
    replace_all(url, "100x100bb", "600x600bb")
}

/// The upload endpoint answers with a bare URL as body text. The trimmed
/// body is the result exactly when it begins with the URL scheme prefix;
/// an error page or empty body yields nothing.
pub fn validate_upload_response(body: &str) -> (r: Option<String>)
    ensures
        starts_with_http(spec_trim(body@)) ==> (r matches Some(u) && u@ == spec_trim(body@)),
        !starts_with_http(spec_trim(body@)) ==> r is None,
{
    let t = trimmed(body);
    if has_http_prefix(t.as_str()) {
        Some(t)
    } else {
        None
    }
}

/// What the search tier returns for each value the parsed response gave:
/// the upsized URL of a hit, nothing on an empty result.
pub fn finish_search(raw: Option<String>) -> (r: Option<String>)
    ensures
        (match raw {
            Some(s) => r matches Some(u) && u@ == spec_upscale(s@),
            None => r is None,
        }),
{
    match raw {
        Some(s) => Some(upscale_artwork_url(s.as_str())),
        None => None,
    }
}

} // verus!
