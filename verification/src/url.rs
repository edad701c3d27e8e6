//! Request URLs of the remote image service, and classification of its
//! response statuses.

use vstd::prelude::*;
use crate::config::{ImageDimensions, ImageEffects};
use crate::numfmt::{spec_udec, u64_to_string};

verus! {

/// The image-request URL: the fixed host, the dimensions as path segments,
/// then in fixed order the optional `grayscale`, `blur` and `quality`
/// parameters and always a trailing cache-busting `random` parameter.
pub open spec fn spec_image_url(
    width: nat,
    height: nat,
    grayscale: bool,
    blur: Option<u32>,
    quality: Option<u32>,
    token: nat,
) -> Seq<char> {
    "https://picsum.photos/"@ + spec_udec(width) + "/"@ + spec_udec(height) + "?"@ + (if grayscale {
        "grayscale&"@
    } else {
        Seq::empty()
    }) + (match blur {
        Some(b) => "blur="@ + spec_udec(b as nat) + "&"@,
        None => Seq::empty(),
    }) + (match quality {
        Some(q) => "quality="@ + spec_udec(q as nat) + "&"@,
        None => Seq::empty(),
    }) + "random="@ + spec_udec(token)
}

/// Builds the image-request URL for a given cache-busting token. Tests hand
/// in a fixed token; `build_image_url` draws a fresh random one.
pub fn build_image_url_with_token(
    dimensions: &ImageDimensions,
    effects: &ImageEffects,
    token: u32,
) -> (r: String)
    ensures
        r@ == spec_image_url(
            dimensions.width as nat,
            dimensions.height as nat,
            effects.grayscale,
            effects.blur,
            effects.quality,
            token as nat,
        ),
{
    let mut s = "https://picsum.photos/".to_owned();
    let w = u64_to_string(dimensions.width as u64);
    s.append(w.as_str());
    s.append("/");
    let h = u64_to_string(dimensions.height as u64);
    s.append(h.as_str());
    s.append("?");
    if effects.grayscale {
        s.append("grayscale&");
    }
    if let Some(b) = effects.blur {
        s.append("blur=");
        let bs = u64_to_string(b as u64);
        s.append(bs.as_str());
        s.append("&");
    }
    if let Some(q) = effects.quality {
        s.append("quality=");
        let qs = u64_to_string(q as u64);
        s.append(qs.as_str());
        s.append("&");
    }
    s.append("random=");
    let ts = u64_to_string(token as u64);
    s.append(ts.as_str());
    proof {
        assert(s@ =~= spec_image_url(
            dimensions.width as nat,
            dimensions.height as nat,
            effects.grayscale,
            effects.blur,
            effects.quality,
            token as nat,
        ));
    }
    s
}

/// Relies on `rand::random`: a uniformly distributed `u32` from the
/// thread-local generator. Nothing is promised of its value.
#[verifier::external_body]
fn random_u32() -> u32 {
    rand::random()
}

/// Builds the image-request URL with a fresh random cache-busting token.
/// The token exists only to defeat URL-based response caching; every other
/// part of the URL is pinned down.
pub fn build_image_url(dimensions: &ImageDimensions, effects: &ImageEffects) -> (r: String)
    ensures
        exists|token: u32|
            r@ == spec_image_url(
                dimensions.width as nat,
                dimensions.height as nat,
                effects.grayscale,
                effects.blur,
                effects.quality,
                token as nat,
            ),
{
    let token = random_u32();
    let r = build_image_url_with_token(dimensions, effects, token);
    proof {
        assert(r@ == spec_image_url(
            dimensions.width as nat,
            dimensions.height as nat,
            effects.grayscale,
            effects.blur,
            effects.quality,
            token as nat,
        ));
    }
    r
}

/// The metadata endpoint for one image id.
pub open spec fn spec_info_url(id: nat) -> Seq<char> {
    "https://picsum.photos/id/"@ + spec_udec(id) + "/info"@
}

/// Builds the metadata-endpoint URL for image `id`.
pub fn info_url(id: u32) -> (r: String)
    ensures
        r@ == spec_info_url(id as nat),
{
    let mut s = "https://picsum.photos/id/".to_owned();
    let ds = u64_to_string(id as u64);
    s.append(ds.as_str());
    s.append("/info");
    proof {
        assert(s@ =~= spec_info_url(id as nat));
    }
    s
}

/// The catalog-listing endpoint for one page of a given size.
pub open spec fn spec_list_url(page: nat, limit: nat) -> Seq<char> {
    "https://picsum.photos/v2/list?page="@ + spec_udec(page) + "&limit="@ + spec_udec(limit)
}

/// Builds the catalog-listing URL for `page` with `limit` records per page.
pub fn list_url(page: u32, limit: u32) -> (r: String)
    ensures
        r@ == spec_list_url(page as nat, limit as nat),
{
    let mut s = "https://picsum.photos/v2/list?page=".to_owned();
    let ps = u64_to_string(page as u64);
    s.append(ps.as_str());
    s.append("&limit=");
    let ls = u64_to_string(limit as u64);
    s.append(ls.as_str());
    proof {
        assert(s@ =~= spec_list_url(page as nat, limit as nat));
    }
    s
}

/// Whether an HTTP status code counts as success: the 2xx range.
pub fn status_is_success(status: u16) -> (r: bool)
    ensures
        r == (200 <= status && status < 300),
{
    200 <= status && status < 300
}

} // verus!
