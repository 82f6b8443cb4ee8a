//! Descriptions of the HTTP requests the handle issues: the full URL
//! and whether the authorization header is attached.  Metadata lookups
//! are always authorized; content downloads never are.

use vstd::prelude::*;
use vstd::string::StringExecFns;

use crate::models::Image;

verus! {

/// One request the embedding application should issue: where to, and
/// whether to attach the authorization header.
pub struct ApiRequest {
    /// The full URL to issue a GET against.
    pub url: String,
    /// Whether the authorization header is attached.
    pub authorized: bool,
}

/// Mathematical model of an [`ApiRequest`].
pub ghost struct ApiRequestV {
    pub url: Seq<char>,
    pub authorized: bool,
}

impl View for ApiRequest {
    type V = ApiRequestV;

    open spec fn view(&self) -> ApiRequestV {
        ApiRequestV { url: self.url@, authorized: self.authorized }
    }
}

/// The fixed root under which every metadata request is formed.
pub open spec fn api_base() -> Seq<char> {
    "https://api.imgur.com/3/"@
}

/// The request that fetches one image's metadata.
pub open spec fn image_request_v(id: Seq<char>) -> ApiRequestV {
    ApiRequestV { url: api_base() + "image/"@ + id, authorized: true }
}

/// The request that fetches one album's metadata.
pub open spec fn album_request_v(id: Seq<char>) -> ApiRequestV {
    ApiRequestV { url: api_base() + "album/"@ + id, authorized: true }
}

/// The request that fetches a gallery entry: a gallery entry is
/// indistinguishable from an album at this layer, so it is fetched by
/// an album request.
pub open spec fn gallery_request_v(id: Seq<char>) -> ApiRequestV {
    ApiRequestV { url: api_base() + "album/"@ + id, authorized: true }
}

/// The request that downloads an image's content: a plain GET against
/// the content URL, with no authorization header.
pub open spec fn download_request_v(link: Seq<char>) -> ApiRequestV {
    ApiRequestV { url: link, authorized: false }
}

/// The authorization header value attached to metadata requests.
pub open spec fn auth_header_v(credential: Seq<char>) -> Seq<char> {
    "Client-ID "@ + credential
}

/// Builds the request for one image's metadata.
pub fn image_request(id: &str) -> (r: ApiRequest)
    ensures
        r@ == image_request_v(id@),
{
    let mut url = "https://api.imgur.com/3/".to_owned();
    url.append("image/");
    url.append(id);
    proof {
        assert(url@ =~= api_base() + "image/"@ + id@);
    }
    ApiRequest { url, authorized: true }
}

/// Builds the request for one album's metadata.
pub fn album_request(id: &str) -> (r: ApiRequest)
    ensures
        r@ == album_request_v(id@),
{
    let mut url = "https://api.imgur.com/3/".to_owned();
    url.append("album/");
    url.append(id);
    proof {
        assert(url@ =~= api_base() + "album/"@ + id@);
    }
    ApiRequest { url, authorized: true }
}

/// Builds the request for a gallery entry: exactly an album request.
pub fn gallery_request(id: &str) -> (r: ApiRequest)
    ensures
        r@ == gallery_request_v(id@),
{
    album_request(id)
}

/// Builds the request that downloads an image's content.
pub fn download_request(image: &Image) -> (r: ApiRequest)
    ensures
        r@ == download_request_v(image@.link),
{
    ApiRequest { url: image.link.clone(), authorized: false }
}

/// Builds the authorization header value for a credential.
pub fn auth_header_value(credential: &str) -> (r: String)
    ensures
        r@ == auth_header_v(credential@),
{
    let mut s = "Client-ID ".to_owned();
    s.append(credential);
    s
}

} // verus!
