//! The library-wide guarantees that relate several functions, stated
//! and proved once over the models the contracts speak of.

use vstd::prelude::*;

use crate::decode::{lookup, spec_album_of, spec_image_of};
use crate::json::JsonV;
use crate::requests::{album_request_v, download_request_v, gallery_request_v, image_request_v};

verus! {

/// A `null` title or description in an image object decodes to the
/// empty string, never to a missing-value marker.
pub proof fn lemma_image_null_text_is_empty(m: Seq<(Seq<char>, JsonV)>)
    requires
        spec_image_of(JsonV::Obj(m)) is Some,
    ensures
        lookup(m, "title"@) == Some(JsonV::Null) ==> spec_image_of(JsonV::Obj(m))->Some_0.title
            == Seq::<char>::empty(),
        lookup(m, "description"@) == Some(JsonV::Null) ==> spec_image_of(
            JsonV::Obj(m),
        )->Some_0.description == Seq::<char>::empty(),
{
}

/// A `null` title or description in an album object decodes to the
/// empty string, never to a missing-value marker.
pub proof fn lemma_album_null_text_is_empty(m: Seq<(Seq<char>, JsonV)>)
    requires
        spec_album_of(JsonV::Obj(m)) is Some,
    ensures
        lookup(m, "title"@) == Some(JsonV::Null) ==> spec_album_of(JsonV::Obj(m))->Some_0.title
            == Seq::<char>::empty(),
        lookup(m, "description"@) == Some(JsonV::Null) ==> spec_album_of(
            JsonV::Obj(m),
        )->Some_0.description == Seq::<char>::empty(),
{
}

/// Fetching a gallery entry issues exactly the request fetching the
/// album does, for every id; since both answers then pass through the
/// same classifier, the results coincide as well.
pub proof fn lemma_gallery_request_is_album_request(id: Seq<char>)
    ensures
        gallery_request_v(id) == album_request_v(id),
{
}

/// Every metadata request attaches the authorization header; no
/// download request does.
pub proof fn lemma_authorization_discipline(id: Seq<char>, link: Seq<char>)
    ensures
        image_request_v(id).authorized,
        album_request_v(id).authorized,
        gallery_request_v(id).authorized,
        !download_request_v(link).authorized,
{
}

} // verus!
