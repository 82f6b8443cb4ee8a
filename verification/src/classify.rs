//! The response classifier: given a raw response — status code plus
//! body text — decide whether the call succeeded, and if not, turn the
//! error payload into a single [`ClassifiedError`].  Every exit path
//! yields a typed value; nothing panics and nothing escapes
//! unclassified.

use vstd::prelude::*;

use crate::decode::{
    album_body, error_body, image_body, spec_album_body, spec_error_body, spec_image_body,
};
use crate::models::{Album, ClassifiedError, ClassifiedErrorV, Data, ErrorKind, Image};

verus! {

/// A status code that denotes success.
pub open spec fn is_success(status: u16) -> bool {
    200 <= status < 300
}

fn status_is_success(status: u16) -> (b: bool)
    ensures
        b == is_success(status),
{
    200 <= status && status < 300
}

/// What classification of a failing response guarantees: with a
/// well-formed error body, the payload's three fields are carried over
/// exactly; otherwise the report degrades to the status code and a
/// fixed message.
pub open spec fn failure_classified(status: u16, body: Seq<char>, e: ClassifiedErrorV) -> bool {
    match spec_error_body(body) {
        Some(p) => e.kind == ErrorKind::ApiError && e.status == Some(status) && e.message
            == p.error && e.request == p.request && e.method == p.method,
        None => e.kind == ErrorKind::MalformedErrorBody && e.status == Some(status) && e.message
            == "error body unreadable"@ && e.request == Seq::<char>::empty() && e.method
            == Seq::<char>::empty(),
    }
}

/// Classifies a response that carries a failure status: always yields
/// one [`ClassifiedError`], whatever the body holds.
pub fn classify_failure(status: u16, body: &str) -> (r: ClassifiedError)
    ensures
        failure_classified(status, body@, r@),
{
    match error_body(body) {
        Some(payload) => ClassifiedError::api_error(status, payload),
        None => ClassifiedError::malformed_error_body(status),
    }
}

/// Classifies a raw response into an image envelope: on a success
/// status the body must denote an image; on a failure status the error
/// body is classified.  Every input yields a typed result.
pub fn classify_image(status: u16, body: &str) -> (r: Result<Data<Image>, ClassifiedError>)
    ensures
        is_success(status) && spec_image_body(body@) is Some ==> r is Ok && r->Ok_0.data@
            == spec_image_body(body@)->Some_0,
        is_success(status) && spec_image_body(body@) is None ==> r is Err && r->Err_0@.kind
            == ErrorKind::MalformedSuccessBody && r->Err_0@.status == Some(status),
        !is_success(status) ==> r is Err && failure_classified(status, body@, r->Err_0@),
{
    if status_is_success(status) {
        match image_body(body) {
            Some(img) => Ok(Data { data: img }),
            None => Err(ClassifiedError::malformed_success_body(status)),
        }
    } else {
        Err(classify_failure(status, body))
    }
}

/// Classifies a raw response into an album envelope, exactly as
/// [`classify_image`] does for images.
pub fn classify_album(status: u16, body: &str) -> (r: Result<Data<Album>, ClassifiedError>)
    ensures
        is_success(status) && spec_album_body(body@) is Some ==> r is Ok && r->Ok_0.data@
            == spec_album_body(body@)->Some_0,
        is_success(status) && spec_album_body(body@) is None ==> r is Err && r->Err_0@.kind
            == ErrorKind::MalformedSuccessBody && r->Err_0@.status == Some(status),
        !is_success(status) ==> r is Err && failure_classified(status, body@, r->Err_0@),
{
    if status_is_success(status) {
        match album_body(body) {
            Some(album) => Ok(Data { data: album }),
            None => Err(ClassifiedError::malformed_success_body(status)),
        }
    } else {
        Err(classify_failure(status, body))
    }
}

} // verus!
