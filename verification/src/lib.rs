//! A typed client library for an image-hosting HTTP API.
//!
//! The library owns everything that can be stated and proved: building
//! request descriptions (with or without the authorization header),
//! parsing the JSON envelopes the service answers with, and classifying
//! a raw response (status code plus body text) into either a typed
//! resource or a single structured error value.  The network transport
//! itself is left to the embedding application.

mod classify;
mod decode;
mod download;
mod json;
mod laws;
mod models;
mod requests;
mod text;

pub use classify::{
    classify_album, classify_failure, classify_image, failure_classified, is_success,
};
pub use decode::{
    album_body, error_body, image_body, lookup, num_field, spec_album_body, spec_album_of,
    spec_data_of, spec_error_body, spec_error_of, spec_image_body, spec_image_of, spec_images_of,
    str_field, text_field,
};
pub use download::DownloadBuilder;
pub use laws::{
    lemma_album_null_text_is_empty, lemma_authorization_discipline,
    lemma_gallery_request_is_album_request, lemma_image_null_text_is_empty,
};
pub use requests::{
    ApiRequest, ApiRequestV, album_request, album_request_v, api_base, auth_header_v,
    auth_header_value, download_request, download_request_v, gallery_request, gallery_request_v,
    image_request, image_request_v,
};
pub use json::{Json, JsonV, Member, parse_json};
pub use models::{
    Album, AlbumV, ClassifiedError, ClassifiedErrorV, Data, ErrorKind, Image, ImageV, ImgurError,
    ImgurErrorV, ProvidesFile, after_last_slash, spec_describe,
};
pub use text::{dec_string, str_eq};
