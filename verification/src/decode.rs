//! Turns a decoded JSON document into the library's typed values:
//! images, albums and error payloads, each under the `{"data": ...}`
//! envelope.  A JSON `null` in a title or description becomes the empty
//! string; a missing or differently-typed required field rejects the
//! document.

use vstd::prelude::*;

use crate::json::{
    Json, JsonV, Member, json_view, json_list_view, lemma_json_list_view, lemma_member_list_view,
    member_list_view, spec_json, parse_json,
};
use crate::models::{Album, AlbumV, Image, ImageV, ImgurError, ImgurErrorV};
use crate::text::str_eq;

verus! {

/// The value under the first member of `m` whose key is `key`.
pub open spec fn lookup(m: Seq<(Seq<char>, JsonV)>, key: Seq<char>) -> Option<JsonV>
    decreases m.len(),
{
    if m.len() == 0 {
        None
    } else if m[0].0 == key {
        Some(m[0].1)
    } else {
        lookup(m.drop_first(), key)
    }
}

/// A required string field: present and a string.
pub open spec fn str_field(m: Seq<(Seq<char>, JsonV)>, key: Seq<char>) -> Option<Seq<char>> {
    match lookup(m, key) {
        Some(JsonV::Str(s)) => Some(s),
        _ => None,
    }
}

/// A nullable text field: a string, or `null` read as the empty string.
pub open spec fn text_field(m: Seq<(Seq<char>, JsonV)>, key: Seq<char>) -> Option<Seq<char>> {
    match lookup(m, key) {
        Some(JsonV::Str(s)) => Some(s),
        Some(JsonV::Null) => Some(Seq::empty()),
        _ => None,
    }
}

/// A required unsigned integer field.
pub open spec fn num_field(m: Seq<(Seq<char>, JsonV)>, key: Seq<char>) -> Option<u64> {
    match lookup(m, key) {
        Some(JsonV::Num(n)) => Some(n),
        _ => None,
    }
}

/// The image a JSON value denotes, where it denotes one.
pub open spec fn spec_image_of(v: JsonV) -> Option<ImageV> {
    match v {
        JsonV::Obj(m) => if str_field(m, "id"@) is Some && text_field(m, "title"@) is Some
            && text_field(m, "description"@) is Some && num_field(m, "datetime"@) is Some
            && str_field(m, "type"@) is Some && str_field(m, "link"@) is Some {
            Some(
                ImageV {
                    id: str_field(m, "id"@)->Some_0,
                    title: text_field(m, "title"@)->Some_0,
                    description: text_field(m, "description"@)->Some_0,
                    datetime: num_field(m, "datetime"@)->Some_0,
                    mime: str_field(m, "type"@)->Some_0,
                    link: str_field(m, "link"@)->Some_0,
                },
            )
        } else {
            None
        },
        _ => None,
    }
}

/// The images a sequence of JSON values denotes, where every element
/// denotes one.
pub open spec fn spec_images_of(es: Seq<JsonV>) -> Option<Seq<ImageV>>
    decreases es.len(),
{
    if es.len() == 0 {
        Some(Seq::empty())
    } else {
        match (spec_images_of(es.drop_last()), spec_image_of(es.last())) {
            (Some(rest), Some(img)) => Some(rest.push(img)),
            _ => None,
        }
    }
}

/// The album a JSON value denotes, where it denotes one.
pub open spec fn spec_album_of(v: JsonV) -> Option<AlbumV> {
    match v {
        JsonV::Obj(m) => if str_field(m, "id"@) is Some && text_field(m, "title"@) is Some
            && text_field(m, "description"@) is Some && num_field(m, "datetime"@) is Some
            && (match lookup(m, "images"@) {
            Some(JsonV::Arr(es)) => spec_images_of(es) is Some,
            _ => false,
        }) {
            Some(
                AlbumV {
                    id: str_field(m, "id"@)->Some_0,
                    title: text_field(m, "title"@)->Some_0,
                    description: text_field(m, "description"@)->Some_0,
                    datetime: num_field(m, "datetime"@)->Some_0,
                    images: spec_images_of(lookup(m, "images"@)->Some_0->Arr_0)->Some_0,
                },
            )
        } else {
            None
        },
        _ => None,
    }
}

/// The error payload a JSON value denotes, where it denotes one.
pub open spec fn spec_error_of(v: JsonV) -> Option<ImgurErrorV> {
    match v {
        JsonV::Obj(m) => if str_field(m, "error"@) is Some && str_field(m, "request"@) is Some
            && str_field(m, "method"@) is Some {
            Some(
                ImgurErrorV {
                    error: str_field(m, "error"@)->Some_0,
                    request: str_field(m, "request"@)->Some_0,
                    method: str_field(m, "method"@)->Some_0,
                },
            )
        } else {
            None
        },
        _ => None,
    }
}

/// The payload under the `"data"` envelope, where the value is an
/// object carrying one.
pub open spec fn spec_data_of(v: JsonV) -> Option<JsonV> {
    match v {
        JsonV::Obj(m) => lookup(m, "data"@),
        _ => None,
    }
}

/// The image a whole response body denotes, where it denotes one.
pub open spec fn spec_image_body(s: Seq<char>) -> Option<ImageV> {
    match spec_json(s) {
        Some(doc) => match spec_data_of(doc) {
            Some(d) => spec_image_of(d),
            None => None,
        },
        None => None,
    }
}

/// The album a whole response body denotes, where it denotes one.
pub open spec fn spec_album_body(s: Seq<char>) -> Option<AlbumV> {
    match spec_json(s) {
        Some(doc) => match spec_data_of(doc) {
            Some(d) => spec_album_of(d),
            None => None,
        },
        None => None,
    }
}

/// The error payload a whole response body denotes, where it denotes one.
pub open spec fn spec_error_body(s: Seq<char>) -> Option<ImgurErrorV> {
    match spec_json(s) {
        Some(doc) => match spec_data_of(doc) {
            Some(d) => spec_error_of(d),
            None => None,
        },
        None => None,
    }
}

fn obj_get_from<'a>(m: &'a Vec<Member>, key: &str, i: usize) -> (r: Option<&'a Json>)
    requires
        i <= m.len(),
    ensures
        match r {
            Some(j) => lookup(member_list_view(m@).skip(i as int), key@) == Some(json_view(*j)),
            None => lookup(member_list_view(m@).skip(i as int), key@) is None,
        },
    decreases m.len() - i,
{
    proof {
        lemma_member_list_view(m@);
    }
    if i >= m.len() {
        proof {
            assert(member_list_view(m@).skip(i as int) =~= Seq::<(Seq<char>, JsonV)>::empty());
        }
        return None;
    }
    proof {
        assert(member_list_view(m@).skip(i as int)[0] == (
            m@[i as int].key@,
            json_view(m@[i as int].value),
        ));
        assert(member_list_view(m@).skip(i as int).drop_first() =~= member_list_view(m@).skip(
            i as int + 1,
        ));
    }
    if str_eq(m[i].key.as_str(), key) {
        Some(&m[i].value)
    } else {
        obj_get_from(m, key, i + 1)
    }
}

/// The value under the first member of `m` whose key is `key`.
fn obj_get<'a>(m: &'a Vec<Member>, key: &str) -> (r: Option<&'a Json>)
    ensures
        match r {
            Some(j) => lookup(member_list_view(m@), key@) == Some(json_view(*j)),
            None => lookup(member_list_view(m@), key@) is None,
        },
{
    proof {
        assert(member_list_view(m@).skip(0) =~= member_list_view(m@));
    }
    obj_get_from(m, key, 0)
}

/// Decodes an image from a JSON value, exactly where the model says one
/// is denoted.
pub fn image_from_json(j: &Json) -> (r: Option<Image>)
    ensures
        match r {
            Some(img) => spec_image_of(j@) == Some(img@),
            None => spec_image_of(j@) is None,
        },
{
    let m = match j {
        Json::Obj(m) => m,
        _ => { return None },
    };
    let id = match obj_get(m, "id") {
        Some(Json::Str(s)) => s.clone(),
        _ => { return None },
    };
    let title = match obj_get(m, "title") {
        Some(Json::Str(s)) => s.clone(),
        Some(Json::Null) => String::new(),
        _ => { return None },
    };
    let description = match obj_get(m, "description") {
        Some(Json::Str(s)) => s.clone(),
        Some(Json::Null) => String::new(),
        _ => { return None },
    };
    let datetime = match obj_get(m, "datetime") {
        Some(Json::Num(n)) => *n,
        _ => { return None },
    };
    let mime = match obj_get(m, "type") {
        Some(Json::Str(s)) => s.clone(),
        _ => { return None },
    };
    let link = match obj_get(m, "link") {
        Some(Json::Str(s)) => s.clone(),
        _ => { return None },
    };
    Some(Image { id, title, description, datetime, mime, link })
}

/// If some prefix of `es` already fails to denote images, every longer
/// prefix fails too.
proof fn lemma_images_none_extends(es: Seq<JsonV>, k: int, j: int)
    requires
        0 <= k <= j <= es.len(),
        spec_images_of(es.subrange(0, k)) is None,
    ensures
        spec_images_of(es.subrange(0, j)) is None,
    decreases j - k,
{
    if j > k {
        lemma_images_none_extends(es, k, j - 1);
        assert(es.subrange(0, j).drop_last() =~= es.subrange(0, j - 1));
    }
}

fn images_from_json(v: &Vec<Json>) -> (r: Option<Vec<Image>>)
    ensures
        match r {
            Some(imgs) => spec_images_of(json_list_view(v@)) == Some(
                Seq::new(imgs@.len(), |k: int| imgs@[k]@),
            ),
            None => spec_images_of(json_list_view(v@)) is None,
        },
{
    proof {
        lemma_json_list_view(v@);
    }
    let ghost es = json_list_view(v@);
    let mut out: Vec<Image> = Vec::new();
    let mut i: usize = 0;
    while i < v.len()
        invariant
            i <= v.len(),
            es == json_list_view(v@),
            es.len() == v@.len(),
            forall|k: int| 0 <= k < v@.len() ==> es[k] == json_view(v@[k]),
            spec_images_of(es.subrange(0, i as int)) == Some(
                Seq::new(out@.len(), |k: int| out@[k]@),
            ),
        decreases v@.len() - i,
    {
        match image_from_json(&v[i]) {
            Some(img) => {
                let ghost old_out = out@;
                out.push(img);
                proof {
                    assert(es.subrange(0, i as int + 1).drop_last() =~= es.subrange(0, i as int));
                    assert(es.subrange(0, i as int + 1).last() == es[i as int]);
                    assert(Seq::new(out@.len(), |k: int| out@[k]@) =~= Seq::new(
                        old_out.len(),
                        |k: int| old_out[k]@,
                    ).push(img@));
                }
            },
            None => {
                proof {
                    assert(es.subrange(0, i as int + 1).drop_last() =~= es.subrange(0, i as int));
                    assert(es.subrange(0, i as int + 1).last() == es[i as int]);
                    assert(spec_images_of(es.subrange(0, i as int + 1)) is None);
                    lemma_images_none_extends(es, i as int + 1, es.len() as int);
                    assert(es.subrange(0, es.len() as int) =~= es);
                }
                return None;
            },
        }
        i = i + 1;
    }
    proof {
        assert(es.subrange(0, v@.len() as int) =~= es);
    }
    Some(out)
}

/// Decodes an album from a JSON value, exactly where the model says one
/// is denoted.
pub fn album_from_json(j: &Json) -> (r: Option<Album>)
    ensures
        match r {
            Some(album) => spec_album_of(j@) == Some(album@),
            None => spec_album_of(j@) is None,
        },
{
    let m = match j {
        Json::Obj(m) => m,
        _ => { return None },
    };
    let id = match obj_get(m, "id") {
        Some(Json::Str(s)) => s.clone(),
        _ => { return None },
    };
    let title = match obj_get(m, "title") {
        Some(Json::Str(s)) => s.clone(),
        Some(Json::Null) => String::new(),
        _ => { return None },
    };
    let description = match obj_get(m, "description") {
        Some(Json::Str(s)) => s.clone(),
        Some(Json::Null) => String::new(),
        _ => { return None },
    };
    let datetime = match obj_get(m, "datetime") {
        Some(Json::Num(n)) => *n,
        _ => { return None },
    };
    let images = match obj_get(m, "images") {
        Some(Json::Arr(v)) => match images_from_json(v) {
            Some(imgs) => imgs,
            None => { return None },
        },
        _ => { return None },
    };
    let album = Album { id, title, description, datetime, images };
    proof {
        assert(album@.images =~= spec_album_of(j@)->Some_0.images);
    }
    Some(album)
}

/// Decodes an error payload from a JSON value, exactly where the model
/// says one is denoted.
pub fn error_from_json(j: &Json) -> (r: Option<ImgurError>)
    ensures
        match r {
            Some(e) => spec_error_of(j@) == Some(e@),
            None => spec_error_of(j@) is None,
        },
{
    let m = match j {
        Json::Obj(m) => m,
        _ => { return None },
    };
    let error = match obj_get(m, "error") {
        Some(Json::Str(s)) => s.clone(),
        _ => { return None },
    };
    let request = match obj_get(m, "request") {
        Some(Json::Str(s)) => s.clone(),
        _ => { return None },
    };
    let method = match obj_get(m, "method") {
        Some(Json::Str(s)) => s.clone(),
        _ => { return None },
    };
    Some(ImgurError { error, request, method })
}

/// The value under the `"data"` envelope of a decoded document.
pub fn data_json<'a>(j: &'a Json) -> (r: Option<&'a Json>)
    ensures
        match r {
            Some(d) => spec_data_of(j@) == Some(json_view(*d)),
            None => spec_data_of(j@) is None,
        },
{
    match j {
        Json::Obj(m) => obj_get(m, "data"),
        _ => None,
    }
}

/// Decodes a whole response body into an image, exactly where the model
/// says the body denotes one.
pub fn image_body(text: &str) -> (r: Option<Image>)
    ensures
        match r {
            Some(img) => spec_image_body(text@) == Some(img@),
            None => spec_image_body(text@) is None,
        },
{
    match parse_json(text) {
        Some(doc) => match data_json(&doc) {
            Some(d) => image_from_json(d),
            None => None,
        },
        None => None,
    }
}

/// Decodes a whole response body into an album, exactly where the model
/// says the body denotes one.
pub fn album_body(text: &str) -> (r: Option<Album>)
    ensures
        match r {
            Some(album) => spec_album_body(text@) == Some(album@),
            None => spec_album_body(text@) is None,
        },
{
    match parse_json(text) {
        Some(doc) => match data_json(&doc) {
            Some(d) => album_from_json(d),
            None => None,
        },
        None => None,
    }
}

/// Decodes a whole response body into an error payload, exactly where
/// the model says the body denotes one.
pub fn error_body(text: &str) -> (r: Option<ImgurError>)
    ensures
        match r {
            Some(e) => spec_error_body(text@) == Some(e@),
            None => spec_error_body(text@) is None,
        },
{
    match parse_json(text) {
        Some(doc) => match data_json(&doc) {
            Some(d) => error_from_json(d),
            None => None,
        },
        None => None,
    }
}

} // verus!
