use imgur_rs::{DownloadBuilder, Image, album_body, error_body, image_body};

#[test]
fn error_body_yields_the_three_fields() {
    let body = r#"{"data":{"error":"Album not found","request":"/3/album/xyz","method":"GET"}}"#;
    let e = error_body(body).expect("a well-formed error body must decode");
    assert_eq!(e.error, "Album not found");
    assert_eq!(e.request, "/3/album/xyz");
    assert_eq!(e.method, "GET");
}

#[test]
fn error_body_rejects_missing_fields() {
    assert!(error_body(r#"{"data":{"error":"x","request":"/y"}}"#).is_none());
    assert!(error_body(r#"{"data":{}}"#).is_none());
    assert!(error_body(r#"{"nodata":1}"#).is_none());
    assert!(error_body("").is_none());
}

#[test]
fn image_body_requires_the_envelope() {
    let bare = r#"{"id":"abc","title":null,"description":null,"datetime":5,"type":"t","link":"l"}"#;
    assert!(image_body(bare).is_none());
}

#[test]
fn image_body_rejects_wrongly_typed_fields() {
    let body = r#"{"data":{"id":7,"title":null,"description":null,"datetime":5,"type":"t","link":"l"}}"#;
    assert!(image_body(body).is_none());
    let body = r#"{"data":{"id":"a","title":null,"description":null,"datetime":"5","type":"t","link":"l"}}"#;
    assert!(image_body(body).is_none());
    let body = r#"{"data":{"id":"a","title":null,"description":null,"datetime":5,"type":"t","link":null}}"#;
    assert!(image_body(body).is_none());
}

#[test]
fn album_body_rejects_a_non_array_image_list() {
    let body = r#"{"data":{"id":"a","title":null,"description":null,"datetime":5,"images":{}}}"#;
    assert!(album_body(body).is_none());
}

#[test]
fn album_body_rejects_a_broken_image_element() {
    let body = r#"{"data":{"id":"a","title":null,"description":null,"datetime":5,"images":[{"id":"x"}]}}"#;
    assert!(album_body(body).is_none());
}

#[test]
fn download_builder_starts_from_an_image() {
    let img = Image {
        id: "abc".to_string(),
        title: "".to_string(),
        description: "".to_string(),
        datetime: 0,
        mime: "image/png".to_string(),
        link: "https://i.imgur.com/abc.png".to_string(),
    };
    let _builder = DownloadBuilder::new(&img);
}
