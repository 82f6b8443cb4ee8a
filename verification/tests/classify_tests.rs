use imgur_rs::{ErrorKind, classify_album, classify_failure, classify_image};

#[test]
fn success_image_with_null_title() {
    let body = r#"{"data":{"id":"abc","title":null,"description":"d","datetime":5,"type":"image/png","link":"https://i.imgur.com/abc.png"}}"#;
    let env = classify_image(200, body).expect("a well-formed success body must decode");
    assert_eq!(env.data.id, "abc");
    assert_eq!(env.data.title, "");
    assert_eq!(env.data.description, "d");
    assert_eq!(env.data.datetime, 5);
    assert_eq!(env.data.mime, "image/png");
    assert_eq!(env.data.link, "https://i.imgur.com/abc.png");
}

#[test]
fn success_image_with_null_description() {
    let body = r#"{"data":{"id":"abc","title":"t","description":null,"datetime":5,"type":"image/png","link":"https://i.imgur.com/abc.png"}}"#;
    let env = classify_image(200, body).expect("a well-formed success body must decode");
    assert_eq!(env.data.title, "t");
    assert_eq!(env.data.description, "");
}

#[test]
fn failure_with_well_formed_error_body() {
    let body = r#"{"data":{"error":"Album not found","request":"/3/album/xyz","method":"GET"}}"#;
    let err = classify_album(404, body).expect_err("a failure status must classify as an error");
    assert!(err.kind == ErrorKind::ApiError);
    assert_eq!(err.status, Some(404));
    assert!(err.message.contains("Album not found"));
    assert_eq!(err.request, "/3/album/xyz");
    assert_eq!(err.method, "GET");
    assert_eq!(err.describe(), "404: Album not found (/3/album/xyz)");
}

#[test]
fn failure_with_empty_body_degrades_to_status_only() {
    let err = classify_album(500, "").expect_err("a failure status must classify as an error");
    assert!(err.kind == ErrorKind::MalformedErrorBody);
    assert_eq!(err.status, Some(500));
    assert_eq!(err.message, "error body unreadable");
}

#[test]
fn failure_with_malformed_body_degrades_to_status_only() {
    let err = classify_image(502, "<html>bad gateway</html>")
        .expect_err("a failure status must classify as an error");
    assert!(err.kind == ErrorKind::MalformedErrorBody);
    assert_eq!(err.status, Some(502));
}

#[test]
fn album_with_empty_image_list_is_not_an_error() {
    let body = r#"{"data":{"id":"alb","title":"holiday","description":null,"datetime":99,"images":[]}}"#;
    let env = classify_album(200, body).expect("an empty image list is a well-formed album");
    assert_eq!(env.data.id, "alb");
    assert_eq!(env.data.images.len(), 0);
}

#[test]
fn album_with_images_keeps_their_order() {
    let body = r#"{"data":{"id":"alb","title":"t","description":"d","datetime":1,"images":[{"id":"one","title":null,"description":null,"datetime":2,"type":"image/png","link":"https://i.imgur.com/one.png"},{"id":"two","title":"second","description":null,"datetime":3,"type":"image/gif","link":"https://i.imgur.com/two.gif"}]}}"#;
    let env = classify_album(200, body).expect("a well-formed album must decode");
    assert_eq!(env.data.images.len(), 2);
    assert_eq!(env.data.images[0].id, "one");
    assert_eq!(env.data.images[0].title, "");
    assert_eq!(env.data.images[1].id, "two");
    assert_eq!(env.data.images[1].mime, "image/gif");
}

#[test]
fn success_status_with_malformed_body_is_classified() {
    let err = classify_image(200, "not json at all")
        .expect_err("a malformed success body must classify as an error");
    assert!(err.kind == ErrorKind::MalformedSuccessBody);
    assert_eq!(err.status, Some(200));
    assert_eq!(err.message, "success body unreadable");
}

#[test]
fn success_status_with_missing_field_is_classified() {
    let body = r#"{"data":{"id":"abc","title":null,"datetime":5,"type":"x","link":"y"}}"#;
    let err = classify_image(200, body)
        .expect_err("a body missing a required field must classify as an error");
    assert!(err.kind == ErrorKind::MalformedSuccessBody);
}

#[test]
fn status_299_counts_as_success_and_300_does_not() {
    let body = r#"{"data":{"id":"abc","title":null,"description":null,"datetime":0,"type":"t","link":"l"}}"#;
    assert!(classify_image(299, body).is_ok());
    assert!(classify_image(300, body).is_err());
    assert!(classify_image(199, body).is_err());
}

#[test]
fn classify_failure_carries_the_payload_exactly() {
    let body = r#"{"data":{"error":"no","request":"/3/image/q","method":"POST"}}"#;
    let err = classify_failure(429, body);
    assert!(err.kind == ErrorKind::ApiError);
    assert_eq!(err.status, Some(429));
    assert_eq!(err.message, "no");
    assert_eq!(err.request, "/3/image/q");
    assert_eq!(err.method, "POST");
}

#[test]
fn transport_and_sink_errors_carry_their_description() {
    let e = imgur_rs::ClassifiedError::transport_failure("connection refused".to_string());
    assert!(e.kind == ErrorKind::TransportFailure);
    assert_eq!(e.status, None);
    assert_eq!(e.describe(), "connection refused");
    let e = imgur_rs::ClassifiedError::sink_write_failure("disk full".to_string());
    assert!(e.kind == ErrorKind::SinkWriteFailure);
    assert_eq!(e.message, "disk full");
}
