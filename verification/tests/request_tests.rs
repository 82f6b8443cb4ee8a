use imgur_rs::{
    Image, ProvidesFile, album_request, auth_header_value, dec_string, download_request,
    gallery_request, image_request, str_eq,
};

fn sample_image() -> Image {
    Image {
        id: "abc".to_string(),
        title: "".to_string(),
        description: "d".to_string(),
        datetime: 5,
        mime: "image/png".to_string(),
        link: "https://i.imgur.com/abc.png".to_string(),
    }
}

#[test]
fn metadata_requests_carry_the_authorization_header() {
    let img = image_request("abc");
    assert_eq!(img.url, "https://api.imgur.com/3/image/abc");
    assert!(img.authorized);
    let alb = album_request("xyz");
    assert_eq!(alb.url, "https://api.imgur.com/3/album/xyz");
    assert!(alb.authorized);
}

#[test]
fn gallery_request_equals_album_request() {
    let gal = gallery_request("xyz");
    let alb = album_request("xyz");
    assert_eq!(gal.url, alb.url);
    assert_eq!(gal.authorized, alb.authorized);
}

#[test]
fn download_request_is_unauthorized_and_targets_the_link() {
    let img = sample_image();
    let req = download_request(&img);
    assert_eq!(req.url, "https://i.imgur.com/abc.png");
    assert!(!req.authorized);
}

#[test]
fn auth_header_value_prefixes_the_credential() {
    assert_eq!(auth_header_value("SECRET-REDACTED"), "Client-ID SECRET-REDACTED");
    assert_eq!(auth_header_value(""), "Client-ID ");
}

#[test]
fn image_provides_url_and_filename() {
    let img = sample_image();
    assert_eq!(img.get_url(), "https://i.imgur.com/abc.png");
    assert_eq!(img.filename(), "abc.png");
}

#[test]
fn filename_of_link_without_separator_is_the_link() {
    let mut img = sample_image();
    img.link = "plain".to_string();
    assert_eq!(img.filename(), "plain");
    img.link = "trailing/".to_string();
    assert_eq!(img.filename(), "");
}

#[test]
fn decimal_rendering_is_exact() {
    assert_eq!(dec_string(0), "0");
    assert_eq!(dec_string(7), "7");
    assert_eq!(dec_string(404), "404");
    assert_eq!(dec_string(65535), "65535");
}

#[test]
fn str_eq_decides_equality() {
    assert!(str_eq("", ""));
    assert!(str_eq("abc", "abc"));
    assert!(!str_eq("abc", "abd"));
    assert!(!str_eq("abc", "ab"));
}
