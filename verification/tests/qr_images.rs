use shortener::http::StatusCode;
use shortener::link::{parse_target, short_url};
use shortener::qr::{generate_qrcode_res, handle_qrcode_get, ImageFormat, QrError};
use shortener::slug::{first_char, has_valid_length};
use shortener::store::StoreError;

fn side_of(bytes: &[u8]) -> (u32, u32) {
    let picture = image::load_from_memory(bytes).unwrap();
    (picture.width(), picture.height())
}

#[test]
fn an_oversized_request_is_clamped() {
    let found = Ok(Some("https://e.com".to_string()));
    let answer = handle_qrcode_get("abc", Some("10000"), Some("PNG"), &found, "https://sho.rt");
    assert_eq!(answer.status, StatusCode::Success);
    assert_eq!(answer.status.code(), 200);
    let image = answer.image.unwrap();
    assert_eq!(image.content_type, "image/png");
    assert_eq!(image::guess_format(&image.body).unwrap(), image::ImageFormat::Png);
    // 65 modules a side with the quiet zone, 8 pixels each: the smallest square of
    // whole modules that is at least 512 pixels wide.
    assert_eq!(side_of(&image.body), (520, 520));
}

#[test]
fn the_default_is_svg_at_128() {
    let found = Ok(Some("https://e.com".to_string()));
    let answer = handle_qrcode_get("abc", None, None, &found, "https://sho.rt");
    assert_eq!(answer.status, StatusCode::Success);
    let image = answer.image.unwrap();
    assert_eq!(image.content_type, "image/svg+xml");
    let text = String::from_utf8(image.body).unwrap();
    assert!(text.starts_with("<?xml"));
    assert!(text.contains("width=\"130\" height=\"130\""));
    assert!(text.contains("fill=\"#fff\""));
    assert!(text.contains("fill=\"#000\""));
}

#[test]
fn every_raster_format_is_written() {
    let cases = [
        (ImageFormat::Gif, "image/gif", image::ImageFormat::Gif),
        (ImageFormat::Jpeg, "image/jpeg", image::ImageFormat::Jpeg),
        (ImageFormat::Png, "image/png", image::ImageFormat::Png),
        (ImageFormat::Webp, "image/webp", image::ImageFormat::WebP),
    ];
    for (format, content_type, file) in cases {
        let made = generate_qrcode_res("abc", format, 32, "https://sho.rt").unwrap();
        assert_eq!(made.content_type, content_type);
        assert_eq!(image::guess_format(&made.body).unwrap(), file);
        assert_eq!(side_of(&made.body), (65, 65));
    }
}

#[test]
fn webp_is_in_colour_and_the_others_gray() {
    let webp = generate_qrcode_res("abc", ImageFormat::Webp, 64, "https://sho.rt").unwrap();
    assert_eq!(image::load_from_memory(&webp.body).unwrap().color(), image::ColorType::Rgb8);
    let png = generate_qrcode_res("abc", ImageFormat::Png, 64, "https://sho.rt").unwrap();
    assert_eq!(image::load_from_memory(&png.body).unwrap().color(), image::ColorType::L8);
}

#[test]
fn the_image_depends_on_the_slug() {
    let one = generate_qrcode_res("abc", ImageFormat::Png, 128, "https://sho.rt").unwrap();
    let two = generate_qrcode_res("abd", ImageFormat::Png, 128, "https://sho.rt").unwrap();
    assert_ne!(one.body, two.body);
    assert_eq!(side_of(&one.body), (130, 130));
}

#[test]
fn a_missing_slug_gets_no_image() {
    let answer = handle_qrcode_get("xyz", Some("64"), Some("png"), &Ok(None), "https://sho.rt");
    assert_eq!(answer.status, StatusCode::NotFound);
    assert!(answer.image.is_none());
    let answer = handle_qrcode_get("xyz", None, None, &Err(StoreError), "https://sho.rt");
    assert_eq!(answer.status, StatusCode::ServiceUnavailable);
    assert!(answer.image.is_none());
}

#[test]
fn a_bad_domain_or_a_long_link_is_an_error() {
    assert_eq!(generate_qrcode_res("abc", ImageFormat::Png, 128, "not a url").err(), Some(QrError::NoPublicUrl));
    let long = "a".repeat(2000);
    assert_eq!(generate_qrcode_res(&long, ImageFormat::Png, 128, "https://sho.rt").err(), Some(QrError::Render));
    assert_eq!(generate_qrcode_res(&long, ImageFormat::Svg, 128, "https://sho.rt").err(), Some(QrError::Render));
    let found = Ok(Some("https://e.com".to_string()));
    let answer = handle_qrcode_get(&long, None, None, &found, "https://sho.rt");
    assert_eq!(answer.status, StatusCode::InternalServerError);
    assert_eq!(answer.status.code(), 500);
}

#[test]
fn the_public_address_has_the_slug_as_its_path() {
    assert_eq!(short_url("https://sho.rt", "abc").as_deref(), Some("https://sho.rt/abc"));
    assert_eq!(short_url("https://sho.rt/old?x=1", "a b").as_deref(), Some("https://sho.rt/a%20b?x=1"));
    assert_eq!(short_url("sho.rt", "abc"), None);
}

#[test]
fn only_web_urls_are_targets() {
    assert_eq!(parse_target("https://example.com/a").as_deref(), Some("https://example.com/a"));
    assert_eq!(parse_target("HTTP://EXAMPLE.com").as_deref(), Some("http://example.com/"));
    assert_eq!(parse_target("ftp://x"), None);
    assert_eq!(parse_target("mailto:a@b.c"), None);
    assert_eq!(parse_target("example.com/a"), None);
}

#[test]
fn slug_helpers() {
    assert!(!has_valid_length("ab"));
    assert!(has_valid_length("abc"));
    assert!(has_valid_length(&"x".repeat(256)));
    assert!(!has_valid_length(&"x".repeat(257)));
    assert!(!has_valid_length(""));
    assert_eq!(first_char("héllo"), "h");
    assert_eq!(first_char("éa"), "é");
    assert_eq!(first_char(""), "");
}
