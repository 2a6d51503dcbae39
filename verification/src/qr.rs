//! QR images of short links: what a request asks for, and the image it gets.

use image::{DynamicImage, ImageFormat as FileFormat, Luma, Rgb};
use qrcode::render::svg::Color as SvgColor;
use qrcode::{EcLevel, QrCode, Version};
use std::io::Cursor;
use vstd::prelude::*;
use vstd::string::*;
use vstd::utf8::*;
use vstd::std_specs::iter::IteratorSpec;
use crate::http::StatusCode;
use crate::link::{public_url, short_url};
use crate::store::{found_view, StoreError};
use crate::text::{lowered, opt_str_view, same_text, to_lowered};

verus! {

/// Smallest side, in pixels, that a request can ask for.
pub const MIN_SIZE: u32 = 32;

/// Largest side, in pixels, that a request can ask for.
pub const MAX_SIZE: u32 = 512;

/// Side, in pixels, of a request that names none, or none that is an integer.
pub const DEFAULT_SIZE: u32 = 128;

/// Version of the QR symbols: 57 modules a side.
pub const SYMBOL_VERSION: i16 = 10;

/// The image formats a QR code can be asked in.
#[derive(Clone, Copy, Debug, PartialEq, Eq, Structural)]
pub enum ImageFormat {
    Gif,
    Jpeg,
    Png,
    Svg,
    Webp,
}

/// Error-correction levels of a QR symbol, weakest first.
#[derive(Clone, Copy, Debug, PartialEq, Eq, Structural)]
pub enum Correction {
    Low,
    Medium,
    Quartile,
    High,
}

/// How the pixels of a raster image are stored.
#[derive(Clone, Copy, Debug, PartialEq, Eq, Structural)]
pub enum PixelKind {
    /// One byte a pixel.
    Gray,
    /// Three bytes a pixel.
    Rgb,
}

/// The raster file formats.
#[derive(Clone, Copy, Debug, PartialEq, Eq, Structural)]
pub enum RasterFormat {
    Gif,
    Jpeg,
    Png,
    Webp,
}

/// Why no image came out.
#[derive(Clone, Copy, Debug, PartialEq, Eq, Structural)]
pub enum QrError {
    /// The service's own domain, with the slug as its path, gives no URL.
    NoPublicUrl,
    /// The short link could not be written as a symbol, or the image not encoded.
    Render,
}

/// An image ready to be sent.
pub struct QrImage {
    /// Value of the `Content-Type` header.
    pub content_type: String,
    /// The file's bytes.
    pub body: Vec<u8>,
}

/// What a [`QrImage`] holds.
pub struct QrImageView {
    pub content_type: Seq<char>,
    pub body: Seq<u8>,
}

impl View for QrImage {
    type V = QrImageView;

    open spec fn view(&self) -> QrImageView {
        QrImageView { content_type: self.content_type@, body: self.body@ }
    }
}

// ---------------------------------------------------------------------------
// The `size` parameter

/// Whether `c` is a decimal digit.
pub open spec fn is_digit(c: char) -> bool {
    '0' <= c && c <= '9'
}

/// The number that a run of decimal digits writes.
pub open spec fn digits_value(s: Seq<char>) -> nat
    decreases s.len(),
{
    if s.len() == 0 {
        0
    } else {
        digits_value(s.drop_last()) * 10 + ((s.last() as u32 - 48) as nat)
    }
}

/// `s` without its leading sign, if it has one.
pub open spec fn unsigned_part(s: Seq<char>) -> Seq<char> {
    if s.len() > 0 && (s[0] == '+' || s[0] == '-') {
        s.drop_first()
    } else {
        s
    }
}

/// Whether `s` begins with a minus sign.
pub open spec fn is_negative(s: Seq<char>) -> bool {
    s.len() > 0 && s[0] == '-'
}

/// Whether every character of `s` is a decimal digit.
pub open spec fn all_digits(s: Seq<char>) -> bool {
    forall|i: int| 0 <= i < s.len() ==> is_digit(#[trigger] s[i])
}

/// Whether `s` writes an integer: an optional `+` or `-`, then one or more decimal
/// digits, and nothing else.
pub open spec fn is_integer(s: Seq<char>) -> bool {
    unsigned_part(s).len() > 0 && all_digits(unsigned_part(s))
}

/// The integer that `s` writes, where [`is_integer`] holds of it.
pub open spec fn integer_value(s: Seq<char>) -> int {
    if is_negative(s) {
        -(digits_value(unsigned_part(s)) as int)
    } else {
        digits_value(unsigned_part(s)) as int
    }
}

/// `v` brought into the range from [`MIN_SIZE`] to [`MAX_SIZE`]: the nearest bound
/// where it lies outside.
pub open spec fn clamped(v: int) -> int {
    if v < MIN_SIZE {
        MIN_SIZE as int
    } else if v > MAX_SIZE {
        MAX_SIZE as int
    } else {
        v
    }
}

/// The side that the text of a `size` parameter asks for: the integer it writes,
/// clamped, or the default where it writes none.
pub open spec fn size_of(s: Seq<char>) -> int {
    if is_integer(s) {
        clamped(integer_value(s))
    } else {
        DEFAULT_SIZE as int
    }
}

/// The side that a request asks for: that of its `size` parameter, or the default
/// where it has none.
pub open spec fn requested_size(param: Option<Seq<char>>) -> int {
    match param {
        Some(s) => size_of(s),
        None => DEFAULT_SIZE as int,
    }
}

/// Every side that a request can ask for lies between the two bounds.
pub proof fn lemma_requested_size_in_range(param: Option<Seq<char>>)
    ensures
        MIN_SIZE <= requested_size(param) <= MAX_SIZE,
{
}

proof fn lemma_unsigned_push(s: Seq<char>, c: char)
    ensures
        unsigned_part(s.push(c)) == if s.len() == 0 {
            if c == '+' || c == '-' {
                Seq::<char>::empty()
            } else {
                seq![c]
            }
        } else {
            unsigned_part(s).push(c)
        },
        is_negative(s.push(c)) == if s.len() == 0 {
            c == '-'
        } else {
            is_negative(s)
        },
{
    let t = s.push(c);
    if s.len() == 0 {
        assert(t[0] == c);
        if c == '+' || c == '-' {
            assert(t.drop_first() =~= Seq::<char>::empty());
        } else {
            assert(t =~= seq![c]);
        }
    } else {
        assert(t[0] == s[0]);
        if s[0] == '+' || s[0] == '-' {
            assert(t.drop_first() =~= s.drop_first().push(c));
        }
    }
}

proof fn lemma_digits_push(s: Seq<char>, c: char)
    ensures
        digits_value(s.push(c)) == digits_value(s) * 10 + ((c as u32 - 48) as nat),
        all_digits(s.push(c)) == (all_digits(s) && is_digit(c)),
{
    let t = s.push(c);
    assert(t.drop_last() =~= s);
    assert(t.last() == c);
    if all_digits(s) && is_digit(c) {
        assert forall|i: int| 0 <= i < t.len() implies is_digit(#[trigger] t[i]) by {
            if i < s.len() {
                assert(t[i] == s[i]);
            }
        }
    }
    if all_digits(t) {
        assert(is_digit(t[s.len() as int]));
        assert forall|i: int| 0 <= i < s.len() implies is_digit(#[trigger] s[i]) by {
            assert(t[i] == s[i]);
        }
    }
}

/// The side, in pixels, that the text of a `size` parameter asks for.
pub fn size_from_text(text: &str) -> (size: u32)
    ensures
        size == size_of(text@),
        MIN_SIZE <= size <= MAX_SIZE,
{
    let mut first = true;
    let mut negative = false;
    let mut any = false;
    let mut valid = true;
    // The digits' value, but no more than 1000: enough to tell where it lies.
    let mut value: u32 = 0;
    let it = text.chars();
    for c in iter: it
        invariant
            iter.seq() == text@,
            first == (iter.index() == 0),
            negative == is_negative(text@.take(iter.index() as int)),
            any == (unsigned_part(text@.take(iter.index() as int)).len() > 0),
            valid == all_digits(unsigned_part(text@.take(iter.index() as int))),
            value <= 1000,
            valid ==> value == if digits_value(unsigned_part(text@.take(iter.index() as int)))
                > 1000 {
                1000
            } else {
                digits_value(unsigned_part(text@.take(iter.index() as int)))
            },
    {
        let ghost before = text@.take(iter.index() as int);
        proof {
            assert(text@.take(iter.index() + 1) == before.push(c));
            lemma_unsigned_push(before, c);
            lemma_digits_push(unsigned_part(before), c);
            assert(digits_value(Seq::<char>::empty()) == 0);
            assert(all_digits(Seq::<char>::empty()));
        }
        if first && (c == '+' || c == '-') {
            negative = c == '-';
        } else {
            any = true;
            if c >= '0' && c <= '9' {
                let digit: u32 = (c as u32) - 48;
                value = if value >= 100 {
                    1000
                } else {
                    value * 10 + digit
                };
            } else {
                valid = false;
            }
        }
        first = false;
    }
    assert(text@.take(text@.len() as int) == text@);
    if valid && any {
        if negative || value < MIN_SIZE {
            MIN_SIZE
        } else if value > MAX_SIZE {
            MAX_SIZE
        } else {
            value
        }
    } else {
        DEFAULT_SIZE
    }
}

/// The side, in pixels, that a request asks for: see [`requested_size`].
pub fn parse_size(param: Option<&str>) -> (size: u32)
    ensures
        size == requested_size(opt_str_view(param)),
        MIN_SIZE <= size <= MAX_SIZE,
{
    match param {
        Some(text) => size_from_text(text),
        None => DEFAULT_SIZE,
    }
}

// ---------------------------------------------------------------------------
// The `format` parameter

/// The format that `s` names, in any mix of upper and lower case.
pub open spec fn format_named(s: Seq<char>) -> Option<ImageFormat> {
    let l = lowered(s);
    if l == "gif"@ {
        Some(ImageFormat::Gif)
    } else if l == "jpeg"@ {
        Some(ImageFormat::Jpeg)
    } else if l == "png"@ {
        Some(ImageFormat::Png)
    } else if l == "svg"@ {
        Some(ImageFormat::Svg)
    } else if l == "webp"@ {
        Some(ImageFormat::Webp)
    } else {
        None
    }
}

/// The format that a request asks for: the one its `format` parameter names, or
/// SVG where it has none or names none.
pub open spec fn requested_format(param: Option<Seq<char>>) -> ImageFormat {
    match param {
        Some(s) => match format_named(s) {
            Some(f) => f,
            None => ImageFormat::Svg,
        },
        None => ImageFormat::Svg,
    }
}

impl ImageFormat {
    /// The format that `text` names, in any mix of upper and lower case.
    pub fn from_text(text: &str) -> (out: Option<ImageFormat>)
        ensures
            out == format_named(text@),
    {
        let l = to_lowered(text);
        if same_text(l.as_str(), "gif") {
            Some(ImageFormat::Gif)
        } else if same_text(l.as_str(), "jpeg") {
            Some(ImageFormat::Jpeg)
        } else if same_text(l.as_str(), "png") {
            Some(ImageFormat::Png)
        } else if same_text(l.as_str(), "svg") {
            Some(ImageFormat::Svg)
        } else if same_text(l.as_str(), "webp") {
            Some(ImageFormat::Webp)
        } else {
            None
        }
    }

    /// The value of `Content-Type` for an image in this format.
    pub open spec fn spec_content_type(self) -> Seq<char> {
        match self {
            ImageFormat::Gif => "image/gif"@,
            ImageFormat::Jpeg => "image/jpeg"@,
            ImageFormat::Png => "image/png"@,
            ImageFormat::Svg => "image/svg+xml"@,
            ImageFormat::Webp => "image/webp"@,
        }
    }

    /// The value of `Content-Type` for an image in this format.
    pub fn content_type(self) -> (out: &'static str)
        ensures
            out@ == self.spec_content_type(),
    {
        match self {
            ImageFormat::Gif => "image/gif",
            ImageFormat::Jpeg => "image/jpeg",
            ImageFormat::Png => "image/png",
            ImageFormat::Svg => "image/svg+xml",
            ImageFormat::Webp => "image/webp",
        }
    }

    /// How a raster image in this format is drawn and written: three bytes a pixel
    /// for WebP, one for the others. Nothing for SVG, which is no raster.
    pub open spec fn spec_raster(self) -> Option<(PixelKind, RasterFormat)> {
        match self {
            ImageFormat::Gif => Some((PixelKind::Gray, RasterFormat::Gif)),
            ImageFormat::Jpeg => Some((PixelKind::Gray, RasterFormat::Jpeg)),
            ImageFormat::Png => Some((PixelKind::Gray, RasterFormat::Png)),
            ImageFormat::Webp => Some((PixelKind::Rgb, RasterFormat::Webp)),
            ImageFormat::Svg => None,
        }
    }

    /// How a raster image in this format is drawn and written.
    pub fn raster(self) -> (out: Option<(PixelKind, RasterFormat)>)
        ensures
            out == self.spec_raster(),
    {
        match self {
            ImageFormat::Gif => Some((PixelKind::Gray, RasterFormat::Gif)),
            ImageFormat::Jpeg => Some((PixelKind::Gray, RasterFormat::Jpeg)),
            ImageFormat::Png => Some((PixelKind::Gray, RasterFormat::Png)),
            ImageFormat::Webp => Some((PixelKind::Rgb, RasterFormat::Webp)),
            ImageFormat::Svg => None,
        }
    }
}

/// The format that a request asks for: see [`requested_format`].
pub fn parse_format(param: Option<&str>) -> (format: ImageFormat)
    ensures
        format == requested_format(opt_str_view(param)),
{
    match param {
        Some(text) => match ImageFormat::from_text(text) {
            Some(f) => f,
            None => ImageFormat::Svg,
        },
        None => ImageFormat::Svg,
    }
}

// ---------------------------------------------------------------------------
// Drawing

/// The file that comes of writing `data` as a QR symbol of the given version and
/// level, drawing it in gray at least `side` pixels wide and high, and encoding the
/// picture in `format`. Nothing where the data does not fit the symbol or the
/// encoder fails.
pub uninterp spec fn qr_gray_file(
    data: Seq<u8>,
    version: int,
    level: Correction,
    side: int,
    format: RasterFormat,
) -> Option<Seq<u8>>;

/// As [`qr_gray_file`], with the picture drawn in RGB.
pub uninterp spec fn qr_rgb_file(
    data: Seq<u8>,
    version: int,
    level: Correction,
    side: int,
    format: RasterFormat,
) -> Option<Seq<u8>>;

/// The SVG document that comes of writing `data` as a QR symbol of the given
/// version and level and drawing it at least `side` units wide and high in the two
/// colours. Nothing where the data does not fit the symbol.
pub uninterp spec fn qr_svg_text(
    data: Seq<u8>,
    version: int,
    level: Correction,
    side: int,
    dark: Seq<char>,
    light: Seq<char>,
) -> Option<Seq<char>>;

/// `qrcode::QrCode::with_version`, the symbol's `render` in `image::Luma<u8>` with
/// `min_dimensions` and `build`, then `image::DynamicImage::write_to` into a
/// buffer. Every step computes from its arguments alone, so the contract names the
/// outcome after them.
#[verifier::external_body]
fn gray_file(data: &[u8], version: i16, level: Correction, side: u32, format: RasterFormat) -> (out:
    Option<Vec<u8>>)
    requires
        1 <= version <= 40,
        side <= MAX_SIZE,
    ensures
        out matches Some(file) ==> qr_gray_file(data@, version as int, level, side as int, format)
            == Some(file@),
        out is None ==> qr_gray_file(data@, version as int, level, side as int, format) is None,
{
    let level = match level { Correction::Low => EcLevel::L, Correction::Medium => EcLevel::M, Correction::Quartile => EcLevel::Q, Correction::High => EcLevel::H };
    let format = match format { RasterFormat::Gif => FileFormat::Gif, RasterFormat::Jpeg => FileFormat::Jpeg, RasterFormat::Png => FileFormat::Png, RasterFormat::Webp => FileFormat::WebP };
    let code = QrCode::with_version(data, Version::Normal(version), level).ok()?;
    let picture = DynamicImage::ImageLuma8(code.render::<Luma<u8>>().min_dimensions(side, side).build());
    let mut file = Vec::new();
    picture.write_to(&mut Cursor::new(&mut file), format).ok()?;
    Some(file)
}

/// As [`gray_file`], with the symbol rendered in `image::Rgb<u8>`.
#[verifier::external_body]
fn rgb_file(data: &[u8], version: i16, level: Correction, side: u32, format: RasterFormat) -> (out:
    Option<Vec<u8>>)
    requires
        1 <= version <= 40,
        side <= MAX_SIZE,
    ensures
        out matches Some(file) ==> qr_rgb_file(data@, version as int, level, side as int, format)
            == Some(file@),
        out is None ==> qr_rgb_file(data@, version as int, level, side as int, format) is None,
{
    let level = match level { Correction::Low => EcLevel::L, Correction::Medium => EcLevel::M, Correction::Quartile => EcLevel::Q, Correction::High => EcLevel::H };
    let format = match format { RasterFormat::Gif => FileFormat::Gif, RasterFormat::Jpeg => FileFormat::Jpeg, RasterFormat::Png => FileFormat::Png, RasterFormat::Webp => FileFormat::WebP };
    let code = QrCode::with_version(data, Version::Normal(version), level).ok()?;
    let picture = DynamicImage::ImageRgb8(code.render::<Rgb<u8>>().min_dimensions(side, side).build());
    let mut file = Vec::new();
    picture.write_to(&mut Cursor::new(&mut file), format).ok()?;
    Some(file)
}

/// `qrcode::QrCode::with_version`, then the symbol's `render` for SVG with
/// `min_dimensions`, `dark_color`, `light_color` and `build`.
#[verifier::external_body]
fn svg_text(data: &[u8], version: i16, level: Correction, side: u32, dark: &str, light: &str) -> (out:
    Option<String>)
    requires
        1 <= version <= 40,
        side <= MAX_SIZE,
    ensures
        out matches Some(text) ==> qr_svg_text(data@, version as int, level, side as int, dark@, light@)
            == Some(text@),
        out is None ==> qr_svg_text(data@, version as int, level, side as int, dark@, light@) is None,
{
    let level = match level { Correction::Low => EcLevel::L, Correction::Medium => EcLevel::M, Correction::Quartile => EcLevel::Q, Correction::High => EcLevel::H };
    let code = QrCode::with_version(data, Version::Normal(version), level).ok()?;
    Some(code.render().min_dimensions(side, side).dark_color(SvgColor(dark)).light_color(SvgColor(light)).build())
}

/// The file that shows `link` as a QR code in `format`, at least `size` pixels a
/// side: a symbol of version 10 with the lowest error correction; gray pixels,
/// but RGB for WebP; black on white for SVG.
pub open spec fn drawn(link: Seq<char>, format: ImageFormat, size: int) -> Option<Seq<u8>> {
    match format.spec_raster() {
        Some((PixelKind::Gray, file)) => qr_gray_file(
            encode_utf8(link),
            SYMBOL_VERSION as int,
            Correction::Low,
            size,
            file,
        ),
        Some((PixelKind::Rgb, file)) => qr_rgb_file(
            encode_utf8(link),
            SYMBOL_VERSION as int,
            Correction::Low,
            size,
            file,
        ),
        None => match qr_svg_text(
            encode_utf8(link),
            SYMBOL_VERSION as int,
            Correction::Low,
            size,
            "#000"@,
            "#fff"@,
        ) {
            Some(text) => Some(encode_utf8(text)),
            None => None,
        },
    }
}

/// The image of a file drawn in `format`, or the error where none was drawn.
pub open spec fn framed(format: ImageFormat, file: Option<Seq<u8>>) -> Result<QrImageView, QrError> {
    match file {
        Some(body) => Ok(QrImageView { content_type: format.spec_content_type(), body }),
        None => Err(QrError::Render),
    }
}

/// The image that a request for `slug` gets: the public address of the slug under
/// `domain`, drawn as a QR code.
pub open spec fn generated(slug: Seq<char>, format: ImageFormat, size: int, domain: Seq<char>) -> Result<
    QrImageView,
    QrError,
> {
    match public_url(domain, slug) {
        Some(link) => framed(format, drawn(link, format, size)),
        None => Err(QrError::NoPublicUrl),
    }
}

/// The view of what [`generate_qrcode_res`] returns.
pub open spec fn image_view(r: Result<QrImage, QrError>) -> Result<QrImageView, QrError> {
    match r {
        Ok(image) => Ok(image@),
        Err(e) => Err(e),
    }
}

/// Draws `link` as a QR code in `format`: see [`drawn`].
pub fn draw(link: &str, format: ImageFormat, size: u32) -> (out: Option<Vec<u8>>)
    requires
        MIN_SIZE <= size <= MAX_SIZE,
    ensures
        out matches Some(file) ==> drawn(link@, format, size as int) == Some(file@),
        out is None ==> drawn(link@, format, size as int) is None,
{
    let data = link.as_bytes();
    match format.raster() {
        Some((PixelKind::Gray, file)) => gray_file(data, SYMBOL_VERSION, Correction::Low, size, file),
        Some((PixelKind::Rgb, file)) => rgb_file(data, SYMBOL_VERSION, Correction::Low, size, file),
        None => match svg_text(data, SYMBOL_VERSION, Correction::Low, size, "#000", "#fff") {
            Some(text) => Some(text.as_str().as_bytes_vec()),
            None => None,
        },
    }
}

/// Puts the content type of `format` on a file that was drawn, or reports that none
/// was: see [`framed`].
pub fn frame(format: ImageFormat, file: Option<Vec<u8>>) -> (out: Result<QrImage, QrError>)
    ensures
        image_view(out) == framed(
            format,
            match file {
                Some(body) => Some(body@),
                None => None,
            },
        ),
{
    match file {
        Some(body) => Ok(QrImage { content_type: format.content_type().to_owned(), body }),
        None => Err(QrError::Render),
    }
}

/// The QR image of the public address of `slug`: see [`generated`].
pub fn generate_qrcode_res(slug: &str, format: ImageFormat, size: u32, self_domain: &str) -> (out:
    Result<QrImage, QrError>)
    requires
        MIN_SIZE <= size <= MAX_SIZE,
    ensures
        image_view(out) == generated(slug@, format, size as int, self_domain@),
{
    match short_url(self_domain, slug) {
        Some(link) => frame(format, draw(link.as_str(), format, size)),
        None => Err(QrError::NoPublicUrl),
    }
}

// ---------------------------------------------------------------------------
// The response

/// The answer to a request for a QR code.
pub struct QrResponse {
    pub status: StatusCode,
    /// The image, where the status is 200.
    pub image: Option<QrImage>,
}

/// What a [`QrResponse`] holds.
pub struct QrResponseView {
    pub status: StatusCode,
    pub image: Option<QrImageView>,
}

impl View for QrResponse {
    type V = QrResponseView;

    open spec fn view(&self) -> QrResponseView {
        QrResponseView {
            status: self.status,
            image: match self.image {
                Some(i) => Some(i@),
                None => None,
            },
        }
    }
}

/// The answer for an image that was or was not generated: 200 with the image, or
/// 500.
pub open spec fn image_response(image: Result<QrImageView, QrError>) -> QrResponseView {
    match image {
        Ok(i) => QrResponseView { status: StatusCode::Success, image: Some(i) },
        Err(_) => QrResponseView { status: StatusCode::InternalServerError, image: None },
    }
}

/// The answer to a request for the QR code of `slug`, given what the lookup of the
/// slug found: the image where the slug exists, 404 where it does not, 503 where
/// the stores failed.
pub open spec fn qr_response(
    slug: Seq<char>,
    size: Option<Seq<char>>,
    format: Option<Seq<char>>,
    found: Result<Option<Seq<char>>, StoreError>,
    domain: Seq<char>,
) -> QrResponseView {
    match found {
        Ok(Some(_)) => image_response(
            generated(slug, requested_format(format), requested_size(size), domain),
        ),
        Ok(None) => QrResponseView { status: StatusCode::NotFound, image: None },
        Err(_) => QrResponseView { status: StatusCode::ServiceUnavailable, image: None },
    }
}

/// The answer for an image that was or was not generated: see [`image_response`].
pub fn respond_with_image(image: Result<QrImage, QrError>) -> (out: QrResponse)
    ensures
        out@ == image_response(image_view(image)),
{
    match image {
        Ok(i) => QrResponse { status: StatusCode::Success, image: Some(i) },
        Err(_) => QrResponse { status: StatusCode::InternalServerError, image: None },
    }
}

/// Answers a request for the QR code of `slug`: see [`qr_response`]. `size` and
/// `format` are the request's parameters of those names, `found` is what the lookup
/// of the slug gave, `self_domain` the base of the service's public addresses.
pub fn handle_qrcode_get(
    slug: &str,
    size: Option<&str>,
    format: Option<&str>,
    found: &Result<Option<String>, StoreError>,
    self_domain: &str,
) -> (out: QrResponse)
    ensures
        out@ == qr_response(
            slug@,
            opt_str_view(size),
            opt_str_view(format),
            found_view(*found),
            self_domain@,
        ),
{
    let size = parse_size(size);
    let format = parse_format(format);
    match found {
        Ok(Some(_)) => respond_with_image(generate_qrcode_res(slug, format, size, self_domain)),
        Ok(None) => QrResponse { status: StatusCode::NotFound, image: None },
        Err(_) => QrResponse { status: StatusCode::ServiceUnavailable, image: None },
    }
}

} // verus!
