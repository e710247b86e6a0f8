//! What the library has from outside crates.
//!
//! Every function here makes one call that Verus does not look into, and states
//! what the rest of the crate relies on. A result that is too large to describe
//! has a name: the same arguments always give the named value.
use vstd::prelude::*;

verus! {

/// The SHA-256 digest of some bytes.
pub uninterp spec fn sha256_digest(bytes: Seq<u8>) -> Seq<u8>;

/// `sha2::Sha256::digest`: the digest of the bytes, always 32 bytes long.
#[verifier::external_body]
pub(crate) fn sha256(bytes: &[u8]) -> (digest: Vec<u8>)
    ensures
        digest@ == sha256_digest(bytes@),
        digest@.len() == 32,
{
    <sha2::Sha256 as sha2::Digest>::digest(bytes).to_vec()
}

/// Bytes in the standard Base64 alphabet, with padding.
pub uninterp spec fn base64_standard(bytes: Seq<u8>) -> Seq<char>;

/// `base64::engine::general_purpose::STANDARD.encode`: the bytes in Base64. The
/// bound keeps the length of the result within what a string can hold.
#[verifier::external_body]
pub(crate) fn base64_encode(bytes: &[u8]) -> (encoded: String)
    requires
        bytes@.len() <= 0x4000_0000,
    ensures
        encoded@ == base64_standard(bytes@),
{
    base64::Engine::encode(&base64::engine::general_purpose::STANDARD, bytes)
}

/// A value inside a JSON document, as far as events are read: a number is a `u64`
/// or something else, an array is its length.
#[derive(Clone, Debug, PartialEq, Eq)]
pub enum JsonNode {
    Null,
    Bool(bool),
    Number(Option<u64>),
    Text(String),
    Array(usize),
    Object,
}

/// The mathematical form of a `JsonNode`.
pub enum JsonShape {
    Null,
    Bool(bool),
    Number(Option<u64>),
    Text(Seq<char>),
    Array(nat),
    Object,
}

/// What a node is.
pub open spec fn shape(node: JsonNode) -> JsonShape {
    match node {
        JsonNode::Null => JsonShape::Null,
        JsonNode::Bool(value) => JsonShape::Bool(value),
        JsonNode::Number(value) => JsonShape::Number(value),
        JsonNode::Text(value) => JsonShape::Text(value@),
        JsonNode::Array(length) => JsonShape::Array(length as nat),
        JsonNode::Object => JsonShape::Object,
    }
}

/// What an optional node is.
pub open spec fn optional_shape(node: Option<JsonNode>) -> Option<JsonShape> {
    match node {
        Some(node) => Some(shape(node)),
        None => None,
    }
}

/// The value that a JSON pointer leads to in a document; none where the text is
/// no JSON document or the document has no such value.
pub uninterp spec fn json_at(document: Seq<char>, pointer: Seq<char>) -> Option<JsonShape>;

/// `serde_json::from_str` and `Value::pointer`: parses the document and follows
/// the pointer.
#[verifier::external_body]
pub(crate) fn json_lookup(document: &str, pointer: &str) -> (node: Option<JsonNode>)
    ensures
        optional_shape(node) == json_at(document@, pointer@),
{
    let root: serde_json::Value = serde_json::from_str(document).ok()?;
    Some(match root.pointer(pointer)? {
        serde_json::Value::Null => JsonNode::Null,
        serde_json::Value::Bool(value) => JsonNode::Bool(*value),
        serde_json::Value::Number(value) => JsonNode::Number(value.as_u64()),
        serde_json::Value::String(value) => JsonNode::Text(value.clone()),
        serde_json::Value::Array(items) => JsonNode::Array(items.len()),
        serde_json::Value::Object(_) => JsonNode::Object,
    })
}

/// The compact JSON text of the value that a pointer leads to.
pub uninterp spec fn json_text_at(document: Seq<char>, pointer: Seq<char>) -> Option<Seq<char>>;

/// `serde_json::from_str`, `Value::pointer` and the `Display` of `Value`: the
/// compact JSON text of a part of a document.
#[verifier::external_body]
pub(crate) fn json_part(document: &str, pointer: &str) -> (part: Option<String>)
    ensures
        crate::text::optional_text(part) == json_text_at(document@, pointer@),
{
    let root: serde_json::Value = serde_json::from_str(document).ok()?;
    root.pointer(pointer).map(|value| value.to_string())
}

/// A text as a JSON string, with its quotes and escapes.
pub uninterp spec fn json_string(text: Seq<char>) -> Seq<char>;

/// The `Display` of `serde_json::Value::String`: the text as a JSON string.
#[verifier::external_body]
pub(crate) fn json_quote(value: &str) -> (quoted: String)
    ensures
        quoted@ == json_string(value@),
{
    serde_json::Value::String(value.to_owned()).to_string()
}

/// A point in time, in seconds of Unix time, as an HTTP date.
pub uninterp spec fn http_date(seconds: u64) -> Seq<char>;

/// The point in time that an HTTP date denotes, in seconds of Unix time.
pub uninterp spec fn http_date_seconds(date: Seq<char>) -> Option<u64>;

/// `httpdate::fmt_http_date`: the date in the preferred format, which reads back
/// as the same second. It panics from the year 10000 on.
#[verifier::external_body]
pub(crate) fn format_http_date(seconds: u64) -> (date: String)
    requires
        seconds < 253_402_300_800,
    ensures
        date@ == http_date(seconds),
        http_date_seconds(date@) == Some(seconds),
{
    let moment = std::time::UNIX_EPOCH + std::time::Duration::from_secs(seconds);
    httpdate::fmt_http_date(moment)
}

/// `httpdate::parse_http_date`: the second that a date denotes, if it is one.
#[verifier::external_body]
pub(crate) fn parse_http_date(date: &str) -> (seconds: Option<u64>)
    ensures
        seconds == http_date_seconds(date@),
{
    let moment = httpdate::parse_http_date(date).ok()?;
    Some(moment.duration_since(std::time::UNIX_EPOCH).ok()?.as_secs())
}

/// The image formats that can be uploaded.
#[derive(Clone, Copy, Debug, PartialEq, Eq)]
pub enum ImageKind {
    Png,
    Jpeg,
    WebP,
    Bmp,
}

/// The kind of image that some bytes start like.
pub open spec fn image_kind_of(bytes: Seq<u8>) -> Option<ImageKind> {
    if seq![0x89u8, 0x50, 0x4e, 0x47, 0x0d, 0x0a, 0x1a, 0x0a].is_prefix_of(bytes) {
        Some(ImageKind::Png)
    } else if seq![0xffu8, 0xd8, 0xff].is_prefix_of(bytes) {
        Some(ImageKind::Jpeg)
    } else if bytes.len() >= 12 && bytes.subrange(0, 4) == seq![0x52u8, 0x49, 0x46, 0x46]
        && bytes.subrange(8, 12) == seq![0x57u8, 0x45, 0x42, 0x50] {
        Some(ImageKind::WebP)
    } else if seq![0x42u8, 0x4d].is_prefix_of(bytes) {
        Some(ImageKind::Bmp)
    } else {
        None
    }
}

/// `image::guess_format`, which goes by the first bytes: PNG, JPEG, WebP and BMP
/// are told apart, every other format counts as none.
#[verifier::external_body]
pub(crate) fn guess_image_kind(bytes: &[u8]) -> (kind: Option<ImageKind>)
    ensures
        kind == image_kind_of(bytes@),
{
    match image::guess_format(bytes).ok()? {
        image::ImageFormat::Png => Some(ImageKind::Png),
        image::ImageFormat::Jpeg => Some(ImageKind::Jpeg),
        image::ImageFormat::WebP => Some(ImageKind::WebP),
        image::ImageFormat::Bmp => Some(ImageKind::Bmp),
        _ => None,
    }
}

/// The width and height that an image declares, where it can be read within the
/// limits on width, height and decoding memory.
pub uninterp spec fn declared_size(
    bytes: Seq<u8>,
    kind: ImageKind,
    max_width: u32,
    max_height: u32,
    max_memory: u64,
) -> Option<(u32, u32)>;

/// `image::ImageReader::into_dimensions` under `image::Limits`: reads the head of
/// an image of a known format. A width or a height above its limit is an error. The
/// limit on memory is one that every machine can count to.
#[verifier::external_body]
pub(crate) fn read_image_size(
    bytes: &[u8],
    kind: ImageKind,
    max_width: u32,
    max_height: u32,
    max_memory: u64,
) -> (size: Option<(u32, u32)>)
    requires
        max_memory <= 0xffff_ffff,
    ensures
        size == declared_size(bytes@, kind, max_width, max_height, max_memory),
        size matches Some(size) ==> size.0 <= max_width && size.1 <= max_height,
{
    let mut limits = image::Limits::default();
    limits.max_image_width = Some(max_width);
    limits.max_image_height = Some(max_height);
    limits.max_alloc = Some(max_memory);
    let format = match kind {
        ImageKind::Png => image::ImageFormat::Png,
        ImageKind::Jpeg => image::ImageFormat::Jpeg,
        ImageKind::WebP => image::ImageFormat::WebP,
        ImageKind::Bmp => image::ImageFormat::Bmp,
    };
    let mut reader = image::ImageReader::with_format(std::io::Cursor::new(bytes), format);
    reader.limits(limits);
    reader.into_dimensions().ok()
}

/// The mathematical form of an encoded image.
pub open spec fn encoded_image(image: Option<(Vec<u8>, u32, u32)>) -> Option<(Seq<u8>, u32, u32)> {
    match image {
        Some(image) => Some((image.0@, image.1, image.2)),
        None => None,
    }
}

/// The WebP image, with its width and height, into which an image is encoded anew, where
/// it can be decoded within the limits on width, height and decoding memory.
pub uninterp spec fn webp_of(
    bytes: Seq<u8>,
    kind: ImageKind,
    max_width: u32,
    max_height: u32,
    max_memory: u64,
) -> Option<(Seq<u8>, u32, u32)>;

/// `image::ImageReader::decode` under `image::Limits`, then
/// `image::DynamicImage::write_to` as WebP. What comes out follows from the bytes, the
/// format and the limits; where the JPEG decoder has code of its own for a
/// processor, that code does the same integer arithmetic as the rest. It starts like a
/// WebP image, and has the width and the height that the image declares, neither of them
/// zero.
#[verifier::external_body]
pub(crate) fn encode_webp(
    bytes: &[u8],
    kind: ImageKind,
    max_width: u32,
    max_height: u32,
    max_memory: u64,
) -> (encoded: Option<(Vec<u8>, u32, u32)>)
    requires
        max_memory <= 0xffff_ffff,
    ensures
        encoded_image(encoded) == webp_of(bytes@, kind, max_width, max_height, max_memory),
        encoded matches Some(image) ==> {
            &&& image_kind_of(image.0@) == Some(ImageKind::WebP)
            &&& declared_size(bytes@, kind, max_width, max_height, max_memory) == Some(
                (image.1, image.2),
            )
            &&& image.1 > 0
            &&& image.2 > 0
        },
{
    let mut limits = image::Limits::default();
    (limits.max_image_width, limits.max_image_height) = (Some(max_width), Some(max_height));
    limits.max_alloc = Some(max_memory);
    let format = match kind {
        ImageKind::Png => image::ImageFormat::Png,
        ImageKind::Jpeg => image::ImageFormat::Jpeg,
        ImageKind::WebP => image::ImageFormat::WebP,
        ImageKind::Bmp => image::ImageFormat::Bmp,
    };
    let mut reader = image::ImageReader::with_format(std::io::Cursor::new(bytes), format);
    reader.limits(limits);
    let pixels = reader.decode().ok()?;
    let mut output = std::io::Cursor::new(Vec::new());
    pixels.write_to(&mut output, image::ImageFormat::WebP).ok()?;
    Some((output.into_inner(), pixels.width(), pixels.height()))
}

} // verus!
