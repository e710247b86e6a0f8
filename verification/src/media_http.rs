//! How the media service answers requests.
use crate::config::is_safe_asset_key;
use crate::config;
use crate::media;
use crate::media::{sha256_hex, AssetMeta, Given, GivenText, MediaIndex, Moment, HASH_LENGTH};
use crate::assets;
use crate::outside;
use crate::outside::{format_http_date, parse_http_date};
use crate::text;
use crate::text::{
    cat2, cat3, cat6, nth, parse_unsigned, rsplit_once, same, split_char, starts_with,
    strip_prefix, to_lower, trim, u64_text,
};
use vstd::prelude::*;
use vstd::string::*;

verus! {

/// How long a picture under its digest may be kept: its contents never change.
pub const HASH_CACHE_CONTROL: &'static str = "public, max-age=31536000, immutable";

/// How long a picture under its key may be kept.
pub const ALIAS_CACHE_CONTROL: &'static str = "public, max-age=60, must-revalidate";

/// How many answers may hold the bytes of a picture at the same time.
pub const MAX_CONCURRENT_RESPONSES: usize = 4;

/// The first second that no date of the protocol can show.
pub const LAST_HTTP_SECOND: u64 = 253_402_300_800;

/// An answer: a status, headers and a body.
#[derive(Clone, Debug, PartialEq, Eq)]
pub struct HttpReply {
    pub status: u16,
    pub headers: Vec<(String, String)>,
    pub body: Vec<u8>,
}

/// The mathematical form of an answer.
#[verifier::ext_equal]
pub struct Answer {
    pub status: u16,
    pub headers: Seq<(Seq<char>, Seq<char>)>,
    pub body: Seq<u8>,
}

/// The contents of a list of headers.
pub open spec fn header_views(headers: Seq<(String, String)>) -> Seq<(Seq<char>, Seq<char>)> {
    Seq::new(headers.len(), |i: int| (headers[i].0@, headers[i].1@))
}

impl View for HttpReply {
    type V = Answer;

    open spec fn view(&self) -> Answer {
        Answer { status: self.status, headers: header_views(self.headers@), body: self.body@ }
    }
}

fn push_header(headers: &mut Vec<(String, String)>, name: &str, value: &str)
    ensures
        header_views(final(headers)@) == header_views(old(headers)@).push((name@, value@)),
{
    headers.push((name.to_owned(), value.to_owned()));
    assert(header_views(headers@) =~= header_views(old(headers)@).push((name@, value@)));
}

/// The bytes of an ASCII text.
pub open spec fn ascii(value: Seq<char>) -> Seq<u8> {
    Seq::new(value.len(), |i: int| value[i] as u8)
}

fn ascii_bytes(value: &str) -> (bytes: Vec<u8>)
    ensures
        bytes@ == ascii(value@),
{
    let characters = text::chars_of(value);
    let mut bytes: Vec<u8> = Vec::new();
    let mut i: usize = 0;
    while i < characters.len()
        invariant
            i <= characters@.len(),
            characters@ == value@,
            bytes@ =~= ascii(value@).take(i as int),
        decreases characters@.len() - i,
    {
        bytes.push(characters[i] as u8);
        i = i + 1;
    }
    assert(ascii(value@).take(i as int) =~= ascii(value@));
    bytes
}

/// A short text as an answer that is not kept.
pub open spec fn plain_answer(status: u16, body: Seq<char>) -> Answer {
    Answer {
        status,
        headers: seq![
            ("content-type"@, "text/plain; charset=utf-8"@),
            ("cache-control"@, "no-store"@),
            ("x-content-type-options"@, "nosniff"@),
        ],
        body: ascii(body),
    }
}

fn plain_reply(status: u16, body: &str) -> (reply: HttpReply)
    ensures
        reply@ == plain_answer(status, body@),
{
    let mut headers: Vec<(String, String)> = Vec::new();
    push_header(&mut headers, "content-type", "text/plain; charset=utf-8");
    push_header(&mut headers, "cache-control", "no-store");
    push_header(&mut headers, "x-content-type-options", "nosniff");
    let reply = HttpReply { status, headers, body: ascii_bytes(body) };
    assert(reply@ =~= plain_answer(status, body@));
    reply
}

/// That the service runs.
pub fn health_reply() -> (reply: HttpReply)
    ensures
        reply@ == plain_answer(200, "ok\n"@),
{
    plain_reply(200, "ok\n")
}

/// Whether the service is ready.
pub fn ready_reply(ready: bool) -> (reply: HttpReply)
    ensures
        reply@ == (if ready {
            plain_answer(200, "ready\n"@)
        } else {
            plain_answer(503, "not ready\n"@)
        }),
{
    if ready {
        plain_reply(200, "ready\n")
    } else {
        plain_reply(503, "not ready\n")
    }
}

/// Why a request is not answered with a picture.
#[derive(Clone, Copy, Debug, PartialEq, Eq, Structural)]
pub enum HttpError {
    InvalidAssetKey,
    NotFound,
    Busy,
}

/// What is answered instead.
pub open spec fn error_answer(error: HttpError) -> Answer {
    match error {
        HttpError::InvalidAssetKey => plain_answer(400, "invalid asset key\n"@),
        HttpError::NotFound => plain_answer(404, "asset not found\n"@),
        HttpError::Busy => plain_answer(503, "service busy\n"@),
    }
}

impl HttpError {
    /// What is answered instead of a picture.
    pub fn reply(self) -> (reply: HttpReply)
        ensures
            reply@ == error_answer(self),
    {
        match self {
            HttpError::InvalidAssetKey => plain_reply(400, "invalid asset key\n"),
            HttpError::NotFound => plain_reply(404, "asset not found\n"),
            HttpError::Busy => plain_reply(503, "service busy\n"),
        }
    }
}

/// Whether the path of a request, as it was sent, may name a picture: below the root of
/// the pictures, and with nothing in it that stands for another character.
pub open spec fn is_safe_raw_path(path: Seq<char>) -> bool {
    match text::without_prefix(path, "/media/"@) {
        Some(rest) => !rest.contains('%'),
        None => false,
    }
}

fn contains_char(value: &str, c: char) -> (answer: bool)
    ensures
        answer == value@.contains(c),
{
    let characters = text::chars_of(value);
    let mut i: usize = 0;
    while i < characters.len()
        invariant
            i <= characters@.len(),
            characters@ == value@,
            forall|j: int| 0 <= j < i ==> #[trigger] value@[j] != c,
        decreases characters@.len() - i,
    {
        if characters[i] == c {
            assert(value@[i as int] == c);
            return true;
        }
        i = i + 1;
    }
    false
}

/// Whether the path of a request, as it was sent, may name a picture.
pub fn is_safe_raw_media_path(path: &str) -> (answer: bool)
    ensures
        answer == is_safe_raw_path(path@),
{
    match strip_prefix(path, "/media/") {
        Some(rest) => !contains_char(rest, '%'),
        None => false,
    }
}

/// A hexadecimal digit, in small or capital letters.
pub open spec fn is_hex_digit(c: char) -> bool {
    text::is_digit(c) || 'a' <= c <= 'f' || 'A' <= c <= 'F'
}

/// The digest and the extension that a path names.
pub open spec fn hash_path(value: Seq<char>) -> Option<(Seq<char>, Seq<char>)> {
    match text::last_split(value, '.') {
        None => None,
        Some((digest, extension)) => if digest.len() == HASH_LENGTH && (forall|i: int|
            0 <= i < digest.len() ==> is_hex_digit(#[trigger] digest[i]))
            && assets::is_picture_extension(text::lowered(extension)) {
            Some((text::lowered(digest), text::lowered(extension)))
        } else {
            None
        },
    }
}

fn all_hex_digits(value: &str) -> (answer: bool)
    ensures
        answer == forall|i: int| 0 <= i < value@.len() ==> is_hex_digit(#[trigger] value@[i]),
{
    let characters = text::chars_of(value);
    let mut i: usize = 0;
    while i < characters.len()
        invariant
            i <= characters@.len(),
            characters@ == value@,
            forall|j: int| 0 <= j < i ==> is_hex_digit(#[trigger] value@[j]),
        decreases characters@.len() - i,
    {
        let c = characters[i];
        if !(('0' <= c && c <= '9') || ('a' <= c && c <= 'f') || ('A' <= c && c <= 'F')) {
            assert(!is_hex_digit(value@[i as int]));
            return false;
        }
        i = i + 1;
    }
    true
}

/// Reads the digest and the extension that a path names.
pub fn parse_hash_path(value: &str) -> (parsed: Option<(String, String)>)
    ensures
        match parsed {
            Some((digest, extension)) => hash_path(value@) == Some((digest@, extension@)),
            None => hash_path(value@) is None,
        },
{
    match rsplit_once(value, '.') {
        None => None,
        Some((digest, extension)) => {
            if digest.as_str().unicode_len() != HASH_LENGTH || !all_hex_digits(&digest) {
                return None;
            }
            let extension = to_lower(&extension);
            if same(&extension, "png") || same(&extension, "jpg") || same(&extension, "jpeg")
                || same(&extension, "webp") || same(&extension, "gif") || same(&extension, "bmp") {
                Some((to_lower(&digest), extension))
            } else {
                None
            }
        },
    }
}

/// The picture that a request asks for by its key.
pub fn find_by_key<'a>(index: &'a MediaIndex, raw_path: &str, asset_key: &str) -> (found: Result<
    &'a AssetMeta,
    HttpError,
>)
    ensures
        match found {
            Ok(asset) => is_safe_raw_path(raw_path@) && config::is_asset_key(asset_key@)
                && index@.by_key.contains_pair(asset_key@, asset@),
            Err(error) => error == (if is_safe_raw_path(raw_path@) && config::is_asset_key(
                asset_key@,
            ) {
                HttpError::NotFound
            } else {
                HttpError::InvalidAssetKey
            }) && (is_safe_raw_path(raw_path@) && config::is_asset_key(asset_key@)
                ==> !index@.by_key.contains_key(asset_key@)),
        },
{
    if !is_safe_raw_media_path(raw_path) || !is_safe_asset_key(asset_key) {
        return Err(HttpError::InvalidAssetKey);
    }
    match index.get(asset_key) {
        Some(asset) => Ok(asset),
        None => Err(HttpError::NotFound),
    }
}

/// The picture that a request asks for by its digest.
pub fn find_by_hash<'a>(index: &'a MediaIndex, raw_path: &str, hash_asset: &str) -> (found: Result<
    &'a AssetMeta,
    HttpError,
>)
    ensures
        match found {
            Ok(asset) => is_safe_raw_path(raw_path@) && hash_path(hash_asset@) is Some
                && index@.by_hash.contains_pair(hash_path(hash_asset@)->0, asset@),
            Err(error) => error == (if is_safe_raw_path(raw_path@) {
                HttpError::NotFound
            } else {
                HttpError::InvalidAssetKey
            }) && (is_safe_raw_path(raw_path@) && hash_path(hash_asset@) is Some
                ==> !index@.by_hash.contains_key(hash_path(hash_asset@)->0)),
        },
{
    if !is_safe_raw_media_path(raw_path) {
        return Err(HttpError::InvalidAssetKey);
    }
    match parse_hash_path(hash_asset) {
        None => Err(HttpError::NotFound),
        Some((digest, extension)) => {
            proof {
                lemma_lowered_twice(text::last_split(hash_asset@, '.')->0);
            }
            match index.get_by_hash(&digest, &extension) {
                Some(asset) => Ok(asset),
                None => Err(HttpError::NotFound),
            }
        },
    }
}

proof fn lemma_lowered_twice(halves: (Seq<char>, Seq<char>))
    ensures
        text::lowered(text::lowered(halves.0)) == text::lowered(halves.0),
        text::lowered(text::lowered(halves.1)) == text::lowered(halves.1),
{
    assert(text::lowered(text::lowered(halves.0)) =~= text::lowered(halves.0));
    assert(text::lowered(text::lowered(halves.1)) =~= text::lowered(halves.1));
}

/// The tag of a picture: its digest in quotes.
pub open spec fn etag(digest: Seq<char>) -> Seq<char> {
    "\""@ + digest + "\""@
}

/// Whether one tag of a list stands for a digest. A weak tag counts too.
pub open spec fn tag_matches(tag: Seq<char>, digest: Seq<char>) -> bool {
    let tag = text::trimmed(tag);
    ||| tag == "*"@
    ||| text::trimmed(
        match text::without_prefix(tag, "W/"@) {
            Some(rest) => rest,
            None => tag,
        },
    ) == etag(digest)
}

/// Whether one of some tags stands for a digest.
pub open spec fn any_tag_matches(tags: Seq<Seq<char>>, digest: Seq<char>) -> bool {
    exists|i: int| 0 <= i < tags.len() && tag_matches(#[trigger] tags[i], digest)
}

/// Whether a request already has the picture with this digest.
pub open spec fn none_match(value: GivenText, digest: Seq<char>) -> bool {
    match value {
        GivenText::Text(tags) => any_tag_matches(text::parts(tags, ','), digest),
        _ => false,
    }
}

fn one_tag_matches(tag: &str, digest: &str) -> (answer: bool)
    ensures
        answer == tag_matches(tag@, digest@),
{
    let tag = trim(tag);
    if same(tag, "*") {
        return true;
    }
    let tag = match strip_prefix(tag, "W/") {
        Some(rest) => rest,
        None => tag,
    };
    same(trim(tag), &cat3("\"", digest, "\""))
}

/// Whether a request already has the picture with this digest.
pub fn if_none_match_matches(value: &Given, digest: &str) -> (answer: bool)
    ensures
        answer == none_match(value@, digest@),
{
    match value {
        Given::Text(tags) => {
            let list = split_char(tags, ',');
            let ghost parts = text::parts(tags@, ',');
            let mut i: usize = 0;
            while i < list.len()
                invariant
                    i <= list@.len(),
                    text::texts(list@) == parts,
                    parts == text::parts(tags@, ','),
                    value@ == GivenText::Text(tags@),
                    forall|j: int| 0 <= j < i ==> !tag_matches(#[trigger] parts[j], digest@),
                decreases list@.len() - i,
            {
                if one_tag_matches(nth(&list, i), digest) {
                    assert(parts.len() == list@.len());
                    assert(tag_matches(parts[i as int], digest@));
                    return true;
                }
                i = i + 1;
            }
            false
        },
        _ => false,
    }
}

/// Whether a request has the picture as it was at this moment or later.
pub open spec fn modified_since_match(value: GivenText, modified: Moment) -> bool {
    match value {
        GivenText::Text(date) => match outside::http_date_seconds(date) {
            Some(since) => modified.seconds <= since,
            None => false,
        },
        _ => false,
    }
}

/// Whether a moment is not after a date, where the date could be read.
pub fn not_after(modified: Moment, date: Option<u64>) -> (answer: bool)
    ensures
        answer == (date matches Some(since) && modified.seconds <= since),
{
    match date {
        Some(since) => modified.seconds <= since,
        None => false,
    }
}

/// Whether a request has the picture as it was at this moment or later.
pub fn if_modified_since_matches(value: &Given, modified: Moment) -> (answer: bool)
    ensures
        answer == modified_since_match(value@, modified),
{
    match value {
        Given::Text(date) => not_after(modified, parse_http_date(date)),
        _ => false,
    }
}

/// Whether the part that a request asks for is a part of this picture: always where
/// nothing is said, else by the exact tag or by a date.
pub open spec fn range_applies(value: GivenText, digest: Seq<char>, modified: Moment) -> bool {
    match value {
        GivenText::Absent => true,
        GivenText::Unreadable => false,
        GivenText::Text(value) => {
            let value = text::trimmed(value);
            if "\""@.is_prefix_of(value) {
                value == etag(digest)
            } else if "W/"@.is_prefix_of(value) {
                false
            } else {
                outside::http_date_seconds(value) matches Some(since) && modified.seconds <= since
            }
        },
    }
}

/// Whether the part that a request asks for is a part of this picture.
pub fn if_range_matches(value: &Given, digest: &str, modified: Moment) -> (answer: bool)
    ensures
        answer == range_applies(value@, digest@, modified),
{
    match value {
        Given::Absent => true,
        Given::Unreadable => false,
        Given::Text(value) => {
            let value = trim(value);
            if starts_with(value, "\"") {
                same(value, &cat3("\"", digest, "\""))
            } else if starts_with(value, "W/") {
                false
            } else {
                not_after(modified, parse_http_date(value))
            }
        },
    }
}

/// A part of a picture: the first and the last byte.
#[derive(Clone, Copy, Debug, PartialEq, Eq, Structural)]
pub struct ByteRange {
    pub start: u64,
    pub end: u64,
}

/// Why a part cannot be served.
#[derive(Clone, Copy, Debug, PartialEq, Eq, Structural)]
pub enum RangeError {
    Invalid,
    Unsatisfiable,
}

/// The number that a text writes, where it is one of 64 bits.
pub open spec fn number(value: Seq<char>) -> Option<nat> {
    text::unsigned_value(value, u64::MAX as nat)
}

/// The last bytes of a picture.
pub open spec fn suffix_range(count: Seq<char>, size: u64) -> Result<ByteRange, RangeError> {
    match number(count) {
        None => Err(RangeError::Invalid),
        Some(count) => if count == 0 {
            Err(RangeError::Unsatisfiable)
        } else if count >= size {
            Ok(ByteRange { start: 0, end: (size - 1) as u64 })
        } else {
            Ok(ByteRange { start: (size - count) as u64, end: (size - 1) as u64 })
        },
    }
}

/// The bytes of a picture from one to another, or to the end.
pub open spec fn inner_range(start: Seq<char>, end: Seq<char>, size: u64) -> Result<
    ByteRange,
    RangeError,
> {
    match number(start) {
        None => Err(RangeError::Invalid),
        Some(start) => if start >= size {
            Err(RangeError::Unsatisfiable)
        } else if end.len() == 0 {
            Ok(ByteRange { start: start as u64, end: (size - 1) as u64 })
        } else {
            match number(end) {
                None => Err(RangeError::Invalid),
                Some(end) => if end < start {
                    Err(RangeError::Unsatisfiable)
                } else if end >= size {
                    Ok(ByteRange { start: start as u64, end: (size - 1) as u64 })
                } else {
                    Ok(ByteRange { start: start as u64, end: end as u64 })
                },
            }
        },
    }
}

/// The part of a picture that a header asks for. Only a single part is served.
pub open spec fn byte_range(value: Seq<char>, size: u64) -> Result<ByteRange, RangeError> {
    match text::without_prefix(value, "bytes="@) {
        None => Err(RangeError::Invalid),
        Some(value) => {
            let k = text::index_of(value, '-');
            let start = value.take(k as int);
            let end = value.skip(k as int + 1);
            if value.contains(',') || k >= value.len() || (start.len() == 0 && end.len() == 0) {
                Err(RangeError::Invalid)
            } else if size == 0 {
                Err(RangeError::Unsatisfiable)
            } else if start.len() == 0 {
                suffix_range(end, size)
            } else {
                inner_range(start, end, size)
            }
        },
    }
}

fn parse_suffix_range(count: &str, size: u64) -> (result: Result<ByteRange, RangeError>)
    requires
        size > 0,
    ensures
        result == suffix_range(count@, size),
{
    match parse_unsigned(count, u64::MAX) {
        None => Err(RangeError::Invalid),
        Some(count) => if count == 0 {
            Err(RangeError::Unsatisfiable)
        } else if count >= size {
            Ok(ByteRange { start: 0, end: size - 1 })
        } else {
            Ok(ByteRange { start: size - count, end: size - 1 })
        },
    }
}

fn parse_inner_range(start: &str, end: &str, size: u64) -> (result: Result<ByteRange, RangeError>)
    ensures
        result == inner_range(start@, end@, size),
{
    let start = match parse_unsigned(start, u64::MAX) {
        None => return Err(RangeError::Invalid),
        Some(start) => start,
    };
    if start >= size {
        return Err(RangeError::Unsatisfiable);
    }
    if end.is_empty() {
        return Ok(ByteRange { start, end: size - 1 });
    }
    match parse_unsigned(end, u64::MAX) {
        None => Err(RangeError::Invalid),
        Some(end) => if end < start {
            Err(RangeError::Unsatisfiable)
        } else if end >= size {
            Ok(ByteRange { start, end: size - 1 })
        } else {
            Ok(ByteRange { start, end })
        },
    }
}

/// Reads the part of a picture that a header asks for.
pub fn parse_range(value: &str, size: u64) -> (result: Result<ByteRange, RangeError>)
    ensures
        result == byte_range(value@, size),
{
    let value = match strip_prefix(value, "bytes=") {
        None => return Err(RangeError::Invalid),
        Some(value) => value,
    };
    if contains_char(value, ',') {
        return Err(RangeError::Invalid);
    }
    let characters = text::chars_of(value);
    assert(value@.skip(0) =~= value@);
    let at = text::find_char(&characters, 0, '-');
    if at == characters.len() {
        return Err(RangeError::Invalid);
    }
    let start = text::slice_text(&characters, 0, at);
    let end = text::slice_text(&characters, at + 1, characters.len());
    assert(start@ =~= value@.take(at as int));
    assert(end@ =~= value@.skip(at as int + 1));
    if start.as_str().is_empty() && end.as_str().is_empty() {
        return Err(RangeError::Invalid);
    }
    if size == 0 {
        return Err(RangeError::Unsatisfiable);
    }
    if start.as_str().is_empty() {
        return parse_suffix_range(&end, size);
    }
    parse_inner_range(&start, &end, size)
}

/// A part that is served lies within the picture and is not empty.
pub proof fn served_parts_lie_within_the_picture(value: Seq<char>, size: u64)
    ensures
        byte_range(value, size) matches Ok(range) ==> range.start <= range.end < size,
{
}

/// What a request says about the part and the version that it wants.
#[derive(Clone, Debug, PartialEq, Eq)]
pub struct RequestHeaders {
    pub if_none_match: Given,
    pub if_modified_since: Given,
    pub if_range: Given,
    pub range: Given,
}

/// The headers that go with every answer about a picture.
pub open spec fn asset_header_views(asset: media::Asset, content_addressed: bool) -> Seq<
    (Seq<char>, Seq<char>),
> {
    seq![
        ("content-type"@, asset.mime),
        ("etag"@, etag(asset.sha256)),
        ("last-modified"@, outside::http_date(asset.modified.seconds)),
        ("x-content-type-options"@, "nosniff"@),
        ("accept-ranges"@, "bytes"@),
        (
            "cache-control"@,
            if content_addressed {
                HASH_CACHE_CONTROL@
            } else {
                ALIAS_CACHE_CONTROL@
            },
        ),
    ]
}

/// The headers that go with every answer about a picture, given its date in words.
pub fn dated_headers(asset: &AssetMeta, content_addressed: bool, date: &str) -> (headers: Vec<
    (String, String),
>)
    ensures
        header_views(headers@) == asset_header_views(asset@, content_addressed).update(
            2,
            ("last-modified"@, date@),
        ),
{
    let mut headers: Vec<(String, String)> = Vec::new();
    push_header(&mut headers, "content-type", asset.mime());
    push_header(&mut headers, "etag", &cat3("\"", asset.sha256(), "\""));
    push_header(&mut headers, "last-modified", date);
    push_header(&mut headers, "x-content-type-options", "nosniff");
    push_header(&mut headers, "accept-ranges", "bytes");
    let cache = if content_addressed {
        HASH_CACHE_CONTROL
    } else {
        ALIAS_CACHE_CONTROL
    };
    push_header(&mut headers, "cache-control", cache);
    assert(header_views(headers@) =~= asset_header_views(asset@, content_addressed).update(
        2,
        ("last-modified"@, date@),
    ));
    headers
}

/// The headers that go with every answer about a picture.
pub fn asset_headers(asset: &AssetMeta, content_addressed: bool) -> (headers: Vec<
    (String, String),
>)
    requires
        asset@.modified.seconds < LAST_HTTP_SECOND,
    ensures
        header_views(headers@) == asset_header_views(asset@, content_addressed),
        outside::http_date_seconds(outside::http_date(asset@.modified.seconds)) == Some(
            asset@.modified.seconds,
        ),
{
    let date = format_http_date(asset.modified().seconds);
    let headers = dated_headers(asset, content_addressed, &date);
    assert(header_views(headers@) =~= asset_header_views(asset@, content_addressed));
    headers
}

/// Whether a request already has the picture: by its tags, or, where it names none, by
/// the date.
pub open spec fn is_unchanged(asset: media::Asset, request: RequestHeaders) -> bool {
    ||| none_match(request.if_none_match@, asset.sha256)
    ||| request.if_none_match@ is Absent && modified_since_match(
        request.if_modified_since@,
        asset.modified,
    )
}

fn unchanged(asset: &AssetMeta, request: &RequestHeaders) -> (answer: bool)
    ensures
        answer == is_unchanged(asset@, *request),
{
    if if_none_match_matches(&request.if_none_match, asset.sha256()) {
        return true;
    }
    match &request.if_none_match {
        Given::Absent => if_modified_since_matches(&request.if_modified_since, asset.modified()),
        _ => false,
    }
}

/// The part that a request asks for; none where it wants the whole picture.
pub open spec fn wanted_part(asset: media::Asset, request: RequestHeaders, head: bool) -> Result<
    Option<ByteRange>,
    RangeError,
> {
    if head || !range_applies(request.if_range@, asset.sha256, asset.modified) {
        Ok(None)
    } else {
        match request.range@ {
            GivenText::Absent => Ok(None),
            GivenText::Unreadable => Err(RangeError::Invalid),
            GivenText::Text(value) => match byte_range(value, asset.size) {
                Ok(range) => Ok(Some(range)),
                Err(error) => Err(error),
            },
        }
    }
}

fn find_part(asset: &AssetMeta, request: &RequestHeaders, head: bool) -> (result: Result<
    Option<ByteRange>,
    RangeError,
>)
    ensures
        result == wanted_part(asset@, *request, head),
{
    if head || !if_range_matches(&request.if_range, asset.sha256(), asset.modified()) {
        return Ok(None);
    }
    match &request.range {
        Given::Absent => Ok(None),
        Given::Unreadable => Err(RangeError::Invalid),
        Given::Text(value) => match parse_range(value, asset.size()) {
            Ok(range) => Ok(Some(range)),
            Err(error) => Err(error),
        },
    }
}

/// That the part that was asked for does not exist.
pub open spec fn unsatisfiable_answer(size: u64, head: bool) -> Answer {
    Answer {
        status: 416,
        headers: seq![
            ("content-type"@, "text/plain; charset=utf-8"@),
            ("content-range"@, "bytes */"@ + text::decimal(size as nat)),
            ("content-length"@, text::decimal(22)),
            ("accept-ranges"@, "bytes"@),
            ("cache-control"@, "no-store"@),
            ("x-content-type-options"@, "nosniff"@),
        ],
        body: if head {
            Seq::empty()
        } else {
            ascii("range not satisfiable\n"@)
        },
    }
}

/// That the part that was asked for does not exist.
pub fn range_not_satisfiable(size: u64, head: bool) -> (reply: HttpReply)
    ensures
        reply@ == unsatisfiable_answer(size, head),
{
    let mut headers: Vec<(String, String)> = Vec::new();
    push_header(&mut headers, "content-type", "text/plain; charset=utf-8");
    push_header(&mut headers, "content-range", &cat2("bytes */", &u64_text(size)));
    push_header(&mut headers, "content-length", &u64_text(22));
    push_header(&mut headers, "accept-ranges", "bytes");
    push_header(&mut headers, "cache-control", "no-store");
    push_header(&mut headers, "x-content-type-options", "nosniff");
    let body = if head {
        Vec::new()
    } else {
        ascii_bytes("range not satisfiable\n")
    };
    let reply = HttpReply { status: 416, headers, body };
    assert(reply@ =~= unsatisfiable_answer(size, head));
    reply
}

/// Why the bytes of a picture cannot be served.
#[derive(Clone, Copy, Debug, PartialEq, Eq, Structural)]
pub enum ReadAssetError {
    Busy,
    Unavailable,
}

/// What was read of a file: its bytes, and what the file system then said about it.
#[derive(Clone, Debug, PartialEq, Eq)]
pub struct FileRead {
    pub bytes: Vec<u8>,
    pub is_file: bool,
    pub size: u64,
    pub modified: Moment,
}

/// Whether a file is still the one that was indexed, before it is read.
pub fn still_indexed(asset: &AssetMeta, inside_root: bool, is_file: bool, size: u64, modified: Moment) -> (answer:
    bool)
    ensures
        answer == (inside_root && is_file && size == asset@.size && modified == asset@.modified),
{
    inside_root && is_file && size == asset.size() && modified == asset.modified()
}

/// Whether what was read, with this digest, is still the picture that was indexed.
pub open spec fn is_genuine(asset: media::Asset, file: FileRead, digest: Seq<char>) -> bool {
    &&& file.is_file
    &&& file.bytes@.len() == asset.size
    &&& file.size == asset.size
    &&& file.modified == asset.modified
    &&& digest == asset.sha256
}

/// The bytes of a file, where they are still those that were indexed.
pub fn verify_read(asset: &AssetMeta, file: FileRead, digest: &str) -> (result: Result<
    Vec<u8>,
    ReadAssetError,
>)
    ensures
        match result {
            Ok(bytes) => is_genuine(asset@, file, digest@) && bytes@ == file.bytes@,
            Err(error) => !is_genuine(asset@, file, digest@) && error
                == ReadAssetError::Unavailable,
        },
{
    if !file.is_file || file.bytes.len() as u64 != asset.size() || file.size != asset.size()
        || file.modified != asset.modified() || !same(digest, asset.sha256()) {
        return Err(ReadAssetError::Unavailable);
    }
    Ok(file.bytes)
}

/// The bytes of a picture, if there was room to read them, the file could be read, and
/// it is still the one that was indexed: same size, same date, same digest.
pub fn read_verified_asset(asset: &AssetMeta, has_room: bool, file: Option<FileRead>) -> (result:
    Result<Vec<u8>, ReadAssetError>)
    ensures
        match result {
            Ok(bytes) => has_room && file is Some && bytes@ == file->0.bytes@ && is_genuine(
                asset@,
                file->0,
                text::hex(outside::sha256_digest(bytes@)),
            ),
            Err(ReadAssetError::Busy) => !has_room,
            Err(ReadAssetError::Unavailable) => has_room && (file matches Some(file)
                ==> !is_genuine(
                asset@,
                file,
                text::hex(outside::sha256_digest(file.bytes@)),
            )),
        },
{
    if !has_room {
        return Err(ReadAssetError::Busy);
    }
    match file {
        None => Err(ReadAssetError::Unavailable),
        Some(file) => {
            let digest = sha256_hex(file.bytes.as_slice());
            verify_read(asset, file, &digest)
        },
    }
}

/// The answer to a request for a picture whose bytes are at hand.
pub open spec fn asset_answer(
    asset: media::Asset,
    bytes: Seq<u8>,
    request: RequestHeaders,
    head: bool,
    content_addressed: bool,
) -> Answer {
    let headers = asset_header_views(asset, content_addressed);
    let size = text::decimal(asset.size as nat);
    if is_unchanged(asset, request) {
        Answer {
            status: 304,
            headers: headers.push(("content-length"@, size)),
            body: Seq::empty(),
        }
    } else {
        match wanted_part(asset, request, head) {
            Err(_) => unsatisfiable_answer(asset.size, head),
            Ok(Some(range)) => {
                let start = range.start as int;
                let end = range.end + 1;
                Answer {
                    status: 206,
                    headers: headers.push(
                        (
                            "content-range"@,
                            "bytes "@ + text::decimal(range.start as nat) + "-"@ + text::decimal(
                                range.end as nat,
                            ) + "/"@ + size,
                        ),
                    ).push(("content-length"@, text::decimal((end - start) as nat))),
                    body: bytes.subrange(start, end),
                }
            },
            Ok(None) => Answer {
                status: 200,
                headers: headers.push(("content-length"@, size)),
                body: if head {
                    Seq::empty()
                } else {
                    bytes
                },
            },
        }
    }
}

fn copy_part(bytes: &Vec<u8>, from: usize, to: usize) -> (part: Vec<u8>)
    requires
        from <= to <= bytes@.len(),
    ensures
        part@ == bytes@.subrange(from as int, to as int),
{
    let mut part: Vec<u8> = Vec::new();
    let mut i: usize = from;
    while i < to
        invariant
            from <= i <= to <= bytes@.len(),
            part@ =~= bytes@.subrange(from as int, i as int),
        decreases to - i,
    {
        part.push(bytes[i]);
        i = i + 1;
    }
    part
}

fn partial_reply(
    asset: &AssetMeta,
    headers: Vec<(String, String)>,
    bytes: Vec<u8>,
    range: ByteRange,
) -> (reply: HttpReply)
    requires
        bytes@.len() == asset@.size,
        range.start <= range.end < asset@.size,
    ensures
        reply.status == 206,
        header_views(reply.headers@) == header_views(headers@).push(
            (
                "content-range"@,
                "bytes "@ + text::decimal(range.start as nat) + "-"@ + text::decimal(
                    range.end as nat,
                ) + "/"@ + text::decimal(asset@.size as nat),
            ),
        ).push(("content-length"@, text::decimal((range.end + 1 - range.start) as nat))),
        reply.body@ == bytes@.subrange(range.start as int, range.end + 1),
{
    let mut headers = headers;
    let shown = cat6(
        "bytes ",
        &u64_text(range.start),
        "-",
        &u64_text(range.end),
        "/",
        &u64_text(asset.size()),
    );
    push_header(&mut headers, "content-range", &shown);
    push_header(&mut headers, "content-length", &u64_text(range.end + 1 - range.start));
    let body = copy_part(&bytes, range.start as usize, (range.end + 1) as usize);
    HttpReply { status: 206, headers, body }
}

/// Answers a request for a picture whose bytes are at hand.
pub fn respond(
    asset: &AssetMeta,
    bytes: Vec<u8>,
    request: &RequestHeaders,
    head: bool,
    content_addressed: bool,
) -> (reply: HttpReply)
    requires
        bytes@.len() == asset@.size,
        asset@.modified.seconds < LAST_HTTP_SECOND,
    ensures
        reply@ == asset_answer(asset@, bytes@, *request, head, content_addressed),
        request.if_none_match@ is Absent && request.if_modified_since@ == GivenText::Text(
            outside::http_date(asset@.modified.seconds),
        ) ==> reply.status == 304,
{
    let mut headers = asset_headers(asset, content_addressed);
    let ghost answer = asset_answer(asset@, bytes@, *request, head, content_addressed);
    if unchanged(asset, request) {
        push_header(&mut headers, "content-length", &u64_text(asset.size()));
        let reply = HttpReply { status: 304, headers, body: Vec::new() };
        assert(reply@ =~= answer);
        return reply;
    }
    let part = match find_part(asset, request, head) {
        Ok(part) => part,
        Err(_) => return range_not_satisfiable(asset.size(), head),
    };
    match part {
        Some(range) => {
            proof {
                if let GivenText::Text(value) = request.range@ {
                    served_parts_lie_within_the_picture(value, asset@.size);
                }
            }
            let reply = partial_reply(asset, headers, bytes, range);
            assert(reply@ =~= answer);
            reply
        },
        None => {
            push_header(&mut headers, "content-length", &u64_text(asset.size()));
            let body = if head {
                Vec::new()
            } else {
                bytes
            };
            let reply = HttpReply { status: 200, headers, body };
            assert(reply@ =~= answer);
            reply
        },
    }
}

/// Answers a request for a picture of the index, whatever came of reading its file.
pub fn serve_asset(
    asset: &AssetMeta,
    content: Result<Vec<u8>, ReadAssetError>,
    request: &RequestHeaders,
    head: bool,
    content_addressed: bool,
) -> (reply: HttpReply)
    requires
        content matches Ok(bytes) ==> bytes@.len() == asset@.size,
        asset@.modified.seconds < LAST_HTTP_SECOND,
    ensures
        reply@ == (match content {
            Ok(bytes) => asset_answer(asset@, bytes@, *request, head, content_addressed),
            Err(ReadAssetError::Busy) => error_answer(HttpError::Busy),
            Err(ReadAssetError::Unavailable) => error_answer(HttpError::NotFound),
        }),
{
    match content {
        Ok(bytes) => respond(asset, bytes, request, head, content_addressed),
        Err(ReadAssetError::Busy) => HttpError::Busy.reply(),
        Err(ReadAssetError::Unavailable) => HttpError::NotFound.reply(),
    }
}

/// A request that names the tag of a picture is not sent the picture again.
pub proof fn a_known_tag_is_not_sent_again(
    asset: media::Asset,
    bytes: Seq<u8>,
    request: RequestHeaders,
    head: bool,
    content_addressed: bool,
)
    requires
        media::is_digest(asset.sha256),
        request.if_none_match@ == GivenText::Text(etag(asset.sha256)),
    ensures
        asset_answer(asset, bytes, request, head, content_addressed).status == 304,
        asset_answer(asset, bytes, request, head, content_addressed).body.len() == 0,
{
    let tag = etag(asset.sha256);
    reveal_strlit("\"");
    reveal_strlit("W/");
    assert(tag[0] == '"');
    assert(tag.last() == '"');
    assert forall|i: int| 0 <= i < tag.len() implies #[trigger] tag[i] != ',' by {
        if 0 < i < tag.len() - 1 {
            assert(tag[i] == asset.sha256[i - 1]);
        }
    }
    text::a_text_without_separator_is_one_part(tag, ',');
    text::a_text_without_outer_white_is_trimmed(tag);
    assert("W/"@[0] == 'W');
    assert(text::without_prefix(tag, "W/"@) is None);
    assert(tag_matches(text::parts(tag, ',')[0], asset.sha256));
}

/// A request for the head of a picture is answered with the headers that a request for
/// the whole picture is answered with, and no body.
pub proof fn the_head_is_the_answer_without_its_body(
    asset: media::Asset,
    bytes: Seq<u8>,
    request: RequestHeaders,
    content_addressed: bool,
)
    requires
        request.range@ is Absent,
    ensures
        ({
            let whole = asset_answer(asset, bytes, request, false, content_addressed);
            let head = asset_answer(asset, bytes, request, true, content_addressed);
            head.status == whole.status && head.headers == whole.headers && head.body.len() == 0
        }),
{
}

/// The length that an answer announces is the length of its body, unless it has none.
pub proof fn announced_lengths_are_true(
    asset: media::Asset,
    bytes: Seq<u8>,
    request: RequestHeaders,
    content_addressed: bool,
)
    requires
        bytes.len() == asset.size,
        !is_unchanged(asset, request),
        wanted_part(asset, request, false) is Ok,
    ensures
        ({
            let answer = asset_answer(asset, bytes, request, false, content_addressed);
            answer.headers.last() == ("content-length"@, text::decimal(answer.body.len()))
        }),
{
    if let GivenText::Text(value) = request.range@ {
        served_parts_lie_within_the_picture(value, asset.size);
    }
}

} // verus!
