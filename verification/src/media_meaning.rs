//! What the picture service answers, and what it takes for a picture.
use crate::assets;
use crate::config;
use crate::media;
use crate::media::{EntryAction, EntryFacts, GivenText, Moment};
use crate::media_http;
use crate::media_http::{ByteRange, FileRead, HttpError, RangeError, RequestHeaders};
use crate::outside;
use crate::signature;
use crate::text;
use vstd::prelude::*;

verus! {

/// The kinds of pictures are told apart by their first bytes: those of PNG, JPEG, WebP, GIF
/// and BMP, written out.
pub proof fn pictures_are_told_apart_by_their_first_bytes(bytes: Seq<u8>)
    ensures
        signature::is_png(bytes) <==> bytes.len() >= 8 && bytes[0] == 0x89 && bytes[1] == 0x50
            && bytes[2] == 0x4e && bytes[3] == 0x47 && bytes[4] == 0x0d && bytes[5] == 0x0a
            && bytes[6] == 0x1a && bytes[7] == 0x0a,
        signature::is_jpeg(bytes) <==> bytes.len() >= 3 && bytes[0] == 0xff && bytes[1] == 0xd8
            && bytes[2] == 0xff,
        signature::is_webp(bytes) <==> bytes.len() >= 12 && bytes[0] == 0x52 && bytes[1] == 0x49
            && bytes[2] == 0x46 && bytes[3] == 0x46 && bytes[8] == 0x57 && bytes[9] == 0x45
            && bytes[10] == 0x42 && bytes[11] == 0x50,
        signature::is_gif(bytes) <==> bytes.len() >= 6 && bytes[0] == 0x47 && bytes[1] == 0x49
            && bytes[2] == 0x46 && bytes[3] == 0x38 && (bytes[4] == 0x37 || bytes[4] == 0x39)
            && bytes[5] == 0x61,
        signature::is_bmp(bytes) <==> bytes.len() >= 2 && bytes[0] == 0x42 && bytes[1] == 0x4d,
{
    let png = seq![137u8, 80, 78, 71, 13, 10, 26, 10];
    let jpeg = seq![0xffu8, 0xd8, 0xff];
    let riff = seq![0x52u8, 0x49, 0x46, 0x46];
    let webp = seq![0x57u8, 0x45, 0x42, 0x50];
    let gif7 = seq![0x47u8, 0x49, 0x46, 0x38, 0x37, 0x61];
    let gif9 = seq![0x47u8, 0x49, 0x46, 0x38, 0x39, 0x61];
    let bmp = seq![0x42u8, 0x4d];
    lemma_stands(bytes, 0, png);
    lemma_stands(bytes, 0, jpeg);
    lemma_stands(bytes, 0, riff);
    lemma_stands(bytes, 8, webp);
    lemma_stands(bytes, 0, gif7);
    lemma_stands(bytes, 0, gif9);
    lemma_stands(bytes, 0, bmp);
    if signature::is_png(bytes) {
        assert(bytes[0] == png[0] && bytes[1] == png[1] && bytes[2] == png[2] && bytes[3] == png[3]);
        assert(bytes[4] == png[4] && bytes[5] == png[5] && bytes[6] == png[6] && bytes[7] == png[7]);
    }
    if signature::is_jpeg(bytes) {
        assert(bytes[0] == jpeg[0] && bytes[1] == jpeg[1] && bytes[2] == jpeg[2]);
    }
    if signature::is_webp(bytes) {
        assert(bytes[0] == riff[0] && bytes[1] == riff[1] && bytes[2] == riff[2]);
        assert(bytes[3] == riff[3] && bytes[8] == webp[0] && bytes[9] == webp[1]);
        assert(bytes[10] == webp[2] && bytes[11] == webp[3]);
    }
    if signature::stands_at(bytes, 0, gif7) {
        assert(bytes[0] == gif7[0] && bytes[1] == gif7[1] && bytes[2] == gif7[2]);
        assert(bytes[3] == gif7[3] && bytes[4] == gif7[4] && bytes[5] == gif7[5]);
    }
    if signature::stands_at(bytes, 0, gif9) {
        assert(bytes[0] == gif9[0] && bytes[1] == gif9[1] && bytes[2] == gif9[2]);
        assert(bytes[3] == gif9[3] && bytes[4] == gif9[4] && bytes[5] == gif9[5]);
    }
    if signature::is_bmp(bytes) {
        assert(bytes[0] == bmp[0] && bytes[1] == bmp[1]);
    }
}

proof fn lemma_stands(bytes: Seq<u8>, at: int, wanted: Seq<u8>)
    requires
        0 <= at,
    ensures
        signature::stands_at(bytes, at, wanted) <==> at + wanted.len() <= bytes.len() && (forall|
            i: int,
        |
            0 <= i < wanted.len() ==> bytes[at + i] == #[trigger] wanted[i]),
{
    if at + wanted.len() <= bytes.len() {
        let part = bytes.subrange(at, at + wanted.len());
        if part == wanted {
            assert forall|i: int| 0 <= i < wanted.len() implies bytes[at + i]
                == #[trigger] wanted[i] by {
                assert(part[i] == bytes[at + i]);
            }
        }
        if forall|i: int| 0 <= i < wanted.len() ==> bytes[at + i] == #[trigger] wanted[i] {
            assert(part =~= wanted);
        }
    }
}

/// Each kind of picture has the media type of its own name: `image/png`, `image/jpeg`,
/// `image/webp`, `image/gif`, `image/bmp`; two extensions have the same type only where both
/// stand for JPEG.
pub proof fn pictures_have_the_types_of_their_names(bytes: Seq<u8>, extension: Seq<char>, other: Seq<char>)
    ensures
        signature::is_png(bytes) ==> media::mime_of_bytes(bytes) == Some("image/png"@),
        signature::is_jpeg(bytes) ==> media::mime_of_bytes(bytes) == Some("image/jpeg"@),
        signature::is_webp(bytes) ==> media::mime_of_bytes(bytes) == Some("image/webp"@),
        signature::is_gif(bytes) ==> media::mime_of_bytes(bytes) == Some("image/gif"@),
        signature::is_bmp(bytes) ==> media::mime_of_bytes(bytes) == Some("image/bmp"@),
        !signature::is_png(bytes) && !signature::is_jpeg(bytes) && !signature::is_webp(bytes)
            && !signature::is_gif(bytes) && !signature::is_bmp(bytes) ==> media::mime_of_bytes(
            bytes,
        ) is None,
        media::mime_of_extension(extension) == Some("image/png"@) <==> extension == "png"@,
        media::mime_of_extension(extension) == Some("image/jpeg"@) <==> extension == "jpg"@
            || extension == "jpeg"@,
        media::mime_of_extension(extension) == Some("image/webp"@) <==> extension == "webp"@,
        media::mime_of_extension(extension) == Some("image/gif"@) <==> extension == "gif"@,
        media::mime_of_extension(extension) == Some("image/bmp"@) <==> extension == "bmp"@,
        media::mime_of_extension(extension) is Some <==> assets::is_picture_extension(extension),
        media::mime_of_extension(extension) is Some && media::mime_of_extension(extension)
            == media::mime_of_extension(other) ==> extension == other || ((extension == "jpg"@
            || extension == "jpeg"@) && (other == "jpg"@ || other == "jpeg"@)),
{
    pictures_are_told_apart_by_their_first_bytes(bytes);
    lemma_names();
}

proof fn lemma_names()
    ensures
        "image/png"@ != "image/jpeg"@,
        "image/png"@ != "image/webp"@,
        "image/png"@ != "image/gif"@,
        "image/png"@ != "image/bmp"@,
        "image/jpeg"@ != "image/webp"@,
        "image/jpeg"@ != "image/gif"@,
        "image/jpeg"@ != "image/bmp"@,
        "image/webp"@ != "image/gif"@,
        "image/webp"@ != "image/bmp"@,
        "image/gif"@ != "image/bmp"@,
        "png"@ != "jpg"@,
        "png"@ != "jpeg"@,
        "png"@ != "webp"@,
        "png"@ != "gif"@,
        "png"@ != "bmp"@,
        "jpg"@ != "jpeg"@,
        "jpg"@ != "webp"@,
        "jpg"@ != "gif"@,
        "jpg"@ != "bmp"@,
        "jpeg"@ != "webp"@,
        "jpeg"@ != "gif"@,
        "jpeg"@ != "bmp"@,
        "webp"@ != "gif"@,
        "webp"@ != "bmp"@,
        "gif"@ != "bmp"@,
{
    reveal_strlit("image/png");
    reveal_strlit("image/jpeg");
    reveal_strlit("image/webp");
    reveal_strlit("image/gif");
    reveal_strlit("image/bmp");
    reveal_strlit("png");
    reveal_strlit("jpg");
    reveal_strlit("jpeg");
    reveal_strlit("webp");
    reveal_strlit("gif");
    reveal_strlit("bmp");
    assert("image/png"@[6] == 'p' && "image/jpeg"@[6] == 'j' && "image/webp"@[6] == 'w');
    assert("image/gif"@[6] == 'g' && "image/bmp"@[6] == 'b');
    assert("png"@[0] == 'p' && "jpg"@[0] == 'j' && "jpeg"@[0] == 'j' && "webp"@[0] == 'w');
    assert("gif"@[0] == 'g' && "bmp"@[0] == 'b');
    assert("jpg"@.len() != "jpeg"@.len());
}

/// A listed file has the type that its extension names and its first bytes show, the digest
/// of its contents in small hexadecimal digits, its own size and time, and the path below the
/// root as its key. A file is listed exactly when it has such a key, a known extension, at
/// most 20 MiB, and the first bytes that belong to the extension.
pub proof fn files_are_listed_for_what_they_are(
    parts: Option<Seq<Seq<char>>>,
    file_name: Seq<char>,
    size: u64,
    bytes: Seq<u8>,
    digest: Seq<u8>,
    modified: Moment,
)
    ensures
        ({
            let listed = media::listed_asset(parts, file_name, size, bytes, digest, modified);
            let extension = assets::picture_extension(file_name);
            &&& listed is Some <==> {
                &&& parts is Some
                &&& config::is_asset_key(text::joined(parts->0, "/"@))
                &&& size <= 20 * 1024 * 1024
                &&& bytes.len() == size
                &&& {
                    ||| extension == Some("png"@) && signature::is_png(bytes)
                    ||| extension == Some("jpg"@) && signature::is_jpeg(bytes)
                    ||| extension == Some("jpeg"@) && signature::is_jpeg(bytes)
                    ||| extension == Some("webp"@) && signature::is_webp(bytes)
                    ||| extension == Some("gif"@) && signature::is_gif(bytes)
                    ||| extension == Some("bmp"@) && signature::is_bmp(bytes)
                }
            }
            &&& listed matches Some(asset) ==> {
                &&& asset.asset_key == text::joined(parts->0, "/"@)
                &&& asset.sha256 == text::hex(digest)
                &&& Some(asset.extension) == extension
                &&& asset.size == size
                &&& asset.modified == modified
                &&& asset.extension == "png"@ ==> asset.mime == "image/png"@
                &&& asset.extension == "jpg"@ || asset.extension == "jpeg"@ ==> asset.mime
                    == "image/jpeg"@
                &&& asset.extension == "webp"@ ==> asset.mime == "image/webp"@
                &&& asset.extension == "gif"@ ==> asset.mime == "image/gif"@
                &&& asset.extension == "bmp"@ ==> asset.mime == "image/bmp"@
            }
        }),
{
    pictures_are_told_apart_by_their_first_bytes(bytes);
    lemma_names();
}

/// The extension of a file is what stands behind its last dot, in small letters, where
/// something stands before that dot and it names a kind of picture.
pub proof fn extensions_stand_behind_the_last_dot(stem: Seq<char>, extension: Seq<char>)
    requires
        stem.len() > 0,
        text::lacks(extension, '.'),
    ensures
        assets::name_extension(stem + "."@ + extension) == Some(extension),
        assets::picture_extension(stem + "."@ + extension) == (if text::lowered(extension)
            == "png"@ || text::lowered(extension) == "jpg"@ || text::lowered(extension) == "jpeg"@
            || text::lowered(extension) == "webp"@ || text::lowered(extension) == "gif"@
            || text::lowered(extension) == "bmp"@ {
            Some(text::lowered(extension))
        } else {
            None
        }),
{
    reveal_strlit(".");
    let name = stem + "."@ + extension;
    let n = extension.len() as int;
    assert forall|j: int| name.len() - n <= j < name.len() implies text::other_than('.')(
        #[trigger] name[j],
    ) by {
        assert(name[j] == extension[j - stem.len() - 1]);
    }
    assert(name[name.len() - n - 1] == '.');
    text::lemma_tail_run_len(name, text::other_than('.'), n);
    assert(name.take(name.len() - n - 1) =~= stem);
    assert(name.skip(name.len() - n) =~= extension);
}

/// An entry of a directory is walked into exactly when it leads to a directory within the
/// root, and read exactly when it leads to a file of at most 20 MiB within the root and was
/// listed as a file or a link.
pub proof fn entries_are_walked_and_read_within_the_root(facts: EntryFacts)
    ensures
        media::entry_action(facts) == EntryAction::Descend <==> facts.listed is Some
            && facts.inside_root == Some(true) && facts.target is Some && (facts.target->0).0,
        media::entry_action(facts) == EntryAction::Read <==> facts.listed is Some
            && facts.inside_root == Some(true) && facts.target is Some && !(facts.target->0).0 && (
        facts.target->0).1 && ((facts.listed->0).0 || (facts.listed->0).1) && (facts.target->0).2
            <= 20 * 1024 * 1024,
{
}

/// Of two pictures with the same contents the one that was taken in first is found under the
/// digest, and of two under one key the one that was taken in last.
pub proof fn first_contents_and_last_keys_win(
    index: media::Index,
    first: media::Asset,
    second: media::Asset,
)
    ensures
        ({
            let both = index.with(first).with(second);
            &&& both.by_key.contains_pair(second.asset_key, second)
            &&& first.asset_key != second.asset_key ==> both.by_key.contains_pair(
                first.asset_key,
                first,
            )
            &&& !index.by_hash.contains_key((first.sha256, first.extension))
                ==> both.by_hash.contains_pair((first.sha256, first.extension), first)
            &&& !index.by_hash.contains_key((second.sha256, second.extension)) && (first.sha256,
                first.extension) != (second.sha256, second.extension)
                ==> both.by_hash.contains_pair((second.sha256, second.extension), second)
        }),
{
}

/// A digest has 64 characters, digits and the letters from `a` to `f`.
pub proof fn digests_are_written_in_small_hexadecimal_digits(value: Seq<char>)
    ensures
        media::is_digest(value) <==> value.len() == 64 && (forall|i: int|
            0 <= i < value.len() ==> {
                let c = #[trigger] value[i];
                '0' <= c <= '9' || 'a' <= c <= 'f'
            }),
{
}

/// A request without conditions for a picture is answered with the whole picture: status
/// 200, the type of the picture, its digest in quotes as the tag, its date, its length, and
/// its bytes; the head alone with the same headers and no bytes. What is found by its digest
/// may be kept for a year, what is found by its key for a minute.
pub proof fn pictures_are_answered_whole(
    asset: media::Asset,
    bytes: Seq<u8>,
    request: RequestHeaders,
    head: bool,
    content_addressed: bool,
)
    requires
        request.if_none_match@ is Absent,
        request.if_modified_since@ is Absent,
        request.if_range@ is Absent,
        request.range@ is Absent,
    ensures
        ({
            let answer = media_http::asset_answer(asset, bytes, request, head, content_addressed);
            &&& answer.status == 200
            &&& answer.body == (if head {
                Seq::<u8>::empty()
            } else {
                bytes
            })
            &&& answer.headers.contains(("content-type"@, asset.mime))
            &&& answer.headers.contains(("etag"@, "\""@ + asset.sha256 + "\""@))
            &&& answer.headers.contains(
                ("last-modified"@, outside::http_date(asset.modified.seconds)),
            )
            &&& answer.headers.contains(("content-length"@, text::decimal(asset.size as nat)))
            &&& answer.headers.contains(("accept-ranges"@, "bytes"@))
            &&& answer.headers.contains(("x-content-type-options"@, "nosniff"@))
            &&& answer.headers.contains(
                (
                    "cache-control"@,
                    if content_addressed {
                        "public, max-age=31536000, immutable"@
                    } else {
                        "public, max-age=60, must-revalidate"@
                    },
                ),
            )
        }),
{
    let answer = media_http::asset_answer(asset, bytes, request, head, content_addressed);
    lemma_headers(asset, content_addressed);
    assert(answer.headers[0] == ("content-type"@, asset.mime));
    assert(answer.headers[1] == ("etag"@, "\""@ + asset.sha256 + "\""@));
    assert(answer.headers[2] == ("last-modified"@, outside::http_date(asset.modified.seconds)));
    assert(answer.headers[3] == ("x-content-type-options"@, "nosniff"@));
    assert(answer.headers[4] == ("accept-ranges"@, "bytes"@));
    assert(answer.headers[5].0 == "cache-control"@);
    assert(answer.headers[6] == ("content-length"@, text::decimal(asset.size as nat)));
}

proof fn lemma_headers(asset: media::Asset, content_addressed: bool)
    ensures
        media_http::asset_header_views(asset, content_addressed).len() == 6,
        media_http::asset_header_views(asset, content_addressed)[0] == ("content-type"@, asset.mime),
        media_http::asset_header_views(asset, content_addressed)[5] == (
            "cache-control"@,
            if content_addressed {
                "public, max-age=31536000, immutable"@
            } else {
                "public, max-age=60, must-revalidate"@
            },
        ),
{
}

/// A JPEG that is listed is answered as `image/jpeg`, whatever is asked of it, unless no part
/// of it can be answered; and so is every other kind of picture as its own type.
pub proof fn answers_have_the_type_of_the_picture(
    asset: media::Asset,
    bytes: Seq<u8>,
    request: RequestHeaders,
    head: bool,
    content_addressed: bool,
)
    requires
        media::asset_ok(asset),
        media_http::is_unchanged(asset, request) || media_http::wanted_part(
            asset,
            request,
            head,
        ) is Ok,
    ensures
        ({
            let first = media_http::asset_answer(
                asset,
                bytes,
                request,
                head,
                content_addressed,
            ).headers[0];
            &&& asset.extension == "png"@ ==> first == ("content-type"@, "image/png"@)
            &&& asset.extension == "jpg"@ || asset.extension == "jpeg"@ ==> first == (
                "content-type"@,
                "image/jpeg"@,
            )
            &&& asset.extension == "webp"@ ==> first == ("content-type"@, "image/webp"@)
            &&& asset.extension == "gif"@ ==> first == ("content-type"@, "image/gif"@)
            &&& asset.extension == "bmp"@ ==> first == ("content-type"@, "image/bmp"@)
        }),
{
    lemma_names();
    lemma_headers(asset, content_addressed);
    let headers = media_http::asset_header_views(asset, content_addressed);
    assert(headers.len() == 6);
    let answer = media_http::asset_answer(asset, bytes, request, head, content_addressed);
    assert(answer.headers[0] == headers[0]);
}

/// A picture is not sent again (status 304, no body) exactly when the request names its tag,
/// or names no tags and a date that is not before that of the picture; otherwise it is sent
/// whole (200), in part (206), or it is refused that the part does not exist (416).
pub proof fn answers_have_the_status_of_what_they_hold(
    asset: media::Asset,
    bytes: Seq<u8>,
    request: RequestHeaders,
    head: bool,
    content_addressed: bool,
)
    ensures
        ({
            let answer = media_http::asset_answer(asset, bytes, request, head, content_addressed);
            let dated = request.if_modified_since@ matches GivenText::Text(date)
                && outside::http_date_seconds(date) matches Some(since)
                && asset.modified.seconds <= since;
            let unchanged = media_http::none_match(request.if_none_match@, asset.sha256) || (
            request.if_none_match@ is Absent && dated);
            &&& answer.status == 304 <==> unchanged
            &&& unchanged ==> answer.body.len() == 0
            &&& !unchanged && head ==> answer.status == 200 && answer.body.len() == 0
            &&& !unchanged && !head && request.range@ is Absent ==> answer.status == 200
                && answer.body == bytes
            &&& !unchanged && !head && !media_http::range_applies(
                request.if_range@,
                asset.sha256,
                asset.modified,
            ) ==> answer.status == 200 && answer.body == bytes
            &&& !unchanged && !head && media_http::range_applies(
                request.if_range@,
                asset.sha256,
                asset.modified,
            ) ==> (request.range@ matches GivenText::Text(range) ==> match media_http::byte_range(
                range,
                asset.size,
            ) {
                Ok(part) => {
                    &&& answer.status == 206
                    &&& answer.body == bytes.subrange(part.start as int, part.end + 1)
                    &&& answer.headers.contains(
                        (
                            "content-range"@,
                            "bytes "@ + text::decimal(part.start as nat) + "-"@ + text::decimal(
                                part.end as nat,
                            ) + "/"@ + text::decimal(asset.size as nat),
                        ),
                    )
                },
                Err(_) => {
                    &&& answer.status == 416
                    &&& answer.headers.contains(
                        ("content-range"@, "bytes */"@ + text::decimal(asset.size as nat)),
                    )
                },
            })
        }),
{
    let answer = media_http::asset_answer(asset, bytes, request, head, content_addressed);
    lemma_headers(asset, content_addressed);
    if let GivenText::Text(range) = request.range@ {
        if answer.status == 206 {
            let part = media_http::byte_range(range, asset.size)->Ok_0;
            assert(answer.headers[6] == (
                "content-range"@,
                "bytes "@ + text::decimal(part.start as nat) + "-"@ + text::decimal(part.end as nat)
                    + "/"@ + text::decimal(asset.size as nat),
            ));
        }
        if answer.status == 416 {
            assert(answer.headers[1] == (
                "content-range"@,
                "bytes */"@ + text::decimal(asset.size as nat),
            ));
        }
    }
}

/// What cannot be answered is answered with the status of its reason: a key that is none
/// with 400, a picture that is not there with 404, and too many requests with 503; health is
/// 200, and so is readiness where the service is ready.
pub proof fn refusals_have_the_status_of_their_reason()
    ensures
        media_http::error_answer(HttpError::InvalidAssetKey).status == 400,
        media_http::error_answer(HttpError::NotFound).status == 404,
        media_http::error_answer(HttpError::Busy).status == 503,
        media_http::error_answer(HttpError::InvalidAssetKey).body == media_http::ascii(
            "invalid asset key\n"@,
        ),
        media_http::error_answer(HttpError::NotFound).body == media_http::ascii(
            "asset not found\n"@,
        ),
        media_http::error_answer(HttpError::Busy).body == media_http::ascii("service busy\n"@),
        forall|status: u16, body: Seq<char>| #[trigger]
            media_http::plain_answer(status, body).status == status && media_http::plain_answer(
                status,
                body,
            ).headers == seq![
                ("content-type"@, "text/plain; charset=utf-8"@),
                ("cache-control"@, "no-store"@),
                ("x-content-type-options"@, "nosniff"@),
            ],
{
}

/// A path is taken apart only where it starts with `/media/` and has no percent sign behind
/// that.
pub proof fn paths_are_taken_as_they_are_written(rest: Seq<char>, path: Seq<char>)
    ensures
        media_http::is_safe_raw_path("/media/"@ + rest) <==> text::lacks(rest, '%'),
        media_http::is_safe_raw_path(path) ==> "/media/"@.is_prefix_of(path),
{
    let whole = "/media/"@ + rest;
    assert(whole.skip("/media/"@.len() as int) =~= rest);
    assert("/media/"@.is_prefix_of(whole));
    if !text::lacks(rest, '%') {
        let i = choose|i: int| 0 <= i < rest.len() && #[trigger] rest[i] == '%';
        assert(rest.contains('%'));
    }
}

/// A digest and an extension with a dot between them name the picture with that digest and
/// that extension, in whatever letters they are written.
pub proof fn digests_and_extensions_are_read_in_any_letters(
    digest: Seq<char>,
    extension: Seq<char>,
)
    requires
        text::lacks(extension, '.'),
    ensures
        media_http::hash_path(digest + "."@ + extension) == (if digest.len() == 64 && (forall|
            i: int,
        |
            0 <= i < digest.len() ==> {
                let c = #[trigger] digest[i];
                '0' <= c <= '9' || 'a' <= c <= 'f' || 'A' <= c <= 'F'
            }) && (text::lowered(extension) == "png"@ || text::lowered(extension) == "jpg"@
            || text::lowered(extension) == "jpeg"@ || text::lowered(extension) == "webp"@
            || text::lowered(extension) == "gif"@ || text::lowered(extension) == "bmp"@) {
            Some((text::lowered(digest), text::lowered(extension)))
        } else {
            None
        }),
{
    reveal_strlit(".");
    let name = digest + "."@ + extension;
    let n = extension.len() as int;
    assert forall|j: int| name.len() - n <= j < name.len() implies text::other_than('.')(
        #[trigger] name[j],
    ) by {
        assert(name[j] == extension[j - digest.len() - 1]);
    }
    assert(name[name.len() - n - 1] == '.');
    text::lemma_tail_run_len(name, text::other_than('.'), n);
    assert(name.take(name.len() - n - 1) =~= digest);
    assert(name.skip(name.len() - n) =~= extension);
}

/// A tag matches a picture where it is the digest in quotes, weak or not, or a star; a date
/// matches where the picture is not younger.
pub proof fn tags_and_dates_match_the_picture(
    tag: Seq<char>,
    digest: Seq<char>,
    modified: Moment,
    date: Seq<char>,
)
    requires
        tag.len() > 0,
        text::trimmed(tag) == tag,
        !"W/"@.is_prefix_of(tag),
    ensures
        media_http::tag_matches(tag, digest) <==> tag == "*"@ || tag == "\""@ + digest + "\""@,
        media_http::tag_matches("W/"@ + tag, digest) <==> tag == "\""@ + digest + "\""@,
        media_http::modified_since_match(GivenText::Text(date), modified) <==> (
        outside::http_date_seconds(date) matches Some(since) && modified.seconds <= since),
        !media_http::modified_since_match(GivenText::Absent, modified),
        !media_http::none_match(GivenText::Absent, digest),
        !media_http::none_match(GivenText::Unreadable, digest),
        media_http::range_applies(GivenText::Absent, digest, modified),
        !media_http::range_applies(GivenText::Unreadable, digest, modified),
        "\""@.is_prefix_of(tag) ==> (media_http::range_applies(
            GivenText::Text(tag),
            digest,
            modified,
        ) <==> tag == "\""@ + digest + "\""@),
        !media_http::range_applies(GivenText::Text("W/"@ + tag), digest, modified),
{
    reveal_strlit("W/");
    reveal_strlit("*");
    reveal_strlit("\"");
    let weak = "W/"@ + tag;
    lemma_trimmed_ends(tag);
    assert(weak[0] == 'W' && weak.last() == tag.last());
    text::a_text_without_outer_white_is_trimmed(weak);
    assert("W/"@.is_prefix_of(weak));
    assert(weak.skip(2) =~= tag);
    assert("*"@[0] == '*');
    assert(weak != "*"@);
    assert(!"\""@.is_prefix_of(weak)) by {
        assert("\""@[0] == '"');
    }
    assert(text::without_prefix(tag, "W/"@) is None);
}

proof fn lemma_trimmed_ends(value: Seq<char>)
    requires
        value.len() > 0,
        text::trimmed(value) == value,
    ensures
        !text::is_white(value.last()),
        !text::is_white(value[0]),
{
    text::lemma_run_len_facts(value, text::white());
    let rest = text::trim_start(value);
    text::lemma_tail_run_len_facts(rest, text::white());
    assert(text::run_len(value, text::white()) == 0) by {
        if text::run_len(value, text::white()) > 0 {
            assert(rest.len() < value.len());
            assert(text::trimmed(value).len() <= rest.len());
        }
    }
    assert(rest =~= value);
    assert(text::tail_run_len(rest, text::white()) == 0);
}

proof fn lemma_dash(start: Seq<char>, end: Seq<char>)
    requires
        text::lacks(start, '-'),
    ensures
        ({
            let value = start + "-"@ + end;
            let k = text::index_of(value, '-') as int;
            k == start.len() && k < value.len() && value.take(k) == start && value.skip(k + 1)
                == end
        }),
{
    reveal_strlit("-");
    let value = start + "-"@ + end;
    let k = start.len() as int;
    assert forall|j: int| 0 <= j < k implies text::other_than('-')(#[trigger] value[j]) by {
        assert(value[j] == start[j]);
    }
    assert(value[k] == '-');
    text::lemma_run_len(value, text::other_than('-'), k);
    assert(value.take(k) =~= start);
    assert(value.skip(k + 1) =~= end);
}

proof fn lemma_plain_number(n: nat)
    requires
        n <= u64::MAX,
    ensures
        text::lacks(text::decimal(n), '-'),
        text::lacks(text::decimal(n), ','),
        text::decimal(n).len() > 0,
        media_http::number(text::decimal(n)) == Some(n),
{
    text::numbers_are_read_as_they_are_written(n, u64::MAX as nat);
    let digits = text::decimal(n);
    assert forall|i: int| 0 <= i < digits.len() implies #[trigger] digits[i] != '-' && digits[i]
        != ',' by {
        assert(text::is_digit(digits[i]));
    }
}

/// A range from one byte to another gives exactly those bytes, up to the last byte of the
/// picture; one that starts behind the picture, or ends before it starts, does not exist.
pub proof fn ranges_give_the_bytes_they_name(first: u64, last: u64, size: u64)
    requires
        size > 0,
    ensures
        media_http::byte_range(
            "bytes="@ + (text::decimal(first as nat) + "-"@ + text::decimal(last as nat)),
            size,
        ) == (if first >= size || last < first {
            Err(RangeError::Unsatisfiable)
        } else {
            Ok::<ByteRange, RangeError>(
                ByteRange {
                    start: first,
                    end: if last < size {
                        last
                    } else {
                        (size - 1) as u64
                    },
                },
            )
        }),
{
    reveal_strlit("-");
    let start = text::decimal(first as nat);
    let end = text::decimal(last as nat);
    lemma_plain_number(first as nat);
    lemma_plain_number(last as nat);
    let value = start + "-"@ + end;
    lemma_dash(start, end);
    lemma_bytes(value);
    assert(!value.contains(',')) by {
        if value.contains(',') {
            let i = choose|i: int| 0 <= i < value.len() && value[i] == ',';
            if i < start.len() {
                assert(start[i] == ',');
            } else if i > start.len() {
                assert(end[i - start.len() - 1] == ',');
            }
        }
    }
}

proof fn lemma_bytes(value: Seq<char>)
    ensures
        text::without_prefix("bytes="@ + value, "bytes="@) == Some(value),
{
    let whole = "bytes="@ + value;
    assert("bytes="@.is_prefix_of(whole));
    assert(whole.skip("bytes="@.len() as int) =~= value);
}

/// A range without an end gives the rest of the picture, and one without a start gives its
/// last bytes, as many as are asked for or all there are.
pub proof fn open_ranges_give_the_rest_or_the_last_bytes(first: u64, count: u64, size: u64)
    requires
        size > 0,
    ensures
        media_http::byte_range("bytes="@ + (text::decimal(first as nat) + "-"@ + ""@), size) == (
        if first >= size {
            Err(RangeError::Unsatisfiable)
        } else {
            Ok::<ByteRange, RangeError>(ByteRange { start: first, end: (size - 1) as u64 })
        }),
        media_http::byte_range("bytes="@ + (""@ + "-"@ + text::decimal(count as nat)), size) == (
        if count == 0 {
            Err(RangeError::Unsatisfiable)
        } else {
            Ok::<ByteRange, RangeError>(
                ByteRange {
                    start: if count >= size {
                        0
                    } else {
                        (size - count) as u64
                    },
                    end: (size - 1) as u64,
                },
            )
        }),
{
    reveal_strlit("-");
    reveal_strlit("");
    let start = text::decimal(first as nat);
    let end = text::decimal(count as nat);
    lemma_plain_number(first as nat);
    lemma_plain_number(count as nat);
    lemma_dash(start, ""@);
    lemma_dash(""@, end);
    let a = start + "-"@ + ""@;
    let b = ""@ + "-"@ + end;
    lemma_bytes(a);
    lemma_bytes(b);
    assert(!a.contains(',')) by {
        if a.contains(',') {
            let i = choose|i: int| 0 <= i < a.len() && a[i] == ',';
            assert(i < start.len() ==> start[i] == ',');
        }
    }
    assert(!b.contains(',')) by {
        if b.contains(',') {
            let i = choose|i: int| 0 <= i < b.len() && b[i] == ',';
            assert(i > 0 ==> end[i - 1] == ',');
        }
    }
}

/// A file is served as a picture of the index only while it is a file of the same size, with
/// the same time and the same contents.
pub proof fn only_the_indexed_contents_are_served(
    asset: media::Asset,
    file: FileRead,
    digest: Seq<char>,
)
    ensures
        media_http::is_genuine(asset, file, digest) <==> file.is_file && file.size == asset.size
            && file.bytes@.len() == asset.size && file.modified == asset.modified && digest
            == asset.sha256,
{
}

/// A request names a picture when one of its tags, between commas, does; a part is sent where
/// the date that goes with the request is not before that of the picture.
pub proof fn one_of_several_tags_is_enough(
    first: Seq<char>,
    second: Seq<char>,
    digest: Seq<char>,
    modified: Moment,
)
    requires
        text::lacks(second, ','),
    ensures
        media_http::none_match(GivenText::Text(first + seq![','] + second), digest)
            <==> media_http::none_match(GivenText::Text(first), digest) || media_http::tag_matches(
            second,
            digest,
        ),
        media_http::none_match(GivenText::Text(second), digest) <==> media_http::tag_matches(
            second,
            digest,
        ),
        !"\""@.is_prefix_of(text::trimmed(second)) && !"W/"@.is_prefix_of(text::trimmed(second)) ==> (
        media_http::range_applies(GivenText::Text(second), digest, modified) <==> (
        outside::http_date_seconds(text::trimmed(second)) matches Some(since) && modified.seconds
            <= since)),
{
    crate::config_meaning::parts_on_both_sides_are_all_parts(first, second, ',');
    if second.contains(',') {
        let i = choose|i: int| 0 <= i < second.len() && second[i] == ',';
        assert(second[i] != ',');
    }
    text::a_text_without_separator_is_one_part(second, ',');
    let all = text::parts(first + seq![','] + second, ',');
    let some = text::parts(first, ',');
    assert(all =~= some.push(second));
    assert(all[some.len() as int] == second);
    if media_http::any_tag_matches(some, digest) {
        let i = choose|i: int|
            0 <= i < some.len() && media_http::tag_matches(#[trigger] some[i], digest);
        assert(all[i] == some[i]);
    }
    if media_http::any_tag_matches(all, digest) {
        let i = choose|i: int|
            0 <= i < all.len() && media_http::tag_matches(#[trigger] all[i], digest);
        if i < some.len() {
            assert(some[i] == all[i]);
        }
    }
    assert(text::parts(second, ',')[0] == second);
}

} // verus!
