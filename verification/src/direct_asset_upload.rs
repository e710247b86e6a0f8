//! Pictures that an administrator hands in for the local directory.
use crate::assets;
use crate::catalog;
use crate::config;
use crate::config::{
    is_safe_asset_key, is_safe_data_relative_path, IllustrationConfig, IllustrationMode,
};
use crate::message;
use crate::message::MAX_INLINE_IMAGE_BYTES;
use crate::outside;
use crate::outside::{encode_webp, guess_image_kind, read_image_size, ImageKind};
use crate::player_staging::has_text;
use crate::text;
use crate::text::{cat5, ends_with, hex_text, nth, same, split_char};
use vstd::prelude::*;
use vstd::string::*;

verus! {

/// The widest picture that is taken.
pub const MAX_DIRECT_ASSET_WIDTH: u32 = 4_096;

/// The highest picture that is taken.
pub const MAX_DIRECT_ASSET_HEIGHT: u32 = 4_096;

/// The most pixels of a picture that is taken.
pub const MAX_DIRECT_ASSET_PIXELS: u64 = 16_777_216;

/// The memory that decoding a picture may take, in bytes.
pub const MAX_DIRECT_ASSET_DECODE_BYTES: u64 = 67_108_864;

/// The largest file that is taken, and the largest that is written, in bytes.
pub const MAX_DIRECT_ASSET_UPLOAD_BYTES: usize = MAX_INLINE_IMAGE_BYTES;

/// How often a name for the file that is written first is tried.
pub const TEMPORARY_TRIES: usize = 8;

/// What is told of a picture that was taken.
#[derive(Clone, Debug, PartialEq, Eq)]
pub struct DirectAssetUploadReceipt {
    pub asset_key: String,
    pub byte_size: usize,
    pub height: u32,
    pub mime_type: &'static str,
    pub width: u32,
}

/// Why a picture is not taken.
#[derive(Clone, Copy, Debug, PartialEq, Eq, Structural)]
pub enum DirectAssetUploadError {
    DirectModeUnavailable,
    InvalidAsset,
    InvalidImage,
    StorageUnavailable,
}

/// The error of a result.
pub open spec fn upload_failure<T>(result: Result<T, DirectAssetUploadError>) -> Option<
    DirectAssetUploadError,
> {
    match result {
        Ok(_) => None,
        Err(error) => Some(error),
    }
}

/// The asset keys of the built-in catalogue.
pub open spec fn catalog_keys() -> Seq<Seq<char>> {
    match catalog::embedded_manifest() {
        Ok(bindings) => Seq::new(bindings.len(), |i: int| bindings[i].asset_key),
        Err(_) => Seq::empty(),
    }
}

/// Why a picture may not be written under a key: pictures are written as WebP, under the
/// keys of the built-in catalogue.
pub open spec fn asset_key_error(asset_key: Seq<char>) -> Option<DirectAssetUploadError> {
    if !config::is_asset_key(asset_key) || !".webp"@.is_suffix_of(asset_key) {
        Some(DirectAssetUploadError::InvalidAsset)
    } else if catalog::embedded_manifest() is Err {
        Some(DirectAssetUploadError::StorageUnavailable)
    } else if !catalog_keys().contains(asset_key) {
        Some(DirectAssetUploadError::InvalidAsset)
    } else {
        None
    }
}

/// Checks the key of a picture that is handed in.
pub fn validate_asset_key(asset_key: &str) -> (result: Result<(), DirectAssetUploadError>)
    ensures
        upload_failure(result) == asset_key_error(asset_key@),
{
    if !is_safe_asset_key(asset_key) || !ends_with(asset_key, ".webp") {
        return Err(DirectAssetUploadError::InvalidAsset);
    }
    if catalog::validate_embedded_manifest().is_err() {
        return Err(DirectAssetUploadError::StorageUnavailable);
    }
    if !has_text(&catalog::asset_keys(), asset_key) {
        return Err(DirectAssetUploadError::InvalidAsset);
    }
    Ok(())
}

/// Whether a picture of a width and a height is taken.
pub open spec fn is_size_taken(width: u32, height: u32) -> bool {
    width > 0 && height > 0 && width * height <= MAX_DIRECT_ASSET_PIXELS
}

/// The picture to write, given what a picture declares of its size and what encoding it
/// gave: none where something is not as it should be.
pub open spec fn picture_to_write(
    size: Option<(u32, u32)>,
    encoded: Option<(Seq<u8>, u32, u32)>,
) -> Option<(Seq<u8>, u32, u32)> {
    match (size, encoded) {
        (Some((width, height)), Some((bytes, encoded_width, encoded_height))) => if is_size_taken(
            width,
            height,
        ) && encoded_width == width && encoded_height == height && 0 < bytes.len()
            <= MAX_DIRECT_ASSET_UPLOAD_BYTES {
            Some((bytes, width, height))
        } else {
            None
        },
        _ => None,
    }
}

/// Checks the size that a picture declares.
pub fn accept_size(size: Option<(u32, u32)>) -> (result: Result<
    (u32, u32),
    DirectAssetUploadError,
>)
    ensures
        result == (match size {
            Some((width, height)) => if is_size_taken(width, height) {
                Ok((width, height))
            } else {
                Err(DirectAssetUploadError::InvalidImage)
            },
            None => Err(DirectAssetUploadError::InvalidImage),
        }),
{
    match size {
        None => Err(DirectAssetUploadError::InvalidImage),
        Some((width, height)) => {
            assert(width * height <= u32::MAX * u32::MAX) by (nonlinear_arith)
                requires
                    width <= u32::MAX,
                    height <= u32::MAX,
            ;
            if width == 0 || height == 0 || width as u64 * height as u64
                > MAX_DIRECT_ASSET_PIXELS {
                return Err(DirectAssetUploadError::InvalidImage);
            }
            Ok((width, height))
        },
    }
}

/// Checks what encoding a picture gave, against the size that it declared.
pub fn accept_encoded(
    size: (u32, u32),
    encoded: Option<(Vec<u8>, u32, u32)>,
) -> (result: Result<(Vec<u8>, u32, u32), DirectAssetUploadError>)
    requires
        is_size_taken(size.0, size.1),
    ensures
        match result {
            Ok((bytes, width, height)) => picture_to_write(
                Some(size),
                outside::encoded_image(encoded),
            ) == Some((bytes@, width, height)),
            Err(error) => error == DirectAssetUploadError::InvalidImage && picture_to_write(
                Some(size),
                outside::encoded_image(encoded),
            ) is None,
        },
{
    match encoded {
        None => Err(DirectAssetUploadError::InvalidImage),
        Some((bytes, width, height)) => {
            if width != size.0 || height != size.1 {
                return Err(DirectAssetUploadError::InvalidImage);
            }
            if bytes.len() == 0 || bytes.len() > MAX_DIRECT_ASSET_UPLOAD_BYTES {
                return Err(DirectAssetUploadError::InvalidImage);
            }
            Ok((bytes, width, height))
        },
    }
}

/// The size that a picture declares, within the limits on pictures that are handed in;
/// none where the bytes are no picture of a kind that is taken.
pub open spec fn size_of(input: Seq<u8>) -> Option<(u32, u32)> {
    match outside::image_kind_of(input) {
        Some(kind) => outside::declared_size(
            input,
            kind,
            MAX_DIRECT_ASSET_WIDTH,
            MAX_DIRECT_ASSET_HEIGHT,
            MAX_DIRECT_ASSET_DECODE_BYTES,
        ),
        None => None,
    }
}

/// Whether a picture may be written for some bytes that were handed in: it is WebP of the
/// size that they declare, within all limits.
pub open spec fn is_picture_of(
    picture: Seq<u8>,
    width: u32,
    height: u32,
    input: Seq<u8>,
) -> bool {
    &&& size_of(input) == Some((width, height))
    &&& 0 < width <= MAX_DIRECT_ASSET_WIDTH
    &&& 0 < height <= MAX_DIRECT_ASSET_HEIGHT
    &&& width * height <= MAX_DIRECT_ASSET_PIXELS
    &&& 0 < picture.len() <= MAX_DIRECT_ASSET_UPLOAD_BYTES
    &&& outside::image_kind_of(picture) == Some(ImageKind::WebP)
}

/// The picture that is written for some bytes that were handed in, with its width and
/// height: what they are encoded into as WebP, where they are a picture of a kind that is
/// taken and all limits are kept.
pub open spec fn picture_of(input: Seq<u8>) -> Option<(Seq<u8>, u32, u32)> {
    match outside::image_kind_of(input) {
        Some(kind) => picture_to_write(
            size_of(input),
            outside::webp_of(
                input,
                kind,
                MAX_DIRECT_ASSET_WIDTH,
                MAX_DIRECT_ASSET_HEIGHT,
                MAX_DIRECT_ASSET_DECODE_BYTES,
            ),
        ),
        None => None,
    }
}

/// Reads a picture and writes it anew as WebP.
pub fn decode_and_encode_webp(input: &[u8]) -> (result: Result<
    (Vec<u8>, u32, u32),
    DirectAssetUploadError,
>)
    ensures
        match result {
            Ok((bytes, width, height)) => {
                &&& picture_of(input@) == Some((bytes@, width, height))
                &&& is_picture_of(bytes@, width, height, input@)
            },
            Err(error) => error == DirectAssetUploadError::InvalidImage && picture_of(
                input@,
            ) is None,
        },
{
    let kind = match guess_image_kind(input) {
        Some(kind) => kind,
        None => return Err(DirectAssetUploadError::InvalidImage),
    };
    let declared = read_image_size(
        input,
        kind,
        MAX_DIRECT_ASSET_WIDTH,
        MAX_DIRECT_ASSET_HEIGHT,
        MAX_DIRECT_ASSET_DECODE_BYTES,
    );
    let size = match accept_size(declared) {
        Ok(size) => size,
        Err(error) => return Err(error),
    };
    let encoded = encode_webp(
        input,
        kind,
        MAX_DIRECT_ASSET_WIDTH,
        MAX_DIRECT_ASSET_HEIGHT,
        MAX_DIRECT_ASSET_DECODE_BYTES,
    );
    accept_encoded(size, encoded)
}

/// Whether pictures are read from a local directory that is named as it should be.
pub open spec fn is_direct(config: IllustrationConfig) -> bool {
    config.enabled && config.mode == IllustrationMode::Direct && config::is_safe_path(
        config.direct_asset_root@,
    )
}

/// Checks that pictures are read from a local directory.
pub fn check_direct_mode(config: &IllustrationConfig) -> (result: Result<
    (),
    DirectAssetUploadError,
>)
    ensures
        upload_failure(result) == (if is_direct(*config) {
            None
        } else {
            Some(DirectAssetUploadError::DirectModeUnavailable)
        }),
{
    if !config.enabled || config.mode != IllustrationMode::Direct || !is_safe_data_relative_path(
        config.direct_asset_root.as_str(),
    ) {
        return Err(DirectAssetUploadError::DirectModeUnavailable);
    }
    Ok(())
}

/// A picture to write, and what is told of it once it is written.
#[derive(Clone, Debug, PartialEq, Eq)]
pub struct DirectUpload {
    pub bytes: Vec<u8>,
    pub receipt: DirectAssetUploadReceipt,
}

/// The picture that is written under a key, with its width and height, or why none is.
pub open spec fn stored(
    config: IllustrationConfig,
    asset_key: Seq<char>,
    input: Seq<u8>,
) -> Result<(Seq<u8>, u32, u32), DirectAssetUploadError> {
    if asset_key_error(asset_key) is Some {
        Err(asset_key_error(asset_key)->0)
    } else if input.len() == 0 || input.len() > MAX_DIRECT_ASSET_UPLOAD_BYTES {
        Err(DirectAssetUploadError::InvalidImage)
    } else {
        match picture_of(input) {
            None => Err(DirectAssetUploadError::InvalidImage),
            Some(picture) => if is_direct(config) {
                Ok(picture)
            } else {
                Err(DirectAssetUploadError::DirectModeUnavailable)
            },
        }
    }
}

/// The upload that a picture makes, once it was decoded and encoded, or why it makes none.
pub fn finish_upload(
    config: &IllustrationConfig,
    asset_key: &str,
    picture: Result<(Vec<u8>, u32, u32), DirectAssetUploadError>,
) -> (result: Result<DirectUpload, DirectAssetUploadError>)
    ensures
        match picture {
            Err(error) => result == Err::<DirectUpload, DirectAssetUploadError>(error),
            Ok((bytes, width, height)) => if is_direct(*config) {
                result matches Ok(upload) && upload.bytes@ == bytes@ && upload.receipt.asset_key@
                    == asset_key@ && upload.receipt.byte_size == bytes@.len()
                    && upload.receipt.height == height && upload.receipt.mime_type@
                    == "image/webp"@ && upload.receipt.width == width
            } else {
                result == Err::<DirectUpload, DirectAssetUploadError>(
                    DirectAssetUploadError::DirectModeUnavailable,
                )
            },
        },
{
    let (bytes, width, height) = match picture {
        Ok(picture) => picture,
        Err(error) => return Err(error),
    };
    if let Err(error) = check_direct_mode(config) {
        return Err(error);
    }
    let receipt = DirectAssetUploadReceipt {
        asset_key: asset_key.to_owned(),
        byte_size: bytes.len(),
        height,
        mime_type: "image/webp",
        width,
    };
    Ok(DirectUpload { bytes, receipt })
}

proof fn lemma_webp_extension(asset_key: Seq<char>)
    requires
        ".webp"@.is_suffix_of(asset_key),
        assets::base_name(asset_key) != ".webp"@,
    ensures
        assets::picture_extension(assets::base_name(asset_key)) == Some("webp"@),
{
    reveal_strlit(".webp");
    reveal_strlit("webp");
    let name = assets::base_name(asset_key);
    let ending = asset_key.skip(asset_key.len() - 5);
    text::lemma_last_part(asset_key, '/');
    assert(ending =~= ".webp"@);
    assert forall|j: int| asset_key.len() - 5 <= j < asset_key.len() implies asset_key[j]
        == ".webp"@[j - asset_key.len() + 5] by {
        assert(ending[j - asset_key.len() + 5] == asset_key[j]);
    }
    assert(name.len() >= 5) by {
        if name.len() < 5 {
            assert(asset_key[asset_key.len() - name.len() - 1] != '/');
        }
    }
    assert(name.skip(name.len() - 5) =~= ".webp"@);
    if name.len() == 5 {
        assert(name =~= name.skip(0));
    }
    let others = text::other_than('.');
    assert(name[name.len() - 5] == '.');
    assert forall|j: int| name.len() - 4 <= j < name.len() implies others(#[trigger] name[j]) by {
        assert(name.skip(name.len() - 5)[j - name.len() + 5] == name[j]);
    }
    text::lemma_tail_run_len(name, others, 4);
    assert(name.skip(name.len() - 4) =~= "webp"@);
    assert(text::lowered("webp"@) =~= "webp"@);
}

proof fn lemma_webp_signature(bytes: Seq<u8>)
    requires
        outside::image_kind_of(bytes) == Some(ImageKind::WebP),
    ensures
        assets::matches_magic("webp"@, bytes),
        message::is_bitmap(bytes),
{
    reveal_strlit("webp");
    reveal_strlit("png");
    reveal_strlit("jpg");
    reveal_strlit("jpeg");
    assert("jpeg"@[0] == 'j' && "webp"@[0] == 'w');
}

/// Takes a picture that is handed in: what is to be written, and what is told of it. What
/// is written can be shown, and it is read again at the next start, unless its name
/// consists of an extension alone.
pub fn store_direct_asset(config: &IllustrationConfig, asset_key: &str, input: &[u8]) -> (result:
    Result<DirectUpload, DirectAssetUploadError>)
    ensures
        match result {
            Ok(upload) => {
                &&& stored(*config, asset_key@, input@) == Ok::<_, DirectAssetUploadError>(
                    (upload.bytes@, upload.receipt.width, upload.receipt.height),
                )
                &&& is_picture_of(
                    upload.bytes@,
                    upload.receipt.width,
                    upload.receipt.height,
                    input@,
                )
                &&& upload.receipt.asset_key@ == asset_key@
                &&& upload.receipt.byte_size == upload.bytes@.len()
                &&& upload.receipt.mime_type@ == "image/webp"@
                &&& message::bytes_error(upload.bytes@) is None
                &&& assets::base_name(asset_key@) != ".webp"@ ==> assets::picture_taken(
                    asset_key@,
                    upload.bytes@.len() as u64,
                    upload.bytes@,
                    Some(upload.bytes@.len() as u64),
                )
            },
            Err(error) => stored(*config, asset_key@, input@) == Err::<
                (Seq<u8>, u32, u32),
                DirectAssetUploadError,
            >(error),
        },
{
    if let Err(error) = validate_asset_key(asset_key) {
        return Err(error);
    }
    if input.len() == 0 || input.len() > MAX_DIRECT_ASSET_UPLOAD_BYTES {
        return Err(DirectAssetUploadError::InvalidImage);
    }
    let picture = decode_and_encode_webp(input);
    proof {
        if picture is Ok {
            lemma_webp_signature((picture->Ok_0).0@);
            if assets::base_name(asset_key@) != ".webp"@ {
                lemma_webp_extension(asset_key@);
            }
        }
    }
    finish_upload(config, asset_key, picture)
}

/// The names of the directories that a relative path leads through, from a part on; none
/// where it leads elsewhere.
pub open spec fn plain_names(parts: Seq<Seq<char>>, from: nat) -> Option<Seq<Seq<char>>>
    decreases parts.len() - from,
{
    if from >= parts.len() {
        Some(Seq::empty())
    } else {
        let part = parts[from as int];
        if part == ".."@ || (part == "."@ && from == 0) || (part == ""@ && from == 0 && parts.len()
            > 1) {
            None
        } else {
            match plain_names(parts, from + 1) {
                None => None,
                Some(rest) => if part == ""@ || part == "."@ {
                    Some(rest)
                } else {
                    Some(seq![part] + rest)
                },
            }
        }
    }
}

/// The names of the directories that a relative path leads through.
pub fn directory_names(path: &str) -> (result: Result<Vec<String>, DirectAssetUploadError>)
    ensures
        match result {
            Ok(names) => plain_names(text::parts(path@, '/'), 0) == Some(text::texts(names@)),
            Err(error) => error == DirectAssetUploadError::InvalidAsset && plain_names(
                text::parts(path@, '/'),
                0,
            ) is None,
        },
{
    let segments = split_char(path, '/');
    let ghost parts = text::parts(path@, '/');
    let mut names: Vec<String> = Vec::new();
    let mut i: usize = 0;
    assert(text::texts(names@) =~= Seq::empty());
    while i < segments.len()
        invariant
            i <= segments@.len(),
            parts == text::parts(path@, '/'),
            parts == text::texts(segments@),
            match plain_names(parts, i as nat) {
                Some(rest) => plain_names(parts, 0) == Some(text::texts(names@) + rest),
                None => plain_names(parts, 0) is None,
            },
        decreases segments@.len() - i,
    {
        let segment = nth(&segments, i);
        assert(parts[i as int] == segment@);
        proof {
            reveal_strlit("");
            assert(segment@ == ""@ <==> segment@.len() == 0) by {
                if segment@.len() == 0 {
                    assert(segment@ =~= ""@);
                }
            }
        }
        if same(segment, "..") || (same(segment, ".") && i == 0) || (segment.is_empty() && i == 0
            && segments.len() > 1) {
            return Err(DirectAssetUploadError::InvalidAsset);
        }
        let ghost before = text::texts(names@);
        if !segment.is_empty() && !same(segment, ".") {
            names.push(segment.to_owned());
            proof {
                assert(text::texts(names@) =~= before.push(segment@));
                match plain_names(parts, (i + 1) as nat) {
                    Some(rest) => {
                        assert(before.push(segment@) + rest =~= before + (seq![segment@] + rest));
                    },
                    None => {},
                }
            }
        }
        i = i + 1;
    }
    assert(text::texts(names@) + Seq::empty() =~= text::texts(names@));
    Ok(names)
}

/// What stands where a directory or a file is to be.
#[derive(Clone, Copy, Debug, PartialEq, Eq, Structural)]
pub enum FoundEntry {
    Missing,
    Directory,
    File,
    /// A symbolic link, or something else.
    Other,
    Unreadable,
}

/// How making a directory or a file went.
#[derive(Clone, Copy, Debug, PartialEq, Eq, Structural)]
pub enum CreateOutcome {
    Made,
    AlreadyThere,
    Failed,
}

/// How far entering a directory has come.
#[derive(Clone, Copy, Debug, PartialEq, Eq, Structural)]
pub enum DirectoryState {
    /// See what stands there.
    Look,
    /// Make the directory.
    Create,
    /// See what stands there after it was made.
    LookAgain,
    /// Find out where the directory really is.
    Resolve,
    Entered,
    Refused,
}

/// What happened while a directory is entered.
#[derive(Clone, Copy, Debug, PartialEq, Eq, Structural)]
pub enum DirectoryEvent {
    Found(FoundEntry),
    Created(CreateOutcome),
    /// Whether the directory really lies within the root.
    Resolved(bool),
}

/// How entering a directory goes on. Links are never followed, and nothing is made
/// outside of the root.
pub open spec fn directory_next(state: DirectoryState, event: DirectoryEvent) -> DirectoryState {
    match (state, event) {
        (DirectoryState::Look, DirectoryEvent::Found(FoundEntry::Directory)) =>
            DirectoryState::Resolve,
        (DirectoryState::Look, DirectoryEvent::Found(FoundEntry::Missing)) =>
            DirectoryState::Create,
        (DirectoryState::Create, DirectoryEvent::Created(CreateOutcome::Made)) =>
            DirectoryState::LookAgain,
        (DirectoryState::Create, DirectoryEvent::Created(CreateOutcome::AlreadyThere)) =>
            DirectoryState::LookAgain,
        (DirectoryState::LookAgain, DirectoryEvent::Found(FoundEntry::Directory)) =>
            DirectoryState::Resolve,
        (DirectoryState::Resolve, DirectoryEvent::Resolved(true)) => DirectoryState::Entered,
        (DirectoryState::Entered, _) => DirectoryState::Entered,
        _ => DirectoryState::Refused,
    }
}

impl DirectoryState {
    /// Goes on with entering a directory.
    pub fn advance(self, event: DirectoryEvent) -> (next: DirectoryState)
        ensures
            next == directory_next(self, event),
    {
        match (self, event) {
            (DirectoryState::Look, DirectoryEvent::Found(FoundEntry::Directory)) =>
                DirectoryState::Resolve,
            (DirectoryState::Look, DirectoryEvent::Found(FoundEntry::Missing)) =>
                DirectoryState::Create,
            (DirectoryState::Create, DirectoryEvent::Created(CreateOutcome::Made)) =>
                DirectoryState::LookAgain,
            (DirectoryState::Create, DirectoryEvent::Created(CreateOutcome::AlreadyThere)) =>
                DirectoryState::LookAgain,
            (DirectoryState::LookAgain, DirectoryEvent::Found(FoundEntry::Directory)) =>
                DirectoryState::Resolve,
            (DirectoryState::Resolve, DirectoryEvent::Resolved(true)) => DirectoryState::Entered,
            (DirectoryState::Entered, _) => DirectoryState::Entered,
            _ => DirectoryState::Refused,
        }
    }
}

/// The state after some events.
pub open spec fn directory_after(events: Seq<DirectoryEvent>) -> DirectoryState
    decreases events.len(),
{
    if events.len() == 0 {
        DirectoryState::Look
    } else {
        directory_next(directory_after(events.drop_last()), events.last())
    }
}

/// A directory is entered only where a directory was seen, no link or other thing, and
/// where it really lies within the root.
pub proof fn entered_directories_lie_within_the_root(events: Seq<DirectoryEvent>)
    requires
        directory_after(events) == DirectoryState::Entered,
    ensures
        events.contains(DirectoryEvent::Found(FoundEntry::Directory)),
        events.contains(DirectoryEvent::Resolved(true)),
    decreases events.len(),
{
    let shorter = events.drop_last();
    let last = events.len() - 1;
    if directory_after(shorter) == DirectoryState::Entered {
        entered_directories_lie_within_the_root(shorter);
        let i = choose|i: int|
            0 <= i < shorter.len() && shorter[i] == DirectoryEvent::Found(FoundEntry::Directory);
        let j = choose|j: int|
            0 <= j < shorter.len() && shorter[j] == DirectoryEvent::Resolved(true);
        assert(events[i] == DirectoryEvent::Found(FoundEntry::Directory));
        assert(events[j] == DirectoryEvent::Resolved(true));
    } else {
        assert(events[last] == DirectoryEvent::Resolved(true));
        lemma_resolved_directories_were_seen(shorter);
        let i = choose|i: int|
            0 <= i < shorter.len() && shorter[i] == DirectoryEvent::Found(FoundEntry::Directory);
        assert(events[i] == DirectoryEvent::Found(FoundEntry::Directory));
    }
}

proof fn lemma_resolved_directories_were_seen(events: Seq<DirectoryEvent>)
    requires
        directory_after(events) == DirectoryState::Resolve,
    ensures
        events.contains(DirectoryEvent::Found(FoundEntry::Directory)),
{
    assert(events[events.len() - 1] == DirectoryEvent::Found(FoundEntry::Directory));
}

/// A step of a path that leads to a picture.
#[derive(Clone, Copy, Debug, PartialEq, Eq, Structural)]
pub enum UploadStep {
    /// Not a plain name.
    Special,
    Link,
    Plain,
    Missing,
    Unreadable,
}

/// Whether a path goes through a link; an error where it cannot be followed.
pub open spec fn link_verdict(steps: Seq<UploadStep>) -> Result<bool, DirectAssetUploadError>
    decreases steps.len(),
{
    if steps.len() == 0 {
        Ok(false)
    } else {
        match steps[0] {
            UploadStep::Special => Err(DirectAssetUploadError::StorageUnavailable),
            UploadStep::Link => Ok(true),
            UploadStep::Plain => link_verdict(steps.skip(1)),
            UploadStep::Missing => Ok(false),
            UploadStep::Unreadable => Err(DirectAssetUploadError::StorageUnavailable),
        }
    }
}

/// Whether a path goes through a link.
pub fn path_contains_symlink(steps: &Vec<UploadStep>) -> (result: Result<
    bool,
    DirectAssetUploadError,
>)
    ensures
        result == link_verdict(steps@),
{
    let mut i: usize = 0;
    assert(steps@.skip(0) =~= steps@);
    while i < steps.len()
        invariant
            i <= steps@.len(),
            link_verdict(steps@) == link_verdict(steps@.skip(i as int)),
        decreases steps@.len() - i,
    {
        assert(steps@.skip(i as int)[0] == steps@[i as int]);
        assert(steps@.skip(i as int).skip(1) =~= steps@.skip(i + 1));
        match steps[i] {
            UploadStep::Special => return Err(DirectAssetUploadError::StorageUnavailable),
            UploadStep::Link => return Ok(true),
            UploadStep::Plain => {},
            UploadStep::Missing => return Ok(false),
            UploadStep::Unreadable => return Err(DirectAssetUploadError::StorageUnavailable),
        }
        i = i + 1;
    }
    assert(steps@.skip(i as int).len() == 0);
    Ok(false)
}

/// Whether a picture may be written to a place: the path leads through no link, and a
/// file or nothing stands there.
pub fn check_destination(steps: &Vec<UploadStep>, found: FoundEntry) -> (result: Result<
    (),
    DirectAssetUploadError,
>)
    ensures
        upload_failure(result) == (if link_verdict(steps@) == Ok::<_, DirectAssetUploadError>(false)
            && (found == FoundEntry::File || found == FoundEntry::Missing) {
            None
        } else {
            Some(DirectAssetUploadError::StorageUnavailable)
        }),
{
    match path_contains_symlink(steps) {
        Ok(false) => {},
        _ => return Err(DirectAssetUploadError::StorageUnavailable),
    }
    match found {
        FoundEntry::File => Ok(()),
        FoundEntry::Missing => Ok(()),
        _ => Err(DirectAssetUploadError::StorageUnavailable),
    }
}

/// The name of the file that is written first, before it takes the place of a picture.
pub open spec fn temporary_file_name(file_name: Seq<char>, random: Seq<u8>) -> Seq<char> {
    "."@ + file_name + "."@ + text::hex(random) + ".upload"@
}

/// The name of the file that is written first.
pub fn temporary_name(file_name: &str, random: &Vec<u8>) -> (name: String)
    ensures
        name@ == temporary_file_name(file_name@, random@),
{
    cat5(".", file_name, ".", hex_text(random).as_str(), ".upload")
}

/// What to do after trying a name for the file that is written first.
#[derive(Clone, Copy, Debug, PartialEq, Eq, Structural)]
pub enum TemporaryStep {
    Write,
    TryAgain,
    Refuse,
}

/// Says what to do after trying a name: another name where this one was taken, but not
/// for ever.
pub fn after_try(outcome: CreateOutcome, tries: usize) -> (step: TemporaryStep)
    ensures
        step == (match outcome {
            CreateOutcome::Made => TemporaryStep::Write,
            CreateOutcome::AlreadyThere => if tries < TEMPORARY_TRIES {
                TemporaryStep::TryAgain
            } else {
                TemporaryStep::Refuse
            },
            CreateOutcome::Failed => TemporaryStep::Refuse,
        }),
{
    match outcome {
        CreateOutcome::Made => TemporaryStep::Write,
        CreateOutcome::AlreadyThere => if tries < TEMPORARY_TRIES {
            TemporaryStep::TryAgain
        } else {
            TemporaryStep::Refuse
        },
        CreateOutcome::Failed => TemporaryStep::Refuse,
    }
}

} // verus!
