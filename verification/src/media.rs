//! The index of a directory of published pictures.
//!
//! A picture is found by its key, which is its path below the directory, and by the
//! digest of its contents.
use crate::assets;
use crate::assets::allowed_extension;
use crate::config;
use crate::config::is_safe_asset_key;
use crate::keyed;
use crate::outside;
use crate::outside::sha256;
use crate::seen;
use crate::signature;
use crate::text;
use crate::text::{blank, comes_first, hex_text, join, same, to_lower};
use vstd::prelude::*;
use vstd::string::*;

verus! {

/// The address on which the service listens where none is given.
pub const DEFAULT_BIND: &'static str = "127.0.0.1:18182";

/// The largest picture that is published, in bytes.
pub const MAX_ASSET_SIZE: u64 = 20971520;

/// How many characters a digest has.
pub const HASH_LENGTH: usize = 64;

/// Why the service does not start.
#[derive(Clone, Copy, Debug, PartialEq, Eq, Structural)]
pub enum MediaError {
    MissingRoot,
    InvalidBind,
    RootUnavailable,
    RootNotDirectory,
    IndexUnavailable,
    InvalidCatalog,
    CatalogUnavailable,
    BindUnavailable,
    ServerUnavailable,
}

/// Why the service does not start, in words.
pub open spec fn media_error_text(error: MediaError) -> Seq<char> {
    match error {
        MediaError::MissingRoot => "DOULUO_MEDIA_ROOT is required"@,
        MediaError::InvalidBind => "DOULUO_MEDIA_BIND must be a valid socket address"@,
        MediaError::RootUnavailable => "media root is unavailable"@,
        MediaError::RootNotDirectory => "media root is not a directory"@,
        MediaError::IndexUnavailable => "media index could not be built"@,
        MediaError::InvalidCatalog => "DOULUO_MEDIA_CATALOG must not be empty"@,
        MediaError::CatalogUnavailable => "media catalog is unavailable or inconsistent"@,
        MediaError::BindUnavailable => "media listener could not bind"@,
        MediaError::ServerUnavailable => "media server stopped unexpectedly"@,
    }
}

impl MediaError {
    /// The error in words.
    pub fn message(self) -> (message: &'static str)
        ensures
            message@ == media_error_text(self),
    {
        match self {
            MediaError::MissingRoot => "DOULUO_MEDIA_ROOT is required",
            MediaError::InvalidBind => "DOULUO_MEDIA_BIND must be a valid socket address",
            MediaError::RootUnavailable => "media root is unavailable",
            MediaError::RootNotDirectory => "media root is not a directory",
            MediaError::IndexUnavailable => "media index could not be built",
            MediaError::InvalidCatalog => "DOULUO_MEDIA_CATALOG must not be empty",
            MediaError::CatalogUnavailable => "media catalog is unavailable or inconsistent",
            MediaError::BindUnavailable => "media listener could not bind",
            MediaError::ServerUnavailable => "media server stopped unexpectedly",
        }
    }
}

/// A text of the environment or of a request.
#[derive(Clone, Debug, PartialEq, Eq)]
pub enum Given {
    /// Nothing is given.
    Absent,
    /// Something is given that is not text.
    Unreadable,
    Text(String),
}

/// The mathematical form of a given text.
pub enum GivenText {
    Absent,
    Unreadable,
    Text(Seq<char>),
}

impl View for Given {
    type V = GivenText;

    open spec fn view(&self) -> GivenText {
        match self {
            Given::Absent => GivenText::Absent,
            Given::Unreadable => GivenText::Unreadable,
            Given::Text(text) => GivenText::Text(text@),
        }
    }
}

/// The address that the environment asks for.
pub fn bind_setting(value: Given) -> (result: Result<String, MediaError>)
    ensures
        match value@ {
            GivenText::Absent => result matches Ok(bind) && bind@ == DEFAULT_BIND@,
            GivenText::Unreadable => result == Err::<String, MediaError>(MediaError::InvalidBind),
            GivenText::Text(given) => if text::is_blank(given) {
                result == Err::<String, MediaError>(MediaError::InvalidBind)
            } else {
                result matches Ok(bind) && bind@ == given
            },
        },
{
    match value {
        Given::Absent => Ok(DEFAULT_BIND.to_owned()),
        Given::Unreadable => Err(MediaError::InvalidBind),
        Given::Text(bind) => if blank(&bind) {
            Err(MediaError::InvalidBind)
        } else {
            Ok(bind)
        },
    }
}

/// What the environment says about a path.
#[derive(Clone, Copy, Debug, PartialEq, Eq, Structural)]
pub enum PathSetting {
    Absent,
    Empty,
    Given,
}

/// Whether the catalogue has a path of its own, once the address is known to be valid
/// or not and the directory is given.
pub fn check_settings(bind_valid: bool, root: PathSetting, catalog: PathSetting) -> (result: Result<
    bool,
    MediaError,
>)
    ensures
        result == (if !bind_valid {
            Err(MediaError::InvalidBind)
        } else if root != PathSetting::Given {
            Err(MediaError::MissingRoot)
        } else {
            match catalog {
                PathSetting::Empty => Err(MediaError::InvalidCatalog),
                PathSetting::Given => Ok(true),
                PathSetting::Absent => Ok(false),
            }
        }),
{
    if !bind_valid {
        return Err(MediaError::InvalidBind);
    }
    if root != PathSetting::Given {
        return Err(MediaError::MissingRoot);
    }
    match catalog {
        PathSetting::Empty => Err(MediaError::InvalidCatalog),
        PathSetting::Given => Ok(true),
        PathSetting::Absent => Ok(false),
    }
}

/// A moment after the start of 1970.
#[derive(Clone, Copy, Debug, PartialEq, Eq, Structural)]
pub struct Moment {
    pub seconds: u64,
    pub nanoseconds: u32,
}

/// The type of the contents of a picture file.
pub open spec fn mime_of_extension(extension: Seq<char>) -> Option<Seq<char>> {
    if extension == "png"@ {
        Some("image/png"@)
    } else if extension == "jpg"@ || extension == "jpeg"@ {
        Some("image/jpeg"@)
    } else if extension == "webp"@ {
        Some("image/webp"@)
    } else if extension == "gif"@ {
        Some("image/gif"@)
    } else if extension == "bmp"@ {
        Some("image/bmp"@)
    } else {
        None
    }
}

/// A type, as a mathematical value.
pub open spec fn optional_mime(mime: Option<&'static str>) -> Option<Seq<char>> {
    match mime {
        Some(mime) => Some(mime@),
        None => None,
    }
}

/// The type of the contents that an extension stands for.
pub fn mime_for_extension(extension: &str) -> (mime: Option<&'static str>)
    ensures
        optional_mime(mime) == mime_of_extension(extension@),
{
    if same(extension, "png") {
        Some("image/png")
    } else if same(extension, "jpg") || same(extension, "jpeg") {
        Some("image/jpeg")
    } else if same(extension, "webp") {
        Some("image/webp")
    } else if same(extension, "gif") {
        Some("image/gif")
    } else if same(extension, "bmp") {
        Some("image/bmp")
    } else {
        None
    }
}

/// The type of some contents, by their first bytes.
pub open spec fn mime_of_bytes(bytes: Seq<u8>) -> Option<Seq<char>> {
    if signature::is_png(bytes) {
        Some("image/png"@)
    } else if signature::is_jpeg(bytes) {
        Some("image/jpeg"@)
    } else if signature::is_webp(bytes) {
        Some("image/webp"@)
    } else if signature::is_gif(bytes) {
        Some("image/gif"@)
    } else if signature::is_bmp(bytes) {
        Some("image/bmp"@)
    } else {
        None
    }
}

/// The type of some contents, by their first bytes; the name of the file plays no part.
pub fn detect_image_mime_bytes(header: &[u8]) -> (mime: Option<&'static str>)
    ensures
        optional_mime(mime) == mime_of_bytes(header@),
{
    if signature::png(header) {
        Some("image/png")
    } else if signature::jpeg(header) {
        Some("image/jpeg")
    } else if signature::webp(header) {
        Some("image/webp")
    } else if signature::gif(header) {
        Some("image/gif")
    } else if signature::bmp(header) {
        Some("image/bmp")
    } else {
        None
    }
}

/// The digest of some bytes, in words: the SHA-256 digest, two digits a byte.
pub fn sha256_hex(bytes: &[u8]) -> (digest: String)
    ensures
        digest@ == text::hex(outside::sha256_digest(bytes@)),
        is_digest(digest@),
{
    let digest = sha256(bytes);
    proof {
        text::hex_has_two_digits_a_byte(digest@);
        text::hex_is_hexadecimal(digest@);
    }
    hex_text(&digest)
}

/// A picture of the index.
pub struct AssetMeta {
    asset_key: String,
    sha256: String,
    mime: &'static str,
    extension: String,
    size: u64,
    modified: Moment,
}

/// The mathematical form of a picture of the index.
pub struct Asset {
    pub asset_key: Seq<char>,
    pub sha256: Seq<char>,
    pub mime: Seq<char>,
    pub extension: Seq<char>,
    pub size: u64,
    pub modified: Moment,
}

impl View for AssetMeta {
    type V = Asset;

    closed spec fn view(&self) -> Asset {
        Asset {
            asset_key: self.asset_key@,
            sha256: self.sha256@,
            mime: self.mime@,
            extension: self.extension@,
            size: self.size,
            modified: self.modified,
        }
    }
}

/// A digest in words.
pub open spec fn is_digest(value: Seq<char>) -> bool {
    &&& value.len() == HASH_LENGTH
    &&& forall|i: int| 0 <= i < value.len() ==> text::is_hex_char(#[trigger] value[i])
}

/// What holds of every picture of an index.
pub open spec fn asset_ok(asset: Asset) -> bool {
    &&& config::is_asset_key(asset.asset_key)
    &&& is_digest(asset.sha256)
    &&& assets::is_picture_extension(asset.extension)
    &&& mime_of_extension(asset.extension) == Some(asset.mime)
    &&& asset.size <= MAX_ASSET_SIZE
}

impl AssetMeta {
    #[verifier::type_invariant]
    spec fn keeps_the_rules(self) -> bool {
        asset_ok(self@)
    }

    /// The key of the picture: its path below the directory.
    pub fn asset_key(&self) -> (key: &str)
        ensures
            key@ == self@.asset_key,
            config::is_asset_key(key@),
    {
        proof {
            use_type_invariant(self);
        }
        self.asset_key.as_str()
    }

    /// The digest of the contents.
    pub fn sha256(&self) -> (digest: &str)
        ensures
            digest@ == self@.sha256,
            is_digest(digest@),
    {
        proof {
            use_type_invariant(self);
        }
        self.sha256.as_str()
    }

    /// The type of the contents.
    pub fn mime(&self) -> (mime: &'static str)
        ensures
            mime@ == self@.mime,
            mime_of_extension(self@.extension) == Some(mime@),
    {
        proof {
            use_type_invariant(self);
        }
        self.mime
    }

    /// The extension of the file, in small letters.
    pub fn extension(&self) -> (extension: &str)
        ensures
            extension@ == self@.extension,
            assets::is_picture_extension(extension@),
    {
        proof {
            use_type_invariant(self);
        }
        self.extension.as_str()
    }

    /// The size of the file, in bytes.
    pub fn size(&self) -> (size: u64)
        ensures
            size == self@.size,
            size <= MAX_ASSET_SIZE,
    {
        proof {
            use_type_invariant(self);
        }
        self.size
    }

    /// When the file was last changed.
    pub fn modified(&self) -> (moment: Moment)
        ensures
            moment == self@.modified,
    {
        self.modified
    }

    /// The same picture once more.
    pub fn duplicate(&self) -> (copy: AssetMeta)
        ensures
            copy@ == self@,
    {
        proof {
            use_type_invariant(self);
        }
        AssetMeta {
            asset_key: self.asset_key.as_str().to_owned(),
            sha256: self.sha256.as_str().to_owned(),
            mime: self.mime,
            extension: self.extension.as_str().to_owned(),
            size: self.size,
            modified: self.modified,
        }
    }
}

/// The key that the parts of a relative path make, where they make one.
pub open spec fn key_of_parts(parts: Option<Seq<Seq<char>>>) -> Option<Seq<char>> {
    match parts {
        Some(parts) => if config::is_asset_key(text::joined(parts, "/"@)) {
            Some(text::joined(parts, "/"@))
        } else {
            None
        },
        None => None,
    }
}

/// The parts of a relative path, as a mathematical value.
pub open spec fn optional_texts(parts: Option<Vec<String>>) -> Option<Seq<Seq<char>>> {
    match parts {
        Some(parts) => Some(text::texts(parts@)),
        None => None,
    }
}

/// The key that the parts of a relative path make: none where a part is not a plain
/// name in Unicode, or where they make no safe key.
pub fn relative_asset_key(parts: &Option<Vec<String>>) -> (key: Option<String>)
    ensures
        text::optional_text(key) == key_of_parts(optional_texts(*parts)),
{
    match parts {
        Some(parts) => {
            let key = join(parts, "/");
            if is_safe_asset_key(&key) {
                Some(key)
            } else {
                None
            }
        },
        None => None,
    }
}

/// Whether an entry of a directory is looked into: a file, or a link to one, of a
/// bounded size.
pub fn wants_file(is_file: bool, listed_as_file: bool, listed_as_link: bool, size: u64) -> (answer:
    bool)
    ensures
        answer == (is_file && (listed_as_file || listed_as_link) && size <= MAX_ASSET_SIZE),
{
    is_file && (listed_as_file || listed_as_link) && size <= MAX_ASSET_SIZE
}

/// The picture that a file is listed as, given the digest of its bytes; none where its
/// path makes no key, its extension is not that of a picture, its first bytes are not
/// those of its extension, or its size has changed since it was looked up.
pub open spec fn listed_asset(
    parts: Option<Seq<Seq<char>>>,
    file_name: Seq<char>,
    size: u64,
    bytes: Seq<u8>,
    digest: Seq<u8>,
    modified: Moment,
) -> Option<Asset> {
    let key = key_of_parts(parts);
    let extension = assets::picture_extension(file_name);
    if key is Some && extension is Some && size <= MAX_ASSET_SIZE && mime_of_bytes(bytes) is Some
        && mime_of_extension(extension->0) == mime_of_bytes(bytes) && bytes.len() == size {
        Some(
            Asset {
                asset_key: key->0,
                sha256: text::hex(digest),
                mime: mime_of_bytes(bytes)->0,
                extension: extension->0,
                size,
                modified,
            },
        )
    } else {
        None
    }
}

/// A picture, as a mathematical value.
pub open spec fn optional_asset(asset: Option<AssetMeta>) -> Option<Asset> {
    match asset {
        Some(asset) => Some(asset@),
        None => None,
    }
}

/// Lists a file whose bytes have this digest.
pub fn list_file(
    parts: &Option<Vec<String>>,
    file_name: &str,
    size: u64,
    bytes: &[u8],
    digest: &Vec<u8>,
    modified: Moment,
) -> (asset: Option<AssetMeta>)
    requires
        digest@.len() == 32,
    ensures
        optional_asset(asset) == listed_asset(
            optional_texts(*parts),
            file_name@,
            size,
            bytes@,
            digest@,
            modified,
        ),
{
    if size > MAX_ASSET_SIZE {
        return None;
    }
    let asset_key = match relative_asset_key(parts) {
        Some(key) => key,
        None => return None,
    };
    let extension = match allowed_extension(file_name) {
        Some(extension) => extension,
        None => return None,
    };
    let mime = match detect_image_mime_bytes(bytes) {
        Some(mime) => mime,
        None => return None,
    };
    match mime_for_extension(&extension) {
        Some(expected) => if !same(expected, mime) {
            return None;
        },
        None => return None,
    }
    if bytes.len() as u64 != size {
        return None;
    }
    proof {
        text::hex_has_two_digits_a_byte(digest@);
        text::hex_is_hexadecimal(digest@);
    }
    Some(AssetMeta { asset_key, sha256: hex_text(digest), mime, extension, size, modified })
}

/// Lists a file with the SHA-256 digest of its bytes.
pub fn index_file(
    parts: &Option<Vec<String>>,
    file_name: &str,
    size: u64,
    bytes: &[u8],
    modified: Moment,
) -> (asset: Option<AssetMeta>)
    ensures
        optional_asset(asset) == listed_asset(
            optional_texts(*parts),
            file_name@,
            size,
            bytes@,
            outside::sha256_digest(bytes@),
            modified,
        ),
{
    let digest = sha256(bytes);
    list_file(parts, file_name, size, bytes, &digest, modified)
}

/// An index of pictures, made once and not changed while the service runs.
pub struct MediaIndex {
    by_key: Vec<AssetMeta>,
    by_hash: Vec<AssetMeta>,
}

/// The mathematical form of an index.
pub struct Index {
    pub by_key: Map<Seq<char>, Asset>,
    pub by_hash: Map<(Seq<char>, Seq<char>), Asset>,
}

/// The pictures of a list by their keys.
pub open spec fn key_pairs(list: Seq<AssetMeta>) -> Seq<(Seq<char>, Asset)> {
    Seq::new(list.len(), |i: int| (list[i]@.asset_key, list[i]@))
}

/// The pictures of a list by digest and extension.
pub open spec fn hash_pairs(list: Seq<AssetMeta>) -> Seq<((Seq<char>, Seq<char>), Asset)> {
    Seq::new(list.len(), |i: int| ((list[i]@.sha256, list[i]@.extension), list[i]@))
}

impl View for MediaIndex {
    type V = Index;

    closed spec fn view(&self) -> Index {
        Index {
            by_key: keyed::map_of(key_pairs(self.by_key@)),
            by_hash: keyed::map_of(hash_pairs(self.by_hash@)),
        }
    }
}

impl Index {
    /// Whether every picture stands under its own key, or its own digest and extension,
    /// whether for every picture under a key there is one under its digest, and whether
    /// for every picture under a digest there is one under its key.
    pub open spec fn is_linked(self) -> bool {
        &&& forall|key: Seq<char>| #[trigger]
            self.by_key.contains_key(key) ==> self.by_key[key].asset_key == key
        &&& forall|sha256: Seq<char>, extension: Seq<char>| #[trigger]
            self.by_hash.contains_key((sha256, extension)) ==> self.by_hash[(
                sha256,
                extension,
            )].sha256 == sha256 && self.by_hash[(sha256, extension)].extension == extension
        &&& forall|key: Seq<char>| #[trigger]
            self.by_key.contains_key(key) ==> self.by_hash.contains_key(
                (self.by_key[key].sha256, self.by_key[key].extension),
            )
        &&& forall|hash: (Seq<char>, Seq<char>)| #[trigger]
            self.by_hash.contains_key(hash) ==> self.by_key.contains_key(
                self.by_hash[hash].asset_key,
            )
    }

    /// Whether every picture under a digest is the one under its key.
    pub open spec fn is_consistent(self) -> bool {
        forall|hash: (Seq<char>, Seq<char>)| #[trigger]
            self.by_hash.contains_key(hash) ==> self.by_key.contains_pair(
                self.by_hash[hash].asset_key,
                self.by_hash[hash],
            )
    }

    /// The index with one more picture. Under its key it takes the place of another;
    /// under its digest the first one stays.
    pub open spec fn with(self, asset: Asset) -> Index {
        Index {
            by_key: self.by_key.insert(asset.asset_key, asset),
            by_hash: if self.by_hash.contains_key((asset.sha256, asset.extension)) {
                self.by_hash
            } else {
                self.by_hash.insert((asset.sha256, asset.extension), asset)
            },
        }
    }
}

impl MediaIndex {
    #[verifier::type_invariant]
    spec fn keys_are_distinct(self) -> bool {
        &&& seen::distinct(keyed::keys(key_pairs(self.by_key@)))
        &&& seen::distinct(keyed::keys(hash_pairs(self.by_hash@)))
        &&& self@.is_linked()
    }

    /// An index without pictures.
    pub fn new() -> (index: Self)
        ensures
            index@ == (Index { by_key: Map::empty(), by_hash: Map::empty() }),
    {
        let (by_key, by_hash): (Vec<AssetMeta>, Vec<AssetMeta>) = (Vec::new(), Vec::new());
        proof {
            keyed::pairs_are_the_map(key_pairs(by_key@));
            keyed::pairs_are_the_map(hash_pairs(by_hash@));
            assert(keyed::map_of(key_pairs(by_key@)) =~= Map::empty());
            assert(keyed::map_of(hash_pairs(by_hash@)) =~= Map::empty());
        }
        MediaIndex { by_key, by_hash }
    }

    fn key_position(&self, asset_key: &str) -> (at: usize)
        ensures
            at <= self.by_key@.len(),
            at < self.by_key@.len() ==> self.by_key@[at as int]@.asset_key == asset_key@,
            at == self.by_key@.len() ==> !keyed::keys(key_pairs(self.by_key@)).contains(asset_key@),
    {
        let ghost keys = keyed::keys(key_pairs(self.by_key@));
        let mut i: usize = 0;
        while i < self.by_key.len()
            invariant
                i <= self.by_key@.len(),
                keys == keyed::keys(key_pairs(self.by_key@)),
                forall|j: int| 0 <= j < i ==> #[trigger] keys[j] != asset_key@,
            decreases self.by_key@.len() - i,
        {
            if same(self.by_key[i].asset_key(), asset_key) {
                return i;
            }
            assert(keys[i as int] == self.by_key@[i as int]@.asset_key);
            i = i + 1;
        }
        i
    }

    fn hash_position(&self, sha256: &str, extension: &str) -> (at: usize)
        ensures
            at <= self.by_hash@.len(),
            at < self.by_hash@.len() ==> self.by_hash@[at as int]@.sha256 == sha256@
                && self.by_hash@[at as int]@.extension == extension@,
            at == self.by_hash@.len() ==> !keyed::keys(hash_pairs(self.by_hash@)).contains(
                (sha256@, extension@),
            ),
    {
        let ghost keys = keyed::keys(hash_pairs(self.by_hash@));
        let mut i: usize = 0;
        while i < self.by_hash.len()
            invariant
                i <= self.by_hash@.len(),
                keys == keyed::keys(hash_pairs(self.by_hash@)),
                forall|j: int| 0 <= j < i ==> #[trigger] keys[j] != (sha256@, extension@),
            decreases self.by_hash@.len() - i,
        {
            if same(self.by_hash[i].sha256(), sha256) && same(
                self.by_hash[i].extension(),
                extension,
            ) {
                return i;
            }
            assert(keys[i as int] == (
                self.by_hash@[i as int]@.sha256,
                self.by_hash@[i as int]@.extension,
            ));
            i = i + 1;
        }
        i
    }

    /// The index with one more picture.
    pub fn with(self, asset: AssetMeta) -> (index: Self)
        ensures
            index@ == self@.with(asset@),
            index@.is_linked(),
    {
        proof {
            use_type_invariant(&self);
            keyed::pairs_are_the_map(hash_pairs(self.by_hash@));
        }
        let at = self.key_position(asset.asset_key());
        let same_hash = self.hash_position(asset.sha256(), asset.extension());
        let ghost before = self;
        let ghost value = asset@;
        let MediaIndex { mut by_key, mut by_hash } = self;
        if same_hash == by_hash.len() {
            by_hash.push(asset.duplicate());
            proof {
                let key = (value.sha256, value.extension);
                assert(hash_pairs(by_hash@) =~= hash_pairs(before.by_hash@).push((key, value)));
                keyed::adding_is_inserting(hash_pairs(before.by_hash@), key, value);
            }
        } else {
            assert(before@.by_hash.contains_pair(
                hash_pairs(before.by_hash@)[same_hash as int].0,
                hash_pairs(before.by_hash@)[same_hash as int].1,
            ));
        }
        if at < by_key.len() {
            by_key.set(at, asset);
            proof {
                keyed::replacing_is_inserting(key_pairs(before.by_key@), at as int, value);
                assert(key_pairs(by_key@) =~= key_pairs(before.by_key@).update(
                    at as int,
                    (value.asset_key, value),
                ));
            }
        } else {
            by_key.push(asset);
            proof {
                assert(key_pairs(by_key@) =~= key_pairs(before.by_key@).push(
                    (value.asset_key, value),
                ));
                keyed::adding_is_inserting(key_pairs(before.by_key@), value.asset_key, value);
            }
        }
        proof {
            what_is_taken_in_is_found(before@, value);
            assert(keyed::map_of(key_pairs(by_key@)) == before@.with(value).by_key);
            assert(keyed::map_of(hash_pairs(by_hash@)) == before@.with(value).by_hash);
        }
        MediaIndex { by_key, by_hash }
    }

    /// The picture under a key.
    pub fn get(&self, asset_key: &str) -> (asset: Option<&AssetMeta>)
        ensures
            match asset {
                Some(asset) => self@.by_key.contains_pair(asset_key@, asset@) && asset@.asset_key
                    == asset_key@ && self@.by_hash.contains_key((asset@.sha256, asset@.extension)),
                None => !self@.by_key.contains_key(asset_key@),
            },
    {
        proof {
            use_type_invariant(self);
            keyed::pairs_are_the_map(key_pairs(self.by_key@));
        }
        let at = self.key_position(asset_key);
        if at == self.by_key.len() {
            return None;
        }
        assert(self@.by_key.contains_pair(
            key_pairs(self.by_key@)[at as int].0,
            key_pairs(self.by_key@)[at as int].1,
        ));
        Some(&self.by_key[at])
    }

    /// The picture with a digest and an extension, in whatever letters they are written.
    pub fn get_by_hash(&self, sha256: &str, extension: &str) -> (asset: Option<&AssetMeta>)
        ensures
            match asset {
                Some(asset) => self@.by_hash.contains_pair(
                    (text::lowered(sha256@), text::lowered(extension@)),
                    asset@,
                ) && asset@.sha256 == text::lowered(sha256@) && asset@.extension == text::lowered(
                    extension@,
                ) && self@.by_key.contains_key(asset@.asset_key),
                None => !self@.by_hash.contains_key(
                    (text::lowered(sha256@), text::lowered(extension@)),
                ),
            },
    {
        proof {
            use_type_invariant(self);
            keyed::pairs_are_the_map(hash_pairs(self.by_hash@));
        }
        let sha256 = to_lower(sha256);
        let extension = to_lower(extension);
        let at = self.hash_position(&sha256, &extension);
        if at == self.by_hash.len() {
            return None;
        }
        assert(self@.by_hash.contains_pair(
            hash_pairs(self.by_hash@)[at as int].0,
            hash_pairs(self.by_hash@)[at as int].1,
        ));
        Some(&self.by_hash[at])
    }

    /// How many pictures there are.
    pub fn len(&self) -> (count: usize)
        ensures
            count == self@.by_key.len(),
            self@.by_key.dom().finite(),
    {
        proof {
            use_type_invariant(self);
            keyed::pairs_are_the_map(key_pairs(self.by_key@));
        }
        self.by_key.len()
    }

    /// Whether there is no picture.
    pub fn is_empty(&self) -> (answer: bool)
        ensures
            answer == (self@.by_key.len() == 0),
            self@.by_key.dom().finite(),
    {
        self.len() == 0
    }

    /// All pictures, in the order of their keys.
    pub fn assets(&self) -> (list: Vec<&AssetMeta>)
        ensures
            is_listing(asset_views(list@), self@.by_key),
            asset_views(list@) == listing(self@.by_key),
    {
        let ghost pairs = key_pairs(self.by_key@);
        proof {
            use_type_invariant(self);
            keyed::pairs_are_the_map(pairs);
        }
        let mut list: Vec<&AssetMeta> = Vec::new();
        let mut i: usize = 0;
        while i < self.by_key.len()
            invariant
                i <= self.by_key@.len(),
                pairs == key_pairs(self.by_key@),
                seen::distinct(keyed::keys(pairs)),
                list@.len() == i,
                in_key_order(asset_views(list@)),
                forall|j: int|
                    0 <= j < i ==> is_among(pairs.take(i as int), #[trigger] asset_views(list@)[j]),
                forall|k: int| 0 <= k < i ==> lists(asset_views(list@), (#[trigger] pairs[k]).0),
            decreases self.by_key@.len() - i,
        {
            let asset = &self.by_key[i];
            let ghost views = asset_views(list@);
            assert forall|j: int| 0 <= j < views.len() implies (#[trigger] views[j]).asset_key
                != asset@.asset_key by {
                assert(is_among(pairs.take(i as int), views[j]));
                let k = choose|k: int| 0 <= k < i && (#[trigger] pairs.take(i as int)[k]).1
                    == views[j];
                assert(keyed::keys(pairs)[k] != keyed::keys(pairs)[i as int]);
            }
            let at = insert_position(&list, asset);
            list.insert(at, asset);
            proof {
                assert(asset_views(list@) =~= views.insert(at as int, asset@));
                lemma_inserted_in_order(views, at as int, asset@);
                assert forall|k: int| 0 <= k < i + 1 implies lists(
                    asset_views(list@),
                    (#[trigger] pairs[k]).0,
                ) by {
                    if k == i {
                        assert(asset_views(list@)[at as int].asset_key == pairs[k].0);
                    } else {
                        let j = choose|j: int| 0 <= j < views.len() && (#[trigger] views[j]).asset_key
                            == pairs[k].0;
                        let m = if j < at {
                            j
                        } else {
                            j + 1
                        };
                        assert(asset_views(list@)[m] == views[j]);
                    }
                }
                assert forall|j: int| 0 <= j < i + 1 implies is_among(
                    pairs.take(i + 1),
                    #[trigger] asset_views(list@)[j],
                ) by {
                    if j == at {
                        assert(pairs.take(i + 1)[i as int].1 == asset_views(list@)[j]);
                    } else {
                        let m = if j < at {
                            j
                        } else {
                            j - 1
                        };
                        assert(asset_views(list@)[j] == views[m]);
                        assert(is_among(pairs.take(i as int), views[m]));
                        let k = choose|k: int| 0 <= k < i && (#[trigger] pairs.take(
                            i as int,
                        )[k]).1 == views[m];
                        assert(pairs.take(i + 1)[k].1 == views[m]);
                    }
                }
            }
            i = i + 1;
        }
        assert forall|j: int| 0 <= j < list@.len() implies self@.by_key.contains_pair(
            (#[trigger] asset_views(list@)[j]).asset_key,
            asset_views(list@)[j],
        ) by {
            assert(is_among(pairs.take(i as int), asset_views(list@)[j]));
            let k = choose|k: int| 0 <= k < i && (#[trigger] pairs.take(i as int)[k]).1
                == asset_views(list@)[j];
            assert(self@.by_key.contains_pair(pairs[k].0, pairs[k].1));
        }
        assert forall|key: Seq<char>| #[trigger] self@.by_key.contains_key(key) implies lists(
            asset_views(list@),
            key,
        ) by {
            let k = choose|k: int| 0 <= k < pairs.len() && keyed::keys(pairs)[k] == key;
            assert(pairs[k].0 == key);
        }
        proof {
            a_listing_is_unique(asset_views(list@), listing(self@.by_key), self@.by_key);
        }
        list
    }
}

/// The contents of a list of pictures.
pub open spec fn asset_views(list: Seq<&AssetMeta>) -> Seq<Asset> {
    Seq::new(list.len(), |i: int| list[i]@)
}

spec fn is_among(pairs: Seq<(Seq<char>, Asset)>, asset: Asset) -> bool {
    exists|k: int| 0 <= k < pairs.len() && (#[trigger] pairs[k]).1 == asset
}

/// Whether a list of pictures is in the order of the keys, no key twice.
pub open spec fn in_key_order(list: Seq<Asset>) -> bool {
    forall|i: int, j: int|
        0 <= i < j < list.len() ==> text::before(
            (#[trigger] list[i]).asset_key,
            (#[trigger] list[j]).asset_key,
        )
}

/// Whether a list holds a picture with a key.
pub open spec fn lists(list: Seq<Asset>, key: Seq<char>) -> bool {
    exists|i: int| 0 <= i < list.len() && (#[trigger] list[i]).asset_key == key
}

/// Whether a list holds all pictures under their keys, in the order of the keys.
pub open spec fn is_listing(list: Seq<Asset>, by_key: Map<Seq<char>, Asset>) -> bool {
    &&& by_key.dom().finite()
    &&& list.len() == by_key.len()
    &&& in_key_order(list)
    &&& forall|i: int|
        0 <= i < list.len() ==> by_key.contains_pair((#[trigger] list[i]).asset_key, list[i])
    &&& forall|key: Seq<char>| #[trigger] by_key.contains_key(key) ==> lists(list, key)
}

/// All pictures in the order of their keys.
pub open spec fn listing(by_key: Map<Seq<char>, Asset>) -> Seq<Asset> {
    choose|list: Seq<Asset>| is_listing(list, by_key)
}

/// There is only one such list.
pub proof fn a_listing_is_unique(
    first: Seq<Asset>,
    second: Seq<Asset>,
    by_key: Map<Seq<char>, Asset>,
)
    requires
        is_listing(first, by_key),
        is_listing(second, by_key),
    ensures
        first == second,
{
    assert forall|k: int| 0 <= k < first.len() implies #[trigger] first[k] == second[k] by {
        lemma_same_at(first, second, by_key, k);
    }
    assert(first =~= second);
}

proof fn lemma_same_at(
    first: Seq<Asset>,
    second: Seq<Asset>,
    by_key: Map<Seq<char>, Asset>,
    k: int,
)
    requires
        is_listing(first, by_key),
        is_listing(second, by_key),
        0 <= k < first.len(),
    ensures
        first[k] == second[k],
    decreases k,
{
    assert forall|j: int| 0 <= j < k implies #[trigger] first[j] == second[j] by {
        lemma_same_at(first, second, by_key, j);
    }
    let a = first[k].asset_key;
    let b = second[k].asset_key;
    assert(by_key.contains_pair(a, first[k]));
    assert(by_key.contains_pair(b, second[k]));
    assert(lists(second, a));
    assert(lists(first, b));
    let p = choose|p: int| 0 <= p < second.len() && (#[trigger] second[p]).asset_key == a;
    let q = choose|q: int| 0 <= q < first.len() && (#[trigger] first[q]).asset_key == b;
    text::one_text_comes_first(a, a);
    text::one_text_comes_first(b, b);
    if p < k {
        assert(text::before(first[p].asset_key, first[k].asset_key));
        assert(first[p] == second[p]);
    }
    if q < k {
        assert(text::before(second[q].asset_key, second[k].asset_key));
        assert(first[q] == second[q]);
    }
    if a != b {
        assert(p > k && q > k);
        assert(text::before(second[k].asset_key, second[p].asset_key));
        assert(text::before(first[k].asset_key, first[q].asset_key));
        text::one_text_comes_first(a, b);
    }
}

fn insert_position(list: &Vec<&AssetMeta>, asset: &AssetMeta) -> (at: usize)
    requires
        in_key_order(asset_views(list@)),
        forall|j: int|
            0 <= j < list@.len() ==> (#[trigger] asset_views(list@)[j]).asset_key
                != asset@.asset_key,
    ensures
        at <= list@.len(),
        forall|j: int|
            0 <= j < at ==> text::before(
                (#[trigger] asset_views(list@)[j]).asset_key,
                asset@.asset_key,
            ),
        forall|j: int|
            at <= j < list@.len() ==> text::before(
                asset@.asset_key,
                (#[trigger] asset_views(list@)[j]).asset_key,
            ),
{
    let ghost views = asset_views(list@);
    let mut at: usize = 0;
    while at < list.len()
        invariant
            at <= list@.len(),
            views == asset_views(list@),
            in_key_order(views),
            forall|j: int|
                0 <= j < list@.len() ==> (#[trigger] views[j]).asset_key != asset@.asset_key,
            forall|j: int|
                0 <= j < at ==> text::before((#[trigger] views[j]).asset_key, asset@.asset_key),
        decreases list@.len() - at,
    {
        assert(views[at as int] == list@[at as int]@);
        if comes_first(asset.asset_key(), list[at].asset_key()) {
            assert forall|j: int| at <= j < list@.len() implies text::before(
                asset@.asset_key,
                (#[trigger] views[j]).asset_key,
            ) by {
                if j > at {
                    text::coming_first_is_transitive(
                        asset@.asset_key,
                        views[at as int].asset_key,
                        views[j].asset_key,
                    );
                }
            }
            return at;
        }
        proof {
            text::one_text_comes_first(asset@.asset_key, views[at as int].asset_key);
        }
        at = at + 1;
    }
    at
}

proof fn lemma_inserted_in_order(list: Seq<Asset>, at: int, asset: Asset)
    requires
        in_key_order(list),
        0 <= at <= list.len(),
        forall|j: int|
            0 <= j < at ==> text::before((#[trigger] list[j]).asset_key, asset.asset_key),
        forall|j: int|
            at <= j < list.len() ==> text::before(
                asset.asset_key,
                (#[trigger] list[j]).asset_key,
            ),
    ensures
        in_key_order(list.insert(at, asset)),
{
    let longer = list.insert(at, asset);
    assert forall|i: int, j: int| 0 <= i < j < longer.len() implies text::before(
        (#[trigger] longer[i]).asset_key,
        (#[trigger] longer[j]).asset_key,
    ) by {
        let a = if i < at {
            i
        } else {
            i - 1
        };
        let b = if j < at {
            j
        } else {
            j - 1
        };
        if i != at {
            assert(longer[i] == list[a]);
        }
        if j != at {
            assert(longer[j] == list[b]);
        }
    }
}

/// What the file system says about an entry of a directory; `None` where the question
/// could not be answered.
#[derive(Clone, Copy, Debug, PartialEq, Eq)]
pub struct EntryFacts {
    /// Whether the directory lists it as a file, and whether as a link.
    pub listed: Option<(bool, bool)>,
    /// Whether what it leads to lies below the root.
    pub inside_root: Option<bool>,
    /// Whether it leads to a directory, whether to a file, and the size.
    pub target: Option<(bool, bool, u64)>,
}

/// What is done with an entry of a directory.
#[derive(Clone, Copy, Debug, PartialEq, Eq, Structural)]
pub enum EntryAction {
    Skip,
    Descend,
    Read,
}

/// What is done with an entry: links that lead out of the root, and whatever cannot be
/// looked at, are invisible.
pub open spec fn entry_action(facts: EntryFacts) -> EntryAction {
    match (facts.listed, facts.inside_root, facts.target) {
        (Some((as_file, as_link)), Some(true), Some((is_directory, is_file, size))) => {
            if is_directory {
                EntryAction::Descend
            } else if is_file && (as_file || as_link) && size <= MAX_ASSET_SIZE {
                EntryAction::Read
            } else {
                EntryAction::Skip
            }
        },
        _ => EntryAction::Skip,
    }
}

/// The making of an index, directory by directory.
pub struct IndexWalk {
    index: MediaIndex,
    visited: Vec<String>,
}

impl IndexWalk {
    /// The pictures that were found so far.
    pub closed spec fn found(self) -> Index {
        self.index@
    }

    /// The directories that were entered so far, by their real paths.
    pub closed spec fn visited(self) -> Seq<Seq<char>> {
        text::texts(self.visited@)
    }

    /// Nothing entered, nothing found.
    pub fn start() -> (walk: Self)
        ensures
            walk.found() == (Index { by_key: Map::empty(), by_hash: Map::empty() }),
            walk.visited() == Seq::<Seq<char>>::empty(),
    {
        let walk = IndexWalk { index: MediaIndex::new(), visited: Vec::new() };
        assert(walk.visited() =~= Seq::<Seq<char>>::empty());
        walk
    }

    fn was_visited(&self, path: &str) -> (answer: bool)
        ensures
            answer == self.visited().contains(path@),
    {
        let ghost visited = self.visited();
        let mut i: usize = 0;
        while i < self.visited.len()
            invariant
                i <= self.visited@.len(),
                visited == text::texts(self.visited@),
                forall|j: int| 0 <= j < i ==> #[trigger] visited[j] != path@,
            decreases self.visited@.len() - i,
        {
            if same(text::nth(&self.visited, i), path) {
                assert(visited[i as int] == path@);
                return true;
            }
            i = i + 1;
        }
        false
    }

    /// Enters a directory, where its real path is known to lie below the root and was
    /// not entered before.
    pub fn enter(self, real_path: Option<String>) -> (entered: (Self, bool))
        ensures
            entered.0.found() == self.found(),
            entered.1 == (real_path matches Some(path) && !self.visited().contains(path@)),
            entered.0.visited() == (if entered.1 {
                self.visited().push(real_path->0@)
            } else {
                self.visited()
            }),
    {
        let path = match real_path {
            Some(path) => path,
            None => return (self, false),
        };
        if self.was_visited(&path) {
            return (self, false);
        }
        let IndexWalk { index, mut visited } = self;
        text::push_text(&mut visited, path);
        (IndexWalk { index, visited }, true)
    }

    /// Decides what is done with an entry of a directory.
    pub fn walk_directory(&self, facts: &EntryFacts) -> (action: EntryAction)
        ensures
            action == entry_action(*facts),
    {
        match (facts.listed, facts.inside_root, facts.target) {
            (Some((as_file, as_link)), Some(true), Some((is_directory, is_file, size))) => {
                if is_directory {
                    EntryAction::Descend
                } else if wants_file(is_file, as_file, as_link, size) {
                    EntryAction::Read
                } else {
                    EntryAction::Skip
                }
            },
            _ => EntryAction::Skip,
        }
    }

    /// Takes in a file that was read, where it is listed at all.
    pub fn take_file(
        self,
        parts: &Option<Vec<String>>,
        file_name: &str,
        size: u64,
        bytes: &[u8],
        modified: Moment,
    ) -> (walk: Self)
        ensures
            walk.visited() == self.visited(),
            walk.found() == (match listed_asset(
                optional_texts(*parts),
                file_name@,
                size,
                bytes@,
                outside::sha256_digest(bytes@),
                modified,
            ) {
                Some(asset) => self.found().with(asset),
                None => self.found(),
            }),
    {
        match index_file(parts, file_name, size, bytes, modified) {
            Some(asset) => IndexWalk { index: self.index.with(asset), visited: self.visited },
            None => self,
        }
    }

    /// The index of everything that was found.
    pub fn finish(self) -> (index: MediaIndex)
        ensures
            index@ == self.found(),
    {
        self.index
    }
}

/// Whether the directory of an index can be used.
pub fn check_index_root(resolved: bool, is_directory: Option<bool>) -> (result: Result<
    (),
    MediaError,
>)
    ensures
        result == (if !resolved || is_directory is None {
            Err(MediaError::RootUnavailable)
        } else if is_directory == Some(false) {
            Err(MediaError::RootNotDirectory)
        } else {
            Ok(())
        }),
{
    if !resolved {
        return Err(MediaError::RootUnavailable);
    }
    match is_directory {
        None => Err(MediaError::RootUnavailable),
        Some(false) => Err(MediaError::RootNotDirectory),
        Some(true) => Ok(()),
    }
}

/// A file whose first bytes are those of another kind of picture than its name says is
/// never listed.
pub proof fn disguised_files_are_never_listed(
    parts: Option<Seq<Seq<char>>>,
    file_name: Seq<char>,
    size: u64,
    bytes: Seq<u8>,
    digest: Seq<u8>,
    modified: Moment,
)
    ensures
        listed_asset(parts, file_name, size, bytes, digest, modified) matches Some(asset) ==> {
            &&& mime_of_bytes(bytes) == Some(asset.mime)
            &&& mime_of_extension(asset.extension) == Some(asset.mime)
            &&& assets::picture_extension(file_name) == Some(asset.extension)
            &&& bytes.len() == asset.size <= MAX_ASSET_SIZE
            &&& config::is_asset_key(asset.asset_key)
        },
{
}

/// A picture is found under its key once it is taken in, and under its digest a picture
/// with that digest is found; what was found before under a digest still is.
pub proof fn what_is_taken_in_is_found(index: Index, asset: Asset)
    requires
        index.is_linked(),
    ensures
        index.with(asset).is_linked(),
        index.with(asset).by_key.contains_pair(asset.asset_key, asset),
        index.with(asset).by_hash.contains_key((asset.sha256, asset.extension)),
        index.with(asset).by_hash[(asset.sha256, asset.extension)].sha256 == asset.sha256,
        index.with(asset).by_hash[(asset.sha256, asset.extension)].extension == asset.extension,
        index.by_hash.submap_of(index.with(asset).by_hash),
{
    let longer = index.with(asset);
    assert forall|key: Seq<char>| #[trigger]
        longer.by_key.contains_key(key) implies longer.by_hash.contains_key(
        (longer.by_key[key].sha256, longer.by_key[key].extension),
    ) by {
        if key != asset.asset_key {
            assert(index.by_key.contains_key(key));
        }
    }
}

/// The index of some pictures, taken in one after the other.
pub open spec fn index_of(list: Seq<Asset>) -> Index
    decreases list.len(),
{
    if list.len() == 0 {
        Index { by_key: Map::empty(), by_hash: Map::empty() }
    } else {
        index_of(list.drop_last()).with(list.last())
    }
}

/// Where no key is taken in twice, a picture that is found under a digest is the picture
/// under its key, and every picture that was taken in is found under its key.
pub proof fn pictures_under_digests_are_listed(list: Seq<Asset>)
    requires
        forall|i: int, j: int|
            0 <= i < j < list.len() ==> (#[trigger] list[i]).asset_key != (
            #[trigger] list[j]).asset_key,
    ensures
        index_of(list).is_linked(),
        index_of(list).is_consistent(),
        forall|key: Seq<char>| #[trigger]
            index_of(list).by_key.contains_key(key) ==> lists(list, key),
        forall|i: int|
            0 <= i < list.len() ==> index_of(list).by_key.contains_pair(
                (#[trigger] list[i]).asset_key,
                list[i],
            ),
    decreases list.len(),
{
    if list.len() > 0 {
        let shorter = list.drop_last();
        let last = list.last();
        let before = index_of(shorter);
        let after = index_of(list);
        assert forall|i: int, j: int| 0 <= i < j < shorter.len() implies (
        #[trigger] shorter[i]).asset_key != (#[trigger] shorter[j]).asset_key by {
            assert(list[i].asset_key != list[j].asset_key);
        }
        pictures_under_digests_are_listed(shorter);
        what_is_taken_in_is_found(before, last);
        assert(!before.by_key.contains_key(last.asset_key)) by {
            if before.by_key.contains_key(last.asset_key) {
                assert(lists(shorter, last.asset_key));
                let i = choose|i: int|
                    0 <= i < shorter.len() && (#[trigger] shorter[i]).asset_key == last.asset_key;
                assert(list[i].asset_key != list[list.len() - 1].asset_key);
            }
        }
        assert forall|key: Seq<char>| #[trigger] after.by_key.contains_key(key) implies lists(
            list,
            key,
        ) by {
            if key == last.asset_key {
                assert(list[list.len() - 1].asset_key == key);
            } else {
                assert(before.by_key.contains_key(key));
                let i = choose|i: int|
                    0 <= i < shorter.len() && (#[trigger] shorter[i]).asset_key == key;
                assert(list[i].asset_key == key);
            }
        }
        assert forall|i: int| 0 <= i < list.len() implies after.by_key.contains_pair(
            (#[trigger] list[i]).asset_key,
            list[i],
        ) by {
            if i < shorter.len() {
                assert(shorter[i] == list[i]);
                assert(before.by_key.contains_pair(shorter[i].asset_key, shorter[i]));
            }
        }
    }
}

/// A picture that is found under its key is also found under its digest and extension, or
/// one with the same contents is, whatever letters they are asked for in; and what is
/// found under a digest has that digest and that extension, and stands in the index.
pub proof fn pictures_are_found_by_their_digest(
    index: Index,
    key: Seq<char>,
    sha256: Seq<char>,
    extension: Seq<char>,
)
    requires
        index.is_linked(),
    ensures
        ({
            let asset = index.by_key[key];
            let asked = (text::lowered(sha256), text::lowered(extension));
            &&& index.by_key.contains_key(key) && asked == (asset.sha256, asset.extension)
                ==> index.by_hash.contains_key(asked)
            &&& index.by_hash.contains_key(asked) ==> index.by_hash[asked].sha256 == asked.0
                && index.by_hash[asked].extension == asked.1 && index.by_key.contains_key(
                index.by_hash[asked].asset_key,
            )
            &&& (text::lowered(text::lowered(sha256)), text::lowered(text::lowered(extension)))
                == asked
        }),
{
    let asked = (text::lowered(sha256), text::lowered(extension));
    assert(text::lowered(asked.0) =~= asked.0);
    assert(text::lowered(asked.1) =~= asked.1);
}

} // verus!
