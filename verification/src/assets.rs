//! The pictures that are read from the data directory before the game starts.
use crate::catalog;
use crate::catalog::EXPECTED_BINDING_COUNT;
use crate::catalog_laws;
use crate::config::{IllustrationConfig, IllustrationMode};
use crate::keyed;
use crate::message::MAX_INLINE_IMAGE_BYTES;
use crate::seen;
use crate::signature;
use crate::text;
use crate::text::{same, to_lower};
use vstd::prelude::*;
use vstd::string::*;

verus! {

/// The largest number of pictures that are kept.
pub const MAX_DIRECT_ASSET_COUNT: usize = 256;

/// The largest size of all pictures together, in bytes.
pub const MAX_DIRECT_ASSET_TOTAL_BYTES: usize = 67108864;

/// A picture and the key under which it is kept.
pub(crate) struct AssetEntry {
    pub(crate) key: String,
    pub(crate) bytes: Vec<u8>,
}

/// An unchanging set of pictures.
pub struct IllustrationAssets {
    entries: Vec<AssetEntry>,
    total_bytes: usize,
}

/// The keys and the contents of a list of pictures.
pub(crate) open spec fn pairs_of(entries: Seq<AssetEntry>) -> Seq<(Seq<char>, Seq<u8>)> {
    Seq::new(entries.len(), |i: int| (entries[i].key@, entries[i].bytes@))
}

/// The size of a list of pictures.
pub(crate) open spec fn size_of_all(entries: Seq<AssetEntry>) -> nat
    decreases entries.len(),
{
    if entries.len() == 0 {
        0
    } else {
        size_of_all(entries.drop_last()) + entries.last().bytes@.len()
    }
}

proof fn lemma_size_after_update(entries: Seq<AssetEntry>, at: int, entry: AssetEntry)
    requires
        0 <= at < entries.len(),
    ensures
        size_of_all(entries.update(at, entry)) + entries[at].bytes@.len() == size_of_all(entries)
            + entry.bytes@.len(),
    decreases entries.len(),
{
    let changed = entries.update(at, entry);
    if at == entries.len() - 1 {
        assert(changed.drop_last() =~= entries.drop_last());
    } else {
        lemma_size_after_update(entries.drop_last(), at, entry);
        assert(changed.drop_last() =~= entries.drop_last().update(at, entry));
    }
}

impl View for IllustrationAssets {
    type V = Map<Seq<char>, Seq<u8>>;

    closed spec fn view(&self) -> Map<Seq<char>, Seq<u8>> {
        keyed::map_of(pairs_of(self.entries@))
    }
}

impl Default for IllustrationAssets {
    fn default() -> (assets: Self)
        ensures
            assets@ == Map::<Seq<char>, Seq<u8>>::empty(),
            assets.taken() == 0,
    {
        IllustrationAssets { entries: Vec::new(), total_bytes: 0 }
    }
}

impl IllustrationAssets {
    #[verifier::type_invariant]
    spec fn bounded(self) -> bool {
        &&& seen::distinct(keyed::keys(pairs_of(self.entries@)))
        &&& self.entries@.len() <= MAX_DIRECT_ASSET_COUNT
        &&& size_of_all(self.entries@) <= self.total_bytes <= MAX_DIRECT_ASSET_TOTAL_BYTES
    }

    /// The size of everything that was taken in, in bytes.
    pub closed spec fn taken(self) -> nat {
        self.total_bytes as nat
    }

    /// The size of all pictures together, in bytes.
    pub closed spec fn size(self) -> nat {
        size_of_all(self.entries@)
    }

    /// How many pictures there are.
    pub fn len(&self) -> (count: usize)
        ensures
            count == self@.len(),
            self@.dom().finite(),
            count <= MAX_DIRECT_ASSET_COUNT,
    {
        proof {
            use_type_invariant(self);
            keyed::pairs_are_the_map(pairs_of(self.entries@));
        }
        self.entries.len()
    }

    /// The size of everything that was taken in, in bytes. The pictures together are
    /// no larger.
    pub fn total_bytes(&self) -> (size: usize)
        ensures
            size == self.taken(),
            self.size() <= size <= MAX_DIRECT_ASSET_TOTAL_BYTES,
    {
        proof {
            use_type_invariant(self);
        }
        self.total_bytes
    }

    /// What may be told of the pictures: how many there are and how large they are, but
    /// nothing of what they show.
    pub fn describe(&self) -> (description: String)
        ensures
            description@ == "IllustrationAssets { entry_count: "@ + text::decimal(self@.len())
                + ", total_bytes: "@ + text::decimal(self.taken()) + " }"@,
    {
        let count = text::usize_text(self.len());
        let size = text::usize_text(self.total_bytes());
        text::cat5(
            "IllustrationAssets { entry_count: ",
            count.as_str(),
            ", total_bytes: ",
            size.as_str(),
            " }",
        )
    }

    fn position(&self, asset_key: &str) -> (at: usize)
        ensures
            at <= self.entries@.len(),
            at < self.entries@.len() ==> self.entries@[at as int].key@ == asset_key@,
            at == self.entries@.len() ==> !keyed::keys(pairs_of(self.entries@)).contains(asset_key@),
    {
        let mut i: usize = 0;
        while i < self.entries.len()
            invariant
                i <= self.entries@.len(),
                forall|j: int|
                    0 <= j < i ==> #[trigger] keyed::keys(pairs_of(self.entries@))[j] != asset_key@,
            decreases self.entries@.len() - i,
        {
            if same(&self.entries[i].key, asset_key) {
                return i;
            }
            assert(keyed::keys(pairs_of(self.entries@))[i as int] == self.entries@[i as int].key@);
            i = i + 1;
        }
        i
    }

    /// The picture under a key.
    pub fn get(&self, asset_key: &str) -> (bytes: Option<&[u8]>)
        ensures
            match bytes {
                Some(bytes) => self@.contains_pair(asset_key@, bytes@),
                None => !self@.contains_key(asset_key@),
            },
    {
        proof {
            use_type_invariant(self);
            keyed::pairs_are_the_map(pairs_of(self.entries@));
        }
        let at = self.position(asset_key);
        if at == self.entries.len() {
            return None;
        }
        assert(pairs_of(self.entries@)[at as int] == (
            self.entries@[at as int].key@,
            self.entries@[at as int].bytes@,
        ));
        assert(self@.contains_pair(
            pairs_of(self.entries@)[at as int].0,
            pairs_of(self.entries@)[at as int].1,
        ));
        Some(self.entries[at].bytes.as_slice())
    }

    /// The pictures with one more, or with another one under its key; refused where
    /// there would be too many or too much.
    pub fn with(self, asset_key: &str, bytes: Vec<u8>) -> (result: Result<Self, String>)
        ensures
            match result {
                Ok(assets) => {
                    &&& refusal(self@.len(), self.taken(), bytes@.len()) is None
                    &&& assets@ == self@.insert(asset_key@, bytes@)
                    &&& assets.taken() == self.taken() + bytes@.len()
                },
                Err(message) => refusal(self@.len(), self.taken(), bytes@.len()) == Some(message@),
            },
    {
        proof {
            use_type_invariant(&self);
            keyed::pairs_are_the_map(pairs_of(self.entries@));
        }
        let next_total: usize = match self.total_bytes.checked_add(bytes.len()) {
            Some(total) => total,
            None => return Err("本地插图总大小溢出".to_owned()),
        };
        if self.entries.len() >= MAX_DIRECT_ASSET_COUNT || next_total
            > MAX_DIRECT_ASSET_TOTAL_BYTES {
            return Err("本地插图最多 256 个且总大小不能超过 64 MiB".to_owned());
        }
        let at = self.position(asset_key);
        let ghost before = self.entries@;
        let ghost bytes_view = bytes@;
        let mut entries = self.entries;
        let entry = AssetEntry { key: asset_key.to_owned(), bytes };
        if at < entries.len() {
            proof {
                keyed::replacing_is_inserting(pairs_of(before), at as int, bytes_view);
                lemma_size_after_update(before, at as int, entry);
            }
            entries.set(at, entry);
            assert(pairs_of(entries@) =~= pairs_of(before).update(
                at as int,
                (asset_key@, bytes_view),
            ));
        } else {
            entries.push(entry);
            proof {
                assert(entries@.drop_last() =~= before);
                assert(pairs_of(entries@) =~= pairs_of(before).push((asset_key@, bytes_view)));
                keyed::adding_is_inserting(pairs_of(before), asset_key@, bytes_view);
            }
        }
        Ok(IllustrationAssets { entries, total_bytes: next_total })
    }
}

/// Why no more pictures are taken in.
pub open spec fn refusal(count: nat, taken: nat, more: nat) -> Option<Seq<char>> {
    if taken + more > usize::MAX {
        Some("本地插图总大小溢出"@)
    } else if count >= MAX_DIRECT_ASSET_COUNT || taken + more > MAX_DIRECT_ASSET_TOTAL_BYTES {
        Some("本地插图最多 256 个且总大小不能超过 64 MiB"@)
    } else {
        None
    }
}

/// Whether pictures are read from the data directory at all.
pub open spec fn reads_directory(config: IllustrationConfig) -> bool {
    &&& config.enabled
    &&& config.mode == IllustrationMode::Direct
    &&& config.direct_asset_root@.len() > 0
}

/// Whether pictures are read from the data directory at all.
pub fn wants_assets(config: &IllustrationConfig) -> (answer: bool)
    ensures
        answer == reads_directory(*config),
{
    config.enabled && config.mode == IllustrationMode::Direct
        && !config.direct_asset_root.as_str().is_empty()
}

/// What the file system says of the directory of pictures, each answer in the order
/// in which it is asked for; `None` where the question could not be answered.
#[derive(Clone, Copy, Debug, PartialEq, Eq, Structural)]
pub struct RootStatus {
    pub exists: Option<bool>,
    pub is_symlink: Option<bool>,
    pub data_dir_resolved: bool,
    pub root_resolved: bool,
    pub inside_data_dir: bool,
    pub is_directory: Option<bool>,
}

/// Whether the directory of pictures is read, or why it may not be.
pub open spec fn root_verdict(status: RootStatus) -> Result<bool, Seq<char>> {
    if status.exists == Some(false) {
        Ok(false)
    } else if status.exists is None || status.is_symlink is None {
        Err("本地插图根目录无法访问"@)
    } else if status.is_symlink == Some(true) {
        Err("本地插图根目录不能是符号链接"@)
    } else if !status.data_dir_resolved {
        Err("QimenBot data_dir 无法访问，不能加载本地插图"@)
    } else if !status.root_resolved {
        Err("本地插图根目录无法访问"@)
    } else if !status.inside_data_dir {
        Err("本地插图根目录不能离开 data_dir"@)
    } else if status.is_directory is None {
        Err("本地插图根目录无法访问"@)
    } else if status.is_directory == Some(false) {
        Err("本地插图根目录必须是目录"@)
    } else {
        Ok(true)
    }
}

/// Decides whether the directory of pictures is read.
pub fn check_root(status: &RootStatus) -> (result: Result<bool, String>)
    ensures
        text::outcome(result) == root_verdict(*status),
{
    match status.exists {
        Some(true) => {},
        Some(false) => return Ok(false),
        None => return Err("本地插图根目录无法访问".to_owned()),
    }
    match status.is_symlink {
        Some(false) => {},
        Some(true) => return Err("本地插图根目录不能是符号链接".to_owned()),
        None => return Err("本地插图根目录无法访问".to_owned()),
    }
    if !status.data_dir_resolved {
        return Err("QimenBot data_dir 无法访问，不能加载本地插图".to_owned());
    }
    if !status.root_resolved {
        return Err("本地插图根目录无法访问".to_owned());
    }
    if !status.inside_data_dir {
        return Err("本地插图根目录不能离开 data_dir".to_owned());
    }
    match status.is_directory {
        Some(true) => Ok(true),
        Some(false) => Err("本地插图根目录必须是目录".to_owned()),
        None => Err("本地插图根目录无法访问".to_owned()),
    }
}

/// What one step of a path leads to.
#[derive(Clone, Copy, Debug, PartialEq, Eq, Structural)]
pub enum PathStep {
    /// Not a plain name.
    Special,
    /// A symbolic link.
    Link,
    /// A file or a directory.
    Plain,
    /// Nothing that can be looked at.
    Missing,
}

/// Whether a path goes through a link, as far as it can be followed.
pub open spec fn goes_through_link(steps: Seq<PathStep>) -> bool
    decreases steps.len(),
{
    if steps.len() == 0 {
        false
    } else {
        match steps[0] {
            PathStep::Special => true,
            PathStep::Link => true,
            PathStep::Plain => goes_through_link(steps.skip(1)),
            PathStep::Missing => false,
        }
    }
}

/// Whether the steps of a path go through a link.
pub fn steps_contain_symlink(steps: &Vec<PathStep>) -> (answer: bool)
    ensures
        answer == goes_through_link(steps@),
{
    let mut i: usize = 0;
    assert(steps@.skip(0) =~= steps@);
    while i < steps.len()
        invariant
            i <= steps@.len(),
            goes_through_link(steps@) == goes_through_link(steps@.skip(i as int)),
        decreases steps@.len() - i,
    {
        assert(steps@.skip(i as int)[0] == steps@[i as int]);
        assert(steps@.skip(i as int).skip(1) =~= steps@.skip(i + 1));
        match steps[i] {
            PathStep::Special => return true,
            PathStep::Link => return true,
            PathStep::Plain => {},
            PathStep::Missing => return false,
        }
        i = i + 1;
    }
    false
}

/// The part of a file name behind its last dot, where something stands before it.
pub open spec fn name_extension(file_name: Seq<char>) -> Option<Seq<char>> {
    match text::last_split(file_name, '.') {
        Some((stem, extension)) => if stem.len() > 0 {
            Some(extension)
        } else {
            None
        },
        None => None,
    }
}

/// The part of a file name behind its last dot.
pub(crate) fn file_extension(file_name: &str) -> (extension: Option<String>)
    ensures
        text::optional_text(extension) == name_extension(file_name@),
{
    match text::rsplit_once(file_name, '.') {
        Some((stem, extension)) => if !stem.as_str().is_empty() {
            Some(extension)
        } else {
            None
        },
        None => None,
    }
}

/// The last part of a path with forward slashes.
pub open spec fn base_name(path: Seq<char>) -> Seq<char> {
    text::parts(path, '/').last()
}

/// The kinds of picture file that are read.
pub open spec fn is_picture_extension(extension: Seq<char>) -> bool {
    extension == "png"@ || extension == "jpg"@ || extension == "jpeg"@ || extension == "webp"@
        || extension == "gif"@ || extension == "bmp"@
}

/// The extension of a picture file, in small letters.
pub open spec fn picture_extension(file_name: Seq<char>) -> Option<Seq<char>> {
    match name_extension(file_name) {
        Some(extension) => if is_picture_extension(text::lowered(extension)) {
            Some(text::lowered(extension))
        } else {
            None
        },
        None => None,
    }
}

/// The extension of a picture file, in small letters.
pub fn allowed_extension(file_name: &str) -> (extension: Option<String>)
    ensures
        text::optional_text(extension) == picture_extension(file_name@),
{
    match file_extension(file_name) {
        Some(extension) => {
            let extension = to_lower(&extension);
            if same(&extension, "png") || same(&extension, "jpg") || same(&extension, "jpeg")
                || same(&extension, "webp") || same(&extension, "gif") || same(&extension, "bmp") {
                Some(extension)
            } else {
                None
            }
        },
        None => None,
    }
}

/// Whether a file starts as its extension says.
pub open spec fn matches_magic(extension: Seq<char>, bytes: Seq<u8>) -> bool {
    if extension == "png"@ {
        signature::is_png(bytes)
    } else if extension == "jpg"@ || extension == "jpeg"@ {
        signature::is_jpeg(bytes)
    } else if extension == "webp"@ {
        signature::is_webp(bytes)
    } else if extension == "gif"@ {
        signature::is_gif(bytes)
    } else if extension == "bmp"@ {
        signature::is_bmp(bytes)
    } else {
        false
    }
}

/// Whether a file starts as its extension says.
pub fn extension_matches_magic(extension: &str, bytes: &[u8]) -> (answer: bool)
    ensures
        answer == matches_magic(extension@, bytes@),
{
    if same(extension, "png") {
        signature::png(bytes)
    } else if same(extension, "jpg") || same(extension, "jpeg") {
        signature::jpeg(bytes)
    } else if same(extension, "webp") {
        signature::webp(bytes)
    } else if same(extension, "gif") {
        signature::gif(bytes)
    } else if same(extension, "bmp") {
        signature::bmp(bytes)
    } else {
        false
    }
}

/// Whether a file of this kind and size is read at all.
pub fn readable_picture(is_file: bool, size: u64) -> (answer: bool)
    ensures
        answer == (is_file && 0 < size <= MAX_INLINE_IMAGE_BYTES),
{
    is_file && 0 < size && size <= MAX_INLINE_IMAGE_BYTES as u64
}

/// Whether the bytes of a file are taken: they are as many as the file had before and
/// after the reading, and they start as the extension of the key says.
pub open spec fn picture_taken(
    asset_key: Seq<char>,
    size: u64,
    bytes: Seq<u8>,
    size_after: Option<u64>,
) -> bool {
    &&& 0 < size <= MAX_INLINE_IMAGE_BYTES
    &&& bytes.len() == size
    &&& size_after == Some(size)
    &&& picture_extension(base_name(asset_key)) matches Some(extension)
    && matches_magic(extension, bytes)
}

/// Decides whether the bytes of a file are taken.
pub fn accept_picture(asset_key: &str, size: u64, bytes: &[u8], size_after: Option<u64>) -> (answer:
    bool)
    ensures
        answer == picture_taken(asset_key@, size, bytes@, size_after),
{
    if !readable_picture(true, size) || bytes.len() as u64 != size {
        return false;
    }
    match size_after {
        Some(after) => if after != size {
            return false;
        },
        None => return false,
    }
    let segments = text::split_char(asset_key, '/');
    assert(text::texts(segments@).last() == segments@.last()@);
    match allowed_extension(&segments[segments.len() - 1]) {
        Some(extension) => extension_matches_magic(&extension, bytes),
        None => false,
    }
}

/// What reading the file of a picture gave: the steps of its path, whether it really lies
/// below the root and was still there once it was opened, and its bytes, with what the
/// file system said of it before and after they were read.
#[derive(Clone, Debug, PartialEq, Eq)]
pub struct PictureFile {
    pub steps: Vec<PathStep>,
    pub inside_root: bool,
    pub still_there: bool,
    pub is_file: bool,
    pub size: u64,
    pub bytes: Vec<u8>,
    pub size_after: Option<u64>,
}

/// Whether a file is taken as the picture of a key.
pub open spec fn file_taken(asset_key: Seq<char>, file: PictureFile) -> bool {
    &&& !goes_through_link(file.steps@)
    &&& file.inside_root
    &&& file.still_there
    &&& file.is_file
    &&& picture_taken(asset_key, file.size, file.bytes@, file.size_after)
}

/// Decides whether a file is taken as the picture of a key.
pub fn load_one(asset_key: &str, file: &PictureFile) -> (answer: bool)
    ensures
        answer == file_taken(asset_key@, *file),
{
    !steps_contain_symlink(&file.steps) && file.inside_root && file.still_there && file.is_file
        && accept_picture(asset_key, file.size, file.bytes.as_slice(), file.size_after)
}

/// Whether the file of the key at a place in the catalogue is taken.
pub open spec fn taken_at(files: Seq<Option<PictureFile>>, i: int) -> bool {
    i < files.len() && (files[i] matches Some(file) && file_taken(
        catalog::expected_asset_keys()[i],
        file,
    ))
}

/// The pictures of the first keys of the catalogue.
pub open spec fn pictures_of(files: Seq<Option<PictureFile>>, count: int) -> Map<
    Seq<char>,
    Seq<u8>,
>
    decreases count,
{
    if count <= 0 {
        Map::empty()
    } else if taken_at(files, count - 1) {
        pictures_of(files, count - 1).insert(
            catalog::expected_asset_keys()[count - 1],
            (files[count - 1]->0).bytes@,
        )
    } else {
        pictures_of(files, count - 1)
    }
}

/// The size of the pictures of the first keys of the catalogue.
pub open spec fn size_of_pictures(files: Seq<Option<PictureFile>>, count: int) -> nat
    decreases count,
{
    if count <= 0 {
        0
    } else if taken_at(files, count - 1) {
        size_of_pictures(files, count - 1) + (files[count - 1]->0).bytes@.len()
    } else {
        size_of_pictures(files, count - 1)
    }
}

proof fn lemma_few_pictures(files: Seq<Option<PictureFile>>, count: int)
    requires
        0 <= count,
    ensures
        pictures_of(files, count).dom().finite(),
        pictures_of(files, count).len() <= count,
        size_of_pictures(files, count) <= count * MAX_INLINE_IMAGE_BYTES,
    decreases count,
{
    if count > 0 {
        lemma_few_pictures(files, count - 1);
    }
}

proof fn lemma_sizes_grow(files: Seq<Option<PictureFile>>, some: int, more: int)
    requires
        some <= more,
    ensures
        size_of_pictures(files, some) <= size_of_pictures(files, more),
    decreases more - some,
{
    if some < more {
        lemma_sizes_grow(files, some, more - 1);
    }
}

/// Why no pictures are loaded.
pub open spec fn load_error(
    config: IllustrationConfig,
    root: RootStatus,
    files: Seq<Option<PictureFile>>,
) -> Option<Seq<char>> {
    if !reads_directory(config) {
        None
    } else {
        match root_verdict(root) {
            Err(message) => Some(message),
            Ok(false) => None,
            Ok(true) => if size_of_pictures(files, EXPECTED_BINDING_COUNT as int)
                > MAX_DIRECT_ASSET_TOTAL_BYTES {
                Some("本地插图最多 256 个且总大小不能超过 64 MiB"@)
            } else {
                None
            },
        }
    }
}

/// The pictures that are loaded.
pub open spec fn loaded(
    config: IllustrationConfig,
    root: RootStatus,
    files: Seq<Option<PictureFile>>,
) -> Map<Seq<char>, Seq<u8>> {
    if reads_directory(config) && root_verdict(root) == Ok::<bool, Seq<char>>(true) {
        pictures_of(files, EXPECTED_BINDING_COUNT as int)
    } else {
        Map::empty()
    }
}

impl IllustrationAssets {
    /// The pictures of the catalogue, given what reading the file of each of its keys
    /// gave, in its order. A file that is not as it should be is passed over.
    pub fn load(
        config: &IllustrationConfig,
        root: &RootStatus,
        files: Vec<Option<PictureFile>>,
    ) -> (result: Result<Self, String>)
        ensures
            match result {
                Ok(assets) => load_error(*config, *root, files@) is None && assets@ == loaded(
                    *config,
                    *root,
                    files@,
                ),
                Err(message) => load_error(*config, *root, files@) == Some(message@),
            },
    {
        let mut assets = IllustrationAssets::default();
        if !wants_assets(config) {
            return Ok(assets);
        }
        match check_root(root) {
            Ok(true) => {},
            Ok(false) => return Ok(assets),
            Err(message) => return Err(message),
        }
        let keys = catalog::asset_keys();
        let mut i: usize = 0;
        while i < keys.len() && i < files.len()
            invariant
                i <= keys@.len(),
                i <= files@.len(),
                text::texts(keys@) == catalog::expected_asset_keys(),
                keys@.len() == EXPECTED_BINDING_COUNT,
                reads_directory(*config),
                root_verdict(*root) == Ok::<bool, Seq<char>>(true),
                assets@ == pictures_of(files@, i as int),
                assets.taken() == size_of_pictures(files@, i as int),
            decreases keys@.len() - i,
        {
            assert(keys@[i as int]@ == catalog::expected_asset_keys()[i as int]);
            if let Some(file) = &files[i] {
                if load_one(&keys[i], file) {
                    proof {
                        lemma_few_pictures(files@, i as int);
                        lemma_sizes_grow(files@, i + 1, EXPECTED_BINDING_COUNT as int);
                    }
                    let bytes = vstd::slice::slice_to_vec(file.bytes.as_slice());
                    match assets.with(&keys[i], bytes) {
                        Ok(more) => assets = more,
                        Err(message) => return Err(message),
                    }
                }
            }
            i = i + 1;
        }
        proof {
            use_type_invariant(&assets);
            lemma_rest_is_not_read(files@, i as int, EXPECTED_BINDING_COUNT as int);
        }
        Ok(assets)
    }
}

proof fn lemma_rest_is_not_read(files: Seq<Option<PictureFile>>, read: int, count: int)
    requires
        0 <= read <= count,
        read >= files.len() || read == count,
    ensures
        pictures_of(files, count) == pictures_of(files, read),
        size_of_pictures(files, count) == size_of_pictures(files, read),
    decreases count - read,
{
    if read < count {
        lemma_rest_is_not_read(files, read, count - 1);
    }
}

impl Clone for IllustrationAssets {
    fn clone(&self) -> (copy: Self)
        ensures
            copy@ == self@,
            copy.taken() == self.taken(),
    {
        proof {
            use_type_invariant(self);
        }
        let mut entries: Vec<AssetEntry> = Vec::new();
        let mut i: usize = 0;
        while i < self.entries.len()
            invariant
                i <= self.entries@.len(),
                pairs_of(entries@) =~= pairs_of(self.entries@).take(i as int),
                size_of_all(entries@) == size_of_all(self.entries@.take(i as int)),
            decreases self.entries@.len() - i,
        {
            let entry = AssetEntry {
                key: self.entries[i].key.as_str().to_owned(),
                bytes: vstd::slice::slice_to_vec(self.entries[i].bytes.as_slice()),
            };
            let ghost before = entries@;
            entries.push(entry);
            assert(entries@.drop_last() =~= before);
            assert(pairs_of(entries@) =~= pairs_of(before).push((entry.key@, entry.bytes@)));
            assert(pairs_of(self.entries@).take(i + 1) =~= pairs_of(self.entries@).take(
                i as int,
            ).push((self.entries@[i as int].key@, self.entries@[i as int].bytes@)));
            assert(self.entries@.take(i + 1).drop_last() =~= self.entries@.take(i as int));
            i = i + 1;
        }
        assert(self.entries@.take(i as int) =~= self.entries@);
        assert(pairs_of(entries@) =~= pairs_of(self.entries@));
        IllustrationAssets { entries, total_bytes: self.total_bytes }
    }
}

/// What is loaded is what was read: each picture of the catalogue that was taken stands
/// under its key with the bytes that were read, whatever became of its file since, and
/// nothing stands under any other key.
pub proof fn only_the_catalogue_is_loaded(files: Seq<Option<PictureFile>>, count: int)
    requires
        0 <= count <= EXPECTED_BINDING_COUNT,
    ensures
        forall|key: Seq<char>| #[trigger]
            pictures_of(files, count).contains_key(key)
                ==> catalog::expected_asset_keys().take(count).contains(key),
        forall|i: int| #![trigger files[i]]
            0 <= i < count && taken_at(files, i) ==> pictures_of(files, count).contains_pair(
                catalog::expected_asset_keys()[i],
                (files[i]->0).bytes@,
            ),
    decreases count,
{
    let keys = catalog::expected_asset_keys();
    if count > 0 {
        only_the_catalogue_is_loaded(files, count - 1);
        assert(keys.take(count)[count - 1] == keys[count - 1]);
        assert forall|key: Seq<char>| #[trigger]
            pictures_of(files, count).contains_key(key) implies keys.take(count).contains(key) by {
            if key != keys[count - 1] {
                assert(pictures_of(files, count - 1).contains_key(key));
                let i = keys.take(count - 1).index_of(key);
                assert(keys.take(count)[i] == key);
            }
        }
        assert forall|i: int| #![trigger files[i]]
            0 <= i < count && taken_at(files, i) implies pictures_of(files, count).contains_pair(
            keys[i],
            (files[i]->0).bytes@,
        ) by {
            if i < count - 1 {
                catalog_laws::the_built_in_catalogue_is_valid();
                catalog::valid_bindings_are_unambiguous(catalog::embedded_bindings(), i, count - 1);
                assert(catalog::embedded_bindings()[i].asset_key == keys[i]);
                assert(catalog::embedded_bindings()[count - 1].asset_key == keys[count - 1]);
                assert(pictures_of(files, count - 1).contains_pair(keys[i], (files[i]->0).bytes@));
            }
        }
    }
}

/// No file makes a picture appear under a key that the catalogue does not have.
pub proof fn unknown_pictures_are_never_loaded(
    config: IllustrationConfig,
    root: RootStatus,
    files: Seq<Option<PictureFile>>,
    key: Seq<char>,
)
    requires
        !catalog::expected_asset_keys().contains(key),
    ensures
        !loaded(config, root, files).contains_key(key),
{
    let keys = catalog::expected_asset_keys();
    only_the_catalogue_is_loaded(files, EXPECTED_BINDING_COUNT as int);
    assert(keys.take(EXPECTED_BINDING_COUNT as int) =~= keys);
}

/// Every picture that is taken in can travel with a message.
pub proof fn taken_pictures_can_be_shown(
    asset_key: Seq<char>,
    size: u64,
    bytes: Seq<u8>,
    size_after: Option<u64>,
)
    requires
        picture_taken(asset_key, size, bytes, size_after),
    ensures
        crate::message::bytes_error(bytes) is None,
{
}

} // verus!
