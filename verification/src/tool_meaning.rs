//! What the offline tools read, take and write, and what happens to pictures on the way.
use crate::cli;
use crate::config;
use crate::config::{IllustrationConfig, IllustrationMode};
use crate::content::ContentPackage;
use crate::direct_asset_upload;
use crate::direct_asset_upload::{
    CreateOutcome, DirectAssetUploadError, DirectoryEvent, DirectoryState, FoundEntry, UploadStep,
};
use crate::event;
use crate::host::Reply;
use crate::media;
use crate::media_catalog;
use crate::media_catalog::{AssetRow, CatalogError, State, VersionRow, VersionStatus};
use crate::message;
use crate::outside;
use crate::outside::JsonShape;
use crate::plugin;
use crate::plugin::{Plan, ReplyTarget};
use crate::public_seed;
use crate::public_seed::{PublicSeedPackageMetadata, PublicSeedSource};
use crate::qq_media;
use crate::qq_media::{PictureKey, Target};
use crate::startup;
use crate::startup::ServerSlot;
use crate::text;
use vstd::prelude::*;

verus! {

proof fn lemma_stage_names()
    ensures
        cli::stage_option_names().len() == 5,
        cli::option_position(cli::stage_option_names(), "--source"@) == 0,
        cli::option_position(cli::stage_option_names(), "--output"@) == 1,
        cli::option_position(cli::stage_option_names(), "--protocol"@) == 2,
        cli::option_position(cli::stage_option_names(), "--account-id"@) == 3,
        cli::option_position(cli::stage_option_names(), "--namespace"@) == 4,
{
    lemma_option_names();
    reveal_with_fuel(cli::option_position, 6);
    let names = cli::stage_option_names();
    assert(names.skip(1).skip(1) =~= names.skip(2));
    assert(names.skip(2).skip(1) =~= names.skip(3));
    assert(names.skip(3).skip(1) =~= names.skip(4));
    assert(names.skip(4).skip(1) =~= names.skip(5));
    assert(names.skip(1)[0] == names[1]);
    assert(names.skip(2)[0] == names[2]);
    assert(names.skip(3)[0] == names[3]);
    assert(names.skip(4)[0] == names[4]);
}

proof fn lemma_option_names()
    ensures
        "--source"@.len() == 8 && "--source"@[2] == 's',
        "--output"@.len() == 8 && "--output"@[2] == 'o',
        "--protocol"@.len() == 10,
        "--account-id"@.len() == 12,
        "--namespace"@.len() == 11,
        "--package-key"@.len() == 13,
        "--revision"@.len() == 10 && "--revision"@[2] == 'r',
        "--author"@.len() == 8 && "--author"@[2] == 'a',
        "--minimum-runtime"@.len() == 17,
        "--help"@.len() == 6,
        "-h"@.len() == 2,
{
    reveal_strlit("--source");
    reveal_strlit("--output");
    reveal_strlit("--protocol");
    reveal_strlit("--account-id");
    reveal_strlit("--namespace");
    reveal_strlit("--package-key");
    reveal_strlit("--revision");
    reveal_strlit("--author");
    reveal_strlit("--minimum-runtime");
    reveal_strlit("--help");
    reveal_strlit("-h");
}

/// An option and its value are taken wherever they stand, once each; help is asked for by two
/// names; a value does not start with a hyphen, and an option that is not known is refused.
pub proof fn options_are_taken_once_each(
    option: Seq<char>,
    value: Seq<char>,
    rest: Seq<Seq<char>>,
    options: Seq<Seq<char>>,
    given: Seq<Option<Seq<char>>>,
)
    requires
        option != "--help"@,
        option != "-h"@,
    ensures
        ({
            let at = cli::option_position(options, option) as int;
            let read = cli::option_values(seq![option, value] + rest, options, given);
            let plain = !"-"@.is_prefix_of(value);
            &&& at < options.len() && plain && given[at] is None ==> read == cli::option_values(
                rest,
                options,
                given.update(at, Some(value)),
            )
            &&& at < options.len() && plain && given[at] is Some ==> read is Err
            &&& at < options.len() && !plain ==> read == Err::<
                Option<Seq<Option<Seq<char>>>>,
                Seq<char>,
            >(options[at] + " 缺少值"@)
            &&& at >= options.len() ==> read == Err::<Option<Seq<Option<Seq<char>>>>, Seq<char>>(
                "不支持的参数："@ + option,
            )
            &&& cli::option_values(seq!["--help"@] + rest, options, given) == Ok::<_, Seq<char>>(
                None::<Seq<Option<Seq<char>>>>,
            )
            &&& cli::option_values(seq!["-h"@] + rest, options, given) == Ok::<_, Seq<char>>(
                None::<Seq<Option<Seq<char>>>>,
            )
            &&& cli::option_values(Seq::empty(), options, given) == Ok::<_, Seq<char>>(Some(given))
        }),
{
    let all = seq![option, value] + rest;
    assert(all[0] == option && all[1] == value);
    assert(all.skip(2) =~= rest);
    assert((seq!["--help"@] + rest)[0] == "--help"@);
    assert((seq!["-h"@] + rest)[0] == "-h"@);
}

/// Players are laid down from the source, into the output, for the protocol, the account and
/// the namespace that are named so, whatever they are.
pub proof fn players_are_laid_down_for_what_is_named(
    source: Seq<char>,
    output: Seq<char>,
    protocol: Seq<char>,
    account: Seq<char>,
    namespace: Seq<char>,
)
    requires
        !"-"@.is_prefix_of(source),
        !"-"@.is_prefix_of(output),
        !"-"@.is_prefix_of(protocol),
        !"-"@.is_prefix_of(account),
        !"-"@.is_prefix_of(namespace),
    ensures
        cli::stage_options(
            seq!["--source"@, source] + (seq!["--output"@, output] + (seq!["--protocol"@, protocol]
                + (seq!["--account-id"@, account] + (seq!["--namespace"@, namespace] + Seq::<
                Seq<char>,
            >::empty())))),
        ) == Ok::<_, Seq<char>>(Some((source, output, protocol, account, namespace))),
{
    lemma_option_names();
    lemma_stage_names();
    let options = cli::stage_option_names();
    let none = Seq::<Seq<char>>::empty();
    let a4 = seq!["--namespace"@, namespace] + none;
    let a3 = seq!["--account-id"@, account] + a4;
    let a2 = seq!["--protocol"@, protocol] + a3;
    let a1 = seq!["--output"@, output] + a2;
    let g0 = cli::nothing_given(5);
    let g1 = g0.update(0, Some(source));
    let g2 = g1.update(1, Some(output));
    let g3 = g2.update(2, Some(protocol));
    let g4 = g3.update(3, Some(account));
    let g5 = g4.update(4, Some(namespace));
    options_are_taken_once_each("--source"@, source, a1, options, g0);
    options_are_taken_once_each("--output"@, output, a2, options, g1);
    options_are_taken_once_each("--protocol"@, protocol, a3, options, g2);
    options_are_taken_once_each("--account-id"@, account, a4, options, g3);
    options_are_taken_once_each("--namespace"@, namespace, none, options, g4);
    assert(cli::option_values(none, options, g5) == Ok::<_, Seq<char>>(Some(g5)));
    assert(cli::option_values(seq!["--source"@, source] + a1, options, g0) == Ok::<_, Seq<char>>(
        Some(g5),
    ));
}

proof fn lemma_import_names()
    ensures
        cli::import_option_names().len() == 6,
        cli::option_position(cli::import_option_names(), "--source"@) == 0,
        cli::option_position(cli::import_option_names(), "--output"@) == 1,
        cli::option_position(cli::import_option_names(), "--package-key"@) == 2,
        cli::option_position(cli::import_option_names(), "--revision"@) == 3,
        cli::option_position(cli::import_option_names(), "--author"@) == 4,
        cli::option_position(cli::import_option_names(), "--minimum-runtime"@) == 5,
{
    lemma_option_names();
    reveal_with_fuel(cli::option_position, 7);
    let names = cli::import_option_names();
    assert(names.skip(1).skip(1) =~= names.skip(2));
    assert(names.skip(2).skip(1) =~= names.skip(3));
    assert(names.skip(3).skip(1) =~= names.skip(4));
    assert(names.skip(4).skip(1) =~= names.skip(5));
    assert(names.skip(1)[0] == names[1]);
    assert(names.skip(2)[0] == names[2]);
    assert(names.skip(3)[0] == names[3]);
    assert(names.skip(4)[0] == names[4]);
    assert(names.skip(5)[0] == names[5]);
}

/// A package is imported from the source, into the output, with the key, the revision, the
/// author and the runtime that are named so; a revision is a positive number.
pub proof fn packages_are_imported_as_is_named(
    source: Seq<char>,
    output: Seq<char>,
    key: Seq<char>,
    revision: nat,
    author: Seq<char>,
    runtime: Seq<char>,
)
    requires
        !"-"@.is_prefix_of(source),
        !"-"@.is_prefix_of(output),
        !"-"@.is_prefix_of(key),
        revision <= i64::MAX,
        !"-"@.is_prefix_of(author),
        !"-"@.is_prefix_of(runtime),
    ensures
        ({
            let read = cli::import_options(
                seq!["--source"@, source] + (seq!["--output"@, output] + (seq![
                    "--package-key"@,
                    key,
                ] + (seq!["--revision"@, text::decimal(revision)] + (seq!["--author"@, author] + (
                seq!["--minimum-runtime"@, runtime] + Seq::<Seq<char>>::empty()))))),
            );
            &&& revision > 0 ==> read == Ok::<_, Seq<char>>(
                Some((source, output, (key, revision as int, author, runtime))),
            )
            &&& revision == 0 ==> read is Err
        }),
{
    lemma_option_names();
    lemma_import_names();
    text::numbers_are_read_as_they_are_written(revision, i64::MAX as nat);
    let number = text::decimal(revision);
    assert(text::is_digit(number[0]));
    reveal_strlit("-");
    assert(!"-"@.is_prefix_of(number)) by {
        if "-"@.is_prefix_of(number) {
            assert("-"@ == number.subrange(0, 1));
            assert("-"@[0] == number[0]);
        }
    }
    let options = cli::import_option_names();
    let none = Seq::<Seq<char>>::empty();
    let a5 = seq!["--minimum-runtime"@, runtime] + none;
    let a4 = seq!["--author"@, author] + a5;
    let a3 = seq!["--revision"@, number] + a4;
    let a2 = seq!["--package-key"@, key] + a3;
    let a1 = seq!["--output"@, output] + a2;
    let g0 = cli::nothing_given(6);
    let g1 = g0.update(0, Some(source));
    let g2 = g1.update(1, Some(output));
    let g3 = g2.update(2, Some(key));
    let g4 = g3.update(3, Some(number));
    let g5 = g4.update(4, Some(author));
    let g6 = g5.update(5, Some(runtime));
    options_are_taken_once_each("--source"@, source, a1, options, g0);
    options_are_taken_once_each("--output"@, output, a2, options, g1);
    options_are_taken_once_each("--package-key"@, key, a3, options, g2);
    options_are_taken_once_each("--revision"@, number, a4, options, g3);
    options_are_taken_once_each("--author"@, author, a5, options, g4);
    options_are_taken_once_each("--minimum-runtime"@, runtime, none, options, g5);
    assert(cli::option_values(none, options, g6) == Ok::<_, Seq<char>>(Some(g6)));
    assert(cli::option_values(seq!["--source"@, source] + a1, options, g0) == Ok::<_, Seq<char>>(
        Some(g6),
    ));
}

/// The usual catalogue is the file `catalog.sqlite` in the root.
pub proof fn the_usual_catalogue_has_its_name(root: Seq<char>)
    requires
        root.len() > 0,
        root.last() != '/',
    ensures
        cli::below_root(root) == root + "/"@ + "catalog.sqlite"@,
        cli::below_root(root + "/"@) == root + "/"@ + "catalog.sqlite"@,
{
    reveal_strlit("/");
    assert("/"@.is_suffix_of(root + "/"@)) by {
        let all = root + "/"@;
        assert(all.subrange(all.len() - 1, all.len() as int) =~= "/"@);
    }
    if "/"@.is_suffix_of(root) {
        assert("/"@ == root.subrange(root.len() - 1, root.len() as int));
        assert("/"@[0] == root.last());
    }
}

/// A public seed is read from an ordinary file that is no link and has all seven tables.
pub proof fn seeds_are_ordinary_files_with_all_tables(facts: crate::player_staging::FileFacts)
    ensures
        public_seed::seed_file_error(facts) is None <==> !facts.symlink && facts.regular,
        facts.symlink ==> public_seed::seed_file_error(facts) == Some(
            "公共种子源文件不能是符号链接"@,
        ),
        public_seed::required_tables() == seq![
            "map"@,
            "item"@,
            "npc"@,
            "quest"@,
            "quest_requirement"@,
            "quest_reward"@,
            "numeric_curve"@,
        ],
{
}

/// Rows are taken exactly when each of them can be read and no more than ten thousand are
/// read in all.
pub proof fn rows_are_taken_while_they_are_sound_and_few<T>(
    rows: Seq<Result<T, String>>,
    used: nat,
    table: Seq<char>,
    label: Seq<char>,
    from: nat,
)
    requires
        from <= rows.len(),
    ensures
        public_seed::rows_error(rows, used, table, label, from) is None <==> {
            &&& from < rows.len() ==> used + rows.len() <= 10000
            &&& forall|i: int| from <= i < rows.len() ==> (#[trigger] rows[i]) is Ok
        },
    decreases rows.len() - from,
{
    if from < rows.len() {
        rows_are_taken_while_they_are_sound_and_few(rows, used, table, label, from + 1);
        if used + from < 10000 && rows[from as int] is Ok {
            if forall|i: int| from + 1 <= i < rows.len() ==> (#[trigger] rows[i]) is Ok {
                assert forall|i: int| from <= i < rows.len() implies (#[trigger] rows[i]) is Ok by {
                    if i == from {
                    }
                }
            }
        }
    }
}

/// A package that was imported is named as was asked for and holds the rows of the source,
/// each kind in its own place; what the source does not have is empty.
pub proof fn imported_packages_hold_the_rows_of_the_source(
    package: ContentPackage,
    source: PublicSeedSource,
    metadata: PublicSeedPackageMetadata,
    i: int,
)
    requires
        public_seed::is_seed_package(package, source, metadata),
    ensures
        package.package_key@ == metadata.package_key@,
        package.revision == metadata.revision,
        package.author@ == metadata.author@,
        package.minimum_runtime@ == metadata.minimum_runtime@,
        package.maps@.len() == source.maps@.len(),
        package.items@.len() == source.items@.len(),
        package.npcs@.len() == source.npcs@.len(),
        package.quests@.len() == source.quests@.len(),
        package.numeric_curves@.len() == source.numeric_curves@.len(),
        0 <= i < source.maps@.len() ==> package.maps@[i] == source.maps@[i]->Ok_0,
        0 <= i < source.items@.len() ==> package.items@[i] == source.items@[i]->Ok_0,
        0 <= i < source.npcs@.len() ==> package.npcs@[i] == source.npcs@[i]->Ok_0,
        0 <= i < source.numeric_curves@.len() ==> package.numeric_curves@[i]
            == source.numeric_curves@[i]->Ok_0,
        0 <= i < source.quests@.len() ==> {
            let made = package.quests@[i];
            let found = source.quests@[i]->Ok_0;
            &&& made.quest_key@ == found.entry.quest_key@
            &&& made.name@ == found.entry.name@
            &&& made.requirements@.len() == found.requirements@.len()
            &&& made.rewards@.len() == found.rewards@.len()
            &&& forall|k: int|
                0 <= k < found.requirements@.len() ==> made.requirements@[k]
                    == #[trigger] found.requirements@[k]->Ok_0
            &&& forall|k: int|
                0 <= k < found.rewards@.len() ==> made.rewards@[k]
                    == #[trigger] found.rewards@[k]->Ok_0
        },
        package.wuhun@.len() == 0,
        package.skills@.len() == 0,
        package.effects@.len() == 0,
        package.soul_beasts@.len() == 0,
        package.soul_rings@.len() == 0,
        package.transitions@.len() == 0,
{
    if 0 <= i < source.quests@.len() {
        let quests = public_seed::entries_of(source.quests@);
        assert(public_seed::is_quest(package.quests@[i], quests[i]));
    }
}

/// Pictures are taken up to 4096 by 4096 points, sixteen million points in all, and 8 MiB,
/// and keep their size; what is written is what was encoded.
pub proof fn pictures_are_taken_within_their_bounds(
    width: u32,
    height: u32,
    bytes: Seq<u8>,
    encoded_width: u32,
    encoded_height: u32,
)
    ensures
        direct_asset_upload::is_size_taken(width, height) <==> width > 0 && height > 0 && width
            * height <= 4096 * 4096,
        ({
            let written = direct_asset_upload::picture_to_write(
                Some((width, height)),
                Some((bytes, encoded_width, encoded_height)),
            );
            &&& written is Some <==> {
                &&& direct_asset_upload::is_size_taken(width, height)
                &&& encoded_width == width
                &&& encoded_height == height
                &&& 1 <= bytes.len() <= 8 * 1024 * 1024
            }
            &&& written is Some ==> written == Some((bytes, width, height))
        }),
        direct_asset_upload::picture_to_write(None, Some((bytes, width, height))) is None,
        direct_asset_upload::picture_to_write(Some((width, height)), None) is None,
        direct_asset_upload::MAX_DIRECT_ASSET_WIDTH == 4096,
        direct_asset_upload::MAX_DIRECT_ASSET_HEIGHT == 4096,
        direct_asset_upload::MAX_DIRECT_ASSET_DECODE_BYTES == 64 * 1024 * 1024,
{
}

/// A picture is stored exactly when its key is one of the catalogue's, it has 1 byte to
/// 8 MiB, it can be written, and pictures are shown from safe files; faults of the key come
/// before faults of the picture, and those before faults of the settings.
pub proof fn pictures_are_stored_for_the_catalogue_alone(
    config: IllustrationConfig,
    asset_key: Seq<char>,
    input: Seq<u8>,
)
    ensures
        ({
            let result = direct_asset_upload::stored(config, asset_key, input);
            let known = config::is_asset_key(asset_key) && ".webp"@.is_suffix_of(asset_key)
                && crate::catalog::embedded_manifest() is Ok
                && direct_asset_upload::catalog_keys().contains(asset_key);
            let sized = 1 <= input.len() <= 8 * 1024 * 1024;
            let direct = config.enabled && config.mode == IllustrationMode::Direct
                && config::is_safe_path(config.direct_asset_root@);
            let picture = direct_asset_upload::picture_of(input);
            &&& result is Ok <==> known && sized && picture is Some && direct
            &&& result is Ok ==> result == Ok::<_, DirectAssetUploadError>(picture->0)
            &&& known && (!sized || picture is None) ==> result == Err::<
                (Seq<u8>, u32, u32),
                DirectAssetUploadError,
            >(DirectAssetUploadError::InvalidImage)
            &&& known && sized && picture is Some && !direct ==> result == Err::<
                (Seq<u8>, u32, u32),
                DirectAssetUploadError,
            >(DirectAssetUploadError::DirectModeUnavailable)
            &&& !config::is_asset_key(asset_key) || !".webp"@.is_suffix_of(asset_key) ==> result
                == Err::<(Seq<u8>, u32, u32), DirectAssetUploadError>(
                DirectAssetUploadError::InvalidAsset,
            )
        }),
{
}

/// A directory is entered after it was found, or made and found, and shown to lie within the
/// root; whatever else happens refuses it.
pub proof fn directories_are_entered_step_by_step()
    ensures
        direct_asset_upload::directory_next(
            DirectoryState::Look,
            DirectoryEvent::Found(FoundEntry::Directory),
        ) == DirectoryState::Resolve,
        direct_asset_upload::directory_next(
            DirectoryState::Look,
            DirectoryEvent::Found(FoundEntry::Missing),
        ) == DirectoryState::Create,
        direct_asset_upload::directory_next(
            DirectoryState::Look,
            DirectoryEvent::Found(FoundEntry::File),
        ) == DirectoryState::Refused,
        direct_asset_upload::directory_next(
            DirectoryState::Create,
            DirectoryEvent::Created(CreateOutcome::Made),
        ) == DirectoryState::LookAgain,
        direct_asset_upload::directory_next(
            DirectoryState::Create,
            DirectoryEvent::Created(CreateOutcome::AlreadyThere),
        ) == DirectoryState::LookAgain,
        direct_asset_upload::directory_next(
            DirectoryState::Create,
            DirectoryEvent::Created(CreateOutcome::Failed),
        ) == DirectoryState::Refused,
        direct_asset_upload::directory_next(
            DirectoryState::LookAgain,
            DirectoryEvent::Found(FoundEntry::Directory),
        ) == DirectoryState::Resolve,
        direct_asset_upload::directory_next(
            DirectoryState::LookAgain,
            DirectoryEvent::Found(FoundEntry::Missing),
        ) == DirectoryState::Refused,
        direct_asset_upload::directory_next(
            DirectoryState::Resolve,
            DirectoryEvent::Resolved(true),
        ) == DirectoryState::Entered,
        direct_asset_upload::directory_next(
            DirectoryState::Resolve,
            DirectoryEvent::Resolved(false),
        ) == DirectoryState::Refused,
        forall|event: DirectoryEvent| #[trigger]
            direct_asset_upload::directory_next(DirectoryState::Refused, event)
                == DirectoryState::Refused,
        forall|event: DirectoryEvent| #[trigger]
            direct_asset_upload::directory_next(DirectoryState::Entered, event)
                == DirectoryState::Entered,
{
}

/// A way goes through a link exactly when a link comes before anything that is missing,
/// unreadable or special, and then only through plain directories.
pub proof fn links_are_found_on_the_way(rest: Seq<UploadStep>)
    ensures
        direct_asset_upload::link_verdict(seq![UploadStep::Link] + rest) == Ok::<
            bool,
            DirectAssetUploadError,
        >(true),
        direct_asset_upload::link_verdict(seq![UploadStep::Missing] + rest) == Ok::<
            bool,
            DirectAssetUploadError,
        >(false),
        direct_asset_upload::link_verdict(seq![UploadStep::Plain] + rest)
            == direct_asset_upload::link_verdict(rest),
        direct_asset_upload::link_verdict(seq![UploadStep::Special] + rest) is Err,
        direct_asset_upload::link_verdict(seq![UploadStep::Unreadable] + rest) is Err,
        direct_asset_upload::link_verdict(Seq::empty()) == Ok::<bool, DirectAssetUploadError>(
            false,
        ),
{
    assert((seq![UploadStep::Plain] + rest).skip(1) =~= rest);
    assert((seq![UploadStep::Plain] + rest)[0] == UploadStep::Plain);
    assert((seq![UploadStep::Link] + rest)[0] == UploadStep::Link);
    assert((seq![UploadStep::Missing] + rest)[0] == UploadStep::Missing);
    assert((seq![UploadStep::Special] + rest)[0] == UploadStep::Special);
    assert((seq![UploadStep::Unreadable] + rest)[0] == UploadStep::Unreadable);
}

/// What is being written stands beside its place, hidden, under a name of its own.
pub proof fn what_is_being_written_is_hidden(file_name: Seq<char>, random: Seq<u8>)
    ensures
        direct_asset_upload::temporary_file_name(file_name, random) == "."@ + file_name + "."@
            + text::hex(random) + ".upload"@,
        direct_asset_upload::temporary_file_name(file_name, random)[0] == '.',
        direct_asset_upload::temporary_file_name(file_name, random).len() == file_name.len() + 2
            * random.len() + 9,
{
    reveal_strlit(".");
    reveal_strlit(".upload");
    text::hex_has_two_digits_a_byte(random);
}

/// A new version has the next number of its picture, the contents of the picture, and is
/// published as it is made.
pub proof fn new_versions_are_numbered_and_published(
    versions: Seq<VersionRow>,
    asset_id: i64,
    asset: media::Asset,
    now: i64,
)
    ensures
        media_catalog::new_version(versions, asset_id, asset, now) matches Ok(version) ==> {
            &&& version.id == media_catalog::largest_version_id(versions) + 1
            &&& version.asset_id == asset_id
            &&& version.number == media_catalog::largest_number(versions, asset_id) + 1
            &&& version.sha256 == asset.sha256
            &&& version.mime == asset.mime
            &&& version.size == asset.size
            &&& version.driver == "filesystem"@
            &&& version.storage_key == asset.asset_key
            &&& version.status == VersionStatus::Published
            &&& version.created_at == now
            &&& version.published_at == Some(now)
        },
        media_catalog::new_version(versions, asset_id, asset, now) is Err <==> {
            ||| media_catalog::largest_number(versions, asset_id) >= i64::MAX
            ||| asset.size > i64::MAX
            ||| media_catalog::largest_version_id(versions) >= i64::MAX
        },
{
    the_largest_numbers_are_the_largest(versions, Seq::empty(), asset_id);
}

/// Numbers count up within one picture, and identities over all.
pub proof fn the_largest_numbers_are_the_largest(
    versions: Seq<VersionRow>,
    assets: Seq<AssetRow>,
    asset_id: i64,
)
    ensures
        forall|i: int|
            0 <= i < versions.len() ==> (#[trigger] versions[i]).id
                <= media_catalog::largest_version_id(versions),
        forall|i: int|
            0 <= i < versions.len() && (#[trigger] versions[i]).asset_id == asset_id
                ==> versions[i].number <= media_catalog::largest_number(versions, asset_id),
        forall|i: int|
            0 <= i < assets.len() ==> (#[trigger] assets[i]).id <= media_catalog::largest_asset_id(
                assets,
            ),
        media_catalog::largest_number(versions, asset_id) >= 0,
        media_catalog::largest_version_id(versions) >= 0,
        media_catalog::largest_asset_id(assets) >= 0,
        media_catalog::largest_number(versions, asset_id) > 0 ==> exists|i: int|
            0 <= i < versions.len() && (#[trigger] versions[i]).asset_id == asset_id
                && versions[i].number == media_catalog::largest_number(versions, asset_id),
    decreases versions.len() + assets.len(),
{
    if versions.len() > 0 {
        let less = versions.drop_last();
        the_largest_numbers_are_the_largest(less, assets, asset_id);
        let k = versions.len() - 1;
        assert(versions[k] == versions.last());
        assert forall|i: int| 0 <= i < versions.len() implies (#[trigger] versions[i]).id
            <= media_catalog::largest_version_id(versions) by {
            if i < k {
                assert(less[i] == versions[i]);
            }
        }
        assert forall|i: int|
            0 <= i < versions.len() && (#[trigger] versions[i]).asset_id
                == asset_id implies versions[i].number <= media_catalog::largest_number(
            versions,
            asset_id,
        ) by {
            if i < k {
                assert(less[i] == versions[i]);
            }
        }
        if media_catalog::largest_number(versions, asset_id) > 0 {
            if media_catalog::largest_number(versions, asset_id) == media_catalog::largest_number(
                less,
                asset_id,
            ) {
                let i = choose|i: int|
                    0 <= i < less.len() && (#[trigger] less[i]).asset_id == asset_id
                        && less[i].number == media_catalog::largest_number(less, asset_id);
                assert(versions[i] == less[i]);
            }
        }
    } else if assets.len() > 0 {
        let less = assets.drop_last();
        the_largest_numbers_are_the_largest(versions, less, asset_id);
        assert forall|i: int| 0 <= i < assets.len() implies (#[trigger] assets[i]).id
            <= media_catalog::largest_asset_id(assets) by {
            if i < assets.len() - 1 {
                assert(less[i] == assets[i]);
            }
        }
    }
}

/// Taking a version back changes nothing but its state, and only if it was published; making
/// one current publishes it, keeps the first time it was published, and changes no other.
pub proof fn versions_change_their_state_alone(version: VersionRow, id: i64, now: i64)
    ensures
        media_catalog::disabled(version, id) == (if version.id == id && version.status
            == VersionStatus::Published {
            VersionRow { status: VersionStatus::Disabled, ..version }
        } else {
            version
        }),
        version.id != id ==> media_catalog::published(version, id, now) == version,
        version.id == id ==> media_catalog::published(version, id, now) == (VersionRow {
            status: VersionStatus::Published,
            published_at: Some(
                if version.published_at is Some {
                    version.published_at->0
                } else {
                    now
                },
            ),
            ..version
        }),
{
}

/// A catalogue fits an index exactly when the current versions that are published are as many
/// as the pictures, none is published besides, and each picture has a current version with
/// its digest, type, size and place.
pub proof fn catalogues_fit_their_pictures(state: State, list: Seq<media::Asset>, i: int)
    requires
        media_catalog::validation(state, list) is Ok,
        0 <= i < list.len(),
    ensures
        media_catalog::published_count(state.versions) == list.len(),
        media_catalog::current_versions(state.assets, state.versions).len() == list.len(),
        exists|k: int|
            #![trigger media_catalog::current_versions(state.assets, state.versions)[k]]
            0 <= k < list.len() && {
                let (key, version) = media_catalog::current_versions(
                    state.assets,
                    state.versions,
                )[k];
                &&& key == list[i].asset_key
                &&& version.sha256 == list[i].sha256
                &&& version.mime == list[i].mime
                &&& version.size == list[i].size
                &&& version.driver == "filesystem"@
                &&& version.storage_key == list[i].asset_key
            },
{
    let current = media_catalog::current_versions(state.assets, state.versions);
    assert(media_catalog::is_described(current, list[i]));
    let k = choose|k: int|
        0 <= k < current.len() && (#[trigger] current[k]).0 == list[i].asset_key
            && media_catalog::describes(current[k].1, list[i]);
    assert(current[k].0 == list[i].asset_key);
}

/// The faults of a catalogue have their own words.
pub proof fn faults_of_a_catalogue_have_their_words()
    ensures
        media_catalog::catalog_error_text(CatalogError::DatabaseUnavailable)
            == "媒体 catalog 数据库不可用"@,
        media_catalog::catalog_error_text(CatalogError::SchemaInvalid) == "媒体 catalog 结构无效"@,
        media_catalog::catalog_error_text(CatalogError::PublishedIndexMismatch)
            == "媒体 catalog 与 published root 不一致"@,
{
}

/// A picture that waits is known by the account, the message, the sender, and the group that
/// the message came from or the sender in private; there is none where any of these is
/// missing or not sound, or the event is of another kind.
pub proof fn waiting_pictures_are_known_by_their_message(
    facts: event::QqFacts,
    sender_id: Seq<char>,
    message_id: Seq<char>,
)
    ensures
        qq_media::key_of(facts, sender_id, message_id) matches Some(key) ==> {
            &&& facts.is_object && facts.payload_is_object && facts.context_is_object
            &&& facts.context_protocol == Some("qq-official"@)
            &&& facts.context_account_id == Some(key.account_id)
            &&& key.message_id == message_id
            &&& key.sender_id == sender_id
            &&& qq_media::is_valid_id(key.account_id)
            &&& qq_media::is_valid_id(sender_id)
            &&& qq_media::is_valid_id(message_id)
            &&& match key.target {
                Target::Private(id) => id == sender_id && facts.event_type == Some(
                    "C2C_MESSAGE_CREATE"@,
                ),
                Target::Group(id) => {
                    &&& qq_media::is_valid_id(id)
                    &&& Some(id) == (if facts.root_group_openid is Some {
                        facts.root_group_openid
                    } else {
                        facts.payload_group_openid
                    })
                    &&& facts.event_type == Some("GROUP_AT_MESSAGE_CREATE"@) || facts.event_type
                        == Some("GROUP_MESSAGE_CREATE"@)
                },
            }
        },
        ({
            &&& facts.is_object && facts.payload_is_object && facts.context_is_object
            &&& facts.context_protocol == Some("qq-official"@)
            &&& facts.context_account_id matches Some(account)
            &&& qq_media::is_valid_id(account)
            &&& qq_media::is_valid_id(sender_id)
            &&& qq_media::is_valid_id(message_id)
            &&& facts.event_type == Some("C2C_MESSAGE_CREATE"@)
        }) ==> qq_media::key_of(facts, sender_id, message_id) is Some,
        forall|value: Seq<char>| #[trigger]
            qq_media::is_valid_id(value) <==> value.len() > 0 && text::trimmed(value) == value
                && !text::has_control(value),
{
    reveal_strlit("C2C_MESSAGE_CREATE");
    reveal_strlit("GROUP_AT_MESSAGE_CREATE");
    reveal_strlit("GROUP_MESSAGE_CREATE");
    assert("C2C_MESSAGE_CREATE"@[0] == 'C' && "GROUP_AT_MESSAGE_CREATE"@[0] == 'G'
        && "GROUP_MESSAGE_CREATE"@[0] == 'G');
}

/// At most eight pictures wait; what is taken back is gone and every other stays.
pub proof fn only_what_is_taken_back_is_gone(
    entries: Seq<(PictureKey, Seq<u8>)>,
    key: PictureKey,
    entry: (PictureKey, Seq<u8>),
)
    ensures
        entry.0 != key ==> (entries.contains(entry) <==> qq_media::without(entries, key).contains(
            entry,
        )),
        entry.0 == key ==> !qq_media::without(entries, key).contains(entry),
        qq_media::MAX_PENDING_QQ_INLINE_IMAGES == 8,
    decreases entries.len(),
{
    if entries.len() > 0 {
        let less = entries.drop_last();
        only_what_is_taken_back_is_gone(less, key, entry);
        let kept = qq_media::without(less, key);
        let after = qq_media::without(entries, key);
        if entries.contains(entry) {
            let i = choose|i: int| 0 <= i < entries.len() && entries[i] == entry;
            if i < less.len() {
                assert(less[i] == entry);
                if entry.0 != key {
                    let j = choose|j: int| 0 <= j < kept.len() && kept[j] == entry;
                    assert(after[j] == entry);
                }
            } else if entry.0 != key {
                assert(after[kept.len() as int] == entry);
            }
        }
        if after.contains(entry) {
            let j = choose|j: int| 0 <= j < after.len() && after[j] == entry;
            if j < kept.len() {
                assert(kept[j] == entry);
                if entry.0 != key {
                    let i = choose|i: int| 0 <= i < less.len() && less[i] == entry;
                    assert(entries[i] == entry);
                }
            } else {
                assert(entries[entries.len() - 1] == entry);
            }
        }
    }
}

/// A reply that is ignored sends nothing; one without an addressee is refused; groups and
/// private chats get the parts of the reply, behind a reference to the message where there is
/// one; channels get the plain text.
pub proof fn replies_are_sent_as_their_place_takes_them(
    content: Seq<char>,
    id: Seq<char>,
    reference: Seq<char>,
)
    requires
        content.len() > 0,
    ensures
        ({
            let part = message::segment("text"@, "text"@, content);
            let quoted = message::segment("reply"@, "id"@, reference);
            &&& plugin::queue_plan(Reply::Ignore, Some(ReplyTarget::Group(id)), None) == Plan::Done
            &&& plugin::queue_plan(Reply::Text(content), None, None) == Plan::Refuse
            &&& plugin::queue_plan(
                Reply::Text(content),
                Some(ReplyTarget::Group(id)),
                None,
            ) == Plan::SendRich(ReplyTarget::Group(id), "["@ + part + "]"@)
            &&& plugin::queue_plan(
                Reply::Text(content),
                Some(ReplyTarget::Private(id)),
                Some(reference),
            ) == Plan::SendRich(
                ReplyTarget::Private(id),
                "["@ + (quoted + ","@ + part) + "]"@,
            )
            &&& plugin::queue_plan(
                Reply::Text(content),
                Some(ReplyTarget::Channel(id)),
                None,
            ) == Plan::SendText(ReplyTarget::Channel(id), content)
            &&& plugin::queue_plan(
                Reply::Text(content),
                Some(ReplyTarget::ChannelPrivate(id)),
                None,
            ) == Plan::SendText(ReplyTarget::ChannelPrivate(id), content)
        }),
        plugin::plain_text(Reply::Ignore) is None,
        plugin::plain_text(Reply::Text(content)) == Some(content),
{
    let part = message::segment("text"@, "text"@, content);
    let quoted = message::segment("reply"@, "id"@, reference);
    assert(text::joined(seq![part], ","@) == part);
    let both = seq![quoted] + seq![part];
    assert(both.drop_last() =~= seq![quoted]);
    assert(both.last() == part);
    assert(text::joined(seq![quoted], ","@) == quoted);
    assert(text::joined(both, ","@) == quoted + ","@ + part);
}

/// The plain text of a reply in parts is that of its texts and of its marked texts, in order.
pub proof fn plain_texts_are_read_from_their_parts(document: Seq<char>, i: nat)
    ensures
        ({
            let at = "/"@ + text::decimal(i);
            let kind = event::text_at(document, at + "/type"@);
            let sound = outside::json_at(document, at + "/data"@) == Some(JsonShape::Object);
            let content = plugin::segment_text(document, i);
            &&& !sound ==> content is None
            &&& sound && kind == Some("text"@) ==> content == event::text_at(
                document,
                at + "/data/text"@,
            )
            &&& sound && kind == Some("markdown"@) ==> content == event::text_at(
                document,
                at + "/data/content"@,
            )
            &&& kind != Some("text"@) && kind != Some("markdown"@) ==> content is None
            &&& plugin::segment_texts(document, (i + 1) as nat) == (if content is Some && (
            content->0).len() > 0 {
                plugin::segment_texts(document, i).push(content->0)
            } else {
                plugin::segment_texts(document, i)
            })
        }),
{
    reveal_strlit("text");
    reveal_strlit("markdown");
    assert("text"@.len() == 4 && "markdown"@.len() == 8);
}

/// A server that started takes the place of the one before; where it did not start, the one
/// before runs on if it could be started again, and none runs if it could not.
pub proof fn servers_are_replaced_only_by_running_ones(error: Seq<char>, again: Seq<char>)
    ensures
        startup::replaced(Ok(()), None) == (ServerSlot::Replacement, None::<Seq<char>>),
        startup::replaced(Err(error), None) == (ServerSlot::Previous, Some(error)),
        startup::replaced(Err(error), Some(Ok(()))) == (ServerSlot::Previous, Some(error)),
        startup::replaced(Err(error), Some(Err(again))) == (
            ServerSlot::Empty,
            Some("管理服务新配置启动失败："@ + error + "；恢复旧服务失败："@ + again),
        ),
{
}

/// A picture that is new gets the next number and the time it was taken in; one that is
/// published again keeps its number and when it was first taken in.
pub proof fn pictures_remember_when_they_came(
    state: State,
    asset: media::Asset,
    now: i64,
    at: int,
)
    requires
        media_catalog::after_publishing(state, asset, now) is Ok,
        at == media_catalog::asset_position(state.assets, asset.asset_key),
    ensures
        ({
            let after = media_catalog::after_publishing(state, asset, now)->Ok_0;
            &&& at < state.assets.len() ==> {
                &&& after.assets.len() == state.assets.len()
                &&& after.assets[at].id == state.assets[at].id
                &&& after.assets[at].created_at == state.assets[at].created_at
                &&& after.assets[at].updated_at == now
                &&& after.assets[at].current is Some
                &&& forall|i: int|
                    0 <= i < state.assets.len() && i != at ==> after.assets[i]
                        == #[trigger] state.assets[i]
            }
            &&& at >= state.assets.len() ==> {
                let row = after.assets.last();
                &&& after.assets.len() == state.assets.len() + 1
                &&& row.id == media_catalog::largest_asset_id(state.assets) + 1
                &&& row.asset_key == asset.asset_key
                &&& row.created_at == now
                &&& row.updated_at == now
                &&& row.current is Some
            }
        }),
{
    media_catalog::position_facts(state.assets, asset.asset_key);
    the_largest_numbers_are_the_largest(Seq::empty(), state.assets, 0);
    let assets = media_catalog::with_asset(state.assets, asset.asset_key, now)->Ok_0;
    media_catalog::position_facts(assets, asset.asset_key);
    if at >= state.assets.len() {
        let n = state.assets.len() as int;
        assert(assets.len() == n + 1);
        assert(assets[n].asset_key == asset.asset_key);
        assert(assets.drop_last() =~= state.assets);
        assert(media_catalog::asset_position(assets, asset.asset_key) == n);
    }
}

/// A picture that is no longer listed is no longer current, from now on; every other row stays
/// as it is.
pub proof fn only_missing_pictures_are_let_go(row: AssetRow, list: Seq<media::Asset>, now: i64)
    ensures
        row.current is Some && !media::lists(list, row.asset_key) ==> media_catalog::kept_row(
            row,
            list,
            now,
        ) == (AssetRow { current: None, updated_at: now, ..row }),
        row.current is None || media::lists(list, row.asset_key) ==> media_catalog::kept_row(
            row,
            list,
            now,
        ) == row,
{
}

/// A reply in parts is sent with the parts that it has, in order, behind the reference.
pub proof fn replies_in_parts_keep_their_parts(
    parts: Seq<char>,
    count: nat,
    reference: Seq<char>,
    i: int,
)
    requires
        parts.len() > 0,
        outside::json_at(parts, ""@) == Some(JsonShape::Array(count)),
        plugin::array_items(parts, count) is Some,
        0 <= i < count,
    ensures
        plugin::queued_items(Reply::Rich(parts), None) is Some,
        (plugin::queued_items(Reply::Rich(parts), None)->0).len() == count,
        Some((plugin::queued_items(Reply::Rich(parts), None)->0)[i]) == outside::json_text_at(
            parts,
            "/"@ + text::decimal(i as nat),
        ),
        plugin::queued_items(Reply::Rich(parts), Some(reference)) == Some(
            seq![message::segment("reply"@, "id"@, reference)] + plugin::queued_items(
                Reply::Rich(parts),
                None,
            )->0,
        ),
{
    lemma_array_items(parts, count, i);
}

proof fn lemma_array_items(parts: Seq<char>, count: nat, i: int)
    requires
        plugin::array_items(parts, count) is Some,
        0 <= i < count,
    ensures
        (plugin::array_items(parts, count)->0).len() == count,
        Some((plugin::array_items(parts, count)->0)[i]) == outside::json_text_at(
            parts,
            "/"@ + text::decimal(i as nat),
        ),
    decreases count,
{
    if count > 1 {
        if i < count - 1 {
            lemma_array_items(parts, (count - 1) as nat, i);
        } else {
            lemma_array_items(parts, (count - 1) as nat, 0);
        }
    } else {
        assert(plugin::array_items(parts, 0) == Some(Seq::<Seq<char>>::empty()));
    }
}

} // verus!
