//! Which pictures are read from the files of the game, and which packages are taken.
use crate::assets;
use crate::assets::{PathStep, PictureFile, RootStatus};
use crate::catalog;
use crate::config::{IllustrationConfig, IllustrationMode};
use crate::content::ContentPackage;
use crate::content_package;
use crate::content_package::{PackageFile, PackageFormat};
use crate::content_rules;
use crate::media;
use crate::media::MediaError;
use crate::player_staging::FileFacts;
use crate::signature;
use crate::text;
use vstd::prelude::*;

verus! {

/// Pictures are read from the directory where they are switched on, in the direct mode, and a
/// directory is set; a directory that is not there holds none.
pub proof fn pictures_are_read_where_they_are_switched_on(
    config: IllustrationConfig,
    root: RootStatus,
    files: Seq<Option<PictureFile>>,
)
    ensures
        ({
            let read = config.enabled && config.mode == IllustrationMode::Direct
                && config.direct_asset_root@.len() > 0;
            let verdict = assets::root_verdict(root);
            &&& !read ==> assets::load_error(config, root, files) is None && assets::loaded(
                config,
                root,
                files,
            ) == Map::<Seq<char>, Seq<u8>>::empty()
            &&& read && verdict == Ok::<bool, Seq<char>>(false) ==> assets::load_error(
                config,
                root,
                files,
            ) is None && assets::loaded(config, root, files) == Map::<Seq<char>, Seq<u8>>::empty()
            &&& read && verdict is Err ==> assets::load_error(config, root, files) == Some(
                verdict->Err_0,
            )
            &&& read && verdict == Ok::<bool, Seq<char>>(true) ==> {
                &&& assets::load_error(config, root, files) is None <==> assets::size_of_pictures(
                    files,
                    19,
                ) <= 64 * 1024 * 1024
                &&& assets::loaded(config, root, files) == assets::pictures_of(files, 19)
            }
        }),
{
}

/// A root is used exactly when it exists, is no link, lies within the data, and is a
/// directory; each fault has its own words.
pub proof fn roots_are_directories_within_the_data(status: RootStatus)
    ensures
        assets::root_verdict(status) == Ok::<bool, Seq<char>>(true) <==> {
            &&& status.exists == Some(true)
            &&& status.is_symlink == Some(false)
            &&& status.data_dir_resolved
            &&& status.root_resolved
            &&& status.inside_data_dir
            &&& status.is_directory == Some(true)
        },
        assets::root_verdict(status) == Ok::<bool, Seq<char>>(false) <==> status.exists == Some(
            false,
        ),
        status.exists == Some(true) && status.is_symlink == Some(true) ==> assets::root_verdict(
            status,
        ) == Err::<bool, Seq<char>>("本地插图根目录不能是符号链接"@),
        status.exists == Some(true) && status.is_symlink == Some(false) && status.data_dir_resolved
            && status.root_resolved && !status.inside_data_dir ==> assets::root_verdict(status)
            == Err::<bool, Seq<char>>("本地插图根目录不能离开 data_dir"@),
        status.exists == Some(true) && status.is_symlink == Some(false) && status.data_dir_resolved
            && status.root_resolved && status.inside_data_dir && status.is_directory == Some(false)
            ==> assets::root_verdict(status) == Err::<bool, Seq<char>>(
            "本地插图根目录必须是目录"@,
        ),
{
    assert(status.exists is Some ==> status.exists == Some(true) || status.exists == Some(false))
        by {
        if let Some(answer) = status.exists {
            if answer {
            }
        }
    }
    assert(status.is_symlink is Some ==> status.is_symlink == Some(true) || status.is_symlink
        == Some(false)) by {
        if let Some(answer) = status.is_symlink {
            if answer {
            }
        }
    }
    assert(status.is_directory is Some ==> status.is_directory == Some(true)
        || status.is_directory == Some(false)) by {
        if let Some(answer) = status.is_directory {
            if answer {
            }
        }
    }
}

/// A picture is taken exactly when the way to it is plain, it lies within the root, is still
/// there, and is a file of 1 byte to 8 MiB that did not change, with the first bytes that
/// belong to its extension.
pub proof fn pictures_are_taken_for_what_they_are(key: Seq<char>, file: PictureFile)
    ensures
        assets::file_taken(key, file) <==> {
            let extension = assets::picture_extension(text::parts(key, '/').last());
            let bytes = file.bytes@;
            &&& !assets::goes_through_link(file.steps@)
            &&& file.inside_root
            &&& file.still_there
            &&& file.is_file
            &&& 1 <= file.size <= 8 * 1024 * 1024
            &&& bytes.len() == file.size
            &&& file.size_after == Some(file.size)
            &&& {
                ||| extension == Some("png"@) && signature::is_png(bytes)
                ||| extension == Some("jpg"@) && signature::is_jpeg(bytes)
                ||| extension == Some("jpeg"@) && signature::is_jpeg(bytes)
                ||| extension == Some("webp"@) && signature::is_webp(bytes)
                ||| extension == Some("gif"@) && signature::is_gif(bytes)
                ||| extension == Some("bmp"@) && signature::is_bmp(bytes)
            }
        },
{
    reveal_strlit("png");
    reveal_strlit("jpg");
    reveal_strlit("jpeg");
    reveal_strlit("webp");
    reveal_strlit("gif");
    reveal_strlit("bmp");
    assert("png"@[0] == 'p' && "jpg"@[0] == 'j' && "jpeg"@[0] == 'j' && "webp"@[0] == 'w');
    assert("gif"@[0] == 'g' && "bmp"@[0] == 'b' && "jpg"@.len() == 3 && "jpeg"@.len() == 4);
}

/// A way that meets a link or something special before anything is missing is not plain.
pub proof fn ways_are_plain_step_by_step(rest: Seq<PathStep>)
    ensures
        assets::goes_through_link(seq![PathStep::Link] + rest),
        assets::goes_through_link(seq![PathStep::Special] + rest),
        !assets::goes_through_link(seq![PathStep::Missing] + rest),
        assets::goes_through_link(seq![PathStep::Plain] + rest) <==> assets::goes_through_link(
            rest,
        ),
        !assets::goes_through_link(Seq::empty()),
{
    assert((seq![PathStep::Plain] + rest).skip(1) =~= rest);
    assert((seq![PathStep::Plain] + rest)[0] == PathStep::Plain);
    assert((seq![PathStep::Link] + rest)[0] == PathStep::Link);
    assert((seq![PathStep::Special] + rest)[0] == PathStep::Special);
    assert((seq![PathStep::Missing] + rest)[0] == PathStep::Missing);
}

/// A picture of the catalogue is loaded with the bytes of the file that was found for it.
pub proof fn pictures_are_loaded_under_their_own_keys(
    files: Seq<Option<PictureFile>>,
    count: int,
    i: int,
)
    requires
        0 <= i < count <= 19,
        forall|j: int|
            0 <= j < 19 && j != i ==> catalog::expected_asset_keys()[j]
                != catalog::expected_asset_keys()[i],
    ensures
        ({
            let key = catalog::expected_asset_keys()[i];
            let loaded = assets::pictures_of(files, count);
            &&& i < files.len() && files[i] is Some && assets::file_taken(key, files[i]->0)
                ==> loaded.contains_pair(key, (files[i]->0).bytes@)
            &&& !(i < files.len() && files[i] is Some && assets::file_taken(key, files[i]->0))
                ==> !loaded.contains_key(key)
        }),
    decreases count,
{
    if count - 1 > i {
        pictures_are_loaded_under_their_own_keys(files, count - 1, i);
    } else {
        lemma_not_loaded_yet(files, count - 1, i);
    }
}

proof fn lemma_not_loaded_yet(files: Seq<Option<PictureFile>>, count: int, i: int)
    requires
        0 <= count <= i < 19,
        forall|j: int|
            0 <= j < 19 && j != i ==> catalog::expected_asset_keys()[j]
                != catalog::expected_asset_keys()[i],
    ensures
        !assets::pictures_of(files, count).contains_key(catalog::expected_asset_keys()[i]),
    decreases count,
{
    if count > 0 {
        lemma_not_loaded_yet(files, count - 1, i);
    }
}

/// At most 256 pictures and 64 MiB are kept.
pub proof fn pictures_are_kept_within_bounds(count: nat, taken: nat, more: nat)
    requires
        taken + more <= usize::MAX,
    ensures
        assets::refusal(count, taken, more) is None <==> count < 256 && taken + more <= 64 * 1024
            * 1024,
{
}

/// A package is read as JSON or as TOML by its name, up to 2 MiB.
pub proof fn packages_are_read_by_their_format(size: nat, format: Seq<char>)
    ensures
        format == "json"@ && size <= 2 * 1024 * 1024 ==> content_package::format_of(size, format)
            == Ok::<_, Seq<char>>(PackageFormat::Json),
        format == "toml"@ && size <= 2 * 1024 * 1024 ==> content_package::format_of(size, format)
            == Ok::<_, Seq<char>>(PackageFormat::Toml),
        content_package::format_of(size, format) is Ok ==> size <= 2 * 1024 * 1024 && (format
            == "json"@ || format == "toml"@),
{
    reveal_strlit("json");
    reveal_strlit("toml");
    assert("json"@[0] == 'j' && "toml"@[0] == 't');
}

/// A package is taken exactly when it has a known format, can be read and written, and no rule
/// of content is broken; a fault of the format comes before one of the text, and one of the
/// text before those of the content.
pub proof fn packages_are_taken_when_nothing_is_wrong(
    size: nat,
    format: Seq<char>,
    parsed: Result<ContentPackage, String>,
    canonical: Result<String, String>,
)
    ensures
        ({
            let error = content_package::package_error(size, format, parsed, canonical);
            let known = content_package::format_of(size, format);
            &&& error is None <==> known is Ok && parsed is Ok && content_rules::shape_errors(
                parsed->Ok_0,
            ).len() == 0 && canonical is Ok
            &&& known is Err ==> error == Some(known->Err_0)
            &&& known == Ok::<_, Seq<char>>(PackageFormat::Json) && parsed is Err ==> error
                == Some("JSON 内容包无效："@ + (parsed->Err_0)@)
            &&& known == Ok::<_, Seq<char>>(PackageFormat::Toml) && parsed is Err ==> error
                == Some("TOML 内容包无效："@ + (parsed->Err_0)@)
            &&& known is Ok && parsed is Ok && content_rules::shape_errors(parsed->Ok_0).len() > 0
                ==> error == Some(
                "内容包字段校验失败："@ + text::joined(
                    content_rules::shape_errors(parsed->Ok_0),
                    "；"@,
                ),
            )
        }),
{
}

/// A file with a package is read exactly when it is an ordinary file, no link, within the
/// data, of at most 2 MiB, and its text and its name can be read.
pub proof fn package_files_are_ordinary_and_small(found: PackageFile)
    ensures
        content_package::read_error(found) is None <==> {
            &&& !found.file.symlink
            &&& found.file.regular
            &&& found.file.size <= 2 * 1024 * 1024
            &&& found.inside_root
            &&& found.size_read <= 2 * 1024 * 1024
            &&& found.content is Some
            &&& found.extension is Some
        },
        found.file.symlink ==> content_package::read_error(found) == Some(
            "内容包文件不能是符号链接"@,
        ),
        !found.file.symlink && found.file.regular && found.file.size <= 2 * 1024 * 1024
            && !found.inside_root ==> content_package::read_error(found) == Some(
            "内容包文件必须位于 QimenBot data_dir 内"@,
        ),
{
}

/// The faults of the picture service have their own words.
pub proof fn faults_of_the_service_have_their_words()
    ensures
        media::media_error_text(MediaError::MissingRoot) == "DOULUO_MEDIA_ROOT is required"@,
        media::media_error_text(MediaError::InvalidBind)
            == "DOULUO_MEDIA_BIND must be a valid socket address"@,
        media::media_error_text(MediaError::RootUnavailable) == "media root is unavailable"@,
        media::media_error_text(MediaError::RootNotDirectory) == "media root is not a directory"@,
        media::media_error_text(MediaError::IndexUnavailable) == "media index could not be built"@,
        media::media_error_text(MediaError::InvalidCatalog)
            == "DOULUO_MEDIA_CATALOG must not be empty"@,
        media::media_error_text(MediaError::CatalogUnavailable)
            == "media catalog is unavailable or inconsistent"@,
        media::media_error_text(MediaError::BindUnavailable) == "media listener could not bind"@,
        media::media_error_text(MediaError::ServerUnavailable)
            == "media server stopped unexpectedly"@,
{
}

/// White space is what the Unicode standard calls so, and control characters are those below
/// the space and around the delete.
pub proof fn characters_have_their_classes(c: char)
    ensures
        text::is_white(c) <==> {
            ||| c == '\t'
            ||| c == '\n'
            ||| c == '\u{b}'
            ||| c == '\u{c}'
            ||| c == '\r'
            ||| c == ' '
            ||| c == '\u{85}'
            ||| c == '\u{a0}'
            ||| c == '\u{1680}'
            ||| '\u{2000}' <= c <= '\u{200a}'
            ||| c == '\u{2028}'
            ||| c == '\u{2029}'
            ||| c == '\u{202f}'
            ||| c == '\u{205f}'
            ||| c == '\u{3000}'
        },
        text::is_control(c) <==> c < ' ' || '\u{7f}' <= c <= '\u{9f}',
        text::is_digit(c) <==> '0' <= c <= '9',
        text::is_lower(c) <==> 'a' <= c <= 'z',
        text::is_upper(c) <==> 'A' <= c <= 'Z',
{
}

/// A number of one digit is that digit, one more digit is one more character, and a negative
/// number has its sign before it.
pub proof fn numbers_are_written_digit_by_digit(n: nat, d: nat)
    requires
        d < 10,
    ensures
        text::decimal(0) == seq!['0'],
        text::decimal(1) == seq!['1'],
        text::decimal(9) == seq!['9'],
        n > 0 ==> text::decimal(10 * n + d) == text::decimal(n) + text::decimal(d),
        n > 0 ==> text::integer(-(n as int)) == seq!['-'] + text::decimal(n),
        text::integer(n as int) == text::decimal(n),
{
    reveal_strlit("-");
    assert("-"@ =~= seq!['-']);
    if n > 0 {
        let all = 10 * n + d;
        assert(all / 10 == n && all % 10 == d) by (nonlinear_arith)
            requires
                all == 10 * n + d,
                d < 10,
        ;
        assert(text::decimal(all) =~= text::decimal(n) + text::decimal(d));
    }
}

/// Texts are joined with the separator between each two of them and nowhere else.
pub proof fn separators_stand_between_texts(list: Seq<Seq<char>>, more: Seq<char>, separator: Seq<char>)
    ensures
        text::joined(Seq::empty(), separator).len() == 0,
        text::joined(seq![more], separator) == more,
        list.len() > 0 ==> text::joined(list.push(more), separator) == text::joined(
            list,
            separator,
        ) + separator + more,
{
    assert(list.push(more).drop_last() =~= list);
}

/// Small letters stand for capital ones, and every other character for itself.
pub proof fn capitals_become_small(c: char)
    ensures
        c == 'A' ==> text::lower(c) == 'a',
        c == 'M' ==> text::lower(c) == 'm',
        c == 'Z' ==> text::lower(c) == 'z',
        !('A' <= c <= 'Z') ==> text::lower(c) == c,
        'A' <= c <= 'Z' ==> text::lower(c) as int == c as int + 32,
{
}

/// Bytes are written as two hexadecimal digits, the higher one first.
pub proof fn bytes_are_written_higher_digit_first(bytes: Seq<u8>, byte: u8)
    ensures
        ({
            let digits = text::hex(bytes.push(byte));
            let n = (2 * bytes.len()) as int;
            &&& digits.take(n) == text::hex(bytes)
            &&& byte == 0x0f ==> digits[n] == '0' && digits[n + 1] == 'f'
            &&& byte == 0xa9 ==> digits[n] == 'a' && digits[n + 1] == '9'
            &&& digits[n] == text::hex_digit(byte as int / 16)
            &&& digits[n + 1] == text::hex_digit(byte as int % 16)
        }),
{
    text::hex_has_two_digits_a_byte(bytes);
    assert(bytes.push(byte).drop_last() =~= bytes);
    let digits = text::hex(bytes.push(byte));
    assert(digits.take((2 * bytes.len()) as int) =~= text::hex(bytes));
}

} // verus!
