//! Packages of content on their way from a text or a file to the catalogue.
use crate::config;
use crate::content::{ContentPackage, LoadedContentPackage, MAX_PACKAGE_BYTES};
use crate::content_rules;
use crate::content_rules::validate_shape;
use crate::media::sha256_hex;
use crate::outside;
use crate::player_staging::FileFacts;
use crate::text;
use crate::text::{cat2, join, same, to_lower};
use vstd::prelude::*;
use vstd::string::*;
use vstd::utf8::*;

verus! {

/// The forms in which packages are written.
#[derive(Clone, Copy, Debug, PartialEq, Eq, Structural)]
pub enum PackageFormat {
    Json,
    Toml,
}

/// The refusal of a package that is too large.
pub const TOO_LARGE: &'static str = "内容包超过 2 MiB 大小上限";

/// The form that a package is in, from the name of the form and the size of the text in
/// bytes.
pub open spec fn format_of(size: nat, source_format: Seq<char>) -> Result<
    PackageFormat,
    Seq<char>,
> {
    if size > MAX_PACKAGE_BYTES {
        Err(TOO_LARGE@)
    } else if source_format == "json"@ {
        Ok(PackageFormat::Json)
    } else if source_format == "toml"@ {
        Ok(PackageFormat::Toml)
    } else {
        Err("内容包扩展名必须是 .json 或 .toml"@)
    }
}

/// Says how the text of a package is to be read.
pub fn package_format(package_text: &str, source_format: &str) -> (result: Result<
    PackageFormat,
    String,
>)
    ensures
        match result {
            Ok(format) => format_of(package_text.spec_bytes().len(), source_format@)
                == Ok::<_, Seq<char>>(format),
            Err(message) => format_of(package_text.spec_bytes().len(), source_format@) matches Err(
                reason,
            ) && reason == message@,
        },
{
    if package_text.as_bytes().len() > MAX_PACKAGE_BYTES {
        return Err(TOO_LARGE.to_owned());
    }
    if same(source_format, "json") {
        return Ok(PackageFormat::Json);
    }
    if same(source_format, "toml") {
        return Ok(PackageFormat::Toml);
    }
    Err("内容包扩展名必须是 .json 或 .toml".to_owned())
}

/// The fingerprint of a package, from its canonical text.
pub fn content_hash(canonical: &str) -> (hash: String)
    ensures
        hash@ == text::hex(outside::sha256_digest(canonical.spec_bytes())),
{
    sha256_hex(canonical.as_bytes())
}

/// Why the text of a package is not taken. What was read out of the text, and the
/// canonical text of that, come from outside, or the reason why there is none.
pub open spec fn package_error(
    size: nat,
    source_format: Seq<char>,
    parsed: Result<ContentPackage, String>,
    canonical: Result<String, String>,
) -> Option<Seq<char>> {
    match format_of(size, source_format) {
        Err(message) => Some(message),
        Ok(format) => match parsed {
            Err(error) => Some(
                (if format == PackageFormat::Json {
                    "JSON 内容包无效："@
                } else {
                    "TOML 内容包无效："@
                }) + error@,
            ),
            Ok(package) => {
                let errors = content_rules::shape_errors(package);
                if errors.len() > 0 {
                    Some("内容包字段校验失败："@ + text::joined(errors, "；"@))
                } else {
                    match canonical {
                        Err(error) => Some("序列化内容包失败："@ + error@),
                        Ok(_) => None,
                    }
                }
            },
        },
    }
}

/// Takes a package that was read out of a text.
pub fn parse_package_text(
    package_text: &str,
    source_format: &str,
    parsed: Result<ContentPackage, String>,
    canonical: Result<String, String>,
) -> (result: Result<LoadedContentPackage, String>)
    ensures
        config::failure(result) == package_error(
            package_text.spec_bytes().len(),
            source_format@,
            parsed,
            canonical,
        ),
        result matches Ok(loaded) ==> {
            &&& parsed == Ok::<_, String>(loaded.package)
            &&& canonical matches Ok(canonical) && loaded.content_hash@ == text::hex(
                outside::sha256_digest(encode_utf8(canonical@)),
            )
            &&& loaded.source_format@ == source_format@
        },
{
    let format = match package_format(package_text, source_format) {
        Ok(format) => format,
        Err(message) => return Err(message),
    };
    let package = match parsed {
        Ok(package) => package,
        Err(error) => match format {
            PackageFormat::Json => return Err(cat2("JSON 内容包无效：", error.as_str())),
            PackageFormat::Toml => return Err(cat2("TOML 内容包无效：", error.as_str())),
        },
    };
    let errors = validate_shape(&package);
    if errors.len() > 0 {
        return Err(cat2("内容包字段校验失败：", join(&errors, "；").as_str()));
    }
    let canonical = match canonical {
        Ok(canonical) => canonical,
        Err(error) => return Err(cat2("序列化内容包失败：", error.as_str())),
    };
    let hash = content_hash(canonical.as_str());
    Ok(
        LoadedContentPackage {
            package,
            content_hash: hash,
            source_format: source_format.to_owned(),
        },
    )
}

/// A file with a package, as it was found and read.
#[derive(Clone, Debug, PartialEq, Eq)]
pub struct PackageFile {
    pub file: FileFacts,
    /// Whether the file really lies within the data directory.
    pub inside_root: bool,
    /// How many bytes were read, one more than may be read at most.
    pub size_read: usize,
    /// The text, where the bytes are UTF-8.
    pub content: Option<String>,
    pub extension: Option<String>,
}

/// Why a file is not read as a package.
pub open spec fn file_error(file: FileFacts, inside_root: bool) -> Option<Seq<char>> {
    if file.symlink {
        Some("内容包文件不能是符号链接"@)
    } else if !file.regular {
        Some("内容包必须是常规文件"@)
    } else if file.size > MAX_PACKAGE_BYTES {
        Some(TOO_LARGE@)
    } else if !inside_root {
        Some("内容包文件必须位于 QimenBot data_dir 内"@)
    } else {
        None
    }
}

/// Checks a file before it is read as a package.
pub fn check_package_file(file: FileFacts, inside_root: bool) -> (result: Result<(), String>)
    ensures
        config::failure(result) == file_error(file, inside_root),
{
    if file.symlink {
        return Err("内容包文件不能是符号链接".to_owned());
    }
    if !file.regular {
        return Err("内容包必须是常规文件".to_owned());
    }
    if file.size > MAX_PACKAGE_BYTES as u64 {
        return Err(TOO_LARGE.to_owned());
    }
    if !inside_root {
        return Err("内容包文件必须位于 QimenBot data_dir 内".to_owned());
    }
    Ok(())
}

/// Why a file that was read holds no text of a package.
pub open spec fn read_error(found: PackageFile) -> Option<Seq<char>> {
    if file_error(found.file, found.inside_root) is Some {
        file_error(found.file, found.inside_root)
    } else if found.size_read > MAX_PACKAGE_BYTES {
        Some(TOO_LARGE@)
    } else if found.content is None {
        Some("内容包必须是 UTF-8 文本"@)
    } else if found.extension is None {
        Some("内容包文件必须使用 .json 或 .toml 扩展名"@)
    } else {
        None
    }
}

/// The text of a package and the name of its form, from a file.
pub fn package_source(found: &PackageFile) -> (result: Result<(String, String), String>)
    ensures
        config::failure(result) == read_error(*found),
        result matches Ok((content, source_format)) ==> content@ == found.content->0@
            && source_format@ == text::lowered(found.extension->0@),
{
    if let Err(message) = check_package_file(found.file, found.inside_root) {
        return Err(message);
    }
    if found.size_read > MAX_PACKAGE_BYTES {
        return Err(TOO_LARGE.to_owned());
    }
    let content = match &found.content {
        Some(content) => content.as_str().to_owned(),
        None => return Err("内容包必须是 UTF-8 文本".to_owned()),
    };
    match &found.extension {
        Some(extension) => Ok((content, to_lower(extension.as_str()))),
        None => Err("内容包文件必须使用 .json 或 .toml 扩展名".to_owned()),
    }
}

/// Takes a package that was read out of a file.
pub fn load_package_file(
    found: &PackageFile,
    parsed: Result<ContentPackage, String>,
    canonical: Result<String, String>,
) -> (result: Result<LoadedContentPackage, String>)
    ensures
        config::failure(result) == (if read_error(*found) is Some {
            read_error(*found)
        } else {
            package_error(
                encode_utf8(found.content->0@).len(),
                text::lowered(found.extension->0@),
                parsed,
                canonical,
            )
        }),
        result matches Ok(loaded) ==> {
            &&& parsed == Ok::<_, String>(loaded.package)
            &&& canonical matches Ok(canonical) && loaded.content_hash@ == text::hex(
                outside::sha256_digest(encode_utf8(canonical@)),
            )
            &&& loaded.source_format@ == text::lowered(found.extension->0@)
        },
{
    let (content, source_format) = match package_source(found) {
        Ok(source) => source,
        Err(message) => return Err(message),
    };
    parse_package_text(content.as_str(), source_format.as_str(), parsed, canonical)
}

/// A package that is taken has the right shape.
pub proof fn taken_packages_are_well_shaped(
    size: nat,
    source_format: Seq<char>,
    parsed: Result<ContentPackage, String>,
    canonical: Result<String, String>,
)
    requires
        package_error(size, source_format, parsed, canonical) is None,
    ensures
        parsed is Ok,
        content_rules::shape_errors(parsed->Ok_0).len() == 0,
        size <= MAX_PACKAGE_BYTES,
{
}

/// A package that was read out of a text is taken, or refused for the same reason, in
/// whichever form it was written; the fingerprint of a taken package, which comes from its
/// canonical text alone, is then the same too.
pub proof fn the_form_of_a_package_does_not_matter(
    json_size: nat,
    toml_size: nat,
    package: ContentPackage,
    canonical: Result<String, String>,
)
    requires
        json_size <= MAX_PACKAGE_BYTES,
        toml_size <= MAX_PACKAGE_BYTES,
    ensures
        package_error(json_size, "json"@, Ok(package), canonical) == package_error(
            toml_size,
            "toml"@,
            Ok(package),
            canonical,
        ),
        content_rules::shape_errors(package).len() == 0 && canonical is Ok ==> package_error(
            json_size,
            "json"@,
            Ok(package),
            canonical,
        ) is None,
{
    reveal_strlit("json");
    reveal_strlit("toml");
    assert("json"@[0] == 'j' && "toml"@[0] == 't');
}

} // verus!
