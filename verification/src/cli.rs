//! The arguments of the command-line tools.
use crate::player_staging::PlayerStagingMetadata;
use crate::public_seed::PublicSeedPackageMetadata;
use crate::text;
use crate::text::{cat2, cat3, chars_of, ends_with, nth, parse_i64, same, starts_with};
use vstd::prelude::*;
use vstd::string::*;

verus! {

/// The place of an option among some options; their number where it is none of them.
pub open spec fn option_position(options: Seq<Seq<char>>, argument: Seq<char>) -> nat
    decreases options.len(),
{
    if options.len() == 0 {
        0
    } else if options[0] == argument {
        0
    } else {
        option_position(options.skip(1), argument) + 1
    }
}

/// The values that arguments give to some options, on top of those given before; none
/// where help is asked for. Each option takes a value that does not look like an
/// option, and takes it once.
pub open spec fn option_values(
    arguments: Seq<Seq<char>>,
    options: Seq<Seq<char>>,
    given: Seq<Option<Seq<char>>>,
) -> Result<Option<Seq<Option<Seq<char>>>>, Seq<char>>
    decreases arguments.len(),
{
    if arguments.len() == 0 {
        Ok(Some(given))
    } else {
        let argument = arguments[0];
        let at = option_position(options, argument) as int;
        if argument == "--help"@ || argument == "-h"@ {
            Ok(None)
        } else if at >= options.len() {
            Err("不支持的参数："@ + argument)
        } else if arguments.len() < 2 || "-"@.is_prefix_of(arguments[1]) {
            Err(options[at] + " 缺少值"@)
        } else if given[at] is Some {
            Err(options[at] + " 不能重复提供"@)
        } else {
            option_values(arguments.skip(2), options, given.update(at, Some(arguments[1])))
        }
    }
}

/// The values of some options, as mathematical values.
pub open spec fn value_views(values: Seq<Option<String>>) -> Seq<Option<Seq<char>>> {
    Seq::new(values.len(), |i: int| text::optional_text(values[i]))
}

/// The values of options in a result, as a mathematical value.
pub open spec fn values_outcome(result: Result<Option<Vec<Option<String>>>, String>) -> Result<
    Option<Seq<Option<Seq<char>>>>,
    Seq<char>,
> {
    match result {
        Ok(Some(values)) => Ok(Some(value_views(values@))),
        Ok(None) => Ok(None),
        Err(message) => Err(message@),
    }
}

/// The names of some options.
pub open spec fn names(options: Seq<&'static str>) -> Seq<Seq<char>> {
    Seq::new(options.len(), |i: int| options[i]@)
}

fn find_option(options: &Vec<&'static str>, argument: &str) -> (at: usize)
    ensures
        at == option_position(names(options@), argument@),
        at <= options@.len(),
{
    let ghost all = names(options@);
    let mut at: usize = 0;
    assert(all.skip(0) =~= all);
    while at < options.len()
        invariant
            at <= options.len(),
            all == names(options@),
            option_position(all, argument@) == at + option_position(
                all.skip(at as int),
                argument@,
            ),
        decreases options@.len() - at,
    {
        assert(all.skip(at as int)[0] == options@[at as int]@);
        assert(all.skip(at as int).skip(1) =~= all.skip(at + 1));
        if same(options[at], argument) {
            return at;
        }
        at = at + 1;
    }
    at
}

/// No option given a value yet.
pub open spec fn nothing_given(count: nat) -> Seq<Option<Seq<char>>> {
    Seq::new(count, |i: int| None)
}

/// Reads the values that arguments give to some options.
pub fn read_options(arguments: &Vec<String>, options: &Vec<&'static str>) -> (result: Result<
    Option<Vec<Option<String>>>,
    String,
>)
    ensures
        values_outcome(result) == option_values(
            text::texts(arguments@),
            names(options@),
            nothing_given(options@.len()),
        ),
        result matches Ok(Some(values)) ==> values@.len() == options@.len(),
{
    let ghost all = text::texts(arguments@);
    let ghost known = names(options@);
    let mut values: Vec<Option<String>> = Vec::new();
    let mut n: usize = 0;
    while n < options.len()
        invariant
            n <= options@.len(),
            values@.len() == n,
            forall|i: int| 0 <= i < n ==> values@[i] == None::<String>,
        decreases options@.len() - n,
    {
        values.push(None);
        n = n + 1;
    }
    assert(value_views(values@) =~= nothing_given(options@.len()));
    let ghost outcome = option_values(all, known, nothing_given(options@.len()));
    let mut i: usize = 0;
    assert(all.skip(0) =~= all);
    while i < arguments.len()
        invariant
            i <= arguments.len(),
            all == text::texts(arguments@),
            known == names(options@),
            values@.len() == options@.len(),
            outcome == option_values(all, known, nothing_given(options@.len())),
            outcome == option_values(all.skip(i as int), known, value_views(values@)),
        decreases arguments@.len() - i,
    {
        let ghost rest = all.skip(i as int);
        assert(rest[0] == arguments@[i as int]@);
        let argument = nth(arguments, i);
        if same(argument, "--help") || same(argument, "-h") {
            return Ok(None);
        }
        let at = find_option(options, argument);
        if at == options.len() {
            return Err(cat2("不支持的参数：", argument));
        }
        if i + 1 == arguments.len() {
            return Err(cat2(options[at], " 缺少值"));
        }
        assert(rest[1] == arguments@[i + 1]@);
        if starts_with(nth(arguments, i + 1), "-") {
            return Err(cat2(options[at], " 缺少值"));
        }
        if values[at].is_some() {
            return Err(cat2(options[at], " 不能重复提供"));
        }
        let ghost before = value_views(values@);
        values.set(at, Some(nth(arguments, i + 1).to_owned()));
        assert(value_views(values@) =~= before.update(at as int, Some(rest[1])));
        assert(rest.skip(2) =~= all.skip(i + 2));
        i = i + 2;
    }
    assert(all.skip(i as int).len() == 0);
    Ok(Some(values))
}

/// A value that has to be given.
pub open spec fn required_value(value: Option<Seq<char>>, option: Seq<char>) -> Result<
    Seq<char>,
    Seq<char>,
> {
    match value {
        Some(value) => Ok(value),
        None => Err("缺少必填参数："@ + option),
    }
}

/// The value of an option that has to be given.
pub fn required(value: &Option<String>, option: &str) -> (result: Result<String, String>)
    ensures
        text::outcome(result) == required_value(text::optional_text(*value), option@),
{
    match value {
        Some(value) => Ok(value.as_str().to_owned()),
        None => Err(cat2("缺少必填参数：", option)),
    }
}

/// What the staging of players is told.
#[derive(Clone, Debug, PartialEq, Eq)]
pub struct StageOptions {
    pub source: String,
    pub output: String,
    pub metadata: PlayerStagingMetadata,
}

/// The mathematical form of such options: source, output, protocol, account and
/// namespace.
impl View for StageOptions {
    type V = (Seq<char>, Seq<char>, Seq<char>, Seq<char>, Seq<char>);

    open spec fn view(&self) -> (Seq<char>, Seq<char>, Seq<char>, Seq<char>, Seq<char>) {
        (
            self.source@,
            self.output@,
            self.metadata.protocol@,
            self.metadata.account_id@,
            self.metadata.namespace@,
        )
    }
}

/// The options of the staging of players.
pub open spec fn stage_option_names() -> Seq<Seq<char>> {
    seq!["--source"@, "--output"@, "--protocol"@, "--account-id"@, "--namespace"@]
}

/// Five values that all have to be given, in order.
pub open spec fn five_values(values: Seq<Option<Seq<char>>>, options: Seq<Seq<char>>) -> Result<
    (Seq<char>, Seq<char>, Seq<char>, Seq<char>, Seq<char>),
    Seq<char>,
> {
    if values[0] is None {
        Err("缺少必填参数："@ + options[0])
    } else if values[1] is None {
        Err("缺少必填参数："@ + options[1])
    } else if values[2] is None {
        Err("缺少必填参数："@ + options[2])
    } else if values[3] is None {
        Err("缺少必填参数："@ + options[3])
    } else if values[4] is None {
        Err("缺少必填参数："@ + options[4])
    } else {
        Ok((values[0]->0, values[1]->0, values[2]->0, values[3]->0, values[4]->0))
    }
}

/// What the staging of players is told; none where help is asked for, or nothing is said.
pub open spec fn stage_options(arguments: Seq<Seq<char>>) -> Result<
    Option<(Seq<char>, Seq<char>, Seq<char>, Seq<char>, Seq<char>)>,
    Seq<char>,
> {
    if arguments.len() == 0 {
        Ok(None)
    } else {
        match option_values(arguments, stage_option_names(), nothing_given(5)) {
            Err(message) => Err(message),
            Ok(None) => Ok(None),
            Ok(Some(values)) => match five_values(values, stage_option_names()) {
                Err(message) => Err(message),
                Ok(options) => Ok(Some(options)),
            },
        }
    }
}

/// Reads the arguments of the staging of players.
pub fn parse_stage_arguments(arguments: &Vec<String>) -> (result: Result<
    Option<StageOptions>,
    String,
>)
    ensures
        match result {
            Ok(Some(options)) => stage_options(text::texts(arguments@)) == Ok::<_, Seq<char>>(
                Some(options@),
            ),
            Ok(None) => stage_options(text::texts(arguments@)) matches Ok(None),
            Err(message) => stage_options(text::texts(arguments@)) matches Err(reason) && reason
                == message@,
        },
{
    if arguments.len() == 0 {
        return Ok(None);
    }
    let options = vec!["--source", "--output", "--protocol", "--account-id", "--namespace"];
    assert(names(options@) =~= stage_option_names());
    let values = match read_options(arguments, &options) {
        Ok(Some(values)) => values,
        Ok(None) => return Ok(None),
        Err(message) => return Err(message),
    };
    let source = match required(&values[0], "--source") {
        Ok(value) => value,
        Err(message) => return Err(message),
    };
    let output = match required(&values[1], "--output") {
        Ok(value) => value,
        Err(message) => return Err(message),
    };
    let protocol = match required(&values[2], "--protocol") {
        Ok(value) => value,
        Err(message) => return Err(message),
    };
    let account_id = match required(&values[3], "--account-id") {
        Ok(value) => value,
        Err(message) => return Err(message),
    };
    let namespace = match required(&values[4], "--namespace") {
        Ok(value) => value,
        Err(message) => return Err(message),
    };
    let metadata = PlayerStagingMetadata { protocol, account_id, namespace };
    Ok(Some(StageOptions { source, output, metadata }))
}

/// What the import of public content is told.
#[derive(Clone, Debug, PartialEq, Eq)]
pub struct ImportOptions {
    pub source: String,
    pub output: String,
    pub metadata: PublicSeedPackageMetadata,
}

/// The mathematical form of such options: source, output and metadata.
impl View for ImportOptions {
    type V = (Seq<char>, Seq<char>, (Seq<char>, int, Seq<char>, Seq<char>));

    open spec fn view(&self) -> (Seq<char>, Seq<char>, (Seq<char>, int, Seq<char>, Seq<char>)) {
        (self.source@, self.output@, self.metadata@)
    }
}

/// What is wrong with a text that is no number of 64 bits and does not begin with a
/// minus sign. The digits are read from the left: the first that makes the number too
/// large is reported before anything that follows it.
pub open spec fn number_fault(value: Seq<char>) -> Seq<char> {
    let digits = if value.len() > 1 && value[0] == '+' {
        value.skip(1)
    } else {
        value
    };
    let run = digits.take(text::run_len(digits, digit_char()) as int);
    if value.len() == 0 {
        "cannot parse integer from empty string"@
    } else if text::digits_value(run) > i64::MAX {
        "number too large to fit in target type"@
    } else {
        "invalid digit found in string"@
    }
}

/// The digits.
pub open spec fn digit_char() -> spec_fn(char) -> bool {
    |c: char| text::is_digit(c)
}

fn describe_number_fault(value: &str) -> (fault: String)
    ensures
        fault@ == number_fault(value@),
{
    let characters = chars_of(value);
    if characters.len() == 0 {
        return "cannot parse integer from empty string".to_owned();
    }
    let start: usize = if characters.len() > 1 && characters[0] == '+' {
        1
    } else {
        0
    };
    let ghost digits = value@.skip(start as int);
    assert(value@.skip(0) =~= value@);
    let mut i: usize = start;
    let mut total: u64 = 0;
    assert(digits.take(0) =~= Seq::empty());
    while i < characters.len() && '0' <= characters[i] && characters[i] <= '9'
        invariant
            start <= i <= characters.len(),
            characters@ == value@,
            digits == value@.skip(start as int),
            text::all_digits(digits.take(i - start)),
            total == text::digits_value(digits.take(i - start)),
            total <= i64::MAX,
            value@.len() > 0,
            digits == if value@.len() > 1 && value@[0] == '+' {
                value@.skip(1)
            } else {
                value@
            },
        decreases characters.len() - i,
    {
        let digit: u64 = (characters[i] as u64) - 48;
        let ghost longer = digits.take(i - start + 1);
        assert(longer.drop_last() =~= digits.take(i - start));
        assert(longer.last() == characters@[i as int]);
        assert(text::all_digits(longer));
        if total > (i64::MAX as u64 - digit) / 10 {
            proof {
                let run = text::run_len(digits, digit_char());
                text::lemma_run_len_facts(digits, digit_char());
                assert(text::is_digit(longer[i - start]));
                assert(i - start < run) by {
                    if run <= i - start {
                        assert(digits[run as int] == longer[run as int]);
                        assert(text::is_digit(longer[run as int]));
                        assert(digit_char()(digits[run as int]));
                    }
                }
                let whole = digits.take(run as int);
                assert forall|j: int| 0 <= j < whole.len() implies text::is_digit(
                    #[trigger] whole[j],
                ) by {
                    assert(digit_char()(digits[j]));
                }
                assert(whole.take(i - start + 1) =~= longer);
                text::lemma_digits_value_grows(whole, i - start + 1);
                assert(text::digits_value(longer) > i64::MAX);
            }
            return "number too large to fit in target type".to_owned();
        }
        total = total * 10 + digit;
        i = i + 1;
    }
    proof {
        let n = i - start;
        assert forall|j: int| 0 <= j < n implies digit_char()(#[trigger] digits[j]) by {
            assert(text::is_digit(digits.take(n)[j]));
        }
        text::lemma_run_len(digits, digit_char(), n);
    }
    "invalid digit found in string".to_owned()
}

/// The options of the import of public content.
pub open spec fn import_option_names() -> Seq<Seq<char>> {
    seq![
        "--source"@,
        "--output"@,
        "--package-key"@,
        "--revision"@,
        "--author"@,
        "--minimum-runtime"@,
    ]
}

/// A revision, a positive number.
pub open spec fn revision_value(value: Seq<char>) -> Result<int, Seq<char>> {
    match text::signed_value(value) {
        None => Err("--revision 必须是正整数："@ + number_fault(value)),
        Some(revision) => if revision <= 0 {
            Err("--revision 必须是正整数"@)
        } else {
            Ok(revision)
        },
    }
}

/// The options that the values of the import's options make. The revision is looked at
/// first.
pub open spec fn import_values(values: Seq<Option<Seq<char>>>) -> Result<
    (Seq<char>, Seq<char>, (Seq<char>, int, Seq<char>, Seq<char>)),
    Seq<char>,
> {
    let names = import_option_names();
    if values[3] is None {
        Err("缺少必填参数："@ + names[3])
    } else {
        match revision_value(values[3]->0) {
            Err(message) => Err(message),
            Ok(revision) => if values[0] is None {
                Err("缺少必填参数："@ + names[0])
            } else if values[1] is None {
                Err("缺少必填参数："@ + names[1])
            } else if values[2] is None {
                Err("缺少必填参数："@ + names[2])
            } else if values[4] is None {
                Err("缺少必填参数："@ + names[4])
            } else if values[5] is None {
                Err("缺少必填参数："@ + names[5])
            } else {
                Ok(
                    (
                        values[0]->0,
                        values[1]->0,
                        (values[2]->0, revision, values[4]->0, values[5]->0),
                    ),
                )
            },
        }
    }
}

/// What the import of public content is told; none where help is asked for, or nothing
/// is said.
pub open spec fn import_options(arguments: Seq<Seq<char>>) -> Result<
    Option<(Seq<char>, Seq<char>, (Seq<char>, int, Seq<char>, Seq<char>))>,
    Seq<char>,
> {
    if arguments.len() == 0 {
        Ok(None)
    } else {
        match option_values(arguments, import_option_names(), nothing_given(6)) {
            Err(message) => Err(message),
            Ok(None) => Ok(None),
            Ok(Some(values)) => match import_values(values) {
                Err(message) => Err(message),
                Ok(options) => Ok(Some(options)),
            },
        }
    }
}

fn parse_revision(value: &str) -> (result: Result<i64, String>)
    ensures
        match result {
            Ok(revision) => revision_value(value@) == Ok::<_, Seq<char>>(revision as int),
            Err(message) => revision_value(value@) matches Err(reason) && reason == message@,
        },
{
    match parse_i64(value) {
        None => Err(cat2("--revision 必须是正整数：", describe_number_fault(value).as_str())),
        Some(revision) => if revision <= 0 {
            Err("--revision 必须是正整数".to_owned())
        } else {
            Ok(revision)
        },
    }
}

/// Reads the arguments of the import of public content.
pub fn parse_import_arguments(arguments: &Vec<String>) -> (result: Result<
    Option<ImportOptions>,
    String,
>)
    ensures
        match result {
            Ok(Some(options)) => import_options(text::texts(arguments@)) == Ok::<_, Seq<char>>(
                Some(options@),
            ),
            Ok(None) => import_options(text::texts(arguments@)) matches Ok(None),
            Err(message) => import_options(text::texts(arguments@)) matches Err(reason) && reason
                == message@,
        },
{
    if arguments.len() == 0 {
        return Ok(None);
    }
    let options = vec![
        "--source",
        "--output",
        "--package-key",
        "--revision",
        "--author",
        "--minimum-runtime",
    ];
    assert(names(options@) =~= import_option_names());
    let values = match read_options(arguments, &options) {
        Ok(Some(values)) => values,
        Ok(None) => return Ok(None),
        Err(message) => return Err(message),
    };
    let revision_text = match required(&values[3], "--revision") {
        Ok(value) => value,
        Err(message) => return Err(message),
    };
    let revision: i64 = match parse_revision(revision_text.as_str()) {
        Ok(value) => value,
        Err(message) => return Err(message),
    };
    let source = match required(&values[0], "--source") {
        Ok(value) => value,
        Err(message) => return Err(message),
    };
    let output = match required(&values[1], "--output") {
        Ok(value) => value,
        Err(message) => return Err(message),
    };
    let package_key = match required(&values[2], "--package-key") {
        Ok(value) => value,
        Err(message) => return Err(message),
    };
    let author = match required(&values[4], "--author") {
        Ok(value) => value,
        Err(message) => return Err(message),
    };
    let minimum_runtime = match required(&values[5], "--minimum-runtime") {
        Ok(value) => value,
        Err(message) => return Err(message),
    };
    let metadata = PublicSeedPackageMetadata { package_key, revision, author, minimum_runtime };
    Ok(Some(ImportOptions { source, output, metadata }))
}

/// The file that holds the catalogue within the published root, where none is named.
pub const DEFAULT_CATALOG: &'static str = "catalog.sqlite";

/// How the offline commands of the picture service are used.
pub const CATALOG_USAGE: &'static str =
    "使用方式: douluo-media catalog <publish|verify> --root <发布目录> [--catalog <catalog.sqlite>]";

/// What the picture service is told to do offline. The root and the catalogue are given
/// as places among the arguments, for a path need not be Unicode text; where no
/// catalogue is named it stands within the root, under its usual name.
#[derive(Clone, Copy, Debug, PartialEq, Eq)]
pub enum CatalogCommand {
    Publish { root: usize, catalog: Option<usize> },
    Verify { root: usize, catalog: Option<usize> },
}

/// The places of the root and of the catalogue among arguments, read from a place on;
/// none where they do not fit. An argument that is no Unicode text is `None`.
pub open spec fn catalog_places(
    arguments: Seq<Option<Seq<char>>>,
    from: int,
    root: Option<int>,
    catalog: Option<int>,
) -> Option<(Option<int>, Option<int>)>
    decreases arguments.len() - from,
{
    if from >= arguments.len() {
        Some((root, catalog))
    } else if from + 1 >= arguments.len() {
        None
    } else if arguments[from] == Some("--root"@) && root is None {
        catalog_places(arguments, from + 2, Some(from + 1), catalog)
    } else if arguments[from] == Some("--catalog"@) && catalog is None {
        catalog_places(arguments, from + 2, root, Some(from + 1))
    } else {
        None
    }
}

/// The command that arguments give: whether to publish, the place of the root and that
/// of the catalogue; nothing where there are no arguments.
pub open spec fn catalog_command(arguments: Seq<Option<Seq<char>>>) -> Result<
    Option<(bool, int, Option<int>)>,
    Seq<char>,
> {
    if arguments.len() == 0 {
        Ok(None)
    } else if arguments.len() < 2 || arguments[0] != Some("catalog"@) || (arguments[1] != Some(
        "publish"@,
    ) && arguments[1] != Some("verify"@)) {
        Err(CATALOG_USAGE@)
    } else {
        match catalog_places(arguments, 2, None, None) {
            Some((Some(root), catalog)) => Ok(
                Some((arguments[1] == Some("publish"@), root, catalog)),
            ),
            _ => Err(CATALOG_USAGE@),
        }
    }
}

/// A place as a mathematical value.
pub open spec fn place(at: Option<usize>) -> Option<int> {
    match at {
        Some(at) => Some(at as int),
        None => None,
    }
}

/// The path of the usual catalogue, directly below a root.
pub open spec fn below_root(root: Seq<char>) -> Seq<char> {
    if root.len() == 0 || "/"@.is_suffix_of(root) {
        root + DEFAULT_CATALOG@
    } else {
        root + "/"@ + DEFAULT_CATALOG@
    }
}

/// The path of the catalogue: the one that is named, else the usual one below the root.
pub fn catalog_path(root: &str, catalog: Option<&str>) -> (path: String)
    ensures
        path@ == (match catalog {
            Some(catalog) => catalog@,
            None => below_root(root@),
        }),
{
    match catalog {
        Some(catalog) => catalog.to_owned(),
        None => {
            proof {
                reveal_strlit("/");
                assert(root@.len() == 0 ==> !"/"@.is_suffix_of(root@));
            }
            if root.is_empty() || ends_with(root, "/") {
                cat2(root, DEFAULT_CATALOG)
            } else {
                cat3(root, "/", DEFAULT_CATALOG)
            }
        },
    }
}

/// The root and the catalogue that a command names, as texts; nothing where one of them
/// is no Unicode text.
pub open spec fn named_paths(
    arguments: Seq<Option<Seq<char>>>,
    root: int,
    catalog: Option<int>,
) -> Option<(Seq<char>, Seq<char>)> {
    match (arguments[root], catalog) {
        (Some(root), None) => Some((root, below_root(root))),
        (Some(root), Some(at)) => match arguments[at] {
            Some(catalog) => Some((root, catalog)),
            None => None,
        },
        _ => None,
    }
}

impl CatalogCommand {
    /// The root and the catalogue that the command names among the arguments, where
    /// they are Unicode texts.
    pub fn paths(&self, arguments: &Vec<Option<String>>) -> (paths: Option<(String, String)>)
        requires
            self.choice().1 < arguments@.len(),
            self.choice().2 matches Some(at) ==> at < arguments@.len(),
        ensures
            match paths {
                Some((root, catalog)) => named_paths(
                    value_views(arguments@),
                    self.choice().1,
                    self.choice().2,
                ) == Some((root@, catalog@)),
                None => named_paths(
                    value_views(arguments@),
                    self.choice().1,
                    self.choice().2,
                ) is None,
            },
    {
        let (root, catalog) = match self {
            CatalogCommand::Publish { root, catalog } => (*root, *catalog),
            CatalogCommand::Verify { root, catalog } => (*root, *catalog),
        };
        assert(value_views(arguments@)[root as int] == text::optional_text(
            arguments@[root as int],
        ));
        let root = match &arguments[root] {
            Some(root) => root.as_str(),
            None => return None,
        };
        match catalog {
            None => Some((root.to_owned(), catalog_path(root, None))),
            Some(at) => {
                assert(value_views(arguments@)[at as int] == text::optional_text(
                    arguments@[at as int],
                ));
                match &arguments[at] {
                    Some(catalog) => Some(
                        (root.to_owned(), catalog_path(root, Some(catalog.as_str()))),
                    ),
                    None => None,
                }
            },
        }
    }

    /// Whether to publish, the place of the root and that of the catalogue.
    pub open spec fn choice(self) -> (bool, int, Option<int>) {
        match self {
            CatalogCommand::Publish { root, catalog } => (true, root as int, place(catalog)),
            CatalogCommand::Verify { root, catalog } => (false, root as int, place(catalog)),
        }
    }
}

fn is_text(argument: &Option<String>, expected: &str) -> (answer: bool)
    ensures
        answer == (text::optional_text(*argument) == Some(expected@)),
{
    match argument {
        Some(argument) => same(argument.as_str(), expected),
        None => false,
    }
}

/// Reads the arguments of the picture service.
pub fn parse_catalog_command_from(arguments: &Vec<Option<String>>) -> (result: Result<
    Option<CatalogCommand>,
    String,
>)
    ensures
        match result {
            Ok(Some(command)) => catalog_command(value_views(arguments@)) == Ok::<_, Seq<char>>(
                Some(command.choice()),
            ),
            Ok(None) => catalog_command(value_views(arguments@)) matches Ok(None),
            Err(message) => catalog_command(value_views(arguments@)) matches Err(reason) && reason
                == message@,
        },
{
    let ghost all = value_views(arguments@);
    if arguments.len() == 0 {
        return Ok(None);
    }
    if arguments.len() < 2 || !is_text(&arguments[0], "catalog") {
        return Err(CATALOG_USAGE.to_owned());
    }
    let publish = is_text(&arguments[1], "publish");
    if !publish && !is_text(&arguments[1], "verify") {
        return Err(CATALOG_USAGE.to_owned());
    }
    let ghost places = catalog_places(all, 2, None, None);
    let ghost outcome = catalog_command(all);
    let mut root: Option<usize> = None;
    let mut catalog: Option<usize> = None;
    let mut i: usize = 2;
    proof {
        reveal_strlit("--root");
        reveal_strlit("--catalog");
        assert("--root"@.len() != "--catalog"@.len());
    }
    while i < arguments.len()
        invariant
            all == value_views(arguments@),
            places == catalog_places(all, i as int, place(root), place(catalog)),
            places is None ==> outcome == Err::<Option<(bool, int, Option<int>)>, _>(
                CATALOG_USAGE@,
            ),
            outcome == catalog_command(value_views(arguments@)),
            "--root"@.len() != "--catalog"@.len(),
        decreases arguments.len() - i,
    {
        if i + 1 == arguments.len() {
            return Err(CATALOG_USAGE.to_owned());
        }
        if is_text(&arguments[i], "--root") {
            if root.is_some() {
                return Err(CATALOG_USAGE.to_owned());
            }
            root = Some(i + 1);
        } else if is_text(&arguments[i], "--catalog") {
            if catalog.is_some() {
                return Err(CATALOG_USAGE.to_owned());
            }
            catalog = Some(i + 1);
        } else {
            return Err(CATALOG_USAGE.to_owned());
        }
        i = i + 2;
    }
    match root {
        None => Err(CATALOG_USAGE.to_owned()),
        Some(root) => if publish {
            Ok(Some(CatalogCommand::Publish { root, catalog }))
        } else {
            Ok(Some(CatalogCommand::Verify { root, catalog }))
        },
    }
}

proof fn lemma_places(
    arguments: Seq<Option<Seq<char>>>,
    from: int,
    root: Option<int>,
    catalog: Option<int>,
)
    requires
        2 <= from,
        root matches Some(at) ==> 2 < at < arguments.len(),
        catalog matches Some(at) ==> 2 < at < arguments.len(),
    ensures
        catalog_places(arguments, from, root, catalog) matches Some((root, catalog)) ==> {
            &&& root matches Some(at) ==> 2 < at < arguments.len()
            &&& catalog matches Some(at) ==> 2 < at < arguments.len()
        },
    decreases arguments.len() - from,
{
    if from + 1 < arguments.len() {
        if arguments[from] == Some("--root"@) && root is None {
            lemma_places(arguments, from + 2, Some(from + 1), catalog);
        } else if arguments[from] == Some("--catalog"@) && catalog is None {
            lemma_places(arguments, from + 2, root, Some(from + 1));
        }
    }
}

/// A command names paths that stand among the arguments, behind the two words that say
/// what to do.
pub proof fn catalog_paths_stand_among_the_arguments(arguments: Seq<Option<Seq<char>>>)
    ensures
        catalog_command(arguments) matches Ok(Some((publish, root, catalog))) ==> {
            &&& 2 < root < arguments.len()
            &&& catalog matches Some(at) ==> 2 < at < arguments.len()
        },
{
    lemma_places(arguments, 2, None, None);
}

/// A command that names a root alone uses the catalogue below it, and one that names a
/// catalogue too uses that.
pub proof fn the_usual_catalogue_lies_below_the_root(
    publish: bool,
    root: Seq<char>,
    catalog: Seq<char>,
)
    ensures
        ({
            let word = Some(if publish { "publish"@ } else { "verify"@ });
            let short = seq![Some("catalog"@), word, Some("--root"@), Some(root)];
            let long = short + seq![Some("--catalog"@), Some(catalog)];
            &&& catalog_command(short) == Ok::<_, Seq<char>>(Some((publish, 3int, None::<int>)))
            &&& named_paths(short, 3, None) == Some((root, below_root(root)))
            &&& catalog_command(long) == Ok::<_, Seq<char>>(Some((publish, 3int, Some(5int))))
            &&& named_paths(long, 3, Some(5)) == Some((root, catalog))
        }),
{
    reveal_strlit("publish");
    reveal_strlit("verify");
    reveal_strlit("--root");
    reveal_strlit("--catalog");
    assert("publish"@.len() != "verify"@.len());
    assert("--root"@.len() != "--catalog"@.len());
    reveal_with_fuel(catalog_places, 3);
}

} // verus!
