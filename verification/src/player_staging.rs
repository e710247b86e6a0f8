//! Players of an earlier database, checked and laid down for confirmation.
use crate::assets;
use crate::assets::file_extension;
use crate::config;
use crate::config::valid_namespace;
use crate::media::sha256_hex;
use crate::outside;
use crate::seen::SeenTexts;
use crate::text;
use crate::text::{
    any_control, blank, cat2, cat3, comes_first, i64_text, is_trimmed, join, nth, same,
    split_char, to_lower, trim, usize_text,
};
use vstd::prelude::*;
use vstd::string::*;

verus! {

/// The largest database that is read, in bytes.
pub const MAX_SOURCE_BYTES: u64 = 67_108_864;

/// The most players that are read.
pub const MAX_SOURCE_PLAYERS: usize = 10_000;

/// The version of the form in which players are laid down.
pub const STAGING_SCHEMA_VERSION: i64 = 1;

/// The form of the database that players come from.
pub const SOURCE_FORMAT: &'static str = "recent-sqlite-player-v1";

/// Whose players a staging is about.
#[derive(Clone, Debug, PartialEq, Eq)]
pub struct PlayerStagingMetadata {
    pub protocol: String,
    pub account_id: String,
    pub namespace: String,
}

/// A player as the earlier database holds it.
#[derive(Clone, Debug, PartialEq, Eq)]
pub struct SourcePlayer {
    pub id: i64,
    pub user_id: Option<i64>,
    pub name: Option<String>,
    pub nickname: Option<String>,
    pub gender: Option<String>,
    pub level: Option<i64>,
    pub exp: Option<i64>,
    pub hp: Option<i64>,
    pub max_hp: Option<i64>,
    pub soul_power: Option<i64>,
    pub max_soul_power: Option<i64>,
    pub strength: Option<i64>,
    pub agility: Option<i64>,
    pub spirit: Option<i64>,
    pub endurance: Option<i64>,
    pub perception: Option<i64>,
    pub luck: Option<i64>,
    pub life_count: Option<i64>,
    pub state: Option<i64>,
}

/// What is wrong with a field of a player.
#[derive(Clone, Copy, Debug, PartialEq, Eq)]
pub struct StageIssue {
    pub field: &'static str,
    pub code: &'static str,
}

/// The field and the code of what is wrong.
impl View for StageIssue {
    type V = (Seq<char>, Seq<char>);

    open spec fn view(&self) -> (Seq<char>, Seq<char>) {
        (self.field@, self.code@)
    }
}

/// A player with what is wrong with it.
#[derive(Clone, Debug, PartialEq, Eq)]
pub struct StagedPlayer {
    pub source_player_id: i64,
    pub subject_id: Option<String>,
    pub name: Option<String>,
    pub gender: Option<String>,
    pub level: Option<i64>,
    pub exp: Option<i64>,
    pub hp: Option<i64>,
    pub max_hp: Option<i64>,
    pub soul_power: Option<i64>,
    pub max_soul_power: Option<i64>,
    pub strength: Option<i64>,
    pub agility: Option<i64>,
    pub spirit: Option<i64>,
    pub endurance: Option<i64>,
    pub perception: Option<i64>,
    pub luck: Option<i64>,
    pub life_count: Option<i64>,
    pub state: Option<String>,
    pub issues: Vec<StageIssue>,
}

/// The fields and codes of a list of what is wrong.
pub open spec fn issue_views(issues: Seq<StageIssue>) -> Seq<(Seq<char>, Seq<char>)> {
    Seq::new(issues.len(), |i: int| issues[i]@)
}

/// A text that is neither empty nor too long and holds no control character.
pub open spec fn is_text(value: Seq<char>, max_chars: nat) -> bool {
    1 <= value.len() <= max_chars && !text::has_control(value)
}

/// Whether a text is neither empty nor too long and holds no control character.
pub fn valid_text(value: &str, max_chars: usize) -> (answer: bool)
    ensures
        answer == is_text(value@, max_chars as nat),
{
    let length = value.unicode_len();
    1 <= length && length <= max_chars && !any_control(value)
}

/// The first rule that a choice of players breaks, as a message.
pub open spec fn metadata_error(metadata: PlayerStagingMetadata) -> Option<Seq<char>> {
    if metadata.protocol@ != "onebot11"@ {
        Some("v42.1 玩家 staging 只支持 protocol=onebot11"@)
    } else if metadata.account_id@ != text::trimmed(metadata.account_id@) || !is_text(
        metadata.account_id@,
        128,
    ) {
        Some("机器人 account_id 必须是 1 到 128 个无控制字符的非空字符串"@)
    } else if !config::is_namespace(metadata.namespace@) {
        Some("身份 namespace 无效"@)
    } else {
        None
    }
}

/// Checks whose players a staging is about.
pub fn validate_metadata(metadata: &PlayerStagingMetadata) -> (result: Result<(), String>)
    ensures
        config::failure(result) == metadata_error(*metadata),
{
    if !same(metadata.protocol.as_str(), "onebot11") {
        return Err("v42.1 玩家 staging 只支持 protocol=onebot11".to_owned());
    }
    if !is_trimmed(metadata.account_id.as_str()) || !valid_text(metadata.account_id.as_str(), 128) {
        return Err("机器人 account_id 必须是 1 到 128 个无控制字符的非空字符串".to_owned());
    }
    if !valid_namespace(metadata.namespace.as_str()) {
        return Err("身份 namespace 无效".to_owned());
    }
    Ok(())
}

/// What is known of a file before it is read.
#[derive(Clone, Copy, Debug, PartialEq, Eq, Structural)]
pub struct FileFacts {
    pub symlink: bool,
    pub regular: bool,
    pub size: u64,
}

/// Why a file is not read as the earlier database.
pub open spec fn source_file_error(facts: FileFacts) -> Option<Seq<char>> {
    if facts.symlink {
        Some("玩家 staging 源文件不能是符号链接"@)
    } else if !facts.regular {
        Some("玩家 staging 源文件必须是常规 SQLite 文件"@)
    } else if facts.size > MAX_SOURCE_BYTES {
        Some("玩家 staging 源文件不能超过 "@ + text::decimal(MAX_SOURCE_BYTES as nat) + " 字节"@)
    } else {
        None
    }
}

/// Checks a file before it is read as the earlier database.
pub fn check_source_file(facts: FileFacts) -> (result: Result<(), String>)
    ensures
        config::failure(result) == source_file_error(facts),
{
    if facts.symlink {
        return Err("玩家 staging 源文件不能是符号链接".to_owned());
    }
    if !facts.regular {
        return Err("玩家 staging 源文件必须是常规 SQLite 文件".to_owned());
    }
    if facts.size > MAX_SOURCE_BYTES {
        return Err(
            cat3(
                "玩家 staging 源文件不能超过 ",
                text::u64_text(MAX_SOURCE_BYTES).as_str(),
                " 字节",
            ),
        );
    }
    Ok(())
}

/// The columns that the table of players has to have.
pub open spec fn required_columns() -> Seq<Seq<char>> {
    seq![
        "id"@,
        "user_id"@,
        "name"@,
        "nickname"@,
        "sex"@,
        "level"@,
        "exp"@,
        "hp"@,
        "max_hp"@,
        "mp"@,
        "max_mp"@,
        "strength"@,
        "agility"@,
        "spirit"@,
        "endurance"@,
        "perception"@,
        "luck"@,
        "life_count"@,
        "state"@,
    ]
}

/// The first of some columns that is missing.
pub open spec fn missing_column(required: Seq<Seq<char>>, columns: Seq<Seq<char>>) -> Option<
    Seq<char>,
>
    decreases required.len(),
{
    if required.len() == 0 {
        None
    } else if !columns.contains(required[0]) {
        Some(required[0])
    } else {
        missing_column(required.skip(1), columns)
    }
}

/// Why a database is not the earlier one.
pub open spec fn player_schema_error(
    player_exists: bool,
    columns: Seq<Seq<char>>,
) -> Option<Seq<char>> {
    if !player_exists {
        Some("玩家 staging 源库缺少必需表：player"@)
    } else {
        match missing_column(required_columns(), columns) {
            Some(column) => Some("玩家 staging 源表缺少必需字段："@ + column),
            None => None,
        }
    }
}

pub(crate) fn has_text(list: &Vec<String>, wanted: &str) -> (answer: bool)
    ensures
        answer == text::texts(list@).contains(wanted@),
{
    let mut i: usize = 0;
    while i < list.len()
        invariant
            i <= list@.len(),
            forall|j: int| 0 <= j < i ==> #[trigger] text::texts(list@)[j] != wanted@,
        decreases list@.len() - i,
    {
        assert(text::texts(list@)[i as int] == list@[i as int]@);
        if same(list[i].as_str(), wanted) {
            return true;
        }
        i = i + 1;
    }
    false
}

/// Checks that a database is the earlier one: that it has a table of players with all
/// the columns that are read.
pub fn require_recent_player_schema(
    player_exists: bool,
    columns: &Vec<String>,
) -> (result: Result<(), String>)
    ensures
        config::failure(result) == player_schema_error(player_exists, text::texts(columns@)),
{
    if !player_exists {
        return Err("玩家 staging 源库缺少必需表：player".to_owned());
    }
    let required = vec![
        "id",
        "user_id",
        "name",
        "nickname",
        "sex",
        "level",
        "exp",
        "hp",
        "max_hp",
        "mp",
        "max_mp",
        "strength",
        "agility",
        "spirit",
        "endurance",
        "perception",
        "luck",
        "life_count",
        "state",
    ];
    let ghost all = required_columns();
    let ghost present = text::texts(columns@);
    assert forall|j: int| 0 <= j < required@.len() implies all[j] == #[trigger] required@[j]@ by {}
    let mut i: usize = 0;
    assert(all.skip(0) =~= all);
    while i < required.len()
        invariant
            i <= required@.len(),
            required@.len() == all.len(),
            all == required_columns(),
            player_exists,
            present == text::texts(columns@),
            forall|j: int| 0 <= j < required@.len() ==> all[j] == #[trigger] required@[j]@,
            missing_column(all, present) == missing_column(all.skip(i as int), present),
        decreases required@.len() - i,
    {
        let ghost rest = all.skip(i as int);
        assert(rest[0] == required@[i as int]@);
        assert(rest.skip(1) =~= all.skip(i + 1));
        if !has_text(columns, required[i]) {
            return Err(cat2("玩家 staging 源表缺少必需字段：", required[i]));
        }
        i = i + 1;
    }
    assert(all.skip(i as int).len() == 0);
    Ok(())
}

/// What is wrong with a field, where something is.
pub open spec fn issue(field: Seq<char>, code: Option<Seq<char>>) -> Seq<(Seq<char>, Seq<char>)> {
    match code {
        Some(code) => seq![(field, code)],
        None => Seq::empty(),
    }
}

/// What is wrong with a number that has to lie between two bounds.
pub open spec fn number_code(value: Option<i64>, minimum: int, maximum: int) -> Option<Seq<char>> {
    match value {
        Some(value) => if minimum <= value <= maximum {
            None
        } else {
            Some("number_out_of_range"@)
        },
        None => Some("number_missing"@),
    }
}

/// A number, where it lies between two bounds.
pub open spec fn number_within(value: Option<i64>, minimum: int, maximum: int) -> Option<i64> {
    if number_code(value, minimum, maximum) is None {
        value
    } else {
        None
    }
}

/// What is wrong with a text that has to be given.
pub open spec fn text_code(value: Option<Seq<char>>, max_chars: nat) -> Option<Seq<char>> {
    match value {
        Some(value) => if is_text(text::trimmed(value), max_chars) {
            None
        } else {
            Some("text_invalid"@)
        },
        None => Some("required_text_missing"@),
    }
}

/// A text without the white space around it, where it is fit.
pub open spec fn text_within(value: Option<Seq<char>>, max_chars: nat) -> Option<Seq<char>> {
    if text_code(value, max_chars) is None {
        Some(text::trimmed(value->0))
    } else {
        None
    }
}

/// What is wrong with a gender.
pub open spec fn gender_code(value: Option<Seq<char>>) -> Option<Seq<char>> {
    match text_within(value, 3) {
        Some(gender) => if gender == "男"@ || gender == "女"@ {
            None
        } else {
            Some("gender_invalid"@)
        },
        None => text_code(value, 3),
    }
}

/// A gender, where it is one of the two.
pub open spec fn gender_within(value: Option<Seq<char>>) -> Option<Seq<char>> {
    if gender_code(value) is None {
        text_within(value, 3)
    } else {
        None
    }
}

/// The name of a state.
pub open spec fn state_name(value: Option<i64>) -> Option<Seq<char>> {
    match value {
        Some(0) => Some("alive"@),
        Some(1) => Some("dead"@),
        Some(2) => Some("reviving"@),
        Some(3) => Some("deleted"@),
        _ => None,
    }
}

/// What is wrong with a state: only living players can be confirmed.
pub open spec fn state_code(value: Option<i64>) -> Option<Seq<char>> {
    match value {
        Some(0) => None,
        Some(state) => if 1 <= state <= 3 {
            Some("state_not_confirmable"@)
        } else {
            Some("state_invalid"@)
        },
        None => Some("number_missing"@),
    }
}

/// The user that a player belongs to.
pub open spec fn subject_of(user_id: Option<i64>) -> Option<Seq<char>> {
    match user_id {
        Some(user_id) => if user_id > 0 {
            Some(text::integer(user_id as int))
        } else {
            None
        },
        None => None,
    }
}

/// The name of a player, or the nickname where the name is blank.
pub open spec fn name_of(source: SourcePlayer) -> Option<Seq<char>> {
    match source.name {
        Some(name) => if text::is_blank(name@) {
            text::optional_text(source.nickname)
        } else {
            Some(name@)
        },
        None => text::optional_text(source.nickname),
    }
}

/// What is wrong with a measure that exceeds its bound, where both are fit.
pub open spec fn excess_code(
    value: Option<i64>,
    bound: Option<i64>,
    code: Seq<char>,
) -> Option<Seq<char>> {
    match (number_within(value, 0, i64::MAX as int), number_within(bound, 1, i64::MAX as int)) {
        (Some(value), Some(bound)) => if value > bound {
            Some(code)
        } else {
            None
        },
        _ => None,
    }
}

/// All that is wrong with a player of the earlier database, in the order of the checks.
pub open spec fn source_issues(source: SourcePlayer) -> Seq<(Seq<char>, Seq<char>)> {
    let most = i64::MAX as int;
    Seq::empty() + issue(
        "id"@,
        if source.id <= 0 {
            Some("source_player_id_invalid"@)
        } else {
            None
        },
    ) + issue(
        "user_id"@,
        if subject_of(source.user_id) is None {
            Some("subject_id_invalid"@)
        } else {
            None
        },
    ) + issue("name"@, text_code(name_of(source), 128)) + issue(
        "sex"@,
        gender_code(text::optional_text(source.gender)),
    ) + issue("level"@, number_code(source.level, 1, 120)) + issue(
        "exp"@,
        number_code(source.exp, 0, most),
    ) + issue("max_hp"@, number_code(source.max_hp, 1, most)) + issue(
        "hp"@,
        number_code(source.hp, 0, most),
    ) + issue("hp"@, excess_code(source.hp, source.max_hp, "hp_exceeds_max_hp"@)) + issue(
        "max_mp"@,
        number_code(source.max_soul_power, 1, most),
    ) + issue("mp"@, number_code(source.soul_power, 0, most)) + issue(
        "mp"@,
        excess_code(source.soul_power, source.max_soul_power, "mp_exceeds_max_mp"@),
    ) + issue("strength"@, number_code(source.strength, 0, most)) + issue(
        "agility"@,
        number_code(source.agility, 0, most),
    ) + issue("spirit"@, number_code(source.spirit, 0, most)) + issue(
        "endurance"@,
        number_code(source.endurance, 0, most),
    ) + issue("perception"@, number_code(source.perception, 0, most)) + issue(
        "luck"@,
        number_code(source.luck, 0, most),
    ) + issue("life_count"@, number_code(source.life_count, 1, 3)) + issue(
        "state"@,
        state_code(source.state),
    )
}

/// Whether a player holds what is fit of a player of the earlier database, whatever is
/// noted as wrong with it.
pub open spec fn keeps_fit_fields(player: StagedPlayer, source: SourcePlayer) -> bool {
    let most = i64::MAX as int;
    &&& player.source_player_id == source.id
    &&& text::optional_text(player.subject_id) == subject_of(source.user_id)
    &&& text::optional_text(player.name) == text_within(name_of(source), 128)
    &&& text::optional_text(player.gender) == gender_within(text::optional_text(source.gender))
    &&& player.level == number_within(source.level, 1, 120)
    &&& player.exp == number_within(source.exp, 0, most)
    &&& player.hp == number_within(source.hp, 0, most)
    &&& player.max_hp == number_within(source.max_hp, 1, most)
    &&& player.soul_power == number_within(source.soul_power, 0, most)
    &&& player.max_soul_power == number_within(source.max_soul_power, 1, most)
    &&& player.strength == number_within(source.strength, 0, most)
    &&& player.agility == number_within(source.agility, 0, most)
    &&& player.spirit == number_within(source.spirit, 0, most)
    &&& player.endurance == number_within(source.endurance, 0, most)
    &&& player.perception == number_within(source.perception, 0, most)
    &&& player.luck == number_within(source.luck, 0, most)
    &&& player.life_count == number_within(source.life_count, 1, 3)
    &&& text::optional_text(player.state) == state_name(source.state)
}

fn push_issue(issues: &mut Vec<StageIssue>, field: &'static str, code: &'static str)
    ensures
        issue_views(final(issues)@) == issue_views(old(issues)@) + issue(field@, Some(code@)),
{
    let ghost before = issue_views(issues@);
    issues.push(StageIssue { field, code });
    assert(issue_views(issues@) =~= before + issue(field@, Some(code@)));
}

fn normalize_required_text(
    value: Option<&str>,
    field: &'static str,
    max_chars: usize,
    issues: &mut Vec<StageIssue>,
) -> (normalized: Option<String>)
    ensures
        ({
            let given = match value {
                Some(value) => Some(value@),
                None => None,
            };
            &&& text::optional_text(normalized) == text_within(given, max_chars as nat)
            &&& issue_views(final(issues)@) == issue_views(old(issues)@) + issue(
                field@,
                text_code(given, max_chars as nat),
            )
        }),
{
    match value {
        None => {
            push_issue(issues, field, "required_text_missing");
            None
        },
        Some(value) => {
            let normalized = trim(value);
            if !valid_text(normalized, max_chars) {
                push_issue(issues, field, "text_invalid");
                return None;
            }
            assert(issue_views(issues@) =~= issue_views(issues@) + issue(field@, None));
            Some(normalized.to_owned())
        },
    }
}

fn as_str(value: &Option<String>) -> (text: Option<&str>)
    ensures
        match text {
            Some(text) => value matches Some(value) && value@ == text@,
            None => value is None,
        },
{
    match value {
        Some(value) => Some(value.as_str()),
        None => None,
    }
}

fn normalize_gender(value: &Option<String>, issues: &mut Vec<StageIssue>) -> (gender: Option<
    String,
>)
    ensures
        text::optional_text(gender) == gender_within(text::optional_text(*value)),
        issue_views(final(issues)@) == issue_views(old(issues)@) + issue(
            "sex"@,
            gender_code(text::optional_text(*value)),
        ),
{
    let ghost before = issue_views(issues@);
    match normalize_required_text(as_str(value), "sex", 3, issues) {
        None => None,
        Some(gender) => {
            assert(issue_views(issues@) =~= before);
            if !same(gender.as_str(), "男") && !same(gender.as_str(), "女") {
                push_issue(issues, "sex", "gender_invalid");
                return None;
            }
            assert(before + issue("sex"@, None) =~= before);
            Some(gender)
        },
    }
}

fn normalize_range(
    value: Option<i64>,
    field: &'static str,
    minimum: i64,
    maximum: i64,
    issues: &mut Vec<StageIssue>,
) -> (normalized: Option<i64>)
    ensures
        normalized == number_within(value, minimum as int, maximum as int),
        issue_views(final(issues)@) == issue_views(old(issues)@) + issue(
            field@,
            number_code(value, minimum as int, maximum as int),
        ),
{
    match value {
        Some(number) => if minimum <= number && number <= maximum {
            assert(issue_views(issues@) + issue(field@, None) =~= issue_views(issues@));
            value
        } else {
            push_issue(issues, field, "number_out_of_range");
            None
        },
        None => {
            push_issue(issues, field, "number_missing");
            None
        },
    }
}

fn normalize_minimum(
    value: Option<i64>,
    field: &'static str,
    minimum: i64,
    issues: &mut Vec<StageIssue>,
) -> (normalized: Option<i64>)
    ensures
        normalized == number_within(value, minimum as int, i64::MAX as int),
        issue_views(final(issues)@) == issue_views(old(issues)@) + issue(
            field@,
            number_code(value, minimum as int, i64::MAX as int),
        ),
{
    normalize_range(value, field, minimum, i64::MAX, issues)
}

fn note_excess(
    value: Option<i64>,
    bound: Option<i64>,
    field: &'static str,
    code: &'static str,
    issues: &mut Vec<StageIssue>,
)
    ensures
        issue_views(final(issues)@) == issue_views(old(issues)@) + issue(
            field@,
            match (value, bound) {
                (Some(value), Some(bound)) => if value > bound {
                    Some(code@)
                } else {
                    None
                },
                _ => None,
            },
        ),
{
    let ghost before = issue_views(issues@);
    assert(before + issue(field@, None) =~= before);
    if let Some(value) = value {
        if let Some(bound) = bound {
            if value > bound {
                push_issue(issues, field, code);
            }
        }
    }
}

fn normalize_state(value: Option<i64>, issues: &mut Vec<StageIssue>) -> (state: Option<String>)
    ensures
        text::optional_text(state) == state_name(value),
        issue_views(final(issues)@) == issue_views(old(issues)@) + issue(
            "state"@,
            state_code(value),
        ),
{
    let ghost before = issue_views(issues@);
    assert(before + issue("state"@, None) =~= before);
    match value {
        None => {
            push_issue(issues, "state", "number_missing");
            None
        },
        Some(number) => {
            if number == 0 {
                return Some("alive".to_owned());
            }
            if number < 1 || number > 3 {
                push_issue(issues, "state", "state_invalid");
                return None;
            }
            push_issue(issues, "state", "state_not_confirmable");
            if number == 1 {
                Some("dead".to_owned())
            } else if number == 2 {
                Some("reviving".to_owned())
            } else {
                Some("deleted".to_owned())
            }
        },
    }
}

fn name_source(source: &SourcePlayer) -> (name: Option<&str>)
    ensures
        match name {
            Some(name) => name_of(*source) == Some(name@),
            None => name_of(*source) is None,
        },
{
    match &source.name {
        Some(name) => if blank(name.as_str()) {
            as_str(&source.nickname)
        } else {
            Some(name.as_str())
        },
        None => as_str(&source.nickname),
    }
}

/// Keeps what is fit of a player of the earlier database and notes what is not.
pub fn normalize_source_player(source: &SourcePlayer) -> (player: StagedPlayer)
    ensures
        keeps_fit_fields(player, *source),
        issue_views(player.issues@) == source_issues(*source),
{
    let mut issues: Vec<StageIssue> = Vec::new();
    assert(issue_views(issues@) =~= Seq::empty());
    assert(Seq::<(Seq<char>, Seq<char>)>::empty() + issue("id"@, None) =~= Seq::empty());
    if source.id <= 0 {
        push_issue(&mut issues, "id", "source_player_id_invalid");
    }
    let ghost before = issue_views(issues@);
    assert(before + issue("user_id"@, None) =~= before);
    let subject_id = match source.user_id {
        Some(user_id) => if user_id > 0 {
            Some(i64_text(user_id))
        } else {
            None
        },
        None => None,
    };
    if subject_id.is_none() {
        push_issue(&mut issues, "user_id", "subject_id_invalid");
    }
    let name = normalize_required_text(name_source(source), "name", 128, &mut issues);
    let gender = normalize_gender(&source.gender, &mut issues);
    let level = normalize_range(source.level, "level", 1, 120, &mut issues);
    let exp = normalize_minimum(source.exp, "exp", 0, &mut issues);
    let max_hp = normalize_minimum(source.max_hp, "max_hp", 1, &mut issues);
    let hp = normalize_minimum(source.hp, "hp", 0, &mut issues);
    note_excess(hp, max_hp, "hp", "hp_exceeds_max_hp", &mut issues);
    let max_soul_power = normalize_minimum(source.max_soul_power, "max_mp", 1, &mut issues);
    let soul_power = normalize_minimum(source.soul_power, "mp", 0, &mut issues);
    note_excess(soul_power, max_soul_power, "mp", "mp_exceeds_max_mp", &mut issues);
    let strength = normalize_minimum(source.strength, "strength", 0, &mut issues);
    let agility = normalize_minimum(source.agility, "agility", 0, &mut issues);
    let spirit = normalize_minimum(source.spirit, "spirit", 0, &mut issues);
    let endurance = normalize_minimum(source.endurance, "endurance", 0, &mut issues);
    let perception = normalize_minimum(source.perception, "perception", 0, &mut issues);
    let luck = normalize_minimum(source.luck, "luck", 0, &mut issues);
    let life_count = normalize_range(source.life_count, "life_count", 1, 3, &mut issues);
    let state = normalize_state(source.state, &mut issues);
    StagedPlayer {
        source_player_id: source.id,
        subject_id,
        name,
        gender,
        level,
        exp,
        hp,
        max_hp,
        soul_power,
        max_soul_power,
        strength,
        agility,
        spirit,
        endurance,
        perception,
        luck,
        life_count,
        state,
        issues,
    }
}

/// Why the rows of the earlier database are not taken: the first that cannot be read, or
/// too many of them. An unread row is the reason why it cannot be read.
pub open spec fn rows_error(rows: Seq<Result<SourcePlayer, String>>, from: nat) -> Option<Seq<char>>
    decreases rows.len() - from,
{
    if from >= rows.len() {
        None
    } else if from >= MAX_SOURCE_PLAYERS {
        Some("玩家 staging 源资料不能超过 "@ + text::decimal(MAX_SOURCE_PLAYERS as nat) + " 条"@)
    } else {
        match rows[from as int] {
            Err(error) => Some("解析玩家 staging 源资料失败："@ + error@),
            Ok(_) => rows_error(rows, from + 1),
        }
    }
}

/// Whether players are those of the earlier database, one for each row, with all that is
/// wrong with a row by itself.
pub open spec fn come_from(
    players: Seq<StagedPlayer>,
    rows: Seq<Result<SourcePlayer, String>>,
) -> bool {
    &&& players.len() == rows.len()
    &&& forall|i: int|
        0 <= i < rows.len() ==> rows[i] is Ok && keeps_fit_fields(#[trigger] players[i], rows[i]->Ok_0)
            && issue_views(players[i].issues@) == source_issues(rows[i]->Ok_0)
}

/// Takes the rows of the earlier database.
pub fn read_source_players(rows: &Vec<Result<SourcePlayer, String>>) -> (result: Result<
    Vec<StagedPlayer>,
    String,
>)
    ensures
        config::failure(result) == rows_error(rows@, 0),
        result matches Ok(players) ==> come_from(players@, rows@) && rows@.len()
            <= MAX_SOURCE_PLAYERS,
{
    let mut players: Vec<StagedPlayer> = Vec::new();
    let mut i: usize = 0;
    while i < rows.len()
        invariant
            i <= rows@.len(),
            i <= MAX_SOURCE_PLAYERS,
            players@.len() == i,
            rows_error(rows@, 0) == rows_error(rows@, i as nat),
            forall|j: int|
                0 <= j < i ==> rows@[j] is Ok && keeps_fit_fields(
                    #[trigger] players@[j],
                    rows@[j]->Ok_0,
                ) && issue_views(players@[j].issues@) == source_issues(rows@[j]->Ok_0),
        decreases rows@.len() - i,
    {
        if i >= MAX_SOURCE_PLAYERS {
            return Err(
                cat3(
                    "玩家 staging 源资料不能超过 ",
                    usize_text(MAX_SOURCE_PLAYERS).as_str(),
                    " 条",
                ),
            );
        }
        match &rows[i] {
            Err(error) => return Err(cat2("解析玩家 staging 源资料失败：", error.as_str())),
            Ok(source) => players.push(normalize_source_player(source)),
        }
        i = i + 1;
    }
    Ok(players)
}

/// The users that players belong to.
pub open spec fn subjects(players: Seq<StagedPlayer>) -> Seq<Option<Seq<char>>> {
    Seq::new(players.len(), |i: int| text::optional_text(players[i].subject_id))
}

/// Whether a user occurs within a stretch of a list.
pub open spec fn occurs_within(
    list: Seq<Option<Seq<char>>>,
    from: int,
    to: int,
    subject: Seq<char>,
) -> bool {
    exists|j: int| from <= j < to && #[trigger] list[j] == Some(subject)
}

/// Whether the user of a player is that of another one too.
pub open spec fn is_repeated(list: Seq<Option<Seq<char>>>, i: int) -> bool {
    list[i] matches Some(subject) && (occurs_within(list, 0, i, subject) || occurs_within(
        list,
        i + 1,
        list.len() as int,
        subject,
    ))
}

fn repeated_subjects(players: &Vec<StagedPlayer>) -> (repeated: Vec<bool>)
    ensures
        repeated@.len() == players@.len(),
        forall|i: int|
            0 <= i < players@.len() ==> #[trigger] repeated@[i] == is_repeated(
                subjects(players@),
                i,
            ),
{
    let ghost list = subjects(players@);
    let mut repeated: Vec<bool> = Vec::new();
    let mut earlier = SeenTexts::new();
    let mut i: usize = 0;
    while i < players.len()
        invariant
            i <= players@.len(),
            list == subjects(players@),
            repeated@.len() == i,
            earlier.wf(),
            forall|subject: Seq<char>| #[trigger]
                earlier.noted().contains(subject) <==> occurs_within(list, 0, i as int, subject),
            forall|j: int|
                0 <= j < i ==> #[trigger] repeated@[j] == (list[j] matches Some(subject)
                    && occurs_within(list, 0, j, subject)),
        decreases players@.len() - i,
    {
        let ghost noted = earlier.noted();
        match &players[i].subject_id {
            Some(subject) => {
                let before = earlier.note(subject.as_str());
                repeated.push(before);
                proof {
                    assert(list[i as int] == Some(subject@));
                    assert forall|other: Seq<char>| #[trigger]
                        earlier.noted().contains(other) <==> occurs_within(
                            list,
                            0,
                            i + 1,
                            other,
                        ) by {
                        if noted.contains(other) {
                            let k = choose|k: int| 0 <= k < noted.len() && noted[k] == other;
                            assert(earlier.noted()[k] == other);
                            let j = choose|j: int|
                                0 <= j < i && #[trigger] list[j] == Some(other);
                            assert(list[j] == Some(other));
                        }
                        if other == subject@ {
                            assert(earlier.noted()[noted.len() as int] == other);
                        }
                        if earlier.noted().contains(other) {
                            let k = choose|k: int|
                                0 <= k < noted.len() + 1 && earlier.noted()[k] == other;
                            if k < noted.len() {
                                assert(noted[k] == other);
                                assert(noted.contains(other));
                            }
                        }
                        if occurs_within(list, 0, i + 1, other) && other != subject@ {
                            let j = choose|j: int|
                                0 <= j < i + 1 && #[trigger] list[j] == Some(other);
                            assert(occurs_within(list, 0, i as int, other));
                        }
                    }
                }
            },
            None => {
                repeated.push(false);
                proof {
                    assert(list[i as int] is None);
                    assert forall|other: Seq<char>| #[trigger]
                        earlier.noted().contains(other) <==> occurs_within(
                            list,
                            0,
                            i + 1,
                            other,
                        ) by {
                        if occurs_within(list, 0, i as int, other) {
                            let j = choose|j: int|
                                0 <= j < i && #[trigger] list[j] == Some(other);
                            assert(list[j] == Some(other));
                        }
                        if occurs_within(list, 0, i + 1, other) {
                            let j = choose|j: int|
                                0 <= j < i + 1 && #[trigger] list[j] == Some(other);
                            assert(j < i);
                        }
                    }
                }
            },
        }
        i = i + 1;
    }
    let ghost first = repeated@;
    let mut later = SeenTexts::new();
    let ghost count = players@.len() as int;
    let mut k: usize = players.len();
    while k > 0
        invariant
            k <= players@.len(),
            count == players@.len(),
            list == subjects(players@),
            repeated@.len() == players@.len(),
            first.len() == players@.len(),
            later.wf(),
            forall|subject: Seq<char>| #[trigger]
                later.noted().contains(subject) <==> occurs_within(list, k as int, count, subject),
            forall|j: int|
                0 <= j < count ==> #[trigger] first[j] == (list[j] matches Some(subject)
                    && occurs_within(list, 0, j, subject)),
            forall|j: int| 0 <= j < k ==> #[trigger] repeated@[j] == first[j],
            forall|j: int| k <= j < count ==> #[trigger] repeated@[j] == is_repeated(list, j),
        decreases k,
    {
        k = k - 1;
        let ghost noted = later.noted();
        match &players[k].subject_id {
            Some(subject) => {
                let after = later.note(subject.as_str());
                let before = repeated[k];
                repeated.set(k, before || after);
                proof {
                    assert(list[k as int] == Some(subject@));
                    assert(first[k as int] == before);
                    assert forall|other: Seq<char>| #[trigger]
                        later.noted().contains(other) <==> occurs_within(
                            list,
                            k as int,
                            count,
                            other,
                        ) by {
                        if noted.contains(other) {
                            let m = choose|m: int| 0 <= m < noted.len() && noted[m] == other;
                            assert(later.noted()[m] == other);
                            let j = choose|j: int|
                                k + 1 <= j < count && #[trigger] list[j] == Some(other);
                            assert(list[j] == Some(other));
                        }
                        if other == subject@ {
                            assert(later.noted()[noted.len() as int] == other);
                        }
                        if later.noted().contains(other) {
                            let m = choose|m: int|
                                0 <= m < noted.len() + 1 && later.noted()[m] == other;
                            if m < noted.len() {
                                assert(noted[m] == other);
                                assert(noted.contains(other));
                            }
                        }
                        if occurs_within(list, k as int, count, other) && other != subject@ {
                            let j = choose|j: int|
                                k <= j < count && #[trigger] list[j] == Some(other);
                            assert(occurs_within(list, k + 1, count, other));
                        }
                    }
                }
            },
            None => {
                proof {
                    assert(list[k as int] is None);
                    assert(repeated@[k as int] == first[k as int]);
                    assert forall|other: Seq<char>| #[trigger]
                        later.noted().contains(other) <==> occurs_within(
                            list,
                            k as int,
                            count,
                            other,
                        ) by {
                        if occurs_within(list, k + 1, count, other) {
                            let j = choose|j: int|
                                k + 1 <= j < count && #[trigger] list[j] == Some(other);
                            assert(list[j] == Some(other));
                        }
                        if occurs_within(list, k as int, count, other) {
                            let j = choose|j: int|
                                k <= j < count && #[trigger] list[j] == Some(other);
                            assert(j > k);
                        }
                    }
                }
            },
        }
    }
    repeated
}

/// A player with something more that is wrong with it.
pub open spec fn differs_only_in_issues(player: StagedPlayer, before: StagedPlayer) -> bool {
    player == (StagedPlayer { issues: player.issues, ..before })
}

/// What is wrong with a player, given those beside it: a user may have one player only.
pub open spec fn issues_beside(
    own: Seq<(Seq<char>, Seq<char>)>,
    list: Seq<Option<Seq<char>>>,
    i: int,
) -> Seq<(Seq<char>, Seq<char>)> {
    own + issue(
        "user_id"@,
        if is_repeated(list, i) {
            Some("duplicate_subject_id"@)
        } else {
            None
        },
    )
}

/// Notes the players whose user has another player too.
pub fn add_duplicate_subject_issues(players: &mut Vec<StagedPlayer>)
    ensures
        final(players)@.len() == old(players)@.len(),
        forall|i: int|
            0 <= i < old(players)@.len() ==> differs_only_in_issues(
                #[trigger] final(players)@[i],
                old(players)@[i],
            ) && issue_views(final(players)@[i].issues@) == issues_beside(
                issue_views(old(players)@[i].issues@),
                subjects(old(players)@),
                i,
            ),
{
    let ghost before = players@;
    let ghost list = subjects(before);
    let repeated = repeated_subjects(players);
    let mut i: usize = 0;
    while i < players.len()
        invariant
            i <= players@.len(),
            players@.len() == before.len(),
            repeated@.len() == before.len(),
            before == old(players)@,
            list == subjects(before),
            forall|j: int| 0 <= j < before.len() ==> #[trigger] repeated@[j] == is_repeated(list, j),
            forall|j: int|
                0 <= j < i ==> differs_only_in_issues(#[trigger] players@[j], before[j])
                    && issue_views(players@[j].issues@) == issues_beside(
                    issue_views(before[j].issues@),
                    list,
                    j,
                ),
            forall|j: int| i <= j < before.len() ==> #[trigger] players@[j] == before[j],
        decreases players@.len() - i,
    {
        let ghost own = issue_views(before[i as int].issues@);
        assert(own + issue("user_id"@, None) =~= own);
        if repeated[i] {
            push_issue(&mut players[i].issues, "user_id", "duplicate_subject_id");
        }
        i = i + 1;
    }
}

/// How often a code occurs in a list.
pub open spec fn occurrences(codes: Seq<Seq<char>>, code: Seq<char>) -> nat
    decreases codes.len(),
{
    if codes.len() == 0 {
        0
    } else {
        occurrences(codes.drop_last(), code) + if codes.last() == code {
            1nat
        } else {
            0nat
        }
    }
}

/// The codes and numbers of a list of counts.
pub open spec fn count_views(counts: Seq<(String, usize)>) -> Seq<(Seq<char>, nat)> {
    Seq::new(counts.len(), |i: int| (counts[i].0@, counts[i].1 as nat))
}

/// Whether a code has a count.
pub open spec fn has_count(counts: Seq<(Seq<char>, nat)>, code: Seq<char>) -> bool {
    exists|i: int| 0 <= i < counts.len() && (#[trigger] counts[i]).0 == code
}

/// Whether counts are in the order of their codes.
pub open spec fn in_code_order(counts: Seq<(Seq<char>, nat)>) -> bool {
    forall|i: int, j: int|
        0 <= i < j < counts.len() ==> text::before(
            (#[trigger] counts[i]).0,
            (#[trigger] counts[j]).0,
        )
}

/// Whether counts say of each code how often it occurs in a list, in the order of the
/// codes, and name no other code.
pub open spec fn is_tally(counts: Seq<(Seq<char>, nat)>, codes: Seq<Seq<char>>) -> bool {
    &&& in_code_order(counts)
    &&& forall|i: int|
        0 <= i < counts.len() ==> (#[trigger] counts[i]).1 == occurrences(codes, counts[i].0)
    &&& forall|code: Seq<char>| #[trigger]
        has_count(counts, code) <==> occurrences(codes, code) > 0
}

proof fn lemma_occurrences_bounded(codes: Seq<Seq<char>>, code: Seq<char>)
    ensures
        occurrences(codes, code) <= codes.len(),
    decreases codes.len(),
{
    if codes.len() > 0 {
        lemma_occurrences_bounded(codes.drop_last(), code);
    }
}

fn count_position(counts: &Vec<(String, usize)>, code: &str) -> (at: usize)
    requires
        in_code_order(count_views(counts@)),
    ensures
        at <= counts@.len(),
        forall|j: int| 0 <= j < at ==> text::before((#[trigger] count_views(counts@)[j]).0, code@),
        forall|j: int|
            at <= j < counts@.len() ==> !text::before((#[trigger] count_views(counts@)[j]).0, code@),
        forall|j: int| at < j < counts@.len() ==> (#[trigger] count_views(counts@)[j]).0 != code@,
{
    let ghost views = count_views(counts@);
    let mut at: usize = 0;
    while at < counts.len() && comes_first(counts[at].0.as_str(), code)
        invariant
            at <= counts@.len(),
            views == count_views(counts@),
            forall|j: int| 0 <= j < at ==> text::before((#[trigger] views[j]).0, code@),
        decreases counts@.len() - at,
    {
        assert(views[at as int].0 == counts@[at as int].0@);
        at = at + 1;
    }
    proof {
        if at < counts@.len() {
            let here = views[at as int].0;
            assert(!text::before(here, code@));
            assert forall|j: int| at < j < counts@.len() implies (#[trigger] views[j]).0 != code@
                && !text::before(views[j].0, code@) by {
                assert(text::before(here, views[j].0));
                text::one_text_comes_first(here, code@);
                if text::before(views[j].0, code@) {
                    text::coming_first_is_transitive(here, views[j].0, code@);
                }
            }
        }
    }
    at
}

fn count_code(counts: &mut Vec<(String, usize)>, code: &str, codes: Ghost<Seq<Seq<char>>>)
    requires
        is_tally(count_views(old(counts)@), codes@),
        codes@.len() < usize::MAX,
    ensures
        is_tally(count_views(final(counts)@), codes@.push(code@)),
{
    let ghost views = count_views(counts@);
    let ghost more = codes@.push(code@);
    let at = count_position(counts, code);
    proof {
        assert(more.drop_last() =~= codes@);
        lemma_occurrences_bounded(codes@, code@);
    }
    if at < counts.len() && same(counts[at].0.as_str(), code) {
        let number: usize = counts[at].1;
        assert(views[at as int].1 == occurrences(codes@, code@));
        counts.set(at, (code.to_owned(), number + 1));
        proof {
            let now = count_views(counts@);
            assert forall|i: int| 0 <= i < now.len() implies (#[trigger] now[i]).0 == views[i].0 by {
            }
            assert forall|i: int, j: int| 0 <= i < j < now.len() implies text::before(
                (#[trigger] now[i]).0,
                (#[trigger] now[j]).0,
            ) by {
                assert(text::before(views[i].0, views[j].0));
            }
            assert forall|i: int| 0 <= i < now.len() implies (#[trigger] now[i]).1
                == occurrences(more, now[i].0) by {
                assert(views[i].1 == occurrences(codes@, views[i].0));
                if i != at {
                    assert(views[i].0 != code@) by {
                        if i < at {
                            text::one_text_comes_first(views[i].0, code@);
                        }
                    }
                    assert(now[i] == views[i]);
                }
            }
            assert forall|other: Seq<char>| #[trigger]
                has_count(now, other) <==> occurrences(more, other) > 0 by {
                if has_count(now, other) {
                    let i = choose|i: int| 0 <= i < now.len() && (#[trigger] now[i]).0 == other;
                    assert(views[i].0 == other);
                    assert(has_count(views, other));
                }
                if has_count(views, other) {
                    let i = choose|i: int| 0 <= i < views.len() && (#[trigger] views[i]).0 == other;
                    assert(now[i].0 == other);
                }
                if other == code@ {
                    assert(now[at as int].0 == other);
                }
            }
        }
    } else {
        counts.insert(at, (code.to_owned(), 1));
        proof {
            let now = count_views(counts@);
            let place = at as int;
            assert(now =~= views.insert(place, (code@, 1nat)));
            assert forall|j: int| 0 <= j < views.len() implies (#[trigger] views[j]).0 != code@ by {
                if j < place {
                    text::one_text_comes_first(views[j].0, code@);
                }
            }
            assert(occurrences(codes@, code@) == 0) by {
                assert(!has_count(views, code@));
            }
            assert forall|j: int| place <= j < views.len() implies text::before(
                code@,
                (#[trigger] views[j]).0,
            ) by {
                text::one_text_comes_first(views[j].0, code@);
            }
            assert forall|i: int, j: int| 0 <= i < j < now.len() implies text::before(
                (#[trigger] now[i]).0,
                (#[trigger] now[j]).0,
            ) by {
                if i < place {
                    assert(now[i] == views[i]);
                    if j > place {
                        assert(now[j] == views[j - 1]);
                    }
                } else if i == place {
                    assert(now[j] == views[j - 1]);
                } else {
                    assert(now[i] == views[i - 1]);
                    assert(now[j] == views[j - 1]);
                }
            }
            assert forall|i: int| 0 <= i < now.len() implies (#[trigger] now[i]).1
                == occurrences(more, now[i].0) by {
                if i < place {
                    assert(now[i] == views[i]);
                } else if i > place {
                    assert(now[i] == views[i - 1]);
                }
            }
            assert forall|other: Seq<char>| #[trigger]
                has_count(now, other) <==> occurrences(more, other) > 0 by {
                if has_count(now, other) && other != code@ {
                    let i = choose|i: int| 0 <= i < now.len() && (#[trigger] now[i]).0 == other;
                    if i < place {
                        assert(views[i].0 == other);
                    } else {
                        assert(views[i - 1].0 == other);
                    }
                    assert(has_count(views, other));
                }
                if has_count(views, other) {
                    let i = choose|i: int| 0 <= i < views.len() && (#[trigger] views[i]).0 == other;
                    if i < place {
                        assert(now[i].0 == other);
                    } else {
                        assert(now[i + 1].0 == other);
                    }
                }
                if other == code@ {
                    assert(now[place].0 == other);
                }
            }
        }
    }
}

/// What a staging found, without anything of the players themselves.
#[derive(Clone, Debug, PartialEq, Eq)]
pub struct PlayerStageSummary {
    pub source_sha256: String,
    pub total_players: usize,
    pub ready_players: usize,
    pub rejected_players: usize,
    /// How often each code was noted, in the order of the codes.
    pub issue_counts: Vec<(String, usize)>,
}

/// The codes of what is wrong.
pub open spec fn codes_of(issues: Seq<(Seq<char>, Seq<char>)>) -> Seq<Seq<char>> {
    Seq::new(issues.len(), |i: int| issues[i].1)
}

/// The codes of what is wrong with some players.
pub open spec fn all_codes(players: Seq<StagedPlayer>) -> Seq<Seq<char>>
    decreases players.len(),
{
    if players.len() == 0 {
        Seq::empty()
    } else {
        all_codes(players.drop_last()) + codes_of(issue_views(players.last().issues@))
    }
}

/// How many of some players can be confirmed: those with which nothing is wrong.
pub open spec fn ready_count(players: Seq<StagedPlayer>) -> nat
    decreases players.len(),
{
    if players.len() == 0 {
        0
    } else {
        ready_count(players.drop_last()) + if players.last().issues@.len() == 0 {
            1nat
        } else {
            0nat
        }
    }
}

/// Whether a summary says what there is to say of some players.
pub open spec fn summarizes(
    summary: PlayerStageSummary,
    source_sha256: Seq<char>,
    players: Seq<StagedPlayer>,
) -> bool {
    &&& summary.source_sha256@ == source_sha256
    &&& summary.total_players == players.len()
    &&& summary.ready_players == ready_count(players)
    &&& summary.rejected_players == players.len() - ready_count(players)
    &&& is_tally(count_views(summary.issue_counts@), all_codes(players))
}

impl StagedPlayer {
    /// Whether the player can be confirmed.
    pub fn is_ready(&self) -> (answer: bool)
        ensures
            answer == (self.issues@.len() == 0),
    {
        self.issues.len() == 0
    }
}

impl PlayerStageSummary {
    /// How often a code was noted.
    pub fn issue_count(&self, code: &str) -> (count: Option<usize>)
        ensures
            match count {
                Some(count) => count_views(self.issue_counts@).contains((code@, count as nat)),
                None => !has_count(count_views(self.issue_counts@), code@),
            },
    {
        let ghost views = count_views(self.issue_counts@);
        let mut i: usize = 0;
        while i < self.issue_counts.len()
            invariant
                i <= self.issue_counts@.len(),
                views == count_views(self.issue_counts@),
                forall|j: int| 0 <= j < i ==> (#[trigger] views[j]).0 != code@,
            decreases self.issue_counts@.len() - i,
        {
            assert(views[i as int].0 == self.issue_counts@[i as int].0@);
            if same(self.issue_counts[i].0.as_str(), code) {
                let count: usize = self.issue_counts[i].1;
                assert(views[i as int] == (code@, count as nat));
                return Some(count);
            }
            i = i + 1;
        }
        None
    }
}

proof fn lemma_fewer_codes(players: Seq<StagedPlayer>, n: int)
    requires
        0 <= n <= players.len(),
    ensures
        all_codes(players.take(n)).len() <= all_codes(players).len(),
    decreases players.len(),
{
    if n < players.len() {
        lemma_fewer_codes(players.drop_last(), n);
        assert(players.drop_last().take(n) =~= players.take(n));
    } else {
        assert(players.take(n) =~= players);
    }
}

fn count_issues(
    counts: &mut Vec<(String, usize)>,
    issues: &Vec<StageIssue>,
    codes: Ghost<Seq<Seq<char>>>,
)
    requires
        is_tally(count_views(old(counts)@), codes@),
        codes@.len() + issues@.len() <= usize::MAX,
    ensures
        is_tally(count_views(final(counts)@), codes@ + codes_of(issue_views(issues@))),
{
    let ghost own = codes_of(issue_views(issues@));
    let mut i: usize = 0;
    assert(codes@ + own.take(0) =~= codes@);
    while i < issues.len()
        invariant
            i <= issues@.len(),
            own == codes_of(issue_views(issues@)),
            codes@.len() + issues@.len() <= usize::MAX,
            is_tally(count_views(counts@), codes@ + own.take(i as int)),
        decreases issues@.len() - i,
    {
        count_code(counts, issues[i].code, Ghost(codes@ + own.take(i as int)));
        assert((codes@ + own.take(i as int)).push(own[i as int]) =~= codes@ + own.take(i + 1));
        i = i + 1;
    }
    assert(own.take(i as int) =~= own);
}

/// Sums up what a staging found.
pub fn summarize_players(source_sha256: &str, players: &Vec<StagedPlayer>) -> (summary:
    PlayerStageSummary)
    requires
        all_codes(players@).len() <= usize::MAX,
    ensures
        summarizes(summary, source_sha256@, players@),
{
    let ghost all = players@;
    let mut issue_counts: Vec<(String, usize)> = Vec::new();
    let mut ready_players: usize = 0;
    let mut i: usize = 0;
    proof {
        assert(all.take(0) =~= Seq::empty());
        assert(count_views(issue_counts@) =~= Seq::empty());
        assert forall|code: Seq<char>| #[trigger]
            has_count(Seq::<(Seq<char>, nat)>::empty(), code) <==> occurrences(
                Seq::<Seq<char>>::empty(),
                code,
            ) > 0 by {}
    }
    while i < players.len()
        invariant
            i <= players@.len(),
            all == players@,
            all_codes(all).len() <= usize::MAX,
            ready_players == ready_count(all.take(i as int)),
            ready_players <= i,
            is_tally(count_views(issue_counts@), all_codes(all.take(i as int))),
        decreases players@.len() - i,
    {
        let ghost next = all.take(i + 1);
        proof {
            assert(next.drop_last() =~= all.take(i as int));
            assert(next.last() == players@[i as int]);
            lemma_fewer_codes(all, i + 1);
        }
        if players[i].is_ready() {
            ready_players = ready_players + 1;
        }
        count_issues(
            &mut issue_counts,
            &players[i].issues,
            Ghost(all_codes(all.take(i as int))),
        );
        i = i + 1;
    }
    assert(all.take(i as int) =~= all);
    PlayerStageSummary {
        source_sha256: source_sha256.to_owned(),
        total_players: players.len(),
        ready_players,
        rejected_players: players.len() - ready_players,
        issue_counts,
    }
}

/// The name of the file that a path leads to, from the parts between its slashes.
pub open spec fn last_name(parts: Seq<Seq<char>>) -> Option<Seq<char>>
    decreases parts.len(),
{
    if parts.len() == 0 {
        None
    } else if parts.last() == ""@ || parts.last() == "."@ {
        last_name(parts.drop_last())
    } else if parts.last() == ".."@ {
        None
    } else {
        Some(parts.last())
    }
}

/// Whether a path leads to a file with an extension, in any letters.
pub open spec fn has_extension(path: Seq<char>, wanted: Seq<char>) -> bool {
    match last_name(text::parts(path, '/')) {
        Some(name) => match assets::name_extension(name) {
            Some(extension) => text::lowered(extension) == wanted,
            None => false,
        },
        None => false,
    }
}

/// Whether a path leads to a file that ends as databases do.
pub open spec fn has_database_extension(path: Seq<char>) -> bool {
    has_extension(path, "sqlite"@)
}

fn file_name(path: &str) -> (name: Option<String>)
    ensures
        text::optional_text(name) == last_name(text::parts(path@, '/')),
{
    let segments = split_char(path, '/');
    let ghost parts = text::parts(path@, '/');
    let mut n: usize = segments.len();
    assert(parts.take(n as int) =~= parts);
    while n > 0
        invariant
            n <= segments@.len(),
            parts == text::parts(path@, '/'),
            parts == text::texts(segments@),
            last_name(parts) == last_name(parts.take(n as int)),
        decreases n,
    {
        let segment = nth(&segments, n - 1);
        let ghost rest = parts.take(n as int);
        assert(rest.last() == segment@);
        assert(rest.drop_last() =~= parts.take(n - 1));
        proof {
            reveal_strlit("");
        }
        if !segment.is_empty() && !same(segment, ".") {
            if same(segment, "..") {
                return None;
            }
            return Some(segment.to_owned());
        }
        assert(segment@ == ""@ || segment@ == "."@) by {
            if segment@ != "."@ {
                assert(segment@ =~= ""@);
            }
        }
        n = n - 1;
    }
    None
}

/// Whether a path leads to a file with an extension, given in small letters.
pub(crate) fn extension_is(path: &str, wanted: &str) -> (answer: bool)
    ensures
        answer == has_extension(path@, wanted@),
{
    match file_name(path) {
        Some(name) => match file_extension(name.as_str()) {
            Some(extension) => same(to_lower(extension.as_str()).as_str(), wanted),
            None => false,
        },
        None => false,
    }
}

/// Whether a path leads to a file that ends as databases do.
pub fn database_extension(path: &str) -> (answer: bool)
    ensures
        answer == has_database_extension(path@),
{
    extension_is(path, "sqlite")
}

/// Checks where players are laid down.
pub fn validate_output_path(output_path: &str) -> (result: Result<(), String>)
    ensures
        config::failure(result) == (if has_database_extension(output_path@) {
            None
        } else {
            Some("玩家 staging 输出文件必须使用 .sqlite 扩展名"@)
        }),
{
    if !database_extension(output_path) {
        return Err("玩家 staging 输出文件必须使用 .sqlite 扩展名".to_owned());
    }
    Ok(())
}

/// The time of a staging, in seconds.
pub fn stage_timestamp(seconds: u64) -> (result: Result<i64, String>)
    ensures
        match result {
            Ok(now) => now == seconds,
            Err(message) => seconds > i64::MAX && message@ == "玩家 staging 系统时间超出范围"@,
        },
{
    if seconds > i64::MAX as u64 {
        return Err("玩家 staging 系统时间超出范围".to_owned());
    }
    Ok(seconds as i64)
}

/// The batch that a file of players holds.
#[derive(Clone, Debug, PartialEq, Eq)]
pub struct StageBatchRow {
    pub id: i64,
    pub schema_version: i64,
    pub source_format: String,
    pub source_sha256: String,
    pub protocol: String,
    pub account_id: String,
    pub namespace: String,
    pub staged_at: i64,
    pub total_players: i64,
    pub ready_players: i64,
    pub rejected_players: i64,
}

/// A player that a file of players holds.
#[derive(Clone, Debug, PartialEq, Eq)]
pub struct StagePlayerRow {
    pub id: i64,
    pub source_player_id: i64,
    pub subject_id: Option<String>,
    pub name: Option<String>,
    pub gender: Option<String>,
    pub level: Option<i64>,
    pub exp: Option<i64>,
    pub hp: Option<i64>,
    pub max_hp: Option<i64>,
    pub soul_power: Option<i64>,
    pub max_soul_power: Option<i64>,
    pub strength: Option<i64>,
    pub agility: Option<i64>,
    pub spirit: Option<i64>,
    pub endurance: Option<i64>,
    pub perception: Option<i64>,
    pub luck: Option<i64>,
    pub life_count: Option<i64>,
    pub state: Option<String>,
    pub validation_state: String,
    pub issue_count: i64,
}

/// What is wrong with a player, as a file of players holds it.
#[derive(Clone, Debug, PartialEq, Eq)]
pub struct StageIssueRow {
    pub stage_player_id: i64,
    pub field: String,
    pub code: String,
}

/// The player, the field and the code.
impl View for StageIssueRow {
    type V = (int, Seq<char>, Seq<char>);

    open spec fn view(&self) -> (int, Seq<char>, Seq<char>) {
        (self.stage_player_id as int, self.field@, self.code@)
    }
}

/// A file of players.
#[derive(Clone, Debug, PartialEq, Eq)]
pub struct StageFile {
    pub batches: Vec<StageBatchRow>,
    pub players: Vec<StagePlayerRow>,
    pub issues: Vec<StageIssueRow>,
}

/// The views of the rows of what is wrong.
pub open spec fn issue_row_views(rows: Seq<StageIssueRow>) -> Seq<(int, Seq<char>, Seq<char>)> {
    Seq::new(rows.len(), |i: int| rows[i]@)
}

/// Whether a row of a file holds a player, under a number.
pub open spec fn holds_player(row: StagePlayerRow, player: StagedPlayer, id: int) -> bool {
    &&& row.id == id
    &&& row.source_player_id == player.source_player_id
    &&& text::optional_text(row.subject_id) == text::optional_text(player.subject_id)
    &&& text::optional_text(row.name) == text::optional_text(player.name)
    &&& text::optional_text(row.gender) == text::optional_text(player.gender)
    &&& row.level == player.level
    &&& row.exp == player.exp
    &&& row.hp == player.hp
    &&& row.max_hp == player.max_hp
    &&& row.soul_power == player.soul_power
    &&& row.max_soul_power == player.max_soul_power
    &&& row.strength == player.strength
    &&& row.agility == player.agility
    &&& row.spirit == player.spirit
    &&& row.endurance == player.endurance
    &&& row.perception == player.perception
    &&& row.luck == player.luck
    &&& row.life_count == player.life_count
    &&& text::optional_text(row.state) == text::optional_text(player.state)
    &&& row.validation_state@ == (if player.issues@.len() == 0 {
        "ready"@
    } else {
        "rejected"@
    })
    &&& row.issue_count == player.issues@.len()
}

/// What is wrong with a player, under its number.
pub open spec fn numbered(id: int, issues: Seq<(Seq<char>, Seq<char>)>) -> Seq<
    (int, Seq<char>, Seq<char>),
> {
    Seq::new(issues.len(), |i: int| (id, issues[i].0, issues[i].1))
}

/// What is wrong with some players, each under its number, in order.
pub open spec fn numbered_issues(players: Seq<StagedPlayer>) -> Seq<(int, Seq<char>, Seq<char>)>
    decreases players.len(),
{
    if players.len() == 0 {
        Seq::empty()
    } else {
        numbered_issues(players.drop_last()) + numbered(
            players.len() as int,
            issue_views(players.last().issues@),
        )
    }
}

/// Whether a row holds the batch of some players.
pub open spec fn holds_batch(
    row: StageBatchRow,
    metadata: PlayerStagingMetadata,
    source_sha256: Seq<char>,
    players: Seq<StagedPlayer>,
    staged_at: int,
) -> bool {
    &&& row.id == 1
    &&& row.schema_version == STAGING_SCHEMA_VERSION
    &&& row.source_format@ == SOURCE_FORMAT@
    &&& row.source_sha256@ == source_sha256
    &&& row.protocol@ == metadata.protocol@
    &&& row.account_id@ == metadata.account_id@
    &&& row.namespace@ == metadata.namespace@
    &&& row.staged_at == staged_at
    &&& row.total_players == players.len()
    &&& row.ready_players == ready_count(players)
    &&& row.rejected_players == players.len() - ready_count(players)
}

/// Whether a file holds some players, numbered from one, with all that is wrong with
/// them, and the batch that they make.
pub open spec fn holds_players(
    file: StageFile,
    metadata: PlayerStagingMetadata,
    source_sha256: Seq<char>,
    players: Seq<StagedPlayer>,
    staged_at: int,
) -> bool {
    &&& file.batches@.len() == 1
    &&& holds_batch(file.batches@[0], metadata, source_sha256, players, staged_at)
    &&& file.players@.len() == players.len()
    &&& forall|i: int|
        0 <= i < players.len() ==> holds_player(#[trigger] file.players@[i], players[i], i + 1)
    &&& issue_row_views(file.issues@) == numbered_issues(players)
}

fn copy_text(value: &Option<String>) -> (copy: Option<String>)
    ensures
        text::optional_text(copy) == text::optional_text(*value),
{
    match value {
        Some(value) => Some(value.as_str().to_owned()),
        None => None,
    }
}

fn player_row(player: &StagedPlayer, id: i64) -> (row: StagePlayerRow)
    requires
        player.issues@.len() <= i64::MAX,
    ensures
        holds_player(row, *player, id as int),
{
    let validation_state = if player.is_ready() {
        "ready".to_owned()
    } else {
        "rejected".to_owned()
    };
    StagePlayerRow {
        id,
        source_player_id: player.source_player_id,
        subject_id: copy_text(&player.subject_id),
        name: copy_text(&player.name),
        gender: copy_text(&player.gender),
        level: player.level,
        exp: player.exp,
        hp: player.hp,
        max_hp: player.max_hp,
        soul_power: player.soul_power,
        max_soul_power: player.max_soul_power,
        strength: player.strength,
        agility: player.agility,
        spirit: player.spirit,
        endurance: player.endurance,
        perception: player.perception,
        luck: player.luck,
        life_count: player.life_count,
        state: copy_text(&player.state),
        validation_state,
        issue_count: player.issues.len() as i64,
    }
}

fn push_issue_rows(rows: &mut Vec<StageIssueRow>, id: i64, issues: &Vec<StageIssue>)
    ensures
        issue_row_views(final(rows)@) == issue_row_views(old(rows)@) + numbered(
            id as int,
            issue_views(issues@),
        ),
{
    let ghost before = issue_row_views(rows@);
    let ghost more = numbered(id as int, issue_views(issues@));
    let mut i: usize = 0;
    assert(issue_row_views(rows@) =~= before + more.take(0));
    while i < issues.len()
        invariant
            i <= issues@.len(),
            more == numbered(id as int, issue_views(issues@)),
            issue_row_views(rows@) == before + more.take(i as int),
        decreases issues@.len() - i,
    {
        let ghost so_far = issue_row_views(rows@);
        rows.push(
            StageIssueRow {
                stage_player_id: id,
                field: issues[i].field.to_owned(),
                code: issues[i].code.to_owned(),
            },
        );
        assert(issue_row_views(rows@) =~= so_far.push(more[i as int]));
        assert(so_far.push(more[i as int]) =~= before + more.take(i + 1));
        i = i + 1;
    }
    assert(more.take(i as int) =~= more);
}

/// Lays players down in a file.
pub fn lay_down(
    metadata: &PlayerStagingMetadata,
    summary: &PlayerStageSummary,
    players: &Vec<StagedPlayer>,
    staged_at: i64,
) -> (file: StageFile)
    requires
        players@.len() <= MAX_SOURCE_PLAYERS,
        forall|i: int|
            0 <= i < players@.len() ==> (#[trigger] players@[i]).issues@.len() <= i64::MAX,
        summarizes(*summary, summary.source_sha256@, players@),
    ensures
        holds_players(file, *metadata, summary.source_sha256@, players@, staged_at as int),
{
    let mut rows: Vec<StagePlayerRow> = Vec::new();
    let mut issues: Vec<StageIssueRow> = Vec::new();
    let ghost all = players@;
    let mut i: usize = 0;
    assert(all.take(0) =~= Seq::empty());
    assert(issue_row_views(issues@) =~= Seq::empty());
    while i < players.len()
        invariant
            i <= players@.len(),
            players@.len() <= MAX_SOURCE_PLAYERS,
            all == players@,
            rows@.len() == i,
            forall|j: int|
                0 <= j < players@.len() ==> (#[trigger] players@[j]).issues@.len() <= i64::MAX,
            forall|j: int| 0 <= j < i ==> holds_player(#[trigger] rows@[j], players@[j], j + 1),
            issue_row_views(issues@) == numbered_issues(all.take(i as int)),
        decreases players@.len() - i,
    {
        let id: i64 = (i as i64) + 1;
        let ghost next = all.take(i + 1);
        assert(next.drop_last() =~= all.take(i as int));
        rows.push(player_row(&players[i], id));
        push_issue_rows(&mut issues, id, &players[i].issues);
        i = i + 1;
    }
    assert(all.take(i as int) =~= all);
    let batch = StageBatchRow {
        id: 1,
        schema_version: STAGING_SCHEMA_VERSION,
        source_format: SOURCE_FORMAT.to_owned(),
        source_sha256: summary.source_sha256.as_str().to_owned(),
        protocol: metadata.protocol.as_str().to_owned(),
        account_id: metadata.account_id.as_str().to_owned(),
        namespace: metadata.namespace.as_str().to_owned(),
        staged_at,
        total_players: summary.total_players as i64,
        ready_players: summary.ready_players as i64,
        rejected_players: summary.rejected_players as i64,
    };
    let mut batches: Vec<StageBatchRow> = Vec::new();
    batches.push(batch);
    StageFile { batches, players: rows, issues }
}

/// The earlier database, as it was read.
#[derive(Clone, Debug, PartialEq, Eq)]
pub struct StagingSource {
    pub file: FileFacts,
    pub bytes: Vec<u8>,
    pub player_exists: bool,
    pub columns: Vec<String>,
    pub rows: Vec<Result<SourcePlayer, String>>,
}

/// What a staging gives: what it found, the players and the file to write.
#[derive(Clone, Debug, PartialEq, Eq)]
pub struct Staging {
    pub summary: PlayerStageSummary,
    pub players: Vec<StagedPlayer>,
    pub file: StageFile,
}

/// The users of the rows of the earlier database.
pub open spec fn row_subjects(rows: Seq<Result<SourcePlayer, String>>) -> Seq<Option<Seq<char>>> {
    Seq::new(rows.len(), |i: int| subject_of(rows[i]->Ok_0.user_id))
}

/// Whether players are those of the earlier database, one for each row, with all that is
/// wrong with them.
pub open spec fn staged_from(
    players: Seq<StagedPlayer>,
    rows: Seq<Result<SourcePlayer, String>>,
) -> bool {
    &&& players.len() == rows.len()
    &&& forall|i: int|
        0 <= i < rows.len() ==> rows[i] is Ok && keeps_fit_fields(
            #[trigger] players[i],
            rows[i]->Ok_0,
        ) && issue_views(players[i].issues@) == issues_beside(
            source_issues(rows[i]->Ok_0),
            row_subjects(rows),
            i,
        )
}

/// Why nothing is laid down: the first check that fails.
pub open spec fn staging_error(
    source: StagingSource,
    output_path: Seq<char>,
    metadata: PlayerStagingMetadata,
    seconds: int,
) -> Option<Seq<char>> {
    if metadata_error(metadata) is Some {
        metadata_error(metadata)
    } else if source_file_error(source.file) is Some {
        source_file_error(source.file)
    } else if player_schema_error(source.player_exists, text::texts(source.columns@)) is Some {
        player_schema_error(source.player_exists, text::texts(source.columns@))
    } else if rows_error(source.rows@, 0) is Some {
        rows_error(source.rows@, 0)
    } else if !has_database_extension(output_path) {
        Some("玩家 staging 输出文件必须使用 .sqlite 扩展名"@)
    } else if seconds > i64::MAX {
        Some("玩家 staging 系统时间超出范围"@)
    } else {
        None
    }
}

proof fn lemma_few_codes(players: Seq<StagedPlayer>)
    requires
        forall|i: int| 0 <= i < players.len() ==> (#[trigger] players[i]).issues@.len() <= 21,
    ensures
        all_codes(players).len() <= 21 * players.len(),
    decreases players.len(),
{
    if players.len() > 0 {
        let fewer = players.drop_last();
        assert forall|i: int| 0 <= i < fewer.len() implies (#[trigger] fewer[i]).issues@.len()
            <= 21 by {
            assert(fewer[i] == players[i]);
        }
        lemma_few_codes(fewer);
        assert(players[players.len() - 1].issues@.len() <= 21);
    }
}

proof fn lemma_few_issues(players: Seq<StagedPlayer>, rows: Seq<Result<SourcePlayer, String>>)
    requires
        staged_from(players, rows),
    ensures
        forall|i: int| 0 <= i < players.len() ==> (#[trigger] players[i]).issues@.len() <= 21,
{
    assert forall|i: int| 0 <= i < players.len() implies (#[trigger] players[i]).issues@.len()
        <= 21 by {
        assert(issue_views(players[i].issues@).len() == players[i].issues@.len());
        assert(source_issues(rows[i]->Ok_0).len() <= 20);
    }
}

/// Takes the players of the earlier database and makes the file that holds them.
pub fn stage_recent_sqlite_player_profiles(
    source: &StagingSource,
    output_path: &str,
    metadata: &PlayerStagingMetadata,
    seconds: u64,
) -> (result: Result<Staging, String>)
    ensures
        config::failure(result) == staging_error(
            *source,
            output_path@,
            *metadata,
            seconds as int,
        ),
        result matches Ok(staging) ==> {
            let digest = text::hex(outside::sha256_digest(source.bytes@));
            &&& staged_from(staging.players@, source.rows@)
            &&& summarizes(staging.summary, digest, staging.players@)
            &&& holds_players(
                staging.file,
                *metadata,
                digest,
                staging.players@,
                seconds as int,
            )
        },
{
    if let Err(message) = validate_metadata(metadata) {
        return Err(message);
    }
    if let Err(message) = check_source_file(source.file) {
        return Err(message);
    }
    let source_sha256 = sha256_hex(source.bytes.as_slice());
    if let Err(message) = require_recent_player_schema(source.player_exists, &source.columns) {
        return Err(message);
    }
    let mut players = match read_source_players(&source.rows) {
        Ok(players) => players,
        Err(message) => return Err(message),
    };
    let ghost before = players@;
    add_duplicate_subject_issues(&mut players);
    proof {
        assert(subjects(before) =~= row_subjects(source.rows@)) by {
            assert forall|i: int| 0 <= i < before.len() implies #[trigger] subjects(before)[i]
                == row_subjects(source.rows@)[i] by {
                assert(keeps_fit_fields(before[i], source.rows@[i]->Ok_0));
            }
        }
        assert forall|i: int| 0 <= i < players@.len() implies keeps_fit_fields(
            #[trigger] players@[i],
            source.rows@[i]->Ok_0,
        ) by {
            assert(keeps_fit_fields(before[i], source.rows@[i]->Ok_0));
            assert(differs_only_in_issues(players@[i], before[i]));
        }
        assert(staged_from(players@, source.rows@)) by {
            assert forall|i: int| 0 <= i < players@.len() implies issue_views(
                (#[trigger] players@[i]).issues@,
            ) == issues_beside(
                source_issues(source.rows@[i]->Ok_0),
                row_subjects(source.rows@),
                i,
            ) && source.rows@[i] is Ok by {
                assert(keeps_fit_fields(before[i], source.rows@[i]->Ok_0));
                assert(differs_only_in_issues(players@[i], before[i]));
            }
        }
        lemma_few_issues(players@, source.rows@);
        lemma_few_codes(players@);
    }
    let summary = summarize_players(source_sha256.as_str(), &players);
    if let Err(message) = validate_output_path(output_path) {
        return Err(message);
    }
    let staged_at: i64 = match stage_timestamp(seconds) {
        Ok(now) => now,
        Err(message) => return Err(message),
    };
    let file = lay_down(metadata, &summary, &players, staged_at);
    Ok(Staging { summary, players, file })
}

/// The counts of a summary in words.
pub open spec fn count_texts(counts: Seq<(Seq<char>, nat)>) -> Seq<Seq<char>> {
    Seq::new(counts.len(), |i: int| counts[i].0 + "="@ + text::decimal(counts[i].1))
}

/// What is told of a staging, line by line.
pub open spec fn report_lines(output_path: Seq<char>, summary: PlayerStageSummary) -> Seq<
    Seq<char>,
> {
    let counts = count_views(summary.issue_counts@);
    let lines = seq![
        "已创建玩家 staging："@ + output_path,
        "总记录："@ + text::decimal(summary.total_players as nat) + "；可确认："@
            + text::decimal(summary.ready_players as nat) + "；拒绝："@ + text::decimal(
            summary.rejected_players as nat,
        ),
    ];
    if counts.len() == 0 {
        lines
    } else {
        lines.push("校验问题："@ + text::joined(count_texts(counts), "，"@))
    }
}

/// Tells what a staging found.
pub fn staging_report(output_path: &str, summary: &PlayerStageSummary) -> (lines: Vec<String>)
    ensures
        text::texts(lines@) == report_lines(output_path@, *summary),
{
    let mut lines: Vec<String> = Vec::new();
    lines.push(cat2("已创建玩家 staging：", output_path));
    let total = cat2("总记录：", usize_text(summary.total_players).as_str());
    let ready = cat3(total.as_str(), "；可确认：", usize_text(summary.ready_players).as_str());
    lines.push(cat3(ready.as_str(), "；拒绝：", usize_text(summary.rejected_players).as_str()));
    let ghost counts = count_views(summary.issue_counts@);
    if summary.issue_counts.len() > 0 {
        let mut texts: Vec<String> = Vec::new();
        let mut i: usize = 0;
        while i < summary.issue_counts.len()
            invariant
                i <= summary.issue_counts@.len(),
                counts == count_views(summary.issue_counts@),
                text::texts(texts@) == count_texts(counts).take(i as int),
            decreases summary.issue_counts@.len() - i,
        {
            let ghost before = text::texts(texts@);
            texts.push(
                cat3(
                    summary.issue_counts[i].0.as_str(),
                    "=",
                    usize_text(summary.issue_counts[i].1).as_str(),
                ),
            );
            assert(text::texts(texts@) =~= before.push(count_texts(counts)[i as int]));
            assert(text::texts(texts@) =~= count_texts(counts).take(i + 1));
            i = i + 1;
        }
        assert(text::texts(texts@) =~= count_texts(counts));
        lines.push(cat2("校验问题：", join(&texts, "，").as_str()));
    }
    assert(text::texts(lines@) =~= report_lines(output_path@, *summary));
    lines
}

} // verus!
