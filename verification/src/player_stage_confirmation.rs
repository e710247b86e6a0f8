//! Players that were laid down, read again and checked before they are confirmed.
use crate::config;
use crate::config::{is_safe_data_relative_path, valid_namespace};
use crate::media;
use crate::player_staging;
use crate::player_staging::{
    database_extension, FileFacts, StageBatchRow, StageFile, StageIssueRow, StagePlayerRow,
    SOURCE_FORMAT, STAGING_SCHEMA_VERSION,
};
use crate::text;
use crate::text::{cat2, cat3, chars_of, is_trimmed, same, to_lower};
use vstd::prelude::*;
use vstd::string::*;

verus! {

/// The largest file of players that is read, in bytes.
pub const MAX_STAGING_BYTES: u64 = 67_108_864;

/// The most players on a page.
pub const MAX_STAGE_PAGE_SIZE: usize = 100;

/// A player that can be confirmed.
#[derive(Clone, Debug, PartialEq, Eq)]
pub struct PlayerStageCandidate {
    pub source_sha256: String,
    pub protocol: String,
    pub account_id: String,
    pub namespace: String,
    pub source_player_id: i64,
    pub subject_id: String,
    pub name: String,
    pub gender: String,
    pub level: i64,
    pub exp: i64,
    pub hp: i64,
    pub max_hp: i64,
    pub soul_power: i64,
    pub max_soul_power: i64,
    pub strength: i64,
    pub agility: i64,
    pub spirit: i64,
    pub endurance: i64,
    pub perception: i64,
    pub luck: i64,
    pub life_count: i64,
    pub state: String,
}

/// A player that can be confirmed, as a mathematical value.
#[verifier::ext_equal]
pub ghost struct Candidate {
    pub source_sha256: Seq<char>,
    pub protocol: Seq<char>,
    pub account_id: Seq<char>,
    pub namespace: Seq<char>,
    pub source_player_id: int,
    pub subject_id: Seq<char>,
    pub name: Seq<char>,
    pub gender: Seq<char>,
    pub level: int,
    pub exp: int,
    pub hp: int,
    pub max_hp: int,
    pub soul_power: int,
    pub max_soul_power: int,
    pub strength: int,
    pub agility: int,
    pub spirit: int,
    pub endurance: int,
    pub perception: int,
    pub luck: int,
    pub life_count: int,
    pub state: Seq<char>,
}

impl View for PlayerStageCandidate {
    type V = Candidate;

    open spec fn view(&self) -> Candidate {
        Candidate {
            source_sha256: self.source_sha256@,
            protocol: self.protocol@,
            account_id: self.account_id@,
            namespace: self.namespace@,
            source_player_id: self.source_player_id as int,
            subject_id: self.subject_id@,
            name: self.name@,
            gender: self.gender@,
            level: self.level as int,
            exp: self.exp as int,
            hp: self.hp as int,
            max_hp: self.max_hp as int,
            soul_power: self.soul_power as int,
            max_soul_power: self.max_soul_power as int,
            strength: self.strength as int,
            agility: self.agility as int,
            spirit: self.spirit as int,
            endurance: self.endurance as int,
            perception: self.perception as int,
            luck: self.luck as int,
            life_count: self.life_count as int,
            state: self.state@,
        }
    }
}

/// The players of a page, with the batch that they belong to.
#[derive(Clone, Debug, PartialEq, Eq)]
pub struct PlayerStageCandidatePage {
    pub protocol: String,
    pub account_id: String,
    pub namespace: String,
    pub staged_at: i64,
    pub total_players: i64,
    pub ready_players: i64,
    pub rejected_players: i64,
    pub entries: Vec<PlayerStageCandidate>,
    pub next_after_source_player_id: Option<i64>,
}

/// The batch of a file of players, checked.
#[derive(Clone, Debug, PartialEq, Eq)]
pub struct StageBatch {
    pub source_sha256: String,
    pub protocol: String,
    pub account_id: String,
    pub namespace: String,
    pub staged_at: i64,
    pub total_players: i64,
    pub ready_players: i64,
    pub rejected_players: i64,
}

/// Whether a text is a digest in small hexadecimal digits.
pub fn is_lower_hex_digest(value: &str) -> (answer: bool)
    ensures
        answer == media::is_digest(value@),
{
    let characters = chars_of(value);
    if characters.len() != 64 {
        return false;
    }
    let mut i: usize = 0;
    while i < characters.len()
        invariant
            i <= characters@.len(),
            characters@ == value@,
            forall|j: int| 0 <= j < i ==> text::is_hex_char(#[trigger] value@[j]),
        decreases characters@.len() - i,
    {
        let c = characters[i];
        if !(('0' <= c && c <= '9') || ('a' <= c && c <= 'f')) {
            assert(!text::is_hex_char(value@[i as int]));
            return false;
        }
        i = i + 1;
    }
    true
}

/// A text that is neither empty nor too long, holds no control character and, where that
/// is asked for, has no white space around it.
pub open spec fn is_fit(value: Seq<char>, max_chars: nat, require_trimmed: bool) -> bool {
    player_staging::is_text(value, max_chars) && (!require_trimmed || value == text::trimmed(value))
}

fn valid_text(value: &str, max_chars: usize, require_trimmed: bool) -> (answer: bool)
    ensures
        answer == is_fit(value@, max_chars as nat, require_trimmed),
{
    player_staging::valid_text(value, max_chars) && (!require_trimmed || is_trimmed(value))
}

/// Why an account or a namespace is not taken.
pub open spec fn scope_error(account_id: Seq<char>, namespace: Seq<char>) -> Option<Seq<char>> {
    if !is_fit(account_id, 128, true) {
        Some("玩家 staging 机器人 account_id 无效"@)
    } else if !config::is_namespace(namespace) {
        Some("玩家 staging namespace 无效"@)
    } else {
        None
    }
}

fn validate_account_id(value: &str) -> (result: Result<(), String>)
    ensures
        config::failure(result) == (if is_fit(value@, 128, true) {
            None
        } else {
            Some("玩家 staging 机器人 account_id 无效"@)
        }),
{
    if !valid_text(value, 128, true) {
        return Err("玩家 staging 机器人 account_id 无效".to_owned());
    }
    Ok(())
}

fn validate_namespace(value: &str) -> (result: Result<(), String>)
    ensures
        config::failure(result) == (if config::is_namespace(value@) {
            None
        } else {
            Some("玩家 staging namespace 无效"@)
        }),
{
    if !valid_namespace(value) {
        return Err("玩家 staging namespace 无效".to_owned());
    }
    Ok(())
}

/// The first rule that a player breaks that is about to be confirmed, as a message.
pub open spec fn candidate_fault(candidate: Candidate) -> Option<Seq<char>> {
    if !media::is_digest(candidate.source_sha256) {
        Some("玩家 staging 来源摘要无效"@)
    } else if candidate.protocol != "onebot11"@ {
        Some("玩家 staging 协议无效"@)
    } else if scope_error(candidate.account_id, candidate.namespace) is Some {
        scope_error(candidate.account_id, candidate.namespace)
    } else if candidate.source_player_id <= 0 {
        Some("玩家 staging 源角色 ID 无效"@)
    } else if !is_fit(candidate.subject_id, 256, false) {
        Some("玩家 staging 身份 ID 无效"@)
    } else if !is_fit(candidate.name, 128, true) {
        Some("玩家 staging 角色名称无效"@)
    } else if candidate.gender != "男"@ && candidate.gender != "女"@ {
        Some("玩家 staging 性别无效"@)
    } else if !(1 <= candidate.level <= 120) || candidate.exp < 0 {
        Some("玩家 staging 等级或经验无效"@)
    } else if candidate.hp < 0 || candidate.max_hp <= 0 || candidate.hp > candidate.max_hp {
        Some("玩家 staging 生命值无效"@)
    } else if candidate.soul_power < 0 || candidate.max_soul_power <= 0 || candidate.soul_power
        > candidate.max_soul_power {
        Some("玩家 staging 魂力无效"@)
    } else if candidate.strength < 0 || candidate.agility < 0 || candidate.spirit < 0
        || candidate.endurance < 0 || candidate.perception < 0 || candidate.luck < 0 {
        Some("玩家 staging 基础属性无效"@)
    } else if !(1 <= candidate.life_count <= 3) {
        Some("玩家 staging 转生次数无效"@)
    } else if candidate.state != "alive"@ {
        Some("玩家 staging 状态不可确认"@)
    } else {
        None
    }
}

/// Checks a player that is about to be confirmed.
pub fn validate_player_stage_candidate(candidate: &PlayerStageCandidate) -> (result: Result<
    (),
    String,
>)
    ensures
        config::failure(result) == candidate_fault(candidate@),
{
    if !is_lower_hex_digest(candidate.source_sha256.as_str()) {
        return Err("玩家 staging 来源摘要无效".to_owned());
    }
    if !same(candidate.protocol.as_str(), "onebot11") {
        return Err("玩家 staging 协议无效".to_owned());
    }
    if let Err(message) = validate_account_id(candidate.account_id.as_str()) {
        return Err(message);
    }
    if let Err(message) = validate_namespace(candidate.namespace.as_str()) {
        return Err(message);
    }
    if candidate.source_player_id <= 0 {
        return Err("玩家 staging 源角色 ID 无效".to_owned());
    }
    if !valid_text(candidate.subject_id.as_str(), 256, false) {
        return Err("玩家 staging 身份 ID 无效".to_owned());
    }
    if !valid_text(candidate.name.as_str(), 128, true) {
        return Err("玩家 staging 角色名称无效".to_owned());
    }
    if !same(candidate.gender.as_str(), "男") && !same(candidate.gender.as_str(), "女") {
        return Err("玩家 staging 性别无效".to_owned());
    }
    if candidate.level < 1 || candidate.level > 120 || candidate.exp < 0 {
        return Err("玩家 staging 等级或经验无效".to_owned());
    }
    if candidate.hp < 0 || candidate.max_hp <= 0 || candidate.hp > candidate.max_hp {
        return Err("玩家 staging 生命值无效".to_owned());
    }
    if candidate.soul_power < 0 || candidate.max_soul_power <= 0 || candidate.soul_power
        > candidate.max_soul_power {
        return Err("玩家 staging 魂力无效".to_owned());
    }
    if candidate.strength < 0 || candidate.agility < 0 || candidate.spirit < 0
        || candidate.endurance < 0 || candidate.perception < 0 || candidate.luck < 0 {
        return Err("玩家 staging 基础属性无效".to_owned());
    }
    if candidate.life_count < 1 || candidate.life_count > 3 {
        return Err("玩家 staging 转生次数无效".to_owned());
    }
    if !same(candidate.state.as_str(), "alive") {
        return Err("玩家 staging 状态不可确认".to_owned());
    }
    Ok(())
}

/// A path below the data directory that leads to a file of players.
pub open spec fn is_stage_path(stage_file: Seq<char>) -> bool {
    config::is_safe_path(stage_file) && player_staging::has_database_extension(stage_file)
}

/// Whether a path may lead to a file of players.
pub fn valid_stage_file_path(stage_file: &str) -> (answer: bool)
    ensures
        answer == is_stage_path(stage_file@),
{
    is_safe_data_relative_path(stage_file) && database_extension(stage_file)
}

/// The columns of the table `stage_batch`.
pub open spec fn stage_batch_columns() -> Seq<(Seq<char>, Seq<char>)> {
    seq![
        ("id"@, "INTEGER"@),
        ("schema_version"@, "INTEGER"@),
        ("source_format"@, "TEXT"@),
        ("source_sha256"@, "TEXT"@),
        ("protocol"@, "TEXT"@),
        ("account_id"@, "TEXT"@),
        ("namespace"@, "TEXT"@),
        ("staged_at"@, "INTEGER"@),
        ("total_players"@, "INTEGER"@),
        ("ready_players"@, "INTEGER"@),
        ("rejected_players"@, "INTEGER"@),
    ]
}

/// The columns of the table `stage_player`.
pub open spec fn stage_player_columns() -> Seq<(Seq<char>, Seq<char>)> {
    seq![
        ("id"@, "INTEGER"@),
        ("source_player_id"@, "INTEGER"@),
        ("subject_id"@, "TEXT"@),
        ("name"@, "TEXT"@),
        ("gender"@, "TEXT"@),
        ("level"@, "INTEGER"@),
        ("exp"@, "INTEGER"@),
        ("hp"@, "INTEGER"@),
        ("max_hp"@, "INTEGER"@),
        ("soul_power"@, "INTEGER"@),
        ("max_soul_power"@, "INTEGER"@),
        ("strength"@, "INTEGER"@),
        ("agility"@, "INTEGER"@),
        ("spirit"@, "INTEGER"@),
        ("endurance"@, "INTEGER"@),
        ("perception"@, "INTEGER"@),
        ("luck"@, "INTEGER"@),
        ("life_count"@, "INTEGER"@),
        ("state"@, "TEXT"@),
        ("validation_state"@, "TEXT"@),
        ("issue_count"@, "INTEGER"@),
    ]
}

/// The columns of the table `stage_issue`.
pub open spec fn stage_issue_columns() -> Seq<(Seq<char>, Seq<char>)> {
    seq![
        ("id"@, "INTEGER"@),
        ("stage_player_id"@, "INTEGER"@),
        ("field"@, "TEXT"@),
        ("code"@, "TEXT"@),
    ]
}

/// A table of a file of players: the names and types of its columns, and how it was
/// declared.
#[derive(Clone, Debug, PartialEq, Eq)]
pub struct StageTable {
    pub columns: Vec<(String, String)>,
    pub sql: Option<String>,
}

/// The tables of a file of players.
#[derive(Clone, Debug, PartialEq, Eq)]
pub struct StageTables {
    pub batch: StageTable,
    pub player: StageTable,
    pub issue: StageTable,
}

/// The names and types of columns.
pub open spec fn column_views(columns: Seq<(String, String)>) -> Seq<(Seq<char>, Seq<char>)> {
    Seq::new(columns.len(), |i: int| (columns[i].0@, columns[i].1@))
}

/// Whether a text holds another.
pub open spec fn holds_text(whole: Seq<char>, part: Seq<char>) -> bool {
    exists|i: int|
        0 <= i <= whole.len() - part.len() && #[trigger] whole.subrange(i, i + part.len()) == part
}

/// Whether a declaration is that of a strict table.
pub open spec fn is_strict(sql: Seq<char>) -> bool {
    holds_text(text::lowered(sql), ") strict"@)
}

/// Why a table is not one of a file of players.
pub open spec fn table_error(
    table: Seq<char>,
    found: StageTable,
    expected: Seq<(Seq<char>, Seq<char>)>,
) -> Option<Seq<char>> {
    if column_views(found.columns@) != expected {
        Some("玩家 staging 表 "@ + table + " 结构不匹配"@)
    } else {
        match found.sql {
            None => Some("玩家 staging 缺少表 "@ + table),
            Some(sql) => if is_strict(sql@) {
                None
            } else {
                Some("玩家 staging 表 "@ + table + " 不是严格表"@)
            },
        }
    }
}

/// Why the tables are not those of a file of players.
pub open spec fn schema_error(tables: StageTables) -> Option<Seq<char>> {
    if table_error("stage_batch"@, tables.batch, stage_batch_columns()) is Some {
        table_error("stage_batch"@, tables.batch, stage_batch_columns())
    } else if table_error("stage_player"@, tables.player, stage_player_columns()) is Some {
        table_error("stage_player"@, tables.player, stage_player_columns())
    } else {
        table_error("stage_issue"@, tables.issue, stage_issue_columns())
    }
}

fn contains_text(whole: &str, part: &str) -> (answer: bool)
    ensures
        answer == holds_text(whole@, part@),
{
    let length = whole.unicode_len();
    let wanted = part.unicode_len();
    if wanted > length {
        return false;
    }
    let mut i: usize = 0;
    while i <= length - wanted
        invariant
            length == whole@.len(),
            wanted == part@.len(),
            wanted <= length,
            i <= length - wanted + 1,
            forall|j: int|
                0 <= j < i ==> #[trigger] whole@.subrange(j, j + part@.len()) != part@,
        decreases length - wanted + 1 - i,
    {
        if same(whole.substring_char(i, i + wanted), part) {
            assert(whole@.subrange(i as int, i + part@.len()) == part@);
            return true;
        }
        if i == length - wanted {
            return false;
        }
        i = i + 1;
    }
    false
}

fn same_columns(found: &Vec<(String, String)>, expected: &Vec<(&'static str, &'static str)>) -> (answer:
    bool)
    ensures
        answer == (column_views(found@) == Seq::new(
            expected@.len(),
            |i: int| (expected@[i].0@, expected@[i].1@),
        )),
{
    let ghost left = column_views(found@);
    let ghost right = Seq::new(expected@.len(), |i: int| (expected@[i].0@, expected@[i].1@));
    if found.len() != expected.len() {
        assert(left.len() != right.len());
        return false;
    }
    let mut i: usize = 0;
    while i < found.len()
        invariant
            i <= found@.len(),
            found@.len() == expected@.len(),
            left == column_views(found@),
            right == Seq::new(expected@.len(), |i: int| (expected@[i].0@, expected@[i].1@)),
            forall|j: int| 0 <= j < i ==> #[trigger] left[j] == right[j],
        decreases found@.len() - i,
    {
        if !same(found[i].0.as_str(), expected[i].0) || !same(found[i].1.as_str(), expected[i].1) {
            assert(left[i as int] != right[i as int]);
            return false;
        }
        assert(left[i as int] == right[i as int]);
        i = i + 1;
    }
    assert(left =~= right);
    true
}

fn verify_stage_table_columns(
    table: &str,
    found: &StageTable,
    expected: &Vec<(&'static str, &'static str)>,
) -> (result: Result<(), String>)
    ensures
        config::failure(result) == table_error(
            table@,
            *found,
            Seq::new(expected@.len(), |i: int| (expected@[i].0@, expected@[i].1@)),
        ),
{
    if !same_columns(&found.columns, expected) {
        return Err(cat3("玩家 staging 表 ", table, " 结构不匹配"));
    }
    match &found.sql {
        None => Err(cat2("玩家 staging 缺少表 ", table)),
        Some(sql) => {
            if !contains_text(to_lower(sql.as_str()).as_str(), ") strict") {
                return Err(cat3("玩家 staging 表 ", table, " 不是严格表"));
            }
            Ok(())
        },
    }
}

/// Checks the tables of a file of players.
pub fn verify_stage_schema(tables: &StageTables) -> (result: Result<(), String>)
    ensures
        config::failure(result) == schema_error(*tables),
{
    let batch: Vec<(&'static str, &'static str)> = vec![
            ("id", "INTEGER"),
            ("schema_version", "INTEGER"),
            ("source_format", "TEXT"),
            ("source_sha256", "TEXT"),
            ("protocol", "TEXT"),
            ("account_id", "TEXT"),
            ("namespace", "TEXT"),
            ("staged_at", "INTEGER"),
            ("total_players", "INTEGER"),
            ("ready_players", "INTEGER"),
            ("rejected_players", "INTEGER"),
        ];
    assert(Seq::new(batch@.len(), |i: int| (batch@[i].0@, batch@[i].1@)) =~= stage_batch_columns());
    if let Err(message) = verify_stage_table_columns("stage_batch", &tables.batch, &batch) {
        return Err(message);
    }
    let player: Vec<(&'static str, &'static str)> = vec![
            ("id", "INTEGER"),
            ("source_player_id", "INTEGER"),
            ("subject_id", "TEXT"),
            ("name", "TEXT"),
            ("gender", "TEXT"),
            ("level", "INTEGER"),
            ("exp", "INTEGER"),
            ("hp", "INTEGER"),
            ("max_hp", "INTEGER"),
            ("soul_power", "INTEGER"),
            ("max_soul_power", "INTEGER"),
            ("strength", "INTEGER"),
            ("agility", "INTEGER"),
            ("spirit", "INTEGER"),
            ("endurance", "INTEGER"),
            ("perception", "INTEGER"),
            ("luck", "INTEGER"),
            ("life_count", "INTEGER"),
            ("state", "TEXT"),
            ("validation_state", "TEXT"),
            ("issue_count", "INTEGER"),
        ];
    assert(Seq::new(player@.len(), |i: int| (player@[i].0@, player@[i].1@))
        =~= stage_player_columns());
    if let Err(message) = verify_stage_table_columns("stage_player", &tables.player, &player) {
        return Err(message);
    }
    let issue: Vec<(&'static str, &'static str)> = vec![
            ("id", "INTEGER"),
            ("stage_player_id", "INTEGER"),
            ("field", "TEXT"),
            ("code", "TEXT"),
        ];
    assert(Seq::new(issue@.len(), |i: int| (issue@[i].0@, issue@[i].1@)) =~= stage_issue_columns());
    verify_stage_table_columns("stage_issue", &tables.issue, &issue)
}

/// Why the batches are not those of a file of players.
pub open spec fn batch_error(batches: Seq<StageBatchRow>) -> Option<Seq<char>> {
    if batches.len() != 1 {
        Some("玩家 staging 必须恰好包含一个批次"@)
    } else if batches[0].id != 1 {
        Some("玩家 staging 缺少主批次"@)
    } else {
        let batch = batches[0];
        if batch.schema_version != STAGING_SCHEMA_VERSION || batch.source_format@
            != SOURCE_FORMAT@ {
            Some("玩家 staging 版本或来源格式不受支持"@)
        } else if !media::is_digest(batch.source_sha256@) || batch.protocol@ != "onebot11"@ {
            Some("玩家 staging 批次元数据无效"@)
        } else if scope_error(batch.account_id@, batch.namespace@) is Some {
            scope_error(batch.account_id@, batch.namespace@)
        } else if batch.staged_at < 0 || batch.total_players < 0 || batch.ready_players < 0
            || batch.rejected_players < 0 || batch.total_players != batch.ready_players
            + batch.rejected_players {
            Some("玩家 staging 批次统计无效"@)
        } else {
            None
        }
    }
}

/// Whether a checked batch is that of a row.
pub open spec fn is_batch(batch: StageBatch, row: StageBatchRow) -> bool {
    &&& batch.source_sha256@ == row.source_sha256@
    &&& batch.protocol@ == row.protocol@
    &&& batch.account_id@ == row.account_id@
    &&& batch.namespace@ == row.namespace@
    &&& batch.staged_at == row.staged_at
    &&& batch.total_players == row.total_players
    &&& batch.ready_players == row.ready_players
    &&& batch.rejected_players == row.rejected_players
}

/// Reads the one batch of a file of players.
pub fn load_stage_batch(batches: &Vec<StageBatchRow>) -> (result: Result<StageBatch, String>)
    ensures
        config::failure(result) == batch_error(batches@),
        result matches Ok(batch) ==> is_batch(batch, batches@[0]),
{
    if batches.len() != 1 {
        return Err("玩家 staging 必须恰好包含一个批次".to_owned());
    }
    let row = &batches[0];
    if row.id != 1 {
        return Err("玩家 staging 缺少主批次".to_owned());
    }
    if row.schema_version != STAGING_SCHEMA_VERSION || !same(
        row.source_format.as_str(),
        SOURCE_FORMAT,
    ) {
        return Err("玩家 staging 版本或来源格式不受支持".to_owned());
    }
    if !is_lower_hex_digest(row.source_sha256.as_str()) || !same(
        row.protocol.as_str(),
        "onebot11",
    ) {
        return Err("玩家 staging 批次元数据无效".to_owned());
    }
    if let Err(message) = validate_account_id(row.account_id.as_str()) {
        return Err(message);
    }
    if let Err(message) = validate_namespace(row.namespace.as_str()) {
        return Err(message);
    }
    if row.staged_at < 0 || row.total_players < 0 || row.ready_players < 0 || row.rejected_players
        < 0 || row.total_players as i128 != row.ready_players as i128
        + row.rejected_players as i128 {
        return Err("玩家 staging 批次统计无效".to_owned());
    }
    Ok(
        StageBatch {
            source_sha256: row.source_sha256.as_str().to_owned(),
            protocol: row.protocol.as_str().to_owned(),
            account_id: row.account_id.as_str().to_owned(),
            namespace: row.namespace.as_str().to_owned(),
            staged_at: row.staged_at,
            total_players: row.total_players,
            ready_players: row.ready_players,
            rejected_players: row.rejected_players,
        },
    )
}

/// How many things are noted as wrong with the player under a number.
pub open spec fn noted(issues: Seq<StageIssueRow>, id: int) -> nat
    decreases issues.len(),
{
    if issues.len() == 0 {
        0
    } else {
        noted(issues.drop_last(), id) + if issues.last().stage_player_id == id {
            1nat
        } else {
            0nat
        }
    }
}

fn count_noted(issues: &Vec<StageIssueRow>, id: i64) -> (count: usize)
    ensures
        count == noted(issues@, id as int),
{
    let mut count: usize = 0;
    let mut i: usize = 0;
    let ghost all = issues@;
    assert(all.take(0) =~= Seq::empty());
    while i < issues.len()
        invariant
            i <= issues@.len(),
            all == issues@,
            count <= i,
            count == noted(all.take(i as int), id as int),
        decreases issues@.len() - i,
    {
        let ghost next = all.take(i + 1);
        assert(next.drop_last() =~= all.take(i as int));
        if issues[i].stage_player_id == id {
            count = count + 1;
        }
        i = i + 1;
    }
    assert(all.take(i as int) =~= all);
    count
}

/// How many players are in a state of checking.
pub open spec fn in_state(players: Seq<StagePlayerRow>, state: Seq<char>) -> nat
    decreases players.len(),
{
    if players.len() == 0 {
        0
    } else {
        in_state(players.drop_last(), state) + if players.last().validation_state@ == state {
            1nat
        } else {
            0nat
        }
    }
}

fn count_in_state(players: &Vec<StagePlayerRow>, state: &str) -> (count: usize)
    ensures
        count == in_state(players@, state@),
        count <= players@.len(),
{
    let mut count: usize = 0;
    let mut i: usize = 0;
    let ghost all = players@;
    assert(all.take(0) =~= Seq::empty());
    while i < players.len()
        invariant
            i <= players@.len(),
            all == players@,
            count <= i,
            count == in_state(all.take(i as int), state@),
        decreases players@.len() - i,
    {
        let ghost next = all.take(i + 1);
        assert(next.drop_last() =~= all.take(i as int));
        if same(players[i].validation_state.as_str(), state) {
            count = count + 1;
        }
        i = i + 1;
    }
    assert(all.take(i as int) =~= all);
    count
}

/// Whether the state of a player agrees with what is noted as wrong with it.
pub open spec fn is_consistent(player: StagePlayerRow, issues: Seq<StageIssueRow>) -> bool {
    &&& player.validation_state@ == "ready"@ || player.validation_state@ == "rejected"@
    &&& player.validation_state@ == "ready"@ ==> player.issue_count == 0
    &&& player.validation_state@ == "rejected"@ ==> player.issue_count > 0
    &&& player.issue_count == noted(issues, player.id as int)
}

/// Whether the players of a file agree with what is noted as wrong with them and with
/// the numbers of their batch.
pub open spec fn agrees(
    players: Seq<StagePlayerRow>,
    issues: Seq<StageIssueRow>,
    batch: StageBatch,
) -> bool {
    &&& forall|i: int| 0 <= i < players.len() ==> is_consistent(#[trigger] players[i], issues)
    &&& players.len() == batch.total_players
    &&& in_state(players, "ready"@) == batch.ready_players
    &&& in_state(players, "rejected"@) == batch.rejected_players
}

fn check_consistent(player: &StagePlayerRow, issues: &Vec<StageIssueRow>) -> (answer: bool)
    ensures
        answer == is_consistent(*player, issues@),
{
    proof {
        reveal_strlit("ready");
        reveal_strlit("rejected");
        assert("ready"@.len() != "rejected"@.len());
    }
    let ready = same(player.validation_state.as_str(), "ready");
    let rejected = same(player.validation_state.as_str(), "rejected");
    if !ready && !rejected {
        return false;
    }
    if ready && player.issue_count != 0 {
        return false;
    }
    if rejected && player.issue_count <= 0 {
        return false;
    }
    player.issue_count as i128 == count_noted(issues, player.id) as i128
}

/// Checks that the players of a file agree with its batch.
pub fn verify_stage_batch_integrity(
    players: &Vec<StagePlayerRow>,
    issues: &Vec<StageIssueRow>,
    batch: &StageBatch,
) -> (result: Result<(), String>)
    ensures
        config::failure(result) == (if agrees(players@, issues@, *batch) {
            None
        } else {
            Some("玩家 staging 记录与批次摘要不一致"@)
        }),
{
    let mut i: usize = 0;
    while i < players.len()
        invariant
            i <= players@.len(),
            forall|j: int| 0 <= j < i ==> is_consistent(#[trigger] players@[j], issues@),
        decreases players@.len() - i,
    {
        if !check_consistent(&players[i], issues) {
            return Err("玩家 staging 记录与批次摘要不一致".to_owned());
        }
        i = i + 1;
    }
    if players.len() as i128 != batch.total_players as i128 || count_in_state(
        players,
        "ready",
    ) as i128 != batch.ready_players as i128 || count_in_state(players, "rejected") as i128
        != batch.rejected_players as i128 {
        return Err("玩家 staging 记录与批次摘要不一致".to_owned());
    }
    Ok(())
}

/// The first field that a player lacks that is about to be confirmed.
pub open spec fn missing_field(row: StagePlayerRow) -> Option<Seq<char>> {
    if row.subject_id is None {
        Some("身份 ID"@)
    } else if row.name is None {
        Some("角色名称"@)
    } else if row.gender is None {
        Some("性别"@)
    } else if row.level is None {
        Some("等级"@)
    } else if row.exp is None {
        Some("经验"@)
    } else if row.hp is None {
        Some("生命"@)
    } else if row.max_hp is None {
        Some("生命上限"@)
    } else if row.soul_power is None {
        Some("魂力"@)
    } else if row.max_soul_power is None {
        Some("魂力上限"@)
    } else if row.strength is None {
        Some("力量"@)
    } else if row.agility is None {
        Some("敏捷"@)
    } else if row.spirit is None {
        Some("精神"@)
    } else if row.endurance is None {
        Some("耐力"@)
    } else if row.perception is None {
        Some("感知"@)
    } else if row.luck is None {
        Some("幸运"@)
    } else if row.life_count is None {
        Some("转生次数"@)
    } else if row.state is None {
        Some("状态"@)
    } else {
        None
    }
}

/// The player that a row and its batch make.
pub open spec fn candidate_of(batch: StageBatch, row: StagePlayerRow) -> Candidate {
    Candidate {
        source_sha256: batch.source_sha256@,
        protocol: batch.protocol@,
        account_id: batch.account_id@,
        namespace: batch.namespace@,
        source_player_id: row.source_player_id as int,
        subject_id: row.subject_id->0@,
        name: row.name->0@,
        gender: row.gender->0@,
        level: row.level->0 as int,
        exp: row.exp->0 as int,
        hp: row.hp->0 as int,
        max_hp: row.max_hp->0 as int,
        soul_power: row.soul_power->0 as int,
        max_soul_power: row.max_soul_power->0 as int,
        strength: row.strength->0 as int,
        agility: row.agility->0 as int,
        spirit: row.spirit->0 as int,
        endurance: row.endurance->0 as int,
        perception: row.perception->0 as int,
        luck: row.luck->0 as int,
        life_count: row.life_count->0 as int,
        state: row.state->0@,
    }
}

/// Why a player cannot be confirmed.
pub open spec fn row_error(
    issues: Seq<StageIssueRow>,
    batch: StageBatch,
    row: StagePlayerRow,
) -> Option<Seq<char>> {
    if row.validation_state@ != "ready"@ || row.issue_count != 0 {
        Some("玩家 staging 候选尚不可确认"@)
    } else if noted(issues, row.id as int) != 0 {
        Some("玩家 staging 候选仍包含校验问题"@)
    } else {
        match missing_field(row) {
            Some(field) => Some("玩家 staging 候选缺少"@ + field),
            None => candidate_fault(candidate_of(batch, row)),
        }
    }
}

fn required_text(value: &Option<String>, field: &str) -> (result: Result<String, String>)
    ensures
        match result {
            Ok(text) => value matches Some(value) && value@ == text@,
            Err(message) => value is None && message@ == "玩家 staging 候选缺少"@ + field@,
        },
{
    match value {
        Some(value) => Ok(value.as_str().to_owned()),
        None => Err(cat2("玩家 staging 候选缺少", field)),
    }
}

fn required_number(value: Option<i64>, field: &str) -> (result: Result<i64, String>)
    ensures
        match result {
            Ok(number) => value == Some(number),
            Err(message) => value is None && message@ == "玩家 staging 候选缺少"@ + field@,
        },
{
    match value {
        Some(number) => Ok(number),
        None => Err(cat2("玩家 staging 候选缺少", field)),
    }
}

/// Makes a player that can be confirmed out of a row of a file.
pub fn candidate_from_row(
    issues: &Vec<StageIssueRow>,
    batch: &StageBatch,
    row: &StagePlayerRow,
) -> (result: Result<PlayerStageCandidate, String>)
    ensures
        config::failure(result) == row_error(issues@, *batch, *row),
        result matches Ok(candidate) ==> candidate@ == candidate_of(*batch, *row),
{
    if !same(row.validation_state.as_str(), "ready") || row.issue_count != 0 {
        return Err("玩家 staging 候选尚不可确认".to_owned());
    }
    if count_noted(issues, row.id) != 0 {
        return Err("玩家 staging 候选仍包含校验问题".to_owned());
    }
    let subject_id = match required_text(&row.subject_id, "身份 ID") {
        Ok(value) => value,
        Err(message) => return Err(message),
    };
    let name = match required_text(&row.name, "角色名称") {
        Ok(value) => value,
        Err(message) => return Err(message),
    };
    let gender = match required_text(&row.gender, "性别") {
        Ok(value) => value,
        Err(message) => return Err(message),
    };
    let level: i64 = match required_number(row.level, "等级") {
        Ok(value) => value,
        Err(message) => return Err(message),
    };
    let exp: i64 = match required_number(row.exp, "经验") {
        Ok(value) => value,
        Err(message) => return Err(message),
    };
    let hp: i64 = match required_number(row.hp, "生命") {
        Ok(value) => value,
        Err(message) => return Err(message),
    };
    let max_hp: i64 = match required_number(row.max_hp, "生命上限") {
        Ok(value) => value,
        Err(message) => return Err(message),
    };
    let soul_power: i64 = match required_number(row.soul_power, "魂力") {
        Ok(value) => value,
        Err(message) => return Err(message),
    };
    let max_soul_power: i64 = match required_number(row.max_soul_power, "魂力上限") {
        Ok(value) => value,
        Err(message) => return Err(message),
    };
    let strength: i64 = match required_number(row.strength, "力量") {
        Ok(value) => value,
        Err(message) => return Err(message),
    };
    let agility: i64 = match required_number(row.agility, "敏捷") {
        Ok(value) => value,
        Err(message) => return Err(message),
    };
    let spirit: i64 = match required_number(row.spirit, "精神") {
        Ok(value) => value,
        Err(message) => return Err(message),
    };
    let endurance: i64 = match required_number(row.endurance, "耐力") {
        Ok(value) => value,
        Err(message) => return Err(message),
    };
    let perception: i64 = match required_number(row.perception, "感知") {
        Ok(value) => value,
        Err(message) => return Err(message),
    };
    let luck: i64 = match required_number(row.luck, "幸运") {
        Ok(value) => value,
        Err(message) => return Err(message),
    };
    let life_count: i64 = match required_number(row.life_count, "转生次数") {
        Ok(value) => value,
        Err(message) => return Err(message),
    };
    let state = match required_text(&row.state, "状态") {
        Ok(value) => value,
        Err(message) => return Err(message),
    };
    let candidate = PlayerStageCandidate {
        source_sha256: batch.source_sha256.as_str().to_owned(),
        protocol: batch.protocol.as_str().to_owned(),
        account_id: batch.account_id.as_str().to_owned(),
        namespace: batch.namespace.as_str().to_owned(),
        source_player_id: row.source_player_id,
        subject_id, name, gender, level, exp, hp, max_hp, soul_power, max_soul_power, strength, agility, spirit, endurance, perception, luck, life_count, state,
    };
    if let Err(message) = validate_player_stage_candidate(&candidate) {
        return Err(message);
    }
    Ok(candidate)
}

/// A file of players, as it was found and read.
#[derive(Clone, Debug, PartialEq, Eq)]
pub struct StageRead {
    pub root_is_directory: bool,
    pub file: FileFacts,
    pub inside_root: bool,
    pub tables: StageTables,
    pub stage: StageFile,
}

/// Why a file is not read, given its path and what is known of it before it is opened.
pub open spec fn stage_file_error(
    stage_file: Seq<char>,
    root_is_directory: bool,
    file: FileFacts,
    inside_root: bool,
) -> Option<Seq<char>> {
    if !is_stage_path(stage_file) {
        Some("玩家 staging 文件路径无效"@)
    } else if !root_is_directory {
        Some("玩家 staging 根目录无效"@)
    } else if file.symlink || !file.regular {
        Some("玩家 staging 文件必须是常规 SQLite 文件"@)
    } else if file.size > MAX_STAGING_BYTES {
        Some("玩家 staging 文件超过大小上限"@)
    } else if !inside_root {
        Some("玩家 staging 文件必须位于 data_dir 内"@)
    } else {
        None
    }
}

/// Checks a file of players before it is opened.
pub fn check_stage_file(
    stage_file: &str,
    root_is_directory: bool,
    file: FileFacts,
    inside_root: bool,
) -> (result: Result<(), String>)
    ensures
        config::failure(result) == stage_file_error(
            stage_file@,
            root_is_directory,
            file,
            inside_root,
        ),
{
    if !valid_stage_file_path(stage_file) {
        return Err("玩家 staging 文件路径无效".to_owned());
    }
    if !root_is_directory {
        return Err("玩家 staging 根目录无效".to_owned());
    }
    if file.symlink || !file.regular {
        return Err("玩家 staging 文件必须是常规 SQLite 文件".to_owned());
    }
    if file.size > MAX_STAGING_BYTES {
        return Err("玩家 staging 文件超过大小上限".to_owned());
    }
    if !inside_root {
        return Err("玩家 staging 文件必须位于 data_dir 内".to_owned());
    }
    Ok(())
}

/// The batch that a row holds, checked.
pub open spec fn read_batch(row: StageBatchRow) -> StageBatch {
    StageBatch {
        source_sha256: row.source_sha256,
        protocol: row.protocol,
        account_id: row.account_id,
        namespace: row.namespace,
        staged_at: row.staged_at,
        total_players: row.total_players,
        ready_players: row.ready_players,
        rejected_players: row.rejected_players,
    }
}

/// Why a file of players is not taken.
pub open spec fn stage_error(stage_file: Seq<char>, read: StageRead) -> Option<Seq<char>> {
    if stage_file_error(stage_file, read.root_is_directory, read.file, read.inside_root) is Some {
        stage_file_error(stage_file, read.root_is_directory, read.file, read.inside_root)
    } else if schema_error(read.tables) is Some {
        schema_error(read.tables)
    } else if batch_error(read.stage.batches@) is Some {
        batch_error(read.stage.batches@)
    } else if !agrees(
        read.stage.players@,
        read.stage.issues@,
        read_batch(read.stage.batches@[0]),
    ) {
        Some("玩家 staging 记录与批次摘要不一致"@)
    } else {
        None
    }
}

/// Checks a file of players as a whole.
pub fn open_verified_stage(stage_file: &str, read: &StageRead) -> (result: Result<
    StageBatch,
    String,
>)
    ensures
        config::failure(result) == stage_error(stage_file@, *read),
        result matches Ok(batch) ==> is_batch(batch, read.stage.batches@[0]),
{
    if let Err(message) = check_stage_file(
        stage_file,
        read.root_is_directory,
        read.file,
        read.inside_root,
    ) {
        return Err(message);
    }
    if let Err(message) = verify_stage_schema(&read.tables) {
        return Err(message);
    }
    let batch = match load_stage_batch(&read.stage.batches) {
        Ok(batch) => batch,
        Err(message) => return Err(message),
    };
    if let Err(message) = verify_stage_batch_integrity(
        &read.stage.players,
        &read.stage.issues,
        &batch,
    ) {
        return Err(message);
    }
    Ok(batch)
}

/// Whether a player may stand on a page: ready, alive and behind the one where the page
/// starts.
pub open spec fn is_listed(row: StagePlayerRow, after: Option<i64>) -> bool {
    &&& row.validation_state@ == "ready"@
    &&& text::optional_text(row.state) == Some("alive"@)
    &&& after matches Some(after) ==> row.source_player_id > after
}

/// A list in the order of the players' numbers with one more player, behind those that
/// do not come after it.
pub open spec fn inserted(list: Seq<StagePlayerRow>, row: StagePlayerRow) -> Seq<StagePlayerRow>
    decreases list.len(),
{
    if list.len() == 0 || list.last().source_player_id <= row.source_player_id {
        list.push(row)
    } else {
        inserted(list.drop_last(), row).push(list.last())
    }
}

/// The players that may stand on a page, in the order of their numbers.
pub open spec fn ordered(rows: Seq<StagePlayerRow>, after: Option<i64>) -> Seq<StagePlayerRow>
    decreases rows.len(),
{
    if rows.len() == 0 {
        Seq::empty()
    } else if is_listed(rows.last(), after) {
        inserted(ordered(rows.drop_last(), after), rows.last())
    } else {
        ordered(rows.drop_last(), after)
    }
}

/// The rows that a list refers to.
pub open spec fn rows_of(list: Seq<&StagePlayerRow>) -> Seq<StagePlayerRow> {
    Seq::new(list.len(), |i: int| *list[i])
}

proof fn lemma_inserted(list: Seq<StagePlayerRow>, row: StagePlayerRow, at: int)
    requires
        0 <= at <= list.len(),
        at > 0 ==> list[at - 1].source_player_id <= row.source_player_id,
        forall|j: int|
            at <= j < list.len() ==> (#[trigger] list[j]).source_player_id > row.source_player_id,
    ensures
        inserted(list, row) == list.insert(at, row),
    decreases list.len(),
{
    if at == list.len() {
        assert(list.insert(at, row) =~= list.push(row));
    } else {
        assert(list[list.len() - 1].source_player_id > row.source_player_id);
        lemma_inserted(list.drop_last(), row, at);
        assert(list.insert(at, row) =~= list.drop_last().insert(at, row).push(list.last()));
    }
}

fn insert_in_order<'a>(list: &mut Vec<&'a StagePlayerRow>, row: &'a StagePlayerRow)
    ensures
        rows_of(final(list)@) == inserted(rows_of(old(list)@), *row),
{
    let ghost before = rows_of(list@);
    let mut at: usize = list.len();
    while at > 0 && list[at - 1].source_player_id > row.source_player_id
        invariant
            at <= list@.len(),
            before == rows_of(list@),
            forall|j: int|
                at <= j < before.len() ==> (#[trigger] before[j]).source_player_id
                    > row.source_player_id,
        decreases at,
    {
        assert(before[at - 1] == *list@[at - 1]);
        at = at - 1;
    }
    proof {
        if at > 0 {
            assert(before[at - 1] == *list@[at - 1]);
        }
        lemma_inserted(before, *row, at as int);
    }
    list.insert(at, row);
    assert(rows_of(list@) =~= before.insert(at as int, *row));
}

fn listed(row: &StagePlayerRow, after: Option<i64>) -> (answer: bool)
    ensures
        answer == is_listed(*row, after),
{
    if !same(row.validation_state.as_str(), "ready") {
        return false;
    }
    let alive = match &row.state {
        Some(state) => same(state.as_str(), "alive"),
        None => false,
    };
    if !alive {
        return false;
    }
    match after {
        Some(after) => row.source_player_id > after,
        None => true,
    }
}

fn listed_rows<'a>(rows: &'a Vec<StagePlayerRow>, after: Option<i64>) -> (list: Vec<
    &'a StagePlayerRow,
>)
    ensures
        rows_of(list@) == ordered(rows@, after),
{
    let ghost all = rows@;
    let mut list: Vec<&'a StagePlayerRow> = Vec::new();
    let mut i: usize = 0;
    assert(all.take(0) =~= Seq::empty());
    assert(rows_of(list@) =~= Seq::empty());
    while i < rows.len()
        invariant
            i <= rows@.len(),
            all == rows@,
            rows_of(list@) == ordered(all.take(i as int), after),
        decreases rows@.len() - i,
    {
        let ghost next = all.take(i + 1);
        assert(next.drop_last() =~= all.take(i as int));
        let row: &'a StagePlayerRow = &rows[i];
        if listed(row, after) {
            insert_in_order(&mut list, row);
        }
        i = i + 1;
    }
    assert(all.take(i as int) =~= all);
    list
}

/// Why a page cannot be shown: the first of its players that cannot be confirmed.
pub open spec fn entries_error(
    issues: Seq<StageIssueRow>,
    batch: StageBatch,
    rows: Seq<StagePlayerRow>,
) -> Option<Seq<char>>
    decreases rows.len(),
{
    if rows.len() == 0 {
        None
    } else if entries_error(issues, batch, rows.drop_last()) is Some {
        entries_error(issues, batch, rows.drop_last())
    } else {
        row_error(issues, batch, rows.last())
    }
}

/// The views of players that can be confirmed.
pub open spec fn candidate_views(entries: Seq<PlayerStageCandidate>) -> Seq<Candidate> {
    Seq::new(entries.len(), |i: int| entries[i]@)
}

/// The players that rows make.
pub open spec fn candidates_of(batch: StageBatch, rows: Seq<StagePlayerRow>) -> Seq<Candidate> {
    Seq::new(rows.len(), |i: int| candidate_of(batch, rows[i]))
}

/// The rows of a page: so many of those that may stand on it.
pub open spec fn page_rows(
    rows: Seq<StagePlayerRow>,
    after: Option<i64>,
    limit: int,
) -> Seq<StagePlayerRow> {
    let all = ordered(rows, after);
    if all.len() <= limit {
        all
    } else {
        all.take(limit)
    }
}

/// Why there is no page.
pub open spec fn page_error(
    stage_file: Seq<char>,
    read: StageRead,
    after: Option<i64>,
    limit: int,
) -> Option<Seq<char>> {
    if (after matches Some(after) && after < 0) || !(1 <= limit <= MAX_STAGE_PAGE_SIZE) {
        Some("玩家 staging 分页参数无效"@)
    } else if stage_error(stage_file, read) is Some {
        stage_error(stage_file, read)
    } else {
        entries_error(
            read.stage.issues@,
            read_batch(read.stage.batches@[0]),
            page_rows(read.stage.players@, after, limit),
        )
    }
}

/// Whether a page is the one that a file of players gives.
pub open spec fn is_page(
    page: PlayerStageCandidatePage,
    read: StageRead,
    after: Option<i64>,
    limit: int,
) -> bool {
    let batch = read_batch(read.stage.batches@[0]);
    let all = ordered(read.stage.players@, after);
    &&& page.protocol@ == batch.protocol@
    &&& page.account_id@ == batch.account_id@
    &&& page.namespace@ == batch.namespace@
    &&& page.staged_at == batch.staged_at
    &&& page.total_players == batch.total_players
    &&& page.ready_players == batch.ready_players
    &&& page.rejected_players == batch.rejected_players
    &&& candidate_views(page.entries@) == candidates_of(
        batch,
        page_rows(read.stage.players@, after, limit),
    )
    &&& page.next_after_source_player_id == (if all.len() > limit {
        Some(all[limit].source_player_id)
    } else {
        None
    })
}

proof fn lemma_batch_is_read(
    batch: StageBatch,
    row: StageBatchRow,
    rows: Seq<StagePlayerRow>,
    issues: Seq<StageIssueRow>,
)
    requires
        is_batch(batch, row),
    ensures
        entries_error(issues, batch, rows) == entries_error(issues, read_batch(row), rows),
        candidates_of(batch, rows) == candidates_of(read_batch(row), rows),
    decreases rows.len(),
{
    if rows.len() > 0 {
        lemma_batch_is_read(batch, row, rows.drop_last(), issues);
        assert(candidate_of(batch, rows.last()) == candidate_of(read_batch(row), rows.last()));
    }
    assert forall|i: int| 0 <= i < rows.len() implies #[trigger] candidates_of(batch, rows)[i]
        == candidates_of(read_batch(row), rows)[i] by {
        assert(candidate_of(batch, rows[i]) == candidate_of(read_batch(row), rows[i]));
    }
    assert(candidates_of(batch, rows) =~= candidates_of(read_batch(row), rows));
}

fn read_entries(
    issues: &Vec<StageIssueRow>,
    batch: &StageBatch,
    rows: &Vec<&StagePlayerRow>,
    count: usize,
) -> (result: Result<Vec<PlayerStageCandidate>, String>)
    requires
        count <= rows@.len(),
    ensures
        config::failure(result) == entries_error(
            issues@,
            *batch,
            rows_of(rows@).take(count as int),
        ),
        result matches Ok(entries) ==> candidate_views(entries@) == candidates_of(
            *batch,
            rows_of(rows@).take(count as int),
        ),
{
    let ghost all = rows_of(rows@).take(count as int);
    let mut entries: Vec<PlayerStageCandidate> = Vec::new();
    let mut i: usize = 0;
    assert(all.take(0) =~= Seq::empty());
    while i < count
        invariant
            i <= count <= rows@.len(),
            all == rows_of(rows@).take(count as int),
            entries_error(issues@, *batch, all.take(i as int)) is None,
            candidate_views(entries@) =~= candidates_of(*batch, all.take(i as int)),
        decreases count - i,
    {
        let ghost next = all.take(i + 1);
        assert(next.drop_last() =~= all.take(i as int));
        assert(next.last() == *rows@[i as int]);
        match candidate_from_row(issues, batch, rows[i]) {
            Ok(candidate) => {
                let ghost before = candidate_views(entries@);
                entries.push(candidate);
                assert(candidate_views(entries@) =~= before.push(candidate@));
                assert(candidates_of(*batch, next) =~= candidates_of(
                    *batch,
                    all.take(i as int),
                ).push(candidate@));
            },
            Err(message) => {
                proof {
                    lemma_first_error(issues@, *batch, all, i + 1);
                }
                return Err(message);
            },
        }
        i = i + 1;
    }
    assert(all.take(i as int) =~= all);
    Ok(entries)
}

proof fn lemma_first_error(
    issues: Seq<StageIssueRow>,
    batch: StageBatch,
    rows: Seq<StagePlayerRow>,
    n: int,
)
    requires
        0 <= n <= rows.len(),
        entries_error(issues, batch, rows.take(n)) is Some,
    ensures
        entries_error(issues, batch, rows) == entries_error(issues, batch, rows.take(n)),
    decreases rows.len(),
{
    if n < rows.len() {
        assert(rows.drop_last().take(n) =~= rows.take(n));
        lemma_first_error(issues, batch, rows.drop_last(), n);
    } else {
        assert(rows.take(n) =~= rows);
    }
}

/// Reads a page of the players of a file that can be confirmed.
pub fn list_player_stage_candidates(
    stage_file: &str,
    read: &StageRead,
    after_source_player_id: Option<i64>,
    limit: usize,
) -> (result: Result<PlayerStageCandidatePage, String>)
    ensures
        config::failure(result) == page_error(
            stage_file@,
            *read,
            after_source_player_id,
            limit as int,
        ),
        result matches Ok(page) ==> is_page(page, *read, after_source_player_id, limit as int),
{
    let negative = match after_source_player_id {
        Some(after) => after < 0,
        None => false,
    };
    if negative || limit < 1 || limit > MAX_STAGE_PAGE_SIZE {
        return Err("玩家 staging 分页参数无效".to_owned());
    }
    let batch = match open_verified_stage(stage_file, read) {
        Ok(batch) => batch,
        Err(message) => return Err(message),
    };
    let rows = listed_rows(&read.stage.players, after_source_player_id);
    let count: usize = if rows.len() <= limit {
        rows.len()
    } else {
        limit
    };
    proof {
        let all = rows_of(rows@);
        assert(all.take(all.len() as int) =~= all);
        lemma_batch_is_read(
            batch,
            read.stage.batches@[0],
            all.take(count as int),
            read.stage.issues@,
        );
    }
    let entries = match read_entries(&read.stage.issues, &batch, &rows, count) {
        Ok(entries) => entries,
        Err(message) => return Err(message),
    };
    let next_after_source_player_id: Option<i64> = if rows.len() > limit {
        Some(rows[limit].source_player_id)
    } else {
        None
    };
    Ok(
        PlayerStageCandidatePage {
            protocol: batch.protocol,
            account_id: batch.account_id,
            namespace: batch.namespace,
            staged_at: batch.staged_at,
            total_players: batch.total_players,
            ready_players: batch.ready_players,
            rejected_players: batch.rejected_players,
            entries,
            next_after_source_player_id,
        },
    )
}

/// Where a player stands among some rows, by its number in the earlier database; their
/// number where it is none of them.
pub open spec fn row_position(rows: Seq<StagePlayerRow>, source_player_id: int) -> nat
    decreases rows.len(),
{
    if rows.len() == 0 {
        0
    } else if rows[0].source_player_id == source_player_id {
        0
    } else {
        row_position(rows.skip(1), source_player_id) + 1
    }
}

fn find_row(rows: &Vec<StagePlayerRow>, source_player_id: i64) -> (at: usize)
    ensures
        at == row_position(rows@, source_player_id as int),
        at <= rows@.len(),
{
    let ghost all = rows@;
    let mut at: usize = 0;
    assert(all.skip(0) =~= all);
    while at < rows.len()
        invariant
            at <= rows@.len(),
            all == rows@,
            row_position(all, source_player_id as int) == at + row_position(
                all.skip(at as int),
                source_player_id as int,
            ),
        decreases rows@.len() - at,
    {
        assert(all.skip(at as int)[0] == rows@[at as int]);
        assert(all.skip(at as int).skip(1) =~= all.skip(at + 1));
        if rows[at].source_player_id == source_player_id {
            return at;
        }
        at = at + 1;
    }
    at
}

/// Why a player is not confirmed.
pub open spec fn confirmation_error(
    stage_file: Seq<char>,
    read: StageRead,
    source_player_id: int,
) -> Option<Seq<char>> {
    let at = row_position(read.stage.players@, source_player_id) as int;
    if source_player_id <= 0 {
        Some("玩家 staging 源角色 ID 无效"@)
    } else if stage_error(stage_file, read) is Some {
        stage_error(stage_file, read)
    } else if at >= read.stage.players@.len() {
        Some("玩家 staging 候选不存在"@)
    } else {
        row_error(
            read.stage.issues@,
            read_batch(read.stage.batches@[0]),
            read.stage.players@[at],
        )
    }
}

/// Reads the one player of a file that is to be confirmed.
pub fn load_player_stage_candidate(
    stage_file: &str,
    read: &StageRead,
    source_player_id: i64,
) -> (result: Result<PlayerStageCandidate, String>)
    ensures
        config::failure(result) == confirmation_error(
            stage_file@,
            *read,
            source_player_id as int,
        ),
        result matches Ok(candidate) ==> candidate@ == candidate_of(
            read_batch(read.stage.batches@[0]),
            read.stage.players@[row_position(read.stage.players@, source_player_id as int) as int],
        ),
{
    if source_player_id <= 0 {
        return Err("玩家 staging 源角色 ID 无效".to_owned());
    }
    let batch = match open_verified_stage(stage_file, read) {
        Ok(batch) => batch,
        Err(message) => return Err(message),
    };
    let at = find_row(&read.stage.players, source_player_id);
    if at == read.stage.players.len() {
        return Err("玩家 staging 候选不存在".to_owned());
    }
    proof {
        let row = read.stage.players@[at as int];
        let row_batch = read.stage.batches@[0];
        assert(candidate_of(batch, row) == candidate_of(read_batch(row_batch), row));
    }
    candidate_from_row(&read.stage.issues, &batch, &read.stage.players[at])
}

} // verus!
