//! The words of refusals: something in order that is changed in one place is refused, if at
//! all, in the words for that place.
use crate::catalog;
use crate::catalog::Binding;
use crate::content_package;
use crate::player_stage_confirmation;
use crate::player_stage_confirmation::{Candidate, StageTable, StageTables};
use crate::player_staging;
use crate::player_staging::{FileFacts, PlayerStagingMetadata, StageBatchRow, StagePlayerRow};
use crate::public_seed;
use crate::text;
use vstd::prelude::*;

verus! {

/// Nothing is refused, or it is refused in these words.
pub open spec fn at_most(refusal: Option<Seq<char>>, words: Seq<char>) -> bool {
    refusal is None || refusal == Some(words)
}

/// A candidate in order that takes one field of another is refused, if at all, in the words
/// for that field.
pub proof fn each_field_of_a_candidate_has_its_refusal(candidate: Candidate, other: Candidate)
    requires
        player_stage_confirmation::candidate_fault(candidate) is None,
    ensures
        at_most(
            player_stage_confirmation::candidate_fault(
                Candidate { source_sha256: other.source_sha256, ..candidate },
            ),
            "玩家 staging 来源摘要无效"@,
        ),
        at_most(
            player_stage_confirmation::candidate_fault(
                Candidate { protocol: other.protocol, ..candidate },
            ),
            "玩家 staging 协议无效"@,
        ),
        at_most(
            player_stage_confirmation::candidate_fault(
                Candidate { account_id: other.account_id, ..candidate },
            ),
            "玩家 staging 机器人 account_id 无效"@,
        ),
        at_most(
            player_stage_confirmation::candidate_fault(
                Candidate { namespace: other.namespace, ..candidate },
            ),
            "玩家 staging namespace 无效"@,
        ),
        at_most(
            player_stage_confirmation::candidate_fault(
                Candidate { source_player_id: other.source_player_id, ..candidate },
            ),
            "玩家 staging 源角色 ID 无效"@,
        ),
        at_most(
            player_stage_confirmation::candidate_fault(
                Candidate { subject_id: other.subject_id, ..candidate },
            ),
            "玩家 staging 身份 ID 无效"@,
        ),
        at_most(
            player_stage_confirmation::candidate_fault(Candidate { name: other.name, ..candidate }),
            "玩家 staging 角色名称无效"@,
        ),
        at_most(
            player_stage_confirmation::candidate_fault(
                Candidate { gender: other.gender, ..candidate },
            ),
            "玩家 staging 性别无效"@,
        ),
        at_most(
            player_stage_confirmation::candidate_fault(
                Candidate { level: other.level, ..candidate },
            ),
            "玩家 staging 等级或经验无效"@,
        ),
        at_most(
            player_stage_confirmation::candidate_fault(Candidate { exp: other.exp, ..candidate }),
            "玩家 staging 等级或经验无效"@,
        ),
        at_most(
            player_stage_confirmation::candidate_fault(Candidate { hp: other.hp, ..candidate }),
            "玩家 staging 生命值无效"@,
        ),
        at_most(
            player_stage_confirmation::candidate_fault(
                Candidate { max_hp: other.max_hp, ..candidate },
            ),
            "玩家 staging 生命值无效"@,
        ),
        at_most(
            player_stage_confirmation::candidate_fault(
                Candidate { soul_power: other.soul_power, ..candidate },
            ),
            "玩家 staging 魂力无效"@,
        ),
        at_most(
            player_stage_confirmation::candidate_fault(
                Candidate { max_soul_power: other.max_soul_power, ..candidate },
            ),
            "玩家 staging 魂力无效"@,
        ),
        at_most(
            player_stage_confirmation::candidate_fault(
                Candidate { strength: other.strength, ..candidate },
            ),
            "玩家 staging 基础属性无效"@,
        ),
        at_most(
            player_stage_confirmation::candidate_fault(
                Candidate { agility: other.agility, ..candidate },
            ),
            "玩家 staging 基础属性无效"@,
        ),
        at_most(
            player_stage_confirmation::candidate_fault(
                Candidate { spirit: other.spirit, ..candidate },
            ),
            "玩家 staging 基础属性无效"@,
        ),
        at_most(
            player_stage_confirmation::candidate_fault(
                Candidate { endurance: other.endurance, ..candidate },
            ),
            "玩家 staging 基础属性无效"@,
        ),
        at_most(
            player_stage_confirmation::candidate_fault(
                Candidate { perception: other.perception, ..candidate },
            ),
            "玩家 staging 基础属性无效"@,
        ),
        at_most(
            player_stage_confirmation::candidate_fault(Candidate { luck: other.luck, ..candidate }),
            "玩家 staging 基础属性无效"@,
        ),
        at_most(
            player_stage_confirmation::candidate_fault(
                Candidate { life_count: other.life_count, ..candidate },
            ),
            "玩家 staging 转生次数无效"@,
        ),
        at_most(
            player_stage_confirmation::candidate_fault(
                Candidate { state: other.state, ..candidate },
            ),
            "玩家 staging 状态不可确认"@,
        ),
{
}

/// A row of a staged player lacks nothing when every field is there; without one of them it
/// lacks the field of that name.
pub proof fn what_a_staged_row_lacks_has_a_name(row: StagePlayerRow)
    ensures
        player_stage_confirmation::missing_field(row) is None <==> {
            &&& row.subject_id is Some
            &&& row.name is Some
            &&& row.gender is Some
            &&& row.level is Some
            &&& row.exp is Some
            &&& row.hp is Some
            &&& row.max_hp is Some
            &&& row.soul_power is Some
            &&& row.max_soul_power is Some
            &&& row.strength is Some
            &&& row.agility is Some
            &&& row.spirit is Some
            &&& row.endurance is Some
            &&& row.perception is Some
            &&& row.luck is Some
            &&& row.life_count is Some
            &&& row.state is Some
        },
        player_stage_confirmation::missing_field(row) is None
            ==> player_stage_confirmation::missing_field(
            StagePlayerRow { subject_id: None, ..row },
        ) == Some("身份 ID"@),
        player_stage_confirmation::missing_field(row) is None
            ==> player_stage_confirmation::missing_field(
            StagePlayerRow { name: None, ..row },
        ) == Some("角色名称"@),
        player_stage_confirmation::missing_field(row) is None
            ==> player_stage_confirmation::missing_field(
            StagePlayerRow { gender: None, ..row },
        ) == Some("性别"@),
        player_stage_confirmation::missing_field(row) is None
            ==> player_stage_confirmation::missing_field(
            StagePlayerRow { level: None, ..row },
        ) == Some("等级"@),
        player_stage_confirmation::missing_field(row) is None
            ==> player_stage_confirmation::missing_field(
            StagePlayerRow { exp: None, ..row },
        ) == Some("经验"@),
        player_stage_confirmation::missing_field(row) is None
            ==> player_stage_confirmation::missing_field(
            StagePlayerRow { hp: None, ..row },
        ) == Some("生命"@),
        player_stage_confirmation::missing_field(row) is None
            ==> player_stage_confirmation::missing_field(
            StagePlayerRow { max_hp: None, ..row },
        ) == Some("生命上限"@),
        player_stage_confirmation::missing_field(row) is None
            ==> player_stage_confirmation::missing_field(
            StagePlayerRow { soul_power: None, ..row },
        ) == Some("魂力"@),
        player_stage_confirmation::missing_field(row) is None
            ==> player_stage_confirmation::missing_field(
            StagePlayerRow { max_soul_power: None, ..row },
        ) == Some("魂力上限"@),
        player_stage_confirmation::missing_field(row) is None
            ==> player_stage_confirmation::missing_field(
            StagePlayerRow { strength: None, ..row },
        ) == Some("力量"@),
        player_stage_confirmation::missing_field(row) is None
            ==> player_stage_confirmation::missing_field(
            StagePlayerRow { agility: None, ..row },
        ) == Some("敏捷"@),
        player_stage_confirmation::missing_field(row) is None
            ==> player_stage_confirmation::missing_field(
            StagePlayerRow { spirit: None, ..row },
        ) == Some("精神"@),
        player_stage_confirmation::missing_field(row) is None
            ==> player_stage_confirmation::missing_field(
            StagePlayerRow { endurance: None, ..row },
        ) == Some("耐力"@),
        player_stage_confirmation::missing_field(row) is None
            ==> player_stage_confirmation::missing_field(
            StagePlayerRow { perception: None, ..row },
        ) == Some("感知"@),
        player_stage_confirmation::missing_field(row) is None
            ==> player_stage_confirmation::missing_field(
            StagePlayerRow { luck: None, ..row },
        ) == Some("幸运"@),
        player_stage_confirmation::missing_field(row) is None
            ==> player_stage_confirmation::missing_field(
            StagePlayerRow { life_count: None, ..row },
        ) == Some("转生次数"@),
        player_stage_confirmation::missing_field(row) is None
            ==> player_stage_confirmation::missing_field(
            StagePlayerRow { state: None, ..row },
        ) == Some("状态"@),
{
}

/// A batch in order that takes one field of another is refused, if at all, in the words for
/// that field; a file holds one batch.
pub proof fn each_fact_about_a_batch_has_its_refusal(
    batch: StageBatchRow,
    other: StageBatchRow,
    batches: Seq<StageBatchRow>,
)
    requires
        player_stage_confirmation::batch_error(seq![batch]) is None,
    ensures
        at_most(
            player_stage_confirmation::batch_error(
                seq![StageBatchRow { id: other.id, ..batch }],
            ),
            "玩家 staging 缺少主批次"@,
        ),
        at_most(
            player_stage_confirmation::batch_error(
                seq![StageBatchRow { schema_version: other.schema_version, ..batch }],
            ),
            "玩家 staging 版本或来源格式不受支持"@,
        ),
        at_most(
            player_stage_confirmation::batch_error(
                seq![StageBatchRow { source_format: other.source_format, ..batch }],
            ),
            "玩家 staging 版本或来源格式不受支持"@,
        ),
        at_most(
            player_stage_confirmation::batch_error(
                seq![StageBatchRow { source_sha256: other.source_sha256, ..batch }],
            ),
            "玩家 staging 批次元数据无效"@,
        ),
        at_most(
            player_stage_confirmation::batch_error(
                seq![StageBatchRow { protocol: other.protocol, ..batch }],
            ),
            "玩家 staging 批次元数据无效"@,
        ),
        at_most(
            player_stage_confirmation::batch_error(
                seq![StageBatchRow { account_id: other.account_id, ..batch }],
            ),
            "玩家 staging 机器人 account_id 无效"@,
        ),
        at_most(
            player_stage_confirmation::batch_error(
                seq![StageBatchRow { namespace: other.namespace, ..batch }],
            ),
            "玩家 staging namespace 无效"@,
        ),
        at_most(
            player_stage_confirmation::batch_error(
                seq![StageBatchRow { staged_at: other.staged_at, ..batch }],
            ),
            "玩家 staging 批次统计无效"@,
        ),
        at_most(
            player_stage_confirmation::batch_error(
                seq![StageBatchRow { total_players: other.total_players, ..batch }],
            ),
            "玩家 staging 批次统计无效"@,
        ),
        at_most(
            player_stage_confirmation::batch_error(
                seq![StageBatchRow { ready_players: other.ready_players, ..batch }],
            ),
            "玩家 staging 批次统计无效"@,
        ),
        at_most(
            player_stage_confirmation::batch_error(
                seq![StageBatchRow { rejected_players: other.rejected_players, ..batch }],
            ),
            "玩家 staging 批次统计无效"@,
        ),
        batches.len() != 1 ==> player_stage_confirmation::batch_error(batches) == Some(
            "玩家 staging 必须恰好包含一个批次"@,
        ),
{
}

/// Players are staged for one protocol, a named account and a namespace; each of them is
/// refused in its own words.
pub proof fn each_fact_about_staging_has_its_refusal(
    metadata: PlayerStagingMetadata,
    other: PlayerStagingMetadata,
)
    requires
        player_staging::metadata_error(metadata) is None,
    ensures
        at_most(
            player_staging::metadata_error(
                PlayerStagingMetadata { protocol: other.protocol, ..metadata },
            ),
            "v42.1 玩家 staging 只支持 protocol=onebot11"@,
        ),
        at_most(
            player_staging::metadata_error(
                PlayerStagingMetadata { account_id: other.account_id, ..metadata },
            ),
            "机器人 account_id 必须是 1 到 128 个无控制字符的非空字符串"@,
        ),
        at_most(
            player_staging::metadata_error(
                PlayerStagingMetadata { namespace: other.namespace, ..metadata },
            ),
            "身份 namespace 无效"@,
        ),
{
}

/// An entry of the catalogue in order that takes one field of another is refused, if at all,
/// in the words for that field; a thing that is shown already and a picture that is used
/// already are refused, and so are unknown kinds of things.
pub proof fn each_field_of_a_catalogue_entry_has_its_refusal(
    entry: Binding,
    other: Binding,
    earlier: Seq<Binding>,
    i: int,
)
    requires
        catalog::binding_error(entry, earlier) is None,
    ensures
        at_most(
            catalog::binding_error(
                Binding { alt: other.alt, ..entry },
                earlier,
            ),
            "内置插图 manifest 的 alt 无效"@,
        ),
        at_most(
            catalog::binding_error(
                Binding { distribution: other.distribution, ..entry },
                earlier,
            ),
            "公开插图 manifest 只能声明 not_bundled 资源"@,
        ),
        at_most(
            catalog::binding_error(
                Binding { display: other.display, ..entry },
                earlier,
            ),
            "内置插图 manifest 的 display 尺寸无效"@,
        ),
        at_most(
            catalog::binding_error(
                Binding { direct_url: other.direct_url, ..entry },
                earlier,
            ),
            "内置插图 manifest 的 direct_url 必须是公网 HTTPS"@,
        ),
        at_most(
            catalog::binding_error(
                Binding { media_role: other.media_role, ..entry },
                earlier,
            ),
            "内置插图 manifest 的 media_role 与 entity_type 不匹配"@,
        ),
        !catalog::is_caption(other.entity_key) ==> catalog::binding_error(
            Binding { entity_key: other.entity_key, ..entry },
            earlier,
        ) == Some("内置插图 manifest 的 entity_key 无效"@),
        0 <= i < earlier.len() && earlier[i].entity_type == entry.entity_type
            && earlier[i].media_role == entry.media_role && catalog::is_caption(
            earlier[i].entity_key,
        ) ==> catalog::binding_error(
            Binding { entity_key: earlier[i].entity_key, ..entry },
            earlier,
        ) == Some("内置插图 manifest 包含重复实体绑定"@),
        0 <= i < earlier.len() && crate::config::is_asset_key(earlier[i].asset_key)
            ==> catalog::binding_error(
            Binding { asset_key: earlier[i].asset_key, ..entry },
            earlier,
        ) == Some("内置插图 manifest 包含重复 asset_key"@),
        !crate::config::is_asset_key(other.asset_key) ==> catalog::binding_error(
            Binding { asset_key: other.asset_key, ..entry },
            earlier,
        ) == Some("内置插图 manifest 包含不安全 asset_key"@),
        catalog::role_of(other.entity_type) is None ==> catalog::binding_error(
            Binding { entity_type: other.entity_type, ..entry },
            earlier,
        ) == Some("内置插图 manifest 包含未知 entity_type"@),
{
}

/// Files are ordinary files of a bounded size below the data directory, and the first thing
/// that is not so is told; a size at the limit is still taken.
pub proof fn files_are_ordinary_and_bounded(
    stage_file: Seq<char>,
    file: FileFacts,
    inside: bool,
    root: bool,
)
    ensures
        player_staging::source_file_error(file) is None <==> !file.symlink && file.regular
            && file.size <= 67_108_864,
        file.symlink ==> player_staging::source_file_error(file) == Some(
            "玩家 staging 源文件不能是符号链接"@,
        ),
        !file.symlink && !file.regular ==> player_staging::source_file_error(file) == Some(
            "玩家 staging 源文件必须是常规 SQLite 文件"@,
        ),
        !file.symlink && file.regular && file.size > 67_108_864
            ==> player_staging::source_file_error(file) == Some(
            "玩家 staging 源文件不能超过 "@ + text::decimal(67_108_864) + " 字节"@,
        ),
        content_package::file_error(file, inside) is None <==> !file.symlink && file.regular
            && file.size <= 2_097_152 && inside,
        file.symlink ==> content_package::file_error(file, inside) == Some(
            "内容包文件不能是符号链接"@,
        ),
        !file.symlink && !file.regular ==> content_package::file_error(file, inside) == Some(
            "内容包必须是常规文件"@,
        ),
        !file.symlink && file.regular && file.size <= 2_097_152 && !inside
            ==> content_package::file_error(file, inside) == Some(
            "内容包文件必须位于 QimenBot data_dir 内"@,
        ),
        player_stage_confirmation::stage_file_error(stage_file, root, file, inside) is None <==> {
            &&& player_stage_confirmation::is_stage_path(stage_file)
            &&& root
            &&& !file.symlink
            &&& file.regular
            &&& file.size <= 67_108_864
            &&& inside
        },
        !player_stage_confirmation::is_stage_path(stage_file)
            ==> player_stage_confirmation::stage_file_error(stage_file, root, file, inside)
            == Some("玩家 staging 文件路径无效"@),
        player_stage_confirmation::stage_file_error(stage_file, root, file, inside) is None ==> {
            &&& player_stage_confirmation::stage_file_error(stage_file, false, file, inside)
                == Some("玩家 staging 根目录无效"@)
            &&& player_stage_confirmation::stage_file_error(
                stage_file,
                root,
                FileFacts { symlink: true, ..file },
                inside,
            ) == Some("玩家 staging 文件必须是常规 SQLite 文件"@)
            &&& player_stage_confirmation::stage_file_error(
                stage_file,
                root,
                FileFacts { regular: false, ..file },
                inside,
            ) == Some("玩家 staging 文件必须是常规 SQLite 文件"@)
            &&& player_stage_confirmation::stage_file_error(
                stage_file,
                root,
                FileFacts { size: (67_108_864 + 1) as u64, ..file },
                inside,
            ) == Some("玩家 staging 文件超过大小上限"@)
            &&& player_stage_confirmation::stage_file_error(stage_file, root, file, false)
                == Some("玩家 staging 文件必须位于 data_dir 内"@)
        },
{
}

/// A table of a stage file is declared, in whatever case, with the word that makes it strict
/// behind its columns; one that is not, or that is not there, is told by its name.
pub proof fn stage_tables_are_strict(tables: StageTables, sql: String, at: int)
    requires
        player_stage_confirmation::schema_error(tables) is None,
    ensures
        ({
            let undeclared = |table: StageTable| StageTable { sql: None, ..table };
            let redeclared = |table: StageTable| StageTable { sql: Some(sql), ..table };
            let strict = text::lowered(sql@);
            let players = player_stage_confirmation::schema_error(
                StageTables { player: redeclared(tables.player), ..tables },
            );
            &&& player_stage_confirmation::schema_error(
                StageTables { batch: undeclared(tables.batch), ..tables },
            ) == Some("玩家 staging 缺少表 "@ + "stage_batch"@)
            &&& player_stage_confirmation::schema_error(
                StageTables { player: undeclared(tables.player), ..tables },
            ) == Some("玩家 staging 缺少表 "@ + "stage_player"@)
            &&& player_stage_confirmation::schema_error(
                StageTables { issue: undeclared(tables.issue), ..tables },
            ) == Some("玩家 staging 缺少表 "@ + "stage_issue"@)
            &&& 0 <= at <= strict.len() - 8 && strict.subrange(at, at + 8) == ") strict"@
                ==> players is None
            &&& players is None ==> exists|i: int|
                0 <= i <= strict.len() - 8 && #[trigger] strict.subrange(i, i + 8) == ") strict"@
            &&& players is Some ==> players == Some(
                "玩家 staging 表 "@ + "stage_player"@ + " 不是严格表"@,
            )
        }),
{
    reveal_strlit(") strict");
}

/// Rows of a seed are taken up to ten thousand in all; the table in which the limit was passed
/// is named, and a row that cannot be read is told with its kind and the reason.
pub proof fn seed_rows_are_bounded_and_read_in_order<T>(
    rows: Seq<Result<T, String>>,
    used: nat,
    table: Seq<char>,
    label: Seq<char>,
    from: nat,
)
    requires
        from <= rows.len(),
    ensures
        public_seed::rows_error(rows, used, table, label, from) is None <==> {
            &&& from < rows.len() ==> used + rows.len() <= 10_000
            &&& forall|i: int| from <= i < rows.len() ==> (#[trigger] rows[i]) is Ok
        },
        forall|i: int|
            #![trigger rows[i]]
            from <= i < rows.len() && used + i < 10_000 && rows[i] is Err && (forall|j: int|
                from <= j < i ==> (#[trigger] rows[j]) is Ok) ==> public_seed::rows_error(
                rows,
                used,
                table,
                label,
                from,
            ) == Some("解析"@ + label + "公共种子失败："@ + rows[i]->Err_0@),
        from < rows.len() && used + rows.len() > 10_000 && (forall|i: int|
            from <= i < rows.len() && used + i < 10_000 ==> (#[trigger] rows[i]) is Ok)
            ==> public_seed::rows_error(rows, used, table, label, from) == Some(
            "公共种子目录总行数不能超过 "@ + text::decimal(10_000) + "，读取 "@ + table
                + " 时超出上限"@,
        ),
    decreases rows.len() - from,
{
    if from < rows.len() {
        let first = rows[from as int];
        if used + from < 10_000 && first is Ok {
            seed_rows_are_bounded_and_read_in_order(rows, used, table, label, from + 1);
        }
    }
}

} // verus!
