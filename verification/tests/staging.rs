//! Players of an earlier database, from their rows to their confirmation.
use douluo_game::cli::{
    catalog_path, parse_catalog_command_from, parse_import_arguments, parse_stage_arguments,
    CatalogCommand, CATALOG_USAGE, DEFAULT_CATALOG,
};
use douluo_game::player_stage_confirmation::{
    list_player_stage_candidates, load_player_stage_candidate, validate_player_stage_candidate,
    PlayerStageCandidate, StageRead, StageTable, StageTables,
};
use douluo_game::player_staging::{
    stage_recent_sqlite_player_profiles, staging_report, FileFacts, PlayerStagingMetadata,
    SourcePlayer, StageFile, Staging, StagingSource, MAX_SOURCE_BYTES,
};

const COLUMNS: [&str; 19] = [
    "id",
    "user_id",
    "name",
    "nickname",
    "sex",
    "level",
    "exp",
    "hp",
    "max_hp",
    "mp",
    "max_mp",
    "strength",
    "agility",
    "spirit",
    "endurance",
    "perception",
    "luck",
    "life_count",
    "state",
];

const DECLARATION: &str = "CREATE TABLE t (id INTEGER PRIMARY KEY) STRICT";

fn texts(list: &[&str]) -> Vec<String> {
    list.iter().map(|item| item.to_string()).collect()
}

fn metadata() -> PlayerStagingMetadata {
    PlayerStagingMetadata {
        protocol: "onebot11".to_string(),
        account_id: "10001".to_string(),
        namespace: "default".to_string(),
    }
}

fn profile(id: i64, user_id: i64, name: &str, gender: &str, level: i64) -> SourcePlayer {
    SourcePlayer {
        id,
        user_id: Some(user_id),
        name: Some(name.to_string()),
        nickname: None,
        gender: Some(gender.to_string()),
        level: Some(level),
        exp: Some(0),
        hp: Some(100),
        max_hp: Some(100),
        soul_power: Some(50),
        max_soul_power: Some(50),
        strength: Some(10),
        agility: Some(11),
        spirit: Some(12),
        endurance: Some(13),
        perception: Some(14),
        luck: Some(15),
        life_count: Some(1),
        state: Some(0),
    }
}

fn source(rows: Vec<SourcePlayer>) -> StagingSource {
    StagingSource {
        file: FileFacts {
            symlink: false,
            regular: true,
            size: 8192,
        },
        bytes: b"abc".to_vec(),
        player_exists: true,
        columns: texts(&COLUMNS),
        rows: rows.into_iter().map(Ok).collect(),
    }
}

fn stage(rows: Vec<SourcePlayer>) -> Staging {
    stage_recent_sqlite_player_profiles(&source(rows), "stage.sqlite", &metadata(), 1_700_000_000)
        .expect("应生成基础角色资料 staging")
}

fn table(columns: &[(&str, &str)]) -> StageTable {
    StageTable {
        columns: columns
            .iter()
            .map(|(name, kind)| (name.to_string(), kind.to_string()))
            .collect(),
        sql: Some(DECLARATION.to_string()),
    }
}

fn tables() -> StageTables {
    StageTables {
        batch: table(&[
            ("id", "INTEGER"),
            ("schema_version", "INTEGER"),
            ("source_format", "TEXT"),
            ("source_sha256", "TEXT"),
            ("protocol", "TEXT"),
            ("account_id", "TEXT"),
            ("namespace", "TEXT"),
            ("staged_at", "INTEGER"),
            ("total_players", "INTEGER"),
            ("ready_players", "INTEGER"),
            ("rejected_players", "INTEGER"),
        ]),
        player: table(&[
            ("id", "INTEGER"),
            ("source_player_id", "INTEGER"),
            ("subject_id", "TEXT"),
            ("name", "TEXT"),
            ("gender", "TEXT"),
            ("level", "INTEGER"),
            ("exp", "INTEGER"),
            ("hp", "INTEGER"),
            ("max_hp", "INTEGER"),
            ("soul_power", "INTEGER"),
            ("max_soul_power", "INTEGER"),
            ("strength", "INTEGER"),
            ("agility", "INTEGER"),
            ("spirit", "INTEGER"),
            ("endurance", "INTEGER"),
            ("perception", "INTEGER"),
            ("luck", "INTEGER"),
            ("life_count", "INTEGER"),
            ("state", "TEXT"),
            ("validation_state", "TEXT"),
            ("issue_count", "INTEGER"),
        ]),
        issue: table(&[
            ("id", "INTEGER"),
            ("stage_player_id", "INTEGER"),
            ("field", "TEXT"),
            ("code", "TEXT"),
        ]),
    }
}

fn read(stage: StageFile) -> StageRead {
    StageRead {
        root_is_directory: true,
        file: FileFacts {
            symlink: false,
            regular: true,
            size: 8192,
        },
        inside_root: true,
        tables: tables(),
        stage,
    }
}

#[test]
fn staging_writes_normalized_profiles_and_validation_issues_without_source_writes() {
    let mut first = profile(1, 20001, "唐三", "男", 10);
    first.nickname = Some("旧昵称".to_string());
    first.exp = Some(190);
    let mut second = profile(2, 20002, "越界角色", "女", 121);
    second.nickname = Some("旧昵称".to_string());
    let given = source(vec![first, second]);
    let before = given.clone();

    let staging =
        stage_recent_sqlite_player_profiles(&given, "stage.sqlite", &metadata(), 1_700_000_000)
            .expect("应生成基础角色资料 staging");
    let summary = &staging.summary;
    assert_eq!(summary.total_players, 2);
    assert_eq!(summary.ready_players, 1);
    assert_eq!(summary.rejected_players, 1);
    assert_eq!(summary.issue_count("number_out_of_range"), Some(1));
    assert_eq!(given, before, "只读 staging 不应改写源库");

    let file = &staging.file;
    assert_eq!(file.batches.len(), 1);
    assert_eq!(file.batches[0].id, 1);
    assert_eq!(file.batches[0].total_players, 2);
    assert_eq!(file.players[0].source_player_id, 1);
    assert_eq!(file.players[0].validation_state, "ready");
    assert_eq!(file.players[1].source_player_id, 2);
    assert_eq!(file.players[1].validation_state, "rejected");
    assert_eq!(file.issues.len(), 1);
    assert_eq!(
        summary.source_sha256,
        "ba7816bf8f01cfea414140de5dae2223b00361a396177a9cb410ff61f20015ad"
    );
}

#[test]
fn staging_rejects_incomplete_schema_without_creating_output() {
    let mut incomplete = source(Vec::new());
    incomplete.columns = texts(&["id", "user_id"]);
    let error = stage_recent_sqlite_player_profiles(&incomplete, "stage.sqlite", &metadata(), 0)
        .expect_err("缺少字段必须拒绝 staging");
    assert!(error.contains("name"), "缺字段错误应指出字段：{error}");
}

#[test]
fn staging_retains_invalid_source_ids_as_rejected_records() {
    let staging = stage(vec![profile(-7, 20001, "待修复角色", "男", 1)]);
    assert_eq!(staging.summary.total_players, 1);
    assert_eq!(staging.summary.ready_players, 0);
    assert_eq!(staging.summary.rejected_players, 1);
    assert_eq!(
        staging.summary.issue_count("source_player_id_invalid"),
        Some(1)
    );
    assert_eq!(staging.file.players[0].source_player_id, -7);
}

#[test]
fn staging_retains_duplicate_subjects_without_overwrite() {
    let staging = stage(vec![
        profile(1, 20001, "重复角色甲", "男", 1),
        profile(2, 20001, "重复角色乙", "女", 1),
    ]);
    assert_eq!(staging.summary.total_players, 2);
    assert_eq!(staging.summary.ready_players, 0);
    assert_eq!(staging.summary.rejected_players, 2);
    assert_eq!(staging.summary.issue_count("duplicate_subject_id"), Some(2));
    assert_eq!(staging.file.players.len(), 2, "重复用户不得被 staging 静默覆盖");
}

#[test]
fn reads_only_alive_ready_candidates_from_generated_stage() {
    let mut dead = profile(2, 20002, "死亡角色", "女", 1);
    dead.state = Some(1);
    let staging = stage(vec![profile(1, 20001, "可确认角色", "男", 1), dead]);
    let found = read(staging.file);

    let page = list_player_stage_candidates("players.sqlite", &found, None, 20)
        .expect("应读取可确认候选");
    assert_eq!(page.total_players, 2);
    assert_eq!(page.ready_players, 1);
    assert_eq!(page.rejected_players, 1);
    assert_eq!(page.entries.len(), 1);
    assert_eq!(page.entries[0].source_player_id, 1);
    assert_eq!(page.entries[0].subject_id, "20001");
    assert_eq!(page.entries[0].state, "alive");
    assert!(
        load_player_stage_candidate("players.sqlite", &found, 2).is_err(),
        "非存活 stage 角色必须拒绝确认"
    );
    assert!(
        list_player_stage_candidates("../recent.sqlite", &found, None, 20).is_err(),
        "路径不得逃离 data_dir"
    );

    let mut changed = found.clone();
    changed
        .tables
        .player
        .columns
        .push(("unexpected".to_string(), "TEXT".to_string()));
    assert!(
        list_player_stage_candidates("players.sqlite", &changed, None, 20).is_err(),
        "非 v42.1 stage 结构必须拒绝读取"
    );
}

#[test]
fn every_field_is_checked_when_players_are_taken() {
    let blank = SourcePlayer {
        id: 3,
        user_id: None,
        name: Some("  ".to_string()),
        nickname: None,
        gender: Some("其他".to_string()),
        level: None,
        exp: Some(-1),
        hp: Some(101),
        max_hp: Some(100),
        soul_power: Some(60),
        max_soul_power: Some(50),
        strength: Some(-1),
        agility: None,
        spirit: Some(0),
        endurance: Some(0),
        perception: Some(0),
        luck: Some(0),
        life_count: Some(4),
        state: Some(9),
    };
    let staging = stage(vec![blank]);
    let issues: Vec<(&str, &str)> = staging.players[0]
        .issues
        .iter()
        .map(|issue| (issue.field, issue.code))
        .collect();
    assert_eq!(
        issues,
        vec![
            ("user_id", "subject_id_invalid"),
            ("name", "required_text_missing"),
            ("sex", "gender_invalid"),
            ("level", "number_missing"),
            ("exp", "number_out_of_range"),
            ("hp", "hp_exceeds_max_hp"),
            ("mp", "mp_exceeds_max_mp"),
            ("strength", "number_out_of_range"),
            ("agility", "number_missing"),
            ("life_count", "number_out_of_range"),
            ("state", "state_invalid"),
        ]
    );
    assert_eq!(
        staging.summary.issue_counts,
        vec![
            ("gender_invalid".to_string(), 1),
            ("hp_exceeds_max_hp".to_string(), 1),
            ("mp_exceeds_max_mp".to_string(), 1),
            ("number_missing".to_string(), 2),
            ("number_out_of_range".to_string(), 3),
            ("required_text_missing".to_string(), 1),
            ("state_invalid".to_string(), 1),
            ("subject_id_invalid".to_string(), 1),
        ]
    );
    assert_eq!(staging.summary.issue_count("text_invalid"), None);
}

#[test]
fn nicknames_stand_in_for_blank_names() {
    let mut named = profile(1, 1, "  ", "男", 1);
    named.nickname = Some(" 昵称 ".to_string());
    let staging = stage(vec![named]);
    assert_eq!(staging.players[0].name.as_deref(), Some("昵称"));
    assert_eq!(staging.summary.ready_players, 1);
}

#[test]
fn stagings_are_refused_for_the_first_reason() {
    let refuse = |source: &StagingSource, output: &str, metadata: &PlayerStagingMetadata| {
        stage_recent_sqlite_player_profiles(source, output, metadata, 0).expect_err("应被拒绝")
    };
    let sound = source(vec![profile(1, 1, "甲", "男", 1)]);
    let mut other = metadata();
    other.protocol = "qq-official".to_string();
    assert_eq!(
        refuse(&sound, "stage.sqlite", &other),
        "v42.1 玩家 staging 只支持 protocol=onebot11"
    );
    other = metadata();
    other.account_id = " 1".to_string();
    assert_eq!(
        refuse(&sound, "stage.sqlite", &other),
        "机器人 account_id 必须是 1 到 128 个无控制字符的非空字符串"
    );
    other = metadata();
    other.namespace = "命名".to_string();
    assert_eq!(refuse(&sound, "stage.sqlite", &other), "身份 namespace 无效");

    let mut file = sound.clone();
    file.file.symlink = true;
    assert_eq!(
        refuse(&file, "stage.sqlite", &metadata()),
        "玩家 staging 源文件不能是符号链接"
    );
    file = sound.clone();
    file.file.regular = false;
    assert_eq!(
        refuse(&file, "stage.sqlite", &metadata()),
        "玩家 staging 源文件必须是常规 SQLite 文件"
    );
    file = sound.clone();
    file.file.size = MAX_SOURCE_BYTES + 1;
    assert_eq!(
        refuse(&file, "stage.sqlite", &metadata()),
        "玩家 staging 源文件不能超过 67108864 字节"
    );
    file = sound.clone();
    file.player_exists = false;
    assert_eq!(
        refuse(&file, "stage.sqlite", &metadata()),
        "玩家 staging 源库缺少必需表：player"
    );
    file = sound.clone();
    file.rows.push(Err("坏行".to_string()));
    assert_eq!(
        refuse(&file, "stage.sqlite", &metadata()),
        "解析玩家 staging 源资料失败：坏行"
    );
    let crowd: Vec<SourcePlayer> = (0..10_001).map(|i| profile(i, i, "甲", "男", 1)).collect();
    assert_eq!(
        refuse(&source(crowd), "stage.sqlite", &metadata()),
        "玩家 staging 源资料不能超过 10000 条"
    );
    assert_eq!(
        refuse(&sound, "stage.db", &metadata()),
        "玩家 staging 输出文件必须使用 .sqlite 扩展名"
    );
    assert!(stage_recent_sqlite_player_profiles(
        &sound,
        "out/Stage.SQLite",
        &metadata(),
        u64::MAX
    )
    .is_err());
}

#[test]
fn stagings_are_reported_without_players() {
    let staging = stage(vec![
        profile(1, 1, "甲", "男", 1),
        profile(2, 2, "乙", "男", 0),
    ]);
    assert_eq!(
        staging_report("stage.sqlite", &staging.summary),
        vec![
            "已创建玩家 staging：stage.sqlite".to_string(),
            "总记录：2；可确认：1；拒绝：1".to_string(),
            "校验问题：number_out_of_range=1".to_string(),
        ]
    );
    let clean = stage(vec![profile(1, 1, "甲", "男", 1)]);
    assert_eq!(staging_report("a", &clean.summary).len(), 2);
}

#[test]
fn pages_follow_the_numbers_of_the_players() {
    let rows = (1..=5).rev().map(|i| profile(i, i, "甲", "男", 1)).collect();
    let found = read(stage(rows).file);
    let ids = |after: Option<i64>, limit: usize| {
        let page = list_player_stage_candidates("a.sqlite", &found, after, limit).expect("应分页");
        let ids: Vec<i64> = page
            .entries
            .iter()
            .map(|entry| entry.source_player_id)
            .collect();
        (ids, page.next_after_source_player_id)
    };
    assert_eq!(ids(None, 2), (vec![1, 2], Some(3)));
    assert_eq!(ids(Some(3), 2), (vec![4, 5], None));
    assert_eq!(ids(None, 100), (vec![1, 2, 3, 4, 5], None));
    assert!(list_player_stage_candidates("a.sqlite", &found, Some(-1), 2).is_err());
    assert!(list_player_stage_candidates("a.sqlite", &found, None, 0).is_err());
    assert!(list_player_stage_candidates("a.sqlite", &found, None, 101).is_err());
    let one = load_player_stage_candidate("a.sqlite", &found, 4).expect("应读取");
    assert_eq!(one.subject_id, "4");
    assert_eq!(
        load_player_stage_candidate("a.sqlite", &found, 9),
        Err("玩家 staging 候选不存在".to_string())
    );
    assert_eq!(
        load_player_stage_candidate("a.sqlite", &found, 0),
        Err("玩家 staging 源角色 ID 无效".to_string())
    );
}

#[test]
fn files_that_do_not_agree_are_refused() {
    let sound = read(stage(vec![profile(1, 1, "甲", "男", 1)]).file);
    let refuse = |read: &StageRead| {
        load_player_stage_candidate("a.sqlite", read, 1).expect_err("应被拒绝")
    };
    assert!(load_player_stage_candidate("a.sqlite", &sound, 1).is_ok());
    let mut changed = sound.clone();
    changed.stage.batches[0].ready_players = 2;
    changed.stage.batches[0].total_players = 2;
    assert_eq!(refuse(&changed), "玩家 staging 记录与批次摘要不一致");
    changed = sound.clone();
    changed.stage.batches[0].rejected_players = 1;
    assert_eq!(refuse(&changed), "玩家 staging 批次统计无效");
    changed = sound.clone();
    changed.stage.batches[0].schema_version = 2;
    assert_eq!(refuse(&changed), "玩家 staging 版本或来源格式不受支持");
    changed = sound.clone();
    changed.stage.batches[0].source_sha256 = "A".repeat(64);
    assert_eq!(refuse(&changed), "玩家 staging 批次元数据无效");
    changed = sound.clone();
    changed.stage.batches.clear();
    assert_eq!(refuse(&changed), "玩家 staging 必须恰好包含一个批次");
    changed = sound.clone();
    changed.tables.batch.sql = Some("CREATE TABLE stage_batch(id)".to_string());
    assert_eq!(refuse(&changed), "玩家 staging 表 stage_batch 不是严格表");
    changed = sound.clone();
    changed.tables.issue.sql = None;
    assert_eq!(refuse(&changed), "玩家 staging 缺少表 stage_issue");
    changed = sound.clone();
    changed.inside_root = false;
    assert_eq!(refuse(&changed), "玩家 staging 文件必须位于 data_dir 内");
    changed = sound.clone();
    changed.file.symlink = true;
    assert_eq!(refuse(&changed), "玩家 staging 文件必须是常规 SQLite 文件");
    changed = sound.clone();
    changed.root_is_directory = false;
    assert_eq!(refuse(&changed), "玩家 staging 根目录无效");
    changed = sound.clone();
    changed.stage.players[0].name = None;
    assert_eq!(refuse(&changed), "玩家 staging 候选缺少角色名称");
}

#[test]
fn candidates_are_checked_field_by_field() {
    let found = read(stage(vec![profile(1, 1, "甲", "男", 1)]).file);
    let sound = load_player_stage_candidate("a.sqlite", &found, 1).expect("应读取");
    assert_eq!(validate_player_stage_candidate(&sound), Ok(()));
    let refuse = |change: &dyn Fn(&mut PlayerStageCandidate)| {
        let mut candidate = sound.clone();
        change(&mut candidate);
        validate_player_stage_candidate(&candidate).expect_err("应被拒绝")
    };
    assert_eq!(
        refuse(&|c| c.source_sha256 = "0".repeat(63)),
        "玩家 staging 来源摘要无效"
    );
    assert_eq!(
        refuse(&|c| c.protocol = "qq-official".to_string()),
        "玩家 staging 协议无效"
    );
    assert_eq!(
        refuse(&|c| c.account_id = String::new()),
        "玩家 staging 机器人 account_id 无效"
    );
    assert_eq!(
        refuse(&|c| c.namespace = "a b".to_string()),
        "玩家 staging namespace 无效"
    );
    assert_eq!(
        refuse(&|c| c.source_player_id = 0),
        "玩家 staging 源角色 ID 无效"
    );
    assert_eq!(
        refuse(&|c| c.subject_id = "a\u{1}".to_string()),
        "玩家 staging 身份 ID 无效"
    );
    assert_eq!(
        refuse(&|c| c.name = " 甲".to_string()),
        "玩家 staging 角色名称无效"
    );
    assert_eq!(
        refuse(&|c| c.gender = "无".to_string()),
        "玩家 staging 性别无效"
    );
    assert_eq!(refuse(&|c| c.level = 121), "玩家 staging 等级或经验无效");
    assert_eq!(refuse(&|c| c.hp = c.max_hp + 1), "玩家 staging 生命值无效");
    assert_eq!(refuse(&|c| c.max_soul_power = 0), "玩家 staging 魂力无效");
    assert_eq!(refuse(&|c| c.luck = -1), "玩家 staging 基础属性无效");
    assert_eq!(refuse(&|c| c.life_count = 4), "玩家 staging 转生次数无效");
    assert_eq!(
        refuse(&|c| c.state = "dead".to_string()),
        "玩家 staging 状态不可确认"
    );
}

/// The command that arguments give, with the paths in place of their places.
fn parse(arguments: &[&str]) -> Result<Option<(bool, String, String)>, String> {
    let given: Vec<Option<String>> = arguments.iter().map(|item| Some(item.to_string())).collect();
    parse_catalog_command_from(&given).map(|command| {
        command.map(|command| {
            let (root, catalog) = command.paths(&given).expect("参数应为文本");
            (matches!(command, CatalogCommand::Publish { .. }), root, catalog)
        })
    })
}

#[test]
fn parses_publish_and_verify_commands_without_writing() {
    assert_eq!(
        parse(&["catalog", "publish", "--root", "published"]),
        Ok(Some((
            true,
            "published".to_string(),
            "published/catalog.sqlite".to_string()
        )))
    );
    assert_eq!(
        parse(&[
            "catalog",
            "verify",
            "--root",
            "published",
            "--catalog",
            "check.sqlite",
        ]),
        Ok(Some((
            false,
            "published".to_string(),
            "check.sqlite".to_string()
        )))
    );
}

#[test]
fn rejects_incomplete_or_duplicate_catalog_arguments() {
    assert!(parse(&["catalog", "verify"]).is_err());
    assert!(parse(&["catalog", "verify", "--root", "one", "--root", "two",]).is_err());
    assert!(parse(&["catalog", "delete", "--root", "published"]).is_err());
    assert_eq!(parse(&[]), Ok(None));
    assert_eq!(parse(&["catalog"]), Err(CATALOG_USAGE.to_string()));
    assert!(parse(&["catalog", "verify", "--root"]).is_err());
}

#[test]
fn stage_arguments_name_the_whole_scope() {
    let whole = texts(&[
        "--source",
        "a.sqlite",
        "--output",
        "b.sqlite",
        "--protocol",
        "onebot11",
        "--account-id",
        "1",
        "--namespace",
        "default",
    ]);
    let options = parse_stage_arguments(&whole)
        .expect("应解析")
        .expect("应有参数");
    assert_eq!(options.source, "a.sqlite");
    assert_eq!(options.output, "b.sqlite");
    assert_eq!(options.metadata.account_id, "1");
    assert_eq!(parse_stage_arguments(&Vec::new()), Ok(None));
    assert_eq!(parse_stage_arguments(&texts(&["-h"])), Ok(None));
    assert_eq!(
        parse_stage_arguments(&texts(&["--source"])),
        Err("--source 缺少值".to_string())
    );
    assert_eq!(
        parse_stage_arguments(&texts(&["--source", "--output"])),
        Err("--source 缺少值".to_string())
    );
    assert_eq!(
        parse_stage_arguments(&texts(&["--source", "a", "--source", "b"])),
        Err("--source 不能重复提供".to_string())
    );
    assert_eq!(
        parse_stage_arguments(&texts(&["a"])),
        Err("不支持的参数：a".to_string())
    );
    assert_eq!(
        parse_stage_arguments(&texts(&["--source", "a"])),
        Err("缺少必填参数：--output".to_string())
    );
}

#[test]
fn import_arguments_hold_a_positive_revision() {
    let with_revision = |revision: &str| {
        parse_import_arguments(&texts(&[
            "--source",
            "a.sqlite",
            "--output",
            "b.json",
            "--package-key",
            "key",
            "--revision",
            revision,
            "--author",
            "me",
            "--minimum-runtime",
            "0.1",
        ]))
    };
    let options = with_revision("12").expect("应解析").expect("应有参数");
    assert_eq!(options.metadata.revision, 12);
    assert_eq!(options.metadata.package_key, "key");
    assert_eq!(options.metadata.minimum_runtime, "0.1");
    for (revision, parsed) in [
        ("", "".parse::<i64>()),
        ("x", "x".parse::<i64>()),
        ("+", "+".parse::<i64>()),
        ("12a", "12a".parse::<i64>()),
        ("9223372036854775808", "9223372036854775808".parse::<i64>()),
        ("99999999999999999999x", "99999999999999999999x".parse::<i64>()),
        ("+9223372036854775807x", "+9223372036854775807x".parse::<i64>()),
    ] {
        let error = parsed.expect_err("不是整数");
        assert_eq!(
            with_revision(revision),
            Err(format!("--revision 必须是正整数：{error}"))
        );
    }
    assert_eq!(
        with_revision("0"),
        Err("--revision 必须是正整数".to_string())
    );
    assert_eq!(
        parse_import_arguments(&texts(&["--source", "a"])),
        Err("缺少必填参数：--revision".to_string())
    );
}

#[test]
fn the_catalogue_lies_below_the_root_unless_it_is_named() {
    assert_eq!(catalog_path("published", None), "published/catalog.sqlite");
    assert_eq!(catalog_path("published/", None), "published/catalog.sqlite");
    assert_eq!(catalog_path("", None), DEFAULT_CATALOG);
    assert_eq!(catalog_path("/", None), "/catalog.sqlite");
    assert_eq!(catalog_path("published", Some("other")), "other");
    let arguments = vec![
        Some("catalog".to_string()),
        Some("publish".to_string()),
        Some("--root".to_string()),
        None,
    ];
    let command = parse_catalog_command_from(&arguments)
        .expect("应接受非 Unicode 路径")
        .expect("应有命令");
    assert_eq!(command.paths(&arguments), None);
}
