//! Packages of content: their rules, and where they come from.
use douluo_game::content::{
    default_chance, default_enabled, ContentPackage, ContentTransitionPackageEntry,
    EffectPackageEntry, EffectParameter, ItemPackageEntry, MapPackageEntry, NpcPackageEntry,
    NumericCurvePackageEntry, ParameterValue, QuestPackageEntry, QuestRequirementPackageEntry,
    QuestRewardPackageEntry, SkillPackageEntry, FORBID_SKILL_APPLY_PHASE,
    FORBID_SKILL_BLOCKED_ACTION, FORBID_SKILL_RULE_VERSION, FORBID_SKILL_VALUE,
    MAX_PACKAGE_BYTES, MIN_FORBID_SKILL_DURATION_ROUNDS, PLAYER_LEVEL_EXP_CURVE_REFERENCE,
    POISON_RULE_VERSION, POISON_TICK_INTERVAL, POISON_TICK_PHASE,
};
use douluo_game::content_package::{
    content_hash, load_package_file, package_format, parse_package_text, PackageFile,
    PackageFormat,
};
use douluo_game::content_rules::validate_shape;
use douluo_game::player_staging::FileFacts;
use douluo_game::public_seed::{
    check_seed_file, check_seed_hash, check_seed_output, import_public_seed_sqlite,
    require_public_seed_tables, PublicSeedPackageMetadata, PublicSeedReadBudget, PublicSeedSource,
    SourceQuest,
};

const CANONICAL: &str = r#"{"package_key":"example-content","revision":1}"#;

fn words(value: &str) -> ParameterValue {
    ParameterValue::Text(value.to_string())
}

fn number(value: i64) -> ParameterValue {
    ParameterValue::Integer(value)
}

fn parameters(list: &[(&str, ParameterValue)]) -> Vec<EffectParameter> {
    list.iter()
        .map(|(name, value)| EffectParameter {
            name: name.to_string(),
            value: value.clone(),
        })
        .collect()
}

fn set_parameter(effect: &mut EffectPackageEntry, name: &str, value: ParameterValue) {
    effect.parameters.retain(|parameter| parameter.name != name);
    effect.parameters.push(EffectParameter {
        name: name.to_string(),
        value,
    });
    effect
        .parameters
        .sort_by(|left, right| left.name.cmp(&right.name));
}

fn minimal_package() -> ContentPackage {
    ContentPackage {
        package_key: "example-content".to_string(),
        revision: 1,
        author: "test".to_string(),
        minimum_runtime: String::new(),
        maps: Vec::new(),
        items: Vec::new(),
        npcs: Vec::new(),
        quests: Vec::new(),
        numeric_curves: Vec::new(),
        wuhun: Vec::new(),
        skills: vec![SkillPackageEntry {
            skill_key: "test-skill".to_string(),
            name: "测试魂技".to_string(),
            skill_type: "active".to_string(),
            wuhun_category: "all".to_string(),
            ring_index: 1,
            soul_power_cost: 10,
            cooldown_rounds: 1,
            base_damage: 10,
            spirit_ratio_percent: 100,
            strength_ratio_percent: 0,
            description: "测试技能".to_string(),
            enabled: true,
            starter: false,
        }],
        effects: vec![EffectPackageEntry {
            effect_key: "test-effect".to_string(),
            skill_key: "test-skill".to_string(),
            trigger_kind: "on_release".to_string(),
            target_kind: "beast".to_string(),
            operation: "modify_stat".to_string(),
            attribute_key: "beast_attack".to_string(),
            value_mode: "percent_delta".to_string(),
            value: -20,
            duration_rounds: 2,
            chance_percent: 100,
            stack_policy: "strongest".to_string(),
            parameters: Vec::new(),
            description: "测试效果".to_string(),
            enabled: true,
        }],
        soul_beasts: Vec::new(),
        soul_rings: Vec::new(),
        transitions: Vec::new(),
    }
}

fn poison_v1_parameters() -> Vec<EffectParameter> {
    parameters(&[
        ("rule_version", words(POISON_RULE_VERSION)),
        ("tick_phase", words(POISON_TICK_PHASE)),
        ("tick_interval", number(POISON_TICK_INTERVAL)),
    ])
}

#[test]
fn parses_json_and_toml_to_the_same_hash() {
    let canonical = CANONICAL.to_string();
    let load = |source_format: &str| {
        parse_package_text(
            "内容",
            source_format,
            Ok(minimal_package()),
            Ok(canonical.clone()),
        )
    };
    let json_loaded = load("json").expect("JSON 应可解析");
    let toml_loaded = load("toml").expect("TOML 应可解析");
    assert_eq!(json_loaded.package, toml_loaded.package);
    assert_eq!(json_loaded.content_hash, toml_loaded.content_hash);
    assert_eq!(json_loaded.content_hash, content_hash(&canonical));
    assert_eq!(json_loaded.source_format, "json");
}

#[test]
fn maps_preserve_legacy_hash_and_enforce_static_shape() {
    let mut package = minimal_package();
    package.maps = vec![MapPackageEntry {
        map_key: "content-map".to_string(),
        name: "内容测试地图".to_string(),
        description: "仅用于校验静态地图目录。".to_string(),
        level_required: 1,
        safe: true,
        pvp_enabled: false,
        teleport_enabled: true,
        sort_order: 80,
    }];
    assert!(validate_shape(&package).is_empty());

    package.maps.push(MapPackageEntry {
        map_key: "content-map-second".to_string(),
        name: "内容测试地图".to_string(),
        description: "重复名称和排序必须拒绝。".to_string(),
        level_required: 1,
        safe: false,
        pvp_enabled: true,
        teleport_enabled: false,
        sort_order: 80,
    });
    let errors = validate_shape(&package);
    assert!(errors.iter().any(|error| error.contains("地图名称重复")));
    assert!(errors.iter().any(|error| error.contains("地图排序重复")));
}

#[test]
fn items_preserve_legacy_hash_and_enforce_static_shape() {
    let mut package = minimal_package();
    package.items = vec![ItemPackageEntry {
        item_key: "content-potion".to_string(),
        name: "内容测试药".to_string(),
        category: "consumable".to_string(),
        quality: 2,
        stackable: true,
        max_stack: 99,
        buy_price: 50,
        sell_price: 10,
        level_required: 1,
        effect_kind: "restore_hp".to_string(),
        effect_amount: 100,
        revive_hp_percent: 0,
        purchasable: true,
        sellable: true,
        usable: true,
        description: "恢复100点生命值".to_string(),
    }];
    assert!(validate_shape(&package).is_empty());

    package.items.push(ItemPackageEntry {
        item_key: "content-potion".to_string(),
        name: "内容测试药".to_string(),
        category: "consumable".to_string(),
        quality: 2,
        stackable: true,
        max_stack: 99,
        buy_price: 50,
        sell_price: 10,
        level_required: 1,
        effect_kind: "restore_hp".to_string(),
        effect_amount: 100,
        revive_hp_percent: 0,
        purchasable: true,
        sellable: true,
        usable: true,
        description: "重复名称".to_string(),
    });
    let errors = validate_shape(&package);
    assert!(errors.iter().any(|error| error.contains("物品键重复")));
    assert!(errors.iter().any(|error| error.contains("物品名称重复")));

    package.items[0].quality = 6;
    package.items[1].name = "另一种测试药".to_string();
    let errors = validate_shape(&package);
    assert!(
        errors
            .iter()
            .any(|error| error.contains("item.quality(content-potion)"))
    );
}

#[test]
fn npcs_preserve_legacy_hash_and_enforce_static_shape() {
    let mut package = minimal_package();
    package.npcs = vec![NpcPackageEntry {
        npc_key: "content-merchant".to_string(),
        map_key: "content-map".to_string(),
        name: "内容商人".to_string(),
        npc_kind: "merchant".to_string(),
        dialogue: "这里仅校验静态 NPC 目录。".to_string(),
        description: "不承载商店商品或玩家对话绑定。".to_string(),
        enabled: true,
        sort_order: 10,
    }];
    assert!(validate_shape(&package).is_empty());

    package.npcs.push(NpcPackageEntry {
        npc_key: "content-merchant".to_string(),
        map_key: "content-map".to_string(),
        name: "内容商人".to_string(),
        npc_kind: "elder".to_string(),
        dialogue: String::new(),
        description: String::new(),
        enabled: true,
        sort_order: 20,
    });
    let errors = validate_shape(&package);
    assert!(errors.iter().any(|error| error.contains("NPC 键重复")));
    assert!(errors.iter().any(|error| error.contains("NPC 名称重复")));

    package.npcs[0].enabled = false;
    package.npcs[1].npc_key = "content-elder".to_string();
    package.npcs[1].name = "另一位内容 NPC".to_string();
    package.npcs[1].npc_kind = "unknown".to_string();
    package.npcs[1].sort_order = -1;
    let errors = validate_shape(&package);
    assert!(
        errors
            .iter()
            .any(|error| error.contains("不允许禁用新 NPC"))
    );
    assert!(
        errors
            .iter()
            .any(|error| error.contains("npc_kind 不受支持"))
    );
    assert!(
        errors
            .iter()
            .any(|error| error.contains("sort_order 不能为负数"))
    );
}

#[test]
fn quests_preserve_legacy_hash_and_enforce_static_shape() {
    let mut package = minimal_package();
    package.quests = vec![QuestPackageEntry {
        quest_key: "content-quest".to_string(),
        name: "内容任务".to_string(),
        description: "仅用于校验静态任务目录。".to_string(),
        category: "side".to_string(),
        map_key: Some("content-map".to_string()),
        level_required: 1,
        repeatable: false,
        enabled: true,
        requirements: vec![QuestRequirementPackageEntry {
            requirement_kind: "item".to_string(),
            target_key: "content-potion".to_string(),
            required_quantity: 2,
            sort_order: 0,
            description: "拥有两瓶内容测试药".to_string(),
        }],
        rewards: vec![
            QuestRewardPackageEntry {
                reward_kind: "exp".to_string(),
                currency_code: None,
                item_key: None,
                amount: 80,
                sort_order: 0,
                description: "经验奖励".to_string(),
            },
            QuestRewardPackageEntry {
                reward_kind: "currency".to_string(),
                currency_code: Some("gold_soul_coin".to_string()),
                item_key: None,
                amount: 30,
                sort_order: 1,
                description: "金魂币奖励".to_string(),
            },
        ],
    }];
    assert!(validate_shape(&package).is_empty());

    package.quests.push(QuestPackageEntry {
        quest_key: "content-quest".to_string(),
        name: "内容任务".to_string(),
        description: "重复任务必须拒绝。".to_string(),
        category: "unknown".to_string(),
        map_key: None,
        level_required: 1,
        repeatable: true,
        enabled: false,
        requirements: Vec::new(),
        rewards: Vec::new(),
    });
    let errors = validate_shape(&package);
    assert!(errors.iter().any(|error| error.contains("任务键重复")));
    assert!(errors.iter().any(|error| error.contains("任务名称重复")));
    assert!(
        errors
            .iter()
            .any(|error| error.contains("category 不受支持"))
    );
    assert!(
        errors
            .iter()
            .any(|error| error.contains("不允许可重复新任务"))
    );
    assert!(
        errors
            .iter()
            .any(|error| error.contains("不允许禁用新任务"))
    );
    assert!(
        errors
            .iter()
            .any(|error| error.contains("至少需要一条完成条件"))
    );
    assert!(
        errors
            .iter()
            .any(|error| error.contains("至少需要一条奖励"))
    );

    package.quests.truncate(1);
    package.quests[0].requirements[0].requirement_kind = "unknown".to_string();
    package.quests[0].rewards[1].currency_code = Some("unknown".to_string());
    let errors = validate_shape(&package);
    assert!(
        errors
            .iter()
            .any(|error| error.contains("requirement_kind 不受支持"))
    );
    assert!(
        errors
            .iter()
            .any(|error| error.contains("货币奖励只能使用 gold_soul_coin"))
    );
}

#[test]
fn numeric_curves_preserve_legacy_hash_and_enforce_static_shape() {
    let mut package = minimal_package();
    package.numeric_curves = vec![NumericCurvePackageEntry {
        curve_key: "content-player-level-exp".to_string(),
        name: "内容角色等级经验".to_string(),
        unit: "级".to_string(),
        range_min: 1,
        range_max: 120,
        reference_key: PLAYER_LEVEL_EXP_CURVE_REFERENCE.to_string(),
        description: "只展示既有角色等级经验规则的输入范围。".to_string(),
        sort_order: 0,
    }];
    assert!(validate_shape(&package).is_empty());

    package.numeric_curves.push(NumericCurvePackageEntry {
        curve_key: "content-player-level-exp".to_string(),
        name: "内容角色等级经验".to_string(),
        unit: String::new(),
        range_min: 10,
        range_max: 1,
        reference_key: "unknown-curve-v1".to_string(),
        description: String::new(),
        sort_order: 0,
    });
    let errors = validate_shape(&package);
    assert!(errors.iter().any(|error| error.contains("数值曲线键重复")));
    assert!(
        errors
            .iter()
            .any(|error| error.contains("数值曲线名称重复"))
    );
    assert!(
        errors
            .iter()
            .any(|error| error.contains("数值曲线排序重复"))
    );
    assert!(
        errors
            .iter()
            .any(|error| error.contains("reference_key 不受支持"))
    );
    assert!(
        errors
            .iter()
            .any(|error| error.contains("range_max 不能小于 range_min"))
    );
}

#[test]
fn accepts_only_the_controlled_poison_v1_node() {
    let mut package = minimal_package();
    let effect = &mut package.effects[0];
    effect.target_kind = "beast".to_string();
    effect.operation = "deal_damage".to_string();
    effect.attribute_key = "beast_hp".to_string();
    effect.value_mode = "absolute".to_string();
    effect.value = 5;
    effect.duration_rounds = 3;
    effect.stack_policy = "refresh".to_string();
    effect.parameters = poison_v1_parameters();
    assert!(validate_shape(&package).is_empty());

    set_parameter(&mut package.effects[0], "tick_interval", number(2));
    assert!(
        validate_shape(&package)
            .iter()
            .any(|error| error.contains("poison-v1 parameters"))
    );
}

#[test]
fn accepts_only_the_controlled_stun_v1_node() {
    let mut package = minimal_package();
    let effect = &mut package.effects[0];
    effect.target_kind = "beast".to_string();
    effect.operation = "control".to_string();
    effect.attribute_key = "stunned".to_string();
    effect.value_mode = "absolute".to_string();
    effect.value = 1;
    effect.duration_rounds = 2;
    effect.stack_policy = "refresh".to_string();
    effect.parameters = parameters(&[
        ("rule_version", words("stun-v1")),
        ("apply_phase", words("after_player_damage")),
        ("counterattack", words("skip")),
    ]);
    assert!(validate_shape(&package).is_empty());

    set_parameter(&mut package.effects[0], "counterattack", words("block"));
    assert!(
        validate_shape(&package)
            .iter()
            .any(|error| error.contains("stun-v1 parameters"))
    );
}

#[test]
fn accepts_only_the_controlled_shield_v1_node() {
    let mut package = minimal_package();
    let effect = &mut package.effects[0];
    effect.target_kind = "self".to_string();
    effect.operation = "absorb_damage".to_string();
    effect.attribute_key = "beast_counterattack".to_string();
    effect.value_mode = "absolute".to_string();
    effect.value = 1;
    effect.duration_rounds = 2;
    effect.stack_policy = "refresh".to_string();
    effect.parameters = parameters(&[
        ("rule_version", words("shield-v1")),
        ("apply_phase", words("after_player_damage")),
        ("counterattack", words("absorb")),
    ]);
    assert!(validate_shape(&package).is_empty());

    set_parameter(&mut package.effects[0], "counterattack", words("skip"));
    assert!(
        validate_shape(&package)
            .iter()
            .any(|error| error.contains("shield-v1 parameters"))
    );
}

#[test]
fn accepts_only_the_controlled_heal_v1_node() {
    let mut package = minimal_package();
    let effect = &mut package.effects[0];
    effect.target_kind = "self".to_string();
    effect.operation = "restore".to_string();
    effect.attribute_key = "player_hp".to_string();
    effect.value_mode = "absolute".to_string();
    effect.value = 30;
    effect.duration_rounds = 1;
    effect.stack_policy = "add".to_string();
    effect.parameters = parameters(&[
        ("rule_version", words("heal-v1")),
        ("apply_phase", words("after_player_damage")),
        ("overflow", words("cap_at_max_hp")),
    ]);
    assert!(validate_shape(&package).is_empty());

    set_parameter(&mut package.effects[0], "overflow", words("overflow"));
    assert!(
        validate_shape(&package)
            .iter()
            .any(|error| error.contains("heal-v1 parameters"))
    );
}

#[test]
fn accepts_only_the_current_battle_target_v1_node() {
    let mut package = minimal_package();
    let effect = &mut package.effects[0];
    effect.target_kind = "beast".to_string();
    effect.operation = "select_target".to_string();
    effect.attribute_key = "battle_target".to_string();
    effect.value_mode = "absolute".to_string();
    effect.value = 1;
    effect.duration_rounds = 1;
    effect.stack_policy = "replace".to_string();
    effect.parameters = parameters(&[
        ("rule_version", words("target-v1")),
        ("selector", words("current_battle_beast")),
    ]);
    assert!(validate_shape(&package).is_empty());

    set_parameter(&mut package.effects[0], "selector", words("random_beast"));
    assert!(
        validate_shape(&package)
            .iter()
            .any(|error| error.contains("target-v1 parameters"))
    );
}

#[test]
fn accepts_only_the_controlled_forbid_skill_v1_node() {
    let mut package = minimal_package();
    let effect = &mut package.effects[0];
    effect.target_kind = "self".to_string();
    effect.operation = "control".to_string();
    effect.attribute_key = "skill_usage".to_string();
    effect.value_mode = "absolute".to_string();
    effect.value = FORBID_SKILL_VALUE;
    effect.duration_rounds = MIN_FORBID_SKILL_DURATION_ROUNDS;
    effect.stack_policy = "refresh".to_string();
    effect.parameters = parameters(&[
        ("rule_version", words(FORBID_SKILL_RULE_VERSION)),
        ("apply_phase", words(FORBID_SKILL_APPLY_PHASE)),
        ("blocked_action", words(FORBID_SKILL_BLOCKED_ACTION)),
    ]);
    assert!(validate_shape(&package).is_empty());

    set_parameter(&mut package.effects[0], "blocked_action", words("attack"));
    assert!(
        validate_shape(&package)
            .iter()
            .any(|error| error.contains("forbid-skill-v1 parameters"))
    );
}

#[test]
fn rejects_unsupported_effect_parameters_and_duplicate_keys() {
    let mut package = minimal_package();
    set_parameter(&mut package.effects[0], "script", words("x"));
    assert!(
        validate_shape(&package)
            .iter()
            .any(|error| error.contains("parameters"))
    );
    package.effects.push(package.effects[0].clone());
    assert!(
        validate_shape(&package)
            .iter()
            .any(|error| error.contains("效果键重复"))
    );
}

#[test]
fn transition_declarations_preserve_legacy_hash_and_enforce_shape() {
    let package = minimal_package();
    let legacy = parse_package_text(
        CANONICAL,
        "json",
        Ok(package.clone()),
        Ok(CANONICAL.to_string()),
    )
    .expect("旧格式内容包应继续可解析");
    assert_eq!(legacy.content_hash, content_hash(CANONICAL));

    let mut invalid = package;
    invalid.transitions = vec![
        ContentTransitionPackageEntry {
            entity_kind: "skill".to_string(),
            source_key: "test-skill".to_string(),
            target_key: None,
            transition_kind: "replaced".to_string(),
            reason: "缺少 target".to_string(),
        },
        ContentTransitionPackageEntry {
            entity_kind: "skill".to_string(),
            source_key: "test-skill".to_string(),
            target_key: Some("test-skill".to_string()),
            transition_kind: "deprecated".to_string(),
            reason: "错误的弃用目标".to_string(),
        },
    ];
    let errors = validate_shape(&invalid);
    assert!(errors.iter().any(|error| error.contains("必须提供 target")));
    assert!(errors.iter().any(|error| error.contains("不允许 target")));
    assert!(
        errors
            .iter()
            .any(|error| error.contains("source 与 target 不能相同"))
    );
    assert!(errors.iter().any(|error| error.contains("source 重复")));
}

#[test]
fn package_file_rejects_non_regular_or_oversized_input() {
    let found = PackageFile {
        file: FileFacts {
            symlink: false,
            regular: true,
            size: 10,
        },
        inside_root: true,
        size_read: 10,
        content: Some("{}".to_string()),
        extension: Some("JSON".to_string()),
    };
    let load = |found: &PackageFile| {
        load_package_file(found, Ok(minimal_package()), Ok(CANONICAL.to_string()))
    };
    assert_eq!(load(&found).expect("应读取").source_format, "json");

    let mut changed = found.clone();
    changed.file.regular = false;
    let error = load(&changed).expect_err("内容包不能是目录");
    assert!(error.contains("常规文件"));

    changed = found.clone();
    changed.file.size = MAX_PACKAGE_BYTES as u64 + 1;
    let error = load(&changed).expect_err("超大内容包必须被拒绝");
    assert!(error.contains("超过"));

    changed = found.clone();
    changed.size_read = MAX_PACKAGE_BYTES + 1;
    assert_eq!(load(&changed), Err("内容包超过 2 MiB 大小上限".to_string()));
    changed = found.clone();
    changed.file.symlink = true;
    assert_eq!(load(&changed), Err("内容包文件不能是符号链接".to_string()));
    changed = found.clone();
    changed.inside_root = false;
    assert_eq!(
        load(&changed),
        Err("内容包文件必须位于 QimenBot data_dir 内".to_string())
    );
    changed = found.clone();
    changed.content = None;
    assert_eq!(load(&changed), Err("内容包必须是 UTF-8 文本".to_string()));
    changed = found.clone();
    changed.extension = None;
    assert_eq!(
        load(&changed),
        Err("内容包文件必须使用 .json 或 .toml 扩展名".to_string())
    );
    changed = found;
    changed.extension = Some("yaml".to_string());
    assert_eq!(
        load(&changed),
        Err("内容包扩展名必须是 .json 或 .toml".to_string())
    );
}

#[test]
fn texts_of_packages_are_refused_for_the_first_reason() {
    let parse = |text: &str, format: &str, parsed, canonical| {
        parse_package_text(text, format, parsed, canonical).expect_err("应被拒绝")
    };
    let canonical = || Ok(CANONICAL.to_string());
    let large = " ".repeat(MAX_PACKAGE_BYTES + 1);
    assert_eq!(
        parse(&large, "json", Ok(minimal_package()), canonical()),
        "内容包超过 2 MiB 大小上限"
    );
    assert_eq!(
        parse("", "json", Err("坏".to_string()), canonical()),
        "JSON 内容包无效：坏"
    );
    assert_eq!(
        parse("", "toml", Err("坏".to_string()), canonical()),
        "TOML 内容包无效：坏"
    );
    let mut package = minimal_package();
    package.revision = 0;
    assert_eq!(
        parse("", "json", Ok(package), canonical()),
        "内容包字段校验失败：revision 必须大于 0"
    );
    assert_eq!(
        parse("", "json", Ok(minimal_package()), Err("坏".to_string())),
        "序列化内容包失败：坏"
    );
    assert_eq!(
        package_format("", "toml"),
        Ok(PackageFormat::Toml)
    );
}

#[test]
fn errors_are_counted_from_the_head_of_a_package() {
    let mut package = minimal_package();
    package.package_key = "Upper".to_string();
    package.author = String::new();
    package.skills.clear();
    package.effects.clear();
    let errors = validate_shape(&package);
    assert!(errors[0].contains("package_key"));
    assert!(errors.iter().any(|error| error.contains("author")));
    assert!(errors
        .iter()
        .any(|error| error.contains("内容包至少要包含一条目录数据")));
    assert!(default_enabled());
    assert_eq!(default_chance(), 100);
}

fn seed_metadata() -> PublicSeedPackageMetadata {
    PublicSeedPackageMetadata {
        package_key: "public-seed-test".to_string(),
        revision: 1,
        author: "test".to_string(),
        minimum_runtime: "0.1.20".to_string(),
    }
}

fn seed_map(key: &str) -> MapPackageEntry {
    MapPackageEntry {
        map_key: key.to_string(),
        name: "公共种子地图".to_string(),
        description: "用于验证公共种子输出。".to_string(),
        level_required: 1,
        safe: true,
        pvp_enabled: false,
        teleport_enabled: true,
        sort_order: 9_000,
    }
}

fn seed_source() -> PublicSeedSource {
    PublicSeedSource {
        maps: vec![Ok(seed_map("public-seed-map"))],
        items: Vec::new(),
        npcs: Vec::new(),
        quests: Vec::new(),
        numeric_curves: Vec::new(),
    }
}

#[test]
fn importer_rejects_missing_public_catalog_table() {
    let error = require_public_seed_tables(&vec!["map".to_string()])
        .expect_err("缺少公共目录表必须拒绝导入");
    assert!(
        error.contains("item"),
        "缺表错误应指出首个缺失目录：{error}"
    );
    let all: Vec<String> = [
        "map",
        "item",
        "npc",
        "quest",
        "quest_requirement",
        "quest_reward",
        "numeric_curve",
    ]
    .iter()
    .map(|table| table.to_string())
    .collect();
    assert_eq!(require_public_seed_tables(&all), Ok(()));
}

#[test]
fn writer_creates_one_new_canonical_json_file() {
    let package = import_public_seed_sqlite(seed_source(), &seed_metadata()).expect("应导入");
    assert_eq!(package.package_key, "public-seed-test");
    assert_eq!(package.revision, 1);
    assert_eq!(package.maps, vec![seed_map("public-seed-map")]);
    let loaded = parse_package_text("", "json", Ok(package), Ok(CANONICAL.to_string()))
        .expect("公共种子测试包应可解析");
    assert_eq!(check_seed_output("public-seed.json"), Ok(()));
    assert_eq!(
        check_seed_hash(&content_hash(CANONICAL), &loaded.content_hash),
        Ok(())
    );
    assert!(
        check_seed_hash(&content_hash(CANONICAL), &"0".repeat(64)).is_err(),
        "哈希不一致的公共种子内容包不能被写出"
    );
    assert_eq!(
        check_seed_output("public-seed.txt"),
        Err("公共种子输出文件必须使用 .json 扩展名".to_string())
    );
}

#[test]
fn imported_quests_keep_their_rows() {
    let mut source = seed_source();
    source.quests = vec![Ok(SourceQuest {
        entry: QuestPackageEntry {
            quest_key: "quest".to_string(),
            name: "任务".to_string(),
            description: String::new(),
            category: "main".to_string(),
            map_key: None,
            level_required: 1,
            repeatable: false,
            enabled: true,
            requirements: Vec::new(),
            rewards: Vec::new(),
        },
        requirements: vec![Ok(QuestRequirementPackageEntry {
            requirement_kind: "item".to_string(),
            target_key: "potion".to_string(),
            required_quantity: 2,
            sort_order: 0,
            description: "两瓶".to_string(),
        })],
        rewards: vec![Ok(QuestRewardPackageEntry {
            reward_kind: "exp".to_string(),
            currency_code: None,
            item_key: None,
            amount: 80,
            sort_order: 0,
            description: "经验".to_string(),
        })],
    })];
    let package = import_public_seed_sqlite(source.clone(), &seed_metadata()).expect("应导入");
    assert_eq!(package.quests[0].requirements[0].target_key, "potion");
    assert_eq!(package.quests[0].rewards[0].amount, 80);

    if let Ok(quest) = &mut source.quests[0] {
        quest.rewards.push(Err("坏行".to_string()));
    }
    assert_eq!(
        import_public_seed_sqlite(source, &seed_metadata()),
        Err("解析任务奖励公共种子失败：坏行".to_string())
    );
}

#[test]
fn imports_are_bounded_in_all() {
    let mut source = seed_source();
    source.maps = (0..9_999).map(|i| Ok(seed_map(&format!("map-{i}")))).collect();
    source.npcs = vec![
        Err("坏行".to_string()),
        Err("更坏".to_string()),
    ];
    assert_eq!(
        import_public_seed_sqlite(source.clone(), &seed_metadata()),
        Err("解析 NPC 公共种子失败：坏行".to_string())
    );
    source.maps.push(Ok(seed_map("last")));
    assert_eq!(
        import_public_seed_sqlite(source, &seed_metadata()),
        Err("公共种子目录总行数不能超过 10000，读取 npc 时超出上限".to_string())
    );
    let mut budget = PublicSeedReadBudget { used_rows: 9_999 };
    assert_eq!(budget.consume("map"), Ok(()));
    assert!(budget.consume("map").is_err());
    assert_eq!(budget.used_rows, 10_000);
    assert!(check_seed_file(FileFacts {
        symlink: true,
        regular: true,
        size: 0
    })
    .is_err());
    assert!(check_seed_file(FileFacts {
        symlink: false,
        regular: false,
        size: 0
    })
    .is_err());
}
