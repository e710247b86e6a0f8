//! The documents that answer commands, word for word.
use douluo_game::assets::IllustrationAssets;
use douluo_game::battle_documents::{
    battle_action_document, battle_log_document, battle_snapshot_document, soul_beasts_document,
};
use douluo_game::config::PluginConfig;
use douluo_game::economy_documents::{gift_document, picked_up_document, transfer_document};
use douluo_game::game::GameService;
use douluo_game::game_replies::{shown_balance, skill_detail_reply};
use douluo_game::host::CommandRequest;
use douluo_game::labels::ProficiencyRules;
use douluo_game::message::{render_text, GameDocument};
use douluo_game::player_documents::{
    absorb_soul_ring_document, skill_loadout_document, skills_document, soul_rings_document,
};
use douluo_game::records::{
    BattleActionReceipt, BattleEventRecord, BattleLog, BattleSnapshot, DropClaimReceipt,
    GiftReceipt, ItemRecord, OwnedSoulRing, PlayerStatus, SkillDetail, SkillEntry,
    SkillLoadoutReceipt, SkillPage, SkillRecord, SoulBeastPage, SoulBeastRecord, SoulRingAbsorbReceipt,
    SoulRingDrop, SoulRingPage, SoulRingRecord, TransferReceipt, WuhunRecord, WuhunState,
    WuhunToggleReceipt,
};

fn text(value: &str) -> String {
    value.to_string()
}

fn lines(document: &GameDocument) -> Vec<String> {
    render_text(document).lines().map(text).collect()
}

fn has(document: &GameDocument, line: &str) -> bool {
    lines(document).iter().any(|shown| shown == line)
}

fn potion() -> ItemRecord {
    ItemRecord {
        name: text("小回复药"),
        quality: 1,
        sell_price: 5,
        effect_kind: text("restore_hp"),
        effect_amount: 50,
        revive_hp_percent: 0,
        description: text("恢复少量生命"),
    }
}

fn skill() -> SkillRecord {
    SkillRecord {
        name: text("蓝银缠绕"),
        skill_type: text("control"),
        ring_index: 1,
        soul_power_cost: 10,
        cooldown_rounds: 2,
        base_damage: 30,
        description: text("缠住对手"),
    }
}

fn ring() -> SoulRingRecord {
    SoulRingRecord {
        name: text("史莱姆魂环"),
        color: text("white"),
        age: 10,
        soul_beast_name: text("史莱姆"),
        skill: skill(),
    }
}

fn beast() -> SoulBeastRecord {
    SoulBeastRecord {
        id: 7,
        name: text("史莱姆"),
        age: 10,
        level_required: 1,
        max_hp: 80,
        attack: 5,
        defense: 3,
        exp_reward: 20,
        drop_item: potion(),
        drop_quantity: 1,
        description: text("软绵绵的魂兽"),
    }
}

fn battle() -> BattleSnapshot {
    BattleSnapshot {
        beast: beast(),
        status: text("active"),
        action_count: 1,
        player_hp: 90,
        player_max_hp: 100,
        beast_hp: 60,
        beast_max_hp: 80,
        wuhun_attack_percent: 110,
        wuhun_defense_percent: 95,
        active_effects: Vec::new(),
    }
}

fn event(kind: &str, status_after: &str) -> BattleEventRecord {
    BattleEventRecord {
        sequence: 1,
        event_kind: text(kind),
        skill_name: None,
        player_hp_before: 100,
        player_hp_after: 90,
        beast_hp_before: 80,
        beast_hp_after: 60,
        player_damage: 20,
        beast_damage: 10,
        player_critical: true,
        beast_critical: false,
        flee_success: None,
        status_after: text(status_after),
        experience_awarded: 0,
    }
}

fn action(kind: &str, status_after: &str, replayed: bool) -> BattleActionReceipt {
    BattleActionReceipt {
        replayed,
        event: event(kind, status_after),
        battle: battle(),
        skill: None,
        wuhun_effect: None,
        expired_effects: Vec::new(),
        soul_ring_drop: None,
    }
}

#[test]
fn transfers_and_gifts_are_receipted_once() {
    let mut receipt = TransferReceipt {
        replayed: false,
        recipient_subject_id: text("friend"),
        amount: 12,
        sender_balance_after: 88,
        recipient_balance_after: 12,
        transfer_id: 3,
    };
    let document = transfer_document(&receipt);
    assert_eq!(lines(&document)[0], "== 转账成功 ==");
    assert!(has(&document, "转账金额：12 金魂币"));
    assert!(has(&document, "我的余额：88"));
    receipt.replayed = true;
    let again = transfer_document(&receipt);
    assert_eq!(lines(&again)[0], "== 转账回执 ==");
    assert!(render_text(&again).contains("未再次扣款"));

    let gift = gift_document(&GiftReceipt {
        replayed: false,
        recipient_subject_id: text("friend"),
        item: potion(),
        quantity: 2,
        sender_inventory_after: 1,
        recipient_inventory_after: 2,
        transfer_id: 4,
    });
    assert_eq!(lines(&gift)[0], "== 物品赠送成功 ==");
    assert!(has(&gift, "赠送物品：小回复药 x2"));
    let claim = picked_up_document(&DropClaimReceipt {
        replayed: true,
        drop_id: 42,
        item: potion(),
        quantity: 3,
        inventory_after: 5,
        claim_id: 6,
    });
    assert_eq!(lines(&claim)[0], "== 拾取回执 ==");
    assert!(has(&claim, "拾取物品：小回复药 x3"));
}

#[test]
fn beasts_are_listed_with_their_commands() {
    let document = soul_beasts_document(&SoulBeastPage {
        map_name: text("落日森林"),
        page: 2,
        page_count: 3,
        total: 20,
        entries: vec![beast()],
    });
    assert_eq!(lines(&document)[0], "== 可挑战魂兽 · 落日森林 ==");
    assert!(has(&document, "页码：2 / 3"));
    assert!(has(&document, "#7 · 史莱姆 · 10年 · Lv.1"));
    assert!(has(
        &document,
        "生命 80 · 攻击 5 · 防御 3 · 经验 20 · 掉落 小回复药 x1"
    ));
    for command in ["- 挑战 史莱姆", "- 魂兽 1", "- 魂兽 3", "- 位置", "- 战斗状态"] {
        assert!(has(&document, command), "{command}");
    }
    let empty = soul_beasts_document(&SoulBeastPage {
        map_name: text("圣魂村"),
        page: 1,
        page_count: 1,
        total: 0,
        entries: Vec::new(),
    });
    assert!(has(&empty, "当前地图没有达到等级要求的魂兽"));
}

#[test]
fn battles_are_told_by_how_they_went() {
    let title = |kind: &str, status: &str, replayed: bool| {
        lines(&battle_action_document(&action(kind, status, replayed), None))[0].clone()
    };
    assert_eq!(title("challenge", "active", false), "== 战斗开始 ==");
    assert_eq!(title("attack", "active", false), "== 攻击结算 ==");
    assert_eq!(title("attack", "won", false), "== 战斗胜利 ==");
    assert_eq!(title("attack", "defeated", true), "== 战斗失败回执 ==");
    let document = battle_action_document(&action("attack", "active", false), None);
    assert!(has(&document, "对手：史莱姆 · 10年"));
    assert!(has(&document, "玩家生命：100 → 90/100"));
    assert!(has(&document, "魂兽生命：80 → 60/80"));
    assert!(has(&document, "武魂战斗修正：攻击 110% · 防御 95%"));
    assert!(has(&document, "你造成 20 点暴击伤害"));
    assert!(has(&document, "魂兽反击造成 10 点伤害"));
    assert!(!document.has_illustration());

    let snapshot = battle_snapshot_document(&battle(), "战斗状态", None);
    assert_eq!(lines(&snapshot)[0], "== 战斗状态 ==");
    let log = battle_log_document(
        &BattleLog {
            battle: battle(),
            events: vec![event("attack", "active")],
        },
        None,
    );
    assert!(render_text(&log).contains("伤害 20/10"));
}

#[test]
fn rings_and_skills_are_listed() {
    let document = soul_rings_document(&SoulRingPage {
        rings: vec![OwnedSoulRing {
            ring_index: 1,
            ring: ring(),
        }],
        ring_capacity: 9,
        pending: vec![SoulRingDrop { ring: ring() }],
    });
    assert!(has(&document, "魂环槽位：1/9"));
    assert!(has(&document, "魂技：蓝银缠绕"));
    assert!(has(&document, "史莱姆 · 史莱姆魂环 · 10年"));
    assert!(has(&document, "- 吸收魂环 史莱姆"));
    let absorbed = absorb_soul_ring_document(&SoulRingAbsorbReceipt {
        replayed: false,
        ring: OwnedSoulRing {
            ring_index: 2,
            ring: ring(),
        },
        skill: skill(),
    });
    assert_eq!(lines(&absorbed)[0], "== 魂环吸收成功 ==");
    assert!(has(&absorbed, "魂环槽位：第2魂环"));
    let none = skills_document(
        &SkillPage {
            soul_power: 50,
            max_soul_power: 50,
            entries: Vec::new(),
        },
        &Vec::new(),
    );
    assert!(has(&none, "你还没有学习任何魂技"));
    let loadout = skill_loadout_document(&SkillLoadoutReceipt {
        replayed: false,
        equipped: false,
        skill: skill(),
        equipped_count: 0,
        capacity: 4,
    });
    assert_eq!(lines(&loadout)[0], "== 魂技卸下成功 ==");
}

#[test]
fn skills_are_shown_to_those_who_learned_them() {
    let rules = ProficiencyRules {
        max_level: 10,
        max_proficiency: 1000,
        next_threshold: Some(100),
    };
    assert!(
        skill_detail_reply("蓝银缠绕", &None, rules, Ok(100))
            .is_err_and(|reason| reason == "你尚未学习魂技“蓝银缠绕”")
    );
    let detail = SkillDetail {
        entry: SkillEntry {
            skill: skill(),
            level: 1,
            proficiency: 5,
            equipped: true,
        },
        effects: Vec::new(),
    };
    assert!(skill_detail_reply("蓝银缠绕", &Some(detail.clone()), rules, Err(text("坏")))
        .is_err_and(|reason| reason == "坏"));
    let shown = skill_detail_reply("蓝银缠绕", &Some(detail), rules, Ok(105)).expect("应展示");
    assert!(has(&shown, "魂环：第1魂技"));
    assert!(has(&shown, "装备状态：已装备"));
    assert!(has(&shown, "等级伤害倍率：105%"));
    assert_eq!(shown_balance(None), 0);
    assert_eq!(shown_balance(Some(7)), 7);
}

#[test]
fn new_players_and_spirits_are_welcomed() {
    let service = GameService::with_assets(PluginConfig::default(), IllustrationAssets::default());
    let player = PlayerStatus {
        name: text("唐小三"),
        gender: text("男"),
        level: 1,
        exp: 0,
        hp: 100,
        max_hp: 100,
        soul_power: 50,
        max_soul_power: 50,
        wuhun_name: None,
        wuhun_category: None,
        wuhun_enabled: None,
        wuhun_stability: None,
        wuhun_max_stability: None,
        map_name: text("圣魂村"),
        life_count: 1,
        state: text("alive"),
    };
    assert!(render_text(&service.register_document(&player)).contains("唐小三"));
    let awakened = service.awaken_document(&WuhunRecord {
        name: text("独狼"),
        category: text("beast"),
        form: text("狼形"),
        description: text("孤独的狼"),
    });
    assert!(render_text(&awakened).contains("独狼"));
    let opened = service.wuhun_toggle_document(
        &WuhunToggleReceipt {
            state: WuhunState {
                name: text("独狼"),
                enabled: true,
                stability: 90,
                max_stability: 100,
            },
            replayed: false,
        },
        true,
    );
    assert!(render_text(&opened).contains("90/100"));
    assert!(service.battle_logs_reply(&None).is_err());
}

#[test]
fn commands_ask_for_what_their_arguments_say() {
    let service = GameService::with_assets(PluginConfig::default(), IllustrationAssets::default());
    let request = |command: &str, args: &str| CommandRequest {
        args: text(args),
        command_name: text(command),
        sender_id: text("player"),
        group_id: String::new(),
        raw_event_json: text(r#"{"self_id":"10001"}"#),
        sender_nickname: String::new(),
        message_id: text("m"),
        timestamp: 0,
    };
    let named = |result: Result<(String, douluo_game::game::Mutation), String>| {
        result.map(|(name, mutation)| (name, mutation.operation.command))
    };
    assert_eq!(
        named(service.absorb_soul_ring(&request("吸收魂环", "史莱姆"))),
        Ok((text("史莱姆"), text("吸收魂环")))
    );
    assert_eq!(
        named(service.submit_quest(&request("提交任务", "初入圣魂村"))),
        Ok((text("初入圣魂村"), text("提交任务")))
    );
    assert_eq!(
        named(service.abandon_quest(&request("放弃任务", "初入圣魂村"))),
        Ok((text("初入圣魂村"), text("放弃任务")))
    );
    assert_eq!(
        named(service.use_skill(&request("释放技能", "蓝银缠绕"))),
        Ok((text("蓝银缠绕"), text("释放技能")))
    );
    assert_eq!(
        named(service.use_item(&request("使用", "小回复药"))),
        Ok((text("小回复药"), text("使用")))
    );
    assert_eq!(
        named(service.equip_skill(&request("装备魂技", ""))),
        Err(text("用法：装备魂技 <魂技>"))
    );
    assert_eq!(
        named(service.unequip_skill(&request("卸下魂技", ""))),
        Err(text("用法：卸下魂技 <魂技>"))
    );
    assert_eq!(
        service
            .pick_up_ground_drop(&request("拾取", "42"))
            .map(|(id, _)| id),
        Ok(42)
    );
    assert!(service.battle_logs(&request("战斗日志", "")).is_ok());
    assert_eq!(
        service.list_contexts(&request("查看授权", "12")).map(|(at, _)| at),
        Ok(Some(12))
    );
    for result in [
        service.awaken(&request("武魂觉醒", "")),
        service.open_wuhun(&request("开武魂", "")),
        service.close_wuhun(&request("关武魂", "")),
        service.attack(&request("攻击", "")),
        service.flee(&request("逃跑", "")),
        service.record_operation(&request("状态", ""), "denied"),
    ] {
        assert_eq!(result.expect("应接受").key.subject_id, "player");
    }
    assert_eq!(
        service.attack(&request("攻击", "两次")).map(|_| ()),
        Err(text("用法：攻击"))
    );
}
