//! Commands of the game: what they ask of the store, and what they answer.
use douluo_game::assets::IllustrationAssets;
use douluo_game::catalog::binding;
use douluo_game::config::{AuthorizationMode, IllustrationMode, PluginConfig};
use douluo_game::economy_documents::{
    bought_document, ground_drops_document, inventory_document, npcs_document, shop_document,
    sold_document, talk_document, used_item_document,
};
use douluo_game::game::{
    authorization_verdict, current_unix_timestamp, AuthorizationStep, GameService,
};
use douluo_game::game_replies::{map_list_reply, wallet_reply};
use douluo_game::host::{CommandRequest, CommandResponse};
use douluo_game::message::{render_markdown, render_text, response_for, GameDocument, Protocol};
use douluo_game::owner_documents::{
    claim_legacy_document, grant_context_document, inspect_legacy_document, list_contexts_document,
    revoke_context_document,
};
use douluo_game::player_documents::daily_checkin_document;
use douluo_game::quest_documents::{
    quest_action_document, quest_progress_document, quests_document,
};
use douluo_game::records::{
    AuthorizedContext, AuthorizedContextChange, AuthorizedContextPage, DailyCheckinReceipt,
    DailyCheckinResult, ExperienceChange, GroundDropPage, InventoryEntry, InventoryPage,
    ItemRecord, ItemUseReceipt, LegacyClaimResult, LegacyIdentityState, MapExit, MapPage,
    MapRecord, MapTravelReceipt, NpcPage, NpcRecord, PlayerStatus, QuestActionReceipt,
    QuestListEntry, QuestPage, QuestRecord, QuestRequirement, QuestReward, ShopEntry, ShopPage,
    TradeReceipt,
};
use serde_json::Value;

const EVENT: &str = r#"{"self_id":"10001","qimen_context":{"version":1,"protocol":"onebot11","account_id":"10001"}}"#;

fn text(value: &str) -> String {
    value.to_string()
}

fn command_request(command: &str, args: &str, message_id: &str) -> CommandRequest {
    CommandRequest {
        args: text(args),
        command_name: text(command),
        sender_id: text("economy-user"),
        group_id: String::new(),
        raw_event_json: text(EVENT),
        sender_nickname: text("经济测试"),
        message_id: text(message_id),
        timestamp: 0,
    }
}

fn service() -> GameService {
    GameService::with_assets(PluginConfig::default(), IllustrationAssets::default())
}

fn remote_service() -> GameService {
    let mut config = PluginConfig::default();
    config.illustrations.mode = IllustrationMode::Remote;
    config.illustrations.remote_base_url = text("https://media.example.com/douluo");
    GameService::with_assets(config, IllustrationAssets::default())
}

fn segments(response: &CommandResponse) -> Value {
    match response {
        CommandResponse::Rich(segments) => serde_json::from_str(segments).expect("消息段应为 JSON"),
        _ => panic!("应返回消息段"),
    }
}

fn player(name: &str, map_name: &str) -> PlayerStatus {
    PlayerStatus {
        name: text(name),
        gender: text("男"),
        level: 1,
        exp: 0,
        hp: 100,
        max_hp: 100,
        soul_power: 50,
        max_soul_power: 50,
        wuhun_name: None,
        wuhun_category: None,
        wuhun_enabled: None,
        wuhun_stability: None,
        wuhun_max_stability: None,
        map_name: text(map_name),
        life_count: 1,
        state: text("alive"),
    }
}

fn map(name: &str, level_required: i64) -> MapRecord {
    MapRecord {
        name: text(name),
        description: text("宁静的村庄"),
        level_required,
        safe: true,
        pvp_enabled: false,
        teleport_enabled: true,
    }
}

fn exits() -> Vec<MapExit> {
    vec![
        MapExit {
            travel_kind: text("walk"),
            direction: Some(text("north")),
            target: map("天斗帝国主城", 1),
        },
        MapExit {
            travel_kind: text("walk"),
            direction: Some(text("south")),
            target: map("西尔维斯", 1),
        },
        MapExit {
            travel_kind: text("teleport"),
            direction: None,
            target: map("新手村", 1),
        },
    ]
}

fn potion() -> ItemRecord {
    ItemRecord {
        name: text("小回复药"),
        quality: 1,
        sell_price: 5,
        effect_kind: text("restore_hp"),
        effect_amount: 50,
        revive_hp_percent: 0,
        description: text("恢复少量生命"),
    }
}

fn merchant() -> NpcRecord {
    NpcRecord {
        name: text("杂货商人"),
        map_name: text("圣魂村"),
        npc_kind: text("merchant"),
        dialogue: text("这里有旅途中用得上的药剂"),
        description: text("贩卖药剂的商人"),
        has_shop: true,
    }
}

#[test]
fn daily_checkin_command_persists_once_and_renders_duplicate_without_regranting() {
    let service = service();
    let initial_wallet = render_text(&wallet_reply(Some(0)).expect("未签到角色应能查询零余额"));
    assert!(initial_wallet.contains("金魂币：0"));
    assert!(service
        .wallet(&command_request("钱包", "extra", "wallet-invalid"))
        .is_err());

    let (input, mutation) = service
        .daily_checkin(&command_request("签到", "", "checkin-first"), Ok(20 * 3_600))
        .expect("首签应成功");
    assert_eq!(input.game_day, 1);
    assert_eq!(input.currency_code, "gold_soul_coin");
    assert_eq!(input.currency_reward_override, None);
    assert_eq!(mutation.operation.command, "签到");

    let receipt = DailyCheckinReceipt {
        currency_code: text("gold_soul_coin"),
        cycle_day: 1,
        exp_reward: 60,
        currency_reward: 120,
        total_claims: 1,
        streak_days: 1,
        title_after: text("魂士"),
        exp_after: 60,
        currency_balance_after: 120,
        levels_gained: 0,
        level_before: 1,
    };
    let first = render_text(
        &daily_checkin_document(&DailyCheckinResult::Claimed(receipt.clone())).expect("首签应成功"),
    );
    assert!(first.contains("结果：签到成功"));
    assert!(first.contains("经验奖励：+60"));
    assert!(first.contains("金魂币奖励：+"));

    let wallet = render_text(&wallet_reply(Some(120)).expect("签到后应能查询余额"));
    assert!(wallet.contains("金魂币："));
    assert!(wallet.contains("当前展示签到使用的金魂币余额"));

    let duplicate = render_text(
        &daily_checkin_document(&DailyCheckinResult::AlreadyClaimed(receipt))
            .expect("同日重复应返回领取凭据"),
    );
    assert!(duplicate.contains("结果：今日已签到"));
    assert!(duplicate.contains("（已领取）"));
    assert!(!duplicate.contains("经验奖励：+"));
    assert!(service
        .daily_checkin(&command_request("签到", "extra", "checkin-invalid"), Ok(0))
        .is_err());
}

#[test]
fn allowlist_gates_game_commands_per_bot_context_but_not_private_chat() {
    let mut config = PluginConfig::default();
    config.authorization.mode = AuthorizationMode::Allowlist;
    let service = GameService::with_assets(config, IllustrationAssets::default());
    let request = |command: &str, args: &str, group_id: &str, sender_id: &str| CommandRequest {
        args: text(args),
        command_name: text(command),
        sender_id: text(sender_id),
        group_id: text(group_id),
        raw_event_json: text(
            r#"{"self_id":10001,"qimen_context":{"version":1,"protocol":"onebot11","account_id":"10001"}}"#,
        ),
        sender_nickname: String::new(),
        message_id: text("message-auth"),
        timestamp: 0,
    };
    let group_request = request("状态", "", "group-1", "player-user");
    match service
        .ensure_context_authorized(&group_request)
        .expect("群聊应询问授权")
    {
        AuthorizationStep::Ask { kind, id, .. } => {
            assert_eq!((kind, id.as_str()), ("group", "group-1"));
            assert!(authorization_verdict(kind, false).is_err());
            assert!(authorization_verdict(kind, true).is_ok());
        }
        _ => panic!("群聊应询问授权"),
    }
    assert!(matches!(
        service.ensure_context_authorized(&request("状态", "", "", "player-user")),
        Ok(AuthorizationStep::Allowed)
    ));

    let grant = request("授权上下文", "group group-1 测试群", "", "owner-user");
    let ((kind, id, label), _) = service.grant_context(&grant).expect("应授权");
    assert_eq!(
        (kind.as_str(), id.as_str(), label.as_str()),
        ("group", "group-1", "测试群")
    );
    assert!(grant_context_document(&kind, &id, &label, AuthorizedContextChange::Granted).is_ok());
    let listed = render_text(&list_contexts_document(
        AuthorizationMode::Allowlist,
        &AuthorizedContextPage {
            entries: vec![AuthorizedContext {
                id: 1,
                context_kind: kind,
                context_id: id,
                label,
            }],
            next_after_id: None,
        },
    ));
    assert!(listed.contains("group-1"));
    assert!(listed.contains("测试群"));

    let revoke = request("取消授权", "group group-1 确认", "", "owner-user");
    let ((kind, id), _) = service.revoke_context(&revoke).expect("应取消授权");
    assert!(revoke_context_document(&kind, &id, AuthorizedContextChange::Revoked).is_ok());
}

#[test]
fn legacy_owner_workflow_uses_current_resolved_account() {
    let service = service();
    let request = |args: &str| CommandRequest {
        args: text(args),
        command_name: text("旧档检查"),
        sender_id: text("owner-user"),
        group_id: String::new(),
        raw_event_json: text(
            r#"{"self_id":"0010001","qimen_context":{"version":1,"protocol":"onebot11","account_id":"0010001"}}"#,
        ),
        sender_nickname: String::new(),
        message_id: text("message-1"),
        timestamp: 0,
    };

    let (identity, target) = service
        .inspect_legacy(&request("legacy-user"))
        .expect("缺失旧档也应返回检查结果");
    assert_eq!(target.subject_id, "legacy-user");
    let inspection_text = render_text(&inspect_legacy_document(
        identity.protocol,
        &identity.account_id,
        &target.subject_id,
        LegacyIdentityState::Missing,
    ));
    assert!(inspection_text.contains("当前账号：0010001"));
    assert!(inspection_text.contains("状态：未找到"));

    assert!(service
        .claim_legacy(&request("legacy-user 10001 确认"))
        .expect_err("确认账号不一致必须拒绝")
        .contains("不一致"));
    let claim = service
        .claim_legacy(&request("legacy-user 0010001 确认"))
        .expect("正确确认应被接受");
    assert_eq!(claim.identity.account_id, "0010001");
    let result = claim_legacy_document(
        claim.identity.protocol,
        &claim.identity.account_id,
        "legacy-user",
        LegacyClaimResult::NotFound,
    );
    assert!(render_text(&result).contains("结果：未找到"));
}

#[test]
fn operation_log_records_only_bounded_command_metadata() {
    let request = CommandRequest {
        args: text("唐小三 男"),
        command_name: text("开始穿越"),
        sender_id: text("user-log"),
        group_id: text("group-log"),
        raw_event_json: text(
            r#"{"self_id":10001,"qimen_context":{"version":1,"protocol":"onebot11","account_id":"10001"},"message":"secret raw body"}"#,
        ),
        sender_nickname: text("private nickname"),
        message_id: text("message-log"),
        timestamp: 0,
    };
    let ((name, gender), mutation) = service().register(&request).expect("角色应可创建");
    assert_eq!((name.as_str(), gender.as_str()), ("唐小三", "男"));
    let entry = mutation.operation;
    assert_eq!(entry.command, "开始穿越");
    assert_eq!(entry.outcome, "ok");
    assert_eq!(entry.source_message_id, "message-log");
    assert_eq!(entry.details_json, r#"{"context":"group","has_args":true}"#);
    for secret in [
        "唐小三",
        "secret raw body",
        "private nickname",
        "raw_event_json",
    ] {
        assert!(!entry.details_json.contains(secret));
    }
}

#[test]
fn menu_document_renders_page_navigation_without_future_commands() {
    let service = service();
    let first = render_text(&service.menu("").expect("第一页应有效"));
    assert!(first.contains("开始穿越 <角色名> <男|女>：创建你的斗罗大陆角色"));
    assert!(first.contains("斗罗系统 2"));
    assert!(!first.contains("地图"));

    let second = render_text(&service.menu("2").expect("第二页应有效"));
    assert!(second.contains("武魂觉醒：觉醒第一武魂"));
    assert!(second.contains("状态：查看角色属性、武魂和位置"));
    assert!(second.contains("技能：查看已学习魂技和魂力消耗"));
    assert!(second.contains("签到：领取每日经验和金魂币"));
    assert!(second.contains("钱包：查看金魂币余额"));
    assert!(second.contains("斗罗系统 1"));
    assert!(second.contains("斗罗系统 3"));

    let third = render_text(&service.menu("世界").expect("世界页应有效"));
    assert!(third.contains("位置：查看当前地图"));
    assert!(third.contains("掉落 [页码]：查看当前地图可拾取的地面掉落"));
    assert!(third.contains("拾取 <掉落ID>：拾取当前地图的一整堆物品"));
    assert!(third.contains("斗罗系统 2"));
    assert!(third.contains("斗罗系统 4"));

    let fourth = render_text(&service.menu("经济").expect("经济页应有效"));
    assert!(fourth.contains("NPC：查看当前地图的 NPC"));
    assert!(fourth.contains("购买 <物品> [数量]：从当前商店购买物品"));
    assert!(fourth.contains("使用 <物品>：使用背包中的消耗品"));
    assert!(fourth.contains("斗罗系统 3"));

    let fifth = render_text(&service.menu("任务").expect("任务页应有效"));
    assert!(fifth.contains("任务 [页码]：查看当前地图可接取的任务"));
    assert!(fifth.contains("提交任务 <任务>：提交已完成任务并领取奖励"));
    assert!(fifth.contains("斗罗系统 4"));

    let sixth = render_text(&service.menu("战斗").expect("战斗页应有效"));
    assert!(sixth.contains("魂兽 [页码]：查看当前地图可挑战的魂兽"));
    assert!(sixth.contains("挑战 <魂兽>：发起一场魂兽挑战"));
    assert!(sixth.contains("攻击：按武魂修正进行普通攻击并承受魂兽反击"));
    assert!(sixth.contains("斗罗系统 5"));
}

#[test]
fn economy_commands_render_the_complete_npc_shop_inventory_flow() {
    let service = service();
    let drops = render_text(&ground_drops_document(
        &GroundDropPage {
            map_name: text("圣魂村"),
            page: 1,
            page_count: 1,
            total: 0,
            entries: Vec::new(),
        },
        1,
    ));
    assert!(drops.contains("当前地图没有可拾取的地面掉落"));

    let npcs = render_text(&npcs_document(&NpcPage {
        map_name: text("圣魂村"),
        entries: vec![
            NpcRecord {
                name: text("村长"),
                has_shop: false,
                ..merchant()
            },
            merchant(),
        ],
    }));
    assert!(npcs.contains("村长"));
    assert!(npcs.contains("杂货商人"));

    let (name, _) = service
        .talk(&command_request("对话", "杂货商人", "economy-talk"))
        .expect("应与商人对话");
    assert_eq!(name, "杂货商人");
    let talk = render_text(&talk_document(&merchant()));
    assert!(talk.contains("这里有旅途中用得上的药剂"));
    assert!(talk.contains("商店"));

    let shop_document = shop_document(
        &ShopPage {
            npc: merchant(),
            page: 1,
            page_count: 1,
            total: 2,
            entries: vec![
                ShopEntry {
                    item: potion(),
                    price: 10,
                    stock: None,
                },
                ShopEntry {
                    item: ItemRecord {
                        name: text("魂力恢复药"),
                        ..potion()
                    },
                    price: 20,
                    stock: Some(3),
                },
            ],
        },
        1,
    );
    let shop = render_text(&shop_document);
    assert!(shop.contains("小回复药 · 10 金魂币"));
    assert!(shop.contains("魂力恢复药"));
    let markdown = render_markdown(&shop_document, None);
    assert!(markdown.contains("# 杂货商人的商店"));
    assert!(markdown.contains("购买 \\<物品\\> \\[数量\\]"));

    let ((item, quantity), _) = service
        .buy(&command_request("购买", "小回复药 2", "economy-buy"))
        .expect("应购买恢复药");
    assert_eq!((item.as_str(), quantity), ("小回复药", 2));
    let purchase = render_text(&bought_document(&TradeReceipt {
        npc_name: text("杂货商人"),
        item: potion(),
        quantity: 2,
        total_price: 20,
        balance_after: 100,
        inventory_after: 2,
    }));
    assert!(purchase.contains("小回复药 x2"));
    assert!(purchase.contains("20 金魂币"));

    let inventory = render_text(&inventory_document(
        &InventoryPage {
            page: 1,
            page_count: 1,
            total: 1,
            entries: vec![InventoryEntry {
                item: potion(),
                quantity: 2,
            }],
        },
        100,
        1,
    ));
    assert!(inventory.contains("小回复药 x2"));
    assert!(inventory.contains("恢复 50 点生命"));

    let full = render_text(&used_item_document(&ItemUseReceipt {
        item: potion(),
        inventory_after: 2,
        hp_before: 100,
        hp_after: 100,
        max_hp: 100,
        soul_power_before: 50,
        soul_power_after: 50,
        max_soul_power: 50,
        wuhun_enabled: None,
        wuhun_stability_before: None,
        wuhun_stability_after: None,
        wuhun_max_stability: None,
        consumed: false,
    }));
    assert!(full.contains("当前属性已满，物品未消耗"));
    assert!(full.contains("背包数量：2"));

    let ((item, quantity), _) = service
        .sell(&command_request("出售", "小回复药-1", "economy-sell"))
        .expect("旧横线格式应可出售");
    assert_eq!((item.as_str(), quantity), ("小回复药", 1));
    let sale = render_text(&sold_document(&TradeReceipt {
        npc_name: text("杂货商人"),
        item: potion(),
        quantity: 1,
        total_price: 5,
        balance_after: 105,
        inventory_after: 1,
    }));
    assert!(sale.contains("小回复药 x1"));
    assert!(sale.contains("背包数量：1"));
}

#[test]
fn location_requires_a_player_and_uses_the_current_map_illustration() {
    let service = remote_service();
    let request = CommandRequest {
        args: String::new(),
        command_name: text("位置"),
        sender_id: text("user-location"),
        group_id: String::new(),
        raw_event_json: text(r#"{"post_type":"message","self_id":10001}"#),
        sender_nickname: String::new(),
        message_id: String::new(),
        timestamp: 0,
    };
    assert!(service.location_reply(&None, &None, &Vec::new()).is_err());
    assert_eq!(
        service.location(&request).expect("位置应可查询").subject_id,
        "user-location"
    );
    let location = service
        .location_reply(
            &Some(player("唐小三", "圣魂村")),
            &Some(map("圣魂村", 1)),
            &exits(),
        )
        .expect("位置应可查询");
    let shown = render_text(&location);
    assert!(shown.contains("当前位置 · 圣魂村"));
    assert!(shown.contains("角色：唐小三"));
    assert!(location.has_illustration());

    let response = response_for(
        &request,
        &location,
        service.message_config(),
        service.illustration_config(),
    );
    assert_eq!(
        segments(&response)[1]["data"]["file"],
        "https://media.example.com/douluo/media/maps/holy-soul-village/cover.webp"
    );

    let direct = GameService::with_assets(PluginConfig::default(), IllustrationAssets::default());
    let direct_location = direct
        .location_reply(
            &Some(player("唐小三", "圣魂村")),
            &Some(map("圣魂村", 1)),
            &exits(),
        )
        .expect("direct 位置应可查询");
    assert!(!direct_location.has_illustration());
    assert!(render_text(&direct_location).contains("圣魂村"));

    let invalid_request = CommandRequest {
        args: text("多余参数"),
        ..request
    };
    assert_eq!(
        service.location(&invalid_request),
        Err(text("用法：位置"))
    );
}

#[test]
fn map_list_move_and_teleport_render_from_world_contract() {
    let service = remote_service();
    let location = render_text(
        &service
            .location_reply(
                &Some(player("旅行者", "圣魂村")),
                &Some(map("圣魂村", 1)),
                &exits(),
            )
            .expect("位置应可查询"),
    );
    assert!(location.contains("方向：上：天斗帝国主城"));
    assert!(location.contains("下：西尔维斯"));
    assert!(location.contains("传送阵：可用"));

    let traveller = Some(player("旅行者", "圣魂村"));
    let first_page = render_text(
        &map_list_reply(
            &traveller,
            &MapPage {
                page: 1,
                page_count: 2,
                total: 11,
                entries: vec![map("圣魂村", 1)],
            },
            1,
        )
        .expect("地图第一页应可查询"),
    );
    assert!(first_page.contains("页码：1 / 2"));
    assert!(first_page.contains("圣魂村 · Lv.1"));
    assert!(first_page.contains("地图列表 2"));
    let second_page = render_text(
        &map_list_reply(
            &traveller,
            &MapPage {
                page: 2,
                page_count: 2,
                total: 11,
                entries: vec![map("星斗中心", 20)],
            },
            2,
        )
        .expect("地图第二页应可查询"),
    );
    assert!(second_page.contains("星斗中心 · Lv.20"));
    assert!(second_page.contains("等级不足"));

    let (direction, mutation) = service
        .move_direction(&command_request("向", "上", "world-move"))
        .expect("向上应成功移动");
    assert_eq!(direction, "上");
    assert_eq!(mutation.operation.command, "向");
    let moved = service.transition_document(
        &MapTravelReceipt {
            from: map("圣魂村", 1),
            to: map("天斗帝国主城", 1),
            travel_kind: text("walk"),
        },
        &Vec::new(),
        "移动成功",
    );
    let moved_text = render_text(&moved);
    assert!(moved_text.contains("当前位置 · 天斗帝国主城"));
    assert!(moved_text.contains("结果：移动成功"));
    assert!(moved.has_illustration());

    let (target, mutation) = service
        .teleport(&command_request("传送", "圣魂村", "world-teleport"))
        .expect("应传送回圣魂村");
    assert_eq!(target.as_deref(), Some("圣魂村"));
    assert_eq!(mutation.operation.command, "传送");
    let teleported = service.transition_document(
        &MapTravelReceipt {
            from: map("天斗帝国主城", 1),
            to: map("圣魂村", 1),
            travel_kind: text("teleport"),
        },
        &exits(),
        "传送成功",
    );
    let teleported_text = render_text(&teleported);
    assert!(teleported_text.contains("当前位置 · 圣魂村"));
    assert!(teleported_text.contains("结果：传送成功"));
    assert!(teleported.has_illustration());
}

#[test]
fn menu_and_wuhun_documents_carry_stable_asset_keys() {
    let service = remote_service();
    assert!(service.menu("").expect("默认菜单页应有效").has_illustration());
    assert!(binding("wuhun", "独狼", "portrait").is_some());
    assert!(binding("wuhun", "不存在", "portrait").is_none());

    let request = CommandRequest {
        raw_event_json: text(r#"{"qqbot_payload":{"id":"message"}}"#),
        ..command_request("斗罗系统", "", "")
    };
    let response = response_for(
        &request,
        &service.menu("").expect("默认菜单页应有效"),
        service.message_config(),
        service.illustration_config(),
    );
    assert!(segments(&response)[0]["data"]["content"]
        .as_str()
        .is_some_and(|content| content.contains("/media/maps/holy-soul-village/cover.webp")));
}

#[test]
fn direct_mode_uses_preloaded_asset_bytes() {
    let assets = IllustrationAssets::default()
        .with(
            "maps/holy-soul-village/cover.webp",
            b"RIFF\x04\x00\x00\x00WEBP".to_vec(),
        )
        .expect("本地资源应预加载");
    let service = GameService::with_assets(PluginConfig::default(), assets);
    let request = CommandRequest {
        group_id: text("group"),
        raw_event_json: text(r#"{"post_type":"message"}"#),
        ..command_request("斗罗系统", "", "")
    };
    let response = response_for(
        &request,
        &service.menu("").expect("默认菜单页应有效"),
        service.message_config(),
        service.illustration_config(),
    );
    let segments = segments(&response);
    assert_eq!(segments[0]["type"], "text");
    assert_eq!(segments[1]["type"], "image");
    assert!(segments[1]["data"]["file"]
        .as_str()
        .is_some_and(|source| source.starts_with("base64://")));
}

#[test]
fn direct_mode_does_not_fall_back_to_remote_base_url() {
    let mut config = PluginConfig::default();
    config.illustrations.remote_base_url = text("https://media.example.com/douluo");
    let service = GameService::with_assets(config, IllustrationAssets::default());
    assert!(!service.menu("").expect("默认菜单页应有效").has_illustration());
}

#[test]
fn task_commands_render_the_full_lifecycle() {
    let service = service();
    let quest = QuestRecord {
        id: 1,
        name: text("初入圣魂村"),
        description: text("与村长交谈"),
        level_required: 1,
    };
    let progress = vec![QuestRequirement {
        description: text("觉醒武魂"),
        current_amount: 1,
        required_quantity: 1,
    }];
    let rewards = vec![QuestReward {
        reward_kind: text("exp"),
        amount: 50,
        currency_code: None,
        item: None,
    }];
    let entry = QuestListEntry {
        quest: quest.clone(),
        status: Some(text("accepted")),
        progress: progress.clone(),
        rewards: rewards.clone(),
    };
    let list = render_text(&quests_document(
        &QuestPage {
            map_name: text("圣魂村"),
            page: 1,
            page_count: 1,
            total: 1,
            entries: vec![entry.clone()],
        },
        1,
    ));
    assert!(list.contains("初入圣魂村"));
    let (name, _) = service
        .accept_quest(&command_request("接取任务", "初入圣魂村", "task-accept"))
        .expect("应接取任务");
    assert_eq!(name, "初入圣魂村");
    let accepted = render_text(&quest_action_document(&QuestActionReceipt {
        replayed: false,
        action: text("接取任务"),
        quest: quest.clone(),
        progress: progress.clone(),
        rewards: rewards.clone(),
        experience: None,
        currency_balance_after: None,
    }));
    assert!(accepted.contains("接取任务成功"));
    let shown = render_text(&quest_progress_document(&vec![entry]));
    assert!(shown.contains("初入圣魂村"));
    let submitted = render_text(&quest_action_document(&QuestActionReceipt {
        replayed: false,
        action: text("提交任务"),
        quest,
        progress,
        rewards,
        experience: Some(ExperienceChange {
            exp_before: 0,
            exp_after: 50,
            level_before: 1,
            level_after: 1,
        }),
        currency_balance_after: None,
    }));
    assert!(submitted.contains("提交任务成功"));
    assert!(submitted.contains("经验"));
}

#[test]
fn requests_are_bound_to_the_resolved_player() {
    let service = service();
    let key = service
        .status(&command_request("状态", "", "status"))
        .expect("身份应解析");
    assert_eq!(key.protocol, Protocol::OneBot11);
    assert_eq!(key.account_id, "10001");
    assert_eq!(key.namespace, "default");
    assert_eq!(key.subject_kind, "user");
    assert_eq!(key.subject_id, "economy-user");
    let broken = CommandRequest {
        raw_event_json: text("{}"),
        ..command_request("状态", "", "status")
    };
    assert!(service.status(&broken).is_err());
}

#[test]
fn nobody_sends_gold_or_items_to_themselves() {
    let service = service();
    let transfer = |args: &str, mention: Option<&str>| {
        service.transfer_gold(
            &command_request("转账", args, "transfer"),
            Ok(mention.map(text)),
        )
    };
    let ((recipient, amount), _) = transfer("friend 12", None).expect("应可转账");
    assert_eq!((recipient.as_str(), amount), ("friend", 12));
    assert!(transfer("economy-user 12", None).is_err());
    assert!(transfer("12", Some("economy-user")).is_err());
    assert_eq!(
        service
            .transfer_gold(
                &command_request("转账", "12", "transfer"),
                Err(text("提及无效"))
            )
            .map(|_| ()),
        Err(text("提及无效"))
    );
    assert!(service
        .gift_item(
            &command_request("赠送", "economy-user 小回复药 1", "gift"),
            Ok(None)
        )
        .is_err());
    let ((recipient, item, quantity), _) = service
        .gift_item(
            &command_request("赠送", "friend 小回复药 2", "gift"),
            Ok(None),
        )
        .expect("应可赠送");
    assert_eq!(
        (recipient.as_str(), item.as_str(), quantity),
        ("friend", "小回复药", 2)
    );
}

#[test]
fn clocks_beyond_the_calendar_are_refused() {
    assert_eq!(current_unix_timestamp(7), Ok(7));
    assert!(current_unix_timestamp(u64::MAX).is_err());
    let service = service();
    assert_eq!(
        service
            .daily_checkin(
                &command_request("签到", "", "checkin"),
                Err(text("时钟损坏"))
            )
            .map(|_| ()),
        Err(text("时钟损坏"))
    );
}

#[test]
fn unknown_players_are_told_so() {
    let service = service();
    assert!(service
        .status_reply(&None, &None)
        .is_err_and(|reason| reason.contains("还没有角色")));
    assert!(wallet_reply(None).is_err());
    assert!(service.battle_status_reply(&None).is_err());
    let document: GameDocument = service
        .status_reply(&Some(player("唐小三", "圣魂村")), &None)
        .expect("角色应可展示");
    assert!(render_text(&document).contains("唐小三"));
}
