//! Replies about battles with soul beasts.
use crate::labels;
use crate::labels::{
    active_battle_skill_effect_label, battle_skill_effect_label, battle_skill_effect_short_label,
    battle_status_label, format_battle_event, skill_damage_modifier_label,
};
use crate::message;
use crate::message::{Document, GameDocument, Illustration, Picture};
use crate::records::{
    BattleActionReceipt, BattleEventRecord, BattleLog, BattleSkillEffectRecord, BattleSkillUse,
    BattleSnapshot, SkillProgressRecord, SoulBeastPage, SoulBeastRecord, SoulRingDrop,
};
use crate::text;
use crate::text::{cat2, cat3, cat4, cat5, cat6, cat7, i64_text, same, usize_text};
use vstd::prelude::*;

verus! {

/// The document with one soul beast.
pub open spec fn beast_entry(d: Document, beast: SoulBeastRecord) -> Document {
    d
        .line(
            "#"@ + text::integer(beast.id as int) + " · "@ + beast.name@ + " · "@
                + text::integer(beast.age as int) + "年 · Lv."@
                + text::integer(beast.level_required as int),
        )
        .line(
            "生命 "@ + text::integer(beast.max_hp as int) + " · 攻击 "@
                + text::integer(beast.attack as int) + " · 防御 "@
                + text::integer(beast.defense as int) + " · 经验 "@
                + text::integer(beast.exp_reward as int) + " · 掉落 "@ + beast.drop_item.name@
                + " x"@ + text::integer(beast.drop_quantity as int),
        )
        .line(beast.description@)
        .command("挑战 "@ + beast.name@)
}

fn add_beast_entry(document: GameDocument, beast: &SoulBeastRecord) -> (result: GameDocument)
    ensures
        result@ == beast_entry(document@, *beast),
{
    document
        .line(
            &cat2(
                &cat7(
                    "#",
                    &i64_text(beast.id),
                    " · ",
                    &beast.name,
                    " · ",
                    &i64_text(beast.age),
                    "年 · Lv.",
                ),
                &i64_text(beast.level_required),
            ),
        )
        .line(
            &cat6(
                &cat7(
                    "生命 ",
                    &i64_text(beast.max_hp),
                    " · 攻击 ",
                    &i64_text(beast.attack),
                    " · 防御 ",
                    &i64_text(beast.defense),
                    " · 经验 ",
                ),
                &i64_text(beast.exp_reward),
                " · 掉落 ",
                &beast.drop_item.name,
                " x",
                &i64_text(beast.drop_quantity),
            ),
        )
        .line(&beast.description)
        .command(&cat2("挑战 ", &beast.name))
}

/// The document with some soul beasts.
pub open spec fn beast_entries(d: Document, list: Seq<SoulBeastRecord>) -> Document
    decreases list.len(),
{
    if list.len() == 0 {
        d
    } else {
        beast_entry(beast_entries(d, list.drop_last()), list.last())
    }
}

fn add_beast_entries(
    document: GameDocument,
    list: &Vec<SoulBeastRecord>,
) -> (result: GameDocument)
    ensures
        result@ == beast_entries(document@, list@),
{
    let ghost start = document@;
    let mut document = document;
    let mut i: usize = 0;
    while i < list.len()
        invariant
            i <= list@.len(),
            document@ == beast_entries(start, list@.take(i as int)),
        decreases list@.len() - i,
    {
        assert(list@.take(i + 1).drop_last() =~= list@.take(i as int));
        document = add_beast_entry(document, &list[i]);
        i = i + 1;
    }
    assert(list@.take(i as int) =~= list@);
    document
}

/// The soul beasts that a player may challenge.
pub open spec fn soul_beasts(beasts: SoulBeastPage) -> Document {
    let d = message::titled("可挑战魂兽 · "@ + beasts.map_name@)
        .field(
            "页码"@,
            text::decimal(beasts.page as nat) + " / "@ + text::decimal(beasts.page_count as nat),
        )
        .field("魂兽数量"@, text::decimal(beasts.total as nat));
    let d = if beasts.entries@.len() == 0 {
        d.line("当前地图没有达到等级要求的魂兽"@)
    } else {
        beast_entries(d, beasts.entries@)
    };
    let d = if beasts.page > 1 {
        d.command("魂兽 "@ + text::decimal((beasts.page - 1) as nat))
    } else {
        d
    };
    let d = if beasts.page < beasts.page_count {
        d.command("魂兽 "@ + text::decimal((beasts.page + 1) as nat))
    } else {
        d
    };
    d.command("位置"@).command("战斗状态"@)
}

/// The soul beasts that a player may challenge.
pub fn soul_beasts_document(beasts: &SoulBeastPage) -> (document: GameDocument)
    ensures
        document@ == soul_beasts(*beasts),
{
    let document = GameDocument::new(&cat2("可挑战魂兽 · ", &beasts.map_name))
        .field("页码", &cat3(&usize_text(beasts.page), " / ", &usize_text(beasts.page_count)))
        .field("魂兽数量", &usize_text(beasts.total));
    let document = if beasts.entries.len() == 0 {
        document.line("当前地图没有达到等级要求的魂兽")
    } else {
        add_beast_entries(document, &beasts.entries)
    };
    let document = if beasts.page > 1 {
        document.command(&cat2("魂兽 ", &usize_text(beasts.page - 1)))
    } else {
        document
    };
    let document = if beasts.page < beasts.page_count {
        document.command(&cat2("魂兽 ", &usize_text(beasts.page + 1)))
    } else {
        document
    };
    document.command("位置").command("战斗状态")
}

/// The title of what happened in a battle.
pub open spec fn battle_title(event: BattleEventRecord) -> Seq<char> {
    if event.event_kind@ == "challenge"@ {
        "战斗开始"@
    } else if event.event_kind@ == "attack"@ {
        if event.status_after@ == "won"@ {
            "战斗胜利"@
        } else if event.status_after@ == "defeated"@ {
            "战斗失败"@
        } else {
            "攻击结算"@
        }
    } else if event.event_kind@ == "flee"@ {
        if event.flee_success == Some(true) {
            "逃跑成功"@
        } else {
            "逃跑失败"@
        }
    } else {
        "战斗回执"@
    }
}

fn title_of(event: &BattleEventRecord) -> (title: &'static str)
    ensures
        title@ == battle_title(*event),
{
    if same(&event.event_kind, "challenge") {
        "战斗开始"
    } else if same(&event.event_kind, "attack") {
        if same(&event.status_after, "won") {
            "战斗胜利"
        } else if same(&event.status_after, "defeated") {
            "战斗失败"
        } else {
            "攻击结算"
        }
    } else if same(&event.event_kind, "flee") {
        match event.flee_success {
            Some(true) => "逃跑成功",
            _ => "逃跑失败",
        }
    } else {
        "战斗回执"
    }
}

/// The document with what the use of a soul skill taught.
pub open spec fn skill_growth(d: Document, progress: SkillProgressRecord) -> Document {
    let d = d.field(
        "魂技熟练度"@,
        text::integer(progress.proficiency_before as int) + " → "@
            + text::integer(progress.proficiency_after as int) + "（+"@
            + text::integer(progress.proficiency_gain as int) + "）"@,
    );
    if progress.level_after > progress.level_before {
        d.field(
            "魂技升级"@,
            "Lv."@ + text::integer(progress.level_before as int) + " → Lv."@
                + text::integer(progress.level_after as int),
        )
    } else {
        d
    }
}

fn add_skill_growth(
    document: GameDocument,
    progress: &SkillProgressRecord,
) -> (result: GameDocument)
    ensures
        result@ == skill_growth(document@, *progress),
{
    let document = document.field(
        "魂技熟练度",
        &cat6(
            &i64_text(progress.proficiency_before),
            " → ",
            &i64_text(progress.proficiency_after),
            "（+",
            &i64_text(progress.proficiency_gain),
            "）",
        ),
    );
    if progress.level_after > progress.level_before {
        document.field(
            "魂技升级",
            &cat4(
                "Lv.",
                &i64_text(progress.level_before),
                " → Lv.",
                &i64_text(progress.level_after),
            ),
        )
    } else {
        document
    }
}

/// The document with an effect of the soul skill.
pub open spec fn skill_use_effect(d: Document, effect: BattleSkillEffectRecord) -> Document {
    d.field("附加效果"@, labels::lasting_effect(effect))
}

fn add_skill_use_effect(
    document: GameDocument,
    effect: &BattleSkillEffectRecord,
) -> (result: GameDocument)
    ensures
        result@ == skill_use_effect(document@, *effect),
{
    document.field("附加效果", &battle_skill_effect_label(effect))
}

/// The document with the effects of the soul skill.
pub open spec fn skill_use_effects(d: Document, list: Seq<BattleSkillEffectRecord>) -> Document
    decreases list.len(),
{
    if list.len() == 0 {
        d
    } else {
        skill_use_effect(skill_use_effects(d, list.drop_last()), list.last())
    }
}

fn add_skill_use_effects(
    document: GameDocument,
    list: &Vec<BattleSkillEffectRecord>,
) -> (result: GameDocument)
    ensures
        result@ == skill_use_effects(document@, list@),
{
    let ghost start = document@;
    let mut document = document;
    let mut i: usize = 0;
    while i < list.len()
        invariant
            i <= list@.len(),
            document@ == skill_use_effects(start, list@.take(i as int)),
        decreases list@.len() - i,
    {
        assert(list@.take(i + 1).drop_last() =~= list@.take(i as int));
        document = add_skill_use_effect(document, &list[i]);
        i = i + 1;
    }
    assert(list@.take(i as int) =~= list@);
    document
}

/// The document with the use of a soul skill.
pub open spec fn skill_use(d: Document, skill: BattleSkillUse) -> Document {
    let d = d
        .field("魂技"@, skill.skill.name@)
        .field(
            "魂力"@,
            text::integer(skill.soul_power_before as int) + " → "@
                + text::integer(skill.soul_power_after as int),
        )
        .field("魂技冷却"@, text::integer(skill.skill.cooldown_rounds as int) + " 回合"@)
        .field("等级伤害倍率"@, labels::damage_modifier(skill.damage_modifier));
    let d = match skill.progress {
        Some(progress) => {
            skill_growth(d, progress)
        },
        None => d,
    };
    skill_use_effects(d, skill.effects@)
}

fn add_skill_use(document: GameDocument, skill: &BattleSkillUse) -> (result: GameDocument)
    ensures
        result@ == skill_use(document@, *skill),
{
    let document = document
        .field("魂技", &skill.skill.name)
        .field(
            "魂力",
            &cat3(&i64_text(skill.soul_power_before), " → ", &i64_text(skill.soul_power_after)),
        )
        .field("魂技冷却", &cat2(&i64_text(skill.skill.cooldown_rounds), " 回合"))
        .field("等级伤害倍率", &skill_damage_modifier_label(&skill.damage_modifier));
    let document = match &skill.progress {
        Some(progress) => {
            add_skill_growth(document, progress)
        },
        None => document,
    };
    add_skill_use_effects(document, &skill.effects)
}

/// The document with what an attack did.
pub open spec fn attack_lines(
    d: Document,
    event: BattleEventRecord,
    skill: Option<BattleSkillUse>,
) -> Document {
    let d = match skill {
        Some(skill) => {
            d.line(
                "你释放"@ + skill.skill.name@ + "，造成 "@
                    + text::integer(event.player_damage as int) + " 点"@
                    + (if event.player_critical { "暴击"@ } else { ""@ }) + "伤害"@,
            )
        },
        None => {
            d.line(
                "你造成 "@ + text::integer(event.player_damage as int) + " 点"@
                    + (if event.player_critical { "暴击"@ } else { ""@ }) + "伤害"@,
            )
        },
    };
    if event.beast_damage > 0 {
        d.line(
            "魂兽反击造成 "@ + text::integer(event.beast_damage as int) + " 点"@
                + (if event.beast_critical { "暴击"@ } else { ""@ }) + "伤害"@,
        )
    } else {
        d
    }
}

fn add_attack_lines(
    document: GameDocument,
    event: &BattleEventRecord,
    skill: &Option<BattleSkillUse>,
) -> (result: GameDocument)
    ensures
        result@ == attack_lines(document@, *event, *skill),
{
    let document = match skill {
        Some(skill) => {
            document.line(
                &cat7(
                    "你释放",
                    &skill.skill.name,
                    "，造成 ",
                    &i64_text(event.player_damage),
                    " 点",
                    (if event.player_critical { "暴击" } else { "" }),
                    "伤害",
                ),
            )
        },
        None => {
            document.line(
                &cat5(
                    "你造成 ",
                    &i64_text(event.player_damage),
                    " 点",
                    (if event.player_critical { "暴击" } else { "" }),
                    "伤害",
                ),
            )
        },
    };
    if event.beast_damage > 0 {
        document.line(
            &cat5(
                "魂兽反击造成 ",
                &i64_text(event.beast_damage),
                " 点",
                (if event.beast_critical { "暴击" } else { "" }),
                "伤害",
            ),
        )
    } else {
        document
    }
}

/// The document with what an action did.
pub open spec fn action_lines(d: Document, receipt: BattleActionReceipt) -> Document {
    if receipt.event.event_kind@ == "challenge"@ {
        d.line(receipt.battle.beast.description@).line("魂兽会在你的每次行动后反击"@)
    } else {
        if receipt.event.event_kind@ == "attack"@ {
            attack_lines(d, receipt.event, receipt.skill)
        } else {
            if receipt.event.flee_success == Some(true) {
                d.line("你脱离了战斗，魂兽没有追击"@)
            } else {
                d.line(
                    "逃跑失败，魂兽反击造成 "@
                        + text::integer(receipt.event.beast_damage as int) + " 点"@
                        + (if receipt.event.beast_critical { "暴击"@ } else { ""@ }) + "伤害"@,
                )
            }
        }
    }
}

fn add_action_lines(
    document: GameDocument,
    receipt: &BattleActionReceipt,
) -> (result: GameDocument)
    ensures
        result@ == action_lines(document@, *receipt),
{
    if same(&receipt.event.event_kind, "challenge") {
        document.line(&receipt.battle.beast.description).line("魂兽会在你的每次行动后反击")
    } else {
        if same(&receipt.event.event_kind, "attack") {
            add_attack_lines(document, &receipt.event, &receipt.skill)
        } else {
            if receipt.event.flee_success == Some(true) {
                document.line("你脱离了战斗，魂兽没有追击")
            } else {
                document.line(
                    &cat5(
                        "逃跑失败，魂兽反击造成 ",
                        &i64_text(receipt.event.beast_damage),
                        " 点",
                        (if receipt.event.beast_critical { "暴击" } else { "" }),
                        "伤害",
                    ),
                )
            }
        }
    }
}

/// The document with an effect that ended.
pub open spec fn expired_effect(d: Document, effect: BattleSkillEffectRecord) -> Document {
    d.line("效果结束："@ + effect.skill_name@ + "（"@ + labels::battle_effect(effect) + "）"@)
}

fn add_expired_effect(
    document: GameDocument,
    effect: &BattleSkillEffectRecord,
) -> (result: GameDocument)
    ensures
        result@ == expired_effect(document@, *effect),
{
    document.line(
        &cat5(
            "效果结束：",
            &effect.skill_name,
            "（",
            &battle_skill_effect_short_label(effect),
            "）",
        ),
    )
}

/// The document with the effects that ended.
pub open spec fn expired_effects(d: Document, list: Seq<BattleSkillEffectRecord>) -> Document
    decreases list.len(),
{
    if list.len() == 0 {
        d
    } else {
        expired_effect(expired_effects(d, list.drop_last()), list.last())
    }
}

fn add_expired_effects(
    document: GameDocument,
    list: &Vec<BattleSkillEffectRecord>,
) -> (result: GameDocument)
    ensures
        result@ == expired_effects(document@, list@),
{
    let ghost start = document@;
    let mut document = document;
    let mut i: usize = 0;
    while i < list.len()
        invariant
            i <= list@.len(),
            document@ == expired_effects(start, list@.take(i as int)),
        decreases list@.len() - i,
    {
        assert(list@.take(i + 1).drop_last() =~= list@.take(i as int));
        document = add_expired_effect(document, &list[i]);
        i = i + 1;
    }
    assert(list@.take(i as int) =~= list@);
    document
}

/// The document with an effect that still lasts.
pub open spec fn lasting_effect_field(
    d: Document,
    effect: BattleSkillEffectRecord,
    sequence: i64,
) -> Document {
    d.field("生效中"@, labels::active_effect(effect, sequence))
}

fn add_lasting_effect_field(
    document: GameDocument,
    effect: &BattleSkillEffectRecord,
    sequence: i64,
) -> (result: GameDocument)
    ensures
        result@ == lasting_effect_field(document@, *effect, sequence),
{
    document.field("生效中", &active_battle_skill_effect_label(effect, sequence))
}

/// The document with the effects that still last.
pub open spec fn lasting_effect_fields(
    d: Document,
    list: Seq<BattleSkillEffectRecord>,
    sequence: i64,
) -> Document
    decreases list.len(),
{
    if list.len() == 0 {
        d
    } else {
        lasting_effect_field(
            lasting_effect_fields(d, list.drop_last(), sequence),
            list.last(),
            sequence,
        )
    }
}

fn add_lasting_effect_fields(
    document: GameDocument,
    list: &Vec<BattleSkillEffectRecord>,
    sequence: i64,
) -> (result: GameDocument)
    ensures
        result@ == lasting_effect_fields(document@, list@, sequence),
{
    let ghost start = document@;
    let mut document = document;
    let mut i: usize = 0;
    while i < list.len()
        invariant
            i <= list@.len(),
            document@ == lasting_effect_fields(start, list@.take(i as int), sequence),
        decreases list@.len() - i,
    {
        assert(list@.take(i + 1).drop_last() =~= list@.take(i as int));
        document = add_lasting_effect_field(document, &list[i], sequence);
        i = i + 1;
    }
    assert(list@.take(i as int) =~= list@);
    document
}

/// The document with the soul ring that a beast left behind.
pub open spec fn ring_left_behind(d: Document, drop: SoulRingDrop) -> Document {
    d
        .field("待吸收魂环"@, drop.ring.name@)
        .line(
            "可使用“吸收魂环 "@ + drop.ring.soul_beast_name@ + "”吸收并解锁魂技 "@
                + drop.ring.skill.name@,
        )
}

fn add_ring_left_behind(document: GameDocument, drop: &SoulRingDrop) -> (result: GameDocument)
    ensures
        result@ == ring_left_behind(document@, *drop),
{
    document
        .field("待吸收魂环", &drop.ring.name)
        .line(
            &cat4(
                "可使用“吸收魂环 ",
                &drop.ring.soul_beast_name,
                "”吸收并解锁魂技 ",
                &drop.ring.skill.name,
            ),
        )
}

/// The document with how the battle stands.
pub open spec fn battle_result(d: Document, receipt: BattleActionReceipt) -> Document {
    if receipt.event.status_after@ == "won"@ {
        let d = d
            .field("获得经验"@, text::integer(receipt.event.experience_awarded as int))
            .line("魂兽倒下，地面出现了新的掉落"@);
        let d = match receipt.soul_ring_drop {
            Some(drop) => {
                ring_left_behind(d, drop)
            },
            None => d,
        };
        d.notice(
            if receipt.replayed {
                "检测到相同消息的重复请求，已返回原战斗回执，未重复发放经验或掉落"@
            } else {
                "战斗状态、生命、经验、掉落、操作日志和战斗事件已在同一事务完成"@
            },
        )
    } else {
        if receipt.event.status_after@ == "defeated"@ {
            d
                .line("你被魂兽击败，系统将你救回到濒死状态"@)
                .notice("死亡与复活系统尚未开放，本阶段不会删除角色或扣除转生次数"@)
        } else {
            if receipt.replayed {
                d.notice("检测到相同消息的重复请求，已返回原战斗回执，未重复执行"@)
            } else {
                d.notice("本回合已在同一事务内结算，战斗快照可在热重载后继续"@)
            }
        }
    }
}

fn add_battle_result(
    document: GameDocument,
    receipt: &BattleActionReceipt,
) -> (result: GameDocument)
    ensures
        result@ == battle_result(document@, *receipt),
{
    if same(&receipt.event.status_after, "won") {
        let document = document
            .field("获得经验", &i64_text(receipt.event.experience_awarded))
            .line("魂兽倒下，地面出现了新的掉落");
        let document = match &receipt.soul_ring_drop {
            Some(drop) => {
                add_ring_left_behind(document, drop)
            },
            None => document,
        };
        document.notice(
            if receipt.replayed {
                "检测到相同消息的重复请求，已返回原战斗回执，未重复发放经验或掉落"
            } else {
                "战斗状态、生命、经验、掉落、操作日志和战斗事件已在同一事务完成"
            },
        )
    } else {
        if same(&receipt.event.status_after, "defeated") {
            document
                .line("你被魂兽击败，系统将你救回到濒死状态")
                .notice("死亡与复活系统尚未开放，本阶段不会删除角色或扣除转生次数")
        } else {
            if receipt.replayed {
                document.notice("检测到相同消息的重复请求，已返回原战斗回执，未重复执行")
            } else {
                document.notice("本回合已在同一事务内结算，战斗快照可在热重载后继续")
            }
        }
    }
}

/// The document with the loss of the martial soul.
pub open spec fn dropped_wuhun(d: Document, receipt: BattleActionReceipt) -> Document {
    match receipt.wuhun_effect {
        Some(effect) => {
            if effect.auto_dropped {
                if receipt.replayed {
                    d.notice(
                        "检测到相同消息的重复请求，已返回原回执；该回合武魂因稳定度过低自动脱落"@,
                    )
                } else {
                    if receipt.event.status_after@ == "defeated"@ {
                        d.notice(
                            "武魂因稳定度过低自动脱落；你已被救回濒死状态，死亡与复活系统尚未开放"@,
                        )
                    } else {
                        d.notice("武魂稳定度过低，武魂已自动脱落；结束战斗后可重新开启"@)
                    }
                }
            } else {
                d
            }
        },
        None => d,
    }
}

fn add_dropped_wuhun(
    document: GameDocument,
    receipt: &BattleActionReceipt,
) -> (result: GameDocument)
    ensures
        result@ == dropped_wuhun(document@, *receipt),
{
    match &receipt.wuhun_effect {
        Some(effect) => {
            if effect.auto_dropped {
                if receipt.replayed {
                    document.notice(
                        "检测到相同消息的重复请求，已返回原回执；该回合武魂因稳定度过低自动脱落",
                    )
                } else {
                    if same(&receipt.event.status_after, "defeated") {
                        document.notice(
                            "武魂因稳定度过低自动脱落；你已被救回濒死状态，死亡与复活系统尚未开放",
                        )
                    } else {
                        document.notice("武魂稳定度过低，武魂已自动脱落；结束战斗后可重新开启")
                    }
                }
            } else {
                document
            }
        },
        None => document,
    }
}

/// The document with what can be done next.
pub open spec fn battle_commands(d: Document, receipt: BattleActionReceipt) -> Document {
    if receipt.event.status_after@ == "active"@ {
        d
            .command("攻击"@)
            .command("释放技能 <魂技>"@)
            .command("逃跑"@)
            .command("战斗状态"@)
    } else {
        if receipt.event.status_after@ == "won"@ {
            let d = d
                .command("掉落"@)
                .command("魂兽"@)
                .command("魂环"@);
            match receipt.soul_ring_drop {
                Some(drop) => {
                    d.command("吸收魂环 "@ + drop.ring.soul_beast_name@)
                },
                None => d,
            }
        } else {
            d.command("魂兽"@).command("状态"@)
        }
    }
}

fn add_battle_commands(
    document: GameDocument,
    receipt: &BattleActionReceipt,
) -> (result: GameDocument)
    ensures
        result@ == battle_commands(document@, *receipt),
{
    if same(&receipt.event.status_after, "active") {
        document
            .command("攻击")
            .command("释放技能 <魂技>")
            .command("逃跑")
            .command("战斗状态")
    } else {
        if same(&receipt.event.status_after, "won") {
            let document = document
                .command("掉落")
                .command("魂兽")
                .command("魂环");
            match &receipt.soul_ring_drop {
                Some(drop) => {
                    document.command(&cat2("吸收魂环 ", &drop.ring.soul_beast_name))
                },
                None => document,
            }
        } else {
            document.command("魂兽").command("状态")
        }
    }
}

/// The outcome of an action in a battle.
pub open spec fn battle_action(
    receipt: BattleActionReceipt,
    picture: Option<Picture>,
) -> Document {
    let d = message::titled(battle_title(receipt.event) + (if receipt.replayed { "回执"@ } else { ""@ }))
        .field(
            "对手"@,
            receipt.battle.beast.name@ + " · "@
                + text::integer(receipt.battle.beast.age as int) + "年"@,
        )
        .field("回合"@, text::integer(receipt.event.sequence as int))
        .field(
            "玩家生命"@,
            text::integer(receipt.event.player_hp_before as int) + " → "@
                + text::integer(receipt.event.player_hp_after as int) + "/"@
                + text::integer(receipt.battle.player_max_hp as int),
        )
        .field(
            "魂兽生命"@,
            text::integer(receipt.event.beast_hp_before as int) + " → "@
                + text::integer(receipt.event.beast_hp_after as int) + "/"@
                + text::integer(receipt.battle.beast_max_hp as int),
        )
        .field(
            "武魂战斗修正"@,
            "攻击 "@ + text::integer(receipt.battle.wuhun_attack_percent as int) + "% · 防御 "@
                + text::integer(receipt.battle.wuhun_defense_percent as int) + "%"@,
        );
    let d = match receipt.skill {
        Some(skill) => {
            skill_use(d, skill)
        },
        None => d,
    };
    let d = action_lines(d, receipt);
    let d = match receipt.wuhun_effect {
        Some(effect) => {
            d.field(
                "武魂稳定度"@,
                text::integer(effect.stability_before as int) + " → "@
                    + text::integer(effect.stability_after as int),
            )
        },
        None => d,
    };
    let d = expired_effects(d, receipt.expired_effects@);
    let d = lasting_effect_fields(d, receipt.battle.active_effects@, receipt.battle.action_count);
    let d = battle_result(d, receipt);
    let d = dropped_wuhun(d, receipt);
    let d = d.illustration_if(picture);
    battle_commands(d, receipt)
}

/// The outcome of an action in a battle.
pub fn battle_action_document(
    receipt: &BattleActionReceipt,
    picture: Option<Illustration>,
) -> (document: GameDocument)
    ensures
        document@ == battle_action(*receipt, message::optional_picture(picture)),
{
    let document = GameDocument::new(&cat2(title_of(&receipt.event), (if receipt.replayed { "回执" } else { "" })))
        .field(
            "对手",
            &cat4(&receipt.battle.beast.name, " · ", &i64_text(receipt.battle.beast.age), "年"),
        )
        .field("回合", &i64_text(receipt.event.sequence))
        .field(
            "玩家生命",
            &cat5(
                &i64_text(receipt.event.player_hp_before),
                " → ",
                &i64_text(receipt.event.player_hp_after),
                "/",
                &i64_text(receipt.battle.player_max_hp),
            ),
        )
        .field(
            "魂兽生命",
            &cat5(
                &i64_text(receipt.event.beast_hp_before),
                " → ",
                &i64_text(receipt.event.beast_hp_after),
                "/",
                &i64_text(receipt.battle.beast_max_hp),
            ),
        )
        .field(
            "武魂战斗修正",
            &cat5(
                "攻击 ",
                &i64_text(receipt.battle.wuhun_attack_percent),
                "% · 防御 ",
                &i64_text(receipt.battle.wuhun_defense_percent),
                "%",
            ),
        );
    let document = match &receipt.skill {
        Some(skill) => {
            add_skill_use(document, skill)
        },
        None => document,
    };
    let document = add_action_lines(document, receipt);
    let document = match &receipt.wuhun_effect {
        Some(effect) => {
            document.field(
                "武魂稳定度",
                &cat3(&i64_text(effect.stability_before), " → ", &i64_text(effect.stability_after)),
            )
        },
        None => document,
    };
    let document = add_expired_effects(document, &receipt.expired_effects);
    let document = add_lasting_effect_fields(document, &receipt.battle.active_effects, receipt.battle.action_count);
    let document = add_battle_result(document, receipt);
    let document = add_dropped_wuhun(document, receipt);
    let document = document.illustration_if(picture);
    add_battle_commands(document, receipt)
}

/// The state of a battle.
pub open spec fn battle_snapshot(
    battle: BattleSnapshot,
    title: Seq<char>,
    picture: Option<Picture>,
) -> Document {
    let d = message::titled(title)
        .field(
            "对手"@,
            battle.beast.name@ + " · "@ + text::integer(battle.beast.age as int) + "年"@,
        )
        .field("状态"@, labels::battle_status(battle.status@))
        .field("回合"@, text::integer(battle.action_count as int))
        .field(
            "武魂战斗修正"@,
            "攻击 "@ + text::integer(battle.wuhun_attack_percent as int) + "% · 防御 "@
                + text::integer(battle.wuhun_defense_percent as int) + "%"@,
        )
        .field(
            "玩家生命"@,
            text::integer(battle.player_hp as int) + "/"@
                + text::integer(battle.player_max_hp as int),
        )
        .field(
            "魂兽生命"@,
            text::integer(battle.beast_hp as int) + "/"@
                + text::integer(battle.beast_max_hp as int),
        );
    let d = lasting_effect_fields(d, battle.active_effects@, battle.action_count);
    d
        .illustration_if(picture)
        .command("攻击"@)
        .command("释放技能 <魂技>"@)
        .command("逃跑"@)
        .command("战斗日志"@)
}

/// The state of a battle.
pub fn battle_snapshot_document(
    battle: &BattleSnapshot,
    title: &str,
    picture: Option<Illustration>,
) -> (document: GameDocument)
    ensures
        document@ == battle_snapshot(*battle, title@, message::optional_picture(picture)),
{
    let document = GameDocument::new(title)
        .field("对手", &cat4(&battle.beast.name, " · ", &i64_text(battle.beast.age), "年"))
        .field("状态", battle_status_label(&battle.status))
        .field("回合", &i64_text(battle.action_count))
        .field(
            "武魂战斗修正",
            &cat5(
                "攻击 ",
                &i64_text(battle.wuhun_attack_percent),
                "% · 防御 ",
                &i64_text(battle.wuhun_defense_percent),
                "%",
            ),
        )
        .field("玩家生命", &cat3(&i64_text(battle.player_hp), "/", &i64_text(battle.player_max_hp)))
        .field("魂兽生命", &cat3(&i64_text(battle.beast_hp), "/", &i64_text(battle.beast_max_hp)));
    let document = add_lasting_effect_fields(document, &battle.active_effects, battle.action_count);
    document
        .illustration_if(picture)
        .command("攻击")
        .command("释放技能 <魂技>")
        .command("逃跑")
        .command("战斗日志")
}

/// The document with an event of the battle.
pub open spec fn logged_event(d: Document, event: BattleEventRecord) -> Document {
    d.line(labels::battle_event_line(event))
}

fn add_logged_event(document: GameDocument, event: &BattleEventRecord) -> (result: GameDocument)
    ensures
        result@ == logged_event(document@, *event),
{
    document.line(&format_battle_event(event))
}

/// The document with the events of the battle.
pub open spec fn logged_events(d: Document, list: Seq<BattleEventRecord>) -> Document
    decreases list.len(),
{
    if list.len() == 0 {
        d
    } else {
        logged_event(logged_events(d, list.drop_last()), list.last())
    }
}

fn add_logged_events(
    document: GameDocument,
    list: &Vec<BattleEventRecord>,
) -> (result: GameDocument)
    ensures
        result@ == logged_events(document@, list@),
{
    let ghost start = document@;
    let mut document = document;
    let mut i: usize = 0;
    while i < list.len()
        invariant
            i <= list@.len(),
            document@ == logged_events(start, list@.take(i as int)),
        decreases list@.len() - i,
    {
        assert(list@.take(i + 1).drop_last() =~= list@.take(i as int));
        document = add_logged_event(document, &list[i]);
        i = i + 1;
    }
    assert(list@.take(i as int) =~= list@);
    document
}

/// A battle and its events.
pub open spec fn battle_log(log: BattleLog, picture: Option<Picture>) -> Document {
    let d = battle_snapshot(log.battle, "战斗日志"@, picture);
    let d = d.line("事件记录："@);
    logged_events(d, log.events@)
}

/// A battle and its events.
pub fn battle_log_document(log: &BattleLog, picture: Option<Illustration>) -> (document:
    GameDocument)
    ensures
        document@ == battle_log(*log, message::optional_picture(picture)),
{
    let document = battle_snapshot_document(&log.battle, "战斗日志", picture);
    let document = document.line("事件记录：");
    add_logged_events(document, &log.events)
}

} // verus!
