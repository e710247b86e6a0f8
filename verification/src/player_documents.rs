//! Replies about players: their state, soul skills, soul rings and check-ins.
use crate::checkin;
use crate::checkin::{checkin_exp_reward, CHECKIN_CURRENCY_CODE, CHECKIN_CURRENCY_NAME};
use crate::labels;
use crate::labels::{
    skill_effect_label, skill_proficiency_label, soul_ring_color_label, ProficiencyRules,
};
use crate::message;
use crate::message::{Document, GameDocument, Illustration, Picture};
use crate::records::{
    DailyCheckinReceipt, DailyCheckinResult, ExperienceProgress, OwnedSoulRing, PlayerStatus,
    SkillDetail, SkillEffectRecord, SkillEntry, SkillLoadoutReceipt, SkillPage,
    SoulRingAbsorbReceipt, SoulRingDrop, SoulRingPage, WuhunRecord, WuhunToggleReceipt,
};
use crate::text;
use crate::text::{cat2, cat3, cat4, cat5, cat6, cat7, i64_text, same, usize_text};
use vstd::string::*;
use vstd::prelude::*;

verus! {

/// The title of a change of the soul skills in use.
pub open spec fn loadout_title(receipt: SkillLoadoutReceipt) -> Seq<char> {
    if receipt.replayed {
        "魂技装备回执"@
    } else if receipt.equipped {
        "魂技装备成功"@
    } else {
        "魂技卸下成功"@
    }
}

fn title_of_loadout(receipt: &SkillLoadoutReceipt) -> (title: &'static str)
    ensures
        title@ == loadout_title(*receipt),
{
    if receipt.replayed {
        "魂技装备回执"
    } else if receipt.equipped {
        "魂技装备成功"
    } else {
        "魂技卸下成功"
    }
}

/// A new player.
pub open spec fn registered(player: PlayerStatus, picture: Option<Picture>) -> Document {
    message::titled("穿越成功"@)
        .field("角色"@, player.name@)
        .field("性别"@, player.gender@)
        .field("出生地"@, player.map_name@)
        .field(
            "生命"@,
            text::integer(player.hp as int) + "/"@ + text::integer(player.max_hp as int),
        )
        .field(
            "魂力"@,
            text::integer(player.soul_power as int) + "/"@
                + text::integer(player.max_soul_power as int),
        )
        .command("武魂觉醒"@)
        .command("状态"@)
        .illustration_if(picture)
}

/// A new player.
pub fn registered_document(
    player: &PlayerStatus,
    picture: Option<Illustration>,
) -> (document: GameDocument)
    ensures
        document@ == registered(*player, message::optional_picture(picture)),
{
    GameDocument::new("穿越成功")
        .field("角色", &player.name)
        .field("性别", &player.gender)
        .field("出生地", &player.map_name)
        .field("生命", &cat3(&i64_text(player.hp), "/", &i64_text(player.max_hp)))
        .field("魂力", &cat3(&i64_text(player.soul_power), "/", &i64_text(player.max_soul_power)))
        .command("武魂觉醒")
        .command("状态")
        .illustration_if(picture)
}

/// A martial soul that awoke.
pub open spec fn awakened(wuhun: WuhunRecord, picture: Option<Picture>) -> Document {
    message::titled("武魂觉醒"@)
        .line("觉醒仪式完成，你感受到一股崭新的力量。"@)
        .field("武魂"@, wuhun.name@)
        .field("类别"@, wuhun.category@)
        .field("形态"@, wuhun.form@)
        .field("描述"@, wuhun.description@)
        .illustration_if(picture)
        .command("状态"@)
}

/// A martial soul that awoke.
pub fn awakened_document(
    wuhun: &WuhunRecord,
    picture: Option<Illustration>,
) -> (document: GameDocument)
    ensures
        document@ == awakened(*wuhun, message::optional_picture(picture)),
{
    GameDocument::new("武魂觉醒")
        .line("觉醒仪式完成，你感受到一股崭新的力量。")
        .field("武魂", &wuhun.name)
        .field("类别", &wuhun.category)
        .field("形态", &wuhun.form)
        .field("描述", &wuhun.description)
        .illustration_if(picture)
        .command("状态")
}

/// The document with an effect of a soul skill.
pub open spec fn effect_field(d: Document, effect: SkillEffectRecord) -> Document {
    d.field("附加效果"@, labels::skill_effect(effect))
}

fn add_effect_field(document: GameDocument, effect: &SkillEffectRecord) -> (result: GameDocument)
    ensures
        result@ == effect_field(document@, *effect),
{
    document.field("附加效果", &skill_effect_label(effect))
}

/// The document with the effects of a soul skill.
pub open spec fn effect_fields(d: Document, list: Seq<SkillEffectRecord>) -> Document
    decreases list.len(),
{
    if list.len() == 0 {
        d
    } else {
        effect_field(effect_fields(d, list.drop_last()), list.last())
    }
}

fn add_effect_fields(
    document: GameDocument,
    list: &Vec<SkillEffectRecord>,
) -> (result: GameDocument)
    ensures
        result@ == effect_fields(document@, list@),
{
    let ghost start = document@;
    let mut document = document;
    let mut i: usize = 0;
    while i < list.len()
        invariant
            i <= list@.len(),
            document@ == effect_fields(start, list@.take(i as int)),
        decreases list@.len() - i,
    {
        assert(list@.take(i + 1).drop_last() =~= list@.take(i as int));
        document = add_effect_field(document, &list[i]);
        i = i + 1;
    }
    assert(list@.take(i as int) =~= list@);
    document
}

/// A learned soul skill. The rules and the damage are those of its level.
pub open spec fn skill_detail(
    detail: SkillDetail,
    rules: ProficiencyRules,
    damage_percent: i64,
) -> Document {
    let d = message::titled("魂技详情 · "@ + detail.entry.skill.name@)
        .field("类型"@, detail.entry.skill.skill_type@)
        .field("魂环"@, "第"@ + text::integer(detail.entry.skill.ring_index as int) + "魂技"@)
        .field("等级"@, text::integer(detail.entry.level as int))
        .field(
            "熟练度"@,
            labels::proficiency_label(detail.entry.level, detail.entry.proficiency, rules),
        )
        .field("装备状态"@, (if detail.entry.equipped { "已装备"@ } else { "未装备"@ }))
        .field("魂力消耗"@, text::integer(detail.entry.skill.soul_power_cost as int))
        .field("冷却"@, text::integer(detail.entry.skill.cooldown_rounds as int) + " 回合"@)
        .field("基础伤害"@, text::integer(detail.entry.skill.base_damage as int))
        .field("等级伤害倍率"@, text::integer(damage_percent as int) + "%"@);
    let d = effect_fields(d, detail.effects@);
    d
        .line(detail.entry.skill.description@)
        .command("技能"@)
        .command("释放技能 "@ + detail.entry.skill.name@)
}

/// A learned soul skill. The rules and the damage are those of its level.
pub fn skill_detail_document(
    detail: &SkillDetail,
    rules: ProficiencyRules,
    damage_percent: i64,
) -> (document: GameDocument)
    ensures
        document@ == skill_detail(*detail, rules, damage_percent),
{
    let document = GameDocument::new(&cat2("魂技详情 · ", &detail.entry.skill.name))
        .field("类型", &detail.entry.skill.skill_type)
        .field("魂环", &cat3("第", &i64_text(detail.entry.skill.ring_index), "魂技"))
        .field("等级", &i64_text(detail.entry.level))
        .field(
            "熟练度",
            &skill_proficiency_label(detail.entry.level, detail.entry.proficiency, rules),
        )
        .field("装备状态", (if detail.entry.equipped { "已装备" } else { "未装备" }))
        .field("魂力消耗", &i64_text(detail.entry.skill.soul_power_cost))
        .field("冷却", &cat2(&i64_text(detail.entry.skill.cooldown_rounds), " 回合"))
        .field("基础伤害", &i64_text(detail.entry.skill.base_damage))
        .field("等级伤害倍率", &cat2(&i64_text(damage_percent), "%"));
    let document = add_effect_fields(document, &detail.effects);
    document
        .line(&detail.entry.skill.description)
        .command("技能")
        .command(&cat2("释放技能 ", &detail.entry.skill.name))
}

/// A change of the soul skills in use.
pub open spec fn skill_loadout(receipt: SkillLoadoutReceipt) -> Document {
    message::titled(loadout_title(receipt))
        .field("魂技"@, receipt.skill.name@)
        .field("状态"@, (if receipt.equipped { "已装备"@ } else { "未装备"@ }))
        .field(
            "装备位"@,
            text::integer(receipt.equipped_count as int) + "/"@
                + text::integer(receipt.capacity as int),
        )
        .notice(
            if receipt.replayed {
                "检测到相同消息的重复请求，已返回原装备回执，未重复变更状态"@
            } else {
                "魂技装备状态、操作日志和不可变装备事件已在同一事务完成"@
            },
        )
        .command("技能"@)
        .command(
            (if receipt.equipped { "卸下"@ } else { "装备"@ }) + "魂技 "@ + receipt.skill.name@,
        )
}

/// A change of the soul skills in use.
pub fn skill_loadout_document(receipt: &SkillLoadoutReceipt) -> (document: GameDocument)
    ensures
        document@ == skill_loadout(*receipt),
{
    GameDocument::new(title_of_loadout(receipt))
        .field("魂技", &receipt.skill.name)
        .field("状态", (if receipt.equipped { "已装备" } else { "未装备" }))
        .field("装备位", &cat3(&i64_text(receipt.equipped_count), "/", &i64_text(receipt.capacity)))
        .notice(
            if receipt.replayed {
                "检测到相同消息的重复请求，已返回原装备回执，未重复变更状态"
            } else {
                "魂技装备状态、操作日志和不可变装备事件已在同一事务完成"
            },
        )
        .command("技能")
        .command(
            &cat3((if receipt.equipped { "卸下" } else { "装备" }), "魂技 ", &receipt.skill.name),
        )
}

/// The document with a soul ring.
pub open spec fn ring_lines(d: Document, ring: OwnedSoulRing) -> Document {
    d
        .line(
            "第"@ + text::integer(ring.ring_index as int) + "魂环 · "@ + ring.ring.name@
                + " · "@ + labels::ring_color(ring.ring.color@) + " · "@
                + text::integer(ring.ring.age as int) + "年"@,
        )
        .line("魂技："@ + ring.ring.skill.name@)
}

fn add_ring_lines(document: GameDocument, ring: &OwnedSoulRing) -> (result: GameDocument)
    ensures
        result@ == ring_lines(document@, *ring),
{
    document
        .line(
            &cat3(
                &cat7(
                    "第",
                    &i64_text(ring.ring_index),
                    "魂环 · ",
                    &ring.ring.name,
                    " · ",
                    soul_ring_color_label(&ring.ring.color),
                    " · ",
                ),
                &i64_text(ring.ring.age),
                "年",
            ),
        )
        .line(&cat2("魂技：", &ring.ring.skill.name))
}

/// The document with the absorbed soul rings.
pub open spec fn rings_lines(d: Document, list: Seq<OwnedSoulRing>) -> Document
    decreases list.len(),
{
    if list.len() == 0 {
        d
    } else {
        ring_lines(rings_lines(d, list.drop_last()), list.last())
    }
}

fn add_rings_lines(document: GameDocument, list: &Vec<OwnedSoulRing>) -> (result: GameDocument)
    ensures
        result@ == rings_lines(document@, list@),
{
    let ghost start = document@;
    let mut document = document;
    let mut i: usize = 0;
    while i < list.len()
        invariant
            i <= list@.len(),
            document@ == rings_lines(start, list@.take(i as int)),
        decreases list@.len() - i,
    {
        assert(list@.take(i + 1).drop_last() =~= list@.take(i as int));
        document = add_ring_lines(document, &list[i]);
        i = i + 1;
    }
    assert(list@.take(i as int) =~= list@);
    document
}

/// The document with a soul ring that waits.
pub open spec fn pending_ring(d: Document, drop: SoulRingDrop) -> Document {
    d
        .line(
            drop.ring.soul_beast_name@ + " · "@ + drop.ring.name@ + " · "@
                + text::integer(drop.ring.age as int) + "年"@,
        )
        .command("吸收魂环 "@ + drop.ring.soul_beast_name@)
}

fn add_pending_ring(document: GameDocument, drop: &SoulRingDrop) -> (result: GameDocument)
    ensures
        result@ == pending_ring(document@, *drop),
{
    document
        .line(
            &cat6(
                &drop.ring.soul_beast_name,
                " · ",
                &drop.ring.name,
                " · ",
                &i64_text(drop.ring.age),
                "年",
            ),
        )
        .command(&cat2("吸收魂环 ", &drop.ring.soul_beast_name))
}

/// The document with the soul rings that wait.
pub open spec fn pending_rings(d: Document, list: Seq<SoulRingDrop>) -> Document
    decreases list.len(),
{
    if list.len() == 0 {
        d
    } else {
        pending_ring(pending_rings(d, list.drop_last()), list.last())
    }
}

fn add_pending_rings(document: GameDocument, list: &Vec<SoulRingDrop>) -> (result: GameDocument)
    ensures
        result@ == pending_rings(document@, list@),
{
    let ghost start = document@;
    let mut document = document;
    let mut i: usize = 0;
    while i < list.len()
        invariant
            i <= list@.len(),
            document@ == pending_rings(start, list@.take(i as int)),
        decreases list@.len() - i,
    {
        assert(list@.take(i + 1).drop_last() =~= list@.take(i as int));
        document = add_pending_ring(document, &list[i]);
        i = i + 1;
    }
    assert(list@.take(i as int) =~= list@);
    document
}

/// The soul rings of a player.
pub open spec fn soul_rings(page: SoulRingPage) -> Document {
    let d = message::titled("魂环列表"@).field(
        "魂环槽位"@,
        text::decimal(page.rings@.len()) + "/"@ + text::integer(page.ring_capacity as int),
    );
    let d = if page.rings@.len() == 0 {
        d.line("你还没有吸收任何魂环"@)
    } else {
        rings_lines(d, page.rings@)
    };
    let d = if page.pending@.len() == 0 {
        d.line("当前没有待吸收魂环"@)
    } else {
        let d = d.line("待吸收魂环："@);
        pending_rings(d, page.pending@)
    };
    d.command("技能"@).command("状态"@)
}

/// The soul rings of a player.
pub fn soul_rings_document(page: &SoulRingPage) -> (document: GameDocument)
    ensures
        document@ == soul_rings(*page),
{
    let document = GameDocument::new("魂环列表").field(
        "魂环槽位",
        &cat3(&usize_text(page.rings.len()), "/", &i64_text(page.ring_capacity)),
    );
    let document = if page.rings.len() == 0 {
        document.line("你还没有吸收任何魂环")
    } else {
        add_rings_lines(document, &page.rings)
    };
    let document = if page.pending.len() == 0 {
        document.line("当前没有待吸收魂环")
    } else {
        let document = document.line("待吸收魂环：");
        add_pending_rings(document, &page.pending)
    };
    document.command("技能").command("状态")
}

/// A soul ring that was absorbed.
pub open spec fn absorbed_ring(receipt: SoulRingAbsorbReceipt) -> Document {
    message::titled((if receipt.replayed { "魂环吸收回执"@ } else { "魂环吸收成功"@ }))
        .field("魂环"@, receipt.ring.ring.name@)
        .field("魂兽"@, receipt.ring.ring.soul_beast_name@)
        .field("年限"@, text::integer(receipt.ring.ring.age as int) + "年"@)
        .field("品质"@, labels::ring_color(receipt.ring.ring.color@))
        .field("魂技"@, receipt.skill.name@)
        .field("魂环槽位"@, "第"@ + text::integer(receipt.ring.ring_index as int) + "魂环"@)
        .notice(
            if receipt.replayed {
                "检测到相同消息的重复请求，已返回原吸收回执，未重复占用魂环槽位"@
            } else {
                "魂环、魂技绑定、操作日志和吸收事件已在同一事务完成"@
            },
        )
        .command("魂环"@)
        .command("技能"@)
}

/// A soul ring that was absorbed.
pub fn absorb_soul_ring_document(receipt: &SoulRingAbsorbReceipt) -> (document: GameDocument)
    ensures
        document@ == absorbed_ring(*receipt),
{
    GameDocument::new((if receipt.replayed { "魂环吸收回执" } else { "魂环吸收成功" }))
        .field("魂环", &receipt.ring.ring.name)
        .field("魂兽", &receipt.ring.ring.soul_beast_name)
        .field("年限", &cat2(&i64_text(receipt.ring.ring.age), "年"))
        .field("品质", soul_ring_color_label(&receipt.ring.ring.color))
        .field("魂技", &receipt.skill.name)
        .field("魂环槽位", &cat3("第", &i64_text(receipt.ring.ring_index), "魂环"))
        .notice(
            if receipt.replayed {
                "检测到相同消息的重复请求，已返回原吸收回执，未重复占用魂环槽位"
            } else {
                "魂环、魂技绑定、操作日志和吸收事件已在同一事务完成"
            },
        )
        .command("魂环")
        .command("技能")
}

/// The document with a soul skill.
pub open spec fn skill_lines(
    d: Document,
    entry: SkillEntry,
    rules: ProficiencyRules,
) -> Document {
    d
        .line(
            "#"@ + text::integer(entry.skill.ring_index as int) + " · "@ + entry.skill.name@
                + " · Lv."@ + text::integer(entry.level as int) + " · "@
                + (if entry.equipped { "已装备"@ } else { "未装备"@ }) + " · "@
                + text::integer(entry.skill.soul_power_cost as int) + "魂力 · 冷却 "@
                + text::integer(entry.skill.cooldown_rounds as int) + " 回合"@,
        )
        .line("熟练度："@ + labels::proficiency_label(entry.level, entry.proficiency, rules))
        .line(entry.skill.description@)
        .command("技能详情 "@ + entry.skill.name@)
}

fn add_skill_lines(
    document: GameDocument,
    entry: &SkillEntry,
    rules: ProficiencyRules,
) -> (result: GameDocument)
    ensures
        result@ == skill_lines(document@, *entry, rules),
{
    document
        .line(
            &cat7(
                &cat7(
                    "#",
                    &i64_text(entry.skill.ring_index),
                    " · ",
                    &entry.skill.name,
                    " · Lv.",
                    &i64_text(entry.level),
                    " · ",
                ),
                (if entry.equipped { "已装备" } else { "未装备" }),
                " · ",
                &i64_text(entry.skill.soul_power_cost),
                "魂力 · 冷却 ",
                &i64_text(entry.skill.cooldown_rounds),
                " 回合",
            ),
        )
        .line(&cat2("熟练度：", &skill_proficiency_label(entry.level, entry.proficiency, rules)))
        .line(&entry.skill.description)
        .command(&cat2("技能详情 ", &entry.skill.name))
}

/// The document with the soul skills, each with the rules of its level.
pub open spec fn skills_lines(
    d: Document,
    list: Seq<SkillEntry>,
    rules: Seq<ProficiencyRules>,
) -> Document
    decreases list.len(),
{
    if list.len() == 0 {
        d
    } else {
        skill_lines(
            skills_lines(d, list.drop_last(), rules),
            list.last(),
            rules[list.len() - 1],
        )
    }
}

fn add_skills_lines(
    document: GameDocument,
    list: &Vec<SkillEntry>,
    rules: &Vec<ProficiencyRules>,
) -> (result: GameDocument)
    requires
        rules@.len() == list@.len(),
    ensures
        result@ == skills_lines(document@, list@, rules@),
{
    let ghost start = document@;
    let mut document = document;
    let mut i: usize = 0;
    while i < list.len()
        invariant
            i <= list@.len() == rules@.len(),
            document@ == skills_lines(start, list@.take(i as int), rules@),
        decreases list@.len() - i,
    {
        assert(list@.take(i + 1).drop_last() =~= list@.take(i as int));
        document = add_skill_lines(document, &list[i], rules[i]);
        i = i + 1;
    }
    assert(list@.take(i as int) =~= list@);
    document
}

/// The soul skills of a player, each with the rules of its level.
pub open spec fn skills(page: SkillPage, rules: Seq<ProficiencyRules>) -> Document {
    let d = message::titled("魂技列表"@).field(
        "魂力"@,
        text::integer(page.soul_power as int) + "/"@ + text::integer(page.max_soul_power as int),
    );
    if page.entries@.len() == 0 {
        d.line("你还没有学习任何魂技"@).notice("觉醒武魂后会获得基础魂技"@)
    } else {
        skills_lines(d, page.entries@, rules).command("状态"@)
    }
}

/// The soul skills of a player, each with the rules of its level.
pub fn skills_document(page: &SkillPage, rules: &Vec<ProficiencyRules>) -> (document: GameDocument)
    requires
        rules@.len() == page.entries@.len(),
    ensures
        document@ == skills(*page, rules@),
{
    let document = GameDocument::new("魂技列表").field(
        "魂力",
        &cat3(&i64_text(page.soul_power), "/", &i64_text(page.max_soul_power)),
    );
    if page.entries.len() == 0 {
        return document.line("你还没有学习任何魂技").notice("觉醒武魂后会获得基础魂技");
    }
    add_skills_lines(document, &page.entries, rules).command("状态")
}

/// A martial soul that was opened or closed.
pub open spec fn wuhun_toggle(
    receipt: WuhunToggleReceipt,
    enabled: bool,
    picture: Option<Picture>,
) -> Document {
    let d = message::titled((if enabled { "武魂开启"@ } else { "武魂关闭"@ }))
        .field("武魂"@, receipt.state.name@)
        .field("状态"@, (if receipt.state.enabled { "开启"@ } else { "关闭"@ }))
        .field(
            "稳定度"@,
            text::integer(receipt.state.stability as int) + "/"@
                + text::integer(receipt.state.max_stability as int),
        );
    let d = if receipt.replayed {
        d.notice("检测到相同消息的重复请求，已返回原武魂状态，未重复执行"@)
    } else {
        if enabled {
            d.notice("武魂已进入战斗形态；稳定度随生命变化，低于 30 时受击可能自动脱落"@)
        } else {
            d.notice("武魂已收回；关闭状态下不能发起魂兽挑战"@)
        }
    };
    let d = d.illustration_if(picture);
    if receipt.state.enabled {
        d.command("关武魂"@).command("状态"@)
    } else {
        d.command("开武魂"@).command("状态"@)
    }
}

/// A martial soul that was opened or closed.
pub fn wuhun_toggle_document(
    receipt: &WuhunToggleReceipt,
    enabled: bool,
    picture: Option<Illustration>,
) -> (document: GameDocument)
    ensures
        document@ == wuhun_toggle(*receipt, enabled, message::optional_picture(picture)),
{
    let document = GameDocument::new((if enabled { "武魂开启" } else { "武魂关闭" }))
        .field("武魂", &receipt.state.name)
        .field("状态", (if receipt.state.enabled { "开启" } else { "关闭" }))
        .field(
            "稳定度",
            &cat3(&i64_text(receipt.state.stability), "/", &i64_text(receipt.state.max_stability)),
        );
    let document = if receipt.replayed {
        document.notice("检测到相同消息的重复请求，已返回原武魂状态，未重复执行")
    } else {
        if enabled {
            document.notice("武魂已进入战斗形态；稳定度随生命变化，低于 30 时受击可能自动脱落")
        } else {
            document.notice("武魂已收回；关闭状态下不能发起魂兽挑战")
        }
    };
    let document = document.illustration_if(picture);
    if receipt.state.enabled {
        document.command("关武魂").command("状态")
    } else {
        document.command("开武魂").command("状态")
    }
}

/// The document with the rewards of a check-in.
pub open spec fn checkin_rewards(
    d: Document,
    receipt: DailyCheckinReceipt,
    already_claimed: bool,
) -> Document {
    if already_claimed {
        d
            .field("当日经验奖励"@, text::integer(receipt.exp_reward as int) + "（已领取）"@)
            .field(
                "当日"@ + CHECKIN_CURRENCY_NAME@ + "奖励"@,
                text::integer(receipt.currency_reward as int) + "（已领取）"@,
            )
            .notice("本游戏日已经签到过了，奖励不会重复发放"@)
    } else {
        let d = d
            .field("经验奖励"@, "+"@ + text::integer(receipt.exp_reward as int))
            .field(
                CHECKIN_CURRENCY_NAME@ + "奖励"@,
                "+"@ + text::integer(receipt.currency_reward as int),
            );
        if receipt.levels_gained > 0 {
            d.notice(
                "升级成功："@ + text::integer(receipt.level_before as int) + " → "@
                    + receipt.title_after@ + "，继续积累经验解锁更高境界"@,
            )
        } else {
            d.notice("签到成功，下一个北京时间 04:00 刷新后可再次领取"@)
        }
    }
}

fn add_checkin_rewards(
    document: GameDocument,
    receipt: &DailyCheckinReceipt,
    already_claimed: bool,
) -> (result: GameDocument)
    ensures
        result@ == checkin_rewards(document@, *receipt, already_claimed),
{
    if already_claimed {
        document
            .field("当日经验奖励", &cat2(&i64_text(receipt.exp_reward), "（已领取）"))
            .field(
                &cat3("当日", CHECKIN_CURRENCY_NAME, "奖励"),
                &cat2(&i64_text(receipt.currency_reward), "（已领取）"),
            )
            .notice("本游戏日已经签到过了，奖励不会重复发放")
    } else {
        let document = document
            .field("经验奖励", &cat2("+", &i64_text(receipt.exp_reward)))
            .field(
                &cat2(CHECKIN_CURRENCY_NAME, "奖励"),
                &cat2("+", &i64_text(receipt.currency_reward)),
            );
        if receipt.levels_gained > 0 {
            document.notice(
                &cat5(
                    "升级成功：",
                    &i64_text(receipt.level_before),
                    " → ",
                    &receipt.title_after,
                    "，继续积累经验解锁更高境界",
                ),
            )
        } else {
            document.notice("签到成功，下一个北京时间 04:00 刷新后可再次领取")
        }
    }
}

/// A daily check-in.
pub open spec fn checkin(receipt: DailyCheckinReceipt, already_claimed: bool) -> Document {
    let d = message::titled("每日签到"@)
        .field("结果"@, (if already_claimed { "今日已签到"@ } else { "签到成功"@ }))
        .field("累计签到"@, text::integer(receipt.total_claims as int) + " 天"@)
        .field("连续签到"@, text::integer(receipt.streak_days as int) + " 天"@)
        .field("本轮"@, "第 "@ + text::integer(receipt.cycle_day as int) + "/7 天"@)
        .field("当前境界"@, receipt.title_after@)
        .field("当前经验"@, text::integer(receipt.exp_after as int))
        .field(
            "当前"@ + CHECKIN_CURRENCY_NAME@,
            text::integer(receipt.currency_balance_after as int),
        )
        .command("状态"@);
    checkin_rewards(d, receipt, already_claimed)
}

/// A daily check-in.
fn checkin_document(
    receipt: &DailyCheckinReceipt,
    already_claimed: bool,
) -> (document: GameDocument)
    ensures
        document@ == checkin(*receipt, already_claimed),
{
    let document = GameDocument::new("每日签到")
        .field("结果", (if already_claimed { "今日已签到" } else { "签到成功" }))
        .field("累计签到", &cat2(&i64_text(receipt.total_claims), " 天"))
        .field("连续签到", &cat2(&i64_text(receipt.streak_days), " 天"))
        .field("本轮", &cat3("第 ", &i64_text(receipt.cycle_day), "/7 天"))
        .field("当前境界", &receipt.title_after)
        .field("当前经验", &i64_text(receipt.exp_after))
        .field(&cat2("当前", CHECKIN_CURRENCY_NAME), &i64_text(receipt.currency_balance_after))
        .command("状态");
    add_checkin_rewards(document, receipt, already_claimed)
}

/// A daily check-in, or that its reward is not the one that the calendar gives.
pub open spec fn daily_checkin(result: DailyCheckinResult) -> Result<Document, Seq<char>> {
    let (receipt, already_claimed) = match result {
        DailyCheckinResult::Claimed(receipt) => (receipt, false),
        DailyCheckinResult::AlreadyClaimed(receipt) => (receipt, true),
    };
    if receipt.currency_code@ != CHECKIN_CURRENCY_CODE@ {
        Err("签到记录的奖励规则与当前版本不一致"@)
    } else {
        match checkin::exp_reward(receipt.cycle_day as int) {
            Err(message) => Err(message),
            Ok(reward) => if reward != receipt.exp_reward {
                Err("签到记录的奖励规则与当前版本不一致"@)
            } else {
                Ok(checkin(receipt, already_claimed))
            },
        }
    }
}

/// A check-in on a day that was claimed before shows what was claimed then, and that it
/// was; no field of it announces a new reward. It is refused exactly where the claim
/// itself would be.
pub proof fn a_claimed_day_gives_nothing_new(receipt: DailyCheckinReceipt)
    ensures
        daily_checkin(DailyCheckinResult::AlreadyClaimed(receipt)) is Ok == daily_checkin(
            DailyCheckinResult::Claimed(receipt),
        ) is Ok,
        daily_checkin(DailyCheckinResult::AlreadyClaimed(receipt)) matches Ok(document) ==> {
            &&& document.fields.contains(("结果"@, "今日已签到"@))
            &&& document.fields.contains(
                ("当日经验奖励"@, text::integer(receipt.exp_reward as int) + "（已领取）"@),
            )
            &&& document.fields.contains(
                (
                    "当日"@ + CHECKIN_CURRENCY_NAME@ + "奖励"@,
                    text::integer(receipt.currency_reward as int) + "（已领取）"@,
                ),
            )
            &&& document.notice == Some("本游戏日已经签到过了，奖励不会重复发放"@)
            &&& forall|i: int|
                0 <= i < document.fields.len() ==> (#[trigger] document.fields[i]).0
                    != "经验奖励"@ && document.fields[i].0 != CHECKIN_CURRENCY_NAME@ + "奖励"@
        },
        daily_checkin(DailyCheckinResult::Claimed(receipt)) matches Ok(document) ==> {
            &&& document.fields.contains(("结果"@, "签到成功"@))
            &&& document.fields.contains(
                ("经验奖励"@, "+"@ + text::integer(receipt.exp_reward as int)),
            )
        },
{
    reveal_strlit("结果");
    reveal_strlit("累计签到");
    reveal_strlit("连续签到");
    reveal_strlit("本轮");
    reveal_strlit("当前境界");
    reveal_strlit("当前经验");
    reveal_strlit("当前");
    reveal_strlit("当日经验奖励");
    reveal_strlit("当日");
    reveal_strlit("经验奖励");
    reveal_strlit("奖励");
    reveal_strlit("金魂币");
    assert("经验奖励"@[0] == '经' && "结果"@[0] == '结' && "累计签到"@[0] == '累');
    assert("连续签到"@[0] == '连' && "本轮"@[0] == '本' && "当前境界"@[0] == '当');
    assert("当前经验"@[0] == '当' && "当日经验奖励"@[0] == '当' && "当日"@[0] == '当');
    assert(("当前"@ + CHECKIN_CURRENCY_NAME@)[0] == '当');
    assert(("当日"@ + CHECKIN_CURRENCY_NAME@ + "奖励"@)[0] == '当');
    assert((CHECKIN_CURRENCY_NAME@ + "奖励"@)[0] == '金');
    let old = checkin(receipt, true);
    assert(old.fields.len() == 9);
    assert(old.fields[0] == ("结果"@, "今日已签到"@));
    assert(old.fields[7] == (
        "当日经验奖励"@,
        text::integer(receipt.exp_reward as int) + "（已领取）"@,
    ));
    assert(old.fields[8] == (
        "当日"@ + CHECKIN_CURRENCY_NAME@ + "奖励"@,
        text::integer(receipt.currency_reward as int) + "（已领取）"@,
    ));
    assert forall|i: int| 0 <= i < old.fields.len() implies (#[trigger] old.fields[i]).0
        != "经验奖励"@ && old.fields[i].0 != CHECKIN_CURRENCY_NAME@ + "奖励"@ by {
        assert(old.fields[i].0[0] != '经' && old.fields[i].0[0] != '金');
    }
    let new = checkin(receipt, false);
    assert(new.fields[0] == ("结果"@, "签到成功"@));
    assert(new.fields[7] == ("经验奖励"@, "+"@ + text::integer(receipt.exp_reward as int)));
}

/// The words around the numbers of a check-in that was claimed before.
proof fn lemma_words_without_plus_sign()
    ensures
        text::lacks("每日签到"@, '+'),
        text::lacks("结果"@, '+'),
        text::lacks("今日已签到"@, '+'),
        text::lacks("累计签到"@, '+'),
        text::lacks(" 天"@, '+'),
        text::lacks("连续签到"@, '+'),
        text::lacks("本轮"@, '+'),
        text::lacks("第 "@, '+'),
        text::lacks("/7 天"@, '+'),
        text::lacks("当前境界"@, '+'),
        text::lacks("当前经验"@, '+'),
        text::lacks("当前"@, '+'),
        text::lacks("金魂币"@, '+'),
        text::lacks("状态"@, '+'),
        text::lacks("当日经验奖励"@, '+'),
        text::lacks("（已领取）"@, '+'),
        text::lacks("当日"@, '+'),
        text::lacks("奖励"@, '+'),
        text::lacks("本游戏日已经签到过了，奖励不会重复发放"@, '+'),
{
    reveal_strlit("每日签到");
    reveal_strlit("结果");
    reveal_strlit("今日已签到");
    reveal_strlit("累计签到");
    reveal_strlit(" 天");
    reveal_strlit("连续签到");
    reveal_strlit("本轮");
    reveal_strlit("第 ");
    reveal_strlit("/7 天");
    reveal_strlit("当前境界");
    reveal_strlit("当前经验");
    reveal_strlit("当前");
    reveal_strlit("金魂币");
    reveal_strlit("状态");
    reveal_strlit("当日经验奖励");
    reveal_strlit("（已领取）");
    reveal_strlit("当日");
    reveal_strlit("奖励");
    reveal_strlit("本游戏日已经签到过了，奖励不会重复发放");
}

/// The text of a document has no plus sign where nothing in the document has one.
proof fn lemma_text_without_plus_sign(document: Document)
    requires
        text::lacks(document.title, '+'),
        document.lines.len() == 0,
        forall|i: int|
            0 <= i < document.fields.len() ==> text::lacks((#[trigger] document.fields[i]).0, '+')
                && text::lacks(document.fields[i].1, '+'),
        forall|i: int|
            0 <= i < document.commands.len() ==> text::lacks(#[trigger] document.commands[i], '+'),
        document.notice matches Some(notice) ==> text::lacks(notice, '+'),
    ensures
        text::lacks(text::joined(message::text_lines(document), "\n"@), '+'),
{
    reveal_strlit("== ");
    reveal_strlit(" ==");
    reveal_strlit("：");
    reveal_strlit("可用命令：");
    reveal_strlit("- ");
    reveal_strlit("提示：");
    reveal_strlit("\n");
    let lines = message::text_lines(document);
    let fields = document.fields.len() as int;
    assert forall|i: int| 0 <= i < lines.len() implies text::lacks(#[trigger] lines[i], '+') by {
        if i == 0 {
        } else if i <= fields {
            assert(lines[i] == document.fields[i - 1].0 + "："@ + document.fields[i - 1].1);
        } else if document.commands.len() > 0 && i == fields + 1 {
            assert(lines[i] == "可用命令："@);
        } else if document.commands.len() > 0 && i < fields + 2 + document.commands.len() {
            assert(lines[i] == "- "@ + document.commands[i - fields - 2]);
        } else {
            assert(lines[i] == "提示："@ + document.notice->0);
        }
    }
    text::joining_adds_no_character(lines, "\n"@, '+');
}

/// The text of a check-in on a day that was claimed before says that it was claimed, and
/// nowhere announces a reward with a plus sign; the title of the player, which it shows,
/// has to have none either.
pub proof fn the_text_of_a_claimed_day_announces_nothing(receipt: DailyCheckinReceipt)
    requires
        !receipt.title_after@.contains('+'),
        daily_checkin(DailyCheckinResult::AlreadyClaimed(receipt)) is Ok,
    ensures
        ({
            let document = daily_checkin(DailyCheckinResult::AlreadyClaimed(receipt))->Ok_0;
            let lines = message::text_lines(document);
            &&& lines.contains("结果"@ + "："@ + "今日已签到"@)
            &&& !text::joined(lines, "\n"@).contains('+')
        }),
{
    let document = checkin(receipt, true);
    lemma_words_without_plus_sign();
    text::numbers_have_no_plus_sign(receipt.total_claims as int);
    text::numbers_have_no_plus_sign(receipt.streak_days as int);
    text::numbers_have_no_plus_sign(receipt.cycle_day as int);
    text::numbers_have_no_plus_sign(receipt.exp_after as int);
    text::numbers_have_no_plus_sign(receipt.currency_balance_after as int);
    text::numbers_have_no_plus_sign(receipt.exp_reward as int);
    text::numbers_have_no_plus_sign(receipt.currency_reward as int);
    assert(text::lacks(receipt.title_after@, '+'));
    assert(document.fields.len() == 9);
    assert forall|i: int| 0 <= i < document.fields.len() implies text::lacks(
        (#[trigger] document.fields[i]).0,
        '+',
    ) && text::lacks(document.fields[i].1, '+') by {
        if i == 6 {
            assert(document.fields[6].0 == "当前"@ + CHECKIN_CURRENCY_NAME@);
        } else if i == 8 {
            assert(document.fields[8].0 == "当日"@ + CHECKIN_CURRENCY_NAME@ + "奖励"@);
        }
    }
    assert(document.commands =~= seq!["状态"@]);
    lemma_text_without_plus_sign(document);
    assert(document.fields[0] == ("结果"@, "今日已签到"@));
    assert(message::text_lines(document)[1] == "结果"@ + "："@ + "今日已签到"@);
}

/// The day of the cycle that a check-in records.
pub open spec fn recorded_day(result: DailyCheckinResult) -> i64 {
    match result {
        DailyCheckinResult::Claimed(receipt) => receipt.cycle_day,
        DailyCheckinResult::AlreadyClaimed(receipt) => receipt.cycle_day,
    }
}

/// A daily check-in, or that its reward is not the one that the calendar gives.
pub fn daily_checkin_document(result: &DailyCheckinResult) -> (document: Result<
    GameDocument,
    String,
>)
    requires
        recorded_day(*result) > i64::MIN,
    ensures
        text::outcome(document) == daily_checkin(*result),
{
    let (receipt, already_claimed) = match result {
        DailyCheckinResult::Claimed(receipt) => (receipt, false),
        DailyCheckinResult::AlreadyClaimed(receipt) => (receipt, true),
    };
    if !same(&receipt.currency_code, CHECKIN_CURRENCY_CODE) {
        return Err("签到记录的奖励规则与当前版本不一致".to_owned());
    }
    match checkin_exp_reward(receipt.cycle_day) {
        Err(message) => Err(message),
        Ok(reward) => if reward != receipt.exp_reward {
            Err("签到记录的奖励规则与当前版本不一致".to_owned())
        } else {
            Ok(checkin_document(receipt, already_claimed))
        },
    }
}

/// The document with the state of the martial soul.
pub open spec fn wuhun_fields(d: Document, player: PlayerStatus) -> Document {
    match player.wuhun_enabled {
        Some(enabled) => {
            let d = d.field("武魂状态"@, (if enabled { "开启"@ } else { "关闭"@ }));
            match player.wuhun_stability {
                Some(stability) => {
                    match player.wuhun_max_stability {
                        Some(max_stability) => {
                            d.field(
                                "武魂稳定度"@,
                                text::integer(stability as int) + "/"@
                                    + text::integer(max_stability as int),
                            )
                        },
                        None => d,
                    }
                },
                None => d,
            }
        },
        None => d,
    }
}

fn add_wuhun_fields(document: GameDocument, player: &PlayerStatus) -> (result: GameDocument)
    ensures
        result@ == wuhun_fields(document@, *player),
{
    match player.wuhun_enabled {
        Some(enabled) => {
            let document = document.field("武魂状态", (if enabled { "开启" } else { "关闭" }));
            match player.wuhun_stability {
                Some(stability) => {
                    match player.wuhun_max_stability {
                        Some(max_stability) => {
                            document.field(
                                "武魂稳定度",
                                &cat3(&i64_text(stability), "/", &i64_text(max_stability)),
                            )
                        },
                        None => document,
                    }
                },
                None => document,
            }
        },
        None => document,
    }
}

/// The martial soul of a player, in words.
pub open spec fn wuhun_text(player: PlayerStatus) -> Seq<char> {
    match (player.wuhun_name, player.wuhun_category) {
        (Some(name), Some(category)) => name@ + "（"@ + category@ + "）"@,
        _ => "尚未觉醒"@,
    }
}

fn describe_wuhun(player: &PlayerStatus) -> (label: String)
    ensures
        label@ == wuhun_text(*player),
{
    match (&player.wuhun_name, &player.wuhun_category) {
        (Some(name), Some(category)) => cat4(name, "（", category, "）"),
        _ => "尚未觉醒".to_owned(),
    }
}

/// The level of a player, in words.
pub open spec fn realm_text(level: i64, progress: Option<ExperienceProgress>) -> Seq<char> {
    match progress {
        Some(progress) => text::integer(progress.level as int) + "级"@ + progress.title@,
        None => text::integer(level as int) + "级未知"@,
    }
}

fn describe_realm(level: i64, progress: &Option<ExperienceProgress>) -> (label: String)
    ensures
        label@ == realm_text(level, *progress),
{
    match progress {
        Some(progress) => cat3(&i64_text(progress.level), "级", &progress.title),
        None => cat2(&i64_text(level), "级未知"),
    }
}

/// The way to the next level, in words.
pub open spec fn progress_text(progress: Option<ExperienceProgress>) -> Seq<char> {
    match progress {
        Some(progress) => match progress.exp_for_next {
            Some(required) => text::integer(progress.exp_in_level as int) + " / "@ + text::integer(
                required as int,
            ),
            None => text::integer(progress.total_exp as int) + "（满级）"@,
        },
        None => "不可用"@,
    }
}

fn describe_progress(progress: &Option<ExperienceProgress>) -> (label: String)
    ensures
        label@ == progress_text(*progress),
{
    match progress {
        Some(progress) => match progress.exp_for_next {
            Some(required) => cat3(&i64_text(progress.exp_in_level), " / ", &i64_text(required)),
            None => cat2(&i64_text(progress.total_exp), "（满级）"),
        },
        None => "不可用".to_owned(),
    }
}

/// The state of a player. The progress is where the rules place the level and experience.
pub open spec fn status(
    player: PlayerStatus,
    progress: Option<ExperienceProgress>,
    picture: Option<Picture>,
) -> Document {
    let d = message::titled("角色状态"@)
        .field("角色"@, player.name@)
        .field("性别"@, player.gender@)
        .field("境界"@, realm_text(player.level, progress))
        .field("经验"@, text::integer(player.exp as int))
        .field("升级进度"@, progress_text(progress))
        .field(
            "生命"@,
            text::integer(player.hp as int) + "/"@ + text::integer(player.max_hp as int),
        )
        .field(
            "魂力"@,
            text::integer(player.soul_power as int) + "/"@
                + text::integer(player.max_soul_power as int),
        )
        .field("武魂"@, wuhun_text(player))
        .field("位置"@, player.map_name@)
        .field("转生"@, "第 "@ + text::integer(player.life_count as int) + " 世"@)
        .field("状态"@, player.state@);
    let d = wuhun_fields(d, player);
    d.illustration_if(picture)
}

/// The state of a player. The progress is where the rules place the level and experience.
pub fn status_document(
    player: &PlayerStatus,
    progress: &Option<ExperienceProgress>,
    picture: Option<Illustration>,
) -> (document: GameDocument)
    ensures
        document@ == status(*player, *progress, message::optional_picture(picture)),
{
    let document = GameDocument::new("角色状态")
        .field("角色", &player.name)
        .field("性别", &player.gender)
        .field("境界", &describe_realm(player.level, progress))
        .field("经验", &i64_text(player.exp))
        .field("升级进度", &describe_progress(progress))
        .field("生命", &cat3(&i64_text(player.hp), "/", &i64_text(player.max_hp)))
        .field("魂力", &cat3(&i64_text(player.soul_power), "/", &i64_text(player.max_soul_power)))
        .field("武魂", &describe_wuhun(player))
        .field("位置", &player.map_name)
        .field("转生", &cat3("第 ", &i64_text(player.life_count), " 世"))
        .field("状态", &player.state);
    let document = add_wuhun_fields(document, player);
    document.illustration_if(picture)
}

} // verus!
