//! How values of the game are put into words.
use crate::records::{
    BattleEventRecord, BattleSkillEffectRecord, ItemRecord, QuestReward, SkillDamageModifierRecord,
    SkillEffectRecord,
};
use crate::text;
use crate::text::{cat2, cat3, cat4, cat5, cat6, cat7, i64_text, same};
use vstd::prelude::*;
use vstd::string::*;

verus! {

/// What a character does.
pub open spec fn npc_kind(kind: Seq<char>) -> Seq<char> {
    if kind == "merchant"@ {
        "商人"@
    } else if kind == "elder"@ {
        "长者"@
    } else {
        "NPC"@
    }
}

/// What a character does.
pub fn npc_kind_label(kind: &str) -> (label: &'static str)
    ensures
        label@ == npc_kind(kind@),
{
    if same(kind, "merchant") {
        "商人"
    } else if same(kind, "elder") {
        "长者"
    } else {
        "NPC"
    }
}

/// The name of a direction.
pub open spec fn direction_name(direction: Seq<char>) -> Seq<char> {
    if direction == "north"@ {
        "上"@
    } else if direction == "south"@ {
        "下"@
    } else if direction == "west"@ {
        "左"@
    } else if direction == "east"@ {
        "右"@
    } else {
        "未知"@
    }
}

/// The name of a direction.
pub fn display_direction(direction: &str) -> (label: &'static str)
    ensures
        label@ == direction_name(direction@),
{
    if same(direction, "north") {
        "上"
    } else if same(direction, "south") {
        "下"
    } else if same(direction, "west") {
        "左"
    } else if same(direction, "east") {
        "右"
    } else {
        "未知"
    }
}

/// The state of a battle.
pub open spec fn battle_status(status: Seq<char>) -> Seq<char> {
    if status == "active"@ {
        "进行中"@
    } else if status == "won"@ {
        "胜利"@
    } else if status == "escaped"@ {
        "已逃跑"@
    } else if status == "defeated"@ {
        "战败"@
    } else {
        "未知"@
    }
}

/// The state of a battle.
pub fn battle_status_label(status: &str) -> (label: &'static str)
    ensures
        label@ == battle_status(status@),
{
    if same(status, "active") {
        "进行中"
    } else if same(status, "won") {
        "胜利"
    } else if same(status, "escaped") {
        "已逃跑"
    } else if same(status, "defeated") {
        "战败"
    } else {
        "未知"
    }
}

/// The colour of a soul ring.
pub open spec fn ring_color(color: Seq<char>) -> Seq<char> {
    if color == "white"@ {
        "白环"@
    } else if color == "yellow"@ {
        "黄环"@
    } else if color == "purple"@ {
        "紫环"@
    } else if color == "black"@ {
        "黑环"@
    } else if color == "red"@ {
        "红环"@
    } else {
        "未知魂环"@
    }
}

/// The colour of a soul ring.
pub fn soul_ring_color_label(color: &str) -> (label: &'static str)
    ensures
        label@ == ring_color(color@),
{
    if same(color, "white") {
        "白环"
    } else if same(color, "yellow") {
        "黄环"
    } else if same(color, "purple") {
        "紫环"
    } else if same(color, "black") {
        "黑环"
    } else if same(color, "red") {
        "红环"
    } else {
        "未知魂环"
    }
}

/// The quality of an item.
pub open spec fn item_quality(quality: i64) -> Seq<char> {
    "品质 "@ + text::integer(quality as int)
}

/// The quality of an item.
pub fn item_quality_label(quality: i64) -> (label: String)
    ensures
        label@ == item_quality(quality),
{
    cat2("品质 ", &i64_text(quality))
}

/// What an item does.
pub open spec fn item_effect(item: ItemRecord) -> Seq<char> {
    if item.effect_kind@ == "restore_hp"@ {
        "恢复 "@ + text::integer(item.effect_amount as int) + " 点生命"@
    } else if item.effect_kind@ == "restore_soul"@ {
        "恢复 "@ + text::integer(item.effect_amount as int) + " 点魂力"@
    } else if item.effect_kind@ == "revive"@ {
        "复活并恢复 "@ + text::integer(item.revive_hp_percent as int) + "% 生命"@
    } else {
        item.description@
    }
}

/// What an item does.
pub fn item_effect_description(item: &ItemRecord) -> (label: String)
    ensures
        label@ == item_effect(*item),
{
    if same(&item.effect_kind, "restore_hp") {
        cat3("恢复 ", &i64_text(item.effect_amount), " 点生命")
    } else if same(&item.effect_kind, "restore_soul") {
        cat3("恢复 ", &i64_text(item.effect_amount), " 点魂力")
    } else if same(&item.effect_kind, "revive") {
        cat3("复活并恢复 ", &i64_text(item.revive_hp_percent), "% 生命")
    } else {
        item.description.as_str().to_owned()
    }
}

/// What the rules say about the proficiency of a soul skill: the highest level, the
/// most that can be learned, and what the next level takes, where it is known.
#[derive(Clone, Copy, Debug, PartialEq, Eq, Structural)]
pub struct ProficiencyRules {
    pub max_level: i64,
    pub max_proficiency: i64,
    pub next_threshold: Option<i64>,
}

/// The proficiency of a soul skill.
pub open spec fn proficiency_label(level: i64, proficiency: i64, rules: ProficiencyRules) -> Seq<
    char,
> {
    if level >= rules.max_level {
        text::integer(proficiency as int) + "/"@ + text::integer(rules.max_proficiency as int)
            + "（满级）"@
    } else {
        match rules.next_threshold {
            Some(threshold) => text::integer(proficiency as int) + "/"@ + text::integer(
                threshold as int,
            ),
            None => text::integer(proficiency as int),
        }
    }
}

/// The proficiency of a soul skill.
pub fn skill_proficiency_label(level: i64, proficiency: i64, rules: ProficiencyRules) -> (label:
    String)
    ensures
        label@ == proficiency_label(level, proficiency, rules),
{
    if level >= rules.max_level {
        return cat4(&i64_text(proficiency), "/", &i64_text(rules.max_proficiency), "（满级）");
    }
    match rules.next_threshold {
        Some(threshold) => cat3(&i64_text(proficiency), "/", &i64_text(threshold)),
        None => i64_text(proficiency),
    }
}

/// How the level of a soul skill changes its damage.
pub open spec fn damage_modifier(modifier: SkillDamageModifierRecord) -> Seq<char> {
    "Lv."@ + text::integer(modifier.skill_level as int) + " · "@
        + text::integer(modifier.damage_percent as int) + "%"@
        + (if modifier.rule_version@ == "legacy"@ { "（历史规则）"@ } else { ""@ })
}

/// How the level of a soul skill changes its damage.
pub fn skill_damage_modifier_label(modifier: &SkillDamageModifierRecord) -> (label: String)
    ensures
        label@ == damage_modifier(*modifier),
{
    cat6(
        "Lv.",
        &i64_text(modifier.skill_level),
        " · ",
        &i64_text(modifier.damage_percent),
        "%",
        (if same(&modifier.rule_version, "legacy") { "（历史规则）" } else { "" }),
    )
}

/// The effect of a soul skill.
pub open spec fn skill_effect(effect: SkillEffectRecord) -> Seq<char> {
    if effect.effect_kind@ == "beast_attack_reduction"@ && effect.target_kind@ == "enemy"@ {
        "魂兽攻击 -"@ + text::integer(effect.magnitude_percent as int) + "% · "@
            + text::integer(effect.duration_rounds as int) + " 回合"@
    } else {
        effect.description@
    }
}

/// The effect of a soul skill.
pub fn skill_effect_label(effect: &SkillEffectRecord) -> (label: String)
    ensures
        label@ == skill_effect(*effect),
{
    if same(&effect.effect_kind, "beast_attack_reduction") && same(&effect.target_kind, "enemy") {
        cat5(
            "魂兽攻击 -",
            &i64_text(effect.magnitude_percent),
            "% · ",
            &i64_text(effect.duration_rounds),
            " 回合",
        )
    } else {
        effect.description.as_str().to_owned()
    }
}

/// An effect in a battle.
pub open spec fn battle_effect(effect: BattleSkillEffectRecord) -> Seq<char> {
    if effect.effect_kind@ == "beast_attack_reduction"@ && effect.target_kind@ == "enemy"@ {
        "魂兽攻击 -"@ + text::integer(effect.magnitude_percent as int) + "%"@
    } else {
        effect.description@
    }
}

/// An effect in a battle.
pub fn battle_skill_effect_short_label(effect: &BattleSkillEffectRecord) -> (label: String)
    ensures
        label@ == battle_effect(*effect),
{
    if same(&effect.effect_kind, "beast_attack_reduction") && same(&effect.target_kind, "enemy") {
        cat3("魂兽攻击 -", &i64_text(effect.magnitude_percent), "%")
    } else {
        effect.description.as_str().to_owned()
    }
}

/// An effect in a battle and how long it lasts.
pub open spec fn lasting_effect(effect: BattleSkillEffectRecord) -> Seq<char> {
    battle_effect(effect) + " · "@ + text::integer(effect.duration_rounds as int) + " 回合"@
}

/// An effect in a battle and how long it lasts.
pub fn battle_skill_effect_label(effect: &BattleSkillEffectRecord) -> (label: String)
    ensures
        label@ == lasting_effect(*effect),
{
    cat4(
        &battle_skill_effect_short_label(effect),
        " · ",
        &i64_text(effect.duration_rounds),
        " 回合",
    )
}

/// How many rounds an effect has left.
pub open spec fn rounds_left(expires_after: int, current: int) -> int {
    if expires_after <= current {
        0
    } else if expires_after - current > i64::MAX {
        i64::MAX as int
    } else {
        expires_after - current
    }
}

fn remaining_rounds(expires_after: i64, current: i64) -> (rounds: i64)
    ensures
        rounds == rounds_left(expires_after as int, current as int),
{
    if expires_after <= current {
        return 0;
    }
    match expires_after.checked_sub(current) {
        Some(rounds) => rounds,
        None => i64::MAX,
    }
}

/// An effect that still lasts.
pub open spec fn active_effect(
    effect: BattleSkillEffectRecord,
    current_sequence: i64,
) -> Seq<char> {
    effect.skill_name@ + " · "@ + battle_effect(effect) + " · 剩余 "@
        + text::integer(rounds_left(effect.expires_after_sequence as int, current_sequence as int))
        + " 回合"@
}

/// An effect that still lasts.
pub fn active_battle_skill_effect_label(
    effect: &BattleSkillEffectRecord,
    current_sequence: i64,
) -> (label: String)
    ensures
        label@ == active_effect(*effect, current_sequence),
{
    cat6(
        &effect.skill_name,
        " · ",
        &battle_skill_effect_short_label(effect),
        " · 剩余 ",
        &i64_text(remaining_rounds(effect.expires_after_sequence, current_sequence)),
        " 回合",
    )
}

/// What a quest pays, in words.
pub open spec fn reward_text(reward: QuestReward) -> Seq<char> {
    if reward.reward_kind@ == "exp"@ {
        "经验 x"@ + text::integer(reward.amount as int)
    } else if reward.reward_kind@ == "currency"@ {
        (match reward.currency_code {
            Some(code) => code@,
            None => "货币"@,
        }) + " x"@ + text::integer(reward.amount as int)
    } else if reward.reward_kind@ == "item"@ {
        (match reward.item {
            Some(item) => item.name@,
            None => "物品"@,
        }) + " x"@ + text::integer(reward.amount as int)
    } else {
        "奖励 x"@ + text::integer(reward.amount as int)
    }
}

/// What a quest pays, in words.
pub fn quest_reward_text(reward: &QuestReward) -> (label: String)
    ensures
        label@ == reward_text(*reward),
{
    let amount = i64_text(reward.amount);
    if same(&reward.reward_kind, "exp") {
        cat2("经验 x", &amount)
    } else if same(&reward.reward_kind, "currency") {
        match &reward.currency_code {
            Some(code) => cat3(code, " x", &amount),
            None => cat3("货币", " x", &amount),
        }
    } else if same(&reward.reward_kind, "item") {
        match &reward.item {
            Some(item) => cat3(&item.name, " x", &amount),
            None => cat3("物品", " x", &amount),
        }
    } else {
        cat2("奖励 x", &amount)
    }
}

/// What was done in a battle.
pub open spec fn battle_action_name(event: BattleEventRecord) -> Seq<char> {
    match event.skill_name {
        Some(name) => "魂技 "@ + name@,
        None => if event.event_kind@ == "challenge"@ {
            "挑战"@
        } else if event.event_kind@ == "attack"@ {
            "攻击"@
        } else if event.event_kind@ == "flee"@ {
            "逃跑"@
        } else {
            "未知动作"@
        },
    }
}

fn action_name(event: &BattleEventRecord) -> (name: String)
    ensures
        name@ == battle_action_name(*event),
{
    match &event.skill_name {
        Some(name) => cat2("魂技 ", name),
        None => if same(&event.event_kind, "challenge") {
            "挑战".to_owned()
        } else if same(&event.event_kind, "attack") {
            "攻击".to_owned()
        } else if same(&event.event_kind, "flee") {
            "逃跑".to_owned()
        } else {
            "未知动作".to_owned()
        },
    }
}

/// One line of the battle log.
pub open spec fn battle_event_line(event: BattleEventRecord) -> Seq<char> {
    let head = "#"@ + text::integer(event.sequence as int) + " · "@ + battle_action_name(event)
        + " · 玩家 "@ + text::integer(event.player_hp_before as int) + "/"@ + text::integer(
        event.player_hp_after as int,
    ) + " · 魂兽 "@ + text::integer(event.beast_hp_before as int) + "/"@ + text::integer(
        event.beast_hp_after as int,
    );
    let damage = if event.player_damage > 0 || event.beast_damage > 0 {
        " · 伤害 "@ + text::integer(event.player_damage as int) + "/"@ + text::integer(
            event.beast_damage as int,
        )
    } else {
        ""@
    };
    let flight = match event.flee_success {
        Some(true) => " · 逃跑成功"@,
        Some(false) => " · 逃跑失败"@,
        None => ""@,
    };
    head + damage + flight + " · "@ + battle_status(event.status_after@)
}

/// One line of the battle log.
pub fn format_battle_event(event: &BattleEventRecord) -> (line: String)
    ensures
        line@ == battle_event_line(*event),
{
    let head = cat5(
        &cat7(
            "#",
            &i64_text(event.sequence),
            " · ",
            &action_name(event),
            " · 玩家 ",
            &i64_text(event.player_hp_before),
            "/",
        ),
        &i64_text(event.player_hp_after),
        " · 魂兽 ",
        &i64_text(event.beast_hp_before),
        "/",
    );
    let head = cat2(&head, &i64_text(event.beast_hp_after));
    let damage = if event.player_damage > 0 || event.beast_damage > 0 {
        cat4(" · 伤害 ", &i64_text(event.player_damage), "/", &i64_text(event.beast_damage))
    } else {
        "".to_owned()
    };
    let flight = match event.flee_success {
        Some(true) => " · 逃跑成功",
        Some(false) => " · 逃跑失败",
        None => "",
    };
    cat5(&head, &damage, flight, " · ", battle_status_label(&event.status_after))
}

} // verus!
