//! What the documents about players show.
use crate::labels;
use crate::labels::ProficiencyRules;
use crate::message;
use crate::message::{Document, Picture};
use crate::player_documents;
use crate::records::{
    DailyCheckinReceipt, DailyCheckinResult, ExperienceProgress, OwnedSoulRing, PlayerStatus,
    SkillDetail, SkillEffectRecord, SkillEntry, SkillLoadoutReceipt, SkillPage,
    SoulRingAbsorbReceipt, SoulRingDrop, SoulRingPage, WuhunRecord, WuhunToggleReceipt,
};
use crate::text;
use vstd::prelude::*;

verus! {

/// A new player sees their name, gender and birthplace, their life and soul power of the
/// most there is, and is led to the awakening.
pub proof fn a_new_player_is_shown_with_their_birthplace(
    player: PlayerStatus,
    picture: Option<Picture>,
)
    ensures
        ({
            let shown = player_documents::registered(player, picture);
            &&& shown.title == "穿越成功"@
            &&& shown.lines.len() == 0
            &&& shown.fields == seq![
                ("角色"@, player.name@),
                ("性别"@, player.gender@),
                ("出生地"@, player.map_name@),
                (
                    "生命"@,
                    text::integer(player.hp as int) + "/"@ + text::integer(player.max_hp as int),
                ),
                (
                    "魂力"@,
                    text::integer(player.soul_power as int) + "/"@
                        + text::integer(player.max_soul_power as int),
                ),
            ]
            &&& shown.commands == seq!["武魂觉醒"@, "状态"@]
            &&& shown.notice == None::<Seq<char>>
            &&& shown.illustration == picture
        }),
{
    let shown = player_documents::registered(player, picture);
    assert(shown.fields =~= seq![
        ("角色"@, player.name@),
        ("性别"@, player.gender@),
        ("出生地"@, player.map_name@),
        ("生命"@, text::integer(player.hp as int) + "/"@ + text::integer(player.max_hp as int)),
        (
            "魂力"@,
            text::integer(player.soul_power as int) + "/"@
                + text::integer(player.max_soul_power as int),
        ),
    ]);
    assert(shown.commands =~= seq!["武魂觉醒"@, "状态"@]);
}

/// An awakening shows the spirit with its category, form and description, each under its name.
pub proof fn an_awakening_shows_the_spirit(wuhun: WuhunRecord, picture: Option<Picture>)
    ensures
        ({
            let shown = player_documents::awakened(wuhun, picture);
            &&& shown.title == "武魂觉醒"@
            &&& shown.lines == seq!["觉醒仪式完成，你感受到一股崭新的力量。"@]
            &&& shown.fields == seq![
                ("武魂"@, wuhun.name@),
                ("类别"@, wuhun.category@),
                ("形态"@, wuhun.form@),
                ("描述"@, wuhun.description@),
            ]
            &&& shown.commands == seq!["状态"@]
            &&& shown.notice == None::<Seq<char>>
            &&& shown.illustration == picture
        }),
{
    let shown = player_documents::awakened(wuhun, picture);
    assert(shown.lines =~= seq!["觉醒仪式完成，你感受到一股崭新的力量。"@]);
    assert(shown.fields =~= seq![
        ("武魂"@, wuhun.name@),
        ("类别"@, wuhun.category@),
        ("形态"@, wuhun.form@),
        ("描述"@, wuhun.description@),
    ]);
    assert(shown.commands =~= seq!["状态"@]);
}

/// Each effect of a skill is a field of its own, in order.
pub proof fn each_effect_of_a_skill_is_a_field(d: Document, list: Seq<SkillEffectRecord>)
    ensures
        ({
            let r = player_documents::effect_fields(d, list);
            let n = list.len() as int;
            &&& r.title == d.title
            &&& r.notice == d.notice
            &&& r.illustration == d.illustration
            &&& r.lines == d.lines
            &&& r.fields.len() == d.fields.len() + n
            &&& d.fields.is_prefix_of(r.fields)
            &&& forall|i: int| #![trigger list[i]] 0 <= i < n ==> {
                &&& r.fields[d.fields.len() + i] == ("附加效果"@, labels::skill_effect(list[i]))
            }
            &&& r.commands == d.commands
        }),
    decreases list.len(),
{
    if list.len() > 0 {
        each_effect_of_a_skill_is_a_field(d, list.drop_last());
        let before = player_documents::effect_fields(d, list.drop_last());
        assert forall|i: int| 0 <= i < list.len() - 1 implies list.drop_last()[i] == #[trigger] list[i] by {}
        assert(player_documents::effect_fields(d, list).fields.len() == before.fields.len() + 1);
        assert(before.fields.is_prefix_of(player_documents::effect_fields(d, list).fields));
    }
}

/// What the list adds does not depend on what stands before it.
proof fn lemma_effect_fields_frame(list: Seq<SkillEffectRecord>)
    ensures
        forall|d: Document| #[trigger]
            player_documents::effect_fields(d, list) == (
            Document {
                fields: d.fields + player_documents::effect_fields(message::titled(""@), list).fields,
                ..d
            }),
    decreases list.len(),
{
    let none = message::titled(""@);
    let less = list.drop_last();
    if list.len() > 0 {
        lemma_effect_fields_frame(less);
    }
    assert forall|d: Document| #[trigger]
        player_documents::effect_fields(d, list) == (
            Document {
                fields: d.fields + player_documents::effect_fields(message::titled(""@), list).fields,
                ..d
            }) by {
        if list.len() > 0 {
            assert(player_documents::effect_fields(d, less).fields == d.fields + player_documents::effect_fields(none, less).fields);
            assert(player_documents::effect_fields(none, less).fields == none.fields + player_documents::effect_fields(none, less).fields);
        }
        assert(player_documents::effect_fields(d, list).fields =~= d.fields + player_documents::effect_fields(none, list).fields);
    }
}

/// A skill is shown with its type, ring, level, proficiency, whether it is equipped, cost,
/// rest, damage and multiplier, each under its name.
pub proof fn a_skill_is_shown_in_full(
    detail: SkillDetail,
    rules: ProficiencyRules,
    damage_percent: i64,
)
    ensures
        ({
            let shown = player_documents::skill_detail(detail, rules, damage_percent);
            &&& shown.title == "魂技详情 · "@ + detail.entry.skill.name@
            &&& shown.lines == seq![detail.entry.skill.description@]
            &&& shown.fields == seq![
                    ("类型"@, detail.entry.skill.skill_type@),
                    ("魂环"@, "第"@ + text::integer(detail.entry.skill.ring_index as int) + "魂技"@),
                    ("等级"@, text::integer(detail.entry.level as int)),
                    (
                        "熟练度"@,
                        labels::proficiency_label(detail.entry.level, detail.entry.proficiency, rules),
                    ),
                    ("装备状态"@, (if detail.entry.equipped { "已装备"@ } else { "未装备"@ })),
                    ("魂力消耗"@, text::integer(detail.entry.skill.soul_power_cost as int)),
                    ("冷却"@, text::integer(detail.entry.skill.cooldown_rounds as int) + " 回合"@),
                    ("基础伤害"@, text::integer(detail.entry.skill.base_damage as int)),
                    ("等级伤害倍率"@, text::integer(damage_percent as int) + "%"@),
                ]
                + player_documents::effect_fields(message::titled(""@), detail.effects@).fields
            &&& shown.commands == seq!["技能"@, "释放技能 "@ + detail.entry.skill.name@]
            &&& shown.notice == None::<Seq<char>>
            &&& shown.illustration == None::<message::Picture>
        }),
{
    let shown = player_documents::skill_detail(detail, rules, damage_percent);
    lemma_effect_fields_frame(detail.effects@);
    assert(shown.lines =~= seq![detail.entry.skill.description@]);
    assert(shown.fields =~= seq![
            ("类型"@, detail.entry.skill.skill_type@),
            ("魂环"@, "第"@ + text::integer(detail.entry.skill.ring_index as int) + "魂技"@),
            ("等级"@, text::integer(detail.entry.level as int)),
            (
                "熟练度"@,
                labels::proficiency_label(detail.entry.level, detail.entry.proficiency, rules),
            ),
            ("装备状态"@, (if detail.entry.equipped { "已装备"@ } else { "未装备"@ })),
            ("魂力消耗"@, text::integer(detail.entry.skill.soul_power_cost as int)),
            ("冷却"@, text::integer(detail.entry.skill.cooldown_rounds as int) + " 回合"@),
            ("基础伤害"@, text::integer(detail.entry.skill.base_damage as int)),
            ("等级伤害倍率"@, text::integer(damage_percent as int) + "%"@),
        ] + player_documents::effect_fields(message::titled(""@), detail.effects@).fields);
    assert(shown.commands =~= seq!["技能"@, "释放技能 "@ + detail.entry.skill.name@]);
}

/// Equipping shows whether the skill is equipped now, how many of how many places are taken,
/// and offers the opposite; a repeated request is answered as a receipt.
pub proof fn equipping_shows_the_state_and_offers_the_opposite(receipt: SkillLoadoutReceipt)
    ensures
        ({
            let shown = player_documents::skill_loadout(receipt);
            &&& shown.title == player_documents::loadout_title(receipt)
            &&& shown.lines.len() == 0
            &&& shown.fields == seq![
                ("魂技"@, receipt.skill.name@),
                ("状态"@, (if receipt.equipped { "已装备"@ } else { "未装备"@ })),
                (
                    "装备位"@,
                    text::integer(receipt.equipped_count as int) + "/"@
                        + text::integer(receipt.capacity as int),
                ),
            ]
            &&& shown.commands == seq![
                "技能"@,
                (if receipt.equipped { "卸下"@ } else { "装备"@ }) + "魂技 "@ + receipt.skill.name@,
            ]
            &&& shown.notice == Some(
                if receipt.replayed { "检测到相同消息的重复请求，已返回原装备回执，未重复变更状态"@ } else { "魂技装备状态、操作日志和不可变装备事件已在同一事务完成"@ },
            )
            &&& shown.illustration == None::<message::Picture>
        }),
{
    let shown = player_documents::skill_loadout(receipt);
    assert(shown.fields =~= seq![
        ("魂技"@, receipt.skill.name@),
        ("状态"@, (if receipt.equipped { "已装备"@ } else { "未装备"@ })),
        (
            "装备位"@,
            text::integer(receipt.equipped_count as int) + "/"@
                + text::integer(receipt.capacity as int),
        ),
    ]);
    assert(shown.commands =~= seq!["技能"@, (if receipt.equipped { "卸下"@ } else { "装备"@ }) + "魂技 "@ + receipt.skill.name@]);
}

/// Each ring has a line with its place, name, colour and age, and one with its skill.
pub proof fn each_ring_has_two_lines(d: Document, list: Seq<OwnedSoulRing>)
    ensures
        ({
            let r = player_documents::rings_lines(d, list);
            let n = list.len() as int;
            &&& r.title == d.title
            &&& r.notice == d.notice
            &&& r.illustration == d.illustration
            &&& r.lines.len() == d.lines.len() + 2 * n
            &&& d.lines.is_prefix_of(r.lines)
            &&& forall|i: int| #![trigger list[i]] 0 <= i < n ==> {
                &&& r.lines[d.lines.len() + 2 * i] == "第"@ + text::integer(list[i].ring_index as int) + "魂环 · "@ + list[i].ring.name@
                    + " · "@ + labels::ring_color(list[i].ring.color@) + " · "@
                    + text::integer(list[i].ring.age as int) + "年"@
                &&& r.lines[d.lines.len() + 2 * i + 1] == "魂技："@ + list[i].ring.skill.name@
            }
            &&& r.fields == d.fields
            &&& r.commands == d.commands
        }),
    decreases list.len(),
{
    if list.len() > 0 {
        each_ring_has_two_lines(d, list.drop_last());
        let before = player_documents::rings_lines(d, list.drop_last());
        assert forall|i: int| 0 <= i < list.len() - 1 implies list.drop_last()[i] == #[trigger] list[i] by {}
        assert(player_documents::rings_lines(d, list).lines.len() == before.lines.len() + 2);
        assert(before.lines.is_prefix_of(player_documents::rings_lines(d, list).lines));
    }
}

/// What the list adds does not depend on what stands before it.
proof fn lemma_rings_lines_frame(list: Seq<OwnedSoulRing>)
    ensures
        forall|d: Document| #[trigger]
            player_documents::rings_lines(d, list) == (
            Document {
                lines: d.lines + player_documents::rings_lines(message::titled(""@), list).lines,
                ..d
            }),
    decreases list.len(),
{
    let none = message::titled(""@);
    let less = list.drop_last();
    if list.len() > 0 {
        lemma_rings_lines_frame(less);
    }
    assert forall|d: Document| #[trigger]
        player_documents::rings_lines(d, list) == (
            Document {
                lines: d.lines + player_documents::rings_lines(message::titled(""@), list).lines,
                ..d
            }) by {
        if list.len() > 0 {
            assert(player_documents::rings_lines(d, less).lines == d.lines + player_documents::rings_lines(none, less).lines);
            assert(player_documents::rings_lines(none, less).lines == none.lines + player_documents::rings_lines(none, less).lines);
        }
        assert(player_documents::rings_lines(d, list).lines =~= d.lines + player_documents::rings_lines(none, list).lines);
    }
}

/// Each ring that waits has a line with beast, name and age, and the command that absorbs it.
pub proof fn each_pending_ring_can_be_absorbed(d: Document, list: Seq<SoulRingDrop>)
    ensures
        ({
            let r = player_documents::pending_rings(d, list);
            let n = list.len() as int;
            &&& r.title == d.title
            &&& r.notice == d.notice
            &&& r.illustration == d.illustration
            &&& r.lines.len() == d.lines.len() + n
            &&& d.lines.is_prefix_of(r.lines)
            &&& forall|i: int| #![trigger list[i]] 0 <= i < n ==> {
                &&& r.lines[d.lines.len() + i] == list[i].ring.soul_beast_name@ + " · "@ + list[i].ring.name@ + " · "@
                    + text::integer(list[i].ring.age as int) + "年"@
            }
            &&& r.fields == d.fields
            &&& r.commands.len() == d.commands.len() + n
            &&& d.commands.is_prefix_of(r.commands)
            &&& forall|i: int| #![trigger list[i]] 0 <= i < n ==> {
                &&& r.commands[d.commands.len() + i] == "吸收魂环 "@ + list[i].ring.soul_beast_name@
            }
        }),
    decreases list.len(),
{
    if list.len() > 0 {
        each_pending_ring_can_be_absorbed(d, list.drop_last());
        let before = player_documents::pending_rings(d, list.drop_last());
        assert forall|i: int| 0 <= i < list.len() - 1 implies list.drop_last()[i] == #[trigger] list[i] by {}
        assert(player_documents::pending_rings(d, list).lines.len() == before.lines.len() + 1);
        assert(before.lines.is_prefix_of(player_documents::pending_rings(d, list).lines));
        assert(player_documents::pending_rings(d, list).commands.len() == before.commands.len() + 1);
        assert(before.commands.is_prefix_of(player_documents::pending_rings(d, list).commands));
    }
}

/// What the list adds does not depend on what stands before it.
proof fn lemma_pending_rings_frame(list: Seq<SoulRingDrop>)
    ensures
        forall|d: Document| #[trigger]
            player_documents::pending_rings(d, list) == (
            Document {
                lines: d.lines + player_documents::pending_rings(message::titled(""@), list).lines,
                commands: d.commands + player_documents::pending_rings(message::titled(""@), list).commands,
                ..d
            }),
    decreases list.len(),
{
    let none = message::titled(""@);
    let less = list.drop_last();
    if list.len() > 0 {
        lemma_pending_rings_frame(less);
    }
    assert forall|d: Document| #[trigger]
        player_documents::pending_rings(d, list) == (
            Document {
                lines: d.lines + player_documents::pending_rings(message::titled(""@), list).lines,
                commands: d.commands + player_documents::pending_rings(message::titled(""@), list).commands,
                ..d
            }) by {
        if list.len() > 0 {
            assert(player_documents::pending_rings(d, less).lines == d.lines + player_documents::pending_rings(none, less).lines);
            assert(player_documents::pending_rings(none, less).lines == none.lines + player_documents::pending_rings(none, less).lines);
            assert(player_documents::pending_rings(d, less).commands == d.commands + player_documents::pending_rings(none, less).commands);
            assert(player_documents::pending_rings(none, less).commands == none.commands + player_documents::pending_rings(none, less).commands);
        }
        assert(player_documents::pending_rings(d, list).lines =~= d.lines + player_documents::pending_rings(none, list).lines);
        assert(player_documents::pending_rings(d, list).commands =~= d.commands + player_documents::pending_rings(none, list).commands);
    }
}

/// The rings that were absorbed stand before those that wait, with the places taken of those
/// there are.
pub proof fn rings_stand_before_those_that_wait(page: SoulRingPage)
    ensures
        ({
            let shown = player_documents::soul_rings(page);
            &&& shown.title == "魂环列表"@
            &&& shown.lines == (if page.rings@.len() == 0 { seq!["你还没有吸收任何魂环"@] } else { player_documents::rings_lines(message::titled(""@), page.rings@).lines }) + (if page.pending@.len() == 0 { seq!["当前没有待吸收魂环"@] } else { seq!["待吸收魂环："@] + player_documents::pending_rings(message::titled(""@), page.pending@).lines })
            &&& shown.fields == seq![
                (
                    "魂环槽位"@,
                    text::decimal(page.rings@.len()) + "/"@
                        + text::integer(page.ring_capacity as int),
                ),
            ]
            &&& shown.commands == (if page.pending@.len() == 0 { Seq::<Seq<char>>::empty() } else { player_documents::pending_rings(message::titled(""@), page.pending@).commands }) + seq!["技能"@, "状态"@]
            &&& shown.notice == None::<Seq<char>>
            &&& shown.illustration == None::<message::Picture>
        }),
{
    let shown = player_documents::soul_rings(page);
    lemma_rings_lines_frame(page.rings@);
    lemma_pending_rings_frame(page.pending@);
    assert(shown.lines =~= (if page.rings@.len() == 0 { seq!["你还没有吸收任何魂环"@] } else { player_documents::rings_lines(message::titled(""@), page.rings@).lines }) + (if page.pending@.len() == 0 { seq!["当前没有待吸收魂环"@] } else { seq!["待吸收魂环："@] + player_documents::pending_rings(message::titled(""@), page.pending@).lines }));
    assert(shown.fields =~= seq![
        (
            "魂环槽位"@,
            text::decimal(page.rings@.len()) + "/"@ + text::integer(page.ring_capacity as int),
        ),
    ]);
    assert(shown.commands =~= (if page.pending@.len() == 0 { Seq::<Seq<char>>::empty() } else { player_documents::pending_rings(message::titled(""@), page.pending@).commands }) + seq!["技能"@, "状态"@]);
}

/// Absorbing shows the ring, its beast, age, colour, skill and place; a repeated request is
/// answered as a receipt.
pub proof fn absorbing_shows_the_ring_and_its_skill(receipt: SoulRingAbsorbReceipt)
    ensures
        ({
            let shown = player_documents::absorbed_ring(receipt);
            &&& shown.title == (if receipt.replayed { "魂环吸收回执"@ } else { "魂环吸收成功"@ })
            &&& shown.lines.len() == 0
            &&& shown.fields == seq![
                ("魂环"@, receipt.ring.ring.name@),
                ("魂兽"@, receipt.ring.ring.soul_beast_name@),
                ("年限"@, text::integer(receipt.ring.ring.age as int) + "年"@),
                ("品质"@, labels::ring_color(receipt.ring.ring.color@)),
                ("魂技"@, receipt.skill.name@),
                ("魂环槽位"@, "第"@ + text::integer(receipt.ring.ring_index as int) + "魂环"@),
            ]
            &&& shown.commands == seq!["魂环"@, "技能"@]
            &&& shown.notice == Some(
                if receipt.replayed { "检测到相同消息的重复请求，已返回原吸收回执，未重复占用魂环槽位"@ } else { "魂环、魂技绑定、操作日志和吸收事件已在同一事务完成"@ },
            )
            &&& shown.illustration == None::<message::Picture>
        }),
{
    let shown = player_documents::absorbed_ring(receipt);
    assert(shown.fields =~= seq![
        ("魂环"@, receipt.ring.ring.name@),
        ("魂兽"@, receipt.ring.ring.soul_beast_name@),
        ("年限"@, text::integer(receipt.ring.ring.age as int) + "年"@),
        ("品质"@, labels::ring_color(receipt.ring.ring.color@)),
        ("魂技"@, receipt.skill.name@),
        ("魂环槽位"@, "第"@ + text::integer(receipt.ring.ring_index as int) + "魂环"@),
    ]);
    assert(shown.commands =~= seq!["魂环"@, "技能"@]);
}

/// Each skill has a line with place, name, level, state, cost and rest, one with its
/// proficiency by its own rules, its description, and the command that shows it in full.
pub proof fn each_skill_has_three_lines(
    d: Document,
    list: Seq<SkillEntry>,
    rules: Seq<ProficiencyRules>,
)
    ensures
        ({
            let r = player_documents::skills_lines(d, list, rules);
            let n = list.len() as int;
            &&& r.title == d.title
            &&& r.notice == d.notice
            &&& r.illustration == d.illustration
            &&& r.lines.len() == d.lines.len() + 3 * n
            &&& d.lines.is_prefix_of(r.lines)
            &&& forall|i: int| #![trigger list[i]] 0 <= i < n ==> {
                &&& r.lines[d.lines.len() + 3 * i] == "#"@ + text::integer(list[i].skill.ring_index as int) + " · "@
                    + list[i].skill.name@ + " · Lv."@ + text::integer(list[i].level as int)
                    + " · "@ + (if list[i].equipped { "已装备"@ } else { "未装备"@ }) + " · "@
                    + text::integer(list[i].skill.soul_power_cost as int) + "魂力 · 冷却 "@
                    + text::integer(list[i].skill.cooldown_rounds as int) + " 回合"@
                &&& r.lines[d.lines.len() + 3 * i + 1] == "熟练度："@
                    + labels::proficiency_label(list[i].level, list[i].proficiency, rules[i])
                &&& r.lines[d.lines.len() + 3 * i + 2] == list[i].skill.description@
            }
            &&& r.fields == d.fields
            &&& r.commands.len() == d.commands.len() + n
            &&& d.commands.is_prefix_of(r.commands)
            &&& forall|i: int| #![trigger list[i]] 0 <= i < n ==> {
                &&& r.commands[d.commands.len() + i] == "技能详情 "@ + list[i].skill.name@
            }
        }),
    decreases list.len(),
{
    if list.len() > 0 {
        each_skill_has_three_lines(d, list.drop_last(), rules);
        let before = player_documents::skills_lines(d, list.drop_last(), rules);
        assert forall|i: int| 0 <= i < list.len() - 1 implies list.drop_last()[i] == #[trigger] list[i] by {}
        assert(player_documents::skills_lines(d, list, rules).lines.len() == before.lines.len() + 3);
        assert(before.lines.is_prefix_of(player_documents::skills_lines(d, list, rules).lines));
        assert(player_documents::skills_lines(d, list, rules).commands.len() == before.commands.len() + 1);
        assert(before.commands.is_prefix_of(player_documents::skills_lines(d, list, rules).commands));
    }
}

/// What the list adds does not depend on what stands before it.
proof fn lemma_skills_lines_frame(list: Seq<SkillEntry>, rules: Seq<ProficiencyRules>)
    ensures
        forall|d: Document| #[trigger]
            player_documents::skills_lines(d, list, rules) == (
            Document {
                lines: d.lines + player_documents::skills_lines(message::titled(""@), list, rules).lines,
                commands: d.commands + player_documents::skills_lines(message::titled(""@), list, rules).commands,
                ..d
            }),
    decreases list.len(),
{
    let none = message::titled(""@);
    let less = list.drop_last();
    if list.len() > 0 {
        lemma_skills_lines_frame(less, rules);
    }
    assert forall|d: Document| #[trigger]
        player_documents::skills_lines(d, list, rules) == (
            Document {
                lines: d.lines + player_documents::skills_lines(message::titled(""@), list, rules).lines,
                commands: d.commands + player_documents::skills_lines(message::titled(""@), list, rules).commands,
                ..d
            }) by {
        if list.len() > 0 {
            assert(player_documents::skills_lines(d, less, rules).lines == d.lines + player_documents::skills_lines(none, less, rules).lines);
            assert(player_documents::skills_lines(none, less, rules).lines == none.lines + player_documents::skills_lines(none, less, rules).lines);
            assert(player_documents::skills_lines(d, less, rules).commands == d.commands + player_documents::skills_lines(none, less, rules).commands);
            assert(player_documents::skills_lines(none, less, rules).commands == none.commands + player_documents::skills_lines(none, less, rules).commands);
        }
        assert(player_documents::skills_lines(d, list, rules).lines =~= d.lines + player_documents::skills_lines(none, list, rules).lines);
        assert(player_documents::skills_lines(d, list, rules).commands =~= d.commands + player_documents::skills_lines(none, list, rules).commands);
    }
}

/// The skills stand below the soul power; a player without skills is told how to get one.
pub proof fn skills_stand_below_the_soul_power(page: SkillPage, rules: Seq<ProficiencyRules>)
    ensures
        ({
            let shown = player_documents::skills(page, rules);
            &&& shown.title == "魂技列表"@
            &&& shown.lines == (if page.entries@.len() == 0 {
                seq!["你还没有学习任何魂技"@]
            } else {
                player_documents::skills_lines(message::titled(""@), page.entries@, rules).lines
            })
            &&& shown.fields == seq![
                (
                    "魂力"@,
                    text::integer(page.soul_power as int) + "/"@
                        + text::integer(page.max_soul_power as int),
                ),
            ]
            &&& shown.commands == (if page.entries@.len() == 0 {
                Seq::<Seq<char>>::empty()
            } else {
                player_documents::skills_lines(message::titled(""@), page.entries@, rules).commands
                    + seq!["状态"@]
            })
            &&& shown.notice == (if page.entries@.len() == 0 { Some("觉醒武魂后会获得基础魂技"@) } else { None })
            &&& shown.illustration == None::<message::Picture>
        }),
{
    let shown = player_documents::skills(page, rules);
    lemma_skills_lines_frame(page.entries@, rules);
    assert(shown.lines =~= (if page.entries@.len() == 0 {
        seq!["你还没有学习任何魂技"@]
    } else {
        player_documents::skills_lines(message::titled(""@), page.entries@, rules).lines
    }));
    assert(shown.fields =~= seq![
        (
            "魂力"@,
            text::integer(page.soul_power as int) + "/"@
                + text::integer(page.max_soul_power as int),
        ),
    ]);
    assert(shown.commands =~= (if page.entries@.len() == 0 {
        Seq::<Seq<char>>::empty()
    } else {
        player_documents::skills_lines(message::titled(""@), page.entries@, rules).commands
            + seq!["状态"@]
    }));
}

/// Opening and closing the spirit are told apart by title and notice; the state shown is that
/// of the receipt, and the opposite of it is offered.
pub proof fn toggling_shows_the_state_and_offers_the_opposite(
    receipt: WuhunToggleReceipt,
    enabled: bool,
    picture: Option<Picture>,
)
    ensures
        ({
            let shown = player_documents::wuhun_toggle(receipt, enabled, picture);
            &&& shown.title == (if enabled { "武魂开启"@ } else { "武魂关闭"@ })
            &&& shown.lines.len() == 0
            &&& shown.fields == seq![
                ("武魂"@, receipt.state.name@),
                ("状态"@, (if receipt.state.enabled { "开启"@ } else { "关闭"@ })),
                (
                    "稳定度"@,
                    text::integer(receipt.state.stability as int) + "/"@
                        + text::integer(receipt.state.max_stability as int),
                ),
            ]
            &&& shown.commands == (if receipt.state.enabled { seq!["关武魂"@, "状态"@] } else { seq!["开武魂"@, "状态"@] })
            &&& shown.notice == (if receipt.replayed {
                Some("检测到相同消息的重复请求，已返回原武魂状态，未重复执行"@)
            } else {
                (if enabled {
                    Some("武魂已进入战斗形态；稳定度随生命变化，低于 30 时受击可能自动脱落"@)
                } else {
                    Some("武魂已收回；关闭状态下不能发起魂兽挑战"@)
                })
            })
            &&& shown.illustration == picture
        }),
{
    let shown = player_documents::wuhun_toggle(receipt, enabled, picture);
    assert(shown.fields =~= seq![
        ("武魂"@, receipt.state.name@),
        ("状态"@, (if receipt.state.enabled { "开启"@ } else { "关闭"@ })),
        (
            "稳定度"@,
            text::integer(receipt.state.stability as int) + "/"@
                + text::integer(receipt.state.max_stability as int),
        ),
    ]);
    assert(shown.commands =~= (if receipt.state.enabled { seq!["关武魂"@, "状态"@] } else { seq!["开武魂"@, "状态"@] }));
}

/// A check-in shows the days, the cycle, title, experience and balance; rewards are shown as
/// given once and as claimed afterwards, and a rise in level is announced.
pub proof fn a_checkin_shows_its_rewards_once(receipt: DailyCheckinReceipt, already_claimed: bool)
    ensures
        ({
            let shown = player_documents::checkin(receipt, already_claimed);
            &&& shown.title == "每日签到"@
            &&& shown.lines.len() == 0
            &&& shown.fields == seq![
                    ("结果"@, (if already_claimed { "今日已签到"@ } else { "签到成功"@ })),
                    ("累计签到"@, text::integer(receipt.total_claims as int) + " 天"@),
                    ("连续签到"@, text::integer(receipt.streak_days as int) + " 天"@),
                    ("本轮"@, "第 "@ + text::integer(receipt.cycle_day as int) + "/7 天"@),
                    ("当前境界"@, receipt.title_after@),
                    ("当前经验"@, text::integer(receipt.exp_after as int)),
                    ("当前"@ + "金魂币"@, text::integer(receipt.currency_balance_after as int)),
                ]
                + (if already_claimed {
                    seq![
                        ("当日经验奖励"@, text::integer(receipt.exp_reward as int) + "（已领取）"@),
                        (
                            "当日"@ + "金魂币"@ + "奖励"@,
                            text::integer(receipt.currency_reward as int) + "（已领取）"@,
                        ),
                    ]
                } else {
                    seq![
                        ("经验奖励"@, "+"@ + text::integer(receipt.exp_reward as int)),
                        ("金魂币"@ + "奖励"@, "+"@ + text::integer(receipt.currency_reward as int)),
                    ]
                })
            &&& shown.commands == seq!["状态"@]
            &&& shown.notice == (if already_claimed {
                Some("本游戏日已经签到过了，奖励不会重复发放"@)
            } else {
                (if receipt.levels_gained > 0 {
                    Some(
                        "升级成功："@ + text::integer(receipt.level_before as int) + " → "@
                            + receipt.title_after@ + "，继续积累经验解锁更高境界"@,
                    )
                } else {
                    Some("签到成功，下一个北京时间 04:00 刷新后可再次领取"@)
                })
            })
            &&& shown.illustration == None::<message::Picture>
        }),
{
    let shown = player_documents::checkin(receipt, already_claimed);
    assert(shown.fields =~= seq![
            ("结果"@, (if already_claimed { "今日已签到"@ } else { "签到成功"@ })),
            ("累计签到"@, text::integer(receipt.total_claims as int) + " 天"@),
            ("连续签到"@, text::integer(receipt.streak_days as int) + " 天"@),
            ("本轮"@, "第 "@ + text::integer(receipt.cycle_day as int) + "/7 天"@),
            ("当前境界"@, receipt.title_after@),
            ("当前经验"@, text::integer(receipt.exp_after as int)),
            ("当前"@ + "金魂币"@, text::integer(receipt.currency_balance_after as int)),
        ]
        + (if already_claimed {
            seq![
                ("当日经验奖励"@, text::integer(receipt.exp_reward as int) + "（已领取）"@),
                (
                    "当日"@ + "金魂币"@ + "奖励"@,
                    text::integer(receipt.currency_reward as int) + "（已领取）"@,
                ),
            ]
        } else {
            seq![
                ("经验奖励"@, "+"@ + text::integer(receipt.exp_reward as int)),
                ("金魂币"@ + "奖励"@, "+"@ + text::integer(receipt.currency_reward as int)),
            ]
        }));
    assert(shown.commands =~= seq!["状态"@]);
}

/// The state of a player shows each of their values under its own name, and the stability of
/// the spirit where it is known.
pub proof fn the_state_of_a_player_is_shown_in_full(
    player: PlayerStatus,
    progress: Option<ExperienceProgress>,
    picture: Option<Picture>,
)
    ensures
        ({
            let shown = player_documents::status(player, progress, picture);
            &&& shown.title == "角色状态"@
            &&& shown.lines.len() == 0
            &&& shown.fields == seq![
                    ("角色"@, player.name@),
                    ("性别"@, player.gender@),
                    ("境界"@, player_documents::realm_text(player.level, progress)),
                    ("经验"@, text::integer(player.exp as int)),
                    ("升级进度"@, player_documents::progress_text(progress)),
                    (
                        "生命"@,
                        text::integer(player.hp as int) + "/"@
                            + text::integer(player.max_hp as int),
                    ),
                    (
                        "魂力"@,
                        text::integer(player.soul_power as int) + "/"@
                            + text::integer(player.max_soul_power as int),
                    ),
                    ("武魂"@, player_documents::wuhun_text(player)),
                    ("位置"@, player.map_name@),
                    ("转生"@, "第 "@ + text::integer(player.life_count as int) + " 世"@),
                    ("状态"@, player.state@),
                ]
                + (match player.wuhun_enabled {
                    Some(enabled) => seq![("武魂状态"@, (if enabled { "开启"@ } else { "关闭"@ }))]
                        + (match player.wuhun_stability {
                            Some(stability) => (match player.wuhun_max_stability {
                                Some(max_stability) => seq![
                                    (
                                        "武魂稳定度"@,
                                        text::integer(stability as int) + "/"@
                                            + text::integer(max_stability as int),
                                    ),
                                ],
                                None => Seq::<(Seq<char>, Seq<char>)>::empty(),
                            }),
                            None => Seq::<(Seq<char>, Seq<char>)>::empty(),
                        }),
                    None => Seq::<(Seq<char>, Seq<char>)>::empty(),
                })
            &&& shown.commands.len() == 0
            &&& shown.notice == None::<Seq<char>>
            &&& shown.illustration == picture
        }),
{
    let shown = player_documents::status(player, progress, picture);
    assert(shown.fields =~= seq![
            ("角色"@, player.name@),
            ("性别"@, player.gender@),
            ("境界"@, player_documents::realm_text(player.level, progress)),
            ("经验"@, text::integer(player.exp as int)),
            ("升级进度"@, player_documents::progress_text(progress)),
            (
                "生命"@,
                text::integer(player.hp as int) + "/"@ + text::integer(player.max_hp as int),
            ),
            (
                "魂力"@,
                text::integer(player.soul_power as int) + "/"@
                    + text::integer(player.max_soul_power as int),
            ),
            ("武魂"@, player_documents::wuhun_text(player)),
            ("位置"@, player.map_name@),
            ("转生"@, "第 "@ + text::integer(player.life_count as int) + " 世"@),
            ("状态"@, player.state@),
        ]
        + (match player.wuhun_enabled {
            Some(enabled) => seq![("武魂状态"@, (if enabled { "开启"@ } else { "关闭"@ }))]
                + (match player.wuhun_stability {
                    Some(stability) => (match player.wuhun_max_stability {
                        Some(max_stability) => seq![
                            (
                                "武魂稳定度"@,
                                text::integer(stability as int) + "/"@
                                    + text::integer(max_stability as int),
                            ),
                        ],
                        None => Seq::<(Seq<char>, Seq<char>)>::empty(),
                    }),
                    None => Seq::<(Seq<char>, Seq<char>)>::empty(),
                }),
            None => Seq::<(Seq<char>, Seq<char>)>::empty(),
        }));
}

/// What is equipped is told by title: equipped, taken off, or repeated.
pub proof fn loadouts_are_told_apart_by_their_titles(receipt: SkillLoadoutReceipt)
    ensures
        receipt.replayed ==> player_documents::loadout_title(receipt) == "魂技装备回执"@,
        !receipt.replayed && receipt.equipped ==> player_documents::loadout_title(receipt)
            == "魂技装备成功"@,
        !receipt.replayed && !receipt.equipped ==> player_documents::loadout_title(receipt)
            == "魂技卸下成功"@,
{
}

/// A check-in is answered exactly when its record was made by the present rules: in gold, and
/// with the experience of its day in the cycle, which is ten more each day from sixty on and
/// a hundred and fifty on the seventh; it is shown as new or as claimed, whichever it was.
pub proof fn only_records_of_the_present_rules_are_answered(receipt: DailyCheckinReceipt)
    ensures
        ({
            let sound = receipt.currency_code@ == "gold_soul_coin"@ && {
                ||| 1 <= receipt.cycle_day <= 6 && receipt.exp_reward == 50 + 10
                    * receipt.cycle_day
                ||| receipt.cycle_day == 7 && receipt.exp_reward == 150
            };
            let claimed = player_documents::daily_checkin(DailyCheckinResult::Claimed(receipt));
            let known = player_documents::daily_checkin(
                DailyCheckinResult::AlreadyClaimed(receipt),
            );
            &&& claimed is Ok <==> sound
            &&& known is Ok <==> sound
            &&& sound ==> claimed == Ok::<Document, Seq<char>>(
                player_documents::checkin(receipt, false),
            )
            &&& sound ==> known == Ok::<Document, Seq<char>>(
                player_documents::checkin(receipt, true),
            )
            &&& receipt.currency_code@ != "gold_soul_coin"@ ==> claimed == Err::<Document, Seq<char>>(
                "签到记录的奖励规则与当前版本不一致"@,
            )
        }),
{
}

/// A spirit is shown with its category, a realm by level and title, and progress as the part
/// of what the next level takes; what is missing has words of its own.
pub proof fn missing_states_have_words_of_their_own(
    player: PlayerStatus,
    level: i64,
    progress: ExperienceProgress,
)
    ensures
        player.wuhun_name is Some && player.wuhun_category is Some
            ==> player_documents::wuhun_text(player) == (player.wuhun_name->0)@ + "（"@ + (
        player.wuhun_category->0)@ + "）"@,
        player.wuhun_name is None || player.wuhun_category is None
            ==> player_documents::wuhun_text(player) == "尚未觉醒"@,
        player_documents::realm_text(level, Some(progress)) == text::integer(progress.level as int)
            + "级"@ + progress.title@,
        player_documents::realm_text(level, None) == text::integer(level as int) + "级未知"@,
        progress.exp_for_next is Some ==> player_documents::progress_text(Some(progress))
            == text::integer(progress.exp_in_level as int) + " / "@ + text::integer(
            progress.exp_for_next->0 as int,
        ),
        progress.exp_for_next is None ==> player_documents::progress_text(Some(progress))
            == text::integer(progress.total_exp as int) + "（满级）"@,
        player_documents::progress_text(None) == "不可用"@,
{
}

} // verus!
