//! What the documents about battles show.
use crate::battle_documents;
use crate::labels;
use crate::message;
use crate::message::{Document, Picture};
use crate::records::{
    BattleActionReceipt, BattleEventRecord, BattleLog, BattleSkillEffectRecord, BattleSkillUse,
    BattleSnapshot, SkillProgressRecord, SoulBeastPage, SoulBeastRecord, SoulRingDrop,
};
use crate::text;
use vstd::prelude::*;

verus! {

/// Each beast has a line with its number, name, age and level, one with life, attack, defence,
/// experience and what it leaves, its description, and the command that challenges it.
pub proof fn each_beast_has_three_lines(d: Document, list: Seq<SoulBeastRecord>)
    ensures
        ({
            let r = battle_documents::beast_entries(d, list);
            let n = list.len() as int;
            &&& r.title == d.title
            &&& r.notice == d.notice
            &&& r.illustration == d.illustration
            &&& r.lines.len() == d.lines.len() + 3 * n
            &&& d.lines.is_prefix_of(r.lines)
            &&& forall|i: int| #![trigger list[i]] 0 <= i < n ==> {
                &&& r.lines[d.lines.len() + 3 * i] == "#"@ + text::integer(list[i].id as int) + " · "@ + list[i].name@ + " · "@
                    + text::integer(list[i].age as int) + "年 · Lv."@
                    + text::integer(list[i].level_required as int)
                &&& r.lines[d.lines.len() + 3 * i + 1] == "生命 "@ + text::integer(list[i].max_hp as int) + " · 攻击 "@
                    + text::integer(list[i].attack as int) + " · 防御 "@
                    + text::integer(list[i].defense as int) + " · 经验 "@
                    + text::integer(list[i].exp_reward as int) + " · 掉落 "@
                    + list[i].drop_item.name@ + " x"@
                    + text::integer(list[i].drop_quantity as int)
                &&& r.lines[d.lines.len() + 3 * i + 2] == list[i].description@
            }
            &&& r.fields == d.fields
            &&& r.commands.len() == d.commands.len() + n
            &&& d.commands.is_prefix_of(r.commands)
            &&& forall|i: int| #![trigger list[i]] 0 <= i < n ==> {
                &&& r.commands[d.commands.len() + i] == "挑战 "@ + list[i].name@
            }
        }),
    decreases list.len(),
{
    if list.len() > 0 {
        each_beast_has_three_lines(d, list.drop_last());
        let before = battle_documents::beast_entries(d, list.drop_last());
        assert forall|i: int| 0 <= i < list.len() - 1 implies list.drop_last()[i] == #[trigger] list[i] by {}
        assert(battle_documents::beast_entries(d, list).lines.len() == before.lines.len() + 3);
        assert(before.lines.is_prefix_of(battle_documents::beast_entries(d, list).lines));
        assert(battle_documents::beast_entries(d, list).commands.len() == before.commands.len() + 1);
        assert(before.commands.is_prefix_of(battle_documents::beast_entries(d, list).commands));
    }
}

/// What the list adds does not depend on what stands before it.
proof fn lemma_beast_entries_frame(list: Seq<SoulBeastRecord>)
    ensures
        forall|d: Document| #[trigger]
            battle_documents::beast_entries(d, list) == (
            Document {
                lines: d.lines + battle_documents::beast_entries(message::titled(""@), list).lines,
                commands: d.commands + battle_documents::beast_entries(message::titled(""@), list).commands,
                ..d
            }),
    decreases list.len(),
{
    let none = message::titled(""@);
    let less = list.drop_last();
    if list.len() > 0 {
        lemma_beast_entries_frame(less);
    }
    assert forall|d: Document| #[trigger]
        battle_documents::beast_entries(d, list) == (
            Document {
                lines: d.lines + battle_documents::beast_entries(message::titled(""@), list).lines,
                commands: d.commands + battle_documents::beast_entries(message::titled(""@), list).commands,
                ..d
            }) by {
        if list.len() > 0 {
            assert(battle_documents::beast_entries(d, less).lines == d.lines + battle_documents::beast_entries(none, less).lines);
            assert(battle_documents::beast_entries(none, less).lines == none.lines + battle_documents::beast_entries(none, less).lines);
            assert(battle_documents::beast_entries(d, less).commands == d.commands + battle_documents::beast_entries(none, less).commands);
            assert(battle_documents::beast_entries(none, less).commands == none.commands + battle_documents::beast_entries(none, less).commands);
        }
        assert(battle_documents::beast_entries(d, list).lines =~= d.lines + battle_documents::beast_entries(none, list).lines);
        assert(battle_documents::beast_entries(d, list).commands =~= d.commands + battle_documents::beast_entries(none, list).commands);
    }
}

/// The beasts of a map stand under its name and lead to the page before and the page behind
/// where they exist.
pub proof fn beasts_lead_to_the_neighbouring_pages(beasts: SoulBeastPage)
    ensures
        ({
            let shown = battle_documents::soul_beasts(beasts);
            &&& shown.title == "可挑战魂兽 · "@ + beasts.map_name@
            &&& shown.lines == (if beasts.entries@.len() == 0 {
                seq!["当前地图没有达到等级要求的魂兽"@]
            } else {
                battle_documents::beast_entries(message::titled(""@), beasts.entries@).lines
            })
            &&& shown.fields == seq![
                (
                    "页码"@,
                    text::decimal(beasts.page as nat) + " / "@
                        + text::decimal(beasts.page_count as nat),
                ),
                ("魂兽数量"@, text::decimal(beasts.total as nat)),
            ]
            &&& shown.commands == (if beasts.entries@.len() == 0 { Seq::<Seq<char>>::empty() } else { battle_documents::beast_entries(message::titled(""@), beasts.entries@).commands }) + (if beasts.page > 1 { seq!["魂兽 "@ + text::decimal((beasts.page - 1) as nat)] } else { Seq::<Seq<char>>::empty() }) + (if beasts.page < beasts.page_count { seq!["魂兽 "@ + text::decimal((beasts.page + 1) as nat)] } else { Seq::<Seq<char>>::empty() }) + seq!["位置"@, "战斗状态"@]
            &&& shown.notice == None::<Seq<char>>
            &&& shown.illustration == None::<message::Picture>
        }),
{
    let shown = battle_documents::soul_beasts(beasts);
    lemma_beast_entries_frame(beasts.entries@);
    assert(shown.lines =~= (if beasts.entries@.len() == 0 {
        seq!["当前地图没有达到等级要求的魂兽"@]
    } else {
        battle_documents::beast_entries(message::titled(""@), beasts.entries@).lines
    }));
    assert(shown.fields =~= seq![
        (
            "页码"@,
            text::decimal(beasts.page as nat) + " / "@ + text::decimal(beasts.page_count as nat),
        ),
        ("魂兽数量"@, text::decimal(beasts.total as nat)),
    ]);
    assert(shown.commands =~= (if beasts.entries@.len() == 0 { Seq::<Seq<char>>::empty() } else { battle_documents::beast_entries(message::titled(""@), beasts.entries@).commands }) + (if beasts.page > 1 { seq!["魂兽 "@ + text::decimal((beasts.page - 1) as nat)] } else { Seq::<Seq<char>>::empty() }) + (if beasts.page < beasts.page_count { seq!["魂兽 "@ + text::decimal((beasts.page + 1) as nat)] } else { Seq::<Seq<char>>::empty() }) + seq!["位置"@, "战斗状态"@]);
}

/// Each effect of a skill that was used is a field of its own.
pub proof fn each_effect_of_a_used_skill_is_a_field(d: Document, list: Seq<BattleSkillEffectRecord>)
    ensures
        ({
            let r = battle_documents::skill_use_effects(d, list);
            let n = list.len() as int;
            &&& r.title == d.title
            &&& r.notice == d.notice
            &&& r.illustration == d.illustration
            &&& r.lines == d.lines
            &&& r.fields.len() == d.fields.len() + n
            &&& d.fields.is_prefix_of(r.fields)
            &&& forall|i: int| #![trigger list[i]] 0 <= i < n ==> {
                &&& r.fields[d.fields.len() + i] == ("附加效果"@, labels::lasting_effect(list[i]))
            }
            &&& r.commands == d.commands
        }),
    decreases list.len(),
{
    if list.len() > 0 {
        each_effect_of_a_used_skill_is_a_field(d, list.drop_last());
        let before = battle_documents::skill_use_effects(d, list.drop_last());
        assert forall|i: int| 0 <= i < list.len() - 1 implies list.drop_last()[i] == #[trigger] list[i] by {}
        assert(battle_documents::skill_use_effects(d, list).fields.len() == before.fields.len() + 1);
        assert(before.fields.is_prefix_of(battle_documents::skill_use_effects(d, list).fields));
    }
}

/// What the list adds does not depend on what stands before it.
proof fn lemma_skill_use_effects_frame(list: Seq<BattleSkillEffectRecord>)
    ensures
        forall|d: Document| #[trigger]
            battle_documents::skill_use_effects(d, list) == (
            Document {
                fields: d.fields + battle_documents::skill_use_effects(message::titled(""@), list).fields,
                ..d
            }),
    decreases list.len(),
{
    let none = message::titled(""@);
    let less = list.drop_last();
    if list.len() > 0 {
        lemma_skill_use_effects_frame(less);
    }
    assert forall|d: Document| #[trigger]
        battle_documents::skill_use_effects(d, list) == (
            Document {
                fields: d.fields + battle_documents::skill_use_effects(message::titled(""@), list).fields,
                ..d
            }) by {
        if list.len() > 0 {
            assert(battle_documents::skill_use_effects(d, less).fields == d.fields + battle_documents::skill_use_effects(none, less).fields);
            assert(battle_documents::skill_use_effects(none, less).fields == none.fields + battle_documents::skill_use_effects(none, less).fields);
        }
        assert(battle_documents::skill_use_effects(d, list).fields =~= d.fields + battle_documents::skill_use_effects(none, list).fields);
    }
}

/// Each effect that ended has a line.
pub proof fn each_effect_that_ended_has_a_line(d: Document, list: Seq<BattleSkillEffectRecord>)
    ensures
        ({
            let r = battle_documents::expired_effects(d, list);
            let n = list.len() as int;
            &&& r.title == d.title
            &&& r.notice == d.notice
            &&& r.illustration == d.illustration
            &&& r.lines.len() == d.lines.len() + n
            &&& d.lines.is_prefix_of(r.lines)
            &&& forall|i: int| #![trigger list[i]] 0 <= i < n ==> {
                &&& r.lines[d.lines.len() + i] == "效果结束："@ + list[i].skill_name@ + "（"@ + labels::battle_effect(list[i]) + "）"@
            }
            &&& r.fields == d.fields
            &&& r.commands == d.commands
        }),
    decreases list.len(),
{
    if list.len() > 0 {
        each_effect_that_ended_has_a_line(d, list.drop_last());
        let before = battle_documents::expired_effects(d, list.drop_last());
        assert forall|i: int| 0 <= i < list.len() - 1 implies list.drop_last()[i] == #[trigger] list[i] by {}
        assert(battle_documents::expired_effects(d, list).lines.len() == before.lines.len() + 1);
        assert(before.lines.is_prefix_of(battle_documents::expired_effects(d, list).lines));
    }
}

/// What the list adds does not depend on what stands before it.
proof fn lemma_expired_effects_frame(list: Seq<BattleSkillEffectRecord>)
    ensures
        forall|d: Document| #[trigger]
            battle_documents::expired_effects(d, list) == (
            Document {
                lines: d.lines + battle_documents::expired_effects(message::titled(""@), list).lines,
                ..d
            }),
    decreases list.len(),
{
    let none = message::titled(""@);
    let less = list.drop_last();
    if list.len() > 0 {
        lemma_expired_effects_frame(less);
    }
    assert forall|d: Document| #[trigger]
        battle_documents::expired_effects(d, list) == (
            Document {
                lines: d.lines + battle_documents::expired_effects(message::titled(""@), list).lines,
                ..d
            }) by {
        if list.len() > 0 {
            assert(battle_documents::expired_effects(d, less).lines == d.lines + battle_documents::expired_effects(none, less).lines);
            assert(battle_documents::expired_effects(none, less).lines == none.lines + battle_documents::expired_effects(none, less).lines);
        }
        assert(battle_documents::expired_effects(d, list).lines =~= d.lines + battle_documents::expired_effects(none, list).lines);
    }
}

/// Each effect that lasts is a field of its own, with the rounds it has left.
pub proof fn each_effect_that_lasts_is_a_field(
    d: Document,
    list: Seq<BattleSkillEffectRecord>,
    sequence: i64,
)
    ensures
        ({
            let r = battle_documents::lasting_effect_fields(d, list, sequence);
            let n = list.len() as int;
            &&& r.title == d.title
            &&& r.notice == d.notice
            &&& r.illustration == d.illustration
            &&& r.lines == d.lines
            &&& r.fields.len() == d.fields.len() + n
            &&& d.fields.is_prefix_of(r.fields)
            &&& forall|i: int| #![trigger list[i]] 0 <= i < n ==> {
                &&& r.fields[d.fields.len() + i] == ("生效中"@, labels::active_effect(list[i], sequence))
            }
            &&& r.commands == d.commands
        }),
    decreases list.len(),
{
    if list.len() > 0 {
        each_effect_that_lasts_is_a_field(d, list.drop_last(), sequence);
        let before = battle_documents::lasting_effect_fields(d, list.drop_last(), sequence);
        assert forall|i: int| 0 <= i < list.len() - 1 implies list.drop_last()[i] == #[trigger] list[i] by {}
        assert(battle_documents::lasting_effect_fields(d, list, sequence).fields.len() == before.fields.len() + 1);
        assert(before.fields.is_prefix_of(battle_documents::lasting_effect_fields(d, list, sequence).fields));
    }
}

/// What the list adds does not depend on what stands before it.
proof fn lemma_lasting_effect_fields_frame(list: Seq<BattleSkillEffectRecord>, sequence: i64)
    ensures
        forall|d: Document| #[trigger]
            battle_documents::lasting_effect_fields(d, list, sequence) == (
            Document {
                fields: d.fields + battle_documents::lasting_effect_fields(message::titled(""@), list, sequence).fields,
                ..d
            }),
    decreases list.len(),
{
    let none = message::titled(""@);
    let less = list.drop_last();
    if list.len() > 0 {
        lemma_lasting_effect_fields_frame(less, sequence);
    }
    assert forall|d: Document| #[trigger]
        battle_documents::lasting_effect_fields(d, list, sequence) == (
            Document {
                fields: d.fields + battle_documents::lasting_effect_fields(message::titled(""@), list, sequence).fields,
                ..d
            }) by {
        if list.len() > 0 {
            assert(battle_documents::lasting_effect_fields(d, less, sequence).fields == d.fields + battle_documents::lasting_effect_fields(none, less, sequence).fields);
            assert(battle_documents::lasting_effect_fields(none, less, sequence).fields == none.fields + battle_documents::lasting_effect_fields(none, less, sequence).fields);
        }
        assert(battle_documents::lasting_effect_fields(d, list, sequence).fields =~= d.fields + battle_documents::lasting_effect_fields(none, list, sequence).fields);
    }
}

/// Each event of a battle has a line, in order.
pub proof fn each_event_of_a_battle_has_a_line(d: Document, list: Seq<BattleEventRecord>)
    ensures
        ({
            let r = battle_documents::logged_events(d, list);
            let n = list.len() as int;
            &&& r.title == d.title
            &&& r.notice == d.notice
            &&& r.illustration == d.illustration
            &&& r.lines.len() == d.lines.len() + n
            &&& d.lines.is_prefix_of(r.lines)
            &&& forall|i: int| #![trigger list[i]] 0 <= i < n ==> {
                &&& r.lines[d.lines.len() + i] == labels::battle_event_line(list[i])
            }
            &&& r.fields == d.fields
            &&& r.commands == d.commands
        }),
    decreases list.len(),
{
    if list.len() > 0 {
        each_event_of_a_battle_has_a_line(d, list.drop_last());
        let before = battle_documents::logged_events(d, list.drop_last());
        assert forall|i: int| 0 <= i < list.len() - 1 implies list.drop_last()[i] == #[trigger] list[i] by {}
        assert(battle_documents::logged_events(d, list).lines.len() == before.lines.len() + 1);
        assert(before.lines.is_prefix_of(battle_documents::logged_events(d, list).lines));
    }
}

/// What the list adds does not depend on what stands before it.
proof fn lemma_logged_events_frame(list: Seq<BattleEventRecord>)
    ensures
        forall|d: Document| #[trigger]
            battle_documents::logged_events(d, list) == (
            Document {
                lines: d.lines + battle_documents::logged_events(message::titled(""@), list).lines,
                ..d
            }),
    decreases list.len(),
{
    let none = message::titled(""@);
    let less = list.drop_last();
    if list.len() > 0 {
        lemma_logged_events_frame(less);
    }
    assert forall|d: Document| #[trigger]
        battle_documents::logged_events(d, list) == (
            Document {
                lines: d.lines + battle_documents::logged_events(message::titled(""@), list).lines,
                ..d
            }) by {
        if list.len() > 0 {
            assert(battle_documents::logged_events(d, less).lines == d.lines + battle_documents::logged_events(none, less).lines);
            assert(battle_documents::logged_events(none, less).lines == none.lines + battle_documents::logged_events(none, less).lines);
        }
        assert(battle_documents::logged_events(d, list).lines =~= d.lines + battle_documents::logged_events(none, list).lines);
    }
}

/// Growth of a skill is shown from before to after; a new level is shown only where the level rose.
pub proof fn growth_of_a_skill_is_shown_from_before_to_after(
    d: Document,
    progress: SkillProgressRecord,
)
    ensures
        ({
            let shown = battle_documents::skill_growth(d, progress);
            &&& shown.title == d.title
            &&& shown.lines == d.lines
            &&& shown.fields == d.fields
                + seq![
                    (
                        "魂技熟练度"@,
                        text::integer(progress.proficiency_before as int) + " → "@
                            + text::integer(progress.proficiency_after as int) + "（+"@
                            + text::integer(progress.proficiency_gain as int) + "）"@,
                    ),
                ]
                + (if progress.level_after > progress.level_before {
                    seq![
                        (
                            "魂技升级"@,
                            "Lv."@ + text::integer(progress.level_before as int) + " → Lv."@
                                + text::integer(progress.level_after as int),
                        ),
                    ]
                } else {
                    Seq::<(Seq<char>, Seq<char>)>::empty()
                })
            &&& shown.commands == d.commands
            &&& shown.notice == d.notice
            &&& shown.illustration == d.illustration
        }),
{
    let shown = battle_documents::skill_growth(d, progress);
    assert(shown.lines =~= d.lines);
    assert(shown.fields =~= d.fields
        + seq![
            (
                "魂技熟练度"@,
                text::integer(progress.proficiency_before as int) + " → "@
                    + text::integer(progress.proficiency_after as int) + "（+"@
                    + text::integer(progress.proficiency_gain as int) + "）"@,
            ),
        ]
        + (if progress.level_after > progress.level_before {
            seq![
                (
                    "魂技升级"@,
                    "Lv."@ + text::integer(progress.level_before as int) + " → Lv."@
                        + text::integer(progress.level_after as int),
                ),
            ]
        } else {
            Seq::<(Seq<char>, Seq<char>)>::empty()
        }));
    assert(shown.commands =~= d.commands);
}

/// A skill that was used is shown with the soul power before and after it, its rest and its
/// multiplier.
pub proof fn a_used_skill_is_shown_with_its_cost(d: Document, skill: BattleSkillUse)
    ensures
        ({
            let shown = battle_documents::skill_use(d, skill);
            &&& shown.title == d.title
            &&& shown.lines == d.lines
            &&& shown.fields == d.fields
                + seq![
                    ("魂技"@, skill.skill.name@),
                    (
                        "魂力"@,
                        text::integer(skill.soul_power_before as int) + " → "@
                            + text::integer(skill.soul_power_after as int),
                    ),
                    ("魂技冷却"@, text::integer(skill.skill.cooldown_rounds as int) + " 回合"@),
                    ("等级伤害倍率"@, labels::damage_modifier(skill.damage_modifier)),
                ]
                + (match skill.progress {
                    Some(progress) => seq![
                            (
                                "魂技熟练度"@,
                                text::integer(progress.proficiency_before as int) + " → "@
                                    + text::integer(progress.proficiency_after as int) + "（+"@
                                    + text::integer(progress.proficiency_gain as int) + "）"@,
                            ),
                        ]
                        + (if progress.level_after > progress.level_before {
                            seq![
                                (
                                    "魂技升级"@,
                                    "Lv."@ + text::integer(progress.level_before as int)
                                        + " → Lv."@ + text::integer(progress.level_after as int),
                                ),
                            ]
                        } else {
                            Seq::<(Seq<char>, Seq<char>)>::empty()
                        }),
                    None => Seq::<(Seq<char>, Seq<char>)>::empty(),
                })
                + battle_documents::skill_use_effects(message::titled(""@), skill.effects@).fields
            &&& shown.commands == d.commands
            &&& shown.notice == d.notice
            &&& shown.illustration == d.illustration
        }),
{
    let shown = battle_documents::skill_use(d, skill);
    lemma_skill_use_effects_frame(skill.effects@);
    assert(shown.lines =~= d.lines);
    assert(shown.fields =~= d.fields
        + seq![
            ("魂技"@, skill.skill.name@),
            (
                "魂力"@,
                text::integer(skill.soul_power_before as int) + " → "@
                    + text::integer(skill.soul_power_after as int),
            ),
            ("魂技冷却"@, text::integer(skill.skill.cooldown_rounds as int) + " 回合"@),
            ("等级伤害倍率"@, labels::damage_modifier(skill.damage_modifier)),
        ]
        + (match skill.progress {
            Some(progress) => seq![
                    (
                        "魂技熟练度"@,
                        text::integer(progress.proficiency_before as int) + " → "@
                            + text::integer(progress.proficiency_after as int) + "（+"@
                            + text::integer(progress.proficiency_gain as int) + "）"@,
                    ),
                ]
                + (if progress.level_after > progress.level_before {
                    seq![
                        (
                            "魂技升级"@,
                            "Lv."@ + text::integer(progress.level_before as int) + " → Lv."@
                                + text::integer(progress.level_after as int),
                        ),
                    ]
                } else {
                    Seq::<(Seq<char>, Seq<char>)>::empty()
                }),
            None => Seq::<(Seq<char>, Seq<char>)>::empty(),
        })
        + battle_documents::skill_use_effects(message::titled(""@), skill.effects@).fields);
    assert(shown.commands =~= d.commands);
}

/// An attack shows the damage of the player, named after the skill where one was used, and
/// the damage of the beast where it struck back; each may be critical by itself.
pub proof fn an_attack_shows_both_damages(
    d: Document,
    event: BattleEventRecord,
    skill: Option<BattleSkillUse>,
)
    ensures
        ({
            let shown = battle_documents::attack_lines(d, event, skill);
            &&& shown.title == d.title
            &&& shown.lines == d.lines
                + (match skill {
                    Some(skill) => seq![
                        "你释放"@ + skill.skill.name@ + "，造成 "@
                            + text::integer(event.player_damage as int) + " 点"@
                            + (if event.player_critical { "暴击"@ } else { ""@ }) + "伤害"@,
                    ],
                    None => seq![
                        "你造成 "@ + text::integer(event.player_damage as int) + " 点"@
                            + (if event.player_critical { "暴击"@ } else { ""@ }) + "伤害"@,
                    ],
                })
                + (if event.beast_damage > 0 {
                    seq![
                        "魂兽反击造成 "@ + text::integer(event.beast_damage as int) + " 点"@
                            + (if event.beast_critical { "暴击"@ } else { ""@ }) + "伤害"@,
                    ]
                } else {
                    Seq::<Seq<char>>::empty()
                })
            &&& shown.fields == d.fields
            &&& shown.commands == d.commands
            &&& shown.notice == d.notice
            &&& shown.illustration == d.illustration
        }),
{
    let shown = battle_documents::attack_lines(d, event, skill);
    assert(shown.lines =~= d.lines
        + (match skill {
            Some(skill) => seq![
                "你释放"@ + skill.skill.name@ + "，造成 "@ + text::integer(event.player_damage as int)
                    + " 点"@ + (if event.player_critical { "暴击"@ } else { ""@ }) + "伤害"@,
            ],
            None => seq![
                "你造成 "@ + text::integer(event.player_damage as int) + " 点"@
                    + (if event.player_critical { "暴击"@ } else { ""@ }) + "伤害"@,
            ],
        })
        + (if event.beast_damage > 0 {
            seq![
                "魂兽反击造成 "@ + text::integer(event.beast_damage as int) + " 点"@
                    + (if event.beast_critical { "暴击"@ } else { ""@ }) + "伤害"@,
            ]
        } else {
            Seq::<Seq<char>>::empty()
        }));
    assert(shown.fields =~= d.fields);
    assert(shown.commands =~= d.commands);
}

/// A challenge, an attack and a flight are shown each in its own words.
pub proof fn an_action_shows_what_happened(d: Document, receipt: BattleActionReceipt)
    ensures
        ({
            let shown = battle_documents::action_lines(d, receipt);
            &&& shown.title == d.title
            &&& shown.lines == d.lines
                + (if receipt.event.event_kind@ == "challenge"@ {
                    seq![receipt.battle.beast.description@, "魂兽会在你的每次行动后反击"@]
                } else {
                    (if receipt.event.event_kind@ == "attack"@ {
                        (match receipt.skill { Some(skill) => seq!["你释放"@ + skill.skill.name@ + "，造成 "@ + text::integer(receipt.event.player_damage as int) + " 点"@ + (if receipt.event.player_critical { "暴击"@ } else { ""@ }) + "伤害"@], None => seq!["你造成 "@ + text::integer(receipt.event.player_damage as int) + " 点"@ + (if receipt.event.player_critical { "暴击"@ } else { ""@ }) + "伤害"@] }) + (if receipt.event.beast_damage > 0 { seq!["魂兽反击造成 "@ + text::integer(receipt.event.beast_damage as int) + " 点"@ + (if receipt.event.beast_critical { "暴击"@ } else { ""@ }) + "伤害"@] } else { Seq::<Seq<char>>::empty() })
                    } else {
                        (if receipt.event.flee_success == Some(true) {
                            seq!["你脱离了战斗，魂兽没有追击"@]
                        } else {
                            seq![
                                "逃跑失败，魂兽反击造成 "@
                                    + text::integer(receipt.event.beast_damage as int) + " 点"@
                                    + (if receipt.event.beast_critical { "暴击"@ } else { ""@ })
                                    + "伤害"@,
                            ]
                        })
                    })
                })
            &&& shown.fields == d.fields
            &&& shown.commands == d.commands
            &&& shown.notice == d.notice
            &&& shown.illustration == d.illustration
        }),
{
    let shown = battle_documents::action_lines(d, receipt);
    assert(shown.lines =~= d.lines
        + (if receipt.event.event_kind@ == "challenge"@ {
            seq![receipt.battle.beast.description@, "魂兽会在你的每次行动后反击"@]
        } else {
            (if receipt.event.event_kind@ == "attack"@ {
                (match receipt.skill { Some(skill) => seq!["你释放"@ + skill.skill.name@ + "，造成 "@ + text::integer(receipt.event.player_damage as int) + " 点"@ + (if receipt.event.player_critical { "暴击"@ } else { ""@ }) + "伤害"@], None => seq!["你造成 "@ + text::integer(receipt.event.player_damage as int) + " 点"@ + (if receipt.event.player_critical { "暴击"@ } else { ""@ }) + "伤害"@] }) + (if receipt.event.beast_damage > 0 { seq!["魂兽反击造成 "@ + text::integer(receipt.event.beast_damage as int) + " 点"@ + (if receipt.event.beast_critical { "暴击"@ } else { ""@ }) + "伤害"@] } else { Seq::<Seq<char>>::empty() })
            } else {
                (if receipt.event.flee_success == Some(true) {
                    seq!["你脱离了战斗，魂兽没有追击"@]
                } else {
                    seq![
                        "逃跑失败，魂兽反击造成 "@ + text::integer(receipt.event.beast_damage as int)
                            + " 点"@ + (if receipt.event.beast_critical { "暴击"@ } else { ""@ })
                            + "伤害"@,
                    ]
                })
            })
        }));
    assert(shown.fields =~= d.fields);
    assert(shown.commands =~= d.commands);
}

/// A victory shows the experience, what was left, and the ring where there is one; a defeat
/// that the player was saved; and a round that ends neither way that it goes on.
pub proof fn the_end_of_a_round_is_shown(d: Document, receipt: BattleActionReceipt)
    ensures
        ({
            let shown = battle_documents::battle_result(d, receipt);
            &&& shown.title == d.title
            &&& shown.lines == d.lines
                + (if receipt.event.status_after@ == "won"@ {
                    seq!["魂兽倒下，地面出现了新的掉落"@]
                        + (match receipt.soul_ring_drop {
                            Some(drop) => seq![
                                "可使用“吸收魂环 "@ + drop.ring.soul_beast_name@ + "”吸收并解锁魂技 "@
                                    + drop.ring.skill.name@,
                            ],
                            None => Seq::<Seq<char>>::empty(),
                        })
                } else {
                    (if receipt.event.status_after@ == "defeated"@ {
                        seq!["你被魂兽击败，系统将你救回到濒死状态"@]
                    } else {
                        Seq::<Seq<char>>::empty()
                    })
                })
            &&& shown.fields == d.fields
                + (if receipt.event.status_after@ == "won"@ {
                    seq![("获得经验"@, text::integer(receipt.event.experience_awarded as int))]
                        + (match receipt.soul_ring_drop {
                            Some(drop) => seq![("待吸收魂环"@, drop.ring.name@)],
                            None => Seq::<(Seq<char>, Seq<char>)>::empty(),
                        })
                } else {
                    Seq::<(Seq<char>, Seq<char>)>::empty()
                })
            &&& shown.commands == d.commands
            &&& shown.notice == (if receipt.event.status_after@ == "won"@ {
                Some(
                    if receipt.replayed { "检测到相同消息的重复请求，已返回原战斗回执，未重复发放经验或掉落"@ } else { "战斗状态、生命、经验、掉落、操作日志和战斗事件已在同一事务完成"@ },
                )
            } else {
                (if receipt.event.status_after@ == "defeated"@ {
                    Some("死亡与复活系统尚未开放，本阶段不会删除角色或扣除转生次数"@)
                } else {
                    (if receipt.replayed {
                        Some("检测到相同消息的重复请求，已返回原战斗回执，未重复执行"@)
                    } else {
                        Some("本回合已在同一事务内结算，战斗快照可在热重载后继续"@)
                    })
                })
            })
            &&& shown.illustration == d.illustration
        }),
{
    let shown = battle_documents::battle_result(d, receipt);
    assert(shown.lines =~= d.lines
        + (if receipt.event.status_after@ == "won"@ {
            seq!["魂兽倒下，地面出现了新的掉落"@]
                + (match receipt.soul_ring_drop {
                    Some(drop) => seq![
                        "可使用“吸收魂环 "@ + drop.ring.soul_beast_name@ + "”吸收并解锁魂技 "@
                            + drop.ring.skill.name@,
                    ],
                    None => Seq::<Seq<char>>::empty(),
                })
        } else {
            (if receipt.event.status_after@ == "defeated"@ {
                seq!["你被魂兽击败，系统将你救回到濒死状态"@]
            } else {
                Seq::<Seq<char>>::empty()
            })
        }));
    assert(shown.fields =~= d.fields
        + (if receipt.event.status_after@ == "won"@ {
            seq![("获得经验"@, text::integer(receipt.event.experience_awarded as int))]
                + (match receipt.soul_ring_drop {
                    Some(drop) => seq![("待吸收魂环"@, drop.ring.name@)],
                    None => Seq::<(Seq<char>, Seq<char>)>::empty(),
                })
        } else {
            Seq::<(Seq<char>, Seq<char>)>::empty()
        }));
    assert(shown.commands =~= d.commands);
}

/// A spirit that dropped by itself is announced, and one that did not is not.
pub proof fn a_dropped_spirit_is_announced(d: Document, receipt: BattleActionReceipt)
    ensures
        ({
            let shown = battle_documents::dropped_wuhun(d, receipt);
            &&& shown.title == d.title
            &&& shown.lines == d.lines
            &&& shown.fields == d.fields
            &&& shown.commands == d.commands
            &&& shown.notice == (match receipt.wuhun_effect {
                Some(effect) => (if effect.auto_dropped {
                    (if receipt.replayed {
                        Some("检测到相同消息的重复请求，已返回原回执；该回合武魂因稳定度过低自动脱落"@)
                    } else {
                        (if receipt.event.status_after@ == "defeated"@ {
                            Some("武魂因稳定度过低自动脱落；你已被救回濒死状态，死亡与复活系统尚未开放"@)
                        } else {
                            Some("武魂稳定度过低，武魂已自动脱落；结束战斗后可重新开启"@)
                        })
                    })
                } else {
                    d.notice
                }),
                None => d.notice,
            })
            &&& shown.illustration == d.illustration
        }),
{
    let shown = battle_documents::dropped_wuhun(d, receipt);
    assert(shown.lines =~= d.lines);
    assert(shown.fields =~= d.fields);
    assert(shown.commands =~= d.commands);
}

/// A running battle offers to go on, to use a skill and to flee; a victory offers what was
/// left; and any other end offers new beasts.
pub proof fn the_commands_fit_the_state_of_the_battle(d: Document, receipt: BattleActionReceipt)
    ensures
        ({
            let shown = battle_documents::battle_commands(d, receipt);
            &&& shown.title == d.title
            &&& shown.lines == d.lines
            &&& shown.fields == d.fields
            &&& shown.commands == d.commands
                + (if receipt.event.status_after@ == "active"@ {
                    seq!["攻击"@, "释放技能 <魂技>"@, "逃跑"@, "战斗状态"@]
                } else {
                    (if receipt.event.status_after@ == "won"@ {
                        seq!["掉落"@, "魂兽"@, "魂环"@]
                            + (match receipt.soul_ring_drop {
                                Some(drop) => seq!["吸收魂环 "@ + drop.ring.soul_beast_name@],
                                None => Seq::<Seq<char>>::empty(),
                            })
                    } else {
                        seq!["魂兽"@, "状态"@]
                    })
                })
            &&& shown.notice == d.notice
            &&& shown.illustration == d.illustration
        }),
{
    let shown = battle_documents::battle_commands(d, receipt);
    assert(shown.lines =~= d.lines);
    assert(shown.fields =~= d.fields);
    assert(shown.commands =~= d.commands
        + (if receipt.event.status_after@ == "active"@ {
            seq!["攻击"@, "释放技能 <魂技>"@, "逃跑"@, "战斗状态"@]
        } else {
            (if receipt.event.status_after@ == "won"@ {
                seq!["掉落"@, "魂兽"@, "魂环"@]
                    + (match receipt.soul_ring_drop {
                        Some(drop) => seq!["吸收魂环 "@ + drop.ring.soul_beast_name@],
                        None => Seq::<Seq<char>>::empty(),
                    })
            } else {
                seq!["魂兽"@, "状态"@]
            })
        }));
}

/// A battle is shown with its beast, state, round, modifiers, the life of the player and that
/// of the beast, and the effects that last.
pub proof fn a_battle_is_shown_as_it_stands(
    battle: BattleSnapshot,
    title: Seq<char>,
    picture: Option<Picture>,
)
    ensures
        ({
            let shown = battle_documents::battle_snapshot(battle, title, picture);
            &&& shown.title == title
            &&& shown.lines.len() == 0
            &&& shown.fields == seq![
                    (
                        "对手"@,
                        battle.beast.name@ + " · "@ + text::integer(battle.beast.age as int)
                            + "年"@,
                    ),
                    ("状态"@, labels::battle_status(battle.status@)),
                    ("回合"@, text::integer(battle.action_count as int)),
                    (
                        "武魂战斗修正"@,
                        "攻击 "@ + text::integer(battle.wuhun_attack_percent as int) + "% · 防御 "@
                            + text::integer(battle.wuhun_defense_percent as int) + "%"@,
                    ),
                    (
                        "玩家生命"@,
                        text::integer(battle.player_hp as int) + "/"@
                            + text::integer(battle.player_max_hp as int),
                    ),
                    (
                        "魂兽生命"@,
                        text::integer(battle.beast_hp as int) + "/"@
                            + text::integer(battle.beast_max_hp as int),
                    ),
                ]
                + battle_documents::lasting_effect_fields(message::titled(""@), battle.active_effects@, battle.action_count).fields
            &&& shown.commands == seq!["攻击"@, "释放技能 <魂技>"@, "逃跑"@, "战斗日志"@]
            &&& shown.notice == None::<Seq<char>>
            &&& shown.illustration == picture
        }),
{
    let shown = battle_documents::battle_snapshot(battle, title, picture);
    lemma_lasting_effect_fields_frame(battle.active_effects@, battle.action_count);
    assert(shown.fields =~= seq![
            ("对手"@, battle.beast.name@ + " · "@ + text::integer(battle.beast.age as int) + "年"@),
            ("状态"@, labels::battle_status(battle.status@)),
            ("回合"@, text::integer(battle.action_count as int)),
            (
                "武魂战斗修正"@,
                "攻击 "@ + text::integer(battle.wuhun_attack_percent as int) + "% · 防御 "@
                    + text::integer(battle.wuhun_defense_percent as int) + "%"@,
            ),
            (
                "玩家生命"@,
                text::integer(battle.player_hp as int) + "/"@
                    + text::integer(battle.player_max_hp as int),
            ),
            (
                "魂兽生命"@,
                text::integer(battle.beast_hp as int) + "/"@
                    + text::integer(battle.beast_max_hp as int),
            ),
        ]
        + battle_documents::lasting_effect_fields(message::titled(""@), battle.active_effects@, battle.action_count).fields);
    assert(shown.commands =~= seq!["攻击"@, "释放技能 <魂技>"@, "逃跑"@, "战斗日志"@]);
}

/// A log shows the battle as it stands and then its events.
pub proof fn a_log_shows_the_battle_and_its_events(log: BattleLog, picture: Option<Picture>)
    ensures
        ({
            let shown = battle_documents::battle_log(log, picture);
            &&& shown.title == ("战斗日志"@)
            &&& shown.lines == seq!["事件记录："@]
                + battle_documents::logged_events(message::titled(""@), log.events@).lines
            &&& shown.fields == seq![
                    (
                        "对手"@,
                        log.battle.beast.name@ + " · "@
                            + text::integer(log.battle.beast.age as int) + "年"@,
                    ),
                    ("状态"@, labels::battle_status(log.battle.status@)),
                    ("回合"@, text::integer(log.battle.action_count as int)),
                    (
                        "武魂战斗修正"@,
                        "攻击 "@ + text::integer(log.battle.wuhun_attack_percent as int)
                            + "% · 防御 "@
                            + text::integer(log.battle.wuhun_defense_percent as int) + "%"@,
                    ),
                    (
                        "玩家生命"@,
                        text::integer(log.battle.player_hp as int) + "/"@
                            + text::integer(log.battle.player_max_hp as int),
                    ),
                    (
                        "魂兽生命"@,
                        text::integer(log.battle.beast_hp as int) + "/"@
                            + text::integer(log.battle.beast_max_hp as int),
                    ),
                ]
                + battle_documents::lasting_effect_fields(message::titled(""@), log.battle.active_effects@, log.battle.action_count).fields
            &&& shown.commands == seq!["攻击"@, "释放技能 <魂技>"@, "逃跑"@, "战斗日志"@]
            &&& shown.notice == None::<Seq<char>>
            &&& shown.illustration == picture
        }),
{
    let shown = battle_documents::battle_log(log, picture);
    lemma_lasting_effect_fields_frame(log.battle.active_effects@, log.battle.action_count);
    lemma_logged_events_frame(log.events@);
    assert(shown.lines =~= seq!["事件记录："@] + battle_documents::logged_events(message::titled(""@), log.events@).lines);
    assert(shown.fields =~= seq![
            (
                "对手"@,
                log.battle.beast.name@ + " · "@ + text::integer(log.battle.beast.age as int)
                    + "年"@,
            ),
            ("状态"@, labels::battle_status(log.battle.status@)),
            ("回合"@, text::integer(log.battle.action_count as int)),
            (
                "武魂战斗修正"@,
                "攻击 "@ + text::integer(log.battle.wuhun_attack_percent as int) + "% · 防御 "@
                    + text::integer(log.battle.wuhun_defense_percent as int) + "%"@,
            ),
            (
                "玩家生命"@,
                text::integer(log.battle.player_hp as int) + "/"@
                    + text::integer(log.battle.player_max_hp as int),
            ),
            (
                "魂兽生命"@,
                text::integer(log.battle.beast_hp as int) + "/"@
                    + text::integer(log.battle.beast_max_hp as int),
            ),
        ]
        + battle_documents::lasting_effect_fields(message::titled(""@), log.battle.active_effects@, log.battle.action_count).fields);
    assert(shown.commands =~= seq!["攻击"@, "释放技能 <魂技>"@, "逃跑"@, "战斗日志"@]);
}

/// A flight that succeeded is told as a success, that the player got away and was not
/// pursued; one that failed is told as a failure, with the damage that the beast did, and
/// neither is told of the other.
pub proof fn a_flight_is_told_as_it_went(receipt: BattleActionReceipt, picture: Option<Picture>)
    requires
        receipt.event.event_kind@ == "flee"@,
    ensures
        ({
            let shown = battle_documents::battle_action(receipt, picture);
            let away = receipt.event.flee_success == Some(true);
            let end = if receipt.replayed {
                "回执"@
            } else {
                ""@
            };
            let escaped = "你脱离了战斗，魂兽没有追击"@;
            let struck = "逃跑失败，魂兽反击造成 "@ + text::integer(
                receipt.event.beast_damage as int,
            ) + " 点"@ + (if receipt.event.beast_critical {
                "暴击"@
            } else {
                ""@
            }) + "伤害"@;
            &&& away ==> shown.title == "逃跑成功"@ + end
            &&& !away ==> shown.title == "逃跑失败"@ + end
            &&& shown.title == "逃跑成功"@ + end <==> away
            &&& shown.lines.len() > 0
            &&& away ==> shown.lines[0] == escaped
            &&& !away ==> shown.lines[0] == struck
            &&& shown.lines[0] == escaped <==> away
        }),
{
    lemma_kinds();
    lemma_action_parts(receipt, picture);
    reveal_strlit("逃跑成功");
    reveal_strlit("逃跑失败");
    reveal_strlit("你脱离了战斗，魂兽没有追击");
    reveal_strlit("逃跑失败，魂兽反击造成 ");
    let end = if receipt.replayed {
        "回执"@
    } else {
        ""@
    };
    let won = "逃跑成功"@ + end;
    let lost = "逃跑失败"@ + end;
    assert(won[2] == '成' && lost[2] == '失');
    let struck = "逃跑失败，魂兽反击造成 "@ + text::integer(receipt.event.beast_damage as int)
        + " 点"@ + (if receipt.event.beast_critical {
        "暴击"@
    } else {
        ""@
    }) + "伤害"@;
    assert(struck[0] == '逃');
    let told = battle_documents::action_lines(message::titled(""@), receipt).lines;
    let shown = battle_documents::battle_action(receipt, picture);
    assert(told.len() == 1);
    assert(told == shown.lines.subrange(0, 1));
    assert(told[0] == shown.lines[0]);
    assert("你脱离了战斗，魂兽没有追击"@[0] == '你');
}

proof fn lemma_kinds()
    ensures
        "challenge"@ != "attack"@,
        "challenge"@ != "flee"@,
        "attack"@ != "flee"@,
        "won"@ != "defeated"@,
        "won"@ != "active"@,
        "defeated"@ != "active"@,
{
    reveal_strlit("challenge");
    reveal_strlit("attack");
    reveal_strlit("flee");
    reveal_strlit("won");
    reveal_strlit("defeated");
    reveal_strlit("active");
    assert("challenge"@.len() == 9 && "attack"@.len() == 6 && "flee"@.len() == 4);
    assert("won"@.len() == 3 && "defeated"@.len() == 8 && "active"@.len() == 6);
}

/// A battle is announced by what happened: its start, an attack, a victory, a defeat, or a
/// flight that succeeded or failed.
pub proof fn battles_are_announced_by_what_happened(
    receipt: BattleActionReceipt,
    picture: Option<Picture>,
)
    ensures
        ({
            let shown = battle_documents::battle_action(receipt, picture);
            let event = receipt.event;
            let end = if receipt.replayed {
                "回执"@
            } else {
                ""@
            };
            &&& event.event_kind@ == "challenge"@ ==> shown.title == "战斗开始"@ + end
            &&& event.event_kind@ == "attack"@ && event.status_after@ == "won"@ ==> shown.title
                == "战斗胜利"@ + end
            &&& event.event_kind@ == "attack"@ && event.status_after@ == "defeated"@
                ==> shown.title == "战斗失败"@ + end
            &&& event.event_kind@ == "attack"@ && event.status_after@ != "won"@
                && event.status_after@ != "defeated"@ ==> shown.title == "攻击结算"@ + end
            &&& event.event_kind@ != "challenge"@ && event.event_kind@ != "attack"@
                && event.event_kind@ != "flee"@ ==> shown.title == "战斗回执"@ + end
        }),
{
    lemma_kinds();
    lemma_action_parts(receipt, picture);
}

/// A round shows beast, round, the life of both from before to after of the most there is,
/// and the modifiers; then the skill, what happened, what ended and what lasts, the result,
/// and the commands.
pub proof fn a_round_shows_both_sides(receipt: BattleActionReceipt, picture: Option<Picture>)
    ensures
        ({
            let shown = battle_documents::battle_action(receipt, picture);
            &&& shown.fields.len() >= 5
            &&& shown.fields[0] == (
                "对手"@,
                receipt.battle.beast.name@ + " · "@ + text::integer(
                    receipt.battle.beast.age as int,
                ) + "年"@,
            )
            &&& shown.fields[1] == ("回合"@, text::integer(receipt.event.sequence as int))
            &&& shown.fields[2] == (
                "玩家生命"@,
                text::integer(receipt.event.player_hp_before as int) + " → "@ + text::integer(
                    receipt.event.player_hp_after as int,
                ) + "/"@ + text::integer(receipt.battle.player_max_hp as int),
            )
            &&& shown.fields[3] == (
                "魂兽生命"@,
                text::integer(receipt.event.beast_hp_before as int) + " → "@ + text::integer(
                    receipt.event.beast_hp_after as int,
                ) + "/"@ + text::integer(receipt.battle.beast_max_hp as int),
            )
            &&& shown.fields[4] == (
                "武魂战斗修正"@,
                "攻击 "@ + text::integer(receipt.battle.wuhun_attack_percent as int)
                    + "% · 防御 "@ + text::integer(receipt.battle.wuhun_defense_percent as int)
                    + "%"@,
            )
            &&& receipt.wuhun_effect is Some ==> shown.fields.contains(
                (
                    "武魂稳定度"@,
                    text::integer((receipt.wuhun_effect->0).stability_before as int) + " → "@
                        + text::integer((receipt.wuhun_effect->0).stability_after as int),
                ),
            )
            &&& shown.illustration == picture
            &&& shown.commands == battle_documents::battle_commands(
                message::titled(""@),
                receipt,
            ).commands
            &&& shown.notice == battle_documents::dropped_wuhun(
                battle_documents::battle_result(message::titled(""@), receipt),
                receipt,
            ).notice
        }),
{
    lemma_action_parts(receipt, picture);
}

proof fn lemma_action_parts(receipt: BattleActionReceipt, picture: Option<Picture>)
    ensures
        ({
            let shown = battle_documents::battle_action(receipt, picture);
            let none = message::titled(""@);
            let head = seq![
                (
                    "对手"@,
                    receipt.battle.beast.name@ + " · "@ + text::integer(
                        receipt.battle.beast.age as int,
                    ) + "年"@,
                ),
                ("回合"@, text::integer(receipt.event.sequence as int)),
                (
                    "玩家生命"@,
                    text::integer(receipt.event.player_hp_before as int) + " → "@
                        + text::integer(receipt.event.player_hp_after as int) + "/"@
                        + text::integer(receipt.battle.player_max_hp as int),
                ),
                (
                    "魂兽生命"@,
                    text::integer(receipt.event.beast_hp_before as int) + " → "@
                        + text::integer(receipt.event.beast_hp_after as int) + "/"@
                        + text::integer(receipt.battle.beast_max_hp as int),
                ),
                (
                    "武魂战斗修正"@,
                    "攻击 "@ + text::integer(receipt.battle.wuhun_attack_percent as int)
                        + "% · 防御 "@ + text::integer(
                        receipt.battle.wuhun_defense_percent as int,
                    ) + "%"@,
                ),
            ];
            &&& shown.title == battle_documents::battle_title(receipt.event) + (
            if receipt.replayed {
                "回执"@
            } else {
                ""@
            })
            &&& head.is_prefix_of(shown.fields)
            &&& battle_documents::action_lines(none, receipt).lines.is_prefix_of(shown.lines)
            &&& receipt.wuhun_effect is Some ==> shown.fields.contains(
                (
                    "武魂稳定度"@,
                    text::integer((receipt.wuhun_effect->0).stability_before as int) + " → "@
                        + text::integer((receipt.wuhun_effect->0).stability_after as int),
                ),
            )
            &&& shown.illustration == picture
            &&& shown.commands == battle_documents::battle_commands(none, receipt).commands
            &&& shown.notice == battle_documents::dropped_wuhun(
                battle_documents::battle_result(none, receipt),
                receipt,
            ).notice
        }),
{
    let none = message::titled(""@);
    let d0 = message::titled(
        battle_documents::battle_title(receipt.event) + (if receipt.replayed {
            "回执"@
        } else {
            ""@
        }),
    ).field(
        "对手"@,
        receipt.battle.beast.name@ + " · "@ + text::integer(receipt.battle.beast.age as int)
            + "年"@,
    ).field("回合"@, text::integer(receipt.event.sequence as int)).field(
        "玩家生命"@,
        text::integer(receipt.event.player_hp_before as int) + " → "@ + text::integer(
            receipt.event.player_hp_after as int,
        ) + "/"@ + text::integer(receipt.battle.player_max_hp as int),
    ).field(
        "魂兽生命"@,
        text::integer(receipt.event.beast_hp_before as int) + " → "@ + text::integer(
            receipt.event.beast_hp_after as int,
        ) + "/"@ + text::integer(receipt.battle.beast_max_hp as int),
    ).field(
        "武魂战斗修正"@,
        "攻击 "@ + text::integer(receipt.battle.wuhun_attack_percent as int) + "% · 防御 "@
            + text::integer(receipt.battle.wuhun_defense_percent as int) + "%"@,
    );
    let d1 = match receipt.skill {
        Some(skill) => battle_documents::skill_use(d0, skill),
        None => d0,
    };
    if let Some(skill) = receipt.skill {
        a_used_skill_is_shown_with_its_cost(d0, skill);
    }
    assert(d1.title == d0.title && d1.lines =~= d0.lines && d0.fields.is_prefix_of(d1.fields)
        && d1.commands =~= d0.commands && d1.notice == d0.notice && d1.illustration
        == d0.illustration);
    let d2 = battle_documents::action_lines(d1, receipt);
    an_action_shows_what_happened(d1, receipt);
    an_action_shows_what_happened(none, receipt);
    assert(d2.lines =~= battle_documents::action_lines(none, receipt).lines);
    let d3 = match receipt.wuhun_effect {
        Some(effect) => d2.field(
            "武魂稳定度"@,
            text::integer(effect.stability_before as int) + " → "@ + text::integer(
                effect.stability_after as int,
            ),
        ),
        None => d2,
    };
    let shown = battle_documents::battle_action(receipt, picture);
    lemma_round_ends(d3, receipt, picture);
    if receipt.wuhun_effect is Some {
        let k = d2.fields.len() as int;
        assert(d3.fields[k].0 == "武魂稳定度"@);
        assert(shown.fields[k] == d3.fields[k]);
    }
}

/// The end of a round leaves what was shown before in its place.
proof fn lemma_round_ends(d: Document, receipt: BattleActionReceipt, picture: Option<Picture>)
    requires
        d.commands.len() == 0,
        d.illustration is None,
    ensures
        ({
            let none = message::titled(""@);
            let shown = battle_documents::battle_commands(
                battle_documents::dropped_wuhun(
                    battle_documents::battle_result(
                        battle_documents::lasting_effect_fields(
                            battle_documents::expired_effects(d, receipt.expired_effects@),
                            receipt.battle.active_effects@,
                            receipt.battle.action_count,
                        ),
                        receipt,
                    ),
                    receipt,
                ).illustration_if(picture),
                receipt,
            );
            &&& shown.title == d.title
            &&& d.lines.is_prefix_of(shown.lines)
            &&& d.fields.is_prefix_of(shown.fields)
            &&& shown.illustration == picture
            &&& shown.commands == battle_documents::battle_commands(none, receipt).commands
            &&& shown.notice == battle_documents::dropped_wuhun(
                battle_documents::battle_result(none, receipt),
                receipt,
            ).notice
        }),
{
    let none = message::titled(""@);
    let d4 = battle_documents::expired_effects(d, receipt.expired_effects@);
    lemma_expired_effects_frame(receipt.expired_effects@);
    let d5 = battle_documents::lasting_effect_fields(
        d4,
        receipt.battle.active_effects@,
        receipt.battle.action_count,
    );
    lemma_lasting_effect_fields_frame(
        receipt.battle.active_effects@,
        receipt.battle.action_count,
    );
    assert(d.lines.is_prefix_of(d5.lines));
    assert(d.fields.is_prefix_of(d5.fields));
    let d6 = battle_documents::battle_result(d5, receipt);
    lemma_result_adds(d5, receipt);
    let d7 = battle_documents::dropped_wuhun(d6, receipt);
    let other = battle_documents::battle_result(none, receipt);
    lemma_drop_notices(d6, other, receipt);
    let d8 = d7.illustration_if(picture);
    lemma_commands_follow(d8, receipt);
}

proof fn lemma_result_adds(d: Document, receipt: BattleActionReceipt)
    ensures
        ({
            let r = battle_documents::battle_result(d, receipt);
            &&& r.title == d.title
            &&& r.commands == d.commands
            &&& r.illustration == d.illustration
            &&& d.lines.is_prefix_of(r.lines)
            &&& d.fields.is_prefix_of(r.fields)
            &&& r.notice == battle_documents::battle_result(message::titled(""@), receipt).notice
        }),
{
}

proof fn lemma_drop_notices(one: Document, other: Document, receipt: BattleActionReceipt)
    requires
        one.notice == other.notice,
    ensures
        ({
            let r = battle_documents::dropped_wuhun(one, receipt);
            &&& r == (Document { notice: r.notice, ..one })
            &&& r.notice == battle_documents::dropped_wuhun(other, receipt).notice
        }),
{
}

proof fn lemma_commands_follow(d: Document, receipt: BattleActionReceipt)
    requires
        d.commands.len() == 0,
    ensures
        ({
            let r = battle_documents::battle_commands(d, receipt);
            &&& r == (Document { commands: r.commands, ..d })
            &&& r.commands == battle_documents::battle_commands(
                message::titled(""@),
                receipt,
            ).commands
        }),
{
    assert(d.commands =~= message::titled(""@).commands);
}

} // verus!
