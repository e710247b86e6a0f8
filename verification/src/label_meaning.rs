//! The words for states, kinds and amounts, and what a message looks like.
use crate::checkin;
use crate::labels;
use crate::labels::ProficiencyRules;
use crate::message;
use crate::message::{Document, Picture, Protocol, Source};
use crate::records::{
    BattleEventRecord, BattleSkillEffectRecord, ItemRecord, QuestReward, SkillDamageModifierRecord,
    SkillEffectRecord,
};
use crate::text;
use vstd::prelude::*;

verus! {

/// People who trade are merchants and old people elders; north is up, south down, west left
/// and east right.
pub proof fn people_and_directions_have_their_words(word: Seq<char>)
    ensures
        word == "merchant"@ ==> labels::npc_kind(word) == "商人"@,
        word == "elder"@ ==> labels::npc_kind(word) == "长者"@,
        word != "merchant"@ && word != "elder"@ ==> labels::npc_kind(word) == "NPC"@,
        word == "north"@ ==> labels::direction_name(word) == "上"@,
        word == "south"@ ==> labels::direction_name(word) == "下"@,
        word == "west"@ ==> labels::direction_name(word) == "左"@,
        word == "east"@ ==> labels::direction_name(word) == "右"@,
        word != "north"@ && word != "south"@ && word != "west"@ && word != "east"@
            ==> labels::direction_name(word) == "未知"@,
{
    reveal_strlit("merchant");
    reveal_strlit("elder");
    reveal_strlit("north");
    reveal_strlit("south");
    reveal_strlit("west");
    reveal_strlit("east");
    assert("merchant"@.len() == 8 && "elder"@.len() == 5);
    assert("north"@[0] == 'n' && "south"@[0] == 's' && "west"@[0] == 'w' && "east"@[0] == 'e');
}

/// A battle runs, was won, was fled or was lost; a ring is white, yellow, purple, black or red.
pub proof fn battles_and_rings_have_their_words(word: Seq<char>)
    ensures
        word == "active"@ ==> labels::battle_status(word) == "进行中"@,
        word == "won"@ ==> labels::battle_status(word) == "胜利"@,
        word == "escaped"@ ==> labels::battle_status(word) == "已逃跑"@,
        word == "defeated"@ ==> labels::battle_status(word) == "战败"@,
        word != "active"@ && word != "won"@ && word != "escaped"@ && word != "defeated"@
            ==> labels::battle_status(word) == "未知"@,
        word == "white"@ ==> labels::ring_color(word) == "白环"@,
        word == "yellow"@ ==> labels::ring_color(word) == "黄环"@,
        word == "purple"@ ==> labels::ring_color(word) == "紫环"@,
        word == "black"@ ==> labels::ring_color(word) == "黑环"@,
        word == "red"@ ==> labels::ring_color(word) == "红环"@,
        word != "white"@ && word != "yellow"@ && word != "purple"@ && word != "black"@ && word
            != "red"@ ==> labels::ring_color(word) == "未知魂环"@,
{
    reveal_strlit("active");
    reveal_strlit("won");
    reveal_strlit("escaped");
    reveal_strlit("defeated");
    reveal_strlit("white");
    reveal_strlit("yellow");
    reveal_strlit("purple");
    reveal_strlit("black");
    reveal_strlit("red");
    assert("active"@[0] == 'a' && "won"@[0] == 'w' && "escaped"@[0] == 'e' && "defeated"@[0]
        == 'd');
    assert("white"@[0] == 'w' && "yellow"@[0] == 'y' && "purple"@[0] == 'p' && "black"@[0] == 'b'
        && "red"@[0] == 'r');
}

/// A thing that restores life says how much life, one that restores soul power how much soul
/// power, one that revives how much of the life; any other is described.
pub proof fn things_say_what_they_restore(item: ItemRecord)
    ensures
        item.effect_kind@ == "restore_hp"@ ==> labels::item_effect(item) == "恢复 "@
            + text::integer(item.effect_amount as int) + " 点生命"@,
        item.effect_kind@ == "restore_soul"@ ==> labels::item_effect(item) == "恢复 "@
            + text::integer(item.effect_amount as int) + " 点魂力"@,
        item.effect_kind@ == "revive"@ ==> labels::item_effect(item) == "复活并恢复 "@
            + text::integer(item.revive_hp_percent as int) + "% 生命"@,
        item.effect_kind@ != "restore_hp"@ && item.effect_kind@ != "restore_soul"@
            && item.effect_kind@ != "revive"@ ==> labels::item_effect(item) == item.description@,
        forall|quality: i64| #[trigger]
            labels::item_quality(quality) == "品质 "@ + text::integer(quality as int),
{
    reveal_strlit("restore_hp");
    reveal_strlit("restore_soul");
    reveal_strlit("revive");
    assert("restore_hp"@.len() == 10 && "restore_soul"@.len() == 12 && "revive"@.len() == 6);
}

/// Proficiency is shown of the next threshold, and of the most there is at the highest level;
/// a multiplier is shown with its level, and as one of the old rules where it is.
pub proof fn proficiency_is_shown_of_the_next_threshold(
    level: i64,
    proficiency: i64,
    rules: ProficiencyRules,
    modifier: SkillDamageModifierRecord,
)
    ensures
        level >= rules.max_level ==> labels::proficiency_label(level, proficiency, rules)
            == text::integer(proficiency as int) + "/"@ + text::integer(
            rules.max_proficiency as int,
        ) + "（满级）"@,
        level < rules.max_level && rules.next_threshold is Some ==> labels::proficiency_label(
            level,
            proficiency,
            rules,
        ) == text::integer(proficiency as int) + "/"@ + text::integer(
            rules.next_threshold->0 as int,
        ),
        level < rules.max_level && rules.next_threshold is None ==> labels::proficiency_label(
            level,
            proficiency,
            rules,
        ) == text::integer(proficiency as int),
        modifier.rule_version@ == "legacy"@ ==> labels::damage_modifier(modifier) == "Lv."@
            + text::integer(modifier.skill_level as int) + " · "@ + text::integer(
            modifier.damage_percent as int,
        ) + "%"@ + "（历史规则）"@,
        modifier.rule_version@ != "legacy"@ ==> labels::damage_modifier(modifier) == "Lv."@
            + text::integer(modifier.skill_level as int) + " · "@ + text::integer(
            modifier.damage_percent as int,
        ) + "%"@,
{
    reveal_strlit("");
    if modifier.rule_version@ != "legacy"@ {
        let head = "Lv."@ + text::integer(modifier.skill_level as int) + " · "@ + text::integer(
            modifier.damage_percent as int,
        ) + "%"@;
        assert(head + ""@ =~= head);
    }
}

/// An effect that weakens the attack of the beast says by how much and for how many rounds,
/// and any other is described; one that lasts says how many rounds it has left, and never
/// fewer than none.
pub proof fn effects_say_how_much_and_how_long(
    effect: SkillEffectRecord,
    used: BattleSkillEffectRecord,
    sequence: i64,
)
    ensures
        effect.effect_kind@ == "beast_attack_reduction"@ && effect.target_kind@ == "enemy"@
            ==> labels::skill_effect(effect) == "魂兽攻击 -"@ + text::integer(
            effect.magnitude_percent as int,
        ) + "% · "@ + text::integer(effect.duration_rounds as int) + " 回合"@,
        !(effect.effect_kind@ == "beast_attack_reduction"@ && effect.target_kind@ == "enemy"@)
            ==> labels::skill_effect(effect) == effect.description@,
        used.effect_kind@ == "beast_attack_reduction"@ && used.target_kind@ == "enemy"@
            ==> labels::battle_effect(used) == "魂兽攻击 -"@ + text::integer(
            used.magnitude_percent as int,
        ) + "%"@,
        !(used.effect_kind@ == "beast_attack_reduction"@ && used.target_kind@ == "enemy"@)
            ==> labels::battle_effect(used) == used.description@,
        labels::lasting_effect(used) == labels::battle_effect(used) + " · "@ + text::integer(
            used.duration_rounds as int,
        ) + " 回合"@,
        sequence < used.expires_after_sequence && used.expires_after_sequence - sequence
            <= i64::MAX ==> labels::active_effect(used, sequence) == used.skill_name@ + " · "@
            + labels::battle_effect(used) + " · 剩余 "@ + text::integer(
            used.expires_after_sequence - sequence,
        ) + " 回合"@,
        sequence >= used.expires_after_sequence ==> labels::active_effect(used, sequence)
            == used.skill_name@ + " · "@ + labels::battle_effect(used) + " · 剩余 "@
            + text::integer(0) + " 回合"@,
{
}

/// A reward is experience, a currency or a thing, each by its name and amount.
pub proof fn rewards_say_what_and_how_much(reward: QuestReward)
    ensures
        reward.reward_kind@ == "exp"@ ==> labels::reward_text(reward) == "经验"@ + " x"@
            + text::integer(reward.amount as int),
        reward.reward_kind@ == "currency"@ && reward.currency_code is Some ==> labels::reward_text(
            reward,
        ) == (reward.currency_code->0)@ + " x"@ + text::integer(reward.amount as int),
        reward.reward_kind@ == "currency"@ && reward.currency_code is None ==> labels::reward_text(
            reward,
        ) == "货币"@ + " x"@ + text::integer(reward.amount as int),
        reward.reward_kind@ == "item"@ && reward.item is Some ==> labels::reward_text(reward) == (
        reward.item->0).name@ + " x"@ + text::integer(reward.amount as int),
        reward.reward_kind@ == "item"@ && reward.item is None ==> labels::reward_text(reward)
            == "物品"@ + " x"@ + text::integer(reward.amount as int),
        reward.reward_kind@ != "exp"@ && reward.reward_kind@ != "currency"@
            && reward.reward_kind@ != "item"@ ==> labels::reward_text(reward) == "奖励"@ + " x"@
            + text::integer(reward.amount as int),
{
    reveal_strlit("exp");
    reveal_strlit("currency");
    reveal_strlit("item");
    reveal_strlit("经验 x");
    reveal_strlit("经验");
    reveal_strlit("奖励 x");
    reveal_strlit("奖励");
    reveal_strlit(" x");
    assert("exp"@.len() == 3 && "currency"@.len() == 8 && "item"@.len() == 4);
    assert("经验 x"@ =~= "经验"@ + " x"@);
    assert("奖励 x"@ =~= "奖励"@ + " x"@);
}

/// An event of a battle is one line: its number, what was done, the life of the player and of
/// the beast before and after, the damage that the player and the beast did where any was
/// done, how a flight went, and the state of the battle.
pub proof fn an_event_is_told_in_one_line(event: BattleEventRecord)
    ensures
        ({
            let done = match event.skill_name {
                Some(name) => "魂技 "@ + name@,
                None => labels::battle_action_name(event),
            };
            let life = "#"@ + text::integer(event.sequence as int) + " · "@ + done + " · 玩家 "@
                + text::integer(event.player_hp_before as int) + "/"@ + text::integer(
                event.player_hp_after as int,
            ) + " · 魂兽 "@ + text::integer(event.beast_hp_before as int) + "/"@ + text::integer(
                event.beast_hp_after as int,
            );
            let damage = if event.player_damage <= 0 && event.beast_damage <= 0 {
                Seq::<char>::empty()
            } else {
                " · 伤害 "@ + text::integer(event.player_damage as int) + "/"@ + text::integer(
                    event.beast_damage as int,
                )
            };
            let flight = if event.flee_success == Some(true) {
                " · 逃跑成功"@
            } else if event.flee_success == Some(false) {
                " · 逃跑失败"@
            } else {
                Seq::<char>::empty()
            };
            labels::battle_event_line(event) == life + damage + flight + " · "@
                + labels::battle_status(event.status_after@)
        }),
        event.skill_name is None && event.event_kind@ == "challenge"@
            ==> labels::battle_action_name(event) == "挑战"@,
        event.skill_name is None && event.event_kind@ == "attack"@ ==> labels::battle_action_name(
            event,
        ) == "攻击"@,
        event.skill_name is None && event.event_kind@ == "flee"@ ==> labels::battle_action_name(
            event,
        ) == "逃跑"@,
        event.skill_name is None && event.event_kind@ != "challenge"@ && event.event_kind@
            != "attack"@ && event.event_kind@ != "flee"@ ==> labels::battle_action_name(event)
            == "未知动作"@,
{
    reveal_strlit("");
    assert(""@ =~= Seq::<char>::empty());
    reveal_strlit("challenge");
    reveal_strlit("attack");
    reveal_strlit("flee");
    assert("challenge"@.len() == 9 && "attack"@.len() == 6 && "flee"@.len() == 4);
}

/// The day of the game starts at four in the morning in Beijing, which is eight in the evening
/// of the day before in universal time, and lasts 24 hours.
pub proof fn days_start_at_four_in_beijing(day: int, second: int)
    requires
        0 <= second < 24 * 60 * 60,
    ensures
        checkin::game_day(day * 86400 - 4 * 3600 + second) == day,
        checkin::game_day(day * 86400 + 20 * 3600) == day + 1,
{
    assert((day * 86400 + second) / 86400 == day) by (nonlinear_arith)
        requires
            0 <= second < 86400,
    ;
    assert(((day + 1) * 86400) / 86400 == day + 1) by (nonlinear_arith);
}

/// Days in a row are counted in cycles of seven; each day of a cycle gives ten more than the
/// one before, from sixty on, and the seventh a hundred and fifty.
pub proof fn rewards_grow_with_the_cycle(streak: int)
    requires
        streak > 0,
    ensures
        checkin::cycle_day(streak) matches Ok(day) && 1 <= day <= 7,
        checkin::cycle_day(streak + 7) == checkin::cycle_day(streak),
        streak <= 7 ==> checkin::cycle_day(streak) == Ok::<int, Seq<char>>(streak),
        checkin::cycle_day(0) == Err::<int, Seq<char>>("连签天数必须大于 0"@),
        checkin::exp_reward(1) == Ok::<int, Seq<char>>(60),
        forall|day: int|
            1 <= day < 6 ==> (#[trigger] checkin::exp_reward(day + 1) matches Ok(next)
                && checkin::exp_reward(day) matches Ok(now) && next == now + 10),
        checkin::exp_reward(7) == Ok::<int, Seq<char>>(150),
        forall|day: int|
            #[trigger] checkin::exp_reward(day) is Err <==> !(1 <= day <= 7),
{
}

/// The text of a message is its title, its lines, its fields, its commands under a heading
/// where it has any, and its notice where it has one, in this order and one by one.
pub proof fn texts_show_all_parts_in_order(document: Document)
    ensures
        ({
            let lines = message::text_lines(document);
            let n = document.lines.len() as int;
            let f = document.fields.len() as int;
            let c = document.commands.len() as int;
            let heading: int = if c > 0 {
                1
            } else {
                0
            };
            let notice: int = if document.notice is Some {
                1
            } else {
                0
            };
            &&& lines.len() == 1 + n + f + heading + c + notice
            &&& lines[0] == "== "@ + document.title + " =="@
            &&& forall|i: int|
                0 <= i < n ==> lines[1 + i] == #[trigger] document.lines[i]
            &&& forall|i: int|
                0 <= i < f ==> lines[1 + n + i] == (#[trigger] document.fields[i]).0 + "："@
                    + document.fields[i].1
            &&& c > 0 ==> lines[1 + n + f] == "可用命令："@
            &&& forall|i: int|
                0 <= i < c ==> lines[1 + n + f + 1 + i] == "- "@ + #[trigger] document.commands[i]
            &&& document.notice is Some ==> lines.last() == "提示："@ + document.notice->0
        }),
{
}

/// The same message with marks is its title as a heading, its picture where it is shown, its
/// lines, its fields with bold names, its commands behind a rule and under a heading, and its
/// notice as a quotation, all of it escaped.
pub proof fn marked_texts_show_all_parts_in_order(document: Document, url: Option<Seq<char>>)
    ensures
        ({
            let lines = message::markdown_lines(document, url);
            let p: int = if document.illustration is Some && url is Some {
                1
            } else {
                0
            };
            let n = document.lines.len() as int;
            let f = document.fields.len() as int;
            let c = document.commands.len() as int;
            let heading: int = if c > 0 {
                2
            } else {
                0
            };
            let notice: int = if document.notice is Some {
                1
            } else {
                0
            };
            &&& lines.len() == 1 + p + n + f + heading + c + notice
            &&& lines[0] == "# "@ + message::escaped(document.title)
            &&& p == 1 ==> lines[1] == "!["@ + message::escaped((document.illustration->0).alt)
                + " #"@ + text::decimal((document.illustration->0).width as nat) + "px #"@
                + text::decimal((document.illustration->0).height as nat) + "px]("@ + url->0
                + ")"@
            &&& forall|i: int|
                0 <= i < n ==> lines[1 + p + i] == message::escaped(#[trigger] document.lines[i])
            &&& forall|i: int|
                0 <= i < f ==> lines[1 + p + n + i] == "- **"@ + message::escaped(
                    (#[trigger] document.fields[i]).0,
                ) + "**："@ + message::escaped(document.fields[i].1)
            &&& c > 0 ==> lines[1 + p + n + f] == "---"@ && lines[1 + p + n + f + 1]
                == "## 可用命令"@
            &&& forall|i: int|
                0 <= i < c ==> lines[1 + p + n + f + 2 + i] == "- "@ + message::escaped(
                    #[trigger] document.commands[i],
                )
            &&& document.notice is Some ==> lines.last() == "> "@ + message::escaped(
                document.notice->0,
            )
        }),
{
    let head = seq!["# "@ + message::escaped(document.title)];
    let commands = message::prefixed("- "@, message::escaped_all(document.commands));
    assert(commands.len() == document.commands.len());
}

/// Each of the fifteen characters that are marks is escaped, and no other is.
pub proof fn marks_are_escaped_and_nothing_else(c: char)
    ensures
        message::is_markup(c) <==> {
            ||| c == '\\'
            ||| c == '`'
            ||| c == '*'
            ||| c == '_'
            ||| c == '{'
            ||| c == '}'
            ||| c == '['
            ||| c == ']'
            ||| c == '<'
            ||| c == '>'
            ||| c == '#'
            ||| c == '+'
            ||| c == '-'
            ||| c == '!'
            ||| c == '|'
        },
{
}

/// Pictures have a description of at most 80 printable characters and sides of 1 to 4096
/// pixels; a picture sent along has at most 8 MiB and the first bytes of a picture.
pub proof fn pictures_keep_their_bounds(picture: Picture)
    ensures
        message::picture_ok(picture) ==> {
            &&& !text::is_blank(picture.alt)
            &&& picture.alt.len() <= 80
            &&& 1 <= picture.width <= 4096
            &&& 1 <= picture.height <= 4096
            &&& picture.source matches Source::InlineImage(bytes) ==> 1 <= bytes.len() <= 8 * 1024
                * 1024
        },
        message::metadata_error(picture.alt, picture.width, picture.height) is None <==> {
            &&& !text::is_blank(picture.alt)
            &&& picture.alt.len() <= 80
            &&& !text::has_control(picture.alt)
            &&& 1 <= picture.width <= 4096
            &&& 1 <= picture.height <= 4096
        },
        picture.source matches Source::InlineImage(bytes) ==> (message::bytes_error(bytes) is None
            <==> {
            &&& 1 <= bytes.len() <= 8388608
            &&& {
                ||| crate::signature::is_png(bytes)
                ||| crate::signature::is_jpeg(bytes)
                ||| crate::signature::is_webp(bytes)
                ||| crate::signature::is_gif(bytes)
                ||| crate::signature::is_bmp(bytes)
            }
        }),
{
}

/// The protocols go by these names, and an event of the official one is told by its payload.
pub proof fn protocols_go_by_their_names(raw_event: Seq<char>)
    ensures
        message::protocol_name(Protocol::OneBot11) == "onebot11"@,
        message::protocol_name(Protocol::QqOfficial) == "qq-official"@,
        message::protocol_of(raw_event) == Protocol::QqOfficial <==> crate::outside::json_at(
            raw_event,
            "/qqbot_payload"@,
        ) is Some,
{
}

} // verus!
