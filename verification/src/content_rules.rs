//! The shape that every content package must have.
//!
//! The errors of a package come in the order of its fields and entries; a
//! package is accepted when there are none.
use crate::content;
use crate::content::{
    is_forbid_skill_v1_parameters, is_heal_v1_parameters, is_poison_v1_parameters,
    is_shield_v1_parameters, is_stun_v1_parameters, is_target_v1_parameters, ContentPackage,
    ContentTransitionPackageEntry, EffectPackageEntry, ItemPackageEntry, MapPackageEntry,
    NpcPackageEntry, NumericCurvePackageEntry, QuestPackageEntry, QuestRequirementPackageEntry,
    QuestRewardPackageEntry, SkillPackageEntry, SoulBeastPackageEntry, SoulRingPackageEntry,
    WuhunPackageEntry, WuhunStatsPackageEntry, FORBID_SKILL_VALUE, MAX_FORBID_SKILL_DURATION_ROUNDS,
    MAX_HEAL_AMOUNT, MAX_POISON_TICK_DAMAGE, MAX_SHIELD_DURATION_ROUNDS, MAX_STUN_DURATION_ROUNDS,
    MIN_FORBID_SKILL_DURATION_ROUNDS, PLAYER_LEVEL_EXP_CURVE_REFERENCE, SHIELD_VALUE,
    SKILL_DAMAGE_PERCENT_CURVE_REFERENCE, SKILL_PROFICIENCY_CURVE_REFERENCE, STUN_VALUE,
    TARGET_SELECTION_VALUE,
};
use crate::seen;
use crate::seen::{SeenNumbers, SeenTexts};
use crate::text;
use crate::text::{any_control, blank, cat2, cat3, cat4, cat5, cat7, i64_text, push_text, same};
use vstd::prelude::*;
use vstd::string::*;

verus! {

/// The errors with one more where a check failed.
pub open spec fn noted(errors: Seq<Seq<char>>, failed: bool, message: Seq<char>) -> Seq<Seq<char>> {
    if failed {
        errors.push(message)
    } else {
        errors
    }
}

/// A text that is too long, holds a control character, or is blank though required.
pub open spec fn text_fails(value: Seq<char>, max_chars: nat, required: bool) -> bool {
    ||| required && text::is_blank(value)
    ||| value.len() > max_chars
    ||| text::has_control(value)
}

pub open spec fn text_noted(
    errors: Seq<Seq<char>>,
    field: Seq<char>,
    value: Seq<char>,
    max_chars: nat,
    required: bool,
) -> Seq<Seq<char>> {
    noted(errors, text_fails(value, max_chars, required), field + " 为空、过长或包含控制字符"@)
}

pub fn text_field(
    errors: &mut Vec<String>,
    field: &str,
    value: &str,
    max_chars: usize,
    required: bool,
)
    ensures
        text::texts(final(errors)@) == text_noted(
            text::texts(old(errors)@),
            field@,
            value@,
            max_chars as nat,
            required,
        ),
{
    let length = value.unicode_len();
    if (required && blank(value)) || length > max_chars || any_control(value) {
        push_text(errors, cat2(field, " 为空、过长或包含控制字符"));
    }
}

/// A character of a content key.
pub open spec fn is_key_char(c: char) -> bool {
    text::is_lower(c) || text::is_digit(c) || c == '.' || c == '_' || c == '-'
}

/// Up to 96 small letters, digits, dots, underscores and hyphens, a letter first.
pub open spec fn is_key(value: Seq<char>) -> bool {
    &&& 0 < value.len() <= 96
    &&& text::is_lower(value[0])
    &&& forall|i: int| 0 <= i < value.len() ==> is_key_char(#[trigger] value[i])
}

/// Whether a text is a content key.
pub fn is_content_key(value: &str) -> (answer: bool)
    ensures
        answer == is_key(value@),
{
    let characters = text::chars_of(value);
    if characters.len() == 0 || characters.len() > 96 {
        return false;
    }
    if !('a' <= characters[0] && characters[0] <= 'z') {
        return false;
    }
    let mut i: usize = 0;
    while i < characters.len()
        invariant
            i <= characters@.len(),
            characters@ == value@,
            forall|j: int| 0 <= j < i ==> is_key_char(#[trigger] value@[j]),
        decreases characters@.len() - i,
    {
        let c = characters[i];
        if !(('a' <= c && c <= 'z') || ('0' <= c && c <= '9') || c == '.' || c == '_' || c == '-') {
            return false;
        }
        i = i + 1;
    }
    true
}

/// A content key has no white space, at its ends or inside, and no control character.
pub proof fn keys_are_plain(value: Seq<char>)
    requires
        is_key(value),
    ensures
        text::trimmed(value) == value,
        !text::has_control(value),
        forall|i: int| 0 <= i < value.len() ==> !text::is_white(#[trigger] value[i]),
{
    text::lemma_run_len(value, text::white(), 0);
    assert(value.skip(0) =~= value);
    text::lemma_tail_run_len(value, text::white(), 0);
    assert(value.take(value.len() as int) =~= value);
}

pub open spec fn key_noted(
    errors: Seq<Seq<char>>,
    field: Seq<char>,
    value: Seq<char>,
) -> Seq<Seq<char>> {
    noted(errors, !is_key(value), field + " 不是合法小写内容键"@)
}

pub fn validate_key(errors: &mut Vec<String>, field: &str, value: &str)
    ensures
        text::texts(final(errors)@) == key_noted(text::texts(old(errors)@), field@, value@),
{
    if !is_content_key(value) {
        push_text(errors, cat2(field, " 不是合法小写内容键"));
    }
}

pub open spec fn range_noted(
    errors: Seq<Seq<char>>,
    field: Seq<char>,
    key: Seq<char>,
    value: int,
    min: int,
    max: int,
) -> Seq<Seq<char>> {
    noted(
        errors,
        !(min <= value <= max),
        field + "("@ + key + ") 必须在 "@ + text::integer(min) + " 到 "@ + text::integer(max)
            + " 之间"@,
    )
}

pub fn range_field(
    errors: &mut Vec<String>,
    field: &str,
    key: &str,
    value: i64,
    min: i64,
    max: i64,
)
    ensures
        text::texts(final(errors)@) == range_noted(
            text::texts(old(errors)@),
            field@,
            key@,
            value as int,
            min as int,
            max as int,
        ),
{
    if !(min <= value && value <= max) {
        let mut message = cat7(
            field,
            "(",
            key,
            ") 必须在 ",
            &i64_text(min),
            " 到 ",
            &i64_text(max),
        );
        message.append(" 之间");
        push_text(errors, message);
    }
}

pub open spec fn percent_noted(
    errors: Seq<Seq<char>>,
    prefix: Seq<char>,
    name: Seq<char>,
    value: int,
) -> Seq<Seq<char>> {
    noted(errors, !(1 <= value <= 500), prefix + "."@ + name + " 必须在 1 到 500 之间"@)
}

fn percent_field(errors: &mut Vec<String>, prefix: &str, name: &str, value: i64)
    ensures
        text::texts(final(errors)@) == percent_noted(
            text::texts(old(errors)@),
            prefix@,
            name@,
            value as int,
        ),
{
    if !(1 <= value && value <= 500) {
        push_text(errors, cat4(prefix, ".", name, " 必须在 1 到 500 之间"));
    }
}

pub open spec fn percents_noted(
    errors: Seq<Seq<char>>,
    prefix: Seq<char>,
    stats: WuhunStatsPackageEntry,
) -> Seq<Seq<char>> {
    let errors = percent_noted(errors, prefix, "attack_percent"@, stats.attack_percent as int);
    let errors = percent_noted(errors, prefix, "defense_percent"@, stats.defense_percent as int);
    let errors = percent_noted(errors, prefix, "strength_percent"@, stats.strength_percent as int);
    let errors = percent_noted(errors, prefix, "agility_percent"@, stats.agility_percent as int);
    let errors = percent_noted(errors, prefix, "spirit_percent"@, stats.spirit_percent as int);
    let errors = percent_noted(errors, prefix, "endurance_percent"@, stats.endurance_percent as int);
    let errors = percent_noted(
        errors,
        prefix,
        "perception_percent"@,
        stats.perception_percent as int,
    );
    percent_noted(errors, prefix, "luck_percent"@, stats.luck_percent as int)
}

pub fn validate_percent_fields(
    errors: &mut Vec<String>,
    prefix: &str,
    stats: &WuhunStatsPackageEntry,
)
    ensures
        text::texts(final(errors)@) == percents_noted(text::texts(old(errors)@), prefix@, *stats),
{
    percent_field(errors, prefix, "attack_percent", stats.attack_percent);
    percent_field(errors, prefix, "defense_percent", stats.defense_percent);
    percent_field(errors, prefix, "strength_percent", stats.strength_percent);
    percent_field(errors, prefix, "agility_percent", stats.agility_percent);
    percent_field(errors, prefix, "spirit_percent", stats.spirit_percent);
    percent_field(errors, prefix, "endurance_percent", stats.endurance_percent);
    percent_field(errors, prefix, "perception_percent", stats.perception_percent);
    percent_field(errors, prefix, "luck_percent", stats.luck_percent);
}

/// The errors of a map.
pub open spec fn map_entry_errors(
    errors: Seq<Seq<char>>,
    entry: MapPackageEntry,
    key_repeats: bool,
    name_repeats: bool,
    order_repeats: bool,
) -> Seq<Seq<char>> {
    let errors = noted(errors, key_repeats, "地图键重复："@ + entry.map_key@);
    let errors = noted(errors, name_repeats, "地图名称重复："@ + entry.name@);
    let errors = noted(errors, order_repeats, "地图排序重复："@ + text::integer(entry.sort_order as int));
    let errors = key_noted(errors, "map.map_key"@, entry.map_key@);
    let errors = text_noted(errors, "map.name"@, entry.name@, 128, true);
    let errors = text_noted(errors, "map.description"@, entry.description@, 2000, true);
    let errors = range_noted(errors, "map.level_required"@, entry.map_key@, entry.level_required as int, 1, 120);
    let errors = noted(
        errors,
        entry.sort_order < 0,
        "地图 "@ + entry.map_key@ + " 的 sort_order 不能为负数"@,
    );
    errors
}

fn check_map(
    errors: &mut Vec<String>,
    entry: &MapPackageEntry,
    key_repeats: bool,
    name_repeats: bool,
    order_repeats: bool,
)
    ensures
        text::texts(final(errors)@) == map_entry_errors(
            text::texts(old(errors)@),
            *entry,
            key_repeats,
            name_repeats,
            order_repeats,
        ),
{
    if key_repeats {
        push_text(errors, cat2("地图键重复：", &entry.map_key));
    }
    if name_repeats {
        push_text(errors, cat2("地图名称重复：", &entry.name));
    }
    if order_repeats {
        push_text(errors, cat2("地图排序重复：", &i64_text(entry.sort_order)));
    }
    validate_key(errors, "map.map_key", &entry.map_key);
    text_field(errors, "map.name", &entry.name, 128, true);
    text_field(errors, "map.description", &entry.description, 2000, true);
    range_field(errors, "map.level_required", &entry.map_key, entry.level_required, 1, 120);
    if entry.sort_order < 0 {
        push_text(errors, cat3("地图 ", &entry.map_key, " 的 sort_order 不能为负数"));
    }
}

/// The map keys.
pub open spec fn map_keys(entries: Seq<MapPackageEntry>) -> Seq<Seq<char>> {
    entries.map_values(|entry: MapPackageEntry| entry.map_key@)
}

/// The map names.
pub open spec fn map_names(entries: Seq<MapPackageEntry>) -> Seq<Seq<char>> {
    entries.map_values(|entry: MapPackageEntry| entry.name@)
}

/// The sort orders of the maps.
pub open spec fn map_orders(entries: Seq<MapPackageEntry>) -> Seq<i64> {
    entries.map_values(|entry: MapPackageEntry| entry.sort_order)
}

/// The errors of the first `count` of the entries: a map.
pub open spec fn map_errors(
    errors: Seq<Seq<char>>,
    entries: Seq<MapPackageEntry>,
    count: int,
) -> Seq<Seq<char>>
    decreases count,
{
    if count <= 0 {
        errors
    } else {
        map_entry_errors(
            map_errors(errors, entries, count - 1),
            entries[count - 1],
            seen::repeats(map_keys(entries), count - 1),
            seen::repeats(map_names(entries), count - 1),
            seen::repeats(map_orders(entries), count - 1),
        )
    }
}

fn check_map_entries(errors: &mut Vec<String>, entries: &Vec<MapPackageEntry>)
    ensures
        text::texts(final(errors)@) == map_errors(
            text::texts(old(errors)@),
            entries@,
            entries@.len() as int,
        ),
{
    let mut keys = SeenTexts::new();
    let mut names = SeenTexts::new();
    let mut orders = SeenNumbers::new();
    let ghost all_keys = map_keys(entries@);
    let ghost all_names = map_names(entries@);
    let ghost all_orders = map_orders(entries@);
    let mut i: usize = 0;
    while i < entries.len()
        invariant
            i <= entries@.len(),
            keys.wf(),
            all_keys == map_keys(entries@),
            keys.noted() == all_keys.take(i as int),
            names.wf(),
            all_names == map_names(entries@),
            names.noted() == all_names.take(i as int),
            orders.wf(),
            all_orders == map_orders(entries@),
            orders.noted() == all_orders.take(i as int),
            text::texts(errors@) == map_errors(text::texts(old(errors)@), entries@, i as int),
        decreases entries@.len() - i,
    {
        let entry = &entries[i];
        let key_repeats = keys.note(&entry.map_key);
        let name_repeats = names.note(&entry.name);
        let order_repeats = orders.note(entry.sort_order);
        check_map(errors, entry, key_repeats, name_repeats, order_repeats);
        i = i + 1;
        assert(all_keys.take(i as int) =~= all_keys.take(i - 1).push(all_keys[i - 1]));
        assert(all_names.take(i as int) =~= all_names.take(i - 1).push(all_names[i - 1]));
        assert(all_orders.take(i as int) =~= all_orders.take(i - 1).push(all_orders[i - 1]));
    }
}

/// The errors of an item.
pub open spec fn item_entry_errors(
    errors: Seq<Seq<char>>,
    entry: ItemPackageEntry,
    key_repeats: bool,
    name_repeats: bool,
) -> Seq<Seq<char>> {
    let errors = noted(errors, key_repeats, "物品键重复："@ + entry.item_key@);
    let errors = noted(errors, name_repeats, "物品名称重复："@ + entry.name@);
    let errors = key_noted(errors, "item.item_key"@, entry.item_key@);
    let errors = text_noted(errors, "item.name"@, entry.name@, 128, true);
    let errors = noted(
        errors,
        !(entry.category@ == "revival"@ || entry.category@ == "consumable"@),
        "物品 "@ + entry.item_key@ + " 的 category 不受支持"@,
    );
    let errors = range_noted(errors, "item.quality"@, entry.item_key@, entry.quality as int, 1, 5);
    let errors = range_noted(errors, "item.max_stack"@, entry.item_key@, entry.max_stack as int, 1, 9999);
    let errors = noted(
        errors,
        !entry.stackable && entry.max_stack != 1,
        "物品 "@ + entry.item_key@ + " 不可堆叠时 max_stack 必须为 1"@,
    );
    let errors = noted(
        errors,
        entry.buy_price < 0,
        "物品 "@ + entry.item_key@ + " 的 buy_price 不能为负数"@,
    );
    let errors = noted(
        errors,
        entry.sell_price < 0 || entry.sell_price > entry.buy_price,
        "物品 "@ + entry.item_key@ + " 的 sell_price 必须在 0 到 buy_price 之间"@,
    );
    let errors = range_noted(errors, "item.level_required"@, entry.item_key@, entry.level_required as int, 1, 120);
    let errors = noted(
        errors,
        !(entry.effect_kind@ == "revive"@ || entry.effect_kind@ == "restore_hp"@ || entry.effect_kind@ == "restore_soul"@),
        "物品 "@ + entry.item_key@ + " 的 effect_kind 不受支持"@,
    );
    let errors = if entry.effect_kind@ == "revive"@ {
        let errors = noted(
            errors,
            entry.effect_amount != 0,
            "复活物品 "@ + entry.item_key@ + " 的 effect_amount 必须为 0"@,
        );
        range_noted(
            errors,
            "item.revive_hp_percent"@,
            entry.item_key@,
            entry.revive_hp_percent as int,
            1,
            100,
        )
    } else if entry.effect_kind@ == "restore_hp"@ || entry.effect_kind@ == "restore_soul"@ {
        let errors = range_noted(
            errors,
            "item.effect_amount"@,
            entry.item_key@,
            entry.effect_amount as int,
            1,
            1_000_000,
        );
        noted(
            errors,
            entry.revive_hp_percent != 0,
            "恢复物品 "@ + entry.item_key@ + " 的 revive_hp_percent 必须为 0"@,
        )
    } else {
        errors
    };
    let errors = text_noted(errors, "item.description"@, entry.description@, 2000, false);
    errors
}

fn check_item(
    errors: &mut Vec<String>,
    entry: &ItemPackageEntry,
    key_repeats: bool,
    name_repeats: bool,
)
    ensures
        text::texts(final(errors)@) == item_entry_errors(
            text::texts(old(errors)@),
            *entry,
            key_repeats,
            name_repeats,
        ),
{
    if key_repeats {
        push_text(errors, cat2("物品键重复：", &entry.item_key));
    }
    if name_repeats {
        push_text(errors, cat2("物品名称重复：", &entry.name));
    }
    validate_key(errors, "item.item_key", &entry.item_key);
    text_field(errors, "item.name", &entry.name, 128, true);
    if !(same(&entry.category, "revival") || same(&entry.category, "consumable")) {
        push_text(errors, cat3("物品 ", &entry.item_key, " 的 category 不受支持"));
    }
    range_field(errors, "item.quality", &entry.item_key, entry.quality, 1, 5);
    range_field(errors, "item.max_stack", &entry.item_key, entry.max_stack, 1, 9999);
    if !entry.stackable && entry.max_stack != 1 {
        push_text(errors, cat3("物品 ", &entry.item_key, " 不可堆叠时 max_stack 必须为 1"));
    }
    if entry.buy_price < 0 {
        push_text(errors, cat3("物品 ", &entry.item_key, " 的 buy_price 不能为负数"));
    }
    if entry.sell_price < 0 || entry.sell_price > entry.buy_price {
        push_text(errors, cat3("物品 ", &entry.item_key, " 的 sell_price 必须在 0 到 buy_price 之间"));
    }
    range_field(errors, "item.level_required", &entry.item_key, entry.level_required, 1, 120);
    if !(same(&entry.effect_kind, "revive") || same(&entry.effect_kind, "restore_hp") || same(&entry.effect_kind, "restore_soul")) {
        push_text(errors, cat3("物品 ", &entry.item_key, " 的 effect_kind 不受支持"));
    }
    if same(&entry.effect_kind, "revive") {
        if entry.effect_amount != 0 {
            push_text(errors, cat3("复活物品 ", &entry.item_key, " 的 effect_amount 必须为 0"));
        }
        range_field(
            errors,
            "item.revive_hp_percent",
            &entry.item_key,
            entry.revive_hp_percent,
            1,
            100,
        );
    } else if same(&entry.effect_kind, "restore_hp") || same(&entry.effect_kind, "restore_soul") {
        range_field(
            errors,
            "item.effect_amount",
            &entry.item_key,
            entry.effect_amount,
            1,
            1_000_000,
        );
        if entry.revive_hp_percent != 0 {
            push_text(errors, cat3("恢复物品 ", &entry.item_key, " 的 revive_hp_percent 必须为 0"));
        }
    }
    text_field(errors, "item.description", &entry.description, 2000, false);
}

/// The item keys.
pub open spec fn item_keys(entries: Seq<ItemPackageEntry>) -> Seq<Seq<char>> {
    entries.map_values(|entry: ItemPackageEntry| entry.item_key@)
}

/// The item names.
pub open spec fn item_names(entries: Seq<ItemPackageEntry>) -> Seq<Seq<char>> {
    entries.map_values(|entry: ItemPackageEntry| entry.name@)
}

/// The errors of the first `count` of the entries: an item.
pub open spec fn item_errors(
    errors: Seq<Seq<char>>,
    entries: Seq<ItemPackageEntry>,
    count: int,
) -> Seq<Seq<char>>
    decreases count,
{
    if count <= 0 {
        errors
    } else {
        item_entry_errors(
            item_errors(errors, entries, count - 1),
            entries[count - 1],
            seen::repeats(item_keys(entries), count - 1),
            seen::repeats(item_names(entries), count - 1),
        )
    }
}

fn check_item_entries(errors: &mut Vec<String>, entries: &Vec<ItemPackageEntry>)
    ensures
        text::texts(final(errors)@) == item_errors(
            text::texts(old(errors)@),
            entries@,
            entries@.len() as int,
        ),
{
    let mut keys = SeenTexts::new();
    let mut names = SeenTexts::new();
    let ghost all_keys = item_keys(entries@);
    let ghost all_names = item_names(entries@);
    let mut i: usize = 0;
    while i < entries.len()
        invariant
            i <= entries@.len(),
            keys.wf(),
            all_keys == item_keys(entries@),
            keys.noted() == all_keys.take(i as int),
            names.wf(),
            all_names == item_names(entries@),
            names.noted() == all_names.take(i as int),
            text::texts(errors@) == item_errors(text::texts(old(errors)@), entries@, i as int),
        decreases entries@.len() - i,
    {
        let entry = &entries[i];
        let key_repeats = keys.note(&entry.item_key);
        let name_repeats = names.note(&entry.name);
        check_item(errors, entry, key_repeats, name_repeats);
        i = i + 1;
        assert(all_keys.take(i as int) =~= all_keys.take(i - 1).push(all_keys[i - 1]));
        assert(all_names.take(i as int) =~= all_names.take(i - 1).push(all_names[i - 1]));
    }
}

/// The errors of an NPC.
pub open spec fn npc_entry_errors(
    errors: Seq<Seq<char>>,
    entry: NpcPackageEntry,
    key_repeats: bool,
    name_repeats: bool,
) -> Seq<Seq<char>> {
    let errors = noted(errors, key_repeats, "NPC 键重复："@ + entry.npc_key@);
    let errors = noted(
        errors,
        name_repeats,
        "地图 "@ + entry.map_key@ + " 的 NPC 名称重复："@ + entry.name@,
    );
    let errors = key_noted(errors, "npc.npc_key"@, entry.npc_key@);
    let errors = key_noted(errors, "npc.map_key"@, entry.map_key@);
    let errors = text_noted(errors, "npc.name"@, entry.name@, 128, true);
    let errors = noted(
        errors,
        !(entry.npc_kind@ == "elder"@ || entry.npc_kind@ == "merchant"@),
        "NPC "@ + entry.npc_key@ + " 的 npc_kind 不受支持"@,
    );
    let errors = text_noted(errors, "npc.dialogue"@, entry.dialogue@, 2000, false);
    let errors = text_noted(errors, "npc.description"@, entry.description@, 2000, false);
    let errors = noted(errors, !entry.enabled, "当前发布切片不允许禁用新 NPC："@ + entry.npc_key@);
    noted(
        errors,
        entry.sort_order < 0,
        "NPC "@ + entry.npc_key@ + " 的 sort_order 不能为负数"@,
    )
}

fn check_npc(
    errors: &mut Vec<String>,
    entry: &NpcPackageEntry,
    key_repeats: bool,
    name_repeats: bool,
)
    ensures
        text::texts(final(errors)@) == npc_entry_errors(
            text::texts(old(errors)@),
            *entry,
            key_repeats,
            name_repeats,
        ),
{
    if key_repeats {
        push_text(errors, cat2("NPC 键重复：", &entry.npc_key));
    }
    if name_repeats {
        push_text(errors, cat4("地图 ", &entry.map_key, " 的 NPC 名称重复：", &entry.name));
    }
    validate_key(errors, "npc.npc_key", &entry.npc_key);
    validate_key(errors, "npc.map_key", &entry.map_key);
    text_field(errors, "npc.name", &entry.name, 128, true);
    if !(same(&entry.npc_kind, "elder") || same(&entry.npc_kind, "merchant")) {
        push_text(errors, cat3("NPC ", &entry.npc_key, " 的 npc_kind 不受支持"));
    }
    text_field(errors, "npc.dialogue", &entry.dialogue, 2000, false);
    text_field(errors, "npc.description", &entry.description, 2000, false);
    if !entry.enabled {
        push_text(errors, cat2("当前发布切片不允许禁用新 NPC：", &entry.npc_key));
    }
    if entry.sort_order < 0 {
        push_text(errors, cat3("NPC ", &entry.npc_key, " 的 sort_order 不能为负数"));
    }
}

/// The NPC keys.
pub open spec fn npc_keys(entries: Seq<NpcPackageEntry>) -> Seq<Seq<char>> {
    entries.map_values(|entry: NpcPackageEntry| entry.npc_key@)
}

/// The NPC names, each with its map.
pub open spec fn npc_names(entries: Seq<NpcPackageEntry>) -> Seq<(Seq<char>, Seq<char>)> {
    entries.map_values(|entry: NpcPackageEntry| (entry.map_key@, entry.name@))
}

/// The errors of the first `count` of the entries: an NPC.
pub open spec fn npc_errors(
    errors: Seq<Seq<char>>,
    entries: Seq<NpcPackageEntry>,
    count: int,
) -> Seq<Seq<char>>
    decreases count,
{
    if count <= 0 {
        errors
    } else {
        npc_entry_errors(
            npc_errors(errors, entries, count - 1),
            entries[count - 1],
            seen::repeats(npc_keys(entries), count - 1),
            seen::repeats(npc_names(entries), count - 1),
        )
    }
}

fn npc_name_repeats(entries: &Vec<NpcPackageEntry>, i: usize) -> (answer: bool)
    requires
        i < entries@.len(),
    ensures
        answer == seen::repeats(npc_names(entries@), i as int),
{
    let ghost names = npc_names(entries@);
    let mut j: usize = 0;
    while j < i
        invariant
            j <= i < entries@.len(),
            names == npc_names(entries@),
            forall|k: int| 0 <= k < j ==> #[trigger] names[k] != names[i as int],
        decreases i - j,
    {
        if same(&entries[j].map_key, &entries[i].map_key) && same(&entries[j].name, &entries[i].name) {
            assert(names.take(i as int)[j as int] == names[i as int]);
            return true;
        }
        j = j + 1;
    }
    false
}

fn check_npc_entries(errors: &mut Vec<String>, entries: &Vec<NpcPackageEntry>)
    ensures
        text::texts(final(errors)@) == npc_errors(
            text::texts(old(errors)@),
            entries@,
            entries@.len() as int,
        ),
{
    let mut keys = SeenTexts::new();
    let ghost all_keys = npc_keys(entries@);
    let mut i: usize = 0;
    while i < entries.len()
        invariant
            i <= entries@.len(),
            keys.wf(),
            all_keys == npc_keys(entries@),
            keys.noted() == all_keys.take(i as int),
            text::texts(errors@) == npc_errors(text::texts(old(errors)@), entries@, i as int),
        decreases entries@.len() - i,
    {
        let entry = &entries[i];
        let key_repeats = keys.note(&entry.npc_key);
        let name_repeats = npc_name_repeats(entries, i);
        check_npc(errors, entry, key_repeats, name_repeats);
        i = i + 1;
        assert(all_keys.take(i as int) =~= all_keys.take(i - 1).push(all_keys[i - 1]));
    }
}

/// The errors of a condition of a quest.
pub open spec fn requirement_entry_errors(
    errors: Seq<Seq<char>>,
    quest_key: String,
    entry: QuestRequirementPackageEntry,
    order_repeats: bool,
) -> Seq<Seq<char>> {
    let errors = noted(
        errors,
        order_repeats,
        "任务 "@ + quest_key@ + " 的完成条件排序重复："@ + text::integer(entry.sort_order as int),
    );
    let errors = noted(
        errors,
        !(entry.requirement_kind@ == "item"@ || entry.requirement_kind@ == "visit"@ || entry.requirement_kind@ == "level"@),
        "任务 "@ + quest_key@ + " 的 requirement_kind 不受支持："@ + entry.requirement_kind@,
    );
    let errors = if entry.requirement_kind@ == "item"@ || entry.requirement_kind@ == "visit"@ {
        key_noted(errors, "quest.requirement.target_key"@, entry.target_key@)
    } else {
        noted(
            errors,
            entry.requirement_kind@ == "level"@ && entry.target_key@ != "level"@,
            "任务 "@ + quest_key@ + " 的等级条件 target_key 必须是 level"@,
        )
    };
    let errors = range_noted(errors, "quest.requirement.required_quantity"@, quest_key@, entry.required_quantity as int, 1, 9999);
    let errors = noted(
        errors,
        entry.sort_order < 0,
        "任务 "@ + quest_key@ + " 的完成条件 sort_order 不能为负数"@,
    );
    let errors = text_noted(errors, "quest.requirement.description"@, entry.description@, 500, false);
    errors
}

fn check_requirement(
    errors: &mut Vec<String>,
    quest_key: &String,
    entry: &QuestRequirementPackageEntry,
    order_repeats: bool,
)
    ensures
        text::texts(final(errors)@) == requirement_entry_errors(
            text::texts(old(errors)@),
            *quest_key,
            *entry,
            order_repeats,
        ),
{
    if order_repeats {
        push_text(errors, cat4("任务 ", quest_key, " 的完成条件排序重复：", &i64_text(entry.sort_order)));
    }
    if !(same(&entry.requirement_kind, "item") || same(&entry.requirement_kind, "visit") || same(&entry.requirement_kind, "level")) {
        push_text(errors, cat4("任务 ", quest_key, " 的 requirement_kind 不受支持：", &entry.requirement_kind));
    }
    if same(&entry.requirement_kind, "item") || same(&entry.requirement_kind, "visit") {
        validate_key(errors, "quest.requirement.target_key", &entry.target_key);
    } else if same(&entry.requirement_kind, "level") && !same(&entry.target_key, "level") {
        push_text(errors, cat3("任务 ", quest_key, " 的等级条件 target_key 必须是 level"));
    }
    range_field(errors, "quest.requirement.required_quantity", quest_key, entry.required_quantity, 1, 9999);
    if entry.sort_order < 0 {
        push_text(errors, cat3("任务 ", quest_key, " 的完成条件 sort_order 不能为负数"));
    }
    text_field(errors, "quest.requirement.description", &entry.description, 500, false);
}

/// The sort orders of the conditions.
pub open spec fn requirement_orders(entries: Seq<QuestRequirementPackageEntry>) -> Seq<i64> {
    entries.map_values(|entry: QuestRequirementPackageEntry| entry.sort_order)
}

/// The errors of the first `count` of the entries: a condition of a quest.
pub open spec fn requirement_errors(
    errors: Seq<Seq<char>>,
    quest_key: String,
    entries: Seq<QuestRequirementPackageEntry>,
    count: int,
) -> Seq<Seq<char>>
    decreases count,
{
    if count <= 0 {
        errors
    } else {
        requirement_entry_errors(
            requirement_errors(errors, quest_key, entries, count - 1),
            quest_key,
            entries[count - 1],
            seen::repeats(requirement_orders(entries), count - 1),
        )
    }
}

fn check_requirement_entries(errors: &mut Vec<String>, quest_key: &String, entries: &Vec<QuestRequirementPackageEntry>)
    ensures
        text::texts(final(errors)@) == requirement_errors(
            text::texts(old(errors)@),
            *quest_key,
            entries@,
            entries@.len() as int,
        ),
{
    let mut orders = SeenNumbers::new();
    let ghost all_orders = requirement_orders(entries@);
    let mut i: usize = 0;
    while i < entries.len()
        invariant
            i <= entries@.len(),
            orders.wf(),
            all_orders == requirement_orders(entries@),
            orders.noted() == all_orders.take(i as int),
            text::texts(errors@) == requirement_errors(text::texts(old(errors)@), *quest_key, entries@, i as int),
        decreases entries@.len() - i,
    {
        let entry = &entries[i];
        let order_repeats = orders.note(entry.sort_order);
        check_requirement(errors, quest_key, entry, order_repeats);
        i = i + 1;
        assert(all_orders.take(i as int) =~= all_orders.take(i - 1).push(all_orders[i - 1]));
    }
}

/// The errors of a reward of a quest.
pub open spec fn reward_entry_errors(
    errors: Seq<Seq<char>>,
    quest_key: String,
    entry: QuestRewardPackageEntry,
    order_repeats: bool,
) -> Seq<Seq<char>> {
    let errors = noted(
        errors,
        order_repeats,
        "任务 "@ + quest_key@ + " 的奖励排序重复："@ + text::integer(entry.sort_order as int),
    );
    let errors = noted(
        errors,
        !(entry.reward_kind@ == "exp"@ || entry.reward_kind@ == "currency"@ || entry.reward_kind@ == "item"@),
        "任务 "@ + quest_key@ + " 的 reward_kind 不受支持："@ + entry.reward_kind@,
    );
    let errors = noted(
        errors,
        entry.reward_kind@ == "exp"@ && (entry.currency_code is Some || entry.item_key is Some),
        "任务 "@ + quest_key@ + " 的经验奖励不能声明货币或物品"@,
    );
    let errors = noted(
        errors,
        entry.reward_kind@ == "currency"@ && (text::optional_text(entry.currency_code) != Some(
            "gold_soul_coin"@,
        ) || entry.item_key is Some),
        "任务 "@ + quest_key@ + " 的货币奖励只能使用 gold_soul_coin"@,
    );
    let errors = if entry.reward_kind@ == "item"@ {
        let errors = noted(
            errors,
            entry.currency_code is Some || entry.item_key is None,
            "任务 "@ + quest_key@ + " 的物品奖励必须只声明 item_key"@,
        );
        match entry.item_key {
            Some(item_key) => key_noted(errors, "quest.reward.item_key"@, item_key@),
            None => errors,
        }
    } else {
        errors
    };
    let errors = range_noted(errors, "quest.reward.amount"@, quest_key@, entry.amount as int, 1, 999_999_999);
    let errors = noted(
        errors,
        entry.sort_order < 0,
        "任务 "@ + quest_key@ + " 的奖励 sort_order 不能为负数"@,
    );
    let errors = text_noted(errors, "quest.reward.description"@, entry.description@, 500, false);
    errors
}

fn check_reward(
    errors: &mut Vec<String>,
    quest_key: &String,
    entry: &QuestRewardPackageEntry,
    order_repeats: bool,
)
    ensures
        text::texts(final(errors)@) == reward_entry_errors(
            text::texts(old(errors)@),
            *quest_key,
            *entry,
            order_repeats,
        ),
{
    if order_repeats {
        push_text(errors, cat4("任务 ", quest_key, " 的奖励排序重复：", &i64_text(entry.sort_order)));
    }
    if !(same(&entry.reward_kind, "exp") || same(&entry.reward_kind, "currency") || same(&entry.reward_kind, "item")) {
        push_text(errors, cat4("任务 ", quest_key, " 的 reward_kind 不受支持：", &entry.reward_kind));
    }
    proof {
        reveal_strlit("exp");
        reveal_strlit("currency");
        reveal_strlit("item");
    }
    if same(&entry.reward_kind, "exp") {
        if entry.currency_code.is_some() || entry.item_key.is_some() {
            push_text(errors, cat3("任务 ", quest_key, " 的经验奖励不能声明货币或物品"));
        }
    } else if same(&entry.reward_kind, "currency") {
        let gold = match &entry.currency_code {
            Some(code) => same(code, "gold_soul_coin"),
            None => false,
        };
        if !gold || entry.item_key.is_some() {
            push_text(errors, cat3("任务 ", quest_key, " 的货币奖励只能使用 gold_soul_coin"));
        }
    } else if same(&entry.reward_kind, "item") {
        if entry.currency_code.is_some() || entry.item_key.is_none() {
            push_text(errors, cat3("任务 ", quest_key, " 的物品奖励必须只声明 item_key"));
        }
        match &entry.item_key {
            Some(item_key) => validate_key(errors, "quest.reward.item_key", item_key),
            None => {},
        }
    }
    range_field(errors, "quest.reward.amount", quest_key, entry.amount, 1, 999_999_999);
    if entry.sort_order < 0 {
        push_text(errors, cat3("任务 ", quest_key, " 的奖励 sort_order 不能为负数"));
    }
    text_field(errors, "quest.reward.description", &entry.description, 500, false);
}

/// The sort orders of the rewards.
pub open spec fn reward_orders(entries: Seq<QuestRewardPackageEntry>) -> Seq<i64> {
    entries.map_values(|entry: QuestRewardPackageEntry| entry.sort_order)
}

/// The errors of the first `count` of the entries: a reward of a quest.
pub open spec fn reward_errors(
    errors: Seq<Seq<char>>,
    quest_key: String,
    entries: Seq<QuestRewardPackageEntry>,
    count: int,
) -> Seq<Seq<char>>
    decreases count,
{
    if count <= 0 {
        errors
    } else {
        reward_entry_errors(
            reward_errors(errors, quest_key, entries, count - 1),
            quest_key,
            entries[count - 1],
            seen::repeats(reward_orders(entries), count - 1),
        )
    }
}

fn check_reward_entries(errors: &mut Vec<String>, quest_key: &String, entries: &Vec<QuestRewardPackageEntry>)
    ensures
        text::texts(final(errors)@) == reward_errors(
            text::texts(old(errors)@),
            *quest_key,
            entries@,
            entries@.len() as int,
        ),
{
    let mut orders = SeenNumbers::new();
    let ghost all_orders = reward_orders(entries@);
    let mut i: usize = 0;
    while i < entries.len()
        invariant
            i <= entries@.len(),
            orders.wf(),
            all_orders == reward_orders(entries@),
            orders.noted() == all_orders.take(i as int),
            text::texts(errors@) == reward_errors(text::texts(old(errors)@), *quest_key, entries@, i as int),
        decreases entries@.len() - i,
    {
        let entry = &entries[i];
        let order_repeats = orders.note(entry.sort_order);
        check_reward(errors, quest_key, entry, order_repeats);
        i = i + 1;
        assert(all_orders.take(i as int) =~= all_orders.take(i - 1).push(all_orders[i - 1]));
    }
}

/// The errors of a quest.
pub open spec fn quest_entry_errors(
    errors: Seq<Seq<char>>,
    entry: QuestPackageEntry,
    key_repeats: bool,
    name_repeats: bool,
) -> Seq<Seq<char>> {
    let errors = noted(errors, key_repeats, "任务键重复："@ + entry.quest_key@);
    let errors = noted(errors, name_repeats, "任务名称重复："@ + entry.name@);
    let errors = key_noted(errors, "quest.quest_key"@, entry.quest_key@);
    let errors = text_noted(errors, "quest.name"@, entry.name@, 128, true);
    let errors = text_noted(errors, "quest.description"@, entry.description@, 2000, true);
    let errors = noted(
        errors,
        !(entry.category@ == "main"@ || entry.category@ == "side"@ || entry.category@ == "daily"@),
        "任务 "@ + entry.quest_key@ + " 的 category 不受支持"@,
    );
    let errors = match entry.map_key {
        Some(map_key) => key_noted(errors, "quest.map_key"@, map_key@),
        None => errors,
    };
    let errors = range_noted(errors, "quest.level_required"@, entry.quest_key@, entry.level_required as int, 1, 120);
    let errors = noted(errors, entry.repeatable, "当前发布切片不允许可重复新任务："@ + entry.quest_key@);
    let errors = noted(errors, !entry.enabled, "当前发布切片不允许禁用新任务："@ + entry.quest_key@);
    let errors = noted(
        errors,
        entry.requirements@.len() == 0,
        "任务 "@ + entry.quest_key@ + " 至少需要一条完成条件"@,
    );
    let errors = noted(
        errors,
        entry.requirements@.len() > 100,
        "任务 "@ + entry.quest_key@ + " 的完成条件不能超过 100 条"@,
    );
    let errors = requirement_errors(
        errors,
        entry.quest_key,
        entry.requirements@,
        entry.requirements@.len() as int,
    );
    let errors = noted(errors, entry.rewards@.len() == 0, "任务 "@ + entry.quest_key@ + " 至少需要一条奖励"@);
    let errors = noted(
        errors,
        entry.rewards@.len() > 100,
        "任务 "@ + entry.quest_key@ + " 的奖励不能超过 100 条"@,
    );
    let errors = reward_errors(
        errors,
        entry.quest_key,
        entry.rewards@,
        entry.rewards@.len() as int,
    );
    errors
}

fn check_quest(
    errors: &mut Vec<String>,
    entry: &QuestPackageEntry,
    key_repeats: bool,
    name_repeats: bool,
)
    ensures
        text::texts(final(errors)@) == quest_entry_errors(
            text::texts(old(errors)@),
            *entry,
            key_repeats,
            name_repeats,
        ),
{
    if key_repeats {
        push_text(errors, cat2("任务键重复：", &entry.quest_key));
    }
    if name_repeats {
        push_text(errors, cat2("任务名称重复：", &entry.name));
    }
    validate_key(errors, "quest.quest_key", &entry.quest_key);
    text_field(errors, "quest.name", &entry.name, 128, true);
    text_field(errors, "quest.description", &entry.description, 2000, true);
    if !(same(&entry.category, "main") || same(&entry.category, "side") || same(&entry.category, "daily")) {
        push_text(errors, cat3("任务 ", &entry.quest_key, " 的 category 不受支持"));
    }
    match &entry.map_key {
        Some(map_key) => validate_key(errors, "quest.map_key", map_key),
        None => {},
    }
    range_field(errors, "quest.level_required", &entry.quest_key, entry.level_required, 1, 120);
    if entry.repeatable {
        push_text(errors, cat2("当前发布切片不允许可重复新任务：", &entry.quest_key));
    }
    if !entry.enabled {
        push_text(errors, cat2("当前发布切片不允许禁用新任务：", &entry.quest_key));
    }
    if entry.requirements.len() == 0 {
        push_text(errors, cat3("任务 ", &entry.quest_key, " 至少需要一条完成条件"));
    }
    if entry.requirements.len() > 100 {
        push_text(errors, cat3("任务 ", &entry.quest_key, " 的完成条件不能超过 100 条"));
    }
    check_requirement_entries(errors, &entry.quest_key, &entry.requirements);
    if entry.rewards.len() == 0 {
        push_text(errors, cat3("任务 ", &entry.quest_key, " 至少需要一条奖励"));
    }
    if entry.rewards.len() > 100 {
        push_text(errors, cat3("任务 ", &entry.quest_key, " 的奖励不能超过 100 条"));
    }
    check_reward_entries(errors, &entry.quest_key, &entry.rewards);
}

/// The quest keys.
pub open spec fn quest_keys(entries: Seq<QuestPackageEntry>) -> Seq<Seq<char>> {
    entries.map_values(|entry: QuestPackageEntry| entry.quest_key@)
}

/// The quest names.
pub open spec fn quest_names(entries: Seq<QuestPackageEntry>) -> Seq<Seq<char>> {
    entries.map_values(|entry: QuestPackageEntry| entry.name@)
}

/// The errors of the first `count` of the entries: a quest.
pub open spec fn quest_errors(
    errors: Seq<Seq<char>>,
    entries: Seq<QuestPackageEntry>,
    count: int,
) -> Seq<Seq<char>>
    decreases count,
{
    if count <= 0 {
        errors
    } else {
        quest_entry_errors(
            quest_errors(errors, entries, count - 1),
            entries[count - 1],
            seen::repeats(quest_keys(entries), count - 1),
            seen::repeats(quest_names(entries), count - 1),
        )
    }
}

fn check_quest_entries(errors: &mut Vec<String>, entries: &Vec<QuestPackageEntry>)
    ensures
        text::texts(final(errors)@) == quest_errors(
            text::texts(old(errors)@),
            entries@,
            entries@.len() as int,
        ),
{
    let mut keys = SeenTexts::new();
    let mut names = SeenTexts::new();
    let ghost all_keys = quest_keys(entries@);
    let ghost all_names = quest_names(entries@);
    let mut i: usize = 0;
    while i < entries.len()
        invariant
            i <= entries@.len(),
            keys.wf(),
            all_keys == quest_keys(entries@),
            keys.noted() == all_keys.take(i as int),
            names.wf(),
            all_names == quest_names(entries@),
            names.noted() == all_names.take(i as int),
            text::texts(errors@) == quest_errors(text::texts(old(errors)@), entries@, i as int),
        decreases entries@.len() - i,
    {
        let entry = &entries[i];
        let key_repeats = keys.note(&entry.quest_key);
        let name_repeats = names.note(&entry.name);
        check_quest(errors, entry, key_repeats, name_repeats);
        i = i + 1;
        assert(all_keys.take(i as int) =~= all_keys.take(i - 1).push(all_keys[i - 1]));
        assert(all_names.take(i as int) =~= all_names.take(i - 1).push(all_names[i - 1]));
    }
}

/// The errors of a numeric curve.
pub open spec fn curve_entry_errors(
    errors: Seq<Seq<char>>,
    entry: NumericCurvePackageEntry,
    key_repeats: bool,
    name_repeats: bool,
    order_repeats: bool,
) -> Seq<Seq<char>> {
    let errors = noted(errors, key_repeats, "数值曲线键重复："@ + entry.curve_key@);
    let errors = noted(errors, name_repeats, "数值曲线名称重复："@ + entry.name@);
    let errors = noted(
        errors,
        order_repeats,
        "数值曲线排序重复："@ + text::integer(entry.sort_order as int),
    );
    let errors = key_noted(errors, "numeric_curve.curve_key"@, entry.curve_key@);
    let errors = text_noted(errors, "numeric_curve.name"@, entry.name@, 128, true);
    let errors = text_noted(errors, "numeric_curve.unit"@, entry.unit@, 32, true);
    let errors = key_noted(errors, "numeric_curve.reference_key"@, entry.reference_key@);
    let errors = noted(
        errors,
        !(entry.reference_key@ == PLAYER_LEVEL_EXP_CURVE_REFERENCE@ || entry.reference_key@ == SKILL_PROFICIENCY_CURVE_REFERENCE@ || entry.reference_key@ == SKILL_DAMAGE_PERCENT_CURVE_REFERENCE@),
        "数值曲线 "@ + entry.curve_key@ + " 的 reference_key 不受支持："@ + entry.reference_key@,
    );
    let errors = noted(
        errors,
        entry.range_min < 1,
        "数值曲线 "@ + entry.curve_key@ + " 的 range_min 必须大于或等于 1"@,
    );
    let errors = noted(
        errors,
        entry.range_max < entry.range_min,
        "数值曲线 "@ + entry.curve_key@ + " 的 range_max 不能小于 range_min"@,
    );
    let errors = noted(
        errors,
        entry.sort_order < 0,
        "数值曲线 "@ + entry.curve_key@ + " 的 sort_order 不能为负数"@,
    );
    let errors = text_noted(errors, "numeric_curve.description"@, entry.description@, 2000, true);
    errors
}

fn check_curve(
    errors: &mut Vec<String>,
    entry: &NumericCurvePackageEntry,
    key_repeats: bool,
    name_repeats: bool,
    order_repeats: bool,
)
    ensures
        text::texts(final(errors)@) == curve_entry_errors(
            text::texts(old(errors)@),
            *entry,
            key_repeats,
            name_repeats,
            order_repeats,
        ),
{
    if key_repeats {
        push_text(errors, cat2("数值曲线键重复：", &entry.curve_key));
    }
    if name_repeats {
        push_text(errors, cat2("数值曲线名称重复：", &entry.name));
    }
    if order_repeats {
        push_text(errors, cat2("数值曲线排序重复：", &i64_text(entry.sort_order)));
    }
    validate_key(errors, "numeric_curve.curve_key", &entry.curve_key);
    text_field(errors, "numeric_curve.name", &entry.name, 128, true);
    text_field(errors, "numeric_curve.unit", &entry.unit, 32, true);
    validate_key(errors, "numeric_curve.reference_key", &entry.reference_key);
    if !(same(&entry.reference_key, PLAYER_LEVEL_EXP_CURVE_REFERENCE) || same(&entry.reference_key, SKILL_PROFICIENCY_CURVE_REFERENCE) || same(&entry.reference_key, SKILL_DAMAGE_PERCENT_CURVE_REFERENCE)) {
        push_text(errors, cat4("数值曲线 ", &entry.curve_key, " 的 reference_key 不受支持：", &entry.reference_key));
    }
    if entry.range_min < 1 {
        push_text(errors, cat3("数值曲线 ", &entry.curve_key, " 的 range_min 必须大于或等于 1"));
    }
    if entry.range_max < entry.range_min {
        push_text(errors, cat3("数值曲线 ", &entry.curve_key, " 的 range_max 不能小于 range_min"));
    }
    if entry.sort_order < 0 {
        push_text(errors, cat3("数值曲线 ", &entry.curve_key, " 的 sort_order 不能为负数"));
    }
    text_field(errors, "numeric_curve.description", &entry.description, 2000, true);
}

/// The curve keys.
pub open spec fn curve_keys(entries: Seq<NumericCurvePackageEntry>) -> Seq<Seq<char>> {
    entries.map_values(|entry: NumericCurvePackageEntry| entry.curve_key@)
}

/// The curve names.
pub open spec fn curve_names(entries: Seq<NumericCurvePackageEntry>) -> Seq<Seq<char>> {
    entries.map_values(|entry: NumericCurvePackageEntry| entry.name@)
}

/// The sort orders of the curves.
pub open spec fn curve_orders(entries: Seq<NumericCurvePackageEntry>) -> Seq<i64> {
    entries.map_values(|entry: NumericCurvePackageEntry| entry.sort_order)
}

/// The errors of the first `count` of the entries: a numeric curve.
pub open spec fn curve_errors(
    errors: Seq<Seq<char>>,
    entries: Seq<NumericCurvePackageEntry>,
    count: int,
) -> Seq<Seq<char>>
    decreases count,
{
    if count <= 0 {
        errors
    } else {
        curve_entry_errors(
            curve_errors(errors, entries, count - 1),
            entries[count - 1],
            seen::repeats(curve_keys(entries), count - 1),
            seen::repeats(curve_names(entries), count - 1),
            seen::repeats(curve_orders(entries), count - 1),
        )
    }
}

fn check_curve_entries(errors: &mut Vec<String>, entries: &Vec<NumericCurvePackageEntry>)
    ensures
        text::texts(final(errors)@) == curve_errors(
            text::texts(old(errors)@),
            entries@,
            entries@.len() as int,
        ),
{
    let mut keys = SeenTexts::new();
    let mut names = SeenTexts::new();
    let mut orders = SeenNumbers::new();
    let ghost all_keys = curve_keys(entries@);
    let ghost all_names = curve_names(entries@);
    let ghost all_orders = curve_orders(entries@);
    let mut i: usize = 0;
    while i < entries.len()
        invariant
            i <= entries@.len(),
            keys.wf(),
            all_keys == curve_keys(entries@),
            keys.noted() == all_keys.take(i as int),
            names.wf(),
            all_names == curve_names(entries@),
            names.noted() == all_names.take(i as int),
            orders.wf(),
            all_orders == curve_orders(entries@),
            orders.noted() == all_orders.take(i as int),
            text::texts(errors@) == curve_errors(text::texts(old(errors)@), entries@, i as int),
        decreases entries@.len() - i,
    {
        let entry = &entries[i];
        let key_repeats = keys.note(&entry.curve_key);
        let name_repeats = names.note(&entry.name);
        let order_repeats = orders.note(entry.sort_order);
        check_curve(errors, entry, key_repeats, name_repeats, order_repeats);
        i = i + 1;
        assert(all_keys.take(i as int) =~= all_keys.take(i - 1).push(all_keys[i - 1]));
        assert(all_names.take(i as int) =~= all_names.take(i - 1).push(all_names[i - 1]));
        assert(all_orders.take(i as int) =~= all_orders.take(i - 1).push(all_orders[i - 1]));
    }
}

/// The errors of a wuhun.
pub open spec fn wuhun_entry_errors(
    errors: Seq<Seq<char>>,
    entry: WuhunPackageEntry,
    name_repeats: bool,
) -> Seq<Seq<char>> {
    let errors = noted(errors, name_repeats, "武魂名称重复："@ + entry.name@);
    let errors = text_noted(errors, "wuhun.name"@, entry.name@, 128, true);
    let errors = text_noted(errors, "wuhun.category"@, entry.category@, 32, true);
    let errors = noted(
        errors,
        !(entry.category@ == "强攻系"@ || entry.category@ == "控制系"@ || entry.category@ == "敏攻系"@ || entry.category@ == "辅助系"@ || entry.category@ == "防御系"@ || entry.category@ == "食物系"@),
        "武魂 "@ + entry.name@ + " 的 category 不受支持"@,
    );
    let errors = text_noted(errors, "wuhun.form"@, entry.form@, 128, true);
    let errors = text_noted(errors, "wuhun.description"@, entry.description@, 2000, true);
    let errors = noted(errors, entry.weight <= 0, "武魂 "@ + entry.name@ + " 的 weight 必须大于 0"@);
    let errors = percents_noted(errors, "武魂 "@ + entry.name@ + " 的属性"@, entry.stats);
    errors
}

fn check_wuhun(
    errors: &mut Vec<String>,
    entry: &WuhunPackageEntry,
    name_repeats: bool,
)
    ensures
        text::texts(final(errors)@) == wuhun_entry_errors(
            text::texts(old(errors)@),
            *entry,
            name_repeats,
        ),
{
    if name_repeats {
        push_text(errors, cat2("武魂名称重复：", &entry.name));
    }
    text_field(errors, "wuhun.name", &entry.name, 128, true);
    text_field(errors, "wuhun.category", &entry.category, 32, true);
    if !(same(&entry.category, "强攻系") || same(&entry.category, "控制系") || same(&entry.category, "敏攻系") || same(&entry.category, "辅助系") || same(&entry.category, "防御系") || same(&entry.category, "食物系")) {
        push_text(errors, cat3("武魂 ", &entry.name, " 的 category 不受支持"));
    }
    text_field(errors, "wuhun.form", &entry.form, 128, true);
    text_field(errors, "wuhun.description", &entry.description, 2000, true);
    if entry.weight <= 0 {
        push_text(errors, cat3("武魂 ", &entry.name, " 的 weight 必须大于 0"));
    }
    validate_percent_fields(errors, &cat3("武魂 ", &entry.name, " 的属性"), &entry.stats);
}

/// The wuhun names.
pub open spec fn wuhun_names(entries: Seq<WuhunPackageEntry>) -> Seq<Seq<char>> {
    entries.map_values(|entry: WuhunPackageEntry| entry.name@)
}

/// The errors of the first `count` of the entries: a wuhun.
pub open spec fn wuhun_errors(
    errors: Seq<Seq<char>>,
    entries: Seq<WuhunPackageEntry>,
    count: int,
) -> Seq<Seq<char>>
    decreases count,
{
    if count <= 0 {
        errors
    } else {
        wuhun_entry_errors(
            wuhun_errors(errors, entries, count - 1),
            entries[count - 1],
            seen::repeats(wuhun_names(entries), count - 1),
        )
    }
}

fn check_wuhun_entries(errors: &mut Vec<String>, entries: &Vec<WuhunPackageEntry>)
    ensures
        text::texts(final(errors)@) == wuhun_errors(
            text::texts(old(errors)@),
            entries@,
            entries@.len() as int,
        ),
{
    let mut names = SeenTexts::new();
    let ghost all_names = wuhun_names(entries@);
    let mut i: usize = 0;
    while i < entries.len()
        invariant
            i <= entries@.len(),
            names.wf(),
            all_names == wuhun_names(entries@),
            names.noted() == all_names.take(i as int),
            text::texts(errors@) == wuhun_errors(text::texts(old(errors)@), entries@, i as int),
        decreases entries@.len() - i,
    {
        let entry = &entries[i];
        let name_repeats = names.note(&entry.name);
        check_wuhun(errors, entry, name_repeats);
        i = i + 1;
        assert(all_names.take(i as int) =~= all_names.take(i - 1).push(all_names[i - 1]));
    }
}

/// The errors of a soul skill.
pub open spec fn skill_entry_errors(
    errors: Seq<Seq<char>>,
    entry: SkillPackageEntry,
    key_repeats: bool,
) -> Seq<Seq<char>> {
    let errors = noted(errors, key_repeats, "魂技键重复："@ + entry.skill_key@);
    let errors = key_noted(errors, "skill.skill_key"@, entry.skill_key@);
    let errors = text_noted(errors, "skill.name"@, entry.name@, 128, true);
    let errors = noted(
        errors,
        !(entry.skill_type@ == "active"@ || entry.skill_type@ == "passive"@ || entry.skill_type@ == "domain"@ || entry.skill_type@ == "ultimate"@),
        "魂技 "@ + entry.skill_key@ + " 的 skill_type 不受支持"@,
    );
    let errors = noted(
        errors,
        !(entry.wuhun_category@ == "all"@ || entry.wuhun_category@ == "强攻系"@ || entry.wuhun_category@ == "控制系"@ || entry.wuhun_category@ == "敏攻系"@ || entry.wuhun_category@ == "辅助系"@ || entry.wuhun_category@ == "防御系"@ || entry.wuhun_category@ == "食物系"@),
        "魂技 "@ + entry.skill_key@ + " 的 wuhun_category 不受支持"@,
    );
    let errors = range_noted(errors, "skill.ring_index"@, entry.skill_key@, entry.ring_index as int, 1, 9);
    let errors = range_noted(errors, "skill.soul_power_cost"@, entry.skill_key@, entry.soul_power_cost as int, 1, 1000);
    let errors = range_noted(errors, "skill.cooldown_rounds"@, entry.skill_key@, entry.cooldown_rounds as int, 0, 100);
    let errors = range_noted(errors, "skill.base_damage"@, entry.skill_key@, entry.base_damage as int, 1, 1_000_000);
    let errors = range_noted(errors, "skill.spirit_ratio_percent"@, entry.skill_key@, entry.spirit_ratio_percent as int, 0, 1000);
    let errors = range_noted(errors, "skill.strength_ratio_percent"@, entry.skill_key@, entry.strength_ratio_percent as int, 0, 1000);
    let errors = text_noted(errors, "skill.description"@, entry.description@, 2000, true);
    let errors = noted(
        errors,
        entry.starter && entry.ring_index != 1,
        "skill "@ + entry.skill_key@ + " starter requires ring_index = 1"@,
    );
    errors
}

fn check_skill(
    errors: &mut Vec<String>,
    entry: &SkillPackageEntry,
    key_repeats: bool,
)
    ensures
        text::texts(final(errors)@) == skill_entry_errors(
            text::texts(old(errors)@),
            *entry,
            key_repeats,
        ),
{
    if key_repeats {
        push_text(errors, cat2("魂技键重复：", &entry.skill_key));
    }
    validate_key(errors, "skill.skill_key", &entry.skill_key);
    text_field(errors, "skill.name", &entry.name, 128, true);
    if !(same(&entry.skill_type, "active") || same(&entry.skill_type, "passive") || same(&entry.skill_type, "domain") || same(&entry.skill_type, "ultimate")) {
        push_text(errors, cat3("魂技 ", &entry.skill_key, " 的 skill_type 不受支持"));
    }
    if !(same(&entry.wuhun_category, "all") || same(&entry.wuhun_category, "强攻系") || same(&entry.wuhun_category, "控制系") || same(&entry.wuhun_category, "敏攻系") || same(&entry.wuhun_category, "辅助系") || same(&entry.wuhun_category, "防御系") || same(&entry.wuhun_category, "食物系")) {
        push_text(errors, cat3("魂技 ", &entry.skill_key, " 的 wuhun_category 不受支持"));
    }
    range_field(errors, "skill.ring_index", &entry.skill_key, entry.ring_index, 1, 9);
    range_field(errors, "skill.soul_power_cost", &entry.skill_key, entry.soul_power_cost, 1, 1000);
    range_field(errors, "skill.cooldown_rounds", &entry.skill_key, entry.cooldown_rounds, 0, 100);
    range_field(errors, "skill.base_damage", &entry.skill_key, entry.base_damage, 1, 1_000_000);
    range_field(errors, "skill.spirit_ratio_percent", &entry.skill_key, entry.spirit_ratio_percent, 0, 1000);
    range_field(errors, "skill.strength_ratio_percent", &entry.skill_key, entry.strength_ratio_percent, 0, 1000);
    text_field(errors, "skill.description", &entry.description, 2000, true);
    if entry.starter && entry.ring_index != 1 {
        push_text(errors, cat3("skill ", &entry.skill_key, " starter requires ring_index = 1"));
    }
}

/// The skill keys.
pub open spec fn skill_keys(entries: Seq<SkillPackageEntry>) -> Seq<Seq<char>> {
    entries.map_values(|entry: SkillPackageEntry| entry.skill_key@)
}

/// The errors of the first `count` of the entries: a soul skill.
pub open spec fn skill_errors(
    errors: Seq<Seq<char>>,
    entries: Seq<SkillPackageEntry>,
    count: int,
) -> Seq<Seq<char>>
    decreases count,
{
    if count <= 0 {
        errors
    } else {
        skill_entry_errors(
            skill_errors(errors, entries, count - 1),
            entries[count - 1],
            seen::repeats(skill_keys(entries), count - 1),
        )
    }
}

fn check_skill_entries(errors: &mut Vec<String>, entries: &Vec<SkillPackageEntry>)
    ensures
        text::texts(final(errors)@) == skill_errors(
            text::texts(old(errors)@),
            entries@,
            entries@.len() as int,
        ),
{
    let mut keys = SeenTexts::new();
    let ghost all_keys = skill_keys(entries@);
    let mut i: usize = 0;
    while i < entries.len()
        invariant
            i <= entries@.len(),
            keys.wf(),
            all_keys == skill_keys(entries@),
            keys.noted() == all_keys.take(i as int),
            text::texts(errors@) == skill_errors(text::texts(old(errors)@), entries@, i as int),
        decreases entries@.len() - i,
    {
        let entry = &entries[i];
        let key_repeats = keys.note(&entry.skill_key);
        check_skill(errors, entry, key_repeats);
        i = i + 1;
        assert(all_keys.take(i as int) =~= all_keys.take(i - 1).push(all_keys[i - 1]));
    }
}

/// An effect that lowers the beast's attack.
pub open spec fn is_beast_attack_reduction(entry: EffectPackageEntry) -> bool {
    &&& entry.operation@ == "modify_stat"@
    &&& entry.attribute_key@ == "beast_attack"@
    &&& entry.value_mode@ == "percent_delta"@
}

fn beast_attack_reduction(entry: &EffectPackageEntry) -> (answer: bool)
    ensures
        answer == is_beast_attack_reduction(*entry),
{
    same(&entry.operation, "modify_stat")
        && same(&entry.attribute_key, "beast_attack")
        && same(&entry.value_mode, "percent_delta")
}

/// An effect that poisons the beast.
pub open spec fn is_poison_damage(entry: EffectPackageEntry) -> bool {
    &&& entry.target_kind@ == "beast"@
    &&& entry.operation@ == "deal_damage"@
    &&& entry.attribute_key@ == "beast_hp"@
    &&& entry.value_mode@ == "absolute"@
}

fn poison_damage(entry: &EffectPackageEntry) -> (answer: bool)
    ensures
        answer == is_poison_damage(*entry),
{
    same(&entry.target_kind, "beast")
        && same(&entry.operation, "deal_damage")
        && same(&entry.attribute_key, "beast_hp")
        && same(&entry.value_mode, "absolute")
}

/// An effect that stuns the beast.
pub open spec fn is_stun_control(entry: EffectPackageEntry) -> bool {
    &&& entry.target_kind@ == "beast"@
    &&& entry.operation@ == "control"@
    &&& entry.attribute_key@ == "stunned"@
    &&& entry.value_mode@ == "absolute"@
}

fn stun_control(entry: &EffectPackageEntry) -> (answer: bool)
    ensures
        answer == is_stun_control(*entry),
{
    same(&entry.target_kind, "beast")
        && same(&entry.operation, "control")
        && same(&entry.attribute_key, "stunned")
        && same(&entry.value_mode, "absolute")
}

/// An effect that shields the player.
pub open spec fn is_shield_protection(entry: EffectPackageEntry) -> bool {
    &&& entry.target_kind@ == "self"@
    &&& entry.operation@ == "absorb_damage"@
    &&& entry.attribute_key@ == "beast_counterattack"@
    &&& entry.value_mode@ == "absolute"@
}

fn shield_protection(entry: &EffectPackageEntry) -> (answer: bool)
    ensures
        answer == is_shield_protection(*entry),
{
    same(&entry.target_kind, "self")
        && same(&entry.operation, "absorb_damage")
        && same(&entry.attribute_key, "beast_counterattack")
        && same(&entry.value_mode, "absolute")
}

/// An effect that heals the player.
pub open spec fn is_heal_restore(entry: EffectPackageEntry) -> bool {
    &&& entry.target_kind@ == "self"@
    &&& entry.operation@ == "restore"@
    &&& entry.attribute_key@ == "player_hp"@
    &&& entry.value_mode@ == "absolute"@
}

fn heal_restore(entry: &EffectPackageEntry) -> (answer: bool)
    ensures
        answer == is_heal_restore(*entry),
{
    same(&entry.target_kind, "self")
        && same(&entry.operation, "restore")
        && same(&entry.attribute_key, "player_hp")
        && same(&entry.value_mode, "absolute")
}

/// An effect that selects the target.
pub open spec fn is_target_selection(entry: EffectPackageEntry) -> bool {
    &&& entry.target_kind@ == "beast"@
    &&& entry.operation@ == "select_target"@
    &&& entry.attribute_key@ == "battle_target"@
    &&& entry.value_mode@ == "absolute"@
}

fn target_selection(entry: &EffectPackageEntry) -> (answer: bool)
    ensures
        answer == is_target_selection(*entry),
{
    same(&entry.target_kind, "beast")
        && same(&entry.operation, "select_target")
        && same(&entry.attribute_key, "battle_target")
        && same(&entry.value_mode, "absolute")
}

/// An effect that bans the player's skills.
pub open spec fn is_forbid_skill(entry: EffectPackageEntry) -> bool {
    &&& entry.target_kind@ == "self"@
    &&& entry.operation@ == "control"@
    &&& entry.attribute_key@ == "skill_usage"@
    &&& entry.value_mode@ == "absolute"@
}

fn forbid_skill(entry: &EffectPackageEntry) -> (answer: bool)
    ensures
        answer == is_forbid_skill(*entry),
{
    same(&entry.target_kind, "self")
        && same(&entry.operation, "control")
        && same(&entry.attribute_key, "skill_usage")
        && same(&entry.value_mode, "absolute")
}

/// The errors of the node that an effect declares.
pub open spec fn effect_node_errors(errors: Seq<Seq<char>>, entry: EffectPackageEntry) -> Seq<Seq<char>> {
    let beast_attack_reduction = is_beast_attack_reduction(entry);
    let poison_damage = is_poison_damage(entry);
    let stun_control = is_stun_control(entry);
    let shield_protection = is_shield_protection(entry);
    let heal_restore = is_heal_restore(entry);
    let target_selection = is_target_selection(entry);
    let forbid_skill = is_forbid_skill(entry);
    let errors = key_noted(errors, "effect.effect_key"@, entry.effect_key@);
    let errors = key_noted(errors, "effect.skill_key"@, entry.skill_key@);
    let errors = noted(
        errors,
        entry.trigger_kind@ != "on_release"@,
        "效果 "@ + entry.effect_key@ + " 当前只支持 on_release"@,
    );
    let errors = noted(
        errors,
        !(entry.target_kind@ == "self"@ || entry.target_kind@ == "enemy"@ || entry.target_kind@ == "beast"@),
        "效果 "@ + entry.effect_key@ + " 当前只支持 self、enemy 或 beast"@,
    );
    let errors = noted(
        errors,
        !beast_attack_reduction && !poison_damage && !stun_control && !shield_protection && !heal_restore && !target_selection && !forbid_skill,
        "效果 "@ + entry.effect_key@ + " 当前只支持减攻、poison-v1 中毒伤害、stun-v1 眩晕、shield-v1 护盾、heal-v1 治疗、target-v1 目标或 forbid-skill-v1 禁技节点"@,
    );
    errors
}

fn check_effect_node(errors: &mut Vec<String>, entry: &EffectPackageEntry)
    ensures
        text::texts(final(errors)@) == effect_node_errors(text::texts(old(errors)@), *entry),
{
    let beast_attack_reduction = beast_attack_reduction(entry);
    let poison_damage = poison_damage(entry);
    let stun_control = stun_control(entry);
    let shield_protection = shield_protection(entry);
    let heal_restore = heal_restore(entry);
    let target_selection = target_selection(entry);
    let forbid_skill = forbid_skill(entry);
    validate_key(errors, "effect.effect_key", &entry.effect_key);
    validate_key(errors, "effect.skill_key", &entry.skill_key);
    if !same(&entry.trigger_kind, "on_release") {
        push_text(errors, cat3("效果 ", &entry.effect_key, " 当前只支持 on_release"));
    }
    if !(same(&entry.target_kind, "self") || same(&entry.target_kind, "enemy") || same(&entry.target_kind, "beast")) {
        push_text(errors, cat3("效果 ", &entry.effect_key, " 当前只支持 self、enemy 或 beast"));
    }
    if !beast_attack_reduction && !poison_damage && !stun_control && !shield_protection && !heal_restore && !target_selection && !forbid_skill {
        push_text(errors, cat3("效果 ", &entry.effect_key, " 当前只支持减攻、poison-v1 中毒伤害、stun-v1 眩晕、shield-v1 护盾、heal-v1 治疗、target-v1 目标或 forbid-skill-v1 禁技节点"));
    }
}

/// The errors of an effect's value and stacking.
pub open spec fn effect_value_errors(errors: Seq<Seq<char>>, entry: EffectPackageEntry) -> Seq<Seq<char>> {
    let beast_attack_reduction = is_beast_attack_reduction(entry);
    let poison_damage = is_poison_damage(entry);
    let stun_control = is_stun_control(entry);
    let errors = noted(
        errors,
        beast_attack_reduction && !(-90 <= entry.value && entry.value <= -1),
        "效果 "@ + entry.effect_key@ + " 的 value 必须是 -1 到 -90 的 percent_delta"@,
    );
    let errors = noted(
        errors,
        poison_damage && !(1 <= entry.value && entry.value <= MAX_POISON_TICK_DAMAGE),
        "效果 "@ + entry.effect_key@ + " 的 poison-v1 value 必须是 1 到 "@ + text::integer(MAX_POISON_TICK_DAMAGE as int) + " 的 absolute"@,
    );
    let errors = noted(
        errors,
        stun_control && entry.value != STUN_VALUE,
        "效果 "@ + entry.effect_key@ + " 的 stun-v1 value 必须固定为 "@ + text::integer(STUN_VALUE as int) + " 的 absolute"@,
    );
    let errors = range_noted(errors, "effect.duration_rounds"@, entry.effect_key@, entry.duration_rounds as int, 1, 100);
    let errors = noted(
        errors,
        entry.chance_percent != 100,
        "效果 "@ + entry.effect_key@ + " 当前 chance_percent 必须为 100"@,
    );
    let errors = noted(
        errors,
        !(entry.stack_policy@ == "strongest"@ || entry.stack_policy@ == "add"@ || entry.stack_policy@ == "refresh"@ || entry.stack_policy@ == "replace"@),
        "效果 "@ + entry.effect_key@ + " 的 stack_policy 不受支持"@,
    );
    let errors = noted(
        errors,
        beast_attack_reduction && entry.parameters@.len() > 0,
        "效果 "@ + entry.effect_key@ + " 当前不允许非空 parameters"@,
    );
    errors
}

fn check_effect_value(errors: &mut Vec<String>, entry: &EffectPackageEntry)
    ensures
        text::texts(final(errors)@) == effect_value_errors(text::texts(old(errors)@), *entry),
{
    let beast_attack_reduction = beast_attack_reduction(entry);
    let poison_damage = poison_damage(entry);
    let stun_control = stun_control(entry);
    if beast_attack_reduction && !(-90 <= entry.value && entry.value <= -1) {
        push_text(errors, cat3("效果 ", &entry.effect_key, " 的 value 必须是 -1 到 -90 的 percent_delta"));
    }
    if poison_damage && !(1 <= entry.value && entry.value <= MAX_POISON_TICK_DAMAGE) {
        push_text(errors, cat5("效果 ", &entry.effect_key, " 的 poison-v1 value 必须是 1 到 ", &i64_text(MAX_POISON_TICK_DAMAGE), " 的 absolute"));
    }
    if stun_control && entry.value != STUN_VALUE {
        push_text(errors, cat5("效果 ", &entry.effect_key, " 的 stun-v1 value 必须固定为 ", &i64_text(STUN_VALUE), " 的 absolute"));
    }
    range_field(errors, "effect.duration_rounds", &entry.effect_key, entry.duration_rounds, 1, 100);
    if entry.chance_percent != 100 {
        push_text(errors, cat3("效果 ", &entry.effect_key, " 当前 chance_percent 必须为 100"));
    }
    if !(same(&entry.stack_policy, "strongest") || same(&entry.stack_policy, "add") || same(&entry.stack_policy, "refresh") || same(&entry.stack_policy, "replace")) {
        push_text(errors, cat3("效果 ", &entry.effect_key, " 的 stack_policy 不受支持"));
    }
    if beast_attack_reduction && entry.parameters.len() > 0 {
        push_text(errors, cat3("效果 ", &entry.effect_key, " 当前不允许非空 parameters"));
    }
}

/// The errors of the poison and stun rules.
pub open spec fn poison_and_stun_errors(errors: Seq<Seq<char>>, entry: EffectPackageEntry) -> Seq<Seq<char>> {
    let poison_damage = is_poison_damage(entry);
    let stun_control = is_stun_control(entry);
    let errors = noted(
        errors,
        poison_damage && !content::poison_v1(entry.parameters@),
        "效果 "@ + entry.effect_key@ + " 的 poison-v1 parameters 必须固定声明规则版本、结算时机和间隔"@,
    );
    let errors = noted(
        errors,
        stun_control && entry.stack_policy@ != "refresh"@,
        "效果 "@ + entry.effect_key@ + " 的 stun-v1 stack_policy 必须是 refresh"@,
    );
    let errors = noted(
        errors,
        stun_control && !(1 <= entry.duration_rounds && entry.duration_rounds <= MAX_STUN_DURATION_ROUNDS),
        "效果 "@ + entry.effect_key@ + " 的 stun-v1 duration_rounds 必须在 1 到 "@ + text::integer(MAX_STUN_DURATION_ROUNDS as int) + " 之间"@,
    );
    let errors = noted(
        errors,
        stun_control && !content::stun_v1(entry.parameters@),
        "效果 "@ + entry.effect_key@ + " 的 stun-v1 parameters 必须固定声明规则版本、结算时机和反击行为"@,
    );
    errors
}

fn check_poison_and_stun(errors: &mut Vec<String>, entry: &EffectPackageEntry)
    ensures
        text::texts(final(errors)@) == poison_and_stun_errors(text::texts(old(errors)@), *entry),
{
    let poison_damage = poison_damage(entry);
    let stun_control = stun_control(entry);
    if poison_damage && !is_poison_v1_parameters(&entry.parameters) {
        push_text(errors, cat3("效果 ", &entry.effect_key, " 的 poison-v1 parameters 必须固定声明规则版本、结算时机和间隔"));
    }
    if stun_control && !same(&entry.stack_policy, "refresh") {
        push_text(errors, cat3("效果 ", &entry.effect_key, " 的 stun-v1 stack_policy 必须是 refresh"));
    }
    if stun_control && !(1 <= entry.duration_rounds && entry.duration_rounds <= MAX_STUN_DURATION_ROUNDS) {
        push_text(errors, cat5("效果 ", &entry.effect_key, " 的 stun-v1 duration_rounds 必须在 1 到 ", &i64_text(MAX_STUN_DURATION_ROUNDS), " 之间"));
    }
    if stun_control && !is_stun_v1_parameters(&entry.parameters) {
        push_text(errors, cat3("效果 ", &entry.effect_key, " 的 stun-v1 parameters 必须固定声明规则版本、结算时机和反击行为"));
    }
}

/// The errors of the shield rule.
pub open spec fn shield_errors(errors: Seq<Seq<char>>, entry: EffectPackageEntry) -> Seq<Seq<char>> {
    let shield_protection = is_shield_protection(entry);
    let errors = noted(
        errors,
        shield_protection && entry.value != SHIELD_VALUE,
        "效果 "@ + entry.effect_key@ + " 的 shield-v1 value 必须固定为 "@ + text::integer(SHIELD_VALUE as int) + " 的 absolute"@,
    );
    let errors = noted(
        errors,
        shield_protection && entry.stack_policy@ != "refresh"@,
        "效果 "@ + entry.effect_key@ + " 的 shield-v1 stack_policy 必须是 refresh"@,
    );
    let errors = noted(
        errors,
        shield_protection && !(1 <= entry.duration_rounds && entry.duration_rounds <= MAX_SHIELD_DURATION_ROUNDS),
        "效果 "@ + entry.effect_key@ + " 的 shield-v1 duration_rounds 必须在 1 到 "@ + text::integer(MAX_SHIELD_DURATION_ROUNDS as int) + " 之间"@,
    );
    let errors = noted(
        errors,
        shield_protection && !content::shield_v1(entry.parameters@),
        "效果 "@ + entry.effect_key@ + " 的 shield-v1 parameters 必须固定声明规则版本、结算时机和反击行为"@,
    );
    errors
}

fn check_shield(errors: &mut Vec<String>, entry: &EffectPackageEntry)
    ensures
        text::texts(final(errors)@) == shield_errors(text::texts(old(errors)@), *entry),
{
    let shield_protection = shield_protection(entry);
    if shield_protection && entry.value != SHIELD_VALUE {
        push_text(errors, cat5("效果 ", &entry.effect_key, " 的 shield-v1 value 必须固定为 ", &i64_text(SHIELD_VALUE), " 的 absolute"));
    }
    if shield_protection && !same(&entry.stack_policy, "refresh") {
        push_text(errors, cat3("效果 ", &entry.effect_key, " 的 shield-v1 stack_policy 必须是 refresh"));
    }
    if shield_protection && !(1 <= entry.duration_rounds && entry.duration_rounds <= MAX_SHIELD_DURATION_ROUNDS) {
        push_text(errors, cat5("效果 ", &entry.effect_key, " 的 shield-v1 duration_rounds 必须在 1 到 ", &i64_text(MAX_SHIELD_DURATION_ROUNDS), " 之间"));
    }
    if shield_protection && !is_shield_v1_parameters(&entry.parameters) {
        push_text(errors, cat3("效果 ", &entry.effect_key, " 的 shield-v1 parameters 必须固定声明规则版本、结算时机和反击行为"));
    }
}

/// The errors of the heal rule.
pub open spec fn heal_errors(errors: Seq<Seq<char>>, entry: EffectPackageEntry) -> Seq<Seq<char>> {
    let heal_restore = is_heal_restore(entry);
    let errors = noted(
        errors,
        heal_restore && !(1 <= entry.value && entry.value <= MAX_HEAL_AMOUNT),
        "效果 "@ + entry.effect_key@ + " 的 heal-v1 value 必须在 1 到 "@ + text::integer(MAX_HEAL_AMOUNT as int) + " 之间"@,
    );
    let errors = noted(
        errors,
        heal_restore && entry.duration_rounds != 1,
        "效果 "@ + entry.effect_key@ + " 的 heal-v1 duration_rounds 必须固定为 1"@,
    );
    let errors = noted(
        errors,
        heal_restore && entry.stack_policy@ != "add"@,
        "效果 "@ + entry.effect_key@ + " 的 heal-v1 stack_policy 必须是 add"@,
    );
    let errors = noted(
        errors,
        heal_restore && !content::heal_v1(entry.parameters@),
        "效果 "@ + entry.effect_key@ + " 的 heal-v1 parameters 必须固定声明规则版本、结算时机和溢出行为"@,
    );
    errors
}

fn check_heal(errors: &mut Vec<String>, entry: &EffectPackageEntry)
    ensures
        text::texts(final(errors)@) == heal_errors(text::texts(old(errors)@), *entry),
{
    let heal_restore = heal_restore(entry);
    if heal_restore && !(1 <= entry.value && entry.value <= MAX_HEAL_AMOUNT) {
        push_text(errors, cat5("效果 ", &entry.effect_key, " 的 heal-v1 value 必须在 1 到 ", &i64_text(MAX_HEAL_AMOUNT), " 之间"));
    }
    if heal_restore && entry.duration_rounds != 1 {
        push_text(errors, cat3("效果 ", &entry.effect_key, " 的 heal-v1 duration_rounds 必须固定为 1"));
    }
    if heal_restore && !same(&entry.stack_policy, "add") {
        push_text(errors, cat3("效果 ", &entry.effect_key, " 的 heal-v1 stack_policy 必须是 add"));
    }
    if heal_restore && !is_heal_v1_parameters(&entry.parameters) {
        push_text(errors, cat3("效果 ", &entry.effect_key, " 的 heal-v1 parameters 必须固定声明规则版本、结算时机和溢出行为"));
    }
}

/// The errors of the skill ban rule.
pub open spec fn forbid_skill_errors(errors: Seq<Seq<char>>, entry: EffectPackageEntry) -> Seq<Seq<char>> {
    let forbid_skill = is_forbid_skill(entry);
    let errors = noted(
        errors,
        forbid_skill && entry.value != FORBID_SKILL_VALUE,
        "效果 "@ + entry.effect_key@ + " 的 forbid-skill-v1 value 必须固定为 "@ + text::integer(FORBID_SKILL_VALUE as int) + " 的 absolute"@,
    );
    let errors = noted(
        errors,
        forbid_skill && !(MIN_FORBID_SKILL_DURATION_ROUNDS <= entry.duration_rounds && entry.duration_rounds <= MAX_FORBID_SKILL_DURATION_ROUNDS),
        "效果 "@ + entry.effect_key@ + " 的 forbid-skill-v1 duration_rounds 必须在 "@ + text::integer(MIN_FORBID_SKILL_DURATION_ROUNDS as int) + " 到 "@ + text::integer(MAX_FORBID_SKILL_DURATION_ROUNDS as int) + " 之间"@,
    );
    let errors = noted(
        errors,
        forbid_skill && entry.stack_policy@ != "refresh"@,
        "效果 "@ + entry.effect_key@ + " 的 forbid-skill-v1 stack_policy 必须是 refresh"@,
    );
    let errors = noted(
        errors,
        forbid_skill && !content::forbid_skill_v1(entry.parameters@),
        "效果 "@ + entry.effect_key@ + " 的 forbid-skill-v1 parameters 必须固定声明规则版本、结算时机和阻断动作"@,
    );
    errors
}

fn check_forbid_skill(errors: &mut Vec<String>, entry: &EffectPackageEntry)
    ensures
        text::texts(final(errors)@) == forbid_skill_errors(text::texts(old(errors)@), *entry),
{
    let forbid_skill = forbid_skill(entry);
    if forbid_skill && entry.value != FORBID_SKILL_VALUE {
        push_text(errors, cat5("效果 ", &entry.effect_key, " 的 forbid-skill-v1 value 必须固定为 ", &i64_text(FORBID_SKILL_VALUE), " 的 absolute"));
    }
    if forbid_skill && !(MIN_FORBID_SKILL_DURATION_ROUNDS <= entry.duration_rounds && entry.duration_rounds <= MAX_FORBID_SKILL_DURATION_ROUNDS) {
        push_text(errors, cat7("效果 ", &entry.effect_key, " 的 forbid-skill-v1 duration_rounds 必须在 ", &i64_text(MIN_FORBID_SKILL_DURATION_ROUNDS), " 到 ", &i64_text(MAX_FORBID_SKILL_DURATION_ROUNDS), " 之间"));
    }
    if forbid_skill && !same(&entry.stack_policy, "refresh") {
        push_text(errors, cat3("效果 ", &entry.effect_key, " 的 forbid-skill-v1 stack_policy 必须是 refresh"));
    }
    if forbid_skill && !is_forbid_skill_v1_parameters(&entry.parameters) {
        push_text(errors, cat3("效果 ", &entry.effect_key, " 的 forbid-skill-v1 parameters 必须固定声明规则版本、结算时机和阻断动作"));
    }
}

/// The errors of the target rule.
pub open spec fn target_errors(errors: Seq<Seq<char>>, entry: EffectPackageEntry) -> Seq<Seq<char>> {
    let target_selection = is_target_selection(entry);
    let errors = noted(
        errors,
        target_selection && entry.value != TARGET_SELECTION_VALUE,
        "效果 "@ + entry.effect_key@ + " 的 target-v1 value 必须固定为 "@ + text::integer(TARGET_SELECTION_VALUE as int),
    );
    let errors = noted(
        errors,
        target_selection && entry.duration_rounds != 1,
        "效果 "@ + entry.effect_key@ + " 的 target-v1 duration_rounds 必须固定为 1"@,
    );
    let errors = noted(
        errors,
        target_selection && entry.stack_policy@ != "replace"@,
        "效果 "@ + entry.effect_key@ + " 的 target-v1 stack_policy 必须是 replace"@,
    );
    let errors = noted(
        errors,
        target_selection && !content::target_v1(entry.parameters@),
        "效果 "@ + entry.effect_key@ + " 的 target-v1 parameters 必须固定声明当前战斗魂兽选择器"@,
    );
    errors
}

fn check_target(errors: &mut Vec<String>, entry: &EffectPackageEntry)
    ensures
        text::texts(final(errors)@) == target_errors(text::texts(old(errors)@), *entry),
{
    let target_selection = target_selection(entry);
    if target_selection && entry.value != TARGET_SELECTION_VALUE {
        push_text(errors, cat4("效果 ", &entry.effect_key, " 的 target-v1 value 必须固定为 ", &i64_text(TARGET_SELECTION_VALUE)));
    }
    if target_selection && entry.duration_rounds != 1 {
        push_text(errors, cat3("效果 ", &entry.effect_key, " 的 target-v1 duration_rounds 必须固定为 1"));
    }
    if target_selection && !same(&entry.stack_policy, "replace") {
        push_text(errors, cat3("效果 ", &entry.effect_key, " 的 target-v1 stack_policy 必须是 replace"));
    }
    if target_selection && !is_target_v1_parameters(&entry.parameters) {
        push_text(errors, cat3("效果 ", &entry.effect_key, " 的 target-v1 parameters 必须固定声明当前战斗魂兽选择器"));
    }
}

/// The errors of an effect.
pub open spec fn effect_entry_errors(
    errors: Seq<Seq<char>>,
    entry: EffectPackageEntry,
    key_repeats: bool,
) -> Seq<Seq<char>> {
    let errors = noted(errors, key_repeats, "效果键重复："@ + entry.effect_key@);
    let errors = effect_node_errors(errors, entry);
    let errors = effect_value_errors(errors, entry);
    let errors = poison_and_stun_errors(errors, entry);
    let errors = shield_errors(errors, entry);
    let errors = heal_errors(errors, entry);
    let errors = forbid_skill_errors(errors, entry);
    let errors = target_errors(errors, entry);
    let errors = text_noted(errors, "effect.description"@, entry.description@, 2000, true);
    errors
}

fn check_effect(
    errors: &mut Vec<String>,
    entry: &EffectPackageEntry,
    key_repeats: bool,
)
    ensures
        text::texts(final(errors)@) == effect_entry_errors(
            text::texts(old(errors)@),
            *entry,
            key_repeats,
        ),
{
    if key_repeats {
        push_text(errors, cat2("效果键重复：", &entry.effect_key));
    }
    check_effect_node(errors, entry);
    check_effect_value(errors, entry);
    check_poison_and_stun(errors, entry);
    check_shield(errors, entry);
    check_heal(errors, entry);
    check_forbid_skill(errors, entry);
    check_target(errors, entry);
    text_field(errors, "effect.description", &entry.description, 2000, true);
}

/// The effect keys.
pub open spec fn effect_keys(entries: Seq<EffectPackageEntry>) -> Seq<Seq<char>> {
    entries.map_values(|entry: EffectPackageEntry| entry.effect_key@)
}

/// The errors of the first `count` of the entries: an effect.
pub open spec fn effect_errors(
    errors: Seq<Seq<char>>,
    entries: Seq<EffectPackageEntry>,
    count: int,
) -> Seq<Seq<char>>
    decreases count,
{
    if count <= 0 {
        errors
    } else {
        effect_entry_errors(
            effect_errors(errors, entries, count - 1),
            entries[count - 1],
            seen::repeats(effect_keys(entries), count - 1),
        )
    }
}

fn check_effect_entries(errors: &mut Vec<String>, entries: &Vec<EffectPackageEntry>)
    ensures
        text::texts(final(errors)@) == effect_errors(
            text::texts(old(errors)@),
            entries@,
            entries@.len() as int,
        ),
{
    let mut keys = SeenTexts::new();
    let ghost all_keys = effect_keys(entries@);
    let mut i: usize = 0;
    while i < entries.len()
        invariant
            i <= entries@.len(),
            keys.wf(),
            all_keys == effect_keys(entries@),
            keys.noted() == all_keys.take(i as int),
            text::texts(errors@) == effect_errors(text::texts(old(errors)@), entries@, i as int),
        decreases entries@.len() - i,
    {
        let entry = &entries[i];
        let key_repeats = keys.note(&entry.effect_key);
        check_effect(errors, entry, key_repeats);
        i = i + 1;
        assert(all_keys.take(i as int) =~= all_keys.take(i - 1).push(all_keys[i - 1]));
    }
}

/// The errors of a soul beast.
pub open spec fn beast_entry_errors(
    errors: Seq<Seq<char>>,
    entry: SoulBeastPackageEntry,
    key_repeats: bool,
) -> Seq<Seq<char>> {
    let errors = noted(errors, key_repeats, "魂兽键重复："@ + entry.beast_key@);
    let errors = key_noted(errors, "soul_beast.beast_key"@, entry.beast_key@);
    let errors = text_noted(errors, "soul_beast.name"@, entry.name@, 128, true);
    let errors = text_noted(errors, "soul_beast.description"@, entry.description@, 2000, true);
    let errors = key_noted(errors, "soul_beast.map_key"@, entry.map_key@);
    let errors = range_noted(errors, "soul_beast.age"@, entry.beast_key@, entry.age as int, 1, 999_999);
    let errors = range_noted(errors, "soul_beast.level_required"@, entry.beast_key@, entry.level_required as int, 1, 120);
    let errors = range_noted(errors, "soul_beast.max_hp"@, entry.beast_key@, entry.max_hp as int, 1, 1_000_000_000);
    let errors = range_noted(errors, "soul_beast.attack"@, entry.beast_key@, entry.attack as int, 1, 1_000_000_000);
    let errors = range_noted(errors, "soul_beast.defense"@, entry.beast_key@, entry.defense as int, 0, 1_000_000_000);
    let errors = range_noted(errors, "soul_beast.speed"@, entry.beast_key@, entry.speed as int, 0, 1_000_000_000);
    let errors = range_noted(errors, "soul_beast.exp_reward"@, entry.beast_key@, entry.exp_reward as int, 1, 999_999_999);
    let errors = key_noted(errors, "soul_beast.drop_item_key"@, entry.drop_item_key@);
    let errors = range_noted(errors, "soul_beast.drop_quantity"@, entry.beast_key@, entry.drop_quantity as int, 1, 99);
    errors
}

fn check_beast(
    errors: &mut Vec<String>,
    entry: &SoulBeastPackageEntry,
    key_repeats: bool,
)
    ensures
        text::texts(final(errors)@) == beast_entry_errors(
            text::texts(old(errors)@),
            *entry,
            key_repeats,
        ),
{
    if key_repeats {
        push_text(errors, cat2("魂兽键重复：", &entry.beast_key));
    }
    validate_key(errors, "soul_beast.beast_key", &entry.beast_key);
    text_field(errors, "soul_beast.name", &entry.name, 128, true);
    text_field(errors, "soul_beast.description", &entry.description, 2000, true);
    validate_key(errors, "soul_beast.map_key", &entry.map_key);
    range_field(errors, "soul_beast.age", &entry.beast_key, entry.age, 1, 999_999);
    range_field(errors, "soul_beast.level_required", &entry.beast_key, entry.level_required, 1, 120);
    range_field(errors, "soul_beast.max_hp", &entry.beast_key, entry.max_hp, 1, 1_000_000_000);
    range_field(errors, "soul_beast.attack", &entry.beast_key, entry.attack, 1, 1_000_000_000);
    range_field(errors, "soul_beast.defense", &entry.beast_key, entry.defense, 0, 1_000_000_000);
    range_field(errors, "soul_beast.speed", &entry.beast_key, entry.speed, 0, 1_000_000_000);
    range_field(errors, "soul_beast.exp_reward", &entry.beast_key, entry.exp_reward, 1, 999_999_999);
    validate_key(errors, "soul_beast.drop_item_key", &entry.drop_item_key);
    range_field(errors, "soul_beast.drop_quantity", &entry.beast_key, entry.drop_quantity, 1, 99);
}

/// The beast keys.
pub open spec fn beast_keys(entries: Seq<SoulBeastPackageEntry>) -> Seq<Seq<char>> {
    entries.map_values(|entry: SoulBeastPackageEntry| entry.beast_key@)
}

/// The errors of the first `count` of the entries: a soul beast.
pub open spec fn beast_errors(
    errors: Seq<Seq<char>>,
    entries: Seq<SoulBeastPackageEntry>,
    count: int,
) -> Seq<Seq<char>>
    decreases count,
{
    if count <= 0 {
        errors
    } else {
        beast_entry_errors(
            beast_errors(errors, entries, count - 1),
            entries[count - 1],
            seen::repeats(beast_keys(entries), count - 1),
        )
    }
}

fn check_beast_entries(errors: &mut Vec<String>, entries: &Vec<SoulBeastPackageEntry>)
    ensures
        text::texts(final(errors)@) == beast_errors(
            text::texts(old(errors)@),
            entries@,
            entries@.len() as int,
        ),
{
    let mut keys = SeenTexts::new();
    let ghost all_keys = beast_keys(entries@);
    let mut i: usize = 0;
    while i < entries.len()
        invariant
            i <= entries@.len(),
            keys.wf(),
            all_keys == beast_keys(entries@),
            keys.noted() == all_keys.take(i as int),
            text::texts(errors@) == beast_errors(text::texts(old(errors)@), entries@, i as int),
        decreases entries@.len() - i,
    {
        let entry = &entries[i];
        let key_repeats = keys.note(&entry.beast_key);
        check_beast(errors, entry, key_repeats);
        i = i + 1;
        assert(all_keys.take(i as int) =~= all_keys.take(i - 1).push(all_keys[i - 1]));
    }
}

/// The errors of a soul ring.
pub open spec fn ring_entry_errors(
    errors: Seq<Seq<char>>,
    entry: SoulRingPackageEntry,
    key_repeats: bool,
) -> Seq<Seq<char>> {
    let errors = noted(errors, key_repeats, "魂环键重复："@ + entry.ring_key@);
    let errors = key_noted(errors, "soul_ring.ring_key"@, entry.ring_key@);
    let errors = text_noted(errors, "soul_ring.name"@, entry.name@, 128, true);
    let errors = key_noted(errors, "soul_ring.soul_beast_key"@, entry.soul_beast_key@);
    let errors = key_noted(errors, "soul_ring.skill_key"@, entry.skill_key@);
    let errors = range_noted(errors, "soul_ring.ring_index"@, entry.ring_key@, entry.ring_index as int, 1, 9);
    let errors = range_noted(errors, "soul_ring.age"@, entry.ring_key@, entry.age as int, 1, 1_000_000_000);
    let errors = noted(
        errors,
        !(entry.color@ == "white"@ || entry.color@ == "yellow"@ || entry.color@ == "purple"@ || entry.color@ == "black"@ || entry.color@ == "red"@),
        "魂环 "@ + entry.ring_key@ + " 的 color 不受支持"@,
    );
    let errors = text_noted(errors, "soul_ring.description"@, entry.description@, 2000, true);
    errors
}

fn check_ring(
    errors: &mut Vec<String>,
    entry: &SoulRingPackageEntry,
    key_repeats: bool,
)
    ensures
        text::texts(final(errors)@) == ring_entry_errors(
            text::texts(old(errors)@),
            *entry,
            key_repeats,
        ),
{
    if key_repeats {
        push_text(errors, cat2("魂环键重复：", &entry.ring_key));
    }
    validate_key(errors, "soul_ring.ring_key", &entry.ring_key);
    text_field(errors, "soul_ring.name", &entry.name, 128, true);
    validate_key(errors, "soul_ring.soul_beast_key", &entry.soul_beast_key);
    validate_key(errors, "soul_ring.skill_key", &entry.skill_key);
    range_field(errors, "soul_ring.ring_index", &entry.ring_key, entry.ring_index, 1, 9);
    range_field(errors, "soul_ring.age", &entry.ring_key, entry.age, 1, 1_000_000_000);
    if !(same(&entry.color, "white") || same(&entry.color, "yellow") || same(&entry.color, "purple") || same(&entry.color, "black") || same(&entry.color, "red")) {
        push_text(errors, cat3("魂环 ", &entry.ring_key, " 的 color 不受支持"));
    }
    text_field(errors, "soul_ring.description", &entry.description, 2000, true);
}

/// The ring keys.
pub open spec fn ring_keys(entries: Seq<SoulRingPackageEntry>) -> Seq<Seq<char>> {
    entries.map_values(|entry: SoulRingPackageEntry| entry.ring_key@)
}

/// The errors of the first `count` of the entries: a soul ring.
pub open spec fn ring_errors(
    errors: Seq<Seq<char>>,
    entries: Seq<SoulRingPackageEntry>,
    count: int,
) -> Seq<Seq<char>>
    decreases count,
{
    if count <= 0 {
        errors
    } else {
        ring_entry_errors(
            ring_errors(errors, entries, count - 1),
            entries[count - 1],
            seen::repeats(ring_keys(entries), count - 1),
        )
    }
}

fn check_ring_entries(errors: &mut Vec<String>, entries: &Vec<SoulRingPackageEntry>)
    ensures
        text::texts(final(errors)@) == ring_errors(
            text::texts(old(errors)@),
            entries@,
            entries@.len() as int,
        ),
{
    let mut keys = SeenTexts::new();
    let ghost all_keys = ring_keys(entries@);
    let mut i: usize = 0;
    while i < entries.len()
        invariant
            i <= entries@.len(),
            keys.wf(),
            all_keys == ring_keys(entries@),
            keys.noted() == all_keys.take(i as int),
            text::texts(errors@) == ring_errors(text::texts(old(errors)@), entries@, i as int),
        decreases entries@.len() - i,
    {
        let entry = &entries[i];
        let key_repeats = keys.note(&entry.ring_key);
        check_ring(errors, entry, key_repeats);
        i = i + 1;
        assert(all_keys.take(i as int) =~= all_keys.take(i - 1).push(all_keys[i - 1]));
    }
}

pub open spec fn transition_key_noted(
    errors: Seq<Seq<char>>,
    field: Seq<char>,
    entity_kind: Seq<char>,
    value: Seq<char>,
) -> Seq<Seq<char>> {
    if entity_kind == "wuhun"@ {
        text_noted(errors, field, value, 200, true)
    } else {
        key_noted(errors, field, value)
    }
}

pub fn validate_transition_key(
    errors: &mut Vec<String>,
    field: &str,
    entity_kind: &str,
    value: &str,
)
    ensures
        text::texts(final(errors)@) == transition_key_noted(
            text::texts(old(errors)@),
            field@,
            entity_kind@,
            value@,
        ),
{
    if same(entity_kind, "wuhun") {
        text_field(errors, field, value, 200, true);
    } else {
        validate_key(errors, field, value);
    }
}

/// The kind of a transition and one of its keys, as they are compared.
pub open spec fn transition_id(entity_kind: Seq<char>, key: Seq<char>) -> Seq<char> {
    entity_kind + ":"@ + key
}

/// The errors of a transition.
pub open spec fn transition_entry_errors(
    errors: Seq<Seq<char>>,
    entry: ContentTransitionPackageEntry,
    source_repeats: bool,
    target_repeats: bool,
) -> Seq<Seq<char>> {
    let errors = noted(
        errors,
        !(entry.entity_kind@ == "wuhun"@ || entry.entity_kind@ == "skill"@ || entry.entity_kind@
            == "effect"@ || entry.entity_kind@ == "beast"@ || entry.entity_kind@ == "ring"@),
        "transition "@ + entry.source_key@ + " 的 entity_kind 不受支持"@,
    );
    let errors = noted(
        errors,
        !(entry.transition_kind@ == "deprecated"@ || entry.transition_kind@ == "replaced"@),
        "transition "@ + entry.source_key@ + " 的 transition_kind 不受支持"@,
    );
    let errors = transition_key_noted(
        errors,
        "transition.source_key"@,
        entry.entity_kind@,
        entry.source_key@,
    );
    let errors = match entry.target_key {
        Some(target) => transition_key_noted(
            errors,
            "transition.target_key"@,
            entry.entity_kind@,
            target@,
        ),
        None => errors,
    };
    let errors = text_noted(errors, "transition.reason"@, entry.reason@, 512, true);
    let errors = noted(
        errors,
        source_repeats,
        "transition source 重复："@ + entry.entity_kind@ + " / "@ + entry.source_key@,
    );
    let errors = match entry.target_key {
        Some(target) => {
            let errors = noted(
                errors,
                entry.source_key@ == target@,
                "transition source 与 target 不能相同："@ + entry.source_key@,
            );
            noted(
                errors,
                target_repeats,
                "transition target 重复："@ + entry.entity_kind@ + " / "@ + target@,
            )
        },
        None => errors,
    };
    let errors = noted(
        errors,
        entry.transition_kind@ == "deprecated"@ && entry.target_key is Some,
        "deprecated transition 不允许 target："@ + entry.source_key@,
    );
    noted(
        errors,
        entry.transition_kind@ == "replaced"@ && entry.target_key is None,
        "replaced transition 必须提供 target："@ + entry.source_key@,
    )
}

fn check_transition(
    errors: &mut Vec<String>,
    entry: &ContentTransitionPackageEntry,
    source_repeats: bool,
    target_repeats: bool,
)
    ensures
        text::texts(final(errors)@) == transition_entry_errors(
            text::texts(old(errors)@),
            *entry,
            source_repeats,
            target_repeats,
        ),
{
    if !(same(&entry.entity_kind, "wuhun") || same(&entry.entity_kind, "skill") || same(
        &entry.entity_kind,
        "effect",
    ) || same(&entry.entity_kind, "beast") || same(&entry.entity_kind, "ring")) {
        push_text(errors, cat3("transition ", &entry.source_key, " 的 entity_kind 不受支持"));
    }
    let deprecated = same(&entry.transition_kind, "deprecated");
    let replaced = same(&entry.transition_kind, "replaced");
    if !(deprecated || replaced) {
        push_text(errors, cat3("transition ", &entry.source_key, " 的 transition_kind 不受支持"));
    }
    validate_transition_key(
        errors,
        "transition.source_key",
        &entry.entity_kind,
        &entry.source_key,
    );
    match &entry.target_key {
        Some(target) => validate_transition_key(
            errors,
            "transition.target_key",
            &entry.entity_kind,
            target,
        ),
        None => {},
    }
    text_field(errors, "transition.reason", &entry.reason, 512, true);
    if source_repeats {
        push_text(
            errors,
            cat4("transition source 重复：", &entry.entity_kind, " / ", &entry.source_key),
        );
    }
    match &entry.target_key {
        Some(target) => {
            if same(&entry.source_key, target) {
                push_text(errors, cat2("transition source 与 target 不能相同：", &entry.source_key));
            }
            if target_repeats {
                push_text(
                    errors,
                    cat4("transition target 重复：", &entry.entity_kind, " / ", target),
                );
            }
        },
        None => {},
    }
    if deprecated && entry.target_key.is_some() {
        push_text(errors, cat2("deprecated transition 不允许 target：", &entry.source_key));
    }
    proof {
        reveal_strlit("deprecated");
        reveal_strlit("replaced");
    }
    if replaced && entry.target_key.is_none() {
        push_text(errors, cat2("replaced transition 必须提供 target：", &entry.source_key));
    }
}

/// The sources of the transitions.
pub open spec fn transition_sources(
    entries: Seq<ContentTransitionPackageEntry>,
) -> Seq<Seq<char>> {
    entries.map_values(
        |entry: ContentTransitionPackageEntry|
            transition_id(entry.entity_kind@, entry.source_key@),
    )
}

/// The targets of the first `count` transitions that have one.
pub open spec fn transition_targets(
    entries: Seq<ContentTransitionPackageEntry>,
    count: int,
) -> Seq<Seq<char>>
    decreases count,
{
    if count <= 0 {
        Seq::empty()
    } else {
        let earlier = transition_targets(entries, count - 1);
        match entries[count - 1].target_key {
            Some(target) => earlier.push(
                transition_id(entries[count - 1].entity_kind@, target@),
            ),
            None => earlier,
        }
    }
}

/// Whether an earlier transition has the target of this one.
pub open spec fn target_repeats(entries: Seq<ContentTransitionPackageEntry>, i: int) -> bool {
    match entries[i].target_key {
        Some(target) => transition_targets(entries, i).contains(
            transition_id(entries[i].entity_kind@, target@),
        ),
        None => false,
    }
}

/// The errors of the first `count` transitions.
pub open spec fn transition_errors(
    errors: Seq<Seq<char>>,
    entries: Seq<ContentTransitionPackageEntry>,
    count: int,
) -> Seq<Seq<char>>
    decreases count,
{
    if count <= 0 {
        errors
    } else {
        transition_entry_errors(
            transition_errors(errors, entries, count - 1),
            entries[count - 1],
            seen::repeats(transition_sources(entries), count - 1),
            target_repeats(entries, count - 1),
        )
    }
}

fn check_transition_entries(errors: &mut Vec<String>, entries: &Vec<ContentTransitionPackageEntry>)
    ensures
        text::texts(final(errors)@) == transition_errors(
            text::texts(old(errors)@),
            entries@,
            entries@.len() as int,
        ),
{
    let mut sources = SeenTexts::new();
    let mut targets = SeenTexts::new();
    let ghost all_sources = transition_sources(entries@);
    let mut i: usize = 0;
    while i < entries.len()
        invariant
            i <= entries@.len(),
            sources.wf(),
            targets.wf(),
            all_sources == transition_sources(entries@),
            sources.noted() == all_sources.take(i as int),
            targets.noted() == transition_targets(entries@, i as int),
            text::texts(errors@) == transition_errors(text::texts(old(errors)@), entries@, i as int),
        decreases entries@.len() - i,
    {
        let entry = &entries[i];
        let source_repeats = sources.note(&cat3(&entry.entity_kind, ":", &entry.source_key));
        let target_repeats = match &entry.target_key {
            Some(target) => targets.note(&cat3(&entry.entity_kind, ":", target)),
            None => false,
        };
        check_transition(errors, entry, source_repeats, target_repeats);
        i = i + 1;
        assert(all_sources.take(i as int) =~= all_sources.take(i - 1).push(all_sources[i - 1]));
    }
}

/// How many entries a package holds.
pub open spec fn entry_count(package: ContentPackage) -> nat {
    package.maps@.len() + package.items@.len() + package.npcs@.len() + package.quests@.len()
        + package.numeric_curves@.len() + package.wuhun@.len() + package.skills@.len()
        + package.effects@.len() + package.soul_beasts@.len() + package.soul_rings@.len()
        + package.transitions@.len()
}

/// The errors of the fields in a package's head.
pub open spec fn head_errors(package: ContentPackage) -> Seq<Seq<char>> {
    let errors = text_noted(Seq::empty(), "package_key"@, package.package_key@, 96, true);
    let errors = noted(
        errors,
        !is_key(package.package_key@),
        "package_key 必须是小写字母、数字、点、下划线或横线组成的键"@,
    );
    let errors = noted(errors, package.revision <= 0, "revision 必须大于 0"@);
    let errors = text_noted(errors, "author"@, package.author@, 200, true);
    let errors = text_noted(errors, "minimum_runtime"@, package.minimum_runtime@, 64, false);
    let errors = noted(errors, entry_count(package) == 0, "内容包至少要包含一条目录数据"@);
    noted(errors, entry_count(package) > 10_000, "内容包目录行数不能超过 10000"@)
}

/// All errors of a package, in order.
pub open spec fn shape_errors(package: ContentPackage) -> Seq<Seq<char>> {
    let errors = head_errors(package);
    let errors = map_errors(errors, package.maps@, package.maps@.len() as int);
    let errors = item_errors(errors, package.items@, package.items@.len() as int);
    let errors = npc_errors(errors, package.npcs@, package.npcs@.len() as int);
    let errors = quest_errors(errors, package.quests@, package.quests@.len() as int);
    let errors = curve_errors(
        errors,
        package.numeric_curves@,
        package.numeric_curves@.len() as int,
    );
    let errors = wuhun_errors(errors, package.wuhun@, package.wuhun@.len() as int);
    let errors = skill_errors(errors, package.skills@, package.skills@.len() as int);
    let errors = effect_errors(errors, package.effects@, package.effects@.len() as int);
    let errors = beast_errors(errors, package.soul_beasts@, package.soul_beasts@.len() as int);
    let errors = ring_errors(errors, package.soul_rings@, package.soul_rings@.len() as int);
    transition_errors(errors, package.transitions@, package.transitions@.len() as int)
}

fn check_head(package: &ContentPackage) -> (errors: Vec<String>)
    ensures
        text::texts(errors@) == head_errors(*package),
{
    let mut list: Vec<String> = Vec::new();
    assert(text::texts(list@) =~= Seq::empty());
    let errors = &mut list;
    text_field(errors, "package_key", &package.package_key, 96, true);
    if !is_content_key(&package.package_key) {
        push_text(errors, "package_key 必须是小写字母、数字、点、下划线或横线组成的键".to_owned());
    }
    if package.revision <= 0 {
        push_text(errors, "revision 必须大于 0".to_owned());
    }
    text_field(errors, "author", &package.author, 200, true);
    text_field(errors, "minimum_runtime", &package.minimum_runtime, 64, false);
    let total: u128 = package.maps.len() as u128 + package.items.len() as u128
        + package.npcs.len() as u128 + package.quests.len() as u128
        + package.numeric_curves.len() as u128 + package.wuhun.len() as u128
        + package.skills.len() as u128 + package.effects.len() as u128
        + package.soul_beasts.len() as u128 + package.soul_rings.len() as u128
        + package.transitions.len() as u128;
    if total == 0 {
        push_text(errors, "内容包至少要包含一条目录数据".to_owned());
    }
    if total > 10_000 {
        push_text(errors, "内容包目录行数不能超过 10000".to_owned());
    }
    list
}

/// All errors of a package's shape; no catalogue is consulted.
pub fn validate_shape(package: &ContentPackage) -> (errors: Vec<String>)
    ensures
        text::texts(errors@) == shape_errors(*package),
{
    let mut errors = check_head(package);
    check_map_entries(&mut errors, &package.maps);
    check_item_entries(&mut errors, &package.items);
    check_npc_entries(&mut errors, &package.npcs);
    check_quest_entries(&mut errors, &package.quests);
    check_curve_entries(&mut errors, &package.numeric_curves);
    check_wuhun_entries(&mut errors, &package.wuhun);
    check_skill_entries(&mut errors, &package.skills);
    check_effect_entries(&mut errors, &package.effects);
    check_beast_entries(&mut errors, &package.soul_beasts);
    check_ring_entries(&mut errors, &package.soul_rings);
    check_transition_entries(&mut errors, &package.transitions);
    errors
}

} // verus!
