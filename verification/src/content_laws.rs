//! What it means that a content package has no errors.
use crate::content;
use crate::content::{
    ContentPackage, ContentTransitionPackageEntry, EffectPackageEntry, ItemPackageEntry,
    MapPackageEntry, NpcPackageEntry, NumericCurvePackageEntry, QuestPackageEntry,
    QuestRequirementPackageEntry, QuestRewardPackageEntry, SkillPackageEntry,
    SoulBeastPackageEntry, SoulRingPackageEntry, WuhunPackageEntry, WuhunStatsPackageEntry,
};
use crate::content_rules;
use crate::seen;
use crate::text;
use vstd::prelude::*;

verus! {

/// The percentages of a wuhun lie between 1 and 500.
pub open spec fn percents_ok(stats: WuhunStatsPackageEntry) -> bool {
    &&& 1 <= stats.attack_percent <= 500
    &&& 1 <= stats.defense_percent <= 500
    &&& 1 <= stats.strength_percent <= 500
    &&& 1 <= stats.agility_percent <= 500
    &&& 1 <= stats.spirit_percent <= 500
    &&& 1 <= stats.endurance_percent <= 500
    &&& 1 <= stats.perception_percent <= 500
    &&& 1 <= stats.luck_percent <= 500
}

/// What holds of a map.
pub open spec fn map_ok(entry: MapPackageEntry) -> bool {
    &&& content_rules::is_key(entry.map_key@)
    &&& !content_rules::text_fails(entry.name@, 128, true)
    &&& !content_rules::text_fails(entry.description@, 2000, true)
    &&& 1 <= entry.level_required <= 120
    &&& !(entry.sort_order < 0)
}

proof fn lemma_map_entry(
    errors: Seq<Seq<char>>,
    entry: MapPackageEntry,
    key_repeats: bool,
    name_repeats: bool,
    order_repeats: bool,
)
    ensures
        content_rules::map_entry_errors(errors, entry, key_repeats, name_repeats, order_repeats).len() == 0 <==> errors.len() == 0 && map_ok(entry) && !key_repeats && !name_repeats && !order_repeats,
{
}

/// The entries are in order: a map.
pub open spec fn maps_ok(entries: Seq<MapPackageEntry>) -> bool {
    &&& forall|i: int| 0 <= i < entries.len() ==> map_ok(#[trigger] entries[i])
    &&& seen::distinct(content_rules::map_keys(entries))
    &&& seen::distinct(content_rules::map_names(entries))
    &&& seen::distinct(content_rules::map_orders(entries))
}

proof fn lemma_map_prefix(errors: Seq<Seq<char>>,  entries: Seq<MapPackageEntry>, count: int)
    requires
        0 <= count <= entries.len(),
    ensures
        content_rules::map_errors(errors, entries, count).len() == 0 <==> errors.len() == 0 && (forall|i: int|
            0 <= i < count ==> map_ok(#[trigger] entries[i]) && !seen::repeats(content_rules::map_keys(entries), i) && !seen::repeats(content_rules::map_names(entries), i) && !seen::repeats(content_rules::map_orders(entries), i)),
    decreases count,
{
    if count > 0 {
        lemma_map_prefix(errors, entries, count - 1);
        lemma_map_entry(content_rules::map_errors(errors, entries, count - 1), entries[count - 1], seen::repeats(content_rules::map_keys(entries), count - 1), seen::repeats(content_rules::map_names(entries), count - 1), seen::repeats(content_rules::map_orders(entries), count - 1));
    }
}

pub(crate) proof fn lemma_maps(errors: Seq<Seq<char>>,  entries: Seq<MapPackageEntry>)
    ensures
        content_rules::map_errors(errors, entries, entries.len() as int).len() == 0 <==> errors.len() == 0 && maps_ok(entries),
{
    lemma_map_prefix(errors, entries, entries.len() as int);
    seen::distinct_means_no_repetition(content_rules::map_keys(entries));
    seen::distinct_means_no_repetition(content_rules::map_names(entries));
    seen::distinct_means_no_repetition(content_rules::map_orders(entries));
}

/// What holds of an item.
pub open spec fn item_ok(entry: ItemPackageEntry) -> bool {
    &&& content_rules::is_key(entry.item_key@)
    &&& !content_rules::text_fails(entry.name@, 128, true)
    &&& (entry.category@ == "revival"@ || entry.category@ == "consumable"@)
    &&& 1 <= entry.quality <= 5
    &&& 1 <= entry.max_stack <= 9999
    &&& !(!entry.stackable && entry.max_stack != 1)
    &&& !(entry.buy_price < 0)
    &&& !(entry.sell_price < 0 || entry.sell_price > entry.buy_price)
    &&& 1 <= entry.level_required <= 120
    &&& (entry.effect_kind@ == "revive"@ || entry.effect_kind@ == "restore_hp"@ || entry.effect_kind@ == "restore_soul"@)
    &&& (entry.effect_kind@ == "revive"@ ==> entry.effect_amount == 0 && 1 <= entry.revive_hp_percent <= 100)
    &&& (entry.effect_kind@ == "restore_hp"@ || entry.effect_kind@ == "restore_soul"@ ==> 1 <= entry.effect_amount <= 1_000_000 && entry.revive_hp_percent == 0)
    &&& !content_rules::text_fails(entry.description@, 2000, false)
}

proof fn lemma_item_entry(
    errors: Seq<Seq<char>>,
    entry: ItemPackageEntry,
    key_repeats: bool,
    name_repeats: bool,
)
    ensures
        content_rules::item_entry_errors(errors, entry, key_repeats, name_repeats).len() == 0 <==> errors.len() == 0 && item_ok(entry) && !key_repeats && !name_repeats,
{
    reveal_strlit("revive");
    reveal_strlit("restore_hp");
    reveal_strlit("restore_soul");
    assert("revive"@.len() == 6 && "restore_hp"@.len() == 10 && "restore_soul"@.len() == 12);
}

/// The entries are in order: an item.
pub open spec fn items_ok(entries: Seq<ItemPackageEntry>) -> bool {
    &&& forall|i: int| 0 <= i < entries.len() ==> item_ok(#[trigger] entries[i])
    &&& seen::distinct(content_rules::item_keys(entries))
    &&& seen::distinct(content_rules::item_names(entries))
}

proof fn lemma_item_prefix(errors: Seq<Seq<char>>,  entries: Seq<ItemPackageEntry>, count: int)
    requires
        0 <= count <= entries.len(),
    ensures
        content_rules::item_errors(errors, entries, count).len() == 0 <==> errors.len() == 0 && (forall|i: int|
            0 <= i < count ==> item_ok(#[trigger] entries[i]) && !seen::repeats(content_rules::item_keys(entries), i) && !seen::repeats(content_rules::item_names(entries), i)),
    decreases count,
{
    if count > 0 {
        lemma_item_prefix(errors, entries, count - 1);
        lemma_item_entry(content_rules::item_errors(errors, entries, count - 1), entries[count - 1], seen::repeats(content_rules::item_keys(entries), count - 1), seen::repeats(content_rules::item_names(entries), count - 1));
    }
}

pub(crate) proof fn lemma_items(errors: Seq<Seq<char>>,  entries: Seq<ItemPackageEntry>)
    ensures
        content_rules::item_errors(errors, entries, entries.len() as int).len() == 0 <==> errors.len() == 0 && items_ok(entries),
{
    lemma_item_prefix(errors, entries, entries.len() as int);
    seen::distinct_means_no_repetition(content_rules::item_keys(entries));
    seen::distinct_means_no_repetition(content_rules::item_names(entries));
}

/// What holds of an NPC.
pub open spec fn npc_ok(entry: NpcPackageEntry) -> bool {
    &&& content_rules::is_key(entry.npc_key@)
    &&& content_rules::is_key(entry.map_key@)
    &&& !content_rules::text_fails(entry.name@, 128, true)
    &&& (entry.npc_kind@ == "elder"@ || entry.npc_kind@ == "merchant"@)
    &&& !content_rules::text_fails(entry.dialogue@, 2000, false)
    &&& !content_rules::text_fails(entry.description@, 2000, false)
    &&& entry.enabled
    &&& entry.sort_order >= 0
}

/// The entries are in order: an NPC.
pub open spec fn npcs_ok(entries: Seq<NpcPackageEntry>) -> bool {
    &&& forall|i: int| 0 <= i < entries.len() ==> npc_ok(#[trigger] entries[i])
    &&& seen::distinct(content_rules::npc_keys(entries))
    &&& seen::distinct(content_rules::npc_names(entries))
}

proof fn lemma_npc_prefix(errors: Seq<Seq<char>>, entries: Seq<NpcPackageEntry>, count: int)
    requires
        0 <= count <= entries.len(),
    ensures
        content_rules::npc_errors(errors, entries, count).len() == 0 <==> errors.len() == 0 && (forall|i: int|
            0 <= i < count ==> npc_ok(#[trigger] entries[i]) && !seen::repeats(
                content_rules::npc_keys(entries),
                i,
            ) && !seen::repeats(content_rules::npc_names(entries), i)),
    decreases count,
{
    if count > 0 {
        lemma_npc_prefix(errors, entries, count - 1);
    }
}

pub(crate) proof fn lemma_npcs(errors: Seq<Seq<char>>, entries: Seq<NpcPackageEntry>)
    ensures
        content_rules::npc_errors(errors, entries, entries.len() as int).len() == 0 <==> errors.len() == 0
            && npcs_ok(entries),
{
    lemma_npc_prefix(errors, entries, entries.len() as int);
    seen::distinct_means_no_repetition(content_rules::npc_keys(entries));
    seen::distinct_means_no_repetition(content_rules::npc_names(entries));
}

/// What holds of a condition of a quest.
pub open spec fn requirement_ok(entry: QuestRequirementPackageEntry) -> bool {
    &&& (entry.requirement_kind@ == "item"@ || entry.requirement_kind@ == "visit"@ || entry.requirement_kind@ == "level"@)
    &&& (entry.requirement_kind@ == "item"@ || entry.requirement_kind@ == "visit"@ ==> content_rules::is_key(entry.target_key@))
    &&& (entry.requirement_kind@ == "level"@ ==> entry.target_key@ == "level"@)
    &&& 1 <= entry.required_quantity <= 9999
    &&& !(entry.sort_order < 0)
    &&& !content_rules::text_fails(entry.description@, 500, false)
}

proof fn lemma_requirement_entry(
    errors: Seq<Seq<char>>,
    quest_key: String,
    entry: QuestRequirementPackageEntry,
    order_repeats: bool,
)
    ensures
        content_rules::requirement_entry_errors(errors, quest_key, entry, order_repeats).len() == 0 <==> errors.len() == 0 && requirement_ok(entry) && !order_repeats,
{
    reveal_strlit("item");
    reveal_strlit("visit");
    reveal_strlit("level");
    assert("item"@.len() == 4 && "visit"@.len() == 5);
    assert("visit"@[0] == 'v' && "level"@[0] == 'l');
}

/// The entries are in order: a condition of a quest.
pub open spec fn requirements_ok(entries: Seq<QuestRequirementPackageEntry>) -> bool {
    &&& forall|i: int| 0 <= i < entries.len() ==> requirement_ok(#[trigger] entries[i])
    &&& seen::distinct(content_rules::requirement_orders(entries))
}

proof fn lemma_requirement_prefix(errors: Seq<Seq<char>>, quest_key: String, entries: Seq<QuestRequirementPackageEntry>, count: int)
    requires
        0 <= count <= entries.len(),
    ensures
        content_rules::requirement_errors(errors, quest_key, entries, count).len() == 0 <==> errors.len() == 0 && (forall|i: int|
            0 <= i < count ==> requirement_ok(#[trigger] entries[i]) && !seen::repeats(content_rules::requirement_orders(entries), i)),
    decreases count,
{
    if count > 0 {
        lemma_requirement_prefix(errors, quest_key, entries, count - 1);
        lemma_requirement_entry(content_rules::requirement_errors(errors, quest_key, entries, count - 1), quest_key, entries[count - 1], seen::repeats(content_rules::requirement_orders(entries), count - 1));
    }
}

pub(crate) proof fn lemma_requirements(errors: Seq<Seq<char>>, quest_key: String, entries: Seq<QuestRequirementPackageEntry>)
    ensures
        content_rules::requirement_errors(errors, quest_key, entries, entries.len() as int).len() == 0 <==> errors.len() == 0 && requirements_ok(entries),
{
    lemma_requirement_prefix(errors, quest_key, entries, entries.len() as int);
    seen::distinct_means_no_repetition(content_rules::requirement_orders(entries));
}

/// What holds of a reward of a quest.
pub open spec fn reward_ok(entry: QuestRewardPackageEntry) -> bool {
    &&& (entry.reward_kind@ == "exp"@ || entry.reward_kind@ == "currency"@ || entry.reward_kind@ == "item"@)
    &&& (entry.reward_kind@ == "exp"@ ==> entry.currency_code is None && entry.item_key is None)
    &&& (entry.reward_kind@ == "currency"@ ==> text::optional_text(entry.currency_code) == Some("gold_soul_coin"@) && entry.item_key is None)
    &&& (entry.reward_kind@ == "item"@ ==> entry.currency_code is None && entry.item_key is Some && content_rules::is_key(entry.item_key->0@))
    &&& 1 <= entry.amount <= 999_999_999
    &&& !(entry.sort_order < 0)
    &&& !content_rules::text_fails(entry.description@, 500, false)
}

proof fn lemma_reward_entry(
    errors: Seq<Seq<char>>,
    quest_key: String,
    entry: QuestRewardPackageEntry,
    order_repeats: bool,
)
    ensures
        content_rules::reward_entry_errors(errors, quest_key, entry, order_repeats).len() == 0 <==> errors.len() == 0 && reward_ok(entry) && !order_repeats,
{
}

/// The entries are in order: a reward of a quest.
pub open spec fn rewards_ok(entries: Seq<QuestRewardPackageEntry>) -> bool {
    &&& forall|i: int| 0 <= i < entries.len() ==> reward_ok(#[trigger] entries[i])
    &&& seen::distinct(content_rules::reward_orders(entries))
}

proof fn lemma_reward_prefix(errors: Seq<Seq<char>>, quest_key: String, entries: Seq<QuestRewardPackageEntry>, count: int)
    requires
        0 <= count <= entries.len(),
    ensures
        content_rules::reward_errors(errors, quest_key, entries, count).len() == 0 <==> errors.len() == 0 && (forall|i: int|
            0 <= i < count ==> reward_ok(#[trigger] entries[i]) && !seen::repeats(content_rules::reward_orders(entries), i)),
    decreases count,
{
    if count > 0 {
        lemma_reward_prefix(errors, quest_key, entries, count - 1);
        lemma_reward_entry(content_rules::reward_errors(errors, quest_key, entries, count - 1), quest_key, entries[count - 1], seen::repeats(content_rules::reward_orders(entries), count - 1));
    }
}

pub(crate) proof fn lemma_rewards(errors: Seq<Seq<char>>, quest_key: String, entries: Seq<QuestRewardPackageEntry>)
    ensures
        content_rules::reward_errors(errors, quest_key, entries, entries.len() as int).len() == 0 <==> errors.len() == 0 && rewards_ok(entries),
{
    lemma_reward_prefix(errors, quest_key, entries, entries.len() as int);
    seen::distinct_means_no_repetition(content_rules::reward_orders(entries));
}

/// What holds of a quest.
pub open spec fn quest_ok(entry: QuestPackageEntry) -> bool {
    &&& content_rules::is_key(entry.quest_key@)
    &&& !content_rules::text_fails(entry.name@, 128, true)
    &&& !content_rules::text_fails(entry.description@, 2000, true)
    &&& (entry.category@ == "main"@ || entry.category@ == "side"@ || entry.category@ == "daily"@)
    &&& (entry.map_key is Some ==> content_rules::is_key(entry.map_key->0@))
    &&& 1 <= entry.level_required <= 120
    &&& !entry.repeatable
    &&& entry.enabled
    &&& !(entry.requirements@.len() == 0)
    &&& !(entry.requirements@.len() > 100)
    &&& requirements_ok(entry.requirements@)
    &&& !(entry.rewards@.len() == 0)
    &&& !(entry.rewards@.len() > 100)
    &&& rewards_ok(entry.rewards@)
}

proof fn lemma_quest_entry(
    errors: Seq<Seq<char>>,
    entry: QuestPackageEntry,
    key_repeats: bool,
    name_repeats: bool,
)
    ensures
        content_rules::quest_entry_errors(errors, entry, key_repeats, name_repeats).len() == 0 <==> errors.len() == 0 && quest_ok(entry) && !key_repeats && !name_repeats,
{
    let errors = content_rules::noted(errors, key_repeats, "任务键重复："@ + entry.quest_key@);
    let errors = content_rules::noted(errors, name_repeats, "任务名称重复："@ + entry.name@);
    let errors = content_rules::key_noted(errors, "quest.quest_key"@, entry.quest_key@);
    let errors = content_rules::text_noted(errors, "quest.name"@, entry.name@, 128, true);
    let errors = content_rules::text_noted(errors, "quest.description"@, entry.description@, 2000, true);
    let errors = content_rules::noted(
        errors,
        !(entry.category@ == "main"@ || entry.category@ == "side"@ || entry.category@ == "daily"@),
        "任务 "@ + entry.quest_key@ + " 的 category 不受支持"@,
    );
    let errors = match entry.map_key {
        Some(map_key) => content_rules::key_noted(errors, "quest.map_key"@, map_key@),
        None => errors,
    };
    let errors = content_rules::range_noted(errors, "quest.level_required"@, entry.quest_key@, entry.level_required as int, 1, 120);
    let errors = content_rules::noted(errors, entry.repeatable, "当前发布切片不允许可重复新任务："@ + entry.quest_key@);
    let errors = content_rules::noted(errors, !entry.enabled, "当前发布切片不允许禁用新任务："@ + entry.quest_key@);
    let errors = content_rules::noted(
        errors,
        entry.requirements@.len() == 0,
        "任务 "@ + entry.quest_key@ + " 至少需要一条完成条件"@,
    );
    let errors = content_rules::noted(
        errors,
        entry.requirements@.len() > 100,
        "任务 "@ + entry.quest_key@ + " 的完成条件不能超过 100 条"@,
    );
    lemma_requirements(errors, entry.quest_key, entry.requirements@);
    let errors = content_rules::requirement_errors(
        errors,
        entry.quest_key,
        entry.requirements@,
        entry.requirements@.len() as int,
    );
    let errors = content_rules::noted(errors, entry.rewards@.len() == 0, "任务 "@ + entry.quest_key@ + " 至少需要一条奖励"@);
    let errors = content_rules::noted(
        errors,
        entry.rewards@.len() > 100,
        "任务 "@ + entry.quest_key@ + " 的奖励不能超过 100 条"@,
    );
    lemma_rewards(errors, entry.quest_key, entry.rewards@);
    let errors = content_rules::reward_errors(
        errors,
        entry.quest_key,
        entry.rewards@,
        entry.rewards@.len() as int,
    );
}

/// The entries are in order: a quest.
pub open spec fn quests_ok(entries: Seq<QuestPackageEntry>) -> bool {
    &&& forall|i: int| 0 <= i < entries.len() ==> quest_ok(#[trigger] entries[i])
    &&& seen::distinct(content_rules::quest_keys(entries))
    &&& seen::distinct(content_rules::quest_names(entries))
}

proof fn lemma_quest_prefix(errors: Seq<Seq<char>>,  entries: Seq<QuestPackageEntry>, count: int)
    requires
        0 <= count <= entries.len(),
    ensures
        content_rules::quest_errors(errors, entries, count).len() == 0 <==> errors.len() == 0 && (forall|i: int|
            0 <= i < count ==> quest_ok(#[trigger] entries[i]) && !seen::repeats(content_rules::quest_keys(entries), i) && !seen::repeats(content_rules::quest_names(entries), i)),
    decreases count,
{
    if count > 0 {
        lemma_quest_prefix(errors, entries, count - 1);
        lemma_quest_entry(content_rules::quest_errors(errors, entries, count - 1), entries[count - 1], seen::repeats(content_rules::quest_keys(entries), count - 1), seen::repeats(content_rules::quest_names(entries), count - 1));
    }
}

pub(crate) proof fn lemma_quests(errors: Seq<Seq<char>>,  entries: Seq<QuestPackageEntry>)
    ensures
        content_rules::quest_errors(errors, entries, entries.len() as int).len() == 0 <==> errors.len() == 0 && quests_ok(entries),
{
    lemma_quest_prefix(errors, entries, entries.len() as int);
    seen::distinct_means_no_repetition(content_rules::quest_keys(entries));
    seen::distinct_means_no_repetition(content_rules::quest_names(entries));
}

/// What holds of a numeric curve.
pub open spec fn curve_ok(entry: NumericCurvePackageEntry) -> bool {
    &&& content_rules::is_key(entry.curve_key@)
    &&& !content_rules::text_fails(entry.name@, 128, true)
    &&& !content_rules::text_fails(entry.unit@, 32, true)
    &&& content_rules::is_key(entry.reference_key@)
    &&& (entry.reference_key@ == content::PLAYER_LEVEL_EXP_CURVE_REFERENCE@ || entry.reference_key@ == content::SKILL_PROFICIENCY_CURVE_REFERENCE@ || entry.reference_key@ == content::SKILL_DAMAGE_PERCENT_CURVE_REFERENCE@)
    &&& !(entry.range_min < 1)
    &&& !(entry.range_max < entry.range_min)
    &&& !(entry.sort_order < 0)
    &&& !content_rules::text_fails(entry.description@, 2000, true)
}

proof fn lemma_curve_entry(
    errors: Seq<Seq<char>>,
    entry: NumericCurvePackageEntry,
    key_repeats: bool,
    name_repeats: bool,
    order_repeats: bool,
)
    ensures
        content_rules::curve_entry_errors(errors, entry, key_repeats, name_repeats, order_repeats).len() == 0 <==> errors.len() == 0 && curve_ok(entry) && !key_repeats && !name_repeats && !order_repeats,
{
}

/// The entries are in order: a numeric curve.
pub open spec fn curves_ok(entries: Seq<NumericCurvePackageEntry>) -> bool {
    &&& forall|i: int| 0 <= i < entries.len() ==> curve_ok(#[trigger] entries[i])
    &&& seen::distinct(content_rules::curve_keys(entries))
    &&& seen::distinct(content_rules::curve_names(entries))
    &&& seen::distinct(content_rules::curve_orders(entries))
}

proof fn lemma_curve_prefix(errors: Seq<Seq<char>>,  entries: Seq<NumericCurvePackageEntry>, count: int)
    requires
        0 <= count <= entries.len(),
    ensures
        content_rules::curve_errors(errors, entries, count).len() == 0 <==> errors.len() == 0 && (forall|i: int|
            0 <= i < count ==> curve_ok(#[trigger] entries[i]) && !seen::repeats(content_rules::curve_keys(entries), i) && !seen::repeats(content_rules::curve_names(entries), i) && !seen::repeats(content_rules::curve_orders(entries), i)),
    decreases count,
{
    if count > 0 {
        lemma_curve_prefix(errors, entries, count - 1);
        lemma_curve_entry(content_rules::curve_errors(errors, entries, count - 1), entries[count - 1], seen::repeats(content_rules::curve_keys(entries), count - 1), seen::repeats(content_rules::curve_names(entries), count - 1), seen::repeats(content_rules::curve_orders(entries), count - 1));
    }
}

pub(crate) proof fn lemma_curves(errors: Seq<Seq<char>>,  entries: Seq<NumericCurvePackageEntry>)
    ensures
        content_rules::curve_errors(errors, entries, entries.len() as int).len() == 0 <==> errors.len() == 0 && curves_ok(entries),
{
    lemma_curve_prefix(errors, entries, entries.len() as int);
    seen::distinct_means_no_repetition(content_rules::curve_keys(entries));
    seen::distinct_means_no_repetition(content_rules::curve_names(entries));
    seen::distinct_means_no_repetition(content_rules::curve_orders(entries));
}

/// What holds of a wuhun.
pub open spec fn wuhun_ok(entry: WuhunPackageEntry) -> bool {
    &&& !content_rules::text_fails(entry.name@, 128, true)
    &&& !content_rules::text_fails(entry.category@, 32, true)
    &&& (entry.category@ == "强攻系"@ || entry.category@ == "控制系"@ || entry.category@ == "敏攻系"@ || entry.category@ == "辅助系"@ || entry.category@ == "防御系"@ || entry.category@ == "食物系"@)
    &&& !content_rules::text_fails(entry.form@, 128, true)
    &&& !content_rules::text_fails(entry.description@, 2000, true)
    &&& !(entry.weight <= 0)
    &&& percents_ok(entry.stats)
}

proof fn lemma_wuhun_entry(
    errors: Seq<Seq<char>>,
    entry: WuhunPackageEntry,
    name_repeats: bool,
)
    ensures
        content_rules::wuhun_entry_errors(errors, entry, name_repeats).len() == 0 <==> errors.len() == 0 && wuhun_ok(entry) && !name_repeats,
{
}

/// The entries are in order: a wuhun.
pub open spec fn wuhuns_ok(entries: Seq<WuhunPackageEntry>) -> bool {
    &&& forall|i: int| 0 <= i < entries.len() ==> wuhun_ok(#[trigger] entries[i])
    &&& seen::distinct(content_rules::wuhun_names(entries))
}

proof fn lemma_wuhun_prefix(errors: Seq<Seq<char>>,  entries: Seq<WuhunPackageEntry>, count: int)
    requires
        0 <= count <= entries.len(),
    ensures
        content_rules::wuhun_errors(errors, entries, count).len() == 0 <==> errors.len() == 0 && (forall|i: int|
            0 <= i < count ==> wuhun_ok(#[trigger] entries[i]) && !seen::repeats(content_rules::wuhun_names(entries), i)),
    decreases count,
{
    if count > 0 {
        lemma_wuhun_prefix(errors, entries, count - 1);
        lemma_wuhun_entry(content_rules::wuhun_errors(errors, entries, count - 1), entries[count - 1], seen::repeats(content_rules::wuhun_names(entries), count - 1));
    }
}

pub(crate) proof fn lemma_wuhuns(errors: Seq<Seq<char>>,  entries: Seq<WuhunPackageEntry>)
    ensures
        content_rules::wuhun_errors(errors, entries, entries.len() as int).len() == 0 <==> errors.len() == 0 && wuhuns_ok(entries),
{
    lemma_wuhun_prefix(errors, entries, entries.len() as int);
    seen::distinct_means_no_repetition(content_rules::wuhun_names(entries));
}

/// What holds of a soul skill.
pub open spec fn skill_ok(entry: SkillPackageEntry) -> bool {
    &&& content_rules::is_key(entry.skill_key@)
    &&& !content_rules::text_fails(entry.name@, 128, true)
    &&& (entry.skill_type@ == "active"@ || entry.skill_type@ == "passive"@ || entry.skill_type@ == "domain"@ || entry.skill_type@ == "ultimate"@)
    &&& (entry.wuhun_category@ == "all"@ || entry.wuhun_category@ == "强攻系"@ || entry.wuhun_category@ == "控制系"@ || entry.wuhun_category@ == "敏攻系"@ || entry.wuhun_category@ == "辅助系"@ || entry.wuhun_category@ == "防御系"@ || entry.wuhun_category@ == "食物系"@)
    &&& 1 <= entry.ring_index <= 9
    &&& 1 <= entry.soul_power_cost <= 1000
    &&& 0 <= entry.cooldown_rounds <= 100
    &&& 1 <= entry.base_damage <= 1_000_000
    &&& 0 <= entry.spirit_ratio_percent <= 1000
    &&& 0 <= entry.strength_ratio_percent <= 1000
    &&& !content_rules::text_fails(entry.description@, 2000, true)
    &&& !(entry.starter && entry.ring_index != 1)
}

proof fn lemma_skill_entry(
    errors: Seq<Seq<char>>,
    entry: SkillPackageEntry,
    key_repeats: bool,
)
    ensures
        content_rules::skill_entry_errors(errors, entry, key_repeats).len() == 0 <==> errors.len() == 0 && skill_ok(entry) && !key_repeats,
{
}

/// The entries are in order: a soul skill.
pub open spec fn skills_ok(entries: Seq<SkillPackageEntry>) -> bool {
    &&& forall|i: int| 0 <= i < entries.len() ==> skill_ok(#[trigger] entries[i])
    &&& seen::distinct(content_rules::skill_keys(entries))
}

proof fn lemma_skill_prefix(errors: Seq<Seq<char>>,  entries: Seq<SkillPackageEntry>, count: int)
    requires
        0 <= count <= entries.len(),
    ensures
        content_rules::skill_errors(errors, entries, count).len() == 0 <==> errors.len() == 0 && (forall|i: int|
            0 <= i < count ==> skill_ok(#[trigger] entries[i]) && !seen::repeats(content_rules::skill_keys(entries), i)),
    decreases count,
{
    if count > 0 {
        lemma_skill_prefix(errors, entries, count - 1);
        lemma_skill_entry(content_rules::skill_errors(errors, entries, count - 1), entries[count - 1], seen::repeats(content_rules::skill_keys(entries), count - 1));
    }
}

pub(crate) proof fn lemma_skills(errors: Seq<Seq<char>>,  entries: Seq<SkillPackageEntry>)
    ensures
        content_rules::skill_errors(errors, entries, entries.len() as int).len() == 0 <==> errors.len() == 0 && skills_ok(entries),
{
    lemma_skill_prefix(errors, entries, entries.len() as int);
    seen::distinct_means_no_repetition(content_rules::skill_keys(entries));
}

/// What holds of the node that an effect declares.
pub open spec fn effect_node_ok(entry: EffectPackageEntry) -> bool {
    let beast_attack_reduction = content_rules::is_beast_attack_reduction(entry);
    let poison_damage = content_rules::is_poison_damage(entry);
    let stun_control = content_rules::is_stun_control(entry);
    let shield_protection = content_rules::is_shield_protection(entry);
    let heal_restore = content_rules::is_heal_restore(entry);
    let target_selection = content_rules::is_target_selection(entry);
    let forbid_skill = content_rules::is_forbid_skill(entry);
    &&& content_rules::is_key(entry.effect_key@)
    &&& content_rules::is_key(entry.skill_key@)
    &&& !(entry.trigger_kind@ != "on_release"@)
    &&& (entry.target_kind@ == "self"@ || entry.target_kind@ == "enemy"@ || entry.target_kind@ == "beast"@)
    &&& !(!beast_attack_reduction && !poison_damage && !stun_control && !shield_protection && !heal_restore && !target_selection && !forbid_skill)
}

proof fn lemma_effect_node(errors: Seq<Seq<char>>, entry: EffectPackageEntry)
    ensures
        content_rules::effect_node_errors(errors, entry).len() == 0 <==> errors.len() == 0 && effect_node_ok(entry),
{
}

/// What holds of an effect's value and stacking.
pub open spec fn effect_value_ok(entry: EffectPackageEntry) -> bool {
    let beast_attack_reduction = content_rules::is_beast_attack_reduction(entry);
    let poison_damage = content_rules::is_poison_damage(entry);
    let stun_control = content_rules::is_stun_control(entry);
    &&& !(beast_attack_reduction && !(-90 <= entry.value && entry.value <= -1))
    &&& !(poison_damage && !(1 <= entry.value && entry.value <= content::MAX_POISON_TICK_DAMAGE))
    &&& !(stun_control && entry.value != content::STUN_VALUE)
    &&& 1 <= entry.duration_rounds <= 100
    &&& !(entry.chance_percent != 100)
    &&& (entry.stack_policy@ == "strongest"@ || entry.stack_policy@ == "add"@ || entry.stack_policy@ == "refresh"@ || entry.stack_policy@ == "replace"@)
    &&& !(beast_attack_reduction && entry.parameters@.len() > 0)
}

proof fn lemma_effect_value(errors: Seq<Seq<char>>, entry: EffectPackageEntry)
    ensures
        content_rules::effect_value_errors(errors, entry).len() == 0 <==> errors.len() == 0 && effect_value_ok(entry),
{
}

/// What holds of the poison and stun rules.
pub open spec fn poison_and_stun_ok(entry: EffectPackageEntry) -> bool {
    let poison_damage = content_rules::is_poison_damage(entry);
    let stun_control = content_rules::is_stun_control(entry);
    &&& !(poison_damage && !content::poison_v1(entry.parameters@))
    &&& !(stun_control && entry.stack_policy@ != "refresh"@)
    &&& !(stun_control && !(1 <= entry.duration_rounds && entry.duration_rounds <= content::MAX_STUN_DURATION_ROUNDS))
    &&& !(stun_control && !content::stun_v1(entry.parameters@))
}

proof fn lemma_poison_and_stun(errors: Seq<Seq<char>>, entry: EffectPackageEntry)
    ensures
        content_rules::poison_and_stun_errors(errors, entry).len() == 0 <==> errors.len() == 0 && poison_and_stun_ok(entry),
{
}

/// What holds of the shield rule.
pub open spec fn shield_ok(entry: EffectPackageEntry) -> bool {
    let shield_protection = content_rules::is_shield_protection(entry);
    &&& !(shield_protection && entry.value != content::SHIELD_VALUE)
    &&& !(shield_protection && entry.stack_policy@ != "refresh"@)
    &&& !(shield_protection && !(1 <= entry.duration_rounds && entry.duration_rounds <= content::MAX_SHIELD_DURATION_ROUNDS))
    &&& !(shield_protection && !content::shield_v1(entry.parameters@))
}

proof fn lemma_shield(errors: Seq<Seq<char>>, entry: EffectPackageEntry)
    ensures
        content_rules::shield_errors(errors, entry).len() == 0 <==> errors.len() == 0 && shield_ok(entry),
{
}

/// What holds of the heal rule.
pub open spec fn heal_ok(entry: EffectPackageEntry) -> bool {
    let heal_restore = content_rules::is_heal_restore(entry);
    &&& !(heal_restore && !(1 <= entry.value && entry.value <= content::MAX_HEAL_AMOUNT))
    &&& !(heal_restore && entry.duration_rounds != 1)
    &&& !(heal_restore && entry.stack_policy@ != "add"@)
    &&& !(heal_restore && !content::heal_v1(entry.parameters@))
}

proof fn lemma_heal(errors: Seq<Seq<char>>, entry: EffectPackageEntry)
    ensures
        content_rules::heal_errors(errors, entry).len() == 0 <==> errors.len() == 0 && heal_ok(entry),
{
}

/// What holds of the skill ban rule.
pub open spec fn forbid_skill_ok(entry: EffectPackageEntry) -> bool {
    let forbid_skill = content_rules::is_forbid_skill(entry);
    &&& !(forbid_skill && entry.value != content::FORBID_SKILL_VALUE)
    &&& !(forbid_skill && !(content::MIN_FORBID_SKILL_DURATION_ROUNDS <= entry.duration_rounds && entry.duration_rounds <= content::MAX_FORBID_SKILL_DURATION_ROUNDS))
    &&& !(forbid_skill && entry.stack_policy@ != "refresh"@)
    &&& !(forbid_skill && !content::forbid_skill_v1(entry.parameters@))
}

proof fn lemma_forbid_skill(errors: Seq<Seq<char>>, entry: EffectPackageEntry)
    ensures
        content_rules::forbid_skill_errors(errors, entry).len() == 0 <==> errors.len() == 0 && forbid_skill_ok(entry),
{
}

/// What holds of the target rule.
pub open spec fn target_ok(entry: EffectPackageEntry) -> bool {
    let target_selection = content_rules::is_target_selection(entry);
    &&& !(target_selection && entry.value != content::TARGET_SELECTION_VALUE)
    &&& !(target_selection && entry.duration_rounds != 1)
    &&& !(target_selection && entry.stack_policy@ != "replace"@)
    &&& !(target_selection && !content::target_v1(entry.parameters@))
}

proof fn lemma_target(errors: Seq<Seq<char>>, entry: EffectPackageEntry)
    ensures
        content_rules::target_errors(errors, entry).len() == 0 <==> errors.len() == 0 && target_ok(entry),
{
}

/// What holds of an effect.
pub open spec fn effect_ok(entry: EffectPackageEntry) -> bool {
    &&& effect_node_ok(entry)
    &&& effect_value_ok(entry)
    &&& poison_and_stun_ok(entry)
    &&& shield_ok(entry)
    &&& heal_ok(entry)
    &&& forbid_skill_ok(entry)
    &&& target_ok(entry)
    &&& !content_rules::text_fails(entry.description@, 2000, true)
}

proof fn lemma_effect_entry(
    errors: Seq<Seq<char>>,
    entry: EffectPackageEntry,
    key_repeats: bool,
)
    ensures
        content_rules::effect_entry_errors(errors, entry, key_repeats).len() == 0 <==> errors.len() == 0 && effect_ok(entry) && !key_repeats,
{
    let errors = content_rules::noted(errors, key_repeats, "效果键重复："@ + entry.effect_key@);
    lemma_effect_node(errors, entry);
    let errors = content_rules::effect_node_errors(errors, entry);
    lemma_effect_value(errors, entry);
    let errors = content_rules::effect_value_errors(errors, entry);
    lemma_poison_and_stun(errors, entry);
    let errors = content_rules::poison_and_stun_errors(errors, entry);
    lemma_shield(errors, entry);
    let errors = content_rules::shield_errors(errors, entry);
    lemma_heal(errors, entry);
    let errors = content_rules::heal_errors(errors, entry);
    lemma_forbid_skill(errors, entry);
    let errors = content_rules::forbid_skill_errors(errors, entry);
    lemma_target(errors, entry);
    let errors = content_rules::target_errors(errors, entry);
    let errors = content_rules::text_noted(errors, "effect.description"@, entry.description@, 2000, true);
}

/// The entries are in order: an effect.
pub open spec fn effects_ok(entries: Seq<EffectPackageEntry>) -> bool {
    &&& forall|i: int| 0 <= i < entries.len() ==> effect_ok(#[trigger] entries[i])
    &&& seen::distinct(content_rules::effect_keys(entries))
}

proof fn lemma_effect_prefix(errors: Seq<Seq<char>>,  entries: Seq<EffectPackageEntry>, count: int)
    requires
        0 <= count <= entries.len(),
    ensures
        content_rules::effect_errors(errors, entries, count).len() == 0 <==> errors.len() == 0 && (forall|i: int|
            0 <= i < count ==> effect_ok(#[trigger] entries[i]) && !seen::repeats(content_rules::effect_keys(entries), i)),
    decreases count,
{
    if count > 0 {
        lemma_effect_prefix(errors, entries, count - 1);
        lemma_effect_entry(content_rules::effect_errors(errors, entries, count - 1), entries[count - 1], seen::repeats(content_rules::effect_keys(entries), count - 1));
    }
}

pub(crate) proof fn lemma_effects(errors: Seq<Seq<char>>,  entries: Seq<EffectPackageEntry>)
    ensures
        content_rules::effect_errors(errors, entries, entries.len() as int).len() == 0 <==> errors.len() == 0 && effects_ok(entries),
{
    lemma_effect_prefix(errors, entries, entries.len() as int);
    seen::distinct_means_no_repetition(content_rules::effect_keys(entries));
}

/// What holds of a soul beast.
pub open spec fn beast_ok(entry: SoulBeastPackageEntry) -> bool {
    &&& content_rules::is_key(entry.beast_key@)
    &&& !content_rules::text_fails(entry.name@, 128, true)
    &&& !content_rules::text_fails(entry.description@, 2000, true)
    &&& content_rules::is_key(entry.map_key@)
    &&& 1 <= entry.age <= 999_999
    &&& 1 <= entry.level_required <= 120
    &&& 1 <= entry.max_hp <= 1_000_000_000
    &&& 1 <= entry.attack <= 1_000_000_000
    &&& 0 <= entry.defense <= 1_000_000_000
    &&& 0 <= entry.speed <= 1_000_000_000
    &&& 1 <= entry.exp_reward <= 999_999_999
    &&& content_rules::is_key(entry.drop_item_key@)
    &&& 1 <= entry.drop_quantity <= 99
}

proof fn lemma_beast_entry(
    errors: Seq<Seq<char>>,
    entry: SoulBeastPackageEntry,
    key_repeats: bool,
)
    ensures
        content_rules::beast_entry_errors(errors, entry, key_repeats).len() == 0 <==> errors.len() == 0 && beast_ok(entry) && !key_repeats,
{
}

/// The entries are in order: a soul beast.
pub open spec fn beasts_ok(entries: Seq<SoulBeastPackageEntry>) -> bool {
    &&& forall|i: int| 0 <= i < entries.len() ==> beast_ok(#[trigger] entries[i])
    &&& seen::distinct(content_rules::beast_keys(entries))
}

proof fn lemma_beast_prefix(errors: Seq<Seq<char>>,  entries: Seq<SoulBeastPackageEntry>, count: int)
    requires
        0 <= count <= entries.len(),
    ensures
        content_rules::beast_errors(errors, entries, count).len() == 0 <==> errors.len() == 0 && (forall|i: int|
            0 <= i < count ==> beast_ok(#[trigger] entries[i]) && !seen::repeats(content_rules::beast_keys(entries), i)),
    decreases count,
{
    if count > 0 {
        lemma_beast_prefix(errors, entries, count - 1);
        lemma_beast_entry(content_rules::beast_errors(errors, entries, count - 1), entries[count - 1], seen::repeats(content_rules::beast_keys(entries), count - 1));
    }
}

pub(crate) proof fn lemma_beasts(errors: Seq<Seq<char>>,  entries: Seq<SoulBeastPackageEntry>)
    ensures
        content_rules::beast_errors(errors, entries, entries.len() as int).len() == 0 <==> errors.len() == 0 && beasts_ok(entries),
{
    lemma_beast_prefix(errors, entries, entries.len() as int);
    seen::distinct_means_no_repetition(content_rules::beast_keys(entries));
}

/// What holds of a soul ring.
pub open spec fn ring_ok(entry: SoulRingPackageEntry) -> bool {
    &&& content_rules::is_key(entry.ring_key@)
    &&& !content_rules::text_fails(entry.name@, 128, true)
    &&& content_rules::is_key(entry.soul_beast_key@)
    &&& content_rules::is_key(entry.skill_key@)
    &&& 1 <= entry.ring_index <= 9
    &&& 1 <= entry.age <= 1_000_000_000
    &&& (entry.color@ == "white"@ || entry.color@ == "yellow"@ || entry.color@ == "purple"@ || entry.color@ == "black"@ || entry.color@ == "red"@)
    &&& !content_rules::text_fails(entry.description@, 2000, true)
}

proof fn lemma_ring_entry(
    errors: Seq<Seq<char>>,
    entry: SoulRingPackageEntry,
    key_repeats: bool,
)
    ensures
        content_rules::ring_entry_errors(errors, entry, key_repeats).len() == 0 <==> errors.len() == 0 && ring_ok(entry) && !key_repeats,
{
}

/// The entries are in order: a soul ring.
pub open spec fn rings_ok(entries: Seq<SoulRingPackageEntry>) -> bool {
    &&& forall|i: int| 0 <= i < entries.len() ==> ring_ok(#[trigger] entries[i])
    &&& seen::distinct(content_rules::ring_keys(entries))
}

proof fn lemma_ring_prefix(errors: Seq<Seq<char>>,  entries: Seq<SoulRingPackageEntry>, count: int)
    requires
        0 <= count <= entries.len(),
    ensures
        content_rules::ring_errors(errors, entries, count).len() == 0 <==> errors.len() == 0 && (forall|i: int|
            0 <= i < count ==> ring_ok(#[trigger] entries[i]) && !seen::repeats(content_rules::ring_keys(entries), i)),
    decreases count,
{
    if count > 0 {
        lemma_ring_prefix(errors, entries, count - 1);
        lemma_ring_entry(content_rules::ring_errors(errors, entries, count - 1), entries[count - 1], seen::repeats(content_rules::ring_keys(entries), count - 1));
    }
}

pub(crate) proof fn lemma_rings(errors: Seq<Seq<char>>,  entries: Seq<SoulRingPackageEntry>)
    ensures
        content_rules::ring_errors(errors, entries, entries.len() as int).len() == 0 <==> errors.len() == 0 && rings_ok(entries),
{
    lemma_ring_prefix(errors, entries, entries.len() as int);
    seen::distinct_means_no_repetition(content_rules::ring_keys(entries));
}

/// A key of a transition: any text for a wuhun, else a content key.
pub open spec fn transition_key_ok(entity_kind: Seq<char>, value: Seq<char>) -> bool {
    if entity_kind == "wuhun"@ {
        !content_rules::text_fails(value, 200, true)
    } else {
        content_rules::is_key(value)
    }
}

/// What holds of a transition.
pub open spec fn transition_ok(entry: ContentTransitionPackageEntry) -> bool {
    &&& (entry.entity_kind@ == "wuhun"@ || entry.entity_kind@ == "skill"@ || entry.entity_kind@
        == "effect"@ || entry.entity_kind@ == "beast"@ || entry.entity_kind@ == "ring"@)
    &&& transition_key_ok(entry.entity_kind@, entry.source_key@)
    &&& !content_rules::text_fails(entry.reason@, 512, true)
    &&& match entry.target_key {
        Some(target) => {
            &&& entry.transition_kind@ == "replaced"@
            &&& transition_key_ok(entry.entity_kind@, target@)
            &&& entry.source_key@ != target@
        },
        None => entry.transition_kind@ == "deprecated"@,
    }
}

/// The transitions are in order.
pub open spec fn transitions_ok(entries: Seq<ContentTransitionPackageEntry>) -> bool {
    &&& forall|i: int| 0 <= i < entries.len() ==> transition_ok(#[trigger] entries[i])
    &&& seen::distinct(content_rules::transition_sources(entries))
    &&& seen::distinct(content_rules::transition_targets(entries, entries.len() as int))
}

proof fn lemma_transition_entry(
    errors: Seq<Seq<char>>,
    entry: ContentTransitionPackageEntry,
    source_repeats: bool,
    target_repeats: bool,
)
    requires
        target_repeats ==> entry.target_key is Some,
    ensures
        content_rules::transition_entry_errors(errors, entry, source_repeats, target_repeats).len() == 0
            <==> errors.len() == 0 && transition_ok(entry) && !source_repeats && !target_repeats,
{
    reveal_strlit("deprecated");
    reveal_strlit("replaced");
    assert("deprecated"@.len() == 10 && "replaced"@.len() == 8);
}

proof fn lemma_transition_prefix(
    errors: Seq<Seq<char>>,
    entries: Seq<ContentTransitionPackageEntry>,
    count: int,
)
    requires
        0 <= count <= entries.len(),
    ensures
        content_rules::transition_errors(errors, entries, count).len() == 0 <==> errors.len() == 0 && (forall|
            i: int,
        |
            0 <= i < count ==> transition_ok(#[trigger] entries[i]) && !seen::repeats(
                content_rules::transition_sources(entries),
                i,
            )) && seen::distinct(content_rules::transition_targets(entries, count)),
    decreases count,
{
    if count > 0 {
        let i = count - 1;
        lemma_transition_prefix(errors, entries, i);
        lemma_transition_entry(
            content_rules::transition_errors(errors, entries, i),
            entries[i],
            seen::repeats(content_rules::transition_sources(entries), i),
            content_rules::target_repeats(entries, i),
        );
        let earlier = content_rules::transition_targets(entries, i);
        match entries[i].target_key {
            Some(target) => {
                let id = content_rules::transition_id(entries[i].entity_kind@, target@);
                seen::distinct_after_push(earlier, id);
            },
            None => {},
        }
    }
}

pub(crate) proof fn lemma_transitions(errors: Seq<Seq<char>>, entries: Seq<ContentTransitionPackageEntry>)
    ensures
        content_rules::transition_errors(errors, entries, entries.len() as int).len() == 0 <==> errors.len() == 0
            && transitions_ok(entries),
{
    lemma_transition_prefix(errors, entries, entries.len() as int);
    seen::distinct_means_no_repetition(content_rules::transition_sources(entries));
}

/// What holds of the fields in a package's head.
pub open spec fn head_ok(package: ContentPackage) -> bool {
    &&& content_rules::is_key(package.package_key@)
    &&& package.revision > 0
    &&& !content_rules::text_fails(package.author@, 200, true)
    &&& !content_rules::text_fails(package.minimum_runtime@, 64, false)
    &&& 1 <= content_rules::entry_count(package) <= 10_000
}

/// A package whose fields and entries all keep the rules of the catalogue.
pub open spec fn well_shaped(package: ContentPackage) -> bool {
    &&& head_ok(package)
    &&& maps_ok(package.maps@)
    &&& items_ok(package.items@)
    &&& npcs_ok(package.npcs@)
    &&& quests_ok(package.quests@)
    &&& curves_ok(package.numeric_curves@)
    &&& wuhuns_ok(package.wuhun@)
    &&& skills_ok(package.skills@)
    &&& effects_ok(package.effects@)
    &&& beasts_ok(package.soul_beasts@)
    &&& rings_ok(package.soul_rings@)
    &&& transitions_ok(package.transitions@)
}

pub(crate) proof fn lemma_head(package: ContentPackage)
    ensures
        content_rules::head_errors(package).len() == 0 <==> head_ok(package),
{
    if content_rules::is_key(package.package_key@) {
        content_rules::keys_are_plain(package.package_key@);
    }
}

/// A package has no shape errors exactly when it is well shaped: nothing else is
/// refused, and nothing less is accepted.
pub proof fn no_errors_means_well_shaped(package: ContentPackage)
    ensures
        content_rules::shape_errors(package).len() == 0 <==> well_shaped(package),
{
    lemma_head(package);
    let errors = content_rules::head_errors(package);
    lemma_maps(errors, package.maps@);
    let errors = content_rules::map_errors(errors, package.maps@, package.maps@.len() as int);
    lemma_items(errors, package.items@);
    let errors = content_rules::item_errors(errors, package.items@, package.items@.len() as int);
    lemma_npcs(errors, package.npcs@);
    let errors = content_rules::npc_errors(errors, package.npcs@, package.npcs@.len() as int);
    lemma_quests(errors, package.quests@);
    let errors = content_rules::quest_errors(errors, package.quests@, package.quests@.len() as int);
    lemma_curves(errors, package.numeric_curves@);
    let errors = content_rules::curve_errors(
        errors,
        package.numeric_curves@,
        package.numeric_curves@.len() as int,
    );
    lemma_wuhuns(errors, package.wuhun@);
    let errors = content_rules::wuhun_errors(errors, package.wuhun@, package.wuhun@.len() as int);
    lemma_skills(errors, package.skills@);
    let errors = content_rules::skill_errors(errors, package.skills@, package.skills@.len() as int);
    lemma_effects(errors, package.effects@);
    let errors = content_rules::effect_errors(errors, package.effects@, package.effects@.len() as int);
    lemma_beasts(errors, package.soul_beasts@);
    let errors = content_rules::beast_errors(errors, package.soul_beasts@, package.soul_beasts@.len() as int);
    lemma_rings(errors, package.soul_rings@);
    let errors = content_rules::ring_errors(errors, package.soul_rings@, package.soul_rings@.len() as int);
    lemma_transitions(errors, package.transitions@);
}

} // verus!
