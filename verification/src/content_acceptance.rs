//! What a content package is accepted for, field by field.
use crate::content;
use crate::content::{
    ContentPackage, ContentTransitionPackageEntry, EffectPackageEntry, EffectParameter,
    ItemPackageEntry, MapPackageEntry, NpcPackageEntry, NumericCurvePackageEntry, ParameterValue,
    QuestPackageEntry, QuestRequirementPackageEntry, QuestRewardPackageEntry, SkillPackageEntry,
    SoulBeastPackageEntry, SoulRingPackageEntry, WuhunPackageEntry,
};
use crate::content_laws;
use crate::content_rules;
use crate::seen;
use crate::text;
use vstd::prelude::*;

verus! {

/// Maps are accepted exactly when each one keeps its own rules and no two have the same
/// map key or the same name or the same sort order; nothing else about them matters.
pub proof fn maps_are_accepted_by_their_own_fields(entries: Seq<MapPackageEntry>)
    ensures
        content_rules::map_errors(Seq::empty(), entries, entries.len() as int).len() == 0 <==> {
            &&& forall|i: int|
                #![trigger entries[i]]
                0 <= i < entries.len() ==> {
                    &&& content_rules::is_key(entries[i].map_key@)
                    &&& !content_rules::text_fails(entries[i].name@, 128, true)
                    &&& !content_rules::text_fails(entries[i].description@, 2000, true)
                    &&& 1 <= entries[i].level_required <= 120
                    &&& entries[i].sort_order >= 0
                }
            &&& forall|i: int, j: int|
                #![trigger entries[i], entries[j]]
                0 <= i < j < entries.len() ==> entries[i].map_key@ != entries[j].map_key@
            &&& forall|i: int, j: int|
                #![trigger entries[i], entries[j]]
                0 <= i < j < entries.len() ==> entries[i].name@ != entries[j].name@
            &&& forall|i: int, j: int|
                #![trigger entries[i], entries[j]]
                0 <= i < j < entries.len() ==> entries[i].sort_order != entries[j].sort_order
        },
{
    content_laws::lemma_maps(Seq::empty(), entries);
    let list = content_rules::map_keys(entries);
    assert forall|i: int| 0 <= i < entries.len() implies #[trigger] list[i] == entries[i].map_key@ by {}
    if seen::distinct(list) {
        assert forall|i: int, j: int|
            #![trigger entries[i], entries[j]]
            0 <= i < j < entries.len() implies entries[i].map_key@ != entries[j].map_key@ by {
            assert(list[i] != list[j]);
        }
    }
    let list = content_rules::map_names(entries);
    assert forall|i: int| 0 <= i < entries.len() implies #[trigger] list[i] == entries[i].name@ by {}
    if seen::distinct(list) {
        assert forall|i: int, j: int|
            #![trigger entries[i], entries[j]]
            0 <= i < j < entries.len() implies entries[i].name@ != entries[j].name@ by {
            assert(list[i] != list[j]);
        }
    }
    let list = content_rules::map_orders(entries);
    assert forall|i: int| 0 <= i < entries.len() implies #[trigger] list[i] == entries[i].sort_order by {}
    if seen::distinct(list) {
        assert forall|i: int, j: int|
            #![trigger entries[i], entries[j]]
            0 <= i < j < entries.len() implies entries[i].sort_order != entries[j].sort_order by {
            assert(list[i] != list[j]);
        }
    }
}

/// Items are accepted exactly when each one keeps its own rules and no two have the same
/// item key or the same name; nothing else about them matters.
pub proof fn items_are_accepted_by_their_own_fields(entries: Seq<ItemPackageEntry>)
    ensures
        content_rules::item_errors(Seq::empty(), entries, entries.len() as int).len() == 0 <==> {
            &&& forall|i: int|
                #![trigger entries[i]]
                0 <= i < entries.len() ==> {
                    &&& content_rules::is_key(entries[i].item_key@)
                    &&& !content_rules::text_fails(entries[i].name@, 128, true)
                    &&& (entries[i].category@ == "revival"@ || entries[i].category@ == "consumable"@)
                    &&& 1 <= entries[i].quality <= 5
                    &&& 1 <= entries[i].max_stack <= 9999
                    &&& !(!entries[i].stackable && entries[i].max_stack != 1)
                    &&& entries[i].buy_price >= 0
                    &&& !(entries[i].sell_price < 0 || entries[i].sell_price > entries[i].buy_price)
                    &&& 1 <= entries[i].level_required <= 120
                    &&& (entries[i].effect_kind@ == "revive"@ || entries[i].effect_kind@ == "restore_hp"@ || entries[i].effect_kind@ == "restore_soul"@)
                    &&& (entries[i].effect_kind@ == "revive"@ ==> entries[i].effect_amount == 0 && 1 <= entries[i].revive_hp_percent <= 100)
                    &&& (entries[i].effect_kind@ == "restore_hp"@ || entries[i].effect_kind@ == "restore_soul"@ ==> 1 <= entries[i].effect_amount <= 1_000_000 && entries[i].revive_hp_percent == 0)
                    &&& !content_rules::text_fails(entries[i].description@, 2000, false)
                }
            &&& forall|i: int, j: int|
                #![trigger entries[i], entries[j]]
                0 <= i < j < entries.len() ==> entries[i].item_key@ != entries[j].item_key@
            &&& forall|i: int, j: int|
                #![trigger entries[i], entries[j]]
                0 <= i < j < entries.len() ==> entries[i].name@ != entries[j].name@
        },
{
    content_laws::lemma_items(Seq::empty(), entries);
    let list = content_rules::item_keys(entries);
    assert forall|i: int| 0 <= i < entries.len() implies #[trigger] list[i] == entries[i].item_key@ by {}
    if seen::distinct(list) {
        assert forall|i: int, j: int|
            #![trigger entries[i], entries[j]]
            0 <= i < j < entries.len() implies entries[i].item_key@ != entries[j].item_key@ by {
            assert(list[i] != list[j]);
        }
    }
    let list = content_rules::item_names(entries);
    assert forall|i: int| 0 <= i < entries.len() implies #[trigger] list[i] == entries[i].name@ by {}
    if seen::distinct(list) {
        assert forall|i: int, j: int|
            #![trigger entries[i], entries[j]]
            0 <= i < j < entries.len() implies entries[i].name@ != entries[j].name@ by {
            assert(list[i] != list[j]);
        }
    }
}

/// NPCs are accepted exactly when each one keeps its own rules and no two have the same
/// npc key or the same name on a map; nothing else about them matters.
pub proof fn npcs_are_accepted_by_their_own_fields(entries: Seq<NpcPackageEntry>)
    ensures
        content_rules::npc_errors(Seq::empty(), entries, entries.len() as int).len() == 0 <==> {
            &&& forall|i: int|
                #![trigger entries[i]]
                0 <= i < entries.len() ==> {
                    &&& content_rules::is_key(entries[i].npc_key@)
                    &&& content_rules::is_key(entries[i].map_key@)
                    &&& !content_rules::text_fails(entries[i].name@, 128, true)
                    &&& (entries[i].npc_kind@ == "elder"@ || entries[i].npc_kind@ == "merchant"@)
                    &&& !content_rules::text_fails(entries[i].dialogue@, 2000, false)
                    &&& !content_rules::text_fails(entries[i].description@, 2000, false)
                    &&& entries[i].enabled
                    &&& entries[i].sort_order >= 0
                }
            &&& forall|i: int, j: int|
                #![trigger entries[i], entries[j]]
                0 <= i < j < entries.len() ==> entries[i].npc_key@ != entries[j].npc_key@
            &&& forall|i: int, j: int|
                #![trigger entries[i], entries[j]]
                0 <= i < j < entries.len() ==> entries[i].map_key@ != entries[j].map_key@ || entries[i].name@ != entries[j].name@
        },
{
    content_laws::lemma_npcs(Seq::empty(), entries);
    let list = content_rules::npc_keys(entries);
    assert forall|i: int| 0 <= i < entries.len() implies #[trigger] list[i] == entries[i].npc_key@ by {}
    if seen::distinct(list) {
        assert forall|i: int, j: int|
            #![trigger entries[i], entries[j]]
            0 <= i < j < entries.len() implies entries[i].npc_key@ != entries[j].npc_key@ by {
            assert(list[i] != list[j]);
        }
    }
    let list = content_rules::npc_names(entries);
    assert forall|i: int| 0 <= i < entries.len() implies #[trigger] list[i] == (entries[i].map_key@, entries[i].name@) by {}
    if seen::distinct(list) {
        assert forall|i: int, j: int|
            #![trigger entries[i], entries[j]]
            0 <= i < j < entries.len() implies entries[i].map_key@ != entries[j].map_key@ || entries[i].name@ != entries[j].name@ by {
            assert(list[i] != list[j]);
        }
    }
}

/// Conditions of a quest are accepted exactly when each one keeps its own rules and no two have the same
/// sort order; nothing else about them matters.
pub proof fn requirements_are_accepted_by_their_own_fields(quest_key: String, entries: Seq<QuestRequirementPackageEntry>)
    ensures
        content_rules::requirement_errors(Seq::empty(), quest_key, entries, entries.len() as int).len() == 0 <==> {
            &&& forall|i: int|
                #![trigger entries[i]]
                0 <= i < entries.len() ==> {
                    &&& (entries[i].requirement_kind@ == "item"@ || entries[i].requirement_kind@ == "visit"@ || entries[i].requirement_kind@ == "level"@)
                    &&& (entries[i].requirement_kind@ == "item"@ || entries[i].requirement_kind@ == "visit"@ ==> content_rules::is_key(entries[i].target_key@))
                    &&& (entries[i].requirement_kind@ == "level"@ ==> entries[i].target_key@ == "level"@)
                    &&& 1 <= entries[i].required_quantity <= 9999
                    &&& entries[i].sort_order >= 0
                    &&& !content_rules::text_fails(entries[i].description@, 500, false)
                }
            &&& forall|i: int, j: int|
                #![trigger entries[i], entries[j]]
                0 <= i < j < entries.len() ==> entries[i].sort_order != entries[j].sort_order
        },
{
    content_laws::lemma_requirements(Seq::empty(), quest_key, entries);
    let list = content_rules::requirement_orders(entries);
    assert forall|i: int| 0 <= i < entries.len() implies #[trigger] list[i] == entries[i].sort_order by {}
    if seen::distinct(list) {
        assert forall|i: int, j: int|
            #![trigger entries[i], entries[j]]
            0 <= i < j < entries.len() implies entries[i].sort_order != entries[j].sort_order by {
            assert(list[i] != list[j]);
        }
    }
}

/// Rewards of a quest are accepted exactly when each one keeps its own rules and no two have the same
/// sort order; nothing else about them matters.
pub proof fn rewards_are_accepted_by_their_own_fields(quest_key: String, entries: Seq<QuestRewardPackageEntry>)
    ensures
        content_rules::reward_errors(Seq::empty(), quest_key, entries, entries.len() as int).len() == 0 <==> {
            &&& forall|i: int|
                #![trigger entries[i]]
                0 <= i < entries.len() ==> {
                    &&& (entries[i].reward_kind@ == "exp"@ || entries[i].reward_kind@ == "currency"@ || entries[i].reward_kind@ == "item"@)
                    &&& (entries[i].reward_kind@ == "exp"@ ==> entries[i].currency_code is None && entries[i].item_key is None)
                    &&& (entries[i].reward_kind@ == "currency"@ ==> text::optional_text(entries[i].currency_code) == Some("gold_soul_coin"@) && entries[i].item_key is None)
                    &&& (entries[i].reward_kind@ == "item"@ ==> entries[i].currency_code is None && entries[i].item_key is Some && content_rules::is_key(entries[i].item_key->0@))
                    &&& 1 <= entries[i].amount <= 999_999_999
                    &&& entries[i].sort_order >= 0
                    &&& !content_rules::text_fails(entries[i].description@, 500, false)
                }
            &&& forall|i: int, j: int|
                #![trigger entries[i], entries[j]]
                0 <= i < j < entries.len() ==> entries[i].sort_order != entries[j].sort_order
        },
{
    content_laws::lemma_rewards(Seq::empty(), quest_key, entries);
    let list = content_rules::reward_orders(entries);
    assert forall|i: int| 0 <= i < entries.len() implies #[trigger] list[i] == entries[i].sort_order by {}
    if seen::distinct(list) {
        assert forall|i: int, j: int|
            #![trigger entries[i], entries[j]]
            0 <= i < j < entries.len() implies entries[i].sort_order != entries[j].sort_order by {
            assert(list[i] != list[j]);
        }
    }
}

/// Quests are accepted exactly when each one keeps its own rules and no two have the same
/// quest key or the same name; nothing else about them matters.
pub proof fn quests_are_accepted_by_their_own_fields(entries: Seq<QuestPackageEntry>)
    ensures
        content_rules::quest_errors(Seq::empty(), entries, entries.len() as int).len() == 0 <==> {
            &&& forall|i: int|
                #![trigger entries[i]]
                0 <= i < entries.len() ==> {
                    &&& content_rules::is_key(entries[i].quest_key@)
                    &&& !content_rules::text_fails(entries[i].name@, 128, true)
                    &&& !content_rules::text_fails(entries[i].description@, 2000, true)
                    &&& (entries[i].category@ == "main"@ || entries[i].category@ == "side"@ || entries[i].category@ == "daily"@)
                    &&& (entries[i].map_key is Some ==> content_rules::is_key(entries[i].map_key->0@))
                    &&& 1 <= entries[i].level_required <= 120
                    &&& !entries[i].repeatable
                    &&& entries[i].enabled
                    &&& !(entries[i].requirements@.len() == 0)
                    &&& !(entries[i].requirements@.len() > 100)
                    &&& content_rules::requirement_errors(Seq::empty(), entries[i].quest_key, entries[i].requirements@, entries[i].requirements@.len() as int).len() == 0
                    &&& !(entries[i].rewards@.len() == 0)
                    &&& !(entries[i].rewards@.len() > 100)
                    &&& content_rules::reward_errors(Seq::empty(), entries[i].quest_key, entries[i].rewards@, entries[i].rewards@.len() as int).len() == 0
                }
            &&& forall|i: int, j: int|
                #![trigger entries[i], entries[j]]
                0 <= i < j < entries.len() ==> entries[i].quest_key@ != entries[j].quest_key@
            &&& forall|i: int, j: int|
                #![trigger entries[i], entries[j]]
                0 <= i < j < entries.len() ==> entries[i].name@ != entries[j].name@
        },
{
    content_laws::lemma_quests(Seq::empty(), entries);
    assert forall|i: int|
        #![trigger entries[i]]
        0 <= i < entries.len() implies (content_laws::requirements_ok(entries[i].requirements@)
        <==> content_rules::requirement_errors(Seq::empty(), entries[i].quest_key, entries[i].requirements@, entries[i].requirements@.len() as int).len() == 0) && (content_laws::rewards_ok(entries[i].rewards@)
        <==> content_rules::reward_errors(Seq::empty(), entries[i].quest_key, entries[i].rewards@, entries[i].rewards@.len() as int).len() == 0) by {
        content_laws::lemma_requirements(Seq::empty(), entries[i].quest_key, entries[i].requirements@);
        content_laws::lemma_rewards(Seq::empty(), entries[i].quest_key, entries[i].rewards@);
    }
    let list = content_rules::quest_keys(entries);
    assert forall|i: int| 0 <= i < entries.len() implies #[trigger] list[i] == entries[i].quest_key@ by {}
    if seen::distinct(list) {
        assert forall|i: int, j: int|
            #![trigger entries[i], entries[j]]
            0 <= i < j < entries.len() implies entries[i].quest_key@ != entries[j].quest_key@ by {
            assert(list[i] != list[j]);
        }
    }
    let list = content_rules::quest_names(entries);
    assert forall|i: int| 0 <= i < entries.len() implies #[trigger] list[i] == entries[i].name@ by {}
    if seen::distinct(list) {
        assert forall|i: int, j: int|
            #![trigger entries[i], entries[j]]
            0 <= i < j < entries.len() implies entries[i].name@ != entries[j].name@ by {
            assert(list[i] != list[j]);
        }
    }
}

/// Numeric curves are accepted exactly when each one keeps its own rules and no two have the same
/// curve key or the same name or the same sort order; nothing else about them matters.
pub proof fn curves_are_accepted_by_their_own_fields(entries: Seq<NumericCurvePackageEntry>)
    ensures
        content_rules::curve_errors(Seq::empty(), entries, entries.len() as int).len() == 0 <==> {
            &&& forall|i: int|
                #![trigger entries[i]]
                0 <= i < entries.len() ==> {
                    &&& content_rules::is_key(entries[i].curve_key@)
                    &&& !content_rules::text_fails(entries[i].name@, 128, true)
                    &&& !content_rules::text_fails(entries[i].unit@, 32, true)
                    &&& content_rules::is_key(entries[i].reference_key@)
                    &&& (entries[i].reference_key@ == "player-level-exp-v1"@ || entries[i].reference_key@ == "skill-proficiency-v1"@ || entries[i].reference_key@ == "skill-damage-percent-v1"@)
                    &&& entries[i].range_min >= 1
                    &&& !(entries[i].range_max < entries[i].range_min)
                    &&& entries[i].sort_order >= 0
                    &&& !content_rules::text_fails(entries[i].description@, 2000, true)
                }
            &&& forall|i: int, j: int|
                #![trigger entries[i], entries[j]]
                0 <= i < j < entries.len() ==> entries[i].curve_key@ != entries[j].curve_key@
            &&& forall|i: int, j: int|
                #![trigger entries[i], entries[j]]
                0 <= i < j < entries.len() ==> entries[i].name@ != entries[j].name@
            &&& forall|i: int, j: int|
                #![trigger entries[i], entries[j]]
                0 <= i < j < entries.len() ==> entries[i].sort_order != entries[j].sort_order
        },
{
    content_laws::lemma_curves(Seq::empty(), entries);
    let list = content_rules::curve_keys(entries);
    assert forall|i: int| 0 <= i < entries.len() implies #[trigger] list[i] == entries[i].curve_key@ by {}
    if seen::distinct(list) {
        assert forall|i: int, j: int|
            #![trigger entries[i], entries[j]]
            0 <= i < j < entries.len() implies entries[i].curve_key@ != entries[j].curve_key@ by {
            assert(list[i] != list[j]);
        }
    }
    let list = content_rules::curve_names(entries);
    assert forall|i: int| 0 <= i < entries.len() implies #[trigger] list[i] == entries[i].name@ by {}
    if seen::distinct(list) {
        assert forall|i: int, j: int|
            #![trigger entries[i], entries[j]]
            0 <= i < j < entries.len() implies entries[i].name@ != entries[j].name@ by {
            assert(list[i] != list[j]);
        }
    }
    let list = content_rules::curve_orders(entries);
    assert forall|i: int| 0 <= i < entries.len() implies #[trigger] list[i] == entries[i].sort_order by {}
    if seen::distinct(list) {
        assert forall|i: int, j: int|
            #![trigger entries[i], entries[j]]
            0 <= i < j < entries.len() implies entries[i].sort_order != entries[j].sort_order by {
            assert(list[i] != list[j]);
        }
    }
}

/// Wuhun are accepted exactly when each one keeps its own rules and no two have the same
/// name; nothing else about them matters.
pub proof fn wuhun_are_accepted_by_their_own_fields(entries: Seq<WuhunPackageEntry>)
    ensures
        content_rules::wuhun_errors(Seq::empty(), entries, entries.len() as int).len() == 0 <==> {
            &&& forall|i: int|
                #![trigger entries[i]]
                0 <= i < entries.len() ==> {
                    &&& !content_rules::text_fails(entries[i].name@, 128, true)
                    &&& !content_rules::text_fails(entries[i].category@, 32, true)
                    &&& (entries[i].category@ == "强攻系"@ || entries[i].category@ == "控制系"@ || entries[i].category@ == "敏攻系"@ || entries[i].category@ == "辅助系"@ || entries[i].category@ == "防御系"@ || entries[i].category@ == "食物系"@)
                    &&& !content_rules::text_fails(entries[i].form@, 128, true)
                    &&& !content_rules::text_fails(entries[i].description@, 2000, true)
                    &&& !(entries[i].weight <= 0)
                    &&& 1 <= entries[i].stats.attack_percent <= 500
                    &&& 1 <= entries[i].stats.defense_percent <= 500
                    &&& 1 <= entries[i].stats.strength_percent <= 500
                    &&& 1 <= entries[i].stats.agility_percent <= 500
                    &&& 1 <= entries[i].stats.spirit_percent <= 500
                    &&& 1 <= entries[i].stats.endurance_percent <= 500
                    &&& 1 <= entries[i].stats.perception_percent <= 500
                    &&& 1 <= entries[i].stats.luck_percent <= 500
                }
            &&& forall|i: int, j: int|
                #![trigger entries[i], entries[j]]
                0 <= i < j < entries.len() ==> entries[i].name@ != entries[j].name@
        },
{
    content_laws::lemma_wuhuns(Seq::empty(), entries);
    let list = content_rules::wuhun_names(entries);
    assert forall|i: int| 0 <= i < entries.len() implies #[trigger] list[i] == entries[i].name@ by {}
    if seen::distinct(list) {
        assert forall|i: int, j: int|
            #![trigger entries[i], entries[j]]
            0 <= i < j < entries.len() implies entries[i].name@ != entries[j].name@ by {
            assert(list[i] != list[j]);
        }
    }
}

/// Soul skills are accepted exactly when each one keeps its own rules and no two have the same
/// skill key; nothing else about them matters.
pub proof fn skills_are_accepted_by_their_own_fields(entries: Seq<SkillPackageEntry>)
    ensures
        content_rules::skill_errors(Seq::empty(), entries, entries.len() as int).len() == 0 <==> {
            &&& forall|i: int|
                #![trigger entries[i]]
                0 <= i < entries.len() ==> {
                    &&& content_rules::is_key(entries[i].skill_key@)
                    &&& !content_rules::text_fails(entries[i].name@, 128, true)
                    &&& (entries[i].skill_type@ == "active"@ || entries[i].skill_type@ == "passive"@ || entries[i].skill_type@ == "domain"@ || entries[i].skill_type@ == "ultimate"@)
                    &&& (entries[i].wuhun_category@ == "all"@ || entries[i].wuhun_category@ == "强攻系"@ || entries[i].wuhun_category@ == "控制系"@ || entries[i].wuhun_category@ == "敏攻系"@ || entries[i].wuhun_category@ == "辅助系"@ || entries[i].wuhun_category@ == "防御系"@ || entries[i].wuhun_category@ == "食物系"@)
                    &&& 1 <= entries[i].ring_index <= 9
                    &&& 1 <= entries[i].soul_power_cost <= 1000
                    &&& 0 <= entries[i].cooldown_rounds <= 100
                    &&& 1 <= entries[i].base_damage <= 1_000_000
                    &&& 0 <= entries[i].spirit_ratio_percent <= 1000
                    &&& 0 <= entries[i].strength_ratio_percent <= 1000
                    &&& !content_rules::text_fails(entries[i].description@, 2000, true)
                    &&& !(entries[i].starter && entries[i].ring_index != 1)
                }
            &&& forall|i: int, j: int|
                #![trigger entries[i], entries[j]]
                0 <= i < j < entries.len() ==> entries[i].skill_key@ != entries[j].skill_key@
        },
{
    content_laws::lemma_skills(Seq::empty(), entries);
    let list = content_rules::skill_keys(entries);
    assert forall|i: int| 0 <= i < entries.len() implies #[trigger] list[i] == entries[i].skill_key@ by {}
    if seen::distinct(list) {
        assert forall|i: int, j: int|
            #![trigger entries[i], entries[j]]
            0 <= i < j < entries.len() implies entries[i].skill_key@ != entries[j].skill_key@ by {
            assert(list[i] != list[j]);
        }
    }
}

/// Soul beasts are accepted exactly when each one keeps its own rules and no two have the same
/// beast key; nothing else about them matters.
pub proof fn beasts_are_accepted_by_their_own_fields(entries: Seq<SoulBeastPackageEntry>)
    ensures
        content_rules::beast_errors(Seq::empty(), entries, entries.len() as int).len() == 0 <==> {
            &&& forall|i: int|
                #![trigger entries[i]]
                0 <= i < entries.len() ==> {
                    &&& content_rules::is_key(entries[i].beast_key@)
                    &&& !content_rules::text_fails(entries[i].name@, 128, true)
                    &&& !content_rules::text_fails(entries[i].description@, 2000, true)
                    &&& content_rules::is_key(entries[i].map_key@)
                    &&& 1 <= entries[i].age <= 999_999
                    &&& 1 <= entries[i].level_required <= 120
                    &&& 1 <= entries[i].max_hp <= 1_000_000_000
                    &&& 1 <= entries[i].attack <= 1_000_000_000
                    &&& 0 <= entries[i].defense <= 1_000_000_000
                    &&& 0 <= entries[i].speed <= 1_000_000_000
                    &&& 1 <= entries[i].exp_reward <= 999_999_999
                    &&& content_rules::is_key(entries[i].drop_item_key@)
                    &&& 1 <= entries[i].drop_quantity <= 99
                }
            &&& forall|i: int, j: int|
                #![trigger entries[i], entries[j]]
                0 <= i < j < entries.len() ==> entries[i].beast_key@ != entries[j].beast_key@
        },
{
    content_laws::lemma_beasts(Seq::empty(), entries);
    let list = content_rules::beast_keys(entries);
    assert forall|i: int| 0 <= i < entries.len() implies #[trigger] list[i] == entries[i].beast_key@ by {}
    if seen::distinct(list) {
        assert forall|i: int, j: int|
            #![trigger entries[i], entries[j]]
            0 <= i < j < entries.len() implies entries[i].beast_key@ != entries[j].beast_key@ by {
            assert(list[i] != list[j]);
        }
    }
}

/// Soul rings are accepted exactly when each one keeps its own rules and no two have the same
/// ring key; nothing else about them matters.
pub proof fn rings_are_accepted_by_their_own_fields(entries: Seq<SoulRingPackageEntry>)
    ensures
        content_rules::ring_errors(Seq::empty(), entries, entries.len() as int).len() == 0 <==> {
            &&& forall|i: int|
                #![trigger entries[i]]
                0 <= i < entries.len() ==> {
                    &&& content_rules::is_key(entries[i].ring_key@)
                    &&& !content_rules::text_fails(entries[i].name@, 128, true)
                    &&& content_rules::is_key(entries[i].soul_beast_key@)
                    &&& content_rules::is_key(entries[i].skill_key@)
                    &&& 1 <= entries[i].ring_index <= 9
                    &&& 1 <= entries[i].age <= 1_000_000_000
                    &&& (entries[i].color@ == "white"@ || entries[i].color@ == "yellow"@ || entries[i].color@ == "purple"@ || entries[i].color@ == "black"@ || entries[i].color@ == "red"@)
                    &&& !content_rules::text_fails(entries[i].description@, 2000, true)
                }
            &&& forall|i: int, j: int|
                #![trigger entries[i], entries[j]]
                0 <= i < j < entries.len() ==> entries[i].ring_key@ != entries[j].ring_key@
        },
{
    content_laws::lemma_rings(Seq::empty(), entries);
    let list = content_rules::ring_keys(entries);
    assert forall|i: int| 0 <= i < entries.len() implies #[trigger] list[i] == entries[i].ring_key@ by {}
    if seen::distinct(list) {
        assert forall|i: int, j: int|
            #![trigger entries[i], entries[j]]
            0 <= i < j < entries.len() implies entries[i].ring_key@ != entries[j].ring_key@ by {
            assert(list[i] != list[j]);
        }
    }
}

/// A content key starts with a small letter, has at most 96 characters, and holds nothing
/// but small letters, digits, dots, underscores and hyphens.
pub proof fn content_keys_are_short_and_plain(value: Seq<char>)
    ensures
        content_rules::is_key(value) <==> 1 <= value.len() <= 96 && 'a' <= value[0] <= 'z' && (
        forall|i: int|
            0 <= i < value.len() ==> {
                let c = #[trigger] value[i];
                'a' <= c <= 'z' || '0' <= c <= '9' || c == '.' || c == '_' || c == '-'
            }),
{
}

/// A text of a package is refused exactly when it is too long, holds a character between
/// U+0000 and U+001F or between U+007F and U+009F, or has to say something and holds
/// nothing but white space.
pub proof fn texts_of_a_package_are_short_and_printable(
    value: Seq<char>,
    max_chars: nat,
    required: bool,
)
    ensures
        !content_rules::text_fails(value, max_chars, required) <==> value.len() <= max_chars && (
        forall|i: int|
            0 <= i < value.len() ==> {
                let c = (#[trigger] value[i]) as int;
                0x20 <= c < 0x7f || c > 0x9f
            }) && (required ==> exists|i: int|
            0 <= i < value.len() && !text::is_white(#[trigger] value[i])),
{
    text::blank_means_all_white(value);
    if text::has_control(value) {
        let i = choose|i: int| 0 <= i < value.len() && text::is_control(#[trigger] value[i]);
        let c = value[i] as int;
        assert(!(0x20 <= c < 0x7f || c > 0x9f));
    }
}

/// A rule of an effect is declared by naming each of its parameters, with its value, and
/// nothing else.
spec fn names_one(parameters: Seq<EffectParameter>, name: Seq<char>, value: ParameterValue) -> bool {
    exists|i: int|
        0 <= i < parameters.len() && (#[trigger] parameters[i]).name@ == name
            && parameters[i].value == value
}

proof fn lemma_parameter(parameters: Seq<EffectParameter>, name: Seq<char>)
    ensures
        match content::parameter(parameters, name) {
            Some(value) => names_one(parameters, name, value),
            None => forall|i: int|
                0 <= i < parameters.len() ==> (#[trigger] parameters[i]).name@ != name,
        },
    decreases parameters.len(),
{
    if parameters.len() > 0 && parameters[0].name@ != name {
        let rest = parameters.skip(1);
        lemma_parameter(rest, name);
        match content::parameter(rest, name) {
            Some(value) => {
                let i = choose|i: int|
                    0 <= i < rest.len() && (#[trigger] rest[i]).name@ == name && rest[i].value
                        == value;
                assert(parameters[i + 1].name@ == name);
            },
            None => {
                assert forall|i: int| 0 <= i < parameters.len() implies (
                #[trigger] parameters[i]).name@ != name by {
                    if i > 0 {
                        assert(rest[i - 1].name@ != name);
                    }
                }
            },
        }
    }
}

/// What an effect declares is what one of its parameters says.
pub proof fn declared_parameters_are_among_the_parameters(
    parameters: Seq<EffectParameter>,
    name: Seq<char>,
    value: Seq<char>,
    number: int,
)
    ensures
        content::declares_text(parameters, name, value) ==> exists|i: int|
            0 <= i < parameters.len() && (#[trigger] parameters[i]).name@ == name && (
            parameters[i].value matches ParameterValue::Text(text) && text@ == value),
        content::declares_integer(parameters, name, number) ==> exists|i: int|
            0 <= i < parameters.len() && (#[trigger] parameters[i]).name@ == name && (
            parameters[i].value matches ParameterValue::Integer(n) && n == number),
        parameters.len() > 0 && parameters[0].name@ == name && (
        parameters[0].value matches ParameterValue::Text(text) && text@ == value)
            ==> content::declares_text(parameters, name, value),
        parameters.len() > 0 && parameters[0].name@ != name ==> content::declares_text(
            parameters,
            name,
            value,
        ) == content::declares_text(parameters.skip(1), name, value)
            && content::declares_integer(parameters, name, number) == content::declares_integer(
            parameters.skip(1),
            name,
            number,
        ),
{
    lemma_parameter(parameters, name);
}

/// The rules that an effect can declare are known by their versions and by what they say,
/// and no list of parameters declares two of them.
pub proof fn rules_of_effects_are_declared_word_for_word(parameters: Seq<EffectParameter>)
    ensures
        content::poison_v1(parameters) <==> parameters.len() == 3 && content::declares_text(
            parameters,
            "rule_version"@,
            "poison-v1"@,
        ) && content::declares_text(parameters, "tick_phase"@, "after_player_damage"@)
            && content::declares_integer(parameters, "tick_interval"@, 1),
        content::stun_v1(parameters) <==> parameters.len() == 3 && content::declares_text(
            parameters,
            "rule_version"@,
            "stun-v1"@,
        ) && content::declares_text(parameters, "apply_phase"@, "after_player_damage"@)
            && content::declares_text(parameters, "counterattack"@, "skip"@),
        content::shield_v1(parameters) <==> parameters.len() == 3 && content::declares_text(
            parameters,
            "rule_version"@,
            "shield-v1"@,
        ) && content::declares_text(parameters, "apply_phase"@, "after_player_damage"@)
            && content::declares_text(parameters, "counterattack"@, "absorb"@),
        content::heal_v1(parameters) <==> parameters.len() == 3 && content::declares_text(
            parameters,
            "rule_version"@,
            "heal-v1"@,
        ) && content::declares_text(parameters, "apply_phase"@, "after_player_damage"@)
            && content::declares_text(parameters, "overflow"@, "cap_at_max_hp"@),
        content::target_v1(parameters) <==> parameters.len() == 2 && content::declares_text(
            parameters,
            "rule_version"@,
            "target-v1"@,
        ) && content::declares_text(parameters, "selector"@, "current_battle_beast"@),
        content::forbid_skill_v1(parameters) <==> parameters.len() == 3 && content::declares_text(
            parameters,
            "rule_version"@,
            "forbid-skill-v1"@,
        ) && content::declares_text(parameters, "apply_phase"@, "before_player_action"@)
            && content::declares_text(parameters, "blocked_action"@, "release_skill"@),
{
}

/// Effects are accepted exactly when each one has keys of its own, is released by a skill
/// with certainty, stacks in a known way, and is one of the seven known effects with the
/// target, the value, the duration and the parameters of that effect; and no two have the
/// same effect key.
#[verifier::rlimit(40)]
pub proof fn effects_are_accepted_by_their_own_fields(entries: Seq<EffectPackageEntry>)
    ensures
        content_rules::effect_errors(Seq::empty(), entries, entries.len() as int).len() == 0 <==> {
            &&& forall|i: int|
                #![trigger entries[i]]
                0 <= i < entries.len() ==> {
                    let kind = (
                        entries[i].operation@,
                        entries[i].attribute_key@,
                        entries[i].value_mode@,
                    );
                    let target = entries[i].target_kind@;
                    let value = entries[i].value;
                    let rounds = entries[i].duration_rounds;
                    let policy = entries[i].stack_policy@;
                    let parameters = entries[i].parameters@;
                    &&& content_rules::is_key(entries[i].effect_key@)
                    &&& content_rules::is_key(entries[i].skill_key@)
                    &&& entries[i].trigger_kind@ == "on_release"@
                    &&& target == "self"@ || target == "enemy"@ || target == "beast"@
                    &&& entries[i].chance_percent == 100
                    &&& 1 <= rounds <= 100
                    &&& policy == "strongest"@ || policy == "add"@ || policy == "refresh"@
                        || policy == "replace"@
                    &&& !content_rules::text_fails(entries[i].description@, 2000, true)
                    &&& {
                        ||| kind == ("modify_stat"@, "beast_attack"@, "percent_delta"@) && -90
                            <= value <= -1 && parameters.len() == 0
                        ||| kind == ("deal_damage"@, "beast_hp"@, "absolute"@) && target
                            == "beast"@ && 1 <= value <= 1_000_000 && content::poison_v1(parameters)
                        ||| kind == ("control"@, "stunned"@, "absolute"@) && target == "beast"@
                            && value == 1 && rounds <= 10 && policy == "refresh"@
                            && content::stun_v1(parameters)
                        ||| kind == ("absorb_damage"@, "beast_counterattack"@, "absolute"@)
                            && target == "self"@ && value == 1 && rounds <= 10 && policy
                            == "refresh"@ && content::shield_v1(parameters)
                        ||| kind == ("restore"@, "player_hp"@, "absolute"@) && target == "self"@
                            && 1 <= value <= 1_000_000 && rounds == 1 && policy == "add"@
                            && content::heal_v1(parameters)
                        ||| kind == ("select_target"@, "battle_target"@, "absolute"@) && target
                            == "beast"@ && value == 1 && rounds == 1 && policy == "replace"@
                            && content::target_v1(parameters)
                        ||| kind == ("control"@, "skill_usage"@, "absolute"@) && target == "self"@
                            && value == 1 && 2 <= rounds <= 10 && policy == "refresh"@
                            && content::forbid_skill_v1(parameters)
                    }
                }
            &&& forall|i: int, j: int|
                #![trigger entries[i], entries[j]]
                0 <= i < j < entries.len() ==> entries[i].effect_key@ != entries[j].effect_key@
        },
{
    content_laws::lemma_effects(Seq::empty(), entries);
    reveal_strlit("modify_stat");
    reveal_strlit("deal_damage");
    reveal_strlit("control");
    reveal_strlit("absorb_damage");
    reveal_strlit("restore");
    reveal_strlit("select_target");
    reveal_strlit("stunned");
    reveal_strlit("skill_usage");
    assert("modify_stat"@[0] == 'm' && "deal_damage"@[0] == 'd' && "control"@[0] == 'c');
    assert("absorb_damage"@[0] == 'a' && "restore"@[0] == 'r' && "select_target"@[0] == 's');
    assert("stunned"@.len() != "skill_usage"@.len());
    let list = content_rules::effect_keys(entries);
    assert forall|i: int| 0 <= i < entries.len() implies #[trigger] list[i]
        == entries[i].effect_key@ by {}
    if seen::distinct(list) {
        assert forall|i: int, j: int|
            #![trigger entries[i], entries[j]]
            0 <= i < j < entries.len() implies entries[i].effect_key@ != entries[j].effect_key@ by {
            assert(list[i] != list[j]);
        }
    }
}

proof fn lemma_ids(left: Seq<char>, left_key: Seq<char>, right: Seq<char>, right_key: Seq<char>)
    requires
        text::lacks(left, ':'),
        text::lacks(right, ':'),
    ensures
        content_rules::transition_id(left, left_key) == content_rules::transition_id(
            right,
            right_key,
        ) <==> left == right && left_key == right_key,
{
    reveal_strlit(":");
    let a = content_rules::transition_id(left, left_key);
    let b = content_rules::transition_id(right, right_key);
    if a == b {
        assert(a[left.len() as int] == ':');
        assert(b[right.len() as int] == ':');
        if left.len() < right.len() {
            assert(b[left.len() as int] == right[left.len() as int]);
        }
        if right.len() < left.len() {
            assert(a[right.len() as int] == left[right.len() as int]);
        }
        let n = left.len() as int;
        assert(left =~= a.take(n));
        assert(right =~= b.take(n));
        assert(left_key =~= a.skip(n + 1));
        assert(right_key =~= b.skip(n + 1));
    }
}

proof fn lemma_kind_lacks_colon(kind: Seq<char>)
    requires
        kind == "wuhun"@ || kind == "skill"@ || kind == "effect"@ || kind == "beast"@ || kind
            == "ring"@,
    ensures
        text::lacks(kind, ':'),
{
    reveal_strlit("wuhun");
    reveal_strlit("skill");
    reveal_strlit("effect");
    reveal_strlit("beast");
    reveal_strlit("ring");
}

/// Whether the entry before a place has the id as its target.
spec fn targets_id(entries: Seq<ContentTransitionPackageEntry>, i: int, id: Seq<char>) -> bool {
    entries[i].target_key matches Some(target) && content_rules::transition_id(
        entries[i].entity_kind@,
        target@,
    ) == id
}

proof fn lemma_targets(entries: Seq<ContentTransitionPackageEntry>, count: int)
    requires
        0 <= count <= entries.len(),
    ensures
        forall|id: Seq<char>| #[trigger]
            content_rules::transition_targets(entries, count).contains(id) <==> exists|i: int|
                0 <= i < count && #[trigger] targets_id(entries, i, id),
        seen::distinct(content_rules::transition_targets(entries, count)) <==> forall|
            i: int,
            j: int,
        |
            #![trigger entries[i], entries[j]]
            0 <= i < j < count && entries[j].target_key is Some ==> !targets_id(
                entries,
                i,
                content_rules::transition_id(
                    entries[j].entity_kind@,
                    (entries[j].target_key->0)@,
                ),
            ),
    decreases count,
{
    if count > 0 {
        let n = count - 1;
        lemma_targets(entries, n);
        let earlier = content_rules::transition_targets(entries, n);
        let all = content_rules::transition_targets(entries, count);
        match entries[n].target_key {
            Some(target) => {
                let last = content_rules::transition_id(entries[n].entity_kind@, target@);
                assert(all == earlier.push(last));
                seen::distinct_after_push(earlier, last);
                assert forall|id: Seq<char>| #[trigger] all.contains(id) <==> exists|i: int|
                    0 <= i < count && #[trigger] targets_id(entries, i, id) by {
                    if all.contains(id) {
                        if id == last {
                            assert(targets_id(entries, n, id));
                        } else {
                            let k = choose|k: int| 0 <= k < all.len() && all[k] == id;
                            assert(earlier[k] == id);
                            assert(earlier.contains(id));
                        }
                    }
                    if exists|i: int| 0 <= i < count && #[trigger] targets_id(entries, i, id) {
                        let i = choose|i: int|
                            0 <= i < count && #[trigger] targets_id(entries, i, id);
                        if i == n {
                            assert(all[earlier.len() as int] == id);
                        } else {
                            assert(earlier.contains(id));
                            let k = choose|k: int| 0 <= k < earlier.len() && earlier[k] == id;
                            assert(all[k] == id);
                        }
                    }
                }
                if seen::distinct(all) {
                    assert forall|i: int, j: int|
                        #![trigger entries[i], entries[j]]
                        0 <= i < j < count && entries[j].target_key is Some implies !targets_id(
                        entries,
                        i,
                        content_rules::transition_id(
                            entries[j].entity_kind@,
                            (entries[j].target_key->0)@,
                        ),
                    ) by {
                        if j == n && targets_id(entries, i, last) {
                            assert(earlier.contains(last));
                        }
                    }
                } else {
                    if seen::distinct(earlier) {
                        assert(earlier.contains(last));
                        let i = choose|i: int|
                            0 <= i < n && #[trigger] targets_id(entries, i, last);
                        assert(entries[i] == entries[i] && entries[n] == entries[n]);
                    }
                }
            },
            None => {
                assert forall|id: Seq<char>| #[trigger] all.contains(id) <==> exists|i: int|
                    0 <= i < count && #[trigger] targets_id(entries, i, id) by {
                    if exists|i: int| 0 <= i < count && #[trigger] targets_id(entries, i, id) {
                        let i = choose|i: int|
                            0 <= i < count && #[trigger] targets_id(entries, i, id);
                        assert(i < n);
                    }
                }
            },
        }
    }
}

/// Transitions are accepted exactly when each one names a known kind and a key of that
/// kind, a reason, and either another key that replaces it or that it is deprecated; and
/// no two of one kind have the same source or the same target.
#[verifier::rlimit(40)]
pub proof fn transitions_are_accepted_by_their_own_fields(
    entries: Seq<ContentTransitionPackageEntry>,
)
    ensures
        content_rules::transition_errors(Seq::empty(), entries, entries.len() as int).len() == 0
            <==> {
            &&& forall|i: int|
                #![trigger entries[i]]
                0 <= i < entries.len() ==> {
                    let kind = entries[i].entity_kind@;
                    &&& kind == "wuhun"@ || kind == "skill"@ || kind == "effect"@ || kind
                        == "beast"@ || kind == "ring"@
                    &&& if kind == "wuhun"@ {
                        !content_rules::text_fails(entries[i].source_key@, 200, true)
                    } else {
                        content_rules::is_key(entries[i].source_key@)
                    }
                    &&& !content_rules::text_fails(entries[i].reason@, 512, true)
                    &&& match entries[i].target_key {
                        None => entries[i].transition_kind@ == "deprecated"@,
                        Some(target) => {
                            &&& entries[i].transition_kind@ == "replaced"@
                            &&& target@ != entries[i].source_key@
                            &&& if kind == "wuhun"@ {
                                !content_rules::text_fails(target@, 200, true)
                            } else {
                                content_rules::is_key(target@)
                            }
                        },
                    }
                }
            &&& forall|i: int, j: int|
                #![trigger entries[i], entries[j]]
                0 <= i < j < entries.len() && entries[i].entity_kind@ == entries[j].entity_kind@
                    ==> entries[i].source_key@ != entries[j].source_key@ && (
                entries[i].target_key is Some && entries[j].target_key is Some ==> (
                entries[i].target_key->0)@ != (entries[j].target_key->0)@)
        },
{
    content_laws::lemma_transitions(Seq::empty(), entries);
    lemma_targets(entries, entries.len() as int);
    let list = content_rules::transition_sources(entries);
    assert forall|i: int| 0 <= i < entries.len() implies #[trigger] list[i]
        == content_rules::transition_id(entries[i].entity_kind@, entries[i].source_key@) by {}
    if forall|i: int| 0 <= i < entries.len() ==> content_laws::transition_ok(#[trigger] entries[i]) {
        assert forall|i: int, j: int|
            #![trigger entries[i], entries[j]]
            0 <= i < j < entries.len() implies (list[i] == list[j] <==> entries[i].entity_kind@
            == entries[j].entity_kind@ && entries[i].source_key@ == entries[j].source_key@) && (
        entries[i].target_key is Some && entries[j].target_key is Some ==> (targets_id(
            entries,
            i,
            content_rules::transition_id(entries[j].entity_kind@, (entries[j].target_key->0)@),
        ) <==> entries[i].entity_kind@ == entries[j].entity_kind@ && (entries[i].target_key->0)@
            == (entries[j].target_key->0)@)) by {
            assert(content_laws::transition_ok(entries[i]));
            assert(content_laws::transition_ok(entries[j]));
            lemma_kind_lacks_colon(entries[i].entity_kind@);
            lemma_kind_lacks_colon(entries[j].entity_kind@);
            lemma_ids(
                entries[i].entity_kind@,
                entries[i].source_key@,
                entries[j].entity_kind@,
                entries[j].source_key@,
            );
            if entries[i].target_key is Some && entries[j].target_key is Some {
                lemma_ids(
                    entries[i].entity_kind@,
                    (entries[i].target_key->0)@,
                    entries[j].entity_kind@,
                    (entries[j].target_key->0)@,
                );
            }
        }
        if seen::distinct(list) {
            assert forall|i: int, j: int|
                #![trigger entries[i], entries[j]]
                0 <= i < j < entries.len() && entries[i].entity_kind@ == entries[j].entity_kind@
                implies entries[i].source_key@ != entries[j].source_key@ by {
                assert(list[i] != list[j]);
            }
        } else {
            let (i, j) = choose|i: int, j: int|
                0 <= i < j < list.len() && list[i] == list[j];
            assert(entries[i] == entries[i] && entries[j] == entries[j]);
        }
    } else {
        let i = choose|i: int|
            0 <= i < entries.len() && !content_laws::transition_ok(#[trigger] entries[i]);
        assert(entries[i] == entries[i]);
    }
}

/// A package is accepted exactly when its head is in order, it holds between one and ten
/// thousand entries in all, and each of its lists is accepted by itself.
pub proof fn packages_are_accepted_part_by_part(package: ContentPackage)
    ensures
        content_rules::shape_errors(package).len() == 0 <==> {
            let total = package.maps@.len() + package.items@.len() + package.npcs@.len()
                + package.quests@.len() + package.numeric_curves@.len() + package.wuhun@.len()
                + package.skills@.len() + package.effects@.len() + package.soul_beasts@.len()
                + package.soul_rings@.len() + package.transitions@.len();
            let none = Seq::<Seq<char>>::empty();
            &&& content_rules::is_key(package.package_key@)
            &&& package.revision >= 1
            &&& !content_rules::text_fails(package.author@, 200, true)
            &&& !content_rules::text_fails(package.minimum_runtime@, 64, false)
            &&& 1 <= total <= 10_000
            &&& content_rules::map_errors(none, package.maps@, package.maps@.len() as int).len()
                == 0
            &&& content_rules::item_errors(none, package.items@, package.items@.len() as int).len()
                == 0
            &&& content_rules::npc_errors(none, package.npcs@, package.npcs@.len() as int).len()
                == 0
            &&& content_rules::quest_errors(
                none,
                package.quests@,
                package.quests@.len() as int,
            ).len() == 0
            &&& content_rules::curve_errors(
                none,
                package.numeric_curves@,
                package.numeric_curves@.len() as int,
            ).len() == 0
            &&& content_rules::wuhun_errors(none, package.wuhun@, package.wuhun@.len() as int).len()
                == 0
            &&& content_rules::skill_errors(
                none,
                package.skills@,
                package.skills@.len() as int,
            ).len() == 0
            &&& content_rules::effect_errors(
                none,
                package.effects@,
                package.effects@.len() as int,
            ).len() == 0
            &&& content_rules::beast_errors(
                none,
                package.soul_beasts@,
                package.soul_beasts@.len() as int,
            ).len() == 0
            &&& content_rules::ring_errors(
                none,
                package.soul_rings@,
                package.soul_rings@.len() as int,
            ).len() == 0
            &&& content_rules::transition_errors(
                none,
                package.transitions@,
                package.transitions@.len() as int,
            ).len() == 0
        },
{
    let none = Seq::<Seq<char>>::empty();
    content_laws::no_errors_means_well_shaped(package);
    content_laws::lemma_head(package);
    content_laws::lemma_maps(none, package.maps@);
    content_laws::lemma_items(none, package.items@);
    content_laws::lemma_npcs(none, package.npcs@);
    content_laws::lemma_quests(none, package.quests@);
    content_laws::lemma_curves(none, package.numeric_curves@);
    content_laws::lemma_wuhuns(none, package.wuhun@);
    content_laws::lemma_skills(none, package.skills@);
    content_laws::lemma_effects(none, package.effects@);
    content_laws::lemma_beasts(none, package.soul_beasts@);
    content_laws::lemma_rings(none, package.soul_rings@);
    content_laws::lemma_transitions(none, package.transitions@);
}

} // verus!
