//! What is told of the faults of a package.
use crate::content;
use crate::content::{
    EffectPackageEntry, ItemPackageEntry, MapPackageEntry, NpcPackageEntry,
    NumericCurvePackageEntry, QuestPackageEntry, QuestRequirementPackageEntry,
    QuestRewardPackageEntry, SkillPackageEntry, SoulBeastPackageEntry, SoulRingPackageEntry,
    WuhunPackageEntry, WuhunStatsPackageEntry,
};
use crate::content_rules;
use crate::seen;
use crate::text;
use vstd::prelude::*;

verus! {

/// What is told first stands at the head of what is told in the end.
#[verifier::opaque]
spec fn within(first: Seq<Seq<char>>, all: Seq<Seq<char>>) -> bool {
    first.is_prefix_of(all)
}

/// A message is told.
#[verifier::opaque]
spec fn tells(all: Seq<Seq<char>>, message: Seq<char>) -> bool {
    all.contains(message)
}

proof fn lemma_restoring_is_not_reviving()
    ensures
        "revive"@ != "restore_hp"@,
        "revive"@ != "restore_soul"@,
{
    reveal_strlit("revive");
    reveal_strlit("restore_hp");
    reveal_strlit("restore_soul");
    assert("revive"@.len() == 6 && "restore_hp"@.len() == 10 && "restore_soul"@.len() == 12);
}

proof fn lemma_noted(errors: Seq<Seq<char>>, failed: bool, message: Seq<char>)
    ensures
        within(errors, content_rules::noted(errors, failed, message)),
        failed ==> tells(content_rules::noted(errors, failed, message), message),
{
    reveal(within);
    reveal(tells);
    let told = content_rules::noted(errors, failed, message);
    if failed {
        assert(told[errors.len() as int] == message);
    }
}

proof fn lemma_within(a: Seq<Seq<char>>, b: Seq<Seq<char>>, c: Seq<Seq<char>>)
    requires
        within(a, b),
        within(b, c),
    ensures
        within(a, c),
{
    reveal(within);
    assert(c.subrange(0, a.len() as int) =~= b.subrange(0, a.len() as int));
}

proof fn lemma_same(a: Seq<Seq<char>>)
    ensures
        within(a, a),
{
    reveal(within);
}

proof fn lemma_head(a: Seq<Seq<char>>, b: Seq<Seq<char>>)
    ensures
        within(a, b) <==> a.is_prefix_of(b),
{
    reveal(within);
}

proof fn lemma_still(a: Seq<Seq<char>>, b: Seq<Seq<char>>, message: Seq<char>)
    requires
        within(a, b),
    ensures
        tells(a, message) ==> tells(b, message) && b.contains(message),
{
    reveal(within);
    reveal(tells);
    if a.contains(message) {
        let i = choose|i: int| 0 <= i < a.len() && a[i] == message;
        assert(b.subrange(0, a.len() as int)[i] == b[i]);
    }
}

/// Each fault of a map is told in its own words, behind those that were told before.
pub proof fn faults_of_maps_are_told(
    errors: Seq<Seq<char>>,
    entry: MapPackageEntry,
    key_repeats: bool,
    name_repeats: bool,
    order_repeats: bool,
)
    ensures
        ({
            let told = content_rules::map_entry_errors(
                errors,
                entry,
                key_repeats,
                name_repeats,
                order_repeats,
            );
            &&& errors.is_prefix_of(told)
            &&& key_repeats ==> told.contains("地图键重复："@ + entry.map_key@)
            &&& name_repeats ==> told.contains("地图名称重复："@ + entry.name@)
            &&& order_repeats ==> told.contains("地图排序重复："@ + text::integer(entry.sort_order as int))
            &&& !content_rules::is_key(entry.map_key@) ==> told.contains(
                "map.map_key"@ + " 不是合法小写内容键"@,
            )
            &&& (text::is_blank(entry.name@) || entry.name@.len() > 128 || text::has_control(entry.name@)) ==> told.contains(
                "map.name"@ + " 为空、过长或包含控制字符"@,
            )
            &&& (text::is_blank(entry.description@) || entry.description@.len() > 2000 || text::has_control(entry.description@)) ==> told.contains(
                "map.description"@ + " 为空、过长或包含控制字符"@,
            )
            &&& (entry.level_required < 1 || entry.level_required > 120) ==> told.contains(
                "map.level_required"@ + "("@ + entry.map_key@ + ") 必须在 "@ + text::integer(1)
                    + " 到 "@ + text::integer(120) + " 之间"@,
            )
            &&& entry.sort_order < 0 ==> told.contains(
                "地图 "@ + entry.map_key@ + " 的 sort_order 不能为负数"@,
            )
        }),
{
    let e1 = content_rules::noted(errors, key_repeats, "地图键重复："@ + entry.map_key@);
    lemma_noted(errors, key_repeats, "地图键重复："@ + entry.map_key@);
    let e2 = content_rules::noted(e1, name_repeats, "地图名称重复："@ + entry.name@);
    lemma_noted(e1, name_repeats, "地图名称重复："@ + entry.name@);
    let e3 = content_rules::noted(
        e2,
        order_repeats,
        "地图排序重复："@ + text::integer(entry.sort_order as int),
    );
    lemma_noted(e2, order_repeats, "地图排序重复："@ + text::integer(entry.sort_order as int));
    let e4 = content_rules::key_noted(e3, "map.map_key"@, entry.map_key@);
    lemma_noted(e3, !content_rules::is_key(entry.map_key@), "map.map_key"@ + " 不是合法小写内容键"@);
    let e5 = content_rules::text_noted(e4, "map.name"@, entry.name@, 128, true);
    lemma_noted(
        e4,
        text::is_blank(entry.name@) || entry.name@.len() > 128 || text::has_control(entry.name@),
        "map.name"@ + " 为空、过长或包含控制字符"@,
    );
    let e6 = content_rules::text_noted(e5, "map.description"@, entry.description@, 2000, true);
    lemma_noted(
        e5,
        text::is_blank(entry.description@) || entry.description@.len() > 2000 || text::has_control(entry.description@),
        "map.description"@ + " 为空、过长或包含控制字符"@,
    );
    let e7 = content_rules::range_noted(
        e6,
        "map.level_required"@,
        entry.map_key@,
        entry.level_required as int,
        1,
        120,
    );
    lemma_noted(
        e6,
        entry.level_required < 1 || entry.level_required > 120,
        "map.level_required"@ + "("@ + entry.map_key@ + ") 必须在 "@ + text::integer(1) + " 到 "@
            + text::integer(120) + " 之间"@,
    );
    let e8 = content_rules::noted(
        e7,
        entry.sort_order < 0,
        "地图 "@ + entry.map_key@ + " 的 sort_order 不能为负数"@,
    );
    lemma_noted(e7, entry.sort_order < 0, "地图 "@ + entry.map_key@ + " 的 sort_order 不能为负数"@);
    lemma_within(e6, e7, e8);
    lemma_within(e5, e6, e8);
    lemma_within(e4, e5, e8);
    lemma_within(e3, e4, e8);
    lemma_within(e2, e3, e8);
    lemma_within(e1, e2, e8);
    lemma_within(errors, e1, e8);
    lemma_still(e1, e8, "地图键重复："@ + entry.map_key@);
    lemma_still(e2, e8, "地图名称重复："@ + entry.name@);
    lemma_still(e3, e8, "地图排序重复："@ + text::integer(entry.sort_order as int));
    lemma_still(e4, e8, "map.map_key"@ + " 不是合法小写内容键"@);
    lemma_still(e5, e8, "map.name"@ + " 为空、过长或包含控制字符"@);
    lemma_still(e6, e8, "map.description"@ + " 为空、过长或包含控制字符"@);
    lemma_still(
        e7,
        e8,
        "map.level_required"@ + "("@ + entry.map_key@ + ") 必须在 "@ + text::integer(1) + " 到 "@
            + text::integer(120) + " 之间"@,
    );
    lemma_same(e8);
    lemma_still(e8, e8, "地图 "@ + entry.map_key@ + " 的 sort_order 不能为负数"@);
    lemma_head(errors, e8);
}

proof fn lemma_restored(errors: Seq<Seq<char>>, entry: ItemPackageEntry)
    ensures
        ({
            let told = if entry.effect_kind@ == "revive"@ { let errors = content_rules::noted(errors, entry.effect_amount != 0, "复活物品 "@ + entry.item_key@ + " 的 effect_amount 必须为 0"@); content_rules::range_noted(errors, "item.revive_hp_percent"@, entry.item_key@, entry.revive_hp_percent as int, 1, 100) } else if entry.effect_kind@ == "restore_hp"@ || entry.effect_kind@ == "restore_soul"@ { let errors = content_rules::range_noted(errors, "item.effect_amount"@, entry.item_key@, entry.effect_amount as int, 1, 1_000_000); content_rules::noted(errors, entry.revive_hp_percent != 0, "恢复物品 "@ + entry.item_key@ + " 的 revive_hp_percent 必须为 0"@) } else { errors };
            &&& within(errors, told)
            &&& entry.effect_kind@ == "revive"@ && entry.effect_amount != 0 ==> tells(
                told,
                "复活物品 "@ + entry.item_key@ + " 的 effect_amount 必须为 0"@,
            )
            &&& entry.effect_kind@ == "revive"@ && (entry.revive_hp_percent < 1 || entry.revive_hp_percent > 100) ==> tells(
                told,
                "item.revive_hp_percent"@ + "("@ + entry.item_key@ + ") 必须在 "@ + text::integer(1)
                + " 到 "@ + text::integer(100) + " 之间"@,
            )
            &&& (entry.effect_kind@ == "restore_hp"@ || entry.effect_kind@ == "restore_soul"@) && (entry.effect_amount < 1 || entry.effect_amount > 1_000_000) ==> tells(
                told,
                "item.effect_amount"@ + "("@ + entry.item_key@ + ") 必须在 "@ + text::integer(1)
                + " 到 "@ + text::integer(1_000_000) + " 之间"@,
            )
            &&& (entry.effect_kind@ == "restore_hp"@ || entry.effect_kind@ == "restore_soul"@) && entry.revive_hp_percent != 0 ==> tells(
                told,
                "恢复物品 "@ + entry.item_key@ + " 的 revive_hp_percent 必须为 0"@,
            )
        }),
{
    lemma_restoring_is_not_reviving();
    lemma_same(errors);
    let e12 = errors;
    let e13 = if entry.effect_kind@ == "revive"@ { let e12 = content_rules::noted(e12, entry.effect_amount != 0, "复活物品 "@ + entry.item_key@ + " 的 effect_amount 必须为 0"@); content_rules::range_noted(e12, "item.revive_hp_percent"@, entry.item_key@, entry.revive_hp_percent as int, 1, 100) } else if entry.effect_kind@ == "restore_hp"@ || entry.effect_kind@ == "restore_soul"@ { let e12 = content_rules::range_noted(e12, "item.effect_amount"@, entry.item_key@, entry.effect_amount as int, 1, 1_000_000); content_rules::noted(e12, entry.revive_hp_percent != 0, "恢复物品 "@ + entry.item_key@ + " 的 revive_hp_percent 必须为 0"@) } else { e12 };
    if entry.effect_kind@ == "revive"@ {
        let e14 = content_rules::noted(
            e12,
            entry.effect_amount != 0,
            "复活物品 "@ + entry.item_key@ + " 的 effect_amount 必须为 0"@,
        );
        lemma_noted(
            e12,
            entry.effect_amount != 0,
            "复活物品 "@ + entry.item_key@ + " 的 effect_amount 必须为 0"@,
        );
        let e15 = content_rules::range_noted(
            e14,
            "item.revive_hp_percent"@,
            entry.item_key@,
            entry.revive_hp_percent as int,
            1,
            100,
        );
        lemma_noted(
            e14,
            entry.revive_hp_percent < 1 || entry.revive_hp_percent > 100,
            "item.revive_hp_percent"@ + "("@ + entry.item_key@ + ") 必须在 "@ + text::integer(1)
                + " 到 "@ + text::integer(100) + " 之间"@,
        );
        lemma_within(e12, e14, e15);
        lemma_still(e14, e15, "复活物品 "@ + entry.item_key@ + " 的 effect_amount 必须为 0"@);
        lemma_same(e15);
        lemma_still(
            e15,
            e15,
            "item.revive_hp_percent"@ + "("@ + entry.item_key@ + ") 必须在 "@ + text::integer(1)
                + " 到 "@ + text::integer(100) + " 之间"@,
        );
        assert(e15 == e13);
    }
    if entry.effect_kind@ == "restore_hp"@ || entry.effect_kind@ == "restore_soul"@ {
        let e16 = content_rules::range_noted(
            e12,
            "item.effect_amount"@,
            entry.item_key@,
            entry.effect_amount as int,
            1,
            1_000_000,
        );
        lemma_noted(
            e12,
            entry.effect_amount < 1 || entry.effect_amount > 1_000_000,
            "item.effect_amount"@ + "("@ + entry.item_key@ + ") 必须在 "@ + text::integer(1)
                + " 到 "@ + text::integer(1_000_000) + " 之间"@,
        );
        let e17 = content_rules::noted(
            e16,
            entry.revive_hp_percent != 0,
            "恢复物品 "@ + entry.item_key@ + " 的 revive_hp_percent 必须为 0"@,
        );
        lemma_noted(
            e16,
            entry.revive_hp_percent != 0,
            "恢复物品 "@ + entry.item_key@ + " 的 revive_hp_percent 必须为 0"@,
        );
        lemma_within(e12, e16, e17);
        lemma_still(
            e16,
            e17,
            "item.effect_amount"@ + "("@ + entry.item_key@ + ") 必须在 "@ + text::integer(1)
                + " 到 "@ + text::integer(1_000_000) + " 之间"@,
        );
        lemma_same(e17);
        lemma_still(e17, e17, "恢复物品 "@ + entry.item_key@ + " 的 revive_hp_percent 必须为 0"@);
        assert(e17 == e13);
    }
}

/// Each fault of a thing is told in its own words, behind those that were told before.
#[verifier::rlimit(60)]
pub proof fn faults_of_things_are_told(
    errors: Seq<Seq<char>>,
    entry: ItemPackageEntry,
    key_repeats: bool,
    name_repeats: bool,
)
    ensures
        ({
            let told = content_rules::item_entry_errors(errors, entry, key_repeats, name_repeats);
            &&& errors.is_prefix_of(told)
            &&& key_repeats ==> told.contains("物品键重复："@ + entry.item_key@)
            &&& name_repeats ==> told.contains("物品名称重复："@ + entry.name@)
            &&& !content_rules::is_key(entry.item_key@) ==> told.contains(
                "item.item_key"@ + " 不是合法小写内容键"@,
            )
            &&& (text::is_blank(entry.name@) || entry.name@.len() > 128 || text::has_control(entry.name@)) ==> told.contains(
                "item.name"@ + " 为空、过长或包含控制字符"@,
            )
            &&& (!(entry.category@ == "revival"@ || entry.category@ == "consumable"@)) ==> told.contains(
                "物品 "@ + entry.item_key@ + " 的 category 不受支持"@,
            )
            &&& (entry.quality < 1 || entry.quality > 5) ==> told.contains(
                "item.quality"@ + "("@ + entry.item_key@ + ") 必须在 "@ + text::integer(1) + " 到 "@
                    + text::integer(5) + " 之间"@,
            )
            &&& (entry.max_stack < 1 || entry.max_stack > 9999) ==> told.contains(
                "item.max_stack"@ + "("@ + entry.item_key@ + ") 必须在 "@ + text::integer(1)
                    + " 到 "@ + text::integer(9999) + " 之间"@,
            )
            &&& !entry.stackable && entry.max_stack != 1 ==> told.contains(
                "物品 "@ + entry.item_key@ + " 不可堆叠时 max_stack 必须为 1"@,
            )
            &&& entry.buy_price < 0 ==> told.contains(
                "物品 "@ + entry.item_key@ + " 的 buy_price 不能为负数"@,
            )
            &&& (entry.sell_price < 0 || entry.sell_price > entry.buy_price) ==> told.contains(
                "物品 "@ + entry.item_key@ + " 的 sell_price 必须在 0 到 buy_price 之间"@,
            )
            &&& (entry.level_required < 1 || entry.level_required > 120) ==> told.contains(
                "item.level_required"@ + "("@ + entry.item_key@ + ") 必须在 "@ + text::integer(1)
                    + " 到 "@ + text::integer(120) + " 之间"@,
            )
            &&& (!(entry.effect_kind@ == "revive"@ || entry.effect_kind@ == "restore_hp"@ || entry.effect_kind@ == "restore_soul"@)) ==> told.contains(
                "物品 "@ + entry.item_key@ + " 的 effect_kind 不受支持"@,
            )
            &&& (entry.effect_kind@ == "revive"@) && (entry.effect_amount != 0) ==> told.contains(
                "复活物品 "@ + entry.item_key@ + " 的 effect_amount 必须为 0"@,
            )
            &&& (entry.effect_kind@ == "revive"@) && (entry.revive_hp_percent < 1 || entry.revive_hp_percent > 100) ==> told.contains(
                "item.revive_hp_percent"@ + "("@ + entry.item_key@ + ") 必须在 "@
                    + text::integer(1) + " 到 "@ + text::integer(100) + " 之间"@,
            )
            &&& (entry.effect_kind@ == "restore_hp"@ || entry.effect_kind@ == "restore_soul"@) && (entry.effect_amount < 1 || entry.effect_amount > 1_000_000) ==> told.contains(
                "item.effect_amount"@ + "("@ + entry.item_key@ + ") 必须在 "@ + text::integer(1)
                    + " 到 "@ + text::integer(1_000_000) + " 之间"@,
            )
            &&& (entry.effect_kind@ == "restore_hp"@ || entry.effect_kind@ == "restore_soul"@) && (entry.revive_hp_percent != 0) ==> told.contains(
                "恢复物品 "@ + entry.item_key@ + " 的 revive_hp_percent 必须为 0"@,
            )
            &&& (entry.description@.len() > 2000 || text::has_control(entry.description@)) ==> told.contains(
                "item.description"@ + " 为空、过长或包含控制字符"@,
            )
        }),
{
    let e1 = content_rules::noted(errors, key_repeats, "物品键重复："@ + entry.item_key@);
    lemma_noted(errors, key_repeats, "物品键重复："@ + entry.item_key@);
    let e2 = content_rules::noted(e1, name_repeats, "物品名称重复："@ + entry.name@);
    lemma_noted(e1, name_repeats, "物品名称重复："@ + entry.name@);
    let e3 = content_rules::key_noted(e2, "item.item_key"@, entry.item_key@);
    lemma_noted(e2, !content_rules::is_key(entry.item_key@), "item.item_key"@ + " 不是合法小写内容键"@);
    let e4 = content_rules::text_noted(e3, "item.name"@, entry.name@, 128, true);
    lemma_noted(
        e3,
        text::is_blank(entry.name@) || entry.name@.len() > 128 || text::has_control(entry.name@),
        "item.name"@ + " 为空、过长或包含控制字符"@,
    );
    let e5 = content_rules::noted(
        e4,
        !(entry.category@ == "revival"@ || entry.category@ == "consumable"@),
        "物品 "@ + entry.item_key@ + " 的 category 不受支持"@,
    );
    lemma_noted(
        e4,
        !(entry.category@ == "revival"@ || entry.category@ == "consumable"@),
        "物品 "@ + entry.item_key@ + " 的 category 不受支持"@,
    );
    let e6 = content_rules::range_noted(
        e5,
        "item.quality"@,
        entry.item_key@,
        entry.quality as int,
        1,
        5,
    );
    lemma_noted(
        e5,
        entry.quality < 1 || entry.quality > 5,
        "item.quality"@ + "("@ + entry.item_key@ + ") 必须在 "@ + text::integer(1) + " 到 "@
            + text::integer(5) + " 之间"@,
    );
    let e7 = content_rules::range_noted(
        e6,
        "item.max_stack"@,
        entry.item_key@,
        entry.max_stack as int,
        1,
        9999,
    );
    lemma_noted(
        e6,
        entry.max_stack < 1 || entry.max_stack > 9999,
        "item.max_stack"@ + "("@ + entry.item_key@ + ") 必须在 "@ + text::integer(1) + " 到 "@
            + text::integer(9999) + " 之间"@,
    );
    let e8 = content_rules::noted(
        e7,
        !entry.stackable && entry.max_stack != 1,
        "物品 "@ + entry.item_key@ + " 不可堆叠时 max_stack 必须为 1"@,
    );
    lemma_noted(
        e7,
        !entry.stackable && entry.max_stack != 1,
        "物品 "@ + entry.item_key@ + " 不可堆叠时 max_stack 必须为 1"@,
    );
    let e9 = content_rules::noted(
        e8,
        entry.buy_price < 0,
        "物品 "@ + entry.item_key@ + " 的 buy_price 不能为负数"@,
    );
    lemma_noted(e8, entry.buy_price < 0, "物品 "@ + entry.item_key@ + " 的 buy_price 不能为负数"@);
    let e10 = content_rules::noted(
        e9,
        entry.sell_price < 0 || entry.sell_price > entry.buy_price,
        "物品 "@ + entry.item_key@ + " 的 sell_price 必须在 0 到 buy_price 之间"@,
    );
    lemma_noted(
        e9,
        entry.sell_price < 0 || entry.sell_price > entry.buy_price,
        "物品 "@ + entry.item_key@ + " 的 sell_price 必须在 0 到 buy_price 之间"@,
    );
    let e11 = content_rules::range_noted(
        e10,
        "item.level_required"@,
        entry.item_key@,
        entry.level_required as int,
        1,
        120,
    );
    lemma_noted(
        e10,
        entry.level_required < 1 || entry.level_required > 120,
        "item.level_required"@ + "("@ + entry.item_key@ + ") 必须在 "@ + text::integer(1) + " 到 "@
            + text::integer(120) + " 之间"@,
    );
    let e12 = content_rules::noted(
        e11,
        !(entry.effect_kind@ == "revive"@ || entry.effect_kind@ == "restore_hp"@ || entry.effect_kind@ == "restore_soul"@),
        "物品 "@ + entry.item_key@ + " 的 effect_kind 不受支持"@,
    );
    lemma_noted(
        e11,
        !(entry.effect_kind@ == "revive"@ || entry.effect_kind@ == "restore_hp"@ || entry.effect_kind@ == "restore_soul"@),
        "物品 "@ + entry.item_key@ + " 的 effect_kind 不受支持"@,
    );
    let e13 = if entry.effect_kind@ == "revive"@ { let e12 = content_rules::noted(e12, entry.effect_amount != 0, "复活物品 "@ + entry.item_key@ + " 的 effect_amount 必须为 0"@); content_rules::range_noted(e12, "item.revive_hp_percent"@, entry.item_key@, entry.revive_hp_percent as int, 1, 100) } else if entry.effect_kind@ == "restore_hp"@ || entry.effect_kind@ == "restore_soul"@ { let e12 = content_rules::range_noted(e12, "item.effect_amount"@, entry.item_key@, entry.effect_amount as int, 1, 1_000_000); content_rules::noted(e12, entry.revive_hp_percent != 0, "恢复物品 "@ + entry.item_key@ + " 的 revive_hp_percent 必须为 0"@) } else { e12 };
    lemma_restored(e12, entry);
    let e18 = content_rules::text_noted(e13, "item.description"@, entry.description@, 2000, false);
    lemma_noted(
        e13,
        entry.description@.len() > 2000 || text::has_control(entry.description@),
        "item.description"@ + " 为空、过长或包含控制字符"@,
    );
    lemma_within(e12, e13, e18);
    lemma_within(e11, e12, e18);
    lemma_within(e10, e11, e18);
    lemma_within(e9, e10, e18);
    lemma_within(e8, e9, e18);
    lemma_within(e7, e8, e18);
    lemma_within(e6, e7, e18);
    lemma_within(e5, e6, e18);
    lemma_within(e4, e5, e18);
    lemma_within(e3, e4, e18);
    lemma_within(e2, e3, e18);
    lemma_within(e1, e2, e18);
    lemma_within(errors, e1, e18);
    lemma_still(e1, e18, "物品键重复："@ + entry.item_key@);
    lemma_still(e2, e18, "物品名称重复："@ + entry.name@);
    lemma_still(e3, e18, "item.item_key"@ + " 不是合法小写内容键"@);
    lemma_still(e4, e18, "item.name"@ + " 为空、过长或包含控制字符"@);
    lemma_still(e5, e18, "物品 "@ + entry.item_key@ + " 的 category 不受支持"@);
    lemma_still(
        e6,
        e18,
        "item.quality"@ + "("@ + entry.item_key@ + ") 必须在 "@ + text::integer(1) + " 到 "@
            + text::integer(5) + " 之间"@,
    );
    lemma_still(
        e7,
        e18,
        "item.max_stack"@ + "("@ + entry.item_key@ + ") 必须在 "@ + text::integer(1) + " 到 "@
            + text::integer(9999) + " 之间"@,
    );
    lemma_still(e8, e18, "物品 "@ + entry.item_key@ + " 不可堆叠时 max_stack 必须为 1"@);
    lemma_still(e9, e18, "物品 "@ + entry.item_key@ + " 的 buy_price 不能为负数"@);
    lemma_still(e10, e18, "物品 "@ + entry.item_key@ + " 的 sell_price 必须在 0 到 buy_price 之间"@);
    lemma_still(
        e11,
        e18,
        "item.level_required"@ + "("@ + entry.item_key@ + ") 必须在 "@ + text::integer(1) + " 到 "@
            + text::integer(120) + " 之间"@,
    );
    lemma_still(e12, e18, "物品 "@ + entry.item_key@ + " 的 effect_kind 不受支持"@);
    lemma_same(e18);
    lemma_still(e18, e18, "item.description"@ + " 为空、过长或包含控制字符"@);
    lemma_still(e13, e18, "复活物品 "@ + entry.item_key@ + " 的 effect_amount 必须为 0"@);
    lemma_still(
        e13,
        e18,
        "item.revive_hp_percent"@ + "("@ + entry.item_key@ + ") 必须在 "@ + text::integer(1)
            + " 到 "@ + text::integer(100) + " 之间"@,
    );
    lemma_still(
        e13,
        e18,
        "item.effect_amount"@ + "("@ + entry.item_key@ + ") 必须在 "@ + text::integer(1) + " 到 "@
            + text::integer(1_000_000) + " 之间"@,
    );
    lemma_still(e13, e18, "恢复物品 "@ + entry.item_key@ + " 的 revive_hp_percent 必须为 0"@);
    lemma_head(errors, e18);
}

/// Each fault of a person is told in its own words, behind those that were told before.
pub proof fn faults_of_people_are_told(
    errors: Seq<Seq<char>>,
    entry: NpcPackageEntry,
    key_repeats: bool,
    name_repeats: bool,
)
    ensures
        ({
            let told = content_rules::npc_entry_errors(errors, entry, key_repeats, name_repeats);
            &&& errors.is_prefix_of(told)
            &&& key_repeats ==> told.contains("NPC 键重复："@ + entry.npc_key@)
            &&& name_repeats ==> told.contains(
                "地图 "@ + entry.map_key@ + " 的 NPC 名称重复："@ + entry.name@,
            )
            &&& !content_rules::is_key(entry.npc_key@) ==> told.contains(
                "npc.npc_key"@ + " 不是合法小写内容键"@,
            )
            &&& !content_rules::is_key(entry.map_key@) ==> told.contains(
                "npc.map_key"@ + " 不是合法小写内容键"@,
            )
            &&& (text::is_blank(entry.name@) || entry.name@.len() > 128 || text::has_control(entry.name@)) ==> told.contains(
                "npc.name"@ + " 为空、过长或包含控制字符"@,
            )
            &&& (!(entry.npc_kind@ == "elder"@ || entry.npc_kind@ == "merchant"@)) ==> told.contains(
                "NPC "@ + entry.npc_key@ + " 的 npc_kind 不受支持"@,
            )
            &&& (entry.dialogue@.len() > 2000 || text::has_control(entry.dialogue@)) ==> told.contains(
                "npc.dialogue"@ + " 为空、过长或包含控制字符"@,
            )
            &&& (entry.description@.len() > 2000 || text::has_control(entry.description@)) ==> told.contains(
                "npc.description"@ + " 为空、过长或包含控制字符"@,
            )
            &&& !entry.enabled ==> told.contains("当前发布切片不允许禁用新 NPC："@ + entry.npc_key@)
            &&& entry.sort_order < 0 ==> told.contains(
                "NPC "@ + entry.npc_key@ + " 的 sort_order 不能为负数"@,
            )
        }),
{
    let e1 = content_rules::noted(errors, key_repeats, "NPC 键重复："@ + entry.npc_key@);
    lemma_noted(errors, key_repeats, "NPC 键重复："@ + entry.npc_key@);
    let e2 = content_rules::noted(
        e1,
        name_repeats,
        "地图 "@ + entry.map_key@ + " 的 NPC 名称重复："@ + entry.name@,
    );
    lemma_noted(e1, name_repeats, "地图 "@ + entry.map_key@ + " 的 NPC 名称重复："@ + entry.name@);
    let e3 = content_rules::key_noted(e2, "npc.npc_key"@, entry.npc_key@);
    lemma_noted(e2, !content_rules::is_key(entry.npc_key@), "npc.npc_key"@ + " 不是合法小写内容键"@);
    let e4 = content_rules::key_noted(e3, "npc.map_key"@, entry.map_key@);
    lemma_noted(e3, !content_rules::is_key(entry.map_key@), "npc.map_key"@ + " 不是合法小写内容键"@);
    let e5 = content_rules::text_noted(e4, "npc.name"@, entry.name@, 128, true);
    lemma_noted(
        e4,
        text::is_blank(entry.name@) || entry.name@.len() > 128 || text::has_control(entry.name@),
        "npc.name"@ + " 为空、过长或包含控制字符"@,
    );
    let e6 = content_rules::noted(
        e5,
        !(entry.npc_kind@ == "elder"@ || entry.npc_kind@ == "merchant"@),
        "NPC "@ + entry.npc_key@ + " 的 npc_kind 不受支持"@,
    );
    lemma_noted(
        e5,
        !(entry.npc_kind@ == "elder"@ || entry.npc_kind@ == "merchant"@),
        "NPC "@ + entry.npc_key@ + " 的 npc_kind 不受支持"@,
    );
    let e7 = content_rules::text_noted(e6, "npc.dialogue"@, entry.dialogue@, 2000, false);
    lemma_noted(
        e6,
        entry.dialogue@.len() > 2000 || text::has_control(entry.dialogue@),
        "npc.dialogue"@ + " 为空、过长或包含控制字符"@,
    );
    let e8 = content_rules::text_noted(e7, "npc.description"@, entry.description@, 2000, false);
    lemma_noted(
        e7,
        entry.description@.len() > 2000 || text::has_control(entry.description@),
        "npc.description"@ + " 为空、过长或包含控制字符"@,
    );
    let e9 = content_rules::noted(e8, !entry.enabled, "当前发布切片不允许禁用新 NPC："@ + entry.npc_key@);
    lemma_noted(e8, !entry.enabled, "当前发布切片不允许禁用新 NPC："@ + entry.npc_key@);
    let e10 = content_rules::noted(
        e9,
        entry.sort_order < 0,
        "NPC "@ + entry.npc_key@ + " 的 sort_order 不能为负数"@,
    );
    lemma_noted(e9, entry.sort_order < 0, "NPC "@ + entry.npc_key@ + " 的 sort_order 不能为负数"@);
    lemma_within(e8, e9, e10);
    lemma_within(e7, e8, e10);
    lemma_within(e6, e7, e10);
    lemma_within(e5, e6, e10);
    lemma_within(e4, e5, e10);
    lemma_within(e3, e4, e10);
    lemma_within(e2, e3, e10);
    lemma_within(e1, e2, e10);
    lemma_within(errors, e1, e10);
    lemma_still(e1, e10, "NPC 键重复："@ + entry.npc_key@);
    lemma_still(e2, e10, "地图 "@ + entry.map_key@ + " 的 NPC 名称重复："@ + entry.name@);
    lemma_still(e3, e10, "npc.npc_key"@ + " 不是合法小写内容键"@);
    lemma_still(e4, e10, "npc.map_key"@ + " 不是合法小写内容键"@);
    lemma_still(e5, e10, "npc.name"@ + " 为空、过长或包含控制字符"@);
    lemma_still(e6, e10, "NPC "@ + entry.npc_key@ + " 的 npc_kind 不受支持"@);
    lemma_still(e7, e10, "npc.dialogue"@ + " 为空、过长或包含控制字符"@);
    lemma_still(e8, e10, "npc.description"@ + " 为空、过长或包含控制字符"@);
    lemma_still(e9, e10, "当前发布切片不允许禁用新 NPC："@ + entry.npc_key@);
    lemma_same(e10);
    lemma_still(e10, e10, "NPC "@ + entry.npc_key@ + " 的 sort_order 不能为负数"@);
    lemma_head(errors, e10);
}

/// Each fault of a condition of a quest is told in its own words, behind those that were told before.
pub proof fn faults_of_conditions_are_told(
    errors: Seq<Seq<char>>,
    quest_key: String,
    entry: QuestRequirementPackageEntry,
    order_repeats: bool,
)
    ensures
        ({
            let told = content_rules::requirement_entry_errors(
                errors,
                quest_key,
                entry,
                order_repeats,
            );
            &&& errors.is_prefix_of(told)
            &&& order_repeats ==> told.contains(
                "任务 "@ + quest_key@ + " 的完成条件排序重复："@ + text::integer(entry.sort_order as int),
            )
            &&& (!(entry.requirement_kind@ == "item"@ || entry.requirement_kind@ == "visit"@ || entry.requirement_kind@ == "level"@)) ==> told.contains(
                "任务 "@ + quest_key@ + " 的 requirement_kind 不受支持："@ + entry.requirement_kind@,
            )
            &&& (entry.requirement_kind@ == "item"@ || entry.requirement_kind@ == "visit"@) && (!content_rules::is_key(entry.target_key@)) ==> told.contains(
                "quest.requirement.target_key"@ + " 不是合法小写内容键"@,
            )
            &&& (!(entry.requirement_kind@ == "item"@ || entry.requirement_kind@ == "visit"@)) && (entry.requirement_kind@ == "level"@ && entry.target_key@ != "level"@) ==> told.contains(
                "任务 "@ + quest_key@ + " 的等级条件 target_key 必须是 level"@,
            )
            &&& (entry.required_quantity < 1 || entry.required_quantity > 9999) ==> told.contains(
                "quest.requirement.required_quantity"@ + "("@ + quest_key@ + ") 必须在 "@
                    + text::integer(1) + " 到 "@ + text::integer(9999) + " 之间"@,
            )
            &&& entry.sort_order < 0 ==> told.contains(
                "任务 "@ + quest_key@ + " 的完成条件 sort_order 不能为负数"@,
            )
            &&& (entry.description@.len() > 500 || text::has_control(entry.description@)) ==> told.contains(
                "quest.requirement.description"@ + " 为空、过长或包含控制字符"@,
            )
        }),
{
    let e1 = content_rules::noted(
        errors,
        order_repeats,
        "任务 "@ + quest_key@ + " 的完成条件排序重复："@ + text::integer(entry.sort_order as int),
    );
    lemma_noted(
        errors,
        order_repeats,
        "任务 "@ + quest_key@ + " 的完成条件排序重复："@ + text::integer(entry.sort_order as int),
    );
    let e2 = content_rules::noted(
        e1,
        !(entry.requirement_kind@ == "item"@ || entry.requirement_kind@ == "visit"@ || entry.requirement_kind@ == "level"@),
        "任务 "@ + quest_key@ + " 的 requirement_kind 不受支持："@ + entry.requirement_kind@,
    );
    lemma_noted(
        e1,
        !(entry.requirement_kind@ == "item"@ || entry.requirement_kind@ == "visit"@ || entry.requirement_kind@ == "level"@),
        "任务 "@ + quest_key@ + " 的 requirement_kind 不受支持："@ + entry.requirement_kind@,
    );
    let e3 = if entry.requirement_kind@ == "item"@ || entry.requirement_kind@ == "visit"@ { content_rules::key_noted(e2, "quest.requirement.target_key"@, entry.target_key@) } else { content_rules::noted(e2, entry.requirement_kind@ == "level"@ && entry.target_key@ != "level"@, "任务 "@ + quest_key@ + " 的等级条件 target_key 必须是 level"@) };
    if entry.requirement_kind@ == "item"@ || entry.requirement_kind@ == "visit"@ {
        let e4 = content_rules::key_noted(e2, "quest.requirement.target_key"@, entry.target_key@);
        lemma_noted(
            e2,
            !content_rules::is_key(entry.target_key@),
            "quest.requirement.target_key"@ + " 不是合法小写内容键"@,
        );
        lemma_same(e4);
        lemma_still(e4, e4, "quest.requirement.target_key"@ + " 不是合法小写内容键"@);
        assert(e4 == e3);
    }
    if !(entry.requirement_kind@ == "item"@ || entry.requirement_kind@ == "visit"@) {
        let e5 = content_rules::noted(
            e2,
            entry.requirement_kind@ == "level"@ && entry.target_key@ != "level"@,
            "任务 "@ + quest_key@ + " 的等级条件 target_key 必须是 level"@,
        );
        lemma_noted(
            e2,
            entry.requirement_kind@ == "level"@ && entry.target_key@ != "level"@,
            "任务 "@ + quest_key@ + " 的等级条件 target_key 必须是 level"@,
        );
        lemma_same(e5);
        lemma_still(e5, e5, "任务 "@ + quest_key@ + " 的等级条件 target_key 必须是 level"@);
        assert(e5 == e3);
    }
    lemma_same(e2);
    assert(within(e2, e3));
    let e6 = content_rules::range_noted(
        e3,
        "quest.requirement.required_quantity"@,
        quest_key@,
        entry.required_quantity as int,
        1,
        9999,
    );
    lemma_noted(
        e3,
        entry.required_quantity < 1 || entry.required_quantity > 9999,
        "quest.requirement.required_quantity"@ + "("@ + quest_key@ + ") 必须在 "@
            + text::integer(1) + " 到 "@ + text::integer(9999) + " 之间"@,
    );
    let e7 = content_rules::noted(
        e6,
        entry.sort_order < 0,
        "任务 "@ + quest_key@ + " 的完成条件 sort_order 不能为负数"@,
    );
    lemma_noted(e6, entry.sort_order < 0, "任务 "@ + quest_key@ + " 的完成条件 sort_order 不能为负数"@);
    let e8 = content_rules::text_noted(
        e7,
        "quest.requirement.description"@,
        entry.description@,
        500,
        false,
    );
    lemma_noted(
        e7,
        entry.description@.len() > 500 || text::has_control(entry.description@),
        "quest.requirement.description"@ + " 为空、过长或包含控制字符"@,
    );
    lemma_within(e6, e7, e8);
    lemma_within(e3, e6, e8);
    lemma_within(e2, e3, e8);
    lemma_within(e1, e2, e8);
    lemma_within(errors, e1, e8);
    lemma_still(
        e1,
        e8,
        "任务 "@ + quest_key@ + " 的完成条件排序重复："@ + text::integer(entry.sort_order as int),
    );
    lemma_still(
        e2,
        e8,
        "任务 "@ + quest_key@ + " 的 requirement_kind 不受支持："@ + entry.requirement_kind@,
    );
    lemma_still(
        e6,
        e8,
        "quest.requirement.required_quantity"@ + "("@ + quest_key@ + ") 必须在 "@
            + text::integer(1) + " 到 "@ + text::integer(9999) + " 之间"@,
    );
    lemma_still(e7, e8, "任务 "@ + quest_key@ + " 的完成条件 sort_order 不能为负数"@);
    lemma_same(e8);
    lemma_still(e8, e8, "quest.requirement.description"@ + " 为空、过长或包含控制字符"@);
    lemma_still(e3, e8, "quest.requirement.target_key"@ + " 不是合法小写内容键"@);
    lemma_still(e3, e8, "任务 "@ + quest_key@ + " 的等级条件 target_key 必须是 level"@);
    lemma_head(errors, e8);
}

/// Each fault of a reward of a quest is told in its own words, behind those that were told before.
pub proof fn faults_of_rewards_are_told(
    errors: Seq<Seq<char>>,
    quest_key: String,
    entry: QuestRewardPackageEntry,
    order_repeats: bool,
)
    ensures
        ({
            let told = content_rules::reward_entry_errors(errors, quest_key, entry, order_repeats);
            &&& errors.is_prefix_of(told)
            &&& order_repeats ==> told.contains(
                "任务 "@ + quest_key@ + " 的奖励排序重复："@ + text::integer(entry.sort_order as int),
            )
            &&& (!(entry.reward_kind@ == "exp"@ || entry.reward_kind@ == "currency"@ || entry.reward_kind@ == "item"@)) ==> told.contains(
                "任务 "@ + quest_key@ + " 的 reward_kind 不受支持："@ + entry.reward_kind@,
            )
            &&& (entry.reward_kind@ == "exp"@ && (entry.currency_code is Some || entry.item_key is Some)) ==> told.contains(
                "任务 "@ + quest_key@ + " 的经验奖励不能声明货币或物品"@,
            )
            &&& (entry.reward_kind@ == "currency"@ && (text::optional_text(entry.currency_code) != Some( "gold_soul_coin"@, ) || entry.item_key is Some)) ==> told.contains(
                "任务 "@ + quest_key@ + " 的货币奖励只能使用 gold_soul_coin"@,
            )
            &&& (entry.reward_kind@ == "item"@) && (entry.currency_code is Some || entry.item_key is None) ==> told.contains(
                "任务 "@ + quest_key@ + " 的物品奖励必须只声明 item_key"@,
            )
            &&& (entry.reward_kind@ == "item"@) && (entry.item_key is Some) && (!content_rules::is_key((entry.item_key->0)@)) ==> told.contains(
                "quest.reward.item_key"@ + " 不是合法小写内容键"@,
            )
            &&& (entry.amount < 1 || entry.amount > 999_999_999) ==> told.contains(
                "quest.reward.amount"@ + "("@ + quest_key@ + ") 必须在 "@ + text::integer(1)
                    + " 到 "@ + text::integer(999_999_999) + " 之间"@,
            )
            &&& entry.sort_order < 0 ==> told.contains(
                "任务 "@ + quest_key@ + " 的奖励 sort_order 不能为负数"@,
            )
            &&& (entry.description@.len() > 500 || text::has_control(entry.description@)) ==> told.contains(
                "quest.reward.description"@ + " 为空、过长或包含控制字符"@,
            )
        }),
{
    let e1 = content_rules::noted(
        errors,
        order_repeats,
        "任务 "@ + quest_key@ + " 的奖励排序重复："@ + text::integer(entry.sort_order as int),
    );
    lemma_noted(
        errors,
        order_repeats,
        "任务 "@ + quest_key@ + " 的奖励排序重复："@ + text::integer(entry.sort_order as int),
    );
    let e2 = content_rules::noted(
        e1,
        !(entry.reward_kind@ == "exp"@ || entry.reward_kind@ == "currency"@ || entry.reward_kind@ == "item"@),
        "任务 "@ + quest_key@ + " 的 reward_kind 不受支持："@ + entry.reward_kind@,
    );
    lemma_noted(
        e1,
        !(entry.reward_kind@ == "exp"@ || entry.reward_kind@ == "currency"@ || entry.reward_kind@ == "item"@),
        "任务 "@ + quest_key@ + " 的 reward_kind 不受支持："@ + entry.reward_kind@,
    );
    let e3 = content_rules::noted(
        e2,
        entry.reward_kind@ == "exp"@ && (entry.currency_code is Some || entry.item_key is Some),
        "任务 "@ + quest_key@ + " 的经验奖励不能声明货币或物品"@,
    );
    lemma_noted(
        e2,
        entry.reward_kind@ == "exp"@ && (entry.currency_code is Some || entry.item_key is Some),
        "任务 "@ + quest_key@ + " 的经验奖励不能声明货币或物品"@,
    );
    let e4 = content_rules::noted(
        e3,
        entry.reward_kind@ == "currency"@ && (text::optional_text(entry.currency_code) != Some("gold_soul_coin"@) || entry.item_key is Some),
        "任务 "@ + quest_key@ + " 的货币奖励只能使用 gold_soul_coin"@,
    );
    lemma_noted(
        e3,
        entry.reward_kind@ == "currency"@ && (text::optional_text(entry.currency_code) != Some( "gold_soul_coin"@, ) || entry.item_key is Some),
        "任务 "@ + quest_key@ + " 的货币奖励只能使用 gold_soul_coin"@,
    );
    let e5 = if entry.reward_kind@ == "item"@ { let e4 = content_rules::noted(e4, entry.currency_code is Some || entry.item_key is None, "任务 "@ + quest_key@ + " 的物品奖励必须只声明 item_key"@); match entry.item_key { Some(item_key) => content_rules::key_noted(e4, "quest.reward.item_key"@, item_key@), None => e4, } } else { e4 };
    if entry.reward_kind@ == "item"@ {
        let e6 = content_rules::noted(
            e4,
            entry.currency_code is Some || entry.item_key is None,
            "任务 "@ + quest_key@ + " 的物品奖励必须只声明 item_key"@,
        );
        lemma_noted(
            e4,
            entry.currency_code is Some || entry.item_key is None,
            "任务 "@ + quest_key@ + " 的物品奖励必须只声明 item_key"@,
        );
        let e7 = match entry.item_key { Some(item_key) => content_rules::key_noted(e6, "quest.reward.item_key"@, item_key@), None => e6, };
        if entry.item_key is Some {
            let e8 = content_rules::key_noted(e6, "quest.reward.item_key"@, (entry.item_key->0)@);
            lemma_noted(
                e6,
                !content_rules::is_key((entry.item_key->0)@),
                "quest.reward.item_key"@ + " 不是合法小写内容键"@,
            );
            lemma_same(e8);
            lemma_still(e8, e8, "quest.reward.item_key"@ + " 不是合法小写内容键"@);
            assert(e8 == e7);
        }
        lemma_same(e6);
        assert(within(e6, e7));
        lemma_within(e4, e6, e7);
        lemma_still(e6, e7, "任务 "@ + quest_key@ + " 的物品奖励必须只声明 item_key"@);
        lemma_same(e7);
        lemma_still(e7, e7, "quest.reward.item_key"@ + " 不是合法小写内容键"@);
        assert(e7 == e5);
    }
    lemma_same(e4);
    assert(within(e4, e5));
    let e9 = content_rules::range_noted(
        e5,
        "quest.reward.amount"@,
        quest_key@,
        entry.amount as int,
        1,
        999_999_999,
    );
    lemma_noted(
        e5,
        entry.amount < 1 || entry.amount > 999_999_999,
        "quest.reward.amount"@ + "("@ + quest_key@ + ") 必须在 "@ + text::integer(1) + " 到 "@
            + text::integer(999_999_999) + " 之间"@,
    );
    let e10 = content_rules::noted(
        e9,
        entry.sort_order < 0,
        "任务 "@ + quest_key@ + " 的奖励 sort_order 不能为负数"@,
    );
    lemma_noted(e9, entry.sort_order < 0, "任务 "@ + quest_key@ + " 的奖励 sort_order 不能为负数"@);
    let e11 = content_rules::text_noted(
        e10,
        "quest.reward.description"@,
        entry.description@,
        500,
        false,
    );
    lemma_noted(
        e10,
        entry.description@.len() > 500 || text::has_control(entry.description@),
        "quest.reward.description"@ + " 为空、过长或包含控制字符"@,
    );
    lemma_within(e9, e10, e11);
    lemma_within(e5, e9, e11);
    lemma_within(e4, e5, e11);
    lemma_within(e3, e4, e11);
    lemma_within(e2, e3, e11);
    lemma_within(e1, e2, e11);
    lemma_within(errors, e1, e11);
    lemma_still(
        e1,
        e11,
        "任务 "@ + quest_key@ + " 的奖励排序重复："@ + text::integer(entry.sort_order as int),
    );
    lemma_still(e2, e11, "任务 "@ + quest_key@ + " 的 reward_kind 不受支持："@ + entry.reward_kind@);
    lemma_still(e3, e11, "任务 "@ + quest_key@ + " 的经验奖励不能声明货币或物品"@);
    lemma_still(e4, e11, "任务 "@ + quest_key@ + " 的货币奖励只能使用 gold_soul_coin"@);
    lemma_still(
        e9,
        e11,
        "quest.reward.amount"@ + "("@ + quest_key@ + ") 必须在 "@ + text::integer(1) + " 到 "@
            + text::integer(999_999_999) + " 之间"@,
    );
    lemma_still(e10, e11, "任务 "@ + quest_key@ + " 的奖励 sort_order 不能为负数"@);
    lemma_same(e11);
    lemma_still(e11, e11, "quest.reward.description"@ + " 为空、过长或包含控制字符"@);
    lemma_still(e5, e11, "任务 "@ + quest_key@ + " 的物品奖励必须只声明 item_key"@);
    lemma_still(e5, e11, "quest.reward.item_key"@ + " 不是合法小写内容键"@);
    lemma_head(errors, e11);
}

proof fn lemma_requirement_errors_keep(
    errors: Seq<Seq<char>>,
    quest_key: String,
    entries: Seq<QuestRequirementPackageEntry>,
    count: int,
)
    ensures
        within(errors, content_rules::requirement_errors(errors, quest_key, entries, count)),
    decreases count,
{
    if count > 0 {
        lemma_requirement_errors_keep(errors, quest_key, entries, count - 1);
        let before = content_rules::requirement_errors(errors, quest_key, entries, count - 1);
        faults_of_conditions_are_told(before, quest_key, entries[count - 1], seen::repeats(content_rules::requirement_orders(entries), count - 1));
        lemma_head(before, content_rules::requirement_errors(errors, quest_key, entries, count));
        lemma_within(
            errors,
            before,
            content_rules::requirement_errors(errors, quest_key, entries, count),
        );
    } else {
        lemma_same(errors);
    }
}

proof fn lemma_reward_errors_keep(
    errors: Seq<Seq<char>>,
    quest_key: String,
    entries: Seq<QuestRewardPackageEntry>,
    count: int,
)
    ensures
        within(errors, content_rules::reward_errors(errors, quest_key, entries, count)),
    decreases count,
{
    if count > 0 {
        lemma_reward_errors_keep(errors, quest_key, entries, count - 1);
        let before = content_rules::reward_errors(errors, quest_key, entries, count - 1);
        faults_of_rewards_are_told(before, quest_key, entries[count - 1], seen::repeats(content_rules::reward_orders(entries), count - 1));
        lemma_head(before, content_rules::reward_errors(errors, quest_key, entries, count));
        lemma_within(
            errors,
            before,
            content_rules::reward_errors(errors, quest_key, entries, count),
        );
    } else {
        lemma_same(errors);
    }
}

/// Each fault of a quest is told in its own words, behind those that were told before.
#[verifier::rlimit(60)]
pub proof fn faults_of_quests_are_told(
    errors: Seq<Seq<char>>,
    entry: QuestPackageEntry,
    key_repeats: bool,
    name_repeats: bool,
)
    ensures
        ({
            let told = content_rules::quest_entry_errors(errors, entry, key_repeats, name_repeats);
            &&& errors.is_prefix_of(told)
            &&& key_repeats ==> told.contains("任务键重复："@ + entry.quest_key@)
            &&& name_repeats ==> told.contains("任务名称重复："@ + entry.name@)
            &&& !content_rules::is_key(entry.quest_key@) ==> told.contains(
                "quest.quest_key"@ + " 不是合法小写内容键"@,
            )
            &&& (text::is_blank(entry.name@) || entry.name@.len() > 128 || text::has_control(entry.name@)) ==> told.contains(
                "quest.name"@ + " 为空、过长或包含控制字符"@,
            )
            &&& (text::is_blank(entry.description@) || entry.description@.len() > 2000 || text::has_control(entry.description@)) ==> told.contains(
                "quest.description"@ + " 为空、过长或包含控制字符"@,
            )
            &&& (!(entry.category@ == "main"@ || entry.category@ == "side"@ || entry.category@ == "daily"@)) ==> told.contains(
                "任务 "@ + entry.quest_key@ + " 的 category 不受支持"@,
            )
            &&& (entry.map_key is Some) && (!content_rules::is_key((entry.map_key->0)@)) ==> told.contains(
                "quest.map_key"@ + " 不是合法小写内容键"@,
            )
            &&& (entry.level_required < 1 || entry.level_required > 120) ==> told.contains(
                "quest.level_required"@ + "("@ + entry.quest_key@ + ") 必须在 "@ + text::integer(1)
                    + " 到 "@ + text::integer(120) + " 之间"@,
            )
            &&& entry.repeatable ==> told.contains("当前发布切片不允许可重复新任务："@ + entry.quest_key@)
            &&& !entry.enabled ==> told.contains("当前发布切片不允许禁用新任务："@ + entry.quest_key@)
            &&& entry.requirements@.len() == 0 ==> told.contains(
                "任务 "@ + entry.quest_key@ + " 至少需要一条完成条件"@,
            )
            &&& entry.requirements@.len() > 100 ==> told.contains(
                "任务 "@ + entry.quest_key@ + " 的完成条件不能超过 100 条"@,
            )
            &&& entry.rewards@.len() == 0 ==> told.contains(
                "任务 "@ + entry.quest_key@ + " 至少需要一条奖励"@,
            )
            &&& entry.rewards@.len() > 100 ==> told.contains(
                "任务 "@ + entry.quest_key@ + " 的奖励不能超过 100 条"@,
            )
        }),
{
    let e1 = content_rules::noted(errors, key_repeats, "任务键重复："@ + entry.quest_key@);
    lemma_noted(errors, key_repeats, "任务键重复："@ + entry.quest_key@);
    let e2 = content_rules::noted(e1, name_repeats, "任务名称重复："@ + entry.name@);
    lemma_noted(e1, name_repeats, "任务名称重复："@ + entry.name@);
    let e3 = content_rules::key_noted(e2, "quest.quest_key"@, entry.quest_key@);
    lemma_noted(e2, !content_rules::is_key(entry.quest_key@), "quest.quest_key"@ + " 不是合法小写内容键"@);
    let e4 = content_rules::text_noted(e3, "quest.name"@, entry.name@, 128, true);
    lemma_noted(
        e3,
        text::is_blank(entry.name@) || entry.name@.len() > 128 || text::has_control(entry.name@),
        "quest.name"@ + " 为空、过长或包含控制字符"@,
    );
    let e5 = content_rules::text_noted(e4, "quest.description"@, entry.description@, 2000, true);
    lemma_noted(
        e4,
        text::is_blank(entry.description@) || entry.description@.len() > 2000 || text::has_control(entry.description@),
        "quest.description"@ + " 为空、过长或包含控制字符"@,
    );
    let e6 = content_rules::noted(
        e5,
        !(entry.category@ == "main"@ || entry.category@ == "side"@ || entry.category@ == "daily"@),
        "任务 "@ + entry.quest_key@ + " 的 category 不受支持"@,
    );
    lemma_noted(
        e5,
        !(entry.category@ == "main"@ || entry.category@ == "side"@ || entry.category@ == "daily"@),
        "任务 "@ + entry.quest_key@ + " 的 category 不受支持"@,
    );
    let e7 = match entry.map_key { Some(map_key) => content_rules::key_noted(e6, "quest.map_key"@, map_key@), None => e6, };
    if entry.map_key is Some {
        let e8 = content_rules::key_noted(e6, "quest.map_key"@, (entry.map_key->0)@);
        lemma_noted(
            e6,
            !content_rules::is_key((entry.map_key->0)@),
            "quest.map_key"@ + " 不是合法小写内容键"@,
        );
        lemma_same(e8);
        lemma_still(e8, e8, "quest.map_key"@ + " 不是合法小写内容键"@);
        assert(e8 == e7);
    }
    lemma_same(e6);
    assert(within(e6, e7));
    let e9 = content_rules::range_noted(
        e7,
        "quest.level_required"@,
        entry.quest_key@,
        entry.level_required as int,
        1,
        120,
    );
    lemma_noted(
        e7,
        entry.level_required < 1 || entry.level_required > 120,
        "quest.level_required"@ + "("@ + entry.quest_key@ + ") 必须在 "@ + text::integer(1)
            + " 到 "@ + text::integer(120) + " 之间"@,
    );
    let e10 = content_rules::noted(e9, entry.repeatable, "当前发布切片不允许可重复新任务："@ + entry.quest_key@);
    lemma_noted(e9, entry.repeatable, "当前发布切片不允许可重复新任务："@ + entry.quest_key@);
    let e11 = content_rules::noted(e10, !entry.enabled, "当前发布切片不允许禁用新任务："@ + entry.quest_key@);
    lemma_noted(e10, !entry.enabled, "当前发布切片不允许禁用新任务："@ + entry.quest_key@);
    let e12 = content_rules::noted(
        e11,
        entry.requirements@.len() == 0,
        "任务 "@ + entry.quest_key@ + " 至少需要一条完成条件"@,
    );
    lemma_noted(e11, entry.requirements@.len() == 0, "任务 "@ + entry.quest_key@ + " 至少需要一条完成条件"@);
    let e13 = content_rules::noted(
        e12,
        entry.requirements@.len() > 100,
        "任务 "@ + entry.quest_key@ + " 的完成条件不能超过 100 条"@,
    );
    lemma_noted(
        e12,
        entry.requirements@.len() > 100,
        "任务 "@ + entry.quest_key@ + " 的完成条件不能超过 100 条"@,
    );
    let e14 = content_rules::requirement_errors(
        e13,
        entry.quest_key,
        entry.requirements@,
        entry.requirements@.len() as int,
    );
    lemma_requirement_errors_keep(e13, entry.quest_key, entry.requirements@, entry.requirements@.len() as int);
    let e15 = content_rules::noted(
        e14,
        entry.rewards@.len() == 0,
        "任务 "@ + entry.quest_key@ + " 至少需要一条奖励"@,
    );
    lemma_noted(e14, entry.rewards@.len() == 0, "任务 "@ + entry.quest_key@ + " 至少需要一条奖励"@);
    let e16 = content_rules::noted(
        e15,
        entry.rewards@.len() > 100,
        "任务 "@ + entry.quest_key@ + " 的奖励不能超过 100 条"@,
    );
    lemma_noted(e15, entry.rewards@.len() > 100, "任务 "@ + entry.quest_key@ + " 的奖励不能超过 100 条"@);
    let e17 = content_rules::reward_errors(
        e16,
        entry.quest_key,
        entry.rewards@,
        entry.rewards@.len() as int,
    );
    lemma_reward_errors_keep(e16, entry.quest_key, entry.rewards@, entry.rewards@.len() as int);
    lemma_within(e15, e16, e17);
    lemma_within(e14, e15, e17);
    lemma_within(e13, e14, e17);
    lemma_within(e12, e13, e17);
    lemma_within(e11, e12, e17);
    lemma_within(e10, e11, e17);
    lemma_within(e9, e10, e17);
    lemma_within(e7, e9, e17);
    lemma_within(e6, e7, e17);
    lemma_within(e5, e6, e17);
    lemma_within(e4, e5, e17);
    lemma_within(e3, e4, e17);
    lemma_within(e2, e3, e17);
    lemma_within(e1, e2, e17);
    lemma_within(errors, e1, e17);
    lemma_still(e1, e17, "任务键重复："@ + entry.quest_key@);
    lemma_still(e2, e17, "任务名称重复："@ + entry.name@);
    lemma_still(e3, e17, "quest.quest_key"@ + " 不是合法小写内容键"@);
    lemma_still(e4, e17, "quest.name"@ + " 为空、过长或包含控制字符"@);
    lemma_still(e5, e17, "quest.description"@ + " 为空、过长或包含控制字符"@);
    lemma_still(e6, e17, "任务 "@ + entry.quest_key@ + " 的 category 不受支持"@);
    lemma_still(
        e9,
        e17,
        "quest.level_required"@ + "("@ + entry.quest_key@ + ") 必须在 "@ + text::integer(1)
            + " 到 "@ + text::integer(120) + " 之间"@,
    );
    lemma_still(e10, e17, "当前发布切片不允许可重复新任务："@ + entry.quest_key@);
    lemma_still(e11, e17, "当前发布切片不允许禁用新任务："@ + entry.quest_key@);
    lemma_still(e12, e17, "任务 "@ + entry.quest_key@ + " 至少需要一条完成条件"@);
    lemma_still(e13, e17, "任务 "@ + entry.quest_key@ + " 的完成条件不能超过 100 条"@);
    lemma_still(e15, e17, "任务 "@ + entry.quest_key@ + " 至少需要一条奖励"@);
    lemma_still(e16, e17, "任务 "@ + entry.quest_key@ + " 的奖励不能超过 100 条"@);
    lemma_still(e7, e17, "quest.map_key"@ + " 不是合法小写内容键"@);
    lemma_head(errors, e17);
}

/// Each fault of a curve is told in its own words, behind those that were told before.
pub proof fn faults_of_curves_are_told(
    errors: Seq<Seq<char>>,
    entry: NumericCurvePackageEntry,
    key_repeats: bool,
    name_repeats: bool,
    order_repeats: bool,
)
    ensures
        ({
            let told = content_rules::curve_entry_errors(
                errors,
                entry,
                key_repeats,
                name_repeats,
                order_repeats,
            );
            &&& errors.is_prefix_of(told)
            &&& key_repeats ==> told.contains("数值曲线键重复："@ + entry.curve_key@)
            &&& name_repeats ==> told.contains("数值曲线名称重复："@ + entry.name@)
            &&& order_repeats ==> told.contains(
                "数值曲线排序重复："@ + text::integer(entry.sort_order as int),
            )
            &&& !content_rules::is_key(entry.curve_key@) ==> told.contains(
                "numeric_curve.curve_key"@ + " 不是合法小写内容键"@,
            )
            &&& (text::is_blank(entry.name@) || entry.name@.len() > 128 || text::has_control(entry.name@)) ==> told.contains(
                "numeric_curve.name"@ + " 为空、过长或包含控制字符"@,
            )
            &&& (text::is_blank(entry.unit@) || entry.unit@.len() > 32 || text::has_control(entry.unit@)) ==> told.contains(
                "numeric_curve.unit"@ + " 为空、过长或包含控制字符"@,
            )
            &&& !content_rules::is_key(entry.reference_key@) ==> told.contains(
                "numeric_curve.reference_key"@ + " 不是合法小写内容键"@,
            )
            &&& (!(entry.reference_key@ == "player-level-exp-v1"@ || entry.reference_key@ == "skill-proficiency-v1"@ || entry.reference_key@ == "skill-damage-percent-v1"@)) ==> told.contains(
                "数值曲线 "@ + entry.curve_key@ + " 的 reference_key 不受支持："@ + entry.reference_key@,
            )
            &&& entry.range_min < 1 ==> told.contains(
                "数值曲线 "@ + entry.curve_key@ + " 的 range_min 必须大于或等于 1"@,
            )
            &&& entry.range_max < entry.range_min ==> told.contains(
                "数值曲线 "@ + entry.curve_key@ + " 的 range_max 不能小于 range_min"@,
            )
            &&& entry.sort_order < 0 ==> told.contains(
                "数值曲线 "@ + entry.curve_key@ + " 的 sort_order 不能为负数"@,
            )
            &&& (text::is_blank(entry.description@) || entry.description@.len() > 2000 || text::has_control(entry.description@)) ==> told.contains(
                "numeric_curve.description"@ + " 为空、过长或包含控制字符"@,
            )
        }),
{
    let e1 = content_rules::noted(errors, key_repeats, "数值曲线键重复："@ + entry.curve_key@);
    lemma_noted(errors, key_repeats, "数值曲线键重复："@ + entry.curve_key@);
    let e2 = content_rules::noted(e1, name_repeats, "数值曲线名称重复："@ + entry.name@);
    lemma_noted(e1, name_repeats, "数值曲线名称重复："@ + entry.name@);
    let e3 = content_rules::noted(
        e2,
        order_repeats,
        "数值曲线排序重复："@ + text::integer(entry.sort_order as int),
    );
    lemma_noted(e2, order_repeats, "数值曲线排序重复："@ + text::integer(entry.sort_order as int));
    let e4 = content_rules::key_noted(e3, "numeric_curve.curve_key"@, entry.curve_key@);
    lemma_noted(
        e3,
        !content_rules::is_key(entry.curve_key@),
        "numeric_curve.curve_key"@ + " 不是合法小写内容键"@,
    );
    let e5 = content_rules::text_noted(e4, "numeric_curve.name"@, entry.name@, 128, true);
    lemma_noted(
        e4,
        text::is_blank(entry.name@) || entry.name@.len() > 128 || text::has_control(entry.name@),
        "numeric_curve.name"@ + " 为空、过长或包含控制字符"@,
    );
    let e6 = content_rules::text_noted(e5, "numeric_curve.unit"@, entry.unit@, 32, true);
    lemma_noted(
        e5,
        text::is_blank(entry.unit@) || entry.unit@.len() > 32 || text::has_control(entry.unit@),
        "numeric_curve.unit"@ + " 为空、过长或包含控制字符"@,
    );
    let e7 = content_rules::key_noted(e6, "numeric_curve.reference_key"@, entry.reference_key@);
    lemma_noted(
        e6,
        !content_rules::is_key(entry.reference_key@),
        "numeric_curve.reference_key"@ + " 不是合法小写内容键"@,
    );
    let e8 = content_rules::noted(
        e7,
        !(entry.reference_key@ == "player-level-exp-v1"@ || entry.reference_key@ == "skill-proficiency-v1"@ || entry.reference_key@ == "skill-damage-percent-v1"@),
        "数值曲线 "@ + entry.curve_key@ + " 的 reference_key 不受支持："@ + entry.reference_key@,
    );
    lemma_noted(
        e7,
        !(entry.reference_key@ == "player-level-exp-v1"@ || entry.reference_key@ == "skill-proficiency-v1"@ || entry.reference_key@ == "skill-damage-percent-v1"@),
        "数值曲线 "@ + entry.curve_key@ + " 的 reference_key 不受支持："@ + entry.reference_key@,
    );
    let e9 = content_rules::noted(
        e8,
        entry.range_min < 1,
        "数值曲线 "@ + entry.curve_key@ + " 的 range_min 必须大于或等于 1"@,
    );
    lemma_noted(e8, entry.range_min < 1, "数值曲线 "@ + entry.curve_key@ + " 的 range_min 必须大于或等于 1"@);
    let e10 = content_rules::noted(
        e9,
        entry.range_max < entry.range_min,
        "数值曲线 "@ + entry.curve_key@ + " 的 range_max 不能小于 range_min"@,
    );
    lemma_noted(
        e9,
        entry.range_max < entry.range_min,
        "数值曲线 "@ + entry.curve_key@ + " 的 range_max 不能小于 range_min"@,
    );
    let e11 = content_rules::noted(
        e10,
        entry.sort_order < 0,
        "数值曲线 "@ + entry.curve_key@ + " 的 sort_order 不能为负数"@,
    );
    lemma_noted(e10, entry.sort_order < 0, "数值曲线 "@ + entry.curve_key@ + " 的 sort_order 不能为负数"@);
    let e12 = content_rules::text_noted(
        e11,
        "numeric_curve.description"@,
        entry.description@,
        2000,
        true,
    );
    lemma_noted(
        e11,
        text::is_blank(entry.description@) || entry.description@.len() > 2000 || text::has_control(entry.description@),
        "numeric_curve.description"@ + " 为空、过长或包含控制字符"@,
    );
    lemma_within(e10, e11, e12);
    lemma_within(e9, e10, e12);
    lemma_within(e8, e9, e12);
    lemma_within(e7, e8, e12);
    lemma_within(e6, e7, e12);
    lemma_within(e5, e6, e12);
    lemma_within(e4, e5, e12);
    lemma_within(e3, e4, e12);
    lemma_within(e2, e3, e12);
    lemma_within(e1, e2, e12);
    lemma_within(errors, e1, e12);
    lemma_still(e1, e12, "数值曲线键重复："@ + entry.curve_key@);
    lemma_still(e2, e12, "数值曲线名称重复："@ + entry.name@);
    lemma_still(e3, e12, "数值曲线排序重复："@ + text::integer(entry.sort_order as int));
    lemma_still(e4, e12, "numeric_curve.curve_key"@ + " 不是合法小写内容键"@);
    lemma_still(e5, e12, "numeric_curve.name"@ + " 为空、过长或包含控制字符"@);
    lemma_still(e6, e12, "numeric_curve.unit"@ + " 为空、过长或包含控制字符"@);
    lemma_still(e7, e12, "numeric_curve.reference_key"@ + " 不是合法小写内容键"@);
    lemma_still(
        e8,
        e12,
        "数值曲线 "@ + entry.curve_key@ + " 的 reference_key 不受支持："@ + entry.reference_key@,
    );
    lemma_still(e9, e12, "数值曲线 "@ + entry.curve_key@ + " 的 range_min 必须大于或等于 1"@);
    lemma_still(e10, e12, "数值曲线 "@ + entry.curve_key@ + " 的 range_max 不能小于 range_min"@);
    lemma_still(e11, e12, "数值曲线 "@ + entry.curve_key@ + " 的 sort_order 不能为负数"@);
    lemma_same(e12);
    lemma_still(e12, e12, "numeric_curve.description"@ + " 为空、过长或包含控制字符"@);
    lemma_head(errors, e12);
}

/// Each fault of a modifier of a spirit is told in its own words, behind those that were told before.
pub proof fn faults_of_modifiers_are_told(
    errors: Seq<Seq<char>>,
    prefix: Seq<char>,
    stats: WuhunStatsPackageEntry,
)
    ensures
        ({
            let told = content_rules::percents_noted(errors, prefix, stats);
            &&& errors.is_prefix_of(told)
            &&& (stats.attack_percent < 1 || stats.attack_percent > 500) ==> told.contains(
                prefix + "."@ + "attack_percent"@ + " 必须在 1 到 500 之间"@,
            )
            &&& (stats.defense_percent < 1 || stats.defense_percent > 500) ==> told.contains(
                prefix + "."@ + "defense_percent"@ + " 必须在 1 到 500 之间"@,
            )
            &&& (stats.strength_percent < 1 || stats.strength_percent > 500) ==> told.contains(
                prefix + "."@ + "strength_percent"@ + " 必须在 1 到 500 之间"@,
            )
            &&& (stats.agility_percent < 1 || stats.agility_percent > 500) ==> told.contains(
                prefix + "."@ + "agility_percent"@ + " 必须在 1 到 500 之间"@,
            )
            &&& (stats.spirit_percent < 1 || stats.spirit_percent > 500) ==> told.contains(
                prefix + "."@ + "spirit_percent"@ + " 必须在 1 到 500 之间"@,
            )
            &&& (stats.endurance_percent < 1 || stats.endurance_percent > 500) ==> told.contains(
                prefix + "."@ + "endurance_percent"@ + " 必须在 1 到 500 之间"@,
            )
            &&& (stats.perception_percent < 1 || stats.perception_percent > 500) ==> told.contains(
                prefix + "."@ + "perception_percent"@ + " 必须在 1 到 500 之间"@,
            )
            &&& (stats.luck_percent < 1 || stats.luck_percent > 500) ==> told.contains(
                prefix + "."@ + "luck_percent"@ + " 必须在 1 到 500 之间"@,
            )
        }),
{
    let e1 = content_rules::percent_noted(
        errors,
        prefix,
        "attack_percent"@,
        stats.attack_percent as int,
    );
    lemma_noted(
        errors,
        stats.attack_percent < 1 || stats.attack_percent > 500,
        prefix + "."@ + "attack_percent"@ + " 必须在 1 到 500 之间"@,
    );
    let e2 = content_rules::percent_noted(
        e1,
        prefix,
        "defense_percent"@,
        stats.defense_percent as int,
    );
    lemma_noted(
        e1,
        stats.defense_percent < 1 || stats.defense_percent > 500,
        prefix + "."@ + "defense_percent"@ + " 必须在 1 到 500 之间"@,
    );
    let e3 = content_rules::percent_noted(
        e2,
        prefix,
        "strength_percent"@,
        stats.strength_percent as int,
    );
    lemma_noted(
        e2,
        stats.strength_percent < 1 || stats.strength_percent > 500,
        prefix + "."@ + "strength_percent"@ + " 必须在 1 到 500 之间"@,
    );
    let e4 = content_rules::percent_noted(
        e3,
        prefix,
        "agility_percent"@,
        stats.agility_percent as int,
    );
    lemma_noted(
        e3,
        stats.agility_percent < 1 || stats.agility_percent > 500,
        prefix + "."@ + "agility_percent"@ + " 必须在 1 到 500 之间"@,
    );
    let e5 = content_rules::percent_noted(
        e4,
        prefix,
        "spirit_percent"@,
        stats.spirit_percent as int,
    );
    lemma_noted(
        e4,
        stats.spirit_percent < 1 || stats.spirit_percent > 500,
        prefix + "."@ + "spirit_percent"@ + " 必须在 1 到 500 之间"@,
    );
    let e6 = content_rules::percent_noted(
        e5,
        prefix,
        "endurance_percent"@,
        stats.endurance_percent as int,
    );
    lemma_noted(
        e5,
        stats.endurance_percent < 1 || stats.endurance_percent > 500,
        prefix + "."@ + "endurance_percent"@ + " 必须在 1 到 500 之间"@,
    );
    let e7 = content_rules::percent_noted(
        e6,
        prefix,
        "perception_percent"@,
        stats.perception_percent as int,
    );
    lemma_noted(
        e6,
        stats.perception_percent < 1 || stats.perception_percent > 500,
        prefix + "."@ + "perception_percent"@ + " 必须在 1 到 500 之间"@,
    );
    let e8 = content_rules::percent_noted(e7, prefix, "luck_percent"@, stats.luck_percent as int);
    lemma_noted(
        e7,
        stats.luck_percent < 1 || stats.luck_percent > 500,
        prefix + "."@ + "luck_percent"@ + " 必须在 1 到 500 之间"@,
    );
    lemma_within(e6, e7, e8);
    lemma_within(e5, e6, e8);
    lemma_within(e4, e5, e8);
    lemma_within(e3, e4, e8);
    lemma_within(e2, e3, e8);
    lemma_within(e1, e2, e8);
    lemma_within(errors, e1, e8);
    lemma_still(e1, e8, prefix + "."@ + "attack_percent"@ + " 必须在 1 到 500 之间"@);
    lemma_still(e2, e8, prefix + "."@ + "defense_percent"@ + " 必须在 1 到 500 之间"@);
    lemma_still(e3, e8, prefix + "."@ + "strength_percent"@ + " 必须在 1 到 500 之间"@);
    lemma_still(e4, e8, prefix + "."@ + "agility_percent"@ + " 必须在 1 到 500 之间"@);
    lemma_still(e5, e8, prefix + "."@ + "spirit_percent"@ + " 必须在 1 到 500 之间"@);
    lemma_still(e6, e8, prefix + "."@ + "endurance_percent"@ + " 必须在 1 到 500 之间"@);
    lemma_still(e7, e8, prefix + "."@ + "perception_percent"@ + " 必须在 1 到 500 之间"@);
    lemma_same(e8);
    lemma_still(e8, e8, prefix + "."@ + "luck_percent"@ + " 必须在 1 到 500 之间"@);
    lemma_head(errors, e8);
}

proof fn lemma_percents_noted_keep(
    errors: Seq<Seq<char>>,
    prefix: Seq<char>,
    stats: WuhunStatsPackageEntry,
)
    ensures
        within(errors, content_rules::percents_noted(errors, prefix, stats)),
{
    faults_of_modifiers_are_told(errors, prefix, stats);
    lemma_head(errors, content_rules::percents_noted(errors, prefix, stats));
}

/// Each fault of a spirit is told in its own words, behind those that were told before.
pub proof fn faults_of_spirits_are_told(
    errors: Seq<Seq<char>>,
    entry: WuhunPackageEntry,
    name_repeats: bool,
)
    ensures
        ({
            let told = content_rules::wuhun_entry_errors(errors, entry, name_repeats);
            &&& errors.is_prefix_of(told)
            &&& name_repeats ==> told.contains("武魂名称重复："@ + entry.name@)
            &&& (text::is_blank(entry.name@) || entry.name@.len() > 128 || text::has_control(entry.name@)) ==> told.contains(
                "wuhun.name"@ + " 为空、过长或包含控制字符"@,
            )
            &&& (text::is_blank(entry.category@) || entry.category@.len() > 32 || text::has_control(entry.category@)) ==> told.contains(
                "wuhun.category"@ + " 为空、过长或包含控制字符"@,
            )
            &&& (!(entry.category@ == "强攻系"@ || entry.category@ == "控制系"@ || entry.category@ == "敏攻系"@ || entry.category@ == "辅助系"@ || entry.category@ == "防御系"@ || entry.category@ == "食物系"@)) ==> told.contains(
                "武魂 "@ + entry.name@ + " 的 category 不受支持"@,
            )
            &&& (text::is_blank(entry.form@) || entry.form@.len() > 128 || text::has_control(entry.form@)) ==> told.contains(
                "wuhun.form"@ + " 为空、过长或包含控制字符"@,
            )
            &&& (text::is_blank(entry.description@) || entry.description@.len() > 2000 || text::has_control(entry.description@)) ==> told.contains(
                "wuhun.description"@ + " 为空、过长或包含控制字符"@,
            )
            &&& entry.weight <= 0 ==> told.contains("武魂 "@ + entry.name@ + " 的 weight 必须大于 0"@)
        }),
{
    let e1 = content_rules::noted(errors, name_repeats, "武魂名称重复："@ + entry.name@);
    lemma_noted(errors, name_repeats, "武魂名称重复："@ + entry.name@);
    let e2 = content_rules::text_noted(e1, "wuhun.name"@, entry.name@, 128, true);
    lemma_noted(
        e1,
        text::is_blank(entry.name@) || entry.name@.len() > 128 || text::has_control(entry.name@),
        "wuhun.name"@ + " 为空、过长或包含控制字符"@,
    );
    let e3 = content_rules::text_noted(e2, "wuhun.category"@, entry.category@, 32, true);
    lemma_noted(
        e2,
        text::is_blank(entry.category@) || entry.category@.len() > 32 || text::has_control(entry.category@),
        "wuhun.category"@ + " 为空、过长或包含控制字符"@,
    );
    let e4 = content_rules::noted(
        e3,
        !(entry.category@ == "强攻系"@ || entry.category@ == "控制系"@ || entry.category@ == "敏攻系"@ || entry.category@ == "辅助系"@ || entry.category@ == "防御系"@ || entry.category@ == "食物系"@),
        "武魂 "@ + entry.name@ + " 的 category 不受支持"@,
    );
    lemma_noted(
        e3,
        !(entry.category@ == "强攻系"@ || entry.category@ == "控制系"@ || entry.category@ == "敏攻系"@ || entry.category@ == "辅助系"@ || entry.category@ == "防御系"@ || entry.category@ == "食物系"@),
        "武魂 "@ + entry.name@ + " 的 category 不受支持"@,
    );
    let e5 = content_rules::text_noted(e4, "wuhun.form"@, entry.form@, 128, true);
    lemma_noted(
        e4,
        text::is_blank(entry.form@) || entry.form@.len() > 128 || text::has_control(entry.form@),
        "wuhun.form"@ + " 为空、过长或包含控制字符"@,
    );
    let e6 = content_rules::text_noted(e5, "wuhun.description"@, entry.description@, 2000, true);
    lemma_noted(
        e5,
        text::is_blank(entry.description@) || entry.description@.len() > 2000 || text::has_control(entry.description@),
        "wuhun.description"@ + " 为空、过长或包含控制字符"@,
    );
    let e7 = content_rules::noted(
        e6,
        entry.weight <= 0,
        "武魂 "@ + entry.name@ + " 的 weight 必须大于 0"@,
    );
    lemma_noted(e6, entry.weight <= 0, "武魂 "@ + entry.name@ + " 的 weight 必须大于 0"@);
    let e8 = content_rules::percents_noted(e7, "武魂 "@ + entry.name@ + " 的属性"@, entry.stats);
    lemma_percents_noted_keep(e7, "武魂 "@ + entry.name@ + " 的属性"@, entry.stats);
    lemma_within(e6, e7, e8);
    lemma_within(e5, e6, e8);
    lemma_within(e4, e5, e8);
    lemma_within(e3, e4, e8);
    lemma_within(e2, e3, e8);
    lemma_within(e1, e2, e8);
    lemma_within(errors, e1, e8);
    lemma_still(e1, e8, "武魂名称重复："@ + entry.name@);
    lemma_still(e2, e8, "wuhun.name"@ + " 为空、过长或包含控制字符"@);
    lemma_still(e3, e8, "wuhun.category"@ + " 为空、过长或包含控制字符"@);
    lemma_still(e4, e8, "武魂 "@ + entry.name@ + " 的 category 不受支持"@);
    lemma_still(e5, e8, "wuhun.form"@ + " 为空、过长或包含控制字符"@);
    lemma_still(e6, e8, "wuhun.description"@ + " 为空、过长或包含控制字符"@);
    lemma_still(e7, e8, "武魂 "@ + entry.name@ + " 的 weight 必须大于 0"@);
    lemma_head(errors, e8);
}

/// Each fault of a skill is told in its own words, behind those that were told before.
#[verifier::rlimit(60)]
pub proof fn faults_of_skills_are_told(
    errors: Seq<Seq<char>>,
    entry: SkillPackageEntry,
    key_repeats: bool,
)
    ensures
        ({
            let told = content_rules::skill_entry_errors(errors, entry, key_repeats);
            &&& errors.is_prefix_of(told)
            &&& key_repeats ==> told.contains("魂技键重复："@ + entry.skill_key@)
            &&& !content_rules::is_key(entry.skill_key@) ==> told.contains(
                "skill.skill_key"@ + " 不是合法小写内容键"@,
            )
            &&& (text::is_blank(entry.name@) || entry.name@.len() > 128 || text::has_control(entry.name@)) ==> told.contains(
                "skill.name"@ + " 为空、过长或包含控制字符"@,
            )
            &&& (!(entry.skill_type@ == "active"@ || entry.skill_type@ == "passive"@ || entry.skill_type@ == "domain"@ || entry.skill_type@ == "ultimate"@)) ==> told.contains(
                "魂技 "@ + entry.skill_key@ + " 的 skill_type 不受支持"@,
            )
            &&& (!(entry.wuhun_category@ == "all"@ || entry.wuhun_category@ == "强攻系"@ || entry.wuhun_category@ == "控制系"@ || entry.wuhun_category@ == "敏攻系"@ || entry.wuhun_category@ == "辅助系"@ || entry.wuhun_category@ == "防御系"@ || entry.wuhun_category@ == "食物系"@)) ==> told.contains(
                "魂技 "@ + entry.skill_key@ + " 的 wuhun_category 不受支持"@,
            )
            &&& (entry.ring_index < 1 || entry.ring_index > 9) ==> told.contains(
                "skill.ring_index"@ + "("@ + entry.skill_key@ + ") 必须在 "@ + text::integer(1)
                    + " 到 "@ + text::integer(9) + " 之间"@,
            )
            &&& (entry.soul_power_cost < 1 || entry.soul_power_cost > 1000) ==> told.contains(
                "skill.soul_power_cost"@ + "("@ + entry.skill_key@ + ") 必须在 "@
                    + text::integer(1) + " 到 "@ + text::integer(1000) + " 之间"@,
            )
            &&& (entry.cooldown_rounds < 0 || entry.cooldown_rounds > 100) ==> told.contains(
                "skill.cooldown_rounds"@ + "("@ + entry.skill_key@ + ") 必须在 "@
                    + text::integer(0) + " 到 "@ + text::integer(100) + " 之间"@,
            )
            &&& (entry.base_damage < 1 || entry.base_damage > 1_000_000) ==> told.contains(
                "skill.base_damage"@ + "("@ + entry.skill_key@ + ") 必须在 "@ + text::integer(1)
                    + " 到 "@ + text::integer(1_000_000) + " 之间"@,
            )
            &&& (entry.spirit_ratio_percent < 0 || entry.spirit_ratio_percent > 1000) ==> told.contains(
                "skill.spirit_ratio_percent"@ + "("@ + entry.skill_key@ + ") 必须在 "@
                    + text::integer(0) + " 到 "@ + text::integer(1000) + " 之间"@,
            )
            &&& (entry.strength_ratio_percent < 0 || entry.strength_ratio_percent > 1000) ==> told.contains(
                "skill.strength_ratio_percent"@ + "("@ + entry.skill_key@ + ") 必须在 "@
                    + text::integer(0) + " 到 "@ + text::integer(1000) + " 之间"@,
            )
            &&& (text::is_blank(entry.description@) || entry.description@.len() > 2000 || text::has_control(entry.description@)) ==> told.contains(
                "skill.description"@ + " 为空、过长或包含控制字符"@,
            )
            &&& entry.starter && entry.ring_index != 1 ==> told.contains(
                "skill "@ + entry.skill_key@ + " starter requires ring_index = 1"@,
            )
        }),
{
    let e1 = content_rules::noted(errors, key_repeats, "魂技键重复："@ + entry.skill_key@);
    lemma_noted(errors, key_repeats, "魂技键重复："@ + entry.skill_key@);
    let e2 = content_rules::key_noted(e1, "skill.skill_key"@, entry.skill_key@);
    lemma_noted(e1, !content_rules::is_key(entry.skill_key@), "skill.skill_key"@ + " 不是合法小写内容键"@);
    let e3 = content_rules::text_noted(e2, "skill.name"@, entry.name@, 128, true);
    lemma_noted(
        e2,
        text::is_blank(entry.name@) || entry.name@.len() > 128 || text::has_control(entry.name@),
        "skill.name"@ + " 为空、过长或包含控制字符"@,
    );
    let e4 = content_rules::noted(
        e3,
        !(entry.skill_type@ == "active"@ || entry.skill_type@ == "passive"@ || entry.skill_type@ == "domain"@ || entry.skill_type@ == "ultimate"@),
        "魂技 "@ + entry.skill_key@ + " 的 skill_type 不受支持"@,
    );
    lemma_noted(
        e3,
        !(entry.skill_type@ == "active"@ || entry.skill_type@ == "passive"@ || entry.skill_type@ == "domain"@ || entry.skill_type@ == "ultimate"@),
        "魂技 "@ + entry.skill_key@ + " 的 skill_type 不受支持"@,
    );
    let e5 = content_rules::noted(
        e4,
        !(entry.wuhun_category@ == "all"@ || entry.wuhun_category@ == "强攻系"@ || entry.wuhun_category@ == "控制系"@ || entry.wuhun_category@ == "敏攻系"@ || entry.wuhun_category@ == "辅助系"@ || entry.wuhun_category@ == "防御系"@ || entry.wuhun_category@ == "食物系"@),
        "魂技 "@ + entry.skill_key@ + " 的 wuhun_category 不受支持"@,
    );
    lemma_noted(
        e4,
        !(entry.wuhun_category@ == "all"@ || entry.wuhun_category@ == "强攻系"@ || entry.wuhun_category@ == "控制系"@ || entry.wuhun_category@ == "敏攻系"@ || entry.wuhun_category@ == "辅助系"@ || entry.wuhun_category@ == "防御系"@ || entry.wuhun_category@ == "食物系"@),
        "魂技 "@ + entry.skill_key@ + " 的 wuhun_category 不受支持"@,
    );
    let e6 = content_rules::range_noted(
        e5,
        "skill.ring_index"@,
        entry.skill_key@,
        entry.ring_index as int,
        1,
        9,
    );
    lemma_noted(
        e5,
        entry.ring_index < 1 || entry.ring_index > 9,
        "skill.ring_index"@ + "("@ + entry.skill_key@ + ") 必须在 "@ + text::integer(1) + " 到 "@
            + text::integer(9) + " 之间"@,
    );
    let e7 = content_rules::range_noted(
        e6,
        "skill.soul_power_cost"@,
        entry.skill_key@,
        entry.soul_power_cost as int,
        1,
        1000,
    );
    lemma_noted(
        e6,
        entry.soul_power_cost < 1 || entry.soul_power_cost > 1000,
        "skill.soul_power_cost"@ + "("@ + entry.skill_key@ + ") 必须在 "@ + text::integer(1)
            + " 到 "@ + text::integer(1000) + " 之间"@,
    );
    let e8 = content_rules::range_noted(
        e7,
        "skill.cooldown_rounds"@,
        entry.skill_key@,
        entry.cooldown_rounds as int,
        0,
        100,
    );
    lemma_noted(
        e7,
        entry.cooldown_rounds < 0 || entry.cooldown_rounds > 100,
        "skill.cooldown_rounds"@ + "("@ + entry.skill_key@ + ") 必须在 "@ + text::integer(0)
            + " 到 "@ + text::integer(100) + " 之间"@,
    );
    let e9 = content_rules::range_noted(
        e8,
        "skill.base_damage"@,
        entry.skill_key@,
        entry.base_damage as int,
        1,
        1_000_000,
    );
    lemma_noted(
        e8,
        entry.base_damage < 1 || entry.base_damage > 1_000_000,
        "skill.base_damage"@ + "("@ + entry.skill_key@ + ") 必须在 "@ + text::integer(1) + " 到 "@
            + text::integer(1_000_000) + " 之间"@,
    );
    let e10 = content_rules::range_noted(
        e9,
        "skill.spirit_ratio_percent"@,
        entry.skill_key@,
        entry.spirit_ratio_percent as int,
        0,
        1000,
    );
    lemma_noted(
        e9,
        entry.spirit_ratio_percent < 0 || entry.spirit_ratio_percent > 1000,
        "skill.spirit_ratio_percent"@ + "("@ + entry.skill_key@ + ") 必须在 "@ + text::integer(0)
            + " 到 "@ + text::integer(1000) + " 之间"@,
    );
    let e11 = content_rules::range_noted(
        e10,
        "skill.strength_ratio_percent"@,
        entry.skill_key@,
        entry.strength_ratio_percent as int,
        0,
        1000,
    );
    lemma_noted(
        e10,
        entry.strength_ratio_percent < 0 || entry.strength_ratio_percent > 1000,
        "skill.strength_ratio_percent"@ + "("@ + entry.skill_key@ + ") 必须在 "@ + text::integer(0)
            + " 到 "@ + text::integer(1000) + " 之间"@,
    );
    let e12 = content_rules::text_noted(e11, "skill.description"@, entry.description@, 2000, true);
    lemma_noted(
        e11,
        text::is_blank(entry.description@) || entry.description@.len() > 2000 || text::has_control(entry.description@),
        "skill.description"@ + " 为空、过长或包含控制字符"@,
    );
    let e13 = content_rules::noted(
        e12,
        entry.starter && entry.ring_index != 1,
        "skill "@ + entry.skill_key@ + " starter requires ring_index = 1"@,
    );
    lemma_noted(
        e12,
        entry.starter && entry.ring_index != 1,
        "skill "@ + entry.skill_key@ + " starter requires ring_index = 1"@,
    );
    lemma_within(e11, e12, e13);
    lemma_within(e10, e11, e13);
    lemma_within(e9, e10, e13);
    lemma_within(e8, e9, e13);
    lemma_within(e7, e8, e13);
    lemma_within(e6, e7, e13);
    lemma_within(e5, e6, e13);
    lemma_within(e4, e5, e13);
    lemma_within(e3, e4, e13);
    lemma_within(e2, e3, e13);
    lemma_within(e1, e2, e13);
    lemma_within(errors, e1, e13);
    lemma_still(e1, e13, "魂技键重复："@ + entry.skill_key@);
    lemma_still(e2, e13, "skill.skill_key"@ + " 不是合法小写内容键"@);
    lemma_still(e3, e13, "skill.name"@ + " 为空、过长或包含控制字符"@);
    lemma_still(e4, e13, "魂技 "@ + entry.skill_key@ + " 的 skill_type 不受支持"@);
    lemma_still(e5, e13, "魂技 "@ + entry.skill_key@ + " 的 wuhun_category 不受支持"@);
    lemma_still(
        e6,
        e13,
        "skill.ring_index"@ + "("@ + entry.skill_key@ + ") 必须在 "@ + text::integer(1) + " 到 "@
            + text::integer(9) + " 之间"@,
    );
    lemma_still(
        e7,
        e13,
        "skill.soul_power_cost"@ + "("@ + entry.skill_key@ + ") 必须在 "@ + text::integer(1)
            + " 到 "@ + text::integer(1000) + " 之间"@,
    );
    lemma_still(
        e8,
        e13,
        "skill.cooldown_rounds"@ + "("@ + entry.skill_key@ + ") 必须在 "@ + text::integer(0)
            + " 到 "@ + text::integer(100) + " 之间"@,
    );
    lemma_still(
        e9,
        e13,
        "skill.base_damage"@ + "("@ + entry.skill_key@ + ") 必须在 "@ + text::integer(1) + " 到 "@
            + text::integer(1_000_000) + " 之间"@,
    );
    lemma_still(
        e10,
        e13,
        "skill.spirit_ratio_percent"@ + "("@ + entry.skill_key@ + ") 必须在 "@ + text::integer(0)
            + " 到 "@ + text::integer(1000) + " 之间"@,
    );
    lemma_still(
        e11,
        e13,
        "skill.strength_ratio_percent"@ + "("@ + entry.skill_key@ + ") 必须在 "@ + text::integer(0)
            + " 到 "@ + text::integer(1000) + " 之间"@,
    );
    lemma_still(e12, e13, "skill.description"@ + " 为空、过长或包含控制字符"@);
    lemma_same(e13);
    lemma_still(e13, e13, "skill "@ + entry.skill_key@ + " starter requires ring_index = 1"@);
    lemma_head(errors, e13);
}

/// Each fault of the kind of an effect is told in its own words, behind those that were told before.
pub proof fn faults_of_effect_kinds_are_told(errors: Seq<Seq<char>>, entry: EffectPackageEntry)
    ensures
        ({
            let told = content_rules::effect_node_errors(errors, entry);
            &&& errors.is_prefix_of(told)
            &&& !content_rules::is_key(entry.effect_key@) ==> told.contains(
                "effect.effect_key"@ + " 不是合法小写内容键"@,
            )
            &&& !content_rules::is_key(entry.skill_key@) ==> told.contains(
                "effect.skill_key"@ + " 不是合法小写内容键"@,
            )
            &&& entry.trigger_kind@ != "on_release"@ ==> told.contains(
                "效果 "@ + entry.effect_key@ + " 当前只支持 on_release"@,
            )
            &&& (!(entry.target_kind@ == "self"@ || entry.target_kind@ == "enemy"@ || entry.target_kind@ == "beast"@)) ==> told.contains(
                "效果 "@ + entry.effect_key@ + " 当前只支持 self、enemy 或 beast"@,
            )
            &&& !(content_rules::is_beast_attack_reduction(entry)) && !(content_rules::is_poison_damage(entry)) && !(content_rules::is_stun_control(entry)) && !(content_rules::is_shield_protection(entry)) && !(content_rules::is_heal_restore(entry)) && !(content_rules::is_target_selection(entry)) && !(content_rules::is_forbid_skill(entry)) ==> told.contains(
                "效果 "@ + entry.effect_key@
                    + " 当前只支持减攻、poison-v1 中毒伤害、stun-v1 眩晕、shield-v1 护盾、heal-v1 治疗、target-v1 目标或 forbid-skill-v1 禁技节点"@,
            )
        }),
{
    let beast_attack_reduction = content_rules::is_beast_attack_reduction(entry);
    let poison_damage = content_rules::is_poison_damage(entry);
    let stun_control = content_rules::is_stun_control(entry);
    let shield_protection = content_rules::is_shield_protection(entry);
    let heal_restore = content_rules::is_heal_restore(entry);
    let target_selection = content_rules::is_target_selection(entry);
    let forbid_skill = content_rules::is_forbid_skill(entry);
    let e1 = content_rules::key_noted(errors, "effect.effect_key"@, entry.effect_key@);
    lemma_noted(
        errors,
        !content_rules::is_key(entry.effect_key@),
        "effect.effect_key"@ + " 不是合法小写内容键"@,
    );
    let e2 = content_rules::key_noted(e1, "effect.skill_key"@, entry.skill_key@);
    lemma_noted(e1, !content_rules::is_key(entry.skill_key@), "effect.skill_key"@ + " 不是合法小写内容键"@);
    let e3 = content_rules::noted(
        e2,
        entry.trigger_kind@ != "on_release"@,
        "效果 "@ + entry.effect_key@ + " 当前只支持 on_release"@,
    );
    lemma_noted(
        e2,
        entry.trigger_kind@ != "on_release"@,
        "效果 "@ + entry.effect_key@ + " 当前只支持 on_release"@,
    );
    let e4 = content_rules::noted(
        e3,
        !(entry.target_kind@ == "self"@ || entry.target_kind@ == "enemy"@ || entry.target_kind@ == "beast"@),
        "效果 "@ + entry.effect_key@ + " 当前只支持 self、enemy 或 beast"@,
    );
    lemma_noted(
        e3,
        !(entry.target_kind@ == "self"@ || entry.target_kind@ == "enemy"@ || entry.target_kind@ == "beast"@),
        "效果 "@ + entry.effect_key@ + " 当前只支持 self、enemy 或 beast"@,
    );
    let e5 = content_rules::noted(
        e4,
        !beast_attack_reduction && !poison_damage && !stun_control && !shield_protection && !heal_restore && !target_selection && !forbid_skill,
        "效果 "@ + entry.effect_key@
            + " 当前只支持减攻、poison-v1 中毒伤害、stun-v1 眩晕、shield-v1 护盾、heal-v1 治疗、target-v1 目标或 forbid-skill-v1 禁技节点"@,
    );
    lemma_noted(
        e4,
        !beast_attack_reduction && !poison_damage && !stun_control && !shield_protection && !heal_restore && !target_selection && !forbid_skill,
        "效果 "@ + entry.effect_key@
            + " 当前只支持减攻、poison-v1 中毒伤害、stun-v1 眩晕、shield-v1 护盾、heal-v1 治疗、target-v1 目标或 forbid-skill-v1 禁技节点"@,
    );
    lemma_within(e3, e4, e5);
    lemma_within(e2, e3, e5);
    lemma_within(e1, e2, e5);
    lemma_within(errors, e1, e5);
    lemma_still(e1, e5, "effect.effect_key"@ + " 不是合法小写内容键"@);
    lemma_still(e2, e5, "effect.skill_key"@ + " 不是合法小写内容键"@);
    lemma_still(e3, e5, "效果 "@ + entry.effect_key@ + " 当前只支持 on_release"@);
    lemma_still(e4, e5, "效果 "@ + entry.effect_key@ + " 当前只支持 self、enemy 或 beast"@);
    lemma_same(e5);
    lemma_still(
        e5,
        e5,
        "效果 "@ + entry.effect_key@
            + " 当前只支持减攻、poison-v1 中毒伤害、stun-v1 眩晕、shield-v1 护盾、heal-v1 治疗、target-v1 目标或 forbid-skill-v1 禁技节点"@,
    );
    lemma_head(errors, e5);
}

/// Each fault of the value of an effect is told in its own words, behind those that were told before.
pub proof fn faults_of_effect_values_are_told(errors: Seq<Seq<char>>, entry: EffectPackageEntry)
    ensures
        ({
            let told = content_rules::effect_value_errors(errors, entry);
            &&& errors.is_prefix_of(told)
            &&& (content_rules::is_beast_attack_reduction(entry)) && !(-90 <= entry.value && entry.value <= -1) ==> told.contains(
                "效果 "@ + entry.effect_key@ + " 的 value 必须是 -1 到 -90 的 percent_delta"@,
            )
            &&& (content_rules::is_poison_damage(entry)) && !(1 <= entry.value && entry.value <= 1_000_000) ==> told.contains(
                "效果 "@ + entry.effect_key@ + " 的 poison-v1 value 必须是 1 到 "@
                    + text::integer(1_000_000 as int) + " 的 absolute"@,
            )
            &&& (content_rules::is_stun_control(entry)) && entry.value != 1 ==> told.contains(
                "效果 "@ + entry.effect_key@ + " 的 stun-v1 value 必须固定为 "@
                    + text::integer(1 as int) + " 的 absolute"@,
            )
            &&& (entry.duration_rounds < 1 || entry.duration_rounds > 100) ==> told.contains(
                "effect.duration_rounds"@ + "("@ + entry.effect_key@ + ") 必须在 "@
                    + text::integer(1) + " 到 "@ + text::integer(100) + " 之间"@,
            )
            &&& entry.chance_percent != 100 ==> told.contains(
                "效果 "@ + entry.effect_key@ + " 当前 chance_percent 必须为 100"@,
            )
            &&& (!(entry.stack_policy@ == "strongest"@ || entry.stack_policy@ == "add"@ || entry.stack_policy@ == "refresh"@ || entry.stack_policy@ == "replace"@)) ==> told.contains(
                "效果 "@ + entry.effect_key@ + " 的 stack_policy 不受支持"@,
            )
            &&& (content_rules::is_beast_attack_reduction(entry)) && entry.parameters@.len() > 0 ==> told.contains(
                "效果 "@ + entry.effect_key@ + " 当前不允许非空 parameters"@,
            )
        }),
{
    let beast_attack_reduction = content_rules::is_beast_attack_reduction(entry);
    let poison_damage = content_rules::is_poison_damage(entry);
    let stun_control = content_rules::is_stun_control(entry);
    let e1 = content_rules::noted(
        errors,
        beast_attack_reduction && !(-90 <= entry.value && entry.value <= -1),
        "效果 "@ + entry.effect_key@ + " 的 value 必须是 -1 到 -90 的 percent_delta"@,
    );
    lemma_noted(
        errors,
        beast_attack_reduction && !(-90 <= entry.value && entry.value <= -1),
        "效果 "@ + entry.effect_key@ + " 的 value 必须是 -1 到 -90 的 percent_delta"@,
    );
    let e2 = content_rules::noted(
        e1,
        poison_damage && !(1 <= entry.value && entry.value <= 1_000_000),
        "效果 "@ + entry.effect_key@ + " 的 poison-v1 value 必须是 1 到 "@
            + text::integer(1_000_000 as int) + " 的 absolute"@,
    );
    lemma_noted(
        e1,
        poison_damage && !(1 <= entry.value && entry.value <= 1_000_000),
        "效果 "@ + entry.effect_key@ + " 的 poison-v1 value 必须是 1 到 "@
            + text::integer(1_000_000 as int) + " 的 absolute"@,
    );
    let e3 = content_rules::noted(
        e2,
        stun_control && entry.value != 1,
        "效果 "@ + entry.effect_key@ + " 的 stun-v1 value 必须固定为 "@ + text::integer(1 as int)
            + " 的 absolute"@,
    );
    lemma_noted(
        e2,
        stun_control && entry.value != 1,
        "效果 "@ + entry.effect_key@ + " 的 stun-v1 value 必须固定为 "@ + text::integer(1 as int)
            + " 的 absolute"@,
    );
    let e4 = content_rules::range_noted(
        e3,
        "effect.duration_rounds"@,
        entry.effect_key@,
        entry.duration_rounds as int,
        1,
        100,
    );
    lemma_noted(
        e3,
        entry.duration_rounds < 1 || entry.duration_rounds > 100,
        "effect.duration_rounds"@ + "("@ + entry.effect_key@ + ") 必须在 "@ + text::integer(1)
            + " 到 "@ + text::integer(100) + " 之间"@,
    );
    let e5 = content_rules::noted(
        e4,
        entry.chance_percent != 100,
        "效果 "@ + entry.effect_key@ + " 当前 chance_percent 必须为 100"@,
    );
    lemma_noted(
        e4,
        entry.chance_percent != 100,
        "效果 "@ + entry.effect_key@ + " 当前 chance_percent 必须为 100"@,
    );
    let e6 = content_rules::noted(
        e5,
        !(entry.stack_policy@ == "strongest"@ || entry.stack_policy@ == "add"@ || entry.stack_policy@ == "refresh"@ || entry.stack_policy@ == "replace"@),
        "效果 "@ + entry.effect_key@ + " 的 stack_policy 不受支持"@,
    );
    lemma_noted(
        e5,
        !(entry.stack_policy@ == "strongest"@ || entry.stack_policy@ == "add"@ || entry.stack_policy@ == "refresh"@ || entry.stack_policy@ == "replace"@),
        "效果 "@ + entry.effect_key@ + " 的 stack_policy 不受支持"@,
    );
    let e7 = content_rules::noted(
        e6,
        beast_attack_reduction && entry.parameters@.len() > 0,
        "效果 "@ + entry.effect_key@ + " 当前不允许非空 parameters"@,
    );
    lemma_noted(
        e6,
        beast_attack_reduction && entry.parameters@.len() > 0,
        "效果 "@ + entry.effect_key@ + " 当前不允许非空 parameters"@,
    );
    lemma_within(e5, e6, e7);
    lemma_within(e4, e5, e7);
    lemma_within(e3, e4, e7);
    lemma_within(e2, e3, e7);
    lemma_within(e1, e2, e7);
    lemma_within(errors, e1, e7);
    lemma_still(e1, e7, "效果 "@ + entry.effect_key@ + " 的 value 必须是 -1 到 -90 的 percent_delta"@);
    lemma_still(
        e2,
        e7,
        "效果 "@ + entry.effect_key@ + " 的 poison-v1 value 必须是 1 到 "@
            + text::integer(1_000_000 as int) + " 的 absolute"@,
    );
    lemma_still(
        e3,
        e7,
        "效果 "@ + entry.effect_key@ + " 的 stun-v1 value 必须固定为 "@ + text::integer(1 as int)
            + " 的 absolute"@,
    );
    lemma_still(
        e4,
        e7,
        "effect.duration_rounds"@ + "("@ + entry.effect_key@ + ") 必须在 "@ + text::integer(1)
            + " 到 "@ + text::integer(100) + " 之间"@,
    );
    lemma_still(e5, e7, "效果 "@ + entry.effect_key@ + " 当前 chance_percent 必须为 100"@);
    lemma_still(e6, e7, "效果 "@ + entry.effect_key@ + " 的 stack_policy 不受支持"@);
    lemma_same(e7);
    lemma_still(e7, e7, "效果 "@ + entry.effect_key@ + " 当前不允许非空 parameters"@);
    lemma_head(errors, e7);
}

/// Each fault of poison and stun is told in its own words, behind those that were told before.
pub proof fn faults_of_poison_and_stun_are_told(errors: Seq<Seq<char>>, entry: EffectPackageEntry)
    ensures
        ({
            let told = content_rules::poison_and_stun_errors(errors, entry);
            &&& errors.is_prefix_of(told)
            &&& (content_rules::is_poison_damage(entry)) && !content::poison_v1(entry.parameters@) ==> told.contains(
                "效果 "@ + entry.effect_key@ + " 的 poison-v1 parameters 必须固定声明规则版本、结算时机和间隔"@,
            )
            &&& (content_rules::is_stun_control(entry)) && entry.stack_policy@ != "refresh"@ ==> told.contains(
                "效果 "@ + entry.effect_key@ + " 的 stun-v1 stack_policy 必须是 refresh"@,
            )
            &&& (content_rules::is_stun_control(entry)) && !(1 <= entry.duration_rounds && entry.duration_rounds <= 10) ==> told.contains(
                "效果 "@ + entry.effect_key@ + " 的 stun-v1 duration_rounds 必须在 1 到 "@
                    + text::integer(10 as int) + " 之间"@,
            )
            &&& (content_rules::is_stun_control(entry)) && !content::stun_v1(entry.parameters@) ==> told.contains(
                "效果 "@ + entry.effect_key@ + " 的 stun-v1 parameters 必须固定声明规则版本、结算时机和反击行为"@,
            )
        }),
{
    let poison_damage = content_rules::is_poison_damage(entry);
    let stun_control = content_rules::is_stun_control(entry);
    let e1 = content_rules::noted(
        errors,
        poison_damage && !content::poison_v1(entry.parameters@),
        "效果 "@ + entry.effect_key@ + " 的 poison-v1 parameters 必须固定声明规则版本、结算时机和间隔"@,
    );
    lemma_noted(
        errors,
        poison_damage && !content::poison_v1(entry.parameters@),
        "效果 "@ + entry.effect_key@ + " 的 poison-v1 parameters 必须固定声明规则版本、结算时机和间隔"@,
    );
    let e2 = content_rules::noted(
        e1,
        stun_control && entry.stack_policy@ != "refresh"@,
        "效果 "@ + entry.effect_key@ + " 的 stun-v1 stack_policy 必须是 refresh"@,
    );
    lemma_noted(
        e1,
        stun_control && entry.stack_policy@ != "refresh"@,
        "效果 "@ + entry.effect_key@ + " 的 stun-v1 stack_policy 必须是 refresh"@,
    );
    let e3 = content_rules::noted(
        e2,
        stun_control && !(1 <= entry.duration_rounds && entry.duration_rounds <= 10),
        "效果 "@ + entry.effect_key@ + " 的 stun-v1 duration_rounds 必须在 1 到 "@
            + text::integer(10 as int) + " 之间"@,
    );
    lemma_noted(
        e2,
        stun_control && !(1 <= entry.duration_rounds && entry.duration_rounds <= 10),
        "效果 "@ + entry.effect_key@ + " 的 stun-v1 duration_rounds 必须在 1 到 "@
            + text::integer(10 as int) + " 之间"@,
    );
    let e4 = content_rules::noted(
        e3,
        stun_control && !content::stun_v1(entry.parameters@),
        "效果 "@ + entry.effect_key@ + " 的 stun-v1 parameters 必须固定声明规则版本、结算时机和反击行为"@,
    );
    lemma_noted(
        e3,
        stun_control && !content::stun_v1(entry.parameters@),
        "效果 "@ + entry.effect_key@ + " 的 stun-v1 parameters 必须固定声明规则版本、结算时机和反击行为"@,
    );
    lemma_within(e2, e3, e4);
    lemma_within(e1, e2, e4);
    lemma_within(errors, e1, e4);
    lemma_still(e1, e4, "效果 "@ + entry.effect_key@ + " 的 poison-v1 parameters 必须固定声明规则版本、结算时机和间隔"@);
    lemma_still(e2, e4, "效果 "@ + entry.effect_key@ + " 的 stun-v1 stack_policy 必须是 refresh"@);
    lemma_still(
        e3,
        e4,
        "效果 "@ + entry.effect_key@ + " 的 stun-v1 duration_rounds 必须在 1 到 "@
            + text::integer(10 as int) + " 之间"@,
    );
    lemma_same(e4);
    lemma_still(e4, e4, "效果 "@ + entry.effect_key@ + " 的 stun-v1 parameters 必须固定声明规则版本、结算时机和反击行为"@);
    lemma_head(errors, e4);
}

/// Each fault of a shield is told in its own words, behind those that were told before.
pub proof fn faults_of_shields_are_told(errors: Seq<Seq<char>>, entry: EffectPackageEntry)
    ensures
        ({
            let told = content_rules::shield_errors(errors, entry);
            &&& errors.is_prefix_of(told)
            &&& (content_rules::is_shield_protection(entry)) && entry.value != 1 ==> told.contains(
                "效果 "@ + entry.effect_key@ + " 的 shield-v1 value 必须固定为 "@
                    + text::integer(1 as int) + " 的 absolute"@,
            )
            &&& (content_rules::is_shield_protection(entry)) && entry.stack_policy@ != "refresh"@ ==> told.contains(
                "效果 "@ + entry.effect_key@ + " 的 shield-v1 stack_policy 必须是 refresh"@,
            )
            &&& (content_rules::is_shield_protection(entry)) && !(1 <= entry.duration_rounds && entry.duration_rounds <= 10) ==> told.contains(
                "效果 "@ + entry.effect_key@ + " 的 shield-v1 duration_rounds 必须在 1 到 "@
                    + text::integer(10 as int) + " 之间"@,
            )
            &&& (content_rules::is_shield_protection(entry)) && !content::shield_v1(entry.parameters@) ==> told.contains(
                "效果 "@ + entry.effect_key@ + " 的 shield-v1 parameters 必须固定声明规则版本、结算时机和反击行为"@,
            )
        }),
{
    let shield_protection = content_rules::is_shield_protection(entry);
    let e1 = content_rules::noted(
        errors,
        shield_protection && entry.value != 1,
        "效果 "@ + entry.effect_key@ + " 的 shield-v1 value 必须固定为 "@ + text::integer(1 as int)
            + " 的 absolute"@,
    );
    lemma_noted(
        errors,
        shield_protection && entry.value != 1,
        "效果 "@ + entry.effect_key@ + " 的 shield-v1 value 必须固定为 "@ + text::integer(1 as int)
            + " 的 absolute"@,
    );
    let e2 = content_rules::noted(
        e1,
        shield_protection && entry.stack_policy@ != "refresh"@,
        "效果 "@ + entry.effect_key@ + " 的 shield-v1 stack_policy 必须是 refresh"@,
    );
    lemma_noted(
        e1,
        shield_protection && entry.stack_policy@ != "refresh"@,
        "效果 "@ + entry.effect_key@ + " 的 shield-v1 stack_policy 必须是 refresh"@,
    );
    let e3 = content_rules::noted(
        e2,
        shield_protection && !(1 <= entry.duration_rounds && entry.duration_rounds <= 10),
        "效果 "@ + entry.effect_key@ + " 的 shield-v1 duration_rounds 必须在 1 到 "@
            + text::integer(10 as int) + " 之间"@,
    );
    lemma_noted(
        e2,
        shield_protection && !(1 <= entry.duration_rounds && entry.duration_rounds <= 10),
        "效果 "@ + entry.effect_key@ + " 的 shield-v1 duration_rounds 必须在 1 到 "@
            + text::integer(10 as int) + " 之间"@,
    );
    let e4 = content_rules::noted(
        e3,
        shield_protection && !content::shield_v1(entry.parameters@),
        "效果 "@ + entry.effect_key@ + " 的 shield-v1 parameters 必须固定声明规则版本、结算时机和反击行为"@,
    );
    lemma_noted(
        e3,
        shield_protection && !content::shield_v1(entry.parameters@),
        "效果 "@ + entry.effect_key@ + " 的 shield-v1 parameters 必须固定声明规则版本、结算时机和反击行为"@,
    );
    lemma_within(e2, e3, e4);
    lemma_within(e1, e2, e4);
    lemma_within(errors, e1, e4);
    lemma_still(
        e1,
        e4,
        "效果 "@ + entry.effect_key@ + " 的 shield-v1 value 必须固定为 "@ + text::integer(1 as int)
            + " 的 absolute"@,
    );
    lemma_still(e2, e4, "效果 "@ + entry.effect_key@ + " 的 shield-v1 stack_policy 必须是 refresh"@);
    lemma_still(
        e3,
        e4,
        "效果 "@ + entry.effect_key@ + " 的 shield-v1 duration_rounds 必须在 1 到 "@
            + text::integer(10 as int) + " 之间"@,
    );
    lemma_same(e4);
    lemma_still(
        e4,
        e4,
        "效果 "@ + entry.effect_key@ + " 的 shield-v1 parameters 必须固定声明规则版本、结算时机和反击行为"@,
    );
    lemma_head(errors, e4);
}

/// Each fault of healing is told in its own words, behind those that were told before.
pub proof fn faults_of_healing_are_told(errors: Seq<Seq<char>>, entry: EffectPackageEntry)
    ensures
        ({
            let told = content_rules::heal_errors(errors, entry);
            &&& errors.is_prefix_of(told)
            &&& (content_rules::is_heal_restore(entry)) && !(1 <= entry.value && entry.value <= 1_000_000) ==> told.contains(
                "效果 "@ + entry.effect_key@ + " 的 heal-v1 value 必须在 1 到 "@
                    + text::integer(1_000_000 as int) + " 之间"@,
            )
            &&& (content_rules::is_heal_restore(entry)) && entry.duration_rounds != 1 ==> told.contains(
                "效果 "@ + entry.effect_key@ + " 的 heal-v1 duration_rounds 必须固定为 1"@,
            )
            &&& (content_rules::is_heal_restore(entry)) && entry.stack_policy@ != "add"@ ==> told.contains(
                "效果 "@ + entry.effect_key@ + " 的 heal-v1 stack_policy 必须是 add"@,
            )
            &&& (content_rules::is_heal_restore(entry)) && !content::heal_v1(entry.parameters@) ==> told.contains(
                "效果 "@ + entry.effect_key@ + " 的 heal-v1 parameters 必须固定声明规则版本、结算时机和溢出行为"@,
            )
        }),
{
    let heal_restore = content_rules::is_heal_restore(entry);
    let e1 = content_rules::noted(
        errors,
        heal_restore && !(1 <= entry.value && entry.value <= 1_000_000),
        "效果 "@ + entry.effect_key@ + " 的 heal-v1 value 必须在 1 到 "@
            + text::integer(1_000_000 as int) + " 之间"@,
    );
    lemma_noted(
        errors,
        heal_restore && !(1 <= entry.value && entry.value <= 1_000_000),
        "效果 "@ + entry.effect_key@ + " 的 heal-v1 value 必须在 1 到 "@
            + text::integer(1_000_000 as int) + " 之间"@,
    );
    let e2 = content_rules::noted(
        e1,
        heal_restore && entry.duration_rounds != 1,
        "效果 "@ + entry.effect_key@ + " 的 heal-v1 duration_rounds 必须固定为 1"@,
    );
    lemma_noted(
        e1,
        heal_restore && entry.duration_rounds != 1,
        "效果 "@ + entry.effect_key@ + " 的 heal-v1 duration_rounds 必须固定为 1"@,
    );
    let e3 = content_rules::noted(
        e2,
        heal_restore && entry.stack_policy@ != "add"@,
        "效果 "@ + entry.effect_key@ + " 的 heal-v1 stack_policy 必须是 add"@,
    );
    lemma_noted(
        e2,
        heal_restore && entry.stack_policy@ != "add"@,
        "效果 "@ + entry.effect_key@ + " 的 heal-v1 stack_policy 必须是 add"@,
    );
    let e4 = content_rules::noted(
        e3,
        heal_restore && !content::heal_v1(entry.parameters@),
        "效果 "@ + entry.effect_key@ + " 的 heal-v1 parameters 必须固定声明规则版本、结算时机和溢出行为"@,
    );
    lemma_noted(
        e3,
        heal_restore && !content::heal_v1(entry.parameters@),
        "效果 "@ + entry.effect_key@ + " 的 heal-v1 parameters 必须固定声明规则版本、结算时机和溢出行为"@,
    );
    lemma_within(e2, e3, e4);
    lemma_within(e1, e2, e4);
    lemma_within(errors, e1, e4);
    lemma_still(
        e1,
        e4,
        "效果 "@ + entry.effect_key@ + " 的 heal-v1 value 必须在 1 到 "@
            + text::integer(1_000_000 as int) + " 之间"@,
    );
    lemma_still(e2, e4, "效果 "@ + entry.effect_key@ + " 的 heal-v1 duration_rounds 必须固定为 1"@);
    lemma_still(e3, e4, "效果 "@ + entry.effect_key@ + " 的 heal-v1 stack_policy 必须是 add"@);
    lemma_same(e4);
    lemma_still(e4, e4, "效果 "@ + entry.effect_key@ + " 的 heal-v1 parameters 必须固定声明规则版本、结算时机和溢出行为"@);
    lemma_head(errors, e4);
}

/// Each fault of what forbids skills is told in its own words, behind those that were told before.
pub proof fn faults_of_forbidding_are_told(errors: Seq<Seq<char>>, entry: EffectPackageEntry)
    ensures
        ({
            let told = content_rules::forbid_skill_errors(errors, entry);
            &&& errors.is_prefix_of(told)
            &&& (content_rules::is_forbid_skill(entry)) && entry.value != 1 ==> told.contains(
                "效果 "@ + entry.effect_key@ + " 的 forbid-skill-v1 value 必须固定为 "@
                    + text::integer(1 as int) + " 的 absolute"@,
            )
            &&& (content_rules::is_forbid_skill(entry)) && !(2 <= entry.duration_rounds && entry.duration_rounds <= 10) ==> told.contains(
                "效果 "@ + entry.effect_key@ + " 的 forbid-skill-v1 duration_rounds 必须在 "@
                    + text::integer(2 as int) + " 到 "@ + text::integer(10 as int) + " 之间"@,
            )
            &&& (content_rules::is_forbid_skill(entry)) && entry.stack_policy@ != "refresh"@ ==> told.contains(
                "效果 "@ + entry.effect_key@ + " 的 forbid-skill-v1 stack_policy 必须是 refresh"@,
            )
            &&& (content_rules::is_forbid_skill(entry)) && !content::forbid_skill_v1(entry.parameters@) ==> told.contains(
                "效果 "@ + entry.effect_key@
                    + " 的 forbid-skill-v1 parameters 必须固定声明规则版本、结算时机和阻断动作"@,
            )
        }),
{
    let forbid_skill = content_rules::is_forbid_skill(entry);
    let e1 = content_rules::noted(
        errors,
        forbid_skill && entry.value != 1,
        "效果 "@ + entry.effect_key@ + " 的 forbid-skill-v1 value 必须固定为 "@
            + text::integer(1 as int) + " 的 absolute"@,
    );
    lemma_noted(
        errors,
        forbid_skill && entry.value != 1,
        "效果 "@ + entry.effect_key@ + " 的 forbid-skill-v1 value 必须固定为 "@
            + text::integer(1 as int) + " 的 absolute"@,
    );
    let e2 = content_rules::noted(
        e1,
        forbid_skill && !(2 <= entry.duration_rounds && entry.duration_rounds <= 10),
        "效果 "@ + entry.effect_key@ + " 的 forbid-skill-v1 duration_rounds 必须在 "@
            + text::integer(2 as int) + " 到 "@ + text::integer(10 as int) + " 之间"@,
    );
    lemma_noted(
        e1,
        forbid_skill && !(2 <= entry.duration_rounds && entry.duration_rounds <= 10),
        "效果 "@ + entry.effect_key@ + " 的 forbid-skill-v1 duration_rounds 必须在 "@
            + text::integer(2 as int) + " 到 "@ + text::integer(10 as int) + " 之间"@,
    );
    let e3 = content_rules::noted(
        e2,
        forbid_skill && entry.stack_policy@ != "refresh"@,
        "效果 "@ + entry.effect_key@ + " 的 forbid-skill-v1 stack_policy 必须是 refresh"@,
    );
    lemma_noted(
        e2,
        forbid_skill && entry.stack_policy@ != "refresh"@,
        "效果 "@ + entry.effect_key@ + " 的 forbid-skill-v1 stack_policy 必须是 refresh"@,
    );
    let e4 = content_rules::noted(
        e3,
        forbid_skill && !content::forbid_skill_v1(entry.parameters@),
        "效果 "@ + entry.effect_key@ + " 的 forbid-skill-v1 parameters 必须固定声明规则版本、结算时机和阻断动作"@,
    );
    lemma_noted(
        e3,
        forbid_skill && !content::forbid_skill_v1(entry.parameters@),
        "效果 "@ + entry.effect_key@ + " 的 forbid-skill-v1 parameters 必须固定声明规则版本、结算时机和阻断动作"@,
    );
    lemma_within(e2, e3, e4);
    lemma_within(e1, e2, e4);
    lemma_within(errors, e1, e4);
    lemma_still(
        e1,
        e4,
        "效果 "@ + entry.effect_key@ + " 的 forbid-skill-v1 value 必须固定为 "@
            + text::integer(1 as int) + " 的 absolute"@,
    );
    lemma_still(
        e2,
        e4,
        "效果 "@ + entry.effect_key@ + " 的 forbid-skill-v1 duration_rounds 必须在 "@
            + text::integer(2 as int) + " 到 "@ + text::integer(10 as int) + " 之间"@,
    );
    lemma_still(
        e3,
        e4,
        "效果 "@ + entry.effect_key@ + " 的 forbid-skill-v1 stack_policy 必须是 refresh"@,
    );
    lemma_same(e4);
    lemma_still(
        e4,
        e4,
        "效果 "@ + entry.effect_key@ + " 的 forbid-skill-v1 parameters 必须固定声明规则版本、结算时机和阻断动作"@,
    );
    lemma_head(errors, e4);
}

/// Each fault of what picks targets is told in its own words, behind those that were told before.
pub proof fn faults_of_targets_are_told(errors: Seq<Seq<char>>, entry: EffectPackageEntry)
    ensures
        ({
            let told = content_rules::target_errors(errors, entry);
            &&& errors.is_prefix_of(told)
            &&& (content_rules::is_target_selection(entry)) && entry.value != 1 ==> told.contains(
                "效果 "@ + entry.effect_key@ + " 的 target-v1 value 必须固定为 "@
                    + text::integer(1 as int),
            )
            &&& (content_rules::is_target_selection(entry)) && entry.duration_rounds != 1 ==> told.contains(
                "效果 "@ + entry.effect_key@ + " 的 target-v1 duration_rounds 必须固定为 1"@,
            )
            &&& (content_rules::is_target_selection(entry)) && entry.stack_policy@ != "replace"@ ==> told.contains(
                "效果 "@ + entry.effect_key@ + " 的 target-v1 stack_policy 必须是 replace"@,
            )
            &&& (content_rules::is_target_selection(entry)) && !content::target_v1(entry.parameters@) ==> told.contains(
                "效果 "@ + entry.effect_key@ + " 的 target-v1 parameters 必须固定声明当前战斗魂兽选择器"@,
            )
        }),
{
    let target_selection = content_rules::is_target_selection(entry);
    let e1 = content_rules::noted(
        errors,
        target_selection && entry.value != 1,
        "效果 "@ + entry.effect_key@ + " 的 target-v1 value 必须固定为 "@ + text::integer(1 as int),
    );
    lemma_noted(
        errors,
        target_selection && entry.value != 1,
        "效果 "@ + entry.effect_key@ + " 的 target-v1 value 必须固定为 "@ + text::integer(1 as int),
    );
    let e2 = content_rules::noted(
        e1,
        target_selection && entry.duration_rounds != 1,
        "效果 "@ + entry.effect_key@ + " 的 target-v1 duration_rounds 必须固定为 1"@,
    );
    lemma_noted(
        e1,
        target_selection && entry.duration_rounds != 1,
        "效果 "@ + entry.effect_key@ + " 的 target-v1 duration_rounds 必须固定为 1"@,
    );
    let e3 = content_rules::noted(
        e2,
        target_selection && entry.stack_policy@ != "replace"@,
        "效果 "@ + entry.effect_key@ + " 的 target-v1 stack_policy 必须是 replace"@,
    );
    lemma_noted(
        e2,
        target_selection && entry.stack_policy@ != "replace"@,
        "效果 "@ + entry.effect_key@ + " 的 target-v1 stack_policy 必须是 replace"@,
    );
    let e4 = content_rules::noted(
        e3,
        target_selection && !content::target_v1(entry.parameters@),
        "效果 "@ + entry.effect_key@ + " 的 target-v1 parameters 必须固定声明当前战斗魂兽选择器"@,
    );
    lemma_noted(
        e3,
        target_selection && !content::target_v1(entry.parameters@),
        "效果 "@ + entry.effect_key@ + " 的 target-v1 parameters 必须固定声明当前战斗魂兽选择器"@,
    );
    lemma_within(e2, e3, e4);
    lemma_within(e1, e2, e4);
    lemma_within(errors, e1, e4);
    lemma_still(
        e1,
        e4,
        "效果 "@ + entry.effect_key@ + " 的 target-v1 value 必须固定为 "@ + text::integer(1 as int),
    );
    lemma_still(e2, e4, "效果 "@ + entry.effect_key@ + " 的 target-v1 duration_rounds 必须固定为 1"@);
    lemma_still(e3, e4, "效果 "@ + entry.effect_key@ + " 的 target-v1 stack_policy 必须是 replace"@);
    lemma_same(e4);
    lemma_still(e4, e4, "效果 "@ + entry.effect_key@ + " 的 target-v1 parameters 必须固定声明当前战斗魂兽选择器"@);
    lemma_head(errors, e4);
}

proof fn lemma_effect_node_errors_keep(errors: Seq<Seq<char>>, entry: EffectPackageEntry)
    ensures
        within(errors, content_rules::effect_node_errors(errors, entry)),
{
    faults_of_effect_kinds_are_told(errors, entry);
    lemma_head(errors, content_rules::effect_node_errors(errors, entry));
}

proof fn lemma_effect_value_errors_keep(errors: Seq<Seq<char>>, entry: EffectPackageEntry)
    ensures
        within(errors, content_rules::effect_value_errors(errors, entry)),
{
    faults_of_effect_values_are_told(errors, entry);
    lemma_head(errors, content_rules::effect_value_errors(errors, entry));
}

proof fn lemma_forbid_skill_errors_keep(errors: Seq<Seq<char>>, entry: EffectPackageEntry)
    ensures
        within(errors, content_rules::forbid_skill_errors(errors, entry)),
{
    faults_of_forbidding_are_told(errors, entry);
    lemma_head(errors, content_rules::forbid_skill_errors(errors, entry));
}

proof fn lemma_heal_errors_keep(errors: Seq<Seq<char>>, entry: EffectPackageEntry)
    ensures
        within(errors, content_rules::heal_errors(errors, entry)),
{
    faults_of_healing_are_told(errors, entry);
    lemma_head(errors, content_rules::heal_errors(errors, entry));
}

proof fn lemma_poison_and_stun_errors_keep(errors: Seq<Seq<char>>, entry: EffectPackageEntry)
    ensures
        within(errors, content_rules::poison_and_stun_errors(errors, entry)),
{
    faults_of_poison_and_stun_are_told(errors, entry);
    lemma_head(errors, content_rules::poison_and_stun_errors(errors, entry));
}

proof fn lemma_shield_errors_keep(errors: Seq<Seq<char>>, entry: EffectPackageEntry)
    ensures
        within(errors, content_rules::shield_errors(errors, entry)),
{
    faults_of_shields_are_told(errors, entry);
    lemma_head(errors, content_rules::shield_errors(errors, entry));
}

proof fn lemma_target_errors_keep(errors: Seq<Seq<char>>, entry: EffectPackageEntry)
    ensures
        within(errors, content_rules::target_errors(errors, entry)),
{
    faults_of_targets_are_told(errors, entry);
    lemma_head(errors, content_rules::target_errors(errors, entry));
}

/// Each fault of an effect is told in its own words, behind those that were told before.
pub proof fn faults_of_effects_are_told(
    errors: Seq<Seq<char>>,
    entry: EffectPackageEntry,
    key_repeats: bool,
)
    ensures
        ({
            let told = content_rules::effect_entry_errors(errors, entry, key_repeats);
            &&& errors.is_prefix_of(told)
            &&& key_repeats ==> told.contains("效果键重复："@ + entry.effect_key@)
            &&& (text::is_blank(entry.description@) || entry.description@.len() > 2000 || text::has_control(entry.description@)) ==> told.contains(
                "effect.description"@ + " 为空、过长或包含控制字符"@,
            )
        }),
{
    let e1 = content_rules::noted(errors, key_repeats, "效果键重复："@ + entry.effect_key@);
    lemma_noted(errors, key_repeats, "效果键重复："@ + entry.effect_key@);
    let e2 = content_rules::effect_node_errors(e1, entry);
    lemma_effect_node_errors_keep(e1, entry);
    let e3 = content_rules::effect_value_errors(e2, entry);
    lemma_effect_value_errors_keep(e2, entry);
    let e4 = content_rules::poison_and_stun_errors(e3, entry);
    lemma_poison_and_stun_errors_keep(e3, entry);
    let e5 = content_rules::shield_errors(e4, entry);
    lemma_shield_errors_keep(e4, entry);
    let e6 = content_rules::heal_errors(e5, entry);
    lemma_heal_errors_keep(e5, entry);
    let e7 = content_rules::forbid_skill_errors(e6, entry);
    lemma_forbid_skill_errors_keep(e6, entry);
    let e8 = content_rules::target_errors(e7, entry);
    lemma_target_errors_keep(e7, entry);
    let e9 = content_rules::text_noted(e8, "effect.description"@, entry.description@, 2000, true);
    lemma_noted(
        e8,
        text::is_blank(entry.description@) || entry.description@.len() > 2000 || text::has_control(entry.description@),
        "effect.description"@ + " 为空、过长或包含控制字符"@,
    );
    lemma_within(e7, e8, e9);
    lemma_within(e6, e7, e9);
    lemma_within(e5, e6, e9);
    lemma_within(e4, e5, e9);
    lemma_within(e3, e4, e9);
    lemma_within(e2, e3, e9);
    lemma_within(e1, e2, e9);
    lemma_within(errors, e1, e9);
    lemma_still(e1, e9, "效果键重复："@ + entry.effect_key@);
    lemma_same(e9);
    lemma_still(e9, e9, "effect.description"@ + " 为空、过长或包含控制字符"@);
    lemma_head(errors, e9);
}

/// Each fault of a beast is told in its own words, behind those that were told before.
#[verifier::rlimit(60)]
pub proof fn faults_of_beasts_are_told(
    errors: Seq<Seq<char>>,
    entry: SoulBeastPackageEntry,
    key_repeats: bool,
)
    ensures
        ({
            let told = content_rules::beast_entry_errors(errors, entry, key_repeats);
            &&& errors.is_prefix_of(told)
            &&& key_repeats ==> told.contains("魂兽键重复："@ + entry.beast_key@)
            &&& !content_rules::is_key(entry.beast_key@) ==> told.contains(
                "soul_beast.beast_key"@ + " 不是合法小写内容键"@,
            )
            &&& (text::is_blank(entry.name@) || entry.name@.len() > 128 || text::has_control(entry.name@)) ==> told.contains(
                "soul_beast.name"@ + " 为空、过长或包含控制字符"@,
            )
            &&& (text::is_blank(entry.description@) || entry.description@.len() > 2000 || text::has_control(entry.description@)) ==> told.contains(
                "soul_beast.description"@ + " 为空、过长或包含控制字符"@,
            )
            &&& !content_rules::is_key(entry.map_key@) ==> told.contains(
                "soul_beast.map_key"@ + " 不是合法小写内容键"@,
            )
            &&& (entry.age < 1 || entry.age > 999_999) ==> told.contains(
                "soul_beast.age"@ + "("@ + entry.beast_key@ + ") 必须在 "@ + text::integer(1)
                    + " 到 "@ + text::integer(999_999) + " 之间"@,
            )
            &&& (entry.level_required < 1 || entry.level_required > 120) ==> told.contains(
                "soul_beast.level_required"@ + "("@ + entry.beast_key@ + ") 必须在 "@
                    + text::integer(1) + " 到 "@ + text::integer(120) + " 之间"@,
            )
            &&& (entry.max_hp < 1 || entry.max_hp > 1_000_000_000) ==> told.contains(
                "soul_beast.max_hp"@ + "("@ + entry.beast_key@ + ") 必须在 "@ + text::integer(1)
                    + " 到 "@ + text::integer(1_000_000_000) + " 之间"@,
            )
            &&& (entry.attack < 1 || entry.attack > 1_000_000_000) ==> told.contains(
                "soul_beast.attack"@ + "("@ + entry.beast_key@ + ") 必须在 "@ + text::integer(1)
                    + " 到 "@ + text::integer(1_000_000_000) + " 之间"@,
            )
            &&& (entry.defense < 0 || entry.defense > 1_000_000_000) ==> told.contains(
                "soul_beast.defense"@ + "("@ + entry.beast_key@ + ") 必须在 "@ + text::integer(0)
                    + " 到 "@ + text::integer(1_000_000_000) + " 之间"@,
            )
            &&& (entry.speed < 0 || entry.speed > 1_000_000_000) ==> told.contains(
                "soul_beast.speed"@ + "("@ + entry.beast_key@ + ") 必须在 "@ + text::integer(0)
                    + " 到 "@ + text::integer(1_000_000_000) + " 之间"@,
            )
            &&& (entry.exp_reward < 1 || entry.exp_reward > 999_999_999) ==> told.contains(
                "soul_beast.exp_reward"@ + "("@ + entry.beast_key@ + ") 必须在 "@
                    + text::integer(1) + " 到 "@ + text::integer(999_999_999) + " 之间"@,
            )
            &&& !content_rules::is_key(entry.drop_item_key@) ==> told.contains(
                "soul_beast.drop_item_key"@ + " 不是合法小写内容键"@,
            )
            &&& (entry.drop_quantity < 1 || entry.drop_quantity > 99) ==> told.contains(
                "soul_beast.drop_quantity"@ + "("@ + entry.beast_key@ + ") 必须在 "@
                    + text::integer(1) + " 到 "@ + text::integer(99) + " 之间"@,
            )
        }),
{
    let e1 = content_rules::noted(errors, key_repeats, "魂兽键重复："@ + entry.beast_key@);
    lemma_noted(errors, key_repeats, "魂兽键重复："@ + entry.beast_key@);
    let e2 = content_rules::key_noted(e1, "soul_beast.beast_key"@, entry.beast_key@);
    lemma_noted(
        e1,
        !content_rules::is_key(entry.beast_key@),
        "soul_beast.beast_key"@ + " 不是合法小写内容键"@,
    );
    let e3 = content_rules::text_noted(e2, "soul_beast.name"@, entry.name@, 128, true);
    lemma_noted(
        e2,
        text::is_blank(entry.name@) || entry.name@.len() > 128 || text::has_control(entry.name@),
        "soul_beast.name"@ + " 为空、过长或包含控制字符"@,
    );
    let e4 = content_rules::text_noted(
        e3,
        "soul_beast.description"@,
        entry.description@,
        2000,
        true,
    );
    lemma_noted(
        e3,
        text::is_blank(entry.description@) || entry.description@.len() > 2000 || text::has_control(entry.description@),
        "soul_beast.description"@ + " 为空、过长或包含控制字符"@,
    );
    let e5 = content_rules::key_noted(e4, "soul_beast.map_key"@, entry.map_key@);
    lemma_noted(e4, !content_rules::is_key(entry.map_key@), "soul_beast.map_key"@ + " 不是合法小写内容键"@);
    let e6 = content_rules::range_noted(
        e5,
        "soul_beast.age"@,
        entry.beast_key@,
        entry.age as int,
        1,
        999_999,
    );
    lemma_noted(
        e5,
        entry.age < 1 || entry.age > 999_999,
        "soul_beast.age"@ + "("@ + entry.beast_key@ + ") 必须在 "@ + text::integer(1) + " 到 "@
            + text::integer(999_999) + " 之间"@,
    );
    let e7 = content_rules::range_noted(
        e6,
        "soul_beast.level_required"@,
        entry.beast_key@,
        entry.level_required as int,
        1,
        120,
    );
    lemma_noted(
        e6,
        entry.level_required < 1 || entry.level_required > 120,
        "soul_beast.level_required"@ + "("@ + entry.beast_key@ + ") 必须在 "@ + text::integer(1)
            + " 到 "@ + text::integer(120) + " 之间"@,
    );
    let e8 = content_rules::range_noted(
        e7,
        "soul_beast.max_hp"@,
        entry.beast_key@,
        entry.max_hp as int,
        1,
        1_000_000_000,
    );
    lemma_noted(
        e7,
        entry.max_hp < 1 || entry.max_hp > 1_000_000_000,
        "soul_beast.max_hp"@ + "("@ + entry.beast_key@ + ") 必须在 "@ + text::integer(1) + " 到 "@
            + text::integer(1_000_000_000) + " 之间"@,
    );
    let e9 = content_rules::range_noted(
        e8,
        "soul_beast.attack"@,
        entry.beast_key@,
        entry.attack as int,
        1,
        1_000_000_000,
    );
    lemma_noted(
        e8,
        entry.attack < 1 || entry.attack > 1_000_000_000,
        "soul_beast.attack"@ + "("@ + entry.beast_key@ + ") 必须在 "@ + text::integer(1) + " 到 "@
            + text::integer(1_000_000_000) + " 之间"@,
    );
    let e10 = content_rules::range_noted(
        e9,
        "soul_beast.defense"@,
        entry.beast_key@,
        entry.defense as int,
        0,
        1_000_000_000,
    );
    lemma_noted(
        e9,
        entry.defense < 0 || entry.defense > 1_000_000_000,
        "soul_beast.defense"@ + "("@ + entry.beast_key@ + ") 必须在 "@ + text::integer(0) + " 到 "@
            + text::integer(1_000_000_000) + " 之间"@,
    );
    let e11 = content_rules::range_noted(
        e10,
        "soul_beast.speed"@,
        entry.beast_key@,
        entry.speed as int,
        0,
        1_000_000_000,
    );
    lemma_noted(
        e10,
        entry.speed < 0 || entry.speed > 1_000_000_000,
        "soul_beast.speed"@ + "("@ + entry.beast_key@ + ") 必须在 "@ + text::integer(0) + " 到 "@
            + text::integer(1_000_000_000) + " 之间"@,
    );
    let e12 = content_rules::range_noted(
        e11,
        "soul_beast.exp_reward"@,
        entry.beast_key@,
        entry.exp_reward as int,
        1,
        999_999_999,
    );
    lemma_noted(
        e11,
        entry.exp_reward < 1 || entry.exp_reward > 999_999_999,
        "soul_beast.exp_reward"@ + "("@ + entry.beast_key@ + ") 必须在 "@ + text::integer(1)
            + " 到 "@ + text::integer(999_999_999) + " 之间"@,
    );
    let e13 = content_rules::key_noted(e12, "soul_beast.drop_item_key"@, entry.drop_item_key@);
    lemma_noted(
        e12,
        !content_rules::is_key(entry.drop_item_key@),
        "soul_beast.drop_item_key"@ + " 不是合法小写内容键"@,
    );
    let e14 = content_rules::range_noted(
        e13,
        "soul_beast.drop_quantity"@,
        entry.beast_key@,
        entry.drop_quantity as int,
        1,
        99,
    );
    lemma_noted(
        e13,
        entry.drop_quantity < 1 || entry.drop_quantity > 99,
        "soul_beast.drop_quantity"@ + "("@ + entry.beast_key@ + ") 必须在 "@ + text::integer(1)
            + " 到 "@ + text::integer(99) + " 之间"@,
    );
    lemma_within(e12, e13, e14);
    lemma_within(e11, e12, e14);
    lemma_within(e10, e11, e14);
    lemma_within(e9, e10, e14);
    lemma_within(e8, e9, e14);
    lemma_within(e7, e8, e14);
    lemma_within(e6, e7, e14);
    lemma_within(e5, e6, e14);
    lemma_within(e4, e5, e14);
    lemma_within(e3, e4, e14);
    lemma_within(e2, e3, e14);
    lemma_within(e1, e2, e14);
    lemma_within(errors, e1, e14);
    lemma_still(e1, e14, "魂兽键重复："@ + entry.beast_key@);
    lemma_still(e2, e14, "soul_beast.beast_key"@ + " 不是合法小写内容键"@);
    lemma_still(e3, e14, "soul_beast.name"@ + " 为空、过长或包含控制字符"@);
    lemma_still(e4, e14, "soul_beast.description"@ + " 为空、过长或包含控制字符"@);
    lemma_still(e5, e14, "soul_beast.map_key"@ + " 不是合法小写内容键"@);
    lemma_still(
        e6,
        e14,
        "soul_beast.age"@ + "("@ + entry.beast_key@ + ") 必须在 "@ + text::integer(1) + " 到 "@
            + text::integer(999_999) + " 之间"@,
    );
    lemma_still(
        e7,
        e14,
        "soul_beast.level_required"@ + "("@ + entry.beast_key@ + ") 必须在 "@ + text::integer(1)
            + " 到 "@ + text::integer(120) + " 之间"@,
    );
    lemma_still(
        e8,
        e14,
        "soul_beast.max_hp"@ + "("@ + entry.beast_key@ + ") 必须在 "@ + text::integer(1) + " 到 "@
            + text::integer(1_000_000_000) + " 之间"@,
    );
    lemma_still(
        e9,
        e14,
        "soul_beast.attack"@ + "("@ + entry.beast_key@ + ") 必须在 "@ + text::integer(1) + " 到 "@
            + text::integer(1_000_000_000) + " 之间"@,
    );
    lemma_still(
        e10,
        e14,
        "soul_beast.defense"@ + "("@ + entry.beast_key@ + ") 必须在 "@ + text::integer(0) + " 到 "@
            + text::integer(1_000_000_000) + " 之间"@,
    );
    lemma_still(
        e11,
        e14,
        "soul_beast.speed"@ + "("@ + entry.beast_key@ + ") 必须在 "@ + text::integer(0) + " 到 "@
            + text::integer(1_000_000_000) + " 之间"@,
    );
    lemma_still(
        e12,
        e14,
        "soul_beast.exp_reward"@ + "("@ + entry.beast_key@ + ") 必须在 "@ + text::integer(1)
            + " 到 "@ + text::integer(999_999_999) + " 之间"@,
    );
    lemma_still(e13, e14, "soul_beast.drop_item_key"@ + " 不是合法小写内容键"@);
    lemma_same(e14);
    lemma_still(
        e14,
        e14,
        "soul_beast.drop_quantity"@ + "("@ + entry.beast_key@ + ") 必须在 "@ + text::integer(1)
            + " 到 "@ + text::integer(99) + " 之间"@,
    );
    lemma_head(errors, e14);
}

/// Each fault of a ring is told in its own words, behind those that were told before.
pub proof fn faults_of_rings_are_told(
    errors: Seq<Seq<char>>,
    entry: SoulRingPackageEntry,
    key_repeats: bool,
)
    ensures
        ({
            let told = content_rules::ring_entry_errors(errors, entry, key_repeats);
            &&& errors.is_prefix_of(told)
            &&& key_repeats ==> told.contains("魂环键重复："@ + entry.ring_key@)
            &&& !content_rules::is_key(entry.ring_key@) ==> told.contains(
                "soul_ring.ring_key"@ + " 不是合法小写内容键"@,
            )
            &&& (text::is_blank(entry.name@) || entry.name@.len() > 128 || text::has_control(entry.name@)) ==> told.contains(
                "soul_ring.name"@ + " 为空、过长或包含控制字符"@,
            )
            &&& !content_rules::is_key(entry.soul_beast_key@) ==> told.contains(
                "soul_ring.soul_beast_key"@ + " 不是合法小写内容键"@,
            )
            &&& !content_rules::is_key(entry.skill_key@) ==> told.contains(
                "soul_ring.skill_key"@ + " 不是合法小写内容键"@,
            )
            &&& (entry.ring_index < 1 || entry.ring_index > 9) ==> told.contains(
                "soul_ring.ring_index"@ + "("@ + entry.ring_key@ + ") 必须在 "@ + text::integer(1)
                    + " 到 "@ + text::integer(9) + " 之间"@,
            )
            &&& (entry.age < 1 || entry.age > 1_000_000_000) ==> told.contains(
                "soul_ring.age"@ + "("@ + entry.ring_key@ + ") 必须在 "@ + text::integer(1)
                    + " 到 "@ + text::integer(1_000_000_000) + " 之间"@,
            )
            &&& (!(entry.color@ == "white"@ || entry.color@ == "yellow"@ || entry.color@ == "purple"@ || entry.color@ == "black"@ || entry.color@ == "red"@)) ==> told.contains(
                "魂环 "@ + entry.ring_key@ + " 的 color 不受支持"@,
            )
            &&& (text::is_blank(entry.description@) || entry.description@.len() > 2000 || text::has_control(entry.description@)) ==> told.contains(
                "soul_ring.description"@ + " 为空、过长或包含控制字符"@,
            )
        }),
{
    let e1 = content_rules::noted(errors, key_repeats, "魂环键重复："@ + entry.ring_key@);
    lemma_noted(errors, key_repeats, "魂环键重复："@ + entry.ring_key@);
    let e2 = content_rules::key_noted(e1, "soul_ring.ring_key"@, entry.ring_key@);
    lemma_noted(e1, !content_rules::is_key(entry.ring_key@), "soul_ring.ring_key"@ + " 不是合法小写内容键"@);
    let e3 = content_rules::text_noted(e2, "soul_ring.name"@, entry.name@, 128, true);
    lemma_noted(
        e2,
        text::is_blank(entry.name@) || entry.name@.len() > 128 || text::has_control(entry.name@),
        "soul_ring.name"@ + " 为空、过长或包含控制字符"@,
    );
    let e4 = content_rules::key_noted(e3, "soul_ring.soul_beast_key"@, entry.soul_beast_key@);
    lemma_noted(
        e3,
        !content_rules::is_key(entry.soul_beast_key@),
        "soul_ring.soul_beast_key"@ + " 不是合法小写内容键"@,
    );
    let e5 = content_rules::key_noted(e4, "soul_ring.skill_key"@, entry.skill_key@);
    lemma_noted(
        e4,
        !content_rules::is_key(entry.skill_key@),
        "soul_ring.skill_key"@ + " 不是合法小写内容键"@,
    );
    let e6 = content_rules::range_noted(
        e5,
        "soul_ring.ring_index"@,
        entry.ring_key@,
        entry.ring_index as int,
        1,
        9,
    );
    lemma_noted(
        e5,
        entry.ring_index < 1 || entry.ring_index > 9,
        "soul_ring.ring_index"@ + "("@ + entry.ring_key@ + ") 必须在 "@ + text::integer(1) + " 到 "@
            + text::integer(9) + " 之间"@,
    );
    let e7 = content_rules::range_noted(
        e6,
        "soul_ring.age"@,
        entry.ring_key@,
        entry.age as int,
        1,
        1_000_000_000,
    );
    lemma_noted(
        e6,
        entry.age < 1 || entry.age > 1_000_000_000,
        "soul_ring.age"@ + "("@ + entry.ring_key@ + ") 必须在 "@ + text::integer(1) + " 到 "@
            + text::integer(1_000_000_000) + " 之间"@,
    );
    let e8 = content_rules::noted(
        e7,
        !(entry.color@ == "white"@ || entry.color@ == "yellow"@ || entry.color@ == "purple"@ || entry.color@ == "black"@ || entry.color@ == "red"@),
        "魂环 "@ + entry.ring_key@ + " 的 color 不受支持"@,
    );
    lemma_noted(
        e7,
        !(entry.color@ == "white"@ || entry.color@ == "yellow"@ || entry.color@ == "purple"@ || entry.color@ == "black"@ || entry.color@ == "red"@),
        "魂环 "@ + entry.ring_key@ + " 的 color 不受支持"@,
    );
    let e9 = content_rules::text_noted(
        e8,
        "soul_ring.description"@,
        entry.description@,
        2000,
        true,
    );
    lemma_noted(
        e8,
        text::is_blank(entry.description@) || entry.description@.len() > 2000 || text::has_control(entry.description@),
        "soul_ring.description"@ + " 为空、过长或包含控制字符"@,
    );
    lemma_within(e7, e8, e9);
    lemma_within(e6, e7, e9);
    lemma_within(e5, e6, e9);
    lemma_within(e4, e5, e9);
    lemma_within(e3, e4, e9);
    lemma_within(e2, e3, e9);
    lemma_within(e1, e2, e9);
    lemma_within(errors, e1, e9);
    lemma_still(e1, e9, "魂环键重复："@ + entry.ring_key@);
    lemma_still(e2, e9, "soul_ring.ring_key"@ + " 不是合法小写内容键"@);
    lemma_still(e3, e9, "soul_ring.name"@ + " 为空、过长或包含控制字符"@);
    lemma_still(e4, e9, "soul_ring.soul_beast_key"@ + " 不是合法小写内容键"@);
    lemma_still(e5, e9, "soul_ring.skill_key"@ + " 不是合法小写内容键"@);
    lemma_still(
        e6,
        e9,
        "soul_ring.ring_index"@ + "("@ + entry.ring_key@ + ") 必须在 "@ + text::integer(1) + " 到 "@
            + text::integer(9) + " 之间"@,
    );
    lemma_still(
        e7,
        e9,
        "soul_ring.age"@ + "("@ + entry.ring_key@ + ") 必须在 "@ + text::integer(1) + " 到 "@
            + text::integer(1_000_000_000) + " 之间"@,
    );
    lemma_still(e8, e9, "魂环 "@ + entry.ring_key@ + " 的 color 不受支持"@);
    lemma_same(e9);
    lemma_still(e9, e9, "soul_ring.description"@ + " 为空、过长或包含控制字符"@);
    lemma_head(errors, e9);
}

} // verus!
