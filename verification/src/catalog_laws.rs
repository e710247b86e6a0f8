//! The built-in catalogue of illustrations breaks no rule.
use crate::catalog;
use crate::catalog::{Binding, EXPECTED_BINDING_COUNT, MANIFEST_SCHEMA_VERSION};
use crate::config;
use crate::text;
use vstd::prelude::*;

verus! {

/// Whether an illustration breaks no rule by itself.
spec fn is_sound(binding: Binding) -> bool {
    &&& catalog::role_of(binding.entity_type) == Some(binding.media_role)
    &&& catalog::is_caption(binding.entity_key)
    &&& catalog::is_caption(binding.alt)
    &&& config::is_asset_key(binding.asset_key)
    &&& binding.distribution == "not_bundled"@
    &&& 0 < binding.display.width <= 4096
    &&& 0 < binding.display.height <= 4096
    &&& binding.direct_url is None
}

/// A mark by which the asset keys differ: the length and one character.
spec fn mark(key: Seq<char>) -> (nat, char) {
    (key.len(), key[11])
}

/// A key of three parts, given where its two slashes stand.
proof fn lemma_key(key: Seq<char>, first: int, second: int)
    requires
        0 < first,
        first + 1 < second < key.len() - 1,
        key.len() <= 200,
        key[first] == '/',
        key[second] == '/',
        forall|k: int|
            0 <= k < key.len() && k != first && k != second ==> config::is_name_char(
                #[trigger] key[k],
            ),
        key[1] != 'h',
        key[0] != '.',
        key[first + 1] != '.',
        key[second + 1] != '.',
    ensures
        config::is_asset_key(key),
{
    reveal_strlit("sha256");
    reveal_strlit(".");
    reveal_strlit("..");
    let other = text::other_than('/');
    let tail = key.skip(first + 1);
    let last = tail.skip(second - first);
    text::lemma_run_len(key, other, first);
    assert forall|k: int| 0 <= k < second - first - 1 implies other(#[trigger] tail[k]) by {
        assert(tail[k] == key[first + 1 + k]);
    }
    text::lemma_run_len(tail, other, second - first - 1);
    assert forall|k: int| 0 <= k < last.len() implies other(#[trigger] last[k]) by {
        assert(last[k] == key[second + 1 + k]);
    }
    text::lemma_run_len(last, other, last.len() as int);
    reveal_with_fuel(text::parts, 4);
    let parts = text::parts(key, '/');
    assert(parts =~= seq![key.take(first), tail.take(second - first - 1), last]);
    assert("sha256"@[1] == 'h');
    assert(parts[0] != "sha256"@) by {
        if parts[0] == "sha256"@ {
            assert(key.take(first).len() == 6);
            assert(key.take(first)[1] == key[1]);
        }
    }
    assert forall|n: int| 0 <= n < parts.len() implies config::is_key_segment(#[trigger] parts[n]) by {
        assert(parts[n][0] != '.');
        assert forall|k: int| 0 <= k < parts[n].len() implies config::is_name_char(
            #[trigger] parts[n][k],
        ) by {
            if n == 0 {
                assert(parts[n][k] == key[k]);
            } else if n == 1 {
                assert(parts[n][k] == key[first + 1 + k]);
            } else {
                assert(parts[n][k] == key[second + 1 + k]);
            }
        }
    }
}

/// The kinds of things that are shown differ.
proof fn lemma_kinds()
    ensures
        "map"@.len() == 3,
        "wuhun"@.len() == 5,
        "soul_beast"@.len() == 10,
        "soul_ring"@.len() == 9,
{
    reveal_strlit("map");
    reveal_strlit("wuhun");
    reveal_strlit("soul_beast");
    reveal_strlit("soul_ring");
}

/// A caption without white space and control characters.
proof fn lemma_caption(value: Seq<char>)
    requires
        0 < value.len() <= 80,
        forall|k: int|
            0 <= k < value.len() ==> !text::is_control(#[trigger] value[k]) && !text::is_white(
                value[k],
            ),
    ensures
        catalog::is_caption(value),
{
    text::blank_means_all_white(value);
    assert(!text::is_white(value[0]));
}

proof fn lemma_maps()
    ensures
        forall|i: int| 0 <= i < 5 ==> is_sound(#[trigger] catalog::embedded_bindings()[i]),
        mark("maps/holy-soul-village/cover.webp"@) == (33nat, 'o'),
        "圣魂村"@[0] == '圣',
        mark("maps/tiandou-imperial-city/cover.webp"@) == (37nat, 'u'),
        "天斗帝国主城"@[0] == '天',
        mark("maps/novice-village/cover.webp"@) == (30nat, '-'),
        "新手村"@[0] == '新',
        mark("maps/sunset-forest/cover.webp"@) == (29nat, '-'),
        "落日森林"@[0] == '落',
        mark("maps/silves/cover.webp"@) == (22nat, '/'),
        "西尔维斯"@[0] == '西',
{
    let all = catalog::embedded_bindings();
    lemma_kinds();
    reveal_strlit("圣魂村");
    reveal_strlit("maps/holy-soul-village/cover.webp");
    reveal_strlit("圣魂村地图");
    reveal_strlit("天斗帝国主城");
    reveal_strlit("maps/tiandou-imperial-city/cover.webp");
    reveal_strlit("天斗帝国主城地图");
    reveal_strlit("新手村");
    reveal_strlit("maps/novice-village/cover.webp");
    reveal_strlit("新手村地图");
    reveal_strlit("落日森林");
    reveal_strlit("maps/sunset-forest/cover.webp");
    reveal_strlit("落日森林地图");
    reveal_strlit("西尔维斯");
    reveal_strlit("maps/silves/cover.webp");
    reveal_strlit("西尔维斯地图");
    lemma_caption("圣魂村"@);
    lemma_caption("圣魂村地图"@);
    lemma_key("maps/holy-soul-village/cover.webp"@, 4, 22);
    assert(is_sound(all[0]));
    lemma_caption("天斗帝国主城"@);
    lemma_caption("天斗帝国主城地图"@);
    lemma_key("maps/tiandou-imperial-city/cover.webp"@, 4, 26);
    assert(is_sound(all[1]));
    lemma_caption("新手村"@);
    lemma_caption("新手村地图"@);
    lemma_key("maps/novice-village/cover.webp"@, 4, 19);
    assert(is_sound(all[2]));
    lemma_caption("落日森林"@);
    lemma_caption("落日森林地图"@);
    lemma_key("maps/sunset-forest/cover.webp"@, 4, 18);
    assert(is_sound(all[3]));
    lemma_caption("西尔维斯"@);
    lemma_caption("西尔维斯地图"@);
    lemma_key("maps/silves/cover.webp"@, 4, 11);
    assert(is_sound(all[4]));
}

proof fn lemma_spirits()
    ensures
        forall|i: int| 5 <= i < 10 ==> is_sound(#[trigger] catalog::embedded_bindings()[i]),
        mark("wuhun/lone-wolf/portrait.webp"@) == (29nat, 'w'),
        "独狼"@[0] == '独',
        mark("wuhun/carrot/portrait.webp"@) == (26nat, 't'),
        "胡萝卜"@[0] == '胡',
        mark("wuhun/sickle/portrait.webp"@) == (26nat, 'e'),
        "镰刀"@[0] == '镰',
        mark("wuhun/bread/portrait.webp"@) == (25nat, '/'),
        "面包"@[0] == '面',
        mark("wuhun/dragon-god-bloodline/portrait.webp"@) == (40nat, 'n'),
        "龙神血脉"@[0] == '龙',
{
    let all = catalog::embedded_bindings();
    lemma_kinds();
    reveal_strlit("独狼");
    reveal_strlit("wuhun/lone-wolf/portrait.webp");
    reveal_strlit("独狼武魂");
    reveal_strlit("胡萝卜");
    reveal_strlit("wuhun/carrot/portrait.webp");
    reveal_strlit("胡萝卜武魂");
    reveal_strlit("镰刀");
    reveal_strlit("wuhun/sickle/portrait.webp");
    reveal_strlit("镰刀武魂");
    reveal_strlit("面包");
    reveal_strlit("wuhun/bread/portrait.webp");
    reveal_strlit("面包武魂");
    reveal_strlit("龙神血脉");
    reveal_strlit("wuhun/dragon-god-bloodline/portrait.webp");
    reveal_strlit("龙神血脉武魂");
    lemma_caption("独狼"@);
    lemma_caption("独狼武魂"@);
    lemma_key("wuhun/lone-wolf/portrait.webp"@, 5, 15);
    assert(is_sound(all[5]));
    lemma_caption("胡萝卜"@);
    lemma_caption("胡萝卜武魂"@);
    lemma_key("wuhun/carrot/portrait.webp"@, 5, 12);
    assert(is_sound(all[6]));
    lemma_caption("镰刀"@);
    lemma_caption("镰刀武魂"@);
    lemma_key("wuhun/sickle/portrait.webp"@, 5, 12);
    assert(is_sound(all[7]));
    lemma_caption("面包"@);
    lemma_caption("面包武魂"@);
    lemma_key("wuhun/bread/portrait.webp"@, 5, 11);
    assert(is_sound(all[8]));
    lemma_caption("龙神血脉"@);
    lemma_caption("龙神血脉武魂"@);
    lemma_key("wuhun/dragon-god-bloodline/portrait.webp"@, 5, 26);
    assert(is_sound(all[9]));
}

proof fn lemma_beasts()
    ensures
        forall|i: int| 10 <= i < 12 ==> is_sound(#[trigger] catalog::embedded_bindings()[i]),
        mark("soul-beasts/slime/battle.webp"@) == (29nat, '/'),
        "史莱姆"@[0] == '史',
        mark("soul-beasts/goblin/battle.webp"@) == (30nat, '/'),
        "哥布林"@[0] == '哥',
{
    let all = catalog::embedded_bindings();
    lemma_kinds();
    reveal_strlit("史莱姆");
    reveal_strlit("soul-beasts/slime/battle.webp");
    reveal_strlit("哥布林");
    reveal_strlit("soul-beasts/goblin/battle.webp");
    lemma_caption("史莱姆"@);
    lemma_key("soul-beasts/slime/battle.webp"@, 11, 17);
    assert(is_sound(all[10]));
    lemma_caption("哥布林"@);
    lemma_key("soul-beasts/goblin/battle.webp"@, 11, 18);
    assert(is_sound(all[11]));
}

proof fn lemma_rings()
    ensures
        forall|i: int| 12 <= i < 19 ==> is_sound(#[trigger] catalog::embedded_bindings()[i]),
        mark("soul-rings/white/icon.webp"@) == (26nat, 'w'),
        "white"@[0] == 'w',
        mark("soul-rings/yellow/icon.webp"@) == (27nat, 'y'),
        "yellow"@[0] == 'y',
        mark("soul-rings/purple/icon.webp"@) == (27nat, 'p'),
        "purple"@[0] == 'p',
        mark("soul-rings/black/icon.webp"@) == (26nat, 'b'),
        "black"@[0] == 'b',
        mark("soul-rings/red/icon.webp"@) == (24nat, 'r'),
        "red"@[0] == 'r',
        mark("soul-rings/orange/icon.webp"@) == (27nat, 'o'),
        "orange"@[0] == 'o',
        mark("soul-rings/gold/icon.webp"@) == (25nat, 'g'),
        "gold"@[0] == 'g',
{
    let all = catalog::embedded_bindings();
    lemma_kinds();
    reveal_strlit("white");
    reveal_strlit("soul-rings/white/icon.webp");
    reveal_strlit("白色魂环");
    reveal_strlit("yellow");
    reveal_strlit("soul-rings/yellow/icon.webp");
    reveal_strlit("黄色魂环");
    reveal_strlit("purple");
    reveal_strlit("soul-rings/purple/icon.webp");
    reveal_strlit("紫色魂环");
    reveal_strlit("black");
    reveal_strlit("soul-rings/black/icon.webp");
    reveal_strlit("黑色魂环");
    reveal_strlit("red");
    reveal_strlit("soul-rings/red/icon.webp");
    reveal_strlit("红色魂环");
    reveal_strlit("orange");
    reveal_strlit("soul-rings/orange/icon.webp");
    reveal_strlit("橙色魂环");
    reveal_strlit("gold");
    reveal_strlit("soul-rings/gold/icon.webp");
    reveal_strlit("金色魂环");
    lemma_caption("white"@);
    lemma_caption("白色魂环"@);
    lemma_key("soul-rings/white/icon.webp"@, 10, 16);
    assert(is_sound(all[12]));
    lemma_caption("yellow"@);
    lemma_caption("黄色魂环"@);
    lemma_key("soul-rings/yellow/icon.webp"@, 10, 17);
    assert(is_sound(all[13]));
    lemma_caption("purple"@);
    lemma_caption("紫色魂环"@);
    lemma_key("soul-rings/purple/icon.webp"@, 10, 17);
    assert(is_sound(all[14]));
    lemma_caption("black"@);
    lemma_caption("黑色魂环"@);
    lemma_key("soul-rings/black/icon.webp"@, 10, 16);
    assert(is_sound(all[15]));
    lemma_caption("red"@);
    lemma_caption("红色魂环"@);
    lemma_key("soul-rings/red/icon.webp"@, 10, 14);
    assert(is_sound(all[16]));
    lemma_caption("orange"@);
    lemma_caption("橙色魂环"@);
    lemma_key("soul-rings/orange/icon.webp"@, 10, 17);
    assert(is_sound(all[17]));
    lemma_caption("gold"@);
    lemma_caption("金色魂环"@);
    lemma_key("soul-rings/gold/icon.webp"@, 10, 15);
    assert(is_sound(all[18]));
}

/// A list of sound illustrations that differ breaks no rule.
proof fn lemma_no_error(bindings: Seq<Binding>)
    requires
        forall|i: int| 0 <= i < bindings.len() ==> is_sound(#[trigger] bindings[i]),
        forall|i: int, j: int|
            0 <= i < j < bindings.len() ==> (#[trigger] bindings[i]).asset_key != (
            #[trigger] bindings[j]).asset_key && bindings[i].entity_key != bindings[j].entity_key,
    ensures
        catalog::bindings_error(bindings) is None,
    decreases bindings.len(),
{
    if bindings.len() > 0 {
        let shorter = bindings.drop_last();
        let last = bindings.last();
        assert forall|i: int| 0 <= i < shorter.len() implies is_sound(#[trigger] shorter[i]) by {
            assert(shorter[i] == bindings[i]);
        }
        lemma_no_error(shorter);
        assert(is_sound(bindings[bindings.len() - 1]));
        assert forall|i: int| 0 <= i < shorter.len() implies (#[trigger] shorter[i]).asset_key
            != last.asset_key && shorter[i].entity_key != last.entity_key by {
            assert(shorter[i] == bindings[i]);
            assert(last == bindings[bindings.len() - 1]);
        }
    }
}

/// How a run of illustrations that all, or none of them, show things of a kind counts.
proof fn lemma_run(bindings: Seq<Binding>, from: int, to: int, kind: Seq<char>, shown: bool)
    requires
        0 <= from <= to <= bindings.len(),
        forall|i: int|
            from <= i < to ==> ((#[trigger] bindings[i]).entity_type == kind) == shown,
    ensures
        catalog::kind_count(bindings.take(to), kind) == catalog::kind_count(
            bindings.take(from),
            kind,
        ) + if shown {
            to - from
        } else {
            0
        },
    decreases to - from,
{
    if from < to {
        lemma_run(bindings, from, to - 1, kind, shown);
        assert(bindings.take(to).drop_last() =~= bindings.take(to - 1));
        assert(bindings.take(to).last() == bindings[to - 1]);
    }
}

proof fn lemma_counts()
    ensures
        catalog::counts_error(catalog::embedded_bindings()) is None,
{
    let all = catalog::embedded_bindings();
    lemma_kinds();
    assert(all.take(19) =~= all);
    assert(all.take(0) =~= Seq::empty());
    lemma_run(all, 0, 5, "map"@, true);
    lemma_run(all, 5, 19, "map"@, false);
    lemma_run(all, 0, 5, "wuhun"@, false);
    lemma_run(all, 5, 10, "wuhun"@, true);
    lemma_run(all, 10, 19, "wuhun"@, false);
    lemma_run(all, 0, 10, "soul_beast"@, false);
    lemma_run(all, 10, 12, "soul_beast"@, true);
    lemma_run(all, 12, 19, "soul_beast"@, false);
    lemma_run(all, 0, 12, "soul_ring"@, false);
    lemma_run(all, 12, 19, "soul_ring"@, true);
}

proof fn lemma_keys()
    ensures
        catalog::key_set(catalog::embedded_bindings()) == catalog::expected_key_set(),
{
    let all = catalog::embedded_bindings();
    let expected = catalog::expected_asset_keys();
    assert forall|i: int| 0 <= i < all.len() implies (#[trigger] all[i]).asset_key
        == #[trigger] expected[i] by {}
    assert forall|key: Seq<char>|
        catalog::key_set(all).contains(key) == catalog::expected_key_set().contains(key) by {
        if catalog::key_set(all).contains(key) {
            let i = choose|i: int| 0 <= i < all.len() && (#[trigger] all[i]).asset_key == key;
            assert(expected[i] == key);
        }
        if catalog::expected_key_set().contains(key) {
            let i = choose|i: int| 0 <= i < expected.len() && #[trigger] expected[i] == key;
            assert(all[i].asset_key == key);
        }
    }
    assert(catalog::key_set(all) =~= catalog::expected_key_set());
}

proof fn lemma_distinct()
    ensures
        forall|i: int, j: int|
            0 <= i < j < catalog::embedded_bindings().len() ==> (
            #[trigger] catalog::embedded_bindings()[i]).asset_key != (
            #[trigger] catalog::embedded_bindings()[j]).asset_key
                && catalog::embedded_bindings()[i].entity_key
                != catalog::embedded_bindings()[j].entity_key,
{
    lemma_maps();
    lemma_spirits();
    lemma_beasts();
    lemma_rings();
    let all = catalog::embedded_bindings();
    let marks = seq![
        (33nat, 'o'),
        (37nat, 'u'),
        (30nat, '-'),
        (29nat, '-'),
        (22nat, '/'),
        (29nat, 'w'),
        (26nat, 't'),
        (26nat, 'e'),
        (25nat, '/'),
        (40nat, 'n'),
        (29nat, '/'),
        (30nat, '/'),
        (26nat, 'w'),
        (27nat, 'y'),
        (27nat, 'p'),
        (26nat, 'b'),
        (24nat, 'r'),
        (27nat, 'o'),
        (25nat, 'g'),
    ];
    let starts = seq![
        '圣',
        '天',
        '新',
        '落',
        '西',
        '独',
        '胡',
        '镰',
        '面',
        '龙',
        '史',
        '哥',
        'w',
        'y',
        'p',
        'b',
        'r',
        'o',
        'g',
    ];
    assert forall|i: int, j: int| 0 <= i < j < all.len() implies (#[trigger] all[i]).asset_key != (
    #[trigger] all[j]).asset_key && all[i].entity_key != all[j].entity_key by {
        assert(mark(all[i].asset_key) == marks[i]);
        assert(mark(all[j].asset_key) == marks[j]);
        assert(all[i].entity_key[0] == starts[i]);
        assert(all[j].entity_key[0] == starts[j]);
        assert(marks[i] != marks[j]);
        assert(starts[i] != starts[j]);
    }
}

/// The built-in catalogue breaks no rule, so that its illustrations can be used.
pub proof fn the_built_in_catalogue_is_valid()
    ensures
        catalog::manifest_error((MANIFEST_SCHEMA_VERSION, catalog::embedded_bindings())) is None,
        catalog::embedded_manifest() == Ok::<Seq<Binding>, Seq<char>>(catalog::embedded_bindings()),
{
    let all = catalog::embedded_bindings();
    assert(all.len() == EXPECTED_BINDING_COUNT);
    lemma_maps();
    lemma_spirits();
    lemma_beasts();
    lemma_rings();
    lemma_distinct();
    lemma_no_error(all);
    lemma_keys();
    lemma_counts();
}

} // verus!
