//! What the documents about maps and journeys show.
use crate::labels;
use crate::message;
use crate::message::{Document, Picture};
use crate::records::{MapExit, MapPage, MapRecord, MapTravelReceipt, PlayerStatus};
use crate::text;
use crate::world_documents;
use vstd::prelude::*;

verus! {

/// Each map has a line with its name, level, marks and description.
pub proof fn each_map_has_a_line(d: Document, list: Seq<MapRecord>, level: i64)
    ensures
        ({
            let r = world_documents::map_entries(d, list, level);
            let n = list.len() as int;
            &&& r.title == d.title
            &&& r.notice == d.notice
            &&& r.illustration == d.illustration
            &&& r.lines.len() == d.lines.len() + n
            &&& d.lines.is_prefix_of(r.lines)
            &&& forall|i: int| #![trigger list[i]] 0 <= i < n ==> {
                &&& r.lines[d.lines.len() + i] == list[i].name@ + " · Lv."@ + text::integer(list[i].level_required as int)
                    + world_documents::map_suffix(list[i], level) + "\n"@ + list[i].description@
            }
            &&& r.fields == d.fields
            &&& r.commands == d.commands
        }),
    decreases list.len(),
{
    if list.len() > 0 {
        each_map_has_a_line(d, list.drop_last(), level);
        let before = world_documents::map_entries(d, list.drop_last(), level);
        assert forall|i: int| 0 <= i < list.len() - 1 implies list.drop_last()[i] == #[trigger] list[i] by {}
        assert(world_documents::map_entries(d, list, level).lines.len() == before.lines.len() + 1);
        assert(before.lines.is_prefix_of(world_documents::map_entries(d, list, level).lines));
    }
}

/// What the list adds does not depend on what stands before it.
proof fn lemma_map_entries_frame(list: Seq<MapRecord>, level: i64)
    ensures
        forall|d: Document| #[trigger]
            world_documents::map_entries(d, list, level) == (
            Document {
                lines: d.lines + world_documents::map_entries(message::titled(""@), list, level).lines,
                ..d
            }),
    decreases list.len(),
{
    let none = message::titled(""@);
    let less = list.drop_last();
    if list.len() > 0 {
        lemma_map_entries_frame(less, level);
    }
    assert forall|d: Document| #[trigger]
        world_documents::map_entries(d, list, level) == (
            Document {
                lines: d.lines + world_documents::map_entries(message::titled(""@), list, level).lines,
                ..d
            }) by {
        if list.len() > 0 {
            assert(world_documents::map_entries(d, less, level).lines == d.lines + world_documents::map_entries(none, less, level).lines);
            assert(world_documents::map_entries(none, less, level).lines == none.lines + world_documents::map_entries(none, less, level).lines);
        }
        assert(world_documents::map_entries(d, list, level).lines =~= d.lines + world_documents::map_entries(none, list, level).lines);
    }
}

/// The list of maps shows its page and the number of maps, and leads to the page before and
/// the page behind where they exist.
pub proof fn maps_lead_to_the_neighbouring_pages(maps: MapPage, level: i64, page: usize)
    ensures
        ({
            let shown = world_documents::map_list(maps, level, page);
            &&& shown.title == "地图列表"@
            &&& shown.lines == world_documents::map_entries(message::titled(""@), maps.entries@, level).lines
            &&& shown.fields == seq![
                (
                    "页码"@,
                    text::decimal(maps.page as nat) + " / "@
                        + text::decimal(maps.page_count as nat),
                ),
                ("地图总数"@, text::decimal(maps.total as nat)),
            ]
            &&& shown.commands == (if page > 1 { seq!["地图列表 "@ + text::decimal((page - 1) as nat)] } else { Seq::<Seq<char>>::empty() }) + (if page < maps.page_count { seq!["地图列表 "@ + text::decimal((page + 1) as nat)] } else { Seq::<Seq<char>>::empty() }) + seq!["位置"@, "传送 <地图>"@]
            &&& shown.notice == Some("地图拓扑来自游戏数据表；图片资源只负责展示，不决定可通行方向"@)
            &&& shown.illustration == None::<message::Picture>
        }),
{
    let shown = world_documents::map_list(maps, level, page);
    lemma_map_entries_frame(maps.entries@, level);
    assert(shown.lines =~= world_documents::map_entries(message::titled(""@), maps.entries@, level).lines);
    assert(shown.fields =~= seq![
        (
            "页码"@,
            text::decimal(maps.page as nat) + " / "@ + text::decimal(maps.page_count as nat),
        ),
        ("地图总数"@, text::decimal(maps.total as nat)),
    ]);
    assert(shown.commands =~= (if page > 1 { seq!["地图列表 "@ + text::decimal((page - 1) as nat)] } else { Seq::<Seq<char>>::empty() }) + (if page < maps.page_count { seq!["地图列表 "@ + text::decimal((page + 1) as nat)] } else { Seq::<Seq<char>>::empty() }) + seq!["位置"@, "传送 <地图>"@]);
}

/// A place is shown with its name, description, level, kind and ways; teleporting is offered
/// as a way where an exit teleports, and the traveller is shown where known.
pub proof fn a_place_is_shown_with_its_ways(
    map: MapRecord,
    exits: Vec<MapExit>,
    player: Option<PlayerStatus>,
    picture: Option<Picture>,
)
    ensures
        ({
            let shown = world_documents::world(map, exits, player, picture);
            &&& shown.title == "当前位置 · "@ + map.name@
            &&& shown.lines.len() == 0
            &&& shown.fields == seq![
                    ("地图"@, map.name@),
                    ("简介"@, map.description@),
                    ("等级要求"@, text::integer(map.level_required as int) + " 级"@),
                    ("区域"@, world_documents::region_text(map)),
                    ("传送阵"@, (if map.teleport_enabled { "可用"@ } else { "无"@ })),
                ]
                + (match player {
                    Some(player) => seq![
                        ("角色"@, player.name@),
                        (
                            "生命"@,
                            text::integer(player.hp as int) + "/"@
                                + text::integer(player.max_hp as int),
                        ),
                        (
                            "魂力"@,
                            text::integer(player.soul_power as int) + "/"@
                                + text::integer(player.max_soul_power as int),
                        ),
                    ],
                    None => Seq::<(Seq<char>, Seq<char>)>::empty(),
                }) + seq![("方向"@, world_documents::walk_text(exits@))]
                + (if world_documents::has_teleport(exits@) {
                    seq![("传送目标"@, "可使用“传送 地图名称”查看并前往"@)]
                } else {
                    Seq::<(Seq<char>, Seq<char>)>::empty()
                })
            &&& shown.commands == seq!["状态"@, "NPC"@, "地图列表"@, "向 <上|下|左|右>"@, "传送 <地图>"@]
            &&& shown.notice == None::<Seq<char>>
            &&& shown.illustration == picture
        }),
{
    let shown = world_documents::world(map, exits, player, picture);
    assert(shown.fields =~= seq![
            ("地图"@, map.name@),
            ("简介"@, map.description@),
            ("等级要求"@, text::integer(map.level_required as int) + " 级"@),
            ("区域"@, world_documents::region_text(map)),
            ("传送阵"@, (if map.teleport_enabled { "可用"@ } else { "无"@ })),
        ]
        + (match player {
            Some(player) => seq![
                ("角色"@, player.name@),
                (
                    "生命"@,
                    text::integer(player.hp as int) + "/"@ + text::integer(player.max_hp as int),
                ),
                (
                    "魂力"@,
                    text::integer(player.soul_power as int) + "/"@
                        + text::integer(player.max_soul_power as int),
                ),
            ],
            None => Seq::<(Seq<char>, Seq<char>)>::empty(),
        }) + seq![("方向"@, world_documents::walk_text(exits@))]
        + (if world_documents::has_teleport(exits@) {
            seq![("传送目标"@, "可使用“传送 地图名称”查看并前往"@)]
        } else {
            Seq::<(Seq<char>, Seq<char>)>::empty()
        }));
    assert(shown.commands =~= seq!["状态"@, "NPC"@, "地图列表"@, "向 <上|下|左|右>"@, "传送 <地图>"@]);
}

/// A journey shows the place that it led to, and from where it went.
pub proof fn a_journey_shows_where_it_led_from_and_to(
    receipt: MapTravelReceipt,
    exits: Vec<MapExit>,
    title: Seq<char>,
    picture: Option<Picture>,
)
    ensures
        ({
            let shown = world_documents::transition(receipt, exits, title, picture);
            &&& shown.title == "当前位置 · "@ + receipt.to.name@
            &&& shown.lines.len() == 0
            &&& shown.fields == seq![
                    ("地图"@, receipt.to.name@),
                    ("简介"@, receipt.to.description@),
                    ("等级要求"@, text::integer(receipt.to.level_required as int) + " 级"@),
                    ("区域"@, world_documents::region_text(receipt.to)),
                    ("传送阵"@, (if receipt.to.teleport_enabled { "可用"@ } else { "无"@ })),
                    ("方向"@, world_documents::walk_text(exits@)),
                ]
                + (if world_documents::has_teleport(exits@) {
                    seq![("传送目标"@, "可使用“传送 地图名称”查看并前往"@)]
                } else {
                    Seq::<(Seq<char>, Seq<char>)>::empty()
                })
                + seq![("结果"@, title), ("出发地"@, receipt.from.name@), ("到达地"@, receipt.to.name@)]
            &&& shown.commands == seq!["状态"@, "NPC"@, "地图列表"@, "向 <上|下|左|右>"@, "传送 <地图>"@]
            &&& shown.notice == Some(
                if receipt.travel_kind@ == "teleport"@ { "传送阵已完成定位"@ } else { "已沿地图出口抵达目标区域"@ },
            )
            &&& shown.illustration == picture
        }),
{
    let shown = world_documents::transition(receipt, exits, title, picture);
    assert(shown.fields =~= seq![
            ("地图"@, receipt.to.name@),
            ("简介"@, receipt.to.description@),
            ("等级要求"@, text::integer(receipt.to.level_required as int) + " 级"@),
            ("区域"@, world_documents::region_text(receipt.to)),
            ("传送阵"@, (if receipt.to.teleport_enabled { "可用"@ } else { "无"@ })),
            ("方向"@, world_documents::walk_text(exits@)),
        ]
        + (if world_documents::has_teleport(exits@) {
            seq![("传送目标"@, "可使用“传送 地图名称”查看并前往"@)]
        } else {
            Seq::<(Seq<char>, Seq<char>)>::empty()
        })
        + seq![("结果"@, title), ("出发地"@, receipt.from.name@), ("到达地"@, receipt.to.name@)]);
    assert(shown.commands =~= seq!["状态"@, "NPC"@, "地图列表"@, "向 <上|下|左|右>"@, "传送 <地图>"@]);
}

/// Maps are marked as safe, or else as open to fights, then as having a portal, and last as
/// above the level of the player.
pub proof fn maps_are_marked_by_their_rules(map: MapRecord, level: i64)
    ensures
        ({
            let tags = world_documents::map_tags(map, level);
            &&& tags.contains("安全区"@) <==> map.safe
            &&& tags.contains("可战斗"@) <==> !map.safe && map.pvp_enabled
            &&& tags.contains("传送阵"@) <==> map.teleport_enabled
            &&& tags.contains("等级不足"@) <==> level < map.level_required
            &&& tags.len() <= 3
            &&& tags.len() == 0 ==> world_documents::map_suffix(map, level) == ""@
            &&& tags.len() > 0 ==> world_documents::map_suffix(map, level) == " ["@ + text::joined(
                tags,
                "、"@,
            ) + "]"@
        }),
        world_documents::region_text(map) == (if map.safe {
            "安全区"@
        } else if map.pvp_enabled {
            "野外区域（可战斗）"@
        } else {
            "普通区域"@
        }),
{
    reveal_strlit("安全区");
    reveal_strlit("可战斗");
    reveal_strlit("传送阵");
    reveal_strlit("等级不足");
    assert("安全区"@[0] == '安' && "可战斗"@[0] == '可' && "传送阵"@[0] == '传' && "等级不足"@[0]
        == '等');
    let tags = world_documents::map_tags(map, level);
    let first: int = if map.safe || map.pvp_enabled {
        1
    } else {
        0
    };
    let second: int = if map.teleport_enabled {
        1
    } else {
        0
    };
    if map.safe || map.pvp_enabled {
        assert(tags[0] == if map.safe {
            "安全区"@
        } else {
            "可战斗"@
        });
    }
    if map.teleport_enabled {
        assert(tags[first] == "传送阵"@);
    }
    if level < map.level_required {
        assert(tags[first + second] == "等级不足"@);
    }
}

/// The ways of a place are its exits that are walked, each with its direction and where it
/// leads, in order; a place without any says so.
pub proof fn ways_are_the_exits_that_are_walked(exits: Seq<MapExit>, exit: MapExit)
    ensures
        ({
            let before = world_documents::walk_texts(exits);
            let with = world_documents::walk_texts(exits.push(exit));
            &&& exit.travel_kind@ != "walk"@ ==> with == before
            &&& exit.travel_kind@ == "walk"@ && exit.direction is Some ==> with == before.push(
                labels::direction_name((exit.direction->0)@) + "："@ + exit.target.name@,
            )
            &&& exit.travel_kind@ == "walk"@ && exit.direction is None ==> with == before.push(
                "未知"@ + "："@ + exit.target.name@,
            )
        }),
        world_documents::walk_texts(Seq::<MapExit>::empty()).len() == 0,
        world_documents::walk_text(exits) == (if world_documents::walk_texts(exits).len() == 0 {
            "无可通行方向"@
        } else {
            text::joined(world_documents::walk_texts(exits), "、"@)
        }),
        world_documents::has_teleport(exits.push(exit)) <==> world_documents::has_teleport(exits)
            || exit.travel_kind@ == "teleport"@,
        !world_documents::has_teleport(Seq::<MapExit>::empty()),
{
    let all = exits.push(exit);
    assert(all.drop_last() =~= exits);
    assert(all.last() == exit);
    reveal_strlit("");
    reveal_strlit("north");
    reveal_strlit("south");
    reveal_strlit("west");
    reveal_strlit("east");
    assert(""@.len() == 0 && "north"@.len() == 5 && "south"@.len() == 5 && "west"@.len() == 4
        && "east"@.len() == 4);
    if world_documents::has_teleport(exits) {
        let i = choose|i: int| 0 <= i < exits.len() && (#[trigger] exits[i]).travel_kind@
            == "teleport"@;
        assert(all[i] == exits[i]);
    }
    if exit.travel_kind@ == "teleport"@ {
        assert(all[exits.len() as int] == exit);
    }
    if world_documents::has_teleport(all) {
        let i = choose|i: int| 0 <= i < all.len() && (#[trigger] all[i]).travel_kind@
            == "teleport"@;
        if i < exits.len() {
            assert(exits[i] == all[i]);
        }
    }
}

} // verus!
