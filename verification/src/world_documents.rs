//! Replies about maps and journeys.
use crate::labels;
use crate::labels::display_direction;
use crate::message;
use crate::message::{Document, GameDocument, Illustration, Picture};
use crate::records::{MapExit, MapPage, MapRecord, MapTravelReceipt, PlayerStatus};
use crate::text;
use crate::text::{join, push_text, cat2, cat3, cat6, i64_text, same, usize_text};
use vstd::string::*;
use vstd::prelude::*;

verus! {

/// What is special about a map, in words.
pub open spec fn map_tags(map: MapRecord, level: i64) -> Seq<Seq<char>> {
    (if map.safe {
        seq!["安全区"@]
    } else if map.pvp_enabled {
        seq!["可战斗"@]
    } else {
        seq![]
    }) + (if map.teleport_enabled {
        seq!["传送阵"@]
    } else {
        seq![]
    }) + (if level < map.level_required {
        seq!["等级不足"@]
    } else {
        seq![]
    })
}

/// What is special about a map, in brackets.
pub open spec fn map_suffix(map: MapRecord, level: i64) -> Seq<char> {
    if map_tags(map, level).len() == 0 {
        ""@
    } else {
        " ["@ + text::joined(map_tags(map, level), "、"@) + "]"@
    }
}

fn describe_map(map: &MapRecord, level: i64) -> (suffix: String)
    ensures
        suffix@ == map_suffix(*map, level),
{
    let mut tags: Vec<String> = Vec::new();
    if map.safe {
        push_text(&mut tags, "安全区".to_owned());
    } else if map.pvp_enabled {
        push_text(&mut tags, "可战斗".to_owned());
    }
    if map.teleport_enabled {
        push_text(&mut tags, "传送阵".to_owned());
    }
    if level < map.level_required {
        push_text(&mut tags, "等级不足".to_owned());
    }
    assert(text::texts(tags@) =~= map_tags(*map, level));
    if tags.len() == 0 {
        return "".to_owned();
    }
    cat3(" [", &join(&tags, "、"), "]")
}

/// The document with a map.
pub open spec fn map_entry(d: Document, map: MapRecord, level: i64) -> Document {
    d.line(
        map.name@ + " · Lv."@ + text::integer(map.level_required as int)
            + map_suffix(map, level) + "\n"@ + map.description@,
    )
}

fn add_map_entry(document: GameDocument, map: &MapRecord, level: i64) -> (result: GameDocument)
    ensures
        result@ == map_entry(document@, *map, level),
{
    document.line(
        &cat6(
            &map.name,
            " · Lv.",
            &i64_text(map.level_required),
            &describe_map(map, level),
            "\n",
            &map.description,
        ),
    )
}

/// The document with maps.
pub open spec fn map_entries(d: Document, list: Seq<MapRecord>, level: i64) -> Document
    decreases list.len(),
{
    if list.len() == 0 {
        d
    } else {
        map_entry(map_entries(d, list.drop_last(), level), list.last(), level)
    }
}

fn add_map_entries(
    document: GameDocument,
    list: &Vec<MapRecord>,
    level: i64,
) -> (result: GameDocument)
    ensures
        result@ == map_entries(document@, list@, level),
{
    let ghost start = document@;
    let mut document = document;
    let mut i: usize = 0;
    while i < list.len()
        invariant
            i <= list@.len(),
            document@ == map_entries(start, list@.take(i as int), level),
        decreases list@.len() - i,
    {
        assert(list@.take(i + 1).drop_last() =~= list@.take(i as int));
        document = add_map_entry(document, &list[i], level);
        i = i + 1;
    }
    assert(list@.take(i as int) =~= list@);
    document
}

/// A page of maps for a player of a level, as it was asked for.
pub open spec fn map_list(maps: MapPage, level: i64, page: usize) -> Document {
    let d = message::titled("地图列表"@)
        .field(
            "页码"@,
            text::decimal(maps.page as nat) + " / "@ + text::decimal(maps.page_count as nat),
        )
        .field("地图总数"@, text::decimal(maps.total as nat));
    let d = map_entries(d, maps.entries@, level);
    let d = if page > 1 {
        d.command("地图列表 "@ + text::decimal((page - 1) as nat))
    } else {
        d
    };
    let d = if page < maps.page_count {
        d.command("地图列表 "@ + text::decimal((page + 1) as nat))
    } else {
        d
    };
    d
        .command("位置"@)
        .command("传送 <地图>"@)
        .notice("地图拓扑来自游戏数据表；图片资源只负责展示，不决定可通行方向"@)
}

/// A page of maps for a player of a level, as it was asked for.
pub fn map_list_document(maps: &MapPage, level: i64, page: usize) -> (document: GameDocument)
    ensures
        document@ == map_list(*maps, level, page),
{
    let document = GameDocument::new("地图列表")
        .field("页码", &cat3(&usize_text(maps.page), " / ", &usize_text(maps.page_count)))
        .field("地图总数", &usize_text(maps.total));
    let document = add_map_entries(document, &maps.entries, level);
    let document = if page > 1 {
        document.command(&cat2("地图列表 ", &usize_text(page - 1)))
    } else {
        document
    };
    let document = if page < maps.page_count {
        document.command(&cat2("地图列表 ", &usize_text(page + 1)))
    } else {
        document
    };
    document
        .command("位置")
        .command("传送 <地图>")
        .notice("地图拓扑来自游戏数据表；图片资源只负责展示，不决定可通行方向")
}

/// The ways that can be walked, in words.
pub open spec fn walk_texts(exits: Seq<MapExit>) -> Seq<Seq<char>>
    decreases exits.len(),
{
    if exits.len() == 0 {
        seq![]
    } else {
        let earlier = walk_texts(exits.drop_last());
        let exit = exits.last();
        if exit.travel_kind@ == "walk"@ {
            earlier.push(
                labels::direction_name(
                    match exit.direction {
                        Some(direction) => direction@,
                        None => ""@,
                    },
                ) + "："@ + exit.target.name@,
            )
        } else {
            earlier
        }
    }
}

/// The ways that can be walked, in one line.
pub open spec fn walk_text(exits: Seq<MapExit>) -> Seq<char> {
    if walk_texts(exits).len() == 0 {
        "无可通行方向"@
    } else {
        text::joined(walk_texts(exits), "、"@)
    }
}

fn describe_exit(exit: &MapExit) -> (label: String)
    ensures
        label@ == labels::direction_name(
            match exit.direction {
                Some(direction) => direction@,
                None => ""@,
            },
        ) + "："@ + exit.target.name@,
{
    let direction = match &exit.direction {
        Some(direction) => display_direction(direction),
        None => display_direction(""),
    };
    cat3(direction, "：", &exit.target.name)
}

fn describe_walks(exits: &Vec<MapExit>) -> (label: String)
    ensures
        label@ == walk_text(exits@),
{
    let mut list: Vec<String> = Vec::new();
    let mut i: usize = 0;
    assert(text::texts(list@) =~= walk_texts(exits@.take(0)));
    while i < exits.len()
        invariant
            i <= exits@.len(),
            text::texts(list@) == walk_texts(exits@.take(i as int)),
        decreases exits@.len() - i,
    {
        assert(exits@.take(i + 1).drop_last() =~= exits@.take(i as int));
        if same(&exits[i].travel_kind, "walk") {
            push_text(&mut list, describe_exit(&exits[i]));
        }
        i = i + 1;
    }
    assert(exits@.take(i as int) =~= exits@);
    if list.len() == 0 {
        return "无可通行方向".to_owned();
    }
    join(&list, "、")
}

/// Whether a way leads through a teleport.
pub open spec fn has_teleport(exits: Seq<MapExit>) -> bool {
    exists|i: int| 0 <= i < exits.len() && (#[trigger] exits[i]).travel_kind@ == "teleport"@
}

fn any_teleport(exits: &Vec<MapExit>) -> (answer: bool)
    ensures
        answer == has_teleport(exits@),
{
    let mut i: usize = 0;
    while i < exits.len()
        invariant
            i <= exits@.len(),
            forall|j: int| 0 <= j < i ==> (#[trigger] exits@[j]).travel_kind@ != "teleport"@,
        decreases exits@.len() - i,
    {
        if same(&exits[i].travel_kind, "teleport") {
            return true;
        }
        i = i + 1;
    }
    false
}

/// The document with the player who is there.
pub open spec fn traveller_fields(d: Document, player: PlayerStatus) -> Document {
    d
        .field("角色"@, player.name@)
        .field(
            "生命"@,
            text::integer(player.hp as int) + "/"@ + text::integer(player.max_hp as int),
        )
        .field(
            "魂力"@,
            text::integer(player.soul_power as int) + "/"@
                + text::integer(player.max_soul_power as int),
        )
}

fn add_traveller_fields(document: GameDocument, player: &PlayerStatus) -> (result: GameDocument)
    ensures
        result@ == traveller_fields(document@, *player),
{
    document
        .field("角色", &player.name)
        .field("生命", &cat3(&i64_text(player.hp), "/", &i64_text(player.max_hp)))
        .field("魂力", &cat3(&i64_text(player.soul_power), "/", &i64_text(player.max_soul_power)))
}

/// The kind of region that a map is, in words.
pub open spec fn region_text(map: MapRecord) -> Seq<char> {
    if map.safe {
        "安全区"@
    } else if map.pvp_enabled {
        "野外区域（可战斗）"@
    } else {
        "普通区域"@
    }
}

fn describe_region(map: &MapRecord) -> (label: &'static str)
    ensures
        label@ == region_text(*map),
{
    if map.safe {
        "安全区"
    } else if map.pvp_enabled {
        "野外区域（可战斗）"
    } else {
        "普通区域"
    }
}

/// A map, the ways from it and the player who is there.
pub open spec fn world(
    map: MapRecord,
    exits: Vec<MapExit>,
    player: Option<PlayerStatus>,
    picture: Option<Picture>,
) -> Document {
    let d = message::titled("当前位置 · "@ + map.name@)
        .field("地图"@, map.name@)
        .field("简介"@, map.description@)
        .field("等级要求"@, text::integer(map.level_required as int) + " 级"@)
        .field("区域"@, region_text(map))
        .field("传送阵"@, (if map.teleport_enabled { "可用"@ } else { "无"@ }));
    let d = match player {
        Some(player) => {
            traveller_fields(d, player)
        },
        None => d,
    };
    let d = d.field("方向"@, walk_text(exits@));
    let d = if has_teleport(exits@) {
        d.field("传送目标"@, "可使用“传送 地图名称”查看并前往"@)
    } else {
        d
    };
    d
        .illustration_if(picture)
        .command("状态"@)
        .command("NPC"@)
        .command("地图列表"@)
        .command("向 <上|下|左|右>"@)
        .command("传送 <地图>"@)
}

/// A map, the ways from it and the player who is there.
pub fn world_document(
    map: &MapRecord,
    exits: &Vec<MapExit>,
    player: &Option<PlayerStatus>,
    picture: Option<Illustration>,
) -> (document: GameDocument)
    ensures
        document@ == world(*map, *exits, *player, message::optional_picture(picture)),
{
    let document = GameDocument::new(&cat2("当前位置 · ", &map.name))
        .field("地图", &map.name)
        .field("简介", &map.description)
        .field("等级要求", &cat2(&i64_text(map.level_required), " 级"))
        .field("区域", describe_region(map))
        .field("传送阵", (if map.teleport_enabled { "可用" } else { "无" }));
    let document = match player {
        Some(player) => {
            add_traveller_fields(document, player)
        },
        None => document,
    };
    let document = document.field("方向", &describe_walks(exits));
    let document = if any_teleport(exits) {
        document.field("传送目标", "可使用“传送 地图名称”查看并前往")
    } else {
        document
    };
    document
        .illustration_if(picture)
        .command("状态")
        .command("NPC")
        .command("地图列表")
        .command("向 <上|下|左|右>")
        .command("传送 <地图>")
}

/// A journey that ended.
pub open spec fn transition(
    receipt: MapTravelReceipt,
    exits: Vec<MapExit>,
    title: Seq<char>,
    picture: Option<Picture>,
) -> Document {
    world(receipt.to, exits, None, picture)
        .field("结果"@, title)
        .field("出发地"@, receipt.from.name@)
        .field("到达地"@, receipt.to.name@)
        .notice(
            if receipt.travel_kind@ == "teleport"@ {
                "传送阵已完成定位"@
            } else {
                "已沿地图出口抵达目标区域"@
            },
        )
}

/// A journey that ended.
pub fn transition_document(
    receipt: &MapTravelReceipt,
    exits: &Vec<MapExit>,
    title: &str,
    picture: Option<Illustration>,
) -> (document: GameDocument)
    ensures
        document@ == transition(*receipt, *exits, title@, message::optional_picture(picture)),
{
    world_document(&receipt.to, exits, &None, picture)
        .field("结果", title)
        .field("出发地", &receipt.from.name)
        .field("到达地", &receipt.to.name)
        .notice(
            if same(&receipt.travel_kind, "teleport") {
                "传送阵已完成定位"
            } else {
                "已沿地图出口抵达目标区域"
            },
        )
}

} // verus!
