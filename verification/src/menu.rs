//! The menu of the game.
use crate::game_args;
use crate::message;
use crate::message::{Document, GameDocument, Illustration, Picture};
use crate::plugin;
use crate::text;
use crate::text::{cat2, cat3, nth, parse_unsigned, same, split_whitespace, trim, usize_text};
use vstd::prelude::*;
use vstd::string::*;

verus! {

/// How many pages the menu has.
pub const MENU_PAGE_COUNT: usize = 6;

/// A command of the menu and what it does.
#[derive(Clone, Copy, Debug, PartialEq, Eq)]
pub struct MenuEntry {
    pub command: &'static str,
    pub description: &'static str,
}

/// A page of the menu.
#[derive(Clone, Debug, PartialEq, Eq)]
pub struct MenuPage {
    pub key: &'static str,
    pub title: &'static str,
    pub entries: Vec<MenuEntry>,
}

/// The word that names a page.
pub open spec fn page_key(page: int) -> Seq<char> {
    if page == 0 {
        "开始"@
    } else if page == 1 {
        "角色"@
    } else if page == 2 {
        "世界"@
    } else if page == 3 {
        "经济"@
    } else if page == 4 {
        "任务"@
    } else {
        "战斗"@
    }
}

/// The title of a page.
pub open spec fn page_title(page: int) -> Seq<char> {
    if page == 0 {
        "开始游戏"@
    } else if page == 1 {
        "角色成长"@
    } else if page == 2 {
        "世界探索"@
    } else if page == 3 {
        "NPC 与物品"@
    } else if page == 4 {
        "任务与成长"@
    } else {
        "魂兽战斗"@
    }
}

/// The commands of a page and what they do.
pub open spec fn page_entries(page: int) -> Seq<(Seq<char>, Seq<char>)> {
    if page == 0 {
        seq![
            ("开始穿越 <角色名> <男|女>"@, "创建你的斗罗大陆角色"@),
        ]
    } else if page == 1 {
        seq![
            ("武魂觉醒"@, "觉醒第一武魂"@),
            ("开武魂"@, "开启当前武魂并进入战斗形态"@),
            ("关武魂"@, "关闭当前武魂并退出战斗形态"@),
            ("状态"@, "查看角色属性、武魂和位置"@),
            ("技能"@, "查看已学习魂技和魂力消耗"@),
            ("装备魂技 <魂技>"@, "装备已学习魂技并加入战斗可用列表"@),
            ("卸下魂技 <魂技>"@, "卸下已装备魂技，至少保留一个可用魂技"@),
            ("魂环"@, "查看已吸收魂环和待吸收魂环"@),
            ("签到"@, "领取每日经验和金魂币"@),
            ("钱包"@, "查看金魂币余额"@),
        ]
    } else if page == 2 {
        seq![
            ("位置"@, "查看当前地图、出口和区域信息"@),
            ("地图列表 [页码]"@, "分页查看地图和等级要求"@),
            ("向 <上|下|左|右>"@, "沿当前地图出口移动"@),
            ("传送 [地图]"@, "从传送阵前往可达地图"@),
            ("掉落 [页码]"@, "查看当前地图可拾取的地面掉落"@),
            ("拾取 <掉落ID>"@, "拾取当前地图的一整堆物品"@),
        ]
    } else if page == 3 {
        seq![
            ("NPC"@, "查看当前地图的 NPC"@),
            ("对话 <NPC>"@, "与当前地图的 NPC 对话"@),
            ("商店 [页码]"@, "查看已对话商人的商品"@),
            ("背包 [页码]"@, "查看随身物品"@),
            ("购买 <物品> [数量]"@, "从当前商店购买物品"@),
            ("出售 <物品> [数量]"@, "向当前商店出售物品"@),
            ("使用 <物品>"@, "使用背包中的消耗品"@),
            ("转账 <用户ID> <金额>"@, "向同一 Bot 身份域的玩家转账"@),
            ("发送物品 <用户ID> <物品> [数量]"@, "向同一 Bot 身份域的玩家赠送物品"@),
        ]
    } else if page == 4 {
        seq![
            ("任务 [页码]"@, "查看当前地图可接取的任务"@),
            ("接取任务 <任务>"@, "接取一项可用任务"@),
            ("任务进度 [任务]"@, "查看进行中的任务进度"@),
            ("提交任务 <任务>"@, "提交已完成任务并领取奖励"@),
            ("放弃任务 <任务>"@, "放弃进行中的任务"@),
        ]
    } else {
        seq![
            ("魂兽 [页码]"@, "查看当前地图可挑战的魂兽"@),
            ("挑战 <魂兽>"@, "发起一场魂兽挑战"@),
            ("攻击"@, "按武魂修正进行普通攻击并承受魂兽反击"@),
            ("吸收魂环 <魂兽>"@, "吸收击杀魂兽留下的魂环并解锁魂技"@),
            ("逃跑"@, "尝试结束当前战斗"@),
            ("战斗状态"@, "查看当前战斗快照"@),
            ("战斗日志"@, "查看最近战斗事件"@),
        ]
    }
}

/// The contents of a list of entries.
pub open spec fn entries_view(entries: Seq<MenuEntry>) -> Seq<(Seq<char>, Seq<char>)> {
    Seq::new(entries.len(), |i: int| (entries[i].command@, entries[i].description@))
}

fn entry(command: &'static str, description: &'static str) -> (entry: MenuEntry)
    ensures
        entry.command@ == command@,
        entry.description@ == description@,
{
    MenuEntry { command, description }
}

fn entries_of(page: usize) -> (entries: Vec<MenuEntry>)
    ensures
        entries_view(entries@) == page_entries(page as int),
{
    let entries: Vec<MenuEntry> = if page == 0 {
        vec![
            entry("开始穿越 <角色名> <男|女>", "创建你的斗罗大陆角色"),
        ]
    } else if page == 1 {
        vec![
            entry("武魂觉醒", "觉醒第一武魂"),
            entry("开武魂", "开启当前武魂并进入战斗形态"),
            entry("关武魂", "关闭当前武魂并退出战斗形态"),
            entry("状态", "查看角色属性、武魂和位置"),
            entry("技能", "查看已学习魂技和魂力消耗"),
            entry("装备魂技 <魂技>", "装备已学习魂技并加入战斗可用列表"),
            entry("卸下魂技 <魂技>", "卸下已装备魂技，至少保留一个可用魂技"),
            entry("魂环", "查看已吸收魂环和待吸收魂环"),
            entry("签到", "领取每日经验和金魂币"),
            entry("钱包", "查看金魂币余额"),
        ]
    } else if page == 2 {
        vec![
            entry("位置", "查看当前地图、出口和区域信息"),
            entry("地图列表 [页码]", "分页查看地图和等级要求"),
            entry("向 <上|下|左|右>", "沿当前地图出口移动"),
            entry("传送 [地图]", "从传送阵前往可达地图"),
            entry("掉落 [页码]", "查看当前地图可拾取的地面掉落"),
            entry("拾取 <掉落ID>", "拾取当前地图的一整堆物品"),
        ]
    } else if page == 3 {
        vec![
            entry("NPC", "查看当前地图的 NPC"),
            entry("对话 <NPC>", "与当前地图的 NPC 对话"),
            entry("商店 [页码]", "查看已对话商人的商品"),
            entry("背包 [页码]", "查看随身物品"),
            entry("购买 <物品> [数量]", "从当前商店购买物品"),
            entry("出售 <物品> [数量]", "向当前商店出售物品"),
            entry("使用 <物品>", "使用背包中的消耗品"),
            entry("转账 <用户ID> <金额>", "向同一 Bot 身份域的玩家转账"),
            entry("发送物品 <用户ID> <物品> [数量]", "向同一 Bot 身份域的玩家赠送物品"),
        ]
    } else if page == 4 {
        vec![
            entry("任务 [页码]", "查看当前地图可接取的任务"),
            entry("接取任务 <任务>", "接取一项可用任务"),
            entry("任务进度 [任务]", "查看进行中的任务进度"),
            entry("提交任务 <任务>", "提交已完成任务并领取奖励"),
            entry("放弃任务 <任务>", "放弃进行中的任务"),
        ]
    } else {
        vec![
            entry("魂兽 [页码]", "查看当前地图可挑战的魂兽"),
            entry("挑战 <魂兽>", "发起一场魂兽挑战"),
            entry("攻击", "按武魂修正进行普通攻击并承受魂兽反击"),
            entry("吸收魂环 <魂兽>", "吸收击杀魂兽留下的魂环并解锁魂技"),
            entry("逃跑", "尝试结束当前战斗"),
            entry("战斗状态", "查看当前战斗快照"),
            entry("战斗日志", "查看最近战斗事件"),
        ]
    };
    assert(entries_view(entries@) =~= page_entries(page as int));
    entries
}

fn key_of(page: usize) -> (key: &'static str)
    ensures
        key@ == page_key(page as int),
{
    if page == 0 {
        "开始"
    } else if page == 1 {
        "角色"
    } else if page == 2 {
        "世界"
    } else if page == 3 {
        "经济"
    } else if page == 4 {
        "任务"
    } else {
        "战斗"
    }
}

fn title_of(page: usize) -> (title: &'static str)
    ensures
        title@ == page_title(page as int),
{
    if page == 0 {
        "开始游戏"
    } else if page == 1 {
        "角色成长"
    } else if page == 2 {
        "世界探索"
    } else if page == 3 {
        "NPC 与物品"
    } else if page == 4 {
        "任务与成长"
    } else {
        "魂兽战斗"
    }
}

/// The pages of the menu.
pub fn menu_pages() -> (pages: Vec<MenuPage>)
    ensures
        pages@.len() == MENU_PAGE_COUNT,
        forall|i: int|
            0 <= i < pages@.len() ==> (#[trigger] pages@[i]).key@ == page_key(i)
                && pages@[i].title@ == page_title(i) && entries_view(pages@[i].entries@)
                == page_entries(i),
{
    let mut pages: Vec<MenuPage> = Vec::new();
    let mut i: usize = 0;
    while i < MENU_PAGE_COUNT
        invariant
            i <= MENU_PAGE_COUNT,
            pages@.len() == i,
            forall|j: int|
                0 <= j < i ==> (#[trigger] pages@[j]).key@ == page_key(j) && pages@[j].title@
                    == page_title(j) && entries_view(pages@[j].entries@) == page_entries(j),
        decreases MENU_PAGE_COUNT - i,
    {
        pages.push(MenuPage { key: key_of(i), title: title_of(i), entries: entries_of(i) });
        i = i + 1;
    }
    pages
}

/// How the menu is asked for.
pub open spec fn menu_usage() -> Seq<char> {
    "用法：斗罗系统 [页码|开始|角色|世界|经济|任务|战斗]"@
}

/// The first page with a key.
pub open spec fn page_with_key(key: Seq<char>) -> Result<nat, Seq<char>> {
    if page_key(0) == key {
        Ok(0)
    } else if page_key(1) == key {
        Ok(1)
    } else if page_key(2) == key {
        Ok(2)
    } else if page_key(3) == key {
        Ok(3)
    } else if page_key(4) == key {
        Ok(4)
    } else if page_key(5) == key {
        Ok(5)
    } else {
        Err(menu_usage())
    }
}

/// The page of the menu that the arguments ask for, by its number or its key; the
/// first one where nothing is said.
pub open spec fn menu_page(args: Seq<char>) -> Result<nat, Seq<char>> {
    let args = text::trimmed(args);
    let words = text::words(args);
    let token = if words.len() == 0 {
        ""@
    } else {
        words[0]
    };
    let number = text::unsigned_value(token, usize::MAX as nat);
    if args.len() == 0 {
        Ok(0)
    } else if words.len() > 1 {
        Err(menu_usage())
    } else if number is Some && number->0 > 0 {
        if number->0 <= MENU_PAGE_COUNT {
            Ok((number->0 - 1) as nat)
        } else {
            Err("菜单页码必须在 1 到 "@ + text::decimal(6) + " 之间"@)
        }
    } else {
        page_with_key(token)
    }
}

fn find_page(key: &str) -> (result: Result<usize, String>)
    ensures
        game_args::usize_outcome(result) == page_with_key(key@),
{
    let mut i: usize = 0;
    while i < MENU_PAGE_COUNT
        invariant
            i <= MENU_PAGE_COUNT,
            forall|j: int| 0 <= j < i ==> #[trigger] page_key(j) != key@,
        decreases MENU_PAGE_COUNT - i,
    {
        if same(key_of(i), key) {
            return Ok(i);
        }
        i = i + 1;
    }
    Err("用法：斗罗系统 [页码|开始|角色|世界|经济|任务|战斗]".to_owned())
}

/// Reads the page of the menu that the arguments ask for.
pub fn parse_menu_page(args: &str) -> (result: Result<usize, String>)
    ensures
        game_args::usize_outcome(result) == menu_page(args@),
{
    let args = trim(args);
    if args.is_empty() {
        return Ok(0);
    }
    let parts = split_whitespace(args);
    if parts.len() > 1 {
        return Err("用法：斗罗系统 [页码|开始|角色|世界|经济|任务|战斗]".to_owned());
    }
    let token = if parts.len() == 0 {
        ""
    } else {
        nth(&parts, 0)
    };
    match parse_unsigned(token, usize::MAX as u64) {
        Some(number) => if number > 0 {
            if number <= MENU_PAGE_COUNT as u64 {
                return Ok((number - 1) as usize);
            }
            return Err(cat3("菜单页码必须在 1 到 ", &usize_text(6), " 之间"));
        },
        None => {},
    }
    find_page(token)
}

/// A document with commands and what they do.
pub open spec fn with_entries(d: Document, entries: Seq<(Seq<char>, Seq<char>)>) -> Document
    decreases entries.len(),
{
    if entries.len() == 0 {
        d
    } else {
        with_entries(d, entries.drop_last()).command_help(entries.last().0, entries.last().1)
    }
}

/// A page of the menu.
pub open spec fn menu(page: int, picture: Option<Picture>) -> Document {
    let d = message::titled("斗罗系统 · "@ + page_title(page))
        .line("欢迎来到斗罗大陆。先创建角色，再觉醒属于你的武魂。"@)
        .field("分类"@, page_title(page))
        .field("页码"@, text::decimal((page + 1) as nat) + " / "@ + text::decimal(6));
    let d = with_entries(d, page_entries(page));
    let d = if page > 0 {
        d.command("斗罗系统 "@ + text::decimal(page as nat))
    } else {
        d
    };
    let d = if page + 1 < MENU_PAGE_COUNT {
        d.command("斗罗系统 "@ + text::decimal((page + 2) as nat))
    } else {
        d
    };
    d.illustration_if(picture).notice(
        "输入“斗罗系统 <页码或分类>”翻页；命令前缀、群聊 @ 和回复入口由 QimenBot 宿主配置决定"@,
    )
}

/// A page of the menu.
pub fn menu_document(page: usize, picture: Option<Illustration>) -> (document: GameDocument)
    requires
        page < MENU_PAGE_COUNT,
    ensures
        document@ == menu(page as int, message::optional_picture(picture)),
{
    let title = title_of(page);
    let mut document = GameDocument::new(&cat2("斗罗系统 · ", title))
        .line("欢迎来到斗罗大陆。先创建角色，再觉醒属于你的武魂。")
        .field("分类", title)
        .field("页码", &cat3(&usize_text(page + 1), " / ", &usize_text(6)));
    let ghost start = document@;
    let ghost all = page_entries(page as int);
    let entries = entries_of(page);
    let mut i: usize = 0;
    while i < entries.len()
        invariant
            i <= entries@.len(),
            entries_view(entries@) == all,
            document@ == with_entries(start, all.take(i as int)),
        decreases entries@.len() - i,
    {
        assert(all.take(i + 1).drop_last() =~= all.take(i as int));
        assert(all.take(i + 1).last() == (
            entries@[i as int].command@,
            entries@[i as int].description@,
        ));
        document = document.command_help(entries[i].command, entries[i].description);
        i = i + 1;
    }
    assert(all.take(i as int) =~= all);
    let document = if page > 0 {
        document.command(&cat2("斗罗系统 ", &usize_text(page)))
    } else {
        document
    };
    let document = if page + 1 < MENU_PAGE_COUNT {
        document.command(&cat2("斗罗系统 ", &usize_text(page + 2)))
    } else {
        document
    };
    document.illustration_if(picture).notice(
        "输入“斗罗系统 <页码或分类>”翻页；命令前缀、群聊 @ 和回复入口由 QimenBot 宿主配置决定",
    )
}

/// Whether an entry of the menu shows a command: the command alone, or the command, a
/// space and its arguments.
pub open spec fn shows_command(entry: Seq<char>, command: Seq<char>) -> bool {
    entry == command || (command + " "@).is_prefix_of(entry)
}

/// Every entry of the menu shows a command that the plugin runs.
pub proof fn the_menu_shows_only_commands_that_exist(page: int, i: int)
    requires
        0 <= page < MENU_PAGE_COUNT,
        0 <= i < page_entries(page).len(),
    ensures
        exists|command: Seq<char>|
            shows_command(page_entries(page)[i].0, command) && #[trigger] plugin::route_of(
                command,
            ) is Some,
{
    if page == 0 && i == 0 {
        reveal_strlit("开始穿越 <角色名> <男|女>");
        reveal_strlit("开始穿越");
        reveal_strlit(" ");
        assert(("开始穿越"@ + " "@).is_prefix_of("开始穿越 <角色名> <男|女>"@));
        assert(shows_command(page_entries(page)[i].0, "开始穿越"@));
        assert(plugin::route_of("开始穿越"@) is Some);
    }
    if page == 1 && i == 0 {
        assert(shows_command(page_entries(page)[i].0, "武魂觉醒"@));
        assert(plugin::route_of("武魂觉醒"@) is Some);
    }
    if page == 1 && i == 1 {
        assert(shows_command(page_entries(page)[i].0, "开武魂"@));
        assert(plugin::route_of("开武魂"@) is Some);
    }
    if page == 1 && i == 2 {
        assert(shows_command(page_entries(page)[i].0, "关武魂"@));
        assert(plugin::route_of("关武魂"@) is Some);
    }
    if page == 1 && i == 3 {
        assert(shows_command(page_entries(page)[i].0, "状态"@));
        assert(plugin::route_of("状态"@) is Some);
    }
    if page == 1 && i == 4 {
        assert(shows_command(page_entries(page)[i].0, "技能"@));
        assert(plugin::route_of("技能"@) is Some);
    }
    if page == 1 && i == 5 {
        reveal_strlit("装备魂技 <魂技>");
        reveal_strlit("装备魂技");
        reveal_strlit(" ");
        assert(("装备魂技"@ + " "@).is_prefix_of("装备魂技 <魂技>"@));
        assert(shows_command(page_entries(page)[i].0, "装备魂技"@));
        assert(plugin::route_of("装备魂技"@) is Some);
    }
    if page == 1 && i == 6 {
        reveal_strlit("卸下魂技 <魂技>");
        reveal_strlit("卸下魂技");
        reveal_strlit(" ");
        assert(("卸下魂技"@ + " "@).is_prefix_of("卸下魂技 <魂技>"@));
        assert(shows_command(page_entries(page)[i].0, "卸下魂技"@));
        assert(plugin::route_of("卸下魂技"@) is Some);
    }
    if page == 1 && i == 7 {
        assert(shows_command(page_entries(page)[i].0, "魂环"@));
        assert(plugin::route_of("魂环"@) is Some);
    }
    if page == 1 && i == 8 {
        assert(shows_command(page_entries(page)[i].0, "签到"@));
        assert(plugin::route_of("签到"@) is Some);
    }
    if page == 1 && i == 9 {
        assert(shows_command(page_entries(page)[i].0, "钱包"@));
        assert(plugin::route_of("钱包"@) is Some);
    }
    if page == 2 && i == 0 {
        assert(shows_command(page_entries(page)[i].0, "位置"@));
        assert(plugin::route_of("位置"@) is Some);
    }
    if page == 2 && i == 1 {
        reveal_strlit("地图列表 [页码]");
        reveal_strlit("地图列表");
        reveal_strlit(" ");
        assert(("地图列表"@ + " "@).is_prefix_of("地图列表 [页码]"@));
        assert(shows_command(page_entries(page)[i].0, "地图列表"@));
        assert(plugin::route_of("地图列表"@) is Some);
    }
    if page == 2 && i == 2 {
        reveal_strlit("向 <上|下|左|右>");
        reveal_strlit("向");
        reveal_strlit(" ");
        assert(("向"@ + " "@).is_prefix_of("向 <上|下|左|右>"@));
        assert(shows_command(page_entries(page)[i].0, "向"@));
        assert(plugin::route_of("向"@) is Some);
    }
    if page == 2 && i == 3 {
        reveal_strlit("传送 [地图]");
        reveal_strlit("传送");
        reveal_strlit(" ");
        assert(("传送"@ + " "@).is_prefix_of("传送 [地图]"@));
        assert(shows_command(page_entries(page)[i].0, "传送"@));
        assert(plugin::route_of("传送"@) is Some);
    }
    if page == 2 && i == 4 {
        reveal_strlit("掉落 [页码]");
        reveal_strlit("掉落");
        reveal_strlit(" ");
        assert(("掉落"@ + " "@).is_prefix_of("掉落 [页码]"@));
        assert(shows_command(page_entries(page)[i].0, "掉落"@));
        assert(plugin::route_of("掉落"@) is Some);
    }
    if page == 2 && i == 5 {
        reveal_strlit("拾取 <掉落ID>");
        reveal_strlit("拾取");
        reveal_strlit(" ");
        assert(("拾取"@ + " "@).is_prefix_of("拾取 <掉落ID>"@));
        assert(shows_command(page_entries(page)[i].0, "拾取"@));
        assert(plugin::route_of("拾取"@) is Some);
    }
    if page == 3 && i == 0 {
        assert(shows_command(page_entries(page)[i].0, "NPC"@));
        assert(plugin::route_of("NPC"@) is Some);
    }
    if page == 3 && i == 1 {
        reveal_strlit("对话 <NPC>");
        reveal_strlit("对话");
        reveal_strlit(" ");
        assert(("对话"@ + " "@).is_prefix_of("对话 <NPC>"@));
        assert(shows_command(page_entries(page)[i].0, "对话"@));
        assert(plugin::route_of("对话"@) is Some);
    }
    if page == 3 && i == 2 {
        reveal_strlit("商店 [页码]");
        reveal_strlit("商店");
        reveal_strlit(" ");
        assert(("商店"@ + " "@).is_prefix_of("商店 [页码]"@));
        assert(shows_command(page_entries(page)[i].0, "商店"@));
        assert(plugin::route_of("商店"@) is Some);
    }
    if page == 3 && i == 3 {
        reveal_strlit("背包 [页码]");
        reveal_strlit("背包");
        reveal_strlit(" ");
        assert(("背包"@ + " "@).is_prefix_of("背包 [页码]"@));
        assert(shows_command(page_entries(page)[i].0, "背包"@));
        assert(plugin::route_of("背包"@) is Some);
    }
    if page == 3 && i == 4 {
        reveal_strlit("购买 <物品> [数量]");
        reveal_strlit("购买");
        reveal_strlit(" ");
        assert(("购买"@ + " "@).is_prefix_of("购买 <物品> [数量]"@));
        assert(shows_command(page_entries(page)[i].0, "购买"@));
        assert(plugin::route_of("购买"@) is Some);
    }
    if page == 3 && i == 5 {
        reveal_strlit("出售 <物品> [数量]");
        reveal_strlit("出售");
        reveal_strlit(" ");
        assert(("出售"@ + " "@).is_prefix_of("出售 <物品> [数量]"@));
        assert(shows_command(page_entries(page)[i].0, "出售"@));
        assert(plugin::route_of("出售"@) is Some);
    }
    if page == 3 && i == 6 {
        reveal_strlit("使用 <物品>");
        reveal_strlit("使用");
        reveal_strlit(" ");
        assert(("使用"@ + " "@).is_prefix_of("使用 <物品>"@));
        assert(shows_command(page_entries(page)[i].0, "使用"@));
        assert(plugin::route_of("使用"@) is Some);
    }
    if page == 3 && i == 7 {
        reveal_strlit("转账 <用户ID> <金额>");
        reveal_strlit("转账");
        reveal_strlit(" ");
        assert(("转账"@ + " "@).is_prefix_of("转账 <用户ID> <金额>"@));
        assert(shows_command(page_entries(page)[i].0, "转账"@));
        assert(plugin::route_of("转账"@) is Some);
    }
    if page == 3 && i == 8 {
        reveal_strlit("发送物品 <用户ID> <物品> [数量]");
        reveal_strlit("发送物品");
        reveal_strlit(" ");
        assert(("发送物品"@ + " "@).is_prefix_of("发送物品 <用户ID> <物品> [数量]"@));
        assert(shows_command(page_entries(page)[i].0, "发送物品"@));
        assert(plugin::route_of("发送物品"@) is Some);
    }
    if page == 4 && i == 0 {
        reveal_strlit("任务 [页码]");
        reveal_strlit("任务");
        reveal_strlit(" ");
        assert(("任务"@ + " "@).is_prefix_of("任务 [页码]"@));
        assert(shows_command(page_entries(page)[i].0, "任务"@));
        assert(plugin::route_of("任务"@) is Some);
    }
    if page == 4 && i == 1 {
        reveal_strlit("接取任务 <任务>");
        reveal_strlit("接取任务");
        reveal_strlit(" ");
        assert(("接取任务"@ + " "@).is_prefix_of("接取任务 <任务>"@));
        assert(shows_command(page_entries(page)[i].0, "接取任务"@));
        assert(plugin::route_of("接取任务"@) is Some);
    }
    if page == 4 && i == 2 {
        reveal_strlit("任务进度 [任务]");
        reveal_strlit("任务进度");
        reveal_strlit(" ");
        assert(("任务进度"@ + " "@).is_prefix_of("任务进度 [任务]"@));
        assert(shows_command(page_entries(page)[i].0, "任务进度"@));
        assert(plugin::route_of("任务进度"@) is Some);
    }
    if page == 4 && i == 3 {
        reveal_strlit("提交任务 <任务>");
        reveal_strlit("提交任务");
        reveal_strlit(" ");
        assert(("提交任务"@ + " "@).is_prefix_of("提交任务 <任务>"@));
        assert(shows_command(page_entries(page)[i].0, "提交任务"@));
        assert(plugin::route_of("提交任务"@) is Some);
    }
    if page == 4 && i == 4 {
        reveal_strlit("放弃任务 <任务>");
        reveal_strlit("放弃任务");
        reveal_strlit(" ");
        assert(("放弃任务"@ + " "@).is_prefix_of("放弃任务 <任务>"@));
        assert(shows_command(page_entries(page)[i].0, "放弃任务"@));
        assert(plugin::route_of("放弃任务"@) is Some);
    }
    if page == 5 && i == 0 {
        reveal_strlit("魂兽 [页码]");
        reveal_strlit("魂兽");
        reveal_strlit(" ");
        assert(("魂兽"@ + " "@).is_prefix_of("魂兽 [页码]"@));
        assert(shows_command(page_entries(page)[i].0, "魂兽"@));
        assert(plugin::route_of("魂兽"@) is Some);
    }
    if page == 5 && i == 1 {
        reveal_strlit("挑战 <魂兽>");
        reveal_strlit("挑战");
        reveal_strlit(" ");
        assert(("挑战"@ + " "@).is_prefix_of("挑战 <魂兽>"@));
        assert(shows_command(page_entries(page)[i].0, "挑战"@));
        assert(plugin::route_of("挑战"@) is Some);
    }
    if page == 5 && i == 2 {
        assert(shows_command(page_entries(page)[i].0, "攻击"@));
        assert(plugin::route_of("攻击"@) is Some);
    }
    if page == 5 && i == 3 {
        reveal_strlit("吸收魂环 <魂兽>");
        reveal_strlit("吸收魂环");
        reveal_strlit(" ");
        assert(("吸收魂环"@ + " "@).is_prefix_of("吸收魂环 <魂兽>"@));
        assert(shows_command(page_entries(page)[i].0, "吸收魂环"@));
        assert(plugin::route_of("吸收魂环"@) is Some);
    }
    if page == 5 && i == 4 {
        assert(shows_command(page_entries(page)[i].0, "逃跑"@));
        assert(plugin::route_of("逃跑"@) is Some);
    }
    if page == 5 && i == 5 {
        assert(shows_command(page_entries(page)[i].0, "战斗状态"@));
        assert(plugin::route_of("战斗状态"@) is Some);
    }
    if page == 5 && i == 6 {
        assert(shows_command(page_entries(page)[i].0, "战斗日志"@));
        assert(plugin::route_of("战斗日志"@) is Some);
    }
}

/// A key is one word, without white space and without digits or a sign.
proof fn lemma_key(page: int)
    requires
        0 <= page < MENU_PAGE_COUNT,
    ensures
        page_with_key(page_key(page)) == Ok::<nat, Seq<char>>(page as nat),
        text::trimmed(page_key(page)) == page_key(page),
        text::words(page_key(page)) == seq![page_key(page)],
        text::unsigned_value(page_key(page), usize::MAX as nat) is None,
        page_key(page).len() == 2,
        page_key(page)[0] as int > 0x3000,
{
    reveal_strlit("开始");
    reveal_strlit("角色");
    reveal_strlit("世界");
    reveal_strlit("经济");
    reveal_strlit("任务");
    reveal_strlit("战斗");
    assert("开始"@[0] == '开');
    assert("角色"@[0] == '角');
    assert("世界"@[0] == '世');
    assert("经济"@[0] == '经');
    assert("任务"@[0] == '任');
    assert("战斗"@[0] == '战');
    let key = page_key(page);
    assert(!text::is_white(key[0]) && !text::is_white(key[1]));
    text::a_text_without_outer_white_is_trimmed(key);
    text::a_text_without_white_is_one_word(key);
    assert(!text::is_digit(key[0]));
}

/// A number in decimal notation is one word.
proof fn lemma_number(n: nat)
    requires
        n <= usize::MAX,
    ensures
        text::trimmed(text::decimal(n)) == text::decimal(n),
        text::words(text::decimal(n)) == seq![text::decimal(n)],
        text::unsigned_value(text::decimal(n), usize::MAX as nat) == Some(n),
        text::decimal(n).len() > 0,
        text::is_digit(text::decimal(n)[0]),
{
    let number = text::decimal(n);
    text::numbers_are_read_as_they_are_written(n, usize::MAX as nat);
    assert(text::is_digit(number[0]) && text::is_digit(number.last()));
    assert forall|i: int| 0 <= i < number.len() implies !text::is_white(#[trigger] number[i]) by {
        assert(text::is_digit(number[i]));
    }
    text::a_text_without_outer_white_is_trimmed(number);
    text::a_text_without_white_is_one_word(number);
}

/// Every page can be asked for by its number and by its key, and the first one also
/// without saying anything.
pub proof fn every_page_can_be_found(page: int)
    requires
        0 <= page < MENU_PAGE_COUNT,
    ensures
        menu_page(page_key(page)) == Ok::<nat, Seq<char>>(page as nat),
        menu_page(text::decimal((page + 1) as nat)) == Ok::<nat, Seq<char>>(page as nat),
        menu_page(""@) == Ok::<nat, Seq<char>>(0),
{
    lemma_key(page);
    lemma_number((page + 1) as nat);
    reveal_strlit("");
    text::lemma_run_len(""@, text::white(), 0);
    assert(text::trim_start(""@) =~= ""@);
    text::lemma_tail_run_len(""@, text::white(), 0);
    assert(text::trimmed(""@) =~= ""@);
}

/// No other number is a page, and more than one word never is.
pub proof fn nothing_else_is_a_page(n: nat, args: Seq<char>)
    requires
        n <= usize::MAX,
        n == 0 || n > MENU_PAGE_COUNT,
        text::words(text::trimmed(args)).len() > 1,
    ensures
        menu_page(text::decimal(n)) is Err,
        menu_page(args) == Err::<nat, Seq<char>>(menu_usage()),
{
    lemma_number(n);
    let number = text::decimal(n);
    assert forall|page: int| 0 <= page < MENU_PAGE_COUNT implies #[trigger] page_key(page)
        != number by {
        lemma_key(page);
        assert(number[0] as int <= 57);
    }
    let args = text::trimmed(args);
    if args.len() == 0 {
        text::lemma_run_len(args, text::white(), 0);
        assert(text::words(args).len() == 0);
    }
}

proof fn lemma_entries(d: Document, entries: Seq<(Seq<char>, Seq<char>)>)
    ensures
        with_entries(d, entries).commands == d.commands + entries.map_values(
            |entry: (Seq<char>, Seq<char>)| entry.0 + "："@ + entry.1,
        ),
    decreases entries.len(),
{
    let f = |entry: (Seq<char>, Seq<char>)| entry.0 + "："@ + entry.1;
    if entries.len() == 0 {
        assert(d.commands + entries.map_values(f) =~= d.commands);
    } else {
        lemma_entries(d, entries.drop_last());
        assert(entries.map_values(f) =~= entries.drop_last().map_values(f).push(f(entries.last())));
        assert(d.commands + entries.map_values(f) =~= (d.commands + entries.drop_last().map_values(
            f,
        )).push(f(entries.last())));
    }
}

/// An entry shows what its command does, which the command for a page does not.
proof fn lemma_entry_is_no_page(command: Seq<char>, description: Seq<char>, number: nat)
    ensures
        command + "："@ + description != "斗罗系统 "@ + text::decimal(number),
{
    reveal_strlit("：");
    reveal_strlit("斗罗系统 ");
    text::numbers_are_read_as_they_are_written(number, number);
    let entry = command + "："@ + description;
    let asked = "斗罗系统 "@ + text::decimal(number);
    let at = command.len() as int;
    assert(entry[at] == '：');
    if at < asked.len() {
        assert(at >= 5 ==> text::is_digit(text::decimal(number)[at - 5]));
        assert(asked[at] != '：');
    }
}

proof fn lemma_same_page(left: nat, right: nat)
    requires
        "斗罗系统 "@ + text::decimal(left) == "斗罗系统 "@ + text::decimal(right),
    ensures
        left == right,
{
    text::numbers_are_read_as_they_are_written(left, left);
    text::numbers_are_read_as_they_are_written(right, right);
    let n = "斗罗系统 "@.len() as int;
    assert(("斗罗系统 "@ + text::decimal(left)).skip(n) =~= text::decimal(left));
    assert(("斗罗系统 "@ + text::decimal(right)).skip(n) =~= text::decimal(right));
}

/// The command for the page before this one, on every page but the first.
pub open spec fn back(page: int) -> Seq<Seq<char>> {
    if page > 0 {
        seq!["斗罗系统 "@ + text::decimal(page as nat)]
    } else {
        Seq::empty()
    }
}

/// The command for the page behind this one, on every page but the last.
pub open spec fn forth(page: int) -> Seq<Seq<char>> {
    if page + 1 < MENU_PAGE_COUNT {
        seq!["斗罗系统 "@ + text::decimal((page + 2) as nat)]
    } else {
        Seq::empty()
    }
}

/// A page shows its own entries in order, then the command for the page before it, where
/// there is one, and the command for the page behind it, where there is one. It shows the
/// command for no other page.
pub proof fn pages_lead_to_their_neighbours(page: int, picture: Option<Picture>, number: nat)
    requires
        0 <= page < MENU_PAGE_COUNT,
    ensures
        menu(page, picture).commands == page_entries(page).map_values(
            |entry: (Seq<char>, Seq<char>)| entry.0 + "："@ + entry.1,
        ) + back(page) + forth(page),
        menu(page, picture).commands.contains("斗罗系统 "@ + text::decimal(number)) <==> 0 < number
            <= MENU_PAGE_COUNT && (number == page || number == page + 2),
{
    let d = message::titled("斗罗系统 · "@ + page_title(page))
        .line("欢迎来到斗罗大陆。先创建角色，再觉醒属于你的武魂。"@)
        .field("分类"@, page_title(page))
        .field("页码"@, text::decimal((page + 1) as nat) + " / "@ + text::decimal(6));
    lemma_entries(d, page_entries(page));
    assert(d.commands =~= Seq::empty());
    assert(menu(page, picture).commands =~= page_entries(page).map_values(
        |entry: (Seq<char>, Seq<char>)| entry.0 + "："@ + entry.1,
    ) + back(page) + forth(page));
    let entries = page_entries(page).map_values(
        |entry: (Seq<char>, Seq<char>)| entry.0 + "："@ + entry.1,
    );
    let commands = menu(page, picture).commands;
    let asked = "斗罗系统 "@ + text::decimal(number);
    if commands.contains(asked) {
        let i = choose|i: int| 0 <= i < commands.len() && commands[i] == asked;
        if i < entries.len() {
            lemma_entry_is_no_page(page_entries(page)[i].0, page_entries(page)[i].1, number);
        } else if page > 0 && i == entries.len() {
            lemma_same_page(number, page as nat);
        } else {
            lemma_same_page(number, (page + 2) as nat);
        }
    }
    if number == page && page > 0 {
        assert(commands[entries.len() as int] == asked);
    }
    if number == page + 2 && number <= MENU_PAGE_COUNT {
        assert(commands.last() == asked);
    }
}

} // verus!
