//! Which commands a player's shortcut may stand for, and how it may be named.
use crate::config;
use crate::text::same;
use vstd::prelude::*;

verus! {

/// The main commands of the game, without those of its owner or the host.
pub open spec fn is_alias_target(command: Seq<char>) -> bool {
    ||| command == "斗罗系统"@
    ||| command == "开始穿越"@
    ||| command == "武魂觉醒"@
    ||| command == "开武魂"@
    ||| command == "关武魂"@
    ||| command == "技能"@
    ||| command == "技能详情"@
    ||| command == "装备魂技"@
    ||| command == "卸下魂技"@
    ||| command == "魂环"@
    ||| command == "吸收魂环"@
    ||| command == "剥离魂环"@
    ||| command == "释放技能"@
    ||| command == "签到"@
    ||| command == "钱包"@
    ||| command == "转账"@
    ||| command == "NPC"@
    ||| command == "对话"@
    ||| command == "商店"@
    ||| command == "背包"@
    ||| command == "储物器"@
    ||| command == "查看储物器"@
    ||| command == "存入"@
    ||| command == "取出"@
    ||| command == "封印储物器"@
    ||| command == "解封储物器"@
    ||| command == "装备魂导器"@
    ||| command == "卸下魂导器"@
    ||| command == "购买"@
    ||| command == "出售"@
    ||| command == "使用"@
    ||| command == "发送物品"@
    ||| command == "状态"@
    ||| command == "位置"@
    ||| command == "地图列表"@
    ||| command == "数值曲线"@
    ||| command == "向"@
    ||| command == "传送"@
    ||| command == "掉落"@
    ||| command == "拾取"@
    ||| command == "任务"@
    ||| command == "接取任务"@
    ||| command == "任务进度"@
    ||| command == "提交任务"@
    ||| command == "放弃任务"@
    ||| command == "魂兽"@
    ||| command == "挑战"@
    ||| command == "攻击"@
    ||| command == "逃跑"@
    ||| command == "战斗状态"@
    ||| command == "战斗日志"@
    ||| command == "决斗"@
    ||| command == "决斗状态"@
    ||| command == "接受决斗"@
    ||| command == "取消决斗"@
}

/// Whether a shortcut may stand for a command.
pub fn is_player_alias_target(command: &str) -> (answer: bool)
    ensures
        answer == is_alias_target(command@),
{
    same(command, "斗罗系统")
        || same(command, "开始穿越")
        || same(command, "武魂觉醒")
        || same(command, "开武魂")
        || same(command, "关武魂")
        || same(command, "技能")
        || same(command, "技能详情")
        || same(command, "装备魂技")
        || same(command, "卸下魂技")
        || same(command, "魂环")
        || same(command, "吸收魂环")
        || same(command, "剥离魂环")
        || same(command, "释放技能")
        || same(command, "签到")
        || same(command, "钱包")
        || same(command, "转账")
        || same(command, "NPC")
        || same(command, "对话")
        || same(command, "商店")
        || same(command, "背包")
        || same(command, "储物器")
        || same(command, "查看储物器")
        || same(command, "存入")
        || same(command, "取出")
        || same(command, "封印储物器")
        || same(command, "解封储物器")
        || same(command, "装备魂导器")
        || same(command, "卸下魂导器")
        || same(command, "购买")
        || same(command, "出售")
        || same(command, "使用")
        || same(command, "发送物品")
        || same(command, "状态")
        || same(command, "位置")
        || same(command, "地图列表")
        || same(command, "数值曲线")
        || same(command, "向")
        || same(command, "传送")
        || same(command, "掉落")
        || same(command, "拾取")
        || same(command, "任务")
        || same(command, "接取任务")
        || same(command, "任务进度")
        || same(command, "提交任务")
        || same(command, "放弃任务")
        || same(command, "魂兽")
        || same(command, "挑战")
        || same(command, "攻击")
        || same(command, "逃跑")
        || same(command, "战斗状态")
        || same(command, "战斗日志")
        || same(command, "决斗")
        || same(command, "决斗状态")
        || same(command, "接受决斗")
        || same(command, "取消决斗")
}

/// The names and aliases under which the game has registered commands.
pub open spec fn is_registered_key(command: Seq<char>) -> bool {
    ||| command == "斗罗系统"@
    ||| command == "斗罗菜单"@
    ||| command == "菜单"@
    ||| command == "开始穿越"@
    ||| command == "开始转生"@
    ||| command == "武魂觉醒"@
    ||| command == "觉醒"@
    ||| command == "开武魂"@
    ||| command == "武魂开启"@
    ||| command == "关武魂"@
    ||| command == "武魂关闭"@
    ||| command == "放弃复活"@
    ||| command == "放弃重生"@
    ||| command == "重生"@
    ||| command == "技能"@
    ||| command == "魂技"@
    ||| command == "技能列表"@
    ||| command == "技能详情"@
    ||| command == "装备魂技"@
    ||| command == "装备技能"@
    ||| command == "卸下魂技"@
    ||| command == "卸下技能"@
    ||| command == "魂环"@
    ||| command == "查看魂环"@
    ||| command == "吸收魂环"@
    ||| command == "附加魂环"@
    ||| command == "剥离魂环"@
    ||| command == "剥离"@
    ||| command == "释放技能"@
    ||| command == "使用技能"@
    ||| command == "使用魂技"@
    ||| command == "施放魂技"@
    ||| command == "签到"@
    ||| command == "每日签到"@
    ||| command == "打卡"@
    ||| command == "钱包"@
    ||| command == "我的钱包"@
    ||| command == "余额"@
    ||| command == "转账"@
    ||| command == "转钱"@
    ||| command == "汇款"@
    ||| command == "NPC"@
    ||| command == "人物"@
    ||| command == "当前NPC"@
    ||| command == "对话"@
    ||| command == "交谈"@
    ||| command == "聊天"@
    ||| command == "商店"@
    ||| command == "店铺"@
    ||| command == "背包"@
    ||| command == "随身物品"@
    ||| command == "物品"@
    ||| command == "道具"@
    ||| command == "储物器"@
    ||| command == "储物"@
    ||| command == "储物器列表"@
    ||| command == "查看储物器"@
    ||| command == "打开储物器"@
    ||| command == "存入"@
    ||| command == "取出"@
    ||| command == "封印储物器"@
    ||| command == "解封储物器"@
    ||| command == "解封"@
    ||| command == "装备魂导器"@
    ||| command == "装备储物器"@
    ||| command == "卸下魂导器"@
    ||| command == "卸下储物器"@
    ||| command == "购买"@
    ||| command == "购买物品"@
    ||| command == "买"@
    ||| command == "出售"@
    ||| command == "卖出"@
    ||| command == "卖"@
    ||| command == "使用"@
    ||| command == "使用物品"@
    ||| command == "用"@
    ||| command == "发送物品"@
    ||| command == "赠送"@
    ||| command == "赠送物品"@
    ||| command == "状态"@
    ||| command == "我的状态"@
    ||| command == "属性"@
    ||| command == "排行榜"@
    ||| command == "排行"@
    ||| command == "排名"@
    ||| command == "位置"@
    ||| command == "地图"@
    ||| command == "当前位置"@
    ||| command == "地图列表"@
    ||| command == "地图清单"@
    ||| command == "数值曲线"@
    ||| command == "成长曲线"@
    ||| command == "曲线列表"@
    ||| command == "向"@
    ||| command == "传送"@
    ||| command == "掉落"@
    ||| command == "查看掉落"@
    ||| command == "地面掉落"@
    ||| command == "拾取"@
    ||| command == "捡取"@
    ||| command == "拾取物品"@
    ||| command == "任务"@
    ||| command == "任务列表"@
    ||| command == "任务清单"@
    ||| command == "接取任务"@
    ||| command == "接受任务"@
    ||| command == "接任务"@
    ||| command == "任务进度"@
    ||| command == "我的任务"@
    ||| command == "进行中任务"@
    ||| command == "提交任务"@
    ||| command == "完成任务"@
    ||| command == "交任务"@
    ||| command == "放弃任务"@
    ||| command == "取消任务"@
    ||| command == "魂兽"@
    ||| command == "魂兽列表"@
    ||| command == "当前魂兽"@
    ||| command == "挑战"@
    ||| command == "挑战魂兽"@
    ||| command == "攻击"@
    ||| command == "打"@
    ||| command == "逃跑"@
    ||| command == "撤退"@
    ||| command == "战斗状态"@
    ||| command == "战斗"@
    ||| command == "查看战斗"@
    ||| command == "战斗日志"@
    ||| command == "决斗"@
    ||| command == "决斗状态"@
    ||| command == "接受决斗"@
    ||| command == "取消决斗"@
    ||| command == "旧档检查"@
    ||| command == "旧档认领"@
    ||| command == "授权上下文"@
    ||| command == "新增授权"@
    ||| command == "授权群"@
    ||| command == "取消授权"@
    ||| command == "撤销授权"@
    ||| command == "删除授权"@
    ||| command == "查看授权"@
    ||| command == "授权列表"@
    ||| command == "设置快捷键"@
    ||| command == "快捷键列表"@
    ||| command == "查看快捷键"@
    ||| command == "删除快捷键"@
}

fn registered_key(command: &str) -> (answer: bool)
    ensures
        answer == is_registered_key(command@),
{
    same(command, "斗罗系统")
        || same(command, "斗罗菜单")
        || same(command, "菜单")
        || same(command, "开始穿越")
        || same(command, "开始转生")
        || same(command, "武魂觉醒")
        || same(command, "觉醒")
        || same(command, "开武魂")
        || same(command, "武魂开启")
        || same(command, "关武魂")
        || same(command, "武魂关闭")
        || same(command, "放弃复活")
        || same(command, "放弃重生")
        || same(command, "重生")
        || same(command, "技能")
        || same(command, "魂技")
        || same(command, "技能列表")
        || same(command, "技能详情")
        || same(command, "装备魂技")
        || same(command, "装备技能")
        || same(command, "卸下魂技")
        || same(command, "卸下技能")
        || same(command, "魂环")
        || same(command, "查看魂环")
        || same(command, "吸收魂环")
        || same(command, "附加魂环")
        || same(command, "剥离魂环")
        || same(command, "剥离")
        || same(command, "释放技能")
        || same(command, "使用技能")
        || same(command, "使用魂技")
        || same(command, "施放魂技")
        || same(command, "签到")
        || same(command, "每日签到")
        || same(command, "打卡")
        || same(command, "钱包")
        || same(command, "我的钱包")
        || same(command, "余额")
        || same(command, "转账")
        || same(command, "转钱")
        || same(command, "汇款")
        || same(command, "NPC")
        || same(command, "人物")
        || same(command, "当前NPC")
        || same(command, "对话")
        || same(command, "交谈")
        || same(command, "聊天")
        || same(command, "商店")
        || same(command, "店铺")
        || same(command, "背包")
        || same(command, "随身物品")
        || same(command, "物品")
        || same(command, "道具")
        || same(command, "储物器")
        || same(command, "储物")
        || same(command, "储物器列表")
        || same(command, "查看储物器")
        || same(command, "打开储物器")
        || same(command, "存入")
        || same(command, "取出")
        || same(command, "封印储物器")
        || same(command, "解封储物器")
        || same(command, "解封")
        || same(command, "装备魂导器")
        || same(command, "装备储物器")
        || same(command, "卸下魂导器")
        || same(command, "卸下储物器")
        || same(command, "购买")
        || same(command, "购买物品")
        || same(command, "买")
        || same(command, "出售")
        || same(command, "卖出")
        || same(command, "卖")
        || same(command, "使用")
        || same(command, "使用物品")
        || same(command, "用")
        || same(command, "发送物品")
        || same(command, "赠送")
        || same(command, "赠送物品")
        || same(command, "状态")
        || same(command, "我的状态")
        || same(command, "属性")
        || same(command, "排行榜")
        || same(command, "排行")
        || same(command, "排名")
        || same(command, "位置")
        || same(command, "地图")
        || same(command, "当前位置")
        || same(command, "地图列表")
        || same(command, "地图清单")
        || same(command, "数值曲线")
        || same(command, "成长曲线")
        || same(command, "曲线列表")
        || same(command, "向")
        || same(command, "传送")
        || same(command, "掉落")
        || same(command, "查看掉落")
        || same(command, "地面掉落")
        || same(command, "拾取")
        || same(command, "捡取")
        || same(command, "拾取物品")
        || same(command, "任务")
        || same(command, "任务列表")
        || same(command, "任务清单")
        || same(command, "接取任务")
        || same(command, "接受任务")
        || same(command, "接任务")
        || same(command, "任务进度")
        || same(command, "我的任务")
        || same(command, "进行中任务")
        || same(command, "提交任务")
        || same(command, "完成任务")
        || same(command, "交任务")
        || same(command, "放弃任务")
        || same(command, "取消任务")
        || same(command, "魂兽")
        || same(command, "魂兽列表")
        || same(command, "当前魂兽")
        || same(command, "挑战")
        || same(command, "挑战魂兽")
        || same(command, "攻击")
        || same(command, "打")
        || same(command, "逃跑")
        || same(command, "撤退")
        || same(command, "战斗状态")
        || same(command, "战斗")
        || same(command, "查看战斗")
        || same(command, "战斗日志")
        || same(command, "决斗")
        || same(command, "决斗状态")
        || same(command, "接受决斗")
        || same(command, "取消决斗")
        || same(command, "旧档检查")
        || same(command, "旧档认领")
        || same(command, "授权上下文")
        || same(command, "新增授权")
        || same(command, "授权群")
        || same(command, "取消授权")
        || same(command, "撤销授权")
        || same(command, "删除授权")
        || same(command, "查看授权")
        || same(command, "授权列表")
        || same(command, "设置快捷键")
        || same(command, "快捷键列表")
        || same(command, "查看快捷键")
        || same(command, "删除快捷键")
}

/// The names that the host keeps for itself.
pub open spec fn is_host_key(command: Seq<char>) -> bool {
    ||| command == "plugins"@
    ||| command == "pl"@
    ||| command == "registry"@
    ||| command == "reg"@
    ||| command == "dynamic-errors"@
    ||| command == "derr"@
    ||| command == "help"@
    ||| command == "h"@
    ||| command == "?"@
}

fn host_key(command: &str) -> (answer: bool)
    ensures
        answer == is_host_key(command@),
{
    same(command, "plugins")
        || same(command, "pl")
        || same(command, "registry")
        || same(command, "reg")
        || same(command, "dynamic-errors")
        || same(command, "derr")
        || same(command, "help")
        || same(command, "h")
        || same(command, "?")
}

/// Why a shortcut may not stand for a command.
pub open spec fn alias_target_error(command: Seq<char>) -> Option<Seq<char>> {
    if is_alias_target(command) {
        None
    } else {
        Some("原指令必须是可执行的游戏主命令，不能指向管理命令、宿主命令或其他快捷键"@)
    }
}

/// Checks what a shortcut stands for.
pub fn validate_player_alias_target(command: &str) -> (result: Result<(), String>)
    ensures
        config::failure(result) == alias_target_error(command@),
{
    if is_player_alias_target(command) {
        Ok(())
    } else {
        Err(
            "原指令必须是可执行的游戏主命令，不能指向管理命令、宿主命令或其他快捷键".to_owned(),
        )
    }
}

/// Why a shortcut may not have a name.
pub open spec fn alias_name_error(alias: Seq<char>) -> Option<Seq<char>> {
    if is_registered_key(alias) {
        Some("快捷键不能与已注册的斗罗命令或别名重名"@)
    } else if is_host_key(alias) {
        Some("快捷键不能覆盖 QimenBot 管理或帮助命令"@)
    } else {
        None
    }
}

/// Checks the name of a shortcut.
pub fn validate_player_alias_name(alias: &str) -> (result: Result<(), String>)
    ensures
        config::failure(result) == alias_name_error(alias@),
{
    if registered_key(alias) {
        return Err("快捷键不能与已注册的斗罗命令或别名重名".to_owned());
    }
    if host_key(alias) {
        return Err("快捷键不能覆盖 QimenBot 管理或帮助命令".to_owned());
    }
    Ok(())
}

/// No shortcut can be named like a command that shortcuts stand for, so expanding
/// one never meets another.
pub proof fn shortcuts_never_shadow_their_targets(command: Seq<char>)
    requires
        is_alias_target(command),
    ensures
        alias_name_error(command) is Some,
{
}

} // verus!
