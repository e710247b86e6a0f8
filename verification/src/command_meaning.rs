//! Which command runs which action.
use crate::alias;
use crate::plugin;
use crate::plugin::{GameAction, Operation, RegisteredRoute};
use vstd::prelude::*;

verus! {

/// The commands, letter by letter.
proof fn lemma_spelling()
    ensures
        "斗罗系统"@.len() == 4,
        "斗罗系统"@[0] == '斗' && "斗罗系统"@[1] == '罗' && "斗罗系统"@[2] == '系' && "斗罗系统"@[3] == '统',
        "开始穿越"@.len() == 4,
        "开始穿越"@[0] == '开' && "开始穿越"@[1] == '始' && "开始穿越"@[2] == '穿' && "开始穿越"@[3] == '越',
        "武魂觉醒"@.len() == 4,
        "武魂觉醒"@[0] == '武' && "武魂觉醒"@[1] == '魂' && "武魂觉醒"@[2] == '觉' && "武魂觉醒"@[3] == '醒',
        "开武魂"@.len() == 3,
        "开武魂"@[0] == '开' && "开武魂"@[1] == '武' && "开武魂"@[2] == '魂',
        "关武魂"@.len() == 3,
        "关武魂"@[0] == '关' && "关武魂"@[1] == '武' && "关武魂"@[2] == '魂',
        "放弃复活"@.len() == 4,
        "放弃复活"@[0] == '放' && "放弃复活"@[1] == '弃' && "放弃复活"@[2] == '复' && "放弃复活"@[3] == '活',
        "技能"@.len() == 2,
        "技能"@[0] == '技' && "技能"@[1] == '能',
        "技能详情"@.len() == 4,
        "技能详情"@[0] == '技' && "技能详情"@[1] == '能' && "技能详情"@[2] == '详' && "技能详情"@[3] == '情',
        "装备魂技"@.len() == 4,
        "装备魂技"@[0] == '装' && "装备魂技"@[1] == '备' && "装备魂技"@[2] == '魂' && "装备魂技"@[3] == '技',
        "卸下魂技"@.len() == 4,
        "卸下魂技"@[0] == '卸' && "卸下魂技"@[1] == '下' && "卸下魂技"@[2] == '魂' && "卸下魂技"@[3] == '技',
        "魂环"@.len() == 2,
        "魂环"@[0] == '魂' && "魂环"@[1] == '环',
        "吸收魂环"@.len() == 4,
        "吸收魂环"@[0] == '吸' && "吸收魂环"@[1] == '收' && "吸收魂环"@[2] == '魂' && "吸收魂环"@[3] == '环',
        "剥离魂环"@.len() == 4,
        "剥离魂环"@[0] == '剥' && "剥离魂环"@[1] == '离' && "剥离魂环"@[2] == '魂' && "剥离魂环"@[3] == '环',
        "释放技能"@.len() == 4,
        "释放技能"@[0] == '释' && "释放技能"@[1] == '放' && "释放技能"@[2] == '技' && "释放技能"@[3] == '能',
        "签到"@.len() == 2,
        "签到"@[0] == '签' && "签到"@[1] == '到',
        "钱包"@.len() == 2,
        "钱包"@[0] == '钱' && "钱包"@[1] == '包',
        "转账"@.len() == 2,
        "转账"@[0] == '转' && "转账"@[1] == '账',
        "NPC"@.len() == 3,
        "NPC"@[0] == 'N' && "NPC"@[1] == 'P' && "NPC"@[2] == 'C',
        "对话"@.len() == 2,
        "对话"@[0] == '对' && "对话"@[1] == '话',
        "商店"@.len() == 2,
        "商店"@[0] == '商' && "商店"@[1] == '店',
        "背包"@.len() == 2,
        "背包"@[0] == '背' && "背包"@[1] == '包',
        "储物器"@.len() == 3,
        "储物器"@[0] == '储' && "储物器"@[1] == '物' && "储物器"@[2] == '器',
        "查看储物器"@.len() == 5,
        "查看储物器"@[0] == '查' && "查看储物器"@[1] == '看' && "查看储物器"@[2] == '储' && "查看储物器"@[3] == '物' && "查看储物器"@[4] == '器',
        "存入"@.len() == 2,
        "存入"@[0] == '存' && "存入"@[1] == '入',
        "取出"@.len() == 2,
        "取出"@[0] == '取' && "取出"@[1] == '出',
        "封印储物器"@.len() == 5,
        "封印储物器"@[0] == '封' && "封印储物器"@[1] == '印' && "封印储物器"@[2] == '储' && "封印储物器"@[3] == '物' && "封印储物器"@[4] == '器',
        "解封储物器"@.len() == 5,
        "解封储物器"@[0] == '解' && "解封储物器"@[1] == '封' && "解封储物器"@[2] == '储' && "解封储物器"@[3] == '物' && "解封储物器"@[4] == '器',
        "装备魂导器"@.len() == 5,
        "装备魂导器"@[0] == '装' && "装备魂导器"@[1] == '备' && "装备魂导器"@[2] == '魂' && "装备魂导器"@[3] == '导' && "装备魂导器"@[4] == '器',
        "卸下魂导器"@.len() == 5,
        "卸下魂导器"@[0] == '卸' && "卸下魂导器"@[1] == '下' && "卸下魂导器"@[2] == '魂' && "卸下魂导器"@[3] == '导' && "卸下魂导器"@[4] == '器',
        "购买"@.len() == 2,
        "购买"@[0] == '购' && "购买"@[1] == '买',
        "出售"@.len() == 2,
        "出售"@[0] == '出' && "出售"@[1] == '售',
        "使用"@.len() == 2,
        "使用"@[0] == '使' && "使用"@[1] == '用',
        "发送物品"@.len() == 4,
        "发送物品"@[0] == '发' && "发送物品"@[1] == '送' && "发送物品"@[2] == '物' && "发送物品"@[3] == '品',
        "状态"@.len() == 2,
        "状态"@[0] == '状' && "状态"@[1] == '态',
        "排行榜"@.len() == 3,
        "排行榜"@[0] == '排' && "排行榜"@[1] == '行' && "排行榜"@[2] == '榜',
        "位置"@.len() == 2,
        "位置"@[0] == '位' && "位置"@[1] == '置',
        "地图列表"@.len() == 4,
        "地图列表"@[0] == '地' && "地图列表"@[1] == '图' && "地图列表"@[2] == '列' && "地图列表"@[3] == '表',
        "数值曲线"@.len() == 4,
        "数值曲线"@[0] == '数' && "数值曲线"@[1] == '值' && "数值曲线"@[2] == '曲' && "数值曲线"@[3] == '线',
        "向"@.len() == 1,
        "向"@[0] == '向',
        "传送"@.len() == 2,
        "传送"@[0] == '传' && "传送"@[1] == '送',
        "掉落"@.len() == 2,
        "掉落"@[0] == '掉' && "掉落"@[1] == '落',
        "拾取"@.len() == 2,
        "拾取"@[0] == '拾' && "拾取"@[1] == '取',
        "任务"@.len() == 2,
        "任务"@[0] == '任' && "任务"@[1] == '务',
        "接取任务"@.len() == 4,
        "接取任务"@[0] == '接' && "接取任务"@[1] == '取' && "接取任务"@[2] == '任' && "接取任务"@[3] == '务',
        "任务进度"@.len() == 4,
        "任务进度"@[0] == '任' && "任务进度"@[1] == '务' && "任务进度"@[2] == '进' && "任务进度"@[3] == '度',
        "提交任务"@.len() == 4,
        "提交任务"@[0] == '提' && "提交任务"@[1] == '交' && "提交任务"@[2] == '任' && "提交任务"@[3] == '务',
        "放弃任务"@.len() == 4,
        "放弃任务"@[0] == '放' && "放弃任务"@[1] == '弃' && "放弃任务"@[2] == '任' && "放弃任务"@[3] == '务',
        "魂兽"@.len() == 2,
        "魂兽"@[0] == '魂' && "魂兽"@[1] == '兽',
        "挑战"@.len() == 2,
        "挑战"@[0] == '挑' && "挑战"@[1] == '战',
        "攻击"@.len() == 2,
        "攻击"@[0] == '攻' && "攻击"@[1] == '击',
        "逃跑"@.len() == 2,
        "逃跑"@[0] == '逃' && "逃跑"@[1] == '跑',
        "战斗状态"@.len() == 4,
        "战斗状态"@[0] == '战' && "战斗状态"@[1] == '斗' && "战斗状态"@[2] == '状' && "战斗状态"@[3] == '态',
        "战斗日志"@.len() == 4,
        "战斗日志"@[0] == '战' && "战斗日志"@[1] == '斗' && "战斗日志"@[2] == '日' && "战斗日志"@[3] == '志',
        "决斗"@.len() == 2,
        "决斗"@[0] == '决' && "决斗"@[1] == '斗',
        "决斗状态"@.len() == 4,
        "决斗状态"@[0] == '决' && "决斗状态"@[1] == '斗' && "决斗状态"@[2] == '状' && "决斗状态"@[3] == '态',
        "接受决斗"@.len() == 4,
        "接受决斗"@[0] == '接' && "接受决斗"@[1] == '受' && "接受决斗"@[2] == '决' && "接受决斗"@[3] == '斗',
        "取消决斗"@.len() == 4,
        "取消决斗"@[0] == '取' && "取消决斗"@[1] == '消' && "取消决斗"@[2] == '决' && "取消决斗"@[3] == '斗',
        "设置快捷键"@.len() == 5,
        "设置快捷键"@[0] == '设' && "设置快捷键"@[1] == '置' && "设置快捷键"@[2] == '快' && "设置快捷键"@[3] == '捷' && "设置快捷键"@[4] == '键',
        "快捷键列表"@.len() == 5,
        "快捷键列表"@[0] == '快' && "快捷键列表"@[1] == '捷' && "快捷键列表"@[2] == '键' && "快捷键列表"@[3] == '列' && "快捷键列表"@[4] == '表',
        "查看快捷键"@.len() == 5,
        "查看快捷键"@[0] == '查' && "查看快捷键"@[1] == '看' && "查看快捷键"@[2] == '快' && "查看快捷键"@[3] == '捷' && "查看快捷键"@[4] == '键',
        "删除快捷键"@.len() == 5,
        "删除快捷键"@[0] == '删' && "删除快捷键"@[1] == '除' && "删除快捷键"@[2] == '快' && "删除快捷键"@[3] == '捷' && "删除快捷键"@[4] == '键',
        "旧档检查"@.len() == 4,
        "旧档检查"@[0] == '旧' && "旧档检查"@[1] == '档' && "旧档检查"@[2] == '检' && "旧档检查"@[3] == '查',
        "旧档认领"@.len() == 4,
        "旧档认领"@[0] == '旧' && "旧档认领"@[1] == '档' && "旧档认领"@[2] == '认' && "旧档认领"@[3] == '领',
        "授权上下文"@.len() == 5,
        "授权上下文"@[0] == '授' && "授权上下文"@[1] == '权' && "授权上下文"@[2] == '上' && "授权上下文"@[3] == '下' && "授权上下文"@[4] == '文',
        "取消授权"@.len() == 4,
        "取消授权"@[0] == '取' && "取消授权"@[1] == '消' && "取消授权"@[2] == '授' && "取消授权"@[3] == '权',
        "查看授权"@.len() == 4,
        "查看授权"@[0] == '查' && "查看授权"@[1] == '看' && "查看授权"@[2] == '授' && "查看授权"@[3] == '权',
{
    reveal_strlit("斗罗系统");
    reveal_strlit("开始穿越");
    reveal_strlit("武魂觉醒");
    reveal_strlit("开武魂");
    reveal_strlit("关武魂");
    reveal_strlit("放弃复活");
    reveal_strlit("技能");
    reveal_strlit("技能详情");
    reveal_strlit("装备魂技");
    reveal_strlit("卸下魂技");
    reveal_strlit("魂环");
    reveal_strlit("吸收魂环");
    reveal_strlit("剥离魂环");
    reveal_strlit("释放技能");
    reveal_strlit("签到");
    reveal_strlit("钱包");
    reveal_strlit("转账");
    reveal_strlit("NPC");
    reveal_strlit("对话");
    reveal_strlit("商店");
    reveal_strlit("背包");
    reveal_strlit("储物器");
    reveal_strlit("查看储物器");
    reveal_strlit("存入");
    reveal_strlit("取出");
    reveal_strlit("封印储物器");
    reveal_strlit("解封储物器");
    reveal_strlit("装备魂导器");
    reveal_strlit("卸下魂导器");
    reveal_strlit("购买");
    reveal_strlit("出售");
    reveal_strlit("使用");
    reveal_strlit("发送物品");
    reveal_strlit("状态");
    reveal_strlit("排行榜");
    reveal_strlit("位置");
    reveal_strlit("地图列表");
    reveal_strlit("数值曲线");
    reveal_strlit("向");
    reveal_strlit("传送");
    reveal_strlit("掉落");
    reveal_strlit("拾取");
    reveal_strlit("任务");
    reveal_strlit("接取任务");
    reveal_strlit("任务进度");
    reveal_strlit("提交任务");
    reveal_strlit("放弃任务");
    reveal_strlit("魂兽");
    reveal_strlit("挑战");
    reveal_strlit("攻击");
    reveal_strlit("逃跑");
    reveal_strlit("战斗状态");
    reveal_strlit("战斗日志");
    reveal_strlit("决斗");
    reveal_strlit("决斗状态");
    reveal_strlit("接受决斗");
    reveal_strlit("取消决斗");
    reveal_strlit("设置快捷键");
    reveal_strlit("快捷键列表");
    reveal_strlit("查看快捷键");
    reveal_strlit("删除快捷键");
    reveal_strlit("旧档检查");
    reveal_strlit("旧档认领");
    reveal_strlit("授权上下文");
    reveal_strlit("取消授权");
    reveal_strlit("查看授权");
}

/// Each main command runs the action of its name, in an authorised chat alone, and whether a
/// success is recorded as a reading or by the action itself goes with the command.
pub proof fn commands_run_the_actions_of_their_names(command: Seq<char>)
    ensures
        command == "斗罗系统"@ ==> plugin::registered_route(command) == Some(
            RegisteredRoute {
                audit_success: true,
                require_authorized_context: true,
                operation: Operation::Game(GameAction::Menu),
            },
        ),
        command == "开始穿越"@ ==> plugin::registered_route(command) == Some(
            RegisteredRoute {
                audit_success: false,
                require_authorized_context: true,
                operation: Operation::Game(GameAction::Register),
            },
        ),
        command == "武魂觉醒"@ ==> plugin::registered_route(command) == Some(
            RegisteredRoute {
                audit_success: false,
                require_authorized_context: true,
                operation: Operation::Game(GameAction::Awaken),
            },
        ),
        command == "开武魂"@ ==> plugin::registered_route(command) == Some(
            RegisteredRoute {
                audit_success: false,
                require_authorized_context: true,
                operation: Operation::Game(GameAction::OpenWuhun),
            },
        ),
        command == "关武魂"@ ==> plugin::registered_route(command) == Some(
            RegisteredRoute {
                audit_success: false,
                require_authorized_context: true,
                operation: Operation::Game(GameAction::CloseWuhun),
            },
        ),
        command == "放弃复活"@ ==> plugin::registered_route(command) == Some(
            RegisteredRoute {
                audit_success: false,
                require_authorized_context: true,
                operation: Operation::Game(GameAction::AbandonRevival),
            },
        ),
        command == "技能"@ ==> plugin::registered_route(command) == Some(
            RegisteredRoute {
                audit_success: true,
                require_authorized_context: true,
                operation: Operation::Game(GameAction::Skills),
            },
        ),
        command == "技能详情"@ ==> plugin::registered_route(command) == Some(
            RegisteredRoute {
                audit_success: true,
                require_authorized_context: true,
                operation: Operation::Game(GameAction::SkillDetail),
            },
        ),
        command == "装备魂技"@ ==> plugin::registered_route(command) == Some(
            RegisteredRoute {
                audit_success: false,
                require_authorized_context: true,
                operation: Operation::Game(GameAction::EquipSkill),
            },
        ),
        command == "卸下魂技"@ ==> plugin::registered_route(command) == Some(
            RegisteredRoute {
                audit_success: false,
                require_authorized_context: true,
                operation: Operation::Game(GameAction::UnequipSkill),
            },
        ),
        command == "魂环"@ ==> plugin::registered_route(command) == Some(
            RegisteredRoute {
                audit_success: true,
                require_authorized_context: true,
                operation: Operation::Game(GameAction::SoulRings),
            },
        ),
        command == "吸收魂环"@ ==> plugin::registered_route(command) == Some(
            RegisteredRoute {
                audit_success: false,
                require_authorized_context: true,
                operation: Operation::Game(GameAction::AbsorbSoulRing),
            },
        ),
        command == "剥离魂环"@ ==> plugin::registered_route(command) == Some(
            RegisteredRoute {
                audit_success: false,
                require_authorized_context: true,
                operation: Operation::Game(GameAction::DetachSoulRing),
            },
        ),
        command == "释放技能"@ ==> plugin::registered_route(command) == Some(
            RegisteredRoute {
                audit_success: false,
                require_authorized_context: true,
                operation: Operation::Game(GameAction::UseSkill),
            },
        ),
        command == "签到"@ ==> plugin::registered_route(command) == Some(
            RegisteredRoute {
                audit_success: false,
                require_authorized_context: true,
                operation: Operation::Game(GameAction::DailyCheckin),
            },
        ),
        command == "钱包"@ ==> plugin::registered_route(command) == Some(
            RegisteredRoute {
                audit_success: true,
                require_authorized_context: true,
                operation: Operation::Game(GameAction::Wallet),
            },
        ),
        command == "转账"@ ==> plugin::registered_route(command) == Some(
            RegisteredRoute {
                audit_success: false,
                require_authorized_context: true,
                operation: Operation::Game(GameAction::TransferGold),
            },
        ),
        command == "NPC"@ ==> plugin::registered_route(command) == Some(
            RegisteredRoute {
                audit_success: true,
                require_authorized_context: true,
                operation: Operation::Game(GameAction::Npcs),
            },
        ),
        command == "对话"@ ==> plugin::registered_route(command) == Some(
            RegisteredRoute {
                audit_success: false,
                require_authorized_context: true,
                operation: Operation::Game(GameAction::Talk),
            },
        ),
        command == "商店"@ ==> plugin::registered_route(command) == Some(
            RegisteredRoute {
                audit_success: true,
                require_authorized_context: true,
                operation: Operation::Game(GameAction::Shop),
            },
        ),
        command == "背包"@ ==> plugin::registered_route(command) == Some(
            RegisteredRoute {
                audit_success: true,
                require_authorized_context: true,
                operation: Operation::Game(GameAction::Inventory),
            },
        ),
        command == "储物器"@ ==> plugin::registered_route(command) == Some(
            RegisteredRoute {
                audit_success: true,
                require_authorized_context: true,
                operation: Operation::Game(GameAction::StorageContainers),
            },
        ),
        command == "查看储物器"@ ==> plugin::registered_route(command) == Some(
            RegisteredRoute {
                audit_success: true,
                require_authorized_context: true,
                operation: Operation::Game(GameAction::ViewStorage),
            },
        ),
        command == "存入"@ ==> plugin::registered_route(command) == Some(
            RegisteredRoute {
                audit_success: false,
                require_authorized_context: true,
                operation: Operation::Game(GameAction::StoreItem),
            },
        ),
        command == "取出"@ ==> plugin::registered_route(command) == Some(
            RegisteredRoute {
                audit_success: false,
                require_authorized_context: true,
                operation: Operation::Game(GameAction::WithdrawItem),
            },
        ),
        command == "封印储物器"@ ==> plugin::registered_route(command) == Some(
            RegisteredRoute {
                audit_success: false,
                require_authorized_context: true,
                operation: Operation::Game(GameAction::SealStorage),
            },
        ),
        command == "解封储物器"@ ==> plugin::registered_route(command) == Some(
            RegisteredRoute {
                audit_success: false,
                require_authorized_context: true,
                operation: Operation::Game(GameAction::UnsealStorage),
            },
        ),
        command == "装备魂导器"@ ==> plugin::registered_route(command) == Some(
            RegisteredRoute {
                audit_success: false,
                require_authorized_context: true,
                operation: Operation::Game(GameAction::EquipStorage),
            },
        ),
        command == "卸下魂导器"@ ==> plugin::registered_route(command) == Some(
            RegisteredRoute {
                audit_success: false,
                require_authorized_context: true,
                operation: Operation::Game(GameAction::UnequipStorage),
            },
        ),
        command == "购买"@ ==> plugin::registered_route(command) == Some(
            RegisteredRoute {
                audit_success: false,
                require_authorized_context: true,
                operation: Operation::Game(GameAction::Buy),
            },
        ),
        command == "出售"@ ==> plugin::registered_route(command) == Some(
            RegisteredRoute {
                audit_success: false,
                require_authorized_context: true,
                operation: Operation::Game(GameAction::Sell),
            },
        ),
        command == "使用"@ ==> plugin::registered_route(command) == Some(
            RegisteredRoute {
                audit_success: false,
                require_authorized_context: true,
                operation: Operation::Game(GameAction::UseItem),
            },
        ),
        command == "发送物品"@ ==> plugin::registered_route(command) == Some(
            RegisteredRoute {
                audit_success: false,
                require_authorized_context: true,
                operation: Operation::Game(GameAction::GiftItem),
            },
        ),
        command == "状态"@ ==> plugin::registered_route(command) == Some(
            RegisteredRoute {
                audit_success: true,
                require_authorized_context: true,
                operation: Operation::Game(GameAction::Status),
            },
        ),
        command == "排行榜"@ ==> plugin::registered_route(command) == Some(
            RegisteredRoute {
                audit_success: false,
                require_authorized_context: true,
                operation: Operation::Game(GameAction::Leaderboard),
            },
        ),
        command == "位置"@ ==> plugin::registered_route(command) == Some(
            RegisteredRoute {
                audit_success: true,
                require_authorized_context: true,
                operation: Operation::Game(GameAction::Location),
            },
        ),
        command == "地图列表"@ ==> plugin::registered_route(command) == Some(
            RegisteredRoute {
                audit_success: true,
                require_authorized_context: true,
                operation: Operation::Game(GameAction::MapList),
            },
        ),
        command == "数值曲线"@ ==> plugin::registered_route(command) == Some(
            RegisteredRoute {
                audit_success: true,
                require_authorized_context: true,
                operation: Operation::Game(GameAction::NumericCurves),
            },
        ),
        command == "向"@ ==> plugin::registered_route(command) == Some(
            RegisteredRoute {
                audit_success: false,
                require_authorized_context: true,
                operation: Operation::Game(GameAction::MoveDirection),
            },
        ),
        command == "传送"@ ==> plugin::registered_route(command) == Some(
            RegisteredRoute {
                audit_success: false,
                require_authorized_context: true,
                operation: Operation::Game(GameAction::Teleport),
            },
        ),
        command == "掉落"@ ==> plugin::registered_route(command) == Some(
            RegisteredRoute {
                audit_success: true,
                require_authorized_context: true,
                operation: Operation::Game(GameAction::GroundDrops),
            },
        ),
        command == "拾取"@ ==> plugin::registered_route(command) == Some(
            RegisteredRoute {
                audit_success: false,
                require_authorized_context: true,
                operation: Operation::Game(GameAction::PickUpGroundDrop),
            },
        ),
        command == "任务"@ ==> plugin::registered_route(command) == Some(
            RegisteredRoute {
                audit_success: true,
                require_authorized_context: true,
                operation: Operation::Game(GameAction::Quests),
            },
        ),
        command == "接取任务"@ ==> plugin::registered_route(command) == Some(
            RegisteredRoute {
                audit_success: false,
                require_authorized_context: true,
                operation: Operation::Game(GameAction::AcceptQuest),
            },
        ),
        command == "任务进度"@ ==> plugin::registered_route(command) == Some(
            RegisteredRoute {
                audit_success: true,
                require_authorized_context: true,
                operation: Operation::Game(GameAction::QuestProgress),
            },
        ),
        command == "提交任务"@ ==> plugin::registered_route(command) == Some(
            RegisteredRoute {
                audit_success: false,
                require_authorized_context: true,
                operation: Operation::Game(GameAction::SubmitQuest),
            },
        ),
        command == "放弃任务"@ ==> plugin::registered_route(command) == Some(
            RegisteredRoute {
                audit_success: false,
                require_authorized_context: true,
                operation: Operation::Game(GameAction::AbandonQuest),
            },
        ),
        command == "魂兽"@ ==> plugin::registered_route(command) == Some(
            RegisteredRoute {
                audit_success: true,
                require_authorized_context: true,
                operation: Operation::Game(GameAction::SoulBeasts),
            },
        ),
        command == "挑战"@ ==> plugin::registered_route(command) == Some(
            RegisteredRoute {
                audit_success: false,
                require_authorized_context: true,
                operation: Operation::Game(GameAction::Challenge),
            },
        ),
        command == "攻击"@ ==> plugin::registered_route(command) == Some(
            RegisteredRoute {
                audit_success: false,
                require_authorized_context: true,
                operation: Operation::Game(GameAction::Attack),
            },
        ),
        command == "逃跑"@ ==> plugin::registered_route(command) == Some(
            RegisteredRoute {
                audit_success: false,
                require_authorized_context: true,
                operation: Operation::Game(GameAction::Flee),
            },
        ),
        command == "战斗状态"@ ==> plugin::registered_route(command) == Some(
            RegisteredRoute {
                audit_success: true,
                require_authorized_context: true,
                operation: Operation::Game(GameAction::BattleStatus),
            },
        ),
        command == "战斗日志"@ ==> plugin::registered_route(command) == Some(
            RegisteredRoute {
                audit_success: true,
                require_authorized_context: true,
                operation: Operation::Game(GameAction::BattleLogs),
            },
        ),
        command == "决斗"@ ==> plugin::registered_route(command) == Some(
            RegisteredRoute {
                audit_success: false,
                require_authorized_context: true,
                operation: Operation::Game(GameAction::Duel),
            },
        ),
        command == "决斗状态"@ ==> plugin::registered_route(command) == Some(
            RegisteredRoute {
                audit_success: true,
                require_authorized_context: true,
                operation: Operation::Game(GameAction::DuelStatus),
            },
        ),
        command == "接受决斗"@ ==> plugin::registered_route(command) == Some(
            RegisteredRoute {
                audit_success: false,
                require_authorized_context: true,
                operation: Operation::Game(GameAction::AcceptDuel),
            },
        ),
        command == "取消决斗"@ ==> plugin::registered_route(command) == Some(
            RegisteredRoute {
                audit_success: false,
                require_authorized_context: true,
                operation: Operation::Game(GameAction::CancelDuel),
            },
        ),
        command == "设置快捷键"@ ==> plugin::registered_route(command) == Some(
            RegisteredRoute {
                audit_success: false,
                require_authorized_context: true,
                operation: Operation::SetAlias,
            },
        ),
        command == "快捷键列表"@ ==> plugin::registered_route(command) == Some(
            RegisteredRoute {
                audit_success: true,
                require_authorized_context: true,
                operation: Operation::ListAliases,
            },
        ),
        command == "查看快捷键"@ ==> plugin::registered_route(command) == Some(
            RegisteredRoute {
                audit_success: true,
                require_authorized_context: true,
                operation: Operation::AliasDetail,
            },
        ),
        command == "删除快捷键"@ ==> plugin::registered_route(command) == Some(
            RegisteredRoute {
                audit_success: false,
                require_authorized_context: true,
                operation: Operation::DeleteAlias,
            },
        ),
        command == "旧档检查"@ ==> plugin::registered_route(command) == Some(
            RegisteredRoute {
                audit_success: true,
                require_authorized_context: false,
                operation: Operation::InspectLegacy,
            },
        ),
        command == "旧档认领"@ ==> plugin::registered_route(command) == Some(
            RegisteredRoute {
                audit_success: false,
                require_authorized_context: false,
                operation: Operation::ClaimLegacy,
            },
        ),
        command == "授权上下文"@ ==> plugin::registered_route(command) == Some(
            RegisteredRoute {
                audit_success: false,
                require_authorized_context: false,
                operation: Operation::GrantContext,
            },
        ),
        command == "取消授权"@ ==> plugin::registered_route(command) == Some(
            RegisteredRoute {
                audit_success: false,
                require_authorized_context: false,
                operation: Operation::RevokeContext,
            },
        ),
        command == "查看授权"@ ==> plugin::registered_route(command) == Some(
            RegisteredRoute {
                audit_success: true,
                require_authorized_context: false,
                operation: Operation::ListContexts,
            },
        ),
{
    lemma_spelling();
}

/// An action is run by its own command and by no other.
pub proof fn actions_are_run_by_their_commands_alone(command: Seq<char>)
    requires
        plugin::registered_route(command) is Some,
    ensures
        ({
            let operation = (plugin::registered_route(command)->0).operation;
            match operation {
                Operation::Game(action) => match action {
                    GameAction::Menu => command == "斗罗系统"@,
                    GameAction::Register => command == "开始穿越"@,
                    GameAction::Awaken => command == "武魂觉醒"@,
                    GameAction::OpenWuhun => command == "开武魂"@,
                    GameAction::CloseWuhun => command == "关武魂"@,
                    GameAction::AbandonRevival => command == "放弃复活"@,
                    GameAction::Skills => command == "技能"@,
                    GameAction::SkillDetail => command == "技能详情"@,
                    GameAction::EquipSkill => command == "装备魂技"@,
                    GameAction::UnequipSkill => command == "卸下魂技"@,
                    GameAction::SoulRings => command == "魂环"@,
                    GameAction::AbsorbSoulRing => command == "吸收魂环"@,
                    GameAction::DetachSoulRing => command == "剥离魂环"@,
                    GameAction::UseSkill => command == "释放技能"@,
                    GameAction::DailyCheckin => command == "签到"@,
                    GameAction::Wallet => command == "钱包"@,
                    GameAction::TransferGold => command == "转账"@,
                    GameAction::Npcs => command == "NPC"@,
                    GameAction::Talk => command == "对话"@,
                    GameAction::Shop => command == "商店"@,
                    GameAction::Inventory => command == "背包"@,
                    GameAction::StorageContainers => command == "储物器"@,
                    GameAction::ViewStorage => command == "查看储物器"@,
                    GameAction::StoreItem => command == "存入"@,
                    GameAction::WithdrawItem => command == "取出"@,
                    GameAction::SealStorage => command == "封印储物器"@,
                    GameAction::UnsealStorage => command == "解封储物器"@,
                    GameAction::EquipStorage => command == "装备魂导器"@,
                    GameAction::UnequipStorage => command == "卸下魂导器"@,
                    GameAction::Buy => command == "购买"@,
                    GameAction::Sell => command == "出售"@,
                    GameAction::UseItem => command == "使用"@,
                    GameAction::GiftItem => command == "发送物品"@,
                    GameAction::Status => command == "状态"@,
                    GameAction::Leaderboard => command == "排行榜"@,
                    GameAction::Location => command == "位置"@,
                    GameAction::MapList => command == "地图列表"@,
                    GameAction::NumericCurves => command == "数值曲线"@,
                    GameAction::MoveDirection => command == "向"@,
                    GameAction::Teleport => command == "传送"@,
                    GameAction::GroundDrops => command == "掉落"@,
                    GameAction::PickUpGroundDrop => command == "拾取"@,
                    GameAction::Quests => command == "任务"@,
                    GameAction::AcceptQuest => command == "接取任务"@,
                    GameAction::QuestProgress => command == "任务进度"@,
                    GameAction::SubmitQuest => command == "提交任务"@,
                    GameAction::AbandonQuest => command == "放弃任务"@,
                    GameAction::SoulBeasts => command == "魂兽"@,
                    GameAction::Challenge => command == "挑战"@,
                    GameAction::Attack => command == "攻击"@,
                    GameAction::Flee => command == "逃跑"@,
                    GameAction::BattleStatus => command == "战斗状态"@,
                    GameAction::BattleLogs => command == "战斗日志"@,
                    GameAction::Duel => command == "决斗"@,
                    GameAction::DuelStatus => command == "决斗状态"@,
                    GameAction::AcceptDuel => command == "接受决斗"@,
                    GameAction::CancelDuel => command == "取消决斗"@,
                },
                Operation::SetAlias => command == "设置快捷键"@,
                Operation::ListAliases => command == "快捷键列表"@,
                Operation::AliasDetail => command == "查看快捷键"@,
                Operation::DeleteAlias => command == "删除快捷键"@,
                Operation::InspectLegacy => command == "旧档检查"@,
                Operation::ClaimLegacy => command == "旧档认领"@,
                Operation::GrantContext => command == "授权上下文"@,
                Operation::RevokeContext => command == "取消授权"@,
                Operation::ListContexts => command == "查看授权"@,
            }
        }),
{
}

/// Two commands that run the same action are one command.
pub proof fn different_commands_run_different_actions(one: Seq<char>, other: Seq<char>)
    requires
        plugin::registered_route(one) matches Some(route) && plugin::registered_route(
            other,
        ) matches Some(second) && route.operation == second.operation,
    ensures
        one == other,
{
    actions_are_run_by_their_commands_alone(one);
    actions_are_run_by_their_commands_alone(other);
}

/// What a shortcut runs is what its command runs: the actions of the game and nothing else.
pub proof fn shortcuts_run_the_actions_of_the_game(command: Seq<char>)
    ensures
        plugin::route_of(command) matches Some(route) ==> plugin::registered_route(command) == Some(
            RegisteredRoute {
                audit_success: route.audit_success,
                require_authorized_context: true,
                operation: Operation::Game(route.action),
            },
        ),
        plugin::route_of(command) is None <==> (plugin::registered_route(command) matches Some(
            route,
        ) ==> !(route.operation is Game)),
{
}

/// The commands are these and no others.
pub proof fn these_are_the_commands(command: Seq<char>)
    ensures
        plugin::registered_route(command) is Some <==> {
            ||| command == "斗罗系统"@
            ||| command == "开始穿越"@
            ||| command == "武魂觉醒"@
            ||| command == "开武魂"@
            ||| command == "关武魂"@
            ||| command == "放弃复活"@
            ||| command == "技能"@
            ||| command == "技能详情"@
            ||| command == "装备魂技"@
            ||| command == "卸下魂技"@
            ||| command == "魂环"@
            ||| command == "吸收魂环"@
            ||| command == "剥离魂环"@
            ||| command == "释放技能"@
            ||| command == "签到"@
            ||| command == "钱包"@
            ||| command == "转账"@
            ||| command == "NPC"@
            ||| command == "对话"@
            ||| command == "商店"@
            ||| command == "背包"@
            ||| command == "储物器"@
            ||| command == "查看储物器"@
            ||| command == "存入"@
            ||| command == "取出"@
            ||| command == "封印储物器"@
            ||| command == "解封储物器"@
            ||| command == "装备魂导器"@
            ||| command == "卸下魂导器"@
            ||| command == "购买"@
            ||| command == "出售"@
            ||| command == "使用"@
            ||| command == "发送物品"@
            ||| command == "状态"@
            ||| command == "排行榜"@
            ||| command == "位置"@
            ||| command == "地图列表"@
            ||| command == "数值曲线"@
            ||| command == "向"@
            ||| command == "传送"@
            ||| command == "掉落"@
            ||| command == "拾取"@
            ||| command == "任务"@
            ||| command == "接取任务"@
            ||| command == "任务进度"@
            ||| command == "提交任务"@
            ||| command == "放弃任务"@
            ||| command == "魂兽"@
            ||| command == "挑战"@
            ||| command == "攻击"@
            ||| command == "逃跑"@
            ||| command == "战斗状态"@
            ||| command == "战斗日志"@
            ||| command == "决斗"@
            ||| command == "决斗状态"@
            ||| command == "接受决斗"@
            ||| command == "取消决斗"@
            ||| command == "设置快捷键"@
            ||| command == "快捷键列表"@
            ||| command == "查看快捷键"@
            ||| command == "删除快捷键"@
            ||| command == "旧档检查"@
            ||| command == "旧档认领"@
            ||| command == "授权上下文"@
            ||| command == "取消授权"@
            ||| command == "查看授权"@
        },
{
}

/// A shortcut stands for any command of the game but two: giving up a revival, and the
/// ranking.
pub proof fn shortcuts_stand_for_commands_of_the_game(command: Seq<char>)
    ensures
        alias::is_alias_target(command) <==> plugin::route_of(command) is Some && command
            != "放弃复活"@ && command != "排行榜"@,
        alias::alias_target_error(command) is None <==> alias::is_alias_target(command),
{
    lemma_spelling();
}

/// A shortcut is named neither like a command, nor like another name of one, nor like a
/// command of the host.
pub proof fn these_names_are_taken(name: Seq<char>)
    ensures
        alias::alias_name_error(name) is None <==> !{
            ||| name == "斗罗系统"@
            ||| name == "斗罗菜单"@
            ||| name == "菜单"@
            ||| name == "开始穿越"@
            ||| name == "开始转生"@
            ||| name == "武魂觉醒"@
            ||| name == "觉醒"@
            ||| name == "开武魂"@
            ||| name == "武魂开启"@
            ||| name == "关武魂"@
            ||| name == "武魂关闭"@
            ||| name == "放弃复活"@
            ||| name == "放弃重生"@
            ||| name == "重生"@
            ||| name == "技能"@
            ||| name == "魂技"@
            ||| name == "技能列表"@
            ||| name == "技能详情"@
            ||| name == "装备魂技"@
            ||| name == "装备技能"@
            ||| name == "卸下魂技"@
            ||| name == "卸下技能"@
            ||| name == "魂环"@
            ||| name == "查看魂环"@
            ||| name == "吸收魂环"@
            ||| name == "附加魂环"@
            ||| name == "剥离魂环"@
            ||| name == "剥离"@
            ||| name == "释放技能"@
            ||| name == "使用技能"@
            ||| name == "使用魂技"@
            ||| name == "施放魂技"@
            ||| name == "签到"@
            ||| name == "每日签到"@
            ||| name == "打卡"@
            ||| name == "钱包"@
            ||| name == "我的钱包"@
            ||| name == "余额"@
            ||| name == "转账"@
            ||| name == "转钱"@
            ||| name == "汇款"@
            ||| name == "NPC"@
            ||| name == "人物"@
            ||| name == "当前NPC"@
            ||| name == "对话"@
            ||| name == "交谈"@
            ||| name == "聊天"@
            ||| name == "商店"@
            ||| name == "店铺"@
            ||| name == "背包"@
            ||| name == "随身物品"@
            ||| name == "物品"@
            ||| name == "道具"@
            ||| name == "储物器"@
            ||| name == "储物"@
            ||| name == "储物器列表"@
            ||| name == "查看储物器"@
            ||| name == "打开储物器"@
            ||| name == "存入"@
            ||| name == "取出"@
            ||| name == "封印储物器"@
            ||| name == "解封储物器"@
            ||| name == "解封"@
            ||| name == "装备魂导器"@
            ||| name == "装备储物器"@
            ||| name == "卸下魂导器"@
            ||| name == "卸下储物器"@
            ||| name == "购买"@
            ||| name == "购买物品"@
            ||| name == "买"@
            ||| name == "出售"@
            ||| name == "卖出"@
            ||| name == "卖"@
            ||| name == "使用"@
            ||| name == "使用物品"@
            ||| name == "用"@
            ||| name == "发送物品"@
            ||| name == "赠送"@
            ||| name == "赠送物品"@
            ||| name == "状态"@
            ||| name == "我的状态"@
            ||| name == "属性"@
            ||| name == "排行榜"@
            ||| name == "排行"@
            ||| name == "排名"@
            ||| name == "位置"@
            ||| name == "地图"@
            ||| name == "当前位置"@
            ||| name == "地图列表"@
            ||| name == "地图清单"@
            ||| name == "数值曲线"@
            ||| name == "成长曲线"@
            ||| name == "曲线列表"@
            ||| name == "向"@
            ||| name == "传送"@
            ||| name == "掉落"@
            ||| name == "查看掉落"@
            ||| name == "地面掉落"@
            ||| name == "拾取"@
            ||| name == "捡取"@
            ||| name == "拾取物品"@
            ||| name == "任务"@
            ||| name == "任务列表"@
            ||| name == "任务清单"@
            ||| name == "接取任务"@
            ||| name == "接受任务"@
            ||| name == "接任务"@
            ||| name == "任务进度"@
            ||| name == "我的任务"@
            ||| name == "进行中任务"@
            ||| name == "提交任务"@
            ||| name == "完成任务"@
            ||| name == "交任务"@
            ||| name == "放弃任务"@
            ||| name == "取消任务"@
            ||| name == "魂兽"@
            ||| name == "魂兽列表"@
            ||| name == "当前魂兽"@
            ||| name == "挑战"@
            ||| name == "挑战魂兽"@
            ||| name == "攻击"@
            ||| name == "打"@
            ||| name == "逃跑"@
            ||| name == "撤退"@
            ||| name == "战斗状态"@
            ||| name == "战斗"@
            ||| name == "查看战斗"@
            ||| name == "战斗日志"@
            ||| name == "决斗"@
            ||| name == "决斗状态"@
            ||| name == "接受决斗"@
            ||| name == "取消决斗"@
            ||| name == "旧档检查"@
            ||| name == "旧档认领"@
            ||| name == "授权上下文"@
            ||| name == "新增授权"@
            ||| name == "授权群"@
            ||| name == "取消授权"@
            ||| name == "撤销授权"@
            ||| name == "删除授权"@
            ||| name == "查看授权"@
            ||| name == "授权列表"@
            ||| name == "设置快捷键"@
            ||| name == "快捷键列表"@
            ||| name == "查看快捷键"@
            ||| name == "删除快捷键"@
            ||| name == "plugins"@
            ||| name == "pl"@
            ||| name == "registry"@
            ||| name == "reg"@
            ||| name == "dynamic-errors"@
            ||| name == "derr"@
            ||| name == "help"@
            ||| name == "h"@
            ||| name == "?"@
        },
        alias::is_registered_key(name) ==> alias::alias_name_error(name) == Some(
            "快捷键不能与已注册的斗罗命令或别名重名"@,
        ),
        plugin::registered_route(name) is Some ==> alias::is_registered_key(name),
{
}

} // verus!
