//! What the plugin does between the host and the game service.
use crate::alias;
use crate::event;
use crate::event::{first, read_qq_event, QqEvent};
use crate::host::{CommandRequest, CommandResponse, InterceptorRequest, Reply};
use crate::message;
use crate::message::{detect_protocol, segment_json, GameDocument, Protocol};
use crate::outside;
use crate::outside::{json_lookup, json_part, JsonNode, JsonShape};
use crate::text;
use crate::text::{any_control, cat2, cat3, join, push_text, same, trim, usize_text};
use vstd::prelude::*;
use vstd::string::*;

verus! {

/// The actions of the game service that commands lead to.
#[derive(Clone, Copy, Debug, PartialEq, Eq, Structural)]
pub enum GameAction {
    Menu,
    Register,
    Awaken,
    OpenWuhun,
    CloseWuhun,
    AbandonRevival,
    Skills,
    SkillDetail,
    EquipSkill,
    UnequipSkill,
    SoulRings,
    AbsorbSoulRing,
    DetachSoulRing,
    UseSkill,
    DailyCheckin,
    Wallet,
    TransferGold,
    Npcs,
    Talk,
    Shop,
    Inventory,
    StorageContainers,
    ViewStorage,
    StoreItem,
    WithdrawItem,
    SealStorage,
    UnsealStorage,
    EquipStorage,
    UnequipStorage,
    Buy,
    Sell,
    UseItem,
    GiftItem,
    Status,
    Leaderboard,
    Location,
    MapList,
    NumericCurves,
    MoveDirection,
    Teleport,
    GroundDrops,
    PickUpGroundDrop,
    Quests,
    AcceptQuest,
    QuestProgress,
    SubmitQuest,
    AbandonQuest,
    SoulBeasts,
    Challenge,
    Attack,
    Flee,
    BattleStatus,
    BattleLogs,
    Duel,
    DuelStatus,
    AcceptDuel,
    CancelDuel,
}

/// How a command is run: whether a success is logged, whether the conversation must
/// be authorised, and which action it is. Successful writes are logged with the
/// write itself.
#[derive(Clone, Copy, Debug, PartialEq, Eq, Structural)]
pub struct CommandRoute {
    pub audit_success: bool,
    pub require_authorized_context: bool,
    pub action: GameAction,
}

/// The route of a main command.
pub open spec fn route_of(command: Seq<char>) -> Option<CommandRoute> {
    if command == "斗罗系统"@ {
        Some(route(true, GameAction::Menu))
    } else if command == "开始穿越"@ {
        Some(route(false, GameAction::Register))
    } else if command == "武魂觉醒"@ {
        Some(route(false, GameAction::Awaken))
    } else if command == "开武魂"@ {
        Some(route(false, GameAction::OpenWuhun))
    } else if command == "关武魂"@ {
        Some(route(false, GameAction::CloseWuhun))
    } else if command == "放弃复活"@ {
        Some(route(false, GameAction::AbandonRevival))
    } else if command == "技能"@ {
        Some(route(true, GameAction::Skills))
    } else if command == "技能详情"@ {
        Some(route(true, GameAction::SkillDetail))
    } else if command == "装备魂技"@ {
        Some(route(false, GameAction::EquipSkill))
    } else if command == "卸下魂技"@ {
        Some(route(false, GameAction::UnequipSkill))
    } else if command == "魂环"@ {
        Some(route(true, GameAction::SoulRings))
    } else if command == "吸收魂环"@ {
        Some(route(false, GameAction::AbsorbSoulRing))
    } else if command == "剥离魂环"@ {
        Some(route(false, GameAction::DetachSoulRing))
    } else if command == "释放技能"@ {
        Some(route(false, GameAction::UseSkill))
    } else if command == "签到"@ {
        Some(route(false, GameAction::DailyCheckin))
    } else if command == "钱包"@ {
        Some(route(true, GameAction::Wallet))
    } else if command == "转账"@ {
        Some(route(false, GameAction::TransferGold))
    } else if command == "NPC"@ {
        Some(route(true, GameAction::Npcs))
    } else if command == "对话"@ {
        Some(route(false, GameAction::Talk))
    } else if command == "商店"@ {
        Some(route(true, GameAction::Shop))
    } else if command == "背包"@ {
        Some(route(true, GameAction::Inventory))
    } else if command == "储物器"@ {
        Some(route(true, GameAction::StorageContainers))
    } else if command == "查看储物器"@ {
        Some(route(true, GameAction::ViewStorage))
    } else if command == "存入"@ {
        Some(route(false, GameAction::StoreItem))
    } else if command == "取出"@ {
        Some(route(false, GameAction::WithdrawItem))
    } else if command == "封印储物器"@ {
        Some(route(false, GameAction::SealStorage))
    } else if command == "解封储物器"@ {
        Some(route(false, GameAction::UnsealStorage))
    } else if command == "装备魂导器"@ {
        Some(route(false, GameAction::EquipStorage))
    } else if command == "卸下魂导器"@ {
        Some(route(false, GameAction::UnequipStorage))
    } else if command == "购买"@ {
        Some(route(false, GameAction::Buy))
    } else if command == "出售"@ {
        Some(route(false, GameAction::Sell))
    } else if command == "使用"@ {
        Some(route(false, GameAction::UseItem))
    } else if command == "发送物品"@ {
        Some(route(false, GameAction::GiftItem))
    } else if command == "状态"@ {
        Some(route(true, GameAction::Status))
    } else if command == "排行榜"@ {
        Some(route(false, GameAction::Leaderboard))
    } else if command == "位置"@ {
        Some(route(true, GameAction::Location))
    } else if command == "地图列表"@ {
        Some(route(true, GameAction::MapList))
    } else if command == "数值曲线"@ {
        Some(route(true, GameAction::NumericCurves))
    } else if command == "向"@ {
        Some(route(false, GameAction::MoveDirection))
    } else if command == "传送"@ {
        Some(route(false, GameAction::Teleport))
    } else if command == "掉落"@ {
        Some(route(true, GameAction::GroundDrops))
    } else if command == "拾取"@ {
        Some(route(false, GameAction::PickUpGroundDrop))
    } else if command == "任务"@ {
        Some(route(true, GameAction::Quests))
    } else if command == "接取任务"@ {
        Some(route(false, GameAction::AcceptQuest))
    } else if command == "任务进度"@ {
        Some(route(true, GameAction::QuestProgress))
    } else if command == "提交任务"@ {
        Some(route(false, GameAction::SubmitQuest))
    } else if command == "放弃任务"@ {
        Some(route(false, GameAction::AbandonQuest))
    } else if command == "魂兽"@ {
        Some(route(true, GameAction::SoulBeasts))
    } else if command == "挑战"@ {
        Some(route(false, GameAction::Challenge))
    } else if command == "攻击"@ {
        Some(route(false, GameAction::Attack))
    } else if command == "逃跑"@ {
        Some(route(false, GameAction::Flee))
    } else if command == "战斗状态"@ {
        Some(route(true, GameAction::BattleStatus))
    } else if command == "战斗日志"@ {
        Some(route(true, GameAction::BattleLogs))
    } else if command == "决斗"@ {
        Some(route(false, GameAction::Duel))
    } else if command == "决斗状态"@ {
        Some(route(true, GameAction::DuelStatus))
    } else if command == "接受决斗"@ {
        Some(route(false, GameAction::AcceptDuel))
    } else if command == "取消决斗"@ {
        Some(route(false, GameAction::CancelDuel))
    } else {
        None
    }
}

/// A route of a command that needs an authorised conversation, as all here do.
pub open spec fn route(audit_success: bool, action: GameAction) -> CommandRoute {
    CommandRoute { audit_success, require_authorized_context: true, action }
}

fn authorized(audit_success: bool, action: GameAction) -> (result: Option<CommandRoute>)
    ensures
        result == Some(route(audit_success, action)),
{
    Some(CommandRoute { audit_success, require_authorized_context: true, action })
}

/// The route of the command that a shortcut stands for; any other name has none, so
/// that a shortcut never gains rights.
pub fn dispatch_player_alias_command(command: &str) -> (result: Option<CommandRoute>)
    ensures
        result == route_of(command@),
{
    if same(command, "斗罗系统") {
        authorized(true, GameAction::Menu)
    } else if same(command, "开始穿越") {
        authorized(false, GameAction::Register)
    } else if same(command, "武魂觉醒") {
        authorized(false, GameAction::Awaken)
    } else if same(command, "开武魂") {
        authorized(false, GameAction::OpenWuhun)
    } else if same(command, "关武魂") {
        authorized(false, GameAction::CloseWuhun)
    } else if same(command, "放弃复活") {
        authorized(false, GameAction::AbandonRevival)
    } else if same(command, "技能") {
        authorized(true, GameAction::Skills)
    } else if same(command, "技能详情") {
        authorized(true, GameAction::SkillDetail)
    } else if same(command, "装备魂技") {
        authorized(false, GameAction::EquipSkill)
    } else if same(command, "卸下魂技") {
        authorized(false, GameAction::UnequipSkill)
    } else if same(command, "魂环") {
        authorized(true, GameAction::SoulRings)
    } else if same(command, "吸收魂环") {
        authorized(false, GameAction::AbsorbSoulRing)
    } else if same(command, "剥离魂环") {
        authorized(false, GameAction::DetachSoulRing)
    } else if same(command, "释放技能") {
        authorized(false, GameAction::UseSkill)
    } else if same(command, "签到") {
        authorized(false, GameAction::DailyCheckin)
    } else if same(command, "钱包") {
        authorized(true, GameAction::Wallet)
    } else if same(command, "转账") {
        authorized(false, GameAction::TransferGold)
    } else if same(command, "NPC") {
        authorized(true, GameAction::Npcs)
    } else if same(command, "对话") {
        authorized(false, GameAction::Talk)
    } else if same(command, "商店") {
        authorized(true, GameAction::Shop)
    } else if same(command, "背包") {
        authorized(true, GameAction::Inventory)
    } else if same(command, "储物器") {
        authorized(true, GameAction::StorageContainers)
    } else if same(command, "查看储物器") {
        authorized(true, GameAction::ViewStorage)
    } else if same(command, "存入") {
        authorized(false, GameAction::StoreItem)
    } else if same(command, "取出") {
        authorized(false, GameAction::WithdrawItem)
    } else if same(command, "封印储物器") {
        authorized(false, GameAction::SealStorage)
    } else if same(command, "解封储物器") {
        authorized(false, GameAction::UnsealStorage)
    } else if same(command, "装备魂导器") {
        authorized(false, GameAction::EquipStorage)
    } else if same(command, "卸下魂导器") {
        authorized(false, GameAction::UnequipStorage)
    } else if same(command, "购买") {
        authorized(false, GameAction::Buy)
    } else if same(command, "出售") {
        authorized(false, GameAction::Sell)
    } else if same(command, "使用") {
        authorized(false, GameAction::UseItem)
    } else if same(command, "发送物品") {
        authorized(false, GameAction::GiftItem)
    } else if same(command, "状态") {
        authorized(true, GameAction::Status)
    } else if same(command, "排行榜") {
        authorized(false, GameAction::Leaderboard)
    } else if same(command, "位置") {
        authorized(true, GameAction::Location)
    } else if same(command, "地图列表") {
        authorized(true, GameAction::MapList)
    } else if same(command, "数值曲线") {
        authorized(true, GameAction::NumericCurves)
    } else if same(command, "向") {
        authorized(false, GameAction::MoveDirection)
    } else if same(command, "传送") {
        authorized(false, GameAction::Teleport)
    } else if same(command, "掉落") {
        authorized(true, GameAction::GroundDrops)
    } else if same(command, "拾取") {
        authorized(false, GameAction::PickUpGroundDrop)
    } else if same(command, "任务") {
        authorized(true, GameAction::Quests)
    } else if same(command, "接取任务") {
        authorized(false, GameAction::AcceptQuest)
    } else if same(command, "任务进度") {
        authorized(true, GameAction::QuestProgress)
    } else if same(command, "提交任务") {
        authorized(false, GameAction::SubmitQuest)
    } else if same(command, "放弃任务") {
        authorized(false, GameAction::AbandonQuest)
    } else if same(command, "魂兽") {
        authorized(true, GameAction::SoulBeasts)
    } else if same(command, "挑战") {
        authorized(false, GameAction::Challenge)
    } else if same(command, "攻击") {
        authorized(false, GameAction::Attack)
    } else if same(command, "逃跑") {
        authorized(false, GameAction::Flee)
    } else if same(command, "战斗状态") {
        authorized(true, GameAction::BattleStatus)
    } else if same(command, "战斗日志") {
        authorized(true, GameAction::BattleLogs)
    } else if same(command, "决斗") {
        authorized(false, GameAction::Duel)
    } else if same(command, "决斗状态") {
        authorized(true, GameAction::DuelStatus)
    } else if same(command, "接受决斗") {
        authorized(false, GameAction::AcceptDuel)
    } else if same(command, "取消决斗") {
        authorized(false, GameAction::CancelDuel)
    } else {
        None
    }
}

/// What a registered command does: something in the game, something about shortcuts, or
/// something for the owner.
#[derive(Clone, Copy, Debug, PartialEq, Eq, Structural)]
pub enum Operation {
    Game(GameAction),
    SetAlias,
    ListAliases,
    AliasDetail,
    DeleteAlias,
    InspectLegacy,
    ClaimLegacy,
    GrantContext,
    RevokeContext,
    ListContexts,
}

/// How a registered command is run.
#[derive(Clone, Copy, Debug, PartialEq, Eq, Structural)]
pub struct RegisteredRoute {
    pub audit_success: bool,
    pub require_authorized_context: bool,
    pub operation: Operation,
}

/// The route of a registered command by its main name. The owner is served in every
/// conversation.
pub open spec fn registered_route(command: Seq<char>) -> Option<RegisteredRoute> {
    match route_of(command) {
        Some(route) => Some(
            RegisteredRoute {
                audit_success: route.audit_success,
                require_authorized_context: route.require_authorized_context,
                operation: Operation::Game(route.action),
            },
        ),
        None => if command == "设置快捷键"@ {
            Some(registered(false, true, Operation::SetAlias))
        } else if command == "快捷键列表"@ {
            Some(registered(true, true, Operation::ListAliases))
        } else if command == "查看快捷键"@ {
            Some(registered(true, true, Operation::AliasDetail))
        } else if command == "删除快捷键"@ {
            Some(registered(false, true, Operation::DeleteAlias))
        } else if command == "旧档检查"@ {
            Some(registered(true, false, Operation::InspectLegacy))
        } else if command == "旧档认领"@ {
            Some(registered(false, false, Operation::ClaimLegacy))
        } else if command == "授权上下文"@ {
            Some(registered(false, false, Operation::GrantContext))
        } else if command == "取消授权"@ {
            Some(registered(false, false, Operation::RevokeContext))
        } else if command == "查看授权"@ {
            Some(registered(true, false, Operation::ListContexts))
        } else {
            None
        },
    }
}

/// The route of a registered command.
pub open spec fn registered(
    audit_success: bool,
    require_authorized_context: bool,
    operation: Operation,
) -> RegisteredRoute {
    RegisteredRoute { audit_success, require_authorized_context, operation }
}

fn run_as(audit_success: bool, require_authorized_context: bool, operation: Operation) -> (result:
    Option<RegisteredRoute>)
    ensures
        result == Some(registered(audit_success, require_authorized_context, operation)),
{
    Some(RegisteredRoute { audit_success, require_authorized_context, operation })
}

/// The route of a registered command by its main name.
pub fn dispatch_command(command: &str) -> (result: Option<RegisteredRoute>)
    ensures
        result == registered_route(command@),
{
    if let Some(route) = dispatch_player_alias_command(command) {
        return run_as(
            route.audit_success,
            route.require_authorized_context,
            Operation::Game(route.action),
        );
    }
    if same(command, "设置快捷键") {
        run_as(false, true, Operation::SetAlias)
    } else if same(command, "快捷键列表") {
        run_as(true, true, Operation::ListAliases)
    } else if same(command, "查看快捷键") {
        run_as(true, true, Operation::AliasDetail)
    } else if same(command, "删除快捷键") {
        run_as(false, true, Operation::DeleteAlias)
    } else if same(command, "旧档检查") {
        run_as(true, false, Operation::InspectLegacy)
    } else if same(command, "旧档认领") {
        run_as(false, false, Operation::ClaimLegacy)
    } else if same(command, "授权上下文") {
        run_as(false, false, Operation::GrantContext)
    } else if same(command, "取消授权") {
        run_as(false, false, Operation::RevokeContext)
    } else if same(command, "查看授权") {
        run_as(true, false, Operation::ListContexts)
    } else {
        None
    }
}

/// Every command that a shortcut may stand for has a route, and it is logged and
/// authorised as the registered command of its name.
pub proof fn shortcut_targets_have_routes(command: Seq<char>)
    requires
        alias::is_alias_target(command),
    ensures
        route_of(command) matches Some(route) && registered_route(command) == Some(
            registered(
                route.audit_success,
                route.require_authorized_context,
                Operation::Game(route.action),
            ),
        ),
{
}

/// No shortcut takes the name of a registered command.
pub proof fn commands_are_never_shadowed(command: Seq<char>)
    requires
        registered_route(command) is Some,
    ensures
        alias::alias_name_error(command) is Some,
{
}

/// A shortcut and its arguments, at the start of a message.
pub open spec fn alias_message(message: Seq<char>) -> Option<(Seq<char>, Seq<char>)> {
    let content = text::trimmed(message);
    let k = text::run_len(content, text::non_white()) as int;
    if content.len() == 0 || text::has_control(content) {
        None
    } else if k < content.len() {
        Some((content.take(k), text::trimmed(content.skip(k + 1))))
    } else {
        Some((content, Seq::empty()))
    }
}

/// Splits a message into a shortcut and its arguments.
pub fn parse_player_alias_message(message_text: &str) -> (result: Option<(String, String)>)
    ensures
        match result {
            Some(result) => alias_message(message_text@) == Some((result.0@, result.1@)),
            None => alias_message(message_text@) is None,
        },
{
    let content = trim(message_text);
    if content.is_empty() || any_control(content) {
        return None;
    }
    let characters = text::chars_of(content);
    let mut k: usize = 0;
    while k < characters.len() && !text::white_space(characters[k])
        invariant
            k <= characters@.len(),
            characters@ == content@,
            forall|j: int| 0 <= j < k ==> text::non_white()(#[trigger] content@[j]),
        decreases characters@.len() - k,
    {
        k = k + 1;
    }
    proof {
        text::lemma_run_len(content@, text::non_white(), k as int);
        assert(content@.subrange(0, k as int) =~= content@.take(k as int));
    }
    let alias = text::slice_text(&characters, 0, k);
    if k == characters.len() {
        assert(content@.take(k as int) =~= content@);
        return Some((alias, String::new()));
    }
    let rest = text::slice_text(&characters, k + 1, characters.len());
    assert(rest@ =~= content@.skip(k + 1));
    Some((alias, trim(&rest).to_owned()))
}

/// A shortcut is never empty.
pub proof fn shortcuts_are_never_empty(message: Seq<char>)
    ensures
        alias_message(message) matches Some(parsed) ==> parsed.0.len() > 0,
{
    let content = text::trimmed(message);
    if content.len() > 0 {
        text::trimming_twice_is_trimming_once(message);
        text::lemma_run_len_facts(content, text::white());
        text::lemma_run_len_facts(content, text::non_white());
        if text::is_white(content[0]) {
            assert(text::run_len(content, text::white()) > 0);
            assert(text::trim_start(content).len() < content.len());
            text::lemma_tail_run_len_facts(text::trim_start(content), text::white());
        }
    }
}

/// The request that a message makes of a game command; sender, conversation and
/// message stay those of the message.
pub fn command_request_from_interceptor(
    request: &InterceptorRequest,
    command_name: &str,
    args: &str,
) -> (command: CommandRequest)
    ensures
        command.args@ == args@,
        command.command_name@ == command_name@,
        command.sender_id@ == request.sender_id@,
        command.group_id@ == request.group_id@,
        command.raw_event_json@ == request.raw_event_json@,
        command.sender_nickname@ == request.sender_nickname@,
        command.message_id@ == request.message_id@,
        command.timestamp == request.timestamp,
{
    CommandRequest {
        args: args.to_owned(),
        command_name: command_name.to_owned(),
        sender_id: request.sender_id.clone(),
        group_id: request.group_id.clone(),
        raw_event_json: request.raw_event_json.clone(),
        sender_nickname: request.sender_nickname.clone(),
        message_id: request.message_id.clone(),
        timestamp: request.timestamp,
    }
}

/// Where the answer to an intercepted message goes.
#[derive(Clone, Debug, PartialEq, Eq)]
pub enum InterceptorReplyTarget {
    Group(String),
    Private(String),
    Channel(String),
    ChannelPrivate(String),
}

/// The mathematical form of a reply's target.
pub enum ReplyTarget {
    Group(Seq<char>),
    Private(Seq<char>),
    Channel(Seq<char>),
    ChannelPrivate(Seq<char>),
}

impl View for InterceptorReplyTarget {
    type V = ReplyTarget;

    open spec fn view(&self) -> ReplyTarget {
        match self {
            InterceptorReplyTarget::Group(id) => ReplyTarget::Group(id@),
            InterceptorReplyTarget::Private(id) => ReplyTarget::Private(id@),
            InterceptorReplyTarget::Channel(id) => ReplyTarget::Channel(id@),
            InterceptorReplyTarget::ChannelPrivate(id) => ReplyTarget::ChannelPrivate(id@),
        }
    }
}

/// An optional target as a mathematical value.
pub open spec fn optional_target(target: Option<InterceptorReplyTarget>) -> Option<ReplyTarget> {
    match target {
        Some(target) => Some(target@),
        None => None,
    }
}

/// The target of a OneBot message: its group, or else its sender.
pub open spec fn onebot_target(group_id: Seq<char>, sender_id: Seq<char>) -> Option<ReplyTarget> {
    if group_id.len() > 0 {
        Some(ReplyTarget::Group(group_id))
    } else if sender_id.len() > 0 {
        Some(ReplyTarget::Private(sender_id))
    } else {
        None
    }
}

/// The target of an official QQ message, by the type of its event.
pub open spec fn qq_target(event: event::QqFacts, sender_id: Seq<char>) -> Option<ReplyTarget> {
    if !event.is_object || !event.payload_is_object {
        None
    } else {
        match event.event_type {
            None => None,
            Some(kind) => if kind == "GROUP_AT_MESSAGE_CREATE"@ || kind
                == "GROUP_MESSAGE_CREATE"@ {
                match event::first_of(event.root_group_openid, event.payload_group_openid) {
                    Some(id) => if id.len() > 0 {
                        Some(ReplyTarget::Group(id))
                    } else {
                        None
                    },
                    None => None,
                }
            } else if kind == "C2C_MESSAGE_CREATE"@ {
                if sender_id.len() > 0 {
                    Some(ReplyTarget::Private(sender_id))
                } else {
                    None
                }
            } else if kind == "AT_MESSAGE_CREATE"@ || kind == "MESSAGE_CREATE"@ {
                match event::first_of(event.root_channel_id, event.payload_channel_id) {
                    Some(id) => if id.len() > 0 {
                        Some(ReplyTarget::Channel(id))
                    } else {
                        None
                    },
                    None => None,
                }
            } else if kind == "DIRECT_MESSAGE_CREATE"@ {
                match event::first_of(event.root_guild_id, event.payload_guild_id) {
                    Some(id) => if id.len() > 0 {
                        Some(ReplyTarget::ChannelPrivate(id))
                    } else {
                        None
                    },
                    None => None,
                }
            } else {
                None
            },
        }
    }
}

/// Decides the target of an official QQ message from what was read of its event.
pub fn qq_reply_target(event: QqEvent, sender_id: &str) -> (target: Option<InterceptorReplyTarget>)
    ensures
        optional_target(target) == qq_target(event@, sender_id@),
{
    if !event.is_object || !event.payload_is_object {
        return None;
    }
    let kind = match event.event_type {
        Some(kind) => kind,
        None => return None,
    };
    if same(&kind, "GROUP_AT_MESSAGE_CREATE") || same(&kind, "GROUP_MESSAGE_CREATE") {
        match first(event.root_group_openid, event.payload_group_openid) {
            Some(id) => {
                if id.as_str().is_empty() {
                    None
                } else {
                    Some(InterceptorReplyTarget::Group(id))
                }
            },
            None => None,
        }
    } else if same(&kind, "C2C_MESSAGE_CREATE") {
        if sender_id.is_empty() {
            None
        } else {
            Some(InterceptorReplyTarget::Private(sender_id.to_owned()))
        }
    } else if same(&kind, "AT_MESSAGE_CREATE") || same(&kind, "MESSAGE_CREATE") {
        match first(event.root_channel_id, event.payload_channel_id) {
            Some(id) => {
                if id.as_str().is_empty() {
                    None
                } else {
                    Some(InterceptorReplyTarget::Channel(id))
                }
            },
            None => None,
        }
    } else if same(&kind, "DIRECT_MESSAGE_CREATE") {
        match first(event.root_guild_id, event.payload_guild_id) {
            Some(id) => {
                if id.as_str().is_empty() {
                    None
                } else {
                    Some(InterceptorReplyTarget::ChannelPrivate(id))
                }
            },
            None => None,
        }
    } else {
        None
    }
}

/// The target of a reply to a message.
pub open spec fn reply_target(
    raw_event: Seq<char>,
    group_id: Seq<char>,
    sender_id: Seq<char>,
) -> Option<ReplyTarget> {
    match message::protocol_of(raw_event) {
        Protocol::OneBot11 => onebot_target(group_id, sender_id),
        Protocol::QqOfficial => qq_target(event::qq_facts(raw_event), sender_id),
    }
}

/// Finds where the reply to an intercepted message goes.
pub fn interceptor_reply_target(request: &InterceptorRequest) -> (target: Option<
    InterceptorReplyTarget,
>)
    ensures
        optional_target(target) == reply_target(
            request.raw_event_json@,
            request.group_id@,
            request.sender_id@,
        ),
{
    match detect_protocol(&request.raw_event_json) {
        Protocol::OneBot11 => {
            if !request.group_id.as_str().is_empty() {
                Some(InterceptorReplyTarget::Group(request.group_id.clone()))
            } else if !request.sender_id.as_str().is_empty() {
                Some(InterceptorReplyTarget::Private(request.sender_id.clone()))
            } else {
                None
            }
        },
        Protocol::QqOfficial => qq_reply_target(
            read_qq_event(&request.raw_event_json),
            &request.sender_id,
        ),
    }
}

/// The elements of a JSON array, each as compact JSON text.
pub open spec fn array_items(document: Seq<char>, count: nat) -> Option<Seq<Seq<char>>>
    decreases count,
{
    if count == 0 {
        Some(Seq::empty())
    } else {
        match (
            array_items(document, (count - 1) as nat),
            outside::json_text_at(document, "/"@ + text::decimal((count - 1) as nat)),
        ) {
            (Some(earlier), Some(item)) => Some(earlier.push(item)),
            _ => None,
        }
    }
}

/// A list as a JSON array.
pub open spec fn json_array(items: Seq<Seq<char>>) -> Seq<char> {
    "["@ + text::joined(items, ","@) + "]"@
}

/// The segments of a reply that goes through the host's queue: those of the answer,
/// behind a reference to the message where one is wanted.
pub open spec fn queued_items(reply: Reply, reference: Option<Seq<char>>) -> Option<Seq<Seq<char>>> {
    let own = match reply {
        Reply::Ignore => Some(seq![message::segment("text"@, "text"@, Seq::empty())]),
        Reply::Text(content) => Some(seq![message::segment("text"@, "text"@, content)]),
        Reply::Rich(segments) => if segments.len() == 0 {
            Some(seq![message::segment("text"@, "text"@, Seq::empty())])
        } else {
            match outside::json_at(segments, ""@) {
                Some(JsonShape::Array(count)) => array_items(segments, count),
                _ => None,
            }
        },
    };
    match (own, reference) {
        (Some(items), Some(id)) => Some(seq![message::segment("reply"@, "id"@, id)] + items),
        (Some(items), None) => Some(items),
        (None, _) => None,
    }
}

fn read_array(document: &str, count: usize) -> (items: Option<Vec<String>>)
    ensures
        match items {
            Some(items) => array_items(document@, count as nat) == Some(text::texts(items@)),
            None => array_items(document@, count as nat) is None,
        },
    decreases count,
{
    if count == 0 {
        let items: Vec<String> = Vec::new();
        assert(text::texts(items@) =~= Seq::empty());
        return Some(items);
    }
    let mut items = match read_array(document, count - 1) {
        Some(items) => items,
        None => return None,
    };
    match json_part(document, &cat2("/", &usize_text(count - 1))) {
        Some(item) => {
            push_text(&mut items, item);
            Some(items)
        },
        None => None,
    }
}

fn text_items(content: &str) -> (items: Vec<String>)
    ensures
        text::texts(items@) == seq![message::segment("text"@, "text"@, content@)],
{
    let mut items: Vec<String> = Vec::new();
    push_text(&mut items, segment_json("text", "text", content));
    assert(text::texts(items@) =~= seq![message::segment("text"@, "text"@, content@)]);
    items
}

/// Builds the segments that the host's queue takes.
pub fn interceptor_response_segments(response: &CommandResponse, reference: Option<&str>) -> (segments:
    Option<String>)
    ensures
        match segments {
            Some(segments) => queued_items(response@, message::optional_str(reference)) matches Some(
                items,
            ) && segments@ == json_array(items),
            None => queued_items(response@, message::optional_str(reference)) is None,
        },
{
    let nothing = String::new();
    let own = match response {
        CommandResponse::Ignore => text_items(&nothing),
        CommandResponse::Text(content) => text_items(content),
        CommandResponse::Rich(segments) => {
            if segments.as_str().is_empty() {
                text_items(&nothing)
            } else {
                match json_lookup(segments, "") {
                    Some(JsonNode::Array(count)) => match read_array(segments, count) {
                        Some(items) => items,
                        None => return None,
                    },
                    _ => return None,
                }
            }
        },
    };
    let mut items: Vec<String> = Vec::new();
    match reference {
        Some(id) => {
            push_text(&mut items, segment_json("reply", "id", id));
        },
        None => {},
    }
    let ghost lead = text::texts(items@);
    message::push_all(&mut items, &own);
    proof {
        match reference {
            Some(id) => {
                assert(lead =~= seq![message::segment("reply"@, "id"@, id@)]);
            },
            None => {
                assert(lead + text::texts(own@) =~= text::texts(own@));
            },
        }
    }
    Some(cat3("[", &join(&items, ","), "]"))
}

/// The text of one segment: that of a text, or the content of Markdown.
pub open spec fn segment_text(document: Seq<char>, i: nat) -> Option<Seq<char>> {
    let at = "/"@ + text::decimal(i);
    if outside::json_at(document, at + "/data"@) != Some(JsonShape::Object) {
        None
    } else {
        match event::text_at(document, at + "/type"@) {
            None => None,
            Some(kind) => if kind == "text"@ {
                event::text_at(document, at + "/data/text"@)
            } else if kind == "markdown"@ {
                event::text_at(document, at + "/data/content"@)
            } else {
                None
            },
        }
    }
}

/// The texts of the first segments that have one.
pub open spec fn segment_texts(document: Seq<char>, count: nat) -> Seq<Seq<char>>
    decreases count,
{
    if count == 0 {
        Seq::empty()
    } else {
        let earlier = segment_texts(document, (count - 1) as nat);
        match segment_text(document, (count - 1) as nat) {
            Some(content) => if content.len() > 0 {
                earlier.push(content)
            } else {
                earlier
            },
            None => earlier,
        }
    }
}

/// The plain text that an answer comes down to.
pub open spec fn plain_text(reply: Reply) -> Option<Seq<char>> {
    match reply {
        Reply::Ignore => None,
        Reply::Text(content) => if content.len() > 0 {
            Some(content)
        } else {
            None
        },
        Reply::Rich(segments) => match outside::json_at(segments, ""@) {
            Some(JsonShape::Array(count)) => {
                let content = text::joined(segment_texts(segments, count), "\n"@);
                if content.len() > 0 {
                    Some(content)
                } else {
                    None
                }
            },
            _ => None,
        },
    }
}

fn read_segment_text(document: &str, i: usize) -> (content: Option<String>)
    ensures
        text::optional_text(content) == segment_text(document@, i as nat),
{
    let at = cat2("/", &usize_text(i));
    match json_lookup(document, &cat2(&at, "/data")) {
        Some(JsonNode::Object) => {},
        _ => return None,
    }
    match event::event_text(document, &cat2(&at, "/type")) {
        None => None,
        Some(kind) => {
            if same(&kind, "text") {
                event::event_text(document, &cat2(&at, "/data/text"))
            } else if same(&kind, "markdown") {
                event::event_text(document, &cat2(&at, "/data/content"))
            } else {
                None
            }
        },
    }
}

fn read_segment_texts(document: &str, count: usize) -> (list: Vec<String>)
    ensures
        text::texts(list@) == segment_texts(document@, count as nat),
{
    let mut list: Vec<String> = Vec::new();
    let mut i: usize = 0;
    assert(text::texts(list@) =~= Seq::empty());
    while i < count
        invariant
            i <= count,
            text::texts(list@) == segment_texts(document@, i as nat),
        decreases count - i,
    {
        match read_segment_text(document, i) {
            Some(content) => {
                if !content.as_str().is_empty() {
                    push_text(&mut list, content);
                }
            },
            None => {},
        }
        i = i + 1;
    }
    list
}

/// The plain text for a channel, which takes nothing richer.
pub fn interceptor_response_text(response: &CommandResponse) -> (content: Option<String>)
    ensures
        text::optional_text(content) == plain_text(response@),
{
    match response {
        CommandResponse::Ignore => None,
        CommandResponse::Text(content) => {
            if content.as_str().is_empty() {
                None
            } else {
                Some(content.clone())
            }
        },
        CommandResponse::Rich(segments) => match json_lookup(segments, "") {
            Some(JsonNode::Array(count)) => {
                let content = join(&read_segment_texts(segments, count), "\n");
                if content.as_str().is_empty() {
                    None
                } else {
                    Some(content)
                }
            },
            _ => None,
        },
    }
}

/// What happens with the answer to an intercepted message.
#[derive(Clone, Debug, PartialEq, Eq)]
pub enum QueuePlan {
    /// There is nothing to send, and the message is dealt with.
    Done,
    /// The answer cannot be sent safely; the message passes on.
    Refuse,
    /// Segments for a group or a private chat.
    SendRich { target: InterceptorReplyTarget, segments: String },
    /// Text for a channel.
    SendText { target: InterceptorReplyTarget, content: String },
}

/// The mathematical form of a plan.
pub enum Plan {
    Done,
    Refuse,
    SendRich(ReplyTarget, Seq<char>),
    SendText(ReplyTarget, Seq<char>),
}

impl View for QueuePlan {
    type V = Plan;

    open spec fn view(&self) -> Plan {
        match self {
            QueuePlan::Done => Plan::Done,
            QueuePlan::Refuse => Plan::Refuse,
            QueuePlan::SendRich { target, segments } => Plan::SendRich(target@, segments@),
            QueuePlan::SendText { target, content } => Plan::SendText(target@, content@),
        }
    }
}

/// The plan for an answer and a target: rich segments for groups and private chats,
/// plain text for channels, nothing where neither can be made.
pub open spec fn queue_plan(
    reply: Reply,
    target: Option<ReplyTarget>,
    reference: Option<Seq<char>>,
) -> Plan {
    if reply is Ignore {
        Plan::Done
    } else {
        match (target, queued_items(reply, reference)) {
            (Some(target), Some(items)) => match target {
                ReplyTarget::Group(_) => Plan::SendRich(target, json_array(items)),
                ReplyTarget::Private(_) => Plan::SendRich(target, json_array(items)),
                _ => match plain_text(reply) {
                    Some(content) => Plan::SendText(target, content),
                    None => Plan::Refuse,
                },
            },
            _ => Plan::Refuse,
        }
    }
}

/// Channels are only ever sent plain text, groups and single players only segments.
pub proof fn channels_are_sent_plain_text(
    reply: Reply,
    target: Option<ReplyTarget>,
    reference: Option<Seq<char>>,
)
    ensures
        match queue_plan(reply, target, reference) {
            Plan::SendRich(addressee, _) => target == Some(addressee) && (addressee is Group
                || addressee is Private),
            Plan::SendText(addressee, _) => target == Some(addressee) && (addressee is Channel
                || addressee is ChannelPrivate),
            _ => true,
        },
{
}

/// The message that a reply refers to: OneBot quotes the message that it answers.
pub open spec fn reference_of(protocol: Protocol, message_id: Seq<char>) -> Option<Seq<char>> {
    if protocol == Protocol::OneBot11 && message_id.len() > 0 {
        Some(message_id)
    } else {
        None
    }
}

/// Plans the answer to an intercepted message.
pub fn queue_interceptor_response(request: &InterceptorRequest, response: &CommandResponse) -> (plan:
    QueuePlan)
    ensures
        plan@ == queue_plan(
            response@,
            reply_target(request.raw_event_json@, request.group_id@, request.sender_id@),
            reference_of(
                message::protocol_of(request.raw_event_json@),
                request.message_id@,
            ),
        ),
{
    match response {
        CommandResponse::Ignore => return QueuePlan::Done,
        _ => {},
    }
    let target = match interceptor_reply_target(request) {
        Some(target) => target,
        None => return QueuePlan::Refuse,
    };
    let quoting = match detect_protocol(&request.raw_event_json) {
        Protocol::OneBot11 => !request.message_id.as_str().is_empty(),
        Protocol::QqOfficial => false,
    };
    let reference: Option<&str> = if quoting {
        Some(request.message_id.as_str())
    } else {
        None
    };
    let segments = match interceptor_response_segments(response, reference) {
        Some(segments) => segments,
        None => return QueuePlan::Refuse,
    };
    let rich = match &target {
        InterceptorReplyTarget::Group(_) => true,
        InterceptorReplyTarget::Private(_) => true,
        _ => false,
    };
    if rich {
        QueuePlan::SendRich { target, segments }
    } else {
        match interceptor_response_text(response) {
            Some(content) => QueuePlan::SendText { target, content },
            None => QueuePlan::Refuse,
        }
    }
}

/// Runs an operation behind an authorisation. A refused request never reaches the
/// operation: nothing here allows the call then.
pub fn execute_service_operation<Operation: FnOnce() -> Result<GameDocument, String>>(
    authorization: Result<(), String>,
    operation: Operation,
) -> (outcome: (Result<GameDocument, String>, bool))
    requires
        authorization is Ok ==> operation.requires(()),
    ensures
        outcome.1 == (authorization is Err),
        match authorization {
            Ok(_) => operation.ensures((), outcome.0),
            Err(message) => outcome.0 matches Err(reason) && reason@ == message@,
        },
{
    match authorization {
        Ok(_) => (operation(), false),
        Err(message) => (Err(message), true),
    }
}

/// How an operation ended, for the log.
pub open spec fn outcome_name(denied: bool, succeeded: bool) -> Seq<char> {
    if denied {
        "denied"@
    } else if succeeded {
        "ok"@
    } else {
        "error"@
    }
}

/// What follows an operation: the name of its outcome, whether it is logged here,
/// and whether its picture may wait for the reply.
#[derive(Clone, Copy, Debug, PartialEq, Eq)]
pub struct Aftermath {
    pub outcome: &'static str,
    pub record: bool,
    pub stage_picture: bool,
}

/// Decides what follows an operation.
pub fn with_service(denied: bool, succeeded: bool, audit_success: bool) -> (aftermath: Aftermath)
    ensures
        aftermath.outcome@ == outcome_name(denied, succeeded),
        aftermath.record == (audit_success || !succeeded),
        aftermath.stage_picture == (!denied && succeeded),
{
    let outcome = if denied {
        "denied"
    } else if succeeded {
        "ok"
    } else {
        "error"
    };
    Aftermath {
        outcome,
        record: audit_success || !succeeded,
        stage_picture: !denied && succeeded,
    }
}

/// The document that answers an operation: its own, or the reason of its failure.
pub fn service_document(result: Result<GameDocument, String>) -> (document: GameDocument)
    ensures
        document@ == match result {
            Ok(own) => own@,
            Err(message) => message::titled("操作失败"@).line(message@),
        },
{
    match result {
        Ok(document) => document,
        Err(message) => GameDocument::new("操作失败").line(&message),
    }
}

} // verus!
