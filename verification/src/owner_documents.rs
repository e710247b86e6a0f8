//! Replies to the owner of the bot: old records and authorised conversations.
use crate::config::AuthorizationMode;
use crate::message;
use crate::message::{Document, GameDocument, Protocol};
use crate::records::{
    AuthorizedContext, AuthorizedContextChange, AuthorizedContextPage, LegacyClaimResult,
    LegacyIdentityState,
};
use crate::text;
use crate::text::{cat2, cat7, i64_text, usize_text};
use vstd::string::*;
use vstd::prelude::*;

verus! {

/// The state of an old record and what to do about it.
pub open spec fn legacy_state(state: LegacyIdentityState) -> (Seq<char>, Seq<char>) {
    match state {
        LegacyIdentityState::Legacy => (
            "待认领"@,
            "确认目标用户和当前机器人账号无误后，使用“旧档认领 <用户ID> <当前account_id> 确认”"@,
        ),
        LegacyIdentityState::ClaimedToCurrent => (
            "已认领到当前账号"@,
            "该旧档已完成绑定，无需重复操作"@,
        ),
        LegacyIdentityState::ClaimedToOther => (
            "冲突"@,
            "该旧档已由其他机器人账号认领；系统不会合并、删除或重新绑定"@,
        ),
        LegacyIdentityState::Missing => (
            "未找到"@,
            "没有找到可认领的旧版身份行；系统不会自动创建或接管旧档"@,
        ),
    }
}

fn describe_state(state: LegacyIdentityState) -> (words: (&'static str, &'static str))
    ensures
        words@ == legacy_state(state),
{
    match state {
        LegacyIdentityState::Legacy => (
            "待认领",
            "确认目标用户和当前机器人账号无误后，使用“旧档认领 <用户ID> <当前account_id> 确认”",
        ),
        LegacyIdentityState::ClaimedToCurrent => (
            "已认领到当前账号",
            "该旧档已完成绑定，无需重复操作",
        ),
        LegacyIdentityState::ClaimedToOther => (
            "冲突",
            "该旧档已由其他机器人账号认领；系统不会合并、删除或重新绑定",
        ),
        LegacyIdentityState::Missing => (
            "未找到",
            "没有找到可认领的旧版身份行；系统不会自动创建或接管旧档",
        ),
    }
}

/// The outcome of a claim and what it changed.
pub open spec fn claim_state(result: LegacyClaimResult) -> (Seq<char>, Seq<char>) {
    match result {
        LegacyClaimResult::Claimed => (
            "认领成功"@,
            "旧身份仅补写了当前 account_id；角色、武魂、主键和外键均保持不变"@,
        ),
        LegacyClaimResult::AlreadyClaimed => (
            "已认领"@,
            "该旧档已经绑定到当前账号，本次没有重复写入"@,
        ),
        LegacyClaimResult::NotFound => (
            "未找到"@,
            "没有找到可认领的旧版身份行，本次没有修改数据库"@,
        ),
        LegacyClaimResult::Conflict => (
            "冲突"@,
            "检测到已知身份或其他账号的认领记录，本次没有合并、删除或重新绑定"@,
        ),
    }
}

fn describe_claim(result: LegacyClaimResult) -> (words: (&'static str, &'static str))
    ensures
        words@ == claim_state(result),
{
    match result {
        LegacyClaimResult::Claimed => (
            "认领成功",
            "旧身份仅补写了当前 account_id；角色、武魂、主键和外键均保持不变",
        ),
        LegacyClaimResult::AlreadyClaimed => (
            "已认领",
            "该旧档已经绑定到当前账号，本次没有重复写入",
        ),
        LegacyClaimResult::NotFound => (
            "未找到",
            "没有找到可认领的旧版身份行，本次没有修改数据库",
        ),
        LegacyClaimResult::Conflict => (
            "冲突",
            "检测到已知身份或其他账号的认领记录，本次没有合并、删除或重新绑定",
        ),
    }
}

/// An old record, as it stands.
pub open spec fn inspected(
    protocol: Protocol,
    account_id: Seq<char>,
    target: Seq<char>,
    outcome: LegacyIdentityState,
) -> Document {
    message::titled("旧档检查"@)
        .field("协议"@, message::protocol_name(protocol))
        .field("当前账号"@, account_id)
        .field("目标用户"@, target)
        .field("状态"@, legacy_state(outcome).0)
        .notice(legacy_state(outcome).1)
}

/// An old record, as it stands.
pub fn inspect_legacy_document(
    protocol: Protocol,
    account_id: &str,
    target: &str,
    outcome: LegacyIdentityState,
) -> (document: GameDocument)
    ensures
        document@ == inspected(protocol, account_id@, target@, outcome),
{
    GameDocument::new("旧档检查")
        .field("协议", protocol.as_str())
        .field("当前账号", account_id)
        .field("目标用户", target)
        .field("状态", describe_state(outcome).0)
        .notice(describe_state(outcome).1)
}

/// A claim to an old record.
pub open spec fn claimed(
    protocol: Protocol,
    account_id: Seq<char>,
    target: Seq<char>,
    outcome: LegacyClaimResult,
) -> Document {
    message::titled("旧档认领"@)
        .field("协议"@, message::protocol_name(protocol))
        .field("当前账号"@, account_id)
        .field("目标用户"@, target)
        .field("结果"@, claim_state(outcome).0)
        .notice(claim_state(outcome).1)
}

/// A claim to an old record.
pub fn claim_legacy_document(
    protocol: Protocol,
    account_id: &str,
    target: &str,
    outcome: LegacyClaimResult,
) -> (document: GameDocument)
    ensures
        document@ == claimed(protocol, account_id@, target@, outcome),
{
    GameDocument::new("旧档认领")
        .field("协议", protocol.as_str())
        .field("当前账号", account_id)
        .field("目标用户", target)
        .field("结果", describe_claim(outcome).0)
        .notice(describe_claim(outcome).1)
}

/// The document with what a grant changed.
pub open spec fn grant_result(d: Document, label: Seq<char>, duplicate: bool) -> Document {
    if duplicate {
        d.notice("该上下文已存在，原标签未修改；请使用“查看授权”确认当前标签"@)
    } else {
        d
            .field("标签"@, (if label.len() == 0 { "未设置"@ } else { label }))
            .notice("allowlist 模式下，该上下文现在可以执行游戏命令"@)
    }
}

fn add_grant_result(
    document: GameDocument,
    label: &str,
    duplicate: bool,
) -> (result: GameDocument)
    ensures
        result@ == grant_result(document@, label@, duplicate),
{
    if duplicate {
        document.notice("该上下文已存在，原标签未修改；请使用“查看授权”确认当前标签")
    } else {
        document
            .field("标签", (if label.is_empty() { "未设置" } else { label }))
            .notice("allowlist 模式下，该上下文现在可以执行游戏命令")
    }
}

/// A conversation that was authorised.
pub open spec fn granted(
    kind: Seq<char>,
    id: Seq<char>,
    label: Seq<char>,
    duplicate: bool,
) -> Document {
    let d = message::titled("授权上下文"@)
        .field("类型"@, kind)
        .field("上下文 ID"@, id)
        .field("结果"@, (if duplicate { "已授权"@ } else { "授权成功"@ }));
    grant_result(d, label, duplicate)
}

/// A conversation that was authorised.
fn granted_document(
    kind: &str,
    id: &str,
    label: &str,
    duplicate: bool,
) -> (document: GameDocument)
    ensures
        document@ == granted(kind@, id@, label@, duplicate),
{
    let document = GameDocument::new("授权上下文")
        .field("类型", kind)
        .field("上下文 ID", id)
        .field("结果", (if duplicate { "已授权" } else { "授权成功" }));
    add_grant_result(document, label, duplicate)
}

/// A conversation that was authorised, or that the store contradicts itself.
pub open spec fn grant_reply(
    kind: Seq<char>,
    id: Seq<char>,
    label: Seq<char>,
    change: AuthorizedContextChange,
) -> Result<Document, Seq<char>> {
    match change {
        AuthorizedContextChange::Granted => Ok(granted(kind, id, label, false)),
        AuthorizedContextChange::AlreadyGranted => Ok(granted(kind, id, label, true)),
        _ => Err("授权上下文返回了不一致的状态"@),
    }
}

/// A conversation that was authorised, or that the store contradicts itself.
pub fn grant_context_document(
    kind: &str,
    id: &str,
    label: &str,
    change: AuthorizedContextChange,
) -> (result: Result<GameDocument, String>)
    ensures
        text::outcome(result) == grant_reply(kind@, id@, label@, change),
{
    match change {
        AuthorizedContextChange::Granted => Ok(granted_document(kind, id, label, false)),
        AuthorizedContextChange::AlreadyGranted => Ok(granted_document(kind, id, label, true)),
        _ => Err("授权上下文返回了不一致的状态".to_owned()),
    }
}

/// A conversation that is no longer authorised.
pub open spec fn revoked(kind: Seq<char>, id: Seq<char>, known: bool) -> Document {
    message::titled("取消授权"@)
        .field("类型"@, kind)
        .field("上下文 ID"@, id)
        .field("结果"@, (if known { "已撤销"@ } else { "此前未授权"@ }))
        .notice("撤销不会删除操作日志；allowlist 模式会立即拒绝该上下文的游戏命令"@)
}

/// A conversation that is no longer authorised.
fn revoked_document(kind: &str, id: &str, known: bool) -> (document: GameDocument)
    ensures
        document@ == revoked(kind@, id@, known),
{
    GameDocument::new("取消授权")
        .field("类型", kind)
        .field("上下文 ID", id)
        .field("结果", (if known { "已撤销" } else { "此前未授权" }))
        .notice("撤销不会删除操作日志；allowlist 模式会立即拒绝该上下文的游戏命令")
}

/// A conversation that is no longer authorised, or that the store contradicts itself.
pub open spec fn revoke_reply(
    kind: Seq<char>,
    id: Seq<char>,
    change: AuthorizedContextChange,
) -> Result<Document, Seq<char>> {
    match change {
        AuthorizedContextChange::Revoked => Ok(revoked(kind, id, true)),
        AuthorizedContextChange::AlreadyRevoked => Ok(revoked(kind, id, false)),
        _ => Err("撤销授权上下文返回了不一致的状态"@),
    }
}

/// A conversation that is no longer authorised, or that the store contradicts itself.
pub fn revoke_context_document(kind: &str, id: &str, change: AuthorizedContextChange) -> (result:
    Result<GameDocument, String>)
    ensures
        text::outcome(result) == revoke_reply(kind@, id@, change),
{
    match change {
        AuthorizedContextChange::Revoked => Ok(revoked_document(kind, id, true)),
        AuthorizedContextChange::AlreadyRevoked => Ok(revoked_document(kind, id, false)),
        _ => Err("撤销授权上下文返回了不一致的状态".to_owned()),
    }
}

/// A label behind a dot, where there is one.
pub open spec fn label_suffix(label: Seq<char>) -> Seq<char> {
    if label.len() == 0 {
        ""@
    } else {
        " · "@ + label
    }
}

fn describe_label(label: &str) -> (suffix: String)
    ensures
        suffix@ == label_suffix(label@),
{
    if label.is_empty() {
        return "".to_owned();
    }
    cat2(" · ", label)
}

/// The document with a conversation.
pub open spec fn context_line(d: Document, entry: AuthorizedContext) -> Document {
    d.line(
        "#"@ + text::integer(entry.id as int) + " · "@ + entry.context_kind@ + " · "@
            + entry.context_id@ + label_suffix(entry.label@),
    )
}

fn add_context_line(document: GameDocument, entry: &AuthorizedContext) -> (result: GameDocument)
    ensures
        result@ == context_line(document@, *entry),
{
    document.line(
        &cat7(
            "#",
            &i64_text(entry.id),
            " · ",
            &entry.context_kind,
            " · ",
            &entry.context_id,
            &describe_label(&entry.label),
        ),
    )
}

/// The document with conversations.
pub open spec fn context_lines(d: Document, list: Seq<AuthorizedContext>) -> Document
    decreases list.len(),
{
    if list.len() == 0 {
        d
    } else {
        context_line(context_lines(d, list.drop_last()), list.last())
    }
}

fn add_context_lines(
    document: GameDocument,
    list: &Vec<AuthorizedContext>,
) -> (result: GameDocument)
    ensures
        result@ == context_lines(document@, list@),
{
    let ghost start = document@;
    let mut document = document;
    let mut i: usize = 0;
    while i < list.len()
        invariant
            i <= list@.len(),
            document@ == context_lines(start, list@.take(i as int)),
        decreases list@.len() - i,
    {
        assert(list@.take(i + 1).drop_last() =~= list@.take(i as int));
        document = add_context_line(document, &list[i]);
        i = i + 1;
    }
    assert(list@.take(i as int) =~= list@);
    document
}

/// A page of the conversations in which the game may be played.
pub open spec fn context_list(mode: AuthorizationMode, page: AuthorizedContextPage) -> Document {
    let d = message::titled("授权上下文列表"@)
        .field(
            "策略"@,
            (if mode == AuthorizationMode::AllowAll { "allow_all"@ } else { "allowlist"@ }),
        )
        .field("数量"@, text::decimal(page.entries@.len()));
    let d = if page.entries@.len() == 0 {
        d.line("当前账号尚未登记授权上下文。"@)
    } else {
        context_lines(d, page.entries@)
    };
    let d = match page.next_after_id {
        Some(cursor) => {
            d.command("查看授权 "@ + text::integer(cursor as int))
        },
        None => d,
    };
    d.notice("列表按当前协议、Bot account_id 和 namespace 隔离"@)
}

/// A page of the conversations in which the game may be played.
pub fn list_contexts_document(
    mode: AuthorizationMode,
    page: &AuthorizedContextPage,
) -> (document: GameDocument)
    ensures
        document@ == context_list(mode, *page),
{
    let document = GameDocument::new("授权上下文列表")
        .field(
            "策略",
            (if mode == AuthorizationMode::AllowAll { "allow_all" } else { "allowlist" }),
        )
        .field("数量", &usize_text(page.entries.len()));
    let document = if page.entries.len() == 0 {
        document.line("当前账号尚未登记授权上下文。")
    } else {
        add_context_lines(document, &page.entries)
    };
    let document = match page.next_after_id {
        Some(cursor) => {
            document.command(&cat2("查看授权 ", &i64_text(cursor)))
        },
        None => document,
    };
    document.notice("列表按当前协议、Bot account_id 和 namespace 隔离")
}

} // verus!
