//! Who sent a command, and through which account of the bot.
use crate::config;
use crate::config::IdentityConfig;
use crate::host::CommandRequest;
use crate::message::Protocol;
use crate::outside;
use crate::outside::{json_lookup, JsonNode, JsonShape};
use crate::text;
use crate::text::{any_control, cat2, cat3, cat4, is_trimmed, same, u64_text};
use vstd::prelude::*;
use vstd::string::*;

verus! {

/// The version of the host's context that the plugin understands.
pub const QIMEN_CONTEXT_VERSION: u64 = 1;

/// The longest account identifier, in characters.
pub const MAX_ACCOUNT_ID_CHARS: usize = 128;

/// The longest sender identifier, in characters.
pub const MAX_SUBJECT_ID_CHARS: usize = 256;

/// The scope that a player's data belongs to.
#[derive(Clone, Debug, PartialEq, Eq)]
pub struct ResolvedIdentity {
    pub protocol: Protocol,
    pub account_id: String,
    pub subject_id: String,
}

/// The mathematical form of an identity.
pub struct Identity {
    pub protocol: Protocol,
    pub account_id: Seq<char>,
    pub subject_id: Seq<char>,
}

impl View for ResolvedIdentity {
    type V = Identity;

    open spec fn view(&self) -> Identity {
        Identity {
            protocol: self.protocol,
            account_id: self.account_id@,
            subject_id: self.subject_id@,
        }
    }
}

/// What an event says about identity.
#[derive(Clone, Debug, PartialEq, Eq)]
pub struct IdentityEvent {
    pub root: Option<JsonNode>,
    pub context: Option<JsonNode>,
    pub context_version: Option<JsonNode>,
    pub context_protocol: Option<JsonNode>,
    pub context_account_id: Option<JsonNode>,
    pub self_id: Option<JsonNode>,
    pub payload: Option<JsonNode>,
}

/// The mathematical form of what an event says about identity.
pub struct IdentityFacts {
    pub root: Option<JsonShape>,
    pub context: Option<JsonShape>,
    pub context_version: Option<JsonShape>,
    pub context_protocol: Option<JsonShape>,
    pub context_account_id: Option<JsonShape>,
    pub self_id: Option<JsonShape>,
    pub payload: Option<JsonShape>,
}

impl View for IdentityEvent {
    type V = IdentityFacts;

    open spec fn view(&self) -> IdentityFacts {
        IdentityFacts {
            root: outside::optional_shape(self.root),
            context: outside::optional_shape(self.context),
            context_version: outside::optional_shape(self.context_version),
            context_protocol: outside::optional_shape(self.context_protocol),
            context_account_id: outside::optional_shape(self.context_account_id),
            self_id: outside::optional_shape(self.self_id),
            payload: outside::optional_shape(self.payload),
        }
    }
}

/// What stands in an event about identity.
pub open spec fn identity_facts(event: Seq<char>) -> IdentityFacts {
    IdentityFacts {
        root: outside::json_at(event, ""@),
        context: outside::json_at(event, "/qimen_context"@),
        context_version: outside::json_at(event, "/qimen_context/version"@),
        context_protocol: outside::json_at(event, "/qimen_context/protocol"@),
        context_account_id: outside::json_at(event, "/qimen_context/account_id"@),
        self_id: outside::json_at(event, "/self_id"@),
        payload: outside::json_at(event, "/qqbot_payload"@),
    }
}

/// Reads what an event says about identity.
pub fn read_identity_event(event: &str) -> (record: IdentityEvent)
    ensures
        record@ == identity_facts(event@),
{
    IdentityEvent {
        root: json_lookup(event, ""),
        context: json_lookup(event, "/qimen_context"),
        context_version: json_lookup(event, "/qimen_context/version"),
        context_protocol: json_lookup(event, "/qimen_context/protocol"),
        context_account_id: json_lookup(event, "/qimen_context/account_id"),
        self_id: json_lookup(event, "/self_id"),
        payload: json_lookup(event, "/qqbot_payload"),
    }
}

/// Whether an identifier is free of white space at its ends and of control characters.
pub open spec fn is_clean(value: Seq<char>) -> bool {
    text::trimmed(value) == value && !text::has_control(value)
}

/// An account identifier, or why a text is none.
pub open spec fn account(value: Seq<char>, field: Seq<char>) -> Result<Seq<char>, Seq<char>> {
    if value.len() == 0 {
        Err(field + " 不能为空"@)
    } else if value.len() > 128 {
        Err(field + " 不能超过 "@ + text::decimal(128) + " 个字符"@)
    } else if !is_clean(value) {
        Err(field + " 不能包含首尾空白或控制字符"@)
    } else {
        Ok(value)
    }
}

pub fn parse_account_id(value: &str, field: &str) -> (result: Result<String, String>)
    ensures
        text::outcome(result) == account(value@, field@),
{
    let length = value.unicode_len();
    if length == 0 {
        return Err(cat2(field, " 不能为空"));
    }
    if length > MAX_ACCOUNT_ID_CHARS {
        return Err(cat4(field, " 不能超过 ", &u64_text(128), " 个字符"));
    }
    if !is_trimmed(value) || any_control(value) {
        return Err(cat2(field, " 不能包含首尾空白或控制字符"));
    }
    Ok(value.to_owned())
}

/// A sender identifier, or why a text is none.
pub open spec fn subject(value: Seq<char>) -> Result<Seq<char>, Seq<char>> {
    if value.len() == 0 {
        Err("sender_id 不能为空"@)
    } else if value.len() > 256 {
        Err("sender_id 不能超过 "@ + text::decimal(256) + " 个字符"@)
    } else if !is_clean(value) {
        Err("sender_id 不能包含首尾空白或控制字符"@)
    } else {
        Ok(value)
    }
}

pub fn parse_subject_id(value: &str) -> (result: Result<String, String>)
    ensures
        text::outcome(result) == subject(value@),
{
    let length = value.unicode_len();
    if length == 0 {
        return Err("sender_id 不能为空".to_owned());
    }
    if length > MAX_SUBJECT_ID_CHARS {
        return Err(cat3("sender_id 不能超过 ", &u64_text(256), " 个字符"));
    }
    if !is_trimmed(value) || any_control(value) {
        return Err("sender_id 不能包含首尾空白或控制字符".to_owned());
    }
    Ok(value.to_owned())
}

/// What the host's context declares.
#[derive(Clone, Debug, PartialEq, Eq)]
pub struct QimenContext {
    pub protocol: Protocol,
    pub account_id: Option<String>,
}

/// The mathematical form of the host's context.
pub struct HostContext {
    pub protocol: Protocol,
    pub account_id: Option<Seq<char>>,
}

impl View for QimenContext {
    type V = HostContext;

    open spec fn view(&self) -> HostContext {
        HostContext { protocol: self.protocol, account_id: text::optional_text(self.account_id) }
    }
}

/// The protocol that the host's context names.
pub open spec fn context_protocol(facts: IdentityFacts) -> Result<Protocol, Seq<char>> {
    match facts.context_protocol {
        Some(JsonShape::Text(name)) => if name == "onebot11"@ {
            Ok(Protocol::OneBot11)
        } else if name == "qq-official"@ {
            Ok(Protocol::QqOfficial)
        } else {
            Err("qimen_context.protocol 不是插件支持的协议"@)
        },
        _ => Err("qimen_context.protocol 必须是字符串"@),
    }
}

/// The host's context of an event that has one.
pub open spec fn host_context(facts: IdentityFacts) -> Result<HostContext, Seq<char>> {
    if facts.context != Some(JsonShape::Object) {
        Err("qimen_context 必须是 JSON 对象"@)
    } else {
        match facts.context_version {
            Some(JsonShape::Number(Some(version))) => if version != 1 {
                Err(
                    "不支持 qimen_context.version="@ + text::decimal(version as nat)
                        + "，当前仅支持版本 "@ + text::decimal(1),
                )
            } else {
                match context_protocol(facts) {
                    Err(message) => Err(message),
                    Ok(protocol) => match facts.context_account_id {
                        None => Ok(HostContext { protocol, account_id: None }),
                        Some(JsonShape::Text(value)) => match account(
                            value,
                            "qimen_context.account_id"@,
                        ) {
                            Ok(id) => Ok(HostContext { protocol, account_id: Some(id) }),
                            Err(message) => Err(message),
                        },
                        Some(_) => Err("qimen_context.account_id 必须是字符串"@),
                    },
                }
            },
            _ => Err("qimen_context.version 必须是整数 1"@),
        }
    }
}

fn parse_context_protocol(event: &IdentityEvent) -> (result: Result<Protocol, String>)
    ensures
        match result {
            Ok(protocol) => context_protocol(event@) == Ok::<Protocol, Seq<char>>(protocol),
            Err(message) => context_protocol(event@) == Err::<Protocol, Seq<char>>(message@),
        },
{
    match &event.context_protocol {
        Some(JsonNode::Text(name)) => {
            if same(name, "onebot11") {
                Ok(Protocol::OneBot11)
            } else if same(name, "qq-official") {
                Ok(Protocol::QqOfficial)
            } else {
                Err("qimen_context.protocol 不是插件支持的协议".to_owned())
            }
        },
        _ => Err("qimen_context.protocol 必须是字符串".to_owned()),
    }
}

pub fn parse_qimen_context(event: &IdentityEvent) -> (result: Result<QimenContext, String>)
    ensures
        text::outcome(result) == host_context(event@),
{
    match &event.context {
        Some(JsonNode::Object) => {},
        _ => return Err("qimen_context 必须是 JSON 对象".to_owned()),
    }
    let version = match &event.context_version {
        Some(JsonNode::Number(Some(version))) => *version,
        _ => return Err("qimen_context.version 必须是整数 1".to_owned()),
    };
    if version != QIMEN_CONTEXT_VERSION {
        return Err(
            cat4(
                "不支持 qimen_context.version=",
                &u64_text(version),
                "，当前仅支持版本 ",
                &u64_text(QIMEN_CONTEXT_VERSION),
            ),
        );
    }
    let protocol = match parse_context_protocol(event) {
        Ok(protocol) => protocol,
        Err(message) => return Err(message),
    };
    match &event.context_account_id {
        None => Ok(QimenContext { protocol, account_id: None }),
        Some(JsonNode::Text(value)) => match parse_account_id(value, "qimen_context.account_id") {
            Ok(id) => Ok(QimenContext { protocol, account_id: Some(id) }),
            Err(message) => Err(message),
        },
        Some(_) => Err("qimen_context.account_id 必须是字符串".to_owned()),
    }
}

/// The account that a OneBot event names: a text, or an unsigned whole number.
pub open spec fn onebot_account(self_id: Option<JsonShape>) -> Result<Seq<char>, Seq<char>> {
    match self_id {
        None => Err("OneBot 原始事件缺少 self_id"@),
        Some(JsonShape::Text(value)) => account(value, "OneBot self_id"@),
        Some(JsonShape::Number(Some(value))) => Ok(text::decimal(value as nat)),
        Some(JsonShape::Number(None)) => Err("OneBot self_id 数字必须是无符号整数"@),
        Some(_) => Err("OneBot self_id 必须是字符串或无符号整数"@),
    }
}

pub fn parse_onebot_self_id(self_id: &Option<JsonNode>) -> (result: Result<String, String>)
    ensures
        text::outcome(result) == onebot_account(outside::optional_shape(*self_id)),
{
    match self_id {
        None => Err("OneBot 原始事件缺少 self_id".to_owned()),
        Some(JsonNode::Text(value)) => parse_account_id(value, "OneBot self_id"),
        Some(JsonNode::Number(Some(value))) => Ok(u64_text(*value)),
        Some(JsonNode::Number(None)) => Err("OneBot self_id 数字必须是无符号整数".to_owned()),
        Some(_) => Err("OneBot self_id 必须是字符串或无符号整数".to_owned()),
    }
}

/// The configured account, where there is one.
pub open spec fn configured_account(configured: Seq<char>) -> Result<Option<Seq<char>>, Seq<char>> {
    if configured.len() == 0 {
        Ok(None)
    } else {
        match account(configured, "identity.qq_official_account_id"@) {
            Ok(id) => Ok(Some(id)),
            Err(message) => Err(message),
        }
    }
}

pub fn optional_configured_qq_account(config: &IdentityConfig) -> (result: Result<
    Option<String>,
    String,
>)
    ensures
        match result {
            Ok(id) => configured_account(config.qq_official_account_id@) == Ok::<
                Option<Seq<char>>,
                Seq<char>,
            >(text::optional_text(id)),
            Err(message) => configured_account(config.qq_official_account_id@) == Err::<
                Option<Seq<char>>,
                Seq<char>,
            >(message@),
        },
{
    if config.qq_official_account_id.as_str().is_empty() {
        return Ok(None);
    }
    match parse_account_id(&config.qq_official_account_id, "identity.qq_official_account_id") {
        Ok(id) => Ok(Some(id)),
        Err(message) => Err(message),
    }
}

/// A protocol and an account of it.
#[derive(Clone, Debug, PartialEq, Eq)]
pub struct BotAccount {
    pub protocol: Protocol,
    pub account_id: String,
}

impl View for BotAccount {
    type V = (Protocol, Seq<char>);

    open spec fn view(&self) -> (Protocol, Seq<char>) {
        (self.protocol, self.account_id@)
    }
}

/// The account of an event with a host context: the context, the event and the
/// configuration must agree.
pub open spec fn account_with_context(
    facts: IdentityFacts,
    context: HostContext,
    configured: Seq<char>,
) -> Result<(Protocol, Seq<char>), Seq<char>> {
    match context.protocol {
        Protocol::OneBot11 => if facts.payload is Some {
            Err("qimen_context 协议与 QQ 原始事件不一致"@)
        } else {
            match onebot_account(facts.self_id) {
                Err(message) => Err(message),
                Ok(id) => match context.account_id {
                    Some(declared) => if declared != id {
                        Err("OneBot self_id 与 qimen_context.account_id 不一致"@)
                    } else {
                        Ok((Protocol::OneBot11, id))
                    },
                    None => Ok((Protocol::OneBot11, id)),
                },
            }
        },
        Protocol::QqOfficial => if facts.self_id is Some {
            Err("qimen_context 协议与 OneBot 原始事件不一致"@)
        } else {
            match context.account_id {
                None => Err(
                    "qimen_context 缺少 QQ 官方机器人 account_id，已拒绝有状态命令"@,
                ),
                Some(id) => match configured_account(configured) {
                    Err(message) => Err(message),
                    Ok(Some(wanted)) => if wanted != id {
                        Err(
                            "qimen_context.account_id 与 identity.qq_official_account_id 不一致"@,
                        )
                    } else {
                        Ok((Protocol::QqOfficial, id))
                    },
                    Ok(None) => Ok((Protocol::QqOfficial, id)),
                },
            }
        },
    }
}

pub fn resolve_with_context(
    event: &IdentityEvent,
    context: QimenContext,
    config: &IdentityConfig,
) -> (result: Result<BotAccount, String>)
    ensures
        text::outcome(result) == account_with_context(
            event@,
            context@,
            config.qq_official_account_id@,
        ),
{
    match context.protocol {
        Protocol::OneBot11 => {
            if event.payload.is_some() {
                return Err("qimen_context 协议与 QQ 原始事件不一致".to_owned());
            }
            let account_id = match parse_onebot_self_id(&event.self_id) {
                Ok(id) => id,
                Err(message) => return Err(message),
            };
            match &context.account_id {
                Some(declared) => {
                    if !same(declared, &account_id) {
                        return Err(
                            "OneBot self_id 与 qimen_context.account_id 不一致".to_owned(),
                        );
                    }
                },
                None => {},
            }
            Ok(BotAccount { protocol: Protocol::OneBot11, account_id })
        },
        Protocol::QqOfficial => {
            if event.self_id.is_some() {
                return Err("qimen_context 协议与 OneBot 原始事件不一致".to_owned());
            }
            let account_id = match context.account_id {
                Some(id) => id,
                None => return Err(
                    "qimen_context 缺少 QQ 官方机器人 account_id，已拒绝有状态命令".to_owned(),
                ),
            };
            match optional_configured_qq_account(config) {
                Err(message) => return Err(message),
                Ok(Some(wanted)) => {
                    if !same(&wanted, &account_id) {
                        return Err(
                            "qimen_context.account_id 与 identity.qq_official_account_id 不一致".to_owned(),
                        );
                    }
                },
                Ok(None) => {},
            }
            Ok(BotAccount { protocol: Protocol::QqOfficial, account_id })
        },
    }
}

/// The account of an event without a host context: the event must be of one
/// protocol alone, and the official QQ adapter needs a configured account.
pub open spec fn legacy_account(
    facts: IdentityFacts,
    configured: Seq<char>,
) -> Result<(Protocol, Seq<char>), Seq<char>> {
    if facts.self_id is Some && facts.payload is None {
        match onebot_account(facts.self_id) {
            Ok(id) => Ok((Protocol::OneBot11, id)),
            Err(message) => Err(message),
        }
    } else if facts.self_id is None && facts.payload is Some {
        if facts.payload != Some(JsonShape::Object) {
            Err("qqbot_payload 必须是 JSON 对象"@)
        } else {
            match configured_account(configured) {
                Err(message) => Err(message),
                Ok(Some(id)) => Ok((Protocol::QqOfficial, id)),
                Ok(None) => Err(
                    "旧版 QimenBot 未提供 QQ 官方机器人 account_id；请配置 identity.qq_official_account_id"@,
                ),
            }
        }
    } else if facts.self_id is Some {
        Err("原始事件同时包含 OneBot 与 QQ 官方协议标记"@)
    } else {
        Err("原始事件缺少 qimen_context 和可验证的协议账号"@)
    }
}

pub fn resolve_legacy_event(event: &IdentityEvent, config: &IdentityConfig) -> (result: Result<
    BotAccount,
    String,
>)
    ensures
        text::outcome(result) == legacy_account(event@, config.qq_official_account_id@),
{
    if event.self_id.is_some() && event.payload.is_none() {
        return match parse_onebot_self_id(&event.self_id) {
            Ok(account_id) => Ok(BotAccount { protocol: Protocol::OneBot11, account_id }),
            Err(message) => Err(message),
        };
    }
    if event.self_id.is_some() {
        return Err("原始事件同时包含 OneBot 与 QQ 官方协议标记".to_owned());
    }
    match &event.payload {
        None => Err("原始事件缺少 qimen_context 和可验证的协议账号".to_owned()),
        Some(JsonNode::Object) => match optional_configured_qq_account(config) {
            Err(message) => Err(message),
            Ok(Some(account_id)) => Ok(BotAccount { protocol: Protocol::QqOfficial, account_id }),
            Ok(None) => Err(
                "旧版 QimenBot 未提供 QQ 官方机器人 account_id；请配置 identity.qq_official_account_id".to_owned(),
            ),
        },
        Some(_) => Err("qqbot_payload 必须是 JSON 对象".to_owned()),
    }
}

/// The account of an event.
pub open spec fn event_account(
    facts: IdentityFacts,
    configured: Seq<char>,
) -> Result<(Protocol, Seq<char>), Seq<char>> {
    if facts.root is None {
        Err("原始事件不是有效 JSON，无法确认机器人账号"@)
    } else if facts.root != Some(JsonShape::Object) {
        Err("原始事件必须是 JSON 对象，无法确认机器人账号"@)
    } else if facts.context is None {
        legacy_account(facts, configured)
    } else {
        match host_context(facts) {
            Err(message) => Err(message),
            Ok(context) => account_with_context(facts, context, configured),
        }
    }
}

/// The identity behind a sender and an event.
pub open spec fn identity(
    sender_id: Seq<char>,
    facts: IdentityFacts,
    configured: Seq<char>,
) -> Result<Identity, Seq<char>> {
    match subject(sender_id) {
        Err(message) => Err(message),
        Ok(subject_id) => match event_account(facts, configured) {
            Err(message) => Err(message),
            Ok((protocol, account_id)) => Ok(Identity { protocol, account_id, subject_id }),
        },
    }
}

/// Decides an identity from what was read of an event.
pub fn identity_from_event(sender_id: &str, event: &IdentityEvent, config: &IdentityConfig) -> (result:
    Result<ResolvedIdentity, String>)
    ensures
        text::outcome(result) == identity(sender_id@, event@, config.qq_official_account_id@),
{
    let subject_id = match parse_subject_id(sender_id) {
        Ok(id) => id,
        Err(message) => return Err(message),
    };
    match &event.root {
        None => return Err("原始事件不是有效 JSON，无法确认机器人账号".to_owned()),
        Some(JsonNode::Object) => {},
        Some(_) => return Err("原始事件必须是 JSON 对象，无法确认机器人账号".to_owned()),
    }
    let account = if event.context.is_none() {
        resolve_legacy_event(event, config)
    } else {
        match parse_qimen_context(event) {
            Err(message) => return Err(message),
            Ok(context) => resolve_with_context(event, context, config),
        }
    };
    match account {
        Err(message) => Err(message),
        Ok(account) => Ok(
            ResolvedIdentity {
                protocol: account.protocol,
                account_id: account.account_id,
                subject_id,
            },
        ),
    }
}

/// The identity of a command. Neither the name of the deployment nor the namespace
/// is an account: where the account cannot be shown, the command is refused.
pub fn resolve_identity(request: &CommandRequest, config: &IdentityConfig) -> (result: Result<
    ResolvedIdentity,
    String,
>)
    ensures
        text::outcome(result) == identity(
            request.sender_id@,
            identity_facts(request.raw_event_json@),
            config.qq_official_account_id@,
        ),
{
    let event = read_identity_event(&request.raw_event_json);
    identity_from_event(&request.sender_id, &event, config)
}

/// The protocol of an event, which needs no account.
pub open spec fn event_protocol(facts: IdentityFacts) -> Result<Protocol, Seq<char>> {
    if facts.root is None {
        Err("原始事件不是有效 JSON，无法确认消息协议"@)
    } else if facts.root != Some(JsonShape::Object) {
        Err("原始事件必须是 JSON 对象，无法确认消息协议"@)
    } else if facts.context is Some {
        match host_context(facts) {
            Err(message) => Err(message),
            Ok(context) => if context.protocol == Protocol::OneBot11 && facts.payload is Some {
                Err("qimen_context 协议与 QQ 原始事件不一致"@)
            } else if context.protocol == Protocol::QqOfficial && facts.self_id is Some {
                Err("qimen_context 协议与 OneBot 原始事件不一致"@)
            } else {
                Ok(context.protocol)
            },
        }
    } else {
        let official = facts.payload == Some(JsonShape::Object);
        if facts.self_id is Some && !official {
            Ok(Protocol::OneBot11)
        } else if facts.self_id is None && official {
            Ok(Protocol::QqOfficial)
        } else if official {
            Err("原始事件同时包含 OneBot 与 QQ 官方协议标记"@)
        } else {
            Err("原始事件缺少可验证的消息协议标记"@)
        }
    }
}

/// Decides the protocol from what was read of an event.
pub fn protocol_from_event(event: &IdentityEvent) -> (result: Result<Protocol, String>)
    ensures
        match result {
            Ok(protocol) => event_protocol(event@) == Ok::<Protocol, Seq<char>>(protocol),
            Err(message) => event_protocol(event@) == Err::<Protocol, Seq<char>>(message@),
        },
{
    match &event.root {
        None => return Err("原始事件不是有效 JSON，无法确认消息协议".to_owned()),
        Some(JsonNode::Object) => {},
        Some(_) => return Err("原始事件必须是 JSON 对象，无法确认消息协议".to_owned()),
    }
    if event.context.is_some() {
        return match parse_qimen_context(event) {
            Err(message) => Err(message),
            Ok(context) => match context.protocol {
                Protocol::OneBot11 => {
                    if event.payload.is_some() {
                        Err("qimen_context 协议与 QQ 原始事件不一致".to_owned())
                    } else {
                        Ok(Protocol::OneBot11)
                    }
                },
                Protocol::QqOfficial => {
                    if event.self_id.is_some() {
                        Err("qimen_context 协议与 OneBot 原始事件不一致".to_owned())
                    } else {
                        Ok(Protocol::QqOfficial)
                    }
                },
            },
        };
    }
    let official = match &event.payload {
        Some(JsonNode::Object) => true,
        _ => false,
    };
    if event.self_id.is_some() {
        if official {
            Err("原始事件同时包含 OneBot 与 QQ 官方协议标记".to_owned())
        } else {
            Ok(Protocol::OneBot11)
        }
    } else if official {
        Ok(Protocol::QqOfficial)
    } else {
        Err("原始事件缺少可验证的消息协议标记".to_owned())
    }
}

/// The protocol of a command, without asking for an account.
pub fn resolve_protocol(request: &CommandRequest) -> (result: Result<Protocol, String>)
    ensures
        match result {
            Ok(protocol) => event_protocol(identity_facts(request.raw_event_json@)) == Ok::<
                Protocol,
                Seq<char>,
            >(protocol),
            Err(message) => event_protocol(identity_facts(request.raw_event_json@)) == Err::<
                Protocol,
                Seq<char>,
            >(message@),
        },
{
    protocol_from_event(&read_identity_event(&request.raw_event_json))
}

/// A resolved identity is never made up: its account stands in the event, or, for
/// the official QQ adapter, in the configuration; and its identifiers are clean.
pub proof fn identities_are_never_made_up(
    sender_id: Seq<char>,
    facts: IdentityFacts,
    configured: Seq<char>,
)
    ensures
        identity(sender_id, facts, configured) matches Ok(id) ==> {
            &&& id.subject_id == sender_id && is_clean(sender_id) && 0 < sender_id.len() <= 256
            &&& (id.protocol == Protocol::OneBot11 ==> onebot_account(facts.self_id) == Ok::<
                Seq<char>,
                Seq<char>,
            >(id.account_id))
            &&& (id.protocol == Protocol::QqOfficial ==> facts.self_id is None && (
            facts.context_account_id == Some(JsonShape::Text(id.account_id)) || (facts.context
                is None && id.account_id == configured)))
        },
{
}

/// Where an identity resolves, the protocol resolves to the same one.
pub proof fn identity_and_protocol_agree(
    sender_id: Seq<char>,
    facts: IdentityFacts,
    configured: Seq<char>,
)
    ensures
        identity(sender_id, facts, configured) matches Ok(id) ==> event_protocol(facts) == Ok::<
            Protocol,
            Seq<char>,
        >(id.protocol),
{
}

} // verus!
