//! The kind of conversation that a command came from.
use crate::config;
use crate::event;
use crate::event::{first, read_qq_event, QqEvent};
use crate::host::CommandRequest;
use crate::message::Protocol;
use crate::text;
use crate::text::{any_control, cat3, same};
use vstd::prelude::*;
use vstd::string::*;

verus! {

/// A conversation; an unknown place is never taken for a private one.
#[derive(Clone, Debug, PartialEq, Eq)]
pub enum ConversationContext {
    Private,
    Dms,
    Group { id: String },
    Channel { id: String },
}

/// The mathematical form of a conversation.
pub enum Conversation {
    Private,
    Dms,
    Group(Seq<char>),
    Channel(Seq<char>),
}

impl View for ConversationContext {
    type V = Conversation;

    open spec fn view(&self) -> Conversation {
        match self {
            ConversationContext::Private => Conversation::Private,
            ConversationContext::Dms => Conversation::Dms,
            ConversationContext::Group { id } => Conversation::Group(id@),
            ConversationContext::Channel { id } => Conversation::Channel(id@),
        }
    }
}

/// The record that must allow a conversation; private ones need none.
pub open spec fn target_of(conversation: Conversation) -> Option<(Seq<char>, Seq<char>)> {
    match conversation {
        Conversation::Group(id) => Some(("group"@, id)),
        Conversation::Channel(id) => Some(("channel"@, id)),
        Conversation::Private => None,
        Conversation::Dms => None,
    }
}

/// The name of a conversation's kind in the operation log.
pub open spec fn kind_of(conversation: Conversation) -> Seq<char> {
    match conversation {
        Conversation::Private => "private"@,
        Conversation::Dms => "dms"@,
        Conversation::Group(_) => "group"@,
        Conversation::Channel(_) => "channel"@,
    }
}

impl ConversationContext {
    /// What has to be looked up among the authorised conversations.
    pub fn authorization_target(&self) -> (target: Option<(&'static str, &str)>)
        ensures
            match target {
                Some(target) => target_of(self@) == Some((target.0@, target.1@)),
                None => target_of(self@) is None,
            },
    {
        match self {
            ConversationContext::Group { id } => Some(("group", id.as_str())),
            ConversationContext::Channel { id } => Some(("channel", id.as_str())),
            ConversationContext::Private => None,
            ConversationContext::Dms => None,
        }
    }

    /// The kind that the operation log names.
    pub fn audit_kind(&self) -> (kind: &'static str)
        ensures
            kind@ == kind_of(self@),
    {
        match self {
            ConversationContext::Private => "private",
            ConversationContext::Dms => "dms",
            ConversationContext::Group { id: _ } => "group",
            ConversationContext::Channel { id: _ } => "channel",
        }
    }
}

/// An identifier of a conversation: 1 to 256 characters, none of them a control one.
pub open spec fn context_id_error(value: Seq<char>) -> Option<Seq<char>> {
    if value.len() == 0 || value.len() > 256 || text::has_control(value) {
        Some("授权上下文 ID 必须是 1 到 256 个无控制字符的字符串"@)
    } else {
        None
    }
}

pub fn valid_context_id(value: &str) -> (result: Result<(), String>)
    ensures
        config::failure(result) == context_id_error(value@),
{
    let length = value.unicode_len();
    if length == 0 || length > 256 || any_control(value) {
        return Err("授权上下文 ID 必须是 1 到 256 个无控制字符的字符串".to_owned());
    }
    Ok(())
}

/// The conversation of a OneBot command: its group, or a private one without it.
pub open spec fn onebot_conversation(group_id: Seq<char>) -> Result<Conversation, Seq<char>> {
    if group_id.len() == 0 {
        Ok(Conversation::Private)
    } else {
        match context_id_error(group_id) {
            Some(message) => Err(message),
            None => Ok(Conversation::Group(group_id)),
        }
    }
}

pub fn onebot_context(group_id: &str) -> (result: Result<ConversationContext, String>)
    ensures
        text::outcome(result) == onebot_conversation(group_id@),
{
    if group_id.is_empty() {
        return Ok(ConversationContext::Private);
    }
    match valid_context_id(group_id) {
        Ok(_) => Ok(ConversationContext::Group { id: group_id.to_owned() }),
        Err(message) => Err(message),
    }
}

/// A conversation with an identifier, which must be there and be valid.
pub open spec fn identified(
    id: Option<Seq<char>>,
    missing: Seq<char>,
    group: bool,
) -> Result<Conversation, Seq<char>> {
    match id {
        Some(id) => match context_id_error(id) {
            Some(message) => Err(message),
            None => Ok(
                if group {
                    Conversation::Group(id)
                } else {
                    Conversation::Channel(id)
                },
            ),
        },
        None => Err(missing),
    }
}

/// The conversation of an official QQ event, by the type of the event.
pub open spec fn qq_conversation(event: event::QqFacts) -> Result<Conversation, Seq<char>> {
    if !event.is_json {
        Err("官方 QQ 原始事件不是有效 JSON，无法确认授权上下文"@)
    } else if !event.payload_is_object {
        Err("官方 QQ 原始事件缺少 qqbot_payload，无法确认授权上下文"@)
    } else {
        match event.event_type {
            None => Err("官方 QQ 原始事件缺少 event_type，无法确认授权上下文"@),
            Some(kind) => if kind == "C2C_MESSAGE_CREATE"@ {
                Ok(Conversation::Private)
            } else if kind == "DIRECT_MESSAGE_CREATE"@ {
                Ok(Conversation::Dms)
            } else if kind == "GROUP_AT_MESSAGE_CREATE"@ || kind == "GROUP_MESSAGE_CREATE"@ {
                identified(
                    event::first_of(
                        event.payload_group_openid,
                        event.root_group_openid,
                    ),
                    "官方 QQ 群消息缺少 group_openid，无法确认授权上下文"@,
                    true,
                )
            } else if kind == "AT_MESSAGE_CREATE"@ || kind == "MESSAGE_CREATE"@ {
                identified(
                    event::first_of(
                        event.payload_channel_id,
                        event.root_channel_id,
                    ),
                    "官方 QQ 频道消息缺少 channel_id，无法确认授权上下文"@,
                    false,
                )
            } else {
                Err(
                    "官方 QQ 事件类型 "@ + kind
                        + " 不是可识别的命令会话，无法确认授权上下文"@,
                )
            },
        }
    }
}

fn identify(id: Option<String>, missing: &str, group: bool) -> (result: Result<
    ConversationContext,
    String,
>)
    ensures
        text::outcome(result) == identified(text::optional_text(id), missing@, group),
{
    match id {
        Some(id) => match valid_context_id(&id) {
            Ok(_) => Ok(
                if group {
                    ConversationContext::Group { id }
                } else {
                    ConversationContext::Channel { id }
                },
            ),
            Err(message) => Err(message),
        },
        None => Err(missing.to_owned()),
    }
}

/// Decides the conversation of an official QQ event from what was read of it.
pub fn qq_context(event: QqEvent) -> (result: Result<ConversationContext, String>)
    ensures
        text::outcome(result) == qq_conversation(event@),
{
    if !event.is_json {
        return Err("官方 QQ 原始事件不是有效 JSON，无法确认授权上下文".to_owned());
    }
    if !event.payload_is_object {
        return Err(
            "官方 QQ 原始事件缺少 qqbot_payload，无法确认授权上下文".to_owned(),
        );
    }
    match event.event_type {
        None => Err("官方 QQ 原始事件缺少 event_type，无法确认授权上下文".to_owned()),
        Some(kind) => {
            if same(&kind, "C2C_MESSAGE_CREATE") {
                Ok(ConversationContext::Private)
            } else if same(&kind, "DIRECT_MESSAGE_CREATE") {
                Ok(ConversationContext::Dms)
            } else if same(&kind, "GROUP_AT_MESSAGE_CREATE") || same(
                &kind,
                "GROUP_MESSAGE_CREATE",
            ) {
                identify(
                    first(event.payload_group_openid, event.root_group_openid),
                    "官方 QQ 群消息缺少 group_openid，无法确认授权上下文",
                    true,
                )
            } else if same(&kind, "AT_MESSAGE_CREATE") || same(&kind, "MESSAGE_CREATE") {
                identify(
                    first(event.payload_channel_id, event.root_channel_id),
                    "官方 QQ 频道消息缺少 channel_id，无法确认授权上下文",
                    false,
                )
            } else {
                Err(
                    cat3(
                        "官方 QQ 事件类型 ",
                        &kind,
                        " 不是可识别的命令会话，无法确认授权上下文",
                    ),
                )
            }
        },
    }
}

/// The conversation of a command.
pub fn resolve_conversation_context(request: &CommandRequest, protocol: Protocol) -> (result: Result<
    ConversationContext,
    String,
>)
    ensures
        match protocol {
            Protocol::OneBot11 => text::outcome(result) == onebot_conversation(request.group_id@),
            Protocol::QqOfficial => text::outcome(result) == qq_conversation(
                event::qq_facts(request.raw_event_json@),
            ),
        },
{
    match protocol {
        Protocol::OneBot11 => onebot_context(&request.group_id),
        Protocol::QqOfficial => qq_context(read_qq_event(&request.raw_event_json)),
    }
}

/// Only groups and channels need a record; a private conversation never has one.
pub proof fn private_conversations_need_no_record(event: event::QqFacts)
    ensures
        qq_conversation(event) matches Ok(conversation) ==> (target_of(conversation) is None <==> (
        event.event_type is Some && (event.event_type->0 == "C2C_MESSAGE_CREATE"@
            || event.event_type->0 == "DIRECT_MESSAGE_CREATE"@))),
{
}

} // verus!
