//! What the plugin reads of the raw events that the host passes on.
use crate::outside;
use crate::outside::{json_lookup, JsonNode, JsonShape};
use crate::text;
use vstd::prelude::*;

verus! {

/// The text that a pointer leads to in an event.
pub open spec fn text_at(event: Seq<char>, pointer: Seq<char>) -> Option<Seq<char>> {
    match outside::json_at(event, pointer) {
        Some(JsonShape::Text(value)) => Some(value),
        _ => None,
    }
}

pub(crate) fn event_text(event: &str, pointer: &str) -> (value: Option<String>)
    ensures
        text::optional_text(value) == text_at(event@, pointer@),
{
    match json_lookup(event, pointer) {
        Some(JsonNode::Text(value)) => Some(value),
        _ => None,
    }
}

/// The first value, or else the second.
pub open spec fn first_of(
    first: Option<Seq<char>>,
    second: Option<Seq<char>>,
) -> Option<Seq<char>> {
    match first {
        Some(value) => Some(value),
        None => second,
    }
}

pub(crate) fn first(preferred: Option<String>, second: Option<String>) -> (value: Option<String>)
    ensures
        text::optional_text(value) == first_of(
            text::optional_text(preferred),
            text::optional_text(second),
        ),
{
    match preferred {
        Some(value) => Some(value),
        None => second,
    }
}

/// What the library reads of an event of the official QQ adapter. A field that may
/// stand beside the payload or inside it is kept from both places.
#[derive(Clone, Debug, PartialEq, Eq)]
pub struct QqEvent {
    pub is_json: bool,
    pub is_object: bool,
    pub payload_is_object: bool,
    pub context_is_object: bool,
    pub context_protocol: Option<String>,
    pub context_account_id: Option<String>,
    pub event_type: Option<String>,
    pub root_group_openid: Option<String>,
    pub payload_group_openid: Option<String>,
    pub root_channel_id: Option<String>,
    pub payload_channel_id: Option<String>,
    pub root_guild_id: Option<String>,
    pub payload_guild_id: Option<String>,
}

/// The mathematical form of an event.
pub struct QqFacts {
    pub is_json: bool,
    pub is_object: bool,
    pub payload_is_object: bool,
    pub context_is_object: bool,
    pub context_protocol: Option<Seq<char>>,
    pub context_account_id: Option<Seq<char>>,
    pub event_type: Option<Seq<char>>,
    pub root_group_openid: Option<Seq<char>>,
    pub payload_group_openid: Option<Seq<char>>,
    pub root_channel_id: Option<Seq<char>>,
    pub payload_channel_id: Option<Seq<char>>,
    pub root_guild_id: Option<Seq<char>>,
    pub payload_guild_id: Option<Seq<char>>,
}

impl View for QqEvent {
    type V = QqFacts;

    open spec fn view(&self) -> QqFacts {
        QqFacts {
            is_json: self.is_json,
            is_object: self.is_object,
            payload_is_object: self.payload_is_object,
            context_is_object: self.context_is_object,
            context_protocol: text::optional_text(self.context_protocol),
            context_account_id: text::optional_text(self.context_account_id),
            event_type: text::optional_text(self.event_type),
            root_group_openid: text::optional_text(self.root_group_openid),
            payload_group_openid: text::optional_text(self.payload_group_openid),
            root_channel_id: text::optional_text(self.root_channel_id),
            payload_channel_id: text::optional_text(self.payload_channel_id),
            root_guild_id: text::optional_text(self.root_guild_id),
            payload_guild_id: text::optional_text(self.payload_guild_id),
        }
    }
}

/// What stands in an event.
pub open spec fn qq_facts(event: Seq<char>) -> QqFacts {
    QqFacts {
        is_json: outside::json_at(event, ""@) is Some,
        is_object: outside::json_at(event, ""@) == Some(JsonShape::Object),
        payload_is_object: outside::json_at(event, "/qqbot_payload"@) == Some(JsonShape::Object),
        context_is_object: outside::json_at(event, "/qimen_context"@) == Some(JsonShape::Object),
        context_protocol: text_at(event, "/qimen_context/protocol"@),
        context_account_id: text_at(event, "/qimen_context/account_id"@),
        event_type: first_of(
            text_at(event, "/event_type"@),
            text_at(event, "/qqbot_payload/event_type"@),
        ),
        root_group_openid: text_at(event, "/group_openid"@),
        payload_group_openid: text_at(event, "/qqbot_payload/group_openid"@),
        root_channel_id: text_at(event, "/channel_id"@),
        payload_channel_id: text_at(event, "/qqbot_payload/channel_id"@),
        root_guild_id: text_at(event, "/guild_id"@),
        payload_guild_id: text_at(event, "/qqbot_payload/guild_id"@),
    }
}

fn object_at(event: &str, pointer: &str) -> (answer: bool)
    ensures
        answer == (outside::json_at(event@, pointer@) == Some(JsonShape::Object)),
{
    match json_lookup(event, pointer) {
        Some(JsonNode::Object) => true,
        _ => false,
    }
}

/// Reads an event of the official QQ adapter.
pub fn read_qq_event(event: &str) -> (record: QqEvent)
    ensures
        record@ == qq_facts(event@),
{
    QqEvent {
        is_json: json_lookup(event, "").is_some(),
        is_object: object_at(event, ""),
        payload_is_object: object_at(event, "/qqbot_payload"),
        context_is_object: object_at(event, "/qimen_context"),
        context_protocol: event_text(event, "/qimen_context/protocol"),
        context_account_id: event_text(event, "/qimen_context/account_id"),
        event_type: first(
            event_text(event, "/event_type"),
            event_text(event, "/qqbot_payload/event_type"),
        ),
        root_group_openid: event_text(event, "/group_openid"),
        payload_group_openid: event_text(event, "/qqbot_payload/group_openid"),
        root_channel_id: event_text(event, "/channel_id"),
        payload_channel_id: event_text(event, "/qqbot_payload/channel_id"),
        root_guild_id: event_text(event, "/guild_id"),
        payload_guild_id: event_text(event, "/qqbot_payload/guild_id"),
    }
}

} // verus!
