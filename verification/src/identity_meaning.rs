//! Who a command comes from, where it was said, who may be served, and where replies go.
use crate::config::{AuthorizationMode, PluginConfig};
use crate::context;
use crate::context::Conversation;
use crate::event;
use crate::game;
use crate::host::CommandRequest;
use crate::identity;
use crate::identity::IdentityFacts;
use crate::message::Protocol;
use crate::outside;
use crate::outside::JsonShape;
use crate::plugin;
use crate::plugin::ReplyTarget;
use crate::text;
use vstd::prelude::*;

verus! {

/// The facts about the account are read from their own places in the event.
pub proof fn accounts_are_read_from_their_places(raw_event: Seq<char>)
    ensures
        ({
            let facts = identity::identity_facts(raw_event);
            &&& facts.root == outside::json_at(raw_event, ""@)
            &&& facts.self_id == outside::json_at(raw_event, "/self_id"@)
            &&& facts.payload == outside::json_at(raw_event, "/qqbot_payload"@)
            &&& facts.context == outside::json_at(raw_event, "/qimen_context"@)
            &&& facts.context_version == outside::json_at(raw_event, "/qimen_context/version"@)
            &&& facts.context_protocol == outside::json_at(raw_event, "/qimen_context/protocol"@)
            &&& facts.context_account_id == outside::json_at(
                raw_event,
                "/qimen_context/account_id"@,
            )
        }),
{
}

/// An event belongs to the OneBot account that it names itself, as a text or as a number,
/// where it has nothing of the official protocol and where what the host says of it, if it
/// says anything, is the same.
pub proof fn onebot_events_belong_to_the_account_they_name(
    facts: IdentityFacts,
    configured: Seq<char>,
    id: Seq<char>,
)
    ensures
        identity::event_account(facts, configured) == Ok::<_, Seq<char>>((Protocol::OneBot11, id))
            <==> {
            &&& facts.root == Some(JsonShape::Object)
            &&& facts.payload is None
            &&& {
                ||| facts.self_id == Some(JsonShape::Text(id)) && 1 <= id.len() <= 128
                    && text::trimmed(id) == id && !text::has_control(id)
                ||| facts.self_id matches Some(JsonShape::Number(Some(number))) && id
                    == text::decimal(number as nat)
            }
            &&& {
                ||| facts.context is None
                ||| {
                    &&& facts.context == Some(JsonShape::Object)
                    &&& facts.context_version matches Some(JsonShape::Number(Some(version)))
                        && version == 1
                    &&& facts.context_protocol == Some(JsonShape::Text("onebot11"@))
                    &&& {
                        ||| facts.context_account_id is None
                        ||| facts.context_account_id == Some(JsonShape::Text(id)) && 1 <= id.len()
                            <= 128 && text::trimmed(id) == id && !text::has_control(id)
                    }
                }
            }
        },
{
    lemma_protocol_names();
}

proof fn lemma_protocol_names()
    ensures
        "onebot11"@ != "qq-official"@,
{
    reveal_strlit("onebot11");
    reveal_strlit("qq-official");
    assert("onebot11"@.len() == 8 && "qq-official"@.len() == 11);
}

/// An event of the official protocol belongs to the account that the host names, which must
/// be the one that is set where one is set, or without a host to the one that is set; and it
/// has nothing of the other protocol.
pub proof fn official_events_belong_to_the_account_of_the_host(
    facts: IdentityFacts,
    configured: Seq<char>,
    id: Seq<char>,
)
    ensures
        identity::event_account(facts, configured) == Ok::<_, Seq<char>>(
            (Protocol::QqOfficial, id),
        ) <==> {
            &&& facts.root == Some(JsonShape::Object)
            &&& facts.self_id is None
            &&& 1 <= id.len() <= 128
            &&& text::trimmed(id) == id
            &&& !text::has_control(id)
            &&& {
                ||| facts.context is None && facts.payload == Some(JsonShape::Object) && configured
                    == id
                ||| {
                    &&& facts.context == Some(JsonShape::Object)
                    &&& facts.context_version matches Some(JsonShape::Number(Some(version)))
                        && version == 1
                    &&& facts.context_protocol == Some(JsonShape::Text("qq-official"@))
                    &&& facts.context_account_id == Some(JsonShape::Text(id))
                    &&& configured.len() == 0 || configured == id
                }
            }
        },
{
    lemma_protocol_names();
}

/// Who sent a command is the sender within the account of the event, and both must be sound.
pub proof fn senders_belong_to_the_account_of_the_event(
    sender_id: Seq<char>,
    facts: IdentityFacts,
    configured: Seq<char>,
)
    ensures
        identity::identity(sender_id, facts, configured) is Ok <==> identity::subject(
            sender_id,
        ) is Ok && identity::event_account(facts, configured) is Ok,
        identity::identity(sender_id, facts, configured) matches Ok(identity) ==> {
            &&& identity.subject_id == sender_id
            &&& identity::event_account(facts, configured) == Ok::<_, Seq<char>>(
                (identity.protocol, identity.account_id),
            )
        },
{
}

/// The protocol of an event is what the host says, where that does not contradict the event,
/// and otherwise what the event shows: a name of its own, or a payload, but not both.
pub proof fn protocols_are_told_by_what_events_hold(facts: IdentityFacts)
    requires
        facts.root == Some(JsonShape::Object),
        facts.context is None,
    ensures
        ({
            let official = facts.payload == Some(JsonShape::Object);
            let protocol = identity::event_protocol(facts);
            &&& protocol == Ok::<_, Seq<char>>(Protocol::OneBot11) <==> facts.self_id is Some
                && !official
            &&& protocol == Ok::<_, Seq<char>>(Protocol::QqOfficial) <==> facts.self_id is None
                && official
        }),
{
}

/// What the host says of the protocol is taken where the event does not contradict it.
pub proof fn the_host_tells_the_protocol(facts: IdentityFacts)
    requires
        facts.root == Some(JsonShape::Object),
        facts.context is Some,
        identity::host_context(facts) is Ok,
    ensures
        ({
            let said = (identity::host_context(facts)->Ok_0).protocol;
            let protocol = identity::event_protocol(facts);
            &&& protocol is Ok <==> (said == Protocol::OneBot11 && facts.payload is None) || (said
                == Protocol::QqOfficial && facts.self_id is None)
            &&& protocol is Ok ==> protocol == Ok::<_, Seq<char>>(said)
            &&& said == Protocol::OneBot11 <==> facts.context_protocol == Some(
                JsonShape::Text("onebot11"@),
            )
            &&& said == Protocol::QqOfficial <==> facts.context_protocol == Some(
                JsonShape::Text("qq-official"@),
            )
        }),
{
    lemma_protocol_names();
}

proof fn lemma_event_kinds()
    ensures
        "C2C_MESSAGE_CREATE"@ != "DIRECT_MESSAGE_CREATE"@,
        "C2C_MESSAGE_CREATE"@ != "GROUP_AT_MESSAGE_CREATE"@,
        "C2C_MESSAGE_CREATE"@ != "GROUP_MESSAGE_CREATE"@,
        "C2C_MESSAGE_CREATE"@ != "AT_MESSAGE_CREATE"@,
        "C2C_MESSAGE_CREATE"@ != "MESSAGE_CREATE"@,
        "DIRECT_MESSAGE_CREATE"@ != "GROUP_AT_MESSAGE_CREATE"@,
        "DIRECT_MESSAGE_CREATE"@ != "GROUP_MESSAGE_CREATE"@,
        "DIRECT_MESSAGE_CREATE"@ != "AT_MESSAGE_CREATE"@,
        "DIRECT_MESSAGE_CREATE"@ != "MESSAGE_CREATE"@,
        "GROUP_AT_MESSAGE_CREATE"@ != "AT_MESSAGE_CREATE"@,
        "GROUP_AT_MESSAGE_CREATE"@ != "MESSAGE_CREATE"@,
        "GROUP_MESSAGE_CREATE"@ != "AT_MESSAGE_CREATE"@,
        "GROUP_MESSAGE_CREATE"@ != "MESSAGE_CREATE"@,
{
    reveal_strlit("C2C_MESSAGE_CREATE");
    reveal_strlit("DIRECT_MESSAGE_CREATE");
    reveal_strlit("GROUP_AT_MESSAGE_CREATE");
    reveal_strlit("GROUP_MESSAGE_CREATE");
    reveal_strlit("AT_MESSAGE_CREATE");
    reveal_strlit("MESSAGE_CREATE");
    assert("C2C_MESSAGE_CREATE"@[0] == 'C' && "DIRECT_MESSAGE_CREATE"@[0] == 'D');
    assert("GROUP_AT_MESSAGE_CREATE"@[0] == 'G' && "GROUP_MESSAGE_CREATE"@[0] == 'G');
    assert("AT_MESSAGE_CREATE"@[0] == 'A' && "MESSAGE_CREATE"@[0] == 'M');
}

/// The facts about a conversation are read from their own places; the kind of the event
/// stands at the top or else in the payload.
pub proof fn conversations_are_read_from_their_places(raw_event: Seq<char>)
    ensures
        ({
            let facts = event::qq_facts(raw_event);
            let at_top = event::text_at(raw_event, "/event_type"@);
            &&& facts.is_json <==> outside::json_at(raw_event, ""@) is Some
            &&& facts.is_object <==> outside::json_at(raw_event, ""@) == Some(JsonShape::Object)
            &&& facts.payload_is_object <==> outside::json_at(raw_event, "/qqbot_payload"@)
                == Some(JsonShape::Object)
            &&& facts.context_is_object <==> outside::json_at(raw_event, "/qimen_context"@)
                == Some(JsonShape::Object)
            &&& facts.context_protocol == event::text_at(raw_event, "/qimen_context/protocol"@)
            &&& facts.context_account_id == event::text_at(
                raw_event,
                "/qimen_context/account_id"@,
            )
            &&& facts.event_type == (if at_top is Some {
                at_top
            } else {
                event::text_at(raw_event, "/qqbot_payload/event_type"@)
            })
            &&& facts.root_group_openid == event::text_at(raw_event, "/group_openid"@)
            &&& facts.payload_group_openid == event::text_at(
                raw_event,
                "/qqbot_payload/group_openid"@,
            )
            &&& facts.root_channel_id == event::text_at(raw_event, "/channel_id"@)
            &&& facts.payload_channel_id == event::text_at(
                raw_event,
                "/qqbot_payload/channel_id"@,
            )
            &&& facts.root_guild_id == event::text_at(raw_event, "/guild_id"@)
            &&& facts.payload_guild_id == event::text_at(raw_event, "/qqbot_payload/guild_id"@)
        }),
        forall|pointer: Seq<char>| #[trigger]
            event::text_at(raw_event, pointer) == (match outside::json_at(raw_event, pointer) {
                Some(JsonShape::Text(value)) => Some(value),
                _ => None,
            }),
{
}

/// In the official protocol a message is private, direct, of a group or of a channel by the
/// kind of its event; groups and channels are named by the payload or else at the top.
pub proof fn official_conversations_go_by_their_events(facts: event::QqFacts)
    requires
        facts.is_json,
        facts.payload_is_object,
    ensures
        ({
            let place = context::qq_conversation(facts);
            let group = if facts.payload_group_openid is Some {
                facts.payload_group_openid
            } else {
                facts.root_group_openid
            };
            let channel = if facts.payload_channel_id is Some {
                facts.payload_channel_id
            } else {
                facts.root_channel_id
            };
            &&& facts.event_type == Some("C2C_MESSAGE_CREATE"@) ==> place == Ok::<_, Seq<char>>(
                Conversation::Private,
            )
            &&& facts.event_type == Some("DIRECT_MESSAGE_CREATE"@) ==> place == Ok::<_, Seq<char>>(
                Conversation::Dms,
            )
            &&& facts.event_type == Some("GROUP_AT_MESSAGE_CREATE"@) || facts.event_type == Some(
                "GROUP_MESSAGE_CREATE"@,
            ) ==> {
                &&& place is Ok <==> group is Some && 1 <= (group->0).len() <= 256
                    && !text::has_control(group->0)
                &&& place is Ok ==> place == Ok::<_, Seq<char>>(Conversation::Group(group->0))
            }
            &&& facts.event_type == Some("AT_MESSAGE_CREATE"@) || facts.event_type == Some(
                "MESSAGE_CREATE"@,
            ) ==> {
                &&& place is Ok <==> channel is Some && 1 <= (channel->0).len() <= 256
                    && !text::has_control(channel->0)
                &&& place is Ok ==> place == Ok::<_, Seq<char>>(Conversation::Channel(channel->0))
            }
            &&& facts.event_type is None ==> place is Err
        }),
{
    lemma_event_kinds();
}

/// Otherwise a message belongs to the group that it names, and is private without one.
pub proof fn other_conversations_go_by_their_groups(group_id: Seq<char>)
    ensures
        group_id.len() == 0 ==> context::onebot_conversation(group_id) == Ok::<_, Seq<char>>(
            Conversation::Private,
        ),
        1 <= group_id.len() <= 256 && !text::has_control(group_id) ==> context::onebot_conversation(
            group_id,
        ) == Ok::<_, Seq<char>>(Conversation::Group(group_id)),
        group_id.len() > 256 || text::has_control(group_id) ==> context::onebot_conversation(
            group_id,
        ) is Err,
{
}

/// Groups and channels are authorised by kind and name, private and direct messages need no
/// authorisation, and each kind is logged under its own name.
pub proof fn conversations_go_by_their_names(id: Seq<char>)
    ensures
        context::target_of(Conversation::Group(id)) == Some(("group"@, id)),
        context::target_of(Conversation::Channel(id)) == Some(("channel"@, id)),
        context::target_of(Conversation::Private) is None,
        context::target_of(Conversation::Dms) is None,
        context::kind_of(Conversation::Private) == "private"@,
        context::kind_of(Conversation::Dms) == "dms"@,
        context::kind_of(Conversation::Group(id)) == "group"@,
        context::kind_of(Conversation::Channel(id)) == "channel"@,
{
}

/// A reply goes where the message came from: to the group or else to the sender; in the
/// official protocol to the group, to the sender, to the channel, or to the guild for a
/// direct message, as its event says, and each place is named at the top or else in the
/// payload.
pub proof fn replies_go_where_messages_came_from(
    group_id: Seq<char>,
    sender_id: Seq<char>,
    facts: event::QqFacts,
)
    requires
        facts.is_object,
        facts.payload_is_object,
    ensures
        ({
            let target = plugin::qq_target(facts, sender_id);
            let group = if facts.root_group_openid is Some {
                facts.root_group_openid
            } else {
                facts.payload_group_openid
            };
            let channel = if facts.root_channel_id is Some {
                facts.root_channel_id
            } else {
                facts.payload_channel_id
            };
            let guild = if facts.root_guild_id is Some {
                facts.root_guild_id
            } else {
                facts.payload_guild_id
            };
            &&& facts.event_type == Some("GROUP_AT_MESSAGE_CREATE"@) || facts.event_type == Some(
                "GROUP_MESSAGE_CREATE"@,
            ) ==> target == (if group is Some && (group->0).len() > 0 {
                Some(ReplyTarget::Group(group->0))
            } else {
                None
            })
            &&& facts.event_type == Some("C2C_MESSAGE_CREATE"@) ==> target == (if sender_id.len()
                > 0 {
                Some(ReplyTarget::Private(sender_id))
            } else {
                None
            })
            &&& facts.event_type == Some("AT_MESSAGE_CREATE"@) || facts.event_type == Some(
                "MESSAGE_CREATE"@,
            ) ==> target == (if channel is Some && (channel->0).len() > 0 {
                Some(ReplyTarget::Channel(channel->0))
            } else {
                None
            })
            &&& facts.event_type == Some("DIRECT_MESSAGE_CREATE"@) ==> target == (if guild is Some
                && (guild->0).len() > 0 {
                Some(ReplyTarget::ChannelPrivate(guild->0))
            } else {
                None
            })
        }),
        group_id.len() > 0 ==> plugin::onebot_target(group_id, sender_id) == Some(
            ReplyTarget::Group(group_id),
        ),
        group_id.len() == 0 && sender_id.len() > 0 ==> plugin::onebot_target(group_id, sender_id)
            == Some(ReplyTarget::Private(sender_id)),
        group_id.len() == 0 && sender_id.len() == 0 ==> plugin::onebot_target(
            group_id,
            sender_id,
        ) is None,
{
    lemma_event_kinds();
}

/// Replies are addressed by the rules of the protocol of the event, and refer to the message
/// that they answer in OneBot alone.
pub proof fn replies_keep_to_the_protocol(
    raw_event: Seq<char>,
    group_id: Seq<char>,
    sender_id: Seq<char>,
    message_id: Seq<char>,
)
    ensures
        outside::json_at(raw_event, "/qqbot_payload"@) is None ==> plugin::reply_target(
            raw_event,
            group_id,
            sender_id,
        ) == plugin::onebot_target(group_id, sender_id),
        outside::json_at(raw_event, "/qqbot_payload"@) is Some ==> plugin::reply_target(
            raw_event,
            group_id,
            sender_id,
        ) == plugin::qq_target(event::qq_facts(raw_event), sender_id),
        message_id.len() > 0 ==> plugin::reference_of(Protocol::OneBot11, message_id) == Some(
            message_id,
        ),
        message_id.len() == 0 ==> plugin::reference_of(Protocol::OneBot11, message_id) is None,
        plugin::reference_of(Protocol::QqOfficial, message_id) is None,
{
}

/// What a player does is done within their protocol, their account and the namespace that is
/// set, as a user and in their own name.
pub proof fn players_act_in_their_own_name(req: CommandRequest, config: PluginConfig)
    ensures
        ({
            let who = identity::identity(
                req.sender_id@,
                identity::identity_facts(req.raw_event_json@),
                config.identity.qq_official_account_id@,
            );
            let scope = game::own_scope(req, config);
            let mutation = game::own_mutation(req, config);
            &&& scope is Ok <==> who is Ok
            &&& mutation is Ok <==> who is Ok
            &&& scope matches Ok(scope) ==> {
                &&& scope.protocol == (who->Ok_0).protocol
                &&& scope.account_id == (who->Ok_0).account_id
                &&& scope.namespace == config.identity.namespace@
                &&& scope.subject_kind == "user"@
                &&& scope.subject_id == req.sender_id@
            }
            &&& mutation matches Ok(mutation) ==> {
                &&& scope == Ok::<_, Seq<char>>(mutation.0)
                &&& mutation.1.command == req.command_name@
                &&& mutation.1.outcome == "ok"@
                &&& mutation.1.source_message_id == req.message_id@
                &&& mutation.1.details_json == game::details(req, (who->Ok_0).protocol)
            }
        }),
{
}

/// A log holds the kind of the conversation and whether there were arguments, and of a change
/// to the authorised conversations also which one it was; a conversation that is not known is
/// the system.
pub proof fn logs_hold_the_conversation(
    req: CommandRequest,
    protocol: Protocol,
    kind: Seq<char>,
    id: Seq<char>,
)
    ensures
        ({
            let place = if protocol == Protocol::OneBot11 {
                context::onebot_conversation(req.group_id@)
            } else {
                context::qq_conversation(event::qq_facts(req.raw_event_json@))
            };
            let name = match place {
                Ok(place) => context::kind_of(place),
                Err(_) => "system"@,
            };
            let head = "{\"context\":"@ + outside::json_string(name) + ",\"has_args\":"@ + (
            if text::is_blank(req.args@) {
                "false"@
            } else {
                "true"@
            });
            &&& game::details(req, protocol) == head + "}"@
            &&& game::context_details(req, protocol, kind, id) == head + ",\"target_id\":"@
                + outside::json_string(id) + ",\"target_kind\":"@ + outside::json_string(kind)
                + "}"@
        }),
{
}

/// Where everyone is allowed nobody is asked about; otherwise a group or a channel is asked
/// about by its kind and name within the scope of the sender, and nothing else is.
pub proof fn only_groups_and_channels_are_asked_about(req: CommandRequest, config: PluginConfig)
    ensures
        config.authorization.mode == AuthorizationMode::AllowAll ==> game::authorization(
            req,
            config,
        ) == Ok::<_, Seq<char>>(game::Gate::Allowed),
        game::authorization(req, config) matches Ok(game::Gate::Ask { scope, kind, id }) ==> {
            &&& config.authorization.mode == AuthorizationMode::Allowlist
            &&& game::own_scope(req, config) == Ok::<_, Seq<char>>(scope)
            &&& kind == "group"@ || kind == "channel"@
            &&& identity::event_protocol(
                identity::identity_facts(req.raw_event_json@),
            ) matches Ok(protocol)
            &&& game::conversation(req, protocol) == Ok::<_, Seq<char>>(
                if kind == "group"@ {
                    Conversation::Group(id)
                } else {
                    Conversation::Channel(id)
                },
            )
        },
        ({
            &&& config.authorization.mode != AuthorizationMode::AllowAll
            &&& identity::event_protocol(
                identity::identity_facts(req.raw_event_json@),
            ) matches Ok(protocol)
            &&& game::conversation(req, protocol) matches Ok(place)
            &&& place is Group || place is Channel
        }) ==> !(game::authorization(req, config) matches Ok(game::Gate::Allowed)),
{
    reveal_strlit("group");
    reveal_strlit("channel");
    assert("group"@.len() == 5 && "channel"@.len() == 7);
}

/// An operation is recorded as denied, as done, or as failed, and denied comes first.
pub proof fn operations_are_recorded_as_they_went(succeeded: bool)
    ensures
        plugin::outcome_name(true, succeeded) == "denied"@,
        plugin::outcome_name(false, true) == "ok"@,
        plugin::outcome_name(false, false) == "error"@,
{
}

/// A shortcut is the first word of a message, and its arguments are what stands behind it.
pub proof fn shortcuts_stand_before_their_arguments(word: Seq<char>, rest: Seq<char>)
    requires
        crate::argument_meaning::is_word(word),
        crate::argument_meaning::is_word(rest),
        !text::has_control(word + " "@ + rest),
        !text::has_control(word),
    ensures
        plugin::alias_message(word + " "@ + rest) == Some((word, rest)),
        plugin::alias_message(word) == Some((word, Seq::<char>::empty())),
{
    reveal_strlit(" ");
    let all = word + " "@ + rest;
    let k = word.len() as int;
    assert(all[0] == word[0]);
    assert(all.last() == rest.last());
    text::a_text_without_outer_white_is_trimmed(all);
    text::a_text_without_outer_white_is_trimmed(word);
    text::a_text_without_outer_white_is_trimmed(rest);
    assert forall|j: int| 0 <= j < k implies text::non_white()(#[trigger] all[j]) by {
        assert(all[j] == word[j]);
    }
    assert(all[k] == ' ');
    text::lemma_run_len(all, text::non_white(), k);
    assert(all.take(k) =~= word);
    assert(all.skip(k + 1) =~= rest);
    assert forall|j: int| 0 <= j < word.len() implies text::non_white()(#[trigger] word[j]) by {}
    text::lemma_run_len(word, text::non_white(), k);
}

} // verus!
