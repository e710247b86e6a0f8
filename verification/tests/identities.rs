//! Who speaks, and where.
use douluo_game::config::IdentityConfig;
use douluo_game::context::{resolve_conversation_context, ConversationContext};
use douluo_game::host::CommandRequest;
use douluo_game::identity::{
    parse_account_id, parse_subject_id, resolve_identity, resolve_protocol,
};
use douluo_game::message::Protocol;

fn request(sender_id: &str, raw_event: &str) -> CommandRequest {
    CommandRequest {
        args: String::new(),
        command_name: "状态".to_string(),
        sender_id: sender_id.to_string(),
        group_id: String::new(),
        raw_event_json: raw_event.to_string(),
        sender_nickname: String::new(),
        message_id: "message-1".to_string(),
        timestamp: 0,
    }
}

fn group_request(group_id: &str, raw_event: &str) -> CommandRequest {
    CommandRequest {
        group_id: group_id.to_string(),
        ..request("user", raw_event)
    }
}

fn config_with_qq_account(account_id: &str) -> IdentityConfig {
    IdentityConfig {
        qq_official_account_id: account_id.to_string(),
        ..IdentityConfig::default()
    }
}

#[test]
fn onebot_private_and_group_contexts_are_distinct() {
    assert_eq!(
        resolve_conversation_context(&group_request("", r#"{"self_id": 1}"#), Protocol::OneBot11)
            .expect("私聊应解析"),
        ConversationContext::Private
    );
    assert_eq!(
        resolve_conversation_context(
            &group_request("group-1", r#"{"self_id": 1}"#),
            Protocol::OneBot11
        )
        .expect("群聊应解析"),
        ConversationContext::Group {
            id: "group-1".to_string()
        }
    );
}

#[test]
fn qq_group_channel_and_direct_contexts_use_event_kind() {
    let resolve = |group_id: &str, raw: &str| {
        resolve_conversation_context(&group_request(group_id, raw), Protocol::QqOfficial)
    };
    assert_eq!(
        resolve(
            "group-openid",
            r#"{"event_type":"GROUP_AT_MESSAGE_CREATE","group_openid":"group-openid","qqbot_payload":{"group_openid":"group-openid"}}"#
        )
        .expect("QQ 群应解析"),
        ConversationContext::Group {
            id: "group-openid".to_string()
        }
    );
    assert_eq!(
        resolve(
            "",
            r#"{"event_type":"AT_MESSAGE_CREATE","channel_id":"channel-1","guild_id":"guild-1","qqbot_payload":{"channel_id":"channel-1","guild_id":"guild-1"}}"#
        )
        .expect("QQ 频道应解析"),
        ConversationContext::Channel {
            id: "channel-1".to_string()
        }
    );
    assert_eq!(
        resolve(
            "",
            r#"{"event_type":"C2C_MESSAGE_CREATE","qqbot_payload":{}}"#
        )
        .expect("QQ C2C 应按普通私聊处理"),
        ConversationContext::Private
    );
    assert_eq!(
        resolve(
            "",
            r#"{"event_type":"DIRECT_MESSAGE_CREATE","channel_id":"dm-channel","qqbot_payload":{"channel_id":"dm-channel"}}"#
        )
        .expect("QQ DMS 应按私聊处理"),
        ConversationContext::Dms
    );
}

#[test]
fn malformed_qq_context_fails_closed() {
    for raw in [
        r#"{"qqbot_payload": null}"#,
        r#"{"qqbot_payload": {}}"#,
        r#"{"event_type":"INTERACTION_CREATE","qqbot_payload":{}}"#,
    ] {
        assert!(
            resolve_conversation_context(&group_request("", raw), Protocol::QqOfficial).is_err()
        );
    }
    assert!(resolve_conversation_context(
        &group_request("group\n1", r#"{"self_id": 1}"#),
        Protocol::OneBot11
    )
    .is_err());
}

#[test]
fn contexts_tell_what_is_authorized_and_audited() {
    let group = ConversationContext::Group {
        id: "g".to_string(),
    };
    let channel = ConversationContext::Channel {
        id: "c".to_string(),
    };
    assert_eq!(group.authorization_target(), Some(("group", "g")));
    assert_eq!(channel.authorization_target(), Some(("channel", "c")));
    assert_eq!(ConversationContext::Private.authorization_target(), None);
    assert_eq!(ConversationContext::Dms.authorization_target(), None);
    assert_eq!(group.audit_kind(), "group");
}

#[test]
fn resolves_protocol_without_requiring_a_stable_account() {
    assert_eq!(
        resolve_protocol(&request(
            "user",
            r#"{"event_type": "C2C_MESSAGE_CREATE", "qqbot_payload": {}, "qimen_context": {"version": 1, "protocol": "qq-official"}}"#
        )),
        Ok(Protocol::QqOfficial)
    );
    assert_eq!(
        resolve_protocol(&request("user", r#"{"qqbot_payload": {}}"#)),
        Ok(Protocol::QqOfficial)
    );
    assert_eq!(
        resolve_protocol(&request(
            "user",
            r#"{"self_id": 10001, "qimen_context": {"version": 1, "protocol": "onebot11"}}"#
        )),
        Ok(Protocol::OneBot11)
    );
}

#[test]
fn resolves_onebot_context_with_numeric_or_string_self_id() {
    for (self_id, account_id, expected) in [
        ("2733944636", "2733944636", "2733944636"),
        ("\"bot-alpha\"", "bot-alpha", "bot-alpha"),
        ("\"000123\"", "000123", "000123"),
    ] {
        let raw = format!(
            r#"{{"self_id": {self_id}, "qimen_context": {{"version": 1, "protocol": "onebot11", "bot_instance": "ignored-deployment-alias", "account_id": "{account_id}"}}}}"#
        );
        let identity = resolve_identity(&request("user-1", &raw), &IdentityConfig::default())
            .expect("一致的 OneBot 上下文应解析");
        assert_eq!(identity.protocol, Protocol::OneBot11);
        assert_eq!(identity.account_id, expected);
        assert_eq!(identity.subject_id, "user-1");
    }
}

#[test]
fn onebot_context_can_use_self_id_when_host_account_is_unconfigured() {
    let identity = resolve_identity(
        &request(
            "user",
            r#"{"self_id": "10001", "qimen_context": {"version": 1, "protocol": "onebot11"}}"#,
        ),
        &IdentityConfig::default(),
    )
    .expect("OneBot self_id 本身就是可验证账号");
    assert_eq!(identity.account_id, "10001");
}

#[test]
fn legacy_onebot_requires_a_strict_self_id() {
    for (self_id, expected) in [
        ("10001", "10001"),
        ("0", "0"),
        ("\"0010001\"", "0010001"),
    ] {
        assert_eq!(
            resolve_identity(
                &request("user", &format!(r#"{{"self_id": {self_id}}}"#)),
                &IdentityConfig::default(),
            )
            .expect("旧 Host OneBot self_id 应解析")
            .account_id,
            expected
        );
    }

    for invalid in ["null", "true", "[]", "{}", "1.5", "-1", "\"\"", "\" 10001\""] {
        assert!(
            resolve_identity(
                &request("user", &format!(r#"{{"self_id": {invalid}}}"#)),
                &IdentityConfig::default(),
            )
            .is_err(),
            "不合法 self_id 不得进入共享身份桶"
        );
    }
}

#[test]
fn onebot_context_requires_self_id_and_exact_account_consistency() {
    let config = IdentityConfig::default();
    for raw_event in [
        r#"{"qimen_context": {"version": 1, "protocol": "onebot11", "account_id": "10001"}}"#,
        r#"{"self_id": 10001, "qimen_context": {"version": 1, "protocol": "onebot11", "account_id": "10002"}}"#,
        r#"{"self_id": 10001, "qqbot_payload": {}, "qimen_context": {"version": 1, "protocol": "onebot11", "account_id": "10001"}}"#,
    ] {
        assert!(resolve_identity(&request("user", raw_event), &config).is_err());
    }
}

#[test]
fn qq_context_account_is_authoritative_and_config_must_agree() {
    let raw_event = r#"{"qqbot_payload": {"id": "message"}, "qimen_context": {"version": 1, "protocol": "qq-official", "bot_instance": "qq-main", "account_id": "1024-app-id"}}"#;
    let identity = resolve_identity(
        &request("member-openid", raw_event),
        &IdentityConfig::default(),
    )
    .expect("新 Host 的账号上下文应独立工作");
    assert_eq!(identity.protocol, Protocol::QqOfficial);
    assert_eq!(identity.account_id, "1024-app-id");

    resolve_identity(
        &request("member-openid", raw_event),
        &config_with_qq_account("1024-app-id"),
    )
    .expect("兼容配置与 Host 账号一致时应通过");
    assert!(resolve_identity(
        &request("member-openid", raw_event),
        &config_with_qq_account("different-app-id"),
    )
    .is_err());
}

#[test]
fn qq_context_never_falls_back_when_account_is_missing() {
    let raw_event =
        r#"{"qqbot_payload": {}, "qimen_context": {"version": 1, "protocol": "qq-official"}}"#;
    assert!(resolve_identity(
        &request("member-openid", raw_event),
        &config_with_qq_account("legacy-single-bot"),
    )
    .is_err());
}

#[test]
fn legacy_qq_requires_explicit_single_bot_fallback() {
    let raw_event = r#"{"qqbot_payload": {"id": "message"}}"#;
    let identity = resolve_identity(
        &request("member-openid", raw_event),
        &config_with_qq_account("legacy-app-id"),
    )
    .expect("明确配置的旧 Host 单 Bot fallback 应工作");
    assert_eq!(identity.protocol, Protocol::QqOfficial);
    assert_eq!(identity.account_id, "legacy-app-id");
    assert!(resolve_identity(
        &request("member-openid", raw_event),
        &IdentityConfig::default(),
    )
    .is_err());
    assert!(resolve_identity(
        &request("member-openid", r#"{"qqbot_payload": null}"#),
        &config_with_qq_account("legacy-app-id"),
    )
    .is_err());
}

#[test]
fn malformed_or_unsupported_qimen_context_fails_closed() {
    let too_long_account = "魂".repeat(129);
    let too_long = format!(
        r#"{{"version": 1, "protocol": "qq-official", "account_id": "{too_long_account}"}}"#
    );
    for context in [
        "null",
        "[]",
        "{}",
        r#"{"version": "1", "protocol": "onebot11"}"#,
        r#"{"version": 2, "protocol": "onebot11"}"#,
        r#"{"version": 1}"#,
        r#"{"version": 1, "protocol": "onebot12"}"#,
        r#"{"version": 1, "protocol": "qq-official", "account_id": 123}"#,
        r#"{"version": 1, "protocol": "qq-official", "account_id": " padded "}"#,
        &too_long,
    ] {
        assert!(
            resolve_identity(
                &request(
                    "user",
                    &format!(r#"{{"self_id": 10001, "qimen_context": {context}}}"#),
                ),
                &config_with_qq_account("legacy-app-id"),
            )
            .is_err(),
            "畸形或未知版本上下文不得降级到旧解析"
        );
    }
}

#[test]
fn protocol_ambiguity_and_missing_evidence_fail_closed() {
    let config = config_with_qq_account("qq-app");
    for raw_event in [
        "{}",
        r#"{"self_id": 10001, "qqbot_payload": {}}"#,
        r#"{"self_id": 10001, "qimen_context": {"version": 1, "protocol": "qq-official", "account_id": "qq-app"}}"#,
    ] {
        assert!(resolve_identity(&request("user", raw_event), &config).is_err());
    }
}

#[test]
fn invalid_raw_json_or_sender_id_fails_closed() {
    let default = IdentityConfig::default();
    assert!(resolve_identity(&request("user", "not-json"), &default).is_err());
    assert!(resolve_identity(&request("user", "[]"), &default).is_err());

    for sender_id in ["", "   ", " padded", "line\nbreak"] {
        assert!(
            resolve_identity(&request(sender_id, r#"{"self_id": 10001}"#), &default).is_err()
        );
    }

    let maximum_sender = "魂".repeat(256);
    assert!(
        resolve_identity(&request(&maximum_sender, r#"{"self_id": 10001}"#), &default).is_ok()
    );
    let oversized_sender = "魂".repeat(257);
    assert!(
        resolve_identity(&request(&oversized_sender, r#"{"self_id": 10001}"#), &default).is_err()
    );
}

#[test]
fn ids_are_kept_as_they_are() {
    assert_eq!(parse_subject_id("00-ab"), Ok("00-ab".to_string()));
    assert!(parse_subject_id("").is_err());
    assert_eq!(
        parse_account_id("000123", "账号"),
        Ok("000123".to_string())
    );
    assert!(parse_account_id("a\u{0}b", "账号").is_err());
}
