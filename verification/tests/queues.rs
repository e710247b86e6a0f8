//! Pictures that wait for their text, and replies of the interceptor.
use douluo_game::config::IllustrationConfig;
use douluo_game::host::{CommandRequest, CommandResponse, InterceptorRequest};
use douluo_game::message::{GameDocument, Illustration};
use douluo_game::plugin::{
    command_request_from_interceptor, dispatch_command, dispatch_player_alias_command,
    execute_service_operation,
    interceptor_response_text, parse_player_alias_message, queue_interceptor_response,
    service_document, with_service, GameAction, InterceptorReplyTarget, Operation,
    QueuePlan,
};
use douluo_game::qq_media::{
    image_segments, valid_id, PendingImages, QqMediaTarget, MAX_PENDING_QQ_INLINE_IMAGES,
};
use douluo_game::startup::{data_directory, draft_verdict, replace_server, ServerSlot};
use std::cell::Cell;

fn text(value: &str) -> String {
    value.to_string()
}

fn direct_document() -> GameDocument {
    GameDocument::new("角色状态")
        .line("完整文字不能丢失")
        .illustration(
            Illustration::inline_image_bytes("状态卡片", b"GIF89a", 1, 1)
                .expect("测试 GIF 应可内联"),
        )
}

fn raw_event(event_type: &str) -> String {
    let payload = match event_type {
        "GROUP_AT_MESSAGE_CREATE" => r#"{"group_openid":"group-openid"}"#,
        "C2C_MESSAGE_CREATE" => r#"{"openid":"user-openid"}"#,
        "AT_MESSAGE_CREATE" => r#"{"channel_id":"channel-id","guild_id":"guild-id"}"#,
        "DIRECT_MESSAGE_CREATE" => r#"{"channel_id":"dms-id","guild_id":"guild-id"}"#,
        _ => "{}",
    };
    format!(
        r#"{{"event_type":"{event_type}","qqbot_payload":{payload},"qimen_context":{{"version":1,"protocol":"qq-official","account_id":"qq-account"}}}}"#
    )
}

fn command_request(event_type: &str, message_id: &str) -> CommandRequest {
    CommandRequest {
        args: String::new(),
        command_name: text("状态"),
        sender_id: text("user-openid"),
        group_id: text("group-openid"),
        raw_event_json: raw_event(event_type),
        sender_nickname: text("测试者"),
        message_id: text(message_id),
        timestamp: 0,
    }
}

fn interceptor_request(event_type: &str, message_id: &str) -> InterceptorRequest {
    InterceptorRequest {
        bot_id: text("可变部署别名"),
        sender_id: text("user-openid"),
        group_id: text("group-openid"),
        message_text: text("状态"),
        raw_event_json: raw_event(event_type),
        sender_nickname: text("测试者"),
        message_id: text(message_id),
        timestamp: 0,
    }
}

#[test]
fn only_group_and_c2c_stage_direct_inline_images() {
    let mut pending = PendingImages::new();
    let document = direct_document();
    for event_type in [
        "GROUP_AT_MESSAGE_CREATE",
        "C2C_MESSAGE_CREATE",
        "AT_MESSAGE_CREATE",
        "DIRECT_MESSAGE_CREATE",
    ] {
        let request = command_request(event_type, event_type);
        pending.stage_command_image(&request, &document, &IllustrationConfig::default());
    }
    assert_eq!(pending.pending_image_count(), 2);
    assert!(pending
        .take_after_completion(&interceptor_request(
            "GROUP_AT_MESSAGE_CREATE",
            "GROUP_AT_MESSAGE_CREATE"
        ))
        .is_some());
    assert!(pending
        .take_after_completion(&interceptor_request(
            "C2C_MESSAGE_CREATE",
            "C2C_MESSAGE_CREATE"
        ))
        .is_some());
    assert!(pending
        .take_after_completion(&interceptor_request(
            "AT_MESSAGE_CREATE",
            "AT_MESSAGE_CREATE"
        ))
        .is_none());
    assert!(pending
        .take_after_completion(&interceptor_request(
            "DIRECT_MESSAGE_CREATE",
            "DIRECT_MESSAGE_CREATE"
        ))
        .is_none());
}

#[test]
fn normal_command_image_is_sent_only_after_completion() {
    let mut pending = PendingImages::new();
    let command = command_request("GROUP_AT_MESSAGE_CREATE", "normal-message");
    pending.stage_command_image(&command, &direct_document(), &IllustrationConfig::default());
    assert_eq!(pending.pending_image_count(), 1);

    let completion = interceptor_request("GROUP_AT_MESSAGE_CREATE", "normal-message");
    let image = pending
        .take_after_completion(&completion)
        .expect("完成回调应取到对应待发送图片");
    assert_eq!(
        image.key.target,
        QqMediaTarget::Group(text("group-openid"))
    );
    assert!(image_segments(&image).contains("base64://"));
    assert!(pending.take_after_completion(&completion).is_none());
}

#[test]
fn player_alias_queues_text_before_its_pending_image() {
    let mut pending = PendingImages::new();
    let command = command_request("GROUP_AT_MESSAGE_CREATE", "alias-message");
    let interceptor = interceptor_request("GROUP_AT_MESSAGE_CREATE", "alias-message");
    pending.stage_command_image(&command, &direct_document(), &IllustrationConfig::default());
    match queue_interceptor_response(
        &interceptor,
        &CommandResponse::Text(text("快捷键文字回执")),
    ) {
        QueuePlan::SendRich { segments, .. } => {
            assert!(segments.contains("快捷键文字回执"));
            assert!(!segments.contains("base64://"));
        }
        QueuePlan::SendText { content, .. } => assert!(content.contains("快捷键文字回执")),
        _ => panic!("应先发送文字"),
    }
    let image = pending
        .take_after_completion(&interceptor)
        .expect("快捷键应取到对应待发送图片");
    assert!(image_segments(&image).contains("base64://"));
}

#[test]
fn pending_images_are_bounded_and_evict_the_oldest() {
    let mut pending = PendingImages::new();
    let document = direct_document();
    for index in 0..=MAX_PENDING_QQ_INLINE_IMAGES {
        pending.stage_command_image(
            &command_request("GROUP_AT_MESSAGE_CREATE", &format!("message-{index}")),
            &document,
            &IllustrationConfig::default(),
        );
    }
    assert_eq!(pending.pending_image_count(), MAX_PENDING_QQ_INLINE_IMAGES);
    assert!(pending
        .take_after_completion(&interceptor_request("GROUP_AT_MESSAGE_CREATE", "message-0"))
        .is_none());
    assert!(pending
        .take_after_completion(&interceptor_request(
            "GROUP_AT_MESSAGE_CREATE",
            &format!("message-{MAX_PENDING_QQ_INLINE_IMAGES}")
        ))
        .is_some());
    pending.clear_pending_images();
    assert_eq!(pending.pending_image_count(), 0);
}

#[test]
fn denied_allowlist_request_never_executes_economic_operation() {
    let executed = Cell::new(false);
    let (result, denied) = execute_service_operation(Err(text("未授权")), || {
        executed.set(true);
        Ok(GameDocument::new("签到"))
    });
    assert!(denied);
    assert!(result.is_err());
    assert!(!executed.get());
    let (result, denied) = execute_service_operation(Ok(()), || {
        executed.set(true);
        Ok(GameDocument::new("签到"))
    });
    assert!(!denied && result.is_ok() && executed.get());
}

#[test]
fn management_server_reload_failure_restores_the_previous_listener() {
    assert_eq!(
        replace_server(Ok(()), None),
        (ServerSlot::Replacement, None)
    );
    assert_eq!(
        replace_server(Err(text("端口无效")), Some(Ok(()))),
        (ServerSlot::Previous, Some(text("端口无效")))
    );
    assert_eq!(
        replace_server(Err(text("端口无效")), Some(Err(text("已占用")))),
        (
            ServerSlot::Empty,
            Some(text(
                "管理服务新配置启动失败：端口无效；恢复旧服务失败：已占用"
            ))
        )
    );
    assert_eq!(
        replace_server(Err(text("端口无效")), None),
        (ServerSlot::Previous, Some(text("端口无效")))
    );
}

#[test]
fn starts_need_a_directory_and_a_sound_package() {
    assert_eq!(data_directory(" /data "), Ok(text("/data")));
    assert!(data_directory("  ").is_err());
    assert_eq!(draft_verdict(&Vec::new(), true), Ok(true));
    assert_eq!(draft_verdict(&Vec::new(), false), Ok(false));
    assert_eq!(
        draft_verdict(&vec![text("甲"), text("乙")], true),
        Err(text("内容包校验失败：甲；乙"))
    );
}

#[test]
fn aliases_are_split_from_their_arguments() {
    assert_eq!(
        parse_player_alias_message("  查询  第一 页 "),
        Some((text("查询"), text("第一 页")))
    );
    assert_eq!(
        parse_player_alias_message("查询"),
        Some((text("查询"), String::new()))
    );
    assert_eq!(parse_player_alias_message("   "), None);
    assert_eq!(parse_player_alias_message("查\u{7}询"), None);
    let request = interceptor_request("GROUP_AT_MESSAGE_CREATE", "m");
    let command = command_request_from_interceptor(&request, "状态", "2");
    assert_eq!(command.command_name, "状态");
    assert_eq!(command.args, "2");
    assert_eq!(command.raw_event_json, request.raw_event_json);
}

#[test]
fn aliases_lead_to_known_commands() {
    let route = dispatch_player_alias_command("状态").expect("状态可展开");
    assert_eq!(route.action, GameAction::Status);
    assert!(dispatch_player_alias_command("旧档认领").is_none());
    for (name, action, audit_success) in [
        ("决斗", GameAction::Duel, false),
        ("决斗状态", GameAction::DuelStatus, true),
        ("接受决斗", GameAction::AcceptDuel, false),
        ("取消决斗", GameAction::CancelDuel, false),
    ] {
        let route = dispatch_player_alias_command(name).expect("决斗可展开");
        assert_eq!(route.action, action);
        assert_eq!(route.audit_success, audit_success);
        assert!(route.require_authorized_context);
    }
}

#[test]
fn registered_commands_have_their_own_routes() {
    let flags = |name: &str| {
        dispatch_command(name).map(|route| (route.audit_success, route.require_authorized_context))
    };
    assert_eq!(flags("状态"), Some((true, true)));
    assert_eq!(flags("决斗"), Some((false, true)));
    assert_eq!(flags("决斗状态"), Some((true, true)));
    assert_eq!(flags("接受决斗"), Some((false, true)));
    assert_eq!(flags("取消决斗"), Some((false, true)));
    assert_eq!(flags("设置快捷键"), Some((false, true)));
    assert_eq!(flags("快捷键列表"), Some((true, true)));
    assert_eq!(flags("查看快捷键"), Some((true, true)));
    assert_eq!(flags("删除快捷键"), Some((false, true)));
    assert_eq!(flags("旧档检查"), Some((true, false)));
    assert_eq!(flags("旧档认领"), Some((false, false)));
    assert_eq!(flags("授权上下文"), Some((false, false)));
    assert_eq!(flags("取消授权"), Some((false, false)));
    assert_eq!(flags("查看授权"), Some((true, false)));
    assert_eq!(flags("不存在"), None);
    let operation = dispatch_command("状态").map(|route| route.operation);
    assert_eq!(operation, Some(Operation::Game(GameAction::Status)));
}

#[test]
fn replies_go_back_to_where_the_message_came_from() {
    let reply = |event_type: &str| {
        queue_interceptor_response(
            &interceptor_request(event_type, "m"),
            &CommandResponse::Text(text("文字")),
        )
    };
    let target = |plan: QueuePlan| match plan {
        QueuePlan::SendRich { target, .. } => target,
        QueuePlan::SendText { target, .. } => target,
        _ => panic!("应发送"),
    };
    assert_eq!(
        target(reply("GROUP_AT_MESSAGE_CREATE")),
        InterceptorReplyTarget::Group(text("group-openid"))
    );
    assert_eq!(
        target(reply("AT_MESSAGE_CREATE")),
        InterceptorReplyTarget::Channel(text("channel-id"))
    );
    assert!(matches!(
        reply("AT_MESSAGE_CREATE"),
        QueuePlan::SendText { .. }
    ));
    assert!(matches!(
        reply("GROUP_AT_MESSAGE_CREATE"),
        QueuePlan::SendRich { .. }
    ));
    assert!(matches!(
        queue_interceptor_response(
            &interceptor_request("GROUP_AT_MESSAGE_CREATE", "m"),
            &CommandResponse::Ignore
        ),
        QueuePlan::Done
    ));
    assert_eq!(
        interceptor_response_text(&CommandResponse::Text(text("文字"))),
        Some(text("文字"))
    );
}

#[test]
fn outcomes_are_logged_by_how_they_ended() {
    assert_eq!(with_service(true, false, true).outcome, "denied");
    assert_eq!(with_service(false, true, true).outcome, "ok");
    assert_eq!(with_service(false, false, true).outcome, "error");
    let shown = service_document(Err(text("失败")));
    assert!(douluo_game::message::render_text(&shown).contains("失败"));
    assert!(valid_id("openid"));
    assert!(!valid_id(""));
}
