//! Documents, pictures and the answers that are made of them.
use base64::engine::general_purpose::STANDARD;
use base64::Engine;
use douluo_game::config::{IllustrationConfig, IllustrationMode, MessageConfig};
use douluo_game::host::{CommandRequest, CommandResponse};
use douluo_game::message::{
    escape_markdown,
    detect_protocol, qq_official_direct_inline_image, qq_official_inline_image_segments,
    render_markdown, render_text, response_by_protocol, response_for, GameDocument, Illustration,
    Protocol, MAX_INLINE_IMAGE_BYTES,
};
use serde_json::Value;

const PIXEL: &str = "iVBORw0KGgoAAAANSUhEUgAAAAEAAAABCAQAAAC1HAwCAAAAC0lEQVR42mNk+A8AAQUBAScY42YAAAAASUVORK5CYII=";

fn request(raw_event_json: &str) -> CommandRequest {
    CommandRequest {
        args: String::new(),
        command_name: "状态".to_string(),
        sender_id: "user-openid".to_string(),
        group_id: String::new(),
        raw_event_json: raw_event_json.to_string(),
        sender_nickname: "测试者".to_string(),
        message_id: "message-id".to_string(),
        timestamp: 0,
    }
}

fn rich(response: &CommandResponse) -> &str {
    match response {
        CommandResponse::Rich(segments) => segments,
        _ => panic!("应返回消息段"),
    }
}

fn segments(response: &CommandResponse) -> Value {
    serde_json::from_str(rich(response)).expect("消息段应为 JSON")
}

fn pixel() -> Vec<u8> {
    STANDARD.decode(PIXEL).expect("测试 PNG 应可解码")
}

fn remote() -> IllustrationConfig {
    IllustrationConfig {
        enabled: true,
        mode: IllustrationMode::Remote,
        remote_base_url: "https://media.example.com/douluo".to_string(),
        ..IllustrationConfig::default()
    }
}

#[test]
fn detects_official_event_without_numeric_id_assumptions() {
    assert_eq!(
        detect_protocol(r#"{"qqbot_payload":{"author":{"member_openid":"abc"}}}"#),
        Protocol::QqOfficial
    );
    assert_eq!(
        detect_protocol(r#"{"post_type":"message","self_id":123}"#),
        Protocol::OneBot11
    );
}

#[test]
fn markdown_escapes_player_control_characters() {
    let document = GameDocument::new("状态")
        .field("角色", "[伪造链接](https://example.com)")
        .command("状态");
    let output = render_markdown(&document, None);
    assert!(output.contains(r"\[伪造链接\]"));
    assert!(!output.contains("[伪造链接]("));
}

#[test]
fn every_character_of_markup_is_escaped_alone() {
    let shown = |value: &str| render_markdown(&GameDocument::new("题").line(value), None);
    assert_eq!(escape_markdown("a_b*"), "a\\_b\\*");
    assert_eq!(
        escape_markdown("[甲]("),
        format!("{}{}", escape_markdown("[甲"), escape_markdown("]("))
    );
    for c in "\\`*_{}[]<>#+-!|".chars() {
        assert!(shown(&format!("甲{c}乙")).contains(&format!("甲\\{c}乙")));
    }
    assert!(shown("甲.(乙)").contains("甲.(乙)"));
    assert_ne!(shown("*"), shown("\\*"));
    assert!(shown("*_").contains("\\*\\_"));
}

#[test]
fn text_renderer_keeps_legacy_command_shape() {
    let output = render_text(
        &GameDocument::new("斗罗系统")
            .line("欢迎来到斗罗大陆")
            .command("开始穿越 <角色名> <男|女>"),
    );
    assert!(output.starts_with("== 斗罗系统 =="));
    assert!(output.contains("- 开始穿越"));
}

#[test]
fn renders_official_markdown_image_with_dimensions() {
    let illustration = Illustration::https(
        "圣魂村地图",
        "https://media.example.com/maps/holy-soul-village.webp",
        640,
        360,
    )
    .expect("公网图片应有效");
    let output = render_markdown(
        &GameDocument::new("当前位置").illustration(illustration),
        Some("https://media.example.com/maps/holy-soul-village.webp"),
    );
    assert!(output.contains(
        "![圣魂村地图 #640px #360px](https://media.example.com/maps/holy-soul-village.webp)"
    ));
}

#[test]
fn rejects_unsafe_markdown_image_sources() {
    assert!(Illustration::https("地图", "http://example.com/map.png", 640, 360).is_err());
    assert!(Illustration::https("地图", "https://user@example.com/map.png", 640, 360).is_err());
    assert!(Illustration::https("地图", "https://127.0.0.1/map.png", 640, 360).is_err());
    for host in ["127.1", "2130706433", "127.0.0.1.", "[::ffff:127.0.0.1]"] {
        assert!(
            Illustration::https("地图", &format!("https://{host}/map.png"), 640, 360).is_err(),
            "非公网主机 {host} 不应通过校验"
        );
    }
    assert!(Illustration::https("地图", "https://example.com/a(b).png", 640, 360).is_err());
    assert!(Illustration::https("地图", "https://example.com/map.png", 0, 360).is_err());
    assert!(Illustration::https("地图\n伪造", "https://example.com/map.png", 640, 360).is_err());
}

#[test]
fn onebot_uses_text_and_image_segments() {
    let request = request(r#"{"post_type":"message"}"#);
    let document = GameDocument::new("当前位置").illustration(
        Illustration::https("圣魂村", "https://media.example.com/map.webp", 640, 360)
            .expect("公网图片应有效"),
    );
    let response = response_for(
        &request,
        &document,
        &MessageConfig::default(),
        &IllustrationConfig::default(),
    );
    let segments = segments(&response);
    assert_eq!(segments[0]["type"], "text");
    assert_eq!(segments[1]["type"], "image");
    assert_eq!(
        segments[1]["data"]["file"],
        "https://media.example.com/map.webp"
    );
}

#[test]
fn remote_mode_resolves_asset_key_through_configured_service() {
    let illustration =
        Illustration::remote_asset("独狼武魂", "wuhun/lone-wolf/portrait.webp", 640, 640)
            .expect("资源键应有效");
    let config = remote();
    let url = "https://media.example.com/douluo/media/wuhun/lone-wolf/portrait.webp";
    assert_eq!(
        config.remote_asset_url("wuhun/lone-wolf/portrait.webp").as_deref(),
        Some(url)
    );
    let response = response_by_protocol(
        Protocol::OneBot11,
        &GameDocument::new("武魂").illustration(illustration),
        &MessageConfig::default(),
        &config,
    );
    assert_eq!(segments(&response)[1]["data"]["file"], url);
    assert!(Illustration::remote_asset("非法", "../secret.png", 10, 10).is_err());
}

#[test]
fn onebot_sends_inline_image_as_base64_segment() {
    let image = pixel();
    let illustration =
        Illustration::inline_image_bytes("状态卡片", &image, 1, 1).expect("可信 PNG 应可内联");
    let debug = illustration.describe_source();
    assert!(debug.contains("byte_length"));
    assert!(!debug.contains("iVBOR"));

    let request = request(r#"{"post_type":"message"}"#);
    let document = GameDocument::new("角色状态")
        .line("完整文字不能丢失")
        .field("角色", "唐三")
        .command("状态")
        .illustration(illustration);
    let response = response_for(
        &request,
        &document,
        &MessageConfig::default(),
        &IllustrationConfig::default(),
    );
    let segments = segments(&response);
    assert_eq!(segments.as_array().map(Vec::len), Some(2));
    assert_eq!(segments[0]["type"], "text");
    assert!(segments[0]["data"]["text"]
        .as_str()
        .is_some_and(|text| text.contains("完整文字不能丢失")));
    assert_eq!(segments[1]["type"], "image");
    let encoded = segments[1]["data"]["file"]
        .as_str()
        .and_then(|value| value.strip_prefix("base64://"))
        .expect("OneBot 图片应使用 base64:// 来源");
    assert_eq!(STANDARD.decode(encoded).expect("Base64 应有效"), image);
}

#[test]
fn qq_official_inline_image_falls_back_to_complete_markdown_text() {
    let document = GameDocument::new("角色状态")
        .line("完整文字不能丢失")
        .field("角色", "唐三")
        .command("状态")
        .illustration(
            Illustration::inline_image_bytes("状态卡片", &pixel(), 1, 1)
                .expect("可信 PNG 应可内联"),
        );
    let request = request(r#"{"qqbot_payload":{"id":"message-id"}}"#);
    let response = response_for(
        &request,
        &document,
        &MessageConfig::default(),
        &IllustrationConfig::default(),
    );
    let segments = segments(&response);
    assert_eq!(segments.as_array().map(Vec::len), Some(1));
    assert_eq!(segments[0]["type"], "markdown");
    let content = segments[0]["data"]["content"]
        .as_str()
        .expect("Markdown 正文应存在");
    for expected in ["角色状态", "完整文字不能丢失", "唐三", "状态"] {
        assert!(content.contains(expected));
    }
    assert!(!rich(&response).contains("base64://"));
    assert!(!content.contains("!["));
}

#[test]
fn qq_official_independent_image_only_uses_direct_inline_source() {
    let inline = GameDocument::new("状态").illustration(
        Illustration::inline_image_bytes("状态卡片", b"GIF89a", 1, 1).expect("测试 GIF 应可内联"),
    );
    assert!(qq_official_direct_inline_image(&inline, &IllustrationConfig::default()).is_some());

    let https = GameDocument::new("状态").illustration(
        Illustration::https("状态卡片", "https://media.example.com/status.webp", 1, 1)
            .expect("公网图片应有效"),
    );
    assert!(qq_official_direct_inline_image(&https, &IllustrationConfig::default()).is_none());

    let remote_document = GameDocument::new("状态").illustration(
        Illustration::remote_asset("状态卡片", "cards/status.webp", 1, 1)
            .expect("远程资源键应有效"),
    );
    assert!(qq_official_direct_inline_image(&remote_document, &remote()).is_none());

    let disabled = IllustrationConfig {
        enabled: false,
        ..IllustrationConfig::default()
    };
    assert!(qq_official_direct_inline_image(&inline, &disabled).is_none());
}

#[test]
fn official_routes_never_receive_inline_base64() {
    let image = pixel();
    let routes = [
        r#"{"qqbot_payload":{"event_type":"GROUP_AT_MESSAGE_CREATE","group_openid":"group-openid"}}"#,
        r#"{"qqbot_payload":{"event_type":"C2C_MESSAGE_CREATE","openid":"user-openid"}}"#,
        r#"{"qqbot_payload":{"event_type":"AT_MESSAGE_CREATE","channel_id":"channel-id","guild_id":"guild-id"}}"#,
        r#"{"qqbot_payload":{"event_type":"DIRECT_MESSAGE_CREATE","channel_id":"dms-id","guild_id":"guild-id"}}"#,
    ];

    for raw_event_json in routes {
        let document = GameDocument::new("角色状态")
            .line("完整文字不能丢失")
            .illustration(
                Illustration::inline_image_bytes("状态卡片", &image, 1, 1)
                    .expect("可信 PNG 应可内联"),
            );
        let response = response_for(
            &request(raw_event_json),
            &document,
            &MessageConfig::default(),
            &IllustrationConfig::default(),
        );
        assert!(rich(&response).contains("完整文字不能丢失"));
        assert!(!rich(&response).contains("base64://"));
        assert_eq!(segments(&response).as_array().map(Vec::len), Some(1));
    }
}

#[test]
fn onebot_private_reply_keeps_text_before_inline_image() {
    let document = GameDocument::new("角色状态").line("私聊正文").illustration(
        Illustration::inline_image_bytes("状态卡片", b"GIF89a", 1, 1).expect("测试 GIF 应可内联"),
    );
    let response = response_for(
        &request(r#"{"post_type":"message","message_type":"private"}"#),
        &document,
        &MessageConfig::default(),
        &IllustrationConfig::default(),
    );
    let segments = segments(&response);
    assert_eq!(segments[0]["type"], "text");
    assert!(segments[0]["data"]["text"]
        .as_str()
        .is_some_and(|text| text.contains("私聊正文")));
    assert_eq!(segments[1]["type"], "image");
    assert!(segments[1]["data"]["file"]
        .as_str()
        .is_some_and(|file| file.starts_with("base64://")));
}

#[test]
fn inline_image_rejects_unknown_or_oversized_content() {
    assert!(Illustration::inline_image_bytes("伪图片", b"not an image", 1, 1).is_err());
    let mut oversized = vec![0_u8; MAX_INLINE_IMAGE_BYTES + 1];
    oversized[..8].copy_from_slice(b"\x89PNG\r\n\x1a\n");
    assert!(Illustration::inline_image_bytes("过大图片", &oversized, 1, 1).is_err());
}

#[test]
fn official_markdown_never_mixes_independent_image_segment() {
    let document = GameDocument::new("当前位置").illustration(
        Illustration::remote_asset("圣魂村", "maps/holy-soul-village.webp", 640, 360)
            .expect("资源键应有效"),
    );
    let response = response_for(
        &request(r#"{"qqbot_payload":{"id":"message-id"}}"#),
        &document,
        &MessageConfig::default(),
        &remote(),
    );
    let segments = segments(&response);
    assert_eq!(segments.as_array().map(Vec::len), Some(1));
    assert_eq!(segments[0]["type"], "markdown");
    assert!(segments[0]["data"]["content"]
        .as_str()
        .is_some_and(|content| content.contains("/media/maps/holy-soul-village.webp")));
}

#[test]
fn texts_hold_every_part_in_order() {
    let document = GameDocument::new("标题")
        .line("第一行")
        .field("等级", "10")
        .command_help("状态", "查看状态")
        .notice("提示");
    let output = render_text(&document);
    assert!(output.starts_with("== 标题 ==\n"));
    let places: Vec<usize> = ["第一行", "等级", "状态", "提示"]
        .iter()
        .map(|part| output.find(part).expect("各部分都应出现"))
        .collect();
    assert!(places.windows(2).all(|pair| pair[0] < pair[1]));
}

#[test]
fn a_picture_alone_is_one_segment() {
    let segments: Value =
        serde_json::from_str(&qq_official_inline_image_segments(b"GIF89a")).expect("应为 JSON");
    assert_eq!(segments.as_array().map(Vec::len), Some(1));
    assert_eq!(segments[0]["type"], "image");
    assert_eq!(segments[0]["data"]["file"], "base64://R0lGODlh");
}

#[test]
fn quotes_in_texts_survive_the_segments() {
    let document = GameDocument::new("引号\"与\\反斜线").line("制表\t符");
    let response = response_by_protocol(
        Protocol::QqOfficial,
        &document,
        &MessageConfig::default(),
        &IllustrationConfig::default(),
    );
    let segments = segments(&response);
    let content = segments[0]["data"]["content"].as_str().expect("应有正文");
    assert_eq!(content, render_markdown(&document, None));
}

#[test]
fn sources_are_described_without_their_contents() {
    let https = Illustration::https("图", "https://media.example.com/secret.webp", 1, 1)
        .expect("公网图片应有效");
    assert_eq!(https.describe_source(), "DirectHttps(<validated URL>)");
    let key = Illustration::remote_asset("图", "maps/a.webp", 1, 1).expect("资源键应有效");
    assert_eq!(key.describe_source(), "RemoteAsset(\"maps/a.webp\")");
    let bytes = Illustration::inline_image_bytes("图", b"GIF89a", 1, 1).expect("应可内联");
    assert_eq!(bytes.describe_source(), "InlineImage { byte_length: 6 }");
}

#[test]
fn disabled_pictures_leave_a_plain_text() {
    let disabled = IllustrationConfig {
        enabled: false,
        ..IllustrationConfig::default()
    };
    let document = GameDocument::new("标题").illustration(
        Illustration::inline_image_bytes("图", b"GIF89a", 1, 1).expect("应可内联"),
    );
    assert!(document.has_illustration());
    assert_eq!(
        response_by_protocol(
            Protocol::OneBot11,
            &document,
            &MessageConfig::default(),
            &disabled
        ),
        CommandResponse::Text("== 标题 ==".to_string())
    );
}

#[test]
fn a_picture_is_added_behind_the_text() {
    let url = "https://media.example.com/a.webp";
    let illustrations = IllustrationConfig {
        enabled: true,
        mode: IllustrationMode::Direct,
        ..IllustrationConfig::default()
    };
    let plain = GameDocument::new("状态").line("正文");
    let shown = GameDocument::new("状态")
        .line("正文")
        .illustration(Illustration::https("图", url, 640, 360).expect("公网图片应有效"));
    let messages = MessageConfig {
        onebot_markdown: true,
        ..MessageConfig::default()
    };
    let reply = |document: &GameDocument| {
        response_by_protocol(Protocol::OneBot11, document, &messages, &illustrations)
    };
    let without = rich(&reply(&plain)).to_string();
    let expected = format!(
        "{},{{\"data\":{{\"file\":\"{url}\"}},\"type\":\"image\"}}]",
        &without[..without.len() - 1]
    );
    assert_eq!(rich(&reply(&shown)), expected);
}
