//! What commands read out of their arguments, and the calendar of check-ins.
use douluo_game::checkin::{
    checkin_cycle_day, checkin_exp_reward, game_day_from_timestamp, CHECKIN_CURRENCY_CODE,
    CHECKIN_CURRENCY_NAME, SECONDS_PER_DAY,
};
use douluo_game::game_args::{
    parse_command_target_subject_id, parse_context_cursor, parse_direction_arg, parse_gift_args,
    parse_grant_context_args, parse_ground_drop_id, parse_item_quantity, parse_legacy_claim_args,
    parse_legacy_inspect_args, parse_map_page, parse_optional_log_limit, parse_optional_map_name,
    parse_optional_quest_name, parse_positive_transfer_amount, parse_registration_args,
    parse_required_catalog_name, parse_revoke_context_args, parse_shop_args, parse_single_page,
    parse_transfer_args, split_first_argument, validate_context_kind_for_protocol,
};
use douluo_game::menu::{menu_document, menu_pages, parse_menu_page};
use douluo_game::message::{render_text, Protocol};

fn text(value: &str) -> String {
    value.to_string()
}

#[test]
fn accepts_space_and_legacy_hyphen_arguments() {
    assert_eq!(
        parse_registration_args("唐小三 男", true),
        Ok((text("唐小三"), text("男")))
    );
    assert_eq!(
        parse_registration_args("唐-小三-男", true),
        Ok((text("唐-小三"), text("男")))
    );
    assert!(parse_registration_args("唐小三-男", false).is_err());
}

#[test]
fn legacy_claim_arguments_require_explicit_account_confirmation() {
    assert_eq!(
        parse_legacy_inspect_args("legacy-user"),
        Ok(text("legacy-user"))
    );
    assert!(parse_legacy_inspect_args("").is_err());
    assert!(parse_legacy_inspect_args("user extra").is_err());

    assert_eq!(
        parse_legacy_claim_args("legacy-user 10001 确认"),
        Ok((text("legacy-user"), text("10001")))
    );
    for invalid in [
        "legacy-user 10001",
        "legacy-user 10001 取消",
        "legacy-user 10001 确认 extra",
    ] {
        assert!(parse_legacy_claim_args(invalid).is_err());
    }
}

#[test]
fn authorized_context_arguments_keep_legacy_group_shape_but_require_revoke_confirmation() {
    assert_eq!(
        parse_grant_context_args("746339543"),
        Ok((text("group"), text("746339543"), String::new()))
    );
    assert_eq!(
        parse_grant_context_args("channel channel-1 史莱克学院"),
        Ok((text("channel"), text("channel-1"), text("史莱克学院")))
    );
    assert_eq!(
        parse_revoke_context_args("group 746339543 确认"),
        Ok((text("group"), text("746339543")))
    );
    assert!(parse_revoke_context_args("group 746339543").is_err());
    assert_eq!(parse_context_cursor(""), Ok(None));
    assert_eq!(parse_context_cursor("12"), Ok(Some(12)));
    assert!(parse_context_cursor("-1").is_err());
}

#[test]
fn map_command_arguments_are_bounded_and_directional() {
    assert_eq!(parse_map_page(""), Ok(1));
    assert_eq!(parse_map_page("2"), Ok(2));
    assert!(parse_map_page("0").is_err());
    assert!(parse_map_page("1 extra").is_err());
    assert_eq!(parse_direction_arg("上"), Ok(text("上")));
    assert_eq!(parse_direction_arg("东"), Ok(text("东")));
    assert!(parse_direction_arg("").is_err());
    assert!(parse_direction_arg("前").is_err());
    assert!(parse_direction_arg("上 下").is_err());
    assert_eq!(parse_optional_map_name(""), Ok(None));
    assert_eq!(parse_optional_map_name("圣魂村"), Ok(Some(text("圣魂村"))));
    assert!(parse_optional_map_name("圣魂村 多余").is_err());
}

#[test]
fn checkin_rewards_use_beijing_four_oclock_game_day_and_legacy_formula() {
    assert_eq!(game_day_from_timestamp(0), Ok(0));
    assert_eq!(game_day_from_timestamp(19 * 3_600 + 59 * 60 + 59), Ok(0));
    assert_eq!(game_day_from_timestamp(20 * 3_600), Ok(1));
    assert_eq!(game_day_from_timestamp(20 * 3_600 + SECONDS_PER_DAY), Ok(2));

    let expected = [
        (1, 1, 60),
        (2, 2, 70),
        (3, 3, 80),
        (4, 4, 90),
        (5, 5, 100),
        (6, 6, 110),
        (7, 7, 150),
        (8, 1, 60),
    ];
    for (streak, cycle, exp) in expected {
        let computed_cycle = checkin_cycle_day(streak).expect("连签轮次应有效");
        assert_eq!(computed_cycle, cycle);
        assert_eq!(checkin_exp_reward(computed_cycle), Ok(exp));
    }
    assert!(checkin_cycle_day(0).is_err());
    assert!(checkin_exp_reward(0).is_err());
    assert_eq!(CHECKIN_CURRENCY_CODE, "gold_soul_coin");
    assert_eq!(CHECKIN_CURRENCY_NAME, "金魂币");
}

#[test]
fn game_days_before_the_epoch_are_negative() {
    assert_eq!(game_day_from_timestamp(-4 * 3_600), Ok(0));
    assert_eq!(game_day_from_timestamp(-4 * 3_600 - 1), Ok(-1));
    assert!(game_day_from_timestamp(i64::MAX).is_err());
}

#[test]
fn menu_pages_only_expose_implemented_commands() {
    let pages = menu_pages();
    let first = parse_menu_page("").expect("默认菜单页应有效");
    let second = parse_menu_page("角色").expect("角色分类应有效");
    assert_eq!(first, 0);
    assert_eq!(second, 1);
    assert!(pages[first]
        .entries
        .iter()
        .any(|entry| entry.command.starts_with("开始穿越")));
    assert!(pages[second].entries.iter().any(|entry| entry.command == "状态"));
    assert!(pages[second].entries.iter().any(|entry| entry.command == "签到"));
    assert!(pages[second].entries.iter().any(|entry| entry.command == "钱包"));
    assert!(pages[second].entries.iter().any(|entry| entry.command == "技能"));
    assert_eq!(parse_menu_page("世界").expect("世界分类应有效"), 2);
    assert_eq!(parse_menu_page("经济").expect("经济分类应有效"), 3);
    assert_eq!(parse_menu_page("任务").expect("任务分类应有效"), 4);
    assert_eq!(parse_menu_page("战斗").expect("战斗分类应有效"), 5);
    assert!(parse_menu_page("7").is_err());
    assert!(parse_menu_page("角色 多余").is_err());
}

#[test]
fn every_menu_page_has_a_number_and_a_key() {
    let keys = ["开始", "角色", "世界", "经济", "任务", "战斗"];
    for (page, key) in keys.iter().enumerate() {
        assert_eq!(parse_menu_page(key), Ok(page));
        assert_eq!(parse_menu_page(&(page + 1).to_string()), Ok(page));
    }
    assert_eq!(parse_menu_page(""), Ok(0));
    for refused in ["0", "7", "角色 多余", "12"] {
        assert!(parse_menu_page(refused).is_err());
    }
    for page in 0..6 {
        let text = render_text(&menu_document(page, None));
        for number in 0..9 {
            let shown = text
                .lines()
                .any(|line| line == format!("- 斗罗系统 {number}"));
            let neighbour = number == page || number == page + 2;
            assert_eq!(shown, (1..=6).contains(&number) && neighbour);
        }
    }
}

#[test]
fn economy_command_arguments_keep_new_and_legacy_shapes() {
    assert_eq!(parse_single_page("", "背包"), Ok(1));
    assert_eq!(parse_single_page("2", "背包"), Ok(2));
    assert!(parse_single_page("0", "背包").is_err());
    assert!(parse_single_page("2 extra", "背包").is_err());
    assert_eq!(parse_ground_drop_id("42"), Ok(42));
    assert!(parse_ground_drop_id("").is_err());
    assert!(parse_ground_drop_id("0").is_err());
    assert!(parse_ground_drop_id("42 extra").is_err());

    assert_eq!(parse_shop_args(""), Ok((None, 1)));
    assert_eq!(parse_shop_args("2"), Ok((None, 2)));
    assert_eq!(
        parse_shop_args("杂货商人"),
        Ok((Some(text("杂货商人")), 1))
    );
    assert_eq!(
        parse_shop_args("杂货商人 2"),
        Ok((Some(text("杂货商人")), 2))
    );
    assert!(parse_shop_args("杂货商人 2 extra").is_err());

    assert_eq!(
        parse_item_quantity("小回复药 2", true, "购买 <物品> [数量]"),
        Ok((text("小回复药"), 2))
    );
    assert_eq!(
        parse_item_quantity("小回复药-2", true, "购买 <物品> [数量]"),
        Ok((text("小回复药"), 2))
    );
    assert_eq!(
        parse_item_quantity("小回复药-2", false, "购买 <物品> [数量]"),
        Ok((text("小回复药-2"), 1))
    );
    assert_eq!(
        parse_item_quantity("魂力 恢复药 3", true, "购买 <物品> [数量]"),
        Ok((text("魂力 恢复药"), 3))
    );
    assert!(parse_item_quantity("小回复药 0", true, "购买").is_err());
    assert!(parse_item_quantity("", true, "购买").is_err());
    assert_eq!(
        parse_required_catalog_name(" 村长 ", "对话 <NPC>"),
        Ok(text("村长"))
    );
}

#[test]
fn transfer_and_gift_arguments_preserve_string_ids_and_reject_ambiguity() {
    assert_eq!(
        parse_transfer_args("openid-with-dash 12", None, true),
        Ok((text("openid-with-dash"), 12))
    );
    assert_eq!(
        parse_transfer_args("00123-7", None, true),
        Ok((text("00123"), 7))
    );
    assert_eq!(
        parse_transfer_args("7", Some(text("member-openid")), true),
        Ok((text("member-openid"), 7))
    );
    assert!(parse_transfer_args("member-openid 7", Some(text("other")), true).is_err());
    assert!(parse_transfer_args("member-openid 0", None, true).is_err());
    assert!(parse_transfer_args("member-openid-7", None, false).is_err());

    assert_eq!(
        parse_gift_args("member-openid 小回复药 2", None, true),
        Ok((text("member-openid"), text("小回复药"), 2))
    );
    assert_eq!(
        parse_gift_args("member-openid-小回复药-2", None, true),
        Ok((text("member-openid"), text("小回复药"), 2))
    );
    assert_eq!(
        parse_gift_args("小回复药 1", Some(text("member-openid")), true),
        Ok((text("member-openid"), text("小回复药"), 1))
    );
    assert!(parse_gift_args(
        "member-openid 小回复药",
        Some(text("member-openid")),
        true
    )
    .is_err());
    assert!(parse_gift_args("member-openid-小回复药-0", None, true).is_err());
}

#[test]
fn command_target_ids_cannot_be_whitespace_or_all() {
    assert!(parse_command_target_subject_id("member openid").is_err());
    assert!(parse_command_target_subject_id("all").is_err());
    assert_eq!(
        parse_command_target_subject_id("00-member-id"),
        Ok(text("00-member-id"))
    );
}

#[test]
fn amounts_and_limits_are_positive_and_bounded() {
    assert_eq!(parse_positive_transfer_amount("12"), Ok(12));
    assert!(parse_positive_transfer_amount("0").is_err());
    assert!(parse_positive_transfer_amount("-3").is_err());
    assert!(parse_positive_transfer_amount("9223372036854775808").is_err());
    assert!(parse_optional_log_limit("").is_ok());
    assert!(parse_optional_log_limit("0").is_err());
    assert!(parse_optional_log_limit("abc").is_err());
    assert_eq!(parse_optional_quest_name(""), Ok(None));
    assert_eq!(
        parse_optional_quest_name("初入圣魂村"),
        Ok(Some(text("初入圣魂村")))
    );
    assert_eq!(
        split_first_argument("甲 乙 丙"),
        Some((text("甲"), text("乙 丙")))
    );
    assert_eq!(split_first_argument("甲"), None);
}

#[test]
fn contexts_belong_to_protocols() {
    assert!(validate_context_kind_for_protocol(Protocol::OneBot11, "group").is_ok());
    assert_eq!(
        validate_context_kind_for_protocol(Protocol::OneBot11, "channel"),
        Err(text("OneBot 11 当前只支持授权 group 上下文"))
    );
    assert!(validate_context_kind_for_protocol(Protocol::QqOfficial, "channel").is_ok());
    assert_eq!(
        validate_context_kind_for_protocol(Protocol::QqOfficial, "guild"),
        Err(text("上下文类型只能是 group 或 channel"))
    );
}
