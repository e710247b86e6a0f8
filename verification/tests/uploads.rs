//! Pictures that are handed in, and what the library takes from outside.
use douluo_game::assets::accept_picture;
use douluo_game::config::{
    parse_config, validate_public_https_url, IllustrationConfig, IllustrationMode, PluginConfig,
};
use douluo_game::direct_asset_upload::{
    accept_encoded, accept_size, after_try, check_destination, directory_names, finish_upload,
    path_contains_symlink, store_direct_asset, temporary_name, CreateOutcome,
    DirectAssetUploadError, DirectoryEvent, DirectoryState, FoundEntry, TemporaryStep, UploadStep,
    MAX_DIRECT_ASSET_WIDTH,
};
use douluo_game::text::{control, split_whitespace, trim, white_space};
use image::{DynamicImage, GenericImageView, ImageFormat, ImageReader, Rgba, RgbaImage};
use std::io::Cursor;

const ASSET_KEY: &str = "maps/holy-soul-village/cover.webp";

fn picture(width: u32, height: u32, format: ImageFormat) -> Vec<u8> {
    let image =
        DynamicImage::ImageRgba8(RgbaImage::from_pixel(width, height, Rgba([4, 8, 15, 255])));
    let image = if format == ImageFormat::Jpeg {
        DynamicImage::ImageRgb8(image.to_rgb8())
    } else {
        image
    };
    let mut bytes = Vec::new();
    image
        .write_to(&mut Cursor::new(&mut bytes), format)
        .expect("测试图片应编码");
    bytes
}

fn png(width: u32, height: u32) -> Vec<u8> {
    picture(width, height, ImageFormat::Png)
}

fn decoded(bytes: &[u8]) -> DynamicImage {
    ImageReader::new(Cursor::new(bytes))
        .with_guessed_format()
        .expect("应识别 WebP")
        .decode()
        .expect("WebP 应可解码")
}

#[test]
fn stores_a_known_direct_asset_as_normalized_webp() {
    let upload = store_direct_asset(&IllustrationConfig::default(), ASSET_KEY, &png(2, 3))
        .expect("已知资源应写入");
    assert_eq!(upload.receipt.asset_key, ASSET_KEY);
    assert_eq!(upload.receipt.mime_type, "image/webp");
    assert_eq!((upload.receipt.width, upload.receipt.height), (2, 3));

    assert!(upload.bytes.starts_with(b"RIFF"));
    assert_eq!(&upload.bytes[8..12], b"WEBP");
    assert_eq!(upload.bytes.len(), upload.receipt.byte_size);
}

#[test]
fn a_decoded_picture_becomes_an_upload() {
    let direct = IllustrationConfig::default();
    let picture = || Ok((vec![1, 2, 3], 4, 5));
    let upload = finish_upload(&direct, ASSET_KEY, picture()).expect("应生成上传");
    assert_eq!(upload.bytes, vec![1, 2, 3]);
    assert_eq!(upload.receipt.asset_key, ASSET_KEY);
    assert_eq!(upload.receipt.byte_size, 3);
    assert_eq!((upload.receipt.width, upload.receipt.height), (4, 5));
    assert_eq!(upload.receipt.mime_type, "image/webp");
    assert_eq!(
        finish_upload(&direct, ASSET_KEY, Err(DirectAssetUploadError::InvalidImage)).err(),
        Some(DirectAssetUploadError::InvalidImage)
    );
    let remote = IllustrationConfig {
        mode: IllustrationMode::Remote,
        ..IllustrationConfig::default()
    };
    assert_eq!(
        finish_upload(&remote, ASSET_KEY, picture()).err(),
        Some(DirectAssetUploadError::DirectModeUnavailable)
    );
}

#[test]
fn replaces_the_current_direct_asset_without_creating_history() {
    store_direct_asset(&IllustrationConfig::default(), ASSET_KEY, &png(1, 1))
        .expect("首个资源应写入");
    let upload = store_direct_asset(&IllustrationConfig::default(), ASSET_KEY, &png(3, 2))
        .expect("同一资源应替换");
    assert_eq!((upload.receipt.width, upload.receipt.height), (3, 2));
    assert_eq!(decoded(&upload.bytes).dimensions(), (3, 2));
    assert_eq!(
        check_destination(&vec![UploadStep::Plain], FoundEntry::File),
        Ok(())
    );
}

#[test]
fn rejects_unknown_assets_disabled_mode_and_invalid_images() {
    let refuse = |config: &IllustrationConfig, key: &str, input: &[u8]| {
        store_direct_asset(config, key, input).expect_err("应被拒绝")
    };
    assert_eq!(
        refuse(
            &IllustrationConfig::default(),
            "maps/unknown/cover.webp",
            &png(1, 1)
        ),
        DirectAssetUploadError::InvalidAsset
    );
    let disabled = IllustrationConfig {
        enabled: false,
        ..IllustrationConfig::default()
    };
    assert_eq!(
        refuse(&disabled, ASSET_KEY, &png(1, 1)),
        DirectAssetUploadError::DirectModeUnavailable
    );
    let remote = IllustrationConfig {
        mode: IllustrationMode::Remote,
        remote_base_url: "https://media.example.com".to_string(),
        ..IllustrationConfig::default()
    };
    assert_eq!(
        refuse(&remote, ASSET_KEY, &png(1, 1)),
        DirectAssetUploadError::DirectModeUnavailable
    );
    assert_eq!(
        refuse(&IllustrationConfig::default(), ASSET_KEY, b"not an image"),
        DirectAssetUploadError::InvalidImage
    );
    assert_eq!(
        refuse(&IllustrationConfig::default(), ASSET_KEY, b""),
        DirectAssetUploadError::InvalidImage
    );
}

#[test]
fn rejects_images_beyond_the_direct_pixel_limit() {
    assert_eq!(
        store_direct_asset(
            &IllustrationConfig::default(),
            ASSET_KEY,
            &png(MAX_DIRECT_ASSET_WIDTH + 1, 1),
        ),
        Err(DirectAssetUploadError::InvalidImage)
    );
}

#[test]
fn every_kind_of_picture_is_written_as_webp() {
    for format in [
        ImageFormat::Png,
        ImageFormat::Jpeg,
        ImageFormat::WebP,
        ImageFormat::Bmp,
    ] {
        let upload = store_direct_asset(
            &IllustrationConfig::default(),
            ASSET_KEY,
            &picture(5, 4, format),
        )
        .expect("应写入");
        assert_eq!((upload.receipt.width, upload.receipt.height), (5, 4));
        assert_eq!(decoded(&upload.bytes).dimensions(), (5, 4));
    }
    assert_eq!(
        store_direct_asset(&IllustrationConfig::default(), ASSET_KEY, b"GIF89a"),
        Err(DirectAssetUploadError::InvalidImage)
    );
    let broken = &png(5, 4)[..20];
    assert_eq!(
        store_direct_asset(&IllustrationConfig::default(), ASSET_KEY, broken),
        Err(DirectAssetUploadError::InvalidImage)
    );
}

#[test]
fn sizes_and_encodings_have_to_agree() {
    assert_eq!(accept_size(Some((4096, 4096))), Ok((4096, 4096)));
    assert_eq!(
        accept_size(Some((4097, 4096))),
        Err(DirectAssetUploadError::InvalidImage)
    );
    assert_eq!(
        accept_size(Some((0, 1))),
        Err(DirectAssetUploadError::InvalidImage)
    );
    assert_eq!(
        accept_size(None),
        Err(DirectAssetUploadError::InvalidImage)
    );
    assert_eq!(
        accept_encoded((2, 3), Some((vec![1], 2, 3))),
        Ok((vec![1], 2, 3))
    );
    for encoded in [
        None,
        Some((Vec::new(), 2, 3)),
        Some((vec![1], 3, 2)),
        Some((vec![0; 8_388_609], 2, 3)),
    ] {
        assert_eq!(
            accept_encoded((2, 3), encoded),
            Err(DirectAssetUploadError::InvalidImage)
        );
    }
}

fn enter(events: &[DirectoryEvent]) -> DirectoryState {
    events
        .iter()
        .fold(DirectoryState::Look, |state, event| state.advance(*event))
}

#[test]
fn refuses_a_symlinked_asset_directory_before_creating_any_external_path() {
    assert_eq!(
        enter(&[DirectoryEvent::Found(FoundEntry::Other)]),
        DirectoryState::Refused
    );
    assert_eq!(
        path_contains_symlink(&vec![UploadStep::Plain, UploadStep::Link]),
        Ok(true)
    );
    assert_eq!(
        check_destination(
            &vec![UploadStep::Plain, UploadStep::Link],
            FoundEntry::Missing
        ),
        Err(DirectAssetUploadError::StorageUnavailable)
    );
}

#[test]
fn refuses_a_symlinked_direct_root_before_creating_any_external_path() {
    assert_eq!(
        enter(&[
            DirectoryEvent::Found(FoundEntry::Missing),
            DirectoryEvent::Created(CreateOutcome::AlreadyThere),
            DirectoryEvent::Found(FoundEntry::Other),
        ]),
        DirectoryState::Refused
    );
    assert_eq!(
        enter(&[
            DirectoryEvent::Found(FoundEntry::Directory),
            DirectoryEvent::Resolved(false),
        ]),
        DirectoryState::Refused
    );
}

#[test]
fn directories_are_entered_or_made() {
    assert_eq!(
        enter(&[
            DirectoryEvent::Found(FoundEntry::Directory),
            DirectoryEvent::Resolved(true),
        ]),
        DirectoryState::Entered
    );
    assert_eq!(
        enter(&[
            DirectoryEvent::Found(FoundEntry::Missing),
            DirectoryEvent::Created(CreateOutcome::Made),
            DirectoryEvent::Found(FoundEntry::Directory),
            DirectoryEvent::Resolved(true),
        ]),
        DirectoryState::Entered
    );
    assert_eq!(
        enter(&[
            DirectoryEvent::Found(FoundEntry::Missing),
            DirectoryEvent::Created(CreateOutcome::Failed),
        ]),
        DirectoryState::Refused
    );
    assert_eq!(
        directory_names("a/./b//c/"),
        Ok(vec!["a".to_string(), "b".to_string(), "c".to_string()])
    );
    assert_eq!(directory_names(""), Ok(Vec::new()));
    for elsewhere in ["../a", "a/..", "./a", "/a"] {
        assert_eq!(
            directory_names(elsewhere),
            Err(DirectAssetUploadError::InvalidAsset)
        );
    }
}

#[test]
fn first_files_have_names_of_their_own() {
    assert_eq!(
        temporary_name("cover.webp", &vec![0, 255, 16]),
        ".cover.webp.00ff10.upload"
    );
    assert_eq!(after_try(CreateOutcome::Made, 1), TemporaryStep::Write);
    assert_eq!(
        after_try(CreateOutcome::AlreadyThere, 7),
        TemporaryStep::TryAgain
    );
    assert_eq!(
        after_try(CreateOutcome::AlreadyThere, 8),
        TemporaryStep::Refuse
    );
    assert_eq!(after_try(CreateOutcome::Failed, 1), TemporaryStep::Refuse);
}

#[test]
fn empty_config_uses_safe_defaults() {
    let config = parse_config("", Err("不读取".to_string())).expect("默认配置应有效");
    assert_eq!(config, PluginConfig::default());
    assert!(!config.messages.onebot_markdown);
    assert!(config.messages.qq_official_markdown);
}

#[test]
fn rejects_parent_database_path() {
    let mut config = PluginConfig::default();
    config.database.relative_path = "../outside.db".to_string();
    let error = parse_config("{}", Ok(config)).expect_err("上级路径必须被拒绝");
    assert!(error.contains("安全相对路径"));
}

#[test]
fn rejects_unknown_fields() {
    let error = parse_config(
        r#"{"unknown":true}"#,
        Err("unknown field `unknown`".to_string()),
    )
    .expect_err("未知字段必须被拒绝");
    assert!(error.contains("unknown field"));
    assert!(error.starts_with("配置 JSON 无效："));
}

#[test]
fn configurations_are_refused_for_the_first_reason() {
    let refuse = |change: &dyn Fn(&mut PluginConfig)| {
        let mut config = PluginConfig::default();
        change(&mut config);
        parse_config("{}", Ok(config)).expect_err("应被拒绝")
    };
    assert!(refuse(&|c| c.database.busy_timeout_ms = 99).contains("busy_timeout_ms"));
    assert!(refuse(&|c| c.identity.namespace = "a b".to_string()).contains("namespace"));
    assert!(
        refuse(&|c| c.identity.max_character_name_chars = 21).contains("max_character_name_chars")
    );
}

#[test]
fn public_addresses_are_told_from_private_ones() {
    assert!(validate_public_https_url("https://media.example.com/a.webp", true).is_ok());
    assert!(validate_public_https_url("https://media.example.com", false).is_ok());
    for private in [
        "http://media.example.com/a",
        "https://localhost/a",
        "https://10.0.0.1/a",
        "https://93.184.216.34/a",
        "https://192.168.1.1/a",
        "https://[::1]/a",
        "https://media.example.com",
    ] {
        assert!(validate_public_https_url(private, true).is_err(), "{private}");
    }
}

#[test]
fn characters_are_white_or_control_as_they_are_everywhere() {
    for code in 0..=0x10ffff_u32 {
        if let Some(c) = char::from_u32(code) {
            assert_eq!(white_space(c), c.is_whitespace(), "{code:x}");
            assert_eq!(control(c), c.is_control(), "{code:x}");
        }
    }
}

#[test]
fn texts_are_trimmed_and_split_as_they_are_everywhere() {
    for value in ["", " ", " a b ", "\u{3000}甲\t乙\n", "a", "\u{85}x\u{a0}"] {
        assert_eq!(trim(value), value.trim());
        let words: Vec<String> = value.split_whitespace().map(|word| word.to_string()).collect();
        assert_eq!(split_whitespace(value), words);
    }
}

#[test]
fn what_is_written_is_read_again() {
    let upload = store_direct_asset(&IllustrationConfig::default(), ASSET_KEY, &png(2, 3))
        .expect("已知资源应写入");
    let size = upload.bytes.len() as u64;
    assert!(accept_picture(ASSET_KEY, size, &upload.bytes, Some(size)));
    assert!(!accept_picture(
        "maps/holy-soul-village/cover.png",
        size,
        &upload.bytes,
        Some(size)
    ));
    assert!(!accept_picture("maps/.webp", size, &upload.bytes, Some(size)));
}
