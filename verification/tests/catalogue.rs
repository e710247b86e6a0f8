//! Aliases, built-in pictures and the directory that they are read from.
use douluo_game::alias::{
    is_player_alias_target, validate_player_alias_name, validate_player_alias_target,
};
use douluo_game::assets::{
    accept_picture, allowed_extension, check_root, extension_matches_magic, load_one,
    readable_picture, steps_contain_symlink, IllustrationAssets, PathStep, PictureFile,
    RootStatus,
};
use douluo_game::catalog::{
    asset_keys, binding, bindings, validate_embedded_manifest, validate_manifest, ManifestFile,
};
use douluo_game::config::{IllustrationConfig, IllustrationMode};

const WEBP: &[u8] = b"RIFF\x04\x00\x00\x00WEBP";
const COVER: &str = "maps/holy-soul-village/cover.webp";

#[test]
fn only_normal_game_commands_can_be_alias_targets() {
    assert!(is_player_alias_target("状态"));
    assert!(is_player_alias_target("释放技能"));
    assert!(is_player_alias_target("数值曲线"));
    assert!(!is_player_alias_target("旧档认领"));
    assert!(is_player_alias_target("\u{50a8}\u{7269}\u{5668}"));
    assert!(is_player_alias_target(
        "\u{67e5}\u{770b}\u{50a8}\u{7269}\u{5668}"
    ));
    assert!(!is_player_alias_target("plugins"));
}

#[test]
fn reserved_command_keys_cannot_be_reused_as_player_aliases() {
    assert!(validate_player_alias_name("状态").is_err());
    assert!(validate_player_alias_name("设置快捷键").is_err());
    assert!(validate_player_alias_name("\u{50a8}\u{7269}\u{5668}").is_err());
    assert!(validate_player_alias_name("\u{6253}\u{5f00}\u{50a8}\u{7269}\u{5668}").is_err());
    assert!(validate_player_alias_name("plugins").is_err());
    assert!(validate_player_alias_name("查询状态").is_ok());
}

#[test]
fn alias_names_and_targets_are_refused_with_a_reason() {
    assert!(validate_player_alias_target("状态").is_ok());
    assert_eq!(
        validate_player_alias_target("旧档认领"),
        Err(
            "原指令必须是可执行的游戏主命令，不能指向管理命令、宿主命令或其他快捷键".to_string()
        )
    );
    assert_eq!(
        validate_player_alias_name("状态"),
        Err("快捷键不能与已注册的斗罗命令或别名重名".to_string())
    );
    assert_eq!(
        validate_player_alias_name("plugins"),
        Err("快捷键不能覆盖 QimenBot 管理或帮助命令".to_string())
    );
}

fn directory() -> RootStatus {
    RootStatus {
        exists: Some(true),
        is_symlink: Some(false),
        data_dir_resolved: true,
        root_resolved: true,
        inside_data_dir: true,
        is_directory: Some(true),
    }
}

fn missing_directory() -> RootStatus {
    RootStatus {
        exists: Some(false),
        ..directory()
    }
}

fn whole_file(bytes: &[u8]) -> PictureFile {
    PictureFile {
        steps: vec![PathStep::Plain],
        inside_root: true,
        still_there: true,
        is_file: true,
        size: bytes.len() as u64,
        bytes: bytes.to_vec(),
        size_after: Some(bytes.len() as u64),
    }
}

/// What reading a directory of files gives for each key of the catalogue.
fn read(files: &[(&str, &[u8])]) -> Vec<Option<PictureFile>> {
    asset_keys()
        .iter()
        .map(|key| {
            files
                .iter()
                .find(|(path, _)| path == key)
                .map(|(_, bytes)| whole_file(bytes))
        })
        .collect()
}

fn load(config: &IllustrationConfig, root: RootStatus, files: &[(&str, &[u8])]) -> IllustrationAssets {
    IllustrationAssets::load(config, &root, read(files)).expect("应在上限内")
}

#[test]
fn loads_only_manifest_assets_with_matching_magic() {
    let assets = load(
        &IllustrationConfig::default(),
        directory(),
        &[
            (COVER, WEBP),
            ("unknown.webp", WEBP),
            ("maps/holy-soul-village/wrong.png", b"not an image"),
        ],
    );
    assert_eq!(assets.len(), 1);
    assert_eq!(assets.get(COVER), Some(WEBP));
    let debug = assets.describe();
    assert!(debug.contains("entry_count"));
    assert!(!debug.contains("RIFF"));
    assert_eq!(
        debug,
        "IllustrationAssets { entry_count: 1, total_bytes: 12 }"
    );
}

#[test]
fn missing_or_remote_root_degrades_to_empty_snapshot() {
    let missing = load(
        &IllustrationConfig::default(),
        missing_directory(),
        &[(COVER, WEBP)],
    );
    assert_eq!(missing.len(), 0);

    let remote = IllustrationConfig {
        mode: IllustrationMode::Remote,
        remote_base_url: "https://media.example.com".to_string(),
        ..IllustrationConfig::default()
    };
    let assets = load(&remote, directory(), &[(COVER, WEBP)]);
    assert_eq!(assets.len(), 0);
}

#[test]
fn supported_extensions_must_match_their_magic() {
    let cases: [(&str, &[u8]); 6] = [
        ("png", b"\x89PNG\r\n\x1a\n"),
        ("jpg", b"\xff\xd8\xff"),
        ("jpeg", b"\xff\xd8\xff"),
        ("webp", b"RIFF\x04\x00\x00\x00WEBP"),
        ("gif", b"GIF89a"),
        ("bmp", b"BM"),
    ];

    for (extension, bytes) in cases {
        assert!(
            extension_matches_magic(extension, bytes),
            "{extension} 签名应被接受"
        );
    }
    assert!(!extension_matches_magic("png", b"RIFF\x04\x00\x00\x00WEBP"));
    assert!(!extension_matches_magic("svg", b"<svg></svg>"));
}

#[test]
fn skips_symlinked_manifest_files() {
    assert!(steps_contain_symlink(&vec![
        PathStep::Plain,
        PathStep::Plain,
        PathStep::Link
    ]));
    assert!(!steps_contain_symlink(&vec![
        PathStep::Plain,
        PathStep::Missing,
        PathStep::Link
    ]));
    assert!(steps_contain_symlink(&vec![PathStep::Special]));
    assert!(!steps_contain_symlink(&vec![PathStep::Plain]));
    let mut files = read(&[(COVER, WEBP)]);
    for file in files.iter_mut().flatten() {
        file.steps = vec![PathStep::Plain, PathStep::Plain, PathStep::Link];
    }
    let assets = IllustrationAssets::load(&IllustrationConfig::default(), &directory(), files)
        .expect("应跳过链接");
    assert_eq!(assets.len(), 0);
}

#[test]
fn embedded_manifest_has_expected_shape() {
    validate_embedded_manifest().expect("公开 manifest 应有效");
    assert_eq!(asset_keys().len(), 19);
    let holy_soul = binding("map", "圣魂村", "cover").expect("应有圣魂村绑定");
    assert_eq!(holy_soul.asset_key, "maps/holy-soul-village/cover.webp");
    assert_eq!(
        (holy_soul.display.width, holy_soul.display.height),
        (640, 360)
    );
    assert!(holy_soul.direct_url.is_none());
}

#[test]
fn embedded_manifest_keeps_category_counts_and_unique_keys() {
    let list = bindings().expect("内嵌绑定应有效");
    let count = |kind: &str| list.iter().filter(|entry| entry.entity_type == kind).count();
    assert_eq!(count("map"), 5);
    assert_eq!(count("wuhun"), 5);
    assert_eq!(count("soul_beast"), 2);
    assert_eq!(count("soul_ring"), 7);
    let mut keys: Vec<&str> = list.iter().map(|entry| entry.asset_key.as_str()).collect();
    keys.sort();
    keys.dedup();
    assert_eq!(keys.len(), 19);
}

#[test]
fn a_changed_manifest_is_refused() {
    let list = bindings().expect("内嵌绑定应有效");
    let manifest = |bindings| ManifestFile {
        schema_version: 1,
        bindings,
    };
    assert!(validate_manifest(&manifest(list.clone())).is_ok());
    let mut twice = list.clone();
    twice[1] = twice[0].clone();
    assert!(validate_manifest(&manifest(twice)).is_err());
    let mut fewer = list.clone();
    fewer.pop();
    assert!(validate_manifest(&manifest(fewer)).is_err());
    let mut unsafe_key = list.clone();
    unsafe_key[0].asset_key = "../cover.webp".to_string();
    assert!(validate_manifest(&manifest(unsafe_key)).is_err());
    assert!(validate_manifest(&ManifestFile {
        schema_version: 2,
        bindings: list,
    })
    .is_err());
}

#[test]
fn picture_names_have_known_extensions() {
    assert_eq!(allowed_extension("cover.WEBP").as_deref(), Some("webp"));
    assert_eq!(allowed_extension("archive.tar.gz"), None);
    assert_eq!(allowed_extension(".png"), None);
    assert_eq!(allowed_extension("png"), None);
}

#[test]
fn pictures_that_change_or_lie_are_not_taken() {
    let size = WEBP.len() as u64;
    assert!(accept_picture(COVER, size, WEBP, Some(size)));
    assert!(!accept_picture(COVER, size, WEBP, Some(size + 1)));
    assert!(!accept_picture(COVER, size, WEBP, None));
    assert!(!accept_picture(COVER, size, b"not an image", Some(size)));
    assert!(!readable_picture(false, size));
    assert!(!readable_picture(true, 0));
    assert!(check_root(&missing_directory()) == Ok(false));
}

#[test]
fn roots_that_lead_elsewhere_are_refused() {
    assert_eq!(check_root(&directory()), Ok(true));
    let refused = |status: RootStatus| check_root(&status).expect_err("应被拒绝");
    assert_eq!(
        refused(RootStatus {
            is_symlink: Some(true),
            ..directory()
        }),
        "本地插图根目录不能是符号链接"
    );
    assert_eq!(
        refused(RootStatus {
            data_dir_resolved: false,
            ..directory()
        }),
        "QimenBot data_dir 无法访问，不能加载本地插图"
    );
    assert_eq!(
        refused(RootStatus {
            inside_data_dir: false,
            ..directory()
        }),
        "本地插图根目录不能离开 data_dir"
    );
    assert_eq!(
        refused(RootStatus {
            is_directory: Some(false),
            ..directory()
        }),
        "本地插图根目录必须是目录"
    );
    assert_eq!(
        refused(RootStatus {
            exists: None,
            ..directory()
        }),
        "本地插图根目录无法访问"
    );
}

#[test]
fn too_many_pictures_are_refused() {
    let mut assets = IllustrationAssets::default();
    for i in 0..256 {
        assets = assets
            .with(&format!("maps/{i}.webp"), WEBP.to_vec())
            .expect("应在上限内");
    }
    assert_eq!(assets.len(), 256);
    assert_eq!(assets.total_bytes(), 256 * 12);
    assert!(assets.with("maps/more.webp", WEBP.to_vec()).is_err());
}

#[test]
fn files_that_are_not_as_they_should_be_are_passed_over() {
    assert!(load_one(COVER, &whole_file(WEBP)));
    let refused = |change: &dyn Fn(&mut PictureFile)| {
        let mut file = whole_file(WEBP);
        change(&mut file);
        assert!(!load_one(COVER, &file));
    };
    refused(&|file| file.inside_root = false);
    refused(&|file| file.still_there = false);
    refused(&|file| file.is_file = false);
    refused(&|file| file.size = 13);
    refused(&|file| file.size_after = Some(13));
    refused(&|file| file.size_after = None);
    refused(&|file| file.bytes = b"not an image".to_vec());
}

#[test]
fn loaded_pictures_stay_readable_in_copies() {
    let assets = load(&IllustrationConfig::default(), directory(), &[(COVER, WEBP)]);
    let copy = assets.clone();
    drop(assets);
    assert_eq!(copy.len(), 1);
    assert_eq!(copy.get(COVER), Some(WEBP));
    assert_eq!(copy.total_bytes(), 12);
    assert_eq!(copy.get("unknown.webp"), None);
}

#[test]
fn roots_and_sizes_decide_whether_pictures_are_loaded() {
    let linked = RootStatus {
        is_symlink: Some(true),
        ..directory()
    };
    let refused = IllustrationAssets::load(&IllustrationConfig::default(), &linked, Vec::new());
    assert_eq!(
        refused.map(|_| ()),
        Err("本地插图根目录不能是符号链接".to_string())
    );
    let mut bytes = vec![0_u8; 4 * 1024 * 1024];
    bytes[..12].copy_from_slice(WEBP);
    let load_some = |count: usize| {
        let files = (0..count).map(|_| Some(whole_file(&bytes))).collect();
        IllustrationAssets::load(&IllustrationConfig::default(), &directory(), files)
            .map(|assets| assets.total_bytes())
    };
    assert_eq!(load_some(16), Ok(64 * 1024 * 1024));
    assert_eq!(
        load_some(17),
        Err("本地插图最多 256 个且总大小不能超过 64 MiB".to_string())
    );
}

#[test]
fn names_of_commands_are_no_shortcuts() {
    for name in ["排行榜", "排行", "排名", "放弃复活", "放弃重生", "重生", "决斗"] {
        assert_eq!(
            validate_player_alias_name(name),
            Err("快捷键不能与已注册的斗罗命令或别名重名".to_string())
        );
    }
}
