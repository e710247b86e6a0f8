//! The picture service: its index, its answers and its catalogue.
use douluo_game::config::is_safe_asset_key;
use douluo_game::entry_order::reading_order;
use douluo_game::media::{
    bind_setting, check_index_root, check_settings, detect_image_mime_bytes, index_file,
    mime_for_extension, relative_asset_key, sha256_hex, AssetMeta, EntryAction, EntryFacts, Given,
    IndexWalk, MediaError, MediaIndex, Moment, PathSetting, DEFAULT_BIND, MAX_ASSET_SIZE,
};
use douluo_game::media_catalog::{
    migrate, publish_catalog, validate_published_catalog, validate_schema, Catalog, CatalogError,
    Release, VersionStatus,
};
use douluo_game::media_http::{
    find_by_hash, find_by_key, health_reply, if_modified_since_matches, if_none_match_matches,
    parse_range, read_verified_asset, ready_reply, serve_asset, ByteRange, FileRead, HttpError,
    HttpReply, RangeError, ReadAssetError, RequestHeaders, ALIAS_CACHE_CONTROL,
    HASH_CACHE_CONTROL, MAX_CONCURRENT_RESPONSES,
};

const VILLAGE: &[u8] = b"\x89PNG\r\n\x1a\n0123456789";
const WRITTEN: Moment = Moment {
    seconds: 1_700_000_000,
    nanoseconds: 5,
};

fn parts(path: &str) -> Option<Vec<String>> {
    Some(path.split('/').map(|part| part.to_string()).collect())
}

/// The index of some files.
fn build(files: &[(&str, &[u8])]) -> MediaIndex {
    let mut walk = IndexWalk::start();
    for (path, bytes) in files {
        let facts = EntryFacts {
            listed: Some((true, false)),
            inside_root: Some(true),
            target: Some((false, true, bytes.len() as u64)),
        };
        if walk.walk_directory(&facts) == EntryAction::Read {
            let name = path.rsplit('/').next().expect("名称");
            walk = walk.take_file(&parts(path), name, bytes.len() as u64, bytes, WRITTEN);
        }
    }
    walk.finish()
}

fn fixture() -> MediaIndex {
    build(&[
        ("maps/village.png", VILLAGE),
        ("ignore.txt", b"ignore"),
        ("fake.png", b"not an image"),
        ("mismatch.jpg", b"\x89PNG\r\n\x1a\n"),
        ("webp-disguised-as-jpeg.jpg", b"RIFF\x04\x00\x00\x00WEBP"),
    ])
}

fn file(bytes: &[u8]) -> FileRead {
    FileRead {
        bytes: bytes.to_vec(),
        is_file: true,
        size: bytes.len() as u64,
        modified: WRITTEN,
    }
}

fn plain() -> RequestHeaders {
    RequestHeaders {
        if_none_match: Given::Absent,
        if_modified_since: Given::Absent,
        if_range: Given::Absent,
        range: Given::Absent,
    }
}

fn given(value: &str) -> Given {
    Given::Text(value.to_string())
}

/// The answer to a request for a path, with a file on disk.
fn request(
    index: &MediaIndex,
    head: bool,
    path: &str,
    headers: &RequestHeaders,
    disk: &[u8],
) -> HttpReply {
    let by_hash = path.strip_prefix("/media/sha256/");
    let found = match by_hash {
        Some(name) => find_by_hash(index, path, name),
        None => find_by_key(index, path, path.strip_prefix("/media/").expect("路径")),
    };
    match found {
        Ok(asset) => {
            let content = read_verified_asset(asset, true, Some(file(disk)));
            serve_asset(asset, content, headers, head, by_hash.is_some())
        }
        Err(error) => error.reply(),
    }
}

fn header<'a>(reply: &'a HttpReply, name: &str) -> Option<&'a str> {
    reply
        .headers
        .iter()
        .find(|(key, _)| key.eq_ignore_ascii_case(name))
        .map(|(_, value)| value.as_str())
}

#[test]
fn serves_alias_and_sets_security_headers() {
    let reply = request(&fixture(), false, "/media/maps/village.png", &plain(), VILLAGE);
    assert_eq!(reply.status, 200);
    assert_eq!(reply.body, VILLAGE);
    assert_eq!(header(&reply, "content-type"), Some("image/png"));
    assert_eq!(header(&reply, "accept-ranges"), Some("bytes"));
    assert_eq!(header(&reply, "x-content-type-options"), Some("nosniff"));
    assert_eq!(header(&reply, "cache-control"), Some(ALIAS_CACHE_CONTROL));
    assert!(header(&reply, "etag").is_some());
    assert!(header(&reply, "last-modified").is_some());
}

#[test]
fn head_has_get_headers_without_body() {
    let index = fixture();
    let reply = request(&index, true, "/media/maps/village.png", &plain(), VILLAGE);
    assert_eq!(reply.status, 200);
    assert!(reply.body.is_empty());
    assert_eq!(header(&reply, "content-length"), Some("18"));

    let ranged = RequestHeaders {
        range: given("bytes=8-11"),
        ..plain()
    };
    let reply = request(&index, true, "/media/maps/village.png", &ranged, VILLAGE);
    assert_eq!(reply.status, 200);
    assert!(reply.body.is_empty());
    assert_eq!(header(&reply, "content-length"), Some("18"));
    assert!(header(&reply, "content-range").is_none());
}

#[test]
fn conditional_request_returns_not_modified() {
    let index = fixture();
    let etag = format!("\"{}\"", index.get("maps/village.png").expect("图片").sha256());
    let known = RequestHeaders {
        if_none_match: given(&etag),
        ..plain()
    };
    let reply = request(&index, false, "/media/maps/village.png", &known, VILLAGE);
    assert_eq!(reply.status, 304);
    assert!(reply.body.is_empty());
}

#[test]
fn serves_single_byte_range_and_rejects_invalid_range() {
    let index = fixture();
    let ranged = |range: &str, if_range: Given| {
        request(
            &index,
            false,
            "/media/maps/village.png",
            &RequestHeaders {
                range: given(range),
                if_range,
                ..plain()
            },
            VILLAGE,
        )
    };
    let reply = ranged("bytes=8-11", Given::Absent);
    assert_eq!(reply.status, 206);
    assert_eq!(reply.body, b"0123");
    assert_eq!(header(&reply, "content-range"), Some("bytes 8-11/18"));
    assert_eq!(header(&reply, "content-length"), Some("4"));

    let reply = ranged("bytes=99-", Given::Absent);
    assert_eq!(reply.status, 416);
    assert_eq!(header(&reply, "content-range"), Some("bytes */18"));
    assert_eq!(header(&reply, "cache-control"), Some("no-store"));
    assert_eq!(
        header(&reply, "content-type"),
        Some("text/plain; charset=utf-8")
    );
    assert!(!reply.body.is_empty());

    let reply = ranged("bytes=8-11", given("\"stale\""));
    assert_eq!(reply.status, 200);
    assert_eq!(header(&reply, "content-length"), Some("18"));
    assert_eq!(reply.body, VILLAGE);
}

#[test]
fn serves_content_addressed_url() {
    let index = fixture();
    let digest = sha256_hex(VILLAGE);
    let path = format!("/media/sha256/{digest}.PNG");
    let reply = request(&index, false, &path, &plain(), VILLAGE);
    assert_eq!(reply.status, 200);
    assert_eq!(reply.body, VILLAGE);
    assert_eq!(header(&reply, "cache-control"), Some(HASH_CACHE_CONTROL));
}

#[test]
fn health_ready_and_missing_paths_are_safe() {
    let reply = health_reply();
    assert_eq!(reply.status, 200);
    assert_eq!(reply.body, b"ok\n");
    assert_eq!(ready_reply(true).status, 200);
    assert_eq!(ready_reply(false).status, 503);

    let reply = request(&fixture(), false, "/media/nope.png", &plain(), VILLAGE);
    assert_eq!(reply.status, 404);
    let text = String::from_utf8(reply.body).expect("utf8");
    assert!(!text.contains("douluo"));
    assert!(!text.contains('\\'));
}

#[test]
fn rejects_traversal_and_non_image_files() {
    let index = fixture();
    let reply = request(&index, false, "/media/%2e%2e/ignore.txt", &plain(), VILLAGE);
    assert!(reply.status == 400 || reply.status == 404);
    assert!(is_safe_asset_key("maps/village.png"));
    assert!(!is_safe_asset_key("../ignore.txt"));
    assert!(!is_safe_asset_key("maps\\village.png"));
    assert!(!is_safe_asset_key("maps/./village.png"));
    assert!(!is_safe_asset_key("maps//village.png"));
    assert!(!is_safe_asset_key("maps/%2e%2e/village.png"));
    assert!(!is_safe_asset_key("地图/village.png"));
    assert!(!is_safe_asset_key("sha256/alias.png"));
    assert!(is_safe_asset_key("maps/v1..2.png"));
    assert!(!is_safe_asset_key(&format!("{}.png", "a".repeat(201))));
    assert!(index.get("ignore.txt").is_none());
    assert!(index.get("fake.png").is_none());
    assert!(index.get("mismatch.jpg").is_none());
    assert!(index.get("webp-disguised-as-jpeg.jpg").is_none());
}

#[test]
fn detects_webp_from_bytes_without_trusting_the_jpeg_extension() {
    let webp = b"RIFF\x04\x00\x00\x00WEBP";
    assert_eq!(detect_image_mime_bytes(webp), Some("image/webp"));
    assert_ne!(mime_for_extension("jpg"), detect_image_mime_bytes(webp));
}

#[test]
fn supports_if_modified_since_and_rejects_encoded_keys() {
    let index = fixture();
    let first = request(&index, false, "/media/maps/village.png", &plain(), VILLAGE);
    let last_modified = header(&first, "last-modified").expect("last modified");
    assert_eq!(last_modified, "Tue, 14 Nov 2023 22:13:20 GMT");
    let since = RequestHeaders {
        if_modified_since: given(last_modified),
        ..plain()
    };
    let reply = request(&index, false, "/media/maps/village.png", &since, VILLAGE);
    assert_eq!(reply.status, 304);
    assert!(reply.body.is_empty());
    assert_eq!(header(&reply, "content-length"), Some("18"));

    for path in ["/media/maps/%2e%2e/village.png", "/media/maps%2fvillage.png"] {
        assert_eq!(request(&index, false, path, &plain(), VILLAGE).status, 400);
    }
}

#[test]
fn skips_oversized_files_and_reserved_hash_prefix() {
    let mut bytes = vec![0_u8; (MAX_ASSET_SIZE + 1) as usize];
    bytes[..8].copy_from_slice(b"\x89PNG\r\n\x1a\n");
    let index = build(&[
        ("too-large.png", &bytes),
        ("sha256/alias.png", b"\x89PNG\r\n\x1a\n"),
    ]);
    assert!(index.is_empty());
}

#[test]
fn refuses_files_changed_after_startup_indexing() {
    let index = fixture();
    let changed = b"\x89PNG\r\n\x1a\n9876543210";
    let reply = request(&index, false, "/media/maps/village.png", &plain(), changed);
    assert_eq!(reply.status, 404);
    let path = format!("/media/sha256/{}.png", sha256_hex(VILLAGE));
    assert_eq!(request(&index, false, &path, &plain(), changed).status, 404);
}

#[test]
fn bounds_buffered_responses_and_releases_capacity_on_drop() {
    let index = fixture();
    let asset = index.get("maps/village.png").expect("图片");
    let mut held = 0;
    let serve = |held: usize| {
        let content =
            read_verified_asset(asset, held < MAX_CONCURRENT_RESPONSES, Some(file(VILLAGE)));
        serve_asset(asset, content, &plain(), false, false).status
    };
    for _ in 0..MAX_CONCURRENT_RESPONSES {
        assert_eq!(serve(held), 200);
        held += 1;
    }
    assert_eq!(serve(held), 503);
    held -= 1;
    assert_eq!(serve(held), 200);
}

fn one(bytes: &[u8]) -> MediaIndex {
    let mut whole = b"\x89PNG\r\n\x1a\n".to_vec();
    whole.extend_from_slice(bytes);
    build(&[("maps/village.png", &whole)])
}

fn empty() -> Catalog {
    Catalog {
        assets: Vec::new(),
        versions: Vec::new(),
    }
}

fn publish(index: &MediaIndex, catalog: Catalog, now: i64) -> Catalog {
    let Release { catalog, validated } =
        publish_catalog(index, catalog, now).expect("发布 catalog");
    assert_eq!(validated, Ok(()));
    catalog
}

fn versions(catalog: &Catalog) -> Vec<(i64, VersionStatus)> {
    let mut list: Vec<(i64, VersionStatus)> = catalog
        .versions
        .iter()
        .map(|version| (version.version_number, version.status))
        .collect();
    list.sort_by_key(|version| version.0);
    list
}

#[test]
fn publishes_index_and_validates_read_only_catalog() {
    let index = one(b"v1");
    let catalog = publish(&index, empty(), 1);
    assert_eq!(validate_published_catalog(&index, &catalog), Ok(()));
    assert_eq!(catalog.assets.len(), 1);
    assert_eq!(catalog.assets[0].asset_key, "maps/village.png");
    let current = catalog
        .versions
        .iter()
        .find(|version| Some(version.id) == catalog.assets[0].current_version_id)
        .expect("读取发布版本");
    assert_eq!(current.status, VersionStatus::Published);
    assert_eq!(current.version_number, 1);
}

#[test]
fn changed_file_creates_new_version_and_disables_previous_version() {
    let catalog = publish(&one(b"v1"), empty(), 1);
    let index = one(b"v2");
    let catalog = publish(&index, catalog, 2);
    assert_eq!(validate_published_catalog(&index, &catalog), Ok(()));
    assert_eq!(
        versions(&catalog),
        vec![
            (1, VersionStatus::Disabled),
            (2, VersionStatus::Published)
        ]
    );
}

#[test]
fn returning_to_a_historical_hash_creates_a_new_version_instead_of_rollback() {
    let catalog = publish(&one(b"v1"), empty(), 1);
    let catalog = publish(&one(b"v2"), catalog, 2);
    let index = one(b"v1");
    let catalog = publish(&index, catalog, 3);
    assert_eq!(validate_published_catalog(&index, &catalog), Ok(()));
    assert_eq!(
        versions(&catalog),
        vec![
            (1, VersionStatus::Disabled),
            (2, VersionStatus::Disabled),
            (3, VersionStatus::Published),
        ]
    );
}

#[test]
fn rejects_catalog_when_published_file_changes_without_release() {
    let catalog = publish(&one(b"v1"), empty(), 1);
    let changed_index = one(b"changed-without-catalog");
    assert_eq!(
        validate_published_catalog(&changed_index, &catalog),
        Err(CatalogError::PublishedIndexMismatch)
    );
}

#[test]
fn missing_file_disables_current_publication_without_deleting_history() {
    let catalog = publish(&one(b"v1"), empty(), 1);
    let empty_index = build(&[]);
    let catalog = publish(&empty_index, catalog, 2);
    assert_eq!(validate_published_catalog(&empty_index, &catalog), Ok(()));
    assert_eq!(versions(&catalog), vec![(1, VersionStatus::Disabled)]);
    assert_eq!(
        catalog
            .assets
            .iter()
            .filter(|asset| asset.current_version_id.is_some())
            .count(),
        0
    );
}

#[test]
fn catalog_backed_state_refuses_files_changed_outside_publish_command() {
    let catalog = publish(&one(b"release-one"), empty(), 1);
    assert_eq!(
        validate_published_catalog(&one(b"release-one"), &catalog),
        Ok(())
    );
    assert_eq!(
        validate_published_catalog(&one(b"release-two"), &catalog),
        Err(CatalogError::PublishedIndexMismatch)
    );
}

#[test]
fn unchanged_releases_keep_the_version() {
    let index = one(b"v1");
    let catalog = publish(&index, empty(), 1);
    let again = publish(&index, catalog.clone(), 2);
    assert_eq!(versions(&again), versions(&catalog));
}

#[test]
fn a_picture_changed_back_and_removed_keeps_three_versions() {
    let catalog = publish(&one(b"v1"), empty(), 1);
    let catalog = publish(&one(b"v2"), catalog, 2);
    let catalog = publish(&one(b"v1"), catalog, 3);
    let again = publish(&one(b"v1"), catalog.clone(), 4);
    assert_eq!(again.versions, catalog.versions);
    assert_eq!(again.versions.len(), 3);
    let gone = publish(&build(&[]), again, 5);
    assert_eq!(
        versions(&gone),
        vec![
            (1, VersionStatus::Disabled),
            (2, VersionStatus::Disabled),
            (3, VersionStatus::Disabled),
        ]
    );
    assert_eq!(gone.versions[0].sha256, gone.versions[2].sha256);
    assert_eq!(gone.assets[0].current_version_id, None);
}

#[test]
fn pictures_under_digests_stand_in_the_index() {
    let index = build(&[("a/one.png", VILLAGE), ("b/two.png", VILLAGE)]);
    for key in ["a/one.png", "b/two.png"] {
        let asset = index.get(key).expect("图片");
        let digest = asset.sha256().to_ascii_uppercase();
        let found = index.get_by_hash(&digest, "PNG").expect("按摘要应找到");
        assert_eq!(found.sha256(), asset.sha256());
        assert_eq!(found.extension(), "png");
        assert_eq!(found.asset_key(), "a/one.png");
        let listed = index.get(found.asset_key()).expect("应在索引中");
        assert_eq!(listed.sha256(), found.sha256());
    }
    assert!(index.get_by_hash(&"0".repeat(64), "png").is_none());
}

#[test]
fn entries_are_read_by_the_bytes_of_their_names() {
    let names: Vec<Vec<u8>> = [&b"b"[..], b"a", b"ab", b"\xff", b"B", b"a", b""]
        .iter()
        .map(|name| name.to_vec())
        .collect();
    assert_eq!(reading_order(&names), vec![6, 4, 1, 5, 2, 0, 3]);
    assert_eq!(reading_order(&Vec::new()), Vec::<usize>::new());
}

#[test]
fn schemas_of_catalogues_are_checked() {
    assert_eq!(migrate(None), Ok(true));
    assert_eq!(migrate(Some(1)), Ok(false));
    assert_eq!(migrate(Some(0)), Err(CatalogError::SchemaInvalid));
    assert_eq!(migrate(Some(2)), Err(CatalogError::SchemaInvalid));
    assert_eq!(
        validate_schema(Some(1), Some(0), true, Some(false)),
        Ok(())
    );
    assert!(validate_schema(Some(2), Some(0), true, Some(false)).is_err());
    assert!(validate_schema(Some(1), Some(1), true, Some(false)).is_err());
    assert!(validate_schema(Some(1), Some(0), false, Some(false)).is_err());
    assert!(validate_schema(Some(1), Some(0), true, Some(true)).is_err());
}

#[test]
fn ranges_are_read_in_their_three_forms() {
    assert_eq!(
        parse_range("bytes=0-0", 18),
        Ok(ByteRange { start: 0, end: 0 })
    );
    assert_eq!(
        parse_range("bytes=8-", 18),
        Ok(ByteRange { start: 8, end: 17 })
    );
    assert_eq!(
        parse_range("bytes=-4", 18),
        Ok(ByteRange { start: 14, end: 17 })
    );
    assert_eq!(
        parse_range("bytes=-99", 18),
        Ok(ByteRange { start: 0, end: 17 })
    );
    assert_eq!(
        parse_range("bytes=8-99", 18),
        Ok(ByteRange { start: 8, end: 17 })
    );
    for invalid in ["bytes=0-1,3-4", "items=0-1", "bytes=a-b"] {
        assert_eq!(parse_range(invalid, 18), Err(RangeError::Invalid));
    }
    assert_eq!(parse_range("bytes=18-", 18), Err(RangeError::Unsatisfiable));
}

#[test]
fn tags_and_dates_are_compared() {
    let digest = sha256_hex(VILLAGE);
    assert!(if_none_match_matches(&given("*"), &digest));
    assert!(if_none_match_matches(
        &given(&format!("\"a\", W/\"{digest}\"")),
        &digest
    ));
    assert!(!if_none_match_matches(&given("\"a\""), &digest));
    assert!(!if_none_match_matches(&Given::Absent, &digest));
    assert!(if_modified_since_matches(
        &given("Tue, 14 Nov 2023 22:13:20 GMT"),
        WRITTEN
    ));
    assert!(!if_modified_since_matches(
        &given("Tue, 14 Nov 2023 22:13:19 GMT"),
        WRITTEN
    ));
    assert!(!if_modified_since_matches(&given("yesterday"), WRITTEN));
}

#[test]
fn digests_are_those_of_the_standard() {
    assert_eq!(
        sha256_hex(b""),
        "e3b0c44298fc1c149afbf4c8996fb92427ae41e4649b934ca495991b7852b855"
    );
    assert_eq!(
        sha256_hex(b"abc"),
        "ba7816bf8f01cfea414140de5dae2223b00361a396177a9cb410ff61f20015ad"
    );
}

#[test]
fn files_that_do_not_fit_are_not_listed() {
    let listed = |path: &str, bytes: &[u8]| -> Option<AssetMeta> {
        let name = path.rsplit('/').next().expect("名称");
        index_file(&parts(path), name, bytes.len() as u64, bytes, WRITTEN)
    };
    let asset = listed("maps/village.PNG", VILLAGE).expect("应列出");
    assert_eq!(asset.asset_key(), "maps/village.PNG");
    assert_eq!(asset.extension(), "png");
    assert_eq!(asset.mime(), "image/png");
    assert_eq!(asset.size(), 18);
    assert_eq!(asset.modified(), WRITTEN);
    assert_eq!(asset.sha256(), sha256_hex(VILLAGE));
    assert!(listed("maps/village.txt", VILLAGE).is_none());
    assert!(listed("maps/../village.png", VILLAGE).is_none());
    assert!(index_file(&None, "village.png", 18, VILLAGE, WRITTEN).is_none());
    assert_eq!(
        relative_asset_key(&parts("maps/a.png")).as_deref(),
        Some("maps/a.png")
    );
}

#[test]
fn walks_do_not_leave_the_root() {
    let walk = IndexWalk::start();
    let facts = |listed, inside, target| EntryFacts {
        listed,
        inside_root: inside,
        target,
    };
    assert_eq!(
        walk.walk_directory(&facts(Some((false, false)), Some(false), None)),
        EntryAction::Skip
    );
    assert_eq!(
        walk.walk_directory(&facts(None, None, None)),
        EntryAction::Skip
    );
    let (walk, fresh) = walk.enter(Some("/data/a".to_string()));
    assert!(fresh);
    let (_, again) = walk.enter(Some("/data/a".to_string()));
    assert!(!again);
}

#[test]
fn reads_are_refused_without_room_or_file() {
    let index = fixture();
    let asset = index.get("maps/village.png").expect("图片");
    assert_eq!(
        read_verified_asset(asset, false, Some(file(VILLAGE))),
        Err(ReadAssetError::Busy)
    );
    assert_eq!(
        read_verified_asset(asset, true, None),
        Err(ReadAssetError::Unavailable)
    );
    let mut other = file(VILLAGE);
    other.modified.seconds += 1;
    assert_eq!(
        read_verified_asset(asset, true, Some(other)),
        Err(ReadAssetError::Unavailable)
    );
    assert_eq!(
        find_by_key(&index, "/media/a b", "a b").map(|_| ()).err(),
        Some(HttpError::InvalidAssetKey)
    );
}

#[test]
fn settings_are_checked_before_the_service_starts() {
    assert_eq!(bind_setting(Given::Absent), Ok(DEFAULT_BIND.to_string()));
    assert_eq!(
        bind_setting(given("0.0.0.0:80")),
        Ok("0.0.0.0:80".to_string())
    );
    assert_eq!(bind_setting(Given::Unreadable), Err(MediaError::InvalidBind));
    assert_eq!(
        check_settings(false, PathSetting::Given, PathSetting::Absent),
        Err(MediaError::InvalidBind)
    );
    assert_eq!(
        check_settings(true, PathSetting::Absent, PathSetting::Absent),
        Err(MediaError::MissingRoot)
    );
    assert_eq!(
        check_settings(true, PathSetting::Given, PathSetting::Empty),
        Err(MediaError::InvalidCatalog)
    );
    assert!(check_settings(true, PathSetting::Given, PathSetting::Given).is_ok());
    assert_eq!(check_index_root(true, Some(true)), Ok(()));
    assert_eq!(
        check_index_root(false, None),
        Err(MediaError::RootUnavailable)
    );
    assert_eq!(
        check_index_root(true, Some(false)),
        Err(MediaError::RootNotDirectory)
    );
}
