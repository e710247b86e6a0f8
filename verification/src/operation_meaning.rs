//! What the operations answer: what a caller gets back from each of them.
use crate::battle_documents;
use crate::battle_meaning;
use crate::checkin;
use crate::cli;
use crate::command_meaning;
use crate::config;
use crate::config::{IllustrationConfig, IllustrationMode, PluginConfig};
use crate::content::ContentPackage;
use crate::content_rules;
use crate::direct_asset_upload;
use crate::direct_asset_upload::{
    CreateOutcome, DirectAssetUploadError, DirectUpload, FoundEntry, TemporaryStep, UploadStep,
};
use crate::economy_documents;
use crate::game;
use crate::game::{DailyCheckinInput, GameService, IdentityKey, Mutation};
use crate::game_replies;
use crate::host::{CommandRequest, InterceptorRequest};
use crate::labels::ProficiencyRules;
use crate::media;
use crate::media::{AssetMeta, Given, GivenText, MediaError, Moment, PathSetting};
use crate::media_catalog;
use crate::media_catalog::CatalogError;
use crate::media_http;
use crate::media_http::{HttpError, HttpReply, ReadAssetError, RequestHeaders};
use crate::media_meaning;
use crate::message::GameDocument;
use crate::player_documents;
use crate::player_staging;
use crate::plugin;
use crate::plugin::{Aftermath, GameAction, Operation, RegisteredRoute};
use crate::public_seed;
use crate::records::{
    BattleActionReceipt, BattleLog, BattleSnapshot, ExperienceProgress, MapExit, MapRecord,
    MapTravelReceipt, PlayerStatus, SkillDetail, TradeReceipt, WuhunRecord, WuhunToggleReceipt,
};
use crate::signature;
use crate::startup;
use crate::text;
use crate::world_documents;
use vstd::prelude::*;

verus! {

/// Buying runs the purchase and selling the sale, whatever else is registered.
pub proof fn buying_buys_and_selling_sells(command: &str, route: Option<RegisteredRoute>)
    requires
        call_ensures(plugin::dispatch_command, (command,), route),
    ensures
        command@ == "购买"@ ==> route is Some && (route->0).operation == Operation::Game(
            GameAction::Buy,
        ),
        command@ == "出售"@ ==> route is Some && (route->0).operation == Operation::Game(
            GameAction::Sell,
        ),
        command@ == "攻击"@ ==> route is Some && (route->0).operation == Operation::Game(
            GameAction::Attack,
        ),
        command@ == "逃跑"@ ==> route is Some && (route->0).operation == Operation::Game(
            GameAction::Flee,
        ),
        route is Some && (route->0).operation == Operation::Game(GameAction::Buy) ==> command@
            == "购买"@,
        route is Some && (route->0).operation == Operation::Game(GameAction::Sell) ==> command@
            == "出售"@,
{
    command_meaning::commands_run_the_actions_of_their_names(command@);
    if route is Some {
        command_meaning::actions_are_run_by_their_commands_alone(command@);
    }
}

/// A purchase is told as spending and a sale as earning, with the same receipt.
pub proof fn purchases_and_sales_are_told_apart(
    receipt: TradeReceipt,
    bought: GameDocument,
    sold: GameDocument,
)
    requires
        call_ensures(economy_documents::bought_document, (&receipt,), bought),
        call_ensures(economy_documents::sold_document, (&receipt,), sold),
    ensures
        bought@.title == "购买成功"@,
        sold@.title == "出售成功"@,
        bought@.fields[2] == ("花费"@, text::integer(receipt.total_price as int) + " 金魂币"@),
        sold@.fields[2] == ("收入"@, text::integer(receipt.total_price as int) + " 金魂币"@),
{
}

/// A flight in a battle is told as it went.
pub proof fn flights_are_told_as_they_went(
    service: GameService,
    receipt: BattleActionReceipt,
    document: GameDocument,
)
    requires
        receipt.event.event_kind@ == "flee"@,
        call_ensures(GameService::battle_action_document, (&service, &receipt), document),
    ensures
        receipt.event.flee_success == Some(true) && !receipt.replayed ==> document@.title
            == "逃跑成功"@ + ""@ && document@.lines[0] == "你脱离了战斗，魂兽没有追击"@,
        receipt.event.flee_success != Some(true) && !receipt.replayed ==> document@.title
            == "逃跑失败"@ + ""@,
{
    let picture = service.picture("soul_beast"@, receipt.battle.beast.name@, "battle"@);
    battle_meaning::a_flight_is_told_as_it_went(receipt, picture);
}

/// A picture is known by its first bytes, and a JPEG is one.
pub proof fn first_bytes_tell_the_type(bytes: &[u8], mime: Option<&'static str>)
    requires
        call_ensures(media::detect_image_mime_bytes, (bytes,), mime),
    ensures
        signature::is_png(bytes@) ==> mime is Some && (mime->0)@ == "image/png"@,
        signature::is_jpeg(bytes@) ==> mime is Some && (mime->0)@ == "image/jpeg"@,
        signature::is_webp(bytes@) ==> mime is Some && (mime->0)@ == "image/webp"@,
        signature::is_gif(bytes@) ==> mime is Some && (mime->0)@ == "image/gif"@,
        signature::is_bmp(bytes@) ==> mime is Some && (mime->0)@ == "image/bmp"@,
{
    media_meaning::pictures_have_the_types_of_their_names(bytes@, ""@, ""@);
}

/// What follows an operation: it is recorded where it was denied or failed or where successes
/// are recorded, and its picture waits where it succeeded.
pub proof fn operations_are_recorded_and_illustrated(
    denied: bool,
    succeeded: bool,
    audited: bool,
    after: Aftermath,
)
    requires
        call_ensures(plugin::with_service, (denied, succeeded, audited), after),
    ensures
        denied ==> after.outcome@ == "denied"@,
        !denied && succeeded ==> after.outcome@ == "ok"@,
        !denied && !succeeded ==> after.outcome@ == "error"@,
        !succeeded ==> after.record,
        succeeded ==> after.record == audited,
        after.stage_picture <==> succeeded && !denied,
{
}

/// An operation that failed is answered with its reason, and any other with its own document.
pub proof fn failures_are_answered_with_their_reason(
    result: Result<GameDocument, String>,
    document: GameDocument,
)
    requires
        call_ensures(plugin::service_document, (result,), document),
    ensures
        result is Ok ==> document@ == (result->Ok_0)@,
        result is Err ==> document@.title == "操作失败"@ && document@.lines == seq![
            (result->Err_0)@,
        ],
{
    if result is Err {
        assert(document@.lines =~= seq![(result->Err_0)@]);
    }
}

/// A command that was caught on its way is the message that it was caught in, part by part.
pub proof fn caught_commands_keep_their_message(
    request: InterceptorRequest,
    name: &str,
    args: &str,
    command: CommandRequest,
)
    requires
        call_ensures(plugin::command_request_from_interceptor, (&request, name, args), command),
    ensures
        command.args@ == args@,
        command.command_name@ == name@,
        command.sender_id@ == request.sender_id@,
        command.group_id@ == request.group_id@,
        command.raw_event_json@ == request.raw_event_json@,
        command.sender_nickname@ == request.sender_nickname@,
        command.message_id@ == request.message_id@,
        command.timestamp == request.timestamp,
{
}

/// Who is not authorised is told so of the channel or the group, and who is goes on.
pub proof fn refusals_name_the_kind_of_place(kind: &str, known: bool, answer: Result<(), String>)
    requires
        call_ensures(game::authorization_verdict, (kind, known), answer),
    ensures
        answer is Ok <==> known,
        !known && kind@ == "channel"@ ==> (answer->Err_0)@ == "当前"@ + "频道"@
            + "尚未授权使用斗罗大陆游戏，请联系机器人所有者"@,
        !known && kind@ != "channel"@ ==> (answer->Err_0)@ == "当前"@ + "群聊"@
            + "尚未授权使用斗罗大陆游戏，请联系机器人所有者"@,
{
}

/// Each document carries the picture of its own subject: the first village, the spirit, the
/// beast, the map, or where a journey led.
pub proof fn documents_carry_their_own_picture(
    service: GameService,
    player: PlayerStatus,
    wuhun: WuhunRecord,
    toggled: WuhunToggleReceipt,
    opened: bool,
    receipt: BattleActionReceipt,
    documents: (GameDocument, GameDocument, GameDocument, GameDocument),
)
    requires
        call_ensures(GameService::register_document, (&service, &player), documents.0),
        call_ensures(GameService::awaken_document, (&service, &wuhun), documents.1),
        call_ensures(
            GameService::wuhun_toggle_document,
            (&service, &toggled, opened),
            documents.2,
        ),
        call_ensures(GameService::battle_action_document, (&service, &receipt), documents.3),
    ensures
        documents.0@.illustration == service.picture("map"@, "圣魂村"@, "cover"@),
        documents.0@.title == "穿越成功"@,
        documents.1@.illustration == service.picture("wuhun"@, wuhun.name@, "portrait"@),
        documents.1@.title == "武魂觉醒"@,
        documents.2@.illustration == service.picture("wuhun"@, toggled.state.name@, "portrait"@),
        documents.2@.title == (if opened {
            "武魂开启"@
        } else {
            "武魂关闭"@
        }),
        documents.3@.illustration == service.picture(
            "soul_beast"@,
            receipt.battle.beast.name@,
            "battle"@,
        ),
{
    battle_meaning::a_round_shows_both_sides(
        receipt,
        service.picture("soul_beast"@, receipt.battle.beast.name@, "battle"@),
    );
}

/// A journey is shown with the place that it led to.
pub proof fn journeys_are_shown_with_where_they_led(
    service: GameService,
    receipt: MapTravelReceipt,
    exits: Vec<MapExit>,
    title: &str,
    document: GameDocument,
)
    requires
        call_ensures(GameService::transition_document, (&service, &receipt, &exits, title), document),
    ensures
        document@.title == "当前位置 · "@ + receipt.to.name@,
        document@.illustration == service.picture("map"@, receipt.to.name@, "cover"@),
{
}

/// Who has no character is told how to get one, whatever they ask for.
pub proof fn strangers_are_told_how_to_start(
    service: GameService,
    player: Option<PlayerStatus>,
    progress: Option<ExperienceProgress>,
    map: Option<MapRecord>,
    exits: Vec<MapExit>,
    balance: Option<i64>,
    status: Result<GameDocument, String>,
    place: Result<GameDocument, String>,
    wallet: Result<GameDocument, String>,
)
    requires
        call_ensures(GameService::status_reply, (&service, &player, &progress), status),
        call_ensures(GameService::location_reply, (&service, &player, &map, &exits), place),
        call_ensures(game_replies::wallet_reply, (balance,), wallet),
    ensures
        status is Ok <==> player is Some,
        player is None ==> (status->Err_0)@ == "你还没有角色，请先使用“开始穿越 角色名 性别”"@,
        player is Some ==> (status->Ok_0)@.title == "角色状态"@,
        place is Ok <==> player is Some && map is Some,
        player is None ==> (place->Err_0)@ == "你还没有角色，请先使用“开始穿越 角色名 性别”"@,
        place is Ok ==> (place->Ok_0)@.title == "当前位置 · "@ + (map->0).name@,
        wallet is Ok <==> balance is Some,
        balance is Some ==> (wallet->Ok_0)@.fields == seq![
            ("金魂币"@, text::integer(balance->0 as int)),
        ],
        balance is None ==> (wallet->Err_0)@ == "你还没有角色，请先使用“开始穿越 角色名 性别”"@,
{
    if balance is Some {
        assert((wallet->Ok_0)@.fields =~= seq![("金魂币"@, text::integer(balance->0 as int))]);
    }
}

/// A battle is shown where there is one, and its log where there was one.
pub proof fn battles_are_shown_where_there_are_any(
    service: GameService,
    battle: Option<BattleSnapshot>,
    log: Option<BattleLog>,
    now: Result<GameDocument, String>,
    past: Result<GameDocument, String>,
)
    requires
        call_ensures(GameService::battle_status_reply, (&service, &battle), now),
        call_ensures(GameService::battle_logs_reply, (&service, &log), past),
    ensures
        now is Ok <==> battle is Some,
        battle is None ==> (now->Err_0)@ == "你当前不在战斗中，请先使用“挑战 <魂兽>”"@,
        past is Ok <==> log is Some,
        log is None ==> (past->Err_0)@ == "还没有战斗记录，请先使用“挑战 <魂兽>”"@,
        battle is Some ==> (now->Ok_0)@ == battle_documents::battle_snapshot(
            battle->0,
            "当前战斗"@,
            service.picture("soul_beast"@, (battle->0).beast.name@, "battle"@),
        ),
{
}

/// A skill is shown to those who learned it.
pub proof fn skills_are_shown_to_those_who_learned_them(
    name: &str,
    detail: Option<SkillDetail>,
    rules: ProficiencyRules,
    percent: Result<i64, String>,
    answer: Result<GameDocument, String>,
)
    requires
        call_ensures(game_replies::skill_detail_reply, (name, &detail, rules, percent), answer),
    ensures
        answer is Ok <==> detail is Some && percent is Ok,
        detail is None ==> (answer->Err_0)@ == "你尚未学习魂技“"@ + name@ + "”"@,
        answer is Ok ==> (answer->Ok_0)@.title == "魂技详情 · "@ + (detail->0).entry.skill.name@,
{
    if answer is Ok {
        crate::player_meaning::a_skill_is_shown_in_full(detail->0, rules, percent->Ok_0);
    }
}

/// A moment lies in the day of the game, and the rewards of a day are those of its place in
/// the cycle.
pub proof fn checkins_are_reckoned_by_the_day_of_the_game(
    now: i64,
    day: Result<i64, String>,
    streak: i64,
    place: Result<i64, String>,
)
    requires
        0 <= now <= 0x7fff_ffff_ffff_0000,
        call_ensures(checkin::game_day_from_timestamp, (now,), day),
        call_ensures(checkin::checkin_cycle_day, (streak,), place),
    ensures
        day is Ok && day->Ok_0 == (now + 4 * 3600) / 86400,
        place is Ok <==> streak >= 1,
        streak >= 1 ==> place->Ok_0 == (streak - 1) % 7 + 1,
{
}

/// Settings that are left out are the usual ones; others are taken where they can be read and
/// are sound.
pub proof fn settings_are_taken_when_sound(
    json: &str,
    parsed: Result<PluginConfig, String>,
    answer: Result<PluginConfig, String>,
)
    requires
        call_ensures(config::parse_config, (json, parsed), answer),
    ensures
        text::is_blank(json@) ==> answer is Ok && config::is_default(answer->Ok_0),
        !text::is_blank(json@) ==> (answer is Ok <==> parsed is Ok && config::config_error(
            parsed->Ok_0,
        ) is None),
        !text::is_blank(json@) && answer is Ok ==> answer->Ok_0 == parsed->Ok_0,
        !text::is_blank(json@) && parsed is Err ==> (answer->Err_0)@ == "配置 JSON 无效："@ + (
        parsed->Err_0)@,
{
}

/// The data directory is the one that was given, without outer white space, and must not be
/// blank; a package is published at once only if it is sound and that is asked for.
pub proof fn the_plugin_starts_with_what_it_was_given(
    given: &str,
    directory: Result<String, String>,
    errors: Vec<String>,
    publish: bool,
    verdict: Result<bool, String>,
)
    requires
        call_ensures(startup::data_directory, (given,), directory),
        call_ensures(startup::draft_verdict, (&errors, publish), verdict),
    ensures
        directory is Ok <==> !text::is_blank(given@),
        directory is Ok ==> (directory->Ok_0)@ == text::trimmed(given@),
        verdict is Ok <==> errors@.len() == 0,
        verdict is Ok ==> verdict->Ok_0 == publish,
        verdict is Err ==> (verdict->Err_0)@ == "内容包校验失败："@ + text::joined(
            text::texts(errors@),
            "；"@,
        ),
{
}

/// The service listens where it is told, and on its own machine without being told; it needs a
/// root, and a catalogue only where one is named.
pub proof fn the_service_listens_where_it_is_told(
    value: Given,
    address: Result<String, MediaError>,
    valid: bool,
    root: PathSetting,
    catalog: PathSetting,
    settings: Result<bool, MediaError>,
    resolved: bool,
    directory: Option<bool>,
    opened: Result<(), MediaError>,
)
    requires
        call_ensures(media::bind_setting, (value,), address),
        call_ensures(media::check_settings, (valid, root, catalog), settings),
        call_ensures(media::check_index_root, (resolved, directory), opened),
    ensures
        value@ is Absent ==> address is Ok && (address->Ok_0)@ == "127.0.0.1:18182"@,
        value@ matches GivenText::Text(text) ==> (address is Ok <==> !text::is_blank(text)),
        value@ matches GivenText::Text(text) ==> (address is Ok ==> (address->Ok_0)@ == text),
        settings is Ok <==> valid && root == PathSetting::Given && catalog != PathSetting::Empty,
        settings is Ok ==> settings->Ok_0 == (catalog == PathSetting::Given),
        !valid ==> settings == Err::<bool, MediaError>(MediaError::InvalidBind),
        valid && root != PathSetting::Given ==> settings == Err::<bool, MediaError>(
            MediaError::MissingRoot,
        ),
        opened is Ok <==> resolved && directory == Some(true),
        resolved && directory == Some(false) ==> opened == Err::<(), MediaError>(
            MediaError::RootNotDirectory,
        ),
{
    if let Some(answer) = directory {
        if answer {
        }
    }
}

/// Health is always answered with 200, and readiness where the service is ready.
pub proof fn health_and_readiness(ready: bool, health: HttpReply, readiness: HttpReply)
    requires
        call_ensures(media_http::health_reply, (), health),
        call_ensures(media_http::ready_reply, (ready,), readiness),
    ensures
        health@.status == 200,
        health@.body == media_http::ascii("ok\n"@),
        ready ==> readiness@.status == 200 && readiness@.body == media_http::ascii("ready\n"@),
        !ready ==> readiness@.status == 503 && readiness@.body == media_http::ascii(
            "not ready\n"@,
        ),
{
}

/// A picture whose file cannot be read is not found, one that has to wait is answered as busy,
/// and one that is there is answered.
pub proof fn unreadable_pictures_are_not_found(
    asset: AssetMeta,
    request: RequestHeaders,
    head: bool,
    lasting: bool,
    busy: HttpReply,
    gone: HttpReply,
)
    requires
        asset@.modified.seconds < media_http::LAST_HTTP_SECOND,
        call_ensures(
            media_http::serve_asset,
            (&asset, Err::<Vec<u8>, ReadAssetError>(ReadAssetError::Busy), &request, head, lasting),
            busy,
        ),
        call_ensures(
            media_http::serve_asset,
            (
                &asset,
                Err::<Vec<u8>, ReadAssetError>(ReadAssetError::Unavailable),
                &request,
                head,
                lasting,
            ),
            gone,
        ),
    ensures
        busy@.status == 503,
        gone@.status == 404,
{
    media_meaning::refusals_have_the_status_of_their_reason();
}

/// A picture is still the one of the index while it lies within the root, is a file, and has
/// its size and its time; a date covers a picture that is not younger.
pub proof fn pictures_are_still_those_of_the_index(
    asset: AssetMeta,
    inside: bool,
    is_file: bool,
    size: u64,
    modified: Moment,
    still: bool,
    date: Option<u64>,
    covered: bool,
)
    requires
        call_ensures(media_http::still_indexed, (&asset, inside, is_file, size, modified), still),
        call_ensures(media_http::not_after, (modified, date), covered),
    ensures
        still <==> inside && is_file && size == asset@.size && modified == asset@.modified,
        covered <==> date is Some && modified.seconds <= date->0,
{
}

/// Sizes are taken within their bounds, and pictures are stored where they are shown from
/// files; what was stored is told with its key, size and type.
pub proof fn stored_pictures_are_told_as_they_are(
    config: IllustrationConfig,
    key: &str,
    bytes: Vec<u8>,
    width: u32,
    height: u32,
    answer: Result<DirectUpload, DirectAssetUploadError>,
    size: Result<(u32, u32), DirectAssetUploadError>,
)
    requires
        call_ensures(
            direct_asset_upload::finish_upload,
            (&config, key, Ok::<(Vec<u8>, u32, u32), DirectAssetUploadError>((bytes, width, height))),
            answer,
        ),
        call_ensures(direct_asset_upload::accept_size, (Some((width, height)),), size),
    ensures
        answer is Ok <==> config.enabled && config.mode == IllustrationMode::Direct
            && config::is_safe_path(config.direct_asset_root@),
        answer matches Ok(upload) ==> {
            &&& upload.bytes@ == bytes@
            &&& upload.receipt.asset_key@ == key@
            &&& upload.receipt.byte_size == bytes@.len()
            &&& upload.receipt.width == width
            &&& upload.receipt.height == height
            &&& upload.receipt.mime_type@ == "image/webp"@
        },
        size is Ok <==> width > 0 && height > 0 && width * height <= 16777216,
        size is Ok ==> size->Ok_0 == (width, height),
{
}

/// A picture is written where nothing or a plain file stands and no link leads; a name that is
/// taken is tried again, eight times in all.
pub proof fn pictures_are_written_in_plain_places(
    steps: Vec<UploadStep>,
    found: FoundEntry,
    place: Result<(), DirectAssetUploadError>,
    tries: usize,
    made: TemporaryStep,
    taken: TemporaryStep,
    failed: TemporaryStep,
)
    requires
        call_ensures(direct_asset_upload::check_destination, (&steps, found), place),
        call_ensures(direct_asset_upload::after_try, (CreateOutcome::Made, tries), made),
        call_ensures(direct_asset_upload::after_try, (CreateOutcome::AlreadyThere, tries), taken),
        call_ensures(direct_asset_upload::after_try, (CreateOutcome::Failed, tries), failed),
    ensures
        place is Ok <==> direct_asset_upload::link_verdict(steps@) == Ok::<
            bool,
            DirectAssetUploadError,
        >(false) && (found == FoundEntry::File || found == FoundEntry::Missing),
        made == TemporaryStep::Write,
        taken == (if tries < 8 {
            TemporaryStep::TryAgain
        } else {
            TemporaryStep::Refuse
        }),
        failed == TemporaryStep::Refuse,
{
}

/// Outputs of the tools have their own extensions, what was written is read back the same, and
/// times fit.
pub proof fn outputs_have_their_extensions(
    path: &str,
    database: Result<(), String>,
    document: Result<(), String>,
    read_back: &str,
    hash: &str,
    same: Result<(), String>,
    seconds: u64,
    stamp: Result<i64, String>,
)
    requires
        call_ensures(player_staging::validate_output_path, (path,), database),
        call_ensures(public_seed::check_seed_output, (path,), document),
        call_ensures(public_seed::check_seed_hash, (read_back, hash), same),
        call_ensures(player_staging::stage_timestamp, (seconds,), stamp),
    ensures
        database is Ok <==> player_staging::has_extension(path@, "sqlite"@),
        document is Ok <==> player_staging::has_extension(path@, "json"@),
        same is Ok <==> read_back@ == hash@,
        stamp matches Ok(now) ==> now == seconds,
        stamp is Err ==> seconds > i64::MAX,
{
}

/// The catalogue is the one that is named, or the usual one below the root.
pub proof fn catalogues_are_named_or_usual(root: &str, named: &str, one: String, other: String)
    requires
        call_ensures(cli::catalog_path, (root, Some(named)), one),
        call_ensures(cli::catalog_path, (root, None::<&str>), other),
    ensures
        one@ == named@,
        other@ == cli::below_root(root@),
{
}

/// A new catalogue is laid out, one of the present version is kept, and any other is refused.
pub proof fn catalogues_of_other_versions_are_refused(
    version: Option<i64>,
    answer: Result<bool, CatalogError>,
)
    requires
        call_ensures(media_catalog::migrate, (version,), answer),
    ensures
        version is None ==> answer == Ok::<bool, CatalogError>(true),
        version == Some(1i64) ==> answer == Ok::<bool, CatalogError>(false),
        version is Some && version != Some(1i64) ==> answer == Err::<bool, CatalogError>(
            CatalogError::SchemaInvalid,
        ),
{
}

/// What is wrong with a package is told of the package as a whole: nothing exactly when every
/// part of it is sound.
pub proof fn packages_are_examined_as_a_whole(package: ContentPackage, errors: Vec<String>)
    requires
        call_ensures(content_rules::validate_shape, (&package,), errors),
    ensures
        text::texts(errors@) == content_rules::shape_errors(package),
        errors@.len() == content_rules::shape_errors(package).len(),
{
    assert(text::texts(errors@).len() == errors@.len());
}

/// A request for a picture by its key finds the picture under that key, and by its digest the
/// one with that digest.
pub proof fn pictures_are_found_under_what_they_are_asked_for(
    index: media::MediaIndex,
    path: &str,
    key: &str,
    found: Result<&AssetMeta, HttpError>,
)
    requires
        call_ensures(media_http::find_by_key, (&index, path, key), found),
    ensures
        found is Ok ==> index@.by_key.contains_pair(key@, (found->Ok_0)@),
        found is Ok ==> config::is_asset_key(key@) && media_http::is_safe_raw_path(path@),
        !config::is_asset_key(key@) || !media_http::is_safe_raw_path(path@) ==> found == Err::<
            &AssetMeta,
            HttpError,
        >(HttpError::InvalidAssetKey),
        config::is_asset_key(key@) && media_http::is_safe_raw_path(path@)
            && index@.by_key.contains_key(key@) ==> found is Ok,
{
}

/// What is talked to, absorbed, taken, handed in, given up, challenged, used, equipped or taken
/// off is what the arguments name, without outer white space, and it is done in the name of
/// the sender; without a name each says how it is used.
pub proof fn things_are_done_to_what_is_named(
    service: GameService,
    req: CommandRequest,
    talk: Result<(String, Mutation), String>,
    absorb_soul_ring: Result<(String, Mutation), String>,
    accept_quest: Result<(String, Mutation), String>,
    submit_quest: Result<(String, Mutation), String>,
    abandon_quest: Result<(String, Mutation), String>,
    challenge: Result<(String, Mutation), String>,
    use_skill: Result<(String, Mutation), String>,
    use_item: Result<(String, Mutation), String>,
    equip_skill: Result<(String, Mutation), String>,
    unequip_skill: Result<(String, Mutation), String>,
)
    requires
        call_ensures(GameService::talk, (&service, &req), talk),
        call_ensures(GameService::absorb_soul_ring, (&service, &req), absorb_soul_ring),
        call_ensures(GameService::accept_quest, (&service, &req), accept_quest),
        call_ensures(GameService::submit_quest, (&service, &req), submit_quest),
        call_ensures(GameService::abandon_quest, (&service, &req), abandon_quest),
        call_ensures(GameService::challenge, (&service, &req), challenge),
        call_ensures(GameService::use_skill, (&service, &req), use_skill),
        call_ensures(GameService::use_item, (&service, &req), use_item),
        call_ensures(GameService::equip_skill, (&service, &req), equip_skill),
        call_ensures(GameService::unequip_skill, (&service, &req), unequip_skill),
    ensures
        talk is Ok ==> (talk->Ok_0).0@ == text::trimmed(req.args@) && game::own_mutation(
            req,
            service.config(),
        ) == Ok::<_, Seq<char>>((talk->Ok_0).1@),
        text::is_blank(req.args@) ==> talk is Err && (talk->Err_0)@ == "用法："@ + "对话 <NPC>"@,
        absorb_soul_ring is Ok ==> (absorb_soul_ring->Ok_0).0@ == text::trimmed(req.args@) && game::own_mutation(
            req,
            service.config(),
        ) == Ok::<_, Seq<char>>((absorb_soul_ring->Ok_0).1@),
        text::is_blank(req.args@) ==> absorb_soul_ring is Err && (absorb_soul_ring->Err_0)@ == "用法："@ + "吸收魂环 <魂兽>"@,
        accept_quest is Ok ==> (accept_quest->Ok_0).0@ == text::trimmed(req.args@) && game::own_mutation(
            req,
            service.config(),
        ) == Ok::<_, Seq<char>>((accept_quest->Ok_0).1@),
        text::is_blank(req.args@) ==> accept_quest is Err && (accept_quest->Err_0)@ == "用法："@ + "接取任务 <任务>"@,
        submit_quest is Ok ==> (submit_quest->Ok_0).0@ == text::trimmed(req.args@) && game::own_mutation(
            req,
            service.config(),
        ) == Ok::<_, Seq<char>>((submit_quest->Ok_0).1@),
        text::is_blank(req.args@) ==> submit_quest is Err && (submit_quest->Err_0)@ == "用法："@ + "提交任务 <任务>"@,
        abandon_quest is Ok ==> (abandon_quest->Ok_0).0@ == text::trimmed(req.args@) && game::own_mutation(
            req,
            service.config(),
        ) == Ok::<_, Seq<char>>((abandon_quest->Ok_0).1@),
        text::is_blank(req.args@) ==> abandon_quest is Err && (abandon_quest->Err_0)@ == "用法："@ + "放弃任务 <任务>"@,
        challenge is Ok ==> (challenge->Ok_0).0@ == text::trimmed(req.args@) && game::own_mutation(
            req,
            service.config(),
        ) == Ok::<_, Seq<char>>((challenge->Ok_0).1@),
        text::is_blank(req.args@) ==> challenge is Err && (challenge->Err_0)@ == "用法："@ + "挑战 <魂兽>"@,
        use_skill is Ok ==> (use_skill->Ok_0).0@ == text::trimmed(req.args@) && game::own_mutation(
            req,
            service.config(),
        ) == Ok::<_, Seq<char>>((use_skill->Ok_0).1@),
        text::is_blank(req.args@) ==> use_skill is Err && (use_skill->Err_0)@ == "用法："@ + "释放技能 <魂技>"@,
        use_item is Ok ==> (use_item->Ok_0).0@ == text::trimmed(req.args@) && game::own_mutation(
            req,
            service.config(),
        ) == Ok::<_, Seq<char>>((use_item->Ok_0).1@),
        text::is_blank(req.args@) ==> use_item is Err && (use_item->Err_0)@ == "用法："@ + "使用 <物品>"@,
        equip_skill is Ok ==> (equip_skill->Ok_0).0@ == text::trimmed(req.args@) && game::own_mutation(
            req,
            service.config(),
        ) == Ok::<_, Seq<char>>((equip_skill->Ok_0).1@),
        text::is_blank(req.args@) ==> equip_skill is Err && (equip_skill->Err_0)@ == "用法："@ + "装备魂技 <魂技>"@,
        unequip_skill is Ok ==> (unequip_skill->Ok_0).0@ == text::trimmed(req.args@) && game::own_mutation(
            req,
            service.config(),
        ) == Ok::<_, Seq<char>>((unequip_skill->Ok_0).1@),
        text::is_blank(req.args@) ==> unequip_skill is Err && (unequip_skill->Err_0)@ == "用法："@ + "卸下魂技 <魂技>"@,
{
}

/// Attacking, fleeing, awakening, opening and closing are done in the name of the sender; all
/// but awakening take no arguments.
pub proof fn plain_actions_are_done_in_the_name_of_the_sender(
    service: GameService,
    req: CommandRequest,
    attack: Result<Mutation, String>,
    flee: Result<Mutation, String>,
    awaken: Result<Mutation, String>,
    open_wuhun: Result<Mutation, String>,
    close_wuhun: Result<Mutation, String>,
)
    requires
        call_ensures(GameService::attack, (&service, &req), attack),
        call_ensures(GameService::flee, (&service, &req), flee),
        call_ensures(GameService::awaken, (&service, &req), awaken),
        call_ensures(GameService::open_wuhun, (&service, &req), open_wuhun),
        call_ensures(GameService::close_wuhun, (&service, &req), close_wuhun),
    ensures
        attack is Ok ==> game::own_mutation(req, service.config()) == Ok::<_, Seq<char>>(
            (attack->Ok_0)@,
        ),
        !text::is_blank(req.args@) ==> attack is Err && (attack->Err_0)@ == "用法：攻击"@,
        flee is Ok ==> game::own_mutation(req, service.config()) == Ok::<_, Seq<char>>(
            (flee->Ok_0)@,
        ),
        !text::is_blank(req.args@) ==> flee is Err && (flee->Err_0)@ == "用法：逃跑"@,
        awaken is Ok ==> game::own_mutation(req, service.config()) == Ok::<_, Seq<char>>(
            (awaken->Ok_0)@,
        ),
        open_wuhun is Ok ==> game::own_mutation(req, service.config()) == Ok::<_, Seq<char>>(
            (open_wuhun->Ok_0)@,
        ),
        close_wuhun is Ok ==> game::own_mutation(req, service.config()) == Ok::<_, Seq<char>>(
            (close_wuhun->Ok_0)@,
        ),
        !text::is_blank(req.args@) ==> open_wuhun is Err && (open_wuhun->Err_0)@ == "用法："@
            + "开"@ + "武魂"@,
        !text::is_blank(req.args@) ==> close_wuhun is Err && (close_wuhun->Err_0)@ == "用法："@
            + "关"@ + "武魂"@,
        text::is_blank(req.args@) && game::own_mutation(req, service.config()) is Ok ==> attack is Ok
            && flee is Ok && open_wuhun is Ok && close_wuhun is Ok && awaken is Ok,
{
}

/// Lists are read page by page within the scope of the sender.
pub proof fn lists_are_read_page_by_page(
    service: GameService,
    req: CommandRequest,
    page: nat,
    inventory: Result<(usize, IdentityKey), String>,
    ground_drops: Result<(usize, IdentityKey), String>,
    quests: Result<(usize, IdentityKey), String>,
    soul_beasts: Result<(usize, IdentityKey), String>,
    map_list: Result<(usize, IdentityKey), String>,
)
    requires
        req.args@ == text::decimal(page),
        1 <= page <= 100,
        call_ensures(GameService::inventory, (&service, &req), inventory),
        call_ensures(GameService::ground_drops, (&service, &req), ground_drops),
        call_ensures(GameService::quests, (&service, &req), quests),
        call_ensures(GameService::soul_beasts, (&service, &req), soul_beasts),
        call_ensures(GameService::map_list, (&service, &req), map_list),
    ensures
        inventory is Ok ==> (inventory->Ok_0).0 == page && game::own_scope(req, service.config()) == Ok::<
            _,
            Seq<char>,
        >((inventory->Ok_0).1@),
        ground_drops is Ok ==> (ground_drops->Ok_0).0 == page && game::own_scope(req, service.config()) == Ok::<
            _,
            Seq<char>,
        >((ground_drops->Ok_0).1@),
        quests is Ok ==> (quests->Ok_0).0 == page && game::own_scope(req, service.config()) == Ok::<
            _,
            Seq<char>,
        >((quests->Ok_0).1@),
        soul_beasts is Ok ==> (soul_beasts->Ok_0).0 == page && game::own_scope(req, service.config()) == Ok::<
            _,
            Seq<char>,
        >((soul_beasts->Ok_0).1@),
        map_list is Ok ==> (map_list->Ok_0).0 == page && game::own_scope(req, service.config()) == Ok::<
            _,
            Seq<char>,
        >((map_list->Ok_0).1@),
{
    crate::argument_meaning::pages_are_numbered_from_one_to_a_hundred(page, "背包"@);
    crate::argument_meaning::pages_are_numbered_from_one_to_a_hundred(page, "掉落"@);
    crate::argument_meaning::pages_are_numbered_from_one_to_a_hundred(page, "任务"@);
    crate::argument_meaning::pages_are_numbered_from_one_to_a_hundred(page, "魂兽"@);
}

/// Things are bought and sold by name and number.
pub proof fn things_are_bought_and_sold_by_name_and_number(
    service: GameService,
    req: CommandRequest,
    name: Seq<char>,
    n: nat,
    bought: Result<((String, i64), Mutation), String>,
    sold: Result<((String, i64), Mutation), String>,
)
    requires
        crate::argument_meaning::is_word(name),
        1 <= n <= 9999,
        req.args@ == name + " "@ + text::decimal(n),
        call_ensures(GameService::buy, (&service, &req), bought),
        call_ensures(GameService::sell, (&service, &req), sold),
    ensures
        bought is Ok ==> ((bought->Ok_0).0).0@ == name && ((bought->Ok_0).0).1 == n,
        sold is Ok ==> ((sold->Ok_0).0).0@ == name && ((sold->Ok_0).0).1 == n,
        game::own_mutation(req, service.config()) is Ok ==> bought is Ok && sold is Ok,
        bought is Ok ==> game::own_mutation(req, service.config()) == Ok::<_, Seq<char>>(
            (bought->Ok_0).1@,
        ),
        sold is Ok ==> game::own_mutation(req, service.config()) == Ok::<_, Seq<char>>(
            (sold->Ok_0).1@,
        ),
{
    let old_form = service.config().messages.legacy_hyphen_arguments;
    crate::argument_meaning::things_are_told_name_first(name, n, old_form, "购买 <物品> [数量]"@);
    crate::argument_meaning::things_are_told_name_first(name, n, old_form, "出售 <物品> [数量]"@);
}

/// A check-in is asked for on the day of the game, in its currency, with its usual rewards.
pub proof fn checkins_are_asked_for_on_the_day(
    service: GameService,
    req: CommandRequest,
    now: i64,
    asked: Result<(DailyCheckinInput, Mutation), String>,
)
    requires
        0 <= now <= 0x7fff_ffff_ffff_0000,
        call_ensures(GameService::daily_checkin, (&service, &req, Ok::<i64, String>(now)), asked),
    ensures
        asked matches Ok((input, mutation)) ==> {
            &&& text::is_blank(req.args@)
            &&& input.game_day == (now + 4 * 3600) / 86400
            &&& input.currency_code@ == "gold_soul_coin"@
            &&& input.currency_reward_override is None
            &&& game::own_mutation(req, service.config()) == Ok::<_, Seq<char>>(mutation@)
        },
        text::is_blank(req.args@) && game::own_mutation(req, service.config()) is Ok ==> asked is Ok,
{
}

/// What a player looks up about themself is that player's own, and takes no arguments.
pub proof fn players_look_up_their_own(
    service: GameService,
    req: CommandRequest,
    skills: Result<IdentityKey, String>,
    soul_rings: Result<IdentityKey, String>,
    wallet: Result<IdentityKey, String>,
    npcs: Result<IdentityKey, String>,
    battle_status: Result<IdentityKey, String>,
    location: Result<IdentityKey, String>,
)
    requires
        call_ensures(GameService::skills, (&service, &req), skills),
        call_ensures(GameService::soul_rings, (&service, &req), soul_rings),
        call_ensures(GameService::wallet, (&service, &req), wallet),
        call_ensures(GameService::npcs, (&service, &req), npcs),
        call_ensures(GameService::battle_status, (&service, &req), battle_status),
        call_ensures(GameService::location, (&service, &req), location),
    ensures
        skills is Ok ==> game::own_scope(req, service.config()) == Ok::<_, Seq<char>>(
            (skills->Ok_0)@,
        ),
        !text::is_blank(req.args@) ==> skills is Err && (skills->Err_0)@ == "用法：技能"@,
        soul_rings is Ok ==> game::own_scope(req, service.config()) == Ok::<_, Seq<char>>(
            (soul_rings->Ok_0)@,
        ),
        !text::is_blank(req.args@) ==> soul_rings is Err && (soul_rings->Err_0)@ == "用法：魂环"@,
        wallet is Ok ==> game::own_scope(req, service.config()) == Ok::<_, Seq<char>>(
            (wallet->Ok_0)@,
        ),
        !text::is_blank(req.args@) ==> wallet is Err && (wallet->Err_0)@ == "用法：钱包"@,
        npcs is Ok ==> game::own_scope(req, service.config()) == Ok::<_, Seq<char>>(
            (npcs->Ok_0)@,
        ),
        !text::is_blank(req.args@) ==> npcs is Err && (npcs->Err_0)@ == "用法：NPC"@,
        battle_status is Ok ==> game::own_scope(req, service.config()) == Ok::<_, Seq<char>>(
            (battle_status->Ok_0)@,
        ),
        !text::is_blank(req.args@) ==> battle_status is Err && (battle_status->Err_0)@ == "用法：战斗状态"@,
        location is Ok ==> game::own_scope(req, service.config()) == Ok::<_, Seq<char>>(
            (location->Ok_0)@,
        ),
        !text::is_blank(req.args@) ==> location is Err && (location->Err_0)@ == "用法：位置"@,
        text::is_blank(req.args@) && game::own_scope(req, service.config()) is Ok ==> skills is Ok && soul_rings is Ok
            && wallet is Ok && npcs is Ok && battle_status is Ok && location is Ok,
{
}

} // verus!
