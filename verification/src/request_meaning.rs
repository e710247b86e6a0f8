//! What is asked of the store, and what is laid down and shown of staged players.
use crate::checkin;
use crate::config::PluginConfig;
use crate::direct_asset_upload;
use crate::game;
use crate::game_args;
use crate::host::CommandRequest;
use crate::identity;
use crate::player_stage_confirmation;
use crate::player_stage_confirmation::{PlayerStageCandidatePage, StageRead};
use crate::player_staging;
use crate::player_staging::{
    PlayerStageSummary, PlayerStagingMetadata, StageFile, StagedPlayer,
};
use crate::public_seed;
use crate::public_seed::{PublicSeedSource, SourceQuest};
use crate::text;
use vstd::prelude::*;

verus! {

/// Money and gifts are asked for as the arguments say, by a known sender and for someone
/// else; a sender who is not known comes before a mention that cannot be read, and that
/// before the arguments.
pub proof fn transfers_are_asked_for_as_they_are_told(
    req: CommandRequest,
    config: PluginConfig,
    mention: Option<String>,
)
    ensures
        ({
            let who = identity::identity(
                req.sender_id@,
                identity::identity_facts(req.raw_event_json@),
                config.identity.qq_official_account_id@,
            );
            let money = game_args::transfer_arguments(
                req.args@,
                text::optional_text(mention),
                config.messages.legacy_hyphen_arguments,
            );
            let gift = game_args::gift_arguments(
                req.args@,
                text::optional_text(mention),
                config.messages.legacy_hyphen_arguments,
            );
            let asked = game::transfer_request(req, config, Ok(mention));
            let given = game::gift_request(req, config, Ok(mention));
            &&& asked is Ok <==> who is Ok && money is Ok && (money->Ok_0).0 != req.sender_id@
            &&& asked is Ok ==> asked == money
            &&& given is Ok <==> who is Ok && gift is Ok && (gift->Ok_0).0 != req.sender_id@
            &&& given is Ok ==> given == gift
            &&& who is Ok && money is Ok && (money->Ok_0).0 == req.sender_id@ ==> asked == Err::<
                (Seq<char>, int),
                Seq<char>,
            >("不能向自己转账"@)
            &&& who is Ok && gift is Ok && (gift->Ok_0).0 == req.sender_id@ ==> given == Err::<
                (Seq<char>, Seq<char>, int),
                Seq<char>,
            >("不能向自己发送物品"@)
            &&& who is Err ==> asked == Err::<(Seq<char>, int), Seq<char>>(who->Err_0) && given
                == Err::<(Seq<char>, Seq<char>, int), Seq<char>>(who->Err_0)
        }),
{
}

/// A conversation is authorised and taken back as the arguments say, by kind and name, where
/// its kind can be authorised, and the log names it.
pub proof fn authorisations_are_asked_for_as_they_are_told(
    req: CommandRequest,
    config: PluginConfig,
)
    ensures
        ({
            let who = identity::identity(
                req.sender_id@,
                identity::identity_facts(req.raw_event_json@),
                config.identity.qq_official_account_id@,
            );
            let granted = game_args::grant_arguments(req.args@);
            let revoked = game_args::revoke_arguments(req.args@);
            let grant = game::grant_request(req, config);
            let revoke = game::revoke_request(req, config);
            &&& grant is Ok <==> granted is Ok && who is Ok && game_args::context_kind_error(
                (who->Ok_0).protocol,
                (granted->Ok_0).0,
            ) is None
            &&& grant matches Ok((parsed, (scope, entry))) ==> {
                &&& granted == Ok::<_, Seq<char>>(parsed)
                &&& scope.subject_id == req.sender_id@
                &&& scope.account_id == (who->Ok_0).account_id
                &&& entry.command == req.command_name@
                &&& entry.details_json == game::context_details(
                    req,
                    (who->Ok_0).protocol,
                    parsed.0,
                    parsed.1,
                )
            }
            &&& revoke is Ok <==> revoked is Ok && who is Ok && game_args::context_kind_error(
                (who->Ok_0).protocol,
                (revoked->Ok_0).0,
            ) is None
            &&& revoke matches Ok((parsed, (scope, entry))) ==> {
                &&& revoked == Ok::<_, Seq<char>>(parsed)
                &&& scope.subject_id == req.sender_id@
                &&& entry.details_json == game::context_details(
                    req,
                    (who->Ok_0).protocol,
                    parsed.0,
                    parsed.1,
                )
            }
        }),
{
}

/// An old record is claimed for the account of the event alone, which must be named, in the
/// namespace that is set and under the name of its user.
pub proof fn old_records_are_claimed_for_the_named_account(
    req: CommandRequest,
    config: PluginConfig,
)
    ensures
        ({
            let who = identity::identity(
                req.sender_id@,
                identity::identity_facts(req.raw_event_json@),
                config.identity.qq_official_account_id@,
            );
            let named = game_args::claim_arguments(req.args@);
            let claim = game::claim_request(req, config);
            &&& claim is Ok <==> named is Ok && who is Ok && (named->Ok_0).1 == (
            who->Ok_0).account_id
            &&& claim matches Ok((identity, scope)) ==> {
                &&& who == Ok::<_, Seq<char>>(identity)
                &&& scope.subject_id == (named->Ok_0).0
                &&& scope.account_id == (named->Ok_0).1
                &&& scope.namespace == config.identity.namespace@
                &&& scope.protocol == identity.protocol
            }
            &&& named is Ok && who is Ok && (named->Ok_0).1 != (who->Ok_0).account_id ==> claim
                == Err::<(identity::Identity, game::Scope), Seq<char>>(
                "参数中的 account_id 与当前机器人账号不一致，已取消认领"@,
            )
        }),
{
}

/// Commands without arguments take none; equipping and taking off, and opening and closing,
/// are explained each in its own words; today is the day of the game.
pub proof fn commands_are_explained_in_their_own_words(
    args: Seq<char>,
    usage: Seq<char>,
    now: i64,
)
    ensures
        game::no_arguments(args, usage) is Ok <==> text::is_blank(args),
        !text::is_blank(args) ==> game::no_arguments(args, usage) == Err::<(), Seq<char>>(usage),
        game::loadout_usage(true) == "装备魂技 <魂技>"@,
        game::loadout_usage(false) == "卸下魂技 <魂技>"@,
        game::toggle_usage(true) == "用法："@ + "开"@ + "武魂"@,
        game::toggle_usage(false) == "用法："@ + "关"@ + "武魂"@,
        now + 14400 <= i64::MAX ==> game::today(Ok(now)) == Ok::<int, Seq<char>>(
            checkin::game_day(now as int),
        ),
        now + 14400 > i64::MAX ==> game::today(Ok(now)) is Err,
{
}

/// The error of the first that failed is the one that is told.
pub proof fn the_first_error_is_told(
    first: Result<int, Seq<char>>,
    second: Result<int, Seq<char>>,
)
    ensures
        first is Err ==> game::first_error(first, second) == Some(first->Err_0),
        first is Ok && second is Err ==> game::first_error(first, second) == Some(second->Err_0),
        first is Ok && second is Ok ==> game::first_error(first, second) is None,
{
}

/// A file with staged players holds one batch, with its source, for whom it was made, when,
/// and how many are ready and how many are not; and each player under their number, field by
/// field, ready exactly when nothing is wrong.
pub proof fn staged_players_are_laid_down_field_by_field(
    file: StageFile,
    metadata: PlayerStagingMetadata,
    source_sha256: Seq<char>,
    players: Seq<StagedPlayer>,
    staged_at: int,
    i: int,
)
    requires
        player_staging::holds_players(file, metadata, source_sha256, players, staged_at),
        0 <= i < players.len(),
    ensures
        file.batches@.len() == 1,
        file.players@.len() == players.len(),
        ({
            let batch = file.batches@[0];
            &&& batch.id == 1
            &&& batch.schema_version == 1
            &&& batch.source_format@ == "recent-sqlite-player-v1"@
            &&& batch.source_sha256@ == source_sha256
            &&& batch.protocol@ == metadata.protocol@
            &&& batch.account_id@ == metadata.account_id@
            &&& batch.namespace@ == metadata.namespace@
            &&& batch.staged_at == staged_at
            &&& batch.total_players == players.len()
            &&& batch.ready_players == player_staging::ready_count(players)
            &&& batch.ready_players + batch.rejected_players == batch.total_players
        }),
        ({
            let row = file.players@[i];
            let player = players[i];
            &&& row.id == i + 1
            &&& row.source_player_id == player.source_player_id
            &&& text::optional_text(row.subject_id) == text::optional_text(player.subject_id)
            &&& text::optional_text(row.name) == text::optional_text(player.name)
            &&& text::optional_text(row.gender) == text::optional_text(player.gender)
            &&& row.level == player.level
            &&& row.exp == player.exp
            &&& row.hp == player.hp
            &&& row.max_hp == player.max_hp
            &&& row.soul_power == player.soul_power
            &&& row.max_soul_power == player.max_soul_power
            &&& row.strength == player.strength
            &&& row.agility == player.agility
            &&& row.spirit == player.spirit
            &&& row.endurance == player.endurance
            &&& row.perception == player.perception
            &&& row.luck == player.luck
            &&& row.life_count == player.life_count
            &&& text::optional_text(row.state) == text::optional_text(player.state)
            &&& player.issues@.len() == 0 ==> row.validation_state@ == "ready"@
            &&& player.issues@.len() > 0 ==> row.validation_state@ == "rejected"@
            &&& row.issue_count == player.issues@.len()
        }),
{
    assert(player_staging::holds_player(file.players@[i], players[i], i + 1));
}

/// A summary counts all players, those that are ready and those that are not, and how often
/// each fault occurs; it is told in this order.
pub proof fn summaries_count_what_was_staged(
    summary: PlayerStageSummary,
    source_sha256: Seq<char>,
    players: Seq<StagedPlayer>,
    path: Seq<char>,
)
    requires
        player_staging::summarizes(summary, source_sha256, players),
    ensures
        summary.source_sha256@ == source_sha256,
        summary.total_players == players.len(),
        summary.ready_players == player_staging::ready_count(players),
        summary.ready_players + summary.rejected_players == summary.total_players,
        forall|i: int|
            0 <= i < summary.issue_counts@.len() ==> (#[trigger] summary.issue_counts@[i]).1
                == player_staging::occurrences(
                player_staging::all_codes(players),
                summary.issue_counts@[i].0@,
            ),
        ({
            let lines = player_staging::report_lines(path, summary);
            &&& lines[0] == "已创建玩家 staging："@ + path
            &&& lines[1] == "总记录："@ + text::decimal(summary.total_players as nat)
                + "；可确认："@ + text::decimal(summary.ready_players as nat) + "；拒绝："@
                + text::decimal(summary.rejected_players as nat)
            &&& lines.len() == 2 <==> summary.issue_counts@.len() == 0
            &&& summary.issue_counts@.len() > 0 ==> lines.len() == 3 && lines[2] == "校验问题："@
                + text::joined(
                Seq::new(
                    summary.issue_counts@.len(),
                    |i: int|
                        summary.issue_counts@[i].0@ + "="@ + text::decimal(
                            summary.issue_counts@[i].1 as nat,
                        ),
                ),
                "，"@,
            )
        }),
{
    let counts = player_staging::count_views(summary.issue_counts@);
    assert forall|i: int| 0 <= i < summary.issue_counts@.len() implies (
    #[trigger] summary.issue_counts@[i]).1 == player_staging::occurrences(
        player_staging::all_codes(players),
        summary.issue_counts@[i].0@,
    ) by {
        assert(counts[i].1 == player_staging::occurrences(
            player_staging::all_codes(players),
            counts[i].0,
        ));
    }
    assert(player_staging::count_texts(counts) =~= Seq::new(
        summary.issue_counts@.len(),
        |i: int|
            summary.issue_counts@[i].0@ + "="@ + text::decimal(
                summary.issue_counts@[i].1 as nat,
            ),
    ));
}

/// A code occurs once more for each time it is noted.
pub proof fn codes_are_counted_one_by_one(codes: Seq<Seq<char>>, code: Seq<char>, other: Seq<char>)
    ensures
        player_staging::occurrences(codes.push(code), code) == player_staging::occurrences(
            codes,
            code,
        ) + 1,
        other != code ==> player_staging::occurrences(codes.push(other), code)
            == player_staging::occurrences(codes, code),
        player_staging::occurrences(Seq::empty(), code) == 0,
{
    assert(codes.push(code).drop_last() =~= codes);
    assert(codes.push(other).drop_last() =~= codes);
}

/// A page of candidates is for whom the batch was made, shows at most as many as were asked
/// for, and leads on from the first that it leaves out; it holds from 1 to 100, and starts
/// nowhere below zero.
pub proof fn pages_of_candidates_lead_on(
    page: PlayerStageCandidatePage,
    read: StageRead,
    file: Seq<char>,
    after: Option<i64>,
    limit: int,
)
    requires
        player_stage_confirmation::page_error(file, read, after, limit) is None,
        player_stage_confirmation::is_page(page, read, after, limit),
    ensures
        1 <= limit <= 100,
        after is None || after->0 >= 0,
        player_stage_confirmation::stage_error(file, read) is None,
        ({
            let batch = read.stage.batches@[0];
            let all = player_stage_confirmation::ordered(read.stage.players@, after);
            &&& page.protocol@ == batch.protocol@
            &&& page.account_id@ == batch.account_id@
            &&& page.namespace@ == batch.namespace@
            &&& page.staged_at == batch.staged_at
            &&& page.total_players == batch.total_players
            &&& page.ready_players == batch.ready_players
            &&& page.rejected_players == batch.rejected_players
            &&& page.entries@.len() == (if all.len() <= limit {
                all.len() as int
            } else {
                limit
            })
            &&& forall|i: int|
                0 <= i < page.entries@.len() ==> (#[trigger] page.entries@[i]).source_player_id
                    == all[i].source_player_id
            &&& page.next_after_source_player_id is Some <==> all.len() > limit
            &&& all.len() > limit ==> page.next_after_source_player_id == Some(
                all[limit].source_player_id,
            )
        }),
{
    let batch = player_stage_confirmation::read_batch(read.stage.batches@[0]);
    let rows = player_stage_confirmation::page_rows(read.stage.players@, after, limit);
    let views = player_stage_confirmation::candidate_views(page.entries@);
    assert(views.len() == page.entries@.len());
    assert(views.len() == rows.len());
    assert forall|i: int| 0 <= i < page.entries@.len() implies (
    #[trigger] page.entries@[i]).source_player_id == player_stage_confirmation::ordered(
        read.stage.players@,
        after,
    )[i].source_player_id by {
        assert(views[i] == player_stage_confirmation::candidates_of(batch, rows)[i]);
        assert(views[i].source_player_id == page.entries@[i].source_player_id as int);
    }
}

/// A path has the extension that its last name has, in whatever letters.
pub proof fn extensions_are_those_of_the_last_name(
    directory: Seq<char>,
    stem: Seq<char>,
    extension: Seq<char>,
    wanted: Seq<char>,
)
    requires
        stem.len() > 0,
        extension.len() > 0,
        text::lacks(stem, '/'),
        text::lacks(extension, '/'),
        text::lacks(extension, '.'),
    ensures
        player_staging::has_extension(
            directory + seq!['/'] + (stem + "."@ + extension),
            wanted,
        ) <==> text::lowered(extension) == wanted,
{
    reveal_strlit(".");
    reveal_strlit("..");
    reveal_strlit("");
    let name = stem + "."@ + extension;
    crate::config_meaning::parts_on_both_sides_are_all_parts(directory, name, '/');
    assert(!name.contains('/')) by {
        if name.contains('/') {
            let i = choose|i: int| 0 <= i < name.len() && name[i] == '/';
            if i < stem.len() {
                assert(stem[i] == '/');
            } else if i > stem.len() {
                assert(extension[i - stem.len() - 1] == '/');
            }
        }
    }
    text::a_text_without_separator_is_one_part(name, '/');
    let parts = text::parts(directory + seq!['/'] + name, '/');
    assert(parts.last() == name);
    assert(name.len() >= 3);
    crate::media_meaning::extensions_stand_behind_the_last_dot(stem, extension);
}

/// Directories are named one by one, and a way upwards is refused.
pub proof fn directories_are_named_one_by_one(parts: Seq<Seq<char>>, from: nat)
    requires
        0 < from < parts.len(),
    ensures
        parts[from as int] == ".."@ ==> direct_asset_upload::plain_names(parts, from) is None,
        parts[from as int] == ""@ || parts[from as int] == "."@
            ==> direct_asset_upload::plain_names(parts, from) == direct_asset_upload::plain_names(
            parts,
            (from + 1) as nat,
        ),
        parts[from as int] != ".."@ && parts[from as int] != "."@ && parts[from as int] != ""@ ==> (
        direct_asset_upload::plain_names(parts, (from + 1) as nat) matches Some(rest)
            ==> direct_asset_upload::plain_names(parts, from) == Some(
            seq![parts[from as int]] + rest,
        )),
        direct_asset_upload::plain_names(parts, parts.len()) == Some(Seq::<Seq<char>>::empty()),
{
    reveal_strlit("..");
    reveal_strlit(".");
    reveal_strlit("");
    assert(".."@.len() == 2 && "."@.len() == 1 && ""@.len() == 0);
}

/// A source of public content is taken exactly when every row of it can be read and there are
/// no more than ten thousand in all.
pub proof fn sources_are_taken_when_every_row_is_sound(source: PublicSeedSource)
    requires
        public_seed::source_error(source) is None,
    ensures
        forall|i: int| 0 <= i < source.maps@.len() ==> (#[trigger] source.maps@[i]) is Ok,
        forall|i: int| 0 <= i < source.items@.len() ==> (#[trigger] source.items@[i]) is Ok,
        forall|i: int| 0 <= i < source.npcs@.len() ==> (#[trigger] source.npcs@[i]) is Ok,
        forall|i: int| 0 <= i < source.quests@.len() ==> (#[trigger] source.quests@[i]) is Ok,
        forall|i: int|
            0 <= i < source.numeric_curves@.len() ==> (#[trigger] source.numeric_curves@[i]) is Ok,
        source.maps@.len() + source.items@.len() + source.npcs@.len() + source.quests@.len()
            + public_seed::quest_rows(public_seed::entries_of(source.quests@))
            + source.numeric_curves@.len() <= 10000,
{
    let items = source.maps@.len();
    let npcs = items + source.items@.len();
    let quests = npcs + source.npcs@.len();
    let curves = quests + source.quests@.len() + public_seed::quest_rows(
        public_seed::entries_of(source.quests@),
    );
    crate::tool_meaning::rows_are_taken_while_they_are_sound_and_few(
        source.maps@,
        0,
        "map"@,
        "地图"@,
        0,
    );
    crate::tool_meaning::rows_are_taken_while_they_are_sound_and_few(
        source.items@,
        items,
        "item"@,
        "物品"@,
        0,
    );
    crate::tool_meaning::rows_are_taken_while_they_are_sound_and_few(
        source.npcs@,
        npcs,
        "npc"@,
        " NPC "@,
        0,
    );
    crate::tool_meaning::rows_are_taken_while_they_are_sound_and_few(
        source.quests@,
        quests,
        "quest"@,
        "任务"@,
        0,
    );
    crate::tool_meaning::rows_are_taken_while_they_are_sound_and_few(
        source.numeric_curves@,
        curves,
        "numeric_curve"@,
        "数值曲线"@,
        0,
    );
    public_seed::imported_packages_are_bounded(source);
}

/// The rows of quests are their conditions and their rewards.
pub proof fn rows_of_quests_are_conditions_and_rewards(
    quests: Seq<SourceQuest>,
    quest: SourceQuest,
)
    ensures
        public_seed::quest_rows(quests.push(quest)) == public_seed::quest_rows(quests)
            + quest.requirements@.len() + quest.rewards@.len(),
        public_seed::quest_rows(Seq::empty()) == 0,
{
    assert(quests.push(quest).drop_last() =~= quests);
}

} // verus!
