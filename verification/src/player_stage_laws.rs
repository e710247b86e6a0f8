//! What holds between laying players down and reading them again.
use crate::media;
use crate::player_stage_confirmation;
use crate::player_staging;
use crate::player_staging::{
    PlayerStagingMetadata, SourcePlayer, StageFile, StageIssueRow, StagePlayerRow, StagedPlayer,
};
use crate::text;
use vstd::prelude::*;

verus! {

proof fn lemma_inserted_in_order(list: Seq<StagePlayerRow>, row: StagePlayerRow)
    requires
        in_order(list),
    ensures
        in_order(player_stage_confirmation::inserted(list, row)),
        forall|bound: int|
            (forall|i: int| 0 <= i < list.len() ==> (#[trigger] list[i]).source_player_id <= bound)
                && row.source_player_id <= bound ==> #[trigger] bounded(
                player_stage_confirmation::inserted(list, row),
                bound,
            ),
        player_stage_confirmation::inserted(list, row).to_multiset()
            == list.to_multiset().insert(row),
    decreases list.len(),
{
    broadcast use vstd::seq_lib::group_to_multiset_ensures;

    if list.len() == 0 || list.last().source_player_id <= row.source_player_id {
        let longer = list.push(row);
        assert forall|i: int, j: int| 0 <= i <= j < longer.len() implies (
        #[trigger] longer[i]).source_player_id <= (#[trigger] longer[j]).source_player_id by {
            if j == list.len() && i < list.len() {
                assert(list[i].source_player_id <= list[list.len() - 1].source_player_id);
            }
        }
    } else {
        let shorter = list.drop_last();
        let last = list.last();
        lemma_inserted_in_order(shorter, row);
        let within = player_stage_confirmation::inserted(shorter, row);
        assert forall|i: int| 0 <= i < shorter.len() implies (#[trigger] shorter[i]).source_player_id
            <= last.source_player_id by {
            assert(list[i].source_player_id <= list[list.len() - 1].source_player_id);
        }
        assert(bounded(within, last.source_player_id as int));
        assert(list =~= shorter.push(last));
        assert(shorter.push(last).to_multiset() == shorter.to_multiset().insert(last));
        assert(within.push(last).to_multiset() == within.to_multiset().insert(last));
        assert(within.push(last).to_multiset() =~= list.to_multiset().insert(row));
    }
}

/// No number of a list lies above a bound.
pub open spec fn bounded(list: Seq<StagePlayerRow>, bound: int) -> bool {
    forall|i: int| 0 <= i < list.len() ==> (#[trigger] list[i]).source_player_id <= bound
}

/// The players of a list stand in the order of their numbers.
pub open spec fn in_order(list: Seq<StagePlayerRow>) -> bool {
    forall|i: int, j: int|
        0 <= i <= j < list.len() ==> (#[trigger] list[i]).source_player_id <= (
        #[trigger] list[j]).source_player_id
}

/// The players that may stand on a page come in the order of their numbers, and they are
/// exactly those that are ready, alive and behind the one where the page starts.
pub proof fn pages_hold_the_listed_players_in_order(
    rows: Seq<StagePlayerRow>,
    after: Option<i64>,
)
    ensures
        in_order(player_stage_confirmation::ordered(rows, after)),
        player_stage_confirmation::ordered(rows, after).to_multiset() == rows.filter(
            |row: StagePlayerRow| player_stage_confirmation::is_listed(row, after),
        ).to_multiset(),
    decreases rows.len(),
{
    broadcast use vstd::seq_lib::group_to_multiset_ensures;

    reveal(Seq::filter);
    let listed = |row: StagePlayerRow| player_stage_confirmation::is_listed(row, after);
    if rows.len() > 0 {
        let shorter = rows.drop_last();
        pages_hold_the_listed_players_in_order(shorter, after);
        if listed(rows.last()) {
            lemma_inserted_in_order(
                player_stage_confirmation::ordered(shorter, after),
                rows.last(),
            );
            let kept = shorter.filter(listed);
            assert(rows.filter(listed) =~= kept.push(rows.last()));
            assert(kept.push(rows.last()).to_multiset() == kept.to_multiset().insert(rows.last()));
        } else {
            assert(rows.filter(listed) =~= shorter.filter(listed));
        }
    }
}

/// How many things are noted as wrong under a number.
spec fn noted_in(issues: Seq<(int, Seq<char>, Seq<char>)>, id: int) -> nat
    decreases issues.len(),
{
    if issues.len() == 0 {
        0
    } else {
        noted_in(issues.drop_last(), id) + if issues.last().0 == id {
            1nat
        } else {
            0nat
        }
    }
}

proof fn lemma_noted_in_rows(issues: Seq<StageIssueRow>, id: int)
    ensures
        player_stage_confirmation::noted(issues, id) == noted_in(
            player_staging::issue_row_views(issues),
            id,
        ),
    decreases issues.len(),
{
    if issues.len() > 0 {
        lemma_noted_in_rows(issues.drop_last(), id);
        assert(player_staging::issue_row_views(issues).drop_last()
            =~= player_staging::issue_row_views(issues.drop_last()));
    }
}

proof fn lemma_noted_in_both(
    first: Seq<(int, Seq<char>, Seq<char>)>,
    second: Seq<(int, Seq<char>, Seq<char>)>,
    id: int,
)
    ensures
        noted_in(first + second, id) == noted_in(first, id) + noted_in(second, id),
    decreases second.len(),
{
    if second.len() > 0 {
        lemma_noted_in_both(first, second.drop_last(), id);
        assert((first + second).drop_last() =~= first + second.drop_last());
    } else {
        assert(first + second =~= first);
    }
}

proof fn lemma_noted_in_numbered(number: int, issues: Seq<(Seq<char>, Seq<char>)>, id: int)
    ensures
        noted_in(player_staging::numbered(number, issues), id) == if id == number {
            issues.len()
        } else {
            0
        },
    decreases issues.len(),
{
    if issues.len() > 0 {
        lemma_noted_in_numbered(number, issues.drop_last(), id);
        assert(player_staging::numbered(number, issues).drop_last() =~= player_staging::numbered(
            number,
            issues.drop_last(),
        ));
    }
}

proof fn lemma_noted_of_players(players: Seq<StagedPlayer>, id: int)
    ensures
        noted_in(player_staging::numbered_issues(players), id) == if 1 <= id <= players.len() {
            players[id - 1].issues@.len()
        } else {
            0
        },
    decreases players.len(),
{
    if players.len() > 0 {
        let own = player_staging::issue_views(players.last().issues@);
        lemma_noted_of_players(players.drop_last(), id);
        lemma_noted_in_numbered(players.len() as int, own, id);
        lemma_noted_in_both(
            player_staging::numbered_issues(players.drop_last()),
            player_staging::numbered(players.len() as int, own),
            id,
        );
    }
}

proof fn lemma_states(rows: Seq<StagePlayerRow>, players: Seq<StagedPlayer>)
    requires
        rows.len() == players.len(),
        forall|i: int|
            0 <= i < players.len() ==> player_staging::holds_player(
                #[trigger] rows[i],
                players[i],
                i + 1,
            ),
    ensures
        player_stage_confirmation::in_state(rows, "ready"@) == player_staging::ready_count(
            players,
        ),
        player_stage_confirmation::in_state(rows, "rejected"@) == players.len()
            - player_staging::ready_count(players),
    decreases rows.len(),
{
    reveal_strlit("ready");
    reveal_strlit("rejected");
    assert("ready"@.len() != "rejected"@.len());
    if rows.len() > 0 {
        let shorter = rows.drop_last();
        let fewer = players.drop_last();
        assert forall|i: int| 0 <= i < fewer.len() implies player_staging::holds_player(
            #[trigger] shorter[i],
            fewer[i],
            i + 1,
        ) by {
            assert(player_staging::holds_player(rows[i], players[i], i + 1));
        }
        lemma_states(shorter, fewer);
        assert(player_staging::holds_player(
            rows[rows.len() - 1],
            players[rows.len() - 1],
            rows.len() as int,
        ));
    }
}

/// A file in which players were laid down is taken when it is read again: its one batch
/// is sound, and its players agree with it.
pub proof fn files_that_were_laid_down_are_taken(
    file: StageFile,
    metadata: PlayerStagingMetadata,
    digest: Seq<char>,
    players: Seq<StagedPlayer>,
    staged_at: int,
)
    requires
        player_staging::metadata_error(metadata) is None,
        media::is_digest(digest),
        0 <= staged_at,
        player_staging::holds_players(file, metadata, digest, players, staged_at),
    ensures
        player_stage_confirmation::batch_error(file.batches@) is None,
        player_stage_confirmation::agrees(
            file.players@,
            file.issues@,
            player_stage_confirmation::read_batch(file.batches@[0]),
        ),
{
    lemma_states(file.players@, players);
    assert forall|i: int| 0 <= i < file.players@.len() implies
        player_stage_confirmation::is_consistent(#[trigger] file.players@[i], file.issues@) by {
        assert(player_staging::holds_player(file.players@[i], players[i], i + 1));
        lemma_noted_in_rows(file.issues@, i + 1);
        lemma_noted_of_players(players, i + 1);
        reveal_strlit("ready");
        reveal_strlit("rejected");
        assert("ready"@.len() != "rejected"@.len());
    }
    lemma_ready_bounded(players);
}

proof fn lemma_ready_bounded(players: Seq<StagedPlayer>)
    ensures
        player_staging::ready_count(players) <= players.len(),
    decreases players.len(),
{
    if players.len() > 0 {
        lemma_ready_bounded(players.drop_last());
    }
}

/// A power of ten.
spec fn power_of_ten(n: nat) -> nat
    decreases n,
{
    if n == 0 {
        1
    } else {
        10 * power_of_ten((n - 1) as nat)
    }
}

proof fn lemma_decimal(n: nat, digits: nat)
    requires
        0 < digits,
        n < power_of_ten(digits),
    ensures
        1 <= text::decimal(n).len() <= digits,
        text::all_digits(text::decimal(n)),
    decreases digits,
{
    if n >= 10 {
        reveal_with_fuel(power_of_ten, 2);
        lemma_decimal(n / 10, (digits - 1) as nat);
        let shorter = text::decimal(n / 10);
        assert forall|i: int| 0 <= i < text::decimal(n).len() implies text::is_digit(
            #[trigger] text::decimal(n)[i],
        ) by {
            if i < shorter.len() {
                assert(text::is_digit(shorter[i]));
            }
        }
    }
}

proof fn lemma_subject_is_fit(user_id: i64)
    requires
        user_id > 0,
    ensures
        player_stage_confirmation::is_fit(text::integer(user_id as int), 256, false),
{
    reveal_with_fuel(power_of_ten, 20);
    let digits = text::decimal(user_id as nat);
    lemma_decimal(user_id as nat, 19);
    assert forall|i: int| 0 <= i < digits.len() implies !text::is_control(#[trigger] digits[i]) by {
        assert(text::is_digit(digits[i]));
    }
}

/// A player with which nothing was wrong can be confirmed once it was laid down, and
/// one with which something was wrong cannot.
pub proof fn sound_players_can_be_confirmed(
    file: StageFile,
    metadata: PlayerStagingMetadata,
    digest: Seq<char>,
    players: Seq<StagedPlayer>,
    rows: Seq<Result<SourcePlayer, String>>,
    staged_at: int,
    i: int,
)
    requires
        player_staging::metadata_error(metadata) is None,
        media::is_digest(digest),
        player_staging::staged_from(players, rows),
        player_staging::holds_players(file, metadata, digest, players, staged_at),
        0 <= i < players.len(),
    ensures
        player_stage_confirmation::row_error(
            file.issues@,
            player_stage_confirmation::read_batch(file.batches@[0]),
            file.players@[i],
        ) is None <==> players[i].issues@.len() == 0,
{
    let row = file.players@[i];
    let player = players[i];
    let source = rows[i]->Ok_0;
    let batch = player_stage_confirmation::read_batch(file.batches@[0]);
    assert(player_staging::holds_player(row, player, i + 1));
    assert(player_staging::keeps_fit_fields(player, source));
    lemma_noted_in_rows(file.issues@, i + 1);
    lemma_noted_of_players(players, i + 1);
    reveal_strlit("ready");
    reveal_strlit("rejected");
    assert("ready"@.len() != "rejected"@.len());
    if player.issues@.len() == 0 {
        assert(player_staging::issue_views(player.issues@).len() == 0);
        lemma_nothing_wrong(source);
        text::trimming_twice_is_trimming_once(player_staging::name_of(source)->0);
        lemma_subject_is_fit(source.user_id->0);
        assert(player_stage_confirmation::missing_field(row) is None);
        let candidate = player_stage_confirmation::candidate_of(batch, row);
        assert(player_stage_confirmation::candidate_fault(candidate) is None);
    }
}

/// A player of the earlier database as it is confirmed: the name and the gender without
/// outer white space, and the number of the user in decimal notation.
pub open spec fn source_candidate(
    source: SourcePlayer,
    metadata: PlayerStagingMetadata,
    digest: Seq<char>,
) -> player_stage_confirmation::Candidate {
    player_stage_confirmation::Candidate {
        source_sha256: digest,
        protocol: metadata.protocol@,
        account_id: metadata.account_id@,
        namespace: metadata.namespace@,
        source_player_id: source.id as int,
        subject_id: text::integer(source.user_id->0 as int),
        name: text::trimmed(player_staging::name_of(source)->0),
        gender: text::trimmed(source.gender->0@),
        level: source.level->0 as int,
        exp: source.exp->0 as int,
        hp: source.hp->0 as int,
        max_hp: source.max_hp->0 as int,
        soul_power: source.soul_power->0 as int,
        max_soul_power: source.max_soul_power->0 as int,
        strength: source.strength->0 as int,
        agility: source.agility->0 as int,
        spirit: source.spirit->0 as int,
        endurance: source.endurance->0 as int,
        perception: source.perception->0 as int,
        luck: source.luck->0 as int,
        life_count: source.life_count->0 as int,
        state: "alive"@,
    }
}

/// A player that is read again from the file is the player of the earlier database.
pub proof fn players_are_read_as_they_were(
    file: StageFile,
    metadata: PlayerStagingMetadata,
    digest: Seq<char>,
    players: Seq<StagedPlayer>,
    rows: Seq<Result<SourcePlayer, String>>,
    staged_at: int,
    i: int,
)
    requires
        player_staging::staged_from(players, rows),
        player_staging::holds_players(file, metadata, digest, players, staged_at),
        0 <= i < players.len(),
        players[i].issues@.len() == 0,
    ensures
        player_stage_confirmation::candidate_of(
            player_stage_confirmation::read_batch(file.batches@[0]),
            file.players@[i],
        ) == source_candidate(rows[i]->Ok_0, metadata, digest),
{
    let player = players[i];
    let source = rows[i]->Ok_0;
    assert(player_staging::holds_player(file.players@[i], player, i + 1));
    assert(player_staging::keeps_fit_fields(player, source));
    assert(player_staging::issue_views(player.issues@).len() == 0);
    lemma_nothing_wrong(source);
}

proof fn lemma_nothing_wrong(source: SourcePlayer)
    requires
        player_staging::source_issues(source).len() == 0,
    ensures
        source.id > 0,
        player_staging::subject_of(source.user_id) is Some,
        player_staging::text_code(player_staging::name_of(source), 128) is None,
        player_staging::gender_code(text::optional_text(source.gender)) is None,
        player_staging::number_code(source.level, 1, 120) is None,
        player_staging::number_code(source.exp, 0, i64::MAX as int) is None,
        player_staging::number_code(source.hp, 0, i64::MAX as int) is None,
        player_staging::number_code(source.max_hp, 1, i64::MAX as int) is None,
        source.hp->0 <= source.max_hp->0,
        player_staging::number_code(source.soul_power, 0, i64::MAX as int) is None,
        player_staging::number_code(source.max_soul_power, 1, i64::MAX as int) is None,
        source.soul_power->0 <= source.max_soul_power->0,
        player_staging::number_code(source.strength, 0, i64::MAX as int) is None,
        player_staging::number_code(source.agility, 0, i64::MAX as int) is None,
        player_staging::number_code(source.spirit, 0, i64::MAX as int) is None,
        player_staging::number_code(source.endurance, 0, i64::MAX as int) is None,
        player_staging::number_code(source.perception, 0, i64::MAX as int) is None,
        player_staging::number_code(source.luck, 0, i64::MAX as int) is None,
        player_staging::number_code(source.life_count, 1, 3) is None,
        player_staging::state_code(source.state) is None,
{
}

/// Whether a field is named in a list of what is wrong.
pub open spec fn names_field(issues: Seq<(Seq<char>, Seq<char>)>, field: Seq<char>) -> bool {
    exists|i: int| 0 <= i < issues.len() && (#[trigger] issues[i]).0 == field
}

/// No field is named twice in a list of what is wrong.
pub open spec fn names_fields_once(issues: Seq<(Seq<char>, Seq<char>)>) -> bool {
    forall|i: int, j: int|
        0 <= i < j < issues.len() ==> (#[trigger] issues[i]).0 != (#[trigger] issues[j]).0
}

/// A number by which the names of the fields differ.
spec fn shape(field: Seq<char>) -> int {
    field.len() * 1000000 + (field[0] as int) * 1000 + field[field.len() - 2] as int
}

proof fn lemma_note(
    issues: Seq<(Seq<char>, Seq<char>)>,
    field: Seq<char>,
    code: Option<Seq<char>>,
) -> (longer: Seq<(Seq<char>, Seq<char>)>)
    requires
        names_fields_once(issues),
        code is Some ==> !names_field(issues, field),
    ensures
        longer == issues + player_staging::issue(field, code),
        names_fields_once(longer),
        forall|other: Seq<char>| #[trigger]
            names_field(longer, other) <==> names_field(issues, other) || (code is Some && other
                == field),
{
    let longer = issues + player_staging::issue(field, code);
    assert forall|other: Seq<char>| #[trigger]
        names_field(longer, other) <==> names_field(issues, other) || (code is Some && other
            == field) by {
        if names_field(issues, other) {
            let i = choose|i: int| 0 <= i < issues.len() && (#[trigger] issues[i]).0 == other;
            assert(longer[i].0 == other);
        }
        if names_field(longer, other) {
            let i = choose|i: int| 0 <= i < longer.len() && (#[trigger] longer[i]).0 == other;
            if i < issues.len() {
                assert(issues[i].0 == other);
            }
        }
        if code is Some && other == field {
            assert(longer[issues.len() as int].0 == other);
        }
    }
    assert forall|i: int, j: int| 0 <= i < j < longer.len() implies (#[trigger] longer[i]).0 != (
    #[trigger] longer[j]).0 by {
        if j < issues.len() {
            assert(issues[i].0 != issues[j].0);
        } else {
            assert(issues[i] == longer[i]);
        }
    }
    longer
}

#[verifier::rlimit(60)]
proof fn lemma_own_issues(source: SourcePlayer)
    ensures
        names_fields_once(player_staging::source_issues(source)),
        player_staging::subject_of(source.user_id) is Some ==> !names_field(
            player_staging::source_issues(source),
            "user_id"@,
        ),
{
    let most = i64::MAX as int;
    reveal_strlit("id");
    assert(shape("id"@) == 2105105);
    reveal_strlit("user_id");
    assert(shape("user_id"@) == 7117105);
    reveal_strlit("name");
    assert(shape("name"@) == 4110109);
    reveal_strlit("sex");
    assert(shape("sex"@) == 3115101);
    reveal_strlit("level");
    assert(shape("level"@) == 5108101);
    reveal_strlit("exp");
    assert(shape("exp"@) == 3101120);
    reveal_strlit("max_hp");
    assert(shape("max_hp"@) == 6109104);
    reveal_strlit("hp");
    assert(shape("hp"@) == 2104104);
    reveal_strlit("max_mp");
    assert(shape("max_mp"@) == 6109109);
    reveal_strlit("mp");
    assert(shape("mp"@) == 2109109);
    reveal_strlit("strength");
    assert(shape("strength"@) == 8115116);
    reveal_strlit("agility");
    assert(shape("agility"@) == 7097116);
    reveal_strlit("spirit");
    assert(shape("spirit"@) == 6115105);
    reveal_strlit("endurance");
    assert(shape("endurance"@) == 9101099);
    reveal_strlit("perception");
    assert(shape("perception"@) == 10112111);
    reveal_strlit("luck");
    assert(shape("luck"@) == 4108099);
    reveal_strlit("life_count");
    assert(shape("life_count"@) == 10108110);
    reveal_strlit("state");
    assert(shape("state"@) == 5115116);
    let l0 = Seq::<(Seq<char>, Seq<char>)>::empty();
    let l1 = lemma_note(l0, "id"@, if source.id <= 0 {
            Some("source_player_id_invalid"@)
        } else {
            None
        });
    let l2 = lemma_note(l1, "user_id"@, if player_staging::subject_of(source.user_id) is None {
            Some("subject_id_invalid"@)
        } else {
            None
        });
    let l3 = lemma_note(l2, "name"@, player_staging::text_code(player_staging::name_of(source), 128));
    let l4 = lemma_note(l3, "sex"@, player_staging::gender_code(text::optional_text(source.gender)));
    let l5 = lemma_note(l4, "level"@, player_staging::number_code(source.level, 1, 120));
    let l6 = lemma_note(l5, "exp"@, player_staging::number_code(source.exp, 0, most));
    let l7 = lemma_note(l6, "max_hp"@, player_staging::number_code(source.max_hp, 1, most));
    let l8 = lemma_note(l7, "hp"@, player_staging::number_code(source.hp, 0, most));
    let l9 = lemma_note(l8, "hp"@, player_staging::excess_code(source.hp, source.max_hp, "hp_exceeds_max_hp"@));
    let l10 = lemma_note(l9, "max_mp"@, player_staging::number_code(source.max_soul_power, 1, most));
    let l11 = lemma_note(l10, "mp"@, player_staging::number_code(source.soul_power, 0, most));
    let l12 = lemma_note(l11, "mp"@, player_staging::excess_code(source.soul_power, source.max_soul_power, "mp_exceeds_max_mp"@));
    let l13 = lemma_note(l12, "strength"@, player_staging::number_code(source.strength, 0, most));
    let l14 = lemma_note(l13, "agility"@, player_staging::number_code(source.agility, 0, most));
    let l15 = lemma_note(l14, "spirit"@, player_staging::number_code(source.spirit, 0, most));
    let l16 = lemma_note(l15, "endurance"@, player_staging::number_code(source.endurance, 0, most));
    let l17 = lemma_note(l16, "perception"@, player_staging::number_code(source.perception, 0, most));
    let l18 = lemma_note(l17, "luck"@, player_staging::number_code(source.luck, 0, most));
    let l19 = lemma_note(l18, "life_count"@, player_staging::number_code(source.life_count, 1, 3));
    let l20 = lemma_note(l19, "state"@, player_staging::state_code(source.state));
    assert(l20 == player_staging::source_issues(source));
}

/// No field of a player is noted as wrong more than once.
pub proof fn fields_are_noted_once(
    players: Seq<StagedPlayer>,
    rows: Seq<Result<SourcePlayer, String>>,
    i: int,
)
    requires
        player_staging::staged_from(players, rows),
        0 <= i < players.len(),
    ensures
        names_fields_once(player_staging::issue_views(players[i].issues@)),
{
    let source = rows[i]->Ok_0;
    let list = player_staging::row_subjects(rows);
    assert(player_staging::keeps_fit_fields(players[i], source));
    lemma_own_issues(source);
    assert(list[i] == player_staging::subject_of(source.user_id));
    let all = lemma_note(
        player_staging::source_issues(source),
        "user_id"@,
        if player_staging::is_repeated(list, i) {
            Some("duplicate_subject_id"@)
        } else {
            None
        },
    );
}

} // verus!
