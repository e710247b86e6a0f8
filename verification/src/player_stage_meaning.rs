//! What staging keeps of a player of an earlier database, and what makes it fit to be
//! confirmed.
use crate::config;
use crate::media;
use crate::player_stage_confirmation;
use crate::player_stage_confirmation::{Candidate, StageBatch, StageRead};
use crate::player_staging;
use crate::player_staging::{
    PlayerStagingMetadata, SourcePlayer, StageIssueRow, StagePlayerRow, StagedPlayer,
    StagingSource,
};
use crate::text;
use vstd::prelude::*;

verus! {

/// Whether a text says anything: one of its characters is no white space.
pub open spec fn says_something(value: Seq<char>) -> bool {
    exists|i: int| 0 <= i < value.len() && !text::is_white(#[trigger] value[i])
}

/// The staged name is the name, wherever the name says anything; the nickname is staged
/// only where the name is missing or blank. Either is staged without outer white space, and
/// only where between 1 and 128 characters are left, none of them a control character.
pub proof fn the_name_comes_before_the_nickname(player: StagedPlayer, source: SourcePlayer)
    requires
        player_staging::keeps_fit_fields(player, source),
    ensures
        source.name is Some && says_something((source.name->0)@) ==> {
            let kept = text::trimmed((source.name->0)@);
            text::optional_text(player.name) == (if 1 <= kept.len() <= 128 && !text::has_control(
                kept,
            ) {
                Some(kept)
            } else {
                None
            })
        },
        (source.name is None || !says_something((source.name->0)@)) ==> {
            match source.nickname {
                None => player.name is None,
                Some(nickname) => {
                    let kept = text::trimmed(nickname@);
                    text::optional_text(player.name) == (if 1 <= kept.len() <= 128
                        && !text::has_control(kept) {
                        Some(kept)
                    } else {
                        None
                    })
                },
            }
        },
{
    if let Some(name) = source.name {
        text::blank_means_all_white(name@);
        assert(says_something(name@) <==> !text::is_blank(name@));
    }
}

/// Every other field is staged from the field of its own: the number of the user in decimal
/// notation, the gender without outer white space where it is one of two, the state by its
/// name, and each number where it lies within its bounds.
pub proof fn fields_are_staged_from_their_own_fields(player: StagedPlayer, source: SourcePlayer)
    requires
        player_staging::keeps_fit_fields(player, source),
    ensures
        player.source_player_id == source.id,
        match source.user_id {
            Some(user_id) => if user_id >= 1 {
                text::optional_text(player.subject_id) == Some(text::decimal(user_id as nat))
            } else {
                player.subject_id is None
            },
            None => player.subject_id is None,
        },
        text::optional_text(player.gender) == (match source.gender {
            Some(gender) => if text::trimmed(gender@) == "男"@ || text::trimmed(gender@) == "女"@ {
                Some(text::trimmed(gender@))
            } else {
                None
            },
            None => None,
        }),
        source.state == Some(0i64) <==> text::optional_text(player.state) == Some("alive"@),
        source.state == Some(1i64) <==> text::optional_text(player.state) == Some("dead"@),
        source.state == Some(2i64) <==> text::optional_text(player.state) == Some("reviving"@),
        source.state == Some(3i64) <==> text::optional_text(player.state) == Some("deleted"@),
        player.level == (match source.level {
            Some(value) => if 1 <= value <= 120 {
                Some(value)
            } else {
                None
            },
            None => None,
        }),
        player.exp == (match source.exp {
            Some(value) => if 0 <= value {
                Some(value)
            } else {
                None
            },
            None => None,
        }),
        player.hp == (match source.hp {
            Some(value) => if 0 <= value {
                Some(value)
            } else {
                None
            },
            None => None,
        }),
        player.max_hp == (match source.max_hp {
            Some(value) => if 1 <= value {
                Some(value)
            } else {
                None
            },
            None => None,
        }),
        player.soul_power == (match source.soul_power {
            Some(value) => if 0 <= value {
                Some(value)
            } else {
                None
            },
            None => None,
        }),
        player.max_soul_power == (match source.max_soul_power {
            Some(value) => if 1 <= value {
                Some(value)
            } else {
                None
            },
            None => None,
        }),
        player.strength == (match source.strength {
            Some(value) => if 0 <= value {
                Some(value)
            } else {
                None
            },
            None => None,
        }),
        player.agility == (match source.agility {
            Some(value) => if 0 <= value {
                Some(value)
            } else {
                None
            },
            None => None,
        }),
        player.spirit == (match source.spirit {
            Some(value) => if 0 <= value {
                Some(value)
            } else {
                None
            },
            None => None,
        }),
        player.endurance == (match source.endurance {
            Some(value) => if 0 <= value {
                Some(value)
            } else {
                None
            },
            None => None,
        }),
        player.perception == (match source.perception {
            Some(value) => if 0 <= value {
                Some(value)
            } else {
                None
            },
            None => None,
        }),
        player.luck == (match source.luck {
            Some(value) => if 0 <= value {
                Some(value)
            } else {
                None
            },
            None => None,
        }),
        player.life_count == (match source.life_count {
            Some(value) => if 1 <= value <= 3 {
                Some(value)
            } else {
                None
            },
            None => None,
        }),
{
    reveal_strlit("男");
    reveal_strlit("女");
    reveal_strlit("alive");
    reveal_strlit("dead");
    reveal_strlit("reviving");
    reveal_strlit("deleted");
    assert("alive"@.len() == 5 && "dead"@.len() == 4 && "reviving"@.len() == 8);
    assert("deleted"@.len() == 7);
    if let Some(gender) = source.gender {
        let kept = text::trimmed(gender@);
        if kept == "男"@ || kept == "女"@ {
            assert(!text::has_control(kept));
        }
    }
}

/// A row has nothing wrong with it exactly when every field is there and within its
/// bounds, the name and the gender say what they have to, health and soul power do not
/// exceed their bounds, and the player is alive.
pub proof fn a_row_is_sound_exactly_when_its_fields_are(source: SourcePlayer)
    ensures
        player_staging::source_issues(source).len() == 0 <==> {
            &&& source.id >= 1
            &&& source.user_id matches Some(user_id) && user_id >= 1
            &&& player_staging::name_of(source) matches Some(name) && 1 <= text::trimmed(name).len()
                <= 128 && !text::has_control(text::trimmed(name))
            &&& source.gender matches Some(gender) && (text::trimmed(gender@) == "男"@
                || text::trimmed(gender@) == "女"@)
            &&& source.level matches Some(value) && 1 <= value <= 120
            &&& source.exp matches Some(value) && 0 <= value
            &&& source.hp matches Some(value) && 0 <= value
            &&& source.max_hp matches Some(value) && 1 <= value
            &&& source.soul_power matches Some(value) && 0 <= value
            &&& source.max_soul_power matches Some(value) && 1 <= value
            &&& source.strength matches Some(value) && 0 <= value
            &&& source.agility matches Some(value) && 0 <= value
            &&& source.spirit matches Some(value) && 0 <= value
            &&& source.endurance matches Some(value) && 0 <= value
            &&& source.perception matches Some(value) && 0 <= value
            &&& source.luck matches Some(value) && 0 <= value
            &&& source.life_count matches Some(value) && 1 <= value <= 3
            &&& source.hp->0 <= source.max_hp->0
            &&& source.soul_power->0 <= source.max_soul_power->0
            &&& source.state == Some(0i64)
        },
{
    reveal_strlit("男");
    reveal_strlit("女");
    if let Some(gender) = source.gender {
        let kept = text::trimmed(gender@);
        if kept == "男"@ || kept == "女"@ {
            assert(!text::has_control(kept));
        }
    }
}

proof fn lemma_has(
    issues: Seq<(Seq<char>, Seq<char>)>,
    field: Seq<char>,
    code: Option<Seq<char>>,
) -> (longer: Seq<(Seq<char>, Seq<char>)>)
    ensures
        longer == issues + player_staging::issue(field, code),
        forall|other: (Seq<char>, Seq<char>)| #[trigger]
            longer.contains(other) <==> issues.contains(other) || (other.0 == field && code
                == Some(other.1)),
{
    let longer = issues + player_staging::issue(field, code);
    assert forall|other: (Seq<char>, Seq<char>)| #[trigger]
        longer.contains(other) <==> issues.contains(other) || (other.0 == field && code == Some(
            other.1,
        )) by {
        if issues.contains(other) {
            let i = choose|i: int| 0 <= i < issues.len() && issues[i] == other;
            assert(longer[i] == other);
        }
        if other.0 == field && code == Some(other.1) {
            assert(longer[issues.len() as int] == other);
        }
        if longer.contains(other) {
            let i = choose|i: int| 0 <= i < longer.len() && longer[i] == other;
            if i < issues.len() {
                assert(issues[i] == other);
            }
        }
    }
    longer
}

/// What is wrong with a row is noted under the field that is wrong, with the reason: a
/// number that is missing or out of its bounds, health or soul power above its bound, a
/// state in which nobody can be confirmed, and so on.
pub proof fn faults_of_a_row_are_noted_under_their_fields(source: SourcePlayer)
    ensures
        (source.id <= 0) ==> player_staging::source_issues(source).contains(
            ("id"@, "source_player_id_invalid"@),
        ),
        (source.user_id is None || source.user_id->0 <= 0) ==> player_staging::source_issues(source).contains(
            ("user_id"@, "subject_id_invalid"@),
        ),
        (player_staging::name_of(source) is None) ==> player_staging::source_issues(source).contains(
            ("name"@, "required_text_missing"@),
        ),
        (player_staging::name_of(source) matches Some(name) && !(1 <= text::trimmed(name).len() <= 128 && !text::has_control(text::trimmed(name)))) ==> player_staging::source_issues(source).contains(
            ("name"@, "text_invalid"@),
        ),
        (source.gender is None) ==> player_staging::source_issues(source).contains(
            ("sex"@, "required_text_missing"@),
        ),
        (source.state is None) ==> player_staging::source_issues(source).contains(
            ("state"@, "number_missing"@),
        ),
        (source.state matches Some(state) && 1 <= state <= 3) ==> player_staging::source_issues(source).contains(
            ("state"@, "state_not_confirmable"@),
        ),
        (source.state matches Some(state) && !(0 <= state <= 3)) ==> player_staging::source_issues(source).contains(
            ("state"@, "state_invalid"@),
        ),
        (source.hp is Some && source.max_hp is Some && 0 <= source.hp->0 && 1 <= source.max_hp->0 && source.hp->0 > source.max_hp->0) ==> player_staging::source_issues(source).contains(
            ("hp"@, "hp_exceeds_max_hp"@),
        ),
        (source.soul_power is Some && source.max_soul_power is Some && 0 <= source.soul_power->0 && 1 <= source.max_soul_power->0 && source.soul_power->0 > source.max_soul_power->0) ==> player_staging::source_issues(source).contains(
            ("mp"@, "mp_exceeds_max_mp"@),
        ),
        (source.level is None) ==> player_staging::source_issues(source).contains(
            ("level"@, "number_missing"@),
        ),
        (source.level matches Some(value) && !(1 <= value <= 120)) ==> player_staging::source_issues(source).contains(
            ("level"@, "number_out_of_range"@),
        ),
        (source.exp is None) ==> player_staging::source_issues(source).contains(
            ("exp"@, "number_missing"@),
        ),
        (source.exp matches Some(value) && !(0 <= value)) ==> player_staging::source_issues(source).contains(
            ("exp"@, "number_out_of_range"@),
        ),
        (source.hp is None) ==> player_staging::source_issues(source).contains(
            ("hp"@, "number_missing"@),
        ),
        (source.hp matches Some(value) && !(0 <= value)) ==> player_staging::source_issues(source).contains(
            ("hp"@, "number_out_of_range"@),
        ),
        (source.max_hp is None) ==> player_staging::source_issues(source).contains(
            ("max_hp"@, "number_missing"@),
        ),
        (source.max_hp matches Some(value) && !(1 <= value)) ==> player_staging::source_issues(source).contains(
            ("max_hp"@, "number_out_of_range"@),
        ),
        (source.soul_power is None) ==> player_staging::source_issues(source).contains(
            ("mp"@, "number_missing"@),
        ),
        (source.soul_power matches Some(value) && !(0 <= value)) ==> player_staging::source_issues(source).contains(
            ("mp"@, "number_out_of_range"@),
        ),
        (source.max_soul_power is None) ==> player_staging::source_issues(source).contains(
            ("max_mp"@, "number_missing"@),
        ),
        (source.max_soul_power matches Some(value) && !(1 <= value)) ==> player_staging::source_issues(source).contains(
            ("max_mp"@, "number_out_of_range"@),
        ),
        (source.strength is None) ==> player_staging::source_issues(source).contains(
            ("strength"@, "number_missing"@),
        ),
        (source.strength matches Some(value) && !(0 <= value)) ==> player_staging::source_issues(source).contains(
            ("strength"@, "number_out_of_range"@),
        ),
        (source.agility is None) ==> player_staging::source_issues(source).contains(
            ("agility"@, "number_missing"@),
        ),
        (source.agility matches Some(value) && !(0 <= value)) ==> player_staging::source_issues(source).contains(
            ("agility"@, "number_out_of_range"@),
        ),
        (source.spirit is None) ==> player_staging::source_issues(source).contains(
            ("spirit"@, "number_missing"@),
        ),
        (source.spirit matches Some(value) && !(0 <= value)) ==> player_staging::source_issues(source).contains(
            ("spirit"@, "number_out_of_range"@),
        ),
        (source.endurance is None) ==> player_staging::source_issues(source).contains(
            ("endurance"@, "number_missing"@),
        ),
        (source.endurance matches Some(value) && !(0 <= value)) ==> player_staging::source_issues(source).contains(
            ("endurance"@, "number_out_of_range"@),
        ),
        (source.perception is None) ==> player_staging::source_issues(source).contains(
            ("perception"@, "number_missing"@),
        ),
        (source.perception matches Some(value) && !(0 <= value)) ==> player_staging::source_issues(source).contains(
            ("perception"@, "number_out_of_range"@),
        ),
        (source.luck is None) ==> player_staging::source_issues(source).contains(
            ("luck"@, "number_missing"@),
        ),
        (source.luck matches Some(value) && !(0 <= value)) ==> player_staging::source_issues(source).contains(
            ("luck"@, "number_out_of_range"@),
        ),
        (source.life_count is None) ==> player_staging::source_issues(source).contains(
            ("life_count"@, "number_missing"@),
        ),
        (source.life_count matches Some(value) && !(1 <= value <= 3)) ==> player_staging::source_issues(source).contains(
            ("life_count"@, "number_out_of_range"@),
        ),
        source.gender matches Some(gender) && 1 <= text::trimmed(gender@).len() <= 3
            && !text::has_control(text::trimmed(gender@)) && text::trimmed(gender@) != "男"@
            && text::trimmed(gender@) != "女"@ ==> player_staging::source_issues(source).contains(
            ("sex"@, "gender_invalid"@),
        ),
{
    let most = i64::MAX as int;
    let l0 = Seq::<(Seq<char>, Seq<char>)>::empty();
    let l1 = lemma_has(l0, "id"@, if source.id <= 0 {
        Some("source_player_id_invalid"@)
    } else {
        None
    });
    let l2 = lemma_has(l1, "user_id"@, if player_staging::subject_of(source.user_id) is None {
        Some("subject_id_invalid"@)
    } else {
        None
    });
    let l3 = lemma_has(l2, "name"@, player_staging::text_code(player_staging::name_of(source), 128));
    let l4 = lemma_has(l3, "sex"@, player_staging::gender_code(text::optional_text(source.gender)));
    let l5 = lemma_has(l4, "level"@, player_staging::number_code(source.level, 1, 120));
    let l6 = lemma_has(l5, "exp"@, player_staging::number_code(source.exp, 0, most));
    let l7 = lemma_has(l6, "max_hp"@, player_staging::number_code(source.max_hp, 1, most));
    let l8 = lemma_has(l7, "hp"@, player_staging::number_code(source.hp, 0, most));
    let l9 = lemma_has(l8, "hp"@, player_staging::excess_code(source.hp, source.max_hp, "hp_exceeds_max_hp"@));
    let l10 = lemma_has(l9, "max_mp"@, player_staging::number_code(source.max_soul_power, 1, most));
    let l11 = lemma_has(l10, "mp"@, player_staging::number_code(source.soul_power, 0, most));
    let l12 = lemma_has(l11, "mp"@, player_staging::excess_code(source.soul_power, source.max_soul_power, "mp_exceeds_max_mp"@));
    let l13 = lemma_has(l12, "strength"@, player_staging::number_code(source.strength, 0, most));
    let l14 = lemma_has(l13, "agility"@, player_staging::number_code(source.agility, 0, most));
    let l15 = lemma_has(l14, "spirit"@, player_staging::number_code(source.spirit, 0, most));
    let l16 = lemma_has(l15, "endurance"@, player_staging::number_code(source.endurance, 0, most));
    let l17 = lemma_has(l16, "perception"@, player_staging::number_code(source.perception, 0, most));
    let l18 = lemma_has(l17, "luck"@, player_staging::number_code(source.luck, 0, most));
    let l19 = lemma_has(l18, "life_count"@, player_staging::number_code(source.life_count, 1, 3));
    let l20 = lemma_has(l19, "state"@, player_staging::state_code(source.state));
    assert(l20 == player_staging::source_issues(source));
}

/// A player is noted as a duplicate exactly when another row has the same user, whether
/// before it or behind it.
pub proof fn duplicates_are_other_rows_of_the_same_user(
    rows: Seq<Result<SourcePlayer, String>>,
    i: int,
)
    requires
        0 <= i < rows.len(),
    ensures
        player_staging::is_repeated(player_staging::row_subjects(rows), i) <==> exists|j: int|
            0 <= j < rows.len() && j != i && (rows[i]->Ok_0).user_id is Some && ((
            rows[i]->Ok_0).user_id->0) >= 1 && ((#[trigger] rows[j])->Ok_0).user_id == (
            rows[i]->Ok_0).user_id,
{
    let list = player_staging::row_subjects(rows);
    let own = (rows[i]->Ok_0).user_id;
    assert forall|j: int| 0 <= j < rows.len() && own is Some && own->0 >= 1 implies (
    #[trigger] list[j] == list[i] <==> (rows[j]->Ok_0).user_id == own) by {
        let other = (rows[j]->Ok_0).user_id;
        if other is Some && other->0 >= 1 && list[j] == list[i] {
            text::numbers_are_read_as_they_are_written(own->0 as nat, i64::MAX as nat);
            text::numbers_are_read_as_they_are_written(other->0 as nat, i64::MAX as nat);
        }
    }
    if player_staging::is_repeated(list, i) {
        let subject = list[i]->0;
        if player_staging::occurs_within(list, 0, i, subject) {
            let j = choose|j: int| 0 <= j < i && #[trigger] list[j] == Some(subject);
            assert(rows[j] == rows[j]);
        } else {
            let j = choose|j: int|
                i + 1 <= j < list.len() && #[trigger] list[j] == Some(subject);
            assert(rows[j] == rows[j]);
        }
    }
    if exists|j: int|
        0 <= j < rows.len() && j != i && own is Some && own->0 >= 1 && ((
        #[trigger] rows[j])->Ok_0).user_id == own {
        let j = choose|j: int|
            0 <= j < rows.len() && j != i && own is Some && own->0 >= 1 && ((
            #[trigger] rows[j])->Ok_0).user_id == own;
        assert(list[j] == list[i]);
    }
}

/// The players that are ready are those with nothing wrong: one more sound player is one
/// more that is ready, one more with a fault changes nothing, and nobody counts without
/// being there.
pub proof fn ready_players_are_those_without_faults(
    players: Seq<StagedPlayer>,
    player: StagedPlayer,
)
    ensures
        player_staging::ready_count(Seq::<StagedPlayer>::empty()) == 0,
        player.issues@.len() == 0 ==> player_staging::ready_count(players.push(player))
            == player_staging::ready_count(players) + 1,
        player.issues@.len() > 0 ==> player_staging::ready_count(players.push(player))
            == player_staging::ready_count(players),
{
    assert(players.push(player).drop_last() =~= players);
}

/// Staging is refused exactly when it is not for the one known protocol, an account or a
/// namespace is not named as it should be, the source is no ordinary file of at most 64 MiB,
/// a column is missing, there are more than ten thousand rows or one that cannot be read, the
/// output is no SQLite file, or the time is out of range.
pub proof fn staging_is_refused_only_for_its_reasons(
    source: StagingSource,
    output_path: Seq<char>,
    metadata: PlayerStagingMetadata,
    seconds: int,
)
    ensures
        player_staging::staging_error(source, output_path, metadata, seconds) is None <==> {
            let columns = text::texts(source.columns@);
            &&& metadata.protocol@ == "onebot11"@
            &&& text::trimmed(metadata.account_id@) == metadata.account_id@
            &&& 1 <= metadata.account_id@.len() <= 128
            &&& !text::has_control(metadata.account_id@)
            &&& config::is_namespace(metadata.namespace@)
            &&& !source.file.symlink
            &&& source.file.regular
            &&& source.file.size <= 64 * 1024 * 1024
            &&& source.player_exists
            &&& columns.contains("id"@)
            &&& columns.contains("user_id"@)
            &&& columns.contains("name"@)
            &&& columns.contains("nickname"@)
            &&& columns.contains("sex"@)
            &&& columns.contains("level"@)
            &&& columns.contains("exp"@)
            &&& columns.contains("hp"@)
            &&& columns.contains("max_hp"@)
            &&& columns.contains("mp"@)
            &&& columns.contains("max_mp"@)
            &&& columns.contains("strength"@)
            &&& columns.contains("agility"@)
            &&& columns.contains("spirit"@)
            &&& columns.contains("endurance"@)
            &&& columns.contains("perception"@)
            &&& columns.contains("luck"@)
            &&& columns.contains("life_count"@)
            &&& columns.contains("state"@)
            &&& source.rows@.len() <= 10_000
            &&& forall|i: int| 0 <= i < source.rows@.len() ==> (#[trigger] source.rows@[i]) is Ok
            &&& player_staging::has_extension(output_path, "sqlite"@)
            &&& seconds <= 0x7fff_ffff_ffff_ffff
        },
{
    lemma_rows(source.rows@, 0);
    let required = player_staging::required_columns();
    lemma_columns(required, text::texts(source.columns@));
    let columns = text::texts(source.columns@);
    if player_staging::missing_column(required, columns) is None {
        assert forall|i: int| 0 <= i < 19 implies columns.contains(#[trigger] required[i]) by {}
        assert(columns.contains(required[0]) && columns.contains(required[1]));
        assert(columns.contains(required[2]) && columns.contains(required[3]));
        assert(columns.contains(required[4]) && columns.contains(required[5]));
        assert(columns.contains(required[6]) && columns.contains(required[7]));
        assert(columns.contains(required[8]) && columns.contains(required[9]));
        assert(columns.contains(required[10]) && columns.contains(required[11]));
        assert(columns.contains(required[12]) && columns.contains(required[13]));
        assert(columns.contains(required[14]) && columns.contains(required[15]));
        assert(columns.contains(required[16]) && columns.contains(required[17]));
        assert(columns.contains(required[18]));
    }
}

proof fn lemma_rows(rows: Seq<Result<SourcePlayer, String>>, from: nat)
    requires
        from <= rows.len(),
    ensures
        player_staging::rows_error(rows, from) is None <==> (from == rows.len() || rows.len()
            <= 10_000) && forall|i: int|
            from <= i < rows.len() ==> (#[trigger] rows[i]) is Ok,
    decreases rows.len() - from,
{
    if from < rows.len() {
        lemma_rows(rows, from + 1);
        if player_staging::rows_error(rows, from) is None {
            assert forall|i: int| from <= i < rows.len() implies (#[trigger] rows[i]) is Ok by {}
        }
    }
}

proof fn lemma_columns(required: Seq<Seq<char>>, columns: Seq<Seq<char>>)
    ensures
        player_staging::missing_column(required, columns) is None <==> forall|i: int|
            0 <= i < required.len() ==> columns.contains(#[trigger] required[i]),
    decreases required.len(),
{
    if required.len() > 0 {
        lemma_columns(required.skip(1), columns);
        if player_staging::missing_column(required, columns) is None {
            assert forall|i: int| 0 <= i < required.len() implies columns.contains(
                #[trigger] required[i],
            ) by {
                if i > 0 {
                    assert(required.skip(1)[i - 1] == required[i]);
                }
            }
        } else if columns.contains(required[0]) {
            let rest = required.skip(1);
            let i = choose|i: int| 0 <= i < rest.len() && !columns.contains(#[trigger] rest[i]);
            assert(required[i + 1] == rest[i]);
        }
    }
}

/// A candidate can be confirmed exactly when it belongs to a named account of the one known
/// protocol, has a number, a user and a name, is one of two genders, has a level from 1 to
/// 120, nothing negative, health and soul power within their bounds, one of three lives, and
/// is alive.
pub proof fn candidates_are_confirmed_for_what_they_are(candidate: Candidate)
    ensures
        player_stage_confirmation::candidate_fault(candidate) is None <==> {
            &&& media::is_digest(candidate.source_sha256)
            &&& candidate.protocol == "onebot11"@
            &&& 1 <= candidate.account_id.len() <= 128
            &&& !text::has_control(candidate.account_id)
            &&& text::trimmed(candidate.account_id) == candidate.account_id
            &&& config::is_namespace(candidate.namespace)
            &&& candidate.source_player_id >= 1
            &&& 1 <= candidate.subject_id.len() <= 256
            &&& !text::has_control(candidate.subject_id)
            &&& 1 <= candidate.name.len() <= 128
            &&& !text::has_control(candidate.name)
            &&& text::trimmed(candidate.name) == candidate.name
            &&& candidate.gender == "男"@ || candidate.gender == "女"@
            &&& 1 <= candidate.level <= 120
            &&& candidate.exp >= 0
            &&& 0 <= candidate.hp <= candidate.max_hp
            &&& candidate.max_hp >= 1
            &&& 0 <= candidate.soul_power <= candidate.max_soul_power
            &&& candidate.max_soul_power >= 1
            &&& candidate.strength >= 0
            &&& candidate.agility >= 0
            &&& candidate.spirit >= 0
            &&& candidate.endurance >= 0
            &&& candidate.perception >= 0
            &&& candidate.luck >= 0
            &&& 1 <= candidate.life_count <= 3
            &&& candidate.state == "alive"@
        },
{
}

/// A row becomes a candidate with every field in its own place, and is refused unless it is
/// ready, nothing is noted under its number, no field is missing, and the candidate is fit.
pub proof fn rows_become_candidates_field_by_field(
    issues: Seq<StageIssueRow>,
    batch: StageBatch,
    row: StagePlayerRow,
)
    ensures
        player_stage_confirmation::row_error(issues, batch, row) is None ==> {
            let candidate = player_stage_confirmation::candidate_of(batch, row);
            &&& row.validation_state@ == "ready"@
            &&& row.issue_count == 0
            &&& player_stage_confirmation::noted(issues, row.id as int) == 0
            &&& candidate.source_sha256 == batch.source_sha256@
            &&& candidate.protocol == batch.protocol@
            &&& candidate.account_id == batch.account_id@
            &&& candidate.namespace == batch.namespace@
            &&& candidate.source_player_id == row.source_player_id
            &&& text::optional_text(row.subject_id) == Some(candidate.subject_id)
            &&& text::optional_text(row.name) == Some(candidate.name)
            &&& text::optional_text(row.gender) == Some(candidate.gender)
            &&& row.level matches Some(value) && candidate.level == value
            &&& row.exp matches Some(value) && candidate.exp == value
            &&& row.hp matches Some(value) && candidate.hp == value
            &&& row.max_hp matches Some(value) && candidate.max_hp == value
            &&& row.soul_power matches Some(value) && candidate.soul_power == value
            &&& row.max_soul_power matches Some(value) && candidate.max_soul_power == value
            &&& row.strength matches Some(value) && candidate.strength == value
            &&& row.agility matches Some(value) && candidate.agility == value
            &&& row.spirit matches Some(value) && candidate.spirit == value
            &&& row.endurance matches Some(value) && candidate.endurance == value
            &&& row.perception matches Some(value) && candidate.perception == value
            &&& row.luck matches Some(value) && candidate.luck == value
            &&& row.life_count matches Some(value) && candidate.life_count == value
            &&& text::optional_text(row.state) == Some(candidate.state)
            &&& player_stage_confirmation::candidate_fault(candidate) is None
        },
        row.validation_state@ != "ready"@ || row.issue_count != 0
            ==> player_stage_confirmation::row_error(issues, batch, row) == Some(
            "玩家 staging 候选尚不可确认"@,
        ),
        row.validation_state@ == "ready"@ && row.issue_count == 0
            && player_stage_confirmation::noted(issues, row.id as int) > 0
            ==> player_stage_confirmation::row_error(issues, batch, row) == Some(
            "玩家 staging 候选仍包含校验问题"@,
        ),
        row.validation_state@ == "ready"@ && row.issue_count == 0
            && player_stage_confirmation::noted(issues, row.id as int) == 0 && row.subject_id is Some
            && row.name is Some && row.gender is Some && row.level is Some && row.exp is Some
            && row.hp is Some && row.max_hp is Some && row.soul_power is Some
            && row.max_soul_power is Some && row.strength is Some && row.agility is Some
            && row.spirit is Some && row.endurance is Some && row.perception is Some
            && row.luck is Some && row.life_count is Some && row.state is Some
            ==> player_stage_confirmation::row_error(issues, batch, row)
            == player_stage_confirmation::candidate_fault(
            player_stage_confirmation::candidate_of(batch, row),
        ),
{
}

/// How many issues are noted under a number: one more under it counts, one under another
/// number does not.
pub proof fn issues_are_noted_under_their_numbers(
    issues: Seq<StageIssueRow>,
    issue: StageIssueRow,
    id: int,
)
    ensures
        player_stage_confirmation::noted(Seq::<StageIssueRow>::empty(), id) == 0,
        issue.stage_player_id == id ==> player_stage_confirmation::noted(issues.push(issue), id)
            == player_stage_confirmation::noted(issues, id) + 1,
        issue.stage_player_id != id ==> player_stage_confirmation::noted(issues.push(issue), id)
            == player_stage_confirmation::noted(issues, id),
{
    assert(issues.push(issue).drop_last() =~= issues);
}

/// A player stands on a page of candidates only if it is ready, alive, and behind the
/// number where the page starts.
pub proof fn candidates_are_ready_alive_and_behind_the_start(
    row: StagePlayerRow,
    after: Option<i64>,
)
    ensures
        player_stage_confirmation::is_listed(row, after) <==> row.validation_state@ == "ready"@
            && text::optional_text(row.state) == Some("alive"@) && (after is None
            || row.source_player_id > after->0),
{
}

/// The candidate that is loaded is the first player with the number that was asked for.
pub proof fn the_candidate_asked_for_is_loaded(
    stage_file: Seq<char>,
    read: StageRead,
    source_player_id: int,
)
    ensures
        player_stage_confirmation::confirmation_error(stage_file, read, source_player_id) is None
            ==> {
            let rows = read.stage.players@;
            let at = player_stage_confirmation::row_position(rows, source_player_id) as int;
            &&& source_player_id >= 1
            &&& 0 <= at < rows.len()
            &&& rows[at].source_player_id == source_player_id
            &&& forall|i: int|
                0 <= i < at ==> (#[trigger] rows[i]).source_player_id != source_player_id
            &&& player_stage_confirmation::stage_error(stage_file, read) is None
            &&& player_stage_confirmation::row_error(
                read.stage.issues@,
                player_stage_confirmation::read_batch(read.stage.batches@[0]),
                rows[at],
            ) is None
        },
{
    lemma_position(read.stage.players@, source_player_id);
}

proof fn lemma_position(rows: Seq<StagePlayerRow>, id: int)
    ensures
        ({
            let at = player_stage_confirmation::row_position(rows, id) as int;
            &&& at <= rows.len()
            &&& at < rows.len() ==> rows[at].source_player_id == id
            &&& forall|i: int| 0 <= i < at ==> (#[trigger] rows[i]).source_player_id != id
        }),
    decreases rows.len(),
{
    if rows.len() > 0 && rows[0].source_player_id != id {
        let rest = rows.skip(1);
        lemma_position(rest, id);
        let at = player_stage_confirmation::row_position(rows, id) as int;
        assert forall|i: int| 0 <= i < at implies (#[trigger] rows[i]).source_player_id != id by {
            if i > 0 {
                assert(rest[i - 1] == rows[i]);
            }
        }
    }
}

/// A stage file is read only where its path is safe and names a SQLite file, which is an
/// ordinary file of at most 64 MiB within the data directory, where its three tables are as
/// they should be, where its one batch is numbered one, of the known version and form, for
/// the one known protocol and a named account, and where its counts add up.
pub proof fn stage_files_are_read_only_when_sound(stage_file: Seq<char>, read: StageRead)
    ensures
        player_stage_confirmation::stage_error(stage_file, read) is None ==> {
            let batches = read.stage.batches@;
            &&& config::is_safe_path(stage_file)
            &&& player_staging::has_extension(stage_file, "sqlite"@)
            &&& read.root_is_directory
            &&& !read.file.symlink
            &&& read.file.regular
            &&& read.file.size <= 64 * 1024 * 1024
            &&& read.inside_root
            &&& player_stage_confirmation::schema_error(read.tables) is None
            &&& batches.len() == 1
            &&& batches[0].id == 1
            &&& batches[0].schema_version == 1
            &&& batches[0].source_format@ == "recent-sqlite-player-v1"@
            &&& media::is_digest(batches[0].source_sha256@)
            &&& batches[0].protocol@ == "onebot11"@
            &&& 1 <= batches[0].account_id@.len() <= 128
            &&& text::trimmed(batches[0].account_id@) == batches[0].account_id@
            &&& config::is_namespace(batches[0].namespace@)
            &&& batches[0].staged_at >= 0
            &&& batches[0].ready_players >= 0
            &&& batches[0].rejected_players >= 0
            &&& batches[0].total_players == batches[0].ready_players + batches[0].rejected_players
            &&& read.stage.players@.len() == batches[0].total_players
            &&& player_stage_confirmation::in_state(read.stage.players@, "ready"@)
                == batches[0].ready_players
            &&& player_stage_confirmation::in_state(read.stage.players@, "rejected"@)
                == batches[0].rejected_players
        },
{
}

/// The three tables of a stage file have exactly the columns of a batch, of a player and of
/// an issue, and are strict.
pub proof fn stage_tables_have_their_columns(tables: player_stage_confirmation::StageTables)
    requires
        player_stage_confirmation::schema_error(tables) is None,
    ensures
        player_stage_confirmation::column_views(tables.issue.columns@) == seq![
            ("id"@, "INTEGER"@),
            ("stage_player_id"@, "INTEGER"@),
            ("field"@, "TEXT"@),
            ("code"@, "TEXT"@),
        ],
        player_stage_confirmation::column_views(tables.batch.columns@) == seq![
            ("id"@, "INTEGER"@),
            ("schema_version"@, "INTEGER"@),
            ("source_format"@, "TEXT"@),
            ("source_sha256"@, "TEXT"@),
            ("protocol"@, "TEXT"@),
            ("account_id"@, "TEXT"@),
            ("namespace"@, "TEXT"@),
            ("staged_at"@, "INTEGER"@),
            ("total_players"@, "INTEGER"@),
            ("ready_players"@, "INTEGER"@),
            ("rejected_players"@, "INTEGER"@),
        ],
        player_stage_confirmation::column_views(tables.player.columns@) == seq![
            ("id"@, "INTEGER"@),
            ("source_player_id"@, "INTEGER"@),
            ("subject_id"@, "TEXT"@),
            ("name"@, "TEXT"@),
            ("gender"@, "TEXT"@),
            ("level"@, "INTEGER"@),
            ("exp"@, "INTEGER"@),
            ("hp"@, "INTEGER"@),
            ("max_hp"@, "INTEGER"@),
            ("soul_power"@, "INTEGER"@),
            ("max_soul_power"@, "INTEGER"@),
            ("strength"@, "INTEGER"@),
            ("agility"@, "INTEGER"@),
            ("spirit"@, "INTEGER"@),
            ("endurance"@, "INTEGER"@),
            ("perception"@, "INTEGER"@),
            ("luck"@, "INTEGER"@),
            ("life_count"@, "INTEGER"@),
            ("state"@, "TEXT"@),
            ("validation_state"@, "TEXT"@),
            ("issue_count"@, "INTEGER"@),
        ],
        tables.batch.sql is Some,
        tables.player.sql is Some,
        tables.issue.sql is Some,
{
}

} // verus!
