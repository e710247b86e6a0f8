//! How the arguments of commands are read: what is written first and what second.
use crate::game;
use crate::game_args;
use crate::identity;
use crate::message::Protocol;
use crate::text;
use vstd::prelude::*;

verus! {

/// A text that is one word: not empty, and without white space.
pub open spec fn is_word(value: Seq<char>) -> bool {
    value.len() > 0 && forall|i: int| 0 <= i < value.len() ==> !text::is_white(#[trigger] value[i])
}

/// A word, a space and more are that word and the words of the rest.
pub proof fn words_are_read_one_after_the_other(word: Seq<char>, rest: Seq<char>)
    requires
        is_word(word),
    ensures
        text::words(word + " "@ + rest) == seq![word] + text::words(rest),
{
    reveal_strlit(" ");
    let all = word + " "@ + rest;
    let k = word.len() as int;
    assert(all[0] == word[0]);
    text::lemma_run_len(all, text::white(), 0);
    assert(text::trim_start(all) =~= all);
    assert forall|j: int| 0 <= j < k implies text::non_white()(#[trigger] all[j]) by {
        assert(all[j] == word[j]);
    }
    assert(all[k] == ' ');
    text::lemma_run_len(all, text::non_white(), k);
    assert(all.take(k) =~= word);
    let tail = all.skip(k);
    assert(tail[0] == ' ');
    assert(tail.skip(1) =~= rest);
    assert(text::run_len(tail, text::white()) == 1 + text::run_len(rest, text::white()));
    text::lemma_run_len_facts(rest, text::white());
    assert(text::trim_start(tail) =~= text::trim_start(rest));
    lemma_words_after_white(tail, rest);
}

proof fn lemma_words_after_white(one: Seq<char>, other: Seq<char>)
    requires
        text::trim_start(one) == text::trim_start(other),
    ensures
        text::words(one) == text::words(other),
{
}

proof fn lemma_two_words(one: Seq<char>, two: Seq<char>)
    requires
        is_word(one),
        is_word(two),
    ensures
        text::words(one + " "@ + two) == seq![one, two],
        text::trimmed(one + " "@ + two) == one + " "@ + two,
        (one + " "@ + two).len() > 0,
{
    reveal_strlit(" ");
    words_are_read_one_after_the_other(one, two);
    text::a_text_without_white_is_one_word(two);
    let all = one + " "@ + two;
    assert(seq![one] + seq![two] =~= seq![one, two]);
    assert(all[0] == one[0]);
    assert(all.last() == two.last());
    text::a_text_without_outer_white_is_trimmed(all);
}

proof fn lemma_three_words(one: Seq<char>, two: Seq<char>, three: Seq<char>)
    requires
        is_word(one),
        is_word(two),
        is_word(three),
    ensures
        text::words(one + " "@ + (two + " "@ + three)) == seq![one, two, three],
        text::trimmed(one + " "@ + (two + " "@ + three)) == one + " "@ + (two + " "@ + three),
{
    reveal_strlit(" ");
    let rest = two + " "@ + three;
    words_are_read_one_after_the_other(one, rest);
    lemma_two_words(two, three);
    assert(seq![one] + seq![two, three] =~= seq![one, two, three]);
    let all = one + " "@ + rest;
    assert(all[0] == one[0]);
    assert(all.last() == three.last());
    text::a_text_without_outer_white_is_trimmed(all);
}

proof fn lemma_one_word(word: Seq<char>)
    requires
        is_word(word),
    ensures
        text::words(word) == seq![word],
        text::trimmed(word) == word,
        !text::is_blank(word),
{
    text::a_text_without_white_is_one_word(word);
    text::a_text_without_outer_white_is_trimmed(word);
}

proof fn lemma_nothing()
    ensures
        text::words(""@).len() == 0,
        text::trimmed(""@).len() == 0,
        text::is_blank(""@),
{
    reveal_strlit("");
    assert(text::trim_start(""@).len() == 0);
    assert(text::trimmed(""@).len() == 0);
}

proof fn lemma_number(n: nat)
    requires
        n <= i64::MAX,
    ensures
        is_word(text::decimal(n)),
        text::signed_value(text::decimal(n)) == Some(n as int),
        text::lacks(text::decimal(n), '-'),
        !text::has_control(text::decimal(n)),
{
    text::numbers_are_read_as_they_are_written(n, i64::MAX as nat);
    let digits = text::decimal(n);
    assert(text::is_digit(digits[0]));
    assert forall|i: int| 0 <= i < digits.len() implies !text::is_white(#[trigger] digits[i])
        && digits[i] != '-' && !text::is_control(digits[i]) by {
        assert(text::is_digit(digits[i]));
    }
}

proof fn lemma_split(left: Seq<char>, right: Seq<char>)
    requires
        text::lacks(right, '-'),
    ensures
        text::last_split(left + "-"@ + right, '-') == Some((left, right)),
{
    reveal_strlit("-");
    let all = left + "-"@ + right;
    let n = right.len() as int;
    assert forall|j: int| all.len() - n <= j < all.len() implies text::other_than('-')(
        #[trigger] all[j],
    ) by {
        assert(all[j] == right[j - left.len() - 1]);
    }
    assert(all[all.len() - n - 1] == '-');
    text::lemma_tail_run_len(all, text::other_than('-'), n);
    assert(all.take(all.len() - n - 1) =~= left);
    assert(all.skip(all.len() - n) =~= right);
}

proof fn lemma_hyphened_is_word(left: Seq<char>, right: Seq<char>)
    requires
        is_word(left),
        is_word(right),
    ensures
        is_word(left + "-"@ + right),
{
    reveal_strlit("-");
    let all = left + "-"@ + right;
    assert forall|i: int| 0 <= i < all.len() implies !text::is_white(#[trigger] all[i]) by {
        if i < left.len() {
            assert(all[i] == left[i]);
        } else if i > left.len() {
            assert(all[i] == right[i - left.len() - 1]);
        }
    }
}

/// A new player is told name first and gender second, with a space between them or, where the
/// old form is read, with a hyphen; one word alone is refused.
pub proof fn the_name_comes_before_the_gender(name: Seq<char>, gender: Seq<char>, old_form: bool)
    requires
        is_word(name),
        is_word(gender),
        text::lacks(gender, '-'),
    ensures
        game_args::registration(name + " "@ + gender, old_form) == Ok::<_, Seq<char>>(
            (name, gender),
        ),
        game_args::registration(name + "-"@ + gender, true) == Ok::<_, Seq<char>>((name, gender)),
        game_args::registration(name + "-"@ + gender, false) is Err,
        game_args::registration(gender, old_form) is Err,
{
    lemma_two_words(name, gender);
    lemma_split(name, gender);
    lemma_hyphened_is_word(name, gender);
    lemma_one_word(name + "-"@ + gender);
    lemma_one_word(name);
    lemma_one_word(gender);
    assert(text::last_split(gender, '-') is None) by {
        assert forall|j: int| 0 <= j < gender.len() implies text::other_than('-')(
            #[trigger] gender[j],
        ) by {}
        text::lemma_tail_run_len(gender, text::other_than('-'), gender.len() as int);
    }
}

/// A new player has a name of two characters up to the most that is set, and is male or
/// female; what they are told by is kept as it was written.
pub proof fn new_players_have_a_name_and_a_gender(
    name: Seq<char>,
    gender: Seq<char>,
    config: crate::config::PluginConfig,
)
    requires
        is_word(name),
        is_word(gender),
        text::lacks(gender, '-'),
    ensures
        game::new_player(name + " "@ + gender, config) is Ok <==> {
            &&& 2 <= name.len() <= config.identity.max_character_name_chars
            &&& gender == "男"@ || gender == "女"@
        },
        game::new_player(name + " "@ + gender, config) matches Ok(player) ==> player == (
            name,
            gender,
        ),
{
    the_name_comes_before_the_gender(name, gender, config.messages.legacy_hyphen_arguments);
}

/// A conversation is authorised by its kind, its name and a label; a name alone is a group.
pub proof fn authorisations_are_told_kind_first(kind: Seq<char>, id: Seq<char>, label: Seq<char>)
    requires
        is_word(kind),
        is_word(id),
        is_word(label),
    ensures
        game_args::grant_arguments(id) == Ok::<_, Seq<char>>(("group"@, id, ""@)),
        game_args::grant_arguments(kind + " "@ + id) == Ok::<_, Seq<char>>((kind, id, ""@)),
        game_args::grant_arguments(kind + " "@ + (id + " "@ + label)) == Ok::<_, Seq<char>>(
            (kind, id, label),
        ),
        game_args::grant_arguments(""@) is Err,
{
    lemma_one_word(id);
    lemma_two_words(kind, id);
    lemma_three_words(kind, id, label);
    lemma_nothing();
    reveal_strlit("");
    assert(seq![kind, id].skip(2) =~= Seq::<Seq<char>>::empty());
    assert(text::joined(Seq::<Seq<char>>::empty(), " "@) =~= ""@);
    let last = seq![kind, id, label].skip(2);
    assert(last.len() == 1 && last[0] == label);
}

/// An authorisation is taken back, and an old record is claimed, only with the word that
/// confirms it, behind what it is about.
pub proof fn only_confirmed_requests_are_taken(first: Seq<char>, second: Seq<char>, third: Seq<char>)
    requires
        is_word(first),
        is_word(second),
        is_word(third),
    ensures
        game_args::revoke_arguments(first + " "@ + (second + " "@ + third)) == (if third
            == "确认"@ {
            Ok::<_, Seq<char>>((first, second))
        } else {
            Err("用法：取消授权 <group|channel> <上下文ID> 确认"@)
        }),
        game_args::revoke_arguments(first + " "@ + second) is Err,
        game_args::claim_arguments(first + " "@ + (second + " "@ + third)) == (if third
            == "确认"@ {
            Ok::<_, Seq<char>>((first, second))
        } else {
            Err("用法：旧档认领 <用户ID> <当前account_id> 确认"@)
        }),
        game_args::claim_arguments(first + " "@ + second) is Err,
        game_args::inspect_argument(first) == Ok::<_, Seq<char>>(first),
        game_args::inspect_argument(first + " "@ + second) is Err,
{
    lemma_three_words(first, second, third);
    lemma_two_words(first, second);
    lemma_one_word(first);
}

/// A list is read on from a number that is not negative, and from the start without one.
pub proof fn lists_are_read_on_from_a_number(n: nat)
    requires
        n <= i64::MAX,
    ensures
        game_args::context_cursor(text::decimal(n)) == Ok::<_, Seq<char>>(Some(n as int)),
        game_args::context_cursor(""@) == Ok::<Option<int>, Seq<char>>(None),
        n > 0 ==> game_args::context_cursor("-"@ + text::decimal(n)) is Err,
{
    lemma_number(n);
    lemma_one_word(text::decimal(n));
    lemma_nothing();
    reveal_strlit("-");
    let below = "-"@ + text::decimal(n);
    assert(is_word(below)) by {
        assert forall|i: int| 0 <= i < below.len() implies !text::is_white(#[trigger] below[i]) by {
            if i > 0 {
                assert(below[i] == text::decimal(n)[i - 1]);
            }
        }
    }
    lemma_one_word(below);
    assert(below[0] == '-');
    assert(below.skip(1) =~= text::decimal(n));
    text::numbers_are_read_as_they_are_written(n, i64::MAX as nat);
}

/// Pages are numbered from 1 to 100, and the first is shown without a number; a log shows 20
/// events without one and at most 100.
pub proof fn pages_are_numbered_from_one_to_a_hundred(n: nat, label: Seq<char>)
    requires
        n <= i64::MAX,
        n <= usize::MAX,
    ensures
        game_args::single_page(text::decimal(n), label) == (if 1 <= n <= 100 {
            Ok(n as usize)
        } else {
            Err(label + "页码必须在 1 到 100 之间"@)
        }),
        game_args::single_page(""@, label) == Ok::<usize, Seq<char>>(1usize),
        game_args::map_page(text::decimal(n)) == (if 1 <= n <= 100 {
            Ok(n as usize)
        } else {
            Err("地图页码必须在 1 到 100 之间"@)
        }),
        game_args::map_page(""@) == Ok::<usize, Seq<char>>(1usize),
        game_args::log_limit(text::decimal(n)) == (if 1 <= n <= 100 {
            Ok(n)
        } else {
            Err("战斗日志数量必须在 1 到 100 之间"@)
        }),
        game_args::log_limit(""@) == Ok::<nat, Seq<char>>(20),
        game_args::shop_arguments(text::decimal(n)) == (if 1 <= n <= 100 {
            Ok((None::<Seq<char>>, n))
        } else {
            Err("商店页码必须在 1 到 100 之间"@)
        }),
        game_args::shop_arguments(""@) == Ok::<(Option<Seq<char>>, nat), Seq<char>>((None, 1nat)),
{
    lemma_number(n);
    lemma_one_word(text::decimal(n));
    lemma_nothing();
    text::numbers_are_read_as_they_are_written(n, usize::MAX as nat);
}

/// A shop may be told by the name of the merchant, and then by the page.
pub proof fn shops_are_told_merchant_first(npc: Seq<char>, n: nat)
    requires
        is_word(npc),
        text::unsigned_value(npc, usize::MAX as nat) is None,
        1 <= n <= 100,
    ensures
        game_args::shop_arguments(npc) == Ok::<_, Seq<char>>((Some(npc), 1nat)),
        game_args::shop_arguments(npc + " "@ + text::decimal(n)) == Ok::<_, Seq<char>>(
            (Some(npc), n),
        ),
{
    lemma_number(n);
    lemma_one_word(npc);
    lemma_two_words(npc, text::decimal(n));
    text::numbers_are_read_as_they_are_written(n, usize::MAX as nat);
    let both = npc + " "@ + text::decimal(n);
    reveal_strlit(" ");
    let k = npc.len() as int;
    assert(both[k] == ' ');
    assert(text::unsigned_value(both, usize::MAX as nat) is None) by {
        let body = if both[0] == '+' {
            both.skip(1)
        } else {
            both
        };
        if text::all_digits(body) {
            let i = if both[0] == '+' {
                k - 1
            } else {
                k
            };
            assert(body[i] == ' ');
        }
    }
}

/// Players walk up, down, left and right, told so or by the points of the compass.
pub proof fn directions_are_these(word: Seq<char>)
    requires
        is_word(word),
    ensures
        game_args::direction_argument(word) == (if word == "上"@ || word == "下"@ || word == "左"@
            || word == "右"@ || word == "北"@ || word == "南"@ || word == "西"@ || word == "东"@
            || word == "north"@ || word == "south"@ || word == "west"@ || word == "east"@ {
            Ok(word)
        } else {
            Err("方向只能是上、下、左或右"@)
        }),
{
    lemma_one_word(word);
}

/// A name has at most 128 printable characters and is taken without outer white space; one
/// that may be left out is none when blank, and one that may not is refused.
pub proof fn names_are_short_and_printable(args: Seq<char>, usage: Seq<char>)
    ensures
        ({
            let name = text::trimmed(args);
            let sound = 0 < name.len() <= 128 && !text::has_control(name);
            &&& game_args::catalog_name(args, usage) is Ok <==> sound
            &&& sound ==> game_args::catalog_name(args, usage) == Ok::<_, Seq<char>>(name)
            &&& name.len() == 0 ==> game_args::catalog_name(args, usage) == Err::<
                Seq<char>,
                Seq<char>,
            >("用法："@ + usage)
            &&& sound ==> game_args::quest_argument(args) == Ok::<_, Seq<char>>(Some(name))
            &&& name.len() == 0 ==> game_args::quest_argument(args) == Ok::<_, Seq<char>>(
                None::<Seq<char>>,
            )
            &&& !sound && name.len() > 0 ==> game_args::quest_argument(args) is Err
            &&& sound && text::words(name).len() == 1 ==> game_args::map_argument(args) == Ok::<
                _,
                Seq<char>,
            >(Some(name))
            &&& name.len() == 0 ==> game_args::map_argument(args) == Ok::<_, Seq<char>>(
                None::<Seq<char>>,
            )
            &&& name.len() > 0 && (!sound || text::words(name).len() != 1)
                ==> game_args::map_argument(args) is Err
        }),
{
    text::trimming_twice_is_trimming_once(args);
}

/// A drop is picked up by its positive number.
pub proof fn drops_are_told_by_their_number(n: nat)
    requires
        n <= i64::MAX,
    ensures
        game_args::drop_argument(text::decimal(n)) == (if n > 0 {
            Ok(n as int)
        } else {
            Err("用法：拾取 <掉落ID>"@)
        }),
        game_args::drop_argument(""@) is Err,
{
    lemma_number(n);
    lemma_one_word(text::decimal(n));
    lemma_nothing();
}

proof fn lemma_last_word(name: Seq<char>, number: Seq<char>)
    requires
        is_word(name),
        is_word(number),
        forall|i: int| 0 <= i < number.len() ==> text::is_digit(#[trigger] number[i]),
    ensures
        game_args::last_word(name + " "@ + number) == (name + " "@, number),
        text::trim_end(name + " "@) == name,
{
    reveal_strlit(" ");
    let all = name + " "@ + number;
    let n = number.len() as int;
    assert forall|j: int| all.len() - n <= j < all.len() implies game_args::not_ascii_white()(
        #[trigger] all[j],
    ) by {
        assert(all[j] == number[j - name.len() - 1]);
    }
    assert(all[all.len() - n - 1] == ' ');
    text::lemma_tail_run_len(all, game_args::not_ascii_white(), n);
    assert(all.take(all.len() - n) =~= name + " "@);
    assert(all.skip(all.len() - n) =~= number);
    let before = name + " "@;
    assert(before.last() == ' ');
    assert(before[before.len() - 2] == name.last());
    text::lemma_tail_run_len(before, text::white(), 1);
    assert(before.take(before.len() - 1) =~= name);
}

/// A thing is told by name and then by number, from 1 to 9999; without a number it is one.
pub proof fn things_are_told_name_first(
    name: Seq<char>,
    n: nat,
    old_form: bool,
    usage: Seq<char>,
)
    requires
        is_word(name),
        n <= i64::MAX,
    ensures
        game_args::item_quantity(name + " "@ + text::decimal(n), old_form, usage) == (if 1 <= n
            <= 9999 {
            Ok::<_, Seq<char>>((name, n as int))
        } else {
            Err("数量必须在 1 到 9999 之间"@)
        }),
        text::signed_value(name) is None && text::lacks(name, '-') ==> game_args::item_quantity(
            name,
            old_form,
            usage,
        ) == Ok::<_, Seq<char>>((name, 1int)),
        game_args::item_quantity(""@, old_form, usage) == Err::<(Seq<char>, int), Seq<char>>(
            "用法："@ + usage,
        ),
        1 <= n <= 9999 && text::lacks(name, '-') && text::signed_value(
            name + "-"@ + text::decimal(n),
        ) is None ==> game_args::item_quantity(name + "-"@ + text::decimal(n), true, usage) == Ok::<
            _,
            Seq<char>,
        >((name, n as int)),
{
    lemma_number(n);
    let number = text::decimal(n);
    text::numbers_are_read_as_they_are_written(n, i64::MAX as nat);
    lemma_two_words(name, number);
    lemma_last_word(name, number);
    lemma_one_word(name);
    lemma_one_word(number);
    lemma_nothing();
    assert(name.len() > 0);
    assert forall|j: int| 0 <= j < name.len() implies game_args::not_ascii_white()(
        #[trigger] name[j],
    ) by {
        assert(!text::is_white(name[j]));
    }
    text::lemma_tail_run_len(name, game_args::not_ascii_white(), name.len() as int);
    assert(name.skip(0) =~= name);
    if text::lacks(name, '-') {
        assert forall|j: int| 0 <= j < name.len() implies text::other_than('-')(
            #[trigger] name[j],
        ) by {}
        text::lemma_tail_run_len(name, text::other_than('-'), name.len() as int);
    }
    let joint = name + "-"@ + number;
    lemma_hyphened_is_word(name, number);
    lemma_one_word(joint);
    lemma_split(name, number);
    assert forall|j: int| 0 <= j < joint.len() implies game_args::not_ascii_white()(
        #[trigger] joint[j],
    ) by {
        assert(!text::is_white(joint[j]));
    }
    text::lemma_tail_run_len(joint, game_args::not_ascii_white(), joint.len() as int);
    assert(joint.skip(0) =~= joint);
}

/// Money goes to the one who is told first, as much as is told second and more than nothing;
/// where the recipient is mentioned, only the amount is told.
pub proof fn money_goes_to_the_one_told_first(target: Seq<char>, n: nat, mentioned: Seq<char>, old_form: bool)
    requires
        is_word(target),
        target.len() <= 256,
        !text::has_control(target),
        target != "all"@,
        n <= i64::MAX,
    ensures
        game_args::transfer_arguments(target + " "@ + text::decimal(n), None, old_form) == (if n
            > 0 {
            Ok::<_, Seq<char>>((target, n as int))
        } else {
            Err("金额必须是正整数"@)
        }),
        game_args::transfer_arguments(text::decimal(n), Some(mentioned), old_form) == (if n > 0 {
            Ok::<_, Seq<char>>((mentioned, n as int))
        } else {
            Err("金额必须是正整数"@)
        }),
        game_args::transfer_arguments(
            target + " "@ + text::decimal(n),
            Some(mentioned),
            old_form,
        ) is Err,
        n > 0 ==> game_args::transfer_arguments(target + "-"@ + text::decimal(n), None, true)
            == Ok::<_, Seq<char>>((target, n as int)),
        game_args::transfer_arguments(target + "-"@ + text::decimal(n), None, false) is Err,
        game_args::command_target("all"@) is Err,
{
    lemma_number(n);
    let number = text::decimal(n);
    lemma_two_words(target, number);
    lemma_one_word(target);
    lemma_one_word(number);
    lemma_hyphened_is_word(target, number);
    lemma_one_word(target + "-"@ + number);
    lemma_split(target, number);
    assert(game_args::command_target(target) == Ok::<Seq<char>, Seq<char>>(target));
    reveal_strlit("all");
    assert("all"@.len() == 3);
    lemma_plain_all();
}

proof fn lemma_plain_all()
    ensures
        game_args::command_target("all"@) is Err,
{
    reveal_strlit("all");
    let all = "all"@;
    assert(all[0] == 'a' && all[1] == 'l' && all[2] == 'l');
    assert(is_word(all)) by {
        assert forall|i: int| 0 <= i < all.len() implies !text::is_white(#[trigger] all[i]) by {}
    }
    lemma_one_word(all);
}

/// A gift is told by who gets it, what it is and how many; where the recipient is mentioned,
/// only the thing and its number are told.
pub proof fn gifts_are_told_recipient_first(
    target: Seq<char>,
    name: Seq<char>,
    n: nat,
    mentioned: Seq<char>,
    old_form: bool,
)
    requires
        is_word(target),
        target.len() <= 256,
        !text::has_control(target),
        target != "all"@,
        is_word(name),
        name != mentioned,
        1 <= n <= 9999,
    ensures
        game_args::gift_arguments(
            target + " "@ + (name + " "@ + text::decimal(n)),
            None,
            old_form,
        ) == Ok::<_, Seq<char>>((target, name, n as int)),
        game_args::gift_arguments(name + " "@ + text::decimal(n), Some(mentioned), old_form)
            == Ok::<_, Seq<char>>((mentioned, name, n as int)),
{
    lemma_number(n);
    let number = text::decimal(n);
    let item = name + " "@ + number;
    let all = target + " "@ + item;
    lemma_three_words(target, name, number);
    lemma_two_words(name, number);
    lemma_one_word(target);
    things_are_told_name_first(name, n, old_form, game_args::GIFT_USAGE@);
    assert(game_args::command_target(target) == Ok::<Seq<char>, Seq<char>>(target));
    reveal_strlit(" ");
    let k = target.len() as int;
    assert forall|j: int| 0 <= j < k implies text::non_white()(#[trigger] all[j]) by {
        assert(all[j] == target[j]);
    }
    assert(all[k] == ' ');
    text::lemma_run_len(all, text::non_white(), k);
    assert(all.take(k) =~= target);
    let rest = all.skip(k);
    assert(rest =~= " "@ + item);
    assert(rest[0] == ' ' && rest[1] == name[0]);
    text::lemma_run_len(rest, text::white(), 1);
    assert(text::trim_start(rest) =~= item);
    assert(item[0] == name[0] && item.last() == number.last());
    text::lemma_tail_run_len(item, text::white(), 0);
    assert(text::trimmed(rest) =~= item);
    assert(game_args::first_argument(all) == Some((target, item)));
    text::trimming_twice_is_trimming_once(all);
}

/// In the old form a gift is told by who gets it, what it is and how many, with hyphens
/// between them; without the old form it is not read so.
pub proof fn hyphened_gifts_are_told_recipient_first(target: Seq<char>, name: Seq<char>, n: nat)
    requires
        is_word(target),
        target.len() <= 256,
        !text::has_control(target),
        target != "all"@,
        is_word(name),
        name.len() <= 128,
        !text::has_control(name),
        text::lacks(name, '-'),
        n <= i64::MAX,
    ensures
        game_args::gift_arguments(
            target + "-"@ + name + "-"@ + text::decimal(n),
            None,
            true,
        ) == (if 1 <= n <= 9999 {
            Ok::<_, Seq<char>>((target, name, n as int))
        } else {
            Err("数量必须在 1 到 9999 之间"@)
        }),
        game_args::gift_arguments(
            target + "-"@ + name + "-"@ + text::decimal(n),
            None,
            false,
        ) is Err,
{
    let all = target + "-"@ + name + "-"@ + text::decimal(n);
    assert(game_args::hyphened_gift(all) == Some((target, name, n as int)) && is_word(all)) by {
        lemma_hyphened_parts(target, name, n);
    }
    assert(game_args::first_argument(all) is None && text::trimmed(all) == all) by {
        lemma_single_argument(all);
    }
    assert(text::trimmed(target) == target && text::trimmed(name) == name) by {
        lemma_one_word(target);
        lemma_one_word(name);
    }
    assert(game_args::command_target(target) == Ok::<Seq<char>, Seq<char>>(target));
    assert(game_args::catalog_name(name, game_args::GIFT_USAGE@) == Ok::<Seq<char>, Seq<char>>(
        name,
    ));
}

proof fn lemma_single_argument(word: Seq<char>)
    requires
        is_word(word),
    ensures
        game_args::first_argument(word) is None,
        text::trimmed(word) == word,
{
    lemma_one_word(word);
    assert forall|j: int| 0 <= j < word.len() implies text::non_white()(#[trigger] word[j]) by {}
    text::lemma_run_len(word, text::non_white(), word.len() as int);
}

proof fn lemma_hyphened_parts(target: Seq<char>, name: Seq<char>, n: nat)
    requires
        is_word(target),
        is_word(name),
        text::lacks(name, '-'),
        n <= i64::MAX,
    ensures
        game_args::hyphened_gift(target + "-"@ + name + "-"@ + text::decimal(n)) == Some(
            (target, name, n as int),
        ),
        is_word(target + "-"@ + name + "-"@ + text::decimal(n)),
{
    lemma_number(n);
    let number = text::decimal(n);
    let head = target + "-"@ + name;
    lemma_hyphened_is_word(target, name);
    lemma_hyphened_is_word(head, number);
    lemma_one_word(number);
    lemma_one_word(target);
    lemma_one_word(name);
    lemma_split(head, number);
    lemma_split(target, name);
}

/// Groups can be authorised everywhere, channels in the official protocol alone, and nothing
/// else at all.
pub proof fn groups_and_channels_can_be_authorised(protocol: Protocol, kind: Seq<char>)
    ensures
        game_args::context_kind_error(protocol, kind) is None <==> {
            ||| kind == "group"@
            ||| kind == "channel"@ && protocol == Protocol::QqOfficial
        },
        kind == "channel"@ ==> game_args::context_kind_error(Protocol::OneBot11, kind) == Some(
            "OneBot 11 当前只支持授权 group 上下文"@,
        ),
{
    reveal_strlit("group");
    reveal_strlit("channel");
    assert("group"@.len() == 5 && "channel"@.len() == 7);
}

/// An account has 1 to 128 characters and a user 1 to 256, without outer white space and
/// control characters, and both are taken as they are written.
pub proof fn accounts_and_users_are_taken_as_written(value: Seq<char>, field: Seq<char>)
    ensures
        ({
            let clean = text::trimmed(value) == value && !text::has_control(value);
            &&& identity::account(value, field) is Ok <==> 1 <= value.len() <= 128 && clean
            &&& identity::account(value, field) matches Ok(id) ==> id == value
            &&& identity::subject(value) is Ok <==> 1 <= value.len() <= 256 && clean
            &&& identity::subject(value) matches Ok(id) ==> id == value
            &&& value.len() == 0 ==> identity::account(value, field) == Err::<
                Seq<char>,
                Seq<char>,
            >(field + " 不能为空"@)
            &&& value.len() == 0 ==> identity::subject(value) == Err::<Seq<char>, Seq<char>>(
                "sender_id 不能为空"@,
            )
        }),
{
}

} // verus!
