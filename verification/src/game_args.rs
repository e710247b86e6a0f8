//! The arguments of the game commands.
use crate::config;
use crate::identity;
use crate::identity::parse_subject_id;
use crate::message::Protocol;
use crate::text;
use crate::text::{
    any_control, blank, cat2, cat3, join, nth, parse_i64, parse_unsigned, rsplit_once, same,
    split_whitespace, trim, white_space,
};
use vstd::prelude::*;
use vstd::string::*;

verus! {

/// How a transfer is written.
pub const TRANSFER_USAGE: &'static str =
    "转账 <用户ID> <金额>；也可使用“转账 @用户 <金额>”";

/// How a gift is written.
pub const GIFT_USAGE: &'static str =
    "发送物品 <用户ID> <物品名> [数量]；也可使用“发送物品 @用户 <物品名> [数量]”";

/// The largest page that a command takes.
pub const MAX_PAGE: usize = 100;

/// The largest quantity that a command takes.
pub const MAX_QUANTITY: i64 = 9999;

/// The longest name that a command takes, in characters.
pub const MAX_NAME_CHARS: usize = 128;

/// The optional string of a result, as a mathematical value.
pub open spec fn optional_outcome(result: Result<Option<String>, String>) -> Result<
    Option<Seq<char>>,
    Seq<char>,
> {
    match result {
        Ok(value) => Ok(text::optional_text(value)),
        Err(message) => Err(message@),
    }
}

/// The name and the gender of a registration: two words, or the two sides of the
/// last hyphen where that form is allowed.
pub open spec fn registration(args: Seq<char>, legacy_hyphen: bool) -> Result<
    (Seq<char>, Seq<char>),
    Seq<char>,
> {
    let args = text::trimmed(args);
    let words = text::words(args);
    let halves = text::last_split(args, '-');
    if words.len() == 2 {
        Ok((words[0], words[1]))
    } else if legacy_hyphen && halves is Some && !text::is_blank((halves->0).0) && !text::is_blank(
        (halves->0).1,
    ) {
        Ok((text::trimmed((halves->0).0), text::trimmed((halves->0).1)))
    } else {
        Err("用法：开始穿越 <角色名> <男|女>；也兼容旧格式“角色名-性别”"@)
    }
}

/// Reads the arguments of a registration.
pub fn parse_registration_args(args: &str, legacy_hyphen: bool) -> (result: Result<
    (String, String),
    String,
>)
    ensures
        text::outcome(result) == registration(args@, legacy_hyphen),
{
    let args = trim(args);
    let parts = split_whitespace(args);
    if parts.len() == 2 {
        return Ok((nth(&parts, 0).to_owned(), nth(&parts, 1).to_owned()));
    }
    if legacy_hyphen {
        match rsplit_once(args, '-') {
            Some((name, gender)) => {
                if !blank(&name) && !blank(&gender) {
                    return Ok((trim(&name).to_owned(), trim(&gender).to_owned()));
                }
            },
            None => {},
        }
    }
    Err("用法：开始穿越 <角色名> <男|女>；也兼容旧格式“角色名-性别”".to_owned())
}

/// The kind, the identifier and the label of a conversation to authorise. One word
/// alone is the identifier of a group.
pub open spec fn grant_arguments(args: Seq<char>) -> Result<
    (Seq<char>, Seq<char>, Seq<char>),
    Seq<char>,
> {
    let words = text::words(args);
    if words.len() == 1 {
        Ok(("group"@, words[0], ""@))
    } else if words.len() >= 2 {
        Ok((words[0], words[1], text::joined(words.skip(2), " "@)))
    } else {
        Err("用法：授权上下文 <group|channel> <上下文ID> [标签]；旧格式可只填群号"@)
    }
}

/// Reads the arguments of an authorisation.
pub fn parse_grant_context_args(args: &str) -> (result: Result<(String, String, String), String>)
    ensures
        text::outcome(result) == grant_arguments(args@),
{
    let parts = split_whitespace(args);
    if parts.len() == 0 {
        return Err(
            "用法：授权上下文 <group|channel> <上下文ID> [标签]；旧格式可只填群号".to_owned(),
        );
    }
    if parts.len() == 1 {
        return Ok(("group".to_owned(), nth(&parts, 0).to_owned(), "".to_owned()));
    }
    let mut label: Vec<String> = Vec::new();
    let mut i: usize = 2;
    let ghost words = text::words(args@);
    assert(text::texts(label@) =~= words.subrange(2, 2));
    while i < parts.len()
        invariant
            2 <= i <= parts@.len(),
            text::texts(parts@) == words,
            text::texts(label@) == words.subrange(2, i as int),
        decreases parts@.len() - i,
    {
        text::push_text(&mut label, nth(&parts, i).to_owned());
        assert(words.subrange(2, i + 1) =~= words.subrange(2, i as int).push(words[i as int]));
        i = i + 1;
    }
    assert(words.subrange(2, i as int) =~= words.skip(2));
    Ok((nth(&parts, 0).to_owned(), nth(&parts, 1).to_owned(), join(&label, " ")))
}

/// The kind and the identifier of a conversation to revoke, with the confirmation.
pub open spec fn revoke_arguments(args: Seq<char>) -> Result<(Seq<char>, Seq<char>), Seq<char>> {
    let words = text::words(args);
    if words.len() == 3 && words[2] == "确认"@ {
        Ok((words[0], words[1]))
    } else {
        Err("用法：取消授权 <group|channel> <上下文ID> 确认"@)
    }
}

/// Reads the arguments of a revocation.
pub fn parse_revoke_context_args(args: &str) -> (result: Result<(String, String), String>)
    ensures
        text::outcome(result) == revoke_arguments(args@),
{
    let parts = split_whitespace(args);
    if parts.len() == 3 && same(nth(&parts, 2), "确认") {
        Ok((nth(&parts, 0).to_owned(), nth(&parts, 1).to_owned()))
    } else {
        Err("用法：取消授权 <group|channel> <上下文ID> 确认".to_owned())
    }
}

/// The cursor after which a list of conversations goes on.
pub open spec fn context_cursor(args: Seq<char>) -> Result<Option<int>, Seq<char>> {
    let args = text::trimmed(args);
    if args.len() == 0 {
        Ok(None)
    } else {
        match text::signed_value(args) {
            None => Err("用法：查看授权 [下一页游标]"@),
            Some(cursor) => if cursor < 0 {
                Err("授权列表游标不能为负数"@)
            } else {
                Ok(Some(cursor))
            },
        }
    }
}

/// An optional number of a result, as a mathematical value.
pub open spec fn number_outcome(result: Result<Option<i64>, String>) -> Result<
    Option<int>,
    Seq<char>,
> {
    match result {
        Ok(Some(number)) => Ok(Some(number as int)),
        Ok(None) => Ok(None),
        Err(message) => Err(message@),
    }
}

/// Reads the cursor of a list of conversations.
pub fn parse_context_cursor(args: &str) -> (result: Result<Option<i64>, String>)
    ensures
        number_outcome(result) == context_cursor(args@),
{
    let args = trim(args);
    if args.is_empty() {
        return Ok(None);
    }
    match parse_i64(args) {
        None => Err("用法：查看授权 [下一页游标]".to_owned()),
        Some(cursor) => if cursor < 0 {
            Err("授权列表游标不能为负数".to_owned())
        } else {
            Ok(Some(cursor))
        },
    }
}

/// The page that a command asks for: the first one where nothing is said.
pub open spec fn page_argument(args: Seq<char>, usage: Seq<char>, range: Seq<char>) -> Result<
    usize,
    Seq<char>,
> {
    let args = text::trimmed(args);
    let words = text::words(args);
    if args.len() == 0 {
        Ok(1)
    } else if words.len() == 0 {
        Err(usage)
    } else {
        match text::unsigned_value(words[0], usize::MAX as nat) {
            None => Err(usage),
            Some(page) => if words.len() > 1 || page == 0 || page > MAX_PAGE {
                Err(range)
            } else {
                Ok(page as usize)
            },
        }
    }
}

fn parse_page(args: &str, usage: &str, range: &str) -> (result: Result<usize, String>)
    ensures
        text::outcome(result) == page_argument(args@, usage@, range@),
{
    let args = trim(args);
    if args.is_empty() {
        return Ok(1);
    }
    let parts = split_whitespace(args);
    if parts.len() == 0 {
        return Err(usage.to_owned());
    }
    match parse_unsigned(nth(&parts, 0), usize::MAX as u64) {
        None => Err(usage.to_owned()),
        Some(page) => if parts.len() > 1 || page == 0 || page > MAX_PAGE as u64 {
            Err(range.to_owned())
        } else {
            Ok(page as usize)
        },
    }
}

/// The page of the list of maps.
pub open spec fn map_page(args: Seq<char>) -> Result<usize, Seq<char>> {
    page_argument(args, "用法：地图列表 [页码]"@, "地图页码必须在 1 到 100 之间"@)
}

/// Reads the page of the list of maps.
pub fn parse_map_page(args: &str) -> (result: Result<usize, String>)
    ensures
        text::outcome(result) == map_page(args@),
{
    parse_page(args, "用法：地图列表 [页码]", "地图页码必须在 1 到 100 之间")
}

/// The page of a list with a label.
pub open spec fn single_page(args: Seq<char>, label: Seq<char>) -> Result<usize, Seq<char>> {
    page_argument(args, "用法："@ + label + " [页码]"@, label + "页码必须在 1 到 100 之间"@)
}

/// Reads the page of a list with a label.
pub fn parse_single_page(args: &str, label: &str) -> (result: Result<usize, String>)
    ensures
        text::outcome(result) == single_page(args@, label@),
{
    parse_page(
        args,
        &cat3("用法：", label, " [页码]"),
        &cat2(label, "页码必须在 1 到 100 之间"),
    )
}

/// The words for a direction.
pub open spec fn is_direction(word: Seq<char>) -> bool {
    word == "上"@ || word == "下"@ || word == "左"@ || word == "右"@ || word == "北"@ || word == "南"@
        || word == "西"@ || word == "东"@ || word == "north"@ || word == "south"@ || word == "west"@
        || word == "east"@
}

/// The direction of a move.
pub open spec fn direction_argument(args: Seq<char>) -> Result<Seq<char>, Seq<char>> {
    let words = text::words(args);
    if words.len() != 1 || words[0].len() == 0 {
        Err("用法：向 <上|下|左|右>"@)
    } else if is_direction(words[0]) {
        Ok(words[0])
    } else {
        Err("方向只能是上、下、左或右"@)
    }
}

/// Reads the direction of a move.
pub fn parse_direction_arg(args: &str) -> (result: Result<String, String>)
    ensures
        text::outcome(result) == direction_argument(args@),
{
    let parts = split_whitespace(args);
    if parts.len() != 1 || nth(&parts, 0).is_empty() {
        return Err("用法：向 <上|下|左|右>".to_owned());
    }
    let word = nth(&parts, 0);
    let known = same(word, "上") || same(word, "下") || same(word, "左") || same(word, "右") || same(
        word,
        "北",
    ) || same(word, "南") || same(word, "西") || same(word, "东") || same(word, "north") || same(
        word,
        "south",
    ) || same(word, "west") || same(word, "east");
    if known {
        Ok(word.to_owned())
    } else {
        Err("方向只能是上、下、左或右".to_owned())
    }
}

/// The map that a player wants to reach, where one is named.
pub open spec fn map_argument(args: Seq<char>) -> Result<Option<Seq<char>>, Seq<char>> {
    let args = text::trimmed(args);
    if args.len() == 0 {
        Ok(None)
    } else if text::words(args).len() != 1 || args.len() > MAX_NAME_CHARS || text::has_control(
        args,
    ) {
        Err("用法：传送 [地图名称]"@)
    } else {
        Ok(Some(args))
    }
}

/// Reads the map that a player wants to reach.
pub fn parse_optional_map_name(args: &str) -> (result: Result<Option<String>, String>)
    ensures
        optional_outcome(result) == map_argument(args@),
{
    let args = trim(args);
    if args.is_empty() {
        return Ok(None);
    }
    if split_whitespace(args).len() != 1 || args.unicode_len() > MAX_NAME_CHARS || any_control(
        args,
    ) {
        return Err("用法：传送 [地图名称]".to_owned());
    }
    Ok(Some(args.to_owned()))
}

/// The quest that a player asks about, where one is named.
pub open spec fn quest_argument(args: Seq<char>) -> Result<Option<Seq<char>>, Seq<char>> {
    let args = text::trimmed(args);
    if args.len() == 0 {
        Ok(None)
    } else if args.len() > MAX_NAME_CHARS || text::has_control(args) {
        Err("任务名称不能超过 128 个字符且不能包含控制字符"@)
    } else {
        Ok(Some(args))
    }
}

/// Reads the quest that a player asks about.
pub fn parse_optional_quest_name(args: &str) -> (result: Result<Option<String>, String>)
    ensures
        optional_outcome(result) == quest_argument(args@),
{
    let args = trim(args);
    if args.is_empty() {
        return Ok(None);
    }
    if args.unicode_len() > MAX_NAME_CHARS || any_control(args) {
        return Err("任务名称不能超过 128 个字符且不能包含控制字符".to_owned());
    }
    Ok(Some(args.to_owned()))
}

/// The name that a command needs.
pub open spec fn catalog_name(args: Seq<char>, usage: Seq<char>) -> Result<Seq<char>, Seq<char>> {
    let name = text::trimmed(args);
    if name.len() == 0 {
        Err("用法："@ + usage)
    } else if name.len() > MAX_NAME_CHARS || text::has_control(name) {
        Err("名称不能超过 128 个字符且不能包含控制字符"@)
    } else {
        Ok(name)
    }
}

/// Reads the name that a command needs.
pub fn parse_required_catalog_name(args: &str, usage: &str) -> (result: Result<String, String>)
    ensures
        text::outcome(result) == catalog_name(args@, usage@),
{
    let name = trim(args);
    if name.is_empty() {
        return Err(cat2("用法：", usage));
    }
    if name.unicode_len() > MAX_NAME_CHARS || any_control(name) {
        return Err("名称不能超过 128 个字符且不能包含控制字符".to_owned());
    }
    Ok(name.to_owned())
}

/// The number of a drop.
pub open spec fn drop_argument(args: Seq<char>) -> Result<int, Seq<char>> {
    let words = text::words(args);
    if words.len() == 0 {
        Err("用法：拾取 <掉落ID>"@)
    } else {
        match text::signed_value(words[0]) {
            None => Err("掉落编号必须是正整数"@),
            Some(id) => if words.len() > 1 || id <= 0 {
                Err("用法：拾取 <掉落ID>"@)
            } else {
                Ok(id)
            },
        }
    }
}

/// An `i64` of a result, as a mathematical value.
pub open spec fn i64_outcome(result: Result<i64, String>) -> Result<int, Seq<char>> {
    match result {
        Ok(number) => Ok(number as int),
        Err(message) => Err(message@),
    }
}

/// Reads the number of a drop.
pub fn parse_ground_drop_id(args: &str) -> (result: Result<i64, String>)
    ensures
        i64_outcome(result) == drop_argument(args@),
{
    let parts = split_whitespace(args);
    if parts.len() == 0 {
        return Err("用法：拾取 <掉落ID>".to_owned());
    }
    match parse_i64(nth(&parts, 0)) {
        None => Err("掉落编号必须是正整数".to_owned()),
        Some(id) => if parts.len() > 1 || id <= 0 {
            Err("用法：拾取 <掉落ID>".to_owned())
        } else {
            Ok(id)
        },
    }
}

/// How a shop is asked for.
pub open spec fn shop_usage() -> Seq<char> {
    "用法：商店 [页码]；如需指定 NPC，请先使用“对话 NPC”"@
}

/// The merchant, where one is named, and the page of a shop.
pub open spec fn shop_arguments(args: Seq<char>) -> Result<
    (Option<Seq<char>>, nat),
    Seq<char>,
> {
    let args = text::trimmed(args);
    let words = text::words(args);
    if args.len() == 0 {
        Ok((None, 1))
    } else {
        match text::unsigned_value(args, usize::MAX as nat) {
            Some(page) => if 1 <= page <= MAX_PAGE {
                Ok((None, page))
            } else {
                Err("商店页码必须在 1 到 100 之间"@)
            },
            None => if words.len() < 2 {
                Ok((Some(args), 1))
            } else if words.len() > 2 {
                Err(shop_usage())
            } else {
                match text::unsigned_value(words[1], usize::MAX as nat) {
                    None => Err(shop_usage()),
                    Some(page) => if 1 <= page <= MAX_PAGE {
                        Ok((Some(words[0]), page))
                    } else {
                        Err("商店页码必须在 1 到 100 之间"@)
                    },
                }
            },
        }
    }
}

/// The arguments of a shop, as a mathematical value.
pub open spec fn shop_outcome(result: Result<(Option<String>, usize), String>) -> Result<
    (Option<Seq<char>>, nat),
    Seq<char>,
> {
    match result {
        Ok((npc, page)) => Ok((text::optional_text(npc), page as nat)),
        Err(message) => Err(message@),
    }
}

/// Reads the arguments of a shop.
pub fn parse_shop_args(args: &str) -> (result: Result<(Option<String>, usize), String>)
    ensures
        shop_outcome(result) == shop_arguments(args@),
{
    let args = trim(args);
    if args.is_empty() {
        return Ok((None, 1));
    }
    match parse_unsigned(args, usize::MAX as u64) {
        Some(page) => {
            if 1 <= page && page <= MAX_PAGE as u64 {
                return Ok((None, page as usize));
            }
            return Err("商店页码必须在 1 到 100 之间".to_owned());
        },
        None => {},
    }
    let parts = split_whitespace(args);
    if parts.len() < 2 {
        return Ok((Some(args.to_owned()), 1));
    }
    if parts.len() > 2 {
        return Err("用法：商店 [页码]；如需指定 NPC，请先使用“对话 NPC”".to_owned());
    }
    match parse_unsigned(nth(&parts, 1), usize::MAX as u64) {
        None => Err("用法：商店 [页码]；如需指定 NPC，请先使用“对话 NPC”".to_owned()),
        Some(page) => if 1 <= page && page <= MAX_PAGE as u64 {
            Ok((Some(nth(&parts, 0).to_owned()), page as usize))
        } else {
            Err("商店页码必须在 1 到 100 之间".to_owned())
        },
    }
}

/// The predicate that holds of a character that ASCII does not count as white space.
pub open spec fn not_ascii_white() -> spec_fn(char) -> bool {
    |c: char| c != ' ' && c != '\t' && c != '\n' && c != '\u{c}' && c != '\r'
}

/// What stands before and behind the last ASCII white space of a text; where it has
/// none, nothing stands before.
pub open spec fn last_word(args: Seq<char>) -> (Seq<char>, Seq<char>) {
    let k = text::tail_run_len(args, not_ascii_white());
    (args.take(args.len() - k), args.skip(args.len() - k))
}

fn split_last_word(args: &str) -> (halves: (String, String))
    ensures
        halves@ == last_word(args@),
{
    let characters = text::chars_of(args);
    let mut at: usize = characters.len();
    while at > 0 && characters[at - 1] != ' ' && characters[at - 1] != '\t' && characters[at - 1]
        != '\n' && characters[at - 1] != '\u{c}' && characters[at - 1] != '\r'
        invariant
            at <= characters@.len(),
            characters@ == args@,
            forall|j: int| at <= j < args@.len() ==> not_ascii_white()(#[trigger] args@[j]),
        decreases at,
    {
        at = at - 1;
    }
    proof {
        text::lemma_tail_run_len(args@, not_ascii_white(), args@.len() - at);
    }
    let before = text::slice_text(&characters, 0, at);
    let behind = text::slice_text(&characters, at, characters.len());
    assert(before@ =~= last_word(args@).0);
    assert(behind@ =~= last_word(args@).1);
    (before, behind)
}

/// A name with a quantity that is checked.
pub open spec fn counted(name: Seq<char>, quantity: int) -> Result<(Seq<char>, int), Seq<char>> {
    if 1 <= quantity <= MAX_QUANTITY {
        Ok((name, quantity))
    } else {
        Err("数量必须在 1 到 9999 之间"@)
    }
}

/// The name of an item and its quantity. The quantity is the last word where that is
/// a number and something stands before it; else, in the old form, what stands behind
/// the last hyphen; else it is one.
pub open spec fn item_quantity(args: Seq<char>, legacy_hyphen: bool, usage: Seq<char>) -> Result<
    (Seq<char>, int),
    Seq<char>,
> {
    let args = text::trimmed(args);
    let (before, behind) = last_word(args);
    let halves = text::last_split(args, '-');
    if args.len() == 0 {
        Err("用法："@ + usage)
    } else if text::signed_value(behind) is Some && text::trim_end(before).len() > 0 {
        counted(text::trim_end(before), text::signed_value(behind)->0)
    } else if legacy_hyphen && halves is Some && text::signed_value(
        text::trimmed((halves->0).1),
    ) is Some && !text::is_blank((halves->0).0) {
        counted(
            text::trimmed((halves->0).0),
            text::signed_value(text::trimmed((halves->0).1))->0,
        )
    } else {
        Ok((args, 1))
    }
}

/// A name and a number of a result, as a mathematical value.
pub open spec fn counted_outcome(result: Result<(String, i64), String>) -> Result<
    (Seq<char>, int),
    Seq<char>,
> {
    match result {
        Ok((name, number)) => Ok((name@, number as int)),
        Err(message) => Err(message@),
    }
}

fn count(name: &str, quantity: i64) -> (result: Result<(String, i64), String>)
    ensures
        counted_outcome(result) == counted(name@, quantity as int),
{
    if !(1 <= quantity && quantity <= MAX_QUANTITY) {
        return Err("数量必须在 1 到 9999 之间".to_owned());
    }
    Ok((name.to_owned(), quantity))
}

/// Reads the name of an item and its quantity.
pub fn parse_item_quantity(args: &str, legacy_hyphen: bool, usage: &str) -> (result: Result<
    (String, i64),
    String,
>)
    ensures
        counted_outcome(result) == item_quantity(args@, legacy_hyphen, usage@),
{
    let args = trim(args);
    if args.is_empty() {
        return Err(cat2("用法：", usage));
    }
    let (before, behind) = split_last_word(args);
    match parse_i64(&behind) {
        Some(quantity) => {
            let name = text::trim_right(&before);
            if !name.is_empty() {
                return count(name, quantity);
            }
        },
        None => {},
    }
    if legacy_hyphen {
        match rsplit_once(args, '-') {
            Some((name, number)) => {
                match parse_i64(trim(&number)) {
                    Some(quantity) => {
                        if !blank(&name) {
                            return count(trim(&name), quantity);
                        }
                    },
                    None => {},
                }
            },
            None => {},
        }
    }
    Ok((args.to_owned(), 1))
}

/// A recipient: no white space, a valid identifier, and not everybody.
pub open spec fn command_target(value: Seq<char>) -> Result<Seq<char>, Seq<char>> {
    if exists|i: int| 0 <= i < value.len() && text::is_white(#[trigger] value[i]) {
        Err("目标用户ID不能包含空白字符"@)
    } else {
        match identity::subject(value) {
            Err(message) => Err(message),
            Ok(subject) => if subject == "all"@ {
                Err("不能把 @全体 作为资产接收人"@)
            } else {
                Ok(subject)
            },
        }
    }
}

/// Reads a recipient.
pub fn parse_command_target_subject_id(value: &str) -> (result: Result<String, String>)
    ensures
        text::outcome(result) == command_target(value@),
{
    let characters = text::chars_of(value);
    let mut i: usize = 0;
    while i < characters.len()
        invariant
            i <= characters@.len(),
            characters@ == value@,
            forall|j: int| 0 <= j < i ==> !text::is_white(#[trigger] value@[j]),
        decreases characters@.len() - i,
    {
        if white_space(characters[i]) {
            assert(text::is_white(value@[i as int]));
            return Err("目标用户ID不能包含空白字符".to_owned());
        }
        i = i + 1;
    }
    match parse_subject_id(value) {
        Err(message) => Err(message),
        Ok(subject) => if same(&subject, "all") {
            Err("不能把 @全体 作为资产接收人".to_owned())
        } else {
            Ok(subject)
        },
    }
}

/// An amount of money.
pub open spec fn transfer_amount(value: Seq<char>) -> Result<int, Seq<char>> {
    match text::signed_value(value) {
        Some(amount) => if amount > 0 {
            Ok(amount)
        } else {
            Err("金额必须是正整数"@)
        },
        None => Err("金额必须是正整数"@),
    }
}

/// Reads an amount of money.
pub fn parse_positive_transfer_amount(value: &str) -> (result: Result<i64, String>)
    ensures
        i64_outcome(result) == transfer_amount(value@),
{
    match parse_i64(value) {
        Some(amount) => if amount > 0 {
            Ok(amount)
        } else {
            Err("金额必须是正整数".to_owned())
        },
        None => Err("金额必须是正整数".to_owned()),
    }
}

/// A recipient and an amount, whichever fails first.
pub open spec fn addressed(
    target: Result<Seq<char>, Seq<char>>,
    amount: Result<int, Seq<char>>,
) -> Result<(Seq<char>, int), Seq<char>> {
    match target {
        Err(message) => Err(message),
        Ok(target) => match amount {
            Err(message) => Err(message),
            Ok(amount) => Ok((target, amount)),
        },
    }
}

/// The recipient and the amount of a transfer. A mentioned player is the recipient;
/// then the amount stands alone.
pub open spec fn transfer_arguments(
    args: Seq<char>,
    mention: Option<Seq<char>>,
    legacy_hyphen: bool,
) -> Result<(Seq<char>, int), Seq<char>> {
    let args = text::trimmed(args);
    let words = text::words(args);
    let halves = text::last_split(args, '-');
    match mention {
        Some(target) => if words.len() == 0 {
            Err("用法："@ + TRANSFER_USAGE@)
        } else if words.len() > 1 {
            Err("已使用 @ 目标时不能再填写用户ID；请只填写金额"@)
        } else {
            addressed(Ok(target), transfer_amount(words[0]))
        },
        None => if words.len() == 2 {
            addressed(command_target(words[0]), transfer_amount(words[1]))
        } else if legacy_hyphen && halves is Some && !text::is_blank((halves->0).0)
            && !text::is_blank((halves->0).1) {
            addressed(
                command_target(text::trimmed((halves->0).0)),
                transfer_amount(text::trimmed((halves->0).1)),
            )
        } else {
            Err("用法："@ + TRANSFER_USAGE@ + "；旧格式为“转账 <用户ID>-<金额>”"@)
        },
    }
}

fn address(target: Result<String, String>, amount: Result<i64, String>) -> (result: Result<
    (String, i64),
    String,
>)
    ensures
        counted_outcome(result) == addressed(text::outcome(target), i64_outcome(amount)),
{
    match target {
        Err(message) => Err(message),
        Ok(target) => match amount {
            Err(message) => Err(message),
            Ok(amount) => Ok((target, amount)),
        },
    }
}

/// Reads the recipient and the amount of a transfer.
pub fn parse_transfer_args(args: &str, mention: Option<String>, legacy_hyphen: bool) -> (result:
    Result<(String, i64), String>)
    ensures
        counted_outcome(result) == transfer_arguments(
            args@,
            text::optional_text(mention),
            legacy_hyphen,
        ),
{
    let args = trim(args);
    let parts = split_whitespace(args);
    match mention {
        Some(target) => {
            if parts.len() == 0 {
                return Err(cat2("用法：", TRANSFER_USAGE));
            }
            if parts.len() > 1 {
                return Err("已使用 @ 目标时不能再填写用户ID；请只填写金额".to_owned());
            }
            return address(Ok(target), parse_positive_transfer_amount(nth(&parts, 0)));
        },
        None => {},
    }
    if parts.len() == 2 {
        return address(
            parse_command_target_subject_id(nth(&parts, 0)),
            parse_positive_transfer_amount(nth(&parts, 1)),
        );
    }
    if legacy_hyphen {
        match rsplit_once(args, '-') {
            Some((target, amount)) => {
                if !blank(&target) && !blank(&amount) {
                    return address(
                        parse_command_target_subject_id(trim(&target)),
                        parse_positive_transfer_amount(trim(&amount)),
                    );
                }
            },
            None => {},
        }
    }
    Err(cat3("用法：", TRANSFER_USAGE, "；旧格式为“转账 <用户ID>-<金额>”"))
}

/// The first word of a text and the rest, where white space parts them.
pub open spec fn first_argument(input: Seq<char>) -> Option<(Seq<char>, Seq<char>)> {
    let input = text::trimmed(input);
    let k = text::run_len(input, text::non_white());
    if 0 < k < input.len() {
        Some((input.take(k as int), text::trimmed(input.skip(k as int))))
    } else {
        None
    }
}

/// Parts the first word of a text from the rest.
pub fn split_first_argument(input: &str) -> (halves: Option<(String, String)>)
    ensures
        match halves {
            Some((target, rest)) => first_argument(input@) == Some((target@, rest@)),
            None => first_argument(input@) is None,
        },
{
    let input = trim(input);
    let characters = text::chars_of(input);
    let mut at: usize = 0;
    while at < characters.len() && !white_space(characters[at])
        invariant
            at <= characters@.len(),
            characters@ == input@,
            forall|j: int| 0 <= j < at ==> !text::is_white(#[trigger] input@[j]),
        decreases characters@.len() - at,
    {
        at = at + 1;
    }
    proof {
        text::lemma_run_len(input@, text::non_white(), at as int);
    }
    if at == 0 || at == characters.len() {
        return None;
    }
    let target = text::slice_text(&characters, 0, at);
    let rest = text::slice_text(&characters, at, characters.len());
    assert(target@ =~= input@.take(at as int));
    assert(rest@ =~= input@.skip(at as int));
    Some((target, trim(&rest).to_owned()))
}

/// The recipient, the item and the quantity of a gift, where the recipient is known.
pub open spec fn parcel(
    target: Result<Seq<char>, Seq<char>>,
    item: Result<(Seq<char>, int), Seq<char>>,
) -> Result<(Seq<char>, Seq<char>, int), Seq<char>> {
    match target {
        Err(message) => Err(message),
        Ok(target) => match item {
            Err(message) => Err(message),
            Ok((name, quantity)) => Ok((target, name, quantity)),
        },
    }
}

/// The parts of the old form of a gift: what stands before, between and behind the
/// last two hyphens, where the last is a number and nothing is blank.
pub open spec fn hyphened_gift(args: Seq<char>) -> Option<(Seq<char>, Seq<char>, int)> {
    match text::last_split(args, '-') {
        None => None,
        Some((head, number)) => match text::signed_value(text::trimmed(number)) {
            None => None,
            Some(quantity) => match text::last_split(head, '-') {
                None => None,
                Some((target, name)) => if text::is_blank(target) || text::is_blank(name) {
                    None
                } else {
                    Some((target, name, quantity))
                },
            },
        },
    }
}

/// The recipient, the item and the quantity of a gift. A mentioned player is the
/// recipient and may not be named again.
pub open spec fn gift_arguments(
    args: Seq<char>,
    mention: Option<Seq<char>>,
    legacy_hyphen: bool,
) -> Result<(Seq<char>, Seq<char>, int), Seq<char>> {
    let args = text::trimmed(args);
    let words = text::words(args);
    match mention {
        Some(target) => if args.len() == 0 {
            Err("用法："@ + GIFT_USAGE@)
        } else if words.len() > 0 && words[0] == target {
            Err("已使用 @ 目标时不能再填写用户ID；请删除重复目标"@)
        } else {
            parcel(Ok(target), item_quantity(args, legacy_hyphen, GIFT_USAGE@))
        },
        None => match first_argument(args) {
            Some((target, item)) => if item.len() == 0 {
                parcel(command_target(target), Err("用法："@ + GIFT_USAGE@))
            } else {
                parcel(command_target(target), item_quantity(item, legacy_hyphen, GIFT_USAGE@))
            },
            None => match hyphened_gift(args) {
                Some((target, name, quantity)) if legacy_hyphen => if !(1 <= quantity
                    <= MAX_QUANTITY) {
                    Err("数量必须在 1 到 9999 之间"@)
                } else {
                    parcel(
                        command_target(text::trimmed(target)),
                        match catalog_name(name, GIFT_USAGE@) {
                            Ok(name) => Ok((name, quantity)),
                            Err(message) => Err(message),
                        },
                    )
                },
                _ => Err(
                    "用法："@ + GIFT_USAGE@ + "；旧格式为“发送物品 <用户ID>-<物品名>-<数量>”"@,
                ),
            },
        },
    }
}

/// A gift of a result, as a mathematical value.
pub open spec fn parcel_outcome(result: Result<(String, String, i64), String>) -> Result<
    (Seq<char>, Seq<char>, int),
    Seq<char>,
> {
    match result {
        Ok((target, name, quantity)) => Ok((target@, name@, quantity as int)),
        Err(message) => Err(message@),
    }
}

fn pack(target: Result<String, String>, item: Result<(String, i64), String>) -> (result: Result<
    (String, String, i64),
    String,
>)
    ensures
        parcel_outcome(result) == parcel(text::outcome(target), counted_outcome(item)),
{
    match target {
        Err(message) => Err(message),
        Ok(target) => match item {
            Err(message) => Err(message),
            Ok((name, quantity)) => Ok((target, name, quantity)),
        },
    }
}

fn split_hyphened_gift(args: &str) -> (gift: Option<(String, String, i64)>)
    ensures
        match gift {
            Some((target, name, quantity)) => hyphened_gift(args@) == Some(
                (target@, name@, quantity as int),
            ),
            None => hyphened_gift(args@) is None,
        },
{
    match rsplit_once(args, '-') {
        None => None,
        Some((head, number)) => match parse_i64(trim(&number)) {
            None => None,
            Some(quantity) => match rsplit_once(&head, '-') {
                None => None,
                Some((target, name)) => if blank(&target) || blank(&name) {
                    None
                } else {
                    Some((target, name, quantity))
                },
            },
        },
    }
}

fn parse_mentioned_gift(args: &str, target: String, legacy_hyphen: bool) -> (result: Result<
    (String, String, i64),
    String,
>)
    ensures
        parcel_outcome(result) == gift_arguments(args@, Some(target@), legacy_hyphen),
{
    let args = trim(args);
    if args.is_empty() {
        return Err(cat2("用法：", GIFT_USAGE));
    }
    let parts = split_whitespace(args);
    if parts.len() > 0 && same(nth(&parts, 0), &target) {
        return Err("已使用 @ 目标时不能再填写用户ID；请删除重复目标".to_owned());
    }
    pack(Ok(target), parse_item_quantity(args, legacy_hyphen, GIFT_USAGE))
}

/// Reads the recipient, the item and the quantity of a gift.
pub fn parse_gift_args(args: &str, mention: Option<String>, legacy_hyphen: bool) -> (result: Result<
    (String, String, i64),
    String,
>)
    ensures
        parcel_outcome(result) == gift_arguments(
            args@,
            text::optional_text(mention),
            legacy_hyphen,
        ),
{
    match mention {
        Some(target) => return parse_mentioned_gift(args, target, legacy_hyphen),
        None => {},
    }
    let args = trim(args);
    match split_first_argument(args) {
        Some((target, item)) => {
            let target = parse_command_target_subject_id(&target);
            if item.as_str().is_empty() {
                return pack(target, Err(cat2("用法：", GIFT_USAGE)));
            }
            return pack(target, parse_item_quantity(&item, legacy_hyphen, GIFT_USAGE));
        },
        None => {},
    }
    if legacy_hyphen {
        match split_hyphened_gift(args) {
            Some((target, name, quantity)) => {
                if !(1 <= quantity && quantity <= MAX_QUANTITY) {
                    return Err("数量必须在 1 到 9999 之间".to_owned());
                }
                let item = match parse_required_catalog_name(&name, GIFT_USAGE) {
                    Ok(name) => Ok((name, quantity)),
                    Err(message) => Err(message),
                };
                return pack(parse_command_target_subject_id(trim(&target)), item);
            },
            None => {},
        }
    }
    Err(cat3("用法：", GIFT_USAGE, "；旧格式为“发送物品 <用户ID>-<物品名>-<数量>”"))
}

/// The player whose old record is inspected.
pub open spec fn inspect_argument(args: Seq<char>) -> Result<Seq<char>, Seq<char>> {
    let words = text::words(args);
    if words.len() != 1 || words[0].len() == 0 {
        Err("用法：旧档检查 <用户ID>"@)
    } else {
        Ok(words[0])
    }
}

/// Reads the player whose old record is inspected.
pub fn parse_legacy_inspect_args(args: &str) -> (result: Result<String, String>)
    ensures
        text::outcome(result) == inspect_argument(args@),
{
    let parts = split_whitespace(args);
    if parts.len() != 1 || nth(&parts, 0).is_empty() {
        return Err("用法：旧档检查 <用户ID>".to_owned());
    }
    Ok(nth(&parts, 0).to_owned())
}

/// The player and the account of a claim, with the confirmation.
pub open spec fn claim_arguments(args: Seq<char>) -> Result<(Seq<char>, Seq<char>), Seq<char>> {
    let words = text::words(args);
    if words.len() == 3 && words[0].len() > 0 && words[1].len() > 0 && words[2] == "确认"@ {
        Ok((words[0], words[1]))
    } else {
        Err("用法：旧档认领 <用户ID> <当前account_id> 确认"@)
    }
}

/// Reads the player and the account of a claim.
pub fn parse_legacy_claim_args(args: &str) -> (result: Result<(String, String), String>)
    ensures
        text::outcome(result) == claim_arguments(args@),
{
    let parts = split_whitespace(args);
    if parts.len() == 3 && !nth(&parts, 0).is_empty() && !nth(&parts, 1).is_empty() && same(
        nth(&parts, 2),
        "确认",
    ) {
        Ok((nth(&parts, 0).to_owned(), nth(&parts, 1).to_owned()))
    } else {
        Err("用法：旧档认领 <用户ID> <当前account_id> 确认".to_owned())
    }
}

/// How many battle events a player wants to see.
pub open spec fn log_limit(args: Seq<char>) -> Result<nat, Seq<char>> {
    let args = text::trimmed(args);
    if args.len() == 0 {
        Ok(20)
    } else {
        match text::unsigned_value(args, usize::MAX as nat) {
            None => Err("用法：战斗日志 [数量]"@),
            Some(limit) => if 1 <= limit <= MAX_PAGE {
                Ok(limit)
            } else {
                Err("战斗日志数量必须在 1 到 100 之间"@)
            },
        }
    }
}

/// A `usize` of a result, as a mathematical value.
pub open spec fn usize_outcome(result: Result<usize, String>) -> Result<nat, Seq<char>> {
    match result {
        Ok(number) => Ok(number as nat),
        Err(message) => Err(message@),
    }
}

/// Reads how many battle events a player wants to see.
pub fn parse_optional_log_limit(args: &str) -> (result: Result<usize, String>)
    ensures
        usize_outcome(result) == log_limit(args@),
{
    let args = trim(args);
    if args.is_empty() {
        return Ok(20);
    }
    match parse_unsigned(args, usize::MAX as u64) {
        None => Err("用法：战斗日志 [数量]".to_owned()),
        Some(limit) => if 1 <= limit && limit <= MAX_PAGE as u64 {
            Ok(limit as usize)
        } else {
            Err("战斗日志数量必须在 1 到 100 之间".to_owned())
        },
    }
}

/// The kinds of conversation that a protocol can authorise.
pub open spec fn context_kind_error(protocol: Protocol, kind: Seq<char>) -> Option<Seq<char>> {
    if kind == "group"@ {
        None
    } else if kind == "channel"@ {
        match protocol {
            Protocol::QqOfficial => None,
            Protocol::OneBot11 => Some("OneBot 11 当前只支持授权 group 上下文"@),
        }
    } else {
        Some("上下文类型只能是 group 或 channel"@)
    }
}

/// Checks the kind of a conversation.
pub fn validate_context_kind_for_protocol(protocol: Protocol, kind: &str) -> (result: Result<
    (),
    String,
>)
    ensures
        config::failure(result) == context_kind_error(protocol, kind@),
{
    if same(kind, "group") {
        return Ok(());
    }
    if same(kind, "channel") {
        return match protocol {
            Protocol::QqOfficial => Ok(()),
            Protocol::OneBot11 => Err("OneBot 11 当前只支持授权 group 上下文".to_owned()),
        };
    }
    Err("上下文类型只能是 group 或 channel".to_owned())
}

/// A recipient that was read is never empty, holds no white space and is not
/// everybody.
pub proof fn recipients_are_single_players(value: Seq<char>)
    ensures
        command_target(value) matches Ok(target) ==> {
            &&& target == value
            &&& 0 < target.len() <= 256
            &&& target != "all"@
            &&& forall|i: int| 0 <= i < target.len() ==> !text::is_white(#[trigger] target[i])
        },
{
}

/// No transfer and no gift moves nothing, or less: the amount and the quantity are
/// positive, and the quantity is bounded.
pub proof fn transfers_and_gifts_are_positive(
    args: Seq<char>,
    mention: Option<Seq<char>>,
    legacy_hyphen: bool,
)
    ensures
        transfer_arguments(args, mention, legacy_hyphen) matches Ok(parsed) ==> parsed.1 > 0,
        gift_arguments(args, mention, legacy_hyphen) matches Ok(parsed) ==> 1 <= parsed.2
            <= MAX_QUANTITY,
{
}

/// A mentioned player is the recipient, whatever the arguments say.
pub proof fn mentioned_players_are_the_recipients(
    args: Seq<char>,
    mention: Seq<char>,
    legacy_hyphen: bool,
)
    ensures
        transfer_arguments(args, Some(mention), legacy_hyphen) matches Ok(parsed) ==> parsed.0
            == mention,
        gift_arguments(args, Some(mention), legacy_hyphen) matches Ok(parsed) ==> parsed.0
            == mention,
{
}

/// A page that was read lies between one and the largest page.
pub proof fn pages_are_bounded(args: Seq<char>, label: Seq<char>)
    ensures
        map_page(args) matches Ok(page) ==> 1 <= page <= MAX_PAGE,
        single_page(args, label) matches Ok(page) ==> 1 <= page <= MAX_PAGE,
        shop_arguments(args) matches Ok(parsed) ==> 1 <= parsed.1 <= MAX_PAGE,
{
}

} // verus!
