//! Text seen as a sequence of characters.
//!
//! Every contract in this crate speaks of `Seq<char>`; this module holds the
//! character classes, the trimming and splitting rules, and the number formats
//! that the rest of the crate shares.
use vstd::prelude::*;
use vstd::string::*;

verus! {

/// The contents of a list of strings.
pub open spec fn texts(list: Seq<String>) -> Seq<Seq<char>> {
    Seq::new(list.len(), |i: int| list[i]@)
}

/// The contents of an optional string.
pub open spec fn optional_text(value: Option<String>) -> Option<Seq<char>> {
    match value {
        Some(text) => Some(text@),
        None => None,
    }
}

/// A result as a mathematical value.
pub open spec fn outcome<T: View>(result: Result<T, String>) -> Result<T::V, Seq<char>> {
    match result {
        Ok(value) => Ok(value@),
        Err(message) => Err(message@),
    }
}

/// `String::push` appends one character.
pub assume_specification[ String::push ](s: &mut String, ch: char)
    ensures
        final(s)@ == old(s)@.push(ch),
;

/// Whether two texts have the same characters.
pub(crate) fn same(left: &str, right: &str) -> (equal: bool)
    ensures
        equal == (left@ == right@),
{
    if left.len() != right.len() {
        return false;
    }
    let a = chars_of(left);
    let b = chars_of(right);
    if a.len() != b.len() {
        return false;
    }
    let mut i: usize = 0;
    while i < a.len()
        invariant
            i <= a@.len(),
            a@.len() == b@.len(),
            a@ == left@,
            b@ == right@,
            forall|j: int| 0 <= j < i ==> left@[j] == right@[j],
        decreases a@.len() - i,
    {
        if a[i] != b[i] {
            return false;
        }
        i = i + 1;
    }
    assert(left@ =~= right@);
    true
}

/// Appends one string to a list.
pub(crate) fn push_text(list: &mut Vec<String>, text: String)
    ensures
        texts(final(list)@) == texts(old(list)@).push(text@),
        final(list)@ == old(list)@.push(text),
{
    list.push(text);
    assert(texts(list@) =~= texts(old(list)@).push(text@));
}

pub(crate) fn cat2(a: &str, b: &str) -> (joined: String)
    ensures
        joined@ == a@ + b@,
{
    let mut joined = a.to_owned();
    joined.append(b);
    joined
}

pub(crate) fn cat3(a: &str, b: &str, c: &str) -> (joined: String)
    ensures
        joined@ == a@ + b@ + c@,
{
    let mut joined = cat2(a, b);
    joined.append(c);
    joined
}

pub(crate) fn cat4(a: &str, b: &str, c: &str, d: &str) -> (joined: String)
    ensures
        joined@ == a@ + b@ + c@ + d@,
{
    let mut joined = cat3(a, b, c);
    joined.append(d);
    joined
}

pub(crate) fn cat5(a: &str, b: &str, c: &str, d: &str, e: &str) -> (joined: String)
    ensures
        joined@ == a@ + b@ + c@ + d@ + e@,
{
    let mut joined = cat4(a, b, c, d);
    joined.append(e);
    joined
}

pub(crate) fn cat6(a: &str, b: &str, c: &str, d: &str, e: &str, f: &str) -> (joined: String)
    ensures
        joined@ == a@ + b@ + c@ + d@ + e@ + f@,
{
    let mut joined = cat5(a, b, c, d, e);
    joined.append(f);
    joined
}

pub(crate) fn cat7(
    a: &str,
    b: &str,
    c: &str,
    d: &str,
    e: &str,
    f: &str,
    g: &str,
) -> (joined: String)
    ensures
        joined@ == a@ + b@ + c@ + d@ + e@ + f@ + g@,
{
    let mut joined = cat6(a, b, c, d, e, f);
    joined.append(g);
    joined
}

/// The characters of a string slice, in order.
pub(crate) fn chars_of(text: &str) -> (characters: Vec<char>)
    ensures
        characters@ == text@,
{
    let mut characters: Vec<char> = Vec::new();
    for c in iter: text.chars()
        invariant
            characters@ == iter.seq().take(iter.index()),
            iter.seq() == text@,
    {
        characters.push(c);
        assert(iter.seq().take(iter.index() + 1) =~= iter.seq().take(iter.index()).push(c));
    }
    assert(text@.take(text@.len() as int) =~= text@);
    characters
}

/// The string made of the characters from `from` up to `to`.
pub(crate) fn slice_text(characters: &Vec<char>, from: usize, to: usize) -> (text: String)
    requires
        from <= to <= characters@.len(),
    ensures
        text@ == characters@.subrange(from as int, to as int),
{
    let mut text = String::new();
    let mut i: usize = from;
    while i < to
        invariant
            from <= i <= to <= characters@.len(),
            text@ == characters@.subrange(from as int, i as int),
        decreases to - i,
    {
        text.push(characters[i]);
        i = i + 1;
        assert(characters@.subrange(from as int, i as int) =~= characters@.subrange(
            from as int,
            i - 1,
        ).push(characters@[i - 1]));
    }
    text
}

/// The characters that Unicode gives the property White_Space.
pub open spec fn is_white(c: char) -> bool {
    let n = c as int;
    ||| 0x9 <= n <= 0xd
    ||| n == 0x20
    ||| n == 0x85
    ||| n == 0xa0
    ||| n == 0x1680
    ||| 0x2000 <= n <= 0x200a
    ||| n == 0x2028
    ||| n == 0x2029
    ||| n == 0x202f
    ||| n == 0x205f
    ||| n == 0x3000
}

/// The characters of Unicode's general category Cc.
pub open spec fn is_control(c: char) -> bool {
    let n = c as int;
    n <= 0x1f || 0x7f <= n <= 0x9f
}

/// Whether a character is white space.
pub fn white_space(c: char) -> (answer: bool)
    ensures
        answer == is_white(c),
{
    let n: u32 = c as u32;
    (0x9 <= n && n <= 0xd) || n == 0x20 || n == 0x85 || n == 0xa0 || n == 0x1680 || (0x2000 <= n
        && n <= 0x200a) || n == 0x2028 || n == 0x2029 || n == 0x202f || n == 0x205f || n == 0x3000
}

/// Whether a character is a control character.
pub fn control(c: char) -> (answer: bool)
    ensures
        answer == is_control(c),
{
    let n: u32 = c as u32;
    n <= 0x1f || (0x7f <= n && n <= 0x9f)
}

/// Whether some character of a text is a control character.
pub open spec fn has_control(text: Seq<char>) -> bool {
    exists|i: int| 0 <= i < text.len() && is_control(#[trigger] text[i])
}

pub(crate) fn any_control(text: &str) -> (answer: bool)
    ensures
        answer == has_control(text@),
{
    let characters = chars_of(text);
    let mut i: usize = 0;
    while i < characters.len()
        invariant
            i <= characters@.len(),
            characters@ == text@,
            forall|j: int| 0 <= j < i ==> !is_control(#[trigger] text@[j]),
        decreases characters@.len() - i,
    {
        if control(characters[i]) {
            return true;
        }
        i = i + 1;
    }
    false
}

/// The predicate that holds of white space.
pub open spec fn white() -> spec_fn(char) -> bool {
    |c: char| is_white(c)
}

/// The predicate that holds of everything but white space.
pub open spec fn non_white() -> spec_fn(char) -> bool {
    |c: char| !is_white(c)
}

/// The predicate that holds of every character but one.
pub open spec fn other_than(c: char) -> spec_fn(char) -> bool {
    |d: char| d != c
}

/// How many characters at the start of a text satisfy a predicate.
pub open spec fn run_len(text: Seq<char>, p: spec_fn(char) -> bool) -> nat
    decreases text.len(),
{
    if text.len() > 0 && p(text[0]) {
        1 + run_len(text.skip(1), p)
    } else {
        0
    }
}

/// How many characters at the end of a text satisfy a predicate.
pub open spec fn tail_run_len(text: Seq<char>, p: spec_fn(char) -> bool) -> nat
    decreases text.len(),
{
    if text.len() > 0 && p(text.last()) {
        1 + tail_run_len(text.drop_last(), p)
    } else {
        0
    }
}

pub(crate) proof fn lemma_run_len(text: Seq<char>, p: spec_fn(char) -> bool, k: int)
    requires
        0 <= k <= text.len(),
        forall|j: int| 0 <= j < k ==> p(#[trigger] text[j]),
        k < text.len() ==> !p(text[k]),
    ensures
        run_len(text, p) == k,
    decreases k,
{
    if k > 0 {
        assert(p(text[0]));
        assert forall|j: int| 0 <= j < k - 1 implies p(#[trigger] text.skip(1)[j]) by {
            assert(text.skip(1)[j] == text[j + 1]);
        }
        lemma_run_len(text.skip(1), p, k - 1);
    }
}

pub(crate) proof fn lemma_run_len_facts(text: Seq<char>, p: spec_fn(char) -> bool)
    ensures
        run_len(text, p) <= text.len(),
        forall|j: int| 0 <= j < run_len(text, p) ==> p(#[trigger] text[j]),
        run_len(text, p) < text.len() ==> !p(text[run_len(text, p) as int]),
    decreases text.len(),
{
    if text.len() > 0 && p(text[0]) {
        lemma_run_len_facts(text.skip(1), p);
        assert forall|j: int| 0 <= j < run_len(text, p) implies p(#[trigger] text[j]) by {
            if j > 0 {
                assert(text.skip(1)[j - 1] == text[j]);
            }
        }
        if run_len(text, p) < text.len() {
            assert(text.skip(1)[run_len(text, p) - 1] == text[run_len(text, p) as int]);
        }
    }
}

pub(crate) proof fn lemma_tail_run_len(text: Seq<char>, p: spec_fn(char) -> bool, k: int)
    requires
        0 <= k <= text.len(),
        forall|j: int| text.len() - k <= j < text.len() ==> p(#[trigger] text[j]),
        k < text.len() ==> !p(text[text.len() - k - 1]),
    ensures
        tail_run_len(text, p) == k,
    decreases k,
{
    if k > 0 {
        assert(p(text[text.len() - 1]));
        assert forall|j: int| text.len() - k <= j < text.len() - 1 implies p(
            #[trigger] text.drop_last()[j],
        ) by {
            assert(text.drop_last()[j] == text[j]);
        }
        lemma_tail_run_len(text.drop_last(), p, k - 1);
    }
}

pub(crate) proof fn lemma_tail_run_len_facts(text: Seq<char>, p: spec_fn(char) -> bool)
    ensures
        tail_run_len(text, p) <= text.len(),
        forall|j: int|
            text.len() - tail_run_len(text, p) <= j < text.len() ==> p(#[trigger] text[j]),
        tail_run_len(text, p) < text.len() ==> !p(text[text.len() - tail_run_len(text, p) - 1]),
    decreases text.len(),
{
    if text.len() > 0 && p(text.last()) {
        lemma_tail_run_len_facts(text.drop_last(), p);
        assert forall|j: int|
            text.len() - tail_run_len(text, p) <= j < text.len() implies p(#[trigger] text[j]) by {
            if j < text.len() - 1 {
                assert(text.drop_last()[j] == text[j]);
            }
        }
        if tail_run_len(text, p) < text.len() {
            let m = text.len() - tail_run_len(text, p) - 1;
            assert(text.drop_last()[m] == text[m]);
        }
    }
}

/// A text without the white space at its start.
pub open spec fn trim_start(text: Seq<char>) -> Seq<char> {
    text.skip(run_len(text, white()) as int)
}

/// A text without the white space at its end.
pub open spec fn trim_end(text: Seq<char>) -> Seq<char> {
    text.take(text.len() - tail_run_len(text, white()))
}

/// A text without the white space at its ends.
pub open spec fn trimmed(text: Seq<char>) -> Seq<char> {
    trim_end(trim_start(text))
}

/// Whether a text holds nothing but white space.
pub open spec fn is_blank(text: Seq<char>) -> bool {
    trimmed(text).len() == 0
}

/// The text without the white space at its ends.
pub fn trim<'a>(text: &'a str) -> (result: &'a str)
    ensures
        result@ == trimmed(text@),
{
    let characters = chars_of(text);
    let mut from: usize = 0;
    while from < characters.len() && white_space(characters[from])
        invariant
            from <= characters@.len(),
            characters@ == text@,
            forall|j: int| 0 <= j < from ==> is_white(#[trigger] text@[j]),
        decreases characters@.len() - from,
    {
        from = from + 1;
    }
    proof {
        lemma_run_len(text@, white(), from as int);
    }
    let ghost rest = trim_start(text@);
    let mut to: usize = characters.len();
    while to > from && white_space(characters[to - 1])
        invariant
            from <= to <= characters@.len(),
            characters@ == text@,
            rest == text@.skip(from as int),
            forall|j: int| to <= j < text@.len() ==> is_white(#[trigger] text@[j]),
        decreases to,
    {
        to = to - 1;
    }
    proof {
        let k = text@.len() - to;
        assert forall|j: int| rest.len() - k <= j < rest.len() implies white()(
            #[trigger] rest[j],
        ) by {
            assert(rest[j] == text@[j + from]);
        }
        if k < rest.len() {
            assert(rest[rest.len() - k - 1] == text@[to - 1]);
        }
        lemma_tail_run_len(rest, white(), k);
        assert(text@.subrange(from as int, to as int) =~= rest.take(rest.len() - k));
    }
    text.substring_char(from, to)
}

/// The text without the white space at its end.
pub(crate) fn trim_right<'a>(text: &'a str) -> (result: &'a str)
    ensures
        result@ == trim_end(text@),
{
    let length = text.unicode_len();
    let mut to: usize = length;
    while to > 0 && white_space(text.get_char(to - 1))
        invariant
            to <= length == text@.len(),
            forall|j: int| to <= j < text@.len() ==> is_white(#[trigger] text@[j]),
        decreases to,
    {
        to = to - 1;
    }
    proof {
        lemma_tail_run_len(text@, white(), text@.len() - to);
        assert(text@.subrange(0, to as int) =~= text@.take(to as int));
    }
    text.substring_char(0, to)
}

/// Whether a text is blank.
pub(crate) fn blank(text: &str) -> (answer: bool)
    ensures
        answer == is_blank(text@),
{
    trim(text).is_empty()
}

/// Whether a text has no white space at its ends.
pub(crate) fn is_trimmed(text: &str) -> (answer: bool)
    ensures
        answer == (trimmed(text@) == text@),
{
    same(trim(text), text)
}

/// A text is blank exactly when all of its characters are white space.
pub proof fn blank_means_all_white(text: Seq<char>)
    ensures
        is_blank(text) == (forall|i: int| 0 <= i < text.len() ==> is_white(#[trigger] text[i])),
{
    lemma_run_len_facts(text, white());
    let rest = trim_start(text);
    lemma_tail_run_len_facts(rest, white());
    let k = run_len(text, white());
    if k < text.len() {
        assert(rest[0] == text[k as int]);
        assert(!is_white(text[k as int]));
    }
}

/// Trimming a trimmed text changes nothing.
pub proof fn trimming_twice_is_trimming_once(text: Seq<char>)
    ensures
        trimmed(trimmed(text)) == trimmed(text),
{
    lemma_run_len_facts(text, white());
    let rest = trim_start(text);
    lemma_tail_run_len_facts(rest, white());
    let inner = trim_end(rest);
    if inner.len() > 0 {
        assert(inner[0] == rest[0]);
        assert(rest[0] == text[run_len(text, white()) as int]);
        assert(inner.last() == rest[inner.len() - 1]);
    }
    lemma_run_len(inner, white(), 0);
    assert(inner.skip(0) =~= inner);
    lemma_tail_run_len(inner, white(), 0);
    assert(inner.take(inner.len() as int) =~= inner);
}

/// The maximal runs of characters without white space, in order.
pub open spec fn words(text: Seq<char>) -> Seq<Seq<char>>
    decreases text.len(),
    via words_decrease
{
    let rest = trim_start(text);
    if rest.len() == 0 {
        Seq::empty()
    } else {
        let k = run_len(rest, non_white()) as int;
        seq![rest.take(k)] + words(rest.skip(k))
    }
}

#[via_fn]
proof fn words_decrease(text: Seq<char>) {
    lemma_run_len_facts(text, white());
    let rest = trim_start(text);
    lemma_run_len_facts(rest, non_white());
    if rest.len() > 0 {
        assert(rest[0] == text[run_len(text, white()) as int]);
        assert(run_len(rest, non_white()) > 0);
    }
}

/// The words of a text.
pub fn split_whitespace(text: &str) -> (list: Vec<String>)
    ensures
        texts(list@) == words(text@),
{
    let characters = chars_of(text);
    let mut list: Vec<String> = Vec::new();
    let mut at: usize = 0;
    assert(text@.skip(0) =~= text@);
    assert(texts(list@) + words(text@) =~= words(text@));
    loop
        invariant
            at <= characters@.len(),
            characters@ == text@,
            words(text@) == texts(list@) + words(text@.skip(at as int)),
        ensures
            texts(list@) == words(text@),
        decreases characters@.len() - at,
    {
        let ghost here = text@.skip(at as int);
        let mut from: usize = at;
        while from < characters.len() && white_space(characters[from])
            invariant
                at <= from <= characters@.len(),
                characters@ == text@,
                forall|j: int| at <= j < from ==> is_white(#[trigger] text@[j]),
            decreases characters@.len() - from,
        {
            from = from + 1;
        }
        proof {
            assert forall|j: int| 0 <= j < from - at implies white()(#[trigger] here[j]) by {
                assert(here[j] == text@[j + at]);
            }
            if from < text@.len() {
                assert(here[from - at] == text@[from as int]);
            }
            lemma_run_len(here, white(), from - at);
            assert(trim_start(here) =~= text@.skip(from as int));
        }
        if from == characters.len() {
            assert(texts(list@) + Seq::<Seq<char>>::empty() =~= texts(list@));
            break;
        }
        let ghost rest = text@.skip(from as int);
        let mut to: usize = from;
        while to < characters.len() && !white_space(characters[to])
            invariant
                from <= to <= characters@.len(),
                characters@ == text@,
                forall|j: int| from <= j < to ==> !is_white(#[trigger] text@[j]),
            decreases characters@.len() - to,
        {
            to = to + 1;
        }
        proof {
            assert forall|j: int| 0 <= j < to - from implies non_white()(#[trigger] rest[j]) by {
                assert(rest[j] == text@[j + from]);
            }
            if to < text@.len() {
                assert(rest[to - from] == text@[to as int]);
            }
            lemma_run_len(rest, non_white(), to - from);
            assert(rest.take(to - from) =~= text@.subrange(from as int, to as int));
            assert(rest.skip(to - from) =~= text@.skip(to as int));
            assert(rest[0] == text@[from as int]);
        }
        let ghost before = texts(list@);
        push_text(&mut list, slice_text(&characters, from, to));
        assert(texts(list@) + words(text@.skip(to as int)) =~= before + (seq![
            rest.take(to - from),
        ] + words(rest.skip(to - from))));
        at = to;
    }
    list
}

/// The index of the first occurrence of a character, or the length.
pub open spec fn index_of(text: Seq<char>, c: char) -> nat {
    run_len(text, other_than(c))
}

pub(crate) fn find_char(characters: &Vec<char>, from: usize, c: char) -> (at: usize)
    requires
        from <= characters@.len(),
    ensures
        from <= at <= characters@.len(),
        at - from == index_of(characters@.skip(from as int), c),
        forall|j: int| from <= j < at ==> #[trigger] characters@[j] != c,
        at < characters@.len() ==> characters@[at as int] == c,
{
    let mut at: usize = from;
    while at < characters.len() && characters[at] != c
        invariant
            from <= at <= characters@.len(),
            forall|j: int| from <= j < at ==> #[trigger] characters@[j] != c,
        decreases characters@.len() - at,
    {
        at = at + 1;
    }
    proof {
        let rest = characters@.skip(from as int);
        assert forall|j: int| 0 <= j < at - from implies other_than(c)(#[trigger] rest[j]) by {
            assert(rest[j] == characters@[j + from]);
        }
        if at < characters@.len() {
            assert(rest[at - from] == characters@[at as int]);
        }
        lemma_run_len(rest, other_than(c), at - from);
    }
    at
}

/// The parts of a text between the occurrences of a separator.
pub open spec fn parts(text: Seq<char>, separator: char) -> Seq<Seq<char>>
    decreases text.len(),
    via parts_decrease
{
    let k = index_of(text, separator) as int;
    if k < text.len() {
        seq![text.take(k)] + parts(text.skip(k + 1), separator)
    } else {
        seq![text]
    }
}

#[via_fn]
proof fn parts_decrease(text: Seq<char>, separator: char) {
    lemma_run_len_facts(text, other_than(separator));
}

/// The last part of a text is what stands behind its last separator.
pub(crate) proof fn lemma_last_part(text: Seq<char>, separator: char)
    ensures
        ({
            let last = parts(text, separator).last();
            &&& parts(text, separator).len() > 0
            &&& last.len() <= text.len()
            &&& last == text.skip(text.len() - last.len())
            &&& last.len() < text.len() ==> text[text.len() - last.len() - 1] == separator
        }),
    decreases text.len(),
{
    lemma_run_len_facts(text, other_than(separator));
    let k = index_of(text, separator) as int;
    if k < text.len() {
        let rest = text.skip(k + 1);
        lemma_last_part(rest, separator);
        let last = parts(rest, separator).last();
        assert(parts(text, separator).last() == last);
        assert(rest.skip(rest.len() - last.len()) =~= text.skip(text.len() - last.len()));
        if last.len() < rest.len() {
            assert(rest[rest.len() - last.len() - 1] == text[text.len() - last.len() - 1]);
        }
    } else {
        assert(text.skip(0) =~= text);
    }
}

/// Splits a text at every occurrence of a separator.
pub(crate) fn split_char(text: &str, separator: char) -> (list: Vec<String>)
    ensures
        texts(list@) == parts(text@, separator),
        list@.len() > 0,
{
    let characters = chars_of(text);
    let mut list: Vec<String> = Vec::new();
    let mut from: usize = 0;
    assert(text@.skip(0) =~= text@);
    assert(texts(list@) + parts(text@, separator) =~= parts(text@, separator));
    loop
        invariant_except_break
            from <= characters@.len(),
            characters@ == text@,
            parts(text@, separator) == texts(list@) + parts(text@.skip(from as int), separator),
        ensures
            texts(list@) == parts(text@, separator),
            list@.len() > 0,
        decreases characters@.len() - from,
    {
        let to = find_char(&characters, from, separator);
        let ghost rest = text@.skip(from as int);
        let ghost before = texts(list@);
        push_text(&mut list, slice_text(&characters, from, to));
        if to == characters.len() {
            assert(text@.subrange(from as int, to as int) =~= rest);
            assert(texts(list@) =~= before + seq![rest]);
            break;
        }
        proof {
            assert(text@.subrange(from as int, to as int) =~= rest.take(to - from));
            assert(rest.skip(to - from + 1) =~= text@.skip(to + 1));
            assert(texts(list@) + parts(text@.skip(to + 1), separator) =~= before + (seq![
                rest.take(to - from),
            ] + parts(text@.skip(to + 1), separator)));
        }
        from = to + 1;
    }
    list
}

/// The order of a dictionary, by the code points of the characters.
pub open spec fn before(left: Seq<char>, right: Seq<char>) -> bool
    decreases left.len(),
{
    if right.len() == 0 {
        false
    } else if left.len() == 0 {
        true
    } else if left[0] != right[0] {
        left[0] < right[0]
    } else {
        before(left.skip(1), right.skip(1))
    }
}

/// Of two different texts exactly one comes first.
pub proof fn one_text_comes_first(left: Seq<char>, right: Seq<char>)
    ensures
        left == right ==> !before(left, right),
        left != right ==> before(left, right) != before(right, left),
    decreases left.len(),
{
    if left.len() > 0 && right.len() > 0 && left[0] == right[0] {
        one_text_comes_first(left.skip(1), right.skip(1));
        if left.skip(1) == right.skip(1) {
            assert(left =~= seq![left[0]] + left.skip(1));
            assert(right =~= seq![right[0]] + right.skip(1));
        }
    } else if left.len() == 0 && right.len() == 0 {
        assert(left =~= right);
    }
}

/// What comes before a text that comes before another comes before that other.
pub proof fn coming_first_is_transitive(a: Seq<char>, b: Seq<char>, c: Seq<char>)
    requires
        before(a, b),
        before(b, c),
    ensures
        before(a, c),
    decreases a.len(),
{
    if a.len() > 0 && a[0] == b[0] && b[0] == c[0] {
        coming_first_is_transitive(a.skip(1), b.skip(1), c.skip(1));
    }
}

/// Whether one text comes before another.
pub(crate) fn comes_first(left: &str, right: &str) -> (answer: bool)
    ensures
        answer == before(left@, right@),
{
    let a = chars_of(left);
    let b = chars_of(right);
    let mut i: usize = 0;
    assert(left@.skip(0) =~= left@);
    assert(right@.skip(0) =~= right@);
    while i < a.len() && i < b.len()
        invariant
            i <= a@.len(),
            i <= b@.len(),
            a@ == left@,
            b@ == right@,
            before(left@, right@) == before(left@.skip(i as int), right@.skip(i as int)),
        decreases a@.len() - i,
    {
        assert(left@.skip(i as int).skip(1) =~= left@.skip(i + 1));
        assert(right@.skip(i as int).skip(1) =~= right@.skip(i + 1));
        if a[i] != b[i] {
            return a[i] < b[i];
        }
        i = i + 1;
    }
    i < b.len()
}

/// What stands before and after the last occurrence of a character.
pub open spec fn last_split(text: Seq<char>, separator: char) -> Option<(Seq<char>, Seq<char>)> {
    let k = tail_run_len(text, other_than(separator));
    if k < text.len() {
        Some((text.take(text.len() - k - 1), text.skip(text.len() - k)))
    } else {
        None
    }
}

/// Cuts a text at the last occurrence of a character.
pub(crate) fn rsplit_once(text: &str, separator: char) -> (halves: Option<(String, String)>)
    ensures
        match halves {
            Some((before, after)) => last_split(text@, separator) == Some((before@, after@)),
            None => last_split(text@, separator) is None,
        },
{
    let characters = chars_of(text);
    let mut at: usize = characters.len();
    while at > 0 && characters[at - 1] != separator
        invariant
            at <= characters@.len(),
            characters@ == text@,
            forall|j: int| at <= j < text@.len() ==> #[trigger] text@[j] != separator,
        decreases at,
    {
        at = at - 1;
    }
    proof {
        lemma_tail_run_len(text@, other_than(separator), text@.len() - at);
    }
    if at == 0 {
        None
    } else {
        Some((slice_text(&characters, 0, at - 1), slice_text(&characters, at, characters.len())))
    }
}

/// One string of a list.
pub(crate) fn nth(list: &Vec<String>, index: usize) -> (item: &str)
    requires
        index < list@.len(),
    ensures
        item@ == texts(list@)[index as int],
{
    list[index].as_str()
}

/// The list joined with a separator between its elements.
pub open spec fn joined(list: Seq<Seq<char>>, separator: Seq<char>) -> Seq<char>
    decreases list.len(),
{
    if list.len() == 0 {
        Seq::empty()
    } else if list.len() == 1 {
        list[0]
    } else {
        joined(list.drop_last(), separator) + separator + list.last()
    }
}

/// Joins a list of strings.
pub(crate) fn join(list: &Vec<String>, separator: &str) -> (text: String)
    ensures
        text@ == joined(texts(list@), separator@),
{
    let mut text = String::new();
    let mut i: usize = 0;
    let ghost all = texts(list@);
    while i < list.len()
        invariant
            i <= list@.len(),
            all == texts(list@),
            text@ == joined(all.take(i as int), separator@),
        decreases list@.len() - i,
    {
        if i > 0 {
            text.append(separator);
        }
        text.append(&list[i]);
        proof {
            let next = all.take(i + 1);
            assert(next.drop_last() =~= all.take(i as int));
            assert(next.last() == list@[i as int]@);
            if i == 0 {
                assert(Seq::<char>::empty() + list@[0]@ =~= list@[0]@);
            }
        }
        i = i + 1;
    }
    assert(all.take(all.len() as int) =~= all);
    text
}

pub(crate) fn starts_with(text: &str, prefix: &str) -> (answer: bool)
    ensures
        answer == prefix@.is_prefix_of(text@),
{
    let whole = chars_of(text);
    let wanted = chars_of(prefix);
    if wanted.len() > whole.len() {
        return false;
    }
    let mut i: usize = 0;
    while i < wanted.len()
        invariant
            i <= wanted@.len() <= whole@.len(),
            whole@ == text@,
            wanted@ == prefix@,
            forall|j: int| 0 <= j < i ==> whole@[j] == #[trigger] wanted@[j],
        decreases wanted@.len() - i,
    {
        if whole[i] != wanted[i] {
            assert(text@.subrange(0, prefix@.len() as int)[i as int] != prefix@[i as int]);
            return false;
        }
        i = i + 1;
    }
    assert(text@.subrange(0, prefix@.len() as int) =~= prefix@);
    true
}

pub(crate) fn ends_with(text: &str, suffix: &str) -> (answer: bool)
    ensures
        answer == suffix@.is_suffix_of(text@),
{
    let whole = chars_of(text);
    let wanted = chars_of(suffix);
    if wanted.len() > whole.len() {
        return false;
    }
    let shift: usize = whole.len() - wanted.len();
    let mut i: usize = 0;
    let ghost tail = text@.subrange(shift as int, text@.len() as int);
    while i < wanted.len()
        invariant
            i <= wanted@.len(),
            shift + wanted@.len() == whole@.len(),
            whole@ == text@,
            wanted@ == suffix@,
            tail == text@.subrange(shift as int, text@.len() as int),
            forall|j: int| 0 <= j < i ==> tail[j] == #[trigger] wanted@[j],
        decreases wanted@.len() - i,
    {
        assert(shift + i < whole.len());
        assert(tail[i as int] == whole@[shift + i]);
        if whole[shift + i] != wanted[i] {
            return false;
        }
        i = i + 1;
    }
    assert(tail =~= suffix@);
    true
}

/// The text behind a prefix, where the text starts with it.
pub open spec fn without_prefix(text: Seq<char>, prefix: Seq<char>) -> Option<Seq<char>> {
    if prefix.is_prefix_of(text) {
        Some(text.skip(prefix.len() as int))
    } else {
        None
    }
}

pub(crate) fn strip_prefix<'a>(text: &'a str, prefix: &str) -> (rest: Option<&'a str>)
    ensures
        match rest {
            Some(rest) => without_prefix(text@, prefix@) == Some(rest@),
            None => without_prefix(text@, prefix@) is None,
        },
{
    if starts_with(text, prefix) {
        let from = prefix.unicode_len();
        let to = text.unicode_len();
        assert(text@.subrange(from as int, to as int) =~= text@.skip(from as int));
        Some(text.substring_char(from, to))
    } else {
        None
    }
}

pub open spec fn is_lower(c: char) -> bool {
    'a' <= c <= 'z'
}

pub open spec fn is_upper(c: char) -> bool {
    'A' <= c <= 'Z'
}

pub open spec fn is_digit(c: char) -> bool {
    '0' <= c <= '9'
}

/// An ASCII letter or digit.
pub open spec fn is_alphanumeric(c: char) -> bool {
    is_lower(c) || is_upper(c) || is_digit(c)
}

/// A character with an ASCII capital made small.
pub open spec fn lower(c: char) -> char {
    if is_upper(c) {
        ((c as int) + 32) as char
    } else {
        c
    }
}

/// A text with its ASCII capitals made small.
pub open spec fn lowered(text: Seq<char>) -> Seq<char> {
    text.map_values(|c: char| lower(c))
}

/// A text with its ASCII capitals made small.
pub(crate) fn to_lower(text: &str) -> (result: String)
    ensures
        result@ == lowered(text@),
{
    let characters = chars_of(text);
    let mut result = String::new();
    let mut i: usize = 0;
    while i < characters.len()
        invariant
            i <= characters@.len(),
            characters@ == text@,
            result@ == lowered(text@.take(i as int)),
        decreases characters@.len() - i,
    {
        let c = characters[i];
        if 'A' <= c && c <= 'Z' {
            result.push((c as u8 + 32) as char);
        } else {
            result.push(c);
        }
        i = i + 1;
        assert(text@.take(i as int) =~= text@.take(i - 1).push(c));
        assert(lowered(text@.take(i as int)) =~= lowered(text@.take(i - 1)).push(lower(c)));
    }
    assert(text@.take(text@.len() as int) =~= text@);
    result
}

/// The character of a decimal digit.
pub open spec fn digit(d: int) -> char {
    (48 + d) as char
}

/// A natural number in decimal notation.
pub open spec fn decimal(n: nat) -> Seq<char>
    decreases n,
{
    if n < 10 {
        seq![digit(n as int)]
    } else {
        decimal(n / 10).push(digit((n % 10) as int))
    }
}

/// An integer in decimal notation, with a minus sign where it is negative.
pub open spec fn integer(n: int) -> Seq<char> {
    if n < 0 {
        "-"@ + decimal((-n) as nat)
    } else {
        decimal(n as nat)
    }
}

pub(crate) fn u64_text(n: u64) -> (text: String)
    ensures
        text@ == decimal(n as nat),
    decreases n,
{
    if n < 10 {
        let mut text = String::new();
        text.push((48 + n as u8) as char);
        assert(text@ =~= seq![digit(n as int)]);
        text
    } else {
        let mut text = u64_text(n / 10);
        text.push((48 + (n % 10) as u8) as char);
        text
    }
}

pub(crate) fn usize_text(n: usize) -> (text: String)
    ensures
        text@ == decimal(n as nat),
{
    u64_text(n as u64)
}

pub(crate) fn i64_text(n: i64) -> (text: String)
    ensures
        text@ == integer(n as int),
{
    if n < 0 {
        let magnitude: u64 = (-(n as i128)) as u64;
        cat2("-", &u64_text(magnitude))
    } else {
        u64_text(n as u64)
    }
}

/// Whether a text is made of decimal digits alone.
pub open spec fn all_digits(text: Seq<char>) -> bool {
    forall|i: int| 0 <= i < text.len() ==> is_digit(#[trigger] text[i])
}

/// The number that a run of decimal digits denotes.
pub open spec fn digits_value(text: Seq<char>) -> nat
    decreases text.len(),
{
    if text.len() == 0 {
        0
    } else {
        (digits_value(text.drop_last()) * 10 + ((text.last() as int) - 48)) as nat
    }
}

/// An optional plus sign and at least one digit, with a value up to a limit.
pub open spec fn unsigned_value(text: Seq<char>, limit: nat) -> Option<nat> {
    let body = if text.len() > 0 && text[0] == '+' {
        text.skip(1)
    } else {
        text
    };
    if body.len() > 0 && all_digits(body) && digits_value(body) <= limit {
        Some(digits_value(body))
    } else {
        None
    }
}

/// An optional sign and at least one digit, with a value that `i64` can hold.
pub open spec fn signed_value(text: Seq<char>) -> Option<int> {
    if text.len() > 0 && text[0] == '-' {
        let body = text.skip(1);
        if body.len() > 0 && all_digits(body) && -digits_value(body) >= i64::MIN {
            Some(-(digits_value(body) as int))
        } else {
            None
        }
    } else {
        match unsigned_value(text, i64::MAX as nat) {
            Some(n) => Some(n as int),
            None => None,
        }
    }
}

pub(crate) proof fn lemma_digits_value_grows(text: Seq<char>, k: int)
    requires
        0 <= k <= text.len(),
        all_digits(text),
    ensures
        digits_value(text.take(k)) <= digits_value(text),
    decreases text.len() - k,
{
    if k < text.len() {
        lemma_digits_value_grows(text, k + 1);
        let next = text.take(k + 1);
        assert(next.drop_last() =~= text.take(k));
        assert(is_digit(text[k]));
        assert(next.last() == text[k]);
    } else {
        assert(text.take(k) =~= text);
    }
}

/// Reads the digits from `from` on, up to a limit.
pub(crate) fn read_digits(characters: &Vec<char>, from: usize, limit: u64) -> (value: Option<u64>)
    requires
        from <= characters@.len(),
    ensures
        ({
            let body = characters@.skip(from as int);
            match value {
                Some(n) => body.len() > 0 && all_digits(body) && digits_value(body) == n && n
                    <= limit,
                None => !(body.len() > 0 && all_digits(body) && digits_value(body) <= limit),
            }
        }),
{
    if from == characters.len() {
        return None;
    }
    let ghost body = characters@.skip(from as int);
    let mut value: u128 = 0;
    let mut i: usize = from;
    while i < characters.len()
        invariant
            from <= i <= characters@.len(),
            body == characters@.skip(from as int),
            value <= limit,
            forall|j: int| 0 <= j < i - from ==> is_digit(#[trigger] body[j]),
            value == digits_value(body.take(i - from)),
        decreases characters@.len() - i,
    {
        let c = characters[i];
        assert(body[i - from] == c);
        if !('0' <= c && c <= '9') {
            return None;
        }
        value = value * 10 + (c as u32 - 48) as u128;
        i = i + 1;
        proof {
            let next = body.take(i - from);
            assert(next.drop_last() =~= body.take(i - from - 1));
            assert(next.last() == c);
        }
        if value > limit as u128 {
            proof {
                if all_digits(body) {
                    lemma_digits_value_grows(body, i - from);
                }
            }
            return None;
        }
    }
    assert(body.take(body.len() as int) =~= body);
    Some(value as u64)
}

/// Reads an unsigned decimal number up to a limit.
pub(crate) fn parse_unsigned(text: &str, limit: u64) -> (value: Option<u64>)
    ensures
        match value {
            Some(n) => unsigned_value(text@, limit as nat) == Some(n as nat),
            None => unsigned_value(text@, limit as nat) is None,
        },
{
    let characters = chars_of(text);
    assert(text@.skip(0) =~= text@);
    if characters.len() > 0 && characters[0] == '+' {
        read_digits(&characters, 1, limit)
    } else {
        read_digits(&characters, 0, limit)
    }
}

/// Reads a signed decimal number.
pub(crate) fn parse_i64(text: &str) -> (value: Option<i64>)
    ensures
        match value {
            Some(n) => signed_value(text@) == Some(n as int),
            None => signed_value(text@) is None,
        },
{
    let characters = chars_of(text);
    if characters.len() > 0 && characters[0] == '-' {
        match read_digits(&characters, 1, 0x8000_0000_0000_0000) {
            Some(n) => Some((-(n as i128)) as i64),
            None => None,
        }
    } else {
        match parse_unsigned(text, i64::MAX as u64) {
            Some(n) => Some(n as i64),
            None => None,
        }
    }
}

/// The lowercase character of a hexadecimal digit.
pub open spec fn hex_digit(d: int) -> char {
    if d < 10 {
        (48 + d) as char
    } else {
        (87 + d) as char
    }
}

/// Bytes in lowercase hexadecimal notation, two digits each.
pub open spec fn hex(bytes: Seq<u8>) -> Seq<char>
    decreases bytes.len(),
{
    if bytes.len() == 0 {
        Seq::empty()
    } else {
        hex(bytes.drop_last()).push(hex_digit(bytes.last() as int / 16)).push(
            hex_digit(bytes.last() as int % 16),
        )
    }
}

fn hex_char(d: u8) -> (c: char)
    requires
        d < 16,
    ensures
        c == hex_digit(d as int),
{
    if d < 10 {
        (48 + d) as char
    } else {
        (87 + d) as char
    }
}

/// Bytes in lowercase hexadecimal notation.
pub(crate) fn hex_text(bytes: &Vec<u8>) -> (text: String)
    ensures
        text@ == hex(bytes@),
{
    let mut text = String::new();
    let mut i: usize = 0;
    while i < bytes.len()
        invariant
            i <= bytes@.len(),
            text@ == hex(bytes@.take(i as int)),
        decreases bytes@.len() - i,
    {
        text.push(hex_char(bytes[i] / 16));
        text.push(hex_char(bytes[i] % 16));
        i = i + 1;
        assert(bytes@.take(i as int).drop_last() =~= bytes@.take(i - 1));
    }
    assert(bytes@.take(bytes@.len() as int) =~= bytes@);
    text
}

/// Every byte takes two digits.
pub proof fn hex_has_two_digits_a_byte(bytes: Seq<u8>)
    ensures
        hex(bytes).len() == 2 * bytes.len(),
    decreases bytes.len(),
{
    if bytes.len() > 0 {
        hex_has_two_digits_a_byte(bytes.drop_last());
    }
}

/// A hexadecimal digit in small letters.
pub open spec fn is_hex_char(c: char) -> bool {
    is_digit(c) || 'a' <= c <= 'f'
}

/// Hexadecimal notation consists of hexadecimal digits.
pub proof fn hex_is_hexadecimal(bytes: Seq<u8>)
    ensures
        forall|i: int| 0 <= i < hex(bytes).len() ==> is_hex_char(#[trigger] hex(bytes)[i]),
    decreases bytes.len(),
{
    if bytes.len() > 0 {
        hex_is_hexadecimal(bytes.drop_last());
        let shorter = hex(bytes.drop_last());
        assert forall|i: int| 0 <= i < hex(bytes).len() implies is_hex_char(
            #[trigger] hex(bytes)[i],
        ) by {
            if i < shorter.len() {
                assert(hex(bytes)[i] == shorter[i]);
            }
        }
    }
}

/// A text without a separator is its only part.
pub proof fn a_text_without_separator_is_one_part(text: Seq<char>, separator: char)
    requires
        !text.contains(separator),
    ensures
        parts(text, separator) == seq![text],
{
    assert forall|j: int| 0 <= j < text.len() implies other_than(separator)(
        #[trigger] text[j],
    ) by {
        assert(text.contains(text[j]));
    }
    lemma_run_len(text, other_than(separator), text.len() as int);
}

/// A text that neither starts nor ends with white space is trimmed.
pub proof fn a_text_without_outer_white_is_trimmed(text: Seq<char>)
    requires
        text.len() > 0,
        !is_white(text[0]),
        !is_white(text.last()),
    ensures
        trimmed(text) == text,
{
    lemma_run_len(text, white(), 0);
    assert(text.skip(0) =~= text);
    lemma_tail_run_len(text, white(), 0);
    assert(text.take(text.len() as int) =~= text);
}

/// A text without white space is its only word.
pub proof fn a_text_without_white_is_one_word(text: Seq<char>)
    requires
        text.len() > 0,
        forall|i: int| 0 <= i < text.len() ==> !is_white(#[trigger] text[i]),
    ensures
        words(text) == seq![text],
{
    lemma_run_len(text, white(), 0);
    assert(text.skip(0) =~= text);
    lemma_run_len(text, non_white(), text.len() as int);
    assert(text.take(text.len() as int) =~= text);
    let rest = text.skip(text.len() as int);
    lemma_run_len(rest, white(), 0);
    assert(words(rest) =~= Seq::empty());
}

/// A natural number in decimal notation is read as that number.
pub proof fn numbers_are_read_as_they_are_written(n: nat, limit: nat)
    requires
        n <= limit,
    ensures
        decimal(n).len() > 0,
        all_digits(decimal(n)),
        digits_value(decimal(n)) == n,
        unsigned_value(decimal(n), limit) == Some(n),
    decreases n,
{
    if n < 10 {
        assert(decimal(n).drop_last() =~= Seq::empty());
        assert(digits_value(decimal(n).drop_last()) == 0);
        assert(decimal(n).last() == digit(n as int));
    } else {
        numbers_are_read_as_they_are_written(n / 10, limit);
        let shorter = decimal(n / 10);
        assert(decimal(n).drop_last() =~= shorter);
        assert forall|i: int| 0 <= i < decimal(n).len() implies is_digit(
            #[trigger] decimal(n)[i],
        ) by {
            if i < shorter.len() {
                assert(is_digit(shorter[i]));
            }
        }
    }
    assert(is_digit(decimal(n)[0]));
}

/// Whether a character occurs nowhere in a text.
pub open spec fn lacks(text: Seq<char>, c: char) -> bool {
    forall|i: int| 0 <= i < text.len() ==> #[trigger] text[i] != c
}

/// A character that occurs neither in the elements of a list nor in the separator does
/// not occur where they are joined.
pub proof fn joining_adds_no_character(list: Seq<Seq<char>>, separator: Seq<char>, c: char)
    requires
        lacks(separator, c),
        forall|i: int| 0 <= i < list.len() ==> lacks(#[trigger] list[i], c),
    ensures
        lacks(joined(list, separator), c),
    decreases list.len(),
{
    if list.len() > 1 {
        joining_adds_no_character(list.drop_last(), separator, c);
        assert(lacks(list.last(), c));
    }
}

/// A number in decimal notation has no plus sign.
pub proof fn numbers_have_no_plus_sign(n: int)
    ensures
        lacks(integer(n), '+'),
{
    reveal_strlit("-");
    let size = if n < 0 { (-n) as nat } else { n as nat };
    numbers_are_read_as_they_are_written(size, size);
    assert forall|i: int| 0 <= i < decimal(size).len() implies #[trigger] decimal(size)[i] != '+' by {
        assert(is_digit(decimal(size)[i]));
    }
}

} // verus!
