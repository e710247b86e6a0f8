//! The order in which the entries of a directory are read.
use vstd::prelude::*;

verus! {

/// The order of a dictionary, by the bytes of the names.
pub open spec fn name_before(left: Seq<u8>, right: Seq<u8>) -> bool
    decreases left.len(),
{
    if right.len() == 0 {
        false
    } else if left.len() == 0 {
        true
    } else if left[0] != right[0] {
        left[0] < right[0]
    } else {
        name_before(left.skip(1), right.skip(1))
    }
}

/// Of two different names exactly one comes first.
pub proof fn one_name_comes_first(left: Seq<u8>, right: Seq<u8>)
    ensures
        left == right ==> !name_before(left, right),
        left != right ==> name_before(left, right) != name_before(right, left),
    decreases left.len(),
{
    if left.len() > 0 && right.len() > 0 && left[0] == right[0] {
        one_name_comes_first(left.skip(1), right.skip(1));
        if left.skip(1) == right.skip(1) {
            assert(left =~= seq![left[0]] + left.skip(1));
            assert(right =~= seq![right[0]] + right.skip(1));
        }
    } else if left.len() == 0 && right.len() == 0 {
        assert(left =~= right);
    }
}

/// A name that comes before one that comes before another comes before that other.
pub proof fn names_are_ordered_transitively(a: Seq<u8>, b: Seq<u8>, c: Seq<u8>)
    requires
        name_before(a, b),
        name_before(b, c),
    ensures
        name_before(a, c),
    decreases a.len(),
{
    if a.len() > 0 && a[0] == b[0] && b[0] == c[0] {
        names_are_ordered_transitively(a.skip(1), b.skip(1), c.skip(1));
    }
}

fn comes_before(left: &Vec<u8>, right: &Vec<u8>) -> (answer: bool)
    ensures
        answer == name_before(left@, right@),
{
    let mut i: usize = 0;
    assert(left@.skip(0) =~= left@);
    assert(right@.skip(0) =~= right@);
    while i < left.len() && i < right.len()
        invariant
            i <= left@.len(),
            i <= right@.len(),
            name_before(left@, right@) == name_before(
                left@.skip(i as int),
                right@.skip(i as int),
            ),
        decreases left@.len() - i,
    {
        assert(left@.skip(i as int).skip(1) =~= left@.skip(i + 1));
        assert(right@.skip(i as int).skip(1) =~= right@.skip(i + 1));
        if left[i] != right[i] {
            return left[i] < right[i];
        }
        i = i + 1;
    }
    i < right.len()
}

/// Whether the entry at one place is read before the entry at another: by its name, and
/// by its place where the names are equal.
pub open spec fn read_before(names: Seq<Vec<u8>>, a: int, b: int) -> bool {
    name_before(names[a]@, names[b]@) || (names[a]@ == names[b]@ && a < b)
}

/// Whether a list holds the places of all entries once, in the order in which they are
/// read.
pub open spec fn is_reading_order(names: Seq<Vec<u8>>, order: Seq<usize>) -> bool {
    &&& order.len() == names.len()
    &&& forall|i: int| 0 <= i < order.len() ==> (#[trigger] order[i]) < names.len()
    &&& forall|i: int, j: int|
        0 <= i < j < order.len() ==> read_before(
            names,
            #[trigger] order[i] as int,
            #[trigger] order[j] as int,
        )
    &&& forall|place: usize| place < names.len() ==> #[trigger] order.contains(place)
}

proof fn lemma_read_before(names: Seq<Vec<u8>>, a: int, b: int, c: int)
    requires
        read_before(names, a, b),
        read_before(names, b, c),
    ensures
        read_before(names, a, c),
{
    if name_before(names[a]@, names[b]@) && name_before(names[b]@, names[c]@) {
        names_are_ordered_transitively(names[a]@, names[b]@, names[c]@);
    }
}

/// Where an entry stands among entries that were placed before it.
fn place_among(names: &Vec<Vec<u8>>, order: &Vec<usize>, entry: usize) -> (at: usize)
    requires
        entry < names@.len(),
        forall|i: int| 0 <= i < order@.len() ==> (#[trigger] order@[i]) < entry,
        forall|i: int, j: int|
            0 <= i < j < order@.len() ==> read_before(
                names@,
                #[trigger] order@[i] as int,
                #[trigger] order@[j] as int,
            ),
    ensures
        at <= order@.len(),
        forall|i: int|
            0 <= i < at ==> read_before(names@, #[trigger] order@[i] as int, entry as int),
        forall|i: int|
            at <= i < order@.len() ==> read_before(
                names@,
                entry as int,
                #[trigger] order@[i] as int,
            ),
{
    let mut at: usize = order.len();
    while at > 0 && comes_before(&names[entry], &names[order[at - 1]])
        invariant
            at <= order@.len(),
            entry < names@.len(),
            forall|i: int| 0 <= i < order@.len() ==> (#[trigger] order@[i]) < entry,
            forall|i: int|
                at <= i < order@.len() ==> read_before(
                    names@,
                    entry as int,
                    #[trigger] order@[i] as int,
                ),
        decreases at,
    {
        at = at - 1;
    }
    proof {
        if at > 0 {
            let last = order@[at - 1] as int;
            one_name_comes_first(names@[last]@, names@[entry as int]@);
            assert(read_before(names@, last, entry as int));
            assert forall|i: int| 0 <= i < at implies read_before(
                names@,
                #[trigger] order@[i] as int,
                entry as int,
            ) by {
                if i < at - 1 {
                    lemma_read_before(names@, order@[i] as int, last, entry as int);
                }
            }
        }
    }
    at
}

/// The places of the entries of a directory in the order in which they are read, given
/// the bytes of their names.
pub fn reading_order(names: &Vec<Vec<u8>>) -> (order: Vec<usize>)
    ensures
        is_reading_order(names@, order@),
{
    let mut order: Vec<usize> = Vec::new();
    let mut entry: usize = 0;
    while entry < names.len()
        invariant
            entry <= names@.len(),
            order@.len() == entry,
            forall|i: int| 0 <= i < order@.len() ==> (#[trigger] order@[i]) < entry,
            forall|i: int, j: int|
                0 <= i < j < order@.len() ==> read_before(
                    names@,
                    #[trigger] order@[i] as int,
                    #[trigger] order@[j] as int,
                ),
            forall|place: usize| place < entry ==> #[trigger] order@.contains(place),
        decreases names@.len() - entry,
    {
        let at = place_among(names, &order, entry);
        let ghost former = order@;
        order.insert(at, entry);
        proof {
            assert(order@ == former.insert(at as int, entry));
            assert forall|place: usize| place <= entry implies #[trigger] order@.contains(place) by {
                if place == entry {
                    assert(order@[at as int] == place);
                } else {
                    assert(former.contains(place));
                    let i = choose|i: int| 0 <= i < former.len() && former[i] == place;
                    assert(order@[if i < at { i } else { i + 1 }] == place);
                }
            }
        }
        entry = entry + 1;
    }
    order
}

/// There is only one order in which entries can be read.
pub proof fn the_reading_order_is_unique(
    names: Seq<Vec<u8>>,
    left: Seq<usize>,
    right: Seq<usize>,
    n: int,
)
    requires
        is_reading_order(names, left),
        is_reading_order(names, right),
        0 <= n <= names.len(),
    ensures
        left.take(n) == right.take(n),
    decreases n,
{
    if n > 0 {
        the_reading_order_is_unique(names, left, right, n - 1);
        let a = left[n - 1];
        let b = right[n - 1];
        if a != b {
            lemma_not_earlier(names, left, right, n - 1);
            lemma_not_earlier(names, right, left, n - 1);
            one_name_comes_first(names[a as int]@, names[b as int]@);
        }
        assert(left.take(n) =~= left.take(n - 1).push(a));
        assert(right.take(n) =~= right.take(n - 1).push(b));
    }
}

/// Two orders that agree up to a place: what one has there comes no later than what the
/// other has there.
proof fn lemma_not_earlier(names: Seq<Vec<u8>>, left: Seq<usize>, right: Seq<usize>, n: int)
    requires
        is_reading_order(names, left),
        is_reading_order(names, right),
        0 <= n < names.len(),
        left.take(n) == right.take(n),
        left[n] != right[n],
    ensures
        read_before(names, left[n] as int, right[n] as int),
{
    assert(left.contains(right[n]));
    let i = choose|i: int| 0 <= i < left.len() && left[i] == right[n];
    if i < n {
        assert(left.take(n)[i] == left[i] && right.take(n)[i] == right[i]);
        assert(right[i] == right[n]);
        assert(read_before(names, right[i] as int, right[n] as int));
        one_name_comes_first(names[right[n] as int]@, names[right[n] as int]@);
    } else {
        assert(read_before(names, left[n] as int, left[i] as int));
    }
}

} // verus!
