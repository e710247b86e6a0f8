//! Collections that remember what came before, for spotting repetitions.
use vstd::hash_set::*;
use vstd::prelude::*;
use vstd::std_specs::hash::*;

verus! {

broadcast use vstd::std_specs::hash::group_hash_axioms;

/// Whether the element at an index occurs at an earlier one.
pub open spec fn repeats<T>(list: Seq<T>, i: int) -> bool {
    list.take(i).contains(list[i])
}

/// No element occurs twice.
pub open spec fn distinct<T>(list: Seq<T>) -> bool {
    forall|i: int, j: int| 0 <= i < j < list.len() ==> list[i] != list[j]
}

/// A list is without repetition exactly when no index repeats an earlier element.
pub proof fn distinct_means_no_repetition<T>(list: Seq<T>)
    ensures
        distinct(list) <==> (forall|i: int| 0 <= i < list.len() ==> !#[trigger] repeats(list, i)),
{
    if distinct(list) {
        assert forall|i: int| 0 <= i < list.len() implies !#[trigger] repeats(list, i) by {
            if repeats(list, i) {
                let j = choose|j: int| 0 <= j < i && list.take(i)[j] == list[i];
                assert(list[j] == list[i]);
            }
        }
    }
    if forall|i: int| 0 <= i < list.len() ==> !#[trigger] repeats(list, i) {
        assert forall|i: int, j: int| 0 <= i < j < list.len() implies list[i] != list[j] by {
            assert(!repeats(list, j));
            assert(list.take(j)[i] == list[i]);
        }
    }
}

/// Appending keeps a list without repetition exactly when the element is new.
pub proof fn distinct_after_push<T>(list: Seq<T>, element: T)
    ensures
        distinct(list.push(element)) <==> distinct(list) && !list.contains(element),
{
    let longer = list.push(element);
    if distinct(longer) {
        assert forall|i: int, j: int| 0 <= i < j < list.len() implies list[i] != list[j] by {
            assert(longer[i] == list[i] && longer[j] == list[j]);
        }
        if list.contains(element) {
            let i = choose|i: int| 0 <= i < list.len() && list[i] == element;
            assert(longer[i] == longer[list.len() as int]);
        }
    }
}

/// The texts noted so far.
pub(crate) struct SeenTexts {
    set: StringHashSet,
    order: Ghost<Seq<Seq<char>>>,
}

impl SeenTexts {
    pub closed spec fn wf(self) -> bool {
        forall|k: Seq<char>| #![auto] self.set@.contains(k) == self.order@.contains(k)
    }

    /// The texts in the order in which they were noted.
    pub closed spec fn noted(self) -> Seq<Seq<char>> {
        self.order@
    }

    pub(crate) fn new() -> (seen: Self)
        ensures
            seen.wf(),
            seen.noted() == Seq::<Seq<char>>::empty(),
    {
        SeenTexts { set: StringHashSet::new(), order: Ghost(Seq::empty()) }
    }

    /// Notes a text and tells whether it had been noted before.
    pub(crate) fn note(&mut self, text: &str) -> (before: bool)
        requires
            old(self).wf(),
        ensures
            final(self).wf(),
            before == old(self).noted().contains(text@),
            final(self).noted() == old(self).noted().push(text@),
    {
        let ghost earlier = self.order@;
        let fresh = self.set.insert(text.to_owned());
        self.order = Ghost(self.order@.push(text@));
        proof {
            assert forall|k: Seq<char>| #![auto]
                self.set@.contains(k) == self.order@.contains(k) by {
                if earlier.contains(k) {
                    let i = choose|i: int| 0 <= i < earlier.len() && earlier[i] == k;
                    assert(self.order@[i] == k);
                }
                if k == text@ {
                    assert(self.order@[earlier.len() as int] == k);
                }
            }
        }
        !fresh
    }
}

/// The numbers noted so far.
pub(crate) struct SeenNumbers {
    set: HashSetWithView<i64>,
    order: Ghost<Seq<i64>>,
}

impl SeenNumbers {
    pub closed spec fn wf(self) -> bool {
        forall|k: i64| #![auto] self.set@.contains(k) == self.order@.contains(k)
    }

    /// The numbers in the order in which they were noted.
    pub closed spec fn noted(self) -> Seq<i64> {
        self.order@
    }

    pub(crate) fn new() -> (seen: Self)
        ensures
            seen.wf(),
            seen.noted() == Seq::<i64>::empty(),
    {
        SeenNumbers { set: HashSetWithView::new(), order: Ghost(Seq::empty()) }
    }

    /// Notes a number and tells whether it had been noted before.
    pub(crate) fn note(&mut self, number: i64) -> (before: bool)
        requires
            old(self).wf(),
        ensures
            final(self).wf(),
            before == old(self).noted().contains(number),
            final(self).noted() == old(self).noted().push(number),
    {
        let ghost earlier = self.order@;
        let fresh = self.set.insert(number);
        self.order = Ghost(self.order@.push(number));
        proof {
            assert forall|k: i64| #![auto]
                self.set@.contains(k) == self.order@.contains(k) by {
                if earlier.contains(k) {
                    let i = choose|i: int| 0 <= i < earlier.len() && earlier[i] == k;
                    assert(self.order@[i] == k);
                }
                if k == number {
                    assert(self.order@[earlier.len() as int] == k);
                }
            }
        }
        !fresh
    }
}

} // verus!
