//! Lists of keys and values, seen as maps.
use crate::seen;
use vstd::prelude::*;

verus! {

/// The keys of a list of pairs.
pub open spec fn keys<K, V>(pairs: Seq<(K, V)>) -> Seq<K> {
    Seq::new(pairs.len(), |i: int| pairs[i].0)
}

/// The map that a list of pairs describes; a later pair counts where a key comes twice.
pub open spec fn map_of<K, V>(pairs: Seq<(K, V)>) -> Map<K, V>
    decreases pairs.len(),
{
    if pairs.len() == 0 {
        Map::empty()
    } else {
        map_of(pairs.drop_last()).insert(pairs.last().0, pairs.last().1)
    }
}

/// A list without a repeated key describes a map of the same size with the same pairs.
pub proof fn pairs_are_the_map<K, V>(pairs: Seq<(K, V)>)
    requires
        seen::distinct(keys(pairs)),
    ensures
        map_of(pairs).dom().finite(),
        map_of(pairs).len() == pairs.len(),
        forall|i: int|
            0 <= i < pairs.len() ==> #[trigger] map_of(pairs).contains_pair(
                pairs[i].0,
                pairs[i].1,
            ),
        forall|key: K| #[trigger]
            map_of(pairs).contains_key(key) ==> keys(pairs).contains(key),
    decreases pairs.len(),
{
    if pairs.len() > 0 {
        let shorter = pairs.drop_last();
        assert(keys(shorter) =~= keys(pairs).drop_last());
        pairs_are_the_map(shorter);
        let last = pairs.last();
        let map = map_of(shorter);
        assert(!map.contains_key(last.0)) by {
            if map.contains_key(last.0) {
                let i = choose|i: int| 0 <= i < shorter.len() && keys(shorter)[i] == last.0;
                assert(keys(pairs)[i] == keys(pairs)[pairs.len() - 1]);
            }
        }
        assert forall|i: int| 0 <= i < pairs.len() implies #[trigger] map_of(pairs).contains_pair(
            pairs[i].0,
            pairs[i].1,
        ) by {
            if i < shorter.len() {
                assert(shorter[i] == pairs[i]);
                assert(map.contains_pair(shorter[i].0, shorter[i].1));
                assert(keys(pairs)[i] != keys(pairs)[pairs.len() - 1]);
            }
        }
        assert forall|key: K| #[trigger] map_of(pairs).contains_key(key) implies keys(
            pairs,
        ).contains(key) by {
            if key == last.0 {
                assert(keys(pairs)[pairs.len() - 1] == key);
            } else {
                assert(map.contains_key(key));
                let i = choose|i: int| 0 <= i < shorter.len() && keys(shorter)[i] == key;
                assert(keys(pairs)[i] == key);
            }
        }
    }
}

/// Replacing the value of a key in a list replaces it in the map.
pub proof fn replacing_is_inserting<K, V>(pairs: Seq<(K, V)>, at: int, value: V)
    requires
        0 <= at < pairs.len(),
        seen::distinct(keys(pairs)),
    ensures
        keys(pairs.update(at, (pairs[at].0, value))) == keys(pairs),
        map_of(pairs.update(at, (pairs[at].0, value))) == map_of(pairs).insert(pairs[at].0, value),
    decreases pairs.len(),
{
    let changed = pairs.update(at, (pairs[at].0, value));
    assert(keys(changed) =~= keys(pairs));
    if at == pairs.len() - 1 {
        assert(changed.drop_last() =~= pairs.drop_last());
        assert(map_of(changed) =~= map_of(pairs).insert(pairs[at].0, value));
    } else {
        let shorter = pairs.drop_last();
        assert(keys(shorter) =~= keys(pairs).drop_last());
        replacing_is_inserting(shorter, at, value);
        assert(changed.drop_last() =~= shorter.update(at, (shorter[at].0, value)));
        assert(keys(pairs)[at] != keys(pairs)[pairs.len() - 1]);
        assert(map_of(changed) =~= map_of(pairs).insert(pairs[at].0, value));
    }
}

/// Adding a pair with a new key to a list inserts it into the map, and the keys stay
/// without repetition.
pub proof fn adding_is_inserting<K, V>(pairs: Seq<(K, V)>, key: K, value: V)
    requires
        seen::distinct(keys(pairs)),
        !keys(pairs).contains(key),
    ensures
        seen::distinct(keys(pairs.push((key, value)))),
        map_of(pairs.push((key, value))) == map_of(pairs).insert(key, value),
{
    let longer = pairs.push((key, value));
    assert(longer.drop_last() =~= pairs);
    assert(keys(longer) =~= keys(pairs).push(key));
    seen::distinct_after_push(keys(pairs), key);
}

} // verus!
