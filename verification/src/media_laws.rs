//! What every release of pictures keeps true of the catalogue.
use crate::media;
use crate::media_catalog;
use crate::media_catalog::{AssetRow, CatalogError, State, VersionRow, VersionStatus};
use crate::text;
use vstd::prelude::*;

verus! {

/// Whether two rows record the same version; only its state may differ.
pub open spec fn same_record(a: VersionRow, b: VersionRow) -> bool {
    a == VersionRow { status: a.status, published_at: a.published_at, ..b }
}

/// Whether all versions of one list are still recorded in another.
pub open spec fn history_kept(before: Seq<VersionRow>, after: Seq<VersionRow>) -> bool {
    &&& before.len() <= after.len()
    &&& forall|k: int| 0 <= k < before.len() ==> same_record(#[trigger] after[k], before[k])
}

proof fn lemma_history_transitive(a: Seq<VersionRow>, b: Seq<VersionRow>, c: Seq<VersionRow>)
    requires
        history_kept(a, b),
        history_kept(b, c),
    ensures
        history_kept(a, c),
{
    assert forall|k: int| 0 <= k < a.len() implies same_record(#[trigger] c[k], a[k]) by {
        assert(same_record(b[k], a[k]));
    }
}

proof fn lemma_one_publication_keeps_history(state: State, asset: media::Asset, now: i64)
    ensures
        media_catalog::after_publishing(state, asset, now) matches Ok(after) ==> history_kept(
            state.versions,
            after.versions,
        ),
{
}

proof fn lemma_publications_keep_history(state: State, list: Seq<media::Asset>, now: i64)
    ensures
        media_catalog::after_publishing_all(state, list, now) matches Ok(after) ==> history_kept(
            state.versions,
            after.versions,
        ),
    decreases list.len(),
{
    if list.len() > 0 {
        lemma_publications_keep_history(state, list.drop_last(), now);
        if let Ok(middle) = media_catalog::after_publishing_all(state, list.drop_last(), now) {
            lemma_one_publication_keeps_history(middle, list.last(), now);
            if let Ok(after) = media_catalog::after_publishing(middle, list.last(), now) {
                lemma_history_transitive(state.versions, middle.versions, after.versions);
            }
        }
    }
}

proof fn lemma_removals_keep_history(
    versions: Seq<VersionRow>,
    assets: Seq<AssetRow>,
    list: Seq<media::Asset>,
)
    ensures
        media_catalog::without_missing(versions, assets, list).len() == versions.len(),
        history_kept(versions, media_catalog::without_missing(versions, assets, list)),
    decreases assets.len(),
{
    if assets.len() > 0 {
        lemma_removals_keep_history(versions, assets.drop_last(), list);
    }
}

/// No release deletes a version or changes what it records: only its state and the
/// date of its first publication may change.
pub proof fn releases_keep_the_history(state: State, list: Seq<media::Asset>, now: i64)
    ensures
        media_catalog::after_release(state, list, now) matches Ok(after) ==> history_kept(
            state.versions,
            after.versions,
        ),
{
    lemma_publications_keep_history(state, list, now);
    if let Ok(middle) = media_catalog::after_publishing_all(state, list, now) {
        lemma_removals_keep_history(middle.versions, middle.assets, list);
        let after = media_catalog::after_removing(middle, list, now);
        lemma_history_transitive(state.versions, middle.versions, after.versions);
    }
}

/// Whether a version is the current one of a picture.
pub open spec fn is_current(state: State, i: int, k: int) -> bool {
    state.assets[i].current == Some(state.versions[k].id) && state.assets[i].id
        == state.versions[k].asset_id
}

/// Whether a picture has a current version that is published.
pub open spec fn has_current(state: State, i: int) -> bool {
    exists|k: int|
        0 <= k < state.versions.len() && #[trigger] is_current(state, i, k)
            && state.versions[k].status == VersionStatus::Published
}

/// Whether a version is the current one of some picture.
pub open spec fn has_owner(state: State, k: int) -> bool {
    exists|i: int| 0 <= i < state.assets.len() && #[trigger] is_current(state, i, k)
}

/// Whether a version belongs to some picture.
pub open spec fn belongs(state: State, k: int) -> bool {
    exists|i: int|
        0 <= i < state.assets.len() && (#[trigger] state.assets[i]).id
            == state.versions[k].asset_id
}

/// Whether a catalogue is sound: identifiers and keys are unique, every version belongs
/// to a picture, and the published versions are exactly the current ones.
pub open spec fn is_sound(state: State) -> bool {
    &&& forall|i: int, j: int|
        0 <= i < j < state.assets.len() ==> (#[trigger] state.assets[i]).id != (
        #[trigger] state.assets[j]).id
    &&& forall|i: int, j: int|
        0 <= i < j < state.assets.len() ==> (#[trigger] state.assets[i]).asset_key != (
        #[trigger] state.assets[j]).asset_key
    &&& forall|k: int, l: int|
        0 <= k < l < state.versions.len() ==> (#[trigger] state.versions[k]).id != (
        #[trigger] state.versions[l]).id
    &&& forall|k: int| 0 <= k < state.versions.len() ==> (#[trigger] state.versions[k]).size >= 0
    &&& forall|k: int| 0 <= k < state.versions.len() ==> #[trigger] belongs(state, k)
    &&& forall|i: int|
        0 <= i < state.assets.len() && (#[trigger] state.assets[i]).current is Some ==> has_current(
            state,
            i,
        )
    &&& forall|k: int|
        0 <= k < state.versions.len() && (#[trigger] state.versions[k]).status
            == VersionStatus::Published ==> has_owner(state, k)
}

/// Whether the versions of the pictures of a list that have the digest of the picture
/// also describe it.
pub open spec fn records_agree(state: State, list: Seq<media::Asset>) -> bool {
    forall|i: int, k: int, j: int|
        0 <= i < state.assets.len() && 0 <= k < state.versions.len() && 0 <= j < list.len()
            && #[trigger] state.assets[i].asset_key == (#[trigger] list[j]).asset_key
            && state.assets[i].id == (#[trigger] state.versions[k]).asset_id
            && state.versions[k].sha256 == list[j].sha256 ==> media_catalog::describes(
            state.versions[k],
            list[j],
        )
}

/// Whether identifiers and numbers are small enough for some more versions.
pub open spec fn has_room(state: State, more: nat) -> bool {
    &&& media_catalog::largest_asset_id(state.assets) + more < i64::MAX
    &&& media_catalog::largest_version_id(state.versions) + more < i64::MAX
    &&& forall|k: int|
        0 <= k < state.versions.len() ==> (#[trigger] state.versions[k]).number + more < i64::MAX
    &&& more < i64::MAX
}

/// Whether the current version of a picture describes it.
pub open spec fn is_settled(state: State, asset: media::Asset) -> bool {
    exists|i: int, k: int|
        0 <= i < state.assets.len() && 0 <= k < state.versions.len() && #[trigger] is_current(
            state,
            i,
            k,
        ) && state.assets[i].asset_key == asset.asset_key && state.versions[k].status
            == VersionStatus::Published && media_catalog::describes(state.versions[k], asset)
}

proof fn lemma_largest_asset_id(assets: Seq<AssetRow>)
    ensures
        media_catalog::largest_asset_id(assets) >= 0,
        forall|i: int|
            0 <= i < assets.len() ==> (#[trigger] assets[i]).id <= media_catalog::largest_asset_id(
                assets,
            ),
    decreases assets.len(),
{
    if assets.len() > 0 {
        lemma_largest_asset_id(assets.drop_last());
        assert forall|i: int| 0 <= i < assets.len() implies (#[trigger] assets[i]).id
            <= media_catalog::largest_asset_id(assets) by {
            if i < assets.len() - 1 {
                assert(assets.drop_last()[i] == assets[i]);
            }
        }
    }
}

proof fn lemma_largest_version_id(versions: Seq<VersionRow>)
    ensures
        media_catalog::largest_version_id(versions) >= 0,
        forall|k: int|
            0 <= k < versions.len() ==> (#[trigger] versions[k]).id
                <= media_catalog::largest_version_id(versions),
    decreases versions.len(),
{
    if versions.len() > 0 {
        lemma_largest_version_id(versions.drop_last());
        assert forall|k: int| 0 <= k < versions.len() implies (#[trigger] versions[k]).id
            <= media_catalog::largest_version_id(versions) by {
            if k < versions.len() - 1 {
                assert(versions.drop_last()[k] == versions[k]);
            }
        }
    }
}

/// The largest identifier is that of some version, or zero.
proof fn lemma_largest_version_id_bound(versions: Seq<VersionRow>, bound: int)
    requires
        bound >= 0,
        forall|k: int| 0 <= k < versions.len() ==> (#[trigger] versions[k]).id <= bound,
    ensures
        media_catalog::largest_version_id(versions) <= bound,
    decreases versions.len(),
{
    if versions.len() > 0 {
        assert forall|k: int| 0 <= k < versions.len() - 1 implies (
        #[trigger] versions.drop_last()[k]).id <= bound by {
            assert(versions.drop_last()[k] == versions[k]);
        }
        assert(versions[versions.len() - 1].id <= bound);
        lemma_largest_version_id_bound(versions.drop_last(), bound);
    }
}

proof fn lemma_largest_asset_id_bound(assets: Seq<AssetRow>, bound: int)
    requires
        bound >= 0,
        forall|i: int| 0 <= i < assets.len() ==> (#[trigger] assets[i]).id <= bound,
    ensures
        media_catalog::largest_asset_id(assets) <= bound,
    decreases assets.len(),
{
    if assets.len() > 0 {
        assert forall|i: int| 0 <= i < assets.len() - 1 implies (#[trigger] assets.drop_last()[i]).id
            <= bound by {
            assert(assets.drop_last()[i] == assets[i]);
        }
        assert(assets[assets.len() - 1].id <= bound);
        lemma_largest_asset_id_bound(assets.drop_last(), bound);
    }
}

proof fn lemma_largest_number_bound(versions: Seq<VersionRow>, asset_id: i64, bound: int)
    requires
        bound >= 0,
        forall|k: int| 0 <= k < versions.len() ==> (#[trigger] versions[k]).number <= bound,
    ensures
        0 <= media_catalog::largest_number(versions, asset_id) <= bound,
    decreases versions.len(),
{
    if versions.len() > 0 {
        assert forall|k: int| 0 <= k < versions.len() - 1 implies (
        #[trigger] versions.drop_last()[k]).number <= bound by {
            assert(versions.drop_last()[k] == versions[k]);
        }
        assert(versions[versions.len() - 1].number <= bound);
        lemma_largest_number_bound(versions.drop_last(), asset_id, bound);
    }
}

proof fn lemma_find_version(versions: Seq<VersionRow>, id: i64, asset_id: i64)
    ensures
        match media_catalog::find_version(versions, id, asset_id) {
            Some(version) => exists|k: int|
                0 <= k < versions.len() && #[trigger] versions[k] == version && version.id == id
                    && version.asset_id == asset_id,
            None => forall|k: int|
                0 <= k < versions.len() ==> !((#[trigger] versions[k]).id == id
                    && versions[k].asset_id == asset_id),
        },
    decreases versions.len(),
{
    if versions.len() > 0 {
        let shorter = versions.drop_last();
        lemma_find_version(shorter, id, asset_id);
        match media_catalog::find_version(shorter, id, asset_id) {
            Some(version) => {
                let k = choose|k: int|
                    0 <= k < shorter.len() && #[trigger] shorter[k] == version && version.id == id
                        && version.asset_id == asset_id;
                assert(versions[k] == version);
            },
            None => {
                if versions.last().id == id && versions.last().asset_id == asset_id {
                    assert(versions[versions.len() - 1] == versions.last());
                } else {
                    assert forall|k: int| 0 <= k < versions.len() implies !((
                    #[trigger] versions[k]).id == id && versions[k].asset_id == asset_id) by {
                        if k < versions.len() - 1 {
                            assert(shorter[k] == versions[k]);
                        }
                    }
                }
            },
        }
    }
}

/// In a sound catalogue the version that is found is the only one with its identifier.
proof fn lemma_found_version(state: State, k: int, asset_id: i64)
    requires
        is_sound(state),
        0 <= k < state.versions.len(),
        state.versions[k].asset_id == asset_id,
    ensures
        media_catalog::find_version(state.versions, state.versions[k].id, asset_id) == Some(
            state.versions[k],
        ),
{
    let id = state.versions[k].id;
    lemma_find_version(state.versions, id, asset_id);
    if let Some(version) = media_catalog::find_version(state.versions, id, asset_id) {
        let l = choose|l: int|
            0 <= l < state.versions.len() && #[trigger] state.versions[l] == version && version.id
                == id && version.asset_id == asset_id;
        if l < k {
            assert(state.versions[l].id != state.versions[k].id);
        } else if k < l {
            assert(state.versions[k].id != state.versions[l].id);
        }
    }
}

/// How a catalogue changes when a picture is published at a place.
spec fn publication(before: State, after: State, asset: media::Asset, at: int, kept: bool) -> bool {
    let fresh = at == before.assets.len();
    let row = after.assets[at];
    &&& 0 <= at < after.assets.len()
    &&& after.assets.len() == before.assets.len() + (if fresh {
        1int
    } else {
        0int
    })
    &&& forall|i: int|
        0 <= i < before.assets.len() && i != at ==> #[trigger] after.assets[i] == before.assets[i]
    &&& row.asset_key == asset.asset_key
    &&& fresh ==> (forall|i: int|
        0 <= i < before.assets.len() ==> (#[trigger] before.assets[i]).id < row.id
            && before.assets[i].asset_key != asset.asset_key)
    &&& !fresh ==> row.id == before.assets[at].id && before.assets[at].asset_key == asset.asset_key
    &&& if kept {
        &&& !fresh
        &&& row.current == before.assets[at].current
        &&& after.versions.len() == before.versions.len()
        &&& forall|k: int|
            0 <= k < before.versions.len() ==> same_record(
                #[trigger] after.versions[k],
                before.versions[k],
            ) && after.versions[k].status == before.versions[k].status
        &&& exists|k: int|
            0 <= k < before.versions.len() && #[trigger] is_current(before, at, k)
                && before.versions[k].sha256 == asset.sha256 && before.versions[k].status
                == VersionStatus::Published
    } else {
        let version = after.versions[before.versions.len() as int];
        &&& after.versions.len() == before.versions.len() + 1
        &&& row.current == Some(version.id)
        &&& version.asset_id == row.id
        &&& version.status == VersionStatus::Published
        &&& version.size >= 0
        &&& media_catalog::describes(version, asset)
        &&& forall|k: int|
            0 <= k < before.versions.len() ==> (#[trigger] before.versions[k]).id < version.id
        &&& forall|k: int|
            0 <= k < before.versions.len() ==> same_record(
                #[trigger] after.versions[k],
                before.versions[k],
            ) && after.versions[k].status == (if !fresh && before.assets[at].current == Some(
                before.versions[k].id,
            ) && before.versions[k].status == VersionStatus::Published {
                VersionStatus::Disabled
            } else {
                before.versions[k].status
            })
    }
}

proof fn lemma_publication(before: State, asset: media::Asset, now: i64, more: nat) -> (done: (
    State,
    int,
    bool,
))
    requires
        is_sound(before),
        has_room(before, more + 1),
        asset.size <= i64::MAX,
    ensures
        media_catalog::after_publishing(before, asset, now) == Ok::<State, CatalogError>(done.0),
        publication(before, done.0, asset, done.1, done.2),
        has_room(done.0, more),
        is_settled(before, asset) ==> done.2,
        forall|i: int, k: int|
            0 <= i < before.assets.len() && 0 <= k < before.versions.len() && #[trigger] is_current(
                before,
                i,
                k,
            ) && before.assets[i].asset_key == asset.asset_key ==> i == done.1 && done.2 == (
            before.versions[k].sha256 == asset.sha256),
{
    let key = asset.asset_key;
    media_catalog::position_facts(before.assets, key);
    lemma_largest_asset_id(before.assets);
    lemma_largest_version_id(before.versions);
    let at = media_catalog::asset_position(before.assets, key) as int;
    let fresh = at == before.assets.len();
    let assets = media_catalog::with_asset(before.assets, key, now)->Ok_0;
    if fresh {
        assert(assets.drop_last() =~= before.assets);
    }
    assert(media_catalog::asset_position(assets, key) == at);
    let row = assets[at];
    lemma_largest_number_bound(before.versions, row.id, i64::MAX - more - 2);
    if let Some(current) = row.current {
        assert(!fresh);
        assert(has_current(before, at));
        let k = choose|k: int|
            0 <= k < before.versions.len() && #[trigger] is_current(before, at, k)
                && before.versions[k].status == VersionStatus::Published;
        lemma_found_version(before, k, row.id);
    }
    let after = media_catalog::after_publishing(before, asset, now)->Ok_0;
    let kept = row.current is Some && media_catalog::find_version(
        before.versions,
        row.current->0,
        row.id,
    )->0.sha256 == asset.sha256;
    assert(publication(before, after, asset, at, kept)) by {
        if kept {
            let k = choose|k: int|
                0 <= k < before.versions.len() && #[trigger] is_current(before, at, k)
                    && before.versions[k].status == VersionStatus::Published;
            lemma_found_version(before, k, row.id);
            assert(is_current(before, at, k) && before.versions[k].sha256 == asset.sha256);
            assert forall|l: int| 0 <= l < before.versions.len() implies same_record(
                #[trigger] after.versions[l],
                before.versions[l],
            ) && after.versions[l].status == before.versions[l].status by {
                if before.versions[l].id == before.versions[k].id {
                    if l < k {
                        assert(before.versions[l].id != before.versions[k].id);
                    } else if k < l {
                        assert(before.versions[k].id != before.versions[l].id);
                    }
                }
            }
        }
    }
    assert forall|i: int, k: int|
        0 <= i < before.assets.len() && 0 <= k < before.versions.len() && #[trigger] is_current(
            before,
            i,
            k,
        ) && before.assets[i].asset_key == asset.asset_key implies i == at && kept == (
    before.versions[k].sha256 == asset.sha256) by {
        assert(!fresh);
        if i < at {
            assert(before.assets[i].asset_key != before.assets[at].asset_key);
        } else if at < i {
            assert(before.assets[at].asset_key != before.assets[i].asset_key);
        }
        lemma_found_version(before, k, row.id);
    }
    lemma_largest_asset_id(assets);
    if fresh {
        lemma_largest_asset_id_bound(
            after.assets,
            media_catalog::largest_asset_id(before.assets) + 1,
        );
    } else {
        assert forall|i: int| 0 <= i < after.assets.len() implies (#[trigger] after.assets[i]).id
            <= media_catalog::largest_asset_id(before.assets) by {
            if i != at {
                assert(after.assets[i] == before.assets[i]);
            }
        }
        lemma_largest_asset_id_bound(after.assets, media_catalog::largest_asset_id(before.assets));
    }
    assert forall|k: int| 0 <= k < after.versions.len() implies (#[trigger] after.versions[k]).id
        <= media_catalog::largest_version_id(before.versions) + 1 && after.versions[k].number + more
        < i64::MAX by {
        if k < before.versions.len() {
            assert(same_record(after.versions[k], before.versions[k]));
        }
    }
    lemma_largest_version_id_bound(
        after.versions,
        media_catalog::largest_version_id(before.versions) + 1,
    );
    (after, at, kept)
}

/// A version that is still recorded is still the current one of a picture whose row did
/// not change.
proof fn lemma_still_current(before: State, after: State, asset: media::Asset, at: int, kept: bool, i: int, k: int)
    requires
        publication(before, after, asset, at, kept),
        0 <= i < before.assets.len(),
        0 <= k < before.versions.len(),
        is_current(before, i, k),
        i != at || kept,
    ensures
        is_current(after, i, k),
{
    assert(same_record(after.versions[k], before.versions[k]));
    if i != at {
        assert(after.assets[i] == before.assets[i]);
    }
}

/// A current version belongs to one picture only.
proof fn lemma_one_owner(state: State, i: int, j: int, k: int)
    requires
        is_sound(state),
        0 <= i < state.assets.len(),
        0 <= j < state.assets.len(),
        0 <= k < state.versions.len(),
        is_current(state, i, k),
        state.assets[j].current == Some(state.versions[k].id),
    ensures
        i == j,
{
    assert(has_current(state, j));
    let l = choose|l: int|
        0 <= l < state.versions.len() && #[trigger] is_current(state, j, l)
            && state.versions[l].status == VersionStatus::Published;
    if l < k {
        assert(state.versions[l].id != state.versions[k].id);
    } else if k < l {
        assert(state.versions[k].id != state.versions[l].id);
    }
    if i < j {
        assert(state.assets[i].id != state.assets[j].id);
    } else if j < i {
        assert(state.assets[j].id != state.assets[i].id);
    }
}

/// The status of another picture's current version does not change.
proof fn lemma_others_stay_published(
    before: State,
    after: State,
    asset: media::Asset,
    at: int,
    kept: bool,
    i: int,
    k: int,
)
    requires
        is_sound(before),
        publication(before, after, asset, at, kept),
        0 <= i < before.assets.len(),
        0 <= k < before.versions.len(),
        is_current(before, i, k),
        i != at || kept,
        before.versions[k].status == VersionStatus::Published,
    ensures
        after.versions[k].status == VersionStatus::Published,
{
    if !kept && at < before.assets.len() && before.assets[at].current == Some(
        before.versions[k].id,
    ) {
        lemma_one_owner(before, i, at, k);
    }
}

proof fn lemma_publication_identifiers(
    before: State,
    after: State,
    asset: media::Asset,
    at: int,
    kept: bool,
)
    requires
        is_sound(before),
        publication(before, after, asset, at, kept),
    ensures
        forall|i: int, j: int|
            0 <= i < j < after.assets.len() ==> (#[trigger] after.assets[i]).id != (
            #[trigger] after.assets[j]).id,
        forall|i: int, j: int|
            0 <= i < j < after.assets.len() ==> (#[trigger] after.assets[i]).asset_key != (
            #[trigger] after.assets[j]).asset_key,
        forall|k: int, l: int|
            0 <= k < l < after.versions.len() ==> (#[trigger] after.versions[k]).id != (
            #[trigger] after.versions[l]).id,
        forall|k: int| 0 <= k < after.versions.len() ==> (#[trigger] after.versions[k]).size >= 0,
{
    assert forall|i: int, j: int| 0 <= i < j < after.assets.len() implies (
    #[trigger] after.assets[i]).id != (#[trigger] after.assets[j]).id && after.assets[i].asset_key
        != after.assets[j].asset_key by {
        if i != at {
            assert(after.assets[i] == before.assets[i]);
        }
        if j != at && j < before.assets.len() {
            assert(after.assets[j] == before.assets[j]);
        }
        if i < before.assets.len() && j < before.assets.len() {
            assert(before.assets[i].id != before.assets[j].id);
            assert(before.assets[i].asset_key != before.assets[j].asset_key);
        }
    }
    assert forall|k: int, l: int| 0 <= k < l < after.versions.len() implies (
    #[trigger] after.versions[k]).id != (#[trigger] after.versions[l]).id by {
        assert(same_record(after.versions[k], before.versions[k]));
        if l < before.versions.len() {
            assert(same_record(after.versions[l], before.versions[l]));
            assert(before.versions[k].id != before.versions[l].id);
        }
    }
    assert forall|k: int| 0 <= k < after.versions.len() implies (#[trigger] after.versions[k]).size
        >= 0 by {
        if k < before.versions.len() {
            assert(same_record(after.versions[k], before.versions[k]));
            assert(before.versions[k].size >= 0);
        }
    }
}

proof fn lemma_publication_is_sound(
    before: State,
    after: State,
    asset: media::Asset,
    at: int,
    kept: bool,
)
    requires
        is_sound(before),
        publication(before, after, asset, at, kept),
    ensures
        is_sound(after),
{
    lemma_publication_identifiers(before, after, asset, at, kept);
    let count = before.versions.len() as int;
    assert forall|k: int| 0 <= k < after.versions.len() implies #[trigger] belongs(after, k) by {
        if k < count {
            assert(same_record(after.versions[k], before.versions[k]));
            assert(belongs(before, k));
            let i = choose|i: int|
                0 <= i < before.assets.len() && (#[trigger] before.assets[i]).id
                    == before.versions[k].asset_id;
            if i != at {
                assert(after.assets[i] == before.assets[i]);
            }
            assert(after.assets[i].id == after.versions[k].asset_id);
        } else {
            assert(after.assets[at].id == after.versions[k].asset_id);
        }
    }
    assert forall|i: int|
        0 <= i < after.assets.len() && (
        #[trigger] after.assets[i]).current is Some implies has_current(after, i) by {
        if i == at && !kept {
            assert(is_current(after, i, count));
        } else {
            if i != at {
                assert(after.assets[i] == before.assets[i]);
            }
            assert(before.assets[i].current is Some);
            assert(has_current(before, i));
            let k = choose|k: int|
                0 <= k < count && #[trigger] is_current(before, i, k) && before.versions[k].status
                    == VersionStatus::Published;
            lemma_still_current(before, after, asset, at, kept, i, k);
            lemma_others_stay_published(before, after, asset, at, kept, i, k);
            assert(is_current(after, i, k));
        }
    }
    assert forall|k: int|
        0 <= k < after.versions.len() && (#[trigger] after.versions[k]).status
            == VersionStatus::Published implies has_owner(after, k) by {
        if k == count {
            assert(is_current(after, at, k));
        } else {
            assert(before.versions[k].status == VersionStatus::Published);
            assert(has_owner(before, k));
            let i = choose|i: int|
                0 <= i < before.assets.len() && #[trigger] is_current(before, i, k);
            assert(i != at || kept);
            lemma_still_current(before, after, asset, at, kept, i, k);
        }
    }
}

proof fn lemma_publication_agrees(
    before: State,
    after: State,
    list: Seq<media::Asset>,
    n: int,
    at: int,
    kept: bool,
)
    requires
        is_sound(before),
        records_agree(before, list),
        media::in_key_order(list),
        0 <= n < list.len(),
        publication(before, after, list[n], at, kept),
    ensures
        records_agree(after, list),
{
    let count = before.versions.len() as int;
    assert forall|i: int, k: int, j: int|
        0 <= i < after.assets.len() && 0 <= k < after.versions.len() && 0 <= j < list.len()
            && #[trigger] after.assets[i].asset_key == (#[trigger] list[j]).asset_key
            && after.assets[i].id == (#[trigger] after.versions[k]).asset_id
            && after.versions[k].sha256 == list[j].sha256 implies media_catalog::describes(
        after.versions[k],
        list[j],
    ) by {
        if k == count {
            lemma_publication_identifiers(before, after, list[n], at, kept);
            if i < at {
                assert(after.assets[i].id != after.assets[at].id);
            } else if at < i {
                assert(after.assets[at].id != after.assets[i].id);
            }
            text::one_text_comes_first(list[n].asset_key, list[n].asset_key);
            if j < n {
                assert(text::before(list[j].asset_key, list[n].asset_key));
            } else if n < j {
                assert(text::before(list[n].asset_key, list[j].asset_key));
            }
        } else {
            assert(same_record(after.versions[k], before.versions[k]));
            if i == before.assets.len() {
                assert(belongs(before, k));
                let o = choose|o: int|
                    0 <= o < before.assets.len() && (#[trigger] before.assets[o]).id
                        == before.versions[k].asset_id;
                assert(before.assets[o].id < after.assets[at].id);
            } else {
                if i != at {
                    assert(after.assets[i] == before.assets[i]);
                }
                assert(before.assets[i].asset_key == list[j].asset_key);
                assert(media_catalog::describes(before.versions[k], list[j]));
            }
        }
    }
}

proof fn lemma_publication_settles(
    before: State,
    after: State,
    list: Seq<media::Asset>,
    n: int,
    at: int,
    kept: bool,
)
    requires
        is_sound(before),
        records_agree(before, list),
        media::in_key_order(list),
        0 <= n < list.len(),
        publication(before, after, list[n], at, kept),
    ensures
        is_settled(after, list[n]),
        forall|j: int|
            0 <= j < list.len() && j != n && is_settled(before, #[trigger] list[j]) ==> is_settled(
                after,
                list[j],
            ),
{
    let count = before.versions.len() as int;
    if kept {
        let k = choose|k: int|
            0 <= k < count && #[trigger] is_current(before, at, k) && before.versions[k].sha256
                == list[n].sha256 && before.versions[k].status == VersionStatus::Published;
        assert(before.assets[at].asset_key == list[n].asset_key);
        assert(media_catalog::describes(before.versions[k], list[n]));
        assert(same_record(after.versions[k], before.versions[k]));
        lemma_still_current(before, after, list[n], at, kept, at, k);
        assert(is_current(after, at, k));
    } else {
        assert(is_current(after, at, count));
    }
    assert forall|j: int|
        0 <= j < list.len() && j != n && is_settled(
            before,
            #[trigger] list[j],
        ) implies is_settled(after, list[j]) by {
        let (i, k) = choose|i: int, k: int|
            0 <= i < before.assets.len() && 0 <= k < before.versions.len() && #[trigger] is_current(
                before,
                i,
                k,
            ) && before.assets[i].asset_key == list[j].asset_key && before.versions[k].status
                == VersionStatus::Published && media_catalog::describes(
                before.versions[k],
                list[j],
            );
        text::one_text_comes_first(list[n].asset_key, list[n].asset_key);
        if j < n {
            assert(text::before(list[j].asset_key, list[n].asset_key));
        } else {
            assert(text::before(list[n].asset_key, list[j].asset_key));
        }
        assert(i != at);
        lemma_still_current(before, after, list[n], at, kept, i, k);
        lemma_others_stay_published(before, after, list[n], at, kept, i, k);
        assert(same_record(after.versions[k], before.versions[k]));
        assert(after.assets[i] == before.assets[i]);
        assert(is_current(after, i, k));
    }
}

/// Every picture of a list can be published in a sound catalogue; the catalogue stays
/// sound, and each picture of the list is then described by its current version.
proof fn lemma_publications(before: State, list: Seq<media::Asset>, n: int, now: i64)
    requires
        is_sound(before),
        records_agree(before, list),
        has_room(before, list.len()),
        media::in_key_order(list),
        forall|j: int| 0 <= j < list.len() ==> (#[trigger] list[j]).size <= i64::MAX,
        0 <= n <= list.len(),
    ensures
        media_catalog::after_publishing_all(before, list.take(n), now) is Ok,
        ({
            let after = media_catalog::after_publishing_all(before, list.take(n), now)->Ok_0;
            &&& is_sound(after)
            &&& records_agree(after, list)
            &&& has_room(after, (list.len() - n) as nat)
            &&& forall|j: int| 0 <= j < n ==> is_settled(after, #[trigger] list[j])
        }),
    decreases n,
{
    if n > 0 {
        lemma_publications(before, list, n - 1, now);
        let middle = media_catalog::after_publishing_all(before, list.take(n - 1), now)->Ok_0;
        assert(list.take(n).drop_last() =~= list.take(n - 1));
        assert(list.take(n).last() == list[n - 1]);
        let (after, at, kept) = lemma_publication(
            middle,
            list[n - 1],
            now,
            (list.len() - n) as nat,
        );
        lemma_publication_is_sound(middle, after, list[n - 1], at, kept);
        lemma_publication_agrees(middle, after, list, n - 1, at, kept);
        lemma_publication_settles(middle, after, list, n - 1, at, kept);
    }
}

/// Whether the publication of a version ends because its picture is gone.
spec fn is_dropped(assets: Seq<AssetRow>, list: Seq<media::Asset>, id: i64) -> bool {
    exists|i: int|
        0 <= i < assets.len() && (#[trigger] assets[i]).current == Some(id) && !media::lists(
            list,
            assets[i].asset_key,
        )
}

proof fn lemma_dropped(
    versions: Seq<VersionRow>,
    assets: Seq<AssetRow>,
    list: Seq<media::Asset>,
    k: int,
)
    requires
        0 <= k < versions.len(),
    ensures
        media_catalog::without_missing(versions, assets, list).len() == versions.len(),
        same_record(media_catalog::without_missing(versions, assets, list)[k], versions[k]),
        media_catalog::without_missing(versions, assets, list)[k].status == (if is_dropped(
            assets,
            list,
            versions[k].id,
        ) && versions[k].status == VersionStatus::Published {
            VersionStatus::Disabled
        } else {
            versions[k].status
        }),
    decreases assets.len(),
{
    let id = versions[k].id;
    if assets.len() > 0 {
        let shorter = assets.drop_last();
        lemma_dropped(versions, shorter, list, k);
        if is_dropped(shorter, list, id) {
            let i = choose|i: int|
                0 <= i < shorter.len() && (#[trigger] shorter[i]).current == Some(id)
                    && !media::lists(list, shorter[i].asset_key);
            assert(assets[i] == shorter[i]);
            assert(is_dropped(assets, list, id));
        }
        if is_dropped(assets, list, id) {
            let i = choose|i: int|
                0 <= i < assets.len() && (#[trigger] assets[i]).current == Some(id)
                    && !media::lists(list, assets[i].asset_key);
            if i < shorter.len() {
                assert(shorter[i] == assets[i]);
                assert(is_dropped(shorter, list, id));
            }
        }
    }
}

/// What stays current after the removal of the pictures that are gone.
proof fn lemma_kept_current(before: State, list: Seq<media::Asset>, now: i64, i: int, k: int)
    requires
        is_sound(before),
        0 <= i < before.assets.len(),
        0 <= k < before.versions.len(),
        is_current(before, i, k),
        before.versions[k].status == VersionStatus::Published,
        media::lists(list, before.assets[i].asset_key),
    ensures
        ({
            let after = media_catalog::after_removing(before, list, now);
            &&& is_current(after, i, k)
            &&& after.versions[k].status == VersionStatus::Published
            &&& same_record(after.versions[k], before.versions[k])
            &&& after.assets[i] == before.assets[i]
        }),
{
    lemma_dropped(before.versions, before.assets, list, k);
    if is_dropped(before.assets, list, before.versions[k].id) {
        let j = choose|j: int|
            0 <= j < before.assets.len() && (#[trigger] before.assets[j]).current == Some(
                before.versions[k].id,
            ) && !media::lists(list, before.assets[j].asset_key);
        lemma_one_owner(before, i, j, k);
    }
}

proof fn lemma_removal_is_sound(before: State, list: Seq<media::Asset>, now: i64)
    requires
        is_sound(before),
    ensures
        is_sound(media_catalog::after_removing(before, list, now)),
{
    let after = media_catalog::after_removing(before, list, now);
    assert forall|k: int| 0 <= k < before.versions.len() implies same_record(
        #[trigger] after.versions[k],
        before.versions[k],
    ) by {
        lemma_dropped(before.versions, before.assets, list, k);
    }
    lemma_removals_keep_history(before.versions, before.assets, list);
    assert forall|k: int, l: int| 0 <= k < l < after.versions.len() implies (
    #[trigger] after.versions[k]).id != (#[trigger] after.versions[l]).id by {
        assert(same_record(after.versions[k], before.versions[k]));
        assert(same_record(after.versions[l], before.versions[l]));
        assert(before.versions[k].id != before.versions[l].id);
    }
    assert forall|i: int, j: int| 0 <= i < j < after.assets.len() implies (
    #[trigger] after.assets[i]).id != (#[trigger] after.assets[j]).id && after.assets[i].asset_key
        != after.assets[j].asset_key by {
        assert(before.assets[i].id != before.assets[j].id);
        assert(before.assets[i].asset_key != before.assets[j].asset_key);
    }
    assert forall|k: int| 0 <= k < after.versions.len() implies (#[trigger] after.versions[k]).size
        >= 0 by {
        assert(same_record(after.versions[k], before.versions[k]));
        assert(before.versions[k].size >= 0);
    }
    assert forall|k: int| 0 <= k < after.versions.len() implies #[trigger] belongs(after, k) by {
        assert(same_record(after.versions[k], before.versions[k]));
        assert(belongs(before, k));
        let i = choose|i: int|
            0 <= i < before.assets.len() && (#[trigger] before.assets[i]).id
                == before.versions[k].asset_id;
        assert(after.assets[i].id == after.versions[k].asset_id);
    }
    assert forall|i: int|
        0 <= i < after.assets.len() && (
        #[trigger] after.assets[i]).current is Some implies has_current(after, i) by {
        assert(before.assets[i].current is Some);
        assert(has_current(before, i));
        let k = choose|k: int|
            0 <= k < before.versions.len() && #[trigger] is_current(before, i, k)
                && before.versions[k].status == VersionStatus::Published;
        lemma_kept_current(before, list, now, i, k);
    }
    assert forall|k: int|
        0 <= k < after.versions.len() && (#[trigger] after.versions[k]).status
            == VersionStatus::Published implies has_owner(after, k) by {
        lemma_dropped(before.versions, before.assets, list, k);
        assert(has_owner(before, k));
        let i = choose|i: int| 0 <= i < before.assets.len() && #[trigger] is_current(before, i, k);
        if !media::lists(list, before.assets[i].asset_key) {
            assert(is_dropped(before.assets, list, before.versions[k].id));
        }
        lemma_kept_current(before, list, now, i, k);
    }
}

proof fn lemma_removal_settles(before: State, list: Seq<media::Asset>, now: i64, j: int)
    requires
        is_sound(before),
        0 <= j < list.len(),
        is_settled(before, list[j]),
    ensures
        is_settled(media_catalog::after_removing(before, list, now), list[j]),
{
    let after = media_catalog::after_removing(before, list, now);
    let (i, k) = choose|i: int, k: int|
        0 <= i < before.assets.len() && 0 <= k < before.versions.len() && #[trigger] is_current(
            before,
            i,
            k,
        ) && before.assets[i].asset_key == list[j].asset_key && before.versions[k].status
            == VersionStatus::Published && media_catalog::describes(before.versions[k], list[j]);
    assert(media::lists(list, before.assets[i].asset_key));
    lemma_kept_current(before, list, now, i, k);
    lemma_removals_keep_history(before.versions, before.assets, list);
    assert(is_current(after, i, k));
}

/// The keys of the pictures with a current version.
spec fn current_keys(assets: Seq<AssetRow>) -> Seq<Seq<char>>
    decreases assets.len(),
{
    if assets.len() == 0 {
        Seq::empty()
    } else if assets.last().current is Some {
        current_keys(assets.drop_last()).push(assets.last().asset_key)
    } else {
        current_keys(assets.drop_last())
    }
}

/// The identifiers of the current versions.
spec fn current_ids(assets: Seq<AssetRow>) -> Seq<i64>
    decreases assets.len(),
{
    if assets.len() == 0 {
        Seq::empty()
    } else if assets.last().current is Some {
        current_ids(assets.drop_last()).push(assets.last().current->0)
    } else {
        current_ids(assets.drop_last())
    }
}

/// The identifiers of the published versions.
spec fn published_ids(versions: Seq<VersionRow>) -> Seq<i64>
    decreases versions.len(),
{
    if versions.len() == 0 {
        Seq::empty()
    } else if versions.last().status == VersionStatus::Published {
        published_ids(versions.drop_last()).push(versions.last().id)
    } else {
        published_ids(versions.drop_last())
    }
}

/// Whether a picture with a key has a current version.
spec fn keeps_key(assets: Seq<AssetRow>, key: Seq<char>) -> bool {
    exists|i: int|
        0 <= i < assets.len() && (#[trigger] assets[i]).asset_key == key
            && assets[i].current is Some
}

/// Whether a version is named as a current one.
spec fn points_to(assets: Seq<AssetRow>, id: i64) -> bool {
    exists|i: int| 0 <= i < assets.len() && (#[trigger] assets[i]).current == Some(id)
}

proof fn lemma_last_row(assets: Seq<AssetRow>, key: Seq<char>, id: i64)
    requires
        assets.len() > 0,
    ensures
        keeps_key(assets, key) == (keeps_key(assets.drop_last(), key) || assets.last().asset_key
            == key && assets.last().current is Some),
        points_to(assets, id) == (points_to(assets.drop_last(), id) || assets.last().current
            == Some(id)),
{
    let shorter = assets.drop_last();
    assert(assets[assets.len() - 1] == assets.last());
    if keeps_key(shorter, key) {
        let i = choose|i: int|
            0 <= i < shorter.len() && (#[trigger] shorter[i]).asset_key == key
                && shorter[i].current is Some;
        assert(assets[i] == shorter[i]);
    }
    if keeps_key(assets, key) {
        let i = choose|i: int|
            0 <= i < assets.len() && (#[trigger] assets[i]).asset_key == key
                && assets[i].current is Some;
        if i < shorter.len() {
            assert(shorter[i] == assets[i]);
        }
    }
    if points_to(shorter, id) {
        let i = choose|i: int|
            0 <= i < shorter.len() && (#[trigger] shorter[i]).current == Some(id);
        assert(assets[i] == shorter[i]);
    }
    if points_to(assets, id) {
        let i = choose|i: int|
            0 <= i < assets.len() && (#[trigger] assets[i]).current == Some(id);
        if i < shorter.len() {
            assert(shorter[i] == assets[i]);
        }
    }
}

proof fn lemma_current_keys(assets: Seq<AssetRow>)
    requires
        forall|i: int, j: int|
            0 <= i < j < assets.len() ==> (#[trigger] assets[i]).asset_key != (
            #[trigger] assets[j]).asset_key,
    ensures
        current_keys(assets).no_duplicates(),
        current_ids(assets).len() == current_keys(assets).len(),
        forall|key: Seq<char>| #[trigger]
            current_keys(assets).contains(key) == keeps_key(assets, key),
        forall|id: i64| #[trigger] current_ids(assets).contains(id) == points_to(assets, id),
    decreases assets.len(),
{
    if assets.len() > 0 {
        let shorter = assets.drop_last();
        assert forall|i: int, j: int| 0 <= i < j < shorter.len() implies (
        #[trigger] shorter[i]).asset_key != (#[trigger] shorter[j]).asset_key by {
            assert(assets[i].asset_key != assets[j].asset_key);
        }
        lemma_current_keys(shorter);
        let last = assets.last();
        let keys = current_keys(shorter);
        let ids = current_ids(shorter);
        if last.current is Some {
            assert(!keys.contains(last.asset_key)) by {
                if keeps_key(shorter, last.asset_key) {
                    let i = choose|i: int|
                        0 <= i < shorter.len() && (#[trigger] shorter[i]).asset_key
                            == last.asset_key && shorter[i].current is Some;
                    assert(assets[i].asset_key != assets[assets.len() - 1].asset_key);
                }
            }
        }
        assert forall|key: Seq<char>| #[trigger]
            current_keys(assets).contains(key) == keeps_key(assets, key) by {
            lemma_last_row(assets, key, 0);
            lemma_contains_push(keys, last.asset_key, key);
        }
        assert forall|id: i64| #[trigger] current_ids(assets).contains(id) == points_to(
            assets,
            id,
        ) by {
            lemma_last_row(assets, last.asset_key, id);
            if last.current is Some {
                lemma_contains_push(ids, last.current->0, id);
            }
        }
    }
}

proof fn lemma_contains_push<T>(list: Seq<T>, last: T, element: T)
    ensures
        list.push(last).contains(element) <==> list.contains(element) || element == last,
{
    let longer = list.push(last);
    if list.contains(element) {
        let i = choose|i: int| 0 <= i < list.len() && list[i] == element;
        assert(longer[i] == element);
    }
    if element == last {
        assert(longer[list.len() as int] == element);
    }
    if longer.contains(element) {
        let i = choose|i: int| 0 <= i < longer.len() && longer[i] == element;
        if i < list.len() {
            assert(list[i] == element);
        }
    }
}

proof fn lemma_published_ids(versions: Seq<VersionRow>)
    requires
        forall|k: int, l: int|
            0 <= k < l < versions.len() ==> (#[trigger] versions[k]).id != (
            #[trigger] versions[l]).id,
    ensures
        published_ids(versions).no_duplicates(),
        published_ids(versions).len() == media_catalog::published_count(versions),
        forall|id: i64| #[trigger] published_ids(versions).contains(id) == is_published(versions, id),
    decreases versions.len(),
{
    if versions.len() > 0 {
        let shorter = versions.drop_last();
        let last = versions.last();
        assert forall|k: int, l: int| 0 <= k < l < shorter.len() implies (
        #[trigger] shorter[k]).id != (#[trigger] shorter[l]).id by {
            assert(versions[k].id != versions[l].id);
        }
        lemma_published_ids(shorter);
        let ids = published_ids(shorter);
        if last.status == VersionStatus::Published {
            assert(!ids.contains(last.id)) by {
                if is_published(shorter, last.id) {
                    let k = choose|k: int|
                        0 <= k < shorter.len() && (#[trigger] shorter[k]).id == last.id
                            && shorter[k].status == VersionStatus::Published;
                    assert(versions[k].id != versions[versions.len() - 1].id);
                }
            }
        }
        assert forall|id: i64| #[trigger] published_ids(versions).contains(id) == is_published(
            versions,
            id,
        ) by {
            lemma_last_version(versions, id);
            lemma_contains_push(ids, last.id, id);
        }
    }
}

/// Whether a version is published.
spec fn is_published(versions: Seq<VersionRow>, id: i64) -> bool {
    exists|k: int|
        0 <= k < versions.len() && (#[trigger] versions[k]).id == id && versions[k].status
            == VersionStatus::Published
}

proof fn lemma_last_version(versions: Seq<VersionRow>, id: i64)
    requires
        versions.len() > 0,
    ensures
        is_published(versions, id) == (is_published(versions.drop_last(), id)
            || versions.last().id == id && versions.last().status == VersionStatus::Published),
{
    let shorter = versions.drop_last();
    assert(versions[versions.len() - 1] == versions.last());
    if is_published(shorter, id) {
        let k = choose|k: int|
            0 <= k < shorter.len() && (#[trigger] shorter[k]).id == id && shorter[k].status
                == VersionStatus::Published;
        assert(versions[k] == shorter[k]);
    }
    if is_published(versions, id) {
        let k = choose|k: int|
            0 <= k < versions.len() && (#[trigger] versions[k]).id == id && versions[k].status
                == VersionStatus::Published;
        if k < shorter.len() {
            assert(shorter[k] == versions[k]);
        }
    }
}

/// In a sound catalogue as many versions are published as are current.
proof fn lemma_published_are_current(state: State)
    requires
        is_sound(state),
    ensures
        media_catalog::published_count(state.versions) == current_keys(state.assets).len(),
{
    lemma_published_ids(state.versions);
    lemma_current_keys(state.assets);
    let published = published_ids(state.versions);
    let current = current_ids(state.assets);
    assert forall|id: i64| is_published(state.versions, id) == points_to(state.assets, id) by {
        if is_published(state.versions, id) {
            let k = choose|k: int|
                0 <= k < state.versions.len() && (#[trigger] state.versions[k]).id == id
                    && state.versions[k].status == VersionStatus::Published;
            assert(has_owner(state, k));
            let i = choose|i: int|
                0 <= i < state.assets.len() && #[trigger] is_current(state, i, k);
            assert(state.assets[i].current == Some(id));
        }
        if points_to(state.assets, id) {
            let i = choose|i: int|
                0 <= i < state.assets.len() && (#[trigger] state.assets[i]).current == Some(id);
            assert(has_current(state, i));
            let k = choose|k: int|
                0 <= k < state.versions.len() && #[trigger] is_current(state, i, k)
                    && state.versions[k].status == VersionStatus::Published;
            assert(state.versions[k].id == id);
        }
    }
    assert forall|id: i64| published.contains(id) == current.contains(id) by {}
    lemma_current_ids_unique(state, state.assets.len() as int);
    assert(state.assets.take(state.assets.len() as int) =~= state.assets);
    assert(published.to_set() =~= current.to_set());
    published.unique_seq_to_set();
    current.unique_seq_to_set();
}

proof fn lemma_current_ids_unique(state: State, n: int)
    requires
        is_sound(state),
        0 <= n <= state.assets.len(),
    ensures
        current_ids(state.assets.take(n)).no_duplicates(),
    decreases n,
{
    if n > 0 {
        lemma_current_ids_unique(state, n - 1);
        let rows = state.assets.take(n);
        let shorter = state.assets.take(n - 1);
        assert(rows.drop_last() =~= shorter);
        assert forall|i: int, j: int| 0 <= i < j < shorter.len() implies (
        #[trigger] shorter[i]).asset_key != (#[trigger] shorter[j]).asset_key by {
            assert(state.assets[i].asset_key != state.assets[j].asset_key);
        }
        lemma_current_keys(shorter);
        let last = state.assets[n - 1];
        if last.current is Some {
            let id = last.current->0;
            assert(!current_ids(shorter).contains(id)) by {
                if points_to(shorter, id) {
                    let i = choose|i: int|
                        0 <= i < shorter.len() && (#[trigger] shorter[i]).current == Some(id);
                    assert(state.assets[i].current == Some(id));
                    assert(has_current(state, i));
                    let k = choose|k: int|
                        0 <= k < state.versions.len() && #[trigger] is_current(state, i, k)
                            && state.versions[k].status == VersionStatus::Published;
                    lemma_one_owner(state, i, n - 1, k);
                }
            }
        }
    }
}

/// In a sound catalogue the current versions are those of the pictures that have one.
proof fn lemma_current_versions(state: State, n: int)
    requires
        is_sound(state),
        0 <= n <= state.assets.len(),
    ensures
        ({
            let current = media_catalog::current_versions(state.assets.take(n), state.versions);
            let keys = current_keys(state.assets.take(n));
            &&& current.len() == keys.len()
            &&& forall|e: int|
                0 <= e < current.len() ==> (#[trigger] current[e]).0 == keys[e]
                    && current[e].1.size >= 0
            &&& forall|i: int, k: int|
                0 <= i < n && 0 <= k < state.versions.len() && #[trigger] is_current(state, i, k)
                    && state.versions[k].status == VersionStatus::Published ==> current.contains(
                    (state.assets[i].asset_key, state.versions[k]),
                )
        }),
    decreases n,
{
    if n > 0 {
        lemma_current_versions(state, n - 1);
        let rows = state.assets.take(n);
        assert(rows.drop_last() =~= state.assets.take(n - 1));
        let row = state.assets[n - 1];
        let earlier = media_catalog::current_versions(state.assets.take(n - 1), state.versions);
        let current = media_catalog::current_versions(rows, state.versions);
        if row.current is Some {
            assert(has_current(state, n - 1));
            let k = choose|k: int|
                0 <= k < state.versions.len() && #[trigger] is_current(state, n - 1, k)
                    && state.versions[k].status == VersionStatus::Published;
            lemma_found_version(state, k, row.id);
            assert(state.versions[k].size >= 0);
            assert(current == earlier.push((row.asset_key, state.versions[k])));
        }
        assert forall|i: int, k: int|
            0 <= i < n && 0 <= k < state.versions.len() && #[trigger] is_current(state, i, k)
                && state.versions[k].status == VersionStatus::Published implies current.contains(
            (state.assets[i].asset_key, state.versions[k]),
        ) by {
            let entry = (state.assets[i].asset_key, state.versions[k]);
            if i < n - 1 {
                assert(earlier.contains(entry));
                if row.current is Some {
                    lemma_contains_push(earlier, current.last(), entry);
                }
            } else {
                lemma_found_version(state, k, row.id);
                lemma_contains_push(earlier, entry, entry);
            }
        }
    }
}

/// A sound catalogue whose current versions describe exactly the pictures of a list
/// fits that list.
proof fn lemma_settled_catalogue_fits(state: State, list: Seq<media::Asset>)
    requires
        is_sound(state),
        media::in_key_order(list),
        forall|j: int| 0 <= j < list.len() ==> is_settled(state, #[trigger] list[j]),
        forall|i: int|
            0 <= i < state.assets.len() && (
            #[trigger] state.assets[i]).current is Some ==> media::lists(
                list,
                state.assets[i].asset_key,
            ),
    ensures
        media_catalog::validation(state, list) is Ok,
{
    let n = state.assets.len() as int;
    assert(state.assets.take(n) =~= state.assets);
    lemma_current_versions(state, n);
    lemma_current_keys(state.assets);
    lemma_published_are_current(state);
    let current = media_catalog::current_versions(state.assets, state.versions);
    let keys = current_keys(state.assets);
    let listed = Seq::new(list.len(), |j: int| list[j].asset_key);
    assert(listed.no_duplicates()) by {
        assert forall|i: int, j: int| 0 <= i < j < listed.len() implies listed[i] != listed[j] by {
            assert(text::before(list[i].asset_key, list[j].asset_key));
            text::one_text_comes_first(list[i].asset_key, list[i].asset_key);
        }
    }
    assert forall|key: Seq<char>| keys.contains(key) == listed.contains(key) by {
        if keeps_key(state.assets, key) {
            let i = choose|i: int|
                0 <= i < state.assets.len() && (#[trigger] state.assets[i]).asset_key == key
                    && state.assets[i].current is Some;
            assert(media::lists(list, key));
            let j = choose|j: int| 0 <= j < list.len() && (#[trigger] list[j]).asset_key == key;
            assert(listed[j] == key);
        }
        if listed.contains(key) {
            let j = choose|j: int| 0 <= j < listed.len() && listed[j] == key;
            assert(is_settled(state, list[j]));
            let (i, k) = choose|i: int, k: int|
                0 <= i < state.assets.len() && 0 <= k < state.versions.len()
                    && #[trigger] is_current(state, i, k) && state.assets[i].asset_key
                    == list[j].asset_key && state.versions[k].status == VersionStatus::Published
                    && media_catalog::describes(state.versions[k], list[j]);
            assert(state.assets[i].asset_key == key && state.assets[i].current is Some);
            assert(keeps_key(state.assets, key));
        }
    }
    assert(keys.to_set() =~= listed.to_set());
    keys.unique_seq_to_set();
    listed.unique_seq_to_set();
    assert forall|i: int| 0 <= i < state.assets.len() implies media_catalog::has_valid_current(
        #[trigger] state.assets[i],
        state.versions,
    ) by {
        if state.assets[i].current is Some {
            assert(has_current(state, i));
            let k = choose|k: int|
                0 <= k < state.versions.len() && #[trigger] is_current(state, i, k)
                    && state.versions[k].status == VersionStatus::Published;
            lemma_found_version(state, k, state.assets[i].id);
        }
    }
    assert forall|j: int| 0 <= j < list.len() implies media_catalog::is_described(
        current,
        #[trigger] list[j],
    ) by {
        assert(is_settled(state, list[j]));
        let (i, k) = choose|i: int, k: int|
            0 <= i < state.assets.len() && 0 <= k < state.versions.len() && #[trigger] is_current(
                state,
                i,
                k,
            ) && state.assets[i].asset_key == list[j].asset_key && state.versions[k].status
                == VersionStatus::Published && media_catalog::describes(
                state.versions[k],
                list[j],
            );
        let entry = (state.assets[i].asset_key, state.versions[k]);
        assert(current.contains(entry));
        let e = choose|e: int| 0 <= e < current.len() && current[e] == entry;
        assert(current[e].0 == list[j].asset_key);
    }
    assert(!media_catalog::rows_are_broken(current)) by {
        assert forall|a: int, b: int| 0 <= a < b < current.len() implies (
        #[trigger] current[a]).0 != (#[trigger] current[b]).0 by {
            assert(keys[a] != keys[b]);
        }
    }
}

/// Publishing the pictures of an index in a sound catalogue succeeds, the catalogue is
/// sound afterwards, and it fits the index, so that the service starts with it. The
/// identifiers have to have room, and where a version already has the digest of a
/// picture it has to record the same size and type.
pub proof fn releases_fit_their_index(
    state: State,
    list: Seq<media::Asset>,
    by_key: Map<Seq<char>, media::Asset>,
    now: i64,
)
    requires
        is_sound(state),
        media::is_listing(list, by_key),
        records_agree(state, list),
        has_room(state, list.len()),
        forall|j: int| 0 <= j < list.len() ==> (#[trigger] list[j]).size <= i64::MAX,
    ensures
        media_catalog::after_release(state, list, now) matches Ok(after) && is_sound(after)
            && media_catalog::validation(after, list) is Ok,
{
    lemma_publications(state, list, list.len() as int, now);
    assert(list.take(list.len() as int) =~= list);
    let middle = media_catalog::after_publishing_all(state, list, now)->Ok_0;
    let after = media_catalog::after_removing(middle, list, now);
    lemma_removal_is_sound(middle, list, now);
    assert forall|j: int| 0 <= j < list.len() implies is_settled(after, #[trigger] list[j]) by {
        lemma_removal_settles(middle, list, now, j);
    }
    lemma_settled_catalogue_fits(after, list);
}

/// A catalogue without pictures is sound.
pub proof fn an_empty_catalogue_is_sound()
    ensures
        is_sound(State { assets: Seq::empty(), versions: Seq::empty() }),
{
}

/// A picture that changed gets a new version, even where an older version had the same
/// contents, and its former version is no longer published.
pub proof fn changed_pictures_get_a_new_version(
    state: State,
    asset: media::Asset,
    now: i64,
    i: int,
    k: int,
)
    requires
        is_sound(state),
        has_room(state, 1),
        asset.size <= i64::MAX,
        0 <= i < state.assets.len(),
        0 <= k < state.versions.len(),
        is_current(state, i, k),
        state.versions[k].status == VersionStatus::Published,
        state.assets[i].asset_key == asset.asset_key,
        state.versions[k].sha256 != asset.sha256,
    ensures
        media_catalog::after_publishing(state, asset, now) matches Ok(after) && {
            &&& after.versions.len() == state.versions.len() + 1
            &&& is_current(after, i, state.versions.len() as int)
            &&& after.versions.last().status == VersionStatus::Published
            &&& media_catalog::describes(after.versions.last(), asset)
            &&& after.versions[k].status == VersionStatus::Disabled
        },
{
    let (after, at, kept) = lemma_publication(state, asset, now, 0);
    assert(same_record(after.versions[k], state.versions[k]));
}

proof fn lemma_settled_publications(before: State, list: Seq<media::Asset>, n: int, now: i64)
    requires
        is_sound(before),
        records_agree(before, list),
        has_room(before, list.len()),
        media::in_key_order(list),
        forall|j: int| 0 <= j < list.len() ==> (#[trigger] list[j]).size <= i64::MAX,
        forall|j: int| 0 <= j < list.len() ==> is_settled(before, #[trigger] list[j]),
        0 <= n <= list.len(),
    ensures
        media_catalog::after_publishing_all(before, list.take(n), now) is Ok,
        ({
            let after = media_catalog::after_publishing_all(before, list.take(n), now)->Ok_0;
            &&& after.versions.len() == before.versions.len()
            &&& is_sound(after)
            &&& records_agree(after, list)
            &&& has_room(after, (list.len() - n) as nat)
            &&& forall|j: int| 0 <= j < list.len() ==> is_settled(after, #[trigger] list[j])
        }),
    decreases n,
{
    if n > 0 {
        lemma_settled_publications(before, list, n - 1, now);
        let middle = media_catalog::after_publishing_all(before, list.take(n - 1), now)->Ok_0;
        assert(list.take(n).drop_last() =~= list.take(n - 1));
        assert(list.take(n).last() == list[n - 1]);
        let (after, at, kept) = lemma_publication(
            middle,
            list[n - 1],
            now,
            (list.len() - n) as nat,
        );
        lemma_publication_is_sound(middle, after, list[n - 1], at, kept);
        lemma_publication_agrees(middle, after, list, n - 1, at, kept);
        lemma_publication_settles(middle, after, list, n - 1, at, kept);
    }
}

/// Publishing pictures that are already described by their current versions adds no
/// version.
pub proof fn unchanged_releases_add_no_version(
    state: State,
    list: Seq<media::Asset>,
    by_key: Map<Seq<char>, media::Asset>,
    now: i64,
)
    requires
        is_sound(state),
        media::is_listing(list, by_key),
        records_agree(state, list),
        has_room(state, list.len()),
        forall|j: int| 0 <= j < list.len() ==> (#[trigger] list[j]).size <= i64::MAX,
        forall|j: int| 0 <= j < list.len() ==> is_settled(state, #[trigger] list[j]),
    ensures
        media_catalog::after_release(state, list, now) matches Ok(after) && after.versions.len()
            == state.versions.len(),
{
    lemma_settled_publications(state, list, list.len() as int, now);
    assert(list.take(list.len() as int) =~= list);
    let middle = media_catalog::after_publishing_all(state, list, now)->Ok_0;
    lemma_removals_keep_history(middle.versions, middle.assets, list);
}

/// A picture that is gone has no current version after a release, and the version that
/// was current is kept, but no longer published.
pub proof fn missing_pictures_are_no_longer_published(
    state: State,
    list: Seq<media::Asset>,
    now: i64,
    i: int,
    k: int,
)
    requires
        is_sound(state),
        0 <= i < state.assets.len(),
        0 <= k < state.versions.len(),
        is_current(state, i, k),
        state.versions[k].status == VersionStatus::Published,
        !media::lists(list, state.assets[i].asset_key),
    ensures
        ({
            let after = media_catalog::after_removing(state, list, now);
            &&& after.assets[i].current is None
            &&& after.versions.len() == state.versions.len()
            &&& same_record(after.versions[k], state.versions[k])
            &&& after.versions[k].status == VersionStatus::Disabled
        }),
{
    lemma_dropped(state.versions, state.assets, list, k);
    assert(is_dropped(state.assets, list, state.versions[k].id));
}

/// Whether a catalogue holds one picture with this many versions, numbered from one, of
/// which only the last one is published, and has the date of its publication.
pub open spec fn is_series(state: State, key: Seq<char>, count: nat) -> bool {
    &&& state.assets.len() == 1
    &&& state.assets[0].id == 1
    &&& state.assets[0].asset_key == key
    &&& state.assets[0].current == Some(count as i64)
    &&& state.versions.len() == count
    &&& 0 < count < i64::MAX
    &&& state.versions.last().published_at is Some
    &&& forall|k: int|
        0 <= k < count ==> (#[trigger] state.versions[k]).id == k + 1 && state.versions[k].number
            == k + 1 && state.versions[k].asset_id == 1 && state.versions[k].status == (if k + 1
            == count {
            VersionStatus::Published
        } else {
            VersionStatus::Disabled
        })
}

proof fn lemma_series(versions: Seq<VersionRow>)
    requires
        versions.len() < i64::MAX,
        forall|k: int|
            0 <= k < versions.len() ==> (#[trigger] versions[k]).id == k + 1 && versions[k].number
                == k + 1 && versions[k].asset_id == 1,
    ensures
        media_catalog::largest_version_id(versions) == versions.len(),
        media_catalog::largest_number(versions, 1) == versions.len(),
        forall|id: i64|
            #[trigger] media_catalog::find_version(versions, id, 1) == (if 0 < id
                <= versions.len() {
                Some(versions[id - 1])
            } else {
                None
            }),
    decreases versions.len(),
{
    if versions.len() > 0 {
        let earlier = versions.drop_last();
        lemma_series(earlier);
        assert forall|id: i64|
            #[trigger] media_catalog::find_version(versions, id, 1) == (if 0 < id
                <= versions.len() {
                Some(versions[id - 1])
            } else {
                None
            }) by {
            assert(media_catalog::find_version(earlier, id, 1) is Some == (0 < id
                <= earlier.len()));
            assert(0 < id <= earlier.len() ==> earlier[id - 1] == versions[id - 1]);
        }
    }
}

/// The only picture of a list is found under its key, and nothing is removed.
proof fn lemma_only_picture(state: State, asset: media::Asset, now: i64)
    requires
        state.assets.len() == 1,
        state.assets[0].asset_key == asset.asset_key,
    ensures
        media_catalog::asset_position(state.assets, asset.asset_key) == 0,
        media_catalog::after_removing(state, seq![asset], now) == state,
{
    assert(state.assets.drop_last().len() == 0);
    assert(media_catalog::asset_position(state.assets.drop_last(), asset.asset_key) == 0);
    assert(seq![asset][0].asset_key == asset.asset_key);
    assert(media::lists(seq![asset], asset.asset_key));
    assert(media_catalog::without_missing(state.versions, state.assets.drop_last(), seq![asset])
        == state.versions);
    assert(media_catalog::after_removing(state, seq![asset], now) =~= state);
}

proof fn lemma_release_of_one(state: State, asset: media::Asset, now: i64)
    ensures
        media_catalog::after_release(state, seq![asset], now) == (match media_catalog::after_publishing(
            state,
            asset,
            now,
        ) {
            Err(error) => Err(error),
            Ok(after) => Ok(media_catalog::after_removing(after, seq![asset], now)),
        }),
{
    assert(seq![asset].drop_last() =~= Seq::empty());
    assert(seq![asset].last() == asset);
    assert(media_catalog::after_publishing_all(state, seq![asset].drop_last(), now)
        == Ok::<State, CatalogError>(state));
}

proof fn lemma_first_release(asset: media::Asset, now: i64) -> (after: State)
    requires
        asset.size <= i64::MAX,
    ensures
        media_catalog::after_release(
            State { assets: Seq::empty(), versions: Seq::empty() },
            seq![asset],
            now,
        ) == Ok::<State, CatalogError>(after),
        is_series(after, asset.asset_key, 1),
        media_catalog::describes(after.versions.last(), asset),
{
    let empty = State { assets: Seq::empty(), versions: Seq::empty() };
    lemma_release_of_one(empty, asset, now);
    lemma_series(empty.versions);
    let assets = media_catalog::with_asset(empty.assets, asset.asset_key, now)->Ok_0;
    assert(assets.drop_last().len() == 0);
    assert(media_catalog::asset_position(assets.drop_last(), asset.asset_key) == 0);
    let after = media_catalog::after_publishing(empty, asset, now)->Ok_0;
    lemma_only_picture(after, asset, now);
    after
}

proof fn lemma_next_release(
    state: State,
    former: media::Asset,
    asset: media::Asset,
    count: nat,
    now: i64,
) -> (after: State)
    requires
        is_series(state, asset.asset_key, count),
        media_catalog::describes(state.versions.last(), former),
        count + 1 < i64::MAX,
        former.sha256 != asset.sha256,
        asset.size <= i64::MAX,
    ensures
        media_catalog::after_release(state, seq![asset], now) == Ok::<State, CatalogError>(after),
        is_series(after, asset.asset_key, count + 1),
        media_catalog::describes(after.versions.last(), asset),
        history_kept(state.versions, after.versions),
{
    lemma_release_of_one(state, asset, now);
    lemma_series(state.versions);
    lemma_only_picture(state, asset, now);
    assert(media_catalog::find_version(state.versions, count as i64, 1) == Some(
        state.versions[count - 1],
    ));
    let after = media_catalog::after_publishing(state, asset, now)->Ok_0;
    assert(is_series(after, asset.asset_key, count + 1));
    lemma_only_picture(after, asset, now);
    releases_keep_the_history(state, seq![asset], now);
    after
}

/// A picture that is changed, and changed back, has three versions: the first two are
/// disabled, and the third one, which describes the same contents as the first, is
/// published. One more release of the same picture changes no version. Once the picture
/// is gone, the third version is disabled too, and all three are kept.
pub proof fn a_picture_changed_back_has_three_versions(
    first: media::Asset,
    second: media::Asset,
    moments: (i64, i64, i64, i64, i64),
)
    requires
        first.asset_key == second.asset_key,
        first.sha256 != second.sha256,
        first.size <= i64::MAX,
        second.size <= i64::MAX,
    ensures
        ({
            let empty = State { assets: Seq::empty(), versions: Seq::empty() };
            let one = media_catalog::after_release(empty, seq![first], moments.0);
            let two = media_catalog::after_release(one->Ok_0, seq![second], moments.1);
            let three = media_catalog::after_release(two->Ok_0, seq![first], moments.2);
            let again = media_catalog::after_release(three->Ok_0, seq![first], moments.3);
            let gone = media_catalog::after_release(again->Ok_0, Seq::empty(), moments.4);
            &&& one is Ok && two is Ok && three is Ok && again is Ok && gone is Ok
            &&& is_series(three->Ok_0, first.asset_key, 3)
            &&& media_catalog::describes((three->Ok_0).versions[0], first)
            &&& media_catalog::describes((three->Ok_0).versions[1], second)
            &&& media_catalog::describes((three->Ok_0).versions[2], first)
            &&& (again->Ok_0).versions == (three->Ok_0).versions
            &&& (gone->Ok_0).versions.len() == 3
            &&& history_kept((three->Ok_0).versions, (gone->Ok_0).versions)
            &&& (gone->Ok_0).assets[0].current is None
            &&& forall|k: int|
                0 <= k < 3 ==> (#[trigger] (gone->Ok_0).versions[k]).status
                    == VersionStatus::Disabled
        }),
{
    let one = lemma_first_release(first, moments.0);
    let two = lemma_next_release(one, first, second, 1, moments.1);
    let three = lemma_next_release(two, second, first, 2, moments.2);
    lemma_history_transitive(one.versions, two.versions, three.versions);
    assert(same_record(three.versions[0], one.versions[0]));
    assert(same_record(three.versions[1], two.versions[1]));
    lemma_release_of_one(three, first, moments.3);
    lemma_series(three.versions);
    lemma_only_picture(three, first, moments.3);
    assert(media_catalog::find_version(three.versions, 3, 1) == Some(three.versions[2]));
    let again = media_catalog::after_publishing(three, first, moments.3)->Ok_0;
    assert(again.versions =~= three.versions);
    lemma_only_picture(again, first, moments.3);
    let none = Seq::<media::Asset>::empty();
    let gone = media_catalog::after_removing(again, none, moments.4);
    releases_keep_the_history(again, none, moments.4);
    assert(!media::lists(none, first.asset_key));
    assert(again.assets.drop_last().len() == 0);
    assert(media_catalog::without_missing(again.versions, again.assets.drop_last(), none)
        == again.versions);
    assert(gone.versions == media_catalog::with_disabled(again.versions, 3));
}

} // verus!
