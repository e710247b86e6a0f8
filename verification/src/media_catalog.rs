//! The catalogue of published pictures: which version of a picture is the current one,
//! and which versions came before it.
//!
//! Versions are only ever added. Publishing makes the catalogue fit an index; the
//! service starts only with a catalogue that fits.
use crate::media;
use crate::media::{AssetMeta, MediaIndex};
use crate::text;
use crate::text::same;
use vstd::prelude::*;
use vstd::string::*;

verus! {

/// The version of the catalogue's form.
pub const CATALOG_SCHEMA_VERSION: i64 = 1;

/// Where the bytes of a version are.
pub const STORAGE_DRIVER_FILESYSTEM: &'static str = "filesystem";

/// Why a catalogue cannot be used.
#[derive(Clone, Copy, Debug, PartialEq, Eq, Structural)]
pub enum CatalogError {
    DatabaseUnavailable,
    SchemaInvalid,
    PublishedIndexMismatch,
}

/// Why a catalogue cannot be used, in words.
pub open spec fn catalog_error_text(error: CatalogError) -> Seq<char> {
    match error {
        CatalogError::DatabaseUnavailable => "媒体 catalog 数据库不可用"@,
        CatalogError::SchemaInvalid => "媒体 catalog 结构无效"@,
        CatalogError::PublishedIndexMismatch => "媒体 catalog 与 published root 不一致"@,
    }
}

impl CatalogError {
    /// The error in words.
    pub fn message(self) -> (message: &'static str)
        ensures
            message@ == catalog_error_text(self),
    {
        match self {
            CatalogError::DatabaseUnavailable => "媒体 catalog 数据库不可用",
            CatalogError::SchemaInvalid => "媒体 catalog 结构无效",
            CatalogError::PublishedIndexMismatch => "媒体 catalog 与 published root 不一致",
        }
    }
}

/// The state of a version.
#[derive(Clone, Copy, Debug, PartialEq, Eq, Structural)]
pub enum VersionStatus {
    Draft,
    Approved,
    Published,
    Disabled,
}

/// A picture of the catalogue.
#[derive(Clone, Debug, PartialEq, Eq)]
pub struct CatalogAsset {
    pub id: i64,
    pub asset_key: String,
    pub current_version_id: Option<i64>,
    pub created_at: i64,
    pub updated_at: i64,
}

/// A version of a picture.
#[derive(Clone, Debug, PartialEq, Eq)]
pub struct CatalogVersion {
    pub id: i64,
    pub asset_id: i64,
    pub version_number: i64,
    pub sha256: String,
    pub mime_type: String,
    pub byte_size: i64,
    pub storage_driver: String,
    pub storage_key: String,
    pub status: VersionStatus,
    pub created_at: i64,
    pub published_at: Option<i64>,
}

/// The catalogue.
#[derive(Clone, Debug, PartialEq, Eq)]
pub struct Catalog {
    pub assets: Vec<CatalogAsset>,
    pub versions: Vec<CatalogVersion>,
}

/// The mathematical form of a picture of the catalogue.
pub struct AssetRow {
    pub id: i64,
    pub asset_key: Seq<char>,
    pub current: Option<i64>,
    pub created_at: i64,
    pub updated_at: i64,
}

/// The mathematical form of a version.
pub struct VersionRow {
    pub id: i64,
    pub asset_id: i64,
    pub number: i64,
    pub sha256: Seq<char>,
    pub mime: Seq<char>,
    pub size: i64,
    pub driver: Seq<char>,
    pub storage_key: Seq<char>,
    pub status: VersionStatus,
    pub created_at: i64,
    pub published_at: Option<i64>,
}

/// The mathematical form of the catalogue.
#[verifier::ext_equal]
pub struct State {
    pub assets: Seq<AssetRow>,
    pub versions: Seq<VersionRow>,
}

impl View for CatalogAsset {
    type V = AssetRow;

    open spec fn view(&self) -> AssetRow {
        AssetRow {
            id: self.id,
            asset_key: self.asset_key@,
            current: self.current_version_id,
            created_at: self.created_at,
            updated_at: self.updated_at,
        }
    }
}

impl View for CatalogVersion {
    type V = VersionRow;

    open spec fn view(&self) -> VersionRow {
        VersionRow {
            id: self.id,
            asset_id: self.asset_id,
            number: self.version_number,
            sha256: self.sha256@,
            mime: self.mime_type@,
            size: self.byte_size,
            driver: self.storage_driver@,
            storage_key: self.storage_key@,
            status: self.status,
            created_at: self.created_at,
            published_at: self.published_at,
        }
    }
}

/// The contents of a list of pictures.
pub open spec fn asset_rows(list: Seq<CatalogAsset>) -> Seq<AssetRow> {
    Seq::new(list.len(), |i: int| list[i]@)
}

/// The contents of a list of versions.
pub open spec fn version_rows(list: Seq<CatalogVersion>) -> Seq<VersionRow> {
    Seq::new(list.len(), |i: int| list[i]@)
}

impl View for Catalog {
    type V = State;

    open spec fn view(&self) -> State {
        State { assets: asset_rows(self.assets@), versions: version_rows(self.versions@) }
    }
}

/// The largest identifier of some pictures, and never less than zero.
pub open spec fn largest_asset_id(assets: Seq<AssetRow>) -> int
    decreases assets.len(),
{
    if assets.len() == 0 {
        0
    } else if assets.last().id > largest_asset_id(assets.drop_last()) {
        assets.last().id as int
    } else {
        largest_asset_id(assets.drop_last())
    }
}

/// The largest identifier of some versions, and never less than zero.
pub open spec fn largest_version_id(versions: Seq<VersionRow>) -> int
    decreases versions.len(),
{
    if versions.len() == 0 {
        0
    } else if versions.last().id > largest_version_id(versions.drop_last()) {
        versions.last().id as int
    } else {
        largest_version_id(versions.drop_last())
    }
}

/// The largest number of the versions of a picture, and never less than zero.
pub open spec fn largest_number(versions: Seq<VersionRow>, asset_id: i64) -> int
    decreases versions.len(),
{
    if versions.len() == 0 {
        0
    } else if versions.last().asset_id == asset_id && versions.last().number > largest_number(
        versions.drop_last(),
        asset_id,
    ) {
        versions.last().number as int
    } else {
        largest_number(versions.drop_last(), asset_id)
    }
}

/// The place of the first picture with a key; the length where there is none.
pub open spec fn asset_position(assets: Seq<AssetRow>, key: Seq<char>) -> nat
    decreases assets.len(),
{
    if assets.len() == 0 {
        0
    } else if asset_position(assets.drop_last(), key) < assets.len() - 1 {
        asset_position(assets.drop_last(), key)
    } else if assets.last().asset_key == key {
        (assets.len() - 1) as nat
    } else {
        assets.len()
    }
}

/// The first version with an identifier that belongs to a picture.
pub open spec fn find_version(versions: Seq<VersionRow>, id: i64, asset_id: i64) -> Option<
    VersionRow,
>
    decreases versions.len(),
{
    if versions.len() == 0 {
        None
    } else {
        match find_version(versions.drop_last(), id, asset_id) {
            Some(version) => Some(version),
            None => if versions.last().id == id && versions.last().asset_id == asset_id {
                Some(versions.last())
            } else {
                None
            },
        }
    }
}

/// A version that is no longer published.
pub open spec fn disabled(version: VersionRow, id: i64) -> VersionRow {
    if version.id == id && version.status == VersionStatus::Published {
        VersionRow { status: VersionStatus::Disabled, ..version }
    } else {
        version
    }
}

/// The versions, with one of them no longer published.
pub open spec fn with_disabled(versions: Seq<VersionRow>, id: i64) -> Seq<VersionRow> {
    Seq::new(versions.len(), |i: int| disabled(versions[i], id))
}

/// A version that is published; the date of its first publication stays.
pub open spec fn published(version: VersionRow, id: i64, now: i64) -> VersionRow {
    if version.id == id {
        VersionRow {
            status: VersionStatus::Published,
            published_at: match version.published_at {
                Some(moment) => Some(moment),
                None => Some(now),
            },
            ..version
        }
    } else {
        version
    }
}

/// The versions, with one of them published.
pub open spec fn with_published(versions: Seq<VersionRow>, id: i64, now: i64) -> Seq<VersionRow> {
    Seq::new(versions.len(), |i: int| published(versions[i], id, now))
}

/// A new version of a picture.
pub open spec fn new_version(
    versions: Seq<VersionRow>,
    asset_id: i64,
    asset: media::Asset,
    now: i64,
) -> Result<VersionRow, CatalogError> {
    if largest_number(versions, asset_id) >= i64::MAX {
        Err(CatalogError::DatabaseUnavailable)
    } else if asset.size > i64::MAX {
        Err(CatalogError::PublishedIndexMismatch)
    } else if largest_version_id(versions) >= i64::MAX {
        Err(CatalogError::DatabaseUnavailable)
    } else {
        Ok(
            VersionRow {
                id: (largest_version_id(versions) + 1) as i64,
                asset_id,
                number: (largest_number(versions, asset_id) + 1) as i64,
                sha256: asset.sha256,
                mime: asset.mime,
                size: asset.size as i64,
                driver: STORAGE_DRIVER_FILESYSTEM@,
                storage_key: asset.asset_key,
                status: VersionStatus::Published,
                created_at: now,
                published_at: Some(now),
            },
        )
    }
}

/// The pictures, with one under this key.
pub open spec fn with_asset(assets: Seq<AssetRow>, key: Seq<char>, now: i64) -> Result<
    Seq<AssetRow>,
    CatalogError,
> {
    if asset_position(assets, key) < assets.len() {
        Ok(assets)
    } else if largest_asset_id(assets) >= i64::MAX {
        Err(CatalogError::DatabaseUnavailable)
    } else {
        Ok(
            assets.push(
                AssetRow {
                    id: (largest_asset_id(assets) + 1) as i64,
                    asset_key: key,
                    current: None,
                    created_at: now,
                    updated_at: now,
                },
            ),
        )
    }
}

/// The versions after a picture is published, and which of them is the current one. The
/// current version stays where its digest is that of the picture; else a new one is
/// added, even where an older one had that digest.
pub open spec fn with_current(
    versions: Seq<VersionRow>,
    row: AssetRow,
    asset: media::Asset,
    now: i64,
) -> Result<(Seq<VersionRow>, i64), CatalogError> {
    match row.current {
        None => match new_version(versions, row.id, asset, now) {
            Err(error) => Err(error),
            Ok(version) => Ok(
                (with_published(versions.push(version), version.id, now), version.id),
            ),
        },
        Some(current) => match find_version(versions, current, row.id) {
            None => Err(CatalogError::SchemaInvalid),
            Some(version) => if version.sha256 == asset.sha256 {
                Ok((with_published(versions, current, now), current))
            } else {
                match new_version(versions, row.id, asset, now) {
                    Err(error) => Err(error),
                    Ok(version) => Ok(
                        (
                            with_published(
                                with_disabled(versions.push(version), current),
                                version.id,
                                now,
                            ),
                            version.id,
                        ),
                    ),
                }
            },
        },
    }
}

/// The catalogue after a picture is published.
pub open spec fn after_publishing(state: State, asset: media::Asset, now: i64) -> Result<
    State,
    CatalogError,
> {
    match with_asset(state.assets, asset.asset_key, now) {
        Err(error) => Err(error),
        Ok(assets) => {
            let at = asset_position(assets, asset.asset_key) as int;
            match with_current(state.versions, assets[at], asset, now) {
                Err(error) => Err(error),
                Ok((versions, current)) => Ok(
                    State {
                        assets: assets.update(
                            at,
                            AssetRow { current: Some(current), updated_at: now, ..assets[at] },
                        ),
                        versions,
                    },
                ),
            }
        },
    }
}

/// The catalogue after some pictures are published.
pub open spec fn after_publishing_all(state: State, list: Seq<media::Asset>, now: i64) -> Result<
    State,
    CatalogError,
>
    decreases list.len(),
{
    if list.len() == 0 {
        Ok(state)
    } else {
        match after_publishing_all(state, list.drop_last(), now) {
            Err(error) => Err(error),
            Ok(state) => after_publishing(state, list.last(), now),
        }
    }
}

/// The versions, without the publication of pictures that are gone.
pub open spec fn without_missing(
    versions: Seq<VersionRow>,
    assets: Seq<AssetRow>,
    list: Seq<media::Asset>,
) -> Seq<VersionRow>
    decreases assets.len(),
{
    if assets.len() == 0 {
        versions
    } else {
        let earlier = without_missing(versions, assets.drop_last(), list);
        match assets.last().current {
            Some(current) => if media::lists(list, assets.last().asset_key) {
                earlier
            } else {
                with_disabled(earlier, current)
            },
            None => earlier,
        }
    }
}

/// A picture that has no current version once it is gone.
pub open spec fn kept_row(row: AssetRow, list: Seq<media::Asset>, now: i64) -> AssetRow {
    if row.current is Some && !media::lists(list, row.asset_key) {
        AssetRow { current: None, updated_at: now, ..row }
    } else {
        row
    }
}

/// The catalogue, without the publication of pictures that are gone.
pub open spec fn after_removing(state: State, list: Seq<media::Asset>, now: i64) -> State {
    State {
        assets: Seq::new(state.assets.len(), |i: int| kept_row(state.assets[i], list, now)),
        versions: without_missing(state.versions, state.assets, list),
    }
}

/// The catalogue after the pictures of an index are published.
pub open spec fn after_release(state: State, list: Seq<media::Asset>, now: i64) -> Result<
    State,
    CatalogError,
> {
    match after_publishing_all(state, list, now) {
        Err(error) => Err(error),
        Ok(state) => Ok(after_removing(state, list, now)),
    }
}

fn disable(versions: &mut Vec<CatalogVersion>, id: i64)
    ensures
        version_rows(final(versions)@) == with_disabled(version_rows(old(versions)@), id),
{
    let ghost before = version_rows(versions@);
    let mut i: usize = 0;
    while i < versions.len()
        invariant
            i <= versions@.len() == before.len(),
            forall|j: int| 0 <= j < i ==> version_rows(versions@)[j] == disabled(before[j], id),
            forall|j: int| i <= j < before.len() ==> version_rows(versions@)[j] == before[j],
        decreases versions@.len() - i,
    {
        let ghost middle = versions@;
        assert(version_rows(middle)[i as int] == before[i as int]);
        if versions[i].id == id && versions[i].status == VersionStatus::Published {
            versions[i].status = VersionStatus::Disabled;
        }
        assert forall|j: int| 0 <= j < before.len() implies version_rows(versions@)[j] == (if j
            == i {
            disabled(before[j], id)
        } else {
            version_rows(middle)[j]
        }) by {
            if j != i {
                assert(versions@[j] == middle[j]);
            }
        }
        i = i + 1;
    }
    assert(version_rows(versions@) =~= with_disabled(before, id));
}

fn mark_published(versions: &mut Vec<CatalogVersion>, id: i64, now: i64)
    ensures
        version_rows(final(versions)@) == with_published(version_rows(old(versions)@), id, now),
{
    let ghost before = version_rows(versions@);
    let mut i: usize = 0;
    while i < versions.len()
        invariant
            i <= versions@.len() == before.len(),
            forall|j: int|
                0 <= j < i ==> version_rows(versions@)[j] == published(before[j], id, now),
            forall|j: int| i <= j < before.len() ==> version_rows(versions@)[j] == before[j],
        decreases versions@.len() - i,
    {
        let ghost middle = versions@;
        assert(version_rows(middle)[i as int] == before[i as int]);
        if versions[i].id == id {
            versions[i].status = VersionStatus::Published;
            if versions[i].published_at.is_none() {
                versions[i].published_at = Some(now);
            }
        }
        assert forall|j: int| 0 <= j < before.len() implies version_rows(versions@)[j] == (if j
            == i {
            published(before[j], id, now)
        } else {
            version_rows(middle)[j]
        }) by {
            if j != i {
                assert(versions@[j] == middle[j]);
            }
        }
        i = i + 1;
    }
    assert(version_rows(versions@) =~= with_published(before, id, now));
}

fn last_asset_id(assets: &Vec<CatalogAsset>) -> (id: i64)
    ensures
        id == largest_asset_id(asset_rows(assets@)),
{
    let ghost all = asset_rows(assets@);
    let mut id: i64 = 0;
    let mut i: usize = 0;
    while i < assets.len()
        invariant
            i <= assets@.len(),
            all == asset_rows(assets@),
            id == largest_asset_id(all.take(i as int)),
        decreases assets@.len() - i,
    {
        assert(all.take(i + 1).drop_last() =~= all.take(i as int));
        assert(all.take(i + 1).last() == assets@[i as int]@);
        if assets[i].id > id {
            id = assets[i].id;
        }
        i = i + 1;
    }
    assert(all.take(i as int) =~= all);
    id
}

fn last_version_id(versions: &Vec<CatalogVersion>) -> (id: i64)
    ensures
        id == largest_version_id(version_rows(versions@)),
{
    let ghost all = version_rows(versions@);
    let mut id: i64 = 0;
    let mut i: usize = 0;
    while i < versions.len()
        invariant
            i <= versions@.len(),
            all == version_rows(versions@),
            id == largest_version_id(all.take(i as int)),
        decreases versions@.len() - i,
    {
        assert(all.take(i + 1).drop_last() =~= all.take(i as int));
        assert(all.take(i + 1).last() == versions@[i as int]@);
        if versions[i].id > id {
            id = versions[i].id;
        }
        i = i + 1;
    }
    assert(all.take(i as int) =~= all);
    id
}

fn last_number(versions: &Vec<CatalogVersion>, asset_id: i64) -> (number: i64)
    ensures
        number == largest_number(version_rows(versions@), asset_id),
{
    let ghost all = version_rows(versions@);
    let mut number: i64 = 0;
    let mut i: usize = 0;
    while i < versions.len()
        invariant
            i <= versions@.len(),
            all == version_rows(versions@),
            number == largest_number(all.take(i as int), asset_id),
        decreases versions@.len() - i,
    {
        assert(all.take(i + 1).drop_last() =~= all.take(i as int));
        assert(all.take(i + 1).last() == versions@[i as int]@);
        if versions[i].asset_id == asset_id && versions[i].version_number > number {
            number = versions[i].version_number;
        }
        i = i + 1;
    }
    assert(all.take(i as int) =~= all);
    number
}

fn position_of(assets: &Vec<CatalogAsset>, key: &str) -> (at: usize)
    ensures
        at == asset_position(asset_rows(assets@), key@),
{
    let ghost all = asset_rows(assets@);
    let mut at: usize = 0;
    let mut i: usize = 0;
    while i < assets.len()
        invariant
            i <= assets@.len(),
            at <= i,
            all == asset_rows(assets@),
            at == asset_position(all.take(i as int), key@),
        decreases assets@.len() - i,
    {
        assert(all.take(i + 1).drop_last() =~= all.take(i as int));
        assert(all.take(i + 1).last() == assets@[i as int]@);
        if at == i && !same(&assets[i].asset_key, key) {
            at = i + 1;
        }
        i = i + 1;
    }
    assert(all.take(i as int) =~= all);
    at
}

fn digest_of_version(versions: &Vec<CatalogVersion>, id: i64, asset_id: i64) -> (digest: Option<
    &str,
>)
    ensures
        match digest {
            Some(digest) => find_version(version_rows(versions@), id, asset_id) matches Some(
                version,
            ) && version.sha256 == digest@,
            None => find_version(version_rows(versions@), id, asset_id) is None,
        },
{
    match version_with(versions, id, asset_id) {
        Some(version) => Some(version.sha256.as_str()),
        None => None,
    }
}

fn version_with(versions: &Vec<CatalogVersion>, id: i64, asset_id: i64) -> (found: Option<
    &CatalogVersion,
>)
    ensures
        match found {
            Some(version) => find_version(version_rows(versions@), id, asset_id) == Some(version@),
            None => find_version(version_rows(versions@), id, asset_id) is None,
        },
{
    let ghost all = version_rows(versions@);
    let mut found: Option<&CatalogVersion> = None;
    let mut i: usize = 0;
    while i < versions.len()
        invariant
            i <= versions@.len(),
            all == version_rows(versions@),
            match found {
                Some(version) => find_version(all.take(i as int), id, asset_id) == Some(version@),
                None => find_version(all.take(i as int), id, asset_id) is None,
            },
        decreases versions@.len() - i,
    {
        assert(all.take(i + 1).drop_last() =~= all.take(i as int));
        assert(all.take(i + 1).last() == versions@[i as int]@);
        if found.is_none() && versions[i].id == id && versions[i].asset_id == asset_id {
            found = Some(&versions[i]);
        }
        i = i + 1;
    }
    assert(all.take(i as int) =~= all);
    found
}

fn insert_version(
    versions: &mut Vec<CatalogVersion>,
    asset_id: i64,
    asset: &AssetMeta,
    now: i64,
) -> (result: Result<i64, CatalogError>)
    ensures
        match result {
            Ok(id) => new_version(version_rows(old(versions)@), asset_id, asset@, now) matches Ok(
                version,
            ) && id == version.id && version_rows(final(versions)@) == version_rows(
                old(versions)@,
            ).push(version),
            Err(error) => new_version(version_rows(old(versions)@), asset_id, asset@, now) == Err::<
                VersionRow,
                CatalogError,
            >(error),
        },
{
    let number = last_number(versions, asset_id);
    if number == i64::MAX {
        return Err(CatalogError::DatabaseUnavailable);
    }
    if asset.size() > i64::MAX as u64 {
        return Err(CatalogError::PublishedIndexMismatch);
    }
    let last = last_version_id(versions);
    if last == i64::MAX {
        return Err(CatalogError::DatabaseUnavailable);
    }
    let version = CatalogVersion {
        id: last + 1,
        asset_id,
        version_number: number + 1,
        sha256: asset.sha256().to_owned(),
        mime_type: asset.mime().to_owned(),
        byte_size: asset.size() as i64,
        storage_driver: STORAGE_DRIVER_FILESYSTEM.to_owned(),
        storage_key: asset.asset_key().to_owned(),
        status: VersionStatus::Published,
        created_at: now,
        published_at: Some(now),
    };
    let ghost before = version_rows(versions@);
    let ghost row = version@;
    versions.push(version);
    assert(version_rows(versions@) =~= before.push(row));
    Ok(last + 1)
}

fn ensure_asset(assets: &mut Vec<CatalogAsset>, key: &str, now: i64) -> (result: Result<
    usize,
    CatalogError,
>)
    ensures
        match result {
            Ok(at) => with_asset(asset_rows(old(assets)@), key@, now) == Ok::<_, CatalogError>(
                asset_rows(final(assets)@),
            ) && at == asset_position(asset_rows(final(assets)@), key@) && at < final(assets)@.len(),
            Err(error) => with_asset(asset_rows(old(assets)@), key@, now) == Err::<
                Seq<AssetRow>,
                CatalogError,
            >(error),
        },
{
    let at = position_of(assets, key);
    if at < assets.len() {
        return Ok(at);
    }
    let last = last_asset_id(assets);
    if last == i64::MAX {
        return Err(CatalogError::DatabaseUnavailable);
    }
    let row = CatalogAsset {
        id: last + 1,
        asset_key: key.to_owned(),
        current_version_id: None,
        created_at: now,
        updated_at: now,
    };
    let ghost before = asset_rows(assets@);
    let ghost view = row@;
    proof {
        position_facts(before, key@);
    }
    assets.push(row);
    assert(asset_rows(assets@) =~= before.push(view));
    assert(asset_rows(assets@).drop_last() =~= before);
    Ok(at)
}

/// The place of a picture is that of a picture with the key, or there is none.
pub proof fn position_facts(assets: Seq<AssetRow>, key: Seq<char>)
    ensures
        asset_position(assets, key) <= assets.len(),
        asset_position(assets, key) < assets.len() ==> assets[asset_position(
            assets,
            key,
        ) as int].asset_key == key,
        asset_position(assets, key) == assets.len() ==> forall|i: int|
            0 <= i < assets.len() ==> (#[trigger] assets[i]).asset_key != key,
    decreases assets.len(),
{
    if assets.len() > 0 {
        position_facts(assets.drop_last(), key);
        assert forall|i: int|
            asset_position(assets, key) == assets.len() && 0 <= i < assets.len() implies (
        #[trigger] assets[i]).asset_key != key by {
            if i < assets.len() - 1 {
                assert(assets.drop_last()[i] == assets[i]);
            }
        }
    }
}

/// Publishes one picture.
pub fn publish_asset(catalog: Catalog, asset: &AssetMeta, now: i64) -> (result: Result<
    Catalog,
    CatalogError,
>)
    ensures
        match result {
            Ok(after) => after_publishing(catalog@, asset@, now) == Ok::<State, CatalogError>(
                after@,
            ),
            Err(error) => after_publishing(catalog@, asset@, now) == Err::<State, CatalogError>(
                error,
            ),
        },
{
    let ghost before = catalog@;
    let Catalog { mut assets, mut versions } = catalog;
    let at = match ensure_asset(&mut assets, asset.asset_key(), now) {
        Ok(at) => at,
        Err(error) => return Err(error),
    };
    let ghost rows = asset_rows(assets@);
    assert(rows[at as int] == assets@[at as int]@);
    let asset_id = assets[at].id;
    let current = assets[at].current_version_id;
    let kept = match current {
        Some(current) => match digest_of_version(&versions, current, asset_id) {
            None => return Err(CatalogError::SchemaInvalid),
            Some(digest) => same(digest, asset.sha256()),
        },
        None => false,
    };
    let version_id = if kept {
        current.unwrap()
    } else {
        match insert_version(&mut versions, asset_id, asset, now) {
            Ok(id) => id,
            Err(error) => return Err(error),
        }
    };
    match current {
        Some(previous) => if !kept {
            disable(&mut versions, previous);
        },
        None => {},
    }
    mark_published(&mut versions, version_id, now);
    assets[at].current_version_id = Some(version_id);
    assets[at].updated_at = now;
    let after = Catalog { assets, versions };
    proof {
        let row = AssetRow { current: Some(version_id), updated_at: now, ..rows[at as int] };
        assert(after@.assets =~= rows.update(at as int, row));
    }
    Ok(after)
}

/// Ends the publication of pictures that are gone.
pub fn disable_missing_assets(catalog: Catalog, index: &MediaIndex, now: i64) -> (after: Catalog)
    ensures
        forall|list: Seq<media::Asset>| #[trigger]
            media::is_listing(list, index@.by_key) ==> after@ == after_removing(
                catalog@,
                list,
                now,
            ),
{
    let ghost before = catalog@;
    let Catalog { mut assets, mut versions } = catalog;
    let ghost keys = index@.by_key;
    let mut i: usize = 0;
    assert(before.assets.take(0) =~= Seq::empty());
    while i < assets.len()
        invariant
            i <= assets@.len() == before.assets.len(),
            keys == index@.by_key,
            version_rows(versions@) == without_keys(before.versions, before.assets.take(i as int), keys),
            forall|j: int|
                0 <= j < i ==> asset_rows(assets@)[j] == kept_under(before.assets[j], keys, now),
            forall|j: int| i <= j < assets@.len() ==> asset_rows(assets@)[j] == before.assets[j],
        decreases assets@.len() - i,
    {
        let ghost middle = assets@;
        assert(asset_rows(middle)[i as int] == before.assets[i as int]);
        assert(before.assets.take(i + 1).drop_last() =~= before.assets.take(i as int));
        match assets[i].current_version_id {
            Some(current) => {
                if index.get(&assets[i].asset_key).is_none() {
                    disable(&mut versions, current);
                    assets[i].current_version_id = None;
                    assets[i].updated_at = now;
                }
            },
            None => {},
        }
        assert forall|j: int| 0 <= j < assets@.len() implies asset_rows(assets@)[j] == (if j == i {
            kept_under(before.assets[j], keys, now)
        } else {
            asset_rows(middle)[j]
        }) by {
            if j != i {
                assert(assets@[j] == middle[j]);
            }
        }
        i = i + 1;
    }
    assert(before.assets.take(i as int) =~= before.assets);
    let after = Catalog { assets, versions };
    assert forall|list: Seq<media::Asset>| #[trigger]
        media::is_listing(list, index@.by_key) implies after@ == after_removing(
        before,
        list,
        now,
    ) by {
        lemma_listed_keys(before.versions, before.assets, list, keys);
        assert(after@.assets =~= after_removing(before, list, now).assets) by {
            assert forall|j: int| 0 <= j < before.assets.len() implies #[trigger] after@.assets[j]
                == kept_row(before.assets[j], list, now) by {
                lemma_listed_key(list, keys, before.assets[j].asset_key);
            }
        }
    }
    after
}

spec fn kept_under(row: AssetRow, keys: Map<Seq<char>, media::Asset>, now: i64) -> AssetRow {
    if row.current is Some && !keys.contains_key(row.asset_key) {
        AssetRow { current: None, updated_at: now, ..row }
    } else {
        row
    }
}

spec fn without_keys(
    versions: Seq<VersionRow>,
    assets: Seq<AssetRow>,
    keys: Map<Seq<char>, media::Asset>,
) -> Seq<VersionRow>
    decreases assets.len(),
{
    if assets.len() == 0 {
        versions
    } else {
        let earlier = without_keys(versions, assets.drop_last(), keys);
        match assets.last().current {
            Some(current) => if keys.contains_key(assets.last().asset_key) {
                earlier
            } else {
                with_disabled(earlier, current)
            },
            None => earlier,
        }
    }
}

proof fn lemma_listed_key(
    list: Seq<media::Asset>,
    keys: Map<Seq<char>, media::Asset>,
    key: Seq<char>,
)
    requires
        media::is_listing(list, keys),
    ensures
        media::lists(list, key) == keys.contains_key(key),
{
    if media::lists(list, key) {
        let i = choose|i: int| 0 <= i < list.len() && (#[trigger] list[i]).asset_key == key;
        assert(keys.contains_pair(list[i].asset_key, list[i]));
    }
}

proof fn lemma_listed_keys(
    versions: Seq<VersionRow>,
    assets: Seq<AssetRow>,
    list: Seq<media::Asset>,
    keys: Map<Seq<char>, media::Asset>,
)
    requires
        media::is_listing(list, keys),
    ensures
        without_missing(versions, assets, list) == without_keys(versions, assets, keys),
    decreases assets.len(),
{
    if assets.len() > 0 {
        lemma_listed_keys(versions, assets.drop_last(), list, keys);
        lemma_listed_key(list, keys, assets.last().asset_key);
    }
}

fn publish_all(catalog: Catalog, list: &Vec<&AssetMeta>, now: i64) -> (result: Result<
    Catalog,
    CatalogError,
>)
    ensures
        match result {
            Ok(after) => after_publishing_all(catalog@, media::asset_views(list@), now) == Ok::<
                State,
                CatalogError,
            >(after@),
            Err(error) => after_publishing_all(catalog@, media::asset_views(list@), now) == Err::<
                State,
                CatalogError,
            >(error),
        },
{
    let ghost before = catalog@;
    let ghost all = media::asset_views(list@);
    let mut current = catalog;
    let mut i: usize = 0;
    while i < list.len()
        invariant
            i <= list@.len(),
            all == media::asset_views(list@),
            after_publishing_all(before, all.take(i as int), now) == Ok::<State, CatalogError>(
                current@,
            ),
            before == catalog@,
        decreases list@.len() - i,
    {
        assert(all.take(i + 1).drop_last() =~= all.take(i as int));
        assert(all.take(i + 1).last() == list@[i as int]@);
        match publish_asset(current, list[i], now) {
            Ok(after) => {
                current = after;
            },
            Err(error) => {
                proof {
                    lemma_first_failure_stays(before, all, now, i + 1);
                }
                return Err(error);
            },
        }
        i = i + 1;
    }
    assert(all.take(i as int) =~= all);
    Ok(current)
}

proof fn lemma_first_failure_stays(state: State, list: Seq<media::Asset>, now: i64, k: int)
    requires
        0 <= k <= list.len(),
        after_publishing_all(state, list.take(k), now) is Err,
    ensures
        after_publishing_all(state, list, now) == after_publishing_all(state, list.take(k), now),
    decreases list.len() - k,
{
    if k < list.len() {
        assert(list.take(k + 1).drop_last() =~= list.take(k));
        lemma_first_failure_stays(state, list, now, k + 1);
    } else {
        assert(list.take(k) =~= list);
    }
}

/// The pictures with a current version that is published, and that version.
pub open spec fn current_versions(assets: Seq<AssetRow>, versions: Seq<VersionRow>) -> Seq<
    (Seq<char>, VersionRow),
>
    decreases assets.len(),
{
    if assets.len() == 0 {
        Seq::empty()
    } else {
        let earlier = current_versions(assets.drop_last(), versions);
        let row = assets.last();
        match row.current {
            Some(current) => match find_version(versions, current, row.id) {
                Some(version) => if version.status == VersionStatus::Published {
                    earlier.push((row.asset_key, version))
                } else {
                    earlier
                },
                None => earlier,
            },
            None => earlier,
        }
    }
}

/// How many versions are published.
pub open spec fn published_count(versions: Seq<VersionRow>) -> nat
    decreases versions.len(),
{
    if versions.len() == 0 {
        0
    } else {
        published_count(versions.drop_last()) + (if versions.last().status
            == VersionStatus::Published {
            1nat
        } else {
            0nat
        })
    }
}

/// Whether the current version of a picture is one of its own that is published.
pub open spec fn has_valid_current(row: AssetRow, versions: Seq<VersionRow>) -> bool {
    row.current matches Some(current) ==> find_version(versions, current, row.id) matches Some(
        version,
    ) && version.status == VersionStatus::Published
}

/// Whether a version describes a picture.
pub open spec fn describes(version: VersionRow, asset: media::Asset) -> bool {
    &&& version.sha256 == asset.sha256
    &&& version.mime == asset.mime
    &&& version.size == asset.size
    &&& version.driver == STORAGE_DRIVER_FILESYSTEM@
    &&& version.storage_key == asset.asset_key
}

/// Whether one of some versions describes the picture with its key.
pub open spec fn is_described(current: Seq<(Seq<char>, VersionRow)>, asset: media::Asset) -> bool {
    exists|i: int|
        0 <= i < current.len() && (#[trigger] current[i]).0 == asset.asset_key && describes(
            current[i].1,
            asset,
        )
}

/// Whether something is wrong with the rows of the current versions.
pub open spec fn rows_are_broken(current: Seq<(Seq<char>, VersionRow)>) -> bool {
    ||| exists|i: int| 0 <= i < current.len() && (#[trigger] current[i]).1.size < 0
    ||| exists|i: int, j: int|
        0 <= i < j < current.len() && (#[trigger] current[i]).0 == (#[trigger] current[j]).0
}

/// Whether a catalogue fits the pictures of an index: as many are published, each
/// current version is published, and each picture is described by its current version.
pub open spec fn validation(state: State, list: Seq<media::Asset>) -> Result<(), CatalogError> {
    let current = current_versions(state.assets, state.versions);
    if rows_are_broken(current) {
        Err(CatalogError::SchemaInvalid)
    } else if published_count(state.versions) == list.len() && current.len() == list.len() && (
    forall|i: int|
        0 <= i < state.assets.len() ==> has_valid_current(
            #[trigger] state.assets[i],
            state.versions,
        )) && (forall|i: int| 0 <= i < list.len() ==> is_described(current, #[trigger] list[i])) {
        Ok(())
    } else {
        Err(CatalogError::PublishedIndexMismatch)
    }
}

/// The contents of a list of current versions.
pub open spec fn current_views(list: Seq<(&str, &CatalogVersion)>) -> Seq<(Seq<char>, VersionRow)> {
    Seq::new(list.len(), |i: int| (list[i].0@, list[i].1@))
}

fn read_current_published_versions(catalog: &Catalog) -> (list: Vec<(&str, &CatalogVersion)>)
    ensures
        current_views(list@) == current_versions(catalog@.assets, catalog@.versions),
{
    let ghost rows = catalog@.assets;
    let ghost versions = catalog@.versions;
    let mut list: Vec<(&str, &CatalogVersion)> = Vec::new();
    let mut i: usize = 0;
    assert(current_views(list@) =~= current_versions(rows.take(0), versions));
    while i < catalog.assets.len()
        invariant
            i <= catalog.assets@.len(),
            rows == catalog@.assets,
            versions == catalog@.versions,
            current_views(list@) == current_versions(rows.take(i as int), versions),
        decreases catalog.assets@.len() - i,
    {
        assert(rows.take(i + 1).drop_last() =~= rows.take(i as int));
        assert(rows.take(i + 1).last() == catalog.assets@[i as int]@);
        let asset = &catalog.assets[i];
        match asset.current_version_id {
            Some(current) => {
                match version_with(&catalog.versions, current, asset.id) {
                    Some(version) => {
                        if version.status == VersionStatus::Published {
                            let ghost earlier = current_views(list@);
                            list.push((asset.asset_key.as_str(), version));
                            assert(current_views(list@) =~= earlier.push(
                                (asset.asset_key@, version@),
                            ));
                        }
                    },
                    None => {},
                }
            },
            None => {},
        }
        i = i + 1;
    }
    assert(rows.take(i as int) =~= rows);
    list
}

fn rows_broken(list: &Vec<(&str, &CatalogVersion)>) -> (answer: bool)
    ensures
        answer == rows_are_broken(current_views(list@)),
{
    let ghost views = current_views(list@);
    let mut i: usize = 0;
    while i < list.len()
        invariant
            i <= list@.len(),
            views == current_views(list@),
            forall|j: int| 0 <= j < i ==> (#[trigger] views[j]).1.size >= 0,
            forall|j: int, k: int|
                0 <= j < k < i ==> (#[trigger] views[j]).0 != (#[trigger] views[k]).0,
        decreases list@.len() - i,
    {
        assert(views[i as int] == (list@[i as int].0@, list@[i as int].1@));
        if list[i].1.byte_size < 0 {
            return true;
        }
        let mut k: usize = 0;
        while k < i
            invariant
                k <= i < list@.len(),
                views == current_views(list@),
                forall|j: int| 0 <= j < k ==> (#[trigger] views[j]).0 != views[i as int].0,
            decreases i - k,
        {
            assert(views[k as int] == (list@[k as int].0@, list@[k as int].1@));
            assert(views[i as int] == (list@[i as int].0@, list@[i as int].1@));
            if same(list[k].0, list[i].0) {
                assert(views[k as int].0 == views[i as int].0);
                return true;
            }
            k = k + 1;
        }
        i = i + 1;
    }
    false
}

fn count_published(versions: &Vec<CatalogVersion>) -> (count: usize)
    ensures
        count == published_count(version_rows(versions@)),
{
    let ghost all = version_rows(versions@);
    let mut count: usize = 0;
    let mut i: usize = 0;
    while i < versions.len()
        invariant
            count <= i <= versions.len(),
            all == version_rows(versions@),
            count == published_count(all.take(i as int)),
        decreases versions@.len() - i,
    {
        assert(all.take(i + 1).drop_last() =~= all.take(i as int));
        assert(all.take(i + 1).last() == versions@[i as int]@);
        if versions[i].status == VersionStatus::Published {
            count = count + 1;
        }
        i = i + 1;
    }
    assert(all.take(i as int) =~= all);
    count
}

fn current_versions_are_valid(catalog: &Catalog) -> (answer: bool)
    ensures
        answer == forall|i: int|
            0 <= i < catalog@.assets.len() ==> has_valid_current(
                #[trigger] catalog@.assets[i],
                catalog@.versions,
            ),
{
    let ghost rows = catalog@.assets;
    let mut i: usize = 0;
    while i < catalog.assets.len()
        invariant
            i <= catalog.assets@.len(),
            rows == catalog@.assets,
            forall|j: int|
                0 <= j < i ==> has_valid_current(#[trigger] rows[j], catalog@.versions),
        decreases catalog.assets@.len() - i,
    {
        assert(rows[i as int] == catalog.assets@[i as int]@);
        match catalog.assets[i].current_version_id {
            Some(current) => {
                match version_with(&catalog.versions, current, catalog.assets[i].id) {
                    Some(version) => {
                        if version.status != VersionStatus::Published {
                            assert(!has_valid_current(rows[i as int], catalog@.versions));
                            return false;
                        }
                    },
                    None => {
                        assert(!has_valid_current(rows[i as int], catalog@.versions));
                        return false;
                    },
                }
            },
            None => {},
        }
        i = i + 1;
    }
    true
}

fn version_describes(version: &CatalogVersion, asset: &AssetMeta) -> (answer: bool)
    ensures
        answer == describes(version@, asset@),
{
    same(&version.sha256, asset.sha256()) && same(&version.mime_type, asset.mime())
        && version.byte_size >= 0 && version.byte_size as u64 == asset.size() && same(
        &version.storage_driver,
        STORAGE_DRIVER_FILESYSTEM,
    ) && same(&version.storage_key, asset.asset_key())
}

fn any_describes(list: &Vec<(&str, &CatalogVersion)>, asset: &AssetMeta) -> (answer: bool)
    ensures
        answer == is_described(current_views(list@), asset@),
{
    let ghost views = current_views(list@);
    let mut i: usize = 0;
    while i < list.len()
        invariant
            i <= list@.len(),
            views == current_views(list@),
            forall|j: int|
                0 <= j < i ==> !((#[trigger] views[j]).0 == asset@.asset_key && describes(
                    views[j].1,
                    asset@,
                )),
        decreases list@.len() - i,
    {
        assert(views[i as int] == (list@[i as int].0@, list@[i as int].1@));
        if same(list[i].0, asset.asset_key()) && version_describes(list[i].1, asset) {
            return true;
        }
        i = i + 1;
    }
    false
}

fn all_described(current: &Vec<(&str, &CatalogVersion)>, list: &Vec<&AssetMeta>) -> (answer: bool)
    ensures
        answer == forall|i: int|
            0 <= i < list@.len() ==> is_described(
                current_views(current@),
                #[trigger] media::asset_views(list@)[i],
            ),
{
    let ghost views = media::asset_views(list@);
    let mut i: usize = 0;
    while i < list.len()
        invariant
            i <= list@.len(),
            views == media::asset_views(list@),
            forall|j: int|
                0 <= j < i ==> is_described(current_views(current@), #[trigger] views[j]),
        decreases list@.len() - i,
    {
        assert(views[i as int] == list@[i as int]@);
        if !any_describes(current, list[i]) {
            return false;
        }
        i = i + 1;
    }
    true
}

/// Checks that a catalogue fits an index.
pub fn validate_published_catalog(index: &MediaIndex, catalog: &Catalog) -> (result: Result<
    (),
    CatalogError,
>)
    ensures
        result == validation(catalog@, media::listing(index@.by_key)),
{
    let list = index.assets();
    let ghost views = media::asset_views(list@);
    let current = read_current_published_versions(catalog);
    if rows_broken(&current) {
        return Err(CatalogError::SchemaInvalid);
    }
    if count_published(&catalog.versions) == list.len() && current.len() == list.len()
        && current_versions_are_valid(catalog) && all_described(&current, &list) {
        Ok(())
    } else {
        Err(CatalogError::PublishedIndexMismatch)
    }
}

/// What becomes of a release: the catalogue after it, and whether it fits the index.
pub struct Release {
    pub catalog: Catalog,
    pub validated: Result<(), CatalogError>,
}

/// Publishes the pictures of an index. Where that fails nothing is to be written.
pub fn publish_catalog(index: &MediaIndex, catalog: Catalog, now: i64) -> (result: Result<
    Release,
    CatalogError,
>)
    ensures
        match after_release(catalog@, media::listing(index@.by_key), now) {
            Ok(after) => result matches Ok(release) && release.catalog@ == after
                && release.validated == validation(after, media::listing(index@.by_key)),
            Err(error) => result matches Err(reason) && reason == error,
        },
{
    let list = index.assets();
    match publish_all(catalog, &list, now) {
        Ok(after) => {
            let after = disable_missing_assets(after, index, now);
            let validated = validate_published_catalog(index, &after);
            Ok(Release { catalog: after, validated })
        },
        Err(error) => Err(error),
    }
}

/// Whether the form of a catalogue has to be created, given its version.
pub fn migrate(version: Option<i64>) -> (result: Result<bool, CatalogError>)
    ensures
        result == (match version {
            None => Ok(true),
            Some(version) => if version == CATALOG_SCHEMA_VERSION {
                Ok(false)
            } else {
                Err(CatalogError::SchemaInvalid)
            },
        }),
{
    match version {
        None => Ok(true),
        Some(version) => if version == CATALOG_SCHEMA_VERSION {
            Ok(false)
        } else {
            Err(CatalogError::SchemaInvalid)
        },
    }
}

/// Checks the form of a catalogue: how often its version is recorded, how many other
/// versions are, whether its tables have their columns, and whether a row refers to
/// another that does not exist. `None` where the question could not be answered.
pub fn validate_schema(
    recorded: Option<i64>,
    unknown: Option<i64>,
    columns_exist: bool,
    broken_reference: Option<bool>,
) -> (result: Result<(), CatalogError>)
    ensures
        result == (if recorded == Some(1i64) && unknown == Some(0i64) && columns_exist
            && broken_reference == Some(false) {
            Ok(())
        } else {
            Err(CatalogError::SchemaInvalid)
        }),
{
    match (recorded, unknown, broken_reference) {
        (Some(1), Some(0), Some(false)) => if columns_exist {
            Ok(())
        } else {
            Err(CatalogError::SchemaInvalid)
        },
        _ => Err(CatalogError::SchemaInvalid),
    }
}

} // verus!
