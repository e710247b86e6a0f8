//! The catalogue of illustrations: which picture shows which thing of the game.
use crate::catalog_laws;
use crate::config;
use crate::config::{is_safe_asset_key, validate_public_https_url};
use crate::text;
use crate::text::{any_control, blank, cat2, cat3, same, usize_text};
use vstd::prelude::*;
use vstd::string::*;

verus! {

/// The version of the catalogue's form.
pub const MANIFEST_SCHEMA_VERSION: u16 = 1;

/// How many illustrations the catalogue lists.
pub const EXPECTED_BINDING_COUNT: usize = 19;

/// The size at which a picture is shown.
#[derive(Clone, Copy, Debug, PartialEq, Eq, Structural)]
pub struct DisplaySize {
    pub width: u16,
    pub height: u16,
}

/// One illustration of the catalogue.
#[derive(Clone, Debug, PartialEq, Eq)]
pub struct IllustrationBinding {
    pub entity_type: String,
    pub entity_key: String,
    pub media_role: String,
    pub asset_key: String,
    pub alt: String,
    pub display: DisplaySize,
    pub distribution: String,
    pub direct_url: Option<String>,
}

/// A catalogue as it is written down.
#[derive(Clone, Debug, PartialEq, Eq)]
pub struct ManifestFile {
    pub schema_version: u16,
    pub bindings: Vec<IllustrationBinding>,
}

/// The mathematical form of an illustration of the catalogue.
pub struct Binding {
    pub entity_type: Seq<char>,
    pub entity_key: Seq<char>,
    pub media_role: Seq<char>,
    pub asset_key: Seq<char>,
    pub alt: Seq<char>,
    pub display: DisplaySize,
    pub distribution: Seq<char>,
    pub direct_url: Option<Seq<char>>,
}

impl View for IllustrationBinding {
    type V = Binding;

    open spec fn view(&self) -> Binding {
        Binding {
            entity_type: self.entity_type@,
            entity_key: self.entity_key@,
            media_role: self.media_role@,
            asset_key: self.asset_key@,
            alt: self.alt@,
            display: self.display,
            distribution: self.distribution@,
            direct_url: text::optional_text(self.direct_url),
        }
    }
}

/// The contents of a list of illustrations.
pub open spec fn bindings_view(list: Seq<IllustrationBinding>) -> Seq<Binding> {
    Seq::new(list.len(), |i: int| list[i]@)
}

impl View for ManifestFile {
    type V = (u16, Seq<Binding>);

    open spec fn view(&self) -> (u16, Seq<Binding>) {
        (self.schema_version, bindings_view(self.bindings@))
    }
}

/// The asset keys that the catalogue has to list.
pub open spec fn expected_asset_keys() -> Seq<Seq<char>> {
    seq![
        "maps/holy-soul-village/cover.webp"@,
        "maps/tiandou-imperial-city/cover.webp"@,
        "maps/novice-village/cover.webp"@,
        "maps/sunset-forest/cover.webp"@,
        "maps/silves/cover.webp"@,
        "wuhun/lone-wolf/portrait.webp"@,
        "wuhun/carrot/portrait.webp"@,
        "wuhun/sickle/portrait.webp"@,
        "wuhun/bread/portrait.webp"@,
        "wuhun/dragon-god-bloodline/portrait.webp"@,
        "soul-beasts/slime/battle.webp"@,
        "soul-beasts/goblin/battle.webp"@,
        "soul-rings/white/icon.webp"@,
        "soul-rings/yellow/icon.webp"@,
        "soul-rings/purple/icon.webp"@,
        "soul-rings/black/icon.webp"@,
        "soul-rings/red/icon.webp"@,
        "soul-rings/orange/icon.webp"@,
        "soul-rings/gold/icon.webp"@,
    ]
}

fn expected_keys() -> (keys: Vec<&'static str>)
    ensures
        keys@.len() == expected_asset_keys().len(),
        forall|i: int| 0 <= i < keys@.len() ==> (#[trigger] keys@[i])@ == expected_asset_keys()[i],
{
    vec![
        "maps/holy-soul-village/cover.webp",
        "maps/tiandou-imperial-city/cover.webp",
        "maps/novice-village/cover.webp",
        "maps/sunset-forest/cover.webp",
        "maps/silves/cover.webp",
        "wuhun/lone-wolf/portrait.webp",
        "wuhun/carrot/portrait.webp",
        "wuhun/sickle/portrait.webp",
        "wuhun/bread/portrait.webp",
        "wuhun/dragon-god-bloodline/portrait.webp",
        "soul-beasts/slime/battle.webp",
        "soul-beasts/goblin/battle.webp",
        "soul-rings/white/icon.webp",
        "soul-rings/yellow/icon.webp",
        "soul-rings/purple/icon.webp",
        "soul-rings/black/icon.webp",
        "soul-rings/red/icon.webp",
        "soul-rings/orange/icon.webp",
        "soul-rings/gold/icon.webp",
    ]
}

/// The role that pictures of a kind of thing have.
pub open spec fn role_of(entity_type: Seq<char>) -> Option<Seq<char>> {
    if entity_type == "map"@ {
        Some("cover"@)
    } else if entity_type == "wuhun"@ {
        Some("portrait"@)
    } else if entity_type == "soul_beast"@ {
        Some("battle"@)
    } else if entity_type == "soul_ring"@ {
        Some("icon"@)
    } else {
        None
    }
}

fn expected_role(entity_type: &str) -> (role: Option<&'static str>)
    ensures
        match role {
            Some(role) => role_of(entity_type@) == Some(role@),
            None => role_of(entity_type@) is None,
        },
{
    if same(entity_type, "map") {
        Some("cover")
    } else if same(entity_type, "wuhun") {
        Some("portrait")
    } else if same(entity_type, "soul_beast") {
        Some("battle")
    } else if same(entity_type, "soul_ring") {
        Some("icon")
    } else {
        None
    }
}

/// A name or a caption: not blank, up to eighty characters, no control characters.
pub open spec fn is_caption(value: Seq<char>) -> bool {
    !text::is_blank(value) && value.len() <= 80 && !text::has_control(value)
}

fn caption(value: &str) -> (answer: bool)
    ensures
        answer == is_caption(value@),
{
    !blank(value) && value.unicode_len() <= 80 && !any_control(value)
}

/// Whether two illustrations show the same thing in the same role.
pub open spec fn same_subject(a: Binding, b: Binding) -> bool {
    a.entity_type == b.entity_type && a.entity_key == b.entity_key && a.media_role == b.media_role
}

/// The first rule that an illustration breaks, given those listed before it.
pub open spec fn binding_error(binding: Binding, earlier: Seq<Binding>) -> Option<Seq<char>> {
    if role_of(binding.entity_type) is None {
        Some("内置插图 manifest 包含未知 entity_type"@)
    } else if role_of(binding.entity_type) != Some(binding.media_role) {
        Some("内置插图 manifest 的 media_role 与 entity_type 不匹配"@)
    } else if !is_caption(binding.entity_key) {
        Some("内置插图 manifest 的 entity_key 无效"@)
    } else if !is_caption(binding.alt) {
        Some("内置插图 manifest 的 alt 无效"@)
    } else if !config::is_asset_key(binding.asset_key) {
        Some("内置插图 manifest 包含不安全 asset_key"@)
    } else if exists|i: int|
        0 <= i < earlier.len() && same_subject(#[trigger] earlier[i], binding) {
        Some("内置插图 manifest 包含重复实体绑定"@)
    } else if exists|i: int|
        0 <= i < earlier.len() && (#[trigger] earlier[i]).asset_key == binding.asset_key {
        Some("内置插图 manifest 包含重复 asset_key"@)
    } else if binding.distribution != "not_bundled"@ {
        Some("公开插图 manifest 只能声明 not_bundled 资源"@)
    } else if binding.display.width == 0 || binding.display.height == 0 || binding.display.width
        > 4096 || binding.display.height > 4096 {
        Some("内置插图 manifest 的 display 尺寸无效"@)
    } else if binding.direct_url is Some && !config::is_public_https_url(
        binding.direct_url->0,
        true,
    ) {
        Some("内置插图 manifest 的 direct_url 必须是公网 HTTPS"@)
    } else {
        None
    }
}

/// The first rule that a list of illustrations breaks.
pub open spec fn bindings_error(bindings: Seq<Binding>) -> Option<Seq<char>>
    decreases bindings.len(),
{
    if bindings.len() == 0 {
        None
    } else {
        match bindings_error(bindings.drop_last()) {
            Some(message) => Some(message),
            None => binding_error(bindings.last(), bindings.drop_last()),
        }
    }
}

/// How many illustrations show things of a kind.
pub open spec fn kind_count(bindings: Seq<Binding>, entity_type: Seq<char>) -> nat
    decreases bindings.len(),
{
    if bindings.len() == 0 {
        0
    } else {
        kind_count(bindings.drop_last(), entity_type) + (if bindings.last().entity_type
            == entity_type {
            1nat
        } else {
            0nat
        })
    }
}

/// The asset keys that a list of illustrations names.
pub open spec fn key_set(bindings: Seq<Binding>) -> Set<Seq<char>> {
    Set::new(|key: Seq<char>|
        exists|i: int| 0 <= i < bindings.len() && (#[trigger] bindings[i]).asset_key == key)
}

/// The asset keys that the catalogue has to list, as a set.
pub open spec fn expected_key_set() -> Set<Seq<char>> {
    Set::new(|key: Seq<char>|
        exists|i: int|
            0 <= i < expected_asset_keys().len() && #[trigger] expected_asset_keys()[i] == key)
}

/// The first kind of thing that is not shown as often as it should be.
pub open spec fn counts_error(bindings: Seq<Binding>) -> Option<Seq<char>> {
    if kind_count(bindings, "map"@) != 5 {
        Some("内置插图 manifest 的 "@ + "map"@ + " 数量不正确"@)
    } else if kind_count(bindings, "wuhun"@) != 5 {
        Some("内置插图 manifest 的 "@ + "wuhun"@ + " 数量不正确"@)
    } else if kind_count(bindings, "soul_beast"@) != 2 {
        Some("内置插图 manifest 的 "@ + "soul_beast"@ + " 数量不正确"@)
    } else if kind_count(bindings, "soul_ring"@) != 7 {
        Some("内置插图 manifest 的 "@ + "soul_ring"@ + " 数量不正确"@)
    } else {
        None
    }
}

/// The first rule that a catalogue breaks.
pub open spec fn manifest_error(manifest: (u16, Seq<Binding>)) -> Option<Seq<char>> {
    if manifest.0 != MANIFEST_SCHEMA_VERSION {
        Some("内置插图 manifest schema_version 必须为 "@ + text::decimal(1))
    } else if manifest.1.len() != EXPECTED_BINDING_COUNT {
        Some("内置插图 manifest 必须包含 "@ + text::decimal(19) + " 条绑定"@)
    } else {
        match bindings_error(manifest.1) {
            Some(message) => Some(message),
            None => if key_set(manifest.1) != expected_key_set() {
                Some("内置插图 manifest 的 asset_key 集合不符合首批资源契约"@)
            } else {
                counts_error(manifest.1)
            },
        }
    }
}

fn check_binding(list: &Vec<IllustrationBinding>, at: usize) -> (result: Result<(), String>)
    requires
        at < list@.len(),
    ensures
        config::failure(result) == binding_error(list@[at as int]@, bindings_view(list@).take(at as int)),
{
    let binding = &list[at];
    let ghost earlier = bindings_view(list@).take(at as int);
    match expected_role(&binding.entity_type) {
        None => return Err("内置插图 manifest 包含未知 entity_type".to_owned()),
        Some(role) => if !same(&binding.media_role, role) {
            return Err("内置插图 manifest 的 media_role 与 entity_type 不匹配".to_owned());
        },
    }
    if !caption(&binding.entity_key) {
        return Err("内置插图 manifest 的 entity_key 无效".to_owned());
    }
    if !caption(&binding.alt) {
        return Err("内置插图 manifest 的 alt 无效".to_owned());
    }
    if !is_safe_asset_key(&binding.asset_key) {
        return Err("内置插图 manifest 包含不安全 asset_key".to_owned());
    }
    let mut shown = false;
    let mut listed = false;
    let mut i: usize = 0;
    while i < at
        invariant
            i <= at < list@.len(),
            earlier == bindings_view(list@).take(at as int),
            *binding == list@[at as int],
            shown == exists|j: int| 0 <= j < i && same_subject(#[trigger] earlier[j], binding@),
            listed == exists|j: int|
                0 <= j < i && (#[trigger] earlier[j]).asset_key == binding@.asset_key,
        decreases at - i,
    {
        assert(earlier[i as int] == list@[i as int]@);
        if same(&list[i].entity_type, &binding.entity_type) && same(
            &list[i].entity_key,
            &binding.entity_key,
        ) && same(&list[i].media_role, &binding.media_role) {
            shown = true;
        }
        if same(&list[i].asset_key, &binding.asset_key) {
            listed = true;
        }
        i = i + 1;
    }
    if shown {
        return Err("内置插图 manifest 包含重复实体绑定".to_owned());
    }
    if listed {
        return Err("内置插图 manifest 包含重复 asset_key".to_owned());
    }
    if !same(&binding.distribution, "not_bundled") {
        return Err("公开插图 manifest 只能声明 not_bundled 资源".to_owned());
    }
    if binding.display.width == 0 || binding.display.height == 0 || binding.display.width > 4096
        || binding.display.height > 4096 {
        return Err("内置插图 manifest 的 display 尺寸无效".to_owned());
    }
    match &binding.direct_url {
        None => {},
        Some(url) => if validate_public_https_url(url, true).is_err() {
            return Err("内置插图 manifest 的 direct_url 必须是公网 HTTPS".to_owned());
        },
    }
    Ok(())
}

fn count_kind(list: &Vec<IllustrationBinding>, entity_type: &str) -> (count: usize)
    ensures
        count == kind_count(bindings_view(list@), entity_type@),
{
    let ghost all = bindings_view(list@);
    let mut count: usize = 0;
    let mut i: usize = 0;
    while i < list.len()
        invariant
            count <= i <= list.len(),
            all == bindings_view(list@),
            count == kind_count(all.take(i as int), entity_type@),
        decreases list@.len() - i,
    {
        assert(all.take(i + 1).drop_last() =~= all.take(i as int));
        assert(all.take(i + 1).last() == list@[i as int]@);
        if same(&list[i].entity_type, entity_type) {
            count = count + 1;
        }
        i = i + 1;
    }
    assert(all.take(i as int) =~= all);
    count
}

fn check_kind(list: &Vec<IllustrationBinding>, entity_type: &str, expected: usize) -> (result:
    Result<(), String>)
    ensures
        config::failure(result) == (if kind_count(bindings_view(list@), entity_type@) != expected {
            Some("内置插图 manifest 的 "@ + entity_type@ + " 数量不正确"@)
        } else {
            None
        }),
{
    if count_kind(list, entity_type) != expected {
        return Err(cat3("内置插图 manifest 的 ", entity_type, " 数量不正确"));
    }
    Ok(())
}

fn check_kinds(list: &Vec<IllustrationBinding>) -> (result: Result<(), String>)
    ensures
        config::failure(result) == counts_error(bindings_view(list@)),
{
    match check_kind(list, "map", 5) {
        Ok(_) => {},
        Err(message) => return Err(message),
    }
    match check_kind(list, "wuhun", 5) {
        Ok(_) => {},
        Err(message) => return Err(message),
    }
    match check_kind(list, "soul_beast", 2) {
        Ok(_) => {},
        Err(message) => return Err(message),
    }
    check_kind(list, "soul_ring", 7)
}

fn has_key(list: &Vec<IllustrationBinding>, key: &str) -> (answer: bool)
    ensures
        answer == key_set(bindings_view(list@)).contains(key@),
{
    let ghost all = bindings_view(list@);
    let mut i: usize = 0;
    while i < list.len()
        invariant
            i <= list@.len(),
            all == bindings_view(list@),
            forall|j: int| 0 <= j < i ==> (#[trigger] all[j]).asset_key != key@,
        decreases list@.len() - i,
    {
        assert(all[i as int] == list@[i as int]@);
        if same(&list[i].asset_key, key) {
            return true;
        }
        i = i + 1;
    }
    false
}

fn expects_key(keys: &Vec<&'static str>, key: &str) -> (answer: bool)
    requires
        keys@.len() == expected_asset_keys().len(),
        forall|i: int| 0 <= i < keys@.len() ==> (#[trigger] keys@[i])@ == expected_asset_keys()[i],
    ensures
        answer == expected_key_set().contains(key@),
{
    let mut i: usize = 0;
    while i < keys.len()
        invariant
            i <= keys@.len() == expected_asset_keys().len(),
            forall|j: int|
                0 <= j < keys@.len() ==> (#[trigger] keys@[j])@ == expected_asset_keys()[j],
            forall|j: int| 0 <= j < i ==> #[trigger] expected_asset_keys()[j] != key@,
        decreases keys@.len() - i,
    {
        assert(keys@[i as int]@ == expected_asset_keys()[i as int]);
        if same(keys[i], key) {
            return true;
        }
        i = i + 1;
    }
    false
}

fn lists_expected_keys(list: &Vec<IllustrationBinding>) -> (answer: bool)
    ensures
        answer == (key_set(bindings_view(list@)) == expected_key_set()),
{
    let ghost all = bindings_view(list@);
    let keys = expected_keys();
    let mut i: usize = 0;
    while i < list.len()
        invariant
            i <= list@.len(),
            all == bindings_view(list@),
            keys@.len() == expected_asset_keys().len(),
            forall|j: int|
                0 <= j < keys@.len() ==> (#[trigger] keys@[j])@ == expected_asset_keys()[j],
            forall|j: int| 0 <= j < i ==> expected_key_set().contains((#[trigger] all[j]).asset_key),
        decreases list@.len() - i,
    {
        assert(all[i as int] == list@[i as int]@);
        if !expects_key(&keys, &list[i].asset_key) {
            assert(key_set(all).contains(all[i as int].asset_key));
            return false;
        }
        i = i + 1;
    }
    let mut k: usize = 0;
    while k < keys.len()
        invariant
            k <= keys@.len() == expected_asset_keys().len(),
            all == bindings_view(list@),
            forall|j: int|
                0 <= j < keys@.len() ==> (#[trigger] keys@[j])@ == expected_asset_keys()[j],
            forall|j: int|
                0 <= j < k ==> key_set(all).contains(#[trigger] expected_asset_keys()[j]),
        decreases keys@.len() - k,
    {
        assert(keys@[k as int]@ == expected_asset_keys()[k as int]);
        if !has_key(list, keys[k]) {
            assert(expected_key_set().contains(expected_asset_keys()[k as int]));
            return false;
        }
        k = k + 1;
    }
    assert(key_set(all) =~= expected_key_set());
    true
}

/// Checks a catalogue.
pub fn validate_manifest(manifest: &ManifestFile) -> (result: Result<(), String>)
    ensures
        config::failure(result) == manifest_error(manifest@),
{
    if manifest.schema_version != MANIFEST_SCHEMA_VERSION {
        return Err(cat2("内置插图 manifest schema_version 必须为 ", &usize_text(1)));
    }
    let list = &manifest.bindings;
    if list.len() != EXPECTED_BINDING_COUNT {
        return Err(cat3("内置插图 manifest 必须包含 ", &usize_text(19), " 条绑定"));
    }
    let ghost all = bindings_view(list@);
    let mut i: usize = 0;
    while i < list.len()
        invariant
            i <= list@.len(),
            all == bindings_view(list@),
            manifest@ == (MANIFEST_SCHEMA_VERSION, all),
            all.len() == EXPECTED_BINDING_COUNT,
            bindings_error(all.take(i as int)) is None,
        decreases list@.len() - i,
    {
        assert(all.take(i + 1).drop_last() =~= all.take(i as int));
        assert(all.take(i + 1).last() == list@[i as int]@);
        match check_binding(list, i) {
            Ok(_) => {},
            Err(message) => {
                proof {
                    lemma_first_error_stays(all, i + 1);
                }
                return Err(message);
            },
        }
        i = i + 1;
    }
    assert(all.take(i as int) =~= all);
    if !lists_expected_keys(list) {
        return Err("内置插图 manifest 的 asset_key 集合不符合首批资源契约".to_owned());
    }
    check_kinds(list)
}

/// What a beginning of a list breaks, the whole list breaks.
proof fn lemma_first_error_stays(bindings: Seq<Binding>, k: int)
    requires
        0 <= k <= bindings.len(),
        bindings_error(bindings.take(k)) is Some,
    ensures
        bindings_error(bindings) == bindings_error(bindings.take(k)),
    decreases bindings.len() - k,
{
    if k < bindings.len() {
        assert(bindings.take(k + 1).drop_last() =~= bindings.take(k));
        lemma_first_error_stays(bindings, k + 1);
    } else {
        assert(bindings.take(k) =~= bindings);
    }
}

/// An illustration that is not bundled and has no address of its own.
pub open spec fn listed(
    entity_type: Seq<char>,
    entity_key: Seq<char>,
    media_role: Seq<char>,
    asset_key: Seq<char>,
    alt: Seq<char>,
    width: u16,
    height: u16,
) -> Binding {
    Binding {
        entity_type,
        entity_key,
        media_role,
        asset_key,
        alt,
        display: DisplaySize { width, height },
        distribution: "not_bundled"@,
        direct_url: None,
    }
}

fn list_entry(
    entity_type: &str,
    entity_key: &str,
    media_role: &str,
    asset_key: &str,
    alt: &str,
    width: u16,
    height: u16,
) -> (binding: IllustrationBinding)
    ensures
        binding@ == listed(
            entity_type@,
            entity_key@,
            media_role@,
            asset_key@,
            alt@,
            width,
            height,
        ),
{
    IllustrationBinding {
        entity_type: entity_type.to_owned(),
        entity_key: entity_key.to_owned(),
        media_role: media_role.to_owned(),
        asset_key: asset_key.to_owned(),
        alt: alt.to_owned(),
        display: DisplaySize { width, height },
        distribution: "not_bundled".to_owned(),
        direct_url: None,
    }
}

/// The illustrations of the built-in catalogue.
pub open spec fn embedded_bindings() -> Seq<Binding> {
    seq![
        listed("map"@, "圣魂村"@, "cover"@, "maps/holy-soul-village/cover.webp"@, "圣魂村地图"@, 640, 360),
        listed("map"@, "天斗帝国主城"@, "cover"@, "maps/tiandou-imperial-city/cover.webp"@, "天斗帝国主城地图"@, 640, 360),
        listed("map"@, "新手村"@, "cover"@, "maps/novice-village/cover.webp"@, "新手村地图"@, 640, 360),
        listed("map"@, "落日森林"@, "cover"@, "maps/sunset-forest/cover.webp"@, "落日森林地图"@, 640, 360),
        listed("map"@, "西尔维斯"@, "cover"@, "maps/silves/cover.webp"@, "西尔维斯地图"@, 640, 360),
        listed("wuhun"@, "独狼"@, "portrait"@, "wuhun/lone-wolf/portrait.webp"@, "独狼武魂"@, 640, 640),
        listed("wuhun"@, "胡萝卜"@, "portrait"@, "wuhun/carrot/portrait.webp"@, "胡萝卜武魂"@, 640, 640),
        listed("wuhun"@, "镰刀"@, "portrait"@, "wuhun/sickle/portrait.webp"@, "镰刀武魂"@, 640, 640),
        listed("wuhun"@, "面包"@, "portrait"@, "wuhun/bread/portrait.webp"@, "面包武魂"@, 640, 640),
        listed("wuhun"@, "龙神血脉"@, "portrait"@, "wuhun/dragon-god-bloodline/portrait.webp"@, "龙神血脉武魂"@, 640, 640),
        listed("soul_beast"@, "史莱姆"@, "battle"@, "soul-beasts/slime/battle.webp"@, "史莱姆"@, 640, 640),
        listed("soul_beast"@, "哥布林"@, "battle"@, "soul-beasts/goblin/battle.webp"@, "哥布林"@, 640, 640),
        listed("soul_ring"@, "white"@, "icon"@, "soul-rings/white/icon.webp"@, "白色魂环"@, 256, 256),
        listed("soul_ring"@, "yellow"@, "icon"@, "soul-rings/yellow/icon.webp"@, "黄色魂环"@, 256, 256),
        listed("soul_ring"@, "purple"@, "icon"@, "soul-rings/purple/icon.webp"@, "紫色魂环"@, 256, 256),
        listed("soul_ring"@, "black"@, "icon"@, "soul-rings/black/icon.webp"@, "黑色魂环"@, 256, 256),
        listed("soul_ring"@, "red"@, "icon"@, "soul-rings/red/icon.webp"@, "红色魂环"@, 256, 256),
        listed("soul_ring"@, "orange"@, "icon"@, "soul-rings/orange/icon.webp"@, "橙色魂环"@, 256, 256),
        listed("soul_ring"@, "gold"@, "icon"@, "soul-rings/gold/icon.webp"@, "金色魂环"@, 256, 256),
    ]
}

fn embedded_list() -> (list: Vec<IllustrationBinding>)
    ensures
        bindings_view(list@) == embedded_bindings(),
{
    let mut list: Vec<IllustrationBinding> = Vec::new();
    list.push(list_entry("map", "圣魂村", "cover", "maps/holy-soul-village/cover.webp", "圣魂村地图", 640, 360));
    list.push(list_entry("map", "天斗帝国主城", "cover", "maps/tiandou-imperial-city/cover.webp", "天斗帝国主城地图", 640, 360));
    list.push(list_entry("map", "新手村", "cover", "maps/novice-village/cover.webp", "新手村地图", 640, 360));
    list.push(list_entry("map", "落日森林", "cover", "maps/sunset-forest/cover.webp", "落日森林地图", 640, 360));
    list.push(list_entry("map", "西尔维斯", "cover", "maps/silves/cover.webp", "西尔维斯地图", 640, 360));
    list.push(list_entry("wuhun", "独狼", "portrait", "wuhun/lone-wolf/portrait.webp", "独狼武魂", 640, 640));
    list.push(list_entry("wuhun", "胡萝卜", "portrait", "wuhun/carrot/portrait.webp", "胡萝卜武魂", 640, 640));
    list.push(list_entry("wuhun", "镰刀", "portrait", "wuhun/sickle/portrait.webp", "镰刀武魂", 640, 640));
    list.push(list_entry("wuhun", "面包", "portrait", "wuhun/bread/portrait.webp", "面包武魂", 640, 640));
    list.push(list_entry("wuhun", "龙神血脉", "portrait", "wuhun/dragon-god-bloodline/portrait.webp", "龙神血脉武魂", 640, 640));
    list.push(list_entry("soul_beast", "史莱姆", "battle", "soul-beasts/slime/battle.webp", "史莱姆", 640, 640));
    list.push(list_entry("soul_beast", "哥布林", "battle", "soul-beasts/goblin/battle.webp", "哥布林", 640, 640));
    list.push(list_entry("soul_ring", "white", "icon", "soul-rings/white/icon.webp", "白色魂环", 256, 256));
    list.push(list_entry("soul_ring", "yellow", "icon", "soul-rings/yellow/icon.webp", "黄色魂环", 256, 256));
    list.push(list_entry("soul_ring", "purple", "icon", "soul-rings/purple/icon.webp", "紫色魂环", 256, 256));
    list.push(list_entry("soul_ring", "black", "icon", "soul-rings/black/icon.webp", "黑色魂环", 256, 256));
    list.push(list_entry("soul_ring", "red", "icon", "soul-rings/red/icon.webp", "红色魂环", 256, 256));
    list.push(list_entry("soul_ring", "orange", "icon", "soul-rings/orange/icon.webp", "橙色魂环", 256, 256));
    list.push(list_entry("soul_ring", "gold", "icon", "soul-rings/gold/icon.webp", "金色魂环", 256, 256));
    assert(bindings_view(list@) =~= embedded_bindings());
    list
}

/// The built-in catalogue, once it is checked.
pub open spec fn embedded_manifest() -> Result<Seq<Binding>, Seq<char>> {
    match manifest_error((MANIFEST_SCHEMA_VERSION, embedded_bindings())) {
        Some(message) => Err(message),
        None => Ok(embedded_bindings()),
    }
}

/// A list of illustrations of a result, as a mathematical value.
pub open spec fn bindings_outcome(result: Result<Vec<IllustrationBinding>, String>) -> Result<
    Seq<Binding>,
    Seq<char>,
> {
    match result {
        Ok(list) => Ok(bindings_view(list@)),
        Err(message) => Err(message@),
    }
}

/// The illustrations of the built-in catalogue, or what is wrong with it.
pub fn bindings() -> (result: Result<Vec<IllustrationBinding>, String>)
    ensures
        bindings_outcome(result) == embedded_manifest(),
        result is Ok,
{
    proof {
        catalog_laws::the_built_in_catalogue_is_valid();
    }
    let manifest = ManifestFile {
        schema_version: MANIFEST_SCHEMA_VERSION,
        bindings: embedded_list(),
    };
    match validate_manifest(&manifest) {
        Ok(_) => Ok(manifest.bindings),
        Err(message) => Err(message),
    }
}

/// Checks the built-in catalogue.
pub fn validate_embedded_manifest() -> (result: Result<(), String>)
    ensures
        config::failure(result) == manifest_error((MANIFEST_SCHEMA_VERSION, embedded_bindings())),
        result is Ok,
{
    match bindings() {
        Ok(_) => Ok(()),
        Err(message) => Err(message),
    }
}

/// The first illustration of a thing in a role.
pub open spec fn find_binding(
    bindings: Seq<Binding>,
    entity_type: Seq<char>,
    entity_key: Seq<char>,
    media_role: Seq<char>,
) -> Option<Binding>
    decreases bindings.len(),
{
    if bindings.len() == 0 {
        None
    } else if bindings[0].entity_type == entity_type && bindings[0].entity_key == entity_key
        && bindings[0].media_role == media_role {
        Some(bindings[0])
    } else {
        find_binding(bindings.skip(1), entity_type, entity_key, media_role)
    }
}

/// An optional illustration, as a mathematical value.
pub open spec fn optional_binding(binding: Option<IllustrationBinding>) -> Option<Binding> {
    match binding {
        Some(binding) => Some(binding@),
        None => None,
    }
}

/// The illustration of a thing in the built-in catalogue.
pub open spec fn embedded_binding(
    entity_type: Seq<char>,
    entity_key: Seq<char>,
    media_role: Seq<char>,
) -> Option<Binding> {
    match embedded_manifest() {
        Ok(bindings) => find_binding(bindings, entity_type, entity_key, media_role),
        Err(_) => None,
    }
}

/// Looks up the illustration of a thing in the built-in catalogue.
pub fn binding(entity_type: &str, entity_key: &str, media_role: &str) -> (found: Option<
    IllustrationBinding,
>)
    ensures
        optional_binding(found) == embedded_binding(entity_type@, entity_key@, media_role@),
{
    let mut list = match bindings() {
        Ok(list) => list,
        Err(_) => return None,
    };
    let ghost all = bindings_view(list@);
    let mut i: usize = 0;
    assert(all.skip(0) =~= all);
    while i < list.len()
        invariant
            i <= list@.len(),
            all == bindings_view(list@),
            find_binding(all, entity_type@, entity_key@, media_role@) == find_binding(
                all.skip(i as int),
                entity_type@,
                entity_key@,
                media_role@,
            ),
            embedded_manifest() == Ok::<Seq<Binding>, Seq<char>>(all),
        decreases list@.len() - i,
    {
        assert(all.skip(i as int)[0] == list@[i as int]@);
        assert(all.skip(i as int).skip(1) =~= all.skip(i + 1));
        if same(&list[i].entity_type, entity_type) && same(&list[i].entity_key, entity_key) && same(
            &list[i].media_role,
            media_role,
        ) {
            return Some(list.swap_remove(i));
        }
        i = i + 1;
    }
    None
}

/// The asset keys of the built-in catalogue, in its order.
pub fn asset_keys() -> (keys: Vec<String>)
    ensures
        text::texts(keys@) == (match embedded_manifest() {
            Ok(bindings) => Seq::new(bindings.len(), |i: int| bindings[i].asset_key),
            Err(_) => Seq::empty(),
        }),
        text::texts(keys@) == expected_asset_keys(),
{
    proof {
        catalog_laws::the_built_in_catalogue_is_valid();
    }
    let mut keys: Vec<String> = Vec::new();
    let list = match bindings() {
        Ok(list) => list,
        Err(_) => {
            assert(text::texts(keys@) =~= Seq::empty());
            return keys;
        },
    };
    let ghost all = bindings_view(list@);
    let mut i: usize = 0;
    while i < list.len()
        invariant
            i <= list@.len(),
            all == bindings_view(list@),
            text::texts(keys@) =~= Seq::new(i as nat, |j: int| all[j].asset_key),
        decreases list@.len() - i,
    {
        assert(all[i as int] == list@[i as int]@);
        text::push_text(&mut keys, list[i].asset_key.as_str().to_owned());
        i = i + 1;
    }
    assert(text::texts(keys@) =~= expected_asset_keys());
    keys
}

/// In a list that breaks no rule, no two illustrations share a key or show the same
/// thing in the same role.
pub proof fn valid_bindings_are_unambiguous(bindings: Seq<Binding>, i: int, j: int)
    requires
        bindings_error(bindings) is None,
        0 <= i < j < bindings.len(),
    ensures
        bindings[i].asset_key != bindings[j].asset_key,
        !same_subject(bindings[i], bindings[j]),
    decreases bindings.len(),
{
    if j < bindings.len() - 1 {
        valid_bindings_are_unambiguous(bindings.drop_last(), i, j);
    } else {
        assert(bindings.drop_last()[i] == bindings[i]);
    }
}

/// Each illustration of a list that breaks no rule has a safe key, a caption and a
/// size that an illustration may have, and, if it has an address, a public one.
pub proof fn valid_bindings_can_be_shown(bindings: Seq<Binding>, i: int)
    requires
        bindings_error(bindings) is None,
        0 <= i < bindings.len(),
    ensures
        config::is_asset_key(bindings[i].asset_key),
        is_caption(bindings[i].alt),
        0 < bindings[i].display.width <= 4096,
        0 < bindings[i].display.height <= 4096,
        bindings[i].direct_url matches Some(url) ==> config::is_public_https_url(url, true),
        role_of(bindings[i].entity_type) == Some(bindings[i].media_role),
    decreases bindings.len(),
{
    if i < bindings.len() - 1 {
        valid_bindings_can_be_shown(bindings.drop_last(), i);
    }
}

} // verus!
