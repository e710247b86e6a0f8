//! Public content that is taken out of an earlier database as a package.
use crate::config;
use crate::content::{
    ContentPackage, ItemPackageEntry, MapPackageEntry, NpcPackageEntry, NumericCurvePackageEntry,
    QuestPackageEntry, QuestRequirementPackageEntry, QuestRewardPackageEntry,
};
use crate::player_staging;
use crate::player_staging::{extension_is, has_text, FileFacts};
use crate::text;
use crate::text::{cat2, cat4, cat5, same, usize_text};
use vstd::prelude::*;
use vstd::string::*;

verus! {

/// The most rows that are read in all.
pub const MAX_PUBLIC_SEED_ROWS: usize = 10_000;

/// What a package of public content is told to say of itself.
#[derive(Clone, Debug, PartialEq, Eq)]
pub struct PublicSeedPackageMetadata {
    pub package_key: String,
    pub revision: i64,
    pub author: String,
    pub minimum_runtime: String,
}

/// The mathematical form of such metadata.
impl View for PublicSeedPackageMetadata {
    type V = (Seq<char>, int, Seq<char>, Seq<char>);

    open spec fn view(&self) -> (Seq<char>, int, Seq<char>, Seq<char>) {
        (self.package_key@, self.revision as int, self.author@, self.minimum_runtime@)
    }
}

/// Why a file is not read as the earlier database.
pub open spec fn seed_file_error(facts: FileFacts) -> Option<Seq<char>> {
    if facts.symlink {
        Some("公共种子源文件不能是符号链接"@)
    } else if !facts.regular {
        Some("公共种子源文件必须是常规 SQLite 文件"@)
    } else {
        None
    }
}

/// Checks a file before it is read as the earlier database.
pub fn check_seed_file(facts: FileFacts) -> (result: Result<(), String>)
    ensures
        config::failure(result) == seed_file_error(facts),
{
    if facts.symlink {
        return Err("公共种子源文件不能是符号链接".to_owned());
    }
    if !facts.regular {
        return Err("公共种子源文件必须是常规 SQLite 文件".to_owned());
    }
    Ok(())
}

/// The tables that the earlier database has to have.
pub open spec fn required_tables() -> Seq<Seq<char>> {
    seq![
        "map"@,
        "item"@,
        "npc"@,
        "quest"@,
        "quest_requirement"@,
        "quest_reward"@,
        "numeric_curve"@,
    ]
}

/// Why a database is not the earlier one: the first table that it lacks.
pub open spec fn tables_error(tables: Seq<Seq<char>>) -> Option<Seq<char>> {
    match player_staging::missing_column(required_tables(), tables) {
        Some(table) => Some("公共种子源库缺少必需表："@ + table),
        None => None,
    }
}

/// Checks that a database has all the tables that are read.
pub fn require_public_seed_tables(tables: &Vec<String>) -> (result: Result<(), String>)
    ensures
        config::failure(result) == tables_error(text::texts(tables@)),
{
    let required = vec![
        "map",
        "item",
        "npc",
        "quest",
        "quest_requirement",
        "quest_reward",
        "numeric_curve",
    ];
    let ghost all = required_tables();
    let ghost present = text::texts(tables@);
    assert forall|j: int| 0 <= j < required@.len() implies all[j] == #[trigger] required@[j]@ by {}
    let mut i: usize = 0;
    assert(all.skip(0) =~= all);
    while i < required.len()
        invariant
            i <= required@.len(),
            required@.len() == all.len(),
            all == required_tables(),
            present == text::texts(tables@),
            forall|j: int| 0 <= j < required@.len() ==> all[j] == #[trigger] required@[j]@,
            player_staging::missing_column(all, present) == player_staging::missing_column(
                all.skip(i as int),
                present,
            ),
        decreases required@.len() - i,
    {
        let ghost rest = all.skip(i as int);
        assert(rest[0] == required@[i as int]@);
        assert(rest.skip(1) =~= all.skip(i + 1));
        if !has_text(tables, required[i]) {
            return Err(cat2("公共种子源库缺少必需表：", required[i]));
        }
        i = i + 1;
    }
    assert(all.skip(i as int).len() == 0);
    Ok(())
}

/// How many rows were read so far, of all that may be read.
#[derive(Clone, Copy, Debug, PartialEq, Eq)]
pub struct PublicSeedReadBudget {
    pub used_rows: usize,
}

/// The refusal of a row too many.
pub open spec fn budget_refusal(table: Seq<char>) -> Seq<char> {
    "公共种子目录总行数不能超过 "@ + text::decimal(MAX_PUBLIC_SEED_ROWS as nat) + "，读取 "@ + table
        + " 时超出上限"@
}

impl PublicSeedReadBudget {
    /// Counts a row of a table.
    pub fn consume(&mut self, table: &str) -> (result: Result<(), String>)
        ensures
            match result {
                Ok(()) => old(self).used_rows < MAX_PUBLIC_SEED_ROWS && final(self).used_rows
                    == old(self).used_rows + 1,
                Err(message) => old(self).used_rows >= MAX_PUBLIC_SEED_ROWS && message@
                    == budget_refusal(table@) && *final(self) == *old(self),
            },
    {
        if self.used_rows >= MAX_PUBLIC_SEED_ROWS {
            return Err(
                cat5(
                    "公共种子目录总行数不能超过 ",
                    usize_text(MAX_PUBLIC_SEED_ROWS).as_str(),
                    "，读取 ",
                    table,
                    " 时超出上限",
                ),
            );
        }
        self.used_rows = self.used_rows + 1;
        Ok(())
    }
}

/// Why the rows of a table are not taken: too many in all, or the first that cannot be
/// read. An unread row is the reason why it cannot be read.
pub open spec fn rows_error<T>(
    rows: Seq<Result<T, String>>,
    used: nat,
    table: Seq<char>,
    label: Seq<char>,
    from: nat,
) -> Option<Seq<char>>
    decreases rows.len() - from,
{
    if from >= rows.len() {
        None
    } else if used + from >= MAX_PUBLIC_SEED_ROWS {
        Some(budget_refusal(table))
    } else {
        match rows[from as int] {
            Err(error) => Some("解析"@ + label + "公共种子失败："@ + error@),
            Ok(_) => rows_error(rows, used, table, label, from + 1),
        }
    }
}

/// The entries of rows that can all be read.
pub open spec fn entries_of<T>(rows: Seq<Result<T, String>>) -> Seq<T> {
    Seq::new(rows.len(), |i: int| rows[i]->Ok_0)
}

/// Takes the rows of a table.
pub fn take_rows<T>(
    rows: Vec<Result<T, String>>,
    table: &str,
    label: &str,
    budget: &mut PublicSeedReadBudget,
) -> (result: Result<Vec<T>, String>)
    requires
        old(budget).used_rows <= MAX_PUBLIC_SEED_ROWS,
    ensures
        config::failure(result) == rows_error(
            rows@,
            old(budget).used_rows as nat,
            table@,
            label@,
            0,
        ),
        final(budget).used_rows <= MAX_PUBLIC_SEED_ROWS,
        result matches Ok(entries) ==> entries@ == entries_of(rows@) && final(budget).used_rows
            == old(budget).used_rows + rows@.len(),
{
    let ghost all = rows@;
    let ghost used = budget.used_rows as nat;
    let count: usize = rows.len();
    let mut waiting = backwards(rows);
    let mut entries: Vec<T> = Vec::new();
    let mut i: usize = 0;
    while i < count
        invariant
            i <= count,
            count == all.len(),
            all == rows@,
            waiting@.len() == count - i,
            forall|j: int| 0 <= j < count - i ==> #[trigger] waiting@[j] == all[count - 1 - j],
            used == old(budget).used_rows,
            budget.used_rows == used + i,
            budget.used_rows <= MAX_PUBLIC_SEED_ROWS,
            entries@.len() == i,
            forall|j: int| 0 <= j < i ==> all[j] == Ok::<T, String>(#[trigger] entries@[j]),
            rows_error(all, used, table@, label@, 0) == rows_error(
                all,
                used,
                table@,
                label@,
                i as nat,
            ),
        decreases count - i,
    {
        if let Err(message) = budget.consume(table) {
            return Err(message);
        }
        match waiting.pop() {
            Some(Ok(entry)) => entries.push(entry),
            Some(Err(error)) => {
                return Err(cat4("解析", label, "公共种子失败：", error.as_str()));
            },
            None => {},
        }
        i = i + 1;
    }
    assert(entries@ =~= entries_of(all));
    Ok(entries)
}

fn backwards<T>(list: Vec<T>) -> (reversed: Vec<T>)
    ensures
        reversed@.len() == list@.len(),
        forall|j: int|
            0 <= j < list@.len() ==> #[trigger] reversed@[j] == list@[list@.len() - 1 - j],
{
    let ghost all = list@;
    let count: usize = list.len();
    let mut rest = list;
    let mut reversed: Vec<T> = Vec::new();
    let mut i: usize = 0;
    while i < count
        invariant
            i <= count,
            count == all.len(),
            all == list@,
            rest@ == all.take(count - i),
            reversed@.len() == i,
            forall|j: int| 0 <= j < i ==> #[trigger] reversed@[j] == all[count - 1 - j],
        decreases count - i,
    {
        if let Some(item) = rest.pop() {
            assert(item == all[count - 1 - i]);
            assert(rest@ =~= all.take(count - i - 1));
            reversed.push(item);
        }
        i = i + 1;
    }
    reversed
}

/// A quest of the earlier database, with the rows that belong to it.
#[derive(Clone, Debug, PartialEq, Eq)]
pub struct SourceQuest {
    pub entry: QuestPackageEntry,
    pub requirements: Vec<Result<QuestRequirementPackageEntry, String>>,
    pub rewards: Vec<Result<QuestRewardPackageEntry, String>>,
}

/// The rows of the earlier database, in the order in which they are kept.
#[derive(Clone, Debug, PartialEq, Eq)]
pub struct PublicSeedSource {
    pub maps: Vec<Result<MapPackageEntry, String>>,
    pub items: Vec<Result<ItemPackageEntry, String>>,
    pub npcs: Vec<Result<NpcPackageEntry, String>>,
    pub quests: Vec<Result<SourceQuest, String>>,
    pub numeric_curves: Vec<Result<NumericCurvePackageEntry, String>>,
}

/// How many rows belong to some quests.
pub open spec fn quest_rows(quests: Seq<SourceQuest>) -> nat
    decreases quests.len(),
{
    if quests.len() == 0 {
        0
    } else {
        quest_rows(quests.drop_last()) + quests.last().requirements@.len()
            + quests.last().rewards@.len()
    }
}

/// Why the rows that belong to some quests are not taken.
pub open spec fn quest_rows_error(quests: Seq<SourceQuest>, used: nat) -> Option<Seq<char>>
    decreases quests.len(),
{
    if quests.len() == 0 {
        None
    } else {
        let last = quests.last();
        let before = used + quest_rows(quests.drop_last());
        if quest_rows_error(quests.drop_last(), used) is Some {
            quest_rows_error(quests.drop_last(), used)
        } else if rows_error(
            last.requirements@,
            before,
            "quest_requirement"@,
            "任务条件"@,
            0,
        ) is Some {
            rows_error(last.requirements@, before, "quest_requirement"@, "任务条件"@, 0)
        } else {
            rows_error(
                last.rewards@,
                before + last.requirements@.len(),
                "quest_reward"@,
                "任务奖励"@,
                0,
            )
        }
    }
}

/// Whether a quest of a package is one of the earlier database, with the rows that
/// belong to it.
pub open spec fn is_quest(entry: QuestPackageEntry, source: SourceQuest) -> bool {
    &&& entry.requirements@ == entries_of(source.requirements@)
    &&& entry.rewards@ == entries_of(source.rewards@)
    &&& entry == (QuestPackageEntry {
        requirements: entry.requirements,
        rewards: entry.rewards,
        ..source.entry
    })
}

/// Whether the quests of a package are those of the earlier database.
pub open spec fn are_quests(entries: Seq<QuestPackageEntry>, quests: Seq<SourceQuest>) -> bool {
    &&& entries.len() == quests.len()
    &&& forall|i: int| 0 <= i < quests.len() ==> is_quest(#[trigger] entries[i], quests[i])
}

proof fn lemma_first_quest_error(quests: Seq<SourceQuest>, used: nat, n: int)
    requires
        0 <= n <= quests.len(),
        quest_rows_error(quests.take(n), used) is Some,
    ensures
        quest_rows_error(quests, used) == quest_rows_error(quests.take(n), used),
    decreases quests.len(),
{
    if n < quests.len() {
        assert(quests.drop_last().take(n) =~= quests.take(n));
        lemma_first_quest_error(quests.drop_last(), used, n);
    } else {
        assert(quests.take(n) =~= quests);
    }
}

fn take_quest_rows(quests: Vec<SourceQuest>, budget: &mut PublicSeedReadBudget) -> (result: Result<
    Vec<QuestPackageEntry>,
    String,
>)
    requires
        old(budget).used_rows <= MAX_PUBLIC_SEED_ROWS,
    ensures
        config::failure(result) == quest_rows_error(quests@, old(budget).used_rows as nat),
        final(budget).used_rows <= MAX_PUBLIC_SEED_ROWS,
        result matches Ok(entries) ==> are_quests(entries@, quests@) && final(budget).used_rows
            == old(budget).used_rows + quest_rows(quests@),
{
    let ghost all = quests@;
    let ghost used = budget.used_rows as nat;
    let count: usize = quests.len();
    let mut waiting = backwards(quests);
    let mut entries: Vec<QuestPackageEntry> = Vec::new();
    let mut i: usize = 0;
    assert(all.take(0) =~= Seq::empty());
    while i < count
        invariant
            i <= count,
            count == all.len(),
            all == quests@,
            waiting@.len() == count - i,
            forall|j: int| 0 <= j < count - i ==> #[trigger] waiting@[j] == all[count - 1 - j],
            used == old(budget).used_rows,
            budget.used_rows == used + quest_rows(all.take(i as int)),
            budget.used_rows <= MAX_PUBLIC_SEED_ROWS,
            entries@.len() == i,
            forall|j: int| 0 <= j < i ==> is_quest(#[trigger] entries@[j], all[j]),
            quest_rows_error(all.take(i as int), used) is None,
        decreases count - i,
    {
        let ghost next = all.take(i + 1);
        assert(next.drop_last() =~= all.take(i as int));
        if let Some(source) = waiting.pop() {
            assert(source == all[i as int]);
            assert(next.last() == source);
            let SourceQuest { entry, requirements, rewards } = source;
            let requirements = match take_rows(
                requirements,
                "quest_requirement",
                "任务条件",
                budget,
            ) {
                Ok(list) => list,
                Err(message) => {
                    proof {
                        lemma_first_quest_error(all, used, i + 1);
                    }
                    return Err(message);
                },
            };
            let rewards = match take_rows(rewards, "quest_reward", "任务奖励", budget) {
                Ok(list) => list,
                Err(message) => {
                    proof {
                        lemma_first_quest_error(all, used, i + 1);
                    }
                    return Err(message);
                },
            };
            entries.push(QuestPackageEntry { requirements, rewards, ..entry });
        }
        i = i + 1;
    }
    assert(all.take(i as int) =~= all);
    Ok(entries)
}

/// Why the rows of the earlier database are not taken: the first table, in the order in
/// which they are read, with a row that is not.
pub open spec fn source_error(source: PublicSeedSource) -> Option<Seq<char>> {
    let items = source.maps@.len();
    let npcs = items + source.items@.len();
    let quests = npcs + source.npcs@.len();
    let of_quests = quests + source.quests@.len();
    let curves = of_quests + quest_rows(entries_of(source.quests@));
    if rows_error(source.maps@, 0, "map"@, "地图"@, 0) is Some {
        rows_error(source.maps@, 0, "map"@, "地图"@, 0)
    } else if rows_error(source.items@, items, "item"@, "物品"@, 0) is Some {
        rows_error(source.items@, items, "item"@, "物品"@, 0)
    } else if rows_error(source.npcs@, npcs, "npc"@, " NPC "@, 0) is Some {
        rows_error(source.npcs@, npcs, "npc"@, " NPC "@, 0)
    } else if rows_error(source.quests@, quests, "quest"@, "任务"@, 0) is Some {
        rows_error(source.quests@, quests, "quest"@, "任务"@, 0)
    } else if quest_rows_error(entries_of(source.quests@), of_quests) is Some {
        quest_rows_error(entries_of(source.quests@), of_quests)
    } else {
        rows_error(source.numeric_curves@, curves, "numeric_curve"@, "数值曲线"@, 0)
    }
}

/// Whether a package holds the rows of the earlier database and says of itself what it
/// was told to, and holds nothing else.
pub open spec fn is_seed_package(
    package: ContentPackage,
    source: PublicSeedSource,
    metadata: PublicSeedPackageMetadata,
) -> bool {
    &&& (package.package_key@, package.revision as int, package.author@, package.minimum_runtime@)
        == metadata@
    &&& package.maps@ == entries_of(source.maps@)
    &&& package.items@ == entries_of(source.items@)
    &&& package.npcs@ == entries_of(source.npcs@)
    &&& are_quests(package.quests@, entries_of(source.quests@))
    &&& package.numeric_curves@ == entries_of(source.numeric_curves@)
    &&& package.wuhun@.len() == 0
    &&& package.skills@.len() == 0
    &&& package.effects@.len() == 0
    &&& package.soul_beasts@.len() == 0
    &&& package.soul_rings@.len() == 0
    &&& package.transitions@.len() == 0
}

/// Makes a package out of the rows of the earlier database.
pub fn import_public_seed_sqlite(
    source: PublicSeedSource,
    metadata: &PublicSeedPackageMetadata,
) -> (result: Result<ContentPackage, String>)
    ensures
        config::failure(result) == source_error(source),
        result matches Ok(package) ==> is_seed_package(package, source, *metadata),
{
    let PublicSeedSource { maps, items, npcs, quests, numeric_curves } = source;
    let mut budget = PublicSeedReadBudget { used_rows: 0 };
    let maps = match take_rows(maps, "map", "地图", &mut budget) {
        Ok(list) => list,
        Err(message) => return Err(message),
    };
    let items = match take_rows(items, "item", "物品", &mut budget) {
        Ok(list) => list,
        Err(message) => return Err(message),
    };
    let npcs = match take_rows(npcs, "npc", " NPC ", &mut budget) {
        Ok(list) => list,
        Err(message) => return Err(message),
    };
    let quests = match take_rows(quests, "quest", "任务", &mut budget) {
        Ok(list) => list,
        Err(message) => return Err(message),
    };
    let quests = match take_quest_rows(quests, &mut budget) {
        Ok(list) => list,
        Err(message) => return Err(message),
    };
    let numeric_curves = match take_rows(
        numeric_curves,
        "numeric_curve",
        "数值曲线",
        &mut budget,
    ) {
        Ok(list) => list,
        Err(message) => return Err(message),
    };
    Ok(
        ContentPackage {
            package_key: metadata.package_key.as_str().to_owned(),
            revision: metadata.revision,
            author: metadata.author.as_str().to_owned(),
            minimum_runtime: metadata.minimum_runtime.as_str().to_owned(),
            maps,
            items,
            npcs,
            quests,
            numeric_curves,
            wuhun: Vec::new(),
            skills: Vec::new(),
            effects: Vec::new(),
            soul_beasts: Vec::new(),
            soul_rings: Vec::new(),
            transitions: Vec::new(),
        },
    )
}

/// Checks where a package is written.
pub fn check_seed_output(output_path: &str) -> (result: Result<(), String>)
    ensures
        config::failure(result) == (if player_staging::has_extension(output_path@, "json"@) {
            None
        } else {
            Some("公共种子输出文件必须使用 .json 扩展名"@)
        }),
{
    if !extension_is(output_path, "json") {
        return Err("公共种子输出文件必须使用 .json 扩展名".to_owned());
    }
    Ok(())
}

/// Checks that a package that is written reads back as what it was.
pub fn check_seed_hash(read_back: &str, content_hash: &str) -> (result: Result<(), String>)
    ensures
        config::failure(result) == (if read_back@ == content_hash@ {
            None
        } else {
            Some("公共种子内容包哈希与规范 JSON 不一致"@)
        }),
{
    if !same(read_back, content_hash) {
        return Err("公共种子内容包哈希与规范 JSON 不一致".to_owned());
    }
    Ok(())
}

proof fn lemma_rows_within<T>(
    rows: Seq<Result<T, String>>,
    used: nat,
    table: Seq<char>,
    label: Seq<char>,
    from: nat,
)
    requires
        rows_error(rows, used, table, label, from) is None,
        used + from <= MAX_PUBLIC_SEED_ROWS,
        from <= rows.len(),
    ensures
        used + rows.len() <= MAX_PUBLIC_SEED_ROWS,
    decreases rows.len() - from,
{
    if from < rows.len() {
        lemma_rows_within(rows, used, table, label, from + 1);
    }
}

proof fn lemma_quest_rows_within(quests: Seq<SourceQuest>, used: nat)
    requires
        quest_rows_error(quests, used) is None,
        used <= MAX_PUBLIC_SEED_ROWS,
    ensures
        used + quest_rows(quests) <= MAX_PUBLIC_SEED_ROWS,
    decreases quests.len(),
{
    if quests.len() > 0 {
        let last = quests.last();
        lemma_quest_rows_within(quests.drop_last(), used);
        let before = used + quest_rows(quests.drop_last());
        lemma_rows_within(last.requirements@, before, "quest_requirement"@, "任务条件"@, 0);
        lemma_rows_within(
            last.rewards@,
            before + last.requirements@.len(),
            "quest_reward"@,
            "任务奖励"@,
            0,
        );
    }
}

/// A package that is made holds no more rows in all than may be read.
pub proof fn imported_packages_are_bounded(source: PublicSeedSource)
    requires
        source_error(source) is None,
    ensures
        source.maps@.len() + source.items@.len() + source.npcs@.len() + source.quests@.len()
            + quest_rows(entries_of(source.quests@)) + source.numeric_curves@.len()
            <= MAX_PUBLIC_SEED_ROWS,
{
    let items = source.maps@.len();
    let npcs = items + source.items@.len();
    let quests = npcs + source.npcs@.len();
    let of_quests = quests + source.quests@.len();
    let curves = of_quests + quest_rows(entries_of(source.quests@));
    lemma_rows_within(source.maps@, 0, "map"@, "地图"@, 0);
    lemma_rows_within(source.items@, items, "item"@, "物品"@, 0);
    lemma_rows_within(source.npcs@, npcs, "npc"@, " NPC "@, 0);
    lemma_rows_within(source.quests@, quests, "quest"@, "任务"@, 0);
    lemma_quest_rows_within(entries_of(source.quests@), of_quests);
    lemma_rows_within(source.numeric_curves@, curves, "numeric_curve"@, "数值曲线"@, 0);
}

} // verus!
