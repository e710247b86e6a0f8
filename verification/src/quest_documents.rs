//! Replies about quests.
use crate::labels;
use crate::labels::quest_reward_text;
use crate::message;
use crate::message::{Document, GameDocument};
use crate::records::{
    ExperienceChange, QuestActionReceipt, QuestListEntry, QuestPage, QuestRequirement, QuestReward,
};
use crate::text;
use crate::text::{join, push_text, cat2, cat3, cat5, cat6, cat7, i64_text, same, usize_text};
use vstd::prelude::*;

verus! {

/// The state of a quest, in words.
pub open spec fn quest_status(status: Option<String>) -> Seq<char> {
    match status {
        Some(status) => if status@ == "active"@ {
            "进行中"@
        } else if status@ == "completed"@ {
            "已完成"@
        } else if status@ == "abandoned"@ {
            "已放弃"@
        } else {
            "可接取"@
        },
        None => "可接取"@,
    }
}

fn quest_status_label(status: &Option<String>) -> (label: &'static str)
    ensures
        label@ == quest_status(*status),
{
    match status {
        Some(status) => if same(status, "active") {
            "进行中"
        } else if same(status, "completed") {
            "已完成"
        } else if same(status, "abandoned") {
            "已放弃"
        } else {
            "可接取"
        },
        None => "可接取",
    }
}

/// What a quest pays, each part in words.
pub open spec fn reward_texts(rewards: Seq<QuestReward>) -> Seq<Seq<char>> {
    Seq::new(rewards.len(), |i: int| labels::reward_text(rewards[i]))
}

fn describe_rewards(rewards: &Vec<QuestReward>) -> (label: String)
    ensures
        label@ == text::joined(reward_texts(rewards@), "、"@),
{
    let mut list: Vec<String> = Vec::new();
    let mut i: usize = 0;
    while i < rewards.len()
        invariant
            i <= rewards@.len(),
            text::texts(list@) =~= reward_texts(rewards@).take(i as int),
        decreases rewards@.len() - i,
    {
        push_text(&mut list, quest_reward_text(&rewards[i]));
        i = i + 1;
    }
    assert(reward_texts(rewards@).take(i as int) =~= reward_texts(rewards@));
    join(&list, "、")
}

/// The document with a condition of a quest.
pub open spec fn requirement_line(d: Document, requirement: QuestRequirement) -> Document {
    d.line(
        "条件："@ + requirement.description@ + " "@
            + text::integer(requirement.current_amount as int) + "/"@
            + text::integer(requirement.required_quantity as int),
    )
}

fn add_requirement_line(
    document: GameDocument,
    requirement: &QuestRequirement,
) -> (result: GameDocument)
    ensures
        result@ == requirement_line(document@, *requirement),
{
    document.line(
        &cat6(
            "条件：",
            &requirement.description,
            " ",
            &i64_text(requirement.current_amount),
            "/",
            &i64_text(requirement.required_quantity),
        ),
    )
}

/// The document with the conditions of a quest.
pub open spec fn requirement_lines(d: Document, list: Seq<QuestRequirement>) -> Document
    decreases list.len(),
{
    if list.len() == 0 {
        d
    } else {
        requirement_line(requirement_lines(d, list.drop_last()), list.last())
    }
}

fn add_requirement_lines(
    document: GameDocument,
    list: &Vec<QuestRequirement>,
) -> (result: GameDocument)
    ensures
        result@ == requirement_lines(document@, list@),
{
    let ghost start = document@;
    let mut document = document;
    let mut i: usize = 0;
    while i < list.len()
        invariant
            i <= list@.len(),
            document@ == requirement_lines(start, list@.take(i as int)),
        decreases list@.len() - i,
    {
        assert(list@.take(i + 1).drop_last() =~= list@.take(i as int));
        document = add_requirement_line(document, &list[i]);
        i = i + 1;
    }
    assert(list@.take(i as int) =~= list@);
    document
}

/// The document with what can be done about a quest.
pub open spec fn quest_command(d: Document, entry: QuestListEntry) -> Document {
    match entry.status {
        Some(status) => {
            if status@ == "active"@ {
                d.command("任务进度 "@ + entry.quest.name@)
            } else {
                d
            }
        },
        None => {
            d.command("接取任务 "@ + entry.quest.name@)
        },
    }
}

fn add_quest_command(document: GameDocument, entry: &QuestListEntry) -> (result: GameDocument)
    ensures
        result@ == quest_command(document@, *entry),
{
    match &entry.status {
        Some(status) => {
            if same(status, "active") {
                document.command(&cat2("任务进度 ", &entry.quest.name))
            } else {
                document
            }
        },
        None => {
            document.command(&cat2("接取任务 ", &entry.quest.name))
        },
    }
}

/// The document with a quest.
pub open spec fn quest_entry(d: Document, entry: QuestListEntry) -> Document {
    let d = d
        .line(
            "#"@ + text::integer(entry.quest.id as int) + " · "@ + entry.quest.name@ + " · "@
                + quest_status(entry.status) + " · Lv."@
                + text::integer(entry.quest.level_required as int),
        )
        .line(entry.quest.description@);
    let d = requirement_lines(d, entry.progress@);
    let d = if entry.rewards@.len() > 0 {
        d.line("奖励："@ + text::joined(reward_texts(entry.rewards@), "、"@))
    } else {
        d
    };
    quest_command(d, entry)
}

/// Adds a quest to a document.
pub fn append_quest_entry(document: GameDocument, entry: &QuestListEntry) -> (result: GameDocument)
    ensures
        result@ == quest_entry(document@, *entry),
{
    let document = document
        .line(
            &cat2(
                &cat7(
                    "#",
                    &i64_text(entry.quest.id),
                    " · ",
                    &entry.quest.name,
                    " · ",
                    quest_status_label(&entry.status),
                    " · Lv.",
                ),
                &i64_text(entry.quest.level_required),
            ),
        )
        .line(&entry.quest.description);
    let document = add_requirement_lines(document, &entry.progress);
    let document = if entry.rewards.len() > 0 {
        document.line(&cat2("奖励：", &describe_rewards(&entry.rewards)))
    } else {
        document
    };
    add_quest_command(document, entry)
}

/// The document with quests.
pub open spec fn quest_entries(d: Document, list: Seq<QuestListEntry>) -> Document
    decreases list.len(),
{
    if list.len() == 0 {
        d
    } else {
        quest_entry(quest_entries(d, list.drop_last()), list.last())
    }
}

fn add_quest_entries(document: GameDocument, list: &Vec<QuestListEntry>) -> (result: GameDocument)
    ensures
        result@ == quest_entries(document@, list@),
{
    let ghost start = document@;
    let mut document = document;
    let mut i: usize = 0;
    while i < list.len()
        invariant
            i <= list@.len(),
            document@ == quest_entries(start, list@.take(i as int)),
        decreases list@.len() - i,
    {
        assert(list@.take(i + 1).drop_last() =~= list@.take(i as int));
        document = append_quest_entry(document, &list[i]);
        i = i + 1;
    }
    assert(list@.take(i as int) =~= list@);
    document
}

/// A page of quests, as it was asked for.
pub open spec fn quest_list(quests: QuestPage, page: usize) -> Document {
    let d = message::titled("任务列表 · "@ + quests.map_name@)
        .field(
            "页码"@,
            text::decimal(quests.page as nat) + " / "@ + text::decimal(quests.page_count as nat),
        )
        .field("任务总数"@, text::decimal(quests.total as nat));
    let d = if quests.entries@.len() == 0 {
        d.line("当前地图暂无可接取任务"@)
    } else {
        quest_entries(d, quests.entries@)
    };
    let d = if page > 1 {
        d.command("任务 "@ + text::decimal((page - 1) as nat))
    } else {
        d
    };
    let d = if page < quests.page_count {
        d.command("任务 "@ + text::decimal((page + 1) as nat))
    } else {
        d
    };
    d.command("任务进度"@).command("接取任务 <任务>"@)
}

/// A page of quests, as it was asked for.
pub fn quests_document(quests: &QuestPage, page: usize) -> (document: GameDocument)
    ensures
        document@ == quest_list(*quests, page),
{
    let document = GameDocument::new(&cat2("任务列表 · ", &quests.map_name))
        .field("页码", &cat3(&usize_text(quests.page), " / ", &usize_text(quests.page_count)))
        .field("任务总数", &usize_text(quests.total));
    let document = if quests.entries.len() == 0 {
        document.line("当前地图暂无可接取任务")
    } else {
        add_quest_entries(document, &quests.entries)
    };
    let document = if page > 1 {
        document.command(&cat2("任务 ", &usize_text(page - 1)))
    } else {
        document
    };
    let document = if page < quests.page_count {
        document.command(&cat2("任务 ", &usize_text(page + 1)))
    } else {
        document
    };
    document.command("任务进度").command("接取任务 <任务>")
}

/// The quests that a player has accepted.
pub open spec fn quest_progress(entries: Vec<QuestListEntry>) -> Document {
    let d = message::titled("进行中任务"@).field("任务数量"@, text::decimal(entries@.len()));
    let d = if entries@.len() == 0 {
        d.line("当前没有进行中的任务"@)
    } else {
        quest_entries(d, entries@)
    };
    d.command("任务"@).command("提交任务 <任务>"@)
}

/// The quests that a player has accepted.
pub fn quest_progress_document(entries: &Vec<QuestListEntry>) -> (document: GameDocument)
    ensures
        document@ == quest_progress(*entries),
{
    let document = GameDocument::new("进行中任务").field("任务数量", &usize_text(entries.len()));
    let document = if entries.len() == 0 {
        document.line("当前没有进行中的任务")
    } else {
        add_quest_entries(document, entries)
    };
    document.command("任务").command("提交任务 <任务>")
}

/// The document with a condition.
pub open spec fn condition_line(d: Document, requirement: QuestRequirement) -> Document {
    d.line(
        requirement.description@ + " "@ + text::integer(requirement.current_amount as int)
            + "/"@ + text::integer(requirement.required_quantity as int),
    )
}

fn add_condition_line(
    document: GameDocument,
    requirement: &QuestRequirement,
) -> (result: GameDocument)
    ensures
        result@ == condition_line(document@, *requirement),
{
    document.line(
        &cat5(
            &requirement.description,
            " ",
            &i64_text(requirement.current_amount),
            "/",
            &i64_text(requirement.required_quantity),
        ),
    )
}

/// The document with the conditions.
pub open spec fn condition_lines(d: Document, list: Seq<QuestRequirement>) -> Document
    decreases list.len(),
{
    if list.len() == 0 {
        d
    } else {
        condition_line(condition_lines(d, list.drop_last()), list.last())
    }
}

fn add_condition_lines(
    document: GameDocument,
    list: &Vec<QuestRequirement>,
) -> (result: GameDocument)
    ensures
        result@ == condition_lines(document@, list@),
{
    let ghost start = document@;
    let mut document = document;
    let mut i: usize = 0;
    while i < list.len()
        invariant
            i <= list@.len(),
            document@ == condition_lines(start, list@.take(i as int)),
        decreases list@.len() - i,
    {
        assert(list@.take(i + 1).drop_last() =~= list@.take(i as int));
        document = add_condition_line(document, &list[i]);
        i = i + 1;
    }
    assert(list@.take(i as int) =~= list@);
    document
}

/// The document with a part of the reward.
pub open spec fn reward_line(d: Document, reward: QuestReward) -> Document {
    d.line(labels::reward_text(reward))
}

fn add_reward_line(document: GameDocument, reward: &QuestReward) -> (result: GameDocument)
    ensures
        result@ == reward_line(document@, *reward),
{
    document.line(&quest_reward_text(reward))
}

/// The document with the reward.
pub open spec fn reward_lines(d: Document, list: Seq<QuestReward>) -> Document
    decreases list.len(),
{
    if list.len() == 0 {
        d
    } else {
        reward_line(reward_lines(d, list.drop_last()), list.last())
    }
}

fn add_reward_lines(document: GameDocument, list: &Vec<QuestReward>) -> (result: GameDocument)
    ensures
        result@ == reward_lines(document@, list@),
{
    let ghost start = document@;
    let mut document = document;
    let mut i: usize = 0;
    while i < list.len()
        invariant
            i <= list@.len(),
            document@ == reward_lines(start, list@.take(i as int)),
        decreases list@.len() - i,
    {
        assert(list@.take(i + 1).drop_last() =~= list@.take(i as int));
        document = add_reward_line(document, &list[i]);
        i = i + 1;
    }
    assert(list@.take(i as int) =~= list@);
    document
}

/// The document with a change of experience.
pub open spec fn experience_fields(d: Document, experience: ExperienceChange) -> Document {
    d
        .field(
            "经验"@,
            text::integer(experience.exp_before as int) + " → "@
                + text::integer(experience.exp_after as int),
        )
        .field(
            "等级"@,
            text::integer(experience.level_before as int) + " → "@
                + text::integer(experience.level_after as int),
        )
}

fn add_experience_fields(
    document: GameDocument,
    experience: &ExperienceChange,
) -> (result: GameDocument)
    ensures
        result@ == experience_fields(document@, *experience),
{
    document
        .field(
            "经验",
            &cat3(&i64_text(experience.exp_before), " → ", &i64_text(experience.exp_after)),
        )
        .field(
            "等级",
            &cat3(&i64_text(experience.level_before), " → ", &i64_text(experience.level_after)),
        )
}

/// Something done to a quest.
pub open spec fn quest_action(receipt: QuestActionReceipt) -> Document {
    let d = message::titled(receipt.action@ + (if receipt.replayed { "回执"@ } else { "成功"@ }))
        .field("任务"@, receipt.quest.name@)
        .field("状态"@, receipt.action@);
    let d = if receipt.progress@.len() > 0 {
        let d = d.line("任务条件："@);
        condition_lines(d, receipt.progress@)
    } else {
        d
    };
    let d = if receipt.rewards@.len() > 0 && receipt.action@ == "提交任务"@ {
        let d = d.line("获得奖励："@);
        reward_lines(d, receipt.rewards@)
    } else {
        d
    };
    let d = match receipt.experience {
        Some(experience) => {
            experience_fields(d, experience)
        },
        None => d,
    };
    let d = match receipt.currency_balance_after {
        Some(balance) => {
            d.field("金魂币余额"@, text::integer(balance as int))
        },
        None => d,
    };
    d
        .notice(
            if receipt.replayed {
                "检测到相同消息的重复请求，已返回原任务回执，未重复发放奖励"@
            } else {
                "任务状态、奖励、背包、钱包和操作日志已在同一事务完成"@
            },
        )
        .command("任务进度"@)
        .command("任务"@)
}

/// Something done to a quest.
pub fn quest_action_document(receipt: &QuestActionReceipt) -> (document: GameDocument)
    ensures
        document@ == quest_action(*receipt),
{
    let document = GameDocument::new(&cat2(&receipt.action, (if receipt.replayed { "回执" } else { "成功" })))
        .field("任务", &receipt.quest.name)
        .field("状态", &receipt.action);
    let document = if receipt.progress.len() > 0 {
        let document = document.line("任务条件：");
        add_condition_lines(document, &receipt.progress)
    } else {
        document
    };
    let document = if receipt.rewards.len() > 0 && same(&receipt.action, "提交任务") {
        let document = document.line("获得奖励：");
        add_reward_lines(document, &receipt.rewards)
    } else {
        document
    };
    let document = match &receipt.experience {
        Some(experience) => {
            add_experience_fields(document, experience)
        },
        None => document,
    };
    let document = match receipt.currency_balance_after {
        Some(balance) => {
            document.field("金魂币余额", &i64_text(balance))
        },
        None => document,
    };
    document
        .notice(
            if receipt.replayed {
                "检测到相同消息的重复请求，已返回原任务回执，未重复发放奖励"
            } else {
                "任务状态、奖励、背包、钱包和操作日志已在同一事务完成"
            },
        )
        .command("任务进度")
        .command("任务")
}

} // verus!
