//! What the documents about quests show.
use crate::labels;
use crate::message;
use crate::message::Document;
use crate::quest_documents;
use crate::records::{QuestActionReceipt, QuestListEntry, QuestPage, QuestRequirement, QuestReward};
use crate::text;
use vstd::prelude::*;

verus! {

/// Each condition of a quest has a line with what is there and then what is wanted.
pub proof fn each_condition_shows_how_far_it_is(d: Document, list: Seq<QuestRequirement>)
    ensures
        ({
            let r = quest_documents::requirement_lines(d, list);
            let n = list.len() as int;
            &&& r.title == d.title
            &&& r.notice == d.notice
            &&& r.illustration == d.illustration
            &&& r.lines.len() == d.lines.len() + n
            &&& d.lines.is_prefix_of(r.lines)
            &&& forall|i: int| #![trigger list[i]] 0 <= i < n ==> {
                &&& r.lines[d.lines.len() + i] == "条件："@ + list[i].description@ + " "@
                    + text::integer(list[i].current_amount as int) + "/"@
                    + text::integer(list[i].required_quantity as int)
            }
            &&& r.fields == d.fields
            &&& r.commands == d.commands
        }),
    decreases list.len(),
{
    if list.len() > 0 {
        each_condition_shows_how_far_it_is(d, list.drop_last());
        let before = quest_documents::requirement_lines(d, list.drop_last());
        assert forall|i: int| 0 <= i < list.len() - 1 implies list.drop_last()[i] == #[trigger] list[i] by {}
        assert(quest_documents::requirement_lines(d, list).lines.len() == before.lines.len() + 1);
        assert(before.lines.is_prefix_of(quest_documents::requirement_lines(d, list).lines));
    }
}

/// What the list adds does not depend on what stands before it.
proof fn lemma_requirement_lines_frame(list: Seq<QuestRequirement>)
    ensures
        forall|d: Document| #[trigger]
            quest_documents::requirement_lines(d, list) == (
            Document {
                lines: d.lines + quest_documents::requirement_lines(message::titled(""@), list).lines,
                ..d
            }),
    decreases list.len(),
{
    let none = message::titled(""@);
    let less = list.drop_last();
    if list.len() > 0 {
        lemma_requirement_lines_frame(less);
    }
    assert forall|d: Document| #[trigger]
        quest_documents::requirement_lines(d, list) == (
            Document {
                lines: d.lines + quest_documents::requirement_lines(message::titled(""@), list).lines,
                ..d
            }) by {
        if list.len() > 0 {
            assert(quest_documents::requirement_lines(d, less).lines == d.lines + quest_documents::requirement_lines(none, less).lines);
            assert(quest_documents::requirement_lines(none, less).lines == none.lines + quest_documents::requirement_lines(none, less).lines);
        }
        assert(quest_documents::requirement_lines(d, list).lines =~= d.lines + quest_documents::requirement_lines(none, list).lines);
    }
}

/// Each quest adds a line with its number, name, state and level, its description, its
/// conditions, its rewards where it has any, and a command: to look at it while it runs, to
/// take it while it was never taken, and none otherwise.
pub proof fn each_quest_adds_its_own_lines(
    d: Document,
    list: Seq<QuestListEntry>,
    entry: QuestListEntry,
)
    ensures
        ({
            let less = quest_documents::quest_entries(d, list);
            let more = quest_documents::quest_entries(d, list.push(entry));
            &&& more.title == less.title
            &&& more.notice == less.notice
            &&& more.illustration == less.illustration
            &&& more.lines == less.lines
                + seq![
                    "#"@ + text::integer(entry.quest.id as int) + " · "@ + entry.quest.name@
                        + " · "@ + quest_documents::quest_status(entry.status) + " · Lv."@
                        + text::integer(entry.quest.level_required as int),
                    entry.quest.description@,
                ]
                + quest_documents::requirement_lines(message::titled(""@), entry.progress@).lines
                + (if entry.rewards@.len() > 0 {
                    seq![
                        "奖励："@
                            + text::joined(quest_documents::reward_texts(entry.rewards@), "、"@),
                    ]
                } else {
                    Seq::<Seq<char>>::empty()
                })
            &&& more.fields == less.fields
            &&& more.commands == less.commands
                + (match entry.status {
                    Some(status) => (if status@ == "active"@ {
                        seq!["任务进度 "@ + entry.quest.name@]
                    } else {
                        Seq::<Seq<char>>::empty()
                    }),
                    None => seq!["接取任务 "@ + entry.quest.name@],
                })
        }),
{
    let less = quest_documents::quest_entries(d, list);
    let more = quest_documents::quest_entries(d, list.push(entry));
    assert(list.push(entry).drop_last() =~= list);
    lemma_requirement_lines_frame(entry.progress@);
    assert(more.lines =~= less.lines
        + seq![
            "#"@ + text::integer(entry.quest.id as int) + " · "@ + entry.quest.name@ + " · "@
                + quest_documents::quest_status(entry.status) + " · Lv."@
                + text::integer(entry.quest.level_required as int),
            entry.quest.description@,
        ]
        + quest_documents::requirement_lines(message::titled(""@), entry.progress@).lines
        + (if entry.rewards@.len() > 0 {
            seq!["奖励："@ + text::joined(quest_documents::reward_texts(entry.rewards@), "、"@)]
        } else {
            Seq::<Seq<char>>::empty()
        }));
    assert(more.fields =~= less.fields);
    assert(more.commands =~= less.commands
        + (match entry.status {
            Some(status) => (if status@ == "active"@ {
                seq!["任务进度 "@ + entry.quest.name@]
            } else {
                Seq::<Seq<char>>::empty()
            }),
            None => seq!["接取任务 "@ + entry.quest.name@],
        }));
}

/// What the list adds does not depend on what stands before it.
proof fn lemma_quest_entries_frame(list: Seq<QuestListEntry>)
    ensures
        forall|d: Document| #[trigger]
            quest_documents::quest_entries(d, list) == (
            Document {
                lines: d.lines + quest_documents::quest_entries(message::titled(""@), list).lines,
                commands: d.commands + quest_documents::quest_entries(message::titled(""@), list).commands,
                ..d
            }),
    decreases list.len(),
{
    let none = message::titled(""@);
    let less = list.drop_last();
    if list.len() > 0 {
        lemma_quest_entries_frame(less);
        let entry = list.last();
        lemma_requirement_lines_frame(entry.progress@);
    }
    assert forall|d: Document| #[trigger]
        quest_documents::quest_entries(d, list) == (
            Document {
                lines: d.lines + quest_documents::quest_entries(message::titled(""@), list).lines,
                commands: d.commands + quest_documents::quest_entries(message::titled(""@), list).commands,
                ..d
            }) by {
        if list.len() > 0 {
            assert(less.push(list.last()) =~= list);
            each_quest_adds_its_own_lines(d, less, list.last());
            each_quest_adds_its_own_lines(none, less, list.last());
            assert(quest_documents::quest_entries(d, less).lines == d.lines + quest_documents::quest_entries(none, less).lines);
            assert(quest_documents::quest_entries(none, less).lines == none.lines + quest_documents::quest_entries(none, less).lines);
            assert(quest_documents::quest_entries(d, less).commands == d.commands + quest_documents::quest_entries(none, less).commands);
            assert(quest_documents::quest_entries(none, less).commands == none.commands + quest_documents::quest_entries(none, less).commands);
        }
        assert(quest_documents::quest_entries(d, list).lines =~= d.lines + quest_documents::quest_entries(none, list).lines);
        assert(quest_documents::quest_entries(d, list).commands =~= d.commands + quest_documents::quest_entries(none, list).commands);
    }
}

/// Each condition of a receipt has a line with what is there and then what is wanted.
pub proof fn each_condition_of_a_receipt_shows_how_far_it_is(
    d: Document,
    list: Seq<QuestRequirement>,
)
    ensures
        ({
            let r = quest_documents::condition_lines(d, list);
            let n = list.len() as int;
            &&& r.title == d.title
            &&& r.notice == d.notice
            &&& r.illustration == d.illustration
            &&& r.lines.len() == d.lines.len() + n
            &&& d.lines.is_prefix_of(r.lines)
            &&& forall|i: int| #![trigger list[i]] 0 <= i < n ==> {
                &&& r.lines[d.lines.len() + i] == list[i].description@ + " "@ + text::integer(list[i].current_amount as int)
                    + "/"@ + text::integer(list[i].required_quantity as int)
            }
            &&& r.fields == d.fields
            &&& r.commands == d.commands
        }),
    decreases list.len(),
{
    if list.len() > 0 {
        each_condition_of_a_receipt_shows_how_far_it_is(d, list.drop_last());
        let before = quest_documents::condition_lines(d, list.drop_last());
        assert forall|i: int| 0 <= i < list.len() - 1 implies list.drop_last()[i] == #[trigger] list[i] by {}
        assert(quest_documents::condition_lines(d, list).lines.len() == before.lines.len() + 1);
        assert(before.lines.is_prefix_of(quest_documents::condition_lines(d, list).lines));
    }
}

/// What the list adds does not depend on what stands before it.
proof fn lemma_condition_lines_frame(list: Seq<QuestRequirement>)
    ensures
        forall|d: Document| #[trigger]
            quest_documents::condition_lines(d, list) == (
            Document {
                lines: d.lines + quest_documents::condition_lines(message::titled(""@), list).lines,
                ..d
            }),
    decreases list.len(),
{
    let none = message::titled(""@);
    let less = list.drop_last();
    if list.len() > 0 {
        lemma_condition_lines_frame(less);
    }
    assert forall|d: Document| #[trigger]
        quest_documents::condition_lines(d, list) == (
            Document {
                lines: d.lines + quest_documents::condition_lines(message::titled(""@), list).lines,
                ..d
            }) by {
        if list.len() > 0 {
            assert(quest_documents::condition_lines(d, less).lines == d.lines + quest_documents::condition_lines(none, less).lines);
            assert(quest_documents::condition_lines(none, less).lines == none.lines + quest_documents::condition_lines(none, less).lines);
        }
        assert(quest_documents::condition_lines(d, list).lines =~= d.lines + quest_documents::condition_lines(none, list).lines);
    }
}

/// Each reward has a line.
pub proof fn each_reward_has_a_line(d: Document, list: Seq<QuestReward>)
    ensures
        ({
            let r = quest_documents::reward_lines(d, list);
            let n = list.len() as int;
            &&& r.title == d.title
            &&& r.notice == d.notice
            &&& r.illustration == d.illustration
            &&& r.lines.len() == d.lines.len() + n
            &&& d.lines.is_prefix_of(r.lines)
            &&& forall|i: int| #![trigger list[i]] 0 <= i < n ==> {
                &&& r.lines[d.lines.len() + i] == labels::reward_text(list[i])
            }
            &&& r.fields == d.fields
            &&& r.commands == d.commands
        }),
    decreases list.len(),
{
    if list.len() > 0 {
        each_reward_has_a_line(d, list.drop_last());
        let before = quest_documents::reward_lines(d, list.drop_last());
        assert forall|i: int| 0 <= i < list.len() - 1 implies list.drop_last()[i] == #[trigger] list[i] by {}
        assert(quest_documents::reward_lines(d, list).lines.len() == before.lines.len() + 1);
        assert(before.lines.is_prefix_of(quest_documents::reward_lines(d, list).lines));
    }
}

/// What the list adds does not depend on what stands before it.
proof fn lemma_reward_lines_frame(list: Seq<QuestReward>)
    ensures
        forall|d: Document| #[trigger]
            quest_documents::reward_lines(d, list) == (
            Document {
                lines: d.lines + quest_documents::reward_lines(message::titled(""@), list).lines,
                ..d
            }),
    decreases list.len(),
{
    let none = message::titled(""@);
    let less = list.drop_last();
    if list.len() > 0 {
        lemma_reward_lines_frame(less);
    }
    assert forall|d: Document| #[trigger]
        quest_documents::reward_lines(d, list) == (
            Document {
                lines: d.lines + quest_documents::reward_lines(message::titled(""@), list).lines,
                ..d
            }) by {
        if list.len() > 0 {
            assert(quest_documents::reward_lines(d, less).lines == d.lines + quest_documents::reward_lines(none, less).lines);
            assert(quest_documents::reward_lines(none, less).lines == none.lines + quest_documents::reward_lines(none, less).lines);
        }
        assert(quest_documents::reward_lines(d, list).lines =~= d.lines + quest_documents::reward_lines(none, list).lines);
    }
}

/// The quests of a map stand under its name and lead to the page before and the page behind
/// where they exist.
pub proof fn quests_lead_to_the_neighbouring_pages(quests: QuestPage, page: usize)
    ensures
        ({
            let shown = quest_documents::quest_list(quests, page);
            &&& shown.title == "任务列表 · "@ + quests.map_name@
            &&& shown.lines == (if quests.entries@.len() == 0 {
                seq!["当前地图暂无可接取任务"@]
            } else {
                quest_documents::quest_entries(message::titled(""@), quests.entries@).lines
            })
            &&& shown.fields == seq![
                (
                    "页码"@,
                    text::decimal(quests.page as nat) + " / "@
                        + text::decimal(quests.page_count as nat),
                ),
                ("任务总数"@, text::decimal(quests.total as nat)),
            ]
            &&& shown.commands == (if quests.entries@.len() == 0 { Seq::<Seq<char>>::empty() } else { quest_documents::quest_entries(message::titled(""@), quests.entries@).commands }) + (if page > 1 { seq!["任务 "@ + text::decimal((page - 1) as nat)] } else { Seq::<Seq<char>>::empty() }) + (if page < quests.page_count { seq!["任务 "@ + text::decimal((page + 1) as nat)] } else { Seq::<Seq<char>>::empty() }) + seq!["任务进度"@, "接取任务 <任务>"@]
            &&& shown.notice == None::<Seq<char>>
            &&& shown.illustration == None::<message::Picture>
        }),
{
    let shown = quest_documents::quest_list(quests, page);
    lemma_quest_entries_frame(quests.entries@);
    assert(shown.lines =~= (if quests.entries@.len() == 0 {
        seq!["当前地图暂无可接取任务"@]
    } else {
        quest_documents::quest_entries(message::titled(""@), quests.entries@).lines
    }));
    assert(shown.fields =~= seq![
        (
            "页码"@,
            text::decimal(quests.page as nat) + " / "@ + text::decimal(quests.page_count as nat),
        ),
        ("任务总数"@, text::decimal(quests.total as nat)),
    ]);
    assert(shown.commands =~= (if quests.entries@.len() == 0 { Seq::<Seq<char>>::empty() } else { quest_documents::quest_entries(message::titled(""@), quests.entries@).commands }) + (if page > 1 { seq!["任务 "@ + text::decimal((page - 1) as nat)] } else { Seq::<Seq<char>>::empty() }) + (if page < quests.page_count { seq!["任务 "@ + text::decimal((page + 1) as nat)] } else { Seq::<Seq<char>>::empty() }) + seq!["任务进度"@, "接取任务 <任务>"@]);
}

/// The quests that run are listed with their number.
pub proof fn running_quests_are_listed_with_their_number(entries: Vec<QuestListEntry>)
    ensures
        ({
            let shown = quest_documents::quest_progress(entries);
            &&& shown.title == "进行中任务"@
            &&& shown.lines == (if entries@.len() == 0 {
                seq!["当前没有进行中的任务"@]
            } else {
                quest_documents::quest_entries(message::titled(""@), entries@).lines
            })
            &&& shown.fields == seq![("任务数量"@, text::decimal(entries@.len()))]
            &&& shown.commands == (if entries@.len() == 0 { Seq::<Seq<char>>::empty() } else { quest_documents::quest_entries(message::titled(""@), entries@).commands }) + seq!["任务"@, "提交任务 <任务>"@]
            &&& shown.notice == None::<Seq<char>>
            &&& shown.illustration == None::<message::Picture>
        }),
{
    let shown = quest_documents::quest_progress(entries);
    lemma_quest_entries_frame(entries@);
    assert(shown.lines =~= (if entries@.len() == 0 {
        seq!["当前没有进行中的任务"@]
    } else {
        quest_documents::quest_entries(message::titled(""@), entries@).lines
    }));
    assert(shown.fields =~= seq![("任务数量"@, text::decimal(entries@.len()))]);
    assert(shown.commands =~= (if entries@.len() == 0 { Seq::<Seq<char>>::empty() } else { quest_documents::quest_entries(message::titled(""@), entries@).commands }) + seq!["任务"@, "提交任务 <任务>"@]);
}

/// What was done with a quest is shown with its conditions; the rewards are shown only when it
/// was handed in, and a repeated request is answered as a receipt.
pub proof fn a_quest_shows_its_rewards_only_when_handed_in(receipt: QuestActionReceipt)
    ensures
        ({
            let shown = quest_documents::quest_action(receipt);
            &&& shown.title == receipt.action@ + (if receipt.replayed { "回执"@ } else { "成功"@ })
            &&& shown.lines == (if receipt.progress@.len() > 0 { seq!["任务条件："@] + quest_documents::condition_lines(message::titled(""@), receipt.progress@).lines } else { Seq::<Seq<char>>::empty() }) + (if receipt.rewards@.len() > 0 && receipt.action@ == "提交任务"@ { seq!["获得奖励："@] + quest_documents::reward_lines(message::titled(""@), receipt.rewards@).lines } else { Seq::<Seq<char>>::empty() })
            &&& shown.fields == seq![("任务"@, receipt.quest.name@), ("状态"@, receipt.action@)]
                + (match receipt.experience {
                    Some(experience) => seq![
                        (
                            "经验"@,
                            text::integer(experience.exp_before as int) + " → "@
                                + text::integer(experience.exp_after as int),
                        ),
                        (
                            "等级"@,
                            text::integer(experience.level_before as int) + " → "@
                                + text::integer(experience.level_after as int),
                        ),
                    ],
                    None => Seq::<(Seq<char>, Seq<char>)>::empty(),
                })
                + (match receipt.currency_balance_after {
                    Some(balance) => seq![("金魂币余额"@, text::integer(balance as int))],
                    None => Seq::<(Seq<char>, Seq<char>)>::empty(),
                })
            &&& shown.commands == seq!["任务进度"@, "任务"@]
            &&& shown.notice == Some(
                if receipt.replayed { "检测到相同消息的重复请求，已返回原任务回执，未重复发放奖励"@ } else { "任务状态、奖励、背包、钱包和操作日志已在同一事务完成"@ },
            )
            &&& shown.illustration == None::<message::Picture>
        }),
{
    let shown = quest_documents::quest_action(receipt);
    lemma_condition_lines_frame(receipt.progress@);
    lemma_reward_lines_frame(receipt.rewards@);
    assert(shown.lines =~= (if receipt.progress@.len() > 0 { seq!["任务条件："@] + quest_documents::condition_lines(message::titled(""@), receipt.progress@).lines } else { Seq::<Seq<char>>::empty() }) + (if receipt.rewards@.len() > 0 && receipt.action@ == "提交任务"@ { seq!["获得奖励："@] + quest_documents::reward_lines(message::titled(""@), receipt.rewards@).lines } else { Seq::<Seq<char>>::empty() }));
    assert(shown.fields =~= seq![("任务"@, receipt.quest.name@), ("状态"@, receipt.action@)]
        + (match receipt.experience {
            Some(experience) => seq![
                (
                    "经验"@,
                    text::integer(experience.exp_before as int) + " → "@
                        + text::integer(experience.exp_after as int),
                ),
                (
                    "等级"@,
                    text::integer(experience.level_before as int) + " → "@
                        + text::integer(experience.level_after as int),
                ),
            ],
            None => Seq::<(Seq<char>, Seq<char>)>::empty(),
        })
        + (match receipt.currency_balance_after {
            Some(balance) => seq![("金魂币余额"@, text::integer(balance as int))],
            None => Seq::<(Seq<char>, Seq<char>)>::empty(),
        }));
    assert(shown.commands =~= seq!["任务进度"@, "任务"@]);
}

/// A quest runs, is done, was given up, or can be taken.
pub proof fn quests_have_the_names_of_their_states(status: String)
    ensures
        status@ == "active"@ ==> quest_documents::quest_status(Some(status)) == "进行中"@,
        status@ == "completed"@ ==> quest_documents::quest_status(Some(status)) == "已完成"@,
        status@ == "abandoned"@ ==> quest_documents::quest_status(Some(status)) == "已放弃"@,
        quest_documents::quest_status(None) == "可接取"@,
        status@ != "active"@ && status@ != "completed"@ && status@ != "abandoned"@
            ==> quest_documents::quest_status(Some(status)) == "可接取"@,
{
    reveal_strlit("active");
    reveal_strlit("completed");
    reveal_strlit("abandoned");
    assert("active"@.len() == 6 && "completed"@[0] == 'c' && "abandoned"@[0] == 'a'
        && "abandoned"@.len() == 9);
}

/// The rewards of a quest are named one by one, in order.
pub proof fn rewards_are_named_one_by_one(rewards: Seq<QuestReward>, i: int)
    requires
        0 <= i < rewards.len(),
    ensures
        quest_documents::reward_texts(rewards).len() == rewards.len(),
        quest_documents::reward_texts(rewards)[i] == labels::reward_text(rewards[i]),
{
}

} // verus!
