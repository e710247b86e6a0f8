//! What the documents for the owner show.
use crate::config::AuthorizationMode;
use crate::message;
use crate::message::{Document, Protocol};
use crate::owner_documents;
use crate::records::{
    AuthorizedContext, AuthorizedContextChange, AuthorizedContextPage, LegacyClaimResult,
    LegacyIdentityState,
};
use crate::text;
use vstd::prelude::*;

verus! {

/// Each authorised conversation has a line with its number, kind and name, and its label
/// where it has one.
pub proof fn each_authorised_conversation_has_a_line(d: Document, list: Seq<AuthorizedContext>)
    ensures
        ({
            let r = owner_documents::context_lines(d, list);
            let n = list.len() as int;
            &&& r.title == d.title
            &&& r.notice == d.notice
            &&& r.illustration == d.illustration
            &&& r.lines.len() == d.lines.len() + n
            &&& d.lines.is_prefix_of(r.lines)
            &&& forall|i: int| #![trigger list[i]] 0 <= i < n ==> {
                &&& r.lines[d.lines.len() + i] == "#"@ + text::integer(list[i].id as int) + " · "@ + list[i].context_kind@
                    + " · "@ + list[i].context_id@
                    + owner_documents::label_suffix(list[i].label@)
            }
            &&& r.fields == d.fields
            &&& r.commands == d.commands
        }),
    decreases list.len(),
{
    if list.len() > 0 {
        each_authorised_conversation_has_a_line(d, list.drop_last());
        let before = owner_documents::context_lines(d, list.drop_last());
        assert forall|i: int| 0 <= i < list.len() - 1 implies list.drop_last()[i] == #[trigger] list[i] by {}
        assert(owner_documents::context_lines(d, list).lines.len() == before.lines.len() + 1);
        assert(before.lines.is_prefix_of(owner_documents::context_lines(d, list).lines));
    }
}

/// What the list adds does not depend on what stands before it.
proof fn lemma_context_lines_frame(list: Seq<AuthorizedContext>)
    ensures
        forall|d: Document| #[trigger]
            owner_documents::context_lines(d, list) == (
            Document {
                lines: d.lines + owner_documents::context_lines(message::titled(""@), list).lines,
                ..d
            }),
    decreases list.len(),
{
    let none = message::titled(""@);
    let less = list.drop_last();
    if list.len() > 0 {
        lemma_context_lines_frame(less);
    }
    assert forall|d: Document| #[trigger]
        owner_documents::context_lines(d, list) == (
            Document {
                lines: d.lines + owner_documents::context_lines(message::titled(""@), list).lines,
                ..d
            }) by {
        if list.len() > 0 {
            assert(owner_documents::context_lines(d, less).lines == d.lines + owner_documents::context_lines(none, less).lines);
            assert(owner_documents::context_lines(none, less).lines == none.lines + owner_documents::context_lines(none, less).lines);
        }
        assert(owner_documents::context_lines(d, list).lines =~= d.lines + owner_documents::context_lines(none, list).lines);
    }
}

/// An inspection shows whose record was looked for, in which protocol and account, and its
/// state.
pub proof fn an_inspection_shows_the_state_of_an_old_record(
    protocol: Protocol,
    account_id: Seq<char>,
    target: Seq<char>,
    outcome: LegacyIdentityState,
)
    ensures
        ({
            let shown = owner_documents::inspected(protocol, account_id, target, outcome);
            &&& shown.title == "旧档检查"@
            &&& shown.lines.len() == 0
            &&& shown.fields == seq![
                ("协议"@, message::protocol_name(protocol)),
                ("当前账号"@, account_id),
                ("目标用户"@, target),
                ("状态"@, owner_documents::legacy_state(outcome).0),
            ]
            &&& shown.commands.len() == 0
            &&& shown.notice == Some(owner_documents::legacy_state(outcome).1)
            &&& shown.illustration == None::<message::Picture>
        }),
{
    let shown = owner_documents::inspected(protocol, account_id, target, outcome);
    assert(shown.fields =~= seq![
        ("协议"@, message::protocol_name(protocol)),
        ("当前账号"@, account_id),
        ("目标用户"@, target),
        ("状态"@, owner_documents::legacy_state(outcome).0),
    ]);
}

/// A claim shows whose record was claimed, for which protocol and account, and what came of it.
pub proof fn a_claim_shows_what_came_of_it(
    protocol: Protocol,
    account_id: Seq<char>,
    target: Seq<char>,
    outcome: LegacyClaimResult,
)
    ensures
        ({
            let shown = owner_documents::claimed(protocol, account_id, target, outcome);
            &&& shown.title == "旧档认领"@
            &&& shown.lines.len() == 0
            &&& shown.fields == seq![
                ("协议"@, message::protocol_name(protocol)),
                ("当前账号"@, account_id),
                ("目标用户"@, target),
                ("结果"@, owner_documents::claim_state(outcome).0),
            ]
            &&& shown.commands.len() == 0
            &&& shown.notice == Some(owner_documents::claim_state(outcome).1)
            &&& shown.illustration == None::<message::Picture>
        }),
{
    let shown = owner_documents::claimed(protocol, account_id, target, outcome);
    assert(shown.fields =~= seq![
        ("协议"@, message::protocol_name(protocol)),
        ("当前账号"@, account_id),
        ("目标用户"@, target),
        ("结果"@, owner_documents::claim_state(outcome).0),
    ]);
}

/// A grant shows the conversation; a label is shown where it was new, and not where the
/// conversation was known.
pub proof fn a_grant_keeps_the_label_of_an_earlier_one(
    kind: Seq<char>,
    id: Seq<char>,
    label: Seq<char>,
    duplicate: bool,
)
    ensures
        ({
            let shown = owner_documents::granted(kind, id, label, duplicate);
            &&& shown.title == "授权上下文"@
            &&& shown.lines.len() == 0
            &&& shown.fields == seq![
                    ("类型"@, kind),
                    ("上下文 ID"@, id),
                    ("结果"@, (if duplicate { "已授权"@ } else { "授权成功"@ })),
                ]
                + (if duplicate {
                    Seq::<(Seq<char>, Seq<char>)>::empty()
                } else {
                    seq![("标签"@, (if label.len() == 0 { "未设置"@ } else { label }))]
                })
            &&& shown.commands.len() == 0
            &&& shown.notice == (if duplicate {
                Some("该上下文已存在，原标签未修改；请使用“查看授权”确认当前标签"@)
            } else {
                Some("allowlist 模式下，该上下文现在可以执行游戏命令"@)
            })
            &&& shown.illustration == None::<message::Picture>
        }),
{
    let shown = owner_documents::granted(kind, id, label, duplicate);
    assert(shown.fields =~= seq![
            ("类型"@, kind),
            ("上下文 ID"@, id),
            ("结果"@, (if duplicate { "已授权"@ } else { "授权成功"@ })),
        ]
        + (if duplicate {
            Seq::<(Seq<char>, Seq<char>)>::empty()
        } else {
            seq![("标签"@, (if label.len() == 0 { "未设置"@ } else { label }))]
        }));
}

/// A revocation shows the conversation and whether it had been authorised.
pub proof fn a_revocation_says_whether_there_was_anything(
    kind: Seq<char>,
    id: Seq<char>,
    known: bool,
)
    ensures
        ({
            let shown = owner_documents::revoked(kind, id, known);
            &&& shown.title == "取消授权"@
            &&& shown.lines.len() == 0
            &&& shown.fields == seq![
                ("类型"@, kind),
                ("上下文 ID"@, id),
                ("结果"@, (if known { "已撤销"@ } else { "此前未授权"@ })),
            ]
            &&& shown.commands.len() == 0
            &&& shown.notice == Some("撤销不会删除操作日志；allowlist 模式会立即拒绝该上下文的游戏命令"@)
            &&& shown.illustration == None::<message::Picture>
        }),
{
    let shown = owner_documents::revoked(kind, id, known);
    assert(shown.fields =~= seq![("类型"@, kind), ("上下文 ID"@, id), ("结果"@, (if known { "已撤销"@ } else { "此前未授权"@ }))]);
}

/// The authorised conversations are listed below the policy, and lead to those behind them
/// where there are any.
pub proof fn conversations_are_listed_with_the_policy(
    mode: AuthorizationMode,
    page: AuthorizedContextPage,
)
    ensures
        ({
            let shown = owner_documents::context_list(mode, page);
            &&& shown.title == "授权上下文列表"@
            &&& shown.lines == (if page.entries@.len() == 0 {
                seq!["当前账号尚未登记授权上下文。"@]
            } else {
                owner_documents::context_lines(message::titled(""@), page.entries@).lines
            })
            &&& shown.fields == seq![
                (
                    "策略"@,
                    (if mode == AuthorizationMode::AllowAll {
                        "allow_all"@
                    } else {
                        "allowlist"@
                    }),
                ),
                ("数量"@, text::decimal(page.entries@.len())),
            ]
            &&& shown.commands == (match page.next_after_id {
                Some(cursor) => seq!["查看授权 "@ + text::integer(cursor as int)],
                None => Seq::<Seq<char>>::empty(),
            })
            &&& shown.notice == Some("列表按当前协议、Bot account_id 和 namespace 隔离"@)
            &&& shown.illustration == None::<message::Picture>
        }),
{
    let shown = owner_documents::context_list(mode, page);
    lemma_context_lines_frame(page.entries@);
    assert(shown.lines =~= (if page.entries@.len() == 0 {
        seq!["当前账号尚未登记授权上下文。"@]
    } else {
        owner_documents::context_lines(message::titled(""@), page.entries@).lines
    }));
    assert(shown.fields =~= seq![
        ("策略"@, (if mode == AuthorizationMode::AllowAll { "allow_all"@ } else { "allowlist"@ })),
        ("数量"@, text::decimal(page.entries@.len())),
    ]);
    assert(shown.commands =~= (match page.next_after_id {
        Some(cursor) => seq!["查看授权 "@ + text::integer(cursor as int)],
        None => Seq::<Seq<char>>::empty(),
    }));
}

/// Each state of an old record, and each outcome of a claim, has a name and an explanation of
/// its own.
pub proof fn states_of_old_records_have_names_of_their_own()
    ensures
        owner_documents::legacy_state(LegacyIdentityState::Legacy).0 == "待认领"@,
        owner_documents::legacy_state(LegacyIdentityState::ClaimedToCurrent).0 == "已认领到当前账号"@,
        owner_documents::legacy_state(LegacyIdentityState::ClaimedToOther).0 == "冲突"@,
        owner_documents::legacy_state(LegacyIdentityState::Missing).0 == "未找到"@,
        owner_documents::legacy_state(LegacyIdentityState::Legacy).1
            == "确认目标用户和当前机器人账号无误后，使用“旧档认领 <用户ID> <当前account_id> 确认”"@,
        owner_documents::legacy_state(LegacyIdentityState::ClaimedToCurrent).1
            == "该旧档已完成绑定，无需重复操作"@,
        owner_documents::legacy_state(LegacyIdentityState::ClaimedToOther).1
            == "该旧档已由其他机器人账号认领；系统不会合并、删除或重新绑定"@,
        owner_documents::legacy_state(LegacyIdentityState::Missing).1
            == "没有找到可认领的旧版身份行；系统不会自动创建或接管旧档"@,
        owner_documents::claim_state(LegacyClaimResult::Claimed).0 == "认领成功"@,
        owner_documents::claim_state(LegacyClaimResult::AlreadyClaimed).0 == "已认领"@,
        owner_documents::claim_state(LegacyClaimResult::NotFound).0 == "未找到"@,
        owner_documents::claim_state(LegacyClaimResult::Conflict).0 == "冲突"@,
        owner_documents::claim_state(LegacyClaimResult::Claimed).1
            == "旧身份仅补写了当前 account_id；角色、武魂、主键和外键均保持不变"@,
        owner_documents::claim_state(LegacyClaimResult::AlreadyClaimed).1
            == "该旧档已经绑定到当前账号，本次没有重复写入"@,
        owner_documents::claim_state(LegacyClaimResult::NotFound).1
            == "没有找到可认领的旧版身份行，本次没有修改数据库"@,
        owner_documents::claim_state(LegacyClaimResult::Conflict).1
            == "检测到已知身份或其他账号的认领记录，本次没有合并、删除或重新绑定"@,
{
}

/// A grant is answered for what the store says of it, and what only a revocation can say is
/// an error; and the other way round.
pub proof fn changes_are_answered_for_what_they_are(
    kind: Seq<char>,
    id: Seq<char>,
    label: Seq<char>,
)
    ensures
        owner_documents::grant_reply(kind, id, label, AuthorizedContextChange::Granted) == Ok::<
            Document,
            Seq<char>,
        >(owner_documents::granted(kind, id, label, false)),
        owner_documents::grant_reply(kind, id, label, AuthorizedContextChange::AlreadyGranted)
            == Ok::<Document, Seq<char>>(owner_documents::granted(kind, id, label, true)),
        owner_documents::grant_reply(kind, id, label, AuthorizedContextChange::Revoked) is Err,
        owner_documents::grant_reply(kind, id, label, AuthorizedContextChange::AlreadyRevoked) is Err,
        owner_documents::revoke_reply(kind, id, AuthorizedContextChange::Revoked) == Ok::<
            Document,
            Seq<char>,
        >(owner_documents::revoked(kind, id, true)),
        owner_documents::revoke_reply(kind, id, AuthorizedContextChange::AlreadyRevoked) == Ok::<
            Document,
            Seq<char>,
        >(owner_documents::revoked(kind, id, false)),
        owner_documents::revoke_reply(kind, id, AuthorizedContextChange::Granted) is Err,
        owner_documents::revoke_reply(kind, id, AuthorizedContextChange::AlreadyGranted) is Err,
        owner_documents::label_suffix(label) == (if label.len() == 0 {
            Seq::<char>::empty()
        } else {
            " · "@ + label
        }),
{
    reveal_strlit("");
}

} // verus!
