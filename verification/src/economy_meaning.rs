//! What the documents about money and things show.
use crate::economy_documents;
use crate::labels;
use crate::message;
use crate::message::Document;
use crate::records::{
    DropClaimReceipt, GiftReceipt, GroundDrop, GroundDropPage, InventoryEntry, InventoryPage,
    ItemUseReceipt, NpcPage, NpcRecord, ShopEntry, ShopPage, TradeReceipt, TransferReceipt,
};
use crate::text;
use vstd::prelude::*;

verus! {

/// The wallet shows the balance under the name of the currency.
pub proof fn a_wallet_shows_its_balance(balance: i64)
    ensures
        ({
            let shown = economy_documents::wallet(balance);
            &&& shown.title == "我的钱包"@
            &&& shown.lines.len() == 0
            &&& shown.fields == seq![("金魂币"@, text::integer(balance as int))]
            &&& shown.commands == seq!["签到"@]
            &&& shown.notice == Some("当前展示签到使用的金魂币余额"@)
            &&& shown.illustration == None::<message::Picture>
        }),
{
    let shown = economy_documents::wallet(balance);
    assert(shown.fields =~= seq![("金魂币"@, text::integer(balance as int))]);
    assert(shown.commands =~= seq!["签到"@]);
}

/// A transfer shows who got how much, the balance of the sender as one's own and that of the
/// recipient as the other's; a repeated request is answered as a receipt.
pub proof fn a_transfer_shows_both_balances(receipt: TransferReceipt)
    ensures
        ({
            let shown = economy_documents::transfer(receipt);
            &&& shown.title == (if receipt.replayed { "转账回执"@ } else { "转账成功"@ })
            &&& shown.lines.len() == 0
            &&& shown.fields == seq![
                ("收款用户"@, receipt.recipient_subject_id@),
                ("转账金额"@, text::integer(receipt.amount as int) + " "@ + "金魂币"@),
                ("我的余额"@, text::integer(receipt.sender_balance_after as int)),
                ("对方余额"@, text::integer(receipt.recipient_balance_after as int)),
                ("账本编号"@, text::integer(receipt.transfer_id as int)),
            ]
            &&& shown.commands == seq!["钱包"@]
            &&& shown.notice == Some(
                if receipt.replayed { "检测到相同消息的重复请求，已返回原转账回执，未再次扣款"@ } else { "双方钱包、操作日志与不可变转移账本已在同一事务完成"@ },
            )
            &&& shown.illustration == None::<message::Picture>
        }),
{
    let shown = economy_documents::transfer(receipt);
    assert(shown.fields =~= seq![
        ("收款用户"@, receipt.recipient_subject_id@),
        ("转账金额"@, text::integer(receipt.amount as int) + " "@ + "金魂币"@),
        ("我的余额"@, text::integer(receipt.sender_balance_after as int)),
        ("对方余额"@, text::integer(receipt.recipient_balance_after as int)),
        ("账本编号"@, text::integer(receipt.transfer_id as int)),
    ]);
    assert(shown.commands =~= seq!["钱包"@]);
}

/// A gift shows who got what and how many, what the sender has left as one's own and what
/// the recipient has as the other's; a repeated request is answered as a receipt.
pub proof fn a_gift_shows_both_inventories(receipt: GiftReceipt)
    ensures
        ({
            let shown = economy_documents::gift(receipt);
            &&& shown.title == (if receipt.replayed { "物品赠送回执"@ } else { "物品赠送成功"@ })
            &&& shown.lines.len() == 0
            &&& shown.fields == seq![
                ("接收用户"@, receipt.recipient_subject_id@),
                ("赠送物品"@, receipt.item.name@ + " x"@ + text::integer(receipt.quantity as int)),
                ("我的背包数量"@, text::integer(receipt.sender_inventory_after as int)),
                ("对方背包数量"@, text::integer(receipt.recipient_inventory_after as int)),
                ("账本编号"@, text::integer(receipt.transfer_id as int)),
            ]
            &&& shown.commands == seq!["背包"@]
            &&& shown.notice == Some(
                if receipt.replayed { "检测到相同消息的重复请求，已返回原赠送回执，未再次扣除物品"@ } else { "双方背包、操作日志与不可变转移账本已在同一事务完成"@ },
            )
            &&& shown.illustration == None::<message::Picture>
        }),
{
    let shown = economy_documents::gift(receipt);
    assert(shown.fields =~= seq![
        ("接收用户"@, receipt.recipient_subject_id@),
        ("赠送物品"@, receipt.item.name@ + " x"@ + text::integer(receipt.quantity as int)),
        ("我的背包数量"@, text::integer(receipt.sender_inventory_after as int)),
        ("对方背包数量"@, text::integer(receipt.recipient_inventory_after as int)),
        ("账本编号"@, text::integer(receipt.transfer_id as int)),
    ]);
    assert(shown.commands =~= seq!["背包"@]);
}

/// Each person on a map has one line, which says whether they trade, and a command to talk
/// to them, in the order of the list.
pub proof fn each_npc_has_a_line_and_a_command(d: Document, list: Seq<NpcRecord>)
    ensures
        ({
            let r = economy_documents::npc_entries(d, list);
            let n = list.len() as int;
            &&& r.title == d.title
            &&& r.notice == d.notice
            &&& r.illustration == d.illustration
            &&& r.lines.len() == d.lines.len() + n
            &&& d.lines.is_prefix_of(r.lines)
            &&& forall|i: int| #![trigger list[i]] 0 <= i < n ==> {
                &&& r.lines[d.lines.len() + i] == list[i].name@ + " · "@ + (if list[i].has_shop { "商人"@ } else { "NPC"@ }) + "\n"@
                    + list[i].description@
            }
            &&& r.fields == d.fields
            &&& r.commands.len() == d.commands.len() + n
            &&& d.commands.is_prefix_of(r.commands)
            &&& forall|i: int| #![trigger list[i]] 0 <= i < n ==> {
                &&& r.commands[d.commands.len() + i] == "对话 "@ + list[i].name@
            }
        }),
    decreases list.len(),
{
    if list.len() > 0 {
        each_npc_has_a_line_and_a_command(d, list.drop_last());
        let before = economy_documents::npc_entries(d, list.drop_last());
        assert forall|i: int| 0 <= i < list.len() - 1 implies list.drop_last()[i] == #[trigger] list[i] by {}
        assert(economy_documents::npc_entries(d, list).lines.len() == before.lines.len() + 1);
        assert(before.lines.is_prefix_of(economy_documents::npc_entries(d, list).lines));
        assert(economy_documents::npc_entries(d, list).commands.len() == before.commands.len() + 1);
        assert(before.commands.is_prefix_of(economy_documents::npc_entries(d, list).commands));
    }
}

/// What the list adds does not depend on what stands before it.
proof fn lemma_npc_entries_frame(list: Seq<NpcRecord>)
    ensures
        forall|d: Document| #[trigger]
            economy_documents::npc_entries(d, list) == (
            Document {
                lines: d.lines + economy_documents::npc_entries(message::titled(""@), list).lines,
                commands: d.commands + economy_documents::npc_entries(message::titled(""@), list).commands,
                ..d
            }),
    decreases list.len(),
{
    let none = message::titled(""@);
    let less = list.drop_last();
    if list.len() > 0 {
        lemma_npc_entries_frame(less);
    }
    assert forall|d: Document| #[trigger]
        economy_documents::npc_entries(d, list) == (
            Document {
                lines: d.lines + economy_documents::npc_entries(message::titled(""@), list).lines,
                commands: d.commands + economy_documents::npc_entries(message::titled(""@), list).commands,
                ..d
            }) by {
        if list.len() > 0 {
            assert(economy_documents::npc_entries(d, less).lines == d.lines + economy_documents::npc_entries(none, less).lines);
            assert(economy_documents::npc_entries(none, less).lines == none.lines + economy_documents::npc_entries(none, less).lines);
            assert(economy_documents::npc_entries(d, less).commands == d.commands + economy_documents::npc_entries(none, less).commands);
            assert(economy_documents::npc_entries(none, less).commands == none.commands + economy_documents::npc_entries(none, less).commands);
        }
        assert(economy_documents::npc_entries(d, list).lines =~= d.lines + economy_documents::npc_entries(none, list).lines);
        assert(economy_documents::npc_entries(d, list).commands =~= d.commands + economy_documents::npc_entries(none, list).commands);
    }
}

/// The people of a map stand under its name, with their number.
pub proof fn the_people_of_a_map_are_listed(page: NpcPage)
    ensures
        ({
            let shown = economy_documents::npcs(page);
            &&& shown.title == "当前 NPC · "@ + page.map_name@
            &&& shown.lines == (if page.entries@.len() == 0 {
                seq!["当前地图没有可互动的 NPC"@]
            } else {
                economy_documents::npc_entries(message::titled(""@), page.entries@).lines
            })
            &&& shown.fields == seq![("地图"@, page.map_name@), ("数量"@, text::decimal(page.entries@.len()))]
            &&& shown.commands == (if page.entries@.len() == 0 { Seq::<Seq<char>>::empty() } else { economy_documents::npc_entries(message::titled(""@), page.entries@).commands }) + seq!["位置"@]
            &&& shown.notice == None::<Seq<char>>
            &&& shown.illustration == None::<message::Picture>
        }),
{
    let shown = economy_documents::npcs(page);
    lemma_npc_entries_frame(page.entries@);
    assert(shown.lines =~= (if page.entries@.len() == 0 {
        seq!["当前地图没有可互动的 NPC"@]
    } else {
        economy_documents::npc_entries(message::titled(""@), page.entries@).lines
    }));
    assert(shown.fields =~= seq![("地图"@, page.map_name@), ("数量"@, text::decimal(page.entries@.len()))]);
    assert(shown.commands =~= (if page.entries@.len() == 0 { Seq::<Seq<char>>::empty() } else { economy_documents::npc_entries(message::titled(""@), page.entries@).commands }) + seq!["位置"@]);
}

/// A talk shows the words that are spoken and then the description; the shop is offered where
/// there is one, and nowhere else.
pub proof fn a_talk_shows_the_words_before_the_description(npc: NpcRecord)
    ensures
        ({
            let shown = economy_documents::talk(npc);
            &&& shown.title == "与 "@ + npc.name@ + " 对话"@
            &&& shown.lines == seq![npc.dialogue@, npc.description@]
            &&& shown.fields == seq![
                ("地图"@, npc.map_name@),
                ("NPC"@, npc.name@),
                ("身份"@, labels::npc_kind(npc.npc_kind@)),
            ]
            &&& shown.commands == seq!["NPC"@, "位置"@]
                + (if npc.has_shop {
                    seq!["商店"@, "购买 <物品> [数量]"@]
                } else {
                    Seq::<Seq<char>>::empty()
                })
            &&& shown.notice == Some("当前对话已绑定；移动到其他地图后需要重新对话"@)
            &&& shown.illustration == None::<message::Picture>
        }),
{
    let shown = economy_documents::talk(npc);
    assert(shown.lines =~= seq![npc.dialogue@, npc.description@]);
    assert(shown.fields =~= seq![("地图"@, npc.map_name@), ("NPC"@, npc.name@), ("身份"@, labels::npc_kind(npc.npc_kind@))]);
    assert(shown.commands =~= seq!["NPC"@, "位置"@]
        + (if npc.has_shop { seq!["商店"@, "购买 <物品> [数量]"@] } else { Seq::<Seq<char>>::empty() }));
}

/// Each offer has its price, what the shop pays for the thing, its stock, and its effect.
pub proof fn each_offer_has_its_prices_and_its_stock(d: Document, list: Seq<ShopEntry>)
    ensures
        ({
            let r = economy_documents::shop_entries(d, list);
            let n = list.len() as int;
            &&& r.title == d.title
            &&& r.notice == d.notice
            &&& r.illustration == d.illustration
            &&& r.lines.len() == d.lines.len() + n
            &&& d.lines.is_prefix_of(r.lines)
            &&& forall|i: int| #![trigger list[i]] 0 <= i < n ==> {
                &&& r.lines[d.lines.len() + i] == list[i].item.name@ + " · "@ + text::integer(list[i].price as int)
                    + " 金魂币 · 回收 "@ + text::integer(list[i].item.sell_price as int) + " · "@
                    + economy_documents::stock_text(list[i].stock) + "\n"@
                    + labels::item_effect(list[i].item)
            }
            &&& r.fields == d.fields
            &&& r.commands == d.commands
        }),
    decreases list.len(),
{
    if list.len() > 0 {
        each_offer_has_its_prices_and_its_stock(d, list.drop_last());
        let before = economy_documents::shop_entries(d, list.drop_last());
        assert forall|i: int| 0 <= i < list.len() - 1 implies list.drop_last()[i] == #[trigger] list[i] by {}
        assert(economy_documents::shop_entries(d, list).lines.len() == before.lines.len() + 1);
        assert(before.lines.is_prefix_of(economy_documents::shop_entries(d, list).lines));
    }
}

/// What the list adds does not depend on what stands before it.
proof fn lemma_shop_entries_frame(list: Seq<ShopEntry>)
    ensures
        forall|d: Document| #[trigger]
            economy_documents::shop_entries(d, list) == (
            Document {
                lines: d.lines + economy_documents::shop_entries(message::titled(""@), list).lines,
                ..d
            }),
    decreases list.len(),
{
    let none = message::titled(""@);
    let less = list.drop_last();
    if list.len() > 0 {
        lemma_shop_entries_frame(less);
    }
    assert forall|d: Document| #[trigger]
        economy_documents::shop_entries(d, list) == (
            Document {
                lines: d.lines + economy_documents::shop_entries(message::titled(""@), list).lines,
                ..d
            }) by {
        if list.len() > 0 {
            assert(economy_documents::shop_entries(d, less).lines == d.lines + economy_documents::shop_entries(none, less).lines);
            assert(economy_documents::shop_entries(none, less).lines == none.lines + economy_documents::shop_entries(none, less).lines);
        }
        assert(economy_documents::shop_entries(d, list).lines =~= d.lines + economy_documents::shop_entries(none, list).lines);
    }
}

/// A shop shows its page and the number of its goods, leads to the page before and the page
/// behind where they exist, and offers buying before selling.
pub proof fn a_shop_leads_to_the_neighbouring_pages(shop: ShopPage, page: usize)
    ensures
        ({
            let shown = economy_documents::shop_goods(shop, page);
            &&& shown.title == shop.npc.name@ + "的商店"@
            &&& shown.lines == (if shop.entries@.len() == 0 {
                seq!["商店暂时没有商品"@]
            } else {
                economy_documents::shop_entries(message::titled(""@), shop.entries@).lines
            })
            &&& shown.fields == seq![
                ("地图"@, shop.npc.map_name@),
                (
                    "页码"@,
                    text::decimal(shop.page as nat) + " / "@
                        + text::decimal(shop.page_count as nat),
                ),
                ("商品总数"@, text::decimal(shop.total as nat)),
            ]
            &&& shown.commands == (if page > 1 { seq!["商店 "@ + text::decimal((page - 1) as nat)] } else { Seq::<Seq<char>>::empty() }) + (if page < shop.page_count { seq!["商店 "@ + text::decimal((page + 1) as nat)] } else { Seq::<Seq<char>>::empty() }) + seq!["购买 <物品> [数量]"@, "出售 <物品> [数量]"@, "背包"@]
            &&& shown.notice == None::<Seq<char>>
            &&& shown.illustration == None::<message::Picture>
        }),
{
    let shown = economy_documents::shop_goods(shop, page);
    lemma_shop_entries_frame(shop.entries@);
    assert(shown.lines =~= (if shop.entries@.len() == 0 {
        seq!["商店暂时没有商品"@]
    } else {
        economy_documents::shop_entries(message::titled(""@), shop.entries@).lines
    }));
    assert(shown.fields =~= seq![
        ("地图"@, shop.npc.map_name@),
        (
            "页码"@,
            text::decimal(shop.page as nat) + " / "@ + text::decimal(shop.page_count as nat),
        ),
        ("商品总数"@, text::decimal(shop.total as nat)),
    ]);
    assert(shown.commands =~= (if page > 1 { seq!["商店 "@ + text::decimal((page - 1) as nat)] } else { Seq::<Seq<char>>::empty() }) + (if page < shop.page_count { seq!["商店 "@ + text::decimal((page + 1) as nat)] } else { Seq::<Seq<char>>::empty() }) + seq!["购买 <物品> [数量]"@, "出售 <物品> [数量]"@, "背包"@]);
}

/// Each thing that is carried has its name, its number, its quality and its effect.
pub proof fn each_thing_carried_has_its_number(d: Document, list: Seq<InventoryEntry>)
    ensures
        ({
            let r = economy_documents::inventory_entries(d, list);
            let n = list.len() as int;
            &&& r.title == d.title
            &&& r.notice == d.notice
            &&& r.illustration == d.illustration
            &&& r.lines.len() == d.lines.len() + n
            &&& d.lines.is_prefix_of(r.lines)
            &&& forall|i: int| #![trigger list[i]] 0 <= i < n ==> {
                &&& r.lines[d.lines.len() + i] == list[i].item.name@ + " x"@ + text::integer(list[i].quantity as int) + " · "@
                    + labels::item_quality(list[i].item.quality) + "\n"@
                    + labels::item_effect(list[i].item)
            }
            &&& r.fields == d.fields
            &&& r.commands == d.commands
        }),
    decreases list.len(),
{
    if list.len() > 0 {
        each_thing_carried_has_its_number(d, list.drop_last());
        let before = economy_documents::inventory_entries(d, list.drop_last());
        assert forall|i: int| 0 <= i < list.len() - 1 implies list.drop_last()[i] == #[trigger] list[i] by {}
        assert(economy_documents::inventory_entries(d, list).lines.len() == before.lines.len() + 1);
        assert(before.lines.is_prefix_of(economy_documents::inventory_entries(d, list).lines));
    }
}

/// What the list adds does not depend on what stands before it.
proof fn lemma_inventory_entries_frame(list: Seq<InventoryEntry>)
    ensures
        forall|d: Document| #[trigger]
            economy_documents::inventory_entries(d, list) == (
            Document {
                lines: d.lines + economy_documents::inventory_entries(message::titled(""@), list).lines,
                ..d
            }),
    decreases list.len(),
{
    let none = message::titled(""@);
    let less = list.drop_last();
    if list.len() > 0 {
        lemma_inventory_entries_frame(less);
    }
    assert forall|d: Document| #[trigger]
        economy_documents::inventory_entries(d, list) == (
            Document {
                lines: d.lines + economy_documents::inventory_entries(message::titled(""@), list).lines,
                ..d
            }) by {
        if list.len() > 0 {
            assert(economy_documents::inventory_entries(d, less).lines == d.lines + economy_documents::inventory_entries(none, less).lines);
            assert(economy_documents::inventory_entries(none, less).lines == none.lines + economy_documents::inventory_entries(none, less).lines);
        }
        assert(economy_documents::inventory_entries(d, list).lines =~= d.lines + economy_documents::inventory_entries(none, list).lines);
    }
}

/// The inventory shows its page, the kinds of things, and the balance, and leads to the page
/// before and the page behind where they exist.
pub proof fn the_inventory_leads_to_the_neighbouring_pages(
    inventory: InventoryPage,
    balance: i64,
    page: usize,
)
    ensures
        ({
            let shown = economy_documents::carried(inventory, balance, page);
            &&& shown.title == "随身物品"@
            &&& shown.lines == (if inventory.entries@.len() == 0 {
                seq!["背包为空"@]
            } else {
                economy_documents::inventory_entries(message::titled(""@), inventory.entries@).lines
            })
            &&& shown.fields == seq![
                (
                    "页码"@,
                    text::decimal(inventory.page as nat) + " / "@
                        + text::decimal(inventory.page_count as nat),
                ),
                ("物品种类"@, text::decimal(inventory.total as nat)),
                ("金魂币"@, text::integer(balance as int)),
            ]
            &&& shown.commands == (if page > 1 { seq!["背包 "@ + text::decimal((page - 1) as nat)] } else { Seq::<Seq<char>>::empty() }) + (if page < inventory.page_count { seq!["背包 "@ + text::decimal((page + 1) as nat)] } else { Seq::<Seq<char>>::empty() }) + seq!["使用 <物品>"@, "商店"@, "钱包"@]
            &&& shown.notice == None::<Seq<char>>
            &&& shown.illustration == None::<message::Picture>
        }),
{
    let shown = economy_documents::carried(inventory, balance, page);
    lemma_inventory_entries_frame(inventory.entries@);
    assert(shown.lines =~= (if inventory.entries@.len() == 0 {
        seq!["背包为空"@]
    } else {
        economy_documents::inventory_entries(message::titled(""@), inventory.entries@).lines
    }));
    assert(shown.fields =~= seq![
        (
            "页码"@,
            text::decimal(inventory.page as nat) + " / "@
                + text::decimal(inventory.page_count as nat),
        ),
        ("物品种类"@, text::decimal(inventory.total as nat)),
        ("金魂币"@, text::integer(balance as int)),
    ]);
    assert(shown.commands =~= (if page > 1 { seq!["背包 "@ + text::decimal((page - 1) as nat)] } else { Seq::<Seq<char>>::empty() }) + (if page < inventory.page_count { seq!["背包 "@ + text::decimal((page + 1) as nat)] } else { Seq::<Seq<char>>::empty() }) + seq!["使用 <物品>"@, "商店"@, "钱包"@]);
}

/// Each drop has its number, what it is, whose it is and until when, and the command that
/// picks it up by that number.
pub proof fn each_drop_has_its_number_and_a_command(d: Document, list: Seq<GroundDrop>)
    ensures
        ({
            let r = economy_documents::drop_entries(d, list);
            let n = list.len() as int;
            &&& r.title == d.title
            &&& r.notice == d.notice
            &&& r.illustration == d.illustration
            &&& r.lines.len() == d.lines.len() + n
            &&& d.lines.is_prefix_of(r.lines)
            &&& forall|i: int| #![trigger list[i]] 0 <= i < n ==> {
                &&& r.lines[d.lines.len() + i] == "#"@ + text::integer(list[i].id as int) + " · "@ + list[i].item.name@ + " x"@
                    + text::integer(list[i].quantity as int) + " · "@
                    + economy_documents::owner_text(list[i].owner_subject_id) + " · "@
                    + economy_documents::expiry_text(list[i].expires_at)
            }
            &&& r.fields == d.fields
            &&& r.commands.len() == d.commands.len() + n
            &&& d.commands.is_prefix_of(r.commands)
            &&& forall|i: int| #![trigger list[i]] 0 <= i < n ==> {
                &&& r.commands[d.commands.len() + i] == "拾取 "@ + text::integer(list[i].id as int)
            }
        }),
    decreases list.len(),
{
    if list.len() > 0 {
        each_drop_has_its_number_and_a_command(d, list.drop_last());
        let before = economy_documents::drop_entries(d, list.drop_last());
        assert forall|i: int| 0 <= i < list.len() - 1 implies list.drop_last()[i] == #[trigger] list[i] by {}
        assert(economy_documents::drop_entries(d, list).lines.len() == before.lines.len() + 1);
        assert(before.lines.is_prefix_of(economy_documents::drop_entries(d, list).lines));
        assert(economy_documents::drop_entries(d, list).commands.len() == before.commands.len() + 1);
        assert(before.commands.is_prefix_of(economy_documents::drop_entries(d, list).commands));
    }
}

/// What the list adds does not depend on what stands before it.
proof fn lemma_drop_entries_frame(list: Seq<GroundDrop>)
    ensures
        forall|d: Document| #[trigger]
            economy_documents::drop_entries(d, list) == (
            Document {
                lines: d.lines + economy_documents::drop_entries(message::titled(""@), list).lines,
                commands: d.commands + economy_documents::drop_entries(message::titled(""@), list).commands,
                ..d
            }),
    decreases list.len(),
{
    let none = message::titled(""@);
    let less = list.drop_last();
    if list.len() > 0 {
        lemma_drop_entries_frame(less);
    }
    assert forall|d: Document| #[trigger]
        economy_documents::drop_entries(d, list) == (
            Document {
                lines: d.lines + economy_documents::drop_entries(message::titled(""@), list).lines,
                commands: d.commands + economy_documents::drop_entries(message::titled(""@), list).commands,
                ..d
            }) by {
        if list.len() > 0 {
            assert(economy_documents::drop_entries(d, less).lines == d.lines + economy_documents::drop_entries(none, less).lines);
            assert(economy_documents::drop_entries(none, less).lines == none.lines + economy_documents::drop_entries(none, less).lines);
            assert(economy_documents::drop_entries(d, less).commands == d.commands + economy_documents::drop_entries(none, less).commands);
            assert(economy_documents::drop_entries(none, less).commands == none.commands + economy_documents::drop_entries(none, less).commands);
        }
        assert(economy_documents::drop_entries(d, list).lines =~= d.lines + economy_documents::drop_entries(none, list).lines);
        assert(economy_documents::drop_entries(d, list).commands =~= d.commands + economy_documents::drop_entries(none, list).commands);
    }
}

/// The drops of a map stand under its name and lead to the page before and the page behind
/// where they exist.
pub proof fn drops_lead_to_the_neighbouring_pages(drops: GroundDropPage, page: usize)
    ensures
        ({
            let shown = economy_documents::ground_drops(drops, page);
            &&& shown.title == "当前掉落 · "@ + drops.map_name@
            &&& shown.lines == (if drops.entries@.len() == 0 {
                seq!["当前地图没有可拾取的地面掉落"@]
            } else {
                economy_documents::drop_entries(message::titled(""@), drops.entries@).lines
            })
            &&& shown.fields == seq![
                (
                    "页码"@,
                    text::decimal(drops.page as nat) + " / "@
                        + text::decimal(drops.page_count as nat),
                ),
                ("可拾取数量"@, text::decimal(drops.total as nat)),
            ]
            &&& shown.commands == (if drops.entries@.len() == 0 { Seq::<Seq<char>>::empty() } else { economy_documents::drop_entries(message::titled(""@), drops.entries@).commands }) + (if page > 1 { seq!["掉落 "@ + text::decimal((page - 1) as nat)] } else { Seq::<Seq<char>>::empty() }) + (if page < drops.page_count { seq!["掉落 "@ + text::decimal((page + 1) as nat)] } else { Seq::<Seq<char>>::empty() }) + seq!["位置"@, "背包"@]
            &&& shown.notice == None::<Seq<char>>
            &&& shown.illustration == None::<message::Picture>
        }),
{
    let shown = economy_documents::ground_drops(drops, page);
    lemma_drop_entries_frame(drops.entries@);
    assert(shown.lines =~= (if drops.entries@.len() == 0 {
        seq!["当前地图没有可拾取的地面掉落"@]
    } else {
        economy_documents::drop_entries(message::titled(""@), drops.entries@).lines
    }));
    assert(shown.fields =~= seq![
        (
            "页码"@,
            text::decimal(drops.page as nat) + " / "@ + text::decimal(drops.page_count as nat),
        ),
        ("可拾取数量"@, text::decimal(drops.total as nat)),
    ]);
    assert(shown.commands =~= (if drops.entries@.len() == 0 { Seq::<Seq<char>>::empty() } else { economy_documents::drop_entries(message::titled(""@), drops.entries@).commands }) + (if page > 1 { seq!["掉落 "@ + text::decimal((page - 1) as nat)] } else { Seq::<Seq<char>>::empty() }) + (if page < drops.page_count { seq!["掉落 "@ + text::decimal((page + 1) as nat)] } else { Seq::<Seq<char>>::empty() }) + seq!["位置"@, "背包"@]);
}

/// What was picked up is shown with the number of the drop, the new number in the inventory,
/// and the number of the record; a repeated request is answered as a receipt.
pub proof fn picking_up_shows_the_drop_and_the_record(receipt: DropClaimReceipt)
    ensures
        ({
            let shown = economy_documents::picked_up(receipt);
            &&& shown.title == (if receipt.replayed { "拾取回执"@ } else { "拾取成功"@ })
            &&& shown.lines.len() == 0
            &&& shown.fields == seq![
                ("掉落编号"@, text::integer(receipt.drop_id as int)),
                ("拾取物品"@, receipt.item.name@ + " x"@ + text::integer(receipt.quantity as int)),
                ("背包数量"@, text::integer(receipt.inventory_after as int)),
                ("拾取账本编号"@, text::integer(receipt.claim_id as int)),
            ]
            &&& shown.commands == seq!["掉落"@, "背包"@]
            &&& shown.notice == Some(
                if receipt.replayed { "检测到相同消息的重复请求，已返回原拾取回执，未再次增加物品"@ } else { "背包、操作日志和不可变拾取账本已在同一事务完成"@ },
            )
            &&& shown.illustration == None::<message::Picture>
        }),
{
    let shown = economy_documents::picked_up(receipt);
    assert(shown.fields =~= seq![
        ("掉落编号"@, text::integer(receipt.drop_id as int)),
        ("拾取物品"@, receipt.item.name@ + " x"@ + text::integer(receipt.quantity as int)),
        ("背包数量"@, text::integer(receipt.inventory_after as int)),
        ("拾取账本编号"@, text::integer(receipt.claim_id as int)),
    ]);
    assert(shown.commands =~= seq!["掉落"@, "背包"@]);
}

/// A purchase shows what was spent; the balance and the number are those behind it.
pub proof fn a_purchase_shows_what_was_spent(receipt: TradeReceipt)
    ensures
        ({
            let shown = economy_documents::bought(receipt);
            &&& shown.title == "购买成功"@
            &&& shown.lines.len() == 0
            &&& shown.fields == seq![
                ("NPC"@, receipt.npc_name@),
                ("物品"@, receipt.item.name@ + " x"@ + text::integer(receipt.quantity as int)),
                ("花费"@, text::integer(receipt.total_price as int) + " 金魂币"@),
                ("钱包余额"@, text::integer(receipt.balance_after as int)),
                ("背包数量"@, text::integer(receipt.inventory_after as int)),
            ]
            &&& shown.commands == seq!["背包"@, "商店"@]
            &&& shown.notice == Some("购买、扣款和背包入账已在同一事务完成"@)
            &&& shown.illustration == None::<message::Picture>
        }),
{
    let shown = economy_documents::bought(receipt);
    assert(shown.fields =~= seq![
        ("NPC"@, receipt.npc_name@),
        ("物品"@, receipt.item.name@ + " x"@ + text::integer(receipt.quantity as int)),
        ("花费"@, text::integer(receipt.total_price as int) + " 金魂币"@),
        ("钱包余额"@, text::integer(receipt.balance_after as int)),
        ("背包数量"@, text::integer(receipt.inventory_after as int)),
    ]);
    assert(shown.commands =~= seq!["背包"@, "商店"@]);
}

/// A sale shows what was earned; the balance and the number are those behind it.
pub proof fn a_sale_shows_what_was_earned(receipt: TradeReceipt)
    ensures
        ({
            let shown = economy_documents::sold(receipt);
            &&& shown.title == "出售成功"@
            &&& shown.lines.len() == 0
            &&& shown.fields == seq![
                ("NPC"@, receipt.npc_name@),
                ("物品"@, receipt.item.name@ + " x"@ + text::integer(receipt.quantity as int)),
                ("收入"@, text::integer(receipt.total_price as int) + " 金魂币"@),
                ("钱包余额"@, text::integer(receipt.balance_after as int)),
                ("背包数量"@, text::integer(receipt.inventory_after as int)),
            ]
            &&& shown.commands == seq!["背包"@, "商店"@]
            &&& shown.notice == Some("出售、背包扣除和钱包入账已在同一事务完成"@)
            &&& shown.illustration == None::<message::Picture>
        }),
{
    let shown = economy_documents::sold(receipt);
    assert(shown.fields =~= seq![
        ("NPC"@, receipt.npc_name@),
        ("物品"@, receipt.item.name@ + " x"@ + text::integer(receipt.quantity as int)),
        ("收入"@, text::integer(receipt.total_price as int) + " 金魂币"@),
        ("钱包余额"@, text::integer(receipt.balance_after as int)),
        ("背包数量"@, text::integer(receipt.inventory_after as int)),
    ]);
    assert(shown.commands =~= seq!["背包"@, "商店"@]);
}

/// Using a thing shows life and soul power before and behind it, the stability of the spirit
/// where all of it is known, and whether the thing was spent.
pub proof fn using_a_thing_shows_the_change(receipt: ItemUseReceipt)
    ensures
        ({
            let shown = economy_documents::used_item(receipt);
            &&& shown.title == "使用"@ + receipt.item.name@
            &&& shown.lines == (match receipt.wuhun_enabled {
                Some(enabled) => (match receipt.wuhun_stability_before {
                    Some(before) => (match receipt.wuhun_stability_after {
                        Some(after) => (if !enabled {
                            seq!["武魂当前处于收回状态，稳定度会随生命恢复同步"@]
                        } else {
                            Seq::<Seq<char>>::empty()
                        }),
                        None => Seq::<Seq<char>>::empty(),
                    }),
                    None => Seq::<Seq<char>>::empty(),
                }),
                None => Seq::<Seq<char>>::empty(),
            })
            &&& shown.fields == seq![
                    ("背包数量"@, text::integer(receipt.inventory_after as int)),
                    (
                        "生命"@,
                        text::integer(receipt.hp_before as int) + " → "@
                            + text::integer(receipt.hp_after as int) + "/"@
                            + text::integer(receipt.max_hp as int),
                    ),
                    (
                        "魂力"@,
                        text::integer(receipt.soul_power_before as int) + " → "@
                            + text::integer(receipt.soul_power_after as int) + "/"@
                            + text::integer(receipt.max_soul_power as int),
                    ),
                ]
                + (match receipt.wuhun_enabled {
                    Some(enabled) => (match receipt.wuhun_stability_before {
                        Some(before) => (match receipt.wuhun_stability_after {
                            Some(after) => seq![
                                (
                                    "武魂稳定度"@,
                                    text::integer(before as int) + " → "@
                                        + text::integer(after as int) + "/"@
                                        + text::integer(economy_documents::stability_limit(receipt.wuhun_max_stability) as int),
                                ),
                            ],
                            None => Seq::<(Seq<char>, Seq<char>)>::empty(),
                        }),
                        None => Seq::<(Seq<char>, Seq<char>)>::empty(),
                    }),
                    None => Seq::<(Seq<char>, Seq<char>)>::empty(),
                })
            &&& shown.commands == seq!["背包"@, "状态"@]
            &&& shown.notice == (if receipt.consumed { Some("物品已消耗"@) } else { Some("当前属性已满，物品未消耗"@) })
            &&& shown.illustration == None::<message::Picture>
        }),
{
    let shown = economy_documents::used_item(receipt);
    assert(shown.lines =~= (match receipt.wuhun_enabled {
        Some(enabled) => (match receipt.wuhun_stability_before {
            Some(before) => (match receipt.wuhun_stability_after {
                Some(after) => (if !enabled {
                    seq!["武魂当前处于收回状态，稳定度会随生命恢复同步"@]
                } else {
                    Seq::<Seq<char>>::empty()
                }),
                None => Seq::<Seq<char>>::empty(),
            }),
            None => Seq::<Seq<char>>::empty(),
        }),
        None => Seq::<Seq<char>>::empty(),
    }));
    assert(shown.fields =~= seq![
            ("背包数量"@, text::integer(receipt.inventory_after as int)),
            (
                "生命"@,
                text::integer(receipt.hp_before as int) + " → "@
                    + text::integer(receipt.hp_after as int) + "/"@
                    + text::integer(receipt.max_hp as int),
            ),
            (
                "魂力"@,
                text::integer(receipt.soul_power_before as int) + " → "@
                    + text::integer(receipt.soul_power_after as int) + "/"@
                    + text::integer(receipt.max_soul_power as int),
            ),
        ]
        + (match receipt.wuhun_enabled {
            Some(enabled) => (match receipt.wuhun_stability_before {
                Some(before) => (match receipt.wuhun_stability_after {
                    Some(after) => seq![
                        (
                            "武魂稳定度"@,
                            text::integer(before as int) + " → "@ + text::integer(after as int)
                                + "/"@
                                + text::integer(economy_documents::stability_limit(receipt.wuhun_max_stability) as int),
                        ),
                    ],
                    None => Seq::<(Seq<char>, Seq<char>)>::empty(),
                }),
                None => Seq::<(Seq<char>, Seq<char>)>::empty(),
            }),
            None => Seq::<(Seq<char>, Seq<char>)>::empty(),
        }));
    assert(shown.commands =~= seq!["背包"@, "状态"@]);
}

/// Stock is shown as a number or as unlimited, an owner by name or as the public, and an end
/// as a time or as never.
pub proof fn missing_facts_have_words_of_their_own(number: i64, name: String)
    ensures
        economy_documents::stock_text(Some(number)) == "库存 "@ + text::integer(number as int),
        economy_documents::stock_text(None) == "不限量"@,
        economy_documents::owner_text(Some(name)) == "归属 "@ + name@,
        economy_documents::owner_text(None) == "公共掉落"@,
        economy_documents::expiry_text(Some(number)) == "有效至时间戳 "@ + text::integer(
            number as int,
        ),
        economy_documents::expiry_text(None) == "永久"@,
        economy_documents::stability_limit(Some(number)) == number,
        economy_documents::stability_limit(None) == 100,
{
}

} // verus!
