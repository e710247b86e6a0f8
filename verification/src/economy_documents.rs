//! Replies about money, items, shops and characters.
use crate::checkin::CHECKIN_CURRENCY_NAME;
use crate::labels;
use crate::labels::{item_effect_description, item_quality_label, npc_kind_label};
use crate::message;
use crate::message::{Document, GameDocument};
use crate::records::{
    DropClaimReceipt, GiftReceipt, GroundDrop, GroundDropPage, InventoryEntry, InventoryPage,
    ItemUseReceipt, NpcPage, NpcRecord, ShopEntry, ShopPage, TradeReceipt, TransferReceipt,
};
use crate::text;
use crate::text::{cat2, cat3, cat4, cat5, cat7, i64_text, usize_text};
use vstd::string::*;
use vstd::prelude::*;

verus! {

/// The money of a player.
pub open spec fn wallet(balance: i64) -> Document {
    message::titled("我的钱包"@)
        .field(CHECKIN_CURRENCY_NAME@, text::integer(balance as int))
        .command("签到"@)
        .notice("当前展示签到使用的金魂币余额"@)
}

/// The money of a player.
pub fn wallet_document(balance: i64) -> (document: GameDocument)
    ensures
        document@ == wallet(balance),
{
    GameDocument::new("我的钱包")
        .field(CHECKIN_CURRENCY_NAME, &i64_text(balance))
        .command("签到")
        .notice("当前展示签到使用的金魂币余额")
}

/// A transfer of money.
pub open spec fn transfer(receipt: TransferReceipt) -> Document {
    message::titled((if receipt.replayed { "转账回执"@ } else { "转账成功"@ }))
        .field("收款用户"@, receipt.recipient_subject_id@)
        .field("转账金额"@, text::integer(receipt.amount as int) + " "@ + CHECKIN_CURRENCY_NAME@)
        .field("我的余额"@, text::integer(receipt.sender_balance_after as int))
        .field("对方余额"@, text::integer(receipt.recipient_balance_after as int))
        .field("账本编号"@, text::integer(receipt.transfer_id as int))
        .notice(
            if receipt.replayed {
                "检测到相同消息的重复请求，已返回原转账回执，未再次扣款"@
            } else {
                "双方钱包、操作日志与不可变转移账本已在同一事务完成"@
            },
        )
        .command("钱包"@)
}

/// A transfer of money.
pub fn transfer_document(receipt: &TransferReceipt) -> (document: GameDocument)
    ensures
        document@ == transfer(*receipt),
{
    GameDocument::new((if receipt.replayed { "转账回执" } else { "转账成功" }))
        .field("收款用户", &receipt.recipient_subject_id)
        .field("转账金额", &cat3(&i64_text(receipt.amount), " ", CHECKIN_CURRENCY_NAME))
        .field("我的余额", &i64_text(receipt.sender_balance_after))
        .field("对方余额", &i64_text(receipt.recipient_balance_after))
        .field("账本编号", &i64_text(receipt.transfer_id))
        .notice(
            if receipt.replayed {
                "检测到相同消息的重复请求，已返回原转账回执，未再次扣款"
            } else {
                "双方钱包、操作日志与不可变转移账本已在同一事务完成"
            },
        )
        .command("钱包")
}

/// A gift of items.
pub open spec fn gift(receipt: GiftReceipt) -> Document {
    message::titled((if receipt.replayed { "物品赠送回执"@ } else { "物品赠送成功"@ }))
        .field("接收用户"@, receipt.recipient_subject_id@)
        .field("赠送物品"@, receipt.item.name@ + " x"@ + text::integer(receipt.quantity as int))
        .field("我的背包数量"@, text::integer(receipt.sender_inventory_after as int))
        .field("对方背包数量"@, text::integer(receipt.recipient_inventory_after as int))
        .field("账本编号"@, text::integer(receipt.transfer_id as int))
        .notice(
            if receipt.replayed {
                "检测到相同消息的重复请求，已返回原赠送回执，未再次扣除物品"@
            } else {
                "双方背包、操作日志与不可变转移账本已在同一事务完成"@
            },
        )
        .command("背包"@)
}

/// A gift of items.
pub fn gift_document(receipt: &GiftReceipt) -> (document: GameDocument)
    ensures
        document@ == gift(*receipt),
{
    GameDocument::new((if receipt.replayed { "物品赠送回执" } else { "物品赠送成功" }))
        .field("接收用户", &receipt.recipient_subject_id)
        .field("赠送物品", &cat3(&receipt.item.name, " x", &i64_text(receipt.quantity)))
        .field("我的背包数量", &i64_text(receipt.sender_inventory_after))
        .field("对方背包数量", &i64_text(receipt.recipient_inventory_after))
        .field("账本编号", &i64_text(receipt.transfer_id))
        .notice(
            if receipt.replayed {
                "检测到相同消息的重复请求，已返回原赠送回执，未再次扣除物品"
            } else {
                "双方背包、操作日志与不可变转移账本已在同一事务完成"
            },
        )
        .command("背包")
}

/// The document with a character.
pub open spec fn npc_entry(d: Document, npc: NpcRecord) -> Document {
    d
        .line(
            npc.name@ + " · "@ + (if npc.has_shop { "商人"@ } else { "NPC"@ }) + "\n"@
                + npc.description@,
        )
        .command("对话 "@ + npc.name@)
}

fn add_npc_entry(document: GameDocument, npc: &NpcRecord) -> (result: GameDocument)
    ensures
        result@ == npc_entry(document@, *npc),
{
    document
        .line(
            &cat5(
                &npc.name,
                " · ",
                (if npc.has_shop { "商人" } else { "NPC" }),
                "\n",
                &npc.description,
            ),
        )
        .command(&cat2("对话 ", &npc.name))
}

/// The document with the characters.
pub open spec fn npc_entries(d: Document, list: Seq<NpcRecord>) -> Document
    decreases list.len(),
{
    if list.len() == 0 {
        d
    } else {
        npc_entry(npc_entries(d, list.drop_last()), list.last())
    }
}

fn add_npc_entries(document: GameDocument, list: &Vec<NpcRecord>) -> (result: GameDocument)
    ensures
        result@ == npc_entries(document@, list@),
{
    let ghost start = document@;
    let mut document = document;
    let mut i: usize = 0;
    while i < list.len()
        invariant
            i <= list@.len(),
            document@ == npc_entries(start, list@.take(i as int)),
        decreases list@.len() - i,
    {
        assert(list@.take(i + 1).drop_last() =~= list@.take(i as int));
        document = add_npc_entry(document, &list[i]);
        i = i + 1;
    }
    assert(list@.take(i as int) =~= list@);
    document
}

/// The characters on a map.
pub open spec fn npcs(page: NpcPage) -> Document {
    let d = message::titled("当前 NPC · "@ + page.map_name@)
        .field("地图"@, page.map_name@)
        .field("数量"@, text::decimal(page.entries@.len()));
    let d = if page.entries@.len() == 0 {
        d.line("当前地图没有可互动的 NPC"@)
    } else {
        npc_entries(d, page.entries@)
    };
    d.command("位置"@)
}

/// The characters on a map.
pub fn npcs_document(page: &NpcPage) -> (document: GameDocument)
    ensures
        document@ == npcs(*page),
{
    let document = GameDocument::new(&cat2("当前 NPC · ", &page.map_name))
        .field("地图", &page.map_name)
        .field("数量", &usize_text(page.entries.len()));
    let document = if page.entries.len() == 0 {
        document.line("当前地图没有可互动的 NPC")
    } else {
        add_npc_entries(document, &page.entries)
    };
    document.command("位置")
}

/// A talk with a character.
pub open spec fn talk(npc: NpcRecord) -> Document {
    let d = message::titled("与 "@ + npc.name@ + " 对话"@)
        .field("地图"@, npc.map_name@)
        .field("NPC"@, npc.name@)
        .field("身份"@, labels::npc_kind(npc.npc_kind@))
        .line(npc.dialogue@)
        .line(npc.description@)
        .command("NPC"@)
        .command("位置"@);
    let d = if npc.has_shop {
        d.command("商店"@).command("购买 <物品> [数量]"@)
    } else {
        d
    };
    d.notice("当前对话已绑定；移动到其他地图后需要重新对话"@)
}

/// A talk with a character.
pub fn talk_document(npc: &NpcRecord) -> (document: GameDocument)
    ensures
        document@ == talk(*npc),
{
    let document = GameDocument::new(&cat3("与 ", &npc.name, " 对话"))
        .field("地图", &npc.map_name)
        .field("NPC", &npc.name)
        .field("身份", npc_kind_label(&npc.npc_kind))
        .line(&npc.dialogue)
        .line(&npc.description)
        .command("NPC")
        .command("位置");
    let document = if npc.has_shop {
        document.command("商店").command("购买 <物品> [数量]")
    } else {
        document
    };
    document.notice("当前对话已绑定；移动到其他地图后需要重新对话")
}

/// What is in stock, in words.
pub open spec fn stock_text(stock: Option<i64>) -> Seq<char> {
    match stock {
        Some(value) => "库存 "@ + text::integer(value as int),
        None => "不限量"@,
    }
}

fn describe_stock(stock: Option<i64>) -> (label: String)
    ensures
        label@ == stock_text(stock),
{
    match stock {
        Some(value) => cat2("库存 ", &i64_text(value)),
        None => "不限量".to_owned(),
    }
}

/// The document with something that a shop sells.
pub open spec fn shop_entry(d: Document, entry: ShopEntry) -> Document {
    d.line(
        entry.item.name@ + " · "@ + text::integer(entry.price as int) + " 金魂币 · 回收 "@
            + text::integer(entry.item.sell_price as int) + " · "@ + stock_text(entry.stock)
            + "\n"@ + labels::item_effect(entry.item),
    )
}

fn add_shop_entry(document: GameDocument, entry: &ShopEntry) -> (result: GameDocument)
    ensures
        result@ == shop_entry(document@, *entry),
{
    document.line(
        &cat3(
            &cat7(
                &entry.item.name,
                " · ",
                &i64_text(entry.price),
                " 金魂币 · 回收 ",
                &i64_text(entry.item.sell_price),
                " · ",
                &describe_stock(entry.stock),
            ),
            "\n",
            &item_effect_description(&entry.item),
        ),
    )
}

/// The document with what a shop sells.
pub open spec fn shop_entries(d: Document, list: Seq<ShopEntry>) -> Document
    decreases list.len(),
{
    if list.len() == 0 {
        d
    } else {
        shop_entry(shop_entries(d, list.drop_last()), list.last())
    }
}

fn add_shop_entries(document: GameDocument, list: &Vec<ShopEntry>) -> (result: GameDocument)
    ensures
        result@ == shop_entries(document@, list@),
{
    let ghost start = document@;
    let mut document = document;
    let mut i: usize = 0;
    while i < list.len()
        invariant
            i <= list@.len(),
            document@ == shop_entries(start, list@.take(i as int)),
        decreases list@.len() - i,
    {
        assert(list@.take(i + 1).drop_last() =~= list@.take(i as int));
        document = add_shop_entry(document, &list[i]);
        i = i + 1;
    }
    assert(list@.take(i as int) =~= list@);
    document
}

/// A page of a shop, as it was asked for.
pub open spec fn shop_goods(shop: ShopPage, page: usize) -> Document {
    let d = message::titled(shop.npc.name@ + "的商店"@)
        .field("地图"@, shop.npc.map_name@)
        .field(
            "页码"@,
            text::decimal(shop.page as nat) + " / "@ + text::decimal(shop.page_count as nat),
        )
        .field("商品总数"@, text::decimal(shop.total as nat));
    let d = if shop.entries@.len() == 0 {
        d.line("商店暂时没有商品"@)
    } else {
        shop_entries(d, shop.entries@)
    };
    let d = if page > 1 {
        d.command("商店 "@ + text::decimal((page - 1) as nat))
    } else {
        d
    };
    let d = if page < shop.page_count {
        d.command("商店 "@ + text::decimal((page + 1) as nat))
    } else {
        d
    };
    d
        .command("购买 <物品> [数量]"@)
        .command("出售 <物品> [数量]"@)
        .command("背包"@)
}

/// A page of a shop, as it was asked for.
pub fn shop_document(shop: &ShopPage, page: usize) -> (document: GameDocument)
    ensures
        document@ == shop_goods(*shop, page),
{
    let document = GameDocument::new(&cat2(&shop.npc.name, "的商店"))
        .field("地图", &shop.npc.map_name)
        .field("页码", &cat3(&usize_text(shop.page), " / ", &usize_text(shop.page_count)))
        .field("商品总数", &usize_text(shop.total));
    let document = if shop.entries.len() == 0 {
        document.line("商店暂时没有商品")
    } else {
        add_shop_entries(document, &shop.entries)
    };
    let document = if page > 1 {
        document.command(&cat2("商店 ", &usize_text(page - 1)))
    } else {
        document
    };
    let document = if page < shop.page_count {
        document.command(&cat2("商店 ", &usize_text(page + 1)))
    } else {
        document
    };
    document
        .command("购买 <物品> [数量]")
        .command("出售 <物品> [数量]")
        .command("背包")
}

/// The document with items that a player carries.
pub open spec fn inventory_entry(d: Document, entry: InventoryEntry) -> Document {
    d.line(
        entry.item.name@ + " x"@ + text::integer(entry.quantity as int) + " · "@
            + labels::item_quality(entry.item.quality) + "\n"@ + labels::item_effect(entry.item),
    )
}

fn add_inventory_entry(document: GameDocument, entry: &InventoryEntry) -> (result: GameDocument)
    ensures
        result@ == inventory_entry(document@, *entry),
{
    document.line(
        &cat7(
            &entry.item.name,
            " x",
            &i64_text(entry.quantity),
            " · ",
            &item_quality_label(entry.item.quality),
            "\n",
            &item_effect_description(&entry.item),
        ),
    )
}

/// The document with what a player carries.
pub open spec fn inventory_entries(d: Document, list: Seq<InventoryEntry>) -> Document
    decreases list.len(),
{
    if list.len() == 0 {
        d
    } else {
        inventory_entry(inventory_entries(d, list.drop_last()), list.last())
    }
}

fn add_inventory_entries(
    document: GameDocument,
    list: &Vec<InventoryEntry>,
) -> (result: GameDocument)
    ensures
        result@ == inventory_entries(document@, list@),
{
    let ghost start = document@;
    let mut document = document;
    let mut i: usize = 0;
    while i < list.len()
        invariant
            i <= list@.len(),
            document@ == inventory_entries(start, list@.take(i as int)),
        decreases list@.len() - i,
    {
        assert(list@.take(i + 1).drop_last() =~= list@.take(i as int));
        document = add_inventory_entry(document, &list[i]);
        i = i + 1;
    }
    assert(list@.take(i as int) =~= list@);
    document
}

/// A page of what a player carries, as it was asked for.
pub open spec fn carried(inventory: InventoryPage, balance: i64, page: usize) -> Document {
    let d = message::titled("随身物品"@)
        .field(
            "页码"@,
            text::decimal(inventory.page as nat) + " / "@
                + text::decimal(inventory.page_count as nat),
        )
        .field("物品种类"@, text::decimal(inventory.total as nat))
        .field(CHECKIN_CURRENCY_NAME@, text::integer(balance as int));
    let d = if inventory.entries@.len() == 0 {
        d.line("背包为空"@)
    } else {
        inventory_entries(d, inventory.entries@)
    };
    let d = if page > 1 {
        d.command("背包 "@ + text::decimal((page - 1) as nat))
    } else {
        d
    };
    let d = if page < inventory.page_count {
        d.command("背包 "@ + text::decimal((page + 1) as nat))
    } else {
        d
    };
    d
        .command("使用 <物品>"@)
        .command("商店"@)
        .command("钱包"@)
}

/// A page of what a player carries, as it was asked for.
pub fn inventory_document(
    inventory: &InventoryPage,
    balance: i64,
    page: usize,
) -> (document: GameDocument)
    ensures
        document@ == carried(*inventory, balance, page),
{
    let document = GameDocument::new("随身物品")
        .field("页码", &cat3(&usize_text(inventory.page), " / ", &usize_text(inventory.page_count)))
        .field("物品种类", &usize_text(inventory.total))
        .field(CHECKIN_CURRENCY_NAME, &i64_text(balance));
    let document = if inventory.entries.len() == 0 {
        document.line("背包为空")
    } else {
        add_inventory_entries(document, &inventory.entries)
    };
    let document = if page > 1 {
        document.command(&cat2("背包 ", &usize_text(page - 1)))
    } else {
        document
    };
    let document = if page < inventory.page_count {
        document.command(&cat2("背包 ", &usize_text(page + 1)))
    } else {
        document
    };
    document
        .command("使用 <物品>")
        .command("商店")
        .command("钱包")
}

/// To whom a drop belongs, in words.
pub open spec fn owner_text(owner: Option<String>) -> Seq<char> {
    match owner {
        Some(owner) => "归属 "@ + owner@,
        None => "公共掉落"@,
    }
}

fn describe_owner(owner: &Option<String>) -> (label: String)
    ensures
        label@ == owner_text(*owner),
{
    match owner {
        Some(owner) => cat2("归属 ", owner),
        None => "公共掉落".to_owned(),
    }
}

/// How long a drop lies there, in words.
pub open spec fn expiry_text(expires_at: Option<i64>) -> Seq<char> {
    match expires_at {
        Some(expires_at) => "有效至时间戳 "@ + text::integer(expires_at as int),
        None => "永久"@,
    }
}

fn describe_expiry(expires_at: Option<i64>) -> (label: String)
    ensures
        label@ == expiry_text(expires_at),
{
    match expires_at {
        Some(expires_at) => cat2("有效至时间戳 ", &i64_text(expires_at)),
        None => "永久".to_owned(),
    }
}

/// The document with items on the ground.
pub open spec fn drop_entry(d: Document, drop: GroundDrop) -> Document {
    d
        .line(
            "#"@ + text::integer(drop.id as int) + " · "@ + drop.item.name@ + " x"@
                + text::integer(drop.quantity as int) + " · "@ + owner_text(drop.owner_subject_id)
                + " · "@ + expiry_text(drop.expires_at),
        )
        .command("拾取 "@ + text::integer(drop.id as int))
}

fn add_drop_entry(document: GameDocument, drop: &GroundDrop) -> (result: GameDocument)
    ensures
        result@ == drop_entry(document@, *drop),
{
    document
        .line(
            &cat4(
                &cat7(
                    "#",
                    &i64_text(drop.id),
                    " · ",
                    &drop.item.name,
                    " x",
                    &i64_text(drop.quantity),
                    " · ",
                ),
                &describe_owner(&drop.owner_subject_id),
                " · ",
                &describe_expiry(drop.expires_at),
            ),
        )
        .command(&cat2("拾取 ", &i64_text(drop.id)))
}

/// The document with what lies on the ground.
pub open spec fn drop_entries(d: Document, list: Seq<GroundDrop>) -> Document
    decreases list.len(),
{
    if list.len() == 0 {
        d
    } else {
        drop_entry(drop_entries(d, list.drop_last()), list.last())
    }
}

fn add_drop_entries(document: GameDocument, list: &Vec<GroundDrop>) -> (result: GameDocument)
    ensures
        result@ == drop_entries(document@, list@),
{
    let ghost start = document@;
    let mut document = document;
    let mut i: usize = 0;
    while i < list.len()
        invariant
            i <= list@.len(),
            document@ == drop_entries(start, list@.take(i as int)),
        decreases list@.len() - i,
    {
        assert(list@.take(i + 1).drop_last() =~= list@.take(i as int));
        document = add_drop_entry(document, &list[i]);
        i = i + 1;
    }
    assert(list@.take(i as int) =~= list@);
    document
}

/// A page of what lies on the ground, as it was asked for.
pub open spec fn ground_drops(drops: GroundDropPage, page: usize) -> Document {
    let d = message::titled("当前掉落 · "@ + drops.map_name@)
        .field(
            "页码"@,
            text::decimal(drops.page as nat) + " / "@ + text::decimal(drops.page_count as nat),
        )
        .field("可拾取数量"@, text::decimal(drops.total as nat));
    let d = if drops.entries@.len() == 0 {
        d.line("当前地图没有可拾取的地面掉落"@)
    } else {
        drop_entries(d, drops.entries@)
    };
    let d = if page > 1 {
        d.command("掉落 "@ + text::decimal((page - 1) as nat))
    } else {
        d
    };
    let d = if page < drops.page_count {
        d.command("掉落 "@ + text::decimal((page + 1) as nat))
    } else {
        d
    };
    d.command("位置"@).command("背包"@)
}

/// A page of what lies on the ground, as it was asked for.
pub fn ground_drops_document(drops: &GroundDropPage, page: usize) -> (document: GameDocument)
    ensures
        document@ == ground_drops(*drops, page),
{
    let document = GameDocument::new(&cat2("当前掉落 · ", &drops.map_name))
        .field("页码", &cat3(&usize_text(drops.page), " / ", &usize_text(drops.page_count)))
        .field("可拾取数量", &usize_text(drops.total));
    let document = if drops.entries.len() == 0 {
        document.line("当前地图没有可拾取的地面掉落")
    } else {
        add_drop_entries(document, &drops.entries)
    };
    let document = if page > 1 {
        document.command(&cat2("掉落 ", &usize_text(page - 1)))
    } else {
        document
    };
    let document = if page < drops.page_count {
        document.command(&cat2("掉落 ", &usize_text(page + 1)))
    } else {
        document
    };
    document.command("位置").command("背包")
}

/// Items that were picked up.
pub open spec fn picked_up(receipt: DropClaimReceipt) -> Document {
    message::titled((if receipt.replayed { "拾取回执"@ } else { "拾取成功"@ }))
        .field("掉落编号"@, text::integer(receipt.drop_id as int))
        .field("拾取物品"@, receipt.item.name@ + " x"@ + text::integer(receipt.quantity as int))
        .field("背包数量"@, text::integer(receipt.inventory_after as int))
        .field("拾取账本编号"@, text::integer(receipt.claim_id as int))
        .notice(
            if receipt.replayed {
                "检测到相同消息的重复请求，已返回原拾取回执，未再次增加物品"@
            } else {
                "背包、操作日志和不可变拾取账本已在同一事务完成"@
            },
        )
        .command("掉落"@)
        .command("背包"@)
}

/// Items that were picked up.
pub fn picked_up_document(receipt: &DropClaimReceipt) -> (document: GameDocument)
    ensures
        document@ == picked_up(*receipt),
{
    GameDocument::new((if receipt.replayed { "拾取回执" } else { "拾取成功" }))
        .field("掉落编号", &i64_text(receipt.drop_id))
        .field("拾取物品", &cat3(&receipt.item.name, " x", &i64_text(receipt.quantity)))
        .field("背包数量", &i64_text(receipt.inventory_after))
        .field("拾取账本编号", &i64_text(receipt.claim_id))
        .notice(
            if receipt.replayed {
                "检测到相同消息的重复请求，已返回原拾取回执，未再次增加物品"
            } else {
                "背包、操作日志和不可变拾取账本已在同一事务完成"
            },
        )
        .command("掉落")
        .command("背包")
}

/// A purchase.
pub open spec fn bought(receipt: TradeReceipt) -> Document {
    message::titled("购买成功"@)
        .field("NPC"@, receipt.npc_name@)
        .field("物品"@, receipt.item.name@ + " x"@ + text::integer(receipt.quantity as int))
        .field("花费"@, text::integer(receipt.total_price as int) + " 金魂币"@)
        .field("钱包余额"@, text::integer(receipt.balance_after as int))
        .field("背包数量"@, text::integer(receipt.inventory_after as int))
        .notice("购买、扣款和背包入账已在同一事务完成"@)
        .command("背包"@)
        .command("商店"@)
}

/// A purchase.
pub fn bought_document(receipt: &TradeReceipt) -> (document: GameDocument)
    ensures
        document@ == bought(*receipt),
{
    GameDocument::new("购买成功")
        .field("NPC", &receipt.npc_name)
        .field("物品", &cat3(&receipt.item.name, " x", &i64_text(receipt.quantity)))
        .field("花费", &cat2(&i64_text(receipt.total_price), " 金魂币"))
        .field("钱包余额", &i64_text(receipt.balance_after))
        .field("背包数量", &i64_text(receipt.inventory_after))
        .notice("购买、扣款和背包入账已在同一事务完成")
        .command("背包")
        .command("商店")
}

/// A sale.
pub open spec fn sold(receipt: TradeReceipt) -> Document {
    message::titled("出售成功"@)
        .field("NPC"@, receipt.npc_name@)
        .field("物品"@, receipt.item.name@ + " x"@ + text::integer(receipt.quantity as int))
        .field("收入"@, text::integer(receipt.total_price as int) + " 金魂币"@)
        .field("钱包余额"@, text::integer(receipt.balance_after as int))
        .field("背包数量"@, text::integer(receipt.inventory_after as int))
        .notice("出售、背包扣除和钱包入账已在同一事务完成"@)
        .command("背包"@)
        .command("商店"@)
}

/// A sale.
pub fn sold_document(receipt: &TradeReceipt) -> (document: GameDocument)
    ensures
        document@ == sold(*receipt),
{
    GameDocument::new("出售成功")
        .field("NPC", &receipt.npc_name)
        .field("物品", &cat3(&receipt.item.name, " x", &i64_text(receipt.quantity)))
        .field("收入", &cat2(&i64_text(receipt.total_price), " 金魂币"))
        .field("钱包余额", &i64_text(receipt.balance_after))
        .field("背包数量", &i64_text(receipt.inventory_after))
        .notice("出售、背包扣除和钱包入账已在同一事务完成")
        .command("背包")
        .command("商店")
}

/// The largest stability of a martial soul, a hundred where it is not said.
pub open spec fn stability_limit(max_stability: Option<i64>) -> i64 {
    match max_stability {
        Some(max_stability) => max_stability,
        None => 100,
    }
}

fn limit_of_stability(max_stability: Option<i64>) -> (limit: i64)
    ensures
        limit == stability_limit(max_stability),
{
    match max_stability {
        Some(max_stability) => max_stability,
        None => 100,
    }
}

/// The document with what an item did to the martial soul.
pub open spec fn used_on_wuhun(
    d: Document,
    receipt: ItemUseReceipt,
    enabled: bool,
    before: i64,
    after: i64,
) -> Document {
    let d = d.field(
        "武魂稳定度"@,
        text::integer(before as int) + " → "@ + text::integer(after as int) + "/"@
            + text::integer(stability_limit(receipt.wuhun_max_stability) as int),
    );
    if !enabled {
        d.line("武魂当前处于收回状态，稳定度会随生命恢复同步"@)
    } else {
        d
    }
}

fn add_used_on_wuhun(
    document: GameDocument,
    receipt: &ItemUseReceipt,
    enabled: bool,
    before: i64,
    after: i64,
) -> (result: GameDocument)
    ensures
        result@ == used_on_wuhun(document@, *receipt, enabled, before, after),
{
    let document = document.field(
        "武魂稳定度",
        &cat5(
            &i64_text(before),
            " → ",
            &i64_text(after),
            "/",
            &i64_text(limit_of_stability(receipt.wuhun_max_stability)),
        ),
    );
    if !enabled {
        document.line("武魂当前处于收回状态，稳定度会随生命恢复同步")
    } else {
        document
    }
}

/// The document with what an item did to the martial soul, where all of it is known.
pub open spec fn wuhun_use(d: Document, receipt: ItemUseReceipt) -> Document {
    match receipt.wuhun_enabled {
        Some(enabled) => {
            match receipt.wuhun_stability_before {
                Some(before) => {
                    match receipt.wuhun_stability_after {
                        Some(after) => {
                            used_on_wuhun(d, receipt, enabled, before, after)
                        },
                        None => d,
                    }
                },
                None => d,
            }
        },
        None => d,
    }
}

fn add_wuhun_use(document: GameDocument, receipt: &ItemUseReceipt) -> (result: GameDocument)
    ensures
        result@ == wuhun_use(document@, *receipt),
{
    match receipt.wuhun_enabled {
        Some(enabled) => {
            match receipt.wuhun_stability_before {
                Some(before) => {
                    match receipt.wuhun_stability_after {
                        Some(after) => {
                            add_used_on_wuhun(document, receipt, enabled, before, after)
                        },
                        None => document,
                    }
                },
                None => document,
            }
        },
        None => document,
    }
}

/// The use of an item.
pub open spec fn used_item(receipt: ItemUseReceipt) -> Document {
    let d = message::titled("使用"@ + receipt.item.name@)
        .field("背包数量"@, text::integer(receipt.inventory_after as int))
        .field(
            "生命"@,
            text::integer(receipt.hp_before as int) + " → "@
                + text::integer(receipt.hp_after as int) + "/"@
                + text::integer(receipt.max_hp as int),
        )
        .field(
            "魂力"@,
            text::integer(receipt.soul_power_before as int) + " → "@
                + text::integer(receipt.soul_power_after as int) + "/"@
                + text::integer(receipt.max_soul_power as int),
        );
    let d = wuhun_use(d, receipt);
    let d = if receipt.consumed {
        d.notice("物品已消耗"@)
    } else {
        d.notice("当前属性已满，物品未消耗"@)
    };
    d.command("背包"@).command("状态"@)
}

/// The use of an item.
pub fn used_item_document(receipt: &ItemUseReceipt) -> (document: GameDocument)
    ensures
        document@ == used_item(*receipt),
{
    let document = GameDocument::new(&cat2("使用", &receipt.item.name))
        .field("背包数量", &i64_text(receipt.inventory_after))
        .field(
            "生命",
            &cat5(
                &i64_text(receipt.hp_before),
                " → ",
                &i64_text(receipt.hp_after),
                "/",
                &i64_text(receipt.max_hp),
            ),
        )
        .field(
            "魂力",
            &cat5(
                &i64_text(receipt.soul_power_before),
                " → ",
                &i64_text(receipt.soul_power_after),
                "/",
                &i64_text(receipt.max_soul_power),
            ),
        );
    let document = add_wuhun_use(document, receipt);
    let document = if receipt.consumed {
        document.notice("物品已消耗")
    } else {
        document.notice("当前属性已满，物品未消耗")
    };
    document.command("背包").command("状态")
}

} // verus!
