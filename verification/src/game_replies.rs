//! The second half of the commands: what the store handed back, with its picture.
use crate::battle_documents;
use crate::battle_documents::{
    battle_action_document, battle_log_document, battle_snapshot_document,
};
use crate::economy_documents;
use crate::economy_documents::wallet_document;
use crate::game::{GameService, NO_PLAYER};
use crate::labels::ProficiencyRules;
use crate::message::GameDocument;
use crate::player_documents;
use crate::player_documents::{
    awakened_document, registered_document, skill_detail_document, status_document,
    wuhun_toggle_document,
};
use crate::records::{
    BattleActionReceipt, BattleLog, BattleSnapshot, ExperienceProgress, MapExit, MapPage,
    MapRecord, MapTravelReceipt, PlayerStatus, SkillDetail, WuhunRecord, WuhunToggleReceipt,
};
use crate::text;
use crate::text::cat3;
use crate::world_documents;
use crate::world_documents::{map_list_document, transition_document, world_document};
use vstd::prelude::*;
use vstd::string::*;

verus! {

impl GameService {
    /// A new player, with the picture of the first village.
    pub fn register_document(&self, player: &PlayerStatus) -> (document: GameDocument)
        ensures
            document@ == player_documents::registered(
                *player,
                self.picture("map"@, "圣魂村"@, "cover"@),
            ),
    {
        registered_document(player, self.asset_illustration("map", "圣魂村", "cover"))
    }

    /// A martial soul that awoke, with its picture.
    pub fn awaken_document(&self, wuhun: &WuhunRecord) -> (document: GameDocument)
        ensures
            document@ == player_documents::awakened(
                *wuhun,
                self.picture("wuhun"@, wuhun.name@, "portrait"@),
            ),
    {
        awakened_document(wuhun, self.wuhun_illustration(&wuhun.name))
    }

    /// A martial soul that was opened or closed, with its picture.
    pub fn wuhun_toggle_document(
        &self,
        receipt: &WuhunToggleReceipt,
        enabled: bool,
    ) -> (document: GameDocument)
        ensures
            document@ == player_documents::wuhun_toggle(
                *receipt,
                enabled,
                self.picture("wuhun"@, receipt.state.name@, "portrait"@),
            ),
    {
        wuhun_toggle_document(receipt, enabled, self.wuhun_illustration(&receipt.state.name))
    }

    /// The outcome of an action in a battle, with the picture of the beast.
    pub fn battle_action_document(
        &self,
        receipt: &BattleActionReceipt,
    ) -> (document: GameDocument)
        ensures
            document@ == battle_documents::battle_action(
                *receipt,
                self.picture("soul_beast"@, receipt.battle.beast.name@, "battle"@),
            ),
    {
        battle_action_document(
            receipt,
            self.asset_illustration("soul_beast", &receipt.battle.beast.name, "battle"),
        )
    }

    /// A battle and its events, with the picture of the beast.
    pub fn battle_log_document(&self, log: &BattleLog) -> (document: GameDocument)
        ensures
            document@ == battle_documents::battle_log(
                *log,
                self.picture("soul_beast"@, log.battle.beast.name@, "battle"@),
            ),
    {
        battle_log_document(
            log,
            self.asset_illustration("soul_beast", &log.battle.beast.name, "battle"),
        )
    }

    /// The state of a battle, with the picture of the beast.
    pub fn battle_snapshot_document(
        &self,
        battle: &BattleSnapshot,
        title: &str,
    ) -> (document: GameDocument)
        ensures
            document@ == battle_documents::battle_snapshot(
                *battle,
                title@,
                self.picture("soul_beast"@, battle.beast.name@, "battle"@),
            ),
    {
        battle_snapshot_document(
            battle,
            title,
            self.asset_illustration("soul_beast", &battle.beast.name, "battle"),
        )
    }

    /// A map, with its picture.
    pub fn world_document(
        &self,
        map: &MapRecord,
        exits: &Vec<MapExit>,
        player: &Option<PlayerStatus>,
    ) -> (document: GameDocument)
        ensures
            document@ == world_documents::world(
                *map,
                *exits,
                *player,
                self.picture("map"@, map.name@, "cover"@),
            ),
    {
        world_document(map, exits, player, self.asset_illustration("map", &map.name, "cover"))
    }

    /// A journey that ended, with the picture of the place.
    pub fn transition_document(
        &self,
        receipt: &MapTravelReceipt,
        exits: &Vec<MapExit>,
        title: &str,
    ) -> (document: GameDocument)
        ensures
            document@ == world_documents::transition(
                *receipt,
                *exits,
                title@,
                self.picture("map"@, receipt.to.name@, "cover"@),
            ),
    {
        transition_document(
            receipt,
            exits,
            title,
            self.asset_illustration("map", &receipt.to.name, "cover"),
        )
    }

    /// The state of a player, with the picture of the martial soul.
    pub fn status_document(&self, player: &PlayerStatus, progress: &Option<ExperienceProgress>) -> (document:
        GameDocument)
        ensures
            document@ == player_documents::status(
                *player,
                *progress,
                match player.wuhun_name {
                    Some(name) => self.picture("wuhun"@, name@, "portrait"@),
                    None => None,
                },
            ),
    {
        let picture = match &player.wuhun_name {
            Some(name) => self.wuhun_illustration(name),
            None => None,
        };
        status_document(player, progress, picture)
    }

    /// The state of the sender, or that there is no such player.
    pub fn status_reply(&self, player: &Option<PlayerStatus>, progress: &Option<
        ExperienceProgress,
    >) -> (result: Result<GameDocument, String>)
        ensures
            match *player {
                Some(player) => result matches Ok(document) && document@
                    == player_documents::status(
                    player,
                    *progress,
                    match player.wuhun_name {
                        Some(name) => self.picture("wuhun"@, name@, "portrait"@),
                        None => None,
                    },
                ),
                None => result matches Err(message) && message@ == NO_PLAYER@,
            },
    {
        match player {
            Some(player) => Ok(self.status_document(player, progress)),
            None => Err(NO_PLAYER.to_owned()),
        }
    }

    /// The place of the sender, or what is missing.
    pub fn location_reply(
        &self,
        player: &Option<PlayerStatus>,
        map: &Option<MapRecord>,
        exits: &Vec<MapExit>,
    ) -> (result: Result<GameDocument, String>)
        ensures
            match (*player, *map) {
                (None, _) => result matches Err(message) && message@ == NO_PLAYER@,
                (Some(_), None) => result matches Err(message) && message@
                    == "角色的地图存档不存在，请联系管理员修复地图绑定"@,
                (Some(_), Some(map)) => result matches Ok(document) && document@
                    == world_documents::world(
                    map,
                    *exits,
                    *player,
                    self.picture("map"@, map.name@, "cover"@),
                ),
            },
    {
        match player {
            None => Err(NO_PLAYER.to_owned()),
            Some(_) => match map {
                None => Err("角色的地图存档不存在，请联系管理员修复地图绑定".to_owned()),
                Some(map) => Ok(self.world_document(map, exits, player)),
            },
        }
    }

    /// The battle of the sender, or that there is none.
    pub fn battle_status_reply(&self, battle: &Option<BattleSnapshot>) -> (result: Result<
        GameDocument,
        String,
    >)
        ensures
            match *battle {
                Some(battle) => result matches Ok(document) && document@
                    == battle_documents::battle_snapshot(
                    battle,
                    "当前战斗"@,
                    self.picture("soul_beast"@, battle.beast.name@, "battle"@),
                ),
                None => result matches Err(message) && message@
                    == "你当前不在战斗中，请先使用“挑战 <魂兽>”"@,
            },
    {
        match battle {
            Some(battle) => Ok(self.battle_snapshot_document(battle, "当前战斗")),
            None => Err("你当前不在战斗中，请先使用“挑战 <魂兽>”".to_owned()),
        }
    }

    /// The last battle of the sender, or that there was none.
    pub fn battle_logs_reply(&self, log: &Option<BattleLog>) -> (result: Result<
        GameDocument,
        String,
    >)
        ensures
            match *log {
                Some(log) => result matches Ok(document) && document@
                    == battle_documents::battle_log(
                    log,
                    self.picture("soul_beast"@, log.battle.beast.name@, "battle"@),
                ),
                None => result matches Err(message) && message@
                    == "还没有战斗记录，请先使用“挑战 <魂兽>”"@,
            },
    {
        match log {
            Some(log) => Ok(self.battle_log_document(log)),
            None => Err("还没有战斗记录，请先使用“挑战 <魂兽>”".to_owned()),
        }
    }
}

/// The money of the sender, or that there is no such player.
pub fn wallet_reply(balance: Option<i64>) -> (result: Result<GameDocument, String>)
    ensures
        match balance {
            Some(balance) => result matches Ok(document) && document@ == economy_documents::wallet(
                balance,
            ),
            None => result matches Err(message) && message@ == NO_PLAYER@,
        },
{
    match balance {
        Some(balance) => Ok(wallet_document(balance)),
        None => Err(NO_PLAYER.to_owned()),
    }
}

/// A page of maps for the sender, or that there is no such player.
pub fn map_list_reply(player: &Option<PlayerStatus>, maps: &MapPage, page: usize) -> (result: Result<
    GameDocument,
    String,
>)
    ensures
        match *player {
            Some(player) => result matches Ok(document) && document@ == world_documents::map_list(
                *maps,
                player.level,
                page,
            ),
            None => result matches Err(message) && message@ == NO_PLAYER@,
        },
{
    match player {
        Some(player) => Ok(map_list_document(maps, player.level, page)),
        None => Err(NO_PLAYER.to_owned()),
    }
}

/// A soul skill that was asked for, or that the sender does not know it. The rules and
/// the damage are those of its level.
pub fn skill_detail_reply(
    name: &str,
    detail: &Option<SkillDetail>,
    rules: ProficiencyRules,
    damage_percent: Result<i64, String>,
) -> (result: Result<GameDocument, String>)
    ensures
        match *detail {
            None => result matches Err(message) && message@ == "你尚未学习魂技“"@ + name@ + "”"@,
            Some(detail) => match damage_percent {
                Err(reason) => result matches Err(message) && message@ == reason@,
                Ok(percent) => result matches Ok(document) && document@
                    == player_documents::skill_detail(detail, rules, percent),
            },
        },
{
    match detail {
        None => Err(cat3("你尚未学习魂技“", name, "”")),
        Some(detail) => match damage_percent {
            Err(reason) => Err(reason),
            Ok(percent) => Ok(skill_detail_document(detail, rules, percent)),
        },
    }
}

/// What is in a wallet, as the list of items shows it.
pub fn shown_balance(balance: Option<i64>) -> (amount: i64)
    ensures
        amount == (match balance {
            Some(balance) => balance,
            None => 0,
        }),
{
    match balance {
        Some(balance) => balance,
        None => 0,
    }
}

} // verus!
