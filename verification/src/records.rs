//! What the store of the game hands back: players, items, quests, battles.
use vstd::prelude::*;

verus! {

/// A soul skill.
#[derive(Clone, Debug, PartialEq, Eq)]
pub struct SkillRecord {
    pub name: String,
    pub skill_type: String,
    pub ring_index: i64,
    pub soul_power_cost: i64,
    pub cooldown_rounds: i64,
    pub base_damage: i64,
    pub description: String,
}

/// An additional effect of a soul skill.
#[derive(Clone, Debug, PartialEq, Eq)]
pub struct SkillEffectRecord {
    pub effect_kind: String,
    pub target_kind: String,
    pub magnitude_percent: i64,
    pub duration_rounds: i64,
    pub description: String,
}

/// A soul skill that a player has learned.
#[derive(Clone, Debug, PartialEq, Eq)]
pub struct SkillEntry {
    pub skill: SkillRecord,
    pub level: i64,
    pub proficiency: i64,
    pub equipped: bool,
}

/// A learned soul skill with its effects.
#[derive(Clone, Debug, PartialEq, Eq)]
pub struct SkillDetail {
    pub entry: SkillEntry,
    pub effects: Vec<SkillEffectRecord>,
}

/// The soul skills of a player.
#[derive(Clone, Debug, PartialEq, Eq)]
pub struct SkillPage {
    pub soul_power: i64,
    pub max_soul_power: i64,
    pub entries: Vec<SkillEntry>,
}

/// A change of the soul skills in use.
#[derive(Clone, Debug, PartialEq, Eq)]
pub struct SkillLoadoutReceipt {
    pub replayed: bool,
    pub equipped: bool,
    pub skill: SkillRecord,
    pub equipped_count: i64,
    pub capacity: i64,
}

/// A soul ring.
#[derive(Clone, Debug, PartialEq, Eq)]
pub struct SoulRingRecord {
    pub name: String,
    pub color: String,
    pub age: i64,
    pub soul_beast_name: String,
    pub skill: SkillRecord,
}

/// A soul ring that a player has absorbed.
#[derive(Clone, Debug, PartialEq, Eq)]
pub struct OwnedSoulRing {
    pub ring_index: i64,
    pub ring: SoulRingRecord,
}

/// A soul ring that waits to be absorbed.
#[derive(Clone, Debug, PartialEq, Eq)]
pub struct SoulRingDrop {
    pub ring: SoulRingRecord,
}

/// The soul rings of a player.
#[derive(Clone, Debug, PartialEq, Eq)]
pub struct SoulRingPage {
    pub rings: Vec<OwnedSoulRing>,
    pub ring_capacity: i64,
    pub pending: Vec<SoulRingDrop>,
}

/// The absorption of a soul ring.
#[derive(Clone, Debug, PartialEq, Eq)]
pub struct SoulRingAbsorbReceipt {
    pub replayed: bool,
    pub ring: OwnedSoulRing,
    pub skill: SkillRecord,
}

/// A martial soul.
#[derive(Clone, Debug, PartialEq, Eq)]
pub struct WuhunRecord {
    pub name: String,
    pub category: String,
    pub form: String,
    pub description: String,
}

/// The state of a player's martial soul.
#[derive(Clone, Debug, PartialEq, Eq)]
pub struct WuhunState {
    pub name: String,
    pub enabled: bool,
    pub stability: i64,
    pub max_stability: i64,
}

/// The opening or closing of a martial soul.
#[derive(Clone, Debug, PartialEq, Eq)]
pub struct WuhunToggleReceipt {
    pub state: WuhunState,
    pub replayed: bool,
}

/// A daily check-in.
#[derive(Clone, Debug, PartialEq, Eq)]
pub struct DailyCheckinReceipt {
    pub currency_code: String,
    pub cycle_day: i64,
    pub exp_reward: i64,
    pub currency_reward: i64,
    pub total_claims: i64,
    pub streak_days: i64,
    pub title_after: String,
    pub exp_after: i64,
    pub currency_balance_after: i64,
    pub levels_gained: i64,
    pub level_before: i64,
}

/// A transfer of money.
#[derive(Clone, Debug, PartialEq, Eq)]
pub struct TransferReceipt {
    pub replayed: bool,
    pub recipient_subject_id: String,
    pub amount: i64,
    pub sender_balance_after: i64,
    pub recipient_balance_after: i64,
    pub transfer_id: i64,
}

/// An item.
#[derive(Clone, Debug, PartialEq, Eq)]
pub struct ItemRecord {
    pub name: String,
    pub quality: i64,
    pub sell_price: i64,
    pub effect_kind: String,
    pub effect_amount: i64,
    pub revive_hp_percent: i64,
    pub description: String,
}

/// A gift of items.
#[derive(Clone, Debug, PartialEq, Eq)]
pub struct GiftReceipt {
    pub replayed: bool,
    pub recipient_subject_id: String,
    pub item: ItemRecord,
    pub quantity: i64,
    pub sender_inventory_after: i64,
    pub recipient_inventory_after: i64,
    pub transfer_id: i64,
}

/// A character of the world.
#[derive(Clone, Debug, PartialEq, Eq)]
pub struct NpcRecord {
    pub name: String,
    pub map_name: String,
    pub npc_kind: String,
    pub dialogue: String,
    pub description: String,
    pub has_shop: bool,
}

/// The characters on a map.
#[derive(Clone, Debug, PartialEq, Eq)]
pub struct NpcPage {
    pub map_name: String,
    pub entries: Vec<NpcRecord>,
}

/// Something that a shop sells.
#[derive(Clone, Debug, PartialEq, Eq)]
pub struct ShopEntry {
    pub item: ItemRecord,
    pub price: i64,
    pub stock: Option<i64>,
}

/// A page of a shop.
#[derive(Clone, Debug, PartialEq, Eq)]
pub struct ShopPage {
    pub npc: NpcRecord,
    pub page: usize,
    pub page_count: usize,
    pub total: usize,
    pub entries: Vec<ShopEntry>,
}

/// Items that a player carries.
#[derive(Clone, Debug, PartialEq, Eq)]
pub struct InventoryEntry {
    pub item: ItemRecord,
    pub quantity: i64,
}

/// A page of what a player carries.
#[derive(Clone, Debug, PartialEq, Eq)]
pub struct InventoryPage {
    pub page: usize,
    pub page_count: usize,
    pub total: usize,
    pub entries: Vec<InventoryEntry>,
}

/// Items that lie on the ground.
#[derive(Clone, Debug, PartialEq, Eq)]
pub struct GroundDrop {
    pub id: i64,
    pub item: ItemRecord,
    pub quantity: i64,
    pub owner_subject_id: Option<String>,
    pub expires_at: Option<i64>,
}

/// A page of what lies on the ground.
#[derive(Clone, Debug, PartialEq, Eq)]
pub struct GroundDropPage {
    pub map_name: String,
    pub page: usize,
    pub page_count: usize,
    pub total: usize,
    pub entries: Vec<GroundDrop>,
}

/// The picking up of items.
#[derive(Clone, Debug, PartialEq, Eq)]
pub struct DropClaimReceipt {
    pub replayed: bool,
    pub drop_id: i64,
    pub item: ItemRecord,
    pub quantity: i64,
    pub inventory_after: i64,
    pub claim_id: i64,
}

/// A quest.
#[derive(Clone, Debug, PartialEq, Eq)]
pub struct QuestRecord {
    pub id: i64,
    pub name: String,
    pub description: String,
    pub level_required: i64,
}

/// How far a condition of a quest is met.
#[derive(Clone, Debug, PartialEq, Eq)]
pub struct QuestRequirement {
    pub description: String,
    pub current_amount: i64,
    pub required_quantity: i64,
}

/// What a quest pays.
#[derive(Clone, Debug, PartialEq, Eq)]
pub struct QuestReward {
    pub reward_kind: String,
    pub amount: i64,
    pub currency_code: Option<String>,
    pub item: Option<ItemRecord>,
}

/// A quest with its state.
#[derive(Clone, Debug, PartialEq, Eq)]
pub struct QuestListEntry {
    pub quest: QuestRecord,
    pub status: Option<String>,
    pub progress: Vec<QuestRequirement>,
    pub rewards: Vec<QuestReward>,
}

/// A page of quests.
#[derive(Clone, Debug, PartialEq, Eq)]
pub struct QuestPage {
    pub map_name: String,
    pub page: usize,
    pub page_count: usize,
    pub total: usize,
    pub entries: Vec<QuestListEntry>,
}

/// A change of experience and level.
#[derive(Clone, Debug, PartialEq, Eq)]
pub struct ExperienceChange {
    pub exp_before: i64,
    pub exp_after: i64,
    pub level_before: i64,
    pub level_after: i64,
}

/// Something done to a quest.
#[derive(Clone, Debug, PartialEq, Eq)]
pub struct QuestActionReceipt {
    pub replayed: bool,
    pub action: String,
    pub quest: QuestRecord,
    pub progress: Vec<QuestRequirement>,
    pub rewards: Vec<QuestReward>,
    pub experience: Option<ExperienceChange>,
    pub currency_balance_after: Option<i64>,
}

/// A soul beast.
#[derive(Clone, Debug, PartialEq, Eq)]
pub struct SoulBeastRecord {
    pub id: i64,
    pub name: String,
    pub age: i64,
    pub level_required: i64,
    pub max_hp: i64,
    pub attack: i64,
    pub defense: i64,
    pub exp_reward: i64,
    pub drop_item: ItemRecord,
    pub drop_quantity: i64,
    pub description: String,
}

/// A page of soul beasts.
#[derive(Clone, Debug, PartialEq, Eq)]
pub struct SoulBeastPage {
    pub map_name: String,
    pub page: usize,
    pub page_count: usize,
    pub total: usize,
    pub entries: Vec<SoulBeastRecord>,
}

/// One event of a battle.
#[derive(Clone, Debug, PartialEq, Eq)]
pub struct BattleEventRecord {
    pub sequence: i64,
    pub event_kind: String,
    pub skill_name: Option<String>,
    pub player_hp_before: i64,
    pub player_hp_after: i64,
    pub beast_hp_before: i64,
    pub beast_hp_after: i64,
    pub player_damage: i64,
    pub beast_damage: i64,
    pub player_critical: bool,
    pub beast_critical: bool,
    pub flee_success: Option<bool>,
    pub status_after: String,
    pub experience_awarded: i64,
}

/// An effect that a soul skill has in a battle.
#[derive(Clone, Debug, PartialEq, Eq)]
pub struct BattleSkillEffectRecord {
    pub skill_name: String,
    pub effect_kind: String,
    pub target_kind: String,
    pub magnitude_percent: i64,
    pub duration_rounds: i64,
    pub expires_after_sequence: i64,
    pub description: String,
}

/// The state of a battle.
#[derive(Clone, Debug, PartialEq, Eq)]
pub struct BattleSnapshot {
    pub beast: SoulBeastRecord,
    pub status: String,
    pub action_count: i64,
    pub player_hp: i64,
    pub player_max_hp: i64,
    pub beast_hp: i64,
    pub beast_max_hp: i64,
    pub wuhun_attack_percent: i64,
    pub wuhun_defense_percent: i64,
    pub active_effects: Vec<BattleSkillEffectRecord>,
}

/// How the level of a soul skill changes its damage.
#[derive(Clone, Debug, PartialEq, Eq)]
pub struct SkillDamageModifierRecord {
    pub rule_version: String,
    pub skill_level: i64,
    pub damage_percent: i64,
}

/// What the use of a soul skill taught.
#[derive(Clone, Debug, PartialEq, Eq)]
pub struct SkillProgressRecord {
    pub proficiency_before: i64,
    pub proficiency_after: i64,
    pub proficiency_gain: i64,
    pub level_before: i64,
    pub level_after: i64,
}

/// The use of a soul skill in a battle.
#[derive(Clone, Debug, PartialEq, Eq)]
pub struct BattleSkillUse {
    pub skill: SkillRecord,
    pub soul_power_before: i64,
    pub soul_power_after: i64,
    pub damage_modifier: SkillDamageModifierRecord,
    pub progress: Option<SkillProgressRecord>,
    pub effects: Vec<BattleSkillEffectRecord>,
}

/// What a battle did to a martial soul.
#[derive(Clone, Debug, PartialEq, Eq)]
pub struct WuhunBattleEffect {
    pub stability_before: i64,
    pub stability_after: i64,
    pub auto_dropped: bool,
}

/// Something done in a battle.
#[derive(Clone, Debug, PartialEq, Eq)]
pub struct BattleActionReceipt {
    pub replayed: bool,
    pub event: BattleEventRecord,
    pub battle: BattleSnapshot,
    pub skill: Option<BattleSkillUse>,
    pub wuhun_effect: Option<WuhunBattleEffect>,
    pub expired_effects: Vec<BattleSkillEffectRecord>,
    pub soul_ring_drop: Option<SoulRingDrop>,
}

/// A battle and its events.
#[derive(Clone, Debug, PartialEq, Eq)]
pub struct BattleLog {
    pub battle: BattleSnapshot,
    pub events: Vec<BattleEventRecord>,
}

/// A purchase or a sale.
#[derive(Clone, Debug, PartialEq, Eq)]
pub struct TradeReceipt {
    pub npc_name: String,
    pub item: ItemRecord,
    pub quantity: i64,
    pub total_price: i64,
    pub balance_after: i64,
    pub inventory_after: i64,
}

/// The use of an item.
#[derive(Clone, Debug, PartialEq, Eq)]
pub struct ItemUseReceipt {
    pub item: ItemRecord,
    pub inventory_after: i64,
    pub hp_before: i64,
    pub hp_after: i64,
    pub max_hp: i64,
    pub soul_power_before: i64,
    pub soul_power_after: i64,
    pub max_soul_power: i64,
    pub wuhun_enabled: Option<bool>,
    pub wuhun_stability_before: Option<i64>,
    pub wuhun_stability_after: Option<i64>,
    pub wuhun_max_stability: Option<i64>,
    pub consumed: bool,
}

/// The state of a player.
#[derive(Clone, Debug, PartialEq, Eq)]
pub struct PlayerStatus {
    pub name: String,
    pub gender: String,
    pub level: i64,
    pub exp: i64,
    pub hp: i64,
    pub max_hp: i64,
    pub soul_power: i64,
    pub max_soul_power: i64,
    pub wuhun_name: Option<String>,
    pub wuhun_category: Option<String>,
    pub wuhun_enabled: Option<bool>,
    pub wuhun_stability: Option<i64>,
    pub wuhun_max_stability: Option<i64>,
    pub map_name: String,
    pub life_count: i64,
    pub state: String,
}

/// Where a player stands between two levels.
#[derive(Clone, Debug, PartialEq, Eq)]
pub struct ExperienceProgress {
    pub level: i64,
    pub title: String,
    pub exp_in_level: i64,
    pub exp_for_next: Option<i64>,
    pub total_exp: i64,
}

/// A map.
#[derive(Clone, Debug, PartialEq, Eq)]
pub struct MapRecord {
    pub name: String,
    pub description: String,
    pub level_required: i64,
    pub safe: bool,
    pub pvp_enabled: bool,
    pub teleport_enabled: bool,
}

/// A way from one map to another.
#[derive(Clone, Debug, PartialEq, Eq)]
pub struct MapExit {
    pub travel_kind: String,
    pub direction: Option<String>,
    pub target: MapRecord,
}

/// A page of maps.
#[derive(Clone, Debug, PartialEq, Eq)]
pub struct MapPage {
    pub page: usize,
    pub page_count: usize,
    pub total: usize,
    pub entries: Vec<MapRecord>,
}

/// A journey.
#[derive(Clone, Debug, PartialEq, Eq)]
pub struct MapTravelReceipt {
    pub from: MapRecord,
    pub to: MapRecord,
    pub travel_kind: String,
}

/// A conversation in which the game may be played.
#[derive(Clone, Debug, PartialEq, Eq)]
pub struct AuthorizedContext {
    pub id: i64,
    pub context_kind: String,
    pub context_id: String,
    pub label: String,
}

/// A page of such conversations.
#[derive(Clone, Debug, PartialEq, Eq)]
pub struct AuthorizedContextPage {
    pub entries: Vec<AuthorizedContext>,
    pub next_after_id: Option<i64>,
}

/// The outcome of a daily check-in.
#[derive(Clone, Debug, PartialEq, Eq)]
pub enum DailyCheckinResult {
    Claimed(DailyCheckinReceipt),
    AlreadyClaimed(DailyCheckinReceipt),
}

/// Whom an old record belongs to.
#[derive(Clone, Copy, Debug, PartialEq, Eq, Structural)]
pub enum LegacyIdentityState {
    Legacy,
    ClaimedToCurrent,
    ClaimedToOther,
    Missing,
}

/// The outcome of a claim to an old record.
#[derive(Clone, Copy, Debug, PartialEq, Eq, Structural)]
pub enum LegacyClaimResult {
    Claimed,
    AlreadyClaimed,
    NotFound,
    Conflict,
}

/// The outcome of granting or revoking an authorisation.
#[derive(Clone, Copy, Debug, PartialEq, Eq, Structural)]
pub enum AuthorizedContextChange {
    Granted,
    AlreadyGranted,
    Revoked,
    AlreadyRevoked,
}

} // verus!
