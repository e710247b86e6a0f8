//! Content packages: their entries, their limits and the controlled effects.
use crate::text::same;
use vstd::prelude::*;

verus! {

/// The largest content package, in bytes.
pub const MAX_PACKAGE_BYTES: usize = 2097152;

/// The rule version of the first poison effect.
pub const POISON_RULE_VERSION: &'static str = "poison-v1";

/// Poison ticks after the player's direct damage.
pub const POISON_TICK_PHASE: &'static str = "after_player_damage";

/// Poison ticks once for every eligible action.
pub const POISON_TICK_INTERVAL: i64 = 1;

/// The largest damage of one poison tick.
pub const MAX_POISON_TICK_DAMAGE: i64 = 1_000_000;

/// The rule version of the first stun effect.
pub const STUN_RULE_VERSION: &'static str = "stun-v1";

/// Stun applies after the player's direct damage.
pub const STUN_APPLY_PHASE: &'static str = "after_player_damage";

/// Stun makes the beast skip its counterattack.
pub const STUN_COUNTERATTACK_BEHAVIOR: &'static str = "skip";

/// The only value of a stun effect.
pub const STUN_VALUE: i64 = 1;

/// The longest stun, in rounds.
pub const MAX_STUN_DURATION_ROUNDS: i64 = 10;

/// The rule version of the first shield effect.
pub const SHIELD_RULE_VERSION: &'static str = "shield-v1";

/// A shield applies after the player's direct damage.
pub const SHIELD_APPLY_PHASE: &'static str = "after_player_damage";

/// A shield absorbs the beast's counterattack.
pub const SHIELD_COUNTERATTACK_BEHAVIOR: &'static str = "absorb";

/// The only value of a shield effect.
pub const SHIELD_VALUE: i64 = 1;

/// The longest shield, in rounds.
pub const MAX_SHIELD_DURATION_ROUNDS: i64 = 10;

/// The rule version of the first heal effect.
pub const HEAL_RULE_VERSION: &'static str = "heal-v1";

/// A heal applies between the player's damage and the counterattack.
pub const HEAL_APPLY_PHASE: &'static str = "after_player_damage";

/// A heal never exceeds the maximum of hit points.
pub const HEAL_OVERFLOW_BEHAVIOR: &'static str = "cap_at_max_hp";

/// The largest heal.
pub const MAX_HEAL_AMOUNT: i64 = 1_000_000;

/// The rule version of the first target selection.
pub const TARGET_RULE_VERSION: &'static str = "target-v1";

/// Only the beast of the current battle can be selected.
pub const TARGET_SELECTOR: &'static str = "current_battle_beast";

/// The only value of a target selection.
pub const TARGET_SELECTION_VALUE: i64 = 1;

/// The rule version of the first skill ban.
pub const FORBID_SKILL_RULE_VERSION: &'static str = "forbid-skill-v1";

/// A skill ban is checked before the player acts.
pub const FORBID_SKILL_APPLY_PHASE: &'static str = "before_player_action";

/// A skill ban blocks the release of a skill.
pub const FORBID_SKILL_BLOCKED_ACTION: &'static str = "release_skill";

/// The only value of a skill ban.
pub const FORBID_SKILL_VALUE: i64 = 1;

/// The shortest skill ban covers the action after the cast.
pub const MIN_FORBID_SKILL_DURATION_ROUNDS: i64 = 2;

/// The longest skill ban, in rounds.
pub const MAX_FORBID_SKILL_DURATION_ROUNDS: i64 = 10;

/// The curve of player experience.
pub const PLAYER_LEVEL_EXP_CURVE_REFERENCE: &'static str = "player-level-exp-v1";

/// The curve of skill proficiency.
pub const SKILL_PROFICIENCY_CURVE_REFERENCE: &'static str = "skill-proficiency-v1";

/// The curve of skill damage.
pub const SKILL_DAMAGE_PERCENT_CURVE_REFERENCE: &'static str = "skill-damage-percent-v1";

/// A package of catalogue data that can be published.
#[derive(Clone, Debug, PartialEq, Eq)]
pub struct ContentPackage {
    pub package_key: String,
    pub revision: i64,
    pub author: String,
    pub minimum_runtime: String,
    pub maps: Vec<MapPackageEntry>,
    pub items: Vec<ItemPackageEntry>,
    pub npcs: Vec<NpcPackageEntry>,
    pub quests: Vec<QuestPackageEntry>,
    pub numeric_curves: Vec<NumericCurvePackageEntry>,
    pub wuhun: Vec<WuhunPackageEntry>,
    pub skills: Vec<SkillPackageEntry>,
    pub effects: Vec<EffectPackageEntry>,
    pub soul_beasts: Vec<SoulBeastPackageEntry>,
    pub soul_rings: Vec<SoulRingPackageEntry>,
    pub transitions: Vec<ContentTransitionPackageEntry>,
}

/// A retired key, or one that another key replaces.
#[derive(Clone, Debug, PartialEq, Eq)]
pub struct ContentTransitionPackageEntry {
    pub entity_kind: String,
    pub source_key: String,
    pub target_key: Option<String>,
    pub transition_kind: String,
    pub reason: String,
}

/// A map of the catalogue, without exits or player positions.
#[derive(Clone, Debug, PartialEq, Eq)]
pub struct MapPackageEntry {
    pub map_key: String,
    pub name: String,
    pub description: String,
    pub level_required: i64,
    pub safe: bool,
    pub pvp_enabled: bool,
    pub teleport_enabled: bool,
    pub sort_order: i64,
}

/// An item of the catalogue, without player quantities.
#[derive(Clone, Debug, PartialEq, Eq)]
pub struct ItemPackageEntry {
    pub item_key: String,
    pub name: String,
    pub category: String,
    pub quality: i64,
    pub stackable: bool,
    pub max_stack: i64,
    pub buy_price: i64,
    pub sell_price: i64,
    pub level_required: i64,
    pub effect_kind: String,
    pub effect_amount: i64,
    pub revive_hp_percent: i64,
    pub purchasable: bool,
    pub sellable: bool,
    pub usable: bool,
    pub description: String,
}

/// An NPC of the catalogue, without shop stock.
#[derive(Clone, Debug, PartialEq, Eq)]
pub struct NpcPackageEntry {
    pub npc_key: String,
    pub map_key: String,
    pub name: String,
    pub npc_kind: String,
    pub dialogue: String,
    pub description: String,
    pub enabled: bool,
    pub sort_order: i64,
}

/// A quest of the catalogue, without player progress.
#[derive(Clone, Debug, PartialEq, Eq)]
pub struct QuestPackageEntry {
    pub quest_key: String,
    pub name: String,
    pub description: String,
    pub category: String,
    pub map_key: Option<String>,
    pub level_required: i64,
    pub repeatable: bool,
    pub enabled: bool,
    pub requirements: Vec<QuestRequirementPackageEntry>,
    pub rewards: Vec<QuestRewardPackageEntry>,
}

/// A condition of a quest.
#[derive(Clone, Debug, PartialEq, Eq)]
pub struct QuestRequirementPackageEntry {
    pub requirement_kind: String,
    pub target_key: String,
    pub required_quantity: i64,
    pub sort_order: i64,
    pub description: String,
}

/// A reward of a quest.
#[derive(Clone, Debug, PartialEq, Eq)]
pub struct QuestRewardPackageEntry {
    pub reward_kind: String,
    pub currency_code: Option<String>,
    pub item_key: Option<String>,
    pub amount: i64,
    pub sort_order: i64,
    pub description: String,
}

/// A numeric curve shown to players, without formulas.
#[derive(Clone, Debug, PartialEq, Eq)]
pub struct NumericCurvePackageEntry {
    pub curve_key: String,
    pub name: String,
    pub unit: String,
    pub range_min: i64,
    pub range_max: i64,
    pub reference_key: String,
    pub description: String,
    pub sort_order: i64,
}

/// A wuhun and its attribute template.
#[derive(Clone, Debug, PartialEq, Eq)]
pub struct WuhunPackageEntry {
    pub name: String,
    pub category: String,
    pub form: String,
    pub description: String,
    pub weight: i64,
    pub stats: WuhunStatsPackageEntry,
}

/// The percentages of a wuhun's attribute template.
#[derive(Clone, Debug, PartialEq, Eq)]
pub struct WuhunStatsPackageEntry {
    pub attack_percent: i64,
    pub defense_percent: i64,
    pub strength_percent: i64,
    pub agility_percent: i64,
    pub spirit_percent: i64,
    pub endurance_percent: i64,
    pub perception_percent: i64,
    pub luck_percent: i64,
}

/// A soul skill of the catalogue.
#[derive(Clone, Debug, PartialEq, Eq)]
pub struct SkillPackageEntry {
    pub skill_key: String,
    pub name: String,
    pub skill_type: String,
    pub wuhun_category: String,
    pub ring_index: i64,
    pub soul_power_cost: i64,
    pub cooldown_rounds: i64,
    pub base_damage: i64,
    pub spirit_ratio_percent: i64,
    pub strength_ratio_percent: i64,
    pub description: String,
    pub enabled: bool,
    pub starter: bool,
}

/// A controlled skill effect.
#[derive(Clone, Debug, PartialEq, Eq)]
pub struct EffectPackageEntry {
    pub effect_key: String,
    pub skill_key: String,
    pub trigger_kind: String,
    pub target_kind: String,
    pub operation: String,
    pub attribute_key: String,
    pub value_mode: String,
    pub value: i64,
    pub duration_rounds: i64,
    pub chance_percent: i64,
    pub stack_policy: String,
    pub parameters: Vec<EffectParameter>,
    pub description: String,
    pub enabled: bool,
}

/// A soul beast of the catalogue.
#[derive(Clone, Debug, PartialEq, Eq)]
pub struct SoulBeastPackageEntry {
    pub beast_key: String,
    pub name: String,
    pub description: String,
    pub map_key: String,
    pub age: i64,
    pub level_required: i64,
    pub max_hp: i64,
    pub attack: i64,
    pub defense: i64,
    pub speed: i64,
    pub exp_reward: i64,
    pub drop_item_key: String,
    pub drop_quantity: i64,
    pub enabled: bool,
}

/// A soul ring of the catalogue.
#[derive(Clone, Debug, PartialEq, Eq)]
pub struct SoulRingPackageEntry {
    pub ring_key: String,
    pub name: String,
    pub soul_beast_key: String,
    pub skill_key: String,
    pub ring_index: i64,
    pub age: i64,
    pub color: String,
    pub description: String,
    pub enabled: bool,
}

/// A package that was parsed, checked and hashed.
#[derive(Clone, Debug, PartialEq, Eq)]
pub struct LoadedContentPackage {
    pub package: ContentPackage,
    pub content_hash: String,
    pub source_format: String,
}

/// One parameter of an effect.
#[derive(Clone, Debug, PartialEq, Eq)]
pub struct EffectParameter {
    pub name: String,
    pub value: ParameterValue,
}

/// What a parameter holds: the controlled rules read texts and whole numbers.
#[derive(Clone, Debug, PartialEq, Eq)]
pub enum ParameterValue {
    Text(String),
    Integer(i64),
    Other,
}

/// An entry is enabled where the package does not say otherwise.
pub fn default_enabled() -> (enabled: bool)
    ensures
        enabled,
{
    true
}

/// An effect always applies where the package does not say otherwise.
pub fn default_chance() -> (percent: i64)
    ensures
        percent == 100,
{
    100
}

/// The value that a parameter name has.
pub open spec fn parameter(
    parameters: Seq<EffectParameter>,
    name: Seq<char>,
) -> Option<ParameterValue>
    decreases parameters.len(),
{
    if parameters.len() == 0 {
        None
    } else if parameters[0].name@ == name {
        Some(parameters[0].value)
    } else {
        parameter(parameters.skip(1), name)
    }
}

/// Whether a parameter is the given text.
pub open spec fn declares_text(
    parameters: Seq<EffectParameter>,
    name: Seq<char>,
    value: Seq<char>,
) -> bool {
    match parameter(parameters, name) {
        Some(ParameterValue::Text(text)) => text@ == value,
        _ => false,
    }
}

/// Whether a parameter is the given whole number.
pub open spec fn declares_integer(
    parameters: Seq<EffectParameter>,
    name: Seq<char>,
    value: int,
) -> bool {
    match parameter(parameters, name) {
        Some(ParameterValue::Integer(number)) => number == value,
        _ => false,
    }
}

fn find_parameter(parameters: &Vec<EffectParameter>, name: &str) -> (at: usize)
    ensures
        at <= parameters@.len(),
        at < parameters@.len() ==> parameter(parameters@, name@) == Some(
            parameters@[at as int].value,
        ),
        at == parameters@.len() ==> parameter(parameters@, name@) is None,
{
    let mut at: usize = 0;
    assert(parameters@.skip(0) =~= parameters@);
    while at < parameters.len()
        invariant
            at <= parameters@.len(),
            parameter(parameters@, name@) == parameter(parameters@.skip(at as int), name@),
        decreases parameters@.len() - at,
    {
        if same(&parameters[at].name, name) {
            return at;
        }
        assert(parameters@.skip(at as int).skip(1) =~= parameters@.skip(at + 1));
        at = at + 1;
    }
    at
}

fn text_parameter_is(parameters: &Vec<EffectParameter>, name: &str, value: &str) -> (answer: bool)
    ensures
        answer == declares_text(parameters@, name@, value@),
{
    let at = find_parameter(parameters, name);
    if at == parameters.len() {
        return false;
    }
    match &parameters[at].value {
        ParameterValue::Text(text) => same(text, value),
        _ => false,
    }
}

fn integer_parameter_is(parameters: &Vec<EffectParameter>, name: &str, value: i64) -> (answer: bool)
    ensures
        answer == declares_integer(parameters@, name@, value as int),
{
    let at = find_parameter(parameters, name);
    if at == parameters.len() {
        return false;
    }
    match &parameters[at].value {
        ParameterValue::Integer(number) => *number == value,
        _ => false,
    }
}

/// The parameters declare the first poison rule and nothing else.
pub open spec fn poison_v1(parameters: Seq<EffectParameter>) -> bool {
    &&& parameters.len() == 3
    &&& declares_text(parameters, "rule_version"@, POISON_RULE_VERSION@)
    &&& declares_text(parameters, "tick_phase"@, POISON_TICK_PHASE@)
    &&& declares_integer(parameters, "tick_interval"@, POISON_TICK_INTERVAL as int)
}

/// The parameters declare the first poison rule and nothing else.
pub fn is_poison_v1_parameters(parameters: &Vec<EffectParameter>) -> (answer: bool)
    ensures
        answer == poison_v1(parameters@),
{
    parameters.len() == 3
        && text_parameter_is(parameters, "rule_version", POISON_RULE_VERSION)
        && text_parameter_is(parameters, "tick_phase", POISON_TICK_PHASE)
        && integer_parameter_is(parameters, "tick_interval", POISON_TICK_INTERVAL)
}

/// The parameters declare the first stun rule and nothing else.
pub open spec fn stun_v1(parameters: Seq<EffectParameter>) -> bool {
    &&& parameters.len() == 3
    &&& declares_text(parameters, "rule_version"@, STUN_RULE_VERSION@)
    &&& declares_text(parameters, "apply_phase"@, STUN_APPLY_PHASE@)
    &&& declares_text(parameters, "counterattack"@, STUN_COUNTERATTACK_BEHAVIOR@)
}

/// The parameters declare the first stun rule and nothing else.
pub fn is_stun_v1_parameters(parameters: &Vec<EffectParameter>) -> (answer: bool)
    ensures
        answer == stun_v1(parameters@),
{
    parameters.len() == 3
        && text_parameter_is(parameters, "rule_version", STUN_RULE_VERSION)
        && text_parameter_is(parameters, "apply_phase", STUN_APPLY_PHASE)
        && text_parameter_is(parameters, "counterattack", STUN_COUNTERATTACK_BEHAVIOR)
}

/// The parameters declare the first shield rule and nothing else.
pub open spec fn shield_v1(parameters: Seq<EffectParameter>) -> bool {
    &&& parameters.len() == 3
    &&& declares_text(parameters, "rule_version"@, SHIELD_RULE_VERSION@)
    &&& declares_text(parameters, "apply_phase"@, SHIELD_APPLY_PHASE@)
    &&& declares_text(parameters, "counterattack"@, SHIELD_COUNTERATTACK_BEHAVIOR@)
}

/// The parameters declare the first shield rule and nothing else.
pub fn is_shield_v1_parameters(parameters: &Vec<EffectParameter>) -> (answer: bool)
    ensures
        answer == shield_v1(parameters@),
{
    parameters.len() == 3
        && text_parameter_is(parameters, "rule_version", SHIELD_RULE_VERSION)
        && text_parameter_is(parameters, "apply_phase", SHIELD_APPLY_PHASE)
        && text_parameter_is(parameters, "counterattack", SHIELD_COUNTERATTACK_BEHAVIOR)
}

/// The parameters declare the first heal rule and nothing else.
pub open spec fn heal_v1(parameters: Seq<EffectParameter>) -> bool {
    &&& parameters.len() == 3
    &&& declares_text(parameters, "rule_version"@, HEAL_RULE_VERSION@)
    &&& declares_text(parameters, "apply_phase"@, HEAL_APPLY_PHASE@)
    &&& declares_text(parameters, "overflow"@, HEAL_OVERFLOW_BEHAVIOR@)
}

/// The parameters declare the first heal rule and nothing else.
pub fn is_heal_v1_parameters(parameters: &Vec<EffectParameter>) -> (answer: bool)
    ensures
        answer == heal_v1(parameters@),
{
    parameters.len() == 3
        && text_parameter_is(parameters, "rule_version", HEAL_RULE_VERSION)
        && text_parameter_is(parameters, "apply_phase", HEAL_APPLY_PHASE)
        && text_parameter_is(parameters, "overflow", HEAL_OVERFLOW_BEHAVIOR)
}

/// The parameters select the beast of the current battle and nothing else.
pub open spec fn target_v1(parameters: Seq<EffectParameter>) -> bool {
    &&& parameters.len() == 2
    &&& declares_text(parameters, "rule_version"@, TARGET_RULE_VERSION@)
    &&& declares_text(parameters, "selector"@, TARGET_SELECTOR@)
}

/// The parameters select the beast of the current battle and nothing else.
pub fn is_target_v1_parameters(parameters: &Vec<EffectParameter>) -> (answer: bool)
    ensures
        answer == target_v1(parameters@),
{
    parameters.len() == 2
        && text_parameter_is(parameters, "rule_version", TARGET_RULE_VERSION)
        && text_parameter_is(parameters, "selector", TARGET_SELECTOR)
}

/// The parameters declare the first skill ban and nothing else.
pub open spec fn forbid_skill_v1(parameters: Seq<EffectParameter>) -> bool {
    &&& parameters.len() == 3
    &&& declares_text(parameters, "rule_version"@, FORBID_SKILL_RULE_VERSION@)
    &&& declares_text(parameters, "apply_phase"@, FORBID_SKILL_APPLY_PHASE@)
    &&& declares_text(parameters, "blocked_action"@, FORBID_SKILL_BLOCKED_ACTION@)
}

/// The parameters declare the first skill ban and nothing else.
pub fn is_forbid_skill_v1_parameters(parameters: &Vec<EffectParameter>) -> (answer: bool)
    ensures
        answer == forbid_skill_v1(parameters@),
{
    parameters.len() == 3
        && text_parameter_is(parameters, "rule_version", FORBID_SKILL_RULE_VERSION)
        && text_parameter_is(parameters, "apply_phase", FORBID_SKILL_APPLY_PHASE)
        && text_parameter_is(parameters, "blocked_action", FORBID_SKILL_BLOCKED_ACTION)
}

} // verus!
