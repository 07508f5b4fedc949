//! Record data model.
//!
//! The engine reads exactly one field of a fetched match record — its
//! end-time string — for cursor advancement and batch naming; everything
//! else passes through to persistence untouched. `MatchStamp` is that
//! one-field projection. The remaining structs are the nested per-player
//! statistics of a match record, carried as plain values.

use vstd::prelude::*;

verus! {

/// The projection of one fetched match record that the pagination engine
/// reads: the record's end time, as a `%Y-%m-%d %H:%M:%S` string.
#[derive(Debug, Clone, PartialEq, Eq)]
pub struct MatchStamp {
    pub end_time: String,
}

/// Minion kill counts for one player.
#[derive(Debug, Clone)]
pub struct MinionData {
    pub minions_killed: i64,
    pub lane_minions_killed: i64,
    pub neutral_minions_killed: i64,
    pub neutral_minions_team_jungle: i64,
    pub neutral_minions_enemy_jungle: i64,
}

/// Kill, death and assist counts for one player.
#[derive(Debug, Clone)]
pub struct CombatData {
    pub kills: i64,
    pub deaths: i64,
    pub assists: i64,
    pub largest_killing_spree: i64,
    pub largest_multi_kill: i64,
}

/// Damage, healing and shielding totals for one player.
#[derive(Debug, Clone)]
pub struct DamageHealData {
    magical_damage_taken_from_heroes: i64,
    total_damage_taken_from_heroes: i64,
    physical_damage_taken_from_heroes: i64,
    physical_damage_dealt: i64,
    physical_damage_taken: i64,
    total_damage_dealt_to_heroes: i64,
    magical_damage_dealt_to_heroes: i64,
    total_damage_dealt_to_structures: i64,
    true_damage_taken_from_heroes: i64,
    true_damage_dealt: i64,
    total_damage_dealt_to_objectives: i64,
    true_damage_taken: i64,
    total_damage_dealt: i64,
    magical_damage_taken: i64,
    magical_damage_dealt: i64,
    total_damage_taken: i64,
    physical_damage_dealt_to_heroes: i64,
    total_damage_mitigated: i64,
    true_damage_dealt_to_heroes: i64,
    largest_critical_strike: Option<i64>,
    total_healing_done: Option<i64>,
    item_healing_done: Option<i64>,
    crest_healing_done: Option<i64>,
    utility_healing_done: Option<i64>,
    total_shielding_received: Option<i64>,
}

/// Gold totals and the item transactions of one player.
#[derive(Debug, Clone)]
pub struct IncomeData {
    pub gold_earned: i64,
    pub gold_spent: i64,
    pub gold_earned_at_interval: Vec<i64>,
    pub transactions: Vec<Transaction>,
}

/// One item purchase or sale.
#[derive(Debug, Clone)]
pub struct Transaction {
    pub item_id: i64,
    pub transaction_type: i64,
    pub game_time: i64,
}

/// One ability levelling event.
#[derive(Debug, Clone)]
pub struct AbilityData {
    pub ability_input_tag: Option<String>,
    pub ability_slot: Option<i64>,
    pub game_time: i64,
}

/// One item slot of a player's final inventory.
#[derive(Debug, Clone)]
pub struct InventoryData {
    pub item_slot: i64,
    pub item_id: i64,
}

} // verus!
