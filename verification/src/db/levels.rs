//! The levels of a path: what each level adds to a character.
use vstd::prelude::*;
use crate::db::etc::Size;
use crate::db::path_talents::FullPathTalent;
use crate::db::speed_traits::SpeedTrait;

verus! {

/// A level as stored.
#[derive(Debug)]
pub struct RawLevel {
    pub id: i64,
    pub path_id: i64,
    pub level: i64,
    pub add_health: Option<i64>,
    pub add_nat_def: Option<i64>,
    pub add_arm_def: Option<i64>,
    pub add_bonus_dmg: Option<i64>,
    pub add_speed: Option<i64>,
    pub trad_choices: Option<i64>,
    pub lang_choices: Option<i64>,
    pub novice_spells: Option<i64>,
    pub expert_spells: Option<i64>,
    pub master_spells: Option<i64>,
    pub size: Option<String>,
}

/// A tradition a level gives.
#[derive(Debug)]
pub struct LevelTradition {
    pub name: String,
    pub blurb: String,
}

/// A level with everything it gives.
#[derive(Debug)]
pub struct FullLevel {
    pub id: i64,
    pub path_id: i64,
    pub level: i64,
    pub add_health: i64,
    pub add_nat_def: i64,
    pub add_arm_def: i64,
    pub add_bonus_dmg: i64,
    pub add_speed: i64,
    pub trad_choices: i64,
    pub lang_choices: i64,
    pub novice_spells: i64,
    pub expert_spells: i64,
    pub master_spells: i64,
    pub size: Option<Size>,
    pub languages: Vec<String>,
    pub path_talents: Vec<FullPathTalent>,
    pub speed_traits: Vec<SpeedTrait>,
    pub traditions: Vec<LevelTradition>,
}

} // verus!
