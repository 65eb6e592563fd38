//! Magic traditions.
use vstd::prelude::*;
use crate::db::info_tables::FullInfoTable;
use crate::db::magic_talents::FullMagicTalent;
use crate::db::spells::FullSpell;

verus! {

/// A tradition with its table, its talents and its spells by rank.
#[derive(Debug)]
pub struct FullTradition {
    pub id: i64,
    pub name: String,
    pub blurb: String,
    pub description: String,
    pub special_info: Option<String>,
    pub into_table: Option<FullInfoTable>,
    pub talents: Vec<FullMagicTalent>,
    pub novice_spells: Vec<FullSpell>,
    pub expert_spells: Vec<FullSpell>,
    pub master_spells: Vec<FullSpell>,
}

/// A tradition as listed in the index.
#[derive(Debug)]
pub struct TraditionIndexItem {
    pub id: i64,
    pub name: String,
    pub blurb: String,
}

} // verus!
