//! Spells of the magic traditions.
use vstd::prelude::*;
use crate::db::etc::PathKind;
use crate::db::info_tables::FullInfoTable;
use crate::db::option_blocks::FullOptionBlock;

verus! {

/// A spell as stored, with the ids of its table and option block.
#[derive(Debug)]
pub struct Spell {
    pub id: i64,
    pub tradition_id: i64,
    pub name: String,
    pub description: String,
    pub path_kind: PathKind,
    pub castings: i64,
    pub duration: String,
    pub target: String,
    pub condition: Option<String>,
    pub ritual: bool,
    pub info_table_id: Option<i64>,
    pub option_block_id: Option<i64>,
}

/// A spell with its tradition's name, its table and its option block.
#[derive(Debug)]
pub struct FullSpell {
    pub id: i64,
    pub tradition_id: i64,
    pub tradition_name: String,
    pub name: String,
    pub description: String,
    pub path_kind: PathKind,
    pub castings: i64,
    pub duration: String,
    pub target: String,
    pub condition: Option<String>,
    pub ritual: bool,
    pub info_table: Option<FullInfoTable>,
    pub option_block: Option<FullOptionBlock>,
}

} // verus!
