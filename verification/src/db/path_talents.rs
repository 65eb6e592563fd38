//! Talents granted by ancestries and paths.
use vstd::prelude::*;
use crate::db::etc::TalentRestore;
use crate::db::info_tables::FullInfoTable;
use crate::db::option_blocks::FullOptionBlock;

verus! {

/// A talent of an ancestry or a path, with its table and option block.
#[derive(Debug)]
pub struct FullPathTalent {
    pub id: i64,
    pub name: String,
    pub source: String,
    pub magical: bool,
    pub charges: Option<String>,
    pub restore: TalentRestore,
    pub activate: Option<String>,
    pub description: String,
    pub info_table_id: Option<FullInfoTable>,
    pub option_block_id: Option<FullOptionBlock>,
    pub mod_str: Option<String>,
    pub cluster: Option<String>,
}

} // verus!
