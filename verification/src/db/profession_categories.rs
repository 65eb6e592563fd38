//! Categories of professions.
use vstd::prelude::*;
use crate::db::professions::Profession;

verus! {

#[derive(Debug)]
pub struct ProfessionCategory {
    pub id: i64,
    pub name: String,
    pub description: String,
}

/// A category with its professions.
#[derive(Debug)]
pub struct FullProfessionCategory {
    pub id: i64,
    pub name: String,
    pub description: String,
    pub professions: Vec<Profession>,
}

} // verus!
