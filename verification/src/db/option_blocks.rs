//! Option blocks: named lists of options shown alongside talents and spells.
use vstd::prelude::*;

verus! {

#[derive(Debug)]
pub struct OptionBlock {
    pub id: i64,
    pub name: String,
}

#[derive(Debug)]
pub struct FullOptionBlock {
    pub id: i64,
    pub name: String,
    pub entries: Vec<String>,
}

} // verus!
