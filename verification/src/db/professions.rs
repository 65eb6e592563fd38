//! Professions.
use vstd::prelude::*;

verus! {

#[derive(Debug)]
pub struct Profession {
    pub id: i64,
    pub name: String,
    pub description: String,
    pub category: String,
}

} // verus!
