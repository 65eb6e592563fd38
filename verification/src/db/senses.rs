//! Senses a character can have.
use vstd::prelude::*;

verus! {

#[derive(Debug)]
pub struct Sense {
    pub id: i64,
    pub name: String,
    pub description: String,
    pub unit: Option<String>,
}

} // verus!
