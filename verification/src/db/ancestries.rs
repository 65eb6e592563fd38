//! Ancestries: what a character is born as.
use vstd::prelude::*;
use crate::db::etc::Size;
use crate::db::immunities::Immunity;
use crate::db::languages::Language;
use crate::db::path_talents::FullPathTalent;
use crate::db::speed_traits::SpeedTrait;
use crate::text::clone_opt_string;

verus! {

/// An ancestry with everything it gives.
#[derive(Debug)]
pub struct FullAncestry {
    pub id: i64,
    pub name: String,
    pub descriptor: Option<String>,
    pub size: Size,
    pub speed: i64,
    pub add_health: Option<i64>,
    pub add_nat_def: Option<i64>,
    pub languages: Vec<Language>,
    pub immunities: Vec<Immunity>,
    pub speed_traits: Vec<SpeedTrait>,
    pub senses: Vec<AncestrySense>,
    pub talents: Vec<FullPathTalent>,
}

/// A sense an ancestry gives, with its range.
#[derive(Debug)]
pub struct AncestrySense {
    pub id: i64,
    pub name: String,
    pub description: String,
    pub unit: Option<String>,
    pub amount: Option<String>,
}

impl Clone for AncestrySense {
    fn clone(&self) -> (r: Self)
        ensures
            r == *self,
    {
        AncestrySense {
            id: self.id,
            name: self.name.clone(),
            description: self.description.clone(),
            unit: clone_opt_string(&self.unit),
            amount: clone_opt_string(&self.amount),
        }
    }
}

} // verus!
