//! Traits of how a character moves.
use vstd::prelude::*;
use crate::text::clone_opt_string;

verus! {

#[derive(Debug)]
pub struct SpeedTrait {
    pub id: i64,
    pub name: String,
    pub description: String,
    pub unit: Option<String>,
}


impl Clone for SpeedTrait {
    fn clone(&self) -> (r: Self)
        ensures
            r == *self,
    {
        SpeedTrait {
            id: self.id,
            name: self.name.clone(),
            description: self.description.clone(),
            unit: clone_opt_string(&self.unit),
        }
    }
}

} // verus!
