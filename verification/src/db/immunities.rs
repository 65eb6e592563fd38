//! Immunities a character can have.
use vstd::prelude::*;

verus! {

#[derive(Debug)]
pub struct Immunity {
    pub id: i64,
    pub name: String,
}


impl Clone for Immunity {
    fn clone(&self) -> (r: Self)
        ensures
            r == *self,
    {
        Immunity {
            id: self.id,
            name: self.name.clone(),
        }
    }
}

} // verus!
