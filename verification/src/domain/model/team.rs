//! Team the signed-in worker belongs to.
use vstd::prelude::*;

verus! {

#[derive(Debug)]
pub struct Team {
    pub id: i64,
    pub name: String,
}

impl Clone for Team {
    fn clone(&self) -> (r: Self)
        ensures
            r == *self,
    {
        Team { id: self.id, name: self.name.clone() }
    }
}

} // verus!
