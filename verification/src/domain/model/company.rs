//! Company the signed-in worker belongs to.
use vstd::prelude::*;

verus! {

#[derive(Debug)]
pub struct Company {
    pub id: i64,
    pub name: String,
}

impl Clone for Company {
    fn clone(&self) -> (r: Self)
        ensures
            r == *self,
    {
        Company { id: self.id, name: self.name.clone() }
    }
}

} // verus!
