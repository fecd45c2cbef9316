use vstd::prelude::*;

verus! {

/// The address query of a shared document.
#[derive(PartialEq, Clone, Debug)]
pub struct Query {
    pub session_id: String,
}

impl Query {
    pub fn new(session_id: String) -> (r: Self)
        ensures
            r.session_id == session_id,
    {
        Self { session_id }
    }
}

} // verus!
