use vstd::prelude::*;

verus! {

/// The broker-side state of one client session.
#[derive(Clone, Debug, PartialEq, Eq)]
pub struct Session {
    pub client_id: String,
}

} // verus!
