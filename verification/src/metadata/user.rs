use vstd::prelude::*;

verus! {

/// An account that clients may log in with.
#[derive(Clone, Debug, PartialEq, Eq)]
pub struct User {
    pub username: String,
    pub password: String,
}

} // verus!
