use vstd::prelude::*;

verus! {

/// Cluster-wide settings shared by the brokers.
#[derive(Clone, Debug, PartialEq, Eq)]
pub struct Cluster {}

impl Default for Cluster {
    fn default() -> (cluster: Self)
        ensures
            cluster == (Cluster {}),
    {
        Cluster {}
    }
}

} // verus!
