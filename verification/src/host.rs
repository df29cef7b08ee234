use vstd::prelude::*;

verus! {

/// The lifecycle stages a host passes through, from first deployment to
/// decommissioning. A host occupies exactly one stage at any instant.
#[derive(Clone, Copy, Debug, PartialEq, Eq, Structural)]
pub enum HostState {
    Undeployed,
    Unconfigured,
    PackagesInstalled,
    Managed,
    Monitored,
    Working,
    Removed,
}

/// A managed machine, carrying its current lifecycle state.
#[derive(Clone, Copy, Debug, PartialEq, Eq, Structural)]
pub struct Host {
    pub state: HostState,
}

impl Host {
    /// Creates a host in the given lifecycle state.
    pub fn new(state: HostState) -> (host: Host)
        ensures
            host.state == state,
    {
        Host { state }
    }
}

} // verus!
