use vstd::prelude::*;

use crate::host::Host;
use crate::host::HostState;

verus! {

/// Whether a host in the given lifecycle state may be rebooted.
///
/// This is a deny-list policy: a host that has been decommissioned
/// (`Removed`) or has not yet finished package installation (`Undeployed`,
/// `Unconfigured`) may not be rebooted; a host in any other stage may.
/// The match is written out over every variant, so that adding a lifecycle
/// stage forces an explicit eligibility decision here rather than falling
/// through to a silent default.
pub open spec fn reboot_eligible(state: HostState) -> bool {
    match state {
        HostState::Undeployed => false,
        HostState::Unconfigured => false,
        HostState::PackagesInstalled => true,
        HostState::Managed => true,
        HostState::Monitored => true,
        HostState::Working => true,
        HostState::Removed => false,
    }
}

/// A job that can be asked whether it is currently permitted to execute
/// against a resource of its associated type.
///
/// Evaluating eligibility only reads the resource: `can_run` takes shared
/// borrows, so it can neither mutate the resource nor the job, and it
/// returns exactly what `can_run_spec` says of them.
pub trait Job {
    /// The kind of resource this job acts upon.
    type Resource;

    /// What `can_run` returns for a given resource.
    spec fn can_run_spec(&self, resource: &Self::Resource) -> bool;

    /// Whether this job is currently permitted to execute against the
    /// given resource.
    fn can_run(&self, resource: &Self::Resource) -> (eligible: bool)
        ensures
            eligible == self.can_run_spec(resource),
    ;
}

/// The job of rebooting a host.
pub struct RebootHostJob;

impl Job for RebootHostJob {
    type Resource = Host;

    open spec fn can_run_spec(&self, host: &Host) -> bool {
        reboot_eligible(host.state)
    }

    fn can_run(&self, host: &Host) -> (eligible: bool)
        ensures
            eligible == reboot_eligible(host.state),
            (host.state is Removed || host.state is Undeployed || host.state is Unconfigured)
                ==> !eligible,
            (host.state is PackagesInstalled || host.state is Managed
                || host.state is Monitored || host.state is Working) ==> eligible,
    {
        match host.state {
            HostState::Removed | HostState::Undeployed | HostState::Unconfigured => false,
            HostState::PackagesInstalled
            | HostState::Managed
            | HostState::Monitored
            | HostState::Working => true,
        }
    }
}

/// A reboot job can never run against a host that has been decommissioned
/// (`Removed`) or has not yet finished package installation (`Undeployed`,
/// `Unconfigured`).
pub proof fn lemma_reboot_denied(job: RebootHostJob, host: Host)
    requires
        host.state is Removed || host.state is Undeployed || host.state is Unconfigured,
    ensures
        !job.can_run_spec(&host),
{
}

/// A reboot job can always run against a host whose packages are installed
/// or that stands in any later active stage (`PackagesInstalled`, `Managed`,
/// `Monitored`, `Working`).
pub proof fn lemma_reboot_allowed(job: RebootHostJob, host: Host)
    requires
        host.state is PackagesInstalled || host.state is Managed || host.state is Monitored
            || host.state is Working,
    ensures
        job.can_run_spec(&host),
{
}

/// Reboot eligibility is a function of the host's state alone: two hosts in
/// the same lifecycle state are judged alike.
pub proof fn lemma_eligibility_depends_on_state_alone(job: RebootHostJob, a: Host, b: Host)
    requires
        a.state == b.state,
    ensures
        job.can_run_spec(&a) == job.can_run_spec(&b),
{
}

} // verus!
