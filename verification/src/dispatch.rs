//! The hosts of a run, and the deployment that each of them gets.

use crate::action::BuildSystems;
use crate::deploy::{Deploy, DeployView};
use crate::text::texts;
use vstd::prelude::*;

verus! {

/// A host of the fleet, as the configuration describes it.
#[derive(Clone, Debug, PartialEq, Eq)]
pub struct Host {
    pub name: String,
    /// Whether the host is the machine that the run is started on.
    pub local: bool,
    /// Whether the run is to leave the host out.
    pub skip: bool,
    /// The build target that the configuration resolves the attribute path
    /// of the host to.
    pub attr: String,
}

/// A host as plain values.
pub struct HostView {
    pub name: Seq<char>,
    pub local: bool,
    pub skip: bool,
    pub attr: Seq<char>,
}

impl View for Host {
    type V = HostView;

    open spec fn view(&self) -> HostView {
        HostView { name: self.name@, local: self.local, skip: self.skip, attr: self.attr@ }
    }
}

/// The hosts that a list holds, as plain values.
pub open spec fn host_views(v: Seq<Host>) -> Seq<HostView> {
    Seq::new(v.len(), |i: int| v[i]@)
}

/// The deployments that a list holds, as plain values.
pub open spec fn deploy_views(v: Seq<Deploy>) -> Seq<DeployView> {
    Seq::new(v.len(), |i: int| v[i]@)
}

/// The deployment that `host` gets.
pub open spec fn spec_build_task(
    settings: BuildSystems,
    host: HostView,
    nix_args: Seq<Seq<char>>,
) -> DeployView {
    DeployView::initial(settings, host.name, host.local, host.attr, nix_args)
}

/// The deployments of a run: one for each host that is not left out, in the
/// order of the hosts, each before its first step.
pub open spec fn spec_run(
    settings: BuildSystems,
    hosts: Seq<HostView>,
    nix_args: Seq<Seq<char>>,
) -> Seq<DeployView>
    decreases hosts.len(),
{
    if hosts.len() == 0 {
        Seq::empty()
    } else {
        let before = spec_run(settings, hosts.drop_last(), nix_args);
        if hosts.last().skip {
            before
        } else {
            before.push(spec_build_task(settings, hosts.last(), nix_args))
        }
    }
}

impl BuildSystems {
    /// Sets up the deployment of one host. The driver then takes it through
    /// its steps.
    pub fn build_task(&self, host: &Host, nix_args: &Vec<String>) -> (r: Deploy)
        ensures
            r@ == spec_build_task(*self, host@, texts(nix_args@)),
    {
        Deploy::new(self, host.name.as_str(), host.local, host.attr.as_str(), nix_args)
    }

    /// Sets up the deployments of a run over `hosts`. They do not depend on
    /// one another: the driver may take them through their steps in any
    /// order, and the end of one says nothing about the others.
    pub fn run(&self, hosts: &Vec<Host>, nix_args: &Vec<String>) -> (r: Vec<Deploy>)
        ensures
            deploy_views(r@) == spec_run(*self, host_views(hosts@), texts(nix_args@)),
    {
        let mut tasks: Vec<Deploy> = Vec::new();
        let mut i: usize = 0;
        assert(host_views(hosts@).take(0) =~= Seq::empty());
        assert(deploy_views(tasks@) =~= Seq::empty());
        while i < hosts.len()
            invariant
                i <= hosts.len(),
                deploy_views(tasks@) == spec_run(
                    *self,
                    host_views(hosts@).take(i as int),
                    texts(nix_args@),
                ),
            decreases hosts.len() - i,
        {
            proof {
                let next = host_views(hosts@).take(i + 1);
                assert(next.drop_last() =~= host_views(hosts@).take(i as int));
                assert(next.last() == hosts@[i as int]@);
            }
            if !hosts[i].skip {
                let ghost before = tasks@;
                let task = self.build_task(&hosts[i], nix_args);
                tasks.push(task);
                assert(deploy_views(tasks@) =~= deploy_views(before).push(task@));
            }
            i += 1;
        }
        assert(host_views(hosts@).take(i as int) =~= host_views(hosts@));
        tasks
    }
}

/// A run leaves out exactly the hosts that are to be skipped: it sets up as
/// many deployments as there are other hosts, and each is the deployment of
/// one of them.
pub proof fn law_run_skips(settings: BuildSystems, hosts: Seq<HostView>, nix_args: Seq<Seq<char>>)
    ensures
        spec_run(settings, hosts, nix_args).len() <= hosts.len(),
        forall|j: int|
            0 <= j < spec_run(settings, hosts, nix_args).len() ==> exists|i: int|
                0 <= i < hosts.len() && !hosts[i].skip && #[trigger] spec_run(
                    settings,
                    hosts,
                    nix_args,
                )[j] == spec_build_task(settings, #[trigger] hosts[i], nix_args),
        forall|i: int|
            0 <= i < hosts.len() && !hosts[i].skip ==> exists|j: int|
                0 <= j < spec_run(settings, hosts, nix_args).len() && #[trigger] spec_run(
                    settings,
                    hosts,
                    nix_args,
                )[j] == spec_build_task(settings, #[trigger] hosts[i], nix_args),
    decreases hosts.len(),
{
    if hosts.len() > 0 {
        let shorter = hosts.drop_last();
        law_run_skips(settings, shorter, nix_args);
        let before = spec_run(settings, shorter, nix_args);
        let now = spec_run(settings, hosts, nix_args);
        assert forall|j: int| 0 <= j < now.len() implies exists|i: int|
            0 <= i < hosts.len() && !hosts[i].skip && #[trigger] now[j] == spec_build_task(
                settings,
                #[trigger] hosts[i],
                nix_args,
            ) by {
            if j < before.len() {
                let i = choose|i: int|
                    0 <= i < shorter.len() && !shorter[i].skip && #[trigger] before[j]
                        == spec_build_task(settings, #[trigger] shorter[i], nix_args);
                assert(hosts[i] == shorter[i]);
                assert(now[j] == before[j]);
            } else {
                let i = hosts.len() - 1;
                assert(now[j] == spec_build_task(settings, hosts[i], nix_args));
            }
        }
        assert forall|i: int| 0 <= i < hosts.len() && !hosts[i].skip implies exists|j: int|
            0 <= j < now.len() && #[trigger] now[j] == spec_build_task(
                settings,
                #[trigger] hosts[i],
                nix_args,
            ) by {
            if i < shorter.len() {
                assert(hosts[i] == shorter[i]);
                let j = choose|j: int|
                    0 <= j < before.len() && #[trigger] before[j] == spec_build_task(
                        settings,
                        #[trigger] shorter[i],
                        nix_args,
                    );
                assert(now[j] == before[j]);
            } else {
                let j = now.len() - 1;
                assert(now[j] == spec_build_task(settings, hosts[i], nix_args));
            }
        }
    }
}

} // verus!
