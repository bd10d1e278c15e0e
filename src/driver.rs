//! The convergence driver: the error taxonomy, the retry policy, and the
//! state machine that applies a plan of resources in order and stops at the
//! first failure. The caller performs each apply and reports its outcome.
use vstd::prelude::*;

use crate::cluster::Role;
use crate::resources::{body_kind, resources_view, ManagedResource, ResourceKind};

verus! {

/// Why a reconciliation did not converge.
#[derive(Clone, Debug, PartialEq, Eq)]
pub enum Error {
    /// The cluster object has no namespace; nothing was derived.
    MissingNamespace,
    /// An address of the role could not be derived: the cluster has no name.
    AddressResolutionFailure { role: Role },
    /// The upsert of a resource was rejected.
    ApplyFailure { kind: ResourceKind, name: String },
}

/// When the scheduler should invoke reconciliation again.
#[derive(Clone, Copy, Debug, PartialEq, Eq, Structural)]
pub struct ReconcileAction {
    /// Seconds to wait before reconciling again; `None` waits for the next
    /// change.
    pub requeue_after_secs: Option<u64>,
}

/// The constants a driver works with, injected rather than fixed.
#[derive(Clone, Debug, PartialEq, Eq)]
pub struct DriverConfig {
    /// The originator that every upsert is tagged with.
    pub field_manager: String,
    /// Delay before a failed reconciliation is retried.
    pub retry_delay_secs: u64,
}

impl DriverConfig {
    /// The configuration of the HDFS driver.
    pub fn hdfs() -> (c: DriverConfig)
        ensures
            c.field_manager@ == "hdfs.stackable.tech/hdfscluster"@,
            c.retry_delay_secs == 5,
    {
        DriverConfig {
            field_manager: String::from_str("hdfs.stackable.tech/hdfscluster"),
            retry_delay_secs: 5,
        }
    }

    /// The configuration of the ensemble driver.
    pub fn zookeeper() -> (c: DriverConfig)
        ensures
            c.field_manager@ == "zookeeper.stackable.tech/zookeepercluster"@,
            c.retry_delay_secs == 5,
    {
        DriverConfig {
            field_manager: String::from_str("zookeeper.stackable.tech/zookeepercluster"),
            retry_delay_secs: 5,
        }
    }
}

/// Whatever the error, retry after the configured delay: a flat backoff.
pub fn error_policy(_error: &Error, config: &DriverConfig) -> (a: ReconcileAction)
    ensures
        a.requeue_after_secs == Some(config.retry_delay_secs),
{
    ReconcileAction { requeue_after_secs: Some(config.retry_delay_secs) }
}

/// What the driver reports to its caller.
pub enum ApplyEvent {
    /// Reconciliation begins.
    Started,
    /// The resource last asked for was applied.
    Applied,
    /// The upsert of the resource last asked for failed.
    Rejected,
}

/// What the caller is to do next.
#[derive(Debug)]
pub enum DriverAction {
    /// Apply the resource at this index of the plan.
    Apply(usize),
    /// Every resource is applied.
    Finish(ReconcileAction),
    /// Stop: the reconciliation failed. Applied resources stay as they are.
    Fail(Error),
}

/// What the driver asks for once the resources before `next` are applied,
/// in a plan of `len` resources: the next one, or, when none is left, to
/// finish and wait for the next change.
pub open spec fn action_at(next: nat, len: nat) -> DriverAction {
    if next < len {
        DriverAction::Apply(next as usize)
    } else {
        DriverAction::Finish(ReconcileAction { requeue_after_secs: None })
    }
}

/// Progress through a plan of resources.
pub struct Convergence {
    /// Index of the next resource to apply; all before it are applied.
    pub next: usize,
}

impl Convergence {
    pub fn new() -> (c: Convergence)
        ensures
            c.next == 0,
    {
        Convergence { next: 0 }
    }

    /// Takes the outcome of the last step and decides the next one. Resources
    /// are applied strictly in plan order; the first rejection ends the
    /// reconciliation with the kind and name of the rejected resource.
    pub fn step(&mut self, plan: &Vec<ManagedResource>, event: ApplyEvent) -> (a: DriverAction)
        requires
            old(self).next <= plan.len(),
            !(event is Started) ==> old(self).next < plan.len(),
        ensures
            final(self).next <= plan.len(),
            event is Started ==> final(self).next == 0,
            event is Applied ==> final(self).next == old(self).next + 1,
            event is Rejected ==> final(self).next == old(self).next,
            !(event is Rejected) ==> a == action_at(final(self).next as nat, plan.len() as nat),
            event is Rejected ==> a == DriverAction::Fail(
                Error::ApplyFailure {
                    kind: body_kind(resources_view(plan@)[old(self).next as int].body),
                    name: plan@[old(self).next as int].name,
                },
            ),
    {
        match event {
            ApplyEvent::Rejected => {
                let r = &plan[self.next];
                assert(resources_view(plan@)[self.next as int] == r@);
                return DriverAction::Fail(
                    Error::ApplyFailure { kind: r.kind(), name: r.name.clone() },
                );
            },
            ApplyEvent::Started => {
                self.next = 0;
            },
            ApplyEvent::Applied => {
                self.next = self.next + 1;
            },
        }
        if self.next < plan.len() {
            DriverAction::Apply(self.next)
        } else {
            DriverAction::Finish(ReconcileAction { requeue_after_secs: None })
        }
    }
}

} // verus!
