//! The desired state of an HDFS cluster: every child resource, in the order
//! in which the driver applies it, each owned by the cluster and placed in
//! its namespace.
use vstd::prelude::*;
use vstd::string::*;

use crate::cluster::{replica_count, replicas_or_default, ClusterMeta, HdfsClusterSpec, Role};
use crate::config::{hdfs_bundle, hdfs_config_bundle};
use crate::driver::{action_at, DriverAction, Error, ReconcileAction};
use crate::identity::{group_name, group_name_of};
use crate::resources::{
    build_role_service, resources_view, role_service, ManagedResource, ManagedResourceView,
    OwnerRef, OwnerRefView, ResourceBody, ResourceBodyView,
};
use crate::topology::plan_topology;
use crate::workload::{build_hdfs_workload, hdfs_role_replicas, hdfs_workload};

verus! {

/// The owner reference that every child of the cluster carries.
pub open spec fn owner_ref(meta: ClusterMeta, name: Seq<char>) -> OwnerRefView {
    OwnerRefView {
        api_version: meta.api_version@,
        kind: meta.kind@,
        name,
        uid: meta.uid@,
        controller: true,
    }
}

pub open spec fn managed(
    name: Seq<char>,
    namespace: Seq<char>,
    owner: OwnerRefView,
    body: ResourceBodyView,
) -> ManagedResourceView {
    ManagedResourceView { name, namespace, owner, body }
}

/// The service and workload group of an HDFS role, if it has replicas.
pub open spec fn hdfs_role_resources(
    cluster: Seq<char>,
    namespace: Seq<char>,
    owner: OwnerRefView,
    spec: HdfsClusterSpec,
    role: Role,
) -> Seq<ManagedResourceView> {
    if replica_count(hdfs_role_replicas(spec, role)) > 0 {
        seq![
            managed(
                group_name(cluster, role),
                namespace,
                owner,
                ResourceBodyView::NetworkService(role_service(cluster, role)),
            ),
            managed(
                group_name(cluster, role),
                namespace,
                owner,
                ResourceBodyView::WorkloadGroup(hdfs_workload(cluster, role, spec)),
            ),
        ]
    } else {
        Seq::empty()
    }
}

/// Every child of an HDFS cluster in application order: the configuration
/// bundle, then the journalnodes, the namenodes and the datanodes, each
/// role's service before its workload group.
pub open spec fn hdfs_plan(
    cluster: Seq<char>,
    namespace: Seq<char>,
    owner: OwnerRefView,
    spec: HdfsClusterSpec,
    logging: Seq<char>,
) -> Seq<ManagedResourceView> {
    seq![
        managed(
            cluster + "-config"@,
            namespace,
            owner,
            ResourceBodyView::ConfigBundle(hdfs_bundle(cluster, namespace, spec, logging)),
        ),
    ] + hdfs_role_resources(cluster, namespace, owner, spec, Role::JournalNode)
        + hdfs_role_resources(cluster, namespace, owner, spec, Role::NameNode)
        + hdfs_role_resources(cluster, namespace, owner, spec, Role::DataNode)
}

/// The outcome of deriving an HDFS cluster's desired state: it fails first
/// on a missing namespace, then on a missing name.
pub open spec fn hdfs_desired(meta: ClusterMeta, spec: HdfsClusterSpec, logging: Seq<char>) -> Result<
    Seq<ManagedResourceView>,
    Error,
> {
    match meta.namespace {
        None => Err(Error::MissingNamespace),
        Some(ns) => match meta.name {
            None => Err(Error::AddressResolutionFailure { role: Role::NameNode }),
            Some(name) => Ok(hdfs_plan(name@, ns@, owner_ref(meta, name@), spec, logging)),
        },
    }
}

pub open spec fn plan_result(r: Result<Vec<ManagedResource>, Error>) -> Result<
    Seq<ManagedResourceView>,
    Error,
> {
    match r {
        Ok(rs) => Ok(resources_view(rs@)),
        Err(e) => Err(e),
    }
}

/// The owner reference to the cluster, marked as its controller.
pub fn controller_reference_to_obj(meta: &ClusterMeta, name: &str) -> (r: OwnerRef)
    ensures
        r@ == owner_ref(*meta, name@),
{
    OwnerRef {
        api_version: meta.api_version.clone(),
        kind: meta.kind.clone(),
        name: String::from_str(name),
        uid: meta.uid.clone(),
        controller: true,
    }
}

fn push_role_resources(
    rs: &mut Vec<ManagedResource>,
    meta: &ClusterMeta,
    cluster: &str,
    namespace: &str,
    spec: &HdfsClusterSpec,
    role: Role,
)
    requires
        role != Role::EnsembleServer,
    ensures
        resources_view(final(rs)@) == resources_view(old(rs)@) + hdfs_role_resources(
            cluster@,
            namespace@,
            owner_ref(*meta, cluster@),
            *spec,
            role,
        ),
{
    let replicas = match role {
        Role::NameNode => spec.namenode_replicas,
        Role::DataNode => spec.datanode_replicas,
        _ => spec.journalnode_replicas,
    };
    assert(replicas == hdfs_role_replicas(*spec, role));
    let ghost before = rs@;
    if replicas_or_default(replicas) > 0 {
        rs.push(
            ManagedResource {
                name: group_name_of(cluster, role),
                namespace: String::from_str(namespace),
                owner: controller_reference_to_obj(meta, cluster),
                body: ResourceBody::NetworkService(build_role_service(cluster, role)),
            },
        );
        rs.push(
            ManagedResource {
                name: group_name_of(cluster, role),
                namespace: String::from_str(namespace),
                owner: controller_reference_to_obj(meta, cluster),
                body: ResourceBody::WorkloadGroup(build_hdfs_workload(cluster, role, spec)),
            },
        );
    }
    assert(resources_view(rs@) =~= resources_view(before) + hdfs_role_resources(
        cluster@,
        namespace@,
        owner_ref(*meta, cluster@),
        *spec,
        role,
    ));
}

/// Derives every child resource of an HDFS cluster, in application order.
/// Fails before deriving anything when the cluster has no namespace.
pub fn desired_hdfs_resources(meta: &ClusterMeta, spec: &HdfsClusterSpec, logging: &str) -> (r:
    Result<Vec<ManagedResource>, Error>)
    ensures
        plan_result(r) == hdfs_desired(*meta, *spec, logging@),
{
    let namespace = match &meta.namespace {
        Some(ns) => ns.as_str(),
        None => {
            return Err(Error::MissingNamespace);
        },
    };
    let cluster = match &meta.name {
        Some(name) => name.as_str(),
        None => {
            return Err(Error::AddressResolutionFailure { role: Role::NameNode });
        },
    };
    let topology = plan_topology(cluster, namespace, spec);
    let mut rs: Vec<ManagedResource> = Vec::new();
    rs.push(
        ManagedResource {
            name: String::from_str(cluster).concat("-config"),
            namespace: String::from_str(namespace),
            owner: controller_reference_to_obj(meta, cluster),
            body: ResourceBody::ConfigBundle(
                hdfs_config_bundle(cluster, namespace, spec, &topology, logging),
            ),
        },
    );
    let ghost owner = owner_ref(*meta, cluster@);
    assert(resources_view(rs@) =~= seq![
        managed(
            cluster@ + "-config"@,
            namespace@,
            owner,
            ResourceBodyView::ConfigBundle(hdfs_bundle(cluster@, namespace@, *spec, logging@)),
        ),
    ]);
    push_role_resources(&mut rs, meta, cluster, namespace, spec, Role::JournalNode);
    push_role_resources(&mut rs, meta, cluster, namespace, spec, Role::NameNode);
    push_role_resources(&mut rs, meta, cluster, namespace, spec, Role::DataNode);
    Ok(rs)
}

/// Two derivations of desired state agree: both fail alike, or both give
/// the same resources, in view and in order, so that a driver run over
/// either applies the same resources in the same order and, once each is
/// applied, finishes without a requeue.
pub open spec fn same_convergence(
    first: Result<Vec<ManagedResource>, Error>,
    again: Result<Vec<ManagedResource>, Error>,
) -> bool {
    match first {
        Err(e) => again == Err::<Vec<ManagedResource>, Error>(e),
        Ok(a) => match again {
            Err(_) => false,
            Ok(b) => {
                &&& a.len() == b.len()
                &&& forall|k: int| 0 <= k < a.len() ==> (#[trigger] a@[k])@ == b@[k]@
                &&& forall|k: nat|
                    k <= a.len() ==> #[trigger] action_at(k, a.len() as nat) == action_at(
                        k,
                        b.len() as nat,
                    )
                &&& action_at(a.len() as nat, a.len() as nat) == DriverAction::Finish(
                    ReconcileAction { requeue_after_secs: None },
                )
            },
        },
    }
}

/// Derivations with the same outcome converge alike.
pub proof fn lemma_same_plan_same_convergence(
    first: Result<Vec<ManagedResource>, Error>,
    again: Result<Vec<ManagedResource>, Error>,
)
    requires
        plan_result(first) == plan_result(again),
    ensures
        same_convergence(first, again),
{
    match first {
        Ok(a) => match again {
            Ok(b) => {
                assert(resources_view(a@).len() == a.len());
                assert(resources_view(b@).len() == b.len());
                assert forall|k: int| 0 <= k < a.len() implies (#[trigger] a@[k])@ == b@[k]@ by {
                    assert(resources_view(a@)[k] == resources_view(b@)[k]);
                }
            },
            Err(_) => {},
        },
        Err(_) => {},
    }
}

/// Reconciling is a fixed point: the desired state depends on the cluster
/// object alone, never on what was applied before, so reconciling a cluster
/// that has converged, with nothing changed outside, derives the same
/// resource bodies again, applies them in the same order and finishes the
/// same way.
pub proof fn lemma_reconcile_fixed_point(
    first: Result<Vec<ManagedResource>, Error>,
    again: Result<Vec<ManagedResource>, Error>,
    meta: ClusterMeta,
    spec: HdfsClusterSpec,
    logging: Seq<char>,
)
    requires
        plan_result(first) == hdfs_desired(meta, spec, logging),
        plan_result(again) == hdfs_desired(meta, spec, logging),
    ensures
        plan_result(first) == plan_result(again),
        same_convergence(first, again),
{
    lemma_same_plan_same_convergence(first, again);
}

/// A role whose replica count is omitted gets exactly one replica, never
/// none: its service and workload group are part of the plan, and the
/// workload group runs one replica.
pub proof fn lemma_omitted_count_is_one(
    cluster: Seq<char>,
    namespace: Seq<char>,
    owner: OwnerRefView,
    spec: HdfsClusterSpec,
    role: Role,
)
    requires
        role != Role::EnsembleServer,
        hdfs_role_replicas(spec, role) is None,
    ensures
        replica_count(hdfs_role_replicas(spec, role)) == 1,
        hdfs_workload(cluster, role, spec).replicas == 1,
        hdfs_role_resources(cluster, namespace, owner, spec, role).len() == 2,
{
}

} // verus!
