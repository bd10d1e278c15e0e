//! The coordination-service ensemble: its specification, its workload group
//! and its desired state.
use vstd::prelude::*;
use vstd::string::*;

use crate::cluster::{replica_count, replicas_or_default, ClusterMeta, Role};
use crate::config::{zoo_cfg, zoo_cfg_of};
use crate::driver::Error;
use crate::identity::{group_name, group_name_of};
use crate::plan::{
    controller_reference_to_obj, lemma_same_plan_same_convergence, managed, owner_ref, plan_result,
    same_convergence,
};
use crate::resources::{
    build_role_service, container_port_table, container_ports, pod_labels, pod_labels_of, ContainerPort,
    resources_view, role_service, Container, ContainerView, EnvValue, EnvValueView, EnvVar,
    EnvVarView, ManagedResource, ManagedResourceView, NetworkService, NetworkServiceView,
    OwnerRefView, PodVolume, PodVolumeView, PortName, ResourceBody, ResourceBodyView,
    ServicePort, VolumeKind, WorkloadGroup, WorkloadGroupView,
};
use crate::topology::{pair_chars, strings_chars};

verus! {

/// The specification of an ensemble.
#[derive(Clone, Debug, Default, PartialEq, Eq)]
pub struct ZookeeperClusterSpec {
    pub replicas: Option<i32>,
    /// A stopped ensemble keeps its resources but runs no replicas.
    pub stopped: Option<bool>,
}

/// How many replicas the ensemble's workload group runs.
pub open spec fn ensemble_replicas(spec: ZookeeperClusterSpec) -> nat {
    if spec.stopped == Some(true) {
        0
    } else {
        replica_count(spec.replicas)
    }
}

/// The service through which clients reach the ensemble, on every node.
pub open spec fn client_service(cluster: Seq<char>) -> NetworkServiceView {
    NetworkServiceView {
        name: cluster,
        role: Role::EnsembleServer,
        ports: seq![ServicePort { name: PortName::Client, port: 2181, target_by_name: false }],
        selector: pod_labels(Role::EnsembleServer),
        headless: false,
        node_port: true,
        publish_not_ready: false,
    }
}

/// Writes the server's id, its ordinal plus one, before the server starts.
pub open spec fn myid_container() -> ContainerView {
    ContainerView {
        name: "decide-myid"@,
        image: "alpine"@,
        args: seq!["sh"@, "-c"@, "expr 1 + $(echo $POD_NAME | sed 's/.*-//') > /data/myid"@],
        env: seq![EnvVarView { name: "POD_NAME"@, value: EnvValueView::PodName }],
        ports: Seq::empty(),
        mounts: seq![VolumeKind::Data],
        readiness_command: Seq::empty(),
    }
}

/// The ensemble server, ready once it reports its mode.
pub open spec fn server_container() -> ContainerView {
    ContainerView {
        name: "zookeeper"@,
        image: "docker.stackable.tech/stackable/zookeeper:3.5.8-stackable0"@,
        args: seq!["bin/zkServer.sh"@, "start-foreground"@, "/config/zoo.cfg"@],
        env: Seq::empty(),
        ports: container_port_table(Role::EnsembleServer),
        mounts: seq![VolumeKind::Data, VolumeKind::Config],
        readiness_command: seq![
            "sh"@,
            "-c"@,
            "exec 3<>/dev/tcp/localhost/2181 && echo srvr >&3 && grep '^Mode: ' <&3"@,
        ],
    }
}

pub open spec fn ensemble_workload(cluster: Seq<char>, spec: ZookeeperClusterSpec) -> WorkloadGroupView {
    let name = group_name(cluster, Role::EnsembleServer);
    WorkloadGroupView {
        name,
        role: Role::EnsembleServer,
        replicas: ensemble_replicas(spec) as int,
        selector: pod_labels(Role::EnsembleServer),
        service_name: name,
        init_containers: seq![myid_container()],
        containers: seq![server_container()],
        volumes: seq![PodVolumeView { kind: VolumeKind::Config, source: name }],
        host_network: false,
        storage: "1Gi"@,
    }
}

/// Every child of an ensemble in application order: the configuration
/// bundle, then the client service, then, if the ensemble has replicas, the
/// servers' service and the workload group.
pub open spec fn ensemble_plan(
    cluster: Seq<char>,
    namespace: Seq<char>,
    owner: OwnerRefView,
    spec: ZookeeperClusterSpec,
) -> Seq<ManagedResourceView> {
    let name = group_name(cluster, Role::EnsembleServer);
    let count = replica_count(spec.replicas);
    seq![
        managed(
            name,
            namespace,
            owner,
            ResourceBodyView::ConfigBundle(seq![("zoo.cfg"@, zoo_cfg(cluster, namespace, count))]),
        ),
        managed(cluster, namespace, owner, ResourceBodyView::NetworkService(client_service(cluster))),
    ] + if count > 0 {
        seq![
            managed(
                name,
                namespace,
                owner,
                ResourceBodyView::NetworkService(role_service(cluster, Role::EnsembleServer)),
            ),
            managed(
                name,
                namespace,
                owner,
                ResourceBodyView::WorkloadGroup(ensemble_workload(cluster, spec)),
            ),
        ]
    } else {
        Seq::empty()
    }
}

/// The outcome of deriving an ensemble's desired state.
pub open spec fn ensemble_desired(meta: ClusterMeta, spec: ZookeeperClusterSpec) -> Result<
    Seq<ManagedResourceView>,
    Error,
> {
    match meta.namespace {
        None => Err(Error::MissingNamespace),
        Some(ns) => match meta.name {
            None => Err(Error::AddressResolutionFailure { role: Role::EnsembleServer }),
            Some(name) => Ok(ensemble_plan(name@, ns@, owner_ref(meta, name@), spec)),
        },
    }
}

fn strings_of3(a: &str, b: &str, c: &str) -> (v: Vec<String>)
    ensures
        strings_chars(v@) == seq![a@, b@, c@],
{
    let mut v: Vec<String> = Vec::new();
    v.push(String::from_str(a));
    v.push(String::from_str(b));
    v.push(String::from_str(c));
    assert(strings_chars(v@) =~= seq![a@, b@, c@]);
    v
}

fn build_myid_container() -> (c: Container)
    ensures
        c@ == myid_container(),
{
    let mut env: Vec<EnvVar> = Vec::new();
    env.push(EnvVar { name: String::from_str("POD_NAME"), value: EnvValue::PodName });
    assert(env@.map_values(|e: EnvVar| e@) =~= myid_container().env);
    let mut mounts: Vec<VolumeKind> = Vec::new();
    mounts.push(VolumeKind::Data);
    assert(mounts@ =~= myid_container().mounts);
    let readiness_command: Vec<String> = Vec::new();
    assert(strings_chars(readiness_command@) =~= Seq::<Seq<char>>::empty());
    let ports = Vec::new();
    assert(ports@ =~= Seq::<ContainerPort>::empty());
    Container {
        name: String::from_str("decide-myid"),
        image: String::from_str("alpine"),
        args: strings_of3("sh", "-c", "expr 1 + $(echo $POD_NAME | sed 's/.*-//') > /data/myid"),
        env,
        ports,
        mounts,
        readiness_command,
    }
}

fn build_server_container() -> (c: Container)
    ensures
        c@ == server_container(),
{
    let env: Vec<EnvVar> = Vec::new();
    assert(env@.map_values(|e: EnvVar| e@) =~= Seq::<EnvVarView>::empty());
    let mut mounts: Vec<VolumeKind> = Vec::new();
    mounts.push(VolumeKind::Data);
    mounts.push(VolumeKind::Config);
    assert(mounts@ =~= server_container().mounts);
    Container {
        name: String::from_str("zookeeper"),
        image: String::from_str("docker.stackable.tech/stackable/zookeeper:3.5.8-stackable0"),
        args: strings_of3("bin/zkServer.sh", "start-foreground", "/config/zoo.cfg"),
        env,
        ports: container_ports(Role::EnsembleServer),
        mounts,
        readiness_command: strings_of3(
            "sh",
            "-c",
            "exec 3<>/dev/tcp/localhost/2181 && echo srvr >&3 && grep '^Mode: ' <&3",
        ),
    }
}

/// Builds the client service of an ensemble.
pub fn build_client_service(cluster: &str) -> (s: NetworkService)
    ensures
        s@ == client_service(cluster@),
{
    let mut ports: Vec<ServicePort> = Vec::new();
    ports.push(ServicePort { name: PortName::Client, port: 2181, target_by_name: false });
    assert(ports@ =~= client_service(cluster@).ports);
    NetworkService {
        name: String::from_str(cluster),
        role: Role::EnsembleServer,
        ports,
        selector: pod_labels_of(Role::EnsembleServer),
        headless: false,
        node_port: true,
        publish_not_ready: false,
    }
}

/// Builds the workload group of an ensemble.
pub fn build_ensemble_workload(cluster: &str, spec: &ZookeeperClusterSpec) -> (w: WorkloadGroup)
    ensures
        w@ == ensemble_workload(cluster@, *spec),
{
    let stopped = match spec.stopped {
        Some(b) => b,
        None => false,
    };
    let replicas: u32 = if stopped {
        0
    } else {
        replicas_or_default(spec.replicas)
    };
    let mut init_containers: Vec<Container> = Vec::new();
    init_containers.push(build_myid_container());
    let mut containers: Vec<Container> = Vec::new();
    containers.push(build_server_container());
    let mut volumes: Vec<PodVolume> = Vec::new();
    volumes.push(
        PodVolume { kind: VolumeKind::Config, source: group_name_of(cluster, Role::EnsembleServer) },
    );
    assert(init_containers@.map_values(|c: Container| c@) =~= seq![myid_container()]);
    assert(containers@.map_values(|c: Container| c@) =~= seq![server_container()]);
    assert(volumes@.map_values(|v: PodVolume| v@) =~= ensemble_workload(cluster@, *spec).volumes);
    WorkloadGroup {
        name: group_name_of(cluster, Role::EnsembleServer),
        role: Role::EnsembleServer,
        replicas: replicas as i32,
        selector: pod_labels_of(Role::EnsembleServer),
        service_name: group_name_of(cluster, Role::EnsembleServer),
        init_containers,
        containers,
        volumes,
        host_network: false,
        storage: String::from_str("1Gi"),
    }
}

/// Derives every child resource of an ensemble, in application order. Fails
/// before deriving anything when the ensemble has no namespace.
pub fn desired_ensemble_resources(meta: &ClusterMeta, spec: &ZookeeperClusterSpec) -> (r: Result<
    Vec<ManagedResource>,
    Error,
>)
    ensures
        plan_result(r) == ensemble_desired(*meta, *spec),
{
    let namespace = match &meta.namespace {
        Some(ns) => ns.as_str(),
        None => {
            return Err(Error::MissingNamespace);
        },
    };
    let cluster = match &meta.name {
        Some(name) => name.as_str(),
        None => {
            return Err(Error::AddressResolutionFailure { role: Role::EnsembleServer });
        },
    };
    let ghost owner = owner_ref(*meta, cluster@);
    let count = replicas_or_default(spec.replicas);
    let mut rs: Vec<ManagedResource> = Vec::new();
    let mut files: Vec<(String, String)> = Vec::new();
    files.push((String::from_str("zoo.cfg"), zoo_cfg_of(cluster, namespace, count)));
    assert(pair_chars(files@) =~= seq![("zoo.cfg"@, zoo_cfg(cluster@, namespace@, count as nat))]);
    rs.push(
        ManagedResource {
            name: group_name_of(cluster, Role::EnsembleServer),
            namespace: String::from_str(namespace),
            owner: controller_reference_to_obj(meta, cluster),
            body: ResourceBody::ConfigBundle(files),
        },
    );
    rs.push(
        ManagedResource {
            name: String::from_str(cluster),
            namespace: String::from_str(namespace),
            owner: controller_reference_to_obj(meta, cluster),
            body: ResourceBody::NetworkService(build_client_service(cluster)),
        },
    );
    if count > 0 {
        rs.push(
            ManagedResource {
                name: group_name_of(cluster, Role::EnsembleServer),
                namespace: String::from_str(namespace),
                owner: controller_reference_to_obj(meta, cluster),
                body: ResourceBody::NetworkService(build_role_service(cluster, Role::EnsembleServer)),
            },
        );
        rs.push(
            ManagedResource {
                name: group_name_of(cluster, Role::EnsembleServer),
                namespace: String::from_str(namespace),
                owner: controller_reference_to_obj(meta, cluster),
                body: ResourceBody::WorkloadGroup(build_ensemble_workload(cluster, spec)),
            },
        );
    }
    assert(resources_view(rs@) =~= ensemble_plan(cluster@, namespace@, owner, *spec));
    Ok(rs)
}

/// An ensemble whose replica count is omitted, and which is not stopped,
/// runs exactly one server.
pub proof fn lemma_ensemble_omitted_count_is_one(cluster: Seq<char>, spec: ZookeeperClusterSpec)
    requires
        spec.replicas is None,
        spec.stopped != Some(true),
    ensures
        ensemble_workload(cluster, spec).replicas == 1,
{
}

/// Reconciling an ensemble is a fixed point: with the ensemble and
/// everything outside unchanged, a second reconciliation derives the same
/// resource bodies, applies them in the same order and finishes the same way.
pub proof fn lemma_ensemble_reconcile_fixed_point(
    first: Result<Vec<ManagedResource>, Error>,
    again: Result<Vec<ManagedResource>, Error>,
    meta: ClusterMeta,
    spec: ZookeeperClusterSpec,
)
    requires
        plan_result(first) == ensemble_desired(meta, spec),
        plan_result(again) == ensemble_desired(meta, spec),
    ensures
        plan_result(first) == plan_result(again),
        same_convergence(first, again),
{
    lemma_same_plan_same_convergence(first, again);
}

} // verus!
