//! Descriptors of the child resources that a cluster owns, with their views,
//! and the per-role tables that drive how they are built.
use vstd::prelude::*;
use vstd::string::*;

use crate::cluster::{peers_discoverable_early, role_name, Role};
use crate::identity::{group_name, group_name_of};
use crate::topology::{pair_chars, strings_chars};

verus! {

/// A named port.
#[derive(Clone, Copy, Debug, PartialEq, Eq, Structural)]
pub enum PortName {
    Ipc,
    Http,
    Data,
    Client,
    Leader,
    Election,
}

pub open spec fn port_name(p: PortName) -> Seq<char> {
    match p {
        PortName::Ipc => "ipc"@,
        PortName::Http => "http"@,
        PortName::Data => "data"@,
        PortName::Client => "zk"@,
        PortName::Leader => "zk-leader"@,
        PortName::Election => "zk-election"@,
    }
}

impl PortName {
    pub fn name(&self) -> (s: &'static str)
        ensures
            s@ == port_name(*self),
    {
        match self {
            PortName::Ipc => "ipc",
            PortName::Http => "http",
            PortName::Data => "data",
            PortName::Client => "zk",
            PortName::Leader => "zk-leader",
            PortName::Election => "zk-election",
        }
    }
}

/// A port that a service exposes; with `target_by_name` it forwards to the
/// container port of the same name rather than to the same number.
#[derive(Clone, Copy, Debug, PartialEq, Eq, Structural)]
pub struct ServicePort {
    pub name: PortName,
    pub port: u16,
    pub target_by_name: bool,
}

/// A port that a container listens on.
#[derive(Clone, Copy, Debug, PartialEq, Eq, Structural)]
pub struct ContainerPort {
    pub name: PortName,
    pub port: u16,
}

/// The volumes a container can mount.
#[derive(Clone, Copy, Debug, PartialEq, Eq, Structural)]
pub enum VolumeKind {
    /// The replica's persistent data volume.
    Data,
    /// The rendered configuration bundle, mounted read-only.
    Config,
    /// The role's keytab secret.
    Kerberos,
}

pub open spec fn volume_name(k: VolumeKind) -> Seq<char> {
    match k {
        VolumeKind::Data => "data"@,
        VolumeKind::Config => "config"@,
        VolumeKind::Kerberos => "kerberos"@,
    }
}

pub open spec fn mount_path(k: VolumeKind) -> Seq<char> {
    match k {
        VolumeKind::Data => "/data"@,
        VolumeKind::Config => "/config"@,
        VolumeKind::Kerberos => "/kerberos"@,
    }
}

impl VolumeKind {
    pub fn name(&self) -> (s: &'static str)
        ensures
            s@ == volume_name(*self),
    {
        match self {
            VolumeKind::Data => "data",
            VolumeKind::Config => "config",
            VolumeKind::Kerberos => "kerberos",
        }
    }

    pub fn mount_path(&self) -> (s: &'static str)
        ensures
            s@ == mount_path(*self),
    {
        match self {
            VolumeKind::Data => "/data",
            VolumeKind::Config => "/config",
            VolumeKind::Kerberos => "/kerberos",
        }
    }

    pub fn read_only(&self) -> (b: bool)
        ensures
            b == (*self == VolumeKind::Config),
    {
        match self {
            VolumeKind::Config => true,
            _ => false,
        }
    }
}

/// Where an environment variable takes its value from.
#[derive(Clone, Debug, PartialEq, Eq)]
pub enum EnvValue {
    Literal(String),
    ConfigMapKey { config_map: Option<String>, key: String },
    /// The name of the pod the container runs in.
    PodName,
}

pub enum EnvValueView {
    Literal(Seq<char>),
    ConfigMapKey { config_map: Option<Seq<char>>, key: Seq<char> },
    PodName,
}

impl View for EnvValue {
    type V = EnvValueView;

    open spec fn view(&self) -> EnvValueView {
        match self {
            EnvValue::Literal(s) => EnvValueView::Literal(s@),
            EnvValue::ConfigMapKey { config_map, key } => EnvValueView::ConfigMapKey {
                config_map: match config_map {
                    Some(m) => Some(m@),
                    None => None,
                },
                key: key@,
            },
            EnvValue::PodName => EnvValueView::PodName,
        }
    }
}

#[derive(Clone, Debug, PartialEq, Eq)]
pub struct EnvVar {
    pub name: String,
    pub value: EnvValue,
}

pub struct EnvVarView {
    pub name: Seq<char>,
    pub value: EnvValueView,
}

impl View for EnvVar {
    type V = EnvVarView;

    open spec fn view(&self) -> EnvVarView {
        EnvVarView { name: self.name@, value: self.value@ }
    }
}

/// A container of a pod template.
#[derive(Clone, Debug, PartialEq, Eq)]
pub struct Container {
    pub name: String,
    pub image: String,
    pub args: Vec<String>,
    pub env: Vec<EnvVar>,
    pub ports: Vec<ContainerPort>,
    pub mounts: Vec<VolumeKind>,
    /// Command whose success marks the container ready; empty for none.
    pub readiness_command: Vec<String>,
}

pub struct ContainerView {
    pub name: Seq<char>,
    pub image: Seq<char>,
    pub args: Seq<Seq<char>>,
    pub env: Seq<EnvVarView>,
    pub ports: Seq<ContainerPort>,
    pub mounts: Seq<VolumeKind>,
    pub readiness_command: Seq<Seq<char>>,
}

impl View for Container {
    type V = ContainerView;

    open spec fn view(&self) -> ContainerView {
        ContainerView {
            name: self.name@,
            image: self.image@,
            args: strings_chars(self.args@),
            env: self.env@.map_values(|e: EnvVar| e@),
            ports: self.ports@,
            mounts: self.mounts@,
            readiness_command: strings_chars(self.readiness_command@),
        }
    }
}

/// A volume of a pod template: the configuration bundle or a secret, by name.
#[derive(Clone, Debug, PartialEq, Eq)]
pub struct PodVolume {
    pub kind: VolumeKind,
    pub source: String,
}

pub struct PodVolumeView {
    pub kind: VolumeKind,
    pub source: Seq<char>,
}

impl View for PodVolume {
    type V = PodVolumeView;

    open spec fn view(&self) -> PodVolumeView {
        PodVolumeView { kind: self.kind, source: self.source@ }
    }
}

/// A network service that gives a role's replicas their stable names.
#[derive(Clone, Debug, PartialEq, Eq)]
pub struct NetworkService {
    pub name: String,
    pub role: Role,
    pub ports: Vec<ServicePort>,
    pub selector: Vec<(String, String)>,
    /// No load-balanced address: the name resolves to each replica.
    pub headless: bool,
    /// Reachable on a port of every node.
    pub node_port: bool,
    /// Replicas are advertised before they are ready.
    pub publish_not_ready: bool,
}

pub struct NetworkServiceView {
    pub name: Seq<char>,
    pub role: Role,
    pub ports: Seq<ServicePort>,
    pub selector: Seq<(Seq<char>, Seq<char>)>,
    pub headless: bool,
    pub node_port: bool,
    pub publish_not_ready: bool,
}

impl View for NetworkService {
    type V = NetworkServiceView;

    open spec fn view(&self) -> NetworkServiceView {
        NetworkServiceView {
            name: self.name@,
            role: self.role,
            ports: self.ports@,
            selector: pair_chars(self.selector@),
            headless: self.headless,
            node_port: self.node_port,
            publish_not_ready: self.publish_not_ready,
        }
    }
}

/// A stateful group of replicas, started in parallel, each with its own data
/// volume claimed from a template.
#[derive(Clone, Debug, PartialEq, Eq)]
pub struct WorkloadGroup {
    pub name: String,
    pub role: Role,
    pub replicas: i32,
    pub selector: Vec<(String, String)>,
    pub service_name: String,
    /// Run to completion, in order, before the main containers start.
    pub init_containers: Vec<Container>,
    pub containers: Vec<Container>,
    pub volumes: Vec<PodVolume>,
    pub host_network: bool,
    /// Size requested for each replica's data volume.
    pub storage: String,
}

pub struct WorkloadGroupView {
    pub name: Seq<char>,
    pub role: Role,
    pub replicas: int,
    pub selector: Seq<(Seq<char>, Seq<char>)>,
    pub service_name: Seq<char>,
    pub init_containers: Seq<ContainerView>,
    pub containers: Seq<ContainerView>,
    pub volumes: Seq<PodVolumeView>,
    pub host_network: bool,
    pub storage: Seq<char>,
}

impl View for WorkloadGroup {
    type V = WorkloadGroupView;

    open spec fn view(&self) -> WorkloadGroupView {
        WorkloadGroupView {
            name: self.name@,
            role: self.role,
            replicas: self.replicas as int,
            selector: pair_chars(self.selector@),
            service_name: self.service_name@,
            init_containers: self.init_containers@.map_values(|c: Container| c@),
            containers: self.containers@.map_values(|c: Container| c@),
            volumes: self.volumes@.map_values(|v: PodVolume| v@),
            host_network: self.host_network,
            storage: self.storage@,
        }
    }
}

/// What a managed resource is.
#[derive(Clone, Copy, Debug, PartialEq, Eq, Structural)]
pub enum ResourceKind {
    WorkloadGroup,
    NetworkService,
    ConfigBundle,
}

/// The desired body of a managed resource.
#[derive(Clone, Debug, PartialEq, Eq)]
pub enum ResourceBody {
    /// File name to content, in order.
    ConfigBundle(Vec<(String, String)>),
    NetworkService(NetworkService),
    WorkloadGroup(WorkloadGroup),
}

pub enum ResourceBodyView {
    ConfigBundle(Seq<(Seq<char>, Seq<char>)>),
    NetworkService(NetworkServiceView),
    WorkloadGroup(WorkloadGroupView),
}

impl View for ResourceBody {
    type V = ResourceBodyView;

    open spec fn view(&self) -> ResourceBodyView {
        match self {
            ResourceBody::ConfigBundle(files) => ResourceBodyView::ConfigBundle(pair_chars(files@)),
            ResourceBody::NetworkService(s) => ResourceBodyView::NetworkService(s@),
            ResourceBody::WorkloadGroup(w) => ResourceBodyView::WorkloadGroup(w@),
        }
    }
}

/// The link from a child resource to the cluster that owns it, through which
/// the child is deleted with its owner.
#[derive(Clone, Debug, PartialEq, Eq)]
pub struct OwnerRef {
    pub api_version: String,
    pub kind: String,
    pub name: String,
    pub uid: String,
    pub controller: bool,
}

pub struct OwnerRefView {
    pub api_version: Seq<char>,
    pub kind: Seq<char>,
    pub name: Seq<char>,
    pub uid: Seq<char>,
    pub controller: bool,
}

impl View for OwnerRef {
    type V = OwnerRefView;

    open spec fn view(&self) -> OwnerRefView {
        OwnerRefView {
            api_version: self.api_version@,
            kind: self.kind@,
            name: self.name@,
            uid: self.uid@,
            controller: self.controller,
        }
    }
}

/// A child resource in its desired state.
#[derive(Clone, Debug, PartialEq, Eq)]
pub struct ManagedResource {
    pub name: String,
    pub namespace: String,
    pub owner: OwnerRef,
    pub body: ResourceBody,
}

pub struct ManagedResourceView {
    pub name: Seq<char>,
    pub namespace: Seq<char>,
    pub owner: OwnerRefView,
    pub body: ResourceBodyView,
}

impl View for ManagedResource {
    type V = ManagedResourceView;

    open spec fn view(&self) -> ManagedResourceView {
        ManagedResourceView {
            name: self.name@,
            namespace: self.namespace@,
            owner: self.owner@,
            body: self.body@,
        }
    }
}

pub open spec fn body_kind(body: ResourceBodyView) -> ResourceKind {
    match body {
        ResourceBodyView::ConfigBundle(_) => ResourceKind::ConfigBundle,
        ResourceBodyView::NetworkService(_) => ResourceKind::NetworkService,
        ResourceBodyView::WorkloadGroup(_) => ResourceKind::WorkloadGroup,
    }
}

impl ManagedResource {
    pub fn kind(&self) -> (k: ResourceKind)
        ensures
            k == body_kind(self@.body),
    {
        match &self.body {
            ResourceBody::ConfigBundle(_) => ResourceKind::ConfigBundle,
            ResourceBody::NetworkService(_) => ResourceKind::NetworkService,
            ResourceBody::WorkloadGroup(_) => ResourceKind::WorkloadGroup,
        }
    }
}

pub open spec fn resources_view(rs: Seq<ManagedResource>) -> Seq<ManagedResourceView> {
    rs.map_values(|r: ManagedResource| r@)
}

/// The ports that a role's service exposes. The HTTP port of the HDFS roles
/// forwards by name.
pub open spec fn service_port_table(role: Role) -> Seq<ServicePort> {
    match role {
        Role::NameNode => seq![
            ServicePort { name: PortName::Ipc, port: 8020, target_by_name: false },
            ServicePort { name: PortName::Http, port: 80, target_by_name: true },
        ],
        Role::DataNode => seq![
            ServicePort { name: PortName::Ipc, port: 9867, target_by_name: false },
            ServicePort { name: PortName::Http, port: 80, target_by_name: true },
        ],
        Role::JournalNode => seq![
            ServicePort { name: PortName::Ipc, port: 8485, target_by_name: false },
        ],
        Role::EnsembleServer => seq![
            ServicePort { name: PortName::Client, port: 2181, target_by_name: false },
        ],
    }
}

/// The ports that a role's main container listens on.
pub open spec fn container_port_table(role: Role) -> Seq<ContainerPort> {
    match role {
        Role::NameNode => seq![
            ContainerPort { name: PortName::Ipc, port: 8020 },
            ContainerPort { name: PortName::Http, port: 9870 },
        ],
        Role::DataNode => seq![
            ContainerPort { name: PortName::Ipc, port: 9867 },
            ContainerPort { name: PortName::Data, port: 9866 },
            ContainerPort { name: PortName::Http, port: 9864 },
        ],
        Role::JournalNode => seq![ContainerPort { name: PortName::Ipc, port: 8485 }],
        Role::EnsembleServer => seq![
            ContainerPort { name: PortName::Client, port: 2181 },
            ContainerPort { name: PortName::Leader, port: 2888 },
            ContainerPort { name: PortName::Election, port: 3888 },
        ],
    }
}

/// The application a role belongs to, as its pods are labelled.
pub open spec fn app_name(role: Role) -> Seq<char> {
    match role {
        Role::EnsembleServer => "zookeeper"@,
        _ => "hdfs"@,
    }
}

/// The labels of a role's pods, which its service and workload select on.
pub open spec fn pod_labels(role: Role) -> Seq<(Seq<char>, Seq<char>)> {
    seq![("app"@, app_name(role)), ("role"@, role_name(role))]
}

/// The headless service of a role.
pub open spec fn role_service(cluster: Seq<char>, role: Role) -> NetworkServiceView {
    NetworkServiceView {
        name: group_name(cluster, role),
        role,
        ports: service_port_table(role),
        selector: pod_labels(role),
        headless: true,
        node_port: false,
        publish_not_ready: peers_discoverable_early(role),
    }
}

pub fn service_ports(role: Role) -> (ports: Vec<ServicePort>)
    ensures
        ports@ == service_port_table(role),
{
    let mut ports: Vec<ServicePort> = Vec::new();
    match role {
        Role::NameNode => {
            ports.push(ServicePort { name: PortName::Ipc, port: 8020, target_by_name: false });
            ports.push(ServicePort { name: PortName::Http, port: 80, target_by_name: true });
        },
        Role::DataNode => {
            ports.push(ServicePort { name: PortName::Ipc, port: 9867, target_by_name: false });
            ports.push(ServicePort { name: PortName::Http, port: 80, target_by_name: true });
        },
        Role::JournalNode => {
            ports.push(ServicePort { name: PortName::Ipc, port: 8485, target_by_name: false });
        },
        Role::EnsembleServer => {
            ports.push(ServicePort { name: PortName::Client, port: 2181, target_by_name: false });
        },
    }
    assert(ports@ =~= service_port_table(role));
    ports
}

pub fn container_ports(role: Role) -> (ports: Vec<ContainerPort>)
    ensures
        ports@ == container_port_table(role),
{
    let mut ports: Vec<ContainerPort> = Vec::new();
    match role {
        Role::NameNode => {
            ports.push(ContainerPort { name: PortName::Ipc, port: 8020 });
            ports.push(ContainerPort { name: PortName::Http, port: 9870 });
        },
        Role::DataNode => {
            ports.push(ContainerPort { name: PortName::Ipc, port: 9867 });
            ports.push(ContainerPort { name: PortName::Data, port: 9866 });
            ports.push(ContainerPort { name: PortName::Http, port: 9864 });
        },
        Role::JournalNode => {
            ports.push(ContainerPort { name: PortName::Ipc, port: 8485 });
        },
        Role::EnsembleServer => {
            ports.push(ContainerPort { name: PortName::Client, port: 2181 });
            ports.push(ContainerPort { name: PortName::Leader, port: 2888 });
            ports.push(ContainerPort { name: PortName::Election, port: 3888 });
        },
    }
    assert(ports@ =~= container_port_table(role));
    ports
}

pub fn pod_labels_of(role: Role) -> (labels: Vec<(String, String)>)
    ensures
        pair_chars(labels@) == pod_labels(role),
{
    let app = match role {
        Role::EnsembleServer => "zookeeper",
        _ => "hdfs",
    };
    let mut labels: Vec<(String, String)> = Vec::new();
    labels.push((String::from_str("app"), String::from_str(app)));
    labels.push((String::from_str("role"), String::from_str(role.name())));
    assert(pair_chars(labels@) =~= pod_labels(role));
    labels
}

/// Builds the headless service of a role.
pub fn build_role_service(cluster: &str, role: Role) -> (s: NetworkService)
    ensures
        s@ == role_service(cluster@, role),
{
    NetworkService {
        name: group_name_of(cluster, role),
        role,
        ports: service_ports(role),
        selector: pod_labels_of(role),
        headless: true,
        node_port: false,
        publish_not_ready: role.publishes_not_ready_addresses(),
    }
}

} // verus!
