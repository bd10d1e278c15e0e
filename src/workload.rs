//! The stateful workload group of each role: its containers, its volumes and,
//! for the namenode, the bootstrap step that runs before the main process.
use vstd::prelude::*;
use vstd::string::*;

use crate::cluster::{opt_chars, replica_count, replicas_or_default, HdfsClusterSpec, Role};
use crate::identity::{group_name, group_name_of};
use crate::resources::{
    container_port_table, container_ports, pod_labels, pod_labels_of, Container, ContainerPort,
    ContainerView, EnvValue, EnvValueView, EnvVar, EnvVarView, PodVolume, PodVolumeView,
    VolumeKind, WorkloadGroup, WorkloadGroupView,
};
use crate::topology::strings_chars;

verus! {

pub open spec fn literal_env(name: Seq<char>, value: Seq<char>) -> EnvVarView {
    EnvVarView { name, value: EnvValueView::Literal(value) }
}

/// The environment every HDFS container shares.
pub open spec fn hadoop_env() -> Seq<EnvVarView> {
    seq![
        literal_env("HADOOP_HOME"@, "/opt/hadoop"@),
        literal_env("HADOOP_CONF_DIR"@, "/config"@),
        literal_env("JAVA_TOOL_OPTIONS"@, "-Djava.security.krb5.conf=/config/krb5.conf"@),
    ]
}

/// The environment of the containers that talk to the coordination service:
/// its address comes from a key of the given config map.
pub open spec fn coordinated_env(config_map: Option<Seq<char>>) -> Seq<EnvVarView> {
    hadoop_env().push(
        EnvVarView {
            name: "ZOOKEEPER_BROKERS"@,
            value: EnvValueView::ConfigMapKey { config_map, key: "ZOOKEEPER_BROKERS"@ },
        },
    )
}

/// What an HDFS container mounts: its data and the configuration bundle, and
/// its role's keytab when Kerberos is configured.
pub open spec fn hadoop_mounts(kerberos: bool) -> Seq<VolumeKind> {
    if kerberos {
        seq![VolumeKind::Data, VolumeKind::Config, VolumeKind::Kerberos]
    } else {
        seq![VolumeKind::Data, VolumeKind::Config]
    }
}

pub open spec fn hadoop_container_view(
    name: Seq<char>,
    args: Seq<Seq<char>>,
    ports: Seq<ContainerPort>,
    env: Seq<EnvVarView>,
    kerberos: bool,
) -> ContainerView {
    ContainerView {
        name,
        image: "teozkr/hadoop:3.3.1"@,
        args,
        env,
        ports,
        mounts: hadoop_mounts(kerberos),
        readiness_command: Seq::empty(),
    }
}

pub open spec fn hdfs_command(sub: Seq<char>) -> Seq<Seq<char>> {
    seq!["/opt/hadoop/bin/hdfs"@, sub]
}

/// The namenode's bootstrap: take over the state of a running peer, else
/// format fresh storage, else go on with what is there; then register with the
/// failover controller, tolerating failure. Safe to run on every restart.
pub open spec fn bootstrap_script() -> Seq<char> {
    "/opt/hadoop/bin/hdfs namenode -bootstrapStandby -nonInteractive || /opt/hadoop/bin/hdfs namenode -format -noninteractive || true\n/opt/hadoop/bin/hdfs zkfc -formatZK -nonInteractive || true"@
}

/// Whether the Kerberos branch is active: iff a realm is configured.
pub open spec fn kerberos_enabled(spec: HdfsClusterSpec) -> bool {
    spec.kerberos.realm is Some
}

pub open spec fn hdfs_init_containers(role: Role, spec: HdfsClusterSpec) -> Seq<ContainerView> {
    if role == Role::NameNode {
        seq![
            hadoop_container_view(
                "format-namenode"@,
                seq!["sh"@, "-c"@, bootstrap_script()],
                Seq::empty(),
                coordinated_env(opt_chars(spec.namenode_znode_config_map)),
                kerberos_enabled(spec),
            ),
        ]
    } else {
        Seq::empty()
    }
}

pub open spec fn hdfs_main_containers(role: Role, spec: HdfsClusterSpec) -> Seq<ContainerView> {
    let kerberos = kerberos_enabled(spec);
    if role == Role::NameNode {
        seq![
            hadoop_container_view(
                "namenode"@,
                hdfs_command("namenode"@),
                container_port_table(role),
                hadoop_env(),
                kerberos,
            ),
            hadoop_container_view(
                "zkfc"@,
                hdfs_command("zkfc"@),
                Seq::empty(),
                coordinated_env(opt_chars(spec.namenode_znode_config_map)),
                kerberos,
            ),
        ]
    } else {
        seq![
            hadoop_container_view(
                role_process(role),
                hdfs_command(role_process(role)),
                container_port_table(role),
                hadoop_env(),
                kerberos,
            ),
        ]
    }
}

/// The process an HDFS role's main container runs.
pub open spec fn role_process(role: Role) -> Seq<char> {
    match role {
        Role::NameNode => "namenode"@,
        Role::DataNode => "datanode"@,
        _ => "journalnode"@,
    }
}

/// The volumes of an HDFS role's pods: the configuration bundle and, when
/// Kerberos is configured, the role's keytab secret.
pub open spec fn hdfs_volumes(cluster: Seq<char>, role: Role, kerberos: bool) -> Seq<PodVolumeView> {
    let config = PodVolumeView { kind: VolumeKind::Config, source: cluster + "-config"@ };
    if kerberos {
        seq![
            config,
            PodVolumeView {
                kind: VolumeKind::Kerberos,
                source: group_name(cluster, role) + "-kerberos"@,
            },
        ]
    } else {
        seq![config]
    }
}

/// The replica count an HDFS spec gives a role.
pub open spec fn hdfs_role_replicas(spec: HdfsClusterSpec, role: Role) -> Option<i32> {
    match role {
        Role::NameNode => spec.namenode_replicas,
        Role::DataNode => spec.datanode_replicas,
        _ => spec.journalnode_replicas,
    }
}

/// The workload group of an HDFS role.
pub open spec fn hdfs_workload(cluster: Seq<char>, role: Role, spec: HdfsClusterSpec) -> WorkloadGroupView {
    WorkloadGroupView {
        name: group_name(cluster, role),
        role,
        replicas: replica_count(hdfs_role_replicas(spec, role)) as int,
        selector: pod_labels(role),
        service_name: group_name(cluster, role),
        init_containers: hdfs_init_containers(role, spec),
        containers: hdfs_main_containers(role, spec),
        volumes: hdfs_volumes(cluster, role, kerberos_enabled(spec)),
        host_network: true,
        storage: "1Gi"@,
    }
}

fn literal_env_of(name: &str, value: &str) -> (e: EnvVar)
    ensures
        e@ == literal_env(name@, value@),
{
    EnvVar { name: String::from_str(name), value: EnvValue::Literal(String::from_str(value)) }
}

fn hadoop_env_of() -> (env: Vec<EnvVar>)
    ensures
        env@.map_values(|e: EnvVar| e@) == hadoop_env(),
{
    let mut env: Vec<EnvVar> = Vec::new();
    env.push(literal_env_of("HADOOP_HOME", "/opt/hadoop"));
    env.push(literal_env_of("HADOOP_CONF_DIR", "/config"));
    env.push(
        literal_env_of("JAVA_TOOL_OPTIONS", "-Djava.security.krb5.conf=/config/krb5.conf"),
    );
    assert(env@.map_values(|e: EnvVar| e@) =~= hadoop_env());
    env
}

fn coordinated_env_of(config_map: &Option<String>) -> (env: Vec<EnvVar>)
    ensures
        env@.map_values(|e: EnvVar| e@) == coordinated_env(opt_chars(*config_map)),
{
    let mut env = hadoop_env_of();
    let ghost before = env@;
    env.push(
        EnvVar {
            name: String::from_str("ZOOKEEPER_BROKERS"),
            value: EnvValue::ConfigMapKey {
                config_map: config_map.clone(),
                key: String::from_str("ZOOKEEPER_BROKERS"),
            },
        },
    );
    assert(env@.map_values(|e: EnvVar| e@) =~= before.map_values(|e: EnvVar| e@).push(
        env@.last()@,
    ));
    env
}

fn hdfs_command_of(sub: &str) -> (args: Vec<String>)
    ensures
        strings_chars(args@) == hdfs_command(sub@),
{
    let mut args: Vec<String> = Vec::new();
    args.push(String::from_str("/opt/hadoop/bin/hdfs"));
    args.push(String::from_str(sub));
    assert(strings_chars(args@) =~= hdfs_command(sub@));
    args
}

/// A container of the HDFS image with the given command, ports and
/// environment.
fn hadoop_container(
    name: &str,
    args: Vec<String>,
    ports: Vec<ContainerPort>,
    env: Vec<EnvVar>,
    kerberos: bool,
) -> (c: Container)
    ensures
        c@ == hadoop_container_view(
            name@,
            strings_chars(args@),
            ports@,
            env@.map_values(|e: EnvVar| e@),
            kerberos,
        ),
{
    let mut mounts: Vec<VolumeKind> = Vec::new();
    mounts.push(VolumeKind::Data);
    mounts.push(VolumeKind::Config);
    if kerberos {
        mounts.push(VolumeKind::Kerberos);
    }
    assert(mounts@ =~= hadoop_mounts(kerberos));
    let readiness_command: Vec<String> = Vec::new();
    assert(strings_chars(readiness_command@) =~= Seq::<Seq<char>>::empty());
    Container {
        name: String::from_str(name),
        image: String::from_str("teozkr/hadoop:3.3.1"),
        args,
        env,
        ports,
        mounts,
        readiness_command,
    }
}

fn role_process_of(role: Role) -> (s: &'static str)
    requires
        role != Role::EnsembleServer,
    ensures
        s@ == role_process(role),
{
    match role {
        Role::NameNode => "namenode",
        Role::DataNode => "datanode",
        _ => "journalnode",
    }
}

fn hdfs_role_replicas_of(spec: &HdfsClusterSpec, role: Role) -> (r: Option<i32>)
    ensures
        r == hdfs_role_replicas(*spec, role),
{
    match role {
        Role::NameNode => spec.namenode_replicas,
        Role::DataNode => spec.datanode_replicas,
        _ => spec.journalnode_replicas,
    }
}

/// Builds the workload group of an HDFS role.
pub fn build_hdfs_workload(cluster: &str, role: Role, spec: &HdfsClusterSpec) -> (w:
    WorkloadGroup)
    requires
        role != Role::EnsembleServer,
    ensures
        w@ == hdfs_workload(cluster@, role, *spec),
{
    let kerberos = spec.kerberos.realm.is_some();
    let mut init_containers: Vec<Container> = Vec::new();
    let mut containers: Vec<Container> = Vec::new();
    if role == Role::NameNode {
        let mut script_args: Vec<String> = Vec::new();
        script_args.push(String::from_str("sh"));
        script_args.push(String::from_str("-c"));
        script_args.push(
            String::from_str(
                "/opt/hadoop/bin/hdfs namenode -bootstrapStandby -nonInteractive || /opt/hadoop/bin/hdfs namenode -format -noninteractive || true\n/opt/hadoop/bin/hdfs zkfc -formatZK -nonInteractive || true",
            ),
        );
        assert(strings_chars(script_args@) =~= seq!["sh"@, "-c"@, bootstrap_script()]);
        init_containers.push(
            hadoop_container(
                "format-namenode",
                script_args,
                Vec::new(),
                coordinated_env_of(&spec.namenode_znode_config_map),
                kerberos,
            ),
        );
        containers.push(
            hadoop_container(
                "namenode",
                hdfs_command_of("namenode"),
                container_ports(role),
                hadoop_env_of(),
                kerberos,
            ),
        );
        containers.push(
            hadoop_container(
                "zkfc",
                hdfs_command_of("zkfc"),
                Vec::new(),
                coordinated_env_of(&spec.namenode_znode_config_map),
                kerberos,
            ),
        );
    } else {
        let process = role_process_of(role);
        containers.push(
            hadoop_container(
                process,
                hdfs_command_of(process),
                container_ports(role),
                hadoop_env_of(),
                kerberos,
            ),
        );
    }
    assert(init_containers@.map_values(|c: Container| c@) =~= hdfs_init_containers(role, *spec));
    assert(containers@.map_values(|c: Container| c@) =~= hdfs_main_containers(role, *spec));
    let mut volumes: Vec<PodVolume> = Vec::new();
    volumes.push(
        PodVolume { kind: VolumeKind::Config, source: String::from_str(cluster).concat("-config") },
    );
    if kerberos {
        volumes.push(
            PodVolume {
                kind: VolumeKind::Kerberos,
                source: group_name_of(cluster, role).concat("-kerberos"),
            },
        );
    }
    assert(volumes@.map_values(|v: PodVolume| v@) =~= hdfs_volumes(cluster@, role, kerberos));
    let replicas = replicas_or_default(hdfs_role_replicas_of(spec, role));
    WorkloadGroup {
        name: group_name_of(cluster, role),
        role,
        replicas: replicas as i32,
        selector: pod_labels_of(role),
        service_name: group_name_of(cluster, role),
        init_containers,
        containers,
        volumes,
        host_network: true,
        storage: String::from_str("1Gi"),
    }
}

} // verus!
