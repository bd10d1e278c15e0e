use hdfs_operator::cluster::{ClusterMeta, HdfsClusterSpec, KerberosConfig, Role};
use hdfs_operator::driver::{
    error_policy, ApplyEvent, Convergence, DriverAction, DriverConfig, Error,
};
use hdfs_operator::ensemble::{desired_ensemble_resources, ZookeeperClusterSpec};
use hdfs_operator::plan::desired_hdfs_resources;
use hdfs_operator::resources::{
    build_role_service, EnvValue, PortName, ResourceBody, ResourceKind, VolumeKind,
};
use hdfs_operator::workload::build_hdfs_workload;

fn meta(name: Option<&str>, namespace: Option<&str>) -> ClusterMeta {
    ClusterMeta {
        api_version: "hdfs.stackable.tech/v1alpha1".to_string(),
        kind: "HdfsCluster".to_string(),
        name: name.map(|s| s.to_string()),
        namespace: namespace.map(|s| s.to_string()),
        uid: "uid-1".to_string(),
    }
}

fn e2e_spec() -> HdfsClusterSpec {
    HdfsClusterSpec {
        namenode_replicas: Some(2),
        journalnode_replicas: Some(3),
        ..HdfsClusterSpec::default()
    }
}

#[test]
fn missing_namespace_fails_first() {
    let r = desired_hdfs_resources(&meta(None, None), &e2e_spec(), "");
    assert_eq!(r, Err(Error::MissingNamespace));
    let r = desired_ensemble_resources(&meta(Some("zk"), None), &ZookeeperClusterSpec::default());
    assert_eq!(r, Err(Error::MissingNamespace));
}

#[test]
fn missing_name_fails_address_resolution() {
    let r = desired_hdfs_resources(&meta(None, Some("ns")), &e2e_spec(), "");
    assert_eq!(r, Err(Error::AddressResolutionFailure { role: Role::NameNode }));
    let r = desired_ensemble_resources(&meta(None, Some("ns")), &ZookeeperClusterSpec::default());
    assert_eq!(r, Err(Error::AddressResolutionFailure { role: Role::EnsembleServer }));
}

#[test]
fn hdfs_plan_order_and_ownership() {
    let rs = desired_hdfs_resources(&meta(Some("hdfs1"), Some("ns")), &e2e_spec(), "x").unwrap();
    let order: Vec<(ResourceKind, &str)> = rs.iter().map(|r| (r.kind(), r.name.as_str())).collect();
    assert_eq!(
        order,
        vec![
            (ResourceKind::ConfigBundle, "hdfs1-config"),
            (ResourceKind::NetworkService, "hdfs1-journalnode"),
            (ResourceKind::WorkloadGroup, "hdfs1-journalnode"),
            (ResourceKind::NetworkService, "hdfs1-namenode"),
            (ResourceKind::WorkloadGroup, "hdfs1-namenode"),
            (ResourceKind::NetworkService, "hdfs1-datanode"),
            (ResourceKind::WorkloadGroup, "hdfs1-datanode"),
        ]
    );
    for r in &rs {
        assert_eq!(r.namespace, "ns");
        assert_eq!(r.owner.name, "hdfs1");
        assert_eq!(r.owner.uid, "uid-1");
        assert_eq!(r.owner.kind, "HdfsCluster");
        assert!(r.owner.controller);
    }
    match &rs[4].body {
        ResourceBody::WorkloadGroup(w) => assert_eq!(w.replicas, 2),
        _ => panic!("expected a workload group"),
    }
}

#[test]
fn reconcile_is_a_fixed_point() {
    let m = meta(Some("hdfs1"), Some("ns"));
    let a = desired_hdfs_resources(&m, &e2e_spec(), "x");
    let b = desired_hdfs_resources(&m, &e2e_spec(), "x");
    assert_eq!(a, b);
}

#[test]
fn roles_without_replicas_get_no_resources() {
    let s = HdfsClusterSpec { datanode_replicas: Some(0), ..HdfsClusterSpec::default() };
    let rs = desired_hdfs_resources(&meta(Some("c"), Some("ns")), &s, "").unwrap();
    assert_eq!(rs.len(), 5);
    assert!(rs.iter().all(|r| r.name != "c-datanode"));
}

#[test]
fn services_publish_not_ready_except_datanode() {
    let nn = build_role_service("c", Role::NameNode);
    assert!(nn.publish_not_ready && nn.headless && !nn.node_port);
    assert_eq!(nn.ports.len(), 2);
    assert_eq!(nn.ports[1].name, PortName::Http);
    assert_eq!(nn.ports[1].port, 80);
    assert!(nn.ports[1].target_by_name);
    assert!(build_role_service("c", Role::JournalNode).publish_not_ready);
    let dn = build_role_service("c", Role::DataNode);
    assert!(!dn.publish_not_ready);
    assert_eq!(dn.ports[0].port, 9867);
    assert_eq!(
        dn.selector,
        vec![
            ("app".to_string(), "hdfs".to_string()),
            ("role".to_string(), "datanode".to_string())
        ]
    );
}

#[test]
fn keytab_volume_only_with_realm() {
    let plain = build_hdfs_workload("c", Role::DataNode, &HdfsClusterSpec::default());
    assert_eq!(plain.volumes.len(), 1);
    assert_eq!(plain.volumes[0].kind, VolumeKind::Config);
    assert_eq!(plain.volumes[0].source, "c-config");
    assert_eq!(plain.containers[0].mounts, vec![VolumeKind::Data, VolumeKind::Config]);
    let s = HdfsClusterSpec {
        kerberos: KerberosConfig { realm: Some("R".to_string()), kdc: None },
        ..HdfsClusterSpec::default()
    };
    let secured = build_hdfs_workload("c", Role::DataNode, &s);
    assert_eq!(secured.volumes.len(), 2);
    assert_eq!(secured.volumes[1].kind, VolumeKind::Kerberos);
    assert_eq!(secured.volumes[1].source, "c-datanode-kerberos");
    assert_eq!(
        secured.containers[0].mounts,
        vec![VolumeKind::Data, VolumeKind::Config, VolumeKind::Kerberos]
    );
    assert_eq!(secured.storage, "1Gi");
    assert_eq!(secured.replicas, 1);
}

#[test]
fn namenode_bootstrap_runs_first() {
    let s = HdfsClusterSpec {
        namenode_znode_config_map: Some("zk-brokers".to_string()),
        ..HdfsClusterSpec::default()
    };
    let w = build_hdfs_workload("c", Role::NameNode, &s);
    assert_eq!(w.init_containers.len(), 1);
    let init = &w.init_containers[0];
    assert_eq!(init.name, "format-namenode");
    assert_eq!(init.args[0], "sh");
    assert!(init.args[2].starts_with("/opt/hadoop/bin/hdfs namenode -bootstrapStandby"));
    assert!(init.args[2].ends_with("zkfc -formatZK -nonInteractive || true"));
    let names: Vec<&str> = w.containers.iter().map(|c| c.name.as_str()).collect();
    assert_eq!(names, vec!["namenode", "zkfc"]);
    let brokers = w.containers[1].env.last().unwrap();
    assert_eq!(brokers.name, "ZOOKEEPER_BROKERS");
    assert_eq!(
        brokers.value,
        EnvValue::ConfigMapKey {
            config_map: Some("zk-brokers".to_string()),
            key: "ZOOKEEPER_BROKERS".to_string()
        }
    );
    assert!(build_hdfs_workload("c", Role::JournalNode, &s).init_containers.is_empty());
}

#[test]
fn ensemble_plan_and_stop() {
    let m = meta(Some("zk"), Some("ns"));
    let spec = ZookeeperClusterSpec { replicas: Some(3), stopped: None };
    let rs = desired_ensemble_resources(&m, &spec).unwrap();
    let order: Vec<(ResourceKind, &str)> = rs.iter().map(|r| (r.kind(), r.name.as_str())).collect();
    assert_eq!(
        order,
        vec![
            (ResourceKind::ConfigBundle, "zk-server"),
            (ResourceKind::NetworkService, "zk"),
            (ResourceKind::NetworkService, "zk-server"),
            (ResourceKind::WorkloadGroup, "zk-server"),
        ]
    );
    match &rs[1].body {
        ResourceBody::NetworkService(s) => assert!(s.node_port && !s.headless),
        _ => panic!("expected a service"),
    }
    let stopped = ZookeeperClusterSpec { replicas: Some(3), stopped: Some(true) };
    let rs = desired_ensemble_resources(&m, &stopped).unwrap();
    match &rs[3].body {
        ResourceBody::WorkloadGroup(w) => {
            assert_eq!(w.replicas, 0);
            assert_eq!(w.init_containers[0].name, "decide-myid");
        }
        _ => panic!("expected a workload group"),
    }
}

#[test]
fn error_policy_retries_after_five_seconds() {
    let config = DriverConfig::hdfs();
    assert_eq!(config.field_manager, "hdfs.stackable.tech/hdfscluster");
    for e in [
        Error::MissingNamespace,
        Error::AddressResolutionFailure { role: Role::DataNode },
        Error::ApplyFailure { kind: ResourceKind::ConfigBundle, name: "x".to_string() },
    ] {
        assert_eq!(error_policy(&e, &config).requeue_after_secs, Some(5));
    }
    assert_eq!(DriverConfig::zookeeper().retry_delay_secs, 5);
}

#[test]
fn driver_applies_in_order_and_stops_at_first_failure() {
    let plan = desired_hdfs_resources(&meta(Some("c"), Some("ns")), &HdfsClusterSpec::default(), "")
        .unwrap();
    let mut c = Convergence::new();
    let mut applied = Vec::new();
    let mut action = c.step(&plan, ApplyEvent::Started);
    while let DriverAction::Apply(i) = action {
        applied.push(i);
        action = c.step(&plan, ApplyEvent::Applied);
    }
    assert_eq!(applied, (0..plan.len()).collect::<Vec<_>>());
    match action {
        DriverAction::Finish(a) => assert_eq!(a.requeue_after_secs, None),
        _ => panic!("expected to finish"),
    }

    let mut c = Convergence::new();
    assert!(matches!(c.step(&plan, ApplyEvent::Started), DriverAction::Apply(0)));
    assert!(matches!(c.step(&plan, ApplyEvent::Applied), DriverAction::Apply(1)));
    match c.step(&plan, ApplyEvent::Rejected) {
        DriverAction::Fail(e) => assert_eq!(
            e,
            Error::ApplyFailure {
                kind: ResourceKind::NetworkService,
                name: "c-journalnode".to_string()
            }
        ),
        _ => panic!("expected a failure"),
    }
}

#[test]
fn ensemble_without_replicas_keeps_bundle_first() {
    let m = meta(Some("zk"), Some("ns"));
    let rs = desired_ensemble_resources(&m, &ZookeeperClusterSpec { replicas: Some(0), stopped: None })
        .unwrap();
    let order: Vec<(ResourceKind, &str)> = rs.iter().map(|r| (r.kind(), r.name.as_str())).collect();
    assert_eq!(
        order,
        vec![(ResourceKind::ConfigBundle, "zk-server"), (ResourceKind::NetworkService, "zk")]
    );
}
