use hdfs_operator::cluster::{replicas_or_default, HdfsClusterSpec, KerberosConfig, Role};
use hdfs_operator::config::{hadoop_config_xml, hdfs_config_bundle, zoo_cfg_of};
use hdfs_operator::identity::{replica_address_of, resolve_identities};
use hdfs_operator::text::{decimal_string, escape_markup, join_with};
use hdfs_operator::topology::{journal_quorum_uri_of, plan_topology, role_principal};

fn spec(nn: Option<i32>, jn: Option<i32>) -> HdfsClusterSpec {
    HdfsClusterSpec {
        namenode_replicas: nn,
        journalnode_replicas: jn,
        ..HdfsClusterSpec::default()
    }
}

#[test]
fn decimal_rendering() {
    assert_eq!(decimal_string(0), "0");
    assert_eq!(decimal_string(7), "7");
    assert_eq!(decimal_string(10), "10");
    assert_eq!(decimal_string(4294967295), "4294967295");
}

#[test]
fn identities_count_ordinals_distinct_and_stable() {
    for r in [0, 1, 2, 5] {
        let ids = resolve_identities("c", "ns", Role::DataNode, Some(r));
        assert_eq!(ids.len(), r as usize);
        for (i, id) in ids.iter().enumerate() {
            assert_eq!(id.ordinal as usize, i);
            assert_eq!(id.role, Role::DataNode);
        }
        for i in 0..ids.len() {
            for j in 0..ids.len() {
                if i != j {
                    assert_ne!(ids[i].address, ids[j].address);
                }
            }
        }
        assert_eq!(ids, resolve_identities("c", "ns", Role::DataNode, Some(r)));
    }
}

#[test]
fn identity_address_format() {
    let ids = resolve_identities("hdfs1", "ns", Role::NameNode, Some(2));
    assert_eq!(ids[1].address, "hdfs1-namenode-1.hdfs1-namenode.ns.svc.cluster.local");
    assert_eq!(
        replica_address_of("zk", Role::EnsembleServer, "prod", 10),
        "zk-server-10.zk-server.prod.svc.cluster.local"
    );
}

#[test]
fn omitted_replica_count_is_one() {
    assert_eq!(replicas_or_default(None), 1);
    assert_eq!(replicas_or_default(Some(0)), 0);
    assert_eq!(replicas_or_default(Some(-3)), 0);
    for role in [Role::NameNode, Role::DataNode, Role::JournalNode, Role::EnsembleServer] {
        let ids = resolve_identities("c", "ns", role, None);
        assert_eq!(ids.len(), 1);
        assert_eq!(ids[0].ordinal, 0);
    }
    let t = plan_topology("c", "ns", &spec(None, None));
    assert_eq!(t.namenode_ids, vec!["name-0".to_string()]);
    assert_eq!(
        t.journal_quorum_uri,
        "qjournal://c-journalnode-0.c-journalnode.ns.svc.cluster.local:8485/c"
    );
}

#[test]
fn end_to_end_topology() {
    let t = plan_topology("hdfs1", "ns", &spec(Some(2), Some(3)));
    assert_eq!(t.nameservice_id, "hdfs1");
    assert_eq!(t.namenode_ids, vec!["name-0".to_string(), "name-1".to_string()]);
    assert_eq!(
        t.journal_quorum_uri,
        "qjournal://hdfs1-journalnode-0.hdfs1-journalnode.ns.svc.cluster.local:8485;hdfs1-journalnode-1.hdfs1-journalnode.ns.svc.cluster.local:8485;hdfs1-journalnode-2.hdfs1-journalnode.ns.svc.cluster.local:8485/hdfs1"
    );
    assert_eq!(
        t.rpc_addresses[1],
        (
            "name-1".to_string(),
            "hdfs1-namenode-1.hdfs1-namenode.ns.svc.cluster.local:8020".to_string()
        )
    );
    assert_eq!(
        t.http_addresses[0],
        (
            "name-0".to_string(),
            "hdfs1-namenode-0.hdfs1-namenode.ns.svc.cluster.local:9870".to_string()
        )
    );
}

#[test]
fn journal_quorum_entries() {
    for n in [1u32, 2, 4] {
        let uri = journal_quorum_uri_of("c", "ns", n);
        let body = uri.strip_prefix("qjournal://").unwrap();
        let (list, nameservice) = body.rsplit_once('/').unwrap();
        assert_eq!(nameservice, "c");
        let entries: Vec<&str> = list.split(';').collect();
        assert_eq!(entries.len(), n as usize);
        for (i, e) in entries.iter().enumerate() {
            assert_eq!(*e, format!("c-journalnode-{}.c-journalnode.ns.svc.cluster.local:8485", i));
        }
    }
    assert_eq!(journal_quorum_uri_of("c", "ns", 0), "qjournal:///c");
}

#[test]
fn principals_anchor_to_namenode_group() {
    let p = role_principal(Role::DataNode, "hdfs1", "ns", "EXAMPLE.COM");
    assert_eq!(p.principal, "dn/hdfs1-namenode.ns.svc.cluster.local@EXAMPLE.COM");
    assert_eq!(p.keytab, "/kerberos/dn.service.keytab");
    let p = role_principal(Role::JournalNode, "a", "b", "LOCAL");
    assert_eq!(p.principal, "jn/a-namenode.b.svc.cluster.local@LOCAL");
}

#[test]
fn kerberos_document_with_realm_and_kdc() {
    let k = KerberosConfig {
        realm: Some("EXAMPLE.COM".to_string()),
        kdc: Some("kdc.example.com".to_string()),
    };
    let doc = k.to_krb5_conf();
    assert_eq!(
        doc,
        "[libdefaults]\ndefault_realm = EXAMPLE.COM\n[realms]\nEXAMPLE.COM = {\nkdc = kdc.example.com\n}\n"
    );
    assert!(doc.contains("default_realm = EXAMPLE.COM"));
    assert!(doc.contains("kdc = kdc.example.com"));
}

#[test]
fn kerberos_document_without_settings() {
    let doc = KerberosConfig::default().to_krb5_conf();
    assert_eq!(doc, "[libdefaults]\n[realms]\n");
    let realm_only = KerberosConfig { realm: Some("R".to_string()), kdc: None }.to_krb5_conf();
    assert_eq!(realm_only, "[libdefaults]\ndefault_realm = R\n[realms]\nR = {\n}\n");
}

#[test]
fn realm_defaults_to_local() {
    assert_eq!(KerberosConfig::default().realm_or_default(), "LOCAL");
    let k = KerberosConfig { realm: Some("X".to_string()), kdc: None };
    assert_eq!(k.realm_or_default(), "X");
}

#[test]
fn property_list_keeps_order_and_escapes() {
    let kvs = vec![
        ("b".to_string(), "2".to_string()),
        ("a".to_string(), "x<y & \"z\" 'w'>".to_string()),
    ];
    assert_eq!(
        hadoop_config_xml(&kvs),
        "<configuration>\n<property><name>b</name><value>2</value></property>\n<property><name>a</name><value>x&lt;y &amp; &quot;z&quot; &apos;w&apos;&gt;</value></property>\n</configuration>"
    );
    assert_eq!(hadoop_config_xml(&vec![]), "<configuration>\n</configuration>");
    assert_eq!(escape_markup("plain"), "plain");
}

#[test]
fn join_separates_neighbours() {
    let parts = vec!["a".to_string(), "b".to_string(), "c".to_string()];
    assert_eq!(join_with(&parts, ", "), "a, b, c");
    assert_eq!(join_with(&vec![], ";"), "");
}

#[test]
fn config_bundle_is_pure() {
    let s = HdfsClusterSpec {
        namenode_replicas: Some(2),
        journalnode_replicas: Some(3),
        kerberos: KerberosConfig { realm: Some("EXAMPLE.COM".to_string()), kdc: None },
        ..HdfsClusterSpec::default()
    };
    let t = plan_topology("hdfs1", "ns", &s);
    let a = hdfs_config_bundle("hdfs1", "ns", &s, &t, "log4j.rootLogger=INFO");
    let b = hdfs_config_bundle("hdfs1", "ns", &s, &plan_topology("hdfs1", "ns", &s), "log4j.rootLogger=INFO");
    assert_eq!(a, b);
    let names: Vec<&str> = a.iter().map(|(k, _)| k.as_str()).collect();
    assert_eq!(names, vec!["core-site.xml", "hdfs-site.xml", "krb5.conf", "log4j.properties"]);
    assert_eq!(
        a[0].1,
        "<configuration>\n<property><name>fs.defaultFS</name><value>hdfs://hdfs1/</value></property>\n<property><name>hadoop.security.authentication</name><value>kerberos</value></property>\n<property><name>hadoop.security.authorization</name><value>false</value></property>\n</configuration>"
    );
    assert!(a[1].1.contains("<property><name>dfs.ha.namenodes.hdfs1</name><value>name-0, name-1</value></property>"));
    assert!(a[1].1.contains("<property><name>dfs.namenode.rpc-address.hdfs1.name-1</name><value>hdfs1-namenode-1.hdfs1-namenode.ns.svc.cluster.local:8020</value></property>"));
    assert!(a[1].1.contains("<property><name>dfs.namenode.kerberos.principal</name><value>nn/hdfs1-namenode.ns.svc.cluster.local@EXAMPLE.COM</value></property>"));
    assert!(a[1].1.contains("<property><name>dfs.ha.fencing.methods</name><value>shell(/bin/true)</value></property>"));
    assert_eq!(a[3].1, "log4j.rootLogger=INFO");
}

#[test]
fn ensemble_configuration_file() {
    assert_eq!(
        zoo_cfg_of("zk", "ns", 2),
        "\ntickTime=2000\ninitLimit=10\nsyncLimit=5\ndataDir=/data\nclientPort=2181\nserver.1=zk-server-0.zk-server.ns.svc.cluster.local:2888:3888;2181\nserver.2=zk-server-1.zk-server.ns.svc.cluster.local:2888:3888;2181\n"
    );
}

#[test]
fn server_lines_are_distinct() {
    let cfg = zoo_cfg_of("zk", "ns", 12);
    let lines: Vec<&str> = cfg.lines().filter(|l| l.starts_with("server.")).collect();
    assert_eq!(lines.len(), 12);
    for i in 0..lines.len() {
        for j in 0..lines.len() {
            if i != j {
                assert_ne!(lines[i], lines[j]);
            }
        }
    }
    assert_eq!(lines[11], "server.12=zk-server-11.zk-server.ns.svc.cluster.local:2888:3888;2181");
}

#[test]
fn site_document_addresses_are_distinct() {
    let s = spec(Some(11), Some(3));
    let t = plan_topology("c", "ns", &s);
    let bundle = hdfs_config_bundle("c", "ns", &s, &t, "");
    let site = &bundle[1].1;
    for i in 0..11 {
        let rpc = format!(
            "<property><name>dfs.namenode.rpc-address.c.name-{i}</name><value>c-namenode-{i}.c-namenode.ns.svc.cluster.local:8020</value></property>"
        );
        assert_eq!(site.matches(&rpc).count(), 1);
    }
    assert!(site.contains("<property><name>dfs.namenode.shared.edits.dir</name><value>qjournal://c-journalnode-0.c-journalnode.ns.svc.cluster.local:8485;c-journalnode-1.c-journalnode.ns.svc.cluster.local:8485;c-journalnode-2.c-journalnode.ns.svc.cluster.local:8485/c</value></property>"));
}

#[test]
fn omitted_counts_in_site_document() {
    let s = HdfsClusterSpec::default();
    let t = plan_topology("c", "ns", &s);
    let site = &hdfs_config_bundle("c", "ns", &s, &t, "")[1].1;
    assert!(site.contains("<property><name>dfs.ha.namenodes.c</name><value>name-0</value></property>"));
    assert_eq!(site.matches("dfs.namenode.rpc-address.").count(), 1);
    assert!(site.contains("<value>qjournal://c-journalnode-0.c-journalnode.ns.svc.cluster.local:8485/c</value>"));
}
