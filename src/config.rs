//! Rendering of the configuration documents: the property-list documents of
//! HDFS, the Kerberos document, the ensemble configuration, and the bundle
//! that carries them.
use vstd::prelude::*;
use vstd::string::*;

use crate::cluster::{
    krb5_conf, opt_chars, realm_or_default, replica_count, HdfsClusterSpec, Role,
};
use crate::identity::{lemma_replica_addresses_distinct, replica_address, replica_address_of};
use crate::text::{
    decimal, decimal_string, escape_markup, join, join_with, lemma_decimal_field,
    lemma_decimal_injective, lemma_same_suffix, xml_escape,
};
use crate::topology::{
    http_address, journal_entries, journal_entry, journal_quorum_uri, keytab_path, namenode_id, namenode_ids, pair_chars,
    principal, role_principal, rpc_address, strings_chars, topology_of, NameserviceTopology,
};

verus! {

/// One property element of a property-list document.
pub open spec fn property(key: Seq<char>, value: Seq<char>) -> Seq<char> {
    "<property><name>"@ + xml_escape(key) + "</name><value>"@ + xml_escape(value)
        + "</value></property>\n"@
}

pub open spec fn properties(kvs: Seq<(Seq<char>, Seq<char>)>) -> Seq<char>
    decreases kvs.len(),
{
    if kvs.len() == 0 {
        Seq::empty()
    } else {
        properties(kvs.drop_last()) + property(kvs.last().0, kvs.last().1)
    }
}

/// A property-list document: one element per pair, in the given order.
pub open spec fn config_xml(kvs: Seq<(Seq<char>, Seq<char>)>) -> Seq<char> {
    "<configuration>\n"@ + properties(kvs) + "</configuration>"@
}

/// Renders key/value pairs as a property-list document, keeping their order
/// and escaping markup-significant characters in keys and values.
pub fn hadoop_config_xml(kvs: &Vec<(String, String)>) -> (xml: String)
    ensures
        xml@ == config_xml(pair_chars(kvs@)),
{
    let ghost pairs = pair_chars(kvs@);
    let mut xml = String::from_str("<configuration>\n");
    let mut i: usize = 0;
    while i < kvs.len()
        invariant
            i <= kvs.len(),
            pairs == pair_chars(kvs@),
            xml@ == "<configuration>\n"@ + properties(pairs.subrange(0, i as int)),
        decreases kvs.len() - i,
    {
        let (key, value) = &kvs[i];
        xml.append("<property><name>");
        xml.append(escape_markup(key.as_str()).as_str());
        xml.append("</name><value>");
        xml.append(escape_markup(value.as_str()).as_str());
        xml.append("</value></property>\n");
        assert(pairs.subrange(0, i + 1).drop_last() =~= pairs.subrange(0, i as int));
        i = i + 1;
    }
    assert(pairs.subrange(0, kvs.len() as int) =~= pairs);
    xml.append("</configuration>");
    xml
}

/// The settings of the primary filesystem-location document.
pub open spec fn core_site_entries(cluster: Seq<char>) -> Seq<(Seq<char>, Seq<char>)> {
    seq![
        ("fs.defaultFS"@, "hdfs://"@ + cluster + "/"@),
        ("hadoop.security.authentication"@, "kerberos"@),
        ("hadoop.security.authorization"@, "false"@),
    ]
}

/// The cluster-wide settings of the site document.
pub open spec fn hdfs_site_base(
    cluster: Seq<char>,
    namespace: Seq<char>,
    spec: HdfsClusterSpec,
) -> Seq<(Seq<char>, Seq<char>)> {
    let realm = realm_or_default(opt_chars(spec.kerberos.realm));
    let nn = replica_count(spec.namenode_replicas);
    let jn = replica_count(spec.journalnode_replicas);
    seq![
        ("dfs.namenode.name.dir"@, "/data"@),
        ("dfs.datanode.data.dir"@, "/data"@),
        ("dfs.journalnode.edits.dir"@, "/data"@),
        ("dfs.nameservices"@, cluster),
        ("dfs.ha.namenodes."@ + cluster, join(namenode_ids(nn), ", "@)),
        ("dfs.namenode.shared.edits.dir"@, journal_quorum_uri(cluster, namespace, jn)),
        (
            "dfs.client.failover.proxy.provider."@ + cluster,
            "org.apache.hadoop.hdfs.server.namenode.ha.ConfiguredFailoverProxyProvider"@,
        ),
        ("dfs.ha.fencing.methods"@, "shell(/bin/true)"@),
        ("dfs.ha.nn.not-become-active-in-safemode"@, "true"@),
        ("dfs.ha.automatic-failover.enabled"@, "true"@),
        ("ha.zookeeper.quorum"@, "${env.ZOOKEEPER_BROKERS}"@),
        ("dfs.block.access.token.enable"@, "true"@),
        ("ignore.secure.ports.for.testing"@, "true"@),
        ("dfs.journalnode.kerberos.principal"@, principal(Role::JournalNode, cluster, namespace, realm)),
        ("dfs.journalnode.keytab.file"@, keytab_path(Role::JournalNode)),
        ("dfs.namenode.kerberos.principal"@, principal(Role::NameNode, cluster, namespace, realm)),
        ("dfs.namenode.keytab.file"@, keytab_path(Role::NameNode)),
        ("dfs.datanode.kerberos.principal"@, principal(Role::DataNode, cluster, namespace, realm)),
        ("dfs.datanode.keytab.file"@, keytab_path(Role::DataNode)),
    ]
}

/// The RPC address setting of a namenode.
pub open spec fn rpc_entry(cluster: Seq<char>, namespace: Seq<char>, i: nat) -> (Seq<char>, Seq<char>) {
    ("dfs.namenode.rpc-address."@ + cluster + "."@ + namenode_id(i), rpc_address(cluster, namespace, i))
}

/// The HTTP address setting of a namenode.
pub open spec fn http_entry(cluster: Seq<char>, namespace: Seq<char>, i: nat) -> (Seq<char>, Seq<char>) {
    (
        "dfs.namenode.http-address."@ + cluster + "."@ + namenode_id(i),
        http_address(cluster, namespace, i),
    )
}

/// The RPC and HTTP address settings of the first `count` namenodes.
pub open spec fn namenode_address_entries(
    cluster: Seq<char>,
    namespace: Seq<char>,
    count: nat,
) -> Seq<(Seq<char>, Seq<char>)>
    decreases count,
{
    if count == 0 {
        Seq::empty()
    } else {
        let i = (count - 1) as nat;
        namenode_address_entries(cluster, namespace, i) + seq![
            rpc_entry(cluster, namespace, i),
            http_entry(cluster, namespace, i),
        ]
    }
}

/// Every setting of the site document, in order.
pub open spec fn hdfs_site_entries(
    cluster: Seq<char>,
    namespace: Seq<char>,
    spec: HdfsClusterSpec,
) -> Seq<(Seq<char>, Seq<char>)> {
    hdfs_site_base(cluster, namespace, spec) + namenode_address_entries(
        cluster,
        namespace,
        replica_count(spec.namenode_replicas),
    )
}

/// The configuration bundle of an HDFS cluster: file name to content.
pub open spec fn hdfs_bundle(
    cluster: Seq<char>,
    namespace: Seq<char>,
    spec: HdfsClusterSpec,
    logging: Seq<char>,
) -> Seq<(Seq<char>, Seq<char>)> {
    seq![
        ("core-site.xml"@, config_xml(core_site_entries(cluster))),
        ("hdfs-site.xml"@, config_xml(hdfs_site_entries(cluster, namespace, spec))),
        ("krb5.conf"@, krb5_conf(opt_chars(spec.kerberos.realm), opt_chars(spec.kerberos.kdc))),
        ("log4j.properties"@, logging),
    ]
}

fn pair(key: &str, value: &str) -> (p: (String, String))
    ensures
        p.0@ == key@,
        p.1@ == value@,
{
    (String::from_str(key), String::from_str(value))
}

/// The settings of the primary filesystem-location document.
pub fn core_site_config(cluster: &str) -> (kvs: Vec<(String, String)>)
    ensures
        pair_chars(kvs@) == core_site_entries(cluster@),
{
    let mut kvs: Vec<(String, String)> = Vec::new();
    let mut default_fs = String::from_str("hdfs://");
    default_fs.append(cluster);
    default_fs.append("/");
    kvs.push((String::from_str("fs.defaultFS"), default_fs));
    kvs.push(pair("hadoop.security.authentication", "kerberos"));
    kvs.push(pair("hadoop.security.authorization", "false"));
    assert(pair_chars(kvs@) =~= core_site_entries(cluster@));
    kvs
}

fn suffixed(prefix: &str, suffix: &str) -> (r: String)
    ensures
        r@ == prefix@ + suffix@,
{
    String::from_str(prefix).concat(suffix)
}

/// The settings of the site document, derived from the spec and its topology.
pub fn hdfs_site_config(
    cluster: &str,
    namespace: &str,
    spec: &HdfsClusterSpec,
    topology: &NameserviceTopology,
) -> (kvs: Vec<(String, String)>)
    requires
        topology_of(*topology, cluster@, namespace@, *spec),
    ensures
        pair_chars(kvs@) == hdfs_site_entries(cluster@, namespace@, *spec),
{
    let realm = spec.kerberos.realm_or_default();
    let jn = role_principal(Role::JournalNode, cluster, namespace, realm.as_str());
    let nn = role_principal(Role::NameNode, cluster, namespace, realm.as_str());
    let dn = role_principal(Role::DataNode, cluster, namespace, realm.as_str());
    let mut kvs: Vec<(String, String)> = Vec::new();
    kvs.push(pair("dfs.namenode.name.dir", "/data"));
    kvs.push(pair("dfs.datanode.data.dir", "/data"));
    kvs.push(pair("dfs.journalnode.edits.dir", "/data"));
    kvs.push(pair("dfs.nameservices", cluster));
    kvs.push(
        (suffixed("dfs.ha.namenodes.", cluster), join_with(&topology.namenode_ids, ", ")),
    );
    kvs.push(
        (String::from_str("dfs.namenode.shared.edits.dir"), topology.journal_quorum_uri.clone()),
    );
    kvs.push(
        (
            suffixed("dfs.client.failover.proxy.provider.", cluster),
            String::from_str(
                "org.apache.hadoop.hdfs.server.namenode.ha.ConfiguredFailoverProxyProvider",
            ),
        ),
    );
    kvs.push(pair("dfs.ha.fencing.methods", "shell(/bin/true)"));
    kvs.push(pair("dfs.ha.nn.not-become-active-in-safemode", "true"));
    kvs.push(pair("dfs.ha.automatic-failover.enabled", "true"));
    kvs.push(pair("ha.zookeeper.quorum", "${env.ZOOKEEPER_BROKERS}"));
    kvs.push(pair("dfs.block.access.token.enable", "true"));
    kvs.push(pair("ignore.secure.ports.for.testing", "true"));
    kvs.push((String::from_str("dfs.journalnode.kerberos.principal"), jn.principal));
    kvs.push((String::from_str("dfs.journalnode.keytab.file"), jn.keytab));
    kvs.push((String::from_str("dfs.namenode.kerberos.principal"), nn.principal));
    kvs.push((String::from_str("dfs.namenode.keytab.file"), nn.keytab));
    kvs.push((String::from_str("dfs.datanode.kerberos.principal"), dn.principal));
    kvs.push((String::from_str("dfs.datanode.keytab.file"), dn.keytab));
    assert(pair_chars(kvs@) =~= hdfs_site_base(cluster@, namespace@, *spec));
    let count = topology.rpc_addresses.len();
    assert(pair_chars(topology.rpc_addresses@).len() == count);
    assert(pair_chars(topology.http_addresses@).len() == topology.http_addresses.len());
    let mut i: usize = 0;
    while i < count
        invariant
            i <= count,
            count == topology.rpc_addresses.len(),
            count == topology.http_addresses.len(),
            count == replica_count(spec.namenode_replicas),
            topology_of(*topology, cluster@, namespace@, *spec),
            pair_chars(kvs@) == hdfs_site_base(cluster@, namespace@, *spec)
                + namenode_address_entries(cluster@, namespace@, i as nat),
        decreases count - i,
    {
        let ghost before = kvs@;
        let (id, rpc) = &topology.rpc_addresses[i];
        let (_, http) = &topology.http_addresses[i];
        assert(pair_chars(topology.rpc_addresses@)[i as int] == (
        topology.rpc_addresses@[i as int].0@, topology.rpc_addresses@[i as int].1@));
        assert(pair_chars(topology.http_addresses@)[i as int] == (
        topology.http_addresses@[i as int].0@, topology.http_addresses@[i as int].1@));
        let mut rpc_key = suffixed("dfs.namenode.rpc-address.", cluster);
        rpc_key.append(".");
        rpc_key.append(id.as_str());
        let mut http_key = suffixed("dfs.namenode.http-address.", cluster);
        http_key.append(".");
        http_key.append(id.as_str());
        kvs.push((rpc_key, rpc.clone()));
        kvs.push((http_key, http.clone()));
        i = i + 1;
        assert(pair_chars(kvs@) =~= pair_chars(before) + seq![
            (pair_chars(kvs@)[before.len() as int]),
            (pair_chars(kvs@)[before.len() as int + 1]),
        ]);
        assert(pair_chars(kvs@) =~= hdfs_site_base(cluster@, namespace@, *spec)
            + namenode_address_entries(cluster@, namespace@, i as nat));
    }
    kvs
}

/// Builds the configuration bundle of an HDFS cluster from its spec and
/// topology; the logging configuration is carried through unchanged.
pub fn hdfs_config_bundle(
    cluster: &str,
    namespace: &str,
    spec: &HdfsClusterSpec,
    topology: &NameserviceTopology,
    logging: &str,
) -> (bundle: Vec<(String, String)>)
    requires
        topology_of(*topology, cluster@, namespace@, *spec),
    ensures
        pair_chars(bundle@) == hdfs_bundle(cluster@, namespace@, *spec, logging@),
{
    let mut bundle: Vec<(String, String)> = Vec::new();
    bundle.push(
        (String::from_str("core-site.xml"), hadoop_config_xml(&core_site_config(cluster))),
    );
    bundle.push(
        (
            String::from_str("hdfs-site.xml"),
            hadoop_config_xml(&hdfs_site_config(cluster, namespace, spec, topology)),
        ),
    );
    bundle.push((String::from_str("krb5.conf"), spec.kerberos.to_krb5_conf()));
    bundle.push(pair("log4j.properties", logging));
    assert(pair_chars(bundle@) =~= hdfs_bundle(cluster@, namespace@, *spec, logging@));
    bundle
}

/// The configuration bundle depends on the spec, the cluster's identity and
/// the logging configuration alone: two bundles built from the same input are
/// identical, file for file and character for character.
pub proof fn lemma_bundle_is_pure(
    a: Seq<(String, String)>,
    b: Seq<(String, String)>,
    cluster: Seq<char>,
    namespace: Seq<char>,
    spec: HdfsClusterSpec,
    logging: Seq<char>,
)
    requires
        pair_chars(a) == hdfs_bundle(cluster, namespace, spec, logging),
        pair_chars(b) == hdfs_bundle(cluster, namespace, spec, logging),
    ensures
        a.len() == b.len(),
        forall|i: int| 0 <= i < a.len() ==> (#[trigger] a[i]).0@ == b[i].0@ && a[i].1@ == b[i].1@,
{
    assert(pair_chars(a).len() == a.len());
    assert(pair_chars(b).len() == b.len());
    assert forall|i: int| 0 <= i < a.len() implies (#[trigger] a[i]).0@ == b[i].0@ && a[i].1@
        == b[i].1@ by {
        assert(pair_chars(a)[i] == pair_chars(b)[i]);
    }
}

/// The line of the ensemble configuration that names one server: its id is
/// its ordinal plus one.
pub open spec fn server_line(cluster: Seq<char>, namespace: Seq<char>, i: nat) -> Seq<char> {
    "server."@ + decimal(i + 1) + "="@ + replica_address(cluster, Role::EnsembleServer, namespace, i)
        + ":2888:3888;2181"@
}

pub open spec fn server_lines(cluster: Seq<char>, namespace: Seq<char>, count: nat) -> Seq<
    Seq<char>,
> {
    Seq::new(count, |i: int| server_line(cluster, namespace, i as nat))
}

/// The ensemble configuration file for `count` servers.
pub open spec fn zoo_cfg(cluster: Seq<char>, namespace: Seq<char>, count: nat) -> Seq<char> {
    "\ntickTime=2000\ninitLimit=10\nsyncLimit=5\ndataDir=/data\nclientPort=2181\n"@ + join(
        server_lines(cluster, namespace, count),
        "\n"@,
    ) + "\n"@
}

/// Renders the ensemble configuration file for `count` servers.
pub fn zoo_cfg_of(cluster: &str, namespace: &str, count: u32) -> (cfg: String)
    ensures
        cfg@ == zoo_cfg(cluster@, namespace@, count as nat),
{
    let mut lines: Vec<String> = Vec::new();
    let mut i: u32 = 0;
    while i < count
        invariant
            i <= count,
            lines.len() == i,
            forall|k: int|
                0 <= k < i ==> (#[trigger] lines@[k])@ == server_line(cluster@, namespace@, k as nat),
        decreases count - i,
    {
        let mut line = String::from_str("server.");
        line.append(decimal_string(i + 1).as_str());
        line.append("=");
        line.append(replica_address_of(cluster, Role::EnsembleServer, namespace, i).as_str());
        line.append(":2888:3888;2181");
        lines.push(line);
        i = i + 1;
    }
    assert(strings_chars(lines@) =~= server_lines(cluster@, namespace@, count as nat));
    let mut cfg = String::from_str(
        "\ntickTime=2000\ninitLimit=10\nsyncLimit=5\ndataDir=/data\nclientPort=2181\n",
    );
    cfg.append(join_with(&lines, "\n").as_str());
    cfg.append("\n");
    cfg
}

proof fn lemma_namenode_address_entries(cluster: Seq<char>, namespace: Seq<char>, count: nat)
    ensures
        namenode_address_entries(cluster, namespace, count).len() == 2 * count,
        forall|i: nat|
            i < count ==> namenode_address_entries(cluster, namespace, count)[(2 * i) as int] == #[trigger] rpc_entry(
                cluster,
                namespace,
                i,
            ) && namenode_address_entries(cluster, namespace, count)[(2 * i + 1) as int] == http_entry(
                cluster,
                namespace,
                i,
            ),
    decreases count,
{
    if count > 0 {
        lemma_namenode_address_entries(cluster, namespace, (count - 1) as nat);
    }
}

/// The site document names each namenode exactly once: for every ordinal
/// below the namenode count, the setting pair at its place holds that
/// namenode's RPC and HTTP address, and no two namenodes share an address.
/// Its namenode list joins the logical ids, its shared-edits setting is the
/// journal quorum URI, and no two journalnodes of that URI share an entry.
pub proof fn lemma_site_document_addresses(
    cluster: Seq<char>,
    namespace: Seq<char>,
    spec: HdfsClusterSpec,
)
    ensures
        ({
            let nn = replica_count(spec.namenode_replicas);
            let jn = replica_count(spec.journalnode_replicas);
            let base = hdfs_site_base(cluster, namespace, spec);
            let entries = namenode_address_entries(cluster, namespace, nn);
            &&& hdfs_site_entries(cluster, namespace, spec) == base + entries
            &&& base.len() == 19
            &&& base[4] == ("dfs.ha.namenodes."@ + cluster, join(namenode_ids(nn), ", "@))
            &&& base[5] == ("dfs.namenode.shared.edits.dir"@, journal_quorum_uri(cluster, namespace, jn))
            &&& entries.len() == 2 * nn
            &&& forall|i: nat|
                i < nn ==> entries[(2 * i) as int] == #[trigger] rpc_entry(cluster, namespace, i)
                    && entries[(2 * i + 1) as int] == http_entry(cluster, namespace, i)
            &&& forall|i: nat, j: nat|
                i < nn && j < nn && i != j ==> #[trigger] rpc_address(cluster, namespace, i)
                    != #[trigger] rpc_address(cluster, namespace, j) && http_address(
                    cluster,
                    namespace,
                    i,
                ) != http_address(cluster, namespace, j)
            &&& forall|i: nat, j: nat|
                i < jn && j < jn && i != j ==> #[trigger] journal_entries(cluster, namespace, jn)[i as int]
                    != #[trigger] journal_entries(cluster, namespace, jn)[j as int]
        }),
{
    let nn = replica_count(spec.namenode_replicas);
    let jn = replica_count(spec.journalnode_replicas);
    lemma_namenode_address_entries(cluster, namespace, nn);
    assert forall|i: nat, j: nat|
        i < nn && j < nn && i != j implies #[trigger] rpc_address(cluster, namespace, i)
        != #[trigger] rpc_address(cluster, namespace, j) && http_address(cluster, namespace, i)
        != http_address(cluster, namespace, j) by {
        lemma_replica_addresses_distinct(cluster, Role::NameNode, namespace, i, j);
        if rpc_address(cluster, namespace, i) == rpc_address(cluster, namespace, j) {
            lemma_same_suffix(
                replica_address(cluster, Role::NameNode, namespace, i),
                replica_address(cluster, Role::NameNode, namespace, j),
                ":8020"@,
            );
        }
        if http_address(cluster, namespace, i) == http_address(cluster, namespace, j) {
            lemma_same_suffix(
                replica_address(cluster, Role::NameNode, namespace, i),
                replica_address(cluster, Role::NameNode, namespace, j),
                ":9870"@,
            );
        }
    }
    assert forall|i: nat, j: nat|
        i < jn && j < jn && i != j implies #[trigger] journal_entries(cluster, namespace, jn)[i as int]
        != #[trigger] journal_entries(cluster, namespace, jn)[j as int] by {
        lemma_replica_addresses_distinct(cluster, Role::JournalNode, namespace, i, j);
        if journal_entry(cluster, namespace, i) == journal_entry(cluster, namespace, j) {
            lemma_same_suffix(
                replica_address(cluster, Role::JournalNode, namespace, i),
                replica_address(cluster, Role::JournalNode, namespace, j),
                ":8485"@,
            );
        }
    }
}

/// With every replica count omitted, the site document lists the single
/// namenode `name-0`, holds exactly one RPC and one HTTP address setting, and
/// its journal quorum URI has exactly one entry, the journalnode of ordinal 0.
pub proof fn lemma_omitted_counts_in_site_document(
    cluster: Seq<char>,
    namespace: Seq<char>,
    spec: HdfsClusterSpec,
)
    requires
        spec.namenode_replicas is None,
        spec.journalnode_replicas is None,
    ensures
        hdfs_site_entries(cluster, namespace, spec) == hdfs_site_base(cluster, namespace, spec)
            + seq![rpc_entry(cluster, namespace, 0), http_entry(cluster, namespace, 0)],
        hdfs_site_base(cluster, namespace, spec)[4].1 == "name-0"@,
        hdfs_site_base(cluster, namespace, spec)[5].1 == "qjournal://"@ + journal_entry(
            cluster,
            namespace,
            0,
        ) + "/"@ + cluster,
{
    reveal_strlit("name-");
    reveal_strlit("name-0");
    assert(namenode_address_entries(cluster, namespace, 0) =~= Seq::empty());
    assert(namenode_address_entries(cluster, namespace, 1) =~= seq![
        rpc_entry(cluster, namespace, 0),
        http_entry(cluster, namespace, 0),
    ]);
    assert(decimal(0) == seq!['0']);
    assert(namenode_ids(1)[0] =~= "name-0"@);
    assert(join(namenode_ids(1), ", "@) == namenode_ids(1)[0]);
    assert(join(journal_entries(cluster, namespace, 1), ";"@) == journal_entry(cluster, namespace, 0));
}

/// The ensemble configuration names each server once: one line per server,
/// no two lines alike, each server's id distinct and its address distinct.
pub proof fn lemma_server_lines(cluster: Seq<char>, namespace: Seq<char>, count: nat)
    ensures
        server_lines(cluster, namespace, count).len() == count,
        forall|i: nat, j: nat|
            i < count && j < count && i != j ==> #[trigger] server_lines(cluster, namespace, count)[i as int]
                != #[trigger] server_lines(cluster, namespace, count)[j as int] && decimal(i + 1)
                != decimal(j + 1) && replica_address(cluster, Role::EnsembleServer, namespace, i)
                != replica_address(cluster, Role::EnsembleServer, namespace, j),
{
    reveal_strlit("=");
    assert forall|i: nat, j: nat|
        i < count && j < count && i != j implies #[trigger] server_lines(cluster, namespace, count)[i as int]
        != #[trigger] server_lines(cluster, namespace, count)[j as int] && decimal(i + 1) != decimal(j + 1)
        && replica_address(cluster, Role::EnsembleServer, namespace, i) != replica_address(
        cluster,
        Role::EnsembleServer,
        namespace,
        j,
    ) by {
        lemma_replica_addresses_distinct(cluster, Role::EnsembleServer, namespace, i, j);
        lemma_decimal_injective(i + 1, j + 1);
        let x = "="@ + replica_address(cluster, Role::EnsembleServer, namespace, i) + ":2888:3888;2181"@;
        let y = "="@ + replica_address(cluster, Role::EnsembleServer, namespace, j) + ":2888:3888;2181"@;
        assert(server_line(cluster, namespace, i) =~= "server."@ + decimal(i + 1) + x);
        assert(server_line(cluster, namespace, j) =~= "server."@ + decimal(j + 1) + y);
        assert(x[0] == '=' && y[0] == '=');
        if server_line(cluster, namespace, i) == server_line(cluster, namespace, j) {
            lemma_decimal_field("server."@, i + 1, x, j + 1, y);
        }
    }
}

} // verus!
