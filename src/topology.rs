//! Values that span roles: the nameservice, its namenode logical ids and
//! their high-availability addresses, the journal quorum URI and the Kerberos
//! principal of each role.
use vstd::prelude::*;
use vstd::string::*;

use crate::cluster::{replica_count, replicas_or_default, HdfsClusterSpec, Role};
use crate::identity::{group_fqdn, group_fqdn_of, group_name, replica_address, replica_address_of};
use crate::text::{decimal, decimal_string, is_digit, join, join_with, lemma_decimal_digits};

verus! {

/// Logical id of the namenode with the given ordinal.
pub open spec fn namenode_id(i: nat) -> Seq<char> {
    "name-"@ + decimal(i)
}

pub open spec fn namenode_ids(count: nat) -> Seq<Seq<char>> {
    Seq::new(count, |i: int| namenode_id(i as nat))
}

/// RPC address of a namenode.
pub open spec fn rpc_address(cluster: Seq<char>, namespace: Seq<char>, i: nat) -> Seq<char> {
    replica_address(cluster, Role::NameNode, namespace, i) + ":8020"@
}

/// HTTP address of a namenode.
pub open spec fn http_address(cluster: Seq<char>, namespace: Seq<char>, i: nat) -> Seq<char> {
    replica_address(cluster, Role::NameNode, namespace, i) + ":9870"@
}

/// One journalnode of the quorum, with its port.
pub open spec fn journal_entry(cluster: Seq<char>, namespace: Seq<char>, i: nat) -> Seq<char> {
    replica_address(cluster, Role::JournalNode, namespace, i) + ":8485"@
}

pub open spec fn journal_entries(cluster: Seq<char>, namespace: Seq<char>, count: nat) -> Seq<
    Seq<char>,
> {
    Seq::new(count, |i: int| journal_entry(cluster, namespace, i as nat))
}

/// The shared-edits URI: every journalnode, `;`-separated, then the
/// nameservice id.
pub open spec fn journal_quorum_uri(cluster: Seq<char>, namespace: Seq<char>, count: nat) -> Seq<
    char,
> {
    "qjournal://"@ + join(journal_entries(cluster, namespace, count), ";"@) + "/"@ + cluster
}

/// Short name of a role in its principal and keytab.
pub open spec fn principal_short_name(role: Role) -> Seq<char> {
    match role {
        Role::NameNode => "nn"@,
        Role::DataNode => "dn"@,
        _ => "jn"@,
    }
}

/// The Kerberos principal of a role. Every role's principal names the
/// namenode group's domain name as its host.
pub open spec fn principal(
    role: Role,
    cluster: Seq<char>,
    namespace: Seq<char>,
    realm: Seq<char>,
) -> Seq<char> {
    principal_short_name(role) + "/"@ + group_fqdn(cluster, Role::NameNode, namespace) + "@"@
        + realm
}

/// Where a role's keytab is mounted.
pub open spec fn keytab_path(role: Role) -> Seq<char> {
    "/kerberos/"@ + principal_short_name(role) + ".service.keytab"@
}

pub open spec fn pair_chars(pairs: Seq<(String, String)>) -> Seq<(Seq<char>, Seq<char>)> {
    pairs.map_values(|p: (String, String)| (p.0@, p.1@))
}

pub open spec fn strings_chars(strings: Seq<String>) -> Seq<Seq<char>> {
    strings.map_values(|s: String| s@)
}

/// The nameservice and the addresses derived from the replica counts.
#[derive(Clone, Debug, PartialEq, Eq)]
pub struct NameserviceTopology {
    pub nameservice_id: String,
    pub namenode_ids: Vec<String>,
    /// Logical id to RPC address, in ordinal order.
    pub rpc_addresses: Vec<(String, String)>,
    /// Logical id to HTTP address, in ordinal order.
    pub http_addresses: Vec<(String, String)>,
    pub journal_quorum_uri: String,
}

/// `t` is the topology of `spec` for a cluster named `cluster`.
pub open spec fn topology_of(
    t: NameserviceTopology,
    cluster: Seq<char>,
    namespace: Seq<char>,
    spec: HdfsClusterSpec,
) -> bool {
    let nn = replica_count(spec.namenode_replicas);
    let jn = replica_count(spec.journalnode_replicas);
    &&& t.nameservice_id@ == cluster
    &&& strings_chars(t.namenode_ids@) == namenode_ids(nn)
    &&& pair_chars(t.rpc_addresses@) == Seq::new(
        nn,
        |i: int| (namenode_id(i as nat), rpc_address(cluster, namespace, i as nat)),
    )
    &&& pair_chars(t.http_addresses@) == Seq::new(
        nn,
        |i: int| (namenode_id(i as nat), http_address(cluster, namespace, i as nat)),
    )
    &&& t.journal_quorum_uri@ == journal_quorum_uri(cluster, namespace, jn)
}

pub fn namenode_id_of(i: u32) -> (r: String)
    ensures
        r@ == namenode_id(i as nat),
{
    String::from_str("name-").concat(decimal_string(i).as_str())
}

/// The journal quorum URI for `count` journalnodes.
pub fn journal_quorum_uri_of(cluster: &str, namespace: &str, count: u32) -> (r: String)
    ensures
        r@ == journal_quorum_uri(cluster@, namespace@, count as nat),
{
    let mut entries: Vec<String> = Vec::new();
    let mut i: u32 = 0;
    while i < count
        invariant
            i <= count,
            entries.len() == i,
            forall|k: int|
                0 <= k < i ==> (#[trigger] entries@[k])@ == journal_entry(
                    cluster@,
                    namespace@,
                    k as nat,
                ),
        decreases count - i,
    {
        let entry = replica_address_of(cluster, Role::JournalNode, namespace, i).concat(":8485");
        entries.push(entry);
        i = i + 1;
    }
    assert(strings_chars(entries@) =~= journal_entries(cluster@, namespace@, count as nat));
    let mut r = String::from_str("qjournal://");
    r.append(join_with(&entries, ";").as_str());
    r.append("/");
    r.append(cluster);
    r
}

/// Derives the nameservice topology of a cluster from its replica counts.
pub fn plan_topology(cluster: &str, namespace: &str, spec: &HdfsClusterSpec) -> (t:
    NameserviceTopology)
    ensures
        topology_of(t, cluster@, namespace@, *spec),
{
    let nn = replicas_or_default(spec.namenode_replicas);
    let jn = replicas_or_default(spec.journalnode_replicas);
    let mut ids: Vec<String> = Vec::new();
    let mut rpc: Vec<(String, String)> = Vec::new();
    let mut http: Vec<(String, String)> = Vec::new();
    let mut i: u32 = 0;
    while i < nn
        invariant
            i <= nn,
            ids.len() == i,
            rpc.len() == i,
            http.len() == i,
            forall|k: int| 0 <= k < i ==> (#[trigger] ids@[k])@ == namenode_id(k as nat),
            forall|k: int|
                0 <= k < i ==> (#[trigger] rpc@[k]).0@ == namenode_id(k as nat) && rpc@[k].1@
                    == rpc_address(cluster@, namespace@, k as nat),
            forall|k: int|
                0 <= k < i ==> (#[trigger] http@[k]).0@ == namenode_id(k as nat) && http@[k].1@
                    == http_address(cluster@, namespace@, k as nat),
        decreases nn - i,
    {
        let address = replica_address_of(cluster, Role::NameNode, namespace, i);
        ids.push(namenode_id_of(i));
        rpc.push((namenode_id_of(i), address.clone().concat(":8020")));
        http.push((namenode_id_of(i), address.concat(":9870")));
        i = i + 1;
    }
    assert(strings_chars(ids@) =~= namenode_ids(nn as nat));
    assert(pair_chars(rpc@) =~= Seq::new(
        nn as nat,
        |k: int| (namenode_id(k as nat), rpc_address(cluster@, namespace@, k as nat)),
    ));
    assert(pair_chars(http@) =~= Seq::new(
        nn as nat,
        |k: int| (namenode_id(k as nat), http_address(cluster@, namespace@, k as nat)),
    ));
    NameserviceTopology {
        nameservice_id: String::from_str(cluster),
        namenode_ids: ids,
        rpc_addresses: rpc,
        http_addresses: http,
        journal_quorum_uri: journal_quorum_uri_of(cluster, namespace, jn),
    }
}

/// A role's Kerberos principal and the path of its keytab.
#[derive(Clone, Debug, PartialEq, Eq)]
pub struct RolePrincipal {
    pub role: Role,
    pub principal: String,
    pub keytab: String,
}

fn principal_short_name_of(role: Role) -> (s: &'static str)
    requires
        role != Role::EnsembleServer,
    ensures
        s@ == principal_short_name(role),
{
    match role {
        Role::NameNode => "nn",
        Role::DataNode => "dn",
        _ => "jn",
    }
}

/// The principal and keytab of an HDFS role.
pub fn role_principal(role: Role, cluster: &str, namespace: &str, realm: &str) -> (p:
    RolePrincipal)
    requires
        role != Role::EnsembleServer,
    ensures
        p.role == role,
        p.principal@ == principal(role, cluster@, namespace@, realm@),
        p.keytab@ == keytab_path(role),
{
    let short = principal_short_name_of(role);
    let mut principal = String::from_str(short);
    principal.append("/");
    principal.append(group_fqdn_of(cluster, Role::NameNode, namespace).as_str());
    principal.append("@");
    principal.append(realm);
    let mut keytab = String::from_str("/kerberos/");
    keytab.append(short);
    keytab.append(".service.keytab");
    RolePrincipal { role, principal, keytab }
}

/// Number of occurrences of `c` in `s`.
pub open spec fn occurrences(s: Seq<char>, c: char) -> nat
    decreases s.len(),
{
    if s.len() == 0 {
        0
    } else {
        occurrences(s.drop_last(), c) + if s.last() == c {
            1nat
        } else {
            0nat
        }
    }
}

proof fn lemma_occurrences_concat(a: Seq<char>, b: Seq<char>, c: char)
    ensures
        occurrences(a + b, c) == occurrences(a, c) + occurrences(b, c),
    decreases b.len(),
{
    if b.len() == 0 {
        assert(a + b =~= a);
    } else {
        lemma_occurrences_concat(a, b.drop_last(), c);
        assert((a + b).drop_last() =~= a + b.drop_last());
    }
}

proof fn lemma_occurrences_absent(s: Seq<char>, c: char)
    requires
        !s.contains(c),
    ensures
        occurrences(s, c) == 0,
    decreases s.len(),
{
    if s.len() > 0 {
        assert(s.drop_last().len() < s.len());
        assert(!s.drop_last().contains(c)) by {
            if s.drop_last().contains(c) {
                let k = choose|k: int| 0 <= k < s.drop_last().len() && s.drop_last()[k] == c;
                assert(s[k] == c);
            }
        }
        lemma_occurrences_absent(s.drop_last(), c);
        assert(s[s.len() - 1] != c);
    }
}

proof fn lemma_join_separators(parts: Seq<Seq<char>>, sep: char)
    requires
        parts.len() > 0,
        forall|k: int| 0 <= k < parts.len() ==> !(#[trigger] parts[k]).contains(sep),
    ensures
        occurrences(join(parts, seq![sep]), sep) == parts.len() - 1,
    decreases parts.len(),
{
    lemma_occurrences_absent(parts.last(), sep);
    if parts.len() > 1 {
        let init = parts.drop_last();
        assert forall|k: int| 0 <= k < init.len() implies !(#[trigger] init[k]).contains(sep) by {
            assert(init[k] == parts[k]);
        }
        lemma_join_separators(init, sep);
        let s = seq![sep];
        lemma_occurrences_concat(join(init, s), s, sep);
        lemma_occurrences_concat(join(init, s) + s, parts.last(), sep);
        assert(occurrences(s, sep) == 1) by {
            assert(s.drop_last() =~= Seq::<char>::empty());
            assert(occurrences(Seq::<char>::empty(), sep) == 0);
            assert(s.last() == sep);
        }
    }
}

proof fn lemma_journal_entry_has_no_semicolon(cluster: Seq<char>, namespace: Seq<char>, i: nat)
    requires
        !cluster.contains(';'),
        !namespace.contains(';'),
    ensures
        !journal_entry(cluster, namespace, i).contains(';'),
{
    reveal_strlit("-");
    reveal_strlit(".");
    reveal_strlit("journalnode");
    reveal_strlit(".svc.cluster.local");
    reveal_strlit(":8485");
    lemma_decimal_digits(i);
    let e = journal_entry(cluster, namespace, i);
    let name = group_name(cluster, Role::JournalNode);
    assert(!name.contains(';')) by {
        if name.contains(';') {
            let k = choose|k: int| 0 <= k < name.len() && name[k] == ';';
            if k >= cluster.len() {
                assert(name[k] == ("-"@ + "journalnode"@)[k - cluster.len()]);
            } else {
                assert(cluster[k] == ';');
            }
        }
    }
    let fqdn = group_fqdn(cluster, Role::JournalNode, namespace);
    assert(!fqdn.contains(';')) by {
        if fqdn.contains(';') {
            let k = choose|k: int| 0 <= k < fqdn.len() && fqdn[k] == ';';
            if k < name.len() {
                assert(name[k] == ';');
            } else if k < name.len() + 1 + namespace.len() && k > name.len() {
                assert(namespace[k - name.len() - 1] == ';');
            }
        }
    }
    let d = decimal(i);
    if e.contains(';') {
        let k = choose|k: int| 0 <= k < e.len() && e[k] == ';';
        assert(e =~= name + "-"@ + d + "."@ + fqdn + ":8485"@);
        if k < name.len() {
            assert(name[k] == ';');
        } else if k > name.len() && k < name.len() + 1 + d.len() {
            assert(is_digit(d[k - name.len() - 1]));
        } else if k > name.len() + 1 + d.len() && k < name.len() + 2 + d.len() + fqdn.len() {
            assert(fqdn[k - name.len() - 2 - d.len()] == ';');
        }
    }
}

/// The journal quorum URI is `qjournal://`, then one entry per journalnode,
/// each the journalnode's address suffixed with `:8485` and separated by `;`,
/// then `/` and the nameservice id, which is the cluster name. Where neither
/// name holds a `;`, the entries hold exactly `count - 1` separators.
pub proof fn lemma_journal_quorum_shape(cluster: Seq<char>, namespace: Seq<char>, count: nat)
    requires
        !cluster.contains(';'),
        !namespace.contains(';'),
    ensures
        journal_quorum_uri(cluster, namespace, count) == "qjournal://"@ + join(
            journal_entries(cluster, namespace, count),
            ";"@,
        ) + "/"@ + cluster,
        journal_entries(cluster, namespace, count).len() == count,
        forall|k: int|
            0 <= k < count ==> #[trigger] journal_entries(cluster, namespace, count)[k]
                == replica_address(cluster, Role::JournalNode, namespace, k as nat) + ":8485"@,
        count > 0 ==> occurrences(join(journal_entries(cluster, namespace, count), ";"@), ';')
            == count - 1,
{
    let entries = journal_entries(cluster, namespace, count);
    if count > 0 {
        reveal_strlit(";");
        assert(";"@ =~= seq![';']);
        assert forall|k: int| 0 <= k < entries.len() implies !(#[trigger] entries[k]).contains(
            ';',
        ) by {
            lemma_journal_entry_has_no_semicolon(cluster, namespace, k as nat);
        }
        lemma_join_separators(entries, ';');
    }
}

} // verus!
