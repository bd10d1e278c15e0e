//! Stable network identities: the name and address of each role's group and
//! of each replica in it, derived from the cluster name, the role, the replica
//! ordinal and the namespace alone.
use vstd::prelude::*;
use vstd::string::*;

use crate::cluster::{replica_count, replicas_or_default, role_name, Role};
use crate::text::{decimal, decimal_string, lemma_decimal_field};

verus! {

/// Name of a role's group: its service and its workload group.
pub open spec fn group_name(cluster: Seq<char>, role: Role) -> Seq<char> {
    cluster + "-"@ + role_name(role)
}

/// Fully qualified domain name of a role's group.
pub open spec fn group_fqdn(cluster: Seq<char>, role: Role, namespace: Seq<char>) -> Seq<char> {
    group_name(cluster, role) + "."@ + namespace + ".svc.cluster.local"@
}

/// Network address of the replica with the given ordinal.
pub open spec fn replica_address(
    cluster: Seq<char>,
    role: Role,
    namespace: Seq<char>,
    ordinal: nat,
) -> Seq<char> {
    group_name(cluster, role) + "-"@ + decimal(ordinal) + "."@ + group_fqdn(
        cluster,
        role,
        namespace,
    )
}

/// One replica of a role, with its stable address.
#[derive(Clone, Debug, PartialEq, Eq)]
pub struct ReplicaIdentity {
    pub role: Role,
    pub ordinal: u32,
    pub address: String,
}

/// `ids` are the identities of `count` replicas of `role`, in ordinal order.
pub open spec fn resolved(
    ids: Seq<ReplicaIdentity>,
    cluster: Seq<char>,
    role: Role,
    namespace: Seq<char>,
    count: nat,
) -> bool {
    &&& ids.len() == count
    &&& forall|i: int|
        0 <= i < ids.len() ==> {
            &&& (#[trigger] ids[i]).role == role
            &&& ids[i].ordinal == i
            &&& ids[i].address@ == replica_address(cluster, role, namespace, i as nat)
        }
}

pub fn group_name_of(cluster: &str, role: Role) -> (r: String)
    ensures
        r@ == group_name(cluster@, role),
{
    let mut r = String::from_str(cluster);
    r.append("-");
    r.append(role.name());
    r
}

pub fn group_fqdn_of(cluster: &str, role: Role, namespace: &str) -> (r: String)
    ensures
        r@ == group_fqdn(cluster@, role, namespace@),
{
    let mut r = group_name_of(cluster, role);
    r.append(".");
    r.append(namespace);
    r.append(".svc.cluster.local");
    r
}

pub fn replica_address_of(cluster: &str, role: Role, namespace: &str, ordinal: u32) -> (r: String)
    ensures
        r@ == replica_address(cluster@, role, namespace@, ordinal as nat),
{
    let mut r = group_name_of(cluster, role);
    r.append("-");
    r.append(decimal_string(ordinal).as_str());
    r.append(".");
    r.append(group_fqdn_of(cluster, role, namespace).as_str());
    r
}

/// The identities of a role's replicas: as many as the optional count asks
/// for, with ordinals counting up from zero.
pub fn resolve_identities(cluster: &str, namespace: &str, role: Role, replicas: Option<i32>) -> (ids:
    Vec<ReplicaIdentity>)
    ensures
        resolved(ids@, cluster@, role, namespace@, replica_count(replicas)),
{
    let n = replicas_or_default(replicas);
    let mut ids: Vec<ReplicaIdentity> = Vec::new();
    let mut i: u32 = 0;
    while i < n
        invariant
            i <= n,
            n as nat == replica_count(replicas),
            resolved(ids@, cluster@, role, namespace@, i as nat),
        decreases n - i,
    {
        let address = replica_address_of(cluster, role, namespace, i);
        ids.push(ReplicaIdentity { role, ordinal: i, address });
        i = i + 1;
    }
    ids
}

/// Replicas with different ordinals have different addresses.
pub proof fn lemma_replica_addresses_distinct(
    cluster: Seq<char>,
    role: Role,
    namespace: Seq<char>,
    i: nat,
    j: nat,
)
    requires
        i != j,
    ensures
        replica_address(cluster, role, namespace, i) != replica_address(cluster, role, namespace, j),
{
    reveal_strlit(".");
    let prefix = group_name(cluster, role) + "-"@;
    let tail = "."@ + group_fqdn(cluster, role, namespace);
    assert(replica_address(cluster, role, namespace, i) =~= prefix + decimal(i) + tail);
    assert(replica_address(cluster, role, namespace, j) =~= prefix + decimal(j) + tail);
    assert(tail[0] == '.');
    if replica_address(cluster, role, namespace, i) == replica_address(cluster, role, namespace, j) {
        lemma_decimal_field(prefix, i, tail, j, tail);
    }
}

/// Resolving a role's identities yields exactly as many as the count asks
/// for, with ordinals 0 to count - 1 and pairwise distinct addresses, and two
/// resolutions from the same input agree.
pub proof fn lemma_identity_resolution(
    a: Seq<ReplicaIdentity>,
    b: Seq<ReplicaIdentity>,
    cluster: Seq<char>,
    role: Role,
    namespace: Seq<char>,
    replicas: Option<i32>,
)
    requires
        resolved(a, cluster, role, namespace, replica_count(replicas)),
        resolved(b, cluster, role, namespace, replica_count(replicas)),
    ensures
        a.len() == replica_count(replicas),
        forall|i: int| 0 <= i < a.len() ==> (#[trigger] a[i]).ordinal == i,
        forall|i: int, j: int|
            0 <= i < a.len() && 0 <= j < a.len() && i != j ==> (#[trigger] a[i]).address@ != (
            #[trigger] a[j]).address@,
        a.len() == b.len(),
        forall|i: int|
            0 <= i < a.len() ==> (#[trigger] a[i]).ordinal == b[i].ordinal && a[i].role == b[i].role
                && a[i].address@ == b[i].address@,
{
    assert forall|i: int, j: int|
        0 <= i < a.len() && 0 <= j < a.len() && i != j implies (#[trigger] a[i]).address@ != (
    #[trigger] a[j]).address@ by {
        lemma_replica_addresses_distinct(cluster, role, namespace, i as nat, j as nat);
    }
}

} // verus!
