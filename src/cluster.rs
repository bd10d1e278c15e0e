//! The cluster specification that drives every derivation, the roles a cluster
//! is made of, and the Kerberos configuration document.
use vstd::prelude::*;
use vstd::string::*;

verus! {

/// A role of a cluster; every replica belongs to exactly one.
#[derive(Clone, Copy, Debug, PartialEq, Eq, Structural)]
pub enum Role {
    NameNode,
    DataNode,
    JournalNode,
    EnsembleServer,
}

/// The name of a role as it appears in resource names and labels.
pub open spec fn role_name(role: Role) -> Seq<char> {
    match role {
        Role::NameNode => "namenode"@,
        Role::DataNode => "datanode"@,
        Role::JournalNode => "journalnode"@,
        Role::EnsembleServer => "server"@,
    }
}

/// Whether the peers of a role must find each other before any of them can be
/// ready, so that its service advertises replicas that are not ready yet.
pub open spec fn peers_discoverable_early(role: Role) -> bool {
    role != Role::DataNode
}

impl Role {
    pub fn name(&self) -> (s: &'static str)
        ensures
            s@ == role_name(*self),
    {
        match self {
            Role::NameNode => "namenode",
            Role::DataNode => "datanode",
            Role::JournalNode => "journalnode",
            Role::EnsembleServer => "server",
        }
    }

    pub fn publishes_not_ready_addresses(&self) -> (b: bool)
        ensures
            b == peers_discoverable_early(*self),
    {
        match self {
            Role::DataNode => false,
            _ => true,
        }
    }
}

/// The number of replicas that an optional count asks for: one when the count
/// is absent, none when it is negative.
pub open spec fn replica_count(replicas: Option<i32>) -> nat {
    match replicas {
        None => 1,
        Some(n) => if n < 0 {
            0
        } else {
            n as nat
        },
    }
}

/// The replica count that an optional count asks for.
pub fn replicas_or_default(replicas: Option<i32>) -> (n: u32)
    ensures
        n as nat == replica_count(replicas),
{
    match replicas {
        None => 1,
        Some(n) => if n < 0 {
            0
        } else {
            n as u32
        },
    }
}

/// The characters of an optional string.
pub open spec fn opt_chars(s: Option<String>) -> Option<Seq<char>> {
    match s {
        Some(t) => Some(t@),
        None => None,
    }
}

/// Kerberos settings of a cluster.
#[derive(Clone, Debug, Default, PartialEq, Eq)]
pub struct KerberosConfig {
    pub realm: Option<String>,
    pub kdc: Option<String>,
}

/// The specification of an HDFS cluster.
#[derive(Clone, Debug, Default, PartialEq)]
pub struct HdfsClusterSpec {
    pub namenode_replicas: Option<i32>,
    pub datanode_replicas: Option<i32>,
    pub journalnode_replicas: Option<i32>,
    /// Name of the config map that holds the coordination-service address.
    pub namenode_znode_config_map: Option<String>,
    pub kerberos: KerberosConfig,
}

/// The identity of a cluster object: what its owner references and the names
/// of its children are made from.
#[derive(Clone, Debug, PartialEq, Eq)]
pub struct ClusterMeta {
    pub api_version: String,
    pub kind: String,
    pub name: Option<String>,
    pub namespace: Option<String>,
    pub uid: String,
}

/// The realm that principals use: the configured one, else `LOCAL`.
pub open spec fn realm_or_default(realm: Option<Seq<char>>) -> Seq<char> {
    match realm {
        Some(r) => r,
        None => "LOCAL"@,
    }
}

/// The Kerberos configuration document: a `[libdefaults]` stanza naming the
/// default realm when one is set, then a `[realms]` stanza that always opens
/// and, when a realm is set, holds that realm's block with its KDC if any.
pub open spec fn krb5_conf(realm: Option<Seq<char>>, kdc: Option<Seq<char>>) -> Seq<char> {
    let defaults = match realm {
        Some(r) => "default_realm = "@ + r + "\n"@,
        None => Seq::empty(),
    };
    let kdc_line = match kdc {
        Some(k) => "kdc = "@ + k + "\n"@,
        None => Seq::empty(),
    };
    let realms = match realm {
        Some(r) => r + " = {\n"@ + kdc_line + "}\n"@,
        None => Seq::empty(),
    };
    "[libdefaults]\n"@ + defaults + "[realms]\n"@ + realms
}

impl KerberosConfig {
    /// Renders the Kerberos configuration document.
    pub fn to_krb5_conf(&self) -> (r: String)
        ensures
            r@ == krb5_conf(opt_chars(self.realm), opt_chars(self.kdc)),
    {
        let mut r = String::from_str("[libdefaults]\n");
        if let Some(realm) = &self.realm {
            r.append("default_realm = ");
            r.append(realm.as_str());
            r.append("\n");
        }
        r.append("[realms]\n");
        if let Some(realm) = &self.realm {
            r.append(realm.as_str());
            r.append(" = {\n");
            if let Some(kdc) = &self.kdc {
                r.append("kdc = ");
                r.append(kdc.as_str());
                r.append("\n");
            }
            r.append("}\n");
        }
        assert(r@ =~= krb5_conf(opt_chars(self.realm), opt_chars(self.kdc)));
        r
    }

    /// The realm that principals use.
    pub fn realm_or_default(&self) -> (r: String)
        ensures
            r@ == realm_or_default(opt_chars(self.realm)),
    {
        match &self.realm {
            Some(realm) => realm.clone(),
            None => String::from_str("LOCAL"),
        }
    }
}

} // verus!
