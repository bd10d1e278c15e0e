//! Convergence engine for quorum-based clusters: from a cluster specification it
//! derives replica identities, the cross-replica topology, the rendered
//! configuration documents and the full set of desired child resources.
use vstd::prelude::*;

pub mod cluster;
pub mod config;
pub mod driver;
pub mod ensemble;
pub mod identity;
pub mod plan;
pub mod resources;
pub mod text;
pub mod topology;
pub mod workload;

verus! {

} // verus!
