//! Capacity estimation for virtualization clusters.
//!
//! Given a cluster's node topology, this library computes how much compute
//! and memory is available to guest workloads after subtracting host-process
//! and buffering overhead; given a target workload, it computes the minimum
//! cluster size needed to host it, with one extra node reserved for
//! maintenance drains.

pub mod cluster;
pub mod instance_type;
pub mod node;
pub mod reasoned;
pub mod resources;
pub mod sizing;
pub mod workloads;

pub use cluster::Cluster;
pub use cluster::ClusterResources;
pub use cluster::ClusterTopology;
pub use cluster::CpuOverCommitRatio;
pub use instance_type::InstanceType;
pub use node::Node;
pub use reasoned::ReasonedResult;
pub use reasoned::SizerError;
pub use resources::Resources;
pub use workloads::Workloads;
