//! The minimum-cluster search: grow the worker node count until the
//! workload fits, then add one drain-headroom node.

use vstd::prelude::*;

use crate::cluster::Cluster;
use crate::cluster::ClusterModel;
use crate::cluster::ClusterTopology;
use crate::cluster::MAX_NODE_COUNT;
use crate::cluster::TopologyModel;
use crate::cluster::cluster_resources_model;
use crate::reasoned::ReasonedResult;
use crate::reasoned::SizerError;
use crate::workloads::Workloads;
use crate::workloads::WorkloadsModel;
use crate::workloads::fits_model;

verus! {

/// Fixed number of control plane nodes assumed by the sizing search: a
/// highly available control plane of three.
pub const DEFAULT_CONTROL_PLANE_NODE_COUNT: u64 = 3;

/// Whether the workload fits into a cluster of the given topology with
/// `worker_count` worker nodes and the fixed control plane node count.
pub open spec fn fits_at(t: TopologyModel, w: WorkloadsModel, worker_count: int) -> bool {
    fits_model(
        w,
        cluster_resources_model(
            ClusterModel {
                topology: t,
                control_plane_node_count: DEFAULT_CONTROL_PLANE_NODE_COUNT as int,
                worker_node_count: worker_count,
            },
        ),
    )
}

/// The justification recorded for the extra node the search returns.
pub open spec fn drain_headroom_note() -> Seq<char> {
    "One additional node is getting included on top of the required ones, in order to enable full-node drains required for updating the cluster"@
}

impl Cluster {
    /// The smallest cluster of the given topology that hosts the given
    /// workload, plus one extra worker node reserved so that a full-node
    /// drain (e.g. for cluster updates) can proceed without losing
    /// workload capacity: if the smallest fitting worker node count is
    /// `n`, the returned cluster has `n + 1` worker nodes and the fixed
    /// control plane node count of three.
    ///
    /// The search tries worker node counts from zero up to
    /// `max_worker_nodes`; if the workload does not fit even at that
    /// bound, it fails with the declared unsatisfiable-capacity error
    /// instead of searching forever.
    pub fn for_topology_and_workload(
        topology: ClusterTopology,
        workloads: Workloads,
        max_worker_nodes: u64,
    ) -> (r: Result<ReasonedResult<Cluster>, SizerError>)
        requires
            topology.wf(),
            workloads.wf(),
            max_worker_nodes < MAX_NODE_COUNT,
        ensures
            match r {
                Ok(rr) => {
                    &&& rr.result.wf()
                    &&& rr.result.topology@ == topology@
                    &&& rr.result.control_plane_node_count == DEFAULT_CONTROL_PLANE_NODE_COUNT
                    &&& 1 <= rr.result.worker_node_count <= max_worker_nodes + 1
                    &&& fits_at(topology@, workloads@, rr.result.worker_node_count - 1)
                    &&& forall|k: int|
                        0 <= k < rr.result.worker_node_count - 1 ==> !fits_at(
                            topology@,
                            workloads@,
                            k,
                        )
                    &&& rr.reasons@.len() == 1
                    &&& rr.reasons@[0]@ == drain_headroom_note()
                },
                Err(e) => {
                    &&& e == SizerError::UnsatisfiableCapacity
                    &&& forall|k: int|
                        0 <= k <= max_worker_nodes ==> !fits_at(topology@, workloads@, k)
                },
            },
    {
        let mut cluster = Cluster {
            topology,
            control_plane_node_count: DEFAULT_CONTROL_PLANE_NODE_COUNT,
            worker_node_count: 0,
        };
        let mut satisfied = false;

        while cluster.worker_node_count <= max_worker_nodes
            invariant_except_break
                !satisfied,
                forall|k: int|
                    0 <= k < cluster.worker_node_count ==> !fits_at(topology@, workloads@, k),
            invariant
                cluster.topology.wf(),
                workloads.wf(),
                max_worker_nodes < MAX_NODE_COUNT,
                cluster.control_plane_node_count == DEFAULT_CONTROL_PLANE_NODE_COUNT,
                cluster.worker_node_count <= max_worker_nodes + 1,
                cluster.topology@ == topology@,
                satisfied ==> cluster.worker_node_count >= 1 && fits_at(
                    topology@,
                    workloads@,
                    cluster.worker_node_count - 1,
                ),
            ensures
                cluster.control_plane_node_count == DEFAULT_CONTROL_PLANE_NODE_COUNT,
                cluster.topology@ == topology@,
                cluster.worker_node_count <= max_worker_nodes + 1,
                satisfied ==> cluster.worker_node_count >= 1 && fits_at(
                    topology@,
                    workloads@,
                    cluster.worker_node_count - 1,
                ) && forall|k: int|
                    0 <= k < cluster.worker_node_count - 1 ==> !fits_at(topology@, workloads@, k),
                !satisfied ==> forall|k: int|
                    0 <= k <= max_worker_nodes ==> !fits_at(topology@, workloads@, k),
            decreases max_worker_nodes + 1 - cluster.worker_node_count,
        {
            let cluster_resources = cluster.resources();
            let fit_into_cluster = workloads.can_fit_into(&cluster_resources);
            // One more node than the fitting count, to keep capacity for a
            // full-node drain.
            cluster.worker_node_count = cluster.worker_node_count + 1;
            if fit_into_cluster.result {
                satisfied = true;
                break;
            }
        }

        if satisfied {
            let mut reasons: Vec<String> = Vec::new();
            reasons.push(
                String::from_str(
                    "One additional node is getting included on top of the required ones, in order to enable full-node drains required for updating the cluster",
                ),
            );
            Ok(ReasonedResult { result: cluster, reasons })
        } else {
            Err(SizerError::UnsatisfiableCapacity)
        }
    }
}

} // verus!
