//! Cluster shapes, sized clusters, and the aggregate resource computation.

use vstd::arithmetic::div_mod::lemma_div_nonincreasing;
use vstd::prelude::*;

use crate::node::Node;
use crate::node::NodeModel;
use crate::node::allocatable_model;
use crate::node::lemma_allocatable_scales;
use crate::resources::MAX_CPUS;
use crate::resources::MAX_MEMORY_BYTES;
use crate::resources::MAX_VCPUS;
use crate::resources::Resources;
use crate::resources::ResourcesModel;
use crate::resources::add_model;
use crate::resources::lemma_mul_range;
use crate::resources::lemma_scale_valid_range;
use crate::resources::scale_model;
use crate::resources::sub_model;

verus! {

/// Largest node count accepted in a sized cluster (2^20). Together with
/// the bounds on configured quantities this keeps every aggregate total
/// inside the range of the machine integers that hold it.
pub const MAX_NODE_COUNT: u64 = 0x100000;

/// Largest denominator accepted in a CPU overcommit ratio (2^20).
pub const MAX_OVER_COMMIT_DENOMINATOR: u64 = 0x100000;

/// Mathematical value of a `CpuOverCommitRatio`.
pub ghost struct RatioModel {
    pub numerator: int,
    pub denominator: int,
}

/// Ratio of CPU over-commitment as an exact rational
/// `numerator / denominator`, e.g. 1:10 is 1/10. A valid ratio is
/// positive and at most one, so one physical core backs
/// `denominator / numerator` virtual cores.
#[derive(Clone, Copy, Debug, PartialEq, Eq)]
pub struct CpuOverCommitRatio {
    pub numerator: u64,
    pub denominator: u64,
}

impl View for CpuOverCommitRatio {
    type V = RatioModel;

    open spec fn view(&self) -> RatioModel {
        RatioModel { numerator: self.numerator as int, denominator: self.denominator as int }
    }
}

impl RatioModel {
    /// Positive, at most one, and with a bounded denominator.
    pub open spec fn valid(&self) -> bool {
        1 <= self.numerator <= self.denominator <= MAX_OVER_COMMIT_DENOMINATOR
    }
}

/// The number of virtual cores that `cpus` physical cores back under the
/// given overcommit ratio: `cpus / ratio`, truncated toward zero.
pub open spec fn vcpus_from_ratio(cpus: int, ratio: RatioModel) -> int
    recommends
        ratio.valid(),
{
    if cpus >= 0 {
        (cpus * ratio.denominator) / ratio.numerator
    } else {
        -(((-cpus) * ratio.denominator) / ratio.numerator)
    }
}

/// Mathematical value of a `ClusterTopology`.
pub ghost struct TopologyModel {
    pub schedulable_control_plane: bool,
    pub control_plane_node: NodeModel,
    pub worker_node: NodeModel,
    pub cpu_over_commit_ratio: RatioModel,
}

/// The shape of a cluster, independent of its size.
#[derive(Clone, Debug)]
pub struct ClusterTopology {
    /// Whether control plane nodes are shared with workloads.
    pub schedulable_control_plane: bool,
    /// Control plane node template.
    pub control_plane_node: Node,
    /// Worker node template.
    pub worker_node: Node,
    /// Ratio of CPU over-commitment, i.e. 1:10 = 1/10.
    pub cpu_over_commit_ratio: CpuOverCommitRatio,
}

impl View for ClusterTopology {
    type V = TopologyModel;

    open spec fn view(&self) -> TopologyModel {
        TopologyModel {
            schedulable_control_plane: self.schedulable_control_plane,
            control_plane_node: self.control_plane_node@,
            worker_node: self.worker_node@,
            cpu_over_commit_ratio: self.cpu_over_commit_ratio@,
        }
    }
}

impl TopologyModel {
    /// Both node templates and the overcommit ratio are valid.
    pub open spec fn valid(&self) -> bool {
        &&& self.control_plane_node.valid()
        &&& self.worker_node.valid()
        &&& self.cpu_over_commit_ratio.valid()
    }
}

impl ClusterTopology {
    /// Both node templates and the overcommit ratio are valid.
    pub open spec fn wf(&self) -> bool {
        self@.valid()
    }

    /// Runtime check of `wf`, so callers can reject invalid configuration
    /// before entering the arithmetic that assumes it.
    pub fn is_well_formed(&self) -> (b: bool)
        ensures
            b == self.wf(),
    {
        let ratio = &self.cpu_over_commit_ratio;
        self.control_plane_node.is_well_formed() && self.worker_node.is_well_formed()
            && 1 <= ratio.numerator && ratio.numerator <= ratio.denominator
            && ratio.denominator <= MAX_OVER_COMMIT_DENOMINATOR
    }
}

/// Mathematical value of a `Cluster`.
pub ghost struct ClusterModel {
    pub topology: TopologyModel,
    pub control_plane_node_count: int,
    pub worker_node_count: int,
}

/// A sized instantiation of a topology.
#[derive(Clone, Debug)]
pub struct Cluster {
    pub topology: ClusterTopology,
    /// Number of control plane nodes.
    pub control_plane_node_count: u64,
    /// Number of worker nodes.
    pub worker_node_count: u64,
}

impl View for Cluster {
    type V = ClusterModel;

    open spec fn view(&self) -> ClusterModel {
        ClusterModel {
            topology: self.topology@,
            control_plane_node_count: self.control_plane_node_count as int,
            worker_node_count: self.worker_node_count as int,
        }
    }
}

impl ClusterModel {
    /// A valid topology with bounded node counts.
    pub open spec fn valid(&self) -> bool {
        &&& self.topology.valid()
        &&& 0 <= self.control_plane_node_count <= MAX_NODE_COUNT
        &&& 0 <= self.worker_node_count <= MAX_NODE_COUNT
    }
}

impl Cluster {
    /// A valid topology with bounded node counts.
    pub open spec fn wf(&self) -> bool {
        self@.valid()
    }

    /// Runtime check of `wf`, so callers can reject invalid configuration
    /// before entering the arithmetic that assumes it.
    pub fn is_well_formed(&self) -> (b: bool)
        ensures
            b == self.wf(),
    {
        self.topology.is_well_formed() && self.control_plane_node_count <= MAX_NODE_COUNT
            && self.worker_node_count <= MAX_NODE_COUNT
    }
}

/// Mathematical value of a `ClusterResources`.
pub ghost struct ClusterResourcesModel {
    pub consumed_by_system: ResourcesModel,
    pub reserved_for_overhead: ResourcesModel,
    pub available_to_workloads: ResourcesModel,
}

/// A derived, point-in-time view of the resource distribution in a
/// cluster; recomputed on demand, never persisted.
#[derive(Clone, Copy, Debug, PartialEq)]
pub struct ClusterResources {
    /// Resources consumed by system processes.
    pub consumed_by_system: Resources,
    /// Resources reserved for workload overheads such as caches and
    /// buffers.
    pub reserved_for_overhead: Resources,
    /// Resources available to the workloads, as seen by the guests.
    pub available_to_workloads: Resources,
}

impl View for ClusterResources {
    type V = ClusterResourcesModel;

    open spec fn view(&self) -> ClusterResourcesModel {
        ClusterResourcesModel {
            consumed_by_system: self.consumed_by_system@,
            reserved_for_overhead: self.reserved_for_overhead@,
            available_to_workloads: self.available_to_workloads@,
        }
    }
}

/// Total resources consumed by system processes across the cluster: the
/// worker node's share scaled by the worker count, plus the control plane
/// share when the control plane is schedulable.
pub open spec fn consumed_model(c: ClusterModel) -> ResourcesModel {
    let base = scale_model(c.topology.worker_node.consumed_by_system, c.worker_node_count);
    if c.topology.schedulable_control_plane {
        add_model(
            base,
            scale_model(c.topology.control_plane_node.consumed_by_system, c.control_plane_node_count),
        )
    } else {
        base
    }
}

/// Total resources reserved for overhead across the cluster.
pub open spec fn overhead_model(c: ClusterModel) -> ResourcesModel {
    let base = scale_model(c.topology.worker_node.reserved_for_overhead, c.worker_node_count);
    if c.topology.schedulable_control_plane {
        add_model(
            base,
            scale_model(
                c.topology.control_plane_node.reserved_for_overhead,
                c.control_plane_node_count,
            ),
        )
    } else {
        base
    }
}

/// Total capacity available to workloads across the cluster, before the
/// derived `vcpus` figure is filled in: the worker node's allocatable
/// capacity scaled by the worker count, plus the control plane nodes'
/// scaled capacity net of their scaled consumption and overhead when the
/// control plane is schedulable.
pub open spec fn available_raw_model(c: ClusterModel) -> ResourcesModel {
    let base = scale_model(allocatable_model(c.topology.worker_node), c.worker_node_count);
    if c.topology.schedulable_control_plane {
        let ctl = c.topology.control_plane_node;
        let ctl_workload = sub_model(
            sub_model(
                scale_model(ctl.capacity, c.control_plane_node_count),
                scale_model(ctl.consumed_by_system, c.control_plane_node_count),
            ),
            scale_model(ctl.reserved_for_overhead, c.control_plane_node_count),
        );
        add_model(base, ctl_workload)
    } else {
        base
    }
}

/// The full aggregate: consumed, overhead, and available totals, with the
/// available CPU count annotated by the derived `vcpus` figure. This is
/// the only place `vcpus` is populated from scratch; elsewhere it only
/// propagates through arithmetic.
pub open spec fn cluster_resources_model(c: ClusterModel) -> ClusterResourcesModel {
    let raw = available_raw_model(c);
    ClusterResourcesModel {
        consumed_by_system: consumed_model(c),
        reserved_for_overhead: overhead_model(c),
        available_to_workloads: ResourcesModel {
            memory: raw.memory,
            cpus: raw.cpus,
            vcpus: Some(vcpus_from_ratio(raw.cpus, c.topology.cpu_over_commit_ratio)),
        },
    }
}

impl Cluster {
    /// Compute the aggregate resources of this cluster: how much its
    /// system processes consume, how much is reserved for overhead, and
    /// how much is left for workloads, with the workload-available CPU
    /// count annotated by the derived `vcpus` figure.
    pub fn resources(&self) -> (r: ClusterResources)
        requires
            self.wf(),
        ensures
            r@ == cluster_resources_model(self@),
    {
        let worker_node = &self.topology.worker_node;
        let wc = self.worker_node_count;

        proof {
            lemma_scale_valid_range(worker_node@.consumed_by_system, wc as int, MAX_NODE_COUNT as int);
            lemma_scale_valid_range(worker_node@.reserved_for_overhead, wc as int, MAX_NODE_COUNT as int);
        }
        let mut consumed = worker_node.consumed_by_system.mul(wc);
        let mut overhead = worker_node.reserved_for_overhead.mul(wc);

        let alloc = worker_node.compute_allocatable();
        proof {
            lemma_mul_range(
                alloc@.memory,
                -2 * (MAX_MEMORY_BYTES as int),
                MAX_MEMORY_BYTES as int,
                wc as int,
                MAX_NODE_COUNT as int,
            );
            lemma_mul_range(
                alloc@.cpus,
                -2 * (MAX_CPUS as int),
                MAX_CPUS as int,
                wc as int,
                MAX_NODE_COUNT as int,
            );
            match alloc@.vcpus {
                Some(v) => lemma_mul_range(
                    v,
                    -2 * (MAX_VCPUS as int),
                    MAX_VCPUS as int,
                    wc as int,
                    MAX_NODE_COUNT as int,
                ),
                None => (),
            }
        }
        let mut workload = alloc.mul(wc);

        if self.topology.schedulable_control_plane {
            let ctl_node_count = self.control_plane_node_count;
            let ctl_node = &self.topology.control_plane_node;

            proof {
                lemma_scale_valid_range(
                    ctl_node@.capacity,
                    ctl_node_count as int,
                    MAX_NODE_COUNT as int,
                );
                lemma_scale_valid_range(
                    ctl_node@.consumed_by_system,
                    ctl_node_count as int,
                    MAX_NODE_COUNT as int,
                );
                lemma_scale_valid_range(
                    ctl_node@.reserved_for_overhead,
                    ctl_node_count as int,
                    MAX_NODE_COUNT as int,
                );
            }
            let ctl_capacity = ctl_node.capacity.mul(ctl_node_count);
            let ctl_consumed = ctl_node.consumed_by_system.mul(ctl_node_count);
            let ctl_overhead = ctl_node.reserved_for_overhead.mul(ctl_node_count);
            let ctl_workload = ctl_capacity.sub(&ctl_consumed).sub(&ctl_overhead);

            consumed = consumed.add(&ctl_consumed);
            overhead = overhead.add(&ctl_overhead);
            workload = workload.add(&ctl_workload);
        }

        // The aggregate cpu total is bounded in magnitude by twice the
        // scaled worker core bound plus twice the scaled control plane
        // core bound: four scaled core bounds cover the worst case.
        let num = self.topology.cpu_over_commit_ratio.numerator;
        let den = self.topology.cpu_over_commit_ratio.denominator;
        let vcpu_value: i64;
        if workload.cpus >= 0 {
            proof {
                lemma_mul_range(
                    workload@.cpus,
                    0,
                    4 * (MAX_CPUS as int) * (MAX_NODE_COUNT as int),
                    den as int,
                    MAX_OVER_COMMIT_DENOMINATOR as int,
                );
            }
            let scaled: u64 = (workload.cpus as u64) * den;
            proof {
                lemma_div_nonincreasing(scaled as int, num as int);
            }
            vcpu_value = (scaled / num) as i64;
        } else {
            proof {
                lemma_mul_range(
                    -workload@.cpus,
                    0,
                    4 * (MAX_CPUS as int) * (MAX_NODE_COUNT as int),
                    den as int,
                    MAX_OVER_COMMIT_DENOMINATOR as int,
                );
            }
            let magnitude: u64 = ((-workload.cpus) as u64) * den;
            proof {
                lemma_div_nonincreasing(magnitude as int, num as int);
            }
            vcpu_value = -((magnitude / num) as i64);
        }
        workload.vcpus = Some(vcpu_value);

        ClusterResources {
            consumed_by_system: consumed,
            reserved_for_overhead: overhead,
            available_to_workloads: workload,
        }
    }
}

/// Law: the capacity available to workloads equals the worker node's
/// allocatable capacity scaled by the worker count, plus the control
/// plane nodes' scaled allocatable capacity exactly when the control
/// plane is schedulable; its `vcpus` figure is derived from that total's
/// CPU count through the overcommit ratio.
pub proof fn lemma_available_is_scaled_allocatable(c: ClusterModel)
    requires
        c.control_plane_node_count >= 0,
    ensures
        ({
            let worker_total = scale_model(
                allocatable_model(c.topology.worker_node),
                c.worker_node_count,
            );
            let total = if c.topology.schedulable_control_plane {
                add_model(
                    worker_total,
                    scale_model(
                        allocatable_model(c.topology.control_plane_node),
                        c.control_plane_node_count,
                    ),
                )
            } else {
                worker_total
            };
            let avail = cluster_resources_model(c).available_to_workloads;
            &&& avail.memory == total.memory
            &&& avail.cpus == total.cpus
            &&& avail.vcpus == Some(
                vcpus_from_ratio(total.cpus, c.topology.cpu_over_commit_ratio),
            )
        }),
{
    if c.topology.schedulable_control_plane {
        lemma_allocatable_scales(c.topology.control_plane_node, c.control_plane_node_count);
    }
}

} // verus!
