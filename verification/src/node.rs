//! Physical node templates and their allocatable capacity.

use vstd::prelude::*;

use crate::resources::Resources;
use crate::resources::ResourcesModel;
use crate::resources::scale_model;
use crate::resources::sub_model;
use crate::resources::lemma_scale_sub_distributes;

verus! {

/// Mathematical value of a `Node`.
pub ghost struct NodeModel {
    pub description: Seq<char>,
    pub capacity: ResourcesModel,
    pub consumed_by_system: ResourcesModel,
    pub reserved_for_overhead: ResourcesModel,
}

/// A physical or virtual machine template.
#[derive(Clone, Debug)]
pub struct Node {
    /// A human friendly description of the node.
    pub description: String,
    /// The raw advertised capacity of the node.
    pub capacity: Resources,
    /// Resources consumed by node infrastructure processes (predictable),
    /// such as sshd or systemd.
    pub consumed_by_system: Resources,
    /// Resources reserved for caches, buffers, and other system dependent
    /// overheads (difficult to predict).
    pub reserved_for_overhead: Resources,
}

impl View for Node {
    type V = NodeModel;

    open spec fn view(&self) -> NodeModel {
        NodeModel {
            description: self.description@,
            capacity: self.capacity@,
            consumed_by_system: self.consumed_by_system@,
            reserved_for_overhead: self.reserved_for_overhead@,
        }
    }
}

/// The capacity of one node that is actually available to workloads:
/// its raw capacity minus its own system consumption and overhead
/// reservation. May be negative in any field, signaling a node whose
/// overhead exceeds its capacity.
pub open spec fn allocatable_model(n: NodeModel) -> ResourcesModel {
    sub_model(sub_model(n.capacity, n.consumed_by_system), n.reserved_for_overhead)
}

impl NodeModel {
    /// All three configured quantities are valid.
    pub open spec fn valid(&self) -> bool {
        &&& self.capacity.valid()
        &&& self.consumed_by_system.valid()
        &&& self.reserved_for_overhead.valid()
    }
}

impl Node {
    /// All three configured quantities are valid.
    pub open spec fn wf(&self) -> bool {
        self@.valid()
    }

    /// Runtime check of `wf`, so callers can reject invalid configuration
    /// before entering the arithmetic that assumes it.
    pub fn is_well_formed(&self) -> (b: bool)
        ensures
            b == self.wf(),
    {
        self.capacity.is_well_formed() && self.consumed_by_system.is_well_formed()
            && self.reserved_for_overhead.is_well_formed()
    }

    /// The capacity actually available to workloads on this node.
    pub fn compute_allocatable(&self) -> (r: Resources)
        requires
            self.wf(),
        ensures
            r@ == allocatable_model(self@),
    {
        self.capacity.sub(&self.consumed_by_system).sub(&self.reserved_for_overhead)
    }
}

/// Law: a node's allocatable capacity scaled by a non-negative node count
/// equals its scaled capacity minus its scaled system consumption minus
/// its scaled overhead reservation.
pub proof fn lemma_allocatable_scales(n: NodeModel, k: int)
    requires
        k >= 0,
    ensures
        scale_model(allocatable_model(n), k) == sub_model(
            sub_model(scale_model(n.capacity, k), scale_model(n.consumed_by_system, k)),
            scale_model(n.reserved_for_overhead, k),
        ),
{
    lemma_scale_sub_distributes(sub_model(n.capacity, n.consumed_by_system), n.reserved_for_overhead, k);
    lemma_scale_sub_distributes(n.capacity, n.consumed_by_system, k);
}

} // verus!
