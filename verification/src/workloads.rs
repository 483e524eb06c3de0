//! Homogeneous groups of workload VMs: their resource demand and whether
//! they fit into a cluster's available capacity.

use vstd::prelude::*;

use crate::cluster::ClusterResources;
use crate::cluster::ClusterResourcesModel;
use crate::instance_type::InstanceType;
use crate::instance_type::InstanceTypeModel;
use crate::instance_type::footprint_model;
use crate::reasoned::ReasonedResult;
use crate::resources::MAX_CPUS;
use crate::resources::MAX_MEMORY_BYTES;
use crate::resources::MAX_VCPUS;
use crate::resources::Resources;
use crate::resources::ResourcesModel;
use crate::resources::lemma_mul_range;
use crate::resources::lemma_scale_valid_range;
use crate::resources::scale_model;

verus! {

/// Largest VM count accepted in a workload group (2^20).
pub const MAX_VM_COUNT: u64 = 0x100000;

/// Mathematical value of a `Workloads` group.
pub ghost struct WorkloadsModel {
    pub vm_count: int,
    pub instance_type: InstanceTypeModel,
}

/// A homogeneous group of workload VMs, as a desired target or available
/// capacity. A single instance type per group is an explicit
/// simplification.
#[derive(Clone, Debug)]
pub struct Workloads {
    /// How many VMs compose this workload.
    pub vm_count: u64,
    /// Of what type the VMs are.
    pub instance_type: InstanceType,
}

impl View for Workloads {
    type V = WorkloadsModel;

    open spec fn view(&self) -> WorkloadsModel {
        WorkloadsModel { vm_count: self.vm_count as int, instance_type: self.instance_type@ }
    }
}

/// The resources the workload itself demands: the guest-visible capacity
/// of one instance scaled by the VM count. Operational overheads that
/// only the cluster knows about are not included.
pub open spec fn required_model(w: WorkloadsModel) -> ResourcesModel {
    scale_model(w.instance_type.guest, w.vm_count)
}

/// The host-side capacity the workload occupies: the full footprint of
/// one instance scaled by the VM count.
pub open spec fn required_capacity_model(w: WorkloadsModel) -> ResourcesModel {
    scale_model(footprint_model(w.instance_type), w.vm_count)
}

/// Whether the workload's demand fits into the given available capacity:
/// both the memory and the physical-cpu demand are covered. Compared as
/// signed quantities, so a deficit never passes. The derived `vcpus`
/// figure is not checked.
pub open spec fn fits_model(w: WorkloadsModel, cr: ClusterResourcesModel) -> bool {
    let req = required_model(w);
    let avail = cr.available_to_workloads;
    avail.memory >= req.memory && avail.cpus >= req.cpus
}

impl WorkloadsModel {
    /// A valid instance type and a bounded VM count.
    pub open spec fn valid(&self) -> bool {
        &&& self.instance_type.valid()
        &&& 0 <= self.vm_count <= MAX_VM_COUNT
    }
}

impl Workloads {
    /// A valid instance type and a bounded VM count.
    pub open spec fn wf(&self) -> bool {
        self@.valid()
    }

    /// Runtime check of `wf`, so callers can reject invalid configuration
    /// before entering the arithmetic that assumes it.
    pub fn is_well_formed(&self) -> (b: bool)
        ensures
            b == self.wf(),
    {
        self.instance_type.is_well_formed() && self.vm_count <= MAX_VM_COUNT
    }

    /// How many resources are required by the workload itself: the guest
    /// view, without the per-VM host overheads.
    pub fn required_resources(&self) -> (r: Resources)
        requires
            self.wf(),
        ensures
            r@ == required_model(self@),
    {
        proof {
            lemma_scale_valid_range(self@.instance_type.guest, self@.vm_count, MAX_VM_COUNT as int);
        }
        self.instance_type.guest.mul(self.vm_count)
    }

    /// How much host-side capacity the workload occupies: the full
    /// per-instance footprint scaled by the VM count.
    pub fn required_capacity(&self) -> (r: Resources)
        requires
            self.wf(),
        ensures
            r@ == required_capacity_model(self@),
    {
        let footprint = self.instance_type.resource_footprint();
        proof {
            lemma_mul_range(
                footprint@.memory,
                0,
                3 * (MAX_MEMORY_BYTES as int),
                self@.vm_count,
                MAX_VM_COUNT as int,
            );
            lemma_mul_range(
                footprint@.cpus,
                0,
                3 * (MAX_CPUS as int),
                self@.vm_count,
                MAX_VM_COUNT as int,
            );
            match footprint@.vcpus {
                Some(v) => lemma_mul_range(
                    v,
                    0,
                    3 * (MAX_VCPUS as int),
                    self@.vm_count,
                    MAX_VM_COUNT as int,
                ),
                None => (),
            }
        }
        footprint.mul(self.vm_count)
    }

    /// Whether this workload fits into the given cluster resources.
    /// Fails with the reason `"memory-constrained"` when the available
    /// memory falls short; otherwise fails with `"cpu-constrained"` when
    /// the available physical cpus fall short; otherwise succeeds with no
    /// reasons. Memory is checked first: the first blocking constraint
    /// wins.
    pub fn can_fit_into(&self, resources: &ClusterResources) -> (r: ReasonedResult<bool>)
        requires
            self.wf(),
        ensures
            r.result == fits_model(self@, resources@),
            r.result ==> r.reasons@.len() == 0,
            !r.result ==> r.reasons@.len() == 1,
            resources@.available_to_workloads.memory < required_model(self@).memory
                ==> r.reasons@[0]@ == "memory-constrained"@,
            (!r.result && resources@.available_to_workloads.memory >= required_model(self@).memory)
                ==> r.reasons@[0]@ == "cpu-constrained"@,
    {
        let avail = &resources.available_to_workloads;
        let req = self.required_resources();
        if avail.memory < req.memory {
            let mut reasons: Vec<String> = Vec::new();
            reasons.push(String::from_str("memory-constrained"));
            return ReasonedResult { result: false, reasons };
        }
        if avail.cpus < req.cpus {
            let mut reasons: Vec<String> = Vec::new();
            reasons.push(String::from_str("cpu-constrained"));
            return ReasonedResult { result: false, reasons };
        }
        ReasonedResult { result: true, reasons: Vec::new() }
    }
}

} // verus!
