//! Workload instance types: their host-side footprint and how many of
//! them fit into a cluster's available capacity.

use vstd::arithmetic::div_mod::lemma_div_nonincreasing;
use vstd::prelude::*;

use crate::cluster::ClusterResources;
use crate::reasoned::SizerError;
use crate::resources::Resources;
use crate::resources::ResourcesModel;
use crate::resources::add_model;

verus! {

/// Mathematical value of an `InstanceType`.
pub ghost struct InstanceTypeModel {
    pub name: Seq<char>,
    pub guest: ResourcesModel,
    pub consumed_by_system: ResourcesModel,
    pub reserved_for_overhead: ResourcesModel,
}

/// The instance type (size) of a workload unit. Created from
/// configuration, immutable thereafter.
#[derive(Clone, Debug)]
pub struct InstanceType {
    /// The name of the instance type.
    pub name: String,
    /// Resources available to the guest workload (predictable).
    pub guest: Resources,
    /// Resources consumed by per-VM infrastructure processes
    /// (predictable).
    pub consumed_by_system: Resources,
    /// Resources reserved for caches, buffers, and workload dependent
    /// overheads (difficult to predict).
    pub reserved_for_overhead: Resources,
}

impl View for InstanceType {
    type V = InstanceTypeModel;

    open spec fn view(&self) -> InstanceTypeModel {
        InstanceTypeModel {
            name: self.name@,
            guest: self.guest@,
            consumed_by_system: self.consumed_by_system@,
            reserved_for_overhead: self.reserved_for_overhead@,
        }
    }
}

/// The true host-side cost of running one instance of a type: the
/// guest-visible capacity plus the per-VM system consumption plus the
/// overhead reservation.
pub open spec fn footprint_model(it: InstanceTypeModel) -> ResourcesModel {
    add_model(add_model(it.guest, it.consumed_by_system), it.reserved_for_overhead)
}

/// The number of instances with footprint `footprint` that a capacity of
/// `avail` can hold along one dimension: zero when nothing is available,
/// otherwise the quotient rounded down.
pub open spec fn fit_bound(avail: int, footprint: int) -> int
    recommends
        footprint > 0,
{
    if avail <= 0 {
        0
    } else {
        avail / footprint
    }
}

/// A count clamped to the range of `u64`.
pub open spec fn clamp_to_u64(x: int) -> int {
    if x > u64::MAX {
        u64::MAX as int
    } else {
        x
    }
}

impl InstanceTypeModel {
    /// All three configured quantities are valid.
    pub open spec fn valid(&self) -> bool {
        &&& self.guest.valid()
        &&& self.consumed_by_system.valid()
        &&& self.reserved_for_overhead.valid()
    }
}

impl InstanceType {
    /// All three configured quantities are valid.
    pub open spec fn wf(&self) -> bool {
        self@.valid()
    }

    /// Runtime check of `wf`, so callers can reject invalid configuration
    /// before entering the arithmetic that assumes it.
    pub fn is_well_formed(&self) -> (b: bool)
        ensures
            b == self.wf(),
    {
        self.guest.is_well_formed() && self.consumed_by_system.is_well_formed()
            && self.reserved_for_overhead.is_well_formed()
    }

    /// The amount of resources consumed on the host by running one
    /// instance of this type.
    ///
    /// There are three resource consumers: resources provided to the
    /// guest, resources required to run VM related host processes, and
    /// resources required to cope with caches and buffers. The footprint
    /// of a VM is therefore larger than the resources available to its
    /// guest.
    pub fn resource_footprint(&self) -> (r: Resources)
        requires
            self.wf(),
        ensures
            r@ == footprint_model(self@),
    {
        self.guest.add(&self.consumed_by_system).add(&self.reserved_for_overhead)
    }

    /// How many instances of this type fit into the given cluster
    /// resources, along with the dimension that bounds the count:
    /// `"memory"` if the memory bound is strictly smaller, `"cpu"` if the
    /// cpu bound is strictly smaller, and `"both"` if they tie.
    ///
    /// This is a naive estimate: it does not reserve spare capacity for
    /// live migration, nor account for fragmentation or per-node packing.
    /// A footprint without any memory or cpu cost cannot bound a count
    /// and is rejected as invalid input.
    pub fn how_many_fit_into(&self, resources: &ClusterResources) -> (r: Result<
        (u64, String),
        SizerError,
    >)
        requires
            self.wf(),
        ensures
            ({
                let f = footprint_model(self@);
                let avail = resources@.available_to_workloads;
                let mem_bound = clamp_to_u64(fit_bound(avail.memory, f.memory));
                let cpu_bound = clamp_to_u64(fit_bound(avail.cpus, f.cpus));
                match r {
                    Ok((count, tag)) => {
                        &&& f.memory > 0
                        &&& f.cpus > 0
                        &&& count == if mem_bound < cpu_bound {
                            mem_bound
                        } else {
                            cpu_bound
                        }
                        &&& tag@ == if mem_bound < cpu_bound {
                            "memory"@
                        } else if cpu_bound < mem_bound {
                            "cpu"@
                        } else {
                            "both"@
                        }
                    },
                    Err(e) => {
                        &&& e == SizerError::InvalidInput
                        &&& (f.memory <= 0 || f.cpus <= 0)
                    },
                }
            }),
    {
        let req = self.resource_footprint();
        if req.memory <= 0 || req.cpus <= 0 {
            return Err(SizerError::InvalidInput);
        }
        let avail = &resources.available_to_workloads;
        let fit_into_memory: u64 = if avail.memory <= 0 {
            0
        } else {
            let q: u128 = (avail.memory as u128) / (req.memory as u128);
            if q > (u64::MAX as u128) {
                u64::MAX
            } else {
                q as u64
            }
        };
        let fit_into_cpu: u64 = if avail.cpus <= 0 {
            0
        } else {
            proof {
                lemma_div_nonincreasing(avail@.cpus, req@.cpus);
            }
            (avail.cpus as u64) / (req.cpus as u64)
        };
        if fit_into_memory < fit_into_cpu {
            Ok((fit_into_memory, String::from_str("memory")))
        } else if fit_into_cpu < fit_into_memory {
            Ok((fit_into_cpu, String::from_str("cpu")))
        } else {
            Ok((fit_into_cpu, String::from_str("both")))
        }
    }
}

/// Law: an instance type's footprint covers its guest-visible capacity
/// component-wise whenever its system consumption and overhead
/// reservation are non-negative.
pub proof fn lemma_footprint_covers_guest(it: InstanceTypeModel)
    requires
        it.consumed_by_system.non_negative(),
        it.reserved_for_overhead.non_negative(),
    ensures
        footprint_model(it).memory >= it.guest.memory,
        footprint_model(it).cpus >= it.guest.cpus,
        it.guest.vcpus matches Some(g) ==> (footprint_model(it).vcpus matches Some(f) && f >= g),
{
}

} // verus!
