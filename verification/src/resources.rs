//! The `Resources` arithmetic value type.
//!
//! A `Resources` value is a quantity of compute capacity: a memory byte
//! count, a physical-core count, and an optional virtual-core count.
//! Addition and subtraction combine `memory` and `cpus` field-wise with
//! ordinary integer arithmetic; results may be negative, signaling a
//! deficit. The `vcpus` field is an optional derived quantity: arithmetic
//! propagates it when exactly one side tracks it, combines it when both
//! sides do, and never invents it from plain `cpus` data.

use vstd::prelude::*;

verus! {

/// Largest memory byte count accepted in a configured quantity (2^80 bytes).
/// Bounds of this size keep every derived sum, difference and scaled value
/// of the library inside the range of the machine integers that hold them.
pub const MAX_MEMORY_BYTES: i128 = 0x100000000000000000000;

/// Largest physical-core count accepted in a configured quantity (2^20).
pub const MAX_CPUS: i64 = 0x100000;

/// Largest virtual-core count accepted in a configured quantity (2^40).
pub const MAX_VCPUS: i64 = 0x10000000000;

/// Mathematical value of a `Resources` quantity: unbounded integers, so
/// that contracts and laws can be stated without overflow side conditions.
pub ghost struct ResourcesModel {
    pub memory: int,
    pub cpus: int,
    pub vcpus: Option<int>,
}

/// A quantity of compute capacity. Immutable value type; arithmetic
/// creates new values.
#[derive(Clone, Copy, Debug, PartialEq)]
pub struct Resources {
    /// Memory byte count. Negative values signal a deficit.
    pub memory: i128,
    /// Physical-core count. Negative values signal a deficit.
    pub cpus: i64,
    /// Optional virtual-core count, only meaningful once an overcommit
    /// ratio has been applied.
    pub vcpus: Option<i64>,
}

impl View for Resources {
    type V = ResourcesModel;

    open spec fn view(&self) -> ResourcesModel {
        ResourcesModel {
            memory: self.memory as int,
            cpus: self.cpus as int,
            vcpus: match self.vcpus {
                Some(v) => Some(v as int),
                None => None,
            },
        }
    }
}

/// Field-wise sum; `vcpus` values combine when both sides track them and
/// propagate unchanged when exactly one side does.
pub open spec fn add_model(a: ResourcesModel, b: ResourcesModel) -> ResourcesModel {
    ResourcesModel {
        memory: a.memory + b.memory,
        cpus: a.cpus + b.cpus,
        vcpus: match (a.vcpus, b.vcpus) {
            (Some(x), Some(y)) => Some(x + y),
            (Some(x), None) => Some(x),
            (None, Some(y)) => Some(y),
            (None, None) => None,
        },
    }
}

/// Field-wise difference; `vcpus` values combine when both sides track
/// them and propagate unchanged when exactly one side does.
pub open spec fn sub_model(a: ResourcesModel, b: ResourcesModel) -> ResourcesModel {
    ResourcesModel {
        memory: a.memory - b.memory,
        cpus: a.cpus - b.cpus,
        vcpus: match (a.vcpus, b.vcpus) {
            (Some(x), Some(y)) => Some(x - y),
            (Some(x), None) => Some(x),
            (None, Some(y)) => Some(y),
            (None, None) => None,
        },
    }
}

/// Field-wise scaling by a count; `vcpus` scales only if present.
pub open spec fn scale_model(a: ResourcesModel, k: int) -> ResourcesModel {
    ResourcesModel {
        memory: a.memory * k,
        cpus: a.cpus * k,
        vcpus: match a.vcpus {
            Some(v) => Some(v * k),
            None => None,
        },
    }
}

impl ResourcesModel {
    /// Every tracked field is non-negative.
    pub open spec fn non_negative(&self) -> bool {
        &&& self.memory >= 0
        &&& self.cpus >= 0
        &&& match self.vcpus {
            Some(v) => v >= 0,
            None => true,
        }
    }

    /// A configured quantity: non-negative and within the bounds that keep
    /// the library's derived arithmetic inside machine-integer ranges.
    pub open spec fn valid(&self) -> bool {
        &&& 0 <= self.memory <= MAX_MEMORY_BYTES
        &&& 0 <= self.cpus <= MAX_CPUS
        &&& match self.vcpus {
            Some(v) => 0 <= v <= MAX_VCPUS,
            None => true,
        }
    }
}

impl Resources {
    /// A configured quantity: non-negative and within the documented bounds.
    pub open spec fn wf(&self) -> bool {
        self@.valid()
    }

    /// Runtime check of `wf`, so callers can reject invalid configuration
    /// before entering the arithmetic that assumes it.
    pub fn is_well_formed(&self) -> (b: bool)
        ensures
            b == self.wf(),
    {
        let memory_ok = 0 <= self.memory && self.memory <= MAX_MEMORY_BYTES;
        let cpus_ok = 0 <= self.cpus && self.cpus <= MAX_CPUS;
        let vcpus_ok = match self.vcpus {
            Some(v) => 0 <= v && v <= MAX_VCPUS,
            None => true,
        };
        memory_ok && cpus_ok && vcpus_ok
    }

    /// Field-wise sum of two quantities.
    pub fn add(&self, rhs: &Resources) -> (r: Resources)
        requires
            i128::MIN <= self@.memory + rhs@.memory <= i128::MAX,
            i64::MIN <= self@.cpus + rhs@.cpus <= i64::MAX,
            match (self.vcpus, rhs.vcpus) {
                (Some(x), Some(y)) => i64::MIN <= x + y <= i64::MAX,
                _ => true,
            },
        ensures
            r@ == add_model(self@, rhs@),
    {
        Resources {
            memory: self.memory + rhs.memory,
            cpus: self.cpus + rhs.cpus,
            vcpus: match (self.vcpus, rhs.vcpus) {
                (Some(x), Some(y)) => Some(x + y),
                (Some(x), None) => Some(x),
                (None, Some(y)) => Some(y),
                (None, None) => None,
            },
        }
    }

    /// Field-wise difference of two quantities. The result may be
    /// negative: a deficit is a valid diagnostic value.
    pub fn sub(&self, rhs: &Resources) -> (r: Resources)
        requires
            i128::MIN <= self@.memory - rhs@.memory <= i128::MAX,
            i64::MIN <= self@.cpus - rhs@.cpus <= i64::MAX,
            match (self.vcpus, rhs.vcpus) {
                (Some(x), Some(y)) => i64::MIN <= x - y <= i64::MAX,
                _ => true,
            },
        ensures
            r@ == sub_model(self@, rhs@),
    {
        Resources {
            memory: self.memory - rhs.memory,
            cpus: self.cpus - rhs.cpus,
            vcpus: match (self.vcpus, rhs.vcpus) {
                (Some(x), Some(y)) => Some(x - y),
                (Some(x), None) => Some(x),
                (None, Some(y)) => Some(y),
                (None, None) => None,
            },
        }
    }

    /// Field-wise scaling by a non-negative count.
    pub fn mul(&self, count: u64) -> (r: Resources)
        requires
            count <= i64::MAX,
            i128::MIN <= self@.memory * count <= i128::MAX,
            i64::MIN <= self@.cpus * count <= i64::MAX,
            match self.vcpus {
                Some(v) => i64::MIN <= v * count <= i64::MAX,
                None => true,
            },
        ensures
            r@ == scale_model(self@, count as int),
    {
        Resources {
            memory: self.memory * (count as i128),
            cpus: self.cpus * (count as i64),
            vcpus: match self.vcpus {
                Some(v) => Some(v * (count as i64)),
                None => None,
            },
        }
    }
}

/// Bounds a product from bounds on its factors: a value between `lo` and
/// `hi` scaled by a count of at most `kmax` stays between `lo * kmax` and
/// `hi * kmax`.
pub proof fn lemma_mul_range(x: int, lo: int, hi: int, k: int, kmax: int)
    requires
        lo <= x <= hi,
        0 <= k <= kmax,
        lo <= 0 <= hi,
    ensures
        lo * kmax <= x * k <= hi * kmax,
{
    assert(lo * kmax <= x * k <= hi * kmax) by (nonlinear_arith)
        requires
            lo <= x <= hi,
            0 <= k <= kmax,
            lo <= 0 <= hi,
    ;
}

/// Bounds every field of a configured quantity scaled by a count of at
/// most `kmax`.
pub proof fn lemma_scale_valid_range(r: ResourcesModel, k: int, kmax: int)
    requires
        r.valid(),
        0 <= k <= kmax,
    ensures
        0 <= r.memory * k <= MAX_MEMORY_BYTES * kmax,
        0 <= r.cpus * k <= MAX_CPUS * kmax,
        match r.vcpus {
            Some(v) => 0 <= v * k <= MAX_VCPUS * kmax,
            None => true,
        },
{
    lemma_mul_range(r.memory, 0, MAX_MEMORY_BYTES as int, k, kmax);
    lemma_mul_range(r.cpus, 0, MAX_CPUS as int, k, kmax);
    match r.vcpus {
        Some(v) => {
            lemma_mul_range(v, 0, MAX_VCPUS as int, k, kmax);
        },
        None => {},
    }
}

/// Scaling distributes over field-wise difference:
/// `(a - b) * k == a * k - b * k`.
pub proof fn lemma_scale_sub_distributes(a: ResourcesModel, b: ResourcesModel, k: int)
    ensures
        scale_model(sub_model(a, b), k) == sub_model(scale_model(a, k), scale_model(b, k)),
{
    assert((a.memory - b.memory) * k == a.memory * k - b.memory * k) by (nonlinear_arith);
    assert((a.cpus - b.cpus) * k == a.cpus * k - b.cpus * k) by (nonlinear_arith);
    match (a.vcpus, b.vcpus) {
        (Some(x), Some(y)) => {
            assert((x - y) * k == x * k - y * k) by (nonlinear_arith);
        },
        _ => {},
    }
}

/// Law: subtracting one addend from a sum gives back the other addend,
/// `(a + b) - b == a`, whenever `b` does not introduce a `vcpus` value
/// that `a` lacks (in that case the difference tracks `vcpus` as zero
/// while `a` never tracked it at all).
pub proof fn lemma_add_sub_cancels_rhs(a: ResourcesModel, b: ResourcesModel)
    requires
        !(a.vcpus is None && b.vcpus is Some),
    ensures
        sub_model(add_model(a, b), b) == a,
{
}

/// Law: subtracting the first addend from a sum gives back the second,
/// `(a + b) - a == b`, whenever `a` does not introduce a `vcpus` value
/// that `b` lacks.
pub proof fn lemma_add_sub_cancels_lhs(a: ResourcesModel, b: ResourcesModel)
    requires
        !(b.vcpus is None && a.vcpus is Some),
    ensures
        sub_model(add_model(a, b), a) == b,
{
}

} // verus!
