use sizer::cluster::Cluster;
use sizer::cluster::ClusterResources;
use sizer::cluster::ClusterTopology;
use sizer::cluster::CpuOverCommitRatio;
use sizer::instance_type::InstanceType;
use sizer::node::Node;
use sizer::reasoned::SizerError;
use sizer::resources::Resources;
use sizer::sizing::DEFAULT_CONTROL_PLANE_NODE_COUNT;
use sizer::workloads::Workloads;

const GIB: i128 = 1024 * 1024 * 1024;

fn zero() -> Resources {
    Resources { memory: 0, cpus: 0, vcpus: None }
}

fn plain(memory: i128, cpus: i64) -> Resources {
    Resources { memory, cpus, vcpus: None }
}

fn instance_type(guest: Resources, consumed: Resources, overhead: Resources) -> InstanceType {
    InstanceType {
        name: "u1.medium".to_string(),
        guest,
        consumed_by_system: consumed,
        reserved_for_overhead: overhead,
    }
}

fn node(capacity: Resources, consumed: Resources, overhead: Resources) -> Node {
    Node {
        description: "worker".to_string(),
        capacity,
        consumed_by_system: consumed,
        reserved_for_overhead: overhead,
    }
}

fn cluster_resources_with_available(available: Resources) -> ClusterResources {
    ClusterResources {
        consumed_by_system: zero(),
        reserved_for_overhead: zero(),
        available_to_workloads: available,
    }
}

#[test]
fn de_serialize_node() {
    assert!(true);
}

#[test]
fn add_and_sub_are_field_wise() {
    let a = Resources { memory: 10_000, cpus: 4, vcpus: Some(8) };
    let b = Resources { memory: 4_000, cpus: 6, vcpus: Some(3) };
    let sum = a.add(&b);
    assert_eq!(sum, Resources { memory: 14_000, cpus: 10, vcpus: Some(11) });
    let diff = a.sub(&b);
    assert_eq!(diff, Resources { memory: 6_000, cpus: -2, vcpus: Some(5) });
}

#[test]
fn add_then_sub_round_trips() {
    let a = Resources { memory: 10_000, cpus: 4, vcpus: Some(8) };
    let b = Resources { memory: 4_000, cpus: 6, vcpus: Some(3) };
    assert_eq!(a.add(&b).sub(&b), a);
    assert_eq!(a.add(&b).sub(&a), b);
}

#[test]
fn vcpus_propagates_instead_of_zeroing() {
    let a = Resources { memory: 0, cpus: 0, vcpus: Some(4) };
    let b = Resources { memory: 0, cpus: 0, vcpus: None };
    assert_eq!(a.add(&b).vcpus, Some(4));
    assert_eq!(b.add(&a).vcpus, Some(4));
    assert_eq!(a.add(&b), Resources { memory: 0, cpus: 0, vcpus: Some(4) });
}

#[test]
fn mul_scales_field_wise() {
    let a = Resources { memory: 4 * GIB, cpus: 8, vcpus: Some(2) };
    assert_eq!(a.mul(100), Resources { memory: 400 * GIB, cpus: 800, vcpus: Some(200) });
    let b = plain(10, 3);
    assert_eq!(b.mul(0), plain(0, 0));
    assert_eq!(b.mul(7).vcpus, None);
}

#[test]
fn footprint_covers_guest() {
    let it = instance_type(
        Resources { memory: 4 * GIB, cpus: 8, vcpus: Some(16) },
        plain(200 * 1024 * 1024, 1),
        plain(300 * 1024 * 1024, 0),
    );
    let footprint = it.resource_footprint();
    assert_eq!(footprint.memory, 4 * GIB + 500 * 1024 * 1024);
    assert_eq!(footprint.cpus, 9);
    assert_eq!(footprint.vcpus, Some(16));
    assert!(footprint.memory >= it.guest.memory);
    assert!(footprint.cpus >= it.guest.cpus);
}

#[test]
fn allocatable_scales_like_its_parts() {
    let n = node(plain(256 * GIB, 128), plain(20 * GIB, 8), plain(5 * GIB, 0));
    let alloc = n.compute_allocatable();
    assert_eq!(alloc, plain(231 * GIB, 120));
    for count in [0u64, 1, 3, 17] {
        let lhs = alloc.mul(count);
        let rhs = n.capacity.mul(count).sub(&n.consumed_by_system.mul(count)).sub(
            &n.reserved_for_overhead.mul(count),
        );
        assert_eq!(lhs, rhs);
    }
}

fn simple_topology(schedulable_control_plane: bool) -> ClusterTopology {
    ClusterTopology {
        schedulable_control_plane,
        control_plane_node: node(plain(64 * GIB, 16), plain(4 * GIB, 2), plain(1 * GIB, 0)),
        worker_node: node(plain(256 * GIB, 128), plain(20 * GIB, 8), plain(5 * GIB, 0)),
        cpu_over_commit_ratio: CpuOverCommitRatio { numerator: 1, denominator: 10 },
    }
}

#[test]
fn cluster_resources_aggregate_workers_only() {
    let cluster = Cluster {
        topology: simple_topology(false),
        control_plane_node_count: 3,
        worker_node_count: 4,
    };
    let r = cluster.resources();
    assert_eq!(r.consumed_by_system, plain(80 * GIB, 32));
    assert_eq!(r.reserved_for_overhead, plain(20 * GIB, 0));
    // available = allocatable(worker) * 4, annotated with
    // vcpus = cpus / (1/10) = cpus * 10.
    assert_eq!(r.available_to_workloads.memory, 4 * 231 * GIB);
    assert_eq!(r.available_to_workloads.cpus, 480);
    assert_eq!(r.available_to_workloads.vcpus, Some(4800));
}

#[test]
fn cluster_resources_include_schedulable_control_plane() {
    let cluster = Cluster {
        topology: simple_topology(true),
        control_plane_node_count: 3,
        worker_node_count: 4,
    };
    let r = cluster.resources();
    assert_eq!(r.consumed_by_system, plain(80 * GIB + 12 * GIB, 32 + 6));
    assert_eq!(r.reserved_for_overhead, plain(20 * GIB + 3 * GIB, 0));
    // control plane contributes allocatable = (64 - 4 - 1) GiB, 14 cpus per node
    let expected_cpus = 480 + 3 * 14;
    assert_eq!(r.available_to_workloads.memory, 4 * 231 * GIB + 3 * 59 * GIB);
    assert_eq!(r.available_to_workloads.cpus, expected_cpus);
    assert_eq!(r.available_to_workloads.vcpus, Some(expected_cpus * 10));
}

#[test]
fn cluster_resources_report_deficits_as_negative() {
    let topology = ClusterTopology {
        schedulable_control_plane: false,
        control_plane_node: node(plain(64 * GIB, 16), zero(), zero()),
        worker_node: node(plain(8 * GIB, 2), plain(10 * GIB, 4), plain(1 * GIB, 0)),
        cpu_over_commit_ratio: CpuOverCommitRatio { numerator: 1, denominator: 1 },
    };
    let cluster = Cluster { topology, control_plane_node_count: 3, worker_node_count: 2 };
    let r = cluster.resources();
    assert_eq!(r.available_to_workloads.memory, -6 * GIB);
    assert_eq!(r.available_to_workloads.cpus, -4);
    assert_eq!(r.available_to_workloads.vcpus, Some(-4));
}

#[test]
fn how_many_fit_is_cpu_bound() {
    let it = instance_type(plain(30, 4), zero(), zero());
    let cr = cluster_resources_with_available(plain(100, 10));
    let (count, tag) = it.how_many_fit_into(&cr).unwrap();
    assert_eq!(count, 2);
    assert_eq!(tag, "cpu");
}

#[test]
fn how_many_fit_is_memory_bound() {
    let it = instance_type(plain(40, 1), zero(), zero());
    let cr = cluster_resources_with_available(plain(100, 10));
    let (count, tag) = it.how_many_fit_into(&cr).unwrap();
    assert_eq!(count, 2);
    assert_eq!(tag, "memory");
}

#[test]
fn how_many_fit_reports_ties() {
    let it = instance_type(plain(50, 5), zero(), zero());
    let cr = cluster_resources_with_available(plain(100, 10));
    let (count, tag) = it.how_many_fit_into(&cr).unwrap();
    assert_eq!(count, 2);
    assert_eq!(tag, "both");
}

#[test]
fn how_many_fit_with_nothing_available_is_zero() {
    let it = instance_type(plain(50, 5), zero(), zero());
    let cr = cluster_resources_with_available(plain(-100, 0));
    let (count, tag) = it.how_many_fit_into(&cr).unwrap();
    assert_eq!(count, 0);
    assert_eq!(tag, "both");
}

#[test]
fn how_many_fit_rejects_empty_footprint() {
    let it = instance_type(zero(), zero(), zero());
    let cr = cluster_resources_with_available(plain(100, 10));
    assert_eq!(it.how_many_fit_into(&cr), Err(SizerError::InvalidInput));
}

#[test]
fn can_fit_is_memory_constrained_first() {
    let it = instance_type(plain(50 * GIB, 50), zero(), zero());
    let w = Workloads { vm_count: 1, instance_type: it };
    let cr = cluster_resources_with_available(plain(40 * GIB, 100));
    let r = w.can_fit_into(&cr);
    assert!(!r.result);
    assert_eq!(r.reasons, vec!["memory-constrained".to_string()]);
}

#[test]
fn can_fit_is_cpu_constrained_second() {
    let it = instance_type(plain(10 * GIB, 50), zero(), zero());
    let w = Workloads { vm_count: 2, instance_type: it };
    let cr = cluster_resources_with_available(plain(40 * GIB, 99));
    let r = w.can_fit_into(&cr);
    assert!(!r.result);
    assert_eq!(r.reasons, vec!["cpu-constrained".to_string()]);
}

#[test]
fn can_fit_succeeds_without_reasons() {
    let it = instance_type(plain(10 * GIB, 5), zero(), zero());
    let w = Workloads { vm_count: 2, instance_type: it };
    let cr = cluster_resources_with_available(plain(40 * GIB, 100));
    let r = w.can_fit_into(&cr);
    assert!(r.result);
    assert!(r.reasons.is_empty());
}

#[test]
fn required_resources_scale_the_guest() {
    let it = instance_type(
        Resources { memory: 4 * GIB, cpus: 8, vcpus: Some(2) },
        plain(200 * 1024 * 1024, 1),
        zero(),
    );
    let w = Workloads { vm_count: 100, instance_type: it };
    let r = w.required_resources();
    assert_eq!(r, Resources { memory: 400 * GIB, cpus: 800, vcpus: Some(200) });
}

#[test]
fn required_capacity_scales_the_footprint() {
    let it = instance_type(
        Resources { memory: 4 * GIB, cpus: 8, vcpus: None },
        plain(200 * 1024 * 1024, 1),
        zero(),
    );
    let w = Workloads { vm_count: 10, instance_type: it };
    let r = w.required_capacity();
    assert_eq!(r, plain(40 * GIB + 2000 * 1024 * 1024, 90));
}

#[test]
fn sizing_adds_one_drain_headroom_node() {
    // Each worker offers its full 256 GiB / 128 cpus; the workload needs
    // 400 GiB and 800 cpus, so the smallest fitting count is 7 workers
    // (6 * 128 = 768 < 800 <= 7 * 128) and the search returns 7 + 1.
    let topology = ClusterTopology {
        schedulable_control_plane: false,
        control_plane_node: node(plain(64 * GIB, 16), zero(), zero()),
        worker_node: node(plain(256 * GIB, 128), zero(), zero()),
        cpu_over_commit_ratio: CpuOverCommitRatio { numerator: 1, denominator: 10 },
    };
    let it = instance_type(plain(4 * GIB, 8), zero(), zero());
    let w = Workloads { vm_count: 100, instance_type: it };
    let sized = Cluster::for_topology_and_workload(topology, w, 1000).unwrap();
    assert_eq!(sized.result.worker_node_count, 8);
    assert_eq!(sized.result.control_plane_node_count, DEFAULT_CONTROL_PLANE_NODE_COUNT);
    assert_eq!(sized.reasons.len(), 1);
    assert_eq!(
        sized.reasons[0],
        "One additional node is getting included on top of the required ones, in order to enable full-node drains required for updating the cluster"
    );
}

#[test]
fn sizing_with_empty_workload_still_reserves_the_drain_node() {
    let topology = simple_topology(false);
    let it = instance_type(plain(4 * GIB, 8), zero(), zero());
    let w = Workloads { vm_count: 0, instance_type: it };
    let sized = Cluster::for_topology_and_workload(topology, w, 1000).unwrap();
    // An empty workload fits at zero workers; one node is still added.
    assert_eq!(sized.result.worker_node_count, 1);
}

#[test]
fn sizing_fails_when_no_cluster_can_fit() {
    // Workers whose system consumption swallows their whole capacity
    // never gain usable memory, so no finite cluster fits the workload.
    let topology = ClusterTopology {
        schedulable_control_plane: false,
        control_plane_node: node(plain(64 * GIB, 16), zero(), zero()),
        worker_node: node(plain(8 * GIB, 2), plain(8 * GIB, 2), zero()),
        cpu_over_commit_ratio: CpuOverCommitRatio { numerator: 1, denominator: 10 },
    };
    let it = instance_type(plain(4 * GIB, 8), zero(), zero());
    let w = Workloads { vm_count: 1, instance_type: it };
    let r = Cluster::for_topology_and_workload(topology, w, 50);
    assert_eq!(r.err(), Some(SizerError::UnsatisfiableCapacity));
}

#[test]
fn vcpus_annotation_truncates_toward_zero() {
    let topology = ClusterTopology {
        schedulable_control_plane: false,
        control_plane_node: node(plain(64 * GIB, 16), zero(), zero()),
        worker_node: node(plain(256 * GIB, 10), zero(), zero()),
        cpu_over_commit_ratio: CpuOverCommitRatio { numerator: 3, denominator: 10 },
    };
    let cluster = Cluster { topology, control_plane_node_count: 3, worker_node_count: 1 };
    let r = cluster.resources();
    // 10 cpus / (3/10) = 33.33.. -> 33
    assert_eq!(r.available_to_workloads.vcpus, Some(33));
}

#[test]
fn well_formedness_rejects_invalid_configuration() {
    let good = simple_topology(false);
    assert!(good.is_well_formed());
    let mut zero_ratio = simple_topology(false);
    zero_ratio.cpu_over_commit_ratio = CpuOverCommitRatio { numerator: 0, denominator: 10 };
    assert!(!zero_ratio.is_well_formed());
    let mut above_one = simple_topology(false);
    above_one.cpu_over_commit_ratio = CpuOverCommitRatio { numerator: 11, denominator: 10 };
    assert!(!above_one.is_well_formed());
    let mut negative = simple_topology(false);
    negative.worker_node.capacity = plain(-1, 4);
    assert!(!negative.is_well_formed());
}
