use sim_core::partition::{
    partition, CapacityPartitioner, CategorySpec, PartitionResult, Share,
};

fn example_specs() -> Vec<CategorySpec> {
    vec![
        // io: highest priority, capped at four, a quarter of the pool.
        CategorySpec { min_units: 0, max_units: Some(4), share: Share::new(1, 4) },
        // async-compute: a quarter of what io left.
        CategorySpec { min_units: 0, max_units: None, share: Share::new(1, 4) },
        // compute: lowest priority, absorbs the remainder.
        CategorySpec { min_units: 1, max_units: None, share: Share::new(1, 1) },
    ]
}

#[test]
fn partition_example_with_eight_units() {
    let r = partition(8, &example_specs());
    assert_eq!(r, vec![2, 1, 5]);
}

#[test]
fn partition_sum_never_exceeds_total() {
    for total in 0..40u32 {
        let r = partition(total, &example_specs());
        let sum: u32 = r.iter().sum();
        assert!(sum <= total);
    }
}

#[test]
fn partition_with_zero_total_assigns_zero_everywhere() {
    let r = partition(0, &example_specs());
    assert_eq!(r, vec![0, 0, 0]);
}

#[test]
fn partition_degrades_in_priority_order_under_saturation() {
    let specs = vec![
        CategorySpec { min_units: 2, max_units: None, share: Share::new(0, 1) },
        CategorySpec { min_units: 2, max_units: None, share: Share::new(0, 1) },
        CategorySpec { min_units: 2, max_units: None, share: Share::new(0, 1) },
    ];
    // Three units cannot cover three minimums of two: earlier categories are
    // served first, later ones get what is left, down to zero.
    let r = partition(3, &specs);
    assert_eq!(r, vec![2, 1, 0]);
}

#[test]
fn partition_clamps_to_category_maximum() {
    let specs = vec![CategorySpec {
        min_units: 0,
        max_units: Some(4),
        share: Share::new(1, 1),
    }];
    assert_eq!(partition(10, &specs), vec![4]);
}

#[test]
fn partition_share_rounds_down() {
    let specs = vec![CategorySpec { min_units: 0, max_units: None, share: Share::new(1, 4) }];
    assert_eq!(partition(7, &specs), vec![1]);
}

#[test]
fn capacity_partitioner_defaults_split_eight_units() {
    let p = CapacityPartitioner::default();
    let r = p.partition(8);
    assert_eq!(
        r,
        PartitionResult { io_units: 2, async_compute_units: 1, compute_units: 5 }
    );
    assert!(r.io_units + r.async_compute_units + r.compute_units <= 8);
}

#[test]
fn capacity_partitioner_clamps_available_total() {
    let mut p = CapacityPartitioner::default();
    p.min_total_units = 4;
    p.max_total_units = 6;
    assert_eq!(p.clamped_total(1), 4);
    assert_eq!(p.clamped_total(5), 5);
    assert_eq!(p.clamped_total(100), 6);
    // With one available unit the clamped total of four is still split in
    // priority order.
    let r = p.partition(1);
    assert_eq!(
        r,
        PartitionResult { io_units: 1, async_compute_units: 1, compute_units: 2 }
    );
}
