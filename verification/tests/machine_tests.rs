use machine_pipeline::machines::{
    capacity_sum, total_price, Assembly, Error, Machine, QualityChecking, Soldering,
};

#[test]
fn construct_within_range_succeeds() {
    for c in 10..=15 {
        let m = Machine::<Assembly>::new(c).unwrap();
        assert_eq!(m.capacity, c);
    }
    for c in 20..=30 {
        let m = Machine::<Soldering>::new(c).unwrap();
        assert_eq!(m.capacity, c);
    }
    for c in 8..=10 {
        let m = Machine::<QualityChecking>::new(c).unwrap();
        assert_eq!(m.capacity, c);
    }
}

#[test]
fn construct_below_minimum_fails() {
    assert!(matches!(Machine::<Assembly>::new(9), Err(Error::LTMinCap)));
    assert!(matches!(Machine::<Assembly>::new(0), Err(Error::LTMinCap)));
    assert!(matches!(Machine::<Soldering>::new(19), Err(Error::LTMinCap)));
    assert!(matches!(
        Machine::<QualityChecking>::new(7),
        Err(Error::LTMinCap)
    ));
}

#[test]
fn construct_above_maximum_fails() {
    assert!(matches!(Machine::<Assembly>::new(16), Err(Error::GTMaxCap)));
    assert!(matches!(
        Machine::<Soldering>::new(31),
        Err(Error::GTMaxCap)
    ));
    assert!(matches!(
        Machine::<QualityChecking>::new(11),
        Err(Error::GTMaxCap)
    ));
}

#[test]
fn price_is_baseline_plus_step_above_minimum() {
    // Assembly: 5000 + 200 * (capacity - 10)
    assert_eq!(Machine::<Assembly>::new(10).unwrap().price(), 5000);
    assert_eq!(Machine::<Assembly>::new(12).unwrap().price(), 5400);
    assert_eq!(Machine::<Assembly>::new(15).unwrap().price(), 6000);
    // Soldering: 2000 + 50 * (capacity - 20)
    assert_eq!(Machine::<Soldering>::new(20).unwrap().price(), 2000);
    assert_eq!(Machine::<Soldering>::new(30).unwrap().price(), 2500);
    // Quality checking: 8000 + 2000 * (capacity - 8)
    assert_eq!(Machine::<QualityChecking>::new(8).unwrap().price(), 8000);
    assert_eq!(Machine::<QualityChecking>::new(10).unwrap().price(), 12000);
}

#[test]
fn downgrade_removes_exactly_what_it_reports() {
    let mut m = Machine::<Assembly>::new(15).unwrap();
    assert_eq!(m.downgrade(3), 3);
    assert_eq!(m.capacity, 12);
    // only 2 units of headroom remain above the minimum of 10
    assert_eq!(m.downgrade(10), 2);
    assert_eq!(m.capacity, 10);
    // at the minimum, nothing more can be removed
    assert_eq!(m.downgrade(5), 0);
    assert_eq!(m.capacity, 10);
    // a zero-amount call removes nothing
    assert_eq!(m.downgrade(0), 0);
    assert_eq!(m.capacity, 10);
}

#[test]
fn match_capacity_example_two_machines() {
    // goal 27: two machines at 15 (sum 30), excess 3 trimmed from the first
    let out = Machine::<Assembly>::match_capacity(27);
    assert_eq!(out.len(), 2);
    assert_eq!(out[0].capacity, 12);
    assert_eq!(out[1].capacity, 15);
    assert_eq!(out[0].price(), 5400);
    assert_eq!(out[1].price(), 6000);
}

#[test]
fn match_capacity_zero_goal_gives_one_minimum_machine() {
    let out = Machine::<Assembly>::match_capacity(0);
    assert_eq!(out.len(), 1);
    assert_eq!(out[0].capacity, 10);
}

#[test]
fn match_capacity_exact_multiple_keeps_maximum_capacities() {
    let out = Machine::<Assembly>::match_capacity(30);
    assert_eq!(out.len(), 2);
    assert_eq!(out[0].capacity, 15);
    assert_eq!(out[1].capacity, 15);
}

#[test]
fn match_capacity_covers_goal_within_bounds() {
    for goal in [0, 1, 9, 10, 16, 27, 29, 30, 31, 44, 45, 100, 1000] {
        let out = Machine::<Assembly>::match_capacity(goal);
        assert!(!out.is_empty());
        for m in &out {
            assert!(10 <= m.capacity && m.capacity <= 15);
        }
        let sum: usize = out.iter().map(|m| m.capacity).sum();
        assert!(sum >= goal.max(10));
    }
}

#[test]
fn match_capacity_excess_beyond_headroom_is_kept() {
    // goal 16: two machines, excess 14 exceeds the combined headroom of 10,
    // so both end at the minimum and the stage overshoots to 20
    let out = Machine::<Assembly>::match_capacity(16);
    assert_eq!(out.len(), 2);
    assert_eq!(out[0].capacity, 10);
    assert_eq!(out[1].capacity, 10);
}

#[test]
fn sums_match_manual_iteration() {
    let out = Machine::<QualityChecking>::match_capacity(27);
    let caps: usize = out.iter().map(|m| m.capacity).sum();
    let prices: usize = out.iter().map(|m| m.price()).sum();
    assert_eq!(capacity_sum(&out), caps);
    assert_eq!(total_price(&out), prices);
    assert_eq!(caps, 27);
    assert_eq!(out.len(), 3);
    assert_eq!(out[0].capacity, 8);
    assert_eq!(out[1].capacity, 9);
    assert_eq!(out[2].capacity, 10);
}
