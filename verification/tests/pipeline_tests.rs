use machine_pipeline::pipeline::{match_capacity, match_price, MatchTactic, GOAL_LIMIT};

#[test]
fn assemble_exact_targets_raw_goal() {
    // goal 16: assembly overshoots to 20, but downstream stages still
    // target 16
    let (pipe, price) = match_capacity(16, MatchTactic::Exact);
    let assembly_caps: usize = pipe.assembly.iter().map(|m| m.capacity).sum();
    let soldering_caps: usize = pipe.soldering.iter().map(|m| m.capacity).sum();
    let qcheck_caps: usize = pipe.qcheck.iter().map(|m| m.capacity).sum();
    assert_eq!(assembly_caps, 20);
    assert_eq!(soldering_caps, 20); // clamped up to the soldering minimum
    assert_eq!(qcheck_caps, 16);
    let total: usize = pipe
        .assembly
        .iter()
        .map(|m| m.price())
        .chain(pipe.soldering.iter().map(|m| m.price()))
        .chain(pipe.qcheck.iter().map(|m| m.price()))
        .sum();
    assert_eq!(price, total);
}

#[test]
fn assemble_overshoot_covers_assembly_capacity() {
    for goal in [0, 1, 16, 27, 44, 100, 777] {
        let (pipe, _) = match_capacity(goal, MatchTactic::AllowOvershoot);
        let assembly_caps: usize = pipe.assembly.iter().map(|m| m.capacity).sum();
        let soldering_caps: usize = pipe.soldering.iter().map(|m| m.capacity).sum();
        let qcheck_caps: usize = pipe.qcheck.iter().map(|m| m.capacity).sum();
        assert!(soldering_caps >= assembly_caps);
        assert!(qcheck_caps >= assembly_caps);
    }
}

#[test]
fn assemble_example_prices() {
    // goal 27: assembly {12, 15} = 11400, soldering {27} = 2350,
    // quality checking {8, 9, 10} = 30000
    let (pipe, price) = match_capacity(27, MatchTactic::Exact);
    assert_eq!(pipe.assembly.len(), 2);
    assert_eq!(pipe.soldering.len(), 1);
    assert_eq!(pipe.soldering[0].capacity, 27);
    assert_eq!(pipe.qcheck.len(), 3);
    assert_eq!(price, 11400 + 2350 + 30000);
}

#[test]
fn assemble_at_goal_limit_covers_every_stage() {
    let (pipe, _) = match_capacity(GOAL_LIMIT, MatchTactic::Exact);
    let assembly_caps: usize = pipe.assembly.iter().map(|m| m.capacity).sum();
    let soldering_caps: usize = pipe.soldering.iter().map(|m| m.capacity).sum();
    let qcheck_caps: usize = pipe.qcheck.iter().map(|m| m.capacity).sum();
    assert_eq!(assembly_caps, GOAL_LIMIT);
    assert_eq!(soldering_caps, GOAL_LIMIT);
    assert_eq!(qcheck_caps, GOAL_LIMIT);
    for m in &pipe.assembly {
        assert!(10 <= m.capacity && m.capacity <= 15);
    }
}

#[test]
fn match_price_zero_returns_empty_pipeline() {
    let (pipe, price) = match_price(0);
    assert_eq!(price, 0);
    assert!(pipe.assembly.is_empty());
    assert!(pipe.soldering.is_empty());
    assert!(pipe.qcheck.is_empty());
}

#[test]
fn match_price_below_cheapest_pipeline_returns_empty() {
    let (pipe, price) = match_price(14999);
    assert_eq!(price, 0);
    assert!(pipe.assembly.is_empty());
    assert!(pipe.soldering.is_empty());
    assert!(pipe.qcheck.is_empty());
}

#[test]
fn match_price_exact_hit_is_returned() {
    // 15000 is the price of the cheapest pipeline: one machine per stage,
    // each at its category minimum
    let (pipe, price) = match_price(15000);
    assert_eq!(price, 15000);
    assert_eq!(pipe.assembly.len(), 1);
    assert_eq!(pipe.assembly[0].capacity, 10);
    assert_eq!(pipe.soldering.len(), 1);
    assert_eq!(pipe.soldering[0].capacity, 20);
    assert_eq!(pipe.qcheck.len(), 1);
    assert_eq!(pipe.qcheck[0].capacity, 8);
}

#[test]
fn match_price_never_exceeds_target() {
    for target in [0, 1, 14999, 15000, 15001, 20000, 48250, 51400, 100000, 1000000] {
        let (pipe, price) = match_price(target);
        assert!(price <= target);
        let total: usize = pipe
            .assembly
            .iter()
            .map(|m| m.price())
            .chain(pipe.soldering.iter().map(|m| m.price()))
            .chain(pipe.qcheck.iter().map(|m| m.price()))
            .sum();
        assert_eq!(price, total);
    }
}

#[test]
fn match_price_returns_closest_fit_from_below() {
    // the achievable prices at the low end are 15000 (goals up to 8),
    // 17000 (goal 9), 19000 (goal 10) and 23200 (goal 11): the matcher
    // returns the closest one at or below the target
    let (_, price) = match_price(16999);
    assert_eq!(price, 15000);
    let (_, price) = match_price(17000);
    assert_eq!(price, 17000);
    let (_, price) = match_price(18999);
    assert_eq!(price, 17000);
    let (_, price) = match_price(20000);
    assert_eq!(price, 19000);
    let (_, price) = match_price(23199);
    assert_eq!(price, 19000);
    let (_, price) = match_price(23200);
    assert_eq!(price, 23200);
}

#[test]
fn match_price_finds_a_fit_above_cheapest() {
    // any target at or above the cheapest pipeline gets a non-empty result
    for target in [15000, 15001, 17000, 51400, 250000] {
        let (pipe, price) = match_price(target);
        assert!(!pipe.assembly.is_empty());
        assert!(price >= 15000);
        assert!(price <= target);
    }
}
