use summon_simulator::banner::{GenericBanner, StandardBanner};
use summon_simulator::frequency_counter::FrequencyCounter;
use summon_simulator::goal::{UnitCountGoal, UnitGoal};
use summon_simulator::sim::DistributionCache;
use summon_simulator::types::{Color, Pool, PoolSet};

fn standard_banner() -> GenericBanner {
    StandardBanner::Standard { focus: [1, 1, 1, 1] }.as_generic_banner(false)
}

#[test]
fn standard_banner_is_valid() {
    let banner = standard_banner();
    assert!(banner.is_valid());
    assert!(banner.has_charges);
    assert!(!banner.has_spark);
    assert_eq!(banner.starting_rates, (3, 3));
}

#[test]
fn starting_rates_sum_to_100() {
    let banner = standard_banner();
    let rates = banner.starting_rates();
    assert_eq!(rates, [3, 3, 0, 3, 91]);
    let sum: u32 = rates.iter().map(|&r| r as u32).sum();
    assert_eq!(sum, 100);
}

#[test]
fn starting_rates_sum_to_100_with_fourstar_focus() {
    let banner = StandardBanner::NewHeroes { focus: [1, 1, 1, 1], fourstar_focus: [1, 0, 0, 0] }
        .as_generic_banner(false);
    let rates = banner.starting_rates();
    assert_eq!(rates, [3, 3, 3, 3, 88]);
    let sum: u32 = rates.iter().map(|&r| r as u32).sum();
    assert_eq!(sum, 100);
}

#[test]
fn invalid_banners_are_rejected() {
    let mut banner = standard_banner();
    banner.starting_rates = (0, 3);
    assert!(!banner.is_valid());

    let mut banner = standard_banner();
    banner.focus_sizes = [0, 0, 0, 0];
    assert!(!banner.is_valid());

    let mut banner = standard_banner();
    banner.fourstar_focus_sizes = [2, 0, 0, 0];
    assert!(!banner.is_valid());

    let mut banner = standard_banner();
    banner.starting_rates = (97, 3);
    assert!(!banner.is_valid());
}

#[test]
fn pool_sizes_constants() {
    let banner = standard_banner();
    assert_eq!(banner.pool_sizes(Pool::Focus), [1, 1, 1, 1]);
    assert_eq!(banner.pool_sizes(Pool::Fivestar), [29, 29, 20, 16]);
    assert_eq!(banner.pool_sizes(Pool::FourstarFocus), [0, 0, 0, 0]);
    assert_eq!(banner.pool_sizes(Pool::FourstarSpecial), [62, 41, 36, 28]);
    assert_eq!(banner.pool_sizes(Pool::Common), [41, 44, 35, 44]);
}

#[test]
fn frequency_counter_records_and_reads() {
    let mut c = FrequencyCounter::new();
    assert_eq!(c.len(), 0);
    assert_eq!(c.get(7), 0);
    c.increment(5);
    c.increment(5);
    c.increment(2);
    assert_eq!(c.len(), 6);
    assert_eq!(c.get(5), 2);
    assert_eq!(c.get(2), 1);
    assert_eq!(c.get(0), 0);
    assert_eq!(c.get(100), 0);
}

#[test]
fn frequency_counter_combine_adds_elementwise() {
    let mut a = FrequencyCounter::new();
    a.increment(1);
    a.increment(3);
    let mut b = FrequencyCounter::new();
    b.increment(3);
    b.increment(8);
    a.combine(b);
    assert_eq!(a.get(1), 1);
    assert_eq!(a.get(3), 2);
    assert_eq!(a.get(8), 1);
    assert_eq!(a.len(), 9);
}

#[test]
fn frequency_counter_combine_commutes() {
    let mut a1 = FrequencyCounter::new();
    a1.increment(1);
    let mut b1 = FrequencyCounter::new();
    b1.increment(4);
    b1.increment(4);

    let mut a2 = FrequencyCounter::new();
    a2.increment(1);
    let mut b2 = FrequencyCounter::new();
    b2.increment(4);
    b2.increment(4);

    a1.combine(b1);
    b2.combine(a2);
    assert_eq!(a1.len(), b2.len());
    for i in 0..a1.len() as u32 {
        assert_eq!(a1.get(i), b2.get(i));
    }
}

#[test]
fn frequency_counter_combine_empty_is_identity() {
    let mut a = FrequencyCounter::new();
    a.increment(2);
    a.increment(9);
    a.combine(FrequencyCounter::new());
    assert_eq!(a.len(), 10);
    assert_eq!(a.get(2), 1);
    assert_eq!(a.get(9), 1);
}

#[test]
fn goal_pull_decrements_and_finishes() {
    let unit = UnitGoal { color: Color::Red, copies: 1, pools: PoolSet::single(Pool::Focus) };
    let mut goal = UnitCountGoal::new(vec![unit], true);
    assert!(!goal.finished());
    assert!(goal.colors().contains(Color::Red));
    assert!(!goal.colors().contains(Color::Blue));
    goal.pull(Pool::Focus, Color::Red, 0);
    assert!(goal.finished());
    assert!(!goal.colors().contains(Color::Red));
}

#[test]
fn goal_pull_ignores_wrong_pool_or_color() {
    let unit = UnitGoal { color: Color::Red, copies: 1, pools: PoolSet::single(Pool::Focus) };
    let mut goal = UnitCountGoal::new(vec![unit], true);
    goal.pull(Pool::Common, Color::Red, 0);
    assert!(!goal.finished());
    goal.pull(Pool::Focus, Color::Blue, 0);
    assert!(!goal.finished());
    goal.pull(Pool::Focus, Color::Red, 1);
    assert!(!goal.finished());
}

#[test]
fn distribution_cache_builds_for_valid_banner() {
    let banner = standard_banner();
    let cache = DistributionCache::new(&banner);
    let _ = cache.get_pool_dist(0, false);
    let _ = cache.get_pool_dist(100, true);
    let _ = cache.get_color_dist(Pool::Common);
}
