use summon_simulator::banner::{GenericBanner, StandardBanner};
use summon_simulator::frequency_counter::FrequencyCounter;
use summon_simulator::goal::{BudgetGoal, BudgetGoalLimit, Goal, UnitCountGoal, UnitGoal};
use summon_simulator::sim::Sim;
use summon_simulator::types::{Color, Pool, PoolSet};

fn median(counter: &FrequencyCounter) -> u32 {
    let mut total: u64 = 0;
    for i in 0..counter.len() as u32 {
        total += counter.get(i) as u64;
    }
    let mut cum_total: u64 = 0;
    for i in 0..counter.len() as u32 {
        cum_total += counter.get(i) as u64;
        if cum_total * 2 >= total {
            return i;
        }
    }
    panic!("empty counter");
}

fn high_percentile(counter: &FrequencyCounter) -> u32 {
    let mut total: u64 = 0;
    for i in 0..counter.len() as u32 {
        total += counter.get(i) as u64;
    }
    let mut cum_total: u64 = 0;
    for i in 0..counter.len() as u32 {
        cum_total += counter.get(i) as u64;
        if cum_total * 10 >= total * 9 {
            return i;
        }
    }
    panic!("empty counter");
}

fn standard() -> (GenericBanner, Goal) {
    let banner = StandardBanner::Standard { focus: [1, 1, 1, 1] }.as_generic_banner(false);
    let goal = Goal::Quantity(UnitCountGoal::new(
        vec![UnitGoal { color: Color::Red, copies: 1, pools: PoolSet::single(Pool::Focus) }],
        true,
    ));
    (banner, goal)
}

fn run(banner: GenericBanner, goal: Goal, iters: u32) -> FrequencyCounter {
    let mut sim = Sim::new(banner, goal);
    sim.sim(iters);
    sim.into_data()
}

#[test]
fn test_distribution_focus_charges() {
    let (mut banner, goal) = standard();
    let results = run(banner.clone(), goal.clone(), 10000);

    banner.has_charges = false;
    let results_without_focus_charges = run(banner, goal, 10000);
    let medians = (high_percentile(&results), high_percentile(&results_without_focus_charges));
    assert!(medians.0 <= medians.1);
}

#[test]
fn test_distribution_revival_rates() {
    let (mut banner, goal) = standard();
    let results = run(banner.clone(), goal.clone(), 10000);

    banner.starting_rates = (4, 2);
    let results_with_higher_rate = run(banner, goal, 10000);
    let medians = (median(&results_with_higher_rate), median(&results));
    assert!(medians.0 <= medians.1);
}

#[test]
fn test_distribution_smaller_focus_pool() {
    let (mut banner, goal) = standard();
    let results = run(banner.clone(), goal.clone(), 10000);

    banner.focus_sizes = [1, 1, 1, 0];
    let results_with_fewer_focuses = run(banner, goal, 10000);
    let medians = (median(&results_with_fewer_focuses), median(&results));
    assert!(medians.0 <= medians.1);
}

#[test]
fn test_distribution_goal_in_common_pool() {
    let (banner, mut goal) = standard();
    let results = run(banner.clone(), goal.clone(), 10000);

    match goal {
        Goal::Quantity(ref mut goal) => {
            goal.units[0].pools = goal.units[0].pools.with(Pool::Common)
        }
        Goal::OrbBudget(_) => {}
    }
    let results_with_common_pool = run(banner, goal, 10000);
    let medians = (median(&results_with_common_pool), median(&results));
    assert!(medians.0 <= medians.1);
}

#[test]
fn test_distribution_spark() {
    let (mut banner, goal) = standard();

    banner.has_spark = true;
    let results_with_spark = run(banner, goal, 10000);
    assert!(results_with_spark.len() <= 201);
}

#[test]
fn test_distribution_spark_multiple() {
    let (mut banner, mut goal) = standard();

    match goal {
        Goal::Quantity(ref mut goal) => goal.units[0].copies = 2,
        Goal::OrbBudget(_) => {}
    }
    let results_with_extra_copy = run(banner.clone(), goal.clone(), 10000);
    banner.has_spark = true;
    let results_with_extra_copy_and_spark = run(banner, goal, 10000);
    let medians = (median(&results_with_extra_copy_and_spark), median(&results_with_extra_copy));
    assert!(medians.0 <= medians.1);
}

#[test]
fn test_distribution_fourstar_focus() {
    let (mut banner, mut goal) = standard();
    let results = run(banner.clone(), goal.clone(), 10000);

    match goal {
        Goal::Quantity(ref mut goal) => {
            goal.units[0].pools = goal.units[0].pools.with(Pool::FourstarFocus)
        }
        Goal::OrbBudget(_) => {}
    }
    banner.fourstar_focus_sizes = [1, 0, 0, 0];
    let results_with_fourstar_focus = run(banner.clone(), goal.clone(), 10000);

    banner.fourstar_focus_sizes = [1, 0, 0, 1];
    let results_with_extra_fourstar_focus = run(banner, goal, 10000);

    let medians = (
        median(&results_with_fourstar_focus),
        median(&results_with_extra_fourstar_focus),
        median(&results),
    );
    assert!(medians.0 <= medians.1 && medians.1 <= medians.2);
}

#[test]
fn test_distribution_any_all() {
    let (mut banner, mut goal) = standard();
    banner.focus_sizes = [2, 0, 1, 1];
    let basic_results = run(banner.clone(), goal.clone(), 10000);

    match goal {
        Goal::Quantity(ref mut goal) => goal.units.push(UnitGoal {
            color: Color::Red,
            copies: 1,
            pools: PoolSet::single(Pool::Focus),
        }),
        Goal::OrbBudget(_) => {}
    }
    let results_needing_multiple_colors = run(banner.clone(), goal.clone(), 10000);

    match goal {
        Goal::Quantity(ref mut goal) => goal.need_all = false,
        Goal::OrbBudget(_) => {}
    }
    let results_accepting_multiple_colors = run(banner, goal, 10000);
    let medians = (
        median(&results_accepting_multiple_colors),
        median(&basic_results),
        median(&results_needing_multiple_colors),
    );
    // Pulling for either of the two is slightly worse than half as expensive
    // as pulling for just one.
    assert!(medians.0 <= medians.1);
    assert!(medians.1 <= medians.0 * 2);

    // Pulling for both of the two is less than twice as expensive as pulling
    // for just one, because you first pull for either and then pull for just
    // one, and that first phase is cheaper.
    assert!(medians.1 <= medians.2);
    assert!(medians.2 <= medians.1 * 2);
}

#[test]
fn test_budget() {
    let banner = StandardBanner::Standard { focus: [1, 1, 1, 1] }.as_generic_banner(false);
    let goal = Goal::OrbBudget(BudgetGoal {
        color: Color::Red,
        limit: BudgetGoalLimit::OrbCount(200),
        pools: PoolSet::single(Pool::Focus),
    });
    let results = run(banner.clone(), goal.clone(), 10000);

    {
        let mut banner = banner.clone();
        banner.has_spark = true;
        let results_with_spark = run(banner, goal.clone(), 10000);
        assert!(results_with_spark.get(0) == 0);
        let medians = (median(&results), median(&results_with_spark));
        assert!(medians.0 <= medians.1);
    }

    {
        let mut goal = goal.clone();
        match goal {
            Goal::OrbBudget(ref mut goal) => goal.limit = BudgetGoalLimit::OrbCount(1500),
            Goal::Quantity(_) => {}
        }
        let results_with_many = run(banner, goal, 10000);
        let median = median(&results_with_many);
        assert!(median >= 10);
        assert!(median <= 11);
    }
}

#[test]
fn quantity_scenario_histogram_shape() {
    // Banner (3,3), one-unit focus pools, charges on, no spark; one Red
    // focus copy wanted. Every trial is counted and none costs less than
    // one five-unit pull.
    let (banner, goal) = standard();
    let results = run(banner.clone(), goal.clone(), 10000);
    let mut total: u64 = 0;
    for i in 0..results.len() as u32 {
        total += results.get(i) as u64;
    }
    assert_eq!(total, 10000);
    for i in 0..5 {
        assert_eq!(results.get(i), 0);
    }

    // The same run under a fixed seed is reproducible.
    let mut a = Sim::new_seeded(banner.clone(), goal.clone(), 7);
    a.sim(2000);
    let mut b = Sim::new_seeded(banner, goal, 7);
    b.sim(2000);
    let a = a.into_data();
    let b = b.into_data();
    assert_eq!(a.len(), b.len());
    for i in 0..a.len() as u32 {
        assert_eq!(a.get(i), b.get(i));
    }
}

#[test]
fn budget_until_spark_counts_the_spark() {
    let mut banner = StandardBanner::Standard { focus: [1, 1, 1, 1] }.as_generic_banner(false);
    banner.has_spark = true;
    let goal = Goal::OrbBudget(BudgetGoal {
        color: Color::Red,
        limit: BudgetGoalLimit::UntilSpark,
        pools: PoolSet::single(Pool::Focus),
    });
    let results = run(banner, goal, 2000);
    assert_eq!(results.get(0), 0);
}
