//! The goal model: what a caller wants from a run of trials — either
//! "collect so many copies of specific units" or "spend a budget, counting
//! matching pulls".

use vstd::prelude::*;

use crate::banner::GenericBanner;
use crate::types::{Color, ColorSet, Pool, PoolSet};

verus! {

/// What the caller wants out of a run of trials.
#[derive(Clone, Debug)]
pub enum Goal {
    Quantity(UnitCountGoal),
    OrbBudget(BudgetGoal),
}

/// One target unit of a quantity goal: its color, how many copies are still
/// wanted, and the pools an acquisition may come from.
#[derive(Clone, Copy, PartialEq, Eq, Structural, Debug)]
pub struct UnitGoal {
    pub color: Color,
    pub copies: u32,
    pub pools: PoolSet,
}

/// Collect copies of specific units: finished when every entry (or, with
/// `need_all` false, any entry) has no copies remaining.
#[derive(Clone, Debug)]
pub struct UnitCountGoal {
    pub units: Vec<UnitGoal>,
    pub need_all: bool,
    /// Cache of the colors with copies still wanted; maintained by `new` and
    /// `pull`, stated by `wf`.
    pub colors: ColorSet,
}

/// The total number of copies still wanted across all entries.
pub open spec fn copies_sum(units: Seq<UnitGoal>) -> int
    decreases units.len(),
{
    if units.len() == 0 {
        0
    } else {
        copies_sum(units.drop_last()) + units.last().copies
    }
}

pub proof fn lemma_copies_sum_nonneg(units: Seq<UnitGoal>)
    ensures
        copies_sum(units) >= 0,
    decreases units.len(),
{
    if units.len() > 0 {
        lemma_copies_sum_nonneg(units.drop_last());
    }
}

/// Decrementing one entry's remaining copies lowers the total by one.
pub proof fn lemma_copies_sum_decrement(units: Seq<UnitGoal>, j: int, u: UnitGoal)
    requires
        0 <= j < units.len(),
        u.copies == units[j].copies - 1,
    ensures
        copies_sum(units.update(j, u)) == copies_sum(units) - 1,
    decreases units.len(),
{
    let updated = units.update(j, u);
    if j == units.len() - 1 {
        assert(updated.drop_last() =~= units.drop_last());
    } else {
        assert(updated.drop_last() =~= units.drop_last().update(j, u));
        lemma_copies_sum_decrement(units.drop_last(), j, u);
    }
}

/// An entry's remaining copies never exceed the total over all entries.
pub proof fn lemma_copies_sum_bounds_entry(units: Seq<UnitGoal>, j: int)
    requires
        0 <= j < units.len(),
    ensures
        units[j].copies <= copies_sum(units),
    decreases units.len(),
{
    if j == units.len() - 1 {
        lemma_copies_sum_nonneg(units.drop_last());
    } else {
        lemma_copies_sum_bounds_entry(units.drop_last(), j);
    }
}

/// A total of at least one means some entry still wants a copy.
pub proof fn lemma_copies_sum_pos_exists(units: Seq<UnitGoal>)
    requires
        copies_sum(units) >= 1,
    ensures
        exists|j: int| 0 <= j < units.len() && units[j].copies > 0,
    decreases units.len(),
{
    if units.len() > 0 {
        if units.last().copies > 0 {
            assert(units[units.len() - 1].copies > 0);
        } else {
            lemma_copies_sum_pos_exists(units.drop_last());
            let j = choose|j: int|
                0 <= j < units.drop_last().len() && units.drop_last()[j].copies > 0;
            assert(units[j].copies > 0);
        }
    }
}

/// `j` is the entry the spark grants a copy of: the first, in listed order,
/// among those with the most copies remaining.
pub open spec fn is_spark_target(units: Seq<UnitGoal>, j: int) -> bool {
    &&& 0 <= j < units.len()
    &&& forall|k: int| 0 <= k < units.len() ==> (#[trigger] units[k].copies) <= units[j].copies
    &&& forall|k: int| 0 <= k < j ==> (#[trigger] units[k].copies) < units[j].copies
}

/// The entry the spark picks.
pub open spec fn spec_spark_target(units: Seq<UnitGoal>) -> int {
    choose|j: int| is_spark_target(units, j)
}

/// A pull can satisfy an entry when the colors agree, the pool is one the
/// entry accepts, and copies of it are still wanted.
pub open spec fn unit_matches(u: UnitGoal, pool: Pool, color: Color) -> bool {
    u.color == color && u.pools.spec_contains(pool) && u.copies > 0
}

/// How many of the first `n` entries a pull from `pool` of `color` could
/// satisfy.
pub open spec fn count_matches_upto(units: Seq<UnitGoal>, pool: Pool, color: Color, n: int) -> int
    decreases n,
{
    if n <= 0 {
        0
    } else {
        count_matches_upto(units, pool, color, n - 1) + if 0 <= n - 1 < units.len()
            && unit_matches(units[n - 1], pool, color) {
            1int
        } else {
            0int
        }
    }
}

proof fn lemma_count_matches_upto_monotone(
    units: Seq<UnitGoal>,
    pool: Pool,
    color: Color,
    m: int,
    n: int,
)
    requires
        m <= n,
    ensures
        count_matches_upto(units, pool, color, m) <= count_matches_upto(units, pool, color, n),
    decreases n - m,
{
    if m < n {
        lemma_count_matches_upto_monotone(units, pool, color, m, n - 1);
    }
}

/// The entry a sampled unit index addresses: the `idx`-th entry, in listed
/// order, among those the pull could satisfy — if that many exist.
pub open spec fn spec_pull_target(
    units: Seq<UnitGoal>,
    pool: Pool,
    color: Color,
    idx: int,
) -> Option<int> {
    if exists|j: int|
        0 <= j < units.len() && unit_matches(units[j], pool, color) && count_matches_upto(
            units,
            pool,
            color,
            j,
        ) == idx {
        Some(
            choose|j: int|
                0 <= j < units.len() && unit_matches(units[j], pool, color)
                    && count_matches_upto(units, pool, color, j) == idx,
        )
    } else {
        None
    }
}

proof fn lemma_pull_target_unique(
    units: Seq<UnitGoal>,
    pool: Pool,
    color: Color,
    idx: int,
    j1: int,
    j2: int,
)
    requires
        0 <= j1 < units.len(),
        0 <= j2 < units.len(),
        unit_matches(units[j1], pool, color),
        unit_matches(units[j2], pool, color),
        count_matches_upto(units, pool, color, j1) == idx,
        count_matches_upto(units, pool, color, j2) == idx,
    ensures
        j1 == j2,
{
    if j1 < j2 {
        lemma_count_matches_upto_monotone(units, pool, color, j1 + 1, j2);
    }
    if j2 < j1 {
        lemma_count_matches_upto_monotone(units, pool, color, j2 + 1, j1);
    }
}

impl UnitCountGoal {
    /// The cached set of colors still being chased.
    pub open spec fn spec_colors(self) -> ColorSet {
        self.colors
    }

    /// A color is active while some entry of that color still wants copies.
    pub open spec fn spec_active(self, c: Color) -> bool {
        exists|j: int|
            0 <= j < self.units@.len() && self.units@[j].color == c && self.units@[j].copies > 0
    }

    /// The cached color set agrees with the entries.
    pub open spec fn wf(self) -> bool {
        forall|c: Color| self.spec_colors().spec_contains(c) == self.spec_active(c)
    }

    /// Finished when every entry (or, with `need_all` false, any entry) has
    /// no copies remaining.
    pub open spec fn spec_finished(self) -> bool {
        if self.need_all {
            forall|j: int| 0 <= j < self.units@.len() ==> self.units@[j].copies == 0
        } else {
            exists|j: int| 0 <= j < self.units@.len() && self.units@[j].copies == 0
        }
    }

    /// There is something to simulate: some entry still wants a copy.
    pub open spec fn spec_is_valid(self) -> bool {
        exists|j: int| 0 <= j < self.units@.len() && self.units@[j].copies > 0
    }

    pub fn new(units: Vec<UnitGoal>, need_all: bool) -> (r: UnitCountGoal)
        ensures
            r.units@ == units@,
            r.need_all == need_all,
            r.wf(),
    {
        let mut result = UnitCountGoal { units, need_all, colors: ColorSet::empty() };
        result.calculate_colors();
        result
    }

    pub fn colors(&self) -> (r: ColorSet)
        ensures
            r == self.spec_colors(),
    {
        self.colors
    }

    /// Recompute the cached active-color set from the entries.
    fn calculate_colors(&mut self)
        ensures
            final(self).units@ == old(self).units@,
            final(self).need_all == old(self).need_all,
            final(self).wf(),
    {
        let mut colors = ColorSet::empty();
        let mut i: usize = 0;
        while i < self.units.len()
            invariant
                i <= self.units@.len(),
                *self == *old(self),
                forall|c: Color|
                    colors.spec_contains(c) == exists|j: int|
                        0 <= j < i && self.units@[j].color == c && self.units@[j].copies > 0,
            decreases self.units@.len() - i,
        {
            let unit = self.units[i];
            if unit.copies > 0 {
                colors = colors.with(unit.color);
            }
            i = i + 1;
        }
        self.colors = colors;
    }

    /// Count how many entries still want a copy of the given color, over all
    /// eligible pools.
    pub fn is_valid(&self) -> (r: bool)
        ensures
            r == self.spec_is_valid(),
    {
        let mut i: usize = 0;
        while i < self.units.len()
            invariant
                i <= self.units@.len(),
                forall|j: int| 0 <= j < i ==> self.units@[j].copies == 0,
            decreases self.units@.len() - i,
        {
            if self.units[i].copies > 0 {
                return true;
            }
            i = i + 1;
        }
        false
    }

    /// Apply one acquired unit: the sampled `unit_index` addresses, in listed
    /// order, the entries the pull could satisfy; if it lands on one, that
    /// entry loses one wanted copy and the active-color cache is recomputed.
    pub fn pull(&mut self, pool: Pool, color: Color, unit_index: u8)
        requires
            old(self).wf(),
        ensures
            final(self).need_all == old(self).need_all,
            final(self).wf(),
            match spec_pull_target(old(self).units@, pool, color, unit_index as int) {
                Some(j) => final(self).units@ == old(self).units@.update(
                    j,
                    (UnitGoal {
                        copies: (old(self).units@[j].copies - 1) as u32,
                        ..old(self).units@[j]
                    }),
                ),
                None => final(self).units@ == old(self).units@,
            },
    {
        let mut matching: u8 = 0;
        let mut i: usize = 0;
        while i < self.units.len()
            invariant
                i <= self.units@.len(),
                *self == *old(self),
                old(self).wf(),
                matching as int == count_matches_upto(self.units@, pool, color, i as int),
                matching <= unit_index,
                forall|j: int|
                    0 <= j < i ==> !(unit_matches(self.units@[j], pool, color)
                        && count_matches_upto(self.units@, pool, color, j) == unit_index as int),
            decreases self.units@.len() - i,
        {
            let ghost orig = old(self).units@;
            let unit = self.units[i];
            if unit.color == color && unit.pools.contains(pool) && unit.copies > 0 {
                if matching == unit_index {
                    let updated = UnitGoal { copies: unit.copies - 1, ..unit };
                    self.units.set(i, updated);
                    self.calculate_colors();
                    proof {
                        assert(unit_matches(orig[i as int], pool, color));
                        assert(count_matches_upto(orig, pool, color, i as int)
                            == unit_index as int);
                        let t = spec_pull_target(orig, pool, color, unit_index as int);
                        assert(t is Some);
                        lemma_pull_target_unique(
                            orig,
                            pool,
                            color,
                            unit_index as int,
                            t->Some_0,
                            i as int,
                        );
                    }
                    return ;
                }
                matching = matching + 1;
            }
            i = i + 1;
        }
        proof {
            let orig = old(self).units@;
            if spec_pull_target(orig, pool, color, unit_index as int) is Some {
                let j = spec_pull_target(orig, pool, color, unit_index as int)->Some_0;
                assert(0 <= j < orig.len() && unit_matches(orig[j], pool, color)
                    && count_matches_upto(orig, pool, color, j) == unit_index as int);
                assert(false);
            }
        }
    }

    /// An owned copy for one trial, with the active-color cache freshly
    /// recomputed.
    pub fn duplicate(&self) -> (g: UnitCountGoal)
        ensures
            g.units@ == self.units@,
            g.need_all == self.need_all,
            g.wf(),
    {
        let mut units: Vec<UnitGoal> = Vec::new();
        let mut i: usize = 0;
        while i < self.units.len()
            invariant
                i <= self.units@.len(),
                units@ == self.units@.take(i as int),
            decreases self.units@.len() - i,
        {
            units.push(self.units[i]);
            proof {
                assert(units@ =~= self.units@.take(i as int + 1));
            }
            i = i + 1;
        }
        proof {
            assert(units@ =~= self.units@);
        }
        UnitCountGoal::new(units, self.need_all)
    }

    /// Whether any entry may be satisfied from the common pool.
    pub fn any_common_pool(&self) -> (r: bool)
        ensures
            r == exists|j: int|
                0 <= j < self.units@.len() && (#[trigger] self.units@[j]).pools.spec_contains(
                    Pool::Common,
                ),
    {
        let mut i: usize = 0;
        while i < self.units.len()
            invariant
                i <= self.units@.len(),
                forall|j: int|
                    0 <= j < i ==> !(#[trigger] self.units@[j]).pools.spec_contains(Pool::Common),
            decreases self.units@.len() - i,
        {
            if self.units[i].pools.contains(Pool::Common) {
                assert(self.units@[i as int].pools.spec_contains(Pool::Common));
                return true;
            }
            i = i + 1;
        }
        false
    }

    /// Whether exactly one wanted copy remains over all entries.
    pub fn copies_remaining_is_one(&self) -> (r: bool)
        ensures
            r == (copies_sum(self.units@) == 1),
    {
        let mut seen: u32 = 0;
        let mut i: usize = 0;
        while i < self.units.len()
            invariant
                i <= self.units@.len(),
                seen <= 2,
                seen <= 1 ==> seen as int == copies_sum(self.units@.take(i as int)),
                seen == 2 ==> copies_sum(self.units@.take(i as int)) >= 2,
            decreases self.units@.len() - i,
        {
            let c = self.units[i].copies;
            proof {
                assert(self.units@.take(i as int + 1).drop_last() =~= self.units@.take(i as int));
                assert(self.units@.take(i as int + 1).last() == self.units@[i as int]);
                lemma_copies_sum_nonneg(self.units@.take(i as int));
            }
            if c >= 2 || (c == 1 && seen >= 1) {
                seen = 2;
            } else if c == 1 {
                seen = seen + 1;
            }
            i = i + 1;
        }
        proof {
            assert(self.units@.take(self.units@.len() as int) =~= self.units@);
        }
        seen == 1
    }

    /// The spark's free, zero-cost acquisition: the first entry among those
    /// with the most copies remaining loses one. First-listed-wins is the
    /// documented tie-break.
    pub fn apply_spark(&mut self)
        requires
            old(self).wf(),
            exists|j: int| 0 <= j < old(self).units@.len() && old(self).units@[j].copies > 0,
        ensures
            final(self).wf(),
            final(self).need_all == old(self).need_all,
            is_spark_target(old(self).units@, spec_spark_target(old(self).units@)),
            old(self).units@[spec_spark_target(old(self).units@)].copies >= 1,
            final(self).units@ == old(self).units@.update(
                spec_spark_target(old(self).units@),
                (UnitGoal {
                    copies: (old(self).units@[spec_spark_target(old(self).units@)].copies
                        - 1) as u32,
                    ..old(self).units@[spec_spark_target(old(self).units@)]
                }),
            ),
    {
        let mut max_copies: u32 = 0;
        let mut max_idx: usize = 0;
        let mut i: usize = 0;
        while i < self.units.len()
            invariant
                *self == *old(self),
                old(self).wf(),
                i <= self.units@.len(),
                i >= 1 ==> max_idx < i,
                i >= 1 ==> self.units@[max_idx as int].copies == max_copies,
                i == 0 ==> max_copies == 0 && max_idx == 0,
                forall|k: int| 0 <= k < i ==> (#[trigger] self.units@[k].copies) <= max_copies,
                forall|k: int|
                    0 <= k < max_idx ==> (#[trigger] self.units@[k].copies) < max_copies,
            decreases self.units@.len() - i,
        {
            if self.units[i].copies > max_copies {
                max_copies = self.units[i].copies;
                max_idx = i;
            }
            i = i + 1;
        }
        proof {
            let w = choose|j: int|
                0 <= j < old(self).units@.len() && old(self).units@[j].copies > 0;
            assert(old(self).units@[w].copies <= max_copies);
            assert(is_spark_target(old(self).units@, max_idx as int));
        }
        let unit = self.units[max_idx];
        let updated = UnitGoal { copies: unit.copies - 1, ..unit };
        self.units.set(max_idx, updated);
        self.calculate_colors();
        proof {
            let orig = old(self).units@;
            let t = spec_spark_target(orig);
            assert(is_spark_target(orig, t));
            if t < max_idx as int {
                assert(orig[t].copies < orig[max_idx as int].copies);
                assert(orig[max_idx as int].copies <= orig[t].copies);
            }
            if t > max_idx as int {
                assert(orig[max_idx as int].copies < orig[t].copies);
                assert(orig[t].copies <= orig[max_idx as int].copies);
            }
            assert(t == max_idx as int);
        }
    }

    /// Whether the goal is met, respecting `need_all`.
    pub fn finished(&self) -> (r: bool)
        ensures
            r == self.spec_finished(),
    {
        if self.need_all {
            let mut i: usize = 0;
            while i < self.units.len()
                invariant
                    self.need_all,
                    i <= self.units@.len(),
                    forall|j: int| 0 <= j < i ==> self.units@[j].copies == 0,
                decreases self.units@.len() - i,
            {
                if self.units[i].copies > 0 {
                    assert(self.units@[i as int].copies != 0);
                    return false;
                }
                i = i + 1;
            }
            true
        } else {
            let mut i: usize = 0;
            while i < self.units.len()
                invariant
                    !self.need_all,
                    i <= self.units@.len(),
                    forall|j: int| 0 <= j < i ==> self.units@[j].copies != 0,
                decreases self.units@.len() - i,
            {
                if self.units[i].copies == 0 {
                    assert(self.units@[i as int].copies == 0);
                    return true;
                }
                i = i + 1;
            }
            false
        }
    }
}

/// How a budget-goal trial is cut off: after a fixed amount of currency, or
/// as soon as the spark triggers.
#[derive(Clone, Copy, PartialEq, Eq, Structural, Debug)]
pub enum BudgetGoalLimit {
    OrbCount(u32),
    UntilSpark,
}

/// Spend the budget and count pulls matching one target color over the
/// eligible pools.
#[derive(Clone, Copy, PartialEq, Eq, Structural, Debug)]
pub struct BudgetGoal {
    pub color: Color,
    pub limit: BudgetGoalLimit,
    pub pools: PoolSet,
}

impl BudgetGoal {
    /// The budget affords at least the first pull (which costs 5), and a run
    /// "until spark" is only meaningful on a banner that has a spark.
    pub open spec fn spec_is_valid(self, banner: GenericBanner) -> bool {
        match self.limit {
            BudgetGoalLimit::OrbCount(limit) => limit >= 5,
            BudgetGoalLimit::UntilSpark => banner.has_spark,
        }
    }

    pub fn is_valid(&self, banner: &GenericBanner) -> (r: bool)
        ensures
            r == self.spec_is_valid(*banner),
    {
        match self.limit {
            BudgetGoalLimit::OrbCount(limit) => limit >= 5,
            BudgetGoalLimit::UntilSpark => banner.has_spark,
        }
    }
}

impl Goal {
    /// Pre-flight check a caller must pass before running trials: the goal
    /// asks for something and can be cut off.
    pub open spec fn spec_is_valid(self, banner: GenericBanner) -> bool {
        match self {
            Goal::Quantity(goal) => goal.spec_is_valid(),
            Goal::OrbBudget(goal) => goal.spec_is_valid(banner),
        }
    }

    pub fn is_valid(&self, banner: &GenericBanner) -> (r: bool)
        ensures
            r == self.spec_is_valid(*banner),
    {
        match self {
            Goal::Quantity(goal) => goal.is_valid(),
            Goal::OrbBudget(goal) => goal.is_valid(banner),
        }
    }
}

} // verus!
