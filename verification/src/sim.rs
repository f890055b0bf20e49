//! The simulation engine: the per-banner distribution cache, the per-trial
//! pull/pity/spark state machine, and the batch runners that fold trial
//! outcomes into a histogram.

use vstd::prelude::*;

use rand_xoshiro::Xoshiro128Plus;

use crate::banner::GenericBanner;
use crate::frequency_counter::{
    combined, entry, lemma_counter_entry_le_total, lemma_total_combined, lemma_total_unit, total,
    unit_count, FrequencyCounter,
};
use crate::goal::{
    copies_sum, lemma_copies_sum_bounds_entry, lemma_copies_sum_decrement,
    lemma_copies_sum_nonneg, lemma_copies_sum_pos_exists, spec_pull_target, spec_spark_target,
    unit_matches, BudgetGoal, BudgetGoalLimit, Goal, UnitCountGoal, UnitGoal,
};
use crate::rng::{rand_below, random_seed, rng_from_seed};
use crate::types::{Color, Pool};
use crate::weightedindex::{WeightedIndexColor, WeightedIndexPool};

verus! {

/// A five-way rate vector as percentages: focus rate positive, the four-star
/// special rate fixed at 3, every entry non-negative, and the whole summing
/// to 100.
pub open spec fn spec_rates_valid(rates: Seq<int>) -> bool {
    &&& rates.len() == 5
    &&& rates[0] >= 1
    &&& rates[1] >= 0
    &&& rates[2] >= 0
    &&& rates[3] == 3
    &&& rates[4] >= 0
    &&& rates[0] + rates[1] + rates[2] + rates[3] + rates[4] == 100
}

/// The five-way percentages of a rate array, as mathematical integers.
pub open spec fn rates_of(starting_rates: [u8; 5]) -> Seq<int> {
    starting_rates@.map_values(|x: u8| x as int)
}

/// A valid banner derives a valid rate vector.
pub proof fn lemma_valid_banner_rates(banner: GenericBanner)
    requires
        banner.spec_is_valid(),
    ensures
        spec_rates_valid(banner.spec_rates()),
{
}

/// The integer weight of pool `k` after adjusting the base rates for a pity
/// step and an active focus charge.
///
/// Below the pity cap every rate is scaled to the common denominator
/// `200 * s * t` (`s` the five-star percentage, `t` the rest): the two
/// five-star pools grow in proportion to the pity step, the three others
/// shrink by the matching amount, bottoming out at zero where the shift would
/// exceed a pool's entire mass. At the cap (step 24) all mass sits on the two
/// five-star pools, split by their relative base rates. An active charge
/// merges the off-focus five-star mass into the focus pool.
#[verifier::opaque]
pub open spec fn spec_pool_weight(rates: Seq<int>, pity_step: int, charged: bool, k: int) -> int {
    let f = rates[0];
    let v = rates[1];
    let s = f + v;
    let t = rates[2] + rates[3] + rates[4];
    if pity_step >= 24 {
        if k == 0 {
            if charged {
                f + v
            } else {
                f
            }
        } else if k == 1 {
            if charged {
                0
            } else {
                v
            }
        } else {
            0
        }
    } else {
        let five = t * (2 * s + pity_step);
        let shrunk = s * (if 2 * t - pity_step >= 0 {
            2 * t - pity_step
        } else {
            0
        });
        if k == 0 {
            if charged {
                f * five + v * five
            } else {
                f * five
            }
        } else if k == 1 {
            if charged {
                0
            } else {
                v * five
            }
        } else {
            rates[k] * shrunk
        }
    }
}

/// The pity step a lookup uses: capped at 24, where the five-star guarantee
/// takes over.
pub open spec fn spec_pity_step(pity_incr: int) -> int {
    if pity_incr >= 24 {
        24
    } else {
        pity_incr
    }
}

/// Every adjusted weight is non-negative, and the focus pool's weight is
/// always positive.
pub proof fn lemma_pool_weight_bounds(rates: Seq<int>, pity_step: int, charged: bool)
    requires
        spec_rates_valid(rates),
        pity_step >= 0,
    ensures
        forall|k: int| 0 <= k < 5 ==> #[trigger] spec_pool_weight(rates, pity_step, charged, k) >= 0,
        spec_pool_weight(rates, pity_step, charged, 0) >= 1,
{
    reveal(spec_pool_weight);
    let f = rates[0];
    let v = rates[1];
    let s = f + v;
    let t = rates[2] + rates[3] + rates[4];
    if pity_step < 24 {
        let five = t * (2 * s + pity_step);
        let shrink = if 2 * t - pity_step >= 0 {
            2 * t - pity_step
        } else {
            0
        };
        let shrunk = s * shrink;
        assert(five >= 1 && shrunk >= 0) by (nonlinear_arith)
            requires
                t >= 3,
                2 * s + pity_step >= 2,
                s >= 1,
                shrink >= 0,
                five == t * (2 * s + pity_step),
                shrunk == s * shrink,
        ;
        assert(f * five >= 1 && v * five >= 0) by (nonlinear_arith)
            requires
                f >= 1,
                v >= 0,
                five >= 1,
        ;
        assert forall|k: int| 0 <= k < 5 implies #[trigger] spec_pool_weight(
            rates,
            pity_step,
            charged,
            k,
        ) >= 0 by {
            if k >= 2 {
                assert(rates[k] * shrunk >= 0) by (nonlinear_arith)
                    requires
                        rates[k] >= 0,
                        shrunk >= 0,
                ;
            }
        }
    }
}

/// Mass conservation of the pity adjustment: below the cap, and as long as
/// the shift has not exhausted any pool's base mass, the five adjusted
/// weights always sum to the same normalizer `200 * s * t`, whatever the pity
/// step and whether or not a charge is active — the exact-integer form of
/// "the adjusted distribution still sums to one".
pub proof fn lemma_pool_distribution_mass(rates: Seq<int>, pity_step: int, charged: bool)
    requires
        spec_rates_valid(rates),
        0 <= pity_step <= 23,
        pity_step <= 2 * (rates[2] + rates[3] + rates[4]),
    ensures
        spec_pool_weight(rates, pity_step, charged, 0) + spec_pool_weight(
            rates,
            pity_step,
            charged,
            1,
        ) + spec_pool_weight(rates, pity_step, charged, 2) + spec_pool_weight(
            rates,
            pity_step,
            charged,
            3,
        ) + spec_pool_weight(rates, pity_step, charged, 4) == 200 * (rates[0] + rates[1]) * (
        rates[2] + rates[3] + rates[4]),
{
    reveal(spec_pool_weight);
    let f = rates[0];
    let v = rates[1];
    let s = f + v;
    let t = rates[2] + rates[3] + rates[4];
    let five = t * (2 * s + pity_step);
    let shrunk = s * (2 * t - pity_step);
    assert(f * five + v * five + rates[2] * shrunk + rates[3] * shrunk + rates[4] * shrunk == 200
        * s * t) by (nonlinear_arith)
        requires
            five == t * (2 * s + pity_step),
            shrunk == s * (2 * t - pity_step),
            s == f + v,
            t == rates[2] + rates[3] + rates[4],
            s + t == 100,
    ;
}

/// At the pity cap the whole distribution sits on the two five-star pools,
/// split by their base rates: the weights sum to the five-star percentage.
pub proof fn lemma_pool_distribution_mass_capped(rates: Seq<int>, pity_step: int, charged: bool)
    requires
        spec_rates_valid(rates),
        pity_step >= 24,
    ensures
        spec_pool_weight(rates, pity_step, charged, 0) + spec_pool_weight(
            rates,
            pity_step,
            charged,
            1,
        ) + spec_pool_weight(rates, pity_step, charged, 2) + spec_pool_weight(
            rates,
            pity_step,
            charged,
            3,
        ) + spec_pool_weight(rates, pity_step, charged, 4) == rates[0] + rates[1],
{
    reveal(spec_pool_weight);
}

/// Build the color sampler of a pool from its per-color sizes.
pub fn get_color_dist(pool_sizes: [u8; 4]) -> (r: WeightedIndexColor)
    ensures
        r.wf(),
        forall|i: int| 0 <= i < 4 ==> #[trigger] r.spec_weights()[i] == pool_sizes@[i] as u64,
{
    let w = [
        pool_sizes[0] as u64,
        pool_sizes[1] as u64,
        pool_sizes[2] as u64,
        pool_sizes[3] as u64,
    ];
    let r = WeightedIndexColor::new(w);
    proof {
        assert forall|i: int| 0 <= i < 4 implies #[trigger] r.spec_weights()[i] == pool_sizes@[i]
            as u64 by {
            assert(r.spec_weights()[i] == w@[i]);
        }
    }
    r
}

/// Build the pool sampler for one pity step and charge flag from the
/// banner's base rates.
pub fn get_pool_dist(starting_rates: [u8; 5], pity_incr: u32, focus_charge_active: bool) -> (r:
    WeightedIndexPool)
    ensures
        r.wf(),
        forall|k: int|
            0 <= k < 5 ==> #[trigger] r.spec_weights()[k] as int == spec_pool_weight(
                rates_of(starting_rates),
                spec_pity_step(pity_incr as int),
                focus_charge_active,
                k,
            ),
{
    let f = starting_rates[0] as u64;
    let v = starting_rates[1] as u64;
    let w: [u64; 5];
    if pity_incr >= 24 {
        if focus_charge_active {
            w = [f + v, 0, 0, 0, 0];
        } else {
            w = [f, v, 0, 0, 0];
        }
    } else {
        let r2 = starting_rates[2] as u64;
        let r3 = starting_rates[3] as u64;
        let r4 = starting_rates[4] as u64;
        let s = f + v;
        let t = r2 + r3 + r4;
        let pity = pity_incr as u64;
        proof {
            assert(t * (2 * s + pity) <= 765 * 1044) by (nonlinear_arith)
                requires
                    0 <= t <= 765,
                    0 <= 2 * s + pity <= 1044,
            ;
        }
        let five = t * (2 * s + pity);
        let shrink: u64 = if 2 * t >= pity {
            2 * t - pity
        } else {
            0
        };
        proof {
            assert(s * shrink <= 510 * 1530) by (nonlinear_arith)
                requires
                    0 <= s <= 510,
                    0 <= shrink <= 1530,
            ;
        }
        let shrunk = s * shrink;
        proof {
            assert(f * five <= 255 * 798660 && v * five <= 255 * 798660) by (nonlinear_arith)
                requires
                    f <= 255,
                    v <= 255,
                    0 <= five <= 798660,
            ;
            assert(r2 * shrunk <= 255 * 780300 && r3 * shrunk <= 255 * 780300 && r4 * shrunk <= 255
                * 780300) by (nonlinear_arith)
                requires
                    r2 <= 255,
                    r3 <= 255,
                    r4 <= 255,
                    0 <= shrunk <= 780300,
            ;
        }
        if focus_charge_active {
            w = [f * five + v * five, 0, r2 * shrunk, r3 * shrunk, r4 * shrunk];
        } else {
            w = [f * five, v * five, r2 * shrunk, r3 * shrunk, r4 * shrunk];
        }
    }
    let r = WeightedIndexPool::new(w);
    proof {
        assert forall|k: int| 0 <= k < 5 implies #[trigger] r.spec_weights()[k] as int
            == spec_pool_weight(
            rates_of(starting_rates),
            spec_pity_step(pity_incr as int),
            focus_charge_active,
            k,
        ) by {
            reveal(spec_pool_weight);
            assert(r.spec_weights()[k] == w@[k]);
            assert(rates_of(starting_rates)[k] == starting_rates@[k] as int);
        }
    }
    r
}

/// The pool at position `k` of a per-pool array.
pub open spec fn spec_pool_at(k: int) -> Pool {
    if k == 0 {
        Pool::Focus
    } else if k == 1 {
        Pool::Fivestar
    } else if k == 2 {
        Pool::FourstarFocus
    } else if k == 3 {
        Pool::FourstarSpecial
    } else {
        Pool::Common
    }
}

/// The weights of `d` are the pity- and charge-adjusted pool weights of
/// `banner`.
pub open spec fn pool_weights_match(
    d: WeightedIndexPool,
    banner: GenericBanner,
    pity_step: int,
    charged: bool,
) -> bool {
    forall|k: int|
        0 <= k < 5 ==> (#[trigger] d.spec_weights()[k]) as int == spec_pool_weight(
            banner.spec_rates(),
            pity_step,
            charged,
            k,
        )
}

/// The weights of `d` are the per-color sizes of `pool` on `banner`.
pub open spec fn color_weights_match(
    d: WeightedIndexColor,
    banner: GenericBanner,
    pool: Pool,
) -> bool {
    forall|i: int|
        0 <= i < 4 ==> (#[trigger] d.spec_weights()[i]) as int == banner.spec_pool_sizes(
            pool,
        )[i] as int
}

/// Precomputed, per-banner: the pool sampler of every (pity step, charge
/// flag) pair — 25 steps, charge active first — and one color sampler per
/// pool; built once so the hot loop only indexes by small integers.
pub struct DistributionCache {
    color_dists: Vec<WeightedIndexColor>,
    pool_dists: Vec<WeightedIndexPool>,
    banner: Ghost<GenericBanner>,
}

impl DistributionCache {
    /// The banner this cache was built for.
    pub closed spec fn spec_banner(self) -> GenericBanner {
        self.banner@
    }

    /// Every entry matches the banner's adjusted distribution for its pity
    /// step and charge flag, and every color sampler matches its pool's
    /// sizes.
    #[verifier::opaque]
    pub closed spec fn wf(self) -> bool {
        &&& self.banner@.spec_is_valid()
        &&& self.pool_dists@.len() == 50
        &&& forall|j: int| 0 <= j < 50 ==> (#[trigger] self.pool_dists@[j]).wf()
        &&& forall|j: int|
            0 <= j < 25 ==> pool_weights_match(#[trigger] self.pool_dists@[j], self.banner@, j, true)
        &&& forall|j: int|
            25 <= j < 50 ==> pool_weights_match(
                #[trigger] self.pool_dists@[j],
                self.banner@,
                j - 25,
                false,
            )
        &&& self.color_dists@.len() == 5
        &&& forall|k: int| 0 <= k < 5 ==> (#[trigger] self.color_dists@[k]).wf()
        &&& forall|k: int|
            0 <= k < 5 ==> color_weights_match(
                #[trigger] self.color_dists@[k],
                self.banner@,
                spec_pool_at(k),
            )
    }

    pub fn new(banner: &GenericBanner) -> (r: DistributionCache)
        requires
            banner.spec_is_valid(),
        ensures
            r.wf(),
            r.spec_banner() == *banner,
    {
        let rates = banner.starting_rates();
        let mut pool_dists: Vec<WeightedIndexPool> = Vec::new();
        let mut i: u32 = 0;
        while i <= 24
            invariant
                banner.spec_is_valid(),
                rates@.map_values(|x: u8| x as int) == banner.spec_rates(),
                i <= 25,
                pool_dists@.len() == i,
                forall|j: int| 0 <= j < i ==> (#[trigger] pool_dists@[j]).wf(),
                forall|j: int|
                    0 <= j < i ==> pool_weights_match(
                        #[trigger] pool_dists@[j],
                        *banner,
                        j,
                        true,
                    ),
            decreases 25 - i,
        {
            pool_dists.push(get_pool_dist(rates, i, true));
            i = i + 1;
        }
        let mut i: u32 = 0;
        while i <= 24
            invariant
                banner.spec_is_valid(),
                rates@.map_values(|x: u8| x as int) == banner.spec_rates(),
                i <= 25,
                pool_dists@.len() == 25 + i,
                forall|j: int| 0 <= j < 25 + i ==> (#[trigger] pool_dists@[j]).wf(),
                forall|j: int|
                    0 <= j < 25 ==> pool_weights_match(
                        #[trigger] pool_dists@[j],
                        *banner,
                        j,
                        true,
                    ),
                forall|j: int|
                    25 <= j < 25 + i ==> pool_weights_match(
                        #[trigger] pool_dists@[j],
                        *banner,
                        j - 25,
                        false,
                    ),
            decreases 25 - i,
        {
            pool_dists.push(get_pool_dist(rates, i, false));
            i = i + 1;
        }
        let mut color_dists: Vec<WeightedIndexColor> = Vec::new();
        color_dists.push(get_color_dist(banner.pool_sizes(Pool::Focus)));
        color_dists.push(get_color_dist(banner.pool_sizes(Pool::Fivestar)));
        color_dists.push(get_color_dist(banner.pool_sizes(Pool::FourstarFocus)));
        color_dists.push(get_color_dist(banner.pool_sizes(Pool::FourstarSpecial)));
        color_dists.push(get_color_dist(banner.pool_sizes(Pool::Common)));
        let r = DistributionCache { color_dists, pool_dists, banner: Ghost(*banner) };
        proof {
            reveal(DistributionCache::wf);
            assert forall|k: int| 0 <= k < 5 implies color_weights_match(
                #[trigger] r.color_dists@[k],
                *banner,
                spec_pool_at(k),
            ) by {
                assert(spec_pool_at(0) == Pool::Focus);
                assert(spec_pool_at(1) == Pool::Fivestar);
                assert(spec_pool_at(2) == Pool::FourstarFocus);
                assert(spec_pool_at(3) == Pool::FourstarSpecial);
                assert(spec_pool_at(4) == Pool::Common);
            }
        }
        r
    }

    /// The pool sampler for a pity counter (in 5-step units, capped at 24)
    /// and charge flag. Its total weight is always positive: the focus pool
    /// never has weight zero.
    pub fn get_pool_dist(&self, pity_incr: u32, focus_charge_active: bool) -> (r:
        &WeightedIndexPool)
        requires
            self.wf(),
        ensures
            r.wf(),
            pool_weights_match(
                *r,
                self.spec_banner(),
                spec_pity_step(pity_incr as int),
                focus_charge_active,
            ),
            r.spec_total() >= 1,
    {
        let pity = if pity_incr < 24 {
            pity_incr
        } else {
            24
        };
        let idx: usize = if focus_charge_active {
            pity as usize
        } else {
            pity as usize + 25
        };
        proof {
            reveal(DistributionCache::wf);
        }
        let r = &self.pool_dists[idx];
        proof {
            lemma_valid_banner_rates(self.spec_banner());
            lemma_pool_weight_bounds(
                self.spec_banner().spec_rates(),
                spec_pity_step(pity_incr as int),
                focus_charge_active,
            );
            assert(r.spec_weights()[0] as int == spec_pool_weight(
                self.spec_banner().spec_rates(),
                spec_pity_step(pity_incr as int),
                focus_charge_active,
                0,
            ));
        }
        r
    }

    /// The color sampler of a pool; its weights are the pool's per-color
    /// sizes.
    pub fn get_color_dist(&self, pool: Pool) -> (r: &WeightedIndexColor)
        requires
            self.wf(),
        ensures
            r.wf(),
            color_weights_match(*r, self.spec_banner(), pool),
    {
        proof {
            reveal(DistributionCache::wf);
        }
        let idx = pool.index();
        proof {
            assert(spec_pool_at(pool.as_index()) == pool);
        }
        &self.color_dists[idx]
    }
}

/// Currency cost of the `n`-th pull taken in a five-pull session.
pub open spec fn spec_orb_cost(n: int) -> int {
    if n == 1 {
        5
    } else if n == 5 {
        3
    } else {
        4
    }
}

/// The pity counter after a pull: reset by a focus result, reduced by 20
/// (floored at zero) by an off-focus five-star, otherwise one higher.
pub open spec fn spec_pity_after(pool: Pool, pity: int) -> int {
    match pool {
        Pool::Focus => 0,
        Pool::Fivestar => if pity >= 20 {
            pity - 20
        } else {
            0
        },
        _ => pity + 1,
    }
}

/// The focus-charge counter after a pull: an off-focus five-star adds one
/// (capped at 3); a focus result discharges it exactly when it was full.
pub open spec fn spec_charges_after(pool: Pool, charges: int) -> int {
    match pool {
        Pool::Fivestar => if charges >= 3 {
            3
        } else {
            charges + 1
        },
        Pool::Focus => if charges == 3 {
            0
        } else {
            charges
        },
        _ => charges,
    }
}

/// Per-trial state: total pulls, currency spent, the pity counter in
/// fractional-step units, and the focus-charge counter. Created fresh at
/// trial start, mutated pull by pull, discarded at trial end.
struct Status {
    total_pulled: u32,
    orbs_spent: u32,
    pity_count: u32,
    focus_charges: u32,
}

impl Status {
    /// Apply one taken pull: `session_orb_count` is its position among the
    /// pulls taken this session, which fixes its currency cost.
    fn update(&mut self, pool: Pool, session_orb_count: u32)
        requires
            1 <= session_orb_count <= 5,
            old(self).total_pulled < u32::MAX,
            old(self).orbs_spent + spec_orb_cost(session_orb_count as int) <= u32::MAX,
            old(self).pity_count < u32::MAX,
        ensures
            final(self).total_pulled == old(self).total_pulled + 1,
            final(self).orbs_spent == old(self).orbs_spent + spec_orb_cost(
                session_orb_count as int,
            ),
            final(self).pity_count as int == spec_pity_after(pool, old(self).pity_count as int),
            final(self).focus_charges as int == spec_charges_after(
                pool,
                old(self).focus_charges as int,
            ),
    {
        self.total_pulled = self.total_pulled + 1;
        let cost: u32 = if session_orb_count == 1 {
            5
        } else if session_orb_count == 5 {
            3
        } else {
            4
        };
        self.orbs_spent = self.orbs_spent + cost;

        self.pity_count = match pool {
            Pool::Focus => 0,
            Pool::Fivestar => if self.pity_count >= 20 {
                self.pity_count - 20
            } else {
                0
            },
            _ => self.pity_count + 1,
        };

        self.focus_charges = match pool {
            Pool::Fivestar => if self.focus_charges >= 3 {
                3
            } else {
                self.focus_charges + 1
            },
            Pool::Focus => if self.focus_charges == 3 {
                0
            } else {
                self.focus_charges
            },
            _ => self.focus_charges,
        };
    }
}

/// A pool the sampler can actually return — one of positive adjusted
/// weight — always has at least one unit of some color in it: the focus pool
/// of a valid banner is never empty, the four-star focus pool has weight
/// only while it has units, and the remaining pools have fixed non-empty
/// sizes.
proof fn lemma_sampled_pool_has_units(
    banner: GenericBanner,
    pity_step: int,
    charged: bool,
    k: int,
)
    requires
        banner.spec_is_valid(),
        0 <= k < 5,
        spec_pool_weight(banner.spec_rates(), pity_step, charged, k) > 0,
    ensures
        exists|i: int| 0 <= i < 4 && banner.spec_pool_sizes(spec_pool_at(k))[i] > 0,
{
    reveal(spec_pool_weight);
    let rates = banner.spec_rates();
    if k == 0 {
        assert(!crate::banner::spec_all_zero(banner.focus_sizes));
        let i = choose|i: int| 0 <= i < 4 && banner.focus_sizes@[i] != 0;
        assert(banner.spec_pool_sizes(spec_pool_at(0))[i] > 0);
    } else if k == 1 {
        assert(banner.spec_pool_sizes(spec_pool_at(1))[0] > 0);
    } else if k == 2 {
        if rates[2] == 0 {
            if pity_step < 24 {
                let s = rates[0] + rates[1];
                let t = rates[2] + rates[3] + rates[4];
                let shrink = if 2 * t - pity_step >= 0 {
                    2 * t - pity_step
                } else {
                    0
                };
                assert(rates[2] * (s * shrink) == 0) by (nonlinear_arith)
                    requires
                        rates[2] == 0,
                ;
            }
            assert(false);
        }
        assert(!crate::banner::spec_all_zero(banner.fourstar_focus_sizes));
        let i = choose|i: int| 0 <= i < 4 && banner.fourstar_focus_sizes@[i] != 0;
        assert(banner.spec_pool_sizes(spec_pool_at(2))[i] > 0);
    } else if k == 3 {
        assert(banner.spec_pool_sizes(spec_pool_at(3))[0] > 0);
    } else {
        assert(banner.spec_pool_sizes(spec_pool_at(4))[0] > 0);
    }
}

/// Draw the pool of one pull from the adjusted pool distribution. The drawn
/// pool always has at least one unit of some color in it.
fn pick_pool(
    banner: &GenericBanner,
    cache: &DistributionCache,
    pity_incr: u32,
    charged: bool,
    rng: &mut Xoshiro128Plus,
) -> (p: Pool)
    requires
        banner.spec_is_valid(),
        cache.wf(),
        cache.spec_banner() == *banner,
    ensures
        exists|i: int| 0 <= i < 4 && banner.spec_pool_sizes(p)[i] > 0,
{
    let pool_dist = cache.get_pool_dist(pity_incr, charged);
    let pool = pool_dist.sample(rng);
    proof {
        let k = pool.as_index();
        assert(spec_pool_at(k) == pool);
        assert(spec_pool_weight(
            banner.spec_rates(),
            spec_pity_step(pity_incr as int),
            charged,
            k,
        ) > 0);
        lemma_sampled_pool_has_units(*banner, spec_pity_step(pity_incr as int), charged, k);
    }
    pool
}

/// One draw: a pool from the adjusted pool distribution, then a color from
/// that pool's color distribution. The drawn (pool, color) always has at
/// least one unit in it.
fn draw_pull(
    banner: &GenericBanner,
    cache: &DistributionCache,
    pity_incr: u32,
    charged: bool,
    rng: &mut Xoshiro128Plus,
) -> (r: (Pool, Color))
    requires
        banner.spec_is_valid(),
        cache.wf(),
        cache.spec_banner() == *banner,
    ensures
        banner.spec_pool_sizes(r.0)[r.1.as_index()] > 0,
{
    let pool = pick_pool(banner, cache, pity_incr, charged, rng);
    let color_dist = cache.get_color_dist(pool);
    proof {
        let i = choose|i: int| 0 <= i < 4 && banner.spec_pool_sizes(pool)[i] > 0;
        assert(color_dist.spec_weights()[i] as int == banner.spec_pool_sizes(pool)[i]);
        assert(color_dist.spec_total() >= 1);
    }
    let color = color_dist.sample(rng);
    (pool, color)
}

/// Generate one session: exactly five independent draws from the pool and
/// color distributions fixed by the pity and charge state at session start.
fn make_session(
    banner: &GenericBanner,
    status: &Status,
    rng: &mut Xoshiro128Plus,
    cache: &DistributionCache,
) -> (session: Vec<(Pool, Color)>)
    requires
        banner.spec_is_valid(),
        cache.wf(),
        cache.spec_banner() == *banner,
    ensures
        session@.len() == 5,
        forall|i: int|
            0 <= i < 5 ==> banner.spec_pool_sizes((#[trigger] session@[i]).0)[
                session@[i].1.as_index()] > 0,
{
    let pity_step = status.pity_count / 5;
    let charged = banner.has_charges && status.focus_charges >= 3;
    let mut session: Vec<(Pool, Color)> = Vec::new();
    let mut i: usize = 0;
    while i < 5
        invariant
            banner.spec_is_valid(),
            cache.wf(),
            cache.spec_banner() == *banner,
            session@.len() == i,
            i <= 5,
            forall|j: int|
                0 <= j < i ==> banner.spec_pool_sizes((#[trigger] session@[j]).0)[
                    session@[j].1.as_index()] > 0,
        decreases 5 - i,
    {
        let d = draw_pull(banner, cache, pity_step, charged, rng);
        let ghost before = session@;
        session.push(d);
        proof {
            assert(session@[i as int] == d);
        }
        i = i + 1;
    }
    session
}

/// Upper cutoff on a single trial's spend: a trial that has not met its goal
/// by then is abandoned and its spend recorded as it stands, which keeps
/// every trial finite. Realistic trials end orders of magnitude below it.
pub const TRIAL_ORB_CUTOFF: u32 = 1000000;

/// Run one session of a quantity-goal trial: evaluate the five draws in
/// order, take those whose color the goal still chases (or the fifth draw
/// when nothing else was taken, so every session costs at least one pull),
/// update the trial state per taken pull, and try to satisfy the goal.
///
/// Once 40 cumulative pulls are reached with a spark available and exactly
/// one copy still wanted, the session is cut short so the spark can grant
/// that copy. Returns whether the goal was observed finished, and how many
/// pulls the session took.
fn run_goal_session(
    banner: &GenericBanner,
    goal: &mut UnitCountGoal,
    status: &mut Status,
    has_common_unit: bool,
    rng: &mut Xoshiro128Plus,
    cache: &DistributionCache,
) -> (r: (bool, u32))
    requires
        banner.spec_is_valid(),
        cache.wf(),
        cache.spec_banner() == *banner,
        old(goal).wf(),
        old(status).orbs_spent + 25 <= u32::MAX,
        old(status).total_pulled + 5 <= u32::MAX,
        old(status).pity_count + 5 <= u32::MAX,
    ensures
        final(goal).wf(),
        final(goal).need_all == old(goal).need_all,
        final(goal).units@.len() == old(goal).units@.len(),
        r.1 == final(status).total_pulled - old(status).total_pulled,
        1 <= r.1 <= 5,
        final(status).orbs_spent - old(status).orbs_spent >= 5,
        final(status).orbs_spent - old(status).orbs_spent <= 20,
        final(status).orbs_spent - old(status).orbs_spent <= 5 * r.1,
        final(status).orbs_spent - old(status).orbs_spent >= 3 * r.1,
        final(status).pity_count <= old(status).pity_count + r.1,
        copies_sum(final(goal).units@) <= copies_sum(old(goal).units@),
        r.0 ==> final(goal).spec_finished(),
        (banner.has_spark && copies_sum(old(goal).units@) == 1 && old(status).total_pulled
            <= 39) ==> (final(status).total_pulled <= 40 && (r.0 || copies_sum(
            final(goal).units@,
        ) == 1)),
{
    let ghost start = *status;
    let ghost start_goal = *goal;
    let session = make_session(banner, status, rng, cache);
    let mut num_pulled: u32 = 0;
    let mut fin = false;
    let mut session_done = false;
    let mut i: usize = 0;
    while i < 5 && !session_done
        invariant
            banner.spec_is_valid(),
            cache.wf(),
            cache.spec_banner() == *banner,
            goal.wf(),
            goal.need_all == start_goal.need_all,
            goal.units@.len() == start_goal.units@.len(),
            session@.len() == 5,
            forall|j: int|
                0 <= j < 5 ==> banner.spec_pool_sizes((#[trigger] session@[j]).0)[
                    session@[j].1.as_index()] > 0,
            i <= 5,
            num_pulled <= i,
            i == 5 ==> num_pulled >= 1,
            session_done ==> num_pulled >= 1,
            num_pulled == status.total_pulled - start.total_pulled,
            start.orbs_spent + 25 <= u32::MAX,
            start.total_pulled + 5 <= u32::MAX,
            start.pity_count + 5 <= u32::MAX,
            num_pulled == 0 ==> *status == start,
            status.orbs_spent - start.orbs_spent == (if num_pulled == 0 {
                0int
            } else if num_pulled == 5 {
                20int
            } else {
                4 * num_pulled + 1
            }),
            status.pity_count <= start.pity_count + num_pulled,
            copies_sum(goal.units@) <= copies_sum(start_goal.units@),
            fin ==> goal.spec_finished(),
            fin ==> session_done,
            (banner.has_spark && copies_sum(start_goal.units@) == 1 && start.total_pulled
                <= 39) ==> (status.total_pulled <= 40 && (fin || copies_sum(goal.units@) == 1)
                && (status.total_pulled == 40 ==> session_done)),
        decreases 5 - i,
    {
        let (pool, color) = session[i];
        let take = goal.colors().contains(color) || (num_pulled == 0 && i == 4);
        if take {
            proof {
                if !goal.spec_colors().spec_contains(color) {
                    assert(num_pulled == 0 && i == 4);
                }
            }
            num_pulled = num_pulled + 1;
            status.update(pool, num_pulled);
            if has_common_unit || !(matches!(pool, Pool::Common)) {
                proof {
                    assert(banner.spec_pool_sizes(session@[i as int].0)[
                        session@[i as int].1.as_index()] > 0);
                }
                let sizes = banner.pool_sizes(pool);
                let size = sizes[color.index()];
                let unit_index = rand_below(rng, size as u64) as u8;
                let ghost pre_units = goal.units@;
                goal.pull(pool, color, unit_index);
                proof {
                    let t = spec_pull_target(pre_units, pool, color, unit_index as int);
                    if t is Some {
                        let j = t->Some_0;
                        assert(unit_matches(pre_units[j], pool, color));
                        lemma_copies_sum_decrement(
                            pre_units,
                            j,
                            (UnitGoal {
                                copies: (pre_units[j].copies - 1) as u32,
                                ..pre_units[j]
                            }),
                        );
                        if copies_sum(pre_units) == 1 {
                            lemma_copies_sum_bounds_entry(pre_units, j);
                            assert(copies_sum(goal.units@) == 0);
                            if goal.need_all {
                                assert forall|q: int|
                                    0 <= q < goal.units@.len() implies goal.units@[q].copies
                                    == 0 by {
                                    lemma_copies_sum_bounds_entry(goal.units@, q);
                                    lemma_copies_sum_nonneg(goal.units@);
                                }
                            } else {
                                assert(goal.units@[j].copies == 0);
                            }
                            assert(goal.spec_finished());
                        }
                    }
                }
                if goal.finished() {
                    fin = true;
                    session_done = true;
                }
            }
            if !session_done && banner.has_spark && status.total_pulled == 40 {
                if goal.copies_remaining_is_one() {
                    session_done = true;
                }
            }
        }
        i = i + 1;
    }
    (fin, num_pulled)
}



/// Grant the spark's free acquisition, if any copy is still wanted, and
/// report whether the goal is thereby observed finished. With exactly one
/// copy wanted, the spark always finishes the goal.
fn grant_spark(goal: &mut UnitCountGoal) -> (fin: bool)
    requires
        old(goal).wf(),
    ensures
        final(goal).wf(),
        final(goal).need_all == old(goal).need_all,
        copies_sum(final(goal).units@) <= copies_sum(old(goal).units@),
        fin ==> final(goal).spec_finished(),
        copies_sum(old(goal).units@) == 1 ==> fin,
{
    let ghost pre = goal.units@;
    if goal.is_valid() {
        goal.apply_spark();
        proof {
            let t = spec_spark_target(pre);
            lemma_copies_sum_decrement(
                pre,
                t,
                (UnitGoal { copies: (pre[t].copies - 1) as u32, ..pre[t] }),
            );
            if copies_sum(pre) == 1 {
                lemma_copies_sum_bounds_entry(pre, t);
                assert(copies_sum(goal.units@) == 0);
                if goal.need_all {
                    assert forall|q: int|
                        0 <= q < goal.units@.len() implies goal.units@[q].copies == 0 by {
                        lemma_copies_sum_bounds_entry(goal.units@, q);
                        lemma_copies_sum_nonneg(goal.units@);
                    }
                } else {
                    assert(goal.units@[t].copies == 0);
                }
                assert(goal.spec_finished());
            }
        }
        goal.finished()
    } else {
        proof {
            lemma_copies_sum_nonneg(pre);
            if copies_sum(pre) == 1 {
                lemma_copies_sum_pos_exists(pre);
            }
        }
        goal.finished()
    }
}

/// One quantity-goal trial: run sessions until the goal is finished (or the
/// safety cutoff is reached), granting the spark's free copy in the session
/// that crosses 40 cumulative pulls. The outcome is the currency spent.
///
/// Every trial costs at least one five-unit pull. With a spark available and
/// exactly one copy wanted, the spark bounds the outcome by 200: the trial
/// never spends past the pull that triggers it.
pub fn sim_until_goal(
    banner: &GenericBanner,
    goal: UnitCountGoal,
    rng: &mut Xoshiro128Plus,
    cache: &DistributionCache,
) -> (r: u32)
    requires
        banner.spec_is_valid(),
        cache.wf(),
        cache.spec_banner() == *banner,
        goal.wf(),
    ensures
        r >= 5,
        (banner.has_spark && copies_sum(goal.units@) == 1) ==> r <= 200,
{
    let mut goal = goal;
    let mut status = Status { total_pulled: 0, orbs_spent: 0, pity_count: 0, focus_charges: 0 };
    let has_common_unit = goal.any_common_pool();
    let ghost init = copies_sum(goal.units@);
    let mut done = false;
    while !done && status.orbs_spent < TRIAL_ORB_CUTOFF
        invariant
            banner.spec_is_valid(),
            cache.wf(),
            cache.spec_banner() == *banner,
            goal.wf(),
            status.pity_count <= status.total_pulled,
            status.total_pulled <= status.orbs_spent,
            status.orbs_spent <= TRIAL_ORB_CUTOFF + 20,
            status.orbs_spent <= 5 * status.total_pulled,
            status.total_pulled >= 1 ==> status.orbs_spent >= 5,
            done ==> status.total_pulled >= 1,
            (banner.has_spark && init == 1) ==> (done ==> status.orbs_spent <= 200),
            (banner.has_spark && init == 1) ==> (!done ==> copies_sum(goal.units@) == 1
                && status.total_pulled <= 39),
        decreases TRIAL_ORB_CUTOFF + 20 - status.orbs_spent,
    {
        let (fin, num_pulled) = run_goal_session(
            banner,
            &mut goal,
            &mut status,
            has_common_unit,
            rng,
            cache,
        );
        if fin {
            done = true;
        } else if banner.has_spark && status.total_pulled >= 40 && status.total_pulled
            - num_pulled < 40 {
            if grant_spark(&mut goal) {
                done = true;
            }
        }
    }
    status.orbs_spent
}


/// Run one session of a budget-goal trial: before each draw check that its
/// cost still fits the budget (with a fixed budget), take draws matching the
/// goal's color (or the fifth when none else was taken), and count a match
/// whenever the sampled unit index lands on the tracked unit's slot (index
/// zero). Returns how many pulls the session took, and how many matched.
fn run_budget_session(
    banner: &GenericBanner,
    goal: &BudgetGoal,
    status: &mut Status,
    has_limit: bool,
    limit: u32,
    is_common_unit: bool,
    rng: &mut Xoshiro128Plus,
    cache: &DistributionCache,
) -> (r: (u32, u32))
    requires
        banner.spec_is_valid(),
        cache.wf(),
        cache.spec_banner() == *banner,
        old(status).total_pulled + 5 <= u32::MAX,
        old(status).pity_count + 5 <= u32::MAX,
        has_limit ==> old(status).orbs_spent + 5 <= limit,
        !has_limit ==> old(status).orbs_spent + 25 <= u32::MAX,
    ensures
        r.0 == final(status).total_pulled - old(status).total_pulled,
        1 <= r.0 <= 5,
        r.1 <= r.0,
        final(status).orbs_spent - old(status).orbs_spent >= 5,
        final(status).orbs_spent - old(status).orbs_spent >= 3 * r.0,
        final(status).orbs_spent - old(status).orbs_spent <= 5 * r.0,
        final(status).pity_count <= old(status).pity_count + r.0,
        has_limit ==> final(status).orbs_spent <= limit,
{
    let ghost start = *status;
    let session = make_session(banner, status, rng, cache);
    let mut num_pulled: u32 = 0;
    let mut matched: u32 = 0;
    let mut session_stop = false;
    let mut i: usize = 0;
    while i < 5 && !session_stop
        invariant
            banner.spec_is_valid(),
            cache.wf(),
            cache.spec_banner() == *banner,
            session@.len() == 5,
            forall|j: int|
                0 <= j < 5 ==> banner.spec_pool_sizes((#[trigger] session@[j]).0)[
                    session@[j].1.as_index()] > 0,
            i <= 5,
            num_pulled <= i,
            matched <= num_pulled,
            i == 5 ==> num_pulled >= 1,
            session_stop ==> num_pulled >= 1,
            num_pulled == status.total_pulled - start.total_pulled,
            num_pulled == 0 ==> *status == start,
            start.total_pulled + 5 <= u32::MAX,
            start.pity_count + 5 <= u32::MAX,
            has_limit ==> start.orbs_spent + 5 <= limit,
            !has_limit ==> start.orbs_spent + 25 <= u32::MAX,
            status.orbs_spent - start.orbs_spent == (if num_pulled == 0 {
                0int
            } else if num_pulled == 5 {
                20int
            } else {
                4 * num_pulled + 1
            }),
            status.pity_count <= start.pity_count + num_pulled,
            has_limit ==> status.orbs_spent <= limit,
        decreases 5 - i + (if session_stop {
            0int
        } else {
            1int
        }),
    {
        let (pool, color) = session[i];
        let next_cost: u32 = if num_pulled == 0 {
            5
        } else if num_pulled <= 3 {
            4
        } else {
            3
        };
        if has_limit && status.orbs_spent as u64 + next_cost as u64 > limit as u64 {
            session_stop = true;
        } else {
            if color == goal.color || (num_pulled == 0 && i == 4) {
                num_pulled = num_pulled + 1;
                status.update(pool, num_pulled);
                if (is_common_unit || !(matches!(pool, Pool::Common))) && color == goal.color
                    && goal.pools.contains(pool) {
                    proof {
                        assert(banner.spec_pool_sizes(session@[i as int].0)[
                            session@[i as int].1.as_index()] > 0);
                    }
                    let sizes = banner.pool_sizes(pool);
                    let size = sizes[color.index()];
                    let unit_index = rand_below(rng, size as u64);
                    if unit_index == 0 {
                        matched = matched + 1;
                    }
                }
            }
            i = i + 1;
        }
    }
    (num_pulled, matched)
}

/// One budget-goal trial: run sessions until the fixed budget cannot afford
/// another pull, or — in "until spark" mode — until the spark triggers,
/// counting pulls that land the tracked unit. The spark itself always lands
/// a usable result. The outcome is the match count.
///
/// Each match needs a pull costing at least 3, so a fixed budget bounds the
/// outcome; a run until the spark always counts at least the spark itself.
pub fn sim_orb_budget(
    banner: &GenericBanner,
    goal: &BudgetGoal,
    rng: &mut Xoshiro128Plus,
    cache: &DistributionCache,
) -> (r: u32)
    requires
        banner.spec_is_valid(),
        cache.wf(),
        cache.spec_banner() == *banner,
        goal.spec_is_valid(*banner),
    ensures
        match goal.limit {
            BudgetGoalLimit::OrbCount(n) => 3 * r as int <= n as int + 3 && ((banner.has_spark
                && n >= 200) ==> r >= 1),
            BudgetGoalLimit::UntilSpark => r >= 1,
        },
{
    let mut status = Status { total_pulled: 0, orbs_spent: 0, pity_count: 0, focus_charges: 0 };
    let mut match_count: u32 = 0;
    let has_limit: bool;
    let limit: u32;
    match goal.limit {
        BudgetGoalLimit::OrbCount(n) => {
            has_limit = true;
            limit = n;
        },
        BudgetGoalLimit::UntilSpark => {
            has_limit = false;
            limit = 0;
        },
    }
    let is_common_unit = goal.pools.contains(Pool::Common);
    let mut done = false;
    let ghost mut spark_used = false;
    while !done && (!has_limit || status.orbs_spent as u64 + 5 <= limit as u64)
        invariant
            banner.spec_is_valid(),
            cache.wf(),
            cache.spec_banner() == *banner,
            has_limit ==> goal.limit == BudgetGoalLimit::OrbCount(limit),
            !has_limit ==> goal.limit == BudgetGoalLimit::UntilSpark,
            goal.spec_is_valid(*banner),
            status.pity_count <= status.total_pulled,
            3 * status.total_pulled as int <= status.orbs_spent as int,
            status.orbs_spent <= 5 * status.total_pulled,
            has_limit ==> status.orbs_spent <= limit,
            !has_limit ==> status.orbs_spent <= 220,
            !has_limit ==> status.total_pulled <= 44,
            !has_limit ==> banner.has_spark,
            banner.has_spark ==> (spark_used || status.total_pulled <= 39),
            spark_used ==> banner.has_spark && status.total_pulled >= 40 && match_count >= 1,
            !has_limit ==> done == spark_used,
            has_limit ==> !done,
            match_count as int <= status.total_pulled as int + (if spark_used {
                1int
            } else {
                0int
            }),
        decreases (if has_limit {
            limit as int + 5 - status.orbs_spent as int
        } else {
            44 - status.total_pulled as int
        }),
    {
        let (num, matched) = run_budget_session(
            banner,
            goal,
            &mut status,
            has_limit,
            limit,
            is_common_unit,
            rng,
            cache,
        );
        match_count = match_count + matched;
        if banner.has_spark && status.total_pulled >= 40 && status.total_pulled - num < 40 {
            match_count = match_count + 1;
            proof {
                spark_used = true;
            }
            if !has_limit {
                done = true;
            }
        }
    }
    proof {
        if has_limit && banner.has_spark && limit >= 200 {
            assert(status.orbs_spent as int + 5 > limit as int);
            assert(5 * status.total_pulled as int >= 196);
            assert(status.total_pulled >= 40);
            assert(spark_used);
        }
    }
    match_count
}


/// Run `iters` independent quantity-goal trials and fold the spent-currency
/// outcomes into one histogram. The histogram records exactly `iters`
/// outcomes, none cheaper than one five-unit pull; with a spark available
/// and exactly one copy wanted, no outcome lies past index 200.
pub fn sim_until_goal_many(
    banner: &GenericBanner,
    goal: &UnitCountGoal,
    iters: u32,
    rng: &mut Xoshiro128Plus,
) -> (r: FrequencyCounter)
    requires
        banner.spec_is_valid(),
        goal.wf(),
        copies_sum(goal.units@) >= 1,
    ensures
        total(r@) == iters as int,
        forall|k: int| 0 <= k < 5 ==> entry(r@, k) == 0,
        (banner.has_spark && copies_sum(goal.units@) == 1) ==> r@.len() <= 201,
{
    let mut counter = FrequencyCounter::new();
    let cache = DistributionCache::new(banner);
    let mut k: u32 = 0;
    while k < iters
        invariant
            banner.spec_is_valid(),
            cache.wf(),
            cache.spec_banner() == *banner,
            goal.wf(),
            copies_sum(goal.units@) >= 1,
            k <= iters,
            total(counter@) == k as int,
            forall|j: int| 0 <= j < 5 ==> entry(counter@, j) == 0,
            (banner.has_spark && copies_sum(goal.units@) == 1) ==> counter@.len() <= 201,
        decreases iters - k,
    {
        let trial_goal = goal.duplicate();
        let result = sim_until_goal(banner, trial_goal, rng, &cache);
        let ghost before = counter@;
        proof {
            lemma_counter_entry_le_total(counter, result as int);
        }
        counter.increment(result);
        proof {
            lemma_total_combined(before, unit_count(result as int));
            lemma_total_unit(result as int);
            assert forall|j: int| 0 <= j < 5 implies entry(counter@, j) == 0 by {
                assert(entry(unit_count(result as int), j) == 0);
            }
        }
        k = k + 1;
    }
    counter
}

/// Run `iters` independent budget-goal trials and fold the match-count
/// outcomes into one histogram recording exactly `iters` outcomes. A fixed
/// budget bounds every outcome, so also the histogram's width; a run until
/// the spark always counts at least the spark itself, so outcome zero is
/// never recorded.
pub fn sim_orb_budget_many(
    banner: &GenericBanner,
    goal: &BudgetGoal,
    iters: u32,
    rng: &mut Xoshiro128Plus,
) -> (r: FrequencyCounter)
    requires
        banner.spec_is_valid(),
        goal.spec_is_valid(*banner),
    ensures
        total(r@) == iters as int,
        match goal.limit {
            BudgetGoalLimit::OrbCount(n) => r@.len() as int <= n as int / 3 + 2 && ((
            banner.has_spark && n >= 200) ==> entry(r@, 0) == 0),
            BudgetGoalLimit::UntilSpark => entry(r@, 0) == 0,
        },
{
    let mut counter = FrequencyCounter::new();
    let cache = DistributionCache::new(banner);
    let mut k: u32 = 0;
    while k < iters
        invariant
            banner.spec_is_valid(),
            cache.wf(),
            cache.spec_banner() == *banner,
            goal.spec_is_valid(*banner),
            k <= iters,
            total(counter@) == k as int,
            match goal.limit {
                BudgetGoalLimit::OrbCount(n) => counter@.len() as int <= n as int / 3 + 2 && ((
                banner.has_spark && n >= 200) ==> entry(counter@, 0) == 0),
                BudgetGoalLimit::UntilSpark => entry(counter@, 0) == 0,
            },
        decreases iters - k,
    {
        let result = sim_orb_budget(banner, goal, rng, &cache);
        let ghost before = counter@;
        proof {
            lemma_counter_entry_le_total(counter, result as int);
        }
        counter.increment(result);
        proof {
            lemma_total_combined(before, unit_count(result as int));
            lemma_total_unit(result as int);
            if result >= 1 {
                assert(entry(unit_count(result as int), 0) == 0);
            }
        }
        k = k + 1;
    }
    counter
}

/// The same request: equal budget goals, or quantity goals with the same
/// entries and the same all-or-any rule. The active-color cache, which `Sim`
/// recomputes on intake, is left out of the comparison.
pub open spec fn spec_same_goal(a: Goal, b: Goal) -> bool {
    match (a, b) {
        (Goal::Quantity(x), Goal::Quantity(y)) => x.units@ == y.units@ && x.need_all
            == y.need_all,
        (Goal::OrbBudget(x), Goal::OrbBudget(y)) => x == y,
        _ => false,
    }
}

/// A banner, a goal, and the running histogram of every trial run so far.
/// Batches can be run repeatedly and the caller may stop, or read partial
/// results, between batches.
pub struct Sim {
    banner: GenericBanner,
    goal: Goal,
    data: FrequencyCounter,
    rng: Xoshiro128Plus,
}

impl Sim {
    /// The histogram accumulated so far.
    pub closed spec fn spec_data(self) -> Seq<int> {
        self.data@
    }

    /// The banner the trials run against.
    pub closed spec fn spec_banner(self) -> GenericBanner {
        self.banner
    }

    /// The goal the trials chase.
    pub closed spec fn spec_goal(self) -> Goal {
        self.goal
    }

    /// The banner and goal are valid, and a quantity goal's color cache is
    /// consistent.
    pub closed spec fn inv(self) -> bool {
        &&& self.banner.spec_is_valid()
        &&& self.goal.spec_is_valid(self.banner)
        &&& match self.goal {
            Goal::Quantity(g) => g.wf(),
            Goal::OrbBudget(_) => true,
        }
    }

    /// Start a run with an entropy-seeded generator.
    pub fn new(banner: GenericBanner, goal: Goal) -> (r: Sim)
        requires
            banner.spec_is_valid(),
            goal.spec_is_valid(banner),
        ensures
            r.inv(),
            r.spec_banner() == banner,
            spec_same_goal(r.spec_goal(), goal),
            r.spec_data().len() == 0,
            total(r.spec_data()) == 0,
    {
        Sim::new_seeded(banner, goal, random_seed())
    }

    /// Start a run with a fixed seed, so that the whole run is
    /// deterministic.
    pub fn new_seeded(banner: GenericBanner, goal: Goal, seed: u64) -> (r: Sim)
        requires
            banner.spec_is_valid(),
            goal.spec_is_valid(banner),
        ensures
            r.inv(),
            r.spec_banner() == banner,
            spec_same_goal(r.spec_goal(), goal),
            r.spec_data().len() == 0,
            total(r.spec_data()) == 0,
    {
        let goal = match &goal {
            Goal::Quantity(g) => Goal::Quantity(g.duplicate()),
            Goal::OrbBudget(b) => Goal::OrbBudget(*b),
        };
        Sim { banner, goal, data: FrequencyCounter::new(), rng: rng_from_seed(seed) }
    }

    /// Run one batch of `iters` independent trials and fold their outcomes
    /// into the running histogram, whose total grows by exactly `iters`.
    pub fn sim(&mut self, iters: u32)
        requires
            old(self).inv(),
            total(old(self).spec_data()) + iters <= u32::MAX,
        ensures
            final(self).inv(),
            final(self).spec_banner() == old(self).spec_banner(),
            final(self).spec_goal() == old(self).spec_goal(),
            total(final(self).spec_data()) == total(old(self).spec_data()) + iters,
    {
        let new_data = match &self.goal {
            Goal::Quantity(goal) => {
                proof {
                    let j = choose|j: int|
                        0 <= j < goal.units@.len() && goal.units@[j].copies > 0;
                    lemma_copies_sum_bounds_entry(goal.units@, j);
                }
                sim_until_goal_many(&self.banner, goal, iters, &mut self.rng)
            },
            Goal::OrbBudget(goal) => sim_orb_budget_many(&self.banner, goal, iters, &mut self.rng),
        };
        let ghost a = self.data@;
        let ghost b = new_data@;
        proof {
            assert forall|i: int| 0 <= i implies entry(a, i) + entry(b, i) <= u32::MAX by {
                lemma_counter_entry_le_total(self.data, i);
                lemma_counter_entry_le_total(new_data, i);
            }
        }
        self.data.combine(new_data);
        proof {
            lemma_total_combined(a, b);
        }
    }

    /// The running histogram, possibly partial.
    pub fn data(&self) -> (d: &FrequencyCounter)
        ensures
            d@ == self.spec_data(),
    {
        &self.data
    }

    /// Finish the run, keeping only the histogram.
    pub fn into_data(self) -> (d: FrequencyCounter)
        ensures
            d@ == self.spec_data(),
    {
        self.data
    }
}

} // verus!
