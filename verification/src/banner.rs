//! The banner model: a single banner's draw-rate configuration and pool
//! sizes, the derived five-way rate vector, and configuration validation.

use vstd::prelude::*;

use crate::types::Pool;

verus! {

/// A banner's draw configuration.
///
/// `starting_rates` holds the focus five-star and off-focus five-star
/// percentages. `focus_sizes` and `fourstar_focus_sizes` give the per-color
/// cardinality of the two caller-configurable pools; the remaining three
/// pools have fixed, engine-constant sizes. `has_spark` grants one free
/// caller-chosen acquisition once 40 cumulative pulls have been made, and
/// `has_charges` enables the focus-charge mechanic.
#[derive(Clone, Copy, Debug)]
pub struct GenericBanner {
    pub starting_rates: (u8, u8),
    pub focus_sizes: [u8; 4],
    pub fourstar_focus_sizes: [u8; 4],
    pub has_spark: bool,
    pub has_charges: bool,
}

/// True when every per-color count in `sizes` is zero.
pub open spec fn spec_all_zero(sizes: [u8; 4]) -> bool {
    forall|i: int| 0 <= i < 4 ==> sizes@[i] == 0
}

/// The fixed per-color sizes of the off-focus five-star pool.
pub open spec fn fivestar_pool_sizes() -> Seq<u8> {
    seq![29u8, 29u8, 20u8, 16u8]
}

/// The fixed per-color sizes of the four-star special pool.
pub open spec fn fourstar_special_pool_sizes() -> Seq<u8> {
    seq![62u8, 41u8, 36u8, 28u8]
}

/// The fixed per-color sizes of the common pool.
pub open spec fn common_pool_sizes() -> Seq<u8> {
    seq![41u8, 44u8, 35u8, 44u8]
}

impl GenericBanner {
    /// The four-star focus rate: a fixed 3 percent whenever any four-star
    /// focus slot is non-empty, otherwise 0.
    pub open spec fn spec_fourstar_focus_rate(self) -> int {
        if spec_all_zero(self.fourstar_focus_sizes) {
            0
        } else {
            3
        }
    }

    /// The derived five-way rate vector, as percentages. The four-star
    /// special rate is a fixed 3 percent and the common pool absorbs the
    /// remainder.
    pub open spec fn spec_rates(self) -> Seq<int> {
        let f = self.starting_rates.0 as int;
        let v = self.starting_rates.1 as int;
        let ff = self.spec_fourstar_focus_rate();
        seq![f, v, ff, 3, 100 - f - v - ff - 3]
    }

    /// A banner is valid when the focus rate is positive, the five-way rate
    /// vector does not overflow 100 percent (so the common remainder is
    /// non-negative), the focus pool is not entirely empty, and no color has
    /// more four-star focus units than focus units.
    pub open spec fn spec_is_valid(self) -> bool {
        &&& self.starting_rates.0 >= 1
        &&& self.starting_rates.0 as int + self.starting_rates.1 as int
            + self.spec_fourstar_focus_rate() + 3 <= 100
        &&& !spec_all_zero(self.focus_sizes)
        &&& forall|i: int|
            0 <= i < 4 ==> self.fourstar_focus_sizes@[i] <= self.focus_sizes@[i]
    }

    /// The per-color sizes of a pool: the two focus pools come from the
    /// caller-supplied arrays, the other three are engine constants.
    pub open spec fn spec_pool_sizes(self, pool: Pool) -> Seq<u8> {
        match pool {
            Pool::Focus => self.focus_sizes@,
            Pool::Fivestar => fivestar_pool_sizes(),
            Pool::FourstarFocus => self.fourstar_focus_sizes@,
            Pool::FourstarSpecial => fourstar_special_pool_sizes(),
            Pool::Common => common_pool_sizes(),
        }
    }

    pub fn pool_sizes(&self, pool: Pool) -> (r: [u8; 4])
        ensures
            r@ == self.spec_pool_sizes(pool),
    {
        let r = match pool {
            Pool::Focus => self.focus_sizes,
            Pool::Fivestar => [29u8, 29u8, 20u8, 16u8],
            Pool::FourstarFocus => self.fourstar_focus_sizes,
            Pool::FourstarSpecial => [62u8, 41u8, 36u8, 28u8],
            Pool::Common => [41u8, 44u8, 35u8, 44u8],
        };
        proof {
            assert(r@ =~= self.spec_pool_sizes(pool));
        }
        r
    }

    fn fourstar_focus_rate(&self) -> (r: u8)
        ensures
            r as int == self.spec_fourstar_focus_rate(),
    {
        if self.fourstar_focus_sizes[0] == 0 && self.fourstar_focus_sizes[1] == 0
            && self.fourstar_focus_sizes[2] == 0 && self.fourstar_focus_sizes[3] == 0 {
            0
        } else {
            3
        }
    }

    /// The five-way rate vector of a valid banner. It always sums to exactly
    /// 100 percent.
    pub fn starting_rates(&self) -> (r: [u8; 5])
        requires
            self.spec_is_valid(),
        ensures
            r@.map_values(|x: u8| x as int) == self.spec_rates(),
            r@[0] as int + r@[1] as int + r@[2] as int + r@[3] as int + r@[4] as int == 100,
            r@[0] >= 1,
    {
        let focus_rate = self.starting_rates.0;
        let fivestar_rate = self.starting_rates.1;
        let fourstar_focus_rate = self.fourstar_focus_rate();
        let fourstar_special_rate: u8 = 3;
        let common_rate: u8 =
            100 - focus_rate - fivestar_rate - fourstar_focus_rate - fourstar_special_rate;
        let r = [focus_rate, fivestar_rate, fourstar_focus_rate, fourstar_special_rate, common_rate];
        proof {
            assert(r@.map_values(|x: u8| x as int) =~= self.spec_rates());
        }
        r
    }

    pub fn is_valid(&self) -> (r: bool)
        ensures
            r == self.spec_is_valid(),
    {
        if self.starting_rates.0 == 0 {
            return false;
        }
        let fourstar_focus_rate = self.fourstar_focus_rate();
        if self.starting_rates.0 as u32 + self.starting_rates.1 as u32
            + fourstar_focus_rate as u32 + 3 > 100 {
            return false;
        }
        if self.focus_sizes[0] == 0 && self.focus_sizes[1] == 0 && self.focus_sizes[2] == 0
            && self.focus_sizes[3] == 0 {
            return false;
        }
        let mut i: usize = 0;
        while i < 4
            invariant
                i <= 4,
                forall|j: int| 0 <= j < i ==> self.fourstar_focus_sizes@[j] <= self.focus_sizes@[j],
            decreases 4 - i,
        {
            if self.fourstar_focus_sizes[i] > self.focus_sizes[i] {
                return false;
            }
            i = i + 1;
        }
        true
    }
}

/// The banner presets a caller can pick from; each converts into a
/// `GenericBanner`.
#[derive(Clone, Copy, Debug)]
pub enum StandardBanner {
    Standard { focus: [u8; 4] },
    NewHeroes { focus: [u8; 4], fourstar_focus: [u8; 4] },
    NewSeasonal { focus: [u8; 4], fourstar_focus: [u8; 4] },
    WeeklyRevival { focus: [u8; 4] },
    Legendary,
    HeroFest,
    LegendaryRemix,
    DoubleSpecial { fourstar_focus: [u8; 4] },
}

impl StandardBanner {
    /// The banner configuration each preset stands for.
    pub open spec fn spec_as_generic_banner(self, has_feh_pass: bool) -> GenericBanner {
        match self {
            StandardBanner::Standard { focus } => GenericBanner {
                starting_rates: (3, 3),
                focus_sizes: focus,
                fourstar_focus_sizes: [0u8, 0u8, 0u8, 0u8],
                has_spark: false,
                has_charges: true,
            },
            StandardBanner::NewHeroes { focus, fourstar_focus } => GenericBanner {
                starting_rates: (3, 3),
                focus_sizes: focus,
                fourstar_focus_sizes: fourstar_focus,
                has_spark: true,
                has_charges: true,
            },
            StandardBanner::NewSeasonal { focus, fourstar_focus } => GenericBanner {
                starting_rates: (3, 3),
                focus_sizes: focus,
                fourstar_focus_sizes: fourstar_focus,
                has_spark: has_feh_pass,
                has_charges: has_feh_pass,
            },
            StandardBanner::WeeklyRevival { focus } => GenericBanner {
                starting_rates: (4, 2),
                focus_sizes: focus,
                fourstar_focus_sizes: [0u8, 0u8, 0u8, 0u8],
                has_spark: false,
                has_charges: true,
            },
            StandardBanner::Legendary => GenericBanner {
                starting_rates: (8, 0),
                focus_sizes: [3u8, 3u8, 3u8, 3u8],
                fourstar_focus_sizes: [0u8, 0u8, 0u8, 0u8],
                has_spark: has_feh_pass,
                has_charges: false,
            },
            StandardBanner::HeroFest => GenericBanner {
                starting_rates: (5, 3),
                focus_sizes: [1u8, 1u8, 1u8, 1u8],
                fourstar_focus_sizes: [0u8, 0u8, 0u8, 0u8],
                has_spark: has_feh_pass,
                has_charges: has_feh_pass,
            },
            StandardBanner::LegendaryRemix => GenericBanner {
                starting_rates: (6, 0),
                focus_sizes: [2u8, 2u8, 2u8, 2u8],
                fourstar_focus_sizes: [0u8, 0u8, 0u8, 0u8],
                has_spark: true,
                has_charges: false,
            },
            StandardBanner::DoubleSpecial { fourstar_focus } => GenericBanner {
                starting_rates: (6, 0),
                focus_sizes: [2u8, 2u8, 2u8, 2u8],
                fourstar_focus_sizes: fourstar_focus,
                has_spark: false,
                has_charges: false,
            },
        }
    }

    pub fn as_generic_banner(&self, has_feh_pass: bool) -> (r: GenericBanner)
        ensures
            r == self.spec_as_generic_banner(has_feh_pass),
    {
        match *self {
            StandardBanner::Standard { focus } => GenericBanner {
                starting_rates: (3, 3),
                focus_sizes: focus,
                fourstar_focus_sizes: [0u8, 0u8, 0u8, 0u8],
                has_spark: false,
                has_charges: true,
            },
            StandardBanner::NewHeroes { focus, fourstar_focus } => GenericBanner {
                starting_rates: (3, 3),
                focus_sizes: focus,
                fourstar_focus_sizes: fourstar_focus,
                has_spark: true,
                has_charges: true,
            },
            StandardBanner::NewSeasonal { focus, fourstar_focus } => GenericBanner {
                starting_rates: (3, 3),
                focus_sizes: focus,
                fourstar_focus_sizes: fourstar_focus,
                has_spark: has_feh_pass,
                has_charges: has_feh_pass,
            },
            StandardBanner::WeeklyRevival { focus } => GenericBanner {
                starting_rates: (4, 2),
                focus_sizes: focus,
                fourstar_focus_sizes: [0u8, 0u8, 0u8, 0u8],
                has_spark: false,
                has_charges: true,
            },
            StandardBanner::Legendary => GenericBanner {
                starting_rates: (8, 0),
                focus_sizes: [3u8, 3u8, 3u8, 3u8],
                fourstar_focus_sizes: [0u8, 0u8, 0u8, 0u8],
                has_spark: has_feh_pass,
                has_charges: false,
            },
            StandardBanner::HeroFest => GenericBanner {
                starting_rates: (5, 3),
                focus_sizes: [1u8, 1u8, 1u8, 1u8],
                fourstar_focus_sizes: [0u8, 0u8, 0u8, 0u8],
                has_spark: has_feh_pass,
                has_charges: has_feh_pass,
            },
            StandardBanner::LegendaryRemix => GenericBanner {
                starting_rates: (6, 0),
                focus_sizes: [2u8, 2u8, 2u8, 2u8],
                fourstar_focus_sizes: [0u8, 0u8, 0u8, 0u8],
                has_spark: true,
                has_charges: false,
            },
            StandardBanner::DoubleSpecial { fourstar_focus } => GenericBanner {
                starting_rates: (6, 0),
                focus_sizes: [2u8, 2u8, 2u8, 2u8],
                fourstar_focus_sizes: fourstar_focus,
                has_spark: false,
                has_charges: false,
            },
        }
    }
}

} // verus!
