//! O(1) categorical samplers over integer weight vectors: cumulative
//! thresholds are precomputed once, and each draw maps one uniform value to a
//! category by a fixed number of comparisons, without allocating.

use vstd::prelude::*;

use rand_xoshiro::Xoshiro128Plus;

use crate::rng::rand_below;
use crate::types::{Color, Pool};

verus! {

/// A sampler over the four colors, weighted by a per-color weight vector.
pub struct WeightedIndexColor {
    weights: [u64; 4],
    thresholds: [u64; 3],
    total: u64,
}

impl WeightedIndexColor {
    /// The weight vector the sampler was built from.
    pub closed spec fn spec_weights(self) -> Seq<u64> {
        self.weights@
    }

    /// The sum of all weights.
    pub open spec fn spec_total(self) -> int {
        self.spec_weights()[0] + self.spec_weights()[1] + self.spec_weights()[2]
            + self.spec_weights()[3]
    }

    /// The thresholds are the running sums of the weights.
    pub closed spec fn wf(self) -> bool {
        &&& self.thresholds@[0] == self.weights@[0]
        &&& self.thresholds@[1] == self.weights@[0] + self.weights@[1]
        &&& self.thresholds@[2] == self.weights@[0] + self.weights@[1] + self.weights@[2]
        &&& self.total == self.weights@[0] + self.weights@[1] + self.weights@[2]
            + self.weights@[3]
    }

    pub fn new(weights: [u64; 4]) -> (r: WeightedIndexColor)
        requires
            weights@[0] + weights@[1] + weights@[2] + weights@[3] <= u64::MAX,
        ensures
            r.wf(),
            r.spec_weights() == weights@,
    {
        let t0 = weights[0];
        let t1 = t0 + weights[1];
        let t2 = t1 + weights[2];
        let total = t2 + weights[3];
        WeightedIndexColor { weights, thresholds: [t0, t1, t2], total }
    }

    /// The category a drawn value maps to: the color `c` whose cumulative
    /// weight band holds `choice`. A draw at or past the last threshold maps
    /// to the final category.
    pub open spec fn spec_category(self, choice: int) -> Color {
        if choice < self.spec_weights()[0] {
            Color::Red
        } else if choice < self.spec_weights()[0] + self.spec_weights()[1] {
            Color::Blue
        } else if choice < self.spec_weights()[0] + self.spec_weights()[1]
            + self.spec_weights()[2] {
            Color::Green
        } else {
            Color::Colorless
        }
    }

    /// Map one drawn value to its color by branching bisection over the
    /// precomputed thresholds: exactly the category whose band holds the
    /// value, and — for a value below the total — one of positive weight.
    pub fn category(&self, choice: u64) -> (c: Color)
        requires
            self.wf(),
        ensures
            c == self.spec_category(choice as int),
            choice < self.spec_total() ==> self.spec_weights()[c.as_index()] > 0,
    {
        if choice < self.thresholds[1] {
            if choice < self.thresholds[0] {
                Color::Red
            } else {
                Color::Blue
            }
        } else if choice < self.thresholds[2] {
            Color::Green
        } else {
            Color::Colorless
        }
    }

    /// Draw one color: one uniform value below the total weight, mapped
    /// through `category`. The result always has positive weight.
    pub fn sample(&self, rng: &mut Xoshiro128Plus) -> (c: Color)
        requires
            self.wf(),
            self.spec_total() >= 1,
        ensures
            self.spec_weights()[c.as_index()] > 0,
            exists|v: int| 0 <= v < self.spec_total() && c == self.spec_category(v),
    {
        let choice = rand_below(rng, self.total);
        let c = self.category(choice);
        proof {
            assert(c == self.spec_category(choice as int));
        }
        c
    }
}

/// A sampler over the five pools, weighted by a per-pool weight vector.
pub struct WeightedIndexPool {
    weights: [u64; 5],
    thresholds: [u64; 4],
    total: u64,
}

impl WeightedIndexPool {
    /// The weight vector the sampler was built from.
    pub closed spec fn spec_weights(self) -> Seq<u64> {
        self.weights@
    }

    /// The sum of all weights.
    pub open spec fn spec_total(self) -> int {
        self.spec_weights()[0] + self.spec_weights()[1] + self.spec_weights()[2]
            + self.spec_weights()[3] + self.spec_weights()[4]
    }

    /// The thresholds are the running sums of the weights.
    pub closed spec fn wf(self) -> bool {
        &&& self.thresholds@[0] == self.weights@[0]
        &&& self.thresholds@[1] == self.weights@[0] + self.weights@[1]
        &&& self.thresholds@[2] == self.weights@[0] + self.weights@[1] + self.weights@[2]
        &&& self.thresholds@[3] == self.weights@[0] + self.weights@[1] + self.weights@[2]
            + self.weights@[3]
        &&& self.total == self.weights@[0] + self.weights@[1] + self.weights@[2]
            + self.weights@[3] + self.weights@[4]
    }

    pub fn new(weights: [u64; 5]) -> (r: WeightedIndexPool)
        requires
            weights@[0] + weights@[1] + weights@[2] + weights@[3] + weights@[4] <= u64::MAX,
        ensures
            r.wf(),
            r.spec_weights() == weights@,
    {
        let t0 = weights[0];
        let t1 = t0 + weights[1];
        let t2 = t1 + weights[2];
        let t3 = t2 + weights[3];
        let total = t3 + weights[4];
        WeightedIndexPool { weights, thresholds: [t0, t1, t2, t3], total }
    }

    /// The category a drawn value maps to: the pool `p` whose cumulative
    /// weight band holds `choice`. A draw at or past the last threshold maps
    /// to the final category.
    pub open spec fn spec_category(self, choice: int) -> Pool {
        if choice >= self.spec_weights()[0] + self.spec_weights()[1] + self.spec_weights()[2]
            + self.spec_weights()[3] {
            Pool::Common
        } else if choice < self.spec_weights()[0] {
            Pool::Focus
        } else if choice < self.spec_weights()[0] + self.spec_weights()[1] {
            Pool::Fivestar
        } else if choice < self.spec_weights()[0] + self.spec_weights()[1]
            + self.spec_weights()[2] {
            Pool::FourstarFocus
        } else {
            Pool::FourstarSpecial
        }
    }

    /// Map one drawn value to its pool by branching bisection over the
    /// precomputed thresholds: exactly the category whose band holds the
    /// value, and — for a value below the total — one of positive weight.
    pub fn category(&self, choice: u64) -> (p: Pool)
        requires
            self.wf(),
        ensures
            p == self.spec_category(choice as int),
            choice < self.spec_total() ==> self.spec_weights()[p.as_index()] > 0,
    {
        if choice >= self.thresholds[3] {
            Pool::Common
        } else if choice < self.thresholds[1] {
            if choice < self.thresholds[0] {
                Pool::Focus
            } else {
                Pool::Fivestar
            }
        } else if choice < self.thresholds[2] {
            Pool::FourstarFocus
        } else {
            Pool::FourstarSpecial
        }
    }

    /// Draw one pool: one uniform value below the total weight, mapped
    /// through `category`. The result always has positive weight.
    pub fn sample(&self, rng: &mut Xoshiro128Plus) -> (p: Pool)
        requires
            self.wf(),
            self.spec_total() >= 1,
        ensures
            self.spec_weights()[p.as_index()] > 0,
            exists|v: int| 0 <= v < self.spec_total() && p == self.spec_category(v),
    {
        let choice = rand_below(rng, self.total);
        let p = self.category(choice);
        proof {
            assert(p == self.spec_category(choice as int));
        }
        p
    }
}

} // verus!
