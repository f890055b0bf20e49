//! Statistical engine for estimating the cost distribution of reaching a
//! collection goal on a gacha-style reward banner with pity, focus-charge and
//! spark mechanics.
//!
//! The engine is pure between calls: a caller supplies a banner configuration
//! and a goal, runs batches of independent random trials, and folds the
//! integer outcomes (currency spent, or matching pulls) into a dense
//! histogram.

pub mod banner;
pub mod frequency_counter;
pub mod goal;
pub mod rng;
pub mod sim;
pub mod types;
pub mod weightedindex;
