//! The source of chance: real dice that draw from the thread-local random
//! generator, or loaded dice whose every roll is fixed in advance.

use rand::seq::SliceRandom;
use rand::Rng;
use vstd::prelude::*;

verus! {

/// Where the game's rolls come from.
#[derive(Clone, Copy, Debug, PartialEq, Eq, Structural)]
pub enum Dice {
    /// Every roll is drawn from the thread-local random generator.
    Random,
    /// Every roll is decided beforehand: a chance roll that could go either
    /// way gives `hit`, a roll in a range gives the value of the range
    /// nearest to `roll`, and a pick among items takes the item at the index
    /// nearest to `roll`.
    Loaded { hit: bool, roll: u32 },
}

/// The value between `low` and `high` that is nearest to `value`.
pub open spec fn clamp(value: int, low: int, high: int) -> int {
    if value < low {
        low
    } else if value > high {
        high
    } else {
        value
    }
}

/// What a chance roll of `numerator` in `denominator` gives with loaded
/// dice: a certain outcome stays certain, any other is the forced one.
pub open spec fn loaded_chance(hit: bool, numerator: u32, denominator: u32) -> bool {
    if numerator == 0 {
        false
    } else if numerator == denominator {
        true
    } else {
        hit
    }
}

/// Calls `rand::Rng::gen_ratio` on `rand::thread_rng()`. The outcome is
/// random; `gen_ratio` documents that it is `false` when the numerator is 0
/// and `true` when numerator and denominator are equal, and that it panics
/// on a zero denominator or a numerator above the denominator.
#[verifier::external_body]
fn random_ratio(numerator: u32, denominator: u32) -> (hit: bool)
    requires
        denominator > 0,
        numerator <= denominator,
    ensures
        numerator == 0 ==> !hit,
        numerator == denominator ==> hit,
{
    rand::thread_rng().gen_ratio(numerator, denominator)
}

/// Calls `rand::Rng::gen_range` on `rand::thread_rng()` with the closed
/// range from `low` to `high`. The outcome is random within the range;
/// `gen_range` panics on an empty range.
#[verifier::external_body]
fn random_range(low: u32, high: u32) -> (r: u32)
    requires
        low <= high,
    ensures
        low <= r <= high,
{
    rand::thread_rng().gen_range(low..=high)
}

/// Calls `rand::seq::SliceRandom::choose` on the items with
/// `rand::thread_rng()`: `None` for an empty list, else a reference to one
/// of its elements, picked at random.
#[verifier::external_body]
fn random_choice<T>(items: &Vec<T>) -> (r: Option<&T>)
    ensures
        items@.len() == 0 ==> r is None,
        items@.len() > 0 ==> r is Some && items@.contains(*r->0),
{
    items.choose(&mut rand::thread_rng())
}

impl Dice {
    /// Rolls a chance of `numerator` in `denominator`.
    pub fn chance(&self, numerator: u32, denominator: u32) -> (hit: bool)
        requires
            denominator > 0,
            numerator <= denominator,
        ensures
            numerator == 0 ==> !hit,
            numerator == denominator ==> hit,
            *self matches Dice::Loaded { hit: forced, .. } ==> hit == loaded_chance(
                forced,
                numerator,
                denominator,
            ),
    {
        match self {
            Dice::Random => random_ratio(numerator, denominator),
            Dice::Loaded { hit, .. } => {
                if numerator == 0 {
                    false
                } else if numerator == denominator {
                    true
                } else {
                    *hit
                }
            },
        }
    }

    /// Rolls a number between `low` and `high`, both included.
    pub fn range(&self, low: u32, high: u32) -> (r: u32)
        requires
            low <= high,
        ensures
            low <= r <= high,
            *self matches Dice::Loaded { roll, .. } ==> r == clamp(
                roll as int,
                low as int,
                high as int,
            ),
    {
        match self {
            Dice::Random => random_range(low, high),
            Dice::Loaded { roll, .. } => {
                if *roll < low {
                    low
                } else if *roll > high {
                    high
                } else {
                    *roll
                }
            },
        }
    }

    /// Picks one of the items, or none where there is none to pick.
    pub fn pick<'a, T>(&self, items: &'a Vec<T>) -> (r: Option<&'a T>)
        ensures
            items@.len() == 0 ==> r is None,
            items@.len() > 0 ==> r is Some && items@.contains(*r->0),
            *self matches Dice::Loaded { roll, .. } ==> (items@.len() > 0 ==> *r->0 == items@[clamp(
                roll as int,
                0,
                items@.len() - 1,
            )]),
    {
        match self {
            Dice::Random => random_choice(items),
            Dice::Loaded { roll, .. } => {
                if items.len() == 0 {
                    None
                } else {
                    let last: usize = items.len() - 1;
                    let wanted: usize = *roll as usize;
                    let at: usize = if wanted > last {
                        last
                    } else {
                        wanted
                    };
                    Some(&items[at])
                }
            },
        }
    }
}

} // verus!
