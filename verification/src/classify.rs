//! Success-tier classification of a percentile roll against a target value,
//! for each supported ruleset.

use vstd::prelude::*;

verus! {

/// The supported rule systems, each with its own success thresholds.
#[derive(Clone, Copy, PartialEq, Eq, Structural, Debug)]
pub enum Ruleset {
    Coc6,
    Coc7,
    DeltaGreen,
    Brp,
}

/// The classification of one percentile roll against a target.
///
/// `Extreme` and `Hard` occur only under the CoC 7th edition thresholds,
/// `Special` only under BRP.
#[derive(Clone, Copy, PartialEq, Eq, Structural, Debug)]
pub enum Tier {
    Critical,
    Extreme,
    Hard,
    Special,
    Success,
    Failure,
    Fumble,
}

/// Truncating integer division (rounds toward zero), as the `/` operator of
/// the executable code computes it.
pub open spec fn div_trunc(a: int, b: int) -> int
    recommends
        b > 0,
{
    if a >= 0 {
        a / b
    } else {
        -((-a) / b)
    }
}

/// Call of Cthulhu 5th/6th edition thresholds.
pub open spec fn spec_classify_coc6(roll: int, target: int) -> Tier {
    if roll == 1 && roll <= target {
        Tier::Critical
    } else if roll <= 5 && roll <= target {
        Tier::Critical
    } else if roll == 100 && roll > target {
        Tier::Fumble
    } else if roll > 95 && roll > target {
        Tier::Fumble
    } else if roll <= target {
        Tier::Success
    } else {
        Tier::Failure
    }
}

/// Call of Cthulhu 7th edition thresholds. The fumble clause deliberately
/// keeps the historical boolean `roll == 100 || (roll > 95 && target < 50)`
/// exactly as written.
pub open spec fn spec_classify_coc7(roll: int, target: int) -> Tier {
    if roll == 1 && roll <= target {
        Tier::Critical
    } else if roll <= div_trunc(target, 5) {
        Tier::Extreme
    } else if roll <= div_trunc(target, 2) {
        Tier::Hard
    } else if roll == 100 || (roll > 95 && target < 50) {
        Tier::Fumble
    } else if roll <= target {
        Tier::Success
    } else {
        Tier::Failure
    }
}

/// Delta Green thresholds: a roll with equal decimal digits (11, 22, ...) at
/// or under the target is also a critical.
pub open spec fn spec_classify_dg(roll: int, target: int) -> Tier {
    if roll == 1 && roll <= target {
        Tier::Critical
    } else if roll <= 5 && roll <= target {
        Tier::Critical
    } else if div_trunc(roll, 10) == roll % 10 && roll <= target {
        Tier::Critical
    } else if roll == 100 && roll > target {
        Tier::Fumble
    } else if roll > 95 && roll > target {
        Tier::Fumble
    } else if roll <= target {
        Tier::Success
    } else {
        Tier::Failure
    }
}

/// BRP thresholds: critical at `(target-1)/20 + 1`, special at
/// `(target-1)/5 + 1`, fumble from `min(96 + (target-1)/20, 100)` upward.
pub open spec fn spec_classify_brp(roll: int, target: int) -> Tier {
    if roll <= div_trunc(target - 1, 20) + 1 {
        Tier::Critical
    } else if roll <= div_trunc(target - 1, 5) + 1 {
        Tier::Special
    } else if roll >= min_int(96 + div_trunc(target - 1, 20), 100) && roll > target {
        Tier::Fumble
    } else if roll <= target {
        Tier::Success
    } else {
        Tier::Failure
    }
}

pub open spec fn min_int(a: int, b: int) -> int {
    if a <= b {
        a
    } else {
        b
    }
}

/// The classification a given ruleset assigns to a roll against a target.
pub open spec fn spec_classify(ruleset: Ruleset, roll: int, target: int) -> Tier {
    match ruleset {
        Ruleset::Coc6 => spec_classify_coc6(roll, target),
        Ruleset::Coc7 => spec_classify_coc7(roll, target),
        Ruleset::DeltaGreen => spec_classify_dg(roll, target),
        Ruleset::Brp => spec_classify_brp(roll, target),
    }
}

/// Truncating division of a 64-bit integer by a positive divisor.
pub fn div_trunc_i64(a: i64, b: i64) -> (r: i64)
    requires
        a > i64::MIN,
        b > 0,
    ensures
        r == div_trunc(a as int, b as int),
{
    if a >= 0 {
        a / b
    } else {
        let q = (-a) / b;
        -q
    }
}

/// Classifies a percentile roll against a target under the given ruleset.
///
/// `roll` is the result of one 1d100; `target` is the skill chance supplied
/// by the user (any value is accepted, matching the historical behaviour).
pub fn classify(ruleset: Ruleset, roll: i32, target: i32) -> (r: Tier)
    requires
        1 <= roll <= 100,
    ensures
        r == spec_classify(ruleset, roll as int, target as int),
{
    let roll64 = roll as i64;
    let t = target as i64;
    match ruleset {
        Ruleset::Coc6 => {
            if roll64 == 1 && roll64 <= t {
                Tier::Critical
            } else if roll64 <= 5 && roll64 <= t {
                Tier::Critical
            } else if roll64 == 100 && roll64 > t {
                Tier::Fumble
            } else if roll64 > 95 && roll64 > t {
                Tier::Fumble
            } else if roll64 <= t {
                Tier::Success
            } else {
                Tier::Failure
            }
        },
        Ruleset::Coc7 => {
            if roll64 == 1 && roll64 <= t {
                Tier::Critical
            } else if roll64 <= div_trunc_i64(t, 5) {
                Tier::Extreme
            } else if roll64 <= div_trunc_i64(t, 2) {
                Tier::Hard
            } else if roll64 == 100 || (roll64 > 95 && t < 50) {
                Tier::Fumble
            } else if roll64 <= t {
                Tier::Success
            } else {
                Tier::Failure
            }
        },
        Ruleset::DeltaGreen => {
            if roll64 == 1 && roll64 <= t {
                Tier::Critical
            } else if roll64 <= 5 && roll64 <= t {
                Tier::Critical
            } else if roll64 / 10 == roll64 % 10 && roll64 <= t {
                Tier::Critical
            } else if roll64 == 100 && roll64 > t {
                Tier::Fumble
            } else if roll64 > 95 && roll64 > t {
                Tier::Fumble
            } else if roll64 <= t {
                Tier::Success
            } else {
                Tier::Failure
            }
        },
        Ruleset::Brp => {
            let crit = div_trunc_i64(t - 1, 20) + 1;
            let special = div_trunc_i64(t - 1, 5) + 1;
            let fumble_from = {
                let f = 96 + div_trunc_i64(t - 1, 20);
                if f <= 100 {
                    f
                } else {
                    100
                }
            };
            if roll64 <= crit {
                Tier::Critical
            } else if roll64 <= special {
                Tier::Special
            } else if roll64 >= fumble_from && roll64 > t {
                Tier::Fumble
            } else if roll64 <= t {
                Tier::Success
            } else {
                Tier::Failure
            }
        },
    }
}

} // verus!
