//! SM2-style review scheduler.
//!
//! One review of an item carries a quality grade from 0 to 5; grades below 3
//! mean failed recall. `schedule` maps the item's current repetition count
//! and easiness factor, together with the grade, to the next repetition
//! count, the next easiness factor and the review interval in days.
//!
//! Easiness factors are carried in hundredths, so the SM2 floor of 1.3 is
//! the integer 130 and every update is exact integer arithmetic: the grade
//! deltas of the SM2 rule are whole hundredths, and rounding an interval
//! multiplied by a factor of `e` hundredths is `(interval * e + 50) / 100`.

use vstd::arithmetic::div_mod::{lemma_div_is_ordered, lemma_div_multiples_vanish};
use vstd::prelude::*;

verus! {

/// The lowest easiness factor, in hundredths: the SM2 floor of 1.3.
pub const EFACTOR_FLOOR: u64 = 130;

/// Error of `schedule`: the quality grade lies outside 0 to 5.
#[derive(Clone, Copy, PartialEq, Eq, Structural, Debug)]
pub struct InvalidGrade;

/// Change of the easiness factor for grade `q`, in hundredths: the SM2
/// delta `0.1 - (5 - q) * (0.08 + (5 - q) * 0.02)` scaled by 100.
pub open spec fn efactor_delta(q: int) -> int {
    10 - (5 - q) * (8 + (5 - q) * 2)
}

/// Next easiness factor in hundredths: the delta applied, then clamped
/// from below at the floor.
pub open spec fn next_efactor(ef: int, q: int) -> int {
    if ef + efactor_delta(q) < EFACTOR_FLOOR {
        EFACTOR_FLOOR as int
    } else {
        ef + efactor_delta(q)
    }
}

/// Next repetition count: reset on failed recall, else one more.
pub open spec fn next_repetitions(r: int, q: int) -> int {
    if q < 3 {
        0
    } else {
        r + 1
    }
}

/// Review interval in days for `r` repetitions at easiness factor `ef`
/// hundredths: 1 day up to the first repetition, 6 days at the second,
/// then geometric growth, each step rounded to whole days.
pub open spec fn interval_days(r: int, ef: int) -> int
    decreases r,
{
    if r <= 1 {
        1
    } else if r == 2 {
        6
    } else {
        (interval_days(r - 1, ef) * ef + 50) / 100
    }
}

/// `x` capped at the largest machine-representable interval.
pub open spec fn cap_u64(x: int) -> int {
    if x > u64::MAX {
        u64::MAX as int
    } else {
        x
    }
}

/// The SM2 delta for each accepted grade, in hundredths.
proof fn lemma_efactor_delta_values()
    ensures
        efactor_delta(0) == -80,
        efactor_delta(1) == -54,
        efactor_delta(2) == -32,
        efactor_delta(3) == -14,
        efactor_delta(4) == 0,
        efactor_delta(5) == 10,
{
}

/// One rounded growth step never shrinks a non-negative value when the
/// factor is at least 1 (100 hundredths).
proof fn lemma_growth_step_at_least(g: int, ef: int)
    requires
        g >= 0,
        ef >= 100,
    ensures
        (g * ef + 50) / 100 >= g,
{
    assert(g * ef >= 100 * g) by (nonlinear_arith)
        requires
            g >= 0,
            ef >= 100,
    ;
    lemma_div_multiples_vanish(g, 100);
    lemma_div_is_ordered(100 * g, g * ef + 50, 100);
}

/// Interval for `reps` repetitions at `ef` hundredths, capped at `u64::MAX`.
fn interval_for(reps: u64, ef: u64) -> (i: u64)
    requires
        ef >= EFACTOR_FLOOR,
    ensures
        i == cap_u64(interval_days(reps as int, ef as int)),
{
    if reps <= 1 {
        return 1;
    }
    let mut i: u64 = 6;
    let mut k: u64 = 2;
    while k < reps
        invariant
            130 <= ef,
            2 <= k <= reps,
            i == cap_u64(interval_days(k as int, ef as int)),
        decreases reps - k,
    {
        let ghost g = interval_days(k as int, ef as int);
        proof {
            assert((i as int) * (ef as int) <= (u64::MAX as int) * (u64::MAX as int))
                by (nonlinear_arith)
                requires
                    i <= u64::MAX,
                    ef <= u64::MAX,
            ;
        }
        let p: u128 = (i as u128) * (ef as u128) + 50;
        let q: u128 = p / 100;
        proof {
            lemma_interval_days_at_least_one(k as int, ef as int);
            lemma_growth_step_at_least(g, ef as int);
            if g > u64::MAX {
                lemma_growth_step_at_least(u64::MAX as int, ef as int);
            }
        }
        i = if q > u64::MAX as u128 {
            u64::MAX
        } else {
            q as u64
        };
        k = k + 1;
    }
    i
}

/// Every interval is at least one day.
proof fn lemma_interval_days_at_least_one(r: int, ef: int)
    requires
        ef >= 100,
    ensures
        interval_days(r, ef) >= 1,
    decreases r,
{
    if r > 2 {
        lemma_interval_days_at_least_one(r - 1, ef);
        lemma_growth_step_at_least(interval_days(r - 1, ef), ef);
    }
}

/// The scheduler is a pure function: its contract pins one outcome for
/// each input, so any two outcomes that satisfy `schedule`'s postcondition
/// for the same repetition count, easiness factor and grade are equal, and
/// identical inputs always yield identical outputs.
pub proof fn lemma_schedule_deterministic(
    repetitions: int,
    efactor: int,
    quality: int,
    a: (u64, u64, u64),
    b: (u64, u64, u64),
)
    requires
        a.0 == cap_u64(next_repetitions(repetitions, quality)),
        a.1 == cap_u64(next_efactor(efactor, quality)),
        a.2 == cap_u64(interval_days(a.0 as int, a.1 as int)),
        b.0 == cap_u64(next_repetitions(repetitions, quality)),
        b.1 == cap_u64(next_efactor(efactor, quality)),
        b.2 == cap_u64(interval_days(b.0 as int, b.1 as int)),
    ensures
        a == b,
{
}

/// SM2 update for one review.
///
/// Grades 0 to 5 succeed; any other grade is rejected as `InvalidGrade`
/// and nothing is computed from it. On success the triple is the next
/// repetition count, the next easiness factor in hundredths, and the next
/// review interval in days; the caller adds the interval to today's date.
/// The count and the interval are capped at `u64::MAX`.
pub fn schedule(repetitions: u64, efactor: u64, quality: u8) -> (r: Result<
    (u64, u64, u64),
    InvalidGrade,
>)
    requires
        efactor >= EFACTOR_FLOOR,
    ensures
        r is Ok <==> quality <= 5,
        r matches Ok(out) ==> {
            &&& out.0 == cap_u64(next_repetitions(repetitions as int, quality as int))
            &&& out.1 == cap_u64(next_efactor(efactor as int, quality as int))
            &&& out.2 == cap_u64(interval_days(out.0 as int, out.1 as int))
            &&& out.1 >= EFACTOR_FLOOR
            &&& quality < 3 ==> out.0 == 0 && out.2 == 1
        },
{
    if quality > 5 {
        return Err(InvalidGrade);
    }
    proof {
        lemma_efactor_delta_values();
    }
    let new_efactor: u64 = if quality == 5 {
        if efactor <= u64::MAX - 10 {
            efactor + 10
        } else {
            u64::MAX
        }
    } else {
        let dec: u64 = match quality {
            4 => 0,
            3 => 14,
            2 => 32,
            1 => 54,
            _ => 80,
        };
        if efactor >= EFACTOR_FLOOR + dec {
            efactor - dec
        } else {
            EFACTOR_FLOOR
        }
    };
    let new_repetitions: u64 = if quality < 3 {
        0
    } else {
        if repetitions <= u64::MAX - 1 {
            repetitions + 1
        } else {
            u64::MAX
        }
    };
    let interval = interval_for(new_repetitions, new_efactor);
    Ok((new_repetitions, new_efactor, interval))
}

} // verus!
