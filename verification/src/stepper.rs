//! The decisions of a stepper: which buttons work, and the value a press
//! moves to.
use vstd::prelude::*;

verus! {

/// The amount each press changes the value: the given step, at least 1;
/// 1 when none is given.
pub open spec fn step_size(step: Option<i64>) -> int {
    match step {
        Some(s) => if s < 1 { 1 } else { s as int },
        None => 1,
    }
}

/// `v` held within `i64`.
pub open spec fn saturate(v: int) -> int {
    if v < i64::MIN { i64::MIN as int } else if v > i64::MAX { i64::MAX as int } else { v }
}

/// The value after a press that moves `current` by `delta`: the sum held
/// within `i64`, then raised to `min` and lowered to `max` where given.
pub open spec fn stepped(current: int, delta: int, min: Option<i64>, max: Option<i64>) -> int {
    let sum = saturate(current + delta);
    let raised = match min {
        Some(lo) => if sum < lo { lo as int } else { sum },
        None => sum,
    };
    match max {
        Some(hi) => if raised > hi { hi as int } else { raised },
        None => raised,
    }
}

/// The amount each press changes the value.
pub fn step_of(step: Option<i64>) -> (size: i64)
    ensures
        size == step_size(step),
        size >= 1,
{
    match step {
        Some(s) => if s < 1 {
            1
        } else {
            s
        },
        None => 1,
    }
}

/// Whether the decrease button works: the stepper is enabled and the value
/// is above its minimum, if any.
pub fn can_decrease(current: i64, min: Option<i64>, disabled: bool) -> (works: bool)
    ensures
        works == (!disabled && match min {
            Some(lo) => current > lo,
            None => true,
        }),
{
    !disabled && match min {
        Some(lo) => current > lo,
        None => true,
    }
}

/// Whether the increase button works: the stepper is enabled and the value
/// is below its maximum, if any.
pub fn can_increase(current: i64, max: Option<i64>, disabled: bool) -> (works: bool)
    ensures
        works == (!disabled && match max {
            Some(hi) => current < hi,
            None => true,
        }),
{
    !disabled && match max {
        Some(hi) => current < hi,
        None => true,
    }
}

/// The value after a press that moves `current` by `delta`.
pub fn stepped_value(current: i64, delta: i64, min: Option<i64>, max: Option<i64>) -> (next: i64)
    ensures
        next == stepped(current as int, delta as int, min, max),
{
    let mut next = match current.checked_add(delta) {
        Some(sum) => sum,
        None => if delta > 0 {
            i64::MAX
        } else {
            i64::MIN
        },
    };
    if let Some(lo) = min {
        if next < lo {
            next = lo;
        }
    }
    if let Some(hi) = max {
        if next > hi {
            next = hi;
        }
    }
    next
}

/// With bounds in order, a press always lands within them; a press that
/// stays within them moves the value by exactly `delta`.
pub proof fn lemma_stepped_within_bounds(current: int, delta: int, lo: i64, hi: i64)
    requires
        lo <= hi,
        i64::MIN <= current <= i64::MAX,
        i64::MIN <= delta <= i64::MAX,
    ensures
        lo <= stepped(current, delta, Some(lo), Some(hi)) <= hi,
        lo <= current + delta <= hi ==> stepped(current, delta, Some(lo), Some(hi)) == current
            + delta,
{
}

/// An increase never lowers the value and a decrease never raises it, for
/// a value already within the bounds.
pub proof fn lemma_stepped_moves_one_way(
    current: int,
    delta: int,
    min: Option<i64>,
    max: Option<i64>,
)
    requires
        i64::MIN <= current <= i64::MAX,
        min matches Some(lo) ==> lo <= current,
        max matches Some(hi) ==> current <= hi,
    ensures
        delta >= 0 ==> stepped(current, delta, min, max) >= current,
        delta <= 0 ==> stepped(current, delta, min, max) <= current,
{
}

/// The keys a stepper answers.
#[derive(Clone, Copy, Debug, PartialEq, Eq, Structural, Hash)]
pub enum StepperKey {
    /// Arrow up: increase.
    Up,
    /// Arrow down: decrease.
    Down,
    /// Any other key.
    Other,
}

/// The change a key asks of a stepper whose step is `step`: up by a step
/// where the value can increase, down by a step where it can decrease, and
/// nothing otherwise.
pub fn key_delta(key: StepperKey, step: i64, can_increase: bool, can_decrease: bool) -> (delta: Option<i64>)
    requires
        step >= 1,
    ensures
        delta == (match key {
            StepperKey::Up => if can_increase {
                Some(step)
            } else {
                None
            },
            StepperKey::Down => if can_decrease {
                Some((-step) as i64)
            } else {
                None
            },
            StepperKey::Other => None,
        }),
{
    match key {
        StepperKey::Up => if can_increase {
            Some(step)
        } else {
            None
        },
        StepperKey::Down => if can_decrease {
            Some(-step)
        } else {
            None
        },
        StepperKey::Other => None,
    }
}

} // verus!
