//! Helpers of the chart editor page.
use vstd::prelude::*;

verus! {

/// The time that an optional time stands for: the time itself, or `0`.
pub fn none_to_zero(input: &Option<i64>) -> (r: i64)
    ensures
        r == match *input {
            Some(t) => t,
            None => 0i64,
        },
{
    match input {
        Some(t) => *t,
        None => 0,
    }
}

} // verus!
