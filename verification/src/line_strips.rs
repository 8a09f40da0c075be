//! Per-instance helpers of the 3D line-strip visualizer.
use vstd::prelude::*;

verus! {

/// The first element of an optional slice, if there is one.
pub fn first_copied<T: Copy>(slice: Option<&[T]>) -> (first: Option<T>)
    ensures
        first == (match slice {
            Some(s) => if s@.len() > 0 {
                Some(s@[0])
            } else {
                None
            },
            None => None,
        }),
{
    match slice {
        Some(s) => if s.len() > 0 {
            Some(s[0])
        } else {
            None
        },
        None => None,
    }
}

/// The value that instance `index` takes from `values` "clamped to edge":
/// its own value, else the last value, else `fallback` when there are none.
pub open spec fn clamped_value<T>(values: Seq<T>, index: int, fallback: T) -> T {
    if index < values.len() {
        values[index]
    } else if values.len() > 0 {
        values.last()
    } else {
        fallback
    }
}

/// Instance `i` takes its own value when there is one; past the end it takes
/// the last value; with no values at all it takes the fallback.
pub proof fn clamped_value_is_own_else_last_else_fallback<T>(values: Seq<T>, fallback: T)
    ensures
        forall|i: int| 0 <= i < values.len() ==> #[trigger] clamped_value(values, i, fallback) == values[i],
        forall|i: int|
            0 < values.len() <= i ==> #[trigger] clamped_value(values, i, fallback) == values[values.len()
                - 1],
        forall|i: int| 0 <= i && values.len() == 0 ==> #[trigger] clamped_value(values, i, fallback) == fallback,
{
}

/// One value per instance, for `num_instances` instances, from `values`
/// clamped to edge: instance `i` takes `values[i]`, instances past the end
/// take the last value, and all take `fallback` when `values` is empty.
pub fn clamped_to_edge<T: Copy>(values: &[T], num_instances: usize, fallback: T) -> (per_instance:
    Vec<T>)
    ensures
        per_instance@.len() == num_instances,
        forall|i: int|
            0 <= i < num_instances ==> #[trigger] per_instance@[i] == clamped_value(
                values@,
                i,
                fallback,
            ),
        forall|i: int|
            0 <= i < num_instances && i < values@.len() ==> #[trigger] per_instance@[i]
                == values@[i],
        forall|i: int|
            0 < values@.len() <= i < num_instances ==> #[trigger] per_instance@[i]
                == values@[values@.len() - 1],
        forall|i: int|
            0 <= i < num_instances && values@.len() == 0 ==> #[trigger] per_instance@[i]
                == fallback,
{
    proof {
        clamped_value_is_own_else_last_else_fallback(values@, fallback);
    }
    let last = if values.len() > 0 {
        values[values.len() - 1]
    } else {
        fallback
    };
    let mut per_instance: Vec<T> = Vec::with_capacity(num_instances);
    let mut i: usize = 0;
    while i < num_instances
        invariant
            i <= num_instances,
            per_instance@.len() == i,
            last == (if values@.len() > 0 {
                values@.last()
            } else {
                fallback
            }),
            forall|j: int|
                0 <= j < i ==> #[trigger] per_instance@[j] == clamped_value(values@, j, fallback),
        decreases num_instances - i,
    {
        let value = if i < values.len() {
            values[i]
        } else {
            last
        };
        per_instance.push(value);
        i = i + 1;
    }
    per_instance
}

} // verus!
