//! What holds of a cell across a run of calls, stated over the contents that
//! the contracts of `AlwaysCell` speak of.
use crate::cell::{filled, try_set_outcome};
use vstd::prelude::*;

verus! {

/// The contents of a cell that held `s` after `try_set` was called with each of
/// `values` in turn (a successful `set` acts as a `try_set` that returned
/// `Ok`).
pub open spec fn after_all<T>(s: Option<T>, values: Seq<T>) -> Option<T>
    decreases values.len(),
{
    if values.len() == 0 {
        s
    } else {
        filled(after_all(s, values.drop_last()), values.last())
    }
}

/// A cell that holds a value keeps it through any further run of `try_set`
/// calls.
proof fn lemma_held_value_kept<T>(held: T, values: Seq<T>)
    ensures
        after_all(Some(held), values) == Some(held),
    decreases values.len(),
{
    if values.len() > 0 {
        lemma_held_value_kept(held, values.drop_last());
    }
}

/// The first of a run of `try_set` calls on an empty cell decides what the
/// cell holds.
proof fn lemma_first_value_kept<T>(values: Seq<T>)
    requires
        values.len() > 0,
    ensures
        after_all(None, values) == Some(values[0]),
    decreases values.len(),
{
    if values.len() > 1 {
        lemma_first_value_kept(values.drop_last());
        assert(values.drop_last()[0] == values[0]);
    } else {
        assert(after_all(None, values.drop_last()) is None);
    }
}

/// Once a cell holds a value, every later `try_set` fails and hands its own
/// value back, and the cell keeps what it held, so that `set`, which asks for
/// an empty cell, is never allowed again.
pub proof fn lemma_set_at_most_once<T>(held: T, later: Seq<T>)
    ensures
        forall|i: int|
            0 <= i < later.len() ==> try_set_outcome(after_all(Some(held), #[trigger] later.take(i)), later[i])
                == Err::<(), T>(later[i]),
        after_all(Some(held), later) == Some(held),
{
    assert forall|i: int| 0 <= i < later.len() implies try_set_outcome(
        after_all(Some(held), #[trigger] later.take(i)),
        later[i],
    ) == Err::<(), T>(later[i]) by {
        lemma_held_value_kept(held, later.take(i));
    }
    lemma_held_value_kept(held, later);
}

/// Once `set(v)` or `try_set(v)` has succeeded, the cell holds `v` after every
/// prefix of any later run of calls: each `get` returns `v` and each `is_set`
/// returns true.
pub proof fn lemma_reads_stable<T>(v: T, later: Seq<T>)
    ensures
        forall|i: int| 0 <= i <= later.len() ==> after_all(Some(v), #[trigger] later.take(i)) == Some(v),
{
    assert forall|i: int| 0 <= i <= later.len() implies after_all(Some(v), #[trigger] later.take(i))
        == Some(v) by {
        lemma_held_value_kept(v, later.take(i));
    }
}

/// Of a run of `try_set` calls on an empty cell, exactly one succeeds: the
/// first. Every other call fails and hands its own value back, and the cell
/// ends up holding the winner's value.
pub proof fn lemma_one_winner<T>(values: Seq<T>)
    requires
        values.len() > 0,
    ensures
        try_set_outcome(after_all(None, values.take(0)), values[0]) is Ok,
        forall|i: int|
            1 <= i < values.len() ==> try_set_outcome(after_all(None, #[trigger] values.take(i)), values[i])
                == Err::<(), T>(values[i]),
        after_all(None, values) == Some(values[0]),
{
    assert(values.take(0).len() == 0);
    assert forall|i: int| 1 <= i < values.len() implies try_set_outcome(
        after_all(None, #[trigger] values.take(i)),
        values[i],
    ) == Err::<(), T>(values[i]) by {
        lemma_first_value_kept(values.take(i));
    }
    lemma_first_value_kept(values);
}

} // verus!
