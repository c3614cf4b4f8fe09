use vstd::prelude::*;

use crate::storage::advanced;

verus! {

/// `states` is what a storage holds before and after each of a run of
/// recorded ticks of `step` units: each state follows the one before it.
pub open spec fn is_tick_trace(states: Seq<Option<int>>, step: int) -> bool {
    forall|k: int| 0 < k < states.len() ==> #[trigger] states[k] == advanced(states[k - 1], step)
}

/// The instant after tick `n` of a trace that starts on a clock that has
/// not started.
proof fn lemma_instant_after(states: Seq<Option<int>>, step: int, n: int)
    requires
        1 <= n < states.len(),
        states[0] is None,
        is_tick_trace(states, step),
    ensures
        states[n] == Some((n - 1) * step),
    decreases n,
{
    assert(states[n] == advanced(states[n - 1], step));
    if n > 1 {
        lemma_instant_after(states, step, n - 1);
        assert((n - 2) * step + step == (n - 1) * step) by (nonlinear_arith);
    } else {
        assert((n - 1) * step == 0) by (nonlinear_arith)
            requires
                n == 1,
        ;
    }
}

/// Counting from a clock that has not started, the instant after the `n`-th
/// tick is `(n - 1) * step`: the first tick sets the epoch at zero and adds
/// nothing.
pub proof fn lemma_ticks_from_epoch(states: Seq<Option<int>>, step: int)
    requires
        states.len() >= 1,
        states[0] is None,
        is_tick_trace(states, step),
    ensures
        forall|n: int| 1 <= n < states.len() ==> #[trigger] states[n] == Some((n - 1) * step),
{
    assert forall|n: int| 1 <= n < states.len() implies #[trigger] states[n] == Some(
        (n - 1) * step,
    ) by {
        lemma_instant_after(states, step, n);
    }
}

/// Reads of a running clock never go back: between an earlier read at `i`
/// and a later one at `j`, with the ticks in between recorded, the instant
/// grows by `step` per tick; with a positive step the two reads are equal
/// exactly when no tick lies between them.
pub proof fn lemma_reads_monotonic(states: Seq<Option<int>>, step: int, i: int, j: int)
    requires
        step >= 0,
        0 <= i <= j < states.len(),
        states[i] is Some,
        is_tick_trace(states, step),
    ensures
        states[j] is Some,
        states[j]->0 == states[i]->0 + (j - i) * step,
        states[j]->0 >= states[i]->0,
        step > 0 ==> (states[j] == states[i] <==> i == j),
    decreases j - i,
{
    if i < j {
        lemma_reads_monotonic(states, step, i, j - 1);
        assert(states[j] == advanced(states[j - 1], step));
        assert((j - 1 - i) * step + step == (j - i) * step) by (nonlinear_arith);
        assert((j - i) * step >= 0) by (nonlinear_arith)
            requires
                j - i >= 0,
                step >= 0,
        ;
        if step > 0 {
            assert((j - i) * step > 0) by (nonlinear_arith)
                requires
                    j - i > 0,
                    step > 0,
            ;
        }
    } else {
        assert((j - i) * step == 0) by (nonlinear_arith)
            requires
                j == i,
        ;
    }
}

} // verus!
