//! The controller's global guarantees: statements that relate whole call
//! sequences, proved once here rather than re-checked per call site.
//!
//! Each law is stated over the spec functions that the operations' own
//! contracts use — [`next_index`] and [`prev_index`] for navigation,
//! [`ticked_progress`] for `update` — so it carries over to any sequence of
//! the corresponding calls.

use vstd::prelude::*;

use vstd::arithmetic::div_mod::lemma_add_mod_noop_right;
use vstd::arithmetic::div_mod::lemma_mod_add_multiples_vanish;
use vstd::arithmetic::div_mod::lemma_small_mod;

use crate::carousel::next_index;
use crate::carousel::prev_index;
use crate::carousel::ticked_progress;
use crate::carousel::PROGRESS_DONE;
use crate::carousel::RATE_PER_MS;

verus! {

/// The selection index after `steps` successive next-navigations from
/// `start` in a list of `n` entries.
pub open spec fn iterated_next(start: int, steps: nat, n: int) -> int
    decreases steps,
{
    if steps == 0 {
        start
    } else {
        next_index(iterated_next(start, (steps - 1) as nat, n), n)
    }
}

/// Stepping right is adding one, modulo the entry count.
proof fn lemma_iterated_next_linear(start: int, steps: nat, n: int)
    requires
        0 <= start < n,
    ensures
        iterated_next(start, steps, n) == (start + steps) % n,
    decreases steps,
{
    if steps == 0 {
        lemma_small_mod(start as nat, n as nat);
    } else {
        let k = (steps - 1) as nat;
        lemma_iterated_next_linear(start, k, n);
        lemma_add_mod_noop_right(1, start + k, n);
    }
}

/// Cyclic navigation: from any valid selection index, one next-navigation
/// per entry returns the selection to exactly where it started.
pub proof fn lemma_select_next_cycle(start: int, n: int)
    requires
        0 <= start < n,
    ensures
        iterated_next(start, n as nat, n) == start,
{
    lemma_iterated_next_linear(start, n as nat, n);
    lemma_mod_add_multiples_vanish(start, n);
    lemma_small_mod(start as nat, n as nat);
}

/// Backward navigation from the first entry wraps to the last entry; the
/// wrap-safe formula never underflows, whatever the list length.
pub proof fn lemma_select_prev_from_first_wraps(n: int)
    requires
        0 < n,
    ensures
        prev_index(0, n) == n - 1,
{
    lemma_small_mod((n - 1) as nat, n as nat);
}

/// Total frame time of a sequence of ticks, in milliseconds.
pub open spec fn total_millis(dts: Seq<u64>) -> int
    decreases dts.len(),
{
    if dts.len() == 0 {
        0
    } else {
        dts[0] + total_millis(dts.drop_first())
    }
}

/// Transition progress after delivering the ticks of `dts`, in order, to a
/// controller whose progress was `t`: the fold of [`ticked_progress`], which
/// is what repeated `update` calls compute.
pub open spec fn run_ticks(t: int, dts: Seq<u64>) -> int
    decreases dts.len(),
{
    if dts.len() == 0 {
        t
    } else {
        run_ticks(ticked_progress(t, dts[0] as int), dts.drop_first())
    }
}

proof fn lemma_total_millis_nonneg(dts: Seq<u64>)
    ensures
        total_millis(dts) >= 0,
    decreases dts.len(),
{
    if dts.len() > 0 {
        lemma_total_millis_nonneg(dts.drop_first());
    }
}

/// Whenever the remaining frame time still covers the distance to full
/// progress, the fold ends at exactly full progress.
proof fn lemma_run_ticks_reach(t: int, dts: Seq<u64>)
    requires
        0 <= t <= PROGRESS_DONE,
        t + RATE_PER_MS * total_millis(dts) >= PROGRESS_DONE,
    ensures
        run_ticks(t, dts) == PROGRESS_DONE,
    decreases dts.len(),
{
    if dts.len() > 0 {
        lemma_total_millis_nonneg(dts.drop_first());
        lemma_run_ticks_reach(ticked_progress(t, dts[0] as int), dts.drop_first());
    }
}

/// Ticks totalling at least the transition duration (100 ms) bring the
/// progress scalar to exactly `PROGRESS_DONE`, from any starting progress
/// and however the time is split across the ticks.
pub proof fn lemma_ticks_complete_transition(t: int, dts: Seq<u64>)
    requires
        0 <= t <= PROGRESS_DONE,
        total_millis(dts) >= 100,
    ensures
        run_ticks(t, dts) == PROGRESS_DONE,
{
    lemma_run_ticks_reach(t, dts);
}

/// Once the progress scalar is at `PROGRESS_DONE` it stays there: further
/// ticks of any length are idempotent.
pub proof fn lemma_ticks_hold_at_done(dts: Seq<u64>)
    ensures
        run_ticks(PROGRESS_DONE as int, dts) == PROGRESS_DONE,
    decreases dts.len(),
{
    if dts.len() > 0 {
        lemma_ticks_hold_at_done(dts.drop_first());
    }
}

} // verus!
