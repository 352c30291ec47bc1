//! What holds of whole sequences of calls on one thread's state.

use crate::epoch::Epoch;
use crate::thread_state::{
    after_enter, after_exit, after_step, initial_view, samples_on_exit, Step, ThreadView,
};
use vstd::prelude::*;

verus! {

/// The state after performing `steps` in order, starting from `v`.
pub open spec fn run(v: ThreadView, steps: Seq<Step>) -> ThreadView
    decreases steps.len(),
{
    if steps.len() == 0 {
        v
    } else {
        after_step(run(v, steps.drop_last()), steps.last())
    }
}

/// Entries minus exits in `steps`.
pub open spec fn depth(steps: Seq<Step>) -> int
    decreases steps.len(),
{
    if steps.len() == 0 {
        0
    } else {
        depth(steps.drop_last()) + if steps.last() is Enter { 1int } else { -1int }
    }
}

/// Every prefix of `steps` keeps the nesting of a thread that starts at
/// `start` at or above `floor`.
pub open spec fn stays_at_least(start: int, steps: Seq<Step>, floor: int) -> bool {
    forall|i: int| 0 <= i <= steps.len() ==> start + depth(#[trigger] steps.take(i)) >= floor
}

/// Entries and exits pair up: no prefix leaves more than it entered, and
/// the whole sequence leaves all it entered.
pub open spec fn balanced(steps: Seq<Step>) -> bool {
    depth(steps) == 0 && stays_at_least(0, steps, 0)
}

/// For each step, whether it consulted the coordinator.
pub open spec fn consultations(v: ThreadView, steps: Seq<Step>) -> Seq<bool>
    decreases steps.len(),
{
    if steps.len() == 0 {
        Seq::empty()
    } else {
        consultations(v, steps.drop_last()).push(
            match steps.last() {
                Step::Enter(_) => false,
                Step::Exit => samples_on_exit(run(v, steps.drop_last())),
            },
        )
    }
}

/// The two sequences make the same calls in the same order, whatever
/// epochs the coordinator reported on entry.
pub open spec fn same_pattern(a: Seq<Step>, b: Seq<Step>) -> bool {
    &&& a.len() == b.len()
    &&& forall|i: int| 0 <= i < a.len() ==> (#[trigger] a[i] is Exit) == (b[i] is Exit)
}

proof fn lemma_prefix_of_drop_last(steps: Seq<Step>, start: int, floor: int)
    requires
        steps.len() > 0,
        stays_at_least(start, steps, floor),
    ensures
        stays_at_least(start, steps.drop_last(), floor),
{
    let d = steps.drop_last();
    assert forall|i: int| 0 <= i <= d.len() implies start + depth(#[trigger] d.take(i)) >= floor by {
        assert(d.take(i) =~= steps.take(i));
    }
}

/// Nesting is counted exactly: as long as no prefix leaves more than was
/// entered, the counter ends at its start plus entries minus exits.
pub proof fn lemma_nesting_counted(v: ThreadView, steps: Seq<Step>)
    requires
        stays_at_least(v.active as int, steps, 0),
    ensures
        run(v, steps).active == v.active + depth(steps),
    decreases steps.len(),
{
    if steps.len() > 0 {
        lemma_prefix_of_drop_last(steps, v.active as int, 0);
        lemma_nesting_counted(v, steps.drop_last());
        assert(steps.take(steps.len() as int) =~= steps);
    }
}

/// A balanced sequence of calls from an idle thread leaves it idle again.
pub proof fn lemma_balanced_returns_to_idle(v: ThreadView, steps: Seq<Step>)
    requires
        v.active == 0,
        balanced(steps),
    ensures
        run(v, steps).active == 0,
{
    lemma_nesting_counted(v, steps);
}

/// A single call changes the announced epoch only when it is an entry
/// made while idle.
pub proof fn lemma_epoch_changes_only_on_outermost_enter(v: ThreadView, s: Step)
    ensures
        after_step(v, s).epoch != v.epoch ==> (s is Enter && v.active == 0),
{
}

/// While the thread never becomes idle, the announced epoch stays what it
/// was, however the calls nest.
pub proof fn lemma_epoch_stable_inside(v: ThreadView, steps: Seq<Step>)
    requires
        stays_at_least(v.active as int, steps, 1),
    ensures
        run(v, steps).epoch == v.epoch,
    decreases steps.len(),
{
    if steps.len() > 0 {
        lemma_prefix_of_drop_last(steps, v.active as int, 1);
        lemma_epoch_stable_inside(v, steps.drop_last());
        lemma_nesting_counted(v, steps.drop_last());
        let n = (steps.len() - 1) as int;
        assert(steps.take(n) =~= steps.drop_last());
    }
}

proof fn lemma_pattern_determines_sampling(
    v1: ThreadView,
    v2: ThreadView,
    a: Seq<Step>,
    b: Seq<Step>,
)
    requires
        v1.active == v2.active,
        v1.rng == v2.rng,
        v1.chance == v2.chance,
        same_pattern(a, b),
    ensures
        run(v1, a).active == run(v2, b).active,
        run(v1, a).rng == run(v2, b).rng,
        run(v1, a).chance == run(v2, b).chance,
        consultations(v1, a) == consultations(v2, b),
    decreases a.len(),
{
    if a.len() > 0 {
        let n = a.len() - 1;
        assert(a[n] is Exit == b[n] is Exit);
        assert(same_pattern(a.drop_last(), b.drop_last())) by {
            assert forall|i: int| 0 <= i < a.drop_last().len() implies (
            #[trigger] a.drop_last()[i] is Exit) == (b.drop_last()[i] is Exit) by {
                assert(a[i] is Exit == b[i] is Exit);
            }
        }
        lemma_pattern_determines_sampling(v1, v2, a.drop_last(), b.drop_last());
    }
}

/// Two thread states created with the same thread id and sampling rate
/// consult the coordinator on exactly the same calls when driven by the
/// same pattern of entries and exits, whatever epochs they see.
pub proof fn lemma_same_thread_id_same_consultations(
    e1: Epoch,
    e2: Epoch,
    thread_id: u32,
    chance: u32,
    a: Seq<Step>,
    b: Seq<Step>,
)
    requires
        same_pattern(a, b),
    ensures
        consultations(initial_view(e1, thread_id, chance), a) == consultations(
            initial_view(e2, thread_id, chance),
            b,
        ),
{
    lemma_pattern_determines_sampling(
        initial_view(e1, thread_id, chance),
        initial_view(e2, thread_id, chance),
        a,
        b,
    );
}

} // verus!
