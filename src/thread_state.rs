//! The per-thread state machine: critical-section nesting, the announced
//! local epoch, and the sampled decision to ask for an epoch advance.

use crate::allocator::ObjectAllocator;
use crate::epoch::Epoch;
use crate::rng::{wy_output, wy_seed, wy_step, WyRng};
use std::marker::PhantomData;
use vstd::prelude::*;

verus! {

/// By default one idle transition in this many consults the coordinator.
pub const COLLECT_CHANCE: u32 = 4;

/// What a thread needs from the global coordinator.
pub trait EbrState {
    /// The type of the objects whose reclamation the coordinator manages.
    type T;

    /// The allocator that bins retired objects by epoch.
    type A: ObjectAllocator<Self::T>;

    /// The current global epoch.
    fn load_epoch(&self) -> Epoch;

    /// Whether an epoch advance is currently warranted.
    fn should_advance(&self) -> bool;

    /// Attempts to advance the global epoch and reclaim what became safe.
    fn try_cycle(&self);
}

/// The abstract state of one thread.
pub struct ThreadView {
    /// Number of critical sections entered and not yet left.
    pub active: nat,
    /// The epoch last announced on entering an outermost critical section.
    pub epoch: Epoch,
    /// State of the sampling generator.
    pub rng: u64,
    /// One idle transition in `chance` (in expectation) consults the coordinator.
    pub chance: u32,
}

/// One call a thread makes on its own state: `Enter` carries the global
/// epoch that the coordinator reports at that moment.
pub enum Step {
    Enter(Epoch),
    Exit,
}

/// The state of a thread created while the global epoch is `epoch`.
pub open spec fn initial_view(epoch: Epoch, thread_id: u32, chance: u32) -> ThreadView {
    ThreadView { active: 0, epoch, rng: wy_seed(thread_id), chance }
}

/// Entering a critical section: the epoch is announced only by the
/// outermost entry.
pub open spec fn after_enter(v: ThreadView, global: Epoch) -> ThreadView {
    ThreadView {
        active: v.active + 1,
        epoch: if v.active == 0 { global } else { v.epoch },
        ..v
    }
}

/// Leaving a critical section: the generator is drawn from exactly when the
/// thread becomes idle. Leaving with nothing entered changes nothing.
pub open spec fn after_exit(v: ThreadView) -> ThreadView {
    if v.active == 0 {
        v
    } else {
        ThreadView {
            active: (v.active - 1) as nat,
            rng: if v.active == 1 { wy_step(v.rng) } else { v.rng },
            ..v
        }
    }
}

/// Whether leaving from `v` consults the coordinator: only when the thread
/// becomes idle, and only when the sampled value is a multiple of `chance`.
pub open spec fn samples_on_exit(v: ThreadView) -> bool {
    v.active == 1 && wy_output(wy_step(v.rng)) % v.chance == 0
}

/// The state after one step.
pub open spec fn after_step(v: ThreadView, s: Step) -> ThreadView {
    match s {
        Step::Enter(e) => after_enter(v, e),
        Step::Exit => after_exit(v),
    }
}

/// Raised by [`ThreadState::try_exit`] when no critical section is open.
#[derive(Clone, Copy, Debug, PartialEq, Eq, Structural)]
pub enum ExitError {
    Unbalanced,
}

/// Per-thread state: how deeply the thread is nested in critical sections,
/// the epoch it announced, and a generator that thins out advance checks.
///
/// Every change goes through `&mut self`, so only the owning thread ever
/// touches the generator.
pub struct ThreadState<G> {
    active: usize,
    epoch: Epoch,
    rng: WyRng,
    chance: u32,
    _m0: PhantomData<G>,
}

impl<G> View for ThreadState<G> {
    type V = ThreadView;

    closed spec fn view(&self) -> ThreadView {
        ThreadView { active: self.active as nat, epoch: self.epoch, rng: self.rng@, chance: self.chance }
    }
}

/// Relies on std::sync::atomic::fence: a sequentially consistent fence, so
/// that the announced epoch is ordered before the reads that follow it.
#[verifier::external_body]
fn full_fence() {
    std::sync::atomic::fence(std::sync::atomic::Ordering::SeqCst)
}

impl<G: EbrState> ThreadState<G> {
    /// The sampling rate is usable.
    pub open spec fn wf(&self) -> bool {
        self@.chance > 0
    }

    /// The state of a thread created while the global epoch is `epoch`,
    /// with its generator seeded from `thread_id`.
    pub fn starting_at(epoch: Epoch, thread_id: u32, chance: u32) -> (r: Self)
        requires
            chance > 0,
        ensures
            r.wf(),
            r@ == initial_view(epoch, thread_id, chance),
    {
        ThreadState { active: 0, epoch, rng: WyRng::new(thread_id), chance, _m0: PhantomData }
    }

    /// A new idle thread state that announces the coordinator's current
    /// epoch and samples one idle transition in `chance`.
    pub fn with_chance(state: &G, thread_id: u32, chance: u32) -> (r: Self)
        requires
            chance > 0,
        ensures
            r.wf(),
            r@ == initial_view(r@.epoch, thread_id, chance),
    {
        let global_epoch = state.load_epoch();
        Self::starting_at(global_epoch, thread_id, chance)
    }

    /// A new idle thread state that announces the coordinator's current
    /// epoch, with the default sampling rate.
    pub fn new(state: &G, thread_id: u32) -> (r: Self)
        ensures
            r.wf(),
            r@ == initial_view(r@.epoch, thread_id, COLLECT_CHANCE),
    {
        Self::with_chance(state, thread_id, COLLECT_CHANCE)
    }

    /// Whether the thread is inside a critical section.
    pub fn is_active(&self) -> (r: bool)
        ensures
            r == (self@.active > 0),
    {
        self.active != 0
    }

    /// Whether the thread is outside every critical section.
    pub fn is_idle(&self) -> (r: bool)
        ensures
            r == (self@.active == 0),
    {
        self.active == 0
    }

    /// The epoch this thread last announced.
    pub fn load_epoch(&self) -> (r: Epoch)
        ensures
            r == self@.epoch,
    {
        self.epoch
    }

    /// Enters a critical section while the global epoch is `global`; only
    /// the outermost entry announces it.
    pub fn enter_at(&mut self, global: Epoch)
        requires
            old(self).wf(),
            old(self)@.active < usize::MAX,
        ensures
            final(self).wf(),
            final(self)@ == after_enter(old(self)@, global),
    {
        let prev: usize = self.active;
        self.active = prev + 1;
        if prev == 0 {
            self.epoch = global;
            full_fence();
        }
    }

    /// Enters a critical section. The outermost entry reads the
    /// coordinator's current epoch and announces it; nested entries only
    /// count.
    pub fn enter(&mut self, state: &G)
        requires
            old(self).wf(),
            old(self)@.active < usize::MAX,
        ensures
            final(self).wf(),
            final(self)@ == after_enter(old(self)@, final(self)@.epoch),
            old(self)@.active > 0 ==> final(self)@.epoch == old(self)@.epoch,
    {
        let global: Epoch = if self.active == 0 {
            state.load_epoch()
        } else {
            self.epoch
        };
        self.enter_at(global);
    }

    /// Leaves a critical section and reports whether the coordinator should
    /// now be consulted: only on becoming idle, and then only when the
    /// generator's draw is a multiple of the sampling rate.
    pub fn release(&mut self) -> (sampled: bool)
        requires
            old(self).wf(),
            old(self)@.active > 0,
        ensures
            final(self).wf(),
            final(self)@ == after_exit(old(self)@),
            sampled == samples_on_exit(old(self)@),
    {
        let prev: usize = self.active;
        self.active = prev - 1;
        if prev == 1 {
            let draw: u32 = self.rng.generate();
            draw % self.chance == 0
        } else {
            false
        }
    }

    /// Leaves a critical section. On becoming idle, a sampled fraction of
    /// calls asks the coordinator whether to advance, and if so asks it to
    /// try a cycle.
    pub fn exit(&mut self, state: &G)
        requires
            old(self).wf(),
            old(self)@.active > 0,
        ensures
            final(self).wf(),
            final(self)@ == after_exit(old(self)@),
    {
        if self.release() {
            if state.should_advance() {
                state.try_cycle();
            }
        }
    }

    /// Like [`ThreadState::exit`], but an exit with no open critical
    /// section is refused and leaves the state as it was.
    pub fn try_exit(&mut self, state: &G) -> (r: Result<(), ExitError>)
        requires
            old(self).wf(),
        ensures
            final(self).wf(),
            r is Err <==> old(self)@.active == 0,
            r is Err ==> r == Err::<(), ExitError>(ExitError::Unbalanced),
            final(self)@ == after_exit(old(self)@),
    {
        if self.active == 0 {
            Err(ExitError::Unbalanced)
        } else {
            self.exit(state);
            Ok(())
        }
    }
}

} // verus!
