use ebr_thread::allocator::ObjectAllocator;
use ebr_thread::epoch::Epoch;
use ebr_thread::rng::WyRng;
use ebr_thread::thread_state::{EbrState, ExitError, ThreadState, COLLECT_CHANCE};
use std::cell::Cell;

struct Bins;

impl ObjectAllocator<u32> for Bins {}

struct Coordinator {
    epoch: Cell<u64>,
    advance: Cell<bool>,
    asked: Cell<u32>,
    cycles: Cell<u32>,
}

impl Coordinator {
    fn at(epoch: u64) -> Coordinator {
        Coordinator {
            epoch: Cell::new(epoch),
            advance: Cell::new(true),
            asked: Cell::new(0),
            cycles: Cell::new(0),
        }
    }
}

impl EbrState for Coordinator {
    type T = u32;
    type A = Bins;

    fn load_epoch(&self) -> Epoch {
        Epoch::new(self.epoch.get())
    }

    fn should_advance(&self) -> bool {
        self.asked.set(self.asked.get() + 1);
        self.advance.get()
    }

    fn try_cycle(&self) {
        self.cycles.set(self.cycles.get() + 1);
        self.epoch.set(self.epoch.get() + 1);
    }
}

#[test]
fn epoch_announced_at_construction() {
    let c = Coordinator::at(5);
    let t = ThreadState::new(&c, 0);
    assert_eq!(t.load_epoch(), Epoch::new(5));
    assert!(t.is_idle());
    assert!(!t.is_active());
}

#[test]
fn nested_enter_keeps_epoch_and_only_outermost_exit_samples() {
    let c = Coordinator::at(5);
    let mut t = ThreadState::with_chance(&c, 0, 1);
    c.epoch.set(5);
    t.enter(&c);
    assert!(t.is_active());
    assert_eq!(t.load_epoch().value(), 5);
    c.epoch.set(9);
    t.enter(&c);
    assert_eq!(t.load_epoch().value(), 5);
    t.exit(&c);
    assert!(t.is_active());
    assert_eq!(c.asked.get(), 0);
    t.exit(&c);
    assert!(t.is_idle());
    assert_eq!(c.asked.get(), 1);
    assert_eq!(c.cycles.get(), 1);
    assert_eq!(t.load_epoch().value(), 5);
    t.enter(&c);
    assert_eq!(t.load_epoch().value(), 10);
}

#[test]
fn unbalanced_exit_is_refused() {
    let c = Coordinator::at(2);
    let mut t = ThreadState::new(&c, 0);
    assert_eq!(t.try_exit(&c), Err(ExitError::Unbalanced));
    assert!(t.is_idle());
    assert_eq!(t.load_epoch().value(), 2);
    assert_eq!(c.asked.get(), 0);
    t.enter(&c);
    assert_eq!(t.try_exit(&c), Ok(()));
    assert!(t.is_idle());
    assert_eq!(t.try_exit(&c), Err(ExitError::Unbalanced));
}

#[test]
fn balanced_calls_return_to_idle() {
    let c = Coordinator::at(1);
    let mut t = ThreadState::new(&c, 7);
    let pattern = [true, true, false, true, false, false, true, false];
    for &is_enter in pattern.iter() {
        if is_enter {
            t.enter(&c);
        } else {
            t.exit(&c);
        }
    }
    assert!(t.is_idle());
    assert!(!t.is_active());
}

#[test]
fn epoch_stable_while_nested() {
    let c = Coordinator::at(3);
    let mut t = ThreadState::with_chance(&c, 0, 1);
    t.enter(&c);
    for i in 0..10u64 {
        c.epoch.set(100 + i);
        t.enter(&c);
        t.exit(&c);
        assert_eq!(t.load_epoch().value(), 3);
    }
    assert_eq!(c.asked.get(), 0);
    t.exit(&c);
    assert_eq!(c.asked.get(), 1);
}

fn consultations(thread_id: u32, start_epoch: u64, rounds: u32) -> Vec<u32> {
    let c = Coordinator::at(start_epoch);
    c.advance.set(false);
    let mut t = ThreadState::new(&c, thread_id);
    let mut seen = Vec::new();
    for _ in 0..rounds {
        t.enter(&c);
        t.enter(&c);
        t.exit(&c);
        t.exit(&c);
        seen.push(c.asked.get());
    }
    seen
}

#[test]
fn same_thread_id_same_consultations() {
    assert_eq!(consultations(11, 0, 200), consultations(11, 40, 200));
    assert_eq!(consultations(0, 0, 3), vec![0, 0, 1]);
    assert_eq!(consultations(1, 0, 3), vec![1, 2, 2]);
}

#[test]
fn default_rate_consults_about_one_in_four() {
    assert_eq!(COLLECT_CHANCE, 4);
    let seen = consultations(3, 0, 1000);
    assert_eq!(seen[999], 261);
}

#[test]
fn no_cycle_when_advance_not_due() {
    let c = Coordinator::at(0);
    c.advance.set(false);
    let mut t = ThreadState::with_chance(&c, 5, 1);
    for _ in 0..4 {
        t.enter(&c);
        t.exit(&c);
    }
    assert_eq!(c.asked.get(), 4);
    assert_eq!(c.cycles.get(), 0);
}

#[test]
fn release_reports_sampling() {
    let mut t: ThreadState<Coordinator> = ThreadState::starting_at(Epoch::new(4), 0, 1);
    t.enter_at(Epoch::new(6));
    assert_eq!(t.load_epoch().value(), 6);
    t.enter_at(Epoch::new(8));
    assert_eq!(t.load_epoch().value(), 6);
    assert!(!t.release());
    assert!(t.release());
    assert!(t.is_idle());

    let mut u: ThreadState<Coordinator> = ThreadState::starting_at(Epoch::new(4), 0, 4);
    let mut draws = Vec::new();
    for _ in 0..3 {
        u.enter_at(Epoch::new(4));
        draws.push(u.release());
    }
    assert_eq!(draws, vec![false, false, true]);
}

#[test]
fn starting_at_announces_given_epoch() {
    let t: ThreadState<Coordinator> = ThreadState::starting_at(Epoch::new(42), 9, 2);
    assert_eq!(t.load_epoch().value(), 42);
    assert!(t.is_idle());
}

#[test]
fn generator_known_values() {
    let mut r = WyRng::new(0);
    assert_eq!(r.generate(), 2405016974);
    assert_eq!(r.generate(), 4283336045);
    assert_eq!(r.generate(), 2403848868);
    let mut s = WyRng::new(1);
    assert_eq!(s.generate(), 3791187244);
    assert_eq!(s.generate(), 479898944);
    assert_eq!(s.generate(), 787217119);
}

#[test]
fn generator_same_seed_same_sequence() {
    let mut a = WyRng::new(77);
    let mut b = WyRng::new(77);
    for _ in 0..50 {
        assert_eq!(a.generate(), b.generate());
    }
}

#[test]
fn epoch_next_steps_and_wraps() {
    assert_eq!(Epoch::new(7).next(), Epoch::new(8));
    assert_eq!(Epoch::new(u64::MAX).next().value(), 0);
    assert_eq!(Epoch::new(3).value, 3);
}
