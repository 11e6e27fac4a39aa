//! Fixed-timestep simulation clock.
//!
//! The platform loop measures how much wall time passed since the previous
//! frame and hands it to [`SimulationClock::advance`]. The clock clamps that
//! time, adds it to what was left over from earlier frames, and answers with
//! the number of fixed-size updates the game has to run before it renders.
//! All times are whole nanoseconds.

use vstd::prelude::*;
use vstd::arithmetic::div_mod::{
    lemma_div_is_ordered,
    lemma_div_is_ordered_by_denominator,
    lemma_fundamental_div_mod,
    lemma_fundamental_div_mod_converse,
};

verus! {

/// Length of one simulation update when nothing else is asked for: a
/// hundredth of a second.
pub const DEFAULT_STEP_NANOS: u64 = 10_000_000;

/// Longest frame time the clock accepts when nothing else is asked for: a
/// fortieth of a second.
pub const DEFAULT_MAX_FRAME_NANOS: u64 = 25_000_000;

/// The clock as a mathematical value.
pub struct ClockState {
    /// Length of one update.
    pub step: nat,
    /// Cap applied to the time a single frame may contribute.
    pub max_frame_time: nat,
    /// Time waiting to be simulated.
    pub accumulator: nat,
}

impl ClockState {
    /// The step is positive.
    pub open spec fn wf(self) -> bool {
        self.step > 0
    }

    /// Less than one step is waiting, so the frame can be rendered.
    pub open spec fn render_ready(self) -> bool {
        self.accumulator < self.step
    }

    /// The part of `elapsed` that a frame is allowed to contribute.
    pub open spec fn capped(self, elapsed: nat) -> nat {
        if elapsed > self.max_frame_time {
            self.max_frame_time
        } else {
            elapsed
        }
    }

    /// The state after a frame that took `elapsed` was measured.
    pub open spec fn accumulate(self, elapsed: nat) -> ClockState {
        ClockState { accumulator: self.accumulator + self.capped(elapsed), ..self }
    }

    /// How many whole steps are waiting.
    pub open spec fn updates_due(self) -> nat {
        self.accumulator / self.step
    }

    /// The state after one update ran.
    pub open spec fn step_once(self) -> ClockState
        recommends
            self.accumulator >= self.step,
    {
        ClockState { accumulator: (self.accumulator - self.step) as nat, ..self }
    }

    /// The state after every waiting update ran.
    pub open spec fn settle(self) -> ClockState {
        ClockState { accumulator: self.accumulator % self.step, ..self }
    }

    /// The state after `n` updates ran one by one.
    pub open spec fn step_times(self, n: nat) -> ClockState
        decreases n,
    {
        if n == 0 {
            self
        } else {
            self.step_once().step_times((n - 1) as nat)
        }
    }
}

/// Fixed-timestep accumulator. Between calls it is always ready to render:
/// less than one step of time is waiting.
pub struct SimulationClock {
    step: u64,
    max_frame_time: u64,
    accumulator: u64,
}

impl View for SimulationClock {
    type V = ClockState;

    closed spec fn view(&self) -> ClockState {
        ClockState {
            step: self.step as nat,
            max_frame_time: self.max_frame_time as nat,
            accumulator: self.accumulator as nat,
        }
    }
}

impl SimulationClock {
    /// What every clock satisfies: a positive step, and less than a step
    /// pending.
    #[verifier::type_invariant]
    pub open spec fn inv(&self) -> bool {
        &&& self@.wf()
        &&& self@.render_ready()
    }

    /// A clock with nothing accumulated.
    pub fn new(step: u64, max_frame_time: u64) -> (clock: Self)
        requires
            step > 0,
        ensures
            clock.inv(),
            clock@ == (ClockState {
                step: step as nat,
                max_frame_time: max_frame_time as nat,
                accumulator: 0,
            }),
    {
        SimulationClock { step, max_frame_time, accumulator: 0 }
    }

    /// Length of one update.
    pub fn step(&self) -> (step: u64)
        ensures
            step == self@.step,
            step > 0,
    {
        proof {
            use_type_invariant(self);
        }
        self.step
    }

    /// Cap on the time one frame may contribute.
    pub fn max_frame_time(&self) -> (cap: u64)
        ensures
            cap == self@.max_frame_time,
    {
        self.max_frame_time
    }

    /// Time left over for the next frame.
    pub fn accumulator(&self) -> (pending: u64)
        ensures
            pending == self@.accumulator,
            pending < self@.step,
    {
        proof {
            use_type_invariant(self);
        }
        self.accumulator
    }

    /// Accounts for a frame that took `elapsed` and returns how many updates
    /// to run before rendering. The remainder stays in the accumulator.
    pub fn advance(&mut self, elapsed: u64) -> (updates: u64)
        ensures
            final(self).inv(),
            updates == old(self)@.accumulate(elapsed as nat).updates_due(),
            final(self)@ == old(self)@.accumulate(elapsed as nat).settle(),
    {
        proof {
            use_type_invariant(&*self);
        }
        let capped: u64 = if elapsed > self.max_frame_time {
            self.max_frame_time
        } else {
            elapsed
        };
        // The sum may need one bit more than a time has; the quotient and
        // the remainder do not.
        let total: u128 = self.accumulator as u128 + capped as u128;
        let step: u128 = self.step as u128;
        let updates: u128 = total / step;
        let rest: u128 = total % step;
        proof {
            if step == 1 {
                assert(total == capped);
            } else {
                lemma_div_is_ordered_by_denominator(total as int, 2, step as int);
            }
        }
        self.accumulator = rest as u64;
        updates as u64
    }
}

impl Default for SimulationClock {
    /// A hundred updates per second, with frames capped at a fortieth of a
    /// second.
    fn default() -> (clock: Self)
        ensures
            clock.inv(),
            clock@ == (ClockState {
                step: DEFAULT_STEP_NANOS as nat,
                max_frame_time: DEFAULT_MAX_FRAME_NANOS as nat,
                accumulator: 0,
            }),
    {
        SimulationClock::new(DEFAULT_STEP_NANOS, DEFAULT_MAX_FRAME_NANOS)
    }
}

/// No time is lost or invented: the updates that run and the remainder that
/// stays add up to what was pending plus the capped frame time, and the
/// remainder is less than one step.
pub proof fn lemma_advance_conserves_time(s: ClockState, elapsed: nat)
    requires
        s.wf(),
    ensures
        s.accumulate(elapsed).updates_due() * s.step + s.accumulate(elapsed).settle().accumulator
            == s.accumulator + s.capped(elapsed),
        s.accumulate(elapsed).settle().render_ready(),
        s.capped(elapsed) <= elapsed,
        s.capped(elapsed) <= s.max_frame_time,
{
    let total = s.accumulate(elapsed).accumulator as int;
    let d = s.step as int;
    lemma_fundamental_div_mod(total, d);
    assert(d * (total / d) == (total / d) * d) by (nonlinear_arith);
}

/// Running the waiting updates one at a time ends in the settled state, and
/// every one of them found a whole step waiting.
pub proof fn lemma_stepping_settles(s: ClockState)
    requires
        s.wf(),
    ensures
        s.step_times(s.updates_due()) == s.settle(),
        forall|k: nat| k < s.updates_due() ==> !(#[trigger] s.step_times(k)).render_ready(),
    decreases s.accumulator,
{
    let d = s.step as int;
    let a = s.accumulator as int;
    lemma_fundamental_div_mod(a, d);
    if s.accumulator < s.step {
        lemma_fundamental_div_mod_converse(a, d, 0, a);
        assert(s.updates_due() == 0);
        assert(s.settle() == s);
    } else {
        let t = s.step_once();
        lemma_fundamental_div_mod(a - d, d);
        let q = (a - d) / d;
        let r = (a - d) % d;
        assert(a == (q + 1) * d + r) by (nonlinear_arith)
            requires
                a - d == d * q + r,
        ;
        lemma_fundamental_div_mod_converse(a, d, q + 1, r);
        assert(t.updates_due() + 1 == s.updates_due());
        assert(t.settle() == s.settle());
        lemma_stepping_settles(t);
        assert(s.step_times(s.updates_due()) == t.step_times(t.updates_due()));
        assert forall|k: nat| k < s.updates_due() implies !(#[trigger] s.step_times(k)).render_ready() by {
            if k > 0 {
                assert(s.step_times(k) == t.step_times((k - 1) as nat));
            }
        }
    }
}

/// A longer frame never asks for fewer updates.
pub proof fn lemma_updates_monotone(s: ClockState, shorter: nat, longer: nat)
    requires
        s.wf(),
        shorter <= longer,
    ensures
        s.accumulate(shorter).updates_due() <= s.accumulate(longer).updates_due(),
{
    lemma_div_is_ordered(
        s.accumulate(shorter).accumulator as int,
        s.accumulate(longer).accumulator as int,
        s.step as int,
    );
}

/// A stall costs no more than the cap: every frame at least as long as the
/// cap has the same effect as one that took exactly the cap.
pub proof fn lemma_stall_is_clamped(s: ClockState, elapsed: nat)
    requires
        elapsed >= s.max_frame_time,
    ensures
        s.accumulate(elapsed) == s.accumulate(s.max_frame_time),
{
}

/// The catch-up after any frame is bounded. A clock that is ready to render
/// never asks for more updates than fit into the cap, plus one; and where the
/// pending time together with what the cap leaves over after its whole steps
/// is still short of a step, as it is when nothing is pending, never for more
/// than fit into the cap.
pub proof fn lemma_updates_bounded(s: ClockState, elapsed: nat)
    requires
        s.wf(),
        s.render_ready(),
    ensures
        s.accumulate(elapsed).updates_due() <= s.max_frame_time / s.step + 1,
        s.accumulator + s.max_frame_time % s.step < s.step
            ==> s.accumulate(elapsed).updates_due() <= s.max_frame_time / s.step,
        s.accumulator == 0 ==> s.accumulate(elapsed).updates_due() <= s.max_frame_time / s.step,
{
    let d = s.step as int;
    let cap = s.max_frame_time as int;
    let a = s.accumulator as int;
    let q = cap / d;
    let r = cap % d;
    lemma_fundamental_div_mod(cap, d);
    let longest = if elapsed > s.max_frame_time { elapsed } else { s.max_frame_time };
    lemma_updates_monotone(s, elapsed, longest);
    lemma_stall_is_clamped(s, longest);
    assert(s.accumulate(elapsed).updates_due() <= (a + cap) / d);
    if a + r < d {
        assert(a + cap == q * d + (a + r)) by (nonlinear_arith)
            requires
                cap == d * q + r,
        ;
        lemma_fundamental_div_mod_converse(a + cap, d, q, a + r);
    } else {
        assert(a + cap == (q + 1) * d + (a + r - d)) by (nonlinear_arith)
            requires
                cap == d * q + r,
        ;
        lemma_fundamental_div_mod_converse(a + cap, d, q + 1, a + r - d);
    }
}

} // verus!
