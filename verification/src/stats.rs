//! Frames and updates per second, counted over windows of at least one
//! second. Times are whole nanoseconds on the clock of the caller.

use vstd::prelude::*;

verus! {

/// Length of a reporting window.
pub const NANOS_PER_SECOND: u64 = 1_000_000_000;

/// The counters as a mathematical value.
pub struct StatsModel {
    /// Frames presented in the running window.
    pub frames: nat,
    /// Updates run in the running window.
    pub updates: nat,
    /// Frames counted in the last finished window.
    pub fps: nat,
    /// Updates counted in the last finished window.
    pub ups: nat,
    /// When the running window ends.
    pub next_report: nat,
}

/// `n`, or `limit` where `n` is beyond it.
pub open spec fn at_most(n: nat, limit: nat) -> nat {
    if n > limit {
        limit
    } else {
        n
    }
}

impl StatsModel {
    /// Counters at zero, with a first window that ends a second after
    /// `start`.
    pub open spec fn starting_at(start: nat) -> StatsModel {
        StatsModel {
            frames: 0,
            updates: 0,
            fps: 0,
            ups: 0,
            next_report: at_most(start + NANOS_PER_SECOND as nat, u64::MAX as nat),
        }
    }

    /// After one more update. The count stops at the largest 32-bit value.
    pub open spec fn update_recorded(self) -> StatsModel {
        StatsModel { updates: at_most(self.updates + 1, u32::MAX as nat), ..self }
    }

    /// Whether a frame presented at `now` ends the running window.
    pub open spec fn window_ends(self, now: nat) -> bool {
        now >= self.next_report
    }

    /// After one more frame, presented at `now`. Where that ends the
    /// window, the counts of the window become the rates, the counters go
    /// back to zero, and the next window ends a second after `now`.
    pub open spec fn frame_recorded(self, now: nat) -> StatsModel {
        let frames = at_most(self.frames + 1, u32::MAX as nat);
        if self.window_ends(now) {
            StatsModel {
                frames: 0,
                updates: 0,
                fps: frames,
                ups: self.updates,
                next_report: at_most(now + NANOS_PER_SECOND as nat, u64::MAX as nat),
            }
        } else {
            StatsModel { frames, ..self }
        }
    }
}

/// Counts frames and updates and turns them into rates once a second.
pub struct FrameStats {
    frame_count: u32,
    update_count: u32,
    fps: u32,
    ups: u32,
    next_report: u64,
}

impl View for FrameStats {
    type V = StatsModel;

    closed spec fn view(&self) -> StatsModel {
        StatsModel {
            frames: self.frame_count as nat,
            updates: self.update_count as nat,
            fps: self.fps as nat,
            ups: self.ups as nat,
            next_report: self.next_report as nat,
        }
    }
}

impl FrameStats {
    /// Counters for a loop that starts at `start`.
    pub fn new(start: u64) -> (stats: Self)
        ensures
            stats@ == StatsModel::starting_at(start as nat),
    {
        FrameStats {
            frame_count: 0,
            update_count: 0,
            fps: 0,
            ups: 0,
            next_report: start.saturating_add(NANOS_PER_SECOND),
        }
    }

    /// Counts one update.
    pub fn record_update(&mut self)
        ensures
            final(self)@ == old(self)@.update_recorded(),
    {
        self.update_count = self.update_count.saturating_add(1);
    }

    /// Counts one frame presented at `now` and says whether the rates
    /// changed.
    pub fn record_frame(&mut self, now: u64) -> (reported: bool)
        ensures
            reported == old(self)@.window_ends(now as nat),
            final(self)@ == old(self)@.frame_recorded(now as nat),
    {
        self.frame_count = self.frame_count.saturating_add(1);
        if now >= self.next_report {
            self.fps = self.frame_count;
            self.ups = self.update_count;
            self.frame_count = 0;
            self.update_count = 0;
            self.next_report = now.saturating_add(NANOS_PER_SECOND);
            true
        } else {
            false
        }
    }

    /// Frames in the last finished window.
    pub fn fps(&self) -> (fps: u32)
        ensures
            fps == self@.fps,
    {
        self.fps
    }

    /// Updates in the last finished window.
    pub fn ups(&self) -> (ups: u32)
        ensures
            ups == self@.ups,
    {
        self.ups
    }
}

/// Every reporting window lasts at least a second: once a frame has ended
/// a window, no frame presented less than a second later ends the next.
pub proof fn lemma_window_lasts_a_second(s: StatsModel, now: nat, later: nat)
    requires
        s.window_ends(now),
        now + NANOS_PER_SECOND <= u64::MAX,
        later < now + NANOS_PER_SECOND,
    ensures
        !s.frame_recorded(now).window_ends(later),
{
}

} // verus!
