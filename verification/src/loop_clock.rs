//! Frame pacing for the render loop.
//!
//! The clock decides, from plain elapsed-time measurements handed in by the
//! caller, whether the loop should redraw immediately or wait, and it keeps a
//! running total of frame times for an average report.  All bookkeeping is in
//! whole microseconds; reading the actual wall clock is the caller's business.

use vstd::prelude::*;

verus! {

/// Microseconds in one second.
pub const MICROS_PER_SECOND: u64 = 1_000_000;

/// One frame at sixty frames per second, in microseconds.  The wait decision
/// always measures the elapsed time against this rate, whatever rate the
/// clock was started with.
pub const SIXTY_FPS_FRAME_MICROS: u64 = 16_666;

/// Number of frames over which `tick` averages before it reports.
pub const REPORT_FRAME_COUNT: u32 = 100;

/// Addition on `u64` that stops at the top of the range instead of wrapping.
pub open spec fn saturating_add_u64(a: u64, b: u64) -> u64 {
    if a + b <= u64::MAX {
        (a + b) as u64
    } else {
        u64::MAX
    }
}

/// Per-loop timing state: the configured frame duration and the running
/// frame-time total for the next average report.
pub struct LoopClock {
    target_frametime: u64,
    frame_count: u32,
    accum_time: u64,
}

impl LoopClock {
    /// The configured duration of one frame, in microseconds.
    pub closed spec fn target_micros(self) -> u64 {
        self.target_frametime
    }

    /// Frames counted toward the next average report.
    pub closed spec fn frames(self) -> u32 {
        self.frame_count
    }

    /// Total frame time counted toward the next average report, in microseconds.
    pub closed spec fn accum_micros(self) -> u64 {
        self.accum_time
    }

    /// The wait that `get_wait_duration` answers for a given elapsed time.
    pub open spec fn spec_wait(self, elapsed_micros: u64) -> u64 {
        if elapsed_micros <= self.target_micros() {
            (self.target_micros() - elapsed_micros) as u64
        } else {
            0u64
        }
    }

    /// Starts a clock aiming at `fps` frames per second.
    pub fn start_clock(fps: u64) -> (clock: LoopClock)
        requires
            1 <= fps,
        ensures
            clock.target_micros() == MICROS_PER_SECOND as int / fps as int,
            clock.frames() == 0,
            clock.accum_micros() == 0,
    {
        LoopClock {
            target_frametime: MICROS_PER_SECOND / fps,
            frame_count: 0,
            accum_time: 0,
        }
    }

    /// Decides whether the loop may redraw at once or should wait.
    ///
    /// `elapsed_micros` is the time since the last redraw decision.  Once a
    /// sixty-frames-per-second frame has passed the answer is to redraw now
    /// (`None`); otherwise it is the remaining part of the configured frame
    /// duration, or nothing of it is left, a wait of zero.
    pub fn get_wait_duration(&self, elapsed_micros: u64) -> (wait: Option<u64>)
        ensures
            elapsed_micros >= SIXTY_FPS_FRAME_MICROS ==> wait is None,
            elapsed_micros < SIXTY_FPS_FRAME_MICROS ==> wait == Some(self.spec_wait(elapsed_micros)),
    {
        if elapsed_micros >= SIXTY_FPS_FRAME_MICROS {
            None
        } else if elapsed_micros <= self.target_frametime {
            Some(self.target_frametime - elapsed_micros)
        } else {
            Some(0)
        }
    }

    /// Counts one frame's time toward the average report.
    ///
    /// The new total is the old one plus `elapsed_micros`, saturating at the
    /// top of the range.  When the report threshold is reached the average
    /// frame time in microseconds is returned and the totals start over;
    /// otherwise nothing is reported.
    pub fn tick(&mut self, elapsed_micros: u64) -> (report: Option<u64>)
        ensures
            final(self).target_micros() == old(self).target_micros(),
            old(self).frames() == REPORT_FRAME_COUNT ==> {
                &&& report == Some(
                    saturating_add_u64(old(self).accum_micros(), elapsed_micros)
                        / (REPORT_FRAME_COUNT as u64),
                )
                &&& final(self).frames() == 0
                &&& final(self).accum_micros() == 0
            },
            old(self).frames() != REPORT_FRAME_COUNT ==> {
                &&& report is None
                &&& final(self).frames() == old(self).frames()
                &&& final(self).accum_micros() == saturating_add_u64(
                    old(self).accum_micros(),
                    elapsed_micros,
                )
            },
    {
        if elapsed_micros <= u64::MAX - self.accum_time {
            self.accum_time = self.accum_time + elapsed_micros;
        } else {
            self.accum_time = u64::MAX;
        }
        if self.frame_count == REPORT_FRAME_COUNT {
            let average_frametime = self.accum_time / (REPORT_FRAME_COUNT as u64);
            self.accum_time = 0;
            self.frame_count = 0;
            Some(average_frametime)
        } else {
            None
        }
    }
}

} // verus!
