use vstd::prelude::*;

use crate::timing::Timing;
use crate::window::window_average;
use crate::window::UpdateWindow;
use crate::window::window_bounded;
use crate::window::window_of;
use crate::window::window_pre_filled;
use crate::window::window_push;
use crate::window::window_sum;
use crate::window::lemma_window_sum_bounds;
use crate::window::MAX_UPDATE_SAMPLE_NANOS;
use crate::quantize;
use crate::quantize_spec;
use crate::ELAPSED_QUANT_NANOS;
use crate::NANOS_PER_SEC;

verus! {

/// Sleep step while far from the idle deadline: 1 ms.
pub const IDLE_COARSE_STEP_NANOS: u64 = 1_000_000;

/// Sleep step while close to the idle deadline: 0.1 ms.
pub const IDLE_FINE_STEP_NANOS: u64 = 100_000;

/// Update times are not recorded during the first half second, keeping
/// startup transients out of the diagnostic average.
pub const STARTUP_GRACE_NANOS: u64 = 500_000_000;

/// The update-time window starts out filled with 1/120 s per frame.
pub const INITIAL_UPDATE_SAMPLE_NANOS: u64 = 8_333_333;

/// What the caller should do next while idling at the end of a frame.
#[derive(Clone, Copy, Debug, PartialEq, Eq, Structural)]
pub enum IdleAction {
    /// Sleep for `IDLE_COARSE_STEP_NANOS`, then ask again.
    SleepCoarse,
    /// Sleep for `IDLE_FINE_STEP_NANOS`, then ask again.
    SleepFine,
    /// Within a fine step of the deadline, or no limit configured: stop.
    Done,
}

/// The lower clamp for smoothed elapsed time in a limited mode: the duration
/// of one frame at the limit.
pub open spec fn min_elapsed_nanos(fps_limit: u32) -> int {
    NANOS_PER_SEC as int / fps_limit as int
}

/// Smoothed elapsed time: quantized to the display-shaped step for the vsync
/// family, then clamped into [one frame at the limit, one second] when a
/// frame-rate limit is configured.
pub open spec fn smoothed_elapsed_spec(t: Timing, raw: int) -> int {
    let q = if t.is_vsync_family() {
        quantize_spec(raw, ELAPSED_QUANT_NANOS as int)
    } else {
        raw
    };
    match t.fps_limit() {
        Option::Some(f) => if q < min_elapsed_nanos(f) {
            min_elapsed_nanos(f)
        } else if q > NANOS_PER_SEC {
            NANOS_PER_SEC as int
        } else {
            q
        },
        Option::None => q,
    }
}

/// The idle deadline, measured from frame start: one frame at the limit. The
/// vsync family subtracts a coarse step of safety margin, so the frame is
/// ready just before the display's sync point rather than racing it.
pub open spec fn idle_target_nanos(t: Timing) -> int {
    match t {
        Timing::VsyncLimitFPS(f) => if NANOS_PER_SEC as int / f as int >= IDLE_COARSE_STEP_NANOS {
            NANOS_PER_SEC as int / f as int - IDLE_COARSE_STEP_NANOS
        } else {
            0
        },
        Timing::ImmediateLimitFPS(f) => NANOS_PER_SEC as int / f as int,
        _ => 0,
    }
}

/// The idle policy: done when no limit is configured or once within a fine
/// step of the deadline; a coarse sleep while more than a coarse step away;
/// fine sleeps in between. The graduated steps bound oversleeping to roughly
/// one fine step while keeping the CPU idle most of the wait.
pub open spec fn idle_action_spec(t: Timing, elapsed: int) -> IdleAction {
    if !t.has_limit() {
        IdleAction::Done
    } else {
        let target = idle_target_nanos(t);
        if elapsed >= target {
            IdleAction::Done
        } else if target - elapsed > IDLE_COARSE_STEP_NANOS {
            IdleAction::SleepCoarse
        } else if target - elapsed > IDLE_FINE_STEP_NANOS {
            IdleAction::SleepFine
        } else {
            IdleAction::Done
        }
    }
}

/// All wall-clock bookkeeping for the frame loop. The surrounding program
/// reads a monotonic clock and passes timestamps in as nanosecond counts;
/// this type never reads a clock itself, which keeps the timing logic usable
/// without any native library present.
pub struct FrameClock {
    timing: Timing,
    app_start_nanos: u64,
    frame_start_nanos: u64,
    last_log_nanos: u64,
    log_interval_nanos: Option<u64>,
    elapsed_raw_nanos: u64,
    elapsed_smoothed_nanos: u64,
    update_window: UpdateWindow,
}

impl FrameClock {
    /// The timing mode this clock was configured with.
    pub closed spec fn spec_timing(self) -> Timing {
        self.timing
    }

    /// The timestamp the clock was created at.
    pub closed spec fn spec_app_start(self) -> u64 {
        self.app_start_nanos
    }

    /// The timestamp of the current frame's start.
    pub closed spec fn spec_frame_start(self) -> u64 {
        self.frame_start_nanos
    }

    /// The timestamp of the last FPS log line (or of creation).
    pub closed spec fn spec_last_log(self) -> u64 {
        self.last_log_nanos
    }

    /// The configured FPS-logging interval, if any.
    pub closed spec fn spec_log_interval(self) -> Option<u64> {
        self.log_interval_nanos
    }

    /// The previous frame's duration, unsmoothed.
    pub closed spec fn spec_elapsed_raw(self) -> u64 {
        self.elapsed_raw_nanos
    }

    /// The previous frame's duration, quantized and clamped.
    pub closed spec fn spec_elapsed_smoothed(self) -> u64 {
        self.elapsed_smoothed_nanos
    }

    /// The diagnostic window of recent update times, oldest first.
    pub closed spec fn window(self) -> Seq<i64> {
        window_of(self.update_window)
    }

    /// The clock's invariant: a positive frame-rate limit, and a full window
    /// of bounded update-time values.
    pub open spec fn wf(self) -> bool {
        &&& self.spec_timing().wf()
        &&& self.window().len() == 60
        &&& window_bounded(self.window())
    }

    /// A clock for the given timing mode, with `now_nanos` as both the app
    /// start and the first frame's start.
    pub fn new(timing: Timing, now_nanos: u64) -> (r: Self)
        requires
            timing.wf(),
        ensures
            r.wf(),
            r.spec_timing() == timing,
            r.spec_app_start() == now_nanos,
            r.spec_frame_start() == now_nanos,
            r.spec_last_log() == now_nanos,
            r.spec_log_interval() is None,
            r.spec_elapsed_raw() == 0,
            r.spec_elapsed_smoothed() == 0,
            r.window() == Seq::new(60, |i: int| INITIAL_UPDATE_SAMPLE_NANOS as i64),
    {
        let window = window_pre_filled(INITIAL_UPDATE_SAMPLE_NANOS as i64);
        FrameClock {
            timing,
            app_start_nanos: now_nanos,
            frame_start_nanos: now_nanos,
            last_log_nanos: now_nanos,
            log_interval_nanos: Option::None,
            elapsed_raw_nanos: 0,
            elapsed_smoothed_nanos: 0,
            update_window: window,
        }
    }

    /// Begins a new frame at `now_nanos`: records the finished frame's raw
    /// duration, derives the smoothed duration from it, and restarts the
    /// frame timer. Timestamps come from a monotonic clock, so they never
    /// decrease; the upper bound keeps the quantization inside `u64`.
    pub fn frame_start(&mut self, now_nanos: u64)
        requires
            old(self).wf(),
            old(self).spec_frame_start() <= now_nanos,
            now_nanos - old(self).spec_frame_start() + ELAPSED_QUANT_NANOS <= u64::MAX,
        ensures
            final(self).wf(),
            final(self).spec_elapsed_raw() == now_nanos - old(self).spec_frame_start(),
            final(self).spec_elapsed_smoothed() == smoothed_elapsed_spec(
                old(self).spec_timing(),
                now_nanos - old(self).spec_frame_start(),
            ),
            old(self).spec_timing().fps_limit() matches Some(f) ==> min_elapsed_nanos(f)
                <= final(self).spec_elapsed_smoothed() <= NANOS_PER_SEC,
            final(self).spec_frame_start() == now_nanos,
            final(self).spec_timing() == old(self).spec_timing(),
            final(self).spec_app_start() == old(self).spec_app_start(),
            final(self).spec_last_log() == old(self).spec_last_log(),
            final(self).spec_log_interval() == old(self).spec_log_interval(),
            final(self).window() == old(self).window(),
    {
        let raw = now_nanos - self.frame_start_nanos;
        self.elapsed_raw_nanos = raw;
        self.frame_start_nanos = now_nanos;
        let q = match self.timing {
            Timing::Vsync | Timing::VsyncLimitFPS(_) => quantize(raw, ELAPSED_QUANT_NANOS),
            Timing::Immediate | Timing::ImmediateLimitFPS(_) => raw,
        };
        let s = match self.timing {
            Timing::VsyncLimitFPS(f) | Timing::ImmediateLimitFPS(f) => {
                let lo = NANOS_PER_SEC / (f as u64);
                if q < lo {
                    lo
                } else if q > NANOS_PER_SEC {
                    NANOS_PER_SEC
                } else {
                    q
                }
            },
            _ => q,
        };
        self.elapsed_smoothed_nanos = s;
    }

    /// Ends the frame's measured work at `now_nanos`: past the startup grace
    /// period, the time since frame start is recorded in the diagnostic
    /// update-time window. The bound on the recorded duration is what keeps
    /// the window's running sum inside `i64`.
    pub fn frame_finish_record(&mut self, now_nanos: u64)
        requires
            old(self).wf(),
            old(self).spec_frame_start() <= now_nanos,
            old(self).spec_app_start() <= now_nanos,
            now_nanos - old(self).spec_frame_start() <= MAX_UPDATE_SAMPLE_NANOS,
        ensures
            final(self).wf(),
            final(self).window() == if now_nanos - old(self).spec_app_start()
                > STARTUP_GRACE_NANOS {
                old(self).window().subrange(1, 60).push(
                    (now_nanos - old(self).spec_frame_start()) as i64,
                )
            } else {
                old(self).window()
            },
            final(self).spec_timing() == old(self).spec_timing(),
            final(self).spec_app_start() == old(self).spec_app_start(),
            final(self).spec_frame_start() == old(self).spec_frame_start(),
            final(self).spec_last_log() == old(self).spec_last_log(),
            final(self).spec_log_interval() == old(self).spec_log_interval(),
            final(self).spec_elapsed_raw() == old(self).spec_elapsed_raw(),
            final(self).spec_elapsed_smoothed() == old(self).spec_elapsed_smoothed(),
    {
        if now_nanos - self.app_start_nanos > STARTUP_GRACE_NANOS {
            let sample = (now_nanos - self.frame_start_nanos) as i64;
            window_push(&mut self.update_window, sample);
            proof {
                let w = window_of(self.update_window);
                assert forall|i: int| 0 <= i < w.len() implies 0 <= #[trigger] w[i]
                    <= MAX_UPDATE_SAMPLE_NANOS by {
                    if i < 59 {
                        assert(w[i] == old(self).window()[i + 1]);
                    }
                }
            }
        }
    }

    /// The idle-wait policy at `now_nanos`: what the caller should do next to
    /// finish the frame just ahead of its deadline. Idling only ever ends
    /// within a fine step of the deadline, and modes without a limit never
    /// sleep at all.
    pub fn idle_action(&self, now_nanos: u64) -> (r: IdleAction)
        requires
            self.wf(),
            self.spec_frame_start() <= now_nanos,
        ensures
            r == idle_action_spec(self.spec_timing(), now_nanos - self.spec_frame_start()),
            r is Done && self.spec_timing().has_limit() ==> now_nanos - self.spec_frame_start()
                >= idle_target_nanos(self.spec_timing()) - IDLE_FINE_STEP_NANOS,
            !self.spec_timing().has_limit() ==> r is Done,
    {
        let target: u64 = match self.timing {
            Timing::VsyncLimitFPS(f) => {
                let t = NANOS_PER_SEC / (f as u64);
                if t >= IDLE_COARSE_STEP_NANOS {
                    t - IDLE_COARSE_STEP_NANOS
                } else {
                    0
                }
            },
            Timing::ImmediateLimitFPS(f) => NANOS_PER_SEC / (f as u64),
            Timing::Vsync | Timing::Immediate => {
                return IdleAction::Done;
            },
        };
        let elapsed = now_nanos - self.frame_start_nanos;
        if elapsed >= target {
            IdleAction::Done
        } else if target - elapsed > IDLE_COARSE_STEP_NANOS {
            IdleAction::SleepCoarse
        } else if target - elapsed > IDLE_FINE_STEP_NANOS {
            IdleAction::SleepFine
        } else {
            IdleAction::Done
        }
    }

    /// Whether the periodic FPS log line is due at `now_nanos`; when it is,
    /// the log timer restarts. Nothing is ever due while no interval is
    /// configured.
    pub fn fps_log_due(&mut self, now_nanos: u64) -> (r: bool)
        requires
            old(self).spec_last_log() <= now_nanos,
        ensures
            r == (old(self).spec_log_interval() matches Some(iv) && now_nanos
                - old(self).spec_last_log() > iv),
            final(self).spec_last_log() == if r {
                now_nanos
            } else {
                old(self).spec_last_log()
            },
            final(self).spec_timing() == old(self).spec_timing(),
            final(self).spec_app_start() == old(self).spec_app_start(),
            final(self).spec_frame_start() == old(self).spec_frame_start(),
            final(self).spec_log_interval() == old(self).spec_log_interval(),
            final(self).spec_elapsed_raw() == old(self).spec_elapsed_raw(),
            final(self).spec_elapsed_smoothed() == old(self).spec_elapsed_smoothed(),
            final(self).window() == old(self).window(),
            old(self).wf() ==> final(self).wf(),
    {
        match self.log_interval_nanos {
            Option::Some(iv) => {
                if now_nanos - self.last_log_nanos > iv {
                    self.last_log_nanos = now_nanos;
                    true
                } else {
                    false
                }
            },
            Option::None => false,
        }
    }

    /// Configures (or clears) the interval for periodic FPS logging.
    pub fn set_log_interval(&mut self, interval_nanos: Option<u64>)
        ensures
            final(self).spec_log_interval() == interval_nanos,
            final(self).spec_timing() == old(self).spec_timing(),
            final(self).spec_app_start() == old(self).spec_app_start(),
            final(self).spec_frame_start() == old(self).spec_frame_start(),
            final(self).spec_last_log() == old(self).spec_last_log(),
            final(self).spec_elapsed_raw() == old(self).spec_elapsed_raw(),
            final(self).spec_elapsed_smoothed() == old(self).spec_elapsed_smoothed(),
            final(self).window() == old(self).window(),
            old(self).wf() ==> final(self).wf(),
    {
        self.log_interval_nanos = interval_nanos;
    }

    /// The previous frame's duration, smoothed: quantized for the vsync
    /// family and clamped under a frame-rate limit. The stable choice for
    /// delta timing.
    pub fn elapsed_time_nanos(&self) -> (r: u64)
        ensures
            r == self.spec_elapsed_smoothed(),
    {
        self.elapsed_smoothed_nanos
    }

    /// The previous frame's duration without any smoothing; true timing, but
    /// feeding it into delta timing passes every bit of jitter along.
    pub fn elapsed_time_raw_nanos(&self) -> (r: u64)
        ensures
            r == self.spec_elapsed_raw(),
    {
        self.elapsed_raw_nanos
    }

    /// The rolling average of recently recorded update times. A diagnostic
    /// only; never used as a control input.
    pub fn update_time_nanos(&self) -> (r: u64)
        requires
            self.wf(),
        ensures
            r == window_sum(self.window()) / 60,
    {
        proof {
            lemma_window_sum_bounds(self.window());
        }
        let avg = window_average(&self.update_window);
        avg as u64
    }

    /// The timestamp the current frame started at, as passed to
    /// `frame_start`; callers measure idle progress against it.
    pub fn frame_start_nanos(&self) -> (r: u64)
        ensures
            r == self.spec_frame_start(),
    {
        self.frame_start_nanos
    }

    /// The timestamp of the last FPS log (or of creation), the reference
    /// point for `fps_log_due`.
    pub fn last_log_nanos(&self) -> (r: u64)
        ensures
            r == self.spec_last_log(),
    {
        self.last_log_nanos
    }

    /// Nanoseconds from the clock's creation to `now_nanos`.
    pub fn time_nanos(&self, now_nanos: u64) -> (r: u64)
        requires
            self.spec_app_start() <= now_nanos,
        ensures
            r == now_nanos - self.spec_app_start(),
    {
        now_nanos - self.app_start_nanos
    }

    /// Whole frames per second implied by the smoothed elapsed time; zero
    /// before the first frame has been measured.
    pub fn fps(&self) -> (r: u64)
        ensures
            r == if self.spec_elapsed_smoothed() > 0 {
                NANOS_PER_SEC as int / self.spec_elapsed_smoothed() as int
            } else {
                0
            },
    {
        if self.elapsed_smoothed_nanos > 0 {
            NANOS_PER_SEC / self.elapsed_smoothed_nanos
        } else {
            0
        }
    }

    /// The timing mode this clock was configured with.
    pub fn timing(&self) -> (r: Timing)
        ensures
            r == self.spec_timing(),
    {
        self.timing
    }
}

} // verus!
