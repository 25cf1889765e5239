//! The raster engine: driver front end, horizontal state machine, shock
//! absorber and the scanline-buffer handoff.
//!
//! The engine is driven entirely by events. The surrounding program owns the
//! hardware: it feeds elapsed timer ticks in through [`Vga::advance_ticks`],
//! reports each line-timer firing through [`Vga::hstate_tick`], each
//! shock-absorber-timer firing through [`Vga::shock_tick`], and runs the
//! raster-maintenance step by checking a buffer out with
//! [`Vga::take_working`], letting the rasterizer fill it, and handing it
//! back with [`Vga::give_working`]. Every transition returns the actions the
//! hardware must perform — sync polarity, the valid range to arm the
//! transfer engine with, which line to render next — so the timing logic
//! itself is ordinary sequential code with a full contract.

use vstd::prelude::*;

verus! {

use vstd::arithmetic::div_mod::lemma_fundamental_div_mod;
use crate::buffer::ScanBuffer;
use crate::timing::ConfigError;
use crate::timing::Timing;

/// The driver front end's lifecycle state. A `Vga` value comes into being
/// already configured, so the unconfigured state has no representation.
#[derive(Clone, Copy, PartialEq, Eq, Structural, Debug)]
pub enum DriverPhase {
    /// Timing accepted and programmed; interrupts not yet running.
    Configured,
    /// Line timer, shock absorber and raster maintenance are live.
    Rastering,
    /// Interrupts disabled again; the raster has been shut down.
    Stopped,
}

/// What the raster engine is doing with the current line.
#[derive(Clone, Copy, PartialEq, Eq, Structural, Debug)]
pub enum RasterState {
    /// No raster running.
    Idle,
    /// The current line is visible: pixels are streaming out.
    ActiveVisible,
    /// The current line lies in the blanking region.
    ActiveBlank,
    /// The shock absorber forced a phase resynchronization; the next
    /// line-timer service re-establishes lock-step.
    Resyncing,
}

/// The hardware actions one line-timer service asks for.
#[derive(Clone, Copy, PartialEq, Eq, Structural, Debug)]
pub struct LineActions {
    /// Whether the vertical sync pulse is asserted on this line.
    pub sync_pulse_active: bool,
    /// Whether pixel output is driven this line: a visible line with
    /// output enabled.
    pub video_active: bool,
    /// `Some(n)` arms the transfer engine to stream the leading `n` bytes
    /// of the armed buffer for this line; `None` on blanking lines.
    pub arm_valid_len: Option<usize>,
    /// `Some(r)` triggers raster maintenance to render visible line `r`
    /// (counted from the top of the visible region) into the working
    /// buffer, one line ahead of its use.
    pub render_line: Option<usize>,
    /// Whether this service wrapped the line counter: the frame just
    /// completed and vertical blank begins.
    pub frame_completed: bool,
}

/// A pending wait for the next frame boundary: the frame count captured
/// when the wait began.
#[derive(Clone, Copy, PartialEq, Eq, Structural, Debug)]
pub struct VblankWait {
    /// The completed-frame count at the moment the wait began.
    pub frame_at_start: u64,
}

/// The raster engine. One instance owns the timing, the per-frame counters,
/// the two scanline buffers and the flags that govern their handoff.
pub struct Vga {
    /// The validated timing the raster runs.
    pub timing: Timing,
    /// Front-end lifecycle state.
    pub phase: DriverPhase,
    /// What the engine is doing with the current line.
    pub raster_state: RasterState,
    /// Current line within the frame, `0 .. lines_per_frame`.
    pub line: usize,
    /// Completed frames since rastering started.
    pub frame: u64,
    /// Whether the current line missed its deadline: it was visible but
    /// its fresh buffer was not ready at arm time, or the shock absorber
    /// just forced a resync. Cleared by the next line that meets its
    /// deadline.
    pub deadline_missed: bool,
    /// Total lines whose deadline was missed.
    pub miss_count: u64,
    /// Whether the output pins are driven during visible lines.
    pub output_enabled: bool,
    /// The buffer raster maintenance fills for the coming line.
    pub working: ScanBuffer,
    /// The buffer the transfer engine streams from.
    pub armed: ScanBuffer,
    /// Whether the working buffer holds a finished line not yet consumed.
    pub working_ready: bool,
    /// Whether the working buffer is checked out to the rasterizer.
    pub working_checked_out: bool,
    /// Ticks elapsed since the line timer was last serviced; the shock
    /// absorber's watchdog counter.
    pub phase_ticks: u64,
}

/// Whether `b` is a blank buffer of `width` zero pixels with an empty
/// valid range.
pub open spec fn blank_buffer(b: ScanBuffer, width: int) -> bool {
    &&& b.pixels.len() == width
    &&& (forall|i: int| 0 <= i < width ==> b.pixels@[i] == 0u8)
    &&& b.valid_len == 0
}

impl Vga {
    /// The engine's internal invariant: the timing is well formed, the line
    /// counter lies within the frame, and both scanline buffers are sized
    /// to the active region with their valid ranges inside their bounds.
    /// While the working buffer is checked out to the rasterizer, its slot
    /// holds an empty placeholder and cannot be marked ready.
    pub open spec fn wf(self) -> bool {
        &&& self.timing.wf()
        &&& self.line < self.timing.lines_per_frame
        &&& self.armed.wf()
        &&& self.armed.pixels.len() == self.timing.video_ticks
        &&& self.working.wf()
        &&& (!self.working_checked_out ==> self.working.pixels.len() == self.timing.video_ticks)
        &&& (self.working_checked_out ==> !self.working_ready)
    }

    /// The line the next line-timer service moves to.
    pub open spec fn next_line_spec(self) -> int {
        if self.line + 1 == self.timing.lines_per_frame {
            0
        } else {
            self.line + 1
        }
    }

    /// Whether the next line-timer service wraps the frame.
    pub open spec fn wraps(self) -> bool {
        self.line + 1 == self.timing.lines_per_frame
    }

    /// Whether a finished working buffer is available for the swap: marked
    /// ready and not checked out to the rasterizer.
    pub open spec fn buffer_ready(self) -> bool {
        self.working_ready && !self.working_checked_out
    }

    /// Lines since rastering started: completed frames times frame length
    /// plus the current line.
    pub open spec fn absolute_line(self) -> int {
        self.frame * self.timing.lines_per_frame + self.line
    }

    /// The engine state after one line-timer service: the line counter
    /// advances and wraps, the frame counter counts the wrap, the watchdog
    /// phase resets, and on a visible line the buffers swap if the working
    /// buffer is ready — otherwise the stale armed buffer is kept and the
    /// miss is recorded.
    pub open spec fn hstate_next(self) -> Vga {
        let l = self.next_line_spec();
        let vis = self.timing.line_visible(l);
        let consume = vis && self.buffer_ready();
        let miss = vis && !self.buffer_ready();
        Vga {
            raster_state: if vis {
                RasterState::ActiveVisible
            } else {
                RasterState::ActiveBlank
            },
            line: l as usize,
            frame: if self.wraps() {
                (self.frame + 1) as u64
            } else {
                self.frame
            },
            deadline_missed: miss,
            miss_count: if miss {
                (self.miss_count + 1) as u64
            } else {
                self.miss_count
            },
            working: if consume {
                self.armed
            } else {
                self.working
            },
            armed: if consume {
                self.working
            } else {
                self.armed
            },
            working_ready: if consume {
                false
            } else {
                self.working_ready
            },
            phase_ticks: 0,
            ..self
        }
    }

    /// The actions one line-timer service asks of the hardware: vertical
    /// sync polarity for the new line, the valid range to arm on a visible
    /// line, the raster-maintenance trigger for the line after, and the
    /// frame-completed signal on a wrap.
    pub open spec fn hstate_actions(self) -> LineActions {
        let l = self.next_line_spec();
        let l2 = if l + 1 == self.timing.lines_per_frame {
            0
        } else {
            l + 1
        };
        let vis = self.timing.line_visible(l);
        LineActions {
            sync_pulse_active: self.timing.line_in_vsync(l),
            video_active: vis && self.output_enabled,
            arm_valid_len: if vis {
                if self.buffer_ready() {
                    Some(self.working.valid_len)
                } else {
                    Some(self.armed.valid_len)
                }
            } else {
                None
            },
            render_line: if self.timing.line_visible(l2) {
                Some((l2 - self.timing.video_start_line) as usize)
            } else {
                None
            },
            frame_completed: self.wraps(),
        }
    }

    /// Whether the watchdog has drifted beyond tolerance: the line timer is
    /// more than `shock_tolerance_ticks` past due.
    pub open spec fn shock_diverged(self) -> bool {
        self.phase_ticks > self.timing.line_ticks + self.timing.shock_tolerance_ticks
    }

    /// The engine state after one shock-absorber service. Without
    /// divergence nothing changes. On divergence the engine is forcibly
    /// realigned: every whole line period sitting in the watchdog counter
    /// becomes one line advance — wrapping frames as needed — the phase
    /// keeps only the remainder, and the glitch is recorded.
    pub open spec fn shock_next(self) -> Vga {
        if !self.shock_diverged() {
            self
        } else {
            let lt = self.timing.line_ticks as int;
            let t = self.timing.lines_per_frame as int;
            let k = self.phase_ticks as int / lt;
            Vga {
                line: ((self.line + k) % t) as usize,
                frame: (self.frame + (self.line + k) / t) as u64,
                phase_ticks: (self.phase_ticks as int % lt) as u64,
                raster_state: RasterState::Resyncing,
                deadline_missed: true,
                ..self
            }
        }
    }

    /// Validates `timing` and, if it is acceptable, builds the engine in
    /// the configured state: counters zeroed, flags clear, output disabled,
    /// and two blank scanline buffers sized to the active region.
    ///
    /// Returns `Ok` exactly on well-formed timings; otherwise the first
    /// rule the timing violates, and no engine comes into being.
    pub fn configure(timing: Timing) -> (r: Result<Vga, ConfigError>)
        ensures
            r is Ok <==> timing.wf(),
            r matches Err(e) ==> timing.validate_spec() == Err::<(), ConfigError>(e),
            r matches Ok(v) ==> {
                &&& v.wf()
                &&& v.timing == timing
                &&& v.phase is Configured
                &&& v.raster_state is Idle
                &&& v.line == 0
                &&& v.frame == 0
                &&& !v.deadline_missed
                &&& v.miss_count == 0
                &&& !v.output_enabled
                &&& blank_buffer(v.working, timing.video_ticks as int)
                &&& blank_buffer(v.armed, timing.video_ticks as int)
                &&& !v.working_ready
                &&& !v.working_checked_out
                &&& v.phase_ticks == 0
            },
    {
        match timing.validate() {
            Err(e) => Err(e),
            Ok(()) => Ok(
                Vga {
                    timing,
                    phase: DriverPhase::Configured,
                    raster_state: RasterState::Idle,
                    line: 0,
                    frame: 0,
                    deadline_missed: false,
                    miss_count: 0,
                    output_enabled: false,
                    working: ScanBuffer::new(timing.video_ticks),
                    armed: ScanBuffer::new(timing.video_ticks),
                    working_ready: false,
                    working_checked_out: false,
                    phase_ticks: 0,
                },
            ),
        }
    }

    /// Enables the raster: from here the three interrupt-driven services
    /// run autonomously. The engine starts at line zero of frame zero,
    /// which the well-formedness rules place in the blanking region.
    pub fn start_rastering(&mut self)
        requires
            old(self).wf(),
            old(self).phase is Configured,
        ensures
            *final(self) == (Vga {
                phase: DriverPhase::Rastering,
                raster_state: RasterState::ActiveBlank,
                ..*old(self)
            }),
            final(self).wf(),
    {
        self.phase = DriverPhase::Rastering;
        self.raster_state = RasterState::ActiveBlank;
    }

    /// Shuts the raster down: interrupts are disabled and the engine
    /// returns to idle. An in-flight maintenance step may still hand its
    /// buffer back afterwards; the result is simply never consumed.
    pub fn stop(&mut self)
        requires
            old(self).wf(),
            old(self).phase is Rastering,
        ensures
            *final(self) == (Vga {
                phase: DriverPhase::Stopped,
                raster_state: RasterState::Idle,
                ..*old(self)
            }),
            final(self).wf(),
    {
        self.phase = DriverPhase::Stopped;
        self.raster_state = RasterState::Idle;
    }

    /// Turns pixel output on or off. Sync pulses run regardless; only the
    /// `video_active` action of visible lines follows this switch.
    pub fn set_output_enabled(&mut self, enabled: bool)
        ensures
            *final(self) == (Vga { output_enabled: enabled, ..*old(self) }),
    {
        self.output_enabled = enabled;
    }

    /// Accounts `n` elapsed timer ticks to the watchdog counter.
    pub fn advance_ticks(&mut self, n: u64)
        requires
            old(self).phase_ticks + n <= u64::MAX,
        ensures
            *final(self) == (Vga {
                phase_ticks: (old(self).phase_ticks + n) as u64,
                ..*old(self)
            }),
    {
        self.phase_ticks = self.phase_ticks + n;
    }

    /// One line-timer service: the highest-priority step of the engine.
    ///
    /// Advances to the next line — wrapping the frame and signalling
    /// vertical blank when the frame total is reached — resets the
    /// watchdog, programs the sync polarity for the new line, and on a
    /// visible line arms the transfer engine: with the freshly filled
    /// working buffer if raster maintenance delivered it in time, else
    /// with the stale armed buffer, recording the missed deadline instead
    /// of ever stalling. Whenever the line after next is visible, raster
    /// maintenance is triggered to prepare it one line period ahead.
    pub fn hstate_tick(&mut self) -> (r: LineActions)
        requires
            old(self).wf(),
            old(self).phase is Rastering,
            old(self).frame < u64::MAX,
            old(self).miss_count < u64::MAX,
        ensures
            *final(self) == old(self).hstate_next(),
            r == old(self).hstate_actions(),
            final(self).wf(),
            r.arm_valid_len matches Some(n) ==> n <= final(self).armed.pixels.len(),
    {
        let wrap = self.line + 1 == self.timing.lines_per_frame;
        let l = if wrap {
            0
        } else {
            self.line + 1
        };
        self.line = l;
        if wrap {
            self.frame = self.frame + 1;
        }
        self.phase_ticks = 0;
        let vis = self.timing.video_start_line <= l && l < self.timing.video_end_line;
        let mut r = LineActions {
            sync_pulse_active: self.timing.vsync_start_line <= l && l < self.timing.vsync_end_line,
            video_active: vis && self.output_enabled,
            arm_valid_len: None,
            render_line: None,
            frame_completed: wrap,
        };
        if vis {
            self.raster_state = RasterState::ActiveVisible;
            if self.working_ready && !self.working_checked_out {
                core::mem::swap(&mut self.working, &mut self.armed);
                self.working_ready = false;
                self.deadline_missed = false;
            } else {
                self.deadline_missed = true;
                self.miss_count = self.miss_count + 1;
            }
            r.arm_valid_len = Some(self.armed.valid_len);
        } else {
            self.raster_state = RasterState::ActiveBlank;
            self.deadline_missed = false;
        }
        let l2 = if l + 1 == self.timing.lines_per_frame {
            0
        } else {
            l + 1
        };
        if self.timing.video_start_line <= l2 && l2 < self.timing.video_end_line {
            r.render_line = Some(l2 - self.timing.video_start_line);
        }
        r
    }

    /// One shock-absorber service: the independent watchdog step.
    ///
    /// Compares the ticks accumulated since the last line-timer service
    /// against the line period plus the configured tolerance. Within
    /// tolerance it does nothing and returns `false`. Beyond it, the line
    /// timer has missed at least one firing: the engine is forcibly
    /// realigned by advancing one line per whole line period owed, keeping
    /// the tick remainder as the new phase, so sync cadence resumes at the
    /// cost of glitched lines rather than a permanent drift.
    pub fn shock_tick(&mut self) -> (resynced: bool)
        requires
            old(self).wf(),
            old(self).phase is Rastering,
            old(self).frame + old(self).phase_ticks / (old(self).timing.line_ticks as u64)
                <= u64::MAX,
        ensures
            *final(self) == old(self).shock_next(),
            resynced == old(self).shock_diverged(),
            final(self).wf(),
    {
        let lt = self.timing.line_ticks as u64;
        let tol = self.timing.shock_tolerance_ticks as u64;
        if (self.phase_ticks as u128) > lt as u128 + tol as u128 {
            let k: u64 = self.phase_ticks / lt;
            let t = self.timing.lines_per_frame as u64;
            let sum: u128 = self.line as u128 + k as u128;
            let new_line: usize = (sum % (t as u128)) as usize;
            let inc: u64 = (sum / (t as u128)) as u64;
            proof {
                lemma_line_carry_bounded(old(self).line as int, k as int, t as int);
            }
            self.line = new_line;
            self.frame = self.frame + inc;
            self.phase_ticks = self.phase_ticks % lt;
            self.raster_state = RasterState::Resyncing;
            self.deadline_missed = true;
            true
        } else {
            false
        }
    }

    /// Checks the working buffer out to the rasterizer. Raster maintenance
    /// calls this before invoking the per-line callback; until the buffer
    /// comes back through [`Vga::give_working`], the slot holds an empty
    /// placeholder and the line-timer service treats the buffer as not
    /// ready — the deadline-miss path, never a wait.
    pub fn take_working(&mut self) -> (b: ScanBuffer)
        requires
            old(self).wf(),
            old(self).phase is Rastering,
            !old(self).working_checked_out,
        ensures
            b == old(self).working,
            b.pixels.len() == old(self).timing.video_ticks,
            final(self).working_checked_out,
            !final(self).working_ready,
            final(self).working.pixels.len() == 0,
            final(self).working.valid_len == 0,
            *final(self) == (Vga {
                working: final(self).working,
                working_ready: false,
                working_checked_out: true,
                ..*old(self)
            }),
            final(self).wf(),
    {
        let mut b = ScanBuffer { pixels: Vec::new(), valid_len: 0 };
        core::mem::swap(&mut b, &mut self.working);
        self.working_checked_out = true;
        self.working_ready = false;
        b
    }

    /// Hands a filled buffer back from the rasterizer and marks it ready
    /// for the next visible line. Whatever valid range the rasterizer
    /// declared is clamped to the buffer's physical bounds here, so a
    /// declaration past the end can never reach the transfer engine.
    pub fn give_working(&mut self, buf: ScanBuffer)
        requires
            old(self).wf(),
            old(self).working_checked_out,
            buf.pixels.len() == old(self).timing.video_ticks,
        ensures
            final(self).working.pixels == buf.pixels,
            final(self).working.valid_len == buf.clamped_valid_spec(),
            final(self).working.wf(),
            *final(self) == (Vga {
                working: final(self).working,
                working_ready: true,
                working_checked_out: false,
                ..*old(self)
            }),
            final(self).wf(),
    {
        let mut b = buf;
        b.clamp_valid();
        self.working = b;
        self.working_checked_out = false;
        self.working_ready = true;
    }

    /// Whether the wait `w` has unblocked by engine state `self`: a frame
    /// boundary has passed since the wait began.
    pub open spec fn vblank_arrived_spec(self, w: VblankWait) -> bool {
        self.frame != w.frame_at_start
    }

    /// Begins a wait for the next frame boundary by capturing the current
    /// completed-frame count. The caller spins on [`Vga::vblank_arrived`];
    /// the engine itself never blocks.
    pub fn vblank_wait_begin(&self) -> (w: VblankWait)
        ensures
            w.frame_at_start == self.frame,
    {
        VblankWait { frame_at_start: self.frame }
    }

    /// Whether the frame boundary the wait `w` was begun for has passed.
    pub fn vblank_arrived(&self, w: &VblankWait) -> (r: bool)
        ensures
            r == self.vblank_arrived_spec(*w),
    {
        self.frame != w.frame_at_start
    }
}

/// The carry a line advance of `k` pushes into the frame counter is at most
/// `k` itself, and the wrapped line lands inside the frame.
proof fn lemma_line_carry_bounded(line: int, k: int, t: int)
    requires
        0 <= line < t,
        0 <= k,
    ensures
        0 <= (line + k) / t <= k,
        0 <= (line + k) % t < t,
{
    assert(0 <= (line + k) / t <= k && 0 <= (line + k) % t < t) by (nonlinear_arith)
        requires
            0 <= line < t,
            0 <= k,
    ;
}

/// Law: the transfer engine is only ever armed with a valid range that lies
/// inside the armed buffer's physical bounds, whatever range the rasterizer
/// declared for it.
pub proof fn lemma_armed_range_within_bounds(v: Vga)
    requires
        v.wf(),
    ensures
        v.hstate_actions().arm_valid_len matches Some(n) ==> n
            <= v.hstate_next().armed.pixels.len(),
        v.hstate_next().armed.wf(),
{
}

/// Law: a missed deadline degrades, never stalls. Every line-timer service
/// advances the raster by exactly one absolute line — so a frame always
/// completes with its full line count — and afterwards the deadline-missed
/// flag is set exactly when the new line is visible and its fresh buffer
/// was not ready, with the miss counter stepping by one exactly then.
pub proof fn lemma_deadline_miss_degrades_and_moves_past(v: Vga)
    requires
        v.wf(),
        v.frame < u64::MAX,
        v.miss_count < u64::MAX,
    ensures
        v.hstate_next().absolute_line() == v.absolute_line() + 1,
        v.hstate_next().deadline_missed == (v.timing.line_visible(v.next_line_spec())
            && !v.buffer_ready()),
        v.hstate_next().miss_count == v.miss_count + (if v.hstate_next().deadline_missed {
            1int
        } else {
            0int
        }),
{
    let t = v.timing.lines_per_frame as int;
    if v.wraps() {
        assert((v.frame + 1) * t == v.frame * t + t) by (nonlinear_arith);
    }
}

/// Law: a forced resynchronization conserves the timeline. Measured in
/// ticks, absolute line times line period plus remaining phase is exactly
/// the same before and after the shock absorber intervenes, so a missed
/// line-timer firing causes no lasting drift; and afterwards the phase
/// again lies within one line period, so cadence is restored immediately.
pub proof fn lemma_resync_conserves_timeline(v: Vga)
    requires
        v.wf(),
        v.shock_diverged(),
        v.frame + v.phase_ticks / (v.timing.line_ticks as u64) <= u64::MAX,
    ensures
        v.shock_next().absolute_line() * v.timing.line_ticks + v.shock_next().phase_ticks
            == v.absolute_line() * v.timing.line_ticks + v.phase_ticks,
        v.shock_next().phase_ticks < v.timing.line_ticks,
{
    let lt = v.timing.line_ticks as int;
    let t = v.timing.lines_per_frame as int;
    let k = v.phase_ticks as int / lt;
    let p = v.phase_ticks as int;
    lemma_line_carry_bounded(v.line as int, k, t);
    lemma_fundamental_div_mod(v.line as int + k, t);
    lemma_fundamental_div_mod(p, lt);
    let post = v.shock_next();
    assert(post.line == (v.line + k) % t && post.frame == v.frame + (v.line + k) / t
        && post.phase_ticks == p % lt);
    assert(post.absolute_line() == (v.frame + (v.line + k) / t) * t + (v.line + k) % t);
    assert((v.frame + (v.line + k) / t) * t == v.frame * t + ((v.line + k) / t) * t)
        by (nonlinear_arith);
    assert(post.absolute_line() == v.absolute_line() + k);
    assert((v.absolute_line() + k) * lt == v.absolute_line() * lt + k * lt) by (nonlinear_arith);
    assert(k * lt + p % lt == p) by {
        lemma_fundamental_div_mod(p, lt);
        assert(lt * (p / lt) == (p / lt) * lt) by (nonlinear_arith);
    }
}

/// Law: two vertical-blank waits begun while the engine stands in the same
/// frame observe the boundary identically: at every later engine state
/// either both waits have unblocked or neither has, so neither call can
/// miss a wake-up the other sees, nor wake twice for one boundary.
pub proof fn lemma_vblank_wait_idempotent(at_begin: Vga, w1: VblankWait, w2: VblankWait, later: Vga)
    requires
        w1.frame_at_start == at_begin.frame,
        w2.frame_at_start == at_begin.frame,
    ensures
        later.vblank_arrived_spec(w1) == later.vblank_arrived_spec(w2),
{
}

} // verus!
