//! Timing descriptors for a raster video mode.
//!
//! A [`Timing`] fixes one validated video standard: how many timer ticks each
//! horizontal region of a scanline takes, how the lines of a frame are laid
//! out vertically, and how far the shock absorber lets the line phase drift
//! before it forces a resynchronization. A descriptor is built once, checked
//! by [`validate`], and never changes while a raster is running.

use vstd::prelude::*;

verus! {

/// One validated raster timing: the tick counts of the four horizontal
/// regions of a scanline and the vertical layout of a frame.
///
/// A line runs sync pulse, back porch, active video, front porch, in that
/// order; the four region lengths must partition `line_ticks` exactly. One
/// active-video tick shifts out one pixel, so `video_ticks` is also the
/// width of a scanline buffer in pixels. Vertically, a frame runs from line
/// `0` to `lines_per_frame - 1`; the vertical sync pulse covers
/// `vsync_start_line .. vsync_end_line` and the visible region covers
/// `video_start_line .. video_end_line`.
#[derive(Clone, Copy, PartialEq, Eq, Structural, Debug)]
pub struct Timing {
    /// Total timer ticks in one scanline period.
    pub line_ticks: usize,
    /// Ticks of the horizontal sync pulse at the start of each line.
    pub sync_ticks: usize,
    /// Ticks between the sync pulse and the first active pixel.
    pub back_porch_ticks: usize,
    /// Ticks of active video; one tick shifts out one pixel.
    pub video_ticks: usize,
    /// Ticks after the active region before the next sync pulse.
    pub front_porch_ticks: usize,
    /// Total scanlines per frame, visible and blanking together.
    pub lines_per_frame: usize,
    /// First line of the vertical sync pulse.
    pub vsync_start_line: usize,
    /// First line after the vertical sync pulse.
    pub vsync_end_line: usize,
    /// First visible line.
    pub video_start_line: usize,
    /// First line after the visible region.
    pub video_end_line: usize,
    /// How many ticks past its due time a line-timer service may run before
    /// the shock absorber declares divergence and forces a resync.
    pub shock_tolerance_ticks: usize,
}

/// Why a requested timing was rejected.
#[derive(Clone, Copy, PartialEq, Eq, Structural, Debug)]
pub enum ConfigError {
    /// The line period is zero ticks.
    ZeroLinePeriod,
    /// Sync, back porch, active video and front porch do not sum to the
    /// line period.
    RegionSumMismatch,
    /// The active region is empty: no pixels per line.
    NoActivePixels,
    /// The vertical ranges are not ordered
    /// `vsync <= video start < video end <= frame total`.
    BadVerticalLayout,
    /// The visible region would leave no blanking line before it in which
    /// to prepare the first scanline buffer.
    NoLeadInLine,
    /// The shock-absorber tolerance is not smaller than the line period.
    ToleranceTooLarge,
}

impl Timing {
    /// A descriptor the engine accepts: the horizontal regions partition the
    /// line period, the vertical layout is ordered and leaves at least one
    /// blanking line before the visible region, and the drift tolerance is
    /// below one line period.
    pub open spec fn wf(self) -> bool {
        &&& self.line_ticks > 0
        &&& self.sync_ticks + self.back_porch_ticks + self.video_ticks
            + self.front_porch_ticks == self.line_ticks
        &&& self.video_ticks > 0
        &&& self.vsync_start_line <= self.vsync_end_line
        &&& self.vsync_end_line <= self.video_start_line
        &&& self.video_start_line < self.video_end_line
        &&& self.video_end_line <= self.lines_per_frame
        &&& self.video_start_line >= 1
        &&& self.shock_tolerance_ticks < self.line_ticks
    }

    /// Whether line `line` lies in the visible region.
    pub open spec fn line_visible(self, line: int) -> bool {
        self.video_start_line <= line < self.video_end_line
    }

    /// Whether line `line` lies in the vertical sync pulse.
    pub open spec fn line_in_vsync(self, line: int) -> bool {
        self.vsync_start_line <= line < self.vsync_end_line
    }

    /// The exact outcome of validating `self`: the first violated rule, in
    /// the order the checks run, or `Ok` when none is violated.
    pub open spec fn validate_spec(self) -> Result<(), ConfigError> {
        if self.line_ticks == 0 {
            Err(ConfigError::ZeroLinePeriod)
        } else if self.sync_ticks + self.back_porch_ticks + self.video_ticks
            + self.front_porch_ticks != self.line_ticks {
            Err(ConfigError::RegionSumMismatch)
        } else if self.video_ticks == 0 {
            Err(ConfigError::NoActivePixels)
        } else if !(self.vsync_start_line <= self.vsync_end_line
            && self.vsync_end_line <= self.video_start_line
            && self.video_start_line < self.video_end_line
            && self.video_end_line <= self.lines_per_frame) {
            Err(ConfigError::BadVerticalLayout)
        } else if self.video_start_line < 1 {
            Err(ConfigError::NoLeadInLine)
        } else if self.shock_tolerance_ticks >= self.line_ticks {
            Err(ConfigError::ToleranceTooLarge)
        } else {
            Ok(())
        }
    }

    /// Checks a requested timing against the rules the engine relies on.
    ///
    /// Returns `Ok` exactly on well-formed timings, and otherwise the first
    /// rule the descriptor violates.
    pub fn validate(&self) -> (r: Result<(), ConfigError>)
        ensures
            r == self.validate_spec(),
            r is Ok <==> self.wf(),
    {
        if self.line_ticks == 0 {
            Err(ConfigError::ZeroLinePeriod)
        } else if self.sync_ticks as u128 + self.back_porch_ticks as u128
            + self.video_ticks as u128 + self.front_porch_ticks as u128
            != self.line_ticks as u128 {
            Err(ConfigError::RegionSumMismatch)
        } else if self.video_ticks == 0 {
            Err(ConfigError::NoActivePixels)
        } else if !(self.vsync_start_line <= self.vsync_end_line
            && self.vsync_end_line <= self.video_start_line
            && self.video_start_line < self.video_end_line
            && self.video_end_line <= self.lines_per_frame) {
            Err(ConfigError::BadVerticalLayout)
        } else if self.video_start_line < 1 {
            Err(ConfigError::NoLeadInLine)
        } else if self.shock_tolerance_ticks >= self.line_ticks {
            Err(ConfigError::ToleranceTooLarge)
        } else {
            Ok(())
        }
    }

}

/// Law: in every timing that validates, the sync, back-porch, active and
/// front-porch tick counts sum to the configured line period exactly, so the
/// four regions partition every scanline with no gap and no overlap.
pub proof fn lemma_regions_partition_line_period(t: Timing)
    requires
        t.validate_spec() is Ok,
    ensures
        t.sync_ticks + t.back_porch_ticks + t.video_ticks + t.front_porch_ticks
            == t.line_ticks,
{
}

/// The 800 by 600 SVGA mode at 60 frames per second, in pixel-clock ticks:
/// 1056 ticks per line of which 800 are active, 628 lines per frame of which
/// 600 are visible.
pub fn svga_800_600() -> (t: Timing)
    ensures
        t == (Timing {
            line_ticks: 1056,
            sync_ticks: 128,
            back_porch_ticks: 88,
            video_ticks: 800,
            front_porch_ticks: 40,
            lines_per_frame: 628,
            vsync_start_line: 1,
            vsync_end_line: 5,
            video_start_line: 28,
            video_end_line: 628,
            shock_tolerance_ticks: 100,
        }),
        t.wf(),
{
    Timing {
        line_ticks: 1056,
        sync_ticks: 128,
        back_porch_ticks: 88,
        video_ticks: 800,
        front_porch_ticks: 40,
        lines_per_frame: 628,
        vsync_start_line: 1,
        vsync_end_line: 5,
        video_start_line: 28,
        video_end_line: 628,
        shock_tolerance_ticks: 100,
    }
}

} // verus!
